use vstd::prelude::*;

verus! {

/// Number of possible outcomes of a spin; guesses range over `[0, MAX_RESULTS)`.
pub const MAX_RESULTS: u32 = 6;

/// A ledger account reference: the deterministic key under which a record is
/// addressed. The key `0` is the unset marker and never names a real account.
#[derive(Clone, Copy, Debug, PartialEq, Eq, Structural)]
pub struct AccountRef {
    pub id: u64,
}

impl AccountRef {
    /// True of the cleared marker, never of a real account's key.
    pub open spec fn is_unset(self) -> bool {
        self.id == 0
    }

    /// The cleared reference, stored while no round is pending.
    pub fn unset() -> (r: AccountRef)
        ensures
            r.is_unset(),
    {
        AccountRef { id: 0 }
    }
}

/// Per-player persistent record of the single in-flight wager.
#[derive(Clone, Copy, Debug, PartialEq, Eq, Structural)]
pub struct GameState {
    /// The player's predicted outcome for the pending round, in `[0, max_result)`.
    pub player_guess: u32,
    /// Amount locked for the pending round; `0` means no active round.
    pub wager: u64,
    /// Reference of the oracle record the pending round is bound to.
    pub vrf_acc: AccountRef,
    /// Derivation tag of this record's own ledger address.
    pub bump: u8,
    /// Capability tag that authorizes payouts out of the escrow vault.
    pub game_vault_bump: u8,
    /// Number of possible outcomes; fixed configuration.
    pub max_result: u32,
    /// The oracle's seed checkpoint captured at commit time.
    pub commit_slot: u64,
}

impl GameState {
    /// A round is pending exactly while a real oracle record is referenced.
    pub open spec fn pending(self) -> bool {
        !self.vrf_acc.is_unset()
    }

    /// Well-formedness: the configuration is fixed, a pending round always
    /// carries a positive wager, and a committed guess is always in range.
    pub open spec fn wf(self) -> bool {
        &&& self.max_result == MAX_RESULTS
        &&& (self.wager > 0 <==> self.pending())
        &&& (self.pending() ==> self.player_guess < self.max_result)
    }

    /// Idle: no round pending and nothing locked.
    pub open spec fn idle(self) -> bool {
        !self.pending() && self.wager == 0
    }
}

} // verus!
