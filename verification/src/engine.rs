use vstd::prelude::*;

use crate::error::ErrorCode;
use crate::oracle::OracleRecord;
use crate::oracle::read_oracle;
use crate::oracle::record_parses;
use crate::oracle::record_reveal_slot;
use crate::oracle::record_seed_slot;
use crate::oracle::record_value;
use crate::state::AccountRef;
use crate::state::GameState;
use crate::state::MAX_RESULTS;
use crate::vault::EscrowVault;

verus! {

/// How many checkpoints old an oracle record may be at commit time before it
/// counts as stale and must be re-requested.
pub const FRESHNESS_TOLERANCE: u64 = 5;

/// Creates the one idle game state a player starts from: nothing locked, no
/// round pending, the outcome range fixed, and the two address-derivation
/// tags recorded. The ledger's allocation semantics guarantee this runs at
/// most once per player, so repeated initialization is a caller precondition,
/// not a branch here.
pub fn initialize(bump: u8, game_vault_bump: u8) -> (g: GameState)
    ensures
        g.wf(),
        g.idle(),
        g.player_guess == 0,
        g.wager == 0,
        g.vrf_acc.is_unset(),
        g.commit_slot == 0,
        g.max_result == MAX_RESULTS,
        g.bump == bump,
        g.game_vault_bump == game_vault_bump,
{
    GameState {
        player_guess: 0,
        wager: 0,
        vrf_acc: AccountRef::unset(),
        bump,
        game_vault_bump,
        max_result: MAX_RESULTS,
        commit_slot: 0,
    }
}

/// Whether an oracle record seeded at `seed_slot` is stale at `current_slot`:
/// more than the freshness tolerance of checkpoints old.
pub open spec fn record_stale(seed_slot: u64, current_slot: u64) -> bool {
    seed_slot + FRESHNESS_TOLERANCE < current_slot
}

/// The first reason a commit over an already-parsed record is refused, or
/// `None` when it is accepted. `resolves` says whether the record already
/// resolves at the current checkpoint. Exactly one round may be pending per
/// player, so a commit from a pending state is always refused: the engine
/// cannot see the prior record here, so it never lets a new wager overwrite
/// a round that has not been settled.
pub open spec fn commit_error(
    g: GameState,
    guess: u32,
    wager: u64,
    seed_slot: u64,
    resolves: bool,
    current_slot: u64,
) -> Option<ErrorCode> {
    if wager == 0 {
        Some(ErrorCode::ZeroBet)
    } else if guess >= g.max_result {
        Some(ErrorCode::InvalidGuess)
    } else if g.pending() {
        Some(ErrorCode::RoundAlreadyPending)
    } else if record_stale(seed_slot, current_slot) {
        Some(ErrorCode::RandomDataExpired)
    } else if resolves {
        Some(ErrorCode::RandomDataAlreadyKnown)
    } else {
        None
    }
}

/// The first reason a commit over raw oracle bytes is refused, or `None`
/// when it is accepted: input validation precedes parsing, parsing precedes
/// the pending-round and randomness-timing checks.
pub open spec fn call_spin_error(
    g: GameState,
    guess: u32,
    wager: u64,
    data: Seq<u8>,
    current_slot: u64,
) -> Option<ErrorCode> {
    if wager == 0 {
        Some(ErrorCode::ZeroBet)
    } else if guess >= g.max_result {
        Some(ErrorCode::InvalidGuess)
    } else if !record_parses(data) {
        Some(ErrorCode::MalformedRecord)
    } else {
        commit_error(
            g,
            guess,
            wager,
            record_seed_slot(data),
            current_slot == record_reveal_slot(data),
            current_slot,
        )
    }
}

/// The game state after a commit is accepted: the round's parameters are
/// recorded and the oracle's seed checkpoint is captured.
pub open spec fn committed(
    g: GameState,
    guess: u32,
    acc: AccountRef,
    wager: u64,
    seed_slot: u64,
) -> GameState {
    GameState { player_guess: guess, wager, vrf_acc: acc, commit_slot: seed_slot, ..g }
}

/// Commits a wager against an already-parsed oracle record: validates the
/// input, refuses a commit while a round is already pending, validates the
/// record's timing, and on acceptance records the round and moves the wager
/// from the player into the vault, all or nothing.
pub fn commit_round(
    game_state: &mut GameState,
    guess: u32,
    randomness_acc: AccountRef,
    wager: u64,
    record: &OracleRecord,
    current_slot: u64,
    player_balance: &mut u64,
    vault: &mut EscrowVault,
) -> (r: Result<(), ErrorCode>)
    requires
        old(game_state).wf(),
        !randomness_acc.is_unset(),
        commit_error(
            *old(game_state),
            guess,
            wager,
            record.seed_slot,
            record.value is Some,
            current_slot,
        ) is None ==> *old(player_balance) >= wager && old(vault).balance + wager <= u64::MAX,
    ensures
        final(game_state).wf(),
        ({
            let decision = commit_error(
                *old(game_state),
                guess,
                wager,
                record.seed_slot,
                record.value is Some,
                current_slot,
            );
            match r {
                Err(e) => {
                    &&& decision == Some(e)
                    &&& *final(game_state) == *old(game_state)
                    &&& *final(player_balance) == *old(player_balance)
                    &&& *final(vault) == *old(vault)
                },
                Ok(()) => {
                    &&& decision is None
                    &&& *final(game_state) == committed(
                        *old(game_state),
                        guess,
                        randomness_acc,
                        wager,
                        record.seed_slot,
                    )
                    &&& final(game_state).pending()
                    &&& *final(player_balance) == *old(player_balance) - wager
                    &&& final(vault).balance == old(vault).balance + wager
                },
            }
        }),
{
    if wager == 0 {
        return Err(ErrorCode::ZeroBet);
    }
    if guess >= game_state.max_result {
        return Err(ErrorCode::InvalidGuess);
    }
    if game_state.vrf_acc.id != 0 {
        return Err(ErrorCode::RoundAlreadyPending);
    }
    if current_slot > FRESHNESS_TOLERANCE && record.seed_slot < current_slot - FRESHNESS_TOLERANCE {
        return Err(ErrorCode::RandomDataExpired);
    }
    if record.value.is_some() {
        return Err(ErrorCode::RandomDataAlreadyKnown);
    }
    game_state.player_guess = guess;
    game_state.wager = wager;
    game_state.commit_slot = record.seed_slot;
    game_state.vrf_acc = randomness_acc;
    *player_balance = *player_balance - wager;
    vault.deposit(wager);
    Ok(())
}

/// Commits a wager against the raw bytes of the oracle record named by
/// `randomness_acc`, resolving freshness against the current checkpoint.
/// This is the commit entry point: it parses the record through the oracle
/// adapter and hands the parsed view to `commit_round`.
pub fn call_spin(
    game_state: &mut GameState,
    guess: u32,
    randomness_acc: AccountRef,
    wager: u64,
    oracle_data: &Vec<u8>,
    current_slot: u64,
    player_balance: &mut u64,
    vault: &mut EscrowVault,
) -> (r: Result<(), ErrorCode>)
    requires
        old(game_state).wf(),
        !randomness_acc.is_unset(),
        call_spin_error(*old(game_state), guess, wager, oracle_data@, current_slot) is None
            ==> *old(player_balance) >= wager && old(vault).balance + wager <= u64::MAX,
    ensures
        final(game_state).wf(),
        ({
            let decision = call_spin_error(
                *old(game_state),
                guess,
                wager,
                oracle_data@,
                current_slot,
            );
            match r {
                Err(e) => {
                    &&& decision == Some(e)
                    &&& *final(game_state) == *old(game_state)
                    &&& *final(player_balance) == *old(player_balance)
                    &&& *final(vault) == *old(vault)
                },
                Ok(()) => {
                    &&& decision is None
                    &&& *final(game_state) == committed(
                        *old(game_state),
                        guess,
                        randomness_acc,
                        wager,
                        record_seed_slot(oracle_data@),
                    )
                    &&& final(game_state).pending()
                    &&& *final(player_balance) == *old(player_balance) - wager
                    &&& final(vault).balance == old(vault).balance + wager
                },
            }
        }),
{
    if wager == 0 {
        return Err(ErrorCode::ZeroBet);
    }
    if guess >= game_state.max_result {
        return Err(ErrorCode::InvalidGuess);
    }
    match read_oracle(oracle_data, current_slot) {
        None => Err(ErrorCode::MalformedRecord),
        Some(record) => commit_round(
            game_state,
            guess,
            randomness_acc,
            wager,
            &record,
            current_slot,
            player_balance,
            vault,
        ),
    }
}

/// The outcome a revealed value reduces to: its first byte modulo the number
/// of possible outcomes.
pub open spec fn outcome_of(value: Seq<u8>, max_result: u32) -> u32
    recommends
        value.len() > 0,
        max_result > 0,
{
    (value[0] as u32) % max_result
}

/// Whether a revealed value wins against a guess.
pub open spec fn wins(value: Seq<u8>, guess: u32, max_result: u32) -> bool {
    outcome_of(value, max_result) == guess
}

/// The first reason a settlement over an already-parsed record is refused,
/// or `None` when it goes through. `resolves` says whether the record
/// resolves at the current checkpoint; the vault balance gates the payout.
pub open spec fn settle_error(
    g: GameState,
    acc: AccountRef,
    seed_slot: u64,
    resolves: bool,
    vault_balance: u64,
) -> Option<ErrorCode> {
    if acc != g.vrf_acc {
        Some(ErrorCode::WrongRandomDataAcc)
    } else if seed_slot != g.commit_slot {
        Some(ErrorCode::RandomDataExpired)
    } else if !resolves {
        Some(ErrorCode::RandomnessNotResolvedYet)
    } else if g.wager * 2 > u64::MAX {
        Some(ErrorCode::Overflow)
    } else if vault_balance < g.wager * 2 {
        Some(ErrorCode::InsufficientVault)
    } else {
        None
    }
}

/// The first reason a settlement over raw oracle bytes is refused, or `None`
/// when it goes through: the reference check precedes parsing, parsing
/// precedes everything that reads the record.
pub open spec fn settle_spin_error(
    g: GameState,
    acc: AccountRef,
    data: Seq<u8>,
    current_slot: u64,
    vault_balance: u64,
) -> Option<ErrorCode> {
    if acc != g.vrf_acc {
        Some(ErrorCode::WrongRandomDataAcc)
    } else if !record_parses(data) {
        Some(ErrorCode::MalformedRecord)
    } else {
        settle_error(
            g,
            acc,
            record_seed_slot(data),
            current_slot == record_reveal_slot(data),
            vault_balance,
        )
    }
}

/// The game state after a settlement: back to idle, ready for the next
/// round; a cleared reference can never match a real record again.
pub open spec fn settled(g: GameState) -> GameState {
    GameState { player_guess: 0, wager: 0, vrf_acc: AccountRef { id: 0 }, commit_slot: 0, ..g }
}

/// Settles the pending round against an already-parsed oracle record:
/// validates the reference, the captured checkpoint and the resolution,
/// computes the payout with overflow detection, checks the vault can cover
/// it, and only then pays out double the wager on a win and clears the
/// round, all or nothing.
pub fn settle_round(
    game_state: &mut GameState,
    randomness_acc: AccountRef,
    record: &OracleRecord,
    player_balance: &mut u64,
    vault: &mut EscrowVault,
) -> (r: Result<(), ErrorCode>)
    requires
        old(game_state).wf(),
        !randomness_acc.is_unset(),
        record.wf(),
        settle_error(
            *old(game_state),
            randomness_acc,
            record.seed_slot,
            record.value is Some,
            old(vault).balance,
        ) is None && wins(
            record.value->Some_0@,
            old(game_state).player_guess,
            old(game_state).max_result,
        ) ==> *old(player_balance) + old(game_state).wager * 2 <= u64::MAX,
    ensures
        final(game_state).wf(),
        ({
            let decision = settle_error(
                *old(game_state),
                randomness_acc,
                record.seed_slot,
                record.value is Some,
                old(vault).balance,
            );
            match r {
                Err(e) => {
                    &&& decision == Some(e)
                    &&& *final(game_state) == *old(game_state)
                    &&& *final(player_balance) == *old(player_balance)
                    &&& *final(vault) == *old(vault)
                },
                Ok(()) => {
                    &&& decision is None
                    &&& *final(game_state) == settled(*old(game_state))
                    &&& final(game_state).idle()
                    &&& (wins(
                        record.value->Some_0@,
                        old(game_state).player_guess,
                        old(game_state).max_result,
                    ) ==> final(vault).balance == old(vault).balance - old(game_state).wager * 2
                        && *final(player_balance) == *old(player_balance) + old(
                        game_state,
                    ).wager * 2)
                    &&& (!wins(
                        record.value->Some_0@,
                        old(game_state).player_guess,
                        old(game_state).max_result,
                    ) ==> final(vault).balance == old(vault).balance && *final(player_balance)
                        == *old(player_balance))
                },
            }
        }),
{
    if randomness_acc != game_state.vrf_acc {
        return Err(ErrorCode::WrongRandomDataAcc);
    }
    if record.seed_slot != game_state.commit_slot {
        return Err(ErrorCode::RandomDataExpired);
    }
    let value = match &record.value {
        None => {
            return Err(ErrorCode::RandomnessNotResolvedYet);
        },
        Some(v) => v,
    };
    let payout = match game_state.wager.checked_mul(2) {
        None => {
            return Err(ErrorCode::Overflow);
        },
        Some(p) => p,
    };
    if vault.balance < payout {
        return Err(ErrorCode::InsufficientVault);
    }
    let actual_result = (value[0] as u32) % game_state.max_result;
    if actual_result == game_state.player_guess {
        vault.pay_out(payout);
        *player_balance = *player_balance + payout;
    }
    game_state.player_guess = 0;
    game_state.wager = 0;
    game_state.vrf_acc = AccountRef::unset();
    game_state.commit_slot = 0;
    Ok(())
}

/// Settles the pending round against the raw bytes of the oracle record
/// named by `randomness_acc`, resolved at the current checkpoint. This is
/// the settlement entry point: it parses the record through the oracle
/// adapter and hands the parsed view to `settle_round`.
pub fn settle_spin(
    game_state: &mut GameState,
    randomness_acc: AccountRef,
    oracle_data: &Vec<u8>,
    current_slot: u64,
    player_balance: &mut u64,
    vault: &mut EscrowVault,
) -> (r: Result<(), ErrorCode>)
    requires
        old(game_state).wf(),
        !randomness_acc.is_unset(),
        settle_spin_error(
            *old(game_state),
            randomness_acc,
            oracle_data@,
            current_slot,
            old(vault).balance,
        ) is None && wins(
            record_value(oracle_data@),
            old(game_state).player_guess,
            old(game_state).max_result,
        ) ==> *old(player_balance) + old(game_state).wager * 2 <= u64::MAX,
    ensures
        final(game_state).wf(),
        ({
            let decision = settle_spin_error(
                *old(game_state),
                randomness_acc,
                oracle_data@,
                current_slot,
                old(vault).balance,
            );
            match r {
                Err(e) => {
                    &&& decision == Some(e)
                    &&& *final(game_state) == *old(game_state)
                    &&& *final(player_balance) == *old(player_balance)
                    &&& *final(vault) == *old(vault)
                },
                Ok(()) => {
                    &&& decision is None
                    &&& *final(game_state) == settled(*old(game_state))
                    &&& final(game_state).idle()
                    &&& (wins(
                        record_value(oracle_data@),
                        old(game_state).player_guess,
                        old(game_state).max_result,
                    ) ==> final(vault).balance == old(vault).balance - old(game_state).wager * 2
                        && *final(player_balance) == *old(player_balance) + old(
                        game_state,
                    ).wager * 2)
                    &&& (!wins(
                        record_value(oracle_data@),
                        old(game_state).player_guess,
                        old(game_state).max_result,
                    ) ==> final(vault).balance == old(vault).balance && *final(player_balance)
                        == *old(player_balance))
                },
            }
        }),
{
    if randomness_acc != game_state.vrf_acc {
        return Err(ErrorCode::WrongRandomDataAcc);
    }
    match read_oracle(oracle_data, current_slot) {
        None => Err(ErrorCode::MalformedRecord),
        Some(record) => settle_round(game_state, randomness_acc, &record, player_balance, vault),
    }
}

} // verus!
