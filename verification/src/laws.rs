use vstd::prelude::*;

use crate::engine::commit_error;
use crate::engine::committed;
use crate::engine::settle_error;
use crate::engine::settled;
use crate::engine::wins;
use crate::error::ErrorCode;
use crate::state::AccountRef;
use crate::state::GameState;

verus! {

/// A winning round trip. If a commit of wager `w` is accepted from a
/// well-formed state, then a settlement of the committed round against the
/// same record, resolved to a value that reduces to the committed guess, is
/// owed success whenever the payout fits and the vault (after taking the
/// wager in) can cover it — and it moves exactly `2 * w` from the vault to
/// the player, so that over the whole round the vault is down exactly `w`
/// and the player is up exactly `w`.
pub proof fn lemma_winning_round_trip(
    g0: GameState,
    guess: u32,
    acc: AccountRef,
    w: u64,
    seed: u64,
    value: Seq<u8>,
    slot_c: u64,
    p0: u64,
    v0: u64,
)
    requires
        g0.wf(),
        !acc.is_unset(),
        commit_error(g0, guess, w, seed, false, slot_c) is None,
        value.len() > 0,
        wins(value, guess, g0.max_result),
        p0 >= w,
        2 * w <= u64::MAX,
        v0 + w <= u64::MAX,
        v0 + w >= 2 * w,
    ensures
        ({
            // After the commit the wager sits with the vault; after the
            // winning settlement the vault has paid out double the wager.
            let g1 = committed(g0, guess, acc, w, seed);
            let v_after_commit = v0 + w;
            let p_after_commit = p0 - w;
            let v_after_settle = v_after_commit - 2 * w;
            let p_after_settle = p_after_commit + 2 * w;
            &&& g1.wf()
            &&& g1.pending()
            &&& settle_error(g1, acc, seed, true, v_after_commit as u64) is None
            &&& wins(value, g1.player_guess, g1.max_result)
            &&& v_after_settle == v0 - w
            &&& p_after_settle == p0 + w
            &&& settled(g1).idle()
        }),
{
}

/// A losing round trip. If a commit of wager `w` is accepted and the
/// settlement of that round resolves to a value that does not reduce to the
/// committed guess, the settlement still succeeds once the payout fits and
/// the vault covers it, but nothing moves at settlement — the settlement
/// contract then leaves both balances exactly where the commit put them, so
/// over the whole round the wager simply stays with the vault: the vault is
/// up exactly `w` and the player is down exactly `w`.
pub proof fn lemma_losing_round_trip(
    g0: GameState,
    guess: u32,
    acc: AccountRef,
    w: u64,
    seed: u64,
    value: Seq<u8>,
    slot_c: u64,
    p0: u64,
    v0: u64,
)
    requires
        g0.wf(),
        !acc.is_unset(),
        commit_error(g0, guess, w, seed, false, slot_c) is None,
        value.len() > 0,
        !wins(value, guess, g0.max_result),
        2 * w <= u64::MAX,
        v0 + w <= u64::MAX,
        v0 + w >= 2 * w,
    ensures
        ({
            let g1 = committed(g0, guess, acc, w, seed);
            &&& g1.wf()
            &&& settle_error(g1, acc, seed, true, (v0 + w) as u64) is None
            &&& !wins(value, g1.player_guess, g1.max_result)
            &&& settled(g1).idle()
        }),
{
}

/// An underfunded vault only postpones a settlement. If a settlement is
/// refused with `InsufficientVault`, the game state is untouched (the
/// settlement entry points leave every input unchanged on an error), and the
/// same settlement against the same record is owed success once the vault
/// holds enough to cover the payout.
pub proof fn lemma_settle_retry_after_funding(
    g: GameState,
    acc: AccountRef,
    seed: u64,
    resolves: bool,
    v_low: u64,
    v_high: u64,
)
    requires
        settle_error(g, acc, seed, resolves, v_low) == Some(ErrorCode::InsufficientVault),
        v_high >= 2 * g.wager,
    ensures
        settle_error(g, acc, seed, resolves, v_high) is None,
{
}

/// No transition skips a state: a settlement attempted while no round is
/// pending is refused, surfacing as a reference mismatch, because an idle
/// state holds the cleared reference and a real record never does.
pub proof fn lemma_settle_from_idle_fails(
    g: GameState,
    acc: AccountRef,
    seed: u64,
    resolves: bool,
    vault_balance: u64,
)
    requires
        g.idle(),
        !acc.is_unset(),
    ensures
        settle_error(g, acc, seed, resolves, vault_balance) == Some(
            ErrorCode::WrongRandomDataAcc,
        ),
{
}

/// No double settlement. Once a settlement of a committed round succeeds,
/// the state is cleared back to idle, and a second settlement — against any
/// record whatsoever, resolved or not, whatever the vault holds — is refused
/// with `WrongRandomDataAcc`: the cleared reference can never match a real
/// record again, so a settled round can never pay twice.
pub proof fn lemma_no_double_settle(
    g: GameState,
    acc: AccountRef,
    seed: u64,
    resolves: bool,
    vault_balance: u64,
    acc2: AccountRef,
    seed2: u64,
    resolves2: bool,
    vault_balance2: u64,
)
    requires
        !acc.is_unset(),
        !acc2.is_unset(),
        settle_error(g, acc, seed, resolves, vault_balance) is None,
    ensures
        settled(g).idle(),
        settle_error(settled(g), acc2, seed2, resolves2, vault_balance2) == Some(
            ErrorCode::WrongRandomDataAcc,
        ),
{
}

} // verus!
