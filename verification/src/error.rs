use vstd::prelude::*;

verus! {

/// Every way a commit or a settlement can be refused. Each operation rejects
/// its input before any state is touched, so an error always leaves the game
/// state, the vault and the player balance exactly as they were.
#[derive(Clone, Copy, Debug, PartialEq, Eq, Structural)]
pub enum ErrorCode {
    /// The oracle record is too old relative to the current checkpoint, or at
    /// settlement its seed checkpoint no longer matches the committed one.
    RandomDataExpired,
    /// The oracle record already resolves at commit time, so its outcome is
    /// public and betting on it would be front-running the result.
    RandomDataAlreadyKnown,
    /// The record offered for settlement is not the one that was committed.
    WrongRandomDataAcc,
    /// The oracle has not revealed a value for the committed record yet;
    /// settlement can be retried later.
    RandomnessNotResolvedYet,
    /// The guess is outside the range of possible outcomes.
    InvalidGuess,
    /// Doubling the wager would overflow the payout arithmetic.
    Overflow,
    /// A wager of zero is not allowed.
    ZeroBet,
    /// A round is already pending; exactly one round may be pending per
    /// player, so a new commit is refused until the round is settled.
    RoundAlreadyPending,
    /// The vault cannot cover the payout; settlement can be retried once the
    /// vault is funded.
    InsufficientVault,
    /// The raw oracle record bytes cannot be parsed.
    MalformedRecord,
}

} // verus!
