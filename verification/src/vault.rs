use vstd::prelude::*;

verus! {

/// The program-controlled pooled fund holder. It is debited into by a commit
/// (player to vault) and credited out of by a settlement (vault to player),
/// and by no other path: the paying-out side is internal to the engine, which
/// models the vault authority being held by the program and never by a caller.
#[derive(Clone, Copy, Debug, PartialEq, Eq, Structural)]
pub struct EscrowVault {
    pub balance: u64,
}

impl EscrowVault {
    pub fn new(balance: u64) -> (v: EscrowVault)
        ensures
            v.balance == balance,
    {
        EscrowVault { balance }
    }

    /// Funds moving in from a player at commit time.
    pub(crate) fn deposit(&mut self, amount: u64)
        requires
            old(self).balance + amount <= u64::MAX,
        ensures
            final(self).balance == old(self).balance + amount,
    {
        self.balance = self.balance + amount;
    }

    /// A payout to the winning player. Only the settlement engine can reach
    /// this, which models the vault's self-authorized transfer-out.
    pub(crate) fn pay_out(&mut self, amount: u64)
        requires
            old(self).balance >= amount,
        ensures
            final(self).balance == old(self).balance - amount,
    {
        self.balance = self.balance - amount;
    }
}

} // verus!
