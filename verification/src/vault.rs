use vstd::prelude::*;

verus! {

/// The custody balance for exactly one challenge.
///
/// The balance equals the sum of deposits minus the sum of withdrawals made
/// for that challenge. The hosting environment debits depositors and credits
/// recipients; the vault tracks what is still owed.
///
/// `withdraw` demands a sufficient balance as a precondition rather than
/// returning an error: an insufficient balance would be an internal
/// consistency fault, and the lifecycle contracts prove it never occurs.
#[derive(Clone, Copy, Debug)]
pub struct Vault {
    pub balance: u64,
}

impl Vault {
    /// A fresh, empty vault for a newly created challenge.
    pub fn new() -> (v: Vault)
        ensures
            v.balance == 0,
    {
        Vault { balance: 0 }
    }

    /// Add a participant's stake to the custodied balance.
    pub fn deposit(&mut self, amount: u64)
        requires
            old(self).balance + amount <= u64::MAX,
        ensures
            final(self).balance == old(self).balance + amount,
    {
        self.balance = self.balance + amount;
    }

    /// Release part of the custodied balance to a recipient.
    pub fn withdraw(&mut self, amount: u64)
        requires
            amount <= old(self).balance,
        ensures
            final(self).balance == old(self).balance - amount,
    {
        self.balance = self.balance - amount;
    }
}

} // verus!
