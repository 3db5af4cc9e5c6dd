//! Read-only queries: one balance, or a snapshot of all of them.

use vstd::prelude::*;
use crate::store::{balance_in, TokenWallet};

verus! {

impl TokenWallet {
    /// The caller's balance; 0 for an identity no mutating call has
    /// touched. Pure read: the ledger is not changed and no entry is
    /// materialized.
    pub fn get_balance(&self, caller: &str) -> (balance: u64)
        ensures
            balance == balance_in(self@, caller@),
    {
        self.balance_of(caller)
    }

    /// Every identity ever touched by a credit or debit, each paired
    /// with its current balance, in first-touch order; identities never
    /// touched are absent.
    pub fn get_all_balances(&self) -> (balances: Vec<(String, u64)>)
        requires
            self.wf(),
        ensures
            balances@.len() == self.identities().len(),
            forall|i: int|
                0 <= i < balances@.len() ==> (#[trigger] balances@[i]).0@ == self.identities()[i]
                    && balances@[i].1 == balance_in(self@, self.identities()[i]),
            forall|k: Seq<char>|
                self@.dom().contains(k) ==> exists|i: int|
                    0 <= i < balances@.len() && (#[trigger] balances@[i]).0@ == k,
            forall|i: int, j: int|
                0 <= i < j < balances@.len() ==> balances@[i].0@ != balances@[j].0@,
    {
        let entries = self.snapshot();
        proof {
            assert forall|k: Seq<char>| self@.dom().contains(k) implies exists|i: int|
                0 <= i < entries@.len() && (#[trigger] entries@[i]).0@ == k by {
                assert(self.identities().contains(k));
                let i = choose|i: int|
                    0 <= i < self.identities().len() && self.identities()[i] == k;
                assert(entries@[i].0@ == k);
            }
        }
        entries
    }
}

} // verus!
