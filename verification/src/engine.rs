//! The transfer engine: the two mutating entry points, built from the
//! store's credit and debit primitives.

use vstd::prelude::*;
use crate::outcome::{ReceiveOutcome, SendOutcome};
use crate::store::{balance_in, credited, debited, touched_after, transferred, TokenWallet};

verus! {

/// Whether the credit half of a transfer fits in `u64`: the recipient's
/// balance after the caller's debit, plus the amount, stays representable.
pub open spec fn send_fits(
    m: Map<Seq<char>, u64>,
    caller: Seq<char>,
    to: Seq<char>,
    amount: u64,
) -> bool {
    balance_in(debited(m, caller, amount), to) + amount <= u64::MAX
}

impl TokenWallet {
    /// Moves `amount` tokens from `caller` to `to`.
    ///
    /// Fails without touching the ledger when the caller's balance is
    /// smaller than `amount` (reporting that balance) or when the credit
    /// would overflow the recipient's balance; otherwise debits the
    /// caller, credits the recipient, and reports the amount and the
    /// recipient. A transfer to oneself is permitted and leaves every
    /// balance as it was.
    pub fn send_tokens(&mut self, caller: String, to: String, amount: u64) -> (outcome:
        SendOutcome)
        requires
            old(self).wf(),
        ensures
            final(self).wf(),
            balance_in(old(self)@, caller@) < amount ==> {
                &&& outcome == (SendOutcome::InsufficientFunds {
                    available: balance_in(old(self)@, caller@),
                })
                &&& final(self)@ == old(self)@
                &&& final(self).identities() == old(self).identities()
            },
            balance_in(old(self)@, caller@) >= amount && !send_fits(
                old(self)@,
                caller@,
                to@,
                amount,
            ) ==> {
                &&& outcome == SendOutcome::Overflow
                &&& final(self)@ == old(self)@
                &&& final(self).identities() == old(self).identities()
            },
            balance_in(old(self)@, caller@) >= amount && send_fits(
                old(self)@,
                caller@,
                to@,
                amount,
            ) ==> {
                &&& (outcome matches SendOutcome::Sent { amount: sent, to: recipient }
                    && sent == amount && recipient@ == to@)
                &&& final(self)@ == transferred(old(self)@, caller@, to@, amount)
                &&& final(self).identities() == touched_after(
                    touched_after(old(self).identities(), old(self)@.dom(), caller@),
                    old(self)@.dom().insert(caller@),
                    to@,
                )
            },
    {
        let available = self.balance_of(caller.as_str());
        if available < amount {
            return SendOutcome::InsufficientFunds { available };
        }
        let fits: bool = if caller == to {
            proof {
                assert(balance_in(debited(self@, caller@, amount), to@) == available - amount);
            }
            true
        } else {
            let recipient_balance = self.balance_of(to.as_str());
            proof {
                assert(balance_in(debited(self@, caller@, amount), to@) == recipient_balance);
            }
            amount <= u64::MAX - recipient_balance
        };
        if !fits {
            return SendOutcome::Overflow;
        }
        let _debit_ok = self.debit(caller.as_str(), amount);
        let _credit_ok = self.credit(to.as_str(), amount);
        SendOutcome::Sent { amount, to }
    }

    /// Credits `amount` tokens to `caller`, attributed to `from`.
    ///
    /// The ledger change does not depend on `from`: no account is
    /// debited, and `from` is carried only into the reported outcome.
    /// Fails without touching the ledger exactly when the credit would
    /// overflow the caller's balance.
    pub fn receive_tokens(&mut self, caller: String, from: String, amount: u64) -> (outcome:
        ReceiveOutcome)
        requires
            old(self).wf(),
        ensures
            final(self).wf(),
            balance_in(old(self)@, caller@) + amount <= u64::MAX ==> {
                &&& (outcome matches ReceiveOutcome::Received { amount: received, from: source }
                    && received == amount && source@ == from@)
                &&& final(self)@ == credited(old(self)@, caller@, amount)
                &&& final(self).identities() == touched_after(
                    old(self).identities(),
                    old(self)@.dom(),
                    caller@,
                )
            },
            balance_in(old(self)@, caller@) + amount > u64::MAX ==> {
                &&& outcome == ReceiveOutcome::Overflow
                &&& final(self)@ == old(self)@
                &&& final(self).identities() == old(self).identities()
            },
    {
        let ok = self.credit(caller.as_str(), amount);
        if ok {
            ReceiveOutcome::Received { amount, from }
        } else {
            ReceiveOutcome::Overflow
        }
    }
}

} // verus!
