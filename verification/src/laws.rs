//! Laws of the ledger, stated and proved over the spec-level model that
//! the executable contracts speak of.

use vstd::prelude::*;
use crate::store::{balance_in, credited, debited, transferred, TokenWallet};

verus! {

/// A completed transfer debits the caller by exactly the amount, credits
/// the recipient by exactly the amount, leaves every other balance
/// unchanged, and nets to no change on a transfer to oneself.
pub proof fn lemma_transfer_updates_balances(
    m: Map<Seq<char>, u64>,
    caller: Seq<char>,
    to: Seq<char>,
    amount: u64,
)
    requires
        amount <= balance_in(m, caller),
        balance_in(debited(m, caller, amount), to) + amount <= u64::MAX,
    ensures
        caller != to ==> balance_in(transferred(m, caller, to, amount), caller) == balance_in(
            m,
            caller,
        ) - amount,
        caller != to ==> balance_in(transferred(m, caller, to, amount), to) == balance_in(m, to)
            + amount,
        caller == to ==> balance_in(transferred(m, caller, to, amount), to) == balance_in(m, to),
        forall|k: Seq<char>|
            k != caller && k != to ==> balance_in(transferred(m, caller, to, amount), k)
                == balance_in(m, k),
{
}

/// A credit raises exactly the credited identity's balance, by exactly
/// the amount; every other balance is unchanged. Nothing besides the
/// credited identity and the amount enters the result, so the source an
/// operation is attributed to cannot affect the ledger.
pub proof fn lemma_credit_updates_balances(m: Map<Seq<char>, u64>, id: Seq<char>, amount: u64)
    requires
        balance_in(m, id) + amount <= u64::MAX,
    ensures
        balance_in(credited(m, id, amount), id) == balance_in(m, id) + amount,
        forall|k: Seq<char>|
            k != id ==> balance_in(credited(m, id, amount), k) == balance_in(m, k),
{
}

/// An identity that no mutating call has touched holds balance 0.
pub proof fn lemma_untouched_identity_has_zero_balance(wallet: &TokenWallet, id: Seq<char>)
    requires
        wallet.wf(),
        !wallet.identities().contains(id),
    ensures
        balance_in(wallet@, id) == 0,
{
    if wallet@.dom().contains(id) {
        assert(wallet.identities().contains(id));
    }
}

/// The touched identities are exactly the ledger's entries: the snapshot
/// lists an identity if and only if a credit or debit has materialized
/// its entry.
pub proof fn lemma_touched_identities_are_entries(wallet: &TokenWallet, id: Seq<char>)
    requires
        wallet.wf(),
    ensures
        wallet.identities().contains(id) <==> wallet@.dom().contains(id),
{
    if wallet.identities().contains(id) {
        let i = choose|i: int|
            0 <= i < wallet.identities().len() && wallet.identities()[i] == id;
        assert(wallet@.dom().contains(wallet.identities()[i]));
    }
}

/// A transfer of 0 tokens changes no balance, whoever the parties are.
pub proof fn lemma_zero_transfer_preserves_balances(
    m: Map<Seq<char>, u64>,
    caller: Seq<char>,
    to: Seq<char>,
)
    ensures
        forall|k: Seq<char>| balance_in(transferred(m, caller, to, 0), k) == balance_in(m, k),
{
}

/// A credit of 0 tokens changes no balance, whoever it is attributed to.
pub proof fn lemma_zero_credit_preserves_balances(m: Map<Seq<char>, u64>, id: Seq<char>)
    ensures
        forall|k: Seq<char>| balance_in(credited(m, id, 0), k) == balance_in(m, k),
{
}

} // verus!
