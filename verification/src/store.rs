//! The ledger store: the account map itself and its primitive operations.
//!
//! Balances live in a hash map from identity to `u64`; a parallel vector
//! remembers, in first-touch order, every identity that a credit or debit
//! has ever materialized. An identity absent from the map holds balance 0.

use vstd::prelude::*;
use vstd::hash_map::StringHashMap;

verus! {

/// The balance that the map `m` records for `id`; an absent identity
/// holds a balance of 0.
pub open spec fn balance_in(m: Map<Seq<char>, u64>, id: Seq<char>) -> u64 {
    if m.dom().contains(id) {
        m[id]
    } else {
        0
    }
}

/// The account map after crediting `amount` to `id` (entry materialized
/// if absent). Meaningful when the new balance fits in `u64`.
pub open spec fn credited(m: Map<Seq<char>, u64>, id: Seq<char>, amount: u64) -> Map<
    Seq<char>,
    u64,
> {
    m.insert(id, (balance_in(m, id) + amount) as u64)
}

/// The account map after debiting `amount` from `id` (entry materialized
/// if absent). Meaningful when `amount <= balance_in(m, id)`.
pub open spec fn debited(m: Map<Seq<char>, u64>, id: Seq<char>, amount: u64) -> Map<
    Seq<char>,
    u64,
> {
    m.insert(id, (balance_in(m, id) - amount) as u64)
}

/// The account map after a completed transfer: debit the caller, then
/// credit the recipient.
pub open spec fn transferred(
    m: Map<Seq<char>, u64>,
    caller: Seq<char>,
    to: Seq<char>,
    amount: u64,
) -> Map<Seq<char>, u64> {
    credited(debited(m, caller, amount), to, amount)
}

/// The touched-identity sequence after an operation on `id`: unchanged if
/// `id` already had an entry (`dom` is the domain before the operation),
/// otherwise extended with `id`.
pub open spec fn touched_after(ids: Seq<Seq<char>>, dom: Set<Seq<char>>, id: Seq<char>) -> Seq<
    Seq<char>,
> {
    if dom.contains(id) {
        ids
    } else {
        ids.push(id)
    }
}

/// The ledger: every identity's balance, plus the identities ever touched
/// by a credit or debit, in the order they were first touched.
pub struct TokenWallet {
    accounts: StringHashMap<u64>,
    touched: Vec<String>,
}

impl View for TokenWallet {
    type V = Map<Seq<char>, u64>;

    closed spec fn view(&self) -> Map<Seq<char>, u64> {
        self.accounts@
    }
}

impl TokenWallet {
    /// The identities ever touched by a credit or debit, oldest first.
    pub closed spec fn identities(&self) -> Seq<Seq<char>> {
        self.touched@.map_values(|s: String| s@)
    }

    /// Well-formedness: the touched list holds exactly the map's keys,
    /// each exactly once.
    pub open spec fn wf(&self) -> bool {
        &&& forall|i: int|
            0 <= i < self.identities().len() ==> self@.dom().contains(#[trigger] self.identities()[i])
        &&& forall|k: Seq<char>| self@.dom().contains(k) ==> self.identities().contains(k)
        &&& forall|i: int, j: int|
            0 <= i < j < self.identities().len() ==> self.identities()[i] != self.identities()[j]
    }

    /// Creates the empty ledger: no entries, no touched identities.
    pub fn initialize() -> (wallet: TokenWallet)
        ensures
            wallet@ == Map::<Seq<char>, u64>::empty(),
            wallet.identities() == Seq::<Seq<char>>::empty(),
            wallet.wf(),
    {
        let wallet = TokenWallet { accounts: StringHashMap::new(), touched: Vec::new() };
        proof {
            assert(wallet.identities() =~= Seq::<Seq<char>>::empty());
        }
        wallet
    }

    /// The stored balance of `identity`, or 0 if it has no entry.
    pub fn balance_of(&self, identity: &str) -> (balance: u64)
        ensures
            balance == balance_in(self@, identity@),
    {
        match self.accounts.get(identity) {
            Some(b) => *b,
            None => 0,
        }
    }

    /// Sets `identity`'s entry to `balance`, recording the identity as
    /// touched if it had no entry yet.
    fn record(&mut self, identity: &str, balance: u64)
        requires
            old(self).wf(),
        ensures
            final(self).wf(),
            final(self)@ == old(self)@.insert(identity@, balance),
            final(self).identities() == touched_after(
                old(self).identities(),
                old(self)@.dom(),
                identity@,
            ),
    {
        let fresh = !self.accounts.contains_key(identity);
        self.accounts.insert(identity.to_owned(), balance);
        if fresh {
            self.touched.push(identity.to_owned());
            proof {
                let pre = old(self).identities();
                let post = self.identities();
                assert(post =~= pre.push(identity@));
                assert forall|k: Seq<char>| self@.dom().contains(k) implies post.contains(k) by {
                    if k == identity@ {
                        assert(post[pre.len() as int] == identity@);
                    } else {
                        assert(old(self)@.dom().contains(k));
                        assert(pre.contains(k));
                        let i = choose|i: int| 0 <= i < pre.len() && pre[i] == k;
                        assert(post[i] == k);
                    }
                }
                assert forall|i: int, j: int| 0 <= i < j < post.len() implies post[i] != post[j] by {
                    if j == pre.len() {
                        assert(old(self)@.dom().contains(pre[i]));
                    }
                }
            }
        }
    }

    /// Adds `amount` to `identity`'s balance, materializing the entry if
    /// absent. Fails, changing nothing, exactly when the new balance
    /// would not fit in `u64`.
    pub fn credit(&mut self, identity: &str, amount: u64) -> (ok: bool)
        requires
            old(self).wf(),
        ensures
            final(self).wf(),
            ok == (balance_in(old(self)@, identity@) + amount <= u64::MAX),
            ok ==> final(self)@ == credited(old(self)@, identity@, amount),
            ok ==> final(self).identities() == touched_after(
                old(self).identities(),
                old(self)@.dom(),
                identity@,
            ),
            !ok ==> final(self)@ == old(self)@ && final(self).identities() == old(
                self,
            ).identities(),
    {
        let current = self.balance_of(identity);
        if amount <= u64::MAX - current {
            self.record(identity, current + amount);
            true
        } else {
            false
        }
    }

    /// Subtracts `amount` from `identity`'s balance, materializing the
    /// entry if absent. Fails, changing nothing, exactly when the balance
    /// is smaller than `amount`.
    pub fn debit(&mut self, identity: &str, amount: u64) -> (ok: bool)
        requires
            old(self).wf(),
        ensures
            final(self).wf(),
            ok == (amount <= balance_in(old(self)@, identity@)),
            ok ==> final(self)@ == debited(old(self)@, identity@, amount),
            ok ==> final(self).identities() == touched_after(
                old(self).identities(),
                old(self)@.dom(),
                identity@,
            ),
            !ok ==> final(self)@ == old(self)@ && final(self).identities() == old(
                self,
            ).identities(),
    {
        let current = self.balance_of(identity);
        if amount <= current {
            self.record(identity, current - amount);
            true
        } else {
            false
        }
    }

    /// A copy of every entry, in first-touch order: each touched identity
    /// paired with its current balance.
    pub fn snapshot(&self) -> (entries: Vec<(String, u64)>)
        requires
            self.wf(),
        ensures
            entries@.len() == self.identities().len(),
            forall|i: int|
                0 <= i < entries@.len() ==> (#[trigger] entries@[i]).0@ == self.identities()[i]
                    && entries@[i].1 == balance_in(self@, self.identities()[i]),
    {
        let mut entries: Vec<(String, u64)> = Vec::new();
        let mut idx: usize = 0;
        while idx < self.touched.len()
            invariant
                self.wf(),
                idx <= self.touched.len(),
                entries@.len() == idx,
                forall|i: int|
                    0 <= i < idx ==> (#[trigger] entries@[i]).0@ == self.identities()[i]
                        && entries@[i].1 == balance_in(self@, self.identities()[i]),
            decreases self.touched.len() - idx,
        {
            let identity = &self.touched[idx];
            let balance = self.balance_of(identity.as_str());
            entries.push((identity.clone(), balance));
            idx = idx + 1;
        }
        entries
    }
}

} // verus!
