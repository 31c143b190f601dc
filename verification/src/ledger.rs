use crate::assoc::{
    assoc_map, distinct_keys, lemma_assoc_absent, lemma_assoc_at, lemma_assoc_finite,
    lemma_assoc_push, lemma_assoc_remove, lemma_assoc_update,
};
use crate::types::Address;
use vstd::prelude::*;

verus! {

/// What an account holds according to a balance map: its entry, or nothing.
pub open spec fn balance(m: Map<Address, nat>, who: Address) -> nat {
    if m.contains_key(who) {
        m[who]
    } else {
        0
    }
}

/// The balance map after `amount` has been taken from `who`.
pub open spec fn debited(m: Map<Address, nat>, who: Address, amount: nat) -> Map<Address, nat> {
    if m.contains_key(who) {
        m.insert(who, (m[who] - amount) as nat)
    } else {
        m
    }
}

/// The balance map after `amount` has been given to `who`.
pub open spec fn credited(m: Map<Address, nat>, who: Address, amount: nat) -> Map<Address, nat> {
    m.insert(who, balance(m, who) + amount)
}

/// The sum of all the balances of a finite balance map.
pub open spec fn sum_of(m: Map<Address, nat>) -> nat
    decreases m.dom().len(),
    when m.dom().finite()
{
    if m.dom().len() == 0 {
        0
    } else {
        let k = m.dom().choose();
        m[k] + sum_of(m.remove(k))
    }
}

/// Any one entry can be split off the sum.
pub proof fn lemma_sum_remove(m: Map<Address, nat>, k: Address)
    requires
        m.dom().finite(),
        m.contains_key(k),
    ensures
        sum_of(m) == m[k] + sum_of(m.remove(k)),
    decreases m.dom().len(),
{
    let c = m.dom().choose();
    if c != k {
        lemma_sum_remove(m.remove(c), k);
        lemma_sum_remove(m.remove(k), c);
        assert(m.remove(c).remove(k) =~= m.remove(k).remove(c));
    }
}

/// Writing an entry replaces its old share of the sum by the new one.
pub proof fn lemma_sum_insert(m: Map<Address, nat>, k: Address, v: nat)
    requires
        m.dom().finite(),
    ensures
        sum_of(m.insert(k, v)) + balance(m, k) == sum_of(m) + v,
{
    lemma_sum_remove(m.insert(k, v), k);
    assert(m.insert(k, v).remove(k) =~= m.remove(k));
    if m.contains_key(k) {
        lemma_sum_remove(m, k);
    } else {
        assert(m.remove(k) =~= m);
    }
}

/// No balance exceeds the sum.
pub proof fn lemma_balance_le_sum(m: Map<Address, nat>, k: Address)
    requires
        m.dom().finite(),
    ensures
        balance(m, k) <= sum_of(m),
{
    if m.contains_key(k) {
        lemma_sum_remove(m, k);
    }
}

/// One account's line in a ledger.
#[derive(Clone, Copy, Debug)]
pub struct LedgerEntry {
    pub owner: Address,
    pub amount: u64,
}

/// The pairs of owner and amount that a list of entries holds.
pub open spec fn entry_pairs(s: Seq<LedgerEntry>) -> Seq<(Address, nat)> {
    s.map_values(|e: LedgerEntry| (e.owner, e.amount as nat))
}

/// A map from accounts to balances, kept together with the sum of those
/// balances. The stored total always equals the sum of the stored balances.
#[derive(Debug)]
pub struct Ledger {
    entries: Vec<LedgerEntry>,
    total: u64,
}

impl View for Ledger {
    type V = Map<Address, nat>;

    closed spec fn view(&self) -> Map<Address, nat> {
        assoc_map(entry_pairs(self.entries@))
    }
}

impl Ledger {
    /// No account has two entries, and the total is the sum of the entries.
    #[verifier::type_invariant]
    spec fn consistent(self) -> bool {
        &&& distinct_keys(entry_pairs(self.entries@))
        &&& sum_of(assoc_map(entry_pairs(self.entries@))) == self.total
    }

    /// The stored total.
    pub closed spec fn total_spec(&self) -> nat {
        self.total as nat
    }

    /// A ledger without entries.
    pub fn new() -> (l: Ledger)
        ensures
            l@ == Map::<Address, nat>::empty(),
            l.total_spec() == 0,
    {
        Ledger { entries: Vec::new(), total: 0 }
    }

    /// The stored total, which is the sum of all balances.
    pub fn total(&self) -> (t: u64)
        ensures
            t == self.total_spec(),
            self.total_spec() == sum_of(self@),
            self@.dom().finite(),
    {
        proof {
            use_type_invariant(self);
            lemma_assoc_finite(entry_pairs(self.entries@));
        }
        self.total
    }

    fn position(&self, who: &Address) -> (r: Option<usize>)
        ensures
            match r {
                Some(i) => i < self.entries@.len() && self.entries@[i as int].owner == *who,
                None => !self@.contains_key(*who),
            },
            r is Some <==> self@.contains_key(*who),
            r matches Some(i) ==> self@[*who] == self.entries@[i as int].amount,
    {
        proof {
            use_type_invariant(self);
        }
        let mut i: usize = 0;
        while i < self.entries.len()
            invariant
                i <= self.entries@.len(),
                distinct_keys(entry_pairs(self.entries@)),
                forall|j: int| 0 <= j < i ==> entry_pairs(self.entries@)[j].0 != *who,
            decreases self.entries@.len() - i,
        {
            if self.entries[i].owner.same(who) {
                proof {
                    lemma_assoc_at(entry_pairs(self.entries@), i as int);
                }
                return Some(i);
            }
            i += 1;
        }
        proof {
            lemma_assoc_absent(entry_pairs(self.entries@), *who);
        }
        None
    }

    /// What `who` holds.
    pub fn balance_of(&self, who: &Address) -> (b: u64)
        ensures
            b == balance(self@, *who),
    {
        match self.position(who) {
            Some(i) => self.entries[i].amount,
            None => 0,
        }
    }

    /// Whether `who` has an entry.
    pub fn has_entry(&self, who: &Address) -> (b: bool)
        ensures
            b == self@.contains_key(*who),
    {
        self.position(who).is_some()
    }

    /// Adds `amount` to what `who` holds, making the entry if there is none.
    pub fn credit(self, who: Address, amount: u64) -> (r: Ledger)
        requires
            self.total_spec() + amount <= u64::MAX,
        ensures
            r@ == credited(self@, who, amount as nat),
            r.total_spec() == self.total_spec() + amount,
    {
        proof {
            use_type_invariant(&self);
            lemma_assoc_finite(entry_pairs(self.entries@));
            lemma_balance_le_sum(self@, who);
            lemma_sum_insert(self@, who, balance(self@, who) + amount as nat);
        }
        let found = self.position(&who);
        let Ledger { mut entries, total } = self;
        let ghost before = entry_pairs(entries@);
        match found {
            Some(i) => {
                let e = LedgerEntry { owner: who, amount: entries[i].amount + amount };
                entries.set(i, e);
                proof {
                    lemma_assoc_update(before, i as int, e.amount as nat);
                    assert(entry_pairs(entries@) =~= before.update(i as int, (who, e.amount as nat)));
                }
            },
            None => {
                entries.push(LedgerEntry { owner: who, amount });
                proof {
                    lemma_assoc_push(before, who, amount as nat);
                    assert(entry_pairs(entries@) =~= before.push((who, amount as nat)));
                }
            },
        }
        Ledger { entries, total: total + amount }
    }

    /// Takes `amount` from what `who` holds.
    pub fn debit(self, who: Address, amount: u64) -> (r: Ledger)
        requires
            amount <= balance(self@, who),
        ensures
            r@ == debited(self@, who, amount as nat),
            r.total_spec() == self.total_spec() - amount,
    {
        proof {
            use_type_invariant(&self);
            lemma_assoc_finite(entry_pairs(self.entries@));
            lemma_balance_le_sum(self@, who);
            lemma_sum_insert(self@, who, (balance(self@, who) - amount) as nat);
        }
        let found = self.position(&who);
        let Ledger { mut entries, total } = self;
        let ghost before = entry_pairs(entries@);
        match found {
            Some(i) => {
                let e = LedgerEntry { owner: who, amount: entries[i].amount - amount };
                entries.set(i, e);
                proof {
                    lemma_assoc_update(before, i as int, e.amount as nat);
                    assert(entry_pairs(entries@) =~= before.update(i as int, (who, e.amount as nat)));
                }
                Ledger { entries, total: total - amount }
            },
            None => Ledger { entries, total },
        }
    }

    /// Removes the entry of `who` and returns what it held.
    pub fn clear(self, who: Address) -> (r: (Ledger, u64))
        ensures
            r.0@ == self@.remove(who),
            r.1 == balance(self@, who),
            r.0.total_spec() == self.total_spec() - balance(self@, who),
    {
        proof {
            use_type_invariant(&self);
            lemma_assoc_finite(entry_pairs(self.entries@));
            lemma_balance_le_sum(self@, who);
        }
        let found = self.position(&who);
        let Ledger { mut entries, total } = self;
        let ghost before = entry_pairs(entries@);
        match found {
            Some(i) => {
                proof {
                    lemma_sum_remove(assoc_map(before), who);
                }
                let e = entries.remove(i);
                proof {
                    lemma_assoc_remove(before, i as int);
                    assert(entry_pairs(entries@) =~= before.remove(i as int));
                }
                (Ledger { entries, total: total - e.amount }, e.amount)
            },
            None => {
                assert(assoc_map(before).remove(who) =~= assoc_map(before));
                (Ledger { entries, total }, 0)
            },
        }
    }
}

} // verus!
