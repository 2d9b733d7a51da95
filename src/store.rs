//! Balance and allowance tables. No entry ever holds zero: setting an
//! amount to zero removes the key.

use vstd::prelude::*;
use crate::account::Account;
use crate::entries::{
    find_key, has_key, keys_unique, lemma_entry_le_total, lemma_lookup_absent, lemma_lookup_at,
    lemma_lookup_push, lemma_lookup_remove, lemma_total_push, lemma_total_remove, lookup, total,
};

verus! {

/// Moves `v` from `from` to `to` in a table of amounts.
pub open spec fn shift(m: Map<Seq<u8>, nat>, from: Seq<u8>, to: Seq<u8>, v: nat) -> Map<
    Seq<u8>,
    nat,
> {
    let m1 = m.insert(from, (m[from] - v) as nat);
    m1.insert(to, m1[to] + v)
}

/// A table from account to a positive amount.
#[derive(Debug, Clone)]
pub struct AmountMap {
    pub entries: Vec<(Account, u128)>,
}

impl View for AmountMap {
    type V = Map<Seq<u8>, nat>;

    /// Every account's amount, zero for an account without an entry.
    open spec fn view(&self) -> Map<Seq<u8>, nat> {
        Map::new(|k: Seq<u8>| true, |k: Seq<u8>| self.amount(k))
    }
}

impl AmountMap {
    pub open spec fn amount(&self, k: Seq<u8>) -> nat {
        match lookup(self.entries@, k) {
            Some(v) => v as nat,
            None => 0,
        }
    }

    /// Keys are unique and no entry is zero.
    pub open spec fn wf(&self) -> bool {
        &&& keys_unique(self.entries@)
        &&& forall|i: int| 0 <= i < self.entries@.len() ==> #[trigger] self.entries@[i].1 > 0
    }

    pub open spec fn sum(&self) -> nat {
        total(self.entries@)
    }

    pub open spec fn size(&self) -> nat {
        self.entries@.len()
    }

    pub fn new() -> (r: AmountMap)
        ensures
            r.wf(),
            r.size() == 0,
            r.sum() == 0,
            r@ == Map::new(|k: Seq<u8>| true, |k: Seq<u8>| 0nat),
    {
        let r = AmountMap { entries: Vec::new() };
        assert(r@ =~= Map::new(|k: Seq<u8>| true, |k: Seq<u8>| 0nat));
        r
    }

    pub fn len(&self) -> (r: usize)
        ensures
            r == self.size(),
    {
        self.entries.len()
    }

    /// An empty table is one where every account holds zero.
    pub proof fn lemma_empty_iff_zero(&self)
        requires
            self.wf(),
        ensures
            (self.size() == 0) == (forall|k: Seq<u8>| #[trigger] self@[k] == 0),
    {
        if self.size() > 0 {
            let k = self.entries@[0].0@;
            lemma_lookup_at(self.entries@, 0, k);
            assert(self@[k] > 0);
        }
    }

    pub proof fn lemma_amount_le_sum(&self, k: Seq<u8>)
        requires
            self.wf(),
        ensures
            self@[k] <= self.sum(),
    {
        if has_key(self.entries@, k) {
            let i = choose|i: int| 0 <= i < self.entries@.len() && self.entries@[i].0@ == k;
            lemma_lookup_at(self.entries@, i, k);
            lemma_entry_le_total(self.entries@, i);
        } else {
            lemma_lookup_absent(self.entries@, k);
        }
    }

    pub fn is_empty(&self) -> (r: bool)
        requires
            self.wf(),
        ensures
            r == (self.size() == 0),
            r == (forall|k: Seq<u8>| #[trigger] self@[k] == 0),
    {
        proof {
            self.lemma_empty_iff_zero();
        }
        self.entries.len() == 0
    }

    /// The amount held by `k`, zero when absent.
    pub fn get(&self, k: &Account) -> (r: u128)
        requires
            self.wf(),
        ensures
            r == self@[k@],
    {
        match find_key(&self.entries, k) {
            Some(i) => {
                proof {
                    lemma_lookup_at(self.entries@, i as int, k@);
                }
                self.entries[i].1
            },
            None => {
                proof {
                    lemma_lookup_absent(self.entries@, k@);
                }
                0
            },
        }
    }

    /// Sets the amount of `k`; zero removes the entry.
    pub fn set(&mut self, k: &Account, v: u128)
        requires
            old(self).wf(),
        ensures
            final(self).wf(),
            final(self)@ == old(self)@.insert(k@, v as nat),
            final(self).sum() + old(self)@[k@] == old(self).sum() + v,
    {
        let ghost s0 = self.entries@;
        match find_key(&self.entries, k) {
            Some(i) => {
                proof {
                    lemma_lookup_at(s0, i as int, k@);
                    lemma_lookup_remove(s0, i as int);
                    lemma_total_remove(s0, i as int);
                }
                self.entries.remove(i);
            },
            None => {
                proof {
                    lemma_lookup_absent(s0, k@);
                }
            },
        }
        let ghost s1 = self.entries@;
        assert(!has_key(s1, k@));
        assert(forall|q: Seq<u8>| q != k@ ==> #[trigger] lookup(s1, q) == lookup(s0, q));
        assert(total(s1) + old(self)@[k@] == total(s0));
        if v != 0 {
            let e = (k.duplicate(), v);
            proof {
                lemma_lookup_push(s1, e);
                lemma_total_push(s1, e);
            }
            self.entries.push(e);
            assert(forall|q: Seq<u8>| q != k@ ==> #[trigger] lookup(self.entries@, q) == lookup(s0, q));
        } else {
            proof {
                lemma_lookup_absent(s1, k@);
            }
        }
        assert(final(self)@ =~= old(self)@.insert(k@, v as nat));
    }

    /// Moves `v` from `from` to `to`; the sum stays the same.
    pub fn shift(&mut self, from: &Account, to: &Account, v: u128)
        requires
            old(self).wf(),
            old(self).sum() <= u128::MAX,
            old(self)@[from@] >= v,
        ensures
            final(self).wf(),
            final(self)@ == shift(old(self)@, from@, to@, v as nat),
            final(self).sum() == old(self).sum(),
    {
        let fb = self.get(from);
        self.set(from, fb - v);
        let tb = self.get(to);
        proof {
            self.lemma_amount_le_sum(to@);
        }
        self.set(to, tb + v);
        assert(final(self)@ =~= shift(old(self)@, from@, to@, v as nat));
    }

    /// Adds `v` to the amount of `k`.
    pub fn credit(&mut self, k: &Account, v: u128)
        requires
            old(self).wf(),
            old(self).sum() + v <= u128::MAX,
        ensures
            final(self).wf(),
            final(self)@ == old(self)@.insert(k@, old(self)@[k@] + v as nat),
            final(self).sum() == old(self).sum() + v,
    {
        let b = self.get(k);
        proof {
            self.lemma_amount_le_sum(k@);
        }
        self.set(k, b + v);
    }

    /// Takes `v` from the amount of `k`.
    pub fn debit(&mut self, k: &Account, v: u128)
        requires
            old(self).wf(),
            old(self)@[k@] >= v,
        ensures
            final(self).wf(),
            final(self)@ == old(self)@.insert(k@, (old(self)@[k@] - v) as nat),
            final(self).sum() + v == old(self).sum(),
    {
        let b = self.get(k);
        self.set(k, b - v);
    }
}

} // verus!

verus! {

/// A two-level table owner -> spender -> positive amount. An owner whose
/// spenders are all gone is removed.
#[derive(Debug, Clone)]
pub struct Allowances {
    pub entries: Vec<(Account, AmountMap)>,
}

impl View for Allowances {
    type V = Map<(Seq<u8>, Seq<u8>), nat>;

    /// Every (owner, spender) pair's allowance, zero when absent.
    open spec fn view(&self) -> Map<(Seq<u8>, Seq<u8>), nat> {
        Map::new(|p: (Seq<u8>, Seq<u8>)| true, |p: (Seq<u8>, Seq<u8>)| self.amount(p.0, p.1))
    }
}

impl Allowances {
    pub open spec fn inner(&self, owner: Seq<u8>) -> Option<AmountMap> {
        lookup(self.entries@, owner)
    }

    pub open spec fn amount(&self, owner: Seq<u8>, spender: Seq<u8>) -> nat {
        match self.inner(owner) {
            Some(m) => m@[spender],
            None => 0,
        }
    }

    /// Owners are unique, and each owner's table is well formed and not empty.
    pub open spec fn wf(&self) -> bool {
        &&& keys_unique(self.entries@)
        &&& forall|i: int|
            0 <= i < self.entries@.len() ==> #[trigger] self.entries@[i].1.wf()
                && self.entries@[i].1.size() > 0
    }

    /// The number of (owner, spender) entries.
    pub open spec fn count(s: Seq<(Account, AmountMap)>) -> nat
        decreases s.len(),
    {
        if s.len() == 0 {
            0
        } else {
            Self::count(s.drop_last()) + s.last().1.size()
        }
    }

    pub fn new() -> (r: Allowances)
        ensures
            r.wf(),
            r@ == Map::new(|p: (Seq<u8>, Seq<u8>)| true, |p: (Seq<u8>, Seq<u8>)| 0nat),
    {
        let r = Allowances { entries: Vec::new() };
        assert(r@ =~= Map::new(|p: (Seq<u8>, Seq<u8>)| true, |p: (Seq<u8>, Seq<u8>)| 0nat));
        r
    }

    /// The allowance that `owner` granted to `spender`, zero when absent.
    pub fn get(&self, owner: &Account, spender: &Account) -> (r: u128)
        requires
            self.wf(),
        ensures
            r == self@[(owner@, spender@)],
    {
        match find_key(&self.entries, owner) {
            Some(i) => {
                proof {
                    lemma_lookup_at(self.entries@, i as int, owner@);
                }
                self.entries[i].1.get(spender)
            },
            None => {
                proof {
                    lemma_lookup_absent(self.entries@, owner@);
                }
                0
            },
        }
    }

    /// Sets an allowance; zero removes it, and removes the owner once its
    /// last spender is gone.
    pub fn set(&mut self, owner: &Account, spender: &Account, v: u128)
        requires
            old(self).wf(),
        ensures
            final(self).wf(),
            final(self)@ == old(self)@.insert((owner@, spender@), v as nat),
    {
        let ghost s0 = self.entries@;
        let mut inner = match find_key(&self.entries, owner) {
            Some(i) => {
                proof {
                    lemma_lookup_at(s0, i as int, owner@);
                    lemma_lookup_remove(s0, i as int);
                }
                let (_, m) = self.entries.remove(i);
                assert forall|j: int| 0 <= j < self.entries@.len() implies #[trigger] self.entries@[j].1.wf()
                    && self.entries@[j].1.size() > 0 by {
                    let j2 = if j < i { j } else { j + 1 };
                    assert(self.entries@[j] == s0[j2]);
                }
                m
            },
            None => {
                proof {
                    lemma_lookup_absent(s0, owner@);
                }
                AmountMap::new()
            },
        };
        let ghost s1 = self.entries@;
        assert(!has_key(s1, owner@));
        assert(forall|q: Seq<u8>| q != owner@ ==> #[trigger] lookup(s1, q) == lookup(s0, q));
        assert(inner.wf());
        assert(forall|q: Seq<u8>| #[trigger] inner@[q] == old(self)@[(owner@, q)]);
        inner.set(spender, v);
        if inner.is_empty() {
            proof {
                lemma_lookup_absent(s1, owner@);
            }
        } else {
            let e = (owner.duplicate(), inner);
            proof {
                lemma_lookup_push(s1, e);
            }
            self.entries.push(e);
        }
        assert(forall|q: Seq<u8>| q != owner@ ==> #[trigger] lookup(self.entries@, q) == lookup(s0, q));
        assert forall|p: (Seq<u8>, Seq<u8>)| #[trigger] final(self)@[p] == old(self)@.insert(
            (owner@, spender@),
            v as nat,
        )[p] by {
            if p.0 != owner@ {
                assert(lookup(self.entries@, p.0) == lookup(s0, p.0));
            } else {
                assert(inner@[p.1] == old(self)@.insert((owner@, spender@), v as nat)[p]);
            }
        }
        assert(final(self)@ =~= old(self)@.insert((owner@, spender@), v as nat));
    }
}

} // verus!
