//! Read-only views of the ledger.

use std::collections::HashSet;
use vstd::prelude::*;
use crate::account::Account;
use crate::ledger::Ledger;
use crate::outbox::TxLog;
use crate::types::{Metadata, TokenInfo};

verus! {

/// A copy of a list of (account, amount) entries.
pub fn copy_entries(v: &Vec<(Account, u128)>) -> (r: Vec<(Account, u128)>)
    ensures
        r@.len() == v@.len(),
        forall|i: int|
            0 <= i < v@.len() ==> (#[trigger] r@[i]).0@ == v@[i].0@ && r@[i].1 == v@[i].1,
{
    let mut r: Vec<(Account, u128)> = Vec::new();
    let mut i: usize = 0;
    while i < v.len()
        invariant
            i <= v@.len(),
            r@.len() == i,
            forall|j: int| 0 <= j < i ==> (#[trigger] r@[j]).0@ == v@[j].0@ && r@[j].1 == v@[j].1,
        decreases v@.len() - i,
    {
        r.push((v[i].0.duplicate(), v[i].1));
        i = i + 1;
    }
    r
}

/// `ix` lists each position below `n` exactly once.
pub open spec fn is_permutation(ix: Seq<usize>, n: nat) -> bool {
    &&& ix.len() == n
    &&& ix.no_duplicates()
    &&& forall|a: int| 0 <= a < ix.len() ==> #[trigger] ix[a] < n
}

/// The entries of `s` at the positions `ix` come by descending amount.
pub open spec fn sorted_desc(s: Seq<(Account, u128)>, ix: Seq<usize>) -> bool {
    forall|a: int, b: int|
        0 <= a < b < ix.len() ==> s[#[trigger] ix[a] as int].1 >= s[#[trigger] ix[b] as int].1
}

/// The positions of the entries of `v`, largest amount first.
pub fn rank_by_amount(v: &Vec<(Account, u128)>) -> (r: Vec<usize>)
    ensures
        is_permutation(r@, v@.len()),
        sorted_desc(v@, r@),
{
    let mut ix: Vec<usize> = Vec::new();
    let mut i: usize = 0;
    while i < v.len()
        invariant
            i <= v@.len(),
            is_permutation(ix@, i as nat),
            sorted_desc(v@, ix@),
        decreases v@.len() - i,
    {
        let x = v[i].1;
        let mut p: usize = 0;
        while p < ix.len() && v[ix[p]].1 >= x
            invariant
                p <= ix@.len(),
                is_permutation(ix@, i as nat),
                i < v@.len(),
                x == v@[i as int].1,
                forall|q: int| 0 <= q < p ==> v@[#[trigger] ix@[q] as int].1 >= x,
            decreases ix@.len() - p,
        {
            p = p + 1;
        }
        let ghost old_ix = ix@;
        assert forall|q: int| p <= q < old_ix.len() implies v@[#[trigger] old_ix[q] as int].1
            < x by {
            assert(v@[old_ix[p as int] as int].1 < x);
            if q > p {
                assert(v@[old_ix[p as int] as int].1 >= v@[old_ix[q] as int].1);
            }
        }
        ix.insert(p, i);
        let ghost t = ix@;
        assert forall|a: int| 0 <= a < t.len() implies #[trigger] t[a] < i + 1 by {
            if a < p {
                assert(t[a] == old_ix[a]);
            } else if a > p {
                assert(t[a] == old_ix[a - 1]);
            }
        }
        assert(t.no_duplicates()) by {
            assert forall|a: int, b: int| 0 <= a < t.len() && 0 <= b < t.len() && a != b implies t[a]
                != t[b] by {
                let a2 = if a < p { a } else { a - 1 };
                let b2 = if b < p { b } else { b - 1 };
                if a != p && b != p {
                    assert(t[a] == old_ix[a2] && t[b] == old_ix[b2]);
                } else if a == p {
                    assert(t[b] == old_ix[b2]);
                } else {
                    assert(t[a] == old_ix[a2]);
                }
            }
        }
        assert forall|a: int, b: int| 0 <= a < b < t.len() implies v@[#[trigger] t[a] as int].1
            >= v@[#[trigger] t[b] as int].1 by {
            let a2 = if a < p { a } else { a - 1 };
            let b2 = if b < p { b } else { b - 1 };
            if a != p && b != p {
                assert(t[a] == old_ix[a2] && t[b] == old_ix[b2]);
            } else if a == p {
                assert(t[b] == old_ix[b2]);
            } else {
                assert(t[a] == old_ix[a2]);
            }
        }
        i = i + 1;
    }
    ix
}

/// Where a page of `limit` holders starting at `start` ends among `n`.
pub open spec fn page_end(start: nat, limit: nat, n: nat) -> nat {
    if start >= n {
        start
    } else if start + limit > n {
        n
    } else {
        start + limit
    }
}

impl Ledger {
    /// The balance of `id`, zero for an unknown account.
    pub fn balance_of(&self, id: &Account) -> (r: u128)
        requires
            self.wf(),
        ensures
            r == self.balances@[id@],
    {
        self.balances.get(id)
    }

    /// What `spender` may still take from `owner`, zero when nothing was granted.
    pub fn allowance(&self, owner: &Account, spender: &Account) -> (r: u128)
        requires
            self.wf(),
        ensures
            r == self.allowances@[(owner@, spender@)],
    {
        self.allowances.get(owner, spender)
    }

    pub fn logo(&self) -> (r: String)
        ensures
            r@ == self.stats.logo@,
    {
        self.stats.logo.clone()
    }

    pub fn name(&self) -> (r: String)
        ensures
            r@ == self.stats.name@,
    {
        self.stats.name.clone()
    }

    pub fn symbol(&self) -> (r: String)
        ensures
            r@ == self.stats.symbol@,
    {
        self.stats.symbol.clone()
    }

    pub fn decimals(&self) -> (r: u8)
        ensures
            r == self.stats.decimals,
    {
        self.stats.decimals
    }

    pub fn total_supply(&self) -> (r: u128)
        ensures
            r == self.stats.total_supply,
    {
        self.stats.total_supply
    }

    pub fn owner(&self) -> (r: Account)
        ensures
            r@ == self.stats.owner@,
    {
        self.stats.owner.duplicate()
    }

    pub fn history_size(&self) -> (r: u64)
        ensures
            r == self.stats.history_size,
    {
        self.stats.history_size
    }

    pub fn get_metadata(&self) -> (r: Metadata)
        ensures
            r.logo@ == self.stats.logo@,
            r.name@ == self.stats.name@,
            r.symbol@ == self.stats.symbol@,
            r.decimals == self.stats.decimals,
            r.total_supply == self.stats.total_supply,
            r.owner@ == self.stats.owner@,
            r.fee == self.stats.fee,
    {
        Metadata {
            logo: self.stats.logo.clone(),
            name: self.stats.name.clone(),
            symbol: self.stats.symbol.clone(),
            decimals: self.stats.decimals,
            total_supply: self.stats.total_supply,
            owner: self.stats.owner.duplicate(),
            fee: self.stats.fee,
        }
    }

    /// The description with the counters; `cycles` is the canister's balance
    /// of cycles, which only the host knows.
    pub fn get_token_info(&self, cycles: u64) -> (r: TokenInfo)
        ensures
            r.metadata.logo@ == self.stats.logo@,
            r.metadata.name@ == self.stats.name@,
            r.metadata.symbol@ == self.stats.symbol@,
            r.metadata.decimals == self.stats.decimals,
            r.metadata.total_supply == self.stats.total_supply,
            r.metadata.owner@ == self.stats.owner@,
            r.metadata.fee == self.stats.fee,
            r.fee_to@ == self.stats.fee_to@,
            r.history_size == self.stats.history_size,
            r.deploy_time == self.stats.deploy_time,
            r.holder_number == self.balances.size(),
            r.cycles == cycles,
    {
        TokenInfo {
            metadata: self.get_metadata(),
            fee_to: self.stats.fee_to.duplicate(),
            history_size: self.stats.history_size,
            deploy_time: self.stats.deploy_time,
            holder_number: self.balances.len(),
            cycles,
        }
    }

    /// The number of (owner, spender) pairs with an allowance, capped at the
    /// largest `usize`.
    pub fn get_allowance_size(&self) -> (r: usize)
        ensures
            r == if crate::store::Allowances::count(self.allowances.entries@) <= usize::MAX {
                crate::store::Allowances::count(self.allowances.entries@)
            } else {
                usize::MAX as nat
            },
    {
        let ghost s = self.allowances.entries@;
        let mut size: usize = 0;
        let mut i: usize = 0;
        while i < self.allowances.entries.len()
            invariant
                s == self.allowances.entries@,
                i <= s.len(),
                size == if crate::store::Allowances::count(s.subrange(0, i as int))
                    <= usize::MAX {
                    crate::store::Allowances::count(s.subrange(0, i as int))
                } else {
                    usize::MAX as nat
                },
            decreases s.len() - i,
        {
            assert(s.subrange(0, i + 1).drop_last() =~= s.subrange(0, i as int));
            let n = self.allowances.entries[i].1.len();
            size = if n > usize::MAX - size {
                usize::MAX
            } else {
                size + n
            };
            i = i + 1;
        }
        assert(s.subrange(0, s.len() as int) =~= s);
        size
    }

    /// The spenders that `who` has granted an allowance to, with amounts.
    pub fn get_user_approvals(&self, who: &Account) -> (r: Vec<(Account, u128)>)
        requires
            self.wf(),
        ensures
            match self.allowances.inner(who@) {
                Some(m) => r@.len() == m.entries@.len() && forall|i: int|
                    0 <= i < r@.len() ==> (#[trigger] r@[i]).0@ == m.entries@[i].0@ && r@[i].1
                        == m.entries@[i].1,
                None => r@.len() == 0,
            },
    {
        match crate::entries::find_key(&self.allowances.entries, who) {
            Some(i) => {
                proof {
                    crate::entries::lemma_lookup_at(self.allowances.entries@, i as int, who@);
                }
                let r = copy_entries(&self.allowances.entries[i].1.entries);
                assert(self.allowances.inner(who@) == Some(self.allowances.entries@[i as int].1));
                r
            },
            None => {
                proof {
                    crate::entries::lemma_lookup_absent(self.allowances.entries@, who@);
                }
                Vec::new()
            },
        }
    }

    /// The outbox of records that still await delivery.
    pub fn tx_log(&self) -> (r: &TxLog)
        ensures
            *r == self.tx_log,
    {
        &self.tx_log
    }

    /// The heights of the reserve-ledger blocks already used.
    pub fn get_block_used(&self) -> (r: &HashSet<u64>)
        ensures
            r@ == self.blocks@,
    {
        &self.blocks
    }
    /// A page of the holders, largest balance first: positions `start` up to
    /// `start + limit` (fewer at the end) of the balances ranked by amount.
    pub fn get_holders(&self, start: usize, limit: usize) -> (r: Vec<(Account, u128)>)
        ensures
            exists|ix: Seq<usize>|
                {
                    &&& is_permutation(ix, self.balances.entries@.len())
                    &&& sorted_desc(self.balances.entries@, ix)
                    &&& r@.len() == page_end(start as nat, limit as nat, ix.len()) - start
                    &&& forall|j: int|
                        0 <= j < r@.len() ==> (#[trigger] r@[j]).0@
                            == self.balances.entries@[ix[start + j] as int].0@ && r@[j].1
                            == self.balances.entries@[ix[start + j] as int].1
                },
    {
        let v = &self.balances.entries;
        let ix = rank_by_amount(v);
        let n = ix.len();
        let end: usize = if start >= n {
            start
        } else if limit > n - start {
            n
        } else {
            start + limit
        };
        let mut r: Vec<(Account, u128)> = Vec::new();
        let mut j: usize = start;
        while j < end
            invariant
                start <= j <= end,
                end <= n || end == start,
                n == ix@.len(),
                is_permutation(ix@, v@.len()),
                r@.len() == j - start,
                forall|q: int|
                    0 <= q < r@.len() ==> (#[trigger] r@[q]).0@ == v@[ix@[start + q] as int].0@
                        && r@[q].1 == v@[ix@[start + q] as int].1,
            decreases end - j,
        {
            let k = ix[j];
            r.push((v[k].0.duplicate(), v[k].1));
            j = j + 1;
        }
        assert(r@.len() == page_end(start as nat, limit as nat, ix@.len()) - start);
        r
    }
}

} // verus!
