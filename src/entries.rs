//! Association lists keyed by account, with unique keys.

use vstd::prelude::*;
use crate::account::Account;

verus! {

/// The value stored under key `k`, searching from the most recent entry.
pub open spec fn lookup<V>(s: Seq<(Account, V)>, k: Seq<u8>) -> Option<V>
    decreases s.len(),
{
    if s.len() == 0 {
        None
    } else if s.last().0@ == k {
        Some(s.last().1)
    } else {
        lookup(s.drop_last(), k)
    }
}

pub open spec fn keys_unique<V>(s: Seq<(Account, V)>) -> bool {
    forall|i: int, j: int|
        0 <= i < s.len() && 0 <= j < s.len() && i != j ==> s[i].0@ != s[j].0@
}

pub open spec fn has_key<V>(s: Seq<(Account, V)>, k: Seq<u8>) -> bool {
    exists|i: int| 0 <= i < s.len() && s[i].0@ == k
}

/// The sum of the amounts in a list.
pub open spec fn total(s: Seq<(Account, u128)>) -> nat
    decreases s.len(),
{
    if s.len() == 0 {
        0
    } else {
        total(s.drop_last()) + s.last().1 as nat
    }
}

pub proof fn lemma_lookup_at<V>(s: Seq<(Account, V)>, i: int, k: Seq<u8>)
    requires
        keys_unique(s),
        0 <= i < s.len(),
        s[i].0@ == k,
    ensures
        lookup(s, k) == Some(s[i].1),
    decreases s.len(),
{
    if i != s.len() - 1 {
        lemma_lookup_at(s.drop_last(), i, k);
    }
}

pub proof fn lemma_lookup_absent<V>(s: Seq<(Account, V)>, k: Seq<u8>)
    requires
        !has_key(s, k),
    ensures
        lookup(s, k) == None::<V>,
    decreases s.len(),
{
    if s.len() > 0 {
        assert(s.last().0@ != k) by {
            assert(s[s.len() - 1].0@ != k);
        }
        assert(!has_key(s.drop_last(), k)) by {
            if has_key(s.drop_last(), k) {
                let j = choose|j: int| 0 <= j < s.drop_last().len() && s.drop_last()[j].0@ == k;
                assert(s[j].0@ == k);
            }
        }
        lemma_lookup_absent(s.drop_last(), k);
    }
}

/// Removing the entry at `i` drops its key and keeps every other lookup.
pub proof fn lemma_lookup_remove<V>(s: Seq<(Account, V)>, i: int)
    requires
        keys_unique(s),
        0 <= i < s.len(),
    ensures
        keys_unique(s.remove(i)),
        !has_key(s.remove(i), s[i].0@),
        forall|k: Seq<u8>| k != s[i].0@ ==> #[trigger] lookup(s.remove(i), k) == lookup(s, k),
{
    let t = s.remove(i);
    assert forall|a: int, b: int| 0 <= a < t.len() && 0 <= b < t.len() && a != b implies t[a].0@
        != t[b].0@ by {
        let a2 = if a < i { a } else { a + 1 };
        let b2 = if b < i { b } else { b + 1 };
        assert(t[a] == s[a2]);
        assert(t[b] == s[b2]);
    }
    assert(!has_key(t, s[i].0@)) by {
        if has_key(t, s[i].0@) {
            let j = choose|j: int| 0 <= j < t.len() && t[j].0@ == s[i].0@;
            let j2 = if j < i { j } else { j + 1 };
            assert(t[j] == s[j2]);
        }
    }
    assert forall|k: Seq<u8>| k != s[i].0@ implies #[trigger] lookup(t, k) == lookup(s, k) by {
        if has_key(s, k) {
            let j = choose|j: int| 0 <= j < s.len() && s[j].0@ == k;
            lemma_lookup_at(s, j, k);
            let j2 = if j < i { j } else { j - 1 };
            assert(t[j2] == s[j]);
            lemma_lookup_at(t, j2, k);
        } else {
            assert(!has_key(t, k)) by {
                if has_key(t, k) {
                    let j = choose|j: int| 0 <= j < t.len() && t[j].0@ == k;
                    let j2 = if j < i { j } else { j + 1 };
                    assert(t[j] == s[j2]);
                }
            }
            lemma_lookup_absent(s, k);
            lemma_lookup_absent(t, k);
        }
    }
}

/// Appending an entry with a new key adds exactly that key.
pub proof fn lemma_lookup_push<V>(s: Seq<(Account, V)>, e: (Account, V))
    requires
        keys_unique(s),
        !has_key(s, e.0@),
    ensures
        keys_unique(s.push(e)),
        lookup(s.push(e), e.0@) == Some(e.1),
        forall|k: Seq<u8>| k != e.0@ ==> #[trigger] lookup(s.push(e), k) == lookup(s, k),
{
    let t = s.push(e);
    assert(t.drop_last() =~= s);
    assert forall|a: int, b: int| 0 <= a < t.len() && 0 <= b < t.len() && a != b implies t[a].0@
        != t[b].0@ by {
        if a < s.len() && b < s.len() {
            assert(t[a] == s[a] && t[b] == s[b]);
        } else if a < s.len() {
            assert(t[a] == s[a]);
        } else {
            assert(t[b] == s[b]);
        }
    }
}

pub proof fn lemma_total_remove(s: Seq<(Account, u128)>, i: int)
    requires
        0 <= i < s.len(),
    ensures
        total(s.remove(i)) + s[i].1 == total(s),
    decreases s.len(),
{
    if i == s.len() - 1 {
        assert(s.remove(i) =~= s.drop_last());
    } else {
        lemma_total_remove(s.drop_last(), i);
        assert(s.remove(i).drop_last() =~= s.drop_last().remove(i));
    }
}

pub proof fn lemma_total_push(s: Seq<(Account, u128)>, e: (Account, u128))
    ensures
        total(s.push(e)) == total(s) + e.1,
{
    assert(s.push(e).drop_last() =~= s);
}

/// No single entry exceeds the sum.
pub proof fn lemma_entry_le_total(s: Seq<(Account, u128)>, i: int)
    requires
        0 <= i < s.len(),
    ensures
        s[i].1 <= total(s),
    decreases s.len(),
{
    if i != s.len() - 1 {
        lemma_entry_le_total(s.drop_last(), i);
    }
}

/// The position of key `k`, if present.
pub fn find_key<V>(v: &Vec<(Account, V)>, k: &Account) -> (r: Option<usize>)
    ensures
        match r {
            Some(i) => i < v@.len() && v@[i as int].0@ == k@,
            None => !has_key(v@, k@),
        },
{
    let mut i: usize = 0;
    while i < v.len()
        invariant
            i <= v@.len(),
            forall|j: int| 0 <= j < i ==> v@[j].0@ != k@,
        decreases v@.len() - i,
    {
        if v[i].0.same(k) {
            return Some(i);
        }
        i = i + 1;
    }
    None
}

} // verus!
