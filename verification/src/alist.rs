//! Association lists keyed by `u64`, the crate's model of its small
//! integer-keyed maps, with first-match lookup and counting helpers.

use vstd::prelude::*;

verus! {

/// First value bound to key `k`, scanning left to right.
pub open spec fn alist_find<V>(s: Seq<(u64, V)>, k: u64) -> Option<V>
    decreases s.len(),
{
    if s.len() == 0 {
        None
    } else if s[0].0 == k {
        Some(s[0].1)
    } else {
        alist_find(s.subrange(1, s.len() as int), k)
    }
}

/// Whether some entry binds key `k`.
pub open spec fn alist_has<V>(s: Seq<(u64, V)>, k: u64) -> bool {
    alist_find(s, k) is Some
}

/// No two entries bind the same key.
pub open spec fn unique_keys<V>(s: Seq<(u64, V)>) -> bool {
    forall|i: int, j: int| 0 <= i < j < s.len() ==> s[i].0 != s[j].0
}

/// Lookup lands on the first index whose key matches.
pub proof fn lemma_alist_find_at<V>(s: Seq<(u64, V)>, k: u64, i: int)
    requires
        0 <= i < s.len(),
        s[i].0 == k,
        forall|j: int| 0 <= j < i ==> s[j].0 != k,
    ensures
        alist_find(s, k) == Some(s[i].1),
    decreases i,
{
    if i > 0 {
        lemma_alist_find_at(s.subrange(1, s.len() as int), k, i - 1);
    }
}

/// A key bound by no entry is not found.
pub proof fn lemma_alist_find_absent<V>(s: Seq<(u64, V)>, k: u64)
    requires
        forall|j: int| 0 <= j < s.len() ==> s[j].0 != k,
    ensures
        alist_find(s, k) is None,
    decreases s.len(),
{
    if s.len() > 0 {
        lemma_alist_find_absent(s.subrange(1, s.len() as int), k);
    }
}

/// A key is found exactly when some entry binds it.
pub proof fn lemma_alist_has_iff<V>(s: Seq<(u64, V)>, k: u64)
    ensures
        alist_has(s, k) <==> exists|i: int| 0 <= i < s.len() && s[i].0 == k,
    decreases s.len(),
{
    if s.len() > 0 {
        let tail = s.subrange(1, s.len() as int);
        lemma_alist_has_iff(tail, k);
        if s[0].0 == k {
            assert(s[0].0 == k);
        } else {
            if alist_has(s, k) {
                let i = choose|i: int| 0 <= i < tail.len() && tail[i].0 == k;
                assert(s[i + 1].0 == k);
            }
            if exists|i: int| 0 <= i < s.len() && s[i].0 == k {
                let i = choose|i: int| 0 <= i < s.len() && s[i].0 == k;
                assert(i > 0);
                assert(tail[i - 1].0 == k);
            }
        }
    }
}

/// Index of the first entry binding `k`, if any.
pub fn alist_position<V>(s: &Vec<(u64, V)>, k: u64) -> (r: Option<usize>)
    ensures
        match r {
            Some(i) => i < s@.len() && s@[i as int].0 == k && alist_find(s@, k) == Some(
                s@[i as int].1,
            ),
            None => !alist_has(s@, k),
        },
{
    let mut i: usize = 0;
    while i < s.len()
        invariant
            i <= s@.len(),
            forall|j: int| 0 <= j < i ==> s@[j].0 != k,
        decreases s@.len() - i,
    {
        if s[i].0 == k {
            proof {
                lemma_alist_find_at(s@, k, i as int);
            }
            return Some(i);
        }
        i += 1;
    }
    proof {
        lemma_alist_find_absent(s@, k);
    }
    None
}

/// Whether `v` holds `x`.
pub fn u64_vec_contains(v: &Vec<u64>, x: u64) -> (r: bool)
    ensures
        r == v@.contains(x),
{
    let mut i: usize = 0;
    while i < v.len()
        invariant
            i <= v@.len(),
            forall|j: int| 0 <= j < i ==> v@[j] != x,
        decreases v@.len() - i,
    {
        if v[i] == x {
            return true;
        }
        i += 1;
    }
    false
}

} // verus!
