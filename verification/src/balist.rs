//! Association lists keyed by byte strings, the crate's model of its
//! content-addressed stores (transaction ids, backup ids).

use vstd::prelude::*;

use crate::bytes::bytes_eq;

verus! {

/// First value bound to key `k`, scanning left to right.
pub open spec fn balist_find<V>(s: Seq<(Vec<u8>, V)>, k: Seq<u8>) -> Option<V>
    decreases s.len(),
{
    if s.len() == 0 {
        None
    } else if s[0].0@ == k {
        Some(s[0].1)
    } else {
        balist_find(s.subrange(1, s.len() as int), k)
    }
}

/// Whether some entry binds key `k`.
pub open spec fn balist_has<V>(s: Seq<(Vec<u8>, V)>, k: Seq<u8>) -> bool {
    balist_find(s, k) is Some
}

/// No two entries bind the same key.
pub open spec fn balist_unique<V>(s: Seq<(Vec<u8>, V)>) -> bool {
    forall|i: int, j: int| 0 <= i < j < s.len() ==> s[i].0@ != s[j].0@
}

/// Lookup lands on the first index whose key matches.
pub proof fn lemma_balist_find_at<V>(s: Seq<(Vec<u8>, V)>, k: Seq<u8>, i: int)
    requires
        0 <= i < s.len(),
        s[i].0@ == k,
        forall|j: int| 0 <= j < i ==> s[j].0@ != k,
    ensures
        balist_find(s, k) == Some(s[i].1),
    decreases i,
{
    if i > 0 {
        lemma_balist_find_at(s.subrange(1, s.len() as int), k, i - 1);
    }
}

/// A key bound by no entry is not found.
pub proof fn lemma_balist_find_absent<V>(s: Seq<(Vec<u8>, V)>, k: Seq<u8>)
    requires
        forall|j: int| 0 <= j < s.len() ==> s[j].0@ != k,
    ensures
        balist_find(s, k) is None,
    decreases s.len(),
{
    if s.len() > 0 {
        lemma_balist_find_absent(s.subrange(1, s.len() as int), k);
    }
}

/// Appending an entry under a fresh key leaves every other key's binding
/// unchanged and binds the new key to the new value.
pub proof fn lemma_balist_push<V>(s: Seq<(Vec<u8>, V)>, e: (Vec<u8>, V))
    ensures
        forall|k: Seq<u8>| k != e.0@ ==> balist_find(s.push(e), k) == balist_find(s, k),
        !balist_has(s, e.0@) ==> balist_find(s.push(e), e.0@) == Some(e.1),
    decreases s.len(),
{
    let t = s.push(e);
    if s.len() == 0 {
        assert(t[0] == e);
        assert(t.subrange(1, 1) =~= Seq::<(Vec<u8>, V)>::empty());
        assert forall|k: Seq<u8>| k != e.0@ implies balist_find(t, k) == balist_find(s, k) by {
            assert(balist_find(t.subrange(1, 1), k) is None);
            assert(balist_find(t, k) is None);
        }
        assert(balist_find(t, e.0@) == Some(e.1));
    } else {
        let st = s.subrange(1, s.len() as int);
        lemma_balist_push(st, e);
        assert(t.subrange(1, t.len() as int) =~= st.push(e));
        assert(t[0] == s[0]);
        assert forall|k: Seq<u8>| k != e.0@ implies balist_find(t, k) == balist_find(s, k) by {
            if s[0].0@ != k {
                assert(balist_find(t, k) == balist_find(st.push(e), k));
                assert(balist_find(s, k) == balist_find(st, k));
            }
        }
        if !balist_has(s, e.0@) {
            assert(s[0].0@ != e.0@);
            assert(!balist_has(st, e.0@));
            assert(balist_find(t, e.0@) == balist_find(st.push(e), e.0@));
        }
    }
}

/// Replacing the value at index `i` rebinds that entry's key and leaves
/// every other key's binding unchanged, provided keys are unique.
pub proof fn lemma_balist_update<V>(s: Seq<(Vec<u8>, V)>, i: int, e: (Vec<u8>, V))
    requires
        balist_unique(s),
        0 <= i < s.len(),
        e.0@ == s[i].0@,
    ensures
        balist_unique(s.update(i, e)),
        balist_find(s.update(i, e), e.0@) == Some(e.1),
        forall|k: Seq<u8>| k != e.0@ ==> balist_find(s.update(i, e), k) == balist_find(s, k),
    decreases i,
{
    let t = s.update(i, e);
    assert forall|a: int, b: int| 0 <= a < b < t.len() implies t[a].0@ != t[b].0@ by {
        assert(s[a].0@ != s[b].0@);
    }
    if i == 0 {
        assert(t[0].0@ == e.0@);
        assert(balist_find(t, e.0@) == Some(e.1));
        assert forall|k: Seq<u8>| k != e.0@ implies balist_find(t, k) == balist_find(s, k) by {
            assert(t.subrange(1, t.len() as int) =~= s.subrange(1, s.len() as int));
            assert(s[0].0@ == e.0@);
            assert(balist_find(t, k) == balist_find(t.subrange(1, t.len() as int), k));
            assert(balist_find(s, k) == balist_find(s.subrange(1, s.len() as int), k));
        }
    } else {
        let st = s.subrange(1, s.len() as int);
        lemma_balist_update(st, i - 1, e);
        assert(t.subrange(1, t.len() as int) =~= st.update(i - 1, e));
        assert(t[0] == s[0]);
        assert(s[0].0@ != s[i].0@);
        assert(balist_find(t, e.0@) == balist_find(st.update(i - 1, e), e.0@));
        assert forall|k: Seq<u8>| k != e.0@ implies balist_find(t, k) == balist_find(s, k) by {
            if s[0].0@ != k {
                assert(balist_find(t, k) == balist_find(st.update(i - 1, e), k));
                assert(balist_find(s, k) == balist_find(st, k));
            }
        }
    }
}

/// Index of the first entry binding `k`, if any.
pub fn balist_position<V>(s: &Vec<(Vec<u8>, V)>, k: &Vec<u8>) -> (r: Option<usize>)
    ensures
        match r {
            Some(i) => i < s@.len() && s@[i as int].0@ == k@ && balist_find(s@, k@) == Some(
                s@[i as int].1,
            ),
            None => !balist_has(s@, k@),
        },
{
    let mut i: usize = 0;
    while i < s.len()
        invariant
            i <= s@.len(),
            forall|j: int| 0 <= j < i ==> s@[j].0@ != k@,
        decreases s@.len() - i,
    {
        if bytes_eq(&s[i].0, k) {
            proof {
                lemma_balist_find_at(s@, k@, i as int);
            }
            return Some(i);
        }
        i += 1;
    }
    proof {
        lemma_balist_find_absent(s@, k@);
    }
    None
}

} // verus!
