//! In-memory model of the node's transactional key-value store: one
//! typed store per contractual key family. The surrounding service runs
//! each API handler against this state as one isolated transaction.

use vstd::prelude::*;

use crate::alist::unique_keys;
use crate::balist::{balist_find, balist_unique};

verus! {

/// A stored client backup: the client's timestamp and the encrypted
/// payload.
#[derive(Debug, PartialEq, Eq)]
pub struct ClientBackupSnapshot {
    /// Client-chosen timestamp; strictly increases per backup id.
    pub timestamp: u64,
    /// Encrypted backup payload.
    pub data: Vec<u8>,
}

impl Clone for ClientBackupSnapshot {
    /// Copies timestamp and payload.
    fn clone(&self) -> (r: Self)
        ensures
            r.timestamp == self.timestamp,
            r.data@ == self.data@,
    {
        ClientBackupSnapshot { timestamp: self.timestamp, data: self.data.clone() }
    }
}

/// First count bound to `token`, scanning left to right.
pub open spec fn salist_find(s: Seq<(String, u64)>, k: Seq<char>) -> Option<u64>
    decreases s.len(),
{
    if s.len() == 0 {
        None
    } else if s[0].0@ == k {
        Some(s[0].1)
    } else {
        salist_find(s.subrange(1, s.len() as int), k)
    }
}

/// No two entries bind the same token.
pub open spec fn salist_unique(s: Seq<(String, u64)>) -> bool {
    forall|i: int, j: int| 0 <= i < j < s.len() ==> s[i].0@ != s[j].0@
}

/// Lookup lands on the first index whose token matches.
pub proof fn lemma_salist_find_at(s: Seq<(String, u64)>, k: Seq<char>, i: int)
    requires
        0 <= i < s.len(),
        s[i].0@ == k,
        forall|j: int| 0 <= j < i ==> s[j].0@ != k,
    ensures
        salist_find(s, k) == Some(s[i].1),
    decreases i,
{
    if i > 0 {
        lemma_salist_find_at(s.subrange(1, s.len() as int), k, i - 1);
    }
}

/// A token bound by no entry is not found.
pub proof fn lemma_salist_find_absent(s: Seq<(String, u64)>, k: Seq<char>)
    requires
        forall|j: int| 0 <= j < s.len() ==> s[j].0@ != k,
    ensures
        salist_find(s, k) is None,
    decreases s.len(),
{
    if s.len() > 0 {
        lemma_salist_find_absent(s.subrange(1, s.len() as int), k);
    }
}

/// Appending an entry under a fresh token binds it and leaves every
/// other token's binding unchanged.
pub proof fn lemma_salist_push(s: Seq<(String, u64)>, e: (String, u64))
    ensures
        forall|k: Seq<char>| k != e.0@ ==> salist_find(s.push(e), k) == salist_find(s, k),
        salist_find(s, e.0@) is None ==> salist_find(s.push(e), e.0@) == Some(e.1),
    decreases s.len(),
{
    let t = s.push(e);
    if s.len() == 0 {
        assert(t[0] == e);
        assert(t.subrange(1, 1) =~= Seq::<(String, u64)>::empty());
        assert forall|k: Seq<char>| k != e.0@ implies salist_find(t, k) == salist_find(s, k) by {
            assert(salist_find(t.subrange(1, 1), k) is None);
            assert(salist_find(t, k) is None);
        }
        assert(salist_find(t, e.0@) == Some(e.1));
    } else {
        let st = s.subrange(1, s.len() as int);
        lemma_salist_push(st, e);
        assert(t.subrange(1, t.len() as int) =~= st.push(e));
        assert(t[0] == s[0]);
        assert forall|k: Seq<char>| k != e.0@ implies salist_find(t, k) == salist_find(s, k) by {
            if s[0].0@ != k {
                assert(salist_find(t, k) == salist_find(st.push(e), k));
                assert(salist_find(s, k) == salist_find(st, k));
            }
        }
        if salist_find(s, e.0@) is None {
            assert(s[0].0@ != e.0@);
            assert(salist_find(st, e.0@) is None);
            assert(salist_find(t, e.0@) == salist_find(st.push(e), e.0@));
        }
    }
}

/// Replacing the value at index `i` rebinds that entry's token and
/// leaves every other token's binding unchanged, provided tokens are
/// unique.
pub proof fn lemma_salist_update(s: Seq<(String, u64)>, i: int, e: (String, u64))
    requires
        salist_unique(s),
        0 <= i < s.len(),
        e.0@ == s[i].0@,
    ensures
        salist_unique(s.update(i, e)),
        salist_find(s.update(i, e), e.0@) == Some(e.1),
        forall|k: Seq<char>| k != e.0@ ==> salist_find(s.update(i, e), k) == salist_find(s, k),
    decreases i,
{
    let t = s.update(i, e);
    assert forall|a: int, b: int| 0 <= a < b < t.len() implies t[a].0@ != t[b].0@ by {
        assert(s[a].0@ != s[b].0@);
    }
    if i == 0 {
        assert(t[0].0@ == e.0@);
        assert(salist_find(t, e.0@) == Some(e.1));
        assert forall|k: Seq<char>| k != e.0@ implies salist_find(t, k) == salist_find(s, k) by {
            assert(t.subrange(1, t.len() as int) =~= s.subrange(1, s.len() as int));
            assert(s[0].0@ == e.0@);
            assert(salist_find(t, k) == salist_find(t.subrange(1, t.len() as int), k));
            assert(salist_find(s, k) == salist_find(s.subrange(1, s.len() as int), k));
        }
    } else {
        let st = s.subrange(1, s.len() as int);
        lemma_salist_update(st, i - 1, e);
        assert(t.subrange(1, t.len() as int) =~= st.update(i - 1, e));
        assert(t[0] == s[0]);
        assert(s[0].0@ != s[i].0@);
        assert(salist_find(t, e.0@) == salist_find(st.update(i - 1, e), e.0@));
        assert forall|k: Seq<char>| k != e.0@ implies salist_find(t, k) == salist_find(s, k) by {
            if s[0].0@ != k {
                assert(salist_find(t, k) == salist_find(st.update(i - 1, e), k));
                assert(salist_find(s, k) == salist_find(st, k));
            }
        }
    }
}

/// Index of the entry binding `token` in a download-count store, if
/// any.
pub fn download_count_position(s: &Vec<(String, u64)>, token: &String) -> (r: Option<usize>)
    ensures
        match r {
            Some(i) => i < s@.len() && s@[i as int].0@ == token@ && salist_find(s@, token@)
                == Some(s@[i as int].1),
            None => salist_find(s@, token@) is None,
        },
{
    let mut i: usize = 0;
    while i < s.len()
        invariant
            i <= s@.len(),
            forall|j: int| 0 <= j < i ==> s@[j].0@ != token@,
        decreases s@.len() - i,
    {
        if s[i].0 == *token {
            proof {
                lemma_salist_find_at(s@, token@, i as int);
            }
            return Some(i);
        }
        i += 1;
    }
    proof {
        lemma_salist_find_absent(s@, token@);
    }
    None
}

/// The node's database: one store per contractual key family.
#[derive(Debug, PartialEq, Eq)]
pub struct Database {
    /// `AcceptedTransactionKey(txid)`: the module-instance ids of each
    /// committed transaction's outputs, in output order.
    pub accepted: Vec<(Vec<u8>, Vec<u64>)>,
    /// `EpochHistoryKey(epoch)`: opaque signed epoch outcomes.
    pub epochs: Vec<(u64, Vec<u8>)>,
    /// `LastEpochKey`: the highest committed epoch, if any.
    pub last_epoch: Option<u64>,
    /// `ClientConfigDownloadKey(token)`: config download use counts.
    pub download_counts: Vec<(String, u64)>,
    /// `ClientBackupKey(id)`: client backups keyed by 32-byte x-only
    /// public key.
    pub backups: Vec<(Vec<u8>, ClientBackupSnapshot)>,
    /// `ClientConfigSignatureKey`: the config signature, once present.
    pub config_signature: Option<Vec<u8>>,
}

impl Database {
    /// Store keys are unique and the epoch counter can still grow.
    pub open spec fn wf(&self) -> bool {
        &&& balist_unique(self.accepted@)
        &&& unique_keys(self.epochs@)
        &&& salist_unique(self.download_counts@)
        &&& balist_unique(self.backups@)
        &&& match self.last_epoch {
            Some(e) => e < u64::MAX,
            None => true,
        }
    }

    /// The accepted-transaction record for `txid`, if committed.
    pub open spec fn spec_accepted(&self, txid: Seq<u8>) -> Option<Vec<u64>> {
        balist_find(self.accepted@, txid)
    }

    /// The signed outcome stored for `epoch`, if any.
    pub open spec fn spec_epoch(&self, epoch: u64) -> Option<Vec<u8>> {
        crate::alist::alist_find(self.epochs@, epoch)
    }

    /// The epoch count: highest committed epoch plus one, or zero.
    pub open spec fn spec_epoch_count(&self) -> int {
        match self.last_epoch {
            Some(e) => e + 1,
            None => 0,
        }
    }

    /// The download use count recorded for `token`, if any.
    pub open spec fn spec_download_count(&self, token: Seq<char>) -> Option<u64> {
        salist_find(self.download_counts@, token)
    }

    /// The backup stored for `id`, if any.
    pub open spec fn spec_backup(&self, id: Seq<u8>) -> Option<ClientBackupSnapshot> {
        balist_find(self.backups@, id)
    }

    /// An empty database.
    pub fn new() -> (r: Database)
        ensures
            r.wf(),
            r.accepted@.len() == 0,
            r.epochs@.len() == 0,
            r.last_epoch is None,
            r.download_counts@.len() == 0,
            r.backups@.len() == 0,
            r.config_signature is None,
    {
        Database {
            accepted: Vec::new(),
            epochs: Vec::new(),
            last_epoch: None,
            download_counts: Vec::new(),
            backups: Vec::new(),
            config_signature: None,
        }
    }
}

} // verus!
