//! Consensus status calculator: combines each peer's latest contribution
//! and connection state into a health report.
//!
//! A peer that has recently contributed is not penalized for a momentary
//! disconnect; a peer that is behind but still contributing is tolerated;
//! a peer that is both behind and silent is flagged.

use vstd::prelude::*;

use crate::alist::{
    alist_find, alist_has, alist_position, lemma_alist_has_iff, u64_vec_contains, unique_keys,
};

verus! {

/// Connection state reported for a peer by the peer-status source.
#[derive(Debug, Clone, PartialEq, Eq)]
pub enum PeerConnState {
    /// The peer is currently connected to this node.
    Connected,
    /// The peer is currently not connected.
    Disconnected,
    /// The status probe itself failed with the given message.
    Error(String),
}

/// Connection status reported to API clients: the error case collapses
/// into `Disconnected`.
#[derive(Debug, Clone, Copy, PartialEq, Eq)]
pub enum PeerConnectionStatus {
    /// The peer is connected.
    Connected,
    /// The peer is disconnected, or its status could not be read.
    Disconnected,
}

/// A peer's last observed consensus contribution: the epoch value it
/// contributed and the wall-clock time, in unix milliseconds, at which
/// the contribution was observed.
#[derive(Debug, Clone, Copy, PartialEq, Eq)]
pub struct ConsensusContribution {
    /// Epoch number the peer contributed.
    pub value: u64,
    /// Unix milliseconds at which the contribution was observed.
    pub time_ms: u64,
}

/// Health report for a single peer.
#[derive(Debug, Clone, Copy, PartialEq, Eq)]
pub struct PeerConsensusStatus {
    /// Connection status as reported to clients.
    pub connection_status: PeerConnectionStatus,
    /// Whether this peer is considered unhealthy.
    pub flagged: bool,
    /// The epoch value of the peer's last contribution, if any was seen.
    pub last_contribution: Option<u64>,
    /// Unix seconds of the peer's last contribution, if any was seen.
    pub last_contribution_timestamp_seconds: Option<u64>,
}

/// Aggregate health report over all known peers.
#[derive(Debug, Clone, PartialEq, Eq)]
pub struct ConsensusStatus {
    /// This node's own last contribution (its epoch count).
    pub last_contribution: u64,
    /// Number of peers whose status is `Connected`.
    pub peers_online: u64,
    /// Number of peers whose status is `Disconnected`.
    pub peers_offline: u64,
    /// Number of peers that are flagged.
    pub peers_flagged: u64,
    /// Per-peer report, keyed by peer id, one entry per known peer.
    pub status_by_peer: Vec<(u64, PeerConsensusStatus)>,
}

/// Whether a contribution record counts as recent at `now_ms` under the
/// grace window `grace_ms`.
pub open spec fn spec_has_recent(
    record: Option<ConsensusContribution>,
    grace_ms: u64,
    now_ms: u64,
) -> bool {
    match record {
        Some(c) => now_ms - c.time_ms <= grace_ms,
        None => false,
    }
}

/// The report computed for one peer from its contribution record and its
/// connection state.
pub open spec fn spec_peer_status(
    record: Option<ConsensusContribution>,
    conn: Option<PeerConnState>,
    our_last: u64,
    grace_ms: u64,
    now_ms: u64,
) -> PeerConsensusStatus {
    let has_recent = spec_has_recent(record, grace_ms, now_ms);
    let base_flag = match record {
        Some(c) => c.value < our_last && !has_recent,
        None => true,
    };
    let connected = conn matches Some(PeerConnState::Connected);
    PeerConsensusStatus {
        connection_status: if connected {
            PeerConnectionStatus::Connected
        } else {
            PeerConnectionStatus::Disconnected
        },
        flagged: base_flag || (!connected && !has_recent),
        last_contribution: match record {
            Some(c) => Some(c.value),
            None => None,
        },
        last_contribution_timestamp_seconds: match record {
            Some(c) => Some((c.time_ms / 1000) as u64),
            None => None,
        },
    }
}

/// How many report entries show a connected peer.
pub open spec fn count_online(s: Seq<(u64, PeerConsensusStatus)>) -> int
    decreases s.len(),
{
    if s.len() == 0 {
        0
    } else {
        count_online(s.drop_last()) + if s.last().1.connection_status is Connected {
            1int
        } else {
            0int
        }
    }
}

/// How many report entries show a disconnected peer.
pub open spec fn count_offline(s: Seq<(u64, PeerConsensusStatus)>) -> int
    decreases s.len(),
{
    if s.len() == 0 {
        0
    } else {
        count_offline(s.drop_last()) + if s.last().1.connection_status is Disconnected {
            1int
        } else {
            0int
        }
    }
}

/// How many report entries are flagged.
pub open spec fn count_flagged(s: Seq<(u64, PeerConsensusStatus)>) -> int
    decreases s.len(),
{
    if s.len() == 0 {
        0
    } else {
        count_flagged(s.drop_last()) + if s.last().1.flagged {
            1int
        } else {
            0int
        }
    }
}

/// Whether two health reports agree: same aggregates and the same
/// per-peer entries.
pub open spec fn spec_same_status(a: ConsensusStatus, b: ConsensusStatus) -> bool {
    &&& a.last_contribution == b.last_contribution
    &&& a.peers_online == b.peers_online
    &&& a.peers_offline == b.peers_offline
    &&& a.peers_flagged == b.peers_flagged
    &&& a.status_by_peer@ == b.status_by_peer@
}

/// Every peer is counted online or offline, never both and never in a
/// third bucket.
pub proof fn lemma_online_offline_partition(s: Seq<(u64, PeerConsensusStatus)>)
    ensures
        count_online(s) + count_offline(s) == s.len(),
    decreases s.len(),
{
    if s.len() > 0 {
        lemma_online_offline_partition(s.drop_last());
    }
}

/// A flagged peer is never both connected and recently contributing.
pub proof fn lemma_flagged_not_healthy(
    record: Option<ConsensusContribution>,
    conn: Option<PeerConnState>,
    our_last: u64,
    grace_ms: u64,
    now_ms: u64,
)
    ensures
        spec_peer_status(record, conn, our_last, grace_ms, now_ms).flagged ==> !(spec_peer_status(
            record,
            conn,
            our_last,
            grace_ms,
            now_ms,
        ).connection_status is Connected && spec_has_recent(record, grace_ms, now_ms)),
{
}

/// Combines the latest contribution per peer, this node's own epoch
/// count, and the per-peer connection states into a health report.
///
/// The peer universe is the union of the keys of the two inputs. Every
/// peer's entry follows [`spec_peer_status`]; the aggregate counters
/// count exactly the connected, disconnected and flagged entries.
pub fn calculate_consensus_status(
    latest_contribution_by_peer: &Vec<(u64, ConsensusContribution)>,
    our_last_contribution: u64,
    peers_connection_status: &Vec<(u64, PeerConnState)>,
    grace_ms: u64,
    now_ms: u64,
) -> (r: ConsensusStatus)
    requires
        unique_keys(latest_contribution_by_peer@),
        unique_keys(peers_connection_status@),
        forall|j: int|
            0 <= j < latest_contribution_by_peer@.len()
                ==> latest_contribution_by_peer@[j].1.time_ms <= now_ms,
    ensures
        r.last_contribution == our_last_contribution,
        unique_keys(r.status_by_peer@),
        forall|p: u64|
            alist_has(r.status_by_peer@, p) <==> (alist_has(latest_contribution_by_peer@, p)
                || alist_has(peers_connection_status@, p)),
        forall|i: int|
            0 <= i < r.status_by_peer@.len() ==> #[trigger] r.status_by_peer@[i].1
                == spec_peer_status(
                alist_find(latest_contribution_by_peer@, r.status_by_peer@[i].0),
                alist_find(peers_connection_status@, r.status_by_peer@[i].0),
                our_last_contribution,
                grace_ms,
                now_ms,
            ),
        r.peers_online == count_online(r.status_by_peer@),
        r.peers_offline == count_offline(r.status_by_peer@),
        r.peers_flagged == count_flagged(r.status_by_peer@),
        r.peers_online + r.peers_offline == r.status_by_peer@.len(),
        forall|i: int|
            0 <= i < r.status_by_peer@.len() ==> ((#[trigger] r.status_by_peer@[i]).1.flagged
                ==> !(r.status_by_peer@[i].1.connection_status is Connected && spec_has_recent(
                alist_find(latest_contribution_by_peer@, r.status_by_peer@[i].0),
                grace_ms,
                now_ms,
            ))),
{
    // Peer universe: keys of the connection map, then any contribution
    // keys not already present.
    let mut peers: Vec<u64> = Vec::new();
    let mut i: usize = 0;
    while i < peers_connection_status.len()
        invariant
            i <= peers_connection_status@.len(),
            peers@.len() == i,
            forall|j: int| 0 <= j < i ==> peers@[j] == peers_connection_status@[j].0,
            unique_keys(peers_connection_status@),
        decreases peers_connection_status@.len() - i,
    {
        peers.push(peers_connection_status[i].0);
        i += 1;
    }
    proof {
        assert forall|x: u64|
            peers@.contains(x) <==> alist_has(peers_connection_status@, x) by {
            lemma_alist_has_iff(peers_connection_status@, x);
            if peers@.contains(x) {
                let ix = choose|ix: int| 0 <= ix < peers@.len() && peers@[ix] == x;
                assert(peers_connection_status@[ix].0 == x);
            }
            if alist_has(peers_connection_status@, x) {
                let ix = choose|ix: int|
                    0 <= ix < peers_connection_status@.len() && peers_connection_status@[ix].0
                        == x;
                assert(peers@[ix] == x);
            }
        }
    }
    let ghost conn_keys_len = peers@.len();
    let mut i: usize = 0;
    while i < latest_contribution_by_peer.len()
        invariant
            i <= latest_contribution_by_peer@.len(),
            forall|a: int, b: int| 0 <= a < b < peers@.len() ==> peers@[a] != peers@[b],
            forall|x: u64|
                #[trigger] peers@.contains(x) <==> (alist_has(peers_connection_status@, x)
                    || exists|j: int| 0 <= j < i && latest_contribution_by_peer@[j].0 == x),
        decreases latest_contribution_by_peer@.len() - i,
    {
        let p = latest_contribution_by_peer[i].0;
        if !u64_vec_contains(&peers, p) {
            let ghost old_peers = peers@;
            peers.push(p);
            proof {
                assert(peers@.last() == p);
                assert forall|x: u64| #[trigger]
                    peers@.contains(x) implies (alist_has(peers_connection_status@, x) || exists|
                    j: int,
                |
                    0 <= j < i + 1 && latest_contribution_by_peer@[j].0 == x) by {
                    let ix = choose|ix: int| 0 <= ix < peers@.len() && peers@[ix] == x;
                    if ix < old_peers.len() {
                        assert(old_peers.contains(x));
                    } else {
                        assert(x == p);
                        assert(latest_contribution_by_peer@[i as int].0 == x);
                    }
                }
                assert forall|x: u64|
                    (alist_has(peers_connection_status@, x) || exists|j: int|
                        0 <= j < i + 1 && latest_contribution_by_peer@[j].0
                            == x) implies #[trigger] peers@.contains(x) by {
                    if alist_has(peers_connection_status@, x) || exists|j: int|
                        0 <= j < i && latest_contribution_by_peer@[j].0 == x {
                        assert(old_peers.contains(x));
                        let ix = choose|ix: int| 0 <= ix < old_peers.len() && old_peers[ix] == x;
                        assert(peers@[ix] == x);
                    } else {
                        assert(latest_contribution_by_peer@[i as int].0 == x);
                        assert(peers@[peers@.len() - 1] == x);
                    }
                }
            }
        } else {
            proof {
                assert forall|x: u64| #[trigger]
                    peers@.contains(x) <==> (alist_has(peers_connection_status@, x) || exists|
                    j: int,
                |
                    0 <= j < i + 1 && latest_contribution_by_peer@[j].0 == x) by {
                    if !peers@.contains(x) && exists|j: int|
                        0 <= j < i + 1 && latest_contribution_by_peer@[j].0 == x {
                        let j = choose|j: int|
                            0 <= j < i + 1 && latest_contribution_by_peer@[j].0 == x;
                        assert(j == i);
                        assert(x == p);
                        assert(peers@.contains(p));
                    }
                }
            }
        }
        i += 1;
    }
    proof {
        assert forall|x: u64|
            peers@.contains(x) <==> (alist_has(peers_connection_status@, x) || alist_has(
                latest_contribution_by_peer@,
                x,
            )) by {
            lemma_alist_has_iff(latest_contribution_by_peer@, x);
        }
    }

    // Build one report entry per peer and count the buckets.
    let mut status_by_peer: Vec<(u64, PeerConsensusStatus)> = Vec::new();
    let mut peers_online: u64 = 0;
    let mut peers_offline: u64 = 0;
    let mut peers_flagged: u64 = 0;
    let mut i: usize = 0;
    while i < peers.len()
        invariant
            i <= peers@.len(),
            status_by_peer@.len() == i,
            forall|a: int, b: int| 0 <= a < b < peers@.len() ==> peers@[a] != peers@[b],
            forall|j: int| 0 <= j < i ==> #[trigger] status_by_peer@[j].0 == peers@[j],
            forall|j: int|
                0 <= j < i ==> #[trigger] status_by_peer@[j].1 == spec_peer_status(
                    alist_find(latest_contribution_by_peer@, status_by_peer@[j].0),
                    alist_find(peers_connection_status@, status_by_peer@[j].0),
                    our_last_contribution,
                    grace_ms,
                    now_ms,
                ),
            peers_online == count_online(status_by_peer@),
            peers_offline == count_offline(status_by_peer@),
            peers_flagged == count_flagged(status_by_peer@),
            peers_online <= i && peers_offline <= i && peers_flagged <= i,
            unique_keys(latest_contribution_by_peer@),
            unique_keys(peers_connection_status@),
            forall|j: int|
                0 <= j < latest_contribution_by_peer@.len()
                    ==> latest_contribution_by_peer@[j].1.time_ms <= now_ms,
        decreases peers@.len() - i,
    {
        let p = peers[i];
        let record_pos = alist_position(latest_contribution_by_peer, p);
        let conn_pos = alist_position(peers_connection_status, p);
        let connected: bool = match conn_pos {
            Some(ci) => match &peers_connection_status[ci].1 {
                PeerConnState::Connected => true,
                PeerConnState::Disconnected => false,
                PeerConnState::Error(_) => false,
            },
            None => false,
        };
        let mut base_flag: bool = true;
        let mut has_recent: bool = false;
        let mut last_contribution: Option<u64> = None;
        let mut last_ts: Option<u64> = None;
        match record_pos {
            Some(ci) => {
                let c = latest_contribution_by_peer[ci].1;
                has_recent = now_ms - c.time_ms <= grace_ms;
                base_flag = c.value < our_last_contribution && !has_recent;
                last_contribution = Some(c.value);
                last_ts = Some(c.time_ms / 1000);
            },
            None => {},
        }
        let entry = PeerConsensusStatus {
            connection_status: if connected {
                PeerConnectionStatus::Connected
            } else {
                PeerConnectionStatus::Disconnected
            },
            flagged: base_flag || (!connected && !has_recent),
            last_contribution,
            last_contribution_timestamp_seconds: last_ts,
        };
        proof {
            assert(entry == spec_peer_status(
                alist_find(latest_contribution_by_peer@, p),
                alist_find(peers_connection_status@, p),
                our_last_contribution,
                grace_ms,
                now_ms,
            ));
        }
        let ghost old_status = status_by_peer@;
        status_by_peer.push((p, entry));
        proof {
            assert(status_by_peer@.drop_last() =~= old_status);
        }
        if matches!(entry.connection_status, PeerConnectionStatus::Connected) {
            peers_online = peers_online + 1;
        } else {
            peers_offline = peers_offline + 1;
        }
        if entry.flagged {
            peers_flagged = peers_flagged + 1;
        }
        i += 1;
    }
    proof {
        assert forall|p: u64|
            alist_has(status_by_peer@, p) <==> (alist_has(latest_contribution_by_peer@, p)
                || alist_has(peers_connection_status@, p)) by {
            lemma_alist_has_iff(status_by_peer@, p);
            if peers@.contains(p) {
                let ix = choose|ix: int| 0 <= ix < peers@.len() && peers@[ix] == p;
                assert(status_by_peer@[ix].0 == p);
            }
            if alist_has(status_by_peer@, p) {
                let ix = choose|ix: int|
                    0 <= ix < status_by_peer@.len() && status_by_peer@[ix].0 == p;
                assert(peers@[ix] == p);
                assert(peers@.contains(p));
            }
        }
        lemma_online_offline_partition(status_by_peer@);
        assert forall|i: int|
            0 <= i < status_by_peer@.len() implies ((#[trigger] status_by_peer@[i]).1.flagged
            ==> !(status_by_peer@[i].1.connection_status is Connected && spec_has_recent(
            alist_find(latest_contribution_by_peer@, status_by_peer@[i].0),
            grace_ms,
            now_ms,
        ))) by {
            lemma_flagged_not_healthy(
                alist_find(latest_contribution_by_peer@, status_by_peer@[i].0),
                alist_find(peers_connection_status@, status_by_peer@[i].0),
                our_last_contribution,
                grace_ms,
                now_ms,
            );
        }
    }
    ConsensusStatus {
        last_contribution: our_last_contribution,
        peers_online,
        peers_offline,
        peers_flagged,
        status_by_peer,
    }
}

} // verus!
