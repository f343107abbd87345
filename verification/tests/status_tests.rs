use mint_api::status::{
    calculate_consensus_status, ConsensusContribution, PeerConnState, PeerConnectionStatus,
};

#[test]
fn test_server_status_all_ok() {
    let now_ms: u64 = 1_000_000;
    let latest_contribution_by_peer = vec![
        (0u64, ConsensusContribution { value: 1, time_ms: now_ms - 1 }),
        (1u64, ConsensusContribution { value: 2, time_ms: now_ms - 1 }),
    ];
    let peers_connection_status =
        vec![(0u64, PeerConnState::Connected), (1u64, PeerConnState::Connected)];
    let result = calculate_consensus_status(
        &latest_contribution_by_peer,
        1,
        &peers_connection_status,
        5_000,
        now_ms,
    );
    assert_eq!(result.peers_online, 2);
    assert_eq!(result.peers_offline, 0);
    assert_eq!(result.peers_flagged, 0);
    // no third bucket: every peer is counted online or offline
    assert_eq!(
        (result.peers_online + result.peers_offline) as usize,
        result.status_by_peer.len()
    );
    assert!(result.status_by_peer.iter().all(|p| !p.1.flagged));
}

#[test]
fn test_server_status_some_issues_not_flagged() {
    let now_ms: u64 = 1_000_000;
    let latest_contribution_by_peer = vec![
        // behind us
        (0u64, ConsensusContribution { value: 2, time_ms: now_ms - 1 }),
        (1u64, ConsensusContribution { value: 3, time_ms: now_ms - 1 }),
    ];
    let peers_connection_status = vec![
        (0u64, PeerConnState::Connected),
        // offline
        (1u64, PeerConnState::Disconnected),
    ];
    // we have some grace time: recent contributions keep the peer from
    // being flagged
    let result = calculate_consensus_status(
        &latest_contribution_by_peer,
        3,
        &peers_connection_status,
        5_000,
        now_ms,
    );
    assert_eq!(result.peers_online, 1);
    assert_eq!(result.peers_offline, 1);
    assert_eq!(result.peers_flagged, 0);
    assert!(result.status_by_peer.iter().all(|p| !p.1.flagged));
}

#[test]
fn test_server_status_some_issues_flagged() {
    let now_ms: u64 = 1_000_000;
    let latest_contribution_by_peer = vec![
        // behind us
        (0u64, ConsensusContribution { value: 2, time_ms: now_ms - 1 }),
        (1u64, ConsensusContribution { value: 3, time_ms: now_ms - 1 }),
    ];
    let peers_connection_status = vec![
        (0u64, PeerConnState::Connected),
        // offline
        (1u64, PeerConnState::Disconnected),
    ];
    // no grace time: a peer with some issue is not saved by its recent
    // contributions
    let result = calculate_consensus_status(
        &latest_contribution_by_peer,
        3,
        &peers_connection_status,
        0,
        now_ms,
    );
    assert_eq!(result.peers_online, 1);
    assert_eq!(result.peers_offline, 1);
    assert_eq!(result.peers_flagged, 2);
    assert!(result.status_by_peer.iter().all(|p| p.1.flagged));
}

#[test]
fn test_server_status_peer_without_contribution_is_flagged() {
    let now_ms: u64 = 50_000;
    let latest_contribution_by_peer: Vec<(u64, ConsensusContribution)> = Vec::new();
    let peers_connection_status = vec![(7u64, PeerConnState::Connected)];
    let result = calculate_consensus_status(
        &latest_contribution_by_peer,
        0,
        &peers_connection_status,
        60_000,
        now_ms,
    );
    assert_eq!(result.peers_online, 1);
    assert_eq!(result.peers_offline, 0);
    assert_eq!(result.peers_flagged, 1);
    assert_eq!(result.status_by_peer.len(), 1);
    assert_eq!(result.status_by_peer[0].0, 7);
    assert_eq!(result.status_by_peer[0].1.connection_status, PeerConnectionStatus::Connected);
    assert_eq!(result.status_by_peer[0].1.last_contribution, None);
}

#[test]
fn test_server_status_error_counts_as_disconnected() {
    let now_ms: u64 = 50_000;
    let latest_contribution_by_peer =
        vec![(3u64, ConsensusContribution { value: 9, time_ms: now_ms - 100 })];
    let peers_connection_status =
        vec![(3u64, PeerConnState::Error(String::from("probe failed")))];
    let result = calculate_consensus_status(
        &latest_contribution_by_peer,
        9,
        &peers_connection_status,
        60_000,
        now_ms,
    );
    assert_eq!(result.peers_online, 0);
    assert_eq!(result.peers_offline, 1);
    // the contribution is recent, so the peer is not flagged
    assert_eq!(result.peers_flagged, 0);
    assert_eq!(
        result.status_by_peer[0].1.connection_status,
        PeerConnectionStatus::Disconnected
    );
    // unix-second timestamp of the recorded contribution
    assert_eq!(result.status_by_peer[0].1.last_contribution_timestamp_seconds, Some(49));
    assert_eq!(result.status_by_peer[0].1.last_contribution, Some(9));
}
