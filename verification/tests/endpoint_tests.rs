use mint_api::cache::ExpiringCache;
use mint_api::consensus_api::{
    ClientConfig, ConsensusApi, ServerConfig, SupportedApiVersionsSummary,
};
use mint_api::db::Database;
use mint_api::endpoints::{handle_request, server_endpoints, ApiRequest, ApiResponse};
use mint_api::errors::ApiError;
use mint_api::modules::ModuleRegistry;
use mint_api::status::{ConsensusContribution, PeerConnState};

fn api() -> ConsensusApi {
    ConsensusApi {
        cfg: ServerConfig {
            download_token: String::from("token-a"),
            download_token_limit: None,
            api_auth: String::from("hunter2"),
            connect_info: String::from("fed1://example"),
            consensus_config: vec![1, 2, 3, 4],
            verification_hashes: vec![(0u64, vec![9u8; 32])],
        },
        db: Database::new(),
        modules: ModuleRegistry { modules: Vec::new() },
        client_cfg: ClientConfig { bytes: vec![5, 6, 7] },
        pending_events: Vec::new(),
        latest_contribution_by_peer: vec![(
            0u64,
            ConsensusContribution { value: 1, time_ms: 900 },
        )],
        consensus_status_cache: ExpiringCache::new(60_000),
        supported_api_versions: SupportedApiVersionsSummary { core_consensus: 0, api: 1 },
    }
}

#[test]
fn test_endpoint_catalogue() {
    let endpoints = server_endpoints();
    assert_eq!(endpoints.len(), 15);
    let names: Vec<&str> = endpoints.iter().map(|e| e.name.as_str()).collect();
    assert_eq!(
        names,
        vec![
            "version",
            "transaction",
            "fetch_transaction",
            "wait_transaction",
            "fetch_epoch_history",
            "fetch_epoch_count",
            "connection_code",
            "config",
            "config_hash",
            "upgrade",
            "process_outcome",
            "status",
            "get_verify_config_hash",
            "backup",
            "recover",
        ]
    );
    let gated: Vec<&str> =
        endpoints.iter().filter(|e| e.requires_auth).map(|e| e.name.as_str()).collect();
    assert_eq!(gated, vec!["upgrade", "process_outcome", "get_verify_config_hash"]);
}

#[test]
fn test_auth_gate_rejects_missing_token() {
    let mut a = api();
    let conn: Vec<(u64, PeerConnState)> = Vec::new();
    let r = handle_request(&mut a, ApiRequest::Upgrade, None, &conn, 1_000);
    assert_eq!(r, Err(ApiError::Unauthorized));
    let r = handle_request(
        &mut a,
        ApiRequest::Upgrade,
        Some(String::from("wrong")),
        &conn,
        1_000,
    );
    assert_eq!(r, Err(ApiError::Unauthorized));
    assert!(a.pending_events.is_empty());
    let r = handle_request(
        &mut a,
        ApiRequest::Upgrade,
        Some(String::from("hunter2")),
        &conn,
        1_000,
    );
    assert_eq!(r, Ok(ApiResponse::Upgrade));
    assert_eq!(a.pending_events.len(), 1);
}

#[test]
fn test_version_endpoint() {
    let mut a = api();
    let conn: Vec<(u64, PeerConnState)> = Vec::new();
    let r = handle_request(&mut a, ApiRequest::Version, None, &conn, 1_000);
    assert_eq!(
        r,
        Ok(ApiResponse::Version(SupportedApiVersionsSummary { core_consensus: 0, api: 1 }))
    );
}

#[test]
fn test_status_endpoint_uses_cache() {
    let mut a = api();
    let conn = vec![(0u64, PeerConnState::Connected)];
    let r1 = handle_request(&mut a, ApiRequest::Status, None, &conn, 1_000);
    let st1 = match r1 {
        Ok(ApiResponse::Status(st)) => st.consensus.expect("consensus status"),
        other => panic!("unexpected result {:?}", other),
    };
    assert_eq!(st1.peers_online, 1);
    assert_eq!(st1.peers_flagged, 0);
    // within the window the cached report is served even though the
    // connection snapshot changed
    let conn2 = vec![(0u64, PeerConnState::Disconnected)];
    let r2 = handle_request(&mut a, ApiRequest::Status, None, &conn2, 2_000);
    let st2 = match r2 {
        Ok(ApiResponse::Status(st)) => st.consensus.expect("consensus status"),
        other => panic!("unexpected result {:?}", other),
    };
    assert_eq!(st2.peers_online, 1);
}

#[test]
fn test_config_endpoint_serves_signature() {
    let mut a = api();
    a.db.config_signature = Some(vec![42u8; 64]);
    let conn: Vec<(u64, PeerConnState)> = Vec::new();
    let info = mint_api::consensus_api::WsClientConnectInfo {
        download_token: String::from("token-a"),
    };
    let r = handle_request(&mut a, ApiRequest::Config(info), None, &conn, 1_000);
    match r {
        Ok(ApiResponse::Config { client_config, signature }) => {
            assert_eq!(client_config.bytes, vec![5, 6, 7]);
            assert_eq!(signature, vec![42u8; 64]);
        }
        other => panic!("unexpected result {:?}", other),
    }
}

#[test]
fn test_connection_code_and_config_hash() {
    let mut a = api();
    let conn: Vec<(u64, PeerConnState)> = Vec::new();
    let r = handle_request(&mut a, ApiRequest::ConnectionCode, None, &conn, 1_000);
    assert_eq!(r, Ok(ApiResponse::ConnectionCode(String::from("fed1://example"))));
    let r = handle_request(&mut a, ApiRequest::ConfigHash, None, &conn, 1_000);
    let expected =
        bitcoin_hashes::sha256::Hash::hash(&[1, 2, 3, 4]).to_byte_array().to_vec();
    assert_eq!(r, Ok(ApiResponse::ConfigHash(expected)));
}

#[test]
fn test_fetch_epoch_endpoints() {
    let mut a = api();
    a.db.last_epoch = Some(2);
    a.db.epochs = vec![(2u64, vec![3, 3])];
    let conn: Vec<(u64, PeerConnState)> = Vec::new();
    let r = handle_request(&mut a, ApiRequest::FetchEpochCount, None, &conn, 1_000);
    assert_eq!(r, Ok(ApiResponse::FetchEpochCount(3)));
    let r =
        handle_request(&mut a, ApiRequest::FetchEpochHistory(2), None, &conn, 1_000);
    assert_eq!(r, Ok(ApiResponse::FetchEpochHistory(vec![3, 3])));
    let r =
        handle_request(&mut a, ApiRequest::FetchEpochHistory(7), None, &conn, 1_000);
    match r {
        Err(ApiError::NotFound(_)) => {}
        other => panic!("unexpected result {:?}", other),
    }
}
