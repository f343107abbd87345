use mint_api::cache::ExpiringCache;
use mint_api::consensus_api::{
    ApiEvent, ClientConfig, ConsensusApi, ServerConfig, SignedBackupRequest,
    SupportedApiVersionsSummary, WsClientConnectInfo,
};
use mint_api::db::Database;
use mint_api::errors::ApiError;
use mint_api::modules::{InputMeta, ModuleData, ModuleRegistry, OutPoint};
use mint_api::transaction::{Transaction, TxInput, TxOutput};

fn test_keypair() -> (secp256k1_zkp::Keypair, Vec<u8>) {
    let secp = secp256k1_zkp::Secp256k1::new();
    let sk = secp256k1_zkp::SecretKey::from_slice(&[7u8; 32]).unwrap();
    let keypair = secp256k1_zkp::Keypair::from_secret_key(&secp, &sk);
    let (pk, _parity) = secp256k1_zkp::XOnlyPublicKey::from_keypair(&keypair);
    (keypair, pk.serialize().to_vec())
}

fn schnorr_sign(digest: &[u8], keypair: &secp256k1_zkp::Keypair) -> Vec<u8> {
    let secp = secp256k1_zkp::Secp256k1::new();
    let msg = secp256k1_zkp::Message::from_digest_slice(digest).unwrap();
    let sig = secp.sign_schnorr_no_aux_rand(&msg, keypair);
    sig.as_ref().to_vec()
}

fn module_registry(pub_key: Vec<u8>, outcomes: Vec<(OutPoint, u64)>) -> ModuleRegistry {
    ModuleRegistry {
        modules: vec![(
            1u64,
            ModuleData {
                input_verdicts: vec![(10u64, InputMeta { amount: 100, pub_keys: vec![pub_key] })],
                output_verdicts: vec![(20u64, 60u64), (21u64, 70u64)],
                output_outcomes: outcomes,
            },
        )],
    }
}

fn fixture(modules: ModuleRegistry, limit: Option<u64>) -> ConsensusApi {
    ConsensusApi {
        cfg: ServerConfig {
            download_token: String::from("token-a"),
            download_token_limit: limit,
            api_auth: String::from("hunter2"),
            connect_info: String::from("fed1://example"),
            consensus_config: vec![1, 2, 3, 4],
            verification_hashes: vec![(0u64, vec![9u8; 32])],
        },
        db: Database::new(),
        modules,
        client_cfg: ClientConfig { bytes: vec![5, 6, 7] },
        pending_events: Vec::new(),
        latest_contribution_by_peer: Vec::new(),
        consensus_status_cache: ExpiringCache::new(60_000),
        supported_api_versions: SupportedApiVersionsSummary { core_consensus: 0, api: 1 },
    }
}

fn signed_transaction() -> (Transaction, ConsensusApi) {
    let (keypair, pk) = test_keypair();
    let api = fixture(module_registry(pk, Vec::new()), None);
    let mut tx = Transaction {
        inputs: vec![TxInput { module_instance_id: 1, payload: 10 }],
        outputs: vec![TxOutput { module_instance_id: 1, payload: 20 }],
        signatures: Vec::new(),
    };
    let txid = tx.tx_hash();
    tx.signatures = vec![schnorr_sign(&txid.digest, &keypair)];
    (tx, api)
}

#[test]
fn test_submit_transaction_accepts_funded_signed_tx() {
    let (tx, mut api) = signed_transaction();
    // inputs fund 100, outputs claim 60
    let r = api.submit_transaction(tx);
    assert!(r.is_ok());
    assert_eq!(api.pending_events.len(), 1);
    match &api.pending_events[0] {
        ApiEvent::Transaction(qt) => {
            assert_eq!(qt.inputs.len(), 1);
            assert_eq!(qt.outputs.len(), 1);
        }
        other => panic!("unexpected event {:?}", other),
    }
}

#[test]
fn test_submit_transaction_rejects_bad_signature() {
    let (mut tx, mut api) = signed_transaction();
    tx.signatures[0][0] ^= 1;
    let r = api.submit_transaction(tx);
    match r {
        Err(ApiError::BadRequest(m)) => assert_eq!(m, "invalid signature"),
        other => panic!("unexpected result {:?}", other),
    }
    assert_eq!(api.pending_events.len(), 0);
}

#[test]
fn test_submit_transaction_rejects_unknown_input() {
    let (mut tx, mut api) = signed_transaction();
    tx.inputs[0].payload = 99;
    let r = api.submit_transaction(tx);
    match r {
        Err(ApiError::BadRequest(m)) => assert_eq!(m, "invalid input"),
        other => panic!("unexpected result {:?}", other),
    }
}

#[test]
fn test_submit_transaction_rejects_underfunded() {
    let (keypair, pk) = test_keypair();
    let mut api = fixture(module_registry(pk, Vec::new()), None);
    let mut tx = Transaction {
        inputs: vec![TxInput { module_instance_id: 1, payload: 10 }],
        // outputs claim 60 + 70 > 100 funded
        outputs: vec![
            TxOutput { module_instance_id: 1, payload: 20 },
            TxOutput { module_instance_id: 1, payload: 21 },
        ],
        signatures: Vec::new(),
    };
    let txid = tx.tx_hash();
    tx.signatures = vec![schnorr_sign(&txid.digest, &keypair)];
    let r = api.submit_transaction(tx);
    match r {
        Err(ApiError::BadRequest(m)) => assert_eq!(m, "transaction underfunded"),
        other => panic!("unexpected result {:?}", other),
    }
}

#[test]
fn test_transaction_status_counts_outputs() {
    let (keypair, pk) = test_keypair();
    let mut tx = Transaction {
        inputs: vec![TxInput { module_instance_id: 1, payload: 10 }],
        outputs: vec![TxOutput { module_instance_id: 1, payload: 20 }],
        signatures: Vec::new(),
    };
    let txid = tx.tx_hash();
    tx.signatures = vec![schnorr_sign(&txid.digest, &keypair)];
    // the module has recorded an outcome for the single output
    let outcomes = vec![(OutPoint { txid: txid.digest.clone(), out_idx: 0 }, 77u64)];
    let mut api = fixture(module_registry(pk, outcomes), None);
    assert!(api.transaction_status(&txid).is_none());
    api.record_accepted_transaction(&txid, vec![1u64]);
    let status = api.transaction_status(&txid).expect("committed");
    assert_eq!(status.epoch, 0);
    // the output count equals the accepted record's length
    assert_eq!(status.outputs.len(), 1);
    assert_eq!(status.outputs[0], 77);
    let waited = api.wait_transaction_status(&txid);
    assert_eq!(waited.outputs, status.outputs);
}

#[test]
fn test_transaction_codec_round_trip() {
    let (tx, api) = signed_transaction();
    let bytes = tx.encode();
    let decoded = mint_api::transaction::decode_transaction(&bytes, &api.modules)
        .expect("decodes");
    assert_eq!(decoded, tx);
    assert_eq!(decoded.tx_hash().digest, tx.tx_hash().digest);
    // a truncated wire form is rejected
    let r = mint_api::transaction::decode_transaction(&bytes[..8].to_vec(), &api.modules);
    assert!(r.is_err());
}

#[test]
fn test_download_token_limit() {
    let (_, pk) = test_keypair();
    let mut api = fixture(module_registry(pk, Vec::new()), Some(3));
    let info = WsClientConnectInfo { download_token: String::from("token-a") };
    assert!(api.download_client_config(&info).is_ok());
    assert!(api.download_client_config(&info).is_ok());
    assert!(api.download_client_config(&info).is_ok());
    match api.download_client_config(&info) {
        Err(ApiError::BadRequest(m)) => assert_eq!(m, "Download token used too many times"),
        other => panic!("unexpected result {:?}", other),
    }
}

#[test]
fn test_download_token_mismatch() {
    let (_, pk) = test_keypair();
    let mut api = fixture(module_registry(pk, Vec::new()), None);
    let info = WsClientConnectInfo { download_token: String::from("wrong") };
    match api.download_client_config(&info) {
        Err(ApiError::BadRequest(m)) => assert_eq!(m, "Download token not found"),
        other => panic!("unexpected result {:?}", other),
    }
    let good = WsClientConnectInfo { download_token: String::from("token-a") };
    let cfg = api.download_client_config(&good).expect("served");
    assert_eq!(cfg.bytes, vec![5, 6, 7]);
}

fn backup_request(timestamp: u64, payload: Vec<u8>) -> SignedBackupRequest {
    let (keypair, pk) = test_keypair();
    let mut content = timestamp.to_le_bytes().to_vec();
    content.extend_from_slice(&payload);
    let digest = bitcoin_hashes::sha256::Hash::hash(&content).to_byte_array();
    let signature = schnorr_sign(&digest, &keypair);
    SignedBackupRequest { id: pk, timestamp, payload, signature }
}

#[test]
fn test_backup_rejects_non_monotonic() {
    let (_, pk) = test_keypair();
    let mut api = fixture(module_registry(pk, Vec::new()), None);
    let first = backup_request(100, vec![1, 1, 1]);
    assert!(api.handle_backup_request(&first).is_ok());
    let replay = backup_request(100, vec![2, 2, 2]);
    match api.handle_backup_request(&replay) {
        Err(ApiError::BadRequest(m)) => assert_eq!(m, "timestamp too small"),
        other => panic!("unexpected result {:?}", other),
    }
    let newer = backup_request(101, vec![3, 3, 3]);
    assert!(api.handle_backup_request(&newer).is_ok());
    let id = backup_request(0, Vec::new()).id;
    let snapshot = api.handle_recover_request(&id).expect("stored");
    assert_eq!(snapshot.timestamp, 101);
    assert_eq!(snapshot.data, vec![3, 3, 3]);
}

#[test]
fn test_backup_rejects_bad_signature() {
    let (_, pk) = test_keypair();
    let mut api = fixture(module_registry(pk, Vec::new()), None);
    let mut req = backup_request(5, vec![4]);
    req.signature[0] ^= 1;
    match api.handle_backup_request(&req) {
        Err(ApiError::BadRequest(m)) => assert_eq!(m, "invalid request"),
        other => panic!("unexpected result {:?}", other),
    }
    assert!(api.handle_recover_request(&req.id).is_none());
}

#[test]
fn test_epoch_count_and_history() {
    let (_, pk) = test_keypair();
    let mut api = fixture(module_registry(pk, Vec::new()), None);
    assert_eq!(api.get_epoch_count(), 0);
    api.db.last_epoch = Some(5);
    api.db.epochs = vec![(5u64, vec![8, 8, 8])];
    assert_eq!(api.get_epoch_count(), 6);
    assert_eq!(api.epoch_history(5), Some(vec![8, 8, 8]));
    assert_eq!(api.epoch_history(4), None);
}

#[test]
fn test_force_process_outcome_decodes() {
    let (_, pk) = test_keypair();
    let mut api = fixture(module_registry(pk, Vec::new()), None);
    match api.force_process_outcome(&vec![1, 2, 3]) {
        Err(ApiError::BadRequest(m)) => assert_eq!(m, "Unable to decode outcome"),
        other => panic!("unexpected result {:?}", other),
    }
    let mut encoded = 9u64.to_le_bytes().to_vec();
    encoded.extend_from_slice(&[4, 5]);
    assert!(api.force_process_outcome(&encoded).is_ok());
    match &api.pending_events[0] {
        ApiEvent::ForceProcessOutcome(o) => {
            assert_eq!(o.epoch, 9);
            assert_eq!(o.payload, vec![4, 5]);
        }
        other => panic!("unexpected event {:?}", other),
    }
}

#[test]
fn test_signal_upgrade_queues_event() {
    let (_, pk) = test_keypair();
    let mut api = fixture(module_registry(pk, Vec::new()), None);
    assert!(api.signal_upgrade().is_ok());
    assert_eq!(api.pending_events, vec![ApiEvent::UpgradeSignal]);
}
