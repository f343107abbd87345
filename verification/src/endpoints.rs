//! Endpoint registry and authorization: the fixed catalogue of named
//! operations the consensus API exposes, and the dispatcher that routes
//! a typed request to its handler, gating the privileged ones on the
//! configured auth token.
//!
//! The transport (JSON-RPC plumbing) stays outside: it parses wire
//! payloads into [`ApiRequest`] values, supplies the clock and the
//! peer-status snapshot, and performs the blocking key-presence wait
//! before handing over a config request.

use vstd::prelude::*;

use crate::consensus_api::{
    ApiEvent, ClientConfig, ConsensusApi, SignedBackupRequest, spec_flat_keys,
    spec_tx_acceptable, spec_wire_acceptable, TransactionStatus, WsClientConnectInfo,
};
use crate::crypto::{sha256, sha256_of};
use crate::db::ClientBackupSnapshot;
use crate::errors::ApiError;
use crate::status::{spec_same_status, ConsensusStatus, PeerConnState};
use crate::transaction::{
    decode_transaction, lemma_sigs_valid_views, spec_content_of, spec_tx_content, spec_tx_wire,
    spec_txid, spec_wire_inputs, spec_wire_outputs, spec_wire_parses, spec_wire_txid,
    TransactionId,
};

verus! {

/// One row of the endpoint catalogue: the operation's name and whether
/// it requires authentication.
#[derive(Debug, PartialEq, Eq)]
pub struct ApiEndpoint {
    /// The operation name clients address.
    pub name: String,
    /// Whether the operation requires the configured auth token.
    pub requires_auth: bool,
}

/// A typed request to one of the named operations.
#[derive(Debug, PartialEq, Eq)]
pub enum ApiRequest {
    /// `version`: the supported versions summary.
    Version,
    /// `transaction`: submit a wire-encoded transaction.
    Transaction(Vec<u8>),
    /// `fetch_transaction`: single-shot status lookup.
    FetchTransaction(TransactionId),
    /// `wait_transaction`: status lookup after the record appeared.
    WaitTransaction(TransactionId),
    /// `fetch_epoch_history`: one signed epoch outcome.
    FetchEpochHistory(u64),
    /// `fetch_epoch_count`: the current epoch count.
    FetchEpochCount,
    /// `connection_code`: the stringified connect info.
    ConnectionCode,
    /// `config`: download the client config with a connect info.
    Config(WsClientConnectInfo),
    /// `config_hash`: hash of the consensus config portion.
    ConfigHash,
    /// `upgrade`: privileged upgrade signal.
    Upgrade,
    /// `process_outcome`: privileged forced outcome processing.
    ProcessOutcome(Vec<u8>),
    /// `status`: the cached consensus health report.
    Status,
    /// `get_verify_config_hash`: privileged per-peer config hashes.
    GetVerifyConfigHash,
    /// `backup`: store a signed client backup.
    Backup(SignedBackupRequest),
    /// `recover`: fetch a stored client backup.
    Recover(Vec<u8>),
}

/// The server status reported by the `status` operation.
#[derive(Debug, Clone, Copy, PartialEq, Eq, Structural)]
pub enum ServerStatus {
    /// Consensus is running.
    ConsensusRunning,
}

/// The `status` operation's response body.
#[derive(Debug, PartialEq, Eq)]
pub struct StatusResponse {
    /// The server's own status.
    pub server: ServerStatus,
    /// The consensus health report.
    pub consensus: Option<ConsensusStatus>,
}

/// A typed response from one of the named operations.
#[derive(Debug, PartialEq, Eq)]
pub enum ApiResponse {
    /// Response of `version`.
    Version(crate::consensus_api::SupportedApiVersionsSummary),
    /// Response of `transaction`: the submitted transaction's id.
    Transaction(TransactionId),
    /// Response of `fetch_transaction`.
    FetchTransaction(Option<TransactionStatus>),
    /// Response of `wait_transaction`.
    WaitTransaction(TransactionStatus),
    /// Response of `fetch_epoch_history`.
    FetchEpochHistory(Vec<u8>),
    /// Response of `fetch_epoch_count`.
    FetchEpochCount(u64),
    /// Response of `connection_code`.
    ConnectionCode(String),
    /// Response of `config`: the client config and its signature.
    Config {
        /// The served client config.
        client_config: ClientConfig,
        /// The stored config signature.
        signature: Vec<u8>,
    },
    /// Response of `config_hash`.
    ConfigHash(Vec<u8>),
    /// Response of `upgrade`.
    Upgrade,
    /// Response of `process_outcome`.
    ProcessOutcome,
    /// Response of `status`.
    Status(StatusResponse),
    /// Response of `get_verify_config_hash`.
    GetVerifyConfigHash(Vec<(u64, Vec<u8>)>),
    /// Response of `backup`.
    Backup,
    /// Response of `recover`.
    Recover(Option<ClientBackupSnapshot>),
}

/// Whether an operation is auth-gated: exactly `upgrade`,
/// `process_outcome` and `get_verify_config_hash`.
pub open spec fn spec_requires_auth(r: ApiRequest) -> bool {
    match r {
        ApiRequest::Upgrade => true,
        ApiRequest::ProcessOutcome(_) => true,
        ApiRequest::GetVerifyConfigHash => true,
        _ => false,
    }
}

/// Whether the attached auth token matches the node's configured one.
pub open spec fn spec_has_auth(auth: Option<String>, api_auth: Seq<char>) -> bool {
    match auth {
        Some(a) => a@ == api_auth,
        None => false,
    }
}

/// Nothing in the state changed.
pub open spec fn spec_unchanged(pre: ConsensusApi, post: ConsensusApi) -> bool {
    &&& post.cfg == pre.cfg
    &&& post.db == pre.db
    &&& post.modules == pre.modules
    &&& post.client_cfg == pre.client_cfg
    &&& post.pending_events == pre.pending_events
    &&& post.latest_contribution_by_peer == pre.latest_contribution_by_peer
    &&& post.consensus_status_cache == pre.consensus_status_cache
    &&& post.supported_api_versions == pre.supported_api_versions
}

/// The fixed endpoint catalogue: every operation the consensus API
/// exposes, with its auth requirement.
pub fn server_endpoints() -> (r: Vec<ApiEndpoint>)
    ensures
        r@.len() == 15,
        r@[0].name@ == "version"@ && !r@[0].requires_auth,
        r@[1].name@ == "transaction"@ && !r@[1].requires_auth,
        r@[2].name@ == "fetch_transaction"@ && !r@[2].requires_auth,
        r@[3].name@ == "wait_transaction"@ && !r@[3].requires_auth,
        r@[4].name@ == "fetch_epoch_history"@ && !r@[4].requires_auth,
        r@[5].name@ == "fetch_epoch_count"@ && !r@[5].requires_auth,
        r@[6].name@ == "connection_code"@ && !r@[6].requires_auth,
        r@[7].name@ == "config"@ && !r@[7].requires_auth,
        r@[8].name@ == "config_hash"@ && !r@[8].requires_auth,
        r@[9].name@ == "upgrade"@ && r@[9].requires_auth,
        r@[10].name@ == "process_outcome"@ && r@[10].requires_auth,
        r@[11].name@ == "status"@ && !r@[11].requires_auth,
        r@[12].name@ == "get_verify_config_hash"@ && r@[12].requires_auth,
        r@[13].name@ == "backup"@ && !r@[13].requires_auth,
        r@[14].name@ == "recover"@ && !r@[14].requires_auth,
{
    let mut r: Vec<ApiEndpoint> = Vec::new();
    r.push(ApiEndpoint { name: "version".to_owned(), requires_auth: false });
    r.push(ApiEndpoint { name: "transaction".to_owned(), requires_auth: false });
    r.push(ApiEndpoint { name: "fetch_transaction".to_owned(), requires_auth: false });
    r.push(ApiEndpoint { name: "wait_transaction".to_owned(), requires_auth: false });
    r.push(ApiEndpoint { name: "fetch_epoch_history".to_owned(), requires_auth: false });
    r.push(ApiEndpoint { name: "fetch_epoch_count".to_owned(), requires_auth: false });
    r.push(ApiEndpoint { name: "connection_code".to_owned(), requires_auth: false });
    r.push(ApiEndpoint { name: "config".to_owned(), requires_auth: false });
    r.push(ApiEndpoint { name: "config_hash".to_owned(), requires_auth: false });
    r.push(ApiEndpoint { name: "upgrade".to_owned(), requires_auth: true });
    r.push(ApiEndpoint { name: "process_outcome".to_owned(), requires_auth: true });
    r.push(ApiEndpoint { name: "status".to_owned(), requires_auth: false });
    r.push(ApiEndpoint { name: "get_verify_config_hash".to_owned(), requires_auth: true });
    r.push(ApiEndpoint { name: "backup".to_owned(), requires_auth: false });
    r.push(ApiEndpoint { name: "recover".to_owned(), requires_auth: false });
    r
}

/// Copies a per-peer hash table.
fn clone_hashes(v: &Vec<(u64, Vec<u8>)>) -> (r: Vec<(u64, Vec<u8>)>)
    ensures
        r@.len() == v@.len(),
        forall|i: int|
            0 <= i < v@.len() ==> (#[trigger] r@[i]).0 == v@[i].0 && r@[i].1@ == v@[i].1@,
{
    let mut r: Vec<(u64, Vec<u8>)> = Vec::new();
    let mut i: usize = 0;
    while i < v.len()
        invariant
            i <= v@.len(),
            r@.len() == i,
            forall|j: int|
                0 <= j < i ==> (#[trigger] r@[j]).0 == v@[j].0 && r@[j].1@ == v@[j].1@,
        decreases v@.len() - i,
    {
        r.push((v[i].0, v[i].1.clone()));
        i += 1;
    }
    r
}

/// Dispatches one typed request: checks the auth gate, invokes the
/// operation's handler, and wraps its result. The transport supplies
/// the auth token, the peer-status snapshot, the grace window and the
/// clock, and has completed the config-signature wait before handing
/// over a `config` request.
#[verifier::rlimit(100)]
pub fn handle_request(
    api: &mut ConsensusApi,
    request: ApiRequest,
    auth: Option<String>,
    peers_connection_status: &Vec<(u64, PeerConnState)>,
    now_ms: u64,
) -> (r: Result<ApiResponse, ApiError>)
    requires
        old(api).wf(),
        crate::alist::unique_keys(peers_connection_status@),
        forall|j: int|
            0 <= j < old(api).latest_contribution_by_peer@.len()
                ==> old(api).latest_contribution_by_peer@[j].1.time_ms <= now_ms,
        match old(api).db.spec_download_count(old(api).cfg.download_token@) {
            Some(c) => c < u64::MAX,
            None => true,
        },
        request matches ApiRequest::Config(_) ==> old(api).db.config_signature is Some,
        request matches ApiRequest::WaitTransaction(t) ==> old(api).db.spec_accepted(t.digest@)
            is Some,
        match old(api).consensus_status_cache.spec_entry() {
            Some(e) => e.1 <= now_ms,
            None => true,
        },
    ensures
        final(api).wf(),
        // Unauthenticated access to an auth-gated endpoint fails closed.
        spec_requires_auth(request) && !spec_has_auth(auth, old(api).cfg.api_auth@) ==> (
        spec_unchanged(*old(api), *final(api)) && (r matches Err(e) && e is Unauthorized)),
        // Read-only operations leave everything unchanged.
        (request matches ApiRequest::Version || request matches ApiRequest::FetchTransaction(_)
            || request matches ApiRequest::WaitTransaction(_)
            || request matches ApiRequest::FetchEpochHistory(_)
            || request matches ApiRequest::FetchEpochCount
            || request matches ApiRequest::ConnectionCode
            || request matches ApiRequest::ConfigHash
            || request matches ApiRequest::GetVerifyConfigHash
            || request matches ApiRequest::Recover(_)) ==> spec_unchanged(
            *old(api),
            *final(api),
        ),
        request matches ApiRequest::Version ==> (r matches Ok(p) && p
            == ApiResponse::Version(old(api).supported_api_versions)),
        // The transaction endpoint echoes the id of the submitted
        // transaction and admits exactly the decodable, acceptable (or
        // already committed) ones.
        request matches ApiRequest::Transaction(b) ==> (r matches Ok(p) ==> (p matches
            ApiResponse::Transaction(id) && exists|tx: crate::transaction::Transaction|
            {
                &&& b@ == #[trigger] spec_tx_wire(tx)
                &&& id.digest@ == spec_txid(tx)
                &&& (old(api).db.spec_accepted(spec_txid(tx)) is Some || spec_tx_acceptable(
                    old(api).modules,
                    tx,
                ))
            })),
        request matches ApiRequest::Transaction(b) ==> ((r is Ok <==> (spec_wire_parses(
            b@,
            old(api).modules,
        ) && (old(api).db.spec_accepted(spec_wire_txid(b@)) is Some || spec_wire_acceptable(
            b@,
            old(api).modules,
        )))) && (r matches Err(e) ==> e is BadRequest)),
        request matches ApiRequest::FetchTransaction(t) ==> (r matches Ok(p) && p matches
            ApiResponse::FetchTransaction(o) && (o is Some <==> old(api).db.spec_accepted(
            t.digest@,
        ) is Some) && (o matches Some(st) ==> st.outputs@.len() == old(api).db.spec_accepted(
            t.digest@,
        ).unwrap()@.len() && st.epoch == 0)),
        request matches ApiRequest::WaitTransaction(t) ==> (r matches Ok(p) && p matches
            ApiResponse::WaitTransaction(st) && st.outputs@.len() == old(api).db.spec_accepted(
            t.digest@,
        ).unwrap()@.len() && st.epoch == 0),
        request matches ApiRequest::FetchEpochHistory(e) ==> ((r is Ok <==> old(api).db.spec_epoch(e) is Some) && (r matches Ok(p) ==> p matches
            ApiResponse::FetchEpochHistory(v) && v@ == old(api).db.spec_epoch(e).unwrap()@) && (
        r matches Err(err) ==> err is NotFound)),
        request matches ApiRequest::FetchEpochCount ==> (r matches Ok(p) && p matches
            ApiResponse::FetchEpochCount(c) && c == old(api).db.spec_epoch_count()),
        request matches ApiRequest::ConnectionCode ==> (r matches Ok(p) && p matches
            ApiResponse::ConnectionCode(s) && s@ == old(api).cfg.connect_info@),
        request matches ApiRequest::ConfigHash ==> (r matches Ok(p) && p matches
            ApiResponse::ConfigHash(h) && h@ == sha256_of(old(api).cfg.consensus_config@)),
        (request matches ApiRequest::Config(info) && info.download_token@ != old(api).cfg.download_token@) ==> (r matches Err(e) && e is BadRequest),
        request matches ApiRequest::Config(info) ==> (r matches Ok(p) ==> (p matches
            ApiResponse::Config { client_config, signature } && client_config.bytes@ == old(api).client_cfg.bytes@ && signature@ == old(api).db.config_signature.unwrap()@)),
        request matches ApiRequest::Config(info) ==> ((r is Ok <==> (info.download_token@ == old(api).cfg.download_token@ && match old(api).cfg.download_token_limit {
            Some(limit) => (match old(api).db.spec_download_count(old(api).cfg.download_token@) {
                Some(cnt) => cnt + 1,
                None => 1,
            }) <= limit,
            None => true,
        })) && (r matches Err(e) ==> e is BadRequest)),
        (request matches ApiRequest::Upgrade && spec_has_auth(auth, old(api).cfg.api_auth@))
            ==> (r matches Ok(p) && p is Upgrade && final(api).pending_events@ == old(api).pending_events@.push(ApiEvent::UpgradeSignal)),
        request matches ApiRequest::ProcessOutcome(b) ==> (spec_has_auth(
            auth,
            old(api).cfg.api_auth@,
        ) ==> (r is Ok <==> b@.len() >= 8)),
        request matches ApiRequest::Status ==> (r matches Ok(p) && (p matches
            ApiResponse::Status(st) && st.server == ServerStatus::ConsensusRunning && (
        st.consensus matches Some(c) && (old(api).consensus_status_cache.fresh_at(now_ms)
            ==> spec_same_status(c, old(api).consensus_status_cache.cached_value()) && final(api).consensus_status_cache == old(api).consensus_status_cache) && (!old(api).consensus_status_cache.fresh_at(now_ms) ==> (final(api).consensus_status_cache.spec_entry() matches Some(entry) && entry.1 == now_ms
            && crate::consensus_api::spec_valid_status_report(
            *old(api),
            peers_connection_status@,
            now_ms,
            entry.0,
        ) && spec_same_status(c, entry.0) && final(api).consensus_status_cache.spec_duration()
            == old(api).consensus_status_cache.spec_duration()))))),
        request matches ApiRequest::Status ==> (final(api).cfg == old(api).cfg && final(api).db
            == old(api).db && final(api).modules == old(api).modules && final(api).client_cfg
            == old(api).client_cfg && final(api).pending_events == old(api).pending_events
            && final(api).latest_contribution_by_peer == old(api).latest_contribution_by_peer
            && final(api).supported_api_versions == old(api).supported_api_versions),
        (request matches ApiRequest::GetVerifyConfigHash && spec_has_auth(
            auth,
            old(api).cfg.api_auth@,
        )) ==> (r matches Ok(p) && p matches ApiResponse::GetVerifyConfigHash(v) && v@.len()
            == old(api).cfg.verification_hashes@.len()),
        request matches ApiRequest::Backup(req) ==> ((r is Ok <==> spec_backup_ok(
            *old(api),
            req,
        )) && (r is Ok ==> (final(api).db.spec_backup(req.id@) matches Some(s) && s.timestamp
            == req.timestamp && s.data@ == req.payload@))),
        request matches ApiRequest::Recover(id) ==> (r matches Ok(p) && p matches
            ApiResponse::Recover(o) && (o is Some <==> old(api).db.spec_backup(id@) is Some)),
{
    let has_auth = match &auth {
        Some(a) => *a == api.cfg.api_auth,
        None => false,
    };
    match request {
        ApiRequest::Version => Ok(ApiResponse::Version(*api.api_versions_summary())),
        ApiRequest::Transaction(b) => {
            let tx = match decode_transaction(&b, &api.modules) {
                Ok(tx) => tx,
                Err(e) => {
                    return Err(e);
                },
            };
            let tx_id = tx.tx_hash();
            let ghost txg = tx;
            proof {
                assert(spec_tx_content(txg) == spec_content_of(
                    spec_wire_inputs(b@),
                    spec_wire_outputs(b@),
                ));
                assert(spec_txid(txg) == spec_wire_txid(b@));
                lemma_sigs_valid_views(
                    spec_txid(txg),
                    txg.signatures@,
                    spec_flat_keys(api.modules, txg.inputs@),
                );
                assert(spec_tx_acceptable(api.modules, txg) <==> spec_wire_acceptable(
                    b@,
                    api.modules,
                ));
            }
            match api.submit_transaction(tx) {
                Ok(_) => {
                    proof {
                        assert(b@ == spec_tx_wire(txg) && tx_id.digest@ == spec_txid(txg));
                    }
                    Ok(ApiResponse::Transaction(tx_id))
                },
                Err(e) => Err(e),
            }
        },
        ApiRequest::FetchTransaction(t) => Ok(
            ApiResponse::FetchTransaction(api.transaction_status(&t)),
        ),
        ApiRequest::WaitTransaction(t) => Ok(
            ApiResponse::WaitTransaction(api.wait_transaction_status(&t)),
        ),
        ApiRequest::FetchEpochHistory(e) => match api.epoch_history(e) {
            Some(v) => Ok(ApiResponse::FetchEpochHistory(v)),
            None => Err(ApiError::not_found("epoch not found".to_owned())),
        },
        ApiRequest::FetchEpochCount => Ok(ApiResponse::FetchEpochCount(api.get_epoch_count())),
        ApiRequest::ConnectionCode => Ok(
            ApiResponse::ConnectionCode(api.cfg.connect_info.clone()),
        ),
        ApiRequest::Config(info) => {
            let signature = match &api.db.config_signature {
                Some(s) => s.clone(),
                None => {
                    proof {
                        assert(false);
                    }
                    Vec::new()
                },
            };
            match api.download_client_config(&info) {
                Ok(client_config) => {
                    proof {
                        assert(info.download_token@ == old(api).cfg.download_token@);
                    }
                    Ok(ApiResponse::Config { client_config, signature })
                },
                Err(e) => {
                    proof {
                        if info.download_token@ != old(api).cfg.download_token@ {
                            assert(e is BadRequest);
                        }
                    }
                    Err(e)
                },
            }
        },
        ApiRequest::ConfigHash => Ok(
            ApiResponse::ConfigHash(sha256(&api.cfg.consensus_config)),
        ),
        ApiRequest::Upgrade => {
            if has_auth {
                match api.signal_upgrade() {
                    Ok(_) => Ok(ApiResponse::Upgrade),
                    Err(e) => Err(e),
                }
            } else {
                Err(ApiError::unauthorized())
            }
        },
        ApiRequest::ProcessOutcome(b) => {
            if has_auth {
                match api.force_process_outcome(&b) {
                    Ok(_) => Ok(ApiResponse::ProcessOutcome),
                    Err(e) => Err(e),
                }
            } else {
                Err(ApiError::unauthorized())
            }
        },
        ApiRequest::Status => {
            let consensus_status = match api.consensus_status_cache.get_if_fresh(now_ms) {
                Some(cached) => clone_status(cached),
                None => {
                    let fresh = api.get_consensus_status(peers_connection_status, now_ms);
                    let copy = clone_status(&fresh);
                    api.consensus_status_cache.refresh(fresh, now_ms);
                    copy
                },
            };
            Ok(
                ApiResponse::Status(
                    StatusResponse {
                        server: ServerStatus::ConsensusRunning,
                        consensus: Some(consensus_status),
                    },
                ),
            )
        },
        ApiRequest::GetVerifyConfigHash => {
            if has_auth {
                Ok(ApiResponse::GetVerifyConfigHash(clone_hashes(&api.cfg.verification_hashes)))
            } else {
                Err(ApiError::unauthorized())
            }
        },
        ApiRequest::Backup(req) => {
            match api.handle_backup_request(&req) {
                Ok(_) => Ok(ApiResponse::Backup),
                Err(e) => Err(e),
            }
        },
        ApiRequest::Recover(id) => Ok(ApiResponse::Recover(api.handle_recover_request(&id))),
    }
}

/// The condition under which a backup request is stored: valid
/// signature and strictly increasing timestamp.
pub open spec fn spec_backup_ok(api: ConsensusApi, req: SignedBackupRequest) -> bool {
    crate::consensus_api::spec_backup_request_valid(req) && match api.db.spec_backup(req.id@) {
        Some(prev) => req.timestamp > prev.timestamp,
        None => true,
    }
}

/// Copies a consensus health report.
fn clone_status(s: &ConsensusStatus) -> (r: ConsensusStatus)
    ensures
        r.last_contribution == s.last_contribution,
        r.peers_online == s.peers_online,
        r.peers_offline == s.peers_offline,
        r.peers_flagged == s.peers_flagged,
        r.status_by_peer@ == s.status_by_peer@,
{
    let mut status_by_peer: Vec<(u64, crate::status::PeerConsensusStatus)> = Vec::new();
    let mut i: usize = 0;
    while i < s.status_by_peer.len()
        invariant
            i <= s.status_by_peer@.len(),
            status_by_peer@ == s.status_by_peer@.take(i as int),
        decreases s.status_by_peer@.len() - i,
    {
        status_by_peer.push(s.status_by_peer[i]);
        proof {
            assert(status_by_peer@ =~= s.status_by_peer@.take(i + 1));
        }
        i += 1;
    }
    proof {
        assert(s.status_by_peer@.take(s.status_by_peer@.len() as int) =~= s.status_by_peer@);
    }
    ConsensusStatus {
        last_contribution: s.last_contribution,
        peers_online: s.peers_online,
        peers_offline: s.peers_offline,
        peers_flagged: s.peers_flagged,
        status_by_peer,
    }
}

} // verus!
