//! The consensus API: the request-plane surface a federation node
//! exposes to clients. It validates and admits transactions, serves
//! transaction status and epoch history, rate-limits config downloads,
//! stores timestamp-monotonic client backups, and reports consensus
//! health.
//!
//! Admitted events are queued on `pending_events`, the model of the
//! bounded admission channel whose consumer is the out-of-scope
//! consensus collaborator; the surrounding service drains it.

use vstd::prelude::*;

use crate::alist::{alist_position, unique_keys};
use crate::balist::{balist_position, lemma_balist_push};
use crate::bytes::views_of;
use crate::cache::ExpiringCache;
use crate::crypto::{schnorr_valid, schnorr_verify, sha256, sha256_of};
use crate::db::{lemma_salist_push, lemma_salist_update, ClientBackupSnapshot, Database};
use crate::errors::ApiError;
use crate::modules::ModuleRegistry;
use crate::status::{
    calculate_consensus_status, ConsensusContribution, ConsensusStatus, PeerConnState,
};
use crate::transaction::{spec_sigs_valid, spec_txid, Transaction, TransactionId};
use vstd::pervasive::VecAdditionalExecFns;

verus! {

/// The node's configuration, reduced to what the API reads.
#[derive(Debug, PartialEq, Eq)]
pub struct ServerConfig {
    /// Token a client must present to download the client config.
    pub download_token: String,
    /// Maximum number of config downloads per token, if limited.
    pub download_token_limit: Option<u64>,
    /// Token that authenticates privileged requests.
    pub api_auth: String,
    /// Stringified connection code handed to clients.
    pub connect_info: String,
    /// Canonical encoding of the consensus portion of the config; its
    /// SHA-256 digest is the config hash.
    pub consensus_config: Vec<u8>,
    /// Per-peer config verification hashes.
    pub verification_hashes: Vec<(u64, Vec<u8>)>,
}

/// The cached client configuration served to clients.
#[derive(Debug, PartialEq, Eq)]
pub struct ClientConfig {
    /// Canonical encoding of the client config.
    pub bytes: Vec<u8>,
}

impl Clone for ClientConfig {
    /// Copies the config bytes.
    fn clone(&self) -> (r: Self)
        ensures
            r.bytes@ == self.bytes@,
    {
        ClientConfig { bytes: self.bytes.clone() }
    }
}

/// Compile-time supported API versions.
#[derive(Debug, Clone, Copy, PartialEq, Eq, Structural)]
pub struct SupportedApiVersionsSummary {
    /// Supported core consensus version.
    pub core_consensus: u64,
    /// Supported API version.
    pub api: u64,
}

/// A decoded epoch outcome, as carried by a force-process request.
#[derive(Debug, PartialEq, Eq)]
pub struct EpochOutcome {
    /// The epoch this outcome belongs to.
    pub epoch: u64,
    /// The opaque outcome body.
    pub payload: Vec<u8>,
}

/// Messages sent to the consensus collaborator over the admission
/// channel.
#[derive(Debug, PartialEq, Eq)]
pub enum ApiEvent {
    /// An admitted transaction.
    Transaction(Transaction),
    /// An upgrade signal from the privileged upgrade endpoint.
    UpgradeSignal,
    /// An outcome to force-process.
    ForceProcessOutcome(EpochOutcome),
}

/// Connection info a client presents to download the config.
#[derive(Debug, Clone, PartialEq, Eq)]
pub struct WsClientConnectInfo {
    /// The download token the client presents.
    pub download_token: String,
}

/// A signed client backup request: the backup id (a 32-byte x-only
/// public key), the client's timestamp, the encrypted payload, and a
/// schnorr signature by the id key over the timestamped payload.
#[derive(Debug, PartialEq, Eq)]
pub struct SignedBackupRequest {
    /// Backup id: the client's 32-byte x-only public key.
    pub id: Vec<u8>,
    /// Client-chosen timestamp.
    pub timestamp: u64,
    /// Encrypted backup payload.
    pub payload: Vec<u8>,
    /// 64-byte schnorr signature over the signed content.
    pub signature: Vec<u8>,
}

/// The bytes a backup request's signature covers: the timestamp in
/// little-endian followed by the payload.
pub open spec fn spec_backup_signed_content(timestamp: u64, payload: Seq<u8>) -> Seq<u8> {
    crate::bytes::spec_u64_le(timestamp) + payload
}

/// Whether a backup request's signature is valid for its id key.
pub open spec fn spec_backup_request_valid(r: SignedBackupRequest) -> bool {
    schnorr_valid(
        sha256_of(spec_backup_signed_content(r.timestamp, r.payload@)),
        r.signature@,
        r.id@,
    )
}

impl SignedBackupRequest {
    /// Verifies the request's signature against its id key.
    pub fn verify_valid(&self) -> (r: bool)
        ensures
            r == spec_backup_request_valid(*self),
    {
        let mut content: Vec<u8> = Vec::new();
        crate::bytes::push_u64_le(&mut content, self.timestamp);
        let mut i: usize = 0;
        while i < self.payload.len()
            invariant
                i <= self.payload@.len(),
                content@ == crate::bytes::spec_u64_le(self.timestamp) + self.payload@.take(
                    i as int,
                ),
            decreases self.payload@.len() - i,
        {
            content.push(self.payload[i]);
            proof {
                assert(content@ =~= crate::bytes::spec_u64_le(self.timestamp)
                    + self.payload@.take(i + 1));
            }
            i += 1;
        }
        proof {
            assert(self.payload@.take(self.payload@.len() as int) =~= self.payload@);
        }
        let msg = sha256(&content);
        schnorr_verify(&msg, &self.signature, &self.id)
    }
}

/// The status served for a committed transaction: the placeholder epoch
/// and one outcome code per output, in output order.
#[derive(Debug, PartialEq, Eq)]
pub struct TransactionStatus {
    /// Always zero: historical epoch attribution is deferred to the
    /// epoch-history endpoint.
    pub epoch: u64,
    /// One outcome code per output.
    pub outputs: Vec<u64>,
}

/// Whether every input of `s` is valid under `reg`.
pub open spec fn spec_inputs_valid(reg: ModuleRegistry, s: Seq<crate::transaction::TxInput>) -> bool {
    forall|i: int|
        0 <= i < s.len() ==> reg.spec_input_meta(
            (#[trigger] s[i]).module_instance_id,
            s[i].payload,
        ) is Some
}

/// The amount a valid input funds.
pub open spec fn spec_input_amount(reg: ModuleRegistry, x: crate::transaction::TxInput) -> int {
    reg.spec_input_meta(x.module_instance_id, x.payload).unwrap().amount as int
}

/// Total amount funded by the inputs of `s`.
pub open spec fn spec_input_sum(reg: ModuleRegistry, s: Seq<crate::transaction::TxInput>) -> int
    decreases s.len(),
{
    if s.len() == 0 {
        0
    } else {
        spec_input_sum(reg, s.drop_last()) + spec_input_amount(reg, s.last())
    }
}

/// The public keys a valid input demands signatures from.
pub open spec fn spec_input_keys(reg: ModuleRegistry, x: crate::transaction::TxInput) -> Seq<
    Seq<u8>,
> {
    views_of(reg.spec_input_meta(x.module_instance_id, x.payload).unwrap().pub_keys@)
}

/// The flattened public-key list over the inputs of `s`, in input
/// order.
pub open spec fn spec_flat_keys(reg: ModuleRegistry, s: Seq<crate::transaction::TxInput>) -> Seq<
    Seq<u8>,
>
    decreases s.len(),
{
    if s.len() == 0 {
        Seq::empty()
    } else {
        spec_flat_keys(reg, s.drop_last()) + spec_input_keys(reg, s.last())
    }
}

/// Whether every output of `s` is valid under `reg`.
pub open spec fn spec_outputs_valid(
    reg: ModuleRegistry,
    s: Seq<crate::transaction::TxOutput>,
) -> bool {
    forall|i: int|
        0 <= i < s.len() ==> reg.spec_output_amount(
            (#[trigger] s[i]).module_instance_id,
            s[i].payload,
        ) is Some
}

/// The amount a valid output claims.
pub open spec fn spec_output_amount_of(
    reg: ModuleRegistry,
    x: crate::transaction::TxOutput,
) -> int {
    reg.spec_output_amount(x.module_instance_id, x.payload).unwrap() as int
}

/// Total amount claimed by the outputs of `s`.
pub open spec fn spec_output_sum(reg: ModuleRegistry, s: Seq<crate::transaction::TxOutput>) -> int
    decreases s.len(),
{
    if s.len() == 0 {
        0
    } else {
        spec_output_sum(reg, s.drop_last()) + spec_output_amount_of(reg, s.last())
    }
}

/// The funding invariant together with validity of every input and
/// output: the admitted amounts cover the claimed amounts.
pub open spec fn spec_tx_funding_ok(reg: ModuleRegistry, tx: Transaction) -> bool {
    &&& spec_inputs_valid(reg, tx.inputs@)
    &&& spec_outputs_valid(reg, tx.outputs@)
    &&& spec_input_sum(reg, tx.inputs@) >= spec_output_sum(reg, tx.outputs@)
}

/// The admission condition read off a parseable wire form: its input
/// and output records are valid, its signatures verify over its id for
/// the flattened input keys, and its inputs fund its outputs.
pub open spec fn spec_wire_acceptable(b: Seq<u8>, reg: ModuleRegistry) -> bool {
    let inputs = crate::transaction::spec_wire_inputs(b);
    let outputs = crate::transaction::spec_wire_outputs(b);
    &&& spec_inputs_valid(reg, inputs)
    &&& spec_outputs_valid(reg, outputs)
    &&& crate::transaction::spec_sig_seq_valid(
        crate::transaction::spec_wire_txid(b),
        crate::transaction::spec_wire_sigs(b),
        spec_flat_keys(reg, inputs),
    )
    &&& spec_input_sum(reg, inputs) >= spec_output_sum(reg, outputs)
}

/// The full admission condition: all inputs and outputs valid, one
/// valid signature per flattened input key over the transaction id, and
/// inputs fund at least the outputs.
pub open spec fn spec_tx_acceptable(reg: ModuleRegistry, tx: Transaction) -> bool {
    &&& spec_inputs_valid(reg, tx.inputs@)
    &&& spec_outputs_valid(reg, tx.outputs@)
    &&& spec_sigs_valid(spec_txid(tx), tx.signatures@, spec_flat_keys(reg, tx.inputs@))
    &&& spec_input_sum(reg, tx.inputs@) >= spec_output_sum(reg, tx.outputs@)
}

/// An input sum never exceeds one maximal amount per input.
proof fn lemma_input_sum_bound(reg: ModuleRegistry, s: Seq<crate::transaction::TxInput>)
    ensures
        0 <= spec_input_sum(reg, s) <= s.len() * 0xffff_ffff_ffff_ffff,
    decreases s.len(),
{
    if s.len() > 0 {
        lemma_input_sum_bound(reg, s.drop_last());
    }
}

/// An output sum never exceeds one maximal amount per output.
proof fn lemma_output_sum_bound(reg: ModuleRegistry, s: Seq<crate::transaction::TxOutput>)
    ensures
        0 <= spec_output_sum(reg, s) <= s.len() * 0xffff_ffff_ffff_ffff,
    decreases s.len(),
{
    if s.len() > 0 {
        lemma_output_sum_bound(reg, s.drop_last());
    }
}

/// What the status calculator promises of a report computed from the
/// state `api` and the connection snapshot at `now_ms`: this node's
/// epoch count, one entry per known peer following the per-peer rule
/// under the standard grace window, and exact aggregate counters.
pub open spec fn spec_valid_status_report(
    api: ConsensusApi,
    peers_connection_status: Seq<(u64, PeerConnState)>,
    now_ms: u64,
    r: ConsensusStatus,
) -> bool {
    &&& r.last_contribution == api.db.spec_epoch_count()
    &&& r.peers_online + r.peers_offline == r.status_by_peer@.len()
    &&& forall|i: int|
        0 <= i < r.status_by_peer@.len() ==> #[trigger] r.status_by_peer@[i].1
            == crate::status::spec_peer_status(
            crate::alist::alist_find(api.latest_contribution_by_peer@, r.status_by_peer@[i].0),
            crate::alist::alist_find(peers_connection_status, r.status_by_peer@[i].0),
            api.db.spec_epoch_count() as u64,
            MAX_DURATION_FOR_RECENT_CONTRIBUTION_MS,
            now_ms,
        )
    &&& forall|p: u64|
        crate::alist::alist_has(r.status_by_peer@, p) <==> (crate::alist::alist_has(
            api.latest_contribution_by_peer@,
            p,
        ) || crate::alist::alist_has(peers_connection_status, p))
    &&& r.peers_online == crate::status::count_online(r.status_by_peer@)
    &&& r.peers_offline == crate::status::count_offline(r.status_by_peer@)
    &&& r.peers_flagged == crate::status::count_flagged(r.status_by_peer@)
}

/// How long a contribution counts as recent for the status report: a
/// grace window, so that a peer that contributed recently is not
/// flagged for a momentary disconnect.
pub const MAX_DURATION_FOR_RECENT_CONTRIBUTION_MS: u64 = 60_000;

/// The consensus API state. Mutation is confined to the database and
/// the admission queue; configuration, registry and client config are
/// fixed after construction.
pub struct ConsensusApi {
    /// Our server configuration.
    pub cfg: ServerConfig,
    /// Database for serving the API.
    pub db: Database,
    /// Modules registered with the federation.
    pub modules: ModuleRegistry,
    /// Cached client config.
    pub client_cfg: ClientConfig,
    /// Admission queue: the sender side of the channel to consensus.
    pub pending_events: Vec<ApiEvent>,
    /// Latest contribution observed per peer.
    pub latest_contribution_by_peer: Vec<(u64, ConsensusContribution)>,
    /// Single-flight cache for the status endpoint.
    pub consensus_status_cache: ExpiringCache<ConsensusStatus>,
    /// Compile-time supported versions.
    pub supported_api_versions: SupportedApiVersionsSummary,
}

impl ConsensusApi {
    /// Every queued transaction satisfies the funding invariant.
    pub open spec fn events_wf(&self) -> bool {
        forall|i: int|
            0 <= i < self.pending_events@.len() ==> match #[trigger] self.pending_events@[i] {
                ApiEvent::Transaction(tx) => spec_tx_funding_ok(self.modules, tx),
                _ => true,
            }
    }

    /// Every committed transaction's outputs have queryable outcomes in
    /// their modules.
    pub open spec fn outcomes_covered(&self) -> bool {
        forall|t: int, k: int|
            0 <= t < self.db.accepted@.len() && 0 <= k < self.db.accepted@[t].1@.len()
                ==> #[trigger] self.modules.spec_output_status(
                self.db.accepted@[t].1@[k],
                self.db.accepted@[t].0@,
                k as u64,
            ) is Some
    }

    /// Well-formedness: registry and database invariants, unique peer
    /// contributions, funding of queued transactions, and outcome
    /// coverage of committed transactions.
    pub open spec fn wf(&self) -> bool {
        &&& self.modules.wf()
        &&& self.db.wf()
        &&& unique_keys(self.latest_contribution_by_peer@)
        &&& self.events_wf()
        &&& self.outcomes_covered()
    }

    /// The supported versions summary.
    pub fn api_versions_summary(&self) -> (r: &SupportedApiVersionsSummary)
        ensures
            *r == self.supported_api_versions,
    {
        &self.supported_api_versions
    }

    /// Serves the status of a committed transaction: the placeholder
    /// epoch and one outcome per output, in output order. Returns
    /// nothing for unknown ids.
    pub fn transaction_status(&self, txid: &TransactionId) -> (r: Option<TransactionStatus>)
        requires
            self.wf(),
        ensures
            r is Some <==> self.db.spec_accepted(txid.digest@) is Some,
            r matches Some(st) ==> {
                &&& st.epoch == 0
                &&& st.outputs@.len() == self.db.spec_accepted(txid.digest@).unwrap()@.len()
                &&& forall|k: int|
                    0 <= k < st.outputs@.len() ==> st.outputs@[k] == self.modules.spec_output_status(
                        self.db.spec_accepted(txid.digest@).unwrap()@[k],
                        txid.digest@,
                        k as u64,
                    ).unwrap()
            },
    {
        match balist_position(&self.db.accepted, &txid.digest) {
            None => None,
            Some(i) => Some(self.accepted_transaction_status(txid, i)),
        }
    }

    /// Serves the status of a transaction the caller has already waited
    /// for: the blocking key-presence wait has completed, so the record
    /// exists.
    pub fn wait_transaction_status(&self, txid: &TransactionId) -> (st: TransactionStatus)
        requires
            self.wf(),
            self.db.spec_accepted(txid.digest@) is Some,
        ensures
            st.epoch == 0,
            st.outputs@.len() == self.db.spec_accepted(txid.digest@).unwrap()@.len(),
            forall|k: int|
                0 <= k < st.outputs@.len() ==> st.outputs@[k] == self.modules.spec_output_status(
                    self.db.spec_accepted(txid.digest@).unwrap()@[k],
                    txid.digest@,
                    k as u64,
                ).unwrap(),
    {
        let i = match balist_position(&self.db.accepted, &txid.digest) {
            Some(i) => i,
            None => {
                proof {
                    assert(false);
                }
                0
            },
        };
        self.accepted_transaction_status(txid, i)
    }

    /// Composes the status of the committed transaction at index `i` of
    /// the accepted store: an accepted transaction always has queryable
    /// outputs.
    #[verifier::loop_isolation(false)]
    fn accepted_transaction_status(&self, txid: &TransactionId, i: usize) -> (st:
        TransactionStatus)
        requires
            self.wf(),
            i < self.db.accepted@.len(),
            self.db.accepted@[i as int].0@ == txid.digest@,
            self.db.spec_accepted(txid.digest@) == Some(self.db.accepted@[i as int].1),
        ensures
            st.epoch == 0,
            st.outputs@.len() == self.db.accepted@[i as int].1@.len(),
            forall|k: int|
                0 <= k < st.outputs@.len() ==> st.outputs@[k] == self.modules.spec_output_status(
                    self.db.accepted@[i as int].1@[k],
                    txid.digest@,
                    k as u64,
                ).unwrap(),
    {
        let ids = &self.db.accepted[i].1;
        let mut outputs: Vec<u64> = Vec::new();
        let mut k: usize = 0;
        while k < ids.len()
            invariant
                k <= ids@.len(),
                outputs@.len() == k,
                forall|x: int|
                    0 <= x < k ==> outputs@[x] == self.modules.spec_output_status(
                        ids@[x],
                        txid.digest@,
                        x as u64,
                    ).unwrap(),
            decreases ids@.len() - k,
        {
            match self.modules.output_status(ids[k], &txid.digest, k as u64) {
                Some(o) => outputs.push(o),
                None => {
                    proof {
                        assert(false);
                    }
                    outputs.push(0);
                },
            }
            k += 1;
        }
        TransactionStatus { epoch: 0, outputs }
    }

    /// Validates a transaction against a read-only view of the state
    /// and, when every input and output validates, the signatures
    /// verify and inputs fund the outputs, queues it for consensus.
    /// Idempotent for already-committed transactions. The database is
    /// never written on the admission path.
    #[verifier::loop_isolation(false)]
    #[verifier::rlimit(100)]
    pub fn submit_transaction(&mut self, transaction: Transaction) -> (r: Result<(), ApiError>)
        requires
            old(self).wf(),
        ensures
            final(self).wf(),
            final(self).cfg == old(self).cfg,
            final(self).db == old(self).db,
            final(self).modules == old(self).modules,
            final(self).client_cfg == old(self).client_cfg,
            final(self).latest_contribution_by_peer == old(self).latest_contribution_by_peer,
            final(self).consensus_status_cache == old(self).consensus_status_cache,
            final(self).supported_api_versions == old(self).supported_api_versions,
            r is Ok <==> (old(self).db.spec_accepted(spec_txid(transaction)) is Some
                || spec_tx_acceptable(old(self).modules, transaction)),
            old(self).db.spec_accepted(spec_txid(transaction)) is Some ==> final(self).pending_events == old(self).pending_events,
            (old(self).db.spec_accepted(spec_txid(transaction)) is None && spec_tx_acceptable(
                old(self).modules,
                transaction,
            )) ==> final(self).pending_events@ == old(self).pending_events@.push(
                ApiEvent::Transaction(transaction),
            ),
            r is Err ==> final(self).pending_events == old(self).pending_events,
            r matches Err(e) ==> e is BadRequest,
    {
        let txid = transaction.tx_hash();
        if balist_position(&self.db.accepted, &txid.digest).is_some() {
            return Ok(());
        }

        let mut pub_keys: Vec<Vec<u8>> = Vec::new();
        let mut input_sum: u128 = 0;
        let mut i: usize = 0;
        while i < transaction.inputs.len()
            invariant
                i <= transaction.inputs@.len(),
                spec_inputs_valid(self.modules, transaction.inputs@.take(i as int)),
                input_sum as int == spec_input_sum(
                    self.modules,
                    transaction.inputs@.take(i as int),
                ),
                input_sum as int <= i * 0xffff_ffff_ffff_ffff,
                views_of(pub_keys@) == spec_flat_keys(
                    self.modules,
                    transaction.inputs@.take(i as int),
                ),
            decreases transaction.inputs@.len() - i,
        {
            let input = transaction.inputs[i];
            match self.modules.validate_input(input.module_instance_id, input.payload) {
                Some((mi, vi)) => {
                    let meta = &self.modules.modules[mi].1.input_verdicts[vi].1;
                    input_sum = input_sum + meta.amount as u128;
                    let mut kk: usize = 0;
                    while kk < meta.pub_keys.len()
                        invariant
                            kk <= meta.pub_keys@.len(),
                            views_of(pub_keys@) == spec_flat_keys(
                                self.modules,
                                transaction.inputs@.take(i as int),
                            ) + views_of(meta.pub_keys@.take(kk as int)),
                        decreases meta.pub_keys@.len() - kk,
                    {
                        let key = meta.pub_keys[kk].clone();
                        proof {
                            assert(key@ =~= meta.pub_keys@[kk as int]@);
                        }
                        let ghost pk_old = pub_keys@;
                        pub_keys.push(key);
                        proof {
                            let lhs = views_of(pub_keys@);
                            let rhs = spec_flat_keys(
                                self.modules,
                                transaction.inputs@.take(i as int),
                            ) + views_of(meta.pub_keys@.take(kk + 1));
                            assert(lhs.len() == rhs.len());
                            assert forall|x: int| 0 <= x < lhs.len() implies lhs[x] == rhs[x] by {
                                if x < pk_old.len() {
                                    assert(lhs[x] == pk_old[x]@);
                                    assert(views_of(pk_old)[x] == pk_old[x]@);
                                } else {
                                    assert(lhs[x] == key@);
                                    assert(rhs[x] == views_of(meta.pub_keys@.take(kk + 1))[
                                        kk as int]);
                                    assert(views_of(meta.pub_keys@.take(kk + 1))[kk as int]
                                        == meta.pub_keys@.take(kk + 1)[kk as int]@);
                                }
                            }
                            assert(lhs =~= rhs);
                        }
                        kk += 1;
                    }
                    proof {
                        assert(meta.pub_keys@.take(meta.pub_keys@.len() as int)
                            =~= meta.pub_keys@);
                        assert(transaction.inputs@.take(i + 1).drop_last()
                            =~= transaction.inputs@.take(i as int));
                        assert(transaction.inputs@.take(i + 1).last()
                            == transaction.inputs@[i as int]);
                        assert(spec_input_keys(self.modules, transaction.inputs@[i as int])
                            =~~= views_of(meta.pub_keys@));
                        assert(views_of(pub_keys@) =~~= spec_flat_keys(
                            self.modules,
                            transaction.inputs@.take(i + 1),
                        ));
                        assert forall|x: int|
                            0 <= x < i + 1 implies self.modules.spec_input_meta(
                            (#[trigger] transaction.inputs@.take(i + 1)[x]).module_instance_id,
                            transaction.inputs@.take(i + 1)[x].payload,
                        ) is Some by {
                            assert(transaction.inputs@.take(i + 1)[x] == transaction.inputs@[x]);
                            if x < i {
                                assert(transaction.inputs@.take(i as int)[x]
                                    == transaction.inputs@[x]);
                                assert(spec_inputs_valid(
                                    self.modules,
                                    transaction.inputs@.take(i as int),
                                ));
                            }
                        }
                        lemma_input_sum_bound(self.modules, transaction.inputs@.take(i + 1));
                    }
                },
                None => {
                    proof {
                        assert(transaction.inputs@[i as int] == transaction.inputs@.take(
                            transaction.inputs@.len() as int,
                        )[i as int]);
                        assert(transaction.inputs@.take(transaction.inputs@.len() as int)
                            =~= transaction.inputs@);
                    }
                    return Err(ApiError::bad_request("invalid input".to_owned()));
                },
            }
            i += 1;
        }
        proof {
            assert(transaction.inputs@.take(transaction.inputs@.len() as int)
                =~= transaction.inputs@);
        }

        if !transaction.validate_signature(&pub_keys) {
            return Err(ApiError::bad_request("invalid signature".to_owned()));
        }

        let mut output_sum: u128 = 0;
        let mut j: usize = 0;
        while j < transaction.outputs.len()
            invariant
                j <= transaction.outputs@.len(),
                spec_outputs_valid(self.modules, transaction.outputs@.take(j as int)),
                output_sum as int == spec_output_sum(
                    self.modules,
                    transaction.outputs@.take(j as int),
                ),
                output_sum as int <= j * 0xffff_ffff_ffff_ffff,
            decreases transaction.outputs@.len() - j,
        {
            let output = transaction.outputs[j];
            match self.modules.validate_output(output.module_instance_id, output.payload) {
                Some(amount) => {
                    output_sum = output_sum + amount as u128;
                    proof {
                        assert(transaction.outputs@.take(j + 1).drop_last()
                            =~= transaction.outputs@.take(j as int));
                        assert(transaction.outputs@.take(j + 1).last()
                            == transaction.outputs@[j as int]);
                        assert forall|x: int|
                            0 <= x < j + 1 implies self.modules.spec_output_amount(
                            (#[trigger] transaction.outputs@.take(j + 1)[x]).module_instance_id,
                            transaction.outputs@.take(j + 1)[x].payload,
                        ) is Some by {
                            assert(transaction.outputs@.take(j + 1)[x] == transaction.outputs@[x]);
                            if x < j {
                                assert(transaction.outputs@.take(j as int)[x]
                                    == transaction.outputs@[x]);
                                assert(spec_outputs_valid(
                                    self.modules,
                                    transaction.outputs@.take(j as int),
                                ));
                            }
                        }
                        lemma_output_sum_bound(self.modules, transaction.outputs@.take(j + 1));
                    }
                },
                None => {
                    proof {
                        assert(transaction.outputs@[j as int] == transaction.outputs@.take(
                            transaction.outputs@.len() as int,
                        )[j as int]);
                        assert(transaction.outputs@.take(transaction.outputs@.len() as int)
                            =~= transaction.outputs@);
                    }
                    return Err(ApiError::bad_request("invalid output".to_owned()));
                },
            }
            j += 1;
        }
        proof {
            assert(transaction.outputs@.take(transaction.outputs@.len() as int)
                =~= transaction.outputs@);
        }

        if input_sum < output_sum {
            return Err(ApiError::bad_request("transaction underfunded".to_owned()));
        }

        let ghost old_events = self.pending_events@;
        proof {
            assert(spec_tx_funding_ok(self.modules, transaction));
        }
        self.pending_events.push(ApiEvent::Transaction(transaction));
        proof {
            assert forall|x: int|
                0 <= x < self.pending_events@.len() implies match #[trigger] self
                .pending_events@[x] {
                ApiEvent::Transaction(tx) => spec_tx_funding_ok(self.modules, tx),
                _ => true,
            } by {
                if x < old_events.len() {
                    assert(self.pending_events@[x] == old_events[x]);
                }
            }
        }
        Ok(())
    }

    /// The signed outcome stored for `epoch`, if any.
    pub fn epoch_history(&self, epoch: u64) -> (r: Option<Vec<u8>>)
        ensures
            r is Some <==> self.db.spec_epoch(epoch) is Some,
            r matches Some(v) ==> v@ == self.db.spec_epoch(epoch).unwrap()@,
    {
        match alist_position(&self.db.epochs, epoch) {
            Some(i) => Some(self.db.epochs[i].1.clone()),
            None => None,
        }
    }

    /// The epoch count: the last committed epoch plus one, or zero if
    /// none was committed yet.
    pub fn get_epoch_count(&self) -> (r: u64)
        requires
            self.db.wf(),
        ensures
            r == self.db.spec_epoch_count(),
    {
        match self.db.last_epoch {
            Some(e) => e + 1,
            None => 0,
        }
    }

    /// Queues an upgrade signal for the consensus collaborator.
    pub fn signal_upgrade(&mut self) -> (r: Result<(), ApiError>)
        requires
            old(self).wf(),
        ensures
            final(self).wf(),
            r is Ok,
            final(self).pending_events@ == old(self).pending_events@.push(
                ApiEvent::UpgradeSignal,
            ),
            final(self).cfg == old(self).cfg,
            final(self).db == old(self).db,
            final(self).modules == old(self).modules,
            final(self).client_cfg == old(self).client_cfg,
            final(self).latest_contribution_by_peer == old(self).latest_contribution_by_peer,
            final(self).consensus_status_cache == old(self).consensus_status_cache,
            final(self).supported_api_versions == old(self).supported_api_versions,
    {
        let ghost old_events = self.pending_events@;
        self.pending_events.push(ApiEvent::UpgradeSignal);
        proof {
            assert forall|x: int|
                0 <= x < self.pending_events@.len() implies match #[trigger] self
                .pending_events@[x] {
                ApiEvent::Transaction(tx) => spec_tx_funding_ok(self.modules, tx),
                _ => true,
            } by {
                if x < old_events.len() {
                    assert(self.pending_events@[x] == old_events[x]);
                }
            }
        }
        Ok(())
    }

    /// Decodes a serialized epoch outcome and queues it for forced
    /// processing: the first eight bytes are the little-endian epoch,
    /// the rest is the opaque body; shorter inputs are rejected.
    pub fn force_process_outcome(&mut self, outcome: &Vec<u8>) -> (r: Result<(), ApiError>)
        requires
            old(self).wf(),
        ensures
            final(self).wf(),
            r is Ok <==> outcome@.len() >= 8,
            r is Ok ==> (final(self).pending_events@.len() == old(self).pending_events@.len()
                + 1 && (forall|x: int|
                0 <= x < old(self).pending_events@.len() ==> final(self).pending_events@[x]
                    == old(self).pending_events@[x]) && (final(self).pending_events@.last() matches ApiEvent::ForceProcessOutcome(o) && o.epoch
                == crate::bytes::spec_u64_from_le(outcome@.subrange(0, 8)) && o.payload@
                == outcome@.subrange(8, outcome@.len() as int))),
            r is Err ==> final(self).pending_events == old(self).pending_events && (
            r matches Err(e) && e is BadRequest && e.spec_message()
                == "Unable to decode outcome"@),
            final(self).cfg == old(self).cfg,
            final(self).db == old(self).db,
            final(self).modules == old(self).modules,
            final(self).client_cfg == old(self).client_cfg,
            final(self).latest_contribution_by_peer == old(self).latest_contribution_by_peer,
            final(self).consensus_status_cache == old(self).consensus_status_cache,
            final(self).supported_api_versions == old(self).supported_api_versions,
    {
        if outcome.len() < 8 {
            return Err(ApiError::bad_request("Unable to decode outcome".to_owned()));
        }
        let epoch = crate::bytes::read_u64_le(outcome, 0);
        let mut payload: Vec<u8> = Vec::new();
        let mut i: usize = 8;
        while i < outcome.len()
            invariant
                8 <= i <= outcome@.len(),
                payload@ == outcome@.subrange(8, i as int),
            decreases outcome@.len() - i,
        {
            payload.push(outcome[i]);
            proof {
                assert(payload@ =~= outcome@.subrange(8, i + 1));
            }
            i += 1;
        }
        let ghost old_events = self.pending_events@;
        self.pending_events.push(
            ApiEvent::ForceProcessOutcome(EpochOutcome { epoch, payload }),
        );
        proof {
            assert forall|x: int|
                0 <= x < self.pending_events@.len() implies match #[trigger] self
                .pending_events@[x] {
                ApiEvent::Transaction(tx) => spec_tx_funding_ok(self.modules, tx),
                _ => true,
            } by {
                if x < old_events.len() {
                    assert(self.pending_events@[x] == old_events[x]);
                }
            }
        }
        Ok(())
    }

    /// Computes the consensus health report from this node's epoch
    /// count, the recorded peer contributions, and the given per-peer
    /// connection states, under the standard grace window.
    pub fn get_consensus_status(
        &self,
        peers_connection_status: &Vec<(u64, PeerConnState)>,
        now_ms: u64,
    ) -> (r: ConsensusStatus)
        requires
            self.wf(),
            unique_keys(peers_connection_status@),
            forall|j: int|
                0 <= j < self.latest_contribution_by_peer@.len()
                    ==> self.latest_contribution_by_peer@[j].1.time_ms <= now_ms,
        ensures
            spec_valid_status_report(*self, peers_connection_status@, now_ms, r),
    {
        let our_last_contribution = self.get_epoch_count();
        calculate_consensus_status(
            &self.latest_contribution_by_peer,
            our_last_contribution,
            peers_connection_status,
            MAX_DURATION_FOR_RECENT_CONTRIBUTION_MS,
            now_ms,
        )
    }

    /// Checks the presented download token, counts the use, and serves
    /// the cached client config while the configured limit is not
    /// exceeded. The use count is persisted even for rejected requests
    /// at the limit edge.
    pub fn download_client_config(&mut self, info: &WsClientConnectInfo) -> (r: Result<
        ClientConfig,
        ApiError,
    >)
        requires
            old(self).wf(),
            info.download_token@ == old(self).cfg.download_token@ ==> match old(self).db.spec_download_count(old(self).cfg.download_token@) {
                Some(c) => c < u64::MAX,
                None => true,
            },
        ensures
            final(self).wf(),
            final(self).cfg == old(self).cfg,
            final(self).modules == old(self).modules,
            final(self).client_cfg == old(self).client_cfg,
            final(self).pending_events == old(self).pending_events,
            final(self).latest_contribution_by_peer == old(self).latest_contribution_by_peer,
            final(self).consensus_status_cache == old(self).consensus_status_cache,
            final(self).supported_api_versions == old(self).supported_api_versions,
            info.download_token@ != old(self).cfg.download_token@ ==> (final(self).db == old(self).db && (r matches Err(e) && e is BadRequest && e.spec_message()
                == "Download token not found"@)),
            info.download_token@ == old(self).cfg.download_token@ ==> {
                let used = match old(self).db.spec_download_count(old(self).cfg.download_token@) {
                    Some(c) => c + 1,
                    None => 1,
                };
                &&& final(self).db.spec_download_count(old(self).cfg.download_token@) == Some(
                    used as u64,
                )
                &&& forall|t: Seq<char>|
                    t != old(self).cfg.download_token@ ==> final(self).db.spec_download_count(t)
                        == old(self).db.spec_download_count(t)
                &&& final(self).db.accepted == old(self).db.accepted
                &&& final(self).db.epochs == old(self).db.epochs
                &&& final(self).db.last_epoch == old(self).db.last_epoch
                &&& final(self).db.backups == old(self).db.backups
                &&& final(self).db.config_signature == old(self).db.config_signature
                &&& match old(self).cfg.download_token_limit {
                    Some(limit) => {
                        &&& (used <= limit <==> r is Ok)
                        &&& (used > limit ==> (r matches Err(e) && e is BadRequest
                            && e.spec_message() == "Download token used too many times"@))
                    },
                    None => r is Ok,
                }
                &&& r matches Ok(c) ==> c.bytes@ == old(self).client_cfg.bytes@
            },
    {
        if info.download_token != self.cfg.download_token {
            return Err(ApiError::bad_request("Download token not found".to_owned()));
        }
        let times_used: u64;
        match crate::db::download_count_position(
            &self.db.download_counts,
            &self.cfg.download_token,
        ) {
            Some(i) => {
                let prev = self.db.download_counts[i].1;
                times_used = prev + 1;
                let ghost olds = self.db.download_counts@;
                let token = self.db.download_counts[i].0.clone();
                self.db.download_counts.set(i, (token, times_used));
                proof {
                    lemma_salist_update(
                        olds,
                        i as int,
                        (self.db.download_counts@[i as int].0, times_used),
                    );
                    assert(self.db.download_counts@ =~= olds.update(
                        i as int,
                        self.db.download_counts@[i as int],
                    ));
                }
            },
            None => {
                times_used = 1;
                let ghost olds = self.db.download_counts@;
                let token = self.cfg.download_token.clone();
                self.db.download_counts.push((token, times_used));
                proof {
                    lemma_salist_push(olds, self.db.download_counts@.last());
                    assert(self.db.download_counts@ =~= olds.push(
                        self.db.download_counts@.last(),
                    ));
                    assert forall|a: int, b: int|
                        0 <= a < b < self.db.download_counts@.len() implies self
                        .db.download_counts@[a].0@ != self.db.download_counts@[b].0@ by {
                        if b < olds.len() {
                        } else {
                            assert(self.db.download_counts@[b].0@ == self.cfg.download_token@);
                            if self.db.download_counts@[a].0@ == self.cfg.download_token@ {
                                crate::db::lemma_salist_find_at(
                                    olds,
                                    self.cfg.download_token@,
                                    a,
                                );
                            }
                        }
                    }
                }
            },
        }
        if let Some(limit) = self.cfg.download_token_limit {
            if times_used > limit {
                return Err(
                    ApiError::bad_request("Download token used too many times".to_owned()),
                );
            }
        }
        Ok(self.client_cfg.clone())
    }

    /// Stores a client backup: the signature must verify and the
    /// timestamp must strictly exceed the previously stored one, so the
    /// timestamps any reader observes for an id never decrease.
    pub fn handle_backup_request(&mut self, request: &SignedBackupRequest) -> (r: Result<
        (),
        ApiError,
    >)
        requires
            old(self).wf(),
        ensures
            final(self).wf(),
            final(self).cfg == old(self).cfg,
            final(self).modules == old(self).modules,
            final(self).client_cfg == old(self).client_cfg,
            final(self).pending_events == old(self).pending_events,
            final(self).latest_contribution_by_peer == old(self).latest_contribution_by_peer,
            final(self).consensus_status_cache == old(self).consensus_status_cache,
            final(self).supported_api_versions == old(self).supported_api_versions,
            final(self).db.accepted == old(self).db.accepted,
            final(self).db.epochs == old(self).db.epochs,
            final(self).db.last_epoch == old(self).db.last_epoch,
            final(self).db.download_counts == old(self).db.download_counts,
            final(self).db.config_signature == old(self).db.config_signature,
            r is Ok <==> spec_backup_request_valid(*request) && match old(self).db.spec_backup(
                request.id@,
            ) {
                Some(prev) => request.timestamp > prev.timestamp,
                None => true,
            },
            !spec_backup_request_valid(*request) ==> (final(self).db == old(self).db && (
            r matches Err(e) && e is BadRequest && e.spec_message() == "invalid request"@)),
            (spec_backup_request_valid(*request) && match old(self).db.spec_backup(request.id@) {
                Some(prev) => request.timestamp <= prev.timestamp,
                None => false,
            }) ==> (final(self).db == old(self).db && (r matches Err(e) && e is BadRequest
                && e.spec_message() == "timestamp too small"@)),
            r is Ok ==> (final(self).db.spec_backup(request.id@) matches Some(s) && s.timestamp
                == request.timestamp && s.data@ == request.payload@),
            r is Ok ==> forall|other: Seq<u8>|
                other != request.id@ ==> final(self).db.spec_backup(other) == old(self).db.spec_backup(other),
            match (old(self).db.spec_backup(request.id@), final(self).db.spec_backup(
                request.id@,
            )) {
                (Some(prev), Some(now)) => now.timestamp >= prev.timestamp,
                (Some(_), None) => false,
                _ => true,
            },
    {
        if !request.verify_valid() {
            return Err(ApiError::bad_request("invalid request".to_owned()));
        }
        match balist_position(&self.db.backups, &request.id) {
            Some(i) => {
                if request.timestamp <= self.db.backups[i].1.timestamp {
                    return Err(ApiError::bad_request("timestamp too small".to_owned()));
                }
                let ghost olds = self.db.backups@;
                let key = self.db.backups[i].0.clone();
                let snapshot = ClientBackupSnapshot {
                    timestamp: request.timestamp,
                    data: request.payload.clone(),
                };
                self.db.backups.set(i, (key, snapshot));
                proof {
                    crate::balist::lemma_balist_update(
                        olds,
                        i as int,
                        self.db.backups@[i as int],
                    );
                    assert(self.db.backups@ =~= olds.update(i as int, self.db.backups@[i as int]));
                }
            },
            None => {
                let ghost olds = self.db.backups@;
                let snapshot = ClientBackupSnapshot {
                    timestamp: request.timestamp,
                    data: request.payload.clone(),
                };
                self.db.backups.push((request.id.clone(), snapshot));
                proof {
                    lemma_balist_push(olds, self.db.backups@.last());
                    assert(self.db.backups@ =~= olds.push(self.db.backups@.last()));
                    assert forall|a: int, b: int|
                        0 <= a < b < self.db.backups@.len() implies self.db.backups@[a].0@ != self
                        .db.backups@[b].0@ by {
                        if b < olds.len() {
                        } else {
                            assert(self.db.backups@[b].0@ == request.id@);
                            if self.db.backups@[a].0@ == request.id@ {
                                crate::balist::lemma_balist_find_at(olds, request.id@, a);
                            }
                        }
                    }
                }
            },
        }
        Ok(())
    }

    /// Serves the stored backup for `id`, if any.
    pub fn handle_recover_request(&self, id: &Vec<u8>) -> (r: Option<ClientBackupSnapshot>)
        ensures
            r is Some <==> self.db.spec_backup(id@) is Some,
            r matches Some(s) ==> s.timestamp == self.db.spec_backup(id@).unwrap().timestamp
                && s.data@ == self.db.spec_backup(id@).unwrap().data@,
    {
        match balist_position(&self.db.backups, id) {
            Some(i) => Some(self.db.backups[i].1.clone()),
            None => None,
        }
    }

    /// Models the consensus collaborator committing an admitted
    /// transaction: after the output modules have recorded an outcome
    /// for each output, the accepted-transaction record is written. A
    /// record that already exists is left unchanged.
    pub fn record_accepted_transaction(&mut self, txid: &TransactionId, module_ids: Vec<u64>)
        requires
            old(self).wf(),
            forall|k: int|
                0 <= k < module_ids@.len() ==> old(self).modules.spec_output_status(
                    module_ids@[k],
                    txid.digest@,
                    k as u64,
                ) is Some,
        ensures
            final(self).wf(),
            final(self).cfg == old(self).cfg,
            final(self).modules == old(self).modules,
            final(self).client_cfg == old(self).client_cfg,
            final(self).pending_events == old(self).pending_events,
            final(self).latest_contribution_by_peer == old(self).latest_contribution_by_peer,
            final(self).consensus_status_cache == old(self).consensus_status_cache,
            final(self).supported_api_versions == old(self).supported_api_versions,
            final(self).db.epochs == old(self).db.epochs,
            final(self).db.last_epoch == old(self).db.last_epoch,
            final(self).db.download_counts == old(self).db.download_counts,
            final(self).db.backups == old(self).db.backups,
            final(self).db.config_signature == old(self).db.config_signature,
            old(self).db.spec_accepted(txid.digest@) is Some ==> final(self).db == old(self).db,
            old(self).db.spec_accepted(txid.digest@) is None ==> final(self).db.spec_accepted(
                txid.digest@,
            ) == Some(module_ids) && forall|other: Seq<u8>|
                other != txid.digest@ ==> final(self).db.spec_accepted(other) == old(self).db.spec_accepted(other),
    {
        if balist_position(&self.db.accepted, &txid.digest).is_some() {
            return ;
        }
        let ghost olds = self.db.accepted@;
        self.db.accepted.push((txid.digest.clone(), module_ids));
        proof {
            lemma_balist_push(olds, self.db.accepted@.last());
            assert(self.db.accepted@ =~= olds.push(self.db.accepted@.last()));
            assert forall|a: int, b: int|
                0 <= a < b < self.db.accepted@.len() implies self.db.accepted@[a].0@ != self
                .db.accepted@[b].0@ by {
                if b < olds.len() {
                } else {
                    assert(self.db.accepted@[b].0@ == txid.digest@);
                    if self.db.accepted@[a].0@ == txid.digest@ {
                        crate::balist::lemma_balist_find_at(olds, txid.digest@, a);
                    }
                }
            }
        }
    }
}

/// Funding law: every transaction queued for consensus by a
/// well-formed API state satisfies the funding invariant, so every
/// transaction the collaborator accepts has inputs summing to at least
/// its outputs.
pub proof fn lemma_admitted_transactions_funded(api: ConsensusApi, i: int)
    requires
        api.wf(),
        0 <= i < api.pending_events@.len(),
    ensures
        match api.pending_events@[i] {
            ApiEvent::Transaction(tx) => spec_input_sum(api.modules, tx.inputs@)
                >= spec_output_sum(api.modules, tx.outputs@),
            _ => true,
        },
{
}

} // verus!
