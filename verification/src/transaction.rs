//! Transactions: an ordered list of typed inputs and outputs, a
//! content-addressed id, schnorr signatures over all inputs, and the
//! fixed-layout wire format the transaction endpoint decodes.
//!
//! Wire layout, all integers little-endian 64-bit: input count, output
//! count, then one 16-byte record (module-instance id, payload handle)
//! per input and per output, then the signature count, then one raw
//! 64-byte schnorr signature per entry. The transaction id is the
//! SHA-256 digest of the prefix up to and including the output records,
//! so signatures do not affect the id.

use vstd::prelude::*;

use crate::bytes::{
    lemma_u64_from_le_inverse, push_u64_le, read_u64_le, spec_u64_from_le, spec_u64_le, views_of,
};
use crate::crypto::{schnorr_valid, schnorr_verify, sha256, sha256_of};
use crate::errors::ApiError;
use crate::modules::ModuleRegistry;

verus! {

/// Content-addressed transaction id: a 32-byte SHA-256 digest.
#[derive(Debug, PartialEq, Eq)]
pub struct TransactionId {
    /// The 32 digest bytes.
    pub digest: Vec<u8>,
}

impl TransactionId {
    /// Well-formed ids hold exactly 32 bytes.
    pub open spec fn wf(&self) -> bool {
        self.digest@.len() == 32
    }
}

impl Clone for TransactionId {
    /// Copies the digest bytes.
    fn clone(&self) -> (r: Self)
        ensures
            r.digest@ == self.digest@,
    {
        TransactionId { digest: self.digest.clone() }
    }
}

/// One transaction input: the module that owns its semantics and the
/// module-scoped payload handle.
#[derive(Debug, Clone, Copy, PartialEq, Eq, Structural)]
pub struct TxInput {
    /// Module-instance id selecting the owning module.
    pub module_instance_id: u64,
    /// Module-scoped payload handle.
    pub payload: u64,
}

/// One transaction output: the module that owns its semantics and the
/// module-scoped payload handle.
#[derive(Debug, Clone, Copy, PartialEq, Eq, Structural)]
pub struct TxOutput {
    /// Module-instance id selecting the owning module.
    pub module_instance_id: u64,
    /// Module-scoped payload handle.
    pub payload: u64,
}

/// A fully decoded transaction.
#[derive(Debug, PartialEq, Eq)]
pub struct Transaction {
    /// Ordered inputs.
    pub inputs: Vec<TxInput>,
    /// Ordered outputs.
    pub outputs: Vec<TxOutput>,
    /// One 64-byte schnorr signature per flattened input public key.
    pub signatures: Vec<Vec<u8>>,
}

/// The 16 bytes of one input record.
pub open spec fn spec_encode_input(x: TxInput) -> Seq<u8> {
    spec_u64_le(x.module_instance_id) + spec_u64_le(x.payload)
}

/// The 16 bytes of one output record.
pub open spec fn spec_encode_output(x: TxOutput) -> Seq<u8> {
    spec_u64_le(x.module_instance_id) + spec_u64_le(x.payload)
}

/// The concatenated input records.
pub open spec fn spec_encode_inputs(s: Seq<TxInput>) -> Seq<u8>
    decreases s.len(),
{
    if s.len() == 0 {
        Seq::empty()
    } else {
        spec_encode_inputs(s.drop_last()) + spec_encode_input(s.last())
    }
}

/// The concatenated output records.
pub open spec fn spec_encode_outputs(s: Seq<TxOutput>) -> Seq<u8>
    decreases s.len(),
{
    if s.len() == 0 {
        Seq::empty()
    } else {
        spec_encode_outputs(s.drop_last()) + spec_encode_output(s.last())
    }
}

/// The concatenated raw signatures.
pub open spec fn spec_encode_sigs(s: Seq<Vec<u8>>) -> Seq<u8>
    decreases s.len(),
{
    if s.len() == 0 {
        Seq::empty()
    } else {
        spec_encode_sigs(s.drop_last()) + s.last()@
    }
}

/// The hashed content over given input and output records: counts and
/// records, without signatures.
pub open spec fn spec_content_of(inputs: Seq<TxInput>, outputs: Seq<TxOutput>) -> Seq<u8> {
    spec_u64_le(inputs.len() as u64) + spec_u64_le(outputs.len() as u64) + spec_encode_inputs(
        inputs,
    ) + spec_encode_outputs(outputs)
}

/// The hashed content of a transaction: counts and records of its
/// inputs and outputs, without signatures.
pub open spec fn spec_tx_content(tx: Transaction) -> Seq<u8> {
    spec_content_of(tx.inputs@, tx.outputs@)
}

/// The full wire encoding of a transaction.
pub open spec fn spec_tx_wire(tx: Transaction) -> Seq<u8> {
    spec_tx_content(tx) + spec_u64_le(tx.signatures@.len() as u64) + spec_encode_sigs(
        tx.signatures@,
    )
}

/// The digest a transaction is addressed and signed by.
pub open spec fn spec_txid(tx: Transaction) -> Seq<u8> {
    sha256_of(spec_tx_content(tx))
}

/// Whether `sigs` carries one valid schnorr signature over `msg` for
/// each key of `keys`, in order.
pub open spec fn spec_sigs_valid(msg: Seq<u8>, sigs: Seq<Vec<u8>>, keys: Seq<Seq<u8>>) -> bool {
    sigs.len() == keys.len() && forall|k: int|
        0 <= k < keys.len() ==> schnorr_valid(msg, (#[trigger] sigs[k])@, keys[k])
}

/// Whether `sigs`, given as byte sequences, carries one valid schnorr
/// signature over `msg` for each key of `keys`, in order.
pub open spec fn spec_sig_seq_valid(msg: Seq<u8>, sigs: Seq<Seq<u8>>, keys: Seq<Seq<u8>>) -> bool {
    sigs.len() == keys.len() && forall|k: int|
        0 <= k < keys.len() ==> schnorr_valid(msg, #[trigger] sigs[k], keys[k])
}

/// Signature validity over held signatures and over their byte
/// sequences agree.
pub proof fn lemma_sigs_valid_views(msg: Seq<u8>, sigs: Seq<Vec<u8>>, keys: Seq<Seq<u8>>)
    ensures
        spec_sigs_valid(msg, sigs, keys) <==> spec_sig_seq_valid(msg, views_of(sigs), keys),
{
    assert(views_of(sigs).len() == sigs.len());
    if spec_sigs_valid(msg, sigs, keys) {
        assert forall|k: int|
            0 <= k < keys.len() implies schnorr_valid(
            msg,
            #[trigger] views_of(sigs)[k],
            keys[k],
        ) by {
            assert(schnorr_valid(msg, sigs[k]@, keys[k]));
            assert(views_of(sigs)[k] == sigs[k]@);
        }
    }
    if spec_sig_seq_valid(msg, views_of(sigs), keys) {
        assert forall|k: int|
            0 <= k < keys.len() implies schnorr_valid(msg, (#[trigger] sigs[k])@, keys[k]) by {
            assert(schnorr_valid(msg, views_of(sigs)[k], keys[k]));
            assert(views_of(sigs)[k] == sigs[k]@);
        }
    }
}

impl Transaction {
    /// Well-formed transactions carry 64-byte signatures.
    pub open spec fn wf(&self) -> bool {
        forall|k: int| 0 <= k < self.signatures@.len() ==> (#[trigger] self.signatures@[k])@.len()
            == 64
    }

    /// Encodes the hashed content: counts, input records, output
    /// records.
    fn encode_content(&self) -> (r: Vec<u8>)
        ensures
            r@ == spec_tx_content(*self),
    {
        let mut out: Vec<u8> = Vec::new();
        push_u64_le(&mut out, self.inputs.len() as u64);
        push_u64_le(&mut out, self.outputs.len() as u64);
        let ghost header = out@;
        let mut i: usize = 0;
        while i < self.inputs.len()
            invariant
                i <= self.inputs@.len(),
                out@ == header + spec_encode_inputs(self.inputs@.take(i as int)),
            decreases self.inputs@.len() - i,
        {
            push_u64_le(&mut out, self.inputs[i].module_instance_id);
            push_u64_le(&mut out, self.inputs[i].payload);
            proof {
                assert(self.inputs@.take(i + 1).drop_last() =~= self.inputs@.take(i as int));
                assert(self.inputs@.take(i + 1).last() == self.inputs@[i as int]);
                assert(out@ =~= header + spec_encode_inputs(self.inputs@.take(i + 1)));
            }
            i += 1;
        }
        proof {
            assert(self.inputs@.take(self.inputs@.len() as int) =~= self.inputs@);
        }
        let ghost with_inputs = out@;
        let mut j: usize = 0;
        while j < self.outputs.len()
            invariant
                j <= self.outputs@.len(),
                out@ == with_inputs + spec_encode_outputs(self.outputs@.take(j as int)),
            decreases self.outputs@.len() - j,
        {
            push_u64_le(&mut out, self.outputs[j].module_instance_id);
            push_u64_le(&mut out, self.outputs[j].payload);
            proof {
                assert(self.outputs@.take(j + 1).drop_last() =~= self.outputs@.take(j as int));
                assert(self.outputs@.take(j + 1).last() == self.outputs@[j as int]);
                assert(out@ =~= with_inputs + spec_encode_outputs(self.outputs@.take(j + 1)));
            }
            j += 1;
        }
        proof {
            assert(self.outputs@.take(self.outputs@.len() as int) =~= self.outputs@);
            assert(out@ =~= spec_tx_content(*self));
        }
        out
    }

    /// The content-addressed hash of this transaction.
    pub fn tx_hash(&self) -> (r: TransactionId)
        ensures
            r.digest@ == spec_txid(*self),
            r.wf(),
    {
        let content = self.encode_content();
        TransactionId { digest: sha256(&content) }
    }

    /// Verifies the transaction's signatures against the flattened
    /// public-key list its input modules supplied: one valid signature
    /// per key, over the transaction id.
    pub fn validate_signature(&self, pub_keys: &Vec<Vec<u8>>) -> (r: bool)
        ensures
            r == spec_sigs_valid(spec_txid(*self), self.signatures@, views_of(pub_keys@)),
    {
        if self.signatures.len() != pub_keys.len() {
            return false;
        }
        let content = self.encode_content();
        let msg = sha256(&content);
        let mut k: usize = 0;
        while k < pub_keys.len()
            invariant
                k <= pub_keys@.len(),
                self.signatures@.len() == pub_keys@.len(),
                msg@ == spec_txid(*self),
                forall|x: int|
                    0 <= x < k ==> schnorr_valid(
                        spec_txid(*self),
                        (#[trigger] self.signatures@[x])@,
                        views_of(pub_keys@)[x],
                    ),
            decreases pub_keys@.len() - k,
        {
            if !schnorr_verify(&msg, &self.signatures[k], &pub_keys[k]) {
                return false;
            }
            k += 1;
        }
        true
    }

    /// Encodes this transaction in the wire layout.
    pub fn encode(&self) -> (r: Vec<u8>)
        ensures
            r@ == spec_tx_wire(*self),
    {
        let mut out = self.encode_content();
        push_u64_le(&mut out, self.signatures.len() as u64);
        let ghost with_count = out@;
        let mut k: usize = 0;
        while k < self.signatures.len()
            invariant
                k <= self.signatures@.len(),
                out@ == with_count + spec_encode_sigs(self.signatures@.take(k as int)),
            decreases self.signatures@.len() - k,
        {
            let mut b: usize = 0;
            let sig = &self.signatures[k];
            let ghost before = out@;
            while b < sig.len()
                invariant
                    b <= sig@.len(),
                    out@ == before + sig@.take(b as int),
                decreases sig@.len() - b,
            {
                out.push(sig[b]);
                proof {
                    assert(out@ =~= before + sig@.take(b + 1));
                }
                b += 1;
            }
            proof {
                assert(sig@.take(sig@.len() as int) =~= sig@);
                assert(self.signatures@.take(k + 1).drop_last() =~= self.signatures@.take(
                    k as int,
                ));
                assert(self.signatures@.take(k + 1).last() == self.signatures@[k as int]);
                assert(out@ =~= with_count + spec_encode_sigs(self.signatures@.take(k + 1)));
            }
            k += 1;
        }
        proof {
            assert(self.signatures@.take(self.signatures@.len() as int) =~= self.signatures@);
            assert(out@ =~= spec_tx_wire(*self));
        }
        out
    }
}

/// Whether `b` parses as a transaction whose modules are all registered
/// in `reg`: counts and length agree with the fixed layout and every
/// record names a registered module.
pub open spec fn spec_wire_parses(b: Seq<u8>, reg: ModuleRegistry) -> bool {
    &&& b.len() >= 16
    &&& {
        let n_in = spec_u64_from_le(b.subrange(0, 8)) as int;
        let n_out = spec_u64_from_le(b.subrange(8, 16)) as int;
        &&& b.len() >= 24 + 16 * n_in + 16 * n_out
        &&& {
            let sc = 16 + 16 * n_in + 16 * n_out;
            let n_sig = spec_u64_from_le(b.subrange(sc, sc + 8)) as int;
            &&& b.len() == 24 + 16 * n_in + 16 * n_out + 64 * n_sig
            &&& forall|i: int|
                0 <= i < n_in ==> reg.spec_has_module(
                    spec_u64_from_le(#[trigger] b.subrange(16 + 16 * i, 24 + 16 * i)),
                )
            &&& forall|j: int|
                0 <= j < n_out ==> reg.spec_has_module(
                    spec_u64_from_le(
                        #[trigger] b.subrange(16 + 16 * n_in + 16 * j, 24 + 16 * n_in + 16 * j),
                    ),
                )
        }
    }
}

/// The input count named by the wire header.
pub open spec fn spec_wire_n_in(b: Seq<u8>) -> int {
    spec_u64_from_le(b.subrange(0, 8)) as int
}

/// The output count named by the wire header.
pub open spec fn spec_wire_n_out(b: Seq<u8>) -> int {
    spec_u64_from_le(b.subrange(8, 16)) as int
}

/// The input records a parseable wire form carries.
pub open spec fn spec_wire_inputs(b: Seq<u8>) -> Seq<TxInput> {
    Seq::new(
        spec_wire_n_in(b) as nat,
        |i: int|
            TxInput {
                module_instance_id: spec_u64_from_le(b.subrange(16 + 16 * i, 24 + 16 * i)),
                payload: spec_u64_from_le(b.subrange(24 + 16 * i, 32 + 16 * i)),
            },
    )
}

/// The output records a parseable wire form carries.
pub open spec fn spec_wire_outputs(b: Seq<u8>) -> Seq<TxOutput> {
    Seq::new(
        spec_wire_n_out(b) as nat,
        |j: int|
            TxOutput {
                module_instance_id: spec_u64_from_le(
                    b.subrange(
                        16 + 16 * spec_wire_n_in(b) + 16 * j,
                        24 + 16 * spec_wire_n_in(b) + 16 * j,
                    ),
                ),
                payload: spec_u64_from_le(
                    b.subrange(
                        24 + 16 * spec_wire_n_in(b) + 16 * j,
                        32 + 16 * spec_wire_n_in(b) + 16 * j,
                    ),
                ),
            },
    )
}

/// The signatures a parseable wire form carries, as byte sequences.
pub open spec fn spec_wire_sigs(b: Seq<u8>) -> Seq<Seq<u8>> {
    let sc = 16 + 16 * spec_wire_n_in(b) + 16 * spec_wire_n_out(b);
    let n_sig = spec_u64_from_le(b.subrange(sc, sc + 8)) as int;
    Seq::new(n_sig as nat, |k: int| b.subrange(sc + 8 + 64 * k, sc + 8 + 64 * k + 64))
}

/// The id of the transaction a parseable wire form carries.
pub open spec fn spec_wire_txid(b: Seq<u8>) -> Seq<u8> {
    sha256_of(spec_content_of(spec_wire_inputs(b), spec_wire_outputs(b)))
}

/// Input records decoded field-by-field from `b` re-encode to exactly
/// the bytes they were read from.
proof fn lemma_encode_inputs_matches(b: Seq<u8>, s: Seq<TxInput>, base: int)
    requires
        0 <= base,
        base + 16 * s.len() <= b.len(),
        forall|x: int|
            0 <= x < s.len() ==> (#[trigger] s[x]).module_instance_id == spec_u64_from_le(
                b.subrange(base + 16 * x, base + 16 * x + 8),
            ) && s[x].payload == spec_u64_from_le(b.subrange(base + 16 * x + 8, base + 16 * x + 16)),
    ensures
        spec_encode_inputs(s) =~= b.subrange(base, base + 16 * s.len()),
    decreases s.len(),
{
    if s.len() > 0 {
        let n = s.len() as int;
        lemma_encode_inputs_matches(b, s.drop_last(), base);
        lemma_u64_from_le_inverse(b.subrange(base + 16 * (n - 1), base + 16 * (n - 1) + 8));
        lemma_u64_from_le_inverse(b.subrange(base + 16 * (n - 1) + 8, base + 16 * n));
        assert(spec_encode_input(s.last()) =~= b.subrange(base + 16 * (n - 1), base + 16 * n));
        assert(spec_encode_inputs(s) =~= b.subrange(base, base + 16 * n));
    }
}

/// Output records decoded field-by-field from `b` re-encode to exactly
/// the bytes they were read from.
proof fn lemma_encode_outputs_matches(b: Seq<u8>, s: Seq<TxOutput>, base: int)
    requires
        0 <= base,
        base + 16 * s.len() <= b.len(),
        forall|x: int|
            0 <= x < s.len() ==> (#[trigger] s[x]).module_instance_id == spec_u64_from_le(
                b.subrange(base + 16 * x, base + 16 * x + 8),
            ) && s[x].payload == spec_u64_from_le(b.subrange(base + 16 * x + 8, base + 16 * x + 16)),
    ensures
        spec_encode_outputs(s) =~= b.subrange(base, base + 16 * s.len()),
    decreases s.len(),
{
    if s.len() > 0 {
        let n = s.len() as int;
        lemma_encode_outputs_matches(b, s.drop_last(), base);
        lemma_u64_from_le_inverse(b.subrange(base + 16 * (n - 1), base + 16 * (n - 1) + 8));
        lemma_u64_from_le_inverse(b.subrange(base + 16 * (n - 1) + 8, base + 16 * n));
        assert(spec_encode_output(s.last()) =~= b.subrange(base + 16 * (n - 1), base + 16 * n));
        assert(spec_encode_outputs(s) =~= b.subrange(base, base + 16 * n));
    }
}

/// Signatures copied byte-for-byte out of `b` re-encode to exactly the
/// bytes they were read from.
proof fn lemma_encode_sigs_matches(b: Seq<u8>, s: Seq<Vec<u8>>, base: int)
    requires
        0 <= base,
        base + 64 * s.len() <= b.len(),
        forall|x: int|
            0 <= x < s.len() ==> (#[trigger] s[x])@ == b.subrange(
                base + 64 * x,
                base + 64 * x + 64,
            ),
    ensures
        spec_encode_sigs(s) =~= b.subrange(base, base + 64 * s.len()),
    decreases s.len(),
{
    if s.len() > 0 {
        let n = s.len() as int;
        lemma_encode_sigs_matches(b, s.drop_last(), base);
        assert(spec_encode_sigs(s) =~= b.subrange(base, base + 64 * n));
    }
}

/// Decodes a transaction from its wire bytes, admitting only records
/// whose modules are registered; re-encoding the result yields exactly
/// the input bytes, so the decoded transaction hashes to the id the
/// sender computed.
#[verifier::loop_isolation(false)]
#[verifier::rlimit(100)]
pub fn decode_transaction(b: &Vec<u8>, registry: &ModuleRegistry) -> (r: Result<
    Transaction,
    ApiError,
>)
    ensures
        r is Ok <==> spec_wire_parses(b@, *registry),
        match r {
            Ok(tx) => {
                &&& tx.wf()
                &&& b@ == spec_tx_wire(tx)
                &&& tx.inputs@ == spec_wire_inputs(b@)
                &&& tx.outputs@ == spec_wire_outputs(b@)
                &&& views_of(tx.signatures@) == spec_wire_sigs(b@)
                &&& forall|i: int|
                    0 <= i < tx.inputs@.len() ==> registry.spec_has_module(
                        (#[trigger] tx.inputs@[i]).module_instance_id,
                    )
                &&& forall|j: int|
                    0 <= j < tx.outputs@.len() ==> registry.spec_has_module(
                        (#[trigger] tx.outputs@[j]).module_instance_id,
                    )
            },
            Err(e) => e is BadRequest,
        },
{
    let len = b.len();
    if len < 16 {
        return Err(ApiError::bad_request("transaction truncated".to_owned()));
    }
    let n_in64 = read_u64_le(b, 0);
    let n_out64 = read_u64_le(b, 8);
    let len128 = len as u128;
    let need1: u128 = 24 + 16 * (n_in64 as u128) + 16 * (n_out64 as u128);
    if len128 < need1 {
        return Err(ApiError::bad_request("transaction truncated".to_owned()));
    }
    let n_in = n_in64 as usize;
    let n_out = n_out64 as usize;
    let sc: usize = 16 + 16 * n_in + 16 * n_out;
    let n_sig64 = read_u64_le(b, sc);
    let total: u128 = need1 + 64 * (n_sig64 as u128);
    if len128 != total {
        return Err(ApiError::bad_request("transaction length mismatch".to_owned()));
    }
    let n_sig = n_sig64 as usize;

    let mut inputs: Vec<TxInput> = Vec::new();
    let mut i: usize = 0;
    while i < n_in
        invariant
            i <= n_in,
            inputs@.len() == i,
            forall|x: int|
                0 <= x < i ==> (#[trigger] inputs@[x]).module_instance_id == spec_u64_from_le(
                    b@.subrange(16 + 16 * x, 24 + 16 * x),
                ) && inputs@[x].payload == spec_u64_from_le(
                    b@.subrange(24 + 16 * x, 32 + 16 * x),
                ),
            forall|x: int|
                0 <= x < i ==> registry.spec_has_module(
                    (#[trigger] inputs@[x]).module_instance_id,
                ),
        decreases n_in - i,
    {
        let off = 16 + 16 * i;
        let id = read_u64_le(b, off);
        let payload = read_u64_le(b, off + 8);
        if !registry.has_module(id) {
            proof {
                assert(!registry.spec_has_module(
                    spec_u64_from_le(
                        b@.subrange(16 + 16 * (i as int), 24 + 16 * (i as int)),
                    ),
                ));
            }
            return Err(ApiError::bad_request("unknown module".to_owned()));
        }
        inputs.push(TxInput { module_instance_id: id, payload });
        i += 1;
    }

    let o0: usize = 16 + 16 * n_in;
    let mut outputs: Vec<TxOutput> = Vec::new();
    let mut j: usize = 0;
    while j < n_out
        invariant
            j <= n_out,
            outputs@.len() == j,
            forall|x: int|
                0 <= x < j ==> (#[trigger] outputs@[x]).module_instance_id == spec_u64_from_le(
                    b@.subrange(o0 + 16 * x, o0 + 16 * x + 8),
                ) && outputs@[x].payload == spec_u64_from_le(
                    b@.subrange(o0 + 16 * x + 8, o0 + 16 * x + 16),
                ),
            forall|x: int|
                0 <= x < j ==> registry.spec_has_module(
                    (#[trigger] outputs@[x]).module_instance_id,
                ),
        decreases n_out - j,
    {
        let off = o0 + 16 * j;
        let id = read_u64_le(b, off);
        let payload = read_u64_le(b, off + 8);
        if !registry.has_module(id) {
            proof {
                assert(!registry.spec_has_module(
                    spec_u64_from_le(
                        b@.subrange(
                            16 + 16 * (n_in as int) + 16 * (j as int),
                            24 + 16 * (n_in as int) + 16 * (j as int),
                        ),
                    ),
                ));
            }
            return Err(ApiError::bad_request("unknown module".to_owned()));
        }
        outputs.push(TxOutput { module_instance_id: id, payload });
        j += 1;
    }

    let s0: usize = sc + 8;
    let mut signatures: Vec<Vec<u8>> = Vec::new();
    let mut k: usize = 0;
    while k < n_sig
        invariant
            k <= n_sig,
            signatures@.len() == k,
            forall|x: int|
                0 <= x < k ==> (#[trigger] signatures@[x])@ == b@.subrange(
                    s0 + 64 * x,
                    s0 + 64 * x + 64,
                ),
        decreases n_sig - k,
    {
        let off = s0 + 64 * k;
        let mut sig: Vec<u8> = Vec::new();
        let mut t: usize = 0;
        while t < 64
            invariant
                t <= 64,
                sig@ == b@.subrange(off as int, off as int + t),
            decreases 64 - t,
        {
            sig.push(b[off + t]);
            proof {
                assert(sig@ =~= b@.subrange(off as int, off as int + t + 1));
            }
            t += 1;
        }
        signatures.push(sig);
        k += 1;
    }

    proof {
        let nin = spec_u64_from_le(b@.subrange(0, 8)) as int;
        let nout = spec_u64_from_le(b@.subrange(8, 16)) as int;
        assert(nin == n_in64 && nout == n_out64);
        assert(b@.len() >= 24 + 16 * nin + 16 * nout);
        assert(16 + 16 * nin + 16 * nout == sc as int);
        let nsig = spec_u64_from_le(b@.subrange(sc as int, sc as int + 8)) as int;
        assert(nsig == n_sig64);
        assert(b@.len() == 24 + 16 * nin + 16 * nout + 64 * nsig);
        assert forall|x: int|
            0 <= x < nin implies registry.spec_has_module(
            spec_u64_from_le(#[trigger] b@.subrange(16 + 16 * x, 24 + 16 * x)),
        ) by {
            assert(inputs@[x].module_instance_id == spec_u64_from_le(
                b@.subrange(16 + 16 * x, 24 + 16 * x),
            ));
        }
        assert forall|x: int|
            0 <= x < nout implies registry.spec_has_module(
            spec_u64_from_le(
                #[trigger] b@.subrange(16 + 16 * nin + 16 * x, 24 + 16 * nin + 16 * x),
            ),
        ) by {
            assert(o0 as int == 16 + 16 * nin);
            assert(outputs@[x].module_instance_id == spec_u64_from_le(
                b@.subrange(o0 + 16 * x, o0 + 16 * x + 8),
            ));
            assert(b@.subrange(o0 + 16 * x, o0 + 16 * x + 8) =~= b@.subrange(
                16 + 16 * nin + 16 * x,
                24 + 16 * nin + 16 * x,
            ));
        }
        assert(spec_wire_parses(b@, *registry));
        assert(inputs@ =~= spec_wire_inputs(b@));
        assert forall|x: int|
            0 <= x < nout implies outputs@[x] == spec_wire_outputs(b@)[x] by {
            assert(o0 as int + 16 * x == 16 + 16 * nin + 16 * x);
            assert(o0 as int + 16 * x + 8 == 24 + 16 * nin + 16 * x);
            assert(o0 as int + 16 * x + 16 == 32 + 16 * nin + 16 * x);
        }
        assert(outputs@ =~= spec_wire_outputs(b@));
        assert forall|x: int|
            0 <= x < nsig implies views_of(signatures@)[x] == spec_wire_sigs(b@)[x] by {
            assert(s0 as int + 64 * x == 16 + 16 * nin + 16 * nout + 8 + 64 * x);
            assert(views_of(signatures@)[x] == signatures@[x]@);
        }
        assert(views_of(signatures@) =~~= spec_wire_sigs(b@));
    }
    let tx = Transaction { inputs, outputs, signatures };
    proof {
        lemma_encode_inputs_matches(b@, tx.inputs@, 16);
        lemma_encode_outputs_matches(b@, tx.outputs@, o0 as int);
        lemma_encode_sigs_matches(b@, tx.signatures@, s0 as int);
        lemma_u64_from_le_inverse(b@.subrange(0, 8));
        lemma_u64_from_le_inverse(b@.subrange(8, 16));
        lemma_u64_from_le_inverse(b@.subrange(sc as int, sc as int + 8));
        assert(b@ =~= spec_tx_wire(tx));
    }
    Ok(tx)
}

} // verus!
