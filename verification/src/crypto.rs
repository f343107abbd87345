//! Trusted cryptographic primitives: SHA-256 digests for transaction
//! ids and config hashes, and schnorr signature verification for
//! transactions and signed backup requests.

use vstd::prelude::*;

verus! {

/// Digest that the SHA-256 wrapper returns for the given bytes.
pub uninterp spec fn sha256_of(data: Seq<u8>) -> Seq<u8>;

/// Whether the 64-byte schnorr signature `sig` by the 32-byte x-only
/// public key `pk` verifies for the 32-byte message digest `msg`.
/// Malformed byte strings never verify.
pub uninterp spec fn schnorr_valid(msg: Seq<u8>, sig: Seq<u8>, pk: Seq<u8>) -> bool;

/// Relies on bitcoin_hashes::sha256::Hash::hash: the 32-byte digest is a
/// function of the input bytes alone.
#[verifier::external_body]
pub(crate) fn sha256(data: &Vec<u8>) -> (r: Vec<u8>)
    ensures
        r@ == sha256_of(data@),
        r@.len() == 32,
{
    bitcoin_hashes::sha256::Hash::hash(data.as_slice()).to_byte_array().to_vec()
}

/// Relies on secp256k1_zkp::Secp256k1::verify_schnorr, together with
/// Message::from_digest_slice, schnorr::Signature::from_slice and
/// XOnlyPublicKey::from_slice to convert the arguments: the verdict is a
/// function of the three byte strings alone, and byte strings that do
/// not parse as digest, signature or key never verify.
#[verifier::external_body]
pub(crate) fn schnorr_verify(msg: &Vec<u8>, sig: &Vec<u8>, pk: &Vec<u8>) -> (r: bool)
    ensures
        r == schnorr_valid(msg@, sig@, pk@),
{
    let m = match secp256k1_zkp::Message::from_digest_slice(msg.as_slice()) {
        Ok(m) => m,
        Err(_) => return false,
    };
    let s = match secp256k1_zkp::schnorr::Signature::from_slice(sig.as_slice()) {
        Ok(s) => s,
        Err(_) => return false,
    };
    let p = match secp256k1_zkp::XOnlyPublicKey::from_slice(pk.as_slice()) {
        Ok(p) => p,
        Err(_) => return false,
    };
    let secp = secp256k1_zkp::Secp256k1::verification_only();
    secp.verify_schnorr(&s, &m, &p).is_ok()
}

} // verus!
