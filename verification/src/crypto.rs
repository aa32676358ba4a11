use vstd::prelude::*;
use crate::bytes::{push_u64_le, u64_le_bytes};

verus! {

/// The SHA-256 digest of a byte string. The hash itself is outside code; the
/// library only relies on the digest being a function of the input bytes.
pub uninterp spec fn sha256_of(data: Seq<u8>) -> Seq<u8>;

/// Relies on anchor_lang's `solana_program::hash::hash`, a SHA-256 of the
/// input bytes: the 32-byte digest depends on the input bytes alone.
#[verifier::external_body]
fn sha256(data: &Vec<u8>) -> (r: [u8; 32])
    ensures
        r@ == sha256_of(data@),
{
    anchor_lang::solana_program::hash::hash(data.as_slice()).to_bytes()
}

/// The bytes whose hash binds a transfer to its exact parameters: the locking
/// party's identity followed by the little-endian amount and nonce.
pub open spec fn proof_preimage(user: Seq<u8>, amount: u64, nonce: u64) -> Seq<u8> {
    user + u64_le_bytes(amount) + u64_le_bytes(nonce)
}

/// The proof fingerprint of a transfer: it is both the replay key and the
/// message that validators sign to authorize the matching unlock.
pub open spec fn digest_of(user: Seq<u8>, amount: u64, nonce: u64) -> Seq<u8> {
    sha256_of(proof_preimage(user, amount, nonce))
}

/// Computes the proof fingerprint of (identity, amount, nonce).
pub fn compute_digest(user: &[u8; 32], amount: u64, nonce: u64) -> (r: [u8; 32])
    ensures
        r@ == digest_of(user@, amount, nonce),
{
    let mut data: Vec<u8> = Vec::new();
    let mut i: usize = 0;
    while i < 32
        invariant
            i <= 32,
            data@ =~= user@.take(i as int),
        decreases 32 - i,
    {
        data.push(user[i]);
        i += 1;
    }
    proof {
        assert(data@ =~= user@);
    }
    push_u64_le(&mut data, amount);
    push_u64_le(&mut data, nonce);
    proof {
        assert(data@ =~= proof_preimage(user@, amount, nonce));
    }
    sha256(&data)
}

/// Byte length of a public key of the reference signature scheme.
pub const PUBLIC_KEY_LEN: usize = 1952;

/// Byte length of a signature of the reference signature scheme.
pub const SIGNATURE_LEN: usize = 3293;

/// Whether `sig` is a valid signature over `msg` under the key `pk`, as the
/// reference post-quantum scheme defines it. The library relies only on the
/// verdict being a function of the three byte strings.
pub uninterp spec fn sig_verifies(sig: Seq<u8>, msg: Seq<u8>, pk: Seq<u8>) -> bool;

/// Relies on crystals_dilithium's `dilithium3::PublicKey::verify` (with
/// `PublicKey::from_bytes` to parse the key): the verdict depends on the
/// signature, message and key bytes alone, and malformed keys or signatures
/// fail closed, never verifying and never aborting.
#[verifier::external_body]
pub(crate) fn verify_dilithium(sig: &Vec<u8>, message: &[u8; 32], pubkey: &Vec<u8>) -> (r: bool)
    ensures
        r == sig_verifies(sig@, message@, pubkey@),
        pubkey@.len() != PUBLIC_KEY_LEN ==> !r,
        sig@.len() != SIGNATURE_LEN ==> !r,
{
    match crystals_dilithium::dilithium3::PublicKey::from_bytes(pubkey.as_slice()) {
        Ok(pk) => pk.verify(message, sig.as_slice()),
        Err(_) => false,
    }
}

/// Relies on rand's `OsRng::next_u64` for nonce entropy; nothing is assumed
/// of the value drawn.
#[verifier::external_body]
pub(crate) fn random_u64() -> u64 {
    <rand::rngs::OsRng as rand::RngCore>::next_u64(&mut rand::rngs::OsRng)
}

} // verus!
