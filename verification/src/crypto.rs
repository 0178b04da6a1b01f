//! Ed25519 keypair generation, signing and verification.
//!
//! The scheme itself comes from `ed25519-dalek` (and, for generation, the
//! ledger SDK's keypair type around it). Signing is deterministic, so its
//! result is named by an uninterpreted spec function; of generation, which
//! draws from the OS entropy source, the contracts state only shape and
//! validity, never the value.

use vstd::prelude::*;

verus! {

/// Whether 64 bytes are a valid keypair encoding: the first 32 bytes are the
/// secret key and the last 32 its matching, decodable public key.
pub uninterp spec fn ed25519_keypair_parses(key: Seq<u8>) -> bool;

/// The Ed25519 signature over a message's UTF-8 bytes under a 64-byte
/// keypair encoding. Ed25519 signing is deterministic, so this is a function
/// of the two arguments alone.
pub uninterp spec fn ed25519_signature(key: Seq<u8>, msg: Seq<char>) -> Seq<u8>;

/// Whether 32 bytes decode as a public key (a point on the curve).
pub uninterp spec fn ed25519_pubkey_parses(pubkey: Seq<u8>) -> bool;

/// Whether a 64-byte signature verifies over a message's UTF-8 bytes under a
/// 32-byte public key. Verification is deterministic.
pub uninterp spec fn ed25519_verifies(pubkey: Seq<u8>, msg: Seq<char>, sig: Seq<u8>) -> bool;

/// Relies on `solana_sdk::signature::Keypair::new`: a fresh keypair from the
/// OS entropy source, whose 64-byte encoding (`Keypair::to_bytes`) is the 32
/// secret bytes followed by the 32 bytes of the public key that
/// `Signer::pubkey` returns; such an encoding is a valid keypair encoding.
#[verifier::external_body]
pub(crate) fn new_keypair_bytes() -> (r: (Vec<u8>, Vec<u8>))
    ensures
        r.0@.len() == 64,
        r.1@ == r.0@.subrange(32, 64),
        ed25519_keypair_parses(r.0@),
{
    let kp = solana_sdk::signature::Keypair::new();
    let public = solana_sdk::signer::Signer::pubkey(&kp).to_bytes().to_vec();
    (kp.to_bytes().to_vec(), public)
}

/// Relies on `ed25519_dalek::SigningKey::from_keypair_bytes`, which accepts
/// exactly the valid keypair encodings, and on `Signer::sign`: deterministic
/// Ed25519 signing of the message's UTF-8 bytes. The produced signature is 64
/// bytes; the keypair's public half decodes as a public key and the
/// signature verifies under it.
#[verifier::external_body]
pub(crate) fn ed25519_sign(key: &Vec<u8>, message: &str) -> (r: Option<Vec<u8>>)
    requires
        key@.len() == 64,
    ensures
        r is Some <==> ed25519_keypair_parses(key@),
        r matches Some(sig) ==> {
            &&& sig@ == ed25519_signature(key@, message@)
            &&& sig@.len() == 64
            &&& ed25519_pubkey_parses(key@.subrange(32, 64))
            &&& ed25519_verifies(key@.subrange(32, 64), message@, sig@)
        },
{
    let arr: &[u8; 64] = key.as_slice().try_into().unwrap();
    match ed25519_dalek::SigningKey::from_keypair_bytes(arr) {
        Ok(sk) => Some(ed25519_dalek::Signer::sign(&sk, message.as_bytes()).to_bytes().to_vec()),
        Err(_) => None,
    }
}

/// Relies on `ed25519_dalek::VerifyingKey::from_bytes`, which accepts exactly
/// the 32-byte encodings of curve points.
#[verifier::external_body]
pub(crate) fn ed25519_pubkey_valid(pubkey: &Vec<u8>) -> (r: bool)
    requires
        pubkey@.len() == 32,
    ensures
        r == ed25519_pubkey_parses(pubkey@),
{
    let arr: &[u8; 32] = pubkey.as_slice().try_into().unwrap();
    ed25519_dalek::VerifyingKey::from_bytes(arr).is_ok()
}

/// Relies on `ed25519_dalek::Verifier::verify`: deterministic Ed25519
/// verification of a 64-byte signature over the message's UTF-8 bytes, under
/// a public key already known to decode.
#[verifier::external_body]
pub(crate) fn ed25519_verify(pubkey: &Vec<u8>, message: &str, sig: &Vec<u8>) -> (r: bool)
    requires
        pubkey@.len() == 32,
        ed25519_pubkey_parses(pubkey@),
        sig@.len() == 64,
    ensures
        r == ed25519_verifies(pubkey@, message@, sig@),
{
    let arr: &[u8; 32] = pubkey.as_slice().try_into().unwrap();
    let vk = ed25519_dalek::VerifyingKey::from_bytes(arr).unwrap();
    let s = ed25519_dalek::Signature::from_slice(sig.as_slice()).unwrap();
    ed25519_dalek::Verifier::verify(&vk, message.as_bytes(), &s).is_ok()
}

} // verus!
