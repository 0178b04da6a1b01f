//! `/keypair`: generate a fresh keypair.

use vstd::prelude::*;
use crate::codec::{base58_decoding, base58_encoding, encode_base58};
use crate::crypto::{ed25519_keypair_parses, new_keypair_bytes};
use crate::models::KeypairResult;

verus! {

/// Generate a fresh random keypair and return both halves base58-encoded:
/// the full 64-byte keypair encoding as the secret, its last 32 bytes as
/// the public key. Generation cannot fail.
pub fn generate_keypair() -> (r: KeypairResult)
    ensures
        exists|key: Seq<u8>|
            {
                &&& #[trigger] ed25519_keypair_parses(key)
                &&& key.len() == 64
                &&& r.secret_key@ == base58_encoding(key)
                &&& base58_decoding(r.secret_key@) == Some(key)
                &&& r.public_key@ == base58_encoding(key.subrange(32, 64))
                &&& base58_decoding(r.public_key@) == Some(key.subrange(32, 64))
            },
{
    let (secret, public) = new_keypair_bytes();
    let secret_key = encode_base58(secret.as_slice());
    let public_key = encode_base58(public.as_slice());
    let result = KeypairResult { public_key, secret_key };
    proof {
        assert(ed25519_keypair_parses(secret@) && secret@.len() == 64 && result.secret_key@
            == base58_encoding(secret@) && base58_decoding(result.secret_key@) == Some(secret@)
            && result.public_key@ == base58_encoding(secret@.subrange(32, 64)) && base58_decoding(
            result.public_key@,
        ) == Some(secret@.subrange(32, 64)));
    }
    result
}

} // verus!
