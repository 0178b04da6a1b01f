//! Base58 and base64 text codecs.
//!
//! The encoders and decoders themselves come from the `bs58` and `base64`
//! crates; their results are named by uninterpreted spec functions, and the
//! trusted contracts state exactly the facts the callers need: a decoder
//! succeeds exactly on well-formed text, and decoding an encoder's output
//! gives the original bytes back.

use vstd::prelude::*;

verus! {

/// The base58 text that `bs58` produces for a byte sequence.
pub uninterp spec fn base58_encoding(bytes: Seq<u8>) -> Seq<char>;

/// The bytes that `bs58` recovers from a piece of text: `None` exactly when
/// the text is not well-formed base58.
pub uninterp spec fn base58_decoding(s: Seq<char>) -> Option<Seq<u8>>;

/// The base64 text (standard alphabet, padded) that `base64` produces for a
/// byte sequence.
pub uninterp spec fn base64_encoding(bytes: Seq<u8>) -> Seq<char>;

/// The bytes that `base64` recovers from a piece of text: `None` exactly when
/// the text is not well-formed base64.
pub uninterp spec fn base64_decoding(s: Seq<char>) -> Option<Seq<u8>>;

/// Relies on `bs58::encode(..).into_string()`: the encoding depends on the
/// bytes alone, and `bs58::decode` recovers exactly those bytes from it.
#[verifier::external_body]
pub fn encode_base58(bytes: &[u8]) -> (r: String)
    ensures
        r@ == base58_encoding(bytes@),
        base58_decoding(r@) == Some(bytes@),
{
    bs58::encode(bytes).into_string()
}

/// Relies on `bs58::decode(..).into_vec()`: it returns the decoded bytes for
/// well-formed base58 text and an error otherwise.
#[verifier::external_body]
pub fn decode_base58(s: &str) -> (r: Result<Vec<u8>, String>)
    ensures
        match r {
            Ok(v) => base58_decoding(s@) == Some(v@),
            Err(e) => base58_decoding(s@) is None && e@ == "Invalid Base58 string"@,
        },
{
    bs58::decode(s).into_vec().map_err(|_| "Invalid Base58 string".to_string())
}

/// Relies on `base64::encode`: the encoding depends on the bytes alone, and
/// `base64::decode` recovers exactly those bytes from it.
#[verifier::external_body]
pub fn encode_base64(bytes: &[u8]) -> (r: String)
    ensures
        r@ == base64_encoding(bytes@),
        base64_decoding(r@) == Some(bytes@),
{
    base64::encode(bytes)
}

/// Relies on `base64::decode`: it returns the decoded bytes for well-formed
/// standard base64 text and an error otherwise.
#[verifier::external_body]
pub fn decode_base64(s: &str) -> (r: Result<Vec<u8>, String>)
    ensures
        match r {
            Ok(v) => base64_decoding(s@) == Some(v@),
            Err(e) => base64_decoding(s@) is None && e@ == "Invalid Base64 string"@,
        },
{
    base64::decode(s).map_err(|_| "Invalid Base64 string".to_string())
}

/// Law: base58 decoding inverts base58 encoding — for every byte sequence,
/// encoding it and decoding the result gives the original bytes back.
pub fn base58_round_trip(bytes: &Vec<u8>) -> (r: Vec<u8>)
    ensures
        r@ == bytes@,
{
    let encoded = encode_base58(bytes.as_slice());
    match decode_base58(encoded.as_str()) {
        Ok(v) => v,
        Err(_) => unreached(),
    }
}

/// Law: base64 decoding inverts base64 encoding — for every byte sequence,
/// encoding it and decoding the result gives the original bytes back.
pub fn base64_round_trip(bytes: &Vec<u8>) -> (r: Vec<u8>)
    ensures
        r@ == bytes@,
{
    let encoded = encode_base64(bytes.as_slice());
    match decode_base64(encoded.as_str()) {
        Ok(v) => v,
        Err(_) => unreached(),
    }
}

} // verus!
