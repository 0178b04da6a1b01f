//! `/message/sign` and `/message/verify`: Ed25519 signing and verification.

use vstd::prelude::*;
use vstd::slice::slice_subrange;
use crate::codec::{base58_decoding, base58_encoding, base64_decoding, base64_encoding};
use crate::codec::{decode_base58, decode_base64, encode_base58, encode_base64};
use crate::crypto::{ed25519_keypair_parses, ed25519_pubkey_parses, ed25519_signature,
    ed25519_verifies};
use crate::crypto::{ed25519_pubkey_valid, ed25519_sign, ed25519_verify};
use crate::error::AppError;
use crate::models::{SignMessageRequest, SignResult, VerifyMessageRequest, VerifyResult};

verus! {

/// Sign the message's UTF-8 bytes with the keypair encoded (base58) in the
/// request's secret field.
///
/// Succeeds exactly when the secret decodes to 64 bytes that are a valid
/// keypair encoding; a secret that is not base58 or not 64 bytes long is the
/// caller's fault (`InvalidInput`), 64 bytes the signature library rejects
/// are `InternalError`. On success the response carries the base64
/// signature, the base58 public key (the keypair's public half), and the
/// message echoed back; the signature verifies under that public key.
pub fn sign_message(req: &SignMessageRequest) -> (r: Result<SignResult, AppError>)
    ensures
        match r {
            Ok(resp) => {
                &&& base58_decoding(req.secret@) matches Some(key)
                &&& key.len() == 64
                &&& ed25519_keypair_parses(key)
                &&& resp.signature@ == base64_encoding(ed25519_signature(key, req.message@))
                &&& base64_decoding(resp.signature@) == Some(ed25519_signature(key, req.message@))
                &&& ed25519_signature(key, req.message@).len() == 64
                &&& resp.public_key@ == base58_encoding(key.subrange(32, 64))
                &&& base58_decoding(resp.public_key@) == Some(key.subrange(32, 64))
                &&& ed25519_pubkey_parses(key.subrange(32, 64))
                &&& ed25519_verifies(
                    key.subrange(32, 64),
                    req.message@,
                    ed25519_signature(key, req.message@),
                )
                &&& resp.message@ == req.message@
            },
            Err(e) => match e {
                AppError::InvalidInput(m) => {
                    ||| (base58_decoding(req.secret@) is None && m@ == "Invalid secret key"@)
                    ||| (base58_decoding(req.secret@) matches Some(k) && k.len() != 64 && m@
                        == "Secret key length invalid"@)
                },
                AppError::InternalError => {
                    &&& base58_decoding(req.secret@) matches Some(k)
                    &&& k.len() == 64
                    &&& !ed25519_keypair_parses(k)
                },
            },
        },
{
    let secret_bytes = match decode_base58(req.secret.as_str()) {
        Ok(v) => v,
        Err(_) => {
            return Err(AppError::InvalidInput("Invalid secret key".to_owned()));
        },
    };
    if secret_bytes.len() != 64 {
        return Err(AppError::InvalidInput("Secret key length invalid".to_owned()));
    }
    let sig = match ed25519_sign(&secret_bytes, req.message.as_str()) {
        Some(s) => s,
        None => {
            return Err(AppError::InternalError);
        },
    };
    let signature = encode_base64(sig.as_slice());
    let public_key = encode_base58(slice_subrange(secret_bytes.as_slice(), 32, 64));
    Ok(SignResult { signature, public_key, message: req.message.clone() })
}

/// Check the base64 signature in the request against the message's UTF-8
/// bytes and the base58 public key.
///
/// Malformed input — a public key that is not base58, not 32 bytes, or not a
/// curve point; a signature that is not base64 or not 64 bytes — is
/// `InvalidInput`. A well-formed signature that simply does not match is not
/// an error: the response carries `valid: false`.
pub fn verify_message(req: &VerifyMessageRequest) -> (r: Result<VerifyResult, AppError>)
    ensures
        match r {
            Ok(resp) => {
                &&& base58_decoding(req.pubkey@) matches Some(pk)
                &&& pk.len() == 32
                &&& ed25519_pubkey_parses(pk)
                &&& base64_decoding(req.signature@) matches Some(sig)
                &&& sig.len() == 64
                &&& resp.valid == ed25519_verifies(pk, req.message@, sig)
                &&& resp.message@ == req.message@
                &&& resp.pubkey@ == req.pubkey@
            },
            Err(e) => {
                &&& e matches AppError::InvalidInput(m)
                &&& {
                    ||| (base58_decoding(req.pubkey@) is None && m@ == "Invalid public key"@)
                    ||| (base58_decoding(req.pubkey@) matches Some(pk) && !(pk.len() == 32
                        && ed25519_pubkey_parses(pk)) && m@ == "Invalid pubkey bytes"@)
                    ||| (base58_decoding(req.pubkey@) matches Some(pk) && pk.len() == 32
                        && ed25519_pubkey_parses(pk) && base64_decoding(req.signature@) is None
                        && m@ == "Invalid signature base64"@)
                    ||| ({
                        &&& base58_decoding(req.pubkey@) matches Some(pk)
                        &&& pk.len() == 32
                        &&& ed25519_pubkey_parses(pk)
                        &&& base64_decoding(req.signature@) matches Some(sg)
                        &&& sg.len() != 64
                        &&& m@ == "Invalid signature bytes"@
                    })
                }
            },
        },
{
    let pubkey_bytes = match decode_base58(req.pubkey.as_str()) {
        Ok(v) => v,
        Err(_) => {
            return Err(AppError::InvalidInput("Invalid public key".to_owned()));
        },
    };
    if pubkey_bytes.len() != 32 {
        return Err(AppError::InvalidInput("Invalid pubkey bytes".to_owned()));
    }
    if !ed25519_pubkey_valid(&pubkey_bytes) {
        return Err(AppError::InvalidInput("Invalid pubkey bytes".to_owned()));
    }
    let sig_bytes = match decode_base64(req.signature.as_str()) {
        Ok(v) => v,
        Err(_) => {
            return Err(AppError::InvalidInput("Invalid signature base64".to_owned()));
        },
    };
    if sig_bytes.len() != 64 {
        return Err(AppError::InvalidInput("Invalid signature bytes".to_owned()));
    }
    let valid = ed25519_verify(&pubkey_bytes, req.message.as_str(), &sig_bytes);
    Ok(VerifyResult { valid, message: req.message.clone(), pubkey: req.pubkey.clone() })
}

/// Law: signing then verifying round-trips. For any secret that
/// `sign_message` accepts — base58 text for 64 bytes of valid keypair
/// material — feeding the returned signature, public key and message to
/// `verify_message` succeeds and reports the signature valid; and signing
/// fails exactly on the other secrets.
pub fn sign_then_verify(req: &SignMessageRequest) -> (r: Option<bool>)
    ensures
        r matches Some(v) ==> v,
        r is Some <==> (base58_decoding(req.secret@) matches Some(k) && k.len() == 64
            && ed25519_keypair_parses(k)),
{
    let signed = match sign_message(req) {
        Ok(s) => s,
        Err(_) => {
            return None;
        },
    };
    let vreq = VerifyMessageRequest {
        message: signed.message,
        signature: signed.signature,
        pubkey: signed.public_key,
    };
    match verify_message(&vreq) {
        Ok(resp) => Some(resp.valid),
        Err(_) => unreached(),
    }
}

} // verus!
