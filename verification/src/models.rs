//! Request and response value types for the service's endpoints.
//!
//! These are plain data carriers: every address, key and signature travels as
//! base58 or base64 text, and the HTTP layer maps them to and from JSON.

use vstd::prelude::*;

verus! {

/// The uniform success envelope: `success` is always `true` around `data`.
pub struct SuccessResponse<T> {
    pub success: bool,
    pub data: T,
}

/// The uniform failure envelope: `success` is always `false`.
pub struct ErrorResponse {
    pub success: bool,
    pub error: String,
}

/// Body of `/token/create`: mint and mint-authority addresses (base58) and
/// the token's decimal precision.
pub struct TokenCreateRequest {
    pub mint_authority: String,
    pub mint: String,
    pub decimals: u8,
}

/// Body of `/token/mint`: mint, destination and authority addresses (base58)
/// and the amount in base units.
pub struct MintTokenRequest {
    pub mint: String,
    pub destination: String,
    pub authority: String,
    pub amount: u64,
}

/// Body of `/message/sign`: the plaintext message and the base58-encoded
/// 64-byte secret-key material.
pub struct SignMessageRequest {
    pub message: String,
    pub secret: String,
}

/// Body of `/message/verify`: the plaintext message, the base64 signature
/// and the base58 public key.
pub struct VerifyMessageRequest {
    pub message: String,
    pub signature: String,
    pub pubkey: String,
}

/// Body of `/send/sol`: sender and recipient addresses (base58) and the
/// lamport amount.
pub struct SendSolRequest {
    pub from: String,
    pub to: String,
    pub lamports: u64,
}

/// Body of `/send/token`: destination, mint and owner addresses (base58) and
/// the amount in base units.
pub struct SendTokenRequest {
    pub destination: String,
    pub mint: String,
    pub owner: String,
    pub amount: u64,
}

/// Result of `/keypair`: a fresh keypair, both halves base58-encoded.
#[derive(Debug)]
pub struct KeypairResult {
    pub public_key: String,
    pub secret_key: String,
}

/// Result of `/message/sign`: the base64 signature, the base58 public key
/// derived from the secret, and the message echoed back.
#[derive(Debug)]
pub struct SignResult {
    pub signature: String,
    pub public_key: String,
    pub message: String,
}

/// Result of `/message/verify`: whether the signature checks out, with the
/// message and public key echoed back. A failed check is `valid: false`,
/// never an error.
#[derive(Debug)]
pub struct VerifyResult {
    pub valid: bool,
    pub message: String,
    pub pubkey: String,
}

/// One account reference of an instruction: its address (base58) and its
/// access flags. All instruction-building endpoints use this one shape.
#[derive(Debug)]
pub struct AccountMetaResult {
    pub pubkey: String,
    pub is_signer: bool,
    pub is_writable: bool,
}

/// Result of the instruction-building endpoints: the owning program's
/// address (base58), the ordered account list, and the instruction payload
/// (base64).
#[derive(Debug)]
pub struct InstructionResult {
    pub program_id: String,
    pub accounts: Vec<AccountMetaResult>,
    pub instruction_data: String,
}

} // verus!
