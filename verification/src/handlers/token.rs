//! `/token/create` and `/token/mint`: SPL token instruction building.

use vstd::prelude::*;
use crate::address::{address_bytes, address_parses, parse_address};
use crate::codec::{base58_encoding, base64_decoding, base64_encoding};
use crate::error::AppError;
use crate::instructions::{build_initialize_mint, build_mint_to, initialize_mint_data,
    instruction_result, mint_to_data, rent_sysvar_id, spl_token_program_id};
use crate::models::{InstructionResult, MintTokenRequest, TokenCreateRequest};

verus! {

/// Build an `InitializeMint` instruction for a new token: the given mint
/// account, the given mint authority, the given decimal precision, and no
/// freeze authority.
///
/// Succeeds exactly when both addresses parse (base58, 32 bytes); the
/// response names the SPL token program, lists the mint account (writable)
/// and the rent sysvar (readonly), and carries the packed payload in
/// base64.
pub fn create_token(req: &TokenCreateRequest) -> (r: Result<InstructionResult, AppError>)
    ensures
        match r {
            Ok(resp) => {
                &&& address_parses(req.mint@)
                &&& address_parses(req.mint_authority@)
                &&& resp.program_id@ == base58_encoding(spl_token_program_id())
                &&& resp.accounts@.len() == 2
                &&& resp.accounts@[0].pubkey@ == base58_encoding(address_bytes(req.mint@))
                &&& !resp.accounts@[0].is_signer
                &&& resp.accounts@[0].is_writable
                &&& resp.accounts@[1].pubkey@ == base58_encoding(rent_sysvar_id())
                &&& !resp.accounts@[1].is_signer
                &&& !resp.accounts@[1].is_writable
                &&& resp.instruction_data@ == base64_encoding(
                    initialize_mint_data(address_bytes(req.mint_authority@), req.decimals),
                )
                &&& base64_decoding(resp.instruction_data@) == Some(
                    initialize_mint_data(address_bytes(req.mint_authority@), req.decimals),
                )
            },
            Err(e) => {
                &&& e matches AppError::InvalidInput(m)
                &&& {
                    ||| (!address_parses(req.mint@) && m@ == "Invalid mint pubkey"@)
                    ||| (address_parses(req.mint@) && !address_parses(req.mint_authority@) && m@
                        == "Invalid authority pubkey"@)
                }
            },
        },
{
    let mint = match parse_address(req.mint.as_str()) {
        Some(a) => a,
        None => {
            return Err(AppError::InvalidInput("Invalid mint pubkey".to_owned()));
        },
    };
    let authority = match parse_address(req.mint_authority.as_str()) {
        Some(a) => a,
        None => {
            return Err(AppError::InvalidInput("Invalid authority pubkey".to_owned()));
        },
    };
    let built = build_initialize_mint(&mint, &authority, req.decimals);
    Ok(instruction_result(&built))
}

/// Build a `MintTo` instruction: mint new units of the token into the
/// destination account, on the given mint authority's signature, with no
/// multisig co-signers.
///
/// Succeeds exactly when all three addresses parse; the response names the
/// SPL token program, lists the mint and destination accounts (writable)
/// and the authority (readonly signer), and carries the packed payload —
/// the opcode then the little-endian amount — in base64.
pub fn mint_token(req: &MintTokenRequest) -> (r: Result<InstructionResult, AppError>)
    ensures
        match r {
            Ok(resp) => {
                &&& address_parses(req.mint@)
                &&& address_parses(req.destination@)
                &&& address_parses(req.authority@)
                &&& resp.program_id@ == base58_encoding(spl_token_program_id())
                &&& resp.accounts@.len() == 3
                &&& resp.accounts@[0].pubkey@ == base58_encoding(address_bytes(req.mint@))
                &&& !resp.accounts@[0].is_signer
                &&& resp.accounts@[0].is_writable
                &&& resp.accounts@[1].pubkey@ == base58_encoding(address_bytes(req.destination@))
                &&& !resp.accounts@[1].is_signer
                &&& resp.accounts@[1].is_writable
                &&& resp.accounts@[2].pubkey@ == base58_encoding(address_bytes(req.authority@))
                &&& resp.accounts@[2].is_signer
                &&& !resp.accounts@[2].is_writable
                &&& resp.instruction_data@ == base64_encoding(mint_to_data(req.amount))
                &&& base64_decoding(resp.instruction_data@) == Some(mint_to_data(req.amount))
            },
            Err(e) => {
                &&& e matches AppError::InvalidInput(m)
                &&& {
                    ||| (!address_parses(req.mint@) && m@ == "Invalid mint"@)
                    ||| (address_parses(req.mint@) && !address_parses(req.destination@) && m@
                        == "Invalid destination"@)
                    ||| (address_parses(req.mint@) && address_parses(req.destination@)
                        && !address_parses(req.authority@) && m@ == "Invalid authority"@)
                }
            },
        },
{
    let mint = match parse_address(req.mint.as_str()) {
        Some(a) => a,
        None => {
            return Err(AppError::InvalidInput("Invalid mint".to_owned()));
        },
    };
    let destination = match parse_address(req.destination.as_str()) {
        Some(a) => a,
        None => {
            return Err(AppError::InvalidInput("Invalid destination".to_owned()));
        },
    };
    let authority = match parse_address(req.authority.as_str()) {
        Some(a) => a,
        None => {
            return Err(AppError::InvalidInput("Invalid authority".to_owned()));
        },
    };
    let built = build_mint_to(&mint, &destination, &authority, req.amount);
    Ok(instruction_result(&built))
}

} // verus!
