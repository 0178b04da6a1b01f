//! `/send/sol` and `/send/token`: transfer instruction building.

use vstd::prelude::*;
use crate::address::{address_bytes, address_parses, parse_address};
use crate::codec::{base58_encoding, base64_decoding, base64_encoding};
use crate::error::AppError;
use crate::instructions::{build_system_transfer, build_token_transfer, instruction_result,
    spl_token_program_id, system_program_id, system_transfer_data, token_transfer_data};
use crate::models::{InstructionResult, SendSolRequest, SendTokenRequest};

verus! {

/// Build a system-program `Transfer` instruction moving lamports from one
/// account to another. Construction cannot fail once both addresses parse.
///
/// The response names the system program, lists the funding account
/// (writable signer) and the recipient (writable) — the one canonical
/// account-metadata shape used by every instruction-building endpoint — and
/// carries the payload, the program's instruction index then the
/// little-endian lamport amount, in base64.
pub fn send_sol(req: &SendSolRequest) -> (r: Result<InstructionResult, AppError>)
    ensures
        match r {
            Ok(resp) => {
                &&& address_parses(req.from@)
                &&& address_parses(req.to@)
                &&& resp.program_id@ == base58_encoding(system_program_id())
                &&& resp.accounts@.len() == 2
                &&& resp.accounts@[0].pubkey@ == base58_encoding(address_bytes(req.from@))
                &&& resp.accounts@[0].is_signer
                &&& resp.accounts@[0].is_writable
                &&& resp.accounts@[1].pubkey@ == base58_encoding(address_bytes(req.to@))
                &&& !resp.accounts@[1].is_signer
                &&& resp.accounts@[1].is_writable
                &&& resp.instruction_data@ == base64_encoding(system_transfer_data(req.lamports))
                &&& base64_decoding(resp.instruction_data@) == Some(
                    system_transfer_data(req.lamports),
                )
            },
            Err(e) => {
                &&& e matches AppError::InvalidInput(m)
                &&& {
                    ||| (!address_parses(req.from@) && m@ == "Invalid from address"@)
                    ||| (address_parses(req.from@) && !address_parses(req.to@) && m@
                        == "Invalid to address"@)
                }
            },
        },
{
    let from = match parse_address(req.from.as_str()) {
        Some(a) => a,
        None => {
            return Err(AppError::InvalidInput("Invalid from address".to_owned()));
        },
    };
    let to = match parse_address(req.to.as_str()) {
        Some(a) => a,
        None => {
            return Err(AppError::InvalidInput("Invalid to address".to_owned()));
        },
    };
    let built = build_system_transfer(&from, &to, req.lamports);
    Ok(instruction_result(&built))
}

/// Build an SPL token `Transfer` instruction on the owner's signature, with
/// no multisig co-signers. The mint account stands as the transfer's
/// source, the destination as its target.
///
/// Succeeds exactly when all three addresses parse; the response names the
/// SPL token program, lists the source and destination accounts (writable)
/// and the owner (readonly signer), and carries the packed payload — the
/// opcode then the little-endian amount — in base64.
pub fn send_token(req: &SendTokenRequest) -> (r: Result<InstructionResult, AppError>)
    ensures
        match r {
            Ok(resp) => {
                &&& address_parses(req.destination@)
                &&& address_parses(req.mint@)
                &&& address_parses(req.owner@)
                &&& resp.program_id@ == base58_encoding(spl_token_program_id())
                &&& resp.accounts@.len() == 3
                &&& resp.accounts@[0].pubkey@ == base58_encoding(address_bytes(req.mint@))
                &&& !resp.accounts@[0].is_signer
                &&& resp.accounts@[0].is_writable
                &&& resp.accounts@[1].pubkey@ == base58_encoding(address_bytes(req.destination@))
                &&& !resp.accounts@[1].is_signer
                &&& resp.accounts@[1].is_writable
                &&& resp.accounts@[2].pubkey@ == base58_encoding(address_bytes(req.owner@))
                &&& resp.accounts@[2].is_signer
                &&& !resp.accounts@[2].is_writable
                &&& resp.instruction_data@ == base64_encoding(token_transfer_data(req.amount))
                &&& base64_decoding(resp.instruction_data@) == Some(token_transfer_data(req.amount))
            },
            Err(e) => {
                &&& e matches AppError::InvalidInput(m)
                &&& {
                    ||| (!address_parses(req.destination@) && m@ == "Invalid destination"@)
                    ||| (address_parses(req.destination@) && !address_parses(req.mint@) && m@
                        == "Invalid mint"@)
                    ||| (address_parses(req.destination@) && address_parses(req.mint@)
                        && !address_parses(req.owner@) && m@ == "Invalid owner"@)
                }
            },
        },
{
    let destination = match parse_address(req.destination.as_str()) {
        Some(a) => a,
        None => {
            return Err(AppError::InvalidInput("Invalid destination".to_owned()));
        },
    };
    let mint = match parse_address(req.mint.as_str()) {
        Some(a) => a,
        None => {
            return Err(AppError::InvalidInput("Invalid mint".to_owned()));
        },
    };
    let owner = match parse_address(req.owner.as_str()) {
        Some(a) => a,
        None => {
            return Err(AppError::InvalidInput("Invalid owner".to_owned()));
        },
    };
    let built = build_token_transfer(&mint, &destination, &owner, req.amount);
    Ok(instruction_result(&built))
}

} // verus!
