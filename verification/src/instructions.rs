//! Construction of ledger instructions.
//!
//! The instructions themselves are built by the SPL token library and the
//! system-program interface; the trusted contracts here state, byte for
//! byte, what those builders return: the owning program's fixed identifier,
//! the ordered account list with its access flags, and the packed payload.

use vstd::prelude::*;
use crate::address::Address;
use crate::codec::{base58_decoding, base58_encoding, base64_decoding, base64_encoding};
use crate::codec::{encode_base58, encode_base64};
use crate::models::{AccountMetaResult, InstructionResult};
use solana_sdk::pubkey::Pubkey;

verus! {

/// One account reference of a built instruction: raw 32-byte address, signer
/// flag, writable flag.
pub struct InstructionAccount {
    pub pubkey: Vec<u8>,
    pub is_signer: bool,
    pub is_writable: bool,
}

/// A built instruction, still as raw bytes: the owning program's 32-byte
/// identifier, the ordered account list, and the packed payload.
pub struct BuiltInstruction {
    pub program_id: Vec<u8>,
    pub accounts: Vec<InstructionAccount>,
    pub data: Vec<u8>,
}

/// The SPL token program's fixed identifier: the 32 bytes whose base58
/// encoding is `TokenkegQfeZyiNwAJbNbGKPFXCWuBvf9Ss623VQ5DA`.
pub open spec fn spl_token_program_id() -> Seq<u8> {
    seq![
        6u8, 221u8, 246u8, 225u8, 215u8, 101u8, 161u8, 147u8,
        217u8, 203u8, 225u8, 70u8, 206u8, 235u8, 121u8, 172u8,
        28u8, 180u8, 133u8, 237u8, 95u8, 91u8, 55u8, 145u8,
        58u8, 140u8, 245u8, 133u8, 126u8, 255u8, 0u8, 169u8,
    ]
}

/// The rent sysvar's fixed identifier: the 32 bytes whose base58 encoding is
/// `SysvarRent111111111111111111111111111111111`.
pub open spec fn rent_sysvar_id() -> Seq<u8> {
    seq![
        6u8, 167u8, 213u8, 23u8, 25u8, 44u8, 92u8, 81u8,
        33u8, 140u8, 201u8, 76u8, 61u8, 74u8, 241u8, 127u8,
        88u8, 218u8, 238u8, 8u8, 155u8, 161u8, 253u8, 68u8,
        227u8, 219u8, 217u8, 138u8, 0u8, 0u8, 0u8, 0u8,
    ]
}

/// The system program's fixed identifier: 32 zero bytes, whose base58
/// encoding is `11111111111111111111111111111111`.
pub open spec fn system_program_id() -> Seq<u8> {
    Seq::new(32, |i: int| 0u8)
}

/// The little-endian 8-byte encoding of an unsigned 64-bit amount.
pub open spec fn u64_le_bytes(x: u64) -> Seq<u8> {
    seq![
        (x & 0xff) as u8,
        ((x >> 8) & 0xff) as u8,
        ((x >> 16) & 0xff) as u8,
        ((x >> 24) & 0xff) as u8,
        ((x >> 32) & 0xff) as u8,
        ((x >> 40) & 0xff) as u8,
        ((x >> 48) & 0xff) as u8,
        ((x >> 56) & 0xff) as u8,
    ]
}

/// Payload of an SPL `InitializeMint` instruction with no freeze authority:
/// the opcode, the decimal precision, the mint authority's bytes, and the
/// empty optional-freeze-authority tag.
pub open spec fn initialize_mint_data(authority: Seq<u8>, decimals: u8) -> Seq<u8> {
    seq![0u8, decimals] + authority + seq![0u8]
}

/// Payload of an SPL `MintTo` instruction: the opcode, then the amount.
pub open spec fn mint_to_data(amount: u64) -> Seq<u8> {
    seq![7u8] + u64_le_bytes(amount)
}

/// Payload of an SPL `Transfer` instruction: the opcode, then the amount.
pub open spec fn token_transfer_data(amount: u64) -> Seq<u8> {
    seq![3u8] + u64_le_bytes(amount)
}

/// Payload of a system-program `Transfer` instruction: the program's
/// four-byte little-endian instruction index, then the lamport amount.
pub open spec fn system_transfer_data(lamports: u64) -> Seq<u8> {
    seq![2u8, 0u8, 0u8, 0u8] + u64_le_bytes(lamports)
}

/// Relies on `spl_token::instruction::initialize_mint`: called with the SPL
/// token program's own id it succeeds, and returns that program id, the mint
/// account (writable) followed by the rent sysvar (readonly), and the packed
/// `InitializeMint` payload with no freeze authority.
#[verifier::external_body]
pub(crate) fn build_initialize_mint(mint: &Address, authority: &Address, decimals: u8) -> (r:
    BuiltInstruction)
    requires
        mint.wf(),
        authority.wf(),
    ensures
        r.program_id@ == spl_token_program_id(),
        r.accounts@.len() == 2,
        r.accounts@[0].pubkey@ == mint@,
        !r.accounts@[0].is_signer,
        r.accounts@[0].is_writable,
        r.accounts@[1].pubkey@ == rent_sysvar_id(),
        !r.accounts@[1].is_signer,
        !r.accounts@[1].is_writable,
        r.data@ == initialize_mint_data(authority@, decimals),
{
    let mint_pk = Pubkey::try_from(mint.as_bytes().as_slice()).unwrap();
    let auth_pk = Pubkey::try_from(authority.as_bytes().as_slice()).unwrap();
    let ix = spl_token::instruction::initialize_mint(
        &spl_token::id(),
        &mint_pk,
        &auth_pk,
        None,
        decimals,
    ).unwrap();
    let accounts = ix.accounts.iter().map(|m| InstructionAccount {
        pubkey: m.pubkey.to_bytes().to_vec(),
        is_signer: m.is_signer,
        is_writable: m.is_writable,
    }).collect();
    BuiltInstruction { program_id: ix.program_id.to_bytes().to_vec(), accounts, data: ix.data }
}

/// Relies on `spl_token::instruction::mint_to`: called with the SPL token
/// program's own id and no multisig co-signers it succeeds, and returns that
/// program id, the mint and destination accounts (writable) followed by the
/// authority (readonly signer), and the packed `MintTo` payload.
#[verifier::external_body]
pub(crate) fn build_mint_to(mint: &Address, destination: &Address, authority: &Address, amount: u64) -> (r:
    BuiltInstruction)
    requires
        mint.wf(),
        destination.wf(),
        authority.wf(),
    ensures
        r.program_id@ == spl_token_program_id(),
        r.accounts@.len() == 3,
        r.accounts@[0].pubkey@ == mint@,
        !r.accounts@[0].is_signer,
        r.accounts@[0].is_writable,
        r.accounts@[1].pubkey@ == destination@,
        !r.accounts@[1].is_signer,
        r.accounts@[1].is_writable,
        r.accounts@[2].pubkey@ == authority@,
        r.accounts@[2].is_signer,
        !r.accounts@[2].is_writable,
        r.data@ == mint_to_data(amount),
{
    let mint_pk = Pubkey::try_from(mint.as_bytes().as_slice()).unwrap();
    let dest_pk = Pubkey::try_from(destination.as_bytes().as_slice()).unwrap();
    let auth_pk = Pubkey::try_from(authority.as_bytes().as_slice()).unwrap();
    let ix = spl_token::instruction::mint_to(&spl_token::id(), &mint_pk, &dest_pk, &auth_pk, &[], amount)
        .unwrap();
    let accounts = ix.accounts.iter().map(|m| InstructionAccount {
        pubkey: m.pubkey.to_bytes().to_vec(),
        is_signer: m.is_signer,
        is_writable: m.is_writable,
    }).collect();
    BuiltInstruction { program_id: ix.program_id.to_bytes().to_vec(), accounts, data: ix.data }
}

/// Relies on `spl_token::instruction::transfer`: called with the SPL token
/// program's own id and no multisig co-signers it succeeds, and returns that
/// program id, the source and destination accounts (writable) followed by
/// the authority (readonly signer), and the packed `Transfer` payload.
#[verifier::external_body]
pub(crate) fn build_token_transfer(source: &Address, destination: &Address, authority: &Address, amount: u64) -> (r:
    BuiltInstruction)
    requires
        source.wf(),
        destination.wf(),
        authority.wf(),
    ensures
        r.program_id@ == spl_token_program_id(),
        r.accounts@.len() == 3,
        r.accounts@[0].pubkey@ == source@,
        !r.accounts@[0].is_signer,
        r.accounts@[0].is_writable,
        r.accounts@[1].pubkey@ == destination@,
        !r.accounts@[1].is_signer,
        r.accounts@[1].is_writable,
        r.accounts@[2].pubkey@ == authority@,
        r.accounts@[2].is_signer,
        !r.accounts@[2].is_writable,
        r.data@ == token_transfer_data(amount),
{
    let src_pk = Pubkey::try_from(source.as_bytes().as_slice()).unwrap();
    let dest_pk = Pubkey::try_from(destination.as_bytes().as_slice()).unwrap();
    let auth_pk = Pubkey::try_from(authority.as_bytes().as_slice()).unwrap();
    let ix = spl_token::instruction::transfer(&spl_token::id(), &src_pk, &dest_pk, &auth_pk, &[], amount)
        .unwrap();
    let accounts = ix.accounts.iter().map(|m| InstructionAccount {
        pubkey: m.pubkey.to_bytes().to_vec(),
        is_signer: m.is_signer,
        is_writable: m.is_writable,
    }).collect();
    BuiltInstruction { program_id: ix.program_id.to_bytes().to_vec(), accounts, data: ix.data }
}

/// Relies on `solana_sdk::system_instruction::transfer`: it cannot fail, and
/// returns the system program's id, the funding account (writable signer)
/// followed by the recipient (writable), and the bincode-serialised
/// `Transfer` payload.
#[verifier::external_body]
pub(crate) fn build_system_transfer(from: &Address, to: &Address, lamports: u64) -> (r:
    BuiltInstruction)
    requires
        from.wf(),
        to.wf(),
    ensures
        r.program_id@ == system_program_id(),
        r.accounts@.len() == 2,
        r.accounts@[0].pubkey@ == from@,
        r.accounts@[0].is_signer,
        r.accounts@[0].is_writable,
        r.accounts@[1].pubkey@ == to@,
        !r.accounts@[1].is_signer,
        r.accounts@[1].is_writable,
        r.data@ == system_transfer_data(lamports),
{
    let from_pk = Pubkey::try_from(from.as_bytes().as_slice()).unwrap();
    let to_pk = Pubkey::try_from(to.as_bytes().as_slice()).unwrap();
    let ix = solana_sdk::system_instruction::transfer(&from_pk, &to_pk, lamports);
    let accounts = ix.accounts.iter().map(|m| InstructionAccount {
        pubkey: m.pubkey.to_bytes().to_vec(),
        is_signer: m.is_signer,
        is_writable: m.is_writable,
    }).collect();
    BuiltInstruction { program_id: ix.program_id.to_bytes().to_vec(), accounts, data: ix.data }
}

/// Encode a built instruction for the response envelope: the program id and
/// every account address in base58, the payload in base64, the account
/// order and flags kept as they are.
pub(crate) fn instruction_result(ix: &BuiltInstruction) -> (r: InstructionResult)
    ensures
        r.program_id@ == base58_encoding(ix.program_id@),
        base58_decoding(r.program_id@) == Some(ix.program_id@),
        r.accounts@.len() == ix.accounts@.len(),
        forall|i: int|
            0 <= i < ix.accounts@.len() ==> {
                &&& (#[trigger] r.accounts@[i]).pubkey@ == base58_encoding(ix.accounts@[i].pubkey@)
                &&& r.accounts@[i].is_signer == ix.accounts@[i].is_signer
                &&& r.accounts@[i].is_writable == ix.accounts@[i].is_writable
            },
        r.instruction_data@ == base64_encoding(ix.data@),
        base64_decoding(r.instruction_data@) == Some(ix.data@),
{
    let program_id = encode_base58(ix.program_id.as_slice());
    let mut accounts: Vec<AccountMetaResult> = Vec::new();
    let n = ix.accounts.len();
    for idx in 0..n
        invariant
            n == ix.accounts@.len(),
            accounts@.len() == idx,
            forall|i: int|
                0 <= i < idx ==> {
                    &&& (#[trigger] accounts@[i]).pubkey@ == base58_encoding(
                        ix.accounts@[i].pubkey@,
                    )
                    &&& accounts@[i].is_signer == ix.accounts@[i].is_signer
                    &&& accounts@[i].is_writable == ix.accounts@[i].is_writable
                },
    {
        let meta = &ix.accounts[idx];
        let pubkey = encode_base58(meta.pubkey.as_slice());
        accounts.push(AccountMetaResult {
            pubkey,
            is_signer: meta.is_signer,
            is_writable: meta.is_writable,
        });
    }
    let instruction_data = encode_base64(ix.data.as_slice());
    InstructionResult { program_id, accounts, instruction_data }
}

} // verus!
