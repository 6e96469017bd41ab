//! Instructions of the system program: account creation and transfer of native value.

use vstd::prelude::*;
use vstd::bytes::{spec_u64_to_le_bytes};
use crate::address::{Address, SYSTEM_PROGRAM_ID};
use crate::instruction::{AccountMeta, Instruction, InstructionView, writable};

verus! {

/// The create-account instruction: the funding account and the new account both sign
/// and are written; the payload is the operation tag 0, the balance, the size and the owner.
pub open spec fn create_account_spec(
    from: Seq<u8>,
    to: Seq<u8>,
    lamports: u64,
    space: u64,
    owner: Seq<u8>,
) -> InstructionView {
    InstructionView {
        program_id: SYSTEM_PROGRAM_ID@,
        accounts: seq![writable(from, true), writable(to, true)],
        data: seq![0u8, 0u8, 0u8, 0u8] + spec_u64_to_le_bytes(lamports) + spec_u64_to_le_bytes(
            space,
        ) + owner,
    }
}

/// Calls `solana_sdk::system_instruction::create_account`. The contract claims the program,
/// the two account references and the payload layout that the function's source builds.
#[verifier::external_body]
fn system_create_account(
    from: &Address,
    to: &Address,
    lamports: u64,
    space: u64,
    owner: &Address,
) -> (ix: Instruction)
    ensures
        ix@ == create_account_spec(from@, to@, lamports, space, owner@),
{
    let ix = solana_sdk::system_instruction::create_account(
        &from.0.into(), &to.0.into(), lamports, space, &owner.0.into());
    let metas = ix.accounts.iter()
        .map(|m| AccountMeta::new(Address(m.pubkey.to_bytes()), m.is_signer, m.is_writable))
        .collect();
    Instruction::new(Address(ix.program_id.to_bytes()), metas, ix.data)
}

/// The transfer instruction: the sender signs and is written, the recipient is written; the
/// payload is the operation tag 2 and the amount.
pub open spec fn transfer_spec(from: Seq<u8>, to: Seq<u8>, lamports: u64) -> InstructionView {
    InstructionView {
        program_id: SYSTEM_PROGRAM_ID@,
        accounts: seq![writable(from, true), writable(to, false)],
        data: seq![2u8, 0u8, 0u8, 0u8] + spec_u64_to_le_bytes(lamports),
    }
}

/// Calls `solana_sdk::system_instruction::transfer`. The contract claims the program, the
/// two account references and the payload layout that the function's source builds.
#[verifier::external_body]
fn system_transfer(from: &Address, to: &Address, lamports: u64) -> (ix: Instruction)
    ensures
        ix@ == transfer_spec(from@, to@, lamports),
{
    let ix = solana_sdk::system_instruction::transfer(&from.0.into(), &to.0.into(), lamports);
    let metas = ix.accounts.iter()
        .map(|m| AccountMeta::new(Address(m.pubkey.to_bytes()), m.is_signer, m.is_writable))
        .collect();
    Instruction::new(Address(ix.program_id.to_bytes()), metas, ix.data)
}

/// Builds the instruction that moves `lamports` from `from` to `to`.
pub fn transfer(from: &Address, to: &Address, lamports: u64) -> (ix: Instruction)
    ensures
        ix@ == transfer_spec(from@, to@, lamports),
{
    system_transfer(from, to, lamports)
}

/// Builds the instruction that creates `to`, funded by `from` with `lamports`,
/// holding `space` bytes and owned by `owner`.
pub fn create_account(
    from: &Address,
    to: &Address,
    lamports: u64,
    space: u64,
    owner: &Address,
) -> (ix: Instruction)
    ensures
        ix@ == create_account_spec(from@, to@, lamports, space, owner@),
{
    system_create_account(from, to, lamports, space, owner)
}

} // verus!
