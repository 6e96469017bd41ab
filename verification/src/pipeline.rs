//! The transactions of the pipelines: which instructions each one holds, in which order, and
//! who signs. What the ledger was asked beforehand (the rent-exempt balance, whether an
//! account exists, a recent block) comes in as plain values.

use vstd::prelude::*;
use crate::address::{addresses_view, Address, SYSTEM_PROGRAM_ID};
use crate::instruction::{instructions_view, Instruction, InstructionView};
use crate::policy::{
    created_account, creates_nothing, creation_precedes_use, lemma_creation_first_is_ordered,
};
use crate::system::{create_account_spec, transfer_spec};
use crate::transaction::{
    assemble, lemma_required_pair, lemma_required_single, noted, Blockhash, Transaction,
    TransactionView,
};

verus! {

/// Why a pipeline stopped before anything was submitted.
#[derive(Clone, Copy, Debug, PartialEq, Eq, Structural)]
pub enum PipelineError {
    /// The size asked for an account does not fit this machine's addresses.
    SpaceTooLarge,
}

/// The size of an account as the rent calculator takes it. Fails exactly when `space` does
/// not fit this machine's `usize`.
pub fn account_size(space: u64) -> (size: Result<usize, PipelineError>)
    ensures
        size is Ok <==> space <= usize::MAX,
        size matches Ok(n) ==> n == space,
        size matches Err(e) ==> e == PipelineError::SpaceTooLarge,
{
    if space <= usize::MAX as u64 {
        Ok(space as usize)
    } else {
        Err(PipelineError::SpaceTooLarge)
    }
}

/// The instructions that create an account: one.
pub open spec fn create_account_plan(
    payer: Seq<u8>,
    new_account: Seq<u8>,
    space: u64,
    rent: u64,
) -> Seq<InstructionView> {
    seq![create_account_spec(payer, new_account, rent, space, SYSTEM_PROGRAM_ID@)]
}

/// The instructions that transfer native value: one.
pub open spec fn transfer_plan(
    payer: Seq<u8>,
    receiver: Seq<u8>,
    amount: u64,
) -> Seq<InstructionView> {
    seq![transfer_spec(payer, receiver, amount)]
}

/// The instructions that create an account and then transfer to it.
pub open spec fn create_acc_transfer_plan(
    payer: Seq<u8>,
    new_account: Seq<u8>,
    space: u64,
    rent: u64,
    amount: u64,
) -> Seq<InstructionView> {
    seq![
        create_account_spec(payer, new_account, rent, space, SYSTEM_PROGRAM_ID@),
        transfer_spec(payer, new_account, amount),
    ]
}

/// The instructions that create an account, transfer to it and transfer to a second
/// receiver.
pub open spec fn create_and_transfer_plan(
    payer: Seq<u8>,
    new_account: Seq<u8>,
    receiver: Seq<u8>,
    space: u64,
    rent: u64,
    transfer_new_acc: u64,
    transfer_spec_acc: u64,
) -> Seq<InstructionView> {
    seq![
        create_account_spec(payer, new_account, rent, space, SYSTEM_PROGRAM_ID@),
        transfer_spec(payer, new_account, transfer_new_acc),
        transfer_spec(payer, receiver, transfer_spec_acc),
    ]
}

/// A transfer creates no account.
proof fn lemma_transfer_creates_nothing(from: Seq<u8>, to: Seq<u8>, lamports: u64)
    ensures
        created_account(transfer_spec(from, to, lamports)) is None,
{
    let ix = transfer_spec(from, to, lamports);
    assert(ix.data.take(4)[0] == 2u8);
}

/// Assembles the transaction that creates `new_account` with `space` bytes and the balance
/// `rent`, owned by the system program and paid for by `payer`. Both sign.
pub fn create_account(
    payer: &Address,
    new_account: &Address,
    space: u64,
    rent: u64,
    recent_blockhash: Blockhash,
) -> (tx: Transaction)
    ensures
        tx@ == (TransactionView {
            instructions: create_account_plan(payer@, new_account@, space, rent),
            fee_payer: payer@,
            recent_blockhash: recent_blockhash@,
            signers: noted(seq![payer@], new_account@),
        }),
        creation_precedes_use(tx@.instructions),
{
    let mut instructions: Vec<Instruction> = Vec::new();
    instructions.push(
        crate::system::create_account(payer, new_account, rent, space, &Address(SYSTEM_PROGRAM_ID)),
    );
    let mut signers: Vec<Address> = Vec::new();
    signers.push(*payer);
    signers.push(*new_account);
    proof {
        let plan = create_account_plan(payer@, new_account@, space, rent);
        assert(instructions_view(instructions@) =~= plan);
        assert(addresses_view(signers@) =~= seq![payer@, new_account@]);
        assert(plan[0].accounts[1].is_signer);
        lemma_required_pair(plan, payer@, new_account@);
        assert(plan.skip(1) =~= Seq::empty());
        lemma_creation_first_is_ordered(plan);
    }
    assemble(instructions, *payer, &signers, recent_blockhash).unwrap()
}

/// Assembles the transaction that transfers `amount` from `payer` to `receiver`. The payer
/// alone signs.
pub fn transfer_lamport(
    payer: &Address,
    receiver: &Address,
    amount: u64,
    recent_blockhash: Blockhash,
) -> (tx: Transaction)
    ensures
        tx@ == (TransactionView {
            instructions: transfer_plan(payer@, receiver@, amount),
            fee_payer: payer@,
            recent_blockhash: recent_blockhash@,
            signers: seq![payer@],
        }),
        creation_precedes_use(tx@.instructions),
{
    let mut instructions: Vec<Instruction> = Vec::new();
    instructions.push(crate::system::transfer(payer, receiver, amount));
    let mut signers: Vec<Address> = Vec::new();
    signers.push(*payer);
    proof {
        let plan = transfer_plan(payer@, receiver@, amount);
        assert(instructions_view(instructions@) =~= plan);
        assert(addresses_view(signers@) =~= seq![payer@]);
        lemma_required_single(plan, payer@);
        assert(plan.skip(1) =~= Seq::empty());
        lemma_creation_first_is_ordered(plan);
    }
    assemble(instructions, *payer, &signers, recent_blockhash).unwrap()
}

/// Assembles the transaction that creates `new_receiver_account` and then transfers
/// `transfer_amount` to it, both paid for by `payer`. Both sign.
pub fn create_acc_transfer(
    payer: &Address,
    new_receiver_account: &Address,
    space: u64,
    rent: u64,
    transfer_amount: u64,
    recent_blockhash: Blockhash,
) -> (tx: Transaction)
    ensures
        tx@ == (TransactionView {
            instructions: create_acc_transfer_plan(
                payer@,
                new_receiver_account@,
                space,
                rent,
                transfer_amount,
            ),
            fee_payer: payer@,
            recent_blockhash: recent_blockhash@,
            signers: noted(seq![payer@], new_receiver_account@),
        }),
        creation_precedes_use(tx@.instructions),
{
    let mut instructions: Vec<Instruction> = Vec::new();
    instructions.push(
        crate::system::create_account(
            payer,
            new_receiver_account,
            rent,
            space,
            &Address(SYSTEM_PROGRAM_ID),
        ),
    );
    instructions.push(crate::system::transfer(payer, new_receiver_account, transfer_amount));
    let mut signers: Vec<Address> = Vec::new();
    signers.push(*payer);
    signers.push(*new_receiver_account);
    proof {
        let plan = create_acc_transfer_plan(
            payer@,
            new_receiver_account@,
            space,
            rent,
            transfer_amount,
        );
        assert(instructions_view(instructions@) =~= plan);
        assert(addresses_view(signers@) =~= seq![payer@, new_receiver_account@]);
        assert(plan[0].accounts[1].is_signer);
        lemma_required_pair(plan, payer@, new_receiver_account@);
        lemma_transfer_creates_nothing(payer@, new_receiver_account@, transfer_amount);
        assert(creates_nothing(plan.skip(1)));
        lemma_creation_first_is_ordered(plan);
    }
    assemble(instructions, *payer, &signers, recent_blockhash).unwrap()
}

/// Assembles the transaction that creates `new_receiver_account`, transfers
/// `transfer_new_acc` to it and `transfer_spec_acc` to `receiver_pubkey`, all paid for by
/// `payer`. The payer and the new account sign.
pub fn create_and_transfer(
    payer: &Address,
    new_receiver_account: &Address,
    receiver_pubkey: &Address,
    space: u64,
    rent: u64,
    transfer_new_acc: u64,
    transfer_spec_acc: u64,
    recent_blockhash: Blockhash,
) -> (tx: Transaction)
    ensures
        tx@ == (TransactionView {
            instructions: create_and_transfer_plan(
                payer@,
                new_receiver_account@,
                receiver_pubkey@,
                space,
                rent,
                transfer_new_acc,
                transfer_spec_acc,
            ),
            fee_payer: payer@,
            recent_blockhash: recent_blockhash@,
            signers: noted(seq![payer@], new_receiver_account@),
        }),
        creation_precedes_use(tx@.instructions),
{
    let mut instructions: Vec<Instruction> = Vec::new();
    instructions.push(
        crate::system::create_account(
            payer,
            new_receiver_account,
            rent,
            space,
            &Address(SYSTEM_PROGRAM_ID),
        ),
    );
    instructions.push(crate::system::transfer(payer, new_receiver_account, transfer_new_acc));
    instructions.push(crate::system::transfer(payer, receiver_pubkey, transfer_spec_acc));
    let mut signers: Vec<Address> = Vec::new();
    signers.push(*payer);
    signers.push(*new_receiver_account);
    proof {
        let plan = create_and_transfer_plan(
            payer@,
            new_receiver_account@,
            receiver_pubkey@,
            space,
            rent,
            transfer_new_acc,
            transfer_spec_acc,
        );
        assert(instructions_view(instructions@) =~= plan);
        assert(addresses_view(signers@) =~= seq![payer@, new_receiver_account@]);
        assert(plan[0].accounts[1].is_signer);
        lemma_required_pair(plan, payer@, new_receiver_account@);
        lemma_transfer_creates_nothing(payer@, new_receiver_account@, transfer_new_acc);
        lemma_transfer_creates_nothing(payer@, receiver_pubkey@, transfer_spec_acc);
        assert(creates_nothing(plan.skip(1)));
        lemma_creation_first_is_ordered(plan);
    }
    assemble(instructions, *payer, &signers, recent_blockhash).unwrap()
}

} // verus!
