//! Ledger instructions: a target program, ordered account references and an opaque payload.

use vstd::prelude::*;
use crate::address::Address;

verus! {

/// Mathematical model of an account reference.
pub struct AccountMetaView {
    pub pubkey: Seq<u8>,
    pub is_signer: bool,
    pub is_writable: bool,
}

/// Mathematical model of an instruction.
pub struct InstructionView {
    pub program_id: Seq<u8>,
    pub accounts: Seq<AccountMetaView>,
    pub data: Seq<u8>,
}

/// A reference to an account, with the access an instruction asks for.
#[derive(Clone, Copy, Debug, PartialEq, Eq)]
pub struct AccountMeta {
    pub pubkey: Address,
    pub is_signer: bool,
    pub is_writable: bool,
}

/// One atomic operation for a ledger program to execute. Once built it does not change.
#[derive(Debug, PartialEq, Eq)]
pub struct Instruction {
    program_id: Address,
    accounts: Vec<AccountMeta>,
    data: Vec<u8>,
}

impl View for AccountMeta {
    type V = AccountMetaView;

    open spec fn view(&self) -> AccountMetaView {
        AccountMetaView {
            pubkey: self.pubkey@,
            is_signer: self.is_signer,
            is_writable: self.is_writable,
        }
    }
}

impl View for Instruction {
    type V = InstructionView;

    closed spec fn view(&self) -> InstructionView {
        InstructionView {
            program_id: self.program_id@,
            accounts: metas_view(self.accounts@),
            data: self.data@,
        }
    }
}

impl Clone for Instruction {
    fn clone(&self) -> (copy: Instruction)
        ensures
            copy@ == self@,
    {
        let accounts = self.accounts.clone();
        let data = self.data.clone();
        assert(metas_view(accounts@) =~= metas_view(self.accounts@));
        assert(data@ =~= self.data@);
        Instruction { program_id: self.program_id, accounts, data }
    }
}

impl AccountMeta {
    /// A reference to the account at `pubkey` with the given access.
    pub fn new(pubkey: Address, is_signer: bool, is_writable: bool) -> (meta: AccountMeta)
        ensures
            meta == (AccountMeta { pubkey, is_signer, is_writable }),
    {
        AccountMeta { pubkey, is_signer, is_writable }
    }
}

impl Instruction {
    /// An instruction for `program_id` with the given account references and payload.
    pub fn new(program_id: Address, accounts: Vec<AccountMeta>, data: Vec<u8>) -> (ix: Instruction)
        ensures
            ix@ == (InstructionView {
                program_id: program_id@,
                accounts: metas_view(accounts@),
                data: data@,
            }),
    {
        Instruction { program_id, accounts, data }
    }

    /// The program that executes the instruction.
    pub fn program_id(&self) -> (program_id: Address)
        ensures
            program_id@ == self@.program_id,
    {
        self.program_id
    }

    /// The accounts that the instruction names, in order.
    pub fn accounts(&self) -> (accounts: &Vec<AccountMeta>)
        ensures
            metas_view(accounts@) == self@.accounts,
    {
        &self.accounts
    }

    /// The payload, which the program interprets.
    pub fn data(&self) -> (data: &Vec<u8>)
        ensures
            data@ == self@.data,
    {
        &self.data
    }
}

/// The models of a sequence of account references, in order.
pub open spec fn metas_view(metas: Seq<AccountMeta>) -> Seq<AccountMetaView> {
    metas.map_values(|m: AccountMeta| m@)
}

/// The models of a sequence of instructions, in order.
pub open spec fn instructions_view(instructions: Seq<Instruction>) -> Seq<InstructionView> {
    instructions.map_values(|ix: Instruction| ix@)
}

/// A writable account reference.
pub open spec fn writable(pubkey: Seq<u8>, is_signer: bool) -> AccountMetaView {
    AccountMetaView { pubkey, is_signer, is_writable: true }
}

/// A read-only account reference.
pub open spec fn readonly(pubkey: Seq<u8>, is_signer: bool) -> AccountMetaView {
    AccountMetaView { pubkey, is_signer, is_writable: false }
}

} // verus!
