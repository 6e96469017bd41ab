//! Which instructions a transaction holds and in which order: an instruction that would
//! create an account that the ledger already holds is left out, and an account is created
//! before it is used.

use vstd::prelude::*;
use crate::address::{ASSOCIATED_TOKEN_PROGRAM_ID, METADATA_PROGRAM_ID, SYSTEM_PROGRAM_ID};
use crate::instruction::InstructionView;

verus! {

/// `plan`, followed by `ix` where it is included.
pub open spec fn followed_by(
    plan: Seq<InstructionView>,
    included: bool,
    ix: InstructionView,
) -> Seq<InstructionView> {
    if included {
        plan.push(ix)
    } else {
        plan
    }
}

/// The account that an instruction creates, if it creates one: the second account of a
/// system create-account and of a create-associated-account instruction, the first account
/// of a create-metadata instruction.
pub open spec fn created_account(ix: InstructionView) -> Option<Seq<u8>> {
    if ix.program_id == SYSTEM_PROGRAM_ID@ {
        if ix.accounts.len() >= 2 && ix.data.len() >= 4 && ix.data.take(4) == seq![
            0u8,
            0u8,
            0u8,
            0u8,
        ] {
            Some(ix.accounts[1].pubkey)
        } else {
            None
        }
    } else if ix.program_id == ASSOCIATED_TOKEN_PROGRAM_ID@ {
        if ix.accounts.len() >= 2 && ix.data == seq![0u8] {
            Some(ix.accounts[1].pubkey)
        } else {
            None
        }
    } else if ix.program_id == METADATA_PROGRAM_ID@ {
        if ix.accounts.len() >= 1 && ix.data.len() >= 1 && ix.data[0] == 33u8 {
            Some(ix.accounts[0].pubkey)
        } else {
            None
        }
    } else {
        None
    }
}

/// Whether an instruction names `account` among its account references.
pub open spec fn references(ix: InstructionView, account: Seq<u8>) -> bool {
    exists|k: int| 0 <= k < ix.accounts.len() && (#[trigger] ix.accounts[k]).pubkey == account
}

/// Whether no instruction of `plan` names `account`.
pub open spec fn unreferenced(plan: Seq<InstructionView>, account: Seq<u8>) -> bool {
    forall|i: int| 0 <= i < plan.len() ==> !references(#[trigger] plan[i], account)
}

/// Whether every instruction that creates an account stands before every other instruction
/// that names that account.
pub open spec fn creation_precedes_use(plan: Seq<InstructionView>) -> bool {
    forall|i: int, j: int|
        #![trigger plan[i], plan[j]]
        0 <= i < plan.len() && 0 <= j < plan.len() && i != j && created_account(plan[i]) is Some
            && references(plan[j], created_account(plan[i])->0) ==> i < j
}

/// Whether no instruction of `plan` creates an account.
pub open spec fn creates_nothing(plan: Seq<InstructionView>) -> bool {
    forall|i: int| 0 <= i < plan.len() ==> created_account(#[trigger] plan[i]) is None
}

/// An instruction may follow an ordered plan if the account it creates, if any, was not named
/// before.
pub proof fn lemma_push_keeps_order(plan: Seq<InstructionView>, ix: InstructionView)
    requires
        creation_precedes_use(plan),
        created_account(ix) matches Some(account) ==> unreferenced(plan, account),
    ensures
        creation_precedes_use(plan.push(ix)),
{
    let longer = plan.push(ix);
    assert forall|i: int, j: int|
        #![trigger longer[i], longer[j]]
        0 <= i < longer.len() && 0 <= j < longer.len() && i != j && created_account(longer[i])
            is Some && references(longer[j], created_account(longer[i])->0) implies i < j by {
        if i < plan.len() && j < plan.len() {
            assert(longer[i] == plan[i] && longer[j] == plan[j]);
        } else if i == plan.len() {
            assert(longer[j] == plan[j]);
        }
    }
}

/// An account that a plan does not name is not named after one more instruction that does
/// not name it.
pub proof fn lemma_push_keeps_unreferenced(
    plan: Seq<InstructionView>,
    ix: InstructionView,
    account: Seq<u8>,
)
    requires
        unreferenced(plan, account),
        !references(ix, account),
    ensures
        unreferenced(plan.push(ix), account),
{
    let longer = plan.push(ix);
    assert forall|i: int| 0 <= i < longer.len() implies !references(
        #[trigger] longer[i],
        account,
    ) by {
        if i < plan.len() {
            assert(longer[i] == plan[i]);
        }
    }
}

/// A plan whose only creating instruction stands first is ordered.
pub proof fn lemma_creation_first_is_ordered(plan: Seq<InstructionView>)
    requires
        plan.len() >= 1,
        creates_nothing(plan.skip(1)),
    ensures
        creation_precedes_use(plan),
{
    assert forall|i: int, j: int|
        #![trigger plan[i], plan[j]]
        0 <= i < plan.len() && 0 <= j < plan.len() && i != j && created_account(plan[i]) is Some
            && references(plan[j], created_account(plan[i])->0) implies i < j by {
        if i > 0 {
            assert(plan.skip(1)[i - 1] == plan[i]);
        }
    }
}

} // verus!
