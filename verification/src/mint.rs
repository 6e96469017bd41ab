//! The minting pipeline: a new mint with its metadata, the payer's associated token account
//! where the ledger does not hold it yet, the first units and, for a one-of-a-kind asset, the
//! end of all further minting.

use vstd::prelude::*;
use vstd::string::StringExecFns;
use crate::address::{
    addresses_view, lemma_well_known_addresses_differ, Address, ASSOCIATED_TOKEN_PROGRAM_ID,
    RENT_SYSVAR_ID, SYSTEM_PROGRAM_ID, TOKEN_PROGRAM_ID,
};
use crate::deriver::{associated_address, find_metadata_address, metadata_address};
use crate::instruction::{instructions_view, Instruction, InstructionView};
use crate::policy::{
    created_account, creation_precedes_use, followed_by, lemma_push_keeps_order,
    lemma_push_keeps_unreferenced, references,
};
use crate::system::create_account_spec;
use crate::token::{
    create_associated_token_account_spec, create_metadata_account_v3_spec, initialize_mint_spec,
    mint_to_spec, revoke_mint_authority_spec, texts_fit, BuildError, MetadataAccounts,
    MetadataFields, MetadataView, MINT_LEN,
};
use crate::transaction::{
    assemble, flagged_signer, lemma_push_keeps_flagged, lemma_push_keeps_signers_among,
    lemma_required_pair, noted, signers_among, Blockhash, Transaction, TransactionView,
};

verus! {

/// Mathematical model of a minting request.
pub struct MintRequestView {
    pub decimals: u8,
    pub amount: u64,
    pub metadata: MetadataView,
    pub revoke_mint_authority: bool,
}

/// What to mint: the decimals of the mint, the units minted to the payer, the descriptive
/// fields, and whether the minting authority is given up afterwards.
pub struct MintRequest {
    pub decimals: u8,
    pub amount: u64,
    pub metadata: MetadataFields,
    pub revoke_mint_authority: bool,
}

impl View for MintRequest {
    type V = MintRequestView;

    open spec fn view(&self) -> MintRequestView {
        MintRequestView {
            decimals: self.decimals,
            amount: self.amount,
            metadata: self.metadata@,
            revoke_mint_authority: self.revoke_mint_authority,
        }
    }
}

/// The descriptive fields of the test token, with the given fee.
pub open spec fn test_token_fields(seller_fee_basis_points: u16) -> MetadataView {
    MetadataView {
        name: "Test Token"@,
        symbol: "TT"@,
        uri: "https://raw.githubusercontent.com/hoang-nguyen-huy/fptu-solana-bootcamp/main/assets/tt-token.json"@,
        seller_fee_basis_points,
        is_mutable: true,
    }
}

/// Builds the descriptive fields of the test token, with the given fee.
fn test_token(seller_fee_basis_points: u16) -> (fields: MetadataFields)
    ensures
        fields@ == test_token_fields(seller_fee_basis_points),
{
    MetadataFields {
        name: String::from_str("Test Token"),
        symbol: String::from_str("TT"),
        uri: String::from_str(
            "https://raw.githubusercontent.com/hoang-nguyen-huy/fptu-solana-bootcamp/main/assets/tt-token.json",
        ),
        seller_fee_basis_points,
        is_mutable: true,
    }
}

impl MintRequest {
    /// The fungible test token: six decimals, 100 units, no fee, minting stays possible.
    pub fn fungible() -> (request: MintRequest)
        ensures
            request@ == (MintRequestView {
                decimals: 6,
                amount: 100,
                metadata: test_token_fields(0),
                revoke_mint_authority: false,
            }),
    {
        MintRequest {
            decimals: 6,
            amount: 100,
            metadata: test_token(0),
            revoke_mint_authority: false,
        }
    }

    /// The one-of-a-kind test token: no decimals, one unit, a fee of 1000 basis points, and
    /// no minting afterwards.
    pub fn non_fungible() -> (request: MintRequest)
        ensures
            request@ == (MintRequestView {
                decimals: 0,
                amount: 1,
                metadata: test_token_fields(1000),
                revoke_mint_authority: true,
            }),
    {
        MintRequest {
            decimals: 0,
            amount: 1,
            metadata: test_token(1000),
            revoke_mint_authority: true,
        }
    }
}

/// The instruction that creates the mint account, owned by the token program.
pub open spec fn create_mint_step(payer: Seq<u8>, mint: Seq<u8>, rent: u64) -> InstructionView {
    create_account_spec(payer, mint, rent, MINT_LEN as u64, TOKEN_PROGRAM_ID@)
}

/// The instruction that initializes the mint: the payer may mint, the mint itself may freeze.
pub open spec fn initialize_mint_step(
    payer: Seq<u8>,
    mint: Seq<u8>,
    decimals: u8,
) -> InstructionView {
    initialize_mint_spec(TOKEN_PROGRAM_ID@, mint, payer, Some(mint), decimals)
}

/// The instruction that creates the metadata account: the payer is mint authority, payer
/// and signing update authority.
pub open spec fn create_metadata_step(
    payer: Seq<u8>,
    mint: Seq<u8>,
    metadata: Seq<u8>,
    fields: MetadataView,
) -> InstructionView {
    create_metadata_account_v3_spec(
        metadata,
        mint,
        payer,
        payer,
        payer,
        true,
        SYSTEM_PROGRAM_ID@,
        fields,
    )
}

/// The instruction that creates the payer's associated token account.
pub open spec fn create_associated_step(
    payer: Seq<u8>,
    mint: Seq<u8>,
    associated: Seq<u8>,
) -> InstructionView {
    create_associated_token_account_spec(payer, associated, payer, mint, TOKEN_PROGRAM_ID@)
}

/// The instruction that mints to the payer's associated token account.
pub open spec fn mint_to_step(
    payer: Seq<u8>,
    mint: Seq<u8>,
    associated: Seq<u8>,
    amount: u64,
) -> InstructionView {
    mint_to_spec(TOKEN_PROGRAM_ID@, mint, associated, payer, seq![payer], amount)
}

/// The instruction that gives up the minting authority.
pub open spec fn revoke_step(payer: Seq<u8>, mint: Seq<u8>) -> InstructionView {
    revoke_mint_authority_spec(TOKEN_PROGRAM_ID@, mint, payer, seq![payer, mint])
}

/// The instructions of a minting transaction, in their fixed order: create the mint account,
/// initialize the mint, create the metadata, create the associated token account unless the
/// ledger holds it already, mint, and give up the minting authority where asked.
pub open spec fn mint_plan(
    payer: Seq<u8>,
    mint: Seq<u8>,
    metadata: Seq<u8>,
    associated: Seq<u8>,
    request: MintRequestView,
    rent: u64,
    associated_exists: bool,
) -> Seq<InstructionView> {
    let created = seq![create_mint_step(payer, mint, rent)];
    let initialized = created.push(initialize_mint_step(payer, mint, request.decimals));
    let described = initialized.push(create_metadata_step(payer, mint, metadata, request.metadata));
    let held = followed_by(
        described,
        !associated_exists,
        create_associated_step(payer, mint, associated),
    );
    let minted = held.push(mint_to_step(payer, mint, associated, request.amount));
    followed_by(minted, request.revoke_mint_authority, revoke_step(payer, mint))
}

/// Whether the accounts that a minting transaction creates after the mint are named by no
/// instruction before the one that creates them: the metadata account is neither the payer,
/// the mint nor the rent sysvar, and the associated token account, where the transaction
/// creates it, is none of these, nor the metadata account, nor the system program.
pub open spec fn fresh_accounts(
    payer: Seq<u8>,
    mint: Seq<u8>,
    metadata: Seq<u8>,
    associated: Seq<u8>,
    associated_exists: bool,
) -> bool {
    &&& metadata != payer
    &&& metadata != mint
    &&& metadata != RENT_SYSVAR_ID@
    &&& !associated_exists ==> {
        &&& associated != payer
        &&& associated != mint
        &&& associated != metadata
        &&& associated != RENT_SYSVAR_ID@
        &&& associated != SYSTEM_PROGRAM_ID@
    }
}

/// Adds `ix` at the end of `instructions`.
fn push_instruction(instructions: &mut Vec<Instruction>, ix: Instruction)
    ensures
        instructions_view(final(instructions)@) == instructions_view(old(instructions)@).push(ix@),
{
    instructions.push(ix);
    assert(instructions_view(instructions@) =~= instructions_view(old(instructions)@).push(ix@));
}

/// Builds the instructions of a minting transaction. `rent` is the rent-exempt balance of a
/// mint account and `associated_exists` says whether the ledger already holds the payer's
/// associated token account, at `associated`. Fails exactly when a text of the metadata is
/// longer than its length prefix can say.
pub fn mint_instructions(
    payer: &Address,
    mint_account: &Address,
    metadata: &Address,
    associated: &Address,
    request: &MintRequest,
    rent: u64,
    associated_exists: bool,
) -> (built: Result<Vec<Instruction>, BuildError>)
    requires
        associated_address(payer@, TOKEN_PROGRAM_ID@, mint_account@) == Some(associated@),
    ensures
        built is Ok <==> texts_fit(request@.metadata),
        built matches Ok(instructions) ==> instructions_view(instructions@) == mint_plan(
            payer@,
            mint_account@,
            metadata@,
            associated@,
            request@,
            rent,
            associated_exists,
        ),
        built matches Err(e) ==> e == BuildError::TextTooLong,
{
    let token_program = Address(TOKEN_PROGRAM_ID);
    let create_mint_account = crate::system::create_account(
        payer,
        mint_account,
        rent,
        MINT_LEN as u64,
        &token_program,
    );
    let init_mint_account = crate::token::initialize_mint(
        &token_program,
        mint_account,
        payer,
        Some(*mint_account),
        request.decimals,
    ).unwrap();
    let accounts = MetadataAccounts {
        metadata: *metadata,
        mint: *mint_account,
        mint_authority: *payer,
        payer: *payer,
        update_authority: *payer,
        update_authority_signs: true,
        system_program: Address(SYSTEM_PROGRAM_ID),
    };
    let create_metadata_account = match crate::token::create_metadata_account_v3(
        &accounts,
        &request.metadata,
    ) {
        Ok(ix) => ix,
        Err(e) => {
            return Err(e);
        },
    };
    let mut owner: Vec<Address> = Vec::new();
    owner.push(*payer);
    assert(addresses_view(owner@) =~= seq![payer@]);
    let mint_to_account = crate::token::mint_to(
        &token_program,
        mint_account,
        associated,
        payer,
        &owner,
        request.amount,
    ).unwrap();

    let mut instructions: Vec<Instruction> = Vec::new();
    assert(instructions_view(instructions@) =~= Seq::empty());
    push_instruction(&mut instructions, create_mint_account);
    assert(instructions_view(instructions@) =~= seq![
        create_mint_step(payer@, mint_account@, rent),
    ]);
    push_instruction(&mut instructions, init_mint_account);
    push_instruction(&mut instructions, create_metadata_account);
    if !associated_exists {
        let create_associated = crate::token::create_associated_token_account(
            payer,
            payer,
            mint_account,
            &token_program,
        );
        push_instruction(&mut instructions, create_associated);
    }
    push_instruction(&mut instructions, mint_to_account);
    if request.revoke_mint_authority {
        let mut both: Vec<Address> = Vec::new();
        both.push(*payer);
        both.push(*mint_account);
        assert(addresses_view(both@) =~= seq![payer@, mint_account@]);
        let remove_mint_authority = crate::token::revoke_mint_authority(
            &token_program,
            mint_account,
            payer,
            &both,
        ).unwrap();
        push_instruction(&mut instructions, remove_mint_authority);
    }
    Ok(instructions)
}

/// The payer and the mint are the only signers that a minting transaction flags, and it
/// flags the mint.
pub proof fn lemma_mint_plan_signers(
    payer: Seq<u8>,
    mint: Seq<u8>,
    metadata: Seq<u8>,
    associated: Seq<u8>,
    request: MintRequestView,
    rent: u64,
    associated_exists: bool,
)
    ensures
        signers_among(
            mint_plan(payer, mint, metadata, associated, request, rent, associated_exists),
            payer,
            mint,
        ),
        flagged_signer(
            mint_plan(payer, mint, metadata, associated, request, rent, associated_exists),
            mint,
        ),
{
    let create = create_mint_step(payer, mint, rent);
    let initialize = initialize_mint_step(payer, mint, request.decimals);
    let describe = create_metadata_step(payer, mint, metadata, request.metadata);
    let hold = create_associated_step(payer, mint, associated);
    let mint_to = mint_to_step(payer, mint, associated, request.amount);
    let revoke = revoke_step(payer, mint);
    let nothing = Seq::<InstructionView>::empty();
    let created = nothing.push(create);
    assert(created =~= seq![create]);
    lemma_push_keeps_signers_among(nothing, create, payer, mint);
    assert(created[0].accounts[1].is_signer);
    let initialized = created.push(initialize);
    lemma_push_keeps_signers_among(created, initialize, payer, mint);
    lemma_push_keeps_flagged(created, initialize, mint);
    let described = initialized.push(describe);
    lemma_push_keeps_signers_among(initialized, describe, payer, mint);
    lemma_push_keeps_flagged(initialized, describe, mint);
    let held = followed_by(described, !associated_exists, hold);
    if !associated_exists {
        lemma_push_keeps_signers_among(described, hold, payer, mint);
        lemma_push_keeps_flagged(described, hold, mint);
    }
    let minted = held.push(mint_to);
    lemma_push_keeps_signers_among(held, mint_to, payer, mint);
    lemma_push_keeps_flagged(held, mint_to, mint);
    if request.revoke_mint_authority {
        lemma_push_keeps_signers_among(minted, revoke, payer, mint);
        lemma_push_keeps_flagged(minted, revoke, mint);
    }
}

/// In a minting transaction every account is created before another instruction names it
/// exactly when the metadata account and the associated token account are named nowhere
/// before the instructions that create them.
pub proof fn lemma_mint_plan_ordered(
    payer: Seq<u8>,
    mint: Seq<u8>,
    metadata: Seq<u8>,
    associated: Seq<u8>,
    request: MintRequestView,
    rent: u64,
    associated_exists: bool,
)
    ensures
        creation_precedes_use(
            mint_plan(payer, mint, metadata, associated, request, rent, associated_exists),
        ) <==> fresh_accounts(payer, mint, metadata, associated, associated_exists),
{
    lemma_well_known_addresses_differ();
    let plan = mint_plan(payer, mint, metadata, associated, request, rent, associated_exists);
    let create = create_mint_step(payer, mint, rent);
    let initialize = initialize_mint_step(payer, mint, request.decimals);
    let describe = create_metadata_step(payer, mint, metadata, request.metadata);
    let hold = create_associated_step(payer, mint, associated);
    let mint_to = mint_to_step(payer, mint, associated, request.amount);
    let revoke = revoke_step(payer, mint);
    let nothing = Seq::<InstructionView>::empty();
    let created = nothing.push(create);
    let initialized = created.push(initialize);
    let described = initialized.push(describe);
    let held = followed_by(described, !associated_exists, hold);
    let minted = held.push(mint_to);
    assert(created =~= seq![create]);
    assert(created_account(initialize) is None);
    assert(created_account(describe) == Some(metadata));
    assert(created_account(hold) == Some(associated));
    assert(created_account(mint_to) is None);
    assert(created_account(revoke) is None);
    if fresh_accounts(payer, mint, metadata, associated, associated_exists) {
        lemma_push_keeps_order(nothing, create);
        lemma_push_keeps_unreferenced(nothing, create, metadata);
        lemma_push_keeps_order(created, initialize);
        lemma_push_keeps_unreferenced(created, initialize, metadata);
        lemma_push_keeps_order(initialized, describe);
        if !associated_exists {
            lemma_push_keeps_unreferenced(nothing, create, associated);
            lemma_push_keeps_unreferenced(created, initialize, associated);
            lemma_push_keeps_unreferenced(initialized, describe, associated);
            lemma_push_keeps_order(described, hold);
        }
        lemma_push_keeps_order(held, mint_to);
        if request.revoke_mint_authority {
            lemma_push_keeps_order(minted, revoke);
        }
    } else {
        // Some instruction names an account before the instruction that creates it.
        assert(plan[0] == create && plan[1] == initialize && plan[2] == describe);
        if metadata == payer {
            assert(create.accounts[0].pubkey == metadata);
            assert(references(plan[0], metadata));
        } else if metadata == mint {
            assert(create.accounts[1].pubkey == metadata);
            assert(references(plan[0], metadata));
        } else if metadata == RENT_SYSVAR_ID@ {
            assert(initialize.accounts[1].pubkey == metadata);
            assert(references(plan[1], metadata));
        } else {
            assert(plan[3] == hold);
            if associated == payer {
                assert(create.accounts[0].pubkey == associated);
                assert(references(plan[0], associated));
            } else if associated == mint {
                assert(create.accounts[1].pubkey == associated);
                assert(references(plan[0], associated));
            } else if associated == RENT_SYSVAR_ID@ {
                assert(initialize.accounts[1].pubkey == associated);
                assert(references(plan[1], associated));
            } else if associated == metadata {
                assert(describe.accounts[0].pubkey == associated);
                assert(references(plan[2], associated));
            } else {
                assert(describe.accounts[5].pubkey == associated);
                assert(references(plan[2], associated));
            }
        }
    }
}

/// Where the ledger already holds the associated token account, the minting transaction is
/// the one that would create it with that one instruction, the fourth, left out, and none
/// of its instructions is for the associated-token-account program.
pub proof fn lemma_existing_account_is_not_created(
    payer: Seq<u8>,
    mint: Seq<u8>,
    metadata: Seq<u8>,
    associated: Seq<u8>,
    request: MintRequestView,
    rent: u64,
)
    ensures
        mint_plan(payer, mint, metadata, associated, request, rent, true) == mint_plan(
            payer,
            mint,
            metadata,
            associated,
            request,
            rent,
            false,
        ).remove(3),
        mint_plan(payer, mint, metadata, associated, request, rent, false)[3]
            == create_associated_step(payer, mint, associated),
        forall|i: int|
            0 <= i < mint_plan(payer, mint, metadata, associated, request, rent, true).len() ==> (
            #[trigger] mint_plan(payer, mint, metadata, associated, request, rent, true)[i]).program_id
                != ASSOCIATED_TOKEN_PROGRAM_ID@,
{
    lemma_well_known_addresses_differ();
    let with = mint_plan(payer, mint, metadata, associated, request, rent, false);
    let without = mint_plan(payer, mint, metadata, associated, request, rent, true);
    assert(without =~= with.remove(3));
}

/// The accounts that a minting transaction creates besides the mint.
#[derive(Clone, Copy, Debug, PartialEq, Eq)]
pub struct MintAddresses {
    /// The metadata account of the mint.
    pub metadata: Address,
    /// The payer's associated token account for the mint.
    pub associated: Address,
}

/// The error of a minting request, if it has one: an address that is not derived, else a
/// text that is too long.
pub open spec fn mint_error(
    payer: Seq<u8>,
    mint: Seq<u8>,
    request: MintRequestView,
) -> Option<BuildError> {
    if metadata_address(mint) is None || associated_address(payer, TOKEN_PROGRAM_ID@, mint)
        is None {
        Some(BuildError::NoDerivedAddress)
    } else if !texts_fit(request.metadata) {
        Some(BuildError::TextTooLong)
    } else {
        None
    }
}

/// Checks a minting request before the ledger is asked anything, and derives the addresses
/// of the accounts that the transaction will create. Fails where no address is derived for
/// the metadata account or for the associated token account, and else where a text of the
/// metadata is longer than its length prefix can say.
pub fn prepare_mint(
    payer: &Address,
    mint_account: &Address,
    request: &MintRequest,
) -> (prepared: Result<
    MintAddresses,
    BuildError,
>)
    ensures
        prepared is Ok <==> mint_error(payer@, mint_account@, request@) is None,
        prepared matches Ok(addresses) ==> Some(addresses.metadata@) == metadata_address(
            mint_account@,
        ) && Some(addresses.associated@) == associated_address(
            payer@,
            TOKEN_PROGRAM_ID@,
            mint_account@,
        ),
        prepared matches Err(e) ==> Some(e) == mint_error(payer@, mint_account@, request@),
{
    let metadata = match find_metadata_address(mint_account) {
        Some(address) => address,
        None => {
            return Err(BuildError::NoDerivedAddress);
        },
    };
    let associated = match crate::token::get_associated_token_address(payer, mint_account) {
        Some(address) => address,
        None => {
            return Err(BuildError::NoDerivedAddress);
        },
    };
    if !request.metadata.fits() {
        return Err(BuildError::TextTooLong);
    }
    Ok(MintAddresses { metadata, associated })
}

/// Assembles the minting transaction for `mint_account`, paid for and owned by `payer`.
/// `rent` is the rent-exempt balance of a mint account and `associated_exists` says whether
/// the ledger already holds the payer's associated token account. The payer and the mint
/// sign. Fails exactly where [`prepare_mint`] fails, and with the same error.
pub fn mint_my_first_token(
    payer: &Address,
    mint_account: &Address,
    request: &MintRequest,
    rent: u64,
    associated_exists: bool,
    recent_blockhash: Blockhash,
) -> (assembled: Result<Transaction, BuildError>)
    ensures
        assembled is Ok <==> mint_error(payer@, mint_account@, request@) is None,
        assembled matches Ok(tx) ==> {
            let metadata = metadata_address(mint_account@)->0;
            let associated = associated_address(payer@, TOKEN_PROGRAM_ID@, mint_account@)->0;
            &&& tx@ == (TransactionView {
                instructions: mint_plan(
                    payer@,
                    mint_account@,
                    metadata,
                    associated,
                    request@,
                    rent,
                    associated_exists,
                ),
                fee_payer: payer@,
                recent_blockhash: recent_blockhash@,
                signers: noted(seq![payer@], mint_account@),
            })
            &&& creation_precedes_use(tx@.instructions) <==> fresh_accounts(
                payer@,
                mint_account@,
                metadata,
                associated,
                associated_exists,
            )
        },
        assembled matches Err(e) ==> Some(e) == mint_error(payer@, mint_account@, request@),
{
    let addresses = match prepare_mint(payer, mint_account, request) {
        Ok(addresses) => addresses,
        Err(e) => {
            return Err(e);
        },
    };
    let instructions = mint_instructions(
        payer,
        mint_account,
        &addresses.metadata,
        &addresses.associated,
        request,
        rent,
        associated_exists,
    ).unwrap();
    let mut signers: Vec<Address> = Vec::new();
    signers.push(*payer);
    signers.push(*mint_account);
    proof {
        let plan = mint_plan(
            payer@,
            mint_account@,
            addresses.metadata@,
            addresses.associated@,
            request@,
            rent,
            associated_exists,
        );
        assert(addresses_view(signers@) =~= seq![payer@, mint_account@]);
        lemma_mint_plan_signers(
            payer@,
            mint_account@,
            addresses.metadata@,
            addresses.associated@,
            request@,
            rent,
            associated_exists,
        );
        lemma_required_pair(plan, payer@, mint_account@);
        lemma_mint_plan_ordered(
            payer@,
            mint_account@,
            addresses.metadata@,
            addresses.associated@,
            request@,
            rent,
            associated_exists,
        );
    }
    Ok(assemble(instructions, *payer, &signers, recent_blockhash).unwrap())
}

} // verus!
