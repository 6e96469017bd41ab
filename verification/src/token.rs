//! Instructions of the token, associated-token-account and token-metadata programs.

use vstd::prelude::*;
use vstd::bytes::{spec_u16_to_le_bytes, spec_u64_to_le_bytes};
use mpl_token_metadata::instructions::{
    CreateMetadataAccountV3, CreateMetadataAccountV3InstructionArgs,
};
use mpl_token_metadata::types::DataV2;
use solana_sdk::program_error::ProgramError;
use solana_sdk::pubkey::Pubkey;
use crate::address::{
    addresses_view, Address, ASSOCIATED_TOKEN_PROGRAM_ID, METADATA_PROGRAM_ID, RENT_SYSVAR_ID,
    SYSTEM_PROGRAM_ID, TOKEN_PROGRAM_ID,
};
use crate::deriver::{associated_address, associated_seeds, optional_view, seeds_view};
use crate::instruction::{
    readonly, writable, AccountMeta, AccountMetaView, Instruction, InstructionView,
};
use crate::wire::{text_bytes, text_fits, MAX_TEXT_LEN};

verus! {

/// Size in bytes of a mint account.
pub const MINT_LEN: usize = 82;

/// Why an instruction could not be built.
#[derive(Clone, Copy, Debug, PartialEq, Eq, Structural)]
pub enum BuildError {
    /// The program given is not the token program.
    IncorrectProgramId,
    /// No address off the signing curve is derived from the seeds.
    NoDerivedAddress,
    /// A text field is longer than its 32-bit length prefix can say.
    TextTooLong,
}

/// Declares `solana_sdk::program_error::ProgramError`, the error of the token program's
/// instruction builders. Nothing is claimed of what a value of it holds.
#[verifier::external_type_specification]
#[verifier::external_body]
pub struct ExProgramError(ProgramError);

/// An optional address on the wire: a presence byte, then the address if there is one.
pub open spec fn optional_address_bytes(address: Option<Seq<u8>>) -> Seq<u8> {
    match address {
        Some(a) => seq![1u8] + a,
        None => seq![0u8],
    }
}

/// The account references that name each extra signer, read-only.
pub open spec fn signer_metas(signers: Seq<Seq<u8>>) -> Seq<AccountMetaView> {
    signers.map_values(|s: Seq<u8>| readonly(s, true))
}

/// The initialize-mint instruction: the mint is written and the rent sysvar read; the
/// payload is the operation tag 0, the decimals, the mint authority and the optional
/// freeze authority.
pub open spec fn initialize_mint_spec(
    token_program: Seq<u8>,
    mint: Seq<u8>,
    mint_authority: Seq<u8>,
    freeze_authority: Option<Seq<u8>>,
    decimals: u8,
) -> InstructionView {
    InstructionView {
        program_id: token_program,
        accounts: seq![writable(mint, false), readonly(RENT_SYSVAR_ID@, false)],
        data: seq![0u8, decimals] + mint_authority + optional_address_bytes(freeze_authority),
    }
}

/// The mint-to instruction: the mint and the receiving account are written; the owner
/// signs itself only where no extra signers are named; the payload is the operation tag 7
/// and the amount.
pub open spec fn mint_to_spec(
    token_program: Seq<u8>,
    mint: Seq<u8>,
    account: Seq<u8>,
    owner: Seq<u8>,
    signers: Seq<Seq<u8>>,
    amount: u64,
) -> InstructionView {
    InstructionView {
        program_id: token_program,
        accounts: seq![
            writable(mint, false),
            writable(account, false),
            readonly(owner, signers.len() == 0),
        ] + signer_metas(signers),
        data: seq![7u8] + spec_u64_to_le_bytes(amount),
    }
}

/// The instruction that takes the mint authority away for good: the mint is written; the
/// payload is the operation tag 6, the authority kind 0 (minting) and an absent new authority.
pub open spec fn revoke_mint_authority_spec(
    token_program: Seq<u8>,
    mint: Seq<u8>,
    owner: Seq<u8>,
    signers: Seq<Seq<u8>>,
) -> InstructionView {
    InstructionView {
        program_id: token_program,
        accounts: seq![writable(mint, false), readonly(owner, signers.len() == 0)] + signer_metas(
            signers,
        ),
        data: seq![6u8, 0u8, 0u8],
    }
}

/// Calls `spl_token::instruction::initialize_mint`. The contract claims that the call fails
/// exactly when the program given is not the token program, and otherwise gives the account
/// references and the payload layout that the function's source builds.
#[verifier::external_body]
fn token_initialize_mint(
    token_program: &Address,
    mint: &Address,
    mint_authority: &Address,
    freeze_authority: Option<Address>,
    decimals: u8,
) -> (built: Result<Instruction, ProgramError>)
    ensures
        built is Ok <==> token_program@ == TOKEN_PROGRAM_ID@,
        built matches Ok(ix) ==> ix@ == initialize_mint_spec(
            token_program@,
            mint@,
            mint_authority@,
            optional_view(freeze_authority),
            decimals,
        ),
{
    let freeze: Option<Pubkey> = freeze_authority.map(|a| a.0.into());
    let ix = spl_token::instruction::initialize_mint(
        &token_program.0.into(), &mint.0.into(), &mint_authority.0.into(), freeze.as_ref(), decimals)?;
    let metas = ix.accounts.iter()
        .map(|m| AccountMeta::new(Address(m.pubkey.to_bytes()), m.is_signer, m.is_writable))
        .collect();
    Ok(Instruction::new(Address(ix.program_id.to_bytes()), metas, ix.data))
}

/// Calls `spl_token::instruction::mint_to`. The contract claims that the call fails exactly
/// when the program given is not the token program, and otherwise gives the account
/// references and the payload layout that the function's source builds.
#[verifier::external_body]
fn token_mint_to(
    token_program: &Address,
    mint: &Address,
    account: &Address,
    owner: &Address,
    signers: &Vec<Address>,
    amount: u64,
) -> (built: Result<Instruction, ProgramError>)
    ensures
        built is Ok <==> token_program@ == TOKEN_PROGRAM_ID@,
        built matches Ok(ix) ==> ix@ == mint_to_spec(
            token_program@,
            mint@,
            account@,
            owner@,
            addresses_view(signers@),
            amount,
        ),
{
    let keys: Vec<Pubkey> = signers.iter().map(|s| s.0.into()).collect();
    let refs: Vec<&Pubkey> = keys.iter().collect();
    let ix = spl_token::instruction::mint_to(
        &token_program.0.into(), &mint.0.into(), &account.0.into(), &owner.0.into(), &refs, amount)?;
    let metas = ix.accounts.iter()
        .map(|m| AccountMeta::new(Address(m.pubkey.to_bytes()), m.is_signer, m.is_writable))
        .collect();
    Ok(Instruction::new(Address(ix.program_id.to_bytes()), metas, ix.data))
}

/// Calls `spl_token::instruction::set_authority` for the minting authority, with no new
/// authority. The contract claims that the call fails exactly when the program given is not
/// the token program, and otherwise gives the account references and the payload layout
/// that the function's source builds.
#[verifier::external_body]
fn token_revoke_mint_authority(
    token_program: &Address,
    mint: &Address,
    owner: &Address,
    signers: &Vec<Address>,
) -> (built: Result<Instruction, ProgramError>)
    ensures
        built is Ok <==> token_program@ == TOKEN_PROGRAM_ID@,
        built matches Ok(ix) ==> ix@ == revoke_mint_authority_spec(
            token_program@,
            mint@,
            owner@,
            addresses_view(signers@),
        ),
{
    let keys: Vec<Pubkey> = signers.iter().map(|s| s.0.into()).collect();
    let refs: Vec<&Pubkey> = keys.iter().collect();
    let kind = spl_token::instruction::AuthorityType::MintTokens;
    let ix = spl_token::instruction::set_authority(
        &token_program.0.into(), &mint.0.into(), None, kind, &owner.0.into(), &refs)?;
    let metas = ix.accounts.iter()
        .map(|m| AccountMeta::new(Address(m.pubkey.to_bytes()), m.is_signer, m.is_writable))
        .collect();
    Ok(Instruction::new(Address(ix.program_id.to_bytes()), metas, ix.data))
}

/// Builds the instruction that initializes `mint` with the given authorities and decimals.
/// Fails exactly when `token_program` is not the token program.
pub fn initialize_mint(
    token_program: &Address,
    mint: &Address,
    mint_authority: &Address,
    freeze_authority: Option<Address>,
    decimals: u8,
) -> (built: Result<Instruction, BuildError>)
    ensures
        built is Ok <==> token_program@ == TOKEN_PROGRAM_ID@,
        built matches Ok(ix) ==> ix@ == initialize_mint_spec(
            token_program@,
            mint@,
            mint_authority@,
            optional_view(freeze_authority),
            decimals,
        ),
        built matches Err(e) ==> e == BuildError::IncorrectProgramId,
{
    match token_initialize_mint(token_program, mint, mint_authority, freeze_authority, decimals) {
        Ok(ix) => Ok(ix),
        Err(_) => Err(BuildError::IncorrectProgramId),
    }
}

/// Builds the instruction that mints `amount` units of `mint` into `account`, authorized by
/// `owner` and the extra `signers`. Fails exactly when `token_program` is not the token program.
pub fn mint_to(
    token_program: &Address,
    mint: &Address,
    account: &Address,
    owner: &Address,
    signers: &Vec<Address>,
    amount: u64,
) -> (built: Result<Instruction, BuildError>)
    ensures
        built is Ok <==> token_program@ == TOKEN_PROGRAM_ID@,
        built matches Ok(ix) ==> ix@ == mint_to_spec(
            token_program@,
            mint@,
            account@,
            owner@,
            addresses_view(signers@),
            amount,
        ),
        built matches Err(e) ==> e == BuildError::IncorrectProgramId,
{
    match token_mint_to(token_program, mint, account, owner, signers, amount) {
        Ok(ix) => Ok(ix),
        Err(_) => Err(BuildError::IncorrectProgramId),
    }
}

/// Builds the instruction that removes the minting authority of `mint` for good, authorized
/// by `owner` and the extra `signers`. Fails exactly when `token_program` is not the token
/// program.
pub fn revoke_mint_authority(
    token_program: &Address,
    mint: &Address,
    owner: &Address,
    signers: &Vec<Address>,
) -> (built: Result<Instruction, BuildError>)
    ensures
        built is Ok <==> token_program@ == TOKEN_PROGRAM_ID@,
        built matches Ok(ix) ==> ix@ == revoke_mint_authority_spec(
            token_program@,
            mint@,
            owner@,
            addresses_view(signers@),
        ),
        built matches Err(e) ==> e == BuildError::IncorrectProgramId,
{
    match token_revoke_mint_authority(token_program, mint, owner, signers) {
        Ok(ix) => Ok(ix),
        Err(_) => Err(BuildError::IncorrectProgramId),
    }
}

/// Calls `spl_associated_token_account::get_associated_token_address`. The contract claims
/// that the result is the address derived for the associated-token-account program from the
/// wallet, the token program and the mint, in that order. The call panics where no address
/// is derived, so the contract asks that one is.
#[verifier::external_body]
fn associated_token_address(wallet: &Address, mint: &Address) -> (address: Address)
    requires
        associated_address(wallet@, TOKEN_PROGRAM_ID@, mint@) is Some,
    ensures
        Some(address@) == associated_address(wallet@, TOKEN_PROGRAM_ID@, mint@),
{
    Address(
        spl_associated_token_account::get_associated_token_address(&wallet.0.into(), &mint.0.into())
            .to_bytes(),
    )
}

/// The address of the token account associated with `wallet` for `mint` under the token
/// program, or `None` where none is derived.
pub fn get_associated_token_address(wallet: &Address, mint: &Address) -> (found: Option<Address>)
    ensures
        optional_view(found) == associated_address(wallet@, TOKEN_PROGRAM_ID@, mint@),
{
    if has_associated_address(wallet, &Address(TOKEN_PROGRAM_ID), mint) {
        Some(associated_token_address(wallet, mint))
    } else {
        None
    }
}

/// Whether an address is derived for the token account associated with `wallet` for `mint`
/// under `token_program`.
pub fn has_associated_address(
    wallet: &Address,
    token_program: &Address,
    mint: &Address,
) -> (derivable: bool)
    ensures
        derivable == associated_address(wallet@, token_program@, mint@) is Some,
{
    let mut seeds: Vec<Vec<u8>> = Vec::new();
    seeds.push(wallet.to_vec());
    seeds.push(token_program.to_vec());
    seeds.push(mint.to_vec());
    assert(seeds_view(seeds@) =~= associated_seeds(wallet@, token_program@, mint@));
    crate::deriver::derive(&seeds, &Address(ASSOCIATED_TOKEN_PROGRAM_ID)).is_some()
}

/// The instruction that creates the token account associated with `wallet` for `mint`:
/// the funder signs and is written, the new account at `associated` is written, and the
/// wallet, the mint, the system program and the token program are read; the payload is the
/// operation tag 0.
pub open spec fn create_associated_token_account_spec(
    funder: Seq<u8>,
    associated: Seq<u8>,
    wallet: Seq<u8>,
    mint: Seq<u8>,
    token_program: Seq<u8>,
) -> InstructionView {
    InstructionView {
        program_id: ASSOCIATED_TOKEN_PROGRAM_ID@,
        accounts: seq![
            writable(funder, true),
            writable(associated, false),
            readonly(wallet, false),
            readonly(mint, false),
            readonly(SYSTEM_PROGRAM_ID@, false),
            readonly(token_program, false),
        ],
        data: seq![0u8],
    }
}

/// Calls `spl_associated_token_account::instruction::create_associated_token_account`. The
/// contract claims the account references and the payload that the function's source
/// builds, the new account's address being the one derived from the wallet, the token
/// program and the mint. The call panics where no address is derived, so the contract asks
/// that one is.
#[verifier::external_body]
fn associated_create(
    funder: &Address,
    wallet: &Address,
    mint: &Address,
    token_program: &Address,
) -> (ix: Instruction)
    requires
        associated_address(wallet@, token_program@, mint@) is Some,
    ensures
        ix@ == create_associated_token_account_spec(
            funder@,
            associated_address(wallet@, token_program@, mint@)->0,
            wallet@,
            mint@,
            token_program@,
        ),
{
    let ix = spl_associated_token_account::instruction::create_associated_token_account(
        &funder.0.into(), &wallet.0.into(), &mint.0.into(), &token_program.0.into());
    let metas = ix.accounts.iter()
        .map(|m| AccountMeta::new(Address(m.pubkey.to_bytes()), m.is_signer, m.is_writable))
        .collect();
    Instruction::new(Address(ix.program_id.to_bytes()), metas, ix.data)
}

/// Builds the instruction that creates the token account associated with `wallet` for
/// `mint`, paid for by `funder`.
pub fn create_associated_token_account(
    funder: &Address,
    wallet: &Address,
    mint: &Address,
    token_program: &Address,
) -> (ix: Instruction)
    requires
        associated_address(wallet@, token_program@, mint@) is Some,
    ensures
        ix@ == create_associated_token_account_spec(
            funder@,
            associated_address(wallet@, token_program@, mint@)->0,
            wallet@,
            mint@,
            token_program@,
        ),
{
    associated_create(funder, wallet, mint, token_program)
}

/// Builds the instruction that creates the token account associated with `wallet` for
/// `mint`, paid for by `funder`, or fails where no address is derived for that account.
pub fn try_create_associated_token_account(
    funder: &Address,
    wallet: &Address,
    mint: &Address,
    token_program: &Address,
) -> (built: Result<Instruction, BuildError>)
    ensures
        built is Ok <==> associated_address(wallet@, token_program@, mint@) is Some,
        built matches Ok(ix) ==> ix@ == create_associated_token_account_spec(
            funder@,
            associated_address(wallet@, token_program@, mint@)->0,
            wallet@,
            mint@,
            token_program@,
        ),
        built matches Err(e) ==> e == BuildError::NoDerivedAddress,
{
    if has_associated_address(wallet, token_program, mint) {
        Ok(create_associated_token_account(funder, wallet, mint, token_program))
    } else {
        Err(BuildError::NoDerivedAddress)
    }
}

/// A flag on the wire: one byte, 1 for true.
pub open spec fn flag_byte(flag: bool) -> u8 {
    if flag {
        1u8
    } else {
        0u8
    }
}

/// The descriptive fields attached to a mint.
pub struct MetadataView {
    pub name: Seq<char>,
    pub symbol: Seq<char>,
    pub uri: Seq<char>,
    pub seller_fee_basis_points: u16,
    pub is_mutable: bool,
}

/// The payload of a create-metadata instruction: the operation tag 33, the three text
/// fields, the fee, three absent options (creators, collection, uses), the mutability flag
/// and an absent collection-details option.
pub open spec fn create_metadata_data(fields: MetadataView) -> Seq<u8> {
    seq![33u8] + text_bytes(fields.name) + text_bytes(fields.symbol) + text_bytes(fields.uri)
        + spec_u16_to_le_bytes(fields.seller_fee_basis_points) + seq![0u8, 0u8, 0u8] + seq![
        flag_byte(fields.is_mutable),
        0u8,
    ]
}

/// The create-metadata instruction: the metadata account is written, the mint read, the
/// mint authority signs, the payer signs and is written, the update authority signs where
/// asked, and the system program is read.
pub open spec fn create_metadata_account_v3_spec(
    metadata: Seq<u8>,
    mint: Seq<u8>,
    mint_authority: Seq<u8>,
    payer: Seq<u8>,
    update_authority: Seq<u8>,
    update_authority_signs: bool,
    system_program: Seq<u8>,
    fields: MetadataView,
) -> InstructionView {
    InstructionView {
        program_id: METADATA_PROGRAM_ID@,
        accounts: seq![
            writable(metadata, false),
            readonly(mint, false),
            readonly(mint_authority, true),
            writable(payer, true),
            readonly(update_authority, update_authority_signs),
            readonly(system_program, false),
        ],
        data: create_metadata_data(fields),
    }
}

/// The accounts that a create-metadata instruction names.
pub struct MetadataAccounts {
    pub metadata: Address,
    pub mint: Address,
    pub mint_authority: Address,
    pub payer: Address,
    pub update_authority: Address,
    pub update_authority_signs: bool,
    pub system_program: Address,
}

/// The descriptive fields that a create-metadata instruction carries.
pub struct MetadataFields {
    pub name: String,
    pub symbol: String,
    pub uri: String,
    pub seller_fee_basis_points: u16,
    pub is_mutable: bool,
}

impl View for MetadataFields {
    type V = MetadataView;

    open spec fn view(&self) -> MetadataView {
        MetadataView {
            name: self.name@,
            symbol: self.symbol@,
            uri: self.uri@,
            seller_fee_basis_points: self.seller_fee_basis_points,
            is_mutable: self.is_mutable,
        }
    }
}

/// Whether each text field fits its 32-bit length prefix.
pub open spec fn texts_fit(fields: MetadataView) -> bool {
    &&& text_fits(fields.name)
    &&& text_fits(fields.symbol)
    &&& text_fits(fields.uri)
}

/// Calls `mpl_token_metadata::instructions::CreateMetadataAccountV3::instruction`, with no
/// rent account, creators, collection, uses or collection details. The contract claims the
/// account references and the payload layout that the function's source builds. The call
/// panics on a text longer than its length prefix can say, so the contract leaves those out.
#[verifier::external_body]
fn metadata_create_v3(
    metadata: &Address,
    mint: &Address,
    mint_authority: &Address,
    payer: &Address,
    update_authority: &Address,
    update_authority_signs: bool,
    system_program: &Address,
    name: String,
    symbol: String,
    uri: String,
    seller_fee_basis_points: u16,
    is_mutable: bool,
) -> (ix: Instruction)
    requires
        texts_fit(
            MetadataView {
                name: name@,
                symbol: symbol@,
                uri: uri@,
                seller_fee_basis_points,
                is_mutable,
            },
        ),
    ensures
        ix@ == create_metadata_account_v3_spec(
            metadata@,
            mint@,
            mint_authority@,
            payer@,
            update_authority@,
            update_authority_signs,
            system_program@,
            MetadataView {
                name: name@,
                symbol: symbol@,
                uri: uri@,
                seller_fee_basis_points,
                is_mutable,
            },
        ),
{
    let data = DataV2 { name, symbol, uri, seller_fee_basis_points, creators: None, collection: None, uses: None };
    let ix = CreateMetadataAccountV3 {
        metadata: metadata.0.into(), mint: mint.0.into(),
        mint_authority: mint_authority.0.into(), payer: payer.0.into(),
        update_authority: (update_authority.0.into(), update_authority_signs),
        system_program: system_program.0.into(), rent: None,
    }.instruction(CreateMetadataAccountV3InstructionArgs { data, is_mutable, collection_details: None });
    let metas = ix.accounts.iter()
        .map(|m| AccountMeta::new(Address(m.pubkey.to_bytes()), m.is_signer, m.is_writable))
        .collect();
    Instruction::new(Address(ix.program_id.to_bytes()), metas, ix.data)
}

/// Whether a text is no longer in bytes than a 32-bit length prefix can say.
fn fits_prefix(text: &String) -> (fits: bool)
    ensures
        fits == text_fits(text@),
{
    text.as_str().as_bytes().len() <= MAX_TEXT_LEN
}

impl MetadataFields {
    /// Whether each text field fits its 32-bit length prefix.
    pub fn fits(&self) -> (fits: bool)
        ensures
            fits == texts_fit(self@),
    {
        fits_prefix(&self.name) && fits_prefix(&self.symbol) && fits_prefix(&self.uri)
    }
}

/// Builds the instruction that attaches the descriptive fields to a mint. Fails exactly when
/// a text field is longer in bytes than its 32-bit length prefix can say; no other property
/// of the texts is examined.
pub fn create_metadata_account_v3(
    accounts: &MetadataAccounts,
    fields: &MetadataFields,
) -> (built: Result<
    Instruction,
    BuildError,
>)
    ensures
        built is Ok <==> texts_fit(fields@),
        built matches Ok(ix) ==> ix@ == create_metadata_account_v3_spec(
            accounts.metadata@,
            accounts.mint@,
            accounts.mint_authority@,
            accounts.payer@,
            accounts.update_authority@,
            accounts.update_authority_signs,
            accounts.system_program@,
            fields@,
        ),
        built matches Err(e) ==> e == BuildError::TextTooLong,
{
    if fields.fits() {
        Ok(
            metadata_create_v3(
                &accounts.metadata,
                &accounts.mint,
                &accounts.mint_authority,
                &accounts.payer,
                &accounts.update_authority,
                accounts.update_authority_signs,
                &accounts.system_program,
                fields.name.clone(),
                fields.symbol.clone(),
                fields.uri.clone(),
                fields.seller_fee_basis_points,
                fields.is_mutable,
            ),
        )
    } else {
        Err(BuildError::TextTooLong)
    }
}

} // verus!
