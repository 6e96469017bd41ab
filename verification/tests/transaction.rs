use solana_bootcamp::address::Address;
use solana_bootcamp::instruction::{AccountMeta, Instruction};
use solana_bootcamp::system;
use solana_bootcamp::token;
use solana_bootcamp::address::TOKEN_PROGRAM_ID;
use solana_bootcamp::transaction::{
    assemble, collect_required_signers, contains_address, AssembleError, Blockhash,
};
use solana_sdk::message::Message;
use solana_sdk::pubkey::Pubkey;
use solana_sdk::signature::{Keypair, Signer};
use solana_sdk::signer::SignerError;

fn address(fill: u8) -> Address {
    Address([fill; 32])
}

fn raised(ix: &Instruction) -> solana_sdk::instruction::Instruction {
    solana_sdk::instruction::Instruction {
        program_id: Pubkey::new_from_array(ix.program_id().0),
        accounts: ix
            .accounts()
            .iter()
            .map(|m| solana_sdk::instruction::AccountMeta {
                pubkey: Pubkey::new_from_array(m.pubkey.0),
                is_signer: m.is_signer,
                is_writable: m.is_writable,
            })
            .collect(),
        data: ix.data().clone(),
    }
}

fn custom(metas: Vec<(u8, bool)>) -> Instruction {
    Instruction::new(
        address(200),
        metas
            .into_iter()
            .map(|(fill, is_signer)| AccountMeta { pubkey: address(fill), is_signer, is_writable: false })
            .collect(),
        vec![],
    )
}

#[test]
fn required_signers_are_the_payer_then_flagged_accounts_by_first_appearance() {
    let instructions = vec![
        custom(vec![(5, false), (3, true), (1, true)]),
        custom(vec![(4, true), (3, true), (5, false)]),
        custom(vec![]),
        custom(vec![(2, true), (4, true)]),
    ];
    assert_eq!(
        collect_required_signers(&instructions, &address(1)),
        vec![address(1), address(3), address(4), address(2)]
    );
}

#[test]
fn fee_payer_alone_is_required_without_instructions() {
    assert_eq!(collect_required_signers(&vec![], &address(9)), vec![address(9)]);
}

#[test]
fn assemble_accepts_exactly_the_required_signers_in_any_order() {
    let instructions = vec![system::create_account(&address(1), &address(2), 10, 0, &address(0))];
    let hash = Blockhash([7; 32]);
    let tx = assemble(instructions.clone(), address(1), &vec![address(2), address(1)], hash)
        .unwrap();
    assert_eq!(tx.signers(), &vec![address(1), address(2)]);
    assert_eq!(tx.fee_payer(), address(1));
    assert_eq!(tx.recent_blockhash(), hash);
    assert_eq!(tx.instructions(), &instructions);
    let again =
        assemble(instructions, address(1), &vec![address(1), address(2), address(1)], hash)
            .unwrap();
    assert_eq!(again.signers(), &vec![address(1), address(2)]);
}

#[test]
fn assemble_refuses_a_missing_signer() {
    let instructions = vec![system::create_account(&address(1), &address(2), 10, 0, &address(0))];
    let hash = Blockhash([7; 32]);
    assert_eq!(
        assemble(instructions.clone(), address(1), &vec![address(1)], hash).err(),
        Some(AssembleError::MissingSigner(address(2)))
    );
    assert_eq!(
        assemble(instructions.clone(), address(1), &vec![address(2)], hash).err(),
        Some(AssembleError::MissingSigner(address(1)))
    );
    assert_eq!(
        assemble(instructions, address(1), &vec![], hash).err(),
        Some(AssembleError::MissingSigner(address(1)))
    );
}

#[test]
fn assemble_refuses_an_unused_signer_first() {
    let instructions = vec![system::transfer(&address(1), &address(2), 10)];
    let hash = Blockhash([7; 32]);
    assert_eq!(
        assemble(instructions.clone(), address(1), &vec![address(1), address(2)], hash).err(),
        Some(AssembleError::UnexpectedSigner(address(2)))
    );
    assert_eq!(
        assemble(instructions, address(1), &vec![address(8), address(9)], hash).err(),
        Some(AssembleError::UnexpectedSigner(address(8)))
    );
}

#[test]
fn fee_payer_must_sign_even_where_no_instruction_names_it() {
    let instructions = vec![system::transfer(&address(1), &address(2), 10)];
    let hash = Blockhash([7; 32]);
    assert_eq!(
        assemble(instructions.clone(), address(3), &vec![address(1)], hash).err(),
        Some(AssembleError::MissingSigner(address(3)))
    );
    let tx = assemble(instructions, address(3), &vec![address(1), address(3)], hash).unwrap();
    assert_eq!(tx.signers(), &vec![address(3), address(1)]);
}

#[test]
fn every_instruction_kind_with_a_signer_needs_it() {
    let token_program = Address(TOKEN_PROGRAM_ID);
    let (payer, other) = (address(1), address(2));
    let hash = Blockhash([0; 32]);
    let fields = token::MetadataFields {
        name: "n".to_string(),
        symbol: "s".to_string(),
        uri: "u".to_string(),
        seller_fee_basis_points: 0,
        is_mutable: true,
    };
    let accounts = token::MetadataAccounts {
        metadata: address(4),
        mint: address(5),
        mint_authority: other,
        payer,
        update_authority: payer,
        update_authority_signs: true,
        system_program: address(0),
    };
    let kinds = vec![
        system::create_account(&payer, &other, 1, 0, &address(0)),
        system::transfer(&other, &payer, 1),
        token::create_metadata_account_v3(&accounts, &fields).unwrap(),
        token::try_create_associated_token_account(&other, &payer, &address(5), &token_program)
            .unwrap(),
        token::mint_to(&token_program, &address(5), &address(6), &payer, &vec![other], 1).unwrap(),
        token::mint_to(&token_program, &address(5), &address(6), &other, &vec![], 1).unwrap(),
        token::revoke_mint_authority(&token_program, &address(5), &payer, &vec![other]).unwrap(),
    ];
    for ix in kinds {
        assert_eq!(
            assemble(vec![ix.clone()], payer, &vec![payer], hash).err(),
            Some(AssembleError::MissingSigner(other))
        );
        assert!(assemble(vec![ix], payer, &vec![payer, other], hash).is_ok());
    }
}

#[test]
fn initialize_mint_declares_no_signer() {
    let ix = token::initialize_mint(&Address(TOKEN_PROGRAM_ID), &address(5), &address(2), None, 0)
        .unwrap();
    let tx = assemble(vec![ix], address(1), &vec![address(1)], Blockhash([0; 32])).unwrap();
    assert_eq!(tx.signers(), &vec![address(1)]);
}

#[test]
fn contains_address_compares_all_bytes() {
    let mut near = [1u8; 32];
    near[31] = 2;
    let addresses = vec![address(1), address(3)];
    assert!(contains_address(&addresses, &address(3)));
    assert!(!contains_address(&addresses, &Address(near)));
    assert!(!contains_address(&vec![], &address(1)));
}

#[test]
fn the_ledger_library_signs_what_assemble_accepts() {
    let payer = Keypair::new();
    let new_account = Keypair::new();
    let (p, n) = (Address(payer.pubkey().to_bytes()), Address(new_account.pubkey().to_bytes()));
    let instructions = vec![system::create_account(&p, &n, 10, 0, &address(0)), system::transfer(&p, &n, 5)];
    let tx = assemble(instructions, p, &vec![p, n], Blockhash([1; 32])).unwrap();
    let outside: Vec<_> = tx.instructions().iter().map(raised).collect();
    let message = Message::new(&outside, Some(&payer.pubkey()));
    let slots = message.header.num_required_signatures as usize;
    assert_eq!(slots, tx.signers().len());
    for key in &message.account_keys[..slots] {
        assert!(contains_address(tx.signers(), &Address(key.to_bytes())));
    }
    assert_eq!(message.account_keys[0].to_bytes(), tx.signers()[0].0);
    let mut signed = solana_sdk::transaction::Transaction::new_unsigned(message);
    let hash = solana_sdk::hash::Hash::new_from_array(tx.recent_blockhash().0);
    assert_eq!(signed.try_sign(&[&payer, &new_account], hash), Ok(()));
    assert!(signed.is_signed());
    assert_eq!(signed.signatures.len(), tx.signers().len());
}

#[test]
fn the_ledger_library_refuses_what_assemble_refuses() {
    let payer = Keypair::new();
    let new_account = Keypair::new();
    let stranger = Keypair::new();
    let (p, n, s) = (
        Address(payer.pubkey().to_bytes()),
        Address(new_account.pubkey().to_bytes()),
        Address(stranger.pubkey().to_bytes()),
    );
    let instructions = vec![system::create_account(&p, &n, 10, 0, &address(0))];
    let outside: Vec<_> = instructions.iter().map(raised).collect();
    let hash = Blockhash([1; 32]);
    assert_eq!(
        assemble(instructions.clone(), p, &vec![p], hash).err(),
        Some(AssembleError::MissingSigner(n))
    );
    let mut unsigned =
        solana_sdk::transaction::Transaction::new_unsigned(Message::new(&outside, Some(&payer.pubkey())));
    assert_eq!(
        unsigned.try_sign(&[&payer], solana_sdk::hash::Hash::new_from_array(hash.0)),
        Err(SignerError::NotEnoughSigners)
    );
    assert_eq!(
        assemble(instructions, p, &vec![p, n, s], hash).err(),
        Some(AssembleError::UnexpectedSigner(s))
    );
    let mut unsigned =
        solana_sdk::transaction::Transaction::new_unsigned(Message::new(&outside, Some(&payer.pubkey())));
    assert_eq!(
        unsigned.try_sign(&[&payer, &new_account, &stranger], solana_sdk::hash::Hash::new_from_array(hash.0)),
        Err(SignerError::KeypairPubkeyMismatch)
    );
}
