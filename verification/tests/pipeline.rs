use solana_bootcamp::address::{Address, SYSTEM_PROGRAM_ID};
use solana_bootcamp::instruction::{AccountMeta, Instruction};
use solana_bootcamp::pipeline::{
    account_size, create_acc_transfer, create_account, create_and_transfer, transfer_lamport,
};
use solana_bootcamp::transaction::Blockhash;
use solana_sdk::pubkey::Pubkey;
use std::str::FromStr;

fn address(fill: u8) -> Address {
    Address([fill; 32])
}

fn lowered(ix: &solana_sdk::instruction::Instruction) -> Instruction {
    Instruction::new(
        Address(ix.program_id.to_bytes()),
        ix.accounts
            .iter()
            .map(|m| AccountMeta {
                pubkey: Address(m.pubkey.to_bytes()),
                is_signer: m.is_signer,
                is_writable: m.is_writable,
            })
            .collect(),
        ix.data.clone(),
    )
}

fn key(a: &Address) -> Pubkey {
    Pubkey::new_from_array(a.0)
}

#[test]
fn account_size_fits_this_machine() {
    assert_eq!(account_size(0), Ok(0));
    assert_eq!(account_size(82), Ok(82));
    assert_eq!(account_size(u32::MAX as u64), Ok(u32::MAX as usize));
}

#[test]
fn create_account_of_zero_bytes_is_one_instruction_signed_by_both() {
    let (payer, new_account) = (address(1), address(2));
    let hash = Blockhash([9; 32]);
    let tx = create_account(&payer, &new_account, 0, 890_880, hash);
    assert_eq!(tx.instructions().len(), 1);
    let expected = solana_sdk::system_instruction::create_account(
        &key(&payer),
        &key(&new_account),
        890_880,
        0,
        &solana_sdk::system_program::id(),
    );
    assert_eq!(tx.instructions()[0], lowered(&expected));
    assert_eq!(tx.instructions()[0].program_id(), Address(SYSTEM_PROGRAM_ID));
    assert_eq!(tx.fee_payer(), payer);
    assert_eq!(tx.recent_blockhash(), hash);
    assert_eq!(tx.signers(), &vec![payer, new_account]);
}

#[test]
fn create_account_funded_by_itself_has_one_signer() {
    let tx = create_account(&address(1), &address(1), 0, 1, Blockhash([0; 32]));
    assert_eq!(tx.signers(), &vec![address(1)]);
}

#[test]
fn transfer_lamport_is_one_instruction_signed_by_the_payer() {
    let payer = address(1);
    let receiver =
        Address(Pubkey::from_str("63EEC9FfGyksm7PkVC6z8uAmqozbQcTzbkWJNsgqjkFs").unwrap().to_bytes());
    let tx = transfer_lamport(&payer, &receiver, 5000, Blockhash([3; 32]));
    let expected = solana_sdk::system_instruction::transfer(&key(&payer), &key(&receiver), 5000);
    assert_eq!(tx.instructions(), &vec![lowered(&expected)]);
    assert_eq!(tx.signers(), &vec![payer]);
    assert_eq!(tx.fee_payer(), payer);
}

#[test]
fn create_acc_transfer_creates_before_it_transfers() {
    let (payer, new_account) = (address(1), address(2));
    let tx = create_acc_transfer(&payer, &new_account, 0, 890_880, 5000, Blockhash([3; 32]));
    let expected = vec![
        lowered(&solana_sdk::system_instruction::create_account(
            &key(&payer),
            &key(&new_account),
            890_880,
            0,
            &solana_sdk::system_program::id(),
        )),
        lowered(&solana_sdk::system_instruction::transfer(&key(&payer), &key(&new_account), 5000)),
    ];
    assert_eq!(tx.instructions(), &expected);
    assert_eq!(tx.signers(), &vec![payer, new_account]);
}

#[test]
fn create_and_transfer_creates_then_pays_both_receivers() {
    let (payer, new_account, receiver) = (address(1), address(2), address(3));
    let tx = create_and_transfer(
        &payer,
        &new_account,
        &receiver,
        0,
        890_880,
        5000,
        7000,
        Blockhash([3; 32]),
    );
    let expected = vec![
        lowered(&solana_sdk::system_instruction::create_account(
            &key(&payer),
            &key(&new_account),
            890_880,
            0,
            &solana_sdk::system_program::id(),
        )),
        lowered(&solana_sdk::system_instruction::transfer(&key(&payer), &key(&new_account), 5000)),
        lowered(&solana_sdk::system_instruction::transfer(&key(&payer), &key(&receiver), 7000)),
    ];
    assert_eq!(tx.instructions(), &expected);
    assert_eq!(tx.signers(), &vec![payer, new_account]);
    assert_eq!(tx.instructions()[0].accounts()[1].pubkey, new_account);
    assert!(tx.instructions()[1].accounts().iter().any(|m| m.pubkey == new_account));
}
