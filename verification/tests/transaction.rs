use durable_nonce::address::{Address, Blockhash};
use durable_nonce::instruction::{AccountMeta, Instruction};
use durable_nonce::signing::SigningKey;
use durable_nonce::transaction::{
    can_compile, reference_count, sign_transaction, signs_alone, Transaction,
};
use solana_sdk::pubkey::Pubkey;
use solana_sdk::signer::keypair::keypair_from_seed;
use solana_sdk::signer::Signer;

fn key_from_seed(seed: u8) -> SigningKey {
    SigningKey::from_bytes(keypair_from_seed(&[seed; 32]).unwrap().to_bytes()).unwrap()
}

fn to_ledger_instruction(one: &Instruction) -> solana_sdk::instruction::Instruction {
    solana_sdk::instruction::Instruction {
        program_id: Pubkey::new_from_array(one.program_id.bytes),
        accounts: one
            .accounts
            .iter()
            .map(|meta| solana_sdk::instruction::AccountMeta {
                pubkey: Pubkey::new_from_array(meta.address.bytes),
                is_signer: meta.is_signer,
                is_writable: meta.is_writable,
            })
            .collect(),
        data: one.data.clone(),
    }
}

fn to_ledger_transaction(transaction: &Transaction) -> solana_sdk::transaction::Transaction {
    let instructions: Vec<solana_sdk::instruction::Instruction> =
        transaction.instructions.iter().map(to_ledger_instruction).collect();
    let message = solana_sdk::message::Message::new_with_blockhash(
        &instructions,
        Some(&Pubkey::new_from_array(transaction.fee_payer.bytes)),
        &solana_sdk::hash::Hash::new_from_array(transaction.recent_blockhash.bytes),
    );
    solana_sdk::transaction::Transaction {
        signatures: transaction
            .signatures
            .iter()
            .map(|signature| solana_sdk::signature::Signature::from(signature.bytes))
            .collect(),
        message,
    }
}

fn instruction_with(accounts: Vec<AccountMeta>, data: Vec<u8>) -> Instruction {
    Instruction { program_id: Address { bytes: [42u8; 32] }, accounts, data }
}

fn meta(address: Address, is_signer: bool, is_writable: bool) -> AccountMeta {
    AccountMeta { address, is_signer, is_writable }
}

#[test]
fn reference_count_counts_programs_and_accounts() {
    let other = Address { bytes: [3u8; 32] };
    assert_eq!(reference_count(&Vec::new()), Some(0));
    let one = instruction_with(vec![meta(other, false, false); 2], vec![1]);
    assert_eq!(reference_count(&vec![one.clone()]), Some(3));
    assert_eq!(reference_count(&vec![one.clone(), one.clone()]), Some(6));
    assert_eq!(reference_count(&vec![instruction_with(Vec::new(), Vec::new())]), Some(1));
}

#[test]
fn reference_count_stops_at_the_format_limit() {
    let other = Address { bytes: [3u8; 32] };
    let full = instruction_with(vec![meta(other, false, false); 254], Vec::new());
    assert_eq!(reference_count(&vec![full.clone()]), Some(255));
    assert!(can_compile(&vec![full.clone()]));
    let over = instruction_with(vec![meta(other, false, false); 255], Vec::new());
    assert_eq!(reference_count(&vec![over.clone()]), None);
    assert!(!can_compile(&vec![over]));
    let more = vec![full, instruction_with(Vec::new(), Vec::new())];
    assert_eq!(reference_count(&more), None);
    assert!(!can_compile(&more));
}

#[test]
fn reference_count_refuses_data_too_long_for_its_length_field() {
    let fits = instruction_with(Vec::new(), vec![0u8; 65535]);
    assert_eq!(reference_count(&vec![fits]), Some(1));
    let long = instruction_with(Vec::new(), vec![0u8; 65536]);
    assert_eq!(reference_count(&vec![long.clone()]), None);
    assert!(!can_compile(&vec![instruction_with(Vec::new(), Vec::new()), long]));
}

#[test]
fn signs_alone_looks_at_every_signer() {
    let identity = Address { bytes: [1u8; 32] };
    let other = Address { bytes: [2u8; 32] };
    assert!(signs_alone(&Vec::new(), &identity));
    let own = instruction_with(vec![meta(identity, true, true), meta(other, false, true)], vec![]);
    assert!(signs_alone(&vec![own.clone()], &identity));
    assert!(!signs_alone(&vec![own.clone()], &other));
    let foreign = instruction_with(vec![meta(other, true, false)], vec![]);
    assert!(!signs_alone(&vec![own.clone(), foreign.clone()], &identity));
    assert!(!signs_alone(&vec![foreign, own], &identity));
}

#[test]
fn one_signer_signs_a_transaction_that_the_ledger_accepts() {
    let payer = key_from_seed(1);
    let receiver = Address { bytes: [7u8; 32] };
    let blockhash = Blockhash { bytes: [5u8; 32] };
    let transfer = instruction_with(
        vec![meta(payer.address(), true, true), meta(receiver, false, true)],
        vec![2, 0, 0, 0, 1, 0, 0, 0, 0, 0, 0, 0],
    );
    let transaction = sign_transaction(&payer, None, vec![transfer.clone()], blockhash);
    assert_eq!(transaction.fee_payer, payer.address());
    assert_eq!(transaction.instructions, vec![transfer]);
    assert_eq!(transaction.recent_blockhash, blockhash);
    assert_eq!(transaction.signatures.len(), 1);
    assert_eq!(transaction.signatures[0], payer.sign(&transaction.message));
    let ledger = to_ledger_transaction(&transaction);
    assert_eq!(ledger.message.serialize(), transaction.message);
    assert_eq!(ledger.message.recent_blockhash.to_bytes(), blockhash.bytes);
    assert!(ledger.is_signed());
    assert!(ledger.verify().is_ok());
}

#[test]
fn the_message_depends_on_the_blockhash() {
    let payer = key_from_seed(1);
    let first = sign_transaction(&payer, None, Vec::new(), Blockhash { bytes: [5u8; 32] });
    let second = sign_transaction(&payer, None, Vec::new(), Blockhash { bytes: [6u8; 32] });
    assert_ne!(first.message, second.message);
    assert_ne!(first.signatures, second.signatures);
    assert!(to_ledger_transaction(&first).verify().is_ok());
    assert!(to_ledger_transaction(&second).verify().is_ok());
}

#[test]
fn two_signers_sign_in_the_order_of_the_message() {
    let blockhash = Blockhash { bytes: [5u8; 32] };
    for (payer_seed, other_seed) in [(1u8, 2u8), (2, 1), (3, 200), (200, 3)] {
        let payer = key_from_seed(payer_seed);
        let other = key_from_seed(other_seed);
        for writable in [true, false] {
            let both = instruction_with(
                vec![meta(other.address(), true, writable), meta(payer.address(), true, true)],
                vec![1],
            );
            let transaction = sign_transaction(&payer, Some(&other), vec![both], blockhash);
            assert_eq!(transaction.signatures.len(), 2);
            assert_eq!(transaction.signatures[0], payer.sign(&transaction.message));
            assert_eq!(transaction.signatures[1], other.sign(&transaction.message));
            let ledger = to_ledger_transaction(&transaction);
            assert_eq!(ledger.message.serialize(), transaction.message);
            assert_eq!(ledger.message.header.num_required_signatures, 2);
            assert!(ledger.verify().is_ok());
        }
    }
}
