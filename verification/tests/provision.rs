use durable_nonce::address::{Address, Blockhash};
use durable_nonce::error::ProvisionError;
use durable_nonce::instruction::{AccountMeta, Instruction};
use durable_nonce::provision::{
    create_nonce_transaction, create_nonce_transaction_sync, ensure_nonce_account, Creating,
    Provision, COMPUTE_UNIT_PRICE, MINIMUM_RENT_LAMPORTS,
};
use durable_nonce::registry::{get_durable_nonce, nonce_account_of, record_nonce_account};
use durable_nonce::signing::{Signature, SigningKey};
use durable_nonce::transaction::Transaction;
use solana_sdk::pubkey::Pubkey;
use solana_sdk::signer::keypair::keypair_from_seed;
use solana_sdk::signer::Signer;

fn user_key() -> SigningKey {
    SigningKey::from_bytes(keypair_from_seed(&[21u8; 32]).unwrap().to_bytes()).unwrap()
}

fn account_key() -> SigningKey {
    SigningKey::from_bytes(keypair_from_seed(&[22u8; 32]).unwrap().to_bytes()).unwrap()
}

fn ledger_instruction(one: &Instruction) -> solana_sdk::instruction::Instruction {
    solana_sdk::instruction::Instruction {
        program_id: Pubkey::new_from_array(one.program_id.bytes),
        accounts: one
            .accounts
            .iter()
            .map(|meta| solana_sdk::instruction::AccountMeta {
                pubkey: Pubkey::new_from_array(meta.address.bytes),
                is_signer: meta.is_signer,
                is_writable: meta.is_writable,
            })
            .collect(),
        data: one.data.clone(),
    }
}

fn ledger_transaction(transaction: &Transaction) -> solana_sdk::transaction::Transaction {
    let instructions: Vec<solana_sdk::instruction::Instruction> =
        transaction.instructions.iter().map(ledger_instruction).collect();
    solana_sdk::transaction::Transaction {
        signatures: transaction
            .signatures
            .iter()
            .map(|signature| solana_sdk::signature::Signature::from(signature.bytes))
            .collect(),
        message: solana_sdk::message::Message::new_with_blockhash(
            &instructions,
            Some(&Pubkey::new_from_array(transaction.fee_payer.bytes)),
            &solana_sdk::hash::Hash::new_from_array(transaction.recent_blockhash.bytes),
        ),
    }
}

fn creating_for(identity: &SigningKey) -> Creating {
    let (transaction, nonce_account) =
        create_nonce_transaction(identity, &account_key(), Blockhash { bytes: [4u8; 32] });
    Creating { identity: identity.address(), nonce_account, transaction }
}

#[test]
fn the_constants_are_those_of_a_nonce_account() {
    assert_eq!(MINIMUM_RENT_LAMPORTS, 1_447_680);
    assert_eq!(COMPUTE_UNIT_PRICE, 500_000);
}

#[test]
fn the_provisioning_instructions_create_and_initialise() {
    let user = user_key();
    let account = account_key();
    let (transaction, address) =
        create_nonce_transaction(&user, &account, Blockhash { bytes: [4u8; 32] });
    assert_eq!(address, account.address());
    assert_eq!(transaction.fee_payer, user.address());
    assert_eq!(transaction.recent_blockhash, Blockhash { bytes: [4u8; 32] });
    assert_eq!(transaction.instructions.len(), 3);
    let system = Address { bytes: [0u8; 32] };
    let create = &transaction.instructions[0];
    assert_eq!(create.program_id, system);
    assert_eq!(
        create.accounts,
        vec![
            AccountMeta { address: user.address(), is_signer: true, is_writable: true },
            AccountMeta { address: account.address(), is_signer: true, is_writable: true },
        ]
    );
    let mut data = vec![0u8, 0, 0, 0];
    data.extend_from_slice(&[0x00, 0x17, 0x16, 0, 0, 0, 0, 0]);
    data.extend_from_slice(&[80, 0, 0, 0, 0, 0, 0, 0]);
    data.extend_from_slice(&[0u8; 32]);
    assert_eq!(create.data, data);
    assert_eq!(1_447_680u64.to_le_bytes(), [0x00, 0x17, 0x16, 0, 0, 0, 0, 0]);
    let initialise = &transaction.instructions[1];
    assert_eq!(initialise.program_id, system);
    assert_eq!(
        initialise.accounts,
        vec![
            AccountMeta { address: account.address(), is_signer: false, is_writable: true },
            AccountMeta {
                address: Address::parse("SysvarRecentB1ockHashes11111111111111111111").unwrap(),
                is_signer: false,
                is_writable: false,
            },
            AccountMeta {
                address: Address::parse("SysvarRent111111111111111111111111111111111").unwrap(),
                is_signer: false,
                is_writable: false,
            },
        ]
    );
    assert_eq!(
        initialise.accounts[2].address.bytes,
        [
            6u8, 167, 213, 23, 25, 44, 92, 81, 33, 140, 201, 76, 61, 74, 241, 127, 88, 218, 238,
            8, 155, 161, 253, 68, 227, 219, 217, 138, 0, 0, 0, 0
        ]
    );
    let mut data = vec![6u8, 0, 0, 0];
    data.extend_from_slice(&user.address().bytes);
    assert_eq!(initialise.data, data);
    let price = &transaction.instructions[2];
    assert_eq!(price.program_id.to_text(), "ComputeBudget111111111111111111111111111111");
    assert!(price.accounts.is_empty());
    assert_eq!(price.data, vec![3u8, 0x20, 0xa1, 0x07, 0, 0, 0, 0, 0]);
}

#[test]
fn the_provisioning_transaction_is_what_the_ledger_library_builds() {
    let user_pair = keypair_from_seed(&[21u8; 32]).unwrap();
    let account_pair = keypair_from_seed(&[22u8; 32]).unwrap();
    let (transaction, _) =
        create_nonce_transaction(&user_key(), &account_key(), Blockhash { bytes: [4u8; 32] });
    let mut instructions = solana_sdk::system_instruction::create_nonce_account(
        &user_pair.pubkey(),
        &account_pair.pubkey(),
        &user_pair.pubkey(),
        1_447_680,
    );
    instructions.push(
        solana_sdk::compute_budget::ComputeBudgetInstruction::set_compute_unit_price(500_000),
    );
    let mut expected = solana_sdk::transaction::Transaction::new_with_payer(
        &instructions,
        Some(&user_pair.pubkey()),
    );
    expected.sign(&[&account_pair, &user_pair], solana_sdk::hash::Hash::new_from_array([4u8; 32]));
    assert_eq!(ledger_transaction(&transaction), expected);
    assert_eq!(transaction.message, expected.message_data());
    assert_eq!(transaction.signatures.len(), 2);
    assert!(expected.verify().is_ok());
}

#[test]
fn both_keys_sign_the_identitys_first() {
    for (user_seed, account_seed) in [(21u8, 22u8), (22, 21), (1, 250), (250, 1)] {
        let user =
            SigningKey::from_bytes(keypair_from_seed(&[user_seed; 32]).unwrap().to_bytes())
                .unwrap();
        let account =
            SigningKey::from_bytes(keypair_from_seed(&[account_seed; 32]).unwrap().to_bytes())
                .unwrap();
        let (transaction, address) =
            create_nonce_transaction(&user, &account, Blockhash { bytes: [4u8; 32] });
        assert_eq!(address, account.address());
        assert_eq!(transaction.signatures.len(), 2);
        assert_eq!(transaction.signatures[0], user.sign(&transaction.message));
        assert_eq!(transaction.signatures[1], account.sign(&transaction.message));
        assert!(ledger_transaction(&transaction).verify().is_ok());
    }
}

#[test]
fn an_account_that_is_the_identity_signs_once() {
    let user = user_key();
    let (transaction, address) =
        create_nonce_transaction(&user, &user_key(), Blockhash { bytes: [4u8; 32] });
    assert_eq!(address, user.address());
    assert_eq!(transaction.signatures.len(), 1);
    assert!(ledger_transaction(&transaction).verify().is_ok());
}

#[test]
fn each_provisioning_makes_a_new_account() {
    let user = user_key();
    let (first, first_account) =
        create_nonce_transaction_sync(&user, Blockhash { bytes: [4u8; 32] });
    let (second, second_account) =
        create_nonce_transaction_sync(&user, Blockhash { bytes: [4u8; 32] });
    assert_ne!(first_account, second_account);
    assert_ne!(first_account, user.address());
    for (transaction, account) in [(first, first_account), (second, second_account)] {
        assert_eq!(transaction.fee_payer, user.address());
        assert_eq!(transaction.recent_blockhash, Blockhash { bytes: [4u8; 32] });
        assert_eq!(transaction.instructions.len(), 3);
        assert_eq!(transaction.instructions[0].accounts[0].address, user.address());
        assert_eq!(transaction.instructions[0].accounts[1].address, account);
        assert_eq!(transaction.instructions[1].accounts[0].address, account);
        assert_eq!(transaction.signatures.len(), 2);
        assert_eq!(transaction.signatures[0], user.sign(&transaction.message));
        assert!(ledger_transaction(&transaction).verify().is_ok());
    }
}

#[test]
fn an_identity_on_record_is_done_at_once() {
    let user = user_key();
    let account = Address { bytes: [66u8; 32] };
    let registry = record_nonce_account(None, &user.address(), &account);
    match ensure_nonce_account(user_key(), Some(&registry)) {
        Provision::Registered(found) => assert_eq!(found, account),
        Provision::Needed(_) => panic!("the account on record was expected"),
    }
}

#[test]
fn an_identity_not_on_record_needs_a_blockhash() {
    assert!(matches!(ensure_nonce_account(user_key(), None), Provision::Needed(_)));
    assert!(matches!(ensure_nonce_account(user_key(), Some("{}")), Provision::Needed(_)));
    assert!(matches!(ensure_nonce_account(user_key(), Some("][")), Provision::Needed(_)));
    let other = Address { bytes: [1u8; 32] };
    let registry = record_nonce_account(None, &other, &other);
    assert!(matches!(ensure_nonce_account(user_key(), Some(&registry)), Provision::Needed(_)));
}

#[test]
fn without_a_blockhash_provisioning_fails() {
    let fetching = match ensure_nonce_account(user_key(), None) {
        Provision::Needed(fetching) => fetching,
        Provision::Registered(_) => panic!("no account was expected"),
    };
    match fetching.on_blockhash(Err("unreachable".to_string())) {
        Err(ProvisionError::SubmissionFailed(cause)) => assert_eq!(cause, "unreachable"),
        Ok(_) => panic!("a failure was expected"),
    }
}

#[test]
fn with_a_blockhash_the_transaction_is_built() {
    let user = user_key();
    let fetching = match ensure_nonce_account(user_key(), None) {
        Provision::Needed(fetching) => fetching,
        Provision::Registered(_) => panic!("no account was expected"),
    };
    let creating = fetching.on_blockhash(Ok(Blockhash { bytes: [8u8; 32] })).unwrap();
    assert_eq!(creating.identity, user.address());
    assert_eq!(creating.transaction.fee_payer, user.address());
    assert_eq!(creating.transaction.recent_blockhash, Blockhash { bytes: [8u8; 32] });
    assert_eq!(creating.transaction.instructions.len(), 3);
    assert_eq!(creating.transaction.instructions[0].accounts[1].address, creating.nonce_account);
    assert!(ledger_transaction(&creating.transaction).verify().is_ok());
}

#[test]
fn a_failed_submission_records_nothing() {
    let creating = creating_for(&user_key());
    match creating.on_submitted(Err("rejected".to_string()), None) {
        Err(ProvisionError::SubmissionFailed(cause)) => assert_eq!(cause, "rejected"),
        Ok(_) => panic!("a failure was expected"),
    }
    assert!(matches!(ensure_nonce_account(user_key(), None), Provision::Needed(_)));
}

#[test]
fn a_confirmed_submission_records_the_account() {
    let user = user_key();
    let creating = creating_for(&user);
    let account = creating.nonce_account;
    let done = creating.on_submitted(Ok(Signature { bytes: [1u8; 64] }), None).unwrap();
    assert_eq!(done.nonce_account, account);
    let document = done.document;
    assert_eq!(
        document,
        format!("{{\"durableNonce_{}\":\"{}\"}}", user.address().to_text(), account.to_text())
    );
    assert_eq!(
        get_durable_nonce(Some(&document), &user.address().to_text()),
        Some(account.to_text())
    );
    assert_eq!(nonce_account_of(Some(&document), &user.address()), Some(account));
}

#[test]
fn provisioning_twice_gives_the_same_account() {
    let user = user_key();
    let fetching = match ensure_nonce_account(user_key(), None) {
        Provision::Needed(fetching) => fetching,
        Provision::Registered(_) => panic!("no account was expected"),
    };
    let creating = fetching.on_blockhash(Ok(Blockhash { bytes: [8u8; 32] })).unwrap();
    let done = creating.on_submitted(Ok(Signature { bytes: [1u8; 64] }), None).unwrap();
    let first = done.nonce_account;
    let written = done.document;
    match ensure_nonce_account(user_key(), Some(&written)) {
        Provision::Registered(second) => assert_eq!(second, first),
        Provision::Needed(_) => panic!("the account on record was expected"),
    }
    assert_eq!(nonce_account_of(Some(&written), &user.address()), Some(first));
}

#[test]
fn a_confirmed_submission_keeps_the_other_entries() {
    let other = Address { bytes: [1u8; 32] };
    let theirs = Address { bytes: [2u8; 32] };
    let before = record_nonce_account(None, &other, &theirs);
    let creating = creating_for(&user_key());
    let account = creating.nonce_account;
    let done = creating.on_submitted(Ok(Signature { bytes: [1u8; 64] }), Some(&before)).unwrap();
    let document: String = done.document;
    assert_eq!(nonce_account_of(Some(&document), &other), Some(theirs));
    assert_eq!(nonce_account_of(Some(&document), &user_key().address()), Some(account));
}
