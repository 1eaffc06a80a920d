//! The accounts to store after a batch of transactions.
#![allow(deprecated)]
use solana_sdk::account::ReadableAccount;
use solana_sdk::instruction::CompiledInstruction;
use solana_sdk::instruction::InstructionError;
use solana_sdk::message::Message as RuntimeMessage;
use solana_sdk::native_loader;
use solana_sdk::nonce::state::Data as NonceData;
use solana_sdk::nonce::state::DurableNonce;
use solana_sdk::nonce::state::Versions as NonceVersions;
use solana_sdk::nonce::State as NonceState;
use solana_sdk::nonce_account;
use solana_sdk::pubkey::Pubkey as Address;
use solana_sdk::signature::keypair_from_seed;
use solana_sdk::signature::Keypair;
use solana_sdk::signature::Signer;
use solana_sdk::signers::Signers;
use solana_sdk::system_instruction;
use solana_sdk::system_program;
use solana_sdk::transaction::SanitizedTransaction;
use solana_sdk::transaction::Transaction as UnsignedTransaction;
use solana_sdk::transaction::TransactionError;
use svm_core::account::AccountSharedData;
use svm_core::account::TransactionAccount;
use svm_core::account_saver::collect_accounts_to_store;
use svm_core::account_saver::is_batch_collectable;
use svm_core::account_saver::max_number_of_accounts_to_collect;
use svm_core::message::Message;
use svm_core::message::Transaction;
use svm_core::nonce_info::AdvanceNonceError;
use svm_core::nonce_info::NonceInfo;
use svm_core::pubkey::Pubkey;
use svm_core::rollback_accounts::RollbackAccounts;
use svm_core::transaction_execution_result::ExecutedTransaction;
use svm_core::transaction_execution_result::LoadedTransaction;
use svm_core::transaction_execution_result::TransactionExecutionDetails;
use svm_core::transaction_execution_result::TransactionExecutionResult;

fn key(address: &Address) -> Pubkey {
    Pubkey {
        bytes: address.to_bytes(),
    }
}

fn account_from(account: &solana_sdk::account::AccountSharedData) -> AccountSharedData {
    AccountSharedData {
        lamports: account.lamports(),
        data: account.data().to_vec(),
        owner: key(account.owner()),
        executable: account.executable(),
        rent_epoch: account.rent_epoch(),
    }
}

fn runtime_account(account: &AccountSharedData) -> solana_sdk::account::AccountSharedData {
    solana_sdk::account::AccountSharedData::from(solana_sdk::account::Account {
        lamports: account.lamports,
        data: account.data.clone(),
        owner: Address::new_from_array(account.owner.bytes),
        executable: account.executable,
        rent_epoch: account.rent_epoch,
    })
}

fn new_account(lamports: u64) -> AccountSharedData {
    account_from(&solana_sdk::account::AccountSharedData::new(
        lamports,
        0,
        &Address::default(),
    ))
}

fn new_sanitized_tx<T: Signers>(
    from_keypairs: &T,
    message: RuntimeMessage,
    recent_blockhash: solana_sdk::hash::Hash,
) -> Transaction {
    let tx = SanitizedTransaction::from_transaction_for_tests(UnsignedTransaction::new(
        from_keypairs,
        message,
        recent_blockhash,
    ));
    Transaction::from_runtime(&tx).unwrap()
}

fn new_execution_result(
    status: Result<(), TransactionError>,
    loaded_transaction: LoadedTransaction,
) -> TransactionExecutionResult {
    TransactionExecutionResult::Executed(Box::new(ExecutedTransaction {
        execution_details: TransactionExecutionDetails { status },
        loaded_transaction,
    }))
}

fn failure() -> Result<(), TransactionError> {
    Err(TransactionError::InstructionError(
        1,
        InstructionError::InvalidArgument,
    ))
}

fn nonce_account_with(lamports: u64, state: &NonceVersions) -> AccountSharedData {
    account_from(
        &solana_sdk::account::AccountSharedData::new_data(lamports, state, &system_program::id())
            .unwrap(),
    )
}

#[test]
fn test_collect_accounts_to_store() {
    let keypair0 = Keypair::new();
    let keypair1 = Keypair::new();
    let pubkey = solana_sdk::pubkey::new_rand();
    let account0 = new_account(1);
    let account1 = new_account(2);
    let account2 = new_account(3);

    let instructions = vec![CompiledInstruction::new(2, &(), vec![0, 1])];
    let message = RuntimeMessage::new_with_compiled_instructions(
        1,
        0,
        2,
        vec![keypair0.pubkey(), pubkey, native_loader::id()],
        solana_sdk::hash::Hash::default(),
        instructions,
    );
    let transaction_accounts0: Vec<TransactionAccount> = vec![
        (key(&message.account_keys[0]), account0),
        (key(&message.account_keys[1]), account2.clone()),
    ];
    let tx0 = new_sanitized_tx(&[&keypair0], message, solana_sdk::hash::Hash::default());

    let instructions = vec![CompiledInstruction::new(2, &(), vec![0, 1])];
    let message = RuntimeMessage::new_with_compiled_instructions(
        1,
        0,
        2,
        vec![keypair1.pubkey(), pubkey, native_loader::id()],
        solana_sdk::hash::Hash::default(),
        instructions,
    );
    let transaction_accounts1: Vec<TransactionAccount> = vec![
        (key(&message.account_keys[0]), account1),
        (key(&message.account_keys[1]), account2),
    ];
    let tx1 = new_sanitized_tx(&[&keypair1], message, solana_sdk::hash::Hash::default());

    let loaded0 = LoadedTransaction {
        accounts: transaction_accounts0,
        rollback_accounts: RollbackAccounts::default(),
    };

    let loaded1 = LoadedTransaction {
        accounts: transaction_accounts1,
        rollback_accounts: RollbackAccounts::default(),
    };

    let txs = vec![tx0.clone(), tx1.clone()];
    let mut execution_results = vec![
        new_execution_result(Ok(()), loaded0),
        new_execution_result(Ok(()), loaded1),
    ];
    let max_collected_accounts = max_number_of_accounts_to_collect(&txs, &execution_results);
    assert_eq!(max_collected_accounts, 2);
    let (collected_accounts, transactions) =
        collect_accounts_to_store(&txs, &mut execution_results, &DurableNonce::default(), 0);
    assert_eq!(collected_accounts.len(), 2);
    assert!(collected_accounts
        .iter()
        .any(|(pubkey, _account)| *pubkey == &key(&keypair0.pubkey())));
    assert!(collected_accounts
        .iter()
        .any(|(pubkey, _account)| *pubkey == &key(&keypair1.pubkey())));

    assert_eq!(transactions.len(), 2);
    assert!(transactions.iter().any(|txn| txn.unwrap().eq(&tx0)));
    assert!(transactions.iter().any(|txn| txn.unwrap().eq(&tx1)));
}

#[test]
fn test_nonced_failure_accounts_rollback_fee_payer_only() {
    let from = keypair_from_seed(&[1; 32]).unwrap();
    let from_address = from.pubkey();
    let to_address = Address::new_unique();
    let from_account_post = new_account(4199);
    let to_account = new_account(2);

    let instructions = vec![system_instruction::transfer(&from_address, &to_address, 42)];
    let message = RuntimeMessage::new(&instructions, Some(&from_address));
    let blockhash = solana_sdk::hash::Hash::new_unique();
    let transaction_accounts: Vec<TransactionAccount> = vec![
        (key(&message.account_keys[0]), from_account_post),
        (key(&message.account_keys[1]), to_account),
    ];
    let tx = new_sanitized_tx(&[&from], message, blockhash);

    let from_account_pre = new_account(4242);

    let loaded = LoadedTransaction {
        accounts: transaction_accounts,
        rollback_accounts: RollbackAccounts::FeePayerOnly {
            fee_payer_account: from_account_pre.clone(),
        },
    };

    let txs = vec![tx];
    let mut execution_results = vec![new_execution_result(failure(), loaded)];
    let max_collected_accounts = max_number_of_accounts_to_collect(&txs, &execution_results);
    assert_eq!(max_collected_accounts, 1);
    let durable_nonce = DurableNonce::from_blockhash(&solana_sdk::hash::Hash::new_unique());
    let (collected_accounts, _) =
        collect_accounts_to_store(&txs, &mut execution_results, &durable_nonce, 0);
    assert_eq!(collected_accounts.len(), 1);
    assert_eq!(
        collected_accounts
            .iter()
            .find(|(pubkey, _account)| *pubkey == &key(&from_address))
            .map(|(_pubkey, account)| *account)
            .cloned()
            .unwrap(),
        from_account_pre,
    );
}

#[test]
fn test_nonced_failure_accounts_rollback_separate_nonce_and_fee_payer() {
    let nonce_address = Address::new_unique();
    let nonce_authority = keypair_from_seed(&[0; 32]).unwrap();
    let from = keypair_from_seed(&[1; 32]).unwrap();
    let from_address = from.pubkey();
    let to_address = Address::new_unique();
    let durable_nonce = DurableNonce::from_blockhash(&solana_sdk::hash::Hash::new_unique());
    let nonce_state = NonceVersions::new(NonceState::Initialized(NonceData::new(
        nonce_authority.pubkey(),
        durable_nonce,
        0,
    )));
    let nonce_account_post = nonce_account_with(43, &nonce_state);
    let from_account_post = new_account(4199);
    let to_account = new_account(2);
    let nonce_authority_account = new_account(3);
    let recent_blockhashes_sysvar_account = new_account(4);

    let instructions = vec![
        system_instruction::advance_nonce_account(&nonce_address, &nonce_authority.pubkey()),
        system_instruction::transfer(&from_address, &to_address, 42),
    ];
    let message = RuntimeMessage::new(&instructions, Some(&from_address));
    let blockhash = solana_sdk::hash::Hash::new_unique();
    let transaction_accounts: Vec<TransactionAccount> = vec![
        (key(&message.account_keys[0]), from_account_post),
        (key(&message.account_keys[1]), nonce_authority_account),
        (key(&message.account_keys[2]), nonce_account_post),
        (key(&message.account_keys[3]), to_account),
        (key(&message.account_keys[4]), recent_blockhashes_sysvar_account),
    ];
    let tx = new_sanitized_tx(&[&nonce_authority, &from], message, blockhash);

    let durable_nonce = DurableNonce::from_blockhash(&solana_sdk::hash::Hash::new_unique());
    let nonce_state = NonceVersions::new(NonceState::Initialized(NonceData::new(
        nonce_authority.pubkey(),
        durable_nonce,
        0,
    )));
    let nonce_account_pre = nonce_account_with(42, &nonce_state);
    let from_account_pre = new_account(4242);

    let nonce = NonceInfo::new(key(&nonce_address), nonce_account_pre.clone());
    let loaded = LoadedTransaction {
        accounts: transaction_accounts,
        rollback_accounts: RollbackAccounts::SeparateNonceAndFeePayer {
            nonce: nonce.clone(),
            fee_payer_account: from_account_pre.clone(),
        },
    };

    let durable_nonce = DurableNonce::from_blockhash(&solana_sdk::hash::Hash::new_unique());
    let txs = vec![tx];
    let mut execution_results = vec![new_execution_result(failure(), loaded)];
    let max_collected_accounts = max_number_of_accounts_to_collect(&txs, &execution_results);
    assert_eq!(max_collected_accounts, 2);
    let (collected_accounts, _) =
        collect_accounts_to_store(&txs, &mut execution_results, &durable_nonce, 0);
    assert_eq!(collected_accounts.len(), 2);
    assert_eq!(
        collected_accounts
            .iter()
            .find(|(pubkey, _account)| *pubkey == &key(&from_address))
            .map(|(_pubkey, account)| *account)
            .cloned()
            .unwrap(),
        from_account_pre,
    );
    let collected_nonce_account = collected_accounts
        .iter()
        .find(|(pubkey, _account)| *pubkey == &key(&nonce_address))
        .map(|(_pubkey, account)| *account)
        .cloned()
        .unwrap();
    assert_eq!(collected_nonce_account.lamports, nonce_account_pre.lamports);
    assert!(nonce_account::verify_nonce_account(
        &runtime_account(&collected_nonce_account),
        durable_nonce.as_hash()
    )
    .is_some());
}

#[test]
fn test_nonced_failure_accounts_rollback_same_nonce_and_fee_payer() {
    let nonce_authority = keypair_from_seed(&[0; 32]).unwrap();
    let nonce_address = nonce_authority.pubkey();
    let from = keypair_from_seed(&[1; 32]).unwrap();
    let from_address = from.pubkey();
    let to_address = Address::new_unique();
    let durable_nonce = DurableNonce::from_blockhash(&solana_sdk::hash::Hash::new_unique());
    let nonce_state = NonceVersions::new(NonceState::Initialized(NonceData::new(
        nonce_authority.pubkey(),
        durable_nonce,
        0,
    )));
    let nonce_account_post = nonce_account_with(43, &nonce_state);
    let from_account_post = new_account(4200);
    let to_account = new_account(2);
    let nonce_authority_account = new_account(3);
    let recent_blockhashes_sysvar_account = new_account(4);

    let instructions = vec![
        system_instruction::advance_nonce_account(&nonce_address, &nonce_authority.pubkey()),
        system_instruction::transfer(&from_address, &to_address, 42),
    ];
    let message = RuntimeMessage::new(&instructions, Some(&nonce_address));
    let blockhash = solana_sdk::hash::Hash::new_unique();
    let transaction_accounts: Vec<TransactionAccount> = vec![
        (key(&message.account_keys[0]), from_account_post),
        (key(&message.account_keys[1]), nonce_authority_account),
        (key(&message.account_keys[2]), nonce_account_post),
        (key(&message.account_keys[3]), to_account),
        (key(&message.account_keys[4]), recent_blockhashes_sysvar_account),
    ];
    let tx = new_sanitized_tx(&[&nonce_authority, &from], message, blockhash);

    let durable_nonce = DurableNonce::from_blockhash(&solana_sdk::hash::Hash::new_unique());
    let nonce_state = NonceVersions::new(NonceState::Initialized(NonceData::new(
        nonce_authority.pubkey(),
        durable_nonce,
        0,
    )));
    let nonce_account_pre = nonce_account_with(42, &nonce_state);

    let nonce = NonceInfo::new(key(&nonce_address), nonce_account_pre.clone());
    let loaded = LoadedTransaction {
        accounts: transaction_accounts,
        rollback_accounts: RollbackAccounts::SameNonceAndFeePayer {
            nonce: nonce.clone(),
        },
    };

    let durable_nonce = DurableNonce::from_blockhash(&solana_sdk::hash::Hash::new_unique());
    let txs = vec![tx];
    let mut execution_results = vec![new_execution_result(failure(), loaded)];
    let max_collected_accounts = max_number_of_accounts_to_collect(&txs, &execution_results);
    assert_eq!(max_collected_accounts, 1);
    let (collected_accounts, _) =
        collect_accounts_to_store(&txs, &mut execution_results, &durable_nonce, 0);
    assert_eq!(collected_accounts.len(), 1);
    let collected_nonce_account = collected_accounts
        .iter()
        .find(|(pubkey, _account)| *pubkey == &key(&nonce_address))
        .map(|(_pubkey, account)| *account)
        .cloned()
        .unwrap();
    assert_eq!(collected_nonce_account.lamports, nonce_account_pre.lamports);
    assert!(nonce_account::verify_nonce_account(
        &runtime_account(&collected_nonce_account),
        durable_nonce.as_hash()
    )
    .is_some());
}

/// A transaction of four accounts: written to; read only; merely invoked; invoked and
/// passed to an instruction.
fn four_accounts() -> (Transaction, Vec<TransactionAccount>) {
    let account_keys: Vec<Pubkey> = (1..5u8).map(|i| Pubkey { bytes: [i; 32] }).collect();
    let accounts = account_keys
        .iter()
        .map(|k| (*k, new_account(u64::from(k.bytes[0]))))
        .collect();
    let message = Message {
        account_keys,
        writable: vec![true, false, true, true],
        invoked: vec![false, false, true, true],
        instruction_account: vec![true, true, false, true],
        num_write_locks: 3,
    };
    let tx = Transaction {
        message,
        message_hash: [7; 32],
        signatures: vec![[9; 64]],
    };
    (tx, accounts)
}

#[test]
fn success_stores_written_accounts_in_order() {
    let (tx, accounts) = four_accounts();
    let loaded = LoadedTransaction {
        accounts,
        rollback_accounts: RollbackAccounts::default(),
    };
    let txs = vec![tx];
    let mut results = vec![new_execution_result(Ok(()), loaded)];
    assert_eq!(max_number_of_accounts_to_collect(&txs, &results), 3);
    let (collected, transactions) =
        collect_accounts_to_store(&txs, &mut results, &DurableNonce::default(), 0);
    let stored: Vec<(u8, u64)> = collected
        .iter()
        .map(|(k, account)| (k.bytes[0], account.lamports))
        .collect();
    assert_eq!(stored, vec![(1, 1), (4, 4)]);
    assert_eq!(transactions, vec![Some(&txs[0]), Some(&txs[0])]);
}

#[test]
fn accounts_beyond_the_loaded_ones_are_not_stored() {
    let (tx, mut accounts) = four_accounts();
    accounts.truncate(3);
    let loaded = LoadedTransaction {
        accounts,
        rollback_accounts: RollbackAccounts::default(),
    };
    let txs = vec![tx];
    let mut results = vec![new_execution_result(Ok(()), loaded)];
    let (collected, _) =
        collect_accounts_to_store(&txs, &mut results, &DurableNonce::default(), 0);
    assert_eq!(collected.len(), 1);
    assert_eq!(collected[0].0.bytes, [1; 32]);
}

#[test]
fn unexecuted_transaction_stores_nothing() {
    let (tx, accounts) = four_accounts();
    let txs = vec![tx.clone(), tx];
    let mut results = vec![
        TransactionExecutionResult::NotExecuted(TransactionError::AccountNotFound),
        new_execution_result(
            failure(),
            LoadedTransaction {
                accounts,
                rollback_accounts: RollbackAccounts::FeePayerOnly {
                    fee_payer_account: new_account(77),
                },
            },
        ),
    ];
    assert_eq!(max_number_of_accounts_to_collect(&txs, &results), 1);
    let (collected, transactions) =
        collect_accounts_to_store(&txs, &mut results, &DurableNonce::default(), 0);
    assert_eq!(collected.len(), 1);
    assert_eq!(collected[0].0.bytes, [1; 32]);
    assert_eq!(collected[0].1.lamports, 77);
    assert_eq!(transactions.len(), 1);
}

#[test]
fn results_without_transaction_are_left_alone() {
    let state = NonceVersions::new(NonceState::Initialized(NonceData::new(
        Address::new_unique(),
        DurableNonce::from_blockhash(&solana_sdk::hash::Hash::new_unique()),
        5,
    )));
    let account = nonce_account_with(42, &state);
    let nonce = NonceInfo::new(Pubkey::default(), account.clone());
    let mut results = vec![new_execution_result(
        failure(),
        LoadedTransaction {
            accounts: vec![],
            rollback_accounts: RollbackAccounts::SameNonceAndFeePayer { nonce },
        },
    )];
    let (collected, _) =
        collect_accounts_to_store(&[], &mut results, &DurableNonce::default(), 9);
    assert!(collected.is_empty());
    match &results[0].executed_transaction().unwrap().loaded_transaction.rollback_accounts {
        RollbackAccounts::SameNonceAndFeePayer { nonce } => assert_eq!(nonce.account, account),
        _ => panic!("unexpected rollback accounts"),
    }
}

#[test]
fn advanced_nonce_can_be_read_back() {
    let authority = Address::new_unique();
    let legacy = NonceVersions::Legacy(Box::new(NonceState::Initialized(NonceData::new(
        authority,
        DurableNonce::from_blockhash(&solana_sdk::hash::Hash::new_unique()),
        1,
    ))));
    let mut account = nonce_account_with(42, &legacy);
    // Bytes after the record stay.
    account.data.extend_from_slice(&[7, 8, 9]);
    let mut nonce = NonceInfo::new(Pubkey { bytes: [3; 32] }, account);

    let durable_nonce = DurableNonce::from_blockhash(&solana_sdk::hash::Hash::new_unique());
    assert_eq!(
        nonce.try_advance_nonce(durable_nonce, 0x0102_0304_0506_0708),
        Ok(())
    );
    assert_eq!(nonce.address().bytes, [3; 32]);
    assert_eq!(nonce.account().lamports, 42);
    assert_eq!(nonce.account().data.len(), 83);
    assert_eq!(nonce.account().data[..8], [1, 0, 0, 0, 1, 0, 0, 0]);
    assert_eq!(nonce.account().data[8..40], authority.to_bytes());
    assert_eq!(
        nonce.account().data[40..72],
        durable_nonce.as_hash().to_bytes()
    );
    assert_eq!(nonce.account().data[72..], [8, 7, 6, 5, 4, 3, 2, 1, 7, 8, 9]);
    let data = nonce_account::verify_nonce_account(
        &runtime_account(nonce.account()),
        durable_nonce.as_hash(),
    )
    .unwrap();
    assert_eq!(data.authority, authority);
    assert_eq!(data.get_lamports_per_signature(), 0x0102_0304_0506_0708);

    // And it can be advanced again.
    let next = DurableNonce::from_blockhash(durable_nonce.as_hash());
    assert_eq!(nonce.try_advance_nonce(next, 2), Ok(()));
    assert_eq!(nonce.account().data[40..72], next.as_hash().to_bytes());
}

#[test]
fn other_accounts_hold_no_nonce_to_advance() {
    let durable_nonce = DurableNonce::default();
    let uninitialized = nonce_account_with(1, &NonceVersions::new(NonceState::Uninitialized));
    let mut nonce = NonceInfo::new(Pubkey::default(), uninitialized.clone());
    assert_eq!(
        nonce.try_advance_nonce(durable_nonce, 0),
        Err(AdvanceNonceError::Uninitialized)
    );
    assert_eq!(nonce.account, uninitialized);

    let initialized = nonce_account_with(
        1,
        &NonceVersions::new(NonceState::Initialized(NonceData::default())),
    );
    assert_eq!(initialized.data.len(), 80);
    let mut bad_version = initialized.clone();
    bad_version.data[0] = 2;
    let mut bad_state = initialized.clone();
    bad_state.data[7] = 1;
    let mut short = initialized.clone();
    short.data.truncate(79);
    for account in [new_account(5), bad_version, bad_state, short] {
        let mut nonce = NonceInfo::new(Pubkey::default(), account.clone());
        assert_eq!(
            nonce.try_advance_nonce(durable_nonce, 0),
            Err(AdvanceNonceError::Invalid)
        );
        assert_eq!(nonce.account, account);
    }
}

#[test]
fn runtime_transaction_is_read() {
    let from = keypair_from_seed(&[1; 32]).unwrap();
    let to = Address::new_unique();
    let instructions = vec![system_instruction::transfer(&from.pubkey(), &to, 42)];
    let message = RuntimeMessage::new(&instructions, Some(&from.pubkey()));
    let tx = new_sanitized_tx(&[&from], message, solana_sdk::hash::Hash::default());
    let message = tx.message();
    assert_eq!(
        message.account_keys,
        vec![key(&from.pubkey()), key(&to), key(&system_program::id())]
    );
    assert_eq!(message.writable, vec![true, true, false]);
    assert_eq!(message.invoked, vec![false, false, true]);
    assert_eq!(message.instruction_account, vec![true, true, false]);
    assert_eq!(message.num_write_locks, 2);
    assert!(message.locks_each_write());
    assert_eq!(message.fee_payer(), &key(&from.pubkey()));
    assert!(message.is_writable(1));
    assert!(!message.is_writable(3));
    assert!(message.is_invoked(2));
    assert!(!message.is_instruction_account(2));
}

#[test]
fn rollback_accounts_are_counted() {
    let nonce = NonceInfo::new(Pubkey::default(), new_account(1));
    assert_eq!(RollbackAccounts::default().count(), 1);
    assert_eq!(
        RollbackAccounts::SameNonceAndFeePayer {
            nonce: nonce.clone()
        }
        .count(),
        1
    );
    assert_eq!(
        RollbackAccounts::SeparateNonceAndFeePayer {
            nonce,
            fee_payer_account: new_account(1)
        }
        .count(),
        2
    );
}

#[test]
fn batch_with_invalid_nonce_is_noticed() {
    let (tx, accounts) = four_accounts();
    let with = |rollback_accounts: RollbackAccounts| {
        vec![new_execution_result(
            failure(),
            LoadedTransaction {
                accounts: accounts.clone(),
                rollback_accounts,
            },
        )]
    };
    let txs = vec![tx];
    let fee_payer_account = new_account(3);
    let valid = NonceInfo::new(
        Pubkey::default(),
        nonce_account_with(
            1,
            &NonceVersions::new(NonceState::Initialized(NonceData::default())),
        ),
    );
    let invalid = NonceInfo::new(Pubkey::default(), new_account(1));
    assert!(valid.is_initialized());
    assert!(!invalid.is_initialized());
    assert!(is_batch_collectable(
        &txs,
        &with(RollbackAccounts::SameNonceAndFeePayer {
            nonce: valid.clone()
        })
    ));
    assert!(is_batch_collectable(
        &txs,
        &with(RollbackAccounts::SeparateNonceAndFeePayer {
            nonce: valid,
            fee_payer_account: fee_payer_account.clone()
        })
    ));
    let bad = RollbackAccounts::SeparateNonceAndFeePayer {
        nonce: invalid,
        fee_payer_account,
    };
    assert!(!bad.is_advanceable());
    assert!(!is_batch_collectable(&txs, &with(bad.clone())));
    // Without a transaction it does not matter.
    assert!(is_batch_collectable(&[], &with(bad)));

    let mut no_payer = txs[0].clone();
    no_payer.message.account_keys.clear();
    assert!(!is_batch_collectable(
        &[no_payer],
        &with(RollbackAccounts::default())
    ));

    let mut too_many = txs[0].clone();
    too_many.message.num_write_locks = u64::MAX;
    let success = vec![new_execution_result(
        Ok(()),
        LoadedTransaction {
            accounts: vec![],
            rollback_accounts: RollbackAccounts::default(),
        },
    )];
    assert!(!is_batch_collectable(&[too_many], &success));
}

#[test]
fn capacity_suffices_for_a_mixed_batch() {
    let (tx, accounts) = four_accounts();
    let txs = vec![tx.clone(), tx.clone(), tx];
    let nonce = NonceInfo::new(
        Pubkey { bytes: [8; 32] },
        nonce_account_with(
            1,
            &NonceVersions::new(NonceState::Initialized(NonceData::default())),
        ),
    );
    let mut results = vec![
        new_execution_result(
            Ok(()),
            LoadedTransaction {
                accounts: accounts.clone(),
                rollback_accounts: RollbackAccounts::default(),
            },
        ),
        TransactionExecutionResult::NotExecuted(TransactionError::AccountInUse),
        new_execution_result(
            failure(),
            LoadedTransaction {
                accounts,
                rollback_accounts: RollbackAccounts::SeparateNonceAndFeePayer {
                    nonce,
                    fee_payer_account: new_account(6),
                },
            },
        ),
    ];
    let capacity = max_number_of_accounts_to_collect(&txs, &results);
    assert_eq!(capacity, 5);
    let (collected, transactions) =
        collect_accounts_to_store(&txs, &mut results, &DurableNonce::default(), 0);
    assert!(collected.len() <= capacity);
    let stored: Vec<u8> = collected.iter().map(|(k, _)| k.bytes[0]).collect();
    assert_eq!(stored, vec![1, 4, 1, 8]);
    assert_eq!(transactions.len(), collected.len());
    assert!(std::ptr::eq(transactions[1].unwrap(), &txs[0]));
    assert!(std::ptr::eq(transactions[2].unwrap(), &txs[2]));
}

#[test]
fn transactions_on_the_same_accounts_are_told_apart() {
    let payer = Keypair::new();
    let to = solana_sdk::pubkey::new_rand();
    let runtime = |lamports: u64| {
        let instruction = system_instruction::transfer(&payer.pubkey(), &to, lamports);
        let message = RuntimeMessage::new(&[instruction], Some(&payer.pubkey()));
        SanitizedTransaction::from_transaction_for_tests(UnsignedTransaction::new(
            &[&payer],
            message,
            solana_sdk::hash::Hash::default(),
        ))
    };
    let (one, two) = (runtime(1), runtime(2));
    let txs = vec![
        Transaction::from_runtime(&one).unwrap(),
        Transaction::from_runtime(&two).unwrap(),
    ];
    assert_eq!(txs[0].message, txs[1].message);
    assert_eq!(txs[0].message_hash, one.message_hash().to_bytes());
    assert_eq!(txs[0].signatures.len(), 1);
    assert_eq!(&txs[0].signatures[0][..], one.signature().as_ref());
    assert_ne!(txs[0].message_hash, txs[1].message_hash);
    assert_ne!(txs[0].signatures, txs[1].signatures);
    assert_ne!(txs[0], txs[1]);

    let result = |lamports: u64| {
        new_execution_result(
            failure(),
            LoadedTransaction {
                accounts: vec![],
                rollback_accounts: RollbackAccounts::FeePayerOnly {
                    fee_payer_account: new_account(lamports),
                },
            },
        )
    };
    let mut results = vec![result(10), result(20)];
    // Without a success the capacity is exact.
    assert_eq!(max_number_of_accounts_to_collect(&txs, &results), 2);
    let (collected, transactions) =
        collect_accounts_to_store(&txs, &mut results, &DurableNonce::default(), 0);
    assert_eq!(collected.len(), 2);
    assert_eq!(collected[0].1.lamports, 10);
    assert_eq!(collected[1].1.lamports, 20);
    assert_eq!(transactions, vec![Some(&txs[0]), Some(&txs[1])]);
}

#[test]
fn locks_are_held_against_writes() {
    let (tx, _) = four_accounts();
    let mut message = tx.message;
    assert!(message.locks_each_write());
    message.num_write_locks = 2;
    assert!(!message.locks_each_write());
    // Flags past the last key do not count.
    message.account_keys.truncate(3);
    assert!(message.locks_each_write());
}
