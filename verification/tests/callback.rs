//! What transaction processing asks of the runtime.
#![allow(deprecated)]
use std::sync::Arc;
use svm_core::account::AccountSharedData;
use svm_core::pubkey::Pubkey;
use svm_core::transaction_processing_callback::ProgramCacheMatchCriteria;
use svm_core::transaction_processing_callback::TransactionProcessingCallback;
use svm_core::RentCollector;

struct Bank {
    rent_collector: RentCollector,
    accounts: Vec<(Pubkey, AccountSharedData)>,
}

impl TransactionProcessingCallback for Bank {
    fn account_matches_owners(&mut self, account: &Pubkey, owners: &[Pubkey]) -> Option<usize> {
        let found = self.get_account_shared_data(account)?;
        owners.iter().position(|owner| *owner == found.owner)
    }

    fn get_account_shared_data(&mut self, pubkey: &Pubkey) -> Option<AccountSharedData> {
        self.accounts
            .iter()
            .find(|(key, _)| key == pubkey)
            .map(|(_, account)| account.clone())
    }

    fn get_last_blockhash_and_lamports_per_signature(&mut self) -> (svm_core::transaction_processing_callback::Hash, u64) {
        (svm_core::transaction_processing_callback::Hash { bytes: [9; 32] }, 5000)
    }

    fn get_rent_collector(&mut self) -> &RentCollector {
        &self.rent_collector
    }

    fn get_feature_set(&mut self) -> Arc<solana_sdk::feature_set::FeatureSet> {
        Arc::new(solana_sdk::feature_set::FeatureSet::default())
    }
}

#[test]
fn defaults_ask_for_nothing() {
    let owner = Pubkey { bytes: [2; 32] };
    let address = Pubkey { bytes: [1; 32] };
    let account = AccountSharedData {
        owner,
        ..AccountSharedData::default()
    };
    let mut bank = Bank {
        rent_collector: RentCollector::default(),
        accounts: vec![(address, account.clone())],
    };
    assert_eq!(
        bank.get_program_match_criteria(&address),
        ProgramCacheMatchCriteria::NoCriteria
    );
    bank.add_builtin_account("system_program", &address);
    assert_eq!(bank.accounts.len(), 1);
    assert_eq!(bank.get_account_shared_data(&address), Some(account));
    assert_eq!(
        bank.account_matches_owners(&address, &[address, owner]),
        Some(1)
    );
    assert_eq!(
        bank.get_last_blockhash_and_lamports_per_signature(),
        (svm_core::transaction_processing_callback::Hash { bytes: [9; 32] }, 5000)
    );
    assert_eq!(bank.get_rent_collector().epoch, 0);
    assert_eq!(bank.get_feature_set().active.len(), 0);
}

#[test]
fn callbacks_can_be_an_object() {
    let address = Pubkey { bytes: [1; 32] };
    let mut bank = Bank {
        rent_collector: RentCollector::default(),
        accounts: vec![],
    };
    let callbacks: &mut dyn TransactionProcessingCallback = &mut bank;
    assert_eq!(
        callbacks.get_program_match_criteria(&address),
        ProgramCacheMatchCriteria::NoCriteria
    );
    callbacks.add_builtin_account("system_program", &address);
    assert_eq!(callbacks.get_account_shared_data(&address), None);
}
