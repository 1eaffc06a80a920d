//! What transaction processing asks of the runtime around it.
use crate::account::AccountSharedData;
use crate::pubkey::Pubkey;
use crate::svm_rent_collector::RentCollector;
use std::sync::Arc;
use vstd::prelude::*;

verus! {

/// The features that are active, `solana_feature_set`'s `FeatureSet`.
#[verifier::external_type_specification]
#[verifier::external_body]
pub struct ExRuntimeFeatureSet(solana_sdk::feature_set::FeatureSet);

/// The hash of a block.
#[derive(Debug, Clone, Copy, PartialEq, Eq)]
pub struct Hash {
    pub bytes: [u8; 32],
}

/// Which entries of the program cache match a program.
#[derive(Debug, Clone, Copy, PartialEq, Eq)]
pub enum ProgramCacheMatchCriteria {
    DeployedOnOrAfterSlot(u64),
    Tombstone,
    NoCriteria,
}

/// Runtime callbacks for transaction processing.
pub trait TransactionProcessingCallback {
    fn account_matches_owners(&mut self, account: &Pubkey, owners: &[Pubkey]) -> Option<usize>;

    fn get_account_shared_data(&mut self, pubkey: &Pubkey) -> Option<AccountSharedData>;

    fn get_last_blockhash_and_lamports_per_signature(&mut self) -> (Hash, u64);

    fn get_rent_collector(&mut self) -> &RentCollector;

    fn get_feature_set(&mut self) -> Arc<solana_sdk::feature_set::FeatureSet>;

    /// Every entry matches, unless an implementation says otherwise.
    fn get_program_match_criteria(&mut self, _program: &Pubkey) -> (r: ProgramCacheMatchCriteria)
        default_ensures
            r == ProgramCacheMatchCriteria::NoCriteria,
            &*final(self) == &*old(self),
    {
        ProgramCacheMatchCriteria::NoCriteria
    }

    /// Nothing happens, unless an implementation says otherwise.
    fn add_builtin_account(&mut self, _name: &str, _program_id: &Pubkey)
        default_ensures
            &*final(self) == &*old(self),
    {
    }
}

} // verus!
