//! The accounts to which a failed transaction is rolled back.
use crate::account::AccountSharedData;
use crate::account::empty_account;
use crate::nonce_info::NonceInfo;
use vstd::prelude::*;

verus! {

/// Captured account state used to rollback account state for nonce and fee
/// payer accounts after a failed executed transaction.
#[derive(Debug, Clone, PartialEq, Eq)]
pub enum RollbackAccounts {
    FeePayerOnly { fee_payer_account: AccountSharedData },
    SameNonceAndFeePayer { nonce: NonceInfo },
    SeparateNonceAndFeePayer { nonce: NonceInfo, fee_payer_account: AccountSharedData },
}

impl RollbackAccounts {
    /// The nonce, if there is one.
    pub open spec fn nonce(&self) -> Option<NonceInfo> {
        match *self {
            RollbackAccounts::FeePayerOnly { .. } => None,
            RollbackAccounts::SameNonceAndFeePayer { nonce } => Some(nonce),
            RollbackAccounts::SeparateNonceAndFeePayer { nonce, .. } => Some(nonce),
        }
    }

    /// The nonce that is to be advanced, if there is one, holds an initialized
    /// record.
    pub open spec fn can_advance(&self) -> bool {
        match *self {
            RollbackAccounts::FeePayerOnly { .. } => true,
            RollbackAccounts::SameNonceAndFeePayer { nonce } => nonce.can_advance(),
            RollbackAccounts::SeparateNonceAndFeePayer { nonce, .. } => nonce.can_advance(),
        }
    }

    /// Whether `after` is this value with its nonce, if there is one, advanced.
    pub open spec fn advanced_to(
        &self,
        after: RollbackAccounts,
        durable_nonce: Seq<u8>,
        lamports_per_signature: u64,
    ) -> bool {
        match *self {
            RollbackAccounts::FeePayerOnly { .. } => after == *self,
            RollbackAccounts::SameNonceAndFeePayer { nonce } => {
                &&& after is SameNonceAndFeePayer
                &&& nonce.advanced_to(
                    after->SameNonceAndFeePayer_nonce,
                    durable_nonce,
                    lamports_per_signature,
                )
            },
            RollbackAccounts::SeparateNonceAndFeePayer { nonce, fee_payer_account } => {
                &&& after is SeparateNonceAndFeePayer
                &&& after->SeparateNonceAndFeePayer_fee_payer_account == fee_payer_account
                &&& nonce.advanced_to(
                    after->SeparateNonceAndFeePayer_nonce,
                    durable_nonce,
                    lamports_per_signature,
                )
            },
        }
    }

    /// Whether the nonce, if there is one, can be advanced.
    pub fn is_advanceable(&self) -> (r: bool)
        ensures
            r == self.can_advance(),
    {
        match self {
            RollbackAccounts::FeePayerOnly { .. } => true,
            RollbackAccounts::SameNonceAndFeePayer { nonce } => nonce.is_initialized(),
            RollbackAccounts::SeparateNonceAndFeePayer { nonce, .. } => nonce.is_initialized(),
        }
    }

    /// The number of accounts held here.
    pub open spec fn spec_count(&self) -> nat {
        match *self {
            RollbackAccounts::FeePayerOnly { .. } => 1,
            RollbackAccounts::SameNonceAndFeePayer { .. } => 1,
            RollbackAccounts::SeparateNonceAndFeePayer { .. } => 2,
        }
    }

    /// Number of accounts tracked for rollback.
    pub fn count(&self) -> (r: usize)
        ensures
            r == self.spec_count(),
    {
        match self {
            RollbackAccounts::FeePayerOnly { .. } => 1,
            RollbackAccounts::SameNonceAndFeePayer { .. } => 1,
            RollbackAccounts::SeparateNonceAndFeePayer { .. } => 2,
        }
    }
}

impl Default for RollbackAccounts {
    fn default() -> (r: Self)
        ensures
            r is FeePayerOnly,
            r->FeePayerOnly_fee_payer_account@ == empty_account(),
    {
        RollbackAccounts::FeePayerOnly { fee_payer_account: AccountSharedData::default() }
    }
}

/// There is one account to roll back to, or two where the nonce is not the fee payer's.
pub proof fn law_accounts_are_counted(rollback: &RollbackAccounts, result: usize)
    requires
        call_ensures(RollbackAccounts::count, (rollback,), result),
    ensures
        rollback is SeparateNonceAndFeePayer ==> result == 2,
        !(rollback is SeparateNonceAndFeePayer) ==> result == 1,
        result == rollback.spec_count(),
{
}

/// Nothing stands in the way where there is no nonce, and else the nonce decides.
pub proof fn law_the_nonce_decides(rollback: &RollbackAccounts, result: bool)
    requires
        call_ensures(RollbackAccounts::is_advanceable, (rollback,), result),
    ensures
        rollback is FeePayerOnly ==> result,
        rollback is SameNonceAndFeePayer ==> result
            == rollback->SameNonceAndFeePayer_nonce.can_advance(),
        rollback is SeparateNonceAndFeePayer ==> result
            == rollback->SeparateNonceAndFeePayer_nonce.can_advance(),
        result == rollback.can_advance(),
{
}

/// Advancing touches the nonce alone: the accounts are of the same kind, the fee payer's
/// account is as it was, and where there is no nonce nothing changes.
pub proof fn law_advancing_touches_the_nonce_alone(
    before: RollbackAccounts,
    after: RollbackAccounts,
    durable_nonce: Seq<u8>,
    lamports_per_signature: u64,
)
    requires
        before.advanced_to(after, durable_nonce, lamports_per_signature),
    ensures
        before is FeePayerOnly ==> after == before,
        before is SameNonceAndFeePayer ==> {
            &&& after is SameNonceAndFeePayer
            &&& before->SameNonceAndFeePayer_nonce.advanced_to(
                after->SameNonceAndFeePayer_nonce,
                durable_nonce,
                lamports_per_signature,
            )
        },
        before is SeparateNonceAndFeePayer ==> {
            &&& after is SeparateNonceAndFeePayer
            &&& after->SeparateNonceAndFeePayer_fee_payer_account
                == before->SeparateNonceAndFeePayer_fee_payer_account
            &&& before->SeparateNonceAndFeePayer_nonce.advanced_to(
                after->SeparateNonceAndFeePayer_nonce,
                durable_nonce,
                lamports_per_signature,
            )
        },
{
}

} // verus!
