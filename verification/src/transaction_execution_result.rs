//! The outcome of executing a transaction.
use crate::account::TransactionAccount;
use crate::rollback_accounts::RollbackAccounts;
use vstd::prelude::*;

verus! {

/// Why a transaction failed, `solana_transaction_error`'s `TransactionError`.
#[verifier::external_type_specification]
#[verifier::external_body]
pub struct ExTransactionError(solana_transaction_error::TransactionError);

/// The accounts that a transaction was loaded with.
#[derive(Debug, Clone, PartialEq, Eq)]
pub struct LoadedTransaction {
    /// the accounts after execution, in the order of the message's account keys
    pub accounts: Vec<TransactionAccount>,
    /// what to store instead if execution failed
    pub rollback_accounts: RollbackAccounts,
}

/// How execution ended.
#[derive(Debug, PartialEq, Eq)]
pub struct TransactionExecutionDetails {
    pub status: Result<(), solana_transaction_error::TransactionError>,
}

/// A transaction that was executed, with or without success.
#[derive(Debug, PartialEq, Eq)]
pub struct ExecutedTransaction {
    pub loaded_transaction: LoadedTransaction,
    pub execution_details: TransactionExecutionDetails,
}

/// Whether a transaction was executed, and what came of it.
#[derive(Debug, PartialEq, Eq)]
pub enum TransactionExecutionResult {
    Executed(Box<ExecutedTransaction>),
    NotExecuted(solana_transaction_error::TransactionError),
}

impl ExecutedTransaction {
    /// Whether execution succeeded.
    pub open spec fn succeeded(&self) -> bool {
        self.execution_details.status is Ok
    }

    /// Whether `after` is this value with the nonce of its rollback accounts
    /// advanced.
    pub open spec fn advanced_to(
        &self,
        after: ExecutedTransaction,
        durable_nonce: Seq<u8>,
        lamports_per_signature: u64,
    ) -> bool {
        &&& after.execution_details == self.execution_details
        &&& after.loaded_transaction.accounts == self.loaded_transaction.accounts
        &&& self.loaded_transaction.rollback_accounts.advanced_to(
            after.loaded_transaction.rollback_accounts,
            durable_nonce,
            lamports_per_signature,
        )
    }
}

impl TransactionExecutionResult {
    /// The transaction was executed and failed.
    pub open spec fn failed(&self) -> bool {
        self is Executed && !self->Executed_0.succeeded()
    }

    /// Whether `after` is what becomes of this result when its accounts are
    /// stored: of a failed transaction the nonce is advanced, and nothing else
    /// changes.
    pub open spec fn stored_as(
        &self,
        after: TransactionExecutionResult,
        durable_nonce: Seq<u8>,
        lamports_per_signature: u64,
    ) -> bool {
        if self.failed() {
            &&& after is Executed
            &&& self->Executed_0.advanced_to(
                *after->Executed_0,
                durable_nonce,
                lamports_per_signature,
            )
        } else {
            after == *self
        }
    }

    /// The executed transaction, if there is one.
    pub fn executed_transaction(&self) -> (r: Option<&ExecutedTransaction>)
        ensures
            match *self {
                TransactionExecutionResult::Executed(tx) => r == Some(&*tx),
                TransactionExecutionResult::NotExecuted(_) => r is None,
            },
    {
        match self {
            TransactionExecutionResult::Executed(tx) => Some(&**tx),
            TransactionExecutionResult::NotExecuted(_) => None,
        }
    }

    /// The executed transaction, if there is one, to be changed in place.
    pub fn executed_transaction_mut(&mut self) -> (r: Option<&mut ExecutedTransaction>)
        ensures
            match *old(self) {
                TransactionExecutionResult::Executed(tx) => {
                    &&& r is Some
                    &&& *r->0 == *tx
                    &&& *final(self) == TransactionExecutionResult::Executed(
                        Box::new(*final(r->0)),
                    )
                },
                TransactionExecutionResult::NotExecuted(_) => r is None && *final(self) == *old(
                    self,
                ),
            },
    {
        match self {
            TransactionExecutionResult::Executed(tx) => Some(&mut **tx),
            TransactionExecutionResult::NotExecuted(_) => None,
        }
    }
}

/// Storing leaves alone what was not executed and what succeeded. Of a failed
/// transaction it advances the rollback accounts and leaves the error and the loaded
/// accounts as they were.
pub proof fn law_storing_advances_failures_alone(
    before: TransactionExecutionResult,
    after: TransactionExecutionResult,
    durable_nonce: Seq<u8>,
    lamports_per_signature: u64,
)
    requires
        before.stored_as(after, durable_nonce, lamports_per_signature),
    ensures
        before is NotExecuted ==> after == before,
        before is Executed && before->Executed_0.execution_details.status is Ok ==> after == before,
        before is Executed && before->Executed_0.execution_details.status is Err ==> {
            &&& after is Executed
            &&& after->Executed_0.execution_details.status
                == before->Executed_0.execution_details.status
            &&& after->Executed_0.loaded_transaction.accounts
                == before->Executed_0.loaded_transaction.accounts
            &&& before->Executed_0.loaded_transaction.rollback_accounts.advanced_to(
                after->Executed_0.loaded_transaction.rollback_accounts,
                durable_nonce,
                lamports_per_signature,
            )
        },
{
}

/// A transaction failed if and only if it was executed and ended with an error.
pub proof fn law_failed_means_executed_with_an_error(result: TransactionExecutionResult)
    ensures
        result.failed() <==> result is Executed && result->Executed_0.execution_details.status is Err,
{
}

} // verus!
