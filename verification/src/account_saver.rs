//! The accounts to store after a batch of transactions was executed.
use crate::account::AccountSharedData;
use crate::account::TransactionAccount;
use crate::message::Message;
use crate::message::Transaction;
use crate::message::count_set;
use crate::message::flag_at;
use crate::nonce_info::NonceData;
use crate::nonce_info::NonceRecord;
use crate::nonce_info::decode_nonce;
use crate::nonce_info::durable_nonce_hash;
use crate::nonce_info::law_advanced_nonce_holds_durable_nonce;
use crate::pubkey::Pubkey;
use crate::rollback_accounts::RollbackAccounts;
use crate::transaction_execution_result::TransactionExecutionResult;
use vstd::prelude::*;

verus! {

/// The accounts that a list of references points to.
pub open spec fn pointees(accounts: Seq<(&Pubkey, &AccountSharedData)>) -> Seq<TransactionAccount> {
    accounts.map_values(|account: (&Pubkey, &AccountSharedData)| (*account.0, *account.1))
}

/// The transactions that a list of references points to.
pub open spec fn sources(transactions: Seq<Option<&Transaction>>) -> Seq<Option<Transaction>> {
    transactions.map_values(
        |transaction: Option<&Transaction>|
            match transaction {
                Some(tx) => Some(*tx),
                None => None,
            },
    )
}

/// The smaller of two lengths.
pub open spec fn min_len(a: nat, b: nat) -> nat {
    if a < b {
        a
    } else {
        b
    }
}

/// Whether a successful transaction stores the account at an index: it may be
/// written to, and it is not merely invoked.
pub open spec fn stores(message: Message, index: int) -> bool {
    &&& flag_at(message.writable@, index)
    &&& !flag_at(message.invoked@, index) || flag_at(message.instruction_account@, index)
}

/// Of the first `n` accounts of a transaction, those that are stored if it
/// succeeded, in their order.
pub open spec fn stored_accounts(
    message: Message,
    accounts: Seq<TransactionAccount>,
    n: nat,
) -> Seq<TransactionAccount>
    decreases n,
{
    if n == 0 {
        Seq::empty()
    } else {
        let before = stored_accounts(message, accounts, (n - 1) as nat);
        if stores(message, n - 1) {
            before.push(accounts[n - 1])
        } else {
            before
        }
    }
}

/// The accounts to which a failed transaction is rolled back: the fee payer, then
/// the nonce, where they differ.
pub open spec fn rolled_back_accounts(
    fee_payer: Pubkey,
    rollback: RollbackAccounts,
) -> Seq<TransactionAccount> {
    match rollback {
        RollbackAccounts::FeePayerOnly { fee_payer_account } => seq![(fee_payer, fee_payer_account)],
        RollbackAccounts::SameNonceAndFeePayer { nonce } => seq![(nonce.address, nonce.account)],
        RollbackAccounts::SeparateNonceAndFeePayer { nonce, fee_payer_account } => seq![
            (fee_payer, fee_payer_account),
            (nonce.address, nonce.account),
        ],
    }
}

/// The accounts that one transaction stores, given its result after nonces were
/// advanced.
pub open spec fn accounts_of(tx: Transaction, result: TransactionExecutionResult) -> Seq<TransactionAccount> {
    match result {
        TransactionExecutionResult::Executed(executed) => {
            let loaded = executed.loaded_transaction;
            if executed.succeeded() {
                stored_accounts(
                    tx.message,
                    loaded.accounts@,
                    min_len(tx.message.account_keys@.len(), loaded.accounts@.len()),
                )
            } else {
                rolled_back_accounts(tx.message.account_keys@[0], loaded.rollback_accounts)
            }
        },
        TransactionExecutionResult::NotExecuted(_) => Seq::empty(),
    }
}

/// The accounts that the first `n` transactions store, in their order.
pub open spec fn accounts_to_store(
    txs: Seq<Transaction>,
    results: Seq<TransactionExecutionResult>,
    n: nat,
) -> Seq<TransactionAccount>
    decreases n,
{
    if n == 0 {
        Seq::empty()
    } else {
        accounts_to_store(txs, results, (n - 1) as nat) + accounts_of(txs[n - 1], results[n - 1])
    }
}

/// For each account that the first `n` transactions store, the transaction that
/// stores it.
pub open spec fn transactions_of_accounts(
    txs: Seq<Transaction>,
    results: Seq<TransactionExecutionResult>,
    n: nat,
) -> Seq<Option<Transaction>>
    decreases n,
{
    if n == 0 {
        Seq::empty()
    } else {
        transactions_of_accounts(txs, results, (n - 1) as nat) + Seq::new(
            accounts_of(txs[n - 1], results[n - 1]).len(),
            |i: int| Some(txs[n - 1]),
        )
    }
}

/// The number of accounts that one transaction may store.
pub open spec fn max_accounts_of(tx: Transaction, result: TransactionExecutionResult) -> nat {
    match result {
        TransactionExecutionResult::Executed(executed) => if executed.succeeded() {
            (tx.message.num_write_locks as usize) as nat
        } else {
            executed.loaded_transaction.rollback_accounts.spec_count()
        },
        TransactionExecutionResult::NotExecuted(_) => 0,
    }
}

/// The number of accounts that the first `n` transactions may store.
pub open spec fn max_accounts(
    txs: Seq<Transaction>,
    results: Seq<TransactionExecutionResult>,
    n: nat,
) -> nat
    decreases n,
{
    if n == 0 {
        0
    } else {
        max_accounts(txs, results, (n - 1) as nat) + max_accounts_of(txs[n - 1], results[n - 1])
    }
}

/// A prefix of a batch needs no more room than the batch.
proof fn lemma_max_accounts_monotonic(
    txs: Seq<Transaction>,
    results: Seq<TransactionExecutionResult>,
    m: nat,
    n: nat,
)
    requires
        m <= n,
    ensures
        max_accounts(txs, results, m) <= max_accounts(txs, results, n),
    decreases n,
{
    if m < n {
        lemma_max_accounts_monotonic(txs, results, m, (n - 1) as nat);
    }
}

/// Used to approximate how many accounts will be calculated for storage so that
/// vectors are allocated with an appropriate capacity. Doesn't account for some
/// optimization edge cases where some write locked accounts have skip storage.
pub fn max_number_of_accounts_to_collect(
    txs: &[Transaction],
    execution_results: &[TransactionExecutionResult],
) -> (r: usize)
    requires
        max_accounts(txs@, execution_results@, min_len(txs@.len(), execution_results@.len()))
            <= usize::MAX,
    ensures
        r == max_accounts(txs@, execution_results@, min_len(txs@.len(), execution_results@.len())),
{
    let n: usize = if txs.len() < execution_results.len() {
        txs.len()
    } else {
        execution_results.len()
    };
    let mut total: usize = 0;
    let mut i: usize = 0;
    while i < n
        invariant
            i <= n,
            n == min_len(txs@.len(), execution_results@.len()),
            max_accounts(txs@, execution_results@, n as nat) <= usize::MAX,
            total == max_accounts(txs@, execution_results@, i as nat),
        decreases n - i,
    {
        let count: usize = match execution_results[i].executed_transaction() {
            Some(executed) => match executed.execution_details.status {
                Ok(_) => txs[i].message().num_write_locks as usize,
                Err(_) => executed.loaded_transaction.rollback_accounts.count(),
            },
            None => 0,
        };
        assert(count == max_accounts_of(txs@[i as int], execution_results@[i as int]));
        proof {
            lemma_max_accounts_monotonic(txs@, execution_results@, (i + 1) as nat, n as nat);
        }
        total = total + count;
        i = i + 1;
    }
    total
}

/// Appends the accounts that a successful transaction stores.
fn collect_accounts_for_successful_tx<'a>(
    collected_accounts: &mut Vec<(&'a Pubkey, &'a AccountSharedData)>,
    collected_account_transactions: &mut Vec<Option<&'a Transaction>>,
    transaction: &'a Transaction,
    transaction_accounts: &'a [TransactionAccount],
)
    ensures
        ({
            let stored = stored_accounts(
                transaction.message,
                transaction_accounts@,
                min_len(
                    transaction.message.account_keys@.len(),
                    transaction_accounts@.len(),
                ),
            );
            &&& pointees(final(collected_accounts)@) == pointees(old(collected_accounts)@) + stored
            &&& sources(final(collected_account_transactions)@) == sources(
                old(collected_account_transactions)@,
            ) + Seq::new(stored.len(), |i: int| Some(*transaction))
        }),
{
    let message = transaction.message();
    let n: usize = if message.account_keys.len() < transaction_accounts.len() {
        message.account_keys.len()
    } else {
        transaction_accounts.len()
    };
    let ghost accounts_before = pointees(collected_accounts@);
    let ghost transactions_before = sources(collected_account_transactions@);
    let mut i: usize = 0;
    while i < n
        invariant
            i <= n,
            n == min_len(message.account_keys@.len(), transaction_accounts@.len()),
            *message == transaction.message,
            pointees(collected_accounts@) == accounts_before + stored_accounts(
                *message,
                transaction_accounts@,
                i as nat,
            ),
            sources(collected_account_transactions@) == transactions_before + Seq::new(
                stored_accounts(*message, transaction_accounts@, i as nat).len(),
                |i: int| Some(*transaction),
            ),
        decreases n - i,
    {
        let ghost accounts_now = collected_accounts@;
        let ghost transactions_now = collected_account_transactions@;
        let ghost stored = stored_accounts(*message, transaction_accounts@, i as nat);
        // Accounts that are invoked and also not passed as an instruction
        // account to a program don't need to be stored because it's assumed
        // to be impossible for a committable transaction to modify an
        // invoked account if said account isn't passed to some program.
        if message.is_writable(i) && (!message.is_invoked(i) || message.is_instruction_account(i)) {
            let account = &transaction_accounts[i];
            collected_accounts.push((&account.0, &account.1));
            collected_account_transactions.push(Some(transaction));
            assert(pointees(collected_accounts@) =~= pointees(accounts_now).push(
                transaction_accounts@[i as int],
            ));
            assert(sources(collected_account_transactions@) =~= sources(transactions_now).push(
                Some(*transaction),
            ));
            assert(stored_accounts(*message, transaction_accounts@, (i + 1) as nat)
                == stored.push(transaction_accounts@[i as int]));
        } else {
            assert(stored_accounts(*message, transaction_accounts@, (i + 1) as nat) == stored);
        }
        i = i + 1;
    }
}

/// Appends the accounts to which a failed transaction is rolled back, with the
/// nonce, if there is one, advanced.
fn collect_accounts_for_failed_tx<'a>(
    collected_accounts: &mut Vec<(&'a Pubkey, &'a AccountSharedData)>,
    collected_account_transactions: &mut Vec<Option<&'a Transaction>>,
    transaction: &'a Transaction,
    rollback_accounts: &'a mut RollbackAccounts,
    durable_nonce: &solana_sdk::nonce::state::DurableNonce,
    lamports_per_signature: u64,
)
    requires
        transaction.message.account_keys@.len() > 0,
        old(rollback_accounts).can_advance(),
    ensures
        old(rollback_accounts).advanced_to(
            *final(rollback_accounts),
            durable_nonce_hash(*durable_nonce),
            lamports_per_signature,
        ),
        ({
            let stored = rolled_back_accounts(
                transaction.message.account_keys@[0],
                *final(rollback_accounts),
            );
            &&& pointees(final(collected_accounts)@) == pointees(old(collected_accounts)@) + stored
            &&& sources(final(collected_account_transactions)@) == sources(
                old(collected_account_transactions)@,
            ) + Seq::new(stored.len(), |i: int| Some(*transaction))
        }),
{
    let message = transaction.message();
    let fee_payer_address = message.fee_payer();
    match rollback_accounts {
        RollbackAccounts::FeePayerOnly { fee_payer_account } => {
            collected_accounts.push((fee_payer_address, &*fee_payer_account));
            collected_account_transactions.push(Some(transaction));
        },
        RollbackAccounts::SameNonceAndFeePayer { nonce } => {
            let advanced = nonce.try_advance_nonce(*durable_nonce, lamports_per_signature);
            assert(advanced is Ok);
            collected_accounts.push((nonce.address(), nonce.account()));
            collected_account_transactions.push(Some(transaction));
        },
        RollbackAccounts::SeparateNonceAndFeePayer { nonce, fee_payer_account } => {
            collected_accounts.push((fee_payer_address, &*fee_payer_account));
            collected_account_transactions.push(Some(transaction));

            let advanced = nonce.try_advance_nonce(*durable_nonce, lamports_per_signature);
            assert(advanced is Ok);
            collected_accounts.push((nonce.address(), nonce.account()));
            collected_account_transactions.push(Some(transaction));
        },
    }
}

/// Whether each of the first `n` transactions locks each account that it may write to,
/// and its locks can be counted.
pub open spec fn locks_suffice(txs: Seq<Transaction>, n: nat) -> bool {
    forall|i: int|
        0 <= i < n ==> (#[trigger] txs[i]).message.locks_cover_writes()
            && txs[i].message.num_write_locks <= usize::MAX
}

/// Whether none of the first `n` transactions was executed with success.
pub open spec fn none_succeeded(results: Seq<TransactionExecutionResult>, n: nat) -> bool {
    forall|i: int| 0 <= i < n ==> (#[trigger] results[i]) is NotExecuted || results[i].failed()
}

/// Whether a vector of that many pairs of references can exist.
pub open spec fn fits_in_vector(n: nat) -> bool {
    n * 16 <= isize::MAX
}

/// Whether the accounts of one transaction can be collected: if it failed, it has a
/// fee payer and the nonce to be advanced is valid.
pub open spec fn collectable(tx: Transaction, result: TransactionExecutionResult) -> bool {
    result.failed() ==> {
        &&& tx.message.account_keys@.len() > 0
        &&& result->Executed_0.loaded_transaction.rollback_accounts.can_advance()
    }
}

/// Whether the accounts of a batch can be collected.
pub open spec fn batch_collectable(
    txs: Seq<Transaction>,
    results: Seq<TransactionExecutionResult>,
) -> bool {
    &&& fits_in_vector(max_accounts(txs, results, min_len(txs.len(), results.len())))
    &&& forall|i: int|
        0 <= i < txs.len() && i < results.len() ==> collectable(txs[i], #[trigger] results[i])
}

/// Whether the accounts of a batch can be collected.
pub fn is_batch_collectable(
    txs: &[Transaction],
    execution_results: &[TransactionExecutionResult],
) -> (r: bool)
    ensures
        r == batch_collectable(txs@, execution_results@),
{
    let n: usize = if txs.len() < execution_results.len() {
        txs.len()
    } else {
        execution_results.len()
    };
    let limit: usize = isize::MAX as usize / 16;
    let mut room: usize = limit;
    let mut i: usize = 0;
    while i < n
        invariant
            i <= n,
            n == min_len(txs@.len(), execution_results@.len()),
            limit == isize::MAX as int / 16,
            room + max_accounts(txs@, execution_results@, i as nat) == limit,
            forall|j: int| 0 <= j < i ==> collectable(txs@[j], #[trigger] execution_results@[j]),
        decreases n - i,
    {
        let mut count: usize = 0;
        if let Some(executed) = execution_results[i].executed_transaction() {
            match executed.execution_details.status {
                Ok(_) => {
                    count = txs[i].message().num_write_locks as usize;
                },
                Err(_) => {
                    count = executed.loaded_transaction.rollback_accounts.count();
                    if txs[i].message().account_keys.len() == 0
                        || !executed.loaded_transaction.rollback_accounts.is_advanceable() {
                        assert(!collectable(txs@[i as int], execution_results@[i as int]));
                        return false;
                    }
                },
            }
        }
        assert(count == max_accounts_of(txs@[i as int], execution_results@[i as int]));
        proof {
            lemma_max_accounts_monotonic(txs@, execution_results@, (i + 1) as nat, n as nat);
        }
        if count > room {
            return false;
        }
        room = room - count;
        i = i + 1;
    }
    true
}

/// Collects the accounts that a batch of transactions stores, with the transaction
/// that stores each of them. Of a failed transaction these are the accounts to which
/// it is rolled back, whose nonce is advanced in place.
pub fn collect_accounts_to_store<'a>(
    txs: &'a [Transaction],
    execution_results: &'a mut [TransactionExecutionResult],
    durable_nonce: &solana_sdk::nonce::state::DurableNonce,
    lamports_per_signature: u64,
) -> (r: (Vec<(&'a Pubkey, &'a AccountSharedData)>, Vec<Option<&'a Transaction>>))
    requires
        batch_collectable(txs@, old(execution_results)@),
    ensures
        final(execution_results)@.len() == old(execution_results)@.len(),
        forall|i: int|
            0 <= i < txs@.len() && i < old(execution_results)@.len() ==> (#[trigger] old(
                execution_results,
            )@[i]).stored_as(
                final(execution_results)@[i],
                durable_nonce_hash(*durable_nonce),
                lamports_per_signature,
            ),
        forall|i: int|
            txs@.len() <= i < old(execution_results)@.len() ==> final(execution_results)@[i]
                == #[trigger] old(execution_results)@[i],
        pointees(r.0@) == accounts_to_store(
            txs@,
            final(execution_results)@,
            min_len(txs@.len(), old(execution_results)@.len()),
        ),
        sources(r.1@) == transactions_of_accounts(
            txs@,
            final(execution_results)@,
            min_len(txs@.len(), old(execution_results)@.len()),
        ),
        r.0@.len() == r.1@.len(),
        locks_suffice(txs@, min_len(txs@.len(), old(execution_results)@.len())) ==> r.0@.len()
            <= max_accounts(
            txs@,
            old(execution_results)@,
            min_len(txs@.len(), old(execution_results)@.len()),
        ),
        none_succeeded(
            old(execution_results)@,
            min_len(txs@.len(), old(execution_results)@.len()),
        ) ==> r.0@.len() == max_accounts(
            txs@,
            old(execution_results)@,
            min_len(txs@.len(), old(execution_results)@.len()),
        ),
{
    let collect_capacity: usize = max_number_of_accounts_to_collect(txs, execution_results);
    let mut accounts: Vec<(&'a Pubkey, &'a AccountSharedData)> = Vec::with_capacity(
        collect_capacity,
    );
    let mut transactions: Vec<Option<&'a Transaction>> = Vec::with_capacity(collect_capacity);
    let n: usize = if txs.len() < execution_results.len() {
        txs.len()
    } else {
        execution_results.len()
    };
    let ghost before = execution_results@;
    let ghost after = final(execution_results)@;
    let ghost nonce = durable_nonce_hash(*durable_nonce);
    let mut rest: &'a mut [TransactionExecutionResult] = execution_results;
    let mut i: usize = 0;
    while i < n
        invariant
            i <= n,
            n == min_len(txs@.len(), before.len()),
            nonce == durable_nonce_hash(*durable_nonce),
            rest@ == before.skip(i as int),
            after.len() == i + final(rest)@.len(),
            after.skip(i as int) == final(rest)@,
            forall|j: int|
                0 <= j < n ==> collectable(txs@[j], #[trigger] before[j]),
            forall|j: int|
                0 <= j < i ==> (#[trigger] before[j]).stored_as(
                    after[j],
                    nonce,
                    lamports_per_signature,
                ),
            pointees(accounts@) == accounts_to_store(txs@, after, i as nat),
            sources(transactions@) == transactions_of_accounts(txs@, after, i as nat),
        decreases n - i,
    {
        let current = rest;
        let ghost current_after = final(current)@;
        let (head, tail) = current.split_at_mut(1);
        let execution_result = head.first_mut().unwrap();
        let ghost result_after = *final(execution_result);
        assert(*execution_result == before[i as int]);
        let tx = &txs[i];
        // Don't store any accounts if tx wasn't executed
        if let Some(executed_tx) = execution_result.executed_transaction_mut() {
            match executed_tx.execution_details.status {
                Ok(_) => collect_accounts_for_successful_tx(
                    &mut accounts,
                    &mut transactions,
                    tx,
                    executed_tx.loaded_transaction.accounts.as_slice(),
                ),
                Err(_) => collect_accounts_for_failed_tx(
                    &mut accounts,
                    &mut transactions,
                    tx,
                    &mut executed_tx.loaded_transaction.rollback_accounts,
                    durable_nonce,
                    lamports_per_signature,
                ),
            }
        }
        proof {
            assert(final(tail)@ == current_after.skip(1));
            assert(current_after[0] == result_after);
            assert(after[i as int] == after.skip(i as int)[0]);
            assert(after.skip(i + 1) == after.skip(i as int).skip(1));
        }
        rest = tail;
        i = i + 1;
    }
    proof {
        assert forall|j: int| n <= j < before.len() implies after[j] == #[trigger] before[j] by {
            assert(before.skip(n as int)[j - n] == before[j]);
            assert(after.skip(n as int)[j - n] == after[j]);
        }
    }
    proof {
        law_every_account_has_its_transaction(txs@, after, n as nat);
        assert(accounts@.len() == pointees(accounts@).len());
        assert(transactions@.len() == sources(transactions@).len());
        if locks_suffice(txs@, n as nat) {
            law_capacity_suffices(txs@, before, after, n as nat, nonce, lamports_per_signature);
        }
        if none_succeeded(before, n as nat) {
            law_capacity_is_exact_without_success(
                txs@,
                before,
                after,
                n as nat,
                nonce,
                lamports_per_signature,
            );
        }
    }
    (accounts, transactions)
}

/// Each account to store comes with the transaction that stores it: the two lists
/// have the same length.
pub proof fn law_every_account_has_its_transaction(
    txs: Seq<Transaction>,
    results: Seq<TransactionExecutionResult>,
    n: nat,
)
    ensures
        accounts_to_store(txs, results, n).len() == transactions_of_accounts(txs, results, n).len(),
    decreases n,
{
    if n > 0 {
        law_every_account_has_its_transaction(txs, results, (n - 1) as nat);
    }
}

/// Each account to store comes with the transaction that stores it: the transaction at
/// the same place of the other list is one of the batch, and the account is among
/// those that it stores.
pub proof fn law_every_account_comes_from_its_transaction(
    txs: Seq<Transaction>,
    results: Seq<TransactionExecutionResult>,
    n: nat,
    k: int,
)
    requires
        n <= txs.len(),
        n <= results.len(),
        0 <= k < accounts_to_store(txs, results, n).len(),
    ensures
        exists|i: int|
            {
                &&& 0 <= i < n
                &&& transactions_of_accounts(txs, results, n)[k] == Some(txs[i])
                &&& #[trigger] accounts_of(txs[i], results[i]).contains(
                    accounts_to_store(txs, results, n)[k],
                )
            },
    decreases n,
{
    let m = (n - 1) as nat;
    let before = accounts_to_store(txs, results, m);
    let own = accounts_of(txs[n - 1], results[n - 1]);
    law_every_account_has_its_transaction(txs, results, m);
    if k < before.len() {
        law_every_account_comes_from_its_transaction(txs, results, m, k);
        let i = choose|i: int|
            {
                &&& 0 <= i < m
                &&& transactions_of_accounts(txs, results, m)[k] == Some(txs[i])
                &&& #[trigger] accounts_of(txs[i], results[i]).contains(before[k])
            };
        assert(accounts_of(txs[i], results[i]).contains(accounts_to_store(txs, results, n)[k]));
    } else {
        assert(own[k - before.len()] == accounts_to_store(txs, results, n)[k]);
        assert(own.contains(accounts_to_store(txs, results, n)[k]));
    }
}

/// A transaction that was not executed stores nothing.
pub proof fn law_unexecuted_stores_nothing(tx: Transaction, result: TransactionExecutionResult)
    requires
        result is NotExecuted,
    ensures
        accounts_of(tx, result) == Seq::<TransactionAccount>::empty(),
{
}

/// A failed transaction stores exactly its rollback accounts, whatever execution
/// made of the accounts it was loaded with.
pub proof fn law_failure_stores_rollback_accounts(
    tx: Transaction,
    result: TransactionExecutionResult,
)
    requires
        result.failed(),
    ensures
        accounts_of(tx, result).len()
            == result->Executed_0.loaded_transaction.rollback_accounts.spec_count(),
        accounts_of(tx, result) == rolled_back_accounts(
            tx.message.account_keys@[0],
            result->Executed_0.loaded_transaction.rollback_accounts,
        ),
{
}

/// A failed transaction cannot be replayed with its nonce: the last account that it
/// stores is the nonce account, which holds the new durable nonce and the new fee
/// under the same authority.
pub proof fn law_failure_stores_the_advanced_nonce(
    tx: Transaction,
    before: TransactionExecutionResult,
    after: TransactionExecutionResult,
    durable_nonce: Seq<u8>,
    lamports_per_signature: u64,
)
    requires
        before.failed(),
        collectable(tx, before),
        before.stored_as(after, durable_nonce, lamports_per_signature),
        before->Executed_0.loaded_transaction.rollback_accounts.nonce() is Some,
    ensures
        ({
            let nonce = before->Executed_0.loaded_transaction.rollback_accounts.nonce()->0;
            let stored = accounts_of(tx, after).last();
            &&& stored.0 == nonce.address
            &&& stored.1.lamports == nonce.account.lamports
            &&& decode_nonce(stored.1.data@) == Some(
                NonceRecord {
                    current: true,
                    data: Some(
                        NonceData {
                            authority: decode_nonce(nonce.account.data@)->0.data->0.authority,
                            durable_nonce,
                            lamports_per_signature,
                        },
                    ),
                },
            )
        }),
{
    law_advanced_nonce_holds_durable_nonce(
        before->Executed_0.loaded_transaction.rollback_accounts.nonce()->0,
        after->Executed_0.loaded_transaction.rollback_accounts.nonce()->0,
        durable_nonce,
        lamports_per_signature,
    );
}

/// A successful transaction stores none but its own accounts that it may write to
/// and that are not merely invoked.
pub proof fn law_only_written_accounts_are_stored(
    message: Message,
    accounts: Seq<TransactionAccount>,
    n: nat,
    k: int,
)
    requires
        0 <= k < stored_accounts(message, accounts, n).len(),
    ensures
        exists|i: int|
            0 <= i < n && #[trigger] stores(message, i) && stored_accounts(message, accounts, n)[k]
                == accounts[i],
    decreases n,
{
    let before = stored_accounts(message, accounts, (n - 1) as nat);
    if k < before.len() {
        law_only_written_accounts_are_stored(message, accounts, (n - 1) as nat, k);
        let i = choose|i: int|
            0 <= i < n - 1 && #[trigger] stores(message, i) && before[k] == accounts[i];
        assert(stores(message, i));
    } else {
        assert(stores(message, n - 1));
    }
}

/// A successful transaction stores every account of its own that it may write to and
/// that is not merely invoked.
pub proof fn law_every_written_account_is_stored(
    message: Message,
    accounts: Seq<TransactionAccount>,
    n: nat,
    i: int,
)
    requires
        0 <= i < n,
        stores(message, i),
    ensures
        stored_accounts(message, accounts, n).contains(accounts[i]),
    decreases n,
{
    let all = stored_accounts(message, accounts, n);
    let before = stored_accounts(message, accounts, (n - 1) as nat);
    if i < n - 1 {
        law_every_written_account_is_stored(message, accounts, (n - 1) as nat, i);
        let k = choose|k: int| 0 <= k < before.len() && before[k] == accounts[i];
        assert(all[k] == accounts[i]);
    } else {
        assert(all[all.len() - 1] == accounts[i]);
    }
}

/// The flags that are set among some of the indices are no more than those that are
/// set among all of them.
proof fn lemma_count_set_monotonic(flags: Seq<bool>, m: nat, n: nat)
    requires
        m <= n,
    ensures
        count_set(flags, m) <= count_set(flags, n),
    decreases n,
{
    if m < n {
        lemma_count_set_monotonic(flags, m, (n - 1) as nat);
    }
}

/// Of the first accounts no more are stored than may be written to.
proof fn lemma_stored_at_most_writable(
    message: Message,
    accounts: Seq<TransactionAccount>,
    n: nat,
)
    ensures
        stored_accounts(message, accounts, n).len() <= count_set(message.writable@, n),
    decreases n,
{
    if n > 0 {
        lemma_stored_at_most_writable(message, accounts, (n - 1) as nat);
    }
}

/// The capacity that is set aside suffices: no batch whose messages lock each account
/// that they may write to stores more accounts than
/// [`max_number_of_accounts_to_collect`] said before nonces were advanced.
pub proof fn law_capacity_suffices(
    txs: Seq<Transaction>,
    before: Seq<TransactionExecutionResult>,
    after: Seq<TransactionExecutionResult>,
    n: nat,
    durable_nonce: Seq<u8>,
    lamports_per_signature: u64,
)
    requires
        n <= txs.len(),
        n <= before.len(),
        n <= after.len(),
        forall|i: int|
            0 <= i < n ==> (#[trigger] before[i]).stored_as(
                after[i],
                durable_nonce,
                lamports_per_signature,
            ),
        locks_suffice(txs, n),
    ensures
        accounts_to_store(txs, after, n).len() <= max_accounts(txs, before, n),
    decreases n,
{
    if n > 0 {
        law_capacity_suffices(
            txs,
            before,
            after,
            (n - 1) as nat,
            durable_nonce,
            lamports_per_signature,
        );
        let tx = txs[n - 1];
        let result = after[n - 1];
        assert(before[n - 1].stored_as(result, durable_nonce, lamports_per_signature));
        assert(tx.message.locks_cover_writes());
        if result is Executed && result->Executed_0.succeeded() {
            let accounts = result->Executed_0.loaded_transaction.accounts@;
            let m = min_len(tx.message.account_keys@.len(), accounts.len());
            lemma_stored_at_most_writable(tx.message, accounts, m);
            lemma_count_set_monotonic(tx.message.writable@, m, tx.message.account_keys@.len());
        }
        assert(accounts_of(tx, result).len() <= max_accounts_of(tx, before[n - 1]));
    }
}

/// The capacity that is set aside for a batch without a successful transaction is
/// exactly what it takes.
pub proof fn law_capacity_is_exact_without_success(
    txs: Seq<Transaction>,
    before: Seq<TransactionExecutionResult>,
    after: Seq<TransactionExecutionResult>,
    n: nat,
    durable_nonce: Seq<u8>,
    lamports_per_signature: u64,
)
    requires
        n <= txs.len(),
        n <= before.len(),
        n <= after.len(),
        forall|i: int|
            0 <= i < n ==> (#[trigger] before[i]).stored_as(
                after[i],
                durable_nonce,
                lamports_per_signature,
            ),
        none_succeeded(before, n),
    ensures
        accounts_to_store(txs, after, n).len() == max_accounts(txs, before, n),
    decreases n,
{
    if n > 0 {
        law_capacity_is_exact_without_success(
            txs,
            before,
            after,
            (n - 1) as nat,
            durable_nonce,
            lamports_per_signature,
        );
        assert(before[n - 1].stored_as(after[n - 1], durable_nonce, lamports_per_signature));
        assert(accounts_of(txs[n - 1], after[n - 1]).len() == max_accounts_of(
            txs[n - 1],
            before[n - 1],
        ));
    }
}

/// Which accounts a successful transaction stores, and in which order. The indices that
/// are returned increase, and the account at each of them is stored in its turn. They are
/// those of the accounts that may be written to and are not invoked, passed to an
/// instruction or not, and of those that may be written to and are passed to an
/// instruction, invoked or not. No other account is stored, and none twice.
pub proof fn law_success_stores_what_it_wrote_to(
    tx: Transaction,
    result: TransactionExecutionResult,
) -> (indices: Seq<int>)
    requires
        result is Executed,
        result->Executed_0.execution_details.status is Ok,
    ensures
        ({
            let message = tx.message;
            let accounts = result->Executed_0.loaded_transaction.accounts@;
            let stored = accounts_of(tx, result);
            let writable = |i: int| i < message.writable@.len() && message.writable@[i];
            let invoked = |i: int| i < message.invoked@.len() && message.invoked@[i];
            let passed = |i: int|
                i < message.instruction_account@.len() && message.instruction_account@[i];
            &&& stored.len() == indices.len()
            &&& forall|k: int| 0 <= k < indices.len() ==> stored[k] == accounts[#[trigger] indices[k]]
            &&& forall|j: int, k: int| 0 <= j < k < indices.len() ==> indices[j] < indices[k]
            &&& forall|k: int|
                0 <= k < indices.len() ==> {
                    let i = #[trigger] indices[k];
                    &&& 0 <= i < accounts.len()
                    &&& i < message.account_keys@.len()
                    &&& writable(i)
                    &&& !invoked(i) || passed(i)
                }
            &&& forall|i: int|
                #![trigger accounts[i]]
                0 <= i < accounts.len() && i < message.account_keys@.len() && writable(i)
                    && !invoked(i) ==> indices.contains(i) && stored.contains(accounts[i])
            &&& forall|i: int|
                #![trigger accounts[i]]
                0 <= i < accounts.len() && i < message.account_keys@.len() && writable(i)
                    && passed(i) ==> indices.contains(i) && stored.contains(accounts[i])
        }),
{
    let accounts = result->Executed_0.loaded_transaction.accounts@;
    let n = min_len(tx.message.account_keys@.len(), accounts.len());
    let indices = lemma_stored_indices(tx.message, accounts, n);
    let stored = accounts_of(tx, result);
    assert forall|i: int| 0 <= i < n && stores(tx.message, i) implies indices.contains(i)
        && stored.contains(accounts[i]) by {
        let k = choose|k: int| 0 <= k < indices.len() && indices[k] == i;
        assert(stored[k] == accounts[indices[k]]);
    }
    indices
}

/// The indices of the accounts that are stored among the first ones.
proof fn lemma_stored_indices(
    message: Message,
    accounts: Seq<TransactionAccount>,
    n: nat,
) -> (indices: Seq<int>)
    ensures
        stored_accounts(message, accounts, n).len() == indices.len(),
        forall|k: int|
            0 <= k < indices.len() ==> stored_accounts(message, accounts, n)[k]
                == accounts[#[trigger] indices[k]],
        forall|j: int, k: int| 0 <= j < k < indices.len() ==> indices[j] < indices[k],
        forall|k: int|
            0 <= k < indices.len() ==> 0 <= #[trigger] indices[k] < n && stores(message, indices[k]),
        forall|i: int| 0 <= i < n && #[trigger] stores(message, i) ==> indices.contains(i),
    decreases n,
{
    if n == 0 {
        Seq::empty()
    } else {
        let before = lemma_stored_indices(message, accounts, (n - 1) as nat);
        if stores(message, n - 1) {
            let indices = before.push(n - 1);
            assert forall|i: int| 0 <= i < n && #[trigger] stores(message, i) implies indices.contains(
                i,
            ) by {
                if i < n - 1 {
                    assert(before.contains(i));
                    let k = choose|k: int| 0 <= k < before.len() && before[k] == i;
                    assert(indices[k] == i);
                } else {
                    assert(indices[indices.len() - 1] == i);
                }
            }
            indices
        } else {
            before
        }
    }
}

/// What a failed transaction stores: the fee payer, which is the first key, with its
/// account; or the nonce that is the fee payer; or the fee payer and then the nonce.
pub proof fn law_failure_stores_fee_payer_and_nonce(
    tx: Transaction,
    result: TransactionExecutionResult,
)
    requires
        result is Executed,
        result->Executed_0.execution_details.status is Err,
    ensures
        ({
            let stored = accounts_of(tx, result);
            let payer = tx.message.account_keys@[0];
            match result->Executed_0.loaded_transaction.rollback_accounts {
                RollbackAccounts::FeePayerOnly { fee_payer_account } => {
                    &&& stored.len() == 1
                    &&& stored[0].0 == payer
                    &&& stored[0].1 == fee_payer_account
                },
                RollbackAccounts::SameNonceAndFeePayer { nonce } => {
                    &&& stored.len() == 1
                    &&& stored[0].0 == nonce.address
                    &&& stored[0].1 == nonce.account
                },
                RollbackAccounts::SeparateNonceAndFeePayer { nonce, fee_payer_account } => {
                    &&& stored.len() == 2
                    &&& stored[0].0 == payer
                    &&& stored[0].1 == fee_payer_account
                    &&& stored[1].0 == nonce.address
                    &&& stored[1].1 == nonce.account
                },
            }
        }),
{
}

/// What the first transactions of a batch store stands first among what the batch
/// stores.
proof fn lemma_first_transactions_come_first(
    txs: Seq<Transaction>,
    results: Seq<TransactionExecutionResult>,
    m: nat,
    n: nat,
)
    requires
        m <= n,
    ensures
        accounts_to_store(txs, results, m).is_prefix_of(accounts_to_store(txs, results, n)),
        transactions_of_accounts(txs, results, m).is_prefix_of(
            transactions_of_accounts(txs, results, n),
        ),
    decreases n,
{
    if m < n {
        let l = (n - 1) as nat;
        lemma_first_transactions_come_first(txs, results, m, l);
        let accounts = accounts_to_store(txs, results, n);
        let accounts_before = accounts_to_store(txs, results, l);
        let transactions = transactions_of_accounts(txs, results, n);
        let transactions_before = transactions_of_accounts(txs, results, l);
        assert(accounts_before.is_prefix_of(accounts)) by {
            assert(accounts.subrange(0, accounts_before.len() as int) =~= accounts_before);
        }
        assert(transactions_before.is_prefix_of(transactions)) by {
            assert(transactions.subrange(0, transactions_before.len() as int)
                =~= transactions_before);
        }
        let first = accounts_to_store(txs, results, m);
        assert(accounts.subrange(0, first.len() as int) =~= accounts_before.subrange(
            0,
            first.len() as int,
        ));
        let first = transactions_of_accounts(txs, results, m);
        assert(transactions.subrange(0, first.len() as int) =~= transactions_before.subrange(
            0,
            first.len() as int,
        ));
    }
}

/// A batch stores what its transactions store, one after the other: after the accounts
/// of the transactions before it stand those of a transaction, and in the other list that
/// transaction for each of them. Then come those of the next one.
pub proof fn law_batch_stores_its_transactions_in_turn(
    txs: Seq<Transaction>,
    results: Seq<TransactionExecutionResult>,
    n: nat,
    i: nat,
)
    requires
        i < n,
    ensures
        accounts_to_store(txs, results, 0).len() == 0,
        ({
            let own = accounts_of(txs[i as int], results[i as int]);
            let start = accounts_to_store(txs, results, i).len() as int;
            let end = start + own.len();
            &&& end == accounts_to_store(txs, results, i + 1).len()
            &&& end <= accounts_to_store(txs, results, n).len()
            &&& end <= transactions_of_accounts(txs, results, n).len()
            &&& accounts_to_store(txs, results, n).subrange(start, end) == own
            &&& forall|k: int|
                start <= k < end ==> #[trigger] transactions_of_accounts(txs, results, n)[k]
                    == Some(txs[i as int])
        }),
{
    let own = accounts_of(txs[i as int], results[i as int]);
    let start = accounts_to_store(txs, results, i).len() as int;
    let end = start + own.len();
    lemma_first_transactions_come_first(txs, results, i + 1, n);
    law_every_account_has_its_transaction(txs, results, i);
    let accounts = accounts_to_store(txs, results, n);
    let accounts_then = accounts_to_store(txs, results, i + 1);
    let transactions = transactions_of_accounts(txs, results, n);
    let transactions_then = transactions_of_accounts(txs, results, i + 1);
    assert(accounts_then.len() == end && transactions_then.len() == end);
    assert(accounts.subrange(start, end) =~= accounts_then.subrange(start, end)) by {
        assert forall|k: int| 0 <= k < end implies accounts[k] == accounts_then[k] by {
            assert(accounts.subrange(0, end)[k] == accounts[k]);
        }
    }
    assert(accounts_then.subrange(start, end) =~= own);
    assert forall|k: int| start <= k < end implies #[trigger] transactions[k] == Some(
        txs[i as int],
    ) by {
        assert(transactions.subrange(0, end)[k] == transactions[k]);
        assert(transactions_then[k] == Some(txs[i as int]));
    }
}

/// The lists of references that are collected stand for what they point to, in the same
/// order.
pub proof fn law_references_stand_for_what_they_point_to(
    accounts: Seq<(&Pubkey, &AccountSharedData)>,
    transactions: Seq<Option<&Transaction>>,
    k: int,
)
    ensures
        pointees(accounts).len() == accounts.len(),
        sources(transactions).len() == transactions.len(),
        0 <= k < accounts.len() ==> pointees(accounts)[k].0 == *accounts[k].0
            && pointees(accounts)[k].1 == *accounts[k].1,
        0 <= k < transactions.len() && transactions[k] is Some ==> sources(transactions)[k] == Some(
            *transactions[k]->0,
        ),
        0 <= k < transactions.len() && transactions[k] is None ==> sources(transactions)[k] is None,
{
}

/// Results and transactions are paired as far as both go.
pub proof fn law_pairs_go_as_far_as_both(a: nat, b: nat)
    ensures
        min_len(a, b) <= a,
        min_len(a, b) <= b,
        min_len(a, b) == a || min_len(a, b) == b,
{
}

/// The room that is set aside grows from one transaction to the next by nothing if it was
/// not executed, by its write locks if it succeeded, and by the accounts to which it is
/// rolled back if it failed.
pub proof fn law_room_for_each_transaction(
    txs: Seq<Transaction>,
    results: Seq<TransactionExecutionResult>,
    n: nat,
)
    ensures
        max_accounts(txs, results, 0) == 0,
        ({
            let room = max_accounts(txs, results, n + 1) - max_accounts(txs, results, n);
            let locks = txs[n as int].message.num_write_locks;
            match results[n as int] {
                TransactionExecutionResult::NotExecuted(_) => room == 0,
                TransactionExecutionResult::Executed(executed) => {
                    &&& executed.execution_details.status is Ok && locks <= usize::MAX ==> room
                        == locks
                    &&& executed.execution_details.status is Err
                        && executed.loaded_transaction.rollback_accounts is SeparateNonceAndFeePayer
                        ==> room == 2
                    &&& executed.execution_details.status is Err
                        && !(executed.loaded_transaction.rollback_accounts
                        is SeparateNonceAndFeePayer) ==> room == 1
                },
            }
        }),
{
}

/// A batch without failures can be collected if and only if there is room for its
/// accounts, and one with failures if besides each has a fee payer and a nonce, if any,
/// that can be advanced.
pub proof fn law_which_batches_can_be_collected(
    txs: &[Transaction],
    results: &[TransactionExecutionResult],
    result: bool,
)
    requires
        call_ensures(is_batch_collectable, (txs, results), result),
    ensures
        ({
            let n = if txs@.len() < results@.len() {
                txs@.len()
            } else {
                results@.len()
            };
            result <==> {
                &&& 16 * max_accounts(txs@, results@, n) <= isize::MAX
                &&& forall|i: int|
                    0 <= i < n && #[trigger] results@[i] is Executed
                        && results@[i]->Executed_0.execution_details.status is Err ==> {
                        &&& txs@[i].message.account_keys@.len() > 0
                        &&& match results@[i]->Executed_0.loaded_transaction.rollback_accounts {
                            RollbackAccounts::FeePayerOnly { .. } => true,
                            RollbackAccounts::SameNonceAndFeePayer { nonce } => nonce.can_advance(),
                            RollbackAccounts::SeparateNonceAndFeePayer { nonce, .. } =>
                            nonce.can_advance(),
                        }
                    }
            }
        }),
        result == batch_collectable(txs@, results@),
{
    let n = min_len(txs@.len(), results@.len());
    if batch_collectable(txs@, results@) {
        assert forall|i: int|
            0 <= i < n && #[trigger] results@[i] is Executed
                && results@[i]->Executed_0.execution_details.status is Err implies {
            &&& txs@[i].message.account_keys@.len() > 0
            &&& match results@[i]->Executed_0.loaded_transaction.rollback_accounts {
                RollbackAccounts::FeePayerOnly { .. } => true,
                RollbackAccounts::SameNonceAndFeePayer { nonce } => nonce.can_advance(),
                RollbackAccounts::SeparateNonceAndFeePayer { nonce, .. } => nonce.can_advance(),
            }
        } by {
            assert(collectable(txs@[i], results@[i]));
        }
    }
}

} // verus!
