//! What the runtime reads of a transaction's message.
use crate::pubkey::Pubkey;
use vstd::prelude::*;

verus! {

/// A transaction as the runtime sanitized it, `solana_transaction`'s
/// `SanitizedTransaction`.
#[verifier::external_type_specification]
#[verifier::external_body]
pub struct ExSanitizedTransaction(solana_sdk::transaction::SanitizedTransaction);

/// What `AccountKeys::len` returns for the message's account keys.
pub uninterp spec fn runtime_key_count(tx: solana_sdk::transaction::SanitizedTransaction) -> usize;

/// The bytes of the key that indexing the message's `AccountKeys` gives.
pub uninterp spec fn runtime_key(tx: solana_sdk::transaction::SanitizedTransaction, index: usize) -> Seq<u8>;

/// What `SanitizedMessage::is_writable` returns.
pub uninterp spec fn runtime_is_writable(tx: solana_sdk::transaction::SanitizedTransaction, index: usize) -> bool;

/// What `SanitizedMessage::is_invoked` returns.
pub uninterp spec fn runtime_is_invoked(tx: solana_sdk::transaction::SanitizedTransaction, index: usize) -> bool;

/// What `SanitizedMessage::is_instruction_account` returns.
pub uninterp spec fn runtime_is_instruction_account(tx: solana_sdk::transaction::SanitizedTransaction, index: usize) -> bool;

/// What `SanitizedMessage::num_write_locks` returns.
pub uninterp spec fn runtime_num_write_locks(tx: solana_sdk::transaction::SanitizedTransaction) -> u64;

/// The bytes of what `SanitizedTransaction::message_hash` returns.
pub uninterp spec fn runtime_message_hash(tx: solana_sdk::transaction::SanitizedTransaction) -> Seq<u8>;

/// The length of what `SanitizedTransaction::signatures` returns.
pub uninterp spec fn runtime_signature_count(tx: solana_sdk::transaction::SanitizedTransaction) -> usize;

/// The bytes at an index of what `SanitizedTransaction::signatures` returns.
pub uninterp spec fn runtime_signature(tx: solana_sdk::transaction::SanitizedTransaction, index: usize) -> Seq<u8>;

/// `AccountKeys::len` of the message's account keys.
#[verifier::external_body]
fn key_count(tx: &solana_sdk::transaction::SanitizedTransaction) -> (r: usize)
    ensures
        r == runtime_key_count(*tx),
{
    tx.message().account_keys().len()
}

/// The key that indexing the message's `AccountKeys` gives. The index must be less
/// than the number of keys.
#[verifier::external_body]
fn key_at(tx: &solana_sdk::transaction::SanitizedTransaction, index: usize) -> (r: Pubkey)
    requires
        index < runtime_key_count(*tx),
    ensures
        r@ == runtime_key(*tx, index),
{
    Pubkey { bytes: tx.message().account_keys()[index].to_bytes() }
}

/// `SanitizedMessage::is_writable`: whether the instructions may write to the
/// account at an index.
#[verifier::external_body]
fn writable_at(tx: &solana_sdk::transaction::SanitizedTransaction, index: usize) -> (r: bool)
    ensures
        r == runtime_is_writable(*tx, index),
{
    tx.message().is_writable(index)
}

/// `SanitizedMessage::is_invoked`: whether the account at an index is invoked as a
/// program.
#[verifier::external_body]
fn invoked_at(tx: &solana_sdk::transaction::SanitizedTransaction, index: usize) -> (r: bool)
    ensures
        r == runtime_is_invoked(*tx, index),
{
    tx.message().is_invoked(index)
}

/// `SanitizedMessage::is_instruction_account`: whether the account at an index is
/// an input to some instruction.
#[verifier::external_body]
fn instruction_account_at(tx: &solana_sdk::transaction::SanitizedTransaction, index: usize) -> (r: bool)
    ensures
        r == runtime_is_instruction_account(*tx, index),
{
    tx.message().is_instruction_account(index)
}

/// `SanitizedMessage::num_write_locks`: the number of keys less the number of
/// read-only ones, hence at most the number of keys.
#[verifier::external_body]
fn write_locks(tx: &solana_sdk::transaction::SanitizedTransaction) -> (r: u64)
    ensures
        r == runtime_num_write_locks(*tx),
        r <= runtime_key_count(*tx),
{
    tx.message().num_write_locks()
}

/// `SanitizedTransaction::message_hash`: the hash of the message.
#[verifier::external_body]
fn message_hash_of(tx: &solana_sdk::transaction::SanitizedTransaction) -> (r: [u8; 32])
    ensures
        r@ == runtime_message_hash(*tx),
{
    tx.message_hash().to_bytes()
}

/// The length of `SanitizedTransaction::signatures`.
#[verifier::external_body]
fn signature_count(tx: &solana_sdk::transaction::SanitizedTransaction) -> (r: usize)
    ensures
        r == runtime_signature_count(*tx),
{
    tx.signatures().len()
}

/// The signature at an index of `SanitizedTransaction::signatures`. The index must be
/// less than the number of signatures.
#[verifier::external_body]
fn signature_at(tx: &solana_sdk::transaction::SanitizedTransaction, index: usize) -> (r: [u8; 64])
    requires
        index < runtime_signature_count(*tx),
    ensures
        r@ == runtime_signature(*tx, index),
{
    tx.signatures()[index].into()
}

/// A message: its account keys, with what holds of each of them, and the number of
/// write locks that it asks for.
#[derive(Debug, Clone, PartialEq, Eq)]
pub struct Message {
    pub account_keys: Vec<Pubkey>,
    /// the account may be written to
    pub writable: Vec<bool>,
    /// the account is invoked as a program
    pub invoked: Vec<bool>,
    /// the account is an input to some instruction
    pub instruction_account: Vec<bool>,
    pub num_write_locks: u64,
}

/// The flag at an index, or false past the end.
pub open spec fn flag_at(flags: Seq<bool>, index: int) -> bool {
    0 <= index < flags.len() && flags[index]
}

/// The flag at an index, or false past the end.
fn flag(flags: &Vec<bool>, index: usize) -> (r: bool)
    ensures
        r == flag_at(flags@, index as int),
{
    index < flags.len() && flags[index]
}

/// How many of the first `n` flags are set.
pub open spec fn count_set(flags: Seq<bool>, n: nat) -> nat
    decreases n,
{
    if n == 0 {
        0
    } else {
        count_set(flags, (n - 1) as nat) + if flag_at(flags, n - 1) {
            1nat
        } else {
            0nat
        }
    }
}

impl Message {
    /// Each key has its flags, and there is a fee payer.
    pub open spec fn wf(&self) -> bool {
        &&& self.account_keys@.len() > 0
        &&& self.writable@.len() == self.account_keys@.len()
        &&& self.invoked@.len() == self.account_keys@.len()
        &&& self.instruction_account@.len() == self.account_keys@.len()
    }

    /// The message asks for a lock of each account that it may write to.
    pub open spec fn locks_cover_writes(&self) -> bool {
        count_set(self.writable@, self.account_keys@.len()) <= self.num_write_locks
    }

    /// Returns true if the account at the specified index is writable by the
    /// instructions in this message.
    pub fn is_writable(&self, index: usize) -> (r: bool)
        ensures
            r == flag_at(self.writable@, index as int),
    {
        flag(&self.writable, index)
    }

    /// Returns true if the account at the specified index is invoked as a
    /// program in this message.
    pub fn is_invoked(&self, index: usize) -> (r: bool)
        ensures
            r == flag_at(self.invoked@, index as int),
    {
        flag(&self.invoked, index)
    }

    /// Returns true if the account at the specified index is an input to some
    /// program instruction in this message.
    pub fn is_instruction_account(&self, index: usize) -> (r: bool)
        ensures
            r == flag_at(self.instruction_account@, index as int),
    {
        flag(&self.instruction_account, index)
    }

    /// Whether the message asks for a lock of each account that it may write to, which
    /// is so of every message whose flags follow from its header.
    pub fn locks_each_write(&self) -> (r: bool)
        ensures
            r == self.locks_cover_writes(),
    {
        let mut count: usize = 0;
        let mut i: usize = 0;
        while i < self.account_keys.len()
            invariant
                i <= self.account_keys@.len(),
                count <= i,
                count == count_set(self.writable@, i as nat),
            decreases self.account_keys@.len() - i,
        {
            if self.is_writable(i) {
                count = count + 1;
            }
            i = i + 1;
        }
        count as u64 <= self.num_write_locks
    }

    /// Returns the fee payer for the transaction: the first account.
    pub fn fee_payer(&self) -> (r: &Pubkey)
        requires
            self.account_keys@.len() > 0,
        ensures
            *r == self.account_keys@[0],
    {
        &self.account_keys[0]
    }
}

/// A transaction whose message was checked. The hash of the message and the signatures
/// tell it from others that work on the same accounts.
#[derive(Debug, Clone, PartialEq, Eq)]
pub struct Transaction {
    pub message: Message,
    pub message_hash: [u8; 32],
    pub signatures: Vec<[u8; 64]>,
}

impl Transaction {
    /// Whether this is what the runtime's transaction says of itself.
    pub open spec fn describes(&self, tx: solana_sdk::transaction::SanitizedTransaction) -> bool {
        let message = self.message;
        &&& message.account_keys@.len() == runtime_key_count(tx)
        &&& message.num_write_locks == runtime_num_write_locks(tx)
        &&& self.message_hash@ == runtime_message_hash(tx)
        &&& self.signatures@.len() == runtime_signature_count(tx)
        &&& forall|i: usize|
            i < runtime_signature_count(tx) ==> self.signatures@[i as int]@
                == #[trigger] runtime_signature(tx, i)
        &&& forall|i: usize|
            i < runtime_key_count(tx) ==> message.account_keys@[i as int]@ == #[trigger] runtime_key(tx, i)
        &&& forall|i: usize|
            i < runtime_key_count(tx) ==> flag_at(message.writable@, i as int)
                == #[trigger] runtime_is_writable(tx, i)
        &&& forall|i: usize|
            i < runtime_key_count(tx) ==> flag_at(message.invoked@, i as int)
                == #[trigger] runtime_is_invoked(tx, i)
        &&& forall|i: usize|
            i < runtime_key_count(tx) ==> flag_at(message.instruction_account@, i as int)
                == #[trigger] runtime_is_instruction_account(tx, i)
    }

    /// Reads a transaction of the runtime. There is none without account keys, since
    /// the first one pays the fee.
    pub fn from_runtime(tx: &solana_sdk::transaction::SanitizedTransaction) -> (r: Option<Self>)
        ensures
            r is None <==> runtime_key_count(*tx) == 0,
            r is Some ==> r->0.message.wf() && r->0.describes(*tx),
            r is Some ==> r->0.message.num_write_locks <= r->0.message.account_keys@.len(),
    {
        let n: usize = key_count(tx);
        if n == 0 {
            return None;
        }
        let mut account_keys: Vec<Pubkey> = Vec::new();
        let mut writable: Vec<bool> = Vec::new();
        let mut invoked: Vec<bool> = Vec::new();
        let mut instruction_account: Vec<bool> = Vec::new();
        let mut i: usize = 0;
        while i < n
            invariant
                i <= n,
                n == runtime_key_count(*tx),
                account_keys@.len() == i,
                writable@.len() == i,
                invoked@.len() == i,
                instruction_account@.len() == i,
                forall|j: usize|
                    j < i ==> account_keys@[j as int]@ == #[trigger] runtime_key(*tx, j),
                forall|j: usize|
                    j < i ==> writable@[j as int] == #[trigger] runtime_is_writable(*tx, j),
                forall|j: usize|
                    j < i ==> invoked@[j as int] == #[trigger] runtime_is_invoked(*tx, j),
                forall|j: usize|
                    j < i ==> instruction_account@[j as int]
                        == #[trigger] runtime_is_instruction_account(*tx, j),
            decreases n - i,
        {
            account_keys.push(key_at(tx, i));
            writable.push(writable_at(tx, i));
            invoked.push(invoked_at(tx, i));
            instruction_account.push(instruction_account_at(tx, i));
            i = i + 1;
        }
        let num_write_locks: u64 = write_locks(tx);
        let signatures_len: usize = signature_count(tx);
        let mut signatures: Vec<[u8; 64]> = Vec::new();
        let mut k: usize = 0;
        while k < signatures_len
            invariant
                k <= signatures_len,
                signatures_len == runtime_signature_count(*tx),
                signatures@.len() == k,
                forall|j: usize|
                    j < k ==> signatures@[j as int]@ == #[trigger] runtime_signature(*tx, j),
            decreases signatures_len - k,
        {
            signatures.push(signature_at(tx, k));
            k = k + 1;
        }
        Some(
            Transaction {
                message: Message {
                    account_keys,
                    writable,
                    invoked,
                    instruction_account,
                    num_write_locks,
                },
                message_hash: message_hash_of(tx),
                signatures,
            },
        )
    }

    pub fn message(&self) -> (r: &Message)
        ensures
            *r == self.message,
    {
        &self.message
    }
}

/// What a message says of the account at an index is the flag at that index, and false
/// where there is none.
pub proof fn law_flags_are_those_at_the_index(
    message: &Message,
    index: usize,
    writable: bool,
    invoked: bool,
    instruction_account: bool,
)
    requires
        call_ensures(Message::is_writable, (message, index), writable),
        call_ensures(Message::is_invoked, (message, index), invoked),
        call_ensures(Message::is_instruction_account, (message, index), instruction_account),
    ensures
        index < message.writable@.len() ==> writable == message.writable@[index as int],
        index >= message.writable@.len() ==> !writable,
        index < message.invoked@.len() ==> invoked == message.invoked@[index as int],
        index >= message.invoked@.len() ==> !invoked,
        index < message.instruction_account@.len() ==> instruction_account
            == message.instruction_account@[index as int],
        index >= message.instruction_account@.len() ==> !instruction_account,
{
}

/// The indices below `n` at which a flag is set are as many as were counted.
pub proof fn law_count_is_that_of_the_indices(flags: Seq<bool>, n: nat)
    ensures
        ({
            let set = Set::<int>::range(0, n as int).filter(
                |i: int| i < flags.len() && flags[i],
            );
            set.len() == count_set(flags, n)
        }),
    decreases n,
{
    let at = |i: int| i < flags.len() && flags[i];
    let set = Set::<int>::range(0, n as int).filter(at);
    if n == 0 {
        assert(set =~= Set::<int>::empty());
    } else {
        law_count_is_that_of_the_indices(flags, (n - 1) as nat);
        let before = Set::<int>::range(0, n - 1).filter(at);
        if at(n - 1) {
            assert(set =~= before.insert(n - 1));
        } else {
            assert(set =~= before);
        }
    }
}

/// A transaction that was read is the runtime's: it has its keys, flags, locks, hash and
/// signatures, each in its place. There is none exactly where there are no keys.
pub proof fn law_transaction_is_the_runtimes(
    tx: &solana_sdk::transaction::SanitizedTransaction,
    result: Option<Transaction>,
)
    requires
        call_ensures(Transaction::from_runtime, (tx,), result),
    ensures
        result is None <==> runtime_key_count(*tx) == 0,
        result is Some ==> {
            let message = result->0.message;
            let n = runtime_key_count(*tx);
            &&& message.account_keys@.len() == n
            &&& message.writable@.len() == n
            &&& message.invoked@.len() == n
            &&& message.instruction_account@.len() == n
            &&& message.num_write_locks == runtime_num_write_locks(*tx)
            &&& result->0.message_hash@ == runtime_message_hash(*tx)
            &&& result->0.signatures@.len() == runtime_signature_count(*tx)
            &&& forall|i: usize|
                i < n ==> {
                    &&& message.account_keys@[i as int].bytes@ == #[trigger] runtime_key(*tx, i)
                    &&& message.writable@[i as int] == runtime_is_writable(*tx, i)
                    &&& message.invoked@[i as int] == runtime_is_invoked(*tx, i)
                    &&& message.instruction_account@[i as int] == runtime_is_instruction_account(
                        *tx,
                        i,
                    )
                }
            &&& forall|i: usize|
                i < runtime_signature_count(*tx) ==> result->0.signatures@[i as int]@
                    == #[trigger] runtime_signature(*tx, i)
        },
{
    if result is Some {
        let message = result->0.message;
        assert forall|i: usize| i < runtime_key_count(*tx) implies {
            &&& message.account_keys@[i as int].bytes@ == #[trigger] runtime_key(*tx, i)
            &&& message.writable@[i as int] == runtime_is_writable(*tx, i)
            &&& message.invoked@[i as int] == runtime_is_invoked(*tx, i)
            &&& message.instruction_account@[i as int] == runtime_is_instruction_account(*tx, i)
        } by {
            assert(message.account_keys@[i as int]@ == runtime_key(*tx, i));
        }
    }
}

/// The locks of a message are enough if and only if it has one for each of its keys
/// whose flag says that the account may be written to.
pub proof fn law_a_lock_for_each_write(message: &Message, result: bool)
    requires
        call_ensures(Message::locks_each_write, (message,), result),
    ensures
        ({
            let written = Set::<int>::range(0, message.account_keys@.len() as int).filter(
                |i: int| i < message.writable@.len() && message.writable@[i],
            );
            result <==> written.len() <= message.num_write_locks
        }),
        result == message.locks_cover_writes(),
{
    law_count_is_that_of_the_indices(message.writable@, message.account_keys@.len());
}

} // verus!
