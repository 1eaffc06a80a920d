//! Accounts and the accounts of a transaction.
use crate::pubkey::Pubkey;
use crate::pubkey::zero_address;
use vstd::prelude::*;

verus! {

/// An account with data that is stored on chain.
#[derive(Debug, Clone, PartialEq, Eq)]
pub struct AccountSharedData {
    /// lamports in the account
    pub lamports: u64,
    /// data held in this account
    pub data: Vec<u8>,
    /// the program that owns this account
    pub owner: Pubkey,
    /// this account's data contains a loaded program
    pub executable: bool,
    /// the epoch at which this account will next owe rent
    pub rent_epoch: u64,
}

/// What an account holds.
#[verifier::ext_equal]
pub struct AccountView {
    pub lamports: u64,
    pub data: Seq<u8>,
    pub owner: Seq<u8>,
    pub executable: bool,
    pub rent_epoch: u64,
}

impl View for AccountSharedData {
    type V = AccountView;

    open spec fn view(&self) -> AccountView {
        AccountView {
            lamports: self.lamports,
            data: self.data@,
            owner: self.owner@,
            executable: self.executable,
            rent_epoch: self.rent_epoch,
        }
    }
}

/// An account without lamports, data or owner.
pub open spec fn empty_account() -> AccountView {
    AccountView {
        lamports: 0,
        data: Seq::empty(),
        owner: zero_address(),
        executable: false,
        rent_epoch: 0,
    }
}

impl Default for AccountSharedData {
    fn default() -> (r: Self)
        ensures
            r@ == empty_account(),
    {
        AccountSharedData {
            lamports: 0,
            data: Vec::new(),
            owner: Pubkey::default(),
            executable: false,
            rent_epoch: 0,
        }
    }
}

/// An account key and the matching account.
pub type TransactionAccount = (Pubkey, AccountSharedData);

/// Index of an account inside of the [`TransactionContext`].
pub type IndexOfAccount = u16;

/// The accounts that a transaction works on: the key at an index belongs to the
/// account at that index.
pub struct TransactionContext {
    pub account_keys: Vec<Pubkey>,
    pub accounts: Vec<AccountSharedData>,
}

impl TransactionContext {
    /// Every key has its account.
    pub open spec fn wf(&self) -> bool {
        self.account_keys@.len() == self.accounts@.len()
    }

    /// Pairs each key with its account.
    pub fn new(transaction_accounts: Vec<TransactionAccount>) -> (r: Self)
        ensures
            r.wf(),
            r.accounts@.len() == transaction_accounts@.len(),
            forall|i: int|
                0 <= i < transaction_accounts@.len() ==> (#[trigger] r.account_keys@[i], r.accounts@[i])
                    == transaction_accounts@[i],
    {
        let mut account_keys: Vec<Pubkey> = Vec::new();
        let mut accounts: Vec<AccountSharedData> = Vec::new();
        for pair in it: transaction_accounts
            invariant
                account_keys@.len() == it.index(),
                accounts@.len() == it.index(),
                it.seq() == transaction_accounts@,
                forall|i: int|
                    0 <= i < it.index() ==> (#[trigger] account_keys@[i], accounts@[i])
                        == transaction_accounts@[i],
        {
            account_keys.push(pair.0);
            accounts.push(pair.1);
        }
        TransactionContext { account_keys, accounts }
    }
}

/// What an account holds are its fields, none of them left out or changed.
pub proof fn law_account_holds_its_fields(account: AccountSharedData)
    ensures
        account@.lamports == account.lamports,
        account@.data == account.data@,
        account@.owner == account.owner.bytes@,
        account@.executable == account.executable,
        account@.rent_epoch == account.rent_epoch,
{
}

/// A new account holds nothing and belongs to the address that consists of zeros.
pub proof fn law_default_account_is_empty(account: AccountSharedData)
    requires
        call_ensures(AccountSharedData::default, (), account),
    ensures
        account.lamports == 0,
        account.data@.len() == 0,
        forall|i: int| 0 <= i < 32 ==> #[trigger] account.owner.bytes[i] == 0,
        !account.executable,
        account.rent_epoch == 0,
{
    assert(account@ == empty_account());
    assert(account@.data.len() == 0);
    assert forall|i: int| 0 <= i < 32 implies #[trigger] account.owner.bytes[i] == 0 by {
        assert(account@.owner[i] == 0);
    }
}

} // verus!
