//! Core rules of a virtual machine for account-based transactions: rent
//! collection, the choice of accounts to store after a batch, the checks of the
//! secp256r1 precompile, and a clock that stands still.
pub mod account;
pub mod account_saver;
pub mod epoch_schedule;
pub mod float_bits;
pub mod message;
pub mod nonce_info;
pub mod pubkey;
pub mod rent;
pub mod rent_state;
pub mod rollback_accounts;
pub mod secp256r1;
pub mod svm_rent_collector;
pub mod time;
pub mod transaction_execution_result;
pub mod transaction_processing_callback;
pub mod utils;

pub use svm_rent_collector::{CollectedInfo, RentCollector, RENT_EXEMPT_RENT_EPOCH};
