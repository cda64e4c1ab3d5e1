//! Transaction processing for client accounts: record validation, the account
//! store, the dispute ledger and the processor that drives them.

pub mod account_summary;
pub mod amount;
pub mod client;
pub mod config;
pub mod dispute;
pub mod laws;
pub mod ledger;
pub mod processor;
pub mod store;
pub mod transaction;

pub use account_summary::AccountSummary;
pub use amount::Amount;
pub use client::ClientId;
pub use config::{Config, ConfigError};
pub use dispute::{DisputeCase, DisputeStatus};
pub use ledger::{Ledger, Rejection};
pub use processor::TransactionProcessor;
pub use store::{Account, AccountStore, InMemoryAccountStore, StoreError};
pub use transaction::{
    Chargeback, Deposit, Dispute, Resolve, Transaction, TransactionId, TransactionRecord,
    TransactionType, ValidationError, Withdrawal,
};
