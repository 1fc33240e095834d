//! A tamper-evident ledger of fraud assessments.
//!
//! Every assessed transaction gets one record, stored at an address that is
//! derived from the transaction identifier alone. A record is created once and
//! never changed afterwards; a positive verdict additionally yields a
//! notification for outside observers.

pub mod address;
pub mod authority;
pub mod error;
pub mod guarantees;
pub mod ledger;
pub mod processor;
pub mod record;
pub mod runtime;

pub use crate::address::derive_address;
pub use crate::address::Address;
pub use crate::address::RecordHandle;
pub use crate::error::LedgerError;
pub use crate::ledger::Ledger;
pub use crate::processor::apply_transaction;
pub use crate::processor::process_transaction;
pub use crate::record::emit_if_fraud;
pub use crate::record::FraudDetected;
pub use crate::record::ProcessTransaction;
pub use crate::record::TransactionRecord;
pub use crate::authority::AuthorityVerifier;
pub use crate::authority::OracleOnly;
pub use crate::authority::TrustCaller;
