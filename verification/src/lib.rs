//! The rules of a replay-protected ledger of payroll commitments.
//!
//! The orchestrator commits one root per payroll run. A run is committed at
//! most once: at once where no proof has to be checked, else after the
//! verifier contract has accepted the proof. The commitments themselves lie
//! in a store that the contract around this library reads and writes; the
//! library is handed what was read and says what is to be written.
//! [`rules`] holds the decisions, [`ledger`] the contract's configuration and
//! operations, [`model`] the store as a map and a sequence, and [`laws`] what
//! the operations make of it over every sequence of requests.

pub mod error;
pub mod event;
pub mod host;
pub mod interfaces;
pub mod laws;
pub mod ledger;
pub mod model;
pub mod rules;

pub use error::LedgerError;
pub use interfaces::{SelfContract, Verifier};
pub use ledger::{CommitOutcome, Confirmation, Contract, RunRecord, VerificationRequest};
