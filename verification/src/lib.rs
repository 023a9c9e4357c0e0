//! An authority-gated, resizable data record stored inside a ledger account.
//!
//! The crate verifies the record's lifecycle state machine (Initialize,
//! Update, UpdateType, UpdateData, Finalize, Close), the capacity and
//! deposit rebalancing arithmetic that drives account resizes, the content
//! verifier that checks a payload against its declared type, and a canonical
//! binary layout for the record and its instructions.

pub mod account;
pub mod codec;
pub mod error;
pub mod instruction;
pub mod laws;
pub mod processor;
pub mod state;
