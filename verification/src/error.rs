//! The flat error taxonomy of the program: every failure is fatal to the
//! current instruction and leaves the accounts exactly as they were.

use vstd::prelude::*;

verus! {

/// Every way an instruction can fail.  The first violated precondition wins;
/// no state is mutated once an error has been chosen.
#[derive(Clone, Copy, Debug, PartialEq, Eq, Structural)]
pub enum DataAccountError {
    /// A required signature is missing.
    NotSigner,
    /// A required writable flag is missing.
    NotWriteable,
    /// The target account already holds a record.
    AlreadyInitialized,
    /// The record has not been initialized yet.
    NotInitialized,
    /// The supplied authority is not the record's authority.
    InvalidAuthority,
    /// The ledger-create-service account is wrong or missing.
    InvalidExternalProgramReference,
    /// The record account's buffer is empty.
    NoAccountLength,
    /// A static record was asked to grow.
    InsufficientSpace,
    /// A checked arithmetic step (balance or size) overflowed.
    Overflow,
    /// The instruction bytes do not decode.
    MalformedInstruction,
    /// The account bytes do not decode as a record.
    MalformedRecord,
    /// The record is finalized and refuses further content mutation.
    AlreadyFinalized,
}

} // verus!
