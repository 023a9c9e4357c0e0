//! One ledger account as the host runtime lends it to a handler: an
//! address, a balance, a byte buffer, and the signer/writable attestations
//! for the current instruction.

use vstd::prelude::*;
use crate::state::Pubkey;

verus! {

/// A ledger account, exclusively borrowed for the duration of one
/// instruction.  The handler mutates the balance and the buffer; the host
/// runtime owns the storage itself.
#[derive(Debug)]
pub struct Account {
    pub key: Pubkey,
    pub lamports: u64,
    pub data: Vec<u8>,
    pub is_signer: bool,
    pub is_writable: bool,
}

/// Whether two account values are indistinguishable: same address, balance,
/// bytes and flags.  A failed instruction leaves every account so.
pub open spec fn account_unchanged(a: Account, b: Account) -> bool {
    &&& a.key@ == b.key@
    &&& a.lamports == b.lamports
    &&& a.data@ == b.data@
    &&& a.is_signer == b.is_signer
    &&& a.is_writable == b.is_writable
}

/// Whether address and flags agree: the parts of an account no handler
/// ever changes.
pub open spec fn account_meta_unchanged(a: Account, b: Account) -> bool {
    &&& a.key@ == b.key@
    &&& a.is_signer == b.is_signer
    &&& a.is_writable == b.is_writable
}

/// The 32-byte address of the ledger's account-creation service (the system
/// program): thirty-two zero bytes.
pub open spec fn system_program_key() -> Seq<u8> {
    Seq::new(32, |i: int| 0u8)
}

/// Whether this account is the ledger's account-creation service.
pub fn is_system_program(a: &Account) -> (r: bool)
    ensures
        r == (a.key@ == system_program_key()),
{
    if a.key.bytes.len() != 32 {
        return false;
    }
    let mut i: usize = 0;
    while i < 32
        invariant
            i <= 32,
            a.key.bytes@.len() == 32,
            forall|j: int| 0 <= j < i ==> a.key@[j] == 0u8,
        decreases 32 - i,
    {
        if a.key.bytes[i] != 0 {
            return false;
        }
        i = i + 1;
    }
    proof {
        assert(a.key@ =~= system_program_key());
    }
    true
}

} // verus!
