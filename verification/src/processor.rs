//! The lifecycle handlers and the instruction router.  Every check, every
//! balance move and every buffer write is specified exactly: each handler's
//! result equals its outcome function, a failed call changes nothing, and a
//! successful call rewrites the record to the matching record-level
//! transition.

use vstd::prelude::*;
use crate::account::{
    account_meta_unchanged, account_unchanged, is_system_program, system_program_key, Account,
};
use crate::codec::{decode_record, encode_record, lemma_record_round_trip};
use crate::error::DataAccountError;
use crate::instruction::{DataAccountInstruction, InstructionModel};
use crate::state::{
    apply_op, content_updated, finalized_record, initialized_record, new_len_spec, type_updated,
    wf_model, zero_seq, DataAccountData, DataAccountState, DataStatusOption, DataTypeOption,
    FinalizeAccountArgs, InitializeDataAccountArgs, RecordModel, RecordOp,
    SerializationStatusOption, UpdateDataAccountArgs, UpdateDataAccountDataArgs,
    UpdateDataAccountDataTypeArgs, DATA_VERSION, METADATA_SIZE,
};

verus! {

/// The deposit still owed when an account holding `rec_lamports` must come
/// to hold at least `new_min`.
pub open spec fn grow_diff(new_min: u64, rec_lamports: u64) -> u64 {
    if new_min > rec_lamports {
        (new_min - rec_lamports) as u64
    } else {
        0u64
    }
}

/// The surplus released when an account holding `rec_lamports` only needs
/// `new_min`.
pub open spec fn shrink_diff(rec_lamports: u64, new_min: u64) -> u64 {
    if rec_lamports > new_min {
        (rec_lamports - new_min) as u64
    } else {
        0u64
    }
}

/// The model of the schema record a Finalize call consults: the decoded
/// record of the supplied account, if it decodes at all.
pub open spec fn schema_record_of(schema: Option<&Account>) -> Option<RecordModel> {
    match schema {
        Some(a) => decode_record(a.data@),
        None => None,
    }
}

// ---------------------------------------------------------------------------
// Outcomes: what each handler returns, exactly, as a function of its inputs.
// The first violated precondition wins.
// ---------------------------------------------------------------------------

/// What Initialize returns.
pub open spec fn init_outcome(
    auth: Account,
    rec: Account,
    sys: Account,
    space: u64,
    rent_deposit: u64,
) -> Result<(), DataAccountError> {
    if !auth.is_signer || !rec.is_signer {
        Err(DataAccountError::NotSigner)
    } else if !auth.is_writable || !rec.is_writable {
        Err(DataAccountError::NotWriteable)
    } else if sys.key@ != system_program_key() {
        Err(DataAccountError::InvalidExternalProgramReference)
    } else if rec.data@.len() != 0 {
        Err(DataAccountError::AlreadyInitialized)
    } else if space > u32::MAX || METADATA_SIZE + space > usize::MAX {
        Err(DataAccountError::Overflow)
    } else if auth.lamports < rent_deposit {
        Err(DataAccountError::Overflow)
    } else if rec.lamports + rent_deposit > u64::MAX {
        Err(DataAccountError::Overflow)
    } else {
        Ok(())
    }
}

/// What a successful Initialize leaves behind: the authority funded the
/// deposit, the account received it, and the account's buffer now holds the
/// fresh record, zero-filled to the requested capacity.
pub open spec fn init_effects(
    old_auth: Account,
    old_rec: Account,
    new_auth: Account,
    new_rec: Account,
    authority_key: Seq<u8>,
    space: u64,
    is_dynamic: bool,
    rent_deposit: u64,
) -> bool {
    &&& account_meta_unchanged(old_auth, new_auth)
    &&& account_meta_unchanged(old_rec, new_rec)
    &&& new_auth.data@ == old_auth.data@
    &&& new_auth.lamports == old_auth.lamports - rent_deposit
    &&& new_rec.lamports == old_rec.lamports + rent_deposit
    &&& new_rec.data@ == encode_record(initialized_record(authority_key, space as nat, is_dynamic))
    &&& decode_record(new_rec.data@) == Some(
        initialized_record(authority_key, space as nat, is_dynamic),
    )
}

/// What the capacity and deposit rebalancer decides for a content update
/// already past its account-level checks.
pub open spec fn content_outcome(
    r: RecordModel,
    auth_lamports: u64,
    rec_lamports: u64,
    patch_len: nat,
    offset: nat,
    remove_remaining: bool,
    new_min: u64,
) -> Result<(), DataAccountError> {
    let old_len = r.data.len();
    let end_len = offset + patch_len;
    if end_len > usize::MAX {
        Err(DataAccountError::Overflow)
    } else if !r.is_dynamic && end_len > old_len {
        Err(DataAccountError::InsufficientSpace)
    } else {
        let nl = new_len_spec(r.is_dynamic, old_len, end_len, remove_remaining);
        if nl > u32::MAX || METADATA_SIZE + nl > usize::MAX {
            Err(DataAccountError::Overflow)
        } else if nl == old_len {
            Ok(())
        } else if nl > old_len {
            if auth_lamports < grow_diff(new_min, rec_lamports) {
                Err(DataAccountError::Overflow)
            } else {
                Ok(())
            }
        } else {
            if auth_lamports + shrink_diff(rec_lamports, new_min) > u64::MAX {
                Err(DataAccountError::Overflow)
            } else {
                Ok(())
            }
        }
    }
}

/// What Update and UpdateData return.  The two share every check; only the
/// declared type they leave behind differs.
pub open spec fn update_outcome(
    auth: Account,
    rec: Account,
    sys: Account,
    patch_len: nat,
    offset: nat,
    remove_remaining: bool,
    new_min: u64,
) -> Result<(), DataAccountError> {
    if !auth.is_signer {
        Err(DataAccountError::NotSigner)
    } else if !auth.is_writable || !rec.is_writable {
        Err(DataAccountError::NotWriteable)
    } else if sys.key@ != system_program_key() {
        Err(DataAccountError::InvalidExternalProgramReference)
    } else if rec.data@.len() == 0 {
        Err(DataAccountError::NoAccountLength)
    } else {
        match decode_record(rec.data@) {
            None => Err(DataAccountError::MalformedRecord),
            Some(r) => {
                if r.data_status == DataStatusOption::Uninitialized {
                    Err(DataAccountError::NotInitialized)
                } else if r.authority != auth.key@ {
                    Err(DataAccountError::InvalidAuthority)
                } else if r.data_status == DataStatusOption::Finalized {
                    Err(DataAccountError::AlreadyFinalized)
                } else {
                    content_outcome(
                        r,
                        auth.lamports,
                        rec.lamports,
                        patch_len,
                        offset,
                        remove_remaining,
                        new_min,
                    )
                }
            },
        }
    }
}

/// What a successful content update leaves behind: the record is rewritten
/// to `content_updated` with the selected declared type, and the balances
/// follow the rebalancer — untouched without a resize, the deposit gap paid
/// by the authority on growth, the surplus released to the authority and the
/// account pinned to exactly the new minimum on shrinkage.
pub open spec fn update_effects(
    old_auth: Account,
    old_rec: Account,
    new_auth: Account,
    new_rec: Account,
    data_type_sel: DataTypeOption,
    patch: Seq<u8>,
    offset: nat,
    remove_remaining: bool,
    new_min: u64,
) -> bool {
    let r = decode_record(old_rec.data@).unwrap();
    let nr = content_updated(r, data_type_sel, patch, offset, remove_remaining);
    let old_len = r.data.len();
    let nl = new_len_spec(r.is_dynamic, old_len, offset + patch.len(), remove_remaining);
    &&& account_meta_unchanged(old_auth, new_auth)
    &&& account_meta_unchanged(old_rec, new_rec)
    &&& new_auth.data@ == old_auth.data@
    &&& new_rec.data@ == encode_record(nr)
    &&& decode_record(new_rec.data@) == Some(nr)
    &&& (if nl == old_len {
        new_auth.lamports == old_auth.lamports && new_rec.lamports == old_rec.lamports
    } else if nl > old_len {
        new_auth.lamports == old_auth.lamports - grow_diff(new_min, old_rec.lamports)
            && new_rec.lamports == old_rec.lamports + grow_diff(new_min, old_rec.lamports)
    } else {
        new_auth.lamports == old_auth.lamports + shrink_diff(old_rec.lamports, new_min)
            && new_rec.lamports == new_min
    })
}

/// What UpdateType returns.
pub open spec fn update_type_outcome(
    auth: Account,
    rec: Account,
) -> Result<(), DataAccountError> {
    if !auth.is_signer {
        Err(DataAccountError::NotSigner)
    } else if !rec.is_writable {
        Err(DataAccountError::NotWriteable)
    } else if rec.data@.len() == 0 {
        Err(DataAccountError::NoAccountLength)
    } else {
        match decode_record(rec.data@) {
            None => Err(DataAccountError::MalformedRecord),
            Some(r) => {
                if r.data_status == DataStatusOption::Uninitialized {
                    Err(DataAccountError::NotInitialized)
                } else if r.authority != auth.key@ {
                    Err(DataAccountError::InvalidAuthority)
                } else if r.data_status == DataStatusOption::Finalized {
                    Err(DataAccountError::AlreadyFinalized)
                } else {
                    Ok(())
                }
            },
        }
    }
}

/// What a successful UpdateType leaves behind: only the record changes, and
/// only as `type_updated` says.
pub open spec fn update_type_effects(
    old_auth: Account,
    old_rec: Account,
    new_auth: Account,
    new_rec: Account,
    data_type: DataTypeOption,
) -> bool {
    let r = decode_record(old_rec.data@).unwrap();
    let nr = type_updated(r, data_type);
    &&& account_unchanged(old_auth, new_auth)
    &&& account_meta_unchanged(old_rec, new_rec)
    &&& new_rec.lamports == old_rec.lamports
    &&& new_rec.data@ == encode_record(nr)
    &&& decode_record(new_rec.data@) == Some(nr)
}

/// What Finalize returns.
pub open spec fn finalize_outcome(auth: Account, rec: Account) -> Result<(), DataAccountError> {
    if !auth.is_signer {
        Err(DataAccountError::NotSigner)
    } else if !rec.is_writable {
        Err(DataAccountError::NotWriteable)
    } else if rec.data@.len() == 0 {
        Err(DataAccountError::NoAccountLength)
    } else {
        match decode_record(rec.data@) {
            None => Err(DataAccountError::MalformedRecord),
            Some(r) => {
                if r.data_status == DataStatusOption::Uninitialized {
                    Err(DataAccountError::NotInitialized)
                } else if r.authority != auth.key@ {
                    Err(DataAccountError::InvalidAuthority)
                } else {
                    Ok(())
                }
            },
        }
    }
}

/// What a successful Finalize leaves behind: only the record changes, and
/// only as `finalized_record` says, consulting the supplied schema account's
/// decoded record.
pub open spec fn finalize_effects(
    old_auth: Account,
    old_rec: Account,
    new_auth: Account,
    new_rec: Account,
    verify_flag: bool,
    schema: Option<RecordModel>,
) -> bool {
    let r = decode_record(old_rec.data@).unwrap();
    let nr = finalized_record(r, verify_flag, schema);
    &&& account_unchanged(old_auth, new_auth)
    &&& account_meta_unchanged(old_rec, new_rec)
    &&& new_rec.lamports == old_rec.lamports
    &&& new_rec.data@ == encode_record(nr)
    &&& decode_record(new_rec.data@) == Some(nr)
}

/// What Close returns.
pub open spec fn close_outcome(auth: Account, rec: Account) -> Result<(), DataAccountError> {
    if !auth.is_writable {
        Err(DataAccountError::NotWriteable)
    } else if !rec.is_signer {
        Err(DataAccountError::NotSigner)
    } else if !rec.is_writable {
        Err(DataAccountError::NotWriteable)
    } else if rec.data@.len() == 0 {
        Err(DataAccountError::NoAccountLength)
    } else {
        match decode_record(rec.data@) {
            None => Err(DataAccountError::MalformedRecord),
            Some(r) => {
                if r.data_status == DataStatusOption::Uninitialized {
                    Err(DataAccountError::NotInitialized)
                } else if r.authority != auth.key@ {
                    Err(DataAccountError::InvalidAuthority)
                } else if auth.lamports + rec.lamports > u64::MAX {
                    Err(DataAccountError::Overflow)
                } else {
                    Ok(())
                }
            },
        }
    }
}

/// What a successful Close leaves behind: the account's whole balance moved
/// to the authority, and the account's buffer zero-filled in place.
pub open spec fn close_effects(
    old_auth: Account,
    old_rec: Account,
    new_auth: Account,
    new_rec: Account,
) -> bool {
    &&& account_meta_unchanged(old_auth, new_auth)
    &&& account_meta_unchanged(old_rec, new_rec)
    &&& new_auth.data@ == old_auth.data@
    &&& new_auth.lamports == old_auth.lamports + old_rec.lamports
    &&& new_rec.lamports == 0
    &&& new_rec.data@ == zero_seq(old_rec.data@.len())
}

/// The accounts an optional reference hands over, as a value.
pub open spec fn opt_account(a: Option<&Account>) -> Option<Account> {
    match a {
        Some(x) => Some(*x),
        None => None,
    }
}

/// What the router returns: the matching handler's outcome once the opcode
/// is decoded, a malformed-instruction error when it is not, and a missing
/// ledger-create-service account where the instruction needs one.
pub open spec fn router_outcome(
    auth: Account,
    rec: Account,
    system_program: Option<Account>,
    instr: Option<InstructionModel>,
    new_min: u64,
) -> Result<(), DataAccountError> {
    match instr {
        None => Err(DataAccountError::MalformedInstruction),
        Some(InstructionModel::Initialize { authority, space, is_dynamic }) => {
            match system_program {
                Some(sys) => init_outcome(auth, rec, sys, space, new_min),
                None => Err(DataAccountError::InvalidExternalProgramReference),
            }
        },
        Some(InstructionModel::Update { data_type, data, offset, remove_remaining }) => {
            match system_program {
                Some(sys) => update_outcome(
                    auth,
                    rec,
                    sys,
                    data.len(),
                    offset as nat,
                    remove_remaining,
                    new_min,
                ),
                None => Err(DataAccountError::InvalidExternalProgramReference),
            }
        },
        Some(InstructionModel::UpdateData { data, offset, remove_remaining }) => {
            match system_program {
                Some(sys) => update_outcome(
                    auth,
                    rec,
                    sys,
                    data.len(),
                    offset as nat,
                    remove_remaining,
                    new_min,
                ),
                None => Err(DataAccountError::InvalidExternalProgramReference),
            }
        },
        Some(InstructionModel::UpdateType { data_type }) => update_type_outcome(auth, rec),
        Some(InstructionModel::Finalize { verify_flag }) => finalize_outcome(auth, rec),
        Some(InstructionModel::Close) => close_outcome(auth, rec),
    }
}

/// What a successful routed instruction leaves behind: the matching
/// handler's effects.
pub open spec fn router_effects(
    old_auth: Account,
    old_rec: Account,
    new_auth: Account,
    new_rec: Account,
    instr: Option<InstructionModel>,
    schema: Option<RecordModel>,
    new_min: u64,
) -> bool {
    match instr {
        None => false,
        Some(InstructionModel::Initialize { authority, space, is_dynamic }) => init_effects(
            old_auth,
            old_rec,
            new_auth,
            new_rec,
            authority,
            space,
            is_dynamic,
            new_min,
        ),
        Some(InstructionModel::Update { data_type, data, offset, remove_remaining }) =>
            update_effects(
            old_auth,
            old_rec,
            new_auth,
            new_rec,
            data_type,
            data,
            offset as nat,
            remove_remaining,
            new_min,
        ),
        Some(InstructionModel::UpdateData { data, offset, remove_remaining }) => update_effects(
            old_auth,
            old_rec,
            new_auth,
            new_rec,
            decode_record(old_rec.data@).unwrap().data_type,
            data,
            offset as nat,
            remove_remaining,
            new_min,
        ),
        Some(InstructionModel::UpdateType { data_type }) => update_type_effects(
            old_auth,
            old_rec,
            new_auth,
            new_rec,
            data_type,
        ),
        Some(InstructionModel::Finalize { verify_flag }) => finalize_effects(
            old_auth,
            old_rec,
            new_auth,
            new_rec,
            verify_flag,
            schema,
        ),
        Some(InstructionModel::Close) => close_effects(old_auth, old_rec, new_auth, new_rec),
    }
}

/// The total account space an instruction will ask the ledger to provide,
/// so the caller can query the minimum deposit for it before dispatching:
/// the metadata plus the requested capacity for Initialize, the metadata
/// plus the rebalanced payload length for a resizing content update,
/// nothing for everything else.  The account-level checks the router makes
/// first (signatures, writability, authority) are not repeated here.
pub open spec fn required_space_spec(
    rec_data: Seq<u8>,
    instr: Option<InstructionModel>,
) -> Result<Option<usize>, DataAccountError> {
    match instr {
        None => Err(DataAccountError::MalformedInstruction),
        Some(InstructionModel::Initialize { authority, space, is_dynamic }) => {
            if space > u32::MAX || METADATA_SIZE + space > usize::MAX {
                Err(DataAccountError::Overflow)
            } else {
                Ok(Some((METADATA_SIZE + space) as usize))
            }
        },
        Some(InstructionModel::Update { data_type, data, offset, remove_remaining }) =>
            content_space_spec(rec_data, data.len(), offset as nat, remove_remaining),
        Some(InstructionModel::UpdateData { data, offset, remove_remaining }) =>
            content_space_spec(rec_data, data.len(), offset as nat, remove_remaining),
        Some(_) => Ok(None),
    }
}

/// The total space a content update will need, when it resizes at all.
pub open spec fn content_space_spec(
    rec_data: Seq<u8>,
    patch_len: nat,
    offset: nat,
    remove_remaining: bool,
) -> Result<Option<usize>, DataAccountError> {
    if rec_data.len() == 0 {
        Err(DataAccountError::NoAccountLength)
    } else {
        match decode_record(rec_data) {
            None => Err(DataAccountError::MalformedRecord),
            Some(r) => {
                let end_len = offset + patch_len;
                if end_len > usize::MAX {
                    Err(DataAccountError::Overflow)
                } else if !r.is_dynamic && end_len > r.data.len() {
                    Err(DataAccountError::InsufficientSpace)
                } else {
                    let nl = new_len_spec(r.is_dynamic, r.data.len(), end_len, remove_remaining);
                    if nl > u32::MAX || METADATA_SIZE + nl > usize::MAX {
                        Err(DataAccountError::Overflow)
                    } else if nl == r.data.len() {
                        Ok(None)
                    } else {
                        Ok(Some((METADATA_SIZE + nl) as usize))
                    }
                }
            },
        }
    }
}

// ---------------------------------------------------------------------------
// Executable helpers.
// ---------------------------------------------------------------------------

/// A fresh zero-filled buffer of `n` bytes.
fn zero_vec(n: usize) -> (v: Vec<u8>)
    ensures
        v@ == zero_seq(n as nat),
{
    let mut v: Vec<u8> = Vec::new();
    let mut i: usize = 0;
    while i < n
        invariant
            i <= n,
            v@ == zero_seq(i as nat),
        decreases n - i,
    {
        v.push(0);
        proof {
            assert(v@ =~= zero_seq((i + 1) as nat));
        }
        i = i + 1;
    }
    v
}

/// The payload after the write: `patch` at `offset`, prior bytes elsewhere,
/// zero padding beyond, resized to `new_len`.
fn build_spliced(old_data: &Vec<u8>, patch: &Vec<u8>, offset: usize, new_len: usize) -> (r: Vec<
    u8,
>)
    requires
        offset + patch@.len() <= new_len,
    ensures
        r@ == crate::state::spliced(old_data@, patch@, offset as nat, new_len as nat),
{
    let end = offset + patch.len();
    let old_len = old_data.len();
    let mut r: Vec<u8> = Vec::new();
    let mut i: usize = 0;
    while i < new_len
        invariant
            i <= new_len,
            end == offset + patch@.len(),
            end <= new_len,
            old_len == old_data@.len(),
            r@.len() == i,
            forall|j: int|
                0 <= j < i ==> r@[j] == crate::state::spliced(
                    old_data@,
                    patch@,
                    offset as nat,
                    new_len as nat,
                )[j],
        decreases new_len - i,
    {
        if offset <= i && i < end {
            r.push(patch[i - offset]);
        } else if i < old_len {
            r.push(old_data[i]);
        } else {
            r.push(0);
        }
        i = i + 1;
    }
    proof {
        assert(r@ =~= crate::state::spliced(old_data@, patch@, offset as nat, new_len as nat));
    }
    r
}

/// The capacity and deposit rebalancer together with the buffer write: runs
/// after a content update's account-level checks, decides the new payload
/// length, moves the deposit difference, and rewrites the record.
fn apply_content_update(
    authority: &mut Account,
    data_account: &mut Account,
    state: DataAccountState,
    data_type: DataTypeOption,
    patch: &Vec<u8>,
    offset: u64,
    remove_remaining: bool,
    new_min: u64,
) -> (res: Result<(), DataAccountError>)
    requires
        wf_model(state@),
        decode_record(old(data_account).data@) == Some(state@),
    ensures
        res == content_outcome(
            state@,
            old(authority).lamports,
            old(data_account).lamports,
            patch@.len(),
            offset as nat,
            remove_remaining,
            new_min,
        ),
        res matches Err(_) ==> account_unchanged(*old(authority), *final(authority))
            && account_unchanged(*old(data_account), *final(data_account)),
        res matches Ok(_) ==> update_effects(
            *old(authority),
            *old(data_account),
            *final(authority),
            *final(data_account),
            data_type,
            patch@,
            offset as nat,
            remove_remaining,
            new_min,
        ),
{
    let old_len = state.account_data.data.len();
    if offset > usize::MAX as u64 {
        return Err(DataAccountError::Overflow);
    }
    let off = offset as usize;
    if patch.len() > usize::MAX - off {
        return Err(DataAccountError::Overflow);
    }
    let end_len = off + patch.len();
    if !state.is_dynamic && end_len > old_len {
        return Err(DataAccountError::InsufficientSpace);
    }
    let new_len = if !state.is_dynamic {
        old_len
    } else if remove_remaining {
        end_len
    } else if old_len > end_len {
        old_len
    } else {
        end_len
    };
    if new_len > u32::MAX as usize {
        return Err(DataAccountError::Overflow);
    }
    if new_len > usize::MAX - METADATA_SIZE {
        return Err(DataAccountError::Overflow);
    }
    // All further steps are infallible once the balance moves are known to
    // fit, so nothing is mutated before every check has passed.
    let mut auth_lamports = authority.lamports;
    let mut rec_lamports = data_account.lamports;
    if new_len != old_len {
        if old_len < new_len {
            let diff = if new_min > rec_lamports {
                new_min - rec_lamports
            } else {
                0
            };
            if auth_lamports < diff {
                return Err(DataAccountError::Overflow);
            }
            auth_lamports = auth_lamports - diff;
            rec_lamports = rec_lamports + diff;
        } else {
            let diff = if rec_lamports > new_min {
                rec_lamports - new_min
            } else {
                0
            };
            if auth_lamports > u64::MAX - diff {
                return Err(DataAccountError::Overflow);
            }
            auth_lamports = auth_lamports + diff;
            rec_lamports = new_min;
        }
    }
    let new_data = build_spliced(&state.account_data.data, patch, off, new_len);
    let new_state = DataAccountState {
        data_status: DataStatusOption::Updated,
        serialization_status: SerializationStatusOption::Unverified,
        account_data: DataAccountData { data_type, data: new_data },
        ..state
    };
    proof {
        assert(new_state@ =~= content_updated(
            state@,
            data_type,
            patch@,
            offset as nat,
            remove_remaining,
        ));
        lemma_record_round_trip(new_state@);
    }
    let bytes = new_state.encode();
    authority.lamports = auth_lamports;
    data_account.lamports = rec_lamports;
    data_account.data = bytes;
    Ok(())
}

/// The processor: one handler per instruction, and the router that
/// dispatches to them.
pub struct Processor {}

impl Processor {
    /// Initialize: builds a fresh record for the given authority, funds the
    /// new account with the supplied deposit, and writes the record into
    /// the account's buffer, zero-filled to the requested capacity.
    pub fn process_initialize(
        authority: &mut Account,
        data_account: &mut Account,
        system_program: &Account,
        args: &InitializeDataAccountArgs,
        rent_deposit: u64,
    ) -> (res: Result<(), DataAccountError>)
        requires
            args.authority.wf(),
        ensures
            res == init_outcome(
                *old(authority),
                *old(data_account),
                *system_program,
                args.space,
                rent_deposit,
            ),
            res matches Err(_) ==> account_unchanged(*old(authority), *final(authority))
                && account_unchanged(*old(data_account), *final(data_account)),
            res matches Ok(_) ==> init_effects(
                *old(authority),
                *old(data_account),
                *final(authority),
                *final(data_account),
                args.authority@,
                args.space,
                args.is_dynamic,
                rent_deposit,
            ),
    {
        if !authority.is_signer || !data_account.is_signer {
            return Err(DataAccountError::NotSigner);
        }
        if !authority.is_writable || !data_account.is_writable {
            return Err(DataAccountError::NotWriteable);
        }
        if !is_system_program(system_program) {
            return Err(DataAccountError::InvalidExternalProgramReference);
        }
        if data_account.data.len() != 0 {
            return Err(DataAccountError::AlreadyInitialized);
        }
        if args.space > u32::MAX as u64 {
            return Err(DataAccountError::Overflow);
        }
        let space = args.space as usize;
        if space > usize::MAX - METADATA_SIZE {
            return Err(DataAccountError::Overflow);
        }
        if authority.lamports < rent_deposit {
            return Err(DataAccountError::Overflow);
        }
        if data_account.lamports > u64::MAX - rent_deposit {
            return Err(DataAccountError::Overflow);
        }
        let state = DataAccountState::new(
            DataStatusOption::Initialized,
            SerializationStatusOption::Unverified,
            args.authority.duplicate(),
            args.is_dynamic,
            DATA_VERSION,
            DataAccountData { data_type: DataTypeOption::Custom, data: zero_vec(space) },
        );
        proof {
            assert(state@ =~= initialized_record(args.authority@, args.space as nat, args.is_dynamic));
            lemma_record_round_trip(state@);
        }
        let bytes = state.encode();
        authority.lamports = authority.lamports - rent_deposit;
        data_account.lamports = data_account.lamports + rent_deposit;
        data_account.data = bytes;
        Ok(())
    }

    /// Update: replaces the declared type and overwrites part of the
    /// payload, rebalancing capacity and deposit when the length changes.
    pub fn process_update(
        authority: &mut Account,
        data_account: &mut Account,
        system_program: &Account,
        args: &UpdateDataAccountArgs,
        new_minimum_balance: u64,
    ) -> (res: Result<(), DataAccountError>)
        ensures
            res == update_outcome(
                *old(authority),
                *old(data_account),
                *system_program,
                args.data@.len(),
                args.offset as nat,
                args.remove_remaining,
                new_minimum_balance,
            ),
            res matches Err(_) ==> account_unchanged(*old(authority), *final(authority))
                && account_unchanged(*old(data_account), *final(data_account)),
            res matches Ok(_) ==> update_effects(
                *old(authority),
                *old(data_account),
                *final(authority),
                *final(data_account),
                args.data_type,
                args.data@,
                args.offset as nat,
                args.remove_remaining,
                new_minimum_balance,
            ),
            res matches Ok(_) ==> decode_record(final(data_account).data@) == Some(
                apply_op(
                    decode_record(old(data_account).data@).unwrap(),
                    (RecordOp::Update {
                        data_type: args.data_type,
                        data: args.data@,
                        offset: args.offset as nat,
                        remove_remaining: args.remove_remaining,
                    }),
                ),
            ),
    {
        if !authority.is_signer {
            return Err(DataAccountError::NotSigner);
        }
        if !authority.is_writable || !data_account.is_writable {
            return Err(DataAccountError::NotWriteable);
        }
        if !is_system_program(system_program) {
            return Err(DataAccountError::InvalidExternalProgramReference);
        }
        if data_account.data.len() == 0 {
            return Err(DataAccountError::NoAccountLength);
        }
        let state = match DataAccountState::decode(&data_account.data) {
            Ok(s) => s,
            Err(e) => {
                return Err(e);
            },
        };
        if state.data_status == DataStatusOption::Uninitialized {
            return Err(DataAccountError::NotInitialized);
        }
        if !state.authority.key_eq(&authority.key) {
            return Err(DataAccountError::InvalidAuthority);
        }
        if state.data_status == DataStatusOption::Finalized {
            return Err(DataAccountError::AlreadyFinalized);
        }
        apply_content_update(
            authority,
            data_account,
            state,
            args.data_type,
            &args.data,
            args.offset,
            args.remove_remaining,
            new_minimum_balance,
        )
    }

    /// UpdateData: overwrites part of the payload without touching the
    /// declared type, rebalancing capacity and deposit when the length
    /// changes.
    pub fn process_update_data(
        authority: &mut Account,
        data_account: &mut Account,
        system_program: &Account,
        args: &UpdateDataAccountDataArgs,
        new_minimum_balance: u64,
    ) -> (res: Result<(), DataAccountError>)
        ensures
            res == update_outcome(
                *old(authority),
                *old(data_account),
                *system_program,
                args.data@.len(),
                args.offset as nat,
                args.remove_remaining,
                new_minimum_balance,
            ),
            res matches Err(_) ==> account_unchanged(*old(authority), *final(authority))
                && account_unchanged(*old(data_account), *final(data_account)),
            res matches Ok(_) ==> update_effects(
                *old(authority),
                *old(data_account),
                *final(authority),
                *final(data_account),
                decode_record(old(data_account).data@).unwrap().data_type,
                args.data@,
                args.offset as nat,
                args.remove_remaining,
                new_minimum_balance,
            ),
            res matches Ok(_) ==> decode_record(final(data_account).data@) == Some(
                apply_op(
                    decode_record(old(data_account).data@).unwrap(),
                    (RecordOp::UpdateData {
                        data: args.data@,
                        offset: args.offset as nat,
                        remove_remaining: args.remove_remaining,
                    }),
                ),
            ),
    {
        if !authority.is_signer {
            return Err(DataAccountError::NotSigner);
        }
        if !authority.is_writable || !data_account.is_writable {
            return Err(DataAccountError::NotWriteable);
        }
        if !is_system_program(system_program) {
            return Err(DataAccountError::InvalidExternalProgramReference);
        }
        if data_account.data.len() == 0 {
            return Err(DataAccountError::NoAccountLength);
        }
        let state = match DataAccountState::decode(&data_account.data) {
            Ok(s) => s,
            Err(e) => {
                return Err(e);
            },
        };
        if state.data_status == DataStatusOption::Uninitialized {
            return Err(DataAccountError::NotInitialized);
        }
        if !state.authority.key_eq(&authority.key) {
            return Err(DataAccountError::InvalidAuthority);
        }
        if state.data_status == DataStatusOption::Finalized {
            return Err(DataAccountError::AlreadyFinalized);
        }
        let data_type = state.account_data.data_type;
        apply_content_update(
            authority,
            data_account,
            state,
            data_type,
            &args.data,
            args.offset,
            args.remove_remaining,
            new_minimum_balance,
        )
    }

    /// UpdateType: replaces only the declared type; the payload, the
    /// capacity and every balance stay as they are.
    pub fn process_update_data_type(
        authority: &mut Account,
        data_account: &mut Account,
        args: &UpdateDataAccountDataTypeArgs,
    ) -> (res: Result<(), DataAccountError>)
        ensures
            res == update_type_outcome(*old(authority), *old(data_account)),
            res matches Err(_) ==> account_unchanged(*old(authority), *final(authority))
                && account_unchanged(*old(data_account), *final(data_account)),
            res matches Ok(_) ==> update_type_effects(
                *old(authority),
                *old(data_account),
                *final(authority),
                *final(data_account),
                args.data_type,
            ),
            res matches Ok(_) ==> decode_record(final(data_account).data@) == Some(
                apply_op(
                    decode_record(old(data_account).data@).unwrap(),
                    (RecordOp::UpdateType { data_type: args.data_type }),
                ),
            ),
    {
        if !authority.is_signer {
            return Err(DataAccountError::NotSigner);
        }
        if !data_account.is_writable {
            return Err(DataAccountError::NotWriteable);
        }
        if data_account.data.len() == 0 {
            return Err(DataAccountError::NoAccountLength);
        }
        let state = match DataAccountState::decode(&data_account.data) {
            Ok(s) => s,
            Err(e) => {
                return Err(e);
            },
        };
        if state.data_status == DataStatusOption::Uninitialized {
            return Err(DataAccountError::NotInitialized);
        }
        if !state.authority.key_eq(&authority.key) {
            return Err(DataAccountError::InvalidAuthority);
        }
        if state.data_status == DataStatusOption::Finalized {
            return Err(DataAccountError::AlreadyFinalized);
        }
        let new_state = DataAccountState {
            data_status: DataStatusOption::Updated,
            serialization_status: SerializationStatusOption::Unverified,
            account_data: DataAccountData {
                data_type: args.data_type,
                data: state.account_data.data,
            },
            ..state
        };
        proof {
            assert(new_state@ =~= type_updated(
                decode_record(old(data_account).data@).unwrap(),
                args.data_type,
            ));
            lemma_record_round_trip(new_state@);
        }
        let bytes = new_state.encode();
        data_account.data = bytes;
        Ok(())
    }

    /// Finalize: marks the record Finalized; when verification is
    /// requested, records the content verifier's verdict, consulting the
    /// optional schema account.  No capacity or balance change.
    pub fn process_finalize(
        authority: &mut Account,
        data_account: &mut Account,
        schema_account: Option<&Account>,
        args: &FinalizeAccountArgs,
    ) -> (res: Result<(), DataAccountError>)
        ensures
            res == finalize_outcome(*old(authority), *old(data_account)),
            res matches Err(_) ==> account_unchanged(*old(authority), *final(authority))
                && account_unchanged(*old(data_account), *final(data_account)),
            res matches Ok(_) ==> finalize_effects(
                *old(authority),
                *old(data_account),
                *final(authority),
                *final(data_account),
                args.verify_flag,
                schema_record_of(schema_account),
            ),
            res matches Ok(_) ==> decode_record(final(data_account).data@) == Some(
                apply_op(
                    decode_record(old(data_account).data@).unwrap(),
                    (RecordOp::Finalize {
                        verify_flag: args.verify_flag,
                        schema: schema_record_of(schema_account),
                    }),
                ),
            ),
    {
        if !authority.is_signer {
            return Err(DataAccountError::NotSigner);
        }
        if !data_account.is_writable {
            return Err(DataAccountError::NotWriteable);
        }
        if data_account.data.len() == 0 {
            return Err(DataAccountError::NoAccountLength);
        }
        let state = match DataAccountState::decode(&data_account.data) {
            Ok(s) => s,
            Err(e) => {
                return Err(e);
            },
        };
        if state.data_status == DataStatusOption::Uninitialized {
            return Err(DataAccountError::NotInitialized);
        }
        if !state.authority.key_eq(&authority.key) {
            return Err(DataAccountError::InvalidAuthority);
        }
        let schema_state = match schema_account {
            Some(a) => {
                match DataAccountState::decode(&a.data) {
                    Ok(s) => Some(s),
                    Err(_) => None,
                }
            },
            None => None,
        };
        let schema_ref: Option<&DataAccountState> = match &schema_state {
            Some(s) => Some(s),
            None => None,
        };
        let verdict = if args.verify_flag {
            state.account_data.verify(schema_ref)
        } else {
            state.serialization_status
        };
        let new_state = DataAccountState {
            data_status: DataStatusOption::Finalized,
            serialization_status: verdict,
            ..state
        };
        proof {
            assert(new_state@ =~= finalized_record(
                decode_record(old(data_account).data@).unwrap(),
                args.verify_flag,
                schema_record_of(schema_account),
            ));
            lemma_record_round_trip(new_state@);
        }
        let bytes = new_state.encode();
        data_account.data = bytes;
        Ok(())
    }

    /// Close: credits the account's whole balance to the authority, zeroes
    /// the account's balance and zero-fills its buffer.  The ledger-level
    /// removal of the account entry is the host runtime's concern.
    pub fn process_close(authority: &mut Account, data_account: &mut Account) -> (res: Result<
        (),
        DataAccountError,
    >)
        ensures
            res == close_outcome(*old(authority), *old(data_account)),
            res matches Err(_) ==> account_unchanged(*old(authority), *final(authority))
                && account_unchanged(*old(data_account), *final(data_account)),
            res matches Ok(_) ==> close_effects(
                *old(authority),
                *old(data_account),
                *final(authority),
                *final(data_account),
            ),
    {
        if !authority.is_writable {
            return Err(DataAccountError::NotWriteable);
        }
        if !data_account.is_signer {
            return Err(DataAccountError::NotSigner);
        }
        if !data_account.is_writable {
            return Err(DataAccountError::NotWriteable);
        }
        if data_account.data.len() == 0 {
            return Err(DataAccountError::NoAccountLength);
        }
        let state = match DataAccountState::decode(&data_account.data) {
            Ok(s) => s,
            Err(e) => {
                return Err(e);
            },
        };
        if state.data_status == DataStatusOption::Uninitialized {
            return Err(DataAccountError::NotInitialized);
        }
        if !state.authority.key_eq(&authority.key) {
            return Err(DataAccountError::InvalidAuthority);
        }
        if authority.lamports > u64::MAX - data_account.lamports {
            return Err(DataAccountError::Overflow);
        }
        let n = data_account.data.len();
        authority.lamports = authority.lamports + data_account.lamports;
        data_account.lamports = 0;
        data_account.data = zero_vec(n);
        Ok(())
    }

    /// The total account space this instruction will ask the ledger to
    /// provide, if any, so the caller can query the minimum deposit for it
    /// before dispatching.
    pub fn required_space(data_account: &Account, instruction_data: &Vec<u8>) -> (res: Result<
        Option<usize>,
        DataAccountError,
    >)
        ensures
            res == required_space_spec(data_account.data@, crate::instruction::decode_instruction(
                instruction_data@,
            )),
    {
        let instruction = match DataAccountInstruction::decode(instruction_data) {
            Ok(i) => i,
            Err(e) => {
                return Err(e);
            },
        };
        match instruction {
            DataAccountInstruction::InitializeDataAccount(args) => {
                if args.space > u32::MAX as u64 {
                    return Err(DataAccountError::Overflow);
                }
                let space = args.space as usize;
                if space > usize::MAX - METADATA_SIZE {
                    return Err(DataAccountError::Overflow);
                }
                Ok(Some(METADATA_SIZE + space))
            },
            DataAccountInstruction::UpdateDataAccount(args) => Self::content_space(
                data_account,
                &args.data,
                args.offset,
                args.remove_remaining,
            ),
            DataAccountInstruction::UpdateDataAccountData(args) => Self::content_space(
                data_account,
                &args.data,
                args.offset,
                args.remove_remaining,
            ),
            DataAccountInstruction::UpdateDataAccountDataType(_) => Ok(None),
            DataAccountInstruction::FinalizeAccount(_) => Ok(None),
            DataAccountInstruction::CloseDataAccount(_) => Ok(None),
        }
    }

    /// The total space a content update will need, when it resizes at all.
    fn content_space(
        data_account: &Account,
        patch: &Vec<u8>,
        offset: u64,
        remove_remaining: bool,
    ) -> (res: Result<Option<usize>, DataAccountError>)
        ensures
            res == content_space_spec(
                data_account.data@,
                patch@.len(),
                offset as nat,
                remove_remaining,
            ),
    {
        if data_account.data.len() == 0 {
            return Err(DataAccountError::NoAccountLength);
        }
        let state = match DataAccountState::decode(&data_account.data) {
            Ok(s) => s,
            Err(e) => {
                return Err(e);
            },
        };
        let old_len = state.account_data.data.len();
        if offset > usize::MAX as u64 {
            return Err(DataAccountError::Overflow);
        }
        let off = offset as usize;
        if patch.len() > usize::MAX - off {
            return Err(DataAccountError::Overflow);
        }
        let end_len = off + patch.len();
        if !state.is_dynamic && end_len > old_len {
            return Err(DataAccountError::InsufficientSpace);
        }
        let new_len = if !state.is_dynamic {
            old_len
        } else if remove_remaining {
            end_len
        } else if old_len > end_len {
            old_len
        } else {
            end_len
        };
        if new_len > u32::MAX as usize {
            return Err(DataAccountError::Overflow);
        }
        if new_len > usize::MAX - METADATA_SIZE {
            return Err(DataAccountError::Overflow);
        }
        if new_len == old_len {
            Ok(None)
        } else {
            Ok(Some(METADATA_SIZE + new_len))
        }
    }

    /// Decodes one instruction and dispatches it to the matching handler.
    /// `new_minimum_balance` is the ledger's minimum deposit for the space
    /// the instruction will occupy (see `required_space`); instructions
    /// that never resize ignore it.
    pub fn process_instruction(
        authority: &mut Account,
        data_account: &mut Account,
        system_program: Option<&Account>,
        schema_account: Option<&Account>,
        instruction_data: &Vec<u8>,
        new_minimum_balance: u64,
    ) -> (res: Result<(), DataAccountError>)
        ensures
            res == router_outcome(
                *old(authority),
                *old(data_account),
                opt_account(system_program),
                crate::instruction::decode_instruction(instruction_data@),
                new_minimum_balance,
            ),
            res matches Err(_) ==> account_unchanged(*old(authority), *final(authority))
                && account_unchanged(*old(data_account), *final(data_account)),
            res matches Ok(_) ==> router_effects(
                *old(authority),
                *old(data_account),
                *final(authority),
                *final(data_account),
                crate::instruction::decode_instruction(instruction_data@),
                schema_record_of(schema_account),
                new_minimum_balance,
            ),
    {
        let instruction = match DataAccountInstruction::decode(instruction_data) {
            Ok(i) => i,
            Err(e) => {
                return Err(e);
            },
        };
        match instruction {
            DataAccountInstruction::InitializeDataAccount(args) => {
                match system_program {
                    Some(sys) => Self::process_initialize(
                        authority,
                        data_account,
                        sys,
                        &args,
                        new_minimum_balance,
                    ),
                    None => Err(DataAccountError::InvalidExternalProgramReference),
                }
            },
            DataAccountInstruction::UpdateDataAccount(args) => {
                match system_program {
                    Some(sys) => Self::process_update(
                        authority,
                        data_account,
                        sys,
                        &args,
                        new_minimum_balance,
                    ),
                    None => Err(DataAccountError::InvalidExternalProgramReference),
                }
            },
            DataAccountInstruction::UpdateDataAccountData(args) => {
                match system_program {
                    Some(sys) => Self::process_update_data(
                        authority,
                        data_account,
                        sys,
                        &args,
                        new_minimum_balance,
                    ),
                    None => Err(DataAccountError::InvalidExternalProgramReference),
                }
            },
            DataAccountInstruction::UpdateDataAccountDataType(args) => Self::process_update_data_type(
                authority,
                data_account,
                &args,
            ),
            DataAccountInstruction::FinalizeAccount(args) => Self::process_finalize(
                authority,
                data_account,
                schema_account,
                &args,
            ),
            DataAccountInstruction::CloseDataAccount(_) => Self::process_close(
                authority,
                data_account,
            ),
        }
    }
}

} // verus!
