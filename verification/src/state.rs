//! The record model: its enums, its mathematical model, the content
//! verifier, and the record-level transition functions that the lifecycle
//! handlers are specified against.

use vstd::prelude::*;

verus! {

/// The canonical binary layout revision.  Any other version is a distinct,
/// explicitly-rejected format: decoding fails closed.
pub const DATA_VERSION: u8 = 0;

/// Encoded size of a record whose payload is empty: status (1), serialization
/// status (1), authority (32), dynamic flag (1), version (1), declared type
/// (1), payload length (4).
pub const METADATA_SIZE: usize = 41;

/// The content kind a payload claims to be; it governs verification.
#[derive(Clone, Copy, Debug, PartialEq, Eq, Structural)]
pub enum DataTypeOption {
    Custom,
    Json,
    SchemaValidated,
}

/// The lifecycle state of a record.  It only advances
/// Uninitialized -> Initialized -> Updated -> Finalized, and Finalized is
/// terminal for content mutation.
#[derive(Clone, Copy, Debug, PartialEq, Eq, Structural)]
pub enum DataStatusOption {
    Uninitialized,
    Initialized,
    Updated,
    Finalized,
}

/// The content-validation outcome, assigned only by Finalize when
/// verification is requested, and reset to Unverified by any content change.
#[derive(Clone, Copy, Debug, PartialEq, Eq, Structural)]
pub enum SerializationStatusOption {
    Unverified,
    Verified,
    Failed,
}

/// A 32-byte public-key identifier.
#[derive(Debug)]
pub struct Pubkey {
    pub bytes: Vec<u8>,
}

impl View for Pubkey {
    type V = Seq<u8>;

    open spec fn view(&self) -> Seq<u8> {
        self.bytes@
    }
}

impl Pubkey {
    /// A key is well formed when it holds exactly 32 bytes.
    pub open spec fn wf(&self) -> bool {
        self@.len() == 32
    }

    /// Builds a key from its bytes; rejects any length other than 32.
    pub fn new(bytes: Vec<u8>) -> (r: Option<Pubkey>)
        ensures
            bytes@.len() == 32 ==> (r matches Some(k) && k@ == bytes@),
            bytes@.len() != 32 ==> r is None,
    {
        if bytes.len() == 32 {
            Some(Pubkey { bytes })
        } else {
            None
        }
    }

    /// An owned copy of this key.
    pub fn duplicate(&self) -> (r: Pubkey)
        ensures
            r@ == self@,
    {
        let mut out: Vec<u8> = Vec::new();
        let mut i: usize = 0;
        while i < self.bytes.len()
            invariant
                i <= self.bytes.len(),
                out@ == self.bytes@.subrange(0, i as int),
            decreases self.bytes.len() - i,
        {
            out.push(self.bytes[i]);
            i = i + 1;
        }
        proof {
            assert(out@ =~= self@);
        }
        Pubkey { bytes: out }
    }

    /// Byte-for-byte equality of two keys.
    pub fn key_eq(&self, other: &Pubkey) -> (r: bool)
        ensures
            r == (self@ == other@),
    {
        if self.bytes.len() != other.bytes.len() {
            return false;
        }
        let mut i: usize = 0;
        while i < self.bytes.len()
            invariant
                i <= self.bytes.len(),
                self.bytes.len() == other.bytes.len(),
                forall|j: int| 0 <= j < i ==> self@[j] == other@[j],
            decreases self.bytes.len() - i,
        {
            if self.bytes[i] != other.bytes[i] {
                return false;
            }
            i = i + 1;
        }
        proof {
            assert(self@ =~= other@);
        }
        true
    }
}

/// The payload: a declared content type and the raw bytes claiming to be of
/// that type.
#[derive(Debug)]
pub struct DataAccountData {
    pub data_type: DataTypeOption,
    pub data: Vec<u8>,
}

/// The mathematical model of a record: what one ledger account persists.
#[verifier::ext_equal]
pub ghost struct RecordModel {
    pub data_status: DataStatusOption,
    pub serialization_status: SerializationStatusOption,
    pub authority: Seq<u8>,
    pub is_dynamic: bool,
    pub data_version: u8,
    pub data_type: DataTypeOption,
    pub data: Seq<u8>,
}

/// A model is well formed when its authority is a 32-byte key, its payload
/// length fits the 4-byte length field, and it carries the canonical layout
/// version.
pub open spec fn wf_model(r: RecordModel) -> bool {
    &&& r.authority.len() == 32
    &&& r.data.len() <= u32::MAX
    &&& r.data_version == DATA_VERSION
}

/// The persisted record of one data account.
#[derive(Debug)]
pub struct DataAccountState {
    pub data_status: DataStatusOption,
    pub serialization_status: SerializationStatusOption,
    pub authority: Pubkey,
    pub is_dynamic: bool,
    pub data_version: u8,
    pub account_data: DataAccountData,
}

impl View for DataAccountState {
    type V = RecordModel;

    open spec fn view(&self) -> RecordModel {
        RecordModel {
            data_status: self.data_status,
            serialization_status: self.serialization_status,
            authority: self.authority@,
            is_dynamic: self.is_dynamic,
            data_version: self.data_version,
            data_type: self.account_data.data_type,
            data: self.account_data.data@,
        }
    }
}

/// Whether the given bytes parse as one JSON document.  The result depends
/// on the bytes alone; it is given a name rather than a definition because
/// the JSON grammar is the parser crate's to state.
pub uninterp spec fn is_json(bytes: Seq<u8>) -> bool;

/// Relies on serde_json::from_slice::<Value>: whether the bytes are a valid
/// JSON document is a function of the bytes alone.
#[verifier::external_body]
fn json_parses(data: &Vec<u8>) -> (r: bool)
    ensures
        r == is_json(data@),
{
    serde_json::from_slice::<serde_json::Value>(data).is_ok()
}

/// What the content verifier answers for a payload of the given declared
/// type, consulting the schema record's model when one is supplied.
pub open spec fn verify_model(
    data_type: DataTypeOption,
    data: Seq<u8>,
    schema: Option<RecordModel>,
) -> SerializationStatusOption {
    if data.len() == 0 || data_type == DataTypeOption::Custom {
        SerializationStatusOption::Unverified
    } else if data_type == DataTypeOption::Json {
        if is_json(data) {
            SerializationStatusOption::Verified
        } else {
            SerializationStatusOption::Failed
        }
    } else {
        match schema {
            Some(s) => {
                if s.data_status == DataStatusOption::Finalized
                    && s.serialization_status == SerializationStatusOption::Verified {
                    SerializationStatusOption::Verified
                } else {
                    SerializationStatusOption::Failed
                }
            },
            None => SerializationStatusOption::Failed,
        }
    }
}

/// The model of an optional schema record.
pub open spec fn schema_model(schema: Option<&DataAccountState>) -> Option<RecordModel> {
    match schema {
        Some(s) => Some(s@),
        None => None,
    }
}

impl DataAccountData {
    /// Verifies that the raw bytes conform to the declared type.  An empty
    /// payload or a Custom payload is never checked; a Json payload is
    /// checked by parsing; a SchemaValidated payload is trusted exactly when
    /// a finalized, verified schema record is supplied (the bytes themselves
    /// are not compared against the schema's structure).
    pub fn verify(&self, schema: Option<&DataAccountState>) -> (r: SerializationStatusOption)
        ensures
            r == verify_model(self.data_type, self.data@, schema_model(schema)),
    {
        if self.data.len() == 0 || self.data_type == DataTypeOption::Custom {
            return SerializationStatusOption::Unverified;
        }
        match self.data_type {
            DataTypeOption::Custom => SerializationStatusOption::Unverified,
            DataTypeOption::Json => {
                if json_parses(&self.data) {
                    SerializationStatusOption::Verified
                } else {
                    SerializationStatusOption::Failed
                }
            },
            DataTypeOption::SchemaValidated => {
                match schema {
                    Some(s) => {
                        if s.data_status == DataStatusOption::Finalized
                            && s.serialization_status == SerializationStatusOption::Verified {
                            SerializationStatusOption::Verified
                        } else {
                            SerializationStatusOption::Failed
                        }
                    },
                    None => SerializationStatusOption::Failed,
                }
            },
        }
    }
}

impl DataAccountState {
    /// Default constructor.
    pub fn new(
        data_status: DataStatusOption,
        serialization_status: SerializationStatusOption,
        authority: Pubkey,
        is_dynamic: bool,
        data_version: u8,
        account_data: DataAccountData,
    ) -> (r: Self)
        ensures
            r@ == (RecordModel {
                data_status,
                serialization_status,
                authority: authority@,
                is_dynamic,
                data_version,
                data_type: account_data.data_type,
                data: account_data.data@,
            }),
    {
        DataAccountState {
            data_status,
            serialization_status,
            authority,
            is_dynamic,
            data_version,
            account_data,
        }
    }

    /// Constructor given a new payload: the update path (commit_flag false)
    /// marks the record Updated and invalidates its verification; the
    /// finalize path (commit_flag true) marks it Finalized and, when
    /// verification is requested, records the verifier's verdict.
    pub fn new_with_account_data(
        copy: Self,
        account_data: DataAccountData,
        commit_flag: bool,
        verify_flag: bool,
        schema: Option<&DataAccountState>,
    ) -> (r: Self)
        ensures
            r@.authority == copy@.authority,
            r@.is_dynamic == copy@.is_dynamic,
            r@.data_version == copy@.data_version,
            r@.data_type == account_data.data_type,
            r@.data == account_data.data@,
            r@.data_status == (if commit_flag {
                DataStatusOption::Finalized
            } else {
                DataStatusOption::Updated
            }),
            r@.serialization_status == (if commit_flag {
                if verify_flag {
                    verify_model(account_data.data_type, account_data.data@, schema_model(schema))
                } else {
                    copy@.serialization_status
                }
            } else {
                SerializationStatusOption::Unverified
            }),
    {
        let verdict = if commit_flag && verify_flag {
            account_data.verify(schema)
        } else if !commit_flag {
            SerializationStatusOption::Unverified
        } else {
            copy.serialization_status
        };
        DataAccountState {
            data_status: if commit_flag {
                DataStatusOption::Finalized
            } else {
                DataStatusOption::Updated
            },
            serialization_status: verdict,
            account_data,
            ..copy
        }
    }

    /// Set the data_status.
    pub fn set_data_status(&mut self, data_status: DataStatusOption)
        ensures
            final(self)@ == (RecordModel { data_status, ..old(self)@ }),
    {
        self.data_status = data_status;
    }

    /// Get the data_status.
    pub fn data_status(&self) -> (r: &DataStatusOption)
        ensures
            *r == self@.data_status,
    {
        &self.data_status
    }

    /// Set the serialization_status.
    pub fn set_serialization_status(&mut self, serialization_status: SerializationStatusOption)
        ensures
            final(self)@ == (RecordModel { serialization_status, ..old(self)@ }),
    {
        self.serialization_status = serialization_status;
    }

    /// Get the serialization_status.
    pub fn serialization_status(&self) -> (r: &SerializationStatusOption)
        ensures
            *r == self@.serialization_status,
    {
        &self.serialization_status
    }

    /// Get the authority.
    pub fn authority(&self) -> (r: &Pubkey)
        ensures
            r@ == self@.authority,
    {
        &self.authority
    }

    /// Get the dynamic flag.
    pub fn dynamic(&self) -> (r: bool)
        ensures
            r == self@.is_dynamic,
    {
        self.is_dynamic
    }

    /// Get the current data version.
    pub fn version(&self) -> (r: u8)
        ensures
            r == self@.data_version,
    {
        self.data_version
    }

    /// Get the reference to the payload.
    pub fn data(&self) -> (r: &DataAccountData)
        ensures
            r.data_type == self@.data_type,
            r.data@ == self@.data,
    {
        &self.account_data
    }

    /// Get the mutable reference to the payload.
    pub fn data_mut(&mut self) -> (r: &mut DataAccountData)
        ensures
            *r == old(self).account_data,
            final(self).account_data == *final(r),
            final(self).data_status == old(self).data_status,
            final(self).serialization_status == old(self).serialization_status,
            final(self).authority@ == old(self).authority@,
            final(self).is_dynamic == old(self).is_dynamic,
            final(self).data_version == old(self).data_version,
    {
        &mut self.account_data
    }
}

/// Arguments of the Initialize instruction.
#[derive(Debug)]
pub struct InitializeDataAccountArgs {
    pub authority: Pubkey,
    pub space: u64,
    pub is_dynamic: bool,
}

/// Arguments of the Update instruction, which replaces the declared type and
/// overwrites part of the payload in one step.
#[derive(Debug)]
pub struct UpdateDataAccountArgs {
    pub data_type: DataTypeOption,
    pub data: Vec<u8>,
    pub offset: u64,
    pub remove_remaining: bool,
}

/// Arguments of the UpdateType instruction.
#[derive(Debug)]
pub struct UpdateDataAccountDataTypeArgs {
    pub data_type: DataTypeOption,
}

/// Arguments of the UpdateData instruction.
#[derive(Debug)]
pub struct UpdateDataAccountDataArgs {
    pub data: Vec<u8>,
    pub offset: u64,
    pub remove_remaining: bool,
}

/// Arguments of the Finalize instruction.
#[derive(Debug)]
pub struct FinalizeAccountArgs {
    pub verify_flag: bool,
}

/// Arguments of the Close instruction.
#[derive(Debug)]
pub struct CloseDataAccountArgs {}

// ---------------------------------------------------------------------------
// Record-level transitions.  Each lifecycle handler's contract states its
// effect on the persisted record through these functions.
// ---------------------------------------------------------------------------

/// A sequence of `n` zero bytes.
pub open spec fn zero_seq(n: nat) -> Seq<u8> {
    Seq::new(n, |i: int| 0u8)
}

/// The record that Initialize persists: Initialized, Unverified, a Custom
/// payload of `space` zero bytes, the canonical layout version.
pub open spec fn initialized_record(authority: Seq<u8>, space: nat, is_dynamic: bool) -> RecordModel {
    RecordModel {
        data_status: DataStatusOption::Initialized,
        serialization_status: SerializationStatusOption::Unverified,
        authority,
        is_dynamic,
        data_version: DATA_VERSION,
        data_type: DataTypeOption::Custom,
        data: zero_seq(space),
    }
}

/// The payload length after a content update: a static record keeps its
/// length; a dynamic one truncates to the end of the write span when asked,
/// and otherwise never shrinks.
pub open spec fn new_len_spec(is_dynamic: bool, old_len: nat, end_len: nat, remove_remaining: bool) -> nat {
    if !is_dynamic {
        old_len
    } else if remove_remaining {
        end_len
    } else if old_len > end_len {
        old_len
    } else {
        end_len
    }
}

/// The payload after writing `patch` at `offset` into `old`, resized to
/// `new_len`: bytes in the write span come from the patch, bytes outside it
/// keep their prior values, and any newly introduced region is zero-filled.
pub open spec fn spliced(old: Seq<u8>, patch: Seq<u8>, offset: nat, new_len: nat) -> Seq<u8> {
    Seq::new(
        new_len,
        |i: int| if offset <= i < offset + patch.len() {
            patch[i - offset]
        } else if i < old.len() {
            old[i]
        } else {
            0u8
        },
    )
}

/// Whether a content update of the given span is accepted on this record:
/// the record must be initialized and not finalized, a static record must
/// already hold the whole write span, and the new length must still fit the
/// 4-byte length field.
pub open spec fn content_update_allowed(r: RecordModel, patch_len: nat, offset: nat, remove_remaining: bool) -> bool {
    &&& r.data_status != DataStatusOption::Uninitialized
    &&& r.data_status != DataStatusOption::Finalized
    &&& (r.is_dynamic || offset + patch_len <= r.data.len())
    &&& new_len_spec(r.is_dynamic, r.data.len(), offset + patch_len, remove_remaining) <= u32::MAX
}

/// The record after a content update (Update and UpdateData): the payload is
/// spliced, the declared type becomes `data_type`, the status becomes
/// Updated, and any earlier verification is invalidated.
pub open spec fn content_updated(
    r: RecordModel,
    data_type: DataTypeOption,
    patch: Seq<u8>,
    offset: nat,
    remove_remaining: bool,
) -> RecordModel {
    RecordModel {
        data_status: DataStatusOption::Updated,
        serialization_status: SerializationStatusOption::Unverified,
        data_type,
        data: spliced(
            r.data,
            patch,
            offset,
            new_len_spec(r.is_dynamic, r.data.len(), offset + patch.len(), remove_remaining),
        ),
        ..r
    }
}

/// The record after UpdateType: only the declared type changes, the status
/// becomes Updated, and any earlier verification is invalidated.
pub open spec fn type_updated(r: RecordModel, data_type: DataTypeOption) -> RecordModel {
    RecordModel {
        data_status: DataStatusOption::Updated,
        serialization_status: SerializationStatusOption::Unverified,
        data_type,
        ..r
    }
}

/// The record after Finalize: the status becomes Finalized and, when
/// verification was requested, the serialization status becomes the
/// verifier's verdict; otherwise it remains whatever it last was.
pub open spec fn finalized_record(r: RecordModel, verify_flag: bool, schema: Option<RecordModel>) -> RecordModel {
    RecordModel {
        data_status: DataStatusOption::Finalized,
        serialization_status: if verify_flag {
            verify_model(r.data_type, r.data, schema)
        } else {
            r.serialization_status
        },
        ..r
    }
}

/// One record-level operation: what a content-mutating instruction asks of
/// the persisted record, abstracted from its account-level checks.
pub ghost enum RecordOp {
    Update { data_type: DataTypeOption, data: Seq<u8>, offset: nat, remove_remaining: bool },
    UpdateType { data_type: DataTypeOption },
    UpdateData { data: Seq<u8>, offset: nat, remove_remaining: bool },
    Finalize { verify_flag: bool, schema: Option<RecordModel> },
}

/// Whether the record accepts the operation; a refused operation leaves the
/// record unchanged.
pub open spec fn op_allowed(r: RecordModel, op: RecordOp) -> bool {
    match op {
        RecordOp::Update { data_type, data, offset, remove_remaining } =>
            content_update_allowed(r, data.len(), offset, remove_remaining),
        RecordOp::UpdateData { data, offset, remove_remaining } =>
            content_update_allowed(r, data.len(), offset, remove_remaining),
        RecordOp::UpdateType { data_type } =>
            r.data_status != DataStatusOption::Uninitialized
                && r.data_status != DataStatusOption::Finalized,
        RecordOp::Finalize { verify_flag, schema } =>
            r.data_status != DataStatusOption::Uninitialized,
    }
}

/// The record after one operation: the matching transition when the record
/// accepts it, the record itself when it refuses.
pub open spec fn apply_op(r: RecordModel, op: RecordOp) -> RecordModel {
    if !op_allowed(r, op) {
        r
    } else {
        match op {
            RecordOp::Update { data_type, data, offset, remove_remaining } =>
                content_updated(r, data_type, data, offset, remove_remaining),
            RecordOp::UpdateData { data, offset, remove_remaining } =>
                content_updated(r, r.data_type, data, offset, remove_remaining),
            RecordOp::UpdateType { data_type } => type_updated(r, data_type),
            RecordOp::Finalize { verify_flag, schema } => finalized_record(r, verify_flag, schema),
        }
    }
}

} // verus!
