//! The record-level laws: what holds of every record under every sequence
//! of operations, proved once and for all against the same transition
//! functions the handlers' contracts use.

use vstd::prelude::*;
use crate::state::{
    apply_op, op_allowed, verify_model, wf_model, DataStatusOption, DataTypeOption, RecordModel,
    RecordOp, SerializationStatusOption,
};

verus! {

/// The record after a whole sequence of operations, applied left to right.
pub open spec fn apply_ops(r: RecordModel, ops: Seq<RecordOp>) -> RecordModel
    decreases ops.len(),
{
    if ops.len() == 0 {
        r
    } else {
        apply_ops(apply_op(r, ops[0]), ops.drop_first())
    }
}

/// Law: no single record-level operation — Update, UpdateType, UpdateData
/// or Finalize, accepted or refused — changes the record's authority.
pub proof fn lemma_op_preserves_authority(r: RecordModel, op: RecordOp)
    ensures
        apply_op(r, op).authority == r.authority,
{
}

/// Law: the authority set at Initialize is invariant across any sequence of
/// Update, UpdateType, UpdateData and Finalize operations.
pub proof fn lemma_authority_invariant(r: RecordModel, ops: Seq<RecordOp>)
    ensures
        apply_ops(r, ops).authority == r.authority,
    decreases ops.len(),
{
    if ops.len() > 0 {
        lemma_op_preserves_authority(r, ops[0]);
        lemma_authority_invariant(apply_op(r, ops[0]), ops.drop_first());
    }
}

/// Law: every operation keeps a well-formed record well formed, so the
/// record can always be re-encoded after any sequence of operations.
pub proof fn lemma_op_preserves_wf(r: RecordModel, op: RecordOp)
    requires
        wf_model(r),
    ensures
        wf_model(apply_op(r, op)),
{
}

/// Law: an uninitialized record refuses every operation.
pub proof fn lemma_uninitialized_refuses_all(r: RecordModel, op: RecordOp)
    requires
        r.data_status == DataStatusOption::Uninitialized,
    ensures
        apply_op(r, op) == r,
{
}

/// Law: a finalized record is terminal for content mutation — Update,
/// UpdateData and UpdateType leave it exactly as it is.
pub proof fn lemma_finalized_refuses_mutation(r: RecordModel, op: RecordOp)
    requires
        r.data_status == DataStatusOption::Finalized,
        !(op is Finalize),
    ensures
        apply_op(r, op) == r,
{
}

/// Law: no operation ever takes an initialized record back to
/// Uninitialized — the lifecycle only advances.
pub proof fn lemma_status_never_regresses(r: RecordModel, op: RecordOp)
    requires
        r.data_status != DataStatusOption::Uninitialized,
    ensures
        apply_op(r, op).data_status != DataStatusOption::Uninitialized,
{
}

/// Law: the verification verdict is assigned only by Finalize with
/// verification requested.  Every accepted content or type change resets it
/// to Unverified, and a Finalize without verification keeps whatever it
/// last was.
pub proof fn lemma_verdict_discipline(r: RecordModel, op: RecordOp)
    requires
        op_allowed(r, op),
    ensures
        (op is Update || op is UpdateData || op is UpdateType) ==> apply_op(
            r,
            op,
        ).serialization_status == SerializationStatusOption::Unverified,
        (op matches RecordOp::Finalize { verify_flag: false, .. }) ==> apply_op(
            r,
            op,
        ).serialization_status == r.serialization_status,
{
}

/// Law: verifying any non-empty SchemaValidated payload without a schema
/// record fails — a missing trust anchor is never accepted.
pub proof fn lemma_schema_validation_needs_schema(data: Seq<u8>)
    requires
        data.len() > 0,
    ensures
        verify_model(DataTypeOption::SchemaValidated, data, None) == SerializationStatusOption::Failed,
{
}

/// Law: a schema record is trusted exactly when it is itself finalized and
/// verified; any other trust state fails the subject's verification.
pub proof fn lemma_schema_trust(data: Seq<u8>, schema: RecordModel)
    requires
        data.len() > 0,
    ensures
        verify_model(DataTypeOption::SchemaValidated, data, Some(schema)) == (
        if schema.data_status == DataStatusOption::Finalized && schema.serialization_status
            == SerializationStatusOption::Verified {
            SerializationStatusOption::Verified
        } else {
            SerializationStatusOption::Failed
        }),
{
}

} // verus!
