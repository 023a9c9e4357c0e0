//! Content-verifier tests: Json payloads go through a real parse, schema
//! validation trusts only a finalized, verified schema record.

use data_program::account::Account;
use data_program::processor::Processor;
use data_program::state::{
    DataAccountData, DataAccountState, DataStatusOption, DataTypeOption, FinalizeAccountArgs,
    InitializeDataAccountArgs, Pubkey, SerializationStatusOption, UpdateDataAccountArgs,
    DATA_VERSION,
};

fn key(b: u8) -> Pubkey {
    Pubkey { bytes: vec![b; 32] }
}

fn signer(b: u8, lamports: u64) -> Account {
    Account { key: key(b), lamports, data: Vec::new(), is_signer: true, is_writable: true }
}

fn system_program() -> Account {
    Account { key: key(0), lamports: 1, data: Vec::new(), is_signer: false, is_writable: false }
}

/// A data account holding the given payload under the given declared type.
fn account_with_payload(auth: &mut Account, data_type: DataTypeOption, payload: &[u8]) -> Account {
    let mut data_account = signer(9, 0);
    let sys = system_program();
    let args = InitializeDataAccountArgs {
        authority: Pubkey { bytes: auth.key.bytes.clone() },
        space: payload.len() as u64,
        is_dynamic: true,
    };
    assert_eq!(
        Processor::process_initialize(auth, &mut data_account, &sys, &args, 1_000),
        Ok(())
    );
    let upd = UpdateDataAccountArgs {
        data_type,
        data: payload.to_vec(),
        offset: 0,
        remove_remaining: true,
    };
    assert_eq!(Processor::process_update(auth, &mut data_account, &sys, &upd, 1_000), Ok(()));
    data_account
}

fn finalize_status(
    auth: &mut Account,
    data_account: &mut Account,
    schema: Option<&Account>,
) -> SerializationStatusOption {
    let args = FinalizeAccountArgs { verify_flag: true };
    assert_eq!(Processor::process_finalize(auth, data_account, schema, &args), Ok(()));
    let state = DataAccountState::decode(&data_account.data).unwrap();
    *state.serialization_status()
}

#[test]
fn finalize_rejects_broken_json() {
    let mut auth = signer(7, 100_000);
    let mut data_account = account_with_payload(&mut auth, DataTypeOption::Json, b"{not json");
    let status = finalize_status(&mut auth, &mut data_account, None);
    assert_eq!(status, SerializationStatusOption::Failed);
    let state = DataAccountState::decode(&data_account.data).unwrap();
    assert_eq!(*state.data_status(), DataStatusOption::Finalized);
}

#[test]
fn finalize_accepts_valid_json() {
    let mut auth = signer(7, 100_000);
    let mut data_account =
        account_with_payload(&mut auth, DataTypeOption::Json, b"{\"answer\": 42}");
    let status = finalize_status(&mut auth, &mut data_account, None);
    assert_eq!(status, SerializationStatusOption::Verified);
}

#[test]
fn finalize_custom_payload_stays_unverified() {
    let mut auth = signer(7, 100_000);
    let mut data_account = account_with_payload(&mut auth, DataTypeOption::Custom, b"anything");
    let status = finalize_status(&mut auth, &mut data_account, None);
    assert_eq!(status, SerializationStatusOption::Unverified);
}

#[test]
fn finalize_empty_payload_stays_unverified() {
    let mut auth = signer(7, 100_000);
    let mut data_account = account_with_payload(&mut auth, DataTypeOption::Json, b"");
    let status = finalize_status(&mut auth, &mut data_account, None);
    assert_eq!(status, SerializationStatusOption::Unverified);
}

#[test]
fn finalize_schema_validated_without_schema_fails() {
    let mut auth = signer(7, 100_000);
    let mut data_account =
        account_with_payload(&mut auth, DataTypeOption::SchemaValidated, b"\x01\x02");
    let status = finalize_status(&mut auth, &mut data_account, None);
    assert_eq!(status, SerializationStatusOption::Failed);
}

/// An account holding a schema record in the given trust state.
fn schema_account(status: DataStatusOption, ser: SerializationStatusOption) -> Account {
    let state = DataAccountState::new(
        status,
        ser,
        key(5),
        false,
        DATA_VERSION,
        DataAccountData { data_type: DataTypeOption::Json, data: vec![b'{', b'}'] },
    );
    Account {
        key: key(6),
        lamports: 1_000,
        data: state.encode(),
        is_signer: false,
        is_writable: false,
    }
}

#[test]
fn finalize_schema_validated_with_trusted_schema_verifies() {
    let mut auth = signer(7, 100_000);
    let mut data_account =
        account_with_payload(&mut auth, DataTypeOption::SchemaValidated, b"\x01\x02");
    let schema = schema_account(DataStatusOption::Finalized, SerializationStatusOption::Verified);
    let status = finalize_status(&mut auth, &mut data_account, Some(&schema));
    assert_eq!(status, SerializationStatusOption::Verified);
}

#[test]
fn finalize_schema_validated_with_untrusted_schema_fails() {
    let mut auth = signer(7, 100_000);
    let mut data_account =
        account_with_payload(&mut auth, DataTypeOption::SchemaValidated, b"\x01\x02");
    let schema = schema_account(DataStatusOption::Updated, SerializationStatusOption::Verified);
    let status = finalize_status(&mut auth, &mut data_account, Some(&schema));
    assert_eq!(status, SerializationStatusOption::Failed);

    let mut data_account2 =
        account_with_payload(&mut auth, DataTypeOption::SchemaValidated, b"\x01\x02");
    let schema2 = schema_account(DataStatusOption::Finalized, SerializationStatusOption::Failed);
    let status2 = finalize_status(&mut auth, &mut data_account2, Some(&schema2));
    assert_eq!(status2, SerializationStatusOption::Failed);
}

#[test]
fn finalize_schema_validated_with_garbage_schema_fails() {
    let mut auth = signer(7, 100_000);
    let mut data_account =
        account_with_payload(&mut auth, DataTypeOption::SchemaValidated, b"\x01\x02");
    let schema = Account {
        key: key(6),
        lamports: 1,
        data: vec![200; 10],
        is_signer: false,
        is_writable: false,
    };
    let status = finalize_status(&mut auth, &mut data_account, Some(&schema));
    assert_eq!(status, SerializationStatusOption::Failed);
}

#[test]
fn finalize_without_verification_keeps_last_verdict() {
    let mut auth = signer(7, 100_000);
    let mut data_account = account_with_payload(&mut auth, DataTypeOption::Json, b"[1, 2]");
    assert_eq!(
        finalize_status(&mut auth, &mut data_account, None),
        SerializationStatusOption::Verified
    );
    // Finalizing again without requesting verification leaves the verdict.
    let args = FinalizeAccountArgs { verify_flag: false };
    assert_eq!(Processor::process_finalize(&mut auth, &mut data_account, None, &args), Ok(()));
    let state = DataAccountState::decode(&data_account.data).unwrap();
    assert_eq!(*state.serialization_status(), SerializationStatusOption::Verified);
}

#[test]
fn direct_verify_matches_declared_type() {
    let json = DataAccountData { data_type: DataTypeOption::Json, data: b"true".to_vec() };
    assert_eq!(json.verify(None), SerializationStatusOption::Verified);
    let bad = DataAccountData { data_type: DataTypeOption::Json, data: b"tru".to_vec() };
    assert_eq!(bad.verify(None), SerializationStatusOption::Failed);
    let custom = DataAccountData { data_type: DataTypeOption::Custom, data: b"x".to_vec() };
    assert_eq!(custom.verify(None), SerializationStatusOption::Unverified);
}
