//! Wire-format tests: the canonical record and instruction layouts round
//! trip, decoding fails closed, and the router dispatches decoded opcodes.

use data_program::account::Account;
use data_program::error::DataAccountError;
use data_program::instruction::DataAccountInstruction;
use data_program::processor::Processor;
use data_program::state::{
    CloseDataAccountArgs, DataAccountData, DataAccountState, DataStatusOption, DataTypeOption,
    FinalizeAccountArgs, InitializeDataAccountArgs, Pubkey, SerializationStatusOption,
    UpdateDataAccountArgs, UpdateDataAccountDataArgs, UpdateDataAccountDataTypeArgs, DATA_VERSION,
    METADATA_SIZE,
};

fn key(b: u8) -> Pubkey {
    Pubkey { bytes: vec![b; 32] }
}

fn signer(b: u8, lamports: u64) -> Account {
    Account { key: key(b), lamports, data: Vec::new(), is_signer: true, is_writable: true }
}

fn system_program() -> Account {
    Account { key: key(0), lamports: 1, data: Vec::new(), is_signer: false, is_writable: false }
}

fn sample_record() -> DataAccountState {
    DataAccountState::new(
        DataStatusOption::Updated,
        SerializationStatusOption::Verified,
        key(11),
        true,
        DATA_VERSION,
        DataAccountData { data_type: DataTypeOption::Json, data: vec![1, 2, 3, 4, 5] },
    )
}

#[test]
fn record_round_trips() {
    let state = sample_record();
    let bytes = state.encode();
    assert_eq!(bytes.len(), METADATA_SIZE + 5);
    let back = DataAccountState::decode(&bytes).unwrap();
    assert_eq!(*back.data_status(), DataStatusOption::Updated);
    assert_eq!(*back.serialization_status(), SerializationStatusOption::Verified);
    assert_eq!(back.authority().bytes, vec![11u8; 32]);
    assert!(back.dynamic());
    assert_eq!(back.version(), DATA_VERSION);
    assert_eq!(back.data().data_type, DataTypeOption::Json);
    assert_eq!(back.data().data, vec![1, 2, 3, 4, 5]);
}

#[test]
fn empty_payload_record_round_trips() {
    let state = DataAccountState::new(
        DataStatusOption::Initialized,
        SerializationStatusOption::Unverified,
        key(1),
        false,
        DATA_VERSION,
        DataAccountData { data_type: DataTypeOption::Custom, data: Vec::new() },
    );
    let bytes = state.encode();
    assert_eq!(bytes.len(), METADATA_SIZE);
    let back = DataAccountState::decode(&bytes).unwrap();
    assert_eq!(back.data().data.len(), 0);
    assert!(!back.dynamic());
}

#[test]
fn record_decode_rejects_foreign_version() {
    let state = sample_record();
    let mut bytes = state.encode();
    bytes[35] = DATA_VERSION.wrapping_add(1);
    assert_eq!(DataAccountState::decode(&bytes).unwrap_err(), DataAccountError::MalformedRecord);
}

#[test]
fn record_decode_rejects_bad_tags_and_lengths() {
    let state = sample_record();
    let good = state.encode();

    let mut bad_status = good.clone();
    bad_status[0] = 9;
    assert_eq!(DataAccountState::decode(&bad_status).unwrap_err(), DataAccountError::MalformedRecord);

    let mut bad_ser = good.clone();
    bad_ser[1] = 7;
    assert_eq!(DataAccountState::decode(&bad_ser).unwrap_err(), DataAccountError::MalformedRecord);

    let mut bad_bool = good.clone();
    bad_bool[34] = 2;
    assert_eq!(DataAccountState::decode(&bad_bool).unwrap_err(), DataAccountError::MalformedRecord);

    let mut bad_type = good.clone();
    bad_type[36] = 3;
    assert_eq!(DataAccountState::decode(&bad_type).unwrap_err(), DataAccountError::MalformedRecord);

    let mut truncated = good.clone();
    truncated.pop();
    assert_eq!(DataAccountState::decode(&truncated).unwrap_err(), DataAccountError::MalformedRecord);

    let mut oversized = good.clone();
    oversized.push(0);
    assert_eq!(DataAccountState::decode(&oversized).unwrap_err(), DataAccountError::MalformedRecord);

    assert_eq!(
        DataAccountState::decode(&vec![0u8; 10]).unwrap_err(),
        DataAccountError::MalformedRecord
    );
}

fn round_trip(instr: DataAccountInstruction) -> DataAccountInstruction {
    let bytes = instr.encode();
    DataAccountInstruction::decode(&bytes).unwrap()
}

#[test]
fn initialize_instruction_round_trips() {
    let instr = DataAccountInstruction::InitializeDataAccount(InitializeDataAccountArgs {
        authority: key(3),
        space: 77,
        is_dynamic: true,
    });
    match round_trip(instr) {
        DataAccountInstruction::InitializeDataAccount(a) => {
            assert_eq!(a.authority.bytes, vec![3u8; 32]);
            assert_eq!(a.space, 77);
            assert!(a.is_dynamic);
        },
        _ => panic!("wrong variant"),
    }
}

#[test]
fn update_instruction_round_trips() {
    let instr = DataAccountInstruction::UpdateDataAccount(UpdateDataAccountArgs {
        data_type: DataTypeOption::Json,
        data: vec![9, 8, 7],
        offset: 65_536,
        remove_remaining: true,
    });
    match round_trip(instr) {
        DataAccountInstruction::UpdateDataAccount(a) => {
            assert_eq!(a.data_type, DataTypeOption::Json);
            assert_eq!(a.data, vec![9, 8, 7]);
            assert_eq!(a.offset, 65_536);
            assert!(a.remove_remaining);
        },
        _ => panic!("wrong variant"),
    }
}

#[test]
fn update_type_instruction_round_trips() {
    let instr = DataAccountInstruction::UpdateDataAccountDataType(UpdateDataAccountDataTypeArgs {
        data_type: DataTypeOption::SchemaValidated,
    });
    match round_trip(instr) {
        DataAccountInstruction::UpdateDataAccountDataType(a) => {
            assert_eq!(a.data_type, DataTypeOption::SchemaValidated);
        },
        _ => panic!("wrong variant"),
    }
}

#[test]
fn update_data_instruction_round_trips() {
    let instr = DataAccountInstruction::UpdateDataAccountData(UpdateDataAccountDataArgs {
        data: Vec::new(),
        offset: u64::MAX,
        remove_remaining: false,
    });
    match round_trip(instr) {
        DataAccountInstruction::UpdateDataAccountData(a) => {
            assert_eq!(a.data, Vec::<u8>::new());
            assert_eq!(a.offset, u64::MAX);
            assert!(!a.remove_remaining);
        },
        _ => panic!("wrong variant"),
    }
}

#[test]
fn finalize_and_close_instructions_round_trip() {
    let fin = DataAccountInstruction::FinalizeAccount(FinalizeAccountArgs { verify_flag: true });
    match round_trip(fin) {
        DataAccountInstruction::FinalizeAccount(a) => assert!(a.verify_flag),
        _ => panic!("wrong variant"),
    }
    let close = DataAccountInstruction::CloseDataAccount(CloseDataAccountArgs {});
    match round_trip(close) {
        DataAccountInstruction::CloseDataAccount(_) => {},
        _ => panic!("wrong variant"),
    }
}

#[test]
fn instruction_decode_fails_closed() {
    assert_eq!(
        DataAccountInstruction::decode(&Vec::new()).unwrap_err(),
        DataAccountError::MalformedInstruction
    );
    assert_eq!(
        DataAccountInstruction::decode(&vec![6]).unwrap_err(),
        DataAccountError::MalformedInstruction
    );
    // An Update whose length field overruns the buffer.
    assert_eq!(
        DataAccountInstruction::decode(&vec![1, 0, 200, 0, 0, 0, 1, 2]).unwrap_err(),
        DataAccountError::MalformedInstruction
    );
    // A Close with trailing bytes.
    assert_eq!(
        DataAccountInstruction::decode(&vec![5, 0]).unwrap_err(),
        DataAccountError::MalformedInstruction
    );
}

#[test]
fn router_runs_a_full_session() {
    let mut auth = signer(7, 100_000);
    let mut data_account = signer(9, 0);
    let sys = system_program();

    let init = DataAccountInstruction::InitializeDataAccount(InitializeDataAccountArgs {
        authority: key(7),
        space: 4,
        is_dynamic: true,
    });
    let init_bytes = init.encode();
    let space = Processor::required_space(&data_account, &init_bytes).unwrap();
    assert_eq!(space, Some(METADATA_SIZE + 4));
    assert_eq!(
        Processor::process_instruction(
            &mut auth,
            &mut data_account,
            Some(&sys),
            None,
            &init_bytes,
            1_000,
        ),
        Ok(())
    );
    assert_eq!(data_account.lamports, 1_000);

    let upd = DataAccountInstruction::UpdateDataAccount(UpdateDataAccountArgs {
        data_type: DataTypeOption::Json,
        data: b"[0]".to_vec(),
        offset: 0,
        remove_remaining: true,
    });
    let upd_bytes = upd.encode();
    // Shrinking from four payload bytes to three: the ledger asks less.
    assert_eq!(
        Processor::required_space(&data_account, &upd_bytes).unwrap(),
        Some(METADATA_SIZE + 3)
    );
    assert_eq!(
        Processor::process_instruction(
            &mut auth,
            &mut data_account,
            Some(&sys),
            None,
            &upd_bytes,
            900,
        ),
        Ok(())
    );
    assert_eq!(data_account.lamports, 900);

    let fin = DataAccountInstruction::FinalizeAccount(FinalizeAccountArgs { verify_flag: true });
    assert_eq!(
        Processor::process_instruction(
            &mut auth,
            &mut data_account,
            None,
            None,
            &fin.encode(),
            0,
        ),
        Ok(())
    );
    let state = DataAccountState::decode(&data_account.data).unwrap();
    assert_eq!(*state.data_status(), DataStatusOption::Finalized);
    assert_eq!(*state.serialization_status(), SerializationStatusOption::Verified);

    let close = DataAccountInstruction::CloseDataAccount(CloseDataAccountArgs {});
    assert_eq!(
        Processor::process_instruction(
            &mut auth,
            &mut data_account,
            None,
            None,
            &close.encode(),
            0,
        ),
        Ok(())
    );
    assert_eq!(data_account.lamports, 0);
    assert_eq!(auth.lamports, 100_000);
}

#[test]
fn router_rejects_garbage_and_missing_service() {
    let mut auth = signer(7, 100_000);
    let mut data_account = signer(9, 0);
    assert_eq!(
        Processor::process_instruction(
            &mut auth,
            &mut data_account,
            None,
            None,
            &vec![99, 1, 2],
            0,
        ),
        Err(DataAccountError::MalformedInstruction)
    );

    let init = DataAccountInstruction::InitializeDataAccount(InitializeDataAccountArgs {
        authority: key(7),
        space: 4,
        is_dynamic: true,
    });
    assert_eq!(
        Processor::process_instruction(
            &mut auth,
            &mut data_account,
            None,
            None,
            &init.encode(),
            1_000,
        ),
        Err(DataAccountError::InvalidExternalProgramReference)
    );
}

#[test]
fn required_space_reports_no_resize_as_none() {
    let mut auth = signer(7, 100_000);
    let mut data_account = signer(9, 0);
    let sys = system_program();
    let init = DataAccountInstruction::InitializeDataAccount(InitializeDataAccountArgs {
        authority: key(7),
        space: 8,
        is_dynamic: true,
    });
    assert_eq!(
        Processor::process_instruction(
            &mut auth,
            &mut data_account,
            Some(&sys),
            None,
            &init.encode(),
            1_000,
        ),
        Ok(())
    );
    let upd = DataAccountInstruction::UpdateDataAccountData(UpdateDataAccountDataArgs {
        data: vec![1, 2],
        offset: 0,
        remove_remaining: false,
    });
    assert_eq!(Processor::required_space(&data_account, &upd.encode()).unwrap(), None);
}

#[test]
fn data_mut_and_setters_are_usable() {
    let mut state = sample_record();
    state.set_data_status(DataStatusOption::Finalized);
    state.set_serialization_status(SerializationStatusOption::Failed);
    state.data_mut().data.push(6);
    assert_eq!(*state.data_status(), DataStatusOption::Finalized);
    assert_eq!(*state.serialization_status(), SerializationStatusOption::Failed);
    assert_eq!(state.data().data, vec![1, 2, 3, 4, 5, 6]);
}

#[test]
fn new_with_account_data_follows_the_lifecycle() {
    let base = sample_record();
    let patched = DataAccountState::new_with_account_data(
        base,
        DataAccountData { data_type: DataTypeOption::Custom, data: vec![9] },
        false,
        false,
        None,
    );
    assert_eq!(*patched.data_status(), DataStatusOption::Updated);
    assert_eq!(*patched.serialization_status(), SerializationStatusOption::Unverified);
    assert_eq!(patched.data().data, vec![9]);

    let committed = DataAccountState::new_with_account_data(
        patched,
        DataAccountData { data_type: DataTypeOption::Json, data: b"{}".to_vec() },
        true,
        true,
        None,
    );
    assert_eq!(*committed.data_status(), DataStatusOption::Finalized);
    assert_eq!(*committed.serialization_status(), SerializationStatusOption::Verified);
}
