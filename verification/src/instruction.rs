//! The instructions the program accepts, their mathematical model, and their
//! canonical wire encoding.

use vstd::prelude::*;
use crate::codec::{
    bool_byte, bool_byte_exec, bool_of_tag, bool_of_tag_exec, copy_range, push_bytes, push_u32_le,
    push_u64_le, read_u32_le, read_u64_le, type_of_tag, type_of_tag_exec, type_tag, type_tag_exec,
    u32_le, u32_le_val, u64_le, u64_le_val, lemma_u32_le_round_trip, lemma_u64_le_round_trip,
};
use crate::error::DataAccountError;
use crate::state::{
    CloseDataAccountArgs, DataTypeOption, FinalizeAccountArgs, InitializeDataAccountArgs, Pubkey,
    UpdateDataAccountArgs, UpdateDataAccountDataArgs, UpdateDataAccountDataTypeArgs,
};

verus! {

/// Instructions supported by the data program.
#[derive(Debug)]
pub enum DataAccountInstruction {
    /// Initializes a data account owned by the given authority.
    InitializeDataAccount(InitializeDataAccountArgs),
    /// Replaces the declared type and overwrites part of the payload.
    UpdateDataAccount(UpdateDataAccountArgs),
    /// Replaces only the declared type.
    UpdateDataAccountDataType(UpdateDataAccountDataTypeArgs),
    /// Overwrites part of the payload without touching the declared type.
    UpdateDataAccountData(UpdateDataAccountDataArgs),
    /// Finalizes the record, optionally verifying its content.
    FinalizeAccount(FinalizeAccountArgs),
    /// Returns the account's balance to the authority and zero-fills it.
    CloseDataAccount(CloseDataAccountArgs),
}

/// The mathematical model of one decoded instruction.
pub ghost enum InstructionModel {
    Initialize { authority: Seq<u8>, space: u64, is_dynamic: bool },
    Update { data_type: DataTypeOption, data: Seq<u8>, offset: u64, remove_remaining: bool },
    UpdateType { data_type: DataTypeOption },
    UpdateData { data: Seq<u8>, offset: u64, remove_remaining: bool },
    Finalize { verify_flag: bool },
    Close,
}

impl View for DataAccountInstruction {
    type V = InstructionModel;

    open spec fn view(&self) -> InstructionModel {
        match self {
            DataAccountInstruction::InitializeDataAccount(a) => InstructionModel::Initialize {
                authority: a.authority@,
                space: a.space,
                is_dynamic: a.is_dynamic,
            },
            DataAccountInstruction::UpdateDataAccount(a) => InstructionModel::Update {
                data_type: a.data_type,
                data: a.data@,
                offset: a.offset,
                remove_remaining: a.remove_remaining,
            },
            DataAccountInstruction::UpdateDataAccountDataType(a) => InstructionModel::UpdateType {
                data_type: a.data_type,
            },
            DataAccountInstruction::UpdateDataAccountData(a) => InstructionModel::UpdateData {
                data: a.data@,
                offset: a.offset,
                remove_remaining: a.remove_remaining,
            },
            DataAccountInstruction::FinalizeAccount(a) => InstructionModel::Finalize {
                verify_flag: a.verify_flag,
            },
            DataAccountInstruction::CloseDataAccount(_) => InstructionModel::Close,
        }
    }
}

/// An instruction model is well formed when its authority is a 32-byte key
/// and its payload length fits the 4-byte length field.
pub open spec fn wf_instruction(i: InstructionModel) -> bool {
    match i {
        InstructionModel::Initialize { authority, .. } => authority.len() == 32,
        InstructionModel::Update { data, .. } => data.len() <= u32::MAX,
        InstructionModel::UpdateData { data, .. } => data.len() <= u32::MAX,
        _ => true,
    }
}

/// The canonical bytes of an instruction: a one-byte opcode tag followed by
/// its typed fields.
pub open spec fn encode_instruction(i: InstructionModel) -> Seq<u8> {
    match i {
        InstructionModel::Initialize { authority, space, is_dynamic } => seq![0u8] + authority
            + u64_le(space as nat) + seq![bool_byte(is_dynamic)],
        InstructionModel::Update { data_type, data, offset, remove_remaining } => seq![
            1u8,
            type_tag(data_type),
        ] + u32_le(data.len()) + data + u64_le(offset as nat) + seq![bool_byte(remove_remaining)],
        InstructionModel::UpdateType { data_type } => seq![2u8, type_tag(data_type)],
        InstructionModel::UpdateData { data, offset, remove_remaining } => seq![3u8] + u32_le(
            data.len(),
        ) + data + u64_le(offset as nat) + seq![bool_byte(remove_remaining)],
        InstructionModel::Finalize { verify_flag } => seq![4u8, bool_byte(verify_flag)],
        InstructionModel::Close => seq![5u8],
    }
}

/// The instruction the given bytes decode to, if any.  Decoding fails
/// closed: an unknown opcode, an unknown tag, or a length that disagrees
/// with the buffer all yield nothing.
pub open spec fn decode_instruction(b: Seq<u8>) -> Option<InstructionModel> {
    if b.len() < 1 {
        None
    } else if b[0] == 0 {
        if b.len() != 42 {
            None
        } else {
            match bool_of_tag(b[41]) {
                Some(dy) => Some(
                    InstructionModel::Initialize {
                        authority: b.subrange(1, 33),
                        space: u64_le_val(b.subrange(33, 41)) as u64,
                        is_dynamic: dy,
                    },
                ),
                None => None,
            }
        }
    } else if b[0] == 1 {
        if b.len() < 6 {
            None
        } else {
            let len = u32_le_val(b.subrange(2, 6)) as int;
            if b.len() != 15 + len {
                None
            } else {
                match (type_of_tag(b[1]), bool_of_tag(b[b.len() - 1])) {
                    (Some(ty), Some(rm)) => Some(
                        InstructionModel::Update {
                            data_type: ty,
                            data: b.subrange(6, 6 + len),
                            offset: u64_le_val(b.subrange(6 + len, 14 + len)) as u64,
                            remove_remaining: rm,
                        },
                    ),
                    _ => None,
                }
            }
        }
    } else if b[0] == 2 {
        if b.len() != 2 {
            None
        } else {
            match type_of_tag(b[1]) {
                Some(ty) => Some(InstructionModel::UpdateType { data_type: ty }),
                None => None,
            }
        }
    } else if b[0] == 3 {
        if b.len() < 5 {
            None
        } else {
            let len = u32_le_val(b.subrange(1, 5)) as int;
            if b.len() != 14 + len {
                None
            } else {
                match bool_of_tag(b[b.len() - 1]) {
                    Some(rm) => Some(
                        InstructionModel::UpdateData {
                            data: b.subrange(5, 5 + len),
                            offset: u64_le_val(b.subrange(5 + len, 13 + len)) as u64,
                            remove_remaining: rm,
                        },
                    ),
                    None => None,
                }
            }
        }
    } else if b[0] == 4 {
        if b.len() != 2 {
            None
        } else {
            match bool_of_tag(b[1]) {
                Some(v) => Some(InstructionModel::Finalize { verify_flag: v }),
                None => None,
            }
        }
    } else if b[0] == 5 {
        if b.len() != 1 {
            None
        } else {
            Some(InstructionModel::Close)
        }
    } else {
        None
    }
}

impl DataAccountInstruction {
    /// Serializes this instruction into its canonical bytes.
    pub fn encode(&self) -> (out: Vec<u8>)
        requires
            wf_instruction(self@),
        ensures
            out@ == encode_instruction(self@),
    {
        let mut out: Vec<u8> = Vec::new();
        match self {
            DataAccountInstruction::InitializeDataAccount(a) => {
                out.push(0);
                push_bytes(&mut out, &a.authority.bytes);
                push_u64_le(&mut out, a.space);
                out.push(bool_byte_exec(a.is_dynamic));
            },
            DataAccountInstruction::UpdateDataAccount(a) => {
                out.push(1);
                out.push(type_tag_exec(&a.data_type));
                push_u32_le(&mut out, a.data.len() as u32);
                push_bytes(&mut out, &a.data);
                push_u64_le(&mut out, a.offset);
                out.push(bool_byte_exec(a.remove_remaining));
            },
            DataAccountInstruction::UpdateDataAccountDataType(a) => {
                out.push(2);
                out.push(type_tag_exec(&a.data_type));
            },
            DataAccountInstruction::UpdateDataAccountData(a) => {
                out.push(3);
                push_u32_le(&mut out, a.data.len() as u32);
                push_bytes(&mut out, &a.data);
                push_u64_le(&mut out, a.offset);
                out.push(bool_byte_exec(a.remove_remaining));
            },
            DataAccountInstruction::FinalizeAccount(a) => {
                out.push(4);
                out.push(bool_byte_exec(a.verify_flag));
            },
            DataAccountInstruction::CloseDataAccount(_) => {
                out.push(5);
            },
        }
        proof {
            assert(out@ =~= encode_instruction(self@));
        }
        out
    }

    /// Deserializes an instruction from its canonical bytes; anything else
    /// is a malformed instruction.
    pub fn decode(bytes: &Vec<u8>) -> (r: Result<DataAccountInstruction, DataAccountError>)
        ensures
            r matches Ok(i) ==> decode_instruction(bytes@) == Some(i@) && wf_instruction(i@),
            r matches Err(e) ==> e == DataAccountError::MalformedInstruction && decode_instruction(
                bytes@,
            ) is None,
    {
        let blen = bytes.len();
        if blen < 1 {
            return Err(DataAccountError::MalformedInstruction);
        }
        let opcode = bytes[0];
        if opcode == 0 {
            if blen != 42 {
                return Err(DataAccountError::MalformedInstruction);
            }
            let dy = match bool_of_tag_exec(bytes[41]) {
                Some(d) => d,
                None => {
                    return Err(DataAccountError::MalformedInstruction);
                },
            };
            let authority = Pubkey { bytes: copy_range(bytes, 1, 32) };
            let space = read_u64_le(bytes, 33);
            let args = InitializeDataAccountArgs { authority, space, is_dynamic: dy };
            let instr = DataAccountInstruction::InitializeDataAccount(args);
            proof {
                assert(decode_instruction(bytes@).unwrap() =~= instr@);
            }
            Ok(instr)
        } else if opcode == 1 {
            if blen < 6 {
                return Err(DataAccountError::MalformedInstruction);
            }
            let len32 = read_u32_le(bytes, 2);
            let len = len32 as usize;
            if len > usize::MAX - 15 || blen != 15 + len {
                return Err(DataAccountError::MalformedInstruction);
            }
            let ty = match type_of_tag_exec(bytes[1]) {
                Some(t) => t,
                None => {
                    return Err(DataAccountError::MalformedInstruction);
                },
            };
            let rm = match bool_of_tag_exec(bytes[blen - 1]) {
                Some(r) => r,
                None => {
                    return Err(DataAccountError::MalformedInstruction);
                },
            };
            let data = copy_range(bytes, 6, len);
            let offset = read_u64_le(bytes, 6 + len);
            let args = UpdateDataAccountArgs { data_type: ty, data, offset, remove_remaining: rm };
            let instr = DataAccountInstruction::UpdateDataAccount(args);
            proof {
                assert(decode_instruction(bytes@).unwrap() =~= instr@);
            }
            Ok(instr)
        } else if opcode == 2 {
            if blen != 2 {
                return Err(DataAccountError::MalformedInstruction);
            }
            let ty = match type_of_tag_exec(bytes[1]) {
                Some(t) => t,
                None => {
                    return Err(DataAccountError::MalformedInstruction);
                },
            };
            Ok(
                DataAccountInstruction::UpdateDataAccountDataType(
                    UpdateDataAccountDataTypeArgs { data_type: ty },
                ),
            )
        } else if opcode == 3 {
            if blen < 5 {
                return Err(DataAccountError::MalformedInstruction);
            }
            let len32 = read_u32_le(bytes, 1);
            let len = len32 as usize;
            if len > usize::MAX - 14 || blen != 14 + len {
                return Err(DataAccountError::MalformedInstruction);
            }
            let rm = match bool_of_tag_exec(bytes[blen - 1]) {
                Some(r) => r,
                None => {
                    return Err(DataAccountError::MalformedInstruction);
                },
            };
            let data = copy_range(bytes, 5, len);
            let offset = read_u64_le(bytes, 5 + len);
            let args = UpdateDataAccountDataArgs { data, offset, remove_remaining: rm };
            let instr = DataAccountInstruction::UpdateDataAccountData(args);
            proof {
                assert(decode_instruction(bytes@).unwrap() =~= instr@);
            }
            Ok(instr)
        } else if opcode == 4 {
            if blen != 2 {
                return Err(DataAccountError::MalformedInstruction);
            }
            let v = match bool_of_tag_exec(bytes[1]) {
                Some(b) => b,
                None => {
                    return Err(DataAccountError::MalformedInstruction);
                },
            };
            Ok(DataAccountInstruction::FinalizeAccount(FinalizeAccountArgs { verify_flag: v }))
        } else if opcode == 5 {
            if blen != 1 {
                return Err(DataAccountError::MalformedInstruction);
            }
            Ok(DataAccountInstruction::CloseDataAccount(CloseDataAccountArgs {}))
        } else {
            Err(DataAccountError::MalformedInstruction)
        }
    }
}

/// Round trip: decoding the canonical bytes of any well-formed instruction
/// model yields that model back, exactly.
#[verifier::rlimit(100)]
pub proof fn lemma_instruction_round_trip(i: InstructionModel)
    requires
        wf_instruction(i),
    ensures
        decode_instruction(encode_instruction(i)) == Some(i),
{
    let e = encode_instruction(i);
    match i {
        InstructionModel::Initialize { authority, space, is_dynamic } => {
            lemma_u64_le_round_trip(space as nat);
            assert(e.len() == 42);
            assert(e[0] == 0);
            assert(e.subrange(1, 33) =~= authority);
            assert(e.subrange(33, 41) =~= u64_le(space as nat));
            assert(e[41] == bool_byte(is_dynamic));
            assert(decode_instruction(e).unwrap() =~= i);
        },
        InstructionModel::Update { data_type, data, offset, remove_remaining } => {
            lemma_u32_le_round_trip(data.len());
            lemma_u64_le_round_trip(offset as nat);
            assert(e.len() == 15 + data.len());
            assert(e[0] == 1);
            assert(e[1] == type_tag(data_type));
            assert(e.subrange(2, 6) =~= u32_le(data.len()));
            assert(e.subrange(6, 6 + data.len() as int) =~= data);
            assert(e.subrange(6 + data.len() as int, 14 + data.len() as int) =~= u64_le(
                offset as nat,
            ));
            assert(e[e.len() - 1] == bool_byte(remove_remaining));
            assert(decode_instruction(e).unwrap() =~= i);
        },
        InstructionModel::UpdateType { data_type } => {
            assert(decode_instruction(e).unwrap() =~= i);
        },
        InstructionModel::UpdateData { data, offset, remove_remaining } => {
            lemma_u32_le_round_trip(data.len());
            lemma_u64_le_round_trip(offset as nat);
            assert(e.len() == 14 + data.len());
            assert(e[0] == 3);
            assert(e.subrange(1, 5) =~= u32_le(data.len()));
            assert(e.subrange(5, 5 + data.len() as int) =~= data);
            assert(e.subrange(5 + data.len() as int, 13 + data.len() as int) =~= u64_le(
                offset as nat,
            ));
            assert(e[e.len() - 1] == bool_byte(remove_remaining));
            assert(decode_instruction(e).unwrap() =~= i);
        },
        InstructionModel::Finalize { verify_flag } => {
            assert(decode_instruction(e).unwrap() =~= i);
        },
        InstructionModel::Close => {
            assert(decode_instruction(e).unwrap() =~= i);
        },
    }
}

} // verus!
