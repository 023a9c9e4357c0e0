//! The canonical binary layout of a record, and the little-endian integer
//! helpers it is built from.  Encoding and decoding are exact inverses on
//! well-formed records.

use vstd::prelude::*;
use vstd::arithmetic::div_mod::{
    lemma_div_denominator, lemma_fundamental_div_mod, lemma_small_mod,
};
use crate::error::DataAccountError;
use crate::state::{
    wf_model, DataAccountData, DataAccountState, DataStatusOption, DataTypeOption, Pubkey,
    RecordModel, SerializationStatusOption, DATA_VERSION, METADATA_SIZE,
};

verus! {

// ---------------------------------------------------------------------------
// Little-endian integers.
// ---------------------------------------------------------------------------

/// The four little-endian bytes of `n`.
pub open spec fn u32_le(n: nat) -> Seq<u8> {
    seq![
        (n % 256) as u8,
        ((n / 256) % 256) as u8,
        ((n / 65536) % 256) as u8,
        ((n / 16777216) % 256) as u8,
    ]
}

/// The value of four little-endian bytes.
pub open spec fn u32_le_val(b: Seq<u8>) -> nat
    recommends
        b.len() == 4,
{
    (b[0] + 256 * b[1] + 65536 * b[2] + 16777216 * b[3]) as nat
}

/// The eight little-endian bytes of `n`: its low word, then its high word.
pub open spec fn u64_le(n: nat) -> Seq<u8> {
    u32_le(n % 4294967296) + u32_le(n / 4294967296)
}

/// The value of eight little-endian bytes.
pub open spec fn u64_le_val(b: Seq<u8>) -> nat
    recommends
        b.len() == 8,
{
    u32_le_val(b.subrange(0, 4)) + 4294967296 * u32_le_val(b.subrange(4, 8))
}

/// Reading back the four little-endian bytes of a 32-bit value yields it.
pub proof fn lemma_u32_le_round_trip(n: nat)
    requires
        n <= u32::MAX,
    ensures
        u32_le(n).len() == 4,
        u32_le_val(u32_le(n)) == n,
{
    let x = n as int;
    lemma_fundamental_div_mod(x, 256);
    lemma_fundamental_div_mod(x / 256, 256);
    lemma_fundamental_div_mod(x / 65536, 256);
    lemma_div_denominator(x, 256, 256);
    lemma_div_denominator(x, 65536, 256);
    assert(x / 16777216 < 256) by {
        if x / 16777216 >= 256 {
            lemma_fundamental_div_mod(x, 16777216);
        }
    }
    lemma_small_mod((x / 16777216) as nat, 256);
}

/// Reading back the eight little-endian bytes of a 64-bit value yields it.
pub proof fn lemma_u64_le_round_trip(n: nat)
    requires
        n <= u64::MAX,
    ensures
        u64_le(n).len() == 8,
        u64_le_val(u64_le(n)) == n,
{
    let x = n as int;
    lemma_fundamental_div_mod(x, 4294967296);
    assert(x / 4294967296 <= u32::MAX) by {
        if x / 4294967296 > u32::MAX {
            lemma_fundamental_div_mod(x, 4294967296);
        }
    }
    lemma_u32_le_round_trip(n % 4294967296);
    lemma_u32_le_round_trip((n / 4294967296) as nat);
    assert(u64_le(n).subrange(0, 4) =~= u32_le(n % 4294967296));
    assert(u64_le(n).subrange(4, 8) =~= u32_le(n / 4294967296));
}

/// Appends the four little-endian bytes of `n`.
pub fn push_u32_le(out: &mut Vec<u8>, n: u32)
    ensures
        final(out)@ == old(out)@ + u32_le(n as nat),
{
    out.push((n % 256) as u8);
    out.push(((n / 256) % 256) as u8);
    out.push(((n / 65536) % 256) as u8);
    out.push(((n / 16777216) % 256) as u8);
    proof {
        assert(out@ =~= old(out)@ + u32_le(n as nat));
    }
}

/// Appends the eight little-endian bytes of `n`.
pub fn push_u64_le(out: &mut Vec<u8>, n: u64)
    ensures
        final(out)@ == old(out)@ + u64_le(n as nat),
{
    push_u32_le(out, (n % 4294967296) as u32);
    push_u32_le(out, (n / 4294967296) as u32);
    proof {
        assert(out@ =~= old(out)@ + u64_le(n as nat));
    }
}

/// Reads four little-endian bytes starting at `pos`.
pub fn read_u32_le(b: &Vec<u8>, pos: usize) -> (r: u32)
    requires
        pos + 4 <= b@.len(),
    ensures
        r as nat == u32_le_val(b@.subrange(pos as int, pos + 4)),
{
    // Reading the length pins the buffer within the address space, which the
    // index arithmetic below needs.
    let blen = b.len();
    let b0 = b[pos] as u32;
    let b1 = b[pos + 1] as u32;
    let b2 = b[pos + 2] as u32;
    let b3 = b[pos + 3] as u32;
    b0 + 256 * b1 + 65536 * b2 + 16777216 * b3
}

/// Reads eight little-endian bytes starting at `pos`.
pub fn read_u64_le(b: &Vec<u8>, pos: usize) -> (r: u64)
    requires
        pos + 8 <= b@.len(),
    ensures
        r as nat == u64_le_val(b@.subrange(pos as int, pos + 8)),
{
    // Reading the length pins the buffer within the address space, which the
    // position arithmetic below needs.
    let blen = b.len();
    let lo = read_u32_le(b, pos);
    let hi = read_u32_le(b, pos + 4);
    proof {
        assert(b@.subrange(pos as int, pos + 8).subrange(0, 4) =~= b@.subrange(
            pos as int,
            pos + 4,
        ));
        assert(b@.subrange(pos as int, pos + 8).subrange(4, 8) =~= b@.subrange(
            pos + 4,
            pos + 8,
        ));
    }
    lo as u64 + 4294967296 * (hi as u64)
}

// ---------------------------------------------------------------------------
// Field tags.
// ---------------------------------------------------------------------------

/// The byte that encodes a lifecycle status.
pub open spec fn status_tag(s: DataStatusOption) -> u8 {
    match s {
        DataStatusOption::Uninitialized => 0,
        DataStatusOption::Initialized => 1,
        DataStatusOption::Updated => 2,
        DataStatusOption::Finalized => 3,
    }
}

/// The lifecycle status a byte decodes to, if any.
pub open spec fn status_of_tag(t: u8) -> Option<DataStatusOption> {
    if t == 0 {
        Some(DataStatusOption::Uninitialized)
    } else if t == 1 {
        Some(DataStatusOption::Initialized)
    } else if t == 2 {
        Some(DataStatusOption::Updated)
    } else if t == 3 {
        Some(DataStatusOption::Finalized)
    } else {
        None
    }
}

/// The byte that encodes a serialization status.
pub open spec fn ser_tag(s: SerializationStatusOption) -> u8 {
    match s {
        SerializationStatusOption::Unverified => 0,
        SerializationStatusOption::Verified => 1,
        SerializationStatusOption::Failed => 2,
    }
}

/// The serialization status a byte decodes to, if any.
pub open spec fn ser_of_tag(t: u8) -> Option<SerializationStatusOption> {
    if t == 0 {
        Some(SerializationStatusOption::Unverified)
    } else if t == 1 {
        Some(SerializationStatusOption::Verified)
    } else if t == 2 {
        Some(SerializationStatusOption::Failed)
    } else {
        None
    }
}

/// The byte that encodes a declared type.
pub open spec fn type_tag(t: DataTypeOption) -> u8 {
    match t {
        DataTypeOption::Custom => 0,
        DataTypeOption::Json => 1,
        DataTypeOption::SchemaValidated => 2,
    }
}

/// The declared type a byte decodes to, if any.
pub open spec fn type_of_tag(t: u8) -> Option<DataTypeOption> {
    if t == 0 {
        Some(DataTypeOption::Custom)
    } else if t == 1 {
        Some(DataTypeOption::Json)
    } else if t == 2 {
        Some(DataTypeOption::SchemaValidated)
    } else {
        None
    }
}

/// The byte that encodes a boolean.
pub open spec fn bool_byte(b: bool) -> u8 {
    if b {
        1
    } else {
        0
    }
}

/// The boolean a byte decodes to, if any.
pub open spec fn bool_of_tag(t: u8) -> Option<bool> {
    if t == 0 {
        Some(false)
    } else if t == 1 {
        Some(true)
    } else {
        None
    }
}

fn status_tag_exec(s: &DataStatusOption) -> (t: u8)
    ensures
        t == status_tag(*s),
{
    match s {
        DataStatusOption::Uninitialized => 0,
        DataStatusOption::Initialized => 1,
        DataStatusOption::Updated => 2,
        DataStatusOption::Finalized => 3,
    }
}

fn status_of_tag_exec(t: u8) -> (r: Option<DataStatusOption>)
    ensures
        r == status_of_tag(t),
{
    if t == 0 {
        Some(DataStatusOption::Uninitialized)
    } else if t == 1 {
        Some(DataStatusOption::Initialized)
    } else if t == 2 {
        Some(DataStatusOption::Updated)
    } else if t == 3 {
        Some(DataStatusOption::Finalized)
    } else {
        None
    }
}

fn ser_tag_exec(s: &SerializationStatusOption) -> (t: u8)
    ensures
        t == ser_tag(*s),
{
    match s {
        SerializationStatusOption::Unverified => 0,
        SerializationStatusOption::Verified => 1,
        SerializationStatusOption::Failed => 2,
    }
}

fn ser_of_tag_exec(t: u8) -> (r: Option<SerializationStatusOption>)
    ensures
        r == ser_of_tag(t),
{
    if t == 0 {
        Some(SerializationStatusOption::Unverified)
    } else if t == 1 {
        Some(SerializationStatusOption::Verified)
    } else if t == 2 {
        Some(SerializationStatusOption::Failed)
    } else {
        None
    }
}

pub(crate) fn type_tag_exec(t: &DataTypeOption) -> (r: u8)
    ensures
        r == type_tag(*t),
{
    match t {
        DataTypeOption::Custom => 0,
        DataTypeOption::Json => 1,
        DataTypeOption::SchemaValidated => 2,
    }
}

pub(crate) fn type_of_tag_exec(t: u8) -> (r: Option<DataTypeOption>)
    ensures
        r == type_of_tag(t),
{
    if t == 0 {
        Some(DataTypeOption::Custom)
    } else if t == 1 {
        Some(DataTypeOption::Json)
    } else if t == 2 {
        Some(DataTypeOption::SchemaValidated)
    } else {
        None
    }
}

pub(crate) fn bool_byte_exec(b: bool) -> (r: u8)
    ensures
        r == bool_byte(b),
{
    if b {
        1
    } else {
        0
    }
}

pub(crate) fn bool_of_tag_exec(t: u8) -> (r: Option<bool>)
    ensures
        r == bool_of_tag(t),
{
    if t == 0 {
        Some(false)
    } else if t == 1 {
        Some(true)
    } else {
        None
    }
}

/// Appends `src` to `out`.
pub(crate) fn push_bytes(out: &mut Vec<u8>, src: &Vec<u8>)
    ensures
        final(out)@ == old(out)@ + src@,
{
    let mut i: usize = 0;
    while i < src.len()
        invariant
            i <= src@.len(),
            out@ == old(out)@ + src@.subrange(0, i as int),
        decreases src@.len() - i,
    {
        out.push(src[i]);
        proof {
            assert(out@ =~= old(out)@ + src@.subrange(0, i + 1));
        }
        i = i + 1;
    }
    proof {
        assert(out@ =~= old(out)@ + src@);
    }
}

/// Copies `count` bytes of `src` starting at `pos` into a fresh vector.
pub(crate) fn copy_range(src: &Vec<u8>, pos: usize, count: usize) -> (r: Vec<u8>)
    requires
        pos + count <= src@.len(),
    ensures
        r@ == src@.subrange(pos as int, pos + count),
{
    // Reading the length pins the buffer within the address space, which the
    // loop's index arithmetic needs.
    let slen = src.len();
    let mut out: Vec<u8> = Vec::new();
    let mut i: usize = 0;
    while i < count
        invariant
            i <= count,
            pos + count <= src@.len(),
            src@.len() <= usize::MAX,
            out@ == src@.subrange(pos as int, pos + i),
        decreases count - i,
    {
        out.push(src[pos + i]);
        proof {
            assert(out@ =~= src@.subrange(pos as int, pos + i + 1));
        }
        i = i + 1;
    }
    out
}

// ---------------------------------------------------------------------------
// The record layout.
// ---------------------------------------------------------------------------

/// The canonical bytes of a record: status, serialization status, the
/// 32 authority bytes, the dynamic flag, the layout version, the declared
/// type, the 4-byte little-endian payload length, then the payload.
pub open spec fn encode_record(r: RecordModel) -> Seq<u8> {
    seq![status_tag(r.data_status), ser_tag(r.serialization_status)] + r.authority + seq![
        bool_byte(r.is_dynamic),
        r.data_version,
        type_tag(r.data_type),
    ] + u32_le(r.data.len()) + r.data
}

/// The record the given bytes decode to, if any.  Decoding fails closed: a
/// buffer whose length disagrees with its length field, an unknown tag, or a
/// layout version other than the canonical one all yield nothing.
pub open spec fn decode_record(b: Seq<u8>) -> Option<RecordModel> {
    if b.len() < METADATA_SIZE {
        None
    } else {
        let len = u32_le_val(b.subrange(37, 41));
        if b.len() != METADATA_SIZE + len {
            None
        } else {
            match (status_of_tag(b[0]), ser_of_tag(b[1]), bool_of_tag(b[34]), type_of_tag(b[36])) {
                (Some(st), Some(se), Some(dy), Some(ty)) => {
                    if b[35] == DATA_VERSION {
                        Some(
                            RecordModel {
                                data_status: st,
                                serialization_status: se,
                                authority: b.subrange(2, 34),
                                is_dynamic: dy,
                                data_version: DATA_VERSION,
                                data_type: ty,
                                data: b.subrange(41, b.len() as int),
                            },
                        )
                    } else {
                        None
                    }
                },
                _ => None,
            }
        }
    }
}

impl DataAccountState {
    /// Serializes this record into its canonical bytes.
    pub fn encode(&self) -> (out: Vec<u8>)
        requires
            wf_model(self@),
        ensures
            out@ == encode_record(self@),
            out@.len() == METADATA_SIZE + self@.data.len(),
    {
        let mut out: Vec<u8> = Vec::new();
        out.push(status_tag_exec(&self.data_status));
        out.push(ser_tag_exec(&self.serialization_status));
        push_bytes(&mut out, &self.authority.bytes);
        out.push(bool_byte_exec(self.is_dynamic));
        out.push(self.data_version);
        out.push(type_tag_exec(&self.account_data.data_type));
        push_u32_le(&mut out, self.account_data.data.len() as u32);
        push_bytes(&mut out, &self.account_data.data);
        proof {
            assert(self.account_data.data.len() as u32 as nat == self@.data.len());
            assert(out@ =~= encode_record(self@));
        }
        out
    }

    /// Deserializes a record from its canonical bytes; anything else is a
    /// malformed record.
    pub fn decode(bytes: &Vec<u8>) -> (r: Result<DataAccountState, DataAccountError>)
        ensures
            r matches Ok(s) ==> decode_record(bytes@) == Some(s@) && wf_model(s@),
            r matches Err(e) ==> e == DataAccountError::MalformedRecord && decode_record(
                bytes@,
            ) is None,
    {
        if bytes.len() < METADATA_SIZE {
            return Err(DataAccountError::MalformedRecord);
        }
        let len32 = read_u32_le(bytes, 37);
        let len = len32 as usize;
        if len > usize::MAX - METADATA_SIZE || bytes.len() != METADATA_SIZE + len {
            return Err(DataAccountError::MalformedRecord);
        }
        let status = match status_of_tag_exec(bytes[0]) {
            Some(s) => s,
            None => {
                return Err(DataAccountError::MalformedRecord);
            },
        };
        let ser = match ser_of_tag_exec(bytes[1]) {
            Some(s) => s,
            None => {
                return Err(DataAccountError::MalformedRecord);
            },
        };
        let dynamic = match bool_of_tag_exec(bytes[34]) {
            Some(b) => b,
            None => {
                return Err(DataAccountError::MalformedRecord);
            },
        };
        let data_type = match type_of_tag_exec(bytes[36]) {
            Some(t) => t,
            None => {
                return Err(DataAccountError::MalformedRecord);
            },
        };
        if bytes[35] != DATA_VERSION {
            return Err(DataAccountError::MalformedRecord);
        }
        let authority = Pubkey { bytes: copy_range(bytes, 2, 32) };
        let data = copy_range(bytes, 41, len);
        let state = DataAccountState {
            data_status: status,
            serialization_status: ser,
            authority,
            is_dynamic: dynamic,
            data_version: DATA_VERSION,
            account_data: DataAccountData { data_type, data },
        };
        proof {
            let m = decode_record(bytes@).unwrap();
            assert(m =~= state@);
        }
        Ok(state)
    }
}

/// Round trip: decoding the canonical bytes of any well-formed record model
/// yields that model back, exactly.
pub proof fn lemma_record_round_trip(r: RecordModel)
    requires
        wf_model(r),
    ensures
        decode_record(encode_record(r)) == Some(r),
{
    let e = encode_record(r);
    lemma_u32_le_round_trip(r.data.len());
    assert(e.len() == METADATA_SIZE + r.data.len());
    assert(e.subrange(37, 41) =~= u32_le(r.data.len()));
    assert(e.subrange(2, 34) =~= r.authority);
    assert(e.subrange(41, e.len() as int) =~= r.data);
    assert(status_of_tag(status_tag(r.data_status)) == Some(r.data_status));
    assert(ser_of_tag(ser_tag(r.serialization_status)) == Some(r.serialization_status));
    assert(bool_of_tag(bool_byte(r.is_dynamic)) == Some(r.is_dynamic));
    assert(type_of_tag(type_tag(r.data_type)) == Some(r.data_type));
    assert(decode_record(e).unwrap() =~= r);
}

} // verus!
