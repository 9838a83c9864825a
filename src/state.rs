use vstd::bytes::{spec_u32_from_le_bytes, spec_u32_to_le_bytes, u32_to_le_bytes};
use vstd::prelude::*;
use vstd::slice::slice_subrange;

verus! {

/// Width in bytes of the little-endian counter at the head of an account's storage.
pub const RECORD_LEN: usize = 4;

/// Width in bytes of an encoded instruction: outer tag, operation tag, operand.
pub const INSTRUCTION_LEN: usize = 6;

/// Everything that can make a call fail.
#[derive(Debug, Clone, Copy, PartialEq, Eq, Structural)]
pub enum CalcError {
    /// The call supplied no account at all.
    MissingAccount,
    /// The target account is owned by another program.
    UnauthorizedAccount,
    /// The instruction bytes do not decode to an envelope.
    MalformedInstruction,
    /// The account storage does not hold a record.
    MalformedState,
    /// A `Divide` with a zero operand.
    DivisionByZero,
    /// The result of `Increment`, `Decrement` or `Multiply` leaves the range of `u32`.
    ArithmeticOverflow,
}

/// The instruction envelope: one variant per family of operations.
#[derive(Debug, Clone, Copy, PartialEq, Eq, Structural)]
pub enum InstructionType {
    CalcType(CalcType),
}

/// The four arithmetic operations, each with its operand.
#[derive(Debug, Clone, Copy, PartialEq, Eq, Structural)]
pub enum CalcType {
    Increment(u32),
    Decrement(u32),
    Multiply(u32),
    Divide(u32),
}

/// The persisted record: a single counter.
#[derive(Debug, Clone, Copy, PartialEq, Eq, Structural)]
pub struct AccountData {
    pub calc_val: u32,
}

/// A 32-byte identity: a program's or an account owner's.
#[derive(Debug, Clone, Copy, PartialEq, Eq)]
pub struct Address {
    pub bytes: [u8; 32],
}

impl Address {
    /// Whether two identities are the same.
    pub fn same_as(&self, other: &Address) -> (r: bool)
        ensures
            r == (self.bytes@ == other.bytes@),
    {
        let mut i: usize = 0;
        while i < 32
            invariant
                0 <= i <= 32,
                self.bytes@.len() == 32,
                other.bytes@.len() == 32,
                forall|j: int| 0 <= j < i ==> self.bytes@[j] == other.bytes@[j],
            decreases 32 - i,
        {
            if self.bytes[i] != other.bytes[i] {
                return false;
            }
            i = i + 1;
        }
        assert(self.bytes@ =~= other.bytes@);
        true
    }
}

/// An account handed to a call: the program that owns it and its storage.
#[derive(Debug)]
pub struct Account {
    pub owner: Address,
    pub data: Vec<u8>,
}

/// The record held by a storage buffer: its first four bytes, little-endian.
/// Bytes after them do not take part.
pub open spec fn record_of(data: Seq<u8>) -> Option<u32> {
    if data.len() >= RECORD_LEN {
        Some(spec_u32_from_le_bytes(data.subrange(0, RECORD_LEN as int)))
    } else {
        None
    }
}

/// The storage buffer after `v` is written over its leading bytes.
pub open spec fn with_record(data: Seq<u8>, v: u32) -> Seq<u8> {
    spec_u32_to_le_bytes(v) + data.subrange(RECORD_LEN as int, data.len() as int)
}

/// The operation tag of each operation on the wire.
pub open spec fn op_tag(op: CalcType) -> u8 {
    match op {
        CalcType::Increment(_) => 0,
        CalcType::Decrement(_) => 1,
        CalcType::Multiply(_) => 2,
        CalcType::Divide(_) => 3,
    }
}

/// The operand that an operation carries.
pub open spec fn op_operand(op: CalcType) -> u32 {
    match op {
        CalcType::Increment(a) => a,
        CalcType::Decrement(a) => a,
        CalcType::Multiply(a) => a,
        CalcType::Divide(a) => a,
    }
}

/// The operation with a given tag and operand, if the tag is known.
pub open spec fn op_of(tag: u8, operand: u32) -> Option<CalcType> {
    if tag == 0 {
        Some(CalcType::Increment(operand))
    } else if tag == 1 {
        Some(CalcType::Decrement(operand))
    } else if tag == 2 {
        Some(CalcType::Multiply(operand))
    } else if tag == 3 {
        Some(CalcType::Divide(operand))
    } else {
        None
    }
}

/// Whether the tags at the head of instruction bytes name an operation.
/// Bytes that are not there yet do not count against it.
pub open spec fn tags_recognized(bytes: Seq<u8>) -> bool {
    &&& (bytes.len() >= 1 ==> bytes[0] == 0)
    &&& (bytes.len() >= 2 ==> bytes[1] <= 3)
}

/// The envelope that instruction bytes encode: exactly six bytes, the outer tag 0,
/// an operation tag from 0 to 3 and the operand, little-endian.
pub open spec fn envelope_of(bytes: Seq<u8>) -> Option<InstructionType> {
    if bytes.len() == INSTRUCTION_LEN && bytes[0] == 0 {
        match op_of(bytes[1], spec_u32_from_le_bytes(bytes.subrange(2, 6))) {
            Some(op) => Some(InstructionType::CalcType(op)),
            None => None,
        }
    } else {
        None
    }
}

/// The bytes of an envelope on the wire.
pub open spec fn envelope_bytes(ix: InstructionType) -> Seq<u8> {
    match ix {
        InstructionType::CalcType(op) => seq![0u8, op_tag(op)] + spec_u32_to_le_bytes(op_operand(op)),
    }
}

/// The error type that borsh reads fail with.
#[verifier::external_type_specification]
#[verifier::external_body]
pub struct ExIoError(std::io::Error);

/// Relies on borsh's `BorshDeserialize` impl for `u32`: it reads the first four bytes
/// of the slice as a little-endian integer, and fails when fewer than four are there.
#[verifier::external_body]
fn read_u32_le(bytes: &[u8]) -> (r: Result<u32, std::io::Error>)
    ensures
        r is Ok <==> bytes@.len() >= 4,
        r is Ok ==> r->Ok_0 == spec_u32_from_le_bytes(bytes@.subrange(0, 4)),
{
    let mut rest: &[u8] = bytes;
    <u32 as borsh::BorshDeserialize>::deserialize(&mut rest)
}

/// Writes `v` over the first four bytes of `data`; the length and the rest stay.
pub(crate) fn store_record(data: &mut Vec<u8>, v: u32)
    requires
        old(data)@.len() >= RECORD_LEN,
    ensures
        final(data)@ == with_record(old(data)@, v),
{
    let bytes = u32_to_le_bytes(v);
    let mut i: usize = 0;
    while i < RECORD_LEN
        invariant
            bytes@ == spec_u32_to_le_bytes(v),
            bytes@.len() == RECORD_LEN,
            0 <= i <= RECORD_LEN,
            data@.len() == old(data)@.len(),
            old(data)@.len() >= RECORD_LEN,
            forall|j: int| 0 <= j < i ==> data@[j] == bytes@[j],
            forall|j: int| i <= j < data@.len() ==> data@[j] == old(data)@[j],
        decreases RECORD_LEN - i,
    {
        data.set(i, bytes[i]);
        i = i + 1;
    }
    assert(data@ =~= with_record(old(data)@, v));
}

impl AccountData {
    /// Reads the record from the leading bytes of a storage buffer.
    pub fn try_from_slice(data: &[u8]) -> (r: Result<AccountData, CalcError>)
        ensures
            r == match record_of(data@) {
                Some(v) => Ok(AccountData { calc_val: v }),
                None => Err(CalcError::MalformedState),
            },
    {
        match read_u32_le(data) {
            Ok(v) => Ok(AccountData { calc_val: v }),
            Err(_) => Err(CalcError::MalformedState),
        }
    }

    /// Writes the record over the leading bytes of `data`, which keeps its length.
    /// A buffer too short to hold a record is left as it was.
    pub fn serialize(&self, data: &mut Vec<u8>) -> (r: Result<(), CalcError>)
        ensures
            old(data)@.len() >= RECORD_LEN ==> r is Ok && final(data)@ == with_record(
                old(data)@,
                self.calc_val,
            ),
            old(data)@.len() < RECORD_LEN ==> r == Err::<(), CalcError>(CalcError::MalformedState)
                && final(data)@ == old(data)@,
    {
        if data.len() < RECORD_LEN {
            return Err(CalcError::MalformedState);
        }
        store_record(data, self.calc_val);
        Ok(())
    }
}

impl InstructionType {
    /// Decodes an envelope; the bytes must hold exactly one and nothing after it.
    pub fn try_from_slice(bytes: &[u8]) -> (r: Result<InstructionType, CalcError>)
        ensures
            r == match envelope_of(bytes@) {
                Some(ix) => Ok(ix),
                None => Err(CalcError::MalformedInstruction),
            },
    {
        if bytes.len() != INSTRUCTION_LEN || bytes[0] != 0 {
            return Err(CalcError::MalformedInstruction);
        }
        let operand = match read_u32_le(slice_subrange(bytes, 2, INSTRUCTION_LEN)) {
            Ok(v) => v,
            Err(_) => return Err(CalcError::MalformedInstruction),
        };
        let op = match bytes[1] {
            0 => CalcType::Increment(operand),
            1 => CalcType::Decrement(operand),
            2 => CalcType::Multiply(operand),
            3 => CalcType::Divide(operand),
            _ => return Err(CalcError::MalformedInstruction),
        };
        assert(bytes@.subrange(2, 6).subrange(0, 4) =~= bytes@.subrange(2, 6));
        Ok(InstructionType::CalcType(op))
    }

    /// Encodes the envelope in the form that `try_from_slice` reads.
    pub fn try_to_vec(&self) -> (r: Vec<u8>)
        ensures
            r@ == envelope_bytes(*self),
    {
        let (tag, operand): (u8, u32) = match self {
            InstructionType::CalcType(CalcType::Increment(a)) => (0, *a),
            InstructionType::CalcType(CalcType::Decrement(a)) => (1, *a),
            InstructionType::CalcType(CalcType::Multiply(a)) => (2, *a),
            InstructionType::CalcType(CalcType::Divide(a)) => (3, *a),
        };
        let mut out: Vec<u8> = vec![0u8, tag];
        let bytes = u32_to_le_bytes(operand);
        let mut i: usize = 0;
        while i < bytes.len()
            invariant
                bytes@.len() == RECORD_LEN,
                0 <= i <= bytes@.len(),
                out@ == seq![0u8, tag] + bytes@.subrange(0, i as int),
            decreases bytes@.len() - i,
        {
            out.push(bytes[i]);
            i = i + 1;
            assert(out@ =~= seq![0u8, tag] + bytes@.subrange(0, i as int));
        }
        assert(bytes@.subrange(0, 4) =~= bytes@);
        out
    }
}

} // verus!
