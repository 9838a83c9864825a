use crate::calc::{apply_calc, calc_on_storage};
use crate::processor::process_outcome;
use crate::state::{
    envelope_bytes, envelope_of, op_of, op_operand, op_tag, record_of, tags_recognized,
    with_record, Account, Address, CalcError, CalcType, InstructionType, RECORD_LEN,
};
use vstd::bytes::{lemma_auto_spec_u32_to_from_le_bytes, spec_u32_from_le_bytes};
use vstd::prelude::*;

verus! {

/// Writing a value into a storage buffer and reading it back gives that value,
/// and writing twice keeps only the second value.
proof fn lemma_write_read(data: Seq<u8>, n: u32, m: u32)
    requires
        data.len() >= RECORD_LEN,
    ensures
        with_record(data, n).len() == data.len(),
        record_of(with_record(data, n)) == Some(n),
        with_record(with_record(data, n), m) == with_record(data, m),
{
    lemma_auto_spec_u32_to_from_le_bytes();
    let w = with_record(data, n);
    assert(w.subrange(0, 4) =~= vstd::bytes::spec_u32_to_le_bytes(n));
    assert(w.subrange(4, w.len() as int) =~= data.subrange(4, data.len() as int));
}

/// Writing back the value that a buffer already holds leaves the buffer as it was.
proof fn lemma_write_same(data: Seq<u8>)
    requires
        data.len() >= RECORD_LEN,
    ensures
        with_record(data, spec_u32_from_le_bytes(data.subrange(0, 4))) == data,
{
    lemma_auto_spec_u32_to_from_le_bytes();
    let v = spec_u32_from_le_bytes(data.subrange(0, 4));
    assert(data.subrange(0, 4).len() == 4);
    assert(with_record(data, v) =~= data);
}

/// Increment by `a` and then Decrement by `a` give back the storage as it was,
/// whenever the increment stays within the range of the counter.
pub proof fn increment_then_decrement_restores(data: Seq<u8>, a: u32)
    requires
        data.len() >= RECORD_LEN,
        record_of(data).unwrap() + a <= u32::MAX,
    ensures
        apply_calc(record_of(data).unwrap(), CalcType::Increment(a)) is Ok,
        calc_on_storage(data, CalcType::Increment(a)) is Ok,
        calc_on_storage(calc_on_storage(data, CalcType::Increment(a)).unwrap(), CalcType::Decrement(a))
            == Ok::<Seq<u8>, CalcError>(data),
{
    let v = record_of(data).unwrap();
    let n = (v + a) as u32;
    lemma_write_read(data, n, v);
    lemma_write_same(data);
}

/// Divide by zero fails with `DivisionByZero` on every storage that holds a record;
/// the handlers leave the storage untouched on every error.
pub proof fn divide_by_zero_fails(data: Seq<u8>)
    requires
        data.len() >= RECORD_LEN,
    ensures
        calc_on_storage(data, CalcType::Divide(0)) == Err::<Seq<u8>, CalcError>(
            CalcError::DivisionByZero,
        ),
{
}

/// Reading a record, writing it back into any buffer that can hold one and reading
/// again gives the same record; written back into its own buffer, the bytes stay.
pub proof fn record_round_trip(data: Seq<u8>, buf: Seq<u8>)
    requires
        data.len() >= RECORD_LEN,
        buf.len() >= RECORD_LEN,
    ensures
        record_of(with_record(buf, record_of(data).unwrap())) == record_of(data),
        with_record(data, record_of(data).unwrap()) == data,
{
    lemma_write_read(buf, record_of(data).unwrap(), 0);
    lemma_write_same(data);
}

/// Encoded envelopes decode to themselves.
pub proof fn envelope_round_trip(ix: InstructionType)
    ensures
        envelope_of(envelope_bytes(ix)) == Some(ix),
{
    lemma_auto_spec_u32_to_from_le_bytes();
    let InstructionType::CalcType(op) = ix;
    let b = envelope_bytes(ix);
    assert(b.subrange(2, 6) =~= vstd::bytes::spec_u32_to_le_bytes(op_operand(op)));
    assert(op_of(op_tag(op), op_operand(op)) == Some(op));
}

/// Instruction bytes whose tags name no operation never decode, and a call with them
/// on an account of the program fails with `MalformedInstruction`.
pub proof fn unknown_tag_is_malformed(program_id: Address, accounts: Seq<Account>, ix: Seq<u8>)
    requires
        !tags_recognized(ix),
    ensures
        envelope_of(ix) is None,
        accounts.len() > 0 && accounts[0].owner.bytes@ == program_id.bytes@ ==> process_outcome(
            program_id,
            accounts,
            ix,
        ) == Err::<Seq<u8>, CalcError>(CalcError::MalformedInstruction),
{
}

/// A call on an account owned by another program fails with `UnauthorizedAccount`,
/// whatever the instruction bytes are.
pub proof fn foreign_owner_is_unauthorized(
    program_id: Address,
    accounts: Seq<Account>,
    ix: Seq<u8>,
)
    requires
        accounts.len() > 0,
        accounts[0].owner.bytes@ != program_id.bytes@,
    ensures
        process_outcome(program_id, accounts, ix) == Err::<Seq<u8>, CalcError>(
            CalcError::UnauthorizedAccount,
        ),
{
}

} // verus!
