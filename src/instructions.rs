use crate::calc::{
    calc_effect, decrement_instruction, divide_instruction, increment_instruction,
    multiply_instruction,
};
use crate::state::{Account, CalcError, CalcType, InstructionType};
use vstd::prelude::*;

verus! {

/// Routes an envelope to the handler of its family and returns what the handler returns.
pub fn handle_instructions(instruction_type: InstructionType, acc: &mut Account) -> (r: Result<
    (),
    CalcError,
>)
    ensures
        match instruction_type {
            InstructionType::CalcType(op) => calc_effect(*old(acc), *final(acc), op, r),
        },
{
    match instruction_type {
        InstructionType::CalcType(calc_type) => handle_calc(calc_type, acc),
    }
}

/// Routes an arithmetic operation to its handler.
fn handle_calc(calc_type: CalcType, acc: &mut Account) -> (r: Result<(), CalcError>)
    ensures
        calc_effect(*old(acc), *final(acc), calc_type, r),
{
    match calc_type {
        CalcType::Decrement(val) => decrement_instruction(acc, val),
        CalcType::Increment(val) => increment_instruction(acc, val),
        CalcType::Multiply(val) => multiply_instruction(acc, val),
        CalcType::Divide(val) => divide_instruction(acc, val),
    }
}

} // verus!
