use crate::state::{record_of, store_record, with_record, Account, AccountData, CalcError, CalcType};
use vstd::prelude::*;

verus! {

/// The counter after an operation, or why the operation is refused. Every operation
/// is checked: a result outside the range of `u32` is an error, not a wrap.
pub open spec fn apply_calc(v: u32, op: CalcType) -> Result<u32, CalcError> {
    match op {
        CalcType::Increment(a) => if v + a <= u32::MAX {
            Ok((v + a) as u32)
        } else {
            Err(CalcError::ArithmeticOverflow)
        },
        CalcType::Decrement(a) => if a <= v {
            Ok((v - a) as u32)
        } else {
            Err(CalcError::ArithmeticOverflow)
        },
        CalcType::Multiply(a) => if v * a <= u32::MAX {
            Ok((v * a) as u32)
        } else {
            Err(CalcError::ArithmeticOverflow)
        },
        CalcType::Divide(a) => if a == 0 {
            Err(CalcError::DivisionByZero)
        } else {
            Ok(v / a)
        },
    }
}

/// The storage after an operation: read the record, apply, write it back.
pub open spec fn calc_on_storage(data: Seq<u8>, op: CalcType) -> Result<Seq<u8>, CalcError> {
    match record_of(data) {
        None => Err(CalcError::MalformedState),
        Some(v) => match apply_calc(v, op) {
            Ok(n) => Ok(with_record(data, n)),
            Err(e) => Err(e),
        },
    }
}

/// What a handler does to an account: the owner stays, the storage becomes what
/// `calc_on_storage` gives, and on an error the storage stays as it was.
pub open spec fn calc_effect(
    before: Account,
    after: Account,
    op: CalcType,
    r: Result<(), CalcError>,
) -> bool {
    &&& after.owner == before.owner
    &&& match calc_on_storage(before.data@, op) {
        Ok(s) => r is Ok && after.data@ == s,
        Err(e) => r == Err::<(), CalcError>(e) && after.data@ == before.data@,
    }
}

/// Applies one operation to a counter value.
pub fn calculate(v: u32, op: CalcType) -> (r: Result<u32, CalcError>)
    ensures
        r == apply_calc(v, op),
{
    match op {
        CalcType::Increment(a) => if a <= u32::MAX - v {
            Ok(v + a)
        } else {
            Err(CalcError::ArithmeticOverflow)
        },
        CalcType::Decrement(a) => if a <= v {
            Ok(v - a)
        } else {
            Err(CalcError::ArithmeticOverflow)
        },
        CalcType::Multiply(a) => {
            assert((v as int) * (a as int) <= 0xffff_ffffu64 * 0xffff_ffffu64) by (nonlinear_arith)
                requires
                    0 <= v <= 0xffff_ffffu64,
                    0 <= a <= 0xffff_ffffu64,
            ;
            let wide: u64 = (v as u64) * (a as u64);
            if wide <= u32::MAX as u64 {
                Ok(wide as u32)
            } else {
                Err(CalcError::ArithmeticOverflow)
            }
        },
        CalcType::Divide(a) => if a == 0 {
            Err(CalcError::DivisionByZero)
        } else {
            Ok(v / a)
        },
    }
}

/// Adds `val` to the stored counter; refused when the sum leaves the range of `u32`.
pub fn increment_instruction(account: &mut Account, val: u32) -> (r: Result<(), CalcError>)
    ensures
        calc_effect(*old(account), *final(account), CalcType::Increment(val), r),
{
    let mut account_data = match AccountData::try_from_slice(account.data.as_slice()) {
        Ok(d) => d,
        Err(e) => return Err(e),
    };
    if val > u32::MAX - account_data.calc_val {
        return Err(CalcError::ArithmeticOverflow);
    }
    account_data.calc_val = account_data.calc_val + val;
    store_record(&mut account.data, account_data.calc_val);
    Ok(())
}

/// Subtracts `val` from the stored counter; refused when it would go below zero.
pub fn decrement_instruction(account: &mut Account, val: u32) -> (r: Result<(), CalcError>)
    ensures
        calc_effect(*old(account), *final(account), CalcType::Decrement(val), r),
{
    let mut account_data = match AccountData::try_from_slice(account.data.as_slice()) {
        Ok(d) => d,
        Err(e) => return Err(e),
    };
    if val > account_data.calc_val {
        return Err(CalcError::ArithmeticOverflow);
    }
    account_data.calc_val = account_data.calc_val - val;
    store_record(&mut account.data, account_data.calc_val);
    Ok(())
}

/// Multiplies the stored counter by `val`; refused when the product leaves the range of `u32`.
pub fn multiply_instruction(account: &mut Account, val: u32) -> (r: Result<(), CalcError>)
    ensures
        calc_effect(*old(account), *final(account), CalcType::Multiply(val), r),
{
    let mut account_data = match AccountData::try_from_slice(account.data.as_slice()) {
        Ok(d) => d,
        Err(e) => return Err(e),
    };
    account_data.calc_val = match account_data.calc_val.checked_mul(val) {
        Some(product) => product,
        None => return Err(CalcError::ArithmeticOverflow),
    };
    store_record(&mut account.data, account_data.calc_val);
    Ok(())
}

/// Divides the stored counter by `val`, rounding down; refused when `val` is zero.
pub fn divide_instruction(account: &mut Account, val: u32) -> (r: Result<(), CalcError>)
    ensures
        calc_effect(*old(account), *final(account), CalcType::Divide(val), r),
{
    let mut account_data = match AccountData::try_from_slice(account.data.as_slice()) {
        Ok(d) => d,
        Err(e) => return Err(e),
    };
    if val == 0 {
        return Err(CalcError::DivisionByZero);
    }
    account_data.calc_val = account_data.calc_val / val;
    store_record(&mut account.data, account_data.calc_val);
    Ok(())
}

} // verus!
