use crate::calc::calc_on_storage;
use crate::instructions::handle_instructions;
use crate::state::{envelope_of, Account, Address, CalcError, InstructionType};
use vstd::prelude::*;

verus! {

/// What a call does to the storage of its target account, the first one supplied:
/// the owner is checked first, then the instruction is decoded, then applied.
pub open spec fn process_outcome(program_id: Address, accounts: Seq<Account>, ix: Seq<u8>) -> Result<
    Seq<u8>,
    CalcError,
> {
    if accounts.len() == 0 {
        Err(CalcError::MissingAccount)
    } else if accounts[0].owner.bytes@ != program_id.bytes@ {
        Err(CalcError::UnauthorizedAccount)
    } else {
        match envelope_of(ix) {
            None => Err(CalcError::MalformedInstruction),
            Some(InstructionType::CalcType(op)) => calc_on_storage(accounts[0].data@, op),
        }
    }
}

/// The accounts after a call whose target storage became `s`: the target keeps its
/// owner, and every other account stays as it was.
pub open spec fn only_target_changed(before: Seq<Account>, after: Seq<Account>, s: Seq<u8>) -> bool {
    &&& after.len() == before.len()
    &&& after[0].owner == before[0].owner
    &&& after[0].data@ == s
    &&& forall|i: int|
        1 <= i < before.len() ==> #[trigger] after[i].owner == before[i].owner && after[i].data@
            == before[i].data@
}

/// The accounts after a failed call: all of them as they were.
pub open spec fn accounts_unchanged(before: Seq<Account>, after: Seq<Account>) -> bool {
    &&& after.len() == before.len()
    &&& forall|i: int|
        0 <= i < before.len() ==> #[trigger] after[i].owner == before[i].owner && after[i].data@
            == before[i].data@
}

/// Runs one call: checks that the first account belongs to `program_id`, decodes the
/// instruction and applies it to that account's storage. Only that storage changes,
/// and only on success.
pub fn process_instruction(
    program_id: &Address,
    accounts: &mut Vec<Account>,
    instruction_data: &[u8],
) -> (r: Result<(), CalcError>)
    ensures
        match process_outcome(*program_id, old(accounts)@, instruction_data@) {
            Ok(s) => r is Ok && only_target_changed(old(accounts)@, final(accounts)@, s),
            Err(e) => r == Err::<(), CalcError>(e) && accounts_unchanged(
                old(accounts)@,
                final(accounts)@,
            ),
        },
{
    if accounts.len() == 0 {
        return Err(CalcError::MissingAccount);
    }
    if !accounts[0].owner.same_as(program_id) {
        return Err(CalcError::UnauthorizedAccount);
    }
    let instruction_type = match InstructionType::try_from_slice(instruction_data) {
        Ok(ix) => ix,
        Err(e) => return Err(e),
    };
    handle_instructions(instruction_type, &mut accounts[0])
}

} // verus!
