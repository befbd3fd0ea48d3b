//! One handler per instruction kind.
//!
//! Every handler resolves all of its operands before it writes, and writes at
//! most once: an instruction may overwrite a cell that it has just read. A
//! handler that reports a fault has changed nothing.

use vstd::prelude::*;
use crate::intcode::decode::Operator;
use crate::intcode::operand::{in_range, parameter_word, read, spec_read, spec_write_address, write_address};

verus! {

/// Why a machine stopped without reaching a halt instruction.
#[derive(Clone, Copy, Debug, PartialEq, Eq, Structural)]
pub enum Fault {
    /// The opcode digits name no instruction.
    DecodeFault,
    /// An index that the step computed lies outside memory.
    AddressFault,
    /// An input instruction ran with no input value left.
    InputExhausted,
}

/// The operands of a three-parameter instruction: the two values read and the
/// destination index.
pub open spec fn spec_operands(memory: Seq<i32>, pc: int, operator: Operator) -> Option<
    (i32, i32, int),
> {
    match (
        spec_read(memory, pc, 1, operator.param1),
        spec_read(memory, pc, 2, operator.param2),
        spec_write_address(memory, pc, 3),
    ) {
        (Some(left), Some(right), Some(destination)) => Some((left, right, destination)),
        _ => None,
    }
}

/// Memory after an add at `pc`: the destination holds the sum, wrapped to 32
/// bits.
pub open spec fn spec_add(memory: Seq<i32>, pc: int, operator: Operator) -> Option<Seq<i32>> {
    match spec_operands(memory, pc, operator) {
        Some((left, right, destination)) => Some(
            memory.update(destination, left.wrapping_add(right)),
        ),
        None => None,
    }
}

/// Memory after a multiply at `pc`: the destination holds the product,
/// wrapped to 32 bits.
pub open spec fn spec_multiply(memory: Seq<i32>, pc: int, operator: Operator) -> Option<Seq<i32>> {
    match spec_operands(memory, pc, operator) {
        Some((left, right, destination)) => Some(
            memory.update(destination, left.wrapping_mul(right)),
        ),
        None => None,
    }
}

/// Memory after a less-than at `pc`: the destination holds 1 if the first
/// value is below the second, else 0.
pub open spec fn spec_less_than(memory: Seq<i32>, pc: int, operator: Operator) -> Option<Seq<i32>> {
    match spec_operands(memory, pc, operator) {
        Some((left, right, destination)) => Some(
            memory.update(destination, if left < right { 1i32 } else { 0i32 }),
        ),
        None => None,
    }
}

/// Memory after an equals at `pc`: the destination holds 1 if the two values
/// are equal, else 0.
pub open spec fn spec_equals(memory: Seq<i32>, pc: int, operator: Operator) -> Option<Seq<i32>> {
    match spec_operands(memory, pc, operator) {
        Some((left, right, destination)) => Some(
            memory.update(destination, if left == right { 1i32 } else { 0i32 }),
        ),
        None => None,
    }
}

/// Where a conditional jump at `pc` goes when it jumps on `jump_on_zero`:
/// the second value if the first is zero exactly when `jump_on_zero` holds,
/// else three cells on. Both values are read either way, and a target must be
/// an index into memory.
pub open spec fn spec_jump(memory: Seq<i32>, pc: int, operator: Operator, jump_on_zero: bool) -> Option<int> {
    match (spec_read(memory, pc, 1, operator.param1), spec_read(memory, pc, 2, operator.param2)) {
        (Some(test), Some(target)) => if (test == 0) == jump_on_zero {
            if in_range(memory, target as int) {
                Some(target as int)
            } else {
                None
            }
        } else {
            Some(pc + 3)
        },
        _ => None,
    }
}

/// Memory after an input at `pc` that is offered `value`. The parameter is
/// looked at first, then the input source, then the destination.
pub open spec fn spec_input(memory: Seq<i32>, pc: int, value: Option<i32>) -> Result<Seq<i32>, Fault> {
    if !in_range(memory, pc + 1) {
        Err(Fault::AddressFault)
    } else {
        match value {
            None => Err(Fault::InputExhausted),
            Some(word) => match spec_write_address(memory, pc, 1) {
                Some(destination) => Ok(memory.update(destination, word)),
                None => Err(Fault::AddressFault),
            },
        }
    }
}

/// What the handlers of the four three-parameter instructions share: resolve
/// both sources and the destination.
fn operands(v: &[i32], pc: usize, operator: &Operator) -> (found: Option<(i32, i32, usize)>)
    ensures
        match spec_operands(v@, pc as int, *operator) {
            Some((left, right, destination)) => found == Some((left, right, destination as usize))
                && 0 <= destination < v.len() && pc + 3 < v.len(),
            None => found is None,
        },
{
    let left: i32 = match read(v, pc, 1, operator.param1) {
        Some(value) => value,
        None => { return None; },
    };
    let right: i32 = match read(v, pc, 2, operator.param2) {
        Some(value) => value,
        None => { return None; },
    };
    match write_address(v, pc, 3) {
        Some(destination) => Some((left, right, destination)),
        None => None,
    }
}

/// Stores the wrapped sum of the first two parameters at the third.
pub fn add_instruction(v: &mut Vec<i32>, current_pos: usize, operator: &Operator) -> (next: Result<usize, Fault>)
    ensures
        match spec_add(old(v)@, current_pos as int, *operator) {
            Some(memory) => final(v)@ == memory && next == Ok::<usize, Fault>(
                (current_pos + 4) as usize,
            ) && current_pos + 4 <= old(v)@.len(),
            None => final(v)@ == old(v)@ && next == Err::<usize, Fault>(Fault::AddressFault),
        },
{
    match operands(v.as_slice(), current_pos, operator) {
        Some((l_value, r_value, output_pos)) => {
            v[output_pos] = l_value.wrapping_add(r_value);
            Ok(current_pos + 4)
        },
        None => Err(Fault::AddressFault),
    }
}

/// Stores the wrapped product of the first two parameters at the third.
pub fn mult_instruction(v: &mut Vec<i32>, current_pos: usize, operator: &Operator) -> (next: Result<usize, Fault>)
    ensures
        match spec_multiply(old(v)@, current_pos as int, *operator) {
            Some(memory) => final(v)@ == memory && next == Ok::<usize, Fault>(
                (current_pos + 4) as usize,
            ) && current_pos + 4 <= old(v)@.len(),
            None => final(v)@ == old(v)@ && next == Err::<usize, Fault>(Fault::AddressFault),
        },
{
    match operands(v.as_slice(), current_pos, operator) {
        Some((l_value, r_value, output_pos)) => {
            v[output_pos] = l_value.wrapping_mul(r_value);
            Ok(current_pos + 4)
        },
        None => Err(Fault::AddressFault),
    }
}

/// Stores 1 at the third parameter if the first is below the second, else 0.
pub fn less_than_instruction(v: &mut Vec<i32>, current_pos: usize, operator: &Operator) -> (next: Result<usize, Fault>)
    ensures
        match spec_less_than(old(v)@, current_pos as int, *operator) {
            Some(memory) => final(v)@ == memory && next == Ok::<usize, Fault>(
                (current_pos + 4) as usize,
            ) && current_pos + 4 <= old(v)@.len(),
            None => final(v)@ == old(v)@ && next == Err::<usize, Fault>(Fault::AddressFault),
        },
{
    match operands(v.as_slice(), current_pos, operator) {
        Some((l_value, r_value, output_pos)) => {
            if l_value < r_value {
                v[output_pos] = 1;
            } else {
                v[output_pos] = 0;
            }
            Ok(current_pos + 4)
        },
        None => Err(Fault::AddressFault),
    }
}

/// Stores 1 at the third parameter if the first equals the second, else 0.
pub fn equals_instruction(v: &mut Vec<i32>, current_pos: usize, operator: &Operator) -> (next: Result<usize, Fault>)
    ensures
        match spec_equals(old(v)@, current_pos as int, *operator) {
            Some(memory) => final(v)@ == memory && next == Ok::<usize, Fault>(
                (current_pos + 4) as usize,
            ) && current_pos + 4 <= old(v)@.len(),
            None => final(v)@ == old(v)@ && next == Err::<usize, Fault>(Fault::AddressFault),
        },
{
    match operands(v.as_slice(), current_pos, operator) {
        Some((l_value, r_value, output_pos)) => {
            if l_value == r_value {
                v[output_pos] = 1;
            } else {
                v[output_pos] = 0;
            }
            Ok(current_pos + 4)
        },
        None => Err(Fault::AddressFault),
    }
}

/// What the two conditional jumps share: read both values and pick the next
/// position.
fn jump(v: &[i32], pc: usize, operator: &Operator, jump_on_zero: bool) -> (next: Result<usize, Fault>)
    ensures
        match spec_jump(v@, pc as int, *operator, jump_on_zero) {
            Some(target) => next == Ok::<usize, Fault>(target as usize) && 0 <= target <= v@.len(),
            None => next == Err::<usize, Fault>(Fault::AddressFault),
        },
{
    let l_value: i32 = match read(v, pc, 1, operator.param1) {
        Some(value) => value,
        None => { return Err(Fault::AddressFault); },
    };
    let r_value: i32 = match read(v, pc, 2, operator.param2) {
        Some(value) => value,
        None => { return Err(Fault::AddressFault); },
    };
    if (l_value == 0) == jump_on_zero {
        if 0 <= r_value && (r_value as usize) < v.len() {
            Ok(r_value as usize)
        } else {
            Err(Fault::AddressFault)
        }
    } else {
        assert(pc + 2 < v.len());
        Ok(pc + 3)
    }
}

/// Jumps to the second parameter if the first is not zero, else moves three
/// cells on.
pub fn jump_if_true_instruction(v: &[i32], current_pos: usize, operator: &Operator) -> (next: Result<usize, Fault>)
    ensures
        match spec_jump(v@, current_pos as int, *operator, false) {
            Some(target) => next == Ok::<usize, Fault>(target as usize) && 0 <= target <= v@.len(),
            None => next == Err::<usize, Fault>(Fault::AddressFault),
        },
{
    jump(v, current_pos, operator, false)
}

/// Jumps to the second parameter if the first is zero, else moves three cells
/// on.
pub fn jump_if_false_instruction(v: &[i32], current_pos: usize, operator: &Operator) -> (next: Result<usize, Fault>)
    ensures
        match spec_jump(v@, current_pos as int, *operator, true) {
            Some(target) => next == Ok::<usize, Fault>(target as usize) && 0 <= target <= v@.len(),
            None => next == Err::<usize, Fault>(Fault::AddressFault),
        },
{
    jump(v, current_pos, operator, true)
}

/// Stores `value`, the next word of the input source, at the first
/// parameter. `None` says that the source has run dry.
pub fn input_instruction(v: &mut Vec<i32>, current_pos: usize, value: Option<i32>) -> (next: Result<usize, Fault>)
    ensures
        match spec_input(old(v)@, current_pos as int, value) {
            Ok(memory) => final(v)@ == memory && next == Ok::<usize, Fault>(
                (current_pos + 2) as usize,
            ) && current_pos + 2 <= old(v)@.len(),
            Err(fault) => final(v)@ == old(v)@ && next == Err::<usize, Fault>(fault),
        },
{
    if parameter_word(v.as_slice(), current_pos, 1).is_none() {
        return Err(Fault::AddressFault);
    }
    let input: i32 = match value {
        Some(word) => word,
        None => { return Err(Fault::InputExhausted); },
    };
    match write_address(v.as_slice(), current_pos, 1) {
        Some(output_pos) => {
            assert(current_pos + 1 < v.len());
            v[output_pos] = input;
            Ok(current_pos + 2)
        },
        None => Err(Fault::AddressFault),
    }
}

/// Reads the first parameter for the output sink and moves two cells on.
pub fn output_instruction(v: &[i32], current_pos: usize, operator: &Operator) -> (next: Result<(usize, i32), Fault>)
    ensures
        match spec_read(v@, current_pos as int, 1, operator.param1) {
            Some(value) => next == Ok::<(usize, i32), Fault>(((current_pos + 2) as usize, value))
                && current_pos + 2 <= v@.len(),
            None => next == Err::<(usize, i32), Fault>(Fault::AddressFault),
        },
{
    match read(v, current_pos, 1, operator.param1) {
        Some(value) => {
            assert(current_pos + 1 < v.len());
            Ok((current_pos + 2, value))
        },
        None => Err(Fault::AddressFault),
    }
}

} // verus!
