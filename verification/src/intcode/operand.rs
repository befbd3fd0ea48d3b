//! Resolving a parameter to the value it reads or the cell it writes.
//!
//! Resolution only reads memory. `None` stands for an address outside memory.

use vstd::prelude::*;
use crate::intcode::decode::ParameterMode;

verus! {

/// Whether `address` is an index into `memory`.
pub open spec fn in_range(memory: Seq<i32>, address: int) -> bool {
    0 <= address < memory.len()
}

/// The value that parameter `k` of the instruction at `pc` reads: the
/// parameter word itself in `Immediate` mode, the cell it points to in
/// `Position` mode, and nothing where either lies outside memory.
pub open spec fn spec_read(memory: Seq<i32>, pc: int, k: int, mode: ParameterMode) -> Option<i32> {
    if !in_range(memory, pc + k) {
        None
    } else {
        match mode {
            ParameterMode::Immediate => Some(memory[pc + k]),
            ParameterMode::Position => if in_range(memory, memory[pc + k] as int) {
                Some(memory[memory[pc + k] as int])
            } else {
                None
            },
        }
    }
}

/// The cell that parameter `k` of the instruction at `pc` writes: always the
/// parameter word taken as an index, whatever mode was decoded for it.
pub open spec fn spec_write_address(memory: Seq<i32>, pc: int, k: int) -> Option<int> {
    if in_range(memory, pc + k) && in_range(memory, memory[pc + k] as int) {
        Some(memory[pc + k] as int)
    } else {
        None
    }
}

/// The word of parameter `k` of the instruction at `pc`.
pub fn parameter_word(v: &[i32], pc: usize, k: usize) -> (word: Option<i32>)
    ensures
        word == (if in_range(v@, pc + k) {
            Some(v@[pc + k])
        } else {
            None
        }),
{
    if pc >= v.len() || k >= v.len() - pc {
        None
    } else {
        Some(v[pc + k])
    }
}

/// The index that `word` names, if it names one.
pub fn address_of(v: &[i32], word: i32) -> (address: Option<usize>)
    ensures
        address matches Some(a) ==> a == word && in_range(v@, word as int),
        address is None ==> !in_range(v@, word as int),
{
    if word < 0 {
        None
    } else {
        let index: usize = word as usize;
        if index < v.len() {
            Some(index)
        } else {
            None
        }
    }
}

/// Reads parameter `k` of the instruction at `pc` in the given mode.
pub fn read(v: &[i32], pc: usize, k: usize, mode: ParameterMode) -> (value: Option<i32>)
    ensures
        value == spec_read(v@, pc as int, k as int, mode),
{
    match parameter_word(v, pc, k) {
        None => None,
        Some(word) => match mode {
            ParameterMode::Immediate => Some(word),
            ParameterMode::Position => match address_of(v, word) {
                Some(address) => Some(v[address]),
                None => None,
            },
        },
    }
}

/// The destination that parameter `k` of the instruction at `pc` names.
pub fn write_address(v: &[i32], pc: usize, k: usize) -> (address: Option<usize>)
    ensures
        address matches Some(a) ==> spec_write_address(v@, pc as int, k as int) == Some(a as int),
        address is None ==> spec_write_address(v@, pc as int, k as int) is None,
{
    match parameter_word(v, pc, k) {
        None => None,
        Some(word) => address_of(v, word),
    }
}

} // verus!
