//! What holds of every step and every run of the machine.

use vstd::prelude::*;
use crate::intcode::decode::{opcode_of, spec_decode, Instruction};
use crate::intcode::executor::Fault;
use crate::intcode::machine::{
    offered, spec_advance, spec_run, spec_step, stopped, MachineModel, RunModel, State,
};
use crate::intcode::operand::{in_range, spec_read};

verus! {

/// The instruction that the next step of `m` decodes.
pub open spec fn current_instruction(m: MachineModel) -> Instruction {
    spec_decode(m.memory[m.pc]).instruction
}

/// Whether `m` runs and its program counter points into memory.
pub open spec fn ready(m: MachineModel) -> bool {
    m.state == State::Running && in_range(m.memory, m.pc)
}

/// A step never changes the size of memory, and a machine that stays running
/// has its program counter between 0 and the size of memory.
pub proof fn lemma_step_keeps_shape(m: MachineModel, next_input: Option<i32>)
    ensures
        spec_step(m, next_input).next.memory.len() == m.memory.len(),
        ready(m) && spec_step(m, next_input).next.state == State::Running ==> 0 <= spec_step(
            m,
            next_input,
        ).next.pc <= m.memory.len(),
{
}

/// A step that ends in a fault has changed neither memory nor the program
/// counter, has taken no input and has sent no output.
pub proof fn lemma_fault_changes_nothing(m: MachineModel, next_input: Option<i32>)
    requires
        m.state == State::Running,
        spec_step(m, next_input).next.state is Faulted,
    ensures
        spec_step(m, next_input) == stopped(m, spec_step(m, next_input).next.state),
{
}

/// A machine that does not run stays exactly as it is.
pub proof fn lemma_stopped_machine_stays(m: MachineModel, next_input: Option<i32>)
    requires
        m.state != State::Running,
    ensures
        spec_step(m, next_input) == stopped(m, m.state),
{
}

/// A less-than or equals instruction that completes changes one cell only,
/// the one its third parameter names, and leaves 0 or 1 there.
pub proof fn lemma_comparison_writes_zero_or_one(m: MachineModel, next_input: Option<i32>)
    requires
        ready(m),
        current_instruction(m) == Instruction::LessThan || current_instruction(m)
            == Instruction::Equals,
        spec_step(m, next_input).next.state == State::Running,
    ensures
        ({
            let next = spec_step(m, next_input).next;
            let destination = m.memory[m.pc + 3] as int;
            &&& in_range(m.memory, m.pc + 3)
            &&& in_range(m.memory, destination)
            &&& next.memory[destination] == 0 || next.memory[destination] == 1
            &&& forall|i: int|
                0 <= i < m.memory.len() && i != destination ==> next.memory[i] == m.memory[i]
            &&& next.pc == m.pc + 4
        }),
{
}

/// A conditional jump that completes leaves memory alone and the program
/// counter within memory's bounds; a jump that is taken lands on an index into
/// memory.
pub proof fn lemma_jump_keeps_pc_valid(m: MachineModel, next_input: Option<i32>)
    requires
        ready(m),
        current_instruction(m) == Instruction::JumpIfTrue || current_instruction(m)
            == Instruction::JumpIfFalse,
        spec_step(m, next_input).next.state == State::Running,
    ensures
        spec_step(m, next_input).next.memory == m.memory,
        spec_step(m, next_input).next.pc == m.pc + 3 || in_range(
            m.memory,
            spec_step(m, next_input).next.pc,
        ),
        0 <= spec_step(m, next_input).next.pc <= m.memory.len(),
{
}

/// A jump-if-true whose first operand is zero falls through to three cells
/// on, and so does a jump-if-false whose first operand is not zero.
pub proof fn lemma_jump_falls_through(m: MachineModel, next_input: Option<i32>)
    requires
        ready(m),
        spec_step(m, next_input).next.state == State::Running,
        spec_read(m.memory, m.pc, 1, spec_decode(m.memory[m.pc]).param1) matches Some(test) && ({
            ||| current_instruction(m) == Instruction::JumpIfTrue && test == 0
            ||| current_instruction(m) == Instruction::JumpIfFalse && test != 0
        }),
    ensures
        spec_step(m, next_input).next.pc == m.pc + 3,
{
}

/// A jump that does not fall through goes to the value of its second
/// operand.
pub proof fn lemma_jump_taken(m: MachineModel, next_input: Option<i32>)
    requires
        ready(m),
        spec_step(m, next_input).next.state == State::Running,
        spec_read(m.memory, m.pc, 1, spec_decode(m.memory[m.pc]).param1) matches Some(test) && ({
            ||| current_instruction(m) == Instruction::JumpIfTrue && test != 0
            ||| current_instruction(m) == Instruction::JumpIfFalse && test == 0
        }),
    ensures
        spec_read(m.memory, m.pc, 2, spec_decode(m.memory[m.pc]).param2) == Some(
            spec_step(m, next_input).next.pc as i32,
        ),
        in_range(m.memory, spec_step(m, next_input).next.pc),
{
}

/// Whether `code` is the opcode of one of the nine instructions.
pub open spec fn known_opcode(code: int) -> bool {
    1 <= code <= 8 || code == 99
}

/// A step at opcode 99 halts the machine, a step at an opcode outside 1 to 8
/// and 99 is a decode fault, and neither changes anything else.
pub proof fn lemma_halt_and_decode_fault(m: MachineModel, next_input: Option<i32>)
    requires
        ready(m),
    ensures
        opcode_of(m.memory[m.pc] as int) == 99 ==> spec_step(m, next_input) == stopped(
            m,
            State::Halted,
        ),
        !known_opcode(opcode_of(m.memory[m.pc] as int)) ==> spec_step(m, next_input) == stopped(
            m,
            State::Faulted(Fault::DecodeFault),
        ),
        known_opcode(opcode_of(m.memory[m.pc] as int)) ==> spec_step(m, next_input).next.state
            != State::Faulted(Fault::DecodeFault),
{
}

/// An input instruction whose parameter lies in memory and that finds the
/// input source dry is an input-exhausted fault: no word is made up for it.
pub proof fn lemma_input_exhausted(m: MachineModel)
    requires
        ready(m),
        current_instruction(m) == Instruction::Input,
        in_range(m.memory, m.pc + 1),
    ensures
        spec_step(m, None) == stopped(m, State::Faulted(Fault::InputExhausted)),
{
}

/// Only an input instruction that meets a dry input source is an
/// input-exhausted fault.
pub proof fn lemma_input_exhausted_only_when_dry(m: MachineModel, next_input: Option<i32>)
    requires
        m.state == State::Running,
        spec_step(m, next_input).next.state == State::Faulted(Fault::InputExhausted),
    ensures
        next_input is None,
        ready(m),
        current_instruction(m) == Instruction::Input,
{
}

/// A run of a machine that no longer runs is over: more steps change
/// nothing.
pub proof fn lemma_run_of_stopped(r: RunModel, input: Seq<i32>, steps: nat)
    requires
        r.machine.state != State::Running,
    ensures
        spec_run(r, input, steps) == r,
{
}

/// Running for `first` steps and then for `second` more is running for
/// `first + second` steps.
pub proof fn lemma_run_splits(r: RunModel, input: Seq<i32>, first: nat, second: nat)
    ensures
        spec_run(spec_run(r, input, first), input, second) == spec_run(r, input, first + second),
    decreases first,
{
    if r.machine.state != State::Running {
        lemma_run_of_stopped(r, input, first);
    } else if first > 0 {
        lemma_run_splits(spec_advance(r, input), input, (first - 1) as nat, second);
    }
}

/// A run that reaches a halt or a fault within `steps` steps ends the same
/// with any larger budget.
pub proof fn lemma_run_is_final(r: RunModel, input: Seq<i32>, steps: nat, more: nat)
    requires
        spec_run(r, input, steps).machine.state != State::Running,
        steps <= more,
    ensures
        spec_run(r, input, more) == spec_run(r, input, steps),
{
    lemma_run_splits(r, input, steps, (more - steps) as nat);
    lemma_run_of_stopped(spec_run(r, input, steps), input, (more - steps) as nat);
}

/// A run never changes the size of memory, keeps the program counter
/// between 0 and that size, never takes more input than there is, and only ever
/// appends to the output.
pub proof fn lemma_run_keeps_shape(r: RunModel, input: Seq<i32>, steps: nat)
    requires
        r.consumed <= input.len(),
        0 <= r.machine.pc <= r.machine.memory.len(),
    ensures
        spec_run(r, input, steps).machine.memory.len() == r.machine.memory.len(),
        0 <= spec_run(r, input, steps).machine.pc <= r.machine.memory.len(),
        r.consumed <= spec_run(r, input, steps).consumed <= input.len(),
        r.output.is_prefix_of(spec_run(r, input, steps).output),
    decreases steps,
{
    if steps > 0 && r.machine.state == State::Running {
        lemma_step_keeps_shape(r.machine, offered(input, r.consumed));
        lemma_run_keeps_shape(spec_advance(r, input), input, (steps - 1) as nat);
    }
}

/// A run that stands at opcode 99 ends halted, one that stands at an
/// opcode outside 1 to 8 and 99 ends in a decode fault, and one that stands at
/// an input instruction with its parameter in memory and the input used up
/// ends in an input-exhausted fault; each leaves memory, program counter,
/// input and output as they stand.
pub proof fn lemma_run_stops_here(r: RunModel, input: Seq<i32>, steps: nat)
    requires
        ready(r.machine),
        steps >= 1,
    ensures
        opcode_of(r.machine.memory[r.machine.pc] as int) == 99 ==> spec_run(r, input, steps) == (
        RunModel { machine: stopped(r.machine, State::Halted).next, ..r }),
        !known_opcode(opcode_of(r.machine.memory[r.machine.pc] as int)) ==> spec_run(
            r,
            input,
            steps,
        ) == (RunModel {
            machine: stopped(r.machine, State::Faulted(Fault::DecodeFault)).next,
            ..r
        }),
        current_instruction(r.machine) == Instruction::Input && in_range(
            r.machine.memory,
            r.machine.pc + 1,
        ) && r.consumed >= input.len() ==> spec_run(r, input, steps) == (RunModel {
            machine: stopped(r.machine, State::Faulted(Fault::InputExhausted)).next,
            ..r
        }),
{
    lemma_halt_and_decode_fault(r.machine, offered(input, r.consumed));
    if current_instruction(r.machine) == Instruction::Input && in_range(
        r.machine.memory,
        r.machine.pc + 1,
    ) && r.consumed >= input.len() {
        lemma_input_exhausted(r.machine);
    }
    if spec_advance(r, input).machine.state != State::Running {
        lemma_run_of_stopped(spec_advance(r, input), input, (steps - 1) as nat);
    }
}

} // verus!
