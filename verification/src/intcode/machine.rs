//! The execution loop: decode the word at the program counter, run its
//! handler, move the program counter, until the machine halts or faults.

use vstd::prelude::*;
use crate::intcode::decode::{get_operator, spec_decode, Instruction};
use crate::intcode::executor::{
    add_instruction, equals_instruction, input_instruction, jump_if_false_instruction,
    jump_if_true_instruction, less_than_instruction, mult_instruction, output_instruction,
    spec_add, spec_equals, spec_input, spec_jump, spec_less_than, spec_multiply, Fault,
};
use crate::intcode::operand::{in_range, spec_read};

verus! {

/// Where a machine is in its one lifecycle.
#[derive(Clone, Copy, Debug, PartialEq, Eq, Structural)]
pub enum State {
    Running,
    Halted,
    Faulted(Fault),
}

/// A machine as a mathematical value.
pub struct MachineModel {
    pub memory: Seq<i32>,
    pub pc: int,
    pub state: State,
}

/// One step as a mathematical value: the machine after it, whether it took
/// the offered input word, and the word it sent to the output sink.
pub struct StepModel {
    pub next: MachineModel,
    pub consumed: bool,
    pub emitted: Option<i32>,
}

/// A step that changes nothing but the state.
pub open spec fn stopped(m: MachineModel, state: State) -> StepModel {
    StepModel {
        next: MachineModel { memory: m.memory, pc: m.pc, state: state },
        consumed: false,
        emitted: None,
    }
}

/// A step that leaves the machine running with new memory at a new position.
pub open spec fn moved(memory: Seq<i32>, pc: int) -> StepModel {
    StepModel {
        next: MachineModel { memory: memory, pc: pc, state: State::Running },
        consumed: false,
        emitted: None,
    }
}

/// A step of a three-parameter instruction, given the memory it leaves.
pub open spec fn stored(m: MachineModel, memory: Option<Seq<i32>>) -> StepModel {
    match memory {
        Some(memory) => moved(memory, m.pc + 4),
        None => stopped(m, State::Faulted(Fault::AddressFault)),
    }
}

/// A step of a conditional jump, given where it goes.
pub open spec fn jumped(m: MachineModel, target: Option<int>) -> StepModel {
    match target {
        Some(target) => moved(m.memory, target),
        None => stopped(m, State::Faulted(Fault::AddressFault)),
    }
}

/// One step of the machine `m` when `next_input` is what the input source
/// offers (`None`: it has run dry).
///
/// A machine that is not running stays as it is. A running machine whose
/// program counter lies outside memory faults. Otherwise the word at the
/// program counter is decoded: a halt stops the machine, an unknown opcode is a
/// decode fault, and every other instruction either completes, or faults and
/// leaves memory and program counter as they were.
pub open spec fn spec_step(m: MachineModel, next_input: Option<i32>) -> StepModel {
    if m.state != State::Running {
        stopped(m, m.state)
    } else if !in_range(m.memory, m.pc) {
        stopped(m, State::Faulted(Fault::AddressFault))
    } else {
        let operator = spec_decode(m.memory[m.pc]);
        match operator.instruction {
            Instruction::Halt => stopped(m, State::Halted),
            Instruction::Unknown => stopped(m, State::Faulted(Fault::DecodeFault)),
            Instruction::Add => stored(m, spec_add(m.memory, m.pc, operator)),
            Instruction::Multiply => stored(m, spec_multiply(m.memory, m.pc, operator)),
            Instruction::LessThan => stored(m, spec_less_than(m.memory, m.pc, operator)),
            Instruction::Equals => stored(m, spec_equals(m.memory, m.pc, operator)),
            Instruction::JumpIfTrue => jumped(m, spec_jump(m.memory, m.pc, operator, false)),
            Instruction::JumpIfFalse => jumped(m, spec_jump(m.memory, m.pc, operator, true)),
            Instruction::Input => match spec_input(m.memory, m.pc, next_input) {
                Ok(memory) => StepModel {
                    next: MachineModel { memory: memory, pc: m.pc + 2, state: State::Running },
                    consumed: true,
                    emitted: None,
                },
                Err(fault) => stopped(m, State::Faulted(fault)),
            },
            Instruction::Output => match spec_read(m.memory, m.pc, 1, operator.param1) {
                Some(value) => StepModel {
                    next: MachineModel { memory: m.memory, pc: m.pc + 2, state: State::Running },
                    consumed: false,
                    emitted: Some(value),
                },
                None => stopped(m, State::Faulted(Fault::AddressFault)),
            },
        }
    }
}

/// What one step of a running machine did.
#[derive(Clone, Copy, Debug, PartialEq, Eq, Structural)]
pub struct Step {
    /// The state after the step.
    pub state: State,
    /// The program counter after the step.
    pub pc: usize,
    /// Whether the step took the offered input word.
    pub consumed: bool,
    /// The word that the step sent to the output sink.
    pub emitted: Option<i32>,
}

impl Step {
    /// The step as a mathematical value, given the memory it left.
    pub open spec fn model(self, memory: Seq<i32>) -> StepModel {
        StepModel {
            next: MachineModel { memory: memory, pc: self.pc as int, state: self.state },
            consumed: self.consumed,
            emitted: self.emitted,
        }
    }
}

fn settle(pc: usize, outcome: Result<usize, Fault>) -> (done: Step)
    ensures
        done.consumed == false,
        done.emitted is None,
        match outcome {
            Ok(next) => done.pc == next && done.state == State::Running,
            Err(fault) => done.pc == pc && done.state == State::Faulted(fault),
        },
{
    match outcome {
        Ok(next) => Step { state: State::Running, pc: next, consumed: false, emitted: None },
        Err(fault) => Step { state: State::Faulted(fault), pc: pc, consumed: false, emitted: None },
    }
}

/// Runs the instruction at `pc` on the memory `v` of a running machine.
pub fn execute_step(v: &mut Vec<i32>, pc: usize, next_input: Option<i32>) -> (done: Step)
    ensures
        done.model(final(v)@) == spec_step(
            MachineModel { memory: old(v)@, pc: pc as int, state: State::Running },
            next_input,
        ),
        final(v)@.len() == old(v)@.len(),
        done.pc <= old(v)@.len() || done.pc == pc,
{
    if pc >= v.len() {
        return Step {
            state: State::Faulted(Fault::AddressFault),
            pc: pc,
            consumed: false,
            emitted: None,
        };
    }
    let operator = get_operator(v[pc]);
    match operator.instruction {
        Instruction::Halt => Step { state: State::Halted, pc: pc, consumed: false, emitted: None },
        Instruction::Unknown => Step {
            state: State::Faulted(Fault::DecodeFault),
            pc: pc,
            consumed: false,
            emitted: None,
        },
        Instruction::Add => settle(pc, add_instruction(v, pc, &operator)),
        Instruction::Multiply => settle(pc, mult_instruction(v, pc, &operator)),
        Instruction::LessThan => settle(pc, less_than_instruction(v, pc, &operator)),
        Instruction::Equals => settle(pc, equals_instruction(v, pc, &operator)),
        Instruction::JumpIfTrue => settle(pc, jump_if_true_instruction(v.as_slice(), pc, &operator)),
        Instruction::JumpIfFalse => settle(
            pc,
            jump_if_false_instruction(v.as_slice(), pc, &operator),
        ),
        Instruction::Input => match input_instruction(v, pc, next_input) {
            Ok(next) => Step { state: State::Running, pc: next, consumed: true, emitted: None },
            Err(fault) => Step {
                state: State::Faulted(fault),
                pc: pc,
                consumed: false,
                emitted: None,
            },
        },
        Instruction::Output => match output_instruction(v.as_slice(), pc, &operator) {
            Ok((next, value)) => Step {
                state: State::Running,
                pc: next,
                consumed: false,
                emitted: Some(value),
            },
            Err(fault) => Step {
                state: State::Faulted(fault),
                pc: pc,
                consumed: false,
                emitted: None,
            },
        },
    }
}

/// A run in progress as a mathematical value: the machine, how many input
/// words it has taken, and everything it has sent to the output sink.
pub struct RunModel {
    pub machine: MachineModel,
    pub consumed: nat,
    pub output: Seq<i32>,
}

/// A machine that has just been loaded with `program`.
pub open spec fn loaded(program: Seq<i32>) -> MachineModel {
    MachineModel { memory: program, pc: 0, state: State::Running }
}

/// A run of `machine` that has taken no input yet and appends to `output`.
pub open spec fn starting(machine: MachineModel, output: Seq<i32>) -> RunModel {
    RunModel { machine: machine, consumed: 0, output: output }
}

/// What the input source `input` offers after `consumed` words were taken.
pub open spec fn offered(input: Seq<i32>, consumed: nat) -> Option<i32> {
    if consumed < input.len() {
        Some(input[consumed as int])
    } else {
        None
    }
}

/// The run `r` one step later.
pub open spec fn spec_advance(r: RunModel, input: Seq<i32>) -> RunModel {
    let step = spec_step(r.machine, offered(input, r.consumed));
    RunModel {
        machine: step.next,
        consumed: if step.consumed {
            r.consumed + 1
        } else {
            r.consumed
        },
        output: match step.emitted {
            Some(value) => r.output.push(value),
            None => r.output,
        },
    }
}

/// The run `r` after it has stepped until the machine no longer runs, or for
/// `steps` steps if that comes first.
pub open spec fn spec_run(r: RunModel, input: Seq<i32>, steps: nat) -> RunModel
    decreases steps,
{
    if steps == 0 || r.machine.state != State::Running {
        r
    } else {
        spec_run(spec_advance(r, input), input, (steps - 1) as nat)
    }
}

/// Where a run stopped.
#[derive(Clone, Copy, Debug, PartialEq, Eq, Structural)]
pub struct Stop {
    /// The state of the machine; `Running` if the step budget ran out first.
    pub state: State,
    /// The program counter; after a fault, that of the faulting instruction.
    pub pc: usize,
    /// How many input words the run took.
    pub consumed: usize,
}

impl Stop {
    /// The finished run as a mathematical value, given the memory and the
    /// output it left.
    pub open spec fn model(self, memory: Seq<i32>, output: Seq<i32>) -> RunModel {
        RunModel {
            machine: MachineModel { memory: memory, pc: self.pc as int, state: self.state },
            consumed: self.consumed as nat,
            output: output,
        }
    }
}

/// Steps a running machine with memory `v` from `pc` until it halts or
/// faults, for at most `max_steps` steps.
pub fn execute(
    v: &mut Vec<i32>,
    pc: usize,
    input: &[i32],
    output: &mut Vec<i32>,
    max_steps: u64,
) -> (stop: Stop)
    ensures
        stop.model(final(v)@, final(output)@) == spec_run(
            starting(
                MachineModel { memory: old(v)@, pc: pc as int, state: State::Running },
                old(output)@,
            ),
            input@,
            max_steps as nat,
        ),
        final(v)@.len() == old(v)@.len(),
        stop.consumed <= input@.len(),
{
    let ghost goal = spec_run(
        starting(
            MachineModel { memory: v@, pc: pc as int, state: State::Running },
            output@,
        ),
        input@,
        max_steps as nat,
    );
    let ghost length = v@.len();
    let mut stop = Stop { state: State::Running, pc: pc, consumed: 0 };
    let mut steps: u64 = 0;
    while steps < max_steps && stop.state == State::Running
        invariant
            steps <= max_steps,
            stop.consumed <= input@.len(),
            v@.len() == length,
            spec_run(stop.model(v@, output@), input@, (max_steps - steps) as nat) == goal,
        decreases max_steps - steps,
    {
        let next_input: Option<i32> = if stop.consumed < input.len() {
            Some(input[stop.consumed])
        } else {
            None
        };
        let ghost before = stop.model(v@, output@);
        let done = execute_step(v, stop.pc, next_input);
        if let Some(value) = done.emitted {
            output.push(value);
        }
        stop = Stop {
            state: done.state,
            pc: done.pc,
            consumed: if done.consumed {
                stop.consumed + 1
            } else {
                stop.consumed
            },
        };
        steps = steps + 1;
        assert(stop.model(v@, output@) == spec_advance(before, input@));
    }
    stop
}

/// What a faulted machine shows of its fault.
#[derive(Clone, Copy, Debug, PartialEq, Eq, Structural)]
pub struct FaultReport {
    /// The program counter of the instruction that faulted.
    pub pc: usize,
    /// The word at that position; `None` where the position is outside memory.
    pub word: Option<i32>,
    /// The kind of fault.
    pub fault: Fault,
}

/// The report of the machine `m`: none unless it has faulted.
pub open spec fn spec_fault_report(m: MachineModel) -> Option<FaultReport> {
    match m.state {
        State::Faulted(fault) => Some(
            FaultReport {
                pc: m.pc as usize,
                word: if in_range(m.memory, m.pc) {
                    Some(m.memory[m.pc])
                } else {
                    None
                },
                fault: fault,
            },
        ),
        _ => None,
    }
}

/// Whether the next step of `m` is an input instruction, so that it will ask
/// the input source for a word.
pub open spec fn spec_awaits_input(m: MachineModel) -> bool {
    m.state == State::Running && in_range(m.memory, m.pc) && spec_decode(
        m.memory[m.pc],
    ).instruction == Instruction::Input
}

/// A machine: its memory, its program counter and its state.
pub struct Machine {
    pub memory: Vec<i32>,
    pub pc: usize,
    pub state: State,
}

impl View for Machine {
    type V = MachineModel;

    open spec fn view(&self) -> MachineModel {
        MachineModel { memory: self.memory@, pc: self.pc as int, state: self.state }
    }
}

impl Machine {
    /// Loads `program` into a machine that runs from position 0.
    pub fn new(program: Vec<i32>) -> (machine: Machine)
        ensures
            machine@ == loaded(program@),
    {
        Machine { memory: program, pc: 0, state: State::Running }
    }

    /// Whether the next step will ask the input source for a word.
    pub fn awaits_input(&self) -> (waiting: bool)
        ensures
            waiting == spec_awaits_input(self@),
    {
        self.state == State::Running && self.pc < self.memory.len() && get_operator(
            self.memory[self.pc],
        ).instruction == Instruction::Input
    }

    /// Performs one step. `next_input` is the word that the input source
    /// offers, `None` if it has run dry; the result says whether it was taken.
    pub fn step(&mut self, next_input: Option<i32>) -> (done: Step)
        ensures
            done.model(final(self).memory@) == spec_step(old(self)@, next_input),
            final(self)@ == spec_step(old(self)@, next_input).next,
    {
        if self.state == State::Running {
            let done = execute_step(&mut self.memory, self.pc, next_input);
            self.pc = done.pc;
            self.state = done.state;
            done
        } else {
            Step { state: self.state, pc: self.pc, consumed: false, emitted: None }
        }
    }

    /// Steps until the machine no longer runs, for at most `max_steps`
    /// steps. Input words are taken from `input` in order, output words are
    /// appended to `output`. Returns how many input words were taken.
    pub fn run(&mut self, input: &[i32], output: &mut Vec<i32>, max_steps: u64) -> (consumed: usize)
        ensures
            (RunModel { machine: final(self)@, consumed: consumed as nat, output: final(output)@ })
                == spec_run(starting(old(self)@, old(output)@), input@, max_steps as nat),
            consumed <= input@.len(),
    {
        if self.state == State::Running {
            let stop = execute(&mut self.memory, self.pc, input, output, max_steps);
            self.pc = stop.pc;
            self.state = stop.state;
            stop.consumed
        } else {
            0
        }
    }

    /// After a fault: the faulting position, the word there and the kind of
    /// fault.
    pub fn fault_report(&self) -> (report: Option<FaultReport>)
        ensures
            report == spec_fault_report(self@),
    {
        match self.state {
            State::Faulted(fault) => Some(
                FaultReport {
                    pc: self.pc,
                    word: if self.pc < self.memory.len() {
                        Some(self.memory[self.pc])
                    } else {
                        None
                    },
                    fault: fault,
                },
            ),
            _ => None,
        }
    }
}

/// Runs `program` from position 0 until it halts or faults, for at most
/// `max_steps` steps, and returns the final memory and state.
pub fn run(program: Vec<i32>, input: &[i32], output: &mut Vec<i32>, max_steps: u64) -> (finished: (
    Vec<i32>,
    State,
))
    ensures
        ({
            let r = spec_run(starting(loaded(program@), old(output)@), input@, max_steps as nat);
            &&& finished.0@ == r.machine.memory
            &&& finished.1 == r.machine.state
            &&& final(output)@ == r.output
        }),
{
    let mut memory = program;
    let stop = execute(&mut memory, 0, input, output, max_steps);
    (memory, stop.state)
}

/// Runs the program in `v` in place from position 0 until it halts or
/// faults, for at most `max_steps` steps.
pub fn get_mutated_sequence(
    v: &mut Vec<i32>,
    input: &[i32],
    output: &mut Vec<i32>,
    max_steps: u64,
) -> (stop: Stop)
    ensures
        stop.model(final(v)@, final(output)@) == spec_run(
            starting(loaded(old(v)@), old(output)@),
            input@,
            max_steps as nat,
        ),
        final(v)@.len() == old(v)@.len(),
{
    execute(v, 0, input, output, max_steps)
}

} // verus!
