//! From an instruction word to an instruction kind and three addressing modes.

use vstd::prelude::*;

verus! {

/// How a read parameter is interpreted.
#[derive(Clone, Copy, Debug, PartialEq, Eq, Structural)]
pub enum ParameterMode {
    /// The parameter is the index of the cell that holds the value.
    Position,
    /// The parameter is the value.
    Immediate,
}

/// The closed set of instruction kinds.
#[derive(Clone, Copy, Debug, PartialEq, Eq, Structural)]
pub enum Instruction {
    Add,
    Multiply,
    Input,
    Output,
    JumpIfTrue,
    JumpIfFalse,
    LessThan,
    Equals,
    Unknown,
    Halt,
}

/// A decoded instruction word.
#[derive(Clone, Copy, Debug, PartialEq, Eq, Structural)]
pub struct Operator {
    pub instruction: Instruction,
    pub param1: ParameterMode,
    pub param2: ParameterMode,
    pub param3: ParameterMode,
}

impl ParameterMode {
    /// The mode that a decimal digit of an instruction word selects.
    pub open spec fn of_digit(digit: int) -> ParameterMode {
        if digit == 1 {
            ParameterMode::Immediate
        } else {
            ParameterMode::Position
        }
    }

    /// The mode that one character of a written instruction word selects.
    pub open spec fn of_char(x: char) -> ParameterMode {
        if x == '1' {
            ParameterMode::Immediate
        } else {
            ParameterMode::Position
        }
    }

    /// `'1'` selects `Immediate`; every other character selects `Position`.
    pub fn from_char(x: char) -> (mode: ParameterMode)
        ensures
            mode == Self::of_char(x),
    {
        if x == '1' {
            ParameterMode::Immediate
        } else {
            ParameterMode::Position
        }
    }

    fn from_digit(digit: i64) -> (mode: ParameterMode)
        ensures
            mode == Self::of_digit(digit as int),
    {
        if digit == 1 {
            ParameterMode::Immediate
        } else {
            ParameterMode::Position
        }
    }
}

impl Instruction {
    /// The instruction that an opcode number names.
    pub open spec fn of_code(x: int) -> Instruction {
        if x == 1 {
            Instruction::Add
        } else if x == 2 {
            Instruction::Multiply
        } else if x == 3 {
            Instruction::Input
        } else if x == 4 {
            Instruction::Output
        } else if x == 5 {
            Instruction::JumpIfTrue
        } else if x == 6 {
            Instruction::JumpIfFalse
        } else if x == 7 {
            Instruction::LessThan
        } else if x == 8 {
            Instruction::Equals
        } else if x == 99 {
            Instruction::Halt
        } else {
            Instruction::Unknown
        }
    }

    /// Maps 1 to 8 and 99 to their instructions and everything else to
    /// `Unknown`.
    pub fn from_i32(x: i32) -> (instruction: Instruction)
        ensures
            instruction == Self::of_code(x as int),
    {
        match x {
            1 => Instruction::Add,
            2 => Instruction::Multiply,
            3 => Instruction::Input,
            4 => Instruction::Output,
            5 => Instruction::JumpIfTrue,
            6 => Instruction::JumpIfFalse,
            7 => Instruction::LessThan,
            8 => Instruction::Equals,
            99 => Instruction::Halt,
            _ => Instruction::Unknown,
        }
    }
}

/// The word without its sign.
pub open spec fn magnitude(word: int) -> int {
    if word < 0 {
        -word
    } else {
        word
    }
}

/// The decimal digit of `word` at `place`, where place 0 is the units.
pub open spec fn decimal_digit(word: int, place: nat) -> int
    decreases place,
{
    if place == 0 {
        magnitude(word) % 10
    } else {
        decimal_digit(magnitude(word) / 10, (place - 1) as nat)
    }
}

/// The number that the two lowest decimal digits of `word` form.
///
/// A negative word of a single digit has a sign where its tens digit would
/// stand, so it names no instruction: it keeps its negative value here.
pub open spec fn opcode_of(word: int) -> int {
    if -10 < word < 0 {
        word
    } else {
        magnitude(word) % 100
    }
}

/// What an instruction word means: the opcode in its two lowest decimal
/// digits, then one mode digit each for the first, second and third parameter
/// in the hundreds, thousands and ten-thousands place.
pub open spec fn spec_decode(word: i32) -> Operator {
    Operator {
        instruction: Instruction::of_code(opcode_of(word as int)),
        param1: ParameterMode::of_digit(magnitude(word as int) / 100 % 10),
        param2: ParameterMode::of_digit(magnitude(word as int) / 1000 % 10),
        param3: ParameterMode::of_digit(magnitude(word as int) / 10000 % 10),
    }
}

/// The mode digits that `spec_decode` reads are the decimal digits of the
/// word at places 2, 3 and 4, and the opcode of a word that is not a negative
/// single digit is ten times its tens digit plus its units digit.
pub proof fn lemma_decode_reads_decimal_digits(word: i32)
    ensures
        spec_decode(word).param1 == ParameterMode::of_digit(decimal_digit(word as int, 2)),
        spec_decode(word).param2 == ParameterMode::of_digit(decimal_digit(word as int, 3)),
        spec_decode(word).param3 == ParameterMode::of_digit(decimal_digit(word as int, 4)),
        !(-10 < word < 0) ==> opcode_of(word as int) == 10 * decimal_digit(word as int, 1)
            + decimal_digit(word as int, 0),
{
    let m = magnitude(word as int);
    reveal_with_fuel(decimal_digit, 6);
    assert(m / 10 / 10 == m / 100);
    assert(m / 100 / 10 == m / 1000);
    assert(m / 1000 / 10 == m / 10000);
    assert(magnitude(m / 10) == m / 10);
    assert(magnitude(m / 100) == m / 100);
    assert(magnitude(m / 1000) == m / 1000);
    assert(magnitude(m / 10000) == m / 10000);
}

/// Decodes an instruction word. Decoding never fails: a word whose opcode
/// names no instruction decodes to `Unknown`.
pub fn get_operator(op_codes: i32) -> (operator: Operator)
    ensures
        operator == spec_decode(op_codes),
{
    let wide: i64 = op_codes as i64;
    let digits: i64 = if wide < 0 {
        -wide
    } else {
        wide
    };
    let code: i32 = if -10 < op_codes && op_codes < 0 {
        op_codes
    } else {
        (digits % 100) as i32
    };
    Operator {
        instruction: Instruction::from_i32(code),
        param1: ParameterMode::from_digit(digits / 100 % 10),
        param2: ParameterMode::from_digit(digits / 1000 % 10),
        param3: ParameterMode::from_digit(digits / 10000 % 10),
    }
}

} // verus!
