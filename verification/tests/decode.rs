use ship_systems::intcode::decode::{get_operator, Instruction, Operator, ParameterMode};

#[test]
fn test_op_code_parser() {
    let op = get_operator(1002);

    assert_eq!(Instruction::Multiply, op.instruction);
    assert_eq!(ParameterMode::Position, op.param1);
    assert_eq!(ParameterMode::Immediate, op.param2);
    assert_eq!(ParameterMode::Position, op.param3);
}

fn operator(
    instruction: Instruction,
    param1: ParameterMode,
    param2: ParameterMode,
    param3: ParameterMode,
) -> Operator {
    Operator { instruction, param1, param2, param3 }
}

#[test]
fn short_words_have_position_modes() {
    let position = ParameterMode::Position;
    assert_eq!(get_operator(1), operator(Instruction::Add, position, position, position));
    assert_eq!(get_operator(2), operator(Instruction::Multiply, position, position, position));
    assert_eq!(get_operator(3), operator(Instruction::Input, position, position, position));
    assert_eq!(get_operator(4), operator(Instruction::Output, position, position, position));
    assert_eq!(get_operator(5), operator(Instruction::JumpIfTrue, position, position, position));
    assert_eq!(get_operator(6), operator(Instruction::JumpIfFalse, position, position, position));
    assert_eq!(get_operator(7), operator(Instruction::LessThan, position, position, position));
    assert_eq!(get_operator(8), operator(Instruction::Equals, position, position, position));
    assert_eq!(get_operator(99), operator(Instruction::Halt, position, position, position));
}

#[test]
fn each_mode_digit_sets_its_own_parameter() {
    let position = ParameterMode::Position;
    let immediate = ParameterMode::Immediate;
    assert_eq!(get_operator(101), operator(Instruction::Add, immediate, position, position));
    assert_eq!(get_operator(1001), operator(Instruction::Add, position, immediate, position));
    assert_eq!(get_operator(10001), operator(Instruction::Add, position, position, immediate));
    assert_eq!(get_operator(11101), operator(Instruction::Add, immediate, immediate, immediate));
    assert_eq!(get_operator(1108), operator(Instruction::Equals, immediate, immediate, position));
    assert_eq!(get_operator(104), operator(Instruction::Output, immediate, position, position));
    assert_eq!(get_operator(1199), operator(Instruction::Halt, immediate, immediate, position));
}

#[test]
fn only_the_digit_one_is_immediate() {
    let position = ParameterMode::Position;
    let immediate = ParameterMode::Immediate;
    assert_eq!(get_operator(201), operator(Instruction::Add, position, position, position));
    assert_eq!(get_operator(9901), operator(Instruction::Add, position, position, position));
    assert_eq!(get_operator(21002), operator(Instruction::Multiply, position, immediate, position));
    assert_eq!(get_operator(100001), operator(Instruction::Add, position, position, position));
    assert_eq!(get_operator(110001), operator(Instruction::Add, position, position, immediate));
}

#[test]
fn opcodes_beyond_the_nine_are_unknown() {
    for word in [0, 9, 10, 11, 98, 100, 109, 198, 1000, 55, 12345, i32::MAX] {
        assert_eq!(get_operator(word).instruction, Instruction::Unknown);
    }
    assert_eq!(get_operator(1099).instruction, Instruction::Halt);
    assert_eq!(get_operator(1000).param2, ParameterMode::Immediate);
}

#[test]
fn negative_words_decode_by_their_digits() {
    let position = ParameterMode::Position;
    let immediate = ParameterMode::Immediate;
    for word in [-1, -2, -5, -8, -9] {
        assert_eq!(
            get_operator(word),
            operator(Instruction::Unknown, position, position, position)
        );
    }
    assert_eq!(get_operator(-99), operator(Instruction::Halt, position, position, position));
    assert_eq!(get_operator(-10), operator(Instruction::Unknown, position, position, position));
    assert_eq!(get_operator(-105), operator(Instruction::JumpIfTrue, immediate, position, position));
    assert_eq!(get_operator(-1002), operator(Instruction::Multiply, position, immediate, position));
    assert_eq!(
        get_operator(i32::MIN),
        operator(Instruction::Unknown, position, position, position)
    );
    assert_eq!(get_operator(-2147413602).instruction, Instruction::Multiply);
    assert_eq!(get_operator(-2147413602).param3, ParameterMode::Immediate);
}

#[test]
fn decoding_twice_gives_the_same_operator() {
    for word in [1, 1002, 99, -7, 0, 31103, i32::MIN, i32::MAX] {
        assert_eq!(get_operator(word), get_operator(word));
    }
}

#[test]
fn mode_from_char() {
    assert_eq!(ParameterMode::from_char('1'), ParameterMode::Immediate);
    assert_eq!(ParameterMode::from_char('0'), ParameterMode::Position);
    assert_eq!(ParameterMode::from_char('2'), ParameterMode::Position);
    assert_eq!(ParameterMode::from_char('-'), ParameterMode::Position);
    assert_eq!(ParameterMode::from_char('x'), ParameterMode::Position);
}

#[test]
fn instruction_from_i32() {
    assert_eq!(Instruction::from_i32(1), Instruction::Add);
    assert_eq!(Instruction::from_i32(2), Instruction::Multiply);
    assert_eq!(Instruction::from_i32(3), Instruction::Input);
    assert_eq!(Instruction::from_i32(4), Instruction::Output);
    assert_eq!(Instruction::from_i32(5), Instruction::JumpIfTrue);
    assert_eq!(Instruction::from_i32(6), Instruction::JumpIfFalse);
    assert_eq!(Instruction::from_i32(7), Instruction::LessThan);
    assert_eq!(Instruction::from_i32(8), Instruction::Equals);
    assert_eq!(Instruction::from_i32(99), Instruction::Halt);
    for code in [0, 9, 10, 98, 100, -1, -99, i32::MIN, i32::MAX] {
        assert_eq!(Instruction::from_i32(code), Instruction::Unknown);
    }
}
