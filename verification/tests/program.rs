use brainfuck_lib::instruction::Instruction;
use brainfuck_lib::program::Program;

const PROGRAM_STRING: &str = "[->+<],."; // meaningless but valid program with one of each character

fn get_program() -> Program {
    return Program {
        inner: vec![
            Instruction::StartLoop,
            Instruction::Decrement,
            Instruction::Right,
            Instruction::Increment,
            Instruction::Left,
            Instruction::EndLoop,
            Instruction::Input,
            Instruction::Output,
        ],
    };
}

#[test]
fn simple_program_from_string() {
    assert_eq!(
        get_program(),
        Program::from_string(PROGRAM_STRING.to_string())
    );
}

#[test]
fn simple_program_to_string() {
    assert_eq!(get_program().to_string(), PROGRAM_STRING.to_string())
}

#[test]
fn simple_program_to_string_to_program() {
    assert_eq!(
        get_program(),
        Program::from_string(get_program().to_string())
    )
}

#[test]
fn simple_program_from_string_to_string() {
    assert_eq!(
        PROGRAM_STRING.to_string(),
        Program::from_string(PROGRAM_STRING.to_string()).to_string()
    )
}

#[test]
fn building_twice_is_deterministic() {
    let source = "some text [->+<] more text ,.";
    assert_eq!(
        Program::from_string(source.to_string()),
        Program::from_string(source.to_string())
    );
}

#[test]
fn comments_do_not_change_the_program() {
    let commented = "read a byte , then loop: [ subtract - and shift > add + back < ] print .";
    let stripped = ",[->+<].";
    assert_eq!(
        Program::from_string(commented.to_string()),
        Program::from_string(stripped.to_string())
    );
}

#[test]
fn empty_source_builds_empty_program() {
    assert_eq!(Program::from_string(String::new()), Program { inner: vec![] });
}
