use brainfuck_lib::instruction::Instruction;

#[test]
fn char_to_instruction_to_char_matches() {
    for character in "><+-[],.".chars() {
        assert_eq!(
            character,
            Instruction::from_char(character)
                .unwrap()
                .to_string()
                .chars()
                .next()
                .unwrap()
        )
    }
}

#[test]
fn instruction_to_char_to_instruction_matches() {
    for instruction in [
        Instruction::Right,
        Instruction::Left,
        Instruction::Increment,
        Instruction::Decrement,
        Instruction::StartLoop,
        Instruction::EndLoop,
        Instruction::Input,
        Instruction::Output,
    ] {
        assert_eq!(
            instruction,
            Instruction::from_char(instruction.to_string().chars().next().unwrap()).unwrap()
        )
    }
}

#[test]
fn comment_characters_are_not_instructions() {
    for character in "abc XYZ0129_\n\t{}()#;:'\"|/\\~^%$@!?=&*".chars() {
        assert_eq!(Instruction::from_char(character), None);
    }
}
