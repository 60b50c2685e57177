//! The eight atomic operations of the tape language, with their
//! bidirectional mapping to single source characters.

use vstd::prelude::*;
use vstd::string::StringExecFns;

verus! {

/// One of the eight atomic operations of the interpreted language.
#[derive(PartialEq, Eq, Debug, Clone, Copy)]
pub enum Instruction {
    /// Move the memory pointer one to the right
    Right,
    /// Move the memory pointer one to the left
    Left,
    /// Increment the value at the memory pointer
    Increment,
    /// Decrement the value at the memory pointer
    Decrement,
    /// If the value at the memory pointer is zero, jump forwards past the
    /// matching `EndLoop`; else, continue to the next instruction
    StartLoop,
    /// If the value at the memory pointer is non-zero, jump back to the
    /// matching `StartLoop`; else, continue to the next instruction
    EndLoop,
    /// Accept one byte of input and store it in the value at the memory pointer
    Input,
    /// Output the low byte of the value at the memory pointer
    Output,
}

impl Instruction {
    /// The canonical single-character textual form of this instruction.
    pub open spec fn char_rep(self) -> char {
        match self {
            Instruction::Right => '>',
            Instruction::Left => '<',
            Instruction::Increment => '+',
            Instruction::Decrement => '-',
            Instruction::StartLoop => '[',
            Instruction::EndLoop => ']',
            Instruction::Input => ',',
            Instruction::Output => '.',
        }
    }

    /// The instruction a character stands for, or `None` for the
    /// (infinitely many) characters that are comments.
    pub open spec fn spec_from_char(character: char) -> Option<Instruction> {
        if character == '>' {
            Some(Instruction::Right)
        } else if character == '<' {
            Some(Instruction::Left)
        } else if character == '+' {
            Some(Instruction::Increment)
        } else if character == '-' {
            Some(Instruction::Decrement)
        } else if character == '[' {
            Some(Instruction::StartLoop)
        } else if character == ']' {
            Some(Instruction::EndLoop)
        } else if character == ',' {
            Some(Instruction::Input)
        } else if character == '.' {
            Some(Instruction::Output)
        } else {
            None
        }
    }

    /// Whether a character is one of the eight recognized instruction symbols.
    pub open spec fn is_symbol(character: char) -> bool {
        character == '>' || character == '<' || character == '+' || character == '-'
            || character == '[' || character == ']' || character == ',' || character == '.'
    }

    /// Parse a single character; any character outside the eight recognized
    /// ones is a comment and yields `None`.
    pub fn from_char(character: char) -> (result: Option<Self>)
        ensures
            result == Instruction::spec_from_char(character),
    {
        match character {
            '>' => Some(Instruction::Right),
            '<' => Some(Instruction::Left),
            '+' => Some(Instruction::Increment),
            '-' => Some(Instruction::Decrement),
            '[' => Some(Instruction::StartLoop),
            ']' => Some(Instruction::EndLoop),
            ',' => Some(Instruction::Input),
            '.' => Some(Instruction::Output),
            _ => None,
        }
    }

    /// The canonical one-character text of this instruction.
    pub fn to_string(&self) -> (result: String)
        ensures
            result@ == seq![self.char_rep()],
    {
        let text = match self {
            Instruction::Right => String::from_str(">"),
            Instruction::Left => String::from_str("<"),
            Instruction::Increment => String::from_str("+"),
            Instruction::Decrement => String::from_str("-"),
            Instruction::StartLoop => String::from_str("["),
            Instruction::EndLoop => String::from_str("]"),
            Instruction::Input => String::from_str(","),
            Instruction::Output => String::from_str("."),
        };
        proof {
            reveal_strlit(">");
            reveal_strlit("<");
            reveal_strlit("+");
            reveal_strlit("-");
            reveal_strlit("[");
            reveal_strlit("]");
            reveal_strlit(",");
            reveal_strlit(".");
            assert(text@ =~= seq![self.char_rep()]);
        }
        text
    }
}

/// Every character outside the set of the eight recognized symbols parses
/// to `None` — it is a comment — and each of the eight parses to the
/// instruction whose canonical character it is: parsing then rendering
/// reproduces the original character.
pub proof fn lemma_symbol_round_trip(character: char)
    ensures
        !Instruction::is_symbol(character) ==> Instruction::spec_from_char(character) is None,
        Instruction::is_symbol(character) ==> Instruction::spec_from_char(character) is Some,
        Instruction::spec_from_char(character) matches Some(instruction) ==> instruction.char_rep()
            == character,
{
}

/// Rendering an instruction to its character and parsing it back yields the
/// same instruction: the round trip symbol-to-character-to-symbol is lossless
/// for all eight symbols.
pub proof fn lemma_instruction_round_trip(instruction: Instruction)
    ensures
        Instruction::spec_from_char(instruction.char_rep()) == Some(instruction),
{
}

} // verus!
