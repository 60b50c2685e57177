//! An ordered, immutable-once-built sequence of instructions, produced by
//! filtering a source text down to recognized symbols.

use crate::instruction::Instruction;
use vstd::prelude::*;
use vstd::string::{StrSliceExecFns, StringExecFns};

verus! {

/// An ordered sequence of instructions produced from source text.
///
/// No invariant is enforced on bracket balance: a program may contain
/// unmatched `StartLoop`/`EndLoop` symbols, which is a runtime error
/// condition, not a construction-time one.
#[derive(PartialEq, Eq, Debug)]
pub struct Program {
    pub inner: Vec<Instruction>,
}

/// The instruction sequence a source text denotes: each recognized symbol in
/// order, every other character silently dropped as a comment.
pub open spec fn build_spec(source: Seq<char>) -> Seq<Instruction>
    decreases source.len(),
{
    if source.len() == 0 {
        Seq::empty()
    } else {
        let rest = build_spec(source.drop_last());
        match Instruction::spec_from_char(source.last()) {
            Some(instruction) => rest.push(instruction),
            None => rest,
        }
    }
}

/// The canonical text of an instruction sequence: the concatenation of each
/// instruction's single character, in order.
pub open spec fn text_spec(program: Seq<Instruction>) -> Seq<char>
    decreases program.len(),
{
    if program.len() == 0 {
        Seq::empty()
    } else {
        text_spec(program.drop_last()).push(program.last().char_rep())
    }
}

/// A source text with every comment character removed: only the recognized
/// instruction symbols remain, in order.
pub open spec fn strip_comments(source: Seq<char>) -> Seq<char>
    decreases source.len(),
{
    if source.len() == 0 {
        Seq::empty()
    } else {
        let rest = strip_comments(source.drop_last());
        if Instruction::is_symbol(source.last()) {
            rest.push(source.last())
        } else {
            rest
        }
    }
}

impl Program {
    /// Parse a program from source text by scanning it character by
    /// character, keeping the mapped instruction whenever the character is a
    /// recognized symbol and skipping it silently otherwise. Always succeeds;
    /// does no validation (e.g. of matching brackets).
    pub fn from_string(input: String) -> (program: Self)
        ensures
            program.inner@ == build_spec(input@),
    {
        let source: &str = input.as_str();
        let length = source.unicode_len();
        let mut inner: Vec<Instruction> = Vec::new();
        let mut index: usize = 0;
        while index < length
            invariant
                index <= length,
                length == source@.len(),
                inner@ == build_spec(source@.take(index as int)),
            decreases length - index,
        {
            let character = source.get_char(index);
            if let Some(instruction) = Instruction::from_char(character) {
                inner.push(instruction);
            }
            proof {
                assert(source@.take(index + 1).drop_last() =~= source@.take(index as int));
                assert(source@.take(index + 1).last() == character);
            }
            index = index + 1;
        }
        proof {
            assert(source@.take(length as int) =~= source@);
        }
        Program { inner }
    }

    /// The canonical serialization of this program: each instruction's single
    /// character concatenated in order, a normalized (comment-free) version
    /// of the source text it was built from.
    pub fn to_string(&self) -> (text: String)
        ensures
            text@ == text_spec(self.inner@),
    {
        let mut text = String::new();
        let mut index: usize = 0;
        while index < self.inner.len()
            invariant
                index <= self.inner.len(),
                text@ == text_spec(self.inner@.take(index as int)),
            decreases self.inner.len() - index,
        {
            let piece = self.inner[index].to_string();
            text.append(piece.as_str());
            proof {
                assert(self.inner@.take(index + 1).drop_last() =~= self.inner@.take(index as int));
                assert(text@ =~= text_spec(self.inner@.take(index + 1)));
            }
            index = index + 1;
        }
        proof {
            assert(self.inner@.take(self.inner@.len() as int) =~= self.inner@);
        }
        text
    }
}

/// Round trip through text: building a program from the canonical text of
/// any program yields that program again. Nothing is dropped, since a
/// program already contains no comments.
pub proof fn lemma_text_round_trip(program: Seq<Instruction>)
    ensures
        build_spec(text_spec(program)) == program,
    decreases program.len(),
{
    if program.len() == 0 {
        assert(build_spec(text_spec(program)) =~= program);
    } else {
        lemma_text_round_trip(program.drop_last());
        let text = text_spec(program);
        assert(text.drop_last() =~= text_spec(program.drop_last()));
        assert(text.last() == program.last().char_rep());
        crate::instruction::lemma_instruction_round_trip(program.last());
        assert(build_spec(text) =~= program);
    }
}

/// Building is deterministic: equal source texts always yield equal
/// programs.
pub proof fn lemma_build_deterministic(source_a: Seq<char>, source_b: Seq<char>)
    requires
        source_a == source_b,
    ensures
        build_spec(source_a) == build_spec(source_b),
{
}

/// Comment characters interspersed anywhere do not change the resulting
/// program: building a source text yields the same program as building the
/// same text with its comments stripped.
pub proof fn lemma_comments_ignored(source: Seq<char>)
    ensures
        build_spec(strip_comments(source)) == build_spec(source),
    decreases source.len(),
{
    if source.len() == 0 {
        assert(build_spec(strip_comments(source)) =~= build_spec(source));
    } else {
        lemma_comments_ignored(source.drop_last());
        if Instruction::is_symbol(source.last()) {
            let stripped = strip_comments(source);
            assert(stripped.drop_last() =~= strip_comments(source.drop_last()));
            assert(stripped.last() == source.last());
            assert(build_spec(strip_comments(source)) =~= build_spec(source));
        } else {
            assert(build_spec(strip_comments(source)) =~= build_spec(source));
        }
    }
}

} // verus!
