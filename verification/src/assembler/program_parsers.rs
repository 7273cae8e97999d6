//! A program: a sequence of instructions and its encoding.

use vstd::prelude::*;
use crate::assembler::instruction_parsers::{
    AssemblerInstruction, instruction, lemma_parsed_instruction, spec_instruction,
};
use crate::assembler::{EncodeError, ParseError};

verus! {

/// A parsed program.
#[derive(Debug, PartialEq, Eq)]
pub struct Program {
    pub instructions: Vec<AssemblerInstruction>,
}

/// The encodings of a sequence of instructions, back to back.
pub open spec fn program_bytes(instructions: Seq<AssemblerInstruction>) -> Seq<u8>
    decreases instructions.len(),
{
    if instructions.len() == 0 {
        Seq::empty()
    } else {
        program_bytes(instructions.drop_last()) + instructions.last().bytes()
    }
}

impl Program {
    /// A program all of whose instructions can be encoded.
    pub open spec fn wf(&self) -> bool {
        forall|i: int| 0 <= i < self.instructions@.len() ==> (#[trigger] self.instructions@[i]).wf()
    }

    /// Encodes the program, or says why its first instruction that cannot be
    /// encoded cannot.
    pub fn encode(&self) -> (r: Result<Vec<u8>, EncodeError>)
        ensures
            match r {
                Ok(bytes) => self.wf() && bytes@ == program_bytes(self.instructions@),
                Err(e) => exists|i: int|
                    0 <= i < self.instructions@.len() && (forall|j: int|
                        0 <= j < i ==> (#[trigger] self.instructions@[j]).wf())
                        && self.instructions@[i].encoding_error() == Some(e),
            },
    {
        let mut i: usize = 0;
        while i < self.instructions.len()
            invariant
                i <= self.instructions.len(),
                forall|j: int| 0 <= j < i ==> (#[trigger] self.instructions@[j]).wf(),
            decreases self.instructions.len() - i,
        {
            match self.instructions[i].check() {
                None => {},
                Some(e) => return Err(e),
            }
            i += 1;
        }
        Ok(self.to_bytes())
    }

    /// Encodes a program whose tokens are all in place: its instructions'
    /// encodings in order, with nothing between them.
    pub fn to_bytes(&self) -> (program: Vec<u8>)
        requires
            self.wf(),
        ensures
            program@ == program_bytes(self.instructions@),
    {
        let mut program: Vec<u8> = Vec::new();
        let mut i: usize = 0;
        while i < self.instructions.len()
            invariant
                i <= self.instructions.len(),
                self.wf(),
                program@ == program_bytes(self.instructions@.take(i as int)),
            decreases self.instructions.len() - i,
        {
            let mut encoded = self.instructions[i].to_bytes();
            program.append(&mut encoded);
            assert(self.instructions@.take(i + 1).drop_last() =~= self.instructions@.take(
                i as int,
            ));
            i += 1;
        }
        assert(self.instructions@.take(i as int) =~= self.instructions@);
        program
    }
}

/// Instructions one after the other, as many as the text starts with: the
/// text that is left, and the instructions.
pub open spec fn spec_instructions(s: Seq<char>) -> (Seq<char>, Seq<AssemblerInstruction>)
    decreases s.len(),
{
    match spec_instruction(s) {
        Ok((rest, instruction)) => if rest.len() < s.len() {
            let (left, more) = spec_instructions(rest);
            (left, seq![instruction] + more)
        } else {
            (s, Seq::empty())
        },
        Err(_) => (s, Seq::empty()),
    }
}

/// A program: one instruction or more.
pub open spec fn spec_program(s: Seq<char>) -> Result<
    (Seq<char>, Seq<AssemblerInstruction>),
    ParseError,
> {
    match spec_instruction(s) {
        Ok(_) => Ok(spec_instructions(s)),
        Err(e) => Err(e),
    }
}

/// The result of parsing a program, as a mathematical value: the text that
/// is left and the instructions, or the error.
pub open spec fn program_result_view(r: Result<(&str, Program), ParseError>) -> Result<
    (Seq<char>, Seq<AssemblerInstruction>),
    ParseError,
> {
    match r {
        Ok((rest, program)) => Ok((rest@, program.instructions@)),
        Err(e) => Err(e),
    }
}

/// Parses a program: instructions one after the other, until the text
/// starts with none. Fails when it starts with none at all.
pub fn program<'a>(input: &'a str) -> (r: Result<(&'a str, Program), ParseError>)
    ensures
        program_result_view(r) == spec_program(input@),
        r matches Ok((_, p)) ==> p.wf() && p.instructions@.len() > 0,
{
    let (mut rest, first) = match instruction(input) {
        Ok(found) => found,
        Err(e) => return Err(e),
    };
    proof {
        lemma_parsed_instruction(input@);
    }
    let mut instructions: Vec<AssemblerInstruction> = Vec::new();
    instructions.push(first);
    loop
        invariant
            instructions@.len() > 0,
            forall|i: int| 0 <= i < instructions@.len() ==> (#[trigger] instructions@[i]).wf(),
            spec_instructions(input@) == (
                spec_instructions(rest@).0,
                instructions@ + spec_instructions(rest@).1,
            ),
        decreases rest@.len(),
    {
        proof {
            lemma_parsed_instruction(rest@);
        }
        match instruction(rest) {
            Ok((left, next)) => {
                proof {
                    assert(instructions@.push(next) + spec_instructions(left@).1 =~= instructions@
                        + (seq![next] + spec_instructions(left@).1));
                }
                instructions.push(next);
                rest = left;
            },
            Err(_) => {
                proof {
                    assert(instructions@ + Seq::<AssemblerInstruction>::empty() =~= instructions@);
                }
                return Ok((rest, Program { instructions }));
            },
        }
    }
}

} // verus!
