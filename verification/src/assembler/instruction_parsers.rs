//! One assembly instruction: its parsed form and its encoding.

use vstd::prelude::*;
use crate::assembler::opcode_parsers::{opcode, spec_opcode};
use crate::assembler::operand_parsers::{integer_operand, spec_integer_operand};
use crate::assembler::primitives::{
    CharClass, lemma_no_run, lemma_run_length_bound, lemma_run_split, multispace1, run_length,
    space1,
};
use crate::assembler::register_parsers::{register, spec_register};
use crate::assembler::{EncodeError, ParseError, Token, operand_bytes, optional_operand_bytes};
use crate::instruction::byte_of_opcode;

verus! {

/// A parsed instruction: a mnemonic and up to three operands.
#[derive(Debug, PartialEq, Eq, Structural)]
pub struct AssemblerInstruction {
    pub opcode: Token,
    pub operand1: Option<Token>,
    pub operand2: Option<Token>,
    pub operand3: Option<Token>,
}

/// Whether a token can stand in operand position.
pub open spec fn is_operand(t: Option<Token>) -> bool {
    t matches Some(t) ==> !(t is Op)
}

impl AssemblerInstruction {
    /// An instruction that can be encoded: a mnemonic in the opcode field and
    /// none among the operands.
    pub open spec fn wf(&self) -> bool {
        &&& self.opcode is Op
        &&& is_operand(self.operand1)
        &&& is_operand(self.operand2)
        &&& is_operand(self.operand3)
    }

    /// The encoding: the opcode's byte, then the operands from left to right.
    pub open spec fn bytes(&self) -> Seq<u8> {
        seq![byte_of_opcode(self.opcode->code)] + optional_operand_bytes(self.operand1)
            + optional_operand_bytes(self.operand2) + optional_operand_bytes(self.operand3)
    }

    /// Why the instruction cannot be encoded, if it cannot: the first field,
    /// from the left, that holds a token out of place.
    pub open spec fn encoding_error(&self) -> Option<EncodeError> {
        if !(self.opcode is Op) {
            Some(EncodeError::OperandAsOpcode)
        } else if !is_operand(self.operand1) {
            Some(EncodeError::OpcodeAsOperand { position: 1 })
        } else if !is_operand(self.operand2) {
            Some(EncodeError::OpcodeAsOperand { position: 2 })
        } else if !is_operand(self.operand3) {
            Some(EncodeError::OpcodeAsOperand { position: 3 })
        } else {
            None
        }
    }

    /// Looks for a token out of place.
    pub fn check(&self) -> (r: Option<EncodeError>)
        ensures
            r == self.encoding_error(),
            r is None <==> self.wf(),
    {
        match &self.opcode {
            Token::Op { .. } => {},
            _ => return Some(EncodeError::OperandAsOpcode),
        }
        if !Self::is_operand_token(&self.operand1) {
            Some(EncodeError::OpcodeAsOperand { position: 1 })
        } else if !Self::is_operand_token(&self.operand2) {
            Some(EncodeError::OpcodeAsOperand { position: 2 })
        } else if !Self::is_operand_token(&self.operand3) {
            Some(EncodeError::OpcodeAsOperand { position: 3 })
        } else {
            None
        }
    }

    /// Encodes the instruction, or says which field holds a token out of place.
    pub fn encode(&self) -> (r: Result<Vec<u8>, EncodeError>)
        ensures
            match r {
                Ok(bytes) => self.wf() && bytes@ == self.bytes(),
                Err(e) => !self.wf() && self.encoding_error() == Some(e),
            },
    {
        match self.check() {
            Some(e) => Err(e),
            None => Ok(self.to_bytes()),
        }
    }

    fn is_operand_token(t: &Option<Token>) -> (b: bool)
        ensures
            b == is_operand(*t),
    {
        match t {
            Some(Token::Op { .. }) => false,
            _ => true,
        }
    }

    /// Encodes an instruction whose tokens are in place.
    pub fn to_bytes(&self) -> (results: Vec<u8>)
        requires
            self.wf(),
        ensures
            results@ == self.bytes(),
    {
        let mut results: Vec<u8> = Vec::new();
        match &self.opcode {
            Token::Op { code } => {
                results.push(code.to_byte());
            },
            _ => {},
        }
        match &self.operand1 {
            Some(t) => AssemblerInstruction::extract_operand(t, &mut results),
            None => {},
        }
        match &self.operand2 {
            Some(t) => AssemblerInstruction::extract_operand(t, &mut results),
            None => {},
        }
        match &self.operand3 {
            Some(t) => AssemblerInstruction::extract_operand(t, &mut results),
            None => {},
        }
        results
    }

    /// Appends the bytes of one operand.
    fn extract_operand(t: &Token, results: &mut Vec<u8>)
        requires
            !(t is Op),
        ensures
            final(results)@ == old(results)@ + operand_bytes(*t),
    {
        match t {
            Token::Register { reg_num } => {
                results.push(*reg_num);
            },
            Token::IntegerOperand { value } => {
                let converted: u16 = #[verifier::truncate]
                (*value as u16);
                results.push((converted / 256) as u8);
                results.push((converted % 256) as u8);
            },
            _ => {},
        }
    }
}

/// The result of parsing an instruction, as a mathematical value: the text
/// that is left and the instruction, or the error.
pub open spec fn instruction_result_view(
    r: Result<(&str, AssemblerInstruction), ParseError>,
) -> Result<(Seq<char>, AssemblerInstruction), ParseError> {
    match r {
        Ok((rest, instruction)) => Ok((rest@, instruction)),
        Err(e) => Err(e),
    }
}

/// One space or tab or more, skipped.
pub open spec fn spec_space1(s: Seq<char>) -> Result<Seq<char>, ParseError> {
    let n = run_length(s, CharClass::Space);
    if n == 0 {
        Err(ParseError::Space)
    } else {
        Ok(s.skip(n as int))
    }
}

/// The form `mnemonic $register #immediate`, its parts separated by spaces or tabs.
pub open spec fn spec_instruction_one(s: Seq<char>) -> Result<
    (Seq<char>, AssemblerInstruction),
    ParseError,
> {
    match spec_opcode(s) {
        Err(e) => Err(e),
        Ok((s1, o)) => match spec_space1(s1) {
            Err(e) => Err(e),
            Ok(s2) => match spec_register(s2) {
                Err(e) => Err(e),
                Ok((s3, r)) => match spec_space1(s3) {
                    Err(e) => Err(e),
                    Ok(s4) => match spec_integer_operand(s4) {
                        Err(e) => Err(e),
                        Ok((s5, i)) => Ok(
                            (
                                s5,
                                AssemblerInstruction {
                                    opcode: o,
                                    operand1: Some(r),
                                    operand2: Some(i),
                                    operand3: None,
                                },
                            ),
                        ),
                    },
                },
            },
        },
    }
}

/// The form of a bare mnemonic; white space behind it is skipped.
pub open spec fn spec_instruction_two(s: Seq<char>) -> Result<
    (Seq<char>, AssemblerInstruction),
    ParseError,
> {
    match spec_opcode(s) {
        Err(e) => Err(e),
        Ok((s1, o)) => Ok(
            (
                s1.skip(run_length(s1, CharClass::MultiSpace) as int),
                AssemblerInstruction { opcode: o, operand1: None, operand2: None, operand3: None },
            ),
        ),
    }
}

/// An instruction: the first form where the text has it, else the second.
pub open spec fn spec_instruction(s: Seq<char>) -> Result<
    (Seq<char>, AssemblerInstruction),
    ParseError,
> {
    match spec_instruction_one(s) {
        Ok(r) => Ok(r),
        Err(_) => spec_instruction_two(s),
    }
}

/// Skips one space or tab or more.
fn skip_space1<'a>(input: &'a str) -> (r: Result<&'a str, ParseError>)
    ensures
        match r {
            Ok(rest) => spec_space1(input@) == Ok::<Seq<char>, ParseError>(rest@),
            Err(e) => spec_space1(input@) == Err::<Seq<char>, ParseError>(e),
        },
{
    match space1(input) {
        Ok((rest, matched)) => {
            proof {
                lemma_run_split(input@, CharClass::Space, matched@, rest@);
            }
            Ok(rest)
        },
        Err(_) => Err(ParseError::Space),
    }
}

/// Parses an instruction of the form `mnemonic $register #immediate`.
pub fn instruction_one<'a>(input: &'a str) -> (r: Result<
    (&'a str, AssemblerInstruction),
    ParseError,
>)
    ensures
        instruction_result_view(r) == spec_instruction_one(input@),
{
    let (input, o) = match opcode(input) {
        Ok(found) => found,
        Err(e) => return Err(e),
    };
    let input = match skip_space1(input) {
        Ok(rest) => rest,
        Err(e) => return Err(e),
    };
    let (input, r) = match register(input) {
        Ok(found) => found,
        Err(e) => return Err(e),
    };
    let input = match skip_space1(input) {
        Ok(rest) => rest,
        Err(e) => return Err(e),
    };
    let (input, i) = match integer_operand(input) {
        Ok(found) => found,
        Err(e) => return Err(e),
    };
    Ok((input, AssemblerInstruction { opcode: o, operand1: Some(r), operand2: Some(i), operand3: None }))
}

/// Parses an instruction that is a bare mnemonic.
pub fn instruction_two<'a>(input: &'a str) -> (r: Result<
    (&'a str, AssemblerInstruction),
    ParseError,
>)
    ensures
        instruction_result_view(r) == spec_instruction_two(input@),
{
    let (input, o) = match opcode(input) {
        Ok(found) => found,
        Err(e) => return Err(e),
    };
    let input = match multispace1(input) {
        Ok((rest, matched)) => {
            proof {
                lemma_run_split(input@, CharClass::MultiSpace, matched@, rest@);
            }
            rest
        },
        Err(_) => {
            proof {
                lemma_no_run(input@, CharClass::MultiSpace);
                assert(input@.skip(0) =~= input@);
            }
            input
        },
    };
    Ok((input, AssemblerInstruction { opcode: o, operand1: None, operand2: None, operand3: None }))
}

/// Parses one instruction.
pub fn instruction<'a>(input: &'a str) -> (r: Result<(&'a str, AssemblerInstruction), ParseError>)
    ensures
        instruction_result_view(r) == spec_instruction(input@),
{
    match instruction_one(input) {
        Ok(found) => Ok(found),
        Err(_) => instruction_two(input),
    }
}

/// What is parsed can be encoded, and parsing consumes at least one character.
pub proof fn lemma_parsed_instruction(s: Seq<char>)
    ensures
        match spec_instruction(s) {
            Ok((rest, instruction)) => instruction.wf() && rest.len() < s.len(),
            Err(e) => e == ParseError::Alpha && run_length(s, CharClass::Alpha) == 0,
        },
        spec_instruction_one(s) matches Ok((rest, instruction)) ==> instruction.wf() && rest.len()
            < s.len(),
        spec_instruction_two(s) matches Ok((rest, instruction)) ==> instruction.wf() && rest.len()
            < s.len(),
{
    lemma_run_length_bound(s, CharClass::Alpha);
    if let Ok((s1, o)) = spec_opcode(s) {
        lemma_run_length_bound(s1, CharClass::MultiSpace);
        lemma_run_length_bound(s1, CharClass::Space);
        if let Ok(s2) = spec_space1(s1) {
            if let Ok((s3, r)) = spec_register(s2) {
                lemma_run_length_bound(s2.skip(1), CharClass::Digit);
                lemma_run_length_bound(s3, CharClass::Space);
                if let Ok(s4) = spec_space1(s3) {
                    if let Ok((s5, i)) = spec_integer_operand(s4) {
                        lemma_run_length_bound(s4.skip(1), CharClass::Digit);
                    }
                }
            }
        }
    }
}

} // verus!
