//! The assembler: from text to tokens, and from tokens to bytecode.

use vstd::prelude::*;
use crate::instruction::Opcode;

pub mod instruction_parsers;
pub mod opcode_parsers;
pub mod operand_parsers;
pub mod primitives;
pub mod program_parsers;
pub mod register_parsers;

verus! {

/// One lexical element of an assembly line.
#[derive(Debug, PartialEq, Eq, Structural)]
pub enum Token {
    /// A mnemonic.
    Op { code: Opcode },
    /// A register, written `$n`.
    Register { reg_num: u8 },
    /// An immediate, written `#n`.
    IntegerOperand { value: i32 },
}

/// Why a text was not accepted.
#[derive(Clone, Copy, Debug, PartialEq, Eq, Structural)]
pub enum ParseError {
    /// A mnemonic was expected: one ASCII letter or more.
    Alpha,
    /// A number was expected: one decimal digit or more.
    Digit,
    /// The sign that starts a register (`$`) or an immediate (`#`) was expected.
    Tag,
    /// A space or a tab was expected.
    Space,
    /// The number does not fit: a register above 255, an immediate above `i32::MAX`.
    MapRes,
}

/// Why an instruction cannot be encoded.
#[derive(Clone, Copy, Debug, PartialEq, Eq, Structural)]
pub enum EncodeError {
    /// The opcode field holds a register or an immediate.
    OperandAsOpcode,
    /// The operand field at `position` (1, 2 or 3) holds a mnemonic.
    OpcodeAsOperand { position: u8 },
}

/// The result of parsing one token, as a mathematical value: the text that
/// is left and the token, or the error.
pub open spec fn token_result_view(r: Result<(&str, Token), ParseError>) -> Result<
    (Seq<char>, Token),
    ParseError,
> {
    match r {
        Ok((rest, token)) => Ok((rest@, token)),
        Err(e) => Err(e),
    }
}

/// The two bytes of a 16-bit number, the high byte first.
pub open spec fn big_endian_bytes(bits: u16) -> Seq<u8> {
    seq![(bits / 256) as u8, (bits % 256) as u8]
}

/// The bytes that a token contributes in operand position: one for a
/// register, two for an immediate, which keeps its low 16 bits.
pub open spec fn operand_bytes(t: Token) -> Seq<u8> {
    match t {
        Token::Register { reg_num } => seq![reg_num],
        Token::IntegerOperand { value } => big_endian_bytes(value as u16),
        Token::Op { code } => Seq::empty(),
    }
}

/// The bytes of an operand that may be absent.
pub open spec fn optional_operand_bytes(t: Option<Token>) -> Seq<u8> {
    match t {
        Some(t) => operand_bytes(t),
        None => Seq::empty(),
    }
}

} // verus!
