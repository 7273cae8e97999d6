//! The opcode table: the closed set of operations and its mappings to and
//! from the numeric code and the mnemonic.

use vstd::prelude::*;
use vstd::std_specs::convert::FromSpecImpl;
use crate::text::same_text;

verus! {

/// Operation codes of the instruction set.
#[derive(Clone, Copy, Debug, PartialEq, Eq, Structural)]
pub enum Opcode {
    /// `LOAD $r #imm`: loads a 16-bit immediate into a register.
    LOAD,
    /// `ADD $a $b $c`: register `c` receives `a + b`.
    ADD,
    /// `SUB $a $b $c`: register `c` receives `a - b`.
    SUB,
    /// `MUL $a $b $c`: register `c` receives `a * b`.
    MUL,
    /// `DIV $a $b $c`: register `c` receives `a / b`, the remainder register `a % b`.
    DIV,
    /// Halts execution.
    HLT,
    /// `JMP $r`: absolute jump to the offset held in the register.
    JMP,
    /// `JMPB $r`: relative jump by the number held in the register.
    JMPB,
    /// `JMPF $r`: relative jump by the number held in the register.
    JMPF,
    /// `EQ $a $b`: sets the flag when the two registers are equal.
    EQ,
    /// `NEQ $a $b`: sets the flag when the two registers differ.
    NEQ,
    /// `GTE $a $b`: sets the flag when `a >= b`.
    GTE,
    /// `LTE $a $b`: sets the flag when `a <= b`.
    LTE,
    /// `LT $a $b`: sets the flag when `a < b`.
    LT,
    /// `GT $a $b`: sets the flag when `a > b`.
    GT,
    /// `JMPE $r`: absolute jump when the flag is set.
    JMPE,
    /// Padding: does nothing.
    NOP,
    /// `ALOC $r`: grows the heap by the number of bytes held in the register.
    ALOC,
    /// Stands for every byte and every mnemonic that names no operation.
    IGL,
}

/// The numeric code reserved for [`Opcode::IGL`]; no operation is encoded by it.
pub const ILLEGAL_CODE: u8 = 100;

/// The opcode that a byte of the instruction stream selects.
pub open spec fn opcode_of_byte(v: u8) -> Opcode {
    if v == 0 {
        Opcode::LOAD
    } else if v == 1 {
        Opcode::ADD
    } else if v == 2 {
        Opcode::SUB
    } else if v == 3 {
        Opcode::MUL
    } else if v == 4 {
        Opcode::DIV
    } else if v == 5 {
        Opcode::HLT
    } else if v == 6 {
        Opcode::JMP
    } else if v == 7 {
        Opcode::JMPB
    } else if v == 8 {
        Opcode::JMPF
    } else if v == 9 {
        Opcode::EQ
    } else if v == 10 {
        Opcode::NEQ
    } else if v == 11 {
        Opcode::GTE
    } else if v == 12 {
        Opcode::LTE
    } else if v == 13 {
        Opcode::LT
    } else if v == 14 {
        Opcode::GT
    } else if v == 15 {
        Opcode::JMPE
    } else if v == 16 {
        Opcode::NOP
    } else if v == 17 {
        Opcode::ALOC
    } else {
        Opcode::IGL
    }
}

/// The byte that encodes an opcode.
pub open spec fn byte_of_opcode(op: Opcode) -> u8 {
    match op {
        Opcode::LOAD => 0,
        Opcode::ADD => 1,
        Opcode::SUB => 2,
        Opcode::MUL => 3,
        Opcode::DIV => 4,
        Opcode::HLT => 5,
        Opcode::JMP => 6,
        Opcode::JMPB => 7,
        Opcode::JMPF => 8,
        Opcode::EQ => 9,
        Opcode::NEQ => 10,
        Opcode::GTE => 11,
        Opcode::LTE => 12,
        Opcode::LT => 13,
        Opcode::GT => 14,
        Opcode::JMPE => 15,
        Opcode::NOP => 16,
        Opcode::ALOC => 17,
        Opcode::IGL => ILLEGAL_CODE,
    }
}

impl Opcode {
    /// The byte that encodes this opcode in a program.
    pub fn to_byte(self) -> (b: u8)
        ensures
            b == byte_of_opcode(self),
    {
        match self {
            Opcode::LOAD => 0,
            Opcode::ADD => 1,
            Opcode::SUB => 2,
            Opcode::MUL => 3,
            Opcode::DIV => 4,
            Opcode::HLT => 5,
            Opcode::JMP => 6,
            Opcode::JMPB => 7,
            Opcode::JMPF => 8,
            Opcode::EQ => 9,
            Opcode::NEQ => 10,
            Opcode::GTE => 11,
            Opcode::LTE => 12,
            Opcode::LT => 13,
            Opcode::GT => 14,
            Opcode::JMPE => 15,
            Opcode::NOP => 16,
            Opcode::ALOC => 17,
            Opcode::IGL => ILLEGAL_CODE,
        }
    }
}

impl From<u8> for Opcode {
    fn from(v: u8) -> (op: Opcode) {
        match v {
            0 => Opcode::LOAD,
            1 => Opcode::ADD,
            2 => Opcode::SUB,
            3 => Opcode::MUL,
            4 => Opcode::DIV,
            5 => Opcode::HLT,
            6 => Opcode::JMP,
            7 => Opcode::JMPB,
            8 => Opcode::JMPF,
            9 => Opcode::EQ,
            10 => Opcode::NEQ,
            11 => Opcode::GTE,
            12 => Opcode::LTE,
            13 => Opcode::LT,
            14 => Opcode::GT,
            15 => Opcode::JMPE,
            16 => Opcode::NOP,
            17 => Opcode::ALOC,
            _ => Opcode::IGL,
        }
    }
}

impl FromSpecImpl<u8> for Opcode {
    open spec fn obeys_from_spec() -> bool {
        true
    }

    open spec fn from_spec(v: u8) -> Opcode {
        opcode_of_byte(v)
    }
}

/// The opcode that a mnemonic names. Mnemonics are lower case; any other
/// text names no operation.
pub open spec fn opcode_of_mnemonic(s: Seq<char>) -> Opcode {
    if s == "load"@ {
        Opcode::LOAD
    } else if s == "add"@ {
        Opcode::ADD
    } else if s == "sub"@ {
        Opcode::SUB
    } else if s == "mul"@ {
        Opcode::MUL
    } else if s == "div"@ {
        Opcode::DIV
    } else if s == "hlt"@ {
        Opcode::HLT
    } else if s == "jmp"@ {
        Opcode::JMP
    } else if s == "jmpf"@ {
        Opcode::JMPF
    } else if s == "jmpb"@ {
        Opcode::JMPB
    } else if s == "eq"@ {
        Opcode::EQ
    } else if s == "neq"@ {
        Opcode::NEQ
    } else if s == "gte"@ {
        Opcode::GTE
    } else if s == "gt"@ {
        Opcode::GT
    } else if s == "lte"@ {
        Opcode::LTE
    } else if s == "lt"@ {
        Opcode::LT
    } else if s == "jmpe"@ {
        Opcode::JMPE
    } else if s == "nop"@ {
        Opcode::NOP
    } else if s == "aloc"@ {
        Opcode::ALOC
    } else {
        Opcode::IGL
    }
}

impl From<&str> for Opcode {
    fn from(v: &str) -> (op: Opcode) {
        if same_text(v, "load") {
            Opcode::LOAD
        } else if same_text(v, "add") {
            Opcode::ADD
        } else if same_text(v, "sub") {
            Opcode::SUB
        } else if same_text(v, "mul") {
            Opcode::MUL
        } else if same_text(v, "div") {
            Opcode::DIV
        } else if same_text(v, "hlt") {
            Opcode::HLT
        } else if same_text(v, "jmp") {
            Opcode::JMP
        } else if same_text(v, "jmpf") {
            Opcode::JMPF
        } else if same_text(v, "jmpb") {
            Opcode::JMPB
        } else if same_text(v, "eq") {
            Opcode::EQ
        } else if same_text(v, "neq") {
            Opcode::NEQ
        } else if same_text(v, "gte") {
            Opcode::GTE
        } else if same_text(v, "gt") {
            Opcode::GT
        } else if same_text(v, "lte") {
            Opcode::LTE
        } else if same_text(v, "lt") {
            Opcode::LT
        } else if same_text(v, "jmpe") {
            Opcode::JMPE
        } else if same_text(v, "nop") {
            Opcode::NOP
        } else if same_text(v, "aloc") {
            Opcode::ALOC
        } else {
            Opcode::IGL
        }
    }
}

impl FromSpecImpl<&str> for Opcode {
    open spec fn obeys_from_spec() -> bool {
        true
    }

    open spec fn from_spec(v: &str) -> Opcode {
        opcode_of_mnemonic(v@)
    }
}

/// An instruction as far as its operation goes.
#[derive(Debug, PartialEq, Eq, Structural)]
pub struct Instruction {
    pub opcode: Opcode,
}

impl Instruction {
    /// An instruction with the given operation.
    pub fn new(opcode: Opcode) -> (i: Instruction)
        ensures
            i.opcode == opcode,
    {
        Instruction { opcode }
    }
}

/// Decoding inverts encoding for every opcode that names an operation.
pub proof fn lemma_decode_inverts_encode(op: Opcode)
    requires
        op != Opcode::IGL,
    ensures
        opcode_of_byte(byte_of_opcode(op)) == op,
        byte_of_opcode(op) != ILLEGAL_CODE,
        byte_of_opcode(op) <= 17,
{
}

/// Every byte up to 17 encodes exactly one operation, and no other byte encodes any.
pub proof fn lemma_encode_inverts_decode(v: u8)
    ensures
        v <= 17 ==> opcode_of_byte(v) != Opcode::IGL && byte_of_opcode(opcode_of_byte(v)) == v,
        v > 17 ==> opcode_of_byte(v) == Opcode::IGL,
{
}

} // verus!
