//! The mnemonic at the start of an instruction.

use vstd::prelude::*;
use crate::assembler::primitives::{CharClass, alpha1, lemma_run_split, run_length};
use crate::assembler::{ParseError, Token, token_result_view};
use crate::instruction::{Opcode, opcode_of_mnemonic};

verus! {

/// A mnemonic: the longest run of ASCII letters at the start of the text,
/// which must not be empty. Letters that name no operation give `IGL`.
pub open spec fn spec_opcode(s: Seq<char>) -> Result<(Seq<char>, Token), ParseError> {
    let n = run_length(s, CharClass::Alpha);
    if n == 0 {
        Err(ParseError::Alpha)
    } else {
        Ok((s.skip(n as int), Token::Op { code: opcode_of_mnemonic(s.take(n as int)) }))
    }
}

/// Parses a mnemonic.
pub fn opcode<'a>(input: &'a str) -> (r: Result<(&'a str, Token), ParseError>)
    ensures
        token_result_view(r) == spec_opcode(input@),
{
    match alpha1(input) {
        Ok((rest, matched)) => {
            proof {
                lemma_run_split(input@, CharClass::Alpha, matched@, rest@);
            }
            Ok((rest, Token::Op { code: Opcode::from(matched) }))
        },
        Err(_) => Err(ParseError::Alpha),
    }
}

} // verus!
