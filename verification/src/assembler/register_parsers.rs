//! The register operand, written `$n`.

use vstd::prelude::*;
use crate::assembler::operand_parsers::{number, spec_number};
use crate::assembler::primitives::tag;
use crate::assembler::{ParseError, Token, token_result_view};

verus! {

/// A register operand: `$` and a number of at most 255.
pub open spec fn spec_register(s: Seq<char>) -> Result<(Seq<char>, Token), ParseError> {
    match spec_number(s, '$', 255) {
        Ok((rest, value)) => Ok((rest, Token::Register { reg_num: value as u8 })),
        Err(e) => Err(e),
    }
}

/// Parses a register operand.
pub fn register<'a>(input: &'a str) -> (r: Result<(&'a str, Token), ParseError>)
    ensures
        token_result_view(r) == spec_register(input@),
{
    proof {
        reveal_strlit("$");
    }
    match tag("$", input) {
        Ok((rest, _)) => {
            assert(input@.skip(1) =~= rest@);
            match number(rest, 255) {
                Ok((rest, value)) => Ok((rest, Token::Register { reg_num: value as u8 })),
                Err(e) => Err(e),
            }
        },
        Err(_) => {
            assert(input@.len() == 0 || input@[0] != '$') by {
                if input@.len() > 0 && input@[0] == '$' {
                    assert("$"@ =~= input@.subrange(0, 1));
                }
            }
            Err(ParseError::Tag)
        },
    }
}

} // verus!
