use iridium::assembler::instruction_parsers::{
    instruction, instruction_one, instruction_two, AssemblerInstruction,
};
use iridium::assembler::opcode_parsers::opcode;
use iridium::assembler::operand_parsers::{integer_operand, number};
use iridium::assembler::program_parsers::{program, Program};
use iridium::assembler::register_parsers::register;
use iridium::assembler::{EncodeError, ParseError, Token};
use iridium::instruction::Opcode;

#[test]
fn test_parse_instruction_form_one() {
    let result = instruction_one("load $0 #100");
    assert_eq!(
        result,
        Ok((
            "",
            AssemblerInstruction {
                opcode: Token::Op { code: Opcode::LOAD },
                operand1: Some(Token::Register { reg_num: 0 }),
                operand2: Some(Token::IntegerOperand { value: 100 }),
                operand3: None
            }
        ))
    );
}

#[test]
fn test_parse_instruction_form_two() {
    let result = instruction_two("hlt");
    assert_eq!(
        result,
        Ok((
            "",
            AssemblerInstruction {
                opcode: Token::Op { code: Opcode::HLT },
                operand1: None,
                operand2: None,
                operand3: None
            }
        ))
    );
}

#[test]
fn test_opcode() {
    let result = opcode("load");
    assert_eq!(result.is_ok(), true);
    let (rest, token) = result.unwrap();
    assert_eq!(token, Token::Op { code: Opcode::LOAD });
    assert_eq!(rest, "");
    let result = opcode("aold");
    let (_, token) = result.unwrap();
    assert_eq!(token, Token::Op { code: Opcode::IGL });
}

#[test]
fn text_integer_operand() {
    let result = integer_operand("#10");
    assert!(result.is_ok());
    let (_, value) = result.unwrap();

    assert_eq!(value, Token::IntegerOperand { value: 10 });
}

#[test]
fn test_parse_program() {
    let result = program("load $0 #100");
    assert!(result.is_ok());
    let (leftover, p) = result.unwrap();
    assert_eq!(leftover, "");
    assert_eq!(1, p.instructions.len());
}

#[test]
fn test_program_to_bytes() {
    let result = program("load $0 #100");
    assert!(result.is_ok());
    let (_, program) = result.unwrap();
    let bytecode = program.to_bytes();
    assert_eq!(bytecode.len(), 4);
    println!("{:?}", bytecode);
}

#[test]
fn test_parse_register() {
    let result = register("$0");
    assert!(result.is_ok());
    let result = register("0");
    assert!(result.is_err());
    let result = register("$a");
    assert!(result.is_err());
}

#[test]
fn opcode_takes_the_longest_run_of_letters() {
    assert_eq!(opcode("aB1c"), Ok(("1c", Token::Op { code: Opcode::IGL })));
    assert_eq!(opcode("hlt load"), Ok((" load", Token::Op { code: Opcode::HLT })));
    assert_eq!(opcode("jmpe$1"), Ok(("$1", Token::Op { code: Opcode::JMPE })));
    assert_eq!(opcode(""), Err(ParseError::Alpha));
    assert_eq!(opcode("1c"), Err(ParseError::Alpha));
    assert_eq!(opcode(" hlt"), Err(ParseError::Alpha));
    assert_eq!(opcode("\u{e9}t"), Err(ParseError::Alpha));
}

#[test]
fn register_number_must_fit_a_byte() {
    assert_eq!(register("$255"), Ok(("", Token::Register { reg_num: 255 })));
    assert_eq!(register("$007 x"), Ok((" x", Token::Register { reg_num: 7 })));
    assert_eq!(register("$31#"), Ok(("#", Token::Register { reg_num: 31 })));
    assert_eq!(register("$256"), Err(ParseError::MapRes));
    assert_eq!(register("$99999999999999999999"), Err(ParseError::MapRes));
    assert_eq!(register("$"), Err(ParseError::Digit));
    assert_eq!(register("$-1"), Err(ParseError::Digit));
    assert_eq!(register(""), Err(ParseError::Tag));
    assert_eq!(register("#1"), Err(ParseError::Tag));
}

#[test]
fn immediate_must_fit_a_register() {
    assert_eq!(
        integer_operand("#2147483647"),
        Ok(("", Token::IntegerOperand { value: 2147483647 }))
    );
    assert_eq!(integer_operand("#0"), Ok(("", Token::IntegerOperand { value: 0 })));
    assert_eq!(
        integer_operand("#00065536,"),
        Ok((",", Token::IntegerOperand { value: 65536 }))
    );
    assert_eq!(integer_operand("#2147483648"), Err(ParseError::MapRes));
    assert_eq!(integer_operand("#"), Err(ParseError::Digit));
    assert_eq!(integer_operand("#x"), Err(ParseError::Digit));
    assert_eq!(integer_operand("10"), Err(ParseError::Tag));
    assert_eq!(integer_operand("$10"), Err(ParseError::Tag));
}

#[test]
fn form_one_needs_all_of_its_parts() {
    assert_eq!(instruction_one("#1"), Err(ParseError::Alpha));
    assert_eq!(instruction_one("load"), Err(ParseError::Space));
    assert_eq!(instruction_one("load\n$0 #1"), Err(ParseError::Space));
    assert_eq!(instruction_one("load #1"), Err(ParseError::Tag));
    assert_eq!(instruction_one("load $"), Err(ParseError::Digit));
    assert_eq!(instruction_one("load $300 #1"), Err(ParseError::MapRes));
    assert_eq!(instruction_one("load $0"), Err(ParseError::Space));
    assert_eq!(instruction_one("load $0 $1"), Err(ParseError::Tag));
    assert_eq!(instruction_one("load $0 #"), Err(ParseError::Digit));
    assert_eq!(instruction_one("load $0 #4294967296"), Err(ParseError::MapRes));
    let (rest, parsed) = instruction_one("load \t$31  #65535 hlt").unwrap();
    assert_eq!(rest, " hlt");
    assert_eq!(parsed.operand1, Some(Token::Register { reg_num: 31 }));
    assert_eq!(parsed.operand2, Some(Token::IntegerOperand { value: 65535 }));
    assert_eq!(parsed.operand3, None);
}

#[test]
fn form_two_skips_white_space_behind_the_mnemonic() {
    let bare = |code: Opcode| AssemblerInstruction {
        opcode: Token::Op { code },
        operand1: None,
        operand2: None,
        operand3: None,
    };
    assert_eq!(instruction_two("hlt \t\r\nnop"), Ok(("nop", bare(Opcode::HLT))));
    assert_eq!(instruction_two("nop$1"), Ok(("$1", bare(Opcode::NOP))));
    assert_eq!(instruction_two("what"), Ok(("", bare(Opcode::IGL))));
    assert_eq!(instruction_two(" hlt"), Err(ParseError::Alpha));
    assert_eq!(instruction_two(""), Err(ParseError::Alpha));
}

#[test]
fn instruction_falls_back_to_the_bare_form() {
    let (rest, parsed) = instruction("add $0 $1 $2").unwrap();
    assert_eq!(rest, "$0 $1 $2");
    assert_eq!(parsed.opcode, Token::Op { code: Opcode::ADD });
    assert_eq!(parsed.operand1, None);
    let (rest, parsed) = instruction("load $1 #2").unwrap();
    assert_eq!(rest, "");
    assert_eq!(parsed.operand1, Some(Token::Register { reg_num: 1 }));
    assert_eq!(instruction("$0"), Err(ParseError::Alpha));
}

#[test]
fn program_takes_instructions_until_none_is_left() {
    let (rest, parsed) = program("load $0 #100\nload $1 #7\nhlt").unwrap();
    assert_eq!(rest, "\nload $1 #7\nhlt");
    assert_eq!(parsed.instructions.len(), 1);

    let (rest, parsed) = program("nop\nhlt\n  load $1 #7 hlt").unwrap();
    assert_eq!(rest, " hlt");
    assert_eq!(parsed.instructions.len(), 3);
    assert_eq!(parsed.to_bytes(), vec![16, 5, 0, 1, 0, 7]);

    assert_eq!(program("").err(), Some(ParseError::Alpha));
    assert_eq!(program("#1").err(), Some(ParseError::Alpha));
    assert_eq!(program(" hlt").err(), Some(ParseError::Alpha));
}

#[test]
fn encoding_is_opcode_then_operands_left_to_right() {
    let load = AssemblerInstruction {
        opcode: Token::Op { code: Opcode::LOAD },
        operand1: Some(Token::Register { reg_num: 3 }),
        operand2: Some(Token::IntegerOperand { value: 500 }),
        operand3: None,
    };
    assert_eq!(load.check(), None);
    assert_eq!(load.to_bytes(), vec![0, 3, 1, 244]);
    assert_eq!(load.encode(), Ok(vec![0, 3, 1, 244]));

    let add = AssemblerInstruction {
        opcode: Token::Op { code: Opcode::ADD },
        operand1: Some(Token::Register { reg_num: 0 }),
        operand2: Some(Token::Register { reg_num: 1 }),
        operand3: Some(Token::Register { reg_num: 2 }),
    };
    assert_eq!(add.to_bytes(), vec![1, 0, 1, 2]);

    let gap = AssemblerInstruction {
        opcode: Token::Op { code: Opcode::JMP },
        operand1: None,
        operand2: Some(Token::Register { reg_num: 9 }),
        operand3: None,
    };
    assert_eq!(gap.to_bytes(), vec![6, 9]);

    let illegal = AssemblerInstruction {
        opcode: Token::Op { code: Opcode::IGL },
        operand1: None,
        operand2: None,
        operand3: None,
    };
    assert_eq!(illegal.to_bytes(), vec![100]);
}

#[test]
fn immediates_keep_their_low_16_bits() {
    let with_value = |value: i32| AssemblerInstruction {
        opcode: Token::Op { code: Opcode::LOAD },
        operand1: Some(Token::Register { reg_num: 0 }),
        operand2: Some(Token::IntegerOperand { value }),
        operand3: None,
    };
    assert_eq!(with_value(0).to_bytes(), vec![0, 0, 0, 0]);
    assert_eq!(with_value(255).to_bytes(), vec![0, 0, 0, 255]);
    assert_eq!(with_value(256).to_bytes(), vec![0, 0, 1, 0]);
    assert_eq!(with_value(65535).to_bytes(), vec![0, 0, 255, 255]);
    assert_eq!(with_value(65536).to_bytes(), vec![0, 0, 0, 0]);
    assert_eq!(with_value(65536 + 258).to_bytes(), vec![0, 0, 1, 2]);
    assert_eq!(with_value(-1).to_bytes(), vec![0, 0, 255, 255]);
    assert_eq!(with_value(i32::MIN).to_bytes(), vec![0, 0, 0, 0]);
}

#[test]
fn tokens_out_of_place_are_refused() {
    let misplaced_opcode = AssemblerInstruction {
        opcode: Token::Register { reg_num: 0 },
        operand1: Some(Token::Op { code: Opcode::ADD }),
        operand2: None,
        operand3: None,
    };
    assert_eq!(misplaced_opcode.check(), Some(EncodeError::OperandAsOpcode));
    assert_eq!(misplaced_opcode.encode(), Err(EncodeError::OperandAsOpcode));
    let immediate_opcode = AssemblerInstruction {
        opcode: Token::IntegerOperand { value: 1 },
        operand1: None,
        operand2: None,
        operand3: None,
    };
    assert_eq!(immediate_opcode.encode(), Err(EncodeError::OperandAsOpcode));
    for position in 1..=3u8 {
        let slot = |at: u8| {
            if at == position {
                Some(Token::Op { code: Opcode::ADD })
            } else if at < position {
                Some(Token::Register { reg_num: at })
            } else {
                Some(Token::Op { code: Opcode::SUB })
            }
        };
        let misplaced_operand = AssemblerInstruction {
            opcode: Token::Op { code: Opcode::ADD },
            operand1: slot(1),
            operand2: slot(2),
            operand3: slot(3),
        };
        assert_eq!(
            misplaced_operand.encode(),
            Err(EncodeError::OpcodeAsOperand { position })
        );
    }
}

#[test]
fn a_program_reports_its_first_instruction_out_of_place() {
    let good = || AssemblerInstruction {
        opcode: Token::Op { code: Opcode::HLT },
        operand1: None,
        operand2: None,
        operand3: None,
    };
    let bad = |position: u8| AssemblerInstruction {
        opcode: Token::Op { code: Opcode::JMP },
        operand1: if position == 1 { Some(Token::Op { code: Opcode::JMP }) } else { None },
        operand2: if position == 2 { Some(Token::Op { code: Opcode::JMP }) } else { None },
        operand3: None,
    };
    let program = Program { instructions: vec![good(), bad(2), bad(1)] };
    assert_eq!(program.encode(), Err(EncodeError::OpcodeAsOperand { position: 2 }));
    let program = Program { instructions: vec![good(), good()] };
    assert_eq!(program.encode(), Ok(vec![5, 5]));
    assert_eq!(program.to_bytes(), vec![5, 5]);
    let program = Program { instructions: vec![] };
    assert_eq!(program.encode(), Ok(vec![]));
}

#[test]
fn digits_stand_for_their_decimal_value() {
    assert_eq!(number("0", 0), Ok(("", 0)));
    assert_eq!(number("42", 100), Ok(("", 42)));
    assert_eq!(number("100", 100), Ok(("", 100)));
    assert_eq!(number("101", 100), Err(ParseError::MapRes));
    assert_eq!(number("4294967295", u32::MAX), Ok(("", 4294967295)));
    assert_eq!(number("4294967296", u32::MAX), Err(ParseError::MapRes));
    assert_eq!(number("000000000000000000000000000012", 12), Ok(("", 12)));
    assert_eq!(
        number("99999999999999999999999999999999999999", u32::MAX),
        Err(ParseError::MapRes)
    );
    assert_eq!(number("12ab", 12), Ok(("ab", 12)));
    assert_eq!(number("12ab", 11), Err(ParseError::MapRes));
    assert_eq!(number("ab", 11), Err(ParseError::Digit));
    assert_eq!(number("", 11), Err(ParseError::Digit));
    assert_eq!(number("\u{663}", 11), Err(ParseError::Digit));
}
