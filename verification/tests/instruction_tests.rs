use iridium::instruction::{Instruction, Opcode};

#[test]
fn test_create_hlt() {
    let opcode = Opcode::HLT;
    assert_eq!(opcode, Opcode::HLT);
}

#[test]
fn test_create_instruction() {
    let instruction = Instruction::new(Opcode::HLT);
    assert_eq!(instruction.opcode, Opcode::HLT);
}

#[test]
fn test_str_to_opcode() {
    let opcode = Opcode::from("load");
    assert_eq!(opcode, Opcode::LOAD);
    let opcode = Opcode::from("illegal");
    assert_eq!(opcode, Opcode::IGL);
}

#[test]
fn every_code_up_to_17_names_one_operation() {
    let expected = [
        Opcode::LOAD,
        Opcode::ADD,
        Opcode::SUB,
        Opcode::MUL,
        Opcode::DIV,
        Opcode::HLT,
        Opcode::JMP,
        Opcode::JMPB,
        Opcode::JMPF,
        Opcode::EQ,
        Opcode::NEQ,
        Opcode::GTE,
        Opcode::LTE,
        Opcode::LT,
        Opcode::GT,
        Opcode::JMPE,
        Opcode::NOP,
        Opcode::ALOC,
    ];
    for (code, opcode) in expected.iter().enumerate() {
        assert_eq!(Opcode::from(code as u8), *opcode);
        assert_eq!(opcode.to_byte(), code as u8);
        assert_eq!(*opcode as u8, code as u8);
    }
}

#[test]
fn every_other_code_is_illegal() {
    for code in 18..=255u8 {
        assert_eq!(Opcode::from(code), Opcode::IGL);
    }
    assert_eq!(Opcode::from(100u8), Opcode::IGL);
    assert_eq!(Opcode::IGL.to_byte(), 100);
}

#[test]
fn mnemonics_are_lower_case() {
    let names = [
        ("load", Opcode::LOAD),
        ("add", Opcode::ADD),
        ("sub", Opcode::SUB),
        ("mul", Opcode::MUL),
        ("div", Opcode::DIV),
        ("hlt", Opcode::HLT),
        ("jmp", Opcode::JMP),
        ("jmpf", Opcode::JMPF),
        ("jmpb", Opcode::JMPB),
        ("eq", Opcode::EQ),
        ("neq", Opcode::NEQ),
        ("gte", Opcode::GTE),
        ("gt", Opcode::GT),
        ("lte", Opcode::LTE),
        ("lt", Opcode::LT),
        ("jmpe", Opcode::JMPE),
        ("nop", Opcode::NOP),
        ("aloc", Opcode::ALOC),
    ];
    for (name, opcode) in names.iter() {
        assert_eq!(Opcode::from(*name), *opcode);
    }
    assert_eq!(Opcode::from("LOAD"), Opcode::IGL);
    assert_eq!(Opcode::from("Hlt"), Opcode::IGL);
    assert_eq!(Opcode::from(""), Opcode::IGL);
    assert_eq!(Opcode::from("igl"), Opcode::IGL);
}
