//! What holds of the machine whenever it executes an encoded instruction.

use vstd::prelude::*;
use crate::assembler::instruction_parsers::{AssemblerInstruction, spec_instruction_one};
use crate::assembler::{Token, operand_bytes};
use crate::instruction::{Opcode, byte_of_opcode};
use crate::vm::{
    Fault, HEAP_LIMIT, Signal, VmState, arithmetic_result, comparison_result, fetch_immediate,
    fetch_register, lemma_trunc_div_rem, remainder_value, run_for, step, trunc_div,
};

verus! {

/// The program holds `bytes` at offset `pc`.
pub open spec fn holds_at(program: Seq<u8>, pc: nat, bytes: Seq<u8>) -> bool {
    &&& pc + bytes.len() <= program.len()
    &&& program.subrange(pc as int, pc as int + bytes.len()) == bytes
}

/// The instruction `LOAD $register #value`.
pub open spec fn load_instruction(register: u8, value: u16) -> AssemblerInstruction {
    AssemblerInstruction {
        opcode: Token::Op { code: Opcode::LOAD },
        operand1: Some(Token::Register { reg_num: register }),
        operand2: Some(Token::IntegerOperand { value: value as i32 }),
        operand3: None,
    }
}

/// An instruction with three register operands.
pub open spec fn register_instruction(op: Opcode, r1: u8, r2: u8, r3: u8) -> AssemblerInstruction {
    AssemblerInstruction {
        opcode: Token::Op { code: op },
        operand1: Some(Token::Register { reg_num: r1 }),
        operand2: Some(Token::Register { reg_num: r2 }),
        operand3: Some(Token::Register { reg_num: r3 }),
    }
}

/// The bytes `at`, `at + 1`, .. of a program that holds `bytes` at `pc` are those of `bytes`.
proof fn lemma_holds_at_index(program: Seq<u8>, pc: nat, bytes: Seq<u8>, i: int)
    requires
        holds_at(program, pc, bytes),
        0 <= i < bytes.len(),
    ensures
        program[pc + i] == bytes[i],
{
    assert(program.subrange(pc as int, pc as int + bytes.len())[i] == program[pc + i]);
}

/// A register operand is decoded as it was encoded, and takes one byte.
pub proof fn lemma_register_round_trip(s: VmState, register: u8)
    requires
        register < 32,
        holds_at(s.program, s.pc, operand_bytes(Token::Register { reg_num: register })),
    ensures
        fetch_register(s) == (s.at(s.pc + 1), Ok::<u8, Fault>(register)),
{
    lemma_holds_at_index(s.program, s.pc, operand_bytes(Token::Register { reg_num: register }), 0);
}

/// An immediate operand is decoded to the low 16 bits of what was encoded,
/// and takes two bytes; a value of at most 16 bits comes back unchanged.
pub proof fn lemma_immediate_round_trip(s: VmState, value: i32)
    requires
        holds_at(s.program, s.pc, operand_bytes(Token::IntegerOperand { value })),
    ensures
        fetch_immediate(s) == (s.at(s.pc + 2), Ok::<u16, Fault>(value as u16)),
        0 <= value <= 0xffff ==> (value as u16) == value,
{
    let bytes = operand_bytes(Token::IntegerOperand { value });
    lemma_holds_at_index(s.program, s.pc, bytes, 0);
    lemma_holds_at_index(s.program, s.pc, bytes, 1);
}

/// Executing the encoding of `LOAD $r #v` puts `v` into register `r` and
/// moves the program counter by four bytes.
pub proof fn lemma_load_executes(s: VmState, register: u8, value: u16)
    requires
        s.wf(),
        register < 32,
        holds_at(s.program, s.pc, load_instruction(register, value).bytes()),
    ensures
        step(s) == (s.at(s.pc + 4).with_register(register as int, value as i32), Signal::Continue),
        step(s).0.registers[register as int] == value,
{
    let bytes = load_instruction(register, value).bytes();
    assert(bytes =~= seq![0u8, register, (value / 256) as u8, (value % 256) as u8]);
    lemma_holds_at_index(s.program, s.pc, bytes, 0);
    lemma_holds_at_index(s.program, s.pc, bytes, 1);
    lemma_holds_at_index(s.program, s.pc, bytes, 2);
    lemma_holds_at_index(s.program, s.pc, bytes, 3);
}

/// An instruction with two register operands and one byte of padding.
pub open spec fn comparison_bytes(op: Opcode, r1: u8, r2: u8, padding: u8) -> Seq<u8> {
    seq![byte_of_opcode(op), r1, r2, padding]
}

/// What the encoding of an instruction with three register operands decodes to.
proof fn lemma_register_instruction_bytes(s: VmState, op: Opcode, r1: u8, r2: u8, r3: u8)
    requires
        holds_at(s.program, s.pc, register_instruction(op, r1, r2, r3).bytes()),
    ensures
        s.pc + 4 <= s.program.len(),
        s.program[s.pc as int] == byte_of_opcode(op),
        s.program[s.pc as int + 1] == r1,
        s.program[s.pc as int + 2] == r2,
        s.program[s.pc as int + 3] == r3,
{
    let bytes = register_instruction(op, r1, r2, r3).bytes();
    assert(bytes =~= seq![byte_of_opcode(op), r1, r2, r3]);
    lemma_holds_at_index(s.program, s.pc, bytes, 0);
    lemma_holds_at_index(s.program, s.pc, bytes, 1);
    lemma_holds_at_index(s.program, s.pc, bytes, 2);
    lemma_holds_at_index(s.program, s.pc, bytes, 3);
}

/// `ADD`, `SUB` and `MUL` are exact: the destination receives the sum,
/// difference or product of the two source registers as integers, and the
/// program counter moves by four bytes. Where that number does not fit a
/// register, the instruction faults and no register changes.
pub proof fn lemma_arithmetic_is_exact(s: VmState, op: Opcode, r1: u8, r2: u8, r3: u8)
    requires
        s.wf(),
        op == Opcode::ADD || op == Opcode::SUB || op == Opcode::MUL,
        r1 < 32,
        r2 < 32,
        r3 < 32,
        holds_at(s.program, s.pc, register_instruction(op, r1, r2, r3).bytes()),
    ensures
        ({
            let exact = arithmetic_result(op, s.registers[r1 as int] as int, s.registers[r2 as int] as int);
            if i32::MIN <= exact <= i32::MAX {
                &&& step(s) == (s.at(s.pc + 4).with_register(r3 as int, exact as i32), Signal::Continue)
                &&& step(s).0.registers[r3 as int] == exact
            } else {
                step(s) == (s.at(s.pc + 4), Signal::Fault(Fault::ArithmeticOverflow))
            }
        }),
        op == Opcode::ADD ==> arithmetic_result(op, s.registers[r1 as int] as int, s.registers[r2 as int] as int)
            == s.registers[r1 as int] + s.registers[r2 as int],
        op == Opcode::SUB ==> arithmetic_result(op, s.registers[r1 as int] as int, s.registers[r2 as int] as int)
            == s.registers[r1 as int] - s.registers[r2 as int],
        op == Opcode::MUL ==> arithmetic_result(op, s.registers[r1 as int] as int, s.registers[r2 as int] as int)
            == s.registers[r1 as int] * s.registers[r2 as int],
{
    lemma_register_instruction_bytes(s, op, r1, r2, r3);
}

/// `DIV` with a divisor other than zero, unless the quotient overflows,
/// leaves a quotient and a remainder that give the dividend back:
/// `quotient * divisor + remainder == dividend`, the remainder read as a
/// signed 32-bit number. The program counter moves by four bytes.
pub proof fn lemma_div_reconstructs_dividend(s: VmState, r1: u8, r2: u8, r3: u8)
    requires
        s.wf(),
        r1 < 32,
        r2 < 32,
        r3 < 32,
        holds_at(s.program, s.pc, register_instruction(Opcode::DIV, r1, r2, r3).bytes()),
        s.registers[r2 as int] != 0,
        !(s.registers[r1 as int] == i32::MIN && s.registers[r2 as int] == -1),
    ensures
        step(s).1 == Signal::Continue,
        step(s).0.pc == s.pc + 4,
        step(s).0.registers == s.registers.update(
            r3 as int,
            trunc_div(s.registers[r1 as int] as int, s.registers[r2 as int] as int) as i32,
        ),
        step(s).0.registers[r3 as int] * s.registers[r2 as int] + remainder_value(
            step(s).0.remainder,
        ) == s.registers[r1 as int],
{
    lemma_register_instruction_bytes(s, Opcode::DIV, r1, r2, r3);
    lemma_trunc_div_rem(s.registers[r1 as int] as int, s.registers[r2 as int] as int);
}

/// `DIV` by zero faults and changes no register, flag or heap byte.
pub proof fn lemma_div_by_zero_faults(s: VmState, r1: u8, r2: u8, r3: u8)
    requires
        s.wf(),
        r1 < 32,
        r2 < 32,
        r3 < 32,
        holds_at(s.program, s.pc, register_instruction(Opcode::DIV, r1, r2, r3).bytes()),
        s.registers[r2 as int] == 0,
    ensures
        step(s) == (s.at(s.pc + 4), Signal::Fault(Fault::DivisionByZero)),
{
    lemma_register_instruction_bytes(s, Opcode::DIV, r1, r2, r3);
}

/// A comparison sets the flag to the relation between its two registers and
/// moves the program counter by four bytes, whatever the outcome.
pub proof fn lemma_comparison_sets_flag(s: VmState, op: Opcode, r1: u8, r2: u8, padding: u8)
    requires
        s.wf(),
        op == Opcode::EQ || op == Opcode::NEQ || op == Opcode::GT || op == Opcode::GTE || op
            == Opcode::LT || op == Opcode::LTE,
        r1 < 32,
        r2 < 32,
        holds_at(s.program, s.pc, comparison_bytes(op, r1, r2, padding)),
    ensures
        step(s) == (
            s.at(s.pc + 4).with_flag(
                comparison_result(op, s.registers[r1 as int] as int, s.registers[r2 as int] as int),
            ),
            Signal::Continue,
        ),
        op == Opcode::EQ ==> step(s).0.equal_flag == (s.registers[r1 as int] == s.registers[r2 as int]),
        op == Opcode::NEQ ==> step(s).0.equal_flag == (s.registers[r1 as int] != s.registers[r2 as int]),
        op == Opcode::GT ==> step(s).0.equal_flag == (s.registers[r1 as int] > s.registers[r2 as int]),
        op == Opcode::GTE ==> step(s).0.equal_flag == (s.registers[r1 as int] >= s.registers[r2 as int]),
        op == Opcode::LT ==> step(s).0.equal_flag == (s.registers[r1 as int] < s.registers[r2 as int]),
        op == Opcode::LTE ==> step(s).0.equal_flag == (s.registers[r1 as int] <= s.registers[r2 as int]),
{
    let bytes = comparison_bytes(op, r1, r2, padding);
    lemma_holds_at_index(s.program, s.pc, bytes, 0);
    lemma_holds_at_index(s.program, s.pc, bytes, 1);
    lemma_holds_at_index(s.program, s.pc, bytes, 2);
    lemma_holds_at_index(s.program, s.pc, bytes, 3);
}

/// At a `HLT`, or at a byte that encodes no operation, running stops at
/// once: the program counter is one byte further and nothing else changed.
pub proof fn lemma_run_stops_at_once(s: VmState, fuel: nat)
    requires
        fuel > 0,
        s.pc < s.program.len(),
        s.program[s.pc as int] == 5 || s.program[s.pc as int] > 17,
    ensures
        s.program[s.pc as int] == 5 ==> run_for(s, fuel) == (s.at(s.pc + 1), Signal::Halt),
        s.program[s.pc as int] > 17 ==> run_for(s, fuel) == (
            s.at(s.pc + 1),
            Signal::Fault(Fault::InvalidOpcode { byte: s.program[s.pc as int] }),
        ),
{
}

/// A machine whose program counter is at or beyond the end of its program
/// does not change.
pub proof fn lemma_exhausted_program(s: VmState, fuel: nat)
    requires
        fuel > 0,
        s.pc >= s.program.len(),
    ensures
        step(s) == (s, Signal::Exhausted),
        run_for(s, fuel) == (s, Signal::Exhausted),
{
}

/// No instruction changes the program, shrinks the heap or changes a heap
/// byte that was there; only `ALOC` lengthens the heap, and with zeros.
pub proof fn lemma_step_preserves_program_and_heap(s: VmState)
    requires
        s.wf(),
    ensures
        step(s).0.wf(),
        step(s).0.program == s.program,
        step(s).0.heap.len() >= s.heap.len(),
        step(s).0.heap.subrange(0, s.heap.len() as int) == s.heap,
        forall|i: int| s.heap.len() <= i < step(s).0.heap.len() ==> step(s).0.heap[i] == 0,
        step(s).0.heap != s.heap ==> s.pc < s.program.len() && s.program[s.pc as int] == 17,
        step(s).1 is Fault ==> step(s).0 == s.at(step(s).0.pc),
{
    let t = step(s).0;
    assert(t.heap.subrange(0, s.heap.len() as int) =~= s.heap);
}

/// The encoding of an instruction with one register operand.
pub open spec fn single_register_bytes(op: Opcode, register: u8) -> Seq<u8> {
    seq![byte_of_opcode(op), register]
}

/// `JMP` puts the value of its register into the program counter; a negative
/// value faults.
pub proof fn lemma_jump_is_absolute(s: VmState, register: u8)
    requires
        s.wf(),
        register < 32,
        holds_at(s.program, s.pc, single_register_bytes(Opcode::JMP, register)),
    ensures
        s.registers[register as int] >= 0 ==> step(s) == (
            s.at(s.registers[register as int] as nat),
            Signal::Continue,
        ),
        s.registers[register as int] < 0 ==> step(s) == (
            s.at(s.pc + 2),
            Signal::Fault(Fault::JumpOutOfRange),
        ),
{
    let bytes = single_register_bytes(Opcode::JMP, register);
    lemma_holds_at_index(s.program, s.pc, bytes, 0);
    lemma_holds_at_index(s.program, s.pc, bytes, 1);
}

/// `ALOC` lengthens the heap by as many zero bytes as its register says,
/// within the heap's limit; a negative number faults.
pub proof fn lemma_aloc_grows_heap(s: VmState, register: u8)
    requires
        s.wf(),
        register < 32,
        holds_at(s.program, s.pc, single_register_bytes(Opcode::ALOC, register)),
    ensures
        ({
            let bytes = s.registers[register as int];
            if bytes < 0 {
                step(s) == (s.at(s.pc + 2), Signal::Fault(Fault::NegativeAllocation { bytes }))
            } else if s.heap.len() + bytes > HEAP_LIMIT {
                step(s) == (s.at(s.pc + 2), Signal::Fault(Fault::HeapExhausted))
            } else {
                &&& step(s).1 == Signal::Continue
                &&& step(s).0.pc == s.pc + 2
                &&& step(s).0.registers == s.registers
                &&& step(s).0.heap.len() == s.heap.len() + bytes
                &&& step(s).0.heap.subrange(0, s.heap.len() as int) == s.heap
                &&& forall|i: int|
                    s.heap.len() <= i < s.heap.len() + bytes ==> step(s).0.heap[i] == 0
            }
        }),
{
    let bytes = single_register_bytes(Opcode::ALOC, register);
    lemma_holds_at_index(s.program, s.pc, bytes, 0);
    lemma_holds_at_index(s.program, s.pc, bytes, 1);
    assert(step(s).0.heap.subrange(0, s.heap.len() as int) =~= s.heap);
}

/// Assembling and executing agree: when a text of the form
/// `mnemonic $register #immediate` is parsed, its encoding appended to a
/// program that the machine has run through, and one step taken, a `LOAD`
/// leaves the low 16 bits of the immediate in the register that was
/// written, four bytes further. An immediate of at most 16 bits arrives
/// unchanged.
pub proof fn lemma_assembled_load_round_trip(text: Seq<char>, s: VmState)
    requires
        s.wf(),
        s.pc == s.program.len(),
        spec_instruction_one(text) is Ok,
        spec_instruction_one(text)->Ok_0.1.opcode == (Token::Op { code: Opcode::LOAD }),
        spec_instruction_one(text)->Ok_0.1.operand1->Some_0->reg_num < 32,
    ensures
        ({
            let parsed = spec_instruction_one(text)->Ok_0.1;
            let register = parsed.operand1->Some_0->reg_num;
            let value = parsed.operand2->Some_0->value;
            let loaded = VmState { program: s.program + parsed.bytes(), ..s };
            &&& parsed.wf()
            &&& parsed.operand1 == Some(Token::Register { reg_num: register })
            &&& parsed.operand2 == Some(Token::IntegerOperand { value })
            &&& value >= 0
            &&& step(loaded) == (
                loaded.at(s.pc + 4).with_register(register as int, (value as u16) as i32),
                Signal::Continue,
            )
            &&& value <= 0xffff ==> step(loaded).0.registers[register as int] == value
        }),
{
    let parsed = spec_instruction_one(text)->Ok_0.1;
    let register = parsed.operand1->Some_0->reg_num;
    let value = parsed.operand2->Some_0->value;
    let loaded = VmState { program: s.program + parsed.bytes(), ..s };
    let bits = value as u16;
    assert(parsed.bytes() =~= seq![0u8, register, (bits / 256) as u8, (bits % 256) as u8]);
    assert(loaded.program.subrange(s.pc as int, s.pc as int + 4) =~= parsed.bytes());
    lemma_holds_at_index(loaded.program, s.pc, parsed.bytes(), 0);
    lemma_holds_at_index(loaded.program, s.pc, parsed.bytes(), 1);
    lemma_holds_at_index(loaded.program, s.pc, parsed.bytes(), 2);
    lemma_holds_at_index(loaded.program, s.pc, parsed.bytes(), 3);
}

} // verus!
