//! The virtual machine: its state, and the fetch-decode-execute step over a
//! byte-encoded instruction stream.
//!
//! Arithmetic is exact: an `ADD`, `SUB`, `MUL` or `DIV` whose result does not
//! fit a register faults and changes no register. `JMPB` adds its offset, as
//! `JMPF` does, and `JMPE` consumes its operand only when the flag is set.
//! A fault changes nothing but the program counter, which stays behind the
//! last byte that was consumed.

use vstd::prelude::*;
use crate::instruction::{Opcode, opcode_of_byte};

verus! {

/// The heap never grows beyond this many bytes, so that every offset into it
/// fits a register.
pub const HEAP_LIMIT: usize = 2147483647;

/// The largest number of instructions that one call of [`VM::run`] executes.
pub const STEP_LIMIT: u64 = 0xffff_ffff_ffff_ffff;

/// Why the machine refused to execute an instruction.
#[derive(Clone, Copy, Debug, PartialEq, Eq, Structural)]
pub enum Fault {
    /// The byte at the program counter encodes no operation.
    InvalidOpcode { byte: u8 },
    /// The program ends before the operands of the instruction do.
    TruncatedInstruction,
    /// An operand names a register that does not exist.
    RegisterOutOfRange { index: u8 },
    /// `DIV` with a divisor of zero.
    DivisionByZero,
    /// The exact result of an arithmetic instruction does not fit a register.
    ArithmeticOverflow,
    /// A jump to an offset that is negative or beyond the machine's address range.
    JumpOutOfRange,
    /// `ALOC` with a negative number of bytes.
    NegativeAllocation { bytes: i32 },
    /// `ALOC` beyond [`HEAP_LIMIT`].
    HeapExhausted,
}

/// What a step of the machine reports.
#[derive(Clone, Copy, Debug, PartialEq, Eq, Structural)]
pub enum Signal {
    /// An instruction was executed and the machine can go on.
    Continue,
    /// A `HLT` instruction was executed.
    Halt,
    /// The program counter is at or beyond the end of the program; nothing was executed.
    Exhausted,
    /// The instruction at the program counter was refused.
    Fault(Fault),
}

/// The machine as a mathematical value.
pub struct VmState {
    pub registers: Seq<i32>,
    pub pc: nat,
    pub program: Seq<u8>,
    pub heap: Seq<u8>,
    pub remainder: u32,
    pub equal_flag: bool,
}

/// A register-based virtual machine.
pub struct VM {
    /// The register file.
    pub registers: [i32; 32],
    /// Offset into `program` of the next byte to decode.
    pub pc: usize,
    /// The bytecode of the program being run.
    pub program: Vec<u8>,
    /// Heap memory; grown by `ALOC` only.
    pub heap: Vec<u8>,
    /// The remainder of the most recent `DIV`, as a 32-bit two's complement pattern.
    pub remainder: u32,
    /// The result of the most recent comparison.
    pub equal_flag: bool,
}

impl View for VM {
    type V = VmState;

    open spec fn view(&self) -> VmState {
        VmState {
            registers: self.registers@,
            pc: self.pc as nat,
            program: self.program@,
            heap: self.heap@,
            remainder: self.remainder,
            equal_flag: self.equal_flag,
        }
    }
}

impl VmState {
    /// A state that a machine can be in: 32 registers; a program counter, a
    /// program and a heap within the address range.
    pub open spec fn wf(self) -> bool {
        &&& self.registers.len() == 32
        &&& self.pc <= usize::MAX
        &&& self.program.len() <= usize::MAX
        &&& self.heap.len() <= usize::MAX
    }

    /// The state of a machine that was just made.
    pub open spec fn initial() -> VmState {
        VmState {
            registers: Seq::new(32, |i: int| 0i32),
            pc: 0,
            program: Seq::empty(),
            heap: Seq::empty(),
            remainder: 0,
            equal_flag: false,
        }
    }

    /// The same state with the program counter at `pc`.
    pub open spec fn at(self, pc: nat) -> VmState {
        VmState { pc, ..self }
    }

    /// The same state with `value` in register `index`.
    pub open spec fn with_register(self, index: int, value: i32) -> VmState {
        VmState { registers: self.registers.update(index, value), ..self }
    }

    /// The same state with the comparison flag at `flag`.
    pub open spec fn with_flag(self, flag: bool) -> VmState {
        VmState { equal_flag: flag, ..self }
    }
}

/// Truncating division: the quotient rounded towards zero.
pub open spec fn trunc_div(a: int, b: int) -> int {
    if a >= 0 {
        a / b
    } else {
        -((-a) / b)
    }
}

/// The remainder of truncating division; it has the sign of the dividend.
pub open spec fn trunc_rem(a: int, b: int) -> int {
    if a >= 0 {
        a % b
    } else {
        -((-a) % b)
    }
}

/// Euclidean division of a natural number: the quotient is no larger in
/// magnitude than the dividend, and the remainder is smaller than the divisor.
proof fn lemma_div_of_nat(x: int, d: int)
    by (nonlinear_arith)
    requires
        x >= 0,
        d != 0,
    ensures
        -x <= x / d <= x,
        d == -1 ==> x / d == -x,
        x > 0 && d != 1 ==> x / d < x,
        x > 0 && d != -1 ==> -x < x / d,
        0 <= x % d,
        d > 0 ==> x % d < d,
        d < 0 ==> x % d < -d,
        (x / d) * d + x % d == x,
{
}

/// Truncating division stays within the magnitude of the dividend, its
/// remainder within that of the divisor, and the two give the dividend back.
pub proof fn lemma_trunc_div_rem(a: int, b: int)
    requires
        b != 0,
    ensures
        a >= 0 ==> -a <= trunc_div(a, b) <= a,
        a < 0 ==> a <= trunc_div(a, b) <= -a,
        a < 0 && b != -1 ==> trunc_div(a, b) < -a,
        b == -1 ==> trunc_div(a, b) == -a,
        a >= 0 ==> 0 <= trunc_rem(a, b),
        a < 0 ==> trunc_rem(a, b) <= 0,
        b > 0 ==> -b < trunc_rem(a, b) < b,
        b < 0 ==> b < trunc_rem(a, b) < -b,
        trunc_div(a, b) * b + trunc_rem(a, b) == a,
{
    if a >= 0 {
        lemma_div_of_nat(a, b);
    } else {
        lemma_div_of_nat(-a, b);
        assert((-((-a) / b)) * b == -(((-a) / b) * b)) by (nonlinear_arith);
    }
}

/// The 32-bit two's complement pattern of a remainder.
pub open spec fn remainder_bits(r: int) -> u32 {
    if r >= 0 {
        r as u32
    } else {
        (r + 0x1_0000_0000) as u32
    }
}

/// The remainder that a 32-bit two's complement pattern stands for.
pub open spec fn remainder_value(bits: u32) -> int {
    if bits < 0x8000_0000 {
        bits as int
    } else {
        bits - 0x1_0000_0000
    }
}

/// The 16-bit number whose high and low bytes are given.
pub open spec fn big_endian(high: u8, low: u8) -> u16 {
    (high * 256 + low) as u16
}

/// Fetching one byte at the program counter: the byte is consumed if there is one.
pub open spec fn fetch_byte(s: VmState) -> (VmState, Result<u8, Fault>) {
    if s.pc < s.program.len() {
        (s.at(s.pc + 1), Ok(s.program[s.pc as int]))
    } else {
        (s, Err(Fault::TruncatedInstruction))
    }
}

/// Fetching a register operand: one byte, which must be below 32.
pub open spec fn fetch_register(s: VmState) -> (VmState, Result<u8, Fault>) {
    let (s1, b) = fetch_byte(s);
    match b {
        Ok(index) => if index < 32 {
            (s1, Ok(index))
        } else {
            (s1, Err(Fault::RegisterOutOfRange { index }))
        },
        Err(f) => (s1, Err(f)),
    }
}

/// Fetching two register operands, left to right.
pub open spec fn fetch_register_pair(s: VmState) -> (VmState, Result<(u8, u8), Fault>) {
    let (s1, a) = fetch_register(s);
    match a {
        Ok(a) => {
            let (s2, b) = fetch_register(s1);
            match b {
                Ok(b) => (s2, Ok((a, b))),
                Err(f) => (s2, Err(f)),
            }
        },
        Err(f) => (s1, Err(f)),
    }
}

/// Fetching three register operands, left to right.
pub open spec fn fetch_register_triple(s: VmState) -> (VmState, Result<(u8, u8, u8), Fault>) {
    let (s1, ab) = fetch_register_pair(s);
    match ab {
        Ok(ab) => {
            let (s2, c) = fetch_register(s1);
            match c {
                Ok(c) => (s2, Ok((ab.0, ab.1, c))),
                Err(f) => (s2, Err(f)),
            }
        },
        Err(f) => (s1, Err(f)),
    }
}

/// Fetching a 16-bit immediate: two bytes, the high byte first. Neither is
/// consumed unless both are there.
pub open spec fn fetch_immediate(s: VmState) -> (VmState, Result<u16, Fault>) {
    if s.pc + 2 <= s.program.len() {
        (
            s.at(s.pc + 2),
            Ok(big_endian(s.program[s.pc as int], s.program[s.pc as int + 1])),
        )
    } else {
        (s, Err(Fault::TruncatedInstruction))
    }
}

/// The exact result of an arithmetic instruction on two register values.
/// `DIV` has none for a divisor of zero.
pub open spec fn arithmetic_result(op: Opcode, a: int, b: int) -> int
    recommends
        op == Opcode::ADD || op == Opcode::SUB || op == Opcode::MUL || op == Opcode::DIV,
{
    match op {
        Opcode::ADD => a + b,
        Opcode::SUB => a - b,
        Opcode::MUL => a * b,
        _ => trunc_div(a, b),
    }
}

/// `ADD`, `SUB`, `MUL` and `DIV`, behind the opcode byte: three register
/// operands, the last of which receives the result of the first two.
pub open spec fn step_arithmetic(op: Opcode, s: VmState) -> (VmState, Signal)
    recommends
        op == Opcode::ADD || op == Opcode::SUB || op == Opcode::MUL || op == Opcode::DIV,
{
    let (s1, regs) = fetch_register_triple(s);
    match regs {
        Err(f) => (s1, Signal::Fault(f)),
        Ok(regs) => {
            let a = s1.registers[regs.0 as int] as int;
            let b = s1.registers[regs.1 as int] as int;
            let value = arithmetic_result(op, a, b);
            if op == Opcode::DIV && b == 0 {
                (s1, Signal::Fault(Fault::DivisionByZero))
            } else if value < i32::MIN || value > i32::MAX {
                (s1, Signal::Fault(Fault::ArithmeticOverflow))
            } else if op == Opcode::DIV {
                (
                    VmState {
                        remainder: remainder_bits(trunc_rem(a, b)),
                        ..s1.with_register(regs.2 as int, value as i32)
                    },
                    Signal::Continue,
                )
            } else {
                (s1.with_register(regs.2 as int, value as i32), Signal::Continue)
            }
        },
    }
}

/// `LOAD`, behind the opcode byte: a register and a 16-bit immediate, which
/// the register receives.
pub open spec fn step_load(s: VmState) -> (VmState, Signal) {
    let (s1, reg) = fetch_register(s);
    match reg {
        Err(f) => (s1, Signal::Fault(f)),
        Ok(reg) => {
            let (s2, imm) = fetch_immediate(s1);
            match imm {
                Err(f) => (s2, Signal::Fault(f)),
                Ok(imm) => (s2.with_register(reg as int, imm as i32), Signal::Continue),
            }
        },
    }
}

/// An absolute jump, behind the opcode byte: the program counter becomes the
/// value of the register operand.
pub open spec fn step_jump(s: VmState) -> (VmState, Signal) {
    let (s1, reg) = fetch_register(s);
    match reg {
        Err(f) => (s1, Signal::Fault(f)),
        Ok(reg) => {
            let target = s1.registers[reg as int];
            if target < 0 {
                (s1, Signal::Fault(Fault::JumpOutOfRange))
            } else {
                (s1.at(target as nat), Signal::Continue)
            }
        },
    }
}

/// A relative jump, behind the opcode byte: the value of the register operand
/// is added to the program counter, which stands behind the operand.
pub open spec fn step_jump_relative(s: VmState) -> (VmState, Signal) {
    let (s1, reg) = fetch_register(s);
    match reg {
        Err(f) => (s1, Signal::Fault(f)),
        Ok(reg) => {
            let target = s1.pc + s1.registers[reg as int];
            if target < 0 || target > usize::MAX {
                (s1, Signal::Fault(Fault::JumpOutOfRange))
            } else {
                (s1.at(target as nat), Signal::Continue)
            }
        },
    }
}

/// The relation that a comparison instruction tests.
pub open spec fn comparison_result(op: Opcode, a: int, b: int) -> bool
    recommends
        op == Opcode::EQ || op == Opcode::NEQ || op == Opcode::GT || op == Opcode::GTE || op
            == Opcode::LT || op == Opcode::LTE,
{
    match op {
        Opcode::EQ => a == b,
        Opcode::NEQ => a != b,
        Opcode::GT => a > b,
        Opcode::GTE => a >= b,
        Opcode::LT => a < b,
        _ => a <= b,
    }
}

/// A comparison, behind the opcode byte: two register operands and one byte
/// of padding; the flag receives the result.
pub open spec fn step_compare(op: Opcode, s: VmState) -> (VmState, Signal)
    recommends
        op == Opcode::EQ || op == Opcode::NEQ || op == Opcode::GT || op == Opcode::GTE || op
            == Opcode::LT || op == Opcode::LTE,
{
    let (s1, regs) = fetch_register_pair(s);
    match regs {
        Err(f) => (s1, Signal::Fault(f)),
        Ok(regs) => {
            let (s2, pad) = fetch_byte(s1);
            match pad {
                Err(f) => (s2, Signal::Fault(f)),
                Ok(_) => (
                    s2.with_flag(
                        comparison_result(
                            op,
                            s2.registers[regs.0 as int] as int,
                            s2.registers[regs.1 as int] as int,
                        ),
                    ),
                    Signal::Continue,
                ),
            }
        },
    }
}

/// `NOP`, behind the opcode byte: three bytes of padding.
pub open spec fn step_nop(s: VmState) -> (VmState, Signal) {
    let (s1, a) = fetch_byte(s);
    match a {
        Err(f) => (s1, Signal::Fault(f)),
        Ok(_) => {
            let (s2, b) = fetch_byte(s1);
            match b {
                Err(f) => (s2, Signal::Fault(f)),
                Ok(_) => {
                    let (s3, c) = fetch_byte(s2);
                    match c {
                        Err(f) => (s3, Signal::Fault(f)),
                        Ok(_) => (s3, Signal::Continue),
                    }
                },
            }
        },
    }
}

/// `ALOC`, behind the opcode byte: the heap grows by as many zero bytes as the
/// register operand says.
pub open spec fn step_aloc(s: VmState) -> (VmState, Signal) {
    let (s1, reg) = fetch_register(s);
    match reg {
        Err(f) => (s1, Signal::Fault(f)),
        Ok(reg) => {
            let bytes = s1.registers[reg as int];
            if bytes < 0 {
                (s1, Signal::Fault(Fault::NegativeAllocation { bytes }))
            } else if s1.heap.len() + bytes > HEAP_LIMIT {
                (s1, Signal::Fault(Fault::HeapExhausted))
            } else {
                (
                    VmState { heap: s1.heap + Seq::new(bytes as nat, |i: int| 0u8), ..s1 },
                    Signal::Continue,
                )
            }
        },
    }
}

/// One step of the machine: the state it leaves and the signal it gives.
pub open spec fn step(s: VmState) -> (VmState, Signal) {
    if s.pc >= s.program.len() {
        (s, Signal::Exhausted)
    } else {
        let byte = s.program[s.pc as int];
        let s1 = s.at(s.pc + 1);
        match opcode_of_byte(byte) {
            Opcode::LOAD => step_load(s1),
            Opcode::ADD => step_arithmetic(Opcode::ADD, s1),
            Opcode::SUB => step_arithmetic(Opcode::SUB, s1),
            Opcode::MUL => step_arithmetic(Opcode::MUL, s1),
            Opcode::DIV => step_arithmetic(Opcode::DIV, s1),
            Opcode::HLT => (s1, Signal::Halt),
            Opcode::JMP => step_jump(s1),
            Opcode::JMPB => step_jump_relative(s1),
            Opcode::JMPF => step_jump_relative(s1),
            Opcode::EQ => step_compare(Opcode::EQ, s1),
            Opcode::NEQ => step_compare(Opcode::NEQ, s1),
            Opcode::GTE => step_compare(Opcode::GTE, s1),
            Opcode::LTE => step_compare(Opcode::LTE, s1),
            Opcode::LT => step_compare(Opcode::LT, s1),
            Opcode::GT => step_compare(Opcode::GT, s1),
            Opcode::JMPE => if s1.equal_flag {
                step_jump(s1)
            } else {
                (s1, Signal::Continue)
            },
            Opcode::NOP => step_nop(s1),
            Opcode::ALOC => step_aloc(s1),
            Opcode::IGL => (s1, Signal::Fault(Fault::InvalidOpcode { byte })),
        }
    }
}

/// Stepping until the machine gives a signal other than `Continue`, for at
/// most `fuel` steps.
pub open spec fn run_for(s: VmState, fuel: nat) -> (VmState, Signal)
    decreases fuel,
{
    if fuel == 0 {
        (s, Signal::Continue)
    } else {
        let (s1, signal) = step(s);
        if signal == Signal::Continue {
            run_for(s1, (fuel - 1) as nat)
        } else {
            (s1, signal)
        }
    }
}

impl VM {
    /// A machine with zeroed registers, no program and an empty heap.
    pub fn new() -> (vm: VM)
        ensures
            vm@ == VmState::initial(),
    {
        let vm = VM {
            registers: [0; 32],
            program: Vec::new(),
            pc: 0,
            heap: Vec::new(),
            remainder: 0,
            equal_flag: false,
        };
        assert(vm@.registers =~= VmState::initial().registers);
        vm
    }

    /// A fresh machine for experiments.
    pub fn get_test_vm() -> (vm: VM)
        ensures
            vm@ == VmState::initial(),
    {
        VM::new()
    }

    /// Appends one byte to the program.
    pub fn add_byte(&mut self, b: u8)
        ensures
            final(self)@ == (VmState { program: old(self)@.program.push(b), ..old(self)@ }),
    {
        self.program.push(b);
    }

    /// Appends a list of bytes to the program.
    pub fn add_bytes(&mut self, b: Vec<u8>)
        ensures
            final(self)@ == (VmState { program: old(self)@.program + b@, ..old(self)@ }),
    {
        let mut b = b;
        self.program.append(&mut b);
    }

    /// Decodes the opcode at the program counter and moves past it.
    pub fn decode_opcode(&mut self) -> (op: Opcode)
        requires
            old(self).pc < old(self).program.len(),
        ensures
            op == opcode_of_byte(old(self)@.program[old(self)@.pc as int]),
            final(self)@ == old(self)@.at(old(self)@.pc + 1),
    {
        let opcode = Opcode::from(self.program[self.pc]);
        self.pc += 1;
        opcode
    }

    /// Reads the byte at the program counter and moves past it.
    pub fn next_8_bits(&mut self) -> (b: u8)
        requires
            old(self).pc < old(self).program.len(),
        ensures
            b == old(self)@.program[old(self)@.pc as int],
            final(self)@ == old(self)@.at(old(self)@.pc + 1),
    {
        let result = self.program[self.pc];
        self.pc += 1;
        result
    }

    /// Reads the two bytes at the program counter as a big-endian number and
    /// moves past them.
    pub fn next_16_bits(&mut self) -> (v: u16)
        requires
            old(self).pc + 2 <= old(self).program.len(),
        ensures
            v == big_endian(
                old(self)@.program[old(self)@.pc as int],
                old(self)@.program[old(self)@.pc as int + 1],
            ),
            final(self)@ == old(self)@.at(old(self)@.pc + 2),
    {
        let high: u16 = self.program[self.pc] as u16;
        let low: u16 = self.program[self.pc + 1] as u16;
        self.pc += 2;
        high * 256 + low
    }

    /// Reads one byte at the program counter, if the program has one there.
    pub fn next_byte(&mut self) -> (r: Result<u8, Fault>)
        ensures
            (final(self)@, r) == fetch_byte(old(self)@),
    {
        if self.pc < self.program.len() {
            Ok(self.next_8_bits())
        } else {
            Err(Fault::TruncatedInstruction)
        }
    }

    /// Reads one register operand.
    pub fn next_register(&mut self) -> (r: Result<u8, Fault>)
        ensures
            (final(self)@, r) == fetch_register(old(self)@),
    {
        match self.next_byte() {
            Ok(index) => if index < 32 {
                Ok(index)
            } else {
                Err(Fault::RegisterOutOfRange { index })
            },
            Err(f) => Err(f),
        }
    }

    /// Reads two register operands.
    pub fn next_register_pair(&mut self) -> (r: Result<(u8, u8), Fault>)
        ensures
            (final(self)@, r) == fetch_register_pair(old(self)@),
    {
        match self.next_register() {
            Ok(a) => match self.next_register() {
                Ok(b) => Ok((a, b)),
                Err(f) => Err(f),
            },
            Err(f) => Err(f),
        }
    }

    /// Reads three register operands.
    pub fn next_register_triple(&mut self) -> (r: Result<(u8, u8, u8), Fault>)
        ensures
            (final(self)@, r) == fetch_register_triple(old(self)@),
    {
        match self.next_register_pair() {
            Ok(ab) => match self.next_register() {
                Ok(c) => Ok((ab.0, ab.1, c)),
                Err(f) => Err(f),
            },
            Err(f) => Err(f),
        }
    }

    /// Reads one 16-bit immediate operand.
    pub fn next_immediate(&mut self) -> (r: Result<u16, Fault>)
        ensures
            (final(self)@, r) == fetch_immediate(old(self)@),
    {
        if self.program.len() >= 2 && self.pc <= self.program.len() - 2 {
            Ok(self.next_16_bits())
        } else {
            Err(Fault::TruncatedInstruction)
        }
    }

    /// Executes a `LOAD` whose opcode byte has been consumed.
    fn execute_load(&mut self) -> (signal: Signal)
        ensures
            (final(self)@, signal) == step_load(old(self)@),
    {
        let register = match self.next_register() {
            Ok(r) => r,
            Err(f) => return Signal::Fault(f),
        };
        let number = match self.next_immediate() {
            Ok(n) => n,
            Err(f) => return Signal::Fault(f),
        };
        self.registers[register as usize] = number as i32;
        Signal::Continue
    }

    /// Executes an `ADD`, `SUB`, `MUL` or `DIV` whose opcode byte has been consumed.
    fn execute_arithmetic(&mut self, op: Opcode) -> (signal: Signal)
        requires
            op == Opcode::ADD || op == Opcode::SUB || op == Opcode::MUL || op == Opcode::DIV,
        ensures
            (final(self)@, signal) == step_arithmetic(op, old(self)@),
    {
        let (r1, r2, r3) = match self.next_register_triple() {
            Ok(regs) => regs,
            Err(f) => return Signal::Fault(f),
        };
        let a: i32 = self.registers[r1 as usize];
        let b: i32 = self.registers[r2 as usize];
        let result: Option<i32> = match op {
            Opcode::ADD => a.checked_add(b),
            Opcode::SUB => a.checked_sub(b),
            Opcode::MUL => a.checked_mul(b),
            _ => {
                if b == 0 {
                    return Signal::Fault(Fault::DivisionByZero);
                }
                proof {
                    lemma_trunc_div_rem(a as int, b as int);
                }
                if a == i32::MIN && b == -1 {
                    None
                } else {
                    Some(a / b)
                }
            },
        };
        match result {
            None => Signal::Fault(Fault::ArithmeticOverflow),
            Some(value) => {
                if op == Opcode::DIV {
                    let rem: i32 = a % b;
                    self.remainder = if rem >= 0 {
                        rem as u32
                    } else {
                        (rem as i64 + 0x1_0000_0000) as u32
                    };
                }
                self.registers[r3 as usize] = value;
                Signal::Continue
            },
        }
    }

    /// Executes an absolute jump whose opcode byte has been consumed.
    fn execute_jump(&mut self) -> (signal: Signal)
        ensures
            (final(self)@, signal) == step_jump(old(self)@),
    {
        let register = match self.next_register() {
            Ok(r) => r,
            Err(f) => return Signal::Fault(f),
        };
        let target: i32 = self.registers[register as usize];
        if target < 0 {
            return Signal::Fault(Fault::JumpOutOfRange);
        }
        self.pc = target as usize;
        Signal::Continue
    }

    /// Executes a relative jump whose opcode byte has been consumed.
    fn execute_jump_relative(&mut self) -> (signal: Signal)
        ensures
            (final(self)@, signal) == step_jump_relative(old(self)@),
    {
        let register = match self.next_register() {
            Ok(r) => r,
            Err(f) => return Signal::Fault(f),
        };
        let value: i32 = self.registers[register as usize];
        if value >= 0 {
            let forward: usize = value as usize;
            if forward > usize::MAX - self.pc {
                return Signal::Fault(Fault::JumpOutOfRange);
            }
            self.pc += forward;
        } else {
            let back: usize = (-(value as i64)) as usize;
            if back > self.pc {
                return Signal::Fault(Fault::JumpOutOfRange);
            }
            self.pc -= back;
        }
        Signal::Continue
    }

    /// Executes a comparison whose opcode byte has been consumed.
    fn execute_compare(&mut self, op: Opcode) -> (signal: Signal)
        requires
            op == Opcode::EQ || op == Opcode::NEQ || op == Opcode::GT || op == Opcode::GTE || op
                == Opcode::LT || op == Opcode::LTE,
        ensures
            (final(self)@, signal) == step_compare(op, old(self)@),
    {
        let (r1, r2) = match self.next_register_pair() {
            Ok(regs) => regs,
            Err(f) => return Signal::Fault(f),
        };
        match self.next_byte() {
            Ok(_) => {},
            Err(f) => return Signal::Fault(f),
        }
        let a: i32 = self.registers[r1 as usize];
        let b: i32 = self.registers[r2 as usize];
        self.equal_flag = match op {
            Opcode::EQ => a == b,
            Opcode::NEQ => a != b,
            Opcode::GT => a > b,
            Opcode::GTE => a >= b,
            Opcode::LT => a < b,
            _ => a <= b,
        };
        Signal::Continue
    }

    /// Executes a `NOP` whose opcode byte has been consumed.
    fn execute_nop(&mut self) -> (signal: Signal)
        ensures
            (final(self)@, signal) == step_nop(old(self)@),
    {
        match self.next_byte() {
            Ok(_) => {},
            Err(f) => return Signal::Fault(f),
        }
        match self.next_byte() {
            Ok(_) => {},
            Err(f) => return Signal::Fault(f),
        }
        match self.next_byte() {
            Ok(_) => Signal::Continue,
            Err(f) => Signal::Fault(f),
        }
    }

    /// Executes an `ALOC` whose opcode byte has been consumed.
    fn execute_aloc(&mut self) -> (signal: Signal)
        ensures
            (final(self)@, signal) == step_aloc(old(self)@),
    {
        let register = match self.next_register() {
            Ok(r) => r,
            Err(f) => return Signal::Fault(f),
        };
        let bytes: i32 = self.registers[register as usize];
        if bytes < 0 {
            return Signal::Fault(Fault::NegativeAllocation { bytes });
        }
        let length: usize = self.heap.len();
        if length > HEAP_LIMIT || bytes as usize > HEAP_LIMIT - length {
            return Signal::Fault(Fault::HeapExhausted);
        }
        let new_end: usize = length + bytes as usize;
        self.heap.resize(new_end, 0);
        assert(self.heap@ =~= old(self).heap@ + Seq::new(bytes as nat, |i: int| 0u8));
        Signal::Continue
    }

    /// Executes the instruction at the program counter.
    pub fn execute_instruction(&mut self) -> (signal: Signal)
        ensures
            (final(self)@, signal) == step(old(self)@),
    {
        if self.pc >= self.program.len() {
            return Signal::Exhausted;
        }
        let byte: u8 = self.program[self.pc];
        match self.decode_opcode() {
            Opcode::LOAD => self.execute_load(),
            Opcode::ADD => self.execute_arithmetic(Opcode::ADD),
            Opcode::SUB => self.execute_arithmetic(Opcode::SUB),
            Opcode::MUL => self.execute_arithmetic(Opcode::MUL),
            Opcode::DIV => self.execute_arithmetic(Opcode::DIV),
            Opcode::HLT => Signal::Halt,
            Opcode::JMP => self.execute_jump(),
            Opcode::JMPB => self.execute_jump_relative(),
            Opcode::JMPF => self.execute_jump_relative(),
            Opcode::EQ => self.execute_compare(Opcode::EQ),
            Opcode::NEQ => self.execute_compare(Opcode::NEQ),
            Opcode::GTE => self.execute_compare(Opcode::GTE),
            Opcode::LTE => self.execute_compare(Opcode::LTE),
            Opcode::LT => self.execute_compare(Opcode::LT),
            Opcode::GT => self.execute_compare(Opcode::GT),
            Opcode::JMPE => {
                if self.equal_flag {
                    self.execute_jump()
                } else {
                    Signal::Continue
                }
            },
            Opcode::NOP => self.execute_nop(),
            Opcode::ALOC => self.execute_aloc(),
            Opcode::IGL => Signal::Fault(Fault::InvalidOpcode { byte }),
        }
    }

    /// Executes exactly one instruction.
    pub fn run_once(&mut self) -> (signal: Signal)
        ensures
            (final(self)@, signal) == step(old(self)@),
    {
        self.execute_instruction()
    }

    /// Executes instructions until one halts the machine, the program is
    /// exhausted or an instruction faults. Gives up, with `Continue`, after
    /// [`STEP_LIMIT`] instructions.
    pub fn run(&mut self) -> (signal: Signal)
        ensures
            (final(self)@, signal) == run_for(old(self)@, STEP_LIMIT as nat),
    {
        let mut steps: u64 = 0;
        let mut signal = Signal::Continue;
        while steps < STEP_LIMIT && signal == Signal::Continue
            invariant
                steps <= STEP_LIMIT,
                signal == Signal::Continue ==> run_for(old(self)@, STEP_LIMIT as nat) == run_for(
                    self@,
                    (STEP_LIMIT - steps) as nat,
                ),
                signal != Signal::Continue ==> run_for(old(self)@, STEP_LIMIT as nat) == (
                    self@,
                    signal,
                ),
            decreases STEP_LIMIT - steps,
        {
            signal = self.execute_instruction();
            steps += 1;
        }
        signal
    }

    /// Every machine is in a well-formed state.
    pub proof fn lemma_view_wf(&self)
        ensures
            self@.wf(),
    {
        vstd::array::array_len_matches_n(&self.registers);
        assert(self.program@.len() == self.program.len());
        assert(self.heap@.len() == self.heap.len());
    }
}

impl Default for VM {
    fn default() -> (vm: VM)
        ensures
            vm@ == VmState::initial(),
    {
        VM::new()
    }
}

} // verus!
