//! The instruction model: a closed tagged union of every supported
//! mnemonic/operand shape, its deterministic byte length, and its encoder.
//!
//! Every variant has a total length function whose result depends only on the
//! operand shape, never on resolved values; that makes program layout a single
//! forward pass. The encoder reproduces the Intel SDM byte sequences for each
//! operand form and is proved to emit exactly `instr_len` bytes.

use vstd::prelude::*;

use crate::{Register, Value, ValueView, value_len};

verus! {

/// Conditions of the `0F 8x` conditional near jumps. A conditional variant's
/// `code` is the second opcode byte of its encoding; the `Unconditional`
/// variant encodes as the single-byte `E9` near jump instead.
#[derive(Debug, PartialEq, Eq, Structural, Clone, Copy)]
pub enum JumpCondition {
    Unconditional,
    Overflow,
    NotOverflow,
    Carry,
    NotCarry,
    Zero,
    NotZero,
    CarryOrZero,
    NotCarryAndNotZero,
    Sign,
    NotSign,
    Parity,
    NotParity,
    Less,
    NotLess,
    NotGreater,
    Greater,
}

impl JumpCondition {
    /// The second opcode byte of the `0F 8x` near-jump encoding. The
    /// unconditional variant has no such byte; it is mapped to zero.
    pub open spec fn spec_code(&self) -> u8 {
        match self {
            JumpCondition::Unconditional => 0x00,
            JumpCondition::Overflow => 0x80,
            JumpCondition::NotOverflow => 0x81,
            JumpCondition::Carry => 0x82,
            JumpCondition::NotCarry => 0x83,
            JumpCondition::Zero => 0x84,
            JumpCondition::NotZero => 0x85,
            JumpCondition::CarryOrZero => 0x86,
            JumpCondition::NotCarryAndNotZero => 0x87,
            JumpCondition::Sign => 0x88,
            JumpCondition::NotSign => 0x89,
            JumpCondition::Parity => 0x8A,
            JumpCondition::NotParity => 0x8B,
            JumpCondition::Less => 0x8C,
            JumpCondition::NotLess => 0x8D,
            JumpCondition::NotGreater => 0x8E,
            JumpCondition::Greater => 0x8F,
        }
    }

    /// The second opcode byte of the `0F 8x` near-jump encoding.
    #[verifier::when_used_as_spec(spec_code)]
    pub fn code(&self) -> (r: u8)
        ensures
            r == self.spec_code(),
    {
        match self {
            JumpCondition::Unconditional => 0x00,
            JumpCondition::Overflow => 0x80,
            JumpCondition::NotOverflow => 0x81,
            JumpCondition::Carry => 0x82,
            JumpCondition::NotCarry => 0x83,
            JumpCondition::Zero => 0x84,
            JumpCondition::NotZero => 0x85,
            JumpCondition::CarryOrZero => 0x86,
            JumpCondition::NotCarryAndNotZero => 0x87,
            JumpCondition::Sign => 0x88,
            JumpCondition::NotSign => 0x89,
            JumpCondition::Parity => 0x8A,
            JumpCondition::NotParity => 0x8B,
            JumpCondition::Less => 0x8C,
            JumpCondition::NotLess => 0x8D,
            JumpCondition::NotGreater => 0x8E,
            JumpCondition::Greater => 0x8F,
        }
    }
}

/// One x86 instruction of the supported subset, or raw data placed verbatim
/// in the instruction stream.
#[derive(Debug)]
pub enum Instruction {
    RawData(Vec<u8>),
    Int(u8),
    Mov(Register, Register),
    MovImmediate { register: Register, value: Value },
    MovMemoryReg { dest: Register, src: Register },
    MovMemory { addr: Value, register: Register },
    MovFromMemory(Register, Value),
    MovFromMemoryReg(Register, Register),
    Inc(Register),
    Dec(Register),
    Jump { condition: JumpCondition, addr: Value },
    Add(Register, Register),
    AddImmediate { register: Register, value: Value },
    Sub(Register, Register),
    SubImmediate { register: Register, value: Value },
    Multiply(Register),
    Divide(Register),
    ByteSwap(Register),
    And(Register, Register),
    Or(Register, Register),
    XOr(Register, Register),
    Compare(Register, Register),
    CompareImmediate(Register, Value),
    Push(Register),
    Pop(Register),
    Call(Value),
    CallRegister(Register),
    Return,
    Not(Register),
    Neg(Register),
    ShiftLeft(Register),
    ShiftRight(Register),
}

/// The mathematical model of an `Instruction`: raw data as a byte sequence,
/// operand values as `ValueView`s.
pub enum InstrView {
    RawData(Seq<u8>),
    Int(u8),
    Mov(Register, Register),
    MovImmediate { register: Register, value: ValueView },
    MovMemoryReg { dest: Register, src: Register },
    MovMemory { addr: ValueView, register: Register },
    MovFromMemory(Register, ValueView),
    MovFromMemoryReg(Register, Register),
    Inc(Register),
    Dec(Register),
    Jump { condition: JumpCondition, addr: ValueView },
    Add(Register, Register),
    AddImmediate { register: Register, value: ValueView },
    Sub(Register, Register),
    SubImmediate { register: Register, value: ValueView },
    Multiply(Register),
    Divide(Register),
    ByteSwap(Register),
    And(Register, Register),
    Or(Register, Register),
    XOr(Register, Register),
    Compare(Register, Register),
    CompareImmediate(Register, ValueView),
    Push(Register),
    Pop(Register),
    Call(ValueView),
    CallRegister(Register),
    Return,
    Not(Register),
    Neg(Register),
    ShiftLeft(Register),
    ShiftRight(Register),
}

impl View for Instruction {
    type V = InstrView;

    open spec fn view(&self) -> InstrView {
        match self {
            Instruction::RawData(x) => InstrView::RawData(x@),
            Instruction::Int(x) => InstrView::Int(*x),
            Instruction::Mov(a, b) => InstrView::Mov(*a, *b),
            Instruction::MovImmediate { register, value } => InstrView::MovImmediate {
                register: *register,
                value: value@,
            },
            Instruction::MovMemoryReg { dest, src } => InstrView::MovMemoryReg {
                dest: *dest,
                src: *src,
            },
            Instruction::MovMemory { addr, register } => InstrView::MovMemory {
                addr: addr@,
                register: *register,
            },
            Instruction::MovFromMemory(r, v) => InstrView::MovFromMemory(*r, v@),
            Instruction::MovFromMemoryReg(a, b) => InstrView::MovFromMemoryReg(*a, *b),
            Instruction::Inc(r) => InstrView::Inc(*r),
            Instruction::Dec(r) => InstrView::Dec(*r),
            Instruction::Jump { condition, addr } => InstrView::Jump {
                condition: *condition,
                addr: addr@,
            },
            Instruction::Add(a, b) => InstrView::Add(*a, *b),
            Instruction::AddImmediate { register, value } => InstrView::AddImmediate {
                register: *register,
                value: value@,
            },
            Instruction::Sub(a, b) => InstrView::Sub(*a, *b),
            Instruction::SubImmediate { register, value } => InstrView::SubImmediate {
                register: *register,
                value: value@,
            },
            Instruction::Multiply(r) => InstrView::Multiply(*r),
            Instruction::Divide(r) => InstrView::Divide(*r),
            Instruction::ByteSwap(r) => InstrView::ByteSwap(*r),
            Instruction::And(a, b) => InstrView::And(*a, *b),
            Instruction::Or(a, b) => InstrView::Or(*a, *b),
            Instruction::XOr(a, b) => InstrView::XOr(*a, *b),
            Instruction::Compare(a, b) => InstrView::Compare(*a, *b),
            Instruction::CompareImmediate(r, v) => InstrView::CompareImmediate(*r, v@),
            Instruction::Push(r) => InstrView::Push(*r),
            Instruction::Pop(r) => InstrView::Pop(*r),
            Instruction::Call(v) => InstrView::Call(v@),
            Instruction::CallRegister(r) => InstrView::CallRegister(*r),
            Instruction::Return => InstrView::Return,
            Instruction::Not(r) => InstrView::Not(*r),
            Instruction::Neg(r) => InstrView::Neg(*r),
            Instruction::ShiftLeft(r) => InstrView::ShiftLeft(*r),
            Instruction::ShiftRight(r) => InstrView::ShiftRight(*r),
        }
    }
}

/// The operand-size prefix: one `0x66` byte before every 16-bit form.
pub open spec fn prefix16(r: Register) -> Seq<u8> {
    if r.spec_bits() == 16 {
        seq![0x66u8]
    } else {
        Seq::empty()
    }
}

/// The length of the operand-size prefix: one byte for 16-bit forms.
pub open spec fn prefix16_len(r: Register) -> nat {
    if r.spec_bits() == 16 {
        1
    } else {
        0
    }
}

/// A register-direct ModR/M byte: mod = 11, reg = `op`, r/m = `rm`.
pub open spec fn modrm_direct(op: u8, rm: u8) -> u8 {
    0xC0u8 | (op << 3) | rm
}

/// Whether the register is one of the accumulator names `AL`, `AX`, `EAX`,
/// which select the short-form opcodes without a ModR/M byte.
pub open spec fn is_accumulator(r: Register) -> bool {
    r == Register::AL || r == Register::AX || r == Register::EAX
}

/// The encoded byte length of one instruction. It depends only on the
/// operand shape, never on resolved label values.
pub open spec fn instr_len(i: InstrView) -> nat {
    match i {
        InstrView::RawData(x) => x.len(),
        InstrView::Int(_) => 2,
        InstrView::Mov(dest, _) => if dest.spec_bits() == 16 { 3nat } else { 2nat },
        InstrView::MovImmediate { register, value } => prefix16_len(register) + 1
            + value_len(value),
        InstrView::MovMemoryReg { dest, src } => prefix16_len(src) + 1 + (
        if dest == Register::ESP || dest == Register::EBP {
            2nat
        } else {
            1nat
        }),
        InstrView::MovMemory { addr, register } => prefix16_len(register) + (
        if is_accumulator(register) {
            1nat
        } else {
            2nat
        }) + value_len(addr),
        InstrView::MovFromMemory(register, addr) => prefix16_len(register) + (
        if is_accumulator(register) {
            1nat
        } else {
            2nat
        }) + value_len(addr),
        InstrView::MovFromMemoryReg(dest, src) => prefix16_len(dest) + 1 + (
        if src == Register::ESP || src == Register::EBP {
            2nat
        } else {
            1nat
        }),
        InstrView::Inc(r) => prefix16_len(r) + 1,
        InstrView::Dec(r) => prefix16_len(r) + 1,
        InstrView::Jump { condition, addr } => (
        if condition == JumpCondition::Unconditional {
            1nat
        } else {
            2nat
        }) + value_len(addr),
        InstrView::Add(dest, _) => prefix16_len(dest) + 2,
        InstrView::AddImmediate { register, value } => prefix16_len(register) + (
        if is_accumulator(register) {
            1nat
        } else {
            2nat
        }) + value_len(value),
        InstrView::Sub(dest, _) => prefix16_len(dest) + 2,
        InstrView::SubImmediate { register, value } => prefix16_len(register) + (
        if is_accumulator(register) {
            1nat
        } else {
            2nat
        }) + value_len(value),
        InstrView::Multiply(r) => prefix16_len(r) + 2,
        InstrView::Divide(r) => prefix16_len(r) + 2,
        InstrView::ByteSwap(_) => 2,
        InstrView::And(dest, _) => prefix16_len(dest) + 2,
        InstrView::Or(dest, _) => prefix16_len(dest) + 2,
        InstrView::XOr(dest, _) => prefix16_len(dest) + 2,
        InstrView::Compare(dest, _) => prefix16_len(dest) + 2,
        InstrView::CompareImmediate(register, value) => prefix16_len(register) + (
        if is_accumulator(register) {
            1nat
        } else {
            2nat
        }) + value_len(value),
        InstrView::Push(r) => prefix16_len(r) + 1,
        InstrView::Pop(r) => prefix16_len(r) + 1,
        InstrView::Call(v) => 1 + value_len(v),
        InstrView::CallRegister(r) => prefix16_len(r) + 2,
        InstrView::Return => 1,
        InstrView::Not(r) => prefix16_len(r) + 2,
        InstrView::Neg(r) => prefix16_len(r) + 2,
        InstrView::ShiftLeft(r) => prefix16_len(r) + 2,
        InstrView::ShiftRight(r) => prefix16_len(r) + 2,
    }
}

/// Whether the register is `AL`, `AX` or `EAX`.
fn acc_reg(r: &Register) -> (b: bool)
    ensures
        b == is_accumulator(*r),
{
    *r == Register::AL || *r == Register::AX || *r == Register::EAX
}

impl Instruction {
    /// The length of the instruction's encoding in bytes.
    pub fn len(&self) -> (r: usize)
        ensures
            r == instr_len(self@),
    {
        match self {
            Instruction::RawData(x) => {
                let n: usize = x.len();
                proof {
                    assert(self@ == (InstrView::RawData(x@)));
                    assert(n == instr_len(InstrView::RawData(x@)));
                }
                return n;
            },
            Instruction::Int(x) => {
                let n: usize = 2;
                proof {
                    assert(self@ == (InstrView::Int(*x)));
                    assert(n == instr_len(InstrView::Int(*x)));
                }
                return n;
            },
            Instruction::Mov(dest, src) => {
                let n: usize = reg16_len(dest, 2);
                proof {
                    assert(self@ == (InstrView::Mov(*dest, *src)));
                    assert(n == instr_len(InstrView::Mov(*dest, *src)));
                }
                return n;
            },
            Instruction::MovImmediate { register, value } => {
                let n: usize = reg16_len(register, 1) + value.len();
                proof {
                    assert(self@ == (InstrView::MovImmediate { register: *register, value: value@ }));
                    assert(n == instr_len(InstrView::MovImmediate { register: *register, value: value@ }));
                }
                return n;
            },
            Instruction::MovMemoryReg { dest, src } => {
                let n: usize = reg16_len(src, 1) + (if *dest == Register::ESP || *dest == Register::EBP { 2 } else { 1 });
                proof {
                    assert(self@ == (InstrView::MovMemoryReg { dest: *dest, src: *src }));
                    assert(n == instr_len(InstrView::MovMemoryReg { dest: *dest, src: *src }));
                }
                return n;
            },
            Instruction::MovMemory { addr, register } => {
                let n: usize = reg16_len(register, if acc_reg(register) { 1 } else { 2 }) + addr.len();
                proof {
                    assert(self@ == (InstrView::MovMemory { addr: addr@, register: *register }));
                    assert(n == instr_len(InstrView::MovMemory { addr: addr@, register: *register }));
                }
                return n;
            },
            Instruction::MovFromMemory(register, addr) => {
                let n: usize = reg16_len(register, if acc_reg(register) { 1 } else { 2 }) + addr.len();
                proof {
                    assert(self@ == (InstrView::MovFromMemory(*register, addr@)));
                    assert(n == instr_len(InstrView::MovFromMemory(*register, addr@)));
                }
                return n;
            },
            Instruction::MovFromMemoryReg(dest, src) => {
                let n: usize = reg16_len(dest, 1) + (if *src == Register::ESP || *src == Register::EBP { 2 } else { 1 });
                proof {
                    assert(self@ == (InstrView::MovFromMemoryReg(*dest, *src)));
                    assert(n == instr_len(InstrView::MovFromMemoryReg(*dest, *src)));
                }
                return n;
            },
            Instruction::Inc(r) => {
                let n: usize = reg16_len(r, 1);
                proof {
                    assert(self@ == (InstrView::Inc(*r)));
                    assert(n == instr_len(InstrView::Inc(*r)));
                }
                return n;
            },
            Instruction::Dec(r) => {
                let n: usize = reg16_len(r, 1);
                proof {
                    assert(self@ == (InstrView::Dec(*r)));
                    assert(n == instr_len(InstrView::Dec(*r)));
                }
                return n;
            },
            Instruction::Jump { condition, addr } => {
                let n: usize = (if *condition == JumpCondition::Unconditional { 1 } else { 2 }) + addr.len();
                proof {
                    assert(self@ == (InstrView::Jump { condition: *condition, addr: addr@ }));
                    assert(n == instr_len(InstrView::Jump { condition: *condition, addr: addr@ }));
                }
                return n;
            },
            Instruction::Add(dest, src) => {
                let n: usize = reg16_len(dest, 2);
                proof {
                    assert(self@ == (InstrView::Add(*dest, *src)));
                    assert(n == instr_len(InstrView::Add(*dest, *src)));
                }
                return n;
            },
            Instruction::AddImmediate { register, value } => {
                let n: usize = reg16_len(register, if acc_reg(register) { 1 } else { 2 }) + value.len();
                proof {
                    assert(self@ == (InstrView::AddImmediate { register: *register, value: value@ }));
                    assert(n == instr_len(InstrView::AddImmediate { register: *register, value: value@ }));
                }
                return n;
            },
            Instruction::Sub(dest, src) => {
                let n: usize = reg16_len(dest, 2);
                proof {
                    assert(self@ == (InstrView::Sub(*dest, *src)));
                    assert(n == instr_len(InstrView::Sub(*dest, *src)));
                }
                return n;
            },
            Instruction::SubImmediate { register, value } => {
                let n: usize = reg16_len(register, if acc_reg(register) { 1 } else { 2 }) + value.len();
                proof {
                    assert(self@ == (InstrView::SubImmediate { register: *register, value: value@ }));
                    assert(n == instr_len(InstrView::SubImmediate { register: *register, value: value@ }));
                }
                return n;
            },
            Instruction::Multiply(r) => {
                let n: usize = reg16_len(r, 2);
                proof {
                    assert(self@ == (InstrView::Multiply(*r)));
                    assert(n == instr_len(InstrView::Multiply(*r)));
                }
                return n;
            },
            Instruction::Divide(r) => {
                let n: usize = reg16_len(r, 2);
                proof {
                    assert(self@ == (InstrView::Divide(*r)));
                    assert(n == instr_len(InstrView::Divide(*r)));
                }
                return n;
            },
            Instruction::ByteSwap(r) => {
                let n: usize = 2;
                proof {
                    assert(self@ == (InstrView::ByteSwap(*r)));
                    assert(n == instr_len(InstrView::ByteSwap(*r)));
                }
                return n;
            },
            Instruction::And(dest, src) => {
                let n: usize = reg16_len(dest, 2);
                proof {
                    assert(self@ == (InstrView::And(*dest, *src)));
                    assert(n == instr_len(InstrView::And(*dest, *src)));
                }
                return n;
            },
            Instruction::Or(dest, src) => {
                let n: usize = reg16_len(dest, 2);
                proof {
                    assert(self@ == (InstrView::Or(*dest, *src)));
                    assert(n == instr_len(InstrView::Or(*dest, *src)));
                }
                return n;
            },
            Instruction::XOr(dest, src) => {
                let n: usize = reg16_len(dest, 2);
                proof {
                    assert(self@ == (InstrView::XOr(*dest, *src)));
                    assert(n == instr_len(InstrView::XOr(*dest, *src)));
                }
                return n;
            },
            Instruction::Compare(dest, src) => {
                let n: usize = reg16_len(dest, 2);
                proof {
                    assert(self@ == (InstrView::Compare(*dest, *src)));
                    assert(n == instr_len(InstrView::Compare(*dest, *src)));
                }
                return n;
            },
            Instruction::CompareImmediate(register, value) => {
                let n: usize = reg16_len(register, if acc_reg(register) { 1 } else { 2 }) + value.len();
                proof {
                    assert(self@ == (InstrView::CompareImmediate(*register, value@)));
                    assert(n == instr_len(InstrView::CompareImmediate(*register, value@)));
                }
                return n;
            },
            Instruction::Push(r) => {
                let n: usize = reg16_len(r, 1);
                proof {
                    assert(self@ == (InstrView::Push(*r)));
                    assert(n == instr_len(InstrView::Push(*r)));
                }
                return n;
            },
            Instruction::Pop(r) => {
                let n: usize = reg16_len(r, 1);
                proof {
                    assert(self@ == (InstrView::Pop(*r)));
                    assert(n == instr_len(InstrView::Pop(*r)));
                }
                return n;
            },
            Instruction::Call(v) => {
                let n: usize = 1 + v.len();
                proof {
                    assert(self@ == (InstrView::Call(v@)));
                    assert(n == instr_len(InstrView::Call(v@)));
                }
                return n;
            },
            Instruction::CallRegister(r) => {
                let n: usize = reg16_len(r, 2);
                proof {
                    assert(self@ == (InstrView::CallRegister(*r)));
                    assert(n == instr_len(InstrView::CallRegister(*r)));
                }
                return n;
            },
            Instruction::Return => {
                let n: usize = 1;
                proof {
                    assert(self@ == (InstrView::Return));
                    assert(n == instr_len(InstrView::Return));
                }
                return n;
            },
            Instruction::Not(r) => {
                let n: usize = reg16_len(r, 2);
                proof {
                    assert(self@ == (InstrView::Not(*r)));
                    assert(n == instr_len(InstrView::Not(*r)));
                }
                return n;
            },
            Instruction::Neg(r) => {
                let n: usize = reg16_len(r, 2);
                proof {
                    assert(self@ == (InstrView::Neg(*r)));
                    assert(n == instr_len(InstrView::Neg(*r)));
                }
                return n;
            },
            Instruction::ShiftLeft(r) => {
                let n: usize = reg16_len(r, 2);
                proof {
                    assert(self@ == (InstrView::ShiftLeft(*r)));
                    assert(n == instr_len(InstrView::ShiftLeft(*r)));
                }
                return n;
            },
            Instruction::ShiftRight(r) => {
                let n: usize = reg16_len(r, 2);
                proof {
                    assert(self@ == (InstrView::ShiftRight(*r)));
                    assert(n == instr_len(InstrView::ShiftRight(*r)));
                }
                return n;
            },
        }
    }
}

/// The base length of a form, plus one for the operand-size prefix of the
/// 16-bit registers.
fn reg16_len(r: &Register, base: usize) -> (n: usize)
    requires
        base <= 8,
    ensures
        n == prefix16_len(*r) + base,
{
    if r.bits() == 16 {
        base + 1
    } else {
        base
    }
}

/// A memory-addressing ModR/M byte with mod = 00: reg = `op`, r/m = `rm`.
pub open spec fn modrm_mem(op: u8, rm: u8) -> u8 {
    (op << 3) | rm
}

/// A memory-addressing ModR/M byte with mod = 01 (8-bit displacement
/// follows): reg = `op`, r/m = `rm`.
pub open spec fn modrm_disp8(op: u8, rm: u8) -> u8 {
    0x40u8 | (op << 3) | rm
}

/// The exact bytes one instruction encodes to, resolved against the
/// program's label table; `end_off` is the file offset immediately after the
/// instruction, the base of PC-relative displacements.
///
/// Determinism rules: every 16-bit form is prefixed by `0x66` first;
/// accumulator-destination immediate forms use the short opcodes and omit the
/// ModR/M byte; memory addressing through `ESP` takes `r/m = 100` and the SIB
/// byte `0x24`; through `EBP` it takes `mod = 01`, `r/m = 101` and a zero
/// 8-bit displacement; a conditional jump's second opcode byte is the
/// condition's `code`.
pub open spec fn instr_bytes(
    i: InstrView,
    p: crate::program::ProgramView,
    end_off: int,
) -> Seq<u8> {
    match i {
        InstrView::RawData(x) => x,
        InstrView::Int(x) => seq![0xCDu8, x],
        InstrView::Mov(dest, src) => prefix16(dest) + seq![
            if dest.spec_bits() == 8 { 0x88u8 } else { 0x89u8 },
            modrm_direct(src.spec_offset(), dest.spec_offset()),
        ],
        InstrView::MovImmediate { register, value } => prefix16(register) + seq![
            (((if register.spec_bits() == 8 { 0xB0int } else { 0xB8int }) + register.spec_offset()) as u8),
        ] + crate::value_bytes(value, p, end_off),
        InstrView::MovMemoryReg { dest, src } => prefix16(src) + seq![
            if src.spec_bits() == 8 { 0x88u8 } else { 0x89u8 },
        ] + (if dest == Register::ESP {
            seq![modrm_mem(src.spec_offset(), dest.spec_offset()), 0x24u8]
        } else if dest == Register::EBP {
            seq![modrm_disp8(src.spec_offset(), dest.spec_offset()), 0x00u8]
        } else {
            seq![modrm_mem(src.spec_offset(), dest.spec_offset())]
        }),
        InstrView::MovMemory { addr, register } => prefix16(register) + (
        if is_accumulator(register) {
            Seq::<u8>::empty()
        } else {
            seq![if register.spec_bits() == 8 { 0x88u8 } else { 0x89u8 }]
        }) + seq![
            if register == Register::AL {
                0xA2u8
            } else if register == Register::AX || register == Register::EAX {
                0xA3u8
            } else {
                ((0x05 + register.spec_offset() * 8) as u8)
            },
        ] + crate::value_bytes(addr, p, end_off),
        InstrView::MovFromMemory(register, addr) => prefix16(register) + (
        if is_accumulator(register) {
            Seq::<u8>::empty()
        } else {
            seq![if register.spec_bits() == 8 { 0x8Au8 } else { 0x8Bu8 }]
        }) + seq![
            if register == Register::AL {
                0xA0u8
            } else if register == Register::AX || register == Register::EAX {
                0xA1u8
            } else {
                ((0x05 + register.spec_offset() * 8) as u8)
            },
        ] + crate::value_bytes(addr, p, end_off),
        InstrView::MovFromMemoryReg(dest, src) => prefix16(dest) + seq![
            if dest.spec_bits() == 8 { 0x8Au8 } else { 0x8Bu8 },
        ] + (if src == Register::ESP {
            seq![modrm_mem(dest.spec_offset(), src.spec_offset()), 0x24u8]
        } else if src == Register::EBP {
            seq![modrm_disp8(dest.spec_offset(), src.spec_offset()), 0x00u8]
        } else {
            seq![modrm_mem(dest.spec_offset(), src.spec_offset())]
        }),
        InstrView::Inc(r) => prefix16(r) + seq![((0x40 + r.spec_offset()) as u8)],
        InstrView::Dec(r) => prefix16(r) + seq![((0x48 + r.spec_offset()) as u8)],
        InstrView::Jump { condition, addr } => (
        if condition == JumpCondition::Unconditional {
            seq![0xE9u8]
        } else {
            seq![0x0Fu8, condition.spec_code()]
        }) + crate::value_bytes(addr, p, end_off),
        InstrView::Add(dest, src) => prefix16(dest) + seq![
            if dest.spec_bits() == 8 { 0x00u8 } else { 0x01u8 },
            modrm_direct(src.spec_offset(), dest.spec_offset()),
        ],
        InstrView::AddImmediate { register, value } => prefix16(register) + (
        if is_accumulator(register) {
            Seq::<u8>::empty()
        } else {
            seq![if register.spec_bits() == 8 { 0x80u8 } else { 0x81u8 }]
        }) + seq![
            if register == Register::AL {
                0x04u8
            } else if register == Register::AX || register == Register::EAX {
                0x05u8
            } else {
                ((0xC0 + register.spec_offset()) as u8)
            },
        ] + crate::value_bytes(value, p, end_off),
        InstrView::Sub(dest, src) => prefix16(dest) + seq![
            if dest.spec_bits() == 8 { 0x28u8 } else { 0x29u8 },
            modrm_direct(src.spec_offset(), dest.spec_offset()),
        ],
        InstrView::SubImmediate { register, value } => prefix16(register) + (
        if is_accumulator(register) {
            Seq::<u8>::empty()
        } else {
            seq![if register.spec_bits() == 8 { 0x80u8 } else { 0x81u8 }]
        }) + seq![
            if register == Register::AL {
                0x2Cu8
            } else if register == Register::AX || register == Register::EAX {
                0x2Du8
            } else {
                ((0xE8 + register.spec_offset()) as u8)
            },
        ] + crate::value_bytes(value, p, end_off),
        InstrView::Multiply(r) => prefix16(r) + seq![
            if r.spec_bits() == 8 { 0xF6u8 } else { 0xF7u8 },
            ((0xE0 + r.spec_offset()) as u8),
        ],
        InstrView::Divide(r) => prefix16(r) + seq![
            if r.spec_bits() == 8 { 0xF6u8 } else { 0xF7u8 },
            ((0xF0 + r.spec_offset()) as u8),
        ],
        InstrView::ByteSwap(r) => seq![0x0Fu8, ((0xC8 + r.spec_offset()) as u8)],
        InstrView::And(dest, src) => prefix16(dest) + seq![
            if dest.spec_bits() == 8 { 0x20u8 } else { 0x21u8 },
            modrm_direct(src.spec_offset(), dest.spec_offset()),
        ],
        InstrView::Or(dest, src) => prefix16(dest) + seq![
            if dest.spec_bits() == 8 { 0x08u8 } else { 0x09u8 },
            modrm_direct(src.spec_offset(), dest.spec_offset()),
        ],
        InstrView::XOr(dest, src) => prefix16(dest) + seq![
            if dest.spec_bits() == 8 { 0x30u8 } else { 0x31u8 },
            modrm_direct(src.spec_offset(), dest.spec_offset()),
        ],
        InstrView::Compare(dest, src) => prefix16(dest) + seq![
            if dest.spec_bits() == 8 { 0x38u8 } else { 0x39u8 },
            modrm_direct(src.spec_offset(), dest.spec_offset()),
        ],
        InstrView::CompareImmediate(register, value) => prefix16(register) + (
        if is_accumulator(register) {
            Seq::<u8>::empty()
        } else {
            seq![if register.spec_bits() == 8 { 0x80u8 } else { 0x81u8 }]
        }) + seq![
            if register == Register::AL {
                0x3Cu8
            } else if register == Register::AX || register == Register::EAX {
                0x3Du8
            } else {
                ((0xF8 + register.spec_offset()) as u8)
            },
        ] + crate::value_bytes(value, p, end_off),
        InstrView::Push(r) => prefix16(r) + seq![((0x50 + r.spec_offset()) as u8)],
        InstrView::Pop(r) => prefix16(r) + seq![((0x58 + r.spec_offset()) as u8)],
        InstrView::Call(v) => seq![0xE8u8] + crate::value_bytes(v, p, end_off),
        InstrView::CallRegister(r) => prefix16(r) + seq![0xFFu8, ((0xD0 + r.spec_offset()) as u8)],
        InstrView::Return => seq![0xC3u8],
        InstrView::Not(r) => prefix16(r) + seq![
            if r.spec_bits() == 8 { 0xF6u8 } else { 0xF7u8 },
            ((0xD0 + r.spec_offset()) as u8),
        ],
        InstrView::Neg(r) => prefix16(r) + seq![
            if r.spec_bits() == 8 { 0xF6u8 } else { 0xF7u8 },
            ((0xD8 + r.spec_offset()) as u8),
        ],
        InstrView::ShiftLeft(r) => prefix16(r) + seq![
            if r.spec_bits() == 8 { 0xD0u8 } else { 0xD1u8 },
            ((0xE0 + r.spec_offset()) as u8),
        ],
        InstrView::ShiftRight(r) => prefix16(r) + seq![
            if r.spec_bits() == 8 { 0xD0u8 } else { 0xD1u8 },
            ((0xE8 + r.spec_offset()) as u8),
        ],
    }
}

// The length law holds of each operand shape separately; the lemma below
// dispatches over them.
proof fn lemma_len_raw_data(x: Seq<u8>, p: crate::program::ProgramView, end_off: int)
    ensures
        instr_bytes(InstrView::RawData(x), p, end_off).len() == instr_len(InstrView::RawData(x)),
{
}

proof fn lemma_len_int(x: u8, p: crate::program::ProgramView, end_off: int)
    ensures
        instr_bytes(InstrView::Int(x), p, end_off).len() == instr_len(InstrView::Int(x)),
{
}

proof fn lemma_len_mov(a: Register, b: Register, p: crate::program::ProgramView, end_off: int)
    ensures
        instr_bytes(InstrView::Mov(a, b), p, end_off).len() == instr_len(InstrView::Mov(a, b)),
{
}

proof fn lemma_len_mov_immediate(register: Register, value: ValueView, p: crate::program::ProgramView, end_off: int)
    ensures
        instr_bytes(InstrView::MovImmediate { register, value }, p, end_off).len() == instr_len(InstrView::MovImmediate { register, value }),
{
    crate::lemma_value_bytes_len(value, p, end_off);
}

proof fn lemma_len_mov_memory_reg(dest: Register, src: Register, p: crate::program::ProgramView, end_off: int)
    ensures
        instr_bytes(InstrView::MovMemoryReg { dest, src }, p, end_off).len() == instr_len(InstrView::MovMemoryReg { dest, src }),
{
}

proof fn lemma_len_mov_memory(addr: ValueView, register: Register, p: crate::program::ProgramView, end_off: int)
    ensures
        instr_bytes(InstrView::MovMemory { addr, register }, p, end_off).len() == instr_len(InstrView::MovMemory { addr, register }),
{
    crate::lemma_value_bytes_len(addr, p, end_off);
}

proof fn lemma_len_mov_from_memory(register: Register, addr: ValueView, p: crate::program::ProgramView, end_off: int)
    ensures
        instr_bytes(InstrView::MovFromMemory(register, addr), p, end_off).len() == instr_len(InstrView::MovFromMemory(register, addr)),
{
    crate::lemma_value_bytes_len(addr, p, end_off);
}

proof fn lemma_len_mov_from_memory_reg(a: Register, b: Register, p: crate::program::ProgramView, end_off: int)
    ensures
        instr_bytes(InstrView::MovFromMemoryReg(a, b), p, end_off).len() == instr_len(InstrView::MovFromMemoryReg(a, b)),
{
}

proof fn lemma_len_inc(r: Register, p: crate::program::ProgramView, end_off: int)
    ensures
        instr_bytes(InstrView::Inc(r), p, end_off).len() == instr_len(InstrView::Inc(r)),
{
}

proof fn lemma_len_dec(r: Register, p: crate::program::ProgramView, end_off: int)
    ensures
        instr_bytes(InstrView::Dec(r), p, end_off).len() == instr_len(InstrView::Dec(r)),
{
}

proof fn lemma_len_jump(condition: JumpCondition, addr: ValueView, p: crate::program::ProgramView, end_off: int)
    ensures
        instr_bytes(InstrView::Jump { condition, addr }, p, end_off).len() == instr_len(InstrView::Jump { condition, addr }),
{
    crate::lemma_value_bytes_len(addr, p, end_off);
}

proof fn lemma_len_add(a: Register, b: Register, p: crate::program::ProgramView, end_off: int)
    ensures
        instr_bytes(InstrView::Add(a, b), p, end_off).len() == instr_len(InstrView::Add(a, b)),
{
}

proof fn lemma_len_add_immediate(register: Register, value: ValueView, p: crate::program::ProgramView, end_off: int)
    ensures
        instr_bytes(InstrView::AddImmediate { register, value }, p, end_off).len() == instr_len(InstrView::AddImmediate { register, value }),
{
    crate::lemma_value_bytes_len(value, p, end_off);
}

proof fn lemma_len_sub(a: Register, b: Register, p: crate::program::ProgramView, end_off: int)
    ensures
        instr_bytes(InstrView::Sub(a, b), p, end_off).len() == instr_len(InstrView::Sub(a, b)),
{
}

proof fn lemma_len_sub_immediate(register: Register, value: ValueView, p: crate::program::ProgramView, end_off: int)
    ensures
        instr_bytes(InstrView::SubImmediate { register, value }, p, end_off).len() == instr_len(InstrView::SubImmediate { register, value }),
{
    crate::lemma_value_bytes_len(value, p, end_off);
}

proof fn lemma_len_multiply(r: Register, p: crate::program::ProgramView, end_off: int)
    ensures
        instr_bytes(InstrView::Multiply(r), p, end_off).len() == instr_len(InstrView::Multiply(r)),
{
}

proof fn lemma_len_divide(r: Register, p: crate::program::ProgramView, end_off: int)
    ensures
        instr_bytes(InstrView::Divide(r), p, end_off).len() == instr_len(InstrView::Divide(r)),
{
}

proof fn lemma_len_byte_swap(r: Register, p: crate::program::ProgramView, end_off: int)
    ensures
        instr_bytes(InstrView::ByteSwap(r), p, end_off).len() == instr_len(InstrView::ByteSwap(r)),
{
}

proof fn lemma_len_and(a: Register, b: Register, p: crate::program::ProgramView, end_off: int)
    ensures
        instr_bytes(InstrView::And(a, b), p, end_off).len() == instr_len(InstrView::And(a, b)),
{
}

proof fn lemma_len_or(a: Register, b: Register, p: crate::program::ProgramView, end_off: int)
    ensures
        instr_bytes(InstrView::Or(a, b), p, end_off).len() == instr_len(InstrView::Or(a, b)),
{
}

proof fn lemma_len_xor(a: Register, b: Register, p: crate::program::ProgramView, end_off: int)
    ensures
        instr_bytes(InstrView::XOr(a, b), p, end_off).len() == instr_len(InstrView::XOr(a, b)),
{
}

proof fn lemma_len_compare(a: Register, b: Register, p: crate::program::ProgramView, end_off: int)
    ensures
        instr_bytes(InstrView::Compare(a, b), p, end_off).len() == instr_len(InstrView::Compare(a, b)),
{
}

proof fn lemma_len_compare_immediate(register: Register, value: ValueView, p: crate::program::ProgramView, end_off: int)
    ensures
        instr_bytes(InstrView::CompareImmediate(register, value), p, end_off).len() == instr_len(InstrView::CompareImmediate(register, value)),
{
    crate::lemma_value_bytes_len(value, p, end_off);
}

proof fn lemma_len_push(r: Register, p: crate::program::ProgramView, end_off: int)
    ensures
        instr_bytes(InstrView::Push(r), p, end_off).len() == instr_len(InstrView::Push(r)),
{
}

proof fn lemma_len_pop(r: Register, p: crate::program::ProgramView, end_off: int)
    ensures
        instr_bytes(InstrView::Pop(r), p, end_off).len() == instr_len(InstrView::Pop(r)),
{
}

proof fn lemma_len_call(v: ValueView, p: crate::program::ProgramView, end_off: int)
    ensures
        instr_bytes(InstrView::Call(v), p, end_off).len() == instr_len(InstrView::Call(v)),
{
    crate::lemma_value_bytes_len(v, p, end_off);
}

proof fn lemma_len_call_register(r: Register, p: crate::program::ProgramView, end_off: int)
    ensures
        instr_bytes(InstrView::CallRegister(r), p, end_off).len() == instr_len(InstrView::CallRegister(r)),
{
}

proof fn lemma_len_ret(p: crate::program::ProgramView, end_off: int)
    ensures
        instr_bytes(InstrView::Return, p, end_off).len() == instr_len(InstrView::Return),
{
}

proof fn lemma_len_not(r: Register, p: crate::program::ProgramView, end_off: int)
    ensures
        instr_bytes(InstrView::Not(r), p, end_off).len() == instr_len(InstrView::Not(r)),
{
}

proof fn lemma_len_neg(r: Register, p: crate::program::ProgramView, end_off: int)
    ensures
        instr_bytes(InstrView::Neg(r), p, end_off).len() == instr_len(InstrView::Neg(r)),
{
}

proof fn lemma_len_shift_left(r: Register, p: crate::program::ProgramView, end_off: int)
    ensures
        instr_bytes(InstrView::ShiftLeft(r), p, end_off).len() == instr_len(InstrView::ShiftLeft(r)),
{
}

proof fn lemma_len_shift_right(r: Register, p: crate::program::ProgramView, end_off: int)
    ensures
        instr_bytes(InstrView::ShiftRight(r), p, end_off).len() == instr_len(InstrView::ShiftRight(r)),
{
}

/// Encoding an instruction emits exactly `instr_len` bytes.
pub proof fn lemma_instr_bytes_len(i: InstrView, p: crate::program::ProgramView, end_off: int)
    ensures
        instr_bytes(i, p, end_off).len() == instr_len(i),
{
    match i {
        InstrView::RawData(x) => {
            lemma_len_raw_data(x, p, end_off);
        },
        InstrView::Int(x) => {
            lemma_len_int(x, p, end_off);
        },
        InstrView::Mov(a, b) => {
            lemma_len_mov(a, b, p, end_off);
        },
        InstrView::MovImmediate { register, value } => {
            lemma_len_mov_immediate(register, value, p, end_off);
        },
        InstrView::MovMemoryReg { dest, src } => {
            lemma_len_mov_memory_reg(dest, src, p, end_off);
        },
        InstrView::MovMemory { addr, register } => {
            lemma_len_mov_memory(addr, register, p, end_off);
        },
        InstrView::MovFromMemory(register, addr) => {
            lemma_len_mov_from_memory(register, addr, p, end_off);
        },
        InstrView::MovFromMemoryReg(a, b) => {
            lemma_len_mov_from_memory_reg(a, b, p, end_off);
        },
        InstrView::Inc(r) => {
            lemma_len_inc(r, p, end_off);
        },
        InstrView::Dec(r) => {
            lemma_len_dec(r, p, end_off);
        },
        InstrView::Jump { condition, addr } => {
            lemma_len_jump(condition, addr, p, end_off);
        },
        InstrView::Add(a, b) => {
            lemma_len_add(a, b, p, end_off);
        },
        InstrView::AddImmediate { register, value } => {
            lemma_len_add_immediate(register, value, p, end_off);
        },
        InstrView::Sub(a, b) => {
            lemma_len_sub(a, b, p, end_off);
        },
        InstrView::SubImmediate { register, value } => {
            lemma_len_sub_immediate(register, value, p, end_off);
        },
        InstrView::Multiply(r) => {
            lemma_len_multiply(r, p, end_off);
        },
        InstrView::Divide(r) => {
            lemma_len_divide(r, p, end_off);
        },
        InstrView::ByteSwap(r) => {
            lemma_len_byte_swap(r, p, end_off);
        },
        InstrView::And(a, b) => {
            lemma_len_and(a, b, p, end_off);
        },
        InstrView::Or(a, b) => {
            lemma_len_or(a, b, p, end_off);
        },
        InstrView::XOr(a, b) => {
            lemma_len_xor(a, b, p, end_off);
        },
        InstrView::Compare(a, b) => {
            lemma_len_compare(a, b, p, end_off);
        },
        InstrView::CompareImmediate(register, value) => {
            lemma_len_compare_immediate(register, value, p, end_off);
        },
        InstrView::Push(r) => {
            lemma_len_push(r, p, end_off);
        },
        InstrView::Pop(r) => {
            lemma_len_pop(r, p, end_off);
        },
        InstrView::Call(v) => {
            lemma_len_call(v, p, end_off);
        },
        InstrView::CallRegister(r) => {
            lemma_len_call_register(r, p, end_off);
        },
        InstrView::Return => {
            lemma_len_ret(p, end_off);
        },
        InstrView::Not(r) => {
            lemma_len_not(r, p, end_off);
        },
        InstrView::Neg(r) => {
            lemma_len_neg(r, p, end_off);
        },
        InstrView::ShiftLeft(r) => {
            lemma_len_shift_left(r, p, end_off);
        },
        InstrView::ShiftRight(r) => {
            lemma_len_shift_right(r, p, end_off);
        },
    }
}

impl crate::program::Program {
    /// Encodes one instruction against this program's label table. `cur_addr`
    /// is the address immediately after the instruction, against which
    /// PC-relative operands are resolved.
    pub fn encode_instruction(&self, instr: &Instruction, cur_addr: crate::addr::Addr) -> (r: Vec<
        u8,
    >)
        requires
            self.wf(),
        ensures
            r@ == instr_bytes(instr@, self@, cur_addr.addr as int),
    {
        match instr {
            Instruction::RawData(x) => {
                let r = self.enc_raw_data(x, cur_addr);
                proof {
                    assert(instr@ == (InstrView::RawData(x@)));
                }
                return r;
            },
            Instruction::Int(x) => {
                let r = self.enc_int(x, cur_addr);
                proof {
                    assert(instr@ == (InstrView::Int(*x)));
                }
                return r;
            },
            Instruction::Mov(dest, src) => {
                let r = self.enc_mov(dest, src, cur_addr);
                proof {
                    assert(instr@ == (InstrView::Mov(*dest, *src)));
                }
                return r;
            },
            Instruction::MovImmediate { register, value } => {
                let r = self.enc_mov_immediate(register, value, cur_addr);
                proof {
                    assert(instr@ == (InstrView::MovImmediate { register: *register, value: value@ }));
                }
                return r;
            },
            Instruction::MovMemoryReg { dest, src } => {
                let r = self.enc_mov_memory_reg(dest, src, cur_addr);
                proof {
                    assert(instr@ == (InstrView::MovMemoryReg { dest: *dest, src: *src }));
                }
                return r;
            },
            Instruction::MovMemory { addr, register } => {
                let r = self.enc_mov_memory(addr, register, cur_addr);
                proof {
                    assert(instr@ == (InstrView::MovMemory { addr: addr@, register: *register }));
                }
                return r;
            },
            Instruction::MovFromMemory(register, addr) => {
                let r = self.enc_mov_from_memory(register, addr, cur_addr);
                proof {
                    assert(instr@ == (InstrView::MovFromMemory(*register, addr@)));
                }
                return r;
            },
            Instruction::MovFromMemoryReg(dest, src) => {
                let r = self.enc_mov_from_memory_reg(dest, src, cur_addr);
                proof {
                    assert(instr@ == (InstrView::MovFromMemoryReg(*dest, *src)));
                }
                return r;
            },
            Instruction::Inc(register) => {
                let r = self.enc_inc(register, cur_addr);
                proof {
                    assert(instr@ == (InstrView::Inc(*register)));
                }
                return r;
            },
            Instruction::Dec(register) => {
                let r = self.enc_dec(register, cur_addr);
                proof {
                    assert(instr@ == (InstrView::Dec(*register)));
                }
                return r;
            },
            Instruction::Jump { condition, addr } => {
                let r = self.enc_jump(condition, addr, cur_addr);
                proof {
                    assert(instr@ == (InstrView::Jump { condition: *condition, addr: addr@ }));
                }
                return r;
            },
            Instruction::Add(dest, src) => {
                let r = self.enc_add(dest, src, cur_addr);
                proof {
                    assert(instr@ == (InstrView::Add(*dest, *src)));
                }
                return r;
            },
            Instruction::AddImmediate { register, value } => {
                let r = self.enc_add_immediate(register, value, cur_addr);
                proof {
                    assert(instr@ == (InstrView::AddImmediate { register: *register, value: value@ }));
                }
                return r;
            },
            Instruction::Sub(dest, src) => {
                let r = self.enc_sub(dest, src, cur_addr);
                proof {
                    assert(instr@ == (InstrView::Sub(*dest, *src)));
                }
                return r;
            },
            Instruction::SubImmediate { register, value } => {
                let r = self.enc_sub_immediate(register, value, cur_addr);
                proof {
                    assert(instr@ == (InstrView::SubImmediate { register: *register, value: value@ }));
                }
                return r;
            },
            Instruction::Multiply(register) => {
                let r = self.enc_multiply(register, cur_addr);
                proof {
                    assert(instr@ == (InstrView::Multiply(*register)));
                }
                return r;
            },
            Instruction::Divide(register) => {
                let r = self.enc_divide(register, cur_addr);
                proof {
                    assert(instr@ == (InstrView::Divide(*register)));
                }
                return r;
            },
            Instruction::ByteSwap(register) => {
                let r = self.enc_byte_swap(register, cur_addr);
                proof {
                    assert(instr@ == (InstrView::ByteSwap(*register)));
                }
                return r;
            },
            Instruction::And(dest, src) => {
                let r = self.enc_and(dest, src, cur_addr);
                proof {
                    assert(instr@ == (InstrView::And(*dest, *src)));
                }
                return r;
            },
            Instruction::Or(dest, src) => {
                let r = self.enc_or(dest, src, cur_addr);
                proof {
                    assert(instr@ == (InstrView::Or(*dest, *src)));
                }
                return r;
            },
            Instruction::XOr(dest, src) => {
                let r = self.enc_xor(dest, src, cur_addr);
                proof {
                    assert(instr@ == (InstrView::XOr(*dest, *src)));
                }
                return r;
            },
            Instruction::Compare(dest, src) => {
                let r = self.enc_compare(dest, src, cur_addr);
                proof {
                    assert(instr@ == (InstrView::Compare(*dest, *src)));
                }
                return r;
            },
            Instruction::CompareImmediate(register, value) => {
                let r = self.enc_compare_immediate(register, value, cur_addr);
                proof {
                    assert(instr@ == (InstrView::CompareImmediate(*register, value@)));
                }
                return r;
            },
            Instruction::Push(register) => {
                let r = self.enc_push(register, cur_addr);
                proof {
                    assert(instr@ == (InstrView::Push(*register)));
                }
                return r;
            },
            Instruction::Pop(register) => {
                let r = self.enc_pop(register, cur_addr);
                proof {
                    assert(instr@ == (InstrView::Pop(*register)));
                }
                return r;
            },
            Instruction::Call(value) => {
                let r = self.enc_call(value, cur_addr);
                proof {
                    assert(instr@ == (InstrView::Call(value@)));
                }
                return r;
            },
            Instruction::CallRegister(register) => {
                let r = self.enc_call_register(register, cur_addr);
                proof {
                    assert(instr@ == (InstrView::CallRegister(*register)));
                }
                return r;
            },
            Instruction::Return => {
                let r = self.enc_return(cur_addr);
                proof {
                    assert(instr@ == (InstrView::Return));
                }
                return r;
            },
            Instruction::Not(register) => {
                let r = self.enc_not(register, cur_addr);
                proof {
                    assert(instr@ == (InstrView::Not(*register)));
                }
                return r;
            },
            Instruction::Neg(register) => {
                let r = self.enc_neg(register, cur_addr);
                proof {
                    assert(instr@ == (InstrView::Neg(*register)));
                }
                return r;
            },
            Instruction::ShiftLeft(register) => {
                let r = self.enc_shift_left(register, cur_addr);
                proof {
                    assert(instr@ == (InstrView::ShiftLeft(*register)));
                }
                return r;
            },
            Instruction::ShiftRight(register) => {
                let r = self.enc_shift_right(register, cur_addr);
                proof {
                    assert(instr@ == (InstrView::ShiftRight(*register)));
                }
                return r;
            },
        }
    }

    /// Byte emission for this operand shape.
    fn enc_raw_data(&self, x: &Vec<u8>, cur_addr: crate::addr::Addr) -> (r: Vec<u8>)
        requires
            self.wf(),
        ensures
            r@ == instr_bytes(InstrView::RawData(x@), self@, cur_addr.addr as int),
    {
        let ghost end: int = cur_addr.addr as int;
        let mut data: Vec<u8> = Vec::new();
        data.extend_from_slice(x.as_slice());
        proof {
            assert(data@ =~= instr_bytes(InstrView::RawData(x@), self@, end));
        }
        return data;
    }

    /// Byte emission for this operand shape.
    fn enc_int(&self, x: &u8, cur_addr: crate::addr::Addr) -> (r: Vec<u8>)
        requires
            self.wf(),
        ensures
            r@ == instr_bytes(InstrView::Int(*x), self@, cur_addr.addr as int),
    {
        let ghost end: int = cur_addr.addr as int;
        let mut data: Vec<u8> = Vec::new();
        data.push(0xCD);
        data.push(*x);
        proof {
            assert(data@ =~= instr_bytes(InstrView::Int(*x), self@, end));
        }
        return data;
    }

    /// Byte emission for this operand shape.
    fn enc_mov(&self, dest: &Register, src: &Register, cur_addr: crate::addr::Addr) -> (r: Vec<u8>)
        requires
            self.wf(),
        ensures
            r@ == instr_bytes(InstrView::Mov(*dest, *src), self@, cur_addr.addr as int),
    {
        let ghost end: int = cur_addr.addr as int;
        let mut data: Vec<u8> = Vec::new();
        if dest.bits() == 16 {
            data.push(0x66);
        }
        data.push(if dest.bits() == 8 { 0x88 } else { 0x89 });
        data.push(0xC0 | (src.offset() << 3u8) | dest.offset());
        proof {
            assert(data@ =~= instr_bytes(InstrView::Mov(*dest, *src), self@, end));
        }
        return data;
    }

    /// Byte emission for this operand shape.
    fn enc_mov_immediate(&self, register: &Register, value: &Value, cur_addr: crate::addr::Addr) -> (r: Vec<u8>)
        requires
            self.wf(),
        ensures
            r@ == instr_bytes(InstrView::MovImmediate { register: *register, value: value@ }, self@, cur_addr.addr as int),
    {
        let ghost end: int = cur_addr.addr as int;
        let mut data: Vec<u8> = Vec::new();
        if register.bits() == 16 {
            data.push(0x66);
        }
        let start: u8 = if register.bits() == 8 { 0xB0 } else { 0xB8 };
        data.push(start + register.offset());
        let vb = value.as_vec(self, cur_addr);
        data.extend_from_slice(vb.as_slice());
        proof {
            assert(data@ =~= instr_bytes(
                InstrView::MovImmediate { register: *register, value: value@ },
                self@,
                end,
            ));
        }
        return data;
    }

    /// Byte emission for this operand shape.
    fn enc_mov_memory_reg(&self, dest: &Register, src: &Register, cur_addr: crate::addr::Addr) -> (r: Vec<u8>)
        requires
            self.wf(),
        ensures
            r@ == instr_bytes(InstrView::MovMemoryReg { dest: *dest, src: *src }, self@, cur_addr.addr as int),
    {
        let ghost end: int = cur_addr.addr as int;
        let mut data: Vec<u8> = Vec::new();
        if src.bits() == 16 {
            data.push(0x66);
        }
        data.push(if src.bits() == 8 { 0x88 } else { 0x89 });
        let op = src.offset();
        let rm = dest.offset();
        if *dest == Register::ESP {
            data.push((op << 3u8) | rm);
            data.push(0x24);
        } else if *dest == Register::EBP {
            data.push(0x40 | (op << 3u8) | rm);
            data.push(0x00);
        } else {
            data.push((op << 3u8) | rm);
        }
        proof {
            assert(data@ =~= instr_bytes(
                InstrView::MovMemoryReg { dest: *dest, src: *src },
                self@,
                end,
            ));
        }
        return data;
    }

    /// Byte emission for this operand shape.
    fn enc_mov_memory(&self, addr: &Value, register: &Register, cur_addr: crate::addr::Addr) -> (r: Vec<u8>)
        requires
            self.wf(),
        ensures
            r@ == instr_bytes(InstrView::MovMemory { addr: addr@, register: *register }, self@, cur_addr.addr as int),
    {
        let ghost end: int = cur_addr.addr as int;
        let mut data: Vec<u8> = Vec::new();
        if register.bits() == 16 {
            data.push(0x66);
        }
        if !acc_reg(register) {
            data.push(if register.bits() == 8 { 0x88 } else { 0x89 });
        }
        data.push(
            if *register == Register::AL {
                0xA2
            } else if *register == Register::AX || *register == Register::EAX {
                0xA3
            } else {
                0x05 + register.offset() * 8
            },
        );
        let vb = addr.as_vec(self, cur_addr);
        data.extend_from_slice(vb.as_slice());
        proof {
            assert(data@ =~= instr_bytes(
                InstrView::MovMemory { addr: addr@, register: *register },
                self@,
                end,
            ));
        }
        return data;
    }

    /// Byte emission for this operand shape.
    fn enc_mov_from_memory(&self, register: &Register, addr: &Value, cur_addr: crate::addr::Addr) -> (r: Vec<u8>)
        requires
            self.wf(),
        ensures
            r@ == instr_bytes(InstrView::MovFromMemory(*register, addr@), self@, cur_addr.addr as int),
    {
        let ghost end: int = cur_addr.addr as int;
        let mut data: Vec<u8> = Vec::new();
        if register.bits() == 16 {
            data.push(0x66);
        }
        if !acc_reg(register) {
            data.push(if register.bits() == 8 { 0x8A } else { 0x8B });
        }
        data.push(
            if *register == Register::AL {
                0xA0
            } else if *register == Register::AX || *register == Register::EAX {
                0xA1
            } else {
                0x05 + register.offset() * 8
            },
        );
        let vb = addr.as_vec(self, cur_addr);
        data.extend_from_slice(vb.as_slice());
        proof {
            assert(data@ =~= instr_bytes(
                InstrView::MovFromMemory(*register, addr@),
                self@,
                end,
            ));
        }
        return data;
    }

    /// Byte emission for this operand shape.
    fn enc_mov_from_memory_reg(&self, dest: &Register, src: &Register, cur_addr: crate::addr::Addr) -> (r: Vec<u8>)
        requires
            self.wf(),
        ensures
            r@ == instr_bytes(InstrView::MovFromMemoryReg(*dest, *src), self@, cur_addr.addr as int),
    {
        let ghost end: int = cur_addr.addr as int;
        let mut data: Vec<u8> = Vec::new();
        if dest.bits() == 16 {
            data.push(0x66);
        }
        data.push(if dest.bits() == 8 { 0x8A } else { 0x8B });
        let op = dest.offset();
        let rm = src.offset();
        if *src == Register::ESP {
            data.push((op << 3u8) | rm);
            data.push(0x24);
        } else if *src == Register::EBP {
            data.push(0x40 | (op << 3u8) | rm);
            data.push(0x00);
        } else {
            data.push((op << 3u8) | rm);
        }
        proof {
            assert(data@ =~= instr_bytes(
                InstrView::MovFromMemoryReg(*dest, *src),
                self@,
                end,
            ));
        }
        return data;
    }

    /// Byte emission for this operand shape.
    fn enc_inc(&self, register: &Register, cur_addr: crate::addr::Addr) -> (r: Vec<u8>)
        requires
            self.wf(),
        ensures
            r@ == instr_bytes(InstrView::Inc(*register), self@, cur_addr.addr as int),
    {
        let ghost end: int = cur_addr.addr as int;
        let mut data: Vec<u8> = Vec::new();
        if register.bits() == 16 {
            data.push(0x66);
        }
        data.push(0x40 + register.offset());
        proof {
            assert(data@ =~= instr_bytes(InstrView::Inc(*register), self@, end));
        }
        return data;
    }

    /// Byte emission for this operand shape.
    fn enc_dec(&self, register: &Register, cur_addr: crate::addr::Addr) -> (r: Vec<u8>)
        requires
            self.wf(),
        ensures
            r@ == instr_bytes(InstrView::Dec(*register), self@, cur_addr.addr as int),
    {
        let ghost end: int = cur_addr.addr as int;
        let mut data: Vec<u8> = Vec::new();
        if register.bits() == 16 {
            data.push(0x66);
        }
        data.push(0x48 + register.offset());
        proof {
            assert(data@ =~= instr_bytes(InstrView::Dec(*register), self@, end));
        }
        return data;
    }

    /// Byte emission for this operand shape.
    fn enc_jump(&self, condition: &JumpCondition, addr: &Value, cur_addr: crate::addr::Addr) -> (r: Vec<u8>)
        requires
            self.wf(),
        ensures
            r@ == instr_bytes(InstrView::Jump { condition: *condition, addr: addr@ }, self@, cur_addr.addr as int),
    {
        let ghost end: int = cur_addr.addr as int;
        let mut data: Vec<u8> = Vec::new();
        if *condition == JumpCondition::Unconditional {
            data.push(0xE9);
        } else {
            data.push(0x0F);
            data.push(condition.code());
        }
        let vb = addr.as_vec(self, cur_addr);
        data.extend_from_slice(vb.as_slice());
        proof {
            assert(data@ =~= instr_bytes(
                InstrView::Jump { condition: *condition, addr: addr@ },
                self@,
                end,
            ));
        }
        return data;
    }

    /// Byte emission for this operand shape.
    fn enc_add(&self, dest: &Register, src: &Register, cur_addr: crate::addr::Addr) -> (r: Vec<u8>)
        requires
            self.wf(),
        ensures
            r@ == instr_bytes(InstrView::Add(*dest, *src), self@, cur_addr.addr as int),
    {
        let ghost end: int = cur_addr.addr as int;
        let mut data: Vec<u8> = Vec::new();
        if dest.bits() == 16 {
            data.push(0x66);
        }
        data.push(if dest.bits() == 8 { 0x00 } else { 0x01 });
        data.push(0xC0 | (src.offset() << 3u8) | dest.offset());
        proof {
            assert(data@ =~= instr_bytes(InstrView::Add(*dest, *src), self@, end));
        }
        return data;
    }

    /// Byte emission for this operand shape.
    fn enc_add_immediate(&self, register: &Register, value: &Value, cur_addr: crate::addr::Addr) -> (r: Vec<u8>)
        requires
            self.wf(),
        ensures
            r@ == instr_bytes(InstrView::AddImmediate { register: *register, value: value@ }, self@, cur_addr.addr as int),
    {
        let ghost end: int = cur_addr.addr as int;
        let mut data: Vec<u8> = Vec::new();
        if register.bits() == 16 {
            data.push(0x66);
        }
        if !acc_reg(register) {
            data.push(if register.bits() == 8 { 0x80 } else { 0x81 });
        }
        data.push(
            if *register == Register::AL {
                0x04
            } else if *register == Register::AX || *register == Register::EAX {
                0x05
            } else {
                0xC0 + register.offset()
            },
        );
        let vb = value.as_vec(self, cur_addr);
        data.extend_from_slice(vb.as_slice());
        proof {
            assert(data@ =~= instr_bytes(
                InstrView::AddImmediate { register: *register, value: value@ },
                self@,
                end,
            ));
        }
        return data;
    }

    /// Byte emission for this operand shape.
    fn enc_sub(&self, dest: &Register, src: &Register, cur_addr: crate::addr::Addr) -> (r: Vec<u8>)
        requires
            self.wf(),
        ensures
            r@ == instr_bytes(InstrView::Sub(*dest, *src), self@, cur_addr.addr as int),
    {
        let ghost end: int = cur_addr.addr as int;
        let mut data: Vec<u8> = Vec::new();
        if dest.bits() == 16 {
            data.push(0x66);
        }
        data.push(if dest.bits() == 8 { 0x28 } else { 0x29 });
        data.push(0xC0 | (src.offset() << 3u8) | dest.offset());
        proof {
            assert(data@ =~= instr_bytes(InstrView::Sub(*dest, *src), self@, end));
        }
        return data;
    }

    /// Byte emission for this operand shape.
    fn enc_sub_immediate(&self, register: &Register, value: &Value, cur_addr: crate::addr::Addr) -> (r: Vec<u8>)
        requires
            self.wf(),
        ensures
            r@ == instr_bytes(InstrView::SubImmediate { register: *register, value: value@ }, self@, cur_addr.addr as int),
    {
        let ghost end: int = cur_addr.addr as int;
        let mut data: Vec<u8> = Vec::new();
        if register.bits() == 16 {
            data.push(0x66);
        }
        if !acc_reg(register) {
            data.push(if register.bits() == 8 { 0x80 } else { 0x81 });
        }
        data.push(
            if *register == Register::AL {
                0x2C
            } else if *register == Register::AX || *register == Register::EAX {
                0x2D
            } else {
                0xE8 + register.offset()
            },
        );
        let vb = value.as_vec(self, cur_addr);
        data.extend_from_slice(vb.as_slice());
        proof {
            assert(data@ =~= instr_bytes(
                InstrView::SubImmediate { register: *register, value: value@ },
                self@,
                end,
            ));
        }
        return data;
    }

    /// Byte emission for this operand shape.
    fn enc_multiply(&self, register: &Register, cur_addr: crate::addr::Addr) -> (r: Vec<u8>)
        requires
            self.wf(),
        ensures
            r@ == instr_bytes(InstrView::Multiply(*register), self@, cur_addr.addr as int),
    {
        let ghost end: int = cur_addr.addr as int;
        let mut data: Vec<u8> = Vec::new();
        if register.bits() == 16 {
            data.push(0x66);
        }
        data.push(if register.bits() == 8 { 0xF6 } else { 0xF7 });
        data.push(0xE0 + register.offset());
        proof {
            assert(data@ =~= instr_bytes(InstrView::Multiply(*register), self@, end));
        }
        return data;
    }

    /// Byte emission for this operand shape.
    fn enc_divide(&self, register: &Register, cur_addr: crate::addr::Addr) -> (r: Vec<u8>)
        requires
            self.wf(),
        ensures
            r@ == instr_bytes(InstrView::Divide(*register), self@, cur_addr.addr as int),
    {
        let ghost end: int = cur_addr.addr as int;
        let mut data: Vec<u8> = Vec::new();
        if register.bits() == 16 {
            data.push(0x66);
        }
        data.push(if register.bits() == 8 { 0xF6 } else { 0xF7 });
        data.push(0xF0 + register.offset());
        proof {
            assert(data@ =~= instr_bytes(InstrView::Divide(*register), self@, end));
        }
        return data;
    }

    /// Byte emission for this operand shape.
    fn enc_byte_swap(&self, register: &Register, cur_addr: crate::addr::Addr) -> (r: Vec<u8>)
        requires
            self.wf(),
        ensures
            r@ == instr_bytes(InstrView::ByteSwap(*register), self@, cur_addr.addr as int),
    {
        let ghost end: int = cur_addr.addr as int;
        let mut data: Vec<u8> = Vec::new();
        data.push(0x0F);
        data.push(0xC8 + register.offset());
        proof {
            assert(data@ =~= instr_bytes(InstrView::ByteSwap(*register), self@, end));
        }
        return data;
    }

    /// Byte emission for this operand shape.
    fn enc_and(&self, dest: &Register, src: &Register, cur_addr: crate::addr::Addr) -> (r: Vec<u8>)
        requires
            self.wf(),
        ensures
            r@ == instr_bytes(InstrView::And(*dest, *src), self@, cur_addr.addr as int),
    {
        let ghost end: int = cur_addr.addr as int;
        let mut data: Vec<u8> = Vec::new();
        if dest.bits() == 16 {
            data.push(0x66);
        }
        data.push(if dest.bits() == 8 { 0x20 } else { 0x21 });
        data.push(0xC0 | (src.offset() << 3u8) | dest.offset());
        proof {
            assert(data@ =~= instr_bytes(InstrView::And(*dest, *src), self@, end));
        }
        return data;
    }

    /// Byte emission for this operand shape.
    fn enc_or(&self, dest: &Register, src: &Register, cur_addr: crate::addr::Addr) -> (r: Vec<u8>)
        requires
            self.wf(),
        ensures
            r@ == instr_bytes(InstrView::Or(*dest, *src), self@, cur_addr.addr as int),
    {
        let ghost end: int = cur_addr.addr as int;
        let mut data: Vec<u8> = Vec::new();
        if dest.bits() == 16 {
            data.push(0x66);
        }
        data.push(if dest.bits() == 8 { 0x08 } else { 0x09 });
        data.push(0xC0 | (src.offset() << 3u8) | dest.offset());
        proof {
            assert(data@ =~= instr_bytes(InstrView::Or(*dest, *src), self@, end));
        }
        return data;
    }

    /// Byte emission for this operand shape.
    fn enc_xor(&self, dest: &Register, src: &Register, cur_addr: crate::addr::Addr) -> (r: Vec<u8>)
        requires
            self.wf(),
        ensures
            r@ == instr_bytes(InstrView::XOr(*dest, *src), self@, cur_addr.addr as int),
    {
        let ghost end: int = cur_addr.addr as int;
        let mut data: Vec<u8> = Vec::new();
        if dest.bits() == 16 {
            data.push(0x66);
        }
        data.push(if dest.bits() == 8 { 0x30 } else { 0x31 });
        data.push(0xC0 | (src.offset() << 3u8) | dest.offset());
        proof {
            assert(data@ =~= instr_bytes(InstrView::XOr(*dest, *src), self@, end));
        }
        return data;
    }

    /// Byte emission for this operand shape.
    fn enc_compare(&self, dest: &Register, src: &Register, cur_addr: crate::addr::Addr) -> (r: Vec<u8>)
        requires
            self.wf(),
        ensures
            r@ == instr_bytes(InstrView::Compare(*dest, *src), self@, cur_addr.addr as int),
    {
        let ghost end: int = cur_addr.addr as int;
        let mut data: Vec<u8> = Vec::new();
        if dest.bits() == 16 {
            data.push(0x66);
        }
        data.push(if dest.bits() == 8 { 0x38 } else { 0x39 });
        data.push(0xC0 | (src.offset() << 3u8) | dest.offset());
        proof {
            assert(data@ =~= instr_bytes(InstrView::Compare(*dest, *src), self@, end));
        }
        return data;
    }

    /// Byte emission for this operand shape.
    fn enc_compare_immediate(&self, register: &Register, value: &Value, cur_addr: crate::addr::Addr) -> (r: Vec<u8>)
        requires
            self.wf(),
        ensures
            r@ == instr_bytes(InstrView::CompareImmediate(*register, value@), self@, cur_addr.addr as int),
    {
        let ghost end: int = cur_addr.addr as int;
        let mut data: Vec<u8> = Vec::new();
        if register.bits() == 16 {
            data.push(0x66);
        }
        if !acc_reg(register) {
            data.push(if register.bits() == 8 { 0x80 } else { 0x81 });
        }
        data.push(
            if *register == Register::AL {
                0x3C
            } else if *register == Register::AX || *register == Register::EAX {
                0x3D
            } else {
                0xF8 + register.offset()
            },
        );
        let vb = value.as_vec(self, cur_addr);
        data.extend_from_slice(vb.as_slice());
        proof {
            assert(data@ =~= instr_bytes(
                InstrView::CompareImmediate(*register, value@),
                self@,
                end,
            ));
        }
        return data;
    }

    /// Byte emission for this operand shape.
    fn enc_push(&self, register: &Register, cur_addr: crate::addr::Addr) -> (r: Vec<u8>)
        requires
            self.wf(),
        ensures
            r@ == instr_bytes(InstrView::Push(*register), self@, cur_addr.addr as int),
    {
        let ghost end: int = cur_addr.addr as int;
        let mut data: Vec<u8> = Vec::new();
        if register.bits() == 16 {
            data.push(0x66);
        }
        data.push(0x50 + register.offset());
        proof {
            assert(data@ =~= instr_bytes(InstrView::Push(*register), self@, end));
        }
        return data;
    }

    /// Byte emission for this operand shape.
    fn enc_pop(&self, register: &Register, cur_addr: crate::addr::Addr) -> (r: Vec<u8>)
        requires
            self.wf(),
        ensures
            r@ == instr_bytes(InstrView::Pop(*register), self@, cur_addr.addr as int),
    {
        let ghost end: int = cur_addr.addr as int;
        let mut data: Vec<u8> = Vec::new();
        if register.bits() == 16 {
            data.push(0x66);
        }
        data.push(0x58 + register.offset());
        proof {
            assert(data@ =~= instr_bytes(InstrView::Pop(*register), self@, end));
        }
        return data;
    }

    /// Byte emission for this operand shape.
    fn enc_call(&self, value: &Value, cur_addr: crate::addr::Addr) -> (r: Vec<u8>)
        requires
            self.wf(),
        ensures
            r@ == instr_bytes(InstrView::Call(value@), self@, cur_addr.addr as int),
    {
        let ghost end: int = cur_addr.addr as int;
        let mut data: Vec<u8> = Vec::new();
        data.push(0xE8);
        let vb = value.as_vec(self, cur_addr);
        data.extend_from_slice(vb.as_slice());
        proof {
            assert(data@ =~= instr_bytes(InstrView::Call(value@), self@, end));
        }
        return data;
    }

    /// Byte emission for this operand shape.
    fn enc_call_register(&self, register: &Register, cur_addr: crate::addr::Addr) -> (r: Vec<u8>)
        requires
            self.wf(),
        ensures
            r@ == instr_bytes(InstrView::CallRegister(*register), self@, cur_addr.addr as int),
    {
        let ghost end: int = cur_addr.addr as int;
        let mut data: Vec<u8> = Vec::new();
        if register.bits() == 16 {
            data.push(0x66);
        }
        data.push(0xFF);
        data.push(0xD0 + register.offset());
        proof {
            assert(data@ =~= instr_bytes(InstrView::CallRegister(*register), self@, end));
        }
        return data;
    }

    /// Byte emission for this operand shape.
    fn enc_return(&self, cur_addr: crate::addr::Addr) -> (r: Vec<u8>)
        requires
            self.wf(),
        ensures
            r@ == instr_bytes(InstrView::Return, self@, cur_addr.addr as int),
    {
        let ghost end: int = cur_addr.addr as int;
        let mut data: Vec<u8> = Vec::new();
        data.push(0xC3);
        proof {
            assert(data@ =~= instr_bytes(InstrView::Return, self@, end));
        }
        return data;
    }

    /// Byte emission for this operand shape.
    fn enc_not(&self, register: &Register, cur_addr: crate::addr::Addr) -> (r: Vec<u8>)
        requires
            self.wf(),
        ensures
            r@ == instr_bytes(InstrView::Not(*register), self@, cur_addr.addr as int),
    {
        let ghost end: int = cur_addr.addr as int;
        let mut data: Vec<u8> = Vec::new();
        if register.bits() == 16 {
            data.push(0x66);
        }
        data.push(if register.bits() == 8 { 0xF6 } else { 0xF7 });
        data.push(0xD0 + register.offset());
        proof {
            assert(data@ =~= instr_bytes(InstrView::Not(*register), self@, end));
        }
        return data;
    }

    /// Byte emission for this operand shape.
    fn enc_neg(&self, register: &Register, cur_addr: crate::addr::Addr) -> (r: Vec<u8>)
        requires
            self.wf(),
        ensures
            r@ == instr_bytes(InstrView::Neg(*register), self@, cur_addr.addr as int),
    {
        let ghost end: int = cur_addr.addr as int;
        let mut data: Vec<u8> = Vec::new();
        if register.bits() == 16 {
            data.push(0x66);
        }
        data.push(if register.bits() == 8 { 0xF6 } else { 0xF7 });
        data.push(0xD8 + register.offset());
        proof {
            assert(data@ =~= instr_bytes(InstrView::Neg(*register), self@, end));
        }
        return data;
    }

    /// Byte emission for this operand shape.
    fn enc_shift_left(&self, register: &Register, cur_addr: crate::addr::Addr) -> (r: Vec<u8>)
        requires
            self.wf(),
        ensures
            r@ == instr_bytes(InstrView::ShiftLeft(*register), self@, cur_addr.addr as int),
    {
        let ghost end: int = cur_addr.addr as int;
        let mut data: Vec<u8> = Vec::new();
        if register.bits() == 16 {
            data.push(0x66);
        }
        data.push(if register.bits() == 8 { 0xD0 } else { 0xD1 });
        data.push(0xE0 + register.offset());
        proof {
            assert(data@ =~= instr_bytes(InstrView::ShiftLeft(*register), self@, end));
        }
        return data;
    }

    /// Byte emission for this operand shape.
    fn enc_shift_right(&self, register: &Register, cur_addr: crate::addr::Addr) -> (r: Vec<u8>)
        requires
            self.wf(),
        ensures
            r@ == instr_bytes(InstrView::ShiftRight(*register), self@, cur_addr.addr as int),
    {
        let ghost end: int = cur_addr.addr as int;
        let mut data: Vec<u8> = Vec::new();
        if register.bits() == 16 {
            data.push(0x66);
        }
        data.push(if register.bits() == 8 { 0xD0 } else { 0xD1 });
        data.push(0xE8 + register.offset());
        proof {
            assert(data@ =~= instr_bytes(InstrView::ShiftRight(*register), self@, end));
        }
        return data;
    }
}

} // verus!
