//! A self-contained assembler and linker for a subset of 32-bit x86.
//!
//! The pipeline turns assembly source text into a directly executable ELF32
//! image: a lexer produces tokens, a recursive-descent parser produces an
//! abstract syntax tree, the code generator lowers the tree into a program of
//! labeled instruction blocks, and the ELF assembler places the encoded bytes
//! at a fixed load address behind a bit-exact header and program header.

use vstd::prelude::*;

pub mod addr;
pub mod ast;
pub mod code_gen;
pub mod elf;
pub mod instruction;
pub mod laws;
pub mod lexer;
pub mod parser;
pub mod program;
pub mod utils;

verus! {

/// Byte order used when serializing multi-byte words.
#[derive(Debug, PartialEq, Eq, Structural, Clone, Copy)]
pub enum Endianness {
    Little,
    Big,
}

/// The x86 integer registers across the three operand widths: 8-bit low and
/// high halves, 16-bit, and 32-bit.
#[derive(Debug, PartialEq, Eq, Structural, Clone, Copy)]
pub enum Register {
    AH, AL, BH, BL, CH, CL, DH, DL,
    AX, CX, DX, BX, SP, BP, SI, DI,
    EAX, ECX, EDX, EBX, ESP, EBP, ESI, EDI,
}

impl Register {
    /// The operand width of the register in bits: 8, 16 or 32.
    pub open spec fn spec_bits(&self) -> usize {
        match self {
            Register::AL | Register::CL | Register::DL | Register::BL
            | Register::AH | Register::CH | Register::DH | Register::BH => 8,
            Register::AX | Register::CX | Register::DX | Register::BX
            | Register::SP | Register::BP | Register::SI | Register::DI => 16,
            _ => 32,
        }
    }

    /// The operand width of the register in bits: 8, 16 or 32.
    #[verifier::when_used_as_spec(spec_bits)]
    pub fn bits(&self) -> (r: usize)
        ensures
            r == self.spec_bits(),
    {
        match self {
            Register::AL | Register::CL | Register::DL | Register::BL
            | Register::AH | Register::CH | Register::DH | Register::BH => 8,
            Register::AX | Register::CX | Register::DX | Register::BX
            | Register::SP | Register::BP | Register::SI | Register::DI => 16,
            _ => 32,
        }
    }

    /// The register's index in the ModR/M register field, 0 through 7.
    pub open spec fn spec_offset(&self) -> u8 {
        match self {
            Register::AL | Register::AX | Register::EAX => 0,
            Register::CL | Register::CX | Register::ECX => 1,
            Register::DL | Register::DX | Register::EDX => 2,
            Register::BL | Register::BX | Register::EBX => 3,
            Register::AH | Register::SP | Register::ESP => 4,
            Register::CH | Register::BP | Register::EBP => 5,
            Register::DH | Register::SI | Register::ESI => 6,
            Register::BH | Register::DI | Register::EDI => 7,
        }
    }

    /// The register's index in the ModR/M register field, 0 through 7.
    #[verifier::when_used_as_spec(spec_offset)]
    pub fn offset(&self) -> (r: u8)
        ensures
            r == self.spec_offset(),
            r <= 7,
    {
        match self {
            Register::AL | Register::AX | Register::EAX => 0,
            Register::CL | Register::CX | Register::ECX => 1,
            Register::DL | Register::DX | Register::EDX => 2,
            Register::BL | Register::BX | Register::EBX => 3,
            Register::AH | Register::SP | Register::ESP => 4,
            Register::CH | Register::BP | Register::EBP => 5,
            Register::DH | Register::SI | Register::ESI => 6,
            Register::BH | Register::DI | Register::EDI => 7,
        }
    }

}

/// A typed immediate used as an instruction operand: plain words of the four
/// widths, or a symbolic reference to a label, either absolute (`Pointer`)
/// or PC-relative (`RelPointer`).
#[derive(Debug)]
pub enum Value {
    UByte(u8),
    UShort(u16),
    UInt(u32),
    ULong(u64),
    Pointer(String),
    RelPointer(String),
}

/// The mathematical model of a `Value`: label names as character sequences.
pub enum ValueView {
    UByte(u8),
    UShort(u16),
    UInt(u32),
    ULong(u64),
    Pointer(Seq<char>),
    RelPointer(Seq<char>),
}

impl View for Value {
    type V = ValueView;

    open spec fn view(&self) -> ValueView {
        match self {
            Value::UByte(x) => ValueView::UByte(*x),
            Value::UShort(x) => ValueView::UShort(*x),
            Value::UInt(x) => ValueView::UInt(*x),
            Value::ULong(x) => ValueView::ULong(*x),
            Value::Pointer(l) => ValueView::Pointer(l@),
            Value::RelPointer(l) => ValueView::RelPointer(l@),
        }
    }
}

/// The number of bytes a value occupies when serialized: its natural width
/// for plain words, four bytes for either kind of symbolic reference.
pub open spec fn value_len(v: ValueView) -> nat {
    match v {
        ValueView::UByte(_) => 1,
        ValueView::UShort(_) => 2,
        ValueView::UInt(_) => 4,
        ValueView::ULong(_) => 8,
        ValueView::Pointer(_) => 4,
        ValueView::RelPointer(_) => 4,
    }
}

/// The low 32 bits of an arbitrary integer.
pub open spec fn truncate32(x: int) -> u32 {
    (x % 0x1_0000_0000) as u32
}

/// The file offset that a symbolic operand resolves to: the label's resolved
/// file offset, or absolute zero when the label is unknown.
pub open spec fn pointer_offset(p: crate::program::ProgramView, label: Seq<char>) -> int {
    if crate::program::has_label(p.blocks, label) {
        crate::program::resolve_offset(p, label)
    } else {
        0
    }
}

/// The virtual address that a symbolic operand resolves to: the label's
/// resolved virtual address, or absolute zero when the label is unknown.
pub open spec fn pointer_vaddr(p: crate::program::ProgramView, label: Seq<char>) -> int {
    if crate::program::has_label(p.blocks, label) {
        crate::program::resolve_vaddr(p, label)
    } else {
        0
    }
}

/// The exact bytes a value serializes to: plain words at their natural width,
/// little-endian; an absolute reference as the low 32 bits of the label's
/// virtual address; a PC-relative reference as the 32-bit displacement from
/// the end address `end_off` of the instruction being emitted to the label's
/// file offset. An unknown label resolves to absolute zero on either axis.
pub open spec fn value_bytes(v: ValueView, p: crate::program::ProgramView, end_off: int) -> Seq<
    u8,
> {
    match v {
        ValueView::UByte(x) => seq![x],
        ValueView::UShort(x) => crate::utils::word_bytes(x, Endianness::Little),
        ValueView::UInt(x) => crate::utils::dword_bytes(x, Endianness::Little),
        ValueView::ULong(x) => crate::utils::qword_bytes(x, Endianness::Little),
        ValueView::Pointer(l) => crate::utils::dword_bytes(
            truncate32(pointer_vaddr(p, l)),
            Endianness::Little,
        ),
        ValueView::RelPointer(l) => crate::utils::dword_bytes(
            truncate32(pointer_offset(p, l) - end_off),
            Endianness::Little,
        ),
    }
}

/// Serializing a value emits exactly `value_len` bytes.
pub proof fn lemma_value_bytes_len(v: ValueView, p: crate::program::ProgramView, end_off: int)
    ensures
        value_bytes(v, p, end_off).len() == value_len(v),
{
    match v {
        ValueView::UByte(x) => {},
        ValueView::UShort(x) => {},
        ValueView::UInt(x) => {},
        ValueView::ULong(x) => {},
        ValueView::Pointer(l) => {},
        ValueView::RelPointer(l) => {},
    }
}

/// Whether an owned string and a string slice hold the same characters.
pub fn string_eq_str(s: &String, t: &str) -> (b: bool)
    ensures
        b == (s@ == t@),
{
    let t2: String = t.to_owned();
    *s == t2
}

impl Value {
    /// The number of bytes this value occupies when serialized.
    pub fn len(&self) -> (r: usize)
        ensures
            r == value_len(self@),
    {
        match self {
            Value::UByte(_) => 1,
            Value::UShort(_) => 2,
            Value::UInt(_) => 4,
            Value::ULong(_) => 8,
            Value::Pointer(_) => 4,
            Value::RelPointer(_) => 4,
        }
    }

    /// Serializes the value against the program's label table. `addr` is the
    /// address immediately after the full encoded instruction: PC-relative
    /// displacements are taken against it.
    pub fn as_vec(&self, program: &crate::program::Program, addr: crate::addr::Addr) -> (r: Vec<
        u8,
    >)
        requires
            program.wf(),
        ensures
            r@ == value_bytes(self@, program@, addr.addr as int),
            r@.len() == value_len(self@),
    {
        proof {
            lemma_value_bytes_len(self@, program@, addr.addr as int);
        }
        match self {
            Value::UByte(x) => {
                let mut v: Vec<u8> = Vec::new();
                v.push(*x);
                proof {
                    assert(v@ =~= value_bytes(self@, program@, addr.addr as int));
                }
                return v;
            },
            Value::UShort(x) => {
                let b = crate::utils::dump_word(*x, Endianness::Little);
                let mut v: Vec<u8> = Vec::new();
                v.push(b[0]);
                v.push(b[1]);
                proof {
                    assert(v@ =~= value_bytes(self@, program@, addr.addr as int));
                }
                return v;
            },
            Value::UInt(x) => {
                let v = dword_vec(*x);
                proof {
                    assert(v@ =~= value_bytes(self@, program@, addr.addr as int));
                }
                return v;
            },
            Value::ULong(x) => {
                let b = crate::utils::dump_qword(*x, Endianness::Little);
                let mut v: Vec<u8> = Vec::new();
                v.push(b[0]);
                v.push(b[1]);
                v.push(b[2]);
                v.push(b[3]);
                v.push(b[4]);
                v.push(b[5]);
                v.push(b[6]);
                v.push(b[7]);
                proof {
                    assert(v@ =~= value_bytes(self@, program@, addr.addr as int));
                }
                return v;
            },
            Value::Pointer(label) => {
                let target = match program.get_addr(label.as_str()) {
                    Some(a) => a,
                    None => crate::addr::Addr::zero(),
                };
                let x = trunc32(target.vaddr);
                let v = dword_vec(x);
                proof {
                    assert(x == truncate32(pointer_vaddr(program@, label@)));
                    assert(v@ =~= value_bytes(self@, program@, addr.addr as int));
                }
                return v;
            },
            Value::RelPointer(label) => {
                let target = match program.get_addr(label.as_str()) {
                    Some(a) => a,
                    None => crate::addr::Addr::zero(),
                };
                let t = trunc32(target.addr);
                let e = trunc32(addr.addr);
                let delta = t.wrapping_sub(e);
                proof {
                    lemma_trunc32_sub(target.addr, addr.addr);
                    assert(delta == truncate32(
                        pointer_offset(program@, label@) - addr.addr as int,
                    ));
                }
                let v = dword_vec(delta);
                proof {
                    assert(v@ =~= value_bytes(self@, program@, addr.addr as int));
                }
                return v;
            },
        }
    }
}

/// The four little-endian bytes of a 32-bit word, as a vector.
fn dword_vec(x: u32) -> (r: Vec<u8>)
    ensures
        r@ == crate::utils::dword_bytes(x, Endianness::Little),
{
    let b = crate::utils::dump_dword(x, Endianness::Little);
    let mut v: Vec<u8> = Vec::new();
    v.push(b[0]);
    v.push(b[1]);
    v.push(b[2]);
    v.push(b[3]);
    proof {
        assert(v@ =~= crate::utils::dword_bytes(x, Endianness::Little));
    }
    v
}

/// The low 32 bits of a 64-bit word.
fn trunc32(x: u64) -> (r: u32)
    ensures
        r == truncate32(x as int),
{
    (x % 0x1_0000_0000) as u32
}

/// Subtracting after truncating to 32 bits, with wraparound, is truncating
/// the difference.
proof fn lemma_trunc32_sub(a: u64, b: u64)
    ensures
        vstd::wrapping::u32_specs::wrapping_sub(
            truncate32(a as int),
            truncate32(b as int),
        ) == truncate32(a - b),
{
    let m = 0x1_0000_0000int;
    vstd::arithmetic::div_mod::lemma_sub_mod_noop(a as int, b as int, m);
    let ta = (a as int) % m;
    let tb = (b as int) % m;
    vstd::arithmetic::div_mod::lemma_mod_division_less_than_divisor(a as int, m);
    vstd::arithmetic::div_mod::lemma_mod_division_less_than_divisor(b as int, m);
    if ta - tb < 0 {
        vstd::arithmetic::div_mod::lemma_mod_add_multiples_vanish(ta - tb, m);
        vstd::arithmetic::div_mod::lemma_small_mod((ta - tb + m) as nat, m as nat);
    } else {
        vstd::arithmetic::div_mod::lemma_small_mod((ta - tb) as nat, m as nat);
    }
}

} // verus!
