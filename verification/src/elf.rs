//! The ELF image assembler: a 32-bit, little-endian, System V, executable
//! ELF with exactly one loadable program header and no section headers.
//!
//! File layout: the 52-byte ELF header, the 32-byte program header, then the
//! program bytes. The load virtual address is fixed at `0x08048000`; the
//! program is placed right after the two headers, so label resolution sees
//! every label at its final in-memory address.

use vstd::prelude::*;

use crate::addr::Addr;
use crate::program::{Program, program_bytes};
use crate::utils::{dump_dword, dump_qword, dump_word, dword_bytes, qword_bytes, word_bytes};
use crate::{truncate32, Endianness};

verus! {

/// The machine class of the image: 32-bit or 64-bit.
#[derive(Debug, PartialEq, Eq, Structural, Clone, Copy)]
pub enum ELFClass {
    X86,
    X86_64,
}

/// The object file type recorded in `e_type`.
#[derive(Debug, PartialEq, Eq, Structural, Clone, Copy)]
pub enum ELFType {
    Unspecified,
    Relocatable,
    Exectuable,
    SharedObject,
    Core,
}

/// The segment type recorded in a program header's `p_type`.
#[derive(Debug, PartialEq, Eq, Structural, Clone, Copy)]
pub enum ELFProgramHeaderType {
    Null,
    Loadable,
    Dynamic,
    Interpereter,
    Auxiliary,
    ProgramHeaderTable,
    TLS,
}

/// The fields of the ELF header that this assembler varies; everything else
/// is fixed by the format.
#[derive(Debug, PartialEq, Eq, Structural, Clone, Copy)]
pub struct ELFHeader {
    pub class: ELFClass,
    pub endianness: Endianness,
    pub elftype: ELFType,
    pub instruction_set: u16,
    pub entry_point: u64,
    pub program_table: u64,
}

/// The fields of the one program header that this assembler varies.
#[derive(Debug, PartialEq, Eq, Structural, Clone, Copy)]
pub struct ELFProgramHeader {
    pub class: ELFClass,
    pub p_type: ELFProgramHeaderType,
    pub p_offset: u64,
    pub p_vaddr: u64,
    pub p_filesz: u64,
}

/// A complete executable image: the two headers and the program.
pub struct ELF {
    pub class: ELFClass,
    pub header: ELFHeader,
    pub program_header: ELFProgramHeader,
    pub program: Program,
}

/// The `e_ident[EI_CLASS]` byte.
pub open spec fn class_byte(c: ELFClass) -> u8 {
    match c {
        ELFClass::X86 => 0x01,
        ELFClass::X86_64 => 0x02,
    }
}

/// The `e_ident[EI_DATA]` byte.
pub open spec fn endian_byte(e: Endianness) -> u8 {
    match e {
        Endianness::Little => 0x01,
        Endianness::Big => 0x02,
    }
}

/// The `e_type` word.
pub open spec fn type_word(t: ELFType) -> u16 {
    match t {
        ELFType::Unspecified => 0x00,
        ELFType::Relocatable => 0x01,
        ELFType::Exectuable => 0x02,
        ELFType::SharedObject => 0x03,
        ELFType::Core => 0x04,
    }
}

/// The `p_type` dword.
pub open spec fn ptype_dword(t: ELFProgramHeaderType) -> u32 {
    match t {
        ELFProgramHeaderType::Null => 0,
        ELFProgramHeaderType::Loadable => 1,
        ELFProgramHeaderType::Dynamic => 2,
        ELFProgramHeaderType::Interpereter => 3,
        ELFProgramHeaderType::Auxiliary => 4,
        ELFProgramHeaderType::ProgramHeaderTable => 6,
        ELFProgramHeaderType::TLS => 7,
    }
}

/// The header length per class: 52 bytes for 32-bit, 64 for 64-bit.
pub open spec fn header_len(c: ELFClass) -> nat {
    match c {
        ELFClass::X86 => 0x34,
        ELFClass::X86_64 => 0x40,
    }
}

/// The program header entry length per class: 32 bytes for 32-bit, 56 for
/// 64-bit.
pub open spec fn pheader_len(c: ELFClass) -> nat {
    match c {
        ELFClass::X86 => 0x20,
        ELFClass::X86_64 => 0x38,
    }
}

/// An address-sized field: a dword in the 32-bit class, a qword in the
/// 64-bit class, truncating in the former case.
pub open spec fn addr_bytes(c: ELFClass, x: u64, e: Endianness) -> Seq<u8> {
    match c {
        ELFClass::X86 => dword_bytes(truncate32(x as int), e),
        ELFClass::X86_64 => qword_bytes(x, e),
    }
}

/// The exact bytes of the ELF header: the magic `7F 45 4C 46`, the identity
/// bytes, seven bytes of padding, then `e_type`, `e_machine`, `e_version`,
/// `e_entry`, `e_phoff`, a zero `e_shoff`, zero `e_flags`, `e_ehsize`,
/// `e_phentsize`, `e_phnum = 1`, `e_shentsize`, `e_shnum = 0` and
/// `e_shstrndx = 0`.
pub open spec fn elf_header_bytes(h: ELFHeader) -> Seq<u8> {
    seq![
        0x7Fu8,
        0x45u8,
        0x4Cu8,
        0x46u8,
        class_byte(h.class),
        endian_byte(h.endianness),
        0x01u8,
        0x00u8,
        0x00u8,
        0x00u8,
        0x00u8,
        0x00u8,
        0x00u8,
        0x00u8,
        0x00u8,
        0x00u8,
    ] + word_bytes(type_word(h.elftype), h.endianness) + word_bytes(
        h.instruction_set,
        h.endianness,
    ) + dword_bytes(1, h.endianness) + addr_bytes(h.class, h.entry_point, h.endianness)
        + addr_bytes(h.class, h.program_table, h.endianness) + addr_bytes(h.class, 0, h.endianness)
        + dword_bytes(0, h.endianness) + word_bytes(
        (header_len(h.class) as u16),
        h.endianness,
    ) + word_bytes(
        (pheader_len(h.class) as u16),
        h.endianness,
    ) + word_bytes(1, h.endianness) + word_bytes(
        match h.class {
            ELFClass::X86 => 0x28u16,
            ELFClass::X86_64 => 0x40u16,
        },
        h.endianness,
    ) + word_bytes(0, h.endianness) + word_bytes(0, h.endianness)
}

/// The exact bytes of the one program header: `p_type`, then per class the
/// placement the format fixes. In the 32-bit class: `p_offset`, `p_vaddr`, a
/// zero `p_paddr`, `p_filesz`, the fixed oversized `p_memsz = 0x40000000`,
/// `p_flags = 7` (read, write and execute), `p_align = 0x1000`. In the
/// 64-bit class the flags come right after `p_type` and `p_memsz` equals
/// `p_filesz`.
pub open spec fn elf_program_header_bytes(ph: ELFProgramHeader, e: Endianness) -> Seq<u8> {
    dword_bytes(ptype_dword(ph.p_type), e) + (match ph.class {
        ELFClass::X86 => Seq::<u8>::empty(),
        ELFClass::X86_64 => dword_bytes(0x07, e),
    }) + addr_bytes(ph.class, ph.p_offset, e) + addr_bytes(ph.class, ph.p_vaddr, e) + addr_bytes(
        ph.class,
        0,
        e,
    ) + addr_bytes(ph.class, ph.p_filesz, e) + (match ph.class {
        ELFClass::X86 => dword_bytes(0x40000000, e),
        ELFClass::X86_64 => qword_bytes(ph.p_filesz, e),
    }) + (match ph.class {
        ELFClass::X86 => dword_bytes(0x07, e),
        ELFClass::X86_64 => Seq::<u8>::empty(),
    }) + (match ph.class {
        ELFClass::X86 => dword_bytes(0x1000, e),
        ELFClass::X86_64 => qword_bytes(0x1000, e),
    })
}

/// Appends the two bytes of a 16-bit word.
fn push_word(v: &mut Vec<u8>, x: u16, e: Endianness)
    ensures
        final(v)@ == old(v)@ + word_bytes(x, e),
{
    let b = dump_word(x, e);
    v.push(b[0]);
    v.push(b[1]);
    proof {
        assert(v@ =~= old(v)@ + word_bytes(x, e));
    }
}

/// Appends the four bytes of a 32-bit word.
fn push_dword(v: &mut Vec<u8>, x: u32, e: Endianness)
    ensures
        final(v)@ == old(v)@ + dword_bytes(x, e),
{
    let b = dump_dword(x, e);
    v.push(b[0]);
    v.push(b[1]);
    v.push(b[2]);
    v.push(b[3]);
    proof {
        assert(v@ =~= old(v)@ + dword_bytes(x, e));
    }
}

/// Appends the eight bytes of a 64-bit word.
fn push_qword(v: &mut Vec<u8>, x: u64, e: Endianness)
    ensures
        final(v)@ == old(v)@ + qword_bytes(x, e),
{
    let b = dump_qword(x, e);
    v.push(b[0]);
    v.push(b[1]);
    v.push(b[2]);
    v.push(b[3]);
    v.push(b[4]);
    v.push(b[5]);
    v.push(b[6]);
    v.push(b[7]);
    proof {
        assert(v@ =~= old(v)@ + qword_bytes(x, e));
    }
}

/// Appends an address-sized field: a truncated dword for the 32-bit class, a
/// qword for the 64-bit class.
fn push_addr(v: &mut Vec<u8>, c: ELFClass, x: u64, e: Endianness)
    ensures
        final(v)@ == old(v)@ + addr_bytes(c, x, e),
{
    match c {
        ELFClass::X86 => {
            let t: u32 = (x % 0x1_0000_0000) as u32;
            push_dword(v, t, e);
        },
        ELFClass::X86_64 => {
            push_qword(v, x, e);
        },
    }
}

impl ELFHeader {
    /// A 32-bit little-endian System V executable header for the i386
    /// instruction set, with the program header table right after the header.
    pub fn new_x86(entry_point: u32) -> (r: ELFHeader)
        ensures
            r == (ELFHeader {
                class: ELFClass::X86,
                endianness: Endianness::Little,
                elftype: ELFType::Exectuable,
                instruction_set: 0x03,
                entry_point: entry_point as u64,
                program_table: 0x34,
            }),
    {
        ELFHeader {
            class: ELFClass::X86,
            endianness: Endianness::Little,
            elftype: ELFType::Exectuable,
            instruction_set: 0x03,
            entry_point: entry_point as u64,
            program_table: 0x34,
        }
    }

    /// The length of the encoded header in bytes.
    pub fn len(&self) -> (r: usize)
        ensures
            r == header_len(self.class),
    {
        match self.class {
            ELFClass::X86 => 0x34,
            ELFClass::X86_64 => 0x40,
        }
    }

    /// Serializes the header.
    pub fn as_vec(&self) -> (r: Vec<u8>)
        ensures
            r@ == elf_header_bytes(*self),
            r@.len() == header_len(self.class),
    {
        let e = self.endianness;
        let mut dump: Vec<u8> = Vec::new();

        // e_ident: magic, class, data, version, OS ABI, ABI version, padding
        dump.push(0x7F);
        dump.push(0x45);
        dump.push(0x4C);
        dump.push(0x46);
        dump.push(match self.class {
            ELFClass::X86 => 0x01,
            ELFClass::X86_64 => 0x02,
        });
        dump.push(match e {
            Endianness::Little => 0x01,
            Endianness::Big => 0x02,
        });
        dump.push(0x01);
        dump.push(0x00);
        dump.push(0x00);
        dump.push(0x00);
        dump.push(0x00);
        dump.push(0x00);
        dump.push(0x00);
        dump.push(0x00);
        dump.push(0x00);
        dump.push(0x00);

        // e_type, e_machine, e_version
        push_word(
            &mut dump,
            match self.elftype {
                ELFType::Unspecified => 0x00,
                ELFType::Relocatable => 0x01,
                ELFType::Exectuable => 0x02,
                ELFType::SharedObject => 0x03,
                ELFType::Core => 0x04,
            },
            e,
        );
        push_word(&mut dump, self.instruction_set, e);
        push_dword(&mut dump, 1, e);

        // e_entry, e_phoff, e_shoff (no section headers), e_flags
        push_addr(&mut dump, self.class, self.entry_point, e);
        push_addr(&mut dump, self.class, self.program_table, e);
        push_addr(&mut dump, self.class, 0, e);
        push_dword(&mut dump, 0, e);

        // e_ehsize, e_phentsize, e_phnum, e_shentsize, e_shnum, e_shstrndx
        push_word(
            &mut dump,
            match self.class {
                ELFClass::X86 => 0x34,
                ELFClass::X86_64 => 0x40,
            },
            e,
        );
        push_word(
            &mut dump,
            match self.class {
                ELFClass::X86 => 0x20,
                ELFClass::X86_64 => 0x38,
            },
            e,
        );
        push_word(&mut dump, 1, e);
        push_word(
            &mut dump,
            match self.class {
                ELFClass::X86 => 0x28,
                ELFClass::X86_64 => 0x40,
            },
            e,
        );
        push_word(&mut dump, 0, e);
        push_word(&mut dump, 0, e);

        proof {
            assert(dump@ =~= elf_header_bytes(*self));
        }
        dump
    }
}

impl ELFProgramHeader {
    /// The length of the encoded program header entry in bytes.
    pub fn len(&self) -> (r: usize)
        ensures
            r == pheader_len(self.class),
    {
        match self.class {
            ELFClass::X86 => 0x20,
            ELFClass::X86_64 => 0x38,
        }
    }

    /// Serializes the program header entry.
    pub fn as_vec(&self, endianness: Endianness) -> (r: Vec<u8>)
        ensures
            r@ == elf_program_header_bytes(*self, endianness),
            r@.len() == pheader_len(self.class),
    {
        let e = endianness;
        let mut dump: Vec<u8> = Vec::new();

        // p_type; in the 64-bit class the flags follow immediately
        push_dword(
            &mut dump,
            match self.p_type {
                ELFProgramHeaderType::Null => 0,
                ELFProgramHeaderType::Loadable => 1,
                ELFProgramHeaderType::Dynamic => 2,
                ELFProgramHeaderType::Interpereter => 3,
                ELFProgramHeaderType::Auxiliary => 4,
                ELFProgramHeaderType::ProgramHeaderTable => 6,
                ELFProgramHeaderType::TLS => 7,
            },
            e,
        );
        if self.class == ELFClass::X86_64 {
            push_dword(&mut dump, 0x07, e);
        }

        // p_offset, p_vaddr, p_paddr (zero), p_filesz
        push_addr(&mut dump, self.class, self.p_offset, e);
        push_addr(&mut dump, self.class, self.p_vaddr, e);
        push_addr(&mut dump, self.class, 0, e);
        push_addr(&mut dump, self.class, self.p_filesz, e);

        // p_memsz: a generous fixed bound in the 32-bit class, so that
        // storage reserved past the file image is still mapped
        match self.class {
            ELFClass::X86 => push_dword(&mut dump, 0x40000000, e),
            ELFClass::X86_64 => push_qword(&mut dump, self.p_filesz, e),
        }

        // p_flags (read, write and execute) in the 32-bit class, then p_align
        if self.class == ELFClass::X86 {
            push_dword(&mut dump, 0x07, e);
        }
        match self.class {
            ELFClass::X86 => push_dword(&mut dump, 0x1000, e),
            ELFClass::X86_64 => push_qword(&mut dump, 0x1000, e),
        }

        proof {
            assert(dump@ =~= elf_program_header_bytes(*self, endianness));
        }
        dump
    }
}

/// The exact bytes of the whole image: ELF header, program header, program.
pub open spec fn elf_bytes(header: ELFHeader, ph: ELFProgramHeader, p: crate::program::ProgramView) -> Seq<u8> {
    elf_header_bytes(header) + elf_program_header_bytes(ph, header.endianness) + program_bytes(p)
}

impl ELF {
    /// Assembles a 32-bit executable image around the program. The two
    /// headers take `0x54` bytes, so the program is loaded at virtual address
    /// `0x08048054`; the entry point is that address plus the entry label's
    /// file offset within the program.
    pub fn new_x86(program: Program) -> (r: ELF)
        requires
            program.wf(),
            program.entry_point.addr <= u32::MAX,
        ensures
            r.class == ELFClass::X86,
            r.header == (ELFHeader {
                class: ELFClass::X86,
                endianness: Endianness::Little,
                elftype: ELFType::Exectuable,
                instruction_set: 0x03,
                entry_point: (0x08048054 + program.entry_point.addr) as u64,
                program_table: 0x34,
            }),
            r.program_header == (ELFProgramHeader {
                class: ELFClass::X86,
                p_type: ELFProgramHeaderType::Loadable,
                p_offset: 0x54,
                p_vaddr: 0x08048054,
                p_filesz: program.spec_len() as u64,
            }),
            r.program.wf(),
            r.program.offset == (Addr { addr: 0x54, vaddr: 0x08048054 }),
            r.program.entry_point == program.entry_point,
            r.program@.blocks == program@.blocks,
    {
        let program_len = program.len();
        let offset = Addr { addr: 0x54, vaddr: 0x08048054 };
        let header = ELFHeader {
            class: ELFClass::X86,
            endianness: Endianness::Little,
            elftype: ELFType::Exectuable,
            instruction_set: 0x03,
            entry_point: 0x08048054u64 + program.entry_point.addr,
            program_table: 0x34,
        };
        let program_header = ELFProgramHeader {
            class: ELFClass::X86,
            p_type: ELFProgramHeaderType::Loadable,
            p_offset: 0x54,
            p_vaddr: 0x08048054,
            p_filesz: program_len as u64,
        };
        let mut elf = ELF { class: ELFClass::X86, header, program_header, program };
        elf.program.offset = offset;
        elf
    }

    /// Serializes the whole image: ELF header, program header, program bytes.
    pub fn as_vec(&self) -> (r: Vec<u8>)
        requires
            self.program.wf(),
        ensures
            r@ == elf_bytes(self.header, self.program_header, self.program@),
    {
        let mut dump = self.header.as_vec();
        let ph = self.program_header.as_vec(self.header.endianness);
        dump.extend_from_slice(ph.as_slice());
        let body = self.program.as_vec();
        dump.extend_from_slice(body.as_slice());
        proof {
            assert(dump@ =~= elf_bytes(self.header, self.program_header, self.program@));
        }
        dump
    }
}

} // verus!
