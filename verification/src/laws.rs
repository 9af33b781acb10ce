//! The invariants that hold of every valid program: layout consistency,
//! label placement, relative-jump resolution, entry-point placement, and the
//! fixed ELF header fields.

use vstd::prelude::*;

use crate::elf::{elf_header_bytes, ELFClass, ELFHeader, ELFProgramHeader};
use crate::instruction::{instr_bytes, InstrView, JumpCondition};
use crate::program::{
    blocks_len, has_label, label_offset, lemma_blocks_bytes_len, lemma_label_offset_split,
    program_bytes, ProgramView,
};
use crate::utils::{as_signed32, le32_decode, lemma_le32_roundtrip, word_bytes};
use crate::{truncate32, Endianness, ValueView};

verus! {

/// Layout consistency: the sum over blocks of the sum over instructions of
/// the instruction lengths equals the length of the encoded program; when the
/// program header records that sum as its file size, the encoded program is
/// exactly `p_filesz` bytes long.
pub proof fn lemma_layout_consistency(ph: ELFProgramHeader, p: ProgramView)
    requires
        ph.p_filesz == blocks_len(p.blocks),
    ensures
        program_bytes(p).len() == blocks_len(p.blocks),
        program_bytes(p).len() == ph.p_filesz,
{
    lemma_blocks_bytes_len(p.blocks, p, p.offset.addr as int);
}

/// Label placement: the label declared by block `k` (and by no earlier block)
/// resolves to the load offset plus the summed lengths of all instructions in
/// the blocks preceding block `k`.
pub proof fn lemma_label_placement(p: ProgramView, k: int)
    requires
        0 <= k < p.blocks.len(),
        forall|j: int| 0 <= j < k ==> (#[trigger] p.blocks[j]).label != p.blocks[k].label,
    ensures
        has_label(p.blocks, p.blocks[k].label),
        crate::program::resolve_offset(p, p.blocks[k].label) == p.offset.addr + blocks_len(
            p.blocks.take(k),
        ),
{
    let label = p.blocks[k].label;
    lemma_label_offset_split(p.blocks, label, k);
    assert(p.blocks.skip(k)[0] == p.blocks[k]);
    assert(has_label(p.blocks.skip(k), label));
    assert(label_offset(p.blocks.skip(k), label) == 0);
}

/// A 32-bit truncation read back as signed recovers any value that fits in
/// 32 signed bits.
proof fn lemma_signed_roundtrip(d: int)
    requires
        -0x8000_0000 <= d < 0x8000_0000,
    ensures
        as_signed32(truncate32(d)) == d,
{
    let m = 0x1_0000_0000int;
    if d >= 0 {
        vstd::arithmetic::div_mod::lemma_small_mod(d as nat, m as nat);
    } else {
        vstd::arithmetic::div_mod::lemma_mod_add_multiples_vanish(d, m);
        vstd::arithmetic::div_mod::lemma_small_mod((d + m) as nat, m as nat);
    }
}

/// The common core of the relative-branch laws: the displacement field of a
/// PC-relative operand, read back as a signed 32-bit value and added to the
/// end address of the instruction, is the file offset the label resolves to.
proof fn lemma_rel_value(label: Seq<char>, p: ProgramView, end_off: int)
    requires
        has_label(p.blocks, label),
        crate::program::resolve_offset(p, label) < 0x8000_0000,
        0 <= p.offset.addr,
        0 <= end_off < 0x8000_0000,
    ensures
        as_signed32(
            le32_decode(crate::value_bytes(ValueView::RelPointer(label), p, end_off)),
        ) + end_off == crate::program::resolve_offset(p, label),
{
    let target = crate::program::resolve_offset(p, label);
    let d = target - end_off;
    lemma_le32_roundtrip(truncate32(d));
    lemma_signed_roundtrip(d);
}

/// Relative jump correctness: for a jump whose target is a PC-relative label
/// reference, the 32-bit little-endian displacement in the last four bytes of
/// the encoded instruction, interpreted as signed, plus the file offset
/// immediately after the instruction, equals the file offset of the label.
/// This covers the unconditional `E9` form and every conditional `0F 8x`
/// form alike.
pub proof fn lemma_relative_jump_correct(
    condition: JumpCondition,
    label: Seq<char>,
    p: ProgramView,
    end_off: int,
)
    requires
        has_label(p.blocks, label),
        crate::program::resolve_offset(p, label) < 0x8000_0000,
        0 <= p.offset.addr,
        0 <= end_off < 0x8000_0000,
    ensures
        ({
            let i = InstrView::Jump { condition, addr: ValueView::RelPointer(label) };
            let bytes = instr_bytes(i, p, end_off);
            let n = bytes.len() as int;
            as_signed32(le32_decode(bytes.subrange(n - 4, n))) + end_off
                == crate::program::resolve_offset(p, label)
        }),
{
    let i = InstrView::Jump { condition, addr: ValueView::RelPointer(label) };
    let bytes = instr_bytes(i, p, end_off);
    let vb = crate::value_bytes(ValueView::RelPointer(label), p, end_off);
    let n = bytes.len() as int;
    assert(bytes.subrange(n - 4, n) =~= vb);
    lemma_rel_value(label, p, end_off);
}

/// Relative call correctness: the same displacement law for the `E8` direct
/// call.
pub proof fn lemma_relative_call_correct(label: Seq<char>, p: ProgramView, end_off: int)
    requires
        has_label(p.blocks, label),
        crate::program::resolve_offset(p, label) < 0x8000_0000,
        0 <= p.offset.addr,
        0 <= end_off < 0x8000_0000,
    ensures
        ({
            let i = InstrView::Call(ValueView::RelPointer(label));
            let bytes = instr_bytes(i, p, end_off);
            let n = bytes.len() as int;
            as_signed32(le32_decode(bytes.subrange(n - 4, n))) + end_off
                == crate::program::resolve_offset(p, label)
        }),
{
    let i = InstrView::Call(ValueView::RelPointer(label));
    let bytes = instr_bytes(i, p, end_off);
    let vb = crate::value_bytes(ValueView::RelPointer(label), p, end_off);
    let n = bytes.len() as int;
    assert(bytes.subrange(n - 4, n) =~= vb);
    lemma_rel_value(label, p, end_off);
}

/// Entry-point correctness: for a program resolved at load offset zero whose
/// entry label is known, the entry address recorded by the 32-bit image
/// assembler equals the fixed load virtual address `0x08048000`, plus the
/// program's file offset `0x54`, plus the entry label's file offset within
/// the program.
pub proof fn lemma_entry_point_correct(p: ProgramView, label: Seq<char>)
    requires
        p.offset.addr == 0,
        has_label(p.blocks, label),
    ensures
        0x08048054 + crate::program::resolve_offset(p, label) == 0x08048000 + 0x54 + label_offset(
            p.blocks,
            label,
        ),
{
}

/// ELF header invariants for the 32-bit little-endian image: the magic
/// `7F 45 4C 46`; `e_ehsize = 0x34`; `e_phoff = 0x34`; `e_phentsize = 0x20`;
/// `e_phnum = 1`.
pub proof fn lemma_elf_header_invariants(h: ELFHeader)
    requires
        h.class == ELFClass::X86,
        h.endianness == Endianness::Little,
        h.program_table == 0x34,
    ensures
        ({
            let b = elf_header_bytes(h);
            &&& b.len() == 0x34
            &&& b[0] == 0x7F
            &&& b[1] == 0x45
            &&& b[2] == 0x4C
            &&& b[3] == 0x46
            &&& b.subrange(0x1C, 0x20) == crate::utils::dword_bytes(0x34, Endianness::Little)
            &&& b.subrange(0x28, 0x2A) == word_bytes(0x34, Endianness::Little)
            &&& b.subrange(0x2A, 0x2C) == word_bytes(0x20, Endianness::Little)
            &&& b.subrange(0x2C, 0x2E) == word_bytes(1, Endianness::Little)
        }),
{
    let b = elf_header_bytes(h);
    vstd::arithmetic::div_mod::lemma_small_mod(0x34nat, 0x1_0000_0000nat);
    assert(truncate32(0x34int) == 0x34);
    assert(b.len() == 0x34);
    assert(b.subrange(0x1C, 0x20) =~= crate::utils::dword_bytes(0x34, Endianness::Little));
    assert(b.subrange(0x28, 0x2A) =~= word_bytes(0x34, Endianness::Little));
    assert(b.subrange(0x2A, 0x2C) =~= word_bytes(0x20, Endianness::Little));
    assert(b.subrange(0x2C, 0x2E) =~= word_bytes(1, Endianness::Little));
}

} // verus!
