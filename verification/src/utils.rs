//! Fixed-width serializers for 16/32/64-bit words in either byte order.

use vstd::prelude::*;

use crate::Endianness;

verus! {

/// The two bytes of a 16-bit word, most significant first.
pub open spec fn word_be(x: u16) -> Seq<u8> {
    seq![((x & 0xFF00) >> 8) as u8, (x & 0x00FF) as u8]
}

/// The two bytes of a 16-bit word in the given byte order.
pub open spec fn word_bytes(x: u16, e: Endianness) -> Seq<u8> {
    if e is Little {
        word_be(x).reverse()
    } else {
        word_be(x)
    }
}

/// The four bytes of a 32-bit word, most significant first.
pub open spec fn dword_be(x: u32) -> Seq<u8> {
    seq![
        ((x & 0xFF000000) >> 24) as u8,
        ((x & 0x00FF0000) >> 16) as u8,
        ((x & 0x0000FF00) >> 8) as u8,
        (x & 0x000000FF) as u8,
    ]
}

/// The four bytes of a 32-bit word in the given byte order.
pub open spec fn dword_bytes(x: u32, e: Endianness) -> Seq<u8> {
    if e is Little {
        dword_be(x).reverse()
    } else {
        dword_be(x)
    }
}

/// The eight bytes of a 64-bit word, most significant first.
pub open spec fn qword_be(x: u64) -> Seq<u8> {
    seq![
        ((x >> 56) & 0xFF) as u8,
        ((x >> 48) & 0xFF) as u8,
        ((x >> 40) & 0xFF) as u8,
        ((x >> 32) & 0xFF) as u8,
        ((x >> 24) & 0xFF) as u8,
        ((x >> 16) & 0xFF) as u8,
        ((x >> 8) & 0xFF) as u8,
        (x & 0xFF) as u8,
    ]
}

/// The eight bytes of a 64-bit word in the given byte order.
pub open spec fn qword_bytes(x: u64, e: Endianness) -> Seq<u8> {
    if e is Little {
        qword_be(x).reverse()
    } else {
        qword_be(x)
    }
}

/// Serialize a 16-bit word: most significant byte first in `Big`, least
/// significant byte first in `Little`.
pub fn dump_word(word: u16, endian: Endianness) -> (r: [u8; 2])
    ensures
        r@ == word_bytes(word, endian),
{
    let hi = ((word & 0xFF00) >> 8) as u8;
    let lo = (word & 0x00FF) as u8;

    let r = match endian {
        Endianness::Little => [lo, hi],
        Endianness::Big => [hi, lo],
    };
    proof {
        assert(r@ =~= word_bytes(word, endian));
    }
    r
}

/// Serialize a 32-bit word: most significant byte first in `Big`, least
/// significant byte first in `Little`.
pub fn dump_dword(word: u32, endian: Endianness) -> (r: [u8; 4])
    ensures
        r@ == dword_bytes(word, endian),
{
    let b0 = ((word & 0xFF000000) >> 24) as u8;
    let b1 = ((word & 0x00FF0000) >> 16) as u8;
    let b2 = ((word & 0x0000FF00) >> 8) as u8;
    let b3 = (word & 0x000000FF) as u8;

    let r = match endian {
        Endianness::Little => [b3, b2, b1, b0],
        Endianness::Big => [b0, b1, b2, b3],
    };
    proof {
        assert(r@ =~= dword_bytes(word, endian));
    }
    r
}

/// Serialize a 64-bit word: most significant byte first in `Big`, least
/// significant byte first in `Little`.
pub fn dump_qword(word: u64, endian: Endianness) -> (r: [u8; 8])
    ensures
        r@ == qword_bytes(word, endian),
{
    let b0 = ((word >> 56) & 0xFF) as u8;
    let b1 = ((word >> 48) & 0xFF) as u8;
    let b2 = ((word >> 40) & 0xFF) as u8;
    let b3 = ((word >> 32) & 0xFF) as u8;
    let b4 = ((word >> 24) & 0xFF) as u8;
    let b5 = ((word >> 16) & 0xFF) as u8;
    let b6 = ((word >> 8) & 0xFF) as u8;
    let b7 = (word & 0xFF) as u8;

    let r = match endian {
        Endianness::Little => [b7, b6, b5, b4, b3, b2, b1, b0],
        Endianness::Big => [b0, b1, b2, b3, b4, b5, b6, b7],
    };
    proof {
        assert(r@ =~= qword_bytes(word, endian));
    }
    r
}

/// The 32-bit word stored in four little-endian bytes.
pub open spec fn le32_decode(s: Seq<u8>) -> u32 {
    (s[0] as u32) | ((s[1] as u32) << 8) | ((s[2] as u32) << 16) | ((s[3] as u32) << 24)
}

/// A 32-bit word read as a two's-complement signed value.
pub open spec fn as_signed32(x: u32) -> int {
    if x >= 0x8000_0000 {
        x - 0x1_0000_0000
    } else {
        x as int
    }
}

/// Reading back four little-endian bytes recovers the 32-bit word.
pub proof fn lemma_le32_roundtrip(x: u32)
    ensures
        le32_decode(dword_bytes(x, Endianness::Little)) == x,
{
    let s = dword_bytes(x, Endianness::Little);
    assert(s[0] == (x & 0x000000FF) as u8);
    assert(s[1] == ((x & 0x0000FF00) >> 8) as u8);
    assert(s[2] == ((x & 0x00FF0000) >> 16) as u8);
    assert(s[3] == ((x & 0xFF000000) >> 24) as u8);
    assert((((x & 0x000000FF) as u8 as u32) | ((((x & 0x0000FF00) >> 8) as u8 as u32) << 8) | ((((
    x & 0x00FF0000) >> 16) as u8 as u32) << 16) | ((((x & 0xFF000000) >> 24) as u8 as u32) << 24))
        == x) by (bit_vector);
}

} // verus!
