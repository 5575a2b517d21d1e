//! Bit-level facts about bytes and words: packing and splitting 16-bit
//! values, nibble masks, shifts and rotates, and the signed reading of a
//! relative-jump operand.  Each lemma is proved by the bit-vector solver and
//! restates the operation in plain arithmetic for the rest of the crate.

use vstd::prelude::*;

verus! {

/// Packing a high and a low byte with shift-and-or is the same as
/// `high * 256 + low`.
pub proof fn lemma_pack16(h: u8, l: u8)
    by (bit_vector)
    ensures
        (((h as u16) << 8) | (l as u16)) == h as int * 256 + l as int,
{
}

/// Splitting a word with shift and mask yields its two bytes.
pub proof fn lemma_split16(v: u16)
    by (bit_vector)
    ensures
        (v >> 8) == v as int / 256,
        (v & 0xff) == v as int % 256,
        (v as u8) == v as int % 256,
        v as int / 256 < 256,
{
}

/// The low nibble of a byte is its remainder modulo 16.
pub proof fn lemma_mask_nibble(x: u8)
    by (bit_vector)
    ensures
        (x & 0xf) == x as int % 16,
{
}

/// Mask facts on words: the low twelve and the low eight bits.
pub proof fn lemma_mask16(x: u16)
    by (bit_vector)
    ensures
        (x & 0xfff) == x as int % 4096,
        (x & 0xff) == x as int % 256,
{
}

/// The top bit of a byte shifted down, and the bottom bit shifted up, in
/// plain arithmetic.
pub proof fn lemma_bit_extract(reg: u8)
    by (bit_vector)
    ensures
        ((reg & 0x80) >> 7) == reg as int / 128,
        (reg & 1) == reg as int % 2,
        ((reg & 1) << 7) == 128 * (reg as int % 2),
{
}

/// A left shift by one with a bit (at most one) ORed into the vacated
/// position, in plain arithmetic.
pub proof fn lemma_shl1_or(reg: u8, b: u8)
    by (bit_vector)
    requires
        b <= 1,
    ensures
        reg < 128 ==> ((reg << 1) | b) == reg as int * 2 + b,
        reg >= 128 ==> ((reg << 1) | b) == reg as int * 2 - 256 + b,
{
}

/// A right shift by one with a top bit (zero or 128) ORed into the vacated
/// position, in plain arithmetic.
pub proof fn lemma_shr1_or(reg: u8, b: u8)
    by (bit_vector)
    requires
        b == 0 || b == 128,
    ensures
        ((reg >> 1) | b) == reg as int / 2 + b,
{
}

/// Testing a bit with a mask agrees with shifting it down to bit zero.
pub proof fn lemma_bit_test(b: u8, reg: u8)
    by (bit_vector)
    requires
        b < 8,
    ensures
        (reg & (1u8 << b) == 0) <==> ((reg >> b) & 1 == 0),
{
}

/// Reading a byte as a signed offset and widening it to a word: small
/// values stay as they are, large ones gain the sign-extension prefix.
pub proof fn lemma_signed_byte(b: u8)
    by (bit_vector)
    ensures
        b < 128 ==> ((b as i8) as u16) == b as int,
        b >= 128 ==> ((b as i8) as u16) == b as int + 0xff00,
{
}

} // verus!
