//! The arithmetic-logic helpers of the processor.  Each function is pure:
//! it takes operand byte(s) and, where relevant, the current flag byte, and
//! returns the computed value together with a fully determined new flag
//! byte.  The spec functions beside them state each result and flag byte in
//! plain arithmetic; the instruction semantics are phrased over the same
//! names.

use vstd::prelude::*;

use crate::bits::lemma_bit_extract;
use crate::bits::lemma_bit_test;
use crate::bits::lemma_mask16;
use crate::bits::lemma_mask_nibble;
use crate::bits::lemma_shl1_or;
use crate::bits::lemma_shr1_or;
use crate::flags::assemble_flags;
use crate::flags::c_of;
use crate::flags::lemma_flag_bits;
use crate::flags::low_of;
use crate::flags::mk_flags;
use crate::flags::z_of;

verus! {

/// An integer reduced to the range of a byte by wrapping once.
pub open spec fn wrap8(v: int) -> int {
    if v < 0 {
        v + 256
    } else if v >= 256 {
        v - 256
    } else {
        v
    }
}

/// An integer reduced to the range of a word by wrapping once.
pub open spec fn wrap16(v: int) -> int {
    if v < 0 {
        v + 0x10000
    } else if v >= 0x10000 {
        v - 0x10000
    } else {
        v
    }
}

/// The incoming carry bit of a flag byte as an integer.
pub open spec fn carry_bit(f: u8) -> int {
    if c_of(f) {
        1
    } else {
        0
    }
}

/// The wrapping increment of a byte.
pub open spec fn inc8_val(v: u8) -> u8 {
    wrap8(v + 1) as u8
}

/// The flags of an increment: Z from the result, N cleared, H on a carry
/// out of bit 3, C unchanged.
pub open spec fn inc8_flags(v: u8, f: u8) -> u8 {
    mk_flags(inc8_val(v) == 0, false, v % 16 == 15, c_of(f), low_of(f))
}

/// The wrapping decrement of a byte.
pub open spec fn dec8_val(v: u8) -> u8 {
    wrap8(v - 1) as u8
}

/// The flags of a decrement: Z from the result, N set, H on a borrow from
/// bit 4, C unchanged.
pub open spec fn dec8_flags(v: u8, f: u8) -> u8 {
    mk_flags(dec8_val(v) == 0, true, v % 16 == 0, c_of(f), low_of(f))
}

/// The wrapping sum of two bytes.
pub open spec fn add8_val(a: u8, b: u8) -> u8 {
    wrap8(a + b) as u8
}

/// The flags of a byte addition, built from scratch: Z from the result,
/// N cleared, H on a carry out of bit 3, C on a carry out of bit 7.
pub open spec fn add8_flags(a: u8, b: u8) -> u8 {
    mk_flags(add8_val(a, b) == 0, false, a % 16 + b % 16 > 15, a + b > 255, 0)
}

/// The wrapping difference of two bytes.
pub open spec fn sub8_val(a: u8, b: u8) -> u8 {
    wrap8(a - b) as u8
}

/// The flags of a byte subtraction (and of a compare, which discards the
/// difference): Z when the operands are equal, N set, H on a borrow out of
/// bit 3, C on a full borrow.
pub open spec fn sub8_flags(a: u8, b: u8, f: u8) -> u8 {
    mk_flags(a == b, true, a % 16 < b % 16, a < b, low_of(f))
}

/// The wrapping difference of two bytes and the incoming carry bit.
pub open spec fn sbc_val(a: u8, b: u8, f: u8) -> u8 {
    wrap8(a - b - carry_bit(f)) as u8
}

/// The flags of a subtract-with-carry: the borrow tests of `sub8_flags`
/// applied to the byte plus the carry bit, Z from the final result.
pub open spec fn sbc_flags(a: u8, b: u8, f: u8) -> u8 {
    mk_flags(
        sbc_val(a, b, f) == 0,
        true,
        a % 16 < b % 16 + carry_bit(f),
        a < b + carry_bit(f),
        low_of(f),
    )
}

/// The exclusive or of two bytes.
pub open spec fn xor_val(a: u8, b: u8) -> u8 {
    a ^ b
}

/// The flags of an exclusive or: Z from the result, N, H and C cleared.
pub open spec fn xor_flags(a: u8, b: u8, f: u8) -> u8 {
    mk_flags((a ^ b) == 0, false, false, false, low_of(f))
}

/// The wrapping increment of a word.
pub open spec fn inc16_val(v: u16) -> u16 {
    wrap16(v + 1) as u16
}

/// The wrapping decrement of a word.
pub open spec fn dec16_val(v: u16) -> u16 {
    wrap16(v - 1) as u16
}

/// The wrapping sum of two words.
pub open spec fn add16_val(a: u16, b: u16) -> u16 {
    wrap16(a + b) as u16
}

/// The flags of a word addition: N cleared, H on a carry out of bit 11,
/// C on a carry out of bit 15, Z unchanged.
pub open spec fn add16_flags(a: u16, b: u16, f: u8) -> u8 {
    mk_flags(z_of(f), false, a % 4096 + b % 4096 > 4095, a + b > 0xffff, low_of(f))
}

/// A byte rotated left by one, the top bit wrapping to the bottom.
pub open spec fn rl_val(v: u8) -> u8 {
    (wrap8(2 * v) + v / 128) as u8
}

/// The flags of a simple rotate left: Z, N and H cleared unconditionally,
/// C from the bit rotated out.
pub open spec fn rl_flags(v: u8, f: u8) -> u8 {
    mk_flags(false, false, false, v >= 0x80, low_of(f))
}

/// A byte rotated right by one, the bottom bit wrapping to the top.
pub open spec fn rr_val(v: u8) -> u8 {
    (v / 2 + 128 * (v % 2)) as u8
}

/// The flags of a simple rotate right: Z, N and H cleared unconditionally,
/// C from the bit rotated out.
pub open spec fn rr_flags(v: u8, f: u8) -> u8 {
    mk_flags(false, false, false, v % 2 == 1, low_of(f))
}

/// A byte rotated left by one through the carry flag: the old carry enters
/// at the bottom.
pub open spec fn rl_carry_val(v: u8, f: u8) -> u8 {
    (wrap8(2 * v) + carry_bit(f)) as u8
}

/// The flags of a rotate left through carry: Z from the result, N and H
/// cleared, C from the bit rotated out.
pub open spec fn rl_carry_flags(v: u8, f: u8) -> u8 {
    mk_flags(rl_carry_val(v, f) == 0, false, false, v >= 0x80, low_of(f))
}

/// A byte rotated right by one through the carry flag: the old carry
/// enters at the top.
pub open spec fn rr_carry_val(v: u8, f: u8) -> u8 {
    (v / 2 + 128 * carry_bit(f)) as u8
}

/// The flags of a rotate right through carry: Z from the result, N and H
/// cleared, C from the bit rotated out.
pub open spec fn rr_carry_flags(v: u8, f: u8) -> u8 {
    mk_flags(rr_carry_val(v, f) == 0, false, false, v % 2 == 1, low_of(f))
}

/// The flags of a bit test on bit `n`: Z when the bit is clear, N cleared,
/// H set unconditionally, C unchanged.
pub open spec fn bit_flags(n: u8, v: u8, f: u8) -> u8 {
    mk_flags((v >> n) & 1 == 0, false, true, c_of(f), low_of(f))
}

/// Compares a register with a byte: the flags of the wrapping difference,
/// with the difference itself discarded.
pub fn compare(reg: u8, byte: u8, flags: u8) -> (r: u8)
    ensures
        r == sub8_flags(reg, byte, flags),
{
    proof {
        lemma_mask_nibble(reg);
        lemma_mask_nibble(byte);
    }
    let z = reg == byte;
    let h = (reg & 0x0f) < (byte & 0x0f);
    let c = reg < byte;
    assemble_flags(z, true, h, c, flags)
}

/// Rotates a byte left by one, the top bit wrapping to the bottom.
pub fn rotate_left(reg: u8, flags: u8) -> (r: (u8, u8))
    ensures
        r.0 == rl_val(reg),
        r.1 == rl_flags(reg, flags),
{
    proof {
        lemma_bit_extract(reg);
    }
    let new_carry = (reg & 0x80) >> 7;
    proof {
        lemma_shl1_or(reg, new_carry);
    }
    let new_reg = (reg << 1) | new_carry;
    let f = assemble_flags(false, false, false, new_carry == 1, flags);
    (new_reg, f)
}

/// Rotates a byte right by one, the bottom bit wrapping to the top.
pub fn rotate_right(reg: u8, flags: u8) -> (r: (u8, u8))
    ensures
        r.0 == rr_val(reg),
        r.1 == rr_flags(reg, flags),
{
    proof {
        lemma_bit_extract(reg);
    }
    let new_carry = reg & 0x01;
    let top = new_carry << 7;
    proof {
        lemma_shr1_or(reg, top);
    }
    let new_reg = (reg >> 1) | top;
    let f = assemble_flags(false, false, false, new_carry == 1, flags);
    (new_reg, f)
}

/// Rotates a byte left by one through the carry flag: the old carry enters
/// at the bottom, the old top bit becomes the new carry.
pub fn rotate_left_through_carry(reg: u8, flags: u8) -> (r: (u8, u8))
    ensures
        r.0 == rl_carry_val(reg, flags),
        r.1 == rl_carry_flags(reg, flags),
{
    proof {
        lemma_flag_bits(flags);
        lemma_bit_extract(reg);
    }
    let old_carry = (flags & 0x10) >> 4;
    let new_carry = (reg & 0x80) >> 7;
    proof {
        lemma_shl1_or(reg, old_carry);
    }
    let new_reg = (reg << 1) | old_carry;
    let f = assemble_flags(new_reg == 0, false, false, new_carry == 1, flags);
    (new_reg, f)
}

/// Rotates a byte right by one through the carry flag: the old carry
/// enters at the top, the old bottom bit becomes the new carry.
pub fn rotate_right_through_carry(reg: u8, flags: u8) -> (r: (u8, u8))
    ensures
        r.0 == rr_carry_val(reg, flags),
        r.1 == rr_carry_flags(reg, flags),
{
    proof {
        lemma_flag_bits(flags);
        lemma_bit_extract(reg);
    }
    let old_carry = (flags & 0x10) << 3;
    let new_carry = reg & 0x01;
    proof {
        lemma_shr1_or(reg, old_carry);
    }
    let new_reg = (reg >> 1) | old_carry;
    let f = assemble_flags(new_reg == 0, false, false, new_carry == 1, flags);
    (new_reg, f)
}

/// XORs a register with a byte.
pub fn xor(reg: u8, byte: u8, flags: u8) -> (r: (u8, u8))
    ensures
        r.0 == xor_val(reg, byte),
        r.1 == xor_flags(reg, byte, flags),
{
    let result = reg ^ byte;
    let f = assemble_flags(result == 0, false, false, false, flags);
    (result, f)
}

/// Increments a byte with wraparound; the carry flag is not affected.
pub fn increment8(reg: u8, flags: u8) -> (r: (u8, u8))
    ensures
        r.0 == inc8_val(reg),
        r.1 == inc8_flags(reg, flags),
{
    proof {
        lemma_mask_nibble(reg);
    }
    let result = reg.wrapping_add(1);
    let h = (reg & 0x0f) + 1 > 0x0f;
    let c = (flags & 0x10) != 0;
    let f = assemble_flags(result == 0, false, h, c, flags);
    (result, f)
}

/// Increments a word with wraparound; no flag effects at all.
pub fn increment16(reg: u16) -> (r: u16)
    ensures
        r == inc16_val(reg),
{
    reg.wrapping_add(1)
}

/// Decrements a byte with wraparound; the carry flag is not affected.
pub fn decrement8(reg: u8, flags: u8) -> (r: (u8, u8))
    ensures
        r.0 == dec8_val(reg),
        r.1 == dec8_flags(reg, flags),
{
    proof {
        lemma_mask_nibble(reg);
    }
    let result = reg.wrapping_sub(1);
    let h = (reg & 0x0f) == 0;
    let c = (flags & 0x10) != 0;
    let f = assemble_flags(result == 0, true, h, c, flags);
    (result, f)
}

/// Decrements a word with wraparound; no flag effects at all.
pub fn decrement16(reg: u16) -> (r: u16)
    ensures
        r == dec16_val(reg),
{
    reg.wrapping_sub(1)
}

/// Adds two bytes with wraparound; the flag byte is built from scratch.
pub fn add8(reg: u8, byte: u8) -> (r: (u8, u8))
    ensures
        r.0 == add8_val(reg, byte),
        r.1 == add8_flags(reg, byte),
{
    proof {
        lemma_mask_nibble(reg);
        lemma_mask_nibble(byte);
        lemma_mask_nibble(0);
    }
    let result = reg.wrapping_add(byte);
    let h = (reg & 0x0f) + (byte & 0x0f) > 0x0f;
    let c = (reg as u16) + (byte as u16) > 0xff;
    let f = assemble_flags(result == 0, false, h, c, 0);
    (result, f)
}

/// Adds two words with wraparound; the zero flag is not affected.
pub fn add16(reg: u16, word: u16, flags: u8) -> (r: (u16, u8))
    ensures
        r.0 == add16_val(reg, word),
        r.1 == add16_flags(reg, word, flags),
{
    proof {
        lemma_mask16(reg);
        lemma_mask16(word);
    }
    let result = reg.wrapping_add(word);
    let z = (flags & 0x80) != 0;
    let h = (reg & 0x0fff) + (word & 0x0fff) > 0x0fff;
    let c = (reg as u32) + (word as u32) > 0xffff;
    let f = assemble_flags(z, false, h, c, flags);
    (result, f)
}

/// Subtracts a byte from a register with wraparound.
pub fn sub(reg: u8, byte: u8, flags: u8) -> (r: (u8, u8))
    ensures
        r.0 == sub8_val(reg, byte),
        r.1 == sub8_flags(reg, byte, flags),
{
    proof {
        lemma_mask_nibble(reg);
        lemma_mask_nibble(byte);
    }
    let result = reg.wrapping_sub(byte);
    let h = (reg & 0x0f) < (byte & 0x0f);
    let c = reg < byte;
    let f = assemble_flags(result == 0, true, h, c, flags);
    (result, f)
}

/// Subtracts a byte and the incoming carry bit from a register with
/// wraparound.
pub fn sbc(reg: u8, byte: u8, flags: u8) -> (r: (u8, u8))
    ensures
        r.0 == sbc_val(reg, byte, flags),
        r.1 == sbc_flags(reg, byte, flags),
{
    proof {
        lemma_mask_nibble(reg);
        lemma_mask_nibble(byte);
    }
    let carry: u8 = if (flags & 0x10) != 0 {
        1
    } else {
        0
    };
    let result = reg.wrapping_sub(byte).wrapping_sub(carry);
    let h = (reg & 0x0f) < (byte & 0x0f) + carry;
    let c = (reg as u16) < (byte as u16) + (carry as u16);
    let f = assemble_flags(result == 0, true, h, c, flags);
    (result, f)
}

/// Tests bit `n` of a byte; only the flags change, and the carry flag is
/// not affected.
pub fn bit(n: u8, reg: u8, flags: u8) -> (r: u8)
    requires
        n < 8,
    ensures
        r == bit_flags(n, reg, flags),
{
    proof {
        lemma_bit_test(n, reg);
    }
    let z = (reg & (1u8 << n)) == 0;
    let c = (flags & 0x10) != 0;
    assemble_flags(z, false, true, c, flags)
}

} // verus!
