//! The flag register model: the four outcome bits in the top nibble of the
//! `f` register (Zero, Subtract, Half-carry, Carry) and the assembly of a new
//! flag byte from them.

use vstd::prelude::*;

verus! {

/// True when the zero flag (bit 7) is set in a flag byte.
pub open spec fn z_of(f: u8) -> bool {
    f & 0x80 != 0
}

/// True when the subtract flag (bit 6) is set in a flag byte.
pub open spec fn n_of(f: u8) -> bool {
    f & 0x40 != 0
}

/// True when the half-carry flag (bit 5) is set in a flag byte.
pub open spec fn h_of(f: u8) -> bool {
    f & 0x20 != 0
}

/// True when the carry flag (bit 4) is set in a flag byte.
pub open spec fn c_of(f: u8) -> bool {
    f & 0x10 != 0
}

/// The lower nibble of a flag byte; no flag operation touches it.
pub open spec fn low_of(f: u8) -> u8 {
    f & 0x0f
}

/// The flag byte with the four outcome bits as given and the lower nibble
/// carried over from `low`.
pub open spec fn mk_flags(z: bool, n: bool, h: bool, c: bool, low: u8) -> u8 {
    (if z { 0x80u8 } else { 0u8 }) | (if n { 0x40u8 } else { 0u8 }) | (if h {
        0x20u8
    } else {
        0u8
    }) | (if c { 0x10u8 } else { 0u8 }) | (low & 0x0f)
}

/// Builds the flag byte for an operation that determines all four outcome
/// bits, keeping the lower nibble of the incoming flag byte.
pub(crate) fn assemble_flags(z: bool, n: bool, h: bool, c: bool, flags: u8) -> (r: u8)
    ensures
        r == mk_flags(z, n, h, c, low_of(flags)),
{
    let r: u8 = (if z { 0x80u8 } else { 0u8 }) | (if n { 0x40u8 } else { 0u8 }) | (if h {
        0x20u8
    } else {
        0u8
    }) | (if c { 0x10u8 } else { 0u8 }) | (flags & 0x0f);
    proof {
        assert(r == mk_flags(z, n, h, c, low_of(flags))) by (bit_vector)
            requires
                r == (if z { 0x80u8 } else { 0u8 }) | (if n { 0x40u8 } else { 0u8 }) | (if h {
                    0x20u8
                } else {
                    0u8
                }) | (if c { 0x10u8 } else { 0u8 }) | (flags & 0x0f),
        ;
    }
    r
}

/// The numeric value of each flag bit extracted from a flag byte, as the
/// getter and rotate operations compute it.
pub proof fn lemma_flag_bits(f: u8)
    by (bit_vector)
    ensures
        ((f & 0x80) >> 7) == (if f & 0x80 != 0 { 1u8 } else { 0u8 }),
        ((f & 0x40) >> 6) == (if f & 0x40 != 0 { 1u8 } else { 0u8 }),
        ((f & 0x20) >> 5) == (if f & 0x20 != 0 { 1u8 } else { 0u8 }),
        ((f & 0x10) >> 4) == (if f & 0x10 != 0 { 1u8 } else { 0u8 }),
        ((f & 0x10) << 3) == (if f & 0x10 != 0 { 128u8 } else { 0u8 }),
{
}

/// Setting or clearing one flag bit with a mask changes exactly that bit:
/// the other three outcome bits and the lower nibble read back unchanged.
pub proof fn lemma_flag_update(f: u8)
    by (bit_vector)
    ensures
        (f | 0x80) & 0x80 != 0,
        (f | 0x80) & 0x40 == f & 0x40,
        (f | 0x80) & 0x20 == f & 0x20,
        (f | 0x80) & 0x10 == f & 0x10,
        (f | 0x80) & 0x0f == f & 0x0f,
        (f & 0x7f) & 0x80 == 0,
        (f & 0x7f) & 0x40 == f & 0x40,
        (f & 0x7f) & 0x20 == f & 0x20,
        (f & 0x7f) & 0x10 == f & 0x10,
        (f & 0x7f) & 0x0f == f & 0x0f,
        (f | 0x40) & 0x40 != 0,
        (f | 0x40) & 0x80 == f & 0x80,
        (f | 0x40) & 0x20 == f & 0x20,
        (f | 0x40) & 0x10 == f & 0x10,
        (f | 0x40) & 0x0f == f & 0x0f,
        (f & 0xbf) & 0x40 == 0,
        (f & 0xbf) & 0x80 == f & 0x80,
        (f & 0xbf) & 0x20 == f & 0x20,
        (f & 0xbf) & 0x10 == f & 0x10,
        (f & 0xbf) & 0x0f == f & 0x0f,
        (f | 0x20) & 0x20 != 0,
        (f | 0x20) & 0x80 == f & 0x80,
        (f | 0x20) & 0x40 == f & 0x40,
        (f | 0x20) & 0x10 == f & 0x10,
        (f | 0x20) & 0x0f == f & 0x0f,
        (f & 0xdf) & 0x20 == 0,
        (f & 0xdf) & 0x80 == f & 0x80,
        (f & 0xdf) & 0x40 == f & 0x40,
        (f & 0xdf) & 0x10 == f & 0x10,
        (f & 0xdf) & 0x0f == f & 0x0f,
        (f | 0x10) & 0x10 != 0,
        (f | 0x10) & 0x80 == f & 0x80,
        (f | 0x10) & 0x40 == f & 0x40,
        (f | 0x10) & 0x20 == f & 0x20,
        (f | 0x10) & 0x0f == f & 0x0f,
        (f & 0xef) & 0x10 == 0,
        (f & 0xef) & 0x80 == f & 0x80,
        (f & 0xef) & 0x40 == f & 0x40,
        (f & 0xef) & 0x20 == f & 0x20,
        (f & 0xef) & 0x0f == f & 0x0f,
{
}

} // verus!
