//! The register file: eight independent 8-bit registers, with the adjacent
//! pairs `af`, `bc`, `de`, `hl` exposed as 16-bit composites (high byte
//! first).  The 8-bit fields cannot leave their range by construction, so
//! the file carries no separate invariant.

use vstd::prelude::*;

use crate::bits::lemma_pack16;
use crate::bits::lemma_split16;

verus! {

/// The value of a 16-bit register pair with high byte `hi` and low byte `lo`.
pub open spec fn pair(hi: u8, lo: u8) -> u16 {
    (hi * 256 + lo) as u16
}

/// The register file with the `BC` pair set to a word, split into its two
/// constituent bytes.
pub open spec fn regs_with_bc(regs: Registers, v: u16) -> Registers {
    Registers { b: (v as int / 256) as u8, c: (v as int % 256) as u8, ..regs }
}

/// The register file with the `DE` pair set to a word, split into its two
/// constituent bytes.
pub open spec fn regs_with_de(regs: Registers, v: u16) -> Registers {
    Registers { d: (v as int / 256) as u8, e: (v as int % 256) as u8, ..regs }
}

/// The register file with the `HL` pair set to a word, split into its two
/// constituent bytes.
pub open spec fn regs_with_hl(regs: Registers, v: u16) -> Registers {
    Registers { h: (v as int / 256) as u8, l: (v as int % 256) as u8, ..regs }
}

/// The 8-bit registers of the processor.
#[derive(Clone, Copy, Debug, PartialEq, Eq, Structural)]
pub struct Registers {
    pub a: u8,
    pub f: u8,
    pub b: u8,
    pub c: u8,
    pub d: u8,
    pub e: u8,
    pub h: u8,
    pub l: u8,
}

impl Registers {
    /// The composite `AF` register in the spec view.
    pub open spec fn spec_af(self) -> u16 {
        pair(self.a, self.f)
    }

    /// The composite `BC` register in the spec view.
    pub open spec fn spec_bc(self) -> u16 {
        pair(self.b, self.c)
    }

    /// The composite `DE` register in the spec view.
    pub open spec fn spec_de(self) -> u16 {
        pair(self.d, self.e)
    }

    /// The composite `HL` register in the spec view.
    pub open spec fn spec_hl(self) -> u16 {
        pair(self.h, self.l)
    }

    /// Returns the value of the `AF` register.
    pub fn af(&self) -> (r: u16)
        ensures
            r == self.spec_af(),
    {
        proof {
            lemma_pack16(self.a, self.f);
        }
        ((self.a as u16) << 8) | (self.f as u16)
    }

    /// Returns the value of the `BC` register.
    pub fn bc(&self) -> (r: u16)
        ensures
            r == self.spec_bc(),
    {
        proof {
            lemma_pack16(self.b, self.c);
        }
        ((self.b as u16) << 8) | (self.c as u16)
    }

    /// Returns the value of the `DE` register.
    pub fn de(&self) -> (r: u16)
        ensures
            r == self.spec_de(),
    {
        proof {
            lemma_pack16(self.d, self.e);
        }
        ((self.d as u16) << 8) | (self.e as u16)
    }

    /// Returns the value of the `HL` register.
    pub fn hl(&self) -> (r: u16)
        ensures
            r == self.spec_hl(),
    {
        proof {
            lemma_pack16(self.h, self.l);
        }
        ((self.h as u16) << 8) | (self.l as u16)
    }

    /// Sets the value of the `AF` register, splitting the word into its two
    /// constituent bytes; the other six registers are untouched.
    pub fn set_af(&mut self, value: u16)
        ensures
            final(self).a == value as int / 256,
            final(self).f == value as int % 256,
            final(self).spec_af() == value,
            *final(self) == (Registers { a: final(self).a, f: final(self).f, ..*old(self) }),
    {
        proof {
            lemma_split16(value);
        }
        self.a = (value >> 8) as u8;
        self.f = (value & 0x00ff) as u8;
    }

    /// Sets the value of the `BC` register; the other six registers are
    /// untouched.
    pub fn set_bc(&mut self, value: u16)
        ensures
            final(self).b == value as int / 256,
            final(self).c == value as int % 256,
            final(self).spec_bc() == value,
            *final(self) == (Registers { b: final(self).b, c: final(self).c, ..*old(self) }),
    {
        proof {
            lemma_split16(value);
        }
        self.b = (value >> 8) as u8;
        self.c = (value & 0x00ff) as u8;
    }

    /// Sets the value of the `DE` register; the other six registers are
    /// untouched.
    pub fn set_de(&mut self, value: u16)
        ensures
            final(self).d == value as int / 256,
            final(self).e == value as int % 256,
            final(self).spec_de() == value,
            *final(self) == (Registers { d: final(self).d, e: final(self).e, ..*old(self) }),
    {
        proof {
            lemma_split16(value);
        }
        self.d = (value >> 8) as u8;
        self.e = (value & 0x00ff) as u8;
    }

    /// Sets the value of the `HL` register; the other six registers are
    /// untouched.
    pub fn set_hl(&mut self, value: u16)
        ensures
            final(self).h == value as int / 256,
            final(self).l == value as int % 256,
            final(self).spec_hl() == value,
            *final(self) == (Registers { h: final(self).h, l: final(self).l, ..*old(self) }),
    {
        proof {
            lemma_split16(value);
        }
        self.h = (value >> 8) as u8;
        self.l = (value & 0x00ff) as u8;
    }
}

} // verus!
