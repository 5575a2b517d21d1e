//! The memory address decoder: a fixed table of nine regions partitioning
//! the 64KB address space, two of them bank-switched, with byte and word
//! reads and writes routed to the owning region.
//!
//! Failure rules: a write anywhere in the read-only region and any access
//! to the unused region are fatal, reported with the exact address; no
//! other address ever produces an error.  Echo RAM is modelled as an
//! independent backing store rather than a true mirror of work RAM; that is
//! an intentional simplification of this model.

use vstd::prelude::*;

use crate::bits::lemma_pack16;
use crate::bits::lemma_split16;
use crate::errors::MachineError;
use crate::errors::MemoryOp;

verus! {

pub(crate) const ROM_SIZE: u16 = 0x8000;
pub(crate) const VRAM_SIZE: u16 = 0x2000;
pub(crate) const ERAM_SIZE: u16 = 0x2000;
pub(crate) const WRAM_SIZE: u16 = 0x2000;
pub(crate) const ECHO_SIZE: u16 = 0x1e00;
pub(crate) const OAM_SIZE: u16 = 0xa0;
pub(crate) const IO_SIZE: u16 = 0x80;
pub(crate) const HRAM_SIZE: u16 = 0x7f;

pub(crate) const ROM_ADDR: u16 = 0x0000;
pub(crate) const VRAM_ADDR: u16 = 0x8000;
pub(crate) const ERAM_ADDR: u16 = 0xa000;
pub(crate) const WRAM_ADDR: u16 = 0xc000;
pub(crate) const ECHO_ADDR: u16 = 0xe000;
pub(crate) const OAM_ADDR: u16 = 0xfe00;
pub(crate) const UNUSED_ADDR: u16 = 0xfea0;
pub(crate) const IO_ADDR: u16 = 0xff00;
pub(crate) const HRAM_ADDR: u16 = 0xff80;
pub(crate) const IE_ADDR: u16 = 0xffff;

/// The fixed 256-byte bootstrap image seeded into the first bytes of the
/// read-only region before the processor begins fetching.
pub const BOOT_ROM: [u8; 256] = [
    0x31, 0xfe, 0xff, 0xaf, 0x21, 0xff, 0x9f, 0x32, 0xcb, 0x7c, 0x20, 0xfb, 0x21, 0x26, 0xff, 0x0e,
    0x11, 0x3e, 0x80, 0x32, 0xe2, 0x0c, 0x3e, 0xf3, 0xe2, 0x32, 0x3e, 0x77, 0x77, 0x3e, 0xfc, 0xe0,
    0x47, 0x11, 0x04, 0x01, 0x21, 0x10, 0x80, 0x1a, 0xcd, 0x95, 0x00, 0xcd, 0x96, 0x00, 0x13, 0x7b,
    0xfe, 0x34, 0x20, 0xf3, 0x11, 0xd8, 0x00, 0x06, 0x08, 0x1a, 0x13, 0x22, 0x23, 0x05, 0x20, 0xf9,
    0x3e, 0x19, 0xea, 0x10, 0x99, 0x21, 0x2f, 0x99, 0x0e, 0x0c, 0x3d, 0x28, 0x08, 0x32, 0x0d, 0x20,
    0xf9, 0x2e, 0x0f, 0x18, 0xf3, 0x67, 0x3e, 0x64, 0x57, 0xe0, 0x42, 0x3e, 0x91, 0xe0, 0x40, 0x04,
    0x1e, 0x02, 0x0e, 0x0c, 0xf0, 0x44, 0xfe, 0x90, 0x20, 0xfa, 0x0d, 0x20, 0xf7, 0x1d, 0x20, 0xf2,
    0x0e, 0x13, 0x24, 0x7c, 0x1e, 0x83, 0xfe, 0x62, 0x28, 0x06, 0x1e, 0xc1, 0xfe, 0x64, 0x20, 0x06,
    0x7b, 0xe2, 0x0c, 0x3e, 0x87, 0xe2, 0xf0, 0x42, 0x90, 0xe0, 0x42, 0x15, 0x20, 0xd2, 0x05, 0x20,
    0x4f, 0x16, 0x20, 0x18, 0xcb, 0x4f, 0x06, 0x04, 0xc5, 0xcb, 0x11, 0x17, 0xc1, 0xcb, 0x11, 0x17,
    0x05, 0x20, 0xf5, 0x22, 0x23, 0x22, 0x23, 0xc9, 0xce, 0xed, 0x66, 0x66, 0xcc, 0x0d, 0x00, 0x0b,
    0x03, 0x73, 0x00, 0x83, 0x00, 0x0c, 0x00, 0x0d, 0x00, 0x08, 0x11, 0x1f, 0x88, 0x89, 0x00, 0x0e,
    0xdc, 0xcc, 0x6e, 0xe6, 0xdd, 0xdd, 0xd9, 0x99, 0xbb, 0xbb, 0x67, 0x63, 0x6e, 0x0e, 0xec, 0xcc,
    0xdd, 0xdc, 0x99, 0x9f, 0xbb, 0xb9, 0x33, 0x3e, 0x3c, 0x42, 0xb9, 0xa5, 0xb9, 0xa5, 0x42, 0x3c,
    0x21, 0x04, 0x01, 0x11, 0xa8, 0x00, 0x1a, 0x13, 0xbe, 0x20, 0xfe, 0x23, 0x7d, 0xfe, 0x34, 0x20,
    0xf5, 0x06, 0x19, 0x78, 0x86, 0x23, 0x05, 0x20, 0xfb, 0x86, 0x20, 0xfe, 0x3e, 0x01, 0xe0, 0x50,
];

/// The read-only region, 0x0000 to 0x7fff.
pub open spec fn in_rom(a: u16) -> bool {
    a < 0x8000
}

/// The video RAM region, 0x8000 to 0x9fff.
pub open spec fn in_vram(a: u16) -> bool {
    0x8000 <= a < 0xa000
}

/// The external RAM region, 0xa000 to 0xbfff.
pub open spec fn in_eram(a: u16) -> bool {
    0xa000 <= a < 0xc000
}

/// The work RAM region, 0xc000 to 0xdfff.
pub open spec fn in_wram(a: u16) -> bool {
    0xc000 <= a < 0xe000
}

/// The echo RAM region, 0xe000 to 0xfdff.
pub open spec fn in_echo(a: u16) -> bool {
    0xe000 <= a < 0xfe00
}

/// The object attribute memory region, 0xfe00 to 0xfe9f.
pub open spec fn in_oam(a: u16) -> bool {
    0xfe00 <= a < 0xfea0
}

/// The unused region, 0xfea0 to 0xfeff; any access to it is fatal.
pub open spec fn in_unused(a: u16) -> bool {
    0xfea0 <= a < 0xff00
}

/// The I/O register region, 0xff00 to 0xff7f.
pub open spec fn in_io(a: u16) -> bool {
    0xff00 <= a < 0xff80
}

/// The high RAM region, 0xff80 to 0xfffe.
pub open spec fn in_hram(a: u16) -> bool {
    0xff80 <= a < 0xffff
}

/// The single-byte interrupt-enable register at the top of the space.
pub open spec fn in_ie(a: u16) -> bool {
    a == 0xffff
}

/// How many of the nine regions claim an address.
pub open spec fn region_count(a: u16) -> int {
    (if in_rom(a) { 1int } else { 0int }) + (if in_vram(a) { 1int } else { 0int }) + (if in_eram(a) {
        1int
    } else {
        0int
    }) + (if in_wram(a) { 1int } else { 0int }) + (if in_echo(a) { 1int } else { 0int }) + (if in_oam(
        a,
    ) {
        1int
    } else {
        0int
    }) + (if in_unused(a) { 1int } else { 0int }) + (if in_io(a) { 1int } else { 0int }) + (if in_hram(
        a,
    ) {
        1int
    } else {
        0int
    }) + (if in_ie(a) { 1int } else { 0int })
}

/// The region table is a partition: every address in the 64KB space is
/// claimed by exactly one region (the unused gap counts as a region of its
/// own, as does the interrupt-enable byte).
pub proof fn lemma_region_partition(addr: u16)
    ensures
        region_count(addr) == 1,
{
}

/// True of an address that a byte may be read from.
pub open spec fn readable(a: u16) -> bool {
    !in_unused(a)
}

/// True of an address that a byte may be written to.
pub open spec fn writable(a: u16) -> bool {
    !in_rom(a) && !in_unused(a)
}

/// The address one above `a`, wrapping around the top of the space.
pub open spec fn wrap_inc(a: u16) -> u16 {
    if a == 0xffff {
        0
    } else {
        (a + 1) as u16
    }
}

/// A vector of `len` copies of `value`.
fn filled(value: u8, len: usize) -> (r: Vec<u8>)
    ensures
        r@.len() == len,
        forall|i: int| 0 <= i < len ==> r@[i] == value,
{
    let mut v: Vec<u8> = Vec::new();
    let mut i: usize = 0;
    while i < len
        invariant
            i <= len,
            v@.len() == i,
            forall|j: int| 0 <= j < i ==> v@[j] == value,
        decreases len - i,
    {
        v.push(value);
        i = i + 1;
    }
    v
}

/// Subtracts the region base from an address, yielding the index of the
/// byte inside the region's backing store.
fn translate_addr(addr: u16, offset: u16) -> (r: usize)
    requires
        offset <= addr,
    ensures
        r == addr - offset,
{
    (addr - offset) as usize
}

/// A bank-switched memory region: the backing store is split into two
/// equal halves, and an address in the lower half of the region resolves to
/// `bank0`, one in the upper half to `bankn`.  No memory-bank controller is
/// modelled: both halves are fixed.
#[derive(Clone, Debug)]
pub struct BankedMemory {
    pub bank0: Vec<u8>,
    pub bankn: Vec<u8>,
    pub size: u16,
    pub offset: u16,
}

impl BankedMemory {
    /// Both banks hold exactly half the region, and the region lies inside
    /// the 16-bit address space.
    pub open spec fn wf(self) -> bool {
        &&& self.size % 2 == 0
        &&& self.offset + self.size <= 0x10000
        &&& self.bank0@.len() == self.size as int / 2
        &&& self.bankn@.len() == self.size as int / 2
    }

    /// The size of the region in bytes.
    pub open spec fn spec_size(self) -> u16 {
        self.size
    }

    /// The base address of the region.
    pub open spec fn spec_offset(self) -> u16 {
        self.offset
    }

    /// The byte the region holds for an address: the lower half of the
    /// region from `bank0`, the upper half from `bankn`.
    pub open spec fn spec_read(self, addr: u16) -> u8 {
        if addr - self.offset < self.size as int / 2 {
            self.bank0@[addr - self.offset]
        } else {
            self.bankn@[addr - self.offset - self.size as int / 2]
        }
    }

    /// Creates a banked region of the given size at the given base, zero
    /// filled.
    fn new(size: u16, offset: u16) -> (r: Self)
        requires
            size % 2 == 0,
            offset + size <= 0x10000,
        ensures
            r.wf(),
            r.spec_size() == size,
            r.spec_offset() == offset,
            forall|a: u16| offset <= a < offset + size ==> r.spec_read(a) == 0,
    {
        Self {
            bank0: filled(0, (size / 2) as usize),
            bankn: filled(0, (size / 2) as usize),
            size,
            offset,
        }
    }

    /// Returns the byte at the given address, taking the region base into
    /// account.
    pub fn read(&self, addr: u16) -> (r: u8)
        requires
            self.wf(),
            self.spec_offset() <= addr < self.spec_offset() + self.spec_size(),
        ensures
            r == self.spec_read(addr),
    {
        if addr - self.offset < self.size / 2 {
            self.bank0[translate_addr(addr, self.offset)]
        } else {
            self.bankn[(addr - self.offset - self.size / 2) as usize]
        }
    }

    /// Writes the given value at the given address, taking the region base
    /// into account; every other byte of the region keeps its value.
    fn write(&mut self, addr: u16, value: u8)
        requires
            old(self).wf(),
            old(self).spec_offset() <= addr < old(self).spec_offset() + old(self).spec_size(),
        ensures
            final(self).wf(),
            final(self).spec_size() == old(self).spec_size(),
            final(self).spec_offset() == old(self).spec_offset(),
            final(self).spec_read(addr) == value,
            forall|a: u16|
                old(self).spec_offset() <= a < old(self).spec_offset() + old(self).spec_size() && a
                    != addr ==> final(self).spec_read(a) == old(self).spec_read(a),
    {
        if addr - self.offset < self.size / 2 {
            let i = translate_addr(addr, self.offset);
            self.bank0[i] = value;
        } else {
            let i = (addr - self.offset - self.size / 2) as usize;
            self.bankn[i] = value;
        }
    }
}

/// The memory of the machine: nine fixed regions covering the whole 16-bit
/// address space.
#[derive(Clone, Debug)]
pub struct Memory {
    pub rom: BankedMemory,
    pub vram: Vec<u8>,
    pub eram: Vec<u8>,
    pub wram: BankedMemory,
    pub echo: Vec<u8>,
    pub oam: Vec<u8>,
    pub io: Vec<u8>,
    pub hram: Vec<u8>,
    pub ie: u8,
}

impl Memory {
    /// Every region's backing store has exactly the size of its address
    /// range, and the two banked regions sit at their fixed bases.
    pub open spec fn wf(self) -> bool {
        &&& self.rom.wf()
        &&& self.rom.spec_size() == 0x8000
        &&& self.rom.spec_offset() == 0
        &&& self.wram.wf()
        &&& self.wram.spec_size() == 0x2000
        &&& self.wram.spec_offset() == 0xc000
        &&& self.vram@.len() == 0x2000
        &&& self.eram@.len() == 0x2000
        &&& self.echo@.len() == 0x1e00
        &&& self.oam@.len() == 0xa0
        &&& self.io@.len() == 0x80
        &&& self.hram@.len() == 0x7f
    }

    /// The byte the memory holds for an address, routed to the owning
    /// region.  For the unused region, where no byte exists, the view is
    /// zero; reads there fail instead of returning it.
    pub open spec fn spec_read(self, addr: u16) -> u8 {
        if in_rom(addr) {
            self.rom.spec_read(addr)
        } else if in_vram(addr) {
            self.vram@[addr - 0x8000]
        } else if in_eram(addr) {
            self.eram@[addr - 0xa000]
        } else if in_wram(addr) {
            self.wram.spec_read(addr)
        } else if in_echo(addr) {
            self.echo@[addr - 0xe000]
        } else if in_oam(addr) {
            self.oam@[addr - 0xfe00]
        } else if in_io(addr) {
            self.io@[addr - 0xff00]
        } else if in_hram(addr) {
            self.hram@[addr - 0xff80]
        } else if in_ie(addr) {
            self.ie
        } else {
            0
        }
    }

    /// The little-endian word the memory holds at an address: the low byte
    /// at the address itself, the high byte one above it (wrapping).
    pub open spec fn spec_read_word(self, addr: u16) -> int {
        self.spec_read(addr) + 256 * self.spec_read(wrap_inc(addr))
    }

    /// Creates the memory of a fresh machine: every region zeroed except
    /// video RAM, which is filled with a sentinel value of one, and the
    /// first bytes of the read-only region, which hold the bootstrap image.
    pub fn new() -> (r: Memory)
        ensures
            r.wf(),
            forall|a: u16| a < 256 ==> r.spec_read(a) == BOOT_ROM@[a as int],
            forall|a: u16| 256 <= a < 0x8000 ==> r.spec_read(a) == 0,
            forall|a: u16| in_vram(a) ==> r.spec_read(a) == 1,
            forall|a: u16|
                0xa000 <= a && !in_vram(a) && !in_unused(a) ==> r.spec_read(a) == 0,
    {
        let mut mem = Memory {
            rom: BankedMemory::new(ROM_SIZE, ROM_ADDR),
            vram: filled(1, VRAM_SIZE as usize),
            eram: filled(0, ERAM_SIZE as usize),
            wram: BankedMemory::new(WRAM_SIZE, WRAM_ADDR),
            echo: filled(0, ECHO_SIZE as usize),
            oam: filled(0, OAM_SIZE as usize),
            io: filled(0, IO_SIZE as usize),
            hram: filled(0, HRAM_SIZE as usize),
            ie: 0,
        };
        mem.init();
        mem
    }

    /// Seeds the bootstrap image into the first bytes of the read-only
    /// region; every other byte of memory keeps its value.
    pub fn init(&mut self)
        requires
            old(self).wf(),
        ensures
            final(self).wf(),
            forall|a: u16| a < 256 ==> final(self).spec_read(a) == BOOT_ROM@[a as int],
            forall|a: u16| a >= 256 ==> final(self).spec_read(a) == old(self).spec_read(a),
    {
        let mut addr: usize = 0;
        while addr < 256
            invariant
                addr <= 256,
                self.wf(),
                self.rom.spec_size() == 0x8000,
                self.rom.spec_offset() == 0,
                forall|a: u16| a < addr ==> self.spec_read(a) == BOOT_ROM@[a as int],
                forall|a: u16| a >= addr ==> self.spec_read(a) == old(self).spec_read(a),
            decreases 256 - addr,
        {
            self.rom.write(addr as u16, BOOT_ROM[addr]);
            addr = addr + 1;
        }
    }

    /// Reads a byte from the given address.  Fails exactly on the unused
    /// region, reporting the address.
    pub fn read_byte(&self, addr: u16) -> (r: Result<u8, MachineError>)
        requires
            self.wf(),
        ensures
            match r {
                Ok(b) => readable(addr) && b == self.spec_read(addr),
                Err(e) => !readable(addr) && e == (MachineError::IllegalMemoryAccess {
                    address: addr,
                    operation: MemoryOp::Read,
                }),
            },
    {
        if addr < VRAM_ADDR {
            Ok(self.rom.read(addr))
        } else if addr < ERAM_ADDR {
            Ok(self.vram[translate_addr(addr, VRAM_ADDR)])
        } else if addr < WRAM_ADDR {
            Ok(self.eram[translate_addr(addr, ERAM_ADDR)])
        } else if addr < ECHO_ADDR {
            Ok(self.wram.read(addr))
        } else if addr < OAM_ADDR {
            Ok(self.echo[translate_addr(addr, ECHO_ADDR)])
        } else if addr < UNUSED_ADDR {
            Ok(self.oam[translate_addr(addr, OAM_ADDR)])
        } else if addr < IO_ADDR {
            Err(MachineError::IllegalMemoryAccess { address: addr, operation: MemoryOp::Read })
        } else if addr < HRAM_ADDR {
            Ok(self.io[translate_addr(addr, IO_ADDR)])
        } else if addr < IE_ADDR {
            Ok(self.hram[translate_addr(addr, HRAM_ADDR)])
        } else {
            Ok(self.ie)
        }
    }

    /// Reads a little-endian word from the given address: the low byte at
    /// the address, the high byte one above it (wrapping).  Fails on the
    /// first of the two addresses that lies in the unused region.
    pub fn read_word(&self, addr: u16) -> (r: Result<u16, MachineError>)
        requires
            self.wf(),
        ensures
            match r {
                Ok(w) => readable(addr) && readable(wrap_inc(addr)) && w == self.spec_read_word(
                    addr,
                ),
                Err(e) => (!readable(addr) || !readable(wrap_inc(addr))) && e
                    == (MachineError::IllegalMemoryAccess {
                    address: (if !readable(addr) {
                        addr
                    } else {
                        wrap_inc(addr)
                    }),
                    operation: MemoryOp::Read,
                }),
            },
    {
        let low = match self.read_byte(addr) {
            Ok(b) => b,
            Err(e) => {
                return Err(e);
            },
        };
        let high = match self.read_byte(addr.wrapping_add(1)) {
            Ok(b) => b,
            Err(e) => {
                return Err(e);
            },
        };
        proof {
            lemma_pack16(high, low);
        }
        Ok(((high as u16) << 8) | low as u16)
    }

    /// Writes a byte to the given address.  Fails exactly on the read-only
    /// and unused regions, reporting the address; on failure memory is
    /// unchanged.
    pub fn write_byte(&mut self, addr: u16, value: u8) -> (r: Result<(), MachineError>)
        requires
            old(self).wf(),
        ensures
            final(self).wf(),
            match r {
                Ok(_) => writable(addr) && mem_updated(*old(self), *final(self), addr, value),
                Err(e) => !writable(addr) && *final(self) == *old(self) && e
                    == (MachineError::IllegalMemoryAccess {
                    address: addr,
                    operation: MemoryOp::Write,
                }),
            },
    {
        if addr < VRAM_ADDR {
            Err(MachineError::IllegalMemoryAccess { address: addr, operation: MemoryOp::Write })
        } else if addr < ERAM_ADDR {
            let i = translate_addr(addr, VRAM_ADDR);
            self.vram[i] = value;
            Ok(())
        } else if addr < WRAM_ADDR {
            let i = translate_addr(addr, ERAM_ADDR);
            self.eram[i] = value;
            Ok(())
        } else if addr < ECHO_ADDR {
            self.wram.write(addr, value);
            Ok(())
        } else if addr < OAM_ADDR {
            let i = translate_addr(addr, ECHO_ADDR);
            self.echo[i] = value;
            Ok(())
        } else if addr < UNUSED_ADDR {
            let i = translate_addr(addr, OAM_ADDR);
            self.oam[i] = value;
            Ok(())
        } else if addr < IO_ADDR {
            Err(MachineError::IllegalMemoryAccess { address: addr, operation: MemoryOp::Write })
        } else if addr < HRAM_ADDR {
            let i = translate_addr(addr, IO_ADDR);
            self.io[i] = value;
            Ok(())
        } else if addr < IE_ADDR {
            let i = translate_addr(addr, HRAM_ADDR);
            self.hram[i] = value;
            Ok(())
        } else {
            self.ie = value;
            Ok(())
        }
    }

    /// Writes a little-endian word to the given address: the low byte at
    /// the address, then the high byte one above it (wrapping).  Fails on
    /// the first of the two addresses that is not writable; a failure on
    /// the second leaves the low byte already written.
    pub fn write_word(&mut self, addr: u16, value: u16) -> (r: Result<(), MachineError>)
        requires
            old(self).wf(),
        ensures
            final(self).wf(),
            match r {
                Ok(_) => writable(addr) && writable(wrap_inc(addr)) && mem_updated_word(
                    *old(self),
                    *final(self),
                    addr,
                    value,
                ) && final(self).spec_read_word(addr) == value,
                Err(e) => !(writable(addr) && writable(wrap_inc(addr))) && (if !writable(addr) {
                    *final(self) == *old(self) && e == (MachineError::IllegalMemoryAccess {
                        address: addr,
                        operation: MemoryOp::Write,
                    })
                } else {
                    mem_updated(*old(self), *final(self), addr, (value as int % 256) as u8) && e
                        == (MachineError::IllegalMemoryAccess {
                        address: wrap_inc(addr),
                        operation: MemoryOp::Write,
                    })
                }),
            },
    {
        proof {
            lemma_split16(value);
        }
        match self.write_byte(addr, (value & 0x00ff) as u8) {
            Ok(_) => {},
            Err(e) => {
                return Err(e);
            },
        }
        match self.write_byte(addr.wrapping_add(1), (value >> 8) as u8) {
            Ok(_) => {},
            Err(e) => {
                return Err(e);
            },
        }
        Ok(())
    }
}

/// Relates two memories that differ in exactly one byte.
pub open spec fn mem_updated(m0: Memory, m1: Memory, addr: u16, value: u8) -> bool {
    &&& m1.spec_read(addr) == value
    &&& forall|a: u16| a != addr ==> m1.spec_read(a) == m0.spec_read(a)
}

/// Writing a word and then reading it back at the same address yields the
/// word: the two stored bytes reassemble to the value that was written.
pub proof fn lemma_word_round_trip(m0: Memory, m1: Memory, addr: u16, value: u16)
    requires
        mem_updated_word(m0, m1, addr, value),
    ensures
        m1.spec_read_word(addr) == value,
{
    assert(value as int % 256 + 256 * (value as int / 256) == value) by (nonlinear_arith);
}

/// Relates two memories that differ in exactly the little-endian word at
/// an address: the low byte of the value at the address, the high byte one
/// above it (wrapping).
pub open spec fn mem_updated_word(m0: Memory, m1: Memory, addr: u16, value: u16) -> bool {
    &&& m1.spec_read(addr) == value as int % 256
    &&& m1.spec_read(wrap_inc(addr)) == value as int / 256
    &&& forall|a: u16|
        a != addr && a != wrap_inc(addr) ==> m1.spec_read(a) == m0.spec_read(a)
}

} // verus!
