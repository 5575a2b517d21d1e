//! The assembled machine: a processor over a freshly initialized memory.

use vstd::prelude::*;

use crate::cpu::Cpu;
use crate::errors::MachineError;
use crate::memory::in_vram;
use crate::memory::Memory;
use crate::registers::Registers;

verus! {

/// The machine: the processor, which owns the memory it executes from.
#[derive(Clone, Debug)]
pub struct GameBoy {
    pub cpu: Cpu,
}

impl GameBoy {
    /// Creates a machine with zeroed registers and counters over a fresh
    /// memory: every region zeroed except video RAM (filled with a
    /// sentinel of one), the bootstrap image seeded at the bottom of the
    /// read-only region.
    pub fn new() -> (r: GameBoy)
        ensures
            r.cpu.wf(),
            r.cpu.pc == 0,
            r.cpu.sp == 0,
            r.cpu.regs == (Registers { a: 0, f: 0, b: 0, c: 0, d: 0, e: 0, h: 0, l: 0 }),
            r.cpu.ime == false,
            r.cpu.halt == false,
            r.cpu.cycles == 0,
            forall|a: u16|
                a < 256 ==> r.cpu.mem.spec_read(a) == crate::memory::BOOT_ROM@[a as int],
            forall|a: u16| 256 <= a < 0x8000 ==> r.cpu.mem.spec_read(a) == 0,
            forall|a: u16| in_vram(a) ==> r.cpu.mem.spec_read(a) == 1,
            forall|a: u16|
                0xa000 <= a && !in_vram(a) && !crate::memory::in_unused(a) ==> r.cpu.mem.spec_read(
                    a,
                ) == 0,
    {
        let memory = Memory::new();
        GameBoy { cpu: Cpu::new(memory) }
    }

    /// Steps the machine's processor up to `steps` times, stopping early
    /// with the fatal condition of the first step that fails.
    pub fn run(&mut self, steps: u64) -> (r: Result<(), MachineError>)
        requires
            old(self).cpu.wf(),
        ensures
            final(self).cpu.wf(),
    {
        self.cpu.run(steps)
    }
}

} // verus!
