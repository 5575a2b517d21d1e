//! The execution engine: the processor state (program counter, stack
//! pointer, register file, memory) with flag accessors, operand fetch,
//! stack operations, and the fetch-decode-execute step.
//!
//! The engine runs synchronously: a step either completes or stops the run
//! with a fatal error.  Any observer that wants to inspect state between
//! steps does so from outside, between calls.

use vstd::prelude::*;

use crate::errors::MachineError;
use crate::errors::MemoryOp;
use crate::instructions::extended_handler;
use crate::instructions::primary_handler;
use crate::instructions::Handler;
use crate::instructions::Instruction;
use crate::flags::c_of;
use crate::flags::h_of;
use crate::flags::lemma_flag_bits;
use crate::flags::lemma_flag_update;
use crate::flags::low_of;
use crate::flags::n_of;
use crate::flags::z_of;
use crate::memory::mem_updated;
use crate::memory::mem_updated_word;
use crate::memory::readable;
use crate::memory::wrap_inc;
use crate::memory::writable;
use crate::memory::Memory;
use crate::registers::Registers;

verus! {

/// The processor of the machine.
#[derive(Clone, Debug)]
pub struct Cpu {
    /// The program counter.
    pub pc: u16,
    /// The stack pointer.
    pub sp: u16,
    /// The 8-bit registers.
    pub regs: Registers,
    /// The interrupt master enable flag.
    pub ime: bool,
    /// The halt flag.
    pub halt: bool,
    /// The memory.
    pub mem: Memory,
    /// The number of cycles that have elapsed.
    pub cycles: u32,
}

/// The same processor with another program counter.
pub open spec fn with_pc(c: Cpu, pc: u16) -> Cpu {
    Cpu { pc, ..c }
}

/// The same processor with another register file.
pub open spec fn with_regs(c: Cpu, regs: Registers) -> Cpu {
    Cpu { regs, ..c }
}

/// True when the byte operand at the program counter can be fetched.
pub open spec fn operand_ok(pre: Cpu) -> bool {
    readable(pre.pc)
}

/// The byte operand at the program counter.
pub open spec fn operand(pre: Cpu) -> u8 {
    pre.mem.spec_read(pre.pc)
}

/// The processor after consuming one operand byte.
pub open spec fn after_operand(pre: Cpu) -> Cpu {
    with_pc(pre, wrap_inc(pre.pc))
}

/// True when the word operand at the program counter can be fetched.
pub open spec fn operand2_ok(pre: Cpu) -> bool {
    readable(pre.pc) && readable(wrap_inc(pre.pc))
}

/// The little-endian word operand at the program counter.
pub open spec fn operand_word(pre: Cpu) -> int {
    pre.mem.spec_read_word(pre.pc)
}

/// The processor after consuming a word operand.
pub open spec fn after_operand2(pre: Cpu) -> Cpu {
    with_pc(pre, wrap_inc(wrap_inc(pre.pc)))
}

/// The error of a failed operand-byte fetch.
pub open spec fn fetch_err(pre: Cpu) -> MachineError {
    MachineError::IllegalMemoryAccess { address: pre.pc, operation: MemoryOp::Read }
}

/// The error of a failed operand-word fetch: the first unreadable address.
pub open spec fn fetch2_err(pre: Cpu) -> MachineError {
    MachineError::IllegalMemoryAccess {
        address: if !readable(pre.pc) {
            pre.pc
        } else {
            wrap_inc(pre.pc)
        },
        operation: MemoryOp::Read,
    }
}

/// The error of an illegal read at an address.
pub open spec fn read_err(addr: u16) -> MachineError {
    MachineError::IllegalMemoryAccess { address: addr, operation: MemoryOp::Read }
}

/// The error of an illegal write at an address.
pub open spec fn write_err(addr: u16) -> MachineError {
    MachineError::IllegalMemoryAccess { address: addr, operation: MemoryOp::Write }
}

/// A stack pointer decremented by two, wrapping around the bottom of the
/// address space.
pub open spec fn wrap_dec2(a: u16) -> u16 {
    if a >= 2 {
        (a - 2) as u16
    } else {
        (a + 0x10000 - 2) as u16
    }
}

/// The little-endian word on top of the stack.
pub open spec fn pop_val(c: Cpu) -> int {
    c.mem.spec_read_word(c.sp)
}

/// True when both bytes on top of the stack can be read.
pub open spec fn pop_ok(c: Cpu) -> bool {
    readable(c.sp) && readable(wrap_inc(c.sp))
}

/// The error of a failed pop: the first unreadable stack address.
pub open spec fn pop_err(c: Cpu) -> MachineError {
    MachineError::IllegalMemoryAccess {
        address: if !readable(c.sp) {
            c.sp
        } else {
            wrap_inc(c.sp)
        },
        operation: MemoryOp::Read,
    }
}

/// Relates a processor to the same processor after a successful push of
/// `value`: the stack pointer has moved down by two, the word sits at the
/// new stack top, and nothing else has changed.
pub open spec fn push_post(c0: Cpu, c1: Cpu, value: u16) -> bool {
    &&& c1.sp == wrap_dec2(c0.sp)
    &&& mem_updated_word(c0.mem, c1.mem, c1.sp, value)
    &&& c1 == (Cpu { sp: c1.sp, mem: c1.mem, ..c0 })
}

/// Relates a processor to the same processor after a failed push of
/// `value`: the stack pointer has still moved down by two (the failure is
/// detected by the word write), and the error names the first unwritable
/// address; a failure on the second byte leaves the first already written.
pub open spec fn push_fail(c0: Cpu, c1: Cpu, value: u16, e: MachineError) -> bool {
    let nsp = wrap_dec2(c0.sp);
    &&& !(writable(nsp) && writable(wrap_inc(nsp)))
    &&& c1.sp == nsp
    &&& (if !writable(nsp) {
        c1.mem == c0.mem && e == (MachineError::IllegalMemoryAccess {
            address: nsp,
            operation: MemoryOp::Write,
        })
    } else {
        mem_updated(c0.mem, c1.mem, nsp, (value as int % 256) as u8) && e
            == (MachineError::IllegalMemoryAccess {
            address: wrap_inc(nsp),
            operation: MemoryOp::Write,
        })
    })
    &&& c1 == (Cpu { sp: c1.sp, mem: c1.mem, ..c0 })
}

/// Pushing a word and then popping returns the word, and the stack pointer
/// comes back to its value from before the push.
pub proof fn lemma_stack_symmetry(c0: Cpu, c1: Cpu, value: u16)
    requires
        push_post(c0, c1, value),
    ensures
        pop_val(c1) == value,
        wrap_inc(wrap_inc(c1.sp)) == c0.sp,
{
    assert(value as int % 256 + 256 * (value as int / 256) == value) by (nonlinear_arith);
}


/// The exact effect of one execution handler: how the processor after the
/// handler relates to the processor before it, and with which result the
/// handler returns.  A handler that cannot fail is required to return
/// success.
pub open spec fn cpu_transition(h: Handler, pre: Cpu, post: Cpu, r: Result<(), MachineError>) -> bool {
    match h {
        Handler::Op00 => r is Ok && crate::instructions::op_00_post(pre, post),
        Handler::Op04 => r is Ok && crate::instructions::alu8::op_04_post(pre, post),
        Handler::Op05 => r is Ok && crate::instructions::alu8::op_05_post(pre, post),
        Handler::Op0c => r is Ok && crate::instructions::alu8::op_0c_post(pre, post),
        Handler::Op0d => r is Ok && crate::instructions::alu8::op_0d_post(pre, post),
        Handler::Op13 => r is Ok && crate::instructions::alu16::op_13_post(pre, post),
        Handler::Op15 => r is Ok && crate::instructions::alu8::op_15_post(pre, post),
        Handler::Op19 => r is Ok && crate::instructions::alu16::op_19_post(pre, post),
        Handler::Op1c => r is Ok && crate::instructions::alu8::op_1c_post(pre, post),
        Handler::Op1d => r is Ok && crate::instructions::alu8::op_1d_post(pre, post),
        Handler::Op23 => r is Ok && crate::instructions::alu16::op_23_post(pre, post),
        Handler::Op24 => r is Ok && crate::instructions::alu8::op_24_post(pre, post),
        Handler::Op3c => r is Ok && crate::instructions::alu8::op_3c_post(pre, post),
        Handler::Op3d => r is Ok && crate::instructions::alu8::op_3d_post(pre, post),
        Handler::Op86 => crate::instructions::alu8::op_86_post(pre, post, r),
        Handler::Op90 => r is Ok && crate::instructions::alu8::op_90_post(pre, post),
        Handler::Op9f => r is Ok && crate::instructions::alu8::op_9f_post(pre, post),
        Handler::OpAf => r is Ok && crate::instructions::alu8::op_af_post(pre, post),
        Handler::OpBe => crate::instructions::alu8::op_be_post(pre, post, r),
        Handler::OpFe => crate::instructions::alu8::op_fe_post(pre, post, r),
        Handler::Op0e => crate::instructions::lsm8::op_0e_post(pre, post, r),
        Handler::Op06 => crate::instructions::lsm8::op_06_post(pre, post, r),
        Handler::Op11 => crate::instructions::lsm16::op_11_post(pre, post, r),
        Handler::Op16 => crate::instructions::lsm8::op_16_post(pre, post, r),
        Handler::Op1a => crate::instructions::lsm8::op_1a_post(pre, post, r),
        Handler::Op1e => crate::instructions::lsm8::op_1e_post(pre, post, r),
        Handler::Op21 => crate::instructions::lsm16::op_21_post(pre, post, r),
        Handler::Op22 => crate::instructions::lsm8::op_22_post(pre, post, r),
        Handler::Op2e => crate::instructions::lsm8::op_2e_post(pre, post, r),
        Handler::Op31 => crate::instructions::lsm16::op_31_post(pre, post, r),
        Handler::Op32 => crate::instructions::lsm8::op_32_post(pre, post, r),
        Handler::Op3e => crate::instructions::lsm8::op_3e_post(pre, post, r),
        Handler::Op4f => r is Ok && crate::instructions::lsm8::op_4f_post(pre, post),
        Handler::Op57 => r is Ok && crate::instructions::lsm8::op_57_post(pre, post),
        Handler::Op67 => r is Ok && crate::instructions::lsm8::op_67_post(pre, post),
        Handler::Op77 => crate::instructions::lsm8::op_77_post(pre, post, r),
        Handler::Op78 => r is Ok && crate::instructions::lsm8::op_78_post(pre, post),
        Handler::Op7b => r is Ok && crate::instructions::lsm8::op_7b_post(pre, post),
        Handler::Op7c => r is Ok && crate::instructions::lsm8::op_7c_post(pre, post),
        Handler::Op7d => r is Ok && crate::instructions::lsm8::op_7d_post(pre, post),
        Handler::OpC1 => crate::instructions::lsm16::op_c1_post(pre, post, r),
        Handler::OpC5 => crate::instructions::lsm16::op_c5_post(pre, post, r),
        Handler::OpE0 => crate::instructions::lsm8::op_e0_post(pre, post, r),
        Handler::OpE2 => crate::instructions::lsm8::op_e2_post(pre, post, r),
        Handler::OpEa => crate::instructions::lsm8::op_ea_post(pre, post, r),
        Handler::OpF0 => crate::instructions::lsm8::op_f0_post(pre, post, r),
        Handler::Op18 => crate::instructions::branch::op_18_post(pre, post, r),
        Handler::Op20 => crate::instructions::branch::op_20_post(pre, post, r),
        Handler::Op28 => crate::instructions::branch::op_28_post(pre, post, r),
        Handler::OpC9 => crate::instructions::branch::op_c9_post(pre, post, r),
        Handler::OpCd => crate::instructions::branch::op_cd_post(pre, post, r),
        Handler::Op17 => r is Ok && crate::instructions::rotate::op_17_post(pre, post),
        Handler::OpCb11 => r is Ok && crate::instructions::rotate::op_cb11_post(pre, post),
        Handler::OpCb7c => r is Ok && crate::instructions::rotate::op_cb7c_post(pre, post),
    }
}

/// What a decode leaves behind: for an implemented primary opcode, an
/// instruction carrying the opcode, its fetch address and its handler; for
/// the escape opcode, one further byte is consumed and looked up in the
/// extended table; an opcode absent from the active table is an
/// `UnimplementedOpcode` error, never a silent substitute.
pub open spec fn decode_post(
    pre: Cpu,
    post: Cpu,
    opcode: u8,
    prev_pc: u16,
    r: Result<Instruction, MachineError>,
) -> bool {
    if opcode != 0xcb {
        match primary_handler(opcode) {
            Some(h) => post == pre && (match r {
                Ok(i) => i.execute == h && i.addr == prev_pc && i.opcode == opcode
                    && !i.is_prefixed,
                Err(_) => false,
            }),
            None => post == pre && r == Err::<Instruction, MachineError>(
                MachineError::UnimplementedOpcode { opcode, is_extended: false },
            ),
        }
    } else if !operand_ok(pre) {
        post == pre && r == Err::<Instruction, MachineError>(fetch_err(pre))
    } else {
        let b = operand(pre);
        match extended_handler(b) {
            Some(h) => post == after_operand(pre) && (match r {
                Ok(i) => i.execute == h && i.addr == prev_pc && i.opcode == b && i.is_prefixed,
                Err(_) => false,
            }),
            None => post == after_operand(pre) && r == Err::<Instruction, MachineError>(
                MachineError::UnimplementedOpcode { opcode: b, is_extended: true },
            ),
        }
    }
}

/// The exact effect of one fetch-decode-execute step: the opcode is
/// fetched at the program counter, decoded (consuming one further byte for
/// the escape opcode), and its handler is run; the returned instruction
/// record carries the fetch address.  Every failure of the chain is listed
/// with the state it leaves behind.
pub open spec fn step_post(pre: Cpu, post: Cpu, r: Result<Instruction, MachineError>) -> bool {
    if !operand_ok(pre) {
        post == pre && r == Err::<Instruction, MachineError>(fetch_err(pre))
    } else {
        let op = operand(pre);
        let c1 = after_operand(pre);
        if op != 0xcb {
            match primary_handler(op) {
                None => post == c1 && r == Err::<Instruction, MachineError>(
                    MachineError::UnimplementedOpcode { opcode: op, is_extended: false },
                ),
                Some(h) => match r {
                    Ok(i) => i.addr == pre.pc && i.opcode == op && !i.is_prefixed && i.execute
                        == h && cpu_transition(h, c1, post, Ok(())),
                    Err(e) => cpu_transition(h, c1, post, Err(e)),
                },
            }
        } else if !operand_ok(c1) {
            post == c1 && r == Err::<Instruction, MachineError>(fetch_err(c1))
        } else {
            let b = operand(c1);
            let c2 = after_operand(c1);
            match extended_handler(b) {
                None => post == c2 && r == Err::<Instruction, MachineError>(
                    MachineError::UnimplementedOpcode { opcode: b, is_extended: true },
                ),
                Some(h) => match r {
                    Ok(i) => i.addr == pre.pc && i.opcode == b && i.is_prefixed && i.execute == h
                        && cpu_transition(h, c2, post, Ok(())),
                    Err(e) => cpu_transition(h, c2, post, Err(e)),
                },
            }
        }
    }
}

impl Cpu {
    /// The processor is well formed when its memory is.
    pub open spec fn wf(self) -> bool {
        self.mem.wf()
    }

    /// Creates a processor over the given memory, with every register, the
    /// program counter and the stack pointer zeroed.
    pub fn new(mem: Memory) -> (r: Cpu)
        ensures
            r == (Cpu {
                pc: 0,
                sp: 0,
                regs: Registers { a: 0, f: 0, b: 0, c: 0, d: 0, e: 0, h: 0, l: 0 },
                ime: false,
                halt: false,
                mem: r.mem,
                cycles: 0,
            }),
            r.mem == mem,
    {
        Cpu {
            pc: 0,
            sp: 0,
            regs: Registers { a: 0, f: 0, b: 0, c: 0, d: 0, e: 0, h: 0, l: 0 },
            mem,
            cycles: 0,
            ime: false,
            halt: false,
        }
    }

    /// Returns the value of the `Z` flag as a bit.
    pub fn get_flag_z(&self) -> (r: u8)
        ensures
            r == (if z_of(self.regs.f) {
                1u8
            } else {
                0u8
            }),
    {
        proof {
            lemma_flag_bits(self.regs.f);
        }
        (self.regs.f & 0b1000_0000) >> 7
    }

    /// Returns the value of the `N` flag as a bit.
    pub fn get_flag_n(&self) -> (r: u8)
        ensures
            r == (if n_of(self.regs.f) {
                1u8
            } else {
                0u8
            }),
    {
        proof {
            lemma_flag_bits(self.regs.f);
        }
        (self.regs.f & 0b0100_0000) >> 6
    }

    /// Returns the value of the `H` flag as a bit.
    pub fn get_flag_h(&self) -> (r: u8)
        ensures
            r == (if h_of(self.regs.f) {
                1u8
            } else {
                0u8
            }),
    {
        proof {
            lemma_flag_bits(self.regs.f);
        }
        (self.regs.f & 0b0010_0000) >> 5
    }

    /// Returns the value of the `C` flag as a bit.
    pub fn get_flag_c(&self) -> (r: u8)
        ensures
            r == (if c_of(self.regs.f) {
                1u8
            } else {
                0u8
            }),
    {
        proof {
            lemma_flag_bits(self.regs.f);
        }
        (self.regs.f & 0b0001_0000) >> 4
    }

    /// Sets the `Z` flag; the other flag bits, the lower nibble of `f`,
    /// and everything else are untouched.
    pub fn set_flag_z(&mut self, value: bool)
        ensures
            z_of(final(self).regs.f) == value,
            n_of(final(self).regs.f) == n_of(old(self).regs.f),
            h_of(final(self).regs.f) == h_of(old(self).regs.f),
            c_of(final(self).regs.f) == c_of(old(self).regs.f),
            low_of(final(self).regs.f) == low_of(old(self).regs.f),
            final(self).regs == (Registers { f: final(self).regs.f, ..old(self).regs }),
            *final(self) == with_regs(*old(self), final(self).regs),
    {
        proof {
            lemma_flag_update(self.regs.f);
        }
        if value {
            self.regs.f |= 0b1000_0000;
        } else {
            self.regs.f &= 0b0111_1111;
        }
    }

    /// Sets the `N` flag; the other flag bits, the lower nibble of `f`,
    /// and everything else are untouched.
    pub fn set_flag_n(&mut self, value: bool)
        ensures
            n_of(final(self).regs.f) == value,
            z_of(final(self).regs.f) == z_of(old(self).regs.f),
            h_of(final(self).regs.f) == h_of(old(self).regs.f),
            c_of(final(self).regs.f) == c_of(old(self).regs.f),
            low_of(final(self).regs.f) == low_of(old(self).regs.f),
            final(self).regs == (Registers { f: final(self).regs.f, ..old(self).regs }),
            *final(self) == with_regs(*old(self), final(self).regs),
    {
        proof {
            lemma_flag_update(self.regs.f);
        }
        if value {
            self.regs.f |= 0b0100_0000;
        } else {
            self.regs.f &= 0b1011_1111;
        }
    }

    /// Sets the `H` flag; the other flag bits, the lower nibble of `f`,
    /// and everything else are untouched.
    pub fn set_flag_h(&mut self, value: bool)
        ensures
            h_of(final(self).regs.f) == value,
            z_of(final(self).regs.f) == z_of(old(self).regs.f),
            n_of(final(self).regs.f) == n_of(old(self).regs.f),
            c_of(final(self).regs.f) == c_of(old(self).regs.f),
            low_of(final(self).regs.f) == low_of(old(self).regs.f),
            final(self).regs == (Registers { f: final(self).regs.f, ..old(self).regs }),
            *final(self) == with_regs(*old(self), final(self).regs),
    {
        proof {
            lemma_flag_update(self.regs.f);
        }
        if value {
            self.regs.f |= 0b0010_0000;
        } else {
            self.regs.f &= 0b1101_1111;
        }
    }

    /// Sets the `C` flag; the other flag bits, the lower nibble of `f`,
    /// and everything else are untouched.
    pub fn set_flag_c(&mut self, value: bool)
        ensures
            c_of(final(self).regs.f) == value,
            z_of(final(self).regs.f) == z_of(old(self).regs.f),
            n_of(final(self).regs.f) == n_of(old(self).regs.f),
            h_of(final(self).regs.f) == h_of(old(self).regs.f),
            low_of(final(self).regs.f) == low_of(old(self).regs.f),
            final(self).regs == (Registers { f: final(self).regs.f, ..old(self).regs }),
            *final(self) == with_regs(*old(self), final(self).regs),
    {
        proof {
            lemma_flag_update(self.regs.f);
        }
        if value {
            self.regs.f |= 0b0001_0000;
        } else {
            self.regs.f &= 0b1110_1111;
        }
    }

    /// Returns the byte at the program counter and advances the counter by
    /// one (wrapping).  Fails, leaving everything unchanged, exactly when
    /// the counter points into the unused region.
    pub fn next_byte(&mut self) -> (r: Result<u8, MachineError>)
        requires
            old(self).wf(),
        ensures
            final(self).wf(),
            match r {
                Ok(b) => readable(old(self).pc) && b == old(self).mem.spec_read(old(self).pc)
                    && *final(self) == with_pc(*old(self), wrap_inc(old(self).pc)),
                Err(e) => !readable(old(self).pc) && *final(self) == *old(self) && e
                    == (MachineError::IllegalMemoryAccess {
                    address: old(self).pc,
                    operation: MemoryOp::Read,
                }),
            },
    {
        match self.mem.read_byte(self.pc) {
            Ok(byte) => {
                self.pc = self.pc.wrapping_add(1);
                Ok(byte)
            },
            Err(e) => Err(e),
        }
    }

    /// Returns the little-endian word at the program counter and advances
    /// the counter by two (wrapping).  Fails, leaving everything unchanged,
    /// on the first of the two addresses that lies in the unused region.
    pub fn next_word(&mut self) -> (r: Result<u16, MachineError>)
        requires
            old(self).wf(),
        ensures
            final(self).wf(),
            match r {
                Ok(w) => readable(old(self).pc) && readable(wrap_inc(old(self).pc)) && w == old(
                    self,
                ).mem.spec_read_word(old(self).pc) && *final(self) == with_pc(
                    *old(self),
                    wrap_inc(wrap_inc(old(self).pc)),
                ),
                Err(e) => !(readable(old(self).pc) && readable(wrap_inc(old(self).pc)))
                    && *final(self) == *old(self) && e == (MachineError::IllegalMemoryAccess {
                    address: (if !readable(old(self).pc) {
                        old(self).pc
                    } else {
                        wrap_inc(old(self).pc)
                    }),
                    operation: MemoryOp::Read,
                }),
            },
    {
        match self.mem.read_word(self.pc) {
            Ok(word) => {
                self.pc = self.pc.wrapping_add(2);
                Ok(word)
            },
            Err(e) => Err(e),
        }
    }

    /// Pushes a word onto the stack: the stack pointer moves down by two,
    /// then the word is written at the new stack top (so the pointer ends
    /// at the pushed word's low byte).  Fails on the first unwritable byte,
    /// with the pointer already moved.
    pub fn push_stack(&mut self, value: u16) -> (r: Result<(), MachineError>)
        requires
            old(self).wf(),
        ensures
            final(self).wf(),
            match r {
                Ok(_) => writable(wrap_dec2(old(self).sp)) && writable(
                    wrap_inc(wrap_dec2(old(self).sp)),
                ) && push_post(*old(self), *final(self), value),
                Err(e) => push_fail(*old(self), *final(self), value, e),
            },
    {
        self.sp = self.sp.wrapping_sub(2);
        let sp = self.sp;
        match self.mem.write_word(sp, value) {
            Ok(_) => Ok(()),
            Err(e) => Err(e),
        }
    }

    /// Pops a word off the stack: the word at the stack pointer is read,
    /// then the pointer moves up by two.  Fails, leaving everything
    /// unchanged, on the first of the two addresses that lies in the
    /// unused region.
    pub fn pop_stack(&mut self) -> (r: Result<u16, MachineError>)
        requires
            old(self).wf(),
        ensures
            final(self).wf(),
            match r {
                Ok(w) => readable(old(self).sp) && readable(wrap_inc(old(self).sp)) && w == pop_val(
                    *old(self),
                ) && *final(self) == (Cpu {
                    sp: wrap_inc(wrap_inc(old(self).sp)),
                    ..*old(self)
                }),
                Err(e) => !(readable(old(self).sp) && readable(wrap_inc(old(self).sp)))
                    && *final(self) == *old(self) && e == (MachineError::IllegalMemoryAccess {
                    address: (if !readable(old(self).sp) {
                        old(self).sp
                    } else {
                        wrap_inc(old(self).sp)
                    }),
                    operation: MemoryOp::Read,
                }),
            },
    {
        match self.mem.read_word(self.sp) {
            Ok(word) => {
                self.sp = self.sp.wrapping_add(2);
                Ok(word)
            },
            Err(e) => Err(e),
        }
    }

    /// Decodes an opcode into an instruction.  The escape opcode consumes
    /// one further byte through the program counter; every opcode absent
    /// from the active table is a fatal decode error.
    pub fn decode(&mut self, opcode: u8, prev_pc: Option<u16>) -> (r: Result<
        Instruction,
        MachineError,
    >)
        requires
            old(self).wf(),
            prev_pc is Some,
        ensures
            final(self).wf(),
            decode_post(*old(self), *final(self), opcode, prev_pc.unwrap(), r),
    {
        match opcode {
            0x00 => Ok(Instruction::normal(Handler::Op00, prev_pc.unwrap(), opcode, "NOP")),
            0x04 => Ok(Instruction::normal(Handler::Op04, prev_pc.unwrap(), opcode, "INC B")),
            0x05 => Ok(Instruction::normal(Handler::Op05, prev_pc.unwrap(), opcode, "DEC B")),
            0x06 => Ok(Instruction::normal(Handler::Op06, prev_pc.unwrap(), opcode, "LD B, u8")),
            0x0c => Ok(Instruction::normal(Handler::Op0c, prev_pc.unwrap(), opcode, "INC C")),
            0x0d => Ok(Instruction::normal(Handler::Op0d, prev_pc.unwrap(), opcode, "DEC C")),
            0x0e => Ok(Instruction::normal(Handler::Op0e, prev_pc.unwrap(), opcode, "LD C, u8")),
            0x11 => Ok(Instruction::normal(Handler::Op11, prev_pc.unwrap(), opcode, "LD DE, u16")),
            0x13 => Ok(Instruction::normal(Handler::Op13, prev_pc.unwrap(), opcode, "INC DE")),
            0x15 => Ok(Instruction::normal(Handler::Op15, prev_pc.unwrap(), opcode, "DEC D")),
            0x16 => Ok(Instruction::normal(Handler::Op16, prev_pc.unwrap(), opcode, "LD D, u8")),
            0x17 => Ok(Instruction::normal(Handler::Op17, prev_pc.unwrap(), opcode, "RLA")),
            0x18 => Ok(Instruction::normal(Handler::Op18, prev_pc.unwrap(), opcode, "JR i8")),
            0x19 => Ok(Instruction::normal(Handler::Op19, prev_pc.unwrap(), opcode, "ADD HL, DE")),
            0x1a => Ok(Instruction::normal(Handler::Op1a, prev_pc.unwrap(), opcode, "LD A, (DE)")),
            0x1c => Ok(Instruction::normal(Handler::Op1c, prev_pc.unwrap(), opcode, "INC E")),
            0x1d => Ok(Instruction::normal(Handler::Op1d, prev_pc.unwrap(), opcode, "DEC E")),
            0x1e => Ok(Instruction::normal(Handler::Op1e, prev_pc.unwrap(), opcode, "LD E, u8")),
            0x20 => Ok(Instruction::normal(Handler::Op20, prev_pc.unwrap(), opcode, "JR NZ, i8")),
            0x21 => Ok(Instruction::normal(Handler::Op21, prev_pc.unwrap(), opcode, "LD HL, u16")),
            0x22 => Ok(Instruction::normal(Handler::Op22, prev_pc.unwrap(), opcode, "LD (HL+), A")),
            0x23 => Ok(Instruction::normal(Handler::Op23, prev_pc.unwrap(), opcode, "INC HL")),
            0x24 => Ok(Instruction::normal(Handler::Op24, prev_pc.unwrap(), opcode, "INC H")),
            0x28 => Ok(Instruction::normal(Handler::Op28, prev_pc.unwrap(), opcode, "JR Z, i8")),
            0x2e => Ok(Instruction::normal(Handler::Op2e, prev_pc.unwrap(), opcode, "LD L, u8")),
            0x31 => Ok(Instruction::normal(Handler::Op31, prev_pc.unwrap(), opcode, "LD SP, u16")),
            0x32 => Ok(Instruction::normal(Handler::Op32, prev_pc.unwrap(), opcode, "LD (HL-), A")),
            0x3c => Ok(Instruction::normal(Handler::Op3c, prev_pc.unwrap(), opcode, "INC A")),
            0x3d => Ok(Instruction::normal(Handler::Op3d, prev_pc.unwrap(), opcode, "DEC A")),
            0x3e => Ok(Instruction::normal(Handler::Op3e, prev_pc.unwrap(), opcode, "LD A, u8")),
            0x4f => Ok(Instruction::normal(Handler::Op4f, prev_pc.unwrap(), opcode, "LD C, A")),
            0x57 => Ok(Instruction::normal(Handler::Op57, prev_pc.unwrap(), opcode, "LD D, A")),
            0x67 => Ok(Instruction::normal(Handler::Op67, prev_pc.unwrap(), opcode, "LD H, A")),
            0x77 => Ok(Instruction::normal(Handler::Op77, prev_pc.unwrap(), opcode, "LD (HL), A")),
            0x78 => Ok(Instruction::normal(Handler::Op78, prev_pc.unwrap(), opcode, "LD A, B")),
            0x7b => Ok(Instruction::normal(Handler::Op7b, prev_pc.unwrap(), opcode, "LD A, E")),
            0x7c => Ok(Instruction::normal(Handler::Op7c, prev_pc.unwrap(), opcode, "LD A, H")),
            0x7d => Ok(Instruction::normal(Handler::Op7d, prev_pc.unwrap(), opcode, "LD A, L")),
            0x86 => Ok(Instruction::normal(Handler::Op86, prev_pc.unwrap(), opcode, "ADD A, (HL)")),
            0x90 => Ok(Instruction::normal(Handler::Op90, prev_pc.unwrap(), opcode, "SUB A, B")),
            0x9f => Ok(Instruction::normal(Handler::Op9f, prev_pc.unwrap(), opcode, "SBC A, A")),
            0xaf => Ok(Instruction::normal(Handler::OpAf, prev_pc.unwrap(), opcode, "XOR A, A")),
            0xbe => Ok(Instruction::normal(Handler::OpBe, prev_pc.unwrap(), opcode, "CP A, (HL)")),
            0xc1 => Ok(Instruction::normal(Handler::OpC1, prev_pc.unwrap(), opcode, "POP BC")),
            0xc5 => Ok(Instruction::normal(Handler::OpC5, prev_pc.unwrap(), opcode, "PUSH BC")),
            0xc9 => Ok(Instruction::normal(Handler::OpC9, prev_pc.unwrap(), opcode, "RET")),
            0xcd => Ok(Instruction::normal(Handler::OpCd, prev_pc.unwrap(), opcode, "CALL u16")),
            0xe0 => Ok(Instruction::normal(Handler::OpE0, prev_pc.unwrap(), opcode, "LD (FF00 + u8), A")),
            0xe2 => Ok(Instruction::normal(Handler::OpE2, prev_pc.unwrap(), opcode, "LD (FF00 + C), A")),
            0xea => Ok(Instruction::normal(Handler::OpEa, prev_pc.unwrap(), opcode, "LD (u16), A")),
            0xf0 => Ok(Instruction::normal(Handler::OpF0, prev_pc.unwrap(), opcode, "LD A, (FF00 + u8)")),
            0xfe => Ok(Instruction::normal(Handler::OpFe, prev_pc.unwrap(), opcode, "CP A, u8")),
            0xcb => {
                let opcode = match self.next_byte() {
                    Ok(b) => b,
                    Err(e) => {
                        return Err(e);
                    },
                };
                match opcode {
                    0x11 => Ok(Instruction::prefixed(Handler::OpCb11, prev_pc.unwrap(), opcode, "RL C")),
                    0x7c => Ok(Instruction::prefixed(Handler::OpCb7c, prev_pc.unwrap(), opcode, "BIT 7, H")),
                    _ => Err(MachineError::UnimplementedOpcode { opcode, is_extended: true }),
                }
            },
            _ => Err(MachineError::UnimplementedOpcode { opcode, is_extended: false }),
        }
    }

    /// Executes an instruction by dispatching on its handler identity; the
    /// match is exhaustive over the whole table.
    pub fn execute(&mut self, instr: Instruction) -> (r: Result<(), MachineError>)
        requires
            old(self).wf(),
        ensures
            final(self).wf(),
            cpu_transition(instr.execute, *old(self), *final(self), r),
    {
        match instr.execute {
            Handler::Op00 => {
                crate::instructions::op_00(self);
                Ok(())
            },
            Handler::Op04 => {
                crate::instructions::alu8::op_04(self);
                Ok(())
            },
            Handler::Op05 => {
                crate::instructions::alu8::op_05(self);
                Ok(())
            },
            Handler::Op0c => {
                crate::instructions::alu8::op_0c(self);
                Ok(())
            },
            Handler::Op0d => {
                crate::instructions::alu8::op_0d(self);
                Ok(())
            },
            Handler::Op13 => {
                crate::instructions::alu16::op_13(self);
                Ok(())
            },
            Handler::Op15 => {
                crate::instructions::alu8::op_15(self);
                Ok(())
            },
            Handler::Op19 => {
                crate::instructions::alu16::op_19(self);
                Ok(())
            },
            Handler::Op1c => {
                crate::instructions::alu8::op_1c(self);
                Ok(())
            },
            Handler::Op1d => {
                crate::instructions::alu8::op_1d(self);
                Ok(())
            },
            Handler::Op23 => {
                crate::instructions::alu16::op_23(self);
                Ok(())
            },
            Handler::Op24 => {
                crate::instructions::alu8::op_24(self);
                Ok(())
            },
            Handler::Op3c => {
                crate::instructions::alu8::op_3c(self);
                Ok(())
            },
            Handler::Op3d => {
                crate::instructions::alu8::op_3d(self);
                Ok(())
            },
            Handler::Op86 => crate::instructions::alu8::op_86(self),
            Handler::Op90 => {
                crate::instructions::alu8::op_90(self);
                Ok(())
            },
            Handler::Op9f => {
                crate::instructions::alu8::op_9f(self);
                Ok(())
            },
            Handler::OpAf => {
                crate::instructions::alu8::op_af(self);
                Ok(())
            },
            Handler::OpBe => crate::instructions::alu8::op_be(self),
            Handler::OpFe => crate::instructions::alu8::op_fe(self),
            Handler::Op0e => crate::instructions::lsm8::op_0e(self),
            Handler::Op06 => crate::instructions::lsm8::op_06(self),
            Handler::Op11 => crate::instructions::lsm16::op_11(self),
            Handler::Op16 => crate::instructions::lsm8::op_16(self),
            Handler::Op1a => crate::instructions::lsm8::op_1a(self),
            Handler::Op1e => crate::instructions::lsm8::op_1e(self),
            Handler::Op21 => crate::instructions::lsm16::op_21(self),
            Handler::Op22 => crate::instructions::lsm8::op_22(self),
            Handler::Op2e => crate::instructions::lsm8::op_2e(self),
            Handler::Op31 => crate::instructions::lsm16::op_31(self),
            Handler::Op32 => crate::instructions::lsm8::op_32(self),
            Handler::Op3e => crate::instructions::lsm8::op_3e(self),
            Handler::Op4f => {
                crate::instructions::lsm8::op_4f(self);
                Ok(())
            },
            Handler::Op57 => {
                crate::instructions::lsm8::op_57(self);
                Ok(())
            },
            Handler::Op67 => {
                crate::instructions::lsm8::op_67(self);
                Ok(())
            },
            Handler::Op77 => crate::instructions::lsm8::op_77(self),
            Handler::Op78 => {
                crate::instructions::lsm8::op_78(self);
                Ok(())
            },
            Handler::Op7b => {
                crate::instructions::lsm8::op_7b(self);
                Ok(())
            },
            Handler::Op7c => {
                crate::instructions::lsm8::op_7c(self);
                Ok(())
            },
            Handler::Op7d => {
                crate::instructions::lsm8::op_7d(self);
                Ok(())
            },
            Handler::OpC1 => crate::instructions::lsm16::op_c1(self),
            Handler::OpC5 => crate::instructions::lsm16::op_c5(self),
            Handler::OpE0 => crate::instructions::lsm8::op_e0(self),
            Handler::OpE2 => crate::instructions::lsm8::op_e2(self),
            Handler::OpEa => crate::instructions::lsm8::op_ea(self),
            Handler::OpF0 => crate::instructions::lsm8::op_f0(self),
            Handler::Op18 => crate::instructions::branch::op_18(self),
            Handler::Op20 => crate::instructions::branch::op_20(self),
            Handler::Op28 => crate::instructions::branch::op_28(self),
            Handler::OpC9 => crate::instructions::branch::op_c9(self),
            Handler::OpCd => crate::instructions::branch::op_cd(self),
            Handler::Op17 => {
                crate::instructions::rotate::op_17(self);
                Ok(())
            },
            Handler::OpCb11 => {
                crate::instructions::rotate::op_cb11(self);
                Ok(())
            },
            Handler::OpCb7c => {
                crate::instructions::rotate::op_cb7c(self);
                Ok(())
            },
        }
    }

    /// Performs one fetch-decode-execute step and returns the decoded
    /// instruction record, so that an outer loop can trace it.
    pub fn step(&mut self) -> (r: Result<Instruction, MachineError>)
        requires
            old(self).wf(),
        ensures
            final(self).wf(),
            step_post(*old(self), *final(self), r),
    {
        let prev_pc = self.pc;
        let opcode = match self.next_byte() {
            Ok(b) => b,
            Err(e) => {
                return Err(e);
            },
        };
        let instr = match self.decode(opcode, Some(prev_pc)) {
            Ok(i) => i,
            Err(e) => {
                return Err(e);
            },
        };
        match self.execute(instr) {
            Ok(_) => Ok(instr),
            Err(e) => Err(e),
        }
    }

    /// Steps the processor up to `steps` times, stopping early with the
    /// fatal condition of the first step that fails.  The unbounded outer
    /// run loop, which decides when and how often to step, lives with the
    /// surrounding program, not in the engine.
    pub fn run(&mut self, steps: u64) -> (r: Result<(), MachineError>)
        requires
            old(self).wf(),
        ensures
            final(self).wf(),
    {
        let mut i: u64 = 0;
        while i < steps
            invariant
                self.wf(),
            decreases steps - i,
        {
            match self.step() {
                Ok(_) => {},
                Err(e) => {
                    return Err(e);
                },
            }
            i = i + 1;
        }
        Ok(())
    }
}

} // verus!
