//! Control-flow instructions: relative jumps, call and return.

use vstd::prelude::*;

use crate::alu::wrap16;
use crate::bits::lemma_signed_byte;
use crate::cpu::after_operand;
use crate::cpu::after_operand2;
use crate::cpu::fetch2_err;
use crate::cpu::fetch_err;
use crate::cpu::operand;
use crate::cpu::operand2_ok;
use crate::cpu::operand_ok;
use crate::cpu::operand_word;
use crate::cpu::pop_err;
use crate::cpu::pop_ok;
use crate::cpu::pop_val;
use crate::cpu::push_fail;
use crate::cpu::with_pc;
use crate::cpu::wrap_dec2;
use crate::cpu::Cpu;
use crate::errors::MachineError;
use crate::flags::z_of;
use crate::memory::mem_updated_word;
use crate::memory::wrap_inc;
use crate::memory::writable;

verus! {

/// The destination of a relative jump: the program counter after the
/// operand, moved by the operand read as a signed byte, wrapping.
pub open spec fn jr_target(pc: u16, off: u8) -> u16 {
    if off < 128 {
        wrap16(pc + off) as u16
    } else {
        wrap16(pc + off - 256) as u16
    }
}

/// JR i8: the operand, read as a signed byte, is added to the program
/// counter unconditionally.
pub open spec fn op_18_post(pre: Cpu, post: Cpu, r: Result<(), MachineError>) -> bool {
    match r {
        Ok(_) => operand_ok(pre) && post == with_pc(
            pre,
            jr_target(wrap_inc(pre.pc), operand(pre)),
        ),
        Err(e) => !operand_ok(pre) && post == pre && e == fetch_err(pre),
    }
}

/// JR i8
pub fn op_18(cpu: &mut Cpu) -> (r: Result<(), MachineError>)
    requires
        old(cpu).wf(),
    ensures
        final(cpu).wf(),
        op_18_post(*old(cpu), *final(cpu), r),
{
    let byte = match cpu.next_byte() {
        Ok(b) => b,
        Err(e) => {
            return Err(e);
        },
    };
    proof {
        lemma_signed_byte(byte);
    }
    let offset = byte as i8;
    cpu.pc = cpu.pc.wrapping_add(offset as u16);
    Ok(())
}

/// JR NZ, i8: the jump is taken only while the zero flag is clear; either
/// way the operand byte is consumed.
pub open spec fn op_20_post(pre: Cpu, post: Cpu, r: Result<(), MachineError>) -> bool {
    match r {
        Ok(_) => operand_ok(pre) && post == with_pc(
            pre,
            if !z_of(pre.regs.f) {
                jr_target(wrap_inc(pre.pc), operand(pre))
            } else {
                wrap_inc(pre.pc)
            },
        ),
        Err(e) => !operand_ok(pre) && post == pre && e == fetch_err(pre),
    }
}

/// JR NZ, i8
pub fn op_20(cpu: &mut Cpu) -> (r: Result<(), MachineError>)
    requires
        old(cpu).wf(),
    ensures
        final(cpu).wf(),
        op_20_post(*old(cpu), *final(cpu), r),
{
    let byte = match cpu.next_byte() {
        Ok(b) => b,
        Err(e) => {
            return Err(e);
        },
    };
    proof {
        lemma_signed_byte(byte);
    }
    let offset = byte as i8;
    if cpu.get_flag_z() == 0 {
        cpu.pc = cpu.pc.wrapping_add(offset as u16);
    }
    Ok(())
}

/// JR Z, i8: the jump is taken only while the zero flag is set; either
/// way the operand byte is consumed.
pub open spec fn op_28_post(pre: Cpu, post: Cpu, r: Result<(), MachineError>) -> bool {
    match r {
        Ok(_) => operand_ok(pre) && post == with_pc(
            pre,
            if z_of(pre.regs.f) {
                jr_target(wrap_inc(pre.pc), operand(pre))
            } else {
                wrap_inc(pre.pc)
            },
        ),
        Err(e) => !operand_ok(pre) && post == pre && e == fetch_err(pre),
    }
}

/// JR Z, i8
pub fn op_28(cpu: &mut Cpu) -> (r: Result<(), MachineError>)
    requires
        old(cpu).wf(),
    ensures
        final(cpu).wf(),
        op_28_post(*old(cpu), *final(cpu), r),
{
    let byte = match cpu.next_byte() {
        Ok(b) => b,
        Err(e) => {
            return Err(e);
        },
    };
    proof {
        lemma_signed_byte(byte);
    }
    let offset = byte as i8;
    if cpu.get_flag_z() != 0 {
        cpu.pc = cpu.pc.wrapping_add(offset as u16);
    }
    Ok(())
}

/// RET: a word is popped off the stack into the program counter.
pub open spec fn op_c9_post(pre: Cpu, post: Cpu, r: Result<(), MachineError>) -> bool {
    match r {
        Ok(_) => pop_ok(pre) && post == (Cpu {
            pc: pop_val(pre) as u16,
            sp: wrap_inc(wrap_inc(pre.sp)),
            ..pre
        }),
        Err(e) => !pop_ok(pre) && post == pre && e == pop_err(pre),
    }
}

/// RET
pub fn op_c9(cpu: &mut Cpu) -> (r: Result<(), MachineError>)
    requires
        old(cpu).wf(),
    ensures
        final(cpu).wf(),
        op_c9_post(*old(cpu), *final(cpu), r),
{
    let word = match cpu.pop_stack() {
        Ok(w) => w,
        Err(e) => {
            return Err(e);
        },
    };
    cpu.pc = word;
    Ok(())
}

/// CALL u16: the word operand is fetched, the program counter after the
/// operand is pushed as the return address, and control transfers to the
/// operand.  A failed operand fetch changes nothing; a failed push leaves
/// the operand consumed and the stack pointer already moved.
pub open spec fn op_cd_post(pre: Cpu, post: Cpu, r: Result<(), MachineError>) -> bool {
    if !operand2_ok(pre) {
        post == pre && r == Err::<(), MachineError>(fetch2_err(pre))
    } else {
        let mid = after_operand2(pre);
        match r {
            Ok(_) => {
                &&& writable(wrap_dec2(pre.sp))
                &&& writable(wrap_inc(wrap_dec2(pre.sp)))
                &&& post.sp == wrap_dec2(pre.sp)
                &&& mem_updated_word(pre.mem, post.mem, post.sp, mid.pc)
                &&& post == (Cpu {
                    pc: operand_word(pre) as u16,
                    sp: post.sp,
                    mem: post.mem,
                    ..pre
                })
            },
            Err(e) => push_fail(mid, post, mid.pc, e),
        }
    }
}

/// CALL u16
pub fn op_cd(cpu: &mut Cpu) -> (r: Result<(), MachineError>)
    requires
        old(cpu).wf(),
    ensures
        final(cpu).wf(),
        op_cd_post(*old(cpu), *final(cpu), r),
{
    let word = match cpu.next_word() {
        Ok(w) => w,
        Err(e) => {
            return Err(e);
        },
    };
    let ret = cpu.pc;
    match cpu.push_stack(ret) {
        Ok(_) => {},
        Err(e) => {
            return Err(e);
        },
    }
    cpu.pc = word;
    Ok(())
}

} // verus!
