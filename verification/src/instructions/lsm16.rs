//! Word-sized load, push and pop instructions.

use vstd::prelude::*;

use crate::cpu::after_operand2;
use crate::cpu::fetch2_err;
use crate::cpu::operand2_ok;
use crate::cpu::operand_word;
use crate::cpu::pop_err;
use crate::cpu::pop_ok;
use crate::cpu::pop_val;
use crate::cpu::push_fail;
use crate::cpu::push_post;
use crate::cpu::with_regs;
use crate::cpu::wrap_dec2;
use crate::cpu::Cpu;
use crate::errors::MachineError;
use crate::memory::wrap_inc;
use crate::memory::writable;
use crate::registers::regs_with_bc;
use crate::registers::regs_with_de;
use crate::registers::regs_with_hl;

verus! {

/// LD DE, u16: the word operand is loaded into the DE pair.
pub open spec fn op_11_post(pre: Cpu, post: Cpu, r: Result<(), MachineError>) -> bool {
    match r {
        Ok(_) => operand2_ok(pre) && post == with_regs(
            after_operand2(pre),
            regs_with_de(pre.regs, operand_word(pre) as u16),
        ),
        Err(e) => !operand2_ok(pre) && post == pre && e == fetch2_err(pre),
    }
}

/// LD DE, u16
pub fn op_11(cpu: &mut Cpu) -> (r: Result<(), MachineError>)
    requires
        old(cpu).wf(),
    ensures
        final(cpu).wf(),
        op_11_post(*old(cpu), *final(cpu), r),
{
    match cpu.next_word() {
        Ok(word) => {
            cpu.regs.set_de(word);
            Ok(())
        },
        Err(e) => Err(e),
    }
}

/// LD HL, u16: the word operand is loaded into the HL pair.
pub open spec fn op_21_post(pre: Cpu, post: Cpu, r: Result<(), MachineError>) -> bool {
    match r {
        Ok(_) => operand2_ok(pre) && post == with_regs(
            after_operand2(pre),
            regs_with_hl(pre.regs, operand_word(pre) as u16),
        ),
        Err(e) => !operand2_ok(pre) && post == pre && e == fetch2_err(pre),
    }
}

/// LD HL, u16
pub fn op_21(cpu: &mut Cpu) -> (r: Result<(), MachineError>)
    requires
        old(cpu).wf(),
    ensures
        final(cpu).wf(),
        op_21_post(*old(cpu), *final(cpu), r),
{
    match cpu.next_word() {
        Ok(word) => {
            cpu.regs.set_hl(word);
            Ok(())
        },
        Err(e) => Err(e),
    }
}

/// LD SP, u16: the word operand is loaded into the stack pointer.
pub open spec fn op_31_post(pre: Cpu, post: Cpu, r: Result<(), MachineError>) -> bool {
    match r {
        Ok(_) => operand2_ok(pre) && post == (Cpu {
            sp: operand_word(pre) as u16,
            ..after_operand2(pre)
        }),
        Err(e) => !operand2_ok(pre) && post == pre && e == fetch2_err(pre),
    }
}

/// LD SP, u16
pub fn op_31(cpu: &mut Cpu) -> (r: Result<(), MachineError>)
    requires
        old(cpu).wf(),
    ensures
        final(cpu).wf(),
        op_31_post(*old(cpu), *final(cpu), r),
{
    match cpu.next_word() {
        Ok(word) => {
            cpu.sp = word;
            Ok(())
        },
        Err(e) => Err(e),
    }
}

/// POP BC: a word is popped off the stack into the BC pair.
pub open spec fn op_c1_post(pre: Cpu, post: Cpu, r: Result<(), MachineError>) -> bool {
    match r {
        Ok(_) => pop_ok(pre) && post == (Cpu {
            sp: wrap_inc(wrap_inc(pre.sp)),
            regs: regs_with_bc(pre.regs, pop_val(pre) as u16),
            ..pre
        }),
        Err(e) => !pop_ok(pre) && post == pre && e == pop_err(pre),
    }
}

/// POP BC
pub fn op_c1(cpu: &mut Cpu) -> (r: Result<(), MachineError>)
    requires
        old(cpu).wf(),
    ensures
        final(cpu).wf(),
        op_c1_post(*old(cpu), *final(cpu), r),
{
    let word = match cpu.pop_stack() {
        Ok(w) => w,
        Err(e) => {
            return Err(e);
        },
    };
    cpu.regs.set_bc(word);
    Ok(())
}

/// PUSH BC: the BC pair is pushed onto the stack.
pub open spec fn op_c5_post(pre: Cpu, post: Cpu, r: Result<(), MachineError>) -> bool {
    match r {
        Ok(_) => writable(wrap_dec2(pre.sp)) && writable(wrap_inc(wrap_dec2(pre.sp)))
            && push_post(pre, post, pre.regs.spec_bc()),
        Err(e) => push_fail(pre, post, pre.regs.spec_bc(), e),
    }
}

/// PUSH BC
pub fn op_c5(cpu: &mut Cpu) -> (r: Result<(), MachineError>)
    requires
        old(cpu).wf(),
    ensures
        final(cpu).wf(),
        op_c5_post(*old(cpu), *final(cpu), r),
{
    let value = cpu.regs.bc();
    cpu.push_stack(value)
}

} // verus!
