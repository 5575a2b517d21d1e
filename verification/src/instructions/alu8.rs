//! Byte-sized arithmetic instructions: register increments and decrements,
//! addition, subtraction, subtract-with-carry, exclusive or, and compares.
//! Each handler's effect is stated as a relation between the processor
//! before and after, over the spec functions of the ALU.

use vstd::prelude::*;

use crate::alu::add8;
use crate::alu::add8_flags;
use crate::alu::add8_val;
use crate::alu::compare;
use crate::alu::dec8_flags;
use crate::alu::dec8_val;
use crate::alu::inc8_flags;
use crate::alu::inc8_val;
use crate::alu::increment8;
use crate::alu::decrement8;
use crate::alu::sbc;
use crate::alu::sbc_flags;
use crate::alu::sbc_val;
use crate::alu::sub8_flags;
use crate::alu::sub8_val;
use crate::alu::xor;
use crate::alu::xor_flags;
use crate::alu::xor_val;
use crate::cpu::after_operand;
use crate::cpu::fetch_err;
use crate::cpu::operand;
use crate::cpu::operand_ok;
use crate::cpu::read_err;
use crate::cpu::with_regs;
use crate::cpu::Cpu;
use crate::errors::MachineError;
use crate::memory::readable;
use crate::registers::Registers;

verus! {

/// INC B: register B is incremented, the flags follow the increment.
pub open spec fn op_04_post(pre: Cpu, post: Cpu) -> bool {
    post == with_regs(
        pre,
        Registers { b: inc8_val(pre.regs.b), f: inc8_flags(pre.regs.b, pre.regs.f), ..pre.regs },
    )
}

/// INC B
pub fn op_04(cpu: &mut Cpu)
    ensures
        op_04_post(*old(cpu), *final(cpu)),
{
    let (new_b, new_flags) = increment8(cpu.regs.b, cpu.regs.f);
    cpu.regs.b = new_b;
    cpu.regs.f = new_flags;
}

/// DEC B: register B is decremented, the flags follow the decrement.
pub open spec fn op_05_post(pre: Cpu, post: Cpu) -> bool {
    post == with_regs(
        pre,
        Registers { b: dec8_val(pre.regs.b), f: dec8_flags(pre.regs.b, pre.regs.f), ..pre.regs },
    )
}

/// DEC B
pub fn op_05(cpu: &mut Cpu)
    ensures
        op_05_post(*old(cpu), *final(cpu)),
{
    let (new_b, new_flags) = decrement8(cpu.regs.b, cpu.regs.f);
    cpu.regs.b = new_b;
    cpu.regs.f = new_flags;
}

/// INC C: register C is incremented, the flags follow the increment.
pub open spec fn op_0c_post(pre: Cpu, post: Cpu) -> bool {
    post == with_regs(
        pre,
        Registers { c: inc8_val(pre.regs.c), f: inc8_flags(pre.regs.c, pre.regs.f), ..pre.regs },
    )
}

/// INC C
pub fn op_0c(cpu: &mut Cpu)
    ensures
        op_0c_post(*old(cpu), *final(cpu)),
{
    let (new_c, new_flags) = increment8(cpu.regs.c, cpu.regs.f);
    cpu.regs.c = new_c;
    cpu.regs.f = new_flags;
}

/// DEC C: register C is decremented, the flags follow the decrement.
pub open spec fn op_0d_post(pre: Cpu, post: Cpu) -> bool {
    post == with_regs(
        pre,
        Registers { c: dec8_val(pre.regs.c), f: dec8_flags(pre.regs.c, pre.regs.f), ..pre.regs },
    )
}

/// DEC C
pub fn op_0d(cpu: &mut Cpu)
    ensures
        op_0d_post(*old(cpu), *final(cpu)),
{
    let (new_c, new_flags) = decrement8(cpu.regs.c, cpu.regs.f);
    cpu.regs.c = new_c;
    cpu.regs.f = new_flags;
}

/// DEC D: register D is decremented, the flags follow the decrement.
pub open spec fn op_15_post(pre: Cpu, post: Cpu) -> bool {
    post == with_regs(
        pre,
        Registers { d: dec8_val(pre.regs.d), f: dec8_flags(pre.regs.d, pre.regs.f), ..pre.regs },
    )
}

/// DEC D
pub fn op_15(cpu: &mut Cpu)
    ensures
        op_15_post(*old(cpu), *final(cpu)),
{
    let (new_d, new_flags) = decrement8(cpu.regs.d, cpu.regs.f);
    cpu.regs.d = new_d;
    cpu.regs.f = new_flags;
}

/// INC E: register E is incremented, the flags follow the increment.
pub open spec fn op_1c_post(pre: Cpu, post: Cpu) -> bool {
    post == with_regs(
        pre,
        Registers { e: inc8_val(pre.regs.e), f: inc8_flags(pre.regs.e, pre.regs.f), ..pre.regs },
    )
}

/// INC E
pub fn op_1c(cpu: &mut Cpu)
    ensures
        op_1c_post(*old(cpu), *final(cpu)),
{
    let (new_e, new_flags) = increment8(cpu.regs.e, cpu.regs.f);
    cpu.regs.e = new_e;
    cpu.regs.f = new_flags;
}

/// DEC E: register E is decremented, the flags follow the decrement.
pub open spec fn op_1d_post(pre: Cpu, post: Cpu) -> bool {
    post == with_regs(
        pre,
        Registers { e: dec8_val(pre.regs.e), f: dec8_flags(pre.regs.e, pre.regs.f), ..pre.regs },
    )
}

/// DEC E
pub fn op_1d(cpu: &mut Cpu)
    ensures
        op_1d_post(*old(cpu), *final(cpu)),
{
    let (new_e, new_flags) = decrement8(cpu.regs.e, cpu.regs.f);
    cpu.regs.e = new_e;
    cpu.regs.f = new_flags;
}

/// INC H: register H is incremented, the flags follow the increment.
pub open spec fn op_24_post(pre: Cpu, post: Cpu) -> bool {
    post == with_regs(
        pre,
        Registers { h: inc8_val(pre.regs.h), f: inc8_flags(pre.regs.h, pre.regs.f), ..pre.regs },
    )
}

/// INC H
pub fn op_24(cpu: &mut Cpu)
    ensures
        op_24_post(*old(cpu), *final(cpu)),
{
    let (new_h, new_flags) = increment8(cpu.regs.h, cpu.regs.f);
    cpu.regs.h = new_h;
    cpu.regs.f = new_flags;
}

/// INC A: register A is incremented, the flags follow the increment.
pub open spec fn op_3c_post(pre: Cpu, post: Cpu) -> bool {
    post == with_regs(
        pre,
        Registers { a: inc8_val(pre.regs.a), f: inc8_flags(pre.regs.a, pre.regs.f), ..pre.regs },
    )
}

/// INC A
pub fn op_3c(cpu: &mut Cpu)
    ensures
        op_3c_post(*old(cpu), *final(cpu)),
{
    let (new_a, new_flags) = increment8(cpu.regs.a, cpu.regs.f);
    cpu.regs.a = new_a;
    cpu.regs.f = new_flags;
}

/// DEC A: register A is decremented, the flags follow the decrement.
pub open spec fn op_3d_post(pre: Cpu, post: Cpu) -> bool {
    post == with_regs(
        pre,
        Registers { a: dec8_val(pre.regs.a), f: dec8_flags(pre.regs.a, pre.regs.f), ..pre.regs },
    )
}

/// DEC A
pub fn op_3d(cpu: &mut Cpu)
    ensures
        op_3d_post(*old(cpu), *final(cpu)),
{
    let (new_a, new_flags) = decrement8(cpu.regs.a, cpu.regs.f);
    cpu.regs.a = new_a;
    cpu.regs.f = new_flags;
}

/// ADD A, (HL): the byte at address HL is added to register A; fails,
/// changing nothing, when HL points into the unused region.
pub open spec fn op_86_post(pre: Cpu, post: Cpu, r: Result<(), MachineError>) -> bool {
    let hl = pre.regs.spec_hl();
    let byte = pre.mem.spec_read(hl);
    match r {
        Ok(_) => readable(hl) && post == with_regs(
            pre,
            Registers { a: add8_val(pre.regs.a, byte), f: add8_flags(pre.regs.a, byte), ..pre.regs },
        ),
        Err(e) => !readable(hl) && post == pre && e == read_err(hl),
    }
}

/// ADD A, (HL)
pub fn op_86(cpu: &mut Cpu) -> (r: Result<(), MachineError>)
    requires
        old(cpu).wf(),
    ensures
        final(cpu).wf(),
        op_86_post(*old(cpu), *final(cpu), r),
{
    let addr = cpu.regs.hl();
    let byte = match cpu.mem.read_byte(addr) {
        Ok(b) => b,
        Err(e) => {
            return Err(e);
        },
    };
    let (new_a, new_flags) = add8(cpu.regs.a, byte);
    cpu.regs.a = new_a;
    cpu.regs.f = new_flags;
    Ok(())
}

/// SUB A, B: register B is subtracted from register A.
pub open spec fn op_90_post(pre: Cpu, post: Cpu) -> bool {
    post == with_regs(
        pre,
        Registers {
            a: sub8_val(pre.regs.a, pre.regs.b),
            f: sub8_flags(pre.regs.a, pre.regs.b, pre.regs.f),
            ..pre.regs
        },
    )
}

/// SUB A, B
pub fn op_90(cpu: &mut Cpu)
    ensures
        op_90_post(*old(cpu), *final(cpu)),
{
    let (new_a, new_flags) = crate::alu::sub(cpu.regs.a, cpu.regs.b, cpu.regs.f);
    cpu.regs.a = new_a;
    cpu.regs.f = new_flags;
}

/// SBC A, A: register A and the carry bit are subtracted from register A.
pub open spec fn op_9f_post(pre: Cpu, post: Cpu) -> bool {
    post == with_regs(
        pre,
        Registers {
            a: sbc_val(pre.regs.a, pre.regs.a, pre.regs.f),
            f: sbc_flags(pre.regs.a, pre.regs.a, pre.regs.f),
            ..pre.regs
        },
    )
}

/// SBC A, A
pub fn op_9f(cpu: &mut Cpu)
    ensures
        op_9f_post(*old(cpu), *final(cpu)),
{
    let (new_a, new_flags) = sbc(cpu.regs.a, cpu.regs.a, cpu.regs.f);
    cpu.regs.a = new_a;
    cpu.regs.f = new_flags;
}

/// XOR A, A: register A is XORed with itself, leaving zero.
pub open spec fn op_af_post(pre: Cpu, post: Cpu) -> bool {
    post == with_regs(
        pre,
        Registers {
            a: xor_val(pre.regs.a, pre.regs.a),
            f: xor_flags(pre.regs.a, pre.regs.a, pre.regs.f),
            ..pre.regs
        },
    )
}

/// XOR A, A
pub fn op_af(cpu: &mut Cpu)
    ensures
        op_af_post(*old(cpu), *final(cpu)),
{
    let (new_a, new_flags) = xor(cpu.regs.a, cpu.regs.a, cpu.regs.f);
    cpu.regs.a = new_a;
    cpu.regs.f = new_flags;
}

/// CP A, (HL): the byte at address HL is compared with register A; only
/// the flags change, register A keeps its value.  Fails, changing nothing,
/// when HL points into the unused region.
pub open spec fn op_be_post(pre: Cpu, post: Cpu, r: Result<(), MachineError>) -> bool {
    let hl = pre.regs.spec_hl();
    let byte = pre.mem.spec_read(hl);
    match r {
        Ok(_) => readable(hl) && post == with_regs(
            pre,
            Registers { f: sub8_flags(pre.regs.a, byte, pre.regs.f), ..pre.regs },
        ),
        Err(e) => !readable(hl) && post == pre && e == read_err(hl),
    }
}

/// CP A, (HL)
pub fn op_be(cpu: &mut Cpu) -> (r: Result<(), MachineError>)
    requires
        old(cpu).wf(),
    ensures
        final(cpu).wf(),
        op_be_post(*old(cpu), *final(cpu), r),
{
    let addr = cpu.regs.hl();
    let byte = match cpu.mem.read_byte(addr) {
        Ok(b) => b,
        Err(e) => {
            return Err(e);
        },
    };
    cpu.regs.f = compare(cpu.regs.a, byte, cpu.regs.f);
    Ok(())
}

/// CP A, u8: the operand byte is compared with register A; only the flags
/// change, register A keeps its value.  Fails, changing nothing, when the
/// operand cannot be fetched.
pub open spec fn op_fe_post(pre: Cpu, post: Cpu, r: Result<(), MachineError>) -> bool {
    match r {
        Ok(_) => operand_ok(pre) && post == with_regs(
            after_operand(pre),
            Registers { f: sub8_flags(pre.regs.a, operand(pre), pre.regs.f), ..pre.regs },
        ),
        Err(e) => !operand_ok(pre) && post == pre && e == fetch_err(pre),
    }
}

/// A compare returns new flags only: after a successful CP A, u8 the
/// accumulator and every other register, the counters and the memory all
/// hold their old values; only the flag byte may differ.
pub proof fn lemma_compare_non_mutation(pre: Cpu, post: Cpu, r: Result<(), MachineError>)
    requires
        op_fe_post(pre, post, r),
        r is Ok,
    ensures
        post.regs.a == pre.regs.a,
        post.regs == (Registers { f: post.regs.f, ..pre.regs }),
        post.sp == pre.sp,
        post.mem == pre.mem,
{
}

/// CP A, u8
pub fn op_fe(cpu: &mut Cpu) -> (r: Result<(), MachineError>)
    requires
        old(cpu).wf(),
    ensures
        final(cpu).wf(),
        op_fe_post(*old(cpu), *final(cpu), r),
{
    let byte = match cpu.next_byte() {
        Ok(b) => b,
        Err(e) => {
            return Err(e);
        },
    };
    cpu.regs.f = compare(cpu.regs.a, byte, cpu.regs.f);
    Ok(())
}

} // verus!
