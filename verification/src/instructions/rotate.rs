//! Rotate and bit-test instructions.

use vstd::prelude::*;

use crate::alu::bit;
use crate::alu::bit_flags;
use crate::alu::rl_carry_flags;
use crate::alu::rl_carry_val;
use crate::alu::rl_flags;
use crate::alu::rl_val;
use crate::alu::rotate_left;
use crate::alu::rotate_left_through_carry;
use crate::cpu::with_regs;
use crate::cpu::Cpu;
use crate::registers::Registers;

verus! {

/// BIT 7, H: tests bit 7 of register H; only the flags change.
pub open spec fn op_cb7c_post(pre: Cpu, post: Cpu) -> bool {
    post == with_regs(
        pre,
        Registers { f: bit_flags(7, pre.regs.h, pre.regs.f), ..pre.regs },
    )
}

/// BIT 7, H
/// Checks bit 7 (counting from zero) of the `H` register.
pub fn op_cb7c(cpu: &mut Cpu)
    ensures
        op_cb7c_post(*old(cpu), *final(cpu)),
{
    cpu.regs.f = bit(7, cpu.regs.h, cpu.regs.f);
}

/// RL C: register C is rotated left through the carry flag.
pub open spec fn op_cb11_post(pre: Cpu, post: Cpu) -> bool {
    post == with_regs(
        pre,
        Registers {
            c: rl_carry_val(pre.regs.c, pre.regs.f),
            f: rl_carry_flags(pre.regs.c, pre.regs.f),
            ..pre.regs
        },
    )
}

/// RL C
pub fn op_cb11(cpu: &mut Cpu)
    ensures
        op_cb11_post(*old(cpu), *final(cpu)),
{
    let (new_c, new_flags) = rotate_left_through_carry(cpu.regs.c, cpu.regs.f);
    cpu.regs.c = new_c;
    cpu.regs.f = new_flags;
}

/// RLA: register A is rotated left, the top bit wrapping to the bottom;
/// Z, N and H are cleared unconditionally.
pub open spec fn op_17_post(pre: Cpu, post: Cpu) -> bool {
    post == with_regs(
        pre,
        Registers { a: rl_val(pre.regs.a), f: rl_flags(pre.regs.a, pre.regs.f), ..pre.regs },
    )
}

/// RLA
pub fn op_17(cpu: &mut Cpu)
    ensures
        op_17_post(*old(cpu), *final(cpu)),
{
    let (new_a, new_flags) = rotate_left(cpu.regs.a, cpu.regs.f);
    cpu.regs.a = new_a;
    cpu.regs.f = new_flags;
}

} // verus!
