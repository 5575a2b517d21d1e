//! Word-sized arithmetic instructions on the 16-bit register pairs.

use vstd::prelude::*;

use crate::alu::add16;
use crate::alu::add16_flags;
use crate::alu::add16_val;
use crate::alu::inc16_val;
use crate::alu::increment16;
use crate::cpu::with_regs;
use crate::cpu::Cpu;
use crate::registers::regs_with_de;
use crate::registers::regs_with_hl;
use crate::registers::Registers;

verus! {

/// INC DE: the DE pair is incremented with wraparound; no flag effects.
pub open spec fn op_13_post(pre: Cpu, post: Cpu) -> bool {
    post == with_regs(pre, regs_with_de(pre.regs, inc16_val(pre.regs.spec_de())))
}

/// INC DE
pub fn op_13(cpu: &mut Cpu)
    ensures
        op_13_post(*old(cpu), *final(cpu)),
{
    let v = increment16(cpu.regs.de());
    cpu.regs.set_de(v);
}

/// ADD HL, DE: the DE pair is added to the HL pair; Z is unchanged, N is
/// cleared, H and C follow the word addition.
pub open spec fn op_19_post(pre: Cpu, post: Cpu) -> bool {
    post == with_regs(
        pre,
        Registers {
            f: add16_flags(pre.regs.spec_hl(), pre.regs.spec_de(), pre.regs.f),
            ..regs_with_hl(pre.regs, add16_val(pre.regs.spec_hl(), pre.regs.spec_de()))
        },
    )
}

/// ADD HL, DE
pub fn op_19(cpu: &mut Cpu)
    ensures
        op_19_post(*old(cpu), *final(cpu)),
{
    let (new_hl, new_flags) = add16(cpu.regs.hl(), cpu.regs.de(), cpu.regs.f);
    cpu.regs.set_hl(new_hl);
    cpu.regs.f = new_flags;
}

/// INC HL: the HL pair is incremented with wraparound; no flag effects.
pub open spec fn op_23_post(pre: Cpu, post: Cpu) -> bool {
    post == with_regs(pre, regs_with_hl(pre.regs, inc16_val(pre.regs.spec_hl())))
}

/// INC HL
pub fn op_23(cpu: &mut Cpu)
    ensures
        op_23_post(*old(cpu), *final(cpu)),
{
    let v = increment16(cpu.regs.hl());
    cpu.regs.set_hl(v);
}

} // verus!
