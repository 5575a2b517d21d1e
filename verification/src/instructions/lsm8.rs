//! Byte-sized load, store and move instructions.

use vstd::prelude::*;

use crate::alu::dec16_val;
use crate::alu::inc16_val;
use crate::cpu::after_operand;
use crate::cpu::fetch_err;
use crate::cpu::operand;
use crate::cpu::operand_ok;
use crate::cpu::read_err;
use crate::cpu::with_regs;
use crate::cpu::write_err;
use crate::cpu::Cpu;
use crate::errors::MachineError;
use crate::memory::mem_updated;
use crate::memory::readable;
use crate::memory::wrap_inc;
use crate::memory::writable;
use crate::registers::regs_with_hl;
use crate::registers::Registers;

verus! {

/// LD B, u8: the operand byte is loaded into register B.
pub open spec fn op_06_post(pre: Cpu, post: Cpu, r: Result<(), MachineError>) -> bool {
    match r {
        Ok(_) => operand_ok(pre) && post == with_regs(
            after_operand(pre),
            Registers { b: operand(pre), ..pre.regs },
        ),
        Err(e) => !operand_ok(pre) && post == pre && e == fetch_err(pre),
    }
}

/// LD B, u8
pub fn op_06(cpu: &mut Cpu) -> (r: Result<(), MachineError>)
    requires
        old(cpu).wf(),
    ensures
        final(cpu).wf(),
        op_06_post(*old(cpu), *final(cpu), r),
{
    match cpu.next_byte() {
        Ok(b) => {
            cpu.regs.b = b;
            Ok(())
        },
        Err(e) => Err(e),
    }
}

/// LD D, u8: the operand byte is loaded into register D.
pub open spec fn op_16_post(pre: Cpu, post: Cpu, r: Result<(), MachineError>) -> bool {
    match r {
        Ok(_) => operand_ok(pre) && post == with_regs(
            after_operand(pre),
            Registers { d: operand(pre), ..pre.regs },
        ),
        Err(e) => !operand_ok(pre) && post == pre && e == fetch_err(pre),
    }
}

/// LD D, u8
pub fn op_16(cpu: &mut Cpu) -> (r: Result<(), MachineError>)
    requires
        old(cpu).wf(),
    ensures
        final(cpu).wf(),
        op_16_post(*old(cpu), *final(cpu), r),
{
    match cpu.next_byte() {
        Ok(b) => {
            cpu.regs.d = b;
            Ok(())
        },
        Err(e) => Err(e),
    }
}

/// LD A, (DE): the byte at address DE is loaded into register A; fails,
/// changing nothing, when DE points into the unused region.
pub open spec fn op_1a_post(pre: Cpu, post: Cpu, r: Result<(), MachineError>) -> bool {
    let de = pre.regs.spec_de();
    match r {
        Ok(_) => readable(de) && post == with_regs(
            pre,
            Registers { a: pre.mem.spec_read(de), ..pre.regs },
        ),
        Err(e) => !readable(de) && post == pre && e == read_err(de),
    }
}

/// LD A, (DE)
pub fn op_1a(cpu: &mut Cpu) -> (r: Result<(), MachineError>)
    requires
        old(cpu).wf(),
    ensures
        final(cpu).wf(),
        op_1a_post(*old(cpu), *final(cpu), r),
{
    let addr = cpu.regs.de();
    match cpu.mem.read_byte(addr) {
        Ok(b) => {
            cpu.regs.a = b;
            Ok(())
        },
        Err(e) => Err(e),
    }
}

/// LD E, u8: the operand byte is loaded into register E.
pub open spec fn op_1e_post(pre: Cpu, post: Cpu, r: Result<(), MachineError>) -> bool {
    match r {
        Ok(_) => operand_ok(pre) && post == with_regs(
            after_operand(pre),
            Registers { e: operand(pre), ..pre.regs },
        ),
        Err(e) => !operand_ok(pre) && post == pre && e == fetch_err(pre),
    }
}

/// LD E, u8
pub fn op_1e(cpu: &mut Cpu) -> (r: Result<(), MachineError>)
    requires
        old(cpu).wf(),
    ensures
        final(cpu).wf(),
        op_1e_post(*old(cpu), *final(cpu), r),
{
    match cpu.next_byte() {
        Ok(b) => {
            cpu.regs.e = b;
            Ok(())
        },
        Err(e) => Err(e),
    }
}

/// LD (HL+), A: register A is stored at address HL, then HL is
/// incremented.  A failed store changes nothing.
pub open spec fn op_22_post(pre: Cpu, post: Cpu, r: Result<(), MachineError>) -> bool {
    let hl = pre.regs.spec_hl();
    match r {
        Ok(_) => writable(hl) && mem_updated(pre.mem, post.mem, hl, pre.regs.a) && post == (Cpu {
            regs: regs_with_hl(pre.regs, inc16_val(hl)),
            mem: post.mem,
            ..pre
        }),
        Err(e) => !writable(hl) && post == pre && e == write_err(hl),
    }
}

/// LD (HL+), A
pub fn op_22(cpu: &mut Cpu) -> (r: Result<(), MachineError>)
    requires
        old(cpu).wf(),
    ensures
        final(cpu).wf(),
        op_22_post(*old(cpu), *final(cpu), r),
{
    let addr = cpu.regs.hl();
    let a = cpu.regs.a;
    match cpu.mem.write_byte(addr, a) {
        Ok(_) => {},
        Err(e) => {
            return Err(e);
        },
    }
    cpu.regs.set_hl(addr.wrapping_add(1));
    Ok(())
}

/// LD (HL-), A: register A is stored at address HL, then HL is
/// decremented.  A failed store changes nothing.
pub open spec fn op_32_post(pre: Cpu, post: Cpu, r: Result<(), MachineError>) -> bool {
    let hl = pre.regs.spec_hl();
    match r {
        Ok(_) => writable(hl) && mem_updated(pre.mem, post.mem, hl, pre.regs.a) && post == (Cpu {
            regs: regs_with_hl(pre.regs, dec16_val(hl)),
            mem: post.mem,
            ..pre
        }),
        Err(e) => !writable(hl) && post == pre && e == write_err(hl),
    }
}

/// LD (HL-), A
pub fn op_32(cpu: &mut Cpu) -> (r: Result<(), MachineError>)
    requires
        old(cpu).wf(),
    ensures
        final(cpu).wf(),
        op_32_post(*old(cpu), *final(cpu), r),
{
    let addr = cpu.regs.hl();
    let a = cpu.regs.a;
    match cpu.mem.write_byte(addr, a) {
        Ok(_) => {},
        Err(e) => {
            return Err(e);
        },
    }
    cpu.regs.set_hl(addr.wrapping_sub(1));
    Ok(())
}

/// LD C, A: register A is copied into register C.
pub open spec fn op_4f_post(pre: Cpu, post: Cpu) -> bool {
    post == with_regs(pre, Registers { c: pre.regs.a, ..pre.regs })
}

/// LD C, A
pub fn op_4f(cpu: &mut Cpu)
    ensures
        op_4f_post(*old(cpu), *final(cpu)),
{
    cpu.regs.c = cpu.regs.a;
}

/// LD D, A: register A is copied into register D.
pub open spec fn op_57_post(pre: Cpu, post: Cpu) -> bool {
    post == with_regs(pre, Registers { d: pre.regs.a, ..pre.regs })
}

/// LD D, A
pub fn op_57(cpu: &mut Cpu)
    ensures
        op_57_post(*old(cpu), *final(cpu)),
{
    cpu.regs.d = cpu.regs.a;
}

/// LD H, A: register A is copied into register H.
pub open spec fn op_67_post(pre: Cpu, post: Cpu) -> bool {
    post == with_regs(pre, Registers { h: pre.regs.a, ..pre.regs })
}

/// LD H, A
pub fn op_67(cpu: &mut Cpu)
    ensures
        op_67_post(*old(cpu), *final(cpu)),
{
    cpu.regs.h = cpu.regs.a;
}

/// LD (HL), A: register A is stored at address HL.  A failed store
/// changes nothing.
pub open spec fn op_77_post(pre: Cpu, post: Cpu, r: Result<(), MachineError>) -> bool {
    let hl = pre.regs.spec_hl();
    match r {
        Ok(_) => writable(hl) && mem_updated(pre.mem, post.mem, hl, pre.regs.a) && post == (Cpu {
            mem: post.mem,
            ..pre
        }),
        Err(e) => !writable(hl) && post == pre && e == write_err(hl),
    }
}

/// LD (HL), A
pub fn op_77(cpu: &mut Cpu) -> (r: Result<(), MachineError>)
    requires
        old(cpu).wf(),
    ensures
        final(cpu).wf(),
        op_77_post(*old(cpu), *final(cpu), r),
{
    let addr = cpu.regs.hl();
    let a = cpu.regs.a;
    match cpu.mem.write_byte(addr, a) {
        Ok(_) => Ok(()),
        Err(e) => Err(e),
    }
}

/// LD A, B: register B is copied into register A.
pub open spec fn op_78_post(pre: Cpu, post: Cpu) -> bool {
    post == with_regs(pre, Registers { a: pre.regs.b, ..pre.regs })
}

/// LD A, B
pub fn op_78(cpu: &mut Cpu)
    ensures
        op_78_post(*old(cpu), *final(cpu)),
{
    cpu.regs.a = cpu.regs.b;
}

/// LD A, E: register E is copied into register A.
pub open spec fn op_7b_post(pre: Cpu, post: Cpu) -> bool {
    post == with_regs(pre, Registers { a: pre.regs.e, ..pre.regs })
}

/// LD A, E
pub fn op_7b(cpu: &mut Cpu)
    ensures
        op_7b_post(*old(cpu), *final(cpu)),
{
    cpu.regs.a = cpu.regs.e;
}

/// LD A, H: register H is copied into register A.
pub open spec fn op_7c_post(pre: Cpu, post: Cpu) -> bool {
    post == with_regs(pre, Registers { a: pre.regs.h, ..pre.regs })
}

/// LD A, H
pub fn op_7c(cpu: &mut Cpu)
    ensures
        op_7c_post(*old(cpu), *final(cpu)),
{
    cpu.regs.a = cpu.regs.h;
}

/// LD A, L: register L is copied into register A.
pub open spec fn op_7d_post(pre: Cpu, post: Cpu) -> bool {
    post == with_regs(pre, Registers { a: pre.regs.l, ..pre.regs })
}

/// LD A, L
pub fn op_7d(cpu: &mut Cpu)
    ensures
        op_7d_post(*old(cpu), *final(cpu)),
{
    cpu.regs.a = cpu.regs.l;
}

/// LD (FF00 + u8), A: register A is stored into the I/O page at the
/// offset given by the operand byte.  Every address of that page is
/// writable, so only a failed operand fetch can fail, changing nothing.
pub open spec fn op_e0_post(pre: Cpu, post: Cpu, r: Result<(), MachineError>) -> bool {
    let addr = (0xff00 + operand(pre)) as u16;
    match r {
        Ok(_) => operand_ok(pre) && mem_updated(pre.mem, post.mem, addr, pre.regs.a) && post
            == (Cpu { pc: wrap_inc(pre.pc), mem: post.mem, ..pre }),
        Err(e) => !operand_ok(pre) && post == pre && e == fetch_err(pre),
    }
}

/// LD (FF00 + u8), A
pub fn op_e0(cpu: &mut Cpu) -> (r: Result<(), MachineError>)
    requires
        old(cpu).wf(),
    ensures
        final(cpu).wf(),
        op_e0_post(*old(cpu), *final(cpu), r),
{
    let byte = match cpu.next_byte() {
        Ok(b) => b,
        Err(e) => {
            return Err(e);
        },
    };
    let addr = 0xff00 + byte as u16;
    let a = cpu.regs.a;
    match cpu.mem.write_byte(addr, a) {
        Ok(_) => Ok(()),
        Err(e) => Err(e),
    }
}

/// LD (FF00 + C), A: register A is stored into the I/O page at the offset
/// given by register C.  Every address of that page is writable, so the
/// store never fails.
pub open spec fn op_e2_post(pre: Cpu, post: Cpu, r: Result<(), MachineError>) -> bool {
    let addr = (0xff00 + pre.regs.c) as u16;
    match r {
        Ok(_) => mem_updated(pre.mem, post.mem, addr, pre.regs.a) && post == (Cpu {
            mem: post.mem,
            ..pre
        }),
        Err(_) => false,
    }
}

/// LD (FF00 + C), A
pub fn op_e2(cpu: &mut Cpu) -> (r: Result<(), MachineError>)
    requires
        old(cpu).wf(),
    ensures
        final(cpu).wf(),
        op_e2_post(*old(cpu), *final(cpu), r),
{
    let addr = 0xff00 + cpu.regs.c as u16;
    let a = cpu.regs.a;
    match cpu.mem.write_byte(addr, a) {
        Ok(_) => Ok(()),
        Err(e) => Err(e),
    }
}

/// LD (u16), A: register A is stored at the address given by the word
/// operand.  A failed operand fetch changes nothing; a failed store leaves
/// the operand consumed.
pub open spec fn op_ea_post(pre: Cpu, post: Cpu, r: Result<(), MachineError>) -> bool {
    if !crate::cpu::operand2_ok(pre) {
        post == pre && r == Err::<(), MachineError>(crate::cpu::fetch2_err(pre))
    } else {
        let addr = crate::cpu::operand_word(pre) as u16;
        match r {
            Ok(_) => writable(addr) && mem_updated(pre.mem, post.mem, addr, pre.regs.a) && post
                == (Cpu { pc: crate::cpu::after_operand2(pre).pc, mem: post.mem, ..pre }),
            Err(e) => !writable(addr) && post == crate::cpu::after_operand2(pre) && e == write_err(
                addr,
            ),
        }
    }
}

/// LD (u16), A
pub fn op_ea(cpu: &mut Cpu) -> (r: Result<(), MachineError>)
    requires
        old(cpu).wf(),
    ensures
        final(cpu).wf(),
        op_ea_post(*old(cpu), *final(cpu), r),
{
    let addr = match cpu.next_word() {
        Ok(w) => w,
        Err(e) => {
            return Err(e);
        },
    };
    let a = cpu.regs.a;
    match cpu.mem.write_byte(addr, a) {
        Ok(_) => Ok(()),
        Err(e) => Err(e),
    }
}

/// LD C, u8: the operand byte is loaded into register C.
pub open spec fn op_0e_post(pre: Cpu, post: Cpu, r: Result<(), MachineError>) -> bool {
    match r {
        Ok(_) => operand_ok(pre) && post == with_regs(
            after_operand(pre),
            Registers { c: operand(pre), ..pre.regs },
        ),
        Err(e) => !operand_ok(pre) && post == pre && e == fetch_err(pre),
    }
}

/// LD C, u8
pub fn op_0e(cpu: &mut Cpu) -> (r: Result<(), MachineError>)
    requires
        old(cpu).wf(),
    ensures
        final(cpu).wf(),
        op_0e_post(*old(cpu), *final(cpu), r),
{
    match cpu.next_byte() {
        Ok(b) => {
            cpu.regs.c = b;
            Ok(())
        },
        Err(e) => Err(e),
    }
}

/// LD L, u8: the operand byte is loaded into register L.
pub open spec fn op_2e_post(pre: Cpu, post: Cpu, r: Result<(), MachineError>) -> bool {
    match r {
        Ok(_) => operand_ok(pre) && post == with_regs(
            after_operand(pre),
            Registers { l: operand(pre), ..pre.regs },
        ),
        Err(e) => !operand_ok(pre) && post == pre && e == fetch_err(pre),
    }
}

/// LD L, u8
pub fn op_2e(cpu: &mut Cpu) -> (r: Result<(), MachineError>)
    requires
        old(cpu).wf(),
    ensures
        final(cpu).wf(),
        op_2e_post(*old(cpu), *final(cpu), r),
{
    match cpu.next_byte() {
        Ok(b) => {
            cpu.regs.l = b;
            Ok(())
        },
        Err(e) => Err(e),
    }
}

/// LD A, u8: the operand byte is loaded into register A.
pub open spec fn op_3e_post(pre: Cpu, post: Cpu, r: Result<(), MachineError>) -> bool {
    match r {
        Ok(_) => operand_ok(pre) && post == with_regs(
            after_operand(pre),
            Registers { a: operand(pre), ..pre.regs },
        ),
        Err(e) => !operand_ok(pre) && post == pre && e == fetch_err(pre),
    }
}

/// LD A, u8
pub fn op_3e(cpu: &mut Cpu) -> (r: Result<(), MachineError>)
    requires
        old(cpu).wf(),
    ensures
        final(cpu).wf(),
        op_3e_post(*old(cpu), *final(cpu), r),
{
    match cpu.next_byte() {
        Ok(b) => {
            cpu.regs.a = b;
            Ok(())
        },
        Err(e) => Err(e),
    }
}

/// LD A, (FF00 + u8): the byte of the I/O page at the offset given by the
/// operand is loaded into register A.  Every address of that page is
/// readable, so only a failed operand fetch can fail, changing nothing.
pub open spec fn op_f0_post(pre: Cpu, post: Cpu, r: Result<(), MachineError>) -> bool {
    let addr = (0xff00 + operand(pre)) as u16;
    match r {
        Ok(_) => operand_ok(pre) && post == with_regs(
            after_operand(pre),
            Registers { a: pre.mem.spec_read(addr), ..pre.regs },
        ),
        Err(e) => !operand_ok(pre) && post == pre && e == fetch_err(pre),
    }
}

/// LD A, (FF00 + u8)
pub fn op_f0(cpu: &mut Cpu) -> (r: Result<(), MachineError>)
    requires
        old(cpu).wf(),
    ensures
        final(cpu).wf(),
        op_f0_post(*old(cpu), *final(cpu), r),
{
    let byte = match cpu.next_byte() {
        Ok(b) => b,
        Err(e) => {
            return Err(e);
        },
    };
    let addr = 0xff00 + byte as u16;
    match cpu.mem.read_byte(addr) {
        Ok(b) => {
            cpu.regs.a = b;
            Ok(())
        },
        Err(e) => Err(e),
    }
}

} // verus!
