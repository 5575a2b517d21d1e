//! The instruction set: the decoded-instruction record, the identity of
//! each execution handler, and the two fixed opcode tables (a primary table
//! and an extended table reached through the escape opcode 0xcb).
//!
//! Handlers are dispatched through an exhaustive match over [`Handler`], so
//! the tables are total over the declared opcode set and every gap is an
//! explicit decode error, never a silent no-op.

use vstd::prelude::*;

use crate::cpu::Cpu;

pub mod alu16;
pub mod alu8;
pub mod branch;
pub mod lsm16;
pub mod lsm8;
pub mod rotate;

verus! {

/// The identity of an instruction's execution function, named after the
/// opcode it serves (`Cb` marks the extended table).
#[derive(Clone, Copy, Debug, PartialEq, Eq, Structural)]
pub enum Handler {
    Op00,
    Op04,
    Op05,
    Op06,
    Op0c,
    Op0d,
    Op0e,
    Op11,
    Op13,
    Op15,
    Op16,
    Op17,
    Op18,
    Op19,
    Op1a,
    Op1c,
    Op1d,
    Op1e,
    Op20,
    Op21,
    Op22,
    Op23,
    Op24,
    Op28,
    Op2e,
    Op31,
    Op32,
    Op3c,
    Op3d,
    Op3e,
    Op4f,
    Op57,
    Op67,
    Op77,
    Op78,
    Op7b,
    Op7c,
    Op7d,
    Op86,
    Op90,
    Op9f,
    OpAf,
    OpBe,
    OpC1,
    OpC5,
    OpC9,
    OpCd,
    OpE0,
    OpE2,
    OpEa,
    OpF0,
    OpFe,
    OpCb11,
    OpCb7c,
}

/// The primary opcode table: the handler an opcode maps to, or `None` for
/// an opcode this model does not implement.  The escape opcode 0xcb is not
/// in the table; it selects the extended table instead.
pub open spec fn primary_handler(opcode: u8) -> Option<Handler> {
    match opcode {
        0x00 => Some(Handler::Op00),
        0x04 => Some(Handler::Op04),
        0x05 => Some(Handler::Op05),
        0x06 => Some(Handler::Op06),
        0x0c => Some(Handler::Op0c),
        0x0d => Some(Handler::Op0d),
        0x0e => Some(Handler::Op0e),
        0x11 => Some(Handler::Op11),
        0x13 => Some(Handler::Op13),
        0x15 => Some(Handler::Op15),
        0x16 => Some(Handler::Op16),
        0x17 => Some(Handler::Op17),
        0x18 => Some(Handler::Op18),
        0x19 => Some(Handler::Op19),
        0x1a => Some(Handler::Op1a),
        0x1c => Some(Handler::Op1c),
        0x1d => Some(Handler::Op1d),
        0x1e => Some(Handler::Op1e),
        0x20 => Some(Handler::Op20),
        0x21 => Some(Handler::Op21),
        0x22 => Some(Handler::Op22),
        0x23 => Some(Handler::Op23),
        0x24 => Some(Handler::Op24),
        0x28 => Some(Handler::Op28),
        0x2e => Some(Handler::Op2e),
        0x31 => Some(Handler::Op31),
        0x32 => Some(Handler::Op32),
        0x3c => Some(Handler::Op3c),
        0x3d => Some(Handler::Op3d),
        0x3e => Some(Handler::Op3e),
        0x4f => Some(Handler::Op4f),
        0x57 => Some(Handler::Op57),
        0x67 => Some(Handler::Op67),
        0x77 => Some(Handler::Op77),
        0x78 => Some(Handler::Op78),
        0x7b => Some(Handler::Op7b),
        0x7c => Some(Handler::Op7c),
        0x7d => Some(Handler::Op7d),
        0x86 => Some(Handler::Op86),
        0x90 => Some(Handler::Op90),
        0x9f => Some(Handler::Op9f),
        0xaf => Some(Handler::OpAf),
        0xbe => Some(Handler::OpBe),
        0xc1 => Some(Handler::OpC1),
        0xc5 => Some(Handler::OpC5),
        0xc9 => Some(Handler::OpC9),
        0xcd => Some(Handler::OpCd),
        0xe0 => Some(Handler::OpE0),
        0xe2 => Some(Handler::OpE2),
        0xea => Some(Handler::OpEa),
        0xf0 => Some(Handler::OpF0),
        0xfe => Some(Handler::OpFe),
        _ => None,
    }
}

/// The extended opcode table, reached through the escape opcode.
pub open spec fn extended_handler(opcode: u8) -> Option<Handler> {
    match opcode {
        0x11 => Some(Handler::OpCb11),
        0x7c => Some(Handler::OpCb7c),
        _ => None,
    }
}

/// An instruction of the machine, produced fresh by each decode: the
/// address it was fetched from, its opcode byte, a human-readable
/// mnemonic, whether it came from the extended table, and the identity of
/// its execution function.
#[derive(Clone, Copy, Debug)]
pub struct Instruction {
    pub addr: u16,
    pub opcode: u8,
    pub description: &'static str,
    pub is_prefixed: bool,
    pub execute: Handler,
}

impl Instruction {
    /// Creates a new `Instruction`.
    pub fn new(
        execute: Handler,
        addr: u16,
        opcode: u8,
        description: &'static str,
        is_prefixed: bool,
    ) -> (r: Self)
        ensures
            r.execute == execute,
            r.addr == addr,
            r.opcode == opcode,
            r.description == description,
            r.is_prefixed == is_prefixed,
    {
        Self { addr, opcode, description, is_prefixed, execute }
    }

    /// Creates a new instruction of the primary table.
    pub fn normal(execute: Handler, addr: u16, opcode: u8, description: &'static str) -> (r: Self)
        ensures
            r.execute == execute,
            r.addr == addr,
            r.opcode == opcode,
            r.description == description,
            r.is_prefixed == false,
    {
        Self::new(execute, addr, opcode, description, false)
    }

    /// Creates a new instruction of the extended table.
    pub fn prefixed(execute: Handler, addr: u16, opcode: u8, description: &'static str) -> (r: Self)
        ensures
            r.execute == execute,
            r.addr == addr,
            r.opcode == opcode,
            r.description == description,
            r.is_prefixed == true,
    {
        Self::new(execute, addr, opcode, description, true)
    }
}

/// NOP: no effect at all.
pub open spec fn op_00_post(pre: Cpu, post: Cpu) -> bool {
    post == pre
}

/// NOP
pub fn op_00(cpu: &mut Cpu)
    ensures
        op_00_post(*old(cpu), *final(cpu)),
{
}

} // verus!
