//! The two fatal error conditions of the machine: an illegal memory access
//! and an opcode missing from the decode tables.  Both carry the offending
//! address or opcode so that a diagnostic can name it exactly.

use vstd::prelude::*;

verus! {

/// Whether a memory access was a read or a write; part of the diagnostic
/// carried by an illegal-access error.
#[derive(Clone, Copy, Debug, PartialEq, Eq, Structural)]
pub enum MemoryOp {
    Read,
    Write,
}

/// A fatal, unrecoverable condition raised by the machine.  There is no
/// degraded mode: the processor either executes a fully supported program or
/// it stops with one of these.
#[derive(Clone, Copy, Debug, PartialEq, Eq, Structural)]
pub enum MachineError {
    /// A write to the read-only region or any access to the unused region,
    /// with the exact 16-bit address and the direction of the access.
    IllegalMemoryAccess { address: u16, operation: MemoryOp },
    /// An opcode value absent from the active decode table, with the value
    /// and whether it came from the extended (escape-prefixed) table.
    UnimplementedOpcode { opcode: u8, is_extended: bool },
}

} // verus!
