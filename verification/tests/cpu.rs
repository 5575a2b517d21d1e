//! Tests of the execution engine: fetch-decode-execute, the flag
//! accessors, the stack, and the totality of the decode tables.

use discogb::cpu::Cpu;
use discogb::errors::MachineError;
use discogb::errors::MemoryOp;
use discogb::instructions::Handler;
use discogb::memory::Memory;

fn fresh_cpu() -> Cpu {
    Cpu::new(Memory::new())
}

#[test]
fn fetch_decode_execute() {
    let mem = Memory::new();
    let mut cpu = Cpu::new(mem);
    let prev_pc = cpu.pc;
    let opcode = cpu.next_byte().unwrap();
    let instr = cpu.decode(opcode, Some(prev_pc)).unwrap();
    cpu.execute(instr).unwrap();
    // The first bootstrap instruction is LD SP, u16: one opcode byte and a
    // two-byte operand, which loads the stack pointer.
    assert_eq!(cpu.pc, 0x03);
    assert_eq!(cpu.sp, 0xfffe);
}

#[test]
fn mod_fetch_decode_execute() {
    let mem = Memory::new();
    let mut cpu = Cpu::new(mem);
    let prev_pc = cpu.pc;
    let opcode = cpu.next_byte().unwrap();
    assert_eq!(opcode, 0x31);
    let instr = cpu.decode(opcode, Some(prev_pc)).unwrap();
    assert_eq!(instr.addr, 0x00);
    assert_eq!(instr.opcode, 0x31);
    assert_eq!(instr.description, "LD SP, u16");
    assert!(!instr.is_prefixed);
    cpu.execute(instr).unwrap();
    assert_eq!(cpu.pc, 0x03);
}

#[test]
fn flag_getters_and_setters() {
    let mut cpu = fresh_cpu();
    assert_eq!(cpu.get_flag_z(), 0);
    cpu.set_flag_z(true);
    cpu.set_flag_c(true);
    assert_eq!(cpu.get_flag_z(), 1);
    assert_eq!(cpu.get_flag_n(), 0);
    assert_eq!(cpu.get_flag_h(), 0);
    assert_eq!(cpu.get_flag_c(), 1);
    assert_eq!(cpu.regs.f, 0b1001_0000);
    cpu.set_flag_z(false);
    cpu.set_flag_n(true);
    cpu.set_flag_h(true);
    cpu.set_flag_c(false);
    assert_eq!(cpu.regs.f, 0b0110_0000);
}

#[test]
fn stack_push_pop_round_trip() {
    let mut cpu = fresh_cpu();
    cpu.sp = 0xfffe;
    cpu.push_stack(0xbeef).unwrap();
    assert_eq!(cpu.sp, 0xfffc);
    let value = cpu.pop_stack().unwrap();
    assert_eq!(value, 0xbeef);
    assert_eq!(cpu.sp, 0xfffe);
}

#[test]
fn stack_push_into_rom_fails() {
    let mut cpu = fresh_cpu();
    cpu.sp = 0x0002;
    let err = cpu.push_stack(0x1234).unwrap_err();
    assert_eq!(
        err,
        MachineError::IllegalMemoryAccess { address: 0x0000, operation: MemoryOp::Write }
    );
}

#[test]
fn next_byte_reads_at_pc_and_advances() {
    let mut cpu = fresh_cpu();
    assert_eq!(cpu.next_byte().unwrap(), 0x31);
    assert_eq!(cpu.pc, 1);
    assert_eq!(cpu.next_byte().unwrap(), 0xfe);
    assert_eq!(cpu.pc, 2);
}

#[test]
fn next_word_reads_little_endian() {
    let mut cpu = fresh_cpu();
    cpu.pc = 1;
    assert_eq!(cpu.next_word().unwrap(), 0xfffe);
    assert_eq!(cpu.pc, 3);
}

#[test]
fn decode_covers_every_primary_opcode() {
    let implemented: [u8; 52] = [
        0x00, 0x04, 0x05, 0x06, 0x0c, 0x0d, 0x0e, 0x11, 0x13, 0x15,
        0x16, 0x17, 0x18, 0x19, 0x1a, 0x1c, 0x1d, 0x1e, 0x20, 0x21,
        0x22, 0x23, 0x24, 0x28, 0x2e, 0x31, 0x32, 0x3c, 0x3d, 0x3e,
        0x4f, 0x57, 0x67, 0x77, 0x78, 0x7b, 0x7c, 0x7d, 0x86, 0x90,
        0x9f, 0xaf, 0xbe, 0xc1, 0xc5, 0xc9, 0xcd, 0xe0, 0xe2, 0xea,
        0xf0, 0xfe,
    ];
    let mut cpu = fresh_cpu();
    for opcode in implemented.iter() {
        let instr = cpu.decode(*opcode, Some(0x1234)).unwrap();
        assert!(!instr.is_prefixed);
        assert_eq!(instr.opcode, *opcode);
        assert_eq!(instr.addr, 0x1234);
    }
    // Every opcode absent from the table is an explicit decode error.
    for value in 0..=255u16 {
        let opcode = value as u8;
        if opcode == 0xcb || implemented.contains(&opcode) {
            continue;
        }
        let err = cpu.decode(opcode, Some(0)).unwrap_err();
        assert_eq!(err, MachineError::UnimplementedOpcode { opcode, is_extended: false });
    }
}

#[test]
fn decode_extended_table() {
    // The bootstrap image holds the escape opcode at address 8, followed
    // by 0x7c, and at address 153, followed by 0x11.
    let mut cpu = fresh_cpu();
    cpu.pc = 9;
    let instr = cpu.decode(0xcb, Some(8)).unwrap();
    assert!(instr.is_prefixed);
    assert_eq!(instr.opcode, 0x7c);
    assert_eq!(instr.execute, Handler::OpCb7c);
    assert_eq!(cpu.pc, 10);

    cpu.pc = 154;
    let instr = cpu.decode(0xcb, Some(153)).unwrap();
    assert!(instr.is_prefixed);
    assert_eq!(instr.opcode, 0x11);
    assert_eq!(instr.execute, Handler::OpCb11);

    // An extended opcode absent from the table fails as extended, with the
    // byte that was actually fetched (0xfe at address 1).
    cpu.pc = 1;
    let err = cpu.decode(0xcb, Some(0)).unwrap_err();
    assert_eq!(err, MachineError::UnimplementedOpcode { opcode: 0xfe, is_extended: true });
}

#[test]
fn step_reports_unimplemented_opcode() {
    // The bootstrap image holds 0x47 (not in the table) at address 32.
    let mut cpu = fresh_cpu();
    cpu.pc = 32;
    let err = cpu.step().unwrap_err();
    assert_eq!(err, MachineError::UnimplementedOpcode { opcode: 0x47, is_extended: false });
    assert_eq!(cpu.pc, 33);
}

#[test]
fn step_fails_fetching_from_unused_region() {
    let mut cpu = fresh_cpu();
    cpu.pc = 0xfea0;
    let err = cpu.step().unwrap_err();
    assert_eq!(
        err,
        MachineError::IllegalMemoryAccess { address: 0xfea0, operation: MemoryOp::Read }
    );
    assert_eq!(cpu.pc, 0xfea0);
}

#[test]
fn step_returns_the_trace_record() {
    let mut cpu = fresh_cpu();
    let instr = cpu.step().unwrap();
    assert_eq!(instr.addr, 0x0000);
    assert_eq!(instr.opcode, 0x31);
    assert_eq!(instr.description, "LD SP, u16");
    assert!(!instr.is_prefixed);
}

#[test]
fn run_steps_through_the_bootstrap_prologue() {
    let mut cpu = fresh_cpu();
    cpu.run(10).unwrap();
    // After LD SP and XOR A the stack pointer and accumulator are set.
    assert_eq!(cpu.sp, 0xfffe);
    assert_eq!(cpu.regs.a, 0);
}
