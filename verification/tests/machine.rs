//! Whole-machine scenarios: small programs seeded into the read-only
//! region's first bank and stepped through the engine.

use discogb::gameboy::GameBoy;

/// Replaces the start of ROM bank 0 with the given program bytes.
fn load_program(gb: &mut GameBoy, program: &[u8]) {
    for (i, byte) in program.iter().enumerate() {
        gb.cpu.mem.rom.bank0[i] = *byte;
    }
}

#[test]
fn load_and_increment_scenario() {
    let mut gb = GameBoy::new();
    // LD A, 5; INC A.
    load_program(&mut gb, &[0x3e, 0x05, 0x3c]);
    gb.cpu.step().unwrap();
    gb.cpu.step().unwrap();
    assert_eq!(gb.cpu.regs.a, 6);
    assert_eq!(gb.cpu.get_flag_z(), 0);
    assert_eq!(gb.cpu.pc, 3);
}

#[test]
fn relative_jump_taken_and_not_taken() {
    let mut gb = GameBoy::new();
    // XOR A, A (sets Z); JR Z, +2; then (skipped) two bytes; INC A.
    load_program(&mut gb, &[0xaf, 0x28, 0x02, 0x00, 0x00, 0x3c]);
    gb.cpu.step().unwrap();
    assert_eq!(gb.cpu.get_flag_z(), 1);
    gb.cpu.step().unwrap();
    assert_eq!(gb.cpu.pc, 5);
    gb.cpu.step().unwrap();
    assert_eq!(gb.cpu.regs.a, 1);

    let mut gb = GameBoy::new();
    // LD A, 1; then JR NZ, -3 jumps back to address 0.
    load_program(&mut gb, &[0x3e, 0x01, 0x20, 0xfc]);
    gb.cpu.step().unwrap();
    gb.cpu.step().unwrap();
    assert_eq!(gb.cpu.pc, 0x0000);
}

#[test]
fn call_and_return() {
    let mut gb = GameBoy::new();
    // LD SP, 0xfffe; CALL 0x0008; NOP; ...; at 0x0008: RET.
    load_program(&mut gb, &[0x31, 0xfe, 0xff, 0xcd, 0x08, 0x00, 0x00, 0x00, 0xc9]);
    gb.cpu.step().unwrap();
    gb.cpu.step().unwrap();
    assert_eq!(gb.cpu.pc, 0x0008);
    assert_eq!(gb.cpu.sp, 0xfffc);
    gb.cpu.step().unwrap();
    // RET pops the address of the instruction after the call.
    assert_eq!(gb.cpu.pc, 0x0006);
    assert_eq!(gb.cpu.sp, 0xfffe);
}

#[test]
fn store_and_load_through_hl() {
    let mut gb = GameBoy::new();
    // LD HL, 0x8010; LD A, 0x2a; LD (HL-), A; then the value sits in VRAM
    // and HL has moved down by one.
    load_program(&mut gb, &[0x21, 0x10, 0x80, 0x3e, 0x2a, 0x32]);
    gb.cpu.run(3).unwrap();
    assert_eq!(gb.cpu.mem.read_byte(0x8010).unwrap(), 0x2a);
    assert_eq!(gb.cpu.regs.hl(), 0x800f);
}

#[test]
fn push_and_pop_bc_through_instructions() {
    let mut gb = GameBoy::new();
    // LD SP, 0xfffe; LD DE, 0x1234; PUSH BC would need BC, so set BC by
    // registers directly, push it and pop it back after clearing.
    load_program(&mut gb, &[0x31, 0xfe, 0xff, 0xc5, 0xc1]);
    gb.cpu.step().unwrap();
    gb.cpu.regs.set_bc(0x4321);
    gb.cpu.step().unwrap();
    gb.cpu.regs.set_bc(0x0000);
    gb.cpu.step().unwrap();
    assert_eq!(gb.cpu.regs.bc(), 0x4321);
    assert_eq!(gb.cpu.sp, 0xfffe);
}

#[test]
fn io_page_store_and_load() {
    let mut gb = GameBoy::new();
    // LD A, 0x5a; LD (FF00 + 0x42), A; LD A, (FF00 + 0x42).
    load_program(&mut gb, &[0x3e, 0x5a, 0xe0, 0x42, 0x3e, 0x00, 0xf0, 0x42]);
    gb.cpu.run(4).unwrap();
    assert_eq!(gb.cpu.mem.read_byte(0xff42).unwrap(), 0x5a);
    assert_eq!(gb.cpu.regs.a, 0x5a);
}

#[test]
fn machine_runs_the_bootstrap_prologue() {
    let mut gb = GameBoy::new();
    gb.run(50).unwrap();
    // The bootstrap clears the accumulator and walks HL down through VRAM.
    assert_eq!(gb.cpu.sp, 0xfffe);
    assert_eq!(gb.cpu.regs.a, 0);
}

#[test]
fn compare_leaves_the_accumulator_untouched() {
    let mut gb = GameBoy::new();
    // LD A, 0x33; CP A, 0x33: only the flags change.
    load_program(&mut gb, &[0x3e, 0x33, 0xfe, 0x33]);
    gb.cpu.step().unwrap();
    gb.cpu.step().unwrap();
    assert_eq!(gb.cpu.regs.a, 0x33);
    assert_eq!(gb.cpu.get_flag_z(), 1);
    assert_eq!(gb.cpu.get_flag_n(), 1);
}
