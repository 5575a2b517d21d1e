//! Tests of the memory address decoder: routing, the failure rules of the
//! read-only and unused regions, word access, and the initial contents.

use discogb::errors::MachineError;
use discogb::errors::MemoryOp;
use discogb::memory::Memory;

#[test]
fn test_read_write_byte() {
    let mut mem = Memory::new();
    mem.write_byte(0x8000, 0x12).unwrap();
    assert_eq!(mem.read_byte(0x8000).unwrap(), 0x12);
}

#[test]
fn test_write_byte_rom() {
    let mut mem = Memory::new();
    let err = mem.write_byte(0x0000, 0x12).unwrap_err();
    assert_eq!(
        err,
        MachineError::IllegalMemoryAccess { address: 0x0000, operation: MemoryOp::Write }
    );
}

#[test]
fn test_read_byte_unused() {
    let mem = Memory::new();
    let err = mem.read_byte(0xfea0).unwrap_err();
    assert_eq!(
        err,
        MachineError::IllegalMemoryAccess { address: 0xfea0, operation: MemoryOp::Read }
    );
}

#[test]
fn test_write_byte_unused() {
    let mut mem = Memory::new();
    let err = mem.write_byte(0xfea0, 0x12).unwrap_err();
    assert_eq!(
        err,
        MachineError::IllegalMemoryAccess { address: 0xfea0, operation: MemoryOp::Write }
    );
}

#[test]
fn test_rom_write_fails_at_top_of_region() {
    let mut mem = Memory::new();
    let err = mem.write_byte(0x7fff, 0x01).unwrap_err();
    assert_eq!(
        err,
        MachineError::IllegalMemoryAccess { address: 0x7fff, operation: MemoryOp::Write }
    );
}

#[test]
fn test_unused_region_bounds() {
    let mut mem = Memory::new();
    assert!(mem.read_byte(0xfe9f).is_ok());
    assert!(mem.read_byte(0xfea0).is_err());
    assert!(mem.read_byte(0xfeff).is_err());
    assert!(mem.read_byte(0xff00).is_ok());
    assert!(mem.write_byte(0xfe9f, 1).is_ok());
    assert!(mem.write_byte(0xfeff, 1).is_err());
    assert!(mem.write_byte(0xff00, 1).is_ok());
}

#[test]
fn test_boot_image_seeded() {
    let mem = Memory::new();
    assert_eq!(mem.read_byte(0x0000).unwrap(), 0x31);
    assert_eq!(mem.read_byte(0x0001).unwrap(), 0xfe);
    assert_eq!(mem.read_byte(0x00ff).unwrap(), 0x50);
    assert_eq!(mem.read_byte(0x0100).unwrap(), 0x00);
    assert_eq!(mem.rom.read(0x0000), 0x31);
}

#[test]
fn test_vram_sentinel_fill() {
    let mem = Memory::new();
    assert_eq!(mem.read_byte(0x8000).unwrap(), 1);
    assert_eq!(mem.read_byte(0x9fff).unwrap(), 1);
    assert_eq!(mem.read_byte(0xa000).unwrap(), 0);
}

#[test]
fn test_interrupt_enable_byte() {
    let mut mem = Memory::new();
    assert_eq!(mem.read_byte(0xffff).unwrap(), 0);
    mem.write_byte(0xffff, 0x1f).unwrap();
    assert_eq!(mem.read_byte(0xffff).unwrap(), 0x1f);
}

#[test]
fn test_word_round_trip() {
    let mut mem = Memory::new();
    mem.write_word(0xc000, 0xabcd).unwrap();
    assert_eq!(mem.read_word(0xc000).unwrap(), 0xabcd);
    assert_eq!(mem.read_byte(0xc000).unwrap(), 0xcd);
    assert_eq!(mem.read_byte(0xc001).unwrap(), 0xab);
}

#[test]
fn test_word_round_trip_across_banks() {
    let mut mem = Memory::new();
    mem.write_word(0xcfff, 0x1234).unwrap();
    assert_eq!(mem.read_word(0xcfff).unwrap(), 0x1234);
}

#[test]
fn test_write_word_rom_fails_unchanged() {
    let mut mem = Memory::new();
    let err = mem.write_word(0x7fff, 0x1234).unwrap_err();
    assert_eq!(
        err,
        MachineError::IllegalMemoryAccess { address: 0x7fff, operation: MemoryOp::Write }
    );
    assert_eq!(mem.read_byte(0x7fff).unwrap(), 0x00);
}

#[test]
fn test_write_word_fails_on_second_byte() {
    let mut mem = Memory::new();
    let err = mem.write_word(0xfe9f, 0x1234).unwrap_err();
    assert_eq!(
        err,
        MachineError::IllegalMemoryAccess { address: 0xfea0, operation: MemoryOp::Write }
    );
    // The low byte was already written when the failure was detected.
    assert_eq!(mem.read_byte(0xfe9f).unwrap(), 0x34);
}

#[test]
fn test_read_word_wraps_at_top() {
    let mut mem = Memory::new();
    mem.write_byte(0xffff, 0x07).unwrap();
    // The high byte comes from address 0x0000, the bottom of the space.
    assert_eq!(mem.read_word(0xffff).unwrap(), 0x3107);
}

#[test]
fn test_echo_ram_is_independent_backing() {
    let mut mem = Memory::new();
    mem.write_byte(0xc000, 5).unwrap();
    assert_eq!(mem.read_byte(0xe000).unwrap(), 0);
    mem.write_byte(0xe000, 9).unwrap();
    assert_eq!(mem.read_byte(0xc000).unwrap(), 5);
}

#[test]
fn test_banked_halves_are_distinct() {
    let mut mem = Memory::new();
    mem.write_byte(0xc000, 0x11).unwrap();
    mem.write_byte(0xd000, 0x22).unwrap();
    assert_eq!(mem.read_byte(0xc000).unwrap(), 0x11);
    assert_eq!(mem.read_byte(0xd000).unwrap(), 0x22);
}

#[test]
fn test_every_address_decodes_to_exactly_one_region() {
    // The region table partitions the whole space: a read succeeds at
    // every address outside the unused gap and fails only inside it.
    let mem = Memory::new();
    for value in 0..=0xffffu32 {
        let addr = value as u16;
        let unused = (0xfea0..=0xfeff).contains(&addr);
        assert_eq!(mem.read_byte(addr).is_err(), unused);
    }
}
