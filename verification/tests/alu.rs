//! Tests of the ALU and flag semantics, each with exact expected values
//! for the result byte and the fully determined flag byte.

use discogb::alu;

#[test]
fn increment8_wraps_and_sets_zero_and_half_carry() {
    // C was clear and stays clear.
    assert_eq!(alu::increment8(0xff, 0x00), (0x00, 0b1010_0000));
    // C was set and stays set; Z and H from the wrapped result.
    assert_eq!(alu::increment8(0xff, 0b0001_0000), (0x00, 0b1011_0000));
    // No half carry below the nibble boundary.
    assert_eq!(alu::increment8(0x41, 0x00), (0x42, 0b0000_0000));
    assert_eq!(alu::increment8(0x0f, 0x00), (0x10, 0b0010_0000));
}

#[test]
fn decrement8_sets_subtract_and_half_borrow() {
    assert_eq!(alu::decrement8(0x00, 0x00), (0xff, 0b0110_0000));
    assert_eq!(alu::decrement8(0x01, 0x00), (0x00, 0b1100_0000));
    assert_eq!(alu::decrement8(0x10, 0x00), (0x0f, 0b0110_0000));
}

#[test]
fn add8_half_carry_case() {
    assert_eq!(alu::add8(0x0f, 0x01), (0x10, 0b0010_0000));
}

#[test]
fn add8_carry_and_zero() {
    assert_eq!(alu::add8(0xff, 0x01), (0x00, 0b1011_0000));
    assert_eq!(alu::add8(0x80, 0x80), (0x00, 0b1001_0000));
    assert_eq!(alu::add8(0x01, 0x02), (0x03, 0b0000_0000));
}

#[test]
fn compare_flags() {
    assert_eq!(alu::compare(5, 5, 0x00), 0b1100_0000);
    // 3 < 5 with a borrow out of bit 3: N, H and C.
    assert_eq!(alu::compare(3, 5, 0x00), 0b0111_0000);
    assert_eq!(alu::compare(5, 3, 0x00), 0b0100_0000);
    // The lower nibble of the incoming flag byte is carried through.
    assert_eq!(alu::compare(5, 5, 0x0f), 0b1100_1111);
}

#[test]
fn sub_flags() {
    assert_eq!(alu::sub(0x10, 0x01, 0x00), (0x0f, 0b0110_0000));
    assert_eq!(alu::sub(0x42, 0x42, 0x00), (0x00, 0b1100_0000));
    assert_eq!(alu::sub(0x00, 0x01, 0x00), (0xff, 0b0111_0000));
}

#[test]
fn sbc_subtracts_incoming_carry() {
    // No incoming carry: plain subtraction.
    assert_eq!(alu::sbc(0x05, 0x03, 0x00), (0x02, 0b0100_0000));
    // Incoming carry: one more is subtracted.
    assert_eq!(alu::sbc(0x05, 0x03, 0b0001_0000), (0x01, 0b0100_0000));
    // Full borrow with wraparound to zero.
    assert_eq!(alu::sbc(0x00, 0xff, 0b0001_0000), (0x00, 0b1111_0000));
    // Equal operands plus carry still borrow.
    assert_eq!(alu::sbc(0xff, 0xff, 0b0001_0000), (0xff, 0b0111_0000));
}

#[test]
fn xor_clears_everything_but_zero() {
    assert_eq!(alu::xor(0xaa, 0xaa, 0xff), (0x00, 0b1000_1111));
    assert_eq!(alu::xor(0xf0, 0x0f, 0x00), (0xff, 0b0000_0000));
}

#[test]
fn add16_half_carry_from_bit_11_keeps_zero_flag() {
    assert_eq!(alu::add16(0x0fff, 0x0001, 0b1000_0000), (0x1000, 0b1010_0000));
    assert_eq!(alu::add16(0xffff, 0x0001, 0x00), (0x0000, 0b0011_0000));
    assert_eq!(alu::add16(0x1000, 0x0234, 0x00), (0x1234, 0b0000_0000));
}

#[test]
fn increment16_and_decrement16_wrap_without_flags() {
    assert_eq!(alu::increment16(0xffff), 0x0000);
    assert_eq!(alu::increment16(0x1233), 0x1234);
    assert_eq!(alu::decrement16(0x0000), 0xffff);
    assert_eq!(alu::decrement16(0x1234), 0x1233);
}

#[test]
fn rotate_left_carries_top_bit_out_and_clears_zero() {
    assert_eq!(alu::rotate_left(0x80, 0x00), (0x01, 0b0001_0000));
    assert_eq!(alu::rotate_left(0x41, 0x00), (0x82, 0b0000_0000));
    // Z is cleared unconditionally for the simple rotate.
    assert_eq!(alu::rotate_left(0x00, 0b1000_0000), (0x00, 0b0000_0000));
}

#[test]
fn rotate_right_carries_bottom_bit_out_and_clears_zero() {
    assert_eq!(alu::rotate_right(0x01, 0x00), (0x80, 0b0001_0000));
    assert_eq!(alu::rotate_right(0x82, 0x00), (0x41, 0b0000_0000));
    // Z is cleared unconditionally for the simple rotate.
    assert_eq!(alu::rotate_right(0x00, 0b1000_0000), (0x00, 0b0000_0000));
}

#[test]
fn rotate_through_carry_shifts_old_carry_in() {
    assert_eq!(alu::rotate_left_through_carry(0x80, 0x00), (0x00, 0b1001_0000));
    assert_eq!(alu::rotate_left_through_carry(0x00, 0b0001_0000), (0x01, 0b0000_0000));
    assert_eq!(alu::rotate_right_through_carry(0x01, 0x00), (0x00, 0b1001_0000));
    assert_eq!(alu::rotate_right_through_carry(0x00, 0b0001_0000), (0x80, 0b0000_0000));
}

#[test]
fn bit_test_sets_zero_from_the_tested_bit() {
    assert_eq!(alu::bit(7, 0x80, 0x00), 0b0010_0000);
    assert_eq!(alu::bit(7, 0x00, 0x00), 0b1010_0000);
    assert_eq!(alu::bit(0, 0x01, 0b0001_0000), 0b0011_0000);
}
