//! Stack discipline, memory word reads with and without the page-wrap
//! bug, addressing modes, and extra-cycle accounting.

use mpu6502::Mpu6502;

#[test]
fn stack_word_round_trip_returns_original() {
    let mut m = Mpu6502::new();
    m.stPushWord(0xbeef);
    assert_eq!(m.stPopWord(), 0xbeef);
    assert_eq!(m.sp, 0xff);
}

#[test]
fn stack_word_push_stores_high_byte_first() {
    let mut m = Mpu6502::new();
    m.stPushWord(0x1234);
    assert_eq!(m.ByteAt(0x01ff), 0x12);
    assert_eq!(m.ByteAt(0x01fe), 0x34);
    assert_eq!(m.sp, 0xfd);
}

#[test]
fn stack_byte_push_pop_wraps_index() {
    let mut m = Mpu6502::new();
    m.sp = 0x00;
    m.stPush(0x77);
    assert_eq!(m.ByteAt(0x0100), 0x77);
    assert_eq!(m.sp, 0xff);
    assert_eq!(m.stPop(), 0x77);
    assert_eq!(m.sp, 0x00);
}

#[test]
fn two_hundred_fifty_six_pushes_wrap_sp_back() {
    let mut m = Mpu6502::new();
    for i in 0..256u32 {
        m.stPush(i as u8);
    }
    assert_eq!(m.sp, 0xff);
}

#[test]
fn word_at_crosses_pages_without_wrapping() {
    let mut m = Mpu6502::new();
    m.SetByte(0x01ff, 0x34);
    m.SetByte(0x0200, 0x56);
    m.SetByte(0x0100, 0x12);
    assert_eq!(m.WordAt(0x01ff), 0x5634);
}

#[test]
fn wrap_at_takes_high_byte_from_start_of_same_page() {
    // A pointer stored at 0x01ff/0x0200 resolves its high byte from
    // 0x0100, not 0x0200: the hardware's page-wrap bug.
    let mut m = Mpu6502::new();
    m.SetByte(0x01ff, 0x34);
    m.SetByte(0x0100, 0x12);
    m.SetByte(0x0200, 0x56);
    assert_eq!(m.WrapAt(0x01ff), 0x1234);
}

#[test]
fn word_at_top_of_memory_wraps_to_address_zero() {
    let mut m = Mpu6502::new();
    m.SetByte(0xffff, 0xcd);
    m.SetByte(0x0000, 0xab);
    assert_eq!(m.WordAt(0xffff), 0xabcd);
}

#[test]
fn byte_at_and_set_byte_round_trip() {
    let mut m = Mpu6502::new();
    m.SetByte(0xfffc, 0x99);
    assert_eq!(m.ByteAt(0xfffc), 0x99);
}

#[test]
fn zero_page_modes_wrap_within_page_zero() {
    let mut m = Mpu6502::new();
    m.pc = 0x0300;
    m.SetByte(0x0300, 0xf0);
    assert_eq!(m.ZeroPageAddr(), 0x00f0);
    m.x = 0x20;
    assert_eq!(m.ZeroPageXAddr(), 0x0010);
    m.y = 0x11;
    assert_eq!(m.ZeroPageYAddr(), 0x0001);
}

#[test]
fn absolute_modes_index_over_the_whole_space() {
    let mut m = Mpu6502::new();
    m.pc = 0x0300;
    m.SetByte(0x0300, 0xf0);
    m.SetByte(0x0301, 0x10);
    assert_eq!(m.AbsoluteAddr(), 0x10f0);
    m.x = 0x20;
    assert_eq!(m.AbsoluteXAddr(), 0x1110);
    m.y = 0x05;
    assert_eq!(m.AbsoluteYAddr(), 0x10f5);
}

#[test]
fn absolute_x_charges_extra_cycle_only_on_page_cross() {
    let mut m = Mpu6502::new();
    m.addcycles = true;
    m.pc = 0x0300;
    m.SetByte(0x0300, 0xf0);
    m.SetByte(0x0301, 0x10);
    m.x = 0x20;
    m.AbsoluteXAddr();
    assert_eq!(m.excycles, 1);
    m.x = 0x01;
    m.AbsoluteXAddr();
    assert_eq!(m.excycles, 1);
}

#[test]
fn absolute_y_honours_the_addcycles_toggle() {
    let mut m = Mpu6502::new();
    m.addcycles = false;
    m.pc = 0x0300;
    m.SetByte(0x0300, 0xf0);
    m.SetByte(0x0301, 0x10);
    m.y = 0x20;
    let r = m.AbsoluteYAddr();
    assert_eq!(r, 0x1110);
    assert_eq!(m.excycles, 0);
    m.addcycles = true;
    let r2 = m.AbsoluteYAddr();
    assert_eq!(r2, 0x1110);
    assert_eq!(m.excycles, 1);
}

#[test]
fn indirect_x_wraps_pointer_within_page_zero() {
    let mut m = Mpu6502::new();
    m.pc = 0x0300;
    m.SetByte(0x0300, 0xfe);
    m.x = 0x01;
    // Pointer location 0xff: low byte at 0x00ff, high byte wraps to 0x0000.
    m.SetByte(0x00ff, 0x34);
    m.SetByte(0x0000, 0x12);
    assert_eq!(m.IndirectXAddr(), 0x1234);
}

#[test]
fn indirect_y_adds_y_after_the_indirection() {
    let mut m = Mpu6502::new();
    m.addcycles = true;
    m.pc = 0x0300;
    m.SetByte(0x0300, 0x40);
    m.SetByte(0x0040, 0xf0);
    m.SetByte(0x0041, 0x10);
    m.y = 0x20;
    let r = m.IndirectYAddr();
    assert_eq!(r, 0x1110);
    assert_eq!(m.excycles, 1);
    m.y = 0x01;
    let r2 = m.IndirectYAddr();
    assert_eq!(r2, 0x10f1);
    assert_eq!(m.excycles, 1);
}

#[test]
fn zero_page_indirect_uses_plain_word_read() {
    let mut m = Mpu6502::new();
    m.pc = 0x0300;
    m.SetByte(0x0300, 0x40);
    m.SetByte(0x0040, 0x78);
    m.SetByte(0x0041, 0x56);
    assert_eq!(m.ZeroPageIndirectAddr(), 0x5678);
}

#[test]
fn taken_branch_charges_one_cycle_and_one_more_on_page_cross() {
    let mut m = Mpu6502::new();
    m.pc = 0x0310;
    m.SetByte(0x0310, 0x10);
    m.BranchRelAddr();
    assert_eq!(m.pc, 0x0321);
    assert_eq!(m.excycles, 1);
    // A branch whose target lies on another page charges one more.
    let mut m2 = Mpu6502::new();
    m2.pc = 0x03f0;
    m2.SetByte(0x03f0, 0x7f);
    m2.BranchRelAddr();
    assert_eq!(m2.pc, 0x0470);
    assert_eq!(m2.excycles, 2);
}

#[test]
fn forward_branch_displacement_is_unsigned_below_0x80() {
    let mut m = Mpu6502::new();
    m.pc = 0x1000;
    m.SetByte(0x1000, 0x7f);
    m.BranchRelAddr();
    assert_eq!(m.pc, 0x1080);
}
