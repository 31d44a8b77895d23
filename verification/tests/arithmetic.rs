//! ADC and SBC in binary and decimal mode, including the round-trip
//! identity and the BCD laws on concrete values, and the dispatch table.

use mpu6502::flags::{CARRY, DECIMAL, NEGATIVE, OVERFLOW, ZERO};
use mpu6502::{AddrMode, Instruction, MemOp, Mpu6502};

#[test]
fn adc_binary_carry_out_and_zero() {
    let mut m = Mpu6502::new();
    m.acc = 0xff;
    m.SetByte(0x0010, 0x01);
    m.opADC(0x0010);
    assert_eq!(m.acc, 0x00);
    assert!(m.p & CARRY != 0);
    assert!(m.p & ZERO != 0);
    assert!(m.p & OVERFLOW == 0);
}

#[test]
fn adc_binary_uses_incoming_carry() {
    let mut m = Mpu6502::new();
    m.acc = 0x01;
    m.p |= CARRY;
    m.SetByte(0x0010, 0x01);
    m.opADC(0x0010);
    assert_eq!(m.acc, 0x03);
    assert!(m.p & CARRY == 0);
}

#[test]
fn sbc_binary_subtracts_with_borrow_semantics() {
    let mut m = Mpu6502::new();
    m.acc = 0x50;
    m.p |= CARRY; // carry set: no incoming borrow
    m.SetByte(0x0010, 0x20);
    m.opSBC(0x0010);
    assert_eq!(m.acc, 0x30);
    assert!(m.p & CARRY != 0);
    let mut m2 = Mpu6502::new();
    m2.acc = 0x20;
    m2.p |= CARRY;
    m2.SetByte(0x0010, 0x50);
    m2.opSBC(0x0010);
    assert_eq!(m2.acc, 0xd0);
    assert!(m2.p & CARRY == 0);
    assert!(m2.p & NEGATIVE != 0);
}

#[test]
fn sbc_with_complemented_carry_undoes_adc() {
    // ADC with carry-in 0, then SBC of the same operand with carry-in 1,
    // restores the accumulator.
    let mut m = Mpu6502::new();
    m.acc = 0x37;
    m.p &= !CARRY;
    m.SetByte(0x0010, 0x2a);
    m.opADC(0x0010);
    assert_eq!(m.acc, 0x61);
    m.p |= CARRY;
    m.opSBC(0x0010);
    assert_eq!(m.acc, 0x37);
    // And with carry-in 1 for the ADC, carry-in 0 for the SBC.
    let mut m2 = Mpu6502::new();
    m2.acc = 0x90;
    m2.p |= CARRY;
    m2.SetByte(0x0010, 0x85);
    m2.opADC(0x0010);
    assert_eq!(m2.acc, 0x16);
    m2.p &= !CARRY;
    m2.opSBC(0x0010);
    assert_eq!(m2.acc, 0x90);
}

#[test]
fn adc_decimal_produces_bcd_sum() {
    let mut m = Mpu6502::new();
    m.p |= DECIMAL;
    m.acc = 0x29;
    m.SetByte(0x0010, 0x13);
    m.opADC(0x0010);
    assert_eq!(m.acc, 0x42);
    assert!(m.p & CARRY == 0);
}

#[test]
fn adc_decimal_carries_past_ninety_nine() {
    let mut m = Mpu6502::new();
    m.p |= DECIMAL;
    m.acc = 0x58;
    m.SetByte(0x0010, 0x46);
    m.opADC(0x0010);
    assert_eq!(m.acc, 0x04);
    assert!(m.p & CARRY != 0);
}

#[test]
fn adc_decimal_low_nibble_correction() {
    let mut m = Mpu6502::new();
    m.p |= DECIMAL;
    m.acc = 0x09;
    m.SetByte(0x0010, 0x01);
    m.opADC(0x0010);
    assert_eq!(m.acc, 0x10);
    assert!(m.p & CARRY == 0);
}

#[test]
fn sbc_decimal_produces_bcd_difference() {
    let mut m = Mpu6502::new();
    m.p |= DECIMAL | CARRY;
    m.acc = 0x50;
    m.SetByte(0x0010, 0x21);
    m.opSBC(0x0010);
    assert_eq!(m.acc, 0x29);
    assert!(m.p & CARRY != 0);
}

#[test]
fn sbc_decimal_borrows_past_zero() {
    let mut m = Mpu6502::new();
    m.p |= DECIMAL | CARRY;
    m.acc = 0x12;
    m.SetByte(0x0010, 0x21);
    m.opSBC(0x0010);
    // 12 - 21 = -9, modulo 100: 91, with the carry (no-borrow) flag clear.
    assert_eq!(m.acc, 0x91);
    assert!(m.p & CARRY == 0);
}

#[test]
fn sbc_decimal_uses_incoming_borrow() {
    let mut m = Mpu6502::new();
    m.p |= DECIMAL;
    m.p &= !CARRY; // incoming borrow
    m.acc = 0x50;
    m.SetByte(0x0010, 0x21);
    m.opSBC(0x0010);
    assert_eq!(m.acc, 0x28);
    assert!(m.p & CARRY != 0);
}

#[test]
fn adc_through_every_addressing_mode_entry() {
    // ADC zero-page: opcode 0x65.
    let mut m = Mpu6502::new();
    m.pc = 0x0200;
    m.acc = 0x10;
    m.SetByte(0x0200, 0x65);
    m.SetByte(0x0201, 0x44);
    m.SetByte(0x0044, 0x05);
    m.step();
    assert_eq!(m.acc, 0x15);
    assert_eq!(m.pc, 0x0202);
    // ADC absolute: opcode 0x6d, two operand bytes.
    m.SetByte(0x0202, 0x6d);
    m.SetByte(0x0203, 0x00);
    m.SetByte(0x0204, 0x30);
    m.SetByte(0x3000, 0x0b);
    m.step();
    assert_eq!(m.acc, 0x20);
    assert_eq!(m.pc, 0x0205);
    // ADC indirect,X: opcode 0x61.
    m.x = 0x04;
    m.SetByte(0x0205, 0x61);
    m.SetByte(0x0206, 0x20);
    m.SetByte(0x0024, 0x00);
    m.SetByte(0x0025, 0x40);
    m.SetByte(0x4000, 0x03);
    m.step();
    assert_eq!(m.acc, 0x23);
    assert_eq!(m.pc, 0x0207);
    // ADC indirect,Y: opcode 0x71.
    m.y = 0x02;
    m.SetByte(0x0207, 0x71);
    m.SetByte(0x0208, 0x30);
    m.SetByte(0x0030, 0x00);
    m.SetByte(0x0031, 0x50);
    m.SetByte(0x5002, 0x07);
    m.step();
    assert_eq!(m.acc, 0x2a);
    assert_eq!(m.pc, 0x0209);
}

#[test]
fn decode_maps_known_and_unknown_opcodes() {
    assert_eq!(
        mpu6502::decode::decode(0xa9),
        Instruction::Mem(MemOp::Lda, AddrMode::Immediate)
    );
    assert_eq!(
        mpu6502::decode::decode(0xfd),
        Instruction::Mem(MemOp::Sbc, AddrMode::AbsoluteX)
    );
    assert_eq!(mpu6502::decode::decode(0x00), Instruction::Brk);
    assert_eq!(mpu6502::decode::decode(0x80), Instruction::BranchAlways);
    assert_eq!(mpu6502::decode::decode(0xff), Instruction::Unknown);
    assert_eq!(mpu6502::decode::decode(0x02), Instruction::Unknown);
}

#[test]
fn operand_length_matches_mode_widths() {
    assert_eq!(mpu6502::decode::operand_length(AddrMode::Immediate), 1);
    assert_eq!(mpu6502::decode::operand_length(AddrMode::Absolute), 2);
    assert_eq!(mpu6502::decode::operand_length(AddrMode::AbsoluteY), 2);
    assert_eq!(mpu6502::decode::operand_length(AddrMode::IndirectX), 1);
}

#[test]
fn store_via_zero_page_indirect_opcode() {
    let mut m = Mpu6502::new();
    m.pc = 0x0200;
    m.acc = 0x5e;
    m.SetByte(0x0200, 0x92);
    m.SetByte(0x0201, 0x10);
    m.SetByte(0x0010, 0x00);
    m.SetByte(0x0011, 0x60);
    m.step();
    assert_eq!(m.ByteAt(0x6000), 0x5e);
    assert_eq!(m.pc, 0x0202);
}

#[test]
fn inc_and_dec_memory_opcodes() {
    let mut m = Mpu6502::new();
    m.pc = 0x0200;
    m.SetByte(0x0200, 0xe6); // INC zero page
    m.SetByte(0x0201, 0x42);
    m.SetByte(0x0042, 0x0f);
    m.step();
    assert_eq!(m.ByteAt(0x0042), 0x10);
    m.SetByte(0x0202, 0xc6); // DEC zero page
    m.SetByte(0x0203, 0x42);
    m.step();
    assert_eq!(m.ByteAt(0x0042), 0x0f);
}
