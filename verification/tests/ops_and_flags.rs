//! The operation set called directly: flag derivation, shifts, rotates,
//! increment/decrement, compare, bit test, logic, loads and stores.

use mpu6502::flags::{CARRY, DECIMAL, INTERRUPT, NEGATIVE, OVERFLOW, ZERO};
use mpu6502::Mpu6502;

#[test]
fn flags_nz_zero_value() {
    let mut m = Mpu6502::new();
    m.p = 0xff;
    m.FlagsNZ(0);
    assert!(m.p & ZERO != 0);
    assert!(m.p & NEGATIVE == 0);
    // Every other flag keeps its reading.
    assert!(m.p & CARRY != 0 && m.p & OVERFLOW != 0);
    assert!(m.p & DECIMAL != 0 && m.p & INTERRUPT != 0);
}

#[test]
fn flags_nz_negative_value() {
    let mut m = Mpu6502::new();
    m.p = 0x00;
    m.FlagsNZ(0x80);
    assert!(m.p & NEGATIVE != 0);
    assert!(m.p & ZERO == 0);
}

#[test]
fn flags_nz_positive_value_clears_both() {
    let mut m = Mpu6502::new();
    m.p |= ZERO | NEGATIVE;
    m.FlagsNZ(0x7f);
    assert!(m.p & ZERO == 0);
    assert!(m.p & NEGATIVE == 0);
}

#[test]
fn asl_accumulator_takes_carry_from_bit7() {
    let mut m = Mpu6502::new();
    m.acc = 0x81;
    m.opASL(None);
    assert_eq!(m.acc, 0x02);
    assert!(m.p & CARRY != 0);
    assert!(m.p & NEGATIVE == 0 && m.p & ZERO == 0);
}

#[test]
fn asl_memory_leaves_accumulator_alone() {
    let mut m = Mpu6502::new();
    m.acc = 0x55;
    m.SetByte(0x0040, 0x40);
    m.opASL(Some(0x0040));
    assert_eq!(m.ByteAt(0x0040), 0x80);
    assert_eq!(m.acc, 0x55);
    assert!(m.p & NEGATIVE != 0);
    assert!(m.p & CARRY == 0);
}

#[test]
fn asl_zero_result_sets_zero() {
    let mut m = Mpu6502::new();
    m.acc = 0x80;
    m.opASL(None);
    assert_eq!(m.acc, 0x00);
    assert!(m.p & ZERO != 0 && m.p & CARRY != 0);
}

#[test]
fn rol_shifts_carry_into_bit0_and_bit7_into_carry() {
    let mut m = Mpu6502::new();
    m.acc = 0x40;
    m.p |= CARRY;
    m.opROL(None);
    assert_eq!(m.acc, 0x81);
    assert!(m.p & CARRY == 0);
    assert!(m.p & NEGATIVE != 0);
    m.acc = 0x80;
    m.p &= !CARRY;
    m.opROL(None);
    assert_eq!(m.acc, 0x00);
    assert!(m.p & CARRY != 0);
    assert!(m.p & ZERO != 0);
}

#[test]
fn rol_memory_mode_writes_memory() {
    let mut m = Mpu6502::new();
    m.acc = 0x11;
    m.p |= CARRY;
    m.SetByte(0x0050, 0x01);
    m.opROL(Some(0x0050));
    assert_eq!(m.ByteAt(0x0050), 0x03);
    assert_eq!(m.acc, 0x11);
}

#[test]
fn lsr_takes_carry_from_bit0_never_sets_negative() {
    let mut m = Mpu6502::new();
    m.acc = 0x01;
    m.opLSR(None);
    assert_eq!(m.acc, 0x00);
    assert!(m.p & CARRY != 0);
    assert!(m.p & ZERO != 0);
    assert!(m.p & NEGATIVE == 0);
    m.acc = 0xfe;
    m.opLSR(None);
    assert_eq!(m.acc, 0x7f);
    assert!(m.p & CARRY == 0);
    assert!(m.p & NEGATIVE == 0);
}

#[test]
fn incr_wraps_0xff_to_zero() {
    let mut m = Mpu6502::new();
    m.acc = 0xff;
    m.opINCR(None);
    assert_eq!(m.acc, 0x00);
    assert!(m.p & ZERO != 0);
    m.SetByte(0x0060, 0x7f);
    m.opINCR(Some(0x0060));
    assert_eq!(m.ByteAt(0x0060), 0x80);
    assert!(m.p & NEGATIVE != 0);
}

#[test]
fn decr_wraps_zero_to_0xff() {
    let mut m = Mpu6502::new();
    m.acc = 0x00;
    m.opDECR(None);
    assert_eq!(m.acc, 0xff);
    assert!(m.p & NEGATIVE != 0);
    m.SetByte(0x0060, 0x01);
    m.opDECR(Some(0x0060));
    assert_eq!(m.ByteAt(0x0060), 0x00);
    assert!(m.p & ZERO != 0);
}

#[test]
fn cmpr_orders_register_against_memory() {
    let mut m = Mpu6502::new();
    m.SetByte(0x0010, 0x30);
    m.opCMPR(0x0010, 0x50);
    assert!(m.p & CARRY != 0 && m.p & ZERO == 0 && m.p & NEGATIVE == 0);
    m.opCMPR(0x0010, 0x30);
    assert!(m.p & CARRY != 0 && m.p & ZERO != 0 && m.p & NEGATIVE == 0);
    m.opCMPR(0x0010, 0x10);
    assert!(m.p & CARRY == 0 && m.p & ZERO == 0 && m.p & NEGATIVE != 0);
}

#[test]
fn bit_copies_bits_7_and_6_from_memory() {
    let mut m = Mpu6502::new();
    m.acc = 0x0f;
    m.SetByte(0x0020, 0xc0);
    m.opBIT(0x0020);
    assert!(m.p & ZERO != 0);
    assert!(m.p & NEGATIVE != 0);
    assert!(m.p & OVERFLOW != 0);
    m.acc = 0xc0;
    m.opBIT(0x0020);
    assert!(m.p & ZERO == 0);
}

#[test]
fn logic_ops_update_accumulator_and_flags() {
    let mut m = Mpu6502::new();
    m.acc = 0x0f;
    m.SetByte(0x0030, 0xf0);
    m.opORA(0x0030);
    assert_eq!(m.acc, 0xff);
    assert!(m.p & NEGATIVE != 0);
    m.opAND(0x0030);
    assert_eq!(m.acc, 0xf0);
    m.opEOR(0x0030);
    assert_eq!(m.acc, 0x00);
    assert!(m.p & ZERO != 0);
}

#[test]
fn loads_and_stores_move_bytes() {
    let mut m = Mpu6502::new();
    m.SetByte(0x0080, 0x42);
    m.opLDA(0x0080);
    assert_eq!(m.acc, 0x42);
    m.opLDX(0x0080);
    assert_eq!(m.x, 0x42);
    m.opLDY(0x0080);
    assert_eq!(m.y, 0x42);
    m.acc = 0x01;
    m.x = 0x02;
    m.y = 0x03;
    m.opSTA(0x0090);
    m.opSTX(0x0091);
    m.opSTY(0x0092);
    m.SetByte(0x0093, 0x77);
    m.opSTZ(0x0093);
    assert_eq!(m.ByteAt(0x0090), 0x01);
    assert_eq!(m.ByteAt(0x0091), 0x02);
    assert_eq!(m.ByteAt(0x0092), 0x03);
    assert_eq!(m.ByteAt(0x0093), 0x00);
}

#[test]
fn set_and_clr_touch_only_the_mask() {
    let mut m = Mpu6502::new();
    let before = m.p;
    m.opSET(CARRY);
    assert_eq!(m.p, before | CARRY);
    m.opCLR(CARRY);
    assert_eq!(m.p, before & !CARRY);
}

#[test]
fn bcl_and_bst_test_the_mask() {
    let mut m = Mpu6502::new();
    m.pc = 0x0500;
    m.SetByte(0x0500, 0x10); // forward displacement 0x10
    m.p &= !CARRY;
    m.opBCL(CARRY); // carry clear: branch taken from 0x0501
    assert_eq!(m.pc, 0x0511);
    m.pc = 0x0500;
    m.opBST(CARRY); // carry clear: not taken, skip operand
    assert_eq!(m.pc, 0x0501);
    m.pc = 0x0500;
    m.p |= CARRY;
    m.opBST(CARRY); // carry set: taken
    assert_eq!(m.pc, 0x0511);
    m.pc = 0x0500;
    m.opBCL(CARRY); // carry set: not taken
    assert_eq!(m.pc, 0x0501);
}

#[test]
fn reset_restores_registers_but_not_memory() {
    let mut m = Mpu6502::new();
    m.SetByte(0x1234, 0xab);
    m.acc = 1;
    m.x = 2;
    m.y = 3;
    m.sp = 7;
    m.pc = 0x9999;
    m.p = 0xff;
    m.reset();
    assert_eq!(m.pc, m.start_pc);
    assert_eq!(m.acc, 0);
    assert_eq!(m.x, 0);
    assert_eq!(m.y, 0);
    assert_eq!(m.sp, 0xff);
    assert_eq!(m.p, 0x30);
    assert_eq!(m.ByteAt(0x1234), 0xab);
}

#[test]
fn new_starts_with_power_on_defaults() {
    let m = Mpu6502::new();
    assert_eq!(m.ProgramCounter(), 0x5038);
    assert_eq!(m.sp, 0xff);
    assert_eq!(m.p, 0x30);
    assert_eq!(m.acc, 0);
    assert_eq!(m.excycles, 0);
    assert!(!m.addcycles);
    assert_eq!(m.memory.len(), 0x10000);
    assert_eq!(m.ByteAt(0x0000), 0);
    assert_eq!(m.ByteAt(0xffff), 0);
}

#[test]
fn immediate_byte_reads_at_pc() {
    let mut m = Mpu6502::new();
    m.pc = 0x0700;
    m.SetByte(0x0700, 0x5a);
    assert_eq!(m.ImmediateByte(), 0x5a);
}
