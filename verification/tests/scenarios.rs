//! End-to-end scenarios driven through `step`.

use mpu6502::flags::{BREAK, CARRY, DECIMAL, INTERRUPT, NEGATIVE, OVERFLOW, UNUSED, ZERO};
use mpu6502::Mpu6502;

#[test]
fn lda_immediate_zero_sets_zero_clears_negative() {
    let mut m = Mpu6502::new();
    m.pc = 0x0200;
    m.acc = 0x55;
    m.SetByte(0x0200, 0xa9);
    m.SetByte(0x0201, 0x00);
    m.step();
    assert_eq!(m.acc, 0x00);
    assert!(m.p & ZERO != 0);
    assert!(m.p & NEGATIVE == 0);
    assert_eq!(m.pc, 0x0202);
}

#[test]
fn lda_immediate_0x80_sets_negative_clears_zero() {
    let mut m = Mpu6502::new();
    m.pc = 0x0200;
    m.SetByte(0x0200, 0xa9);
    m.SetByte(0x0201, 0x80);
    m.step();
    assert_eq!(m.acc, 0x80);
    assert!(m.p & NEGATIVE != 0);
    assert!(m.p & ZERO == 0);
}

#[test]
fn adc_binary_0x50_plus_0x50_overflows_without_carry() {
    let mut m = Mpu6502::new();
    m.pc = 0x0200;
    m.acc = 0x50;
    // Decimal and Carry are clear in the power-on status register.
    assert!(m.p & DECIMAL == 0 && m.p & CARRY == 0);
    m.SetByte(0x0200, 0x69);
    m.SetByte(0x0201, 0x50);
    m.step();
    assert_eq!(m.acc, 0xa0);
    assert!(m.p & OVERFLOW != 0);
    assert!(m.p & CARRY == 0);
    assert!(m.p & NEGATIVE != 0);
}

#[test]
fn brk_pushes_state_and_jumps_through_irq_vector() {
    let mut m = Mpu6502::new();
    m.pc = 0x1000;
    m.SetByte(0x1000, 0x00);
    m.SetByte(0xfffe, 0x00);
    m.SetByte(0xffff, 0x20);
    let p_before = m.p;
    m.step();
    assert_eq!(m.pc, 0x2000);
    assert!(m.p & BREAK != 0);
    assert!(m.p & INTERRUPT != 0);
    // The stack holds the pre-interrupt pc + 1 (high byte first) and the
    // flags with Break and Unused forced set.
    assert_eq!(m.sp, 0xfc);
    assert_eq!(m.ByteAt(0x01ff), 0x10);
    assert_eq!(m.ByteAt(0x01fe), 0x01);
    assert_eq!(m.ByteAt(0x01fd), p_before | BREAK | UNUSED);
}

#[test]
fn rti_restores_pc_and_flags_pushed_by_brk() {
    let mut m = Mpu6502::new();
    m.pc = 0x1000;
    m.SetByte(0x1000, 0x00);
    m.SetByte(0xfffe, 0x00);
    m.SetByte(0xffff, 0x20);
    let p_before = m.p;
    m.step();
    assert_eq!(m.pc, 0x2000);
    m.SetByte(0x2000, 0x40);
    m.step();
    assert_eq!(m.pc, 0x1001);
    assert_eq!(m.p & !INTERRUPT, (p_before | BREAK | UNUSED) & !INTERRUPT);
    assert_eq!(m.sp, 0xff);
}

#[test]
fn backward_branch_by_0x80_lands_at_0x0f85() {
    // With the displacement byte at 0x1004, the pc after consuming it is
    // 0x1005, and a taken -128 branch lands at 0x1005 - 0x80 = 0x0f85.
    let mut m = Mpu6502::new();
    m.pc = 0x1004;
    m.SetByte(0x1004, 0x80);
    m.BranchRelAddr();
    assert_eq!(m.pc, 0x0f85);
}

#[test]
fn backward_branch_via_bra_opcode() {
    let mut m = Mpu6502::new();
    m.pc = 0x1003;
    m.SetByte(0x1003, 0x80);
    m.SetByte(0x1004, 0x80);
    m.step();
    assert_eq!(m.pc, 0x0f85);
}

#[test]
fn unknown_opcode_skips_two_bytes_and_changes_nothing_else() {
    let mut m = Mpu6502::new();
    m.pc = 0x3000;
    m.acc = 0x11;
    m.x = 0x22;
    m.y = 0x33;
    let p_before = m.p;
    let sp_before = m.sp;
    m.SetByte(0x3000, 0xff);
    m.step();
    assert_eq!(m.pc, 0x3002);
    assert_eq!(m.acc, 0x11);
    assert_eq!(m.x, 0x22);
    assert_eq!(m.y, 0x33);
    assert_eq!(m.p, p_before);
    assert_eq!(m.sp, sp_before);
}

#[test]
fn jsr_then_rts_returns_past_the_operand() {
    let mut m = Mpu6502::new();
    m.pc = 0x0400;
    m.SetByte(0x0400, 0x20);
    m.SetByte(0x0401, 0x34);
    m.SetByte(0x0402, 0x12);
    m.step();
    assert_eq!(m.pc, 0x1234);
    // The pushed return address is the last operand byte's address.
    assert_eq!(m.ByteAt(0x01ff), 0x04);
    assert_eq!(m.ByteAt(0x01fe), 0x02);
    m.SetByte(0x1234, 0x60);
    m.step();
    assert_eq!(m.pc, 0x0403);
}

#[test]
fn jmp_indirect_inherits_page_wrap_bug() {
    let mut m = Mpu6502::new();
    m.pc = 0x0400;
    m.SetByte(0x0400, 0x6c);
    m.SetByte(0x0401, 0xff);
    m.SetByte(0x0402, 0x02);
    // Pointer at 0x02ff: the high byte comes from 0x0200, not 0x0300.
    m.SetByte(0x02ff, 0x00);
    m.SetByte(0x0200, 0x30);
    m.SetByte(0x0300, 0x99);
    m.step();
    assert_eq!(m.pc, 0x3000);
}

#[test]
fn countdown_loop_with_dex_and_bne() {
    let mut m = Mpu6502::new();
    m.pc = 0x0200;
    m.SetByte(0x0200, 0xa2); // LDX #3
    m.SetByte(0x0201, 0x03);
    m.SetByte(0x0202, 0xca); // DEX
    m.SetByte(0x0203, 0xd0); // BNE -3 (back to DEX)
    m.SetByte(0x0204, 0xfd);
    m.step();
    assert_eq!(m.x, 3);
    for _ in 0..100 {
        if m.pc == 0x0205 {
            break;
        }
        m.step();
    }
    assert_eq!(m.x, 0);
    assert!(m.p & ZERO != 0);
    assert_eq!(m.pc, 0x0205);
}

#[test]
fn transfers_through_step_set_flags_except_txs() {
    let mut m = Mpu6502::new();
    m.pc = 0x0200;
    m.acc = 0x80;
    m.SetByte(0x0200, 0xaa); // TAX
    m.step();
    assert_eq!(m.x, 0x80);
    assert!(m.p & NEGATIVE != 0);
    m.SetByte(0x0201, 0x9a); // TXS: no flags
    m.p &= !NEGATIVE;
    m.step();
    assert_eq!(m.sp, 0x80);
    assert!(m.p & NEGATIVE == 0);
    m.SetByte(0x0202, 0xba); // TSX: flags again
    m.step();
    assert_eq!(m.x, 0x80);
    assert!(m.p & NEGATIVE != 0);
    m.y = 0x00;
    m.SetByte(0x0203, 0x98); // TYA
    m.step();
    assert_eq!(m.acc, 0x00);
    assert!(m.p & ZERO != 0);
    m.acc = 0x7f;
    m.SetByte(0x0204, 0xa8); // TAY
    m.step();
    assert_eq!(m.y, 0x7f);
    assert!(m.p & ZERO == 0 && m.p & NEGATIVE == 0);
    m.x = 0x05;
    m.SetByte(0x0205, 0x8a); // TXA
    m.step();
    assert_eq!(m.acc, 0x05);
}

#[test]
fn step_wraps_pc_at_the_top_of_memory() {
    let mut m = Mpu6502::new();
    m.pc = 0xffff;
    m.SetByte(0xffff, 0xe8); // INX
    m.step();
    assert_eq!(m.x, 1);
    assert_eq!(m.pc, 0x0000);
}

#[test]
fn set_and_clear_flag_opcodes() {
    let mut m = Mpu6502::new();
    m.pc = 0x0200;
    m.SetByte(0x0200, 0x38); // SEC
    m.step();
    assert!(m.p & CARRY != 0);
    m.SetByte(0x0201, 0x18); // CLC
    m.step();
    assert!(m.p & CARRY == 0);
    m.SetByte(0x0202, 0x78); // SEI
    m.step();
    assert!(m.p & INTERRUPT != 0);
    m.p |= DECIMAL;
    m.SetByte(0x0203, 0xd8); // CLD
    m.step();
    assert!(m.p & DECIMAL == 0);
}

#[test]
fn pha_pla_round_trip_through_step() {
    let mut m = Mpu6502::new();
    m.pc = 0x0200;
    m.acc = 0x9c;
    m.SetByte(0x0200, 0x48); // PHA
    m.step();
    assert_eq!(m.ByteAt(0x01ff), 0x9c);
    assert_eq!(m.sp, 0xfe);
    m.acc = 0x00;
    m.SetByte(0x0201, 0x68); // PLA
    m.step();
    assert_eq!(m.acc, 0x9c);
    assert!(m.p & NEGATIVE != 0);
    assert_eq!(m.sp, 0xff);
}
