//! The opcode dispatch table: a total map from the 256 possible opcode
//! bytes to a tagged instruction descriptor, consulted by the
//! fetch-decode-execute loop.

use vstd::prelude::*;

use crate::flags::CARRY;
use crate::flags::DECIMAL;
use crate::flags::INTERRUPT;
use crate::flags::NEGATIVE;
use crate::flags::OVERFLOW;
use crate::flags::ZERO;

verus! {

/// How a memory-operand instruction finds its effective address.
#[derive(Clone, Copy, Debug, PartialEq, Eq)]
pub enum AddrMode {
    /// The operand byte itself is the data: the address is the program
    /// counter.
    Immediate,
    /// One operand byte naming a page-zero cell.
    ZeroPage,
    /// Page-zero cell indexed by X, wrapping within page zero.
    ZeroPageX,
    /// Page-zero cell indexed by Y, wrapping within page zero.
    ZeroPageY,
    /// Two operand bytes naming any cell.
    Absolute,
    /// Absolute base indexed by X.
    AbsoluteX,
    /// Absolute base indexed by Y.
    AbsoluteY,
    /// Page-zero pointer indexed by X before the indirection.
    IndirectX,
    /// Page-zero pointer dereferenced, then indexed by Y.
    IndirectY,
    /// Page-zero pointer dereferenced, no index (65C02).
    ZeroPageIndirect,
}

/// An operation that reads or writes through an effective address.
#[derive(Clone, Copy, Debug, PartialEq, Eq)]
pub enum MemOp {
    /// OR memory into the accumulator.
    Ora,
    /// Exclusive-OR memory into the accumulator.
    Eor,
    /// Add with carry.
    Adc,
    /// Subtract with carry.
    Sbc,
    /// Compare the accumulator.
    CmpAcc,
    /// Compare X.
    CmpX,
    /// Compare Y.
    CmpY,
    /// Load the accumulator.
    Lda,
    /// Load X.
    Ldx,
    /// Load Y.
    Ldy,
    /// Store the accumulator.
    Sta,
    /// Store X.
    Stx,
    /// Store Y.
    Sty,
    /// Store zero (65C02).
    Stz,
    /// Increment the addressed byte.
    Inc,
    /// Decrement the addressed byte.
    Dec,
    /// Shift the addressed byte left.
    Asl,
    /// Rotate the addressed byte left through Carry.
    Rol,
}

/// What one opcode byte stands for: a memory-operand operation with its
/// addressing mode, one of the register-implied operations, a branch with
/// its flag mask, or an unknown opcode.
#[derive(Clone, Copy, Debug, PartialEq, Eq)]
pub enum Instruction {
    /// A memory-operand operation resolved through the given mode.
    Mem(MemOp, AddrMode),
    /// Shift the accumulator left.
    AccAsl,
    /// Rotate the accumulator left through Carry.
    AccRol,
    /// Increment the accumulator (65C02).
    AccInc,
    /// Decrement the accumulator (65C02).
    AccDec,
    /// Branch when every flag of the mask reads clear.
    BranchIfClear(u8),
    /// Branch when some flag of the mask reads set.
    BranchIfSet(u8),
    /// Branch always (65C02).
    BranchAlways,
    /// Unconditionally set the flags of the mask.
    SetFlags(u8),
    /// Unconditionally clear the flags of the mask.
    ClearFlags(u8),
    /// Software interrupt: push state and jump through the IRQ vector.
    Brk,
    /// Return from interrupt: pop flags, then the program counter.
    Rti,
    /// Return from subroutine: pop the program counter and advance it.
    Rts,
    /// Call a subroutine at an absolute address.
    Jsr,
    /// Jump to an absolute address.
    JmpAbs,
    /// Jump through a pointer, with the page-wrap bug.
    JmpInd,
    /// Push the accumulator.
    Pha,
    /// Pop the accumulator, deriving Negative/Zero.
    Pla,
    /// Copy X to the accumulator, deriving Negative/Zero.
    Txa,
    /// Copy the accumulator to X, deriving Negative/Zero.
    Tax,
    /// Copy Y to the accumulator, deriving Negative/Zero.
    Tya,
    /// Copy the accumulator to Y, deriving Negative/Zero.
    Tay,
    /// Copy X to the stack index; flags untouched.
    Txs,
    /// Copy the stack index to X, deriving Negative/Zero.
    Tsx,
    /// Increment X.
    Inx,
    /// Increment Y.
    Iny,
    /// Decrement X.
    Dex,
    /// Decrement Y.
    Dey,
    /// An opcode outside the dispatch table: skip one extra byte.
    Unknown,
}

/// The dispatch table as a function of the opcode byte.
pub open spec fn spec_decode(opcode: u8) -> Instruction {
    match opcode {
        0x00 => Instruction::Brk,
        0x06 => Instruction::Mem(MemOp::Asl, AddrMode::ZeroPage),
        0x09 => Instruction::Mem(MemOp::Ora, AddrMode::Immediate),
        0x0a => Instruction::AccAsl,
        0x0e => Instruction::Mem(MemOp::Asl, AddrMode::Absolute),
        0x10 => Instruction::BranchIfClear(NEGATIVE),
        0x16 => Instruction::Mem(MemOp::Asl, AddrMode::ZeroPageX),
        0x18 => Instruction::ClearFlags(CARRY),
        0x1a => Instruction::AccInc,
        0x1e => Instruction::Mem(MemOp::Asl, AddrMode::AbsoluteX),
        0x20 => Instruction::Jsr,
        0x26 => Instruction::Mem(MemOp::Rol, AddrMode::ZeroPage),
        0x2a => Instruction::AccRol,
        0x2e => Instruction::Mem(MemOp::Rol, AddrMode::Absolute),
        0x36 => Instruction::Mem(MemOp::Rol, AddrMode::ZeroPageX),
        0x38 => Instruction::SetFlags(CARRY),
        0x3a => Instruction::AccDec,
        0x3e => Instruction::Mem(MemOp::Rol, AddrMode::AbsoluteX),
        0x40 => Instruction::Rti,
        0x41 => Instruction::Mem(MemOp::Eor, AddrMode::IndirectX),
        0x45 => Instruction::Mem(MemOp::Eor, AddrMode::ZeroPage),
        0x48 => Instruction::Pha,
        0x49 => Instruction::Mem(MemOp::Eor, AddrMode::Immediate),
        0x4c => Instruction::JmpAbs,
        0x4d => Instruction::Mem(MemOp::Eor, AddrMode::Absolute),
        0x50 => Instruction::BranchIfClear(OVERFLOW),
        0x51 => Instruction::Mem(MemOp::Eor, AddrMode::IndirectY),
        0x52 => Instruction::Mem(MemOp::Eor, AddrMode::ZeroPageIndirect),
        0x55 => Instruction::Mem(MemOp::Eor, AddrMode::ZeroPageX),
        0x59 => Instruction::Mem(MemOp::Eor, AddrMode::AbsoluteY),
        0x5d => Instruction::Mem(MemOp::Eor, AddrMode::AbsoluteX),
        0x60 => Instruction::Rts,
        0x61 => Instruction::Mem(MemOp::Adc, AddrMode::IndirectX),
        0x65 => Instruction::Mem(MemOp::Adc, AddrMode::ZeroPage),
        0x68 => Instruction::Pla,
        0x69 => Instruction::Mem(MemOp::Adc, AddrMode::Immediate),
        0x6c => Instruction::JmpInd,
        0x6d => Instruction::Mem(MemOp::Adc, AddrMode::Absolute),
        0x71 => Instruction::Mem(MemOp::Adc, AddrMode::IndirectY),
        0x72 => Instruction::Mem(MemOp::Adc, AddrMode::ZeroPageIndirect),
        0x75 => Instruction::Mem(MemOp::Adc, AddrMode::ZeroPageX),
        0x78 => Instruction::SetFlags(INTERRUPT),
        0x79 => Instruction::Mem(MemOp::Adc, AddrMode::AbsoluteY),
        0x7d => Instruction::Mem(MemOp::Adc, AddrMode::AbsoluteX),
        0x80 => Instruction::BranchAlways,
        0x81 => Instruction::Mem(MemOp::Sta, AddrMode::IndirectX),
        0x84 => Instruction::Mem(MemOp::Sty, AddrMode::ZeroPage),
        0x85 => Instruction::Mem(MemOp::Sta, AddrMode::ZeroPage),
        0x86 => Instruction::Mem(MemOp::Stx, AddrMode::ZeroPage),
        0x88 => Instruction::Dey,
        0x8a => Instruction::Txa,
        0x8d => Instruction::Mem(MemOp::Sta, AddrMode::Absolute),
        0x90 => Instruction::BranchIfClear(CARRY),
        0x91 => Instruction::Mem(MemOp::Sta, AddrMode::IndirectY),
        0x92 => Instruction::Mem(MemOp::Sta, AddrMode::ZeroPageIndirect),
        0x95 => Instruction::Mem(MemOp::Sta, AddrMode::ZeroPageX),
        0x98 => Instruction::Tya,
        0x99 => Instruction::Mem(MemOp::Sta, AddrMode::AbsoluteY),
        0x9a => Instruction::Txs,
        0x9c => Instruction::Mem(MemOp::Stz, AddrMode::Absolute),
        0x9d => Instruction::Mem(MemOp::Sta, AddrMode::AbsoluteX),
        0xa0 => Instruction::Mem(MemOp::Ldy, AddrMode::Immediate),
        0xa1 => Instruction::Mem(MemOp::Lda, AddrMode::IndirectX),
        0xa2 => Instruction::Mem(MemOp::Ldx, AddrMode::Immediate),
        0xa4 => Instruction::Mem(MemOp::Ldy, AddrMode::ZeroPage),
        0xa5 => Instruction::Mem(MemOp::Lda, AddrMode::ZeroPage),
        0xa6 => Instruction::Mem(MemOp::Ldx, AddrMode::ZeroPage),
        0xa8 => Instruction::Tay,
        0xa9 => Instruction::Mem(MemOp::Lda, AddrMode::Immediate),
        0xaa => Instruction::Tax,
        0xac => Instruction::Mem(MemOp::Ldy, AddrMode::Absolute),
        0xad => Instruction::Mem(MemOp::Lda, AddrMode::Absolute),
        0xae => Instruction::Mem(MemOp::Ldx, AddrMode::Absolute),
        0xb0 => Instruction::BranchIfSet(CARRY),
        0xb1 => Instruction::Mem(MemOp::Lda, AddrMode::IndirectY),
        0xb2 => Instruction::Mem(MemOp::Lda, AddrMode::ZeroPageIndirect),
        0xb4 => Instruction::Mem(MemOp::Ldy, AddrMode::ZeroPageX),
        0xb5 => Instruction::Mem(MemOp::Lda, AddrMode::ZeroPageX),
        0xb6 => Instruction::Mem(MemOp::Ldx, AddrMode::ZeroPageY),
        0xb9 => Instruction::Mem(MemOp::Lda, AddrMode::AbsoluteY),
        0xba => Instruction::Tsx,
        0xbc => Instruction::Mem(MemOp::Ldy, AddrMode::AbsoluteX),
        0xbd => Instruction::Mem(MemOp::Lda, AddrMode::AbsoluteX),
        0xbe => Instruction::Mem(MemOp::Ldx, AddrMode::AbsoluteY),
        0xc0 => Instruction::Mem(MemOp::CmpY, AddrMode::Immediate),
        0xc1 => Instruction::Mem(MemOp::CmpAcc, AddrMode::IndirectX),
        0xc5 => Instruction::Mem(MemOp::CmpAcc, AddrMode::ZeroPage),
        0xc6 => Instruction::Mem(MemOp::Dec, AddrMode::ZeroPage),
        0xc8 => Instruction::Iny,
        0xc9 => Instruction::Mem(MemOp::CmpAcc, AddrMode::Immediate),
        0xca => Instruction::Dex,
        0xcd => Instruction::Mem(MemOp::CmpAcc, AddrMode::Absolute),
        0xd0 => Instruction::BranchIfClear(ZERO),
        0xd1 => Instruction::Mem(MemOp::CmpAcc, AddrMode::IndirectY),
        0xd5 => Instruction::Mem(MemOp::CmpAcc, AddrMode::ZeroPageX),
        0xd8 => Instruction::ClearFlags(DECIMAL),
        0xd9 => Instruction::Mem(MemOp::CmpAcc, AddrMode::AbsoluteY),
        0xdd => Instruction::Mem(MemOp::CmpAcc, AddrMode::AbsoluteX),
        0xe0 => Instruction::Mem(MemOp::CmpX, AddrMode::Immediate),
        0xe1 => Instruction::Mem(MemOp::Sbc, AddrMode::IndirectX),
        0xe4 => Instruction::Mem(MemOp::CmpX, AddrMode::ZeroPage),
        0xe5 => Instruction::Mem(MemOp::Sbc, AddrMode::ZeroPage),
        0xe6 => Instruction::Mem(MemOp::Inc, AddrMode::ZeroPage),
        0xe8 => Instruction::Inx,
        0xe9 => Instruction::Mem(MemOp::Sbc, AddrMode::Immediate),
        0xec => Instruction::Mem(MemOp::CmpX, AddrMode::Absolute),
        0xed => Instruction::Mem(MemOp::Sbc, AddrMode::Absolute),
        0xf0 => Instruction::BranchIfSet(ZERO),
        0xf1 => Instruction::Mem(MemOp::Sbc, AddrMode::IndirectY),
        0xf5 => Instruction::Mem(MemOp::Sbc, AddrMode::ZeroPageX),
        0xf9 => Instruction::Mem(MemOp::Sbc, AddrMode::AbsoluteY),
        0xfd => Instruction::Mem(MemOp::Sbc, AddrMode::AbsoluteX),
        _ => Instruction::Unknown,
    }
}

/// Looks an opcode byte up in the dispatch table.
pub fn decode(opcode: u8) -> (r: Instruction)
    ensures
        r == spec_decode(opcode),
{
    match opcode {
        0x00 => Instruction::Brk,
        0x06 => Instruction::Mem(MemOp::Asl, AddrMode::ZeroPage),
        0x09 => Instruction::Mem(MemOp::Ora, AddrMode::Immediate),
        0x0a => Instruction::AccAsl,
        0x0e => Instruction::Mem(MemOp::Asl, AddrMode::Absolute),
        0x10 => Instruction::BranchIfClear(NEGATIVE),
        0x16 => Instruction::Mem(MemOp::Asl, AddrMode::ZeroPageX),
        0x18 => Instruction::ClearFlags(CARRY),
        0x1a => Instruction::AccInc,
        0x1e => Instruction::Mem(MemOp::Asl, AddrMode::AbsoluteX),
        0x20 => Instruction::Jsr,
        0x26 => Instruction::Mem(MemOp::Rol, AddrMode::ZeroPage),
        0x2a => Instruction::AccRol,
        0x2e => Instruction::Mem(MemOp::Rol, AddrMode::Absolute),
        0x36 => Instruction::Mem(MemOp::Rol, AddrMode::ZeroPageX),
        0x38 => Instruction::SetFlags(CARRY),
        0x3a => Instruction::AccDec,
        0x3e => Instruction::Mem(MemOp::Rol, AddrMode::AbsoluteX),
        0x40 => Instruction::Rti,
        0x41 => Instruction::Mem(MemOp::Eor, AddrMode::IndirectX),
        0x45 => Instruction::Mem(MemOp::Eor, AddrMode::ZeroPage),
        0x48 => Instruction::Pha,
        0x49 => Instruction::Mem(MemOp::Eor, AddrMode::Immediate),
        0x4c => Instruction::JmpAbs,
        0x4d => Instruction::Mem(MemOp::Eor, AddrMode::Absolute),
        0x50 => Instruction::BranchIfClear(OVERFLOW),
        0x51 => Instruction::Mem(MemOp::Eor, AddrMode::IndirectY),
        0x52 => Instruction::Mem(MemOp::Eor, AddrMode::ZeroPageIndirect),
        0x55 => Instruction::Mem(MemOp::Eor, AddrMode::ZeroPageX),
        0x59 => Instruction::Mem(MemOp::Eor, AddrMode::AbsoluteY),
        0x5d => Instruction::Mem(MemOp::Eor, AddrMode::AbsoluteX),
        0x60 => Instruction::Rts,
        0x61 => Instruction::Mem(MemOp::Adc, AddrMode::IndirectX),
        0x65 => Instruction::Mem(MemOp::Adc, AddrMode::ZeroPage),
        0x68 => Instruction::Pla,
        0x69 => Instruction::Mem(MemOp::Adc, AddrMode::Immediate),
        0x6c => Instruction::JmpInd,
        0x6d => Instruction::Mem(MemOp::Adc, AddrMode::Absolute),
        0x71 => Instruction::Mem(MemOp::Adc, AddrMode::IndirectY),
        0x72 => Instruction::Mem(MemOp::Adc, AddrMode::ZeroPageIndirect),
        0x75 => Instruction::Mem(MemOp::Adc, AddrMode::ZeroPageX),
        0x78 => Instruction::SetFlags(INTERRUPT),
        0x79 => Instruction::Mem(MemOp::Adc, AddrMode::AbsoluteY),
        0x7d => Instruction::Mem(MemOp::Adc, AddrMode::AbsoluteX),
        0x80 => Instruction::BranchAlways,
        0x81 => Instruction::Mem(MemOp::Sta, AddrMode::IndirectX),
        0x84 => Instruction::Mem(MemOp::Sty, AddrMode::ZeroPage),
        0x85 => Instruction::Mem(MemOp::Sta, AddrMode::ZeroPage),
        0x86 => Instruction::Mem(MemOp::Stx, AddrMode::ZeroPage),
        0x88 => Instruction::Dey,
        0x8a => Instruction::Txa,
        0x8d => Instruction::Mem(MemOp::Sta, AddrMode::Absolute),
        0x90 => Instruction::BranchIfClear(CARRY),
        0x91 => Instruction::Mem(MemOp::Sta, AddrMode::IndirectY),
        0x92 => Instruction::Mem(MemOp::Sta, AddrMode::ZeroPageIndirect),
        0x95 => Instruction::Mem(MemOp::Sta, AddrMode::ZeroPageX),
        0x98 => Instruction::Tya,
        0x99 => Instruction::Mem(MemOp::Sta, AddrMode::AbsoluteY),
        0x9a => Instruction::Txs,
        0x9c => Instruction::Mem(MemOp::Stz, AddrMode::Absolute),
        0x9d => Instruction::Mem(MemOp::Sta, AddrMode::AbsoluteX),
        0xa0 => Instruction::Mem(MemOp::Ldy, AddrMode::Immediate),
        0xa1 => Instruction::Mem(MemOp::Lda, AddrMode::IndirectX),
        0xa2 => Instruction::Mem(MemOp::Ldx, AddrMode::Immediate),
        0xa4 => Instruction::Mem(MemOp::Ldy, AddrMode::ZeroPage),
        0xa5 => Instruction::Mem(MemOp::Lda, AddrMode::ZeroPage),
        0xa6 => Instruction::Mem(MemOp::Ldx, AddrMode::ZeroPage),
        0xa8 => Instruction::Tay,
        0xa9 => Instruction::Mem(MemOp::Lda, AddrMode::Immediate),
        0xaa => Instruction::Tax,
        0xac => Instruction::Mem(MemOp::Ldy, AddrMode::Absolute),
        0xad => Instruction::Mem(MemOp::Lda, AddrMode::Absolute),
        0xae => Instruction::Mem(MemOp::Ldx, AddrMode::Absolute),
        0xb0 => Instruction::BranchIfSet(CARRY),
        0xb1 => Instruction::Mem(MemOp::Lda, AddrMode::IndirectY),
        0xb2 => Instruction::Mem(MemOp::Lda, AddrMode::ZeroPageIndirect),
        0xb4 => Instruction::Mem(MemOp::Ldy, AddrMode::ZeroPageX),
        0xb5 => Instruction::Mem(MemOp::Lda, AddrMode::ZeroPageX),
        0xb6 => Instruction::Mem(MemOp::Ldx, AddrMode::ZeroPageY),
        0xb9 => Instruction::Mem(MemOp::Lda, AddrMode::AbsoluteY),
        0xba => Instruction::Tsx,
        0xbc => Instruction::Mem(MemOp::Ldy, AddrMode::AbsoluteX),
        0xbd => Instruction::Mem(MemOp::Lda, AddrMode::AbsoluteX),
        0xbe => Instruction::Mem(MemOp::Ldx, AddrMode::AbsoluteY),
        0xc0 => Instruction::Mem(MemOp::CmpY, AddrMode::Immediate),
        0xc1 => Instruction::Mem(MemOp::CmpAcc, AddrMode::IndirectX),
        0xc5 => Instruction::Mem(MemOp::CmpAcc, AddrMode::ZeroPage),
        0xc6 => Instruction::Mem(MemOp::Dec, AddrMode::ZeroPage),
        0xc8 => Instruction::Iny,
        0xc9 => Instruction::Mem(MemOp::CmpAcc, AddrMode::Immediate),
        0xca => Instruction::Dex,
        0xcd => Instruction::Mem(MemOp::CmpAcc, AddrMode::Absolute),
        0xd0 => Instruction::BranchIfClear(ZERO),
        0xd1 => Instruction::Mem(MemOp::CmpAcc, AddrMode::IndirectY),
        0xd5 => Instruction::Mem(MemOp::CmpAcc, AddrMode::ZeroPageX),
        0xd8 => Instruction::ClearFlags(DECIMAL),
        0xd9 => Instruction::Mem(MemOp::CmpAcc, AddrMode::AbsoluteY),
        0xdd => Instruction::Mem(MemOp::CmpAcc, AddrMode::AbsoluteX),
        0xe0 => Instruction::Mem(MemOp::CmpX, AddrMode::Immediate),
        0xe1 => Instruction::Mem(MemOp::Sbc, AddrMode::IndirectX),
        0xe4 => Instruction::Mem(MemOp::CmpX, AddrMode::ZeroPage),
        0xe5 => Instruction::Mem(MemOp::Sbc, AddrMode::ZeroPage),
        0xe6 => Instruction::Mem(MemOp::Inc, AddrMode::ZeroPage),
        0xe8 => Instruction::Inx,
        0xe9 => Instruction::Mem(MemOp::Sbc, AddrMode::Immediate),
        0xec => Instruction::Mem(MemOp::CmpX, AddrMode::Absolute),
        0xed => Instruction::Mem(MemOp::Sbc, AddrMode::Absolute),
        0xf0 => Instruction::BranchIfSet(ZERO),
        0xf1 => Instruction::Mem(MemOp::Sbc, AddrMode::IndirectY),
        0xf5 => Instruction::Mem(MemOp::Sbc, AddrMode::ZeroPageX),
        0xf9 => Instruction::Mem(MemOp::Sbc, AddrMode::AbsoluteY),
        0xfd => Instruction::Mem(MemOp::Sbc, AddrMode::AbsoluteX),
        _ => Instruction::Unknown,
    }
}

/// How many operand bytes a mode consumes, by which the loop advances the
/// program counter after the operation.
pub open spec fn operand_len(mode: AddrMode) -> u16 {
    match mode {
        AddrMode::Immediate => 1,
        AddrMode::ZeroPage => 1,
        AddrMode::ZeroPageX => 1,
        AddrMode::ZeroPageY => 1,
        AddrMode::Absolute => 2,
        AddrMode::AbsoluteX => 2,
        AddrMode::AbsoluteY => 2,
        AddrMode::IndirectX => 1,
        AddrMode::IndirectY => 1,
        AddrMode::ZeroPageIndirect => 1,
    }
}

/// Exec mirror of [`operand_len`].
pub fn operand_length(mode: AddrMode) -> (r: u16)
    ensures
        r == operand_len(mode),
{
    match mode {
        AddrMode::Immediate => 1,
        AddrMode::ZeroPage => 1,
        AddrMode::ZeroPageX => 1,
        AddrMode::ZeroPageY => 1,
        AddrMode::Absolute => 2,
        AddrMode::AbsoluteX => 2,
        AddrMode::AbsoluteY => 2,
        AddrMode::IndirectX => 1,
        AddrMode::IndirectY => 1,
        AddrMode::ZeroPageIndirect => 1,
    }
}

} // verus!
