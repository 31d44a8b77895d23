//! Bit masks of the status register `p`, and the shared Negative/Zero
//! flag derivation.

use vstd::prelude::*;

verus! {

/// Negative flag: bit 7 of the last result.
pub const NEGATIVE: u8 = 0x80;

/// Overflow flag: signed overflow of the last addition or subtraction.
pub const OVERFLOW: u8 = 0x40;

/// Unused flag: hardware keeps this bit set.
pub const UNUSED: u8 = 0x20;

/// Break flag: distinguishes a BRK push from a hardware interrupt push.
pub const BREAK: u8 = 0x10;

/// Decimal flag: selects binary-coded-decimal arithmetic for ADC/SBC.
pub const DECIMAL: u8 = 0x08;

/// Interrupt-disable flag.
pub const INTERRUPT: u8 = 0x04;

/// Zero flag: the last result was zero.
pub const ZERO: u8 = 0x02;

/// Carry flag: carry out of the last addition, shift, or comparison.
pub const CARRY: u8 = 0x01;

/// True when every flag of `mask` reads as set in the status register `p`
/// (for the single-bit masks above: that one flag is set).
pub open spec fn flag_set(p: u8, mask: u8) -> bool {
    p & mask != 0
}

/// The status register after deriving Negative and Zero from `value`:
/// both flags are cleared, then Zero is set when `value` is zero, and
/// otherwise Negative is copied from bit 7 of `value`.
pub open spec fn set_nz(p: u8, value: u8) -> u8 {
    let base = p & !(ZERO | NEGATIVE);
    if value == 0 {
        base | ZERO
    } else if value >= 0x80 {
        base | NEGATIVE
    } else {
        base
    }
}

/// Zero is set iff the value was zero; Negative equals bit 7 of the value
/// whenever the value is non-zero; every other flag keeps its old reading.
pub proof fn lemma_nz_flags(p: u8, value: u8)
    by (bit_vector)
    ensures
        flag_set(set_nz(p, value), ZERO) <==> value == 0,
        flag_set(set_nz(p, value), NEGATIVE) <==> (value != 0 && value >= 0x80),
        flag_set(set_nz(p, value), CARRY) <==> flag_set(p, CARRY),
        flag_set(set_nz(p, value), OVERFLOW) <==> flag_set(p, OVERFLOW),
        flag_set(set_nz(p, value), UNUSED) <==> flag_set(p, UNUSED),
        flag_set(set_nz(p, value), BREAK) <==> flag_set(p, BREAK),
        flag_set(set_nz(p, value), DECIMAL) <==> flag_set(p, DECIMAL),
        flag_set(set_nz(p, value), INTERRUPT) <==> flag_set(p, INTERRUPT),
{
}

} // verus!
