//! Add-with-carry and subtract-with-carry, in binary and in
//! binary-coded-decimal mode, with their arithmetic laws.
//!
//! In decimal mode the flags are derived from the *uncorrected* nibble
//! combination (the ALU's raw output) while the accumulator stores the
//! decimally *corrected* nibble pair, reproducing the hardware's split
//! exactly.

use vstd::prelude::*;

use crate::flags::flag_set;
use crate::flags::CARRY;
use crate::flags::DECIMAL;
use crate::flags::NEGATIVE;
use crate::flags::OVERFLOW;
use crate::flags::ZERO;
use crate::mem::byte_at;
use crate::mem::wrap8;
use crate::state::counters_unchanged;
use crate::state::CpuView;
use crate::state::Mpu6502;

verus! {

/// The numeric carry-in an operation reads from the status register.
pub open spec fn carry_in(p: u8) -> int {
    if flag_set(p, CARRY) {
        1
    } else {
        0
    }
}

/// The accumulator after a binary add-with-carry, wrapped to a byte.
pub open spec fn adc_result(acc: u8, data: u8, cin: int) -> u8 {
    wrap8(acc + data + cin)
}

/// Binary add-with-carry carries out iff the true sum exceeds a byte.
pub open spec fn adc_carry(acc: u8, data: u8, cin: int) -> bool {
    acc + data + cin > 0xff
}

/// Signed overflow of an addition: the operands share a sign and the
/// result's sign differs from it.
pub open spec fn overflow_add(acc: u8, data: u8, result: u8) -> bool {
    (acc >= 0x80) == (data >= 0x80) && (acc >= 0x80) != (result >= 0x80)
}

/// The accumulator after a binary subtract-with-carry: the operand's
/// one's-complement added with the same carry-in, wrapped to a byte.
pub open spec fn sbc_result(acc: u8, data: u8, cin: int) -> u8 {
    wrap8(acc + (0xff - data) + cin)
}

/// Binary subtract-with-carry carries out (no borrow) iff the
/// one's-complement sum exceeds a byte.
pub open spec fn sbc_carry(acc: u8, data: u8, cin: int) -> bool {
    acc + (0xff - data) + cin > 0xff
}

/// Signed overflow of a subtraction: the operands differ in sign and the
/// result's sign differs from the accumulator's.
pub open spec fn overflow_sub(acc: u8, data: u8, result: u8) -> bool {
    (acc >= 0x80) != (data >= 0x80) && (acc >= 0x80) != (result >= 0x80)
}

/// The state after a binary-mode ADC of the byte at `addr`.
pub open spec fn adc_binary(v: CpuView, data: u8) -> CpuView {
    let cin = carry_in(v.p);
    let result = adc_result(v.acc, data, cin);
    let p0 = v.p & !(CARRY | OVERFLOW | NEGATIVE | ZERO);
    let p1 = if overflow_add(v.acc, data, result) {
        p0 | OVERFLOW
    } else {
        p0
    };
    let p2 = if adc_carry(v.acc, data, cin) {
        p1 | CARRY
    } else {
        p1
    };
    let p3 = if result == 0 {
        p2 | ZERO
    } else if result >= 0x80 {
        p2 | NEGATIVE
    } else {
        p2
    };
    CpuView { acc: result, p: p3, ..v }
}

/// The state after a binary-mode SBC of the byte at `addr`.
pub open spec fn sbc_binary(v: CpuView, data: u8) -> CpuView {
    let cin = carry_in(v.p);
    let result = sbc_result(v.acc, data, cin);
    let p0 = v.p & !(CARRY | ZERO | OVERFLOW | NEGATIVE);
    let p1 = if overflow_sub(v.acc, data, result) {
        p0 | OVERFLOW
    } else {
        p0
    };
    let p2 = if result == 0 {
        p1 | ZERO
    } else {
        p1
    };
    let p3 = if sbc_carry(v.acc, data, cin) {
        p2 | CARRY
    } else {
        p2
    };
    let p4 = if result >= 0x80 {
        p3 | NEGATIVE
    } else {
        p3
    };
    CpuView { acc: result, p: p4, ..v }
}

/// Decimal ADC: the uncorrected ALU output, both nibble sums masked to a
/// nibble. Flags are derived from this raw byte.
pub open spec fn adc_dec_raw(acc: u8, data: u8, cin: int) -> u8 {
    let n0 = (data % 0x10) + (acc % 0x10) + cin;
    let half = if n0 > 9 {
        1int
    } else {
        0int
    };
    let n1 = (data / 0x10) + (acc / 0x10) + half;
    ((n1 % 0x10) * 0x10 + n0 % 0x10) as u8
}

/// Decimal ADC carries out iff the corrected high-nibble sum exceeds nine.
pub open spec fn adc_dec_carry(acc: u8, data: u8, cin: int) -> bool {
    let n0 = (data % 0x10) + (acc % 0x10) + cin;
    let half = if n0 > 9 {
        1int
    } else {
        0int
    };
    (data / 0x10) + (acc / 0x10) + half > 9
}

/// Decimal ADC: the decimally corrected accumulator value; each nibble sum
/// gets +6 when it overflowed a decimal digit.
pub open spec fn adc_dec_result(acc: u8, data: u8, cin: int) -> u8 {
    let n0 = (data % 0x10) + (acc % 0x10) + cin;
    let adjust0 = if n0 > 9 {
        6int
    } else {
        0int
    };
    let half = if n0 > 9 {
        1int
    } else {
        0int
    };
    let n1 = (data / 0x10) + (acc / 0x10) + half;
    let adjust1 = if n1 > 9 {
        6int
    } else {
        0int
    };
    (((n0 % 0x10 + adjust0) % 0x10) + 0x10 * ((n1 % 0x10 + adjust1) % 0x10)) as u8
}

/// The state after a decimal-mode ADC of `data`: flags from the raw ALU
/// byte, accumulator from the corrected nibble pair.
pub open spec fn adc_decimal(v: CpuView, data: u8) -> CpuView {
    let cin = carry_in(v.p);
    let raw = adc_dec_raw(v.acc, data, cin);
    let p0 = v.p & !(CARRY | OVERFLOW | NEGATIVE | ZERO);
    let p1 = if raw == 0 {
        p0 | ZERO
    } else if raw >= 0x80 {
        p0 | NEGATIVE
    } else {
        p0
    };
    let p2 = if adc_dec_carry(v.acc, data, cin) {
        p1 | CARRY
    } else {
        p1
    };
    let p3 = if overflow_add(v.acc, data, raw) {
        p2 | OVERFLOW
    } else {
        p2
    };
    CpuView { acc: adc_dec_result(v.acc, data, cin), p: p3, ..v }
}

/// Decimal SBC: the corrected accumulator value; a nibble whose
/// one's-complement sum shows a borrow gets +10 (low) or +0xa0 (high)
/// before the nibble is cut out of the raw difference.
pub open spec fn sbc_dec_result(acc: u8, data: u8, cin: int) -> u8 {
    let n0 = (acc % 0x10) + ((0xff - data) % 0x10) + cin;
    let half = if n0 <= 0xf {
        0int
    } else {
        1int
    };
    let adjust0 = if n0 <= 0xf {
        10int
    } else {
        0int
    };
    let n1 = (acc / 0x10) + ((0xff - data) / 0x10) + half;
    let adjust1 = if n1 <= 0xf {
        0xa0int
    } else {
        0int
    };
    let raw = sbc_result(acc, data, cin);
    let r0 = (raw + adjust0) % 0x10;
    let r1 = ((raw + adjust1) / 0x10) % 0x10;
    (0x10 * r1 + r0) as u8
}

/// The state after a decimal-mode SBC of `data`: flags from the raw binary
/// difference, accumulator from the corrected nibble pair.
pub open spec fn sbc_decimal(v: CpuView, data: u8) -> CpuView {
    let cin = carry_in(v.p);
    let raw = sbc_result(v.acc, data, cin);
    let p0 = v.p & !(CARRY | ZERO | NEGATIVE | OVERFLOW);
    let p1 = if raw == 0 {
        p0 | ZERO
    } else if raw >= 0x80 {
        p0 | NEGATIVE
    } else {
        p0
    };
    let p2 = if sbc_carry(v.acc, data, cin) {
        p1 | CARRY
    } else {
        p1
    };
    let p3 = if overflow_sub(v.acc, data, raw) {
        p2 | OVERFLOW
    } else {
        p2
    };
    CpuView { acc: sbc_dec_result(v.acc, data, cin), p: p3, ..v }
}

/// The state after an add-with-carry of the byte at `addr`, in whichever
/// mode the Decimal flag selects.
pub open spec fn adc_step(v: CpuView, addr: u16) -> CpuView {
    let data = byte_at(v, addr);
    if flag_set(v.p, DECIMAL) {
        adc_decimal(v, data)
    } else {
        adc_binary(v, data)
    }
}

/// The state after a subtract-with-carry of the byte at `addr`, in
/// whichever mode the Decimal flag selects.
pub open spec fn sbc_step(v: CpuView, addr: u16) -> CpuView {
    let data = byte_at(v, addr);
    if flag_set(v.p, DECIMAL) {
        sbc_decimal(v, data)
    } else {
        sbc_binary(v, data)
    }
}

impl Mpu6502 {
    /// Add-with-carry of the byte at `x` into the accumulator, honouring
    /// the Decimal flag.
    pub fn opADC(&mut self, x: u16)
        requires
            old(self).wf(),
        ensures
            final(self).wf(),
            final(self)@ == adc_step(old(self)@, x),
            counters_unchanged(*old(self), *final(self)),
    {
        let data = self.ByteAt(x);
        if self.p & DECIMAL != 0 {
            let cin: u16 = if self.p & CARRY != 0 {
                1
            } else {
                0
            };
            let n0: u16 = (data % 0x10) as u16 + (self.acc % 0x10) as u16 + cin;
            let mut adjust0: u16 = 0;
            let mut halfcarry: u16 = 0;
            if n0 > 9 {
                adjust0 = 6;
                halfcarry = 1;
            }
            let n1: u16 = (data / 0x10) as u16 + (self.acc / 0x10) as u16 + halfcarry;
            let mut adjust1: u16 = 0;
            let mut decimalcarry = false;
            if n1 > 9 {
                adjust1 = 6;
                decimalcarry = true;
            }
            let raw: u8 = ((n1 % 0x10) * 0x10 + n0 % 0x10) as u8;
            let mut p = self.p & !(CARRY | OVERFLOW | NEGATIVE | ZERO);
            if raw == 0 {
                p = p | ZERO;
            } else if raw >= 0x80 {
                p = p | NEGATIVE;
            }
            if decimalcarry {
                p = p | CARRY;
            }
            if (self.acc >= 0x80) == (data >= 0x80) && (self.acc >= 0x80) != (raw >= 0x80) {
                p = p | OVERFLOW;
            }
            self.p = p;
            self.acc = ((n0 % 0x10 + adjust0) % 0x10 + 0x10 * ((n1 % 0x10 + adjust1) % 0x10)) as u8;
            proof {
                assert(self@ =~= adc_step(old(self)@, x));
            }
        } else {
            let cin: u16 = if self.p & CARRY != 0 {
                1
            } else {
                0
            };
            let sum: u16 = self.acc as u16 + data as u16 + cin;
            let result = (sum % 0x100) as u8;
            let mut p = self.p & !(CARRY | OVERFLOW | NEGATIVE | ZERO);
            if (self.acc >= 0x80) == (data >= 0x80) && (self.acc >= 0x80) != (result >= 0x80) {
                p = p | OVERFLOW;
            }
            if sum > 0xff {
                p = p | CARRY;
            }
            if result == 0 {
                p = p | ZERO;
            } else if result >= 0x80 {
                p = p | NEGATIVE;
            }
            self.p = p;
            self.acc = result;
            proof {
                assert(self@ =~= adc_step(old(self)@, x));
            }
        }
    }

    /// Subtract-with-carry of the byte at `x` from the accumulator,
    /// honouring the Decimal flag.
    pub fn opSBC(&mut self, x: u16)
        requires
            old(self).wf(),
        ensures
            final(self).wf(),
            final(self)@ == sbc_step(old(self)@, x),
            counters_unchanged(*old(self), *final(self)),
    {
        let data = self.ByteAt(x);
        let inverted: u8 = 0xff - data;
        if self.p & DECIMAL != 0 {
            let cin: u16 = if self.p & CARRY != 0 {
                1
            } else {
                0
            };
            let n0: u16 = (self.acc % 0x10) as u16 + (inverted % 0x10) as u16 + cin;
            let mut halfcarry: u16 = 1;
            let mut adjust0: u16 = 0;
            if n0 <= 0xf {
                halfcarry = 0;
                adjust0 = 10;
            }
            let n1: u16 = (self.acc / 0x10) as u16 + (inverted / 0x10) as u16 + halfcarry;
            let mut adjust1: u16 = 0;
            if n1 <= 0xf {
                adjust1 = 0xa0;
            }
            let rawsum: u16 = self.acc as u16 + inverted as u16 + cin;
            let decimalcarry = rawsum > 0xff;
            let raw: u8 = (rawsum % 0x100) as u8;
            let mut p = self.p & !(CARRY | ZERO | NEGATIVE | OVERFLOW);
            if raw == 0 {
                p = p | ZERO;
            } else if raw >= 0x80 {
                p = p | NEGATIVE;
            }
            if decimalcarry {
                p = p | CARRY;
            }
            if (self.acc >= 0x80) != (data >= 0x80) && (self.acc >= 0x80) != (raw >= 0x80) {
                p = p | OVERFLOW;
            }
            self.p = p;
            let r0: u16 = (raw as u16 + adjust0) % 0x10;
            let r1: u16 = ((raw as u16 + adjust1) / 0x10) % 0x10;
            self.acc = (0x10 * r1 + r0) as u8;
            proof {
                assert(self@ =~= sbc_step(old(self)@, x));
            }
        } else {
            let cin: u16 = if self.p & CARRY != 0 {
                1
            } else {
                0
            };
            let sum: u16 = self.acc as u16 + inverted as u16 + cin;
            let result = (sum % 0x100) as u8;
            let mut p = self.p & !(CARRY | ZERO | OVERFLOW | NEGATIVE);
            if (self.acc >= 0x80) != (data >= 0x80) && (self.acc >= 0x80) != (result >= 0x80) {
                p = p | OVERFLOW;
            }
            if result == 0 {
                p = p | ZERO;
            }
            if sum > 0xff {
                p = p | CARRY;
            }
            if result >= 0x80 {
                p = p | NEGATIVE;
            }
            self.p = p;
            self.acc = result;
            proof {
                assert(self@ =~= sbc_step(old(self)@, x));
            }
        }
    }
}

/// Binary-mode round trip: subtracting `b` with the complemented carry-in
/// undoes adding `b`, for every byte pair and carry-in, and the
/// subtraction's carry-out is the complement of the addition's.
pub proof fn lemma_sbc_undoes_adc(a: u8, b: u8, cin: int)
    requires
        0 <= cin <= 1,
    ensures
        sbc_result(adc_result(a, b, cin), b, 1 - cin) == a,
        sbc_carry(adc_result(a, b, cin), b, 1 - cin) == !adc_carry(a, b, cin),
{
    let r1 = adc_result(a, b, cin);
    if a + b + cin > 0xff {
        assert(r1 == a + b + cin - 0x100);
    } else {
        assert(r1 == a + b + cin);
    }
}

/// A byte is a valid binary-coded-decimal pair: both nibbles are digits.
pub open spec fn bcd_valid(b: u8) -> bool {
    b % 0x10 <= 9 && b / 0x10 <= 9
}

/// The decimal number a valid BCD byte denotes.
pub open spec fn bcd_value(b: u8) -> int {
    10 * (b / 0x10) + b % 0x10
}

/// Decimal-mode ADC on valid BCD operands produces the valid BCD sum
/// modulo 100, and carries out exactly when the true decimal sum reaches
/// 100.
#[verifier::rlimit(60)]
pub proof fn lemma_adc_decimal_bcd(acc: u8, data: u8, cin: int)
    requires
        bcd_valid(acc),
        bcd_valid(data),
        0 <= cin <= 1,
    ensures
        bcd_valid(adc_dec_result(acc, data, cin)),
        bcd_value(adc_dec_result(acc, data, cin)) == (bcd_value(acc) + bcd_value(data) + cin)
            % 100,
        adc_dec_carry(acc, data, cin) == (bcd_value(acc) + bcd_value(data) + cin >= 100),
{
    let a0 = acc % 0x10;
    let a1 = acc / 0x10;
    let b0 = data % 0x10;
    let b1 = data / 0x10;
    let n0 = b0 + a0 + cin;
    let half = if n0 > 9 {
        1int
    } else {
        0int
    };
    let n1 = b1 + a1 + half;
    let lo = if n0 > 9 {
        n0 - 10
    } else {
        n0
    };
    let hi = if n1 > 9 {
        n1 - 10
    } else {
        n1
    };
    let dc = if n1 > 9 {
        1int
    } else {
        0int
    };
    assert(0 <= n0 <= 19 && 0 <= n1 <= 19);
    assert((n0 % 0x10 + if n0 > 9 { 6int } else { 0int }) % 0x10 == lo) by {
        if n0 <= 9 {
            assert(n0 % 0x10 == n0);
            assert(n0 % 0x10 % 0x10 == n0);
        } else if n0 <= 15 {
            assert(n0 % 0x10 == n0);
            assert((n0 + 6) % 0x10 == n0 + 6 - 0x10);
        } else {
            assert(n0 % 0x10 == n0 - 0x10);
            assert((n0 - 10) % 0x10 == n0 - 10);
        }
    };
    assert((n1 % 0x10 + if n1 > 9 { 6int } else { 0int }) % 0x10 == hi) by {
        if n1 <= 9 {
            assert(n1 % 0x10 == n1);
            assert(n1 % 0x10 % 0x10 == n1);
        } else if n1 <= 15 {
            assert(n1 % 0x10 == n1);
            assert((n1 + 6) % 0x10 == n1 + 6 - 0x10);
        } else {
            assert(n1 % 0x10 == n1 - 0x10);
            assert((n1 - 10) % 0x10 == n1 - 10);
        }
    };
    assert(0 <= lo <= 9 && 0 <= hi <= 9);
    assert(adc_dec_result(acc, data, cin) == lo + 0x10 * hi);
    let total = bcd_value(acc) + bcd_value(data) + cin;
    assert(total == 100 * dc + 10 * hi + lo);
    assert(total % 100 == 10 * hi + lo) by {
        assert(0 <= 10 * hi + lo < 100);
        if dc == 1 {
            assert((100 + (10 * hi + lo)) % 100 == (10 * hi + lo) % 100) by {
                vstd::arithmetic::div_mod::lemma_mod_sub_multiples_vanish(10 * hi + lo + 100, 100);
            };
        }
        assert((10 * hi + lo) % 100 == 10 * hi + lo);
    };
}

/// Decimal-mode SBC on valid BCD operands produces the valid BCD
/// difference modulo 100, and its carry (no-borrow) flag is set exactly
/// when the true decimal difference is not negative.
#[verifier::rlimit(100)]
pub proof fn lemma_sbc_decimal_bcd(acc: u8, data: u8, cin: int)
    requires
        bcd_valid(acc),
        bcd_valid(data),
        0 <= cin <= 1,
    ensures
        bcd_valid(sbc_dec_result(acc, data, cin)),
        bcd_value(sbc_dec_result(acc, data, cin)) == (bcd_value(acc) - bcd_value(data) - (1
            - cin)) % 100,
        sbc_carry(acc, data, cin) == (bcd_value(acc) - bcd_value(data) - (1 - cin) >= 0),
{
    let w = 1 - cin;
    let a0 = acc % 0x10;
    let a1 = acc / 0x10;
    let b0 = data % 0x10;
    let b1 = data / 0x10;
    assert(acc == 0x10 * a1 + a0) by {
        vstd::arithmetic::div_mod::lemma_fundamental_div_mod(acc as int, 0x10);
    };
    assert(data == 0x10 * b1 + b0) by {
        vstd::arithmetic::div_mod::lemma_fundamental_div_mod(data as int, 0x10);
    };
    assert((0xff - data) % 0x10 == 0xf - b0 && (0xff - data) / 0x10 == 0xf - b1) by {
        vstd::arithmetic::div_mod::lemma_fundamental_div_mod_converse(
            0xff - data,
            0x10,
            0xf - b1,
            0xf - b0,
        );
    };
    // Low-nibble borrow: the one's-complement nibble sum stays within a
    // nibble exactly when the decimal low digits need a borrow.
    let n0 = a0 + (0xf - b0) + cin;
    let borrow0 = n0 <= 0xf;
    let b0i: int = if borrow0 {
        1
    } else {
        0
    };
    assert(n0 == a0 - b0 - w + 0x10);
    assert(borrow0 <==> a0 - b0 - w < 0);
    let r = a0 - b0 - w + 0x10 * b0i;
    assert(0 <= r < 0x10);
    // High-nibble borrow.
    let m = a1 - b1 - b0i;
    let n1 = a1 + (0xf - b1) + (1 - b0i);
    let borrow1 = n1 <= 0xf;
    let b1i: int = if borrow1 {
        1
    } else {
        0
    };
    assert(n1 == m + 0x10);
    assert(borrow1 <==> m < 0);
    assert(-10 <= m <= 9);
    // The raw binary difference byte, decomposed into those nibbles.
    let bindiff = acc - data - w;
    assert(bindiff == 0x10 * m + r);
    assert((bindiff < 0) <==> borrow1);
    let raw = sbc_result(acc, data, cin);
    assert(acc + (0xff - data) + cin == bindiff + 0x100);
    assert(raw == bindiff + 0x100 * b1i) by {
        if borrow1 {
            assert(0 <= bindiff + 0x100 < 0x100);
            vstd::arithmetic::div_mod::lemma_small_mod((bindiff + 0x100) as nat, 0x100);
        } else {
            assert(0 <= bindiff < 0x100);
            vstd::arithmetic::div_mod::lemma_mod_sub_multiples_vanish(bindiff + 0x100, 0x100);
            vstd::arithmetic::div_mod::lemma_small_mod(bindiff as nat, 0x100);
        }
    };
    assert(raw == 0x10 * (m + 0x10 * b1i) + r);
    assert(0 <= m + 0x10 * b1i <= 0xf);
    assert(raw % 0x10 == r && raw / 0x10 == m + 0x10 * b1i) by {
        vstd::arithmetic::div_mod::lemma_fundamental_div_mod_converse(
            raw as int,
            0x10,
            m + 0x10 * b1i,
            r,
        );
    };
    // The corrected digits.
    let l = a0 - b0 - w + 10 * b0i;
    let h = m + 10 * b1i;
    assert(0 <= l <= 9 && 0 <= h <= 9);
    assert((raw + if borrow0 { 10int } else { 0int }) % 0x10 == l) by {
        if borrow0 {
            assert(raw + 10 == 0x10 * (m + 0x10 * b1i + 1) + (r - 6));
            assert(0 <= r - 6 < 0x10);
            vstd::arithmetic::div_mod::lemma_fundamental_div_mod_converse(
                raw + 10,
                0x10,
                m + 0x10 * b1i + 1,
                r - 6,
            );
        }
    };
    assert(((raw + if borrow1 { 0xa0int } else { 0int }) / 0x10) % 0x10 == h) by {
        if borrow1 {
            assert(raw + 0xa0 == 0x10 * (m + 0x1a) + r);
            vstd::arithmetic::div_mod::lemma_fundamental_div_mod_converse(
                raw + 0xa0,
                0x10,
                m + 0x1a,
                r,
            );
            assert((m + 0x1a) % 0x10 == m + 10) by {
                assert(m + 0x1a == 0x10 * 1 + (m + 10));
                vstd::arithmetic::div_mod::lemma_fundamental_div_mod_converse(
                    m + 0x1a,
                    0x10,
                    1,
                    m + 10,
                );
            };
        } else {
            assert((m + 0x10 * b1i) % 0x10 == m) by {
                vstd::arithmetic::div_mod::lemma_small_mod(m as nat, 0x10);
            };
        }
    };
    let result = sbc_dec_result(acc, data, cin);
    assert(result == 0x10 * h + l);
    assert(result / 0x10 == h && result % 0x10 == l) by {
        vstd::arithmetic::div_mod::lemma_fundamental_div_mod_converse(result as int, 0x10, h, l);
    };
    // Digit identity: the decimal difference, shifted by 100 on a borrow.
    let diff = bcd_value(acc) - bcd_value(data) - w;
    assert(diff == 10 * m + l);
    assert(10 * h + l == diff + 100 * b1i);
    assert(diff % 100 == 10 * h + l) by {
        if borrow1 {
            assert(-100 <= diff < 0);
            vstd::arithmetic::div_mod::lemma_mod_sub_multiples_vanish(diff + 100, 100);
            vstd::arithmetic::div_mod::lemma_small_mod((diff + 100) as nat, 100);
        } else {
            vstd::arithmetic::div_mod::lemma_small_mod(diff as nat, 100);
        }
    };
    assert(sbc_carry(acc, data, cin) == !borrow1);
}

} // verus!
