//! The operation set: loads, stores, logic, shifts and rotates,
//! increment/decrement, compare, bit test, flag set/clear, and conditional
//! branches, each specified as an exact state transformation.

use vstd::prelude::*;

use crate::addr::branch_cycles;
use crate::addr::branch_step;
use crate::flags::flag_set;
use crate::flags::lemma_nz_flags;
use crate::flags::set_nz;
use crate::flags::CARRY;
use crate::flags::NEGATIVE;
use crate::flags::OVERFLOW;
use crate::flags::ZERO;
use crate::mem::byte_at;
use crate::mem::store_byte;
use crate::mem::wrap16;
use crate::mem::wrap8;
use crate::mem::wrapping_inc16;
use crate::state::counters_unchanged;
use crate::state::with_p;
use crate::state::with_pc;
use crate::state::CpuView;
use crate::state::Mpu6502;

verus! {

/// Load accumulator: the byte at `addr`, with Negative/Zero derived from it.
pub open spec fn lda_step(v: CpuView, addr: u16) -> CpuView {
    let data = byte_at(v, addr);
    CpuView { acc: data, p: set_nz(v.p, data), ..v }
}

/// Load X: the byte at `addr`, with Negative/Zero derived from it.
pub open spec fn ldx_step(v: CpuView, addr: u16) -> CpuView {
    let data = byte_at(v, addr);
    CpuView { x: data, p: set_nz(v.p, data), ..v }
}

/// Load Y: the byte at `addr`, with Negative/Zero derived from it.
pub open spec fn ldy_step(v: CpuView, addr: u16) -> CpuView {
    let data = byte_at(v, addr);
    CpuView { y: data, p: set_nz(v.p, data), ..v }
}

/// Store accumulator at `addr`; flags untouched.
pub open spec fn sta_step(v: CpuView, addr: u16) -> CpuView {
    store_byte(v, addr, v.acc)
}

/// Store X at `addr`; flags untouched.
pub open spec fn stx_step(v: CpuView, addr: u16) -> CpuView {
    store_byte(v, addr, v.x)
}

/// Store Y at `addr`; flags untouched.
pub open spec fn sty_step(v: CpuView, addr: u16) -> CpuView {
    store_byte(v, addr, v.y)
}

/// Store zero at `addr` (65C02); flags untouched.
pub open spec fn stz_step(v: CpuView, addr: u16) -> CpuView {
    store_byte(v, addr, 0)
}

/// Bitwise OR of the accumulator with the byte at `addr`.
pub open spec fn ora_step(v: CpuView, addr: u16) -> CpuView {
    let result = v.acc | byte_at(v, addr);
    CpuView { acc: result, p: set_nz(v.p, result), ..v }
}

/// Bitwise AND of the accumulator with the byte at `addr`.
pub open spec fn and_step(v: CpuView, addr: u16) -> CpuView {
    let result = v.acc & byte_at(v, addr);
    CpuView { acc: result, p: set_nz(v.p, result), ..v }
}

/// Bitwise exclusive OR of the accumulator with the byte at `addr`.
pub open spec fn eor_step(v: CpuView, addr: u16) -> CpuView {
    let result = v.acc ^ byte_at(v, addr);
    CpuView { acc: result, p: set_nz(v.p, result), ..v }
}

/// Arithmetic shift left of the accumulator (`x == None`) or of the byte at
/// the given address: Carry takes the pre-shift bit 7, Negative/Zero follow
/// the post-shift value.
pub open spec fn asl_step(v: CpuView, x: Option<u16>) -> CpuView {
    let tbyte = match x {
        Option::Some(addr) => byte_at(v, addr),
        Option::None => v.acc,
    };
    let shifted = wrap8(tbyte * 2);
    let p0 = v.p & !(CARRY | NEGATIVE | ZERO);
    let p1 = if tbyte >= 0x80 {
        p0 | CARRY
    } else {
        p0
    };
    let p2 = if shifted == 0 {
        p1 | ZERO
    } else if shifted >= 0x80 {
        p1 | NEGATIVE
    } else {
        p1
    };
    match x {
        Option::Some(addr) => store_byte(with_p(v, p2), addr, shifted),
        Option::None => CpuView { acc: shifted, p: p2, ..v },
    }
}

/// Rotate left through Carry: bit 0 takes the incoming Carry, Carry takes
/// the pre-rotate bit 7, Negative/Zero follow the rotated value.
pub open spec fn rol_step(v: CpuView, x: Option<u16>) -> CpuView {
    let tbyte = match x {
        Option::Some(addr) => byte_at(v, addr),
        Option::None => v.acc,
    };
    let cin: int = if flag_set(v.p, CARRY) {
        1
    } else {
        0
    };
    let p1 = if tbyte >= 0x80 {
        v.p | CARRY
    } else {
        v.p & !CARRY
    };
    let rotated = wrap8(tbyte * 2 + cin);
    let p2 = set_nz(p1, rotated);
    match x {
        Option::Some(addr) => store_byte(with_p(v, p2), addr, rotated),
        Option::None => CpuView { acc: rotated, p: p2, ..v },
    }
}

/// Logical shift right: Carry takes the pre-shift bit 0, Zero follows the
/// shifted value, and Negative can never be set.
pub open spec fn lsr_step(v: CpuView, x: Option<u16>) -> CpuView {
    let tbyte = match x {
        Option::Some(addr) => byte_at(v, addr),
        Option::None => v.acc,
    };
    let shifted = (tbyte / 2) as u8;
    let p0 = v.p & !(CARRY | NEGATIVE | ZERO);
    let p1 = if tbyte % 2 == 1 {
        p0 | CARRY
    } else {
        p0
    };
    let p2 = if shifted == 0 {
        p1 | ZERO
    } else {
        p1
    };
    match x {
        Option::Some(addr) => store_byte(with_p(v, p2), addr, shifted),
        Option::None => CpuView { acc: shifted, p: p2, ..v },
    }
}

/// Increment (accumulator or memory) by one, wrapping to a byte, with
/// Negative/Zero derived from the result.
pub open spec fn incr_step(v: CpuView, x: Option<u16>) -> CpuView {
    let tbyte = match x {
        Option::Some(addr) => byte_at(v, addr),
        Option::None => v.acc,
    };
    let result = wrap8(tbyte + 1);
    let p = set_nz(v.p, result);
    match x {
        Option::Some(addr) => store_byte(with_p(v, p), addr, result),
        Option::None => CpuView { acc: result, p, ..v },
    }
}

/// Decrement (accumulator or memory) by one, wrapping to a byte, with
/// Negative/Zero derived from the result.
pub open spec fn decr_step(v: CpuView, x: Option<u16>) -> CpuView {
    let tbyte = match x {
        Option::Some(addr) => byte_at(v, addr),
        Option::None => v.acc,
    };
    let result = wrap8(tbyte + 0xff);
    let p = set_nz(v.p, result);
    match x {
        Option::Some(addr) => store_byte(with_p(v, p), addr, result),
        Option::None => CpuView { acc: result, p, ..v },
    }
}

/// Compare a register with the byte at `addr`: Carry when the register is
/// at least the memory value, Zero when equal, Negative from bit 7 of the
/// wrapped difference.
pub open spec fn cmpr_step(v: CpuView, addr: u16, register_value: u8) -> CpuView {
    let tbyte = byte_at(v, addr);
    let p0 = v.p & !(CARRY | ZERO | NEGATIVE);
    let p1 = if register_value == tbyte {
        p0 | CARRY | ZERO
    } else if register_value > tbyte {
        p0 | CARRY
    } else {
        p0
    };
    let diff = wrap8(register_value + 0x100 - tbyte);
    let p2 = if diff >= 0x80 {
        p1 | NEGATIVE
    } else {
        p1
    };
    with_p(v, p2)
}

/// Bit test: Zero from the AND of accumulator and memory, Negative and
/// Overflow copied from bits 7 and 6 of the memory operand itself.
pub open spec fn bit_step(v: CpuView, addr: u16) -> CpuView {
    let tbyte = byte_at(v, addr);
    let p0 = v.p & !(ZERO | NEGATIVE | OVERFLOW);
    let p1 = if v.acc & tbyte == 0 {
        p0 | ZERO
    } else {
        p0
    };
    with_p(v, p1 | (tbyte & (NEGATIVE | OVERFLOW)))
}

/// Unconditionally sets every flag of `mask`.
pub open spec fn set_step(v: CpuView, mask: u8) -> CpuView {
    with_p(v, v.p | mask)
}

/// Unconditionally clears every flag of `mask`.
pub open spec fn clr_step(v: CpuView, mask: u8) -> CpuView {
    with_p(v, v.p & !mask)
}

/// Branch when every flag of `mask` reads clear; otherwise skip the
/// displacement byte.
pub open spec fn bcl_step(v: CpuView, mask: u8) -> CpuView {
    if v.p & mask != 0 {
        with_pc(v, wrap16(v.pc + 1))
    } else {
        branch_step(v)
    }
}

/// Branch when some flag of `mask` reads set; otherwise skip the
/// displacement byte.
pub open spec fn bst_step(v: CpuView, mask: u8) -> CpuView {
    if v.p & mask != 0 {
        branch_step(v)
    } else {
        with_pc(v, wrap16(v.pc + 1))
    }
}

/// The extra-cycle counter after [`bcl_step`]: a taken branch charges
/// branch cycles, a skipped one charges nothing.
pub open spec fn bcl_cycles(v: CpuView, mask: u8, c: u64) -> u64 {
    if v.p & mask != 0 {
        c
    } else {
        branch_cycles(v, c)
    }
}

/// The extra-cycle counter after [`bst_step`].
pub open spec fn bst_cycles(v: CpuView, mask: u8, c: u64) -> u64 {
    if v.p & mask != 0 {
        branch_cycles(v, c)
    } else {
        c
    }
}

impl Mpu6502 {
    /// Derives Negative and Zero from `value`, the sole flag path used by
    /// every operation that "sets NZ": Zero is set iff `value` is zero, and
    /// Negative equals bit 7 of `value` whenever `value` is non-zero; all
    /// other flags keep their readings.
    pub fn FlagsNZ(&mut self, value: u8)
        ensures
            final(self)@ == with_p(old(self)@, set_nz(old(self)@.p, value)),
            old(self).wf() ==> final(self).wf(),
            counters_unchanged(*old(self), *final(self)),
            flag_set(final(self)@.p, ZERO) <==> value == 0,
            flag_set(final(self)@.p, NEGATIVE) <==> (value != 0 && value >= 0x80),
            flag_set(final(self)@.p, CARRY) <==> flag_set(old(self)@.p, CARRY),
            flag_set(final(self)@.p, OVERFLOW) <==> flag_set(old(self)@.p, OVERFLOW),
            flag_set(final(self)@.p, crate::flags::DECIMAL) <==> flag_set(
                old(self)@.p,
                crate::flags::DECIMAL,
            ),
            flag_set(final(self)@.p, crate::flags::INTERRUPT) <==> flag_set(
                old(self)@.p,
                crate::flags::INTERRUPT,
            ),
    {
        proof {
            lemma_nz_flags(self.p, value);
        }
        self.p = self.p & !(ZERO | NEGATIVE);
        if value == 0 {
            self.p = self.p | ZERO;
        } else if value >= 0x80 {
            self.p = self.p | NEGATIVE;
        }
        proof {
            assert(self@ =~= with_p(old(self)@, set_nz(old(self)@.p, value)));
        }
    }

    /// Loads the accumulator from `addr` and derives Negative/Zero.
    pub fn opLDA(&mut self, x: u16)
        requires
            old(self).wf(),
        ensures
            final(self).wf(),
            final(self)@ == lda_step(old(self)@, x),
            counters_unchanged(*old(self), *final(self)),
    {
        let data = self.ByteAt(x);
        self.acc = data;
        self.FlagsNZ(data);
        proof {
            assert(self@ =~= lda_step(old(self)@, x));
        }
    }

    /// Loads X from `addr` and derives Negative/Zero.
    pub fn opLDX(&mut self, y: u16)
        requires
            old(self).wf(),
        ensures
            final(self).wf(),
            final(self)@ == ldx_step(old(self)@, y),
            counters_unchanged(*old(self), *final(self)),
    {
        let data = self.ByteAt(y);
        self.x = data;
        self.FlagsNZ(data);
        proof {
            assert(self@ =~= ldx_step(old(self)@, y));
        }
    }

    /// Loads Y from `addr` and derives Negative/Zero.
    pub fn opLDY(&mut self, x: u16)
        requires
            old(self).wf(),
        ensures
            final(self).wf(),
            final(self)@ == ldy_step(old(self)@, x),
            counters_unchanged(*old(self), *final(self)),
    {
        let data = self.ByteAt(x);
        self.y = data;
        self.FlagsNZ(data);
        proof {
            assert(self@ =~= ldy_step(old(self)@, x));
        }
    }

    /// Stores the accumulator at `addr`; flags untouched.
    pub fn opSTA(&mut self, x: u16)
        requires
            old(self).wf(),
        ensures
            final(self).wf(),
            final(self)@ == sta_step(old(self)@, x),
            counters_unchanged(*old(self), *final(self)),
    {
        let data = self.acc;
        self.SetByte(x, data);
    }

    /// Stores X at `addr`; flags untouched.
    pub fn opSTX(&mut self, y: u16)
        requires
            old(self).wf(),
        ensures
            final(self).wf(),
            final(self)@ == stx_step(old(self)@, y),
            counters_unchanged(*old(self), *final(self)),
    {
        let data = self.x;
        self.SetByte(y, data);
    }

    /// Stores Y at `addr`; flags untouched.
    pub fn opSTY(&mut self, x: u16)
        requires
            old(self).wf(),
        ensures
            final(self).wf(),
            final(self)@ == sty_step(old(self)@, x),
            counters_unchanged(*old(self), *final(self)),
    {
        let data = self.y;
        self.SetByte(x, data);
    }

    /// Stores zero at `addr` (65C02); flags untouched.
    pub fn opSTZ(&mut self, x: u16)
        requires
            old(self).wf(),
        ensures
            final(self).wf(),
            final(self)@ == stz_step(old(self)@, x),
            counters_unchanged(*old(self), *final(self)),
    {
        self.SetByte(x, 0);
    }

    /// ORs the byte at `addr` into the accumulator and derives
    /// Negative/Zero.
    pub fn opORA(&mut self, x: u16)
        requires
            old(self).wf(),
        ensures
            final(self).wf(),
            final(self)@ == ora_step(old(self)@, x),
            counters_unchanged(*old(self), *final(self)),
    {
        let data = self.ByteAt(x);
        self.acc = self.acc | data;
        let result = self.acc;
        self.FlagsNZ(result);
        proof {
            assert(self@ =~= ora_step(old(self)@, x));
        }
    }

    /// ANDs the byte at `addr` into the accumulator and derives
    /// Negative/Zero.
    pub fn opAND(&mut self, x: u16)
        requires
            old(self).wf(),
        ensures
            final(self).wf(),
            final(self)@ == and_step(old(self)@, x),
            counters_unchanged(*old(self), *final(self)),
    {
        let data = self.ByteAt(x);
        self.acc = self.acc & data;
        let result = self.acc;
        self.FlagsNZ(result);
        proof {
            assert(self@ =~= and_step(old(self)@, x));
        }
    }

    /// Exclusive-ORs the byte at `addr` into the accumulator and derives
    /// Negative/Zero.
    pub fn opEOR(&mut self, x: u16)
        requires
            old(self).wf(),
        ensures
            final(self).wf(),
            final(self)@ == eor_step(old(self)@, x),
            counters_unchanged(*old(self), *final(self)),
    {
        let data = self.ByteAt(x);
        self.acc = self.acc ^ data;
        let result = self.acc;
        self.FlagsNZ(result);
        proof {
            assert(self@ =~= eor_step(old(self)@, x));
        }
    }

    /// Shift left of the accumulator (`None`) or of the byte at the given
    /// address.
    pub fn opASL(&mut self, x: Option<u16>)
        requires
            old(self).wf(),
        ensures
            final(self).wf(),
            final(self)@ == asl_step(old(self)@, x),
            counters_unchanged(*old(self), *final(self)),
    {
        let tbyte = match x {
            Option::Some(addr) => self.ByteAt(addr),
            Option::None => self.acc,
        };
        let mut p = self.p & !(CARRY | NEGATIVE | ZERO);
        if tbyte >= 0x80 {
            p = p | CARRY;
        }
        let shifted = ((tbyte as u16 * 2) % 0x100) as u8;
        if shifted == 0 {
            p = p | ZERO;
        } else if shifted >= 0x80 {
            p = p | NEGATIVE;
        }
        self.p = p;
        match x {
            Option::Some(addr) => self.SetByte(addr, shifted),
            Option::None => self.acc = shifted,
        }
        proof {
            assert(self@ =~= asl_step(old(self)@, x));
        }
    }

    /// Rotate left through Carry of the accumulator (`None`) or of the byte
    /// at the given address.
    pub fn opROL(&mut self, x: Option<u16>)
        requires
            old(self).wf(),
        ensures
            final(self).wf(),
            final(self)@ == rol_step(old(self)@, x),
            counters_unchanged(*old(self), *final(self)),
    {
        let tbyte = match x {
            Option::Some(addr) => self.ByteAt(addr),
            Option::None => self.acc,
        };
        let cin: u16 = if self.p & CARRY != 0 {
            1
        } else {
            0
        };
        if tbyte >= 0x80 {
            self.p = self.p | CARRY;
        } else {
            self.p = self.p & !CARRY;
        }
        let rotated = ((tbyte as u16 * 2 + cin) % 0x100) as u8;
        self.FlagsNZ(rotated);
        match x {
            Option::Some(addr) => self.SetByte(addr, rotated),
            Option::None => self.acc = rotated,
        }
        proof {
            assert(self@ =~= rol_step(old(self)@, x));
        }
    }

    /// Logical shift right of the accumulator (`None`) or of the byte at
    /// the given address.
    pub fn opLSR(&mut self, x: Option<u16>)
        requires
            old(self).wf(),
        ensures
            final(self).wf(),
            final(self)@ == lsr_step(old(self)@, x),
            counters_unchanged(*old(self), *final(self)),
    {
        let tbyte = match x {
            Option::Some(addr) => self.ByteAt(addr),
            Option::None => self.acc,
        };
        let mut p = self.p & !(CARRY | NEGATIVE | ZERO);
        if tbyte % 2 == 1 {
            p = p | CARRY;
        }
        let shifted = tbyte / 2;
        if shifted == 0 {
            p = p | ZERO;
        }
        self.p = p;
        match x {
            Option::Some(addr) => self.SetByte(addr, shifted),
            Option::None => self.acc = shifted,
        }
        proof {
            assert(self@ =~= lsr_step(old(self)@, x));
        }
    }

    /// Increments the accumulator (`None`) or the byte at the given
    /// address, wrapping to a byte.
    pub fn opINCR(&mut self, x: Option<u16>)
        requires
            old(self).wf(),
        ensures
            final(self).wf(),
            final(self)@ == incr_step(old(self)@, x),
            counters_unchanged(*old(self), *final(self)),
    {
        let tbyte = match x {
            Option::Some(addr) => self.ByteAt(addr),
            Option::None => self.acc,
        };
        let result = ((tbyte as u16 + 1) % 0x100) as u8;
        self.FlagsNZ(result);
        match x {
            Option::Some(addr) => self.SetByte(addr, result),
            Option::None => self.acc = result,
        }
        proof {
            assert(self@ =~= incr_step(old(self)@, x));
        }
    }

    /// Decrements the accumulator (`None`) or the byte at the given
    /// address, wrapping to a byte.
    pub fn opDECR(&mut self, x: Option<u16>)
        requires
            old(self).wf(),
        ensures
            final(self).wf(),
            final(self)@ == decr_step(old(self)@, x),
            counters_unchanged(*old(self), *final(self)),
    {
        let tbyte = match x {
            Option::Some(addr) => self.ByteAt(addr),
            Option::None => self.acc,
        };
        let result = ((tbyte as u16 + 0xff) % 0x100) as u8;
        self.FlagsNZ(result);
        match x {
            Option::Some(addr) => self.SetByte(addr, result),
            Option::None => self.acc = result,
        }
        proof {
            assert(self@ =~= decr_step(old(self)@, x));
        }
    }

    /// Compares `register_value` with the byte at `addr`, setting Carry,
    /// Zero, and Negative.
    pub fn opCMPR(&mut self, addr: u16, register_value: u8)
        requires
            old(self).wf(),
        ensures
            final(self).wf(),
            final(self)@ == cmpr_step(old(self)@, addr, register_value),
            counters_unchanged(*old(self), *final(self)),
    {
        let tbyte = self.ByteAt(addr);
        let mut p = self.p & !(CARRY | ZERO | NEGATIVE);
        if register_value == tbyte {
            p = p | CARRY | ZERO;
        } else if register_value > tbyte {
            p = p | CARRY;
        }
        let diff = ((register_value as u16 + 0x100 - tbyte as u16) % 0x100) as u8;
        if diff >= 0x80 {
            p = p | NEGATIVE;
        }
        self.p = p;
        proof {
            assert(self@ =~= cmpr_step(old(self)@, addr, register_value));
        }
    }

    /// Bit test of the accumulator against the byte at `addr`.
    pub fn opBIT(&mut self, x: u16)
        requires
            old(self).wf(),
        ensures
            final(self).wf(),
            final(self)@ == bit_step(old(self)@, x),
            counters_unchanged(*old(self), *final(self)),
    {
        let tbyte = self.ByteAt(x);
        let mut p = self.p & !(ZERO | NEGATIVE | OVERFLOW);
        if self.acc & tbyte == 0 {
            p = p | ZERO;
        }
        p = p | (tbyte & (NEGATIVE | OVERFLOW));
        self.p = p;
        proof {
            assert(self@ =~= bit_step(old(self)@, x));
        }
    }

    /// Unconditionally sets every flag of `x`.
    pub fn opSET(&mut self, x: u8)
        ensures
            final(self)@ == set_step(old(self)@, x),
            old(self).wf() ==> final(self).wf(),
            counters_unchanged(*old(self), *final(self)),
    {
        self.p = self.p | x;
        proof {
            assert(self@ =~= set_step(old(self)@, x));
        }
    }

    /// Unconditionally clears every flag of `x`.
    pub fn opCLR(&mut self, x: u8)
        ensures
            final(self)@ == clr_step(old(self)@, x),
            old(self).wf() ==> final(self).wf(),
            counters_unchanged(*old(self), *final(self)),
    {
        self.p = self.p & !x;
        proof {
            assert(self@ =~= clr_step(old(self)@, x));
        }
    }

    /// Branches when every flag of `x` reads clear; otherwise skips the
    /// displacement byte.
    pub fn opBCL(&mut self, x: u8)
        requires
            old(self).wf(),
        ensures
            final(self).wf(),
            final(self)@ == bcl_step(old(self)@, x),
            final(self).excycles == bcl_cycles(old(self)@, x, old(self).excycles),
            final(self).addcycles == old(self).addcycles,
            final(self).processorCycles == old(self).processorCycles,
            final(self).start_pc == old(self).start_pc,
    {
        if self.p & x != 0 {
            self.pc = wrapping_inc16(self.pc);
            proof {
                assert(self@ =~= bcl_step(old(self)@, x));
            }
        } else {
            self.BranchRelAddr();
        }
    }

    /// Branches when some flag of `x` reads set; otherwise skips the
    /// displacement byte.
    pub fn opBST(&mut self, x: u8)
        requires
            old(self).wf(),
        ensures
            final(self).wf(),
            final(self)@ == bst_step(old(self)@, x),
            final(self).excycles == bst_cycles(old(self)@, x, old(self).excycles),
            final(self).addcycles == old(self).addcycles,
            final(self).processorCycles == old(self).processorCycles,
            final(self).start_pc == old(self).start_pc,
    {
        if self.p & x != 0 {
            self.BranchRelAddr();
        } else {
            self.pc = wrapping_inc16(self.pc);
            proof {
                assert(self@ =~= bst_step(old(self)@, x));
            }
        }
    }
}

} // verus!
