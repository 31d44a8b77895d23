//! Byte and word memory accessors, including the page-wrap quirk used by
//! indirect addressing.

use vstd::prelude::*;

use crate::state::CpuView;
use crate::state::Mpu6502;

verus! {

/// `a` reduced to the 16-bit address space.
pub open spec fn wrap16(a: int) -> u16 {
    (a % 0x10000) as u16
}

/// `a` reduced to a byte.
pub open spec fn wrap8(a: int) -> u8 {
    (a % 0x100) as u8
}

/// The byte stored at `addr`.
pub open spec fn byte_at(v: CpuView, addr: u16) -> u8
    recommends
        crate::state::mem_ok(v),
{
    v.mem[addr as int]
}

/// The little-endian word whose low byte sits at `addr` and whose high byte
/// sits at the following address; the successor address wraps around the top
/// of the 16-bit address space.
pub open spec fn word_at(v: CpuView, addr: u16) -> u16 {
    (byte_at(v, addr) + 0x100 * byte_at(v, wrap16(addr + 1))) as u16
}

/// The address one past `addr` within the same 256-byte page: the high byte
/// is kept and only the low byte is incremented, wrapping from 0xff to 0x00.
pub open spec fn same_page_inc(addr: u16) -> u16 {
    ((addr / 0x100) * 0x100 + (addr + 1) % 0x100) as u16
}

/// The little-endian word at `addr` read with the hardware's page-wrap bug:
/// the high byte comes from the start of the same page when the low byte
/// sits at a page's last address.
pub open spec fn wrap_at(v: CpuView, addr: u16) -> u16 {
    (byte_at(v, addr) + 0x100 * byte_at(v, same_page_inc(addr))) as u16
}

/// `v` with the byte at `addr` replaced by `value`.
pub open spec fn store_byte(v: CpuView, addr: u16, value: u8) -> CpuView {
    CpuView { mem: v.mem.update(addr as int, value), ..v }
}

/// `a + 1` reduced to the 16-bit address space.
pub fn wrapping_inc16(a: u16) -> (r: u16)
    ensures
        r == wrap16(a + 1),
{
    if a == 0xffff {
        0
    } else {
        a + 1
    }
}

/// `a + b` reduced to the 16-bit address space.
pub fn wrapping_add16(a: u16, b: u16) -> (r: u16)
    ensures
        r == wrap16(a + b),
{
    (((a as u32) + (b as u32)) % 0x10000) as u16
}

impl Mpu6502 {
    /// The byte stored at `addr`.
    pub fn ByteAt(&self, addr: u16) -> (r: u8)
        requires
            self.wf(),
        ensures
            r == byte_at(self@, addr),
    {
        self.memory[addr as usize]
    }

    /// Stores `value` at `addr`; the loader contract for filling memory
    /// before execution, and the store path of every write operation.
    pub fn SetByte(&mut self, addr: u16, value: u8)
        requires
            old(self).wf(),
        ensures
            final(self).wf(),
            final(self)@ == store_byte(old(self)@, addr, value),
            crate::state::counters_unchanged(*old(self), *final(self)),
    {
        self.memory[addr as usize] = value;
        proof {
            assert(self@ =~= store_byte(old(self)@, addr, value));
        }
    }

    /// The little-endian word whose low byte sits at `addr`; the high-byte
    /// address may cross into the next page (wrapping around the top of the
    /// address space).
    pub fn WordAt(&self, addr: u16) -> (r: u16)
        requires
            self.wf(),
        ensures
            r == word_at(self@, addr),
    {
        let lo = self.ByteAt(addr);
        let hi = self.ByteAt(wrapping_inc16(addr));
        lo as u16 + 0x100 * hi as u16
    }

    /// The little-endian word at `addr` with the page-wrap bug: the high
    /// byte is fetched from within the same page as the low byte, so a
    /// pointer at a page's last address takes its high byte from the start
    /// of that same page, not the next one.
    pub fn WrapAt(&self, addr: u16) -> (r: u16)
        requires
            self.wf(),
        ensures
            r == wrap_at(self@, addr),
    {
        let lo = self.ByteAt(addr);
        let hi_addr: u16 = (addr / 0x100) * 0x100 + (addr % 0x100 + 1) % 0x100;
        let hi = self.ByteAt(hi_addr);
        lo as u16 + 0x100 * hi as u16
    }

    /// The byte the program counter points at.
    pub fn ImmediateByte(&self) -> (r: u8)
        requires
            self.wf(),
        ensures
            r == byte_at(self@, self@.pc),
    {
        self.ByteAt(self.pc)
    }
}

} // verus!
