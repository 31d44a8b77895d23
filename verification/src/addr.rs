//! The addressing-mode resolver: effective-address computation for each
//! operand form, with extra-cycle accounting for page crossings, and the
//! relative-branch target computation.

use vstd::prelude::*;

use crate::mem::byte_at;
use crate::mem::word_at;
use crate::mem::wrap16;
use crate::mem::wrap_at;
use crate::mem::wrapping_add16;
use crate::mem::wrapping_inc16;
use crate::state::with_pc;
use crate::state::CpuView;
use crate::state::Mpu6502;

verus! {

/// `c + 1`, saturating at the top of `u64` instead of overflowing.
pub open spec fn sat_inc(c: u64) -> u64 {
    if c == u64::MAX {
        c
    } else {
        (c + 1) as u64
    }
}

/// Exec mirror of [`sat_inc`].
pub fn saturating_inc(c: u64) -> (r: u64)
    ensures
        r == sat_inc(c),
{
    if c == u64::MAX {
        c
    } else {
        c + 1
    }
}

/// Adding the index register to `base` carries out of the low byte, which
/// is exactly when the effective address lands on a different page.
pub open spec fn page_crossed(base: u16, idx: u8) -> bool {
    base % 0x100 + idx > 0xff
}

/// The effective address of an indexed mode: base plus index register,
/// reduced to the 16-bit address space.
pub open spec fn indexed_addr(base: u16, idx: u8) -> u16 {
    wrap16(base + idx)
}

/// The extra-cycle counter after resolving an indexed mode with base
/// `base` and index `idx`: one more cycle exactly when the addition crossed
/// a page boundary and cycle accounting is on.
pub open spec fn indexed_cycles(c: u64, addcycles: bool, base: u16, idx: u8) -> u64 {
    if addcycles && page_crossed(base, idx) {
        sat_inc(c)
    } else {
        c
    }
}

/// The extra-cycle flag of the indexed modes fires iff the low-byte
/// addition carries, which happens iff the high byte of the effective
/// address differs from the high byte of the base address.
pub proof fn lemma_page_crossed_iff(base: u16, idx: u8)
    by (bit_vector)
    ensures
        page_crossed(base, idx) <==> base / 0x100 != indexed_addr(base, idx) / 0x100,
{
}

/// Zero-page address: the operand byte itself.
pub open spec fn zero_page_addr(v: CpuView) -> u16 {
    byte_at(v, v.pc) as u16
}

/// Zero-page indexed address: operand plus index register, wrapping within
/// page zero.
pub open spec fn zero_page_indexed_addr(v: CpuView, idx: u8) -> u16 {
    ((byte_at(v, v.pc) + idx) % 0x100) as u16
}

/// Absolute address: the operand word.
pub open spec fn absolute_addr(v: CpuView) -> u16 {
    word_at(v, v.pc)
}

/// Pre-indexed indirect address: the zero-page pointer location is indexed
/// by X (wrapping within page zero) before the indirection, which uses the
/// page-wrapped word read.
pub open spec fn indirect_x_addr(v: CpuView) -> u16 {
    wrap_at(v, ((byte_at(v, v.pc) + v.x) % 0x100) as u16)
}

/// Post-indexed indirect base: the zero-page pointer is dereferenced with
/// the page-wrapped word read; Y is added afterwards.
pub open spec fn indirect_y_base(v: CpuView) -> u16 {
    wrap_at(v, byte_at(v, v.pc) as u16)
}

/// Zero-page indirect address (65C02): the zero-page pointer dereferenced
/// with a plain word read, no index added.
pub open spec fn zero_page_indirect_addr(v: CpuView) -> u16 {
    word_at(v, byte_at(v, v.pc) as u16)
}

/// The target of a relative branch whose displacement byte sits at `v.pc`:
/// the displacement is signed, applied to the address after the operand.
pub open spec fn branch_target(v: CpuView) -> u16 {
    let op = byte_at(v, v.pc);
    let pc1 = wrap16(v.pc + 1);
    if op < 0x80 {
        wrap16(pc1 + op)
    } else {
        wrap16(pc1 + op + 0xff00)
    }
}

/// The state after a taken branch: only the program counter moves.
pub open spec fn branch_step(v: CpuView) -> CpuView {
    with_pc(v, branch_target(v))
}

/// The extra-cycle counter after a taken branch: one cycle for taking it,
/// one more when the target sits on a different page than the address after
/// the displacement byte.
pub open spec fn branch_cycles(v: CpuView, c: u64) -> u64 {
    if wrap16(v.pc + 1) / 0x100 != branch_target(v) / 0x100 {
        sat_inc(sat_inc(c))
    } else {
        sat_inc(c)
    }
}

impl Mpu6502 {
    /// Zero-page address: the operand byte names a cell in page zero.
    pub fn ZeroPageAddr(&mut self) -> (r: u16)
        requires
            old(self).wf(),
        ensures
            final(self).wf(),
            final(self)@ == old(self)@,
            r == zero_page_addr(old(self)@),
            crate::state::counters_unchanged(*old(self), *final(self)),
    {
        self.ByteAt(self.pc) as u16
    }

    /// Zero-page,X address: operand plus X, wrapping within page zero.
    pub fn ZeroPageXAddr(&mut self) -> (r: u16)
        requires
            old(self).wf(),
        ensures
            final(self).wf(),
            final(self)@ == old(self)@,
            r == zero_page_indexed_addr(old(self)@, old(self)@.x),
            crate::state::counters_unchanged(*old(self), *final(self)),
    {
        let operand = self.ByteAt(self.pc);
        (operand as u16 + self.x as u16) % 0x100
    }

    /// Zero-page,Y address: operand plus Y, wrapping within page zero.
    pub fn ZeroPageYAddr(&mut self) -> (r: u16)
        requires
            old(self).wf(),
        ensures
            final(self).wf(),
            final(self)@ == old(self)@,
            r == zero_page_indexed_addr(old(self)@, old(self)@.y),
            crate::state::counters_unchanged(*old(self), *final(self)),
    {
        let operand = self.ByteAt(self.pc);
        (operand as u16 + self.y as u16) % 0x100
    }

    /// Absolute address: the operand word.
    pub fn AbsoluteAddr(&mut self) -> (r: u16)
        requires
            old(self).wf(),
        ensures
            final(self).wf(),
            final(self)@ == old(self)@,
            r == absolute_addr(old(self)@),
            crate::state::counters_unchanged(*old(self), *final(self)),
    {
        self.WordAt(self.pc)
    }

    /// Absolute,X address, charging one extra cycle when the indexed
    /// addition crosses a page boundary and cycle accounting is on.
    pub fn AbsoluteXAddr(&mut self) -> (r: u16)
        requires
            old(self).wf(),
        ensures
            final(self).wf(),
            final(self)@ == old(self)@,
            r == indexed_addr(absolute_addr(old(self)@), old(self)@.x),
            final(self).excycles == indexed_cycles(
                old(self).excycles,
                old(self).addcycles,
                absolute_addr(old(self)@),
                old(self)@.x,
            ),
            final(self).addcycles == old(self).addcycles,
            final(self).processorCycles == old(self).processorCycles,
            final(self).start_pc == old(self).start_pc,
    {
        let a1 = self.WordAt(self.pc);
        let a2 = wrapping_add16(a1, self.x as u16);
        if self.addcycles && a1 / 0x100 != a2 / 0x100 {
            self.excycles = saturating_inc(self.excycles);
        }
        proof {
            lemma_page_crossed_iff(a1, old(self)@.x);
        }
        a2
    }

    /// Absolute,Y address, with the same extra-cycle rule as Absolute,X.
    pub fn AbsoluteYAddr(&mut self) -> (r: u16)
        requires
            old(self).wf(),
        ensures
            final(self).wf(),
            final(self)@ == old(self)@,
            r == indexed_addr(absolute_addr(old(self)@), old(self)@.y),
            final(self).excycles == indexed_cycles(
                old(self).excycles,
                old(self).addcycles,
                absolute_addr(old(self)@),
                old(self)@.y,
            ),
            final(self).addcycles == old(self).addcycles,
            final(self).processorCycles == old(self).processorCycles,
            final(self).start_pc == old(self).start_pc,
    {
        let a1 = self.WordAt(self.pc);
        let a2 = wrapping_add16(a1, self.y as u16);
        if self.addcycles && a1 / 0x100 != a2 / 0x100 {
            self.excycles = saturating_inc(self.excycles);
        }
        proof {
            lemma_page_crossed_iff(a1, old(self)@.y);
        }
        a2
    }

    /// Indirect,X address: the operand is a zero-page pointer location,
    /// indexed by X before the (page-wrapped) indirection.
    pub fn IndirectXAddr(&mut self) -> (r: u16)
        requires
            old(self).wf(),
        ensures
            final(self).wf(),
            final(self)@ == old(self)@,
            r == indirect_x_addr(old(self)@),
            crate::state::counters_unchanged(*old(self), *final(self)),
    {
        let operand = self.ByteAt(self.pc);
        let ptr: u16 = (operand as u16 + self.x as u16) % 0x100;
        self.WrapAt(ptr)
    }

    /// Indirect,Y address: the zero-page pointer is dereferenced first
    /// (page-wrapped), then Y is added, with the indexed extra-cycle rule.
    pub fn IndirectYAddr(&mut self) -> (r: u16)
        requires
            old(self).wf(),
        ensures
            final(self).wf(),
            final(self)@ == old(self)@,
            r == indexed_addr(indirect_y_base(old(self)@), old(self)@.y),
            final(self).excycles == indexed_cycles(
                old(self).excycles,
                old(self).addcycles,
                indirect_y_base(old(self)@),
                old(self)@.y,
            ),
            final(self).addcycles == old(self).addcycles,
            final(self).processorCycles == old(self).processorCycles,
            final(self).start_pc == old(self).start_pc,
    {
        let operand = self.ByteAt(self.pc);
        let a1 = self.WrapAt(operand as u16);
        let a2 = wrapping_add16(a1, self.y as u16);
        if self.addcycles && a1 / 0x100 != a2 / 0x100 {
            self.excycles = saturating_inc(self.excycles);
        }
        proof {
            lemma_page_crossed_iff(a1, old(self)@.y);
        }
        a2
    }

    /// Zero-page indirect address (65C02): plain word read through the
    /// zero-page pointer, no index.
    pub fn ZeroPageIndirectAddr(&mut self) -> (r: u16)
        requires
            old(self).wf(),
        ensures
            final(self).wf(),
            final(self)@ == old(self)@,
            r == zero_page_indirect_addr(old(self)@),
            crate::state::counters_unchanged(*old(self), *final(self)),
    {
        let operand = self.ByteAt(self.pc);
        self.WordAt(operand as u16)
    }

    /// Takes a relative branch: consumes the displacement byte at the
    /// program counter and jumps, charging one cycle for the taken branch
    /// and one more when the target lies on a different page.
    pub fn BranchRelAddr(&mut self)
        requires
            old(self).wf(),
        ensures
            final(self).wf(),
            final(self)@ == branch_step(old(self)@),
            final(self).excycles == branch_cycles(old(self)@, old(self).excycles),
            final(self).addcycles == old(self).addcycles,
            final(self).processorCycles == old(self).processorCycles,
            final(self).start_pc == old(self).start_pc,
    {
        self.excycles = saturating_inc(self.excycles);
        let displacement = self.ImmediateByte();
        let pc1 = wrapping_inc16(self.pc);
        let target: u16 = if displacement < 0x80 {
            wrapping_add16(pc1, displacement as u16)
        } else {
            wrapping_add16(pc1, displacement as u16 + 0xff00)
        };
        if pc1 / 0x100 != target / 0x100 {
            self.excycles = saturating_inc(self.excycles);
        }
        self.pc = target;
        proof {
            assert(self@ =~= branch_step(old(self)@));
        }
    }
}

} // verus!
