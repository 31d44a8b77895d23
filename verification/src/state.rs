//! The processor state: registers, status flags, stack index, cycle
//! counters, and the flat 64KB memory, together with its ghost view.

use vstd::prelude::*;

use crate::flags::BREAK;
use crate::flags::UNUSED;

verus! {

/// Number of addressable memory cells.
pub const MEMORY_SIZE: usize = 0x10000;

/// Base address of the page-one stack region.
pub const SP_BASE: u16 = 0x0100;

/// Address of the little-endian RESET vector.
pub const RESET: u16 = 0xfffc;

/// Address of the little-endian NMI vector.
pub const NMI: u16 = 0xfffa;

/// Address of the little-endian IRQ/BRK vector.
pub const IRQ: u16 = 0xfffe;

/// Program-counter value that a freshly constructed processor starts at.
pub const START_PC: u16 = 0x5038;

/// The architectural state of the processor: everything an instruction can
/// observe or change. Cycle counters and configuration are deliberately left
/// out; contracts speak of them through the concrete fields of [`Mpu6502`].
#[verifier::ext_equal]
pub struct CpuView {
    /// Program counter.
    pub pc: u16,
    /// Accumulator.
    pub acc: u8,
    /// X index register.
    pub x: u8,
    /// Y index register.
    pub y: u8,
    /// Status register, bit-mapped as in [`crate::flags`].
    pub p: u8,
    /// Stack index within the page-one stack region.
    pub sp: u8,
    /// The 64KB memory, one byte per address.
    pub mem: Seq<u8>,
}

/// The memory of a view covers the full 16-bit address space.
pub open spec fn mem_ok(v: CpuView) -> bool {
    v.mem.len() == MEMORY_SIZE
}

/// `v` with the program counter replaced.
pub open spec fn with_pc(v: CpuView, pc: u16) -> CpuView {
    CpuView { pc, ..v }
}

/// `v` with the status register replaced.
pub open spec fn with_p(v: CpuView, p: u8) -> CpuView {
    CpuView { p, ..v }
}

/// A 6502/65C02 processor with its own 64KB memory.
pub struct Mpu6502 {
    /// Program counter, always within the 16-bit address space.
    pub pc: u16,
    /// Accumulator.
    pub acc: u8,
    /// X index register.
    pub x: u8,
    /// Y index register.
    pub y: u8,
    /// Status register, bit-mapped as in [`crate::flags`].
    pub p: u8,
    /// Stack index, combined with [`SP_BASE`] to address the stack.
    pub sp: u8,
    /// The 64KB memory; always exactly [`MEMORY_SIZE`] bytes.
    pub memory: Vec<u8>,
    /// Program-counter value that [`Mpu6502::reset`] restores.
    pub start_pc: u16,
    /// Extra cycles charged for page-boundary crossings (saturating).
    pub excycles: u64,
    /// Whether the addressing-mode resolver accounts for extra cycles.
    pub addcycles: bool,
    /// Cumulative executed-cycle count; a hook for callers, never changed
    /// by the operations themselves.
    pub processorCycles: u64,
}

impl View for Mpu6502 {
    type V = CpuView;

    open spec fn view(&self) -> CpuView {
        CpuView {
            pc: self.pc,
            acc: self.acc,
            x: self.x,
            y: self.y,
            p: self.p,
            sp: self.sp,
            mem: self.memory@,
        }
    }
}

/// The cycle counters and configuration fields of `post` equal those of
/// `pre`: the operation left everything outside the architectural view alone.
pub open spec fn counters_unchanged(pre: Mpu6502, post: Mpu6502) -> bool {
    &&& post.excycles == pre.excycles
    &&& post.addcycles == pre.addcycles
    &&& post.processorCycles == pre.processorCycles
    &&& post.start_pc == pre.start_pc
}

impl Mpu6502 {
    /// The processor is well formed: its memory covers the address space.
    pub open spec fn wf(&self) -> bool {
        mem_ok(self@)
    }

    /// A fresh processor: zeroed registers and memory, stack index at the
    /// top of the stack page, Break and Unused set in the status register,
    /// and the program counter at [`START_PC`].
    pub fn new() -> (r: Mpu6502)
        ensures
            r.wf(),
            r@.pc == START_PC,
            r@.acc == 0,
            r@.x == 0,
            r@.y == 0,
            r@.p == (UNUSED | BREAK),
            r@.sp == 0xff,
            forall|i: int| 0 <= i < MEMORY_SIZE ==> r@.mem[i] == 0,
            r.start_pc == START_PC,
            r.excycles == 0,
            r.addcycles == false,
            r.processorCycles == 0,
    {
        let mut memory: Vec<u8> = Vec::new();
        while memory.len() < MEMORY_SIZE
            invariant
                memory@.len() <= MEMORY_SIZE,
                forall|i: int| 0 <= i < memory@.len() ==> memory@[i] == 0,
            decreases MEMORY_SIZE - memory.len(),
        {
            memory.push(0);
        }
        Mpu6502 {
            pc: START_PC,
            acc: 0,
            x: 0,
            y: 0,
            p: UNUSED | BREAK,
            sp: 0xff,
            memory,
            start_pc: START_PC,
            excycles: 0,
            addcycles: false,
            processorCycles: 0,
        }
    }

    /// Restores registers and flags to their power-on values and the program
    /// counter to the configured start address; memory is untouched.
    pub fn reset(&mut self)
        ensures
            final(self)@.pc == old(self).start_pc,
            final(self)@.acc == 0,
            final(self)@.x == 0,
            final(self)@.y == 0,
            final(self)@.p == (UNUSED | BREAK),
            final(self)@.sp == 0xff,
            final(self)@.mem == old(self)@.mem,
            final(self).processorCycles == 0,
            final(self).excycles == old(self).excycles,
            final(self).addcycles == old(self).addcycles,
            final(self).start_pc == old(self).start_pc,
            old(self).wf() ==> final(self).wf(),
    {
        self.pc = self.start_pc;
        self.sp = 0xff;
        self.acc = 0;
        self.x = 0;
        self.y = 0;
        self.p = UNUSED | BREAK;
        self.processorCycles = 0;
    }

    /// The current program counter.
    pub fn ProgramCounter(&self) -> (r: u16)
        ensures
            r == self@.pc,
    {
        self.pc
    }
}

} // verus!
