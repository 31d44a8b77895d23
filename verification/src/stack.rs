//! The page-one stack discipline: byte and word push/pop with an 8-bit
//! stack index that wraps modulo 256.

use vstd::prelude::*;

use crate::state::counters_unchanged;
use crate::state::CpuView;
use crate::state::Mpu6502;
use crate::state::SP_BASE;

verus! {

/// The stack index after one push: one less, wrapping 0x00 to 0xff.
pub open spec fn sp_dec(sp: u8) -> u8 {
    if sp == 0 {
        0xff
    } else {
        (sp - 1) as u8
    }
}

/// The stack index after one pop: one more, wrapping 0xff to 0x00.
pub open spec fn sp_inc(sp: u8) -> u8 {
    if sp == 0xff {
        0
    } else {
        (sp + 1) as u8
    }
}

/// The state after pushing one byte: the byte lands at the current stack
/// address, then the stack index moves down.
pub open spec fn push_byte(v: CpuView, z: u8) -> CpuView {
    CpuView { sp: sp_dec(v.sp), mem: v.mem.update(SP_BASE + v.sp as int, z), ..v }
}

/// The state after popping one byte: only the stack index moves up.
pub open spec fn pop_byte_state(v: CpuView) -> CpuView {
    CpuView { sp: sp_inc(v.sp), ..v }
}

/// The byte a pop returns: read after the stack index has moved up.
pub open spec fn pop_byte_value(v: CpuView) -> u8 {
    v.mem[SP_BASE + sp_inc(v.sp) as int]
}

/// The state after pushing a 16-bit word: high byte first, then low byte.
pub open spec fn push_word(v: CpuView, z: u16) -> CpuView {
    push_byte(push_byte(v, (z / 0x100) as u8), (z % 0x100) as u8)
}

/// The state after popping a 16-bit word: two byte pops.
pub open spec fn pop_word_state(v: CpuView) -> CpuView {
    pop_byte_state(pop_byte_state(v))
}

/// The word a word pop returns: the first pop gives the low byte, the
/// second the high byte.
pub open spec fn pop_word_value(v: CpuView) -> u16 {
    (pop_byte_value(v) + 0x100 * pop_byte_value(pop_byte_state(v))) as u16
}

impl Mpu6502 {
    /// Pushes one byte onto the page-one stack.
    pub fn stPush(&mut self, z: u8)
        requires
            old(self).wf(),
        ensures
            final(self).wf(),
            final(self)@ == push_byte(old(self)@, z),
            counters_unchanged(*old(self), *final(self)),
    {
        let idx: usize = SP_BASE as usize + self.sp as usize;
        self.memory[idx] = z;
        self.sp = if self.sp == 0 {
            0xff
        } else {
            self.sp - 1
        };
        proof {
            assert(self@ =~= push_byte(old(self)@, z));
        }
    }

    /// Pops one byte off the page-one stack.
    pub fn stPop(&mut self) -> (r: u8)
        requires
            old(self).wf(),
        ensures
            final(self).wf(),
            final(self)@ == pop_byte_state(old(self)@),
            r == pop_byte_value(old(self)@),
            counters_unchanged(*old(self), *final(self)),
    {
        self.sp = if self.sp == 0xff {
            0
        } else {
            self.sp + 1
        };
        let idx: u16 = SP_BASE + self.sp as u16;
        let r = self.ByteAt(idx);
        proof {
            assert(self@ =~= pop_byte_state(old(self)@));
        }
        r
    }

    /// Pushes a 16-bit word: high byte first, then low byte, so that a word
    /// pop reconstructs the original value.
    pub fn stPushWord(&mut self, z: u16)
        requires
            old(self).wf(),
        ensures
            final(self).wf(),
            final(self)@ == push_word(old(self)@, z),
            counters_unchanged(*old(self), *final(self)),
    {
        self.stPush((z / 0x100) as u8);
        self.stPush((z % 0x100) as u8);
    }

    /// Pops a 16-bit word: low byte first, then high byte.
    pub fn stPopWord(&mut self) -> (r: u16)
        requires
            old(self).wf(),
        ensures
            final(self).wf(),
            final(self)@ == pop_word_state(old(self)@),
            r == pop_word_value(old(self)@),
            counters_unchanged(*old(self), *final(self)),
    {
        let lo = self.stPop();
        let hi = self.stPop();
        lo as u16 + 0x100 * hi as u16
    }
}

/// Stack round trip: pushing a word and then popping a word returns the
/// original value, for every 16-bit value and every well-formed state, and
/// restores the stack index and every register.
pub proof fn lemma_stack_word_round_trip(v: CpuView, z: u16)
    requires
        crate::state::mem_ok(v),
    ensures
        pop_word_value(push_word(v, z)) == z,
        pop_word_state(push_word(v, z)).sp == v.sp,
        pop_word_state(push_word(v, z)).pc == v.pc,
        pop_word_state(push_word(v, z)).acc == v.acc,
        pop_word_state(push_word(v, z)).x == v.x,
        pop_word_state(push_word(v, z)).y == v.y,
        pop_word_state(push_word(v, z)).p == v.p,
{
    assert(pop_word_value(push_word(v, z)) == z) by {
        assert(0x100 * (z / 0x100) + z % 0x100 == z);
    };
}

/// The state after pushing each byte of `zs` in turn.
pub open spec fn push_bytes(v: CpuView, zs: Seq<u8>) -> CpuView
    decreases zs.len(),
{
    if zs.len() == 0 {
        v
    } else {
        push_bytes(push_byte(v, zs[0]), zs.skip(1))
    }
}

/// After at most 256 pushes the stack index has moved down by the number of
/// pushes, wrapping modulo 256.
pub proof fn lemma_push_bytes_sp(v: CpuView, zs: Seq<u8>)
    requires
        zs.len() <= 0x100,
    ensures
        push_bytes(v, zs).sp == if v.sp >= zs.len() {
            v.sp - zs.len()
        } else {
            v.sp + 0x100 - zs.len()
        },
    decreases zs.len(),
{
    if zs.len() > 0 {
        lemma_push_bytes_sp(push_byte(v, zs[0]), zs.skip(1));
    }
}

/// 256 consecutive pushes without pops wrap the stack index back to where
/// it started.
pub proof fn lemma_stack_wraps_after_256(v: CpuView, zs: Seq<u8>)
    requires
        zs.len() == 0x100,
    ensures
        push_bytes(v, zs).sp == v.sp,
{
    lemma_push_bytes_sp(v, zs);
}

} // verus!
