//! The fetch-decode-execute loop: one `step` runs exactly one instruction,
//! and its effect on the architectural state equals the spec-level
//! interpreter [`step_spec`].

use vstd::prelude::*;

use crate::addr::absolute_addr;
use crate::addr::branch_step;
use crate::addr::indexed_addr;
use crate::addr::indexed_cycles;
use crate::addr::indirect_x_addr;
use crate::addr::indirect_y_base;
use crate::addr::zero_page_addr;
use crate::addr::zero_page_indexed_addr;
use crate::addr::zero_page_indirect_addr;
use crate::alu::adc_step;
use crate::alu::sbc_step;
use crate::decode::decode;
use crate::decode::operand_len;
use crate::decode::operand_length;
use crate::decode::spec_decode;
use crate::decode::AddrMode;
use crate::decode::Instruction;
use crate::decode::MemOp;
use crate::flags::set_nz;
use crate::flags::BREAK;
use crate::flags::INTERRUPT;
use crate::flags::UNUSED;
use crate::mem::byte_at;
use crate::mem::word_at;
use crate::mem::wrap16;
use crate::mem::wrap8;
use crate::mem::wrap_at;
use crate::mem::wrapping_add16;
use crate::mem::wrapping_inc16;
use crate::ops::asl_step;
use crate::ops::bcl_step;
use crate::ops::bst_step;
use crate::ops::clr_step;
use crate::ops::cmpr_step;
use crate::ops::decr_step;
use crate::ops::eor_step;
use crate::ops::incr_step;
use crate::ops::lda_step;
use crate::ops::ldx_step;
use crate::ops::ldy_step;
use crate::ops::ora_step;
use crate::ops::rol_step;
use crate::ops::set_step;
use crate::ops::sta_step;
use crate::ops::stx_step;
use crate::ops::sty_step;
use crate::ops::stz_step;
use crate::stack::pop_byte_state;
use crate::stack::pop_byte_value;
use crate::stack::pop_word_state;
use crate::stack::pop_word_value;
use crate::stack::push_byte;
use crate::stack::push_word;
use crate::state::with_p;
use crate::state::with_pc;
use crate::state::CpuView;
use crate::state::Mpu6502;
use crate::state::IRQ;

verus! {

/// `x + 1` wrapped to a byte.
pub open spec fn inc8(x: u8) -> u8 {
    wrap8(x + 1)
}

/// `x - 1` wrapped to a byte.
pub open spec fn dec8(x: u8) -> u8 {
    wrap8(x + 0xff)
}

/// The effective address a mode resolves to; for the immediate mode the
/// program counter itself, which points at the operand byte.
pub open spec fn resolve_spec(v: CpuView, mode: AddrMode) -> u16 {
    match mode {
        AddrMode::Immediate => v.pc,
        AddrMode::ZeroPage => zero_page_addr(v),
        AddrMode::ZeroPageX => zero_page_indexed_addr(v, v.x),
        AddrMode::ZeroPageY => zero_page_indexed_addr(v, v.y),
        AddrMode::Absolute => absolute_addr(v),
        AddrMode::AbsoluteX => indexed_addr(absolute_addr(v), v.x),
        AddrMode::AbsoluteY => indexed_addr(absolute_addr(v), v.y),
        AddrMode::IndirectX => indirect_x_addr(v),
        AddrMode::IndirectY => indexed_addr(indirect_y_base(v), v.y),
        AddrMode::ZeroPageIndirect => zero_page_indirect_addr(v),
    }
}

/// The extra-cycle counter after resolving `mode`: only the indexed modes
/// with a page-crossing rule can charge a cycle.
pub open spec fn resolve_cycles(v: CpuView, mode: AddrMode, addcycles: bool, c: u64) -> u64 {
    match mode {
        AddrMode::AbsoluteX => indexed_cycles(c, addcycles, absolute_addr(v), v.x),
        AddrMode::AbsoluteY => indexed_cycles(c, addcycles, absolute_addr(v), v.y),
        AddrMode::IndirectY => indexed_cycles(c, addcycles, indirect_y_base(v), v.y),
        _ => c,
    }
}

/// The state after running a memory-operand operation on the byte at
/// `addr`.
pub open spec fn mem_op_spec(op: MemOp, v: CpuView, addr: u16) -> CpuView {
    match op {
        MemOp::Ora => ora_step(v, addr),
        MemOp::Eor => eor_step(v, addr),
        MemOp::Adc => adc_step(v, addr),
        MemOp::Sbc => sbc_step(v, addr),
        MemOp::CmpAcc => cmpr_step(v, addr, v.acc),
        MemOp::CmpX => cmpr_step(v, addr, v.x),
        MemOp::CmpY => cmpr_step(v, addr, v.y),
        MemOp::Lda => lda_step(v, addr),
        MemOp::Ldx => ldx_step(v, addr),
        MemOp::Ldy => ldy_step(v, addr),
        MemOp::Sta => sta_step(v, addr),
        MemOp::Stx => stx_step(v, addr),
        MemOp::Sty => sty_step(v, addr),
        MemOp::Stz => stz_step(v, addr),
        MemOp::Inc => incr_step(v, Option::Some(addr)),
        MemOp::Dec => decr_step(v, Option::Some(addr)),
        MemOp::Asl => asl_step(v, Option::Some(addr)),
        MemOp::Rol => rol_step(v, Option::Some(addr)),
    }
}

/// Software interrupt: push the program counter, push the flags with Break
/// and Unused forced set, set Interrupt-disable, and jump through the IRQ
/// vector.
pub open spec fn brk_step(v: CpuView) -> CpuView {
    let v1 = push_word(v, v.pc);
    let p1 = v1.p | BREAK;
    let v2 = push_byte(with_p(v1, p1), p1 | BREAK | UNUSED);
    let p2 = v2.p | INTERRUPT;
    with_pc(with_p(v2, p2), word_at(v2, IRQ))
}

/// Return from interrupt: pop the flags (forcing Break and Unused set),
/// then pop the program counter.
pub open spec fn rti_step(v: CpuView) -> CpuView {
    let p1 = pop_byte_value(v) | BREAK | UNUSED;
    let v1 = with_p(pop_byte_state(v), p1);
    with_pc(pop_word_state(v1), pop_word_value(v1))
}

/// Return from subroutine: pop the program counter and advance it by one.
pub open spec fn rts_step(v: CpuView) -> CpuView {
    with_pc(pop_word_state(v), wrap16(pop_word_value(v) + 1))
}

/// Subroutine call: push the address of the last operand byte, then jump to
/// the absolute target, read after the push.
pub open spec fn jsr_step(v: CpuView) -> CpuView {
    let v1 = push_word(v, wrap16(v.pc + 1));
    with_pc(v1, word_at(v1, v.pc))
}

/// Absolute jump.
pub open spec fn jmp_abs_step(v: CpuView) -> CpuView {
    with_pc(v, word_at(v, v.pc))
}

/// Indirect jump, inheriting the page-wrap bug of the pointer read.
pub open spec fn jmp_ind_step(v: CpuView) -> CpuView {
    with_pc(v, wrap_at(v, word_at(v, v.pc)))
}

/// Push the accumulator.
pub open spec fn pha_step(v: CpuView) -> CpuView {
    push_byte(v, v.acc)
}

/// Pop the accumulator, deriving Negative/Zero from it.
pub open spec fn pla_step(v: CpuView) -> CpuView {
    let b = pop_byte_value(v);
    let v1 = pop_byte_state(v);
    CpuView { acc: b, p: set_nz(v1.p, b), ..v1 }
}

/// Copy X to the accumulator, deriving Negative/Zero.
pub open spec fn txa_step(v: CpuView) -> CpuView {
    CpuView { acc: v.x, p: set_nz(v.p, v.x), ..v }
}

/// Copy the accumulator to X, deriving Negative/Zero.
pub open spec fn tax_step(v: CpuView) -> CpuView {
    CpuView { x: v.acc, p: set_nz(v.p, v.acc), ..v }
}

/// Copy Y to the accumulator, deriving Negative/Zero.
pub open spec fn tya_step(v: CpuView) -> CpuView {
    CpuView { acc: v.y, p: set_nz(v.p, v.y), ..v }
}

/// Copy the accumulator to Y, deriving Negative/Zero.
pub open spec fn tay_step(v: CpuView) -> CpuView {
    CpuView { y: v.acc, p: set_nz(v.p, v.acc), ..v }
}

/// Copy X to the stack index; flags untouched.
pub open spec fn txs_step(v: CpuView) -> CpuView {
    CpuView { sp: v.x, ..v }
}

/// Copy the stack index to X, deriving Negative/Zero.
pub open spec fn tsx_step(v: CpuView) -> CpuView {
    CpuView { x: v.sp, p: set_nz(v.p, v.sp), ..v }
}

/// Increment X, deriving Negative/Zero.
pub open spec fn inx_step(v: CpuView) -> CpuView {
    CpuView { x: inc8(v.x), p: set_nz(v.p, inc8(v.x)), ..v }
}

/// Increment Y, deriving Negative/Zero.
pub open spec fn iny_step(v: CpuView) -> CpuView {
    CpuView { y: inc8(v.y), p: set_nz(v.p, inc8(v.y)), ..v }
}

/// Decrement X, deriving Negative/Zero.
pub open spec fn dex_step(v: CpuView) -> CpuView {
    CpuView { x: dec8(v.x), p: set_nz(v.p, dec8(v.x)), ..v }
}

/// Decrement Y, deriving Negative/Zero.
pub open spec fn dey_step(v: CpuView) -> CpuView {
    CpuView { y: dec8(v.y), p: set_nz(v.p, dec8(v.y)), ..v }
}

/// The state after executing the decoded instruction, given that the
/// program counter already points at the first operand byte. Memory-operand
/// instructions advance the program counter past their operand afterwards;
/// an unknown opcode skips one extra byte and leaves everything else
/// untouched.
pub open spec fn instr_spec(i: Instruction, v: CpuView) -> CpuView {
    match i {
        Instruction::Mem(op, mode) => {
            let addr = resolve_spec(v, mode);
            let v2 = mem_op_spec(op, v, addr);
            with_pc(v2, wrap16(v2.pc + operand_len(mode)))
        },
        Instruction::AccAsl => asl_step(v, Option::None),
        Instruction::AccRol => rol_step(v, Option::None),
        Instruction::AccInc => incr_step(v, Option::None),
        Instruction::AccDec => decr_step(v, Option::None),
        Instruction::BranchIfClear(mask) => bcl_step(v, mask),
        Instruction::BranchIfSet(mask) => bst_step(v, mask),
        Instruction::BranchAlways => branch_step(v),
        Instruction::SetFlags(mask) => set_step(v, mask),
        Instruction::ClearFlags(mask) => clr_step(v, mask),
        Instruction::Brk => brk_step(v),
        Instruction::Rti => rti_step(v),
        Instruction::Rts => rts_step(v),
        Instruction::Jsr => jsr_step(v),
        Instruction::JmpAbs => jmp_abs_step(v),
        Instruction::JmpInd => jmp_ind_step(v),
        Instruction::Pha => pha_step(v),
        Instruction::Pla => pla_step(v),
        Instruction::Txa => txa_step(v),
        Instruction::Tax => tax_step(v),
        Instruction::Tya => tya_step(v),
        Instruction::Tay => tay_step(v),
        Instruction::Txs => txs_step(v),
        Instruction::Tsx => tsx_step(v),
        Instruction::Inx => inx_step(v),
        Instruction::Iny => iny_step(v),
        Instruction::Dex => dex_step(v),
        Instruction::Dey => dey_step(v),
        Instruction::Unknown => with_pc(v, wrap16(v.pc + 1)),
    }
}

/// One full fetch-decode-execute cycle: read the opcode at the program
/// counter, advance past it, and run the decoded instruction.
pub open spec fn step_spec(v: CpuView) -> CpuView {
    let opcode = byte_at(v, v.pc);
    let v1 = with_pc(v, wrap16(v.pc + 1));
    instr_spec(spec_decode(opcode), v1)
}

impl Mpu6502 {
    /// Resolves the effective address of `mode`, charging extra cycles for
    /// page crossings where the mode calls for them. The architectural
    /// state is left untouched.
    pub fn ResolveAddr(&mut self, mode: AddrMode) -> (r: u16)
        requires
            old(self).wf(),
        ensures
            final(self).wf(),
            final(self)@ == old(self)@,
            r == resolve_spec(old(self)@, mode),
            final(self).excycles == resolve_cycles(
                old(self)@,
                mode,
                old(self).addcycles,
                old(self).excycles,
            ),
            final(self).addcycles == old(self).addcycles,
            final(self).processorCycles == old(self).processorCycles,
            final(self).start_pc == old(self).start_pc,
    {
        match mode {
            AddrMode::Immediate => self.pc,
            AddrMode::ZeroPage => self.ZeroPageAddr(),
            AddrMode::ZeroPageX => self.ZeroPageXAddr(),
            AddrMode::ZeroPageY => self.ZeroPageYAddr(),
            AddrMode::Absolute => self.AbsoluteAddr(),
            AddrMode::AbsoluteX => self.AbsoluteXAddr(),
            AddrMode::AbsoluteY => self.AbsoluteYAddr(),
            AddrMode::IndirectX => self.IndirectXAddr(),
            AddrMode::IndirectY => self.IndirectYAddr(),
            AddrMode::ZeroPageIndirect => self.ZeroPageIndirectAddr(),
        }
    }

    /// Runs a memory-operand operation on the byte at `addr`.
    pub fn RunMemOp(&mut self, op: MemOp, addr: u16)
        requires
            old(self).wf(),
        ensures
            final(self).wf(),
            final(self)@ == mem_op_spec(op, old(self)@, addr),
            crate::state::counters_unchanged(*old(self), *final(self)),
    {
        match op {
            MemOp::Ora => self.opORA(addr),
            MemOp::Eor => self.opEOR(addr),
            MemOp::Adc => self.opADC(addr),
            MemOp::Sbc => self.opSBC(addr),
            MemOp::CmpAcc => {
                let r = self.acc;
                self.opCMPR(addr, r);
            },
            MemOp::CmpX => {
                let r = self.x;
                self.opCMPR(addr, r);
            },
            MemOp::CmpY => {
                let r = self.y;
                self.opCMPR(addr, r);
            },
            MemOp::Lda => self.opLDA(addr),
            MemOp::Ldx => self.opLDX(addr),
            MemOp::Ldy => self.opLDY(addr),
            MemOp::Sta => self.opSTA(addr),
            MemOp::Stx => self.opSTX(addr),
            MemOp::Sty => self.opSTY(addr),
            MemOp::Stz => self.opSTZ(addr),
            MemOp::Inc => self.opINCR(Option::Some(addr)),
            MemOp::Dec => self.opDECR(Option::Some(addr)),
            MemOp::Asl => self.opASL(Option::Some(addr)),
            MemOp::Rol => self.opROL(Option::Some(addr)),
        }
    }

    /// Executes exactly one instruction: fetches the opcode at the program
    /// counter, advances past it, dispatches through the opcode table, and
    /// leaves the architectural state exactly as [`step_spec`] says. The
    /// program counter always stays within the 16-bit address space, and no
    /// reachable state makes the step fail. An unknown opcode advances the
    /// program counter one extra byte and changes nothing else.
    #[verifier::rlimit(100)]
    pub fn step(&mut self)
        requires
            old(self).wf(),
        ensures
            final(self).wf(),
            final(self)@ == step_spec(old(self)@),
            final(self).excycles >= old(self).excycles,
            final(self).addcycles == old(self).addcycles,
            final(self).processorCycles == old(self).processorCycles,
            final(self).start_pc == old(self).start_pc,
    {
        let opcode = self.ByteAt(self.pc);
        self.pc = wrapping_inc16(self.pc);
        proof {
            assert(self@ =~= with_pc(old(self)@, wrap16(old(self)@.pc + 1)));
        }
        let ghost v1 = self@;
        match decode(opcode) {
            Instruction::Mem(op, mode) => {
                let addr = self.ResolveAddr(mode);
                self.RunMemOp(op, addr);
                let advance = operand_length(mode);
                self.pc = wrapping_add16(self.pc, advance);
                proof {
                    assert(self@ =~= instr_spec(spec_decode(opcode), v1));
                }
            },
            Instruction::AccAsl => {
                self.opASL(Option::None);
            },
            Instruction::AccRol => {
                self.opROL(Option::None);
            },
            Instruction::AccInc => {
                self.opINCR(Option::None);
            },
            Instruction::AccDec => {
                self.opDECR(Option::None);
            },
            Instruction::BranchIfClear(mask) => {
                self.opBCL(mask);
            },
            Instruction::BranchIfSet(mask) => {
                self.opBST(mask);
            },
            Instruction::BranchAlways => {
                self.BranchRelAddr();
            },
            Instruction::SetFlags(mask) => {
                self.opSET(mask);
            },
            Instruction::ClearFlags(mask) => {
                self.opCLR(mask);
            },
            Instruction::Brk => {
                let pc = self.pc;
                self.stPushWord(pc);
                self.p = self.p | BREAK;
                let pushed = self.p | BREAK | UNUSED;
                self.stPush(pushed);
                self.p = self.p | INTERRUPT;
                let target = self.WordAt(IRQ);
                self.pc = target;
                proof {
                    assert(self@ =~= brk_step(v1));
                }
            },
            Instruction::Rti => {
                let popped = self.stPop();
                self.p = popped | BREAK | UNUSED;
                let target = self.stPopWord();
                self.pc = target;
                proof {
                    assert(self@ =~= rti_step(v1));
                }
            },
            Instruction::Rts => {
                let popped = self.stPopWord();
                self.pc = wrapping_inc16(popped);
                proof {
                    assert(self@ =~= rts_step(v1));
                }
            },
            Instruction::Jsr => {
                let ret = wrapping_inc16(self.pc);
                self.stPushWord(ret);
                let target = self.WordAt(self.pc);
                self.pc = target;
                proof {
                    assert(self@ =~= jsr_step(v1));
                }
            },
            Instruction::JmpAbs => {
                let target = self.WordAt(self.pc);
                self.pc = target;
                proof {
                    assert(self@ =~= jmp_abs_step(v1));
                }
            },
            Instruction::JmpInd => {
                let pointer = self.WordAt(self.pc);
                let target = self.WrapAt(pointer);
                self.pc = target;
                proof {
                    assert(self@ =~= jmp_ind_step(v1));
                }
            },
            Instruction::Pha => {
                let a = self.acc;
                self.stPush(a);
            },
            Instruction::Pla => {
                let b = self.stPop();
                self.acc = b;
                self.FlagsNZ(b);
                proof {
                    assert(self@ =~= pla_step(v1));
                }
            },
            Instruction::Txa => {
                let r = self.x;
                self.acc = r;
                self.FlagsNZ(r);
                proof {
                    assert(self@ =~= txa_step(v1));
                }
            },
            Instruction::Tax => {
                let r = self.acc;
                self.x = r;
                self.FlagsNZ(r);
                proof {
                    assert(self@ =~= tax_step(v1));
                }
            },
            Instruction::Tya => {
                let r = self.y;
                self.acc = r;
                self.FlagsNZ(r);
                proof {
                    assert(self@ =~= tya_step(v1));
                }
            },
            Instruction::Tay => {
                let r = self.acc;
                self.y = r;
                self.FlagsNZ(r);
                proof {
                    assert(self@ =~= tay_step(v1));
                }
            },
            Instruction::Txs => {
                self.sp = self.x;
                proof {
                    assert(self@ =~= txs_step(v1));
                }
            },
            Instruction::Tsx => {
                let r = self.sp;
                self.x = r;
                self.FlagsNZ(r);
                proof {
                    assert(self@ =~= tsx_step(v1));
                }
            },
            Instruction::Inx => {
                let r = if self.x == 0xff {
                    0
                } else {
                    self.x + 1
                };
                self.x = r;
                self.FlagsNZ(r);
                proof {
                    assert(self@ =~= inx_step(v1));
                }
            },
            Instruction::Iny => {
                let r = if self.y == 0xff {
                    0
                } else {
                    self.y + 1
                };
                self.y = r;
                self.FlagsNZ(r);
                proof {
                    assert(self@ =~= iny_step(v1));
                }
            },
            Instruction::Dex => {
                let r = if self.x == 0 {
                    0xff
                } else {
                    self.x - 1
                };
                self.x = r;
                self.FlagsNZ(r);
                proof {
                    assert(self@ =~= dex_step(v1));
                }
            },
            Instruction::Dey => {
                let r = if self.y == 0 {
                    0xff
                } else {
                    self.y - 1
                };
                self.y = r;
                self.FlagsNZ(r);
                proof {
                    assert(self@ =~= dey_step(v1));
                }
            },
            Instruction::Unknown => {
                self.pc = wrapping_inc16(self.pc);
                proof {
                    assert(self@ =~= with_pc(v1, wrap16(v1.pc + 1)));
                }
            },
        }
        proof {
            assert(self@ =~= step_spec(old(self)@));
        }
    }
}

} // verus!
