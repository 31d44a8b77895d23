//! An instruction-level model of the 6502/65C02 microprocessor.
//!
//! The crate models the register and flag state, a flat 64KB memory, the
//! addressing-mode resolver, the arithmetic/logic operation set (including
//! decimal-mode correction), the page-one stack discipline, and the
//! fetch-decode-execute cycle with a total opcode dispatch table.
//!
//! Every architectural effect of an instruction is specified against a ghost
//! view of the processor ([`state::CpuView`]) and proved: `step` never panics,
//! always leaves the program counter inside the 16-bit address space, and
//! transforms the state exactly as the spec-level interpreter
//! [`step::step_spec`] says.
#![allow(non_snake_case)]

pub mod addr;
pub mod alu;
pub mod decode;
pub mod flags;
pub mod mem;
pub mod ops;
pub mod stack;
pub mod state;
pub mod step;

pub use decode::AddrMode;
pub use decode::Instruction;
pub use decode::MemOp;

pub use state::CpuView;
pub use state::Mpu6502;
