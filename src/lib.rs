//! An instruction-level emulator of the MOS 6502 processor core.
//!
//! [`Cpu::execute_single`] fetches one opcode from a caller-owned [`Memory`],
//! decodes it through the opcode table ([`Op::by_opcode`]), carries the
//! instruction out and returns the cycle budget left. Its contract states the
//! effect exactly, against the instruction semantics in [`semantics`]:
//! registers, flags, memory and cycles. [`laws`] proves properties that span
//! several instructions.
//!
//! Opcodes outside the table do nothing beyond their one-cycle fetch.
//! Decimal mode is not emulated: the Decimal flag is stored, set and cleared,
//! but addition and subtraction are always binary.
pub mod cpu;
pub mod flags;
pub mod laws;
pub mod memory;
pub mod ops;
pub mod semantics;

pub use cpu::{Cpu, OperatingMode};
pub use flags::{CpuStatusFlags, Flag};
pub use memory::{BasicMemory, Memory, MAX_MEMORY};
pub use ops::{decode, AddressingMode, Instruction, LogicalOperation, Op, Register};
