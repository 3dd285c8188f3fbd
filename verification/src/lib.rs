//! Instruction-execution core of an ARM7TDMI processor in ARM mode.
//!
//! The core fetches 32-bit opcodes from a read-only code image, decodes them
//! into an execution condition and an instruction category, and executes them
//! on a file of sixteen registers and a flags register. Every executable
//! function carries a contract over the pure model of that state.

pub mod alu_instruction;
pub mod arm7tdmi;
pub mod barrel_shifter;
pub mod bitwise;
pub mod condition;
pub mod cpsr;
pub mod error;
pub mod instruction;
