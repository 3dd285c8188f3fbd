//! The ways in which a step of the core can fail.

use vstd::prelude::*;

verus! {

/// Why the core could not carry out an instruction. A failed operation leaves
/// registers and flags as they were.
#[derive(Clone, Copy, Debug, PartialEq, Eq, Structural)]
pub enum CpuError {
    /// The opcode's bit pattern belongs to no instruction category.
    UndecodableOpcode,
    /// The opcode was decoded, but the core has no handler for this
    /// operation or addressing form.
    UnimplementedInstruction,
    /// The program counter points at a word that does not lie wholly inside
    /// the code image.
    FetchOutOfBounds,
}

} // verus!
