//! The instruction categories of ARM mode and the bit patterns that select
//! them.

use vstd::prelude::*;
use vstd::std_specs::convert::TryFromSpecImpl;
use crate::bitwise::{get_bit, get_bits, spec_get_bit, spec_get_bits};
use crate::condition::Condition;
use crate::error::CpuError;

verus! {

/// The category of an instruction. Data processing has one variant for each
/// way of giving its second operand.
#[derive(Clone, Copy, Debug, PartialEq, Eq, Structural)]
pub enum ArmModeInstruction {
    /// Data processing on a register shifted by an immediate amount.
    DataProcessing1,
    /// Data processing on a register shifted by the amount in a register.
    DataProcessing2,
    /// Data processing on a rotated immediate value.
    DataProcessing3,
    /// Branch.
    Branch,
    /// Branch with link.
    BranchLink,
    /// Single data transfer.
    DataTransfer,
}

impl ArmModeInstruction {
    /// The category that the bits 27..=24 and 4 of an opcode select, if any.
    ///
    /// Bits 27..=25 equal to `101` select a branch, with link if bit 24 is
    /// set. Bits 27..=26 equal to `00` select data processing: on an
    /// immediate if bit 25 is set, else on a register shifted by a register
    /// if bit 4 is set, else on a register shifted by an immediate. Bits
    /// 27..=26 equal to `01` select a single data transfer.
    pub open spec fn spec_decode(op_code: u32) -> Option<ArmModeInstruction> {
        if spec_get_bits(op_code, 25, 27) == 0b101 {
            if spec_get_bit(op_code, 24) {
                Some(ArmModeInstruction::BranchLink)
            } else {
                Some(ArmModeInstruction::Branch)
            }
        } else if spec_get_bits(op_code, 26, 27) == 0b00 {
            if spec_get_bit(op_code, 25) {
                Some(ArmModeInstruction::DataProcessing3)
            } else if spec_get_bit(op_code, 4) {
                Some(ArmModeInstruction::DataProcessing2)
            } else {
                Some(ArmModeInstruction::DataProcessing1)
            }
        } else if spec_get_bits(op_code, 26, 27) == 0b01 {
            Some(ArmModeInstruction::DataTransfer)
        } else {
            None
        }
    }

    /// The bits of an opcode that select the category, with the values that
    /// select `self`.
    pub open spec fn spec_pattern(self) -> u32 {
        match self {
            ArmModeInstruction::DataProcessing1 => 0x0000_0000,
            ArmModeInstruction::DataProcessing2 => 0x0000_0010,
            ArmModeInstruction::DataProcessing3 => 0x0200_0000,
            ArmModeInstruction::Branch => 0x0A00_0000,
            ArmModeInstruction::BranchLink => 0x0B00_0000,
            ArmModeInstruction::DataTransfer => 0x0400_0000,
        }
    }

    /// The positions of the bits that select `self`, together with the four
    /// bits of the condition.
    pub open spec fn spec_mask(self) -> u32 {
        match self {
            ArmModeInstruction::DataProcessing1 => 0xFE00_0010,
            ArmModeInstruction::DataProcessing2 => 0xFE00_0010,
            ArmModeInstruction::DataProcessing3 => 0xFE00_0000,
            ArmModeInstruction::Branch => 0xFF00_0000,
            ArmModeInstruction::BranchLink => 0xFF00_0000,
            ArmModeInstruction::DataTransfer => 0xFC00_0000,
        }
    }

    /// The opcode with the given condition and category whose other bits are
    /// those of `operands`.
    pub open spec fn spec_encode(self, condition: Condition, operands: u32) -> u32 {
        (condition.spec_code() << 28) | self.spec_pattern() | (operands & !self.spec_mask())
    }

    /// Builds the opcode with the given condition and category. The bits of
    /// `operands` fill the positions that neither of them occupies.
    pub fn encode(self, condition: Condition, operands: u32) -> (op_code: u32)
        ensures
            op_code == self.spec_encode(condition, operands),
    {
        let (pattern, mask): (u32, u32) = match self {
            ArmModeInstruction::DataProcessing1 => (0x0000_0000, 0xFE00_0010),
            ArmModeInstruction::DataProcessing2 => (0x0000_0010, 0xFE00_0010),
            ArmModeInstruction::DataProcessing3 => (0x0200_0000, 0xFE00_0000),
            ArmModeInstruction::Branch => (0x0A00_0000, 0xFF00_0000),
            ArmModeInstruction::BranchLink => (0x0B00_0000, 0xFF00_0000),
            ArmModeInstruction::DataTransfer => (0x0400_0000, 0xFC00_0000),
        };
        (condition.code() << 28) | pattern | (operands & !mask)
    }

    /// Decoding is the inverse of encoding: the opcode built from a condition
    /// and a category decodes to that condition and that category, whatever
    /// its other bits are.
    pub proof fn lemma_decode_encode(self, condition: Condition, operands: u32)
        ensures
            Self::spec_decode(self.spec_encode(condition, operands)) == Some(self),
            Condition::spec_from_opcode(self.spec_encode(condition, operands)) == condition,
    {
        let code = condition.spec_code();
        let op_code = self.spec_encode(condition, operands);
        condition.lemma_code_round_trip();
        match self {
            ArmModeInstruction::DataProcessing1 => {
                assert(spec_get_bits(op_code, 25, 27) != 0b101 && spec_get_bits(op_code, 26, 27)
                    == 0b00 && !spec_get_bit(op_code, 25) && !spec_get_bit(op_code, 4)
                    && spec_get_bits(op_code, 28, 31) & 0xF == code) by (bit_vector)
                    requires
                        code < 16,
                        op_code == (code << 28) | 0x0000_0000u32 | (operands & !0xFE00_0010u32),
                ;
            },
            ArmModeInstruction::DataProcessing2 => {
                assert(spec_get_bits(op_code, 25, 27) != 0b101 && spec_get_bits(op_code, 26, 27)
                    == 0b00 && !spec_get_bit(op_code, 25) && spec_get_bit(op_code, 4)
                    && spec_get_bits(op_code, 28, 31) & 0xF == code) by (bit_vector)
                    requires
                        code < 16,
                        op_code == (code << 28) | 0x0000_0010u32 | (operands & !0xFE00_0010u32),
                ;
            },
            ArmModeInstruction::DataProcessing3 => {
                assert(spec_get_bits(op_code, 25, 27) != 0b101 && spec_get_bits(op_code, 26, 27)
                    == 0b00 && spec_get_bit(op_code, 25) && spec_get_bits(op_code, 28, 31) & 0xF
                    == code) by (bit_vector)
                    requires
                        code < 16,
                        op_code == (code << 28) | 0x0200_0000u32 | (operands & !0xFE00_0000u32),
                ;
            },
            ArmModeInstruction::Branch => {
                assert(spec_get_bits(op_code, 25, 27) == 0b101 && !spec_get_bit(op_code, 24)
                    && spec_get_bits(op_code, 28, 31) & 0xF == code) by (bit_vector)
                    requires
                        code < 16,
                        op_code == (code << 28) | 0x0A00_0000u32 | (operands & !0xFF00_0000u32),
                ;
            },
            ArmModeInstruction::BranchLink => {
                assert(spec_get_bits(op_code, 25, 27) == 0b101 && spec_get_bit(op_code, 24)
                    && spec_get_bits(op_code, 28, 31) & 0xF == code) by (bit_vector)
                    requires
                        code < 16,
                        op_code == (code << 28) | 0x0B00_0000u32 | (operands & !0xFF00_0000u32),
                ;
            },
            ArmModeInstruction::DataTransfer => {
                assert(spec_get_bits(op_code, 25, 27) != 0b101 && spec_get_bits(op_code, 26, 27)
                    == 0b01 && spec_get_bits(op_code, 28, 31) & 0xF == code) by (bit_vector)
                    requires
                        code < 16,
                        op_code == (code << 28) | 0x0400_0000u32 | (operands & !0xFC00_0000u32),
                ;
            },
        }
    }

    /// Encoding is the inverse of decoding: an opcode that decodes is built
    /// again from its condition, its category and its own bits.
    pub proof fn lemma_encode_decode(op_code: u32)
        requires
            Self::spec_decode(op_code) is Some,
        ensures
            Self::spec_decode(op_code).unwrap().spec_encode(
                Condition::spec_from_opcode(op_code),
                op_code,
            ) == op_code,
    {
        let instruction = Self::spec_decode(op_code).unwrap();
        let field = spec_get_bits(op_code, 28, 31);
        let code = Condition::spec_from_opcode(op_code).spec_code();
        Condition::lemma_from_code_round_trip(field);
        assert(code == field & 0xF);
        match instruction {
            ArmModeInstruction::DataProcessing1 => {
                assert((code << 28) | 0x0000_0000u32 | (op_code & !0xFE00_0010u32) == op_code)
                    by (bit_vector)
                    requires
                        code == spec_get_bits(op_code, 28, 31) & 0xF,
                        spec_get_bits(op_code, 26, 27) == 0b00,
                        !spec_get_bit(op_code, 25),
                        !spec_get_bit(op_code, 4),
                ;
            },
            ArmModeInstruction::DataProcessing2 => {
                assert((code << 28) | 0x0000_0010u32 | (op_code & !0xFE00_0010u32) == op_code)
                    by (bit_vector)
                    requires
                        code == spec_get_bits(op_code, 28, 31) & 0xF,
                        spec_get_bits(op_code, 26, 27) == 0b00,
                        !spec_get_bit(op_code, 25),
                        spec_get_bit(op_code, 4),
                ;
            },
            ArmModeInstruction::DataProcessing3 => {
                assert((code << 28) | 0x0200_0000u32 | (op_code & !0xFE00_0000u32) == op_code)
                    by (bit_vector)
                    requires
                        code == spec_get_bits(op_code, 28, 31) & 0xF,
                        spec_get_bits(op_code, 26, 27) == 0b00,
                        spec_get_bit(op_code, 25),
                ;
            },
            ArmModeInstruction::Branch => {
                assert((code << 28) | 0x0A00_0000u32 | (op_code & !0xFF00_0000u32) == op_code)
                    by (bit_vector)
                    requires
                        code == spec_get_bits(op_code, 28, 31) & 0xF,
                        spec_get_bits(op_code, 25, 27) == 0b101,
                        !spec_get_bit(op_code, 24),
                ;
            },
            ArmModeInstruction::BranchLink => {
                assert((code << 28) | 0x0B00_0000u32 | (op_code & !0xFF00_0000u32) == op_code)
                    by (bit_vector)
                    requires
                        code == spec_get_bits(op_code, 28, 31) & 0xF,
                        spec_get_bits(op_code, 25, 27) == 0b101,
                        spec_get_bit(op_code, 24),
                ;
            },
            ArmModeInstruction::DataTransfer => {
                assert((code << 28) | 0x0400_0000u32 | (op_code & !0xFC00_0000u32) == op_code)
                    by (bit_vector)
                    requires
                        code == spec_get_bits(op_code, 28, 31) & 0xF,
                        spec_get_bits(op_code, 26, 27) == 0b01,
                ;
            },
        }
    }

    /// Among the opcodes whose bits 27..=25 are `101`, bit 24 alone tells a
    /// branch with link from a plain branch.
    pub proof fn lemma_branch_told_by_bit_24(op_code: u32)
        requires
            spec_get_bits(op_code, 25, 27) == 0b101,
        ensures
            spec_get_bit(op_code, 24) ==> Self::spec_decode(op_code) == Some(
                ArmModeInstruction::BranchLink,
            ),
            !spec_get_bit(op_code, 24) ==> Self::spec_decode(op_code) == Some(
                ArmModeInstruction::Branch,
            ),
    {
    }
}

impl TryFrom<u32> for ArmModeInstruction {
    type Error = CpuError;

    /// Classifies an opcode. An opcode of no category is refused as
    /// undecodable.
    fn try_from(op_code: u32) -> (result: Result<Self, CpuError>) {
        if get_bits(op_code, 25, 27) == 0b101 {
            if get_bit(op_code, 24) {
                Ok(ArmModeInstruction::BranchLink)
            } else {
                Ok(ArmModeInstruction::Branch)
            }
        } else if get_bits(op_code, 26, 27) == 0b00 {
            if get_bit(op_code, 25) {
                Ok(ArmModeInstruction::DataProcessing3)
            } else if get_bit(op_code, 4) {
                Ok(ArmModeInstruction::DataProcessing2)
            } else {
                Ok(ArmModeInstruction::DataProcessing1)
            }
        } else if get_bits(op_code, 26, 27) == 0b01 {
            Ok(ArmModeInstruction::DataTransfer)
        } else {
            Err(CpuError::UndecodableOpcode)
        }
    }
}

impl TryFromSpecImpl<u32> for ArmModeInstruction {
    open spec fn obeys_try_from_spec() -> bool {
        true
    }

    open spec fn try_from_spec(op_code: u32) -> Result<Self, CpuError> {
        match Self::spec_decode(op_code) {
            Some(instruction) => Ok(instruction),
            None => Err(CpuError::UndecodableOpcode),
        }
    }
}

} // verus!
