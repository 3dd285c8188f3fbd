//! The sixteen operations of the data-processing instructions.

use vstd::prelude::*;
use crate::bitwise::{get_bits, spec_get_bits};

verus! {

/// The operation of a data-processing instruction, held in bits 24..=21 of
/// its opcode. The variants are listed in the order of their codes, 0 to 15.
#[derive(Clone, Copy, Debug, PartialEq, Eq, Structural)]
pub enum ArmModeAluInstruction {
    /// Bitwise and.
    And,
    /// Bitwise exclusive or.
    Eor,
    /// Subtract.
    Sub,
    /// Subtract reversed.
    Rsb,
    /// Add.
    Add,
    /// Add with carry.
    Adc,
    /// Subtract with carry.
    Sbc,
    /// Subtract with carry, reversed.
    Rsc,
    /// Test bits: and, flags only.
    Tst,
    /// Test equivalence: exclusive or, flags only.
    Teq,
    /// Compare: subtract, flags only.
    Cmp,
    /// Compare negated: add, flags only.
    Cmn,
    /// Bitwise or.
    Orr,
    /// Move.
    Mov,
    /// Bit clear.
    Bic,
    /// Move negated.
    Mvn,
}

impl ArmModeAluInstruction {
    /// The four-bit code of the operation.
    pub open spec fn spec_code(self) -> u32 {
        match self {
            ArmModeAluInstruction::And => 0,
            ArmModeAluInstruction::Eor => 1,
            ArmModeAluInstruction::Sub => 2,
            ArmModeAluInstruction::Rsb => 3,
            ArmModeAluInstruction::Add => 4,
            ArmModeAluInstruction::Adc => 5,
            ArmModeAluInstruction::Sbc => 6,
            ArmModeAluInstruction::Rsc => 7,
            ArmModeAluInstruction::Tst => 8,
            ArmModeAluInstruction::Teq => 9,
            ArmModeAluInstruction::Cmp => 10,
            ArmModeAluInstruction::Cmn => 11,
            ArmModeAluInstruction::Orr => 12,
            ArmModeAluInstruction::Mov => 13,
            ArmModeAluInstruction::Bic => 14,
            ArmModeAluInstruction::Mvn => 15,
        }
    }

    /// The operation with the given code. Only the low four bits of `code`
    /// count.
    pub open spec fn spec_from_code(code: u32) -> ArmModeAluInstruction {
        let code = code & 0xF;
        if code == 0 {
            ArmModeAluInstruction::And
        } else if code == 1 {
            ArmModeAluInstruction::Eor
        } else if code == 2 {
            ArmModeAluInstruction::Sub
        } else if code == 3 {
            ArmModeAluInstruction::Rsb
        } else if code == 4 {
            ArmModeAluInstruction::Add
        } else if code == 5 {
            ArmModeAluInstruction::Adc
        } else if code == 6 {
            ArmModeAluInstruction::Sbc
        } else if code == 7 {
            ArmModeAluInstruction::Rsc
        } else if code == 8 {
            ArmModeAluInstruction::Tst
        } else if code == 9 {
            ArmModeAluInstruction::Teq
        } else if code == 10 {
            ArmModeAluInstruction::Cmp
        } else if code == 11 {
            ArmModeAluInstruction::Cmn
        } else if code == 12 {
            ArmModeAluInstruction::Orr
        } else if code == 13 {
            ArmModeAluInstruction::Mov
        } else if code == 14 {
            ArmModeAluInstruction::Bic
        } else {
            ArmModeAluInstruction::Mvn
        }
    }

    /// The operation that a data-processing opcode carries in its bits
    /// 24..=21.
    pub open spec fn spec_from_opcode(op_code: u32) -> ArmModeAluInstruction {
        Self::spec_from_code(spec_get_bits(op_code, 21, 24))
    }

    /// Reads the operation of a data-processing opcode from its bits
    /// 24..=21: the operation whose code is the number that these four bits
    /// make.
    pub fn from_opcode(op_code: u32) -> (operation: ArmModeAluInstruction)
        ensures
            operation == Self::spec_from_opcode(op_code),
            operation.spec_code() == spec_get_bits(op_code, 21, 24),
    {
        proof {
            Self::lemma_from_code_round_trip(spec_get_bits(op_code, 21, 24));
            assert(spec_get_bits(op_code, 21, 24) & 0xF == spec_get_bits(op_code, 21, 24))
                by (bit_vector);
        }
        let code: u32 = get_bits(op_code, 21, 24) & 0xF;
        if code == 0 {
            ArmModeAluInstruction::And
        } else if code == 1 {
            ArmModeAluInstruction::Eor
        } else if code == 2 {
            ArmModeAluInstruction::Sub
        } else if code == 3 {
            ArmModeAluInstruction::Rsb
        } else if code == 4 {
            ArmModeAluInstruction::Add
        } else if code == 5 {
            ArmModeAluInstruction::Adc
        } else if code == 6 {
            ArmModeAluInstruction::Sbc
        } else if code == 7 {
            ArmModeAluInstruction::Rsc
        } else if code == 8 {
            ArmModeAluInstruction::Tst
        } else if code == 9 {
            ArmModeAluInstruction::Teq
        } else if code == 10 {
            ArmModeAluInstruction::Cmp
        } else if code == 11 {
            ArmModeAluInstruction::Cmn
        } else if code == 12 {
            ArmModeAluInstruction::Orr
        } else if code == 13 {
            ArmModeAluInstruction::Mov
        } else if code == 14 {
            ArmModeAluInstruction::Bic
        } else {
            ArmModeAluInstruction::Mvn
        }
    }

    /// The code of the operation read from a code is that code's low four
    /// bits.
    pub proof fn lemma_from_code_round_trip(code: u32)
        ensures
            Self::spec_from_code(code).spec_code() == code & 0xF,
    {
        assert(code & 0xF < 16) by (bit_vector);
    }
}

} // verus!
