//! The sixteen execution conditions of an ARM instruction.

use vstd::prelude::*;
use crate::bitwise::{get_bits, spec_get_bits};

verus! {

/// The condition under which an instruction executes, held in bits 31..=28 of
/// its opcode. The variants are listed in the order of their codes, 0 to 15.
#[derive(Clone, Copy, Debug, PartialEq, Eq, Structural)]
pub enum Condition {
    /// Equal: Z set.
    EQ,
    /// Not equal: Z clear.
    NE,
    /// Carry set, or unsigned higher or same.
    CS,
    /// Carry clear, or unsigned lower.
    CC,
    /// Minus: N set.
    MI,
    /// Plus: N clear.
    PL,
    /// Overflow: V set.
    VS,
    /// No overflow: V clear.
    VC,
    /// Unsigned higher.
    HI,
    /// Unsigned lower or same.
    LS,
    /// Signed greater or equal.
    GE,
    /// Signed less than.
    LT,
    /// Signed greater than.
    GT,
    /// Signed less or equal.
    LE,
    /// Always.
    AL,
    /// Never (reserved).
    NV,
}

impl Condition {
    /// The condition with the given code. Only the low four bits of `code`
    /// count.
    pub open spec fn spec_from_code(code: u32) -> Condition {
        let code = code & 0xF;
        if code == 0 {
            Condition::EQ
        } else if code == 1 {
            Condition::NE
        } else if code == 2 {
            Condition::CS
        } else if code == 3 {
            Condition::CC
        } else if code == 4 {
            Condition::MI
        } else if code == 5 {
            Condition::PL
        } else if code == 6 {
            Condition::VS
        } else if code == 7 {
            Condition::VC
        } else if code == 8 {
            Condition::HI
        } else if code == 9 {
            Condition::LS
        } else if code == 10 {
            Condition::GE
        } else if code == 11 {
            Condition::LT
        } else if code == 12 {
            Condition::GT
        } else if code == 13 {
            Condition::LE
        } else if code == 14 {
            Condition::AL
        } else {
            Condition::NV
        }
    }

    /// The four-bit code of the condition.
    pub open spec fn spec_code(self) -> u32 {
        match self {
            Condition::EQ => 0,
            Condition::NE => 1,
            Condition::CS => 2,
            Condition::CC => 3,
            Condition::MI => 4,
            Condition::PL => 5,
            Condition::VS => 6,
            Condition::VC => 7,
            Condition::HI => 8,
            Condition::LS => 9,
            Condition::GE => 10,
            Condition::LT => 11,
            Condition::GT => 12,
            Condition::LE => 13,
            Condition::AL => 14,
            Condition::NV => 15,
        }
    }

    /// The condition that an opcode carries in its bits 31..=28.
    pub open spec fn spec_from_opcode(op_code: u32) -> Condition {
        Self::spec_from_code(spec_get_bits(op_code, 28, 31))
    }

    /// The condition that holds exactly when `self` does not: the one whose
    /// code differs in bit 0.
    pub open spec fn spec_opposite(self) -> Condition {
        Self::spec_from_code(self.spec_code() ^ 1)
    }

    /// Reads the condition of an opcode from its bits 31..=28: the condition
    /// whose code is the number that these four bits make.
    pub fn from_opcode(op_code: u32) -> (condition: Condition)
        ensures
            condition == Self::spec_from_opcode(op_code),
            condition.spec_code() == spec_get_bits(op_code, 28, 31),
    {
        proof {
            Self::lemma_from_code_round_trip(spec_get_bits(op_code, 28, 31));
            assert(spec_get_bits(op_code, 28, 31) & 0xF == spec_get_bits(op_code, 28, 31))
                by (bit_vector);
        }
        let code: u32 = get_bits(op_code, 28, 31) & 0xF;
        if code == 0 {
            Condition::EQ
        } else if code == 1 {
            Condition::NE
        } else if code == 2 {
            Condition::CS
        } else if code == 3 {
            Condition::CC
        } else if code == 4 {
            Condition::MI
        } else if code == 5 {
            Condition::PL
        } else if code == 6 {
            Condition::VS
        } else if code == 7 {
            Condition::VC
        } else if code == 8 {
            Condition::HI
        } else if code == 9 {
            Condition::LS
        } else if code == 10 {
            Condition::GE
        } else if code == 11 {
            Condition::LT
        } else if code == 12 {
            Condition::GT
        } else if code == 13 {
            Condition::LE
        } else if code == 14 {
            Condition::AL
        } else {
            Condition::NV
        }
    }

    /// The four-bit code of the condition, as it stands in an opcode.
    pub fn code(self) -> (code: u32)
        ensures
            code == self.spec_code(),
            code < 16,
    {
        match self {
            Condition::EQ => 0,
            Condition::NE => 1,
            Condition::CS => 2,
            Condition::CC => 3,
            Condition::MI => 4,
            Condition::PL => 5,
            Condition::VS => 6,
            Condition::VC => 7,
            Condition::HI => 8,
            Condition::LS => 9,
            Condition::GE => 10,
            Condition::LT => 11,
            Condition::GT => 12,
            Condition::LE => 13,
            Condition::AL => 14,
            Condition::NV => 15,
        }
    }

    /// A condition is found again from its own code.
    pub proof fn lemma_code_round_trip(self)
        ensures
            Self::spec_from_code(self.spec_code()) == self,
            self.spec_code() < 16,
    {
        let code = self.spec_code();
        assert(code < 16 ==> code & 0xF == code) by (bit_vector);
    }

    /// The code of the condition read from a code is that code's low four
    /// bits.
    pub proof fn lemma_from_code_round_trip(code: u32)
        ensures
            Self::spec_from_code(code).spec_code() == code & 0xF,
    {
        assert(code & 0xF < 16) by (bit_vector);
    }
}

} // verus!
