//! The barrel shifter: what a shift or rotation of a 32-bit value yields, and
//! what it hands to the carry flag.

use vstd::prelude::*;
use crate::bitwise::{get_bit, get_bits, spec_get_bit, spec_get_bits};
use crate::error::CpuError;

verus! {

/// The four kinds of shift, in the order of their two-bit codes.
#[derive(Clone, Copy, Debug, PartialEq, Eq, Structural)]
pub enum ShiftType {
    /// Logical shift left.
    Lsl,
    /// Logical shift right.
    Lsr,
    /// Arithmetic shift right.
    Asr,
    /// Rotate right.
    Ror,
}

/// What the barrel shifter puts out.
#[derive(Clone, Copy, Debug, PartialEq, Eq, Structural)]
pub struct Shifted {
    /// The shifted value.
    pub value: u32,
    /// The new value of the carry flag, or `None` where the shift leaves the
    /// flag as it is.
    pub carry: Option<bool>,
}

impl ShiftType {
    /// The two-bit code of the kind of shift.
    pub open spec fn spec_code(self) -> u32 {
        match self {
            ShiftType::Lsl => 0,
            ShiftType::Lsr => 1,
            ShiftType::Asr => 2,
            ShiftType::Ror => 3,
        }
    }

    /// The kind of shift with the given code. Only the low two bits of `code`
    /// count.
    pub open spec fn spec_from_code(code: u32) -> ShiftType {
        let code = code & 0b11;
        if code == 0 {
            ShiftType::Lsl
        } else if code == 1 {
            ShiftType::Lsr
        } else if code == 2 {
            ShiftType::Asr
        } else {
            ShiftType::Ror
        }
    }

    /// The kind of shift that an opcode with a shifted register operand
    /// carries in its bits 6..=5.
    pub open spec fn spec_from_opcode(op_code: u32) -> ShiftType {
        Self::spec_from_code(spec_get_bits(op_code, 5, 6))
    }

    /// Reads the kind of shift from bits 6..=5 of an opcode: the kind whose
    /// code is the number that these two bits make.
    pub fn from_opcode(op_code: u32) -> (shift_type: ShiftType)
        ensures
            shift_type == Self::spec_from_opcode(op_code),
            shift_type.spec_code() == spec_get_bits(op_code, 5, 6),
    {
        proof {
            let field = spec_get_bits(op_code, 5, 6);
            assert(field & 0b11 == field && field < 4) by (bit_vector)
                requires
                    field == spec_get_bits(op_code, 5, 6),
            ;
        }
        let code: u32 = get_bits(op_code, 5, 6) & 0b11;
        if code == 0 {
            ShiftType::Lsl
        } else if code == 1 {
            ShiftType::Lsr
        } else if code == 2 {
            ShiftType::Asr
        } else {
            ShiftType::Ror
        }
    }
}

/// Thirty-two copies of bit 31 of `value`.
pub open spec fn spec_sign_fill(value: u32) -> u32 {
    if spec_get_bit(value, 31) {
        0xFFFF_FFFF
    } else {
        0
    }
}

/// `value` rotated right by `amount` bits: each bit that leaves at bit 0
/// comes back in at bit 31. A rotation by 32 bits changes nothing, so only
/// `amount` modulo 32 counts.
pub open spec fn spec_rotate_right(value: u32, amount: u32) -> u32 {
    let by = amount % 32;
    if by == 0 {
        value
    } else {
        (value >> by) | (value << ((32 - by) as u32))
    }
}

/// `value` shifted right by `amount` bits as a signed number in two's
/// complement: the bits that come in at the top are copies of bit 31, and
/// after 32 bits or more nothing else is left.
pub open spec fn spec_arithmetic_shift_right(value: u32, amount: u32) -> u32 {
    if amount >= 32 {
        spec_sign_fill(value)
    } else if spec_get_bit(value, 31) {
        (value >> amount) | !(0xFFFF_FFFFu32 >> amount)
    } else {
        value >> amount
    }
}

/// The plain shift of `value` by `amount` bits, with no special case for an
/// amount of zero. A logical shift by 32 bits or more leaves no bit of
/// `value`; an arithmetic shift by 32 bits or more leaves copies of bit 31.
pub open spec fn spec_shift_immediate(shift_type: ShiftType, amount: u32, value: u32) -> u32 {
    match shift_type {
        ShiftType::Lsl => if amount >= 32 {
            0
        } else {
            value << amount
        },
        ShiftType::Lsr => if amount >= 32 {
            0
        } else {
            value >> amount
        },
        ShiftType::Asr => spec_arithmetic_shift_right(value, amount),
        ShiftType::Ror => spec_rotate_right(value, amount),
    }
}

/// The shift of `value` by an amount that the opcode gives as an immediate,
/// where an amount of zero has a meaning of its own for each kind of shift:
/// LSL #0 is no shift, LSR #0 and ASR #0 stand for a shift by 32 bits and
/// hand bit 31 of `value` to the carry flag, and ROR #0 has no handler.
pub open spec fn spec_shift(shift_type: ShiftType, amount: u32, value: u32) -> Result<
    Shifted,
    CpuError,
> {
    if amount != 0 {
        Ok(Shifted { value: spec_shift_immediate(shift_type, amount, value), carry: None })
    } else {
        match shift_type {
            ShiftType::Lsl => Ok(Shifted { value, carry: None }),
            ShiftType::Lsr => Ok(Shifted { value: 0, carry: Some(spec_get_bit(value, 31)) }),
            ShiftType::Asr => Ok(
                Shifted { value: spec_sign_fill(value), carry: Some(spec_get_bit(value, 31)) },
            ),
            ShiftType::Ror => Err(CpuError::UnimplementedInstruction),
        }
    }
}

/// Rotates `value` right by `amount` bits.
pub fn rotate_right(value: u32, amount: u32) -> (rotated: u32)
    ensures
        rotated == spec_rotate_right(value, amount),
{
    let by: u32 = amount % 32;
    if by == 0 {
        value
    } else {
        (value >> by) | (value << (32 - by))
    }
}

/// Shifts `value` right by `amount` bits and fills the top with copies of its
/// bit 31.
pub fn arithmetic_shift_right(value: u32, amount: u32) -> (shifted: u32)
    ensures
        shifted == spec_arithmetic_shift_right(value, amount),
{
    let negative = get_bit(value, 31);
    if amount >= 32 {
        if negative {
            0xFFFF_FFFF
        } else {
            0
        }
    } else if negative {
        (value >> amount) | !(u32::MAX >> amount)
    } else {
        value >> amount
    }
}

/// What a plain shift does to each bit of a value. After a shift by
/// `amount`, bit `index` of the result is: for LSL, the bit `amount` places
/// below, or clear where there is none; for LSR, the bit `amount` places
/// above, or clear where there is none; for ASR, the bit `amount` places
/// above, or bit 31 where there is none; for ROR, the bit `amount` places
/// above, counted round the 32 positions.
pub proof fn lemma_shift_immediate_bits(
    shift_type: ShiftType,
    amount: u32,
    value: u32,
    index: u32,
)
    requires
        index < 32,
    ensures
        spec_get_bit(spec_shift_immediate(shift_type, amount, value), index) == (match shift_type {
            ShiftType::Lsl => index >= amount && spec_get_bit(value, (index - amount) as u32),
            ShiftType::Lsr => index + amount < 32 && spec_get_bit(value, (index + amount) as u32),
            ShiftType::Asr => if index + amount < 32 {
                spec_get_bit(value, (index + amount) as u32)
            } else {
                spec_get_bit(value, 31)
            },
            ShiftType::Ror => spec_get_bit(value, ((index + amount % 32) % 32) as u32),
        }),
{
    let by = amount % 32;
    match shift_type {
        ShiftType::Lsl => {
            assert(spec_get_bit(0u32, index) == false) by (bit_vector);
            if amount < 32 {
                let below = (index - amount) as u32;
                assert(spec_get_bit(value << amount, index) == (index >= amount && spec_get_bit(
                    value,
                    below,
                ))) by (bit_vector)
                    requires
                        index < 32,
                        amount < 32,
                        index >= amount ==> below == (index - amount) as u32,
                ;
            }
        },
        ShiftType::Lsr => {
            assert(spec_get_bit(0u32, index) == false) by (bit_vector);
            if amount < 32 {
                let above = (index + amount) as u32;
                assert(spec_get_bit(value >> amount, index) == (index + amount < 32
                    && spec_get_bit(value, above))) by (bit_vector)
                    requires
                        index < 32,
                        amount < 32,
                        above == (index + amount) as u32,
                ;
            }
        },
        ShiftType::Asr => {
            if amount < 32 {
                let above = (index + amount) as u32;
                let shifted = spec_arithmetic_shift_right(value, amount);
                assert(spec_get_bit(shifted, index) == (if index + amount < 32 {
                    spec_get_bit(value, above)
                } else {
                    spec_get_bit(value, 31)
                })) by (bit_vector)
                    requires
                        index < 32,
                        amount < 32,
                        above == (index + amount) as u32,
                        shifted == (if spec_get_bit(value, 31) {
                            (value >> amount) | !(0xFFFF_FFFFu32 >> amount)
                        } else {
                            value >> amount
                        }),
                ;
            } else {
                assert(spec_get_bit(0xFFFF_FFFFu32, index) && !spec_get_bit(0u32, index))
                    by (bit_vector)
                    requires
                        index < 32,
                ;
            }
        },
        ShiftType::Ror => {
            let from = ((index + by) % 32) as u32;
            assert(spec_get_bit(spec_rotate_right(value, amount), index) == spec_get_bit(
                value,
                from,
            )) by (bit_vector)
                requires
                    index < 32,
                    from == ((index + amount % 32) % 32) as u32,
            ;
        },
    }
}

/// With an immediate amount of zero, LSR and ASR yield what a plain shift by
/// 32 bits yields, and LSL yields the value itself.
pub proof fn lemma_shift_by_zero(shift_type: ShiftType, value: u32)
    requires
        shift_type != ShiftType::Ror,
    ensures
        spec_shift(shift_type, 0, value) matches Ok(shifted) && shifted.value == (if shift_type
            == ShiftType::Lsl {
            value
        } else {
            spec_shift_immediate(shift_type, 32, value)
        }),
{
}

} // verus!
