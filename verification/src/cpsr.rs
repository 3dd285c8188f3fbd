//! The flags register and the evaluation of execution conditions.

use vstd::prelude::*;
use crate::condition::Condition;

verus! {

/// The condition flags of the current program status register.
#[derive(Clone, Copy, Debug, PartialEq, Eq, Structural)]
pub struct Cpsr {
    /// N: the last flag-setting result was negative.
    pub sign: bool,
    /// Z: the last flag-setting result was zero.
    pub zero: bool,
    /// C: carry out of the last flag-setting operation.
    pub carry: bool,
    /// V: signed overflow in the last flag-setting operation.
    pub overflow: bool,
}

impl Default for Cpsr {
    /// The flags register after reset: every flag is clear.
    fn default() -> (cpsr: Self)
        ensures
            cpsr == Cpsr::spec_cleared(),
    {
        Cpsr { sign: false, zero: false, carry: false, overflow: false }
    }
}

impl Cpsr {
    /// The flags register with every flag clear.
    pub open spec fn spec_cleared() -> Cpsr {
        Cpsr { sign: false, zero: false, carry: false, overflow: false }
    }

    /// Whether an instruction with the given condition executes under these
    /// flags.
    pub open spec fn spec_can_execute(self, condition: Condition) -> bool {
        match condition {
            Condition::EQ => self.zero,
            Condition::NE => !self.zero,
            Condition::CS => self.carry,
            Condition::CC => !self.carry,
            Condition::MI => self.sign,
            Condition::PL => !self.sign,
            Condition::VS => self.overflow,
            Condition::VC => !self.overflow,
            Condition::HI => self.carry && !self.zero,
            Condition::LS => !self.carry || self.zero,
            Condition::GE => self.sign == self.overflow,
            Condition::LT => self.sign != self.overflow,
            Condition::GT => self.sign == self.overflow && !self.zero,
            Condition::LE => self.sign != self.overflow || self.zero,
            Condition::AL => true,
            Condition::NV => false,
        }
    }

    /// The sign flag, N.
    pub fn sign_flag(&self) -> (flag: bool)
        ensures
            flag == self.sign,
    {
        self.sign
    }

    /// The zero flag, Z.
    pub fn zero_flag(&self) -> (flag: bool)
        ensures
            flag == self.zero,
    {
        self.zero
    }

    /// The carry flag, C.
    pub fn carry_flag(&self) -> (flag: bool)
        ensures
            flag == self.carry,
    {
        self.carry
    }

    /// The overflow flag, V.
    pub fn overflow_flag(&self) -> (flag: bool)
        ensures
            flag == self.overflow,
    {
        self.overflow
    }

    /// Sets the sign flag and leaves the others as they are.
    pub fn set_sign_flag(&mut self, value: bool)
        ensures
            *final(self) == (Cpsr { sign: value, ..*old(self) }),
    {
        self.sign = value;
    }

    /// Sets the zero flag and leaves the others as they are.
    pub fn set_zero_flag(&mut self, value: bool)
        ensures
            *final(self) == (Cpsr { zero: value, ..*old(self) }),
    {
        self.zero = value;
    }

    /// Sets the carry flag and leaves the others as they are.
    pub fn set_carry_flag(&mut self, value: bool)
        ensures
            *final(self) == (Cpsr { carry: value, ..*old(self) }),
    {
        self.carry = value;
    }

    /// Sets the overflow flag and leaves the others as they are.
    pub fn set_overflow_flag(&mut self, value: bool)
        ensures
            *final(self) == (Cpsr { overflow: value, ..*old(self) }),
    {
        self.overflow = value;
    }

    /// Decides whether an instruction with the given condition executes
    /// under the current flags.
    pub fn can_execute(&self, condition: Condition) -> (allowed: bool)
        ensures
            allowed == self.spec_can_execute(condition),
    {
        let n = self.sign;
        let z = self.zero;
        let c = self.carry;
        let v = self.overflow;
        match condition {
            Condition::EQ => z,
            Condition::NE => !z,
            Condition::CS => c,
            Condition::CC => !c,
            Condition::MI => n,
            Condition::PL => !n,
            Condition::VS => v,
            Condition::VC => !v,
            Condition::HI => c && !z,
            Condition::LS => !c || z,
            Condition::GE => n == v,
            Condition::LT => n != v,
            Condition::GT => n == v && !z,
            Condition::LE => n != v || z,
            Condition::AL => true,
            Condition::NV => false,
        }
    }

    /// Under any flags, exactly one of a condition and its opposite holds.
    pub proof fn lemma_opposite_conditions_exclude(self, condition: Condition)
        ensures
            self.spec_can_execute(condition.spec_opposite()) == !self.spec_can_execute(condition),
    {
        assert(0u32 ^ 1 == 1 && 1u32 ^ 1 == 0 && 2u32 ^ 1 == 3 && 3u32 ^ 1 == 2 && 4u32 ^ 1 == 5
            && 5u32 ^ 1 == 4 && 6u32 ^ 1 == 7 && 7u32 ^ 1 == 6 && 8u32 ^ 1 == 9 && 9u32 ^ 1 == 8
            && 10u32 ^ 1 == 11 && 11u32 ^ 1 == 10 && 12u32 ^ 1 == 13 && 13u32 ^ 1 == 12 && 14u32
            ^ 1 == 15 && 15u32 ^ 1 == 14) by (bit_vector);
        let flipped = condition.spec_code() ^ 1;
        assert(flipped < 16 ==> flipped & 0xF == flipped) by (bit_vector);
    }

    /// Reading a flag twice from flags that nothing changed in between gives
    /// the same value both times.
    pub proof fn lemma_flag_reads_repeat(self, first: bool, second: bool)
        requires
            ({
                ||| call_ensures(Cpsr::sign_flag, (&self,), first) && call_ensures(
                    Cpsr::sign_flag,
                    (&self,),
                    second,
                )
                ||| call_ensures(Cpsr::zero_flag, (&self,), first) && call_ensures(
                    Cpsr::zero_flag,
                    (&self,),
                    second,
                )
                ||| call_ensures(Cpsr::carry_flag, (&self,), first) && call_ensures(
                    Cpsr::carry_flag,
                    (&self,),
                    second,
                )
                ||| call_ensures(Cpsr::overflow_flag, (&self,), first) && call_ensures(
                    Cpsr::overflow_flag,
                    (&self,),
                    second,
                )
            }),
        ensures
            first == second,
    {
    }
}

} // verus!
