//! Bit and bit-field access on 32-bit words.

use vstd::prelude::*;
use vstd::arithmetic::div_mod::lemma_fundamental_div_mod_converse;
use vstd::arithmetic::power2::{lemma2_to64, lemma_pow2_adds, lemma_pow2_pos, pow2};
use vstd::bits::{lemma_u32_low_bits_mask_is_mod, lemma_u32_shr_is_div, low_bits_mask};

verus! {

/// Whether bit `index` of `value` is set. Bit 0 is the least significant one.
pub open spec fn spec_get_bit(value: u32, index: u32) -> bool {
    (value >> index) & 1 == 1
}

/// The field of `value` made of bits `low..=high`, moved down to bit 0.
pub open spec fn spec_get_bits(value: u32, low: u32, high: u32) -> u32 {
    (value >> low) & (0xFFFF_FFFFu32 >> ((31 - (high - low)) as u32))
}

/// Reads bit `index` of `value`: whether the quotient of `value` by two to
/// the `index` is odd.
pub fn get_bit(value: u32, index: u32) -> (on: bool)
    requires
        index < 32,
    ensures
        on == spec_get_bit(value, index),
        on == ((value as nat / pow2(index as nat)) % 2 == 1),
{
    proof {
        lemma_get_bit_is_div_mod(value, index);
    }
    (value >> index) & 1 == 1
}

/// Reads the bits `low..=high` of `value` as a number: the quotient of
/// `value` by two to the `low`, modulo two to the number of bits read.
pub fn get_bits(value: u32, low: u32, high: u32) -> (field: u32)
    requires
        low <= high < 32,
    ensures
        field == spec_get_bits(value, low, high),
        field == (value as nat / pow2(low as nat)) % pow2((high - low + 1) as nat),
{
    proof {
        lemma_get_bits_is_div_mod(value, low, high);
    }
    (value >> low) & (u32::MAX >> (31 - (high - low)))
}

/// A field read as a number: the field in bits `low..=high` of `value` is
/// the quotient of `value` by two to the `low`, modulo two to the number of
/// bits of the field.
pub proof fn lemma_get_bits_is_div_mod(value: u32, low: u32, high: u32)
    requires
        low <= high < 32,
    ensures
        spec_get_bits(value, low, high) == (value as nat / pow2(low as nat)) % pow2(
            (high - low + 1) as nat,
        ),
{
    let width = (high - low + 1) as nat;
    let rest = (31 - (high - low)) as u32;
    let shifted = value >> low;
    let mask = 0xFFFF_FFFFu32 >> rest;
    lemma_u32_shr_is_div(value, low);
    lemma_u32_shr_is_div(0xFFFF_FFFFu32, rest);
    lemma_pow2_adds(rest as nat, width);
    lemma_pow2_pos(rest as nat);
    lemma_pow2_pos(width);
    lemma2_to64();
    assert(pow2(32) == 0x1_0000_0000);
    let step = pow2(rest as nat);
    assert(0xFFFF_FFFFu32 as int == (pow2(width) - 1) * step + (step - 1)) by (nonlinear_arith)
        requires
            step * pow2(width) == 0x1_0000_0000,
    ;
    lemma_fundamental_div_mod_converse(
        0xFFFF_FFFFu32 as int,
        step as int,
        pow2(width) - 1,
        step - 1,
    );
    assert(mask == pow2(width) - 1);
    if width == 32 {
        assert(shifted & 0xFFFF_FFFFu32 == shifted) by (bit_vector);
        assert(shifted as nat % pow2(32) == shifted);
    } else {
        assert(mask == low_bits_mask(width) as u32);
        lemma_u32_low_bits_mask_is_mod(shifted, width);
        assert(pow2(width) < 0x1_0000_0000) by (nonlinear_arith)
            requires
                step * pow2(width) == 0x1_0000_0000,
                step >= 2,
                pow2(width) > 0,
        ;
    }
}

/// A bit read as a number: bit `index` of `value` is set where the quotient
/// of `value` by two to the `index` is odd.
pub proof fn lemma_get_bit_is_div_mod(value: u32, index: u32)
    requires
        index < 32,
    ensures
        spec_get_bit(value, index) == ((value as nat / pow2(index as nat)) % 2 == 1),
{
    lemma_get_bits_is_div_mod(value, index, index);
    lemma2_to64();
    assert(spec_get_bit(value, index) == (spec_get_bits(value, index, index) == 1))
        by (bit_vector);
}

} // verus!
