use arm_core::arm7tdmi::Arm7tdmi;
use arm_core::barrel_shifter::{arithmetic_shift_right, rotate_right, ShiftType, Shifted};
use arm_core::bitwise::{get_bit, get_bits};
use arm_core::error::CpuError;

const SAMPLES: [u32; 8] = [
    0,
    1,
    0x8000_0000,
    0x8000_00F1,
    0x7FFF_FFFF,
    0xFFFF_FFFF,
    0x1234_5678,
    0xDEAD_BEEF,
];

#[test]
fn rotate_right_agrees_with_the_standard_rotation() {
    for value in SAMPLES {
        for amount in 0..=70u32 {
            assert_eq!(rotate_right(value, amount), value.rotate_right(amount));
        }
        assert_eq!(rotate_right(value, u32::MAX), value.rotate_right(u32::MAX));
    }
    assert_eq!(rotate_right(0x0000_00FF, 8), 0xFF00_0000);
    assert_eq!(rotate_right(0x1234_5678, 0), 0x1234_5678);
    assert_eq!(rotate_right(0x1234_5678, 32), 0x1234_5678);
    assert_eq!(rotate_right(0x1234_5678, 36), 0x8123_4567);
    assert_eq!(rotate_right(1, 1), 0x8000_0000);
}

#[test]
fn arithmetic_shift_right_agrees_with_the_signed_shift() {
    for value in SAMPLES {
        for amount in 0..32u32 {
            assert_eq!(
                arithmetic_shift_right(value, amount),
                ((value as i32) >> amount) as u32
            );
        }
    }
    assert_eq!(arithmetic_shift_right(0x8000_0000, 4), 0xF800_0000);
    assert_eq!(arithmetic_shift_right(0x8000_0000, 31), 0xFFFF_FFFF);
    assert_eq!(arithmetic_shift_right(0x4000_0000, 4), 0x0400_0000);
    assert_eq!(arithmetic_shift_right(0xFFFF_FF00, 0), 0xFFFF_FF00);
    assert_eq!(arithmetic_shift_right(0x8000_0000, 32), 0xFFFF_FFFF);
    assert_eq!(arithmetic_shift_right(0x8000_0000, 200), 0xFFFF_FFFF);
    assert_eq!(arithmetic_shift_right(0x7FFF_FFFF, 32), 0);
    assert_eq!(arithmetic_shift_right(0x7FFF_FFFF, u32::MAX), 0);
}

#[test]
fn shift_immediate_of_each_kind() {
    let cpu = Arm7tdmi::new(vec![]);
    assert_eq!(cpu.shift_immediate(ShiftType::Lsl, 4, 0x8000_00F1), 0x0000_0F10);
    assert_eq!(cpu.shift_immediate(ShiftType::Lsr, 4, 0x8000_00F1), 0x0800_000F);
    assert_eq!(cpu.shift_immediate(ShiftType::Asr, 4, 0x8000_00F1), 0xF800_000F);
    assert_eq!(cpu.shift_immediate(ShiftType::Ror, 4, 0x8000_00F1), 0x1800_000F);
    assert_eq!(cpu.shift_immediate(ShiftType::Asr, 4, 0x7000_00F1), 0x0700_000F);
    assert_eq!(cpu.shift_immediate(ShiftType::Lsl, 31, 1), 0x8000_0000);
    assert_eq!(cpu.shift_immediate(ShiftType::Lsr, 31, 0x8000_0000), 1);
}

#[test]
fn shift_immediate_by_zero_is_no_shift() {
    let cpu = Arm7tdmi::new(vec![]);
    for value in SAMPLES {
        for kind in [ShiftType::Lsl, ShiftType::Lsr, ShiftType::Asr, ShiftType::Ror] {
            assert_eq!(cpu.shift_immediate(kind, 0, value), value);
        }
    }
}

#[test]
fn shift_immediate_by_thirty_two_and_more() {
    let cpu = Arm7tdmi::new(vec![]);
    for value in SAMPLES {
        let sign_fill = if value >> 31 == 1 { 0xFFFF_FFFF } else { 0 };
        for amount in [32u32, 33, 64, 255, u32::MAX] {
            assert_eq!(cpu.shift_immediate(ShiftType::Lsl, amount, value), 0);
            assert_eq!(cpu.shift_immediate(ShiftType::Lsr, amount, value), 0);
            assert_eq!(cpu.shift_immediate(ShiftType::Asr, amount, value), sign_fill);
            assert_eq!(
                cpu.shift_immediate(ShiftType::Ror, amount, value),
                value.rotate_right(amount % 32)
            );
        }
    }
}

#[test]
fn shift_immediate_moves_each_bit() {
    let cpu = Arm7tdmi::new(vec![]);
    for value in SAMPLES {
        for amount in 0..40u32 {
            let lsl = cpu.shift_immediate(ShiftType::Lsl, amount, value);
            let lsr = cpu.shift_immediate(ShiftType::Lsr, amount, value);
            let asr = cpu.shift_immediate(ShiftType::Asr, amount, value);
            let ror = cpu.shift_immediate(ShiftType::Ror, amount, value);
            for index in 0..32u32 {
                assert_eq!(
                    get_bit(lsl, index),
                    index >= amount && get_bit(value, index - amount)
                );
                assert_eq!(
                    get_bit(lsr, index),
                    index + amount < 32 && get_bit(value, index + amount)
                );
                assert_eq!(
                    get_bit(asr, index),
                    get_bit(value, (index + amount).min(31))
                );
                assert_eq!(get_bit(ror, index), get_bit(value, (index + amount) % 32));
            }
        }
    }
}

#[test]
fn shift_by_nonzero_amount_is_the_plain_shift_without_carry() {
    let cpu = Arm7tdmi::new(vec![]);
    for value in SAMPLES {
        for kind in [ShiftType::Lsl, ShiftType::Lsr, ShiftType::Asr, ShiftType::Ror] {
            for amount in 1..32u32 {
                assert_eq!(
                    cpu.shift(kind, amount, value),
                    Ok(Shifted {
                        value: cpu.shift_immediate(kind, amount, value),
                        carry: None
                    })
                );
            }
        }
    }
    assert_eq!(
        cpu.shift(ShiftType::Ror, 8, 0x0000_00FF),
        Ok(Shifted {
            value: 0xFF00_0000,
            carry: None
        })
    );
}

#[test]
fn shift_by_zero_amount_has_its_own_meanings() {
    let cpu = Arm7tdmi::new(vec![]);
    assert_eq!(
        cpu.shift(ShiftType::Lsl, 0, 0x8000_00F1),
        Ok(Shifted {
            value: 0x8000_00F1,
            carry: None
        })
    );
    assert_eq!(
        cpu.shift(ShiftType::Lsr, 0, 0x8000_00F1),
        Ok(Shifted {
            value: 0,
            carry: Some(true)
        })
    );
    assert_eq!(
        cpu.shift(ShiftType::Lsr, 0, 0x7FFF_FFFF),
        Ok(Shifted {
            value: 0,
            carry: Some(false)
        })
    );
    assert_eq!(
        cpu.shift(ShiftType::Asr, 0, 0x8000_00F1),
        Ok(Shifted {
            value: 0xFFFF_FFFF,
            carry: Some(true)
        })
    );
    assert_eq!(
        cpu.shift(ShiftType::Asr, 0, 0x7FFF_FFFF),
        Ok(Shifted {
            value: 0,
            carry: Some(false)
        })
    );
    assert_eq!(
        cpu.shift(ShiftType::Ror, 0, 0x8000_00F1),
        Err(CpuError::UnimplementedInstruction)
    );
}

#[test]
fn shift_by_zero_equals_plain_shift_by_thirty_two() {
    let cpu = Arm7tdmi::new(vec![]);
    for value in SAMPLES {
        for kind in [ShiftType::Lsr, ShiftType::Asr] {
            assert_eq!(
                cpu.shift(kind, 0, value).unwrap().value,
                cpu.shift_immediate(kind, 32, value)
            );
        }
        assert_eq!(cpu.shift(ShiftType::Lsl, 0, value).unwrap().value, value);
    }
}

#[test]
fn shift_type_comes_from_bits_six_and_five() {
    assert_eq!(ShiftType::from_opcode(0x0000_0000), ShiftType::Lsl);
    assert_eq!(ShiftType::from_opcode(0x0000_0020), ShiftType::Lsr);
    assert_eq!(ShiftType::from_opcode(0x0000_0040), ShiftType::Asr);
    assert_eq!(ShiftType::from_opcode(0x0000_0060), ShiftType::Ror);
    assert_eq!(ShiftType::from_opcode(0xFFFF_FF9F), ShiftType::Lsl);
    assert_eq!(ShiftType::from_opcode(0xFFFF_FFBF), ShiftType::Lsr);
    assert_eq!(ShiftType::from_opcode(0xFFFF_FFDF), ShiftType::Asr);
    assert_eq!(ShiftType::from_opcode(0xFFFF_FFFF), ShiftType::Ror);
}

#[test]
fn get_bit_reads_single_bits() {
    assert!(get_bit(1, 0));
    assert!(!get_bit(1, 1));
    assert!(get_bit(0x8000_0000, 31));
    assert!(!get_bit(0x7FFF_FFFF, 31));
    assert!(get_bit(0x0200_0000, 25));
    assert!(!get_bit(0xFDFF_FFFF, 25));
    for index in 0..32u32 {
        assert!(get_bit(0xFFFF_FFFF, index));
        assert!(!get_bit(0, index));
        assert_eq!(get_bit(0xA5A5_A5A5, index), (0xA5A5_A5A5u32 >> index) % 2 == 1);
    }
}

#[test]
fn get_bits_reads_fields() {
    assert_eq!(get_bits(0xE59F_D018, 28, 31), 0xE);
    assert_eq!(get_bits(0xE59F_D018, 16, 19), 0xF);
    assert_eq!(get_bits(0xE59F_D018, 12, 15), 0xD);
    assert_eq!(get_bits(0xE59F_D018, 0, 11), 0x018);
    assert_eq!(get_bits(0xE59F_D018, 0, 31), 0xE59F_D018);
    assert_eq!(get_bits(0xE59F_D018, 31, 31), 1);
    assert_eq!(get_bits(0xE59F_D018, 0, 0), 0);
    assert_eq!(get_bits(0xE59F_D018, 3, 4), 0b11);
    assert_eq!(get_bits(0xFFFF_FFFF, 5, 6), 0b11);
    assert_eq!(get_bits(0xFFFF_FFFF, 7, 11), 0b1_1111);
    assert_eq!(get_bits(0xFFFF_FFFF, 0, 23), 0x00FF_FFFF);
    for low in 0..32u32 {
        for high in low..32u32 {
            let width = high - low + 1;
            let expected = ((0xDEAD_BEEFu64 >> low) % (1u64 << width)) as u32;
            assert_eq!(get_bits(0xDEAD_BEEF, low, high), expected);
        }
    }
}
