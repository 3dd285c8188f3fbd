use arm_core::alu_instruction::ArmModeAluInstruction;
use arm_core::condition::Condition;
use arm_core::cpsr::Cpsr;
use arm_core::instruction::ArmModeInstruction;

const CONDITIONS: [Condition; 16] = [
    Condition::EQ,
    Condition::NE,
    Condition::CS,
    Condition::CC,
    Condition::MI,
    Condition::PL,
    Condition::VS,
    Condition::VC,
    Condition::HI,
    Condition::LS,
    Condition::GE,
    Condition::LT,
    Condition::GT,
    Condition::LE,
    Condition::AL,
    Condition::NV,
];

const CATEGORIES: [ArmModeInstruction; 6] = [
    ArmModeInstruction::DataProcessing1,
    ArmModeInstruction::DataProcessing2,
    ArmModeInstruction::DataProcessing3,
    ArmModeInstruction::Branch,
    ArmModeInstruction::BranchLink,
    ArmModeInstruction::DataTransfer,
];

fn flags(n: bool, z: bool, c: bool, v: bool) -> Cpsr {
    let mut cpsr = Cpsr::default();
    cpsr.set_sign_flag(n);
    cpsr.set_zero_flag(z);
    cpsr.set_carry_flag(c);
    cpsr.set_overflow_flag(v);
    cpsr
}

#[test]
fn can_execute_follows_the_table_for_all_flags() {
    for bits in 0..16u32 {
        let n = bits & 8 != 0;
        let z = bits & 4 != 0;
        let c = bits & 2 != 0;
        let v = bits & 1 != 0;
        let cpsr = flags(n, z, c, v);
        let expected = [
            z,
            !z,
            c,
            !c,
            n,
            !n,
            v,
            !v,
            c && !z,
            !c || z,
            n == v,
            n != v,
            n == v && !z,
            n != v || z,
            true,
            false,
        ];
        for (condition, allowed) in CONDITIONS.iter().zip(expected) {
            assert_eq!(cpsr.can_execute(*condition), allowed);
        }
    }
}

#[test]
fn can_execute_on_chosen_flags() {
    let cleared = Cpsr::default();
    assert!(!cleared.can_execute(Condition::EQ));
    assert!(cleared.can_execute(Condition::NE));
    assert!(cleared.can_execute(Condition::GE));
    assert!(cleared.can_execute(Condition::GT));
    assert!(!cleared.can_execute(Condition::HI));
    assert!(cleared.can_execute(Condition::LS));
    assert!(cleared.can_execute(Condition::AL));
    assert!(!cleared.can_execute(Condition::NV));

    let carry_and_zero = flags(false, true, true, false);
    assert!(!carry_and_zero.can_execute(Condition::HI));
    assert!(carry_and_zero.can_execute(Condition::LS));
    assert!(!carry_and_zero.can_execute(Condition::GT));
    assert!(carry_and_zero.can_execute(Condition::LE));

    let negative_overflowed = flags(true, false, false, true);
    assert!(negative_overflowed.can_execute(Condition::GE));
    assert!(negative_overflowed.can_execute(Condition::GT));
    assert!(!negative_overflowed.can_execute(Condition::LT));
    assert!(!negative_overflowed.can_execute(Condition::LE));

    let all = flags(true, true, true, true);
    assert!(all.can_execute(Condition::AL));
    assert!(!all.can_execute(Condition::NV));
}

#[test]
fn opposite_conditions_never_agree() {
    for bits in 0..16u32 {
        let cpsr = flags(bits & 8 != 0, bits & 4 != 0, bits & 2 != 0, bits & 1 != 0);
        for pair in CONDITIONS.chunks(2) {
            assert_ne!(cpsr.can_execute(pair[0]), cpsr.can_execute(pair[1]));
        }
    }
}

#[test]
fn flag_reads_are_repeatable() {
    for bits in 0..16u32 {
        let cpsr = flags(bits & 8 != 0, bits & 4 != 0, bits & 2 != 0, bits & 1 != 0);
        assert_eq!(cpsr.sign_flag(), cpsr.sign_flag());
        assert_eq!(cpsr.zero_flag(), cpsr.zero_flag());
        assert_eq!(cpsr.carry_flag(), cpsr.carry_flag());
        assert_eq!(cpsr.overflow_flag(), cpsr.overflow_flag());
        assert_eq!(cpsr.sign_flag(), bits & 8 != 0);
        assert_eq!(cpsr.zero_flag(), bits & 4 != 0);
        assert_eq!(cpsr.carry_flag(), bits & 2 != 0);
        assert_eq!(cpsr.overflow_flag(), bits & 1 != 0);
        for condition in CONDITIONS {
            assert_eq!(cpsr.can_execute(condition), cpsr.can_execute(condition));
        }
    }
}

#[test]
fn setting_one_flag_leaves_the_others() {
    let mut cpsr = Cpsr::default();
    cpsr.set_zero_flag(true);
    assert_eq!(
        cpsr,
        Cpsr {
            sign: false,
            zero: true,
            carry: false,
            overflow: false
        }
    );
    cpsr.set_overflow_flag(true);
    cpsr.set_sign_flag(true);
    cpsr.set_zero_flag(false);
    assert_eq!(
        cpsr,
        Cpsr {
            sign: true,
            zero: false,
            carry: false,
            overflow: true
        }
    );
    cpsr.set_carry_flag(true);
    cpsr.set_sign_flag(false);
    assert_eq!(
        cpsr,
        Cpsr {
            sign: false,
            zero: false,
            carry: true,
            overflow: true
        }
    );
}

#[test]
fn conditions_and_their_codes() {
    for (code, condition) in CONDITIONS.iter().enumerate() {
        let code = code as u32;
        assert_eq!(condition.code(), code);
        assert_eq!(Condition::from_opcode(code << 28), *condition);
        assert_eq!(Condition::from_opcode((code << 28) | 0x0FFF_FFFF), *condition);
    }
    assert_eq!(Condition::from_opcode(0xE3A0_0000), Condition::AL);
    assert_eq!(Condition::from_opcode(0x0000_0000), Condition::EQ);
    assert_eq!(Condition::from_opcode(0xFFFF_FFFF), Condition::NV);
}

#[test]
fn alu_operations_and_their_codes() {
    let operations = [
        ArmModeAluInstruction::And,
        ArmModeAluInstruction::Eor,
        ArmModeAluInstruction::Sub,
        ArmModeAluInstruction::Rsb,
        ArmModeAluInstruction::Add,
        ArmModeAluInstruction::Adc,
        ArmModeAluInstruction::Sbc,
        ArmModeAluInstruction::Rsc,
        ArmModeAluInstruction::Tst,
        ArmModeAluInstruction::Teq,
        ArmModeAluInstruction::Cmp,
        ArmModeAluInstruction::Cmn,
        ArmModeAluInstruction::Orr,
        ArmModeAluInstruction::Mov,
        ArmModeAluInstruction::Bic,
        ArmModeAluInstruction::Mvn,
    ];
    for (code, operation) in operations.iter().enumerate() {
        let code = code as u32;
        assert_eq!(ArmModeAluInstruction::from_opcode(code << 21), *operation);
        assert_eq!(
            ArmModeAluInstruction::from_opcode((code << 21) | 0xFE1F_FFFF),
            *operation
        );
    }
    assert_eq!(
        ArmModeAluInstruction::from_opcode(0xE3A0_0000),
        ArmModeAluInstruction::Mov
    );
    assert_eq!(
        ArmModeAluInstruction::from_opcode(0xE129_3000),
        ArmModeAluInstruction::Teq
    );
}

#[test]
fn encode_gives_the_known_patterns() {
    assert_eq!(
        ArmModeInstruction::Branch.encode(Condition::AL, 0x7F),
        0xEA00_007F
    );
    assert_eq!(
        ArmModeInstruction::BranchLink.encode(Condition::AL, 0x7F),
        0xEB00_007F
    );
    assert_eq!(
        ArmModeInstruction::DataProcessing3.encode(Condition::AL, 0x01A0_0000),
        0xE3A0_0000
    );
    assert_eq!(
        ArmModeInstruction::DataProcessing1.encode(Condition::AL, 0x0129_3000),
        0xE129_3000
    );
    assert_eq!(
        ArmModeInstruction::DataProcessing2.encode(Condition::EQ, 0x01A0_0201),
        0x01A0_0211
    );
    assert_eq!(
        ArmModeInstruction::DataTransfer.encode(Condition::AL, 0x019F_D018),
        0xE59F_D018
    );
    // Bits of the operands that fall on the condition or the category are dropped.
    assert_eq!(
        ArmModeInstruction::Branch.encode(Condition::NE, 0xFFFF_FFFF),
        0x1AFF_FFFF
    );
    assert_eq!(
        ArmModeInstruction::DataProcessing1.encode(Condition::NV, 0xFFFF_FFFF),
        0xF1FF_FFEF
    );
}

#[test]
fn decoding_an_encoded_instruction_gives_it_back() {
    let operands = [
        0u32,
        0xFFFF_FFFF,
        0x0123_4567,
        0x89AB_CDEF,
        0x0E00_0010,
        0x01A0_0211,
        0x5555_5555,
        0xAAAA_AAAA,
    ];
    for condition in CONDITIONS {
        for category in CATEGORIES {
            for bits in operands {
                let op_code = category.encode(condition, bits);
                assert_eq!(ArmModeInstruction::try_from(op_code), Ok(category));
                assert_eq!(Condition::from_opcode(op_code), condition);
                // decoding does not depend on what was decoded before
                assert_eq!(ArmModeInstruction::try_from(op_code), Ok(category));
                // and encoding what was decoded gives the opcode back
                assert_eq!(category.encode(condition, op_code), op_code);
            }
        }
    }
}

#[test]
fn branches_are_told_apart_by_bit_24() {
    for condition in CONDITIONS {
        for offset in [0u32, 1, 0x7F, 0x00FF_FFFF] {
            let plain = (condition.code() << 28) | 0x0A00_0000 | offset;
            let link = plain | 0x0100_0000;
            assert_eq!(
                ArmModeInstruction::try_from(plain),
                Ok(ArmModeInstruction::Branch)
            );
            assert_eq!(
                ArmModeInstruction::try_from(link),
                Ok(ArmModeInstruction::BranchLink)
            );
        }
    }
}

#[test]
fn data_processing_forms_are_told_apart() {
    // bit 25 set: immediate, whatever bit 4 is
    assert_eq!(
        ArmModeInstruction::try_from(0xE200_0000u32),
        Ok(ArmModeInstruction::DataProcessing3)
    );
    assert_eq!(
        ArmModeInstruction::try_from(0xE200_0010u32),
        Ok(ArmModeInstruction::DataProcessing3)
    );
    // bit 25 clear: bit 4 decides
    assert_eq!(
        ArmModeInstruction::try_from(0xE000_0000u32),
        Ok(ArmModeInstruction::DataProcessing1)
    );
    assert_eq!(
        ArmModeInstruction::try_from(0xE000_0010u32),
        Ok(ArmModeInstruction::DataProcessing2)
    );
    assert_eq!(
        ArmModeInstruction::try_from(0xE1FF_FFEFu32),
        Ok(ArmModeInstruction::DataProcessing1)
    );
    assert_eq!(
        ArmModeInstruction::try_from(0xE1FF_FFFFu32),
        Ok(ArmModeInstruction::DataProcessing2)
    );
    // bits 27..=26 equal to 01: single data transfer
    assert_eq!(
        ArmModeInstruction::try_from(0xE400_0000u32),
        Ok(ArmModeInstruction::DataTransfer)
    );
    assert_eq!(
        ArmModeInstruction::try_from(0xE7FF_FFFFu32),
        Ok(ArmModeInstruction::DataTransfer)
    );
}
