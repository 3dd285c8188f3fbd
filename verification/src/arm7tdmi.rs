//! The processor core: its register file and the fetch, decode and execute
//! steps of one instruction.

use vstd::prelude::*;
use crate::alu_instruction::ArmModeAluInstruction;
use crate::barrel_shifter::{
    arithmetic_shift_right, rotate_right, spec_rotate_right, spec_shift, spec_shift_immediate,
    ShiftType, Shifted,
};
use crate::bitwise::{get_bit, get_bits, spec_get_bit, spec_get_bits};
use crate::condition::Condition;
use crate::cpsr::Cpsr;
use crate::error::CpuError;
use crate::instruction::ArmModeInstruction;
use vstd::std_specs::convert::FromSpecImpl;

verus! {

/// The sum of `base` and `offset` as a register holds it: modulo two to the
/// 32.
pub open spec fn spec_wrapping_offset(base: u32, offset: int) -> u32 {
    ((base + offset) % 0x1_0000_0000) as u32
}

/// The sixteen general registers. Register 15 is the program counter: the
/// offset, in bytes from the start of the code image, of the next opcode to
/// fetch.
#[derive(Clone, Copy, Debug)]
pub struct Registers(pub [u32; 16]);

impl View for Registers {
    type V = Seq<u32>;

    /// The values of registers 0 to 15, in this order.
    open spec fn view(&self) -> Seq<u32> {
        self.0@
    }
}

impl Default for Registers {
    /// The register file after reset: every register holds zero.
    fn default() -> (registers: Self)
        ensures
            registers@ == Seq::new(16, |i: int| 0u32),
    {
        Registers([0u32; 16])
    }
}

impl Registers {
    /// The program counter, as an offset into the code image.
    pub fn program_counter(&self) -> (pc: usize)
        ensures
            pc == self@[15],
    {
        self.0[15] as usize
    }

    /// Overwrites the program counter.
    pub fn set_program_counter(&mut self, new_value: u32)
        ensures
            final(self)@ == old(self)@.update(15, new_value),
    {
        self.0[15] = new_value;
    }

    /// Adds `bytes` to the program counter, modulo two to the 32.
    pub fn advance_program_counter(&mut self, bytes: u32)
        ensures
            final(self)@ == old(self)@.update(
                15,
                spec_wrapping_offset(old(self)@[15], bytes as int),
            ),
    {
        self.0[15] = self.0[15].wrapping_add(bytes);
    }

    /// Overwrites register `reg`.
    pub fn set_register_at(&mut self, reg: usize, new_value: u32)
        requires
            reg < 16,
        ensures
            final(self)@ == old(self)@.update(reg as int, new_value),
    {
        self.0[reg] = new_value;
    }

    /// The value of register `reg`.
    pub fn register_at(&self, reg: usize) -> (value: u32)
        requires
            reg < 16,
        ensures
            value == self@[reg as int],
    {
        self.0[reg]
    }
}

/// Whether a single data transfer loads, stores or preloads.
#[derive(Clone, Copy, Debug, PartialEq, Eq, Structural)]
pub enum SingleDataTransfer {
    /// Load a register from memory.
    Ldr,
    /// Store a register to memory.
    Str,
    /// Preload: a load whose condition field is `1111`.
    Pld,
}

impl SingleDataTransfer {
    /// The kind of transfer that an opcode asks for: a store if bit 20 is
    /// clear, else a preload if bits 31..=28 are all set, else a load.
    pub open spec fn spec_from_opcode(op_code: u32) -> SingleDataTransfer {
        if spec_get_bit(op_code, 20) {
            if spec_get_bits(op_code, 28, 31) == 0b1111 {
                SingleDataTransfer::Pld
            } else {
                SingleDataTransfer::Ldr
            }
        } else {
            SingleDataTransfer::Str
        }
    }
}

impl From<u32> for SingleDataTransfer {
    /// Reads the kind of transfer from bits 20 and 31..=28 of an opcode.
    fn from(op_code: u32) -> (kind: Self) {
        let must_for_pld = get_bits(op_code, 28, 31) == 0b1111;
        if get_bit(op_code, 20) {
            if must_for_pld {
                SingleDataTransfer::Pld
            } else {
                SingleDataTransfer::Ldr
            }
        } else {
            SingleDataTransfer::Str
        }
    }
}

impl FromSpecImpl<u32> for SingleDataTransfer {
    open spec fn obeys_from_spec() -> bool {
        true
    }

    open spec fn from_spec(op_code: u32) -> Self {
        Self::spec_from_opcode(op_code)
    }
}

/// The little-endian 32-bit word whose four bytes start at `offset` in `rom`.
pub open spec fn spec_word_at(rom: Seq<u8>, offset: int) -> u32 {
    (rom[offset] + 0x100 * rom[offset + 1] + 0x1_0000 * rom[offset + 2] + 0x100_0000 * rom[offset
        + 3]) as u32
}

/// The condition and the category that an opcode decodes to, or the refusal
/// of an opcode of no category.
pub open spec fn spec_decode(op_code: u32) -> Result<(Condition, ArmModeInstruction), CpuError> {
    match ArmModeInstruction::spec_decode(op_code) {
        Some(instruction) => Ok((Condition::spec_from_opcode(op_code), instruction)),
        None => Err(CpuError::UndecodableOpcode),
    }
}

/// The fields of an opcode that name a register are below 16, the rotation
/// of an immediate is below 16, and the offset of a branch is below two to
/// the 24.
pub proof fn lemma_fields_in_range(op_code: u32)
    ensures
        spec_get_bits(op_code, 0, 3) < 16,
        spec_get_bits(op_code, 8, 11) < 16,
        spec_get_bits(op_code, 12, 15) < 16,
        spec_get_bits(op_code, 16, 19) < 16,
        spec_get_bits(op_code, 0, 23) < 0x100_0000,
{
    assert(spec_get_bits(op_code, 0, 3) < 16 && spec_get_bits(op_code, 8, 11) < 16
        && spec_get_bits(op_code, 12, 15) < 16 && spec_get_bits(op_code, 16, 19) < 16
        && spec_get_bits(op_code, 0, 23) < 0x100_0000) by (bit_vector);
}

/// The core as the contracts see it: the code image, the sixteen registers
/// and the flags.
#[verifier::ext_equal]
pub struct CpuState {
    /// The bytes of the code image.
    pub rom: Seq<u8>,
    /// The values of registers 0 to 15.
    pub registers: Seq<u32>,
    /// The flags.
    pub cpsr: Cpsr,
}

impl CpuState {
    /// A core has sixteen registers.
    pub open spec fn wf(self) -> bool {
        self.registers.len() == 16
    }

    /// The program counter.
    pub open spec fn pc(self) -> u32 {
        self.registers[15]
    }

    /// This state with `value` in register `reg`.
    pub open spec fn with_register(self, reg: int, value: u32) -> CpuState {
        CpuState { registers: self.registers.update(reg, value), ..self }
    }

    /// This state with the program counter moved on by `bytes`, modulo two
    /// to the 32.
    pub open spec fn advance(self, bytes: int) -> CpuState {
        self.with_register(15, spec_wrapping_offset(self.pc(), bytes))
    }

    /// The opcode at the program counter, where the four bytes from there on
    /// lie inside the code image.
    pub open spec fn fetch(self) -> Result<u32, CpuError> {
        if self.pc() + 4 <= self.rom.len() {
            Ok(spec_word_at(self.rom, self.pc() as int))
        } else {
            Err(CpuError::FetchOutOfBounds)
        }
    }

    /// The state after the handler of a branch: the program counter has
    /// moved on by 8 and by four times the low 24 bits of the opcode, taken
    /// as an unsigned number.
    pub open spec fn branch(self, op_code: u32) -> CpuState {
        self.advance(8 + 4 * spec_get_bits(op_code, 0, 23))
    }

    /// The state after the handler of a branch with link: register 14 holds
    /// the old program counter plus 4, and the branch is taken.
    pub open spec fn branch_link(self, op_code: u32) -> CpuState {
        self.with_register(14, spec_wrapping_offset(self.pc(), 4)).branch(op_code)
    }

    /// The second operand of a data-processing opcode.
    ///
    /// With bit 25 set it is the immediate in bits 7..=0, rotated right by
    /// twice the number in bits 11..=8. Otherwise it is the value of the
    /// register named in bits 3..=0, shifted as bits 6..=5 say: with bit 4
    /// set by the low eight bits of the register named in bits 11..=8, as a
    /// plain shift; with bit 4 clear by the immediate amount in bits 11..=7,
    /// with the special meanings of an amount of zero.
    pub open spec fn operand2(self, op_code: u32) -> Result<Shifted, CpuError> {
        if spec_get_bit(op_code, 25) {
            Ok(
                Shifted {
                    value: spec_rotate_right(
                        spec_get_bits(op_code, 0, 7),
                        (2 * spec_get_bits(op_code, 8, 11)) as u32,
                    ),
                    carry: None,
                },
            )
        } else {
            let rm = self.registers[spec_get_bits(op_code, 0, 3) as int];
            let shift_type = ShiftType::spec_from_opcode(op_code);
            if spec_get_bit(op_code, 4) {
                let rs = self.registers[spec_get_bits(op_code, 8, 11) as int];
                Ok(
                    Shifted {
                        value: spec_shift_immediate(shift_type, spec_get_bits(rs, 0, 7), rm),
                        carry: None,
                    },
                )
            } else {
                spec_shift(shift_type, spec_get_bits(op_code, 7, 11), rm)
            }
        }
    }

    /// This state with the carry flag that the barrel shifter hands over, if
    /// it hands one over.
    pub open spec fn with_carry(self, carry: Option<bool>) -> CpuState {
        match carry {
            Some(flag) => CpuState { cpsr: Cpsr { carry: flag, ..self.cpsr }, ..self },
            None => self,
        }
    }

    /// The state after MOV: register `rd` holds the second operand.
    pub open spec fn mov(self, rd: int, op2: u32) -> CpuState {
        self.with_register(rd, op2)
    }

    /// The state after TEQ: the sign flag is bit 31 of the exclusive or of
    /// register `rn` and the second operand, and the zero flag says whether
    /// that exclusive or is zero. No register changes.
    pub open spec fn teq(self, rn: int, op2: u32) -> CpuState {
        let value = self.registers[rn] ^ op2;
        CpuState {
            cpsr: Cpsr { sign: spec_get_bit(value, 31), zero: value == 0, ..self.cpsr },
            ..self
        }
    }

    /// The state after the handler of a data-processing opcode. The carry
    /// that the barrel shifter hands over is written to the carry flag; then
    /// MOV writes the second operand to the register named in bits 15..=12,
    /// and TEQ sets the sign and zero flags from the register named in bits
    /// 19..=16. The other fourteen operations have no handler.
    pub open spec fn data_processing(self, op_code: u32) -> Result<CpuState, CpuError> {
        match self.operand2(op_code) {
            Ok(op2) => match ArmModeAluInstruction::spec_from_opcode(op_code) {
                ArmModeAluInstruction::Mov => Ok(
                    self.with_carry(op2.carry).mov(
                        spec_get_bits(op_code, 12, 15) as int,
                        op2.value,
                    ),
                ),
                ArmModeAluInstruction::Teq => Ok(
                    self.with_carry(op2.carry).teq(
                        spec_get_bits(op_code, 16, 19) as int,
                        op2.value,
                    ),
                ),
                _ => Err(CpuError::UnimplementedInstruction),
            },
            Err(e) => Err(e),
        }
    }

    /// The base address of a single data transfer: the value of the register
    /// named in bits 19..=16, or the program counter plus 8 where that
    /// register is the program counter.
    pub open spec fn transfer_base(self, op_code: u32) -> u32 {
        let rn = spec_get_bits(op_code, 16, 19);
        if rn == 15 {
            spec_wrapping_offset(self.pc(), 8)
        } else {
            self.registers[rn as int]
        }
    }

    /// The address of a single data transfer: the base, less the offset in
    /// bits 11..=0 where bit 23 is set, plus that offset where it is clear,
    /// modulo two to the 32.
    pub open spec fn transfer_address(self, op_code: u32) -> u32 {
        let offset = spec_get_bits(op_code, 0, 11);
        if spec_get_bit(op_code, 23) {
            spec_wrapping_offset(self.transfer_base(op_code), -offset)
        } else {
            spec_wrapping_offset(self.transfer_base(op_code), offset as int)
        }
    }

    /// The state after the handler of a single data transfer. A load with
    /// bit 25 clear writes the address of the transfer to the register named
    /// in bits 15..=12. An opcode with bit 25 set, a store and a preload have
    /// no handler.
    pub open spec fn single_data_transfer(self, op_code: u32) -> Result<CpuState, CpuError> {
        if spec_get_bit(op_code, 25) {
            Err(CpuError::UnimplementedInstruction)
        } else {
            match SingleDataTransfer::spec_from_opcode(op_code) {
                SingleDataTransfer::Ldr => Ok(
                    self.with_register(
                        spec_get_bits(op_code, 12, 15) as int,
                        self.transfer_address(op_code),
                    ),
                ),
                _ => Err(CpuError::UnimplementedInstruction),
            }
        }
    }

    /// The state after executing an opcode as an instruction of the given
    /// category: the state that the handler of the category leaves, with the
    /// program counter moved on by 4.
    pub open spec fn execute(self, op_code: u32, instruction: ArmModeInstruction) -> Result<
        CpuState,
        CpuError,
    > {
        let handled = match instruction {
            ArmModeInstruction::Branch => Ok(self.branch(op_code)),
            ArmModeInstruction::BranchLink => Ok(self.branch_link(op_code)),
            ArmModeInstruction::DataProcessing1
            | ArmModeInstruction::DataProcessing2
            | ArmModeInstruction::DataProcessing3 => self.data_processing(op_code),
            ArmModeInstruction::DataTransfer => self.single_data_transfer(op_code),
        };
        match handled {
            Ok(next) => Ok(next.advance(4)),
            Err(e) => Err(e),
        }
    }

    /// The state after one step: the opcode at the program counter is
    /// fetched and decoded; if the flags meet its condition it is executed,
    /// else only the program counter moves on by 4.
    pub open spec fn step(self) -> Result<CpuState, CpuError> {
        match self.fetch() {
            Ok(op_code) => match spec_decode(op_code) {
                Ok((condition, instruction)) => if self.cpsr.spec_can_execute(condition) {
                    self.execute(op_code, instruction)
                } else {
                    Ok(self.advance(4))
                },
                Err(e) => Err(e),
            },
            Err(e) => Err(e),
        }
    }

    /// A step whose opcode fails its condition changes nothing but the
    /// program counter, which moves on by 4.
    pub proof fn lemma_skipped_step(self, op_code: u32)
        requires
            self.wf(),
            self.fetch() == Ok::<u32, CpuError>(op_code),
            ArmModeInstruction::spec_decode(op_code) is Some,
            !self.cpsr.spec_can_execute(Condition::spec_from_opcode(op_code)),
        ensures
            self.step() == Ok::<CpuState, CpuError>(self.advance(4)),
            self.advance(4).pc() == (self.pc() + 4) % 0x1_0000_0000,
            forall|reg: int|
                0 <= reg < 15 ==> self.advance(4).registers[reg] == self.registers[reg],
            self.advance(4).cpsr == self.cpsr,
    {
    }

    /// A step that executes a branch with link found at program counter `X`
    /// leaves `X + 4` in register 14 and `X + 8 + 4 * offset + 4` in the
    /// program counter, both modulo two to the 32, where `offset` is the low
    /// 24 bits of the opcode. Registers 0 to 13 and the flags stay.
    pub proof fn lemma_branch_link_step(self, op_code: u32)
        requires
            self.wf(),
            self.fetch() == Ok::<u32, CpuError>(op_code),
            ArmModeInstruction::spec_decode(op_code) == Some(ArmModeInstruction::BranchLink),
            self.cpsr.spec_can_execute(Condition::spec_from_opcode(op_code)),
        ensures
            self.step() matches Ok(next) && ({
                &&& next.registers[14] == (self.pc() + 4) % 0x1_0000_0000
                &&& next.registers[15] == (self.pc() + 8 + 4 * spec_get_bits(op_code, 0, 23) + 4)
                    % 0x1_0000_0000
                &&& forall|reg: int| 0 <= reg < 14 ==> next.registers[reg] == self.registers[reg]
                &&& next.registers.len() == 16
                &&& next.cpsr == self.cpsr
                &&& next.rom == self.rom
            }),
    {
        lemma_fields_in_range(op_code);
    }

    /// A step that executes a branch found at program counter `X` leaves
    /// `X + 8 + 4 * offset + 4` in the program counter, modulo two to the 32,
    /// and changes nothing else.
    pub proof fn lemma_branch_step(self, op_code: u32)
        requires
            self.wf(),
            self.fetch() == Ok::<u32, CpuError>(op_code),
            ArmModeInstruction::spec_decode(op_code) == Some(ArmModeInstruction::Branch),
            self.cpsr.spec_can_execute(Condition::spec_from_opcode(op_code)),
        ensures
            self.step() matches Ok(next) && ({
                &&& next.registers[15] == (self.pc() + 8 + 4 * spec_get_bits(op_code, 0, 23) + 4)
                    % 0x1_0000_0000
                &&& forall|reg: int| 0 <= reg < 15 ==> next.registers[reg] == self.registers[reg]
                &&& next.registers.len() == 16
                &&& next.cpsr == self.cpsr
                &&& next.rom == self.rom
            }),
    {
        lemma_fields_in_range(op_code);
    }

    /// A program counter that is a multiple of 4 is still one after a step
    /// that takes a branch, with or without link, or that skips its opcode.
    pub proof fn lemma_step_keeps_alignment(self, op_code: u32)
        requires
            self.wf(),
            self.pc() % 4 == 0,
            self.fetch() == Ok::<u32, CpuError>(op_code),
            ArmModeInstruction::spec_decode(op_code) matches Some(instruction) && (instruction
                == ArmModeInstruction::Branch || instruction == ArmModeInstruction::BranchLink
                || !self.cpsr.spec_can_execute(Condition::spec_from_opcode(op_code))),
        ensures
            self.step() matches Ok(next) && next.pc() % 4 == 0,
    {
        lemma_fields_in_range(op_code);
    }

    /// Executing MOV with an immediate operand writes the immediate in bits
    /// 7..=0, rotated right by twice the number in bits 11..=8, to the
    /// register named in bits 15..=12, and moves the program counter on by
    /// 4; where that register is the program counter itself, it ends 4 above
    /// the rotated immediate. Such an opcode decodes to the third form of
    /// data processing, and no other register and no flag changes.
    pub proof fn lemma_mov_immediate(self, op_code: u32)
        requires
            self.wf(),
            spec_get_bits(op_code, 26, 27) == 0b00,
            spec_get_bit(op_code, 25),
            ArmModeAluInstruction::spec_from_opcode(op_code) == ArmModeAluInstruction::Mov,
        ensures
            ArmModeInstruction::spec_decode(op_code) == Some(ArmModeInstruction::DataProcessing3),
            self.execute(op_code, ArmModeInstruction::DataProcessing3) matches Ok(next) && ({
                let rd = spec_get_bits(op_code, 12, 15) as int;
                let moved = spec_rotate_right(
                    spec_get_bits(op_code, 0, 7),
                    (2 * spec_get_bits(op_code, 8, 11)) as u32,
                );
                &&& rd != 15 ==> next.registers[rd] == moved && next.registers[15] == (self.pc()
                    + 4) % 0x1_0000_0000
                &&& rd == 15 ==> next.registers[15] == (moved + 4) % 0x1_0000_0000
                &&& forall|reg: int|
                    0 <= reg < 15 && reg != rd ==> next.registers[reg] == self.registers[reg]
                &&& next.registers.len() == 16
                &&& next.cpsr == self.cpsr
                &&& next.rom == self.rom
            }),
    {
        lemma_fields_in_range(op_code);
        assert(spec_get_bits(op_code, 25, 27) != 0b101) by (bit_vector)
            requires
                spec_get_bits(op_code, 26, 27) == 0b00,
        ;
    }

    /// Executing TEQ sets the sign flag to bit 31 of the exclusive or of its
    /// two operands and the zero flag to whether that exclusive or is zero,
    /// whatever the operands' own signs are. The overflow flag and every
    /// register but the program counter stay.
    pub proof fn lemma_teq_flags(self, op_code: u32, instruction: ArmModeInstruction)
        requires
            self.wf(),
            instruction == ArmModeInstruction::DataProcessing1 || instruction
                == ArmModeInstruction::DataProcessing2 || instruction
                == ArmModeInstruction::DataProcessing3,
            ArmModeAluInstruction::spec_from_opcode(op_code) == ArmModeAluInstruction::Teq,
            self.operand2(op_code) is Ok,
        ensures
            self.execute(op_code, instruction) matches Ok(next) && ({
                let rn = self.registers[spec_get_bits(op_code, 16, 19) as int];
                let op2 = self.operand2(op_code)->Ok_0.value;
                &&& next.cpsr.sign == spec_get_bit(rn ^ op2, 31)
                &&& next.cpsr.zero == (rn ^ op2 == 0)
                &&& next.cpsr.overflow == self.cpsr.overflow
                &&& forall|reg: int| 0 <= reg < 15 ==> next.registers[reg] == self.registers[reg]
                &&& next.registers[15] == (self.pc() + 4) % 0x1_0000_0000
            }),
    {
        lemma_fields_in_range(op_code);
    }
}

/// The processor core.
pub struct Arm7tdmi {
    /// The code image. The core reads opcodes from it and never writes it.
    pub rom: Vec<u8>,
    /// The register file.
    pub registers: Registers,
    /// The flags register.
    pub cpsr: Cpsr,
}

impl View for Arm7tdmi {
    type V = CpuState;

    open spec fn view(&self) -> CpuState {
        CpuState { rom: self.rom@, registers: self.registers@, cpsr: self.cpsr }
    }
}

impl Arm7tdmi {
    /// A core in its reset state: every register holds zero, every flag is
    /// clear, and the code image is `rom`.
    pub fn new(rom: Vec<u8>) -> (cpu: Self)
        ensures
            cpu@.rom == rom@,
            cpu@.registers == Seq::new(16, |i: int| 0u32),
            cpu@.cpsr == Cpsr::spec_cleared(),
    {
        Arm7tdmi { rom, registers: Registers::default(), cpsr: Cpsr::default() }
    }

    /// Reads the opcode at the program counter from the code image, low byte
    /// first.
    pub fn fetch(&self) -> (result: Result<u32, CpuError>)
        ensures
            result == self@.fetch(),
    {
        let index = self.registers.program_counter();
        let len = self.rom.len();
        if len < 4 || index > len - 4 {
            return Err(CpuError::FetchOutOfBounds);
        }
        let b0 = self.rom[index];
        let b1 = self.rom[index + 1];
        let b2 = self.rom[index + 2];
        let b3 = self.rom[index + 3];
        assert((b0 as u32) | ((b1 as u32) << 8) | ((b2 as u32) << 16) | ((b3 as u32) << 24) == b0
            + 0x100 * b1 + 0x1_0000 * b2 + 0x100_0000 * b3) by (bit_vector);
        Ok((b0 as u32) | ((b1 as u32) << 8) | ((b2 as u32) << 16) | ((b3 as u32) << 24))
    }

    /// Decodes an opcode into its condition and its category.
    pub fn decode(&self, op_code: u32) -> (result: Result<
        (Condition, ArmModeInstruction),
        CpuError,
    >)
        ensures
            result == spec_decode(op_code),
    {
        let condition = Condition::from_opcode(op_code);
        match ArmModeInstruction::try_from(op_code) {
            Ok(instruction) => Ok((condition, instruction)),
            Err(e) => Err(e),
        }
    }

    /// Decoding depends on the opcode alone: two cores, whatever their
    /// registers, flags and code images hold, decode one opcode to one
    /// result.
    pub proof fn lemma_decode_is_pure(
        core: Arm7tdmi,
        other: Arm7tdmi,
        op_code: u32,
        decoded: Result<(Condition, ArmModeInstruction), CpuError>,
        other_decoded: Result<(Condition, ArmModeInstruction), CpuError>,
    )
        requires
            call_ensures(Arm7tdmi::decode, (&core, op_code), decoded),
            call_ensures(Arm7tdmi::decode, (&other, op_code), other_decoded),
        ensures
            decoded == other_decoded,
    {
    }

    /// Takes a branch.
    pub fn branch(&mut self, op_code: u32)
        ensures
            final(self)@ == old(self)@.branch(op_code),
    {
        let offset = get_bits(op_code, 0, 23);
        proof {
            lemma_fields_in_range(op_code);
        }
        self.registers.advance_program_counter(8 + offset * 4);
    }

    /// Takes a branch after saving the return address in register 14.
    pub fn branch_link(&mut self, op_code: u32)
        ensures
            final(self)@ == old(self)@.branch_link(op_code),
    {
        let pc = self.registers.register_at(15);
        self.registers.set_register_at(14, pc.wrapping_add(4));
        let offset = get_bits(op_code, 0, 23);
        proof {
            lemma_fields_in_range(op_code);
        }
        self.registers.advance_program_counter(8 + offset * 4);
    }

    /// Shifts `value` by `shift_amount` bits, with no special case for an
    /// amount of zero.
    pub fn shift_immediate(&self, shift_type: ShiftType, shift_amount: u32, value: u32) -> (
        shifted: u32
    )
        ensures
            shifted == spec_shift_immediate(shift_type, shift_amount, value),
    {
        match shift_type {
            ShiftType::Lsl => if shift_amount >= 32 {
                0
            } else {
                value << shift_amount
            },
            ShiftType::Lsr => if shift_amount >= 32 {
                0
            } else {
                value >> shift_amount
            },
            ShiftType::Asr => arithmetic_shift_right(value, shift_amount),
            ShiftType::Ror => rotate_right(value, shift_amount),
        }
    }

    /// Shifts `value` by an amount that an opcode gives as an immediate, and
    /// says what the shift hands to the carry flag. ROR #0 is refused as
    /// unimplemented.
    pub fn shift(&self, shift_type: ShiftType, shift_amount: u32, value: u32) -> (result: Result<
        Shifted,
        CpuError,
    >)
        ensures
            result == spec_shift(shift_type, shift_amount, value),
    {
        if shift_amount != 0 {
            return Ok(
                Shifted {
                    value: self.shift_immediate(shift_type, shift_amount, value),
                    carry: None,
                },
            );
        }
        match shift_type {
            ShiftType::Lsl => Ok(Shifted { value, carry: None }),
            ShiftType::Lsr => Ok(Shifted { value: 0, carry: Some(get_bit(value, 31)) }),
            ShiftType::Asr => {
                let sign = get_bit(value, 31);
                let filled: u32 = if sign {
                    0xFFFF_FFFF
                } else {
                    0
                };
                Ok(Shifted { value: filled, carry: Some(sign) })
            },
            ShiftType::Ror => Err(CpuError::UnimplementedInstruction),
        }
    }

    /// Resolves the second operand of a data-processing opcode.
    pub fn operand2(&self, opcode: u32) -> (result: Result<Shifted, CpuError>)
        ensures
            result == self@.operand2(opcode),
    {
        proof {
            lemma_fields_in_range(opcode);
        }
        if get_bit(opcode, 25) {
            let is = get_bits(opcode, 8, 11);
            let nn = get_bits(opcode, 0, 7);
            Ok(Shifted { value: rotate_right(nn, is * 2), carry: None })
        } else {
            let shift_type = ShiftType::from_opcode(opcode);
            let rm = self.registers.register_at(get_bits(opcode, 0, 3) as usize);
            if get_bit(opcode, 4) {
                let rs = get_bits(opcode, 8, 11);
                let shift_amount = get_bits(self.registers.register_at(rs as usize), 0, 7);
                Ok(
                    Shifted {
                        value: self.shift_immediate(shift_type, shift_amount, rm),
                        carry: None,
                    },
                )
            } else {
                let shift_amount = get_bits(opcode, 7, 11);
                self.shift(shift_type, shift_amount, rm)
            }
        }
    }

    /// Executes a data-processing opcode.
    pub fn data_processing(&mut self, opcode: u32) -> (result: Result<(), CpuError>)
        ensures
            (match old(self)@.data_processing(opcode) {
                Ok(next) => result is Ok && final(self)@ == next,
                Err(e) => result == Err::<(), CpuError>(e) && final(self)@ == old(self)@,
            }),
    {
        proof {
            lemma_fields_in_range(opcode);
        }
        let rd = get_bits(opcode, 12, 15);
        let rn = get_bits(opcode, 16, 19);
        let op2 = match self.operand2(opcode) {
            Ok(op2) => op2,
            Err(e) => {
                return Err(e);
            },
        };
        match ArmModeAluInstruction::from_opcode(opcode) {
            ArmModeAluInstruction::Mov => {
                self.carry_from_shifter(op2.carry);
                self.mov(rd as usize, op2.value);
                Ok(())
            },
            ArmModeAluInstruction::Teq => {
                self.carry_from_shifter(op2.carry);
                self.teq(rn, op2.value);
                Ok(())
            },
            _ => Err(CpuError::UnimplementedInstruction),
        }
    }

    /// Writes to the carry flag what the barrel shifter handed over, if
    /// anything.
    fn carry_from_shifter(&mut self, carry: Option<bool>)
        ensures
            final(self)@ == old(self)@.with_carry(carry),
    {
        if let Some(flag) = carry {
            self.cpsr.set_carry_flag(flag);
        }
    }

    /// Executes a single data transfer.
    pub fn single_data_transfer(&mut self, opcode: u32) -> (result: Result<(), CpuError>)
        ensures
            (match old(self)@.single_data_transfer(opcode) {
                Ok(next) => result is Ok && final(self)@ == next,
                Err(e) => result == Err::<(), CpuError>(e) && final(self)@ == old(self)@,
            }),
    {
        proof {
            lemma_fields_in_range(opcode);
        }
        let immediate = get_bit(opcode, 25);
        let up_down = get_bit(opcode, 23);
        let rn = get_bits(opcode, 16, 19);
        let address = if rn == 0xF {
            self.registers.register_at(15).wrapping_add(8)
        } else {
            self.registers.register_at(rn as usize)
        };
        let rd = get_bits(opcode, 12, 15);
        if immediate {
            return Err(CpuError::UnimplementedInstruction);
        }
        let offset = get_bits(opcode, 0, 11);
        match SingleDataTransfer::from(opcode) {
            SingleDataTransfer::Ldr => {
                let target = if up_down {
                    address.wrapping_sub(offset)
                } else {
                    address.wrapping_add(offset)
                };
                self.registers.set_register_at(rd as usize, target);
                Ok(())
            },
            _ => Err(CpuError::UnimplementedInstruction),
        }
    }

    /// MOV: writes the second operand to register `rd`.
    pub fn mov(&mut self, rd: usize, op2: u32)
        requires
            rd < 16,
        ensures
            final(self)@ == old(self)@.mov(rd as int, op2),
    {
        self.registers.set_register_at(rd, op2);
    }

    /// TEQ: sets the sign and zero flags from the exclusive or of register
    /// `rn` and the second operand, and drops the result.
    pub fn teq(&mut self, rn: u32, op2: u32)
        requires
            rn < 16,
        ensures
            final(self)@ == old(self)@.teq(rn as int, op2),
    {
        let value = self.registers.register_at(rn as usize) ^ op2;
        self.cpsr.set_sign_flag(get_bit(value, 31));
        self.cpsr.set_zero_flag(value == 0);
    }

    /// Executes an opcode as an instruction of the given category, then
    /// moves the program counter on by 4. It does not look at the opcode's
    /// condition. On an error nothing changes.
    pub fn execute(&mut self, op_code: u32, instruction_type: ArmModeInstruction) -> (
        result: Result<(), CpuError>
    )
        ensures
            (match old(self)@.execute(op_code, instruction_type) {
                Ok(next) => result is Ok && final(self)@ == next,
                Err(e) => result == Err::<(), CpuError>(e) && final(self)@ == old(self)@,
            }),
    {
        let handled = match instruction_type {
            ArmModeInstruction::Branch => {
                self.branch(op_code);
                Ok(())
            },
            ArmModeInstruction::BranchLink => {
                self.branch_link(op_code);
                Ok(())
            },
            ArmModeInstruction::DataProcessing1
            | ArmModeInstruction::DataProcessing2
            | ArmModeInstruction::DataProcessing3 => self.data_processing(op_code),
            ArmModeInstruction::DataTransfer => self.single_data_transfer(op_code),
        };
        match handled {
            Ok(()) => {
                self.registers.advance_program_counter(4);
                Ok(())
            },
            Err(e) => Err(e),
        }
    }

    /// Advances the core by one instruction: fetch, decode, execute if the
    /// flags meet the condition, and move the program counter on by 4. On an
    /// error nothing changes.
    pub fn step(&mut self) -> (result: Result<(), CpuError>)
        ensures
            (match old(self)@.step() {
                Ok(next) => result is Ok && final(self)@ == next,
                Err(e) => result == Err::<(), CpuError>(e) && final(self)@ == old(self)@,
            }),
    {
        let op_code = match self.fetch() {
            Ok(op_code) => op_code,
            Err(e) => {
                return Err(e);
            },
        };
        let (condition, instruction) = match self.decode(op_code) {
            Ok(decoded) => decoded,
            Err(e) => {
                return Err(e);
            },
        };
        if self.cpsr.can_execute(condition) {
            self.execute(op_code, instruction)
        } else {
            self.registers.advance_program_counter(4);
            Ok(())
        }
    }
}

} // verus!
