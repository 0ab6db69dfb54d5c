use ragb::alu::sign_extend;
use ragb::arm::{Mode, ProgramStatus};
use ragb::decode_arm::{Condition, DPShifterOperand, DataProcessingOpcode, ShiftType};
use ragb::gba::{ExceptionType, GbaSystem, Register};

fn machine_in(mode: Mode) -> GbaSystem {
    let mut gba = GbaSystem::new();
    gba.cpsr.set_mode(mode);
    gba
}

#[test]
fn sign_extend_widens_the_sign_bit() {
    assert_eq!(sign_extend(0x0080_0000, 24), -8_388_608);
    assert_eq!(sign_extend(0x007F_FFFF, 24), 8_388_607);
    assert_eq!(sign_extend(0x3FF_FFF8, 26), -8);
    assert_eq!(sign_extend(0x1, 1), -1);
    assert_eq!(sign_extend(0xFFFF_FFFF, 32), -1);
}

#[test]
fn mode_encoding_round_trip() {
    for m in [
        Mode::User,
        Mode::FIQ,
        Mode::IRQ,
        Mode::Supervisor,
        Mode::Abort,
        Mode::Undefined,
        Mode::System,
    ] {
        let mut p = ProgramStatus::empty();
        p.set_mode(m);
        assert_eq!(p.get_mode(), m);
        assert_eq!(Mode::try_from(m.encoding()), Ok(m));
    }
    assert_eq!(Mode::try_from(0b00000), Err(()));
}

#[test]
fn status_flags_do_not_touch_the_mode() {
    let mut p = ProgramStatus::empty();
    p.set_mode(Mode::IRQ);
    p.set(ProgramStatus::FLAG_N, true);
    p.set(ProgramStatus::FLAG_T, true);
    assert!(p.contains(ProgramStatus::FLAG_N));
    assert!(p.contains(ProgramStatus::FLAG_T));
    assert!(!p.contains(ProgramStatus::FLAG_Z));
    assert_eq!(p.get_mode(), Mode::IRQ);
    p.set(ProgramStatus::FLAG_N, false);
    assert!(!p.contains(ProgramStatus::FLAG_N));
    assert_eq!(ProgramStatus::from_bits_truncate(0xFFFF_FFFF).bits(), 0xF90F_03FF);
}

#[test]
fn register_written_is_read_back() {
    let mut gba = machine_in(Mode::User);
    for i in 0..16u8 {
        let r = Register::try_from(i).unwrap();
        gba.write_register(r, 0x1000 + i as u32);
    }
    for i in 0..16u8 {
        let r = Register::try_from(i).unwrap();
        assert_eq!(gba.read_register(r), 0x1000 + i as u32);
    }
    assert_eq!(Register::try_from(16), Err(()));
}

#[test]
fn banked_registers_are_private_to_their_mode() {
    let mut gba = machine_in(Mode::User);
    gba.write_register(Register::R13, 0x0300_7F00);
    gba.write_register(Register::R8, 0x88);
    gba.cpsr.set_mode(Mode::IRQ);
    assert_eq!(gba.read_register(Register::R13), 0);
    gba.write_register(Register::R13, 0x0300_7FA0);
    assert_eq!(gba.read_register(Register::R8), 0x88);
    gba.cpsr.set_mode(Mode::FIQ);
    assert_eq!(gba.read_register(Register::R8), 0);
    gba.cpsr.set_mode(Mode::System);
    assert_eq!(gba.read_register(Register::R13), 0x0300_7F00);
    gba.cpsr.set_mode(Mode::IRQ);
    assert_eq!(gba.read_register(Register::R13), 0x0300_7FA0);
}

#[test]
fn saved_status_exists_outside_user_and_system() {
    let mut gba = machine_in(Mode::User);
    assert!(gba.get_spsr().is_none());
    assert_eq!(gba.set_spsr(ProgramStatus::from_bits_retain(0x1F)), Err(()));
    gba.cpsr.set_mode(Mode::Supervisor);
    let saved = ProgramStatus::from_bits_retain(0x6000_0010);
    assert_eq!(gba.set_spsr(saved), Ok(()));
    assert_eq!(gba.get_spsr().unwrap().bits(), 0x6000_0010);
    gba.load_mode_spsr();
    assert_eq!(gba.cpsr.bits(), 0x6000_0010);
}

#[test]
fn exception_entry_switches_mode_and_jumps_to_vector() {
    let mut gba = machine_in(Mode::User);
    gba.cpsr.set(ProgramStatus::FLAG_T, true);
    gba.pc = 0x0800_0100;
    let before = gba.cpsr.bits();
    gba.raise_exception(ExceptionType::IRQ);
    assert_eq!(gba.cpsr.get_mode(), Mode::IRQ);
    assert!(!gba.cpsr.contains(ProgramStatus::FLAG_T));
    assert!(gba.cpsr.contains(ProgramStatus::FLAG_I));
    assert_eq!(gba.read_register(Register::R14), 0x0800_0100);
    assert_eq!(gba.read_register(Register::R15), 0x18);
    assert_eq!(gba.get_spsr().unwrap().bits(), before);
    assert!(gba.pc_dirty);
}

#[test]
fn reset_enters_supervisor_mode_at_zero() {
    let mut gba = GbaSystem::new();
    gba.write_register(Register::R15, 0x1234);
    gba.reset();
    assert_eq!(gba.cpsr.get_mode(), Mode::Supervisor);
    assert_eq!(gba.read_register(Register::R15), 0);
    assert!(gba.cpsr.contains(ProgramStatus::FLAG_I));
    assert!(gba.cpsr.contains(ProgramStatus::FLAG_F));
}

#[test]
fn conditions_follow_the_flags() {
    let mut gba = machine_in(Mode::User);
    gba.cpsr.set(ProgramStatus::FLAG_Z, true);
    assert!(gba.test_condition(Condition::EQ));
    assert!(!gba.test_condition(Condition::NE));
    assert!(gba.test_condition(Condition::AL));
    assert!(gba.test_condition(Condition::LS));
    assert!(!gba.test_condition(Condition::HI));
    gba.cpsr.set(ProgramStatus::FLAG_N, true);
    assert!(gba.test_condition(Condition::LT));
    assert!(!gba.test_condition(Condition::GE));
}

#[test]
fn greater_than_and_less_or_equal_both_fail_on_zero_with_equal_signs() {
    // GT and LE as the processor checks them are not complements here.
    let mut gba = machine_in(Mode::User);
    gba.cpsr.set(ProgramStatus::FLAG_Z, true);
    assert!(!gba.test_condition(Condition::GT));
    assert!(!gba.test_condition(Condition::LE));
}

#[test]
fn add_sets_carry_and_zero() {
    let mut gba = machine_in(Mode::User);
    gba.write_register(Register::R0, 0xFFFF_FFFF);
    gba.alu_perform(
        &DataProcessingOpcode::ADD,
        true,
        Register::R2,
        Register::R0,
        &DPShifterOperand::Immediate { rotate: 0, immed: 1 },
    );
    assert_eq!(gba.read_register(Register::R2), 0);
    assert!(gba.cpsr.contains(ProgramStatus::FLAG_Z));
    assert!(gba.cpsr.contains(ProgramStatus::FLAG_C));
    assert!(!gba.cpsr.contains(ProgramStatus::FLAG_N));
    assert!(!gba.cpsr.contains(ProgramStatus::FLAG_V));
}

#[test]
fn add_overflow_sets_v() {
    let mut gba = machine_in(Mode::User);
    gba.write_register(Register::R0, 0x7FFF_FFFF);
    gba.alu_perform(
        &DataProcessingOpcode::ADD,
        true,
        Register::R1,
        Register::R0,
        &DPShifterOperand::Immediate { rotate: 0, immed: 1 },
    );
    assert_eq!(gba.read_register(Register::R1), 0x8000_0000);
    assert!(gba.cpsr.contains(ProgramStatus::FLAG_V));
    assert!(gba.cpsr.contains(ProgramStatus::FLAG_N));
    assert!(!gba.cpsr.contains(ProgramStatus::FLAG_C));
}

#[test]
fn compare_equal_values() {
    let mut gba = machine_in(Mode::User);
    gba.write_register(Register::R3, 7);
    gba.alu_perform(
        &DataProcessingOpcode::CMP,
        true,
        Register::R0,
        Register::R3,
        &DPShifterOperand::Immediate { rotate: 0, immed: 7 },
    );
    assert!(gba.cpsr.contains(ProgramStatus::FLAG_Z));
    assert!(gba.cpsr.contains(ProgramStatus::FLAG_C));
    assert_eq!(gba.read_register(Register::R0), 0);
}

#[test]
fn subtract_with_borrow_clears_carry() {
    let mut gba = machine_in(Mode::User);
    gba.write_register(Register::R0, 1);
    gba.alu_perform(
        &DataProcessingOpcode::SUB,
        true,
        Register::R1,
        Register::R0,
        &DPShifterOperand::Immediate { rotate: 0, immed: 2 },
    );
    assert_eq!(gba.read_register(Register::R1), 0xFFFF_FFFF);
    assert!(!gba.cpsr.contains(ProgramStatus::FLAG_C));
    assert!(gba.cpsr.contains(ProgramStatus::FLAG_N));
}

#[test]
fn rotated_immediate_and_shifts() {
    let mut gba = machine_in(Mode::User);
    // 0xFF rotated right by 8: 0xFF000000.
    gba.alu_perform(
        &DataProcessingOpcode::MOV,
        false,
        Register::R0,
        Register::R0,
        &DPShifterOperand::Immediate { rotate: 4, immed: 0xFF },
    );
    assert_eq!(gba.read_register(Register::R0), 0xFF00_0000);
    gba.write_register(Register::R1, 0x8000_0001);
    gba.alu_perform(
        &DataProcessingOpcode::MOV,
        false,
        Register::R2,
        Register::R0,
        &DPShifterOperand::ImmediateShift { immed: 4, shift_type: ShiftType::LSL, rm: Register::R1 },
    );
    assert_eq!(gba.read_register(Register::R2), 0x10);
    gba.alu_perform(
        &DataProcessingOpcode::MOV,
        false,
        Register::R3,
        Register::R0,
        &DPShifterOperand::ImmediateShift { immed: 4, shift_type: ShiftType::ASR, rm: Register::R1 },
    );
    assert_eq!(gba.read_register(Register::R3), 0xF800_0000);
}

#[test]
fn multiply_keeps_low_word() {
    let mut gba = machine_in(Mode::User);
    gba.write_register(Register::R0, 0x1_0001);
    gba.write_register(Register::R1, 0x1_0001);
    gba.alu_perform(
        &DataProcessingOpcode::MUL,
        true,
        Register::R0,
        Register::R0,
        &DPShifterOperand::ImmediateShift { immed: 0, shift_type: ShiftType::LSL, rm: Register::R1 },
    );
    assert_eq!(gba.read_register(Register::R0), 0x0002_0001);
    assert!(!gba.cpsr.contains(ProgramStatus::FLAG_Z));
}

#[test]
fn instruction_size_follows_thumb_state() {
    let mut gba = machine_in(Mode::User);
    assert_eq!(gba.instruction_size(), 4);
    gba.cpsr.set(ProgramStatus::FLAG_T, true);
    assert_eq!(gba.instruction_size(), 2);
}
