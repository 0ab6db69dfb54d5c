use ragb::arm::{Mode, ProgramStatus};
use ragb::bus::BusWidth;
use ragb::decode_arm::{
    ArmInstruction, BranchOperation, Condition, DPShifterOperand, DataProcessingOpcode,
    LSShifterOperand, RegisterList,
};
use ragb::gba::{CpuFault, EmulationResult, GbaSystem, Register, VideoEvent};

fn words_to_bytes(words: &[u32]) -> Vec<u8> {
    let mut bytes = Vec::new();
    for w in words {
        bytes.extend_from_slice(&w.to_le_bytes());
    }
    bytes
}

fn machine_with_bios(words: &[u32]) -> GbaSystem {
    let mut gba = GbaSystem::new();
    gba.load_bios(&words_to_bytes(words));
    gba.reset();
    gba
}

#[test]
fn runs_a_small_program() {
    // MOV r0, #5; ADD r1, r0, #3; B .
    let mut gba = machine_with_bios(&[0xE3A0_0005, 0xE280_1003, 0xEAFF_FFFE]);
    assert_eq!(gba.emulate(), Ok(EmulationResult::Cycles(4)));
    assert_eq!(gba.read_register(Register::R0), 5);
    assert_eq!(gba.pc, 4);
    assert_eq!(gba.emulate(), Ok(EmulationResult::Cycles(4)));
    assert_eq!(gba.read_register(Register::R1), 8);
    assert_eq!(gba.pc, 8);
    for _ in 0..10 {
        assert_eq!(gba.emulate(), Ok(EmulationResult::Cycles(4)));
        assert_eq!(gba.pc, 8);
    }
}

#[test]
fn prefetch_keeps_two_instructions_queued() {
    let mut gba = machine_with_bios(&[0xE3A0_0005, 0xE280_1003, 0xEAFF_FFFE]);
    gba.emulate_cpu().unwrap();
    assert_eq!(gba.instruction_cache.len(), 1);
    assert_eq!(gba.instruction_cache[0].0, 4);
    assert_eq!(gba.read_register(Register::R15), 8);
}

#[test]
fn undecodable_instruction_raises_undefined() {
    let mut gba = machine_with_bios(&[0xEE00_0000]);
    assert_eq!(gba.emulate(), Ok(EmulationResult::Cycles(0)));
    assert_eq!(gba.cpsr.get_mode(), Mode::Undefined);
    assert_eq!(gba.read_register(Register::R15), 4);
}

#[test]
fn jump_below_zero_stops_with_exception() {
    // B to 0xFFFFFFFC.
    let mut gba = machine_with_bios(&[0xEAFF_FFFD]);
    assert_eq!(gba.emulate(), Ok(EmulationResult::Exception));
    assert_eq!(gba.pc, 0);
}

#[test]
fn store_to_rom_is_a_fault() {
    // MOV r0, #0; STR r0, [r0]
    let mut gba = machine_with_bios(&[0xE3A0_0000, 0xE580_0000]);
    gba.emulate().unwrap();
    assert_eq!(gba.emulate(), Err(CpuFault::AccessViolation));
    assert!(!CpuFault::AccessViolation.message().is_empty());
}

#[test]
fn load_from_work_ram() {
    // MOV r1, #0x03000000; LDR r0, [r1, #4]; B .
    let mut gba = machine_with_bios(&[0xE3A0_1403, 0xE591_0004, 0xEAFF_FFFE]);
    gba.iwram[1] = 0xCAFE_BABE;
    gba.emulate().unwrap();
    assert_eq!(gba.read_register(Register::R1), 0x0300_0000);
    gba.emulate().unwrap();
    assert_eq!(gba.read_register(Register::R0), 0xCAFE_BABE);
}

#[test]
fn store_multiple_then_load_multiple() {
    // MOV r13, #0x03000000; ADD r13, r13, #0x100; MOV r0, #1; MOV r1, #2;
    // STMDB r13!, {r0, r1}; MOV r0, #0; MOV r1, #0; LDMIA r13!, {r0, r1}; B .
    let mut gba = machine_with_bios(&[
        0xE3A0_D403,
        0xE28D_DC01,
        0xE3A0_0001,
        0xE3A0_1002,
        0xE92D_0003,
        0xE3A0_0000,
        0xE3A0_1000,
        0xE8BD_0003,
        0xEAFF_FFFE,
    ]);
    for _ in 0..5 {
        gba.emulate().unwrap();
    }
    assert_eq!(gba.read_register(Register::R13), 0x0300_00F8);
    assert_eq!(gba.iwram[0x3E], 1);
    assert_eq!(gba.iwram[0x3F], 2);
    for _ in 0..3 {
        gba.emulate().unwrap();
    }
    assert_eq!(gba.read_register(Register::R0), 1);
    assert_eq!(gba.read_register(Register::R1), 2);
    assert_eq!(gba.read_register(Register::R13), 0x0300_0100);
}

#[test]
fn thumb_program_runs_after_branch_exchange() {
    // ADD r0, pc, #1 (r0 = 9); BX r0; then Thumb at 8: MOVS r2, #7; B .
    let mut gba = machine_with_bios(&[0xE28F_0001, 0xE12F_FF10, 0xE7FE_2207]);
    gba.emulate().unwrap();
    assert_eq!(gba.read_register(Register::R0), 9);
    gba.emulate().unwrap();
    assert!(gba.cpsr.contains(ProgramStatus::FLAG_T));
    assert_eq!(gba.read_register(Register::R15), 8);
    gba.emulate().unwrap();
    assert_eq!(gba.read_register(Register::R2), 7);
    assert_eq!(gba.instruction_size(), 2);
}

#[test]
fn lcd_requests_h_blank_interrupt_at_dot_240() {
    let mut gba = machine_with_bios(&[0xEAFF_FFFE]);
    gba.io_register.ime = 1;
    gba.io_register.int_e = 0b10;
    for _ in 0..239 {
        gba.emulate().unwrap();
    }
    assert_eq!(gba.lcd_cur_h, 239);
    assert_eq!(gba.cpsr.get_mode(), Mode::Supervisor);
    gba.emulate().unwrap();
    assert_eq!(gba.lcd_cur_h, 240);
    assert_eq!(gba.cpsr.get_mode(), Mode::IRQ);
    assert_eq!(gba.io_register.int_f, 0b10);
    assert_eq!(gba.read_register(Register::R15), 0x18);
}

#[test]
fn lcd_without_enabled_interrupts_only_counts() {
    let mut gba = machine_with_bios(&[0xEAFF_FFFE]);
    for _ in 0..308 {
        gba.emulate().unwrap();
    }
    assert_eq!(gba.lcd_cur_h, 0);
    assert_eq!(gba.lcd_cur_v, 1);
    assert_eq!(gba.lcd_accumulator, 0);
    assert_eq!(gba.io_register.int_f, 0);
    assert_eq!(gba.cpsr.get_mode(), Mode::Supervisor);
}

#[test]
fn a_frame_takes_228_lines_of_308_dots() {
    let mut gba = machine_with_bios(&[0xEAFF_FFFE]);
    gba.pram[3] = 0x1234;
    for _ in 0..(308 * 228 - 1) {
        gba.emulate().unwrap();
    }
    assert!(!gba.frame_pending);
    assert!(gba.take_video_events().is_empty());
    gba.emulate().unwrap();
    assert!(gba.frame_pending);
    assert_eq!(gba.lcd_cur_v, 0);
    assert_eq!(gba.lcd_cur_h, 0);
    let events = gba.take_video_events();
    assert_eq!(events.len(), 4);
    match &events[0] {
        VideoEvent::PRamUpdate { start_address, data } => {
            assert_eq!(*start_address, 0);
            assert_eq!(data.len(), 512);
            assert_eq!(data[3], 0x1234);
        },
        _ => panic!("palette first"),
    }
    assert!(matches!(events[1], VideoEvent::VRamUpdate { start_address: 0, .. }));
    assert!(matches!(events[2], VideoEvent::ORamUpdate { start_address: 0, .. }));
    assert!(matches!(events[3], VideoEvent::FrameUpdate));
    assert!(!gba.frame_pending);
    assert!(gba.take_video_events().is_empty());
}

#[test]
fn faults_of_execution() {
    let mut gba = GbaSystem::new();
    gba.cpsr.set_mode(Mode::User);
    gba.write_register(Register::R1, 0x0300_0001);
    let store = ArmInstruction::LoadStore {
        c: Condition::AL,
        pre_indexed: true,
        add_offset: true,
        width: BusWidth::Word,
        w: false,
        load: false,
        rn: Register::R1,
        rd: Register::R0,
        shifter_operand: LSShifterOperand::Immediate { immed: 0 },
    };
    assert_eq!(gba.execute(&store), Err(CpuFault::UnalignedWrite));
    let load_half = ArmInstruction::LoadStore {
        c: Condition::AL,
        pre_indexed: true,
        add_offset: true,
        width: BusWidth::HalfWord,
        w: false,
        load: true,
        rn: Register::R1,
        rd: Register::R0,
        shifter_operand: LSShifterOperand::Immediate { immed: 2 },
    };
    assert_eq!(gba.execute(&load_half), Err(CpuFault::UnalignedHalfWordRead));
    gba.write_register(Register::R2, 0xFFFF_FFFC);
    let ldm = ArmInstruction::LoadStoreMultiple {
        c: Condition::AL,
        exclude_first_word: false,
        upwards: true,
        update_base: false,
        load_usermode: false,
        load: true,
        rn: Register::R2,
        register_list: RegisterList::from_bits(1).unwrap(),
    };
    assert_eq!(gba.execute(&ldm), Err(CpuFault::AddressOverflow));
    let bxj = ArmInstruction::Branch {
        c: Condition::AL,
        op: BranchOperation::BranchExchangeJava { rm: Register::R0 },
    };
    assert_eq!(gba.execute(&bxj), Err(CpuFault::UnimplementedBranch));
    let swi = ArmInstruction::SoftwareInterrupt { c: Condition::AL, swi_number: 0 };
    assert_eq!(gba.execute(&swi), Err(CpuFault::UnimplementedInstruction));
    let suffix = ArmInstruction::BranchLinkSuffix { op: BranchOperation::BranchImmed { offset: 0 } };
    assert_eq!(gba.execute(&suffix), Err(CpuFault::UnexpectedBranchLinkSuffix));
    assert_eq!(CpuFault::UnalignedWrite.message(), "Memory access unaligned!");
}

#[test]
fn conditions_that_fail_skip_the_instruction() {
    let mut gba = GbaSystem::new();
    gba.cpsr.set_mode(Mode::User);
    let mov_eq = ArmInstruction::DataProcessing {
        c: Condition::EQ,
        op: DataProcessingOpcode::MOV,
        s: false,
        rn: Register::R0,
        rd: Register::R0,
        shifter_operand: DPShifterOperand::Immediate { rotate: 0, immed: 9 },
    };
    assert_eq!(gba.execute(&mov_eq), Ok(4));
    assert_eq!(gba.read_register(Register::R0), 0);
    gba.cpsr.set(ProgramStatus::FLAG_Z, true);
    assert_eq!(gba.execute(&mov_eq), Ok(4));
    assert_eq!(gba.read_register(Register::R0), 9);
}
