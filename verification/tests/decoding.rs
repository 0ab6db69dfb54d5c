use ragb::bus::BusWidth;
use ragb::decode_arm::{
    count_ones32, generate_arm_instruction_table, instruction_table_entries, ArmInstruction,
    BranchOperation, Condition, DPShifterOperand, DataProcessingOpcode, LSShifterOperand,
    RegisterList,
};
use ragb::decode_thumb::generate_thumb_instruction_table;
use ragb::gba::{GbaSystem, Register};

#[test]
fn decodes_move_immediate() {
    let gba = GbaSystem::new();
    assert_eq!(
        gba.decode_instruction(0xE3A0_0005),
        Some(ArmInstruction::DataProcessing {
            c: Condition::AL,
            op: DataProcessingOpcode::MOV,
            s: false,
            rn: Register::R0,
            rd: Register::R0,
            shifter_operand: DPShifterOperand::Immediate { rotate: 0, immed: 5 },
        })
    );
}

#[test]
fn decodes_add_with_flags() {
    let gba = GbaSystem::new();
    assert_eq!(
        gba.decode_instruction(0xE291_2003),
        Some(ArmInstruction::DataProcessing {
            c: Condition::AL,
            op: DataProcessingOpcode::ADD,
            s: true,
            rn: Register::R1,
            rd: Register::R2,
            shifter_operand: DPShifterOperand::Immediate { rotate: 0, immed: 3 },
        })
    );
}

#[test]
fn decodes_branch_backwards() {
    let gba = GbaSystem::new();
    assert_eq!(
        gba.decode_instruction(0xEAFF_FFFE),
        Some(ArmInstruction::Branch {
            c: Condition::AL,
            op: BranchOperation::BranchImmed { offset: -8 },
        })
    );
    assert_eq!(
        gba.decode_instruction(0x0B00_0001),
        Some(ArmInstruction::Branch {
            c: Condition::EQ,
            op: BranchOperation::BranchLinkImmed { offset: 4, lr_correct: 0 },
        })
    );
}

#[test]
fn decodes_load_with_immediate_offset() {
    let gba = GbaSystem::new();
    assert_eq!(
        gba.decode_instruction(0xE591_0004),
        Some(ArmInstruction::LoadStore {
            c: Condition::AL,
            pre_indexed: true,
            add_offset: true,
            width: BusWidth::Word,
            w: false,
            load: true,
            rn: Register::R1,
            rd: Register::R0,
            shifter_operand: LSShifterOperand::Immediate { immed: 4 },
        })
    );
}

#[test]
fn decodes_store_multiple() {
    let gba = GbaSystem::new();
    assert_eq!(
        gba.decode_instruction(0xE92D_4003),
        Some(ArmInstruction::LoadStoreMultiple {
            c: Condition::AL,
            exclude_first_word: true,
            upwards: false,
            update_base: true,
            load_usermode: false,
            load: false,
            rn: Register::R13,
            register_list: RegisterList::from_bits(0x4003).unwrap(),
        })
    );
}

#[test]
fn decodes_branch_and_exchange() {
    let gba = GbaSystem::new();
    assert_eq!(
        gba.decode_instruction(0xE12F_FF1E),
        Some(ArmInstruction::Branch {
            c: Condition::AL,
            op: BranchOperation::BranchExchangeThumb { rm: Register::R14 },
        })
    );
}

#[test]
fn coprocessor_instructions_do_not_decode() {
    let gba = GbaSystem::new();
    assert_eq!(gba.decode_instruction(0xEE00_0000), None);
    assert_eq!(gba.decode_instruction(0xEF00_0000), None);
}

#[test]
fn decodes_thumb_move_and_branch() {
    let gba = GbaSystem::new();
    assert_eq!(
        gba.decode_thumb_instruction(0x2005),
        Some(ArmInstruction::DataProcessing {
            c: Condition::AL,
            op: DataProcessingOpcode::MOV,
            s: true,
            rn: Register::R0,
            rd: Register::R0,
            shifter_operand: DPShifterOperand::Immediate { rotate: 0, immed: 5 },
        })
    );
    assert_eq!(
        gba.decode_thumb_instruction(0xE7FE),
        Some(ArmInstruction::Branch {
            c: Condition::AL,
            op: BranchOperation::BranchImmed { offset: -4 },
        })
    );
}

#[test]
fn tables_run_from_most_to_least_specific() {
    let arm = generate_arm_instruction_table();
    assert_eq!(arm.len(), instruction_table_entries().len());
    for w in arm.windows(2) {
        assert!(count_ones32(w[0].0) >= count_ones32(w[1].0));
    }
    assert_eq!(count_ones32(arm[0].0), 20);
    let thumb = generate_thumb_instruction_table();
    for w in thumb.windows(2) {
        assert!(w[0].0.count_ones() >= w[1].0.count_ones());
    }
}

#[test]
fn equal_specificity_keeps_written_order() {
    // The two branch-exchange entries share mask and pattern; the Thumb one
    // is written first and must stay first.
    let arm = generate_arm_instruction_table();
    let first = arm.iter().position(|e| e.1 == 0x0120_0010).unwrap();
    assert_eq!(format!("{:?}", arm[first].2), "BranchExchangeThumb");
    assert_eq!(format!("{:?}", arm[first + 1].2), "BranchExchangeJava");
}

#[test]
fn register_list_counts_its_registers() {
    let list = RegisterList::from_bits(0b1000_0000_0000_0111).unwrap();
    assert_eq!(list.count(), 4);
    assert_eq!(count_ones32(0xFFFF_FFFF), 32);
    assert_eq!(count_ones32(0), 0);
}

#[test]
fn names_of_conditions_and_opcodes() {
    assert_eq!(Condition::CSHS.name(), "CS");
    assert_eq!(DataProcessingOpcode::MVN.name(), "MVN");
    assert_eq!(Register::R13.name(), "sp");
    assert_eq!(Condition::try_from(14), Ok(Condition::AL));
    assert_eq!(DataProcessingOpcode::try_from(13), Ok(DataProcessingOpcode::MOV));
}
