use ragb::arm::ProgramStatus;
use ragb::decode_arm::{
    DPShifterOperand, LSShifterOperand, LoadStoreStatusOperation, MSRMask, RegisterList, ShiftType,
};
use ragb::gba::{GbaSystem, Register};

fn arm_text(word: u32) -> String {
    let gba = GbaSystem::new();
    gba.decode_instruction(word).unwrap().to_text()
}

fn thumb_text(half: u16) -> String {
    let gba = GbaSystem::new();
    gba.decode_thumb_instruction(half).unwrap().to_text()
}

#[test]
fn data_processing_text() {
    assert_eq!(arm_text(0xE3A0_0005), "MOV r0, 0x5");
    assert_eq!(arm_text(0xE291_2003), "ADDS r2, r1, 0x3");
    assert_eq!(arm_text(0xE353_0007), "CMP r3, 0x7");
    assert_eq!(arm_text(0x03A0_14FF), "MOVEQ r1, 0xff000000");
    assert_eq!(arm_text(0xE1A0_1102), "MOV r1, r2, LSL 2");
}

#[test]
fn load_store_text() {
    assert_eq!(arm_text(0xE591_0004), "LDR r0, [r1 #0x4]");
    assert_eq!(arm_text(0xE511_0004), "LDR r0, [r1 -#0x4]");
    assert_eq!(arm_text(0xE4C1_0001), "STRB r0, [r1] #0x1");
}

#[test]
fn block_transfer_and_branch_text() {
    assert_eq!(arm_text(0xE92D_4003), "STMDB sp!, {r0,r1,lr}");
    assert_eq!(arm_text(0xE8BD_8000), "LDMIA sp!, {pc}");
    assert_eq!(arm_text(0xEAFF_FFFE), "B 0xfffffff8");
    assert_eq!(arm_text(0x1B00_0001), "BLNE 0x4");
    assert_eq!(arm_text(0xE12F_FF1E), "BX lr");
}

#[test]
fn status_transfer_text() {
    assert_eq!(arm_text(0xE10F_0000), "MRS r0, CPSR");
    assert_eq!(arm_text(0xE169_F001), "MSR SPSR_cf, r1");
}

#[test]
fn thumb_long_branch_prefix_text() {
    assert_eq!(thumb_text(0xF7FF), " > 0xfffff000");
    assert_eq!(thumb_text(0xF001), " > 0x1000");
}

#[test]
fn operand_and_list_text() {
    let list = RegisterList::from_bits(0x4003).unwrap();
    assert_eq!(list.to_text(), "r0,r1,lr");
    assert_eq!(RegisterList::from_bits(0).unwrap().to_text(), "");
    assert_eq!(MSRMask { bits: 0b1001 }.to_text(), "cf");
    assert_eq!(
        LSShifterOperand::ImmediateShift { immed: 2, shift_type: ShiftType::LSL, rm: Register::R3 }
            .to_text(),
        "r3, LSL #2"
    );
    assert_eq!(LSShifterOperand::Immediate { immed: 0x10 }.to_text(), "#0x10");
    assert_eq!(
        DPShifterOperand::RegisterShift { rs: Register::R2, shift_type: ShiftType::ROR, rm: Register::R1 }
            .to_text(),
        "r1, ROR r2"
    );
    assert_eq!(DPShifterOperand::Immediate { rotate: 0, immed: 0 }.to_text(), "0x0");
    assert_eq!(
        LoadStoreStatusOperation::StatusRegisterToRegister { rd: Register::R0 }.to_text(),
        ""
    );
}

#[test]
fn status_register_text() {
    assert_eq!(ProgramStatus::from_bits_retain(0x6000_00D3).to_text(), "600000d3 [-ZC-IF-]");
    assert_eq!(ProgramStatus::from_bits_retain(0xF000_0030).to_text(), "f0000030 [NZCV--T]");
    assert_eq!(ProgramStatus::empty().to_text(), "00000000 [-------]");
}
