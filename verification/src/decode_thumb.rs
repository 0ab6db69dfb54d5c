use vstd::prelude::*;
use crate::alu::{sign_extend, sign_extend_spec};
use crate::bus::BusWidth;
use crate::decode_arm::{
    ArmInstruction, BranchOperation, Condition, DPShifterOperand, DataProcessingOpcode,
    DecodeTableEntry, LSShifterOperand, RegisterList, ShiftType, condition_of_code, count_ones32,
    popcount, shift_of_code, sort_by_specificity, sort_table,
};
use crate::gba::{
    GbaSystem, Register, lemma_register_index_round_trip, register_index, register_of_index,
};

verus! {

/// The decoding routines that the Thumb instruction table dispatches to.
#[derive(Clone, Copy, PartialEq, Eq, Structural, Debug)]
pub enum ThumbDecoder {
    ShiftByImmediate,
    AddSubtractRegister,
    AddSubtractImmediate,
    AddSubtractCompareMoveImmediate,
    DataProcessingRegister,
    SpecialDataProcessing,
    BranchExchange,
    LoadFromLiteralPool,
    LoadStoreRegisterOffset,
    LoadStoreWordByteImmediateOffset,
    LoadStoreHalfwordImmediateOffset,
    LoadStoreFromStack,
    AddToSpOrPc,
    AdjustStackPointer,
    PushPop,
    LoadStoreMultiple,
    BranchConditional,
    Invalid,
    UnconditionalBranch,
    BlxSuffix,
    BlBlxPrefix,
    BlSuffix,
}

/// An entry of the Thumb decoding table: an instruction `h` belongs to the
/// entry when `h & mask == pattern`.
pub type ThumbInstructionTableEntry = (u16, u16, ThumbDecoder);

/// The `len`-bit field of `h` that starts at bit `lo`.
pub open spec fn bits16(h: u16, lo: u16, len: u16) -> u16 {
    (h >> lo) & (((1u32 << len) - 1u32) as u16)
}

/// Extracts the `len`-bit field of `h` that starts at bit `lo`.
pub fn field16(h: u16, lo: u16, len: u16) -> (r: u16)
    requires
        lo < 16,
        1 <= len <= 16 - lo,
    ensures
        r == bits16(h, lo, len),
        len == 1 ==> r < 2,
        len == 2 ==> r < 4,
        len == 3 ==> r < 8,
        len == 4 ==> r < 16,
        len == 5 ==> r < 32,
        len == 7 ==> r < 128,
        len == 8 ==> r < 256,
        len == 11 ==> r < 2048,
{
    assert(1u32 <= (1u32 << len) && (1u32 << len) - 1 <= 0xFFFF) by (bit_vector)
        requires
            1 <= len <= 16,
    ;
    let mask: u16 = ((1u32 << len) - 1u32) as u16;
    let r = (h >> lo) & mask;
    assert((len == 1 ==> r < 2) && (len == 2 ==> r < 4) && (len == 3 ==> r < 8) && (len == 4 ==> r
        < 16) && (len == 5 ==> r < 32) && (len == 7 ==> r < 128) && (len == 8 ==> r < 256) && (len
        == 11 ==> r < 2048)) by (bit_vector)
        requires
            1 <= len <= 16,
            mask == ((1u32 << len) - 1u32) as u16,
            r == (h >> lo) & mask,
    ;
    r
}

fn register_of(v: u16) -> (r: Register)
    requires
        v < 16,
    ensures
        r == register_of_index(v as int),
{
    match Register::try_from(v as u8) {
        Ok(r) => r,
        Err(_) => Register::R0,
    }
}

/// A data-processing instruction that always executes.
pub open spec fn always(
    op: DataProcessingOpcode,
    s: bool,
    rn: Register,
    rd: Register,
    shifter_operand: DPShifterOperand,
) -> ArmInstruction {
    ArmInstruction::DataProcessing { c: Condition::AL, op, s, rn, rd, shifter_operand }
}

/// A register operand without shift.
pub open spec fn plain(rm: Register) -> DPShifterOperand {
    DPShifterOperand::ImmediateShift { immed: 0, shift_type: ShiftType::LSL, rm }
}

/// A load or store that always executes, pre-indexed upwards without write-back.
pub open spec fn load_store(
    width: BusWidth,
    load: bool,
    rn: Register,
    rd: Register,
    shifter_operand: LSShifterOperand,
) -> ArmInstruction {
    ArmInstruction::LoadStore {
        c: Condition::AL,
        pre_indexed: true,
        add_offset: true,
        width,
        w: false,
        load,
        rn,
        rd,
        shifter_operand,
    }
}

/// The operation and operand of a Thumb register data-processing opcode
/// (shifts become MOV with a register shift, NEG becomes RSB).
pub open spec fn thumb_register_operation(opcode: u16, rm_rs: Register, rd_rn: Register) -> (
    DataProcessingOpcode,
    DPShifterOperand,
) {
    if opcode == 0 {
        (DataProcessingOpcode::AND, plain(rm_rs))
    } else if opcode == 1 {
        (DataProcessingOpcode::EOR, plain(rm_rs))
    } else if opcode == 2 {
        (
            DataProcessingOpcode::MOV,
            DPShifterOperand::RegisterShift { rs: rm_rs, shift_type: ShiftType::LSL, rm: rd_rn },
        )
    } else if opcode == 3 {
        (
            DataProcessingOpcode::MOV,
            DPShifterOperand::RegisterShift { rs: rm_rs, shift_type: ShiftType::LSR, rm: rd_rn },
        )
    } else if opcode == 4 {
        (
            DataProcessingOpcode::MOV,
            DPShifterOperand::RegisterShift { rs: rm_rs, shift_type: ShiftType::ASR, rm: rd_rn },
        )
    } else if opcode == 5 {
        (DataProcessingOpcode::ADC, plain(rm_rs))
    } else if opcode == 6 {
        (DataProcessingOpcode::SBC, plain(rm_rs))
    } else if opcode == 7 {
        (
            DataProcessingOpcode::MOV,
            DPShifterOperand::RegisterShift { rs: rm_rs, shift_type: ShiftType::ROR, rm: rd_rn },
        )
    } else if opcode == 8 {
        (DataProcessingOpcode::TST, plain(rm_rs))
    } else if opcode == 9 {
        (DataProcessingOpcode::RSB, plain(rm_rs))
    } else if opcode == 10 {
        (DataProcessingOpcode::CMP, plain(rm_rs))
    } else if opcode == 11 {
        (DataProcessingOpcode::CMN, plain(rm_rs))
    } else if opcode == 12 {
        (DataProcessingOpcode::ORR, plain(rm_rs))
    } else if opcode == 13 {
        (DataProcessingOpcode::MUL, plain(rm_rs))
    } else if opcode == 14 {
        (DataProcessingOpcode::BIC, plain(rm_rs))
    } else {
        (DataProcessingOpcode::MVN, plain(rm_rs))
    }
}

/// The width and direction of a Thumb register-offset load/store opcode;
/// opcodes 3 and 7 (the sign-extending loads) are not decoded.
pub open spec fn thumb_register_offset_access(opcode: u16) -> Option<(BusWidth, bool)> {
    if opcode == 0 {
        Some((BusWidth::Word, false))
    } else if opcode == 1 {
        Some((BusWidth::HalfWord, false))
    } else if opcode == 2 {
        Some((BusWidth::Byte, false))
    } else if opcode == 4 {
        Some((BusWidth::Word, true))
    } else if opcode == 5 {
        Some((BusWidth::HalfWord, true))
    } else if opcode == 6 {
        Some((BusWidth::Byte, true))
    } else {
        None
    }
}

/// The register list of PUSH/POP: the low eight registers of the list, plus
/// LR for a PUSH or PC for a POP when R is set.
pub open spec fn push_pop_list(h: u16) -> RegisterList {
    let list = bits16(h, 0, 8);
    if bits16(h, 8, 1) == 1 {
        if bits16(h, 11, 1) == 1 {
            RegisterList { bits: list | 0x8000 }
        } else {
            RegisterList { bits: list | 0x4000 }
        }
    } else {
        RegisterList { bits: list }
    }
}

/// What each Thumb decoding routine makes of an instruction; `None` where
/// its fixed bits do not match.
pub open spec fn thumb_decode(d: ThumbDecoder, h: u16) -> Option<ArmInstruction> {
    let r0 = register_of_index(bits16(h, 0, 3) as int);
    let r3 = register_of_index(bits16(h, 3, 3) as int);
    let r6 = register_of_index(bits16(h, 6, 3) as int);
    let r8 = register_of_index(bits16(h, 8, 3) as int);
    match d {
        ThumbDecoder::ShiftByImmediate => if bits16(h, 13, 3) != 0 {
            None
        } else {
            Some(
                always(
                    DataProcessingOpcode::MOV,
                    true,
                    r0,
                    r0,
                    DPShifterOperand::ImmediateShift {
                        immed: bits16(h, 6, 5) as u8,
                        shift_type: shift_of_code(bits16(h, 11, 2) as int),
                        rm: r3,
                    },
                ),
            )
        },
        ThumbDecoder::AddSubtractRegister => if bits16(h, 10, 6) != 0b000110 {
            None
        } else {
            Some(
                always(
                    if bits16(h, 9, 1) == 1 {
                        DataProcessingOpcode::SUB
                    } else {
                        DataProcessingOpcode::ADD
                    },
                    true,
                    r3,
                    r0,
                    plain(r6),
                ),
            )
        },
        ThumbDecoder::AddSubtractImmediate => if bits16(h, 10, 6) != 0b000111 {
            None
        } else {
            Some(
                always(
                    if bits16(h, 9, 1) == 1 {
                        DataProcessingOpcode::SUB
                    } else {
                        DataProcessingOpcode::ADD
                    },
                    true,
                    r3,
                    r0,
                    DPShifterOperand::Immediate { immed: bits16(h, 6, 3), rotate: 0 },
                ),
            )
        },
        ThumbDecoder::AddSubtractCompareMoveImmediate => if bits16(h, 13, 3) != 0b001 {
            None
        } else {
            let opcode = bits16(h, 11, 2);
            Some(
                always(
                    if opcode == 0 {
                        DataProcessingOpcode::MOV
                    } else if opcode == 1 {
                        DataProcessingOpcode::CMP
                    } else if opcode == 2 {
                        DataProcessingOpcode::ADD
                    } else {
                        DataProcessingOpcode::SUB
                    },
                    true,
                    r8,
                    r8,
                    DPShifterOperand::Immediate { rotate: 0, immed: bits16(h, 0, 8) },
                ),
            )
        },
        ThumbDecoder::DataProcessingRegister => if bits16(h, 10, 6) != 0b010000 {
            None
        } else {
            let (op, so) = thumb_register_operation(bits16(h, 6, 4), r3, r0);
            Some(always(op, true, r0, r0, so))
        },
        ThumbDecoder::SpecialDataProcessing => if bits16(h, 10, 6) != 0b010001 {
            None
        } else {
            let opcode = bits16(h, 8, 2);
            let rd = register_of_index(bits16(h, 7, 1) * 8 + bits16(h, 0, 3));
            let rm = register_of_index(bits16(h, 6, 1) * 8 + bits16(h, 3, 3));
            Some(
                always(
                    if opcode == 0 {
                        DataProcessingOpcode::ADD
                    } else if opcode == 1 {
                        DataProcessingOpcode::CMP
                    } else {
                        DataProcessingOpcode::MOV
                    },
                    false,
                    rd,
                    rd,
                    plain(rm),
                ),
            )
        },
        ThumbDecoder::BranchExchange => if bits16(h, 8, 8) != 0b01000111 {
            None
        } else {
            let rm = register_of_index(bits16(h, 3, 4) as int);
            Some(
                ArmInstruction::Branch {
                    c: Condition::AL,
                    op: if bits16(h, 7, 1) == 1 {
                        BranchOperation::BranchExchangeLinkThumb { rm }
                    } else {
                        BranchOperation::BranchExchangeThumb { rm }
                    },
                },
            )
        },
        ThumbDecoder::LoadFromLiteralPool => if bits16(h, 11, 5) != 0b01001 {
            None
        } else {
            Some(
                load_store(
                    BusWidth::Word,
                    true,
                    Register::R15,
                    r8,
                    LSShifterOperand::Immediate { immed: (bits16(h, 0, 8) << 2u16) as u16 },
                ),
            )
        },
        ThumbDecoder::LoadStoreRegisterOffset => if bits16(h, 12, 4) != 0b0101 {
            None
        } else {
            match thumb_register_offset_access(bits16(h, 9, 3)) {
                Some((width, load)) => Some(
                    load_store(
                        width,
                        load,
                        r3,
                        r0,
                        LSShifterOperand::ImmediateShift {
                            immed: 0,
                            shift_type: ShiftType::LSL,
                            rm: r6,
                        },
                    ),
                ),
                None => None,
            }
        },
        ThumbDecoder::LoadStoreWordByteImmediateOffset => if bits16(h, 13, 3) != 0b011 {
            None
        } else {
            let b = bits16(h, 12, 1) == 1;
            let offset = bits16(h, 6, 5);
            Some(
                load_store(
                    if b {
                        BusWidth::Byte
                    } else {
                        BusWidth::Word
                    },
                    bits16(h, 11, 1) == 1,
                    r3,
                    r0,
                    LSShifterOperand::Immediate {
                        immed: if b {
                            offset
                        } else {
                            (offset * 4) as u16
                        },
                    },
                ),
            )
        },
        ThumbDecoder::LoadStoreHalfwordImmediateOffset => if bits16(h, 12, 4) != 0b1000 {
            None
        } else {
            Some(
                load_store(
                    BusWidth::HalfWord,
                    bits16(h, 11, 1) == 1,
                    r3,
                    r0,
                    LSShifterOperand::Immediate { immed: (bits16(h, 6, 5) * 2) as u16 },
                ),
            )
        },
        ThumbDecoder::LoadStoreFromStack => if bits16(h, 12, 4) != 0b1001 {
            None
        } else {
            Some(
                load_store(
                    BusWidth::Word,
                    bits16(h, 11, 1) == 1,
                    Register::R13,
                    r8,
                    LSShifterOperand::Immediate { immed: (bits16(h, 0, 8) * 4) as u16 },
                ),
            )
        },
        ThumbDecoder::AddToSpOrPc => if bits16(h, 12, 4) != 0b1010 {
            None
        } else {
            Some(
                always(
                    DataProcessingOpcode::ADD,
                    false,
                    if bits16(h, 11, 1) == 1 {
                        Register::R13
                    } else {
                        Register::R15
                    },
                    r8,
                    DPShifterOperand::Immediate { rotate: 0, immed: (bits16(h, 0, 8) * 4) as u16 },
                ),
            )
        },
        ThumbDecoder::AdjustStackPointer => if bits16(h, 8, 8) != 0b10110000 {
            None
        } else {
            Some(
                always(
                    if bits16(h, 7, 1) == 1 {
                        DataProcessingOpcode::SUB
                    } else {
                        DataProcessingOpcode::ADD
                    },
                    false,
                    Register::R13,
                    Register::R13,
                    DPShifterOperand::Immediate { rotate: 0, immed: (bits16(h, 0, 7) << 2u16) as u16 },
                ),
            )
        },
        ThumbDecoder::PushPop => if bits16(h, 12, 4) != 0b1011 || bits16(h, 9, 2) != 0b10 {
            None
        } else {
            let l = bits16(h, 11, 1) == 1;
            Some(
                ArmInstruction::LoadStoreMultiple {
                    c: Condition::AL,
                    exclude_first_word: !l,
                    upwards: l,
                    update_base: true,
                    load_usermode: false,
                    load: l,
                    rn: Register::R13,
                    register_list: push_pop_list(h),
                },
            )
        },
        ThumbDecoder::LoadStoreMultiple => if bits16(h, 12, 4) != 0b1100 {
            None
        } else {
            Some(
                ArmInstruction::LoadStoreMultiple {
                    c: Condition::AL,
                    exclude_first_word: false,
                    upwards: true,
                    update_base: true,
                    load_usermode: false,
                    load: bits16(h, 11, 1) == 1,
                    rn: r8,
                    register_list: RegisterList { bits: bits16(h, 0, 8) },
                },
            )
        },
        ThumbDecoder::BranchConditional => if bits16(h, 12, 4) != 0b1101 {
            None
        } else {
            Some(
                ArmInstruction::Branch {
                    c: condition_of_code(bits16(h, 8, 4) as int),
                    op: BranchOperation::BranchImmed {
                        offset: sign_extend_spec(((bits16(h, 0, 8) as u32) << 1u32) as u32, 9),
                    },
                },
            )
        },
        ThumbDecoder::Invalid => None,
        ThumbDecoder::UnconditionalBranch => if bits16(h, 11, 5) != 0b11100 {
            None
        } else {
            Some(
                ArmInstruction::Branch {
                    c: Condition::AL,
                    op: BranchOperation::BranchImmed {
                        offset: sign_extend_spec(((bits16(h, 0, 11) as u32) << 1u32) as u32, 12),
                    },
                },
            )
        },
        ThumbDecoder::BlxSuffix => if bits16(h, 11, 5) != 0b11101 {
            None
        } else {
            Some(
                ArmInstruction::BranchLinkSuffix {
                    op: BranchOperation::BranchExchangeLinkThumbImmed {
                        offset: bits16(h, 0, 11) as i32,
                    },
                },
            )
        },
        ThumbDecoder::BlBlxPrefix => if bits16(h, 11, 5) != 0b11110 {
            None
        } else {
            Some(ArmInstruction::BranchLinkPrefix { offset: bits16(h, 0, 11) })
        },
        ThumbDecoder::BlSuffix => if bits16(h, 11, 5) != 0b11111 {
            None
        } else {
            Some(
                ArmInstruction::BranchLinkSuffix {
                    op: BranchOperation::BranchLinkImmed {
                        offset: bits16(h, 0, 11) as i32,
                        lr_correct: 0,
                    },
                },
            )
        },
    }
}

/// Decoding through a table: the routine of the first entry that the
/// instruction matches decides; no matching entry decodes to `None`.
pub open spec fn thumb_decode_with_table(table: Seq<ThumbInstructionTableEntry>, h: u16) -> Option<
    ArmInstruction,
>
    decreases table.len(),
{
    if table.len() == 0 {
        None
    } else if h & table[0].0 == table[0].1 {
        thumb_decode(table[0].2, h)
    } else {
        thumb_decode_with_table(table.drop_first(), h)
    }
}

fn decode_shift_by_immediate(inst: u16) -> (r: Option<ArmInstruction>)
    ensures
        r == thumb_decode(ThumbDecoder::ShiftByImmediate, inst),
{
    if field16(inst, 13, 3) != 0b000 {
        return None;
    }
    let opcode = field16(inst, 11, 2);
    let immed = field16(inst, 6, 5);
    let rm = register_of(field16(inst, 3, 3));
    let rd = register_of(field16(inst, 0, 3));
    Some(
        ArmInstruction::DataProcessing {
            c: Condition::AL,
            op: DataProcessingOpcode::MOV,
            s: true,
            rn: rd,
            rd: rd,
            shifter_operand: DPShifterOperand::ImmediateShift {
                immed: immed as u8,
                shift_type: match opcode {
                    0b00 => ShiftType::LSL,
                    0b01 => ShiftType::LSR,
                    0b10 => ShiftType::ASR,
                    _ => ShiftType::ROR,
                },
                rm,
            },
        },
    )
}

fn decode_add_subtract_register(inst: u16) -> (r: Option<ArmInstruction>)
    ensures
        r == thumb_decode(ThumbDecoder::AddSubtractRegister, inst),
{
    if field16(inst, 10, 6) != 0b000110 {
        return None;
    }
    let sub = field16(inst, 9, 1) == 1;
    let rm = register_of(field16(inst, 6, 3));
    let rn = register_of(field16(inst, 3, 3));
    let rd = register_of(field16(inst, 0, 3));
    let shifter_operand = DPShifterOperand::ImmediateShift { immed: 0, shift_type: ShiftType::LSL, rm };
    if sub {
        Some(
            ArmInstruction::DataProcessing {
                c: Condition::AL,
                op: DataProcessingOpcode::SUB,
                s: true,
                rn,
                rd,
                shifter_operand,
            },
        )
    } else {
        Some(
            ArmInstruction::DataProcessing {
                c: Condition::AL,
                op: DataProcessingOpcode::ADD,
                s: true,
                rn,
                rd,
                shifter_operand,
            },
        )
    }
}

fn decode_add_subtract_immediate(inst: u16) -> (r: Option<ArmInstruction>)
    ensures
        r == thumb_decode(ThumbDecoder::AddSubtractImmediate, inst),
{
    if field16(inst, 10, 6) != 0b000111 {
        return None;
    }
    let sub = field16(inst, 9, 1) == 1;
    let immed = field16(inst, 6, 3);
    let rn = register_of(field16(inst, 3, 3));
    let rd = register_of(field16(inst, 0, 3));
    Some(
        ArmInstruction::DataProcessing {
            c: Condition::AL,
            op: if sub {
                DataProcessingOpcode::SUB
            } else {
                DataProcessingOpcode::ADD
            },
            s: true,
            rn,
            rd,
            shifter_operand: DPShifterOperand::Immediate { immed, rotate: 0 },
        },
    )
}

fn decode_add_subtract_compare_move_immediate(inst: u16) -> (r: Option<ArmInstruction>)
    ensures
        r == thumb_decode(ThumbDecoder::AddSubtractCompareMoveImmediate, inst),
{
    if field16(inst, 13, 3) != 0b001 {
        return None;
    }
    let opcode = field16(inst, 11, 2);
    let reg = register_of(field16(inst, 8, 3));
    let immed = field16(inst, 0, 8);
    let op = match opcode {
        0b00 => DataProcessingOpcode::MOV,
        0b01 => DataProcessingOpcode::CMP,
        0b10 => DataProcessingOpcode::ADD,
        _ => DataProcessingOpcode::SUB,
    };
    Some(
        ArmInstruction::DataProcessing {
            c: Condition::AL,
            op,
            s: true,
            rn: reg,
            rd: reg,
            shifter_operand: DPShifterOperand::Immediate { rotate: 0, immed },
        },
    )
}

fn decode_data_processing_register(inst: u16) -> (r: Option<ArmInstruction>)
    ensures
        r == thumb_decode(ThumbDecoder::DataProcessingRegister, inst),
{
    if field16(inst, 10, 6) != 0b010000 {
        return None;
    }
    let opcode = field16(inst, 6, 4);
    let rm_rs = register_of(field16(inst, 3, 3));
    let rd_rn = register_of(field16(inst, 0, 3));
    let plain = DPShifterOperand::ImmediateShift { immed: 0, shift_type: ShiftType::LSL, rm: rm_rs };
    let (op, shifter_operand) = match opcode {
        0b0000 => (DataProcessingOpcode::AND, plain),
        0b0001 => (DataProcessingOpcode::EOR, plain),
        0b0010 => (
            DataProcessingOpcode::MOV,
            DPShifterOperand::RegisterShift { rs: rm_rs, shift_type: ShiftType::LSL, rm: rd_rn },
        ),
        0b0011 => (
            DataProcessingOpcode::MOV,
            DPShifterOperand::RegisterShift { rs: rm_rs, shift_type: ShiftType::LSR, rm: rd_rn },
        ),
        0b0100 => (
            DataProcessingOpcode::MOV,
            DPShifterOperand::RegisterShift { rs: rm_rs, shift_type: ShiftType::ASR, rm: rd_rn },
        ),
        0b0101 => (DataProcessingOpcode::ADC, plain),
        0b0110 => (DataProcessingOpcode::SBC, plain),
        0b0111 => (
            DataProcessingOpcode::MOV,
            DPShifterOperand::RegisterShift { rs: rm_rs, shift_type: ShiftType::ROR, rm: rd_rn },
        ),
        0b1000 => (DataProcessingOpcode::TST, plain),
        0b1001 => (DataProcessingOpcode::RSB, plain),
        0b1010 => (DataProcessingOpcode::CMP, plain),
        0b1011 => (DataProcessingOpcode::CMN, plain),
        0b1100 => (DataProcessingOpcode::ORR, plain),
        0b1101 => (DataProcessingOpcode::MUL, plain),
        0b1110 => (DataProcessingOpcode::BIC, plain),
        _ => (DataProcessingOpcode::MVN, plain),
    };
    Some(
        ArmInstruction::DataProcessing {
            c: Condition::AL,
            op,
            s: true,
            rn: rd_rn,
            rd: rd_rn,
            shifter_operand,
        },
    )
}

fn decode_special_data_processing(inst: u16) -> (r: Option<ArmInstruction>)
    ensures
        r == thumb_decode(ThumbDecoder::SpecialDataProcessing, inst),
{
    if field16(inst, 10, 6) != 0b010001 {
        return None;
    }
    let opcode = field16(inst, 8, 2);
    let h1 = field16(inst, 7, 1);
    let h2 = field16(inst, 6, 1);
    let rm = field16(inst, 3, 3);
    let rd_rn = field16(inst, 0, 3);
    let rd = register_of(h1 * 8 + rd_rn);
    Some(
        ArmInstruction::DataProcessing {
            c: Condition::AL,
            op: match opcode {
                0b00 => DataProcessingOpcode::ADD,
                0b01 => DataProcessingOpcode::CMP,
                0b10 => DataProcessingOpcode::MOV,
                _ => DataProcessingOpcode::MOV,
            },
            s: false,
            rn: rd,
            rd: rd,
            shifter_operand: DPShifterOperand::ImmediateShift {
                immed: 0,
                shift_type: ShiftType::LSL,
                rm: register_of(h2 * 8 + rm),
            },
        },
    )
}

fn decode_branch_exchange(inst: u16) -> (r: Option<ArmInstruction>)
    ensures
        r == thumb_decode(ThumbDecoder::BranchExchange, inst),
{
    if field16(inst, 8, 8) != 0b01000111 {
        return None;
    }
    let l = field16(inst, 7, 1) == 1;
    let rm = register_of(field16(inst, 3, 4));
    if l {
        Some(
            ArmInstruction::Branch {
                c: Condition::AL,
                op: BranchOperation::BranchExchangeLinkThumb { rm },
            },
        )
    } else {
        Some(ArmInstruction::Branch { c: Condition::AL, op: BranchOperation::BranchExchangeThumb { rm } })
    }
}

fn decode_load_from_literal_pool(inst: u16) -> (r: Option<ArmInstruction>)
    ensures
        r == thumb_decode(ThumbDecoder::LoadFromLiteralPool, inst),
{
    if field16(inst, 11, 5) != 0b01001 {
        return None;
    }
    let reg = register_of(field16(inst, 8, 3));
    let immed = field16(inst, 0, 8);
    Some(
        ArmInstruction::LoadStore {
            c: Condition::AL,
            pre_indexed: true,
            add_offset: true,
            width: BusWidth::Word,
            w: false,
            load: true,
            rn: Register::R15,
            rd: reg,
            shifter_operand: LSShifterOperand::Immediate { immed: immed << 2u16 },
        },
    )
}

fn decode_load_store_register_offset(inst: u16) -> (r: Option<ArmInstruction>)
    ensures
        r == thumb_decode(ThumbDecoder::LoadStoreRegisterOffset, inst),
{
    if field16(inst, 12, 4) != 0b0101 {
        return None;
    }
    let opcode = field16(inst, 9, 3);
    let rm = register_of(field16(inst, 6, 3));
    let rn = register_of(field16(inst, 3, 3));
    let rd = register_of(field16(inst, 0, 3));
    let (width, load) = match opcode {
        0b000 => (BusWidth::Word, false),
        0b001 => (BusWidth::HalfWord, false),
        0b010 => (BusWidth::Byte, false),
        0b100 => (BusWidth::Word, true),
        0b101 => (BusWidth::HalfWord, true),
        0b110 => (BusWidth::Byte, true),
        _ => {
            return None;
        },
    };
    Some(
        ArmInstruction::LoadStore {
            c: Condition::AL,
            pre_indexed: true,
            add_offset: true,
            width,
            w: false,
            load,
            rn,
            rd,
            shifter_operand: LSShifterOperand::ImmediateShift {
                immed: 0,
                shift_type: ShiftType::LSL,
                rm,
            },
        },
    )
}

fn decode_load_store_word_byte_immediate_offset(inst: u16) -> (r: Option<ArmInstruction>)
    ensures
        r == thumb_decode(ThumbDecoder::LoadStoreWordByteImmediateOffset, inst),
{
    if field16(inst, 13, 3) != 0b011 {
        return None;
    }
    let b = field16(inst, 12, 1) == 1;
    let l = field16(inst, 11, 1) == 1;
    let offset = field16(inst, 6, 5);
    let rn = register_of(field16(inst, 3, 3));
    let rd = register_of(field16(inst, 0, 3));
    Some(
        ArmInstruction::LoadStore {
            c: Condition::AL,
            pre_indexed: true,
            add_offset: true,
            width: if b {
                BusWidth::Byte
            } else {
                BusWidth::Word
            },
            w: false,
            load: l,
            rn,
            rd,
            shifter_operand: LSShifterOperand::Immediate {
                immed: if b {
                    offset
                } else {
                    offset * 4
                },
            },
        },
    )
}

fn decode_load_store_halfword_immediate_offset(inst: u16) -> (r: Option<ArmInstruction>)
    ensures
        r == thumb_decode(ThumbDecoder::LoadStoreHalfwordImmediateOffset, inst),
{
    if field16(inst, 12, 4) != 0b1000 {
        return None;
    }
    let l = field16(inst, 11, 1) == 1;
    let offset = field16(inst, 6, 5);
    let rn = register_of(field16(inst, 3, 3));
    let rd = register_of(field16(inst, 0, 3));
    Some(
        ArmInstruction::LoadStore {
            c: Condition::AL,
            pre_indexed: true,
            add_offset: true,
            width: BusWidth::HalfWord,
            w: false,
            load: l,
            rn,
            rd,
            shifter_operand: LSShifterOperand::Immediate { immed: offset * 2 },
        },
    )
}

fn decode_load_store_from_stack(inst: u16) -> (r: Option<ArmInstruction>)
    ensures
        r == thumb_decode(ThumbDecoder::LoadStoreFromStack, inst),
{
    if field16(inst, 12, 4) != 0b1001 {
        return None;
    }
    let l = field16(inst, 11, 1) == 1;
    let rd = register_of(field16(inst, 8, 3));
    let offset = field16(inst, 0, 8);
    Some(
        ArmInstruction::LoadStore {
            c: Condition::AL,
            pre_indexed: true,
            add_offset: true,
            width: BusWidth::Word,
            w: false,
            load: l,
            rn: Register::R13,
            rd,
            shifter_operand: LSShifterOperand::Immediate { immed: offset * 4 },
        },
    )
}

fn decode_add_to_sp_or_pc(inst: u16) -> (r: Option<ArmInstruction>)
    ensures
        r == thumb_decode(ThumbDecoder::AddToSpOrPc, inst),
{
    if field16(inst, 12, 4) != 0b1010 {
        return None;
    }
    let sp = field16(inst, 11, 1) == 1;
    let rd = register_of(field16(inst, 8, 3));
    let immediate = field16(inst, 0, 8);
    Some(
        ArmInstruction::DataProcessing {
            c: Condition::AL,
            op: DataProcessingOpcode::ADD,
            s: false,
            rn: if sp {
                Register::R13
            } else {
                Register::R15
            },
            rd,
            shifter_operand: DPShifterOperand::Immediate { rotate: 0, immed: immediate * 4 },
        },
    )
}

fn decode_adjust_stack_pointer(inst: u16) -> (r: Option<ArmInstruction>)
    ensures
        r == thumb_decode(ThumbDecoder::AdjustStackPointer, inst),
{
    if field16(inst, 8, 8) != 0b10110000 {
        return None;
    }
    let opc = field16(inst, 7, 1) == 1;
    let immediate = field16(inst, 0, 7);
    Some(
        ArmInstruction::DataProcessing {
            c: Condition::AL,
            op: if opc {
                DataProcessingOpcode::SUB
            } else {
                DataProcessingOpcode::ADD
            },
            s: false,
            rn: Register::R13,
            rd: Register::R13,
            shifter_operand: DPShifterOperand::Immediate { rotate: 0, immed: immediate << 2u16 },
        },
    )
}

fn decode_push_pop(inst: u16) -> (r: Option<ArmInstruction>)
    ensures
        r == thumb_decode(ThumbDecoder::PushPop, inst),
{
    if field16(inst, 12, 4) != 0b1011 || field16(inst, 9, 2) != 0b10 {
        return None;
    }
    let l = field16(inst, 11, 1) == 1;
    let r = field16(inst, 8, 1) == 1;
    let mut register_list = match RegisterList::from_bits(field16(inst, 0, 8)) {
        Some(list) => list,
        None => RegisterList { bits: 0 },
    };
    if r {
        if l {
            register_list.set(RegisterList::FLAG_R15, true);
        } else {
            register_list.set(RegisterList::FLAG_R14, true);
        }
    }
    Some(
        ArmInstruction::LoadStoreMultiple {
            c: Condition::AL,
            exclude_first_word: !l,
            upwards: l,
            update_base: true,
            load_usermode: false,
            load: l,
            rn: Register::R13,
            register_list,
        },
    )
}

fn decode_load_store_multiple(inst: u16) -> (r: Option<ArmInstruction>)
    ensures
        r == thumb_decode(ThumbDecoder::LoadStoreMultiple, inst),
{
    if field16(inst, 12, 4) != 0b1100 {
        return None;
    }
    let l = field16(inst, 11, 1) == 1;
    let rn = register_of(field16(inst, 8, 3));
    let register_list = match RegisterList::from_bits(field16(inst, 0, 8)) {
        Some(list) => list,
        None => RegisterList { bits: 0 },
    };
    Some(
        ArmInstruction::LoadStoreMultiple {
            c: Condition::AL,
            exclude_first_word: false,
            load_usermode: false,
            update_base: true,
            upwards: true,
            load: l,
            rn,
            register_list,
        },
    )
}

fn decode_branch_conditional(inst: u16) -> (r: Option<ArmInstruction>)
    ensures
        r == thumb_decode(ThumbDecoder::BranchConditional, inst),
{
    if field16(inst, 12, 4) != 0b1101 {
        return None;
    }
    let cond = field16(inst, 8, 4);
    let offset = field16(inst, 0, 8);
    let c = match Condition::try_from(cond as u8) {
        Ok(c) => c,
        Err(_) => Condition::AL,
    };
    Some(
        ArmInstruction::Branch {
            c,
            op: BranchOperation::BranchImmed { offset: sign_extend((offset as u32) << 1u32, 9) },
        },
    )
}

fn decode_unconditional_branch(inst: u16) -> (r: Option<ArmInstruction>)
    ensures
        r == thumb_decode(ThumbDecoder::UnconditionalBranch, inst),
{
    if field16(inst, 11, 5) != 0b11100 {
        return None;
    }
    let offset = field16(inst, 0, 11);
    Some(
        ArmInstruction::Branch {
            c: Condition::AL,
            op: BranchOperation::BranchImmed { offset: sign_extend((offset as u32) << 1u32, 12) },
        },
    )
}

fn decode_invalid(inst: u16) -> (r: Option<ArmInstruction>)
    ensures
        r is None,
{
    None
}

fn decode_bl_blx_prefix(inst: u16) -> (r: Option<ArmInstruction>)
    ensures
        r == thumb_decode(ThumbDecoder::BlBlxPrefix, inst),
{
    if field16(inst, 11, 5) != 0b11110 {
        return None;
    }
    Some(ArmInstruction::BranchLinkPrefix { offset: field16(inst, 0, 11) })
}

fn decode_blx_suffix(inst: u16) -> (r: Option<ArmInstruction>)
    ensures
        r == thumb_decode(ThumbDecoder::BlxSuffix, inst),
{
    if field16(inst, 11, 5) != 0b11101 {
        return None;
    }
    let offset_lo = field16(inst, 0, 11);
    Some(
        ArmInstruction::BranchLinkSuffix {
            op: BranchOperation::BranchExchangeLinkThumbImmed { offset: offset_lo as i32 },
        },
    )
}

fn decode_bl_suffix(inst: u16) -> (r: Option<ArmInstruction>)
    ensures
        r == thumb_decode(ThumbDecoder::BlSuffix, inst),
{
    if field16(inst, 11, 5) != 0b11111 {
        return None;
    }
    let offset_lo = field16(inst, 0, 11);
    Some(
        ArmInstruction::BranchLinkSuffix {
            op: BranchOperation::BranchLinkImmed { offset: offset_lo as i32, lr_correct: 0 },
        },
    )
}

/// Runs one Thumb decoding routine on an instruction.
pub fn run_thumb_decoder(d: ThumbDecoder, inst: u16) -> (r: Option<ArmInstruction>)
    ensures
        r == thumb_decode(d, inst),
{
    match d {
        ThumbDecoder::ShiftByImmediate => decode_shift_by_immediate(inst),
        ThumbDecoder::AddSubtractRegister => decode_add_subtract_register(inst),
        ThumbDecoder::AddSubtractImmediate => decode_add_subtract_immediate(inst),
        ThumbDecoder::AddSubtractCompareMoveImmediate => decode_add_subtract_compare_move_immediate(inst),
        ThumbDecoder::DataProcessingRegister => decode_data_processing_register(inst),
        ThumbDecoder::SpecialDataProcessing => decode_special_data_processing(inst),
        ThumbDecoder::BranchExchange => decode_branch_exchange(inst),
        ThumbDecoder::LoadFromLiteralPool => decode_load_from_literal_pool(inst),
        ThumbDecoder::LoadStoreRegisterOffset => decode_load_store_register_offset(inst),
        ThumbDecoder::LoadStoreWordByteImmediateOffset => decode_load_store_word_byte_immediate_offset(inst),
        ThumbDecoder::LoadStoreHalfwordImmediateOffset => decode_load_store_halfword_immediate_offset(inst),
        ThumbDecoder::LoadStoreFromStack => decode_load_store_from_stack(inst),
        ThumbDecoder::AddToSpOrPc => decode_add_to_sp_or_pc(inst),
        ThumbDecoder::AdjustStackPointer => decode_adjust_stack_pointer(inst),
        ThumbDecoder::PushPop => decode_push_pop(inst),
        ThumbDecoder::LoadStoreMultiple => decode_load_store_multiple(inst),
        ThumbDecoder::BranchConditional => decode_branch_conditional(inst),
        ThumbDecoder::Invalid => decode_invalid(inst),
        ThumbDecoder::UnconditionalBranch => decode_unconditional_branch(inst),
        ThumbDecoder::BlxSuffix => decode_blx_suffix(inst),
        ThumbDecoder::BlBlxPrefix => decode_bl_blx_prefix(inst),
        ThumbDecoder::BlSuffix => decode_bl_suffix(inst),
    }
}

impl DecodeTableEntry for (u16, u16, ThumbDecoder) {
    open spec fn specificity_spec(&self) -> nat {
        popcount(self.0 as nat)
    }

    fn specificity(&self) -> (r: u32) {
        count_ones32(self.0 as u32)
    }
}

/// The Thumb decoding table, in the order in which it is written.
pub open spec fn thumb_table_entries() -> Seq<ThumbInstructionTableEntry> {
    seq![
        (0xe000u16, 0x0000u16, ThumbDecoder::ShiftByImmediate),
        (0xfc00u16, 0x1800u16, ThumbDecoder::AddSubtractRegister),
        (0xfc00u16, 0x1c00u16, ThumbDecoder::AddSubtractImmediate),
        (0xe000u16, 0x2000u16, ThumbDecoder::AddSubtractCompareMoveImmediate),
        (0xfc00u16, 0x4000u16, ThumbDecoder::DataProcessingRegister),
        (0xfc00u16, 0x4400u16, ThumbDecoder::SpecialDataProcessing),
        (0xff00u16, 0x4700u16, ThumbDecoder::BranchExchange),
        (0xf800u16, 0x4800u16, ThumbDecoder::LoadFromLiteralPool),
        (0xf000u16, 0x5000u16, ThumbDecoder::LoadStoreRegisterOffset),
        (0xe000u16, 0x6000u16, ThumbDecoder::LoadStoreWordByteImmediateOffset),
        (0xf000u16, 0x8000u16, ThumbDecoder::LoadStoreHalfwordImmediateOffset),
        (0xf000u16, 0x9000u16, ThumbDecoder::LoadStoreFromStack),
        (0xf000u16, 0xa000u16, ThumbDecoder::AddToSpOrPc),
        (0xff00u16, 0xb000u16, ThumbDecoder::AdjustStackPointer),
        (0xf600u16, 0xb400u16, ThumbDecoder::PushPop),
        (0xf000u16, 0xc000u16, ThumbDecoder::LoadStoreMultiple),
        (0xf000u16, 0xd000u16, ThumbDecoder::BranchConditional),
        (0xff00u16, 0xdf00u16, ThumbDecoder::Invalid),
        (0xf800u16, 0xe000u16, ThumbDecoder::UnconditionalBranch),
        (0xf801u16, 0xe800u16, ThumbDecoder::BlxSuffix),
        (0xf800u16, 0xf000u16, ThumbDecoder::BlBlxPrefix),
        (0xf800u16, 0xf800u16, ThumbDecoder::BlSuffix)
    ]
}

/// The Thumb decoding table, in the order in which it is written.
pub fn thumb_instruction_table_entries() -> (t: Vec<ThumbInstructionTableEntry>)
    ensures
        t@ == thumb_table_entries(),
{
    let t = vec![
        (0xe000u16, 0x0000u16, ThumbDecoder::ShiftByImmediate),
        (0xfc00u16, 0x1800u16, ThumbDecoder::AddSubtractRegister),
        (0xfc00u16, 0x1c00u16, ThumbDecoder::AddSubtractImmediate),
        (0xe000u16, 0x2000u16, ThumbDecoder::AddSubtractCompareMoveImmediate),
        (0xfc00u16, 0x4000u16, ThumbDecoder::DataProcessingRegister),
        (0xfc00u16, 0x4400u16, ThumbDecoder::SpecialDataProcessing),
        (0xff00u16, 0x4700u16, ThumbDecoder::BranchExchange),
        (0xf800u16, 0x4800u16, ThumbDecoder::LoadFromLiteralPool),
        (0xf000u16, 0x5000u16, ThumbDecoder::LoadStoreRegisterOffset),
        (0xe000u16, 0x6000u16, ThumbDecoder::LoadStoreWordByteImmediateOffset),
        (0xf000u16, 0x8000u16, ThumbDecoder::LoadStoreHalfwordImmediateOffset),
        (0xf000u16, 0x9000u16, ThumbDecoder::LoadStoreFromStack),
        (0xf000u16, 0xa000u16, ThumbDecoder::AddToSpOrPc),
        (0xff00u16, 0xb000u16, ThumbDecoder::AdjustStackPointer),
        (0xf600u16, 0xb400u16, ThumbDecoder::PushPop),
        (0xf000u16, 0xc000u16, ThumbDecoder::LoadStoreMultiple),
        (0xf000u16, 0xd000u16, ThumbDecoder::BranchConditional),
        (0xff00u16, 0xdf00u16, ThumbDecoder::Invalid),
        (0xf800u16, 0xe000u16, ThumbDecoder::UnconditionalBranch),
        (0xf801u16, 0xe800u16, ThumbDecoder::BlxSuffix),
        (0xf800u16, 0xf000u16, ThumbDecoder::BlBlxPrefix),
        (0xf800u16, 0xf800u16, ThumbDecoder::BlSuffix)
    ];
    assert(t@ =~= thumb_table_entries());
    t
}

/// The Thumb decoding table sorted from most to least specific mask.
pub fn generate_thumb_instruction_table() -> (t: Vec<ThumbInstructionTableEntry>)
    ensures
        t@ == sort_by_specificity(thumb_table_entries()),
{
    let entries = thumb_instruction_table_entries();
    sort_table(&entries)
}

impl GbaSystem {
    /// Decodes a Thumb instruction through the Thumb decoding table: the
    /// first entry that the instruction matches decides, and `None` means
    /// that no entry matched or that its routine refused the instruction.
    pub fn decode_thumb_instruction(&self, inst: u16) -> (r: Option<ArmInstruction>)
        ensures
            r == thumb_decode_with_table(self@.thumb_table, inst),
    {
        let mut i: usize = 0;
        assert(self@.thumb_table.subrange(0, self@.thumb_table.len() as int) =~= self@.thumb_table);
        while i < self.thumb_instruction_table.len()
            invariant
                i <= self@.thumb_table.len(),
                thumb_decode_with_table(self@.thumb_table, inst) == thumb_decode_with_table(
                    self@.thumb_table.subrange(i as int, self@.thumb_table.len() as int),
                    inst,
                ),
            decreases self@.thumb_table.len() - i,
        {
            let e = self.thumb_instruction_table[i];
            let ghost rest = self@.thumb_table.subrange(i as int, self@.thumb_table.len() as int);
            assert(rest[0] == e);
            assert(rest.drop_first() =~= self@.thumb_table.subrange(
                i + 1,
                self@.thumb_table.len() as int,
            ));
            if inst & e.0 == e.1 {
                return run_thumb_decoder(e.2, inst);
            }
            i = i + 1;
        }
        None
    }
}

/// The fields of a Thumb halfword as shifts and masks, with their bounds and
/// the scaled forms in which the decoders use them.
proof fn lemma_thumb_fields(h: u16)
    ensures
        bits16(h, 13, 3) == h >> 13,
        bits16(h, 12, 4) == h >> 12,
        bits16(h, 11, 5) == h >> 11,
        bits16(h, 10, 6) == h >> 10,
        bits16(h, 8, 8) == h >> 8,
        bits16(h, 12, 1) == (h >> 12) & 1,
        bits16(h, 11, 1) == (h >> 11) & 1,
        bits16(h, 9, 1) == (h >> 9) & 1,
        bits16(h, 7, 1) == (h >> 7) & 1,
        bits16(h, 11, 2) == (h >> 11) & 3,
        bits16(h, 8, 4) == (h >> 8) & 0xF,
        bits16(h, 6, 5) == (h >> 6) & 0x1F,
        bits16(h, 6, 3) == (h >> 6) & 7,
        bits16(h, 8, 3) == (h >> 8) & 7,
        bits16(h, 3, 3) == (h >> 3) & 7,
        bits16(h, 0, 3) == h & 7,
        bits16(h, 0, 8) == h & 0xFF,
        bits16(h, 0, 7) == h & 0x7F,
        bits16(h, 0, 11) == h & 0x7FF,
        (h >> 6) & 0x1F < 32,
        (h >> 6) & 7 < 8,
        (h >> 8) & 7 < 8,
        (h >> 3) & 7 < 8,
        h & 7 < 8,
        (h >> 8) & 0xF < 16,
        (h >> 11) & 3 < 4,
        h & 0xFF < 256,
        h & 0x7F < 128,
        h & 0x7FF < 2048,
        ((h & 0x7F) << 2u16) == (h & 0x7F) * 4,
        ((h & 0xFF) << 2u16) == (h & 0xFF) * 4,
        ((h & 0xFF) as u32) << 1u32 == ((h & 0xFF) as u32) * 2,
        ((h & 0x7FF) as u32) << 1u32 == ((h & 0x7FF) as u32) * 2,
        (1u32 << 8u32) == 256 && (1u32 << 9u32) == 512,
        (1u32 << 11u32) == 2048 && (1u32 << 12u32) == 4096,
        bits16(h, 8, 2) == (h >> 8) & 3,
        bits16(h, 8, 1) == (h >> 8) & 1,
        bits16(h, 6, 1) == (h >> 6) & 1,
        bits16(h, 3, 4) == (h >> 3) & 0xF,
        bits16(h, 6, 4) == (h >> 6) & 0xF,
        bits16(h, 9, 3) == (h >> 9) & 7,
        bits16(h, 9, 2) == (h >> 9) & 3,
        (h >> 3) & 0xF < 16,
        (h >> 7) & 1 < 2 && (h >> 6) & 1 < 2,
{
    assert({
        &&& bits16(h, 13, 3) == h >> 13
        &&& bits16(h, 12, 4) == h >> 12
        &&& bits16(h, 11, 5) == h >> 11
        &&& bits16(h, 10, 6) == h >> 10
        &&& bits16(h, 8, 8) == h >> 8
        &&& bits16(h, 12, 1) == (h >> 12) & 1
        &&& bits16(h, 11, 1) == (h >> 11) & 1
        &&& bits16(h, 9, 1) == (h >> 9) & 1
        &&& bits16(h, 7, 1) == (h >> 7) & 1
        &&& bits16(h, 11, 2) == (h >> 11) & 3
        &&& bits16(h, 8, 4) == (h >> 8) & 0xF
        &&& bits16(h, 6, 5) == (h >> 6) & 0x1F
        &&& bits16(h, 6, 3) == (h >> 6) & 7
        &&& bits16(h, 8, 3) == (h >> 8) & 7
        &&& bits16(h, 3, 3) == (h >> 3) & 7
        &&& bits16(h, 0, 3) == h & 7
        &&& bits16(h, 0, 8) == h & 0xFF
        &&& bits16(h, 0, 7) == h & 0x7F
        &&& bits16(h, 0, 11) == h & 0x7FF
        &&& (h >> 6) & 0x1F < 32
        &&& (h >> 6) & 7 < 8
        &&& (h >> 8) & 7 < 8
        &&& (h >> 3) & 7 < 8
        &&& h & 7 < 8
        &&& (h >> 8) & 0xF < 16
        &&& (h >> 11) & 3 < 4
        &&& h & 0xFF < 256
        &&& h & 0x7F < 128
        &&& h & 0x7FF < 2048
        &&& ((h & 0x7F) << 2u16) == (h & 0x7F) * 4
        &&& ((h & 0xFF) << 2u16) == (h & 0xFF) * 4
        &&& ((h & 0xFF) as u32) << 1u32 == ((h & 0xFF) as u32) * 2
        &&& ((h & 0x7FF) as u32) << 1u32 == ((h & 0x7FF) as u32) * 2
        &&& (1u32 << 8u32) == 256 && (1u32 << 9u32) == 512
        &&& (1u32 << 11u32) == 2048 && (1u32 << 12u32) == 4096
        &&& bits16(h, 8, 2) == (h >> 8) & 3
        &&& bits16(h, 8, 1) == (h >> 8) & 1
        &&& bits16(h, 6, 1) == (h >> 6) & 1
        &&& bits16(h, 3, 4) == (h >> 3) & 0xF
        &&& bits16(h, 6, 4) == (h >> 6) & 0xF
        &&& bits16(h, 9, 3) == (h >> 9) & 7
        &&& bits16(h, 9, 2) == (h >> 9) & 3
        &&& (h >> 3) & 0xF < 16
        &&& (h >> 7) & 1 < 2 && (h >> 6) & 1 < 2
    }) by (bit_vector);
}

/// A Thumb load/store with an immediate offset (bits 15..13 = 011) becomes
/// an always-executed, pre-indexed, upward ARM load/store without
/// write-back: L (bit 11) selects a load, B (bit 12) a byte transfer, Rn and
/// Rd come from bits 5..3 and 2..0, and the byte offset is the 5-bit field
/// `k` of bits 10..6 itself for a byte transfer and `4 * k` for a word.
pub proof fn lemma_thumb_load_store_immediate_offset(h: u16)
    ensures
        thumb_decode(ThumbDecoder::LoadStoreWordByteImmediateOffset, h) is Some <==> h >> 13
            == 3,
        thumb_decode(ThumbDecoder::LoadStoreWordByteImmediateOffset, h) is Some ==> ({
            let k = ((h >> 6) & 0x1F) as int;
            let byte = (h >> 12) & 1 == 1;
            thumb_decode(ThumbDecoder::LoadStoreWordByteImmediateOffset, h) matches Some(
                ArmInstruction::LoadStore {
                    c,
                    pre_indexed,
                    add_offset,
                    width,
                    w,
                    load,
                    rn,
                    rd,
                    shifter_operand: LSShifterOperand::Immediate { immed },
                },
            ) && c == Condition::AL && pre_indexed && add_offset && !w && load == ((h >> 11) & 1
                == 1) && width == (if byte {
                BusWidth::Byte
            } else {
                BusWidth::Word
            }) && register_index(rn) == (h >> 3) & 7 && register_index(rd) == h & 7
                && immed as int == (if byte {
                k
            } else {
                4 * k
            })
        }),
{
    lemma_thumb_fields(h);
    lemma_register_index_round_trip(Register::R0, ((h >> 3) & 7) as int);
    lemma_register_index_round_trip(Register::R0, (h & 7) as int);
}

/// A Thumb shift by an immediate (bits 15..13 = 000) becomes a flag-setting
/// MOV of Rm (bits 5..3) into Rd (bits 2..0), shifted by the kind of bits
/// 12..11 and the amount of bits 10..6.
pub proof fn lemma_thumb_shift_by_immediate(h: u16)
    ensures
        thumb_decode(ThumbDecoder::ShiftByImmediate, h) is Some <==> h >> 13 == 0,
        thumb_decode(ThumbDecoder::ShiftByImmediate, h) is Some ==> (thumb_decode(
            ThumbDecoder::ShiftByImmediate,
            h,
        ) matches Some(
            ArmInstruction::DataProcessing {
                c,
                op,
                s,
                rn,
                rd,
                shifter_operand: DPShifterOperand::ImmediateShift { immed, shift_type, rm },
            },
        ) && c == Condition::AL && op == DataProcessingOpcode::MOV && s && rn == rd
            && register_index(rd) == h & 7 && register_index(rm) == (h >> 3) & 7 && immed as u16
            == (h >> 6) & 0x1F && shift_type == shift_of_code(((h >> 11) & 3) as int)),
{
    lemma_thumb_fields(h);
    lemma_register_index_round_trip(Register::R0, ((h >> 3) & 7) as int);
    lemma_register_index_round_trip(Register::R0, (h & 7) as int);
}

/// A Thumb three-operand add or subtract (bits 15..11 = 00011) sets Rd
/// (bits 2..0) to Rn (bits 5..3) plus, or minus where bit 9 is set, the
/// register or, where bit 10 is set, the 3-bit immediate of bits 8..6,
/// setting the flags.
pub proof fn lemma_thumb_add_subtract(h: u16)
    ensures
        thumb_decode(ThumbDecoder::AddSubtractRegister, h) is Some <==> h >> 10 == 6,
        thumb_decode(ThumbDecoder::AddSubtractImmediate, h) is Some <==> h >> 10 == 7,
        thumb_decode(ThumbDecoder::AddSubtractRegister, h) is Some ==> (thumb_decode(
            ThumbDecoder::AddSubtractRegister,
            h,
        ) matches Some(
            ArmInstruction::DataProcessing {
                c,
                op,
                s,
                rn,
                rd,
                shifter_operand: DPShifterOperand::ImmediateShift { immed, shift_type, rm },
            },
        ) && c == Condition::AL && s && op == (if (h >> 9) & 1 == 1 {
            DataProcessingOpcode::SUB
        } else {
            DataProcessingOpcode::ADD
        }) && register_index(rn) == (h >> 3) & 7 && register_index(rd) == h & 7
            && register_index(rm) == (h >> 6) & 7 && immed == 0 && shift_type == ShiftType::LSL),
        thumb_decode(ThumbDecoder::AddSubtractImmediate, h) is Some ==> (thumb_decode(
            ThumbDecoder::AddSubtractImmediate,
            h,
        ) matches Some(
            ArmInstruction::DataProcessing {
                c,
                op,
                s,
                rn,
                rd,
                shifter_operand: DPShifterOperand::Immediate { immed, rotate },
            },
        ) && c == Condition::AL && s && op == (if (h >> 9) & 1 == 1 {
            DataProcessingOpcode::SUB
        } else {
            DataProcessingOpcode::ADD
        }) && register_index(rn) == (h >> 3) & 7 && register_index(rd) == h & 7 && immed == (h
            >> 6) & 7 && rotate == 0),
{
    lemma_thumb_fields(h);
    lemma_register_index_round_trip(Register::R0, ((h >> 6) & 7) as int);
    lemma_register_index_round_trip(Register::R0, ((h >> 3) & 7) as int);
    lemma_register_index_round_trip(Register::R0, (h & 7) as int);
}

/// A Thumb operation with an 8-bit immediate (bits 15..13 = 001) applies
/// MOV, CMP, ADD or SUB (bits 12..11) to Rd (bits 10..8) and the unrotated
/// immediate of bits 7..0, setting the flags.
pub proof fn lemma_thumb_immediate_operation(h: u16)
    ensures
        thumb_decode(ThumbDecoder::AddSubtractCompareMoveImmediate, h) is Some <==> h >> 13 == 1,
        thumb_decode(ThumbDecoder::AddSubtractCompareMoveImmediate, h) is Some ==> (thumb_decode(
            ThumbDecoder::AddSubtractCompareMoveImmediate,
            h,
        ) matches Some(
            ArmInstruction::DataProcessing {
                c,
                op,
                s,
                rn,
                rd,
                shifter_operand: DPShifterOperand::Immediate { immed, rotate },
            },
        ) && c == Condition::AL && s && rn == rd && register_index(rd) == (h >> 8) & 7 && immed
            == h & 0xFF && rotate == 0 && op == (if (h >> 11) & 3 == 0 {
            DataProcessingOpcode::MOV
        } else if (h >> 11) & 3 == 1 {
            DataProcessingOpcode::CMP
        } else if (h >> 11) & 3 == 2 {
            DataProcessingOpcode::ADD
        } else {
            DataProcessingOpcode::SUB
        })),
{
    lemma_thumb_fields(h);
    lemma_register_index_round_trip(Register::R0, ((h >> 8) & 7) as int);
}

/// A Thumb half-word load/store with an immediate offset (bits 15..12 =
/// 1000) transfers Rd (bits 2..0) at Rn (bits 5..3) plus twice the 5-bit
/// field of bits 10..6; L (bit 11) selects a load.
pub proof fn lemma_thumb_load_store_halfword(h: u16)
    ensures
        thumb_decode(ThumbDecoder::LoadStoreHalfwordImmediateOffset, h) is Some <==> h >> 12 == 8,
        thumb_decode(ThumbDecoder::LoadStoreHalfwordImmediateOffset, h) is Some ==> (thumb_decode(
            ThumbDecoder::LoadStoreHalfwordImmediateOffset,
            h,
        ) matches Some(
            ArmInstruction::LoadStore {
                c,
                pre_indexed,
                add_offset,
                width,
                w,
                load,
                rn,
                rd,
                shifter_operand: LSShifterOperand::Immediate { immed },
            },
        ) && c == Condition::AL && pre_indexed && add_offset && !w && width == BusWidth::HalfWord
            && load == ((h >> 11) & 1 == 1) && register_index(rn) == (h >> 3) & 7 && register_index(
            rd,
        ) == h & 7 && immed as int == 2 * ((h >> 6) & 0x1F)),
{
    lemma_thumb_fields(h);
    lemma_register_index_round_trip(Register::R0, ((h >> 3) & 7) as int);
    lemma_register_index_round_trip(Register::R0, (h & 7) as int);
}

/// The Thumb forms relative to the PC or the stack pointer scale their 8-bit
/// field `k` (bits 7..0) to words: a literal load (01001) reads Rd (bits
/// 10..8) from PC + 4k, a stack load/store (1001) transfers Rd at SP + 4k,
/// an address computation (1010) sets Rd to SP (bit 11 set) or PC plus 4k,
/// and a stack adjustment (10110000) adds to SP, or subtracts where bit 7 is
/// set, four times the 7-bit field of bits 6..0.
pub proof fn lemma_thumb_relative_offsets(h: u16)
    ensures
        thumb_decode(ThumbDecoder::LoadFromLiteralPool, h) is Some ==> (thumb_decode(
            ThumbDecoder::LoadFromLiteralPool,
            h,
        ) matches Some(
            ArmInstruction::LoadStore {
                width,
                load,
                rn,
                rd,
                shifter_operand: LSShifterOperand::Immediate { immed },
                ..
            },
        ) && h >> 11 == 9 && width == BusWidth::Word && load && rn == Register::R15
            && register_index(rd) == (h >> 8) & 7 && immed as int == 4 * (h & 0xFF)),
        thumb_decode(ThumbDecoder::LoadStoreFromStack, h) is Some ==> (thumb_decode(
            ThumbDecoder::LoadStoreFromStack,
            h,
        ) matches Some(
            ArmInstruction::LoadStore {
                width,
                load,
                rn,
                rd,
                shifter_operand: LSShifterOperand::Immediate { immed },
                ..
            },
        ) && h >> 12 == 9 && width == BusWidth::Word && load == ((h >> 11) & 1 == 1) && rn
            == Register::R13 && register_index(rd) == (h >> 8) & 7 && immed as int == 4 * (h
            & 0xFF)),
        thumb_decode(ThumbDecoder::AddToSpOrPc, h) is Some ==> (thumb_decode(
            ThumbDecoder::AddToSpOrPc,
            h,
        ) matches Some(
            ArmInstruction::DataProcessing {
                op,
                s,
                rn,
                rd,
                shifter_operand: DPShifterOperand::Immediate { immed, rotate },
                ..
            },
        ) && h >> 12 == 10 && op == DataProcessingOpcode::ADD && !s && rn == (if (h >> 11) & 1
            == 1 {
            Register::R13
        } else {
            Register::R15
        }) && register_index(rd) == (h >> 8) & 7 && immed as int == 4 * (h & 0xFF) && rotate
            == 0),
        thumb_decode(ThumbDecoder::AdjustStackPointer, h) is Some ==> (thumb_decode(
            ThumbDecoder::AdjustStackPointer,
            h,
        ) matches Some(
            ArmInstruction::DataProcessing {
                op,
                s,
                rn,
                rd,
                shifter_operand: DPShifterOperand::Immediate { immed, rotate },
                ..
            },
        ) && h >> 8 == 0xB0 && op == (if (h >> 7) & 1 == 1 {
            DataProcessingOpcode::SUB
        } else {
            DataProcessingOpcode::ADD
        }) && !s && rn == Register::R13 && rd == Register::R13 && immed as int == 4 * (h & 0x7F)
            && rotate == 0),
{
    lemma_thumb_fields(h);
    lemma_register_index_round_trip(Register::R0, ((h >> 8) & 7) as int);
}

/// Thumb branches: a conditional branch (1101) tests the condition of bits
/// 11..8 and jumps by twice the signed 8-bit field of bits 7..0; an
/// unconditional one (11100) by twice the signed 11-bit field of bits 10..0.
pub proof fn lemma_thumb_branch_offsets(h: u16)
    ensures
        thumb_decode(ThumbDecoder::BranchConditional, h) is Some <==> h >> 12 == 13,
        thumb_decode(ThumbDecoder::UnconditionalBranch, h) is Some <==> h >> 11 == 28,
        thumb_decode(ThumbDecoder::BranchConditional, h) is Some ==> (thumb_decode(
            ThumbDecoder::BranchConditional,
            h,
        ) matches Some(ArmInstruction::Branch { c, op: BranchOperation::BranchImmed { offset } })
            && c == condition_of_code(((h >> 8) & 0xF) as int) && offset as int == 2 * (if h
            & 0xFF >= 0x80 {
            (h & 0xFF) - 0x100
        } else {
            (h & 0xFF) as int
        })),
        thumb_decode(ThumbDecoder::UnconditionalBranch, h) is Some ==> (thumb_decode(
            ThumbDecoder::UnconditionalBranch,
            h,
        ) matches Some(ArmInstruction::Branch { c, op: BranchOperation::BranchImmed { offset } })
            && c == Condition::AL && offset as int == 2 * (if h & 0x7FF >= 0x400 {
            (h & 0x7FF) - 0x800
        } else {
            (h & 0x7FF) as int
        })),
{
    lemma_thumb_fields(h);
    crate::alu::lemma_sign_extend_value(((h & 0xFF) as u32) << 1u32, 9);
    crate::alu::lemma_sign_extend_value(((h & 0x7FF) as u32) << 1u32, 12);
}

/// The halves of a Thumb long branch with link carry the 11-bit field of
/// bits 10..0 unchanged: the first half (11110) as the high part of the
/// offset, the second (11111 for BL, 11101 for BLX) as the low part, with no
/// link correction.
pub proof fn lemma_thumb_long_branch_halves(h: u16)
    ensures
        thumb_decode(ThumbDecoder::BlBlxPrefix, h) is Some <==> h >> 11 == 30,
        thumb_decode(ThumbDecoder::BlSuffix, h) is Some <==> h >> 11 == 31,
        thumb_decode(ThumbDecoder::BlxSuffix, h) is Some <==> h >> 11 == 29,
        thumb_decode(ThumbDecoder::BlBlxPrefix, h) is Some ==> thumb_decode(
            ThumbDecoder::BlBlxPrefix,
            h,
        ) == Some(ArmInstruction::BranchLinkPrefix { offset: h & 0x7FF }),
        thumb_decode(ThumbDecoder::BlSuffix, h) is Some ==> (thumb_decode(
            ThumbDecoder::BlSuffix,
            h,
        ) matches Some(
            ArmInstruction::BranchLinkSuffix {
                op: BranchOperation::BranchLinkImmed { offset, lr_correct },
            },
        ) && offset as int == h & 0x7FF && lr_correct == 0),
        thumb_decode(ThumbDecoder::BlxSuffix, h) is Some ==> (thumb_decode(
            ThumbDecoder::BlxSuffix,
            h,
        ) matches Some(
            ArmInstruction::BranchLinkSuffix {
                op: BranchOperation::BranchExchangeLinkThumbImmed { offset },
            },
        ) && offset as int == h & 0x7FF),
{
    lemma_thumb_fields(h);
}

/// Thumb operations on the high registers (010001) reach r8 to r15 through
/// an extra bit: Rd is bit 7 above bits 2..0 and Rm bit 6 above bits 5..3;
/// ADD, CMP or MOV (bits 9..8) leave the flags alone. BX and BLX (01000111)
/// take the 4-bit register of bits 6..3, with link where bit 7 is set.
pub proof fn lemma_thumb_high_registers(h: u16)
    ensures
        thumb_decode(ThumbDecoder::SpecialDataProcessing, h) is Some <==> h >> 10 == 0x11,
        thumb_decode(ThumbDecoder::SpecialDataProcessing, h) is Some ==> (thumb_decode(
            ThumbDecoder::SpecialDataProcessing,
            h,
        ) matches Some(
            ArmInstruction::DataProcessing {
                c,
                op,
                s,
                rn,
                rd,
                shifter_operand: DPShifterOperand::ImmediateShift { immed, shift_type, rm },
            },
        ) && c == Condition::AL && !s && rn == rd && register_index(rd) == 8 * ((h >> 7) & 1) + (h
            & 7) && register_index(rm) == 8 * ((h >> 6) & 1) + ((h >> 3) & 7) && immed == 0
            && shift_type == ShiftType::LSL && op == (if (h >> 8) & 3 == 0 {
            DataProcessingOpcode::ADD
        } else if (h >> 8) & 3 == 1 {
            DataProcessingOpcode::CMP
        } else {
            DataProcessingOpcode::MOV
        })),
        thumb_decode(ThumbDecoder::BranchExchange, h) is Some <==> h >> 8 == 0x47,
        thumb_decode(ThumbDecoder::BranchExchange, h) is Some ==> (thumb_decode(
            ThumbDecoder::BranchExchange,
            h,
        ) matches Some(ArmInstruction::Branch { c, op }) && c == Condition::AL && if (h >> 7) & 1
            == 1 {
            op matches BranchOperation::BranchExchangeLinkThumb { rm } && register_index(rm) == (h
                >> 3) & 0xF
        } else {
            op matches BranchOperation::BranchExchangeThumb { rm } && register_index(rm) == (h >> 3)
                & 0xF
        }),
{
    lemma_thumb_fields(h);
    lemma_register_index_round_trip(Register::R0, 8 * ((h >> 7) & 1) + (h & 7));
    lemma_register_index_round_trip(Register::R0, 8 * ((h >> 6) & 1) + ((h >> 3) & 7));
    lemma_register_index_round_trip(Register::R0, ((h >> 3) & 0xF) as int);
}

/// Thumb register operations (010000) work on Rd (bits 2..0) with Rm or
/// Rs (bits 5..3) by the opcode of bits 9..6; a register-offset load/store
/// (0101) transfers Rd at Rn (bits 5..3) plus Rm (bits 8..6) unshifted, by
/// the access of bits 11..9; a multiple load/store (1100) goes upward from
/// Rn (bits 10..8) over the registers of bits 7..0, writing the base back.
pub proof fn lemma_thumb_register_forms(h: u16)
    ensures
        thumb_decode(ThumbDecoder::DataProcessingRegister, h) is Some <==> h >> 10 == 0x10,
        thumb_decode(ThumbDecoder::DataProcessingRegister, h) is Some ==> ({
            let rd = register_of_index((h & 7) as int);
            let rm = register_of_index(((h >> 3) & 7) as int);
            let (op, so) = thumb_register_operation((h >> 6) & 0xF, rm, rd);
            thumb_decode(ThumbDecoder::DataProcessingRegister, h) == Some(
                ArmInstruction::DataProcessing {
                    c: Condition::AL,
                    op,
                    s: true,
                    rn: rd,
                    rd,
                    shifter_operand: so,
                },
            )
        }),
        thumb_decode(ThumbDecoder::LoadStoreRegisterOffset, h) is Some <==> (h >> 12 == 5
            && thumb_register_offset_access((h >> 9) & 7) is Some),
        thumb_decode(ThumbDecoder::LoadStoreRegisterOffset, h) is Some ==> (thumb_decode(
            ThumbDecoder::LoadStoreRegisterOffset,
            h,
        ) matches Some(
            ArmInstruction::LoadStore {
                c,
                pre_indexed,
                add_offset,
                width,
                w,
                load,
                rn,
                rd,
                shifter_operand: LSShifterOperand::ImmediateShift { immed, shift_type, rm },
            },
        ) && c == Condition::AL && pre_indexed && add_offset && !w && Some((width, load))
            == thumb_register_offset_access((h >> 9) & 7) && register_index(rn) == (h >> 3) & 7
            && register_index(rd) == h & 7 && register_index(rm) == (h >> 6) & 7 && immed == 0
            && shift_type == ShiftType::LSL),
        thumb_decode(ThumbDecoder::LoadStoreMultiple, h) is Some <==> h >> 12 == 12,
        thumb_decode(ThumbDecoder::LoadStoreMultiple, h) is Some ==> (thumb_decode(
            ThumbDecoder::LoadStoreMultiple,
            h,
        ) matches Some(
            ArmInstruction::LoadStoreMultiple {
                c,
                exclude_first_word,
                upwards,
                update_base,
                load_usermode,
                load,
                rn,
                register_list,
            },
        ) && c == Condition::AL && !exclude_first_word && upwards && update_base && !load_usermode
            && load == ((h >> 11) & 1 == 1) && register_index(rn) == (h >> 8) & 7
            && register_list.bits == h & 0xFF),
{
    lemma_thumb_fields(h);
    lemma_register_index_round_trip(Register::R0, ((h >> 8) & 7) as int);
    lemma_register_index_round_trip(Register::R0, ((h >> 6) & 7) as int);
    lemma_register_index_round_trip(Register::R0, ((h >> 3) & 7) as int);
    lemma_register_index_round_trip(Register::R0, (h & 7) as int);
}

/// A Thumb PUSH (1011 0 10 R) stores downward from SP, decrementing before,
/// and a POP (1011 1 10 R) loads upward from SP; both write SP back and
/// transfer the low registers of bits 7..0, plus LR for a PUSH or PC for a
/// POP where R (bit 8) is set.
pub proof fn lemma_thumb_push_pop(h: u16)
    ensures
        thumb_decode(ThumbDecoder::PushPop, h) is Some <==> (h >> 12 == 11 && (h >> 9) & 3 == 2),
        thumb_decode(ThumbDecoder::PushPop, h) is Some ==> ({
            let pop = (h >> 11) & 1 == 1;
            thumb_decode(ThumbDecoder::PushPop, h) matches Some(
                ArmInstruction::LoadStoreMultiple {
                    c,
                    exclude_first_word,
                    upwards,
                    update_base,
                    load_usermode,
                    load,
                    rn,
                    register_list,
                },
            ) && c == Condition::AL && exclude_first_word == !pop && upwards == pop && update_base
                && !load_usermode && load == pop && rn == Register::R13 && register_list.bits == (
            if (h >> 8) & 1 == 1 {
                (h & 0xFF) | (if pop {
                    0x8000u16
                } else {
                    0x4000u16
                })
            } else {
                h & 0xFF
            })
        }),
{
    lemma_thumb_fields(h);
}

} // verus!
