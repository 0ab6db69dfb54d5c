use vstd::prelude::*;
use crate::bus::BusWidth;
use crate::alu::{sign_extend, sign_extend_spec};
use crate::gba::{
    GbaModel, GbaSystem, Register, lemma_register_index_round_trip, register_index,
    register_of_index,
};

verus! {

/// The condition field of an ARM instruction.
#[derive(Clone, Copy, PartialEq, Eq, Structural, Debug)]
pub enum Condition {
    EQ,
    NE,
    CSHS,
    CCLO,
    MI,
    PL,
    VS,
    VC,
    HI,
    LS,
    GE,
    LT,
    GT,
    LE,
    AL,
    UNC,
}

/// The condition named by a four-bit condition field.
pub open spec fn condition_of_code(v: int) -> Condition {
    if v == 0 {
        Condition::EQ
    } else if v == 1 {
        Condition::NE
    } else if v == 2 {
        Condition::CSHS
    } else if v == 3 {
        Condition::CCLO
    } else if v == 4 {
        Condition::MI
    } else if v == 5 {
        Condition::PL
    } else if v == 6 {
        Condition::VS
    } else if v == 7 {
        Condition::VC
    } else if v == 8 {
        Condition::HI
    } else if v == 9 {
        Condition::LS
    } else if v == 10 {
        Condition::GE
    } else if v == 11 {
        Condition::LT
    } else if v == 12 {
        Condition::GT
    } else if v == 13 {
        Condition::LE
    } else if v == 14 {
        Condition::AL
    } else {
        Condition::UNC
    }
}

/// The mnemonic suffix of a condition (empty for "always").
#[verifier::opaque]
pub open spec fn condition_name(c: Condition) -> Seq<char> {
    match c {
        Condition::EQ => "EQ"@,
        Condition::NE => "NE"@,
        Condition::CSHS => "CS"@,
        Condition::CCLO => "CC"@,
        Condition::MI => "MI"@,
        Condition::PL => "PL"@,
        Condition::VS => "VS"@,
        Condition::VC => "VC"@,
        Condition::HI => "HI"@,
        Condition::LS => "LS"@,
        Condition::GE => "GE"@,
        Condition::LT => "LT"@,
        Condition::GT => "GT"@,
        Condition::LE => "LE"@,
        Condition::AL => ""@,
        Condition::UNC => ""@,
    }
}

impl Condition {
    /// Decodes a condition field; values above 15 are refused.
    pub fn try_from(v: u8) -> (r: Result<Condition, ()>)
        ensures
            v < 16 ==> r == Ok::<Condition, ()>(condition_of_code(v as int)),
            v >= 16 ==> r == Err::<Condition, ()>(()),
    {
        match v {
            0 => Ok(Condition::EQ),
            1 => Ok(Condition::NE),
            2 => Ok(Condition::CSHS),
            3 => Ok(Condition::CCLO),
            4 => Ok(Condition::MI),
            5 => Ok(Condition::PL),
            6 => Ok(Condition::VS),
            7 => Ok(Condition::VC),
            8 => Ok(Condition::HI),
            9 => Ok(Condition::LS),
            10 => Ok(Condition::GE),
            11 => Ok(Condition::LT),
            12 => Ok(Condition::GT),
            13 => Ok(Condition::LE),
            14 => Ok(Condition::AL),
            15 => Ok(Condition::UNC),
            _ => Err(()),
        }
    }

    /// The mnemonic suffix of the condition.
    pub fn name(&self) -> (r: &'static str)
        ensures
            r@ == condition_name(*self),
    {
        proof {
            reveal(condition_name);
        }
        match self {
            Condition::EQ => "EQ",
            Condition::NE => "NE",
            Condition::CSHS => "CS",
            Condition::CCLO => "CC",
            Condition::MI => "MI",
            Condition::PL => "PL",
            Condition::VS => "VS",
            Condition::VC => "VC",
            Condition::HI => "HI",
            Condition::LS => "LS",
            Condition::GE => "GE",
            Condition::LT => "LT",
            Condition::GT => "GT",
            Condition::LE => "LE",
            Condition::AL => "",
            Condition::UNC => "",
        }
    }
}

/// The operation of a data-processing instruction.
#[derive(Clone, Copy, PartialEq, Eq, Structural, Debug)]
pub enum DataProcessingOpcode {
    AND,
    EOR,
    SUB,
    RSB,
    ADD,
    ADC,
    SBC,
    RSC,
    TST,
    TEQ,
    CMP,
    CMN,
    ORR,
    MOV,
    BIC,
    MVN,
    MUL,
}

/// The operation named by a four-bit opcode field.
pub open spec fn opcode_of_code(v: int) -> DataProcessingOpcode {
    if v == 0 {
        DataProcessingOpcode::AND
    } else if v == 1 {
        DataProcessingOpcode::EOR
    } else if v == 2 {
        DataProcessingOpcode::SUB
    } else if v == 3 {
        DataProcessingOpcode::RSB
    } else if v == 4 {
        DataProcessingOpcode::ADD
    } else if v == 5 {
        DataProcessingOpcode::ADC
    } else if v == 6 {
        DataProcessingOpcode::SBC
    } else if v == 7 {
        DataProcessingOpcode::RSC
    } else if v == 8 {
        DataProcessingOpcode::TST
    } else if v == 9 {
        DataProcessingOpcode::TEQ
    } else if v == 10 {
        DataProcessingOpcode::CMP
    } else if v == 11 {
        DataProcessingOpcode::CMN
    } else if v == 12 {
        DataProcessingOpcode::ORR
    } else if v == 13 {
        DataProcessingOpcode::MOV
    } else if v == 14 {
        DataProcessingOpcode::BIC
    } else {
        DataProcessingOpcode::MVN
    }
}

/// The mnemonic of a data-processing operation.
#[verifier::opaque]
pub open spec fn opcode_name(o: DataProcessingOpcode) -> Seq<char> {
    match o {
        DataProcessingOpcode::AND => "AND"@,
        DataProcessingOpcode::EOR => "EOR"@,
        DataProcessingOpcode::SUB => "SUB"@,
        DataProcessingOpcode::RSB => "RSB"@,
        DataProcessingOpcode::ADD => "ADD"@,
        DataProcessingOpcode::ADC => "ADC"@,
        DataProcessingOpcode::SBC => "SBC"@,
        DataProcessingOpcode::RSC => "RSC"@,
        DataProcessingOpcode::TST => "TST"@,
        DataProcessingOpcode::TEQ => "TEQ"@,
        DataProcessingOpcode::CMP => "CMP"@,
        DataProcessingOpcode::CMN => "CMN"@,
        DataProcessingOpcode::ORR => "ORR"@,
        DataProcessingOpcode::MOV => "MOV"@,
        DataProcessingOpcode::BIC => "BIC"@,
        DataProcessingOpcode::MVN => "MVN"@,
        DataProcessingOpcode::MUL => "MUL"@,
    }
}

impl DataProcessingOpcode {
    /// Decodes an opcode field; values above 15 are refused.
    pub fn try_from(v: u8) -> (r: Result<DataProcessingOpcode, ()>)
        ensures
            v < 16 ==> r == Ok::<DataProcessingOpcode, ()>(opcode_of_code(v as int)),
            v >= 16 ==> r == Err::<DataProcessingOpcode, ()>(()),
    {
        match v {
            0 => Ok(DataProcessingOpcode::AND),
            1 => Ok(DataProcessingOpcode::EOR),
            2 => Ok(DataProcessingOpcode::SUB),
            3 => Ok(DataProcessingOpcode::RSB),
            4 => Ok(DataProcessingOpcode::ADD),
            5 => Ok(DataProcessingOpcode::ADC),
            6 => Ok(DataProcessingOpcode::SBC),
            7 => Ok(DataProcessingOpcode::RSC),
            8 => Ok(DataProcessingOpcode::TST),
            9 => Ok(DataProcessingOpcode::TEQ),
            10 => Ok(DataProcessingOpcode::CMP),
            11 => Ok(DataProcessingOpcode::CMN),
            12 => Ok(DataProcessingOpcode::ORR),
            13 => Ok(DataProcessingOpcode::MOV),
            14 => Ok(DataProcessingOpcode::BIC),
            15 => Ok(DataProcessingOpcode::MVN),
            _ => Err(()),
        }
    }

    /// The mnemonic of the operation.
    pub fn name(&self) -> (r: &'static str)
        ensures
            r@ == opcode_name(*self),
    {
        proof {
            reveal(opcode_name);
        }
        match self {
            DataProcessingOpcode::AND => "AND",
            DataProcessingOpcode::EOR => "EOR",
            DataProcessingOpcode::SUB => "SUB",
            DataProcessingOpcode::RSB => "RSB",
            DataProcessingOpcode::ADD => "ADD",
            DataProcessingOpcode::ADC => "ADC",
            DataProcessingOpcode::SBC => "SBC",
            DataProcessingOpcode::RSC => "RSC",
            DataProcessingOpcode::TST => "TST",
            DataProcessingOpcode::TEQ => "TEQ",
            DataProcessingOpcode::CMP => "CMP",
            DataProcessingOpcode::CMN => "CMN",
            DataProcessingOpcode::ORR => "ORR",
            DataProcessingOpcode::MOV => "MOV",
            DataProcessingOpcode::BIC => "BIC",
            DataProcessingOpcode::MVN => "MVN",
            DataProcessingOpcode::MUL => "MUL",
        }
    }
}

/// The second operand of a data-processing instruction.
#[allow(inconsistent_fields)]
#[derive(Clone, Copy, PartialEq, Eq, Structural, Debug)]
pub enum DPShifterOperand {
    Immediate { rotate: u8, immed: u16 },
    ImmediateShift { immed: u8, shift_type: ShiftType, rm: Register },
    RegisterShift { rs: Register, shift_type: ShiftType, rm: Register },
}

/// The offset operand of a load or store.
#[allow(inconsistent_fields)]
#[derive(Clone, Copy, PartialEq, Eq, Structural, Debug)]
pub enum LSShifterOperand {
    Immediate { immed: u16 },
    ImmediateShift { immed: u8, shift_type: ShiftType, rm: Register },
}

/// The barrel shifter's operations.
#[derive(Clone, Copy, PartialEq, Eq, Structural, Debug)]
pub enum ShiftType {
    ASR,
    LSL,
    LSR,
    ROR,
    RRX,
}

/// The shift named by a two-bit shift field.
pub open spec fn shift_of_code(v: int) -> ShiftType {
    if v == 0 {
        ShiftType::LSL
    } else if v == 1 {
        ShiftType::LSR
    } else if v == 2 {
        ShiftType::ASR
    } else {
        ShiftType::ROR
    }
}

/// The mnemonic of a shift.
#[verifier::opaque]
pub open spec fn shift_name(s: ShiftType) -> Seq<char> {
    match s {
        ShiftType::ASR => "ASR"@,
        ShiftType::LSL => "LSL"@,
        ShiftType::LSR => "LSR"@,
        ShiftType::ROR => "ROR"@,
        ShiftType::RRX => "RRX"@,
    }
}

impl ShiftType {
    /// Decodes a two-bit shift field; values above 3 are refused.
    pub fn try_from(v: u8) -> (r: Result<ShiftType, ()>)
        ensures
            v < 4 ==> r == Ok::<ShiftType, ()>(shift_of_code(v as int)),
            v >= 4 ==> r == Err::<ShiftType, ()>(()),
    {
        match v {
            0 => Ok(ShiftType::LSL),
            1 => Ok(ShiftType::LSR),
            2 => Ok(ShiftType::ASR),
            3 => Ok(ShiftType::ROR),
            _ => Err(()),
        }
    }

    /// The mnemonic of the shift.
    pub fn name(&self) -> (r: &'static str)
        ensures
            r@ == shift_name(*self),
    {
        proof {
            reveal(shift_name);
        }
        match self {
            ShiftType::ASR => "ASR",
            ShiftType::LSL => "LSL",
            ShiftType::LSR => "LSR",
            ShiftType::ROR => "ROR",
            ShiftType::RRX => "RRX",
        }
    }
}

/// The status-register transfers (MRS and MSR).
#[derive(Clone, Copy, PartialEq, Eq, Structural, Debug)]
pub enum LoadStoreStatusOperation {
    StatusRegisterToRegister { rd: Register },
    RegisterToStatusRegister { mask: MSRMask, rm: Register },
    ImmediateToStatusRegister { mask: MSRMask, rot_imm: u8, immed: u8 },
}

/// The field mask of an MSR instruction: which bytes of the status register
/// it writes (control, extension, status, flags).
#[derive(Clone, Copy, PartialEq, Eq, Structural, Debug)]
pub struct MSRMask {
    pub bits: u8,
}

/// The status-register bits that a field mask selects.
pub open spec fn msr_mask_bits(m: MSRMask) -> u32 {
    (if m.bits & 1 != 0 { 0x000000FFu32 } else { 0u32 }) | (if m.bits & 2 != 0 {
        0x0000FF00u32
    } else {
        0u32
    }) | (if m.bits & 4 != 0 { 0x00FF0000u32 } else { 0u32 }) | (if m.bits & 8 != 0 {
        0xFF000000u32
    } else {
        0u32
    })
}

impl MSRMask {
    pub const FLAG_C: u8 = 0b0001;
    pub const FLAG_X: u8 = 0b0010;
    pub const FLAG_S: u8 = 0b0100;
    pub const FLAG_F: u8 = 0b1000;

    /// Accepts exactly the values that set no bit beyond the four fields.
    pub fn from_bits(bits: u8) -> (r: Option<MSRMask>)
        ensures
            bits < 16 ==> r == Some(MSRMask { bits }),
            bits >= 16 ==> r is None,
    {
        if bits & 0xF0 == 0 {
            assert(bits < 16) by (bit_vector)
                requires
                    bits & 0xF0 == 0,
            ;
            Some(MSRMask { bits })
        } else {
            assert(bits >= 16) by (bit_vector)
                requires
                    bits & 0xF0 != 0,
            ;
            None
        }
    }

    pub fn contains(&self, f: u8) -> (r: bool)
        ensures
            r == (self.bits & f == f),
    {
        self.bits & f == f
    }

    /// The status-register bits that the selected fields cover.
    pub fn get_mask(&self) -> (r: u32)
        ensures
            r == msr_mask_bits(*self),
    {
        let c: u32 = if self.bits & 1 != 0 { 0x000000FF } else { 0x00000000 };
        let x: u32 = if self.bits & 2 != 0 { 0x0000FF00 } else { 0x00000000 };
        let s: u32 = if self.bits & 4 != 0 { 0x00FF0000 } else { 0x00000000 };
        let f: u32 = if self.bits & 8 != 0 { 0xFF000000 } else { 0x00000000 };
        c | x | s | f
    }
}

/// The number of set bits of a natural number.
pub open spec fn popcount(n: nat) -> nat
    decreases n,
{
    if n == 0 {
        0
    } else {
        (n % 2) + popcount(n / 2)
    }
}

/// The register list of a block transfer: bit `i` selects register `i`.
#[derive(Clone, Copy, PartialEq, Eq, Structural, Debug)]
pub struct RegisterList {
    pub bits: u16,
}

impl RegisterList {
    /// Whether register `i` is in the list.
    pub open spec fn has(self, i: int) -> bool {
        (self.bits as nat / vstd::arithmetic::power2::pow2(i as nat)) % 2 == 1
    }

    /// Every 16-bit value is a register list.
    pub fn from_bits(bits: u16) -> (r: Option<RegisterList>)
        ensures
            r == Some(RegisterList { bits }),
    {
        Some(RegisterList { bits })
    }

    pub fn bits(&self) -> (r: u16)
        ensures
            r == self.bits,
    {
        self.bits
    }

    /// Adds (`v`) or removes (`!v`) the registers of `f`.
    pub fn set(&mut self, f: u16, v: bool)
        ensures
            final(self).bits == (if v { old(self).bits | f } else { old(self).bits & !f }),
    {
        if v {
            self.bits = self.bits | f;
        } else {
            self.bits = self.bits & !f;
        }
    }

    /// The number of registers in the list.
    pub fn count(&self) -> (r: u32)
        ensures
            r == popcount(self.bits as nat),
            r <= 16,
    {
        let mut x: u16 = self.bits;
        let mut c: u32 = 0;
        let mut steps: u32 = 0;
        proof {
            vstd::arithmetic::power2::lemma2_to64();
        }
        while x != 0
            invariant
                c + popcount(x as nat) == popcount(self.bits as nat),
                steps <= 16,
                c <= steps,
                x as nat <= 0xFFFFnat / vstd::arithmetic::power2::pow2(steps as nat),
            decreases x,
        {
            assert(x & 1 == x % 2) by (bit_vector);
            assert(x >> 1 == x / 2) by (bit_vector);
            proof {
                vstd::arithmetic::power2::lemma_pow2_pos(steps as nat);
                vstd::arithmetic::div_mod::lemma_div_is_ordered(
                    x as int,
                    0xFFFFint / vstd::arithmetic::power2::pow2(steps as nat) as int,
                    2,
                );
                vstd::arithmetic::power2::lemma_pow2_unfold((steps + 1) as nat);
                vstd::arithmetic::div_mod::lemma_div_denominator(
                    0xFFFF,
                    vstd::arithmetic::power2::pow2(steps as nat) as int,
                    2,
                );
                if steps == 16 {
                    vstd::arithmetic::power2::lemma2_to64();
                    assert(vstd::arithmetic::power2::pow2(16) == 65536);
                    assert(0xFFFFnat / 65536nat == 0) by (nonlinear_arith);
                    assert(false);
                }
            }
            c = c + (x & 1) as u32;
            x = x >> 1;
            steps = steps + 1;
        }
        c
    }
}

impl RegisterList {
    pub const FLAG_R0: u16 = 0b0000000000000001;
    pub const FLAG_R1: u16 = 0b0000000000000010;
    pub const FLAG_R2: u16 = 0b0000000000000100;
    pub const FLAG_R3: u16 = 0b0000000000001000;
    pub const FLAG_R4: u16 = 0b0000000000010000;
    pub const FLAG_R5: u16 = 0b0000000000100000;
    pub const FLAG_R6: u16 = 0b0000000001000000;
    pub const FLAG_R7: u16 = 0b0000000010000000;
    pub const FLAG_R8: u16 = 0b0000000100000000;
    pub const FLAG_R9: u16 = 0b0000001000000000;
    pub const FLAG_R10: u16 = 0b0000010000000000;
    pub const FLAG_R11: u16 = 0b0000100000000000;
    pub const FLAG_R12: u16 = 0b0001000000000000;
    pub const FLAG_R13: u16 = 0b0010000000000000;
    pub const FLAG_R14: u16 = 0b0100000000000000;
    pub const FLAG_R15: u16 = 0b1000000000000000;
}

/// The branch forms.
#[derive(Clone, Copy, PartialEq, Eq, Structural, Debug)]
pub enum BranchOperation {
    BranchImmed { offset: i32 },
    BranchLinkImmed { offset: i32, lr_correct: i32 },
    BranchExchangeThumb { rm: Register },
    BranchExchangeLinkThumb { rm: Register },
    BranchExchangeLinkThumbImmed { offset: i32 },
    BranchExchangeJava { rm: Register },
}

/// A decoded instruction. Thumb instructions decode to the ARM instruction
/// that does the same work; the two halves of a Thumb long branch decode to
/// `BranchLinkPrefix` and `BranchLinkSuffix`.
#[allow(inconsistent_fields)]
#[derive(Clone, Copy, PartialEq, Eq, Structural, Debug)]
pub enum ArmInstruction {
    DataProcessing {
        c: Condition,
        op: DataProcessingOpcode,
        s: bool,
        rn: Register,
        rd: Register,
        shifter_operand: DPShifterOperand,
    },
    LoadStore {
        c: Condition,
        pre_indexed: bool,
        add_offset: bool,
        width: BusWidth,
        w: bool,
        load: bool,
        rn: Register,
        rd: Register,
        shifter_operand: LSShifterOperand,
    },
    LoadStoreStatus { c: Condition, r: bool, op: LoadStoreStatusOperation },
    Branch { c: Condition, op: BranchOperation },
    LoadStoreMultiple {
        c: Condition,
        exclude_first_word: bool,
        upwards: bool,
        update_base: bool,
        load_usermode: bool,
        load: bool,
        rn: Register,
        register_list: RegisterList,
    },
    BranchLinkPrefix { offset: u16 },
    BranchLinkSuffix { op: BranchOperation },
    MiscellaneousInstruction { c: Condition },
    Multiplie { c: Condition },
    ExtraLoadStores { c: Condition },
    UndefinedInstruction { c: Condition },
    MoveImmediateToStatusRegister {
        c: Condition,
        r: bool,
        mask: u8,
        sbo: u8,
        rotate: u8,
        immediate: u8,
    },
    MediaInstruction { c: Condition },
    CoprocessorLoadStore {
        c: Condition,
        p: bool,
        u: bool,
        n: bool,
        w: bool,
        l: bool,
        rn: u8,
        crd: u8,
        cp_num: u8,
        offset: u8,
    },
    CoprocessorDataProcessing {
        c: Condition,
        op1: u8,
        crn: u8,
        crd: u8,
        cp_num: u8,
        op2: u8,
        crm: u8,
    },
    CoprocessorRegisterTransfer {
        c: Condition,
        op1: u8,
        l: bool,
        crn: u8,
        crd: u8,
        cp_num: u8,
        op2: u8,
        crm: u8,
    },
    SoftwareInterrupt { c: Condition, swi_number: u32 },
    ChangeProcessorState { imod: u8, m: bool, sbz: u8, a: bool, i: bool, f: bool, mode: u8 },
    SetEndianness { sbz_1: u8, e: bool, sbz_2: u8, sbz_3: u8 },
    CachePreload { x: bool, u: bool, rn: u8, addr_mode: u16 },
    SaveReturnState { p: bool, u: bool, w: bool, sbz_1: u8, sbz_2: bool, mode: u8 },
    ReturnFromException { p: bool, u: bool, w: bool, rn: u8, sbz_1: u8, sbz_2: u8 },
    BranchWithLinkAndChangeToThumb { h: bool, offset: u32 },
}

/// The decoding routines that the ARM instruction table dispatches to.
#[derive(Clone, Copy, PartialEq, Eq, Structural, Debug)]
pub enum ArmDecoder {
    DataProcessingImmediateShift,
    MoveStatusRegisterToRegister,
    MoveRegisterToStatusRegister,
    BranchExchangeThumb,
    BranchExchangeJava,
    BranchLinkExchangeThumb,
    DataProcessingRegisterShift,
    MoveImmedToStatusRegister,
    DataProcessingImmediate,
    LoadStoreImmediateOffset,
    LoadStoreRegisterOffset,
    LoadStoreMultiple,
    Branch,
    Invalid,
}

/// An entry of the ARM decoding table: an instruction word `w` belongs to the
/// entry when `w & mask == pattern`.
pub type InstructionTableEntry = (u32, u32, ArmDecoder);

/// The `len`-bit field of `w` that starts at bit `lo`.
pub open spec fn bits32(w: u32, lo: u32, len: u32) -> u32 {
    (w >> lo) & (((1u64 << len) - 1u64) as u32)
}

/// Extracts the `len`-bit field of `w` that starts at bit `lo`.
pub fn field32(w: u32, lo: u32, len: u32) -> (r: u32)
    requires
        lo < 32,
        1 <= len <= 32 - lo,
    ensures
        r == bits32(w, lo, len),
        len == 1 ==> r < 2,
        len == 2 ==> r < 4,
        len == 3 ==> r < 8,
        len == 4 ==> r < 16,
        len == 5 ==> r < 32,
        len == 7 ==> r < 128,
        len == 8 ==> r < 256,
        len == 11 ==> r < 2048,
        len == 12 ==> r < 4096,
        len == 16 ==> r < 65536,
        len == 24 ==> r < 0x1000000,
{
    assert(1u64 <= (1u64 << len) && (1u64 << len) - 1 <= 0xFFFF_FFFF) by (bit_vector)
        requires
            1 <= len <= 32,
    ;
    let mask: u32 = ((1u64 << len) - 1u64) as u32;
    let r = (w >> lo) & mask;
    assert(
        (len == 1 ==> r < 2) && (len == 2 ==> r < 4) && (len == 3 ==> r < 8) && (len == 4 ==> r < 16)
            && (len == 5 ==> r < 32) && (len == 7 ==> r < 128) && (len == 8 ==> r < 256) && (len
            == 11 ==> r < 2048) && (len == 12 ==> r < 4096) && (len == 16 ==> r < 65536) && (len
            == 24 ==> r < 0x1000000)) by (bit_vector)
        requires
            1 <= len <= 32,
            mask == ((1u64 << len) - 1u64) as u32,
            r == (w >> lo) & mask,
    ;
    r
}

/// The register named by the four-bit field of `w` at `lo`.
fn register_field(w: u32, lo: u32) -> (r: Register)
    requires
        lo <= 28,
    ensures
        r == register_of_index(bits32(w, lo, 4) as int),
{
    let v = field32(w, lo, 4);
    match Register::try_from(v as u8) {
        Ok(r) => r,
        Err(_) => Register::R0,
    }
}

/// The condition named by the top four bits of `w`.
fn condition_field(w: u32) -> (r: Condition)
    ensures
        r == condition_of_code(bits32(w, 28, 4) as int),
{
    let v = field32(w, 28, 4);
    match Condition::try_from(v as u8) {
        Ok(c) => c,
        Err(_) => Condition::AL,
    }
}

/// The data-processing operation named by bits 24 to 21 of `w`.
fn opcode_field(w: u32) -> (r: DataProcessingOpcode)
    ensures
        r == opcode_of_code(bits32(w, 21, 4) as int),
{
    let v = field32(w, 21, 4);
    match DataProcessingOpcode::try_from(v as u8) {
        Ok(o) => o,
        Err(_) => DataProcessingOpcode::AND,
    }
}

/// The shift named by the two-bit field of `w` at `lo`, where an amount of 0
/// with the ROR code means RRX.
pub open spec fn shift_with_rrx(code: u32, amount: u32) -> ShiftType {
    if code == 3 && amount == 0 {
        ShiftType::RRX
    } else {
        shift_of_code(code as int)
    }
}

fn shift_field(code: u32, amount: u32) -> (r: ShiftType)
    requires
        code < 4,
    ensures
        r == shift_with_rrx(code, amount),
{
    if code == 0x3 && amount == 0 {
        ShiftType::RRX
    } else {
        match ShiftType::try_from(code as u8) {
            Ok(t) => t,
            Err(_) => ShiftType::LSL,
        }
    }
}

/// Data processing with an immediate shift: cond, 000, opcode, S, Rn, Rd,
/// shift amount, shift, 0, Rm.
pub open spec fn arm_data_processing_immediate_shift(w: u32) -> Option<ArmInstruction> {
    if bits32(w, 25, 3) != 0 || bits32(w, 4, 1) != 0 {
        None
    } else {
        Some(
            ArmInstruction::DataProcessing {
                c: condition_of_code(bits32(w, 28, 4) as int),
                op: opcode_of_code(bits32(w, 21, 4) as int),
                s: bits32(w, 20, 1) == 1,
                rn: register_of_index(bits32(w, 16, 4) as int),
                rd: register_of_index(bits32(w, 12, 4) as int),
                shifter_operand: DPShifterOperand::ImmediateShift {
                    immed: bits32(w, 7, 5) as u8,
                    shift_type: shift_with_rrx(bits32(w, 5, 2), bits32(w, 7, 5)),
                    rm: register_of_index(bits32(w, 0, 4) as int),
                },
            },
        )
    }
}

/// Data processing with a register shift: cond, 000, opcode, S, Rn, Rd, Rs,
/// 0, shift, 1, Rm.
pub open spec fn arm_data_processing_register_shift(w: u32) -> Option<ArmInstruction> {
    if bits32(w, 25, 3) != 0 || bits32(w, 7, 1) != 0 || bits32(w, 4, 1) != 1 {
        None
    } else {
        Some(
            ArmInstruction::DataProcessing {
                c: condition_of_code(bits32(w, 28, 4) as int),
                op: opcode_of_code(bits32(w, 21, 4) as int),
                s: bits32(w, 20, 1) == 1,
                rn: register_of_index(bits32(w, 16, 4) as int),
                rd: register_of_index(bits32(w, 12, 4) as int),
                shifter_operand: DPShifterOperand::RegisterShift {
                    rs: register_of_index(bits32(w, 8, 4) as int),
                    shift_type: shift_of_code(bits32(w, 5, 2) as int),
                    rm: register_of_index(bits32(w, 0, 4) as int),
                },
            },
        )
    }
}

/// Data processing with an immediate: cond, 001, opcode, S, Rn, Rd, rotate,
/// immediate.
pub open spec fn arm_data_processing_immediate(w: u32) -> Option<ArmInstruction> {
    if bits32(w, 25, 3) != 1 {
        None
    } else {
        Some(
            ArmInstruction::DataProcessing {
                c: condition_of_code(bits32(w, 28, 4) as int),
                op: opcode_of_code(bits32(w, 21, 4) as int),
                s: bits32(w, 20, 1) == 1,
                rn: register_of_index(bits32(w, 16, 4) as int),
                rd: register_of_index(bits32(w, 12, 4) as int),
                shifter_operand: DPShifterOperand::Immediate {
                    rotate: bits32(w, 8, 4) as u8,
                    immed: bits32(w, 0, 8) as u16,
                },
            },
        )
    }
}

/// Load/store with an immediate offset: cond, 010, P, U, B, W, L, Rn, Rd,
/// offset.
pub open spec fn arm_load_store_immediate_offset(w: u32) -> Option<ArmInstruction> {
    if bits32(w, 25, 3) != 2 {
        None
    } else {
        Some(
            ArmInstruction::LoadStore {
                c: condition_of_code(bits32(w, 28, 4) as int),
                pre_indexed: bits32(w, 24, 1) == 1,
                add_offset: bits32(w, 23, 1) == 1,
                width: if bits32(w, 22, 1) == 1 {
                    BusWidth::Byte
                } else {
                    BusWidth::Word
                },
                w: bits32(w, 21, 1) == 1,
                load: bits32(w, 20, 1) == 1,
                rn: register_of_index(bits32(w, 16, 4) as int),
                rd: register_of_index(bits32(w, 12, 4) as int),
                shifter_operand: LSShifterOperand::Immediate { immed: bits32(w, 0, 12) as u16 },
            },
        )
    }
}

/// Load/store with a register offset: cond, 011, P, U, B, W, L, Rn, Rd,
/// shift amount, shift, 0, Rm.
pub open spec fn arm_load_store_register_offset(w: u32) -> Option<ArmInstruction> {
    if bits32(w, 25, 3) != 3 || bits32(w, 4, 1) != 0 {
        None
    } else {
        Some(
            ArmInstruction::LoadStore {
                c: condition_of_code(bits32(w, 28, 4) as int),
                pre_indexed: bits32(w, 24, 1) == 1,
                add_offset: bits32(w, 23, 1) == 1,
                width: if bits32(w, 22, 1) == 1 {
                    BusWidth::Byte
                } else {
                    BusWidth::Word
                },
                w: bits32(w, 21, 1) == 1,
                load: bits32(w, 20, 1) == 1,
                rn: register_of_index(bits32(w, 16, 4) as int),
                rd: register_of_index(bits32(w, 12, 4) as int),
                shifter_operand: LSShifterOperand::ImmediateShift {
                    immed: bits32(w, 7, 5) as u8,
                    shift_type: shift_with_rrx(bits32(w, 5, 2), bits32(w, 7, 5)),
                    rm: register_of_index(bits32(w, 0, 4) as int),
                },
            },
        )
    }
}

/// Load/store multiple: cond, 100, P, U, S, W, L, Rn, register list.
pub open spec fn arm_load_store_multiple(w: u32) -> Option<ArmInstruction> {
    if bits32(w, 25, 3) != 4 {
        None
    } else {
        Some(
            ArmInstruction::LoadStoreMultiple {
                c: condition_of_code(bits32(w, 28, 4) as int),
                exclude_first_word: bits32(w, 24, 1) == 1,
                upwards: bits32(w, 23, 1) == 1,
                update_base: bits32(w, 21, 1) == 1,
                load_usermode: bits32(w, 22, 1) == 1,
                load: bits32(w, 20, 1) == 1,
                rn: register_of_index(bits32(w, 16, 4) as int),
                register_list: RegisterList { bits: bits32(w, 0, 16) as u16 },
            },
        )
    }
}

/// Branch and branch with link: cond, 101, L, 24-bit word offset (the byte
/// offset sign-extended from 26 bits).
pub open spec fn arm_branch(w: u32) -> Option<ArmInstruction> {
    if bits32(w, 25, 3) != 5 {
        None
    } else {
        let offset = sign_extend_spec((bits32(w, 0, 24) << 2u32) as u32, 26);
        let c = condition_of_code(bits32(w, 28, 4) as int);
        if bits32(w, 24, 1) == 1 {
            Some(
                ArmInstruction::Branch {
                    c,
                    op: BranchOperation::BranchLinkImmed { offset, lr_correct: 0 },
                },
            )
        } else {
            Some(ArmInstruction::Branch { c, op: BranchOperation::BranchImmed { offset } })
        }
    }
}

/// MRS: cond, 00010, R, 00, (4 bits), Rd, (4 bits), 0000, (4 bits).
pub open spec fn arm_move_status_register_to_register(w: u32) -> Option<ArmInstruction> {
    if bits32(w, 23, 5) != 2 || bits32(w, 20, 2) != 0 || bits32(w, 4, 4) != 0 {
        None
    } else {
        Some(
            ArmInstruction::LoadStoreStatus {
                c: condition_of_code(bits32(w, 28, 4) as int),
                r: bits32(w, 22, 1) == 1,
                op: LoadStoreStatusOperation::StatusRegisterToRegister {
                    rd: register_of_index(bits32(w, 12, 4) as int),
                },
            },
        )
    }
}

/// MSR from a register: cond, 00010, R, 10, mask, (8 bits), 0000, Rm.
pub open spec fn arm_move_register_to_status_register(w: u32) -> Option<ArmInstruction> {
    if bits32(w, 23, 5) != 2 || bits32(w, 20, 2) != 2 || bits32(w, 4, 4) != 0 {
        None
    } else {
        Some(
            ArmInstruction::LoadStoreStatus {
                c: condition_of_code(bits32(w, 28, 4) as int),
                r: bits32(w, 22, 1) == 1,
                op: LoadStoreStatusOperation::RegisterToStatusRegister {
                    mask: MSRMask { bits: bits32(w, 16, 4) as u8 },
                    rm: register_of_index(bits32(w, 0, 4) as int),
                },
            },
        )
    }
}

/// MSR from an immediate, as this routine reads it: cond, 00010, R, 10, mask,
/// (4 bits), rotate, immediate.
pub open spec fn arm_move_immed_to_status_register(w: u32) -> Option<ArmInstruction> {
    if bits32(w, 23, 5) != 2 || bits32(w, 20, 2) != 2 {
        None
    } else {
        Some(
            ArmInstruction::LoadStoreStatus {
                c: condition_of_code(bits32(w, 28, 4) as int),
                r: bits32(w, 22, 1) == 1,
                op: LoadStoreStatusOperation::ImmediateToStatusRegister {
                    mask: MSRMask { bits: bits32(w, 16, 4) as u8 },
                    rot_imm: bits32(w, 8, 4) as u8,
                    immed: bits32(w, 0, 8) as u8,
                },
            },
        )
    }
}

/// The register of a branch-and-exchange form: cond, 00010010, (12 bits),
/// 0001, Rm.
pub open spec fn arm_branch_exchange_register(w: u32) -> Option<Register> {
    if bits32(w, 20, 8) != 0x12 || bits32(w, 4, 4) != 1 {
        None
    } else {
        Some(register_of_index(bits32(w, 0, 4) as int))
    }
}

/// What each ARM decoding routine makes of an instruction word; `None` where
/// its fixed bits do not match.
pub open spec fn arm_decode(d: ArmDecoder, w: u32) -> Option<ArmInstruction> {
    let c = condition_of_code(bits32(w, 28, 4) as int);
    match d {
        ArmDecoder::DataProcessingImmediateShift => arm_data_processing_immediate_shift(w),
        ArmDecoder::MoveStatusRegisterToRegister => arm_move_status_register_to_register(w),
        ArmDecoder::MoveRegisterToStatusRegister => arm_move_register_to_status_register(w),
        ArmDecoder::BranchExchangeThumb => match arm_branch_exchange_register(w) {
            Some(rm) => Some(
                ArmInstruction::Branch { c, op: BranchOperation::BranchExchangeThumb { rm } },
            ),
            None => None,
        },
        ArmDecoder::BranchExchangeJava => match arm_branch_exchange_register(w) {
            Some(rm) => Some(
                ArmInstruction::Branch { c, op: BranchOperation::BranchExchangeJava { rm } },
            ),
            None => None,
        },
        ArmDecoder::BranchLinkExchangeThumb => match arm_branch_exchange_register(w) {
            Some(rm) => Some(
                ArmInstruction::Branch { c, op: BranchOperation::BranchExchangeLinkThumb { rm } },
            ),
            None => None,
        },
        ArmDecoder::DataProcessingRegisterShift => arm_data_processing_register_shift(w),
        ArmDecoder::MoveImmedToStatusRegister => arm_move_immed_to_status_register(w),
        ArmDecoder::DataProcessingImmediate => arm_data_processing_immediate(w),
        ArmDecoder::LoadStoreImmediateOffset => arm_load_store_immediate_offset(w),
        ArmDecoder::LoadStoreRegisterOffset => arm_load_store_register_offset(w),
        ArmDecoder::LoadStoreMultiple => arm_load_store_multiple(w),
        ArmDecoder::Branch => arm_branch(w),
        ArmDecoder::Invalid => None,
    }
}

/// Decoding through a table: the routine of the first entry that the word
/// matches decides; no matching entry decodes to `None`.
pub open spec fn decode_with_table(table: Seq<InstructionTableEntry>, w: u32) -> Option<
    ArmInstruction,
>
    decreases table.len(),
{
    if table.len() == 0 {
        None
    } else if w & table[0].0 == table[0].1 {
        arm_decode(table[0].2, w)
    } else {
        decode_with_table(table.drop_first(), w)
    }
}

impl GbaSystem {
    fn decode_data_processing_immediate_shift(inst: u32) -> (r: Option<ArmInstruction>)
        ensures
            r == arm_data_processing_immediate_shift(inst),
    {
        if field32(inst, 25, 3) != 0 || field32(inst, 4, 1) != 0 {
            return None;
        }
        let shift_amount = field32(inst, 7, 5);
        let shift = field32(inst, 5, 2);
        Some(
            ArmInstruction::DataProcessing {
                c: condition_field(inst),
                op: opcode_field(inst),
                s: field32(inst, 20, 1) == 1,
                rn: register_field(inst, 16),
                rd: register_field(inst, 12),
                shifter_operand: DPShifterOperand::ImmediateShift {
                    immed: shift_amount as u8,
                    shift_type: shift_field(shift, shift_amount),
                    rm: register_field(inst, 0),
                },
            },
        )
    }

    fn decode_data_processing_register_shift(inst: u32) -> (r: Option<ArmInstruction>)
        ensures
            r == arm_data_processing_register_shift(inst),
    {
        if field32(inst, 25, 3) != 0 || field32(inst, 7, 1) != 0 || field32(inst, 4, 1) != 1 {
            return None;
        }
        let shift = field32(inst, 5, 2);
        let shift_type = match ShiftType::try_from(shift as u8) {
            Ok(t) => t,
            Err(_) => ShiftType::LSL,
        };
        Some(
            ArmInstruction::DataProcessing {
                c: condition_field(inst),
                op: opcode_field(inst),
                s: field32(inst, 20, 1) == 1,
                rn: register_field(inst, 16),
                rd: register_field(inst, 12),
                shifter_operand: DPShifterOperand::RegisterShift {
                    rs: register_field(inst, 8),
                    shift_type,
                    rm: register_field(inst, 0),
                },
            },
        )
    }

    fn decode_data_processing_immediate(inst: u32) -> (r: Option<ArmInstruction>)
        ensures
            r == arm_data_processing_immediate(inst),
    {
        if field32(inst, 25, 3) != 1 {
            return None;
        }
        Some(
            ArmInstruction::DataProcessing {
                c: condition_field(inst),
                op: opcode_field(inst),
                s: field32(inst, 20, 1) == 1,
                rn: register_field(inst, 16),
                rd: register_field(inst, 12),
                shifter_operand: DPShifterOperand::Immediate {
                    rotate: field32(inst, 8, 4) as u8,
                    immed: field32(inst, 0, 8) as u16,
                },
            },
        )
    }

    fn decode_load_store_immediate_offset(inst: u32) -> (r: Option<ArmInstruction>)
        ensures
            r == arm_load_store_immediate_offset(inst),
    {
        if field32(inst, 25, 3) != 2 {
            return None;
        }
        Some(
            ArmInstruction::LoadStore {
                c: condition_field(inst),
                pre_indexed: field32(inst, 24, 1) == 1,
                add_offset: field32(inst, 23, 1) == 1,
                width: if field32(inst, 22, 1) == 1 {
                    BusWidth::Byte
                } else {
                    BusWidth::Word
                },
                w: field32(inst, 21, 1) == 1,
                load: field32(inst, 20, 1) == 1,
                rn: register_field(inst, 16),
                rd: register_field(inst, 12),
                shifter_operand: LSShifterOperand::Immediate { immed: field32(inst, 0, 12) as u16 },
            },
        )
    }

    fn decode_load_store_register_offset(inst: u32) -> (r: Option<ArmInstruction>)
        ensures
            r == arm_load_store_register_offset(inst),
    {
        if field32(inst, 25, 3) != 3 || field32(inst, 4, 1) != 0 {
            return None;
        }
        let shift_amount = field32(inst, 7, 5);
        let shift = field32(inst, 5, 2);
        Some(
            ArmInstruction::LoadStore {
                c: condition_field(inst),
                pre_indexed: field32(inst, 24, 1) == 1,
                add_offset: field32(inst, 23, 1) == 1,
                width: if field32(inst, 22, 1) == 1 {
                    BusWidth::Byte
                } else {
                    BusWidth::Word
                },
                w: field32(inst, 21, 1) == 1,
                load: field32(inst, 20, 1) == 1,
                rn: register_field(inst, 16),
                rd: register_field(inst, 12),
                shifter_operand: LSShifterOperand::ImmediateShift {
                    immed: shift_amount as u8,
                    shift_type: shift_field(shift, shift_amount),
                    rm: register_field(inst, 0),
                },
            },
        )
    }

    fn decode_load_store_multiple(inst: u32) -> (r: Option<ArmInstruction>)
        ensures
            r == arm_load_store_multiple(inst),
    {
        if field32(inst, 25, 3) != 4 {
            return None;
        }
        let register_list = match RegisterList::from_bits(field32(inst, 0, 16) as u16) {
            Some(l) => l,
            None => RegisterList { bits: 0 },
        };
        Some(
            ArmInstruction::LoadStoreMultiple {
                c: condition_field(inst),
                exclude_first_word: field32(inst, 24, 1) == 1,
                upwards: field32(inst, 23, 1) == 1,
                update_base: field32(inst, 21, 1) == 1,
                load_usermode: field32(inst, 22, 1) == 1,
                load: field32(inst, 20, 1) == 1,
                rn: register_field(inst, 16),
                register_list,
            },
        )
    }

    fn decode_branch(inst: u32) -> (r: Option<ArmInstruction>)
        ensures
            r == arm_branch(inst),
    {
        if field32(inst, 25, 3) != 5 {
            return None;
        }
        let offset = field32(inst, 0, 24);
        // Sign extend to 32 bits and shift left by two
        let offset_adr = sign_extend(offset << 2u32, 26);
        let c = condition_field(inst);
        if field32(inst, 24, 1) == 1 {
            Some(
                ArmInstruction::Branch {
                    c,
                    op: BranchOperation::BranchLinkImmed { offset: offset_adr, lr_correct: 0 },
                },
            )
        } else {
            Some(ArmInstruction::Branch { c, op: BranchOperation::BranchImmed { offset: offset_adr } })
        }
    }

    fn decode_move_status_register_to_register(inst: u32) -> (r: Option<ArmInstruction>)
        ensures
            r == arm_move_status_register_to_register(inst),
    {
        if field32(inst, 23, 5) != 2 || field32(inst, 20, 2) != 0 || field32(inst, 4, 4) != 0 {
            return None;
        }
        Some(
            ArmInstruction::LoadStoreStatus {
                c: condition_field(inst),
                r: field32(inst, 22, 1) == 1,
                op: LoadStoreStatusOperation::StatusRegisterToRegister {
                    rd: register_field(inst, 12),
                },
            },
        )
    }

    fn decode_move_register_to_status_register(inst: u32) -> (r: Option<ArmInstruction>)
        ensures
            r == arm_move_register_to_status_register(inst),
    {
        if field32(inst, 23, 5) != 2 || field32(inst, 20, 2) != 2 || field32(inst, 4, 4) != 0 {
            return None;
        }
        let mask = match MSRMask::from_bits(field32(inst, 16, 4) as u8) {
            Some(m) => m,
            None => MSRMask { bits: 0 },
        };
        Some(
            ArmInstruction::LoadStoreStatus {
                c: condition_field(inst),
                r: field32(inst, 22, 1) == 1,
                op: LoadStoreStatusOperation::RegisterToStatusRegister {
                    mask,
                    rm: register_field(inst, 0),
                },
            },
        )
    }

    fn decode_move_immed_to_status_register(inst: u32) -> (r: Option<ArmInstruction>)
        ensures
            r == arm_move_immed_to_status_register(inst),
    {
        if field32(inst, 23, 5) != 2 || field32(inst, 20, 2) != 2 {
            return None;
        }
        let mask = match MSRMask::from_bits(field32(inst, 16, 4) as u8) {
            Some(m) => m,
            None => MSRMask { bits: 0 },
        };
        Some(
            ArmInstruction::LoadStoreStatus {
                c: condition_field(inst),
                r: field32(inst, 22, 1) == 1,
                op: LoadStoreStatusOperation::ImmediateToStatusRegister {
                    mask,
                    rot_imm: field32(inst, 8, 4) as u8,
                    immed: field32(inst, 0, 8) as u8,
                },
            },
        )
    }

    fn branch_exchange_register(inst: u32) -> (r: Option<Register>)
        ensures
            r == arm_branch_exchange_register(inst),
    {
        if field32(inst, 20, 8) != 0x12 || field32(inst, 4, 4) != 1 {
            return None;
        }
        Some(register_field(inst, 0))
    }

    fn decode_branch_exchange_thumb(inst: u32) -> (r: Option<ArmInstruction>)
        ensures
            r == arm_decode(ArmDecoder::BranchExchangeThumb, inst),
    {
        match GbaSystem::branch_exchange_register(inst) {
            Some(rm) => Some(
                ArmInstruction::Branch {
                    c: condition_field(inst),
                    op: BranchOperation::BranchExchangeThumb { rm },
                },
            ),
            None => None,
        }
    }

    fn decode_branch_exchange_java(inst: u32) -> (r: Option<ArmInstruction>)
        ensures
            r == arm_decode(ArmDecoder::BranchExchangeJava, inst),
    {
        match GbaSystem::branch_exchange_register(inst) {
            Some(rm) => Some(
                ArmInstruction::Branch {
                    c: condition_field(inst),
                    op: BranchOperation::BranchExchangeJava { rm },
                },
            ),
            None => None,
        }
    }

    fn decode_branch_link_exchange_thumb(inst: u32) -> (r: Option<ArmInstruction>)
        ensures
            r == arm_decode(ArmDecoder::BranchLinkExchangeThumb, inst),
    {
        match GbaSystem::branch_exchange_register(inst) {
            Some(rm) => Some(
                ArmInstruction::Branch {
                    c: condition_field(inst),
                    op: BranchOperation::BranchExchangeLinkThumb { rm },
                },
            ),
            None => None,
        }
    }

    fn decode_invalid(inst: u32) -> (r: Option<ArmInstruction>)
        ensures
            r is None,
    {
        None
    }

    /// Runs one decoding routine on an instruction word.
    pub fn run_arm_decoder(d: ArmDecoder, inst: u32) -> (r: Option<ArmInstruction>)
        ensures
            r == arm_decode(d, inst),
    {
        match d {
            ArmDecoder::DataProcessingImmediateShift => GbaSystem::decode_data_processing_immediate_shift(inst),
            ArmDecoder::MoveStatusRegisterToRegister => GbaSystem::decode_move_status_register_to_register(inst),
            ArmDecoder::MoveRegisterToStatusRegister => GbaSystem::decode_move_register_to_status_register(inst),
            ArmDecoder::BranchExchangeThumb => GbaSystem::decode_branch_exchange_thumb(inst),
            ArmDecoder::BranchExchangeJava => GbaSystem::decode_branch_exchange_java(inst),
            ArmDecoder::BranchLinkExchangeThumb => GbaSystem::decode_branch_link_exchange_thumb(inst),
            ArmDecoder::DataProcessingRegisterShift => GbaSystem::decode_data_processing_register_shift(inst),
            ArmDecoder::MoveImmedToStatusRegister => GbaSystem::decode_move_immed_to_status_register(inst),
            ArmDecoder::DataProcessingImmediate => GbaSystem::decode_data_processing_immediate(inst),
            ArmDecoder::LoadStoreImmediateOffset => GbaSystem::decode_load_store_immediate_offset(inst),
            ArmDecoder::LoadStoreRegisterOffset => GbaSystem::decode_load_store_register_offset(inst),
            ArmDecoder::LoadStoreMultiple => GbaSystem::decode_load_store_multiple(inst),
            ArmDecoder::Branch => GbaSystem::decode_branch(inst),
            ArmDecoder::Invalid => GbaSystem::decode_invalid(inst),
        }
    }

    /// Decodes an ARM instruction word through the ARM decoding table: the
    /// first entry that the word matches decides, and `None` means that no
    /// entry matched or that its routine refused the word.
    pub fn decode_instruction(&self, inst: u32) -> (r: Option<ArmInstruction>)
        ensures
            r == decode_with_table(self@.arm_table, inst),
    {
        let mut i: usize = 0;
        assert(self@.arm_table.subrange(0, self@.arm_table.len() as int) =~= self@.arm_table);
        while i < self.instruction_table.len()
            invariant
                i <= self.instruction_table@.len(),
                decode_with_table(self@.arm_table, inst) == decode_with_table(
                    self@.arm_table.subrange(i as int, self@.arm_table.len() as int),
                    inst,
                ),
            decreases self.instruction_table@.len() - i,
        {
            let e = self.instruction_table[i];
            let ghost rest = self@.arm_table.subrange(i as int, self@.arm_table.len() as int);
            assert(rest[0] == e);
            assert(rest.drop_first() =~= self@.arm_table.subrange(
                i + 1,
                self@.arm_table.len() as int,
            ));
            if inst & e.0 == e.1 {
                return GbaSystem::run_arm_decoder(e.2, inst);
            }
            i = i + 1;
        }
        None
    }
}

/// The number of set bits of a word.
pub fn count_ones32(x: u32) -> (r: u32)
    ensures
        r == popcount(x as nat),
        r <= 32,
{
    let mut y: u32 = x;
    let mut c: u32 = 0;
    let mut steps: u32 = 0;
    proof {
        vstd::arithmetic::power2::lemma2_to64();
    }
    while y != 0
        invariant
            c + popcount(y as nat) == popcount(x as nat),
            steps <= 32,
            c <= steps,
            y as nat <= 0xFFFF_FFFFnat / vstd::arithmetic::power2::pow2(steps as nat),
        decreases y,
    {
        assert(y & 1 == y % 2) by (bit_vector);
        assert(y >> 1 == y / 2) by (bit_vector);
        proof {
            vstd::arithmetic::power2::lemma_pow2_pos(steps as nat);
            vstd::arithmetic::div_mod::lemma_div_is_ordered(
                y as int,
                0xFFFF_FFFFint / vstd::arithmetic::power2::pow2(steps as nat) as int,
                2,
            );
            vstd::arithmetic::power2::lemma_pow2_unfold((steps + 1) as nat);
            vstd::arithmetic::div_mod::lemma_div_denominator(
                0xFFFF_FFFF,
                vstd::arithmetic::power2::pow2(steps as nat) as int,
                2,
            );
            if steps == 32 {
                vstd::arithmetic::power2::lemma2_to64();
                assert(vstd::arithmetic::power2::pow2(32) == 0x1_0000_0000);
                assert(0xFFFF_FFFFnat / 0x1_0000_0000nat == 0) by (nonlinear_arith);
                assert(false);
            }
        }
        c = c + (y & 1);
        y = y >> 1;
        steps = steps + 1;
    }
    c
}

/// An entry of a decoding table, ordered by how many bits its mask fixes.
pub trait DecodeTableEntry {
    /// The number of bits that the entry's mask fixes.
    spec fn specificity_spec(&self) -> nat;

    fn specificity(&self) -> (r: u32)
        ensures
            r == self.specificity_spec(),
    ;
}

impl DecodeTableEntry for (u32, u32, ArmDecoder) {
    open spec fn specificity_spec(&self) -> nat {
        popcount(self.0 as nat)
    }

    fn specificity(&self) -> (r: u32) {
        count_ones32(self.0)
    }
}

/// Where an entry of specificity `k` goes in a table sorted from most to
/// least specific: after every entry at least as specific.
pub open spec fn insert_position<E: DecodeTableEntry>(s: Seq<E>, k: nat) -> nat
    decreases s.len(),
{
    if s.len() == 0 {
        0
    } else if s[0].specificity_spec() < k {
        0
    } else {
        1 + insert_position(s.drop_first(), k)
    }
}

/// A table sorted from most to least specific mask, entries of equal
/// specificity keeping their order (an insertion sort).
pub open spec fn sort_by_specificity<E: DecodeTableEntry>(s: Seq<E>) -> Seq<E>
    decreases s.len(),
{
    if s.len() == 0 {
        s
    } else {
        let t = sort_by_specificity(s.drop_last());
        t.insert(insert_position(t, s.last().specificity_spec()) as int, s.last())
    }
}

/// A table is sorted from most to least specific.
pub open spec fn sorted_by_specificity<E: DecodeTableEntry>(s: Seq<E>) -> bool {
    forall|i: int, j: int|
        0 <= i < j < s.len() ==> s[i].specificity_spec() >= s[j].specificity_spec()
}

proof fn lemma_insert_position<E: DecodeTableEntry>(s: Seq<E>, k: nat)
    requires
        sorted_by_specificity(s),
    ensures
        insert_position(s, k) <= s.len(),
        forall|j: int| 0 <= j < insert_position(s, k) ==> s[j].specificity_spec() >= k,
        forall|j: int| insert_position(s, k) <= j < s.len() ==> s[j].specificity_spec() < k,
    decreases s.len(),
{
    if s.len() > 0 && s[0].specificity_spec() >= k {
        let t = s.drop_first();
        assert(sorted_by_specificity(t)) by {
            assert forall|i: int, j: int| 0 <= i < j < t.len() implies t[i].specificity_spec()
                >= t[j].specificity_spec() by {
                assert(t[i] == s[i + 1] && t[j] == s[j + 1]);
            }
        }
        lemma_insert_position(t, k);
        assert forall|j: int| 0 <= j < insert_position(s, k) implies s[j].specificity_spec() >= k by {
            if j > 0 {
                assert(s[j] == t[j - 1]);
            }
        }
        assert forall|j: int| insert_position(s, k) <= j < s.len() implies s[j].specificity_spec()
            < k by {
            assert(s[j] == t[j - 1]);
        }
    }
}

/// The sorted table is sorted from most to least specific mask and holds
/// exactly the entries of the table it came from.
pub proof fn lemma_sort_by_specificity<E: DecodeTableEntry>(s: Seq<E>)
    ensures
        sorted_by_specificity(sort_by_specificity(s)),
        sort_by_specificity(s).len() == s.len(),
        sort_by_specificity(s).to_multiset() == s.to_multiset(),
    decreases s.len(),
{
    if s.len() > 0 {
        let t = sort_by_specificity(s.drop_last());
        lemma_sort_by_specificity(s.drop_last());
        let k = s.last().specificity_spec();
        lemma_insert_position(t, k);
        let p = insert_position(t, k) as int;
        let u = t.insert(p, s.last());
        vstd::seq_lib::to_multiset_insert(t, p, s.last());
        assert(s.drop_last().push(s.last()) =~= s);
        s.drop_last().to_multiset_ensures();
        assert forall|i: int, j: int| 0 <= i < j < u.len() implies u[i].specificity_spec()
            >= u[j].specificity_spec() by {
            if j < p {
            } else if j == p {
                assert(u[i] == t[i]);
            } else if i < p {
                assert(u[i] == t[i] && u[j] == t[j - 1]);
            } else if i == p {
                assert(u[j] == t[j - 1]);
            } else {
                assert(u[i] == t[i - 1] && u[j] == t[j - 1]);
            }
        }
    }
}

/// Sorts a decoding table from most to least specific mask; entries of equal
/// specificity keep their order.
pub fn sort_table<E: DecodeTableEntry + Copy>(entries: &Vec<E>) -> (t: Vec<E>)
    ensures
        t@ == sort_by_specificity(entries@),
{
    let mut t: Vec<E> = Vec::new();
    let mut i: usize = 0;
    assert(entries@.subrange(0, 0) =~= Seq::<E>::empty());
    while i < entries.len()
        invariant
            i <= entries@.len(),
            t@ == sort_by_specificity(entries@.subrange(0, i as int)),
        decreases entries@.len() - i,
    {
        let e = entries[i];
        let k = e.specificity();
        let mut p: usize = 0;
        assert(t@.subrange(0, t@.len() as int) =~= t@);
        while p < t.len() && t[p].specificity() >= k
            invariant
                p <= t@.len(),
                insert_position(t@, k as nat) == p + insert_position(
                    t@.subrange(p as int, t@.len() as int),
                    k as nat,
                ),
            decreases t@.len() - p,
        {
            let ghost rest = t@.subrange(p as int, t@.len() as int);
            assert(rest.drop_first() =~= t@.subrange(p + 1, t@.len() as int));
            p = p + 1;
        }
        proof {
            let rest = t@.subrange(p as int, t@.len() as int);
            assert(insert_position(rest, k as nat) == 0);
            let prefix = entries@.subrange(0, i + 1);
            assert(prefix.drop_last() =~= entries@.subrange(0, i as int));
            assert(prefix.last() == e);
        }
        t.insert(p, e);
        i = i + 1;
    }
    assert(entries@.subrange(0, entries@.len() as int) =~= entries@);
    t
}

/// The ARM decoding table, in the order in which it is written.
pub open spec fn arm_table_entries() -> Seq<InstructionTableEntry> {
    seq![
        (0x0e000010u32, 0x00000000u32, ArmDecoder::DataProcessingImmediateShift),
        (0x0fb000f0u32, 0x01000000u32, ArmDecoder::MoveStatusRegisterToRegister),
        (0x0fb000f0u32, 0x01200000u32, ArmDecoder::MoveRegisterToStatusRegister),
        (0x0ff000f0u32, 0x01200010u32, ArmDecoder::BranchExchangeThumb),
        (0x0ff000f0u32, 0x01200010u32, ArmDecoder::BranchExchangeJava),
        (0x0ff000f0u32, 0x01200030u32, ArmDecoder::BranchLinkExchangeThumb),
        (0x0e000090u32, 0x00000010u32, ArmDecoder::DataProcessingRegisterShift),
        (0x0fb00000u32, 0x03200000u32, ArmDecoder::MoveImmedToStatusRegister),
        (0x0f900090u32, 0x01000010u32, ArmDecoder::Invalid),
        (0x0e000090u32, 0x00000090u32, ArmDecoder::Invalid),
        (0x0e000000u32, 0x02000000u32, ArmDecoder::DataProcessingImmediate),
        (0x0fb00000u32, 0x03000000u32, ArmDecoder::Invalid),
        (0x0fb00000u32, 0x03200000u32, ArmDecoder::Invalid),
        (0x0e000000u32, 0x04000000u32, ArmDecoder::LoadStoreImmediateOffset),
        (0x0e000010u32, 0x06000000u32, ArmDecoder::LoadStoreRegisterOffset),
        (0x0e000010u32, 0x06000010u32, ArmDecoder::Invalid),
        (0x0ff000f0u32, 0x07f000f0u32, ArmDecoder::Invalid),
        (0x0e000000u32, 0x08000000u32, ArmDecoder::LoadStoreMultiple),
        (0x0e000000u32, 0x0a000000u32, ArmDecoder::Branch),
        (0x0e000000u32, 0x0c000000u32, ArmDecoder::Invalid),
        (0x0f000010u32, 0x0e000000u32, ArmDecoder::Invalid),
        (0x0f000010u32, 0x0e000010u32, ArmDecoder::Invalid),
        (0x0f000000u32, 0x0f000000u32, ArmDecoder::Invalid),
        (0xfff10020u32, 0xf1000000u32, ArmDecoder::Invalid),
        (0xffff00f0u32, 0xf1010000u32, ArmDecoder::Invalid),
        (0xfd70f000u32, 0xf550f000u32, ArmDecoder::Invalid),
        (0xfe5f0f00u32, 0xf84d0500u32, ArmDecoder::Invalid),
        (0xfe500f00u32, 0xf8100a00u32, ArmDecoder::Invalid),
        (0xfe000000u32, 0xfa000000u32, ArmDecoder::Invalid),
        (0xffe00000u32, 0xfc400000u32, ArmDecoder::Invalid),
        (0xff000010u32, 0xfe000010u32, ArmDecoder::Invalid),
        (0xff000000u32, 0xff000000u32, ArmDecoder::Invalid)
    ]
}

/// The ARM decoding table, in the order in which it is written.
pub fn instruction_table_entries() -> (t: Vec<InstructionTableEntry>)
    ensures
        t@ == arm_table_entries(),
{
    let t = vec![
        (0x0e000010u32, 0x00000000u32, ArmDecoder::DataProcessingImmediateShift),
        (0x0fb000f0u32, 0x01000000u32, ArmDecoder::MoveStatusRegisterToRegister),
        (0x0fb000f0u32, 0x01200000u32, ArmDecoder::MoveRegisterToStatusRegister),
        (0x0ff000f0u32, 0x01200010u32, ArmDecoder::BranchExchangeThumb),
        (0x0ff000f0u32, 0x01200010u32, ArmDecoder::BranchExchangeJava),
        (0x0ff000f0u32, 0x01200030u32, ArmDecoder::BranchLinkExchangeThumb),
        (0x0e000090u32, 0x00000010u32, ArmDecoder::DataProcessingRegisterShift),
        (0x0fb00000u32, 0x03200000u32, ArmDecoder::MoveImmedToStatusRegister),
        (0x0f900090u32, 0x01000010u32, ArmDecoder::Invalid),
        (0x0e000090u32, 0x00000090u32, ArmDecoder::Invalid),
        (0x0e000000u32, 0x02000000u32, ArmDecoder::DataProcessingImmediate),
        (0x0fb00000u32, 0x03000000u32, ArmDecoder::Invalid),
        (0x0fb00000u32, 0x03200000u32, ArmDecoder::Invalid),
        (0x0e000000u32, 0x04000000u32, ArmDecoder::LoadStoreImmediateOffset),
        (0x0e000010u32, 0x06000000u32, ArmDecoder::LoadStoreRegisterOffset),
        (0x0e000010u32, 0x06000010u32, ArmDecoder::Invalid),
        (0x0ff000f0u32, 0x07f000f0u32, ArmDecoder::Invalid),
        (0x0e000000u32, 0x08000000u32, ArmDecoder::LoadStoreMultiple),
        (0x0e000000u32, 0x0a000000u32, ArmDecoder::Branch),
        (0x0e000000u32, 0x0c000000u32, ArmDecoder::Invalid),
        (0x0f000010u32, 0x0e000000u32, ArmDecoder::Invalid),
        (0x0f000010u32, 0x0e000010u32, ArmDecoder::Invalid),
        (0x0f000000u32, 0x0f000000u32, ArmDecoder::Invalid),
        (0xfff10020u32, 0xf1000000u32, ArmDecoder::Invalid),
        (0xffff00f0u32, 0xf1010000u32, ArmDecoder::Invalid),
        (0xfd70f000u32, 0xf550f000u32, ArmDecoder::Invalid),
        (0xfe5f0f00u32, 0xf84d0500u32, ArmDecoder::Invalid),
        (0xfe500f00u32, 0xf8100a00u32, ArmDecoder::Invalid),
        (0xfe000000u32, 0xfa000000u32, ArmDecoder::Invalid),
        (0xffe00000u32, 0xfc400000u32, ArmDecoder::Invalid),
        (0xff000010u32, 0xfe000010u32, ArmDecoder::Invalid),
        (0xff000000u32, 0xff000000u32, ArmDecoder::Invalid)
    ];
    assert(t@ =~= arm_table_entries());
    t
}

/// The ARM decoding table sorted from most to least specific mask.
pub fn generate_arm_instruction_table() -> (t: Vec<InstructionTableEntry>)
    ensures
        t@ == sort_by_specificity(arm_table_entries()),
{
    let entries = instruction_table_entries();
    sort_table(&entries)
}

/// The fields of an ARM word that the decoders read, as shifts and masks.
proof fn lemma_arm_fields(w: u32)
    ensures
        bits32(w, 28, 4) == w >> 28,
        bits32(w, 25, 3) == (w >> 25) & 7,
        bits32(w, 24, 1) == (w >> 24) & 1,
        bits32(w, 23, 1) == (w >> 23) & 1,
        bits32(w, 22, 1) == (w >> 22) & 1,
        bits32(w, 21, 4) == (w >> 21) & 0xF,
        bits32(w, 21, 1) == (w >> 21) & 1,
        bits32(w, 20, 1) == (w >> 20) & 1,
        bits32(w, 16, 4) == (w >> 16) & 0xF,
        bits32(w, 12, 4) == (w >> 12) & 0xF,
        bits32(w, 8, 4) == (w >> 8) & 0xF,
        bits32(w, 7, 5) == (w >> 7) & 0x1F,
        bits32(w, 7, 1) == (w >> 7) & 1,
        bits32(w, 5, 2) == (w >> 5) & 3,
        bits32(w, 4, 1) == (w >> 4) & 1,
        bits32(w, 0, 4) == w & 0xF,
        bits32(w, 0, 8) == w & 0xFF,
        bits32(w, 0, 12) == w & 0xFFF,
        bits32(w, 0, 16) == w & 0xFFFF,
        bits32(w, 0, 24) == w & 0xFFFFFF,
        (w >> 28) < 16,
        (w >> 21) & 0xF < 16,
        (w >> 16) & 0xF < 16,
        (w >> 12) & 0xF < 16,
        (w >> 8) & 0xF < 16,
        w & 0xF < 16,
        (w >> 7) & 0x1F < 32,
        w & 0xFF < 256,
        w & 0xFFF < 4096,
        w & 0xFFFF < 65536,
        bits32(w, 23, 5) == (w >> 23) & 0x1F,
        bits32(w, 20, 2) == (w >> 20) & 3,
        bits32(w, 20, 8) == (w >> 20) & 0xFF,
        bits32(w, 4, 4) == (w >> 4) & 0xF,
        (w >> 5) & 3 < 4,
{
    assert({
        &&& bits32(w, 28, 4) == w >> 28
        &&& bits32(w, 25, 3) == (w >> 25) & 7
        &&& bits32(w, 24, 1) == (w >> 24) & 1
        &&& bits32(w, 23, 1) == (w >> 23) & 1
        &&& bits32(w, 22, 1) == (w >> 22) & 1
        &&& bits32(w, 21, 4) == (w >> 21) & 0xF
        &&& bits32(w, 21, 1) == (w >> 21) & 1
        &&& bits32(w, 20, 1) == (w >> 20) & 1
        &&& bits32(w, 16, 4) == (w >> 16) & 0xF
        &&& bits32(w, 12, 4) == (w >> 12) & 0xF
        &&& bits32(w, 8, 4) == (w >> 8) & 0xF
        &&& bits32(w, 7, 5) == (w >> 7) & 0x1F
        &&& bits32(w, 7, 1) == (w >> 7) & 1
        &&& bits32(w, 5, 2) == (w >> 5) & 3
        &&& bits32(w, 4, 1) == (w >> 4) & 1
        &&& bits32(w, 0, 4) == w & 0xF
        &&& bits32(w, 0, 8) == w & 0xFF
        &&& bits32(w, 0, 12) == w & 0xFFF
        &&& bits32(w, 0, 16) == w & 0xFFFF
        &&& bits32(w, 0, 24) == w & 0xFFFFFF
        &&& (w >> 28) < 16
        &&& (w >> 21) & 0xF < 16
        &&& (w >> 16) & 0xF < 16
        &&& (w >> 12) & 0xF < 16
        &&& (w >> 8) & 0xF < 16
        &&& w & 0xF < 16
        &&& (w >> 7) & 0x1F < 32
        &&& w & 0xFF < 256
        &&& w & 0xFFF < 4096
        &&& w & 0xFFFF < 65536
        &&& bits32(w, 23, 5) == (w >> 23) & 0x1F
        &&& bits32(w, 20, 2) == (w >> 20) & 3
        &&& bits32(w, 20, 8) == (w >> 20) & 0xFF
        &&& bits32(w, 4, 4) == (w >> 4) & 0xF
        &&& (w >> 5) & 3 < 4
    }) by (bit_vector);
}

/// A data-processing word with a register-shifted operand (bits 27..25 zero,
/// bit 7 clear, bit 4 set) decodes with the condition from bits 31..28, the
/// opcode from bits 24..21, S from bit 20, Rn from bits 19..16, Rd from bits
/// 15..12, the shift register Rs from bits 11..8, the shift kind from bits
/// 6..5 and the shifted register Rm from bits 3..0; other words are refused.
pub proof fn lemma_decode_register_shift_fields(w: u32)
    ensures
        arm_decode(ArmDecoder::DataProcessingRegisterShift, w) is Some <==> ((w >> 25) & 7 == 0
            && (w >> 7) & 1 == 0 && (w >> 4) & 1 == 1),
        arm_decode(ArmDecoder::DataProcessingRegisterShift, w) is Some ==> (arm_decode(
            ArmDecoder::DataProcessingRegisterShift,
            w,
        ) matches Some(
            ArmInstruction::DataProcessing {
                c,
                op,
                s,
                rn,
                rd,
                shifter_operand: DPShifterOperand::RegisterShift { rs, shift_type, rm },
            },
        ) && c == condition_of_code((w >> 28) as int) && op == opcode_of_code(
            ((w >> 21) & 0xF) as int,
        ) && s == ((w >> 20) & 1 == 1) && register_index(rn) == (w >> 16) & 0xF
            && register_index(rd) == (w >> 12) & 0xF && register_index(rs) == (w >> 8) & 0xF
            && shift_type == shift_of_code(((w >> 5) & 3) as int) && register_index(rm) == w
            & 0xF),
{
    lemma_arm_fields(w);
    lemma_register_index_round_trip(Register::R0, ((w >> 16) & 0xF) as int);
    lemma_register_index_round_trip(Register::R0, ((w >> 12) & 0xF) as int);
    lemma_register_index_round_trip(Register::R0, ((w >> 8) & 0xF) as int);
    lemma_register_index_round_trip(Register::R0, (w & 0xF) as int);
}

/// A data-processing word with an immediate-shifted operand (bits 27..25
/// zero, bit 4 clear) decodes with Rn, Rd from bits 19..16 and 15..12, the
/// shift amount from bits 11..7 and Rm from bits 3..0; other words are
/// refused.
pub proof fn lemma_decode_immediate_shift_fields(w: u32)
    ensures
        arm_decode(ArmDecoder::DataProcessingImmediateShift, w) is Some <==> ((w >> 25) & 7 == 0
            && (w >> 4) & 1 == 0),
        arm_decode(ArmDecoder::DataProcessingImmediateShift, w) is Some ==> (arm_decode(
            ArmDecoder::DataProcessingImmediateShift,
            w,
        ) matches Some(
            ArmInstruction::DataProcessing {
                c,
                op,
                s,
                rn,
                rd,
                shifter_operand: DPShifterOperand::ImmediateShift { immed, rm, .. },
            },
        ) && c == condition_of_code((w >> 28) as int) && op == opcode_of_code(
            ((w >> 21) & 0xF) as int,
        ) && s == ((w >> 20) & 1 == 1) && register_index(rn) == (w >> 16) & 0xF
            && register_index(rd) == (w >> 12) & 0xF && immed as u32 == (w >> 7) & 0x1F
            && register_index(rm) == w & 0xF),
{
    lemma_arm_fields(w);
    lemma_register_index_round_trip(Register::R0, ((w >> 16) & 0xF) as int);
    lemma_register_index_round_trip(Register::R0, ((w >> 12) & 0xF) as int);
    lemma_register_index_round_trip(Register::R0, (w & 0xF) as int);
}

/// A data-processing word with an immediate operand (bits 27..25 = 001)
/// decodes with Rn, Rd from bits 19..16 and 15..12, the rotation from bits
/// 11..8 and the 8-bit immediate from bits 7..0.
pub proof fn lemma_decode_immediate_fields(w: u32)
    ensures
        arm_decode(ArmDecoder::DataProcessingImmediate, w) is Some <==> (w >> 25) & 7 == 1,
        arm_decode(ArmDecoder::DataProcessingImmediate, w) is Some ==> (arm_decode(
            ArmDecoder::DataProcessingImmediate,
            w,
        ) matches Some(
            ArmInstruction::DataProcessing {
                c,
                op,
                s,
                rn,
                rd,
                shifter_operand: DPShifterOperand::Immediate { rotate, immed },
            },
        ) && c == condition_of_code((w >> 28) as int) && op == opcode_of_code(
            ((w >> 21) & 0xF) as int,
        ) && s == ((w >> 20) & 1 == 1) && register_index(rn) == (w >> 16) & 0xF
            && register_index(rd) == (w >> 12) & 0xF && rotate as u32 == (w >> 8) & 0xF
            && immed as u32 == w & 0xFF),
{
    lemma_arm_fields(w);
    lemma_register_index_round_trip(Register::R0, ((w >> 16) & 0xF) as int);
    lemma_register_index_round_trip(Register::R0, ((w >> 12) & 0xF) as int);
}

/// A load/store word with an immediate offset (bits 27..25 = 010) decodes
/// with P, U, B, W, L from bits 24..20 (B selecting a byte, else a word),
/// Rn, Rd from bits 19..16 and 15..12 and the 12-bit offset from bits 11..0.
pub proof fn lemma_decode_load_store_immediate_fields(w: u32)
    ensures
        arm_decode(ArmDecoder::LoadStoreImmediateOffset, w) is Some <==> (w >> 25) & 7 == 2,
        arm_decode(ArmDecoder::LoadStoreImmediateOffset, w) is Some ==> (arm_decode(
            ArmDecoder::LoadStoreImmediateOffset,
            w,
        ) matches Some(
            ArmInstruction::LoadStore {
                c,
                pre_indexed,
                add_offset,
                width,
                w: wb,
                load,
                rn,
                rd,
                shifter_operand: LSShifterOperand::Immediate { immed },
            },
        ) && c == condition_of_code((w >> 28) as int) && pre_indexed == ((w >> 24) & 1 == 1)
            && add_offset == ((w >> 23) & 1 == 1) && width == (if (w >> 22) & 1 == 1 {
            BusWidth::Byte
        } else {
            BusWidth::Word
        }) && wb == ((w >> 21) & 1 == 1) && load == ((w >> 20) & 1 == 1) && register_index(rn)
            == (w >> 16) & 0xF && register_index(rd) == (w >> 12) & 0xF && immed as u32 == w
            & 0xFFF),
{
    lemma_arm_fields(w);
    lemma_register_index_round_trip(Register::R0, ((w >> 16) & 0xF) as int);
    lemma_register_index_round_trip(Register::R0, ((w >> 12) & 0xF) as int);
}

/// A load/store-multiple word (bits 27..25 = 100) decodes with P, U, S, W, L
/// from bits 24..20, Rn from bits 19..16 and the register list from bits
/// 15..0.
pub proof fn lemma_decode_load_store_multiple_fields(w: u32)
    ensures
        arm_decode(ArmDecoder::LoadStoreMultiple, w) is Some <==> (w >> 25) & 7 == 4,
        arm_decode(ArmDecoder::LoadStoreMultiple, w) is Some ==> (arm_decode(
            ArmDecoder::LoadStoreMultiple,
            w,
        ) matches Some(
            ArmInstruction::LoadStoreMultiple {
                c,
                exclude_first_word,
                upwards,
                update_base,
                load_usermode,
                load,
                rn,
                register_list,
            },
        ) && c == condition_of_code((w >> 28) as int) && exclude_first_word == ((w >> 24) & 1
            == 1) && upwards == ((w >> 23) & 1 == 1) && load_usermode == ((w >> 22) & 1 == 1)
            && update_base == ((w >> 21) & 1 == 1) && load == ((w >> 20) & 1 == 1)
            && register_index(rn) == (w >> 16) & 0xF && register_list.bits as u32 == w & 0xFFFF),
{
    lemma_arm_fields(w);
    lemma_register_index_round_trip(Register::R0, ((w >> 16) & 0xF) as int);
}

/// A branch word (bits 27..25 = 101) decodes to a branch, with link where
/// bit 24 is set, whose offset is four times the signed 24-bit field of
/// bits 23..0.
pub proof fn lemma_decode_branch_fields(w: u32)
    ensures
        arm_decode(ArmDecoder::Branch, w) is Some <==> (w >> 25) & 7 == 5,
        arm_decode(ArmDecoder::Branch, w) is Some ==> ({
            let f = (w & 0xFFFFFF) as int;
            let off = if f >= 0x800000 {
                4 * f - 0x4000000
            } else {
                4 * f
            };
            if (w >> 24) & 1 == 1 {
                arm_decode(ArmDecoder::Branch, w) matches Some(
                    ArmInstruction::Branch {
                        c,
                        op: BranchOperation::BranchLinkImmed { offset, lr_correct },
                    },
                ) && c == condition_of_code((w >> 28) as int) && offset as int == off
                    && lr_correct == 0
            } else {
                arm_decode(ArmDecoder::Branch, w) matches Some(
                    ArmInstruction::Branch { c, op: BranchOperation::BranchImmed { offset } },
                ) && c == condition_of_code((w >> 28) as int) && offset as int == off
            }
        }),
{
    lemma_arm_fields(w);
    let f = w & 0xFFFFFF;
    let v = (f << 2u32) as u32;
    assert(v == 4 * f && v < (1u32 << 26u32) && (v >= (1u32 << 25u32)) == (f >= 0x800000)
        && (1u32 << 25u32) == 0x2000000 && (1u32 << 26u32) == 0x4000000) by (bit_vector)
        requires
            f == w & 0xFFFFFF,
            v == (f << 2u32) as u32,
    ;
    crate::alu::lemma_sign_extend_value(v, 26);
    assert(bits32(w, 24, 1) == (w >> 24) & 1);
}

/// A load/store word with a register offset (bits 27..25 = 011, bit 4
/// clear) decodes with P, U, B, W, L from bits 24..20, Rn, Rd from bits
/// 19..16 and 15..12, and an offset register Rm (bits 3..0) shifted by the
/// amount of bits 11..7 and the kind of bits 6..5, where ROR by 0 reads as
/// RRX.
pub proof fn lemma_decode_load_store_register_fields(w: u32)
    ensures
        arm_decode(ArmDecoder::LoadStoreRegisterOffset, w) is Some <==> ((w >> 25) & 7 == 3 && (w
            >> 4) & 1 == 0),
        arm_decode(ArmDecoder::LoadStoreRegisterOffset, w) is Some ==> (arm_decode(
            ArmDecoder::LoadStoreRegisterOffset,
            w,
        ) matches Some(
            ArmInstruction::LoadStore {
                c,
                pre_indexed,
                add_offset,
                width,
                w: wb,
                load,
                rn,
                rd,
                shifter_operand: LSShifterOperand::ImmediateShift { immed, shift_type, rm },
            },
        ) && c == condition_of_code((w >> 28) as int) && pre_indexed == ((w >> 24) & 1 == 1)
            && add_offset == ((w >> 23) & 1 == 1) && width == (if (w >> 22) & 1 == 1 {
            BusWidth::Byte
        } else {
            BusWidth::Word
        }) && wb == ((w >> 21) & 1 == 1) && load == ((w >> 20) & 1 == 1) && register_index(rn)
            == (w >> 16) & 0xF && register_index(rd) == (w >> 12) & 0xF && register_index(rm) == w
            & 0xF && immed as u32 == (w >> 7) & 0x1F && shift_type == (if (w >> 5) & 3 == 3 && (w
            >> 7) & 0x1F == 0 {
            ShiftType::RRX
        } else {
            shift_of_code(((w >> 5) & 3) as int)
        })),
{
    lemma_arm_fields(w);
    lemma_register_index_round_trip(Register::R0, ((w >> 16) & 0xF) as int);
    lemma_register_index_round_trip(Register::R0, ((w >> 12) & 0xF) as int);
    lemma_register_index_round_trip(Register::R0, (w & 0xF) as int);
}

/// The status register transfers: MRS (00010 R 00 .. 0000) copies the CPSR,
/// or the SPSR where R (bit 22) is set, into Rd (bits 15..12); MSR (00010 R
/// 10) writes the fields of bits 19..16 from Rm (bits 3..0), or from the
/// immediate of bits 7..0 rotated by twice bits 11..8.
pub proof fn lemma_decode_status_transfer_fields(w: u32)
    ensures
        arm_decode(ArmDecoder::MoveStatusRegisterToRegister, w) is Some ==> (arm_decode(
            ArmDecoder::MoveStatusRegisterToRegister,
            w,
        ) matches Some(
            ArmInstruction::LoadStoreStatus {
                c,
                r,
                op: LoadStoreStatusOperation::StatusRegisterToRegister { rd },
            },
        ) && (w >> 23) & 0x1F == 2 && (w >> 20) & 3 == 0 && c == condition_of_code(
            (w >> 28) as int,
        ) && r == ((w >> 22) & 1 == 1) && register_index(rd) == (w >> 12) & 0xF),
        arm_decode(ArmDecoder::MoveRegisterToStatusRegister, w) is Some ==> (arm_decode(
            ArmDecoder::MoveRegisterToStatusRegister,
            w,
        ) matches Some(
            ArmInstruction::LoadStoreStatus {
                c,
                r,
                op: LoadStoreStatusOperation::RegisterToStatusRegister { mask, rm },
            },
        ) && (w >> 23) & 0x1F == 2 && (w >> 20) & 3 == 2 && c == condition_of_code(
            (w >> 28) as int,
        ) && r == ((w >> 22) & 1 == 1) && mask.bits as u32 == (w >> 16) & 0xF && register_index(rm)
            == w & 0xF),
        arm_decode(ArmDecoder::MoveImmedToStatusRegister, w) is Some ==> (arm_decode(
            ArmDecoder::MoveImmedToStatusRegister,
            w,
        ) matches Some(
            ArmInstruction::LoadStoreStatus {
                c,
                r,
                op: LoadStoreStatusOperation::ImmediateToStatusRegister { mask, rot_imm, immed },
            },
        ) && (w >> 23) & 0x1F == 2 && (w >> 20) & 3 == 2 && c == condition_of_code(
            (w >> 28) as int,
        ) && r == ((w >> 22) & 1 == 1) && mask.bits as u32 == (w >> 16) & 0xF && rot_imm as u32
            == (w >> 8) & 0xF && immed as u32 == w & 0xFF),
{
    lemma_arm_fields(w);
    lemma_register_index_round_trip(Register::R0, ((w >> 12) & 0xF) as int);
    lemma_register_index_round_trip(Register::R0, (w & 0xF) as int);
}

/// The branch-and-exchange forms (bits 27..20 = 00010010) jump through Rm,
/// the register of bits 3..0, under the condition of bits 31..28: BX where
/// bits 7..4 are 0001.
pub proof fn lemma_decode_branch_exchange_fields(w: u32)
    ensures
        arm_decode(ArmDecoder::BranchExchangeThumb, w) is Some <==> ((w >> 20) & 0xFF == 0x12 && (w
            >> 4) & 0xF == 1),
        arm_decode(ArmDecoder::BranchExchangeThumb, w) is Some ==> (arm_decode(
            ArmDecoder::BranchExchangeThumb,
            w,
        ) matches Some(
            ArmInstruction::Branch { c, op: BranchOperation::BranchExchangeThumb { rm } },
        ) && c == condition_of_code((w >> 28) as int) && register_index(rm) == w & 0xF),
{
    lemma_arm_fields(w);
    lemma_register_index_round_trip(Register::R0, (w & 0xF) as int);
}

} // verus!
