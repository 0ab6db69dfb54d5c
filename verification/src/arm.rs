use vstd::prelude::*;
use crate::alu::{lemma_data_processing_keeps_memory, lemma_low_five_bits, 
    asr_of, rotr, shl_of, shr_of, sign_extend, sign_extend_spec, wadd, wadd_signed, wsub,
};
use crate::bus::{BusValue, BusWidth, lemma_write_bus_keeps_system};
use crate::decode_arm::{
    ArmInstruction, BranchOperation, Condition, DPShifterOperand, DataProcessingOpcode, LSShifterOperand, LoadStoreStatusOperation, MSRMask,
    RegisterList, ShiftType, msr_mask_bits, popcount,
};
use crate::gba::{CpuFault, GbaModel, GbaSystem, Register, register_of_index};
use vstd::arithmetic::power2::pow2;

verus! {

/// The processor modes of the ARM7TDMI.
#[derive(Clone, Copy, PartialEq, Eq, Structural, Debug)]
pub enum Mode {
    User,
    FIQ,
    IRQ,
    Supervisor,
    Abort,
    Undefined,
    System,
}

/// The five-bit encoding of a processor mode in the status register.
pub open spec fn mode_encoding(m: Mode) -> u32 {
    match m {
        Mode::User => 0b10000,
        Mode::FIQ => 0b10001,
        Mode::IRQ => 0b10010,
        Mode::Supervisor => 0b10011,
        Mode::Abort => 0b10111,
        Mode::Undefined => 0b11011,
        Mode::System => 0b11111,
    }
}

/// The mode that a five-bit encoding names, if any.
pub open spec fn mode_of_encoding(v: u32) -> Option<Mode> {
    if v == 0b10000 {
        Some(Mode::User)
    } else if v == 0b10001 {
        Some(Mode::FIQ)
    } else if v == 0b10010 {
        Some(Mode::IRQ)
    } else if v == 0b10011 {
        Some(Mode::Supervisor)
    } else if v == 0b10111 {
        Some(Mode::Abort)
    } else if v == 0b11011 {
        Some(Mode::Undefined)
    } else if v == 0b11111 {
        Some(Mode::System)
    } else {
        None
    }
}

impl Mode {
    /// Decodes a five-bit mode field; any other value is refused.
    pub fn try_from(v: u32) -> (r: Result<Mode, ()>)
        ensures
            match mode_of_encoding(v) {
                Some(m) => r == Ok::<Mode, ()>(m),
                None => r == Err::<Mode, ()>(()),
            },
    {
        match v {
            0b10000 => Ok(Mode::User),
            0b10001 => Ok(Mode::FIQ),
            0b10010 => Ok(Mode::IRQ),
            0b10011 => Ok(Mode::Supervisor),
            0b10111 => Ok(Mode::Abort),
            0b11011 => Ok(Mode::Undefined),
            0b11111 => Ok(Mode::System),
            _ => Err(()),
        }
    }

    /// The five-bit encoding of this mode.
    pub fn encoding(&self) -> (r: u32)
        ensures
            r == mode_encoding(*self),
    {
        match self {
            Mode::User => 0b10000,
            Mode::FIQ => 0b10001,
            Mode::IRQ => 0b10010,
            Mode::Supervisor => 0b10011,
            Mode::Abort => 0b10111,
            Mode::Undefined => 0b11011,
            Mode::System => 0b11111,
        }
    }
}

/// Every mode's encoding decodes back to that mode.
pub proof fn lemma_mode_encoding_round_trip(m: Mode)
    ensures
        mode_of_encoding(mode_encoding(m)) == Some(m),
        mode_encoding(m) < 32,
{
}

/// The current or saved program status register (CPSR / SPSR).
#[derive(Clone, Copy, PartialEq, Eq, Structural, Debug)]
pub struct ProgramStatus {
    pub bits: u32,
}

/// The union of every flag that the status register defines.
pub const PROGRAM_STATUS_ALL: u32 = 0xF90F03FF;

impl ProgramStatus {
    pub const FLAG_N: u32 = 0b10000000000000000000000000000000;
    pub const FLAG_Z: u32 = 0b01000000000000000000000000000000;
    pub const FLAG_C: u32 = 0b00100000000000000000000000000000;
    pub const FLAG_V: u32 = 0b00010000000000000000000000000000;
    pub const FLAG_Q: u32 = 0b00001000000000000000000000000000;
    pub const FLAG_J: u32 = 0b00000001000000000000000000000000;
    pub const FLAG_GE_3: u32 = 0b00000000000010000000000000000000;
    pub const FLAG_GE_2: u32 = 0b00000000000001000000000000000000;
    pub const FLAG_GE_1: u32 = 0b00000000000000100000000000000000;
    pub const FLAG_GE_0: u32 = 0b00000000000000010000000000000000;
    pub const FLAG_E: u32 = 0b00000000000000000000001000000000;
    pub const FLAG_A: u32 = 0b00000000000000000000000100000000;
    pub const FLAG_I: u32 = 0b00000000000000000000000010000000;
    pub const FLAG_F: u32 = 0b00000000000000000000000001000000;
    pub const FLAG_T: u32 = 0b00000000000000000000000000100000;
    pub const FLAG_MODE: u32 = 0b00000000000000000000000000011111;

    /// Whether every bit of `f` is set.
    pub open spec fn has(self, f: u32) -> bool {
        self.bits & f == f
    }

    /// The status with the bits of `f` set (`v`) or cleared (`!v`).
    pub open spec fn with(self, f: u32, v: bool) -> ProgramStatus {
        if v {
            ProgramStatus { bits: self.bits | f }
        } else {
            ProgramStatus { bits: self.bits & !f }
        }
    }

    /// The mode that the mode field names; an unknown encoding reads as User.
    pub open spec fn mode(self) -> Mode {
        match mode_of_encoding(self.bits & 0x1F) {
            Some(m) => m,
            None => Mode::User,
        }
    }

    /// The status with its mode field replaced by the encoding of `m`.
    pub open spec fn with_mode(self, m: Mode) -> ProgramStatus {
        ProgramStatus { bits: (self.bits & !0x1Fu32) | mode_encoding(m) }
    }

    pub fn empty() -> (r: ProgramStatus)
        ensures
            r.bits == 0,
    {
        ProgramStatus { bits: 0 }
    }

    pub fn bits(&self) -> (r: u32)
        ensures
            r == self.bits,
    {
        self.bits
    }

    /// Keeps every bit, defined flag or not.
    pub fn from_bits_retain(bits: u32) -> (r: ProgramStatus)
        ensures
            r.bits == bits,
    {
        ProgramStatus { bits }
    }

    /// Keeps only the bits of defined flags.
    pub fn from_bits_truncate(bits: u32) -> (r: ProgramStatus)
        ensures
            r.bits == bits & PROGRAM_STATUS_ALL,
    {
        ProgramStatus { bits: bits & PROGRAM_STATUS_ALL }
    }

    pub fn contains(&self, f: u32) -> (r: bool)
        ensures
            r == self.has(f),
    {
        self.bits & f == f
    }

    pub fn set(&mut self, f: u32, v: bool)
        ensures
            *final(self) == old(self).with(f, v),
    {
        if v {
            self.bits = self.bits | f;
        } else {
            self.bits = self.bits & !f;
        }
    }

    /// The current mode; an unknown mode encoding reads as User.
    pub fn get_mode(&self) -> (r: Mode)
        ensures
            r == self.mode(),
    {
        match Mode::try_from(self.bits & ProgramStatus::FLAG_MODE) {
            Ok(m) => m,
            Err(_) => Mode::User,
        }
    }

    /// Replaces the mode field, leaving every other bit as it was.
    pub fn set_mode(&mut self, m: Mode)
        ensures
            *final(self) == old(self).with_mode(m),
    {
        self.bits = (self.bits & !ProgramStatus::FLAG_MODE) | m.encoding();
    }
}

/// Setting the mode and then reading it gives that mode back, and no bit
/// outside the mode field changes.
pub proof fn lemma_set_mode_get_mode(p: ProgramStatus, m: Mode)
    ensures
        p.with_mode(m).mode() == m,
        p.with_mode(m).bits & !0x1Fu32 == p.bits & !0x1Fu32,
{
    let b = p.bits;
    let e = mode_encoding(m);
    lemma_mode_encoding_round_trip(m);
    assert(((b & !0x1Fu32) | e) & 0x1F == e) by (bit_vector)
        requires
            e < 32,
    ;
    assert(((b & !0x1Fu32) | e) & !0x1Fu32 == b & !0x1Fu32) by (bit_vector)
        requires
            e < 32,
    ;
}

/// Setting or clearing a flag outside the mode field keeps the mode.
pub proof fn lemma_flag_keeps_mode(p: ProgramStatus, f: u32, v: bool)
    requires
        f == ProgramStatus::FLAG_N || f == ProgramStatus::FLAG_Z || f == ProgramStatus::FLAG_C || f
            == ProgramStatus::FLAG_V || f == ProgramStatus::FLAG_T || f == ProgramStatus::FLAG_F
            || f == ProgramStatus::FLAG_I || f == ProgramStatus::FLAG_A,
    ensures
        p.with(f, v).mode() == p.mode(),
        p.with(f, v).bits & 0x1F == p.bits & 0x1F,
{
    let b = p.bits;
    assert(f & 0x1F == 0) by (bit_vector)
        requires
            f == 0x80000000u32 || f == 0x40000000u32 || f == 0x20000000u32 || f == 0x10000000u32
                || f == 0x20u32 || f == 0x40u32 || f == 0x80u32 || f == 0x100u32,
    ;
    assert((b | f) & 0x1F == b & 0x1F) by (bit_vector)
        requires
            f & 0x1F == 0,
    ;
    assert((b & !f) & 0x1F == b & 0x1F) by (bit_vector)
        requires
            f & 0x1F == 0,
    ;
}

/// Setting or clearing a flag makes it read back as set or clear, and leaves
/// every bit outside it as it was.
pub proof fn lemma_flag_set_get(p: ProgramStatus, f: u32, g: u32, v: bool)
    requires
        f != 0,
        f & g == 0,
    ensures
        p.with(f, v).has(f) == v,
        p.with(f, v).bits & g == p.bits & g,
{
    let b = p.bits;
    assert((b | f) & f == f) by (bit_vector);
    assert((b & !f) & f != f) by (bit_vector)
        requires
            f != 0,
    ;
    assert((b | f) & g == b & g) by (bit_vector)
        requires
            f & g == 0,
    ;
    assert((b & !f) & g == b & g) by (bit_vector)
        requires
            f & g == 0,
    ;
}

/// Status bits that no architecture version allocates.
pub const UNALLOC_MASK: u32 = 0x06F0FC00;
/// Status bits that an unprivileged MSR may write.
pub const USER_MASK: u32 = 0xF80F0200;
/// Status bits that only a privileged MSR may write.
pub const PRIV_MASK: u32 = 0x000001DF;
/// Execution-state bits (J and T).
pub const STATE_MASK: u32 = 0x01000020;

impl GbaModel {
    /// Whether an instruction with condition `c` executes, given the flags.
    pub open spec fn condition_passed(self, c: Condition) -> bool {
        let n = self.cpsr.has(ProgramStatus::FLAG_N);
        let z = self.cpsr.has(ProgramStatus::FLAG_Z);
        let cf = self.cpsr.has(ProgramStatus::FLAG_C);
        let v = self.cpsr.has(ProgramStatus::FLAG_V);
        match c {
            Condition::AL | Condition::UNC => true,
            Condition::EQ => z,
            Condition::NE => !z,
            Condition::CSHS => cf,
            Condition::CCLO => !cf,
            Condition::MI => n,
            Condition::PL => !n,
            Condition::VS => v,
            Condition::VC => !v,
            Condition::HI => cf && !z,
            Condition::LS => !cf || z,
            Condition::GE => n == v,
            Condition::LT => n != v,
            Condition::GT => !z && (n == v),
            Condition::LE => z && (n != v),
        }
    }

    /// The saved status register of the current mode; User and System mode
    /// have none.
    pub open spec fn spsr(self) -> Option<ProgramStatus> {
        match self.mode() {
            Mode::User | Mode::System => None,
            Mode::Abort => Some(self.spsr_abt),
            Mode::IRQ => Some(self.spsr_irq),
            Mode::FIQ => Some(self.spsr_fiq),
            Mode::Supervisor => Some(self.spsr_svc),
            Mode::Undefined => Some(self.spsr_und),
        }
    }

    /// The state after writing the saved status register of the current
    /// mode, or `None` in User and System mode, which have none.
    pub open spec fn with_spsr(self, val: ProgramStatus) -> Option<GbaModel> {
        match self.mode() {
            Mode::User | Mode::System => None,
            Mode::Abort => Some(GbaModel { spsr_abt: val, ..self }),
            Mode::IRQ => Some(GbaModel { spsr_irq: val, ..self }),
            Mode::FIQ => Some(GbaModel { spsr_fiq: val, ..self }),
            Mode::Supervisor => Some(GbaModel { spsr_svc: val, ..self }),
            Mode::Undefined => Some(GbaModel { spsr_und: val, ..self }),
        }
    }

    /// The state after copying the saved status register of the current mode
    /// into the current one (no change in User and System mode).
    pub open spec fn load_mode_spsr(self) -> GbaModel {
        match self.spsr() {
            Some(p) => GbaModel { cpsr: p, ..self },
            None => self,
        }
    }

    /// Whether the processor runs in a privileged mode.
    pub open spec fn privileged(self) -> bool {
        self.mode() != Mode::User
    }

    /// The bits that an MSR with field mask `mask` writes: for a saved status
    /// register the user, privileged and state bits of the selected fields;
    /// for the current one, in a privileged mode, the user and privileged bits
    /// unless `val` sets a state bit (then none), and in User mode the user
    /// bits only.
    pub open spec fn msr_write_mask(self, spsr: bool, mask: MSRMask, val: u32) -> u32 {
        let m = msr_mask_bits(mask);
        if spsr {
            m & (USER_MASK | PRIV_MASK | STATE_MASK)
        } else if self.privileged() {
            if val & STATE_MASK != 0 {
                0
            } else {
                m & (USER_MASK | PRIV_MASK)
            }
        } else {
            m & USER_MASK
        }
    }

    /// `state` with the bits of the MSR write mask taken from `val`.
    pub open spec fn masked_state(
        self,
        state: ProgramStatus,
        spsr: bool,
        mask: MSRMask,
        val: u32,
    ) -> ProgramStatus {
        let m = self.msr_write_mask(spsr, mask, val);
        ProgramStatus { bits: (state.bits & !m) | (val & m) }
    }

    /// The size of an instruction in the current state: 2 in Thumb state, 4
    /// in ARM state.
    pub open spec fn instruction_size(self) -> u32 {
        if self.cpsr.has(ProgramStatus::FLAG_T) {
            2
        } else {
            4
        }
    }
}

impl GbaSystem {
    /// Whether an instruction with condition `c` executes.
    pub fn test_condition(&self, c: Condition) -> (r: bool)
        ensures
            r == self@.condition_passed(c),
    {
        let n = self.cpsr.contains(ProgramStatus::FLAG_N);
        let z = self.cpsr.contains(ProgramStatus::FLAG_Z);
        let cf = self.cpsr.contains(ProgramStatus::FLAG_C);
        let v = self.cpsr.contains(ProgramStatus::FLAG_V);
        match c {
            Condition::AL | Condition::UNC => true,
            Condition::EQ => z,
            Condition::NE => !z,
            Condition::CSHS => cf,
            Condition::CCLO => !cf,
            Condition::MI => n,
            Condition::PL => !n,
            Condition::VS => v,
            Condition::VC => !v,
            Condition::HI => cf && !z,
            Condition::LS => !cf || z,
            Condition::GE => n == v,
            Condition::LT => n != v,
            Condition::GT => !z && (n == v),
            Condition::LE => z && (n != v),
        }
    }

    /// Copies the saved status register of the current mode into the current
    /// one (the return from an exception); no change in User and System mode.
    pub fn load_mode_spsr(&mut self)
        ensures
            final(self)@ == old(self)@.load_mode_spsr(),
    {
        match self.cpsr.get_mode() {
            Mode::User | Mode::System => (),
            Mode::FIQ => self.cpsr = self.spsr_fiq,
            Mode::IRQ => self.cpsr = self.spsr_irq,
            Mode::Supervisor => self.cpsr = self.spsr_svc,
            Mode::Abort => self.cpsr = self.spsr_abt,
            Mode::Undefined => self.cpsr = self.spsr_und,
        }
    }

    fn is_privileged(&self) -> (r: bool)
        ensures
            r == self@.privileged(),
    {
        match self.cpsr.get_mode() {
            Mode::User => false,
            _ => true,
        }
    }

    fn compute_masked_state(&self, state: ProgramStatus, spsr: bool, mask: MSRMask, val: u32) -> (r:
        ProgramStatus)
        ensures
            r == self@.masked_state(state, spsr, mask, val),
    {
        let mut state_mask = mask.get_mask();
        if spsr {
            state_mask = state_mask & (USER_MASK | PRIV_MASK | STATE_MASK);
        } else {
            if self.is_privileged() {
                if (val & STATE_MASK) != 0 {
                    state_mask = 0;
                } else {
                    state_mask = state_mask & (USER_MASK | PRIV_MASK);
                }
            } else {
                state_mask = state_mask & USER_MASK;
            }
        }
        ProgramStatus::from_bits_retain((state.bits() & !state_mask) | (val & state_mask))
    }

    /// The saved status register of the current mode, if it has one.
    pub fn get_spsr(&self) -> (r: Option<ProgramStatus>)
        ensures
            r == self@.spsr(),
    {
        match self.cpsr.get_mode() {
            Mode::User | Mode::System => None,
            Mode::Abort => Some(self.spsr_abt),
            Mode::IRQ => Some(self.spsr_irq),
            Mode::FIQ => Some(self.spsr_fiq),
            Mode::Supervisor => Some(self.spsr_svc),
            Mode::Undefined => Some(self.spsr_und),
        }
    }

    /// Writes the saved status register of the current mode; refused, with no
    /// change, in User and System mode.
    pub fn set_spsr(&mut self, val: ProgramStatus) -> (r: Result<(), ()>)
        ensures
            match old(self)@.with_spsr(val) {
                Some(m) => r is Ok && final(self)@ == m,
                None => r is Err && final(self)@ == old(self)@,
            },
    {
        match self.cpsr.get_mode() {
            Mode::User | Mode::System => Err(()),
            Mode::Abort => {
                self.spsr_abt = val;
                Ok(())
            },
            Mode::IRQ => {
                self.spsr_irq = val;
                Ok(())
            },
            Mode::FIQ => {
                self.spsr_fiq = val;
                Ok(())
            },
            Mode::Supervisor => {
                self.spsr_svc = val;
                Ok(())
            },
            Mode::Undefined => {
                self.spsr_und = val;
                Ok(())
            },
        }
    }

    /// 2 in Thumb state, 4 in ARM state.
    pub fn instruction_size(&self) -> (r: u32)
        ensures
            r == self@.instruction_size(),
    {
        if self.cpsr.contains(ProgramStatus::FLAG_T) {
            2
        } else {
            4
        }
    }
}

/// The condition pairs EQ/NE, CS/CC, MI/PL, VS/VC, HI/LS and GE/LT are
/// complements, and AL always holds.
pub proof fn lemma_condition_complements(m: GbaModel)
    ensures
        m.condition_passed(Condition::AL),
        m.condition_passed(Condition::EQ) == !m.condition_passed(Condition::NE),
        m.condition_passed(Condition::CSHS) == !m.condition_passed(Condition::CCLO),
        m.condition_passed(Condition::MI) == !m.condition_passed(Condition::PL),
        m.condition_passed(Condition::VS) == !m.condition_passed(Condition::VC),
        m.condition_passed(Condition::HI) == !m.condition_passed(Condition::LS),
        m.condition_passed(Condition::GE) == !m.condition_passed(Condition::LT),
{
}

/// An MSR changes exactly the bits of its write mask: those take the value
/// written, every other bit keeps its value.
pub proof fn lemma_msr_writes_masked_bits(
    m: GbaModel,
    state: ProgramStatus,
    spsr: bool,
    mask: MSRMask,
    val: u32,
)
    ensures
        ({
            let w = m.msr_write_mask(spsr, mask, val);
            let r = m.masked_state(state, spsr, mask, val);
            &&& r.bits & w == val & w
            &&& r.bits & !w == state.bits & !w
        }),
{
    let w = m.msr_write_mask(spsr, mask, val);
    let b = state.bits;
    assert(((b & !w) | (val & w)) & w == val & w) by (bit_vector);
    assert(((b & !w) | (val & w)) & !w == b & !w) by (bit_vector);
}

/// Saving and restoring: writing the saved status register of a mode that
/// has one and then loading it gives back the value written.
pub proof fn lemma_spsr_round_trip(m: GbaModel, val: ProgramStatus)
    requires
        m.mode() != Mode::User,
        m.mode() != Mode::System,
    ensures
        m.with_spsr(val) is Some,
        m.with_spsr(val).unwrap().spsr() == Some(val),
        m.with_spsr(val).unwrap().load_mode_spsr().cpsr == val,
{
}

impl GbaModel {
    /// The offset of a load or store.
    pub open spec fn ls_offset(self, so: LSShifterOperand) -> u32 {
        match so {
            LSShifterOperand::Immediate { immed } => immed as u32,
            LSShifterOperand::ImmediateShift { immed, shift_type, rm } => {
                let x = self.reg(rm);
                let n = immed as u32;
                match shift_type {
                    ShiftType::LSL => shl_of(x, n).0,
                    ShiftType::LSR => if immed == 0 {
                        0
                    } else {
                        shr_of(x, n).0
                    },
                    ShiftType::ASR => if immed == 0 {
                        if (x & 0x80000000) != 0 {
                            0xFFFFFFFF
                        } else {
                            0
                        }
                    } else {
                        asr_of(x, n).0
                    },
                    ShiftType::ROR => rotr(x, n),
                    ShiftType::RRX => (if self.cpsr.has(ProgramStatus::FLAG_C) {
                        0x80000000u32
                    } else {
                        0u32
                    }) | shr_of(x, n).0,
                }
            },
        }
    }

    /// The address of a load or store: the base register (word-aligned when
    /// it is the PC in Thumb state) plus or minus the offset.
    pub open spec fn ls_address(self, add_offset: bool, rn: Register, so: LSShifterOperand) -> u32 {
        let off = self.ls_offset(so);
        let base = if rn == Register::R15 && self.cpsr.has(ProgramStatus::FLAG_T) {
            self.reg(rn) & 0xFFFFFFFC
        } else {
            self.reg(rn)
        };
        if add_offset {
            wadd(base, off)
        } else {
            wsub(base, off)
        }
    }

    /// The state after r15 takes `v` with bit 0 cleared and the T flag takes
    /// bit 0 of `v`.
    pub open spec fn write_pc_exchange(self, v: u32) -> GbaModel {
        self.write_reg(Register::R15, v & 0xFFFFFFFE).set_flag(ProgramStatus::FLAG_T, (v & 0x1) != 0)
    }

    /// A load of `rd` from `adr`: a word loaded into r15 keeps its low 24 bits
    /// and sets the T flag from bit 0. An address with nothing to read and a
    /// half-word read from the last byte of a word of a word-wide memory are
    /// faults.
    pub open spec fn load_at(self, width: BusWidth, rd: Register, adr: u32) -> (
        GbaModel,
        Result<u32, CpuFault>,
    ) {
        match width {
            BusWidth::Byte => match self.read_bus_byte(adr) {
                Some(d) => (self.write_reg(rd, d as u32), Ok(4)),
                None => (self, Err(CpuFault::AccessViolation)),
            },
            BusWidth::HalfWord => if !self.half_word_readable(adr) {
                (self, Err(CpuFault::UnalignedHalfWordRead))
            } else {
                match self.read_bus_half_word(adr) {
                    Some(d) => (self.write_reg(rd, d as u32), Ok(4)),
                    None => (self, Err(CpuFault::AccessViolation)),
                }
            },
            BusWidth::Word => match self.read_bus_word(adr) {
                Some(d) => if rd == Register::R15 {
                    (
                        self.write_reg(rd, d & 0xFFFFFF).set_flag(ProgramStatus::FLAG_T, d & 0x1 != 0),
                        Ok(4),
                    )
                } else {
                    (self.write_reg(rd, d), Ok(4))
                },
                None => (self, Err(CpuFault::AccessViolation)),
            },
        }
    }

    /// A store of `rd` at `adr` at the access width; an odd address and a
    /// refused write are faults.
    pub open spec fn store_at(self, width: BusWidth, rd: Register, adr: u32) -> (
        GbaModel,
        Result<u32, CpuFault>,
    ) {
        let v = match width {
            BusWidth::Byte => BusValue::Byte((self.reg(rd) & 0xFF) as u8),
            BusWidth::HalfWord => BusValue::HalfWord((self.reg(rd) & 0xFFFF) as u16),
            BusWidth::Word => BusValue::Word(self.reg(rd)),
        };
        if adr & 1 != 0 {
            (self, Err(CpuFault::UnalignedWrite))
        } else {
            let w = self.write_bus(adr, v);
            if w.1 is Ok {
                (w.0, Ok(4))
            } else {
                (w.0, Err(CpuFault::AccessViolation))
            }
        }
    }

    /// A load or store: a non-pre-indexed access first writes the address to
    /// the base register, then the load or store happens at that address.
    #[verifier::opaque]
    pub open spec fn load_store(
        self,
        pre_indexed: bool,
        add_offset: bool,
        width: BusWidth,
        load: bool,
        rn: Register,
        rd: Register,
        so: LSShifterOperand,
    ) -> (GbaModel, Result<u32, CpuFault>) {
        let adr = self.ls_address(add_offset, rn, so);
        let m = if !pre_indexed {
            self.write_reg(rn, adr)
        } else {
            self
        };
        if load {
            m.load_at(width, rd, adr)
        } else {
            m.store_at(width, rd, adr)
        }
    }

    /// A saved status register of the current mode written through an MSR
    /// mask (no change where the mode has none).
    pub open spec fn msr_spsr(self, mask: MSRMask, val: u32) -> GbaModel {
        match self.spsr() {
            Some(v) => match self.with_spsr(self.masked_state(v, true, mask, val)) {
                Some(m) => m,
                None => self,
            },
            None => self,
        }
    }

    /// MRS and MSR; every MSR goes through the mask that applies to a saved
    /// status register, also when it writes the current one.
    #[verifier::opaque]
    pub open spec fn status_transfer(self, r: bool, op: LoadStoreStatusOperation) -> GbaModel {
        match op {
            LoadStoreStatusOperation::StatusRegisterToRegister { rd } => if r {
                match self.spsr() {
                    Some(v) => self.write_reg(rd, v.bits),
                    None => self,
                }
            } else {
                self.write_reg(rd, self.cpsr.bits)
            },
            LoadStoreStatusOperation::RegisterToStatusRegister { mask, rm } => if r {
                self.msr_spsr(mask, self.reg(rm))
            } else {
                GbaModel { cpsr: self.masked_state(self.cpsr, true, mask, self.reg(rm)), ..self }
            },
            LoadStoreStatusOperation::ImmediateToStatusRegister { mask, rot_imm, immed } => {
                let v = rotr(immed as u32, rot_imm as u32);
                if r {
                    self.msr_spsr(mask, v)
                } else {
                    GbaModel { cpsr: self.masked_state(self.cpsr, true, mask, v), ..self }
                }
            },
        }
    }

    /// The registers of a block transfer from register `i` on: each listed
    /// register in turn is loaded from or stored to the next word address; a
    /// word that cannot be read leaves its register alone, a word loaded into
    /// r15 sets the T flag from bit 0, a refused store is passed over, and a
    /// store to an odd address is a fault.
    pub open spec fn transfer(self, list: u16, i: u16, address: u32, load: bool) -> (
        GbaModel,
        Result<u32, CpuFault>,
    )
        decreases 16 - i,
    {
        if i >= 16 {
            (self, Ok(4))
        } else if (list >> i) & 1 == 1 {
            let reg = register_of_index(i as int);
            if load {
                let m = match self.read_bus_word(address) {
                    Some(val) => if reg == Register::R15 {
                        self.write_pc_exchange(val)
                    } else {
                        self.write_reg(reg, val)
                    },
                    None => self,
                };
                m.transfer(list, (i + 1) as u16, wadd(address, 4), load)
            } else if address & 1 != 0 {
                (self, Err(CpuFault::UnalignedWrite))
            } else {
                let m = self.write_bus(address, BusValue::Word(self.reg(reg))).0;
                m.transfer(list, (i + 1) as u16, wadd(address, 4), load)
            }
        } else {
            self.transfer(list, (i + 1) as u16, address, load)
        }
    }

    /// The start address and new base of a block transfer of `count` words,
    /// or a fault where the computation of the end address overflows.
    pub open spec fn block_addresses(self, exclude_first_word: bool, upwards: bool, rn: Register, count: u32) -> Result<(u32, u32), CpuFault> {
        let r = self.reg(rn);
        let n = (count * 4) as u32;
        if !exclude_first_word && upwards {
            if wadd(r, n) < 4 {
                Err(CpuFault::AddressOverflow)
            } else {
                Ok((r, wadd(r, n)))
            }
        } else if exclude_first_word && upwards {
            Ok((wadd(r, 4), wadd(r, n)))
        } else if !exclude_first_word && !upwards {
            if wsub(r, n) > 0xFFFFFFFB {
                Err(CpuFault::AddressOverflow)
            } else {
                Ok(((wsub(r, n) + 4) as u32, wsub(r, n)))
            }
        } else {
            Ok((wsub(r, n), wsub(r, n)))
        }
    }

    /// A block transfer (LDM/STM): the base register optionally takes the new
    /// base, then the listed registers are transferred from the start address
    /// on.
    #[verifier::opaque]
    pub open spec fn block_transfer(
        self,
        exclude_first_word: bool,
        upwards: bool,
        update_base: bool,
        load: bool,
        rn: Register,
        list: RegisterList,
    ) -> (GbaModel, Result<u32, CpuFault>) {
        match self.block_addresses(exclude_first_word, upwards, rn, popcount(list.bits as nat) as u32) {
            Err(f) => (self, Err(f)),
            Ok((start, base)) => {
                let m = if update_base {
                    self.write_reg(rn, base)
                } else {
                    self
                };
                m.transfer(list.bits, 0, start, load)
            },
        }
    }

    /// A branch whose condition passed.
    #[verifier::opaque]
    pub open spec fn branch(self, op: BranchOperation) -> (GbaModel, Result<u32, CpuFault>) {
        let pc = self.reg(Register::R15);
        let isz = self.instruction_size();
        match op {
            BranchOperation::BranchImmed { offset } => (
                self.write_reg(Register::R15, wadd_signed(pc, offset)),
                Ok(4),
            ),
            BranchOperation::BranchLinkImmed { offset, lr_correct } => {
                let m1 = self.write_reg(Register::R14, wadd(wsub(pc, isz), lr_correct as u32));
                let m2 = if m1.cpsr.has(ProgramStatus::FLAG_T) {
                    m1.write_reg(Register::R14, m1.reg(Register::R14) | 1)
                } else {
                    m1
                };
                (m2.write_reg(Register::R15, wadd_signed(m2.reg(Register::R15), offset)), Ok(4))
            },
            BranchOperation::BranchExchangeThumb { rm } => {
                let m1 = self.write_reg(Register::R15, self.reg(rm) & 0xFFFFFFFE);
                (m1.set_flag(ProgramStatus::FLAG_T, m1.reg(rm) & 0x1 != 0), Ok(4))
            },
            BranchOperation::BranchExchangeLinkThumb { rm } => {
                let m1 = self.write_reg(Register::R14, wsub(pc, isz));
                let m2 = m1.write_reg(Register::R15, m1.reg(rm) & 0xFFFFFFFE);
                (m2.set_flag(ProgramStatus::FLAG_T, m2.reg(rm) & 0x1 != 0), Ok(4))
            },
            BranchOperation::BranchExchangeLinkThumbImmed { offset } => {
                let m1 = self.write_reg(Register::R14, wsub(pc, isz));
                let m2 = m1.write_reg(Register::R15, wadd_signed(m1.reg(Register::R15), offset));
                (m2.set_flag(ProgramStatus::FLAG_T, false), Ok(4))
            },
            BranchOperation::BranchExchangeJava { .. } => (self, Err(CpuFault::UnimplementedBranch)),
        }
    }

    /// The second half of a Thumb long branch with link: the target is the
    /// link register (set by the first half) plus twice the offset; the link
    /// register takes the return address with bit 0 set. The BLX form
    /// word-aligns the target and enters ARM state.
    #[verifier::opaque]
    pub open spec fn branch_link_suffix(self, op: BranchOperation) -> (GbaModel, Result<u32, CpuFault>) {
        let ret = wsub(self.reg(Register::R15), self.instruction_size()) | 1;
        match op {
            BranchOperation::BranchLinkImmed { offset, .. } => {
                let pc = wadd(self.reg(Register::R14), (offset as u32) << 1u32);
                (self.write_reg(Register::R14, ret).write_reg(Register::R15, pc), Ok(4))
            },
            BranchOperation::BranchExchangeLinkThumbImmed { offset } => {
                let pc = wadd(self.reg(Register::R14), (offset as u32) << 1u32) & 0xFFFFFFFC;
                (
                    self.write_reg(Register::R14, ret).write_reg(Register::R15, pc).set_flag(
                        ProgramStatus::FLAG_T,
                        false,
                    ),
                    Ok(4),
                )
            },
            _ => (self, Err(CpuFault::UnexpectedBranchLinkSuffix)),
        }
    }

    /// Executing one instruction: the state after it and the cycles it took
    /// (always 4), or the fault that stops the processor.
    pub open spec fn execute(self, inst: ArmInstruction) -> (GbaModel, Result<u32, CpuFault>) {
        match inst {
            ArmInstruction::DataProcessing { c, op, s, rn, rd, shifter_operand } => if self.condition_passed(c) {
                let m = self.alu(op, s, rd, rn, shifter_operand);
                if rd == Register::R15 {
                    (m.write_pc_exchange(m.reg(rd)), Ok(4))
                } else {
                    (m, Ok(4))
                }
            } else {
                (self, Ok(4))
            },
            ArmInstruction::LoadStore { c, pre_indexed, add_offset, width, w, load, rn, rd, shifter_operand } => if self.condition_passed(c) {
                self.load_store(pre_indexed, add_offset, width, load, rn, rd, shifter_operand)
            } else {
                (self, Ok(4))
            },
            ArmInstruction::LoadStoreStatus { c, r, op } => if self.condition_passed(c) {
                (self.status_transfer(r, op), Ok(4))
            } else {
                (self, Ok(4))
            },
            ArmInstruction::LoadStoreMultiple { c, exclude_first_word, upwards, update_base, load_usermode, load, rn, register_list } => if self.condition_passed(c) {
                self.block_transfer(exclude_first_word, upwards, update_base, load, rn, register_list)
            } else {
                (self, Ok(4))
            },
            ArmInstruction::Branch { c, op } => if self.condition_passed(c) {
                self.branch(op)
            } else {
                (self, Ok(4))
            },
            ArmInstruction::BranchLinkPrefix { offset } => (
                self.write_reg(
                    Register::R14,
                    wadd(
                        self.reg(Register::R15),
                        sign_extend_spec(((offset as u32) << 12u32) as u32, 22) as u32,
                    ),
                ),
                Ok(4),
            ),
            ArmInstruction::BranchLinkSuffix { op } => self.branch_link_suffix(op),
            _ => (self, Err(CpuFault::UnimplementedInstruction)),
        }
    }
}

impl GbaSystem {
    fn calc_ls_offset(&self, so: &LSShifterOperand) -> (r: u32)
        ensures
            r == self@.ls_offset(*so),
    {
        match *so {
            LSShifterOperand::Immediate { immed } => immed as u32,
            LSShifterOperand::ImmediateShift { immed, shift_type, rm } => {
                let x = self.read_register(rm);
                let n = immed as u32;
                assert(n < 256);
                match shift_type {
                    ShiftType::LSL => {
                        proof {
                            lemma_low_five_bits(n);
                        }
                        x << (n & 31)
                    },
                    ShiftType::LSR => if immed == 0 {
                        0
                    } else {
                        proof {
                            lemma_low_five_bits(n);
                        }
                        x >> (n & 31)
                    },
                    ShiftType::ASR => {
                        if immed == 0 {
                            if (x & 0x80000000) != 0 {
                                0xFFFFFFFF
                            } else {
                                0
                            }
                        } else {
                            proof {
                            lemma_low_five_bits(n);
                        }
                            ((x as i32) >> (n & 31)) as u32
                        }
                    },
                    ShiftType::ROR => {
                        let k = n & 31;
                        proof {
        lemma_low_five_bits(n);
    }
                        if k == 0 {
                            x
                        } else {
                            (x >> k) | (x << (32 - k))
                        }
                    },
                    ShiftType::RRX => {
                        proof {
                            lemma_low_five_bits(n);
                        }
                        (if self.cpsr.contains(ProgramStatus::FLAG_C) {
                            0x80000000
                        } else {
                            0
                        }) | (x >> (n & 31))
                    },
                }
            },
        }
    }

    fn write_pc_exchange(&mut self, v: u32)
        ensures
            final(self)@ == old(self)@.write_pc_exchange(v),
    {
        self.write_register(Register::R15, v & 0xFFFFFFFE);
        self.cpsr.set(ProgramStatus::FLAG_T, (v & 0x1) != 0);
    }

    fn calc_ls_address(&self, add_offset: bool, rn: Register, so: &LSShifterOperand) -> (r: u32)
        ensures
            r == self@.ls_address(add_offset, rn, *so),
    {
        let adr: u32 = self.calc_ls_offset(so);
        let addr_base = if rn == Register::R15 && self.cpsr.contains(ProgramStatus::FLAG_T) {
            self.read_register(rn) & 0xFFFFFFFC
        } else {
            self.read_register(rn)
        };
        if add_offset {
            addr_base.wrapping_add(adr)
        } else {
            addr_base.wrapping_sub(adr)
        }
    }

    fn load_at(&mut self, width: BusWidth, rd: Register, adr: u32) -> (r: Result<u32, CpuFault>)
        requires
            old(self)@.wf(),
        ensures
            final(self)@ == old(self)@.load_at(width, rd, adr).0,
            r == old(self)@.load_at(width, rd, adr).1,
            final(self)@.wf(),
    {
        match width {
            BusWidth::Byte => match self.read_bus_byte(adr) {
                Some(d) => {
                    self.write_register(rd, d as u32);
                    Ok(4)
                },
                None => Err(CpuFault::AccessViolation),
            },
            BusWidth::HalfWord => {
                if !self.half_word_readable(adr) {
                    return Err(CpuFault::UnalignedHalfWordRead);
                }
                match self.read_bus_half_word(adr) {
                    Some(d) => {
                        self.write_register(rd, d as u32);
                        Ok(4)
                    },
                    None => Err(CpuFault::AccessViolation),
                }
            },
            BusWidth::Word => match self.read_bus_word(adr) {
                Some(d) => {
                    if rd == Register::R15 {
                        self.write_register(rd, d & 0xFFFFFF);
                        self.cpsr.set(ProgramStatus::FLAG_T, d & 0x1 != 0);
                    } else {
                        self.write_register(rd, d);
                    }
                    Ok(4)
                },
                None => Err(CpuFault::AccessViolation),
            },
        }
    }

    fn store_at(&mut self, width: BusWidth, rd: Register, adr: u32) -> (r: Result<u32, CpuFault>)
        requires
            old(self)@.wf(),
        ensures
            final(self)@ == old(self)@.store_at(width, rd, adr).0,
            r == old(self)@.store_at(width, rd, adr).1,
            final(self)@.wf(),
    {
        let v = match width {
            BusWidth::Byte => BusValue::Byte((self.read_register(rd) & 0xFF) as u8),
            BusWidth::HalfWord => BusValue::HalfWord((self.read_register(rd) & 0xFFFF) as u16),
            BusWidth::Word => BusValue::Word(self.read_register(rd)),
        };
        if adr & 1 != 0 {
            return Err(CpuFault::UnalignedWrite);
        }
        match self.write_bus(adr, v) {
            Ok(_) => Ok(4),
            Err(_) => Err(CpuFault::AccessViolation),
        }
    }

    fn execute_load_store(
        &mut self,
        pre_indexed: bool,
        add_offset: bool,
        width: BusWidth,
        load: bool,
        rn: Register,
        rd: Register,
        shifter_operand: &LSShifterOperand,
    ) -> (r: Result<u32, CpuFault>)
        requires
            old(self)@.wf(),
        ensures
            final(self)@ == old(self)@.load_store(
                pre_indexed,
                add_offset,
                width,
                load,
                rn,
                rd,
                *shifter_operand,
            ).0,
            r == old(self)@.load_store(pre_indexed, add_offset, width, load, rn, rd, *shifter_operand).1,
            final(self)@.wf(),
    {
        proof {
            reveal(GbaModel::load_store);
        }
        // Determine address
        let adr = self.calc_ls_address(add_offset, rn, shifter_operand);
        if !pre_indexed {
            self.write_register(rn, adr);
        }
        // Switch load or store
        if load {
            self.load_at(width, rd, adr)
        } else {
            self.store_at(width, rd, adr)
        }
    }

    fn execute_status_transfer(&mut self, r: bool, op: LoadStoreStatusOperation)
        requires
            old(self)@.wf(),
        ensures
            final(self)@ == old(self)@.status_transfer(r, op),
            final(self)@.wf(),
    {
        proof {
            reveal(GbaModel::status_transfer);
        }
        match op {
            LoadStoreStatusOperation::StatusRegisterToRegister { rd } => {
                if r {
                    match self.get_spsr() {
                        Some(v) => self.write_register(rd, v.bits()),
                        None => (),
                    }
                } else {
                    let v = self.cpsr.bits();
                    self.write_register(rd, v);
                }
            },
            LoadStoreStatusOperation::RegisterToStatusRegister { mask, rm } => {
                let val = self.read_register(rm);
                if r {
                    match self.get_spsr() {
                        Some(v) => {
                            let s = self.compute_masked_state(v, true, mask, val);
                            let _ = self.set_spsr(s);
                        },
                        _ => (),
                    }
                } else {
                    self.cpsr = self.compute_masked_state(self.cpsr, true, mask, val);
                }
            },
            LoadStoreStatusOperation::ImmediateToStatusRegister { mask, rot_imm, immed } => {
                let x = immed as u32;
                let k = (rot_imm as u32) & 31;
                proof {
        lemma_low_five_bits((rot_imm as u32));
    }
                let set_val = if k == 0 {
                    x
                } else {
                    (x >> k) | (x << (32 - k))
                };
                if r {
                    match self.get_spsr() {
                        Some(v) => {
                            let s = self.compute_masked_state(v, true, mask, set_val);
                            let _ = self.set_spsr(s);
                        },
                        _ => (),
                    }
                } else {
                    self.cpsr = self.compute_masked_state(self.cpsr, true, mask, set_val);
                }
            },
        }
    }

    fn execute_block_transfer(
        &mut self,
        exclude_first_word: bool,
        upwards: bool,
        update_base: bool,
        load: bool,
        rn: Register,
        register_list: RegisterList,
    ) -> (r: Result<u32, CpuFault>)
        requires
            old(self)@.wf(),
        ensures
            final(self)@ == old(self)@.block_transfer(
                exclude_first_word,
                upwards,
                update_base,
                load,
                rn,
                register_list,
            ).0,
            r == old(self)@.block_transfer(
                exclude_first_word,
                upwards,
                update_base,
                load,
                rn,
                register_list,
            ).1,
            final(self)@.wf(),
    {
        proof {
            reveal(GbaModel::block_transfer);
        }
        let count = register_list.count();
        let r = self.read_register(rn);
        let n = count * 4;
        let (start_address, base) = if !exclude_first_word && upwards {
            if r.wrapping_add(n) < 4 {
                return Err(CpuFault::AddressOverflow);
            }
            (r, r.wrapping_add(n))
        } else if exclude_first_word && upwards {
            (r.wrapping_add(4), r.wrapping_add(n))
        } else if !exclude_first_word && !upwards {
            if r.wrapping_sub(n) > 0xFFFFFFFB {
                return Err(CpuFault::AddressOverflow);
            }
            (r.wrapping_sub(n) + 4, r.wrapping_sub(n))
        } else {
            (r.wrapping_sub(n), r.wrapping_sub(n))
        };
        if update_base {
            self.write_register(rn, base);
        }
        let ghost target = self@.transfer(register_list.bits, 0, start_address, load);
        let mut address = start_address;
        let mut i: u16 = 0;
        while i < 16
            invariant
                i <= 16,
                self@.wf(),
                self@.transfer(register_list.bits, i, address, load) == target,
                target == old(self)@.block_transfer(
                    exclude_first_word,
                    upwards,
                    update_base,
                    load,
                    rn,
                    register_list,
                ),
            decreases 16 - i,
        {
            if (register_list.bits >> i) & 1 == 1 {
                let reg = match Register::try_from(i as u8) {
                    Ok(reg) => reg,
                    Err(_) => Register::R0,
                };
                if load {
                    if let Some(val) = self.read_bus_word(address) {
                        if reg == Register::R15 {
                            self.write_pc_exchange(val);
                        } else {
                            self.write_register(reg, val);
                        }
                    }
                } else {
                    if address & 1 != 0 {
                        assert(self@.transfer(register_list.bits, i, address, load) == (
                            self@,
                            Err::<u32, CpuFault>(CpuFault::UnalignedWrite),
                        ));
                        return Err(CpuFault::UnalignedWrite);
                    }
                    let v = self.read_register(reg);
                    let _ = self.write_bus(address, BusValue::Word(v));
                }
                address = address.wrapping_add(4);
            }
            i = i + 1;
        }
        Ok(4)
    }

    fn execute_data_processing(
        &mut self,
        op: DataProcessingOpcode,
        s: bool,
        rn: Register,
        rd: Register,
        shifter_operand: &DPShifterOperand,
    )
        requires
            old(self)@.wf(),
        ensures
            final(self)@ == ({
                let m = old(self)@.alu(op, s, rd, rn, *shifter_operand);
                if rd == Register::R15 {
                    m.write_pc_exchange(m.reg(rd))
                } else {
                    m
                }
            }),
            final(self)@.wf(),
    {
        proof {
            lemma_data_processing_keeps_memory(self@, op, s, rd, rn, *shifter_operand);
        }
        self.alu_perform(&op, s, rd, rn, shifter_operand);
        if rd == Register::R15 {
            let val = self.read_register(rd);
            self.write_pc_exchange(val);
        }
    }

    fn execute_branch(&mut self, op: BranchOperation) -> (r: Result<u32, CpuFault>)
        requires
            old(self)@.wf(),
        ensures
            final(self)@ == old(self)@.branch(op).0,
            r == old(self)@.branch(op).1,
            final(self)@.wf(),
    {
        proof {
            reveal(GbaModel::branch);
        }
        match op {
            BranchOperation::BranchImmed { offset } => {
                let pc = self.read_register(Register::R15).wrapping_add_signed(offset);
                self.write_register(Register::R15, pc);
            },
            BranchOperation::BranchLinkImmed { offset, lr_correct } => {
                let lr = self.read_register(Register::R15).wrapping_sub(
                    self.instruction_size(),
                ).wrapping_add(lr_correct as u32);
                self.write_register(Register::R14, lr);
                if self.cpsr.contains(ProgramStatus::FLAG_T) {
                    let lr = self.read_register(Register::R14) | 1;
                    self.write_register(Register::R14, lr);
                }
                let pc = self.read_register(Register::R15).wrapping_add_signed(offset);
                self.write_register(Register::R15, pc);
            },
            BranchOperation::BranchExchangeThumb { rm } => {
                let target = self.read_register(rm) & 0xFFFFFFFE;
                self.write_register(Register::R15, target);
                let t = self.read_register(rm) & 0x1 != 0;
                self.cpsr.set(ProgramStatus::FLAG_T, t);
            },
            BranchOperation::BranchExchangeLinkThumb { rm } => {
                let lr = self.read_register(Register::R15).wrapping_sub(self.instruction_size());
                self.write_register(Register::R14, lr);
                let target = self.read_register(rm) & 0xFFFFFFFE;
                self.write_register(Register::R15, target);
                let t = self.read_register(rm) & 0x1 != 0;
                self.cpsr.set(ProgramStatus::FLAG_T, t);
            },
            BranchOperation::BranchExchangeLinkThumbImmed { offset } => {
                let lr = self.read_register(Register::R15).wrapping_sub(self.instruction_size());
                self.write_register(Register::R14, lr);
                let pc = self.read_register(Register::R15).wrapping_add_signed(offset);
                self.write_register(Register::R15, pc);
                self.cpsr.set(ProgramStatus::FLAG_T, false);
            },
            BranchOperation::BranchExchangeJava { .. } => {
                return Err(CpuFault::UnimplementedBranch);
            },
        }
        Ok(4)
    }

    fn execute_branch_link_suffix(&mut self, op: BranchOperation) -> (r: Result<u32, CpuFault>)
        requires
            old(self)@.wf(),
        ensures
            final(self)@ == old(self)@.branch_link_suffix(op).0,
            r == old(self)@.branch_link_suffix(op).1,
            final(self)@.wf(),
    {
        proof {
            reveal(GbaModel::branch_link_suffix);
        }
        match op {
            BranchOperation::BranchLinkImmed { offset, .. } => {
                let pc = self.read_register(Register::R14).wrapping_add((offset as u32) << 1u32);
                let lr = self.read_register(Register::R15).wrapping_sub(self.instruction_size()) | 1;
                self.write_register(Register::R14, lr);
                self.write_register(Register::R15, pc);
                Ok(4)
            },
            BranchOperation::BranchExchangeLinkThumbImmed { offset } => {
                let pc = self.read_register(Register::R14).wrapping_add((offset as u32) << 1u32)
                    & 0xFFFFFFFC;
                let lr = self.read_register(Register::R15).wrapping_sub(self.instruction_size()) | 1;
                self.write_register(Register::R14, lr);
                self.write_register(Register::R15, pc);
                self.cpsr.set(ProgramStatus::FLAG_T, false);
                Ok(4)
            },
            _ => Err(CpuFault::UnexpectedBranchLinkSuffix),
        }
    }

    /// Executes one decoded instruction (see `GbaModel::execute`): the cycles
    /// it took, or the fault that stops the processor.
    pub fn execute(&mut self, inst: &ArmInstruction) -> (r: Result<u32, CpuFault>)
        requires
            old(self)@.wf(),
        ensures
            final(self)@ == old(self)@.execute(*inst).0,
            r == old(self)@.execute(*inst).1,
            final(self)@.wf(),
    {
        match *inst {
            ArmInstruction::DataProcessing { c, op, s, rn, rd, shifter_operand } => {
                if self.test_condition(c) {
                    self.execute_data_processing(op, s, rn, rd, &shifter_operand);
                }
                Ok(4)
            },
            ArmInstruction::LoadStore {
                c,
                pre_indexed,
                add_offset,
                width,
                w,
                load,
                rn,
                rd,
                shifter_operand,
            } => {
                if self.test_condition(c) {
                    self.execute_load_store(
                        pre_indexed,
                        add_offset,
                        width,
                        load,
                        rn,
                        rd,
                        &shifter_operand,
                    )
                } else {
                    Ok(4)
                }
            },
            ArmInstruction::LoadStoreStatus { c, r, op } => {
                if self.test_condition(c) {
                    self.execute_status_transfer(r, op);
                }
                Ok(4)
            },
            ArmInstruction::LoadStoreMultiple {
                c,
                exclude_first_word,
                upwards,
                update_base,
                load_usermode,
                load,
                rn,
                register_list,
            } => {
                if self.test_condition(c) {
                    self.execute_block_transfer(
                        exclude_first_word,
                        upwards,
                        update_base,
                        load,
                        rn,
                        register_list,
                    )
                } else {
                    Ok(4)
                }
            },
            ArmInstruction::Branch { c, op } => {
                if self.test_condition(c) {
                    self.execute_branch(op)
                } else {
                    Ok(4)
                }
            },
            ArmInstruction::BranchLinkPrefix { offset } => {
                let lr = self.read_register(Register::R15).wrapping_add(
                    #[verifier::truncate] (sign_extend((offset as u32) << 12u32, 22) as u32),
                );
                self.write_register(Register::R14, lr);
                Ok(4)
            },
            ArmInstruction::BranchLinkSuffix { op } => self.execute_branch_link_suffix(op),
            _ => Err(CpuFault::UnimplementedInstruction),
        }
    }
}

proof fn lemma_transfer_keeps_system(m: GbaModel, list: u16, i: u16, address: u32, load: bool)
    ensures
        m.transfer(list, i, address, load).0.same_system(m),
    decreases 16 - i,
{
    if i < 16 && (list >> i) & 1 == 1 {
        let reg = register_of_index(i as int);
        if load {
            let n = match m.read_bus_word(address) {
                Some(val) => if reg == Register::R15 {
                    m.write_pc_exchange(val)
                } else {
                    m.write_reg(reg, val)
                },
                None => m,
            };
            lemma_transfer_keeps_system(n, list, (i + 1) as u16, wadd(address, 4), load);
        } else if address & 1 == 0 {
            let n = m.write_bus(address, BusValue::Word(m.reg(reg))).0;
            lemma_write_bus_keeps_system(m, address, BusValue::Word(m.reg(reg)));
            lemma_transfer_keeps_system(n, list, (i + 1) as u16, wadd(address, 4), load);
        }
    } else if i < 16 {
        lemma_transfer_keeps_system(m, list, (i + 1) as u16, address, load);
    }
}

proof fn lemma_load_at_keeps_system(m: GbaModel, width: BusWidth, rd: Register, adr: u32)
    ensures
        m.load_at(width, rd, adr).0.same_system(m),
{
}

proof fn lemma_store_at_keeps_system(m: GbaModel, width: BusWidth, rd: Register, adr: u32)
    ensures
        m.store_at(width, rd, adr).0.same_system(m),
{
    let v = match width {
        BusWidth::Byte => BusValue::Byte((m.reg(rd) & 0xFF) as u8),
        BusWidth::HalfWord => BusValue::HalfWord((m.reg(rd) & 0xFFFF) as u16),
        BusWidth::Word => BusValue::Word(m.reg(rd)),
    };
    lemma_write_bus_keeps_system(m, adr, v);
}

proof fn lemma_load_store_keeps_system(
    m: GbaModel,
    pre_indexed: bool,
    add_offset: bool,
    width: BusWidth,
    load: bool,
    rn: Register,
    rd: Register,
    so: LSShifterOperand,
)
    ensures
        m.load_store(pre_indexed, add_offset, width, load, rn, rd, so).0.same_system(m),
{
    let adr = m.ls_address(add_offset, rn, so);
    let n = if !pre_indexed {
        m.write_reg(rn, adr)
    } else {
        m
    };
    assert(m.load_store(pre_indexed, add_offset, width, load, rn, rd, so) == if load {
        n.load_at(width, rd, adr)
    } else {
        n.store_at(width, rd, adr)
    }) by {
        reveal(GbaModel::load_store);
    }
    lemma_load_at_keeps_system(n, width, rd, adr);
    lemma_store_at_keeps_system(n, width, rd, adr);
}

proof fn lemma_block_transfer_keeps_system(
    m: GbaModel,
    exclude_first_word: bool,
    upwards: bool,
    update_base: bool,
    load: bool,
    rn: Register,
    list: RegisterList,
)
    ensures
        m.block_transfer(exclude_first_word, upwards, update_base, load, rn, list).0.same_system(m),
{
    reveal(GbaModel::block_transfer);
    match m.block_addresses(exclude_first_word, upwards, rn, popcount(list.bits as nat) as u32) {
        Ok((start, base)) => {
            let n = if update_base {
                m.write_reg(rn, base)
            } else {
                m
            };
            lemma_transfer_keeps_system(n, list.bits, 0, start, load);
        },
        _ => {},
    }
}

/// Executing an instruction changes the processor registers, the memories
/// and the I/O registers only: the decoding tables, the prefetch queue, the
/// breakpoints, the program counter and the LCD counters stay as they were.
pub proof fn lemma_execute_keeps_system(m: GbaModel, inst: ArmInstruction)
    ensures
        m.execute(inst).0.same_system(m),
{
    match inst {
        ArmInstruction::DataProcessing { op, s, rn, rd, shifter_operand, .. } => {
            lemma_data_processing_keeps_memory(m, op, s, rd, rn, shifter_operand);
        },
        ArmInstruction::LoadStore { pre_indexed, add_offset, width, load, rn, rd, shifter_operand, .. } => {
            lemma_load_store_keeps_system(m, pre_indexed, add_offset, width, load, rn, rd, shifter_operand);
        },
        ArmInstruction::LoadStoreStatus { r, op, .. } => {
            assert(m.status_transfer(r, op).same_system(m)) by {
                reveal(GbaModel::status_transfer);
            }
        },
        ArmInstruction::LoadStoreMultiple { exclude_first_word, upwards, update_base, load, rn, register_list, .. } => {
            lemma_block_transfer_keeps_system(m, exclude_first_word, upwards, update_base, load, rn, register_list);
        },
        ArmInstruction::Branch { op, .. } => {
            assert(m.branch(op).0.same_system(m)) by {
                reveal(GbaModel::branch);
            }
        },
        ArmInstruction::BranchLinkSuffix { op } => {
            assert(m.branch_link_suffix(op).0.same_system(m)) by {
                reveal(GbaModel::branch_link_suffix);
            }
        },
        _ => {},
    }
}

proof fn lemma_transfer_cycles(m: GbaModel, list: u16, i: u16, address: u32, load: bool)
    ensures
        m.transfer(list, i, address, load).1 matches Ok(t) ==> t == 4,
    decreases 16 - i,
{
    if i < 16 && (list >> i) & 1 == 1 {
        let reg = register_of_index(i as int);
        if load {
            let n = match m.read_bus_word(address) {
                Some(val) => if reg == Register::R15 {
                    m.write_pc_exchange(val)
                } else {
                    m.write_reg(reg, val)
                },
                None => m,
            };
            lemma_transfer_cycles(n, list, (i + 1) as u16, wadd(address, 4), load);
        } else if address & 1 == 0 {
            let n = m.write_bus(address, BusValue::Word(m.reg(reg))).0;
            lemma_transfer_cycles(n, list, (i + 1) as u16, wadd(address, 4), load);
        }
    } else if i < 16 {
        lemma_transfer_cycles(m, list, (i + 1) as u16, address, load);
    }
}

/// Every instruction that executes takes four cycles.
pub proof fn lemma_execute_takes_four_cycles(m: GbaModel, inst: ArmInstruction)
    ensures
        m.execute(inst).1 matches Ok(t) ==> t == 4,
{
    match inst {
        ArmInstruction::LoadStore { pre_indexed, add_offset, width, load, rn, rd, shifter_operand, .. } => {
            let adr = m.ls_address(add_offset, rn, shifter_operand);
            let n = if !pre_indexed {
                m.write_reg(rn, adr)
            } else {
                m
            };
            assert(m.load_store(pre_indexed, add_offset, width, load, rn, rd, shifter_operand) == if load {
                n.load_at(width, rd, adr)
            } else {
                n.store_at(width, rd, adr)
            }) by {
                reveal(GbaModel::load_store);
            }
        },
        ArmInstruction::LoadStoreMultiple { exclude_first_word, upwards, update_base, load, rn, register_list, .. } => {
            reveal(GbaModel::block_transfer);
            match m.block_addresses(exclude_first_word, upwards, rn, popcount(register_list.bits as nat) as u32) {
                Ok((start, base)) => {
                    let n = if update_base {
                        m.write_reg(rn, base)
                    } else {
                        m
                    };
                    lemma_transfer_cycles(n, register_list.bits, 0, start, load);
                },
                _ => {},
            }
        },
        ArmInstruction::Branch { op, .. } => {
            assert(m.branch(op).1 matches Ok(t) ==> t == 4) by {
                reveal(GbaModel::branch);
            }
        },
        ArmInstruction::BranchLinkSuffix { op } => {
            assert(m.branch_link_suffix(op).1 matches Ok(t) ==> t == 4) by {
                reveal(GbaModel::branch_link_suffix);
            }
        },
        _ => {},
    }
}

/// `a + b` modulo 2^32 for a signed `b`, as the wrapping addition computes it.
proof fn lemma_wadd_signed_value(a: u32, b: i32)
    ensures
        wadd_signed(a, b) as int == (a as int + b as int) % 0x1_0000_0000,
{
}

/// `a - b + c` modulo 2^32, as a wrapping subtraction then a wrapping
/// addition compute it.
proof fn lemma_wsub_wadd_value(a: u32, b: u32, c: u32)
    ensures
        wadd(wsub(a, b), c) as int == (a as int - b as int + c as int) % 0x1_0000_0000,
        wsub(a, b) as int == (a as int - b as int) % 0x1_0000_0000,
        wadd(a, b) as int == (a as int + b as int) % 0x1_0000_0000,
{
}

/// A branch with link that executes saves the return address in r14 and
/// jumps: in ARM state r14 takes r15 - 4 + `lr_correct` (the instruction
/// after the branch, as r15 runs two instructions ahead), in Thumb state
/// r15 - 2 + `lr_correct` with bit 0 set; r15 takes r15 + `offset`, all
/// modulo 2^32. No other register and no status bit changes.
pub proof fn lemma_branch_with_link(m: GbaModel, c: Condition, offset: i32, lr_correct: i32)
    requires
        m.condition_passed(c),
    ensures
        ({
            let pc = m.reg(Register::R15) as int;
            let r = m.execute(
                ArmInstruction::Branch {
                    c,
                    op: BranchOperation::BranchLinkImmed { offset, lr_correct },
                },
            );
            &&& r.1 == Ok::<u32, CpuFault>(4)
            &&& r.0.cpsr == m.cpsr
            &&& r.0.reg(Register::R15) as int == (pc + offset as int) % 0x1_0000_0000
            &&& !m.cpsr.has(ProgramStatus::FLAG_T) ==> r.0.reg(Register::R14) as int == (pc - 4
                + lr_correct as u32 as int) % 0x1_0000_0000
            &&& m.cpsr.has(ProgramStatus::FLAG_T) ==> r.0.reg(Register::R14) == (((pc - 2
                + lr_correct as u32 as int) % 0x1_0000_0000) as u32 | 1u32)
            &&& forall|x: Register|
                x != Register::R14 && x != Register::R15 ==> #[trigger] r.0.reg(x) == m.reg(x)
        }),
{
    reveal(GbaModel::branch);
    let pc = m.reg(Register::R15);
    let isz = m.instruction_size();
    let lr = wadd(wsub(pc, isz), lr_correct as u32);
    lemma_wsub_wadd_value(pc, isz, lr_correct as u32);
    let m1 = m.write_reg(Register::R14, lr);
    crate::gba::lemma_write_then_read_register(m, Register::R14, Register::R15, lr);
    let m2 = if m1.cpsr.has(ProgramStatus::FLAG_T) {
        m1.write_reg(Register::R14, m1.reg(Register::R14) | 1)
    } else {
        m1
    };
    crate::gba::lemma_write_then_read_register(m1, Register::R14, Register::R15, lr | 1);
    let target = wadd_signed(m2.reg(Register::R15), offset);
    lemma_wadd_signed_value(pc, offset);
    let m3 = m2.write_reg(Register::R15, target);
    crate::gba::lemma_write_then_read_register(m2, Register::R15, Register::R14, target);
    assert forall|x: Register| x != Register::R14 && x != Register::R15 implies #[trigger] m3.reg(x)
        == m.reg(x) by {
        crate::gba::lemma_write_then_read_register(m, Register::R14, x, lr);
        crate::gba::lemma_write_then_read_register(m1, Register::R14, x, lr | 1);
        crate::gba::lemma_write_then_read_register(m2, Register::R15, x, target);
    }
}

/// A branch without link that executes sets r15 to r15 + `offset` modulo
/// 2^32 and changes no other register and no status bit.
pub proof fn lemma_branch_immediate(m: GbaModel, c: Condition, offset: i32)
    requires
        m.condition_passed(c),
    ensures
        ({
            let r = m.execute(
                ArmInstruction::Branch { c, op: BranchOperation::BranchImmed { offset } },
            );
            &&& r.1 == Ok::<u32, CpuFault>(4)
            &&& r.0.cpsr == m.cpsr
            &&& r.0.reg(Register::R15) as int == (m.reg(Register::R15) as int + offset as int)
                % 0x1_0000_0000
            &&& forall|x: Register| x != Register::R15 ==> #[trigger] r.0.reg(x) == m.reg(x)
        }),
{
    reveal(GbaModel::branch);
    let target = wadd_signed(m.reg(Register::R15), offset);
    lemma_wadd_signed_value(m.reg(Register::R15), offset);
    crate::gba::lemma_write_then_read_register(m, Register::R15, Register::R15, target);
    assert forall|x: Register| x != Register::R15 implies #[trigger] m.write_reg(
        Register::R15,
        target,
    ).reg(x) == m.reg(x) by {
        crate::gba::lemma_write_then_read_register(m, Register::R15, x, target);
    }
}

/// Setting or clearing the T flag makes it read back as set or clear and
/// keeps the mode.
proof fn lemma_thumb_flag_set(p: ProgramStatus, t: bool)
    ensures
        p.with(ProgramStatus::FLAG_T, t).has(ProgramStatus::FLAG_T) == t,
        p.with(ProgramStatus::FLAG_T, t).mode() == p.mode(),
{
    assert(ProgramStatus::FLAG_T & 0 == 0) by (bit_vector);
    lemma_flag_set_get(p, ProgramStatus::FLAG_T, 0, t);
    lemma_flag_keeps_mode(p, ProgramStatus::FLAG_T, t);
}

/// A branch and exchange through a register other than r15 jumps to that
/// register with bit 0 cleared and enters Thumb state exactly when bit 0 was
/// set; no other register changes.
pub proof fn lemma_branch_exchange(m: GbaModel, c: Condition, rm: Register)
    requires
        m.condition_passed(c),
        rm != Register::R15,
    ensures
        ({
            let r = m.execute(
                ArmInstruction::Branch { c, op: BranchOperation::BranchExchangeThumb { rm } },
            );
            &&& r.1 == Ok::<u32, CpuFault>(4)
            &&& r.0.reg(Register::R15) == m.reg(rm) & 0xFFFFFFFE
            &&& r.0.cpsr.has(ProgramStatus::FLAG_T) == (m.reg(rm) & 1 != 0)
            &&& r.0.mode() == m.mode()
            &&& forall|x: Register| x != Register::R15 ==> #[trigger] r.0.reg(x) == m.reg(x)
        }),
{
    reveal(GbaModel::branch);
    let target = m.reg(rm) & 0xFFFFFFFE;
    let m1 = m.write_reg(Register::R15, target);
    crate::gba::lemma_write_then_read_register(m, Register::R15, Register::R15, target);
    crate::gba::lemma_write_then_read_register(m, Register::R15, rm, target);
    let t = m1.reg(rm) & 0x1 != 0;
    lemma_thumb_flag_set(m1.cpsr, t);
    assert forall|x: Register| x != Register::R15 implies #[trigger] m1.set_flag(
        ProgramStatus::FLAG_T,
        t,
    ).reg(x) == m.reg(x) by {
        crate::gba::lemma_write_then_read_register(m, Register::R15, x, target);
    }
}

/// The address of a load or store is the base register (word-aligned when
/// it is r15 in Thumb state) plus the offset modulo 2^32 when the U bit is
/// set, and the base minus the offset modulo 2^32 when it is clear; an
/// immediate offset is the immediate itself.
pub proof fn lemma_load_store_address(
    m: GbaModel,
    add_offset: bool,
    rn: Register,
    so: LSShifterOperand,
)
    ensures
        ({
            let base = if rn == Register::R15 && m.cpsr.has(ProgramStatus::FLAG_T) {
                m.reg(rn) & 0xFFFFFFFC
            } else {
                m.reg(rn)
            } as int;
            let off = m.ls_offset(so) as int;
            m.ls_address(add_offset, rn, so) as int == if add_offset {
                (base + off) % 0x1_0000_0000
            } else {
                (base - off) % 0x1_0000_0000
            }
        }),
        so matches LSShifterOperand::Immediate { immed } ==> m.ls_offset(so) == immed as u32,
{
    let base = if rn == Register::R15 && m.cpsr.has(ProgramStatus::FLAG_T) {
        m.reg(rn) & 0xFFFFFFFC
    } else {
        m.reg(rn)
    };
    lemma_wsub_wadd_value(base, m.ls_offset(so), 0);
}

/// A pre-indexed word load with an immediate offset that executes reads the
/// word at the base register (r0 to r14) plus or minus the immediate, modulo
/// 2^32 (minus when the U bit is clear), into `rd`; where nothing can be
/// read there it faults and changes nothing.
pub proof fn lemma_load_word_immediate(
    m: GbaModel,
    c: Condition,
    add_offset: bool,
    w: bool,
    rn: Register,
    rd: Register,
    immed: u16,
)
    requires
        m.condition_passed(c),
        rn != Register::R15,
        rd != Register::R15,
    ensures
        ({
            let adr = m.ls_address(add_offset, rn, LSShifterOperand::Immediate { immed });
            let r = m.execute(
                ArmInstruction::LoadStore {
                    c,
                    pre_indexed: true,
                    add_offset,
                    width: BusWidth::Word,
                    w,
                    load: true,
                    rn,
                    rd,
                    shifter_operand: LSShifterOperand::Immediate { immed },
                },
            );
            &&& adr as int == if add_offset {
                (m.reg(rn) as int + immed as int) % 0x1_0000_0000
            } else {
                (m.reg(rn) as int - immed as int) % 0x1_0000_0000
            }
            &&& match m.read_bus_word(adr) {
                Some(d) => r.1 == Ok::<u32, CpuFault>(4) && r.0.reg(rd) == d && forall|x: Register|
                    x != rd ==> #[trigger] r.0.reg(x) == m.reg(x),
                None => r.1 == Err::<u32, CpuFault>(CpuFault::AccessViolation) && r.0 == m,
            }
        }),
{
    let so = LSShifterOperand::Immediate { immed };
    lemma_load_store_address(m, add_offset, rn, so);
    let adr = m.ls_address(add_offset, rn, so);
    reveal(GbaModel::load_store);
    match m.read_bus_word(adr) {
        Some(d) => {
            crate::gba::lemma_write_then_read_register(m, rd, rd, d);
            assert forall|x: Register| x != rd implies #[trigger] m.write_reg(rd, d).reg(x) == m.reg(
                x,
            ) by {
                crate::gba::lemma_write_then_read_register(m, rd, x, d);
            }
        },
        None => {},
    }
}

/// A branch with link and exchange through a register other than r14 and
/// r15 saves r15 minus the instruction size (the instruction after it)
/// modulo 2^32 in r14, jumps to the register with bit 0 cleared and enters
/// Thumb state exactly when bit 0 was set.
pub proof fn lemma_branch_exchange_with_link(m: GbaModel, c: Condition, rm: Register)
    requires
        m.condition_passed(c),
        rm != Register::R14,
        rm != Register::R15,
    ensures
        ({
            let r = m.execute(
                ArmInstruction::Branch { c, op: BranchOperation::BranchExchangeLinkThumb { rm } },
            );
            &&& r.1 == Ok::<u32, CpuFault>(4)
            &&& r.0.reg(Register::R14) as int == (m.reg(Register::R15) as int
                - m.instruction_size() as int) % 0x1_0000_0000
            &&& r.0.reg(Register::R15) == m.reg(rm) & 0xFFFFFFFE
            &&& r.0.cpsr.has(ProgramStatus::FLAG_T) == (m.reg(rm) & 1 != 0)
            &&& r.0.mode() == m.mode()
            &&& forall|x: Register|
                x != Register::R14 && x != Register::R15 ==> #[trigger] r.0.reg(x) == m.reg(x)
        }),
{
    reveal(GbaModel::branch);
    let pc = m.reg(Register::R15);
    let lr = wsub(pc, m.instruction_size());
    lemma_wsub_wadd_value(pc, m.instruction_size(), 0);
    let m1 = m.write_reg(Register::R14, lr);
    crate::gba::lemma_write_then_read_register(m, Register::R14, rm, lr);
    let target = m1.reg(rm) & 0xFFFFFFFE;
    let m2 = m1.write_reg(Register::R15, target);
    crate::gba::lemma_write_then_read_register(m1, Register::R15, Register::R15, target);
    crate::gba::lemma_write_then_read_register(m1, Register::R15, Register::R14, target);
    crate::gba::lemma_write_then_read_register(m1, Register::R15, rm, target);
    crate::gba::lemma_write_then_read_register(m, Register::R14, Register::R14, lr);
    let t = m2.reg(rm) & 0x1 != 0;
    lemma_thumb_flag_set(m2.cpsr, t);
    assert forall|x: Register| x != Register::R14 && x != Register::R15 implies #[trigger] m2.set_flag(
        ProgramStatus::FLAG_T,
        t,
    ).reg(x) == m.reg(x) by {
        crate::gba::lemma_write_then_read_register(m, Register::R14, x, lr);
        crate::gba::lemma_write_then_read_register(m1, Register::R15, x, target);
    }
}

/// The second half of a Thumb long branch with link jumps to r14 plus twice
/// its 11-bit offset, modulo 2^32, and leaves in r14 the address of the
/// instruction after it (r15 minus the instruction size) with bit 0 set.
pub proof fn lemma_branch_link_suffix(m: GbaModel, offset: i32, lr_correct: i32)
    ensures
        ({
            let r = m.execute(
                ArmInstruction::BranchLinkSuffix {
                    op: BranchOperation::BranchLinkImmed { offset, lr_correct },
                },
            );
            &&& r.1 == Ok::<u32, CpuFault>(4)
            &&& r.0.reg(Register::R15) as int == (m.reg(Register::R14) as int + ((offset as u32)
                << 1u32) as int) % 0x1_0000_0000
            &&& r.0.reg(Register::R14) == (((m.reg(Register::R15) as int
                - m.instruction_size() as int) % 0x1_0000_0000) as u32 | 1u32)
            &&& r.0.cpsr == m.cpsr
            &&& forall|x: Register|
                x != Register::R14 && x != Register::R15 ==> #[trigger] r.0.reg(x) == m.reg(x)
        }),
{
    reveal(GbaModel::branch_link_suffix);
    let ret = wsub(m.reg(Register::R15), m.instruction_size()) | 1;
    let pc = wadd(m.reg(Register::R14), (offset as u32) << 1u32);
    lemma_wsub_wadd_value(m.reg(Register::R15), m.instruction_size(), 0);
    lemma_wsub_wadd_value(m.reg(Register::R14), (offset as u32) << 1u32, 0);
    let m1 = m.write_reg(Register::R14, ret);
    crate::gba::lemma_write_then_read_register(m1, Register::R15, Register::R15, pc);
    crate::gba::lemma_write_then_read_register(m1, Register::R15, Register::R14, pc);
    crate::gba::lemma_write_then_read_register(m, Register::R14, Register::R14, ret);
    assert forall|x: Register| x != Register::R14 && x != Register::R15 implies #[trigger] m1.write_reg(
        Register::R15,
        pc,
    ).reg(x) == m.reg(x) by {
        crate::gba::lemma_write_then_read_register(m, Register::R14, x, ret);
        crate::gba::lemma_write_then_read_register(m1, Register::R15, x, pc);
    }
}

/// The offset of a load or store through a shifted register: a logical shift
/// left by `n` multiplies by 2^n where the product fits in a word, a logical
/// shift right by `n` from 1 to 31 divides by 2^n, and a logical shift right
/// by 0 stands for a shift by 32, which leaves nothing.
pub proof fn lemma_load_store_offset_values(m: GbaModel, so: LSShifterOperand)
    ensures
        so matches LSShifterOperand::ImmediateShift { immed, shift_type, rm } ==> ({
            let x = m.reg(rm);
            &&& shift_type == ShiftType::LSL && immed < 32 && x * pow2(immed as nat) <= u32::MAX
                ==> m.ls_offset(so) == (x * pow2(immed as nat)) as u32
            &&& shift_type == ShiftType::LSR && 0 < immed < 32 ==> m.ls_offset(so) == (x as nat
                / pow2(immed as nat)) as u32
            &&& shift_type == ShiftType::LSR && immed == 0 ==> m.ls_offset(so) == 0
        }),
{
    match so {
        LSShifterOperand::ImmediateShift { immed, shift_type, rm } => {
            let n = immed as u32;
            lemma_low_five_bits(n);
            if n < 32 {
                vstd::bits::lemma_u32_shr_is_div(m.reg(rm), n);
                if m.reg(rm) * pow2(n as nat) <= u32::MAX {
                    vstd::bits::lemma_u32_shl_is_mul(m.reg(rm), n);
                }
            }
        },
        _ => {},
    }
}

/// The addresses of a block transfer of `count` words from base `b`: upwards
/// the new base is b + 4 * count and the first word is at b (increment
/// after) or b + 4 (increment before); downwards the new base is
/// b - 4 * count and the first word is there (decrement before) or one word
/// above it (decrement after); all modulo 2^32. Increment-after faults
/// exactly when the new base is below 4, decrement-after exactly when it is
/// above 0xFFFFFFFB.
pub proof fn lemma_block_addresses(
    m: GbaModel,
    exclude_first_word: bool,
    upwards: bool,
    rn: Register,
    count: u32,
)
    requires
        count <= 16,
    ensures
        ({
            let b = m.reg(rn) as int;
            let up = (b + 4 * count) % 0x1_0000_0000;
            let down = (b - 4 * count) % 0x1_0000_0000;
            let r = m.block_addresses(exclude_first_word, upwards, rn, count);
            &&& upwards && !exclude_first_word ==> (if up < 4 {
                r == Err::<(u32, u32), CpuFault>(CpuFault::AddressOverflow)
            } else {
                r matches Ok((start, base)) && start as int == b && base as int == up
            })
            &&& upwards && exclude_first_word ==> (r matches Ok((start, base)) && start as int == (b
                + 4) % 0x1_0000_0000 && base as int == up)
            &&& !upwards && !exclude_first_word ==> (if down > 0xFFFFFFFB {
                r == Err::<(u32, u32), CpuFault>(CpuFault::AddressOverflow)
            } else {
                r matches Ok((start, base)) && start as int == down + 4 && base as int == down
            })
            &&& !upwards && exclude_first_word ==> (r matches Ok((start, base)) && start as int
                == down && base as int == down)
        }),
{
    let r = m.reg(rn);
    let n = (count * 4) as u32;
    lemma_wsub_wadd_value(r, n, 0);
    lemma_wsub_wadd_value(r, 4, 0);
}

/// A pre-indexed word store with an immediate offset that executes writes
/// `rd` at the base register (r0 to r14) plus or minus the immediate, modulo
/// 2^32; at an even address of a RAM that holds words, a load from that
/// address then gives the stored word back, and the registers stay as they
/// were. A store to an odd address faults and changes nothing.
pub proof fn lemma_store_word_immediate(
    m: GbaModel,
    c: Condition,
    add_offset: bool,
    w: bool,
    rn: Register,
    rd: Register,
    immed: u16,
)
    requires
        m.wf(),
        m.condition_passed(c),
        rn != Register::R15,
    ensures
        ({
            let adr = m.ls_address(add_offset, rn, LSShifterOperand::Immediate { immed });
            let r = m.execute(
                ArmInstruction::LoadStore {
                    c,
                    pre_indexed: true,
                    add_offset,
                    width: BusWidth::Word,
                    w,
                    load: false,
                    rn,
                    rd,
                    shifter_operand: LSShifterOperand::Immediate { immed },
                },
            );
            &&& adr as int == if add_offset {
                (m.reg(rn) as int + immed as int) % 0x1_0000_0000
            } else {
                (m.reg(rn) as int - immed as int) % 0x1_0000_0000
            }
            &&& adr & 1 != 0 ==> r == (m, Err::<u32, CpuFault>(CpuFault::UnalignedWrite))
            &&& adr & 1 == 0 && crate::bus::write_read_region(adr, BusValue::Word(m.reg(rd)))
                ==> r.1 == Ok::<u32, CpuFault>(4) && r.0.read_bus(adr) == Some(
                BusValue::Word(m.reg(rd)),
            ) && r.0.r == m.r && r.0.cpsr == m.cpsr
        }),
{
    let so = LSShifterOperand::Immediate { immed };
    lemma_load_store_address(m, add_offset, rn, so);
    let adr = m.ls_address(add_offset, rn, so);
    reveal(GbaModel::load_store);
    if adr & 1 == 0 && crate::bus::write_read_region(adr, BusValue::Word(m.reg(rd))) {
        crate::bus::lemma_bus_write_then_read(m, adr, BusValue::Word(m.reg(rd)));
    }
}

} // verus!
