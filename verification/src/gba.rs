use vstd::prelude::*;
use std::collections::VecDeque;
use crate::arm::{Mode, ProgramStatus};
use crate::decode_arm::{
    ArmInstruction, InstructionTableEntry, arm_table_entries, generate_arm_instruction_table,
    sort_by_specificity,
};
use crate::decode_thumb::{
    ThumbInstructionTableEntry, generate_thumb_instruction_table, thumb_table_entries,
};
use crate::io_register::IORegister;

verus! {

/// CPU clock ticks per second of emulated time.
pub const CPU_TICKS_PER_SECOND: u32 = 16780000;

/// Words of BIOS ROM.
pub const BIOS_WORDS: usize = 4096;
/// Words of internal work RAM.
pub const IWRAM_WORDS: usize = 8192;
/// Words of object attribute memory.
pub const OAM_WORDS: usize = 256;
/// Half words of external work RAM.
pub const EWRAM_HALF_WORDS: usize = 131072;
/// Half words of video RAM.
pub const VRAM_HALF_WORDS: usize = 49152;
/// Half words of palette RAM.
pub const PRAM_HALF_WORDS: usize = 512;
/// Half words of game pak ROM.
pub const PACK_HALF_WORDS: usize = 16777216;
/// Bytes of game pak save RAM.
pub const SRAM_BYTES: usize = 65536;

/// The sixteen general-purpose registers as the instruction set names them.
#[derive(Clone, Copy, PartialEq, Eq, Structural, Debug)]
pub enum Register {
    R0,
    R1,
    R2,
    R3,
    R4,
    R5,
    R6,
    R7,
    R8,
    R9,
    R10,
    R11,
    R12,
    R13,
    R14,
    R15,
}

/// The number of a register (0 to 15).
pub open spec fn register_index(r: Register) -> int {
    match r {
        Register::R0 => 0,
        Register::R1 => 1,
        Register::R2 => 2,
        Register::R3 => 3,
        Register::R4 => 4,
        Register::R5 => 5,
        Register::R6 => 6,
        Register::R7 => 7,
        Register::R8 => 8,
        Register::R9 => 9,
        Register::R10 => 10,
        Register::R11 => 11,
        Register::R12 => 12,
        Register::R13 => 13,
        Register::R14 => 14,
        Register::R15 => 15,
    }
}

/// The register with number `i` (R15 for any number above 14).
pub open spec fn register_of_index(i: int) -> Register {
    if i == 0 {
        Register::R0
    } else if i == 1 {
        Register::R1
    } else if i == 2 {
        Register::R2
    } else if i == 3 {
        Register::R3
    } else if i == 4 {
        Register::R4
    } else if i == 5 {
        Register::R5
    } else if i == 6 {
        Register::R6
    } else if i == 7 {
        Register::R7
    } else if i == 8 {
        Register::R8
    } else if i == 9 {
        Register::R9
    } else if i == 10 {
        Register::R10
    } else if i == 11 {
        Register::R11
    } else if i == 12 {
        Register::R12
    } else if i == 13 {
        Register::R13
    } else if i == 14 {
        Register::R14
    } else {
        Register::R15
    }
}

/// The assembler name of a register.
#[verifier::opaque]
pub open spec fn register_name(r: Register) -> Seq<char> {
    match r {
        Register::R0 => "r0"@,
        Register::R1 => "r1"@,
        Register::R2 => "r2"@,
        Register::R3 => "r3"@,
        Register::R4 => "r4"@,
        Register::R5 => "r5"@,
        Register::R6 => "r6"@,
        Register::R7 => "r7"@,
        Register::R8 => "r8"@,
        Register::R9 => "r9"@,
        Register::R10 => "r10"@,
        Register::R11 => "r11"@,
        Register::R12 => "r12"@,
        Register::R13 => "sp"@,
        Register::R14 => "lr"@,
        Register::R15 => "pc"@,
    }
}

/// Register numbers and registers correspond one to one.
pub proof fn lemma_register_index_round_trip(r: Register, i: int)
    ensures
        register_of_index(register_index(r)) == r,
        0 <= register_index(r) < 16,
        0 <= i < 16 ==> register_index(register_of_index(i)) == i,
{
}

impl Register {
    /// Decodes a register number; numbers above 15 are refused.
    pub fn try_from(v: u8) -> (r: Result<Register, ()>)
        ensures
            v < 16 ==> r == Ok::<Register, ()>(register_of_index(v as int)),
            v >= 16 ==> r == Err::<Register, ()>(()),
    {
        match v {
            0 => Ok(Register::R0),
            1 => Ok(Register::R1),
            2 => Ok(Register::R2),
            3 => Ok(Register::R3),
            4 => Ok(Register::R4),
            5 => Ok(Register::R5),
            6 => Ok(Register::R6),
            7 => Ok(Register::R7),
            8 => Ok(Register::R8),
            9 => Ok(Register::R9),
            10 => Ok(Register::R10),
            11 => Ok(Register::R11),
            12 => Ok(Register::R12),
            13 => Ok(Register::R13),
            14 => Ok(Register::R14),
            15 => Ok(Register::R15),
            _ => Err(()),
        }
    }

    /// The number of the register.
    pub fn index(&self) -> (i: usize)
        ensures
            i == register_index(*self),
    {
        match self {
            Register::R0 => 0,
            Register::R1 => 1,
            Register::R2 => 2,
            Register::R3 => 3,
            Register::R4 => 4,
            Register::R5 => 5,
            Register::R6 => 6,
            Register::R7 => 7,
            Register::R8 => 8,
            Register::R9 => 9,
            Register::R10 => 10,
            Register::R11 => 11,
            Register::R12 => 12,
            Register::R13 => 13,
            Register::R14 => 14,
            Register::R15 => 15,
        }
    }

    /// The assembler name of the register (`r0` to `r12`, `sp`, `lr`, `pc`).
    pub fn name(&self) -> (s: &'static str)
        ensures
            s@ == register_name(*self),
    {
        proof {
            reveal(register_name);
        }
        match self {
            Register::R0 => "r0",
            Register::R1 => "r1",
            Register::R2 => "r2",
            Register::R3 => "r3",
            Register::R4 => "r4",
            Register::R5 => "r5",
            Register::R6 => "r6",
            Register::R7 => "r7",
            Register::R8 => "r8",
            Register::R9 => "r9",
            Register::R10 => "r10",
            Register::R11 => "r11",
            Register::R12 => "r12",
            Register::R13 => "sp",
            Register::R14 => "lr",
            Register::R15 => "pc",
        }
    }
}

/// What one emulation step came to.
#[derive(Clone, Copy, PartialEq, Eq, Structural, Debug)]
pub enum EmulationResult {
    Cycles(u32),
    Exception,
}

/// The exceptions of the ARM7TDMI.
#[derive(Clone, Copy, PartialEq, Eq, Structural, Debug)]
pub enum ExceptionType {
    Reset,
    UndefinedInstruction,
    SoftwareInterrupt,
    PrefetchAbort,
    DataAbort,
    IRQ,
    FIQ,
}

/// The mode that an exception enters.
pub open spec fn exception_mode(t: ExceptionType) -> Mode {
    match t {
        ExceptionType::Reset => Mode::Supervisor,
        ExceptionType::SoftwareInterrupt => Mode::Supervisor,
        ExceptionType::UndefinedInstruction => Mode::Undefined,
        ExceptionType::PrefetchAbort => Mode::Abort,
        ExceptionType::DataAbort => Mode::Abort,
        ExceptionType::IRQ => Mode::IRQ,
        ExceptionType::FIQ => Mode::FIQ,
    }
}

/// The address of an exception's vector.
pub open spec fn exception_vector(t: ExceptionType) -> u32 {
    match t {
        ExceptionType::Reset => 0x00000000,
        ExceptionType::UndefinedInstruction => 0x00000004,
        ExceptionType::SoftwareInterrupt => 0x00000008,
        ExceptionType::PrefetchAbort => 0x0000000C,
        ExceptionType::DataAbort => 0x00000010,
        ExceptionType::IRQ => 0x00000018,
        ExceptionType::FIQ => 0x0000001C,
    }
}

/// What the emulator hands to the display at the end of a frame.
#[allow(inconsistent_fields)]
#[derive(Debug)]
pub enum VideoEvent {
    VRamUpdate { start_address: u32, data: Vec<u16> },
    PRamUpdate { start_address: u32, data: Vec<u16> },
    ORamUpdate { start_address: u32, data: Vec<u32> },
    FrameUpdate,
}

/// Conditions under which the processor cannot go on: an access to memory
/// that is not there or not writable, a store to an odd address, a half-word
/// read from the last byte of a word of a word-wide memory, a block
/// transfer whose address computation overflows, and instructions that the
/// emulator does not implement.
#[derive(Clone, Copy, PartialEq, Eq, Structural, Debug)]
pub enum CpuFault {
    AccessViolation,
    UnalignedWrite,
    UnalignedHalfWordRead,
    AddressOverflow,
    UnimplementedBranch,
    UnimplementedInstruction,
    UnexpectedBranchLinkSuffix,
}

/// The message with which the emulator stops on a fault.
pub open spec fn fault_message(f: CpuFault) -> Seq<char> {
    match f {
        CpuFault::AccessViolation => "Access violation"@,
        CpuFault::UnalignedWrite => "Memory access unaligned!"@,
        CpuFault::UnalignedHalfWordRead => "Half word read across a word boundary"@,
        CpuFault::AddressOverflow => "Block transfer address overflow"@,
        CpuFault::UnimplementedBranch => "Unimplemented branch instruction!"@,
        CpuFault::UnimplementedInstruction => "Unimplemented instruction!"@,
        CpuFault::UnexpectedBranchLinkSuffix => "internal error: entered unreachable code"@,
    }
}

impl CpuFault {
    /// The message with which the emulator stops on this fault (see
    /// `fault_message`).
    pub fn message(&self) -> (s: &'static str)
        ensures
            s@ == fault_message(*self),
    {
        match self {
            CpuFault::AccessViolation => "Access violation",
            CpuFault::UnalignedWrite => "Memory access unaligned!",
            CpuFault::UnalignedHalfWordRead => "Half word read across a word boundary",
            CpuFault::AddressOverflow => "Block transfer address overflow",
            CpuFault::UnimplementedBranch => "Unimplemented branch instruction!",
            CpuFault::UnimplementedInstruction => "Unimplemented instruction!",
            CpuFault::UnexpectedBranchLinkSuffix => "internal error: entered unreachable code",
        }
    }
}

/// The kinds of software breakpoint that a debugger sets.
#[derive(Clone, Copy, PartialEq, Eq, Structural, Debug)]
pub enum BreakpointKind {
    Thumb16,
    Thumb32,
    Arm32,
}

/// The emulated machine: memories, I/O registers, the banked register file,
/// the status registers, the decoding tables, the prefetch queue, the LCD
/// timing counters and breakpoints.
pub struct GbaSystem {
    pub bios: Vec<u32>,
    pub iwram: Vec<u32>,
    pub oam: Vec<u32>,
    pub ewram: Vec<u16>,
    pub vram: Vec<u16>,
    pub pram: Vec<u16>,
    pub pack: Vec<u16>,
    pub sram: Vec<u8>,
    pub io_register: IORegister,
    pub r: [u32; 16],
    pub r_fiq: [u32; 7],
    pub r_svc: [u32; 2],
    pub r_abt: [u32; 2],
    pub r_irq: [u32; 2],
    pub r_und: [u32; 2],
    pub cpsr: ProgramStatus,
    pub spsr_fiq: ProgramStatus,
    pub spsr_svc: ProgramStatus,
    pub spsr_abt: ProgramStatus,
    pub spsr_irq: ProgramStatus,
    pub spsr_und: ProgramStatus,
    /// The address of the instruction that executes next (r15 runs ahead of
    /// it by the prefetch queue).
    pub pc: u32,
    pub pc_dirty: bool,
    pub instruction_table: Vec<InstructionTableEntry>,
    pub thumb_instruction_table: Vec<ThumbInstructionTableEntry>,
    pub instruction_cache: VecDeque<(u32, Option<ArmInstruction>)>,
    pub breakpoints: Vec<(u32, BreakpointKind)>,
    pub lcd_accumulator: u32,
    pub lcd_cur_v: u16,
    pub lcd_cur_h: u16,
    /// Set when the LCD finishes a frame; the video events of that frame are
    /// then waiting to be taken (`take_video_events`).
    pub frame_pending: bool,
}

/// The abstract state of a `GbaSystem`: every field, with the vectors taken
/// as sequences.
#[verifier::ext_equal]
pub ghost struct GbaModel {
    pub bios: Seq<u32>,
    pub iwram: Seq<u32>,
    pub oam: Seq<u32>,
    pub ewram: Seq<u16>,
    pub vram: Seq<u16>,
    pub pram: Seq<u16>,
    pub pack: Seq<u16>,
    pub sram: Seq<u8>,
    pub io: IORegister,
    pub r: [u32; 16],
    pub r_fiq: [u32; 7],
    pub r_svc: [u32; 2],
    pub r_abt: [u32; 2],
    pub r_irq: [u32; 2],
    pub r_und: [u32; 2],
    pub cpsr: ProgramStatus,
    pub spsr_fiq: ProgramStatus,
    pub spsr_svc: ProgramStatus,
    pub spsr_abt: ProgramStatus,
    pub spsr_irq: ProgramStatus,
    pub spsr_und: ProgramStatus,
    pub pc: u32,
    pub pc_dirty: bool,
    pub arm_table: Seq<InstructionTableEntry>,
    pub thumb_table: Seq<ThumbInstructionTableEntry>,
    pub instruction_cache: Seq<(u32, Option<ArmInstruction>)>,
    pub breakpoints: Seq<(u32, BreakpointKind)>,
    pub lcd_accumulator: u32,
    pub lcd_cur_v: u16,
    pub lcd_cur_h: u16,
    pub frame_pending: bool,
}

impl View for GbaSystem {
    type V = GbaModel;

    open spec fn view(&self) -> GbaModel {
        GbaModel {
            bios: self.bios@,
            iwram: self.iwram@,
            oam: self.oam@,
            ewram: self.ewram@,
            vram: self.vram@,
            pram: self.pram@,
            pack: self.pack@,
            sram: self.sram@,
            io: self.io_register,
            r: self.r,
            r_fiq: self.r_fiq,
            r_svc: self.r_svc,
            r_abt: self.r_abt,
            r_irq: self.r_irq,
            r_und: self.r_und,
            cpsr: self.cpsr,
            spsr_fiq: self.spsr_fiq,
            spsr_svc: self.spsr_svc,
            spsr_abt: self.spsr_abt,
            spsr_irq: self.spsr_irq,
            spsr_und: self.spsr_und,
            pc: self.pc,
            pc_dirty: self.pc_dirty,
            arm_table: self.instruction_table@,
            thumb_table: self.thumb_instruction_table@,
            instruction_cache: self.instruction_cache@,
            breakpoints: self.breakpoints@,
            lcd_accumulator: self.lcd_accumulator,
            lcd_cur_v: self.lcd_cur_v,
            lcd_cur_h: self.lcd_cur_h,
            frame_pending: self.frame_pending,
        }
    }
}

/// Where a register lives in the banked register file when the processor is
/// in `mode`: bank 0 is the user bank `r`, 1 the FIQ bank, 2 supervisor,
/// 3 abort, 4 IRQ, 5 undefined; the second number indexes the bank.
pub open spec fn bank_slot(mode: Mode, r: Register) -> (int, int) {
    let i = register_index(r);
    if i < 8 || i == 15 {
        (0, i)
    } else if mode == Mode::FIQ {
        (1, i - 8)
    } else if i < 13 {
        (0, i)
    } else {
        match mode {
            Mode::Supervisor => (2, i - 13),
            Mode::Abort => (3, i - 13),
            Mode::IRQ => (4, i - 13),
            Mode::Undefined => (5, i - 13),
            _ => (0, i),
        }
    }
}

impl GbaModel {
    /// The memories have their fixed sizes.
    pub open spec fn wf(self) -> bool {
        &&& self.bios.len() == BIOS_WORDS
        &&& self.iwram.len() == IWRAM_WORDS
        &&& self.oam.len() == OAM_WORDS
        &&& self.ewram.len() == EWRAM_HALF_WORDS
        &&& self.vram.len() == VRAM_HALF_WORDS
        &&& self.pram.len() == PRAM_HALF_WORDS
        &&& self.pack.len() == PACK_HALF_WORDS
        &&& self.sram.len() == SRAM_BYTES
    }

    /// The memories and the I/O registers are those of `other`.
    pub open spec fn same_memory(self, other: GbaModel) -> bool {
        &&& self.bios == other.bios
        &&& self.iwram == other.iwram
        &&& self.oam == other.oam
        &&& self.ewram == other.ewram
        &&& self.vram == other.vram
        &&& self.pram == other.pram
        &&& self.pack == other.pack
        &&& self.sram == other.sram
        &&& self.io == other.io
    }

    /// The parts of the system outside the processor and the bus (decoding
    /// tables, prefetch queue, breakpoints, program counter, LCD counters)
    /// are those of `other`.
    pub open spec fn same_system(self, other: GbaModel) -> bool {
        &&& self.arm_table == other.arm_table
        &&& self.thumb_table == other.thumb_table
        &&& self.instruction_cache == other.instruction_cache
        &&& self.breakpoints == other.breakpoints
        &&& self.pc == other.pc
        &&& self.lcd_accumulator == other.lcd_accumulator
        &&& self.lcd_cur_v == other.lcd_cur_v
        &&& self.lcd_cur_h == other.lcd_cur_h
        &&& self.frame_pending == other.frame_pending
    }

    /// The processor mode.
    pub open spec fn mode(self) -> Mode {
        self.cpsr.mode()
    }

    /// The value in a slot of the banked register file.
    pub open spec fn slot_value(self, slot: (int, int)) -> u32 {
        if slot.0 == 0 {
            self.r[slot.1]
        } else if slot.0 == 1 {
            self.r_fiq[slot.1]
        } else if slot.0 == 2 {
            self.r_svc[slot.1]
        } else if slot.0 == 3 {
            self.r_abt[slot.1]
        } else if slot.0 == 4 {
            self.r_irq[slot.1]
        } else {
            self.r_und[slot.1]
        }
    }

    /// The state with a slot of the banked register file replaced.
    pub open spec fn with_slot(self, slot: (int, int), v: u32) -> GbaModel {
        if slot.0 == 0 {
            GbaModel { r: vstd::array::spec_array_update(self.r, slot.1, v), ..self }
        } else if slot.0 == 1 {
            GbaModel { r_fiq: vstd::array::spec_array_update(self.r_fiq, slot.1, v), ..self }
        } else if slot.0 == 2 {
            GbaModel { r_svc: vstd::array::spec_array_update(self.r_svc, slot.1, v), ..self }
        } else if slot.0 == 3 {
            GbaModel { r_abt: vstd::array::spec_array_update(self.r_abt, slot.1, v), ..self }
        } else if slot.0 == 4 {
            GbaModel { r_irq: vstd::array::spec_array_update(self.r_irq, slot.1, v), ..self }
        } else {
            GbaModel { r_und: vstd::array::spec_array_update(self.r_und, slot.1, v), ..self }
        }
    }

    /// The value of a register as the processor sees it in `mode`.
    pub open spec fn reg_in(self, mode: Mode, r: Register) -> u32 {
        self.slot_value(bank_slot(mode, r))
    }

    /// The value of a register in the current mode.
    pub open spec fn reg(self, r: Register) -> u32 {
        self.reg_in(self.mode(), r)
    }

    /// The state after writing `v` to a register in the current mode; a write
    /// to r15 also marks the program counter as changed.
    pub open spec fn write_reg(self, r: Register, v: u32) -> GbaModel {
        let m = self.with_slot(bank_slot(self.mode(), r), v);
        if r == Register::R15 {
            GbaModel { pc_dirty: true, ..m }
        } else {
            m
        }
    }
}

impl GbaSystem {
    /// Reads a register through the bank of the current mode.
    pub fn read_register(&self, r: Register) -> (v: u32)
        ensures
            v == self@.reg(r),
    {
        let i = r.index();
        let mode = self.cpsr.get_mode();
        if i < 8 || i == 15 {
            self.r[i]
        } else {
            match mode {
                Mode::FIQ => self.r_fiq[i - 8],
                Mode::User | Mode::System => self.r[i],
                Mode::IRQ => if i < 13 {
                    self.r[i]
                } else {
                    self.r_irq[i - 13]
                },
                Mode::Supervisor => if i < 13 {
                    self.r[i]
                } else {
                    self.r_svc[i - 13]
                },
                Mode::Abort => if i < 13 {
                    self.r[i]
                } else {
                    self.r_abt[i - 13]
                },
                Mode::Undefined => if i < 13 {
                    self.r[i]
                } else {
                    self.r_und[i - 13]
                },
            }
        }
    }

    /// Writes a register through the bank of the current mode; a write to
    /// r15 marks the program counter as changed.
    pub fn write_register(&mut self, r: Register, v: u32)
        ensures
            final(self)@ == old(self)@.write_reg(r, v),
    {
        let i = r.index();
        let mode = self.cpsr.get_mode();
        if i == 15 {
            self.pc_dirty = true;
            self.r[15] = v;
        } else if i < 8 {
            self.r[i] = v;
        } else {
            match mode {
                Mode::FIQ => self.r_fiq[i - 8] = v,
                Mode::User | Mode::System => self.r[i] = v,
                Mode::IRQ => if i < 13 {
                    self.r[i] = v;
                } else {
                    self.r_irq[i - 13] = v;
                },
                Mode::Supervisor => if i < 13 {
                    self.r[i] = v;
                } else {
                    self.r_svc[i - 13] = v;
                },
                Mode::Abort => if i < 13 {
                    self.r[i] = v;
                } else {
                    self.r_abt[i - 13] = v;
                },
                Mode::Undefined => if i < 13 {
                    self.r[i] = v;
                } else {
                    self.r_und[i - 13] = v;
                },
            }
        }
    }
}

/// A register reads back what was last written to it, and a write leaves
/// every other register of the current mode, the status register and the
/// memories as they were.
pub proof fn lemma_write_then_read_register(m: GbaModel, r: Register, other: Register, v: u32)
    ensures
        m.write_reg(r, v).reg(r) == v,
        other != r ==> m.write_reg(r, v).reg(other) == m.reg(other),
        m.write_reg(r, v).cpsr == m.cpsr,
        m.write_reg(r, v).bios == m.bios && m.write_reg(r, v).iwram == m.iwram,
        m.write_reg(r, v).io == m.io,
{
}

/// Register banking: a write made in the current mode is seen by a read made
/// in any mode exactly when both name the same slot of the register file.
pub proof fn lemma_banked_register_visibility(
    m: GbaModel,
    r: Register,
    v: u32,
    mode: Mode,
    other: Register,
)
    ensures
        m.write_reg(r, v).reg_in(mode, other) == (if bank_slot(m.mode(), r) == bank_slot(
            mode,
            other,
        ) {
            v
        } else {
            m.reg_in(mode, other)
        }),
{
}

/// r0 to r7 and r15 are the same registers in every mode, and User and
/// System mode share the whole register file.
pub proof fn lemma_shared_registers(a: Mode, b: Mode, r: Register)
    ensures
        register_index(r) < 8 || r == Register::R15 ==> bank_slot(a, r) == bank_slot(b, r),
        bank_slot(Mode::User, r) == bank_slot(Mode::System, r),
{
}

impl GbaModel {
    /// The state after taking an exception: the mode switches to the
    /// exception's mode, that mode's saved status register takes the old
    /// status, its link register the address of the instruction that was due
    /// next, the processor enters ARM state with IRQs masked (FIQs too for a
    /// reset or FIQ, aborts for every exception but an undefined instruction),
    /// and r15 jumps to the exception's vector.
    pub open spec fn raise_exception(self, t: ExceptionType) -> GbaModel {
        let return_link = self.pc;
        let saved = self.cpsr;
        let m1 = GbaModel { cpsr: self.cpsr.with_mode(exception_mode(t)), ..self };
        let m2 = match m1.with_spsr(saved) {
            Some(m) => m,
            None => m1,
        };
        let m3 = m2.write_reg(Register::R14, return_link);
        let c1 = m3.cpsr.with(ProgramStatus::FLAG_T, false);
        let c2 = if t == ExceptionType::Reset || t == ExceptionType::FIQ {
            c1.with(ProgramStatus::FLAG_F, true)
        } else {
            c1
        };
        let c3 = c2.with(ProgramStatus::FLAG_I, true);
        let c4 = if t != ExceptionType::UndefinedInstruction || t == ExceptionType::SoftwareInterrupt {
            c3.with(ProgramStatus::FLAG_A, true)
        } else {
            c3
        };
        GbaModel { cpsr: c4, ..m3 }.write_reg(Register::R15, exception_vector(t))
    }
}

impl GbaSystem {
    /// Takes a reset exception.
    pub fn reset(&mut self)
        ensures
            final(self)@ == old(self)@.raise_exception(ExceptionType::Reset),
    {
        self.raise_exception(ExceptionType::Reset);
    }

    /// Takes an exception (see `GbaModel::raise_exception`).
    pub fn raise_exception(&mut self, exception_type: ExceptionType)
        ensures
            final(self)@ == old(self)@.raise_exception(exception_type),
    {
        let return_link = self.pc;
        let spsr = self.cpsr;
        self.cpsr.set_mode(
            match exception_type {
                ExceptionType::Reset | ExceptionType::SoftwareInterrupt => Mode::Supervisor,
                ExceptionType::UndefinedInstruction => Mode::Undefined,
                ExceptionType::PrefetchAbort => Mode::Abort,
                ExceptionType::DataAbort => Mode::Abort,
                ExceptionType::IRQ => Mode::IRQ,
                ExceptionType::FIQ => Mode::FIQ,
            },
        );
        let _ = self.set_spsr(spsr);
        self.write_register(Register::R14, return_link);
        self.cpsr.set(ProgramStatus::FLAG_T, false);
        if exception_type == ExceptionType::Reset || exception_type == ExceptionType::FIQ {
            self.cpsr.set(ProgramStatus::FLAG_F, true);
        }
        self.cpsr.set(ProgramStatus::FLAG_I, true);
        if exception_type != ExceptionType::UndefinedInstruction || exception_type
            == ExceptionType::SoftwareInterrupt {
            self.cpsr.set(ProgramStatus::FLAG_A, true);
        }
        self.write_register(
            Register::R15,
            match exception_type {
                ExceptionType::Reset => 0x00000000,
                ExceptionType::UndefinedInstruction => 0x00000004,
                ExceptionType::SoftwareInterrupt => 0x00000008,
                ExceptionType::PrefetchAbort => 0x0000000C,
                ExceptionType::DataAbort => 0x00000010,
                ExceptionType::IRQ => 0x00000018,
                ExceptionType::FIQ => 0x0000001C,
            },
        );
    }
}

/// Exception entry: after an exception the processor is in the exception's
/// mode and in ARM state with IRQs masked; the mode's link register holds the
/// address of the instruction that was due next, its saved status register
/// the old status, r15 the vector; loading the saved status register gives
/// the old status back.
pub proof fn lemma_exception_entry(m: GbaModel, t: ExceptionType)
    ensures
        m.raise_exception(t).mode() == exception_mode(t),
        m.raise_exception(t).reg(Register::R14) == m.pc,
        m.raise_exception(t).reg(Register::R15) == exception_vector(t),
        m.raise_exception(t).spsr() == Some(m.cpsr),
        !m.raise_exception(t).cpsr.has(ProgramStatus::FLAG_T),
        m.raise_exception(t).cpsr.has(ProgramStatus::FLAG_I),
        m.raise_exception(t).load_mode_spsr().cpsr == m.cpsr,
        m.raise_exception(t).pc_dirty,
{
    let e = exception_mode(t);
    let c0 = m.cpsr.with_mode(e);
    crate::arm::lemma_set_mode_get_mode(m.cpsr, e);
    let m1 = GbaModel { cpsr: c0, ..m };
    assert(m1.mode() == e);
    let m2 = m1.with_spsr(m.cpsr).unwrap();
    let m3 = m2.write_reg(Register::R14, m.pc);
    assert(m3.cpsr == c0);
    let b = c0.bits;
    let c1 = c0.with(ProgramStatus::FLAG_T, false);
    let c2 = if t == ExceptionType::Reset || t == ExceptionType::FIQ {
        c1.with(ProgramStatus::FLAG_F, true)
    } else {
        c1
    };
    let c3 = c2.with(ProgramStatus::FLAG_I, true);
    let c4 = if t != ExceptionType::UndefinedInstruction || t == ExceptionType::SoftwareInterrupt {
        c3.with(ProgramStatus::FLAG_A, true)
    } else {
        c3
    };
    let b1 = c1.bits;
    let b2 = c2.bits;
    let b3 = c3.bits;
    let b4 = c4.bits;
    assert(b1 == b & !0x20u32);
    assert(b2 == b1 || b2 == b1 | 0x40u32);
    assert(b3 == b2 | 0x80u32);
    assert(b4 == b3 || b4 == b3 | 0x100u32);
    assert(b4 & 0x1F == b & 0x1F && b4 & 0x20 == 0 && b4 & 0x80 == 0x80) by (bit_vector)
        requires
            b1 == b & !0x20u32,
            b2 == b1 || b2 == b1 | 0x40u32,
            b3 == b2 | 0x80u32,
            b4 == b3 || b4 == b3 | 0x100u32,
    ;
    assert(c4.mode() == e);
}

impl GbaModel {
    /// The state at power-on: zeroed memories and registers, the status
    /// registers empty, the I/O registers as `IORegister::new` makes them,
    /// the decoding tables sorted from most to least specific, and the
    /// prefetch queue, breakpoints and LCD counters empty.
    pub open spec fn is_initial(self) -> bool {
        &&& self.bios == Seq::new(BIOS_WORDS as nat, |i: int| 0u32)
        &&& self.iwram == Seq::new(IWRAM_WORDS as nat, |i: int| 0u32)
        &&& self.oam == Seq::new(OAM_WORDS as nat, |i: int| 0u32)
        &&& self.ewram == Seq::new(EWRAM_HALF_WORDS as nat, |i: int| 0u16)
        &&& self.vram == Seq::new(VRAM_HALF_WORDS as nat, |i: int| 0u16)
        &&& self.pram == Seq::new(PRAM_HALF_WORDS as nat, |i: int| 0u16)
        &&& self.pack == Seq::new(PACK_HALF_WORDS as nat, |i: int| 0u16)
        &&& self.sram == Seq::new(SRAM_BYTES as nat, |i: int| 0u8)
        &&& self.io == (IORegister {
            wave_ram_a: self.io.wave_ram_a,
            wave_ram_b: self.io.wave_ram_b,
            ..IORegister::initial()
        })
        &&& self.io.wave_ram_a@ == seq![0u32, 0u32, 0u32, 0u32]
        &&& self.io.wave_ram_b@ == seq![0u32, 0u32, 0u32, 0u32]
        &&& self.r@ == Seq::new(16, |i: int| 0u32)
        &&& self.r_fiq@ == Seq::new(7, |i: int| 0u32)
        &&& self.r_svc@ == Seq::new(2, |i: int| 0u32)
        &&& self.r_abt@ == Seq::new(2, |i: int| 0u32)
        &&& self.r_irq@ == Seq::new(2, |i: int| 0u32)
        &&& self.r_und@ == Seq::new(2, |i: int| 0u32)
        &&& self.cpsr.bits == 0
        &&& self.spsr_fiq.bits == 0
        &&& self.spsr_svc.bits == 0
        &&& self.spsr_abt.bits == 0
        &&& self.spsr_irq.bits == 0
        &&& self.spsr_und.bits == 0
        &&& self.pc == 0
        &&& !self.pc_dirty
        &&& self.arm_table == sort_by_specificity(arm_table_entries())
        &&& self.thumb_table == sort_by_specificity(thumb_table_entries())
        &&& self.instruction_cache.len() == 0
        &&& self.breakpoints.len() == 0
        &&& self.lcd_accumulator == 0
        &&& self.lcd_cur_v == 0
        &&& self.lcd_cur_h == 0
        &&& !self.frame_pending
    }
}

impl GbaSystem {
    /// A machine at power-on (see `GbaModel::is_initial`).
    pub fn new() -> (s: GbaSystem)
        ensures
            s@.is_initial(),
            s@.wf(),
    {
        let s = GbaSystem {
            bios: vec![0u32; BIOS_WORDS],
            iwram: vec![0u32; IWRAM_WORDS],
            oam: vec![0u32; OAM_WORDS],
            ewram: vec![0u16; EWRAM_HALF_WORDS],
            vram: vec![0u16; VRAM_HALF_WORDS],
            pram: vec![0u16; PRAM_HALF_WORDS],
            pack: vec![0u16; PACK_HALF_WORDS],
            sram: vec![0u8; SRAM_BYTES],
            io_register: IORegister::new(),
            r: [0u32; 16],
            r_fiq: [0u32; 7],
            r_svc: [0u32; 2],
            r_abt: [0u32; 2],
            r_irq: [0u32; 2],
            r_und: [0u32; 2],
            cpsr: ProgramStatus::empty(),
            spsr_fiq: ProgramStatus::empty(),
            spsr_svc: ProgramStatus::empty(),
            spsr_abt: ProgramStatus::empty(),
            spsr_irq: ProgramStatus::empty(),
            spsr_und: ProgramStatus::empty(),
            pc: 0,
            pc_dirty: false,
            instruction_table: generate_arm_instruction_table(),
            thumb_instruction_table: generate_thumb_instruction_table(),
            instruction_cache: VecDeque::new(),
            breakpoints: Vec::new(),
            lcd_accumulator: 0,
            lcd_cur_h: 0,
            lcd_cur_v: 0,
            frame_pending: false,
        };
        assert(s@.bios =~= Seq::new(BIOS_WORDS as nat, |i: int| 0u32));
        assert(s@.iwram =~= Seq::new(IWRAM_WORDS as nat, |i: int| 0u32));
        assert(s@.oam =~= Seq::new(OAM_WORDS as nat, |i: int| 0u32));
        assert(s@.ewram =~= Seq::new(EWRAM_HALF_WORDS as nat, |i: int| 0u16));
        assert(s@.vram =~= Seq::new(VRAM_HALF_WORDS as nat, |i: int| 0u16));
        assert(s@.pram =~= Seq::new(PRAM_HALF_WORDS as nat, |i: int| 0u16));
        assert(s@.pack =~= Seq::new(PACK_HALF_WORDS as nat, |i: int| 0u16));
        assert(s@.sram =~= Seq::new(SRAM_BYTES as nat, |i: int| 0u8));
        assert(s@.r@ =~= Seq::new(16, |i: int| 0u32));
        assert(s@.r_fiq@ =~= Seq::new(7, |i: int| 0u32));
        assert(s@.r_svc@ =~= Seq::new(2, |i: int| 0u32));
        assert(s@.r_abt@ =~= Seq::new(2, |i: int| 0u32));
        assert(s@.r_irq@ =~= Seq::new(2, |i: int| 0u32));
        assert(s@.r_und@ =~= Seq::new(2, |i: int| 0u32));
        s
    }
}

/// The little-endian half word at half-word index `i` of `data`.
pub open spec fn le_half_word(data: Seq<u8>, i: int) -> u16 {
    (data[2 * i] + 256 * data[2 * i + 1]) as u16
}

/// The little-endian word at word index `i` of `data`.
pub open spec fn le_word(data: Seq<u8>, i: int) -> u32 {
    (data[4 * i] + 256 * data[4 * i + 1] + 65536 * data[4 * i + 2] + 16777216 * data[4 * i
        + 3]) as u32
}

/// Reads a game pak image as little-endian half words; a last odd byte is
/// left over.
pub fn parse_gamepack(data: &[u8]) -> (r: Vec<u16>)
    ensures
        r@.len() == data@.len() / 2,
        forall|i: int| 0 <= i < r@.len() ==> r@[i] == le_half_word(data@, i),
{
    let len = data.len();
    let n = len / 2;
    let mut r: Vec<u16> = Vec::new();
    let mut i: usize = 0;
    while i < n
        invariant
            len == data@.len(),
            n == data@.len() / 2,
            i <= n,
            r@.len() == i,
            forall|k: int| 0 <= k < i ==> r@[k] == le_half_word(data@, k),
        decreases n - i,
    {
        assert(2 * i + 1 < data@.len());
        let lo = data[2 * i];
        let hi = data[2 * i + 1];
        let h = (lo as u16) | ((hi as u16) << 8u16);
        assert(h == (lo + 256 * hi) as u16) by (bit_vector)
            requires
                h == (lo as u16) | ((hi as u16) << 8u16),
        ;
        r.push(h);
        i = i + 1;
    }
    r
}

impl GbaSystem {
    /// Loads a game pak image: its half words (see `parse_gamepack`) go to
    /// the start of the game pak ROM, the rest of the ROM stays as it was.
    pub fn load_gamepack(&mut self, data: &[u8])
        requires
            old(self)@.wf(),
            data@.len() / 2 <= PACK_HALF_WORDS,
        ensures
            final(self)@ == (GbaModel {
                pack: Seq::new(data@.len() / 2, |i: int| le_half_word(data@, i)) + old(
                    self,
                )@.pack.skip((data@.len() / 2) as int),
                ..old(self)@
            }),
            final(self)@.wf(),
    {
        let words = parse_gamepack(data);
        let mut i: usize = 0;
        while i < words.len()
            invariant
                words@.len() == data@.len() / 2,
                words@.len() <= PACK_HALF_WORDS,
                forall|k: int| 0 <= k < words@.len() ==> words@[k] == le_half_word(data@, k),
                i <= words@.len(),
                self@ == (GbaModel { pack: self@.pack, ..old(self)@ }),
                self@.pack.len() == PACK_HALF_WORDS,
                forall|k: int| 0 <= k < i ==> self@.pack[k] == words@[k],
                forall|k: int| i <= k < PACK_HALF_WORDS ==> self@.pack[k] == old(self)@.pack[k],
            decreases words@.len() - i,
        {
            self.pack.set(i, words[i]);
            i = i + 1;
        }
        assert(self@.pack =~= Seq::new(data@.len() / 2, |i: int| le_half_word(data@, i)) + old(
            self,
        )@.pack.skip((data@.len() / 2) as int));
    }

    /// Loads a BIOS image: its little-endian words go to the start of the
    /// BIOS ROM, the rest of the ROM stays as it was; last bytes that make
    /// no whole word are left over.
    pub fn load_bios(&mut self, data: &[u8])
        requires
            old(self)@.wf(),
            data@.len() / 4 <= BIOS_WORDS,
        ensures
            final(self)@ == (GbaModel {
                bios: Seq::new(data@.len() / 4, |i: int| le_word(data@, i)) + old(
                    self,
                )@.bios.skip((data@.len() / 4) as int),
                ..old(self)@
            }),
            final(self)@.wf(),
    {
        let len = data.len();
        let n = len / 4;
        let mut i: usize = 0;
        while i < n
            invariant
                len == data@.len(),
                n == data@.len() / 4,
                n <= BIOS_WORDS,
                i <= n,
                self@ == (GbaModel { bios: self@.bios, ..old(self)@ }),
                self@.bios.len() == BIOS_WORDS,
                forall|k: int| 0 <= k < i ==> self@.bios[k] == le_word(data@, k),
                forall|k: int| i <= k < BIOS_WORDS ==> self@.bios[k] == old(self)@.bios[k],
            decreases n - i,
        {
            assert(4 * i + 3 < data@.len());
            let b0 = data[4 * i];
            let b1 = data[4 * i + 1];
            let b2 = data[4 * i + 2];
            let b3 = data[4 * i + 3];
            let w = (b0 as u32) | ((b1 as u32) << 8u32) | ((b2 as u32) << 16u32) | ((b3 as u32)
                << 24u32);
            assert(w == (b0 + 256 * b1 + 65536 * b2 + 16777216 * b3) as u32) by (bit_vector)
                requires
                    w == (b0 as u32) | ((b1 as u32) << 8u32) | ((b2 as u32) << 16u32) | ((
                    b3 as u32) << 24u32),
            ;
            self.bios.set(i, w);
            i = i + 1;
        }
        assert(self@.bios =~= Seq::new(data@.len() / 4, |i: int| le_word(data@, i)) + old(
            self,
        )@.bios.skip((data@.len() / 4) as int));
    }
}

} // verus!
