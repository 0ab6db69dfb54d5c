//! The debugger's view of the machine: the commands that a remote debugger
//! sends while the machine is halted, what the machine answers, and the step
//! of a free run that stops at breakpoints.
use vstd::prelude::*;
use crate::arm::{PROGRAM_STATUS_ALL, ProgramStatus};
use crate::bus::{BusValue, lemma_bus_byte_write_then_read, lemma_write_bus_keeps_system};
use crate::emulation::{lemma_emulate_cpu_keeps_lcd, lemma_emulate_keeps_lcd_steppable};
use crate::gba::{
    BreakpointKind, CpuFault, EmulationResult, GbaModel, GbaSystem, Register,
    lemma_register_index_round_trip, lemma_write_then_read_register, register_of_index,
};

verus! {

/// The registers that a debugger reads and writes: r0 to r12, the stack
/// pointer, the link register, the program counter and the status register.
#[derive(Clone, Copy, Debug)]
pub struct CoreRegisters {
    pub r: [u32; 13],
    pub sp: u32,
    pub lr: u32,
    pub pc: u32,
    pub cpsr: u32,
}

/// A request of the debugger to the halted machine.
#[derive(Debug)]
pub enum GbaDebugCommand {
    ReadRegisters,
    WriteRegisters { regs: CoreRegisters },
    ReadAddress { start_address: u32, len: usize },
    WriteAddress { start_address: u32, data: Vec<u8> },
    Resume,
    SingleStep,
    AddSwBreakpoint { addr: u32, kind: BreakpointKind },
    RemoveSwBreakpoint { addr: u32, kind: BreakpointKind },
}

/// The machine's answer to a debugger request.
#[derive(Debug)]
pub enum GbaDebugCommandResult {
    Executed,
    Registers { regs: CoreRegisters },
    Data { bytes: Vec<u8> },
}

/// Why a debugger request failed: the channel to the machine broke (with
/// what the channel reported), or the machine answered with another kind of
/// answer than the request calls for.
#[derive(Debug)]
pub enum GbaTargetError {
    SystemError(String),
    UnexpectedResult,
}

/// How a step of a free run ended: the machine may go on, stopped on an
/// exception, or stopped at a breakpoint.
#[derive(Clone, Copy, PartialEq, Eq, Structural, Debug)]
pub enum StepOutcome {
    Running,
    Exception,
    Breakpoint,
}

/// The value that a register write from the debugger gives register `i`
/// (0 to 15).
pub open spec fn core_value(regs: CoreRegisters, i: int) -> u32 {
    if i < 13 {
        regs.r[i]
    } else if i == 13 {
        regs.sp
    } else if i == 14 {
        regs.lr
    } else {
        regs.pc
    }
}

/// The number of addresses that a memory read of `len` bytes from `start`
/// visits: up to `len` (taken modulo 2^32), and never past the top of the
/// address space.
pub open spec fn visited_count(start: u32, len: usize) -> int {
    let n = (len as u32) as int;
    if start + n > u32::MAX {
        u32::MAX - start
    } else {
        n
    }
}

impl GbaModel {
    /// The machine after registers `i` to 15 took the debugger's values, in
    /// that order, in the current mode.
    pub open spec fn write_core_from(self, regs: CoreRegisters, i: int) -> GbaModel
        decreases 16 - i,
    {
        if i >= 16 {
            self
        } else {
            self.write_reg(register_of_index(i), core_value(regs, i)).write_core_from(regs, i + 1)
        }
    }

    /// The machine after a register write from the debugger: r0 to r15 in
    /// the current mode, then the status register, cut to its defined bits.
    pub open spec fn write_core_registers(self, regs: CoreRegisters) -> GbaModel {
        GbaModel {
            cpsr: ProgramStatus { bits: regs.cpsr & PROGRAM_STATUS_ALL },
            ..self.write_core_from(regs, 0)
        }
    }

    /// The bytes of a memory read from the debugger: the byte at each
    /// visited address (0 where nothing can be read), then zeros up to `len`.
    pub open spec fn debug_read(self, start: u32, len: usize) -> Seq<u8> {
        Seq::new(
            len as nat,
            |k: int|
                if k < visited_count(start, len) {
                    match self.read_bus_byte((start + k) as u32) {
                        Some(b) => b,
                        None => 0u8,
                    }
                } else {
                    0u8
                },
        )
    }

    /// The machine after the bytes of `data` were written, each in turn, to
    /// the same address `adr`.
    pub open spec fn debug_write(self, adr: u32, data: Seq<u8>) -> GbaModel
        decreases data.len(),
    {
        if data.len() == 0 {
            self
        } else {
            self.debug_write(adr, data.drop_last()).write_bus(adr, BusValue::Byte(data.last())).0
        }
    }

    /// Whether `regs` are the registers as the debugger sees them: r0 to r14
    /// in the current mode, the program counter of the next instruction, and
    /// the status register.
    pub open spec fn shows_core_registers(self, regs: CoreRegisters) -> bool {
        &&& forall|i: int| 0 <= i < 13 ==> regs.r[i] == #[trigger] self.reg(register_of_index(i))
        &&& regs.sp == self.reg(Register::R13)
        &&& regs.lr == self.reg(Register::R14)
        &&& regs.pc == self.pc
        &&& regs.cpsr == self.cpsr.bits
    }

    /// Whether a breakpoint is set at `adr`.
    pub open spec fn has_breakpoint(self, adr: u32) -> bool {
        exists|i: int| 0 <= i < self.breakpoints.len() && #[trigger] self.breakpoints[i].0 == adr
    }
}

proof fn lemma_write_core_from(m: GbaModel, regs: CoreRegisters, i: int)
    requires
        0 <= i <= 16,
    ensures
        m.write_core_from(regs, i).cpsr == m.cpsr,
        forall|j: int|
            i <= j < 16 ==> #[trigger] m.write_core_from(regs, i).reg(register_of_index(j))
                == core_value(regs, j),
        forall|j: int|
            0 <= j < i ==> #[trigger] m.write_core_from(regs, i).reg(register_of_index(j))
                == m.reg(register_of_index(j)),
    decreases 16 - i,
{
    if i < 16 {
        let ri = register_of_index(i);
        let n = m.write_reg(ri, core_value(regs, i));
        lemma_write_core_from(n, regs, i + 1);
        assert forall|j: int| 0 <= j < i + 1 implies #[trigger] n.reg(register_of_index(j)) == (if j
            == i {
            core_value(regs, i)
        } else {
            m.reg(register_of_index(j))
        }) by {
            lemma_write_then_read_register(m, ri, register_of_index(j), core_value(regs, i));
            lemma_register_index_round_trip(ri, j);
            lemma_register_index_round_trip(ri, i);
        }
    }
}

/// A register write from the debugger followed by a register read gives
/// back r0 to r14 and the status register cut to its defined bits, where
/// the status written keeps the processor mode.
pub proof fn lemma_core_registers_round_trip(m: GbaModel, regs: CoreRegisters)
    requires
        (ProgramStatus { bits: regs.cpsr & PROGRAM_STATUS_ALL }).mode() == m.mode(),
    ensures
        forall|i: int|
            0 <= i < 15 ==> #[trigger] m.write_core_registers(regs).reg(register_of_index(i))
                == core_value(regs, i),
        m.write_core_registers(regs).cpsr.bits == regs.cpsr & PROGRAM_STATUS_ALL,
        m.write_core_registers(regs).pc == m.pc,
{
    lemma_write_core_from(m, regs, 0);
    let w = m.write_core_from(regs, 0);
    let n = m.write_core_registers(regs);
    assert forall|i: int| 0 <= i < 15 implies #[trigger] n.reg(register_of_index(i)) == core_value(
        regs,
        i,
    ) by {
        assert(n.reg(register_of_index(i)) == w.reg(register_of_index(i)));
    }
    assert(n.pc == m.pc) by {
        lemma_write_core_from_keeps_pc(m, regs, 0);
    }
}

/// A one-byte memory write from the debugger at an even address of the
/// work, palette, video, object or save RAM is read back by a one-byte
/// memory read.
pub proof fn lemma_debug_byte_round_trip(m: GbaModel, adr: u32, b: u8)
    requires
        m.wf(),
        adr & 1 == 0,
        0x03000000 <= adr <= 0x03FFFFFF || 0x05000000 <= adr <= 0x050003FF || 0x06000000 <= adr
            <= 0x06017FFF || 0x07000000 <= adr <= 0x070003FF || 0x0E000000 <= adr <= 0x0E00FFFF,
    ensures
        m.debug_write(adr, seq![b]).debug_read(adr, 1) == seq![b],
{
    lemma_bus_byte_write_then_read(m, adr, b);
    assert(seq![b].drop_last() =~= Seq::<u8>::empty());
    assert(m.debug_write(adr, Seq::<u8>::empty()) == m);
    assert(seq![b].last() == b);
    assert(m.debug_write(adr, seq![b]) == m.write_bus(adr, BusValue::Byte(b)).0);
    assert(m.debug_write(adr, seq![b]).debug_read(adr, 1) =~= seq![b]);
}

proof fn lemma_write_core_from_keeps_pc(m: GbaModel, regs: CoreRegisters, i: int)
    ensures
        m.write_core_from(regs, i).pc == m.pc,
    decreases 16 - i,
{
    if i < 16 {
        lemma_write_core_from_keeps_pc(m.write_reg(register_of_index(i), core_value(regs, i)), regs, i + 1);
    }
}

impl GbaSystem {
    /// The registers as the debugger sees them: r0 to r14 in the current
    /// mode, the program counter of the next instruction, and the status
    /// register.
    pub fn read_core_registers(&self) -> (regs: CoreRegisters)
        ensures
            self@.shows_core_registers(regs),
    {
        let mut r = [0u32; 13];
        let mut i: usize = 0;
        while i < 13
            invariant
                i <= 13,
                forall|k: int| 0 <= k < i ==> r[k] == self@.reg(register_of_index(k)),
            decreases 13 - i,
        {
            let reg = match Register::try_from(i as u8) {
                Ok(reg) => reg,
                Err(_) => Register::R0,
            };
            r[i] = self.read_register(reg);
            i = i + 1;
        }
        CoreRegisters {
            r,
            sp: self.read_register(Register::R13),
            lr: self.read_register(Register::R14),
            pc: self.pc,
            cpsr: self.cpsr.bits(),
        }
    }

    /// Writes the debugger's registers (see `GbaModel::write_core_registers`).
    pub fn write_core_registers(&mut self, regs: &CoreRegisters)
        ensures
            final(self)@ == old(self)@.write_core_registers(*regs),
            final(self)@.same_memory(old(self)@),
            final(self)@.same_system(old(self)@),
    {
        let mut i: usize = 0;
        while i < 16
            invariant
                i <= 16,
                self@.same_memory(old(self)@),
                self@.same_system(old(self)@),
                self@.write_core_from(*regs, i as int) == old(self)@.write_core_from(*regs, 0),
            decreases 16 - i,
        {
            let reg = match Register::try_from(i as u8) {
                Ok(reg) => reg,
                Err(_) => Register::R0,
            };
            let v = if i < 13 {
                regs.r[i]
            } else if i == 13 {
                regs.sp
            } else if i == 14 {
                regs.lr
            } else {
                regs.pc
            };
            self.write_register(reg, v);
            i = i + 1;
        }
        self.cpsr = ProgramStatus::from_bits_truncate(regs.cpsr);
    }

    /// Reads `len` bytes of memory for the debugger (see
    /// `GbaModel::debug_read`).
    pub fn read_memory(&mut self, start_address: u32, len: usize) -> (data: Vec<u8>)
        requires
            old(self)@.wf(),
        ensures
            data@ == old(self)@.debug_read(start_address, len),
            *final(self) == *old(self),
    {
        let mut data: Vec<u8> = Vec::new();
        let end = start_address.saturating_add(#[verifier::truncate] (len as u32));
        let mut adr = start_address;
        while adr < end
            invariant
                start_address <= adr <= end,
                end == visited_count(start_address, len) + start_address,
                data@.len() == adr - start_address,
                forall|k: int| 0 <= k < data@.len() ==> data@[k] == old(self)@.debug_read(start_address, len)[k],
                self@.wf(),
                *self == *old(self),
                visited_count(start_address, len) <= len,
            decreases end - adr,
        {
            let b = match self.read_bus_byte(adr) {
                Some(b) => b,
                None => 0,
            };
            data.push(b);
            adr = adr + 1;
        }
        let ghost before = data@;
        data.resize(len, 0);
        assert forall|k: int| 0 <= k < len implies data@[k] == old(self)@.debug_read(start_address, len)[k] by {
            if k < before.len() {
                assert(data@.subrange(0, before.len() as int)[k] == before[k]);
            } else {
                assert(cloned::<u8>(0u8, data@[k]));
            }
        }
        assert(data@ =~= old(self)@.debug_read(start_address, len));
        data
    }

    /// Writes each byte of `data` in turn to `start_address` for the debugger
    /// (see `GbaModel::debug_write`); refused writes are passed over.
    pub fn write_memory(&mut self, start_address: u32, data: &Vec<u8>)
        requires
            old(self)@.wf(),
            data@.len() == 0 || start_address & 1 == 0,
        ensures
            final(self)@ == old(self)@.debug_write(start_address, data@),
            final(self)@.wf(),
            final(self)@.same_system(old(self)@),
    {
        let mut i: usize = 0;
        while i < data.len()
            invariant
                i <= data@.len(),
                self@.wf(),
                self@.same_system(old(self)@),
                data@.len() == 0 || start_address & 1 == 0,
                self@ == old(self)@.debug_write(start_address, data@.take(i as int)),
            decreases data@.len() - i,
        {
            assert(data@.take(i as int + 1).drop_last() =~= data@.take(i as int));
            proof {
                lemma_write_bus_keeps_system(self@, start_address, BusValue::Byte(data@[i as int]));
            }
            let _ = self.write_bus(start_address, BusValue::Byte(data[i]));
            i = i + 1;
        }
        assert(data@.take(data@.len() as int) =~= data@);
    }

    /// Sets a breakpoint at `addr`.
    pub fn add_breakpoint(&mut self, addr: u32, kind: BreakpointKind)
        ensures
            final(self)@ == (GbaModel { breakpoints: old(self)@.breakpoints.push((addr, kind)), ..old(self)@ }),
    {
        self.breakpoints.push((addr, kind));
    }

    /// Whether a breakpoint is set at the program counter.
    pub fn at_breakpoint(&self) -> (r: bool)
        ensures
            r == self@.has_breakpoint(self.pc),
    {
        let mut i: usize = 0;
        while i < self.breakpoints.len()
            invariant
                i <= self@.breakpoints.len(),
                forall|k: int| 0 <= k < i ==> #[trigger] self@.breakpoints[k].0 != self.pc,
            decreases self@.breakpoints.len() - i,
        {
            if self.breakpoints[i].0 == self.pc {
                return true;
            }
            i = i + 1;
        }
        false
    }
}

impl GbaSystem {
    /// One step of a free run with `budget` cycles left: the machine steps;
    /// an exception stops the run with the budget untouched; otherwise the
    /// cycles of the step come off the budget and the run stops where a
    /// breakpoint is set at the new program counter.
    pub fn run_step(&mut self, budget: u32) -> (r: Result<(StepOutcome, u32), CpuFault>)
        requires
            old(self)@.wf(),
            old(self)@.lcd_can_step(),
            budget > 0,
            budget % 4 == 0,
        ensures
            final(self)@ == old(self)@.emulate().0,
            final(self)@.wf(),
            match old(self)@.emulate().1 {
                Err(f) => r == Err::<(StepOutcome, u32), CpuFault>(f),
                Ok(EmulationResult::Exception) => r == Ok::<(StepOutcome, u32), CpuFault>(
                    (StepOutcome::Exception, budget),
                ),
                Ok(EmulationResult::Cycles(c)) => r == Ok::<(StepOutcome, u32), CpuFault>(
                    (
                        if final(self)@.has_breakpoint(final(self)@.pc) {
                            StepOutcome::Breakpoint
                        } else {
                            StepOutcome::Running
                        },
                        (budget - c) as u32,
                    ),
                ),
            },
            r is Ok ==> final(self)@.lcd_can_step(),
            r matches Ok((_, b)) ==> b % 4 == 0,
    {
        proof {
            lemma_emulate_keeps_lcd_steppable(self@);
            lemma_emulate_cpu_keeps_lcd(self@);
        }
        match self.emulate() {
            Err(f) => Err(f),
            Ok(EmulationResult::Exception) => Ok((StepOutcome::Exception, budget)),
            Ok(EmulationResult::Cycles(c)) => {
                let left = budget - c;
                if self.at_breakpoint() {
                    Ok((StepOutcome::Breakpoint, left))
                } else {
                    Ok((StepOutcome::Running, left))
                }
            },
        }
    }

    /// Carries out a request of the debugger on the halted machine: register
    /// and memory reads and writes, a single step, breakpoints (a request to
    /// remove one sets it, as a request to add one does); a resume needs no
    /// change here. A fault of a single step is passed on.
    pub fn handle_debug_command(&mut self, cmd: GbaDebugCommand) -> (r: Result<
        GbaDebugCommandResult,
        CpuFault,
    >)
        requires
            old(self)@.wf(),
            old(self)@.lcd_can_step(),
            cmd matches GbaDebugCommand::WriteAddress { start_address, data } ==> data@.len()
                == 0 || start_address & 1 == 0,
        ensures
            final(self)@.wf(),
            r is Ok ==> final(self)@.lcd_can_step(),
            match cmd {
                GbaDebugCommand::ReadRegisters => {
                    &&& *final(self) == *old(self)
                    &&& r matches Ok(GbaDebugCommandResult::Registers { regs })
                        && old(self)@.shows_core_registers(regs)
                },
                GbaDebugCommand::WriteRegisters { regs } => {
                    &&& final(self)@ == old(self)@.write_core_registers(regs)
                    &&& r matches Ok(GbaDebugCommandResult::Executed)
                },
                GbaDebugCommand::ReadAddress { start_address, len } => {
                    &&& *final(self) == *old(self)
                    &&& r matches Ok(GbaDebugCommandResult::Data { bytes })
                        && bytes@ == old(self)@.debug_read(start_address, len)
                },
                GbaDebugCommand::WriteAddress { start_address, data } => {
                    &&& final(self)@ == old(self)@.debug_write(start_address, data@)
                    &&& r matches Ok(GbaDebugCommandResult::Executed)
                },
                GbaDebugCommand::Resume => {
                    &&& *final(self) == *old(self)
                    &&& r matches Ok(GbaDebugCommandResult::Executed)
                },
                GbaDebugCommand::SingleStep => {
                    &&& final(self)@ == old(self)@.emulate().0
                    &&& match old(self)@.emulate().1 {
                        Err(f) => r matches Err(g) && g == f,
                        Ok(_) => r matches Ok(GbaDebugCommandResult::Executed),
                    }
                },
                GbaDebugCommand::AddSwBreakpoint { addr, kind }
                | GbaDebugCommand::RemoveSwBreakpoint { addr, kind } => {
                    &&& final(self)@ == (GbaModel {
                        breakpoints: old(self)@.breakpoints.push((addr, kind)),
                        ..old(self)@
                    })
                    &&& r matches Ok(GbaDebugCommandResult::Executed)
                },
            },
    {
        match cmd {
            GbaDebugCommand::ReadRegisters => {
                Ok(GbaDebugCommandResult::Registers { regs: self.read_core_registers() })
            },
            GbaDebugCommand::WriteRegisters { regs } => {
                self.write_core_registers(&regs);
                Ok(GbaDebugCommandResult::Executed)
            },
            GbaDebugCommand::ReadAddress { start_address, len } => {
                let bytes = self.read_memory(start_address, len);
                Ok(GbaDebugCommandResult::Data { bytes })
            },
            GbaDebugCommand::WriteAddress { start_address, data } => {
                self.write_memory(start_address, &data);
                Ok(GbaDebugCommandResult::Executed)
            },
            GbaDebugCommand::Resume => Ok(GbaDebugCommandResult::Executed),
            GbaDebugCommand::SingleStep => {
                proof {
                    lemma_emulate_keeps_lcd_steppable(self@);
                }
                match self.emulate() {
                    Ok(_) => Ok(GbaDebugCommandResult::Executed),
                    Err(f) => Err(f),
                }
            },
            GbaDebugCommand::AddSwBreakpoint { addr, kind } => {
                self.add_breakpoint(addr, kind);
                Ok(GbaDebugCommandResult::Executed)
            },
            GbaDebugCommand::RemoveSwBreakpoint { addr, kind } => {
                self.add_breakpoint(addr, kind);
                Ok(GbaDebugCommandResult::Executed)
            },
        }
    }
}

/// The registers of an answer to a register read; any other answer is
/// unexpected.
pub fn registers_reply(res: GbaDebugCommandResult) -> (r: Result<CoreRegisters, GbaTargetError>)
    ensures
        match res {
            GbaDebugCommandResult::Registers { regs } => r matches Ok(x) && x == regs,
            _ => r matches Err(GbaTargetError::UnexpectedResult),
        },
{
    match res {
        GbaDebugCommandResult::Registers { regs } => Ok(regs),
        _ => Err(GbaTargetError::UnexpectedResult),
    }
}

/// The bytes of an answer to a memory read; any other answer is unexpected.
pub fn data_reply(res: GbaDebugCommandResult) -> (r: Result<Vec<u8>, GbaTargetError>)
    ensures
        match res {
            GbaDebugCommandResult::Data { bytes } => r matches Ok(x) && x@ == bytes@,
            _ => r matches Err(GbaTargetError::UnexpectedResult),
        },
{
    match res {
        GbaDebugCommandResult::Data { bytes } => Ok(bytes),
        _ => Err(GbaTargetError::UnexpectedResult),
    }
}

/// Whether a request that calls for no data was carried out; any answer but
/// `Executed` is unexpected.
pub fn executed_reply(res: GbaDebugCommandResult) -> (r: Result<(), GbaTargetError>)
    ensures
        res matches GbaDebugCommandResult::Executed ==> r is Ok,
        !(res matches GbaDebugCommandResult::Executed) ==> r matches Err(
            GbaTargetError::UnexpectedResult,
        ),
{
    match res {
        GbaDebugCommandResult::Executed => Ok(()),
        _ => Err(GbaTargetError::UnexpectedResult),
    }
}

} // verus!
