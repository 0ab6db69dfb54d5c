//! One step of the machine: the processor fetches through its two-entry
//! prefetch queue, executes one instruction, and the LCD advances by the
//! cycles that took.
use vstd::prelude::*;
use crate::arm::{ProgramStatus, lemma_execute_keeps_system, lemma_execute_takes_four_cycles};
use crate::decode_arm::{ArmInstruction, decode_with_table};
use crate::decode_thumb::thumb_decode_with_table;
use crate::gba::{CpuFault, EmulationResult, ExceptionType, GbaModel, GbaSystem, VideoEvent};
use crate::io_register::{IORegister, Interrupt, interrupt_mask};

verus! {

impl GbaModel {
    /// The instruction fetched from `adr`: in Thumb state the half word
    /// there, in ARM state the word, decoded through the matching table;
    /// `None` where nothing can be read or nothing decodes. A Thumb fetch
    /// from the last byte of a word of a word-wide memory is a fault.
    pub open spec fn fetch(self, adr: u32) -> Result<Option<ArmInstruction>, CpuFault> {
        if self.cpsr.has(ProgramStatus::FLAG_T) {
            if !self.half_word_readable(adr) {
                Err(CpuFault::UnalignedHalfWordRead)
            } else {
                match self.read_bus_half_word(adr) {
                    Some(h) => Ok(thumb_decode_with_table(self.thumb_table, h)),
                    None => Ok(None),
                }
            }
        } else {
            match self.read_bus_word(adr) {
                Some(w) => Ok(decode_with_table(self.arm_table, w)),
                None => Ok(None),
            }
        }
    }

    /// The prefetch queue topped up to two entries: each fetch from r15
    /// queues the address with what it decoded to, and r15 moves on by
    /// `size`.
    pub open spec fn fill_queue(self, size: u32) -> (GbaModel, Result<(), CpuFault>)
        decreases 2 - self.instruction_cache.len(),
    {
        if self.instruction_cache.len() >= 2 {
            (self, Ok(()))
        } else {
            let adr = self.r[15];
            match self.fetch(adr) {
                Err(f) => (self, Err(f)),
                Ok(inst) => GbaModel {
                    instruction_cache: self.instruction_cache.push((adr, inst)),
                    r: vstd::array::spec_array_update(self.r, 15, vstd::wrapping::u32_specs::wrapping_add(adr, size)),
                    ..self
                }.fill_queue(size),
            }
        }
    }

    /// One processor step: a changed PC empties the prefetch queue; the queue
    /// is filled; its first entry leaves it and executes. An entry that did
    /// not decode raises an undefined-instruction exception and takes no
    /// cycles. After an instruction, r15 at 0xFFFFFFFC means that the
    /// program left the address space: the PC takes the address of that
    /// instruction and the step reports an exception; otherwise the PC takes
    /// r15 if the instruction wrote it, else the address of the next queued
    /// instruction.
    pub open spec fn emulate_cpu(self) -> (GbaModel, Result<EmulationResult, CpuFault>) {
        let size = self.instruction_size();
        let m0 = if self.pc_dirty {
            GbaModel { instruction_cache: Seq::empty(), pc_dirty: false, ..self }
        } else {
            self
        };
        let (m1, filled) = m0.fill_queue(size);
        match filled {
            Err(f) => (m1, Err(f)),
            Ok(_) => {
                let decoded = m1.instruction_cache[0];
                let m2 = GbaModel { instruction_cache: m1.instruction_cache.drop_first(), ..m1 };
                match decoded.1 {
                    Some(inst) => {
                        let (m3, res) = m2.execute(inst);
                        match res {
                            Err(f) => (m3, Err(f)),
                            Ok(ticks) => if m3.r[15] == 0xfffffffc {
                                (GbaModel { pc: decoded.0, ..m3 }, Ok(EmulationResult::Exception))
                            } else if m3.pc_dirty {
                                (GbaModel { pc: m3.r[15], ..m3 }, Ok(EmulationResult::Cycles(ticks)))
                            } else {
                                (
                                    GbaModel { pc: m3.instruction_cache[0].0, ..m3 },
                                    Ok(EmulationResult::Cycles(ticks)),
                                )
                            },
                        }
                    },
                    None => (
                        m2.raise_exception(ExceptionType::UndefinedInstruction),
                        Ok(EmulationResult::Cycles(0)),
                    ),
                }
            },
        }
    }

    /// The I/O registers after an interrupt request from `source`: the
    /// request bit is set where the master enable and the source's enable
    /// bit are on.
    pub open spec fn request_interrupt(self, source: Interrupt) -> (IORegister, bool) {
        if self.io.ime & 1 != 0 && self.io.int_e & interrupt_mask(source) != 0 {
            (IORegister { int_f: self.io.int_f | interrupt_mask(source), ..self.io }, true)
        } else {
            (self.io, false)
        }
    }

    /// An interrupt request from `source`, followed by an IRQ exception where
    /// it was raised.
    #[verifier::opaque]
    pub open spec fn lcd_interrupt(self, source: Interrupt) -> GbaModel {
        let (io, raised) = self.request_interrupt(source);
        if raised {
            GbaModel { io, ..self }.raise_exception(ExceptionType::IRQ)
        } else {
            self
        }
    }

    /// One pixel of LCD time (four cycles): the dot counter moves on; at dot
    /// 240 the H-blank interrupt is requested; after dot 307 the line
    /// counter moves on; on line 160 the V-blank interrupt is requested; after
    /// line 227 both counters start over and a frame is ready.
    pub open spec fn lcd_step(self) -> GbaModel {
        let m1 = GbaModel { lcd_cur_h: (self.lcd_cur_h + 1) as u16, ..self };
        let m2 = if m1.lcd_cur_h == 240 {
            m1.lcd_interrupt(Interrupt::LcdHBlank)
        } else {
            m1
        };
        let m3 = if m2.lcd_cur_h >= 308 {
            GbaModel { lcd_cur_v: (m2.lcd_cur_v + 1) as u16, lcd_cur_h: 0, ..m2 }
        } else {
            m2
        };
        let m4 = if m3.lcd_cur_v == 160 {
            m3.lcd_interrupt(Interrupt::LcdVBlank)
        } else {
            m3
        };
        let m5 = if m4.lcd_cur_v >= 228 {
            GbaModel { lcd_cur_v: 0, lcd_cur_h: 0, frame_pending: true, ..m4 }
        } else {
            m4
        };
        GbaModel { lcd_accumulator: (self.lcd_accumulator - 4) as u32, ..m5 }
    }

    /// The LCD run for every four accumulated cycles.
    pub open spec fn lcd_run(self) -> GbaModel
        decreases self.lcd_accumulator,
    {
        if self.lcd_accumulator >= 4 {
            self.lcd_step().lcd_run()
        } else {
            self
        }
    }

    /// The LCD state from which a step cannot overflow a counter: room for
    /// the cycles of one instruction in the accumulator, and dot and line
    /// counters below their largest value.
    pub open spec fn lcd_can_step(self) -> bool {
        &&& self.lcd_accumulator <= u32::MAX - 4
        &&& self.lcd_cur_h < 0xFFFF
        &&& self.lcd_cur_v < 0xFFFF
    }

    /// The LCD state within a frame: fewer than four accumulated cycles, the
    /// dot counter below 308 and the line counter below 228.
    pub open spec fn lcd_in_range(self) -> bool {
        &&& self.lcd_accumulator < 4
        &&& self.lcd_cur_h < 308
        &&& self.lcd_cur_v < 228
    }

    /// One step of the machine: a processor step, whose cycles go to the LCD
    /// accumulator, then the LCD run for the accumulated cycles. A fault of
    /// the processor stops the step where it happened.
    pub open spec fn emulate(self) -> (GbaModel, Result<EmulationResult, CpuFault>) {
        let (m, r) = self.emulate_cpu();
        match r {
            Err(f) => (m, Err(f)),
            Ok(res) => {
                let m1 = match res {
                    EmulationResult::Cycles(c) => GbaModel {
                        lcd_accumulator: (m.lcd_accumulator + c) as u32,
                        ..m
                    },
                    EmulationResult::Exception => m,
                };
                (m1.lcd_run(), Ok(res))
            },
        }
    }
}

proof fn lemma_fill_queue_keeps_lcd(m: GbaModel, size: u32)
    ensures
        m.fill_queue(size).0.lcd_accumulator == m.lcd_accumulator,
        m.fill_queue(size).0.lcd_cur_h == m.lcd_cur_h,
        m.fill_queue(size).0.lcd_cur_v == m.lcd_cur_v,
        m.fill_queue(size).0.frame_pending == m.frame_pending,
    decreases 2 - m.instruction_cache.len(),
{
    if m.instruction_cache.len() < 2 {
        let adr = m.r[15];
        match m.fetch(adr) {
            Err(f) => {},
            Ok(inst) => {
                let n = GbaModel {
                    instruction_cache: m.instruction_cache.push((adr, inst)),
                    r: vstd::array::spec_array_update(m.r, 15, vstd::wrapping::u32_specs::wrapping_add(adr, size)),
                    ..m
                };
                lemma_fill_queue_keeps_lcd(n, size);
            },
        }
    }
}

/// A processor step leaves the LCD counters alone and takes four cycles, or
/// none where it met an instruction that did not decode.
pub proof fn lemma_emulate_cpu_keeps_lcd(m: GbaModel)
    ensures
        m.emulate_cpu().0.lcd_accumulator == m.lcd_accumulator,
        m.emulate_cpu().0.lcd_cur_h == m.lcd_cur_h,
        m.emulate_cpu().0.lcd_cur_v == m.lcd_cur_v,
        m.emulate_cpu().0.frame_pending == m.frame_pending,
        m.emulate_cpu().1 matches Ok(EmulationResult::Cycles(c)) ==> c == 0 || c == 4,
{
    let size = m.instruction_size();
    let m0 = if m.pc_dirty {
        GbaModel { instruction_cache: Seq::empty(), pc_dirty: false, ..m }
    } else {
        m
    };
    lemma_fill_queue_keeps_lcd(m0, size);
    let (m1, filled) = m0.fill_queue(size);
    if filled is Ok {
        let decoded = m1.instruction_cache[0];
        let m2 = GbaModel { instruction_cache: m1.instruction_cache.drop_first(), ..m1 };
        if let Some(inst) = decoded.1 {
            lemma_execute_keeps_system(m2, inst);
            lemma_execute_takes_four_cycles(m2, inst);
        }
    }
}

proof fn lemma_lcd_interrupt_keeps_lcd(m: GbaModel, source: Interrupt)
    ensures
        m.lcd_interrupt(source).lcd_accumulator == m.lcd_accumulator,
        m.lcd_interrupt(source).lcd_cur_h == m.lcd_cur_h,
        m.lcd_interrupt(source).lcd_cur_v == m.lcd_cur_v,
{
    reveal(GbaModel::lcd_interrupt);
}

/// The LCD uses up its accumulated cycles in steps of four, leaving fewer
/// than four, and keeps its dot counter below 308 and its line counter
/// below 228.
pub proof fn lemma_lcd_run_bounds(m: GbaModel)
    requires
        m.lcd_cur_h < 308,
        m.lcd_cur_v < 228,
    ensures
        m.lcd_run().lcd_accumulator == m.lcd_accumulator % 4,
        m.lcd_run().lcd_cur_h < 308,
        m.lcd_run().lcd_cur_v < 228,
    decreases m.lcd_accumulator,
{
    if m.lcd_accumulator >= 4 {
        let m1 = GbaModel { lcd_cur_h: (m.lcd_cur_h + 1) as u16, ..m };
        lemma_lcd_interrupt_keeps_lcd(m1, Interrupt::LcdHBlank);
        let m2 = if m1.lcd_cur_h == 240 {
            m1.lcd_interrupt(Interrupt::LcdHBlank)
        } else {
            m1
        };
        let m3 = if m2.lcd_cur_h >= 308 {
            GbaModel { lcd_cur_v: (m2.lcd_cur_v + 1) as u16, lcd_cur_h: 0, ..m2 }
        } else {
            m2
        };
        lemma_lcd_interrupt_keeps_lcd(m3, Interrupt::LcdVBlank);
        lemma_lcd_run_bounds(m.lcd_step());
    }
}

/// The LCD run leaves fewer than four accumulated cycles and keeps the
/// counters below their largest value.
pub proof fn lemma_lcd_run_keeps_counters(m: GbaModel)
    requires
        m.lcd_cur_h < 0xFFFF,
        m.lcd_cur_v < 0xFFFF,
    ensures
        m.lcd_run().lcd_accumulator == m.lcd_accumulator % 4,
        m.lcd_run().lcd_cur_h < 0xFFFF,
        m.lcd_run().lcd_cur_v < 0xFFFF,
    decreases m.lcd_accumulator,
{
    if m.lcd_accumulator >= 4 {
        let m1 = GbaModel { lcd_cur_h: (m.lcd_cur_h + 1) as u16, ..m };
        lemma_lcd_interrupt_keeps_lcd(m1, Interrupt::LcdHBlank);
        let m2 = if m1.lcd_cur_h == 240 {
            m1.lcd_interrupt(Interrupt::LcdHBlank)
        } else {
            m1
        };
        let m3 = if m2.lcd_cur_h >= 308 {
            GbaModel { lcd_cur_v: (m2.lcd_cur_v + 1) as u16, lcd_cur_h: 0, ..m2 }
        } else {
            m2
        };
        lemma_lcd_interrupt_keeps_lcd(m3, Interrupt::LcdVBlank);
        lemma_lcd_run_keeps_counters(m.lcd_step());
    }
}

/// A step of the machine leaves the LCD able to step again (see
/// `GbaModel::lcd_can_step`), with fewer than four accumulated cycles.
pub proof fn lemma_emulate_keeps_lcd_steppable(m: GbaModel)
    requires
        m.lcd_can_step(),
    ensures
        m.emulate().1 is Ok ==> m.emulate().0.lcd_can_step() && m.emulate().0.lcd_accumulator < 4,
{
    lemma_emulate_cpu_keeps_lcd(m);
    let (n, r) = m.emulate_cpu();
    if let Ok(res) = r {
        let n1 = match res {
            EmulationResult::Cycles(c) => GbaModel { lcd_accumulator: (n.lcd_accumulator + c) as u32, ..n },
            EmulationResult::Exception => n,
        };
        lemma_lcd_run_keeps_counters(n1);
    }
}

/// A step of the machine keeps the LCD state within a frame (see
/// `GbaModel::lcd_in_range`).
pub proof fn lemma_emulate_keeps_lcd_in_range(m: GbaModel)
    requires
        m.lcd_in_range(),
    ensures
        m.emulate().1 is Ok ==> m.emulate().0.lcd_in_range(),
{
    lemma_emulate_cpu_keeps_lcd(m);
    let (n, r) = m.emulate_cpu();
    if let Ok(res) = r {
        let n1 = match res {
            EmulationResult::Cycles(c) => GbaModel { lcd_accumulator: (n.lcd_accumulator + c) as u32, ..n },
            EmulationResult::Exception => n,
        };
        lemma_lcd_run_bounds(n1);
    }
}

/// The events of a finished frame for a machine in state `m`: the palette
/// RAM, the video RAM and the object attribute memory, each whole from
/// address 0, then the frame signal.
pub open spec fn frame_events(evs: Seq<VideoEvent>, m: GbaModel) -> bool {
    &&& evs.len() == 4
    &&& evs[0] matches VideoEvent::PRamUpdate { start_address, data } && start_address == 0
        && data@ == m.pram
    &&& evs[1] matches VideoEvent::VRamUpdate { start_address, data } && start_address == 0
        && data@ == m.vram
    &&& evs[2] matches VideoEvent::ORamUpdate { start_address, data } && start_address == 0
        && data@ == m.oam
    &&& evs[3] matches VideoEvent::FrameUpdate
}

impl GbaSystem {
    /// Fetches and decodes the instruction at `adr` (see `GbaModel::fetch`).
    fn fetch(&mut self, adr: u32) -> (r: Result<Option<ArmInstruction>, CpuFault>)
        requires
            old(self)@.wf(),
        ensures
            r == old(self)@.fetch(adr),
            *final(self) == *old(self),
    {
        if self.cpsr.contains(ProgramStatus::FLAG_T) {
            if !self.half_word_readable(adr) {
                return Err(CpuFault::UnalignedHalfWordRead);
            }
            match self.read_bus_half_word(adr) {
                Some(h) => Ok(self.decode_thumb_instruction(h)),
                None => Ok(None),
            }
        } else {
            match self.read_bus_word(adr) {
                Some(w) => Ok(self.decode_instruction(w)),
                None => Ok(None),
            }
        }
    }

    /// One processor step (see `GbaModel::emulate_cpu`).
    pub fn emulate_cpu(&mut self) -> (r: Result<EmulationResult, CpuFault>)
        requires
            old(self)@.wf(),
        ensures
            final(self)@ == old(self)@.emulate_cpu().0,
            r == old(self)@.emulate_cpu().1,
            final(self)@.wf(),
    {
        let instruction_size = self.instruction_size();
        if self.pc_dirty {
            self.instruction_cache.clear();
            self.pc_dirty = false;
        }
        let ghost m0 = self@;
        while self.instruction_cache.len() < 2
            invariant
                self@.wf(),
                self@.fill_queue(instruction_size) == m0.fill_queue(instruction_size),
                instruction_size == old(self)@.instruction_size(),
                m0 == (if old(self)@.pc_dirty {
                    GbaModel { instruction_cache: Seq::empty(), pc_dirty: false, ..old(self)@ }
                } else {
                    old(self)@
                }),
            decreases 2 - self.instruction_cache@.len(),
        {
            let adr = self.r[15];
            let inst = match self.fetch(adr) {
                Ok(inst) => inst,
                Err(f) => {
                    return Err(f);
                },
            };
            self.instruction_cache.push_back((adr, inst));
            self.r[15] = self.r[15].wrapping_add(instruction_size);
        }
        let ghost m1 = self@;
        let decoded = match self.instruction_cache.pop_front() {
            Some(d) => d,
            None => {
                return Ok(EmulationResult::Cycles(0));
            },
        };
        let ghost m2 = self@;
        assert(m2 == GbaModel { instruction_cache: m1.instruction_cache.drop_first(), ..m1 });
        match decoded.1 {
            Some(inst) => {
                let ticks = match self.execute(&inst) {
                    Ok(t) => t,
                    Err(f) => {
                        return Err(f);
                    },
                };
                proof {
                    lemma_execute_keeps_system(m2, inst);
                }
                if self.r[15] == 0xfffffffc {
                    self.pc = decoded.0;
                    return Ok(EmulationResult::Exception);
                }
                if self.pc_dirty {
                    self.pc = self.r[15];
                } else {
                    self.pc = self.instruction_cache[0].0;
                }
                Ok(EmulationResult::Cycles(ticks))
            },
            None => {
                self.raise_exception(ExceptionType::UndefinedInstruction);
                Ok(EmulationResult::Cycles(0))
            },
        }
    }
}

impl GbaSystem {
    /// Requests an interrupt from `source` and takes the IRQ exception where
    /// it was raised (see `GbaModel::lcd_interrupt`).
    fn lcd_interrupt(&mut self, source: Interrupt)
        requires
            old(self)@.wf(),
        ensures
            final(self)@ == old(self)@.lcd_interrupt(source),
            final(self)@.wf(),
            final(self).lcd_accumulator == old(self).lcd_accumulator,
            final(self).lcd_cur_h == old(self).lcd_cur_h,
            final(self).lcd_cur_v == old(self).lcd_cur_v,
            final(self).frame_pending == old(self).frame_pending,
    {
        proof {
            reveal(GbaModel::lcd_interrupt);
        }
        if self.io_register.signal_interrupt(source) {
            self.raise_exception(ExceptionType::IRQ);
        }
    }

    /// One pixel of LCD time (see `GbaModel::lcd_step`).
    fn lcd_step(&mut self)
        requires
            old(self)@.wf(),
            old(self).lcd_accumulator >= 4,
            old(self).lcd_cur_h < 0xFFFF,
            old(self).lcd_cur_v < 0xFFFF,
        ensures
            final(self)@ == old(self)@.lcd_step(),
            final(self)@.wf(),
            final(self).lcd_cur_h < 308,
            final(self).lcd_cur_v < 228,
    {
        let acc = self.lcd_accumulator;
        self.lcd_cur_h = self.lcd_cur_h + 1;
        if self.lcd_cur_h == 240 {
            self.lcd_interrupt(Interrupt::LcdHBlank);
        }
        if self.lcd_cur_h >= 308 {
            self.lcd_cur_v = self.lcd_cur_v + 1;
            self.lcd_cur_h = 0;
        }
        if self.lcd_cur_v == 160 {
            self.lcd_interrupt(Interrupt::LcdVBlank);
        }
        if self.lcd_cur_v >= 228 {
            self.lcd_cur_v = 0;
            self.lcd_cur_h = 0;
            self.frame_pending = true;
        }
        self.lcd_accumulator = acc - 4;
    }

    /// One step of the machine (see `GbaModel::emulate`).
    pub fn emulate(&mut self) -> (r: Result<EmulationResult, CpuFault>)
        requires
            old(self)@.wf(),
            old(self)@.lcd_can_step(),
        ensures
            final(self)@ == old(self)@.emulate().0,
            r == old(self)@.emulate().1,
            final(self)@.wf(),
    {
        proof {
            lemma_emulate_cpu_keeps_lcd(self@);
        }
        let res = match self.emulate_cpu() {
            Ok(res) => res,
            Err(f) => {
                return Err(f);
            },
        };
        match res {
            EmulationResult::Cycles(c) => self.lcd_accumulator = self.lcd_accumulator + c,
            EmulationResult::Exception => {},
        }
        let ghost target = self@.lcd_run();
        while self.lcd_accumulator >= 4
            invariant
                self@.lcd_run() == target,
                self@.wf(),
                self.lcd_cur_h < 0xFFFF,
                self.lcd_cur_v < 0xFFFF,
            decreases self.lcd_accumulator,
        {
            self.lcd_step();
        }
        Ok(res)
    }
}

impl GbaSystem {
    /// The video events of a frame that the LCD finished: the memories that
    /// the display draws from and the frame signal, once; none while no
    /// frame is ready. Taken after the step that finished the frame, they
    /// hold the memories as they were when it finished.
    pub fn take_video_events(&mut self) -> (r: Vec<VideoEvent>)
        ensures
            old(self).frame_pending ==> frame_events(r@, old(self)@),
            !old(self).frame_pending ==> r@.len() == 0,
            final(self)@ == (GbaModel { frame_pending: false, ..old(self)@ }),
    {
        let mut events: Vec<VideoEvent> = Vec::new();
        if self.frame_pending {
            let pram = self.pram.clone();
            assert(pram@ =~= self.pram@);
            let vram = self.vram.clone();
            assert(vram@ =~= self.vram@);
            let oam = self.oam.clone();
            assert(oam@ =~= self.oam@);
            events.push(VideoEvent::PRamUpdate { start_address: 0, data: pram });
            events.push(VideoEvent::VRamUpdate { start_address: 0, data: vram });
            events.push(VideoEvent::ORamUpdate { start_address: 0, data: oam });
            events.push(VideoEvent::FrameUpdate);
            self.frame_pending = false;
        }
        events
    }
}

} // verus!
