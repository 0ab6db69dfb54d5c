use vstd::prelude::*;
use crate::bus::BusValue;

verus! {

/// The interrupt sources of the interrupt controller.
#[derive(Clone, Copy, PartialEq, Eq, Structural, Debug)]
pub enum Interrupt {
    LcdVBlank,
    LcdHBlank,
    LcdVCounterMatch,
    Timer0Overflow,
    Timer1Overflow,
    Timer2Overflow,
    Timer3Overflow,
    SerialCommunication,
    Dma0,
    Dma1,
    Dma2,
    Dma3,
    Keypad,
    GamePak,
}

/// The bit that an interrupt source raises in the request and enable registers.
/// (Timer 3 shares the bit of timer 2.)
pub open spec fn interrupt_mask(i: Interrupt) -> u16 {
    match i {
        Interrupt::LcdVBlank => 0b0000000000001,
        Interrupt::LcdHBlank => 0b0000000000010,
        Interrupt::LcdVCounterMatch => 0b0000000000100,
        Interrupt::Timer0Overflow => 0b0000000001000,
        Interrupt::Timer1Overflow => 0b0000000010000,
        Interrupt::Timer2Overflow => 0b0000000100000,
        Interrupt::Timer3Overflow => 0b0000000100000,
        Interrupt::SerialCommunication => 0b0000001000000,
        Interrupt::Dma0 => 0b0000010000000,
        Interrupt::Dma1 => 0b0000100000000,
        Interrupt::Dma2 => 0b0001000000000,
        Interrupt::Dma3 => 0b0010000000000,
        Interrupt::Keypad => 0b0100000000000,
        Interrupt::GamePak => 0b1000000000000,
    }
}

/// The memory-mapped I/O registers (offsets from 0x04000000).
#[derive(Debug)]
pub struct IORegister {
    pub disp_cnt: u16,
    pub green_swap: u16,
    pub disp_stat: u16,
    pub vcnt: u16,
    pub bg0_cnt: u16,
    pub bg1_cnt: u16,
    pub bg2_cnt: u16,
    pub bg3_cnt: u16,
    pub bg0_hofs: u16,
    pub bg0_vofs: u16,
    pub bg1_hofs: u16,
    pub bg1_vofs: u16,
    pub bg2_hofs: u16,
    pub bg2_vofs: u16,
    pub bg3_hofs: u16,
    pub bg3_vofs: u16,
    pub bg2_pa: u16,
    pub bg2_pb: u16,
    pub bg2_pc: u16,
    pub bg2_pd: u16,
    pub bg2_x: u32,
    pub bg2_y: u32,
    pub bg3_pa: u16,
    pub bg3_pb: u16,
    pub bg3_pc: u16,
    pub bg3_pd: u16,
    pub bg3_x: u32,
    pub bg3_y: u32,
    pub win0_h: u16,
    pub win1_h: u16,
    pub win0_v: u16,
    pub win1_v: u16,
    pub win_in: u16,
    pub win_out: u16,
    pub mosaic: u16,
    pub bld_cnt: u16,
    pub bld_alpha: u16,
    pub bld_y: u16,
    pub sound1_cnt_l: u16,
    pub sound1_cnt_h: u16,
    pub sound1_cnt_x: u16,
    pub sound2_cnt_l: u16,
    pub sound2_cnt_h: u16,
    pub sound3_cnt_l: u16,
    pub sound3_cnt_h: u16,
    pub sound3_cnt_x: u16,
    pub sound4_cnt_l: u16,
    pub sound4_cnt_h: u16,
    pub sound_cnt_l: u16,
    pub sound_cnt_h: u16,
    pub sound_cnt_x: u16,
    pub sound_bias: u16,
    pub wave_ram_a: [u32; 4],
    pub wave_ram_b: [u32; 4],
    pub fifo_a: u32,
    pub fifo_b: u32,
    pub dma0_sad: u32,
    pub dma0_dad: u32,
    pub dma0_cnt_l: u16,
    pub dma0_cnt_h: u16,
    pub dma1_sad: u32,
    pub dma1_dad: u32,
    pub dma1_cnt_l: u16,
    pub dma1_cnt_h: u16,
    pub dma2_sad: u32,
    pub dma2_dad: u32,
    pub dma2_cnt_l: u16,
    pub dma2_cnt_h: u16,
    pub dma3_sad: u32,
    pub dma3_dad: u32,
    pub dma3_cnt_l: u16,
    pub dma3_cnt_h: u16,
    pub tm0_cnt_l: u16,
    pub tm0_cnt_h: u16,
    pub tm1_cnt_l: u16,
    pub tm1_cnt_h: u16,
    pub tm2_cnt_l: u16,
    pub tm2_cnt_h: u16,
    pub tm3_cnt_l: u16,
    pub tm3_cnt_h: u16,
    pub key_input: u16,
    pub key_cnt: u16,
    pub int_e: u16,
    pub int_f: u16,
    pub wait_cnt: u16,
    pub ime: u16,
    pub postflg: u8,
    pub halt_cnt: u8,
    pub unknown: u8,
    pub memory_cnt: u32,
}

impl IORegister {
    /// What a read of the register at `adr` gives: the register's value at
    /// its own width, or the byte 0 where no readable register is mapped.
    pub open spec fn read_spec(self, adr: u32) -> BusValue {
        if adr == 0x000 {
            BusValue::HalfWord(self.disp_cnt)
        } else if adr == 0x002 {
            BusValue::HalfWord(self.green_swap)
        } else if adr == 0x004 {
            BusValue::HalfWord(self.disp_stat)
        } else if adr == 0x008 {
            BusValue::HalfWord(self.bg0_cnt)
        } else if adr == 0x00a {
            BusValue::HalfWord(self.bg1_cnt)
        } else if adr == 0x00c {
            BusValue::HalfWord(self.bg2_cnt)
        } else if adr == 0x00e {
            BusValue::HalfWord(self.bg3_cnt)
        } else if adr == 0x048 {
            BusValue::HalfWord(self.win_in)
        } else if adr == 0x04a {
            BusValue::HalfWord(self.win_out)
        } else if adr == 0x050 {
            BusValue::HalfWord(self.bld_cnt)
        } else if adr == 0x052 {
            BusValue::HalfWord(self.bld_alpha)
        } else if adr == 0x060 {
            BusValue::HalfWord(self.sound1_cnt_l)
        } else if adr == 0x062 {
            BusValue::HalfWord(self.sound1_cnt_h)
        } else if adr == 0x064 {
            BusValue::HalfWord(self.sound1_cnt_x)
        } else if adr == 0x068 {
            BusValue::HalfWord(self.sound2_cnt_l)
        } else if adr == 0x06c {
            BusValue::HalfWord(self.sound2_cnt_h)
        } else if adr == 0x070 {
            BusValue::HalfWord(self.sound3_cnt_l)
        } else if adr == 0x072 {
            BusValue::HalfWord(self.sound3_cnt_h)
        } else if adr == 0x074 {
            BusValue::HalfWord(self.sound3_cnt_x)
        } else if adr == 0x078 {
            BusValue::HalfWord(self.sound4_cnt_l)
        } else if adr == 0x07c {
            BusValue::HalfWord(self.sound4_cnt_h)
        } else if adr == 0x080 {
            BusValue::HalfWord(self.sound_cnt_l)
        } else if adr == 0x082 {
            BusValue::HalfWord(self.sound_cnt_h)
        } else if adr == 0x084 {
            BusValue::HalfWord(self.sound_cnt_x)
        } else if adr == 0x088 {
            BusValue::HalfWord(self.sound_bias)
        } else if adr == 0x090 {
            BusValue::Word(self.wave_ram_a[0])
        } else if adr == 0x094 {
            BusValue::Word(self.wave_ram_a[1])
        } else if adr == 0x098 {
            BusValue::Word(self.wave_ram_a[2])
        } else if adr == 0x09c {
            BusValue::Word(self.wave_ram_a[3])
        } else if adr == 0x0ba {
            BusValue::HalfWord(self.dma0_cnt_h)
        } else if adr == 0x0c6 {
            BusValue::HalfWord(self.dma1_cnt_h)
        } else if adr == 0x0d2 {
            BusValue::HalfWord(self.dma2_cnt_h)
        } else if adr == 0x0de {
            BusValue::HalfWord(self.dma3_cnt_h)
        } else if adr == 0x100 {
            BusValue::HalfWord(self.tm0_cnt_l)
        } else if adr == 0x102 {
            BusValue::HalfWord(self.tm0_cnt_h)
        } else if adr == 0x104 {
            BusValue::HalfWord(self.tm1_cnt_l)
        } else if adr == 0x106 {
            BusValue::HalfWord(self.tm1_cnt_h)
        } else if adr == 0x108 {
            BusValue::HalfWord(self.tm2_cnt_l)
        } else if adr == 0x10a {
            BusValue::HalfWord(self.tm2_cnt_h)
        } else if adr == 0x10c {
            BusValue::HalfWord(self.tm3_cnt_l)
        } else if adr == 0x10e {
            BusValue::HalfWord(self.tm3_cnt_h)
        } else if adr == 0x130 {
            BusValue::HalfWord(self.key_input)
        } else if adr == 0x132 {
            BusValue::HalfWord(self.key_cnt)
        } else if adr == 0x200 {
            BusValue::HalfWord(self.int_e)
        } else if adr == 0x202 {
            BusValue::HalfWord(self.int_f)
        } else if adr == 0x204 {
            BusValue::HalfWord(self.wait_cnt)
        } else if adr == 0x208 {
            BusValue::HalfWord(self.ime)
        } else if adr == 0x300 {
            BusValue::Byte(self.postflg)
        } else if adr == 0x410 {
            BusValue::Byte(self.unknown)
        } else if adr == 0x800 {
            BusValue::Word(self.memory_cnt)
        } else {
            BusValue::Byte(0)
        }
    }

    /// The registers after a write of `val` at `adr`: the register there takes
    /// the value narrowed or widened to its own width, a write to the
    /// interrupt request register acknowledges (clears) the bits set in the
    /// value, and a write where no writable register is mapped changes nothing.
    pub open spec fn write_spec(self, adr: u32, val: BusValue) -> IORegister {
        if adr == 0x000 {
            IORegister { disp_cnt: val.as_u16(), ..self }
        } else if adr == 0x002 {
            IORegister { green_swap: val.as_u16(), ..self }
        } else if adr == 0x004 {
            IORegister { disp_stat: val.as_u16(), ..self }
        } else if adr == 0x008 {
            IORegister { bg0_cnt: val.as_u16(), ..self }
        } else if adr == 0x00a {
            IORegister { bg1_cnt: val.as_u16(), ..self }
        } else if adr == 0x00c {
            IORegister { bg2_cnt: val.as_u16(), ..self }
        } else if adr == 0x00e {
            IORegister { bg3_cnt: val.as_u16(), ..self }
        } else if adr == 0x010 {
            IORegister { bg0_hofs: val.as_u16(), ..self }
        } else if adr == 0x012 {
            IORegister { bg0_vofs: val.as_u16(), ..self }
        } else if adr == 0x014 {
            IORegister { bg1_hofs: val.as_u16(), ..self }
        } else if adr == 0x016 {
            IORegister { bg1_vofs: val.as_u16(), ..self }
        } else if adr == 0x018 {
            IORegister { bg2_hofs: val.as_u16(), ..self }
        } else if adr == 0x01a {
            IORegister { bg2_vofs: val.as_u16(), ..self }
        } else if adr == 0x01c {
            IORegister { bg3_hofs: val.as_u16(), ..self }
        } else if adr == 0x01e {
            IORegister { bg3_vofs: val.as_u16(), ..self }
        } else if adr == 0x020 {
            IORegister { bg2_pa: val.as_u16(), ..self }
        } else if adr == 0x022 {
            IORegister { bg2_pb: val.as_u16(), ..self }
        } else if adr == 0x024 {
            IORegister { bg2_pc: val.as_u16(), ..self }
        } else if adr == 0x026 {
            IORegister { bg2_pd: val.as_u16(), ..self }
        } else if adr == 0x028 {
            IORegister { bg2_x: val.as_u32(), ..self }
        } else if adr == 0x02c {
            IORegister { bg2_y: val.as_u32(), ..self }
        } else if adr == 0x030 {
            IORegister { bg3_pa: val.as_u16(), ..self }
        } else if adr == 0x032 {
            IORegister { bg3_pb: val.as_u16(), ..self }
        } else if adr == 0x034 {
            IORegister { bg3_pc: val.as_u16(), ..self }
        } else if adr == 0x036 {
            IORegister { bg3_pd: val.as_u16(), ..self }
        } else if adr == 0x038 {
            IORegister { bg3_x: val.as_u32(), ..self }
        } else if adr == 0x03c {
            IORegister { bg3_y: val.as_u32(), ..self }
        } else if adr == 0x040 {
            IORegister { win0_h: val.as_u16(), ..self }
        } else if adr == 0x042 {
            IORegister { win1_h: val.as_u16(), ..self }
        } else if adr == 0x044 {
            IORegister { win0_v: val.as_u16(), ..self }
        } else if adr == 0x046 {
            IORegister { win1_v: val.as_u16(), ..self }
        } else if adr == 0x048 {
            IORegister { win_in: val.as_u16(), ..self }
        } else if adr == 0x04a {
            IORegister { win_out: val.as_u16(), ..self }
        } else if adr == 0x04c {
            IORegister { mosaic: val.as_u16(), ..self }
        } else if adr == 0x050 {
            IORegister { bld_cnt: val.as_u16(), ..self }
        } else if adr == 0x052 {
            IORegister { bld_alpha: val.as_u16(), ..self }
        } else if adr == 0x054 {
            IORegister { bld_y: val.as_u16(), ..self }
        } else if adr == 0x060 {
            IORegister { sound1_cnt_l: val.as_u16(), ..self }
        } else if adr == 0x062 {
            IORegister { sound1_cnt_h: val.as_u16(), ..self }
        } else if adr == 0x064 {
            IORegister { sound1_cnt_x: val.as_u16(), ..self }
        } else if adr == 0x068 {
            IORegister { sound2_cnt_l: val.as_u16(), ..self }
        } else if adr == 0x06c {
            IORegister { sound2_cnt_h: val.as_u16(), ..self }
        } else if adr == 0x070 {
            IORegister { sound3_cnt_l: val.as_u16(), ..self }
        } else if adr == 0x072 {
            IORegister { sound3_cnt_h: val.as_u16(), ..self }
        } else if adr == 0x074 {
            IORegister { sound3_cnt_x: val.as_u16(), ..self }
        } else if adr == 0x078 {
            IORegister { sound4_cnt_l: val.as_u16(), ..self }
        } else if adr == 0x07c {
            IORegister { sound4_cnt_h: val.as_u16(), ..self }
        } else if adr == 0x080 {
            IORegister { sound_cnt_l: val.as_u16(), ..self }
        } else if adr == 0x082 {
            IORegister { sound_cnt_h: val.as_u16(), ..self }
        } else if adr == 0x084 {
            IORegister { sound_cnt_x: val.as_u16(), ..self }
        } else if adr == 0x088 {
            IORegister { sound_bias: val.as_u16(), ..self }
        } else if adr == 0x090 {
            IORegister { wave_ram_a: vstd::array::spec_array_update(self.wave_ram_a, 0, val.as_u32()), ..self }
        } else if adr == 0x094 {
            IORegister { wave_ram_a: vstd::array::spec_array_update(self.wave_ram_a, 1, val.as_u32()), ..self }
        } else if adr == 0x098 {
            IORegister { wave_ram_a: vstd::array::spec_array_update(self.wave_ram_a, 2, val.as_u32()), ..self }
        } else if adr == 0x09c {
            IORegister { wave_ram_a: vstd::array::spec_array_update(self.wave_ram_a, 3, val.as_u32()), ..self }
        } else if adr == 0x0a0 {
            IORegister { fifo_a: val.as_u32(), ..self }
        } else if adr == 0x0a4 {
            IORegister { fifo_b: val.as_u32(), ..self }
        } else if adr == 0x0b0 {
            IORegister { dma0_sad: val.as_u32(), ..self }
        } else if adr == 0x0b4 {
            IORegister { dma0_dad: val.as_u32(), ..self }
        } else if adr == 0x0b8 {
            IORegister { dma0_cnt_l: val.as_u16(), ..self }
        } else if adr == 0x0ba {
            IORegister { dma0_cnt_h: val.as_u16(), ..self }
        } else if adr == 0x0bc {
            IORegister { dma1_sad: val.as_u32(), ..self }
        } else if adr == 0x0c0 {
            IORegister { dma1_dad: val.as_u32(), ..self }
        } else if adr == 0x0c4 {
            IORegister { dma1_cnt_l: val.as_u16(), ..self }
        } else if adr == 0x0c6 {
            IORegister { dma1_cnt_h: val.as_u16(), ..self }
        } else if adr == 0x0c8 {
            IORegister { dma2_sad: val.as_u32(), ..self }
        } else if adr == 0x0cc {
            IORegister { dma2_dad: val.as_u32(), ..self }
        } else if adr == 0x0d0 {
            IORegister { dma2_cnt_l: val.as_u16(), ..self }
        } else if adr == 0x0d2 {
            IORegister { dma2_cnt_h: val.as_u16(), ..self }
        } else if adr == 0x0d4 {
            IORegister { dma3_sad: val.as_u32(), ..self }
        } else if adr == 0x0d8 {
            IORegister { dma3_dad: val.as_u32(), ..self }
        } else if adr == 0x0dc {
            IORegister { dma3_cnt_l: val.as_u16(), ..self }
        } else if adr == 0x0de {
            IORegister { dma3_cnt_h: val.as_u16(), ..self }
        } else if adr == 0x100 {
            IORegister { tm0_cnt_l: val.as_u16(), ..self }
        } else if adr == 0x102 {
            IORegister { tm0_cnt_h: val.as_u16(), ..self }
        } else if adr == 0x104 {
            IORegister { tm1_cnt_l: val.as_u16(), ..self }
        } else if adr == 0x106 {
            IORegister { tm1_cnt_h: val.as_u16(), ..self }
        } else if adr == 0x108 {
            IORegister { tm2_cnt_l: val.as_u16(), ..self }
        } else if adr == 0x10a {
            IORegister { tm2_cnt_h: val.as_u16(), ..self }
        } else if adr == 0x10c {
            IORegister { tm3_cnt_l: val.as_u16(), ..self }
        } else if adr == 0x10e {
            IORegister { tm3_cnt_h: val.as_u16(), ..self }
        } else if adr == 0x132 {
            IORegister { key_cnt: val.as_u16(), ..self }
        } else if adr == 0x200 {
            IORegister { int_e: val.as_u16(), ..self }
        } else if adr == 0x204 {
            IORegister { wait_cnt: val.as_u16(), ..self }
        } else if adr == 0x208 {
            IORegister { ime: val.as_u16(), ..self }
        } else if adr == 0x300 {
            IORegister { postflg: val.as_u8(), ..self }
        } else if adr == 0x301 {
            IORegister { halt_cnt: val.as_u8(), ..self }
        } else if adr == 0x410 {
            IORegister { unknown: val.as_u8(), ..self }
        } else if adr == 0x800 {
            IORegister { memory_cnt: val.as_u32(), ..self }
        } else if adr == 0x202 {
            IORegister { int_f: self.int_f & !val.as_u16(), ..self }
        } else {
            self
        }
    }

    /// The registers as they are at power-on.
    pub open spec fn initial() -> IORegister {
        IORegister {
            disp_cnt: 0,
            green_swap: 0,
            disp_stat: 0,
            vcnt: 0,
            bg0_cnt: 0,
            bg1_cnt: 0,
            bg2_cnt: 0,
            bg3_cnt: 0,
            bg0_hofs: 0,
            bg0_vofs: 0,
            bg1_hofs: 0,
            bg1_vofs: 0,
            bg2_hofs: 0,
            bg2_vofs: 0,
            bg3_hofs: 0,
            bg3_vofs: 0,
            bg2_pa: 0,
            bg2_pb: 0,
            bg2_pc: 0,
            bg2_pd: 0,
            bg2_x: 0,
            bg2_y: 0,
            bg3_pa: 0,
            bg3_pb: 0,
            bg3_pc: 0,
            bg3_pd: 0,
            bg3_x: 0,
            bg3_y: 0,
            win0_h: 0,
            win1_h: 0,
            win0_v: 0,
            win1_v: 0,
            win_in: 0,
            win_out: 0,
            mosaic: 0,
            bld_cnt: 0,
            bld_alpha: 0,
            bld_y: 0,
            sound1_cnt_l: 0,
            sound1_cnt_h: 0,
            sound1_cnt_x: 0,
            sound2_cnt_l: 0,
            sound2_cnt_h: 0,
            sound3_cnt_l: 0,
            sound3_cnt_h: 0,
            sound3_cnt_x: 0,
            sound4_cnt_l: 0,
            sound4_cnt_h: 0,
            sound_cnt_l: 0,
            sound_cnt_h: 0,
            sound_cnt_x: 0,
            sound_bias: 0x200,
            wave_ram_a: vstd::array::spec_array_fill_for_copy_type::<u32, 4>(0),
            wave_ram_b: vstd::array::spec_array_fill_for_copy_type::<u32, 4>(0),
            fifo_a: 0,
            fifo_b: 0,
            dma0_sad: 0,
            dma0_dad: 0,
            dma0_cnt_l: 0,
            dma0_cnt_h: 0,
            dma1_sad: 0,
            dma1_dad: 0,
            dma1_cnt_l: 0,
            dma1_cnt_h: 0,
            dma2_sad: 0,
            dma2_dad: 0,
            dma2_cnt_l: 0,
            dma2_cnt_h: 0,
            dma3_sad: 0,
            dma3_dad: 0,
            dma3_cnt_l: 0,
            dma3_cnt_h: 0,
            tm0_cnt_l: 0,
            tm0_cnt_h: 0,
            tm1_cnt_l: 0,
            tm1_cnt_h: 0,
            tm2_cnt_l: 0,
            tm2_cnt_h: 0,
            tm3_cnt_l: 0,
            tm3_cnt_h: 0,
            key_input: 0,
            key_cnt: 0,
            int_e: 0,
            int_f: 0,
            wait_cnt: 0,
            ime: 0,
            postflg: 0,
            halt_cnt: 0,
            unknown: 0,
            memory_cnt: 0,
        }
    }

    /// All registers zero but the sound bias (0x200), with four words of wave RAM per bank.
    pub fn new() -> (r: IORegister)
        ensures
            r.wave_ram_a@ == seq![0u32, 0u32, 0u32, 0u32],
            r.wave_ram_b@ == seq![0u32, 0u32, 0u32, 0u32],
            r == (IORegister { wave_ram_a: r.wave_ram_a, wave_ram_b: r.wave_ram_b, ..IORegister::initial() }),
    {
        let r = IORegister {
            disp_cnt: 0,
            green_swap: 0,
            disp_stat: 0,
            vcnt: 0,
            bg0_cnt: 0,
            bg1_cnt: 0,
            bg2_cnt: 0,
            bg3_cnt: 0,
            bg0_hofs: 0,
            bg0_vofs: 0,
            bg1_hofs: 0,
            bg1_vofs: 0,
            bg2_hofs: 0,
            bg2_vofs: 0,
            bg3_hofs: 0,
            bg3_vofs: 0,
            bg2_pa: 0,
            bg2_pb: 0,
            bg2_pc: 0,
            bg2_pd: 0,
            bg2_x: 0,
            bg2_y: 0,
            bg3_pa: 0,
            bg3_pb: 0,
            bg3_pc: 0,
            bg3_pd: 0,
            bg3_x: 0,
            bg3_y: 0,
            win0_h: 0,
            win1_h: 0,
            win0_v: 0,
            win1_v: 0,
            win_in: 0,
            win_out: 0,
            mosaic: 0,
            bld_cnt: 0,
            bld_alpha: 0,
            bld_y: 0,
            sound1_cnt_l: 0,
            sound1_cnt_h: 0,
            sound1_cnt_x: 0,
            sound2_cnt_l: 0,
            sound2_cnt_h: 0,
            sound3_cnt_l: 0,
            sound3_cnt_h: 0,
            sound3_cnt_x: 0,
            sound4_cnt_l: 0,
            sound4_cnt_h: 0,
            sound_cnt_l: 0,
            sound_cnt_h: 0,
            sound_cnt_x: 0,
            sound_bias: 0x200,
            wave_ram_a: [0u32; 4],
            wave_ram_b: [0u32; 4],
            fifo_a: 0,
            fifo_b: 0,
            dma0_sad: 0,
            dma0_dad: 0,
            dma0_cnt_l: 0,
            dma0_cnt_h: 0,
            dma1_sad: 0,
            dma1_dad: 0,
            dma1_cnt_l: 0,
            dma1_cnt_h: 0,
            dma2_sad: 0,
            dma2_dad: 0,
            dma2_cnt_l: 0,
            dma2_cnt_h: 0,
            dma3_sad: 0,
            dma3_dad: 0,
            dma3_cnt_l: 0,
            dma3_cnt_h: 0,
            tm0_cnt_l: 0,
            tm0_cnt_h: 0,
            tm1_cnt_l: 0,
            tm1_cnt_h: 0,
            tm2_cnt_l: 0,
            tm2_cnt_h: 0,
            tm3_cnt_l: 0,
            tm3_cnt_h: 0,
            key_input: 0,
            key_cnt: 0,
            int_e: 0,
            int_f: 0,
            wait_cnt: 0,
            ime: 0,
            postflg: 0,
            halt_cnt: 0,
            unknown: 0,
            memory_cnt: 0,
        };
        assert(r.wave_ram_a@ =~= seq![0u32, 0u32, 0u32, 0u32]);
        assert(r.wave_ram_b@ =~= seq![0u32, 0u32, 0u32, 0u32]);
        r
    }

    /// Acknowledges interrupts: clears in the request register the bits set in `val`.
    fn update_interrupt_ack(&mut self, val: u16)
        ensures
            *final(self) == (IORegister { int_f: old(self).int_f & !val, ..*old(self) }),
    {
        self.int_f = self.int_f & !val;
    }

    /// Raises `int` if the master enable is on and the source is enabled;
    /// returns whether it was raised.
    pub fn signal_interrupt(&mut self, source: Interrupt) -> (r: bool)
        ensures
            r == (old(self).ime & 1 != 0 && old(self).int_e & interrupt_mask(source) != 0),
            r ==> *final(self) == (IORegister { int_f: old(self).int_f | interrupt_mask(source), ..*old(self) }),
            !r ==> *final(self) == *old(self),
    {
        let mask: u16 = match source {
            Interrupt::LcdVBlank => 0b0000000000001,
            Interrupt::LcdHBlank => 0b0000000000010,
            Interrupt::LcdVCounterMatch => 0b0000000000100,
            Interrupt::Timer0Overflow => 0b0000000001000,
            Interrupt::Timer1Overflow => 0b0000000010000,
            Interrupt::Timer2Overflow => 0b0000000100000,
            Interrupt::Timer3Overflow => 0b0000000100000,
            Interrupt::SerialCommunication => 0b0000001000000,
            Interrupt::Dma0 => 0b0000010000000,
            Interrupt::Dma1 => 0b0000100000000,
            Interrupt::Dma2 => 0b0001000000000,
            Interrupt::Dma3 => 0b0010000000000,
            Interrupt::Keypad => 0b0100000000000,
            Interrupt::GamePak => 0b1000000000000,
        };
        if self.ime & 0x1 != 0 {
            if self.int_e & mask != 0 {
                self.int_f = self.int_f | mask;
                true
            } else {
                false
            }
        } else {
            false
        }
    }

    /// Reads the register at `adr`; every address gives a value.
    pub fn read_register(&self, adr: u32) -> (r: Option<BusValue>)
        ensures
            r == Some(self.read_spec(adr)),
    {
        match adr {
            0x000 => Some(BusValue::HalfWord(self.disp_cnt)),
            0x002 => Some(BusValue::HalfWord(self.green_swap)),
            0x004 => Some(BusValue::HalfWord(self.disp_stat)),
            0x008 => Some(BusValue::HalfWord(self.bg0_cnt)),
            0x00a => Some(BusValue::HalfWord(self.bg1_cnt)),
            0x00c => Some(BusValue::HalfWord(self.bg2_cnt)),
            0x00e => Some(BusValue::HalfWord(self.bg3_cnt)),
            0x048 => Some(BusValue::HalfWord(self.win_in)),
            0x04a => Some(BusValue::HalfWord(self.win_out)),
            0x050 => Some(BusValue::HalfWord(self.bld_cnt)),
            0x052 => Some(BusValue::HalfWord(self.bld_alpha)),
            0x060 => Some(BusValue::HalfWord(self.sound1_cnt_l)),
            0x062 => Some(BusValue::HalfWord(self.sound1_cnt_h)),
            0x064 => Some(BusValue::HalfWord(self.sound1_cnt_x)),
            0x068 => Some(BusValue::HalfWord(self.sound2_cnt_l)),
            0x06c => Some(BusValue::HalfWord(self.sound2_cnt_h)),
            0x070 => Some(BusValue::HalfWord(self.sound3_cnt_l)),
            0x072 => Some(BusValue::HalfWord(self.sound3_cnt_h)),
            0x074 => Some(BusValue::HalfWord(self.sound3_cnt_x)),
            0x078 => Some(BusValue::HalfWord(self.sound4_cnt_l)),
            0x07c => Some(BusValue::HalfWord(self.sound4_cnt_h)),
            0x080 => Some(BusValue::HalfWord(self.sound_cnt_l)),
            0x082 => Some(BusValue::HalfWord(self.sound_cnt_h)),
            0x084 => Some(BusValue::HalfWord(self.sound_cnt_x)),
            0x088 => Some(BusValue::HalfWord(self.sound_bias)),
            0x090 => Some(BusValue::Word(self.wave_ram_a[0])),
            0x094 => Some(BusValue::Word(self.wave_ram_a[1])),
            0x098 => Some(BusValue::Word(self.wave_ram_a[2])),
            0x09c => Some(BusValue::Word(self.wave_ram_a[3])),
            0x0ba => Some(BusValue::HalfWord(self.dma0_cnt_h)),
            0x0c6 => Some(BusValue::HalfWord(self.dma1_cnt_h)),
            0x0d2 => Some(BusValue::HalfWord(self.dma2_cnt_h)),
            0x0de => Some(BusValue::HalfWord(self.dma3_cnt_h)),
            0x100 => Some(BusValue::HalfWord(self.tm0_cnt_l)),
            0x102 => Some(BusValue::HalfWord(self.tm0_cnt_h)),
            0x104 => Some(BusValue::HalfWord(self.tm1_cnt_l)),
            0x106 => Some(BusValue::HalfWord(self.tm1_cnt_h)),
            0x108 => Some(BusValue::HalfWord(self.tm2_cnt_l)),
            0x10a => Some(BusValue::HalfWord(self.tm2_cnt_h)),
            0x10c => Some(BusValue::HalfWord(self.tm3_cnt_l)),
            0x10e => Some(BusValue::HalfWord(self.tm3_cnt_h)),
            0x130 => Some(BusValue::HalfWord(self.key_input)),
            0x132 => Some(BusValue::HalfWord(self.key_cnt)),
            0x200 => Some(BusValue::HalfWord(self.int_e)),
            0x202 => Some(BusValue::HalfWord(self.int_f)),
            0x204 => Some(BusValue::HalfWord(self.wait_cnt)),
            0x208 => Some(BusValue::HalfWord(self.ime)),
            0x300 => Some(BusValue::Byte(self.postflg)),
            0x410 => Some(BusValue::Byte(self.unknown)),
            0x800 => Some(BusValue::Word(self.memory_cnt)),
            _ => Some(BusValue::Byte(0)),
        }
    }

    /// Writes `val` to the register at `adr`; every write succeeds.
    pub fn write_register(&mut self, adr: u32, val: BusValue) -> (r: Result<(), ()>)
        ensures
            r == Ok::<(), ()>(()),
            *final(self) == old(self).write_spec(adr, val),
    {
        match adr {
            0x000 => {
                self.disp_cnt = val.into_u16();
                Ok(())
            },
            0x002 => {
                self.green_swap = val.into_u16();
                Ok(())
            },
            0x004 => {
                self.disp_stat = val.into_u16();
                Ok(())
            },
            0x008 => {
                self.bg0_cnt = val.into_u16();
                Ok(())
            },
            0x00a => {
                self.bg1_cnt = val.into_u16();
                Ok(())
            },
            0x00c => {
                self.bg2_cnt = val.into_u16();
                Ok(())
            },
            0x00e => {
                self.bg3_cnt = val.into_u16();
                Ok(())
            },
            0x010 => {
                self.bg0_hofs = val.into_u16();
                Ok(())
            },
            0x012 => {
                self.bg0_vofs = val.into_u16();
                Ok(())
            },
            0x014 => {
                self.bg1_hofs = val.into_u16();
                Ok(())
            },
            0x016 => {
                self.bg1_vofs = val.into_u16();
                Ok(())
            },
            0x018 => {
                self.bg2_hofs = val.into_u16();
                Ok(())
            },
            0x01a => {
                self.bg2_vofs = val.into_u16();
                Ok(())
            },
            0x01c => {
                self.bg3_hofs = val.into_u16();
                Ok(())
            },
            0x01e => {
                self.bg3_vofs = val.into_u16();
                Ok(())
            },
            0x020 => {
                self.bg2_pa = val.into_u16();
                Ok(())
            },
            0x022 => {
                self.bg2_pb = val.into_u16();
                Ok(())
            },
            0x024 => {
                self.bg2_pc = val.into_u16();
                Ok(())
            },
            0x026 => {
                self.bg2_pd = val.into_u16();
                Ok(())
            },
            0x028 => {
                self.bg2_x = val.into_u32();
                Ok(())
            },
            0x02c => {
                self.bg2_y = val.into_u32();
                Ok(())
            },
            0x030 => {
                self.bg3_pa = val.into_u16();
                Ok(())
            },
            0x032 => {
                self.bg3_pb = val.into_u16();
                Ok(())
            },
            0x034 => {
                self.bg3_pc = val.into_u16();
                Ok(())
            },
            0x036 => {
                self.bg3_pd = val.into_u16();
                Ok(())
            },
            0x038 => {
                self.bg3_x = val.into_u32();
                Ok(())
            },
            0x03c => {
                self.bg3_y = val.into_u32();
                Ok(())
            },
            0x040 => {
                self.win0_h = val.into_u16();
                Ok(())
            },
            0x042 => {
                self.win1_h = val.into_u16();
                Ok(())
            },
            0x044 => {
                self.win0_v = val.into_u16();
                Ok(())
            },
            0x046 => {
                self.win1_v = val.into_u16();
                Ok(())
            },
            0x048 => {
                self.win_in = val.into_u16();
                Ok(())
            },
            0x04a => {
                self.win_out = val.into_u16();
                Ok(())
            },
            0x04c => {
                self.mosaic = val.into_u16();
                Ok(())
            },
            0x050 => {
                self.bld_cnt = val.into_u16();
                Ok(())
            },
            0x052 => {
                self.bld_alpha = val.into_u16();
                Ok(())
            },
            0x054 => {
                self.bld_y = val.into_u16();
                Ok(())
            },
            0x060 => {
                self.sound1_cnt_l = val.into_u16();
                Ok(())
            },
            0x062 => {
                self.sound1_cnt_h = val.into_u16();
                Ok(())
            },
            0x064 => {
                self.sound1_cnt_x = val.into_u16();
                Ok(())
            },
            0x068 => {
                self.sound2_cnt_l = val.into_u16();
                Ok(())
            },
            0x06c => {
                self.sound2_cnt_h = val.into_u16();
                Ok(())
            },
            0x070 => {
                self.sound3_cnt_l = val.into_u16();
                Ok(())
            },
            0x072 => {
                self.sound3_cnt_h = val.into_u16();
                Ok(())
            },
            0x074 => {
                self.sound3_cnt_x = val.into_u16();
                Ok(())
            },
            0x078 => {
                self.sound4_cnt_l = val.into_u16();
                Ok(())
            },
            0x07c => {
                self.sound4_cnt_h = val.into_u16();
                Ok(())
            },
            0x080 => {
                self.sound_cnt_l = val.into_u16();
                Ok(())
            },
            0x082 => {
                self.sound_cnt_h = val.into_u16();
                Ok(())
            },
            0x084 => {
                self.sound_cnt_x = val.into_u16();
                Ok(())
            },
            0x088 => {
                self.sound_bias = val.into_u16();
                Ok(())
            },
            0x090 => {
                self.wave_ram_a[0] = val.into_u32();
                Ok(())
            },
            0x094 => {
                self.wave_ram_a[1] = val.into_u32();
                Ok(())
            },
            0x098 => {
                self.wave_ram_a[2] = val.into_u32();
                Ok(())
            },
            0x09c => {
                self.wave_ram_a[3] = val.into_u32();
                Ok(())
            },
            0x0a0 => {
                self.fifo_a = val.into_u32();
                Ok(())
            },
            0x0a4 => {
                self.fifo_b = val.into_u32();
                Ok(())
            },
            0x0b0 => {
                self.dma0_sad = val.into_u32();
                Ok(())
            },
            0x0b4 => {
                self.dma0_dad = val.into_u32();
                Ok(())
            },
            0x0b8 => {
                self.dma0_cnt_l = val.into_u16();
                Ok(())
            },
            0x0ba => {
                self.dma0_cnt_h = val.into_u16();
                Ok(())
            },
            0x0bc => {
                self.dma1_sad = val.into_u32();
                Ok(())
            },
            0x0c0 => {
                self.dma1_dad = val.into_u32();
                Ok(())
            },
            0x0c4 => {
                self.dma1_cnt_l = val.into_u16();
                Ok(())
            },
            0x0c6 => {
                self.dma1_cnt_h = val.into_u16();
                Ok(())
            },
            0x0c8 => {
                self.dma2_sad = val.into_u32();
                Ok(())
            },
            0x0cc => {
                self.dma2_dad = val.into_u32();
                Ok(())
            },
            0x0d0 => {
                self.dma2_cnt_l = val.into_u16();
                Ok(())
            },
            0x0d2 => {
                self.dma2_cnt_h = val.into_u16();
                Ok(())
            },
            0x0d4 => {
                self.dma3_sad = val.into_u32();
                Ok(())
            },
            0x0d8 => {
                self.dma3_dad = val.into_u32();
                Ok(())
            },
            0x0dc => {
                self.dma3_cnt_l = val.into_u16();
                Ok(())
            },
            0x0de => {
                self.dma3_cnt_h = val.into_u16();
                Ok(())
            },
            0x100 => {
                self.tm0_cnt_l = val.into_u16();
                Ok(())
            },
            0x102 => {
                self.tm0_cnt_h = val.into_u16();
                Ok(())
            },
            0x104 => {
                self.tm1_cnt_l = val.into_u16();
                Ok(())
            },
            0x106 => {
                self.tm1_cnt_h = val.into_u16();
                Ok(())
            },
            0x108 => {
                self.tm2_cnt_l = val.into_u16();
                Ok(())
            },
            0x10a => {
                self.tm2_cnt_h = val.into_u16();
                Ok(())
            },
            0x10c => {
                self.tm3_cnt_l = val.into_u16();
                Ok(())
            },
            0x10e => {
                self.tm3_cnt_h = val.into_u16();
                Ok(())
            },
            0x132 => {
                self.key_cnt = val.into_u16();
                Ok(())
            },
            0x200 => {
                self.int_e = val.into_u16();
                Ok(())
            },
            0x204 => {
                self.wait_cnt = val.into_u16();
                Ok(())
            },
            0x208 => {
                self.ime = val.into_u16();
                Ok(())
            },
            0x300 => {
                self.postflg = val.into_u8();
                Ok(())
            },
            0x301 => {
                self.halt_cnt = val.into_u8();
                Ok(())
            },
            0x410 => {
                self.unknown = val.into_u8();
                Ok(())
            },
            0x800 => {
                self.memory_cnt = val.into_u32();
                Ok(())
            },
            0x202 => {
                self.update_interrupt_ack(val.into_u16());
                Ok(())
            },
            _ => Ok(()),
        }
    }
}

/// The registers that a write changes and a read gives back.
pub open spec fn io_round_trip_address(adr: u32) -> bool {
    adr == 0x000
    || adr == 0x002
    || adr == 0x004
    || adr == 0x008
    || adr == 0x00a
    || adr == 0x00c
    || adr == 0x00e
    || adr == 0x048
    || adr == 0x04a
    || adr == 0x050
    || adr == 0x052
    || adr == 0x060
    || adr == 0x062
    || adr == 0x064
    || adr == 0x068
    || adr == 0x06c
    || adr == 0x070
    || adr == 0x072
    || adr == 0x074
    || adr == 0x078
    || adr == 0x07c
    || adr == 0x080
    || adr == 0x082
    || adr == 0x084
    || adr == 0x088
    || adr == 0x090
    || adr == 0x094
    || adr == 0x098
    || adr == 0x09c
    || adr == 0x0ba
    || adr == 0x0c6
    || adr == 0x0d2
    || adr == 0x0de
    || adr == 0x100
    || adr == 0x102
    || adr == 0x104
    || adr == 0x106
    || adr == 0x108
    || adr == 0x10a
    || adr == 0x10c
    || adr == 0x10e
    || adr == 0x132
    || adr == 0x200
    || adr == 0x204
    || adr == 0x208
    || adr == 0x300
    || adr == 0x410
    || adr == 0x800
}

/// A value narrowed or widened to the width of `shape`.
pub open spec fn fit_to_width(shape: BusValue, val: BusValue) -> BusValue {
    match shape {
        BusValue::Byte(_) => BusValue::Byte(val.as_u8()),
        BusValue::HalfWord(_) => BusValue::HalfWord(val.as_u16()),
        BusValue::Word(_) => BusValue::Word(val.as_u32()),
    }
}

/// A read of a read-write register gives back what was last written there,
/// at the register's width.
pub proof fn lemma_io_write_then_read(io: IORegister, adr: u32, val: BusValue)
    requires
        io_round_trip_address(adr),
    ensures
        io.write_spec(adr, val).read_spec(adr) == fit_to_width(io.read_spec(adr), val),
{
}

/// A write at one address leaves what every other address reads unchanged.
pub proof fn lemma_io_write_other_address(io: IORegister, adr: u32, other: u32, val: BusValue)
    requires
        adr != other,
    ensures
        io.write_spec(adr, val).read_spec(other) == io.read_spec(other),
{
}

/// Writing to the interrupt request register acknowledges exactly the
/// requests whose bits are set in the value written.
pub proof fn lemma_io_interrupt_acknowledge(io: IORegister, val: BusValue)
    ensures
        io.write_spec(0x202, val).read_spec(0x202) == BusValue::HalfWord(io.int_f & !val.as_u16()),
        io.write_spec(0x202, val).int_e == io.int_e,
        io.write_spec(0x202, val).ime == io.ime,
{
}

} // verus!
