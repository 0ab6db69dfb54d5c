use vstd::prelude::*;
use crate::gba::{GbaModel, GbaSystem};

verus! {

/// A value carried on the system bus, tagged by its width.
#[derive(Clone, Copy, PartialEq, Eq, Structural, Debug)]
pub enum BusValue {
    Word(u32),
    HalfWord(u16),
    Byte(u8),
}

/// The width of a bus access.
#[derive(Clone, Copy, PartialEq, Eq, Structural, Debug)]
pub enum BusWidth {
    Word,
    HalfWord,
    Byte,
}

impl BusValue {
    /// The low byte of the value.
    pub open spec fn as_u8(self) -> u8 {
        match self {
            BusValue::Byte(b) => b,
            BusValue::HalfWord(h) => (h & 0xFF) as u8,
            BusValue::Word(w) => (w & 0xFF) as u8,
        }
    }

    /// The low half word of the value, zero-extended from a byte.
    pub open spec fn as_u16(self) -> u16 {
        match self {
            BusValue::Byte(b) => b as u16,
            BusValue::HalfWord(h) => h,
            BusValue::Word(w) => (w & 0xFFFF) as u16,
        }
    }

    /// The value zero-extended to a word.
    pub open spec fn as_u32(self) -> u32 {
        match self {
            BusValue::Byte(b) => b as u32,
            BusValue::HalfWord(h) => h as u32,
            BusValue::Word(w) => w,
        }
    }

    pub fn into_u8(self) -> (r: u8)
        ensures
            r == self.as_u8(),
    {
        match self {
            BusValue::Byte(b) => b,
            BusValue::HalfWord(h) => (h & 0xFF) as u8,
            BusValue::Word(w) => (w & 0xFF) as u8,
        }
    }

    pub fn into_u16(self) -> (r: u16)
        ensures
            r == self.as_u16(),
    {
        match self {
            BusValue::Byte(b) => b as u16,
            BusValue::HalfWord(h) => h,
            BusValue::Word(w) => (w & 0xFFFF) as u16,
        }
    }

    pub fn into_u32(self) -> (r: u32)
        ensures
            r == self.as_u32(),
    {
        match self {
            BusValue::Byte(b) => b as u32,
            BusValue::HalfWord(h) => h as u32,
            BusValue::Word(w) => w,
        }
    }
}

impl From<u8> for BusValue {
    fn from(val: u8) -> (r: BusValue) {
        BusValue::Byte(val)
    }
}

impl vstd::std_specs::convert::FromSpecImpl<u8> for BusValue {
    open spec fn obeys_from_spec() -> bool {
        true
    }

    open spec fn from_spec(v: u8) -> BusValue {
        BusValue::Byte(v)
    }
}

impl From<u16> for BusValue {
    fn from(val: u16) -> (r: BusValue) {
        BusValue::HalfWord(val)
    }
}

impl vstd::std_specs::convert::FromSpecImpl<u16> for BusValue {
    open spec fn obeys_from_spec() -> bool {
        true
    }

    open spec fn from_spec(v: u16) -> BusValue {
        BusValue::HalfWord(v)
    }
}

impl From<u32> for BusValue {
    fn from(val: u32) -> (r: BusValue) {
        BusValue::Word(val)
    }
}

impl vstd::std_specs::convert::FromSpecImpl<u32> for BusValue {
    open spec fn obeys_from_spec() -> bool {
        true
    }

    open spec fn from_spec(v: u32) -> BusValue {
        BusValue::Word(v)
    }
}

/// Byte `k` (little-endian) of a half word.
pub open spec fn half_byte(d: u16, k: u32) -> u8 {
    ((d >> (8 * k) as u16) & 0xFF) as u8
}

/// Byte `k` (little-endian) of a word.
pub open spec fn word_byte(d: u32, k: u32) -> u8 {
    ((d >> (8 * k)) & 0xFF) as u8
}

/// The half word at byte offset `k` (little-endian) of a word.
pub open spec fn word_half(d: u32, k: u32) -> u16 {
    ((d >> (8 * k)) & 0xFFFF) as u16
}

/// A half word with byte `k` replaced by `b`.
pub open spec fn replace_half_byte(d: u16, k: u32, b: u8) -> u16 {
    ((d & !((0xFFu16) << (8 * k) as u16)) | ((b as u16) << (8 * k) as u16)) as u16
}

/// A word with byte `k` replaced by `b`.
pub open spec fn replace_word_byte(d: u32, k: u32, b: u8) -> u32 {
    (d & !(0xFFu32 << (8 * k))) | ((b as u32) << (8 * k))
}

/// A word with the half word at byte offset `k` replaced by `h`.
pub open spec fn replace_word_half(d: u32, k: u32, h: u16) -> u32 {
    (d & !(0xFFFFu32 << (8 * k))) | ((h as u32) << (8 * k))
}

/// Continues a sequence of raw writes: the next write happens only if the
/// ones before it succeeded.
pub open spec fn raw_then(prev: (GbaModel, Result<(), ()>), adr: u32, val: BusValue) -> (
    GbaModel,
    Result<(), ()>,
) {
    if prev.1 is Ok {
        prev.0.write_bus_raw(adr, val)
    } else {
        prev
    }
}

impl GbaModel {
    /// What the bus gives for an address, at the native width of the memory
    /// that the address maps to; `None` for reserved and unused areas.
    pub open spec fn read_bus(self, adr: u32) -> Option<BusValue> {
        if adr <= 0x00003FFF {
            Some(BusValue::Word(self.bios[(adr >> 2) as int]))
        } else if adr <= 0x01FFFFFF {
            None
        } else if adr <= 0x02FFFFFF {
            Some(BusValue::HalfWord(self.ewram[((adr & 0x03FFFF) >> 2) as int]))
        } else if adr <= 0x03FFFFFF {
            Some(BusValue::Word(self.iwram[((adr & 0x07FFF) >> 2) as int]))
        } else if adr <= 0x04FFFFFF {
            Some(self.io.read_spec(adr & 0xFFFFFF))
        } else if adr <= 0x050003FF {
            Some(BusValue::HalfWord(self.pram[((adr - 0x05000000) as u32 >> 1) as int]))
        } else if adr <= 0x05FFFFFF {
            None
        } else if adr <= 0x06017FFF {
            Some(BusValue::HalfWord(self.vram[((adr - 0x06000000) as u32 >> 1) as int]))
        } else if adr <= 0x06FFFFFF {
            None
        } else if adr <= 0x070003FF {
            Some(BusValue::Word(self.oam[((adr - 0x07000000) as u32 >> 2) as int]))
        } else if adr <= 0x07FFFFFF {
            None
        } else if adr <= 0x09FFFFFF {
            Some(BusValue::HalfWord(self.pack[((adr - 0x08000000) as u32 >> 1) as int]))
        } else if adr <= 0x0BFFFFFF {
            Some(BusValue::HalfWord(self.pack[((adr - 0x0A000000) as u32 >> 1) as int]))
        } else if adr <= 0x0DFFFFFF {
            Some(BusValue::HalfWord(self.pack[((adr - 0x0C000000) as u32 >> 1) as int]))
        } else if adr <= 0x0E00FFFF {
            Some(BusValue::Byte(self.sram[(adr - 0x0E000000) as int]))
        } else {
            None
        }
    }

    /// The byte at an address: the addressed byte of the native value.
    pub open spec fn read_bus_byte(self, adr: u32) -> Option<u8> {
        match self.read_bus(adr) {
            Some(BusValue::Byte(d)) => Some(d),
            Some(BusValue::HalfWord(d)) => Some(half_byte(d, adr & 1)),
            Some(BusValue::Word(d)) => Some(word_byte(d, adr & 3)),
            None => None,
        }
    }

    /// Whether a half-word read at `adr` is defined: it is not when `adr` is
    /// the last byte of a word of a word-wide memory.
    pub open spec fn half_word_readable(self, adr: u32) -> bool {
        !(self.read_bus(adr) matches Some(BusValue::Word(_)) && adr & 3 == 3)
    }

    /// The half word at an address: from a byte-wide memory the byte there and
    /// the next one, from a half-word memory the half word there, from a
    /// word-wide memory the half word at the byte offset of `adr`.
    pub open spec fn read_bus_half_word(self, adr: u32) -> Option<u16> {
        match self.read_bus(adr) {
            Some(BusValue::Byte(d)) => match self.read_bus_byte((adr + 1) as u32) {
                Some(b) => Some((d as u16 | ((b as u16) << 8u16)) as u16),
                None => None,
            },
            Some(BusValue::HalfWord(d)) => Some(d),
            Some(BusValue::Word(d)) => Some(word_half(d, adr & 3)),
            None => None,
        }
    }

    /// The word at an address: from a byte-wide memory four bytes, from a
    /// half-word memory the half word there and the one two bytes on, from a
    /// word-wide memory the word there.
    pub open spec fn read_bus_word(self, adr: u32) -> Option<u32> {
        match self.read_bus(adr) {
            Some(BusValue::Byte(d)) => match (
                self.read_bus_byte((adr + 1) as u32),
                self.read_bus_byte((adr + 2) as u32),
                self.read_bus_byte((adr + 3) as u32),
            ) {
                (Some(b1), Some(b2), Some(b3)) => Some(
                    d as u32 | ((b1 as u32) << 8u32) | ((b2 as u32) << 16u32) | ((b3 as u32)
                        << 24u32),
                ),
                _ => None,
            },
            Some(BusValue::HalfWord(d)) => match self.read_bus_half_word((adr + 2) as u32) {
                Some(h) => Some(d as u32 | ((h as u32) << 16u32)),
                None => None,
            },
            Some(BusValue::Word(d)) => Some(d),
            None => None,
        }
    }

    /// A write of exactly the native width of the memory at `adr`; refused,
    /// with no change, for read-only, reserved and unused areas and for a
    /// value of another width.
    pub open spec fn write_bus_raw(self, adr: u32, val: BusValue) -> (GbaModel, Result<(), ()>) {
        if adr <= 0x01FFFFFF {
            (self, Err(()))
        } else if adr <= 0x0203FFFF {
            match val {
                BusValue::HalfWord(v) => (
                    GbaModel {
                        ewram: self.ewram.update(((adr - 0x02000000) as u32 >> 1) as int, v),
                        ..self
                    },
                    Ok(()),
                ),
                _ => (self, Err(())),
            }
        } else if adr <= 0x02FFFFFF {
            (self, Err(()))
        } else if adr <= 0x03FFFFFF {
            match val {
                BusValue::Word(v) => (
                    GbaModel { iwram: self.iwram.update(((adr & 0x07FFF) >> 2) as int, v), ..self },
                    Ok(()),
                ),
                _ => (self, Err(())),
            }
        } else if adr <= 0x04FFFFFF {
            (GbaModel { io: self.io.write_spec(adr & 0xFFFFFF, val), ..self }, Ok(()))
        } else if adr <= 0x050003FF {
            match val {
                BusValue::HalfWord(v) => (
                    GbaModel {
                        pram: self.pram.update(((adr - 0x05000000) as u32 >> 1) as int, v),
                        ..self
                    },
                    Ok(()),
                ),
                _ => (self, Err(())),
            }
        } else if adr <= 0x05FFFFFF {
            (self, Err(()))
        } else if adr <= 0x06017FFF {
            match val {
                BusValue::HalfWord(v) => (
                    GbaModel {
                        vram: self.vram.update(((adr - 0x06000000) as u32 >> 1) as int, v),
                        ..self
                    },
                    Ok(()),
                ),
                _ => (self, Err(())),
            }
        } else if adr <= 0x06FFFFFF {
            (self, Err(()))
        } else if adr <= 0x070003FF {
            match val {
                BusValue::Word(v) => (
                    GbaModel {
                        oam: self.oam.update(((adr - 0x07000000) as u32 >> 2) as int, v),
                        ..self
                    },
                    Ok(()),
                ),
                _ => (self, Err(())),
            }
        } else if adr <= 0x0DFFFFFF {
            (self, Err(()))
        } else if adr <= 0x0E00FFFF {
            match val {
                BusValue::Byte(v) => (
                    GbaModel { sram: self.sram.update((adr - 0x0E000000) as int, v), ..self },
                    Ok(()),
                ),
                _ => (self, Err(())),
            }
        } else {
            (self, Err(()))
        }
    }

    /// A write of any width, fitted to the native width of the memory at
    /// `adr`: into a byte-wide memory byte by byte from `adr` on (stopping at
    /// the first refused byte); into a half-word memory a byte merges into the
    /// half word there and a word writes its low and then its high half, both
    /// at `adr`; into a word-wide memory a byte or a half word merges into the
    /// word there at the byte offset of `adr`. Where nothing is mapped the
    /// value goes to a raw write as it is.
    pub open spec fn write_bus(self, adr: u32, write_val: BusValue) -> (GbaModel, Result<(), ()>) {
        match self.read_bus(adr) {
            Some(BusValue::Byte(_)) => match write_val {
                BusValue::Byte(_) => self.write_bus_raw(adr, write_val),
                BusValue::HalfWord(v) => raw_then(
                    self.write_bus_raw(adr, BusValue::Byte(half_byte(v, 0))),
                    (adr + 1) as u32,
                    BusValue::Byte(half_byte(v, 1)),
                ),
                BusValue::Word(v) => raw_then(
                    raw_then(
                        raw_then(
                            self.write_bus_raw(adr, BusValue::Byte(word_byte(v, 0))),
                            (adr + 1) as u32,
                            BusValue::Byte(word_byte(v, 1)),
                        ),
                        (adr + 2) as u32,
                        BusValue::Byte(word_byte(v, 2)),
                    ),
                    (adr + 3) as u32,
                    BusValue::Byte(word_byte(v, 3)),
                ),
            },
            Some(BusValue::HalfWord(v)) => match write_val {
                BusValue::Byte(b) => self.write_bus_raw(
                    adr,
                    BusValue::HalfWord(replace_half_byte(v, adr & 1, b)),
                ),
                BusValue::HalfWord(_) => self.write_bus_raw(adr, write_val),
                BusValue::Word(w) => raw_then(
                    self.write_bus_raw(adr, BusValue::HalfWord(word_half(w, 0))),
                    adr,
                    BusValue::HalfWord(word_half(w, 2)),
                ),
            },
            Some(BusValue::Word(v)) => match write_val {
                BusValue::Byte(b) => self.write_bus_raw(
                    adr,
                    BusValue::Word(replace_word_byte(v, adr & 3, b)),
                ),
                BusValue::HalfWord(h) => self.write_bus_raw(
                    adr,
                    BusValue::Word(replace_word_half(v, adr & 3, h)),
                ),
                BusValue::Word(_) => self.write_bus_raw(adr, write_val),
            },
            None => self.write_bus_raw(adr, write_val),
        }
    }
}

/// Shifts and masks of an address, read as arithmetic.
proof fn lemma_address_arith(x: u32)
    ensures
        x >> 1 == x / 2,
        x >> 2 == x / 4,
        x & 1 == x % 2,
        x & 3 == x % 4,
        x & 0x1 == x % 2,
        x & 0x3 == x % 4,
        x & 0x07FFF == x % 0x8000,
        x & 0x03FFFF == x % 0x40000,
        x & 0xFFFFFF == x % 0x1000000,
{
    assert({
        &&& x >> 1 == x / 2
        &&& x >> 2 == x / 4
        &&& x & 1 == x % 2
        &&& x & 3 == x % 4
        &&& x & 0x07FFF == x % 0x8000
        &&& x & 0x03FFFF == x % 0x40000
        &&& x & 0xFFFFFF == x % 0x1000000
    }) by (bit_vector);
}

impl GbaSystem {
    /// Reads the native value at an address (see `GbaModel::read_bus`).
    pub fn read_bus(&mut self, adr: u32) -> (r: Option<BusValue>)
        requires
            old(self)@.wf(),
        ensures
            r == old(self)@.read_bus(adr),
            *final(self) == *old(self),
    {
        if adr <= 0x00003FFF {
            proof {
                lemma_address_arith(adr);
            }
            Some(BusValue::Word(self.bios[(adr >> 2) as usize]))
        } else if adr <= 0x01FFFFFF {
            None
        } else if adr <= 0x02FFFFFF {
            proof {
                lemma_address_arith(adr);
                lemma_address_arith(adr & 0x03FFFF);
            }
            Some(BusValue::HalfWord(self.ewram[((adr & 0x03FFFF) >> 2) as usize]))
        } else if adr <= 0x03FFFFFF {
            proof {
                lemma_address_arith(adr);
                lemma_address_arith(adr & 0x07FFF);
            }
            Some(BusValue::Word(self.iwram[((adr & 0x07FFF) >> 2) as usize]))
        } else if adr <= 0x04FFFFFF {
            self.io_register.read_register(adr & 0xFFFFFF)
        } else if adr <= 0x050003FF {
            let o: u32 = adr - 0x05000000;
            proof {
                lemma_address_arith(o);
            }
            Some(BusValue::HalfWord(self.pram[(o >> 1) as usize]))
        } else if adr <= 0x05FFFFFF {
            None
        } else if adr <= 0x06017FFF {
            let o: u32 = adr - 0x06000000;
            proof {
                lemma_address_arith(o);
            }
            Some(BusValue::HalfWord(self.vram[(o >> 1) as usize]))
        } else if adr <= 0x06FFFFFF {
            None
        } else if adr <= 0x070003FF {
            let o: u32 = adr - 0x07000000;
            proof {
                lemma_address_arith(o);
            }
            Some(BusValue::Word(self.oam[(o >> 2) as usize]))
        } else if adr <= 0x07FFFFFF {
            None
        } else if adr <= 0x09FFFFFF {
            let o: u32 = adr - 0x08000000;
            proof {
                lemma_address_arith(o);
            }
            Some(BusValue::HalfWord(self.pack[(o >> 1) as usize]))
        } else if adr <= 0x0BFFFFFF {
            let o: u32 = adr - 0x0A000000;
            proof {
                lemma_address_arith(o);
            }
            Some(BusValue::HalfWord(self.pack[(o >> 1) as usize]))
        } else if adr <= 0x0DFFFFFF {
            let o: u32 = adr - 0x0C000000;
            proof {
                lemma_address_arith(o);
            }
            Some(BusValue::HalfWord(self.pack[(o >> 1) as usize]))
        } else if adr <= 0x0E00FFFF {
            Some(BusValue::Byte(self.sram[(adr - 0x0E000000) as usize]))
        } else {
            None
        }
    }

    /// Reads the byte at an address (see `GbaModel::read_bus_byte`).
    pub fn read_bus_byte(&mut self, adr: u32) -> (r: Option<u8>)
        requires
            old(self)@.wf(),
        ensures
            r == old(self)@.read_bus_byte(adr),
            *final(self) == *old(self),
    {
        match self.read_bus(adr) {
            Some(BusValue::Byte(d)) => Some(d),
            Some(BusValue::HalfWord(d)) => {
                proof {
                    lemma_address_arith(adr);
                }
                Some(((d >> (8 * (adr & 0x1)) as u16) & 0xFF) as u8)
            },
            Some(BusValue::Word(d)) => {
                proof {
                    lemma_address_arith(adr);
                }
                Some(((d >> (8 * (adr & 0x3))) & 0xFF) as u8)
            },
            None => None,
        }
    }

    /// Reads the half word at an address (see `GbaModel::read_bus_half_word`).
    pub fn read_bus_half_word(&mut self, adr: u32) -> (r: Option<u16>)
        requires
            old(self)@.wf(),
            old(self)@.half_word_readable(adr),
        ensures
            r == old(self)@.read_bus_half_word(adr),
            *final(self) == *old(self),
    {
        match self.read_bus(adr) {
            Some(BusValue::Byte(d)) => {
                let b1 = self.read_bus_byte(adr + 1);
                match b1 {
                    Some(b) => Some((d as u16 | ((b as u16) << 8u16)) as u16),
                    None => None,
                }
            },
            Some(BusValue::HalfWord(d)) => Some(d),
            Some(BusValue::Word(d)) => {
                let idx: u32 = adr & 0x3;
                proof {
                        lemma_address_arith(adr);
                    }
                Some(((d >> (8 * idx)) & 0xFFFF) as u16)
            },
            None => None,
        }
    }

    /// Reads the word at an address (see `GbaModel::read_bus_word`).
    pub fn read_bus_word(&mut self, adr: u32) -> (r: Option<u32>)
        requires
            old(self)@.wf(),
        ensures
            r == old(self)@.read_bus_word(adr),
            *final(self) == *old(self),
    {
        match self.read_bus(adr) {
            Some(BusValue::Byte(d)) => {
                let b1 = self.read_bus_byte(adr + 1);
                let b2 = self.read_bus_byte(adr + 2);
                let b3 = self.read_bus_byte(adr + 3);
                match (b1, b2, b3) {
                    (Some(b1), Some(b2), Some(b3)) => Some(
                        d as u32 | ((b1 as u32) << 8u32) | ((b2 as u32) << 16u32) | ((b3 as u32)
                            << 24u32),
                    ),
                    _ => None,
                }
            },
            Some(BusValue::HalfWord(d)) => {
                proof {
                    lemma_half_word_after_half_word_is_readable(self@, adr);
                }
                match self.read_bus_half_word(adr + 2) {
                    Some(h) => Some(d as u32 | ((h as u32) << 16u32)),
                    None => None,
                }
            },
            Some(BusValue::Word(d)) => Some(d),
            None => None,
        }
    }
}

/// Two bytes past an address of a half-word memory, a half-word read is
/// defined.
proof fn lemma_half_word_after_half_word_is_readable(m: GbaModel, adr: u32)
    requires
        m.read_bus(adr) matches Some(BusValue::HalfWord(_)),
    ensures
        adr <= 0x0E00FFFF,
        m.half_word_readable((adr + 2) as u32),
{
    let a2 = (adr + 2) as u32;
    let k = a2 & 0xFFFFFF;
    assert((a2 & 0xFFFFFF) & 3 == a2 & 3) by (bit_vector);
    assert((k == 0x90 || k == 0x94 || k == 0x98 || k == 0x9c || k == 0x800) ==> k & 3 == 0)
        by (bit_vector);
    assert(0x03000000 <= a2 <= 0x03000001 ==> a2 & 3 != 3) by (bit_vector);
}

impl GbaSystem {
    /// Writes a value of exactly the native width of the memory at `adr`
    /// (see `GbaModel::write_bus_raw`).
    pub fn write_bus_raw(&mut self, adr: u32, val: BusValue) -> (r: Result<(), ()>)
        requires
            old(self)@.wf(),
        ensures
            final(self)@ == old(self)@.write_bus_raw(adr, val).0,
            r == old(self)@.write_bus_raw(adr, val).1,
            final(self)@.wf(),
    {
        if adr <= 0x01FFFFFF {
            Err(())
        } else if adr <= 0x0203FFFF {
            match val {
                BusValue::HalfWord(v) => {
                    let o: u32 = adr - 0x02000000;
                    proof {
                lemma_address_arith(o);
            }
                    self.ewram[(o >> 1) as usize] = v;
                    Ok(())
                },
                _ => Err(()),
            }
        } else if adr <= 0x02FFFFFF {
            Err(())
        } else if adr <= 0x03FFFFFF {
            match val {
                BusValue::Word(v) => {
                    proof {
                lemma_address_arith(adr);
                lemma_address_arith(adr & 0x07FFF);
            }
                    self.iwram[((adr & 0x07FFF) >> 2) as usize] = v;
                    Ok(())
                },
                _ => Err(()),
            }
        } else if adr <= 0x04FFFFFF {
            self.io_register.write_register(adr & 0xFFFFFF, val)
        } else if adr <= 0x050003FF {
            match val {
                BusValue::HalfWord(v) => {
                    let o: u32 = adr - 0x05000000;
                    proof {
                lemma_address_arith(o);
            }
                    self.pram[(o >> 1) as usize] = v;
                    Ok(())
                },
                _ => Err(()),
            }
        } else if adr <= 0x05FFFFFF {
            Err(())
        } else if adr <= 0x06017FFF {
            match val {
                BusValue::HalfWord(v) => {
                    let o: u32 = adr - 0x06000000;
                    proof {
                lemma_address_arith(o);
            }
                    self.vram[(o >> 1) as usize] = v;
                    Ok(())
                },
                _ => Err(()),
            }
        } else if adr <= 0x06FFFFFF {
            Err(())
        } else if adr <= 0x070003FF {
            match val {
                BusValue::Word(v) => {
                    let o: u32 = adr - 0x07000000;
                    proof {
                lemma_address_arith(o);
            }
                    self.oam[(o >> 2) as usize] = v;
                    Ok(())
                },
                _ => Err(()),
            }
        } else if adr <= 0x0DFFFFFF {
            Err(())
        } else if adr <= 0x0E00FFFF {
            match val {
                BusValue::Byte(v) => {
                    self.sram[(adr - 0x0E000000) as usize] = v;
                    Ok(())
                },
                _ => Err(()),
            }
        } else {
            Err(())
        }
    }

    /// Writes a value of any width at an even address (see
    /// `GbaModel::write_bus`).
    pub fn write_bus(&mut self, adr: u32, write_val: BusValue) -> (r: Result<(), ()>)
        requires
            old(self)@.wf(),
            adr & 1 == 0,
        ensures
            final(self)@ == old(self)@.write_bus(adr, write_val).0,
            r == old(self)@.write_bus(adr, write_val).1,
            final(self)@.wf(),
    {
        match self.read_bus(adr) {
            Some(BusValue::Byte(_)) => match write_val {
                BusValue::Byte(_) => self.write_bus_raw(adr, write_val),
                BusValue::HalfWord(v) => {
                    assert(half_byte(v, 0) == (v & 0xFF) as u8 && half_byte(v, 1) == ((v >> 8u16)
                        & 0xFF) as u8) by (bit_vector);
                    let r0 = self.write_bus_raw(adr, BusValue::Byte((v & 0xFF) as u8));
                    if r0.is_err() {
                        return r0;
                    }
                    self.write_bus_raw(adr + 1, BusValue::Byte(((v >> 8u16) & 0xFF) as u8))
                },
                BusValue::Word(v) => {
                    assert(word_byte(v, 0) == (v & 0xFF) as u8 && word_byte(v, 1) == ((v >> 8u32)
                        & 0xFF) as u8 && word_byte(v, 2) == ((v >> 16u32) & 0xFF) as u8 && word_byte(
                        v,
                        3,
                    ) == ((v >> 24u32) & 0xFF) as u8) by (bit_vector);
                    let r0 = self.write_bus_raw(adr, BusValue::Byte((v & 0xFF) as u8));
                    if r0.is_err() {
                        return r0;
                    }
                    let r1 = self.write_bus_raw(adr + 1, BusValue::Byte(((v >> 8u32) & 0xFF) as u8));
                    if r1.is_err() {
                        return r1;
                    }
                    let r2 = self.write_bus_raw(
                        adr + 2,
                        BusValue::Byte(((v >> 16u32) & 0xFF) as u8),
                    );
                    if r2.is_err() {
                        return r2;
                    }
                    self.write_bus_raw(adr + 3, BusValue::Byte(((v >> 24u32) & 0xFF) as u8))
                },
            },
            Some(BusValue::HalfWord(v)) => match write_val {
                BusValue::Byte(b) => {
                    let k: u32 = adr & 0x1;
                    proof {
                        lemma_address_arith(adr);
                    }
                    let merged: u16 = ((v & !((0xFFu16) << (8 * k) as u16)) | ((b as u16) << (8
                        * k) as u16)) as u16;
                    self.write_bus_raw(adr, BusValue::HalfWord(merged))
                },
                BusValue::HalfWord(_) => self.write_bus_raw(adr, write_val),
                BusValue::Word(w) => {
                    assert(word_half(w, 0) == (w & 0xFFFF) as u16 && word_half(w, 2) == ((w
                        >> 16u32) & 0xFFFF) as u16) by (bit_vector);
                    let r0 = self.write_bus_raw(adr, BusValue::HalfWord((w & 0xFFFF) as u16));
                    if r0.is_err() {
                        return r0;
                    }
                    self.write_bus_raw(adr, BusValue::HalfWord(((w >> 16u32) & 0xFFFF) as u16))
                },
            },
            Some(BusValue::Word(v)) => match write_val {
                BusValue::Byte(b) => {
                    let k: u32 = adr & 0x3;
                    proof {
                        lemma_address_arith(adr);
                    }
                    let merged: u32 = (v & !(0xFFu32 << (8 * k))) | ((b as u32) << (8 * k));
                    self.write_bus_raw(adr, BusValue::Word(merged))
                },
                BusValue::HalfWord(h) => {
                    let k: u32 = adr & 0x3;
                    proof {
                        lemma_address_arith(adr);
                    }
                    let merged: u32 = (v & !(0xFFFFu32 << (8 * k))) | ((h as u32) << (8 * k));
                    self.write_bus_raw(adr, BusValue::Word(merged))
                },
                BusValue::Word(_) => self.write_bus_raw(adr, write_val),
            },
            None => self.write_bus_raw(adr, write_val),
        }
    }
}

/// The addresses and values for which a write is read back unchanged: a
/// value of the native width in internal work RAM, palette RAM, video RAM,
/// object attribute memory or save RAM.
pub open spec fn write_read_region(adr: u32, val: BusValue) -> bool {
    ||| (0x03000000 <= adr <= 0x03FFFFFF && val is Word)
    ||| (0x05000000 <= adr <= 0x050003FF && val is HalfWord)
    ||| (0x06000000 <= adr <= 0x06017FFF && val is HalfWord)
    ||| (0x07000000 <= adr <= 0x070003FF && val is Word)
    ||| (0x0E000000 <= adr <= 0x0E00FFFF && val is Byte)
}

/// A read gives back what a write wrote, for values of the native width in
/// the work, palette, video, object and save RAMs; such a write succeeds and
/// leaves the registers and the status register as they were.
pub proof fn lemma_bus_write_then_read(m: GbaModel, adr: u32, val: BusValue)
    requires
        m.wf(),
        write_read_region(adr, val),
    ensures
        m.write_bus(adr, val).1 == Ok::<(), ()>(()),
        m.write_bus(adr, val).0.read_bus(adr) == Some(val),
        m.write_bus(adr, val).0.r == m.r,
        m.write_bus(adr, val).0.cpsr == m.cpsr,
        m.write_bus(adr, val).0.wf(),
{
    if 0x03000000 <= adr <= 0x03FFFFFF {
        lemma_address_arith(adr);
        lemma_address_arith(adr & 0x07FFF);
    } else if 0x05000000 <= adr <= 0x050003FF {
        lemma_address_arith((adr - 0x05000000) as u32);
    } else if 0x06000000 <= adr <= 0x06017FFF {
        lemma_address_arith((adr - 0x06000000) as u32);
    } else if 0x07000000 <= adr <= 0x070003FF {
        lemma_address_arith((adr - 0x07000000) as u32);
    }
}

proof fn lemma_replace_word_byte(v: u32, k: u32, b: u8)
    by (bit_vector)
    requires
        k < 4,
    ensures
        word_byte(replace_word_byte(v, k, b), k) == b,
{
}

proof fn lemma_replace_half_byte(d: u16, k: u32, b: u8)
    by (bit_vector)
    requires
        k < 2,
    ensures
        half_byte(replace_half_byte(d, k, b), k) == b,
{
}

/// A byte written at an even address of the work, palette, video, object
/// or save RAM is read back: the write succeeds and merges the byte into the
/// value stored there.
pub proof fn lemma_bus_byte_write_then_read(m: GbaModel, adr: u32, b: u8)
    requires
        m.wf(),
        adr & 1 == 0,
        0x03000000 <= adr <= 0x03FFFFFF || 0x05000000 <= adr <= 0x050003FF || 0x06000000 <= adr
            <= 0x06017FFF || 0x07000000 <= adr <= 0x070003FF || 0x0E000000 <= adr <= 0x0E00FFFF,
    ensures
        m.write_bus(adr, BusValue::Byte(b)).1 == Ok::<(), ()>(()),
        m.write_bus(adr, BusValue::Byte(b)).0.read_bus_byte(adr) == Some(b),
{
    lemma_address_arith(adr);
    if 0x03000000 <= adr <= 0x03FFFFFF {
        lemma_address_arith(adr & 0x07FFF);
        let i = ((adr & 0x07FFF) >> 2) as int;
        lemma_replace_word_byte(m.iwram[i], adr & 3, b);
    } else if 0x05000000 <= adr <= 0x050003FF {
        let o = (adr - 0x05000000) as u32;
        lemma_address_arith(o);
        lemma_replace_half_byte(m.pram[(o >> 1) as int], adr & 1, b);
    } else if 0x06000000 <= adr <= 0x06017FFF {
        let o = (adr - 0x06000000) as u32;
        lemma_address_arith(o);
        lemma_replace_half_byte(m.vram[(o >> 1) as int], adr & 1, b);
    } else if 0x07000000 <= adr <= 0x070003FF {
        let o = (adr - 0x07000000) as u32;
        lemma_address_arith(o);
        lemma_replace_word_byte(m.oam[(o >> 2) as int], adr & 3, b);
    }
}

/// The BIOS and the game pak ROM are read-only: every write there is refused
/// and changes nothing.
pub proof fn lemma_rom_is_read_only(m: GbaModel, adr: u32, val: BusValue)
    requires
        adr <= 0x00003FFF || 0x08000000 <= adr <= 0x0DFFFFFF,
    ensures
        m.write_bus(adr, val) == (m, Err::<(), ()>(())),
{
}

impl GbaSystem {
    /// Whether a half-word read at `adr` is defined (see
    /// `GbaModel::half_word_readable`).
    pub fn half_word_readable(&mut self, adr: u32) -> (r: bool)
        requires
            old(self)@.wf(),
        ensures
            r == old(self)@.half_word_readable(adr),
            *final(self) == *old(self),
    {
        match self.read_bus(adr) {
            Some(BusValue::Word(_)) => adr & 3 != 3,
            _ => true,
        }
    }
}

proof fn lemma_write_bus_raw_keeps_system(m: GbaModel, adr: u32, val: BusValue)
    ensures
        m.write_bus_raw(adr, val).0.same_system(m),
{
}

proof fn lemma_raw_then_keeps_system(prev: (GbaModel, Result<(), ()>), m: GbaModel, adr: u32, val: BusValue)
    requires
        prev.0.same_system(m),
    ensures
        raw_then(prev, adr, val).0.same_system(m),
{
    lemma_write_bus_raw_keeps_system(prev.0, adr, val);
}

/// A bus write changes the memories and the I/O registers only.
pub proof fn lemma_write_bus_keeps_system(m: GbaModel, adr: u32, val: BusValue)
    ensures
        m.write_bus(adr, val).0.same_system(m),
{
    lemma_write_bus_raw_keeps_system(m, adr, val);
    match m.read_bus(adr) {
        Some(BusValue::Byte(_)) => match val {
            BusValue::HalfWord(v) => {
                let p0 = m.write_bus_raw(adr, BusValue::Byte(half_byte(v, 0)));
                lemma_write_bus_raw_keeps_system(m, adr, BusValue::Byte(half_byte(v, 0)));
                lemma_raw_then_keeps_system(p0, m, (adr + 1) as u32, BusValue::Byte(half_byte(v, 1)));
            },
            BusValue::Word(v) => {
                let p0 = m.write_bus_raw(adr, BusValue::Byte(word_byte(v, 0)));
                lemma_write_bus_raw_keeps_system(m, adr, BusValue::Byte(word_byte(v, 0)));
                let p1 = raw_then(p0, (adr + 1) as u32, BusValue::Byte(word_byte(v, 1)));
                lemma_raw_then_keeps_system(p0, m, (adr + 1) as u32, BusValue::Byte(word_byte(v, 1)));
                let p2 = raw_then(p1, (adr + 2) as u32, BusValue::Byte(word_byte(v, 2)));
                lemma_raw_then_keeps_system(p1, m, (adr + 2) as u32, BusValue::Byte(word_byte(v, 2)));
                lemma_raw_then_keeps_system(p2, m, (adr + 3) as u32, BusValue::Byte(word_byte(v, 3)));
            },
            _ => {},
        },
        Some(BusValue::HalfWord(_)) => match val {
            BusValue::Word(w) => {
                let p0 = m.write_bus_raw(adr, BusValue::HalfWord(word_half(w, 0)));
                lemma_write_bus_raw_keeps_system(m, adr, BusValue::HalfWord(word_half(w, 0)));
                lemma_raw_then_keeps_system(p0, m, adr, BusValue::HalfWord(word_half(w, 2)));
            },
            _ => {},
        },
        _ => {},
    }
}

} // verus!
