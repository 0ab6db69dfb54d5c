//! A plain snapshot of the machine's RAM and I/O space.
use vstd::prelude::*;

verus! {

/// The RAM of the machine and its I/O space, by bus width: the memories on
/// the 32-bit bus as words, those on the 16-bit bus as half words.
pub struct EmulatorState {
    pub iwram: [u32; 8192],
    pub oam: [u32; 256],
    pub io: [u32; 256],
    pub ewram: [u16; 131072],
    pub vram: [u16; 49152],
    pub pram: [u16; 512],
}

impl EmulatorState {
    /// All memories zeroed.
    pub fn new() -> (s: EmulatorState)
        ensures
            s.iwram@ == Seq::new(8192, |i: int| 0u32),
            s.oam@ == Seq::new(256, |i: int| 0u32),
            s.io@ == Seq::new(256, |i: int| 0u32),
            s.ewram@ == Seq::new(131072, |i: int| 0u16),
            s.vram@ == Seq::new(49152, |i: int| 0u16),
            s.pram@ == Seq::new(512, |i: int| 0u16),
    {
        let s = EmulatorState {
            iwram: [0u32; 8192],
            oam: [0u32; 256],
            io: [0u32; 256],
            ewram: [0u16; 131072],
            vram: [0u16; 49152],
            pram: [0u16; 512],
        };
        assert(s.iwram@ =~= Seq::new(8192, |i: int| 0u32));
        assert(s.oam@ =~= Seq::new(256, |i: int| 0u32));
        assert(s.io@ =~= Seq::new(256, |i: int| 0u32));
        assert(s.ewram@ =~= Seq::new(131072, |i: int| 0u16));
        assert(s.vram@ =~= Seq::new(49152, |i: int| 0u16));
        assert(s.pram@ =~= Seq::new(512, |i: int| 0u16));
        s
    }
}

} // verus!
