//! A Game Boy Advance emulator core: the ARM7TDMI register file and status
//! register, ARM and Thumb instruction decoding, the ALU, the system bus with
//! its memory map, the memory-mapped I/O registers and the LCD timing.

pub mod alu;
pub mod arm;
pub mod bus;
pub mod debug;
pub mod decode_arm;
pub mod decode_thumb;
pub mod emulation;
pub mod emulator;
pub mod gba;
pub mod io_register;
pub mod text;
