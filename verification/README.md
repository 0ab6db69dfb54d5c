# ragb

A Game Boy Advance emulator core, verified with Verus, and the program around it.

`src/` is the library. Every executable function there has a contract over an
abstract model of the machine (`GbaModel`, the view of `GbaSystem`), and Verus
proves it:

- `arm.rs`: processor modes, the status register, condition codes, saved
  status registers, and instruction execution (data processing, loads and
  stores, block transfers, status transfers, branches).
- `alu.rs`: shifter operands, the arithmetic and logical operations and
  their flags.
- `bus.rs`: the memory map; reads and writes of every width.
- `io_register.rs`: the memory-mapped I/O registers and interrupt requests.
- `decode_arm.rs`, `decode_thumb.rs`: instruction decoding through tables
  sorted from most to least specific mask.
- `gba.rs`: the machine, the banked register file, exceptions, power-on
  state, BIOS and game pak loading.
- `emulation.rs`: one step of the machine (prefetch, execute, LCD timing,
  interrupts, frame events).
- `debug.rs`: what a remote debugger asks of the halted machine, and a
  free-run step that stops at breakpoints.
- `text.rs`: assembler text of instructions and the status register.
- `emulator.rs`: a plain snapshot of RAM and I/O space.

The `lemma_*` proof functions state the library's laws: what a read gives
back of a write (registers, bus, I/O registers, debugger registers), register
banking, exception entry, that an instruction touches only registers and
memory and takes four cycles, that the LCD counters stay in range, and that
the decoding tables are sorted permutations of their entries.

`app/` is the program: the SDL window with its OpenGL surface, the emulation
thread, and the GDB remote-debugging server (gdbstub), which talk to the
library through plain values.
