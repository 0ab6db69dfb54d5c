use ragb::arm::Mode;
use ragb::debug::{
    data_reply, executed_reply, registers_reply, CoreRegisters, GbaDebugCommand,
    GbaDebugCommandResult, GbaTargetError, StepOutcome,
};
use ragb::gba::{BreakpointKind, GbaSystem, Register};

fn halted_machine() -> GbaSystem {
    let mut gba = GbaSystem::new();
    // B . at address 0.
    gba.load_bios(&[0xFE, 0xFF, 0xFF, 0xEA]);
    gba.reset();
    gba
}

#[test]
fn register_read_shows_current_mode_registers() {
    let mut gba = halted_machine();
    gba.write_register(Register::R3, 33);
    gba.write_register(Register::R13, 0x0300_7FE0);
    gba.pc = 0x100;
    let regs = gba.read_core_registers();
    assert_eq!(regs.r[3], 33);
    assert_eq!(regs.sp, 0x0300_7FE0);
    assert_eq!(regs.pc, 0x100);
    assert_eq!(regs.cpsr, gba.cpsr.bits());
}

#[test]
fn register_write_then_read_round_trip() {
    let mut gba = halted_machine();
    let mut r = [0u32; 13];
    for (i, v) in r.iter_mut().enumerate() {
        *v = 100 + i as u32;
    }
    let cpsr = gba.cpsr.bits() | 0x8000_0000;
    let regs = CoreRegisters { r, sp: 0x0300_7F00, lr: 0x1234, pc: 0x0800_0000, cpsr };
    gba.write_core_registers(&regs);
    let back = gba.read_core_registers();
    assert_eq!(back.r, regs.r);
    assert_eq!(back.sp, regs.sp);
    assert_eq!(back.lr, regs.lr);
    assert_eq!(back.cpsr, cpsr);
    // The program counter shown is that of the next instruction, not r15.
    assert_eq!(gba.read_register(Register::R15), 0x0800_0000);
    assert_eq!(back.pc, 0);
}

#[test]
fn status_write_keeps_only_defined_bits() {
    let mut gba = halted_machine();
    let regs = CoreRegisters { r: [0; 13], sp: 0, lr: 0, pc: 0, cpsr: 0xFFFF_FFFF };
    gba.write_core_registers(&regs);
    assert_eq!(gba.cpsr.bits(), 0xF90F_03FF);
    assert_eq!(gba.cpsr.get_mode(), Mode::System);
}

#[test]
fn memory_read_pads_with_zeros() {
    let mut gba = halted_machine();
    gba.iwram[0] = 0x4433_2211;
    assert_eq!(gba.read_memory(0x0300_0000, 4), vec![0x11, 0x22, 0x33, 0x44]);
    // Unmapped bytes read as zero.
    assert_eq!(gba.read_memory(0x0100_0000, 3), vec![0, 0, 0]);
    // The read stops below the top of the address space.
    assert_eq!(gba.read_memory(0xFFFF_FFFE, 4), vec![0, 0, 0, 0]);
    assert!(gba.read_memory(0x0300_0000, 0).is_empty());
}

#[test]
fn memory_write_puts_every_byte_at_the_start_address() {
    let mut gba = halted_machine();
    gba.write_memory(0x0300_0000, &vec![1, 2, 3]);
    assert_eq!(gba.iwram[0], 3);
    gba.write_memory(0x0300_0001 + 1, &vec![]);
    assert_eq!(gba.iwram[0], 3);
}

#[test]
fn breakpoints_stop_a_free_run() {
    let mut gba = GbaSystem::new();
    // MOV r0, #5; B .
    gba.load_bios(&[0x05, 0x00, 0xA0, 0xE3, 0xFE, 0xFF, 0xFF, 0xEA]);
    gba.reset();
    gba.add_breakpoint(8, BreakpointKind::Arm32);
    assert!(!gba.at_breakpoint());
    assert_eq!(gba.run_step(12).unwrap(), (StepOutcome::Running, 8));
    assert_eq!(gba.pc, 4);
    assert_eq!(gba.run_step(8).unwrap(), (StepOutcome::Running, 4));
    assert_eq!(gba.pc, 4);
    gba.add_breakpoint(4, BreakpointKind::Arm32);
    assert!(gba.at_breakpoint());
    assert_eq!(gba.run_step(4).unwrap(), (StepOutcome::Breakpoint, 0));
}

#[test]
fn free_run_reports_exception_with_budget_untouched() {
    let mut gba = GbaSystem::new();
    gba.load_bios(&[0xFD, 0xFF, 0xFF, 0xEA]);
    gba.reset();
    assert_eq!(gba.run_step(16).unwrap(), (StepOutcome::Exception, 16));
}

#[test]
fn debug_commands_are_answered() {
    let mut gba = halted_machine();
    match gba.handle_debug_command(GbaDebugCommand::ReadRegisters).unwrap() {
        GbaDebugCommandResult::Registers { regs } => assert_eq!(regs.cpsr, gba.cpsr.bits()),
        _ => panic!("registers expected"),
    }
    match gba
        .handle_debug_command(GbaDebugCommand::ReadAddress { start_address: 0, len: 4 })
        .unwrap()
    {
        GbaDebugCommandResult::Data { bytes } => assert_eq!(bytes, vec![0xFE, 0xFF, 0xFF, 0xEA]),
        _ => panic!("data expected"),
    }
    assert!(matches!(
        gba.handle_debug_command(GbaDebugCommand::SingleStep).unwrap(),
        GbaDebugCommandResult::Executed
    ));
    assert_eq!(gba.pc, 0);
    assert!(matches!(
        gba.handle_debug_command(GbaDebugCommand::Resume).unwrap(),
        GbaDebugCommandResult::Executed
    ));
    gba.handle_debug_command(GbaDebugCommand::AddSwBreakpoint {
        addr: 8,
        kind: BreakpointKind::Arm32,
    })
    .unwrap();
    // A removal request sets the breakpoint too.
    gba.handle_debug_command(GbaDebugCommand::RemoveSwBreakpoint {
        addr: 8,
        kind: BreakpointKind::Arm32,
    })
    .unwrap();
    assert_eq!(gba.breakpoints, vec![(8, BreakpointKind::Arm32), (8, BreakpointKind::Arm32)]);
    gba.handle_debug_command(GbaDebugCommand::WriteAddress {
        start_address: 0x0300_0004,
        data: vec![0x7F],
    })
    .unwrap();
    assert_eq!(gba.iwram[1], 0x7F);
}

#[test]
fn replies_of_the_wrong_kind_are_unexpected() {
    assert!(matches!(
        registers_reply(GbaDebugCommandResult::Executed),
        Err(GbaTargetError::UnexpectedResult)
    ));
    let regs = CoreRegisters { r: [7; 13], sp: 1, lr: 2, pc: 3, cpsr: 4 };
    let got = registers_reply(GbaDebugCommandResult::Registers { regs }).unwrap();
    assert_eq!(got.r, [7; 13]);
    assert_eq!(got.pc, 3);
    assert_eq!(data_reply(GbaDebugCommandResult::Data { bytes: vec![9, 8] }).unwrap(), vec![9, 8]);
    assert!(data_reply(GbaDebugCommandResult::Executed).is_err());
    assert!(executed_reply(GbaDebugCommandResult::Executed).is_ok());
    assert!(matches!(
        executed_reply(GbaDebugCommandResult::Data { bytes: vec![] }),
        Err(GbaTargetError::UnexpectedResult)
    ));
}

#[test]
fn one_byte_debugger_write_is_read_back() {
    let mut gba = halted_machine();
    gba.write_memory(0x0700_0000, &vec![0x77]);
    assert_eq!(gba.read_memory(0x0700_0000, 1), vec![0x77]);
    // Several bytes all land on the start address.
    gba.write_memory(0x0300_0000, &vec![1, 2]);
    assert_eq!(gba.read_memory(0x0300_0000, 2), vec![2, 0]);
}
