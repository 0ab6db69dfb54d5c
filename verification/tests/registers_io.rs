use ragb::bus::BusValue;
use ragb::emulator::EmulatorState;
use ragb::io_register::{IORegister, Interrupt};

#[test]
fn io_register_write_then_read() {
    let mut io = IORegister::new();
    assert_eq!(io.write_register(0x200, BusValue::HalfWord(0x3FFF)), Ok(()));
    assert_eq!(io.read_register(0x200), Some(BusValue::HalfWord(0x3FFF)));
    assert_eq!(io.write_register(0x208, BusValue::HalfWord(1)), Ok(()));
    assert_eq!(io.ime, 1);
    // Unknown addresses read as a zero byte and ignore writes.
    assert_eq!(io.write_register(0x0FE, BusValue::HalfWord(5)), Ok(()));
    assert_eq!(io.read_register(0x0FE), Some(BusValue::Byte(0)));
}

#[test]
fn interrupt_is_raised_only_when_enabled() {
    let mut io = IORegister::new();
    assert!(!io.signal_interrupt(Interrupt::LcdVBlank));
    assert_eq!(io.int_f, 0);
    io.ime = 1;
    assert!(!io.signal_interrupt(Interrupt::LcdVBlank));
    io.int_e = 0b1;
    assert!(io.signal_interrupt(Interrupt::LcdVBlank));
    assert_eq!(io.int_f, 0b1);
    io.int_e = 0xFFFF;
    assert!(io.signal_interrupt(Interrupt::Keypad));
    assert_eq!(io.int_f, 0b1 | 0b1000_0000_0000);
}

#[test]
fn writing_request_bits_acknowledges_them() {
    let mut io = IORegister::new();
    io.int_f = 0b111;
    io.write_register(0x202, BusValue::HalfWord(0b010)).unwrap();
    assert_eq!(io.int_f, 0b101);
}

#[test]
fn timer_three_shares_timer_two_request_bit() {
    let mut io = IORegister::new();
    io.ime = 1;
    io.int_e = 0xFFFF;
    io.signal_interrupt(Interrupt::Timer3Overflow);
    assert_eq!(io.int_f, 0b10_0000);
}

#[test]
fn fresh_state_is_zeroed() {
    let s = EmulatorState::new();
    assert!(s.iwram.iter().all(|&w| w == 0));
    assert!(s.ewram.iter().all(|&h| h == 0));
    assert_eq!(s.io.len(), 256);
    assert_eq!(s.pram.len(), 512);
}
