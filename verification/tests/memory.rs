use ragb::bus::{BusValue, BusWidth};
use ragb::gba::{parse_gamepack, GbaSystem};

#[test]
fn work_ram_word_round_trip() {
    let mut gba = GbaSystem::new();
    assert_eq!(gba.write_bus(0x0300_0010, BusValue::Word(0xDEAD_BEEF)), Ok(()));
    assert_eq!(gba.read_bus_word(0x0300_0010), Some(0xDEAD_BEEF));
    assert_eq!(gba.read_bus_byte(0x0300_0011), Some(0xBE));
    assert_eq!(gba.read_bus_half_word(0x0300_0012), Some(0xDEAD));
    assert_eq!(gba.read_bus(0x0300_0010), Some(BusValue::Word(0xDEAD_BEEF)));
    // Internal work RAM repeats every 32 KiB.
    assert_eq!(gba.read_bus_word(0x0300_8010), Some(0xDEAD_BEEF));
}

#[test]
fn byte_and_half_word_writes_merge_into_words() {
    let mut gba = GbaSystem::new();
    gba.write_bus(0x0300_0020, BusValue::Word(0xAABB_CCDD)).unwrap();
    gba.write_bus(0x0300_0022, BusValue::Byte(0x11)).unwrap();
    assert_eq!(gba.read_bus_word(0x0300_0020), Some(0xAA11_CCDD));
    gba.write_bus(0x0300_0022, BusValue::HalfWord(0x5566)).unwrap();
    assert_eq!(gba.read_bus_word(0x0300_0020), Some(0x5566_CCDD));
}

#[test]
fn palette_half_word_round_trip() {
    let mut gba = GbaSystem::new();
    gba.write_bus(0x0500_0002, BusValue::HalfWord(0x7FFF)).unwrap();
    assert_eq!(gba.read_bus_half_word(0x0500_0002), Some(0x7FFF));
    assert_eq!(gba.pram[1], 0x7FFF);
}

#[test]
fn word_into_half_word_memory_keeps_the_high_half() {
    // Both halves of the word go to the same address, the high one last.
    let mut gba = GbaSystem::new();
    gba.write_bus(0x0600_0000, BusValue::Word(0x1111_2222)).unwrap();
    assert_eq!(gba.vram[0], 0x1111);
    assert_eq!(gba.vram[1], 0);
    assert_eq!(gba.read_bus_word(0x0600_0000), Some(0x0000_1111));
}

#[test]
fn save_ram_takes_words_byte_by_byte() {
    let mut gba = GbaSystem::new();
    gba.write_bus(0x0E00_0100, BusValue::Word(0x4433_2211)).unwrap();
    assert_eq!(gba.sram[0x100], 0x11);
    assert_eq!(gba.sram[0x103], 0x44);
    assert_eq!(gba.read_bus_word(0x0E00_0100), Some(0x4433_2211));
    assert_eq!(gba.read_bus_half_word(0x0E00_0102), Some(0x4433));
}

#[test]
fn object_attribute_memory_round_trip() {
    let mut gba = GbaSystem::new();
    gba.write_bus(0x0700_0004, BusValue::Word(0x0102_0304)).unwrap();
    assert_eq!(gba.read_bus_word(0x0700_0004), Some(0x0102_0304));
    assert_eq!(gba.oam[1], 0x0102_0304);
}

#[test]
fn read_only_and_unmapped_areas_refuse_writes() {
    let mut gba = GbaSystem::new();
    assert_eq!(gba.write_bus(0x0000_0000, BusValue::Word(1)), Err(()));
    assert_eq!(gba.write_bus(0x0800_0000, BusValue::HalfWord(1)), Err(()));
    assert_eq!(gba.write_bus(0x1000_0000, BusValue::Word(1)), Err(()));
    assert_eq!(gba.read_bus_word(0x0800_0000), Some(0));
    assert_eq!(gba.read_bus(0x0100_0000), None);
    assert_eq!(gba.read_bus_word(0x1000_0000), None);
    assert_eq!(gba.read_bus_byte(0x0600_0000 + 0x18000), None);
}

#[test]
fn raw_writes_need_the_native_width() {
    let mut gba = GbaSystem::new();
    assert_eq!(gba.write_bus_raw(0x0300_0000, BusValue::HalfWord(1)), Err(()));
    assert_eq!(gba.write_bus_raw(0x0300_0000, BusValue::Word(7)), Ok(()));
    assert_eq!(gba.iwram[0], 7);
    assert_eq!(gba.write_bus_raw(0x0E00_0000, BusValue::Word(7)), Err(()));
}

#[test]
fn external_work_ram_reads_at_another_index_than_it_writes() {
    let mut gba = GbaSystem::new();
    gba.write_bus(0x0200_0002, BusValue::HalfWord(0xABCD)).unwrap();
    assert_eq!(gba.ewram[1], 0xABCD);
    assert_eq!(gba.read_bus_half_word(0x0200_0002), Some(0));
    assert_eq!(gba.read_bus_half_word(0x0200_0004), Some(0xABCD));
}

#[test]
fn half_word_from_last_byte_of_a_word_is_undefined() {
    let mut gba = GbaSystem::new();
    assert!(!gba.half_word_readable(0x0300_0003));
    assert!(gba.half_word_readable(0x0300_0002));
    assert!(gba.half_word_readable(0x0200_0003));
}

#[test]
fn io_registers_through_the_bus() {
    let mut gba = GbaSystem::new();
    gba.write_bus(0x0400_0000, BusValue::HalfWord(0x0403)).unwrap();
    assert_eq!(gba.io_register.disp_cnt, 0x0403);
    assert_eq!(gba.read_bus_half_word(0x0400_0000), Some(0x0403));
}

#[test]
fn bus_value_conversions() {
    assert_eq!(BusValue::Word(0x1234_5678).into_u8(), 0x78);
    assert_eq!(BusValue::Word(0x1234_5678).into_u16(), 0x5678);
    assert_eq!(BusValue::Byte(0x9A).into_u32(), 0x9A);
    assert_eq!(BusValue::from(0x12u8), BusValue::Byte(0x12));
    assert_eq!(BusValue::from(0x1234u16), BusValue::HalfWord(0x1234));
    assert_eq!(BusValue::from(0x1234_5678u32), BusValue::Word(0x1234_5678));
    assert_ne!(BusWidth::Byte, BusWidth::Word);
}

#[test]
fn game_pak_is_read_as_little_endian_half_words() {
    let words = parse_gamepack(&[0x34, 0x12, 0x78, 0x56, 0xFF]);
    assert_eq!(words, vec![0x1234, 0x5678]);
    assert!(parse_gamepack(&[]).is_empty());
    assert!(parse_gamepack(&[0x01]).is_empty());
}

#[test]
fn game_pak_loads_at_the_start_of_rom() {
    let mut gba = GbaSystem::new();
    gba.pack[2] = 0xEEEE;
    gba.load_gamepack(&[0x01, 0x02, 0x03, 0x04]);
    assert_eq!(gba.pack[0], 0x0201);
    assert_eq!(gba.pack[1], 0x0403);
    assert_eq!(gba.pack[2], 0xEEEE);
    assert_eq!(gba.read_bus_word(0x0800_0000), Some(0x0403_0201));
    // The game pak mirrors appear in the three wait-state areas.
    assert_eq!(gba.read_bus_half_word(0x0A00_0002), Some(0x0403));
    assert_eq!(gba.read_bus_half_word(0x0C00_0000), Some(0x0201));
}

#[test]
fn bios_loads_little_endian_words() {
    let mut gba = GbaSystem::new();
    gba.load_bios(&[0x05, 0x00, 0xA0, 0xE3, 0x99]);
    assert_eq!(gba.bios[0], 0xE3A0_0005);
    assert_eq!(gba.bios[1], 0);
    assert_eq!(gba.read_bus_word(0), Some(0xE3A0_0005));
}

#[test]
fn byte_writes_are_read_back_in_every_ram() {
    let mut gba = GbaSystem::new();
    for adr in [0x0300_0012u32, 0x0500_0010, 0x0600_0100, 0x0700_0002, 0x0E00_0020] {
        assert_eq!(gba.write_bus(adr, BusValue::Byte(0x5A)), Ok(()));
        assert_eq!(gba.read_bus_byte(adr), Some(0x5A));
    }
}
