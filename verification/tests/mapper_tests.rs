use nes_core::mapper::{Mapper, Mapper0, Mapper1, MirrorMode};

#[test]
fn test_switchable_serial_commit() {
    let mut m = Mapper1::new_mapper(vec![0u8; 0x8000], vec![0u8; 0x2000], 0, 2);
    // Five single-bit writes into the program-bank range, LSB first,
    // accumulating 0b11010 = 26: the full five-bit value is committed,
    // the top bit included.
    for bit in [0u8, 1, 0, 1, 1] {
        assert_eq!(m.write(0xe000, bit), Ok(0));
    }
    assert_eq!(m.prg_bank, 26);
    assert_eq!(m.shift_register, 0);
    assert_eq!(m.write_count, 0);
}

#[test]
fn test_switchable_reset_write() {
    let mut m = Mapper1::new_mapper(vec![0u8; 0x8000], vec![0u8; 0x2000], 0, 2);
    assert_eq!(m.write(0x8000, 1), Ok(0));
    assert_eq!(m.write_count, 1);
    // A write with the top bit set abandons the sequence and restores the
    // fixed-last-bank arrangement.
    assert_eq!(m.write(0x8000, 0x80), Ok(0));
    assert_eq!(m.write_count, 0);
    assert_eq!(m.shift_register, 0);
    assert_eq!(m.control, 12);
}

#[test]
fn test_switchable_fixed_last_bank() {
    // Two 16 KiB banks; bank 0 holds 0x11, bank 1 holds 0x22.
    let mut rom = vec![0x11u8; 0x4000];
    rom.extend(vec![0x22u8; 0x4000]);
    let mut m = Mapper1::new_mapper(rom, vec![0u8; 0x2000], 0, 2);
    // Power-up control is 12: switchable low window, fixed last bank high.
    assert_eq!(m.read(0x8000), Ok(0x11));
    assert_eq!(m.read(0xc000), Ok(0x22));
}

#[test]
fn test_switchable_sram() {
    let mut m = Mapper1::new_mapper(vec![0u8; 0x8000], vec![0u8; 0x2000], 0, 2);
    assert_eq!(m.write(0x6000, 0x42), Ok(0x42));
    assert_eq!(m.read(0x6000), Ok(0x42));
}

#[test]
fn test_fixed_bank_wraps_modulo() {
    let mut rom = vec![0u8; 0x4000]; // one 16 KiB bank, mirrored across 32 KiB
    rom[0x0123] = 0x99;
    let mut m = Mapper0::new_mapper(rom, vec![0u8; 0x2000], 0);
    assert_eq!(m.read(0x8123), Ok(0x99));
    assert_eq!(m.read(0xc123), Ok(0x99));
    assert_eq!(m.write(0x9000, 1), Err(String::from("cannot write to ROM")));
}

#[test]
fn test_fixed_bank_empty_rom_fault() {
    let mut m = Mapper0::new_mapper(Vec::new(), Vec::new(), 0);
    assert_eq!(m.read(0x8000), Err(String::from("no program ROM data")));
    assert_eq!(m.read(0x0000), Err(String::from("no graphics ROM data")));
    assert_eq!(m.read(0x6000), Ok(0));
}

#[test]
fn test_switchable_bank_out_of_range_fault() {
    let mut m = Mapper1::new_mapper(vec![0u8; 0x4000], vec![0u8; 0x1000], 0, 1);
    // The high graphics window starts at bank chr_bank0 + 1, past a 4 KiB image.
    assert_eq!(m.read(0x1000), Err(String::from("bank index out of range")));
}

#[test]
fn test_nametable_offsets() {
    let m0 = Mapper0::new_mapper(vec![0u8; 0x4000], vec![0u8; 0x2000], 0);
    assert_eq!(m0.nametable_offset(0), 0);
    assert_eq!(m0.nametable_offset(1), 0);
    assert_eq!(m0.nametable_offset(2), 1);
    assert_eq!(m0.nametable_offset(3), 1);
    let m1 = Mapper0::new_mapper(vec![0u8; 0x4000], vec![0u8; 0x2000], 1);
    assert_eq!(m1.nametable_offset(1), 1);
    assert_eq!(m1.nametable_offset(2), 0);
}

#[test]
fn test_mirror_lookup_tables() {
    assert_eq!(MirrorMode::Horizontal.lookup(), vec![0, 0, 1, 1]);
    assert_eq!(MirrorMode::Vertical.lookup(), vec![0, 1, 0, 1]);
    assert_eq!(MirrorMode::Single0.lookup(), vec![0, 0, 0, 0]);
    assert_eq!(MirrorMode::Single1.lookup(), vec![1, 1, 1, 1]);
    assert_eq!(MirrorMode::Four.lookup(), vec![0, 1, 2, 3]);
    assert_eq!(MirrorMode::from(3), MirrorMode::Single1);
}
