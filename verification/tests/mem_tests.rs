use nes_core::mem::{Memory, NESMemory};

#[test]
fn test_read_write() {
    let mut mem = NESMemory::new_nes_mem();

    // RAM
    assert_eq!(mem.read(0x1000), Ok(0));
    assert_eq!(mem.write(0x1000, 5), Ok(5));
    assert_eq!(mem.read(0x1000), Ok(5));

    // ROM
    mem.load_rom(&vec![0; 0x8000]);
    assert_eq!(mem.read(0x8000), Ok(0));
    assert_eq!(mem.read(0x8001), Ok(0));
    assert_eq!(mem.read(0xffff), Ok(0));
    assert_eq!(mem.write(0x8000, 1), Err(String::from("cannot write to ROM")));
    assert_eq!(mem.write(0xffff, 1), Err(String::from("cannot write to ROM")));
}

#[test]
fn test_load_rom() {
    let mut mem = NESMemory::new_nes_mem();
    mem.load_rom(&vec![0; 0x8000]);
    assert_eq!(mem.read(0x8000), Ok(0));
    assert_eq!(mem.read(0xffff), Ok(0));
    mem.load_rom(&vec![1; 0x8000]);
    assert_eq!(mem.read(0x8000), Ok(1));
    assert_eq!(mem.read(0xffff), Ok(1));
}

#[test]
fn test_ram_mirrors() {
    let mut mem = NESMemory::new_nes_mem();
    let offset = 0x0123;
    assert_eq!(mem.write(offset, 0xab), Ok(0xab));
    assert_eq!(mem.read(offset), Ok(0xab));
    assert_eq!(mem.read(offset + 0x0800), Ok(0xab));
    assert_eq!(mem.read(offset + 0x1000), Ok(0xab));
    assert_eq!(mem.read(offset + 0x1800), Ok(0xab));

    // Writing through a mirror lands in the same backing storage.
    assert_eq!(mem.write(offset + 0x1800, 0xcd), Ok(0xcd));
    assert_eq!(mem.read(offset), Ok(0xcd));
    assert_eq!(mem.read(offset + 0x0800), Ok(0xcd));
    // The zero offsets of all four windows observe one byte too.
    assert_eq!(mem.write(0x0000, 0x77), Ok(0x77));
    assert_eq!(mem.read(0x0800), Ok(0x77));
    assert_eq!(mem.read(0x1000), Ok(0x77));
    assert_eq!(mem.read(0x1800), Ok(0x77));
}

#[test]
fn test_ppu_register_mirrors() {
    let mut mem = NESMemory::new_nes_mem();
    assert_eq!(mem.write(0x2002, 0x5a), Ok(0x5a));
    assert_eq!(mem.read(0x200a), Ok(0x5a));
    assert_eq!(mem.read(0x3ffa), Ok(0x5a));
}

#[test]
fn test_unmapped_addresses_fault() {
    let mut mem = NESMemory::new_nes_mem();
    assert_eq!(mem.read(0x4018), Err(String::from("read out of bounds")));
    assert_eq!(mem.read(0x401f), Err(String::from("read out of bounds")));
    assert_eq!(mem.write(0x4018, 1), Err(String::from("write out of bounds")));
}

#[test]
fn test_dma_register_write_fault() {
    let mut mem = NESMemory::new_nes_mem();
    assert_eq!(
        mem.write(0x4014, 1),
        Err(String::from("sprite DMA write reached the bus"))
    );
    assert_eq!(mem.read(0x4014), Ok(0));
}

#[test]
fn test_soft_no_op_regions() {
    let mut mem = NESMemory::new_nes_mem();
    assert_eq!(mem.write(0x4000, 0xff), Ok(0));
    assert_eq!(mem.write(0x5000, 0xff), Ok(0));
    assert_eq!(mem.read(0x5000), Ok(0));
}

#[test]
fn test_read_string() {
    let mut mem = NESMemory::new_nes_mem();
    for (i, b) in b"Hi".iter().enumerate() {
        mem.write(0x0300 + i as u16, *b).unwrap();
    }
    mem.write(0x0302, 0).unwrap();
    assert_eq!(mem.read_string(0x0300), Ok(vec![b'H', b'i']));
    assert_eq!(mem.read_string(0x0302), Ok(Vec::new()));
}

#[test]
fn test_read_string_runs_past_memory() {
    let mut mem = NESMemory::new_nes_mem();
    // Every byte from 0xfff0 to the top of memory is nonzero: there is no
    // terminator before the address space ends.
    mem.load_rom(&vec![1u8; 0x8000]);
    assert_eq!(
        mem.read_string(0xfff0),
        Err(String::from("string runs past the end of memory"))
    );
}
