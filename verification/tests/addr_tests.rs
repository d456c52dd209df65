use nes_core::addr::AddressingMode;
use nes_core::cpu::CPU;
use nes_core::inst::Instruction;
use nes_core::mem::Memory;
use nes_core::opcode::Opcode;

#[test]
fn test_addr_mode_immediate() {
    let _cpu = CPU::new_nes_cpu();
}

#[test]
fn test_get_data_immediate() {
    let mut cpu = CPU::new_nes_cpu();
    // A two-byte immediate instruction ending at 0x0202: the operand's own
    // address comes back.
    cpu.pc = 0x0202;
    assert_eq!(AddressingMode::Immediate.get_data(&mut cpu), Ok((0x0201, false)));
}

#[test]
fn test_n_bytes() {
    assert_eq!(AddressingMode::Implied.n_bytes(), Ok(1));
    assert_eq!(AddressingMode::Accumulator.n_bytes(), Ok(1));
    assert_eq!(AddressingMode::Immediate.n_bytes(), Ok(2));
    assert_eq!(AddressingMode::Relative.n_bytes(), Ok(2));
    assert_eq!(AddressingMode::Absolute.n_bytes(), Ok(3));
    assert_eq!(AddressingMode::Indirect.n_bytes(), Ok(3));
    assert_eq!(AddressingMode::Unsupported.n_bytes(), Err(()));
}

#[test]
fn test_opcode_table_lengths() {
    // Every opcode the table assigns decodes to a mode with a defined
    // one-to-three-byte length.
    for op in 0..=255u8 {
        let Opcode(inst, mode) = Opcode::lookup(op);
        if inst != Instruction::Unsupported {
            let n = mode.n_bytes().unwrap();
            assert!(1 <= n && n <= 3);
        }
    }
    // Spot checks against the documented encodings.
    assert_eq!(Opcode::lookup(0xa9), Opcode(Instruction::LDA, AddressingMode::Immediate));
    assert_eq!(Opcode::lookup(0x6c), Opcode(Instruction::JMP, AddressingMode::Indirect));
    assert_eq!(Opcode::lookup(0xea), Opcode(Instruction::NOP, AddressingMode::Implied));
    assert_eq!(
        Opcode::lookup(0x02),
        Opcode(Instruction::Unsupported, AddressingMode::Unsupported)
    );
}

#[test]
fn test_indirect_page_wrap_bug() {
    let mut cpu = CPU::new_nes_cpu();
    // Pointer 0x02ff: low byte at 0x02ff, but the high byte must come from
    // 0x0200 (start of the same page), not 0x0300.
    cpu.mem.write(0x0001, 0xff).unwrap(); // operand low
    cpu.mem.write(0x0002, 0x02).unwrap(); // operand high
    cpu.mem.write(0x02ff, 0x34).unwrap(); // target low
    cpu.mem.write(0x0200, 0x12).unwrap(); // target high, same page
    cpu.mem.write(0x0300, 0x99).unwrap(); // next page: must not be read
    cpu.pc = 0x0003;
    assert_eq!(AddressingMode::Indirect.get_data(&mut cpu), Ok((0x1234, false)));
}

#[test]
fn test_indexed_indirect_page_wrap_bug() {
    let mut cpu = CPU::new_nes_cpu();
    // Zero-page pointer lands on 0x00ff: high byte comes from 0x0000.
    cpu.mem.write(0x0001, 0xfe).unwrap(); // operand
    cpu.x = 0x01; // 0xfe + 0x01 = 0xff
    cpu.mem.write(0x00ff, 0x78).unwrap(); // target low
    cpu.mem.write(0x0000, 0x56).unwrap(); // target high, wrapped
    cpu.mem.write(0x0100, 0x99).unwrap(); // must not be read
    cpu.pc = 0x0002;
    assert_eq!(AddressingMode::IndexedIndirect.get_data(&mut cpu), Ok((0x5678, false)));
}

#[test]
fn test_indirect_indexed_page_wrap_and_cross() {
    let mut cpu = CPU::new_nes_cpu();
    cpu.mem.write(0x0001, 0xff).unwrap(); // zero-page pointer 0x00ff
    cpu.mem.write(0x00ff, 0x80).unwrap(); // base low
    cpu.mem.write(0x0000, 0x02).unwrap(); // base high from same page: 0x0280
    cpu.y = 0x90; // 0x0280 + 0x90 = 0x0310 crosses a page
    cpu.pc = 0x0002;
    assert_eq!(AddressingMode::IndirectIndexed.get_data(&mut cpu), Ok((0x0310, true)));
}

#[test]
fn test_zero_page_indexing_wraps() {
    let mut cpu = CPU::new_nes_cpu();
    cpu.mem.write(0x0001, 0xf0).unwrap();
    cpu.x = 0x20; // 0xf0 + 0x20 wraps to 0x10 within the zero page
    cpu.pc = 0x0002;
    assert_eq!(AddressingMode::ZeroPageX.get_data(&mut cpu), Ok((0x0010, false)));
}

#[test]
fn test_absolute_indexed_page_cross_flag() {
    let mut cpu = CPU::new_nes_cpu();
    cpu.mem.write(0x0001, 0xf0).unwrap();
    cpu.mem.write(0x0002, 0x02).unwrap(); // base 0x02f0
    cpu.x = 0x20;
    cpu.pc = 0x0003;
    assert_eq!(AddressingMode::AbsoluteX.get_data(&mut cpu), Ok((0x0310, true)));
    cpu.x = 0x01;
    assert_eq!(AddressingMode::AbsoluteX.get_data(&mut cpu), Ok((0x02f1, false)));
}

#[test]
fn test_relative_offsets() {
    let mut cpu = CPU::new_nes_cpu();
    // Forward offset 0x10 from post-fetch 0x0202 (operand byte at 0x0201).
    cpu.mem.write(0x0201, 0x10).unwrap();
    cpu.pc = 0x0202;
    assert_eq!(AddressingMode::Relative.get_data(&mut cpu), Ok((0x0212, false)));
    // Negative offset -2 from post-fetch 0x0202.
    cpu.mem.write(0x0201, 0xfe).unwrap();
    assert_eq!(AddressingMode::Relative.get_data(&mut cpu), Ok((0x0200, false)));
}

#[test]
fn test_get_bytes() {
    let mut cpu = CPU::new_nes_cpu();
    cpu.mem.write(0x0000, 0xad).unwrap();
    cpu.mem.write(0x0001, 0x34).unwrap();
    cpu.mem.write(0x0002, 0x12).unwrap();
    cpu.pc = 0x0000;
    assert_eq!(AddressingMode::Absolute.get_bytes(&mut cpu), vec![0xad, 0x34, 0x12]);
}
