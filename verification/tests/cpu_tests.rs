use nes_core::addr::AddressingMode;
use nes_core::cpu::CPU;
use nes_core::mem::Memory;

#[test]
fn test_stack() {
    let mut cpu = CPU::new_nes_cpu();

    cpu.stack_push8(0xff).unwrap();
    assert_eq!(cpu.sp, 0xfc);
    assert_eq!(cpu.mem.ram[(cpu.sp as usize) + 1], 0xff);

    cpu.stack_push16(0xdead).unwrap();
    assert_eq!(cpu.sp, 0xfa);
    assert_eq!(cpu.mem.ram[(cpu.sp as usize) + 1], 0xad);
    assert_eq!(cpu.mem.ram[(cpu.sp as usize) + 2], 0xde);

    let rv = cpu.stack_pop16().unwrap();
    assert_eq!(cpu.sp, 0xfc);
    assert_eq!(rv, 0xdead);

    let rv = cpu.stack_pop8().unwrap();
    assert_eq!(cpu.sp, 0xfd);
    assert_eq!(rv, 0xff);
}

#[test]
fn test_stack_pop_empty_fault() {
    let mut cpu = CPU::new_nes_cpu();
    assert_eq!(
        cpu.stack_pop8(),
        Err(String::from("cannot pop from an empty stack"))
    );
    assert_eq!(cpu.sp, 0xfd);
}

#[test]
fn test_stack_push_full_fault() {
    let mut cpu = CPU::new_nes_cpu();
    for _ in 0..0xfd {
        cpu.stack_push8(0xff).unwrap();
    }
    assert_eq!(cpu.sp, 0);
    assert_eq!(
        cpu.stack_push8(0xff),
        Err(String::from("cannot push onto a full stack"))
    );
}

#[test]
fn test_flags_roundtrip() {
    let mut cpu = CPU::new_nes_cpu();
    cpu.set_flags(0x34);
    assert!(!cpu.c && !cpu.z && cpu.i && !cpu.d && cpu.b && !cpu.v && !cpu.s);
    assert_eq!(cpu.flags(), 0x34);
    cpu.set_flags(0xff);
    assert_eq!(cpu.flags(), 0xff);
    cpu.set_flags(0x00);
    assert_eq!(cpu.flags(), 0x20);
}

#[test]
fn test_adc_overflow_flags() {
    let mut cpu = CPU::new_nes_cpu();
    cpu.a = 0x50;
    cpu.c = false;
    cpu.mem.write(0x0010, 0x50).unwrap();
    cpu.adc(0x0010).unwrap();
    assert_eq!(cpu.a, 0xa0);
    assert!(!cpu.c);
    assert!(cpu.v);
    assert!(cpu.s);
    assert!(!cpu.z);
}

#[test]
fn test_sbc_borrow_flags() {
    let mut cpu = CPU::new_nes_cpu();
    cpu.a = 0x00;
    cpu.c = true;
    cpu.mem.write(0x0010, 0x01).unwrap();
    cpu.sbc(0x0010).unwrap();
    assert_eq!(cpu.a, 0xff);
    assert!(!cpu.c);
    assert!(cpu.s);
    assert!(!cpu.z);
}

#[test]
fn test_compare_sets_flags_only() {
    let mut cpu = CPU::new_nes_cpu();
    cpu.a = 0x40;
    cpu.mem.write(0x0010, 0x41).unwrap();
    cpu.cmp(0x0010).unwrap();
    assert_eq!(cpu.a, 0x40);
    assert!(!cpu.c);
    assert!(!cpu.z);
    assert!(cpu.s);
}

#[test]
fn test_shift_rotate() {
    let mut cpu = CPU::new_nes_cpu();
    cpu.a = 0x81;
    cpu.asl(0, &AddressingMode::Accumulator).unwrap();
    assert_eq!(cpu.a, 0x02);
    assert!(cpu.c);

    cpu.a = 0x01;
    cpu.c = true;
    cpu.ror(0, &AddressingMode::Accumulator).unwrap();
    assert_eq!(cpu.a, 0x80);
    assert!(cpu.c);

    cpu.a = 0x80;
    cpu.c = true;
    cpu.rol(0, &AddressingMode::Accumulator).unwrap();
    assert_eq!(cpu.a, 0x01);
    assert!(cpu.c);

    cpu.a = 0x03;
    cpu.lsr(0, &AddressingMode::Accumulator).unwrap();
    assert_eq!(cpu.a, 0x01);
    assert!(cpu.c);
}

#[test]
fn test_interrupt_entry() {
    let mut cpu = CPU::new_nes_cpu();
    // Interrupt vector in cartridge space: handler at 0x9234.
    let mut rom = vec![0u8; 0x8000];
    rom[0x7ffa] = 0x34; // NMI vector low (0xFFFA)
    rom[0x7ffb] = 0x92; // NMI vector high
    cpu.mem.load_rom(&rom);
    cpu.pc = 0x8111;
    let flags = cpu.flags();
    cpu.trigger_nmi().unwrap();
    assert_eq!(cpu.pc, 0x9234);
    assert!(cpu.i);
    assert_eq!(cpu.sp, 0xfa);
    assert_eq!(cpu.mem.ram[0xfd], 0x81); // pc high pushed first
    assert_eq!(cpu.mem.ram[0xfc], 0x11);
    assert_eq!(cpu.mem.ram[0xfb], flags);
}

#[test]
fn test_irq_suppressed_while_disabled() {
    let mut cpu = CPU::new_nes_cpu();
    cpu.i = true;
    cpu.pc = 0x4242;
    cpu.trigger_irq().unwrap();
    assert_eq!(cpu.pc, 0x4242);
    assert_eq!(cpu.sp, 0xfd);
}

#[test]
fn test_step_lda_immediate() {
    let mut cpu = CPU::new_nes_cpu();
    let mut rom = vec![0u8; 0x8000];
    rom[0] = 0xa9; // LDA immediate
    rom[1] = 0x42;
    cpu.mem.load_rom(&rom);
    cpu.pc = 0x8000;
    let cycles = cpu.step().unwrap();
    assert_eq!(cpu.a, 0x42);
    assert_eq!(cpu.pc, 0x8002);
    assert_eq!(cycles, 2);
    assert!(!cpu.z && !cpu.s);
}

#[test]
fn test_step_branch_negative_offset() {
    let mut cpu = CPU::new_nes_cpu();
    let mut rom = vec![0u8; 0x8000];
    rom[0x0e] = 0xd0; // BNE at 0x800E
    rom[0x0f] = 0xfe; // offset -2: post-fetch 0x8010 lands back at 0x800E
    cpu.mem.load_rom(&rom);
    cpu.pc = 0x800e;
    cpu.z = false;
    let cycles = cpu.step().unwrap();
    assert_eq!(cpu.pc, 0x800e);
    assert_eq!(cycles, 3); // 2 base + 1 taken, no page cross
}

#[test]
fn test_step_unsupported_opcode_fails() {
    let mut cpu = CPU::new_nes_cpu();
    let mut rom = vec![0u8; 0x8000];
    rom[0] = 0x02; // unassigned slot
    cpu.mem.load_rom(&rom);
    cpu.pc = 0x8000;
    assert_eq!(
        cpu.step(),
        Err(String::from("unsupported addressing mode"))
    );
}

#[test]
fn test_jsr_rts_roundtrip() {
    let mut cpu = CPU::new_nes_cpu();
    let mut rom = vec![0u8; 0x8000];
    rom[0x00] = 0x20; // JSR 0x9000 at 0x8000
    rom[0x01] = 0x00;
    rom[0x02] = 0x90;
    rom[0x1000] = 0x60; // RTS at 0x9000
    cpu.mem.load_rom(&rom);
    cpu.pc = 0x8000;
    let c1 = cpu.step().unwrap();
    assert_eq!(cpu.pc, 0x9000);
    assert_eq!(c1, 6);
    let c2 = cpu.step().unwrap();
    assert_eq!(cpu.pc, 0x8003);
    assert_eq!(c2, 6);
    assert_eq!(cpu.sp, 0xfd);
}

#[test]
fn test_init_reads_reset_vector() {
    let mut cpu = CPU::new_nes_cpu();
    let mut rom = vec![0u8; 0x8000];
    rom[0x7ffc] = 0x00; // reset vector 0xC000 at 0xFFFC
    rom[0x7ffd] = 0xc0;
    cpu.mem.load_rom(&rom);
    cpu.init().unwrap();
    assert_eq!(cpu.pc, 0xc000);
    assert_eq!(cpu.flags(), 0x34);
}

#[test]
fn test_run_unsupported_instruction_fails() {
    let mut cpu = CPU::new_nes_cpu();
    assert_eq!(
        nes_core::inst::Instruction::DCP.run(&mut cpu, 0, &AddressingMode::Implied),
        Err(String::from("unsupported instruction"))
    );
    assert_eq!(
        nes_core::inst::Instruction::Unsupported.run(&mut cpu, 0, &AddressingMode::Implied),
        Err(String::from("unsupported instruction"))
    );
}

#[test]
fn test_step_failing_operand_fetch() {
    let mut cpu = CPU::new_nes_cpu();
    // JMP ($4018): the indirect pointer lies in the unmapped window, so
    // operand resolution fails.
    cpu.mem.write(0x0000, 0x6c).unwrap();
    cpu.mem.write(0x0001, 0x18).unwrap();
    cpu.mem.write(0x0002, 0x40).unwrap();
    cpu.pc = 0x0000;
    assert_eq!(cpu.step(), Err(String::from("unable to get data")));
}

#[test]
fn test_step_page_cross_cycle() {
    let mut cpu = CPU::new_nes_cpu();
    let mut rom = vec![0u8; 0x8000];
    rom[0] = 0xbd; // LDA absolute,X
    rom[1] = 0xff;
    rom[2] = 0x02; // base 0x02ff
    cpu.mem.load_rom(&rom);
    cpu.mem.write(0x0300, 0x7e).unwrap();
    cpu.pc = 0x8000;
    cpu.x = 1; // 0x02ff + 1 crosses into page 0x03
    let cycles = cpu.step().unwrap();
    assert_eq!(cpu.a, 0x7e);
    assert_eq!(cycles, 5); // 4 base + 1 page-cross penalty
}
