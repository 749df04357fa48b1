use emulator6502::{Cpu, Mem, RESET_EXEC_ADDRESS};

#[test]
fn test_program_two_loads() {
    let mut mem = Mem::new();
    mem.reset();
    mem.load_programm(&[Cpu::LDA_IMMEDIATE, 0xCA, Cpu::LDA_IMMEDIATE, 0x00]);
    let mut cpu = Cpu::new(mem);
    cpu.reset();
    cpu.process(2);
    assert_eq!(RESET_EXEC_ADDRESS + 2, cpu.pc);
    assert_eq!(0xCA, cpu.regs[Cpu::REG_A]);
    assert_eq!(Cpu::FLAG_NEGATIVE, cpu.regs[Cpu::REG_STAT]);
    assert_eq!(2, cpu.cycles_run);
    cpu.process(2);
    assert_eq!(RESET_EXEC_ADDRESS + 4, cpu.pc);
    assert_eq!(0x00, cpu.regs[Cpu::REG_A]);
    assert_eq!(Cpu::FLAG_ZERO, cpu.regs[Cpu::REG_STAT]);
    assert_eq!(4, cpu.cycles_run);
}

#[test]
fn test_process2_runs_the_same_program() {
    let mut mem = Mem::new();
    mem.reset();
    mem.load_programm(&[Cpu::LDA_IMMEDIATE, 0xCA, Cpu::LDA_IMMEDIATE, 0x00]);
    let mut cpu = Cpu::new(mem);
    cpu.reset();
    cpu.process2(2);
    assert_eq!(RESET_EXEC_ADDRESS + 2, cpu.pc);
    assert_eq!(0xCA, cpu.regs[Cpu::REG_A]);
    assert_eq!(Cpu::FLAG_NEGATIVE, cpu.regs[Cpu::REG_STAT]);
    assert_eq!(2, cpu.cycles_run);
    cpu.process2(2);
    assert_eq!(RESET_EXEC_ADDRESS + 4, cpu.pc);
    assert_eq!(0x00, cpu.regs[Cpu::REG_A]);
    assert_eq!(Cpu::FLAG_ZERO, cpu.regs[Cpu::REG_STAT]);
    assert_eq!(4, cpu.cycles_run);
}

#[test]
fn test_unmapped_opcode_is_skipped() {
    let mut mem = Mem::new();
    mem.reset();
    // 0x02 has no table entry: it costs its fetch and changes nothing else
    mem.load_programm(&[0x02, Cpu::LDA_IMMEDIATE, 0xCA]);
    let mut cpu = Cpu::new(mem);
    cpu.reset();
    cpu.process(3);
    assert_eq!(RESET_EXEC_ADDRESS + 3, cpu.pc);
    assert_eq!(0xCA, cpu.regs[Cpu::REG_A]);
    assert_eq!(Cpu::FLAG_NEGATIVE, cpu.regs[Cpu::REG_STAT]);
    assert_eq!(3, cpu.cycles_run);
}

#[test]
fn test_process_runs_whole_instructions() {
    let mut mem = Mem::new();
    mem.reset();
    // asking for one cycle still finishes the whole two-cycle instruction
    mem.load_programm(&[Cpu::LDA_IMMEDIATE, 0xCA]);
    let mut cpu = Cpu::new(mem);
    cpu.reset();
    cpu.process(1);
    assert_eq!(RESET_EXEC_ADDRESS + 2, cpu.pc);
    assert_eq!(0xCA, cpu.regs[Cpu::REG_A]);
    assert_eq!(2, cpu.cycles_run);
}

#[test]
fn test_write16_is_little_endian() {
    let mut mem = Mem::new();
    mem.reset();
    mem.write16(0x1234, 0xABCD);
    assert_eq!(0xCD, mem.read8(0x1234));
    assert_eq!(0xAB, mem.read8(0x1235));
}

#[test]
fn test_load_programm_at_copies_bytes() {
    let mut mem = Mem::new();
    mem.reset();
    mem.load_programm_at(0x0200, &[1, 2, 3]);
    assert_eq!(1, mem.read8(0x0200));
    assert_eq!(2, mem.read8(0x0201));
    assert_eq!(3, mem.read8(0x0202));
    assert_eq!(0, mem.read8(0x0203));
}

#[test]
fn test_reset_zeroes_registers_and_cycles() {
    let mut mem = Mem::new();
    mem.reset();
    mem.load_programm(&[Cpu::NOP_IMPLIED]);
    let mut cpu = Cpu::new(mem);
    cpu.reset();
    cpu.process(2);
    cpu.reset();
    assert_eq!(RESET_EXEC_ADDRESS, cpu.pc);
    assert_eq!(0, cpu.cycles_run);
    assert_eq!(0xFF, cpu.regs[Cpu::REG_SP]);
    assert_eq!(0, cpu.regs[Cpu::REG_A]);
    assert_eq!(0, cpu.regs[Cpu::REG_X]);
    assert_eq!(0, cpu.regs[Cpu::REG_Y]);
    assert_eq!(0, cpu.regs[Cpu::REG_STAT]);
}
