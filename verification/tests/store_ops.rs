use emulator6502::{Cpu, Mem, RESET_EXEC_ADDRESS};

struct Operation {
    cycles: u32, // Cycles to execute
    bytes: i32,  // Bytes used
    mem: Mem,    // Memory instance
    addr: u16,   // The address the operation works on
}

fn mem_zero(instruction: u8, addr: u8, value: u8) -> Operation {
    let mut mem = Mem::new();
    mem.reset();
    mem.load_programm(&[instruction, addr]);
    mem.write8(addr as usize, value);
    Operation { cycles: 3, bytes: 2, mem, addr: addr as u16 }
}

fn mem_zero_read_store(instruction: u8, addr: u8, value: u8) -> Operation {
    let mut op = mem_zero(instruction, addr, value);
    op.cycles = 5;
    op
}

fn mem_zero_index(instruction: u8, addr: u8, index: u8, value: u8) -> Operation {
    let mut mem = Mem::new();
    mem.reset();
    mem.load_programm(&[instruction, addr]);
    let real_addr = (addr as u16 + index as u16) as u8;
    mem.write8(real_addr as usize, value);
    Operation { cycles: 4, bytes: 2, mem, addr: real_addr as u16 }
}

fn mem_zero_index_read_store(instruction: u8, addr: u8, index: u8, value: u8) -> Operation {
    let mut op = mem_zero_index(instruction, addr, index, value);
    op.cycles = 6;
    op
}

fn mem_abs(instruction: u8, addr: u16, value: u8) -> Operation {
    let mut mem = Mem::new();
    mem.reset();
    mem.load_programm(&[instruction, addr as u8, ((addr & 0xFF00) >> 8) as u8]);
    mem.write8(addr as usize, value);
    Operation { cycles: 4, bytes: 3, mem, addr }
}

fn mem_abs_read_store(instruction: u8, addr: u16, value: u8) -> Operation {
    let mut op = mem_abs(instruction, addr, value);
    op.cycles = 6;
    op
}

fn mem_abs_index_store(instruction: u8, addr: u16, index: u8) -> Operation {
    let mut mem = Mem::new();
    mem.reset();
    mem.load_programm(&[instruction, addr as u8, ((addr & 0xFF00) >> 8) as u8]);
    let real_addr = addr + index as u16;
    Operation { cycles: 5, bytes: 3, mem, addr: real_addr }
}

fn mem_abs_index_read_store(instruction: u8, addr: u16, index: u8, value: u8) -> Operation {
    let mut mem = Mem::new();
    mem.reset();
    mem.load_programm(&[instruction, addr as u8, ((addr & 0xFF00) >> 8) as u8]);
    let real_addr = addr + index as u16;
    mem.write8(real_addr as usize, value);
    Operation { cycles: 7, bytes: 3, mem, addr: real_addr }
}

fn mem_ind_x_store(instruction: u8, ind_addr: u8, addr: u16, index: u8) -> Operation {
    let mut mem = Mem::new();
    mem.reset();
    mem.load_programm(&[instruction, ind_addr]);
    // only the lower byte of the pointer sum is kept
    let real_addr = (ind_addr as u16 + index as u16) as u8;
    mem.write16(real_addr as usize, addr);
    Operation { cycles: 6, bytes: 2, mem, addr }
}

fn mem_ind_y_store(instruction: u8, ind_addr: u8, addr: u16, index: u8) -> Operation {
    let mut mem = Mem::new();
    mem.reset();
    mem.load_programm(&[instruction, ind_addr]);
    let real_addr = addr + index as u16;
    mem.write16(ind_addr as usize, addr);
    Operation { cycles: 6, bytes: 2, mem, addr: real_addr }
}

fn run_store_case(
    op: Operation,
    expected_result: u8,
    expected_stat: u8,
    from_register: usize,
    register_init_val: u8,
    aux_register: usize,
    aux_register_init_val: u8,
) {
    let mut cpu = Cpu::new(op.mem);
    cpu.reset();
    cpu.regs[from_register] = register_init_val;
    if aux_register <= Cpu::REG_STAT {
        cpu.regs[aux_register] = aux_register_init_val;
    }
    cpu.process(op.cycles);
    assert_eq!(RESET_EXEC_ADDRESS as i32 + op.bytes, cpu.pc as i32);
    assert_eq!(expected_stat, cpu.regs[Cpu::REG_STAT]);
    assert_eq!(op.cycles, cpu.cycles_run);
    assert_eq!(cpu.mem.read8(op.addr as usize), expected_result);
}

#[test]
fn sta_zero1() {
    run_store_case(mem_zero(Cpu::STA_ZERO, 0xCA, 0), 0xFE, 0, Cpu::REG_A, 0xFE, 10, 0);
}

#[test]
fn sta_zero_x1() {
    run_store_case(mem_zero_index(Cpu::STA_ZERO_X, 0x80, 0x0F, 0), 0xFE, 0, Cpu::REG_A, 0xFE,
        Cpu::REG_X, 0x0F);
}

#[test]
fn sta_zero_x_wraps_in_page_zero() {
    run_store_case(mem_zero_index(Cpu::STA_ZERO_X, 0x80, 0xFF, 0), 0xA, 0, Cpu::REG_A, 0xA,
        Cpu::REG_X, 0xFF);
}

#[test]
fn sta_abs1() {
    run_store_case(mem_abs(Cpu::STA_ABSOLUTE, 0x1225, 0), 0xFE, 0, Cpu::REG_A, 0xFE, 10, 0);
}

#[test]
fn sta_abs_x1() {
    run_store_case(mem_abs_index_store(Cpu::STA_ABSOLUTE_X, 0x1225, 0x0F), 0xAB, 0, Cpu::REG_A,
        0xAB, Cpu::REG_X, 0x0F);
}

#[test]
fn sta_abs_y1() {
    run_store_case(mem_abs_index_store(Cpu::STA_ABSOLUTE_Y, 0x12AA, 0xBB), 0x11, 0, Cpu::REG_A,
        0x11, Cpu::REG_Y, 0xBB);
}

#[test]
fn sta_ind_x1() {
    run_store_case(mem_ind_x_store(Cpu::STA_INDIRECT_X, 0x25, 0x1234, 0x0F), 0xAB, 0, Cpu::REG_A,
        0xAB, Cpu::REG_X, 0x0F);
}

#[test]
fn sta_ind_y1() {
    run_store_case(mem_ind_y_store(Cpu::STA_INDIRECT_Y, 0x25, 0x1225, 0x0F), 0xAB, 0, Cpu::REG_A,
        0xAB, Cpu::REG_Y, 0x0F);
}

#[test]
fn stx_zero1() {
    run_store_case(mem_zero(Cpu::STX_ZERO, 0xCA, 0), 0xFE, 0, Cpu::REG_X, 0xFE, 10, 0);
}

#[test]
fn stx_zero_y1() {
    run_store_case(mem_zero_index(Cpu::STX_ZERO_Y, 0x80, 0x0F, 0), 0xFE, 0, Cpu::REG_X, 0xFE,
        Cpu::REG_Y, 0x0F);
}

#[test]
fn stx_abs1() {
    run_store_case(mem_abs(Cpu::STX_ABSOLUTE, 0x1225, 0), 0xFE, 0, Cpu::REG_X, 0xFE, 10, 0);
}

#[test]
fn sty_zero1() {
    run_store_case(mem_zero(Cpu::STY_ZERO, 0xCA, 0), 0xFE, 0, Cpu::REG_Y, 0xFE, 10, 0);
}

#[test]
fn sty_zero_x1() {
    run_store_case(mem_zero_index(Cpu::STY_ZERO_X, 0x80, 0x0F, 0), 0xFE, 0, Cpu::REG_Y, 0xFE,
        Cpu::REG_X, 0x0F);
}

#[test]
fn sty_abs1() {
    run_store_case(mem_abs(Cpu::STY_ABSOLUTE, 0x1225, 0), 0xFE, 0, Cpu::REG_Y, 0xFE, 10, 0);
}

#[test]
fn inc_zero_sets_negative() {
    run_store_case(mem_zero_read_store(Cpu::INC_ZERO, 0xCA, 0x7F), 0x80, Cpu::FLAG_NEGATIVE,
        Cpu::REG_A, 0, 10, 0);
}

#[test]
fn inc_zero_wraps_to_zero() {
    run_store_case(mem_zero_read_store(Cpu::INC_ZERO, 0xCB, 0xFF), 0, Cpu::FLAG_ZERO, Cpu::REG_A,
        0, 10, 0);
}

#[test]
fn inc_zero_x_sets_negative() {
    run_store_case(mem_zero_index_read_store(Cpu::INC_ZERO_X, 0x80, 0x0F, 0x7F), 0x80,
        Cpu::FLAG_NEGATIVE, Cpu::REG_A, 0, Cpu::REG_X, 0x0F);
}

#[test]
fn inc_abs_sets_negative() {
    run_store_case(mem_abs_read_store(Cpu::INC_ABSOLUTE, 0x1225, 0x7F), 0x80, Cpu::FLAG_NEGATIVE,
        Cpu::REG_A, 0xFE, 10, 0);
}

#[test]
fn inc_abs_x_wraps_to_zero() {
    run_store_case(mem_abs_index_read_store(Cpu::INC_ABSOLUTE_X, 0x12AA, 0xBB, 0xFF), 0,
        Cpu::FLAG_ZERO, Cpu::REG_A, 0x11, Cpu::REG_X, 0xBB);
}

#[test]
fn dec_zero_wraps_to_ff() {
    run_store_case(mem_zero_read_store(Cpu::DEC_ZERO, 0xCA, 0x0), 0xFF, Cpu::FLAG_NEGATIVE,
        Cpu::REG_A, 0, 10, 0);
}

#[test]
fn dec_zero_sets_zero() {
    run_store_case(mem_zero_read_store(Cpu::DEC_ZERO, 0xCB, 0x1), 0, Cpu::FLAG_ZERO, Cpu::REG_A,
        0, 10, 0);
}

#[test]
fn dec_abs_x_sets_zero() {
    run_store_case(mem_abs_index_read_store(Cpu::DEC_ABSOLUTE_X, 0x12AA, 0xBB, 0x1), 0,
        Cpu::FLAG_ZERO, Cpu::REG_A, 0x11, Cpu::REG_X, 0xBB);
}

#[test]
fn asl_zero_sets_negative_and_carry() {
    run_store_case(mem_zero_read_store(Cpu::ASL_ZERO, 0xCA, 0xFF), 0xFE,
        Cpu::FLAG_NEGATIVE | Cpu::FLAG_CARRY, Cpu::REG_A, 0, 10, 0);
}

#[test]
fn asl_abs_x_sets_zero_and_carry() {
    run_store_case(mem_abs_index_read_store(Cpu::ASL_ABSOLUTE_X, 0x12AA, 0xBB, 0x80), 0,
        Cpu::FLAG_ZERO | Cpu::FLAG_CARRY, Cpu::REG_A, 0x11, Cpu::REG_X, 0xBB);
}

#[test]
fn lsr_zero_halves_value() {
    run_store_case(mem_zero_read_store(Cpu::LSR_ZERO, 0xCA, 0x2), 0x1, 0, Cpu::REG_A, 0, 10, 0);
}

#[test]
fn lsr_zero_sets_zero_and_carry() {
    run_store_case(mem_zero_read_store(Cpu::LSR_ZERO, 0xCB, 0x1), 0,
        Cpu::FLAG_ZERO | Cpu::FLAG_CARRY, Cpu::REG_A, 0, 10, 0);
}

#[test]
fn rol_zero_carry_into_bit0() {
    run_store_case(mem_zero_read_store(Cpu::ROL_ZERO, 0xCA, 0xFF), 0xFF,
        Cpu::FLAG_NEGATIVE | Cpu::FLAG_CARRY, Cpu::REG_A, 0, Cpu::REG_STAT, Cpu::FLAG_CARRY);
}

#[test]
fn rol_zero_shifts_out_bit7() {
    run_store_case(mem_zero_read_store(Cpu::ROL_ZERO, 0xCB, 0x80), 0,
        Cpu::FLAG_ZERO | Cpu::FLAG_CARRY, Cpu::REG_A, 0, 10, 0);
}

#[test]
fn ror_zero_carry_into_bit7() {
    run_store_case(mem_zero_read_store(Cpu::ROR_ZERO, 0xCA, 0x1), 0x80,
        Cpu::FLAG_CARRY | Cpu::FLAG_NEGATIVE, Cpu::REG_A, 0, Cpu::REG_STAT, Cpu::FLAG_CARRY);
}

#[test]
fn ror_zero_shifts_out_bit0() {
    run_store_case(mem_zero_read_store(Cpu::ROR_ZERO, 0xCB, 0x1), 0,
        Cpu::FLAG_ZERO | Cpu::FLAG_CARRY, Cpu::REG_A, 0, 10, 0);
}
