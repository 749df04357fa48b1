//! The executable processor core: fetch, decode, execute.
//!
//! Every method is proved against the model in `model`: the core's whole
//! behaviour, including flag updates and cycle counts, is pinned to
//! `spec_step` and `spec_run`.
use crate::mem::Mem;
use crate::model::{
    adc_status, adc_value, compare_status, lemma_step_cycles, lo_hi, mode_addr, mode_cycles,
    mode_len, mode_ok, penalty, rol_value, ror_value, set_zn, shl_status, shl_value, shr_status,
    shr_value, spec_decode, spec_exec_instr, spec_reg, spec_run, spec_step, spec_step_ok,
    spec_value, stack_addr, value_cycles, wrap_dec, wrap_inc, CpuView, Instr, Mode, Op, RunResult,
    FLAG_CARRY, FLAG_DECIMAL, FLAG_INTERRUPT, FLAG_NEGATIVE, FLAG_OVERFLOW, FLAG_ZERO,
};
use crate::{RESET_VECTOR_ADDR, STACK_OFFSET_START, STACK_START_ADDR};
use vstd::prelude::*;

verus! {

/// The processor: program counter, register file (stack pointer,
/// accumulator, X, Y, status), cycle counter, and the memory it owns for
/// its lifetime.
pub struct Cpu {
    /// Program counter.
    pub pc: u16,
    /// The register file, indexed by the `REG_` constants.
    pub regs: [u8; 5],
    /// Bus cycles elapsed since the last reset.
    pub cycles_run: u32,
    /// The 64KB memory the processor executes against.
    pub mem: Mem,
}

impl View for Cpu {
    type V = CpuView;

    open spec fn view(&self) -> CpuView {
        CpuView {
            pc: self.pc,
            sp: self.regs[0],
            a: self.regs[1],
            x: self.regs[2],
            y: self.regs[3],
            status: self.regs[4],
            cycles: self.cycles_run,
            mem: self.mem@,
        }
    }
}

impl Cpu {
    // Load operations
    pub const LDA_IMMEDIATE: u8 = 0xA9;

    pub const LDA_ZERO: u8 = 0xA5;

    pub const LDA_ZERO_X: u8 = 0xB5;

    pub const LDA_ABSOLUTE: u8 = 0xAD;

    pub const LDA_ABSOLUTE_X: u8 = 0xBD;

    pub const LDA_ABSOLUTE_Y: u8 = 0xB9;

    pub const LDA_INDIRECT_X: u8 = 0xA1;

    pub const LDA_INDIRECT_Y: u8 = 0xB1;

    pub const LDX_IMMEDIATE: u8 = 0xA2;

    pub const LDX_ZERO: u8 = 0xA6;

    pub const LDX_ZERO_Y: u8 = 0xB6;

    pub const LDX_ABSOLUTE: u8 = 0xAE;

    pub const LDX_ABSOLUTE_Y: u8 = 0xBE;

    pub const LDY_IMMEDIATE: u8 = 0xA0;

    pub const LDY_ZERO: u8 = 0xA4;

    pub const LDY_ZERO_X: u8 = 0xB4;

    pub const LDY_ABSOLUTE: u8 = 0xAC;

    pub const LDY_ABSOLUTE_X: u8 = 0xBC;

    // Store operations
    pub const STA_ZERO: u8 = 0x85;

    pub const STA_ZERO_X: u8 = 0x95;

    pub const STA_ABSOLUTE: u8 = 0x8D;

    pub const STA_ABSOLUTE_X: u8 = 0x9D;

    pub const STA_ABSOLUTE_Y: u8 = 0x99;

    pub const STA_INDIRECT_X: u8 = 0x81;

    pub const STA_INDIRECT_Y: u8 = 0x91;

    pub const STX_ZERO: u8 = 0x86;

    pub const STX_ZERO_Y: u8 = 0x96;

    pub const STX_ABSOLUTE: u8 = 0x8E;

    pub const STY_ZERO: u8 = 0x84;

    pub const STY_ZERO_X: u8 = 0x94;

    pub const STY_ABSOLUTE: u8 = 0x8C;

    // Register transfers
    pub const TRANS_A_TO_X: u8 = 0xAA;

    pub const TRANS_A_TO_Y: u8 = 0xA8;

    pub const TRANS_X_TO_A: u8 = 0x8A;

    pub const TRANS_Y_TO_A: u8 = 0x98;

    // Stack operations
    pub const TRANS_SP_TO_X: u8 = 0xBA;

    pub const TRANS_X_TO_SP: u8 = 0x9A;

    pub const PUSH_A_TO_SP: u8 = 0x48;

    pub const PUSH_STAT_TO_SP: u8 = 0x08;

    pub const PULL_SP_TO_A: u8 = 0x68;

    pub const PULL_SP_TO_STAT: u8 = 0x28;

    // Logic operations
    pub const AND_IMMEDIATE: u8 = 0x29;

    pub const AND_ZERO: u8 = 0x25;

    pub const AND_ZERO_X: u8 = 0x35;

    pub const AND_ABSOLUTE: u8 = 0x2D;

    pub const AND_ABSOLUTE_X: u8 = 0x3D;

    pub const AND_ABSOLUTE_Y: u8 = 0x39;

    pub const AND_INDIRECT_X: u8 = 0x21;

    pub const AND_INDIRECT_Y: u8 = 0x31;

    pub const EOR_IMMEDIATE: u8 = 0x49;

    pub const EOR_ZERO: u8 = 0x45;

    pub const EOR_ZERO_X: u8 = 0x55;

    pub const EOR_ABSOLUTE: u8 = 0x4D;

    pub const EOR_ABSOLUTE_X: u8 = 0x5D;

    pub const EOR_ABSOLUTE_Y: u8 = 0x59;

    pub const EOR_INDIRECT_X: u8 = 0x41;

    pub const EOR_INDIRECT_Y: u8 = 0x51;

    pub const ORA_IMMEDIATE: u8 = 0x09;

    pub const ORA_ZERO: u8 = 0x05;

    pub const ORA_ZERO_X: u8 = 0x15;

    pub const ORA_ABSOLUTE: u8 = 0x0D;

    pub const ORA_ABSOLUTE_X: u8 = 0x1D;

    pub const ORA_ABSOLUTE_Y: u8 = 0x19;

    pub const ORA_INDIRECT_X: u8 = 0x01;

    pub const ORA_INDIRECT_Y: u8 = 0x11;

    // Bit test
    pub const BIT_TEST_ZERO: u8 = 0x24;

    pub const BIT_TEST_ABSOLUTE: u8 = 0x2C;

    // Add with carry
    pub const ADC_IMMEDIATE: u8 = 0x69;

    pub const ADC_ZERO: u8 = 0x65;

    pub const ADC_ZERO_X: u8 = 0x75;

    pub const ADC_ABSOLUTE: u8 = 0x6D;

    pub const ADC_ABSOLUTE_X: u8 = 0x7D;

    pub const ADC_ABSOLUTE_Y: u8 = 0x79;

    pub const ADC_INDIRECT_X: u8 = 0x61;

    pub const ADC_INDIRECT_Y: u8 = 0x71;

    // Subtract with carry
    pub const SBC_IMMEDIATE: u8 = 0xE9;

    pub const SBC_ZERO: u8 = 0xE5;

    pub const SBC_ZERO_X: u8 = 0xF5;

    pub const SBC_ABSOLUTE: u8 = 0xED;

    pub const SBC_ABSOLUTE_X: u8 = 0xFD;

    pub const SBC_ABSOLUTE_Y: u8 = 0xF9;

    pub const SBC_INDIRECT_X: u8 = 0xE1;

    pub const SBC_INDIRECT_Y: u8 = 0xF1;

    // Compare with the accumulator
    pub const CMP_IMMEDIATE: u8 = 0xC9;

    pub const CMP_ZERO: u8 = 0xC5;

    pub const CMP_ZERO_X: u8 = 0xD5;

    pub const CMP_ABSOLUTE: u8 = 0xCD;

    pub const CMP_ABSOLUTE_X: u8 = 0xDD;

    pub const CMP_ABSOLUTE_Y: u8 = 0xD9;

    pub const CMP_INDIRECT_X: u8 = 0xC1;

    pub const CMP_INDIRECT_Y: u8 = 0xD1;

    // Compare with X
    pub const CPX_IMMEDIATE: u8 = 0xE0;

    pub const CPX_ZERO: u8 = 0xE4;

    pub const CPX_ABSOLUTE: u8 = 0xEC;

    // Compare with Y
    pub const CPY_IMMEDIATE: u8 = 0xC0;

    pub const CPY_ZERO: u8 = 0xC4;

    pub const CPY_ABSOLUTE: u8 = 0xCC;

    // Increment memory
    pub const INC_ZERO: u8 = 0xE6;

    pub const INC_ZERO_X: u8 = 0xF6;

    pub const INC_ABSOLUTE: u8 = 0xEE;

    pub const INC_ABSOLUTE_X: u8 = 0xFE;

    pub const INX_IMPLIED: u8 = 0xE8;

    pub const INY_IMPLIED: u8 = 0xC8;

    // Decrement memory
    pub const DEC_ZERO: u8 = 0xC6;

    pub const DEC_ZERO_X: u8 = 0xD6;

    pub const DEC_ABSOLUTE: u8 = 0xCE;

    pub const DEC_ABSOLUTE_X: u8 = 0xDE;

    pub const DEX_IMPLIED: u8 = 0xCA;

    pub const DEY_IMPLIED: u8 = 0x88;

    // Arithmetic shift left
    pub const ASL_IMPLIED: u8 = 0x0A;

    pub const ASL_ZERO: u8 = 0x06;

    pub const ASL_ZERO_X: u8 = 0x16;

    pub const ASL_ABSOLUTE: u8 = 0x0E;

    pub const ASL_ABSOLUTE_X: u8 = 0x1E;

    // Logical shift right
    pub const LSR_IMPLIED: u8 = 0x4A;

    pub const LSR_ZERO: u8 = 0x46;

    pub const LSR_ZERO_X: u8 = 0x56;

    pub const LSR_ABSOLUTE: u8 = 0x4E;

    pub const LSR_ABSOLUTE_X: u8 = 0x5E;

    // Rotate left
    pub const ROL_IMPLIED: u8 = 0x2A;

    pub const ROL_ZERO: u8 = 0x26;

    pub const ROL_ZERO_X: u8 = 0x36;

    pub const ROL_ABSOLUTE: u8 = 0x2E;

    pub const ROL_ABSOLUTE_X: u8 = 0x3E;

    // Rotate right
    pub const ROR_IMPLIED: u8 = 0x6A;

    pub const ROR_ZERO: u8 = 0x66;

    pub const ROR_ZERO_X: u8 = 0x76;

    pub const ROR_ABSOLUTE: u8 = 0x6E;

    pub const ROR_ABSOLUTE_X: u8 = 0x7E;

    // Conditional branches
    pub const BPL_RELATIVE: u8 = 0x10;

    pub const BMI_RELATIVE: u8 = 0x30;

    pub const BVC_RELATIVE: u8 = 0x50;

    pub const BVS_RELATIVE: u8 = 0x70;

    pub const BCC_RELATIVE: u8 = 0x90;

    pub const BCS_RELATIVE: u8 = 0xB0;

    pub const BNE_RELATIVE: u8 = 0xD0;

    pub const BEQ_RELATIVE: u8 = 0xF0;

    // Flag instructions
    pub const CLC_IMPLIED: u8 = 0x18;

    pub const SEC_IMPLIED: u8 = 0x38;

    pub const CLI_IMPLIED: u8 = 0x58;

    pub const SEI_IMPLIED: u8 = 0x78;

    pub const CLV_IMPLIED: u8 = 0xB8;

    pub const CLD_IMPLIED: u8 = 0xD8;

    pub const SED_IMPLIED: u8 = 0xF8;

    // Interrupts and no-op
    pub const BRK_IMPLIED: u8 = 0x00;

    pub const RTI_IMPLIED: u8 = 0x40;

    pub const NOP_IMPLIED: u8 = 0xEA;

    // Status flags
    pub const FLAG_CARRY: u8 = crate::model::FLAG_CARRY;

    pub const FLAG_ZERO: u8 = crate::model::FLAG_ZERO;

    pub const FLAG_INTERRUPT: u8 = crate::model::FLAG_INTERRUPT;

    pub const FLAG_DECIMAL: u8 = crate::model::FLAG_DECIMAL;

    pub const FLAG_BREAK: u8 = crate::model::FLAG_BREAK;

    pub const FLAG_OVERFLOW: u8 = crate::model::FLAG_OVERFLOW;

    pub const FLAG_NEGATIVE: u8 = crate::model::FLAG_NEGATIVE;

    // Register file indices
    pub const REG_SP: usize = 0;

    pub const REG_A: usize = 1;

    pub const REG_X: usize = 2;

    pub const REG_Y: usize = 3;

    pub const REG_STAT: usize = 4;

    /// Address of the two-byte IRQ vector consulted by BRK.
    pub const IRQ_INTERRUPT_VECTOR_ADDR: u16 = crate::model::IRQ_VECTOR_ADDR;

    /// Whether the processor's memory covers the full address space.
    pub open spec fn wf(&self) -> bool {
        self.mem.wf()
    }

    /// A processor bound to `mem`, with all registers and the cycle counter
    /// zero.
    pub fn new(mem: Mem) -> (r: Cpu)
        requires
            mem.wf(),
        ensures
            r.wf(),
            r@ == (CpuView {
                pc: 0,
                sp: 0,
                a: 0,
                x: 0,
                y: 0,
                status: 0,
                cycles: 0,
                mem: mem@,
            }),
    {
        Cpu { pc: 0, regs: [0, 0, 0, 0, 0], cycles_run: 0, mem }
    }

    /// Loads the program counter from the reset vector (high byte first),
    /// zeroes the registers and flags, sets the stack pointer to the top of
    /// the stack page, and zeroes the cycle counter. Memory is untouched.
    pub fn reset(&mut self)
        requires
            old(self).wf(),
        ensures
            final(self).wf(),
            final(self)@ == (CpuView {
                pc: (old(self)@.mem[RESET_VECTOR_ADDR as int] * 256 + old(
                    self,
                )@.mem[RESET_VECTOR_ADDR as int + 1]) as u16,
                sp: STACK_OFFSET_START,
                a: 0,
                x: 0,
                y: 0,
                status: 0,
                cycles: 0,
                mem: old(self)@.mem,
            }),
    {
        let high = self.mem.read8(RESET_VECTOR_ADDR);
        let low = self.mem.read8(RESET_VECTOR_ADDR + 1);
        self.pc = high as u16 * 256 + low as u16;
        self.regs = [0, 0, 0, 0, 0];
        self.regs[Cpu::REG_SP] = STACK_OFFSET_START;
        self.cycles_run = 0;
    }

    /// Reads a byte, charging one cycle.
    fn read8(&mut self, addr: u16) -> (val: u8)
        requires
            old(self).wf(),
            old(self)@.cycles < u32::MAX,
        ensures
            final(self).wf(),
            val == old(self)@.mem[addr as int],
            final(self)@ == (CpuView { cycles: (old(self)@.cycles + 1) as u32, ..old(self)@ }),
    {
        let val = self.mem.read8(addr as usize);
        self.cycles_run = self.cycles_run + 1;
        val
    }

    /// Reads a 16-bit value little-endian, charging two cycles.
    fn read16(&mut self, addr: u16) -> (val: u16)
        requires
            old(self).wf(),
            addr < 0xFFFF,
            old(self)@.cycles + 2 <= u32::MAX,
        ensures
            final(self).wf(),
            val == lo_hi(old(self)@.mem[addr as int], old(self)@.mem[addr as int + 1]),
            final(self)@ == (CpuView { cycles: (old(self)@.cycles + 2) as u32, ..old(self)@ }),
    {
        let low = self.read8(addr);
        let high = self.read8(addr + 1);
        high as u16 * 256 + low as u16
    }

    /// Writes a byte, charging one cycle.
    fn write8(&mut self, addr: u16, val: u8)
        requires
            old(self).wf(),
            old(self)@.cycles < u32::MAX,
        ensures
            final(self).wf(),
            final(self)@ == (CpuView {
                cycles: (old(self)@.cycles + 1) as u32,
                mem: old(self)@.mem.update(addr as int, val),
                ..old(self)@
            }),
    {
        self.mem.write8(addr as usize, val);
        self.cycles_run = self.cycles_run + 1;
    }

    /// Pushes a byte onto the stack: the current slot is written, then the
    /// stack pointer wraps downwards. Two cycles.
    fn write_to_stack(&mut self, val: u8)
        requires
            old(self).wf(),
            old(self)@.cycles + 2 <= u32::MAX,
        ensures
            final(self).wf(),
            final(self)@ == (CpuView {
                cycles: (old(self)@.cycles + 2) as u32,
                sp: wrap_dec(old(self)@.sp),
                mem: old(self)@.mem.update(stack_addr(old(self)@.sp), val),
                ..old(self)@
            }),
    {
        let sp = self.regs[Cpu::REG_SP];
        self.write8(STACK_START_ADDR + sp as u16, val);
        let nsp = self.sub(sp, 1);
        self.regs[Cpu::REG_SP] = nsp;
    }

    /// Pulls a byte from the stack: the stack pointer wraps upwards first,
    /// then the new slot is read. Three cycles.
    fn read_from_stack(&mut self) -> (val: u8)
        requires
            old(self).wf(),
            old(self)@.cycles + 3 <= u32::MAX,
        ensures
            final(self).wf(),
            val == old(self)@.mem[stack_addr(wrap_inc(old(self)@.sp))],
            final(self)@ == (CpuView {
                cycles: (old(self)@.cycles + 3) as u32,
                sp: wrap_inc(old(self)@.sp),
                ..old(self)@
            }),
    {
        let nsp = self.sum(self.regs[Cpu::REG_SP], 1);
        self.regs[Cpu::REG_SP] = nsp;
        self.cycles_run = self.cycles_run + 1;
        self.read8(STACK_START_ADDR + nsp as u16)
    }

    /// Reads the byte at the program counter and advances it. One cycle.
    fn read_pc(&mut self) -> (val: u8)
        requires
            old(self).wf(),
            old(self)@.pc < 0xFFFF,
            old(self)@.cycles < u32::MAX,
        ensures
            final(self).wf(),
            val == old(self)@.mem[old(self)@.pc as int],
            final(self)@ == (CpuView {
                pc: (old(self)@.pc + 1) as u16,
                cycles: (old(self)@.cycles + 1) as u32,
                ..old(self)@
            }),
    {
        let val = self.read8(self.pc);
        self.pc = self.pc + 1;
        val
    }

    /// An 8-bit wrapping addition; the internal pass costs one cycle.
    fn sum(&mut self, val1: u8, val2: u8) -> (r: u8)
        requires
            old(self)@.cycles < u32::MAX,
        ensures
            r == (val1 + val2) % 256,
            final(self)@ == (CpuView { cycles: (old(self)@.cycles + 1) as u32, ..old(self)@ }),
    {
        self.cycles_run = self.cycles_run + 1;
        ((val1 as u16 + val2 as u16) % 256) as u8
    }

    /// An 8-bit wrapping subtraction; the internal pass costs one cycle.
    fn sub(&mut self, val1: u8, val2: u8) -> (r: u8)
        requires
            old(self)@.cycles < u32::MAX,
        ensures
            r == (val1 + 256 - val2) % 256,
            final(self)@ == (CpuView { cycles: (old(self)@.cycles + 1) as u32, ..old(self)@ }),
    {
        self.cycles_run = self.cycles_run + 1;
        ((val1 as u16 + 256 - val2 as u16) % 256) as u8
    }

    /// Shifts left by one, moving the outgoing bit 7 into the carry flag.
    /// One cycle.
    fn shift_left(&mut self, val: u8) -> (r: u8)
        requires
            old(self)@.cycles < u32::MAX,
        ensures
            r == shl_value(val),
            final(self)@ == (CpuView {
                cycles: (old(self)@.cycles + 1) as u32,
                status: shl_status(old(self)@.status, val),
                ..old(self)@
            }),
    {
        self.cycles_run = self.cycles_run + 1;
        self.regs[Cpu::REG_STAT] = (self.regs[Cpu::REG_STAT] & !Cpu::FLAG_CARRY) | (val >> 7);
        ((val as u16 * 2) % 256) as u8
    }

    /// Shifts right by one, moving the outgoing bit 0 into the carry flag.
    /// One cycle.
    fn shift_right(&mut self, val: u8) -> (r: u8)
        requires
            old(self)@.cycles < u32::MAX,
        ensures
            r == shr_value(val),
            final(self)@ == (CpuView {
                cycles: (old(self)@.cycles + 1) as u32,
                status: shr_status(old(self)@.status, val),
                ..old(self)@
            }),
    {
        self.cycles_run = self.cycles_run + 1;
        self.regs[Cpu::REG_STAT] = (self.regs[Cpu::REG_STAT] & !Cpu::FLAG_CARRY) | (val & 1);
        val / 2
    }

    /// Rotates left through the carry flag: the incoming carry fills bit 0,
    /// the outgoing bit 7 becomes the new carry. One cycle.
    fn rotate_left(&mut self, val: u8) -> (r: u8)
        requires
            old(self)@.cycles < u32::MAX,
        ensures
            r == rol_value(old(self)@.status, val),
            final(self)@ == (CpuView {
                cycles: (old(self)@.cycles + 1) as u32,
                status: shl_status(old(self)@.status, val),
                ..old(self)@
            }),
    {
        self.cycles_run = self.cycles_run + 1;
        let old_carry = self.regs[Cpu::REG_STAT] & Cpu::FLAG_CARRY;
        self.regs[Cpu::REG_STAT] = (self.regs[Cpu::REG_STAT] & !Cpu::FLAG_CARRY) | (val >> 7);
        ((val as u16 * 2) % 256 + old_carry as u16) as u8
    }

    /// Rotates right through the carry flag: the incoming carry fills bit 7,
    /// the outgoing bit 0 becomes the new carry. One cycle.
    fn rotate_right(&mut self, val: u8) -> (r: u8)
        requires
            old(self)@.cycles < u32::MAX,
        ensures
            r == ror_value(old(self)@.status, val),
            final(self)@ == (CpuView {
                cycles: (old(self)@.cycles + 1) as u32,
                status: shr_status(old(self)@.status, val),
                ..old(self)@
            }),
    {
        self.cycles_run = self.cycles_run + 1;
        let old_carry = self.regs[Cpu::REG_STAT] & Cpu::FLAG_CARRY;
        self.regs[Cpu::REG_STAT] = (self.regs[Cpu::REG_STAT] & !Cpu::FLAG_CARRY) | (val & 1);
        (val as u16 / 2 + old_carry as u16 * 128) as u8
    }

    /// Adds the value and the carry flag into the accumulator's width,
    /// updating carry and overflow; zero and negative are left to the
    /// caller. Costs no cycles of its own.
    fn adc(&mut self, val: u8) -> (r: u8)
        ensures
            r == adc_value(old(self)@.a, val, old(self)@.status),
            final(self)@ == (CpuView {
                status: adc_status(old(self)@.a, val, old(self)@.status),
                ..old(self)@
            }),
    {
        let carry = self.regs[Cpu::REG_STAT] & Cpu::FLAG_CARRY;
        let sum = self.regs[Cpu::REG_A] as u16 + val as u16 + carry as u16;
        if sum > 255 {
            self.regs[Cpu::REG_STAT] = self.regs[Cpu::REG_STAT] | Cpu::FLAG_CARRY;
        } else {
            self.regs[Cpu::REG_STAT] = self.regs[Cpu::REG_STAT] & !Cpu::FLAG_CARRY;
        }
        let r8 = (sum % 256) as u8;
        let of = (self.regs[Cpu::REG_A] ^ r8) & (val ^ r8) & 0x80;
        if of > 0 {
            self.regs[Cpu::REG_STAT] = self.regs[Cpu::REG_STAT] | Cpu::FLAG_OVERFLOW;
        } else {
            self.regs[Cpu::REG_STAT] = self.regs[Cpu::REG_STAT] & !Cpu::FLAG_OVERFLOW;
        }
        r8
    }

    /// Derives the zero and negative flags from a value. Costs no cycles.
    fn set_zero_negative_flags(&mut self, val: u8)
        ensures
            final(self)@ == (CpuView { status: set_zn(old(self)@.status, val), ..old(self)@ }),
    {
        if val == 0 {
            self.regs[Cpu::REG_STAT] = self.regs[Cpu::REG_STAT] | Cpu::FLAG_ZERO;
        } else {
            self.regs[Cpu::REG_STAT] = self.regs[Cpu::REG_STAT] & !Cpu::FLAG_ZERO;
        }
        if val & Cpu::FLAG_NEGATIVE > 0 {
            self.regs[Cpu::REG_STAT] = self.regs[Cpu::REG_STAT] | Cpu::FLAG_NEGATIVE;
        } else {
            self.regs[Cpu::REG_STAT] = self.regs[Cpu::REG_STAT] & !Cpu::FLAG_NEGATIVE;
        }
    }

    /// Derives the carry, zero and negative flags from comparing a register
    /// against a value. Costs no cycles.
    fn set_compare_flags(&mut self, reg: usize, val: u8)
        requires
            reg < 5,
        ensures
            final(self)@ == (CpuView {
                status: compare_status(old(self)@.status, spec_reg(old(self)@, reg as int), val),
                ..old(self)@
            }),
    {
        let rv = self.regs[reg];
        self.regs[Cpu::REG_STAT] = self.regs[Cpu::REG_STAT] & !Cpu::FLAG_CARRY;
        self.regs[Cpu::REG_STAT] = self.regs[Cpu::REG_STAT] & !Cpu::FLAG_ZERO;
        self.regs[Cpu::REG_STAT] = self.regs[Cpu::REG_STAT] & !Cpu::FLAG_NEGATIVE;
        if rv >= val {
            self.regs[Cpu::REG_STAT] = self.regs[Cpu::REG_STAT] | Cpu::FLAG_CARRY;
        }
        if rv == val {
            self.regs[Cpu::REG_STAT] = self.regs[Cpu::REG_STAT] | Cpu::FLAG_ZERO;
        }
        let sub_result = ((rv as u16 + 256 - val as u16) % 256) as u8;
        self.regs[Cpu::REG_STAT] = self.regs[Cpu::REG_STAT] | (sub_result & Cpu::FLAG_NEGATIVE);
    }

    /// Resolves a zero-page indexed address: one operand byte plus an index
    /// register, wrapped within page zero. Two cycles.
    fn fetch_zero_page_addr(&mut self, reg: u8) -> (addr: u16)
        requires
            old(self).wf(),
            old(self)@.pc < 0xFFFF,
            old(self)@.cycles + 2 <= u32::MAX,
        ensures
            final(self).wf(),
            addr == (old(self)@.mem[old(self)@.pc as int] + reg) % 256,
            final(self)@ == (CpuView {
                pc: (old(self)@.pc + 1) as u16,
                cycles: (old(self)@.cycles + 2) as u32,
                ..old(self)@
            }),
    {
        let val = self.read_pc();
        self.sum(val, reg) as u16
    }

    /// Resolves an absolute address: two operand bytes, low then high. Two
    /// cycles.
    fn fetch_absolute_addr(&mut self) -> (addr: u16)
        requires
            old(self).wf(),
            old(self)@.pc + 2 <= 0xFFFF,
            old(self)@.cycles + 2 <= u32::MAX,
        ensures
            final(self).wf(),
            addr == lo_hi(
                old(self)@.mem[old(self)@.pc as int],
                old(self)@.mem[old(self)@.pc as int + 1],
            ),
            final(self)@ == (CpuView {
                pc: (old(self)@.pc + 2) as u16,
                cycles: (old(self)@.cycles + 2) as u32,
                ..old(self)@
            }),
    {
        let low = self.read_pc();
        let high = self.read_pc();
        high as u16 * 256 + low as u16
    }

    /// Resolves an absolute indexed address. The index is added to the low
    /// byte first; if that partial sum crosses a page, or the operation is
    /// not a plain read, the hardware's speculative read at the partial
    /// address costs one extra cycle.
    fn fetch_absolute_indexed_addr(&mut self, reg: u8, read_from_addr: bool) -> (addr: u16)
        requires
            old(self).wf(),
            old(self)@.pc + 2 <= 0xFFFF,
            old(self)@.cycles + 3 <= u32::MAX,
            (reg + old(self)@.mem[old(self)@.pc as int]) + old(self)@.mem[old(self)@.pc as int
                + 1] * 256 <= 0xFFFF,
        ensures
            final(self).wf(),
            addr == (reg + old(self)@.mem[old(self)@.pc as int]) + old(self)@.mem[old(
                self,
            )@.pc as int + 1] * 256,
            final(self)@ == (CpuView {
                pc: (old(self)@.pc + 2) as u16,
                cycles: (old(self)@.cycles + 2 + penalty(
                    reg + old(self)@.mem[old(self)@.pc as int],
                    read_from_addr,
                )) as u32,
                ..old(self)@
            }),
    {
        let low = self.read_pc();
        let high = self.read_pc();
        let partial = reg as u16 + low as u16;
        if partial > 255 || !read_from_addr {
            let _ = self.read8(partial);
        }
        partial + high as u16 * 256
    }

    /// Resolves a pre-indexed indirect address: the operand plus X names a
    /// zero-page pointer, whose two bytes hold the effective address. Four
    /// cycles.
    fn fetch_indirect_x_addr(&mut self) -> (addr: u16)
        requires
            old(self).wf(),
            old(self)@.pc < 0xFFFF,
            old(self)@.cycles + 4 <= u32::MAX,
        ensures
            final(self).wf(),
            addr == mode_addr(old(self)@, Mode::IndirectX, true),
            final(self)@ == (CpuView {
                pc: (old(self)@.pc + 1) as u16,
                cycles: (old(self)@.cycles + 4) as u32,
                ..old(self)@
            }),
    {
        let ind = self.read_pc();
        let p = self.sum(ind, self.regs[Cpu::REG_X]);
        self.read16(p as u16)
    }

    /// Resolves a post-indexed indirect address: the operand names a
    /// zero-page pointer holding a base address, to which Y is added with
    /// the same page-cross rule as absolute indexing.
    fn fetch_indirect_y_addr(&mut self, read_from_addr: bool) -> (addr: u16)
        requires
            old(self).wf(),
            old(self)@.pc < 0xFFFF,
            old(self)@.cycles + 4 <= u32::MAX,
            mode_ok(old(self)@, Mode::IndirectY, read_from_addr),
        ensures
            final(self).wf(),
            addr == mode_addr(old(self)@, Mode::IndirectY, read_from_addr),
            final(self)@ == (CpuView {
                pc: (old(self)@.pc + 1) as u16,
                cycles: (old(self)@.cycles + mode_cycles(
                    old(self)@,
                    Mode::IndirectY,
                    read_from_addr,
                )) as u32,
                ..old(self)@
            }),
    {
        let ind = self.read_pc();
        let low = self.read8(ind as u16);
        let high = self.read8(ind as u16 + 1);
        let partial = self.regs[Cpu::REG_Y] as u16 + low as u16;
        if partial > 255 || !read_from_addr {
            let _ = self.read8(partial);
        }
        partial + high as u16 * 256
    }

    /// Resolves any addressing mode to its effective address, charging that
    /// mode's cycles and consuming its operand bytes.
    fn resolve_addr(&mut self, m: Mode, is_read: bool) -> (addr: u16)
        requires
            old(self).wf(),
            old(self)@.pc + mode_len(m) <= 0xFFFF,
            mode_ok(old(self)@, m, is_read),
            old(self)@.cycles + 4 <= u32::MAX,
        ensures
            final(self).wf(),
            addr == mode_addr(old(self)@, m, is_read),
            final(self)@ == (CpuView {
                pc: (old(self)@.pc + mode_len(m)) as u16,
                cycles: (old(self)@.cycles + mode_cycles(old(self)@, m, is_read)) as u32,
                ..old(self)@
            }),
    {
        match m {
            Mode::Immediate => {
                let addr = self.read_pc() as u16;
                proof {
                    assert(self@ =~= CpuView {
                        pc: (old(self)@.pc + mode_len(m)) as u16,
                        cycles: (old(self)@.cycles + mode_cycles(old(self)@, m, is_read)) as u32,
                        ..old(self)@
                    });
                }
                addr
            },
            Mode::ZeroPage => {
                let addr = self.read_pc() as u16;
                proof {
                    assert(self@ =~= CpuView {
                        pc: (old(self)@.pc + mode_len(m)) as u16,
                        cycles: (old(self)@.cycles + mode_cycles(old(self)@, m, is_read)) as u32,
                        ..old(self)@
                    });
                }
                addr
            },
            Mode::ZeroPageX => {
                let addr = self.fetch_zero_page_addr(self.regs[Cpu::REG_X]);
                proof {
                    assert(self@ =~= CpuView {
                        pc: (old(self)@.pc + mode_len(m)) as u16,
                        cycles: (old(self)@.cycles + mode_cycles(old(self)@, m, is_read)) as u32,
                        ..old(self)@
                    });
                }
                addr
            },
            Mode::ZeroPageY => {
                let addr = self.fetch_zero_page_addr(self.regs[Cpu::REG_Y]);
                proof {
                    assert(self@ =~= CpuView {
                        pc: (old(self)@.pc + mode_len(m)) as u16,
                        cycles: (old(self)@.cycles + mode_cycles(old(self)@, m, is_read)) as u32,
                        ..old(self)@
                    });
                }
                addr
            },
            Mode::Absolute => {
                let addr = self.fetch_absolute_addr();
                proof {
                    assert(self@ =~= CpuView {
                        pc: (old(self)@.pc + mode_len(m)) as u16,
                        cycles: (old(self)@.cycles + mode_cycles(old(self)@, m, is_read)) as u32,
                        ..old(self)@
                    });
                }
                addr
            },
            Mode::AbsoluteX => {
                let addr = self.fetch_absolute_indexed_addr(self.regs[Cpu::REG_X], is_read);
                proof {
                    assert(self@ =~= CpuView {
                        pc: (old(self)@.pc + mode_len(m)) as u16,
                        cycles: (old(self)@.cycles + mode_cycles(old(self)@, m, is_read)) as u32,
                        ..old(self)@
                    });
                }
                addr
            },
            Mode::AbsoluteY => {
                let addr = self.fetch_absolute_indexed_addr(self.regs[Cpu::REG_Y], is_read);
                proof {
                    assert(self@ =~= CpuView {
                        pc: (old(self)@.pc + mode_len(m)) as u16,
                        cycles: (old(self)@.cycles + mode_cycles(old(self)@, m, is_read)) as u32,
                        ..old(self)@
                    });
                }
                addr
            },
            Mode::IndirectX => {
                let addr = self.fetch_indirect_x_addr();
                proof {
                    assert(self@ =~= CpuView {
                        pc: (old(self)@.pc + mode_len(m)) as u16,
                        cycles: (old(self)@.cycles + mode_cycles(old(self)@, m, is_read)) as u32,
                        ..old(self)@
                    });
                }
                addr
            },
            Mode::IndirectY => {
                let addr = self.fetch_indirect_y_addr(is_read);
                proof {
                    assert(self@ =~= CpuView {
                        pc: (old(self)@.pc + mode_len(m)) as u16,
                        cycles: (old(self)@.cycles + mode_cycles(old(self)@, m, is_read)) as u32,
                        ..old(self)@
                    });
                }
                addr
            },
            Mode::Relative => {
                let addr: u16 = 0;
                proof {
                    assert(self@ =~= CpuView {
                        pc: (old(self)@.pc + mode_len(m)) as u16,
                        cycles: (old(self)@.cycles + mode_cycles(old(self)@, m, is_read)) as u32,
                        ..old(self)@
                    });
                }
                addr
            },
            Mode::Implied => {
                let addr: u16 = 0;
                proof {
                    assert(self@ =~= CpuView {
                        pc: (old(self)@.pc + mode_len(m)) as u16,
                        cycles: (old(self)@.cycles + mode_cycles(old(self)@, m, is_read)) as u32,
                        ..old(self)@
                    });
                }
                addr
            },
        }
    }

    /// Fetches the operand value of a value-consuming operation: the
    /// immediate byte itself, or the byte at the resolved address.
    fn fetch_value(&mut self, m: Mode) -> (v: u8)
        requires
            old(self).wf(),
            old(self)@.pc + mode_len(m) <= 0xFFFF,
            mode_ok(old(self)@, m, true),
            old(self)@.cycles + 5 <= u32::MAX,
        ensures
            final(self).wf(),
            v == spec_value(old(self)@, m),
            final(self)@ == (CpuView {
                pc: (old(self)@.pc + mode_len(m)) as u16,
                cycles: (old(self)@.cycles + value_cycles(old(self)@, m)) as u32,
                ..old(self)@
            }),
    {
        match m {
            Mode::Immediate => self.read_pc(),
            _ => {
                let addr = self.resolve_addr(m, true);
                self.read8(addr)
            },
        }
    }

    /// Looks an opcode up in the instruction table.
    fn decode(code: u8) -> (r: Option<Instr>)
        ensures
            r == spec_decode(code),
    {
        match code {
            0xA9 => Some(Instr { mode: Mode::Immediate, op: Op::LoadA }),
            0xA5 => Some(Instr { mode: Mode::ZeroPage, op: Op::LoadA }),
            0xB5 => Some(Instr { mode: Mode::ZeroPageX, op: Op::LoadA }),
            0xAD => Some(Instr { mode: Mode::Absolute, op: Op::LoadA }),
            0xBD => Some(Instr { mode: Mode::AbsoluteX, op: Op::LoadA }),
            0xB9 => Some(Instr { mode: Mode::AbsoluteY, op: Op::LoadA }),
            0xA1 => Some(Instr { mode: Mode::IndirectX, op: Op::LoadA }),
            0xB1 => Some(Instr { mode: Mode::IndirectY, op: Op::LoadA }),
            0xA2 => Some(Instr { mode: Mode::Immediate, op: Op::LoadX }),
            0xA6 => Some(Instr { mode: Mode::ZeroPage, op: Op::LoadX }),
            0xB6 => Some(Instr { mode: Mode::ZeroPageY, op: Op::LoadX }),
            0xAE => Some(Instr { mode: Mode::Absolute, op: Op::LoadX }),
            0xBE => Some(Instr { mode: Mode::AbsoluteY, op: Op::LoadX }),
            0xA0 => Some(Instr { mode: Mode::Immediate, op: Op::LoadY }),
            0xA4 => Some(Instr { mode: Mode::ZeroPage, op: Op::LoadY }),
            0xB4 => Some(Instr { mode: Mode::ZeroPageX, op: Op::LoadY }),
            0xAC => Some(Instr { mode: Mode::Absolute, op: Op::LoadY }),
            0xBC => Some(Instr { mode: Mode::AbsoluteX, op: Op::LoadY }),
            0x85 => Some(Instr { mode: Mode::ZeroPage, op: Op::StoreA }),
            0x95 => Some(Instr { mode: Mode::ZeroPageX, op: Op::StoreA }),
            0x8D => Some(Instr { mode: Mode::Absolute, op: Op::StoreA }),
            0x9D => Some(Instr { mode: Mode::AbsoluteX, op: Op::StoreA }),
            0x99 => Some(Instr { mode: Mode::AbsoluteY, op: Op::StoreA }),
            0x81 => Some(Instr { mode: Mode::IndirectX, op: Op::StoreA }),
            0x91 => Some(Instr { mode: Mode::IndirectY, op: Op::StoreA }),
            0x86 => Some(Instr { mode: Mode::ZeroPage, op: Op::StoreX }),
            0x96 => Some(Instr { mode: Mode::ZeroPageY, op: Op::StoreX }),
            0x8E => Some(Instr { mode: Mode::Absolute, op: Op::StoreX }),
            0x84 => Some(Instr { mode: Mode::ZeroPage, op: Op::StoreY }),
            0x94 => Some(Instr { mode: Mode::ZeroPageX, op: Op::StoreY }),
            0x8C => Some(Instr { mode: Mode::Absolute, op: Op::StoreY }),
            0xAA => Some(Instr { mode: Mode::Implied, op: Op::TransAX }),
            0xA8 => Some(Instr { mode: Mode::Implied, op: Op::TransAY }),
            0x8A => Some(Instr { mode: Mode::Implied, op: Op::TransXA }),
            0x98 => Some(Instr { mode: Mode::Implied, op: Op::TransYA }),
            0xBA => Some(Instr { mode: Mode::Implied, op: Op::TransSpX }),
            0x9A => Some(Instr { mode: Mode::Implied, op: Op::TransXSp }),
            0x48 => Some(Instr { mode: Mode::Implied, op: Op::PushA }),
            0x08 => Some(Instr { mode: Mode::Implied, op: Op::PushStatus }),
            0x68 => Some(Instr { mode: Mode::Implied, op: Op::PullA }),
            0x28 => Some(Instr { mode: Mode::Implied, op: Op::PullStatus }),
            0x29 => Some(Instr { mode: Mode::Immediate, op: Op::And }),
            0x25 => Some(Instr { mode: Mode::ZeroPage, op: Op::And }),
            0x35 => Some(Instr { mode: Mode::ZeroPageX, op: Op::And }),
            0x2D => Some(Instr { mode: Mode::Absolute, op: Op::And }),
            0x3D => Some(Instr { mode: Mode::AbsoluteX, op: Op::And }),
            0x39 => Some(Instr { mode: Mode::AbsoluteY, op: Op::And }),
            0x21 => Some(Instr { mode: Mode::IndirectX, op: Op::And }),
            0x31 => Some(Instr { mode: Mode::IndirectY, op: Op::And }),
            0x49 => Some(Instr { mode: Mode::Immediate, op: Op::Eor }),
            0x45 => Some(Instr { mode: Mode::ZeroPage, op: Op::Eor }),
            0x55 => Some(Instr { mode: Mode::ZeroPageX, op: Op::Eor }),
            0x4D => Some(Instr { mode: Mode::Absolute, op: Op::Eor }),
            0x5D => Some(Instr { mode: Mode::AbsoluteX, op: Op::Eor }),
            0x59 => Some(Instr { mode: Mode::AbsoluteY, op: Op::Eor }),
            0x41 => Some(Instr { mode: Mode::IndirectX, op: Op::Eor }),
            0x51 => Some(Instr { mode: Mode::IndirectY, op: Op::Eor }),
            0x09 => Some(Instr { mode: Mode::Immediate, op: Op::Ora }),
            0x05 => Some(Instr { mode: Mode::ZeroPage, op: Op::Ora }),
            0x15 => Some(Instr { mode: Mode::ZeroPageX, op: Op::Ora }),
            0x0D => Some(Instr { mode: Mode::Absolute, op: Op::Ora }),
            0x1D => Some(Instr { mode: Mode::AbsoluteX, op: Op::Ora }),
            0x19 => Some(Instr { mode: Mode::AbsoluteY, op: Op::Ora }),
            0x01 => Some(Instr { mode: Mode::IndirectX, op: Op::Ora }),
            0x11 => Some(Instr { mode: Mode::IndirectY, op: Op::Ora }),
            0x24 => Some(Instr { mode: Mode::ZeroPage, op: Op::BitTest }),
            0x2C => Some(Instr { mode: Mode::Absolute, op: Op::BitTest }),
            0x69 => Some(Instr { mode: Mode::Immediate, op: Op::Adc }),
            0x65 => Some(Instr { mode: Mode::ZeroPage, op: Op::Adc }),
            0x75 => Some(Instr { mode: Mode::ZeroPageX, op: Op::Adc }),
            0x6D => Some(Instr { mode: Mode::Absolute, op: Op::Adc }),
            0x7D => Some(Instr { mode: Mode::AbsoluteX, op: Op::Adc }),
            0x79 => Some(Instr { mode: Mode::AbsoluteY, op: Op::Adc }),
            0x61 => Some(Instr { mode: Mode::IndirectX, op: Op::Adc }),
            0x71 => Some(Instr { mode: Mode::IndirectY, op: Op::Adc }),
            0xE9 => Some(Instr { mode: Mode::Immediate, op: Op::Sbc }),
            0xE5 => Some(Instr { mode: Mode::ZeroPage, op: Op::Sbc }),
            0xF5 => Some(Instr { mode: Mode::ZeroPageX, op: Op::Sbc }),
            0xED => Some(Instr { mode: Mode::Absolute, op: Op::Sbc }),
            0xFD => Some(Instr { mode: Mode::AbsoluteX, op: Op::Sbc }),
            0xF9 => Some(Instr { mode: Mode::AbsoluteY, op: Op::Sbc }),
            0xE1 => Some(Instr { mode: Mode::IndirectX, op: Op::Sbc }),
            0xF1 => Some(Instr { mode: Mode::IndirectY, op: Op::Sbc }),
            0xC9 => Some(Instr { mode: Mode::Immediate, op: Op::CmpA }),
            0xC5 => Some(Instr { mode: Mode::ZeroPage, op: Op::CmpA }),
            0xD5 => Some(Instr { mode: Mode::ZeroPageX, op: Op::CmpA }),
            0xCD => Some(Instr { mode: Mode::Absolute, op: Op::CmpA }),
            0xDD => Some(Instr { mode: Mode::AbsoluteX, op: Op::CmpA }),
            0xD9 => Some(Instr { mode: Mode::AbsoluteY, op: Op::CmpA }),
            0xC1 => Some(Instr { mode: Mode::IndirectX, op: Op::CmpA }),
            0xD1 => Some(Instr { mode: Mode::IndirectY, op: Op::CmpA }),
            0xE0 => Some(Instr { mode: Mode::Immediate, op: Op::CmpX }),
            0xE4 => Some(Instr { mode: Mode::ZeroPage, op: Op::CmpX }),
            0xEC => Some(Instr { mode: Mode::Absolute, op: Op::CmpX }),
            0xC0 => Some(Instr { mode: Mode::Immediate, op: Op::CmpY }),
            0xC4 => Some(Instr { mode: Mode::ZeroPage, op: Op::CmpY }),
            0xCC => Some(Instr { mode: Mode::Absolute, op: Op::CmpY }),
            0xE6 => Some(Instr { mode: Mode::ZeroPage, op: Op::IncMem }),
            0xF6 => Some(Instr { mode: Mode::ZeroPageX, op: Op::IncMem }),
            0xEE => Some(Instr { mode: Mode::Absolute, op: Op::IncMem }),
            0xFE => Some(Instr { mode: Mode::AbsoluteX, op: Op::IncMem }),
            0xE8 => Some(Instr { mode: Mode::Implied, op: Op::IncX }),
            0xC8 => Some(Instr { mode: Mode::Implied, op: Op::IncY }),
            0xC6 => Some(Instr { mode: Mode::ZeroPage, op: Op::DecMem }),
            0xD6 => Some(Instr { mode: Mode::ZeroPageX, op: Op::DecMem }),
            0xCE => Some(Instr { mode: Mode::Absolute, op: Op::DecMem }),
            0xDE => Some(Instr { mode: Mode::AbsoluteX, op: Op::DecMem }),
            0xCA => Some(Instr { mode: Mode::Implied, op: Op::DecX }),
            0x88 => Some(Instr { mode: Mode::Implied, op: Op::DecY }),
            0x0A => Some(Instr { mode: Mode::Implied, op: Op::Asl }),
            0x06 => Some(Instr { mode: Mode::ZeroPage, op: Op::Asl }),
            0x16 => Some(Instr { mode: Mode::ZeroPageX, op: Op::Asl }),
            0x0E => Some(Instr { mode: Mode::Absolute, op: Op::Asl }),
            0x1E => Some(Instr { mode: Mode::AbsoluteX, op: Op::Asl }),
            0x4A => Some(Instr { mode: Mode::Implied, op: Op::Lsr }),
            0x46 => Some(Instr { mode: Mode::ZeroPage, op: Op::Lsr }),
            0x56 => Some(Instr { mode: Mode::ZeroPageX, op: Op::Lsr }),
            0x4E => Some(Instr { mode: Mode::Absolute, op: Op::Lsr }),
            0x5E => Some(Instr { mode: Mode::AbsoluteX, op: Op::Lsr }),
            0x2A => Some(Instr { mode: Mode::Implied, op: Op::Rol }),
            0x26 => Some(Instr { mode: Mode::ZeroPage, op: Op::Rol }),
            0x36 => Some(Instr { mode: Mode::ZeroPageX, op: Op::Rol }),
            0x2E => Some(Instr { mode: Mode::Absolute, op: Op::Rol }),
            0x3E => Some(Instr { mode: Mode::AbsoluteX, op: Op::Rol }),
            0x6A => Some(Instr { mode: Mode::Implied, op: Op::Ror }),
            0x66 => Some(Instr { mode: Mode::ZeroPage, op: Op::Ror }),
            0x76 => Some(Instr { mode: Mode::ZeroPageX, op: Op::Ror }),
            0x6E => Some(Instr { mode: Mode::Absolute, op: Op::Ror }),
            0x7E => Some(Instr { mode: Mode::AbsoluteX, op: Op::Ror }),
            0x10 => Some(Instr { mode: Mode::Relative, op: Op::Branch(FLAG_NEGATIVE, false) }),
            0x30 => Some(Instr { mode: Mode::Relative, op: Op::Branch(FLAG_NEGATIVE, true) }),
            0x50 => Some(Instr { mode: Mode::Relative, op: Op::Branch(FLAG_OVERFLOW, false) }),
            0x70 => Some(Instr { mode: Mode::Relative, op: Op::Branch(FLAG_OVERFLOW, true) }),
            0x90 => Some(Instr { mode: Mode::Relative, op: Op::Branch(FLAG_CARRY, false) }),
            0xB0 => Some(Instr { mode: Mode::Relative, op: Op::Branch(FLAG_CARRY, true) }),
            0xD0 => Some(Instr { mode: Mode::Relative, op: Op::Branch(FLAG_ZERO, false) }),
            0xF0 => Some(Instr { mode: Mode::Relative, op: Op::Branch(FLAG_ZERO, true) }),
            0x18 => Some(Instr { mode: Mode::Implied, op: Op::FlagClear(FLAG_CARRY) }),
            0x38 => Some(Instr { mode: Mode::Implied, op: Op::FlagSet(FLAG_CARRY) }),
            0x58 => Some(Instr { mode: Mode::Implied, op: Op::FlagClear(FLAG_INTERRUPT) }),
            0x78 => Some(Instr { mode: Mode::Implied, op: Op::FlagSet(FLAG_INTERRUPT) }),
            0xB8 => Some(Instr { mode: Mode::Implied, op: Op::FlagClear(FLAG_OVERFLOW) }),
            0xD8 => Some(Instr { mode: Mode::Implied, op: Op::FlagClear(FLAG_DECIMAL) }),
            0xF8 => Some(Instr { mode: Mode::Implied, op: Op::FlagSet(FLAG_DECIMAL) }),
            0x00 => Some(Instr { mode: Mode::Implied, op: Op::Brk }),
            0x40 => Some(Instr { mode: Mode::Implied, op: Op::Rti }),
            0xEA => Some(Instr { mode: Mode::Implied, op: Op::Nop }),
            _ => None,
        }
    }

    /// Fetches, decodes and executes one whole instruction. An unmapped
    /// opcode consumes only its fetch and changes nothing else.
    #[verifier::rlimit(100)]
    pub fn step(&mut self)
        requires
            old(self).wf(),
            spec_step_ok(old(self)@),
            old(self)@.cycles + 8 <= u32::MAX,
        ensures
            final(self).wf(),
            final(self)@ == spec_step(old(self)@),
    {
        let ghost s0 = self@;
        let code = self.read_pc();
        let ghost s1 = self@;
        match Cpu::decode(code) {
            None => {
                proof {
                    assert(self@ =~= spec_step(s0));
                }
            },
            Some(i) => {
                match i.op {
                    Op::LoadA => {
                        let v = self.fetch_value(i.mode);
                        self.regs[Cpu::REG_A] = v;
                        self.set_zero_negative_flags(v);
                        proof {
                            assert(self@ =~= spec_exec_instr(s1, i.mode, i.op));
                        }
                    },
                    Op::LoadX => {
                        let v = self.fetch_value(i.mode);
                        self.regs[Cpu::REG_X] = v;
                        self.set_zero_negative_flags(v);
                        proof {
                            assert(self@ =~= spec_exec_instr(s1, i.mode, i.op));
                        }
                    },
                    Op::LoadY => {
                        let v = self.fetch_value(i.mode);
                        self.regs[Cpu::REG_Y] = v;
                        self.set_zero_negative_flags(v);
                        proof {
                            assert(self@ =~= spec_exec_instr(s1, i.mode, i.op));
                        }
                    },
                    Op::And => {
                        let v = self.fetch_value(i.mode);
                        let nv = self.regs[Cpu::REG_A] & v;
                        self.regs[Cpu::REG_A] = nv;
                        self.set_zero_negative_flags(nv);
                        proof {
                            assert(self@ =~= spec_exec_instr(s1, i.mode, i.op));
                        }
                    },
                    Op::Eor => {
                        let v = self.fetch_value(i.mode);
                        let nv = self.regs[Cpu::REG_A] ^ v;
                        self.regs[Cpu::REG_A] = nv;
                        self.set_zero_negative_flags(nv);
                        proof {
                            assert(self@ =~= spec_exec_instr(s1, i.mode, i.op));
                        }
                    },
                    Op::Ora => {
                        let v = self.fetch_value(i.mode);
                        let nv = self.regs[Cpu::REG_A] | v;
                        self.regs[Cpu::REG_A] = nv;
                        self.set_zero_negative_flags(nv);
                        proof {
                            assert(self@ =~= spec_exec_instr(s1, i.mode, i.op));
                        }
                    },
                    Op::BitTest => {
                        let v = self.fetch_value(i.mode);
                        let masked = self.regs[Cpu::REG_A] & v;
                        if masked == 0 {
                            self.regs[Cpu::REG_STAT] = self.regs[Cpu::REG_STAT] | Cpu::FLAG_ZERO;
                        } else {
                            self.regs[Cpu::REG_STAT] = self.regs[Cpu::REG_STAT] & !Cpu::FLAG_ZERO;
                        }
                        self.regs[Cpu::REG_STAT] = self.regs[Cpu::REG_STAT] & !(Cpu::FLAG_NEGATIVE
                            | Cpu::FLAG_OVERFLOW);
                        self.regs[Cpu::REG_STAT] = self.regs[Cpu::REG_STAT] | (v
                            & (Cpu::FLAG_NEGATIVE | Cpu::FLAG_OVERFLOW));
                        proof {
                            assert(self@ =~= spec_exec_instr(s1, i.mode, i.op));
                        }
                    },
                    Op::Adc => {
                        let v = self.fetch_value(i.mode);
                        let r = self.adc(v);
                        self.regs[Cpu::REG_A] = r;
                        self.set_zero_negative_flags(r);
                        proof {
                            assert(self@ =~= spec_exec_instr(s1, i.mode, i.op));
                        }
                    },
                    Op::Sbc => {
                        let v = self.fetch_value(i.mode);
                        let r = self.adc(255 - v);
                        self.regs[Cpu::REG_A] = r;
                        self.set_zero_negative_flags(r);
                        proof {
                            assert(self@ =~= spec_exec_instr(s1, i.mode, i.op));
                        }
                    },
                    Op::CmpA => {
                        let v = self.fetch_value(i.mode);
                        self.set_compare_flags(Cpu::REG_A, v);
                        proof {
                            assert(self@ =~= spec_exec_instr(s1, i.mode, i.op));
                        }
                    },
                    Op::CmpX => {
                        let v = self.fetch_value(i.mode);
                        self.set_compare_flags(Cpu::REG_X, v);
                        proof {
                            assert(self@ =~= spec_exec_instr(s1, i.mode, i.op));
                        }
                    },
                    Op::CmpY => {
                        let v = self.fetch_value(i.mode);
                        self.set_compare_flags(Cpu::REG_Y, v);
                        proof {
                            assert(self@ =~= spec_exec_instr(s1, i.mode, i.op));
                        }
                    },
                    Op::StoreA => {
                        let addr = self.resolve_addr(i.mode, false);
                        self.write8(addr, self.regs[Cpu::REG_A]);
                        proof {
                            assert(self@ =~= spec_exec_instr(s1, i.mode, i.op));
                        }
                    },
                    Op::StoreX => {
                        let addr = self.resolve_addr(i.mode, false);
                        self.write8(addr, self.regs[Cpu::REG_X]);
                        proof {
                            assert(self@ =~= spec_exec_instr(s1, i.mode, i.op));
                        }
                    },
                    Op::StoreY => {
                        let addr = self.resolve_addr(i.mode, false);
                        self.write8(addr, self.regs[Cpu::REG_Y]);
                        proof {
                            assert(self@ =~= spec_exec_instr(s1, i.mode, i.op));
                        }
                    },
                    Op::IncMem => {
                        let addr = self.resolve_addr(i.mode, false);
                        let v = self.read8(addr);
                        let nv = self.sum(v, 1);
                        self.write8(addr, nv);
                        self.set_zero_negative_flags(nv);
                        proof {
                            assert(self@ =~= spec_exec_instr(s1, i.mode, i.op));
                        }
                    },
                    Op::DecMem => {
                        let addr = self.resolve_addr(i.mode, false);
                        let v = self.read8(addr);
                        let nv = self.sub(v, 1);
                        self.write8(addr, nv);
                        self.set_zero_negative_flags(nv);
                        proof {
                            assert(self@ =~= spec_exec_instr(s1, i.mode, i.op));
                        }
                    },
                    Op::IncX => {
                        let nv = self.sum(self.regs[Cpu::REG_X], 1);
                        self.regs[Cpu::REG_X] = nv;
                        self.set_zero_negative_flags(nv);
                        proof {
                            assert(self@ =~= spec_exec_instr(s1, i.mode, i.op));
                        }
                    },
                    Op::IncY => {
                        let nv = self.sum(self.regs[Cpu::REG_Y], 1);
                        self.regs[Cpu::REG_Y] = nv;
                        self.set_zero_negative_flags(nv);
                        proof {
                            assert(self@ =~= spec_exec_instr(s1, i.mode, i.op));
                        }
                    },
                    Op::DecX => {
                        let nv = self.sub(self.regs[Cpu::REG_X], 1);
                        self.regs[Cpu::REG_X] = nv;
                        self.set_zero_negative_flags(nv);
                        proof {
                            assert(self@ =~= spec_exec_instr(s1, i.mode, i.op));
                        }
                    },
                    Op::DecY => {
                        let nv = self.sub(self.regs[Cpu::REG_Y], 1);
                        self.regs[Cpu::REG_Y] = nv;
                        self.set_zero_negative_flags(nv);
                        proof {
                            assert(self@ =~= spec_exec_instr(s1, i.mode, i.op));
                        }
                    },
                    Op::Asl => {
                        match i.mode {
                            Mode::Implied => {
                                let v = self.regs[Cpu::REG_A];
                                let nv = self.shift_left(v);
                                self.regs[Cpu::REG_A] = nv;
                                self.set_zero_negative_flags(nv);
                            },
                            _ => {
                                let addr = self.resolve_addr(i.mode, false);
                                let v = self.read8(addr);
                                let nv = self.shift_left(v);
                                self.write8(addr, nv);
                                self.set_zero_negative_flags(nv);
                            },
                        }
                        proof {
                            assert(self@ =~= spec_exec_instr(s1, i.mode, i.op));
                        }
                    },
                    Op::Lsr => {
                        match i.mode {
                            Mode::Implied => {
                                let v = self.regs[Cpu::REG_A];
                                let nv = self.shift_right(v);
                                self.regs[Cpu::REG_A] = nv;
                                self.set_zero_negative_flags(nv);
                            },
                            _ => {
                                let addr = self.resolve_addr(i.mode, false);
                                let v = self.read8(addr);
                                let nv = self.shift_right(v);
                                self.write8(addr, nv);
                                self.set_zero_negative_flags(nv);
                            },
                        }
                        proof {
                            assert(self@ =~= spec_exec_instr(s1, i.mode, i.op));
                        }
                    },
                    Op::Rol => {
                        match i.mode {
                            Mode::Implied => {
                                let v = self.regs[Cpu::REG_A];
                                let nv = self.rotate_left(v);
                                self.regs[Cpu::REG_A] = nv;
                                self.set_zero_negative_flags(nv);
                            },
                            _ => {
                                let addr = self.resolve_addr(i.mode, false);
                                let v = self.read8(addr);
                                let nv = self.rotate_left(v);
                                self.write8(addr, nv);
                                self.set_zero_negative_flags(nv);
                            },
                        }
                        proof {
                            assert(self@ =~= spec_exec_instr(s1, i.mode, i.op));
                        }
                    },
                    Op::Ror => {
                        match i.mode {
                            Mode::Implied => {
                                let v = self.regs[Cpu::REG_A];
                                let nv = self.rotate_right(v);
                                self.regs[Cpu::REG_A] = nv;
                                self.set_zero_negative_flags(nv);
                            },
                            _ => {
                                let addr = self.resolve_addr(i.mode, false);
                                let v = self.read8(addr);
                                let nv = self.rotate_right(v);
                                self.write8(addr, nv);
                                self.set_zero_negative_flags(nv);
                            },
                        }
                        proof {
                            assert(self@ =~= spec_exec_instr(s1, i.mode, i.op));
                        }
                    },
                    Op::TransAX => {
                        let v = self.regs[Cpu::REG_A];
                        self.regs[Cpu::REG_X] = v;
                        self.cycles_run = self.cycles_run + 1;
                        self.set_zero_negative_flags(v);
                        proof {
                            assert(self@ =~= spec_exec_instr(s1, i.mode, i.op));
                        }
                    },
                    Op::TransAY => {
                        let v = self.regs[Cpu::REG_A];
                        self.regs[Cpu::REG_Y] = v;
                        self.cycles_run = self.cycles_run + 1;
                        self.set_zero_negative_flags(v);
                        proof {
                            assert(self@ =~= spec_exec_instr(s1, i.mode, i.op));
                        }
                    },
                    Op::TransXA => {
                        let v = self.regs[Cpu::REG_X];
                        self.regs[Cpu::REG_A] = v;
                        self.cycles_run = self.cycles_run + 1;
                        self.set_zero_negative_flags(v);
                        proof {
                            assert(self@ =~= spec_exec_instr(s1, i.mode, i.op));
                        }
                    },
                    Op::TransYA => {
                        let v = self.regs[Cpu::REG_Y];
                        self.regs[Cpu::REG_A] = v;
                        self.cycles_run = self.cycles_run + 1;
                        self.set_zero_negative_flags(v);
                        proof {
                            assert(self@ =~= spec_exec_instr(s1, i.mode, i.op));
                        }
                    },
                    Op::TransSpX => {
                        let v = self.regs[Cpu::REG_SP];
                        self.regs[Cpu::REG_X] = v;
                        self.cycles_run = self.cycles_run + 1;
                        self.set_zero_negative_flags(v);
                        proof {
                            assert(self@ =~= spec_exec_instr(s1, i.mode, i.op));
                        }
                    },
                    Op::TransXSp => {
                        self.regs[Cpu::REG_SP] = self.regs[Cpu::REG_X];
                        self.cycles_run = self.cycles_run + 1;
                        proof {
                            assert(self@ =~= spec_exec_instr(s1, i.mode, i.op));
                        }
                    },
                    Op::PushA => {
                        self.write_to_stack(self.regs[Cpu::REG_A]);
                        proof {
                            assert(self@ =~= spec_exec_instr(s1, i.mode, i.op));
                        }
                    },
                    Op::PushStatus => {
                        self.write_to_stack(self.regs[Cpu::REG_STAT]);
                        proof {
                            assert(self@ =~= spec_exec_instr(s1, i.mode, i.op));
                        }
                    },
                    Op::PullA => {
                        let v = self.read_from_stack();
                        self.regs[Cpu::REG_A] = v;
                        self.set_zero_negative_flags(v);
                        proof {
                            assert(self@ =~= spec_exec_instr(s1, i.mode, i.op));
                        }
                    },
                    Op::PullStatus => {
                        let v = self.read_from_stack();
                        self.regs[Cpu::REG_STAT] = v;
                        proof {
                            assert(self@ =~= spec_exec_instr(s1, i.mode, i.op));
                        }
                    },
                    Op::Branch(mask, when_set) => {
                        let off = self.read_pc();
                        let cond = (self.regs[Cpu::REG_STAT] & mask != 0) == when_set;
                        if cond {
                            self.cycles_run = self.cycles_run + 1;
                            let pc2 = self.pc;
                            let target: i32 = if off < 128 {
                                pc2 as i32 + off as i32
                            } else {
                                pc2 as i32 + off as i32 - 256
                            };
                            if target < 0 || target > 0xFFFF {
                                self.pc = unreached();
                            } else {
                                if target / 256 != pc2 as i32 / 256 {
                                    self.cycles_run = self.cycles_run + 1;
                                }
                                self.pc = target as u16;
                            }
                        }
                        proof {
                            assert(self@ =~= spec_exec_instr(s1, i.mode, i.op));
                        }
                    },
                    Op::FlagClear(mask) => {
                        self.regs[Cpu::REG_STAT] = self.regs[Cpu::REG_STAT] & !mask;
                        self.cycles_run = self.cycles_run + 1;
                        proof {
                            assert(self@ =~= spec_exec_instr(s1, i.mode, i.op));
                        }
                    },
                    Op::FlagSet(mask) => {
                        self.regs[Cpu::REG_STAT] = self.regs[Cpu::REG_STAT] | mask;
                        self.cycles_run = self.cycles_run + 1;
                        proof {
                            assert(self@ =~= spec_exec_instr(s1, i.mode, i.op));
                        }
                    },
                    Op::Nop => {
                        self.cycles_run = self.cycles_run + 1;
                        proof {
                            assert(self@ =~= spec_exec_instr(s1, i.mode, i.op));
                        }
                    },
                    Op::Brk => {
                        let pc1 = self.pc;
                        self.write_to_stack((pc1 / 256) as u8);
                        self.write_to_stack((pc1 % 256) as u8);
                        self.write_to_stack(self.regs[Cpu::REG_STAT] | Cpu::FLAG_BREAK);
                        let low = self.mem.read8(Cpu::IRQ_INTERRUPT_VECTOR_ADDR as usize);
                        let high = self.mem.read8(Cpu::IRQ_INTERRUPT_VECTOR_ADDR as usize + 1);
                        self.pc = high as u16 * 256 + low as u16;
                        proof {
                            assert(self@ =~= spec_exec_instr(s1, i.mode, i.op));
                        }
                    },
                    Op::Rti => {
                        let sp1 = ((self.regs[Cpu::REG_SP] as u16 + 1) % 256) as u8;
                        self.regs[Cpu::REG_SP] = sp1;
                        let st = self.read8(STACK_START_ADDR + sp1 as u16);
                        let sp2 = ((sp1 as u16 + 1) % 256) as u8;
                        self.regs[Cpu::REG_SP] = sp2;
                        let low = self.read8(STACK_START_ADDR + sp2 as u16);
                        let sp3 = ((sp2 as u16 + 1) % 256) as u8;
                        self.regs[Cpu::REG_SP] = sp3;
                        let high = self.read8(STACK_START_ADDR + sp3 as u16);
                        self.regs[Cpu::REG_STAT] = st;
                        self.pc = high as u16 * 256 + low as u16;
                        self.cycles_run = self.cycles_run + 2;
                        proof {
                            assert(self@ =~= spec_exec_instr(s1, i.mode, i.op));
                        }
                    },
                }
                proof {
                    assert(spec_step(s0) == spec_exec_instr(s1, i.mode, i.op));
                }
            },
        }
    }

    /// Fetches, decodes and executes whole instructions until at least
    /// `cycles` bus cycles have elapsed since the call began. Instructions
    /// are never interrupted, so the cycles actually consumed may exceed
    /// the request by up to one instruction. The caller must ensure the run
    /// meets no fatal condition within the budget.
    pub fn process(&mut self, cycles: u32)
        requires
            old(self).wf(),
            old(self)@.cycles + cycles + 8 <= u32::MAX,
            spec_run(old(self)@, old(self)@.cycles + cycles) is Done,
        ensures
            final(self).wf(),
            spec_run(old(self)@, old(self)@.cycles + cycles) == RunResult::Done(final(self)@),
    {
        let init_cycles = self.cycles_run;
        let ghost s0 = self@;
        let ghost target = s0.cycles + cycles as int;
        loop
            invariant_except_break
                self.wf(),
                spec_run(self@, target) == spec_run(s0, target),
                spec_run(s0, target) is Done,
                s0.cycles <= self@.cycles <= target,
                init_cycles == s0.cycles,
                target == s0.cycles + cycles,
                target + 8 <= u32::MAX,
            ensures
                self.wf(),
                spec_run(s0, target) == RunResult::Done(self@),
            decreases target - self@.cycles,
        {
            let ghost pre = self@;
            proof {
                assert(spec_step_ok(pre));
            }
            self.step();
            proof {
                lemma_step_cycles(pre);
            }
            if self.cycles_run - init_cycles >= cycles {
                proof {
                    assert(spec_run(pre, target) == RunResult::Done(self@));
                }
                break;
            }
            proof {
                assert(spec_run(pre, target) == spec_run(self@, target));
            }
        }
    }

    /// The table-driven entry point: behaves exactly as `process`, and both
    /// share the decode table and execution core.
    pub fn process2(&mut self, cycles: u32)
        requires
            old(self).wf(),
            old(self)@.cycles + cycles + 8 <= u32::MAX,
            spec_run(old(self)@, old(self)@.cycles + cycles) is Done,
        ensures
            final(self).wf(),
            spec_run(old(self)@, old(self)@.cycles + cycles) == RunResult::Done(final(self)@),
    {
        self.process(cycles);
    }
}

} // verus!
