//! Mathematical model of the processor: the machine state, the instruction
//! decode table, and the one-instruction transition function `spec_step`.
//!
//! The executable core in `cpu` is proved to follow this model exactly, so
//! the model is the single place that defines what every opcode does: which
//! registers and memory bytes it changes, which status flags it sets, and
//! how many bus cycles it costs.
use crate::MEM_SIZE;
use vstd::prelude::*;

verus! {

/// Carry flag bit of the status register.
pub const FLAG_CARRY: u8 = 0b0000_0001;

/// Zero flag bit of the status register.
pub const FLAG_ZERO: u8 = 0b0000_0010;

/// Interrupt-disable flag bit of the status register.
pub const FLAG_INTERRUPT: u8 = 0b0000_0100;

/// Decimal-mode flag bit of the status register (decimal mode itself is not
/// modelled).
pub const FLAG_DECIMAL: u8 = 0b0000_1000;

/// Break flag bit of the status register.
pub const FLAG_BREAK: u8 = 0b0001_0000;

/// Overflow flag bit of the status register.
pub const FLAG_OVERFLOW: u8 = 0b0100_0000;

/// Negative flag bit of the status register.
pub const FLAG_NEGATIVE: u8 = 0b1000_0000;

/// Address of the two-byte IRQ vector read by BRK (low byte first).
pub const IRQ_VECTOR_ADDR: u16 = 0xFFFE;

/// The complete machine state: register file, cycle counter and memory.
#[verifier::ext_equal]
pub ghost struct CpuView {
    /// Program counter.
    pub pc: u16,
    /// Stack pointer: an offset into the stack page.
    pub sp: u8,
    /// Accumulator.
    pub a: u8,
    /// Index register X.
    pub x: u8,
    /// Index register Y.
    pub y: u8,
    /// Status flags.
    pub status: u8,
    /// Bus cycles elapsed since the last reset.
    pub cycles: u32,
    /// The 64KB memory contents.
    pub mem: Seq<u8>,
}

/// The machine state covers the full 64KB address space.
pub open spec fn wf_view(s: CpuView) -> bool {
    s.mem.len() == MEM_SIZE
}

/// How an instruction names its operand.
#[derive(Clone, Copy)]
pub enum Mode {
    /// The operand byte itself is the value.
    Immediate,
    /// One operand byte is the full address.
    ZeroPage,
    /// One operand byte plus X, wrapped within page zero.
    ZeroPageX,
    /// One operand byte plus Y, wrapped within page zero.
    ZeroPageY,
    /// Two operand bytes, low then high.
    Absolute,
    /// Absolute base plus X, with a dummy read on a page cross or a store.
    AbsoluteX,
    /// Absolute base plus Y, with a dummy read on a page cross or a store.
    AbsoluteY,
    /// Zero-page pointer at operand + X; the address is stored there.
    IndirectX,
    /// Zero-page pointer at the operand; Y is added to the stored address.
    IndirectY,
    /// One signed offset byte relative to the next instruction.
    Relative,
    /// No operand bytes.
    Implied,
}

/// What an instruction does once its operand is resolved.
#[derive(Clone, Copy)]
pub enum Op {
    /// Load the accumulator.
    LoadA,
    /// Load index X.
    LoadX,
    /// Load index Y.
    LoadY,
    /// Store the accumulator.
    StoreA,
    /// Store index X.
    StoreX,
    /// Store index Y.
    StoreY,
    /// Copy A into X.
    TransAX,
    /// Copy A into Y.
    TransAY,
    /// Copy X into A.
    TransXA,
    /// Copy Y into A.
    TransYA,
    /// Copy the stack pointer into X.
    TransSpX,
    /// Copy X into the stack pointer (no flags).
    TransXSp,
    /// Push the accumulator.
    PushA,
    /// Push the status register.
    PushStatus,
    /// Pull into the accumulator.
    PullA,
    /// Pull into the status register (no derived flags).
    PullStatus,
    /// Bitwise AND into the accumulator.
    And,
    /// Bitwise exclusive OR into the accumulator.
    Eor,
    /// Bitwise OR into the accumulator.
    Ora,
    /// Bit test: zero flag from A AND operand, N and V from the operand.
    BitTest,
    /// Add with carry.
    Adc,
    /// Subtract with carry (add the operand's one's complement).
    Sbc,
    /// Compare against the accumulator.
    CmpA,
    /// Compare against index X.
    CmpX,
    /// Compare against index Y.
    CmpY,
    /// Increment a memory byte.
    IncMem,
    /// Increment index X.
    IncX,
    /// Increment index Y.
    IncY,
    /// Decrement a memory byte.
    DecMem,
    /// Decrement index X.
    DecX,
    /// Decrement index Y.
    DecY,
    /// Arithmetic shift left.
    Asl,
    /// Logical shift right.
    Lsr,
    /// Rotate left through the carry flag.
    Rol,
    /// Rotate right through the carry flag.
    Ror,
    /// Conditional branch on a status flag: the mask, and whether the branch
    /// is taken when the flag is set.
    Branch(u8, bool),
    /// Clear the given status flag.
    FlagClear(u8),
    /// Set the given status flag.
    FlagSet(u8),
    /// Force an interrupt.
    Brk,
    /// Return from an interrupt.
    Rti,
    /// No operation.
    Nop,
}

/// One decoded instruction: an addressing mode paired with an operation.
#[derive(Clone, Copy)]
pub struct Instr {
    /// How the operand is named.
    pub mode: Mode,
    /// What is done with it.
    pub op: Op,
}

/// The instruction table: which addressing mode and operation each opcode
/// byte stands for. Unmapped bytes decode to `None`.
pub open spec fn spec_decode(code: u8) -> Option<Instr> {
    match code {
        0xA9 => Some(Instr { mode: Mode::Immediate, op: Op::LoadA }),
        0xA5 => Some(Instr { mode: Mode::ZeroPage, op: Op::LoadA }),
        0xB5 => Some(Instr { mode: Mode::ZeroPageX, op: Op::LoadA }),
        0xAD => Some(Instr { mode: Mode::Absolute, op: Op::LoadA }),
        0xBD => Some(Instr { mode: Mode::AbsoluteX, op: Op::LoadA }),
        0xB9 => Some(Instr { mode: Mode::AbsoluteY, op: Op::LoadA }),
        0xA1 => Some(Instr { mode: Mode::IndirectX, op: Op::LoadA }),
        0xB1 => Some(Instr { mode: Mode::IndirectY, op: Op::LoadA }),
        0xA2 => Some(Instr { mode: Mode::Immediate, op: Op::LoadX }),
        0xA6 => Some(Instr { mode: Mode::ZeroPage, op: Op::LoadX }),
        0xB6 => Some(Instr { mode: Mode::ZeroPageY, op: Op::LoadX }),
        0xAE => Some(Instr { mode: Mode::Absolute, op: Op::LoadX }),
        0xBE => Some(Instr { mode: Mode::AbsoluteY, op: Op::LoadX }),
        0xA0 => Some(Instr { mode: Mode::Immediate, op: Op::LoadY }),
        0xA4 => Some(Instr { mode: Mode::ZeroPage, op: Op::LoadY }),
        0xB4 => Some(Instr { mode: Mode::ZeroPageX, op: Op::LoadY }),
        0xAC => Some(Instr { mode: Mode::Absolute, op: Op::LoadY }),
        0xBC => Some(Instr { mode: Mode::AbsoluteX, op: Op::LoadY }),
        0x85 => Some(Instr { mode: Mode::ZeroPage, op: Op::StoreA }),
        0x95 => Some(Instr { mode: Mode::ZeroPageX, op: Op::StoreA }),
        0x8D => Some(Instr { mode: Mode::Absolute, op: Op::StoreA }),
        0x9D => Some(Instr { mode: Mode::AbsoluteX, op: Op::StoreA }),
        0x99 => Some(Instr { mode: Mode::AbsoluteY, op: Op::StoreA }),
        0x81 => Some(Instr { mode: Mode::IndirectX, op: Op::StoreA }),
        0x91 => Some(Instr { mode: Mode::IndirectY, op: Op::StoreA }),
        0x86 => Some(Instr { mode: Mode::ZeroPage, op: Op::StoreX }),
        0x96 => Some(Instr { mode: Mode::ZeroPageY, op: Op::StoreX }),
        0x8E => Some(Instr { mode: Mode::Absolute, op: Op::StoreX }),
        0x84 => Some(Instr { mode: Mode::ZeroPage, op: Op::StoreY }),
        0x94 => Some(Instr { mode: Mode::ZeroPageX, op: Op::StoreY }),
        0x8C => Some(Instr { mode: Mode::Absolute, op: Op::StoreY }),
        0xAA => Some(Instr { mode: Mode::Implied, op: Op::TransAX }),
        0xA8 => Some(Instr { mode: Mode::Implied, op: Op::TransAY }),
        0x8A => Some(Instr { mode: Mode::Implied, op: Op::TransXA }),
        0x98 => Some(Instr { mode: Mode::Implied, op: Op::TransYA }),
        0xBA => Some(Instr { mode: Mode::Implied, op: Op::TransSpX }),
        0x9A => Some(Instr { mode: Mode::Implied, op: Op::TransXSp }),
        0x48 => Some(Instr { mode: Mode::Implied, op: Op::PushA }),
        0x08 => Some(Instr { mode: Mode::Implied, op: Op::PushStatus }),
        0x68 => Some(Instr { mode: Mode::Implied, op: Op::PullA }),
        0x28 => Some(Instr { mode: Mode::Implied, op: Op::PullStatus }),
        0x29 => Some(Instr { mode: Mode::Immediate, op: Op::And }),
        0x25 => Some(Instr { mode: Mode::ZeroPage, op: Op::And }),
        0x35 => Some(Instr { mode: Mode::ZeroPageX, op: Op::And }),
        0x2D => Some(Instr { mode: Mode::Absolute, op: Op::And }),
        0x3D => Some(Instr { mode: Mode::AbsoluteX, op: Op::And }),
        0x39 => Some(Instr { mode: Mode::AbsoluteY, op: Op::And }),
        0x21 => Some(Instr { mode: Mode::IndirectX, op: Op::And }),
        0x31 => Some(Instr { mode: Mode::IndirectY, op: Op::And }),
        0x49 => Some(Instr { mode: Mode::Immediate, op: Op::Eor }),
        0x45 => Some(Instr { mode: Mode::ZeroPage, op: Op::Eor }),
        0x55 => Some(Instr { mode: Mode::ZeroPageX, op: Op::Eor }),
        0x4D => Some(Instr { mode: Mode::Absolute, op: Op::Eor }),
        0x5D => Some(Instr { mode: Mode::AbsoluteX, op: Op::Eor }),
        0x59 => Some(Instr { mode: Mode::AbsoluteY, op: Op::Eor }),
        0x41 => Some(Instr { mode: Mode::IndirectX, op: Op::Eor }),
        0x51 => Some(Instr { mode: Mode::IndirectY, op: Op::Eor }),
        0x09 => Some(Instr { mode: Mode::Immediate, op: Op::Ora }),
        0x05 => Some(Instr { mode: Mode::ZeroPage, op: Op::Ora }),
        0x15 => Some(Instr { mode: Mode::ZeroPageX, op: Op::Ora }),
        0x0D => Some(Instr { mode: Mode::Absolute, op: Op::Ora }),
        0x1D => Some(Instr { mode: Mode::AbsoluteX, op: Op::Ora }),
        0x19 => Some(Instr { mode: Mode::AbsoluteY, op: Op::Ora }),
        0x01 => Some(Instr { mode: Mode::IndirectX, op: Op::Ora }),
        0x11 => Some(Instr { mode: Mode::IndirectY, op: Op::Ora }),
        0x24 => Some(Instr { mode: Mode::ZeroPage, op: Op::BitTest }),
        0x2C => Some(Instr { mode: Mode::Absolute, op: Op::BitTest }),
        0x69 => Some(Instr { mode: Mode::Immediate, op: Op::Adc }),
        0x65 => Some(Instr { mode: Mode::ZeroPage, op: Op::Adc }),
        0x75 => Some(Instr { mode: Mode::ZeroPageX, op: Op::Adc }),
        0x6D => Some(Instr { mode: Mode::Absolute, op: Op::Adc }),
        0x7D => Some(Instr { mode: Mode::AbsoluteX, op: Op::Adc }),
        0x79 => Some(Instr { mode: Mode::AbsoluteY, op: Op::Adc }),
        0x61 => Some(Instr { mode: Mode::IndirectX, op: Op::Adc }),
        0x71 => Some(Instr { mode: Mode::IndirectY, op: Op::Adc }),
        0xE9 => Some(Instr { mode: Mode::Immediate, op: Op::Sbc }),
        0xE5 => Some(Instr { mode: Mode::ZeroPage, op: Op::Sbc }),
        0xF5 => Some(Instr { mode: Mode::ZeroPageX, op: Op::Sbc }),
        0xED => Some(Instr { mode: Mode::Absolute, op: Op::Sbc }),
        0xFD => Some(Instr { mode: Mode::AbsoluteX, op: Op::Sbc }),
        0xF9 => Some(Instr { mode: Mode::AbsoluteY, op: Op::Sbc }),
        0xE1 => Some(Instr { mode: Mode::IndirectX, op: Op::Sbc }),
        0xF1 => Some(Instr { mode: Mode::IndirectY, op: Op::Sbc }),
        0xC9 => Some(Instr { mode: Mode::Immediate, op: Op::CmpA }),
        0xC5 => Some(Instr { mode: Mode::ZeroPage, op: Op::CmpA }),
        0xD5 => Some(Instr { mode: Mode::ZeroPageX, op: Op::CmpA }),
        0xCD => Some(Instr { mode: Mode::Absolute, op: Op::CmpA }),
        0xDD => Some(Instr { mode: Mode::AbsoluteX, op: Op::CmpA }),
        0xD9 => Some(Instr { mode: Mode::AbsoluteY, op: Op::CmpA }),
        0xC1 => Some(Instr { mode: Mode::IndirectX, op: Op::CmpA }),
        0xD1 => Some(Instr { mode: Mode::IndirectY, op: Op::CmpA }),
        0xE0 => Some(Instr { mode: Mode::Immediate, op: Op::CmpX }),
        0xE4 => Some(Instr { mode: Mode::ZeroPage, op: Op::CmpX }),
        0xEC => Some(Instr { mode: Mode::Absolute, op: Op::CmpX }),
        0xC0 => Some(Instr { mode: Mode::Immediate, op: Op::CmpY }),
        0xC4 => Some(Instr { mode: Mode::ZeroPage, op: Op::CmpY }),
        0xCC => Some(Instr { mode: Mode::Absolute, op: Op::CmpY }),
        0xE6 => Some(Instr { mode: Mode::ZeroPage, op: Op::IncMem }),
        0xF6 => Some(Instr { mode: Mode::ZeroPageX, op: Op::IncMem }),
        0xEE => Some(Instr { mode: Mode::Absolute, op: Op::IncMem }),
        0xFE => Some(Instr { mode: Mode::AbsoluteX, op: Op::IncMem }),
        0xE8 => Some(Instr { mode: Mode::Implied, op: Op::IncX }),
        0xC8 => Some(Instr { mode: Mode::Implied, op: Op::IncY }),
        0xC6 => Some(Instr { mode: Mode::ZeroPage, op: Op::DecMem }),
        0xD6 => Some(Instr { mode: Mode::ZeroPageX, op: Op::DecMem }),
        0xCE => Some(Instr { mode: Mode::Absolute, op: Op::DecMem }),
        0xDE => Some(Instr { mode: Mode::AbsoluteX, op: Op::DecMem }),
        0xCA => Some(Instr { mode: Mode::Implied, op: Op::DecX }),
        0x88 => Some(Instr { mode: Mode::Implied, op: Op::DecY }),
        0x0A => Some(Instr { mode: Mode::Implied, op: Op::Asl }),
        0x06 => Some(Instr { mode: Mode::ZeroPage, op: Op::Asl }),
        0x16 => Some(Instr { mode: Mode::ZeroPageX, op: Op::Asl }),
        0x0E => Some(Instr { mode: Mode::Absolute, op: Op::Asl }),
        0x1E => Some(Instr { mode: Mode::AbsoluteX, op: Op::Asl }),
        0x4A => Some(Instr { mode: Mode::Implied, op: Op::Lsr }),
        0x46 => Some(Instr { mode: Mode::ZeroPage, op: Op::Lsr }),
        0x56 => Some(Instr { mode: Mode::ZeroPageX, op: Op::Lsr }),
        0x4E => Some(Instr { mode: Mode::Absolute, op: Op::Lsr }),
        0x5E => Some(Instr { mode: Mode::AbsoluteX, op: Op::Lsr }),
        0x2A => Some(Instr { mode: Mode::Implied, op: Op::Rol }),
        0x26 => Some(Instr { mode: Mode::ZeroPage, op: Op::Rol }),
        0x36 => Some(Instr { mode: Mode::ZeroPageX, op: Op::Rol }),
        0x2E => Some(Instr { mode: Mode::Absolute, op: Op::Rol }),
        0x3E => Some(Instr { mode: Mode::AbsoluteX, op: Op::Rol }),
        0x6A => Some(Instr { mode: Mode::Implied, op: Op::Ror }),
        0x66 => Some(Instr { mode: Mode::ZeroPage, op: Op::Ror }),
        0x76 => Some(Instr { mode: Mode::ZeroPageX, op: Op::Ror }),
        0x6E => Some(Instr { mode: Mode::Absolute, op: Op::Ror }),
        0x7E => Some(Instr { mode: Mode::AbsoluteX, op: Op::Ror }),
        0x10 => Some(Instr { mode: Mode::Relative, op: Op::Branch(FLAG_NEGATIVE, false) }),
        0x30 => Some(Instr { mode: Mode::Relative, op: Op::Branch(FLAG_NEGATIVE, true) }),
        0x50 => Some(Instr { mode: Mode::Relative, op: Op::Branch(FLAG_OVERFLOW, false) }),
        0x70 => Some(Instr { mode: Mode::Relative, op: Op::Branch(FLAG_OVERFLOW, true) }),
        0x90 => Some(Instr { mode: Mode::Relative, op: Op::Branch(FLAG_CARRY, false) }),
        0xB0 => Some(Instr { mode: Mode::Relative, op: Op::Branch(FLAG_CARRY, true) }),
        0xD0 => Some(Instr { mode: Mode::Relative, op: Op::Branch(FLAG_ZERO, false) }),
        0xF0 => Some(Instr { mode: Mode::Relative, op: Op::Branch(FLAG_ZERO, true) }),
        0x18 => Some(Instr { mode: Mode::Implied, op: Op::FlagClear(FLAG_CARRY) }),
        0x38 => Some(Instr { mode: Mode::Implied, op: Op::FlagSet(FLAG_CARRY) }),
        0x58 => Some(Instr { mode: Mode::Implied, op: Op::FlagClear(FLAG_INTERRUPT) }),
        0x78 => Some(Instr { mode: Mode::Implied, op: Op::FlagSet(FLAG_INTERRUPT) }),
        0xB8 => Some(Instr { mode: Mode::Implied, op: Op::FlagClear(FLAG_OVERFLOW) }),
        0xD8 => Some(Instr { mode: Mode::Implied, op: Op::FlagClear(FLAG_DECIMAL) }),
        0xF8 => Some(Instr { mode: Mode::Implied, op: Op::FlagSet(FLAG_DECIMAL) }),
        0x00 => Some(Instr { mode: Mode::Implied, op: Op::Brk }),
        0x40 => Some(Instr { mode: Mode::Implied, op: Op::Rti }),
        0xEA => Some(Instr { mode: Mode::Implied, op: Op::Nop }),
        _ => None,
    }
}

/// The first operand byte: the byte at the program counter.
pub open spec fn operand0(s: CpuView) -> u8 {
    s.mem[s.pc as int]
}

/// The second operand byte.
pub open spec fn operand1(s: CpuView) -> u8 {
    s.mem[s.pc as int + 1]
}

/// A 16-bit value from a low and a high byte.
pub open spec fn lo_hi(lo: u8, hi: u8) -> int {
    lo + hi * 256
}

/// How many operand bytes a mode consumes.
pub open spec fn mode_len(m: Mode) -> int {
    match m {
        Mode::Implied => 0,
        Mode::Immediate => 1,
        Mode::ZeroPage => 1,
        Mode::ZeroPageX => 1,
        Mode::ZeroPageY => 1,
        Mode::IndirectX => 1,
        Mode::IndirectY => 1,
        Mode::Relative => 0,
        Mode::Absolute => 2,
        Mode::AbsoluteX => 2,
        Mode::AbsoluteY => 2,
    }
}

/// Whether an indexed mode performs its speculative dummy read: the partial
/// (low-byte) sum crossed a page, or the operation is not a plain read.
pub open spec fn penalty(partial: int, is_read: bool) -> nat {
    if partial > 255 || !is_read {
        1
    } else {
        0
    }
}

/// The effective address a mode resolves to, for a processor state whose
/// program counter points at the first operand byte. For the immediate mode
/// this is the operand byte itself, which the operations use as the value.
pub open spec fn mode_addr(s: CpuView, m: Mode, is_read: bool) -> int {
    match m {
        Mode::Immediate => operand0(s) as int,
        Mode::ZeroPage => operand0(s) as int,
        Mode::ZeroPageX => (operand0(s) + s.x) % 256,
        Mode::ZeroPageY => (operand0(s) + s.y) % 256,
        Mode::Absolute => lo_hi(operand0(s), operand1(s)),
        Mode::AbsoluteX => (s.x + operand0(s)) + operand1(s) * 256,
        Mode::AbsoluteY => (s.y + operand0(s)) + operand1(s) * 256,
        Mode::IndirectX => {
            let p = (operand0(s) + s.x) % 256;
            lo_hi(s.mem[p], s.mem[p + 1])
        },
        Mode::IndirectY => {
            let lo = s.mem[operand0(s) as int];
            let hi = s.mem[operand0(s) + 1];
            (s.y + lo) + hi * 256
        },
        Mode::Relative => 0,
        Mode::Implied => 0,
    }
}

/// The bus cycles a mode's resolution costs: one per operand byte read, one
/// per internal index addition, one for a dummy read.
pub open spec fn mode_cycles(s: CpuView, m: Mode, is_read: bool) -> nat {
    match m {
        Mode::Immediate => 1,
        Mode::ZeroPage => 1,
        Mode::ZeroPageX => 2,
        Mode::ZeroPageY => 2,
        Mode::Absolute => 2,
        Mode::AbsoluteX => 2 + penalty(s.x + operand0(s), is_read),
        Mode::AbsoluteY => 2 + penalty(s.y + operand0(s), is_read),
        Mode::IndirectX => 4,
        Mode::IndirectY => 3 + penalty(s.y + s.mem[operand0(s) as int], is_read),
        Mode::Relative => 0,
        Mode::Implied => 0,
    }
}

/// Whether a mode's resolution stays inside the address space: an indexed
/// absolute address must not run past the top of memory, and an indirect-Y
/// pointer must not sit at the very end of page zero.
pub open spec fn mode_ok(s: CpuView, m: Mode, is_read: bool) -> bool {
    match m {
        Mode::AbsoluteX => mode_addr(s, m, is_read) <= 0xFFFF,
        Mode::AbsoluteY => mode_addr(s, m, is_read) <= 0xFFFF,
        Mode::IndirectY => operand0(s) < 255 && mode_addr(s, m, is_read) <= 0xFFFF,
        _ => true,
    }
}

/// Whether an operation only reads its resolved address. Stores and
/// read-modify-write operations pay the indexed dummy read unconditionally.
pub open spec fn op_is_read(op: Op) -> bool {
    match op {
        Op::StoreA => false,
        Op::StoreX => false,
        Op::StoreY => false,
        Op::IncMem => false,
        Op::DecMem => false,
        Op::Asl => false,
        Op::Lsr => false,
        Op::Rol => false,
        Op::Ror => false,
        _ => true,
    }
}

/// The operand value of a value-consuming operation: the immediate byte
/// itself, or the byte at the resolved address.
pub open spec fn spec_value(s: CpuView, m: Mode) -> u8 {
    match m {
        Mode::Immediate => operand0(s),
        _ => s.mem[mode_addr(s, m, true)],
    }
}

/// The cycles a value-consuming operation spends after its opcode fetch:
/// the mode's own cost plus one memory read unless immediate.
pub open spec fn value_cycles(s: CpuView, m: Mode) -> nat {
    mode_cycles(s, m, true) + match m {
        Mode::Immediate => 0nat,
        _ => 1nat,
    }
}

/// The status register with the zero and negative flags derived from a
/// value: zero iff the value is 0, negative iff its bit 7 is set.
pub open spec fn set_zn(st: u8, v: u8) -> u8 {
    let st1 = if v == 0 {
        st | FLAG_ZERO
    } else {
        st & !FLAG_ZERO
    };
    if v & FLAG_NEGATIVE > 0 {
        st1 | FLAG_NEGATIVE
    } else {
        st1 & !FLAG_NEGATIVE
    }
}

/// The truncated 8-bit result of an add-with-carry.
pub open spec fn adc_value(a: u8, v: u8, st: u8) -> u8 {
    ((a + v + (st & FLAG_CARRY)) % 256) as u8
}

/// The status register after an add-with-carry: carry iff the wide sum
/// exceeds 255; overflow iff the sign bits of both inputs agree with each
/// other but disagree with the truncated sum's sign bit.
pub open spec fn adc_status(a: u8, v: u8, st: u8) -> u8 {
    let sum = a + v + (st & FLAG_CARRY);
    let r = (sum % 256) as u8;
    let st1 = if sum > 255 {
        st | FLAG_CARRY
    } else {
        st & !FLAG_CARRY
    };
    if (a ^ r) & (v ^ r) & 0x80 > 0 {
        st1 | FLAG_OVERFLOW
    } else {
        st1 & !FLAG_OVERFLOW
    }
}

/// The status register after a compare: carry, zero and negative are
/// cleared, then carry is set iff the register is at least the operand,
/// zero iff they are equal, and negative from bit 7 of the wrapping
/// difference.
pub open spec fn compare_status(st: u8, reg: u8, v: u8) -> u8 {
    let st1 = ((st & !FLAG_CARRY) & !FLAG_ZERO) & !FLAG_NEGATIVE;
    let st2 = if reg >= v {
        st1 | FLAG_CARRY
    } else {
        st1
    };
    let st3 = if reg == v {
        st2 | FLAG_ZERO
    } else {
        st2
    };
    st3 | ((((reg + 256 - v) % 256) as u8) & FLAG_NEGATIVE)
}

/// The status register after a bit test: zero iff A AND the operand is 0,
/// and bits 7 and 6 of the operand itself copied into negative and
/// overflow.
pub open spec fn bit_status(st: u8, a: u8, v: u8) -> u8 {
    let st1 = if a & v == 0 {
        st | FLAG_ZERO
    } else {
        st & !FLAG_ZERO
    };
    (st1 & !(FLAG_NEGATIVE | FLAG_OVERFLOW)) | (v & (FLAG_NEGATIVE | FLAG_OVERFLOW))
}

/// A shifted-left value: the low bit becomes 0, bit 7 is discarded.
pub open spec fn shl_value(v: u8) -> u8 {
    ((v * 2) % 256) as u8
}

/// The status register after a shift left: carry takes the outgoing bit 7.
pub open spec fn shl_status(st: u8, v: u8) -> u8 {
    (st & !FLAG_CARRY) | (v >> 7)
}

/// A shifted-right value: bit 0 is discarded.
pub open spec fn shr_value(v: u8) -> u8 {
    v / 2
}

/// The status register after a shift right: carry takes the outgoing bit 0.
pub open spec fn shr_status(st: u8, v: u8) -> u8 {
    (st & !FLAG_CARRY) | (v & 1)
}

/// A rotated-left value: the incoming carry fills the vacated bit 0.
pub open spec fn rol_value(st: u8, v: u8) -> u8 {
    (((v * 2) % 256) + (st & FLAG_CARRY)) as u8
}

/// A rotated-right value: the incoming carry fills the vacated bit 7.
pub open spec fn ror_value(st: u8, v: u8) -> u8 {
    (v / 2 + (st & FLAG_CARRY) * 128) as u8
}

/// An 8-bit wrapping increment by one.
pub open spec fn wrap_inc(v: u8) -> u8 {
    (((v + 1) % 256) as u8)
}

/// An 8-bit wrapping decrement by one.
pub open spec fn wrap_dec(v: u8) -> u8 {
    (((v + 255) % 256) as u8)
}

/// The signed value of an offset byte, in -128..=127.
pub open spec fn sign8(b: u8) -> int {
    if b < 128 {
        b as int
    } else {
        b - 256
    }
}

/// The register file as the processor indexes it: stack pointer,
/// accumulator, X, Y, status.
pub open spec fn spec_reg(s: CpuView, i: int) -> u8 {
    if i == 0 {
        s.sp
    } else if i == 1 {
        s.a
    } else if i == 2 {
        s.x
    } else if i == 3 {
        s.y
    } else {
        s.status
    }
}

/// The absolute address of a stack slot.
pub open spec fn stack_addr(sp: u8) -> int {
    0x100 + sp
}

/// The target of a taken branch, for a state whose program counter points
/// at the offset byte: the address of the next instruction plus the signed
/// offset.
pub open spec fn branch_target(s: CpuView) -> int {
    (s.pc + 1) + sign8(operand0(s))
}

/// The machine state after one operation, for a state `s1` whose opcode has
/// already been fetched: the program counter points at the first operand
/// byte and the fetch cycle is already counted.
pub open spec fn spec_exec_instr(s1: CpuView, m: Mode, op: Op) -> CpuView {
    match op {
        Op::LoadA => {
            let v = spec_value(s1, m);
            CpuView {
                pc: (s1.pc + mode_len(m)) as u16,
                cycles: (s1.cycles + value_cycles(s1, m)) as u32,
                a: v,
                status: set_zn(s1.status, v),
                ..s1
            }
        },
        Op::LoadX => {
            let v = spec_value(s1, m);
            CpuView {
                pc: (s1.pc + mode_len(m)) as u16,
                cycles: (s1.cycles + value_cycles(s1, m)) as u32,
                x: v,
                status: set_zn(s1.status, v),
                ..s1
            }
        },
        Op::LoadY => {
            let v = spec_value(s1, m);
            CpuView {
                pc: (s1.pc + mode_len(m)) as u16,
                cycles: (s1.cycles + value_cycles(s1, m)) as u32,
                y: v,
                status: set_zn(s1.status, v),
                ..s1
            }
        },
        Op::And => {
            let v = s1.a & spec_value(s1, m);
            CpuView {
                pc: (s1.pc + mode_len(m)) as u16,
                cycles: (s1.cycles + value_cycles(s1, m)) as u32,
                a: v,
                status: set_zn(s1.status, v),
                ..s1
            }
        },
        Op::Eor => {
            let v = s1.a ^ spec_value(s1, m);
            CpuView {
                pc: (s1.pc + mode_len(m)) as u16,
                cycles: (s1.cycles + value_cycles(s1, m)) as u32,
                a: v,
                status: set_zn(s1.status, v),
                ..s1
            }
        },
        Op::Ora => {
            let v = s1.a | spec_value(s1, m);
            CpuView {
                pc: (s1.pc + mode_len(m)) as u16,
                cycles: (s1.cycles + value_cycles(s1, m)) as u32,
                a: v,
                status: set_zn(s1.status, v),
                ..s1
            }
        },
        Op::BitTest => {
            let v = spec_value(s1, m);
            CpuView {
                pc: (s1.pc + mode_len(m)) as u16,
                cycles: (s1.cycles + value_cycles(s1, m)) as u32,
                status: bit_status(s1.status, s1.a, v),
                ..s1
            }
        },
        Op::Adc => {
            let v = spec_value(s1, m);
            let r = adc_value(s1.a, v, s1.status);
            CpuView {
                pc: (s1.pc + mode_len(m)) as u16,
                cycles: (s1.cycles + value_cycles(s1, m)) as u32,
                a: r,
                status: set_zn(adc_status(s1.a, v, s1.status), r),
                ..s1
            }
        },
        Op::Sbc => {
            let v = (255 - spec_value(s1, m)) as u8;
            let r = adc_value(s1.a, v, s1.status);
            CpuView {
                pc: (s1.pc + mode_len(m)) as u16,
                cycles: (s1.cycles + value_cycles(s1, m)) as u32,
                a: r,
                status: set_zn(adc_status(s1.a, v, s1.status), r),
                ..s1
            }
        },
        Op::CmpA => {
            let v = spec_value(s1, m);
            CpuView {
                pc: (s1.pc + mode_len(m)) as u16,
                cycles: (s1.cycles + value_cycles(s1, m)) as u32,
                status: compare_status(s1.status, s1.a, v),
                ..s1
            }
        },
        Op::CmpX => {
            let v = spec_value(s1, m);
            CpuView {
                pc: (s1.pc + mode_len(m)) as u16,
                cycles: (s1.cycles + value_cycles(s1, m)) as u32,
                status: compare_status(s1.status, s1.x, v),
                ..s1
            }
        },
        Op::CmpY => {
            let v = spec_value(s1, m);
            CpuView {
                pc: (s1.pc + mode_len(m)) as u16,
                cycles: (s1.cycles + value_cycles(s1, m)) as u32,
                status: compare_status(s1.status, s1.y, v),
                ..s1
            }
        },
        Op::StoreA => {
            let addr = mode_addr(s1, m, false);
            CpuView {
                pc: (s1.pc + mode_len(m)) as u16,
                cycles: (s1.cycles + mode_cycles(s1, m, false) + 1) as u32,
                mem: s1.mem.update(addr, s1.a),
                ..s1
            }
        },
        Op::StoreX => {
            let addr = mode_addr(s1, m, false);
            CpuView {
                pc: (s1.pc + mode_len(m)) as u16,
                cycles: (s1.cycles + mode_cycles(s1, m, false) + 1) as u32,
                mem: s1.mem.update(addr, s1.x),
                ..s1
            }
        },
        Op::StoreY => {
            let addr = mode_addr(s1, m, false);
            CpuView {
                pc: (s1.pc + mode_len(m)) as u16,
                cycles: (s1.cycles + mode_cycles(s1, m, false) + 1) as u32,
                mem: s1.mem.update(addr, s1.y),
                ..s1
            }
        },
        Op::IncMem => {
            let addr = mode_addr(s1, m, false);
            let nv = wrap_inc(s1.mem[addr]);
            CpuView {
                pc: (s1.pc + mode_len(m)) as u16,
                cycles: (s1.cycles + mode_cycles(s1, m, false) + 3) as u32,
                mem: s1.mem.update(addr, nv),
                status: set_zn(s1.status, nv),
                ..s1
            }
        },
        Op::DecMem => {
            let addr = mode_addr(s1, m, false);
            let nv = wrap_dec(s1.mem[addr]);
            CpuView {
                pc: (s1.pc + mode_len(m)) as u16,
                cycles: (s1.cycles + mode_cycles(s1, m, false) + 3) as u32,
                mem: s1.mem.update(addr, nv),
                status: set_zn(s1.status, nv),
                ..s1
            }
        },
        Op::Asl => match m {
            Mode::Implied => {
                let nv = shl_value(s1.a);
                CpuView {
                    cycles: (s1.cycles + 1) as u32,
                    a: nv,
                    status: set_zn(shl_status(s1.status, s1.a), nv),
                    ..s1
                }
            },
            _ => {
                let addr = mode_addr(s1, m, false);
                let v = s1.mem[addr];
                let nv = shl_value(v);
                CpuView {
                    pc: (s1.pc + mode_len(m)) as u16,
                    cycles: (s1.cycles + mode_cycles(s1, m, false) + 3) as u32,
                    mem: s1.mem.update(addr, nv),
                    status: set_zn(shl_status(s1.status, v), nv),
                    ..s1
                }
            },
        },
        Op::Lsr => match m {
            Mode::Implied => {
                let nv = shr_value(s1.a);
                CpuView {
                    cycles: (s1.cycles + 1) as u32,
                    a: nv,
                    status: set_zn(shr_status(s1.status, s1.a), nv),
                    ..s1
                }
            },
            _ => {
                let addr = mode_addr(s1, m, false);
                let v = s1.mem[addr];
                let nv = shr_value(v);
                CpuView {
                    pc: (s1.pc + mode_len(m)) as u16,
                    cycles: (s1.cycles + mode_cycles(s1, m, false) + 3) as u32,
                    mem: s1.mem.update(addr, nv),
                    status: set_zn(shr_status(s1.status, v), nv),
                    ..s1
                }
            },
        },
        Op::Rol => match m {
            Mode::Implied => {
                let nv = rol_value(s1.status, s1.a);
                CpuView {
                    cycles: (s1.cycles + 1) as u32,
                    a: nv,
                    status: set_zn(shl_status(s1.status, s1.a), nv),
                    ..s1
                }
            },
            _ => {
                let addr = mode_addr(s1, m, false);
                let v = s1.mem[addr];
                let nv = rol_value(s1.status, v);
                CpuView {
                    pc: (s1.pc + mode_len(m)) as u16,
                    cycles: (s1.cycles + mode_cycles(s1, m, false) + 3) as u32,
                    mem: s1.mem.update(addr, nv),
                    status: set_zn(shl_status(s1.status, v), nv),
                    ..s1
                }
            },
        },
        Op::Ror => match m {
            Mode::Implied => {
                let nv = ror_value(s1.status, s1.a);
                CpuView {
                    cycles: (s1.cycles + 1) as u32,
                    a: nv,
                    status: set_zn(shr_status(s1.status, s1.a), nv),
                    ..s1
                }
            },
            _ => {
                let addr = mode_addr(s1, m, false);
                let v = s1.mem[addr];
                let nv = ror_value(s1.status, v);
                CpuView {
                    pc: (s1.pc + mode_len(m)) as u16,
                    cycles: (s1.cycles + mode_cycles(s1, m, false) + 3) as u32,
                    mem: s1.mem.update(addr, nv),
                    status: set_zn(shr_status(s1.status, v), nv),
                    ..s1
                }
            },
        },
        Op::TransAX => CpuView {
            cycles: (s1.cycles + 1) as u32,
            x: s1.a,
            status: set_zn(s1.status, s1.a),
            ..s1
        },
        Op::TransAY => CpuView {
            cycles: (s1.cycles + 1) as u32,
            y: s1.a,
            status: set_zn(s1.status, s1.a),
            ..s1
        },
        Op::TransXA => CpuView {
            cycles: (s1.cycles + 1) as u32,
            a: s1.x,
            status: set_zn(s1.status, s1.x),
            ..s1
        },
        Op::TransYA => CpuView {
            cycles: (s1.cycles + 1) as u32,
            a: s1.y,
            status: set_zn(s1.status, s1.y),
            ..s1
        },
        Op::TransSpX => CpuView {
            cycles: (s1.cycles + 1) as u32,
            x: s1.sp,
            status: set_zn(s1.status, s1.sp),
            ..s1
        },
        Op::TransXSp => CpuView { cycles: (s1.cycles + 1) as u32, sp: s1.x, ..s1 },
        Op::IncX => {
            let nv = wrap_inc(s1.x);
            CpuView { cycles: (s1.cycles + 1) as u32, x: nv, status: set_zn(s1.status, nv), ..s1 }
        },
        Op::IncY => {
            let nv = wrap_inc(s1.y);
            CpuView { cycles: (s1.cycles + 1) as u32, y: nv, status: set_zn(s1.status, nv), ..s1 }
        },
        Op::DecX => {
            let nv = wrap_dec(s1.x);
            CpuView { cycles: (s1.cycles + 1) as u32, x: nv, status: set_zn(s1.status, nv), ..s1 }
        },
        Op::DecY => {
            let nv = wrap_dec(s1.y);
            CpuView { cycles: (s1.cycles + 1) as u32, y: nv, status: set_zn(s1.status, nv), ..s1 }
        },
        Op::PushA => CpuView {
            cycles: (s1.cycles + 2) as u32,
            sp: wrap_dec(s1.sp),
            mem: s1.mem.update(stack_addr(s1.sp), s1.a),
            ..s1
        },
        Op::PushStatus => CpuView {
            cycles: (s1.cycles + 2) as u32,
            sp: wrap_dec(s1.sp),
            mem: s1.mem.update(stack_addr(s1.sp), s1.status),
            ..s1
        },
        Op::PullA => {
            let sp1 = wrap_inc(s1.sp);
            let v = s1.mem[stack_addr(sp1)];
            CpuView {
                cycles: (s1.cycles + 3) as u32,
                sp: sp1,
                a: v,
                status: set_zn(s1.status, v),
                ..s1
            }
        },
        Op::PullStatus => {
            let sp1 = wrap_inc(s1.sp);
            CpuView {
                cycles: (s1.cycles + 3) as u32,
                sp: sp1,
                status: s1.mem[stack_addr(sp1)],
                ..s1
            }
        },
        Op::Branch(mask, when_set) => {
            let cond = ((s1.status & mask) != 0) == when_set;
            let pc2 = (s1.pc + 1) as u16;
            if !cond {
                CpuView { pc: pc2, cycles: (s1.cycles + 1) as u32, ..s1 }
            } else {
                let t = branch_target(s1);
                let cross: nat = if t / 256 != pc2 as int / 256 {
                    1
                } else {
                    0
                };
                CpuView { pc: t as u16, cycles: (s1.cycles + 2 + cross) as u32, ..s1 }
            }
        },
        Op::FlagClear(mask) => CpuView {
            cycles: (s1.cycles + 1) as u32,
            status: s1.status & !mask,
            ..s1
        },
        Op::FlagSet(mask) => CpuView {
            cycles: (s1.cycles + 1) as u32,
            status: s1.status | mask,
            ..s1
        },
        Op::Nop => CpuView { cycles: (s1.cycles + 1) as u32, ..s1 },
        Op::Brk => {
            let hi = (s1.pc / 256) as u8;
            let lo = (s1.pc % 256) as u8;
            let sp1 = wrap_dec(s1.sp);
            let sp2 = wrap_dec(sp1);
            let mem2 = s1.mem.update(stack_addr(s1.sp), hi).update(stack_addr(sp1), lo).update(
                stack_addr(sp2),
                s1.status | FLAG_BREAK,
            );
            CpuView {
                pc: lo_hi(mem2[IRQ_VECTOR_ADDR as int], mem2[IRQ_VECTOR_ADDR as int + 1]) as u16,
                sp: wrap_dec(sp2),
                cycles: (s1.cycles + 6) as u32,
                mem: mem2,
                ..s1
            }
        },
        Op::Rti => {
            let sp1 = wrap_inc(s1.sp);
            let st = s1.mem[stack_addr(sp1)];
            let sp2 = wrap_inc(sp1);
            let lo = s1.mem[stack_addr(sp2)];
            let sp3 = wrap_inc(sp2);
            let hi = s1.mem[stack_addr(sp3)];
            CpuView {
                pc: lo_hi(lo, hi) as u16,
                sp: sp3,
                status: st,
                cycles: (s1.cycles + 5) as u32,
                ..s1
            }
        },
    }
}

/// The machine state after fetching and executing one whole instruction.
/// An unmapped opcode consumes its fetch only and changes nothing else.
pub open spec fn spec_step(s: CpuView) -> CpuView {
    let s1 = CpuView { pc: (s.pc + 1) as u16, cycles: (s.cycles + 1) as u32, ..s };
    match spec_decode(s.mem[s.pc as int]) {
        None => s1,
        Some(i) => spec_exec_instr(s1, i.mode, i.op),
    }
}

/// Whether executing the instruction at the program counter stays inside
/// the address space: the program counter may not run off the top of
/// memory while fetching, an effective address may not exceed it, and a
/// taken branch may not leave it. A violation is a fatal condition.
pub open spec fn spec_step_ok(s: CpuView) -> bool {
    match spec_decode(s.mem[s.pc as int]) {
        None => s.pc < 0xFFFF,
        Some(i) => {
            let s1 = CpuView { pc: (s.pc + 1) as u16, cycles: (s.cycles + 1) as u32, ..s };
            &&& s.pc + 1 + mode_len(i.mode) <= 0xFFFF
            &&& mode_ok(s1, i.mode, op_is_read(i.op))
            &&& match i.op {
                Op::Branch(mask, when_set) => s.pc + 2 <= 0xFFFF && ((((s1.status & mask) != 0)
                    == when_set) ==> 0 <= branch_target(s1) <= 0xFFFF),
                _ => true,
            }
        },
    }
}

/// One instruction costs at least the opcode fetch and at most seven
/// cycles in all.
pub proof fn lemma_exec_instr_cycles(s1: CpuView, m: Mode, op: Op)
    requires
        s1.cycles + 7 <= u32::MAX,
    ensures
        s1.cycles <= spec_exec_instr(s1, m, op).cycles <= s1.cycles + 7,
{
}

/// A whole instruction advances the cycle counter by one to eight cycles.
pub proof fn lemma_step_cycles(s: CpuView)
    requires
        s.cycles + 8 <= u32::MAX,
    ensures
        s.cycles < spec_step(s).cycles <= s.cycles + 8,
{
    let s1 = CpuView { pc: (s.pc + 1) as u16, cycles: (s.cycles + 1) as u32, ..s };
    match spec_decode(s.mem[s.pc as int]) {
        None => {},
        Some(i) => {
            lemma_exec_instr_cycles(s1, i.mode, i.op);
        },
    }
}

/// The outcome of running the processor: the state when the cycle target
/// was reached, or the state at which a fatal condition was met.
pub ghost enum RunResult {
    /// The run reached the cycle target; the final machine state.
    Done(CpuView),
    /// The next instruction would leave the address space; the state just
    /// before it.
    Fault(CpuView),
}

/// Repeatedly executes whole instructions until the cycle counter reaches
/// `target`, checking after each instruction, or until an instruction
/// would be fatal.
pub open spec fn spec_run(s: CpuView, target: int) -> RunResult
    decreases target - s.cycles,
        when s.cycles + 8 <= u32::MAX && target + 8 <= u32::MAX
{
    if !spec_step_ok(s) {
        RunResult::Fault(s)
    } else {
        let s2 = spec_step(s);
        if s2.cycles >= target {
            RunResult::Done(s2)
        } else {
            proof {
                lemma_step_cycles(s);
            }
            spec_run(s2, target)
        }
    }
}

} // verus!
