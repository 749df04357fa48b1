//! Machine-checked laws of the processor model: what every load and store
//! does, and the two round trips through the stack (push/pull and
//! BRK/RTI).
use crate::model::{
    lo_hi, mode_addr, set_zn, spec_decode, spec_step, spec_step_ok, spec_value, stack_addr,
    wrap_dec, wrap_inc, CpuView, Instr, FLAG_BREAK, FLAG_CARRY, FLAG_DECIMAL, FLAG_INTERRUPT,
    FLAG_NEGATIVE, FLAG_OVERFLOW, FLAG_ZERO,
};
use crate::model::wf_view;
use crate::model::IRQ_VECTOR_ADDR;
use crate::Cpu;
use vstd::prelude::*;

verus! {

/// The status bits that deriving the zero and negative flags never
/// touches: carry, interrupt-disable, decimal, break and overflow.
pub open spec fn zn_untouched_mask() -> u8 {
    FLAG_CARRY | FLAG_INTERRUPT | FLAG_DECIMAL | FLAG_BREAK | FLAG_OVERFLOW
}

/// Deriving the zero and negative flags sets the zero flag iff the value
/// is zero, the negative flag iff the value's bit 7 is set, and leaves
/// every other status bit exactly as it was.
pub proof fn lemma_set_zn_flags(st: u8, v: u8)
    ensures
        set_zn(st, v) & FLAG_ZERO != 0 <==> v == 0,
        set_zn(st, v) & FLAG_NEGATIVE != 0 <==> v & 0x80 != 0,
        set_zn(st, v) & zn_untouched_mask() == st & zn_untouched_mask(),
{
    assert(set_zn(st, v) & FLAG_ZERO != 0 <==> v == 0) by (bit_vector);
    assert(set_zn(st, v) & FLAG_NEGATIVE != 0 <==> v & 0x80 != 0) by (bit_vector);
    assert(set_zn(st, v) & (FLAG_CARRY | FLAG_INTERRUPT | FLAG_DECIMAL | FLAG_BREAK
        | FLAG_OVERFLOW) == st & (FLAG_CARRY | FLAG_INTERRUPT | FLAG_DECIMAL | FLAG_BREAK
        | FLAG_OVERFLOW)) by (bit_vector);
}

/// Law: every load instruction, in every addressing mode, puts the operand
/// value into its destination register, sets the zero flag iff that value
/// is zero and the negative flag iff its bit 7 is set, and never alters
/// carry, overflow, decimal, interrupt-disable or break.
pub proof fn lemma_load_semantics(s: CpuView, i: Instr)
    requires
        wf_view(s),
        spec_step_ok(s),
        spec_decode(s.mem[s.pc as int]) == Some(i),
        i.op is LoadA || i.op is LoadX || i.op is LoadY,
    ensures
        ({
            let s1 = CpuView { pc: (s.pc + 1) as u16, cycles: (s.cycles + 1) as u32, ..s };
            let v = spec_value(s1, i.mode);
            let post = spec_step(s);
            &&& (i.op is LoadA ==> post.a == v)
            &&& (i.op is LoadX ==> post.x == v)
            &&& (i.op is LoadY ==> post.y == v)
            &&& (post.status & FLAG_ZERO != 0 <==> v == 0)
            &&& (post.status & FLAG_NEGATIVE != 0 <==> v & 0x80 != 0)
            &&& post.status & zn_untouched_mask() == s.status & zn_untouched_mask()
            &&& post.mem == s.mem
        }),
{
    let s1 = CpuView { pc: (s.pc + 1) as u16, cycles: (s.cycles + 1) as u32, ..s };
    let v = spec_value(s1, i.mode);
    lemma_set_zn_flags(s.status, v);
}

/// Law: every store instruction, in every addressing mode, writes the
/// source register's value to the resolved address, changes no other
/// memory byte, no register and no flag.
pub proof fn lemma_store_semantics(s: CpuView, i: Instr)
    requires
        wf_view(s),
        spec_step_ok(s),
        spec_decode(s.mem[s.pc as int]) == Some(i),
        i.op is StoreA || i.op is StoreX || i.op is StoreY,
    ensures
        ({
            let s1 = CpuView { pc: (s.pc + 1) as u16, cycles: (s.cycles + 1) as u32, ..s };
            let addr = mode_addr(s1, i.mode, false);
            let src = if i.op is StoreA {
                s.a
            } else if i.op is StoreX {
                s.x
            } else {
                s.y
            };
            let post = spec_step(s);
            &&& post.mem == s.mem.update(addr, src)
            &&& post.status == s.status
            &&& post.a == s.a
            &&& post.x == s.x
            &&& post.y == s.y
            &&& post.sp == s.sp
        }),
{
}

/// Law: pushing the accumulator and pulling it straight back restores both
/// the accumulator and the stack pointer, provided the pushed byte does
/// not land on the pull instruction itself.
pub proof fn lemma_push_pull_round_trip(s: CpuView)
    requires
        wf_view(s),
        s.mem[s.pc as int] == Cpu::PUSH_A_TO_SP,
        s.mem[s.pc as int + 1] == Cpu::PULL_SP_TO_A,
        s.pc + 2 <= 0xFFFF,
        s.cycles + 16 <= u32::MAX,
        stack_addr(s.sp) != s.pc + 1,
    ensures
        ({
            let s2 = spec_step(spec_step(s));
            &&& s2.a == s.a
            &&& s2.sp == s.sp
            &&& s2.pc == s.pc + 2
        }),
{
    assert(wrap_inc(wrap_dec(s.sp)) == s.sp);
}

/// Law: pushing the status register and pulling it straight back restores
/// both the status register and the stack pointer, provided the pushed
/// byte does not land on the pull instruction itself.
pub proof fn lemma_push_pull_status_round_trip(s: CpuView)
    requires
        wf_view(s),
        s.mem[s.pc as int] == Cpu::PUSH_STAT_TO_SP,
        s.mem[s.pc as int + 1] == Cpu::PULL_SP_TO_STAT,
        s.pc + 2 <= 0xFFFF,
        s.cycles + 16 <= u32::MAX,
        stack_addr(s.sp) != s.pc + 1,
    ensures
        ({
            let s2 = spec_step(spec_step(s));
            &&& s2.status == s.status
            &&& s2.sp == s.sp
            &&& s2.pc == s.pc + 2
        }),
{
    assert(wrap_inc(wrap_dec(s.sp)) == s.sp);
}

/// Law: a BRK whose handler immediately executes RTI returns to the byte
/// after the BRK opcode with the stack pointer restored and every status
/// flag as it was, except that the break flag is set: BRK pushes the
/// status with break forced on, and RTI faithfully restores that pushed
/// copy. The handler address must not lie in the three stack slots the
/// BRK writes.
pub proof fn lemma_brk_rti_round_trip(s: CpuView)
    requires
        wf_view(s),
        s.mem[s.pc as int] == Cpu::BRK_IMPLIED,
        s.pc < 0xFFFF,
        s.cycles + 16 <= u32::MAX,
        ({
            let handler = lo_hi(s.mem[IRQ_VECTOR_ADDR as int], s.mem[IRQ_VECTOR_ADDR as int + 1]);
            &&& s.mem[handler] == Cpu::RTI_IMPLIED
            &&& handler != stack_addr(s.sp)
            &&& handler != stack_addr(wrap_dec(s.sp))
            &&& handler != stack_addr(wrap_dec(wrap_dec(s.sp)))
        }),
    ensures
        ({
            let s2 = spec_step(spec_step(s));
            &&& s2.pc == s.pc + 1
            &&& s2.status == s.status | FLAG_BREAK
            &&& s2.sp == s.sp
            &&& s2.a == s.a
            &&& s2.x == s.x
            &&& s2.y == s.y
            &&& s2.cycles == s.cycles + 13
        }),
{
    let sp1 = wrap_dec(s.sp);
    let sp2 = wrap_dec(sp1);
    assert(wrap_inc(wrap_dec(sp2)) == sp2);
    assert(wrap_inc(sp2) == sp1);
    assert(wrap_inc(sp1) == s.sp);
    let p = s.pc + 1;
    assert(lo_hi((p % 256) as u8, (p / 256) as u8) == p);
}

} // verus!

