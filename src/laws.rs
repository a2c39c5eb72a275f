//! Properties of the instruction set that span several instructions or hold
//! of every state.
use vstd::prelude::*;

use crate::cpu::Cpu;
use crate::flags::{lemma_flags_round_trip, Flag};
use crate::ops::{decode, AddressingMode, Op, Register, JSR_ABSOLUTE, RTS_IMPLIED};
use crate::semantics::{
    add_with_carry, call, interrupt, lemma_wrap16, lemma_wrap8, page_crossed, perform, pop,
    push, push_all, register_value, return_from_call, return_from_interrupt, set_register,
    stack_address, step, subtract_with_carry, with_pc, word_at, wrap16, wrap8,
};

verus! {

/// Writing a value to a register sets Zero exactly when the value is zero and
/// Negative exactly when its bit 7 is set.
pub proof fn lemma_register_write_flags(s: Cpu, r: Register, v: u8)
    ensures
        set_register(s, r, v).flags.zero == (v == 0),
        set_register(s, r, v).flags.negative == (v & 0x80 != 0),
        register_value(set_register(s, r, v), r) == v,
{
}

/// Subtract with carry gives the same result, Carry and Overflow as add with
/// carry of the bitwise complement of the operand.
pub proof fn lemma_subtract_is_add_of_complement(a: u8, v: u8, c: bool)
    ensures
        subtract_with_carry(a, v, c) == add_with_carry(a, !v, c),
{
    assert(!v == 255 - v) by (bit_vector);
}

/// Pushing `vs` moves the stack pointer up by their number, modulo 256.
pub proof fn lemma_push_all_moves_stack_pointer(s: Cpu, m: Seq<u8>, vs: Seq<u8>)
    ensures
        push_all(s, m, vs).0.stack_pointer == wrap8(s.stack_pointer + vs.len()),
    decreases vs.len(),
{
    if vs.len() == 0 {
        lemma_wrap8(s.stack_pointer as int);
    } else {
        let p = push(s, m, vs[0]);
        lemma_push_all_moves_stack_pointer(p.0, p.1, vs.drop_first());
        lemma_wrap8(s.stack_pointer + 1);
        let n = vs.len() - 1;
        assert(wrap8(p.0.stack_pointer + n) == wrap8(s.stack_pointer + vs.len())) by {
            assert(p.0.stack_pointer == (s.stack_pointer + 1) % 256);
            assert(((s.stack_pointer + 1) % 256 + n) % 256 == (s.stack_pointer + 1 + n) % 256)
                by (nonlinear_arith)
                requires
                    n >= 0,
            ;
        }
    }
}

/// Pushing 256 bytes in a row brings the stack pointer back to where it was.
pub proof fn lemma_stack_wraps_after_256_pushes(s: Cpu, m: Seq<u8>, vs: Seq<u8>)
    requires
        vs.len() == 256,
    ensures
        push_all(s, m, vs).0.stack_pointer == s.stack_pointer,
{
    lemma_push_all_moves_stack_pointer(s, m, vs);
    assert(wrap8(s.stack_pointer + 256) == s.stack_pointer);
}

/// Cycle cost of a load through absolute indexed addressing: four cycles
/// (opcode, two operand bytes, the read) when the indexed address stays in
/// the page of the base address, five when it crosses into the next page.
pub proof fn lemma_absolute_indexed_load_cycles(s: Cpu, m: Seq<u8>)
    requires
        m.len() == 0x10000,
        decode(m[s.program_counter as int]) matches Some(Op::Load(_, mode)) && (mode
            == AddressingMode::AbsoluteX || mode == AddressingMode::AbsoluteY),
    ensures
        ({
            let pc = wrap16(s.program_counter + 1);
            let base = word_at(m, pc);
            let index = match decode(m[s.program_counter as int]) {
                Some(Op::Load(_, AddressingMode::AbsoluteX)) => s.register_x,
                _ => s.register_y,
            };
            step(s, m).2 == if page_crossed(base, wrap16(base + index)) {
                5nat
            } else {
                4nat
            }
        }),
{
    reveal(perform);
}

/// A subroutine round trip: a call to `$2040`, where a return instruction
/// waits, brings the program counter to the instruction after the call and
/// the stack pointer back to its value before it.
pub proof fn lemma_call_then_return(s: Cpu, m: Seq<u8>)
    requires
        m.len() == 0x10000,
        m[s.program_counter as int] == JSR_ABSOLUTE,
        m[wrap16(s.program_counter + 1) as int] == 0x40,
        m[wrap16(s.program_counter + 2) as int] == 0x20,
        m[0x2040] == RTS_IMPLIED,
    ensures
        ({
            let first = step(s, m);
            let second = step(first.0, first.1);
            second.0.program_counter == wrap16(s.program_counter + 3)
                && second.0.stack_pointer == s.stack_pointer
        }),
{
    let pc = s.program_counter;
    let sp = s.stack_pointer;
    lemma_wrap16(pc + 1);
    lemma_wrap16(pc + 2);
    lemma_wrap16(pc + 3);
    lemma_wrap16(wrap16(pc + 1) + 1);
    lemma_wrap8(sp + 1);
    lemma_wrap8(wrap8(sp + 1) + 1);
    // the call
    let s1 = with_pc(s, wrap16(pc + 1));
    assert(decode(JSR_ABSOLUTE) == Some(Op::JumpToSubroutine)) by {
        reveal(decode);
    }
    let c = call(s1, m);
    assert(perform(s1, m, Op::JumpToSubroutine) == (c.0, c.1, 5nat)) by {
        reveal(perform);
    }
    let back = wrap16(pc + 2);
    assert(word_at(m, wrap16(pc + 1)) == 0x2040);
    assert(c.0.program_counter == 0x2040);
    assert(c.0.stack_pointer == wrap8(wrap8(sp + 1) + 1));
    assert(c.1[0x2040] == RTS_IMPLIED);
    assert(c.1[stack_address(sp) as int] == (back % 256) as u8);
    assert(c.1[stack_address(wrap8(sp + 1)) as int] == (back / 256) as u8);
    // the return
    let s2 = with_pc(c.0, 0x2041);
    assert(decode(RTS_IMPLIED) == Some(Op::ReturnFromSubroutine)) by {
        reveal(decode);
    }
    assert(perform(s2, c.1, Op::ReturnFromSubroutine) == (return_from_call(s2, c.1), c.1, 5nat))
        by {
        reveal(perform);
    }
    let high = pop(s2, c.1);
    let low = pop(high.0, c.1);
    lemma_wrap8(c.0.stack_pointer - 1);
    lemma_wrap8(high.0.stack_pointer - 1);
    assert(high.0.stack_pointer == wrap8(sp + 1));
    assert(low.0.stack_pointer == sp);
    assert(high.1 == (back / 256) as u8);
    assert(low.1 == (back % 256) as u8);
    assert(high.1 * 256 + low.1 == back);
    lemma_wrap16(back + 1);
}

/// Pushing the status flags and pulling them back restores the flags and the
/// stack pointer.
pub proof fn lemma_status_push_pull_round_trip(s: Cpu, m: Seq<u8>)
    requires
        m.len() == 0x10000,
    ensures
        ({
            let pushed = perform(s, m, Op::PushStatus);
            let pulled = perform(pushed.0, pushed.1, Op::PullStatus);
            pulled.0.flags == s.flags && pulled.0.stack_pointer == s.stack_pointer
        }),
{
    reveal(perform);
    lemma_wrap8(s.stack_pointer + 1);
    lemma_wrap8(wrap8(s.stack_pointer + 1) - 1);
    lemma_flags_round_trip(s.flags);
}

/// A break followed by a return from interrupt restores the program counter
/// saved by the break, the stack pointer, and the flags, with Break clear.
pub proof fn lemma_break_then_return_from_interrupt(s: Cpu, m: Seq<u8>)
    requires
        m.len() == 0x10000,
    ensures
        ({
            let b = interrupt(s, m);
            let r = return_from_interrupt(b.0, b.1);
            r.program_counter == s.program_counter && r.stack_pointer == s.stack_pointer
                && r.flags == s.flags.with_flag(Flag::BreakCommand, false)
        }),
{
    let sp = s.stack_pointer;
    let pc = s.program_counter;
    lemma_wrap8(sp + 1);
    lemma_wrap8(wrap8(sp + 1) + 1);
    lemma_wrap8(wrap8(wrap8(sp + 1) + 1) + 1);
    lemma_flags_round_trip(s.flags);
    let b = interrupt(s, m);
    let status = pop(b.0, b.1);
    let high = pop(status.0, b.1);
    let low = pop(high.0, b.1);
    lemma_wrap8(b.0.stack_pointer - 1);
    lemma_wrap8(status.0.stack_pointer - 1);
    lemma_wrap8(high.0.stack_pointer - 1);
    assert(status.0.stack_pointer == wrap8(wrap8(sp + 1) + 1));
    assert(high.0.stack_pointer == wrap8(sp + 1));
    assert(low.0.stack_pointer == sp);
    assert(status.1 == s.flags.packed());
    assert(high.1 == (pc / 256) as u8);
    assert(low.1 == (pc % 256) as u8);
    assert(high.1 * 256 + low.1 == pc);
}

} // verus!
