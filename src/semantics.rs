//! The instruction set as mathematics: what one instruction does to the
//! processor state and to memory, and how many cycles it costs.
use vstd::prelude::*;

use crate::cpu::{Cpu, OperatingMode, IRQ_INTERRUPT_VECTOR, STACK_BASE};
use crate::flags::{CpuStatusFlags, Flag, NEGATIVE_BIT, OVERFLOW_BIT};
use crate::ops::{decode, AddressingMode, LogicalOperation, Op, Register};

verus! {

/// `x` reduced to a byte, as 8-bit wrapping arithmetic does.
pub open spec fn wrap8(x: int) -> u8 {
    (x % 256) as u8
}

/// `x` reduced to 16 bits, as address arithmetic does.
pub open spec fn wrap16(x: int) -> u16 {
    (x % 65536) as u16
}

/// A byte read as a two's-complement number.
pub open spec fn signed_byte(v: u8) -> int {
    if v < 128 {
        v as int
    } else {
        v - 256
    }
}

/// Bit 7, the sign bit, of a byte.
pub open spec fn is_negative(v: u8) -> bool {
    v & NEGATIVE_BIT != 0
}

/// Whether two addresses lie in different 256-byte pages.
pub open spec fn page_crossed(a: u16, b: u16) -> bool {
    a / 256 != b / 256
}

/// The little-endian word held at `a` (low byte) and the address after it
/// (high byte).
pub open spec fn word_at(m: Seq<u8>, a: u16) -> u16 {
    (m[a as int] + 256 * m[wrap16(a + 1) as int]) as u16
}

/// The address in the stack page that a stack pointer designates.
pub open spec fn stack_address(sp: u8) -> u16 {
    (STACK_BASE + sp) as u16
}

pub open spec fn with_pc(s: Cpu, pc: u16) -> Cpu {
    Cpu { program_counter: pc, ..s }
}

pub open spec fn with_flags(s: Cpu, flags: CpuStatusFlags) -> Cpu {
    Cpu { flags, ..s }
}

/// Zero and Negative as a value written to a register sets them.
pub open spec fn with_zn(f: CpuStatusFlags, v: u8) -> CpuStatusFlags {
    CpuStatusFlags { zero: v == 0, negative: is_negative(v), ..f }
}

/// Carry, Zero and Negative after a shift or rotate that yields `v`.
pub open spec fn with_czn(f: CpuStatusFlags, carry: bool, v: u8) -> CpuStatusFlags {
    CpuStatusFlags { carry, ..with_zn(f, v) }
}

pub open spec fn register_value(s: Cpu, r: Register) -> u8 {
    match r {
        Register::A => s.register_accumulator,
        Register::X => s.register_x,
        Register::Y => s.register_y,
    }
}

/// `s` with register `r` holding `v` and Zero and Negative set from `v`.
pub open spec fn set_register(s: Cpu, r: Register, v: u8) -> Cpu {
    let t = match r {
        Register::A => Cpu { register_accumulator: v, ..s },
        Register::X => Cpu { register_x: v, ..s },
        Register::Y => Cpu { register_y: v, ..s },
    };
    with_flags(t, with_zn(s.flags, v))
}

// ---------------------------------------------------------------- arithmetic

/// Add with carry: the result byte, Carry out and Overflow.
/// Overflow is set when the true signed sum does not fit in a signed byte.
pub open spec fn add_with_carry(a: u8, v: u8, carry: bool) -> (u8, bool, bool) {
    let c: int = if carry {
        1
    } else {
        0
    };
    let sum = a + v + c;
    let signed_sum = signed_byte(a) + signed_byte(v) + c;
    (wrap8(sum), sum > 255, signed_sum < -128 || signed_sum > 127)
}

/// Subtract with carry (the carry is the inverted borrow): the result byte,
/// Carry out (no borrow) and Overflow.
pub open spec fn subtract_with_carry(a: u8, v: u8, carry: bool) -> (u8, bool, bool) {
    let borrow: int = if carry {
        0
    } else {
        1
    };
    let difference = a - v - borrow;
    let signed_difference = signed_byte(a) - signed_byte(v) - borrow;
    (
        wrap8(difference),
        difference >= 0,
        signed_difference < -128 || signed_difference > 127,
    )
}

/// Flags after an add or subtract: Carry, Overflow, then Zero and Negative.
pub open spec fn with_arithmetic(f: CpuStatusFlags, r: (u8, bool, bool)) -> CpuStatusFlags {
    CpuStatusFlags { carry: r.1, overflow: r.2, ..with_zn(f, r.0) }
}

pub open spec fn logical(op: LogicalOperation, a: u8, v: u8) -> u8 {
    match op {
        LogicalOperation::And => a & v,
        LogicalOperation::Or => a | v,
        LogicalOperation::Xor => a ^ v,
    }
}

/// Flags after comparing register value `r` with operand `v`.
pub open spec fn compare(f: CpuStatusFlags, r: u8, v: u8) -> CpuStatusFlags {
    CpuStatusFlags { carry: r >= v, zero: r == v, negative: is_negative(wrap8(r - v)), ..f }
}

/// Flags after a bit test of operand `v` against accumulator `a`.
pub open spec fn bit_test(f: CpuStatusFlags, a: u8, v: u8) -> CpuStatusFlags {
    CpuStatusFlags {
        zero: v & a == 0,
        overflow: v & OVERFLOW_BIT != 0,
        negative: v & NEGATIVE_BIT != 0,
        ..f
    }
}

pub open spec fn carry_bit(c: bool) -> u8 {
    if c {
        1
    } else {
        0
    }
}

/// A shift or rotate of `v` with carry in `c`: the result and the carry out.
pub open spec fn shift(op: Op, v: u8, c: bool) -> (u8, bool) {
    match op {
        Op::ShiftLeft(_) => (v << 1u8, v & 0x80 != 0),
        Op::ShiftRight(_) => (v >> 1u8, v & 0x01 != 0),
        Op::RotateLeft(_) => ((v << 1u8) | carry_bit(c), v & 0x80 != 0),
        _ => ((v >> 1u8) | (carry_bit(c) << 7u8), v & 0x01 != 0),
    }
}

/// Flags after a shift or rotate that yields `r`. A right shift always
/// clears Negative, since bit 7 of its result is zero.
pub open spec fn shift_flags(op: Op, f: CpuStatusFlags, r: (u8, bool)) -> CpuStatusFlags {
    match op {
        Op::ShiftRight(_) => CpuStatusFlags { negative: false, ..with_czn(f, r.1, r.0) },
        _ => with_czn(f, r.1, r.0),
    }
}

// ------------------------------------------------------------------ the stack

/// Push `v`: write it at the stack pointer, then move the pointer up.
pub open spec fn push(s: Cpu, m: Seq<u8>, v: u8) -> (Cpu, Seq<u8>) {
    (
        Cpu { stack_pointer: wrap8(s.stack_pointer + 1), ..s },
        m.update(stack_address(s.stack_pointer) as int, v),
    )
}

/// Pop: move the stack pointer down, then read the byte it designates.
pub open spec fn pop(s: Cpu, m: Seq<u8>) -> (Cpu, u8) {
    let sp = wrap8(s.stack_pointer - 1);
    (Cpu { stack_pointer: sp, ..s }, m[stack_address(sp) as int])
}

/// Push the bytes of `vs` in order.
pub open spec fn push_all(s: Cpu, m: Seq<u8>, vs: Seq<u8>) -> (Cpu, Seq<u8>)
    decreases vs.len(),
{
    if vs.len() == 0 {
        (s, m)
    } else {
        let p = push(s, m, vs[0]);
        push_all(p.0, p.1, vs.drop_first())
    }
}

// ----------------------------------------------------------------- addressing

/// Where a jump through the pointer at `ptr` goes. The legacy part reads the
/// high byte of a pointer that ends a page from the start of that same page.
pub open spec fn indirect_target(mode: OperatingMode, m: Seq<u8>, ptr: u16) -> u16 {
    let high = match mode {
        OperatingMode::Mos => if ptr % 256 == 255 {
            (ptr - 255) as u16
        } else {
            wrap16(ptr + 1)
        },
        OperatingMode::Wdc => wrap16(ptr + 1),
    };
    (m[ptr as int] + 256 * m[high as int]) as u16
}

/// The cycle an indexed access adds: always for a write, only on a page
/// crossing for a read.
pub open spec fn index_cycle(write: bool, base: u16, address: u16) -> nat {
    if write || page_crossed(base, address) {
        1
    } else {
        0
    }
}

/// Resolve the operand of an instruction whose operand bytes start at the
/// program counter of `s`: the effective address, the program counter after
/// the operand, and the cycles spent (operand fetches, pointer reads and
/// index additions, but not the access to the effective address itself).
/// `write` marks stores and read-modify-write instructions.
pub open spec fn operand(s: Cpu, m: Seq<u8>, mode: AddressingMode, write: bool) -> (u16, u16, nat) {
    let pc = s.program_counter;
    let next = wrap16(pc + 1);
    let after_word = wrap16(pc + 2);
    let b = m[pc as int];
    match mode {
        AddressingMode::Immediate => (pc, next, 0),
        AddressingMode::ZeroPage => (b as u16, next, 1),
        AddressingMode::ZeroPageX => (wrap8(b + s.register_x) as u16, next, 2),
        AddressingMode::ZeroPageY => (wrap8(b + s.register_y) as u16, next, 2),
        AddressingMode::Absolute => (word_at(m, pc), after_word, 2),
        AddressingMode::AbsoluteX => {
            let base = word_at(m, pc);
            let address = wrap16(base + s.register_x);
            (address, after_word, 2 + index_cycle(write, base, address))
        },
        AddressingMode::AbsoluteY => {
            let base = word_at(m, pc);
            let address = wrap16(base + s.register_y);
            (address, after_word, 2 + index_cycle(write, base, address))
        },
        AddressingMode::Indirect => (indirect_target(s.mode, m, word_at(m, pc)), after_word, 4),
        AddressingMode::IndirectX => (word_at(m, wrap8(b + s.register_x) as u16), next, 4),
        AddressingMode::IndirectY => {
            let base = word_at(m, b as u16);
            let address = wrap16(base + s.register_y);
            (address, next, 3 + index_cycle(write, base, address))
        },
        // No operand bytes.
        _ => (pc, pc, 0),
    }
}

// --------------------------------------------------------------- control flow

/// A conditional branch whose offset byte is at the program counter: the new
/// state and the cycles spent (the offset fetch, one more when taken, and
/// another when the target lies in a different page).
pub open spec fn branch(s: Cpu, m: Seq<u8>, flag: Flag, state: bool) -> (Cpu, nat) {
    let offset = m[s.program_counter as int];
    let next = wrap16(s.program_counter + 1);
    if s.flags.flag(flag) == state {
        let target = wrap16(next + signed_byte(offset));
        (with_pc(s, target), if page_crossed(next, target) {
            3nat
        } else {
            2nat
        })
    } else {
        (with_pc(s, next), 1)
    }
}

/// A subroutine call whose target word is at the program counter: push the
/// address of the last byte of the call, low byte first, and jump.
pub open spec fn call(s: Cpu, m: Seq<u8>) -> (Cpu, Seq<u8>) {
    let target = word_at(m, s.program_counter);
    let back = wrap16(s.program_counter + 1);
    let low = push(s, m, (back % 256) as u8);
    let high = push(low.0, low.1, (back / 256) as u8);
    (with_pc(high.0, target), high.1)
}

/// A return from a subroutine: pop the high and then the low byte of the
/// saved address, and continue one past it.
pub open spec fn return_from_call(s: Cpu, m: Seq<u8>) -> Cpu {
    let high = pop(s, m);
    let low = pop(high.0, m);
    with_pc(low.0, wrap16(high.1 * 256 + low.1 + 1))
}

/// The software interrupt: push the program counter, low byte first, then
/// the flags; continue at the address held in the interrupt vector with
/// Break set.
pub open spec fn interrupt(s: Cpu, m: Seq<u8>) -> (Cpu, Seq<u8>) {
    let pc = s.program_counter;
    let low = push(s, m, (pc % 256) as u8);
    let high = push(low.0, low.1, (pc / 256) as u8);
    let p = push(high.0, high.1, s.flags.packed());
    let t = with_pc(p.0, word_at(p.1, IRQ_INTERRUPT_VECTOR));
    (with_flags(t, t.flags.with_flag(Flag::BreakCommand, true)), p.1)
}

/// The return from an interrupt: pop the flags, then the high and the low
/// byte of the program counter; Break ends up clear.
pub open spec fn return_from_interrupt(s: Cpu, m: Seq<u8>) -> Cpu {
    let status = pop(s, m);
    let high = pop(status.0, m);
    let low = pop(high.0, m);
    let f = CpuStatusFlags::unpacked(status.1).with_flag(Flag::BreakCommand, false);
    with_flags(with_pc(low.0, (high.1 * 256 + low.1) as u16), f)
}

// --------------------------------------------------------------- instructions

/// What `op` does when its operand bytes start at the program counter of `s`:
/// the new state, the new memory, and the cycles spent after the opcode fetch.
#[verifier::opaque]
pub open spec fn perform(s: Cpu, m: Seq<u8>, op: Op) -> (Cpu, Seq<u8>, nat) {
    match op {
        Op::Load(r, mode) => {
            let o = operand(s, m, mode, false);
            (set_register(with_pc(s, o.1), r, m[o.0 as int]), m, o.2 + 1)
        },
        Op::Store(r, mode) => {
            let o = operand(s, m, mode, true);
            (with_pc(s, o.1), m.update(o.0 as int, register_value(s, r)), o.2 + 1)
        },
        Op::Transfer(from, to) => (set_register(s, to, register_value(s, from)), m, 1),
        Op::TransferStackPointerToX => (set_register(s, Register::X, s.stack_pointer), m, 1),
        Op::TransferXToStackPointer => (Cpu { stack_pointer: s.register_x, ..s }, m, 1),
        Op::PushAccumulator => {
            let p = push(s, m, s.register_accumulator);
            (p.0, p.1, 2)
        },
        Op::PushStatus => {
            let p = push(s, m, s.flags.packed());
            (p.0, p.1, 2)
        },
        Op::PullAccumulator => {
            let p = pop(s, m);
            (set_register(p.0, Register::A, p.1), m, 3)
        },
        Op::PullStatus => {
            let p = pop(s, m);
            (with_flags(p.0, CpuStatusFlags::unpacked(p.1)), m, 3)
        },
        Op::Logical(l, mode) => {
            let o = operand(s, m, mode, false);
            let v = logical(l, s.register_accumulator, m[o.0 as int]);
            (set_register(with_pc(s, o.1), Register::A, v), m, o.2 + 1)
        },
        Op::BitTest(mode) => {
            let o = operand(s, m, mode, false);
            let f = bit_test(s.flags, s.register_accumulator, m[o.0 as int]);
            (with_flags(with_pc(s, o.1), f), m, o.2 + 1)
        },
        Op::AddWithCarry(mode) => {
            let o = operand(s, m, mode, false);
            let r = add_with_carry(s.register_accumulator, m[o.0 as int], s.flags.carry);
            let t = Cpu { register_accumulator: r.0, ..with_pc(s, o.1) };
            (with_flags(t, with_arithmetic(s.flags, r)), m, o.2 + 1)
        },
        Op::SubtractWithCarry(mode) => {
            let o = operand(s, m, mode, false);
            let r = subtract_with_carry(s.register_accumulator, m[o.0 as int], s.flags.carry);
            let t = Cpu { register_accumulator: r.0, ..with_pc(s, o.1) };
            (with_flags(t, with_arithmetic(s.flags, r)), m, o.2 + 1)
        },
        Op::Compare(r, mode) => {
            let o = operand(s, m, mode, false);
            let f = compare(s.flags, register_value(s, r), m[o.0 as int]);
            (with_flags(with_pc(s, o.1), f), m, o.2 + 1)
        },
        Op::IncrementMemory(mode) => {
            let o = operand(s, m, mode, true);
            let v = wrap8(m[o.0 as int] + 1);
            (with_flags(with_pc(s, o.1), with_zn(s.flags, v)), m.update(o.0 as int, v), o.2 + 3)
        },
        Op::DecrementMemory(mode) => {
            let o = operand(s, m, mode, true);
            let v = wrap8(m[o.0 as int] - 1);
            (with_flags(with_pc(s, o.1), with_zn(s.flags, v)), m.update(o.0 as int, v), o.2 + 3)
        },
        Op::IncrementRegister(r) => (set_register(s, r, wrap8(register_value(s, r) + 1)), m, 1),
        Op::DecrementRegister(r) => (set_register(s, r, wrap8(register_value(s, r) - 1)), m, 1),
        Op::ShiftLeft(mode) | Op::ShiftRight(mode) | Op::RotateLeft(mode) | Op::RotateRight(
            mode,
        ) => {
            if mode == AddressingMode::Accumulator {
                let r = shift(op, s.register_accumulator, s.flags.carry);
                let t = Cpu { register_accumulator: r.0, ..s };
                (with_flags(t, shift_flags(op, s.flags, r)), m, 1)
            } else {
                let o = operand(s, m, mode, true);
                let r = shift(op, m[o.0 as int], s.flags.carry);
                (
                    with_flags(with_pc(s, o.1), shift_flags(op, s.flags, r)),
                    m.update(o.0 as int, r.0),
                    o.2 + 3,
                )
            }
        },
        Op::Jump(mode) => {
            let o = operand(s, m, mode, false);
            (with_pc(s, o.0), m, o.2)
        },
        Op::JumpToSubroutine => {
            let c = call(s, m);
            (c.0, c.1, 5)
        },
        Op::ReturnFromSubroutine => (return_from_call(s, m), m, 5),
        Op::Branch(flag, state) => {
            let b = branch(s, m, flag, state);
            (b.0, m, b.1)
        },
        Op::SetFlag(flag, value) => (with_flags(s, s.flags.with_flag(flag, value)), m, 1),
        Op::Break => {
            let b = interrupt(s, m);
            (b.0, b.1, 6)
        },
        Op::NoOperation => (s, m, 1),
        Op::ReturnFromInterrupt => (return_from_interrupt(s, m), m, 5),
    }
}

/// One instruction: fetch the opcode at the program counter (one cycle),
/// then perform what the table says it means. An illegal opcode does nothing
/// beyond its fetch. Returns the new state, the new memory and the cycles
/// spent.
pub open spec fn step(s: Cpu, m: Seq<u8>) -> (Cpu, Seq<u8>, nat) {
    let fetched = with_pc(s, wrap16(s.program_counter + 1));
    match decode(m[s.program_counter as int]) {
        Some(op) => {
            let r = perform(fetched, m, op);
            (r.0, r.1, r.2 + 1)
        },
        None => (fetched, m, 1),
    }
}

/// Instructions one after another while the budget is positive. Returns the
/// state, the memory and the budget left, which may be below zero.
pub open spec fn run(s: Cpu, m: Seq<u8>, cycles: int) -> (Cpu, Seq<u8>, int)
    decreases if cycles > 0 {
        cycles
    } else {
        0
    },
{
    if cycles <= 0 {
        (s, m, cycles)
    } else {
        let r = step(s, m);
        proof {
            lemma_step_spends_a_cycle(s, m);
        }
        run(r.0, r.1, cycles - r.2)
    }
}

/// `wrap16` on the values that one addition or subtraction can give.
pub proof fn lemma_wrap16(x: int)
    requires
        -65536 <= x < 2 * 65536,
    ensures
        0 <= x < 65536 ==> wrap16(x) == x,
        x < 0 ==> wrap16(x) == x + 65536,
        x >= 65536 ==> wrap16(x) == x - 65536,
{
}

/// `wrap8` on the values that one addition or subtraction can give.
pub proof fn lemma_wrap8(x: int)
    requires
        -256 <= x < 2 * 256,
    ensures
        0 <= x < 256 ==> wrap8(x) == x,
        x < 0 ==> wrap8(x) == x + 256,
        x >= 256 ==> wrap8(x) == x - 256,
{
}

/// Every instruction spends at least one cycle, so `run` ends.
pub proof fn lemma_step_spends_a_cycle(s: Cpu, m: Seq<u8>)
    ensures
        step(s, m).2 >= 1,
{
    reveal(decode);
    match decode(m[s.program_counter as int]) {
        Some(op) => {},
        None => {},
    }
}

} // verus!
