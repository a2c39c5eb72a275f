use vstd::prelude::*;

use crate::flags::{CpuStatusFlags, Flag, NEGATIVE_BIT, OVERFLOW_BIT};
use crate::laws::lemma_subtract_is_add_of_complement;
use crate::memory::{Memory, MAX_MEMORY};
use crate::ops::{is_indirect, within_cycle_bound, AddressingMode, LogicalOperation, Op, Register};
use crate::semantics::{
    add_with_carry, bit_test, branch, call, carry_bit, compare, index_cycle, indirect_target,
    interrupt, lemma_wrap16, logical, operand, perform, pop, push, register_value,
    return_from_call, return_from_interrupt, run, set_register, shift, shift_flags, signed_byte,
    step, subtract_with_carry, with_arithmetic, with_flags, with_pc, with_zn, word_at, wrap16,
    wrap8,
};

verus! {

/// Where execution starts after a reset.
pub const RESET_VECTOR: u16 = 0xFFFC;

/// Where the break instruction finds the address of its handler.
pub const IRQ_INTERRUPT_VECTOR: u16 = 0xFFFE;

/// The first address of the stack page.
pub const STACK_BASE: u16 = 0x0100;

/// The stack pointer after a reset.
pub const STACK_TOP: u8 = 0xFF;

/// The most cycles that one instruction takes.
pub const MAX_INSTRUCTION_CYCLES: i32 = 7;

/// Which variant of the processor to follow. The two differ only in the
/// indirect jump.
#[derive(Clone, Copy, Debug, PartialEq, Eq, Structural)]
pub enum OperatingMode {
    /// The first NMOS part, with its indirect-jump defect: a pointer that ends a
    /// page (`$xxFF`) takes its high byte from `$xx00` instead of the next page.
    Mos,
    /// The later part, where that defect is fixed.
    Wdc,
}

/// The processor: its registers, its status flags and the variant it follows.
/// The variant is chosen when the processor is made.
#[derive(Clone, Copy, Debug, PartialEq, Eq, Structural)]
pub struct Cpu {
    pub program_counter: u16,
    /// An offset into the stack page.
    pub stack_pointer: u8,
    pub register_accumulator: u8,
    pub register_x: u8,
    pub register_y: u8,
    pub flags: CpuStatusFlags,
    pub mode: OperatingMode,
}

/// Memory that covers the whole 16-bit address space.
pub open spec fn full(m: Seq<u8>) -> bool {
    m.len() == MAX_MEMORY
}

impl Default for Cpu {
    /// A processor in its reset state, following the fixed variant.
    fn default() -> (r: Cpu)
        ensures
            r == Cpu::initial(OperatingMode::Wdc),
    {
        Cpu::new()
    }
}

impl Cpu {
    /// The state after a reset.
    pub open spec fn initial(mode: OperatingMode) -> Cpu {
        Cpu {
            program_counter: RESET_VECTOR,
            stack_pointer: STACK_TOP,
            register_accumulator: 0,
            register_x: 0,
            register_y: 0,
            flags: CpuStatusFlags::cleared(),
            mode,
        }
    }

    /// A processor in its reset state, following the fixed variant.
    pub fn new() -> (r: Cpu)
        ensures
            r == Cpu::initial(OperatingMode::Wdc),
    {
        Cpu::with_mode(OperatingMode::Wdc)
    }

    /// A processor in its reset state, following the given variant.
    pub fn with_mode(mode: OperatingMode) -> (r: Cpu)
        ensures
            r == Cpu::initial(mode),
    {
        Cpu {
            program_counter: RESET_VECTOR,
            stack_pointer: STACK_TOP,
            register_accumulator: 0,
            register_x: 0,
            register_y: 0,
            flags: CpuStatusFlags::empty(),
            mode,
        }
    }

    /// Return to the default reset state.
    pub fn reset(&mut self)
        ensures
            *final(self) == Cpu::initial(OperatingMode::Wdc),
    {
        *self = Cpu::new();
    }

    // ------------------------------------------------------------ memory access

    /// The byte at the program counter; the counter moves past it.
    fn fetch_byte<M: Memory<MAX_MEMORY>>(&mut self, memory: &M) -> (r: u8)
        requires
            full(memory.cells()),
        ensures
            r == memory.cells()[old(self).program_counter as int],
            *final(self) == with_pc(*old(self), wrap16(old(self).program_counter + 1)),
    {
        let byte = memory.read(self.program_counter);
        self.program_counter = self.program_counter.wrapping_add(1);
        byte
    }

    /// The little-endian word at the program counter; the counter moves past it.
    fn fetch_word<M: Memory<MAX_MEMORY>>(&mut self, memory: &M) -> (r: u16)
        requires
            full(memory.cells()),
        ensures
            r == word_at(memory.cells(), old(self).program_counter),
            *final(self) == with_pc(*old(self), wrap16(old(self).program_counter + 2)),
    {
        let low = self.fetch_byte(memory);
        let high = self.fetch_byte(memory);
        (high as u16) * 256 + low as u16
    }

    /// The little-endian word at `address`.
    fn read_word<M: Memory<MAX_MEMORY>>(memory: &M, address: u16) -> (r: u16)
        requires
            full(memory.cells()),
        ensures
            r == word_at(memory.cells(), address),
    {
        let low = memory.read(address);
        let high = memory.read(address.wrapping_add(1));
        (high as u16) * 256 + low as u16
    }

    // --------------------------------------------------------------- addressing

    /// A zero-page operand plus an index register, wrapping within the page.
    fn addr_zero_page_indexed<M: Memory<MAX_MEMORY>>(&mut self, memory: &M, index: u8) -> (r: u16)
        requires
            full(memory.cells()),
        ensures
            r == wrap8(memory.cells()[old(self).program_counter as int] + index) as u16,
            *final(self) == with_pc(*old(self), wrap16(old(self).program_counter + 1)),
    {
        let zp_address = self.fetch_byte(memory);
        zp_address.wrapping_add(index) as u16
    }

    /// An absolute operand plus an index register, and the cycles spent: two
    /// fetches, and one more on a page crossing or for a write.
    fn addr_absolute_indexed<M: Memory<MAX_MEMORY>>(
        &mut self,
        memory: &M,
        index: u8,
        write: bool,
    ) -> (r: (u16, u32))
        requires
            full(memory.cells()),
        ensures
            r.0 == wrap16(word_at(memory.cells(), old(self).program_counter) + index),
            r.1 == 2 + index_cycle(
                write,
                word_at(memory.cells(), old(self).program_counter),
                r.0,
            ),
            *final(self) == with_pc(*old(self), wrap16(old(self).program_counter + 2)),
    {
        let base = self.fetch_word(memory);
        let address = base.wrapping_add(index as u16);
        let extra: u32 = if write || base / 256 != address / 256 {
            1
        } else {
            0
        };
        (address, 2 + extra)
    }

    /// Pre-indexed indirect: the pointer at the zero-page operand plus X.
    fn addr_indirect_x<M: Memory<MAX_MEMORY>>(&mut self, memory: &M) -> (r: u16)
        requires
            full(memory.cells()),
        ensures
            r == word_at(
                memory.cells(),
                wrap8(memory.cells()[old(self).program_counter as int] + old(self).register_x)
                    as u16,
            ),
            *final(self) == with_pc(*old(self), wrap16(old(self).program_counter + 1)),
    {
        let index = self.register_x;
        let pointer = self.addr_zero_page_indexed(memory, index);
        Self::read_word(memory, pointer)
    }

    /// Post-indexed indirect: the pointer at the zero-page operand, plus Y, and
    /// the cycles spent: a fetch, two pointer reads, and one more on a page
    /// crossing or for a write.
    fn addr_indirect_y<M: Memory<MAX_MEMORY>>(&mut self, memory: &M, write: bool) -> (r: (
        u16,
        u32,
    ))
        requires
            full(memory.cells()),
        ensures
            ({
                let base = word_at(
                    memory.cells(),
                    memory.cells()[old(self).program_counter as int] as u16,
                );
                r.0 == wrap16(base + old(self).register_y) && r.1 == 3 + index_cycle(
                    write,
                    base,
                    r.0,
                )
            }),
            *final(self) == with_pc(*old(self), wrap16(old(self).program_counter + 1)),
    {
        let zp_address = self.fetch_byte(memory);
        let base = Self::read_word(memory, zp_address as u16);
        let address = base.wrapping_add(self.register_y as u16);
        let extra: u32 = if write || base / 256 != address / 256 {
            1
        } else {
            0
        };
        (address, 3 + extra)
    }

    /// The target of a jump through the pointer at the absolute operand.
    fn addr_indirect<M: Memory<MAX_MEMORY>>(&mut self, memory: &M) -> (r: u16)
        requires
            full(memory.cells()),
        ensures
            r == indirect_target(
                old(self).mode,
                memory.cells(),
                word_at(memory.cells(), old(self).program_counter),
            ),
            *final(self) == with_pc(*old(self), wrap16(old(self).program_counter + 2)),
    {
        let pointer = self.fetch_word(memory);
        let low = memory.read(pointer);
        let high_address = match self.mode {
            OperatingMode::Mos => if pointer % 256 == 255 {
                pointer - 255
            } else {
                pointer.wrapping_add(1)
            },
            OperatingMode::Wdc => pointer.wrapping_add(1),
        };
        let high = memory.read(high_address);
        (high as u16) * 256 + low as u16
    }

    /// The effective address of an operand in `mode` and the cycles spent on
    /// it; the program counter moves past the operand bytes.
    fn resolve_operand<M: Memory<MAX_MEMORY>>(
        &mut self,
        memory: &M,
        mode: AddressingMode,
        write: bool,
    ) -> (r: (u16, u32))
        requires
            full(memory.cells()),
        ensures
            operand(*old(self), memory.cells(), mode, write) == (
                r.0,
                final(self).program_counter,
                r.1 as nat,
            ),
            *final(self) == with_pc(*old(self), final(self).program_counter),
            r.1 <= 4,
            !is_indirect(mode) ==> r.1 <= 3,
    {
        match mode {
            AddressingMode::Immediate => {
                let address = self.program_counter;
                self.program_counter = self.program_counter.wrapping_add(1);
                (address, 0)
            },
            AddressingMode::ZeroPage => {
                let address = self.fetch_byte(memory);
                (address as u16, 1)
            },
            AddressingMode::ZeroPageX => {
                let index = self.register_x;
                (self.addr_zero_page_indexed(memory, index), 2)
            },
            AddressingMode::ZeroPageY => {
                let index = self.register_y;
                (self.addr_zero_page_indexed(memory, index), 2)
            },
            AddressingMode::Absolute => (self.fetch_word(memory), 2),
            AddressingMode::AbsoluteX => {
                let index = self.register_x;
                self.addr_absolute_indexed(memory, index, write)
            },
            AddressingMode::AbsoluteY => {
                let index = self.register_y;
                self.addr_absolute_indexed(memory, index, write)
            },
            AddressingMode::Indirect => (self.addr_indirect(memory), 4),
            AddressingMode::IndirectX => (self.addr_indirect_x(memory), 4),
            AddressingMode::IndirectY => self.addr_indirect_y(memory, write),
            AddressingMode::Implied | AddressingMode::Accumulator => (self.program_counter, 0),
        }
    }

    // ---------------------------------------------------------------- registers

    /// The value of a register.
    fn get_register(&self, register: Register) -> (r: u8)
        ensures
            r == register_value(*self, register),
    {
        match register {
            Register::A => self.register_accumulator,
            Register::X => self.register_x,
            Register::Y => self.register_y,
        }
    }

    /// Set Zero when `value` is zero, clear it otherwise.
    fn set_zero_flag(&mut self, value: u8)
        ensures
            *final(self) == with_flags(
                *old(self),
                CpuStatusFlags { zero: value == 0, ..old(self).flags },
            ),
    {
        self.flags.set(Flag::Zero, value == 0);
    }

    /// Set Negative to bit 7 of `value`.
    fn set_negative_flag(&mut self, value: u8)
        ensures
            *final(self) == with_flags(
                *old(self),
                CpuStatusFlags { negative: value & NEGATIVE_BIT != 0, ..old(self).flags },
            ),
    {
        self.flags.set(Flag::Negative, value & NEGATIVE_BIT != 0);
    }

    /// Write a register; Zero and Negative follow the value written.
    pub fn set_register(&mut self, register: Register, value: u8)
        ensures
            *final(self) == set_register(*old(self), register, value),
            final(self).flags.zero == (value == 0),
            final(self).flags.negative == (value & 0x80 != 0),
    {
        match register {
            Register::A => self.register_accumulator = value,
            Register::X => self.register_x = value,
            Register::Y => self.register_y = value,
        }
        self.set_zero_flag(value);
        self.set_negative_flag(value);
    }

    /// Load a register from `address`.
    fn load_register<M: Memory<MAX_MEMORY>>(&mut self, memory: &M, register: Register, address: u16)
        requires
            full(memory.cells()),
        ensures
            *final(self) == set_register(*old(self), register, memory.cells()[address as int]),
    {
        let value = memory.read(address);
        self.set_register(register, value);
    }

    /// Copy one register into another.
    fn transfer_register(&mut self, source: Register, dest: Register)
        ensures
            *final(self) == set_register(*old(self), dest, register_value(*old(self), source)),
    {
        let value = self.get_register(source);
        self.set_register(dest, value);
    }

    fn increment_register(&mut self, register: Register)
        ensures
            *final(self) == set_register(
                *old(self),
                register,
                wrap8(register_value(*old(self), register) + 1),
            ),
    {
        let value = self.get_register(register);
        self.set_register(register, value.wrapping_add(1));
    }

    fn decrement_register(&mut self, register: Register)
        ensures
            *final(self) == set_register(
                *old(self),
                register,
                wrap8(register_value(*old(self), register) - 1),
            ),
    {
        let value = self.get_register(register);
        self.set_register(register, value.wrapping_sub(1));
    }

    // ----------------------------------------------------------------------- ALU

    /// A flag as a number: 1 when set, 0 when clear.
    fn flag_as_bit(&self, flag: Flag) -> (r: u8)
        ensures
            r == carry_bit(self.flags.flag(flag)),
    {
        if self.flags.get(flag) {
            1
        } else {
            0
        }
    }

    /// Compare a register with `value`: Carry when the register is at least
    /// `value`, Zero when equal, Negative from bit 7 of the difference.
    fn compare_to_register(&mut self, register: Register, value: u8)
        ensures
            *final(self) == with_flags(
                *old(self),
                compare(old(self).flags, register_value(*old(self), register), value),
            ),
    {
        let reg = self.get_register(register);
        self.flags.set(Flag::Carry, reg >= value);
        self.flags.set(Flag::Zero, reg == value);
        self.flags.set(Flag::Negative, reg.wrapping_sub(value) & NEGATIVE_BIT != 0);
    }

    /// Add `value` and the carry to the accumulator.
    fn add_with_carry(&mut self, value: u8)
        ensures
            ({
                let r = add_with_carry(
                    old(self).register_accumulator,
                    value,
                    old(self).flags.carry,
                );
                *final(self) == with_flags(
                    Cpu { register_accumulator: r.0, ..*old(self) },
                    with_arithmetic(old(self).flags, r),
                )
            }),
    {
        let a_before = self.register_accumulator;
        let c_before = self.flag_as_bit(Flag::Carry);
        let sum: u16 = a_before as u16 + value as u16 + c_before as u16;
        let a_after = (sum % 256) as u8;
        // Overflow: both operands had one sign and the result has the other.
        let sign_bits_eq_before = (a_before ^ value) & NEGATIVE_BIT == 0;
        let sign_bits_ne_after = (a_after ^ value) & NEGATIVE_BIT != 0;
        proof {
            lemma_overflow_rule(a_before, value, c_before == 1);
        }
        self.flags.set(Flag::Carry, sum > 0xFF);
        self.flags.set(Flag::Overflow, sign_bits_eq_before && sign_bits_ne_after);
        self.set_register(Register::A, a_after);
    }

    /// Subtract `value` and the borrow from the accumulator, as an add of the
    /// complement of `value`.
    fn subtract_with_carry(&mut self, value: u8)
        ensures
            ({
                let r = subtract_with_carry(
                    old(self).register_accumulator,
                    value,
                    old(self).flags.carry,
                );
                *final(self) == with_flags(
                    Cpu { register_accumulator: r.0, ..*old(self) },
                    with_arithmetic(old(self).flags, r),
                )
            }),
    {
        proof {
            lemma_subtract_is_add_of_complement(
                self.register_accumulator,
                value,
                self.flags.carry,
            );
        }
        self.add_with_carry(!value);
    }

    /// AND, OR or XOR `value` into the accumulator.
    fn logical_operation(&mut self, value: u8, op: LogicalOperation)
        ensures
            *final(self) == set_register(
                *old(self),
                Register::A,
                logical(op, old(self).register_accumulator, value),
            ),
    {
        let result = match op {
            LogicalOperation::And => self.register_accumulator & value,
            LogicalOperation::Or => self.register_accumulator | value,
            LogicalOperation::Xor => self.register_accumulator ^ value,
        };
        self.set_register(Register::A, result);
    }

    /// Test `value` against the accumulator: Zero when they share no set bit,
    /// Overflow and Negative from bits 6 and 7 of `value`.
    fn bit_test(&mut self, value: u8)
        ensures
            *final(self) == with_flags(
                *old(self),
                bit_test(old(self).flags, old(self).register_accumulator, value),
            ),
    {
        self.flags.set(Flag::Zero, value & self.register_accumulator == 0);
        self.flags.set(Flag::Overflow, value & OVERFLOW_BIT != 0);
        self.flags.set(Flag::Negative, value & NEGATIVE_BIT != 0);
    }

    /// Shift left; bit 7 goes to Carry.
    fn arithmetic_shift_left(&mut self, value: u8) -> (r: u8)
        ensures
            r == value << 1u8,
            *final(self) == with_flags(
                *old(self),
                CpuStatusFlags {
                    carry: value & 0x80 != 0,
                    zero: r == 0,
                    negative: r & NEGATIVE_BIT != 0,
                    ..old(self).flags
                },
            ),
    {
        let shifted = value << 1u8;
        self.flags.set(Flag::Carry, value & 0x80 != 0);
        self.set_zero_flag(shifted);
        self.set_negative_flag(shifted);
        shifted
    }

    /// Shift right; bit 0 goes to Carry and Negative is cleared.
    fn logical_shift_right(&mut self, value: u8) -> (r: u8)
        ensures
            r == value >> 1u8,
            *final(self) == with_flags(
                *old(self),
                CpuStatusFlags {
                    carry: value & 0x01 != 0,
                    zero: r == 0,
                    negative: false,
                    ..old(self).flags
                },
            ),
    {
        let shifted = value >> 1u8;
        self.flags.set(Flag::Carry, value & 0x01 != 0);
        self.set_zero_flag(shifted);
        // bit 7 of the result is always zero
        self.flags.set(Flag::Negative, false);
        shifted
    }

    /// Rotate left through the carry: the carry enters bit 0, bit 7 leaves
    /// into the carry.
    fn rotate_left(&mut self, value: u8) -> (r: u8)
        ensures
            r == (value << 1u8) | carry_bit(old(self).flags.carry),
            *final(self) == with_flags(
                *old(self),
                CpuStatusFlags {
                    carry: value & 0x80 != 0,
                    zero: r == 0,
                    negative: r & NEGATIVE_BIT != 0,
                    ..old(self).flags
                },
            ),
    {
        let shifted = (value << 1u8) | self.flag_as_bit(Flag::Carry);
        self.flags.set(Flag::Carry, value & 0x80 != 0);
        self.set_zero_flag(shifted);
        self.set_negative_flag(shifted);
        shifted
    }

    /// Rotate right through the carry: the carry enters bit 7, bit 0 leaves
    /// into the carry.
    fn rotate_right(&mut self, value: u8) -> (r: u8)
        ensures
            r == (value >> 1u8) | (carry_bit(old(self).flags.carry) << 7u8),
            *final(self) == with_flags(
                *old(self),
                CpuStatusFlags {
                    carry: value & 0x01 != 0,
                    zero: r == 0,
                    negative: r & NEGATIVE_BIT != 0,
                    ..old(self).flags
                },
            ),
    {
        let shifted = (value >> 1u8) | (self.flag_as_bit(Flag::Carry) << 7u8);
        self.flags.set(Flag::Carry, value & 0x01 != 0);
        self.set_zero_flag(shifted);
        self.set_negative_flag(shifted);
        shifted
    }

    /// The shift or rotate that `op` names, applied to `value`.
    fn shift_value(&mut self, op: Op, value: u8) -> (r: u8)
        requires
            op is ShiftLeft || op is ShiftRight || op is RotateLeft || op is RotateRight,
        ensures
            ({
                let t = shift(op, value, old(self).flags.carry);
                r == t.0 && *final(self) == with_flags(
                    *old(self),
                    shift_flags(op, old(self).flags, t),
                )
            }),
    {
        match op {
            Op::ShiftLeft(_) => self.arithmetic_shift_left(value),
            Op::ShiftRight(_) => self.logical_shift_right(value),
            Op::RotateLeft(_) => self.rotate_left(value),
            _ => self.rotate_right(value),
        }
    }

    // ------------------------------------------------------------ memory operands

    /// Add one to the byte at `address`; Zero and Negative follow the result.
    fn increment_memory<M: Memory<MAX_MEMORY>>(&mut self, memory: &mut M, address: u16)
        requires
            full(old(memory).cells()),
        ensures
            ({
                let v = wrap8(old(memory).cells()[address as int] + 1);
                final(memory).cells() == old(memory).cells().update(address as int, v)
                    && *final(self) == with_flags(*old(self), with_zn(old(self).flags, v))
            }),
    {
        let value = memory.read(address);
        let inc = value.wrapping_add(1);
        self.set_zero_flag(inc);
        self.set_negative_flag(inc);
        memory.write(address, inc);
    }

    /// Subtract one from the byte at `address`; Zero and Negative follow the
    /// result.
    fn decrement_memory<M: Memory<MAX_MEMORY>>(&mut self, memory: &mut M, address: u16)
        requires
            full(old(memory).cells()),
        ensures
            ({
                let v = wrap8(old(memory).cells()[address as int] - 1);
                final(memory).cells() == old(memory).cells().update(address as int, v)
                    && *final(self) == with_flags(*old(self), with_zn(old(self).flags, v))
            }),
    {
        let value = memory.read(address);
        let dec = value.wrapping_sub(1);
        self.set_zero_flag(dec);
        self.set_negative_flag(dec);
        memory.write(address, dec);
    }

    /// Shift or rotate the byte at `address` in place.
    fn shift_memory<M: Memory<MAX_MEMORY>>(&mut self, memory: &mut M, op: Op, address: u16)
        requires
            full(old(memory).cells()),
            op is ShiftLeft || op is ShiftRight || op is RotateLeft || op is RotateRight,
        ensures
            ({
                let t = shift(op, old(memory).cells()[address as int], old(self).flags.carry);
                final(memory).cells() == old(memory).cells().update(address as int, t.0)
                    && *final(self) == with_flags(*old(self), shift_flags(op, old(self).flags, t))
            }),
    {
        let value = memory.read(address);
        let shifted = self.shift_value(op, value);
        memory.write(address, shifted);
    }

    // -------------------------------------------------------------------- stack

    /// Push a byte: write it at the stack pointer, then move the pointer up.
    fn stack_push<M: Memory<MAX_MEMORY>>(&mut self, memory: &mut M, value: u8)
        requires
            full(old(memory).cells()),
        ensures
            (*final(self), final(memory).cells()) == push(*old(self), old(memory).cells(), value),
    {
        memory.write(STACK_BASE + self.stack_pointer as u16, value);
        self.stack_pointer = self.stack_pointer.wrapping_add(1);
    }

    /// Pop a byte: move the stack pointer down, then read the byte there.
    fn stack_pop<M: Memory<MAX_MEMORY>>(&mut self, memory: &M) -> (r: u8)
        requires
            full(memory.cells()),
        ensures
            (*final(self), r) == pop(*old(self), memory.cells()),
    {
        self.stack_pointer = self.stack_pointer.wrapping_sub(1);
        memory.read(STACK_BASE + self.stack_pointer as u16)
    }

    // ------------------------------------------------------------- control flow

    /// Fetch a signed offset and branch by it when `flag` has `state`.
    /// Returns the cycles spent: the fetch, one more when the branch is taken
    /// and another when it lands in a different page.
    fn branch<M: Memory<MAX_MEMORY>>(&mut self, memory: &M, flag: Flag, state: bool) -> (r: u32)
        requires
            full(memory.cells()),
        ensures
            (*final(self), r as nat) == branch(*old(self), memory.cells(), flag, state),
    {
        let offset = self.fetch_byte(memory);
        proof {
            lemma_wrap16(old(self).program_counter + 1);
        }
        if self.flags.get(flag) == state {
            let next = self.program_counter;
            proof {
                lemma_wrap16(next + signed_byte(offset));
            }
            let target = if offset < 128 {
                next.wrapping_add(offset as u16)
            } else {
                next.wrapping_sub(256 - offset as u16)
            };
            self.program_counter = target;
            if next / 256 != target / 256 {
                3
            } else {
                2
            }
        } else {
            1
        }
    }

    /// Call the subroutine at the absolute operand: push the address of the
    /// last byte of this instruction, low byte first, and jump.
    fn jump_to_subroutine<M: Memory<MAX_MEMORY>>(&mut self, memory: &mut M)
        requires
            full(old(memory).cells()),
        ensures
            ({
                let t = call(*old(self), old(memory).cells());
                *final(self) == t.0 && final(memory).cells() == t.1
            }),
    {
        let target = self.fetch_word(&*memory);
        proof {
            lemma_wrap16(old(self).program_counter + 1);
            lemma_wrap16(old(self).program_counter + 2);
        }
        let back = self.program_counter.wrapping_sub(1);
        self.stack_push(memory, (back % 256) as u8);
        self.stack_push(memory, (back / 256) as u8);
        self.program_counter = target;
    }

    /// Return from a subroutine: pop the high and then the low byte of the
    /// saved address and continue one past it.
    fn return_from_subroutine<M: Memory<MAX_MEMORY>>(&mut self, memory: &M)
        requires
            full(memory.cells()),
        ensures
            *final(self) == return_from_call(*old(self), memory.cells()),
    {
        let high = self.stack_pop(memory);
        let low = self.stack_pop(memory);
        proof {
            lemma_wrap16(high * 256 + low + 1);
        }
        self.program_counter = ((high as u16) * 256 + low as u16).wrapping_add(1);
    }

    /// The software interrupt: push the program counter, low byte first, and
    /// the flags, continue at the address in the interrupt vector, and set
    /// Break.
    fn force_break<M: Memory<MAX_MEMORY>>(&mut self, memory: &mut M)
        requires
            full(old(memory).cells()),
        ensures
            ({
                let t = interrupt(*old(self), old(memory).cells());
                *final(self) == t.0 && final(memory).cells() == t.1
            }),
    {
        let low_pc = (self.program_counter % 256) as u8;
        let high_pc = (self.program_counter / 256) as u8;
        self.stack_push(memory, low_pc);
        self.stack_push(memory, high_pc);
        let status = self.flags.bits();
        self.stack_push(memory, status);
        self.program_counter = Self::read_word(&*memory, IRQ_INTERRUPT_VECTOR);
        self.flags.set(Flag::BreakCommand, true);
    }

    /// Carry out an instruction that reads its operand: a load, a logical
    /// operation, a bit test, an add, a subtract or a compare.
    fn perform_read<M: Memory<MAX_MEMORY>>(&mut self, memory: &M, op: Op) -> (r: u32)
        requires
            full(memory.cells()),
            op is Load || op is Logical || op is BitTest || op is AddWithCarry
                || op is SubtractWithCarry || op is Compare,
        ensures
            ({
                let t = perform(*old(self), memory.cells(), op);
                *final(self) == t.0 && memory.cells() == t.1 && r == t.2
            }),
            r <= 5,
    {
        reveal(perform);
        let mode = match op {
            Op::Load(_, mode) | Op::Logical(_, mode) | Op::BitTest(mode) | Op::AddWithCarry(mode)
            | Op::SubtractWithCarry(mode) | Op::Compare(_, mode) => mode,
            _ => AddressingMode::Implied,
        };
        let (address, cost) = self.resolve_operand(memory, mode, false);
        if let Op::Load(register, _) = op {
            self.load_register(memory, register, address);
        } else {
            let value = memory.read(address);
            match op {
                Op::Logical(operation, _) => self.logical_operation(value, operation),
                Op::BitTest(_) => self.bit_test(value),
                Op::AddWithCarry(_) => self.add_with_carry(value),
                Op::SubtractWithCarry(_) => self.subtract_with_carry(value),
                Op::Compare(register, _) => self.compare_to_register(register, value),
                _ => {},
            }
        }
        cost + 1
    }

    /// Carry out an instruction that writes memory through its operand: a
    /// store, an increment or decrement, or a shift or rotate.
    fn perform_write<M: Memory<MAX_MEMORY>>(&mut self, memory: &mut M, op: Op) -> (r: u32)
        requires
            full(old(memory).cells()),
            within_cycle_bound(op),
            op is Store || op is IncrementMemory || op is DecrementMemory || op is ShiftLeft
                || op is ShiftRight || op is RotateLeft || op is RotateRight,
        ensures
            ({
                let t = perform(*old(self), old(memory).cells(), op);
                *final(self) == t.0 && final(memory).cells() == t.1 && r == t.2
            }),
            full(final(memory).cells()),
            r <= 6,
    {
        reveal(perform);
        match op {
            Op::Store(register, mode) => {
                let (address, cost) = self.resolve_operand(&*memory, mode, true);
                let value = self.get_register(register);
                memory.write(address, value);
                cost + 1
            },
            Op::IncrementMemory(mode) => {
                let (address, cost) = self.resolve_operand(&*memory, mode, true);
                self.increment_memory(memory, address);
                cost + 3
            },
            Op::DecrementMemory(mode) => {
                let (address, cost) = self.resolve_operand(&*memory, mode, true);
                self.decrement_memory(memory, address);
                cost + 3
            },
            Op::ShiftLeft(mode) | Op::ShiftRight(mode) | Op::RotateLeft(mode) | Op::RotateRight(
                mode,
            ) => {
                if mode == AddressingMode::Accumulator {
                    let value = self.register_accumulator;
                    let shifted = self.shift_value(op, value);
                    self.register_accumulator = shifted;
                    1
                } else {
                    let (address, cost) = self.resolve_operand(&*memory, mode, true);
                    self.shift_memory(memory, op, address);
                    cost + 3
                }
            },
            _ => 0,
        }
    }

    /// Carry out an instruction on registers, flags or the stack.
    fn perform_register<M: Memory<MAX_MEMORY>>(&mut self, memory: &mut M, op: Op) -> (r: u32)
        requires
            full(old(memory).cells()),
            op is Transfer || op is TransferStackPointerToX || op is TransferXToStackPointer
                || op is PushAccumulator || op is PushStatus || op is PullAccumulator
                || op is PullStatus || op is IncrementRegister || op is DecrementRegister
                || op is SetFlag || op is NoOperation,
        ensures
            ({
                let t = perform(*old(self), old(memory).cells(), op);
                *final(self) == t.0 && final(memory).cells() == t.1 && r == t.2
            }),
            full(final(memory).cells()),
            r <= 3,
    {
        reveal(perform);
        match op {
            Op::Transfer(source, dest) => {
                self.transfer_register(source, dest);
                1
            },
            Op::TransferStackPointerToX => {
                let value = self.stack_pointer;
                self.set_register(Register::X, value);
                1
            },
            Op::TransferXToStackPointer => {
                self.stack_pointer = self.register_x;
                1
            },
            Op::PushAccumulator => {
                let value = self.register_accumulator;
                self.stack_push(memory, value);
                2
            },
            Op::PushStatus => {
                let status = self.flags.bits();
                self.stack_push(memory, status);
                2
            },
            Op::PullAccumulator => {
                let value = self.stack_pop(&*memory);
                self.set_register(Register::A, value);
                3
            },
            Op::PullStatus => {
                let status = self.stack_pop(&*memory);
                self.flags = CpuStatusFlags::from_bits_truncate(status);
                3
            },
            Op::IncrementRegister(register) => {
                self.increment_register(register);
                1
            },
            Op::DecrementRegister(register) => {
                self.decrement_register(register);
                1
            },
            Op::SetFlag(flag, value) => {
                self.flags.set(flag, value);
                1
            },
            _ => 1,
        }
    }

    /// Carry out a jump, a call or return, a branch, or an interrupt or the
    /// return from one.
    fn perform_control<M: Memory<MAX_MEMORY>>(&mut self, memory: &mut M, op: Op) -> (r: u32)
        requires
            full(old(memory).cells()),
            op is Jump || op is JumpToSubroutine || op is ReturnFromSubroutine || op is Branch
                || op is Break || op is ReturnFromInterrupt,
        ensures
            ({
                let t = perform(*old(self), old(memory).cells(), op);
                *final(self) == t.0 && final(memory).cells() == t.1 && r == t.2
            }),
            full(final(memory).cells()),
            r <= 6,
    {
        reveal(perform);
        match op {
            Op::Jump(mode) => {
                let (address, cost) = self.resolve_operand(&*memory, mode, false);
                self.program_counter = address;
                cost
            },
            Op::JumpToSubroutine => {
                self.jump_to_subroutine(memory);
                5
            },
            Op::ReturnFromSubroutine => {
                self.return_from_subroutine(&*memory);
                5
            },
            Op::Branch(flag, state) => self.branch(&*memory, flag, state),
            Op::Break => {
                self.force_break(memory);
                6
            },
            _ => {
                self.return_from_interrupt(&*memory);
                5
            },
        }
    }

    /// Carry out `op`, whose operand bytes start at the program counter.
    /// Returns the cycles spent after the opcode fetch.
    fn perform<M: Memory<MAX_MEMORY>>(&mut self, memory: &mut M, op: Op) -> (r: u32)
        requires
            full(old(memory).cells()),
            within_cycle_bound(op),
        ensures
            ({
                let t = perform(*old(self), old(memory).cells(), op);
                *final(self) == t.0 && final(memory).cells() == t.1 && r == t.2
            }),
            full(final(memory).cells()),
            r <= 6,
    {
        reveal(perform);
        match op {
            Op::Load(..) | Op::Logical(..) | Op::BitTest(_) | Op::AddWithCarry(_)
            | Op::SubtractWithCarry(_) | Op::Compare(..) => self.perform_read(&*memory, op),
            Op::Store(..) | Op::IncrementMemory(_) | Op::DecrementMemory(_) | Op::ShiftLeft(_)
            | Op::ShiftRight(_) | Op::RotateLeft(_) | Op::RotateRight(_) => self.perform_write(
                memory,
                op,
            ),
            Op::Transfer(..) | Op::TransferStackPointerToX | Op::TransferXToStackPointer
            | Op::PushAccumulator | Op::PushStatus | Op::PullAccumulator | Op::PullStatus
            | Op::IncrementRegister(_) | Op::DecrementRegister(_) | Op::SetFlag(..)
            | Op::NoOperation => self.perform_register(memory, op),
            _ => self.perform_control(memory, op),
        }
    }

    /// Execute one instruction: fetch its opcode (one cycle), look it up and
    /// carry it out. An illegal opcode does nothing beyond the fetch. Returns
    /// the budget less the cycles spent; it may fall below zero when the
    /// instruction costs more than was left.
    pub fn execute_single<M: Memory<MAX_MEMORY>>(&mut self, memory: &mut M, cycles: i32) -> (r: i32)
        requires
            full(old(memory).cells()),
            cycles >= i32::MIN + MAX_INSTRUCTION_CYCLES,
        ensures
            ({
                let t = step(*old(self), old(memory).cells());
                *final(self) == t.0 && final(memory).cells() == t.1 && r == cycles - t.2
            }),
            full(final(memory).cells()),
            cycles - MAX_INSTRUCTION_CYCLES <= r < cycles,
    {
        let opcode = self.fetch_byte(&*memory);
        let spent: u32 = match Op::by_opcode(opcode) {
            Some(op) => 1 + self.perform(memory, op),
            None => 1,
        };
        cycles - spent as i32
    }

    /// Execute instructions one after another while the budget is positive.
    /// Returns what is left of the budget, which may be below zero.
    pub fn execute<M: Memory<MAX_MEMORY>>(&mut self, memory: &mut M, cycles: i32) -> (r: i32)
        requires
            full(old(memory).cells()),
        ensures
            ({
                let t = run(*old(self), old(memory).cells(), cycles as int);
                *final(self) == t.0 && final(memory).cells() == t.1 && r == t.2
            }),
    {
        let mut left = cycles;
        while left > 0
            invariant
                full(memory.cells()),
                run(*self, memory.cells(), left as int) == run(
                    *old(self),
                    old(memory).cells(),
                    cycles as int,
                ),
            decreases if left > 0 {
                left as int
            } else {
                0
            },
        {
            left = self.execute_single(memory, left);
        }
        left
    }

    /// Return from an interrupt handler: pop the flags, then the high and the
    /// low byte of the program counter, and clear Break.
    fn return_from_interrupt<M: Memory<MAX_MEMORY>>(&mut self, memory: &M)
        requires
            full(memory.cells()),
        ensures
            *final(self) == return_from_interrupt(*old(self), memory.cells()),
    {
        let status = self.stack_pop(memory);
        self.flags = CpuStatusFlags::from_bits_truncate(status);
        let high_pc = self.stack_pop(memory);
        let low_pc = self.stack_pop(memory);
        self.program_counter = (high_pc as u16) * 256 + low_pc as u16;
        self.flags.set(Flag::BreakCommand, false);
    }
}

/// The overflow rule of an 8-bit add: the operands agree in sign and the
/// result does not, exactly when the signed sum leaves the signed byte range.
proof fn lemma_overflow_rule(a: u8, v: u8, c: bool)
    ensures
        ({
            let r = add_with_carry(a, v, c);
            r.2 == ((a ^ v) & NEGATIVE_BIT == 0 && (r.0 ^ v) & NEGATIVE_BIT != 0)
        }),
{
    let r = add_with_carry(a, v, c).0;
    assert(((a ^ v) & 0x80 == 0) == ((a < 128) == (v < 128))) by (bit_vector);
    assert(((r ^ v) & 0x80 == 0) == ((r < 128) == (v < 128))) by (bit_vector);
}

} // verus!
