use vstd::prelude::*;

verus! {

/// One of the seven status flags of the processor.
#[derive(Clone, Copy, Debug, PartialEq, Eq, Structural)]
pub enum Flag {
    Carry,
    Zero,
    IrqDisable,
    DecimalMode,
    BreakCommand,
    Overflow,
    Negative,
}

pub const CARRY_BIT: u8 = 0b0000_0001;
pub const ZERO_BIT: u8 = 0b0000_0010;
pub const IRQ_DISABLE_BIT: u8 = 0b0000_0100;
pub const DECIMAL_MODE_BIT: u8 = 0b0000_1000;
pub const BREAK_COMMAND_BIT: u8 = 0b0001_0000;
pub const OVERFLOW_BIT: u8 = 0b0100_0000;
pub const NEGATIVE_BIT: u8 = 0b1000_0000;

/// The processor status register: seven independent flags. When packed into
/// a byte (see [`CpuStatusFlags::bits`]) bit 5 is unused and always zero.
#[derive(Clone, Copy, Debug, PartialEq, Eq, Structural)]
pub struct CpuStatusFlags {
    pub carry: bool,
    pub zero: bool,
    pub irq_disable: bool,
    pub decimal_mode: bool,
    pub break_command: bool,
    pub overflow: bool,
    pub negative: bool,
}

/// Contributes `mask` to a packed byte when `on` holds.
pub open spec fn bit_if(on: bool, mask: u8) -> u8 {
    if on {
        mask
    } else {
        0
    }
}

impl CpuStatusFlags {
    pub open spec fn flag(self, flag: Flag) -> bool {
        match flag {
            Flag::Carry => self.carry,
            Flag::Zero => self.zero,
            Flag::IrqDisable => self.irq_disable,
            Flag::DecimalMode => self.decimal_mode,
            Flag::BreakCommand => self.break_command,
            Flag::Overflow => self.overflow,
            Flag::Negative => self.negative,
        }
    }

    /// `self` with `flag` set to `value` and every other flag unchanged.
    pub open spec fn with_flag(self, flag: Flag, value: bool) -> CpuStatusFlags {
        match flag {
            Flag::Carry => CpuStatusFlags { carry: value, ..self },
            Flag::Zero => CpuStatusFlags { zero: value, ..self },
            Flag::IrqDisable => CpuStatusFlags { irq_disable: value, ..self },
            Flag::DecimalMode => CpuStatusFlags { decimal_mode: value, ..self },
            Flag::BreakCommand => CpuStatusFlags { break_command: value, ..self },
            Flag::Overflow => CpuStatusFlags { overflow: value, ..self },
            Flag::Negative => CpuStatusFlags { negative: value, ..self },
        }
    }

    /// The packed status byte.
    pub open spec fn packed(self) -> u8 {
        bit_if(self.carry, CARRY_BIT) | bit_if(self.zero, ZERO_BIT) | bit_if(
            self.irq_disable,
            IRQ_DISABLE_BIT,
        ) | bit_if(self.decimal_mode, DECIMAL_MODE_BIT) | bit_if(
            self.break_command,
            BREAK_COMMAND_BIT,
        ) | bit_if(self.overflow, OVERFLOW_BIT) | bit_if(self.negative, NEGATIVE_BIT)
    }

    /// The flags that a packed byte holds; the unused bit is ignored.
    pub open spec fn unpacked(byte: u8) -> CpuStatusFlags {
        CpuStatusFlags {
            carry: byte & CARRY_BIT != 0,
            zero: byte & ZERO_BIT != 0,
            irq_disable: byte & IRQ_DISABLE_BIT != 0,
            decimal_mode: byte & DECIMAL_MODE_BIT != 0,
            break_command: byte & BREAK_COMMAND_BIT != 0,
            overflow: byte & OVERFLOW_BIT != 0,
            negative: byte & NEGATIVE_BIT != 0,
        }
    }

    /// Every flag clear.
    pub open spec fn cleared() -> CpuStatusFlags {
        CpuStatusFlags {
            carry: false,
            zero: false,
            irq_disable: false,
            decimal_mode: false,
            break_command: false,
            overflow: false,
            negative: false,
        }
    }

    /// All flags clear.
    pub fn empty() -> (r: CpuStatusFlags)
        ensures
            r == CpuStatusFlags::cleared(),
            forall|f: Flag| !r.flag(f),
    {
        CpuStatusFlags {
            carry: false,
            zero: false,
            irq_disable: false,
            decimal_mode: false,
            break_command: false,
            overflow: false,
            negative: false,
        }
    }

    /// All flags set.
    pub fn all() -> (r: CpuStatusFlags)
        ensures
            forall|f: Flag| r.flag(f),
    {
        CpuStatusFlags {
            carry: true,
            zero: true,
            irq_disable: true,
            decimal_mode: true,
            break_command: true,
            overflow: true,
            negative: true,
        }
    }

    /// Whether `flag` is set.
    pub fn get(&self, flag: Flag) -> (r: bool)
        ensures
            r == self.flag(flag),
    {
        match flag {
            Flag::Carry => self.carry,
            Flag::Zero => self.zero,
            Flag::IrqDisable => self.irq_disable,
            Flag::DecimalMode => self.decimal_mode,
            Flag::BreakCommand => self.break_command,
            Flag::Overflow => self.overflow,
            Flag::Negative => self.negative,
        }
    }

    /// Set `flag` to `value`, leaving the other flags as they are.
    pub fn set(&mut self, flag: Flag, value: bool)
        ensures
            *final(self) == old(self).with_flag(flag, value),
    {
        match flag {
            Flag::Carry => self.carry = value,
            Flag::Zero => self.zero = value,
            Flag::IrqDisable => self.irq_disable = value,
            Flag::DecimalMode => self.decimal_mode = value,
            Flag::BreakCommand => self.break_command = value,
            Flag::Overflow => self.overflow = value,
            Flag::Negative => self.negative = value,
        }
    }

    /// The flags packed into one byte, for saving them on the stack.
    pub fn bits(&self) -> (r: u8)
        ensures
            r == self.packed(),
    {
        let c: u8 = if self.carry { CARRY_BIT } else { 0 };
        let z: u8 = if self.zero { ZERO_BIT } else { 0 };
        let i: u8 = if self.irq_disable { IRQ_DISABLE_BIT } else { 0 };
        let d: u8 = if self.decimal_mode { DECIMAL_MODE_BIT } else { 0 };
        let k: u8 = if self.break_command { BREAK_COMMAND_BIT } else { 0 };
        let v: u8 = if self.overflow { OVERFLOW_BIT } else { 0 };
        let n: u8 = if self.negative { NEGATIVE_BIT } else { 0 };
        c | z | i | d | k | v | n
    }

    /// The flags held in a packed byte; the unused bit is dropped.
    pub fn from_bits_truncate(byte: u8) -> (r: CpuStatusFlags)
        ensures
            r == CpuStatusFlags::unpacked(byte),
    {
        CpuStatusFlags {
            carry: byte & CARRY_BIT != 0,
            zero: byte & ZERO_BIT != 0,
            irq_disable: byte & IRQ_DISABLE_BIT != 0,
            decimal_mode: byte & DECIMAL_MODE_BIT != 0,
            break_command: byte & BREAK_COMMAND_BIT != 0,
            overflow: byte & OVERFLOW_BIT != 0,
            negative: byte & NEGATIVE_BIT != 0,
        }
    }
}

/// Packing the flags into a byte and reading them back gives the same flags.
pub proof fn lemma_flags_round_trip(f: CpuStatusFlags)
    ensures
        CpuStatusFlags::unpacked(f.packed()) == f,
{
    let b = f.packed();
    let (c, z, i, d, k, v, n) = (
        f.carry,
        f.zero,
        f.irq_disable,
        f.decimal_mode,
        f.break_command,
        f.overflow,
        f.negative,
    );
    assert(b == (if c { 1u8 } else { 0u8 }) | (if z { 2u8 } else { 0u8 }) | (if i { 4u8 } else { 0u8 }) | (if d { 8u8 } else { 0u8 }) | (if k { 16u8 } else { 0u8 }) | (if v { 64u8 } else { 0u8 }) | (if n { 128u8 } else { 0u8 }));
    assert((b & 1 != 0) == c && (b & 2 != 0) == z && (b & 4 != 0) == i && (b & 8 != 0) == d
        && (b & 16 != 0) == k && (b & 64 != 0) == v && (b & 128 != 0) == n) by (bit_vector)
        requires
            b == (if c { 1u8 } else { 0u8 }) | (if z { 2u8 } else { 0u8 }) | (if i { 4u8 } else { 0u8 }) | (if d { 8u8 } else { 0u8 }) | (if k { 16u8 } else { 0u8 }) | (if v { 64u8 } else { 0u8 }) | (if n { 128u8 } else { 0u8 }),
    ;
}

} // verus!
