use vstd::prelude::*;

use crate::flags::Flag;

verus! {

/// Load Accumulator
pub const LDA_IMMEDIATE: u8 = 0xA9;

/// Load Accumulator
pub const LDA_ZERO_PAGE: u8 = 0xA5;

/// Load Accumulator
pub const LDA_ZERO_PAGE_X: u8 = 0xB5;

/// Load Accumulator
pub const LDA_ABSOLUTE: u8 = 0xAD;

/// Load Accumulator
pub const LDA_ABSOLUTE_X: u8 = 0xBD;

/// Load Accumulator
pub const LDA_ABSOLUTE_Y: u8 = 0xB9;

/// Load Accumulator
pub const LDA_INDIRECT_X: u8 = 0xA1;

/// Load Accumulator
pub const LDA_INDIRECT_Y: u8 = 0xB1;

/// Load X Register
pub const LDX_IMMEDIATE: u8 = 0xA2;

/// Load X Register
pub const LDX_ZERO_PAGE: u8 = 0xA6;

/// Load X Register
pub const LDX_ZERO_PAGE_Y: u8 = 0xB6;

/// Load X Register
pub const LDX_ABSOLUTE: u8 = 0xAE;

/// Load X Register
pub const LDX_ABSOLUTE_Y: u8 = 0xBE;

/// Load Y Register
pub const LDY_IMMEDIATE: u8 = 0xA0;

/// Load Y Register
pub const LDY_ZERO_PAGE: u8 = 0xA4;

/// Load Y Register
pub const LDY_ZERO_PAGE_X: u8 = 0xB4;

/// Load Y Register
pub const LDY_ABSOLUTE: u8 = 0xAC;

/// Load Y Register
pub const LDY_ABSOLUTE_X: u8 = 0xBC;

/// Store Accumulator
pub const STA_ZERO_PAGE: u8 = 0x85;

/// Store Accumulator
pub const STA_ZERO_PAGE_X: u8 = 0x95;

/// Store Accumulator
pub const STA_ABSOLUTE: u8 = 0x8D;

/// Store Accumulator
pub const STA_ABSOLUTE_X: u8 = 0x9D;

/// Store Accumulator
pub const STA_ABSOLUTE_Y: u8 = 0x99;

/// Store Accumulator
pub const STA_INDIRECT_X: u8 = 0x81;

/// Store Accumulator
pub const STA_INDIRECT_Y: u8 = 0x91;

/// Store X Register
pub const STX_ZERO_PAGE: u8 = 0x86;

/// Store X Register
pub const STX_ZERO_PAGE_Y: u8 = 0x96;

/// Store X Register
pub const STX_ABSOLUTE: u8 = 0x8E;

/// Store Y Register
pub const STY_ZERO_PAGE: u8 = 0x84;

/// Store Y Register
pub const STY_ZERO_PAGE_X: u8 = 0x94;

/// Store Y Register
pub const STY_ABSOLUTE: u8 = 0x8C;

/// Transfer accumulator to X
pub const TAX_IMPLIED: u8 = 0xAA;

/// Transfer accumulator to Y
pub const TAY_IMPLIED: u8 = 0xA8;

/// Transfer X to accumulator
pub const TXA_IMPLIED: u8 = 0x8A;

/// Transfer Y to accumulator
pub const TYA_IMPLIED: u8 = 0x98;

/// Transfer stack pointer to X
pub const TSX_IMPLIED: u8 = 0xBA;

/// Transfer X to stack pointer
pub const TXS_IMPLIED: u8 = 0x9A;

/// Push accumulator on stack
pub const PHA_IMPLIED: u8 = 0x48;

/// Push processor status on stack
pub const PHP_IMPLIED: u8 = 0x08;

/// Pull accumulator from stack
pub const PLA_IMPLIED: u8 = 0x68;

/// Pull processor status from stack
pub const PLP_IMPLIED: u8 = 0x28;

/// Logical AND
pub const AND_IMMEDIATE: u8 = 0x29;

/// Logical AND
pub const AND_ZERO_PAGE: u8 = 0x25;

/// Logical AND
pub const AND_ZERO_PAGE_X: u8 = 0x35;

/// Logical AND
pub const AND_ABSOLUTE: u8 = 0x2D;

/// Logical AND
pub const AND_ABSOLUTE_X: u8 = 0x3D;

/// Logical AND
pub const AND_ABSOLUTE_Y: u8 = 0x39;

/// Logical AND
pub const AND_INDIRECT_X: u8 = 0x21;

/// Logical AND
pub const AND_INDIRECT_Y: u8 = 0x31;

/// Exclusive OR
pub const EOR_IMMEDIATE: u8 = 0x49;

/// Exclusive OR
pub const EOR_ZERO_PAGE: u8 = 0x45;

/// Exclusive OR
pub const EOR_ZERO_PAGE_X: u8 = 0x55;

/// Exclusive OR
pub const EOR_ABSOLUTE: u8 = 0x4D;

/// Exclusive OR
pub const EOR_ABSOLUTE_X: u8 = 0x5D;

/// Exclusive OR
pub const EOR_ABSOLUTE_Y: u8 = 0x59;

/// Exclusive OR
pub const EOR_INDIRECT_X: u8 = 0x41;

/// Exclusive OR
pub const EOR_INDIRECT_Y: u8 = 0x51;

/// Logical Inclusive OR
pub const ORA_IMMEDIATE: u8 = 0x09;

/// Logical Inclusive OR
pub const ORA_ZERO_PAGE: u8 = 0x05;

/// Logical Inclusive OR
pub const ORA_ZERO_PAGE_X: u8 = 0x15;

/// Logical Inclusive OR
pub const ORA_ABSOLUTE: u8 = 0x0D;

/// Logical Inclusive OR
pub const ORA_ABSOLUTE_X: u8 = 0x1D;

/// Logical Inclusive OR
pub const ORA_ABSOLUTE_Y: u8 = 0x19;

/// Logical Inclusive OR
pub const ORA_INDIRECT_X: u8 = 0x01;

/// Logical Inclusive OR
pub const ORA_INDIRECT_Y: u8 = 0x11;

/// Bit Test
pub const BIT_ZERO_PAGE: u8 = 0x24;

/// Bit Test
pub const BIT_ABSOLUTE: u8 = 0x2C;

/// Add with Carry
pub const ADC_IMMEDIATE: u8 = 0x69;

/// Add with Carry
pub const ADC_ZERO_PAGE: u8 = 0x65;

/// Add with Carry
pub const ADC_ZERO_PAGE_X: u8 = 0x75;

/// Add with Carry
pub const ADC_ABSOLUTE: u8 = 0x6D;

/// Add with Carry
pub const ADC_ABSOLUTE_X: u8 = 0x7D;

/// Add with Carry
pub const ADC_ABSOLUTE_Y: u8 = 0x79;

/// Add with Carry
pub const ADC_INDIRECT_X: u8 = 0x61;

/// Add with Carry
pub const ADC_INDIRECT_Y: u8 = 0x71;

/// Subtract with Carry
pub const SBC_IMMEDIATE: u8 = 0xE9;

/// Subtract with Carry
pub const SBC_ZERO_PAGE: u8 = 0xE5;

/// Subtract with Carry
pub const SBC_ZERO_PAGE_X: u8 = 0xF5;

/// Subtract with Carry
pub const SBC_ABSOLUTE: u8 = 0xED;

/// Subtract with Carry
pub const SBC_ABSOLUTE_X: u8 = 0xFD;

/// Subtract with Carry
pub const SBC_ABSOLUTE_Y: u8 = 0xF9;

/// Subtract with Carry
pub const SBC_INDIRECT_X: u8 = 0xE1;

/// Subtract with Carry
pub const SBC_INDIRECT_Y: u8 = 0xF1;

/// Compare accumulator
pub const CMP_IMMEDIATE: u8 = 0xC9;

/// Compare accumulator
pub const CMP_ZERO_PAGE: u8 = 0xC5;

/// Compare accumulator
pub const CMP_ZERO_PAGE_X: u8 = 0xD5;

/// Compare accumulator
pub const CMP_ABSOLUTE: u8 = 0xCD;

/// Compare accumulator
pub const CMP_ABSOLUTE_X: u8 = 0xDD;

/// Compare accumulator
pub const CMP_ABSOLUTE_Y: u8 = 0xD9;

/// Compare accumulator
pub const CMP_INDIRECT_X: u8 = 0xC1;

/// Compare accumulator
pub const CMP_INDIRECT_Y: u8 = 0xD1;

/// Compare X register
pub const CPX_IMMEDIATE: u8 = 0xE0;

/// Compare X register
pub const CPX_ZERO_PAGE: u8 = 0xE4;

/// Compare X register
pub const CPX_ABSOLUTE: u8 = 0xEC;

/// Compare Y register
pub const CPY_IMMEDIATE: u8 = 0xC0;

/// Compare Y register
pub const CPY_ZERO_PAGE: u8 = 0xC4;

/// Compare Y register
pub const CPY_ABSOLUTE: u8 = 0xCC;

/// Increment a memory location
pub const INC_ZERO_PAGE: u8 = 0xE6;

/// Increment a memory location
pub const INC_ZERO_PAGE_X: u8 = 0xF6;

/// Increment a memory location
pub const INC_ABSOLUTE: u8 = 0xEE;

/// Increment a memory location
pub const INC_ABSOLUTE_X: u8 = 0xFE;

/// Increment the X register
pub const INX_IMPLIED: u8 = 0xE8;

/// Increment the Y register
pub const INY_IMPLIED: u8 = 0xC8;

/// Decrement a memory location
pub const DEC_ZERO_PAGE: u8 = 0xC6;

/// Decrement a memory location
pub const DEC_ZERO_PAGE_X: u8 = 0xD6;

/// Decrement a memory location
pub const DEC_ABSOLUTE: u8 = 0xCE;

/// Decrement a memory location
pub const DEC_ABSOLUTE_X: u8 = 0xDE;

/// Decrement the X register
pub const DEX_IMPLIED: u8 = 0xCA;

/// Decrement the Y register
pub const DEY_IMPLIED: u8 = 0x88;

/// Arithmetic Shift Left
pub const ASL_ACCUMULATOR: u8 = 0x0A;

/// Arithmetic Shift Left
pub const ASL_ZERO_PAGE: u8 = 0x06;

/// Arithmetic Shift Left
pub const ASL_ZERO_PAGE_X: u8 = 0x16;

/// Arithmetic Shift Left
pub const ASL_ABSOLUTE: u8 = 0x0E;

/// Arithmetic Shift Left
pub const ASL_ABSOLUTE_X: u8 = 0x1E;

/// Logical Shift Right
pub const LSR_ACCUMULATOR: u8 = 0x4A;

/// Logical Shift Right
pub const LSR_ZERO_PAGE: u8 = 0x46;

/// Logical Shift Right
pub const LSR_ZERO_PAGE_X: u8 = 0x56;

/// Logical Shift Right
pub const LSR_ABSOLUTE: u8 = 0x4E;

/// Logical Shift Right
pub const LSR_ABSOLUTE_X: u8 = 0x5E;

/// Rotate Left
pub const ROL_ACCUMULATOR: u8 = 0x2A;

/// Rotate Left
pub const ROL_ZERO_PAGE: u8 = 0x26;

/// Rotate Left
pub const ROL_ZERO_PAGE_X: u8 = 0x36;

/// Rotate Left
pub const ROL_ABSOLUTE: u8 = 0x2E;

/// Rotate Left
pub const ROL_ABSOLUTE_X: u8 = 0x3E;

/// Rotate Right
pub const ROR_ACCUMULATOR: u8 = 0x6A;

/// Rotate Right
pub const ROR_ZERO_PAGE: u8 = 0x66;

/// Rotate Right
pub const ROR_ZERO_PAGE_X: u8 = 0x76;

/// Rotate Right
pub const ROR_ABSOLUTE: u8 = 0x6E;

/// Rotate Right
pub const ROR_ABSOLUTE_X: u8 = 0x7E;

/// Jump to another location
pub const JMP_ABSOLUTE: u8 = 0x4C;

/// Jump to another location
pub const JMP_INDIRECT: u8 = 0x6C;

/// Jump to a subroutine
pub const JSR_ABSOLUTE: u8 = 0x20;

/// Return from subroutine
pub const RTS_IMPLIED: u8 = 0x60;

/// Branch if carry flag clear
pub const BCC_RELATIVE: u8 = 0x90;

/// Branch if carry flag set
pub const BCS_RELATIVE: u8 = 0xB0;

/// Branch if zero flag set
pub const BEQ_RELATIVE: u8 = 0xF0;

/// Branch if negative flag set
pub const BMI_RELATIVE: u8 = 0x30;

/// Branch if zero flag clear
pub const BNE_RELATIVE: u8 = 0xD0;

/// Branch if negative flag clear
pub const BPL_RELATIVE: u8 = 0x10;

/// Branch if overflow flag clear
pub const BVC_RELATIVE: u8 = 0x50;

/// Branch if overflow flag set
pub const BVS_RELATIVE: u8 = 0x70;

/// Clear carry flag
pub const CLC_IMPLIED: u8 = 0x18;

/// Clear decimal mode
pub const CLD_IMPLIED: u8 = 0xD8;

/// Clear interrupt disable
pub const CLI_IMPLIED: u8 = 0x58;

/// Clear overflow flag
pub const CLV_IMPLIED: u8 = 0xB8;

/// Set carry flag
pub const SEC_IMPLIED: u8 = 0x38;

/// Set decimal mode
pub const SED_IMPLIED: u8 = 0xF8;

/// Set interrupt disable
pub const SEI_IMPLIED: u8 = 0x78;

/// Force an interrupt
pub const BRK_IMPLIED: u8 = 0x00;

/// No Operation
pub const NOP_IMPLIED: u8 = 0xEA;

/// Return from interrupt
pub const RTI_IMPLIED: u8 = 0x40;

/// A general-purpose register.
#[derive(Clone, Copy, Debug, PartialEq, Eq, Structural)]
pub enum Register {
    /// The accumulator
    A,
    /// Index register X
    X,
    /// Index register Y
    Y,
}

/// A bitwise operation between the accumulator and an operand.
#[derive(Clone, Copy, Debug, PartialEq, Eq, Structural)]
pub enum LogicalOperation {
    /// Logical AND
    And,
    /// Logical inclusive OR
    Or,
    /// Exclusive OR
    Xor,
}

/// How an instruction's operand bytes become an effective address.
#[derive(Clone, Copy, Debug, PartialEq, Eq, Structural)]
pub enum AddressingMode {
    /// No operand.
    Implied,
    /// The operand is the accumulator.
    Accumulator,
    /// The operand is the byte after the opcode.
    Immediate,
    /// One operand byte addresses the zero page.
    ZeroPage,
    /// A zero-page address plus X, wrapping within the zero page.
    ZeroPageX,
    /// A zero-page address plus Y, wrapping within the zero page.
    ZeroPageY,
    /// Two operand bytes, low byte first, form the address.
    Absolute,
    /// An absolute address plus X.
    AbsoluteX,
    /// An absolute address plus Y.
    AbsoluteY,
    /// An absolute address holds a pointer to the target (jumps only).
    Indirect,
    /// A zero-page address plus X (wrapping) holds a pointer to the target.
    IndirectX,
    /// A zero-page address holds a pointer; Y is added to it.
    IndirectY,
}

/// What an opcode does: the class of operation with its operands.
#[derive(Clone, Copy, Debug, PartialEq, Eq, Structural)]
pub enum Op {
    /// Load a register from memory.
    Load(Register, AddressingMode),
    /// Store a register to memory.
    Store(Register, AddressingMode),
    /// Copy one register into another.
    Transfer(Register, Register),
    /// Copy the stack pointer into X.
    TransferStackPointerToX,
    /// Copy X into the stack pointer.
    TransferXToStackPointer,
    /// Push the accumulator.
    PushAccumulator,
    /// Push the status flags.
    PushStatus,
    /// Pull the accumulator.
    PullAccumulator,
    /// Pull the status flags.
    PullStatus,
    /// AND, OR or XOR an operand into the accumulator.
    Logical(LogicalOperation, AddressingMode),
    /// Test bits of a memory operand against the accumulator.
    BitTest(AddressingMode),
    /// Add an operand and the carry to the accumulator.
    AddWithCarry(AddressingMode),
    /// Subtract an operand and the borrow from the accumulator.
    SubtractWithCarry(AddressingMode),
    /// Compare a register with an operand.
    Compare(Register, AddressingMode),
    /// Add one to a memory location.
    IncrementMemory(AddressingMode),
    /// Subtract one from a memory location.
    DecrementMemory(AddressingMode),
    /// Add one to an index register.
    IncrementRegister(Register),
    /// Subtract one from an index register.
    DecrementRegister(Register),
    /// Shift left one bit.
    ShiftLeft(AddressingMode),
    /// Shift right one bit.
    ShiftRight(AddressingMode),
    /// Rotate left one bit through the carry.
    RotateLeft(AddressingMode),
    /// Rotate right one bit through the carry.
    RotateRight(AddressingMode),
    /// Continue at another address.
    Jump(AddressingMode),
    /// Call a subroutine.
    JumpToSubroutine,
    /// Return from a subroutine.
    ReturnFromSubroutine,
    /// Take a relative branch when the flag has the given state.
    Branch(Flag, bool),
    /// Set or clear a flag.
    SetFlag(Flag, bool),
    /// Software interrupt.
    Break,
    /// Do nothing.
    NoOperation,
    /// Return from an interrupt handler.
    ReturnFromInterrupt,
}

/// Whether `mode` reaches its operand through a pointer.
pub open spec fn is_indirect(mode: AddressingMode) -> bool {
    mode == AddressingMode::Indirect || mode == AddressingMode::IndirectX || mode
        == AddressingMode::IndirectY
}

/// Read-modify-write operations take no operand through a pointer; this keeps
/// every instruction of the table within seven cycles.
pub open spec fn within_cycle_bound(op: Op) -> bool {
    match op {
        Op::IncrementMemory(mode) | Op::DecrementMemory(mode) | Op::ShiftLeft(mode)
        | Op::ShiftRight(mode) | Op::RotateLeft(mode) | Op::RotateRight(mode) => !is_indirect(mode),
        _ => true,
    }
}

/// The opcode table: what each opcode byte means, `None` for an illegal one.
#[verifier::opaque]
pub open spec fn decode(opcode: u8) -> Option<Op> {
    match opcode {

        LDA_IMMEDIATE => Some(Op::Load(Register::A, AddressingMode::Immediate)),
        LDA_ZERO_PAGE => Some(Op::Load(Register::A, AddressingMode::ZeroPage)),
        LDA_ZERO_PAGE_X => Some(Op::Load(Register::A, AddressingMode::ZeroPageX)),
        LDA_ABSOLUTE => Some(Op::Load(Register::A, AddressingMode::Absolute)),
        LDA_ABSOLUTE_X => Some(Op::Load(Register::A, AddressingMode::AbsoluteX)),
        LDA_ABSOLUTE_Y => Some(Op::Load(Register::A, AddressingMode::AbsoluteY)),
        LDA_INDIRECT_X => Some(Op::Load(Register::A, AddressingMode::IndirectX)),
        LDA_INDIRECT_Y => Some(Op::Load(Register::A, AddressingMode::IndirectY)),
        LDX_IMMEDIATE => Some(Op::Load(Register::X, AddressingMode::Immediate)),
        LDX_ZERO_PAGE => Some(Op::Load(Register::X, AddressingMode::ZeroPage)),
        LDX_ZERO_PAGE_Y => Some(Op::Load(Register::X, AddressingMode::ZeroPageY)),
        LDX_ABSOLUTE => Some(Op::Load(Register::X, AddressingMode::Absolute)),
        LDX_ABSOLUTE_Y => Some(Op::Load(Register::X, AddressingMode::AbsoluteY)),
        LDY_IMMEDIATE => Some(Op::Load(Register::Y, AddressingMode::Immediate)),
        LDY_ZERO_PAGE => Some(Op::Load(Register::Y, AddressingMode::ZeroPage)),
        LDY_ZERO_PAGE_X => Some(Op::Load(Register::Y, AddressingMode::ZeroPageX)),
        LDY_ABSOLUTE => Some(Op::Load(Register::Y, AddressingMode::Absolute)),
        LDY_ABSOLUTE_X => Some(Op::Load(Register::Y, AddressingMode::AbsoluteX)),
        STA_ZERO_PAGE => Some(Op::Store(Register::A, AddressingMode::ZeroPage)),
        STA_ZERO_PAGE_X => Some(Op::Store(Register::A, AddressingMode::ZeroPageX)),
        STA_ABSOLUTE => Some(Op::Store(Register::A, AddressingMode::Absolute)),
        STA_ABSOLUTE_X => Some(Op::Store(Register::A, AddressingMode::AbsoluteX)),
        STA_ABSOLUTE_Y => Some(Op::Store(Register::A, AddressingMode::AbsoluteY)),
        STA_INDIRECT_X => Some(Op::Store(Register::A, AddressingMode::IndirectX)),
        STA_INDIRECT_Y => Some(Op::Store(Register::A, AddressingMode::IndirectY)),
        STX_ZERO_PAGE => Some(Op::Store(Register::X, AddressingMode::ZeroPage)),
        STX_ZERO_PAGE_Y => Some(Op::Store(Register::X, AddressingMode::ZeroPageY)),
        STX_ABSOLUTE => Some(Op::Store(Register::X, AddressingMode::Absolute)),
        STY_ZERO_PAGE => Some(Op::Store(Register::Y, AddressingMode::ZeroPage)),
        STY_ZERO_PAGE_X => Some(Op::Store(Register::Y, AddressingMode::ZeroPageX)),
        STY_ABSOLUTE => Some(Op::Store(Register::Y, AddressingMode::Absolute)),
        TAX_IMPLIED => Some(Op::Transfer(Register::A, Register::X)),
        TAY_IMPLIED => Some(Op::Transfer(Register::A, Register::Y)),
        TXA_IMPLIED => Some(Op::Transfer(Register::X, Register::A)),
        TYA_IMPLIED => Some(Op::Transfer(Register::Y, Register::A)),
        TSX_IMPLIED => Some(Op::TransferStackPointerToX),
        TXS_IMPLIED => Some(Op::TransferXToStackPointer),
        PHA_IMPLIED => Some(Op::PushAccumulator),
        PHP_IMPLIED => Some(Op::PushStatus),
        PLA_IMPLIED => Some(Op::PullAccumulator),
        PLP_IMPLIED => Some(Op::PullStatus),
        AND_IMMEDIATE => Some(Op::Logical(LogicalOperation::And, AddressingMode::Immediate)),
        AND_ZERO_PAGE => Some(Op::Logical(LogicalOperation::And, AddressingMode::ZeroPage)),
        AND_ZERO_PAGE_X => Some(Op::Logical(LogicalOperation::And, AddressingMode::ZeroPageX)),
        AND_ABSOLUTE => Some(Op::Logical(LogicalOperation::And, AddressingMode::Absolute)),
        AND_ABSOLUTE_X => Some(Op::Logical(LogicalOperation::And, AddressingMode::AbsoluteX)),
        AND_ABSOLUTE_Y => Some(Op::Logical(LogicalOperation::And, AddressingMode::AbsoluteY)),
        AND_INDIRECT_X => Some(Op::Logical(LogicalOperation::And, AddressingMode::IndirectX)),
        AND_INDIRECT_Y => Some(Op::Logical(LogicalOperation::And, AddressingMode::IndirectY)),
        EOR_IMMEDIATE => Some(Op::Logical(LogicalOperation::Xor, AddressingMode::Immediate)),
        EOR_ZERO_PAGE => Some(Op::Logical(LogicalOperation::Xor, AddressingMode::ZeroPage)),
        EOR_ZERO_PAGE_X => Some(Op::Logical(LogicalOperation::Xor, AddressingMode::ZeroPageX)),
        EOR_ABSOLUTE => Some(Op::Logical(LogicalOperation::Xor, AddressingMode::Absolute)),
        EOR_ABSOLUTE_X => Some(Op::Logical(LogicalOperation::Xor, AddressingMode::AbsoluteX)),
        EOR_ABSOLUTE_Y => Some(Op::Logical(LogicalOperation::Xor, AddressingMode::AbsoluteY)),
        EOR_INDIRECT_X => Some(Op::Logical(LogicalOperation::Xor, AddressingMode::IndirectX)),
        EOR_INDIRECT_Y => Some(Op::Logical(LogicalOperation::Xor, AddressingMode::IndirectY)),
        ORA_IMMEDIATE => Some(Op::Logical(LogicalOperation::Or, AddressingMode::Immediate)),
        ORA_ZERO_PAGE => Some(Op::Logical(LogicalOperation::Or, AddressingMode::ZeroPage)),
        ORA_ZERO_PAGE_X => Some(Op::Logical(LogicalOperation::Or, AddressingMode::ZeroPageX)),
        ORA_ABSOLUTE => Some(Op::Logical(LogicalOperation::Or, AddressingMode::Absolute)),
        ORA_ABSOLUTE_X => Some(Op::Logical(LogicalOperation::Or, AddressingMode::AbsoluteX)),
        ORA_ABSOLUTE_Y => Some(Op::Logical(LogicalOperation::Or, AddressingMode::AbsoluteY)),
        ORA_INDIRECT_X => Some(Op::Logical(LogicalOperation::Or, AddressingMode::IndirectX)),
        ORA_INDIRECT_Y => Some(Op::Logical(LogicalOperation::Or, AddressingMode::IndirectY)),
        BIT_ZERO_PAGE => Some(Op::BitTest(AddressingMode::ZeroPage)),
        BIT_ABSOLUTE => Some(Op::BitTest(AddressingMode::Absolute)),
        ADC_IMMEDIATE => Some(Op::AddWithCarry(AddressingMode::Immediate)),
        ADC_ZERO_PAGE => Some(Op::AddWithCarry(AddressingMode::ZeroPage)),
        ADC_ZERO_PAGE_X => Some(Op::AddWithCarry(AddressingMode::ZeroPageX)),
        ADC_ABSOLUTE => Some(Op::AddWithCarry(AddressingMode::Absolute)),
        ADC_ABSOLUTE_X => Some(Op::AddWithCarry(AddressingMode::AbsoluteX)),
        ADC_ABSOLUTE_Y => Some(Op::AddWithCarry(AddressingMode::AbsoluteY)),
        ADC_INDIRECT_X => Some(Op::AddWithCarry(AddressingMode::IndirectX)),
        ADC_INDIRECT_Y => Some(Op::AddWithCarry(AddressingMode::IndirectY)),
        SBC_IMMEDIATE => Some(Op::SubtractWithCarry(AddressingMode::Immediate)),
        SBC_ZERO_PAGE => Some(Op::SubtractWithCarry(AddressingMode::ZeroPage)),
        SBC_ZERO_PAGE_X => Some(Op::SubtractWithCarry(AddressingMode::ZeroPageX)),
        SBC_ABSOLUTE => Some(Op::SubtractWithCarry(AddressingMode::Absolute)),
        SBC_ABSOLUTE_X => Some(Op::SubtractWithCarry(AddressingMode::AbsoluteX)),
        SBC_ABSOLUTE_Y => Some(Op::SubtractWithCarry(AddressingMode::AbsoluteY)),
        SBC_INDIRECT_X => Some(Op::SubtractWithCarry(AddressingMode::IndirectX)),
        SBC_INDIRECT_Y => Some(Op::SubtractWithCarry(AddressingMode::IndirectY)),
        CMP_IMMEDIATE => Some(Op::Compare(Register::A, AddressingMode::Immediate)),
        CMP_ZERO_PAGE => Some(Op::Compare(Register::A, AddressingMode::ZeroPage)),
        CMP_ZERO_PAGE_X => Some(Op::Compare(Register::A, AddressingMode::ZeroPageX)),
        CMP_ABSOLUTE => Some(Op::Compare(Register::A, AddressingMode::Absolute)),
        CMP_ABSOLUTE_X => Some(Op::Compare(Register::A, AddressingMode::AbsoluteX)),
        CMP_ABSOLUTE_Y => Some(Op::Compare(Register::A, AddressingMode::AbsoluteY)),
        CMP_INDIRECT_X => Some(Op::Compare(Register::A, AddressingMode::IndirectX)),
        CMP_INDIRECT_Y => Some(Op::Compare(Register::A, AddressingMode::IndirectY)),
        CPX_IMMEDIATE => Some(Op::Compare(Register::X, AddressingMode::Immediate)),
        CPX_ZERO_PAGE => Some(Op::Compare(Register::X, AddressingMode::ZeroPage)),
        CPX_ABSOLUTE => Some(Op::Compare(Register::X, AddressingMode::Absolute)),
        CPY_IMMEDIATE => Some(Op::Compare(Register::Y, AddressingMode::Immediate)),
        CPY_ZERO_PAGE => Some(Op::Compare(Register::Y, AddressingMode::ZeroPage)),
        CPY_ABSOLUTE => Some(Op::Compare(Register::Y, AddressingMode::Absolute)),
        INC_ZERO_PAGE => Some(Op::IncrementMemory(AddressingMode::ZeroPage)),
        INC_ZERO_PAGE_X => Some(Op::IncrementMemory(AddressingMode::ZeroPageX)),
        INC_ABSOLUTE => Some(Op::IncrementMemory(AddressingMode::Absolute)),
        INC_ABSOLUTE_X => Some(Op::IncrementMemory(AddressingMode::AbsoluteX)),
        INX_IMPLIED => Some(Op::IncrementRegister(Register::X)),
        INY_IMPLIED => Some(Op::IncrementRegister(Register::Y)),
        DEC_ZERO_PAGE => Some(Op::DecrementMemory(AddressingMode::ZeroPage)),
        DEC_ZERO_PAGE_X => Some(Op::DecrementMemory(AddressingMode::ZeroPageX)),
        DEC_ABSOLUTE => Some(Op::DecrementMemory(AddressingMode::Absolute)),
        DEC_ABSOLUTE_X => Some(Op::DecrementMemory(AddressingMode::AbsoluteX)),
        DEX_IMPLIED => Some(Op::DecrementRegister(Register::X)),
        DEY_IMPLIED => Some(Op::DecrementRegister(Register::Y)),
        ASL_ACCUMULATOR => Some(Op::ShiftLeft(AddressingMode::Accumulator)),
        ASL_ZERO_PAGE => Some(Op::ShiftLeft(AddressingMode::ZeroPage)),
        ASL_ZERO_PAGE_X => Some(Op::ShiftLeft(AddressingMode::ZeroPageX)),
        ASL_ABSOLUTE => Some(Op::ShiftLeft(AddressingMode::Absolute)),
        ASL_ABSOLUTE_X => Some(Op::ShiftLeft(AddressingMode::AbsoluteX)),
        LSR_ACCUMULATOR => Some(Op::ShiftRight(AddressingMode::Accumulator)),
        LSR_ZERO_PAGE => Some(Op::ShiftRight(AddressingMode::ZeroPage)),
        LSR_ZERO_PAGE_X => Some(Op::ShiftRight(AddressingMode::ZeroPageX)),
        LSR_ABSOLUTE => Some(Op::ShiftRight(AddressingMode::Absolute)),
        LSR_ABSOLUTE_X => Some(Op::ShiftRight(AddressingMode::AbsoluteX)),
        ROL_ACCUMULATOR => Some(Op::RotateLeft(AddressingMode::Accumulator)),
        ROL_ZERO_PAGE => Some(Op::RotateLeft(AddressingMode::ZeroPage)),
        ROL_ZERO_PAGE_X => Some(Op::RotateLeft(AddressingMode::ZeroPageX)),
        ROL_ABSOLUTE => Some(Op::RotateLeft(AddressingMode::Absolute)),
        ROL_ABSOLUTE_X => Some(Op::RotateLeft(AddressingMode::AbsoluteX)),
        ROR_ACCUMULATOR => Some(Op::RotateRight(AddressingMode::Accumulator)),
        ROR_ZERO_PAGE => Some(Op::RotateRight(AddressingMode::ZeroPage)),
        ROR_ZERO_PAGE_X => Some(Op::RotateRight(AddressingMode::ZeroPageX)),
        ROR_ABSOLUTE => Some(Op::RotateRight(AddressingMode::Absolute)),
        ROR_ABSOLUTE_X => Some(Op::RotateRight(AddressingMode::AbsoluteX)),
        JMP_ABSOLUTE => Some(Op::Jump(AddressingMode::Absolute)),
        JMP_INDIRECT => Some(Op::Jump(AddressingMode::Indirect)),
        JSR_ABSOLUTE => Some(Op::JumpToSubroutine),
        RTS_IMPLIED => Some(Op::ReturnFromSubroutine),
        BCC_RELATIVE => Some(Op::Branch(Flag::Carry, false)),
        BCS_RELATIVE => Some(Op::Branch(Flag::Carry, true)),
        BEQ_RELATIVE => Some(Op::Branch(Flag::Zero, true)),
        BMI_RELATIVE => Some(Op::Branch(Flag::Negative, true)),
        BNE_RELATIVE => Some(Op::Branch(Flag::Zero, false)),
        BPL_RELATIVE => Some(Op::Branch(Flag::Negative, false)),
        BVC_RELATIVE => Some(Op::Branch(Flag::Overflow, false)),
        BVS_RELATIVE => Some(Op::Branch(Flag::Overflow, true)),
        CLC_IMPLIED => Some(Op::SetFlag(Flag::Carry, false)),
        CLD_IMPLIED => Some(Op::SetFlag(Flag::DecimalMode, false)),
        CLI_IMPLIED => Some(Op::SetFlag(Flag::IrqDisable, false)),
        CLV_IMPLIED => Some(Op::SetFlag(Flag::Overflow, false)),
        SEC_IMPLIED => Some(Op::SetFlag(Flag::Carry, true)),
        SED_IMPLIED => Some(Op::SetFlag(Flag::DecimalMode, true)),
        SEI_IMPLIED => Some(Op::SetFlag(Flag::IrqDisable, true)),
        BRK_IMPLIED => Some(Op::Break),
        NOP_IMPLIED => Some(Op::NoOperation),
        RTI_IMPLIED => Some(Op::ReturnFromInterrupt),
        _ => None,
    }
}

impl Op {
    /// The operation that `opcode` encodes, or `None` for an illegal opcode.
    pub fn by_opcode(opcode: u8) -> (r: Option<Op>)
        ensures
            r == decode(opcode),
            r.is_some() ==> within_cycle_bound(r.unwrap()),
    {
        match Instruction::by_opcode(opcode) {
            Some(instruction) => Some(instruction.op),
            None => None,
        }
    }
}

/// An opcode together with its decoded operation.
#[derive(Clone, Copy, Debug, PartialEq, Eq, Structural)]
pub struct Instruction {
    pub opcode: u8,
    pub op: Op,
}

impl Instruction {
    pub fn new(opcode: u8, op: Op) -> (r: Instruction)
        ensures
            r.opcode == opcode,
            r.op == op,
    {
        Instruction { opcode, op }
    }

    /// The table entry for `opcode`, or `None` for an illegal opcode.
    pub fn by_opcode(opcode: u8) -> (r: Option<Instruction>)
        ensures
            match decode(opcode) {
                Some(op) => r == Some(Instruction { opcode, op }),
                None => r is None,
            },
            r.is_some() ==> within_cycle_bound(r.unwrap().op),
    {
        reveal(decode);
        let op = match opcode {

            LDA_IMMEDIATE => Op::Load(Register::A, AddressingMode::Immediate),
            LDA_ZERO_PAGE => Op::Load(Register::A, AddressingMode::ZeroPage),
            LDA_ZERO_PAGE_X => Op::Load(Register::A, AddressingMode::ZeroPageX),
            LDA_ABSOLUTE => Op::Load(Register::A, AddressingMode::Absolute),
            LDA_ABSOLUTE_X => Op::Load(Register::A, AddressingMode::AbsoluteX),
            LDA_ABSOLUTE_Y => Op::Load(Register::A, AddressingMode::AbsoluteY),
            LDA_INDIRECT_X => Op::Load(Register::A, AddressingMode::IndirectX),
            LDA_INDIRECT_Y => Op::Load(Register::A, AddressingMode::IndirectY),
            LDX_IMMEDIATE => Op::Load(Register::X, AddressingMode::Immediate),
            LDX_ZERO_PAGE => Op::Load(Register::X, AddressingMode::ZeroPage),
            LDX_ZERO_PAGE_Y => Op::Load(Register::X, AddressingMode::ZeroPageY),
            LDX_ABSOLUTE => Op::Load(Register::X, AddressingMode::Absolute),
            LDX_ABSOLUTE_Y => Op::Load(Register::X, AddressingMode::AbsoluteY),
            LDY_IMMEDIATE => Op::Load(Register::Y, AddressingMode::Immediate),
            LDY_ZERO_PAGE => Op::Load(Register::Y, AddressingMode::ZeroPage),
            LDY_ZERO_PAGE_X => Op::Load(Register::Y, AddressingMode::ZeroPageX),
            LDY_ABSOLUTE => Op::Load(Register::Y, AddressingMode::Absolute),
            LDY_ABSOLUTE_X => Op::Load(Register::Y, AddressingMode::AbsoluteX),
            STA_ZERO_PAGE => Op::Store(Register::A, AddressingMode::ZeroPage),
            STA_ZERO_PAGE_X => Op::Store(Register::A, AddressingMode::ZeroPageX),
            STA_ABSOLUTE => Op::Store(Register::A, AddressingMode::Absolute),
            STA_ABSOLUTE_X => Op::Store(Register::A, AddressingMode::AbsoluteX),
            STA_ABSOLUTE_Y => Op::Store(Register::A, AddressingMode::AbsoluteY),
            STA_INDIRECT_X => Op::Store(Register::A, AddressingMode::IndirectX),
            STA_INDIRECT_Y => Op::Store(Register::A, AddressingMode::IndirectY),
            STX_ZERO_PAGE => Op::Store(Register::X, AddressingMode::ZeroPage),
            STX_ZERO_PAGE_Y => Op::Store(Register::X, AddressingMode::ZeroPageY),
            STX_ABSOLUTE => Op::Store(Register::X, AddressingMode::Absolute),
            STY_ZERO_PAGE => Op::Store(Register::Y, AddressingMode::ZeroPage),
            STY_ZERO_PAGE_X => Op::Store(Register::Y, AddressingMode::ZeroPageX),
            STY_ABSOLUTE => Op::Store(Register::Y, AddressingMode::Absolute),
            TAX_IMPLIED => Op::Transfer(Register::A, Register::X),
            TAY_IMPLIED => Op::Transfer(Register::A, Register::Y),
            TXA_IMPLIED => Op::Transfer(Register::X, Register::A),
            TYA_IMPLIED => Op::Transfer(Register::Y, Register::A),
            TSX_IMPLIED => Op::TransferStackPointerToX,
            TXS_IMPLIED => Op::TransferXToStackPointer,
            PHA_IMPLIED => Op::PushAccumulator,
            PHP_IMPLIED => Op::PushStatus,
            PLA_IMPLIED => Op::PullAccumulator,
            PLP_IMPLIED => Op::PullStatus,
            AND_IMMEDIATE => Op::Logical(LogicalOperation::And, AddressingMode::Immediate),
            AND_ZERO_PAGE => Op::Logical(LogicalOperation::And, AddressingMode::ZeroPage),
            AND_ZERO_PAGE_X => Op::Logical(LogicalOperation::And, AddressingMode::ZeroPageX),
            AND_ABSOLUTE => Op::Logical(LogicalOperation::And, AddressingMode::Absolute),
            AND_ABSOLUTE_X => Op::Logical(LogicalOperation::And, AddressingMode::AbsoluteX),
            AND_ABSOLUTE_Y => Op::Logical(LogicalOperation::And, AddressingMode::AbsoluteY),
            AND_INDIRECT_X => Op::Logical(LogicalOperation::And, AddressingMode::IndirectX),
            AND_INDIRECT_Y => Op::Logical(LogicalOperation::And, AddressingMode::IndirectY),
            EOR_IMMEDIATE => Op::Logical(LogicalOperation::Xor, AddressingMode::Immediate),
            EOR_ZERO_PAGE => Op::Logical(LogicalOperation::Xor, AddressingMode::ZeroPage),
            EOR_ZERO_PAGE_X => Op::Logical(LogicalOperation::Xor, AddressingMode::ZeroPageX),
            EOR_ABSOLUTE => Op::Logical(LogicalOperation::Xor, AddressingMode::Absolute),
            EOR_ABSOLUTE_X => Op::Logical(LogicalOperation::Xor, AddressingMode::AbsoluteX),
            EOR_ABSOLUTE_Y => Op::Logical(LogicalOperation::Xor, AddressingMode::AbsoluteY),
            EOR_INDIRECT_X => Op::Logical(LogicalOperation::Xor, AddressingMode::IndirectX),
            EOR_INDIRECT_Y => Op::Logical(LogicalOperation::Xor, AddressingMode::IndirectY),
            ORA_IMMEDIATE => Op::Logical(LogicalOperation::Or, AddressingMode::Immediate),
            ORA_ZERO_PAGE => Op::Logical(LogicalOperation::Or, AddressingMode::ZeroPage),
            ORA_ZERO_PAGE_X => Op::Logical(LogicalOperation::Or, AddressingMode::ZeroPageX),
            ORA_ABSOLUTE => Op::Logical(LogicalOperation::Or, AddressingMode::Absolute),
            ORA_ABSOLUTE_X => Op::Logical(LogicalOperation::Or, AddressingMode::AbsoluteX),
            ORA_ABSOLUTE_Y => Op::Logical(LogicalOperation::Or, AddressingMode::AbsoluteY),
            ORA_INDIRECT_X => Op::Logical(LogicalOperation::Or, AddressingMode::IndirectX),
            ORA_INDIRECT_Y => Op::Logical(LogicalOperation::Or, AddressingMode::IndirectY),
            BIT_ZERO_PAGE => Op::BitTest(AddressingMode::ZeroPage),
            BIT_ABSOLUTE => Op::BitTest(AddressingMode::Absolute),
            ADC_IMMEDIATE => Op::AddWithCarry(AddressingMode::Immediate),
            ADC_ZERO_PAGE => Op::AddWithCarry(AddressingMode::ZeroPage),
            ADC_ZERO_PAGE_X => Op::AddWithCarry(AddressingMode::ZeroPageX),
            ADC_ABSOLUTE => Op::AddWithCarry(AddressingMode::Absolute),
            ADC_ABSOLUTE_X => Op::AddWithCarry(AddressingMode::AbsoluteX),
            ADC_ABSOLUTE_Y => Op::AddWithCarry(AddressingMode::AbsoluteY),
            ADC_INDIRECT_X => Op::AddWithCarry(AddressingMode::IndirectX),
            ADC_INDIRECT_Y => Op::AddWithCarry(AddressingMode::IndirectY),
            SBC_IMMEDIATE => Op::SubtractWithCarry(AddressingMode::Immediate),
            SBC_ZERO_PAGE => Op::SubtractWithCarry(AddressingMode::ZeroPage),
            SBC_ZERO_PAGE_X => Op::SubtractWithCarry(AddressingMode::ZeroPageX),
            SBC_ABSOLUTE => Op::SubtractWithCarry(AddressingMode::Absolute),
            SBC_ABSOLUTE_X => Op::SubtractWithCarry(AddressingMode::AbsoluteX),
            SBC_ABSOLUTE_Y => Op::SubtractWithCarry(AddressingMode::AbsoluteY),
            SBC_INDIRECT_X => Op::SubtractWithCarry(AddressingMode::IndirectX),
            SBC_INDIRECT_Y => Op::SubtractWithCarry(AddressingMode::IndirectY),
            CMP_IMMEDIATE => Op::Compare(Register::A, AddressingMode::Immediate),
            CMP_ZERO_PAGE => Op::Compare(Register::A, AddressingMode::ZeroPage),
            CMP_ZERO_PAGE_X => Op::Compare(Register::A, AddressingMode::ZeroPageX),
            CMP_ABSOLUTE => Op::Compare(Register::A, AddressingMode::Absolute),
            CMP_ABSOLUTE_X => Op::Compare(Register::A, AddressingMode::AbsoluteX),
            CMP_ABSOLUTE_Y => Op::Compare(Register::A, AddressingMode::AbsoluteY),
            CMP_INDIRECT_X => Op::Compare(Register::A, AddressingMode::IndirectX),
            CMP_INDIRECT_Y => Op::Compare(Register::A, AddressingMode::IndirectY),
            CPX_IMMEDIATE => Op::Compare(Register::X, AddressingMode::Immediate),
            CPX_ZERO_PAGE => Op::Compare(Register::X, AddressingMode::ZeroPage),
            CPX_ABSOLUTE => Op::Compare(Register::X, AddressingMode::Absolute),
            CPY_IMMEDIATE => Op::Compare(Register::Y, AddressingMode::Immediate),
            CPY_ZERO_PAGE => Op::Compare(Register::Y, AddressingMode::ZeroPage),
            CPY_ABSOLUTE => Op::Compare(Register::Y, AddressingMode::Absolute),
            INC_ZERO_PAGE => Op::IncrementMemory(AddressingMode::ZeroPage),
            INC_ZERO_PAGE_X => Op::IncrementMemory(AddressingMode::ZeroPageX),
            INC_ABSOLUTE => Op::IncrementMemory(AddressingMode::Absolute),
            INC_ABSOLUTE_X => Op::IncrementMemory(AddressingMode::AbsoluteX),
            INX_IMPLIED => Op::IncrementRegister(Register::X),
            INY_IMPLIED => Op::IncrementRegister(Register::Y),
            DEC_ZERO_PAGE => Op::DecrementMemory(AddressingMode::ZeroPage),
            DEC_ZERO_PAGE_X => Op::DecrementMemory(AddressingMode::ZeroPageX),
            DEC_ABSOLUTE => Op::DecrementMemory(AddressingMode::Absolute),
            DEC_ABSOLUTE_X => Op::DecrementMemory(AddressingMode::AbsoluteX),
            DEX_IMPLIED => Op::DecrementRegister(Register::X),
            DEY_IMPLIED => Op::DecrementRegister(Register::Y),
            ASL_ACCUMULATOR => Op::ShiftLeft(AddressingMode::Accumulator),
            ASL_ZERO_PAGE => Op::ShiftLeft(AddressingMode::ZeroPage),
            ASL_ZERO_PAGE_X => Op::ShiftLeft(AddressingMode::ZeroPageX),
            ASL_ABSOLUTE => Op::ShiftLeft(AddressingMode::Absolute),
            ASL_ABSOLUTE_X => Op::ShiftLeft(AddressingMode::AbsoluteX),
            LSR_ACCUMULATOR => Op::ShiftRight(AddressingMode::Accumulator),
            LSR_ZERO_PAGE => Op::ShiftRight(AddressingMode::ZeroPage),
            LSR_ZERO_PAGE_X => Op::ShiftRight(AddressingMode::ZeroPageX),
            LSR_ABSOLUTE => Op::ShiftRight(AddressingMode::Absolute),
            LSR_ABSOLUTE_X => Op::ShiftRight(AddressingMode::AbsoluteX),
            ROL_ACCUMULATOR => Op::RotateLeft(AddressingMode::Accumulator),
            ROL_ZERO_PAGE => Op::RotateLeft(AddressingMode::ZeroPage),
            ROL_ZERO_PAGE_X => Op::RotateLeft(AddressingMode::ZeroPageX),
            ROL_ABSOLUTE => Op::RotateLeft(AddressingMode::Absolute),
            ROL_ABSOLUTE_X => Op::RotateLeft(AddressingMode::AbsoluteX),
            ROR_ACCUMULATOR => Op::RotateRight(AddressingMode::Accumulator),
            ROR_ZERO_PAGE => Op::RotateRight(AddressingMode::ZeroPage),
            ROR_ZERO_PAGE_X => Op::RotateRight(AddressingMode::ZeroPageX),
            ROR_ABSOLUTE => Op::RotateRight(AddressingMode::Absolute),
            ROR_ABSOLUTE_X => Op::RotateRight(AddressingMode::AbsoluteX),
            JMP_ABSOLUTE => Op::Jump(AddressingMode::Absolute),
            JMP_INDIRECT => Op::Jump(AddressingMode::Indirect),
            JSR_ABSOLUTE => Op::JumpToSubroutine,
            RTS_IMPLIED => Op::ReturnFromSubroutine,
            BCC_RELATIVE => Op::Branch(Flag::Carry, false),
            BCS_RELATIVE => Op::Branch(Flag::Carry, true),
            BEQ_RELATIVE => Op::Branch(Flag::Zero, true),
            BMI_RELATIVE => Op::Branch(Flag::Negative, true),
            BNE_RELATIVE => Op::Branch(Flag::Zero, false),
            BPL_RELATIVE => Op::Branch(Flag::Negative, false),
            BVC_RELATIVE => Op::Branch(Flag::Overflow, false),
            BVS_RELATIVE => Op::Branch(Flag::Overflow, true),
            CLC_IMPLIED => Op::SetFlag(Flag::Carry, false),
            CLD_IMPLIED => Op::SetFlag(Flag::DecimalMode, false),
            CLI_IMPLIED => Op::SetFlag(Flag::IrqDisable, false),
            CLV_IMPLIED => Op::SetFlag(Flag::Overflow, false),
            SEC_IMPLIED => Op::SetFlag(Flag::Carry, true),
            SED_IMPLIED => Op::SetFlag(Flag::DecimalMode, true),
            SEI_IMPLIED => Op::SetFlag(Flag::IrqDisable, true),
            BRK_IMPLIED => Op::Break,
            NOP_IMPLIED => Op::NoOperation,
            RTI_IMPLIED => Op::ReturnFromInterrupt,
            _ => {
                return None;
            },
        };
        Some(Instruction::new(opcode, op))
    }
}

} // verus!
