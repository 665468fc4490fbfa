//! The opcode map: which operation and which addressing mode each of the
//! 256 opcode bytes stands for.

use vstd::prelude::*;

verus! {

/// How an instruction finds the address it works on.
#[derive(Clone, Copy, Debug, PartialEq, Eq, Structural)]
pub enum AddressingMode {
    /// The instruction has no operand in memory.
    Implied,
    Immediate,
    ZeroPage,
    ZeroPageX,
    ZeroPageY,
    ZeroPageXIndirect,
    ZeroPageYIndirect,
    Absolute,
    AbsoluteX,
    AbsoluteY,
    AbsoluteIndirect,
    Relative,
}

/// What an instruction does.
#[derive(Clone, Copy, Debug, PartialEq, Eq, Structural)]
pub enum Operation {
    /// An opcode that stands for no instruction; it does nothing.
    Invalid,
    NoOperation,
    Or,
    And,
    ExclusiveOr,
    AddWithCarry,
    SubtractWithCarry,
    CompareA,
    CompareX,
    CompareY,
    BitTest,
    LoadA,
    LoadX,
    LoadY,
    StoreA,
    StoreX,
    StoreY,
    TransferAX,
    TransferXA,
    TransferAY,
    TransferYA,
    TransferSPX,
    TransferXSP,
    BranchOnCarrySet,
    BranchOnCarryReset,
    BranchOnZeroSet,
    BranchOnZeroReset,
    BranchOnNegativeSet,
    BranchOnNegativeReset,
    BranchOnOverflowSet,
    BranchOnOverflowReset,
    SetCarry,
    SetDecimal,
    SetInterrupt,
    ClearCarry,
    ClearDecimal,
    ClearInterrupt,
    ClearOverflow,
    PushA,
    PushStatus,
    PullA,
    PullStatus,
    Increment,
    Decrement,
    IncrementX,
    IncrementY,
    DecrementX,
    DecrementY,
    Break,
    ReturnFromInterrupt,
    Jump,
    JumpSubroutine,
    ReturnFromSubroutine,
    ShiftLeft,
    ShiftLeftA,
    ShiftRight,
    ShiftRightA,
    RotateLeft,
    RotateLeftA,
    RotateRight,
    RotateRightA,
}

/// An operation with its addressing mode.
#[derive(Clone, Copy, Debug, PartialEq, Eq, Structural)]
pub struct Instruction {
    pub operation: Operation,
    pub mode: AddressingMode,
}

/// The instruction that `opcode` stands for.
pub open spec fn instruction_of(opcode: u8) -> Instruction {
    match opcode {
        0x00 => Instruction { operation: Operation::Break, mode: AddressingMode::Implied },
        0x01 => Instruction { operation: Operation::Or, mode: AddressingMode::ZeroPageXIndirect },
        0x05 => Instruction { operation: Operation::Or, mode: AddressingMode::ZeroPage },
        0x06 => Instruction { operation: Operation::ShiftLeft, mode: AddressingMode::ZeroPage },
        0x08 => Instruction { operation: Operation::PushStatus, mode: AddressingMode::Implied },
        0x09 => Instruction { operation: Operation::Or, mode: AddressingMode::Immediate },
        0x0a => Instruction { operation: Operation::ShiftLeftA, mode: AddressingMode::Implied },
        0x0d => Instruction { operation: Operation::Or, mode: AddressingMode::Absolute },
        0x0e => Instruction { operation: Operation::ShiftLeft, mode: AddressingMode::Absolute },
        0x10 => Instruction { operation: Operation::BranchOnNegativeReset, mode: AddressingMode::Relative },
        0x11 => Instruction { operation: Operation::Or, mode: AddressingMode::ZeroPageYIndirect },
        0x15 => Instruction { operation: Operation::Or, mode: AddressingMode::ZeroPageX },
        0x16 => Instruction { operation: Operation::ShiftLeft, mode: AddressingMode::ZeroPageX },
        0x18 => Instruction { operation: Operation::ClearCarry, mode: AddressingMode::Implied },
        0x19 => Instruction { operation: Operation::Or, mode: AddressingMode::AbsoluteY },
        0x1d => Instruction { operation: Operation::Or, mode: AddressingMode::AbsoluteX },
        0x1e => Instruction { operation: Operation::ShiftLeft, mode: AddressingMode::AbsoluteX },
        0x20 => Instruction { operation: Operation::JumpSubroutine, mode: AddressingMode::Absolute },
        0x21 => Instruction { operation: Operation::And, mode: AddressingMode::ZeroPageXIndirect },
        0x24 => Instruction { operation: Operation::BitTest, mode: AddressingMode::ZeroPage },
        0x25 => Instruction { operation: Operation::And, mode: AddressingMode::ZeroPage },
        0x26 => Instruction { operation: Operation::RotateLeft, mode: AddressingMode::ZeroPage },
        0x28 => Instruction { operation: Operation::PullStatus, mode: AddressingMode::Implied },
        0x29 => Instruction { operation: Operation::And, mode: AddressingMode::Immediate },
        0x2a => Instruction { operation: Operation::RotateLeftA, mode: AddressingMode::Implied },
        0x2c => Instruction { operation: Operation::BitTest, mode: AddressingMode::Absolute },
        0x2d => Instruction { operation: Operation::And, mode: AddressingMode::Absolute },
        0x2e => Instruction { operation: Operation::RotateLeft, mode: AddressingMode::Absolute },
        0x30 => Instruction { operation: Operation::BranchOnNegativeSet, mode: AddressingMode::Relative },
        0x31 => Instruction { operation: Operation::And, mode: AddressingMode::ZeroPageYIndirect },
        0x35 => Instruction { operation: Operation::And, mode: AddressingMode::ZeroPageX },
        0x36 => Instruction { operation: Operation::RotateLeft, mode: AddressingMode::ZeroPageX },
        0x38 => Instruction { operation: Operation::SetCarry, mode: AddressingMode::Implied },
        0x39 => Instruction { operation: Operation::And, mode: AddressingMode::AbsoluteY },
        0x3d => Instruction { operation: Operation::And, mode: AddressingMode::AbsoluteX },
        0x3e => Instruction { operation: Operation::RotateLeft, mode: AddressingMode::AbsoluteX },
        0x40 => Instruction { operation: Operation::ReturnFromInterrupt, mode: AddressingMode::Implied },
        0x41 => Instruction { operation: Operation::ExclusiveOr, mode: AddressingMode::ZeroPageXIndirect },
        0x45 => Instruction { operation: Operation::ExclusiveOr, mode: AddressingMode::ZeroPage },
        0x46 => Instruction { operation: Operation::ShiftRight, mode: AddressingMode::ZeroPage },
        0x48 => Instruction { operation: Operation::PushA, mode: AddressingMode::Implied },
        0x49 => Instruction { operation: Operation::ExclusiveOr, mode: AddressingMode::Immediate },
        0x4a => Instruction { operation: Operation::ShiftRightA, mode: AddressingMode::Implied },
        0x4c => Instruction { operation: Operation::Jump, mode: AddressingMode::Absolute },
        0x4d => Instruction { operation: Operation::ExclusiveOr, mode: AddressingMode::Absolute },
        0x4e => Instruction { operation: Operation::ShiftRight, mode: AddressingMode::Absolute },
        0x50 => Instruction { operation: Operation::BranchOnOverflowReset, mode: AddressingMode::Relative },
        0x51 => Instruction { operation: Operation::ExclusiveOr, mode: AddressingMode::ZeroPageYIndirect },
        0x55 => Instruction { operation: Operation::ExclusiveOr, mode: AddressingMode::ZeroPageX },
        0x56 => Instruction { operation: Operation::ShiftRight, mode: AddressingMode::ZeroPageX },
        0x58 => Instruction { operation: Operation::ClearInterrupt, mode: AddressingMode::Implied },
        0x59 => Instruction { operation: Operation::ExclusiveOr, mode: AddressingMode::AbsoluteY },
        0x5d => Instruction { operation: Operation::ExclusiveOr, mode: AddressingMode::AbsoluteX },
        0x5e => Instruction { operation: Operation::ShiftRight, mode: AddressingMode::AbsoluteX },
        0x60 => Instruction { operation: Operation::ReturnFromSubroutine, mode: AddressingMode::Implied },
        0x61 => Instruction { operation: Operation::AddWithCarry, mode: AddressingMode::ZeroPageXIndirect },
        0x65 => Instruction { operation: Operation::AddWithCarry, mode: AddressingMode::ZeroPage },
        0x66 => Instruction { operation: Operation::RotateRight, mode: AddressingMode::ZeroPage },
        0x68 => Instruction { operation: Operation::PullA, mode: AddressingMode::Implied },
        0x69 => Instruction { operation: Operation::AddWithCarry, mode: AddressingMode::Immediate },
        0x6a => Instruction { operation: Operation::RotateRightA, mode: AddressingMode::Implied },
        0x6c => Instruction { operation: Operation::Jump, mode: AddressingMode::AbsoluteIndirect },
        0x6d => Instruction { operation: Operation::AddWithCarry, mode: AddressingMode::Absolute },
        0x6e => Instruction { operation: Operation::RotateRight, mode: AddressingMode::Absolute },
        0x70 => Instruction { operation: Operation::BranchOnOverflowSet, mode: AddressingMode::Relative },
        0x71 => Instruction { operation: Operation::AddWithCarry, mode: AddressingMode::ZeroPageYIndirect },
        0x75 => Instruction { operation: Operation::AddWithCarry, mode: AddressingMode::ZeroPageX },
        0x76 => Instruction { operation: Operation::RotateRight, mode: AddressingMode::ZeroPageX },
        0x78 => Instruction { operation: Operation::SetInterrupt, mode: AddressingMode::Implied },
        0x79 => Instruction { operation: Operation::AddWithCarry, mode: AddressingMode::AbsoluteY },
        0x7d => Instruction { operation: Operation::AddWithCarry, mode: AddressingMode::AbsoluteX },
        0x7e => Instruction { operation: Operation::RotateRight, mode: AddressingMode::AbsoluteX },
        0x81 => Instruction { operation: Operation::StoreA, mode: AddressingMode::ZeroPageXIndirect },
        0x84 => Instruction { operation: Operation::StoreY, mode: AddressingMode::ZeroPage },
        0x85 => Instruction { operation: Operation::StoreA, mode: AddressingMode::ZeroPage },
        0x86 => Instruction { operation: Operation::StoreX, mode: AddressingMode::ZeroPage },
        0x88 => Instruction { operation: Operation::DecrementY, mode: AddressingMode::Implied },
        0x8a => Instruction { operation: Operation::TransferXA, mode: AddressingMode::Implied },
        0x8c => Instruction { operation: Operation::StoreY, mode: AddressingMode::Absolute },
        0x8d => Instruction { operation: Operation::StoreA, mode: AddressingMode::Absolute },
        0x8e => Instruction { operation: Operation::StoreX, mode: AddressingMode::Absolute },
        0x90 => Instruction { operation: Operation::BranchOnCarryReset, mode: AddressingMode::Relative },
        0x91 => Instruction { operation: Operation::StoreA, mode: AddressingMode::ZeroPageYIndirect },
        0x94 => Instruction { operation: Operation::StoreY, mode: AddressingMode::ZeroPageX },
        0x95 => Instruction { operation: Operation::StoreA, mode: AddressingMode::ZeroPageX },
        0x96 => Instruction { operation: Operation::StoreX, mode: AddressingMode::ZeroPageY },
        0x98 => Instruction { operation: Operation::TransferYA, mode: AddressingMode::Implied },
        0x99 => Instruction { operation: Operation::StoreA, mode: AddressingMode::AbsoluteY },
        0x9a => Instruction { operation: Operation::TransferXSP, mode: AddressingMode::Implied },
        0x9d => Instruction { operation: Operation::StoreA, mode: AddressingMode::AbsoluteX },
        0xa0 => Instruction { operation: Operation::LoadY, mode: AddressingMode::Immediate },
        0xa1 => Instruction { operation: Operation::LoadA, mode: AddressingMode::ZeroPageXIndirect },
        0xa2 => Instruction { operation: Operation::LoadX, mode: AddressingMode::Immediate },
        0xa4 => Instruction { operation: Operation::LoadY, mode: AddressingMode::ZeroPage },
        0xa5 => Instruction { operation: Operation::LoadA, mode: AddressingMode::ZeroPage },
        0xa6 => Instruction { operation: Operation::LoadX, mode: AddressingMode::ZeroPage },
        0xa8 => Instruction { operation: Operation::TransferAY, mode: AddressingMode::Implied },
        0xa9 => Instruction { operation: Operation::LoadA, mode: AddressingMode::Immediate },
        0xaa => Instruction { operation: Operation::TransferAX, mode: AddressingMode::Implied },
        0xac => Instruction { operation: Operation::LoadY, mode: AddressingMode::Absolute },
        0xad => Instruction { operation: Operation::LoadA, mode: AddressingMode::Absolute },
        0xae => Instruction { operation: Operation::LoadX, mode: AddressingMode::Absolute },
        0xb0 => Instruction { operation: Operation::BranchOnCarrySet, mode: AddressingMode::Relative },
        0xb1 => Instruction { operation: Operation::LoadA, mode: AddressingMode::ZeroPageYIndirect },
        0xb4 => Instruction { operation: Operation::LoadY, mode: AddressingMode::ZeroPageX },
        0xb5 => Instruction { operation: Operation::LoadA, mode: AddressingMode::ZeroPageX },
        0xb6 => Instruction { operation: Operation::LoadX, mode: AddressingMode::ZeroPageY },
        0xb8 => Instruction { operation: Operation::ClearOverflow, mode: AddressingMode::Implied },
        0xb9 => Instruction { operation: Operation::LoadA, mode: AddressingMode::AbsoluteY },
        0xba => Instruction { operation: Operation::TransferSPX, mode: AddressingMode::Implied },
        0xbc => Instruction { operation: Operation::LoadY, mode: AddressingMode::AbsoluteX },
        0xbd => Instruction { operation: Operation::LoadA, mode: AddressingMode::AbsoluteX },
        0xbe => Instruction { operation: Operation::LoadX, mode: AddressingMode::AbsoluteY },
        0xc0 => Instruction { operation: Operation::CompareY, mode: AddressingMode::Immediate },
        0xc1 => Instruction { operation: Operation::CompareA, mode: AddressingMode::ZeroPageXIndirect },
        0xc4 => Instruction { operation: Operation::CompareY, mode: AddressingMode::ZeroPage },
        0xc5 => Instruction { operation: Operation::CompareA, mode: AddressingMode::ZeroPage },
        0xc6 => Instruction { operation: Operation::Decrement, mode: AddressingMode::ZeroPage },
        0xc8 => Instruction { operation: Operation::IncrementY, mode: AddressingMode::Implied },
        0xc9 => Instruction { operation: Operation::CompareA, mode: AddressingMode::Immediate },
        0xca => Instruction { operation: Operation::DecrementX, mode: AddressingMode::Implied },
        0xcc => Instruction { operation: Operation::CompareY, mode: AddressingMode::Absolute },
        0xcd => Instruction { operation: Operation::CompareA, mode: AddressingMode::Absolute },
        0xce => Instruction { operation: Operation::Decrement, mode: AddressingMode::Absolute },
        0xd0 => Instruction { operation: Operation::BranchOnZeroReset, mode: AddressingMode::Relative },
        0xd1 => Instruction { operation: Operation::CompareA, mode: AddressingMode::ZeroPageYIndirect },
        0xd5 => Instruction { operation: Operation::CompareA, mode: AddressingMode::ZeroPageX },
        0xd6 => Instruction { operation: Operation::Decrement, mode: AddressingMode::ZeroPageX },
        0xd8 => Instruction { operation: Operation::ClearDecimal, mode: AddressingMode::Implied },
        0xd9 => Instruction { operation: Operation::CompareA, mode: AddressingMode::AbsoluteY },
        0xdd => Instruction { operation: Operation::CompareA, mode: AddressingMode::AbsoluteX },
        0xde => Instruction { operation: Operation::Decrement, mode: AddressingMode::AbsoluteX },
        0xe0 => Instruction { operation: Operation::CompareX, mode: AddressingMode::Immediate },
        0xe1 => Instruction { operation: Operation::SubtractWithCarry, mode: AddressingMode::ZeroPageXIndirect },
        0xe4 => Instruction { operation: Operation::CompareX, mode: AddressingMode::ZeroPage },
        0xe5 => Instruction { operation: Operation::SubtractWithCarry, mode: AddressingMode::ZeroPage },
        0xe6 => Instruction { operation: Operation::Increment, mode: AddressingMode::ZeroPage },
        0xe8 => Instruction { operation: Operation::IncrementX, mode: AddressingMode::Implied },
        0xe9 => Instruction { operation: Operation::SubtractWithCarry, mode: AddressingMode::Immediate },
        0xea => Instruction { operation: Operation::NoOperation, mode: AddressingMode::Implied },
        0xec => Instruction { operation: Operation::CompareX, mode: AddressingMode::Absolute },
        0xed => Instruction { operation: Operation::SubtractWithCarry, mode: AddressingMode::Absolute },
        0xee => Instruction { operation: Operation::Increment, mode: AddressingMode::Absolute },
        0xf0 => Instruction { operation: Operation::BranchOnZeroSet, mode: AddressingMode::Relative },
        0xf1 => Instruction { operation: Operation::SubtractWithCarry, mode: AddressingMode::ZeroPageYIndirect },
        0xf5 => Instruction { operation: Operation::SubtractWithCarry, mode: AddressingMode::ZeroPageX },
        0xf6 => Instruction { operation: Operation::Increment, mode: AddressingMode::ZeroPageX },
        0xf8 => Instruction { operation: Operation::SetDecimal, mode: AddressingMode::Implied },
        0xf9 => Instruction { operation: Operation::SubtractWithCarry, mode: AddressingMode::AbsoluteY },
        0xfd => Instruction { operation: Operation::SubtractWithCarry, mode: AddressingMode::AbsoluteX },
        0xfe => Instruction { operation: Operation::Increment, mode: AddressingMode::AbsoluteX },
        _ => Instruction { operation: Operation::Invalid, mode: AddressingMode::Implied },
    }
}

/// Decodes an opcode byte.
pub fn decode(opcode: u8) -> (instruction: Instruction)
    ensures
        instruction == instruction_of(opcode),
{
    match opcode {
        0x00 => Instruction { operation: Operation::Break, mode: AddressingMode::Implied },
        0x01 => Instruction { operation: Operation::Or, mode: AddressingMode::ZeroPageXIndirect },
        0x05 => Instruction { operation: Operation::Or, mode: AddressingMode::ZeroPage },
        0x06 => Instruction { operation: Operation::ShiftLeft, mode: AddressingMode::ZeroPage },
        0x08 => Instruction { operation: Operation::PushStatus, mode: AddressingMode::Implied },
        0x09 => Instruction { operation: Operation::Or, mode: AddressingMode::Immediate },
        0x0a => Instruction { operation: Operation::ShiftLeftA, mode: AddressingMode::Implied },
        0x0d => Instruction { operation: Operation::Or, mode: AddressingMode::Absolute },
        0x0e => Instruction { operation: Operation::ShiftLeft, mode: AddressingMode::Absolute },
        0x10 => Instruction { operation: Operation::BranchOnNegativeReset, mode: AddressingMode::Relative },
        0x11 => Instruction { operation: Operation::Or, mode: AddressingMode::ZeroPageYIndirect },
        0x15 => Instruction { operation: Operation::Or, mode: AddressingMode::ZeroPageX },
        0x16 => Instruction { operation: Operation::ShiftLeft, mode: AddressingMode::ZeroPageX },
        0x18 => Instruction { operation: Operation::ClearCarry, mode: AddressingMode::Implied },
        0x19 => Instruction { operation: Operation::Or, mode: AddressingMode::AbsoluteY },
        0x1d => Instruction { operation: Operation::Or, mode: AddressingMode::AbsoluteX },
        0x1e => Instruction { operation: Operation::ShiftLeft, mode: AddressingMode::AbsoluteX },
        0x20 => Instruction { operation: Operation::JumpSubroutine, mode: AddressingMode::Absolute },
        0x21 => Instruction { operation: Operation::And, mode: AddressingMode::ZeroPageXIndirect },
        0x24 => Instruction { operation: Operation::BitTest, mode: AddressingMode::ZeroPage },
        0x25 => Instruction { operation: Operation::And, mode: AddressingMode::ZeroPage },
        0x26 => Instruction { operation: Operation::RotateLeft, mode: AddressingMode::ZeroPage },
        0x28 => Instruction { operation: Operation::PullStatus, mode: AddressingMode::Implied },
        0x29 => Instruction { operation: Operation::And, mode: AddressingMode::Immediate },
        0x2a => Instruction { operation: Operation::RotateLeftA, mode: AddressingMode::Implied },
        0x2c => Instruction { operation: Operation::BitTest, mode: AddressingMode::Absolute },
        0x2d => Instruction { operation: Operation::And, mode: AddressingMode::Absolute },
        0x2e => Instruction { operation: Operation::RotateLeft, mode: AddressingMode::Absolute },
        0x30 => Instruction { operation: Operation::BranchOnNegativeSet, mode: AddressingMode::Relative },
        0x31 => Instruction { operation: Operation::And, mode: AddressingMode::ZeroPageYIndirect },
        0x35 => Instruction { operation: Operation::And, mode: AddressingMode::ZeroPageX },
        0x36 => Instruction { operation: Operation::RotateLeft, mode: AddressingMode::ZeroPageX },
        0x38 => Instruction { operation: Operation::SetCarry, mode: AddressingMode::Implied },
        0x39 => Instruction { operation: Operation::And, mode: AddressingMode::AbsoluteY },
        0x3d => Instruction { operation: Operation::And, mode: AddressingMode::AbsoluteX },
        0x3e => Instruction { operation: Operation::RotateLeft, mode: AddressingMode::AbsoluteX },
        0x40 => Instruction { operation: Operation::ReturnFromInterrupt, mode: AddressingMode::Implied },
        0x41 => Instruction { operation: Operation::ExclusiveOr, mode: AddressingMode::ZeroPageXIndirect },
        0x45 => Instruction { operation: Operation::ExclusiveOr, mode: AddressingMode::ZeroPage },
        0x46 => Instruction { operation: Operation::ShiftRight, mode: AddressingMode::ZeroPage },
        0x48 => Instruction { operation: Operation::PushA, mode: AddressingMode::Implied },
        0x49 => Instruction { operation: Operation::ExclusiveOr, mode: AddressingMode::Immediate },
        0x4a => Instruction { operation: Operation::ShiftRightA, mode: AddressingMode::Implied },
        0x4c => Instruction { operation: Operation::Jump, mode: AddressingMode::Absolute },
        0x4d => Instruction { operation: Operation::ExclusiveOr, mode: AddressingMode::Absolute },
        0x4e => Instruction { operation: Operation::ShiftRight, mode: AddressingMode::Absolute },
        0x50 => Instruction { operation: Operation::BranchOnOverflowReset, mode: AddressingMode::Relative },
        0x51 => Instruction { operation: Operation::ExclusiveOr, mode: AddressingMode::ZeroPageYIndirect },
        0x55 => Instruction { operation: Operation::ExclusiveOr, mode: AddressingMode::ZeroPageX },
        0x56 => Instruction { operation: Operation::ShiftRight, mode: AddressingMode::ZeroPageX },
        0x58 => Instruction { operation: Operation::ClearInterrupt, mode: AddressingMode::Implied },
        0x59 => Instruction { operation: Operation::ExclusiveOr, mode: AddressingMode::AbsoluteY },
        0x5d => Instruction { operation: Operation::ExclusiveOr, mode: AddressingMode::AbsoluteX },
        0x5e => Instruction { operation: Operation::ShiftRight, mode: AddressingMode::AbsoluteX },
        0x60 => Instruction { operation: Operation::ReturnFromSubroutine, mode: AddressingMode::Implied },
        0x61 => Instruction { operation: Operation::AddWithCarry, mode: AddressingMode::ZeroPageXIndirect },
        0x65 => Instruction { operation: Operation::AddWithCarry, mode: AddressingMode::ZeroPage },
        0x66 => Instruction { operation: Operation::RotateRight, mode: AddressingMode::ZeroPage },
        0x68 => Instruction { operation: Operation::PullA, mode: AddressingMode::Implied },
        0x69 => Instruction { operation: Operation::AddWithCarry, mode: AddressingMode::Immediate },
        0x6a => Instruction { operation: Operation::RotateRightA, mode: AddressingMode::Implied },
        0x6c => Instruction { operation: Operation::Jump, mode: AddressingMode::AbsoluteIndirect },
        0x6d => Instruction { operation: Operation::AddWithCarry, mode: AddressingMode::Absolute },
        0x6e => Instruction { operation: Operation::RotateRight, mode: AddressingMode::Absolute },
        0x70 => Instruction { operation: Operation::BranchOnOverflowSet, mode: AddressingMode::Relative },
        0x71 => Instruction { operation: Operation::AddWithCarry, mode: AddressingMode::ZeroPageYIndirect },
        0x75 => Instruction { operation: Operation::AddWithCarry, mode: AddressingMode::ZeroPageX },
        0x76 => Instruction { operation: Operation::RotateRight, mode: AddressingMode::ZeroPageX },
        0x78 => Instruction { operation: Operation::SetInterrupt, mode: AddressingMode::Implied },
        0x79 => Instruction { operation: Operation::AddWithCarry, mode: AddressingMode::AbsoluteY },
        0x7d => Instruction { operation: Operation::AddWithCarry, mode: AddressingMode::AbsoluteX },
        0x7e => Instruction { operation: Operation::RotateRight, mode: AddressingMode::AbsoluteX },
        0x81 => Instruction { operation: Operation::StoreA, mode: AddressingMode::ZeroPageXIndirect },
        0x84 => Instruction { operation: Operation::StoreY, mode: AddressingMode::ZeroPage },
        0x85 => Instruction { operation: Operation::StoreA, mode: AddressingMode::ZeroPage },
        0x86 => Instruction { operation: Operation::StoreX, mode: AddressingMode::ZeroPage },
        0x88 => Instruction { operation: Operation::DecrementY, mode: AddressingMode::Implied },
        0x8a => Instruction { operation: Operation::TransferXA, mode: AddressingMode::Implied },
        0x8c => Instruction { operation: Operation::StoreY, mode: AddressingMode::Absolute },
        0x8d => Instruction { operation: Operation::StoreA, mode: AddressingMode::Absolute },
        0x8e => Instruction { operation: Operation::StoreX, mode: AddressingMode::Absolute },
        0x90 => Instruction { operation: Operation::BranchOnCarryReset, mode: AddressingMode::Relative },
        0x91 => Instruction { operation: Operation::StoreA, mode: AddressingMode::ZeroPageYIndirect },
        0x94 => Instruction { operation: Operation::StoreY, mode: AddressingMode::ZeroPageX },
        0x95 => Instruction { operation: Operation::StoreA, mode: AddressingMode::ZeroPageX },
        0x96 => Instruction { operation: Operation::StoreX, mode: AddressingMode::ZeroPageY },
        0x98 => Instruction { operation: Operation::TransferYA, mode: AddressingMode::Implied },
        0x99 => Instruction { operation: Operation::StoreA, mode: AddressingMode::AbsoluteY },
        0x9a => Instruction { operation: Operation::TransferXSP, mode: AddressingMode::Implied },
        0x9d => Instruction { operation: Operation::StoreA, mode: AddressingMode::AbsoluteX },
        0xa0 => Instruction { operation: Operation::LoadY, mode: AddressingMode::Immediate },
        0xa1 => Instruction { operation: Operation::LoadA, mode: AddressingMode::ZeroPageXIndirect },
        0xa2 => Instruction { operation: Operation::LoadX, mode: AddressingMode::Immediate },
        0xa4 => Instruction { operation: Operation::LoadY, mode: AddressingMode::ZeroPage },
        0xa5 => Instruction { operation: Operation::LoadA, mode: AddressingMode::ZeroPage },
        0xa6 => Instruction { operation: Operation::LoadX, mode: AddressingMode::ZeroPage },
        0xa8 => Instruction { operation: Operation::TransferAY, mode: AddressingMode::Implied },
        0xa9 => Instruction { operation: Operation::LoadA, mode: AddressingMode::Immediate },
        0xaa => Instruction { operation: Operation::TransferAX, mode: AddressingMode::Implied },
        0xac => Instruction { operation: Operation::LoadY, mode: AddressingMode::Absolute },
        0xad => Instruction { operation: Operation::LoadA, mode: AddressingMode::Absolute },
        0xae => Instruction { operation: Operation::LoadX, mode: AddressingMode::Absolute },
        0xb0 => Instruction { operation: Operation::BranchOnCarrySet, mode: AddressingMode::Relative },
        0xb1 => Instruction { operation: Operation::LoadA, mode: AddressingMode::ZeroPageYIndirect },
        0xb4 => Instruction { operation: Operation::LoadY, mode: AddressingMode::ZeroPageX },
        0xb5 => Instruction { operation: Operation::LoadA, mode: AddressingMode::ZeroPageX },
        0xb6 => Instruction { operation: Operation::LoadX, mode: AddressingMode::ZeroPageY },
        0xb8 => Instruction { operation: Operation::ClearOverflow, mode: AddressingMode::Implied },
        0xb9 => Instruction { operation: Operation::LoadA, mode: AddressingMode::AbsoluteY },
        0xba => Instruction { operation: Operation::TransferSPX, mode: AddressingMode::Implied },
        0xbc => Instruction { operation: Operation::LoadY, mode: AddressingMode::AbsoluteX },
        0xbd => Instruction { operation: Operation::LoadA, mode: AddressingMode::AbsoluteX },
        0xbe => Instruction { operation: Operation::LoadX, mode: AddressingMode::AbsoluteY },
        0xc0 => Instruction { operation: Operation::CompareY, mode: AddressingMode::Immediate },
        0xc1 => Instruction { operation: Operation::CompareA, mode: AddressingMode::ZeroPageXIndirect },
        0xc4 => Instruction { operation: Operation::CompareY, mode: AddressingMode::ZeroPage },
        0xc5 => Instruction { operation: Operation::CompareA, mode: AddressingMode::ZeroPage },
        0xc6 => Instruction { operation: Operation::Decrement, mode: AddressingMode::ZeroPage },
        0xc8 => Instruction { operation: Operation::IncrementY, mode: AddressingMode::Implied },
        0xc9 => Instruction { operation: Operation::CompareA, mode: AddressingMode::Immediate },
        0xca => Instruction { operation: Operation::DecrementX, mode: AddressingMode::Implied },
        0xcc => Instruction { operation: Operation::CompareY, mode: AddressingMode::Absolute },
        0xcd => Instruction { operation: Operation::CompareA, mode: AddressingMode::Absolute },
        0xce => Instruction { operation: Operation::Decrement, mode: AddressingMode::Absolute },
        0xd0 => Instruction { operation: Operation::BranchOnZeroReset, mode: AddressingMode::Relative },
        0xd1 => Instruction { operation: Operation::CompareA, mode: AddressingMode::ZeroPageYIndirect },
        0xd5 => Instruction { operation: Operation::CompareA, mode: AddressingMode::ZeroPageX },
        0xd6 => Instruction { operation: Operation::Decrement, mode: AddressingMode::ZeroPageX },
        0xd8 => Instruction { operation: Operation::ClearDecimal, mode: AddressingMode::Implied },
        0xd9 => Instruction { operation: Operation::CompareA, mode: AddressingMode::AbsoluteY },
        0xdd => Instruction { operation: Operation::CompareA, mode: AddressingMode::AbsoluteX },
        0xde => Instruction { operation: Operation::Decrement, mode: AddressingMode::AbsoluteX },
        0xe0 => Instruction { operation: Operation::CompareX, mode: AddressingMode::Immediate },
        0xe1 => Instruction { operation: Operation::SubtractWithCarry, mode: AddressingMode::ZeroPageXIndirect },
        0xe4 => Instruction { operation: Operation::CompareX, mode: AddressingMode::ZeroPage },
        0xe5 => Instruction { operation: Operation::SubtractWithCarry, mode: AddressingMode::ZeroPage },
        0xe6 => Instruction { operation: Operation::Increment, mode: AddressingMode::ZeroPage },
        0xe8 => Instruction { operation: Operation::IncrementX, mode: AddressingMode::Implied },
        0xe9 => Instruction { operation: Operation::SubtractWithCarry, mode: AddressingMode::Immediate },
        0xea => Instruction { operation: Operation::NoOperation, mode: AddressingMode::Implied },
        0xec => Instruction { operation: Operation::CompareX, mode: AddressingMode::Absolute },
        0xed => Instruction { operation: Operation::SubtractWithCarry, mode: AddressingMode::Absolute },
        0xee => Instruction { operation: Operation::Increment, mode: AddressingMode::Absolute },
        0xf0 => Instruction { operation: Operation::BranchOnZeroSet, mode: AddressingMode::Relative },
        0xf1 => Instruction { operation: Operation::SubtractWithCarry, mode: AddressingMode::ZeroPageYIndirect },
        0xf5 => Instruction { operation: Operation::SubtractWithCarry, mode: AddressingMode::ZeroPageX },
        0xf6 => Instruction { operation: Operation::Increment, mode: AddressingMode::ZeroPageX },
        0xf8 => Instruction { operation: Operation::SetDecimal, mode: AddressingMode::Implied },
        0xf9 => Instruction { operation: Operation::SubtractWithCarry, mode: AddressingMode::AbsoluteY },
        0xfd => Instruction { operation: Operation::SubtractWithCarry, mode: AddressingMode::AbsoluteX },
        0xfe => Instruction { operation: Operation::Increment, mode: AddressingMode::AbsoluteX },
        _ => Instruction { operation: Operation::Invalid, mode: AddressingMode::Implied },
    }
}

/// The name under which an operation is written in listings and traces.
pub open spec fn mnemonic_of(operation: Operation) -> &'static str {
    match operation {
        Operation::Or => "ORA",
        Operation::And => "AND",
        Operation::ExclusiveOr => "EOR",
        Operation::AddWithCarry => "ADC",
        Operation::SubtractWithCarry => "SBC",
        Operation::CompareA => "CMP",
        Operation::CompareX => "CPX",
        Operation::CompareY => "CPY",
        Operation::BitTest => "BIT",
        Operation::LoadA => "LDA",
        Operation::LoadX => "LDX",
        Operation::LoadY => "LDY",
        Operation::StoreA => "STA",
        Operation::StoreX => "STX",
        Operation::StoreY => "STY",
        Operation::TransferAX => "TAX",
        Operation::TransferXA => "TXA",
        Operation::TransferAY => "TAY",
        Operation::TransferYA => "TYA",
        Operation::TransferSPX => "TSX",
        Operation::TransferXSP => "TXS",
        Operation::BranchOnCarrySet => "BCS",
        Operation::BranchOnCarryReset => "BCC",
        Operation::BranchOnZeroSet => "BEQ",
        Operation::BranchOnZeroReset => "BNE",
        Operation::BranchOnNegativeSet => "BMI",
        Operation::BranchOnNegativeReset => "BPL",
        Operation::BranchOnOverflowSet => "BVS",
        Operation::BranchOnOverflowReset => "BVC",
        Operation::SetCarry => "SEC",
        Operation::SetDecimal => "SED",
        Operation::SetInterrupt => "SEI",
        Operation::ClearCarry => "CLC",
        Operation::ClearDecimal => "CLD",
        Operation::ClearInterrupt => "CLI",
        Operation::ClearOverflow => "CLV",
        Operation::PushA => "PHA",
        Operation::PushStatus => "PHP",
        Operation::PullA => "PLA",
        Operation::PullStatus => "PLP",
        Operation::Increment => "INC",
        Operation::Decrement => "DEC",
        Operation::IncrementX => "INX",
        Operation::IncrementY => "INY",
        Operation::DecrementX => "DEX",
        Operation::DecrementY => "DEY",
        Operation::Break => "BRK",
        Operation::ReturnFromInterrupt => "RTI",
        Operation::Jump => "JMP",
        Operation::JumpSubroutine => "JSR",
        Operation::ReturnFromSubroutine => "RTS",
        Operation::ShiftLeft => "ASL",
        Operation::ShiftLeftA => "ASL",
        Operation::ShiftRight => "LSR",
        Operation::ShiftRightA => "LSR",
        Operation::RotateLeft => "ROL",
        Operation::RotateLeftA => "ROL",
        Operation::RotateRight => "ROR",
        Operation::RotateRightA => "ROR",
        Operation::NoOperation => "NOP",
        Operation::Invalid => "! INVALID !",
    }
}

/// The name of the operation that `opcode` stands for.
pub fn op_name(opcode: u8) -> (name: &'static str)
    ensures
        name == mnemonic_of(instruction_of(opcode).operation),
{
    match decode(opcode).operation {
        Operation::Or => "ORA",
        Operation::And => "AND",
        Operation::ExclusiveOr => "EOR",
        Operation::AddWithCarry => "ADC",
        Operation::SubtractWithCarry => "SBC",
        Operation::CompareA => "CMP",
        Operation::CompareX => "CPX",
        Operation::CompareY => "CPY",
        Operation::BitTest => "BIT",
        Operation::LoadA => "LDA",
        Operation::LoadX => "LDX",
        Operation::LoadY => "LDY",
        Operation::StoreA => "STA",
        Operation::StoreX => "STX",
        Operation::StoreY => "STY",
        Operation::TransferAX => "TAX",
        Operation::TransferXA => "TXA",
        Operation::TransferAY => "TAY",
        Operation::TransferYA => "TYA",
        Operation::TransferSPX => "TSX",
        Operation::TransferXSP => "TXS",
        Operation::BranchOnCarrySet => "BCS",
        Operation::BranchOnCarryReset => "BCC",
        Operation::BranchOnZeroSet => "BEQ",
        Operation::BranchOnZeroReset => "BNE",
        Operation::BranchOnNegativeSet => "BMI",
        Operation::BranchOnNegativeReset => "BPL",
        Operation::BranchOnOverflowSet => "BVS",
        Operation::BranchOnOverflowReset => "BVC",
        Operation::SetCarry => "SEC",
        Operation::SetDecimal => "SED",
        Operation::SetInterrupt => "SEI",
        Operation::ClearCarry => "CLC",
        Operation::ClearDecimal => "CLD",
        Operation::ClearInterrupt => "CLI",
        Operation::ClearOverflow => "CLV",
        Operation::PushA => "PHA",
        Operation::PushStatus => "PHP",
        Operation::PullA => "PLA",
        Operation::PullStatus => "PLP",
        Operation::Increment => "INC",
        Operation::Decrement => "DEC",
        Operation::IncrementX => "INX",
        Operation::IncrementY => "INY",
        Operation::DecrementX => "DEX",
        Operation::DecrementY => "DEY",
        Operation::Break => "BRK",
        Operation::ReturnFromInterrupt => "RTI",
        Operation::Jump => "JMP",
        Operation::JumpSubroutine => "JSR",
        Operation::ReturnFromSubroutine => "RTS",
        Operation::ShiftLeft => "ASL",
        Operation::ShiftLeftA => "ASL",
        Operation::ShiftRight => "LSR",
        Operation::ShiftRightA => "LSR",
        Operation::RotateLeft => "ROL",
        Operation::RotateLeftA => "ROL",
        Operation::RotateRight => "ROR",
        Operation::RotateRightA => "ROR",
        Operation::NoOperation => "NOP",
        Operation::Invalid => "! INVALID !",
    }
}

/// Whether `opcode` stands for an instruction that does something.
pub open spec fn is_valid_op(opcode: u8) -> bool {
    instruction_of(opcode).operation != Operation::Invalid && instruction_of(opcode).operation
        != Operation::NoOperation
}

/// The number of opcodes below `limit` that stand for an instruction that
/// does something.
pub open spec fn valid_ops_below(limit: nat) -> nat
    decreases limit,
{
    if limit == 0 {
        0
    } else {
        valid_ops_below((limit - 1) as nat) + if is_valid_op((limit - 1) as u8) {
            1nat
        } else {
            0nat
        }
    }
}

/// The number of opcodes that stand for an instruction that does something.
pub fn count_valid_ops() -> (count: usize)
    ensures
        count == valid_ops_below(256),
{
    let mut count: usize = 0;
    let mut opcode: usize = 0;
    while opcode < 256
        invariant
            opcode <= 256,
            count <= opcode,
            count == valid_ops_below(opcode as nat),
        decreases 256 - opcode,
    {
        let instruction = decode(opcode as u8);
        if instruction.operation != Operation::Invalid && instruction.operation
            != Operation::NoOperation {
            count = count + 1;
        }
        opcode = opcode + 1;
    }
    count
}

} // verus!
