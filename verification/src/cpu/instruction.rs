use vstd::prelude::*;
use crate::cpu::register::{ByteRegister, WordRegister};

verus! {

/// Where a byte operand comes from or goes to.
#[derive(Copy, Clone, PartialEq, Eq, Structural, Debug)]
pub enum ByteLocation {
    Value(u8),
    Register(ByteRegister),
    ByteBuffer,
    LowerAddressBuffer,
    UpperAddressBuffer,
    LowerWordBuffer,
    UpperWordBuffer,
    NextMemoryByte,
    MemoryReferencedByAddressBuffer,
    MemoryReferencedByRegister(WordRegister),
}

/// Where a word operand comes from or goes to.
#[derive(Copy, Clone, PartialEq, Eq, Structural, Debug)]
pub enum WordLocation {
    Value(u16),
    Register(WordRegister),
    WordBuffer,
    AddressBuffer,
}

#[derive(Copy, Clone, PartialEq, Eq, Structural, Debug)]
pub struct ByteArithmeticParams {
    pub first: ByteLocation,
    pub second: ByteLocation,
    pub destination: ByteLocation,
    pub use_carry: bool,
    pub flag_mask: u8,
}

#[derive(Copy, Clone, PartialEq, Eq, Structural, Debug)]
pub struct ByteOperationParams {
    pub source: ByteLocation,
    pub destination: ByteLocation,
}

#[derive(Copy, Clone, PartialEq, Eq, Structural, Debug)]
pub struct WordOperationParams {
    pub source: WordLocation,
    pub destination: WordLocation,
}

#[derive(Copy, Clone, PartialEq, Eq, Structural, Debug)]
pub struct ByteCastingParams {
    pub source: ByteLocation,
    pub destination: WordLocation,
}

#[derive(Copy, Clone, PartialEq, Eq, Structural, Debug)]
pub struct ByteRotationParams {
    pub source: ByteLocation,
    pub destination: ByteLocation,
    pub unset_zero: bool,
}

#[derive(Copy, Clone, PartialEq, Eq, Structural, Debug)]
pub struct ByteShiftParams {
    pub source: ByteLocation,
    pub destination: ByteLocation,
    pub arithmetic: bool,
}

#[derive(Copy, Clone, PartialEq, Eq, Structural, Debug)]
pub struct ByteLogicParams {
    pub first: ByteLocation,
    pub second: ByteLocation,
    pub destination: ByteLocation,
}

#[derive(Copy, Clone, PartialEq, Eq, Structural, Debug)]
pub struct WordArithmeticParams {
    pub first: WordLocation,
    pub second: WordLocation,
    pub destination: WordLocation,
    pub flag_mask: u8,
}

/// One micro-operation of the CPU; an instruction is carried out as a sequence of them.
#[derive(Copy, Clone, PartialEq, Eq, Structural, Debug)]
pub enum Instruction {
    Noop,
    /// Reads the byte after the 0xCB prefix and carries out that instruction.
    DecodeCBInstruction,
    /// Returns from a call when the condition of the current opcode holds.
    ReturnIfConditionMet,
    /// Adds the byte buffer, read as a signed offset, to the program counter.
    JumpRelative,
    MoveByte(ByteOperationParams),
    CastByteToSignedWord(ByteCastingParams),
    MoveWord(WordOperationParams),
    IncrementWord(WordLocation),
    DecrementWord(WordLocation),
    AddBytes(ByteArithmeticParams),
    SubtractBytes(ByteArithmeticParams),
    AndBytes(ByteLogicParams),
    OrBytes(ByteLogicParams),
    XorBytes(ByteLogicParams),
    RotateByteLeft(ByteRotationParams),
    RotateByteLeftThroughCarry(ByteRotationParams),
    ShiftByteLeft(ByteShiftParams),
    RotateByteRight(ByteRotationParams),
    RotateByteRightThroughCarry(ByteRotationParams),
    ShiftByteRight(ByteShiftParams),
    SwapByte(ByteOperationParams),
    AddWords(WordArithmeticParams),
    GetBitFromByte(ByteLocation, u8),
    SetBitOnByte(ByteOperationParams, u8),
    ResetBitOnByte(ByteOperationParams, u8),
}

impl ByteLocation {
    /// Locations that can be written.
    pub open spec fn writable(self) -> bool {
        !(self is Value) && !(self is NextMemoryByte)
    }

    /// Locations whose access touches memory (reading the next byte of the program included).
    pub open spec fn in_memory(self) -> bool {
        self is NextMemoryByte || self is MemoryReferencedByAddressBuffer
            || self is MemoryReferencedByRegister
    }
}

impl WordLocation {
    pub open spec fn writable(self) -> bool {
        !(self is Value)
    }
}

impl Instruction {
    /// The instruction can be carried out without a panic: it writes only writable locations
    /// and names bits below 8.
    pub open spec fn well_formed(self) -> bool {
        match self {
            Instruction::MoveByte(p) => p.destination.writable(),
            Instruction::CastByteToSignedWord(p) => p.destination.writable(),
            Instruction::MoveWord(p) => p.destination.writable(),
            Instruction::IncrementWord(l) => l.writable(),
            Instruction::DecrementWord(l) => l.writable(),
            Instruction::AddBytes(p) => p.destination.writable(),
            Instruction::SubtractBytes(p) => p.destination.writable(),
            Instruction::AndBytes(p) => p.destination.writable(),
            Instruction::OrBytes(p) => p.destination.writable(),
            Instruction::XorBytes(p) => p.destination.writable(),
            Instruction::RotateByteLeft(p) => p.destination.writable(),
            Instruction::RotateByteLeftThroughCarry(p) => p.destination.writable(),
            Instruction::ShiftByteLeft(p) => p.destination.writable(),
            Instruction::RotateByteRight(p) => p.destination.writable(),
            Instruction::RotateByteRightThroughCarry(p) => p.destination.writable(),
            Instruction::ShiftByteRight(p) => p.destination.writable(),
            Instruction::SwapByte(p) => p.destination.writable(),
            Instruction::AddWords(p) => p.destination.writable(),
            Instruction::GetBitFromByte(_, bit) => bit < 8,
            Instruction::SetBitOnByte(p, bit) => p.destination.writable() && bit < 8,
            Instruction::ResetBitOnByte(p, bit) => p.destination.writable() && bit < 8,
            _ => true,
        }
    }

    /// The instruction reads or writes memory.
    pub open spec fn touches_memory(self) -> bool {
        match self {
            Instruction::DecodeCBInstruction => true,
            Instruction::MoveByte(p) => p.source.in_memory() || p.destination.in_memory(),
            Instruction::CastByteToSignedWord(p) => p.source.in_memory(),
            Instruction::AddBytes(p) => p.first.in_memory() || p.second.in_memory()
                || p.destination.in_memory(),
            Instruction::SubtractBytes(p) => p.first.in_memory() || p.second.in_memory()
                || p.destination.in_memory(),
            Instruction::AndBytes(p) => p.first.in_memory() || p.second.in_memory()
                || p.destination.in_memory(),
            Instruction::OrBytes(p) => p.first.in_memory() || p.second.in_memory()
                || p.destination.in_memory(),
            Instruction::XorBytes(p) => p.first.in_memory() || p.second.in_memory()
                || p.destination.in_memory(),
            Instruction::RotateByteLeft(p) => p.source.in_memory() || p.destination.in_memory(),
            Instruction::RotateByteLeftThroughCarry(p) => p.source.in_memory()
                || p.destination.in_memory(),
            Instruction::ShiftByteLeft(p) => p.source.in_memory() || p.destination.in_memory(),
            Instruction::RotateByteRight(p) => p.source.in_memory() || p.destination.in_memory(),
            Instruction::RotateByteRightThroughCarry(p) => p.source.in_memory()
                || p.destination.in_memory(),
            Instruction::ShiftByteRight(p) => p.source.in_memory() || p.destination.in_memory(),
            Instruction::SwapByte(p) => p.source.in_memory() || p.destination.in_memory(),
            Instruction::GetBitFromByte(l, _) => l.in_memory(),
            Instruction::SetBitOnByte(p, _) => p.source.in_memory() || p.destination.in_memory(),
            Instruction::ResetBitOnByte(p, _) => p.source.in_memory() || p.destination.in_memory(),
            _ => false,
        }
    }
}

} // verus!
