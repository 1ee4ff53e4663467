//! The instruction-set model: registers, register pairs, conditions,
//! operation kinds, and the decoded `Instruction` variants.

use vstd::prelude::*;

verus! {

/// A 3-bit register field: `MemoryRef` denotes the byte at address HL.
#[derive(Debug, Clone, Copy, PartialEq, Eq, Structural)]
pub enum Register {
    B,
    C,
    D,
    E,
    H,
    L,
    MemoryRef,
    A,
}

pub open spec fn spec_register_from_bits(bits: u8) -> Register {
    let b = bits & 0b111;
    if b == 0b000 {
        Register::B
    } else if b == 0b001 {
        Register::C
    } else if b == 0b010 {
        Register::D
    } else if b == 0b011 {
        Register::E
    } else if b == 0b100 {
        Register::H
    } else if b == 0b101 {
        Register::L
    } else if b == 0b110 {
        Register::MemoryRef
    } else {
        Register::A
    }
}

impl Register {
    pub fn from_bits(bits: u8) -> (r: Self)
        ensures
            r == spec_register_from_bits(bits),
    {
        let b = bits & 0b111;
        if b == 0b000 {
            Self::B
        } else if b == 0b001 {
            Self::C
        } else if b == 0b010 {
            Self::D
        } else if b == 0b011 {
            Self::E
        } else if b == 0b100 {
            Self::H
        } else if b == 0b101 {
            Self::L
        } else if b == 0b110 {
            Self::MemoryRef
        } else {
            Self::A
        }
    }
}

/// A 1-bit pair field, used by the indirect load/store instructions.
#[derive(Debug, Clone, Copy, PartialEq, Eq, Structural)]
pub enum SmallRegisterPair {
    Bc,
    De,
}

pub open spec fn spec_small_pair_from_bits(bits: u8) -> SmallRegisterPair {
    if bits & 0b1 == 0b0 {
        SmallRegisterPair::Bc
    } else {
        SmallRegisterPair::De
    }
}

impl SmallRegisterPair {
    pub fn from_bits(bits: u8) -> (r: Self)
        ensures
            r == spec_small_pair_from_bits(bits),
    {
        if bits & 0b1 == 0b0 {
            Self::Bc
        } else {
            Self::De
        }
    }
}

/// A 2-bit pair field for push/pop: `FlagsA` packs the accumulator with the
/// flag byte.
#[derive(Debug, Clone, Copy, PartialEq, Eq, Structural)]
pub enum StackOpRegPair {
    Bc,
    De,
    Hl,
    FlagsA,
}

pub open spec fn spec_stack_op_pair_from_bits(bits: u8) -> StackOpRegPair {
    let b = bits & 0b11;
    if b == 0b00 {
        StackOpRegPair::Bc
    } else if b == 0b01 {
        StackOpRegPair::De
    } else if b == 0b10 {
        StackOpRegPair::Hl
    } else {
        StackOpRegPair::FlagsA
    }
}

impl StackOpRegPair {
    pub fn from_bits(bits: u8) -> (r: Self)
        ensures
            r == spec_stack_op_pair_from_bits(bits),
    {
        let b = bits & 0b11;
        if b == 0b00 {
            Self::Bc
        } else if b == 0b01 {
            Self::De
        } else if b == 0b10 {
            Self::Hl
        } else {
            Self::FlagsA
        }
    }
}

/// A 2-bit pair field: BC, DE, HL, or the stack pointer.
#[derive(Debug, Clone, Copy, PartialEq, Eq, Structural)]
pub enum LargeRegPair {
    Bc,
    De,
    Hl,
    Sp,
}

pub open spec fn spec_large_pair_from_bits(bits: u8) -> LargeRegPair {
    let b = bits & 0b11;
    if b == 0b00 {
        LargeRegPair::Bc
    } else if b == 0b01 {
        LargeRegPair::De
    } else if b == 0b10 {
        LargeRegPair::Hl
    } else {
        LargeRegPair::Sp
    }
}

impl LargeRegPair {
    pub fn from_bits(bits: u8) -> (r: Self)
        ensures
            r == spec_large_pair_from_bits(bits),
    {
        let b = bits & 0b11;
        if b == 0b00 {
            Self::Bc
        } else if b == 0b01 {
            Self::De
        } else if b == 0b10 {
            Self::Hl
        } else {
            Self::Sp
        }
    }
}

/// A 3-bit ALU operation field.
#[derive(Debug, Clone, Copy, PartialEq, Eq, Structural)]
pub enum ToAccumulatorOperation {
    Add,
    AddWithCarry,
    Subtract,
    SubtractWithBorrow,
    And,
    Xor,
    Or,
    Compare,
}

pub open spec fn spec_to_acc_op_from_bits(bits: u8) -> ToAccumulatorOperation {
    let b = bits & 0b111;
    if b == 0b000 {
        ToAccumulatorOperation::Add
    } else if b == 0b001 {
        ToAccumulatorOperation::AddWithCarry
    } else if b == 0b010 {
        ToAccumulatorOperation::Subtract
    } else if b == 0b011 {
        ToAccumulatorOperation::SubtractWithBorrow
    } else if b == 0b100 {
        ToAccumulatorOperation::And
    } else if b == 0b101 {
        ToAccumulatorOperation::Xor
    } else if b == 0b110 {
        ToAccumulatorOperation::Or
    } else {
        ToAccumulatorOperation::Compare
    }
}

impl ToAccumulatorOperation {
    pub fn from_bits(bits: u8) -> (r: Self)
        ensures
            r == spec_to_acc_op_from_bits(bits),
    {
        let b = bits & 0b111;
        if b == 0b000 {
            Self::Add
        } else if b == 0b001 {
            Self::AddWithCarry
        } else if b == 0b010 {
            Self::Subtract
        } else if b == 0b011 {
            Self::SubtractWithBorrow
        } else if b == 0b100 {
            Self::And
        } else if b == 0b101 {
            Self::Xor
        } else if b == 0b110 {
            Self::Or
        } else {
            Self::Compare
        }
    }
}

/// A 2-bit rotate operation field.
#[derive(Debug, Clone, Copy, PartialEq, Eq, Structural)]
pub enum RotateAccumulatorOperation {
    Left,
    Right,
    LeftThroughCarry,
    RightThroughCarry,
}

pub open spec fn spec_rotate_op_from_bits(bits: u8) -> RotateAccumulatorOperation {
    let b = bits & 0b11;
    if b == 0b00 {
        RotateAccumulatorOperation::Left
    } else if b == 0b01 {
        RotateAccumulatorOperation::Right
    } else if b == 0b10 {
        RotateAccumulatorOperation::LeftThroughCarry
    } else {
        RotateAccumulatorOperation::RightThroughCarry
    }
}

impl RotateAccumulatorOperation {
    pub fn from_bits(bits: u8) -> (r: Self)
        ensures
            r == spec_rotate_op_from_bits(bits),
    {
        let b = bits & 0b11;
        if b == 0b00 {
            Self::Left
        } else if b == 0b01 {
            Self::Right
        } else if b == 0b10 {
            Self::LeftThroughCarry
        } else {
            Self::RightThroughCarry
        }
    }
}

/// A 2-bit direct-address operation field.
#[derive(Debug, Clone, Copy, PartialEq, Eq, Structural)]
pub enum DirectAddressOperation {
    StoreHl,
    LoadHl,
    StoreAccumulator,
    LoadAccumulator,
}

pub open spec fn spec_direct_op_from_bits(bits: u8) -> DirectAddressOperation {
    let b = bits & 0b11;
    if b == 0b00 {
        DirectAddressOperation::StoreHl
    } else if b == 0b01 {
        DirectAddressOperation::LoadHl
    } else if b == 0b10 {
        DirectAddressOperation::StoreAccumulator
    } else {
        DirectAddressOperation::LoadAccumulator
    }
}

impl DirectAddressOperation {
    pub fn from_bits(bits: u8) -> (r: Self)
        ensures
            r == spec_direct_op_from_bits(bits),
    {
        let b = bits & 0b11;
        if b == 0b00 {
            Self::StoreHl
        } else if b == 0b01 {
            Self::LoadHl
        } else if b == 0b10 {
            Self::StoreAccumulator
        } else {
            Self::LoadAccumulator
        }
    }
}

/// A 3-bit condition field; `Unconditional` stands for the aliased opcodes
/// that always take the branch.
#[derive(Debug, Clone, Copy, PartialEq, Eq, Structural)]
pub enum Condition {
    Unconditional,
    Zero,
    NoCarry,
    Carry,
    ParityOdd,
    ParityEven,
    Plus,
    Minus,
    NonZero,
}

pub open spec fn spec_condition_from_bits(bits: u8) -> Condition {
    let b = bits & 0b111;
    if b == 0b000 {
        Condition::NonZero
    } else if b == 0b001 {
        Condition::Zero
    } else if b == 0b010 {
        Condition::NoCarry
    } else if b == 0b011 {
        Condition::Carry
    } else if b == 0b100 {
        Condition::ParityOdd
    } else if b == 0b101 {
        Condition::ParityEven
    } else if b == 0b110 {
        Condition::Plus
    } else {
        Condition::Minus
    }
}

impl Condition {
    pub fn from_bits(bits: u8) -> (r: Self)
        ensures
            r == spec_condition_from_bits(bits),
    {
        let b = bits & 0b111;
        if b == 0b000 {
            Self::NonZero
        } else if b == 0b001 {
            Self::Zero
        } else if b == 0b010 {
            Self::NoCarry
        } else if b == 0b011 {
            Self::Carry
        } else if b == 0b100 {
            Self::ParityOdd
        } else if b == 0b101 {
            Self::ParityEven
        } else if b == 0b110 {
            Self::Plus
        } else {
            Self::Minus
        }
    }
}

/// One decoded 8080 instruction, immediates inlined.
#[derive(Debug, Clone, Copy, PartialEq, Eq, Structural)]
pub enum Instruction {
    ComplementCarry,
    SetCarry,
    Increment(Register),
    Decrement(Register),
    ComplementAccumulator,
    DecimalAdjustAccumulator,
    Nop,
    Move { destination: Register, source: Register },
    StoreAccumulator(SmallRegisterPair),
    LoadAccumulator(SmallRegisterPair),
    ToAccumulator(ToAccumulatorOperation, Register),
    RotateAccumulator(RotateAccumulatorOperation),
    Push(StackOpRegPair),
    Pop(StackOpRegPair),
    AddToHl(LargeRegPair),
    IncrementPair(LargeRegPair),
    DecrementPair(LargeRegPair),
    ExchangeRegisters,
    ExchangeStack,
    LoadSpFromHl,
    LoadLargeImmediate(LargeRegPair, u16),
    LoadImmediate(Register, u8),
    ToAccumulatorImmediate(ToAccumulatorOperation, u8),
    DirectAddress(DirectAddressOperation, u16),
    LoadProgramCounter,
    Jump(Condition, u16),
    Call(Condition, u16),
    ReturnFromSubroutine(Condition),
    Restart(u8),
    EnableInterrupts,
    DisableInterrupts,
    In(u8),
    Out(u8),
    Halt,
    Invalid(u8),
}

} // verus!
