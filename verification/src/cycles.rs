//! The cycle table: machine cycles per instruction, with the branch-taken
//! distinction for conditional call and return.

use vstd::prelude::*;

use crate::model::{Condition, DirectAddressOperation, Instruction, Register};

verus! {

/// Machine cycles consumed by `i`; `condition_was_true` matters only for
/// conditional call and return.
pub open spec fn spec_num_cycles(i: Instruction, condition_was_true: bool) -> u8 {
    match i {
        Instruction::ComplementCarry => 4,
        Instruction::SetCarry => 4,
        Instruction::Increment(r) => if r is MemoryRef { 10 } else { 5 },
        Instruction::Decrement(r) => if r is MemoryRef { 10 } else { 5 },
        Instruction::ComplementAccumulator => 4,
        Instruction::DecimalAdjustAccumulator => 4,
        Instruction::Nop => 4,
        Instruction::Move { destination, source } => {
            if destination is MemoryRef || source is MemoryRef { 7 } else { 5 }
        },
        Instruction::StoreAccumulator(..) => 7,
        Instruction::LoadAccumulator(..) => 7,
        Instruction::ToAccumulator(_, r) => if r is MemoryRef { 7 } else { 4 },
        Instruction::RotateAccumulator(..) => 4,
        Instruction::Push(..) => 11,
        Instruction::Pop(..) => 11,
        Instruction::AddToHl(..) => 10,
        Instruction::IncrementPair(..) => 5,
        Instruction::DecrementPair(..) => 5,
        Instruction::ExchangeRegisters => 5,
        Instruction::ExchangeStack => 18,
        Instruction::LoadSpFromHl => 5,
        Instruction::LoadLargeImmediate(..) => 10,
        Instruction::LoadImmediate(r, _) => if r is MemoryRef { 10 } else { 7 },
        Instruction::ToAccumulatorImmediate(..) => 7,
        Instruction::DirectAddress(..) => 13,
        Instruction::LoadProgramCounter => 5,
        Instruction::Jump(..) => 10,
        Instruction::Call(..) => if condition_was_true { 17 } else { 11 },
        Instruction::ReturnFromSubroutine(c) => {
            if c is Unconditional {
                10
            } else if condition_was_true {
                11
            } else {
                5
            }
        },
        Instruction::Restart(..) => 11,
        Instruction::EnableInterrupts => 4,
        Instruction::DisableInterrupts => 4,
        Instruction::In(..) => 10,
        Instruction::Out(..) => 10,
        Instruction::Halt => 7,
        // treated as NOP
        Instruction::Invalid(..) => 4,
    }
}

/// Every cycle count the table can produce.
pub open spec fn spec_valid_cycle_count(n: u8) -> bool {
    n == 4 || n == 5 || n == 7 || n == 10 || n == 11 || n == 13 || n == 17 || n == 18
}

/// For every instruction, taken or not, the cycle count is one of
/// {4, 5, 7, 10, 11, 13, 17, 18}.
pub proof fn lemma_num_cycles_in_range(i: Instruction, condition_was_true: bool)
    ensures
        spec_valid_cycle_count(spec_num_cycles(i, condition_was_true)),
{
}

impl Instruction {
    pub fn num_cycles(self, condition_was_true: bool) -> (r: u8)
        ensures
            r == spec_num_cycles(self, condition_was_true),
            spec_valid_cycle_count(r),
    {
        match self {
            Self::ComplementCarry => 4,
            Self::SetCarry => 4,
            Self::Increment(Register::MemoryRef) | Self::Decrement(Register::MemoryRef) => 10,
            Self::Increment(..) | Self::Decrement(..) => 5,
            Self::ComplementAccumulator => 4,
            Self::DecimalAdjustAccumulator => 4,
            Self::Nop => 4,
            Self::Move { source: Register::MemoryRef, .. }
            | Self::Move { destination: Register::MemoryRef, .. } => 7,
            Self::Move { .. } => 5,
            Self::StoreAccumulator(..) => 7,
            Self::LoadAccumulator(..) => 7,
            Self::ToAccumulator(_op, Register::MemoryRef) => 7,
            Self::ToAccumulator(..) => 4,
            Self::RotateAccumulator(..) => 4,
            Self::Push(..) => 11,
            Self::Pop(..) => 11,
            Self::AddToHl(..) => 10,
            Self::IncrementPair(..) | Self::DecrementPair(..) => 5,
            Self::ExchangeRegisters => 5,
            Self::ExchangeStack => 18,
            Self::LoadSpFromHl => 5,
            Self::LoadLargeImmediate(..) => 10,
            Self::LoadImmediate(Register::MemoryRef, _value) => 10,
            Self::LoadImmediate(..) => 7,
            Self::ToAccumulatorImmediate(..) => 7,
            Self::DirectAddress(
                DirectAddressOperation::LoadAccumulator | DirectAddressOperation::StoreAccumulator,
                _,
            ) => 13,
            Self::DirectAddress(
                DirectAddressOperation::LoadHl | DirectAddressOperation::StoreHl,
                _,
            ) => 13,
            Self::LoadProgramCounter => 5,
            Self::Jump(..) => 10,
            Self::Call(..) => if condition_was_true { 17 } else { 11 },
            Self::ReturnFromSubroutine(Condition::Unconditional) => 10,
            Self::ReturnFromSubroutine(..) => if condition_was_true { 11 } else { 5 },
            Self::Restart(..) => 11,
            Self::EnableInterrupts | Self::DisableInterrupts => 4,
            Self::In(..) | Self::Out(..) => 10,
            Self::Halt => 7,
            Self::Invalid(..) => 4,
        }
    }
}

} // verus!
