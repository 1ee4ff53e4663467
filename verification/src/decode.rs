//! The opcode decoder: a total map from an opcode byte (plus up to two
//! immediate bytes) to an `Instruction`, mirroring the 8080 bit-pattern table.

use vstd::prelude::*;

use crate::model::{
    spec_condition_from_bits, spec_direct_op_from_bits, spec_large_pair_from_bits,
    spec_register_from_bits, spec_rotate_op_from_bits, spec_small_pair_from_bits,
    spec_stack_op_pair_from_bits, spec_to_acc_op_from_bits, Condition, DirectAddressOperation,
    Instruction, LargeRegPair, Register, RotateAccumulatorOperation, SmallRegisterPair,
    StackOpRegPair, ToAccumulatorOperation,
};

verus! {

/// A 16-bit little-endian immediate assembled from its two bytes.
pub open spec fn spec_imm16(lo: u8, hi: u8) -> u16 {
    (lo + hi * 0x100) as u16
}

/// How many bytes the instruction starting with `op` occupies (1 to 3).
pub open spec fn spec_instr_len(op: u8) -> nat {
    if op == 0b1101_1011 || op == 0b1101_0011 {
        // IN, OUT
        2
    } else if op & 0b1100_1111 == 0b0000_0001 {
        // 16-bit load immediate
        3
    } else if op & 0b1100_0111 == 0b0000_0110 {
        // 8-bit load immediate
        2
    } else if op & 0b1100_0111 == 0b1100_0110 {
        // immediate ALU operation
        2
    } else if op & 0b1110_0111 == 0b0010_0010 {
        // direct address
        3
    } else if op & 0b1100_0111 == 0b1100_0010 || op & 0b1111_0111 == 0b1100_0011 {
        // jump
        3
    } else if op & 0b1100_0111 == 0b1100_0100 || op & 0b1100_1111 == 0b1100_1101 {
        // call
        3
    } else {
        1
    }
}

/// The decoded instruction for opcode `op` with immediate bytes `b1` and
/// `b2` (ignored where `spec_instr_len(op)` does not reach them). The cases
/// mirror the 8080 opcode table; they cover every byte and no byte twice.
pub open spec fn spec_decode(op: u8, b1: u8, b2: u8) -> Instruction {
    if op == 0b0011_1111 {
        Instruction::ComplementCarry
    } else if op == 0b0011_0111 {
        Instruction::SetCarry
    } else if op == 0b0010_1111 {
        Instruction::ComplementAccumulator
    } else if op == 0b0010_0111 {
        Instruction::DecimalAdjustAccumulator
    } else if op == 0b0000_0000 {
        Instruction::Nop
    } else if op == 0b1110_1011 {
        Instruction::ExchangeRegisters
    } else if op == 0b1110_0011 {
        Instruction::ExchangeStack
    } else if op == 0b1111_1001 {
        Instruction::LoadSpFromHl
    } else if op == 0b1110_1001 {
        Instruction::LoadProgramCounter
    } else if op == 0b1111_1011 {
        Instruction::EnableInterrupts
    } else if op == 0b1111_0011 {
        Instruction::DisableInterrupts
    } else if op == 0b1101_1011 {
        Instruction::In(b1)
    } else if op == 0b1101_0011 {
        Instruction::Out(b1)
    } else if op == 0b0111_0110 {
        Instruction::Halt
    } else if op & 0b1100_0111 == 0b0000_0100 {
        Instruction::Increment(spec_register_from_bits((op >> 3) & 0b111))
    } else if op & 0b1100_0111 == 0b0000_0101 {
        Instruction::Decrement(spec_register_from_bits((op >> 3) & 0b111))
    } else if op & 0b1100_0000 == 0b0100_0000 {
        // the HALT slot 0b0111_0110 was taken above
        Instruction::Move {
            destination: spec_register_from_bits((op >> 3) & 0b111),
            source: spec_register_from_bits(op & 0b111),
        }
    } else if op & 0b1110_1111 == 0b0000_0010 {
        Instruction::StoreAccumulator(spec_small_pair_from_bits((op >> 4) & 0b1))
    } else if op & 0b1110_1111 == 0b0000_1010 {
        Instruction::LoadAccumulator(spec_small_pair_from_bits((op >> 4) & 0b1))
    } else if op & 0b1100_0000 == 0b1000_0000 {
        Instruction::ToAccumulator(
            spec_to_acc_op_from_bits((op >> 3) & 0b111),
            spec_register_from_bits(op & 0b111),
        )
    } else if op & 0b1110_0111 == 0b0000_0111 {
        Instruction::RotateAccumulator(spec_rotate_op_from_bits((op >> 3) & 0b11))
    } else if op & 0b1100_1111 == 0b1100_0101 {
        Instruction::Push(spec_stack_op_pair_from_bits((op >> 4) & 0b11))
    } else if op & 0b1100_1111 == 0b1100_0001 {
        Instruction::Pop(spec_stack_op_pair_from_bits((op >> 4) & 0b11))
    } else if op & 0b1100_1111 == 0b0000_1001 {
        Instruction::AddToHl(spec_large_pair_from_bits((op >> 4) & 0b11))
    } else if op & 0b1100_1111 == 0b0000_0011 {
        Instruction::IncrementPair(spec_large_pair_from_bits((op >> 4) & 0b11))
    } else if op & 0b1100_1111 == 0b0000_1011 {
        Instruction::DecrementPair(spec_large_pair_from_bits((op >> 4) & 0b11))
    } else if op & 0b1100_1111 == 0b0000_0001 {
        Instruction::LoadLargeImmediate(
            spec_large_pair_from_bits((op >> 4) & 0b11),
            spec_imm16(b1, b2),
        )
    } else if op & 0b1100_0111 == 0b0000_0110 {
        Instruction::LoadImmediate(spec_register_from_bits((op >> 3) & 0b111), b1)
    } else if op & 0b1100_0111 == 0b1100_0110 {
        Instruction::ToAccumulatorImmediate(spec_to_acc_op_from_bits((op >> 3) & 0b111), b1)
    } else if op & 0b1110_0111 == 0b0010_0010 {
        Instruction::DirectAddress(spec_direct_op_from_bits((op >> 3) & 0b11), spec_imm16(b1, b2))
    } else if op & 0b1100_0111 == 0b1100_0111 {
        Instruction::Restart((op >> 3) & 0b111)
    } else if op == 0b0000_1000 || op == 0b0001_0000 || op == 0b0001_1000 || op == 0b0010_0000
        || op == 0b0010_1000 || op == 0b0011_0000 || op == 0b0011_1000 {
        Instruction::Invalid(op)
    } else if op & 0b1100_0111 == 0b1100_0010 {
        Instruction::Jump(spec_condition_from_bits((op >> 3) & 0b111), spec_imm16(b1, b2))
    } else if op & 0b1111_0111 == 0b1100_0011 {
        Instruction::Jump(Condition::Unconditional, spec_imm16(b1, b2))
    } else if op & 0b1100_0111 == 0b1100_0100 {
        Instruction::Call(spec_condition_from_bits((op >> 3) & 0b111), spec_imm16(b1, b2))
    } else if op & 0b1100_1111 == 0b1100_1101 {
        Instruction::Call(Condition::Unconditional, spec_imm16(b1, b2))
    } else if op & 0b1100_0111 == 0b1100_0000 {
        Instruction::ReturnFromSubroutine(spec_condition_from_bits((op >> 3) & 0b111))
    } else {
        // the one slot left is 0b110?_1001, the aliased unconditional return;
        // lemma_decode_covers shows nothing else reaches here
        Instruction::ReturnFromSubroutine(Condition::Unconditional)
    }
}

/// Every opcode byte falls into exactly one case of the table: the chain of
/// tests in `spec_decode` is exhaustive, its last arm is reached only by the
/// aliased unconditional-return slot, and the length table agrees with the
/// variants that carry immediates.
pub proof fn lemma_decode_covers(op: u8)
    ensures
        1 <= spec_instr_len(op) <= 3,
        !(op == 0b0011_1111 || op == 0b0011_0111 || op == 0b0010_1111 || op == 0b0010_0111
            || op == 0b0000_0000 || op == 0b1110_1011 || op == 0b1110_0011 || op == 0b1111_1001
            || op == 0b1110_1001 || op == 0b1111_1011 || op == 0b1111_0011 || op == 0b1101_1011
            || op == 0b1101_0011 || op == 0b0111_0110 || op & 0b1100_0111 == 0b0000_0100
            || op & 0b1100_0111 == 0b0000_0101 || op & 0b1100_0000 == 0b0100_0000
            || op & 0b1110_1111 == 0b0000_0010 || op & 0b1110_1111 == 0b0000_1010
            || op & 0b1100_0000 == 0b1000_0000 || op & 0b1110_0111 == 0b0000_0111
            || op & 0b1100_1111 == 0b1100_0101 || op & 0b1100_1111 == 0b1100_0001
            || op & 0b1100_1111 == 0b0000_1001 || op & 0b1100_1111 == 0b0000_0011
            || op & 0b1100_1111 == 0b0000_1011 || op & 0b1100_1111 == 0b0000_0001
            || op & 0b1100_0111 == 0b0000_0110 || op & 0b1100_0111 == 0b1100_0110
            || op & 0b1110_0111 == 0b0010_0010 || op & 0b1100_0111 == 0b1100_0111
            || op == 0b0000_1000 || op == 0b0001_0000 || op == 0b0001_1000 || op == 0b0010_0000
            || op == 0b0010_1000 || op == 0b0011_0000 || op == 0b0011_1000
            || op & 0b1100_0111 == 0b1100_0010 || op & 0b1111_0111 == 0b1100_0011
            || op & 0b1100_0111 == 0b1100_0100 || op & 0b1100_1111 == 0b1100_1101
            || op & 0b1100_0111 == 0b1100_0000) ==> op & 0b1110_1111 == 0b1100_1001,
{
    assert(1 <= spec_instr_len(op) <= 3) by (bit_vector);
    assert(!(op == 0b0011_1111 || op == 0b0011_0111 || op == 0b0010_1111 || op == 0b0010_0111
        || op == 0b0000_0000 || op == 0b1110_1011 || op == 0b1110_0011 || op == 0b1111_1001
        || op == 0b1110_1001 || op == 0b1111_1011 || op == 0b1111_0011 || op == 0b1101_1011
        || op == 0b1101_0011 || op == 0b0111_0110 || op & 0b1100_0111 == 0b0000_0100
        || op & 0b1100_0111 == 0b0000_0101 || op & 0b1100_0000 == 0b0100_0000
        || op & 0b1110_1111 == 0b0000_0010 || op & 0b1110_1111 == 0b0000_1010
        || op & 0b1100_0000 == 0b1000_0000 || op & 0b1110_0111 == 0b0000_0111
        || op & 0b1100_1111 == 0b1100_0101 || op & 0b1100_1111 == 0b1100_0001
        || op & 0b1100_1111 == 0b0000_1001 || op & 0b1100_1111 == 0b0000_0011
        || op & 0b1100_1111 == 0b0000_1011 || op & 0b1100_1111 == 0b0000_0001
        || op & 0b1100_0111 == 0b0000_0110 || op & 0b1100_0111 == 0b1100_0110
        || op & 0b1110_0111 == 0b0010_0010 || op & 0b1100_0111 == 0b1100_0111
        || op == 0b0000_1000 || op == 0b0001_0000 || op == 0b0001_1000 || op == 0b0010_0000
        || op == 0b0010_1000 || op == 0b0011_0000 || op == 0b0011_1000
        || op & 0b1100_0111 == 0b1100_0010 || op & 0b1111_0111 == 0b1100_0011
        || op & 0b1100_0111 == 0b1100_0100 || op & 0b1100_1111 == 0b1100_1101
        || op & 0b1100_0111 == 0b1100_0000) ==> op & 0b1110_1111 == 0b1100_1001) by (bit_vector);
}


/// The capture law for the increment, decrement, move and indirect accumulator patterns.
proof fn lemma_decode_captures_transfers(op: u8, b1: u8, b2: u8)
    ensures
        op & 0b1100_0111 == 0b0000_0100 ==> spec_decode(op, b1, b2) == (Instruction::Increment(spec_register_from_bits((op >> 3) & 0b111))),
        op & 0b1100_0111 == 0b0000_0101 ==> spec_decode(op, b1, b2) == (Instruction::Decrement(spec_register_from_bits((op >> 3) & 0b111))),
        op & 0b1100_0000 == 0b0100_0000 && op != 0b0111_0110 ==> spec_decode(op, b1, b2) == (Instruction::Move { destination: spec_register_from_bits((op >> 3) & 0b111), source: spec_register_from_bits(op & 0b111) }),
        op & 0b1110_1111 == 0b0000_0010 ==> spec_decode(op, b1, b2) == (Instruction::StoreAccumulator(spec_small_pair_from_bits((op >> 4) & 0b1))),
        op & 0b1110_1111 == 0b0000_1010 ==> spec_decode(op, b1, b2) == (Instruction::LoadAccumulator(spec_small_pair_from_bits((op >> 4) & 0b1))),
{
    assert(op & 0b1100_0111 == 0b0000_0100 ==> (op != 0b0011_1111 && op != 0b0011_0111 &&
        op != 0b0010_1111 && op != 0b0010_0111 && op != 0b0000_0000 && op != 0b1110_1011 &&
        op != 0b1110_0011 && op != 0b1111_1001 && op != 0b1110_1001 && op != 0b1111_1011 &&
        op != 0b1111_0011 && op != 0b1101_1011 && op != 0b1101_0011 && op != 0b0111_0110)) by (bit_vector);
    assert(op & 0b1100_0111 == 0b0000_0101 ==> (op != 0b0011_1111 && op != 0b0011_0111 &&
        op != 0b0010_1111 && op != 0b0010_0111 && op != 0b0000_0000 && op != 0b1110_1011 &&
        op != 0b1110_0011 && op != 0b1111_1001 && op != 0b1110_1001 && op != 0b1111_1011 &&
        op != 0b1111_0011 && op != 0b1101_1011 && op != 0b1101_0011 && op != 0b0111_0110 &&
        op & 0b1100_0111 != 0b0000_0100)) by (bit_vector);
    assert(op & 0b1100_0000 == 0b0100_0000 && op != 0b0111_0110 ==> (op != 0b0011_1111 &&
        op != 0b0011_0111 && op != 0b0010_1111 && op != 0b0010_0111 && op != 0b0000_0000 &&
        op != 0b1110_1011 && op != 0b1110_0011 && op != 0b1111_1001 && op != 0b1110_1001 &&
        op != 0b1111_1011 && op != 0b1111_0011 && op != 0b1101_1011 && op != 0b1101_0011 &&
        op != 0b0111_0110 && op & 0b1100_0111 != 0b0000_0100 && op & 0b1100_0111 != 0b0000_0101)) by (bit_vector);
    assert(op & 0b1110_1111 == 0b0000_0010 ==> (op != 0b0011_1111 && op != 0b0011_0111 &&
        op != 0b0010_1111 && op != 0b0010_0111 && op != 0b0000_0000 && op != 0b1110_1011 &&
        op != 0b1110_0011 && op != 0b1111_1001 && op != 0b1110_1001 && op != 0b1111_1011 &&
        op != 0b1111_0011 && op != 0b1101_1011 && op != 0b1101_0011 && op != 0b0111_0110 &&
        op & 0b1100_0111 != 0b0000_0100 && op & 0b1100_0111 != 0b0000_0101 &&
        op & 0b1100_0000 != 0b0100_0000)) by (bit_vector);
    assert(op & 0b1110_1111 == 0b0000_1010 ==> (op != 0b0011_1111 && op != 0b0011_0111 &&
        op != 0b0010_1111 && op != 0b0010_0111 && op != 0b0000_0000 && op != 0b1110_1011 &&
        op != 0b1110_0011 && op != 0b1111_1001 && op != 0b1110_1001 && op != 0b1111_1011 &&
        op != 0b1111_0011 && op != 0b1101_1011 && op != 0b1101_0011 && op != 0b0111_0110 &&
        op & 0b1100_0111 != 0b0000_0100 && op & 0b1100_0111 != 0b0000_0101 &&
        op & 0b1100_0000 != 0b0100_0000 && op & 0b1110_1111 != 0b0000_0010)) by (bit_vector);
}

/// The capture law for the ALU, rotate, stack and pair-arithmetic patterns.
proof fn lemma_decode_captures_alu_stack(op: u8, b1: u8, b2: u8)
    ensures
        op & 0b1100_0000 == 0b1000_0000 ==> spec_decode(op, b1, b2) == (Instruction::ToAccumulator(spec_to_acc_op_from_bits((op >> 3) & 0b111), spec_register_from_bits(op & 0b111))),
        op & 0b1110_0111 == 0b0000_0111 ==> spec_decode(op, b1, b2) == (Instruction::RotateAccumulator(spec_rotate_op_from_bits((op >> 3) & 0b11))),
        op & 0b1100_1111 == 0b1100_0101 ==> spec_decode(op, b1, b2) == (Instruction::Push(spec_stack_op_pair_from_bits((op >> 4) & 0b11))),
        op & 0b1100_1111 == 0b1100_0001 ==> spec_decode(op, b1, b2) == (Instruction::Pop(spec_stack_op_pair_from_bits((op >> 4) & 0b11))),
        op & 0b1100_1111 == 0b0000_1001 ==> spec_decode(op, b1, b2) == (Instruction::AddToHl(spec_large_pair_from_bits((op >> 4) & 0b11))),
        op & 0b1100_1111 == 0b0000_0011 ==> spec_decode(op, b1, b2) == (Instruction::IncrementPair(spec_large_pair_from_bits((op >> 4) & 0b11))),
        op & 0b1100_1111 == 0b0000_1011 ==> spec_decode(op, b1, b2) == (Instruction::DecrementPair(spec_large_pair_from_bits((op >> 4) & 0b11))),
{
    assert(op & 0b1100_0000 == 0b1000_0000 ==> (op != 0b0011_1111 && op != 0b0011_0111 &&
        op != 0b0010_1111 && op != 0b0010_0111 && op != 0b0000_0000 && op != 0b1110_1011 &&
        op != 0b1110_0011 && op != 0b1111_1001 && op != 0b1110_1001 && op != 0b1111_1011 &&
        op != 0b1111_0011 && op != 0b1101_1011 && op != 0b1101_0011 && op != 0b0111_0110 &&
        op & 0b1100_0111 != 0b0000_0100 && op & 0b1100_0111 != 0b0000_0101 &&
        op & 0b1100_0000 != 0b0100_0000 && op & 0b1110_1111 != 0b0000_0010 &&
        op & 0b1110_1111 != 0b0000_1010)) by (bit_vector);
    assert(op & 0b1110_0111 == 0b0000_0111 ==> (op != 0b0011_1111 && op != 0b0011_0111 &&
        op != 0b0010_1111 && op != 0b0010_0111 && op != 0b0000_0000 && op != 0b1110_1011 &&
        op != 0b1110_0011 && op != 0b1111_1001 && op != 0b1110_1001 && op != 0b1111_1011 &&
        op != 0b1111_0011 && op != 0b1101_1011 && op != 0b1101_0011 && op != 0b0111_0110 &&
        op & 0b1100_0111 != 0b0000_0100 && op & 0b1100_0111 != 0b0000_0101 &&
        op & 0b1100_0000 != 0b0100_0000 && op & 0b1110_1111 != 0b0000_0010 &&
        op & 0b1110_1111 != 0b0000_1010 && op & 0b1100_0000 != 0b1000_0000)) by (bit_vector);
    assert(op & 0b1100_1111 == 0b1100_0101 ==> (op != 0b0011_1111 && op != 0b0011_0111 &&
        op != 0b0010_1111 && op != 0b0010_0111 && op != 0b0000_0000 && op != 0b1110_1011 &&
        op != 0b1110_0011 && op != 0b1111_1001 && op != 0b1110_1001 && op != 0b1111_1011 &&
        op != 0b1111_0011 && op != 0b1101_1011 && op != 0b1101_0011 && op != 0b0111_0110 &&
        op & 0b1100_0111 != 0b0000_0100 && op & 0b1100_0111 != 0b0000_0101 &&
        op & 0b1100_0000 != 0b0100_0000 && op & 0b1110_1111 != 0b0000_0010 &&
        op & 0b1110_1111 != 0b0000_1010 && op & 0b1100_0000 != 0b1000_0000 &&
        op & 0b1110_0111 != 0b0000_0111)) by (bit_vector);
    assert(op & 0b1100_1111 == 0b1100_0001 ==> (op != 0b0011_1111 && op != 0b0011_0111 &&
        op != 0b0010_1111 && op != 0b0010_0111 && op != 0b0000_0000 && op != 0b1110_1011 &&
        op != 0b1110_0011 && op != 0b1111_1001 && op != 0b1110_1001 && op != 0b1111_1011 &&
        op != 0b1111_0011 && op != 0b1101_1011 && op != 0b1101_0011 && op != 0b0111_0110 &&
        op & 0b1100_0111 != 0b0000_0100 && op & 0b1100_0111 != 0b0000_0101 &&
        op & 0b1100_0000 != 0b0100_0000 && op & 0b1110_1111 != 0b0000_0010 &&
        op & 0b1110_1111 != 0b0000_1010 && op & 0b1100_0000 != 0b1000_0000 &&
        op & 0b1110_0111 != 0b0000_0111 && op & 0b1100_1111 != 0b1100_0101)) by (bit_vector);
    assert(op & 0b1100_1111 == 0b0000_1001 ==> (op != 0b0011_1111 && op != 0b0011_0111 &&
        op != 0b0010_1111 && op != 0b0010_0111 && op != 0b0000_0000 && op != 0b1110_1011 &&
        op != 0b1110_0011 && op != 0b1111_1001 && op != 0b1110_1001 && op != 0b1111_1011 &&
        op != 0b1111_0011 && op != 0b1101_1011 && op != 0b1101_0011 && op != 0b0111_0110 &&
        op & 0b1100_0111 != 0b0000_0100 && op & 0b1100_0111 != 0b0000_0101 &&
        op & 0b1100_0000 != 0b0100_0000 && op & 0b1110_1111 != 0b0000_0010 &&
        op & 0b1110_1111 != 0b0000_1010 && op & 0b1100_0000 != 0b1000_0000 &&
        op & 0b1110_0111 != 0b0000_0111 && op & 0b1100_1111 != 0b1100_0101 &&
        op & 0b1100_1111 != 0b1100_0001)) by (bit_vector);
    assert(op & 0b1100_1111 == 0b0000_0011 ==> (op != 0b0011_1111 && op != 0b0011_0111 &&
        op != 0b0010_1111 && op != 0b0010_0111 && op != 0b0000_0000 && op != 0b1110_1011 &&
        op != 0b1110_0011 && op != 0b1111_1001 && op != 0b1110_1001 && op != 0b1111_1011 &&
        op != 0b1111_0011 && op != 0b1101_1011 && op != 0b1101_0011 && op != 0b0111_0110 &&
        op & 0b1100_0111 != 0b0000_0100 && op & 0b1100_0111 != 0b0000_0101 &&
        op & 0b1100_0000 != 0b0100_0000 && op & 0b1110_1111 != 0b0000_0010 &&
        op & 0b1110_1111 != 0b0000_1010 && op & 0b1100_0000 != 0b1000_0000 &&
        op & 0b1110_0111 != 0b0000_0111 && op & 0b1100_1111 != 0b1100_0101 &&
        op & 0b1100_1111 != 0b1100_0001 && op & 0b1100_1111 != 0b0000_1001)) by (bit_vector);
    assert(op & 0b1100_1111 == 0b0000_1011 ==> (op != 0b0011_1111 && op != 0b0011_0111 &&
        op != 0b0010_1111 && op != 0b0010_0111 && op != 0b0000_0000 && op != 0b1110_1011 &&
        op != 0b1110_0011 && op != 0b1111_1001 && op != 0b1110_1001 && op != 0b1111_1011 &&
        op != 0b1111_0011 && op != 0b1101_1011 && op != 0b1101_0011 && op != 0b0111_0110 &&
        op & 0b1100_0111 != 0b0000_0100 && op & 0b1100_0111 != 0b0000_0101 &&
        op & 0b1100_0000 != 0b0100_0000 && op & 0b1110_1111 != 0b0000_0010 &&
        op & 0b1110_1111 != 0b0000_1010 && op & 0b1100_0000 != 0b1000_0000 &&
        op & 0b1110_0111 != 0b0000_0111 && op & 0b1100_1111 != 0b1100_0101 &&
        op & 0b1100_1111 != 0b1100_0001 && op & 0b1100_1111 != 0b0000_1001 &&
        op & 0b1100_1111 != 0b0000_0011)) by (bit_vector);
}

/// The capture law for the immediate, direct-address and restart patterns.
proof fn lemma_decode_captures_immediates(op: u8, b1: u8, b2: u8)
    ensures
        op & 0b1100_1111 == 0b0000_0001 ==> spec_decode(op, b1, b2) == (Instruction::LoadLargeImmediate(spec_large_pair_from_bits((op >> 4) & 0b11), spec_imm16(b1, b2))),
        op & 0b1100_0111 == 0b0000_0110 ==> spec_decode(op, b1, b2) == (Instruction::LoadImmediate(spec_register_from_bits((op >> 3) & 0b111), b1)),
        op & 0b1100_0111 == 0b1100_0110 ==> spec_decode(op, b1, b2) == (Instruction::ToAccumulatorImmediate(spec_to_acc_op_from_bits((op >> 3) & 0b111), b1)),
        op & 0b1110_0111 == 0b0010_0010 ==> spec_decode(op, b1, b2) == (Instruction::DirectAddress(spec_direct_op_from_bits((op >> 3) & 0b11), spec_imm16(b1, b2))),
        op & 0b1100_0111 == 0b1100_0111 ==> spec_decode(op, b1, b2) == (Instruction::Restart((op >> 3) & 0b111)),
{
    assert(op & 0b1100_1111 == 0b0000_0001 ==> (op != 0b0011_1111 && op != 0b0011_0111 &&
        op != 0b0010_1111 && op != 0b0010_0111 && op != 0b0000_0000 && op != 0b1110_1011 &&
        op != 0b1110_0011 && op != 0b1111_1001 && op != 0b1110_1001 && op != 0b1111_1011 &&
        op != 0b1111_0011 && op != 0b1101_1011 && op != 0b1101_0011 && op != 0b0111_0110 &&
        op & 0b1100_0111 != 0b0000_0100 && op & 0b1100_0111 != 0b0000_0101 &&
        op & 0b1100_0000 != 0b0100_0000 && op & 0b1110_1111 != 0b0000_0010 &&
        op & 0b1110_1111 != 0b0000_1010 && op & 0b1100_0000 != 0b1000_0000 &&
        op & 0b1110_0111 != 0b0000_0111 && op & 0b1100_1111 != 0b1100_0101 &&
        op & 0b1100_1111 != 0b1100_0001 && op & 0b1100_1111 != 0b0000_1001 &&
        op & 0b1100_1111 != 0b0000_0011 && op & 0b1100_1111 != 0b0000_1011)) by (bit_vector);
    assert(op & 0b1100_0111 == 0b0000_0110 ==> (op != 0b0011_1111 && op != 0b0011_0111 &&
        op != 0b0010_1111 && op != 0b0010_0111 && op != 0b0000_0000 && op != 0b1110_1011 &&
        op != 0b1110_0011 && op != 0b1111_1001 && op != 0b1110_1001 && op != 0b1111_1011 &&
        op != 0b1111_0011 && op != 0b1101_1011 && op != 0b1101_0011 && op != 0b0111_0110 &&
        op & 0b1100_0111 != 0b0000_0100 && op & 0b1100_0111 != 0b0000_0101 &&
        op & 0b1100_0000 != 0b0100_0000 && op & 0b1110_1111 != 0b0000_0010 &&
        op & 0b1110_1111 != 0b0000_1010 && op & 0b1100_0000 != 0b1000_0000 &&
        op & 0b1110_0111 != 0b0000_0111 && op & 0b1100_1111 != 0b1100_0101 &&
        op & 0b1100_1111 != 0b1100_0001 && op & 0b1100_1111 != 0b0000_1001 &&
        op & 0b1100_1111 != 0b0000_0011 && op & 0b1100_1111 != 0b0000_1011 &&
        op & 0b1100_1111 != 0b0000_0001)) by (bit_vector);
    assert(op & 0b1100_0111 == 0b1100_0110 ==> (op != 0b0011_1111 && op != 0b0011_0111 &&
        op != 0b0010_1111 && op != 0b0010_0111 && op != 0b0000_0000 && op != 0b1110_1011 &&
        op != 0b1110_0011 && op != 0b1111_1001 && op != 0b1110_1001 && op != 0b1111_1011 &&
        op != 0b1111_0011 && op != 0b1101_1011 && op != 0b1101_0011 && op != 0b0111_0110 &&
        op & 0b1100_0111 != 0b0000_0100 && op & 0b1100_0111 != 0b0000_0101 &&
        op & 0b1100_0000 != 0b0100_0000 && op & 0b1110_1111 != 0b0000_0010 &&
        op & 0b1110_1111 != 0b0000_1010 && op & 0b1100_0000 != 0b1000_0000 &&
        op & 0b1110_0111 != 0b0000_0111 && op & 0b1100_1111 != 0b1100_0101 &&
        op & 0b1100_1111 != 0b1100_0001 && op & 0b1100_1111 != 0b0000_1001 &&
        op & 0b1100_1111 != 0b0000_0011 && op & 0b1100_1111 != 0b0000_1011 &&
        op & 0b1100_1111 != 0b0000_0001 && op & 0b1100_0111 != 0b0000_0110)) by (bit_vector);
    assert(op & 0b1110_0111 == 0b0010_0010 ==> (op != 0b0011_1111 && op != 0b0011_0111 &&
        op != 0b0010_1111 && op != 0b0010_0111 && op != 0b0000_0000 && op != 0b1110_1011 &&
        op != 0b1110_0011 && op != 0b1111_1001 && op != 0b1110_1001 && op != 0b1111_1011 &&
        op != 0b1111_0011 && op != 0b1101_1011 && op != 0b1101_0011 && op != 0b0111_0110 &&
        op & 0b1100_0111 != 0b0000_0100 && op & 0b1100_0111 != 0b0000_0101 &&
        op & 0b1100_0000 != 0b0100_0000 && op & 0b1110_1111 != 0b0000_0010 &&
        op & 0b1110_1111 != 0b0000_1010 && op & 0b1100_0000 != 0b1000_0000 &&
        op & 0b1110_0111 != 0b0000_0111 && op & 0b1100_1111 != 0b1100_0101 &&
        op & 0b1100_1111 != 0b1100_0001 && op & 0b1100_1111 != 0b0000_1001 &&
        op & 0b1100_1111 != 0b0000_0011 && op & 0b1100_1111 != 0b0000_1011 &&
        op & 0b1100_1111 != 0b0000_0001 && op & 0b1100_0111 != 0b0000_0110 &&
        op & 0b1100_0111 != 0b1100_0110)) by (bit_vector);
    assert(op & 0b1100_0111 == 0b1100_0111 ==> (op != 0b0011_1111 && op != 0b0011_0111 &&
        op != 0b0010_1111 && op != 0b0010_0111 && op != 0b0000_0000 && op != 0b1110_1011 &&
        op != 0b1110_0011 && op != 0b1111_1001 && op != 0b1110_1001 && op != 0b1111_1011 &&
        op != 0b1111_0011 && op != 0b1101_1011 && op != 0b1101_0011 && op != 0b0111_0110 &&
        op & 0b1100_0111 != 0b0000_0100 && op & 0b1100_0111 != 0b0000_0101 &&
        op & 0b1100_0000 != 0b0100_0000 && op & 0b1110_1111 != 0b0000_0010 &&
        op & 0b1110_1111 != 0b0000_1010 && op & 0b1100_0000 != 0b1000_0000 &&
        op & 0b1110_0111 != 0b0000_0111 && op & 0b1100_1111 != 0b1100_0101 &&
        op & 0b1100_1111 != 0b1100_0001 && op & 0b1100_1111 != 0b0000_1001 &&
        op & 0b1100_1111 != 0b0000_0011 && op & 0b1100_1111 != 0b0000_1011 &&
        op & 0b1100_1111 != 0b0000_0001 && op & 0b1100_0111 != 0b0000_0110 &&
        op & 0b1100_0111 != 0b1100_0110 && op & 0b1110_0111 != 0b0010_0010)) by (bit_vector);
}

/// The capture law for the conditional jump, call and return patterns.
proof fn lemma_decode_captures_branches(op: u8, b1: u8, b2: u8)
    ensures
        op & 0b1100_0111 == 0b1100_0010 ==> spec_decode(op, b1, b2) == (Instruction::Jump(spec_condition_from_bits((op >> 3) & 0b111), spec_imm16(b1, b2))),
        op & 0b1100_0111 == 0b1100_0100 ==> spec_decode(op, b1, b2) == (Instruction::Call(spec_condition_from_bits((op >> 3) & 0b111), spec_imm16(b1, b2))),
        op & 0b1100_0111 == 0b1100_0000 ==> spec_decode(op, b1, b2) == (Instruction::ReturnFromSubroutine(spec_condition_from_bits((op >> 3) & 0b111))),
{
    assert(op & 0b1100_0111 == 0b1100_0010 ==> (op != 0b0011_1111 && op != 0b0011_0111 &&
        op != 0b0010_1111 && op != 0b0010_0111 && op != 0b0000_0000 && op != 0b1110_1011 &&
        op != 0b1110_0011 && op != 0b1111_1001 && op != 0b1110_1001 && op != 0b1111_1011 &&
        op != 0b1111_0011 && op != 0b1101_1011 && op != 0b1101_0011 && op != 0b0111_0110 &&
        op & 0b1100_0111 != 0b0000_0100 && op & 0b1100_0111 != 0b0000_0101 &&
        op & 0b1100_0000 != 0b0100_0000 && op & 0b1110_1111 != 0b0000_0010 &&
        op & 0b1110_1111 != 0b0000_1010 && op & 0b1100_0000 != 0b1000_0000 &&
        op & 0b1110_0111 != 0b0000_0111 && op & 0b1100_1111 != 0b1100_0101 &&
        op & 0b1100_1111 != 0b1100_0001 && op & 0b1100_1111 != 0b0000_1001 &&
        op & 0b1100_1111 != 0b0000_0011 && op & 0b1100_1111 != 0b0000_1011 &&
        op & 0b1100_1111 != 0b0000_0001 && op & 0b1100_0111 != 0b0000_0110 &&
        op & 0b1100_0111 != 0b1100_0110 && op & 0b1110_0111 != 0b0010_0010 &&
        op & 0b1100_0111 != 0b1100_0111 && op != 0b0000_1000 && op != 0b0001_0000 &&
        op != 0b0001_1000 && op != 0b0010_0000 && op != 0b0010_1000 && op != 0b0011_0000 &&
        op != 0b0011_1000)) by (bit_vector);
    assert(op & 0b1100_0111 == 0b1100_0100 ==> (op != 0b0011_1111 && op != 0b0011_0111 &&
        op != 0b0010_1111 && op != 0b0010_0111 && op != 0b0000_0000 && op != 0b1110_1011 &&
        op != 0b1110_0011 && op != 0b1111_1001 && op != 0b1110_1001 && op != 0b1111_1011 &&
        op != 0b1111_0011 && op != 0b1101_1011 && op != 0b1101_0011 && op != 0b0111_0110 &&
        op & 0b1100_0111 != 0b0000_0100 && op & 0b1100_0111 != 0b0000_0101 &&
        op & 0b1100_0000 != 0b0100_0000 && op & 0b1110_1111 != 0b0000_0010 &&
        op & 0b1110_1111 != 0b0000_1010 && op & 0b1100_0000 != 0b1000_0000 &&
        op & 0b1110_0111 != 0b0000_0111 && op & 0b1100_1111 != 0b1100_0101 &&
        op & 0b1100_1111 != 0b1100_0001 && op & 0b1100_1111 != 0b0000_1001 &&
        op & 0b1100_1111 != 0b0000_0011 && op & 0b1100_1111 != 0b0000_1011 &&
        op & 0b1100_1111 != 0b0000_0001 && op & 0b1100_0111 != 0b0000_0110 &&
        op & 0b1100_0111 != 0b1100_0110 && op & 0b1110_0111 != 0b0010_0010 &&
        op & 0b1100_0111 != 0b1100_0111 && op != 0b0000_1000 && op != 0b0001_0000 &&
        op != 0b0001_1000 && op != 0b0010_0000 && op != 0b0010_1000 && op != 0b0011_0000 &&
        op != 0b0011_1000 && op & 0b1100_0111 != 0b1100_0010 && op & 0b1111_0111 != 0b1100_0011)) by (bit_vector);
    assert(op & 0b1100_0111 == 0b1100_0000 ==> (op != 0b0011_1111 && op != 0b0011_0111 &&
        op != 0b0010_1111 && op != 0b0010_0111 && op != 0b0000_0000 && op != 0b1110_1011 &&
        op != 0b1110_0011 && op != 0b1111_1001 && op != 0b1110_1001 && op != 0b1111_1011 &&
        op != 0b1111_0011 && op != 0b1101_1011 && op != 0b1101_0011 && op != 0b0111_0110 &&
        op & 0b1100_0111 != 0b0000_0100 && op & 0b1100_0111 != 0b0000_0101 &&
        op & 0b1100_0000 != 0b0100_0000 && op & 0b1110_1111 != 0b0000_0010 &&
        op & 0b1110_1111 != 0b0000_1010 && op & 0b1100_0000 != 0b1000_0000 &&
        op & 0b1110_0111 != 0b0000_0111 && op & 0b1100_1111 != 0b1100_0101 &&
        op & 0b1100_1111 != 0b1100_0001 && op & 0b1100_1111 != 0b0000_1001 &&
        op & 0b1100_1111 != 0b0000_0011 && op & 0b1100_1111 != 0b0000_1011 &&
        op & 0b1100_1111 != 0b0000_0001 && op & 0b1100_0111 != 0b0000_0110 &&
        op & 0b1100_0111 != 0b1100_0110 && op & 0b1110_0111 != 0b0010_0010 &&
        op & 0b1100_0111 != 0b1100_0111 && op != 0b0000_1000 && op != 0b0001_0000 &&
        op != 0b0001_1000 && op != 0b0010_0000 && op != 0b0010_1000 && op != 0b0011_0000 &&
        op != 0b0011_1000 && op & 0b1100_0111 != 0b1100_0010 && op & 0b1111_0111 != 0b1100_0011 &&
        op & 0b1100_0111 != 0b1100_0100 && op & 0b1100_1111 != 0b1100_1101)) by (bit_vector);
}

/// Every named capture field of the opcode table decodes by shift and
/// mask: wherever an opcode falls under a pattern with a capture of width
/// `n` starting at bit `p`, the corresponding payload of the decoded
/// variant is `from_bits` of `(op >> p) & ((1 << n) - 1)`, and the
/// immediate operands are the following bytes, little-endian.
pub proof fn lemma_decode_capture_fields(op: u8, b1: u8, b2: u8)
    ensures
        op & 0b1100_0111 == 0b0000_0100 ==> spec_decode(op, b1, b2) == (Instruction::Increment(spec_register_from_bits((op >> 3) & 0b111))),
        op & 0b1100_0111 == 0b0000_0101 ==> spec_decode(op, b1, b2) == (Instruction::Decrement(spec_register_from_bits((op >> 3) & 0b111))),
        op & 0b1100_0000 == 0b0100_0000 && op != 0b0111_0110 ==> spec_decode(op, b1, b2) == (Instruction::Move { destination: spec_register_from_bits((op >> 3) & 0b111), source: spec_register_from_bits(op & 0b111) }),
        op & 0b1110_1111 == 0b0000_0010 ==> spec_decode(op, b1, b2) == (Instruction::StoreAccumulator(spec_small_pair_from_bits((op >> 4) & 0b1))),
        op & 0b1110_1111 == 0b0000_1010 ==> spec_decode(op, b1, b2) == (Instruction::LoadAccumulator(spec_small_pair_from_bits((op >> 4) & 0b1))),
        op & 0b1100_0000 == 0b1000_0000 ==> spec_decode(op, b1, b2) == (Instruction::ToAccumulator(spec_to_acc_op_from_bits((op >> 3) & 0b111), spec_register_from_bits(op & 0b111))),
        op & 0b1110_0111 == 0b0000_0111 ==> spec_decode(op, b1, b2) == (Instruction::RotateAccumulator(spec_rotate_op_from_bits((op >> 3) & 0b11))),
        op & 0b1100_1111 == 0b1100_0101 ==> spec_decode(op, b1, b2) == (Instruction::Push(spec_stack_op_pair_from_bits((op >> 4) & 0b11))),
        op & 0b1100_1111 == 0b1100_0001 ==> spec_decode(op, b1, b2) == (Instruction::Pop(spec_stack_op_pair_from_bits((op >> 4) & 0b11))),
        op & 0b1100_1111 == 0b0000_1001 ==> spec_decode(op, b1, b2) == (Instruction::AddToHl(spec_large_pair_from_bits((op >> 4) & 0b11))),
        op & 0b1100_1111 == 0b0000_0011 ==> spec_decode(op, b1, b2) == (Instruction::IncrementPair(spec_large_pair_from_bits((op >> 4) & 0b11))),
        op & 0b1100_1111 == 0b0000_1011 ==> spec_decode(op, b1, b2) == (Instruction::DecrementPair(spec_large_pair_from_bits((op >> 4) & 0b11))),
        op & 0b1100_1111 == 0b0000_0001 ==> spec_decode(op, b1, b2) == (Instruction::LoadLargeImmediate(spec_large_pair_from_bits((op >> 4) & 0b11), spec_imm16(b1, b2))),
        op & 0b1100_0111 == 0b0000_0110 ==> spec_decode(op, b1, b2) == (Instruction::LoadImmediate(spec_register_from_bits((op >> 3) & 0b111), b1)),
        op & 0b1100_0111 == 0b1100_0110 ==> spec_decode(op, b1, b2) == (Instruction::ToAccumulatorImmediate(spec_to_acc_op_from_bits((op >> 3) & 0b111), b1)),
        op & 0b1110_0111 == 0b0010_0010 ==> spec_decode(op, b1, b2) == (Instruction::DirectAddress(spec_direct_op_from_bits((op >> 3) & 0b11), spec_imm16(b1, b2))),
        op & 0b1100_0111 == 0b1100_0111 ==> spec_decode(op, b1, b2) == (Instruction::Restart((op >> 3) & 0b111)),
        op & 0b1100_0111 == 0b1100_0010 ==> spec_decode(op, b1, b2) == (Instruction::Jump(spec_condition_from_bits((op >> 3) & 0b111), spec_imm16(b1, b2))),
        op & 0b1100_0111 == 0b1100_0100 ==> spec_decode(op, b1, b2) == (Instruction::Call(spec_condition_from_bits((op >> 3) & 0b111), spec_imm16(b1, b2))),
        op & 0b1100_0111 == 0b1100_0000 ==> spec_decode(op, b1, b2) == (Instruction::ReturnFromSubroutine(spec_condition_from_bits((op >> 3) & 0b111))),
{
    lemma_decode_captures_transfers(op, b1, b2);
    lemma_decode_captures_alu_stack(op, b1, b2);
    lemma_decode_captures_immediates(op, b1, b2);
    lemma_decode_captures_branches(op, b1, b2);
}

impl Instruction {
    /// The number of bytes this instruction occupies in memory.
    pub fn length_of_opcode(op: u8) -> (r: u8)
        ensures
            r == spec_instr_len(op),
    {
        if op == 0b1101_1011 || op == 0b1101_0011 {
            2
        } else if op & 0b1100_1111 == 0b0000_0001 {
            3
        } else if op & 0b1100_0111 == 0b0000_0110 {
            2
        } else if op & 0b1100_0111 == 0b1100_0110 {
            2
        } else if op & 0b1110_0111 == 0b0010_0010 {
            3
        } else if op & 0b1100_0111 == 0b1100_0010 || op & 0b1111_0111 == 0b1100_0011 {
            3
        } else if op & 0b1100_0111 == 0b1100_0100 || op & 0b1100_1111 == 0b1100_1101 {
            3
        } else {
            1
        }
    }

    /// Decode one instruction from an opcode and its (possibly unused)
    /// immediate bytes.
    pub fn decode_bytes(op: u8, b1: u8, b2: u8) -> (r: Self)
        ensures
            r == spec_decode(op, b1, b2),
    {
        let imm16: u16 = b1 as u16 | ((b2 as u16) << 8);
        assert((b1 as u16 | ((b2 as u16) << 8)) == (b1 + b2 * 0x100) as u16) by (bit_vector);
        if op == 0b0011_1111 {
            Instruction::ComplementCarry
        } else if op == 0b0011_0111 {
            Instruction::SetCarry
        } else if op == 0b0010_1111 {
            Instruction::ComplementAccumulator
        } else if op == 0b0010_0111 {
            Instruction::DecimalAdjustAccumulator
        } else if op == 0b0000_0000 {
            Instruction::Nop
        } else if op == 0b1110_1011 {
            Instruction::ExchangeRegisters
        } else if op == 0b1110_0011 {
            Instruction::ExchangeStack
        } else if op == 0b1111_1001 {
            Instruction::LoadSpFromHl
        } else if op == 0b1110_1001 {
            Instruction::LoadProgramCounter
        } else if op == 0b1111_1011 {
            Instruction::EnableInterrupts
        } else if op == 0b1111_0011 {
            Instruction::DisableInterrupts
        } else if op == 0b1101_1011 {
            Instruction::In(b1)
        } else if op == 0b1101_0011 {
            Instruction::Out(b1)
        } else if op == 0b0111_0110 {
            Instruction::Halt
        } else if op & 0b1100_0111 == 0b0000_0100 {
            Instruction::Increment(Register::from_bits((op >> 3) & 0b111))
        } else if op & 0b1100_0111 == 0b0000_0101 {
            Instruction::Decrement(Register::from_bits((op >> 3) & 0b111))
        } else if op & 0b1100_0000 == 0b0100_0000 {
            Instruction::Move {
                destination: Register::from_bits((op >> 3) & 0b111),
                source: Register::from_bits(op & 0b111),
            }
        } else if op & 0b1110_1111 == 0b0000_0010 {
            Instruction::StoreAccumulator(SmallRegisterPair::from_bits((op >> 4) & 0b1))
        } else if op & 0b1110_1111 == 0b0000_1010 {
            Instruction::LoadAccumulator(SmallRegisterPair::from_bits((op >> 4) & 0b1))
        } else if op & 0b1100_0000 == 0b1000_0000 {
            Instruction::ToAccumulator(
                ToAccumulatorOperation::from_bits((op >> 3) & 0b111),
                Register::from_bits(op & 0b111),
            )
        } else if op & 0b1110_0111 == 0b0000_0111 {
            Instruction::RotateAccumulator(RotateAccumulatorOperation::from_bits((op >> 3) & 0b11))
        } else if op & 0b1100_1111 == 0b1100_0101 {
            Instruction::Push(StackOpRegPair::from_bits((op >> 4) & 0b11))
        } else if op & 0b1100_1111 == 0b1100_0001 {
            Instruction::Pop(StackOpRegPair::from_bits((op >> 4) & 0b11))
        } else if op & 0b1100_1111 == 0b0000_1001 {
            Instruction::AddToHl(LargeRegPair::from_bits((op >> 4) & 0b11))
        } else if op & 0b1100_1111 == 0b0000_0011 {
            Instruction::IncrementPair(LargeRegPair::from_bits((op >> 4) & 0b11))
        } else if op & 0b1100_1111 == 0b0000_1011 {
            Instruction::DecrementPair(LargeRegPair::from_bits((op >> 4) & 0b11))
        } else if op & 0b1100_1111 == 0b0000_0001 {
            Instruction::LoadLargeImmediate(LargeRegPair::from_bits((op >> 4) & 0b11), imm16)
        } else if op & 0b1100_0111 == 0b0000_0110 {
            Instruction::LoadImmediate(Register::from_bits((op >> 3) & 0b111), b1)
        } else if op & 0b1100_0111 == 0b1100_0110 {
            Instruction::ToAccumulatorImmediate(ToAccumulatorOperation::from_bits((op >> 3) & 0b111), b1)
        } else if op & 0b1110_0111 == 0b0010_0010 {
            Instruction::DirectAddress(DirectAddressOperation::from_bits((op >> 3) & 0b11), imm16)
        } else if op & 0b1100_0111 == 0b1100_0111 {
            Instruction::Restart((op >> 3) & 0b111)
        } else if op == 0b0000_1000 || op == 0b0001_0000 || op == 0b0001_1000 || op == 0b0010_0000
            || op == 0b0010_1000 || op == 0b0011_0000 || op == 0b0011_1000 {
            Instruction::Invalid(op)
        } else if op & 0b1100_0111 == 0b1100_0010 {
            Instruction::Jump(Condition::from_bits((op >> 3) & 0b111), imm16)
        } else if op & 0b1111_0111 == 0b1100_0011 {
            Instruction::Jump(Condition::Unconditional, imm16)
        } else if op & 0b1100_0111 == 0b1100_0100 {
            Instruction::Call(Condition::from_bits((op >> 3) & 0b111), imm16)
        } else if op & 0b1100_1111 == 0b1100_1101 {
            Instruction::Call(Condition::Unconditional, imm16)
        } else if op & 0b1100_0111 == 0b1100_0000 {
            Instruction::ReturnFromSubroutine(Condition::from_bits((op >> 3) & 0b111))
        } else {
            Instruction::ReturnFromSubroutine(Condition::Unconditional)
        }
    }
}

} // verus!
