use eighty::flags::Flags;
use eighty::model::{
    Condition, DirectAddressOperation, Instruction, LargeRegPair, Register,
    RotateAccumulatorOperation, StackOpRegPair, ToAccumulatorOperation,
};

#[test]
fn cycle_table_matches_reference() {
    assert_eq!(Instruction::ComplementCarry.num_cycles(false), 4);
    assert_eq!(Instruction::SetCarry.num_cycles(false), 4);
    assert_eq!(Instruction::ComplementAccumulator.num_cycles(false), 4);
    assert_eq!(Instruction::DecimalAdjustAccumulator.num_cycles(false), 4);
    assert_eq!(Instruction::Nop.num_cycles(false), 4);
    assert_eq!(Instruction::ExchangeRegisters.num_cycles(false), 5);
    assert_eq!(Instruction::ExchangeStack.num_cycles(false), 18);
    assert_eq!(Instruction::LoadSpFromHl.num_cycles(false), 5);
    assert_eq!(Instruction::LoadProgramCounter.num_cycles(false), 5);
    assert_eq!(Instruction::EnableInterrupts.num_cycles(false), 4);
    assert_eq!(Instruction::DisableInterrupts.num_cycles(false), 4);
    assert_eq!(Instruction::In(0).num_cycles(false), 10);
    assert_eq!(Instruction::Out(0).num_cycles(false), 10);
    assert_eq!(Instruction::Halt.num_cycles(false), 7);
    assert_eq!(Instruction::Invalid(0x08).num_cycles(false), 4);
}

#[test]
fn cycle_table_distinguishes_memory_operands() {
    assert_eq!(Instruction::Increment(Register::B).num_cycles(false), 5);
    assert_eq!(Instruction::Increment(Register::MemoryRef).num_cycles(false), 10);
    assert_eq!(Instruction::Decrement(Register::A).num_cycles(false), 5);
    assert_eq!(Instruction::Decrement(Register::MemoryRef).num_cycles(false), 10);
    assert_eq!(
        Instruction::Move { destination: Register::B, source: Register::C }.num_cycles(false),
        5,
    );
    assert_eq!(
        Instruction::Move { destination: Register::MemoryRef, source: Register::C }
            .num_cycles(false),
        7,
    );
    assert_eq!(
        Instruction::Move { destination: Register::B, source: Register::MemoryRef }
            .num_cycles(false),
        7,
    );
    assert_eq!(
        Instruction::ToAccumulator(ToAccumulatorOperation::Add, Register::B).num_cycles(false),
        4,
    );
    assert_eq!(
        Instruction::ToAccumulator(ToAccumulatorOperation::Add, Register::MemoryRef)
            .num_cycles(false),
        7,
    );
    assert_eq!(Instruction::LoadImmediate(Register::B, 1).num_cycles(false), 7);
    assert_eq!(Instruction::LoadImmediate(Register::MemoryRef, 1).num_cycles(false), 10);
}

#[test]
fn cycle_table_depends_on_branch_taken() {
    assert_eq!(Instruction::Jump(Condition::Zero, 0).num_cycles(false), 10);
    assert_eq!(Instruction::Jump(Condition::Zero, 0).num_cycles(true), 10);
    assert_eq!(Instruction::Call(Condition::Zero, 0).num_cycles(false), 11);
    assert_eq!(Instruction::Call(Condition::Zero, 0).num_cycles(true), 17);
    assert_eq!(Instruction::ReturnFromSubroutine(Condition::Zero).num_cycles(false), 5);
    assert_eq!(Instruction::ReturnFromSubroutine(Condition::Zero).num_cycles(true), 11);
    assert_eq!(Instruction::ReturnFromSubroutine(Condition::Unconditional).num_cycles(false), 10);
    assert_eq!(Instruction::ReturnFromSubroutine(Condition::Unconditional).num_cycles(true), 10);
}

#[test]
fn cycle_counts_stay_in_the_reference_set() {
    let allowed = [4u8, 5, 7, 10, 11, 13, 17, 18];
    let samples = [
        Instruction::Nop,
        Instruction::Increment(Register::MemoryRef),
        Instruction::Push(StackOpRegPair::Hl),
        Instruction::Pop(StackOpRegPair::FlagsA),
        Instruction::AddToHl(LargeRegPair::Sp),
        Instruction::DirectAddress(DirectAddressOperation::StoreHl, 0),
        Instruction::RotateAccumulator(RotateAccumulatorOperation::Right),
        Instruction::Restart(3),
        Instruction::Call(Condition::Unconditional, 0),
        Instruction::ReturnFromSubroutine(Condition::Carry),
        Instruction::ExchangeStack,
    ];
    for i in samples {
        assert!(allowed.contains(&i.num_cycles(false)));
        assert!(allowed.contains(&i.num_cycles(true)));
    }
}

#[test]
fn set_from_arithmetic_sets_zero_sign_parity() {
    let mut f = Flags::new();
    f.set_from_arithmetic(0);
    assert!(f.zero);
    assert!(f.sign_positive);
    assert!(f.parity_even); // zero set bits is even

    f.set_from_arithmetic(0x80);
    assert!(!f.zero);
    assert!(!f.sign_positive);
    assert!(!f.parity_even); // one set bit

    f.set_from_arithmetic(0x03);
    assert!(!f.zero);
    assert!(f.sign_positive);
    assert!(f.parity_even); // two set bits

    f.set_from_arithmetic(0x07);
    assert!(!f.parity_even); // three set bits
}

#[test]
fn set_from_arithmetic_leaves_carries_alone() {
    let mut f = Flags::new();
    f.carry = true;
    f.auxiliary_carry = true;
    f.set_from_arithmetic(0x55);
    assert!(f.carry);
    assert!(f.auxiliary_carry);
}

#[test]
fn flag_byte_round_trip_is_identity() {
    // every combination of the five flags survives packing and unpacking
    for bitsel in 0..32u8 {
        let mut f = Flags::new();
        f.carry = bitsel & 1 > 0;
        f.auxiliary_carry = bitsel & 2 > 0;
        f.sign_positive = bitsel & 4 > 0;
        f.zero = bitsel & 8 > 0;
        f.parity_even = bitsel & 16 > 0;
        let byte = f.as_byte();
        // bit 1 always reads as 1; bits 3 and 5 as 0
        assert_eq!(byte & 0b0000_0010, 0b0000_0010);
        assert_eq!(byte & 0b0010_1000, 0);
        let mut g = Flags::new();
        g.set_byte(byte);
        assert_eq!(g, f);
    }
}

#[test]
fn flag_byte_bit_positions() {
    // bit 7 holds sign_positive as kept (the inverse of the 8080's S bit)
    let mut f = Flags::new();
    f.carry = true;
    f.parity_even = true;
    f.auxiliary_carry = true;
    f.zero = true;
    f.sign_positive = true;
    assert_eq!(f.as_byte(), 0b1101_0111);
    let empty = Flags::new();
    assert_eq!(empty.as_byte(), 0b0000_0010);
}

#[test]
fn evaluate_follows_the_condition_encoding() {
    let mut f = Flags::new();
    f.zero = true;
    f.carry = false;
    f.parity_even = true;
    f.sign_positive = true;
    assert!(f.evaluate(Condition::Unconditional));
    assert!(f.evaluate(Condition::Zero));
    assert!(!f.evaluate(Condition::NonZero));
    assert!(f.evaluate(Condition::NoCarry));
    assert!(!f.evaluate(Condition::Carry));
    assert!(f.evaluate(Condition::ParityEven));
    assert!(!f.evaluate(Condition::ParityOdd));
    assert!(f.evaluate(Condition::Plus));
    assert!(!f.evaluate(Condition::Minus));
}
