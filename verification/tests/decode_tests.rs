use eighty::buffer::InstructionBuffer;
use eighty::model::{
    Condition, DirectAddressOperation, Instruction, LargeRegPair, Register,
    RotateAccumulatorOperation, SmallRegisterPair, StackOpRegPair, ToAccumulatorOperation,
};

#[test]
fn decodes_fixed_opcodes() {
    assert_eq!(Instruction::decode_bytes(0x3F, 0, 0), Instruction::ComplementCarry);
    assert_eq!(Instruction::decode_bytes(0x37, 0, 0), Instruction::SetCarry);
    assert_eq!(Instruction::decode_bytes(0x2F, 0, 0), Instruction::ComplementAccumulator);
    assert_eq!(Instruction::decode_bytes(0x27, 0, 0), Instruction::DecimalAdjustAccumulator);
    assert_eq!(Instruction::decode_bytes(0x00, 0, 0), Instruction::Nop);
    assert_eq!(Instruction::decode_bytes(0xEB, 0, 0), Instruction::ExchangeRegisters);
    assert_eq!(Instruction::decode_bytes(0xE3, 0, 0), Instruction::ExchangeStack);
    assert_eq!(Instruction::decode_bytes(0xF9, 0, 0), Instruction::LoadSpFromHl);
    assert_eq!(Instruction::decode_bytes(0xE9, 0, 0), Instruction::LoadProgramCounter);
    assert_eq!(Instruction::decode_bytes(0xFB, 0, 0), Instruction::EnableInterrupts);
    assert_eq!(Instruction::decode_bytes(0xF3, 0, 0), Instruction::DisableInterrupts);
    assert_eq!(Instruction::decode_bytes(0xDB, 0x22, 0), Instruction::In(0x22));
    assert_eq!(Instruction::decode_bytes(0xD3, 0x05, 0), Instruction::Out(0x05));
    assert_eq!(Instruction::decode_bytes(0x76, 0, 0), Instruction::Halt);
}

#[test]
fn decodes_register_fields() {
    assert_eq!(Instruction::decode_bytes(0x04, 0, 0), Instruction::Increment(Register::B));
    assert_eq!(Instruction::decode_bytes(0x3C, 0, 0), Instruction::Increment(Register::A));
    assert_eq!(Instruction::decode_bytes(0x35, 0, 0), Instruction::Decrement(Register::MemoryRef));
    assert_eq!(
        Instruction::decode_bytes(0x41, 0, 0),
        Instruction::Move { destination: Register::B, source: Register::C },
    );
    assert_eq!(
        Instruction::decode_bytes(0x77, 0, 0),
        Instruction::Move { destination: Register::MemoryRef, source: Register::A },
    );
    assert_eq!(
        Instruction::decode_bytes(0x80, 0, 0),
        Instruction::ToAccumulator(ToAccumulatorOperation::Add, Register::B),
    );
    assert_eq!(
        Instruction::decode_bytes(0x9E, 0, 0),
        Instruction::ToAccumulator(ToAccumulatorOperation::SubtractWithBorrow, Register::MemoryRef),
    );
    assert_eq!(
        Instruction::decode_bytes(0xBF, 0, 0),
        Instruction::ToAccumulator(ToAccumulatorOperation::Compare, Register::A),
    );
}

#[test]
fn decodes_pairs_and_immediates() {
    assert_eq!(
        Instruction::decode_bytes(0x02, 0, 0),
        Instruction::StoreAccumulator(SmallRegisterPair::Bc),
    );
    assert_eq!(
        Instruction::decode_bytes(0x1A, 0, 0),
        Instruction::LoadAccumulator(SmallRegisterPair::De),
    );
    assert_eq!(
        Instruction::decode_bytes(0x07, 0, 0),
        Instruction::RotateAccumulator(RotateAccumulatorOperation::Left),
    );
    assert_eq!(
        Instruction::decode_bytes(0x1F, 0, 0),
        Instruction::RotateAccumulator(RotateAccumulatorOperation::RightThroughCarry),
    );
    assert_eq!(Instruction::decode_bytes(0xC5, 0, 0), Instruction::Push(StackOpRegPair::Bc));
    assert_eq!(Instruction::decode_bytes(0xF1, 0, 0), Instruction::Pop(StackOpRegPair::FlagsA));
    assert_eq!(Instruction::decode_bytes(0x09, 0, 0), Instruction::AddToHl(LargeRegPair::Bc));
    assert_eq!(Instruction::decode_bytes(0x13, 0, 0), Instruction::IncrementPair(LargeRegPair::De));
    assert_eq!(Instruction::decode_bytes(0x3B, 0, 0), Instruction::DecrementPair(LargeRegPair::Sp));
    assert_eq!(
        Instruction::decode_bytes(0x31, 0x00, 0x20),
        Instruction::LoadLargeImmediate(LargeRegPair::Sp, 0x2000),
    );
    assert_eq!(
        Instruction::decode_bytes(0x3E, 0x42, 0),
        Instruction::LoadImmediate(Register::A, 0x42),
    );
    assert_eq!(
        Instruction::decode_bytes(0xC6, 0x01, 0),
        Instruction::ToAccumulatorImmediate(ToAccumulatorOperation::Add, 0x01),
    );
    assert_eq!(
        Instruction::decode_bytes(0x22, 0x34, 0x12),
        Instruction::DirectAddress(DirectAddressOperation::StoreHl, 0x1234),
    );
    assert_eq!(
        Instruction::decode_bytes(0x3A, 0xCD, 0xAB),
        Instruction::DirectAddress(DirectAddressOperation::LoadAccumulator, 0xABCD),
    );
    assert_eq!(Instruction::decode_bytes(0xC7, 0, 0), Instruction::Restart(0));
    assert_eq!(Instruction::decode_bytes(0xFF, 0, 0), Instruction::Restart(7));
}

#[test]
fn decodes_branches_and_aliases() {
    assert_eq!(
        Instruction::decode_bytes(0xC2, 0x07, 0x00),
        Instruction::Jump(Condition::NonZero, 0x0007),
    );
    // 1100?011: both slots are the unconditional jump
    assert_eq!(
        Instruction::decode_bytes(0xC3, 0x07, 0x00),
        Instruction::Jump(Condition::Unconditional, 0x0007),
    );
    assert_eq!(
        Instruction::decode_bytes(0xCB, 0x07, 0x00),
        Instruction::Jump(Condition::Unconditional, 0x0007),
    );
    assert_eq!(
        Instruction::decode_bytes(0xCC, 0x07, 0x00),
        Instruction::Call(Condition::Zero, 0x0007),
    );
    // 11??1101: the four aliased unconditional calls
    for op in [0xCDu8, 0xDD, 0xED, 0xFD] {
        assert_eq!(
            Instruction::decode_bytes(op, 0x07, 0x00),
            Instruction::Call(Condition::Unconditional, 0x0007),
        );
    }
    assert_eq!(
        Instruction::decode_bytes(0xC0, 0, 0),
        Instruction::ReturnFromSubroutine(Condition::NonZero),
    );
    // 110?1001: both aliased unconditional returns
    assert_eq!(
        Instruction::decode_bytes(0xC9, 0, 0),
        Instruction::ReturnFromSubroutine(Condition::Unconditional),
    );
    assert_eq!(
        Instruction::decode_bytes(0xD9, 0, 0),
        Instruction::ReturnFromSubroutine(Condition::Unconditional),
    );
}

#[test]
fn decodes_invalid_opcodes_as_invalid() {
    for op in [0x08u8, 0x10, 0x18, 0x20, 0x28, 0x30, 0x38] {
        assert_eq!(Instruction::decode_bytes(op, 0, 0), Instruction::Invalid(op));
    }
}

#[test]
fn decoder_is_total_over_all_bytes() {
    // every opcode decodes without panicking, to exactly one variant
    for op in 0..=255u8 {
        let first = Instruction::decode_bytes(op, 0x12, 0x34);
        let second = Instruction::decode_bytes(op, 0x12, 0x34);
        assert_eq!(first, second);
        let len = Instruction::length_of_opcode(op);
        assert!(1 <= len && len <= 3);
    }
}

#[test]
fn buffer_decodes_sequentially() {
    let program: Vec<u8> = vec![0x3E, 0x42, 0xC6, 0x01, 0x76];
    let mut buffer = InstructionBuffer::new(&program);
    assert_eq!(buffer.cursor(), 0);
    assert!(!buffer.is_empty());
    assert_eq!(buffer.decode(), Instruction::LoadImmediate(Register::A, 0x42));
    assert_eq!(buffer.cursor(), 2);
    assert_eq!(
        buffer.decode(),
        Instruction::ToAccumulatorImmediate(ToAccumulatorOperation::Add, 0x01),
    );
    assert_eq!(buffer.cursor(), 4);
    assert_eq!(buffer.decode(), Instruction::Halt);
    assert!(buffer.is_empty());
}

#[test]
fn buffer_starts_at_requested_cursor() {
    let program: Vec<u8> = vec![0x00, 0x00, 0x76];
    let mut buffer = InstructionBuffer::new_at(&program, 2);
    assert_eq!(buffer.cursor(), 2);
    assert_eq!(buffer.decode(), Instruction::Halt);
    assert!(buffer.is_empty());
}

#[test]
fn buffer_reads_little_endian() {
    let data: Vec<u8> = vec![0xAA, 0x07, 0x00];
    let mut buffer = InstructionBuffer::new(&data);
    assert_eq!(buffer.read_u8(), 0xAA);
    assert_eq!(buffer.read_u16(), 0x0007);
    assert_eq!(buffer.cursor(), 3);
}
