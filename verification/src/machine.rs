//! The machine: CPU state plus the arcade peripherals, with a specification-
//! level step function that pins down what executing one instruction does.

use vstd::prelude::*;

use crate::button::Buttons;
use crate::cycles::spec_num_cycles;
use crate::decode::{spec_decode, spec_instr_len};
use crate::flags::{
    spec_evaluate, spec_flag_byte, spec_flags_of_byte, spec_set_from_arithmetic, Flags,
};
use crate::model::{
    Condition, DirectAddressOperation, Instruction, LargeRegPair, Register,
    RotateAccumulatorOperation, SmallRegisterPair, StackOpRegPair, ToAccumulatorOperation,
};
use crate::registers::{spec_get_pair, spec_hi, spec_hl, spec_lo, spec_set_pair, spec_u16_of,
    Registers};
use crate::regs_and_mem::{
    spec_mem_set_u16, spec_mem_u16, spec_pop, spec_push, spec_reg_read, spec_reg_write,
    spec_small_pair, spec_wrap16, RegistersAndMemory, MEMORY_SIZE,
};
use crate::shift_register::{spec_shift_read, ShiftRegister};
use crate::sound::{spec_sounds_3, spec_sounds_5, Handler as SoundHandler, Sound};

verus! {

/// What `execute_one` reports: either the machine goes on, or it hit a HALT,
/// in which case the interrupt-enable state decides whether the run is over.
#[derive(Debug, Clone, Copy, PartialEq, Eq, Structural)]
pub enum ExecuteResult {
    Normal,
    Halt { interrupts_enabled: bool },
}

/// Everything `execute_one` produced besides the state change: the halt
/// status, the sound events the instruction triggered (in order), and the
/// machine cycles it took, for pacing.
pub struct StepOutcome {
    pub result: ExecuteResult,
    pub sounds: Vec<Sound>,
    pub cycles: u8,
}

/// The mathematical image of the whole machine.
#[verifier::ext_equal]
pub struct MachineView {
    pub regs: Registers,
    pub flags: Flags,
    pub mem: Seq<u8>,
    pub interrupts_enabled: bool,
    pub shift: ShiftRegister,
    pub buttons: Buttons,
    pub sound: SoundHandler,
}

/// What one specification-level step yields.
#[verifier::ext_equal]
pub struct SpecStep {
    pub post: MachineView,
    pub sounds: Seq<Sound>,
    pub result: ExecuteResult,
    pub condition_was_true: bool,
}

/// The ALU result: the 8-bit value and the five flags after the operation.
pub struct AluOut {
    pub value: u8,
    pub flags: Flags,
}

/// 8-bit addition of two operands and a carry-in, wrapped to 8 bits.
pub open spec fn spec_add_wrap(a: u8, b: u8, c: u8) -> u8 {
    ((a + b + c) % 0x100) as u8
}

/// 8-bit subtraction of an operand and a borrow-in, wrapped to 8 bits.
pub open spec fn spec_sub_wrap(a: u8, b: u8, c: u8) -> u8 {
    ((a + 0x100 - b - c) % 0x100) as u8
}

/// What each ALU operation does to an 8-bit operand pair and the flags.
/// Addition carries out of bit 7 and half-carries out of bit 3; subtraction
/// sets carry on borrow, and its auxiliary carry is the borrow of the
/// high-nibble subtraction. Compare behaves as Subtract, except that the
/// operand is not stored back. The bitwise operations clear both carries.
/// Zero, sign and parity always follow the 8-bit result.
#[verifier::opaque]
pub open spec fn spec_alu(op: ToAccumulatorOperation, a: u8, value: u8, f: Flags) -> AluOut {
    match op {
        ToAccumulatorOperation::Add => {
            let nv = spec_add_wrap(a, value, 0);
            AluOut {
                value: nv,
                flags: spec_set_from_arithmetic(
                    Flags {
                        carry: a + value > 0xFF,
                        auxiliary_carry: (a & 0xF) + (value & 0xF) > 0xF,
                        ..f
                    },
                    nv,
                ),
            }
        },
        ToAccumulatorOperation::AddWithCarry => {
            let c: u8 = if f.carry { 1 } else { 0 };
            let nv = spec_add_wrap(a, value, c);
            AluOut {
                value: nv,
                flags: spec_set_from_arithmetic(
                    Flags {
                        carry: a + value + c > 0xFF,
                        auxiliary_carry: (a & 0xF) + (value & 0xF) + c > 0xF,
                        ..f
                    },
                    nv,
                ),
            }
        },
        ToAccumulatorOperation::Subtract => {
            let nv = spec_sub_wrap(a, value, 0);
            AluOut {
                value: nv,
                flags: spec_set_from_arithmetic(
                    Flags {
                        carry: (a as int) < value,
                        auxiliary_carry: ((a >> 4) as int) < (value >> 4),
                        ..f
                    },
                    nv,
                ),
            }
        },
        ToAccumulatorOperation::SubtractWithBorrow => {
            let c: u8 = if f.carry { 1 } else { 0 };
            let nv = spec_sub_wrap(a, value, c);
            AluOut {
                value: nv,
                flags: spec_set_from_arithmetic(
                    Flags {
                        carry: (a as int) < value + c,
                        auxiliary_carry: ((a >> 4) as int) < (value >> 4) + c,
                        ..f
                    },
                    nv,
                ),
            }
        },
        ToAccumulatorOperation::And => {
            let nv = a & value;
            AluOut {
                value: nv,
                flags: spec_set_from_arithmetic(
                    Flags { carry: false, auxiliary_carry: false, ..f },
                    nv,
                ),
            }
        },
        ToAccumulatorOperation::Or => {
            let nv = a | value;
            AluOut {
                value: nv,
                flags: spec_set_from_arithmetic(
                    Flags { carry: false, auxiliary_carry: false, ..f },
                    nv,
                ),
            }
        },
        ToAccumulatorOperation::Xor => {
            let nv = a ^ value;
            AluOut {
                value: nv,
                flags: spec_set_from_arithmetic(
                    Flags { carry: false, auxiliary_carry: false, ..f },
                    nv,
                ),
            }
        },
        ToAccumulatorOperation::Compare => {
            let nv = spec_sub_wrap(a, value, 0);
            AluOut {
                value: a,  // the operand is left in place
                flags: spec_set_from_arithmetic(
                    Flags {
                        carry: (a as int) < value,
                        auxiliary_carry: ((a >> 4) as int) < (value >> 4),
                        ..f
                    },
                    nv,
                ),
            }
        },
    }
}

/// An ALU operation applied against a register (or memory at HL): the result
/// is stored back except for Compare, and the flags are always updated.
pub open spec fn spec_do_operation(
    v: MachineView,
    op: ToAccumulatorOperation,
    reg: Register,
    value: u8,
) -> MachineView {
    let a = spec_reg_read(v.regs, v.mem, reg);
    let out = spec_alu(op, a, value, v.flags);
    if op is Compare {
        MachineView { flags: out.flags, ..v }
    } else {
        let (regs, mem) = spec_reg_write(v.regs, v.mem, reg, out.value);
        MachineView { regs, mem, flags: out.flags, ..v }
    }
}

/// Decimal adjust: each nibble of the accumulator that exceeds 9 (or whose
/// carry flag is already set) is bumped by 6, propagating between nibbles;
/// zero, sign and parity follow the adjusted result.
#[verifier::opaque]
pub open spec fn spec_daa(v: MachineView) -> MachineView {
    let a = v.regs.a;
    let low0 = a & 0xF;
    let high0 = a >> 4;
    let adjust_low = low0 > 9 || v.flags.auxiliary_carry;
    let low = if adjust_low { (low0 + 6) as u8 } else { low0 };
    let aux = if adjust_low { low > 0xF } else { v.flags.auxiliary_carry };
    let high1 = if adjust_low { (high0 + (low >> 4)) as u8 } else { high0 };
    let adjust_high = high1 > 9 || v.flags.carry;
    let high = if adjust_high { (high1 + 6) as u8 } else { high1 };
    let carry = if adjust_high { high > 0xF } else { v.flags.carry };
    let nv = ((high % 16) * 16 + (low & 0xF)) as u8;
    MachineView {
        regs: Registers { a: nv, ..v.regs },
        flags: spec_set_from_arithmetic(Flags { carry, auxiliary_carry: aux, ..v.flags }, nv),
        ..v
    }
}

/// The value a stack-op pair names: BC, DE and HL as low/high pairs, and for
/// FlagsA the accumulator as the low byte under the packed flag byte.
pub open spec fn spec_stack_op_get(v: MachineView, pair: StackOpRegPair) -> u16 {
    match pair {
        StackOpRegPair::Bc => spec_u16_of(v.regs.c, v.regs.b),
        StackOpRegPair::De => spec_u16_of(v.regs.e, v.regs.d),
        StackOpRegPair::Hl => spec_u16_of(v.regs.l, v.regs.h),
        StackOpRegPair::FlagsA => spec_u16_of(v.regs.a, spec_flag_byte(v.flags)),
    }
}

/// The machine after a stack-op pair has been set; FlagsA unpacks the high
/// byte into the flags.
pub open spec fn spec_stack_op_set(v: MachineView, pair: StackOpRegPair, value: u16) -> MachineView {
    let lo = spec_lo(value);
    let hi = spec_hi(value);
    match pair {
        StackOpRegPair::Bc => MachineView { regs: Registers { c: lo, b: hi, ..v.regs }, ..v },
        StackOpRegPair::De => MachineView { regs: Registers { e: lo, d: hi, ..v.regs }, ..v },
        StackOpRegPair::Hl => MachineView { regs: Registers { l: lo, h: hi, ..v.regs }, ..v },
        StackOpRegPair::FlagsA => MachineView {
            regs: Registers { a: lo, ..v.regs },
            flags: spec_flags_of_byte(hi),
            ..v
        },
    }
}

/// What a read of each input port returns; `None` marks an unattached port,
/// which leaves the accumulator alone.
pub open spec fn spec_read_port(v: MachineView, port: u8) -> Option<u8> {
    if port == 0 {
        Some(0b0000_1110)
    } else if port == 1 {
        Some(v.buttons.port_1)
    } else if port == 2 {
        Some(0)
    } else if port == 3 {
        Some(spec_shift_read(v.shift))
    } else {
        None
    }
}

/// What a write to each output port does, and the sound events it triggers.
/// Unattached ports (and the debug port 6) change nothing.
pub open spec fn spec_write_port(v: MachineView, port: u8, value: u8) -> (MachineView, Seq<Sound>) {
    if port == 2 {
        (
            MachineView { shift: ShiftRegister { offset: value & 0b111, ..v.shift }, ..v },
            Seq::empty(),
        )
    } else if port == 3 {
        (
            MachineView {
                sound: SoundHandler { last_port_3: value, ..v.sound },
                ..v
            },
            spec_sounds_3(v.sound.last_port_3, value),
        )
    } else if port == 4 {
        (
            MachineView {
                shift: ShiftRegister { low: v.shift.high, high: value, ..v.shift },
                ..v
            },
            Seq::empty(),
        )
    } else if port == 5 {
        (
            MachineView {
                sound: SoundHandler { last_port_5: value, ..v.sound },
                ..v
            },
            spec_sounds_5(v.sound.last_port_5, value),
        )
    } else {
        (v, Seq::empty())
    }
}

/// Interrupt dispatch: interrupts are disabled, the program counter is
/// pushed, and control transfers to eight times the interrupt number.
pub open spec fn spec_interrupt(v: MachineView, n: u8) -> MachineView {
    let (regs1, mem1) = spec_push(v.regs, v.mem, v.regs.program_counter);
    MachineView {
        regs: Registers { program_counter: (n * 8) as u16, ..regs1 },
        mem: mem1,
        interrupts_enabled: false,
        ..v
    }
}

/// Instruction fetch: the instruction at the program counter is decoded and
/// the program counter advances past it, wrapping at the top of memory.
pub open spec fn spec_fetch(v: MachineView) -> (Instruction, MachineView) {
    let pc = v.regs.program_counter;
    let op = v.mem[pc as int];
    let b1 = v.mem[spec_wrap16(pc + 1) as int];
    let b2 = v.mem[spec_wrap16(pc + 2) as int];
    (
        spec_decode(op, b1, b2),
        MachineView {
            regs: Registers {
                program_counter: spec_wrap16(pc + spec_instr_len(op)),
                ..v.regs
            },
            ..v
        },
    )
}

/// A step with nothing but a state change.
pub open spec fn step_to(v: MachineView) -> SpecStep {
    SpecStep {
        post: v,
        sounds: Seq::empty(),
        result: ExecuteResult::Normal,
        condition_was_true: false,
    }
}

/// Per-instruction semantics, one function per variant; `spec_step`
/// dispatches on the decoded instruction. Each takes a machine whose program
/// counter already points past the instruction.
pub open spec fn spec_step_complement_carry(v: MachineView) -> MachineView {
    MachineView { flags: Flags { carry: !v.flags.carry, ..v.flags }, ..v }
}

pub open spec fn spec_step_set_carry(v: MachineView) -> MachineView {
    MachineView { flags: Flags { carry: true, ..v.flags }, ..v }
}

pub open spec fn spec_step_complement_accumulator(v: MachineView) -> MachineView {
    MachineView { regs: Registers { a: !v.regs.a, ..v.regs }, ..v }
}

pub open spec fn spec_step_move(v: MachineView, destination: Register, source: Register) -> MachineView {
    let (regs, mem) = spec_reg_write(v.regs, v.mem, destination, spec_reg_read(v.regs, v.mem, source));
    MachineView { regs, mem, ..v }
}

pub open spec fn spec_step_store_accumulator(v: MachineView, pair: SmallRegisterPair) -> MachineView {
    MachineView { mem: v.mem.update(spec_small_pair(v.regs, pair) as int, v.regs.a), ..v }
}

pub open spec fn spec_step_load_accumulator(v: MachineView, pair: SmallRegisterPair) -> MachineView {
    MachineView {
        regs: Registers { a: v.mem[spec_small_pair(v.regs, pair) as int], ..v.regs },
        ..v
    }
}

/// One-bit accumulator rotation; only the carry flag is affected. The plain
/// rotations wrap the outgoing bit around; the through-carry forms shift the
/// old carry in and the outgoing bit into carry.
pub open spec fn spec_step_rotate(v: MachineView, op: RotateAccumulatorOperation) -> MachineView {
    let a = v.regs.a;
    let na: u8 = match op {
        RotateAccumulatorOperation::Left => a << 1 | a >> 7,
        RotateAccumulatorOperation::Right => a >> 1 | a << 7,
        RotateAccumulatorOperation::LeftThroughCarry => a << 1 | (if v.flags.carry { 1u8 } else { 0u8 }),
        RotateAccumulatorOperation::RightThroughCarry => a >> 1 | (if v.flags.carry { 0x80u8 } else { 0u8 }),
    };
    let carry = match op {
        RotateAccumulatorOperation::Left => a & 0x80 > 0,
        RotateAccumulatorOperation::Right => a & 0x01 > 0,
        RotateAccumulatorOperation::LeftThroughCarry => a & 0x80 > 0,
        RotateAccumulatorOperation::RightThroughCarry => a & 0x01 > 0,
    };
    MachineView {
        regs: Registers { a: na, ..v.regs },
        flags: Flags { carry, ..v.flags },
        ..v
    }
}

pub open spec fn spec_step_push(v: MachineView, pair: StackOpRegPair) -> MachineView {
    let (regs, mem) = spec_push(v.regs, v.mem, spec_stack_op_get(v, pair));
    MachineView { regs, mem, ..v }
}

pub open spec fn spec_step_pop(v: MachineView, pair: StackOpRegPair) -> MachineView {
    let (regs, value) = spec_pop(v.regs, v.mem);
    spec_stack_op_set(MachineView { regs, ..v }, pair, value)
}

/// HL gains the pair's value; carry is set on 16-bit overflow and no other
/// flag moves.
pub open spec fn spec_step_add_to_hl(v: MachineView, pair: LargeRegPair) -> MachineView {
    let sum = spec_hl(v.regs) + spec_get_pair(v.regs, pair);
    MachineView {
        regs: Registers {
            l: spec_lo(spec_wrap16(sum)),
            h: spec_hi(spec_wrap16(sum)),
            ..v.regs
        },
        flags: Flags { carry: sum > 0xFFFF, ..v.flags },
        ..v
    }
}

pub open spec fn spec_step_increment_pair(v: MachineView, pair: LargeRegPair) -> MachineView {
    MachineView {
        regs: spec_set_pair(v.regs, pair, spec_wrap16(spec_get_pair(v.regs, pair) + 1)),
        ..v
    }
}

pub open spec fn spec_step_decrement_pair(v: MachineView, pair: LargeRegPair) -> MachineView {
    MachineView {
        regs: spec_set_pair(v.regs, pair, spec_wrap16(spec_get_pair(v.regs, pair) - 1)),
        ..v
    }
}

/// HL and DE swap values.
pub open spec fn spec_step_exchange_registers(v: MachineView) -> MachineView {
    let hl = spec_hl(v.regs);
    let de = spec_get_pair(v.regs, LargeRegPair::De);
    MachineView {
        regs: spec_set_pair(spec_set_pair(v.regs, LargeRegPair::Hl, de), LargeRegPair::De, hl),
        ..v
    }
}

/// HL and the word at the stack pointer swap values.
pub open spec fn spec_step_exchange_stack(v: MachineView) -> MachineView {
    let hl = spec_hl(v.regs);
    let at_stack = spec_mem_u16(v.mem, v.regs.stack_pointer);
    MachineView {
        regs: Registers { l: spec_lo(at_stack), h: spec_hi(at_stack), ..v.regs },
        mem: spec_mem_set_u16(v.mem, v.regs.stack_pointer, hl),
        ..v
    }
}

pub open spec fn spec_step_load_sp_from_hl(v: MachineView) -> MachineView {
    MachineView { regs: Registers { stack_pointer: spec_hl(v.regs), ..v.regs }, ..v }
}

pub open spec fn spec_step_load_large_immediate(
    v: MachineView,
    pair: LargeRegPair,
    value: u16,
) -> MachineView {
    MachineView { regs: spec_set_pair(v.regs, pair, value), ..v }
}

pub open spec fn spec_step_load_immediate(v: MachineView, reg: Register, value: u8) -> MachineView {
    let (regs, mem) = spec_reg_write(v.regs, v.mem, reg, value);
    MachineView { regs, mem, ..v }
}

/// The four direct-address forms: a byte to or from the accumulator, or a
/// word to or from HL, all at an absolute address.
pub open spec fn spec_step_direct_address(
    v: MachineView,
    op: DirectAddressOperation,
    addr: u16,
) -> MachineView {
    match op {
        DirectAddressOperation::LoadAccumulator => MachineView {
            regs: Registers { a: v.mem[addr as int], ..v.regs },
            ..v
        },
        DirectAddressOperation::StoreAccumulator => MachineView {
            mem: v.mem.update(addr as int, v.regs.a),
            ..v
        },
        DirectAddressOperation::LoadHl => MachineView {
            regs: Registers {
                l: spec_lo(spec_mem_u16(v.mem, addr)),
                h: spec_hi(spec_mem_u16(v.mem, addr)),
                ..v.regs
            },
            ..v
        },
        DirectAddressOperation::StoreHl => MachineView {
            mem: spec_mem_set_u16(v.mem, addr, spec_hl(v.regs)),
            ..v
        },
    }
}

pub open spec fn spec_step_load_program_counter(v: MachineView) -> MachineView {
    MachineView { regs: Registers { program_counter: spec_hl(v.regs), ..v.regs }, ..v }
}

/// A step that took or skipped a branch.
pub open spec fn step_branch(post: MachineView, taken: bool) -> SpecStep {
    SpecStep {
        post,
        sounds: Seq::empty(),
        result: ExecuteResult::Normal,
        condition_was_true: taken,
    }
}

/// Jump: if the condition holds, the program counter becomes `addr`.
pub open spec fn spec_step_jump(v: MachineView, condition: Condition, addr: u16) -> SpecStep {
    let taken = spec_evaluate(v.flags, condition);
    step_branch(
        if taken {
            MachineView { regs: Registers { program_counter: addr, ..v.regs }, ..v }
        } else {
            v
        },
        taken,
    )
}

/// Call: if the condition holds, the return address is pushed and control
/// transfers to `addr`.
pub open spec fn spec_step_call(v: MachineView, condition: Condition, addr: u16) -> SpecStep {
    let taken = spec_evaluate(v.flags, condition);
    step_branch(
        if taken {
            let (regs, mem) = spec_push(v.regs, v.mem, v.regs.program_counter);
            MachineView { regs: Registers { program_counter: addr, ..regs }, mem, ..v }
        } else {
            v
        },
        taken,
    )
}

/// Return: if the condition holds, the program counter is popped.
pub open spec fn spec_step_return(v: MachineView, condition: Condition) -> SpecStep {
    let taken = spec_evaluate(v.flags, condition);
    step_branch(
        if taken {
            let (regs, value) = spec_pop(v.regs, v.mem);
            MachineView { regs: Registers { program_counter: value, ..regs }, ..v }
        } else {
            v
        },
        taken,
    )
}

/// A taken CALL followed later by a taken RETURN restores the flow: the
/// CALL pushes the address of the instruction after it and jumps; if, when
/// the RETURN is fetched, the stack pointer stands where the CALL left it
/// and the two pushed bytes are untouched, the RETURN brings the program
/// counter back to the instruction after the CALL and the stack pointer
/// back to its value before the CALL. `v` and `w` are the machine just
/// after fetching the CALL and just after fetching the RETURN.
pub proof fn lemma_call_return_round_trip(
    v: MachineView,
    condition_call: Condition,
    addr: u16,
    w: MachineView,
    condition_return: Condition,
)
    requires
        v.mem.len() == MEMORY_SIZE,
        w.mem.len() == MEMORY_SIZE,
        spec_evaluate(v.flags, condition_call),
        spec_evaluate(w.flags, condition_return),
        w.regs.stack_pointer == spec_step_call(v, condition_call, addr).post.regs.stack_pointer,
        w.mem[w.regs.stack_pointer as int] == spec_step_call(
            v,
            condition_call,
            addr,
        ).post.mem[w.regs.stack_pointer as int],
        w.mem[spec_wrap16(w.regs.stack_pointer + 1) as int] == spec_step_call(
            v,
            condition_call,
            addr,
        ).post.mem[spec_wrap16(w.regs.stack_pointer + 1) as int],
    ensures
        spec_step_return(w, condition_return).post.regs.program_counter
            == v.regs.program_counter,
        spec_step_return(w, condition_return).post.regs.stack_pointer
            == v.regs.stack_pointer,
{
    let sp0 = v.regs.stack_pointer;
    let pc0 = v.regs.program_counter;
    let sp1 = spec_wrap16(sp0 - 2);
    assert(spec_wrap16(sp1 + 1) != sp1 as int);
    assert(spec_wrap16(sp1 + 2) == sp0);
    assert(spec_u16_of(spec_lo(pc0), spec_hi(pc0)) == pc0);
}

/// In: an attached port loads the accumulator; an unattached one leaves it.
pub open spec fn spec_step_in(v: MachineView, port: u8) -> MachineView {
    match spec_read_port(v, port) {
        Some(value) => MachineView { regs: Registers { a: value, ..v.regs }, ..v },
        None => v,
    }
}

/// Out: the accumulator goes to the port, possibly triggering sounds.
pub open spec fn spec_step_out(v: MachineView, port: u8) -> SpecStep {
    let (post, sounds) = spec_write_port(v, port, v.regs.a);
    SpecStep { post, sounds, result: ExecuteResult::Normal, condition_was_true: false }
}

/// The semantics of one instruction against a machine whose program counter
/// already points past it.
pub open spec fn spec_step(v: MachineView, i: Instruction) -> SpecStep {
    match i {
        Instruction::ComplementCarry => step_to(spec_step_complement_carry(v)),
        Instruction::SetCarry => step_to(spec_step_set_carry(v)),
        Instruction::Increment(reg) => step_to(
            spec_do_operation(v, ToAccumulatorOperation::Add, reg, 1),
        ),
        Instruction::Decrement(reg) => step_to(
            spec_do_operation(v, ToAccumulatorOperation::Subtract, reg, 1),
        ),
        Instruction::ComplementAccumulator => step_to(spec_step_complement_accumulator(v)),
        Instruction::DecimalAdjustAccumulator => step_to(spec_daa(v)),
        Instruction::Nop => step_to(v),
        Instruction::Move { destination, source } => step_to(spec_step_move(v, destination, source)),
        Instruction::StoreAccumulator(pair) => step_to(spec_step_store_accumulator(v, pair)),
        Instruction::LoadAccumulator(pair) => step_to(spec_step_load_accumulator(v, pair)),
        Instruction::ToAccumulator(operation, register) => step_to(
            spec_do_operation(v, operation, Register::A, spec_reg_read(v.regs, v.mem, register)),
        ),
        Instruction::RotateAccumulator(op) => step_to(spec_step_rotate(v, op)),
        Instruction::Push(pair) => step_to(spec_step_push(v, pair)),
        Instruction::Pop(pair) => step_to(spec_step_pop(v, pair)),
        Instruction::AddToHl(pair) => step_to(spec_step_add_to_hl(v, pair)),
        Instruction::IncrementPair(pair) => step_to(spec_step_increment_pair(v, pair)),
        Instruction::DecrementPair(pair) => step_to(spec_step_decrement_pair(v, pair)),
        Instruction::ExchangeRegisters => step_to(spec_step_exchange_registers(v)),
        Instruction::ExchangeStack => step_to(spec_step_exchange_stack(v)),
        Instruction::LoadSpFromHl => step_to(spec_step_load_sp_from_hl(v)),
        Instruction::LoadLargeImmediate(pair, value) => step_to(
            spec_step_load_large_immediate(v, pair, value),
        ),
        Instruction::LoadImmediate(reg, value) => step_to(spec_step_load_immediate(v, reg, value)),
        Instruction::ToAccumulatorImmediate(operation, value) => step_to(
            spec_do_operation(v, operation, Register::A, value),
        ),
        Instruction::DirectAddress(op, addr) => step_to(spec_step_direct_address(v, op, addr)),
        Instruction::LoadProgramCounter => step_to(spec_step_load_program_counter(v)),
        Instruction::Jump(condition, addr) => spec_step_jump(v, condition, addr),
        Instruction::Call(condition, addr) => spec_step_call(v, condition, addr),
        Instruction::ReturnFromSubroutine(condition) => spec_step_return(v, condition),
        Instruction::Restart(routine_number) => step_to(spec_interrupt(v, routine_number)),
        Instruction::EnableInterrupts => step_to(MachineView { interrupts_enabled: true, ..v }),
        Instruction::DisableInterrupts => step_to(MachineView { interrupts_enabled: false, ..v }),
        Instruction::In(port) => step_to(spec_step_in(v, port)),
        Instruction::Out(port) => spec_step_out(v, port),
        Instruction::Halt => SpecStep {
            post: v,
            sounds: Seq::empty(),
            result: ExecuteResult::Halt { interrupts_enabled: v.interrupts_enabled },
            condition_was_true: false,
        },
        // invalid opcodes act as NOP
        Instruction::Invalid(..) => step_to(v),
    }
}

/// One whole instruction: fetch at the program counter, then step.
pub open spec fn spec_execute_one(v: MachineView) -> SpecStep {
    let (i, v1) = spec_fetch(v);
    spec_step(v1, i)
}

/// One slot of the interrupt cadence the run loop follows: twice per frame,
/// the mid-frame and end-of-frame interrupts alternate, and the end-of-frame
/// slot hands the video memory to the host first.
#[derive(Debug, Clone, Copy, PartialEq, Eq, Structural)]
pub struct InterruptSlot {
    /// 1 for the mid-frame interrupt, 2 for the end-of-frame one.
    pub interrupt_number: u8,
    /// Whether this slot copies the video memory out before dispatching.
    pub copy_video: bool,
    /// The mid-frame flag for the following slot.
    pub next_middle_scan: bool,
}

/// The interrupt cadence decision: from the mid-frame flag, which interrupt
/// to dispatch, whether to copy the video memory first (only the
/// end-of-frame slot does), and the flag for the following slot.
pub fn interrupt_cadence(middle_scan: bool) -> (r: InterruptSlot)
    ensures
        r == (InterruptSlot {
            interrupt_number: if middle_scan { 1u8 } else { 2u8 },
            copy_video: !middle_scan,
            next_middle_scan: !middle_scan,
        }),
{
    InterruptSlot {
        interrupt_number: if middle_scan { 1 } else { 2 },
        copy_video: !middle_scan,
        next_middle_scan: !middle_scan,
    }
}

/// The machine in its start state: memory zero except for the program image
/// copied in at `start`, the program counter at `start`, interrupts enabled,
/// everything else zero.
pub open spec fn spec_initial(program: Seq<u8>, start: u16) -> MachineView {
    MachineView {
        regs: Registers {
            b: 0,
            c: 0,
            d: 0,
            e: 0,
            h: 0,
            l: 0,
            a: 0,
            stack_pointer: 0,
            program_counter: start,
        },
        flags: Flags {
            carry: false,
            auxiliary_carry: false,
            sign_positive: false,
            zero: false,
            parity_even: false,
        },
        mem: Seq::new(
            MEMORY_SIZE as nat,
            |i: int|
                if start <= i < start + program.len() {
                    program[i - start]
                } else {
                    0
                },
        ),
        interrupts_enabled: true,
        shift: ShiftRegister { low: 0, high: 0, offset: 0 },
        buttons: Buttons { port_1: 0 },
        sound: SoundHandler { last_port_3: 0, last_port_5: 0 },
    }
}

pub struct Emulator {
    pub flags: Flags,
    pub interrupts_enabled: bool,
    pub regs_and_mem: RegistersAndMemory,
    pub shift_register: ShiftRegister,
    pub buttons: Buttons,
    pub sound_handler: SoundHandler,
}

impl View for Emulator {
    type V = MachineView;

    open spec fn view(&self) -> MachineView {
        MachineView {
            regs: self.regs_and_mem.registers,
            flags: self.flags,
            mem: self.regs_and_mem.memory@,
            interrupts_enabled: self.interrupts_enabled,
            shift: self.shift_register,
            buttons: self.buttons,
            sound: self.sound_handler,
        }
    }
}

impl Emulator {
    /// The full memory image is present and the shift-register offset is in
    /// range.
    pub open spec fn wf(&self) -> bool {
        self.regs_and_mem.wf() && self.shift_register.wf()
    }

    /// Build the machine with `program` loaded (and the program counter set)
    /// at `start`; the rest of memory is zero and interrupts are enabled.
    pub fn new(program: &[u8], start: u16) -> (r: Self)
        requires
            program@.len() < MEMORY_SIZE - start,
        ensures
            r.wf(),
            r@ == spec_initial(program@, start),
    {
        let mut memory: Vec<u8> = vec![0u8; MEMORY_SIZE];
        let mut i: usize = 0;
        while i < program.len()
            invariant
                program@.len() < MEMORY_SIZE - start,
                i <= program@.len(),
                memory@.len() == MEMORY_SIZE,
                forall|j: int| start <= j < start + i ==> memory@[j] == program@[j - start],
                forall|j: int|
                    0 <= j < MEMORY_SIZE && !(start <= j < start + i) ==> memory@[j] == 0,
            decreases program@.len() - i,
        {
            memory[start as usize + i] = program[i];
            i = i + 1;
        }
        let r = Emulator {
            flags: Flags::new(),
            interrupts_enabled: true,
            regs_and_mem: RegistersAndMemory {
                registers: Registers::new_at(start),
                memory,
            },
            shift_register: ShiftRegister::new(),
            buttons: Buttons::new(),
            sound_handler: SoundHandler::new(),
        };
        proof {
            assert(r@.mem =~= spec_initial(program@, start).mem);
            assert(r@ =~= spec_initial(program@, start));
        }
        r
    }

    /// Read an input port; `None` for an unattached port.
    pub fn read_port(&self, port: u8) -> (r: Option<u8>)
        requires
            self.wf(),
        ensures
            r == spec_read_port(self@, port),
    {
        if port == 0 {
            Some(0b0000_1110)
        } else if port == 1 {
            Some(self.buttons.port_1())
        } else if port == 2 {
            Some(0)
        } else if port == 3 {
            Some(self.shift_register.read())
        } else {
            None
        }
    }

    /// Write an output port, returning the sound events the write triggered.
    pub fn write_port(&mut self, port: u8, value: u8) -> (r: Vec<Sound>)
        requires
            old(self).wf(),
        ensures
            final(self).wf(),
            (final(self)@, r@) == spec_write_port(old(self)@, port, value),
    {
        if port == 2 {
            self.shift_register.write_offset(value);
            Vec::new()
        } else if port == 3 {
            self.sound_handler.write_3(value)
        } else if port == 4 {
            self.shift_register.write(value);
            Vec::new()
        } else if port == 5 {
            self.sound_handler.write_5(value)
        } else {
            // ports 6 (debug) and the unattached ones change nothing
            Vec::new()
        }
    }

    /// Dispatch an interrupt: disable interrupts, push the program counter,
    /// and jump to eight times the interrupt number.
    pub fn handle_interrupt(&mut self, interrupt_number: u8)
        requires
            old(self).wf(),
        ensures
            final(self).wf(),
            final(self)@ == spec_interrupt(old(self)@, interrupt_number),
    {
        self.interrupts_enabled = false;
        let pc = self.regs_and_mem.registers.program_counter;
        self.regs_and_mem.push(pc);
        let n = interrupt_number;
        assert(((n as u16) << 3) == n * 8) by (bit_vector);
        self.regs_and_mem.registers.program_counter = (n as u16) << 3;
    }

    /// Decode the instruction at the program counter and advance the program
    /// counter past it, wrapping at the top of memory.
    pub fn next_instruction(&mut self) -> (r: Instruction)
        requires
            old(self).wf(),
        ensures
            final(self).wf(),
            r == spec_fetch(old(self)@).0,
            final(self)@ == spec_fetch(old(self)@).1,
    {
        let pc = self.regs_and_mem.registers.program_counter;
        let op = self.regs_and_mem.memory[pc as usize];
        let b1 = self.regs_and_mem.memory[pc.wrapping_add(1) as usize];
        let b2 = self.regs_and_mem.memory[pc.wrapping_add(2) as usize];
        let len = Instruction::length_of_opcode(op);
        self.regs_and_mem.registers.program_counter = pc.wrapping_add(len as u16);
        Instruction::decode_bytes(op, b1, b2)
    }

    /// The video-memory window that the display hardware scans out each
    /// frame, as the end-of-frame callback hands it to the host.
    pub fn video_memory(&self) -> (r: Vec<u8>)
        requires
            self.wf(),
        ensures
            r@ == self@.mem.subrange(0x2400, 0x4000),
    {
        let mut out: Vec<u8> = Vec::new();
        let mut i: usize = 0x2400;
        while i < 0x4000
            invariant
                self.wf(),
                0x2400 <= i <= 0x4000,
                out@.len() == i - 0x2400,
                forall|k: int| 0 <= k < out@.len() ==> out@[k] == self@.mem[0x2400 + k],
            decreases 0x4000 - i,
        {
            out.push(self.regs_and_mem.memory[i]);
            i = i + 1;
        }
        proof {
            assert(out@ =~= self@.mem.subrange(0x2400, 0x4000));
        }
        out
    }

    /// The accumulator.
    pub fn a(&self) -> (r: u8)
        ensures
            r == self.regs_and_mem.registers.a,
    {
        self.regs_and_mem.registers.a
    }

    /// Read a stack-op pair: BC, DE, HL, or the accumulator packed with the
    /// flag byte.
    pub fn get_stack_op_pair(&self, pair: StackOpRegPair) -> (r: u16)
        ensures
            r == spec_stack_op_get(self@, pair),
    {
        let regs = &self.regs_and_mem.registers;
        match pair {
            StackOpRegPair::Bc => regs.c as u16 + regs.b as u16 * 0x100,
            StackOpRegPair::De => regs.e as u16 + regs.d as u16 * 0x100,
            StackOpRegPair::Hl => regs.l as u16 + regs.h as u16 * 0x100,
            StackOpRegPair::FlagsA => regs.a as u16 + self.flags.as_byte() as u16 * 0x100,
        }
    }

    /// Write a stack-op pair; for FlagsA the high byte becomes the flags.
    pub fn set_stack_op_pair(&mut self, pair: StackOpRegPair, value: u16)
        ensures
            final(self)@ == spec_stack_op_set(old(self)@, pair, value),
            final(self).regs_and_mem.memory@ == old(self).regs_and_mem.memory@,
            final(self).shift_register == old(self).shift_register,
    {
        let lo = (value % 0x100) as u8;
        let hi = (value / 0x100) as u8;
        match pair {
            StackOpRegPair::Bc => {
                self.regs_and_mem.registers.c = lo;
                self.regs_and_mem.registers.b = hi;
            },
            StackOpRegPair::De => {
                self.regs_and_mem.registers.e = lo;
                self.regs_and_mem.registers.d = hi;
            },
            StackOpRegPair::Hl => {
                self.regs_and_mem.registers.l = lo;
                self.regs_and_mem.registers.h = hi;
            },
            StackOpRegPair::FlagsA => {
                self.regs_and_mem.registers.a = lo;
                self.flags.set_byte(hi);
            },
        }
        proof {
            assert(final(self)@ =~= spec_stack_op_set(old(self)@, pair, value));
        }
    }

    /// Run one ALU operation against `reg` with the operand `value`,
    /// storing the result back (except for Compare) and updating the flags.
    pub fn do_operation(&mut self, operation: ToAccumulatorOperation, reg: Register, value: u8)
        requires
            old(self).wf(),
        ensures
            final(self).wf(),
            final(self)@ == spec_do_operation(old(self)@, operation, reg, value),
    {
        match operation {
            ToAccumulatorOperation::Add => self.op_add(reg, value),
            ToAccumulatorOperation::AddWithCarry => self.op_add_with_carry(reg, value),
            ToAccumulatorOperation::Subtract => self.op_subtract(reg, value),
            ToAccumulatorOperation::SubtractWithBorrow => self.op_subtract_with_borrow(reg, value),
            ToAccumulatorOperation::And => self.op_and(reg, value),
            ToAccumulatorOperation::Or => self.op_or(reg, value),
            ToAccumulatorOperation::Xor => self.op_xor(reg, value),
            ToAccumulatorOperation::Compare => self.op_compare(reg, value),
        }
    }

    fn op_add(&mut self, reg: Register, value: u8)
        requires
            old(self).wf(),
        ensures
            final(self).wf(),
            final(self)@ == spec_do_operation(old(self)@, ToAccumulatorOperation::Add, reg, value),
    {
        let a = self.regs_and_mem.get_reg(reg);
        self.flags.auxiliary_carry = (a & 0xF) as u16 + (value & 0xF) as u16 > 0xF;
        let sum: u16 = a as u16 + value as u16;
        let nv = (sum % 0x100) as u8;
        self.flags.carry = sum > 0xFF;
        self.regs_and_mem.set_reg(reg, nv);
        self.flags.set_from_arithmetic(nv);
        proof {
            reveal(spec_alu);
            assert(self@ =~= spec_do_operation(old(self)@, ToAccumulatorOperation::Add, reg, value));
        }
    }

    fn op_add_with_carry(&mut self, reg: Register, value: u8)
        requires
            old(self).wf(),
        ensures
            final(self).wf(),
            final(self)@ == spec_do_operation(
                old(self)@,
                ToAccumulatorOperation::AddWithCarry,
                reg,
                value,
            ),
    {
        let a = self.regs_and_mem.get_reg(reg);
        let c: u8 = if self.flags.carry { 1 } else { 0 };
        self.flags.auxiliary_carry = (a & 0xF) as u16 + (value & 0xF) as u16 + c as u16 > 0xF;
        let sum: u16 = a as u16 + value as u16 + c as u16;
        let nv = (sum % 0x100) as u8;
        self.flags.carry = sum > 0xFF;
        self.regs_and_mem.set_reg(reg, nv);
        self.flags.set_from_arithmetic(nv);
        proof {
            reveal(spec_alu);
            assert(self@ =~= spec_do_operation(
                old(self)@,
                ToAccumulatorOperation::AddWithCarry,
                reg,
                value,
            ));
        }
    }

    fn op_subtract(&mut self, reg: Register, value: u8)
        requires
            old(self).wf(),
        ensures
            final(self).wf(),
            final(self)@ == spec_do_operation(
                old(self)@,
                ToAccumulatorOperation::Subtract,
                reg,
                value,
            ),
    {
        let a = self.regs_and_mem.get_reg(reg);
        self.flags.auxiliary_carry = (a >> 4) < (value >> 4);
        let diff: u16 = a as u16 + 0x100 - value as u16;
        let nv = (diff % 0x100) as u8;
        self.flags.carry = (a as u16) < (value as u16);
        self.regs_and_mem.set_reg(reg, nv);
        self.flags.set_from_arithmetic(nv);
        proof {
            reveal(spec_alu);
            assert(self@ =~= spec_do_operation(
                old(self)@,
                ToAccumulatorOperation::Subtract,
                reg,
                value,
            ));
        }
    }

    fn op_subtract_with_borrow(&mut self, reg: Register, value: u8)
        requires
            old(self).wf(),
        ensures
            final(self).wf(),
            final(self)@ == spec_do_operation(
                old(self)@,
                ToAccumulatorOperation::SubtractWithBorrow,
                reg,
                value,
            ),
    {
        let a = self.regs_and_mem.get_reg(reg);
        let c: u8 = if self.flags.carry { 1 } else { 0 };
        self.flags.auxiliary_carry = ((a >> 4) as u16) < (value >> 4) as u16 + c as u16;
        let diff: u16 = a as u16 + 0x100 - value as u16 - c as u16;
        let nv = (diff % 0x100) as u8;
        self.flags.carry = (a as u16) < value as u16 + c as u16;
        self.regs_and_mem.set_reg(reg, nv);
        self.flags.set_from_arithmetic(nv);
        proof {
            reveal(spec_alu);
            assert(self@ =~= spec_do_operation(
                old(self)@,
                ToAccumulatorOperation::SubtractWithBorrow,
                reg,
                value,
            ));
        }
    }

    fn op_and(&mut self, reg: Register, value: u8)
        requires
            old(self).wf(),
        ensures
            final(self).wf(),
            final(self)@ == spec_do_operation(old(self)@, ToAccumulatorOperation::And, reg, value),
    {
        let a = self.regs_and_mem.get_reg(reg);
        let nv = a & value;
        self.flags.carry = false;
        // the reference manual leaves this out, but the CPU diagnostic
        // requires it
        self.flags.auxiliary_carry = false;
        self.regs_and_mem.set_reg(reg, nv);
        self.flags.set_from_arithmetic(nv);
        proof {
            reveal(spec_alu);
            assert(self@ =~= spec_do_operation(old(self)@, ToAccumulatorOperation::And, reg, value));
        }
    }

    fn op_or(&mut self, reg: Register, value: u8)
        requires
            old(self).wf(),
        ensures
            final(self).wf(),
            final(self)@ == spec_do_operation(old(self)@, ToAccumulatorOperation::Or, reg, value),
    {
        let a = self.regs_and_mem.get_reg(reg);
        let nv = a | value;
        self.flags.carry = false;
        self.flags.auxiliary_carry = false;
        self.regs_and_mem.set_reg(reg, nv);
        self.flags.set_from_arithmetic(nv);
        proof {
            reveal(spec_alu);
            assert(self@ =~= spec_do_operation(old(self)@, ToAccumulatorOperation::Or, reg, value));
        }
    }

    fn op_xor(&mut self, reg: Register, value: u8)
        requires
            old(self).wf(),
        ensures
            final(self).wf(),
            final(self)@ == spec_do_operation(old(self)@, ToAccumulatorOperation::Xor, reg, value),
    {
        let a = self.regs_and_mem.get_reg(reg);
        let nv = a ^ value;
        self.flags.carry = false;
        self.flags.auxiliary_carry = false;
        self.regs_and_mem.set_reg(reg, nv);
        self.flags.set_from_arithmetic(nv);
        proof {
            reveal(spec_alu);
            assert(self@ =~= spec_do_operation(old(self)@, ToAccumulatorOperation::Xor, reg, value));
        }
    }

    fn op_compare(&mut self, reg: Register, value: u8)
        requires
            old(self).wf(),
        ensures
            final(self).wf(),
            final(self)@ == spec_do_operation(
                old(self)@,
                ToAccumulatorOperation::Compare,
                reg,
                value,
            ),
    {
        let a = self.regs_and_mem.get_reg(reg);
        self.flags.auxiliary_carry = (a >> 4) < (value >> 4);
        let diff: u16 = a as u16 + 0x100 - value as u16;
        let nv = (diff % 0x100) as u8;
        self.flags.carry = (a as u16) < (value as u16);
        self.flags.set_from_arithmetic(nv);
        proof {
            reveal(spec_alu);
            assert(self@ =~= spec_do_operation(
                old(self)@,
                ToAccumulatorOperation::Compare,
                reg,
                value,
            ));
        }
    }
}


impl Emulator {
    /// Execute the instruction at the program counter: fetch it, apply its
    /// semantics, and report the halt status, the sound events and the cycle
    /// count.
    pub fn execute_one(&mut self) -> (r: StepOutcome)
        requires
            old(self).wf(),
        ensures
            final(self).wf(),
            final(self)@ == spec_execute_one(old(self)@).post,
            r.sounds@ == spec_execute_one(old(self)@).sounds,
            r.result == spec_execute_one(old(self)@).result,
            r.cycles == spec_num_cycles(
                spec_fetch(old(self)@).0,
                spec_execute_one(old(self)@).condition_was_true,
            ),
    {
        let instruction = self.next_instruction();
        let (condition_was_true, sounds, result) = self.step_instruction(instruction);
        let cycles = instruction.num_cycles(condition_was_true);
        StepOutcome { result, sounds, cycles }
    }

    /// Apply the semantics of one already-fetched instruction, returning
    /// whether a conditional branch was taken, the sound events triggered,
    /// and the halt status.
    #[verifier::rlimit(100)]
    #[verifier::spinoff_prover]
    pub fn step_instruction(&mut self, instruction: Instruction) -> (r: (
        bool,
        Vec<Sound>,
        ExecuteResult,
    ))
        requires
            old(self).wf(),
        ensures
            final(self).wf(),
            final(self)@ == spec_step(old(self)@, instruction).post,
            r.0 == spec_step(old(self)@, instruction).condition_was_true,
            r.1@ == spec_step(old(self)@, instruction).sounds,
            r.2 == spec_step(old(self)@, instruction).result,
    {
        let mut condition_was_true = false;
        let mut sounds: Vec<Sound> = Vec::new();
        let mut result = ExecuteResult::Normal;
        proof {
            assert(sounds@ =~= Seq::<Sound>::empty());
        }
        match instruction {
            Instruction::ComplementCarry => {
                self.flags.carry = !self.flags.carry;
            },
            Instruction::SetCarry => {
                self.flags.carry = true;
            },
            Instruction::Increment(register) => {
                self.do_operation(ToAccumulatorOperation::Add, register, 1);
            },
            Instruction::Decrement(register) => {
                self.do_operation(ToAccumulatorOperation::Subtract, register, 1);
            },
            Instruction::ComplementAccumulator => {
                self.regs_and_mem.registers.a = !self.regs_and_mem.registers.a;
            },
            Instruction::DecimalAdjustAccumulator => {
                self.decimal_adjust();
            },
            Instruction::Nop => {},
            Instruction::Move { destination, source } => {
                self.step_move(destination, source);
            },
            Instruction::StoreAccumulator(..) | Instruction::LoadAccumulator(..)
            | Instruction::ToAccumulator(..) | Instruction::RotateAccumulator(..)
            | Instruction::Push(..) | Instruction::Pop(..) | Instruction::AddToHl(..)
            | Instruction::IncrementPair(..) | Instruction::DecrementPair(..) => {
                let rest = self.step_instruction_mid(instruction);
                condition_was_true = rest.0;
                sounds = rest.1;
                result = rest.2;
            },
            _ => {
                let rest = self.step_instruction_rest(instruction);
                condition_was_true = rest.0;
                sounds = rest.1;
                result = rest.2;
            },
        }
        (condition_was_true, sounds, result)
    }

    /// The middle of the dispatch: the accumulator transfer, ALU, rotate,
    /// stack and pair instructions.
    #[verifier::rlimit(100)]
    pub fn step_instruction_mid(&mut self, instruction: Instruction) -> (r: (
        bool,
        Vec<Sound>,
        ExecuteResult,
    ))
        requires
            old(self).wf(),
            instruction is StoreAccumulator || instruction is LoadAccumulator
                || instruction is ToAccumulator || instruction is RotateAccumulator
                || instruction is Push || instruction is Pop || instruction is AddToHl
                || instruction is IncrementPair || instruction is DecrementPair,
        ensures
            final(self).wf(),
            final(self)@ == spec_step(old(self)@, instruction).post,
            r.0 == spec_step(old(self)@, instruction).condition_was_true,
            r.1@ == spec_step(old(self)@, instruction).sounds,
            r.2 == spec_step(old(self)@, instruction).result,
    {
        let mut condition_was_true = false;
        let mut sounds: Vec<Sound> = Vec::new();
        let mut result = ExecuteResult::Normal;
        proof {
            assert(sounds@ =~= Seq::<Sound>::empty());
        }
        match instruction {
            Instruction::StoreAccumulator(addr_pair) => {
                self.step_store_accumulator(addr_pair);
            },
            Instruction::LoadAccumulator(addr_pair) => {
                self.step_load_accumulator(addr_pair);
            },
            Instruction::ToAccumulator(operation, register) => {
                let value = self.regs_and_mem.get_reg(register);
                self.do_operation(operation, Register::A, value);
            },
            Instruction::RotateAccumulator(op) => {
                self.rotate_accumulator(op);
            },
            Instruction::Push(pair) => {
                self.step_push(pair);
            },
            Instruction::Pop(pair) => {
                self.step_pop(pair);
            },
            Instruction::AddToHl(pair) => {
                self.step_add_to_hl(pair);
            },
            Instruction::IncrementPair(pair) => {
                self.step_increment_pair(pair);
            },
            Instruction::DecrementPair(pair) => {
                self.step_decrement_pair(pair);
            },
            _ => {
                // ruled out by the precondition
            },
        }
        (condition_was_true, sounds, result)
    }

    /// The second half of the dispatch: the exchange, load, branch, I/O and
    /// halt instructions.
    #[verifier::rlimit(100)]
    pub fn step_instruction_rest(&mut self, instruction: Instruction) -> (r: (
        bool,
        Vec<Sound>,
        ExecuteResult,
    ))
        requires
            old(self).wf(),
            instruction is ExchangeRegisters || instruction is ExchangeStack
                || instruction is LoadSpFromHl || instruction is LoadLargeImmediate
                || instruction is LoadImmediate || instruction is ToAccumulatorImmediate
                || instruction is DirectAddress || instruction is LoadProgramCounter
                || instruction is Jump || instruction is Call
                || instruction is ReturnFromSubroutine || instruction is Restart
                || instruction is EnableInterrupts || instruction is DisableInterrupts
                || instruction is In || instruction is Out || instruction is Halt
                || instruction is Invalid,
        ensures
            final(self).wf(),
            final(self)@ == spec_step(old(self)@, instruction).post,
            r.0 == spec_step(old(self)@, instruction).condition_was_true,
            r.1@ == spec_step(old(self)@, instruction).sounds,
            r.2 == spec_step(old(self)@, instruction).result,
    {
        let mut condition_was_true = false;
        let mut sounds: Vec<Sound> = Vec::new();
        let mut result = ExecuteResult::Normal;
        proof {
            assert(sounds@ =~= Seq::<Sound>::empty());
        }
        match instruction {
            Instruction::ExchangeRegisters => {
                self.step_exchange_registers();
            },
            Instruction::ExchangeStack => {
                self.step_exchange_stack();
            },
            Instruction::LoadSpFromHl => {
                self.regs_and_mem.registers.stack_pointer = self.regs_and_mem.registers.hl();
            },
            Instruction::LoadLargeImmediate(pair, value) => {
                self.regs_and_mem.registers.set_pair(pair, value);
            },
            Instruction::LoadImmediate(reg, value) => {
                self.regs_and_mem.set_reg(reg, value);
            },
            Instruction::ToAccumulatorImmediate(operation, value) => {
                self.do_operation(operation, Register::A, value);
            },
            Instruction::DirectAddress(op, addr) => {
                self.step_direct_address(op, addr);
            },
            Instruction::LoadProgramCounter => {
                self.regs_and_mem.registers.program_counter = self.regs_and_mem.registers.hl();
            },
            Instruction::Jump(condition, addr) => {
                condition_was_true = self.step_jump(condition, addr);
            },
            Instruction::Call(condition, addr) => {
                condition_was_true = self.step_call(condition, addr);
            },
            Instruction::ReturnFromSubroutine(condition) => {
                condition_was_true = self.step_return(condition);
            },
            Instruction::Restart(routine_number) => {
                self.handle_interrupt(routine_number);
            },
            Instruction::EnableInterrupts => {
                self.interrupts_enabled = true;
            },
            Instruction::DisableInterrupts => {
                self.interrupts_enabled = false;
            },
            Instruction::In(port) => {
                self.step_in(port);
            },
            Instruction::Out(port) => {
                let a = self.regs_and_mem.registers.a;
                sounds = self.write_port(port, a);
            },
            Instruction::Halt => {
                result = ExecuteResult::Halt { interrupts_enabled: self.interrupts_enabled };
            },
            Instruction::Invalid(..) => {
                // an invalid opcode acts as NOP
            },
            _ => {
                // ruled out by the precondition
            },
        }
        (condition_was_true, sounds, result)
    }

    fn step_move(&mut self, destination: Register, source: Register)
        requires
            old(self).wf(),
        ensures
            final(self).wf(),
            final(self)@ == spec_step_move(old(self)@, destination, source),
    {
        let value = self.regs_and_mem.get_reg(source);
        self.regs_and_mem.set_reg(destination, value);
        proof {
            assert(self@ =~= spec_step_move(old(self)@, destination, source));
        }
    }

    fn step_store_accumulator(&mut self, pair: SmallRegisterPair)
        requires
            old(self).wf(),
        ensures
            final(self).wf(),
            final(self)@ == spec_step_store_accumulator(old(self)@, pair),
    {
        let address = self.regs_and_mem.get_small_pair(pair);
        let a = self.regs_and_mem.registers.a;
        self.regs_and_mem.memory[address as usize] = a;
        proof {
            assert(self@ =~= spec_step_store_accumulator(old(self)@, pair));
        }
    }

    fn step_load_accumulator(&mut self, pair: SmallRegisterPair)
        requires
            old(self).wf(),
        ensures
            final(self).wf(),
            final(self)@ == spec_step_load_accumulator(old(self)@, pair),
    {
        let address = self.regs_and_mem.get_small_pair(pair);
        self.regs_and_mem.registers.a = self.regs_and_mem.memory[address as usize];
        proof {
            assert(self@ =~= spec_step_load_accumulator(old(self)@, pair));
        }
    }

    fn step_push(&mut self, pair: StackOpRegPair)
        requires
            old(self).wf(),
        ensures
            final(self).wf(),
            final(self)@ == spec_step_push(old(self)@, pair),
    {
        let value = self.get_stack_op_pair(pair);
        self.regs_and_mem.push(value);
        proof {
            assert(self@ =~= spec_step_push(old(self)@, pair));
        }
    }

    fn step_pop(&mut self, pair: StackOpRegPair)
        requires
            old(self).wf(),
        ensures
            final(self).wf(),
            final(self)@ == spec_step_pop(old(self)@, pair),
    {
        let value = self.regs_and_mem.pop();
        self.set_stack_op_pair(pair, value);
        proof {
            assert(self@ =~= spec_step_pop(old(self)@, pair));
        }
    }

    fn step_add_to_hl(&mut self, pair: LargeRegPair)
        requires
            old(self).wf(),
        ensures
            final(self).wf(),
            final(self)@ == spec_step_add_to_hl(old(self)@, pair),
    {
        let value = self.regs_and_mem.registers.get_pair(pair);
        let hl = self.regs_and_mem.registers.hl();
        let sum: u32 = hl as u32 + value as u32;
        self.flags.carry = sum > 0xFFFF;
        self.regs_and_mem.registers.set_hl((sum % 0x1_0000) as u16);
        proof {
            assert(self@ =~= spec_step_add_to_hl(old(self)@, pair));
        }
    }

    fn step_increment_pair(&mut self, pair: LargeRegPair)
        requires
            old(self).wf(),
        ensures
            final(self).wf(),
            final(self)@ == spec_step_increment_pair(old(self)@, pair),
    {
        let value = self.regs_and_mem.registers.get_pair(pair);
        self.regs_and_mem.registers.set_pair(pair, value.wrapping_add(1));
        proof {
            assert(self@ =~= spec_step_increment_pair(old(self)@, pair));
        }
    }

    fn step_decrement_pair(&mut self, pair: LargeRegPair)
        requires
            old(self).wf(),
        ensures
            final(self).wf(),
            final(self)@ == spec_step_decrement_pair(old(self)@, pair),
    {
        let value = self.regs_and_mem.registers.get_pair(pair);
        self.regs_and_mem.registers.set_pair(pair, value.wrapping_sub(1));
        proof {
            assert(self@ =~= spec_step_decrement_pair(old(self)@, pair));
        }
    }

    fn step_exchange_registers(&mut self)
        requires
            old(self).wf(),
        ensures
            final(self).wf(),
            final(self)@ == spec_step_exchange_registers(old(self)@),
    {
        let hl = self.regs_and_mem.registers.hl();
        let de = self.regs_and_mem.registers.get_pair(LargeRegPair::De);
        self.regs_and_mem.registers.set_hl(de);
        self.regs_and_mem.registers.set_pair(LargeRegPair::De, hl);
        proof {
            assert(self@ =~= spec_step_exchange_registers(old(self)@));
        }
    }

    fn step_exchange_stack(&mut self)
        requires
            old(self).wf(),
        ensures
            final(self).wf(),
            final(self)@ == spec_step_exchange_stack(old(self)@),
    {
        let hl = self.regs_and_mem.registers.hl();
        let at_stack = self.regs_and_mem.get_at_stack();
        self.regs_and_mem.registers.set_hl(at_stack);
        self.regs_and_mem.set_at_stack(hl);
        proof {
            assert(self@ =~= spec_step_exchange_stack(old(self)@));
        }
    }

    fn step_direct_address(&mut self, op: DirectAddressOperation, addr: u16)
        requires
            old(self).wf(),
        ensures
            final(self).wf(),
            final(self)@ == spec_step_direct_address(old(self)@, op, addr),
    {
        match op {
            DirectAddressOperation::LoadAccumulator => {
                self.regs_and_mem.registers.a = self.regs_and_mem.memory[addr as usize];
            },
            DirectAddressOperation::StoreAccumulator => {
                let a = self.regs_and_mem.registers.a;
                self.regs_and_mem.memory[addr as usize] = a;
            },
            DirectAddressOperation::LoadHl => {
                let value = self.regs_and_mem.get_u16_at(addr);
                self.regs_and_mem.registers.set_hl(value);
            },
            DirectAddressOperation::StoreHl => {
                let hl = self.regs_and_mem.registers.hl();
                self.regs_and_mem.set_u16_at(addr, hl);
            },
        }
        proof {
            assert(self@ =~= spec_step_direct_address(old(self)@, op, addr));
        }
    }

    fn step_jump(&mut self, condition: Condition, addr: u16) -> (taken: bool)
        requires
            old(self).wf(),
        ensures
            final(self).wf(),
            final(self)@ == spec_step_jump(old(self)@, condition, addr).post,
            taken == spec_step_jump(old(self)@, condition, addr).condition_was_true,
    {
        let condition_was_true = self.flags.evaluate(condition);
        if condition_was_true {
            self.regs_and_mem.registers.program_counter = addr;
        }
        proof {
            assert(self@ =~= spec_step_jump(old(self)@, condition, addr).post);
        }
        condition_was_true
    }

    fn step_call(&mut self, condition: Condition, addr: u16) -> (taken: bool)
        requires
            old(self).wf(),
        ensures
            final(self).wf(),
            final(self)@ == spec_step_call(old(self)@, condition, addr).post,
            taken == spec_step_call(old(self)@, condition, addr).condition_was_true,
    {
        let condition_was_true = self.flags.evaluate(condition);
        if condition_was_true {
            let pc = self.regs_and_mem.registers.program_counter;
            self.regs_and_mem.push(pc);
            self.regs_and_mem.registers.program_counter = addr;
        }
        proof {
            assert(self@ =~= spec_step_call(old(self)@, condition, addr).post);
        }
        condition_was_true
    }

    fn step_return(&mut self, condition: Condition) -> (taken: bool)
        requires
            old(self).wf(),
        ensures
            final(self).wf(),
            final(self)@ == spec_step_return(old(self)@, condition).post,
            taken == spec_step_return(old(self)@, condition).condition_was_true,
    {
        let condition_was_true = self.flags.evaluate(condition);
        if condition_was_true {
            let value = self.regs_and_mem.pop();
            self.regs_and_mem.registers.program_counter = value;
        }
        proof {
            assert(self@ =~= spec_step_return(old(self)@, condition).post);
        }
        condition_was_true
    }

    fn step_in(&mut self, port: u8)
        requires
            old(self).wf(),
        ensures
            final(self).wf(),
            final(self)@ == spec_step_in(old(self)@, port),
    {
        match self.read_port(port) {
            Some(value) => {
                self.regs_and_mem.registers.a = value;
            },
            None => {},
        }
        proof {
            assert(self@ =~= spec_step_in(old(self)@, port));
        }
    }

    /// Decimal adjust the accumulator: bump each nibble over 9 (or with its
    /// carry already set) by 6, propagating into the next nibble, then set
    /// zero, sign and parity from the result.
    fn decimal_adjust(&mut self)
        requires
            old(self).wf(),
        ensures
            final(self).wf(),
            final(self)@ == spec_daa(old(self)@),
    {
        let a = self.regs_and_mem.registers.a;
        let mut low: u8 = a & 0xF;
        let mut high: u8 = a >> 4;
        proof {
            assert(a & 0xF <= 0xF && a >> 4 <= 0xF) by (bit_vector);
        }
        if low > 9 || self.flags.auxiliary_carry {
            low = low + 6;
            self.flags.auxiliary_carry = low > 0xF;
            proof {
                let l = low;
                assert(l <= 0x15 ==> l >> 4 <= 1) by (bit_vector);
            }
            // the low nibble flows over into the high one
            high = high + (low >> 4);
        }
        if high > 9 || self.flags.carry {
            high = high + 6;
            self.flags.carry = high > 0xF;
        }
        proof {
            let l = low;
            assert(l & 0xF <= 0xF) by (bit_vector);
        }
        let nv: u8 = (high % 16) * 16 + (low & 0xF);
        self.regs_and_mem.registers.a = nv;
        self.flags.set_from_arithmetic(nv);
        proof {
            reveal(spec_daa);
            assert(self@ =~= spec_daa(old(self)@));
        }
    }

    /// Rotate the accumulator one bit; only the carry flag is affected.
    fn rotate_accumulator(&mut self, op: RotateAccumulatorOperation)
        requires
            old(self).wf(),
        ensures
            final(self).wf(),
            final(self)@ == spec_step_rotate(old(self)@, op),
    {
        let a = self.regs_and_mem.registers.a;
        match op {
            RotateAccumulatorOperation::Left => {
                self.flags.carry = a & 0x80 > 0;
                self.regs_and_mem.registers.a = a << 1 | a >> 7;
            },
            RotateAccumulatorOperation::Right => {
                self.flags.carry = a & 0x01 > 0;
                self.regs_and_mem.registers.a = a >> 1 | a << 7;
            },
            RotateAccumulatorOperation::LeftThroughCarry => {
                let carry = self.flags.carry;
                self.flags.carry = a & 0x80 > 0;
                self.regs_and_mem.registers.a = a << 1 | (if carry { 1u8 } else { 0u8 });
            },
            RotateAccumulatorOperation::RightThroughCarry => {
                let carry = self.flags.carry;
                self.flags.carry = a & 0x01 > 0;
                self.regs_and_mem.registers.a = a >> 1 | (if carry { 0x80u8 } else { 0u8 });
            },
        }
        proof {
            assert(self@ =~= spec_step_rotate(old(self)@, op));
        }
    }
}

} // verus!
