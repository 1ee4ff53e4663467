use eighty::button::{Button, Buttons, Event};
use eighty::machine::{Emulator, ExecuteResult, StepOutcome};
use eighty::model::LargeRegPair;
use eighty::regs_and_mem::{RegistersAndMemory, MEMORY_SIZE};
use eighty::registers::Registers;
use eighty::shift_register::ShiftRegister;
use eighty::sound::{Handler, Sound};

/// Run until a HALT, collecting every sound event; panics if the program
/// runs away.
fn run(emulator: &mut Emulator) -> (ExecuteResult, Vec<Sound>) {
    let mut sounds = Vec::new();
    for _ in 0..10_000 {
        let StepOutcome { result, sounds: step_sounds, .. } = emulator.execute_one();
        sounds.extend(step_sounds);
        if let ExecuteResult::Halt { .. } = result {
            return (result, sounds);
        }
    }
    panic!("program did not halt");
}

#[test]
fn new_loads_the_program_at_start() {
    let program = [0xAAu8, 0xBB, 0xCC];
    let emulator = Emulator::new(&program, 0x100);
    assert_eq!(emulator.regs_and_mem.memory.len(), MEMORY_SIZE);
    assert_eq!(emulator.regs_and_mem.memory[0x0FF], 0);
    assert_eq!(emulator.regs_and_mem.memory[0x100], 0xAA);
    assert_eq!(emulator.regs_and_mem.memory[0x101], 0xBB);
    assert_eq!(emulator.regs_and_mem.memory[0x102], 0xCC);
    assert_eq!(emulator.regs_and_mem.memory[0x103], 0);
    assert_eq!(emulator.regs_and_mem.registers.program_counter, 0x100);
    assert!(emulator.interrupts_enabled);
}

#[test]
fn immediate_load_then_halt() {
    // MVI A,0x42; HLT
    let mut emulator = Emulator::new(&[0x3E, 0x42, 0x76], 0);
    let (result, _) = run(&mut emulator);
    assert_eq!(result, ExecuteResult::Halt { interrupts_enabled: true });
    assert_eq!(emulator.regs_and_mem.registers.a, 0x42);
}

#[test]
fn increment_wraps_and_sets_all_flags() {
    // MVI B,0xFF; INR B; HLT
    let mut emulator = Emulator::new(&[0x06, 0xFF, 0x04, 0x76], 0);
    run(&mut emulator);
    assert_eq!(emulator.regs_and_mem.registers.b, 0x00);
    assert!(emulator.flags.zero);
    assert!(emulator.flags.carry);
    assert!(emulator.flags.auxiliary_carry);
    assert!(emulator.flags.parity_even);
    assert!(emulator.flags.sign_positive);
}

#[test]
fn add_immediate_sets_half_carry() {
    // MVI A,0x0F; ADI 1; HLT
    let mut emulator = Emulator::new(&[0x3E, 0x0F, 0xC6, 0x01, 0x76], 0);
    run(&mut emulator);
    assert_eq!(emulator.regs_and_mem.registers.a, 0x10);
    assert!(emulator.flags.auxiliary_carry);
    assert!(!emulator.flags.carry);
    assert!(!emulator.flags.zero);
}

#[test]
fn call_and_return_restore_the_stack() {
    // LXI SP,0x2000; MVI A,0xAB; CALL 0x0010; HLT — with RET at the target
    let program = [0x31, 0x00, 0x20, 0x3E, 0xAB, 0xCD, 0x10, 0x00, 0x76];
    let mut emulator = Emulator::new(&program, 0);
    emulator.regs_and_mem.memory[0x0010] = 0xC9; // RET
    let (result, _) = run(&mut emulator);
    assert_eq!(result, ExecuteResult::Halt { interrupts_enabled: true });
    assert_eq!(emulator.regs_and_mem.registers.a, 0xAB);
    // the return address was consumed: SP is back at its initial value
    assert_eq!(emulator.regs_and_mem.registers.stack_pointer, 0x2000);
    // execution resumed past the CALL, at the HLT
    assert_eq!(emulator.regs_and_mem.registers.program_counter, 9);
}

#[test]
fn call_pushes_the_return_address() {
    let program = [0x31, 0x00, 0x20, 0xCD, 0x10, 0x00];
    let mut emulator = Emulator::new(&program, 0);
    emulator.regs_and_mem.memory[0x0010] = 0x76; // HLT at the call target
    run(&mut emulator);
    assert_eq!(emulator.regs_and_mem.registers.stack_pointer, 0x1FFE);
    // little-endian return address 0x0006 at the top of the stack
    assert_eq!(emulator.regs_and_mem.memory[0x1FFE], 0x06);
    assert_eq!(emulator.regs_and_mem.memory[0x1FFF], 0x00);
}

#[test]
fn shift_register_scenario() {
    // write offset 3 (port 2), shift in 0x12 and 0x34 (port 4), read (port 3)
    let mut emulator = Emulator::new(&[], 0);
    emulator.write_port(2, 3);
    emulator.write_port(4, 0x12);
    emulator.write_port(4, 0x34);
    let combined: u16 = (0x34 << 8) | 0x12;
    let expected = ((combined >> (8 - 3)) & 0xFF) as u8;
    assert_eq!(emulator.read_port(3), Some(expected));
    assert_eq!(expected, 0xA0);
}

#[test]
fn shift_register_shifts_bytes_through() {
    let mut s = ShiftRegister::new();
    s.write(0x12);
    s.write(0x34);
    assert_eq!(s.low, 0x12);
    assert_eq!(s.high, 0x34);
    s.write_offset(0xFB); // only the low 3 bits count
    assert_eq!(s.offset, 3);
    s.write_offset(0);
    assert_eq!(s.read(), 0x34);
    s.write_offset(7);
    assert_eq!(s.read(), (((0x3412u16) >> 1) & 0xFF) as u8);
}

#[test]
fn shift_register_via_instructions() {
    // MVI A,3; OUT 2; MVI A,0x12; OUT 4; MVI A,0x34; OUT 4; IN 3; HLT
    let program = [
        0x3E, 0x03, 0xD3, 0x02, 0x3E, 0x12, 0xD3, 0x04, 0x3E, 0x34, 0xD3, 0x04, 0xDB, 0x03, 0x76,
    ];
    let mut emulator = Emulator::new(&program, 0);
    run(&mut emulator);
    assert_eq!(emulator.regs_and_mem.registers.a, 0xA0);
}

#[test]
fn sound_edges_fire_one_shot_once() {
    // port 3: 0x00 -> 0x02 -> 0x02 -> 0x00 triggers exactly one Shot
    let mut handler = Handler::new();
    let mut all: Vec<Sound> = Vec::new();
    for value in [0x00u8, 0x02, 0x02, 0x00] {
        all.extend(handler.write_3(value));
    }
    let shots = all.iter().filter(|s| matches!(s, Sound::Shot)).count();
    assert_eq!(shots, 1);
    assert_eq!(all.len(), 1);
}

#[test]
fn ufo_sound_follows_rising_and_falling_edges() {
    let mut handler = Handler::new();
    assert_eq!(handler.write_3(0x01), vec![Sound::UfoStart]);
    assert_eq!(handler.write_3(0x01), vec![]);
    assert_eq!(handler.write_3(0x00), vec![Sound::UfoStop]);
    assert_eq!(handler.write_3(0x0E), vec![Sound::Shot, Sound::Flash, Sound::InvaderDie]);
}

#[test]
fn port_5_sounds_fire_on_rising_edges() {
    let mut handler = Handler::new();
    assert_eq!(
        handler.write_5(0x1F),
        vec![
            Sound::FleetMovement1,
            Sound::FleetMovement2,
            Sound::FleetMovement3,
            Sound::FleetMovement4,
            Sound::UfoHit,
        ],
    );
    assert_eq!(handler.write_5(0x1F), vec![]);
    assert_eq!(handler.write_5(0x00), vec![]);
}

#[test]
fn out_instructions_report_sounds() {
    // MVI A,0x02; OUT 3; HLT
    let mut emulator = Emulator::new(&[0x3E, 0x02, 0xD3, 0x03, 0x76], 0);
    let (_, sounds) = run(&mut emulator);
    assert_eq!(sounds, vec![Sound::Shot]);
}

#[test]
fn push_then_pop_round_trips() {
    let mut rm = RegistersAndMemory {
        registers: Registers::new_at(0),
        memory: vec![0u8; MEMORY_SIZE],
    };
    rm.registers.stack_pointer = 0x2000;
    rm.push(0xBEEF);
    assert_eq!(rm.registers.stack_pointer, 0x1FFE);
    let popped = rm.pop();
    assert_eq!(popped, 0xBEEF);
    assert_eq!(rm.registers.stack_pointer, 0x2000);
}

#[test]
fn stack_pointer_wraps() {
    let mut rm = RegistersAndMemory {
        registers: Registers::new_at(0),
        memory: vec![0u8; MEMORY_SIZE],
    };
    rm.registers.stack_pointer = 0;
    rm.push(0x1234);
    assert_eq!(rm.registers.stack_pointer, 0xFFFE);
    assert_eq!(rm.pop(), 0x1234);
    assert_eq!(rm.registers.stack_pointer, 0);
}

#[test]
fn read_ports_follow_the_map() {
    let mut emulator = Emulator::new(&[], 0);
    assert_eq!(emulator.read_port(0), Some(0x0E));
    assert_eq!(emulator.read_port(1), Some(0));
    assert_eq!(emulator.read_port(2), Some(0));
    assert_eq!(emulator.read_port(3), Some(0));
    assert_eq!(emulator.read_port(7), None);
    emulator.buttons.update(Event { button: Button::Coin, pressed: true });
    assert_eq!(emulator.read_port(1), Some(0x01));
}

#[test]
fn unattached_port_read_leaves_accumulator() {
    // MVI A,0x55; IN 9; HLT — port 9 is unattached
    let mut emulator = Emulator::new(&[0x3E, 0x55, 0xDB, 0x09, 0x76], 0);
    run(&mut emulator);
    assert_eq!(emulator.regs_and_mem.registers.a, 0x55);
}

#[test]
fn buttons_set_and_clear_their_bits() {
    let mut buttons = Buttons::new();
    buttons.update(Event { button: Button::Coin, pressed: true });
    buttons.update(Event { button: Button::Start, pressed: true });
    buttons.update(Event { button: Button::Shoot, pressed: true });
    buttons.update(Event { button: Button::Left, pressed: true });
    buttons.update(Event { button: Button::Right, pressed: true });
    assert_eq!(buttons.port_1(), 0b0111_0101);
    buttons.update(Event { button: Button::Shoot, pressed: false });
    assert_eq!(buttons.port_1(), 0b0110_0101);
}

#[test]
fn invalid_opcodes_act_as_nop() {
    // 0x08 is an invalid slot; it must fall through to the HLT
    let mut emulator = Emulator::new(&[0x08, 0x76], 0);
    let (result, _) = run(&mut emulator);
    assert_eq!(result, ExecuteResult::Halt { interrupts_enabled: true });
    assert_eq!(emulator.regs_and_mem.registers.program_counter, 2);
}

#[test]
fn halt_reports_interrupt_state() {
    // DI; HLT
    let mut emulator = Emulator::new(&[0xF3, 0x76], 0);
    let (result, _) = run(&mut emulator);
    assert_eq!(result, ExecuteResult::Halt { interrupts_enabled: false });
}

#[test]
fn interrupt_dispatch_pushes_and_jumps() {
    let mut emulator = Emulator::new(&[0x76], 0);
    emulator.regs_and_mem.registers.stack_pointer = 0x2400;
    emulator.regs_and_mem.registers.program_counter = 0x1234;
    emulator.handle_interrupt(2);
    assert!(!emulator.interrupts_enabled);
    assert_eq!(emulator.regs_and_mem.registers.program_counter, 0x0010);
    assert_eq!(emulator.regs_and_mem.registers.stack_pointer, 0x23FE);
    assert_eq!(emulator.regs_and_mem.memory[0x23FE], 0x34);
    assert_eq!(emulator.regs_and_mem.memory[0x23FF], 0x12);
}

#[test]
fn pair_registers_compose_little_endian() {
    let mut regs = Registers::new_at(0);
    regs.set_pair(LargeRegPair::Bc, 0x1234);
    assert_eq!(regs.b, 0x12);
    assert_eq!(regs.c, 0x34);
    regs.set_hl(0xBEEF);
    assert_eq!(regs.h, 0xBE);
    assert_eq!(regs.l, 0xEF);
    assert_eq!(regs.hl(), 0xBEEF);
    assert_eq!(regs.get_pair(LargeRegPair::Hl), 0xBEEF);
}

#[test]
fn rotate_instructions_move_the_carry() {
    // MVI A,0x81; RLC; HLT: carry takes bit 7, A becomes 0x03
    let mut emulator = Emulator::new(&[0x3E, 0x81, 0x07, 0x76], 0);
    run(&mut emulator);
    assert_eq!(emulator.regs_and_mem.registers.a, 0x03);
    assert!(emulator.flags.carry);
    // MVI A,0x01; RAR; HLT: carry in 0, bit 0 goes to carry
    let mut emulator = Emulator::new(&[0x3E, 0x01, 0x1F, 0x76], 0);
    run(&mut emulator);
    assert_eq!(emulator.regs_and_mem.registers.a, 0x00);
    assert!(emulator.flags.carry);
}

#[test]
fn decimal_adjust_fixes_packed_decimal() {
    // MVI A,0x09; ADI 0x08; DAA; HLT: 9 + 8 = 17 decimal
    let mut emulator = Emulator::new(&[0x3E, 0x09, 0xC6, 0x08, 0x27, 0x76], 0);
    run(&mut emulator);
    assert_eq!(emulator.regs_and_mem.registers.a, 0x17);
}

#[test]
fn subtract_borrow_and_compare_flags() {
    // MVI A,0x02; SUI 0x03; HLT: borrow sets carry, A wraps to 0xFF
    let mut emulator = Emulator::new(&[0x3E, 0x02, 0xD6, 0x03, 0x76], 0);
    run(&mut emulator);
    assert_eq!(emulator.regs_and_mem.registers.a, 0xFF);
    assert!(emulator.flags.carry);
    // MVI A,0x05; CPI 0x05; HLT: compare leaves A, sets zero
    let mut emulator = Emulator::new(&[0x3E, 0x05, 0xFE, 0x05, 0x76], 0);
    run(&mut emulator);
    assert_eq!(emulator.regs_and_mem.registers.a, 0x05);
    assert!(emulator.flags.zero);
    assert!(!emulator.flags.carry);
}

#[test]
fn conditional_jump_follows_flags() {
    // MVI A,0x01; DCR A; JNZ 0x0008; HLT (taken path would skip to 8)
    // DCR leaves A = 0, so the jump is not taken and the HLT at 6 runs
    let mut emulator = Emulator::new(&[0x3E, 0x01, 0x3D, 0xC2, 0x08, 0x00, 0x76, 0x00, 0x76], 0);
    run(&mut emulator);
    assert_eq!(emulator.regs_and_mem.registers.program_counter, 7);
}

#[test]
fn video_memory_is_the_display_window() {
    let mut emulator = Emulator::new(&[], 0);
    emulator.regs_and_mem.memory[0x2400] = 0xAB;
    emulator.regs_and_mem.memory[0x3FFF] = 0xCD;
    emulator.regs_and_mem.memory[0x23FF] = 0x11;
    emulator.regs_and_mem.memory[0x4000] = 0x22;
    let frame = emulator.video_memory();
    assert_eq!(frame.len(), 0x1C00);
    assert_eq!(frame[0], 0xAB);
    assert_eq!(frame[0x1BFF], 0xCD);
    assert!(frame[1..0x1BFF].iter().all(|&b| b == 0));
}

#[test]
fn exchange_and_stack_instructions() {
    // LXI SP,0x2000; LXI H,0x1234; LXI D,0x5678; XCHG; HLT
    let program = [0x31, 0x00, 0x20, 0x21, 0x34, 0x12, 0x11, 0x78, 0x56, 0xEB, 0x76];
    let mut emulator = Emulator::new(&program, 0);
    run(&mut emulator);
    assert_eq!(emulator.regs_and_mem.registers.hl(), 0x5678);
    assert_eq!(emulator.regs_and_mem.registers.get_pair(LargeRegPair::De), 0x1234);
}

#[test]
fn add_to_hl_sets_only_carry() {
    // LXI H,0xFFFF; LXI B,0x0002; DAD B; HLT
    let program = [0x21, 0xFF, 0xFF, 0x01, 0x02, 0x00, 0x09, 0x76];
    let mut emulator = Emulator::new(&program, 0);
    run(&mut emulator);
    assert_eq!(emulator.regs_and_mem.registers.hl(), 0x0001);
    assert!(emulator.flags.carry);
    assert!(!emulator.flags.zero);
}

#[test]
fn push_pop_flags_a_packs_the_flag_byte() {
    // LXI SP,0x2000; MVI A,0xFF; ADI 1 (zero, carry, aux set); PUSH PSW;
    // POP B; HLT — B gets the flag byte, C gets the accumulator
    let program = [0x31, 0x00, 0x20, 0x3E, 0xFF, 0xC6, 0x01, 0xF5, 0xC1, 0x76];
    let mut emulator = Emulator::new(&program, 0);
    run(&mut emulator);
    // zero, sign-positive, parity-even, aux carry, carry, constant bit 1
    assert_eq!(emulator.regs_and_mem.registers.b, 0b1101_0111);
    assert_eq!(emulator.regs_and_mem.registers.c, 0x00);
}

#[test]
fn execute_one_reports_cycle_counts() {
    // MVI A,0x42 takes 7 cycles
    let mut emulator = Emulator::new(&[0x3E, 0x42, 0x76], 0);
    assert_eq!(emulator.execute_one().cycles, 7);
    // an unconditional CALL is always taken: 17 cycles
    let mut emulator = Emulator::new(&[0xCD, 0x10, 0x00], 0);
    emulator.regs_and_mem.registers.stack_pointer = 0x2000;
    assert_eq!(emulator.execute_one().cycles, 17);
    // a conditional return not taken: 5 cycles
    let mut emulator = Emulator::new(&[0xC8], 0); // RZ with zero clear
    assert_eq!(emulator.execute_one().cycles, 5);
    // the same return taken: 11 cycles
    let mut emulator = Emulator::new(&[0xC8], 0);
    emulator.flags.zero = true;
    emulator.regs_and_mem.registers.stack_pointer = 0x2000;
    assert_eq!(emulator.execute_one().cycles, 11);
}

#[test]
fn compare_half_carry_follows_the_subtract_rule() {
    // MVI A,0x10; CPI 0x1F; HLT: the high nibbles are equal, so no
    // high-nibble borrow: auxiliary carry stays clear (carry is set, A < 0x1F)
    let mut emulator = Emulator::new(&[0x3E, 0x10, 0xFE, 0x1F, 0x76], 0);
    run(&mut emulator);
    assert_eq!(emulator.regs_and_mem.registers.a, 0x10);
    assert!(!emulator.flags.auxiliary_carry);
    assert!(emulator.flags.carry);
    // MVI A,0x21; CPI 0x3F; HLT: high nibble 2 borrows against 3
    let mut emulator = Emulator::new(&[0x3E, 0x21, 0xFE, 0x3F, 0x76], 0);
    run(&mut emulator);
    assert!(emulator.flags.auxiliary_carry);
    assert!(emulator.flags.carry);
}

#[test]
fn interrupt_cadence_alternates() {
    let slot = eighty::machine::interrupt_cadence(false);
    assert_eq!(slot.interrupt_number, 2);
    assert!(slot.copy_video);
    assert!(slot.next_middle_scan);
    let slot = eighty::machine::interrupt_cadence(slot.next_middle_scan);
    assert_eq!(slot.interrupt_number, 1);
    assert!(!slot.copy_video);
    assert!(!slot.next_middle_scan);
}
