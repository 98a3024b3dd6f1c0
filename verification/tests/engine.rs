use bus6502::cpu_6502::cpu_state::CPUState;
use bus6502::cpu_6502::pin_state::PinState;
use bus6502::cpu_6502::state_machine::{
    exec_next, exec_reset, execute, Diagnostics, StateMachine,
};

const QUIET: Diagnostics =
    Diagnostics { reset: false, unknown_instruction: false, pc_overflow: false };

/// An engine that has gone through reset and fetched `vector`.
fn engine_at(vector: u16) -> StateMachine {
    let mut state_machine = StateMachine::new();
    state_machine.cycle(false, 0x00);
    state_machine.cycle(true, (vector & 0xFF) as u8);
    state_machine.cycle(true, (vector >> 8) as u8);
    state_machine
}

#[test]
fn new_registers_are_cleared() {
    assert_eq!(
        CPUState::new(),
        CPUState { a: 0, x: 0, y: 0, sp: 0xFF, pc: 0x0000, internal: 0x0000 }
    );
    assert_eq!(CPUState::SP_MEM_OFFSET, 0x100);
}

#[test]
fn register_reset_clears_everything() {
    let mut registers = CPUState { a: 1, x: 2, y: 3, sp: 4, pc: 5, internal: 6 };
    registers.reset().a = 9;
    assert_eq!(registers, CPUState { a: 9, x: 0, y: 0, sp: 0xFF, pc: 0, internal: 0 });
    registers.reset();
    assert_eq!(registers, CPUState::new());
}

#[test]
fn new_pins_are_idle() {
    assert_eq!(
        PinState::new(),
        PinState { clock: false, reset_en: false, data_bus: 0x00, rwb: true, address_bus: 0xFFFF }
    );
}

#[test]
fn pin_reset_puts_every_pin_back() {
    let mut pins =
        PinState { clock: true, reset_en: true, data_bus: 0x12, rwb: false, address_bus: 0x3456 };
    pins.reset().clock = true;
    assert_eq!(
        pins,
        PinState { clock: true, reset_en: false, data_bus: 0x00, rwb: true, address_bus: 0xFFFF }
    );
    pins.reset();
    assert_eq!(pins, PinState::new());
}

#[test]
fn a_new_engine_has_cleared_registers() {
    let state_machine = StateMachine::new();
    assert_eq!(state_machine.cpu_state(), CPUState::new());
    assert_eq!(state_machine.pin_state(), PinState::new());
    assert_eq!(state_machine.planned(), 0);
}

#[test]
fn engine_reset_leaves_the_pins() {
    let mut state_machine = engine_at(0x8000);
    state_machine.cycle(true, 0x4C);
    assert_eq!(state_machine.planned(), 2);
    let pins = state_machine.pin_state();
    state_machine.reset();
    assert_eq!(state_machine.cpu_state(), CPUState::new());
    assert_eq!(state_machine.planned(), 0);
    assert_eq!(state_machine.pin_state(), pins);
}

#[test]
fn reset_addresses_the_vector() {
    let mut state_machine = StateMachine::new();
    state_machine.sample(false, 0x00);
    execute(&mut state_machine);
    assert_eq!(state_machine.pin_state().address_bus, 0xFFFC);
    assert_eq!(state_machine.planned(), 2);
    assert_eq!(state_machine.cpu_state(), CPUState::new());
}

#[test]
fn exec_reset_clears_registers_and_queue() {
    let mut state_machine = engine_at(0x1234);
    state_machine.cycle(true, 0xA9);
    state_machine.cycle(true, 0x77);
    state_machine.cycle(true, 0x8D);
    assert_eq!(state_machine.planned(), 2);
    exec_reset(&mut state_machine);
    assert_eq!(state_machine.cpu_state(), CPUState::new());
    assert_eq!(state_machine.planned(), 2);
    assert_eq!(state_machine.pin_state().address_bus, 0xFFFC);
}

#[test]
fn reset_sequence_loads_pc_low_byte_first() {
    let mut state_machine = StateMachine::new();
    state_machine.cycle(false, 0xEE);
    assert_eq!(state_machine.pin_state().address_bus, 0xFFFC);
    state_machine.cycle(true, 0x34);
    assert_eq!(state_machine.cpu_state().pc, 0x0034);
    assert_eq!(state_machine.pin_state().address_bus, 0xFFFD);
    assert_eq!(state_machine.planned(), 1);
    state_machine.cycle(true, 0x12);
    assert_eq!(
        state_machine.cpu_state(),
        CPUState { a: 0, x: 0, y: 0, sp: 0xFF, pc: 0x1234, internal: 0 }
    );
    assert_eq!(state_machine.pin_state().address_bus, 0x1234);
    assert_eq!(state_machine.planned(), 0);
}

#[test]
fn reset_held_for_several_cycles_starts_over_each_time() {
    let mut state_machine = engine_at(0x8000);
    state_machine.cycle(true, 0xA9);
    state_machine.cycle(false, 0x11);
    state_machine.cycle(false, 0x22);
    assert_eq!(state_machine.planned(), 2);
    assert_eq!(state_machine.cpu_state(), CPUState::new());
    state_machine.cycle(true, 0x00);
    state_machine.cycle(true, 0x90);
    assert_eq!(state_machine.cpu_state().pc, 0x9000);
}

#[test]
fn lda_immediate_loads_the_operand() {
    let mut state_machine = engine_at(0x8000);
    state_machine.cycle(true, 0xA9);
    assert_eq!(state_machine.planned(), 1);
    assert_eq!(state_machine.pin_state().address_bus, 0x8001);
    state_machine.cycle(true, 0xAB);
    assert_eq!(state_machine.cpu_state().a, 0xAB);
    assert_eq!(state_machine.cpu_state().pc, 0x8002);
    assert_eq!(state_machine.pin_state().address_bus, 0x8002);
    assert_eq!(state_machine.planned(), 0);
}

#[test]
fn and_immediate_masks_the_accumulator() {
    let mut state_machine = engine_at(0x8000);
    state_machine.cycle(true, 0xA9);
    state_machine.cycle(true, 0xAB);
    state_machine.cycle(true, 0x29);
    state_machine.cycle(true, 0xA0);
    assert_eq!(state_machine.cpu_state().a, 0xA0);
    assert_eq!(state_machine.cpu_state().pc, 0x8004);
}

#[test]
fn and_with_ff_keeps_and_with_00_clears() {
    let mut state_machine = engine_at(0x8000);
    state_machine.cycle(true, 0xA9);
    state_machine.cycle(true, 0x5C);
    state_machine.cycle(true, 0x29);
    state_machine.cycle(true, 0xFF);
    assert_eq!(state_machine.cpu_state().a, 0x5C);
    state_machine.cycle(true, 0x29);
    state_machine.cycle(true, 0x00);
    assert_eq!(state_machine.cpu_state().a, 0x00);
}

#[test]
fn asl_shifts_in_the_decode_cycle() {
    let mut state_machine = engine_at(0x8000);
    state_machine.cycle(true, 0xA9);
    state_machine.cycle(true, 0xC1);
    state_machine.cycle(true, 0x0A);
    assert_eq!(state_machine.cpu_state().a, 0x82);
    assert_eq!(state_machine.cpu_state().pc, 0x8003);
    assert_eq!(state_machine.pin_state().address_bus, 0x8003);
    assert_eq!(state_machine.planned(), 0);
}

#[test]
fn jmp_absolute_lands_on_the_target() {
    let mut state_machine = engine_at(0x800B);
    state_machine.cycle(true, 0x4C);
    assert_eq!(state_machine.planned(), 2);
    assert_eq!(state_machine.pin_state().address_bus, 0x800C);
    state_machine.cycle(true, 0xCD);
    assert_eq!(state_machine.cpu_state().internal, 0x00CD);
    assert_eq!(state_machine.pin_state().address_bus, 0x800D);
    state_machine.cycle(true, 0xAB);
    assert_eq!(state_machine.cpu_state().pc, 0xABCD);
    assert_eq!(state_machine.cpu_state().internal, 0xABCD);
    assert_eq!(state_machine.pin_state().address_bus, 0xABCD);
    assert!(state_machine.pin_state().rwb);
    assert_eq!(state_machine.planned(), 0);
}

#[test]
fn sta_absolute_writes_for_one_cycle() {
    let mut state_machine = engine_at(0x8000);
    state_machine.cycle(true, 0xA9);
    state_machine.cycle(true, 0x40);
    state_machine.cycle(true, 0x8D);
    assert!(state_machine.pin_state().rwb);
    state_machine.cycle(true, 0x00);
    assert!(state_machine.pin_state().rwb);
    assert_eq!(state_machine.pin_state().address_bus, 0x8004);
    state_machine.cycle(true, 0x01);
    assert_eq!(
        state_machine.pin_state(),
        PinState { clock: false, reset_en: true, data_bus: 0x40, rwb: false, address_bus: 0x0100 }
    );
    assert_eq!(state_machine.cpu_state().pc, 0x8005);
    assert_eq!(state_machine.planned(), 0);
    // the next cycle reads again, whatever it decodes
    state_machine.cycle(true, 0xA9);
    assert!(state_machine.pin_state().rwb);
}

#[test]
fn the_bus_is_not_sampled_while_writing() {
    let mut state_machine = engine_at(0x8000);
    state_machine.cycle(true, 0xA9);
    state_machine.cycle(true, 0x0A);
    state_machine.cycle(true, 0x8D);
    state_machine.cycle(true, 0x00);
    state_machine.cycle(true, 0x02);
    assert!(!state_machine.pin_state().rwb);
    // the byte on the bus is ignored: the latched accumulator, 0x0A, is
    // decoded as a shift
    state_machine.cycle(true, 0xA9);
    assert_eq!(state_machine.pin_state().data_bus, 0x0A);
    assert_eq!(state_machine.cpu_state().a, 0x14);
    assert_eq!(state_machine.planned(), 0);
}

#[test]
fn an_unknown_opcode_resets() {
    let mut state_machine = engine_at(0x8000);
    state_machine.cycle(true, 0xA9);
    state_machine.cycle(true, 0x55);
    state_machine.cycle(true, 0x20);
    assert_eq!(state_machine.cpu_state(), CPUState::new());
    assert_eq!(state_machine.pin_state().address_bus, 0xFFFC);
    assert_eq!(state_machine.planned(), 2);
    assert!(state_machine.pin_state().rwb);
}

#[test]
fn pc_wraps_to_zero() {
    let mut state_machine = engine_at(0xFFFF);
    state_machine.cycle(true, 0x0A);
    assert_eq!(state_machine.cpu_state().pc, 0x0000);
    assert_eq!(state_machine.pin_state().address_bus, 0x0000);
}

#[test]
fn exec_next_runs_one_queued_step() {
    let mut state_machine = engine_at(0x8000);
    state_machine.sample(true, 0x4C);
    exec_next(&mut state_machine);
    assert_eq!(state_machine.planned(), 2);
    state_machine.sample(true, 0x10);
    exec_next(&mut state_machine);
    assert_eq!(state_machine.planned(), 1);
    state_machine.sample(true, 0x20);
    exec_next(&mut state_machine);
    assert_eq!(state_machine.planned(), 0);
    assert_eq!(state_machine.cpu_state().pc, 0x2010);
}

#[test]
fn exec_next_ignores_the_reset_pin() {
    let mut state_machine = engine_at(0x8000);
    state_machine.sample(false, 0xA9);
    exec_next(&mut state_machine);
    assert_eq!(state_machine.planned(), 1);
    assert_eq!(state_machine.cpu_state().pc, 0x8001);
}

#[test]
fn clock_edge_tells_rising_from_the_rest() {
    let mut state_machine = StateMachine::new();
    assert!(!state_machine.clock_edge(false));
    assert!(state_machine.clock_edge(true));
    assert!(state_machine.pin_state().clock);
    assert!(!state_machine.clock_edge(true));
    assert!(!state_machine.clock_edge(false));
    assert!(!state_machine.pin_state().clock);
}

#[test]
fn sample_latches_reset_always_and_data_while_reading() {
    let mut state_machine = StateMachine::new();
    state_machine.sample(true, 0x5A);
    assert_eq!(
        state_machine.pin_state(),
        PinState { clock: false, reset_en: true, data_bus: 0x5A, rwb: true, address_bus: 0xFFFF }
    );
}

#[test]
fn a_reset_by_pin_is_reported() {
    let mut state_machine = StateMachine::new();
    assert_eq!(
        state_machine.cycle(false, 0xA9),
        Diagnostics { reset: true, unknown_instruction: false, pc_overflow: false }
    );
    assert_eq!(state_machine.cycle(true, 0x00), QUIET);
    assert_eq!(state_machine.cycle(true, 0x80), QUIET);
}

#[test]
fn an_unknown_instruction_is_reported_with_its_reset() {
    let mut state_machine = engine_at(0x8000);
    state_machine.sample(true, 0x60);
    assert_eq!(
        execute(&mut state_machine),
        Diagnostics { reset: true, unknown_instruction: true, pc_overflow: false }
    );
    // at the end of memory too: the program counter is not incremented
    let mut state_machine = engine_at(0xFFFF);
    assert_eq!(
        state_machine.cycle(true, 0x00),
        Diagnostics { reset: true, unknown_instruction: true, pc_overflow: false }
    );
}

#[test]
fn known_instructions_run_quietly() {
    let mut state_machine = engine_at(0x8000);
    for byte in [0xA9, 0x01, 0x29, 0x01, 0x0A, 0x8D, 0x00, 0x02] {
        assert_eq!(state_machine.cycle(true, byte), QUIET);
    }
    // the store left 0x02 on the data pin, which is no instruction
    assert_eq!(
        state_machine.cycle(true, 0xA9),
        Diagnostics { reset: true, unknown_instruction: true, pc_overflow: false }
    );
}

#[test]
fn a_program_counter_overflow_is_reported_where_it_happens() {
    let overflow = Diagnostics { reset: false, unknown_instruction: false, pc_overflow: true };

    // in the decode cycle
    let mut state_machine = engine_at(0xFFFF);
    assert_eq!(state_machine.cycle(true, 0xA9), overflow);
    assert_eq!(state_machine.cpu_state().pc, 0x0000);
    assert_eq!(state_machine.cycle(true, 0x11), QUIET);

    // in the operand cycle
    let mut state_machine = engine_at(0xFFFE);
    assert_eq!(state_machine.cycle(true, 0x29), QUIET);
    assert_eq!(state_machine.cycle(true, 0x11), overflow);
    assert_eq!(state_machine.cpu_state().pc, 0x0000);

    // in the write cycle of a store
    let mut state_machine = engine_at(0xFFFD);
    assert_eq!(state_machine.cycle(true, 0x8D), QUIET);
    assert_eq!(state_machine.cycle(true, 0x00), QUIET);
    assert_eq!(state_machine.cycle(true, 0x03), overflow);
    assert_eq!(state_machine.cpu_state().pc, 0x0000);
    assert_eq!(state_machine.pin_state().address_bus, 0x0300);

    // a jump sets the program counter and cannot overflow it
    let mut state_machine = engine_at(0xFFFD);
    assert_eq!(state_machine.cycle(true, 0x4C), QUIET);
    assert_eq!(state_machine.cycle(true, 0xFF), QUIET);
    assert_eq!(state_machine.cycle(true, 0xFF), QUIET);
    assert_eq!(state_machine.cpu_state().pc, 0xFFFF);
}

#[test]
fn exec_next_reports_like_execute_out_of_reset() {
    let mut state_machine = engine_at(0xFFFF);
    state_machine.sample(true, 0x0A);
    assert_eq!(
        exec_next(&mut state_machine),
        Diagnostics { reset: false, unknown_instruction: false, pc_overflow: true }
    );
    state_machine.sample(true, 0xFF);
    assert_eq!(
        exec_next(&mut state_machine),
        Diagnostics { reset: true, unknown_instruction: true, pc_overflow: false }
    );
}

#[test]
fn a_reset_ends_a_write() {
    // by the reset pin
    let mut state_machine = engine_at(0x8000);
    for byte in [0xA9, 0x77, 0x8D, 0x00, 0x02] {
        state_machine.cycle(true, byte);
    }
    assert!(!state_machine.pin_state().rwb);
    state_machine.cycle(false, 0x00);
    assert_eq!(
        state_machine.pin_state(),
        PinState { clock: false, reset_en: false, data_bus: 0x77, rwb: true, address_bus: 0xFFFC }
    );

    // by the reset behaviour itself
    let mut state_machine = engine_at(0x8000);
    for byte in [0xA9, 0x77, 0x8D, 0x00, 0x02] {
        state_machine.cycle(true, byte);
    }
    assert!(!state_machine.pin_state().rwb);
    exec_reset(&mut state_machine);
    assert!(state_machine.pin_state().rwb);
    assert_eq!(state_machine.pin_state().address_bus, 0xFFFC);

    // by an unknown instruction: the stored 0x77 is decoded next
    let mut state_machine = engine_at(0x8000);
    for byte in [0xA9, 0x77, 0x8D, 0x00, 0x02] {
        state_machine.cycle(true, byte);
    }
    state_machine.cycle(true, 0x00);
    assert!(state_machine.pin_state().rwb);
    assert_eq!(state_machine.pin_state().address_bus, 0xFFFC);
}
