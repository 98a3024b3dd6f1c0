//! What holds of the reference board, proved of its model.

use crate::board::BoardState;
use crate::cpu_6502::cpu_state::CPUState;
use crate::cpu_6502::pin_state::PinState;
use crate::cpu_6502::state_machine::{next_pc, with_high_byte, with_low_byte, word, Engine};
use crate::ram_hm62256b::MEMORY_SIZE;
use crate::waveform::Waveform;
use vstd::prelude::*;

verus! {

/// Every step settles the board, from any state. While the processor
/// reads, the RAM drives the addressed byte onto the data bus and stores
/// nothing. While the processor writes, the byte that it drives is on the
/// data bus and in the RAM at the address on the address bus, and the RAM
/// is otherwise as it was.
pub proof fn every_step_settles(board: BoardState, clock: bool, reset_en: bool)
    requires
        board.memory.len() == MEMORY_SIZE,
    ensures
        ({
            let after = board.step(clock, reset_en);
            &&& after.settled()
            &&& after.wires.rwb ==> {
                &&& after.memory == board.memory
                &&& after.wires.data_bus == after.memory[after.wires.address_bus as int]
            }
            &&& !after.wires.rwb ==> {
                &&& after.wires.data_bus == after.cpu.pin_state.data_bus
                &&& after.memory == board.memory.update(
                    after.wires.address_bus as int,
                    after.cpu.pin_state.data_bus,
                )
                &&& after.memory[after.wires.address_bus as int] == after.cpu.pin_state.data_bus
            }
        }),
{
}

/// Only a rising clock edge advances the board. On a settled board a step
/// that does not raise the clock changes nothing but the clock pin of the
/// processor, whatever is on the reset wire.
pub proof fn only_a_rising_edge_advances(board: BoardState, clock: bool, reset_en: bool)
    requires
        board.settled(),
        !board.cpu.rises(clock),
    ensures
        board.step(clock, reset_en) == (BoardState { cpu: board.cpu.clock_edge(clock), ..board }),
{
    let after = board.step(clock, reset_en);
    assert(after.memory =~= board.memory);
    assert(after =~= BoardState { cpu: board.cpu.clock_edge(clock), ..board });
}

/// A clock cycle is its rising step: the step with the clock low that ends
/// it leaves the wires, the memory and the registers as the rising step
/// left them.
pub proof fn a_cycle_is_its_rising_step(board: BoardState, reset_en: bool)
    requires
        board.memory.len() == MEMORY_SIZE,
    ensures
        ({
            let risen = board.step(true, reset_en);
            board.cycle(reset_en) == (BoardState { cpu: risen.cpu.clock_edge(false), ..risen })
        }),
{
    every_step_settles(board, true, reset_en);
    only_a_rising_edge_advances(board.step(true, reset_en), false, reset_en);
}

/// Running for `first + then` steps is running for `first` steps and then,
/// from where the schedule stands, for `then` more.
pub proof fn a_run_splits(board: BoardState, waveform: Waveform, first: nat, then: nat)
    ensures
        board.run(waveform, first + then) == board.run(waveform, first).run(
            waveform.after(first),
            then,
        ),
    decreases first,
{
    if first > 0 {
        let next = waveform.next();
        a_run_splits(
            board.step(next.clock, next.reset_en()),
            next,
            (first - 1) as nat,
            then,
        );
    }
}

/// Reset is asserted in the first clock cycle and never again: once the
/// schedule is past that cycle, reset stays released however long it runs.
pub proof fn reset_stays_released(waveform: Waveform, sim_steps: nat)
    requires
        waveform.cycle >= 2,
    ensures
        waveform.after(sim_steps).cycle >= 2,
        waveform.after(sim_steps).reset_en(),
    decreases sim_steps,
{
    if sim_steps > 0 {
        reset_stays_released(waveform.next(), (sim_steps - 1) as nat);
    }
}

/// The schedule drives one clock cycle in four steps. From a settled board
/// with the clock low, and the schedule two steps past a rising edge, the
/// next four steps are one cycle of the board, with reset at the level that
/// the schedule gives it in that cycle.
pub proof fn four_steps_make_a_cycle(board: BoardState, waveform: Waveform)
    requires
        board.settled(),
        !board.cpu.pin_state.clock,
        !waveform.clock,
        waveform.sim_step % 4 == 2,
    ensures
        ({
            let then = waveform.after(4);
            &&& board.run(waveform, 4) == board.cycle(then.reset_en())
            &&& then.sim_step % 4 == 2
            &&& !then.clock
            &&& then.cycle == if waveform.cycle < u32::MAX {
                waveform.cycle + 1
            } else {
                waveform.cycle as int
            }
        }),
{
    reveal_with_fuel(Waveform::after, 5);
    let w1 = waveform.next();
    let w2 = w1.next();
    let w3 = w2.next();
    let w4 = w3.next();
    assert(waveform.after(4) == w4);
    assert(w1.clock == waveform.clock && w1.cycle == waveform.cycle);
    assert(w2.clock && w3 == Waveform { sim_step: w3.sim_step, ..w2 });
    assert(!w4.clock && w4.cycle == w2.cycle);
    let reset_en = w4.reset_en();

    let b1 = board.step(w1.clock, w1.reset_en());
    let b2 = b1.step(true, reset_en);
    let b3 = b2.step(true, reset_en);
    let b4 = b3.step(false, reset_en);
    assert(board.run(waveform, 4) == b4) by {
        reveal_with_fuel(BoardState::run, 5);
    }
    only_a_rising_edge_advances(board, false, w1.reset_en());
    assert(b1 =~= board);
    every_step_settles(board, true, reset_en);
    only_a_rising_edge_advances(b2, true, reset_en);
    assert(b3 =~= b2);
}

/// A reading processor takes what the RAM drives. On a settled board whose
/// processor reads, the data bus carries the addressed byte; at a rising
/// clock edge the engine runs its cycle on that byte, and unless the cycle
/// turns the processor to writing, that byte is on its data pin afterwards.
pub proof fn reading_latches_what_memory_drove(board: BoardState, reset_en: bool)
    requires
        board.settled(),
        board.cpu.pin_state.rwb,
        !board.cpu.pin_state.clock,
    ensures
        ({
            let driven = board.memory[board.wires.address_bus as int];
            let after = board.step(true, reset_en);
            &&& board.wires.data_bus == driven
            &&& after.cpu == board.cpu.clock_edge(true).cycle(reset_en, driven)
            &&& after.cpu.pin_state.rwb ==> after.cpu.pin_state.data_bus == driven
        }),
{
}

/// After a decode the address bus points at the byte that the engine wants
/// on the data bus at the next rising edge: the byte behind the opcode, or,
/// for a byte that is no opcode, the low byte of the reset vector.
pub proof fn a_decode_addresses_the_next_byte(engine: Engine)
    ensures
        ({
            let opcode = engine.pin_state.data_bus;
            let after = engine.decode();
            if Engine::knows(opcode) {
                &&& after.cpu_state.pc == next_pc(engine.cpu_state.pc)
                &&& after.pin_state.address_bus == after.cpu_state.pc
            } else {
                &&& after == engine.reset()
                &&& after.pin_state.address_bus == 0xFFFC
            }
        }),
{
}

/// Two latches, low byte then high byte, leave nothing of the old word: the
/// result is the little-endian word of the two bytes, `lo + 256 * hi`.
pub proof fn latched_bytes_make_the_word(old_word: u16, lo: u8, hi: u8)
    ensures
        with_high_byte(with_low_byte(old_word, lo), hi) == word(lo, hi),
        word(lo, hi) == lo + 256 * hi,
{
    let low = lo as u16;
    let high = hi as u16;
    assert((((old_word & 0xFF00) | low) & 0x00FF) | (high << 8) == low | (high << 8))
        by (bit_vector)
        requires
            low < 256,
    ;
    assert(low | (high << 8) == low + 256 * high) by (bit_vector)
        requires
            low < 256,
            high < 256,
    ;
}

/// The queue never holds more than what one instruction, or the reset
/// sequence, has left to do, which is two steps at most: a tick keeps it so,
/// whatever is on the wires. A decode, which queues the steps of the next
/// instruction, only happens on an empty queue.
pub proof fn one_instruction_in_flight(engine: Engine, clock: bool, reset_en: bool, data_bus: u8)
    requires
        engine.in_flight_ok(),
    ensures
        engine.planned_executions.len() <= 2,
        engine.tick(clock, reset_en, data_bus).in_flight_ok(),
        engine.execute().in_flight_ok(),
        engine.planned_executions.len() > 0 ==> engine.next().planned_executions
            == engine.planned_executions.drop_first(),
{
    let sampled = engine.clock_edge(clock).sample(reset_en, data_bus);
    assert(sampled.planned_executions =~= engine.planned_executions);
    assert(engine.execute().in_flight_ok());
    assert(sampled.execute().in_flight_ok());
}

/// A reset cycle followed by two cycles out of reset loads the program
/// counter from the reset vector at `0xFFFC` and `0xFFFD`, low byte first,
/// leaves the other registers cleared and the memory as it was, and ends
/// with the board about to fetch at the vector. This holds from any state
/// of the board with the clock low, a write cycle too: the reset ends the
/// write before the RAM sees the vector's address.
pub proof fn reset_loads_the_vector(board: BoardState)
    requires
        board.memory.len() == MEMORY_SIZE,
        !board.cpu.pin_state.clock,
    ensures
        ({
            let lo = board.memory[0xFFFC];
            let hi = board.memory[0xFFFD];
            let after = board.cycle(false).cycle(true).cycle(true);
            &&& after.cpu.cpu_state == CPUState { pc: word(lo, hi), ..CPUState::cleared() }
            &&& after.cpu.pin_state == PinState {
                clock: false,
                reset_en: true,
                data_bus: hi,
                rwb: true,
                address_bus: word(lo, hi),
            }
            &&& after.memory == board.memory
            &&& after.fetching()
        }),
{
    let lo = board.memory[0xFFFC];
    let hi = board.memory[0xFFFD];
    latched_bytes_make_the_word(0, lo, hi);
    let first = board.cycle(false);
    let second = first.cycle(true);
    let third = second.cycle(true);
    assert(third.memory == board.memory);
}

/// A board that is built around a memory image and driven on the schedule
/// from its start is, fourteen steps later, about to fetch at the reset
/// vector of the image, with the other registers cleared and the image
/// untouched. The schedule is then in its third cycle, with the clock low.
pub proof fn power_on_reaches_the_vector(memory: Seq<u8>)
    requires
        memory.len() == MEMORY_SIZE,
    ensures
        ({
            let after = BoardState::power_on(memory).run(Waveform::start(), 14);
            &&& after.cpu.cpu_state == CPUState {
                pc: word(memory[0xFFFC], memory[0xFFFD]),
                ..CPUState::cleared()
            }
            &&& after.cpu.pin_state == PinState {
                clock: false,
                reset_en: true,
                data_bus: memory[0xFFFD],
                rwb: true,
                address_bus: word(memory[0xFFFC], memory[0xFFFD]),
            }
            &&& after.memory == memory
            &&& after.fetching()
            &&& Waveform::start().after(14) == Waveform { sim_step: 14, cycle: 3, clock: false }
        }),
{
    let built = BoardState::power_on(memory);
    let w0 = Waveform::start();

    // two steps with the clock low settle the wires
    let settled = built.step(false, true);
    let w2 = Waveform { sim_step: 2, cycle: 0, clock: false };
    assert(w0.after(2) == w2) by {
        reveal_with_fuel(Waveform::after, 3);
    }
    every_step_settles(built, false, true);
    only_a_rising_edge_advances(settled, false, true);
    assert(settled.step(false, true) =~= settled);
    assert(built.run(w0, 2) == settled) by {
        reveal_with_fuel(BoardState::run, 3);
    }
    assert(settled.memory == memory);

    // then come the reset cycle and two cycles out of reset
    let w6 = w2.after(4);
    let w10 = w6.after(4);
    let w14 = w10.after(4);
    let first = settled.cycle(false);
    let second = first.cycle(true);
    let third = second.cycle(true);
    four_steps_make_a_cycle(settled, w2);
    every_step_settles(settled.step(true, false), false, false);
    four_steps_make_a_cycle(first, w6);
    every_step_settles(first.step(true, true), false, true);
    four_steps_make_a_cycle(second, w10);
    reset_loads_the_vector(settled);

    a_run_splits(built, w0, 2, 12);
    a_run_splits(settled, w2, 4, 8);
    a_run_splits(first, w6, 4, 4);
    assert(w14 == Waveform { sim_step: 14, cycle: 3, clock: false }) by {
        reveal_with_fuel(Waveform::after, 5);
    }
    assert(w0.after(14) == w14) by {
        reveal_with_fuel(Waveform::after, 15);
    }
}

/// `LDA #value` at `pc`: two cycles later the accumulator holds `value`,
/// the program counter has advanced by two, nothing else has changed, and
/// the board is about to fetch the next instruction.
pub proof fn load_immediate(board: BoardState, value: u8)
    requires
        board.fetching(),
        board.memory[board.cpu.cpu_state.pc as int] == 0xA9,
        board.memory[next_pc(board.cpu.cpu_state.pc) as int] == value,
    ensures
        ({
            let pc = board.cpu.cpu_state.pc;
            let after = board.cycle(true).cycle(true);
            &&& after.cpu.cpu_state == CPUState {
                a: value,
                pc: next_pc(next_pc(pc)),
                ..board.cpu.cpu_state
            }
            &&& after.cpu.cpu_state.pc == (pc + 2) % 0x1_0000
            &&& after.memory == board.memory
            &&& after.fetching()
        }),
{
    let first = board.cycle(true);
    assert(first.memory == board.memory);
}

/// `AND #operand` at `pc`: two cycles later the accumulator holds its old
/// value and `operand`, bit by bit, and the program counter has advanced by
/// two. With `0xFF` the accumulator keeps its value, with `0x00` it is zero.
pub proof fn and_immediate(board: BoardState, operand: u8)
    requires
        board.fetching(),
        board.memory[board.cpu.cpu_state.pc as int] == 0x29,
        board.memory[next_pc(board.cpu.cpu_state.pc) as int] == operand,
    ensures
        ({
            let pc = board.cpu.cpu_state.pc;
            let a = board.cpu.cpu_state.a;
            let after = board.cycle(true).cycle(true);
            &&& after.cpu.cpu_state == CPUState {
                a: a & operand,
                pc: next_pc(next_pc(pc)),
                ..board.cpu.cpu_state
            }
            &&& operand == 0xFF ==> after.cpu.cpu_state.a == a
            &&& operand == 0x00 ==> after.cpu.cpu_state.a == 0
            &&& after.cpu.cpu_state.pc == (pc + 2) % 0x1_0000
            &&& after.memory == board.memory
            &&& after.fetching()
        }),
{
    let a = board.cpu.cpu_state.a;
    assert(a & 0xFF == a) by (bit_vector);
    assert(a & 0x00 == 0) by (bit_vector);
    let first = board.cycle(true);
    assert(first.memory == board.memory);
}

/// `ASL A` at `pc`: one cycle later the accumulator is shifted left by one
/// bit, the bit that leaves at the top being lost, and the program counter
/// has advanced by one.
pub proof fn shift_left(board: BoardState)
    requires
        board.fetching(),
        board.memory[board.cpu.cpu_state.pc as int] == 0x0A,
    ensures
        ({
            let pc = board.cpu.cpu_state.pc;
            let a = board.cpu.cpu_state.a;
            let after = board.cycle(true);
            &&& after.cpu.cpu_state == CPUState { a: a << 1, pc: next_pc(pc), ..board.cpu.cpu_state }
            &&& after.cpu.cpu_state.a == (2 * a) % 0x100
            &&& after.memory == board.memory
            &&& after.fetching()
        }),
{
    let a = board.cpu.cpu_state.a;
    assert(a << 1 == (2 * a) % 0x100) by (bit_vector);
}

/// `JMP` at `pc` with the target's low byte `lo` and high byte `hi` behind
/// it: three cycles later the program counter is the target, not a byte
/// further, and the board is about to fetch there.
pub proof fn jump_absolute(board: BoardState, lo: u8, hi: u8)
    requires
        board.fetching(),
        board.memory[board.cpu.cpu_state.pc as int] == 0x4C,
        board.memory[next_pc(board.cpu.cpu_state.pc) as int] == lo,
        board.memory[next_pc(next_pc(board.cpu.cpu_state.pc)) as int] == hi,
    ensures
        ({
            let after = board.cycle(true).cycle(true).cycle(true);
            &&& after.cpu.cpu_state == CPUState {
                pc: word(lo, hi),
                internal: word(lo, hi),
                ..board.cpu.cpu_state
            }
            &&& after.memory == board.memory
            &&& after.fetching()
        }),
{
    latched_bytes_make_the_word(board.cpu.cpu_state.internal, lo, hi);
    let first = board.cycle(true);
    let second = first.cycle(true);
    assert(first.memory == board.memory);
    assert(second.memory == board.memory);
}

/// `STA` at `pc` with the target's low byte `lo` and high byte `hi` behind
/// it: three cycles later the RAM holds the accumulator at the target and
/// is otherwise as it was, and the program counter has advanced by three.
/// Read/write-bar is high after the first two cycles, low after the third,
/// the write cycle, and high again after the cycle that follows, be it a
/// reset.
pub proof fn store_absolute(board: BoardState, lo: u8, hi: u8)
    requires
        board.fetching(),
        board.memory[board.cpu.cpu_state.pc as int] == 0x8D,
        board.memory[next_pc(board.cpu.cpu_state.pc) as int] == lo,
        board.memory[next_pc(next_pc(board.cpu.cpu_state.pc)) as int] == hi,
    ensures
        ({
            let pc = board.cpu.cpu_state.pc;
            let a = board.cpu.cpu_state.a;
            let first = board.cycle(true);
            let second = first.cycle(true);
            let third = second.cycle(true);
            &&& first.wires.rwb && first.memory == board.memory
            &&& second.wires.rwb && second.memory == board.memory
            &&& !third.wires.rwb
            &&& third.wires.address_bus == word(lo, hi)
            &&& third.wires.data_bus == a
            &&& third.memory == board.memory.update(word(lo, hi) as int, a)
            &&& third.memory[word(lo, hi) as int] == a
            &&& third.cpu.cpu_state == CPUState {
                pc: next_pc(next_pc(next_pc(pc))),
                internal: word(lo, hi),
                ..board.cpu.cpu_state
            }
            &&& third.cpu.cpu_state.pc == (pc + 3) % 0x1_0000
            &&& forall|reset_en: bool| (#[trigger] third.cycle(reset_en)).wires.rwb
        }),
{
    latched_bytes_make_the_word(board.cpu.cpu_state.internal, lo, hi);
    let first = board.cycle(true);
    let second = first.cycle(true);
    let third = second.cycle(true);
    assert(first.memory == board.memory);
    assert(second.memory == board.memory);
}

} // verus!
