//! A program of four instructions, `LDA #0xAB; AND #0xA0; ASL A; STA $0100`,
//! and what the board makes of it when it is driven on the schedule: the
//! result is in memory after the eleventh rising clock edge and stays there,
//! however long the board runs on.
//!
//! The byte that the store leaves on the data pin is no instruction, so the
//! processor resets itself and runs the program again, round after round.

use crate::board::{BoardState, Wires};
use crate::cpu_6502::cpu_state::CPUState;
use crate::cpu_6502::pin_state::PinState;
use crate::cpu_6502::state_machine::{with_high_byte, with_low_byte, word, Engine, MicroOp};
use crate::laws::{
    a_run_splits, four_steps_make_a_cycle, only_a_rising_edge_advances,
    power_on_reaches_the_vector,
};
use crate::ram_hm62256b::MEMORY_SIZE;
use crate::waveform::Waveform;
use vstd::prelude::*;

verus! {

/// `memory` is an image with the program at `0x8000` and the reset vector
/// pointing there. What else it holds is free.
pub open spec fn holds_the_program(memory: Seq<u8>) -> bool {
    &&& memory.len() == MEMORY_SIZE
    &&& memory[0x8000] == 0xA9 && memory[0x8001] == 0xAB
    &&& memory[0x8002] == 0x29 && memory[0x8003] == 0xA0
    &&& memory[0x8004] == 0x0A
    &&& memory[0x8005] == 0x8D && memory[0x8006] == 0x00 && memory[0x8007] == 0x01
    &&& memory[0xFFFC] == 0x00 && memory[0xFFFD] == 0x80
}

/// `memory` with the result of the program, `(0xAB & 0xA0) << 1`, where the
/// program stores it.
pub open spec fn with_the_result(memory: Seq<u8>) -> Seq<u8> {
    memory.update(0x0100, 0x40)
}

/// A settled board out of reset: the wires carry what the pins drive, and the
/// data bus the addressed byte.
spec fn board_at(
    memory: Seq<u8>,
    cpu_state: CPUState,
    data_pin: u8,
    address: u16,
    rwb: bool,
    queue: Seq<MicroOp>,
    clock: bool,
) -> BoardState {
    BoardState {
        cpu: Engine {
            cpu_state,
            pin_state: PinState {
                clock,
                reset_en: true,
                data_bus: data_pin,
                rwb,
                address_bus: address,
            },
            planned_executions: queue,
        },
        memory,
        wires: Wires { data_bus: memory[address as int], address_bus: address, rwb, rwb_bar: !rwb },
    }
}

spec fn registers(a: u8, pc: u16, internal: u16) -> CPUState {
    CPUState { a, x: 0, y: 0, sp: 0xFF, pc, internal }
}

/// The board after the rising edge number `edge` of a round of the program,
/// with the clock at `clock`. A round begins with the reset, edge 0, and
/// ends with the store, edge 10.
spec fn phase(memory: Seq<u8>, edge: int, clock: bool) -> BoardState {
    if edge == 0 {
        board_at(
            memory,
            registers(0, 0, 0),
            0x40,
            0xFFFC,
            true,
            seq![MicroOp::LatchVectorLow, MicroOp::LatchVectorHigh],
            clock,
        )
    } else if edge == 1 {
        board_at(
            memory,
            registers(0, 0, 0),
            0x00,
            0xFFFD,
            true,
            seq![MicroOp::LatchVectorHigh],
            clock,
        )
    } else if edge == 2 {
        board_at(memory, registers(0, 0x8000, 0), 0x80, 0x8000, true, seq![], clock)
    } else if edge == 3 {
        board_at(
            memory,
            registers(0, 0x8001, 0),
            0xA9,
            0x8001,
            true,
            seq![MicroOp::LoadAccumulator],
            clock,
        )
    } else if edge == 4 {
        board_at(memory, registers(0xAB, 0x8002, 0), 0xAB, 0x8002, true, seq![], clock)
    } else if edge == 5 {
        board_at(
            memory,
            registers(0xAB, 0x8003, 0),
            0x29,
            0x8003,
            true,
            seq![MicroOp::AndAccumulator],
            clock,
        )
    } else if edge == 6 {
        board_at(memory, registers(0xA0, 0x8004, 0), 0xA0, 0x8004, true, seq![], clock)
    } else if edge == 7 {
        board_at(memory, registers(0x40, 0x8005, 0), 0x0A, 0x8005, true, seq![], clock)
    } else if edge == 8 {
        board_at(
            memory,
            registers(0x40, 0x8006, 0),
            0x8D,
            0x8006,
            true,
            seq![MicroOp::LatchLowByte, MicroOp::LatchHighByteAndStore],
            clock,
        )
    } else if edge == 9 {
        board_at(
            memory,
            registers(0x40, 0x8007, 0),
            0x00,
            0x8007,
            true,
            seq![MicroOp::LatchHighByteAndStore],
            clock,
        )
    } else {
        board_at(memory, registers(0x40, 0x8008, 0x0100), 0x40, 0x0100, false, seq![], clock)
    }
}

/// The board is somewhere in a round of the program, with `memory` as its
/// memory.
spec fn in_a_round(board: BoardState, memory: Seq<u8>) -> bool {
    exists|edge: int, clock: bool| 0 <= edge <= 10 && board == #[trigger] phase(memory, edge, clock)
}

/// The schedule is out of reset and two steps past a rising edge.
spec fn on_the_beat(waveform: Waveform) -> bool {
    waveform.sim_step % 4 == 2 && !waveform.clock && waveform.cycle >= 2
}

proof fn the_schedule_splits(waveform: Waveform, first: nat, then: nat)
    ensures
        waveform.after(first + then) == waveform.after(first).after(then),
    decreases first,
{
    if first > 0 {
        the_schedule_splits(waveform.next(), (first - 1) as nat, then);
    }
}

proof fn a_phase_is_settled(memory: Seq<u8>, edge: int, clock: bool)
    requires
        holds_the_program(memory),
        0 <= edge <= 10,
        edge == 10 ==> memory[0x0100] == 0x40,
    ensures
        phase(memory, edge, clock).settled(),
        phase(memory, edge, clock).cpu.pin_state.clock == clock,
        phase(memory, edge, clock).memory == memory,
{
}

/// Between rising edges the board keeps its phase.
proof fn a_phase_is_held(memory: Seq<u8>, edge: int, clock: bool, next: bool, reset_en: bool)
    requires
        holds_the_program(memory),
        0 <= edge <= 10,
        edge == 10 ==> memory[0x0100] == 0x40,
        clock || !next,
    ensures
        phase(memory, edge, clock).step(next, reset_en) == phase(memory, edge, next),
{
    a_phase_is_settled(memory, edge, clock);
    only_a_rising_edge_advances(phase(memory, edge, clock), next, reset_en);
    assert(phase(memory, edge, clock).step(next, reset_en) =~= phase(memory, edge, next));
}

/// A rising edge out of reset takes the board to the next phase of the
/// round; the last edge of the round stores the result.
proof fn a_rising_edge_moves_on(memory: Seq<u8>, edge: int)
    requires
        holds_the_program(memory),
        0 <= edge <= 10,
    ensures
        phase(memory, edge, false).step(true, true) == phase(
            if edge == 9 {
                with_the_result(memory)
            } else {
                memory
            },
            if edge == 10 {
                0
            } else {
                edge + 1
            },
            true,
        ),
{
    let before = phase(memory, edge, false);
    let after = before.step(true, true);
    assert(with_low_byte(0, 0x00) == 0) by (bit_vector);
    assert(with_high_byte(0, 0x80) == 0x8000) by (bit_vector);
    assert(with_high_byte(0, 0x01) == 0x0100) by (bit_vector);
    assert(0xABu8 & 0xA0u8 == 0xA0u8) by (bit_vector);
    assert(0xA0u8 << 1 == 0x40u8) by (bit_vector);
    if edge == 0 {
        assert(after =~= phase(memory, 1, true));
    } else if edge == 1 {
        assert(after =~= phase(memory, 2, true));
    } else if edge == 2 {
        assert(after =~= phase(memory, 3, true));
    } else if edge == 3 {
        assert(after =~= phase(memory, 4, true));
    } else if edge == 4 {
        assert(after =~= phase(memory, 5, true));
    } else if edge == 5 {
        assert(after =~= phase(memory, 6, true));
    } else if edge == 6 {
        assert(after =~= phase(memory, 7, true));
    } else if edge == 7 {
        assert(after =~= phase(memory, 8, true));
    } else if edge == 8 {
        assert(after =~= phase(memory, 9, true));
    } else if edge == 9 {
        assert(after =~= phase(with_the_result(memory), 10, true));
    } else {
        assert(after =~= phase(memory, 0, true));
    }
}

/// Out of reset, a step keeps a board that holds the result in its round.
proof fn the_round_goes_on(board: BoardState, memory: Seq<u8>, clock: bool)
    requires
        holds_the_program(memory),
        memory[0x0100] == 0x40,
        in_a_round(board, memory),
    ensures
        in_a_round(board.step(clock, true), memory),
{
    let (edge, level) = choose|edge: int, level: bool|
        0 <= edge <= 10 && board == #[trigger] phase(memory, edge, level);
    if !level && clock {
        a_rising_edge_moves_on(memory, edge);
        assert(with_the_result(memory) =~= memory);
        let next = if edge == 10 {
            0
        } else {
            edge + 1
        };
        assert(board.step(clock, true) == phase(memory, next, true));
    } else {
        a_phase_is_held(memory, edge, level, clock, true);
        assert(board.step(clock, true) == phase(memory, edge, clock));
    }
}

proof fn the_round_runs_on(
    board: BoardState,
    memory: Seq<u8>,
    waveform: Waveform,
    sim_steps: nat,
)
    requires
        holds_the_program(memory),
        memory[0x0100] == 0x40,
        in_a_round(board, memory),
        waveform.cycle >= 2,
    ensures
        in_a_round(board.run(waveform, sim_steps), memory),
    decreases sim_steps,
{
    if sim_steps > 0 {
        let next = waveform.next();
        the_round_goes_on(board, memory, next.clock);
        the_round_runs_on(board.step(next.clock, true), memory, next, (sim_steps - 1) as nat);
    }
}

/// On the schedule, `cycles` clock cycles take the board as many phases on,
/// as long as the round does not reach its store.
proof fn the_schedule_clocks_the_round(memory: Seq<u8>, edge: int, waveform: Waveform, cycles: nat)
    requires
        holds_the_program(memory),
        0 <= edge,
        edge + cycles <= 9,
        on_the_beat(waveform),
    ensures
        phase(memory, edge, false).run(waveform, 4 * cycles) == phase(
            memory,
            edge + cycles,
            false,
        ),
        on_the_beat(waveform.after(4 * cycles)),
    decreases cycles,
{
    if cycles > 0 {
        let board = phase(memory, edge, false);
        let rest = (4 * (cycles - 1)) as nat;
        a_phase_is_settled(memory, edge, false);
        four_steps_make_a_cycle(board, waveform);
        a_rising_edge_moves_on(memory, edge);
        a_phase_is_held(memory, edge + 1, true, false, true);
        assert(board.run(waveform, 4) == phase(memory, edge + 1, false));
        a_run_splits(board, waveform, 4, rest);
        the_schedule_splits(waveform, 4, rest);
        the_schedule_clocks_the_round(memory, edge + 1, waveform.after(4), (cycles - 1) as nat);
        assert(4 + rest == 4 * cycles);
    }
}

/// The program stores its result for good. A board that is built around an
/// image with the program, and driven on the schedule from its start, holds
/// `0x40` at `0x0100` once the step with the eleventh rising clock edge is
/// done, which is step 44, and after every later step; the rest of the
/// image is never touched.
pub proof fn the_program_stores_its_result(memory: Seq<u8>, sim_steps: nat)
    requires
        holds_the_program(memory),
        sim_steps >= 44,
    ensures
        BoardState::power_on(memory).run(Waveform::start(), sim_steps).memory == with_the_result(
            memory,
        ),
        BoardState::power_on(memory).run(Waveform::start(), sim_steps).memory[0x0100] == 0x40,
{
    let built = BoardState::power_on(memory);
    let w0 = Waveform::start();
    let stored = with_the_result(memory);

    // the reset sequence
    power_on_reaches_the_vector(memory);
    let w14 = w0.after(14);
    assert(word(0x00, 0x80) == 0x8000) by (bit_vector);
    assert(built.run(w0, 14) =~= phase(memory, 2, false));

    // seven cycles, up to the last one before the store
    the_schedule_clocks_the_round(memory, 2, w14, 7);
    let w42 = w14.after(28);

    // the rising edge of the store comes two steps later
    let w43 = w42.next();
    let w44 = w43.next();
    a_phase_is_held(memory, 9, false, false, true);
    a_rising_edge_moves_on(memory, 9);
    assert(phase(memory, 9, false).run(w42, 2) == phase(stored, 10, true)) by {
        reveal_with_fuel(BoardState::run, 3);
    }
    assert(w42.after(2) == w44) by {
        reveal_with_fuel(Waveform::after, 3);
    }
    a_run_splits(phase(memory, 2, false), w14, 28, 2);
    the_schedule_splits(w14, 28, 2);
    a_run_splits(built, w0, 14, 30);
    the_schedule_splits(w0, 14, 30);
    assert(built.run(w0, 44) == phase(stored, 10, true));
    assert(w0.after(44) == w44);

    // from there the board goes round and round
    let rest = (sim_steps - 44) as nat;
    a_run_splits(built, w0, 44, rest);
    assert(in_a_round(phase(stored, 10, true), stored));
    the_round_runs_on(phase(stored, 10, true), stored, w44, rest);
    let last = built.run(w0, sim_steps);
    let (edge, level) = choose|edge: int, level: bool|
        0 <= edge <= 10 && last == #[trigger] phase(stored, edge, level);
    a_phase_is_settled(stored, edge, level);
}

} // verus!
