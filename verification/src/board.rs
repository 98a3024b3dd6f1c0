//! The reference board on plain wires: the processor, a NAND that inverts
//! read/write-bar, and the RAM with its chip-select tied low. Read/write-bar
//! is the write-enable of the RAM, its inverse the output-enable.
//!
//! A step of the board ticks the processor, the NAND and the RAM in this
//! order, each seeing what the one before drove. With the wires held as
//! plain values the whole board has a mathematical model, in which the laws
//! of the machine are stated.

use crate::cpu_6502::state_machine::{Engine, StateMachine};
use crate::nand::nand;
use crate::ram_hm62256b::{access, cycle, MEMORY_SIZE};
use crate::waveform::Waveform;
use vstd::prelude::*;

verus! {

/// The levels on the wires that the components share.
#[derive(Clone, Copy, Debug, PartialEq, Eq, Structural)]
pub struct Wires {
    pub data_bus: u8,
    pub address_bus: u16,
    /// Read/write-bar, driven by the processor.
    pub rwb: bool,
    /// The inverse of read/write-bar, driven by the NAND.
    pub rwb_bar: bool,
}

impl Wires {
    /// Every wire at the zero level, as new signals are.
    pub open spec fn low() -> Wires {
        Wires { data_bus: 0, address_bus: 0, rwb: false, rwb_bar: false }
    }
}

/// The board as a mathematical value.
#[verifier::ext_equal]
pub struct BoardState {
    pub cpu: Engine,
    pub memory: Seq<u8>,
    pub wires: Wires,
}

impl BoardState {
    /// The board as it is built around a memory image.
    pub open spec fn power_on(memory: Seq<u8>) -> BoardState {
        BoardState { cpu: Engine::power_on(), memory, wires: Wires::low() }
    }

    /// One step of the board with `clock` and `reset_en` on the two input
    /// wires of the processor.
    pub open spec fn step(self, clock: bool, reset_en: bool) -> BoardState {
        // the processor samples, runs and drives its outputs
        let cpu = self.cpu.tick(clock, reset_en, self.wires.data_bus);
        let address_bus = cpu.pin_state.address_bus;
        let rwb = cpu.pin_state.rwb;
        let data_bus = match cpu.pin_state.driven() {
            Some(byte) => byte,
            None => self.wires.data_bus,
        };
        // the NAND, with read/write-bar on both inputs
        let rwb_bar = !(rwb && rwb);
        // the RAM
        let (memory, driven) = access(self.memory, false, rwb_bar, rwb, address_bus, data_bus);
        BoardState {
            cpu,
            memory,
            wires: Wires {
                data_bus: match driven {
                    Some(byte) => byte,
                    None => data_bus,
                },
                address_bus,
                rwb,
                rwb_bar,
            },
        }
    }

    /// One clock cycle: a step with the clock high, then one with it low.
    pub open spec fn cycle(self, reset_en: bool) -> BoardState {
        self.step(true, reset_en).step(false, reset_en)
    }

    /// The board after `sim_steps` steps, driven on the schedule that
    /// follows `waveform`.
    pub open spec fn run(self, waveform: Waveform, sim_steps: nat) -> BoardState
        decreases sim_steps,
    {
        if sim_steps == 0 {
            self
        } else {
            let next = waveform.next();
            self.step(next.clock, next.reset_en()).run(next, (sim_steps - 1) as nat)
        }
    }

    /// The wires carry what the components drive: the processor its address
    /// and read/write-bar, the NAND the inverse of read/write-bar, and on the
    /// data bus the RAM the addressed byte while the processor reads, the
    /// processor the byte that the RAM has stored while it writes.
    pub open spec fn settled(self) -> bool {
        let pin_state = self.cpu.pin_state;
        &&& self.memory.len() == MEMORY_SIZE
        &&& self.wires.address_bus == pin_state.address_bus
        &&& self.wires.rwb == pin_state.rwb
        &&& self.wires.rwb_bar == !pin_state.rwb
        &&& self.wires.data_bus == self.memory[pin_state.address_bus as int]
        &&& !pin_state.rwb ==> self.wires.data_bus == pin_state.data_bus
    }

    /// The board is about to fetch an instruction: the clock is low, nothing
    /// is queued, the processor reads, addresses `pc`, and the RAM has put
    /// the byte at `pc` on the data bus.
    pub open spec fn fetching(self) -> bool {
        &&& self.memory.len() == MEMORY_SIZE
        &&& !self.cpu.pin_state.clock
        &&& self.cpu.planned_executions =~= Seq::empty()
        &&& self.cpu.pin_state.rwb
        &&& self.cpu.pin_state.address_bus == self.cpu.cpu_state.pc
        &&& self.wires.rwb
        &&& !self.wires.rwb_bar
        &&& self.wires.address_bus == self.cpu.cpu_state.pc
        &&& self.wires.data_bus == self.memory[self.cpu.cpu_state.pc as int]
    }
}

/// The reference board.
pub struct Board {
    cpu: StateMachine,
    memory: [u8; MEMORY_SIZE],
    wires: Wires,
}

impl View for Board {
    type V = BoardState;

    closed spec fn view(&self) -> BoardState {
        BoardState { cpu: self.cpu@, memory: self.memory@, wires: self.wires }
    }
}

impl Board {
    /// A board around `memory`, with the processor as it is built and every
    /// wire low.
    pub fn new(memory: [u8; MEMORY_SIZE]) -> (board: Self)
        ensures
            board@ == BoardState::power_on(memory@),
    {
        Self {
            cpu: StateMachine::new(),
            memory: memory,
            wires: Wires { data_bus: 0, address_bus: 0, rwb: false, rwb_bar: false },
        }
    }

    pub fn cpu(&self) -> (cpu: &StateMachine)
        ensures
            cpu@ == self@.cpu,
    {
        &self.cpu
    }

    pub fn wires(&self) -> (wires: Wires)
        ensures
            wires == self@.wires,
    {
        self.wires
    }

    /// The byte that the RAM holds at `address`.
    pub fn peek(&self, address: u16) -> (byte: u8)
        ensures
            byte == self@.memory[address as int],
    {
        self.memory[usize::from(address)]
    }

    /// One step of the board: the processor ticks with `clock` and
    /// `reset_en` on its inputs, then the NAND, then the RAM.
    pub fn step(&mut self, clock: bool, reset_en: bool)
        ensures
            final(self)@ == old(self)@.step(clock, reset_en),
    {
        if self.cpu.clock_edge(clock) {
            self.cpu.cycle(reset_en, self.wires.data_bus);
        }
        let pin_state = self.cpu.pin_state();
        self.wires.address_bus = pin_state.address_bus;
        if let Some(byte) = pin_state.driven_data() {
            self.wires.data_bus = byte;
        }
        self.wires.rwb = pin_state.rwb;

        self.wires.rwb_bar = nand(self.wires.rwb, self.wires.rwb);

        let driven = cycle(
            &mut self.memory,
            false,
            self.wires.rwb_bar,
            self.wires.rwb,
            self.wires.address_bus,
            self.wires.data_bus,
        );
        if let Some(byte) = driven {
            self.wires.data_bus = byte;
        }
    }

    /// Drives the board for `sim_steps` steps on the schedule that follows
    /// `waveform`, which is moved on by as many steps.
    pub fn run(&mut self, waveform: &mut Waveform, sim_steps: u32)
        ensures
            final(self)@ == old(self)@.run(*old(waveform), sim_steps as nat),
            *final(waveform) == old(waveform).after(sim_steps as nat),
    {
        let mut done: u32 = 0;
        while done < sim_steps
            invariant
                done <= sim_steps,
                old(self)@.run(*old(waveform), sim_steps as nat) == self@.run(
                    *waveform,
                    (sim_steps - done) as nat,
                ),
                old(waveform).after(sim_steps as nat) == waveform.after((sim_steps - done) as nat),
            decreases sim_steps - done,
        {
            let (clock, reset_en) = waveform.advance();
            self.step(clock, reset_en);
            done += 1;
        }
    }
}

} // verus!
