//! The processor: its registers, its pins, its instruction engine, and the
//! component that puts the engine on the wires of a board.

pub mod cpu_state;
pub mod pin_state;
pub mod state_machine;

use crate::generic::Connection;
use pin_state::{Drive, PinState};
use state_machine::{execute, Diagnostics, Engine, StateMachine};
use vstd::prelude::*;

verus! {

/// What a tick of the processor found on its clock wire, and what it did
/// about it.
#[derive(Clone, Copy, Debug, PartialEq, Eq)]
pub enum Edge {
    /// The clock was at the level of the tick before: nothing was done.
    SameLevel,
    /// The clock fell: the level was latched, nothing else was done.
    Falling,
    /// The clock rose: the input pins were sampled, which left the pins as
    /// `sampled`; the engine ran one cycle, of which `diagnostics` reports;
    /// and the pins were put on the output wires once more, as `driven`.
    Rising { sampled: PinState, diagnostics: Diagnostics, driven: Drive },
}

/// What one tick of the processor did.
#[derive(Clone, Copy, Debug, PartialEq, Eq)]
pub struct Tick {
    /// The levels that the tick put on the output wires before it looked at
    /// the clock: those of the pins as the tick found them.
    pub settled: Drive,
    pub edge: Edge,
}

/// The processor on its wires.
pub struct Component {
    clock_in: Connection<bool>,
    reset_en_in: Connection<bool>,
    data_bus_inout: Connection<u8>,
    rwb_out: Connection<bool>,
    address_bus_out: Connection<u16>,
    state_machine: StateMachine,
}

impl Component {
    /// The wires of the processor: clock, reset-enable, data bus,
    /// read/write-bar, address bus.
    pub closed spec fn wiring(&self) -> (
        Connection<bool>,
        Connection<bool>,
        Connection<u8>,
        Connection<bool>,
        Connection<u16>,
    ) {
        (self.clock_in, self.reset_en_in, self.data_bus_inout, self.rwb_out, self.address_bus_out)
    }

    /// The instruction engine of the processor.
    pub closed spec fn engine(&self) -> Engine {
        self.state_machine@
    }

    pub fn new(
        clock_in: Connection<bool>,
        reset_en_in: Connection<bool>,
        data_bus_inout: Connection<u8>,
        rwb_out: Connection<bool>,
        address_bus_out: Connection<u16>,
    ) -> (component: Self)
        ensures
            component.engine() == Engine::power_on(),
            component.wiring() == (clock_in, reset_en_in, data_bus_inout, rwb_out, address_bus_out),
    {
        Self {
            clock_in: clock_in,
            reset_en_in: reset_en_in,
            data_bus_inout: data_bus_inout,
            rwb_out: rwb_out,
            address_bus_out: address_bus_out,
            state_machine: StateMachine::new(),
        }
    }

    pub fn state_machine(&self) -> (state_machine: &StateMachine)
        ensures
            state_machine@ == self.engine(),
    {
        &self.state_machine
    }

    /// One tick of the processor. The settled pins are driven onto the wires
    /// first, whatever the clock does, so that the wires always carry the
    /// last settled state of the processor. Then the clock is sampled, and
    /// only on a rising edge are the input pins sampled, one engine cycle run
    /// and the pins driven again.
    ///
    /// The levels come off shared wires, so no contract can say which they
    /// were. The result says what was found and what was driven, and with it
    /// the contract says exactly what became of the engine.
    pub fn tick(&mut self) -> (outcome: Tick)
        ensures
            final(self).wiring() == old(self).wiring(),
            outcome.settled == old(self).engine().pin_state.drive(),
            match outcome.edge {
                Edge::SameLevel => final(self).engine() == old(self).engine(),
                Edge::Falling => {
                    &&& old(self).engine().pin_state.clock
                    &&& final(self).engine() == old(self).engine().clock_edge(false)
                },
                Edge::Rising { sampled, diagnostics, driven } => {
                    let before = old(self).engine().clock_edge(true).sample(
                        sampled.reset_en,
                        sampled.data_bus,
                    );
                    &&& !old(self).engine().pin_state.clock
                    &&& sampled == before.pin_state
                    &&& final(self).engine() == before.execute()
                    &&& diagnostics == before.execute_report()
                    &&& driven == final(self).engine().pin_state.drive()
                },
            },
    {
        let settled = self.state_machine.pin_state().outputs();
        self.write_state_deferred();

        let clock = self.clock_in.read_copy();
        if self.state_machine.pin_state().clock == clock {
            // the same level again
            return Tick { settled, edge: Edge::SameLevel };
        }
        self.state_machine.clock_edge(clock);
        if !clock {
            return Tick { settled, edge: Edge::Falling };
        }
        let reset_en = self.reset_en_in.read_copy();
        let data_bus = self.data_bus_inout.read_copy();
        self.state_machine.sample(reset_en, data_bus);
        let sampled = self.state_machine.pin_state();
        assert(self.engine() == old(self).engine().clock_edge(true).sample(
            sampled.reset_en,
            sampled.data_bus,
        ));

        let diagnostics = execute(&mut self.state_machine);

        let driven = self.write_state();
        Tick { settled, edge: Edge::Rising { sampled, diagnostics, driven } }
    }

    /// `defer::defer` on a closure that calls `write_state`: the guard that it
    /// returns runs the closure when it is dropped, which is where this
    /// function ends. The wires are behind shared handles, so no contract can
    /// speak of what was driven.
    #[verifier::external_body]
    fn write_state_deferred(&self) {
        let _guard = defer::defer(
            || {
                self.write_state();
            },
        );
    }

    /// Drives the output wires from the pins, and says with what: the
    /// address bus and read/write-bar always, the data bus only while the
    /// processor writes.
    fn write_state(&self) -> (driven: Drive)
        ensures
            driven == self.engine().pin_state.drive(),
    {
        let driven = self.state_machine.pin_state().outputs();
        self.address_bus_out.write_copy(driven.address_bus);

        if let Some(byte) = driven.data_bus {
            self.data_bus_inout.write_copy(byte);
        }
        self.rwb_out.write_copy(driven.rwb);
        driven
    }
}

} // verus!
