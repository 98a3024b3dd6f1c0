use vstd::prelude::*;

verus! {

/// The pins of the processor, each holding the level that the processor last
/// sampled from or drove onto its wire.
#[derive(Clone, Copy, Debug, PartialEq, Eq, Structural)]
pub struct PinState {
    pub clock: bool,
    /// Active-low reset: the processor is held in reset while this is false.
    pub reset_en: bool,
    pub data_bus: u8,
    /// Read/write-bar: true while the processor reads, false while it writes.
    pub rwb: bool,
    pub address_bus: u16,
}

/// The levels that the processor puts on its output wires.
#[derive(Clone, Copy, Debug, PartialEq, Eq)]
pub struct Drive {
    pub address_bus: u16,
    /// The byte put on the data bus; none while the processor reads and
    /// leaves the bus to whoever answers the address.
    pub data_bus: Option<u8>,
    pub rwb: bool,
}

impl PinState {
    /// The pins before anything was sampled: clock low, reset asserted,
    /// reading, with the address bus at its highest address.
    pub open spec fn idle() -> PinState {
        PinState { clock: false, reset_en: false, data_bus: 0x00, rwb: true, address_bus: 0xFFFF }
    }

    pub fn new() -> (state: Self)
        ensures
            state == Self::idle(),
    {
        let mut new_state = Self {
            clock: false,
            reset_en: false,
            data_bus: 0x00,
            rwb: true,
            address_bus: 0xFFFF,
        };
        new_state.reset();
        new_state
    }

    /// The byte that the processor drives onto the data bus: the one on its
    /// data pin while it writes, none while it reads, when the bus belongs
    /// to whoever answers the address.
    pub open spec fn driven(self) -> Option<u8> {
        if self.rwb {
            None
        } else {
            Some(self.data_bus)
        }
    }

    pub fn driven_data(self) -> (driven: Option<u8>)
        ensures
            driven == self.driven(),
    {
        if self.rwb {
            None
        } else {
            Some(self.data_bus)
        }
    }

    /// What the processor drives with its pins as they are: the address bus
    /// and read/write-bar always, the data bus only while it writes.
    pub open spec fn drive(self) -> Drive {
        Drive { address_bus: self.address_bus, data_bus: self.driven(), rwb: self.rwb }
    }

    pub fn outputs(self) -> (drive: Drive)
        ensures
            drive == self.drive(),
    {
        Drive { address_bus: self.address_bus, data_bus: self.driven_data(), rwb: self.rwb }
    }

    /// Puts every pin back to its idle level and hands the pins back for
    /// chaining.
    pub fn reset(&mut self) -> (state: &mut Self)
        ensures
            *state == Self::idle(),
            *final(self) == *final(state),
    {
        self.clock = false;
        self.reset_en = false;
        self.data_bus = 0x00;
        self.rwb = true;
        self.address_bus = 0xFFFF;
        self
    }
}

} // verus!
