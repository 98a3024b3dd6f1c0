//! A plain RAM: 64 KiB with one write-enable line, active high, and the
//! chip-select handed to each tick by the caller.

use crate::generic::Connection;
use crate::ram_hm62256b::MEMORY_SIZE;
use vstd::prelude::*;

verus! {

/// What one tick does with the levels on the pins: the memory afterwards,
/// and the byte that the RAM drives onto the data bus, if it drives one.
///
/// Not selected, the RAM does nothing. Selected, it stores the byte on the
/// data bus while write is enabled, and drives the addressed byte while it
/// is not.
pub open spec fn access(memory: Seq<u8>, cs: bool, write_en: bool, address: u16, data_bus: u8) -> (
    Seq<u8>,
    Option<u8>,
) {
    if !cs {
        (memory, None)
    } else if write_en {
        (memory.update(address as int, data_bus), None)
    } else {
        (memory, Some(memory[address as int]))
    }
}

/// One memory cycle on a memory array, with the levels of the pins given as
/// plain values. The result is the byte to drive onto the data bus, if any.
pub fn cycle(
    memory: &mut [u8; MEMORY_SIZE],
    cs: bool,
    write_en: bool,
    address: u16,
    data_bus: u8,
) -> (driven: Option<u8>)
    ensures
        (final(memory)@, driven) == access(old(memory)@, cs, write_en, address, data_bus),
{
    if !cs {
        return None;
    }
    if write_en {
        memory[usize::from(address)] = data_bus;
        None
    } else {
        Some(memory[usize::from(address)])
    }
}

/// What one tick of the RAM found on its pins, and what it put on the data
/// bus.
#[derive(Clone, Copy, Debug, PartialEq, Eq)]
pub struct Tick {
    pub write_en: bool,
    pub address: u16,
    pub data_bus: u8,
    /// The byte that the RAM drove onto the data bus, if it drove one.
    pub driven: Option<u8>,
}

/// The RAM on its wires.
pub struct Component {
    address_bus_in: Connection<u16>,
    data_bus_inout: Connection<u8>,
    write_en_in: Connection<bool>,
    memory: [u8; MEMORY_SIZE],
}

impl Component {
    /// The wires of the RAM: address bus, data bus, write-enable.
    pub closed spec fn wiring(&self) -> (Connection<u16>, Connection<u8>, Connection<bool>) {
        (self.address_bus_in, self.data_bus_inout, self.write_en_in)
    }

    /// The bytes that the RAM holds, by address.
    pub closed spec fn memory(&self) -> Seq<u8> {
        self.memory@
    }

    pub fn new(
        address_bus_in: Connection<u16>,
        data_bus_inout: Connection<u8>,
        write_en_in: Connection<bool>,
        memory: [u8; MEMORY_SIZE],
    ) -> (component: Self)
        ensures
            component.memory() == memory@,
            component.wiring() == (address_bus_in, data_bus_inout, write_en_in),
    {
        Self {
            address_bus_in: address_bus_in,
            data_bus_inout: data_bus_inout,
            write_en_in: write_en_in,
            memory: memory,
        }
    }

    /// The byte stored at `address`.
    pub fn peek(&self, address: u16) -> (byte: u8)
        ensures
            byte == self.memory()[address as int],
    {
        self.memory[usize::from(address)]
    }

    /// Samples the pins and runs one memory cycle on them, with `cs` as the
    /// chip-select.
    ///
    /// The levels come off shared wires, so no contract can say which they
    /// were. The result says what was found, and with it the contract says
    /// exactly what became of the memory and what was driven.
    pub fn tick(&mut self, cs: bool) -> (outcome: Tick)
        ensures
            final(self).wiring() == old(self).wiring(),
            (final(self).memory(), outcome.driven) == access(
                old(self).memory(),
                cs,
                outcome.write_en,
                outcome.address,
                outcome.data_bus,
            ),
    {
        let address = self.address_bus_in.read_copy();
        let write_en = self.write_en_in.read_copy();
        let data_bus = self.data_bus_inout.read_copy();

        let driven = cycle(&mut self.memory, cs, write_en, address, data_bus);
        if let Some(byte) = driven {
            self.data_bus_inout.write_copy(byte);
        }
        Tick { write_en, address, data_bus, driven }
    }
}

} // verus!
