//! A static RAM after the HM62256B series, here with sixteen address lines:
//! 64 KiB behind active-low chip-select, output-enable and write-enable.

use crate::generic::Connection;
use vstd::prelude::*;

verus! {

/// The number of bytes in the memory array: one for each 16-bit address.
pub const MEMORY_SIZE: usize = 0x1_0000;

/// What one tick does with the levels on the pins of the chip: the memory
/// afterwards, and the byte that the chip drives onto the data bus, if it
/// drives one.
///
/// Deselected, the chip does nothing. Selected, it drives the addressed byte
/// when its output is enabled, whatever write-enable says; else it stores
/// the byte on the data bus when write is enabled; else it leaves the bus
/// floating.
pub open spec fn access(
    memory: Seq<u8>,
    chip_sel_bar: bool,
    output_en_bar: bool,
    write_en_bar: bool,
    address: u16,
    data_bus: u8,
) -> (Seq<u8>, Option<u8>) {
    if chip_sel_bar {
        (memory, None)
    } else if !output_en_bar {
        (memory, Some(memory[address as int]))
    } else if !write_en_bar {
        (memory.update(address as int, data_bus), None)
    } else {
        (memory, None)
    }
}

/// One memory cycle on a memory array, with the levels of the pins given as
/// plain values. The result is the byte to drive onto the data bus, if any.
pub fn cycle(
    memory: &mut [u8; MEMORY_SIZE],
    chip_sel_bar: bool,
    output_en_bar: bool,
    write_en_bar: bool,
    address: u16,
    data_bus: u8,
) -> (driven: Option<u8>)
    ensures
        (final(memory)@, driven) == access(
            old(memory)@,
            chip_sel_bar,
            output_en_bar,
            write_en_bar,
            address,
            data_bus,
        ),
{
    if chip_sel_bar {
        return None;
    }
    if !output_en_bar {
        return Some(memory[usize::from(address)]);
    }
    if !write_en_bar {
        memory[usize::from(address)] = data_bus;
    }
    None
}

/// What one tick of the chip found on its pins, and what it put on the data
/// bus.
#[derive(Clone, Copy, Debug, PartialEq, Eq)]
pub struct Tick {
    pub chip_sel_bar: bool,
    pub output_en_bar: bool,
    pub write_en_bar: bool,
    pub address: u16,
    pub data_bus: u8,
    /// The byte that the chip drove onto the data bus, if it drove one.
    pub driven: Option<u8>,
}

/// The chip on its wires.
pub struct Component {
    address_bus_in: Connection<u16>,
    data_bus_inout: Connection<u8>,
    write_en_bar_in: Connection<bool>,
    output_en_bar_in: Connection<bool>,
    chip_sel_bar_in: Connection<bool>,
    memory: [u8; MEMORY_SIZE],
}

impl Component {
    /// The wires of the chip: address bus, data bus, write-enable,
    /// output-enable, chip-select.
    pub closed spec fn wiring(&self) -> (
        Connection<u16>,
        Connection<u8>,
        Connection<bool>,
        Connection<bool>,
        Connection<bool>,
    ) {
        (
            self.address_bus_in,
            self.data_bus_inout,
            self.write_en_bar_in,
            self.output_en_bar_in,
            self.chip_sel_bar_in,
        )
    }

    /// The bytes that the chip holds, by address.
    pub closed spec fn memory(&self) -> Seq<u8> {
        self.memory@
    }

    pub fn new(
        address_bus_in: Connection<u16>,
        data_bus_inout: Connection<u8>,
        write_en_bar_in: Connection<bool>,
        output_en_bar_in: Connection<bool>,
        chip_sel_bar_in: Connection<bool>,
        memory: [u8; MEMORY_SIZE],
    ) -> (component: Self)
        ensures
            component.memory() == memory@,
            component.wiring() == (
                address_bus_in,
                data_bus_inout,
                write_en_bar_in,
                output_en_bar_in,
                chip_sel_bar_in,
            ),
    {
        Self {
            address_bus_in: address_bus_in,
            data_bus_inout: data_bus_inout,
            write_en_bar_in: write_en_bar_in,
            output_en_bar_in: output_en_bar_in,
            chip_sel_bar_in: chip_sel_bar_in,
            memory: memory,
        }
    }

    /// The byte stored at `address`.
    pub fn peek(&self, address: u16) -> (byte: u8)
        ensures
            byte == self.memory()[address as int],
    {
        self.memory[usize::from(address)]
    }

    /// Samples the pins and runs one memory cycle on them: at most one byte
    /// is driven onto the data bus or stored from it.
    ///
    /// The levels come off shared wires, so no contract can say which they
    /// were. The result says what was found, and with it the contract says
    /// exactly what became of the memory and what was driven.
    pub fn tick(&mut self) -> (outcome: Tick)
        ensures
            final(self).wiring() == old(self).wiring(),
            (final(self).memory(), outcome.driven) == access(
                old(self).memory(),
                outcome.chip_sel_bar,
                outcome.output_en_bar,
                outcome.write_en_bar,
                outcome.address,
                outcome.data_bus,
            ),
    {
        let chip_sel_bar = self.chip_sel_bar_in.read_copy();
        let output_en_bar = self.output_en_bar_in.read_copy();
        let write_en_bar = self.write_en_bar_in.read_copy();
        let address = self.address_bus_in.read_copy();
        let data_bus = self.data_bus_inout.read_copy();

        let driven = cycle(
            &mut self.memory,
            chip_sel_bar,
            output_en_bar,
            write_en_bar,
            address,
            data_bus,
        );
        if let Some(byte) = driven {
            self.data_bus_inout.write_copy(byte);
        }
        Tick { chip_sel_bar, output_en_bar, write_en_bar, address, data_bus, driven }
    }
}

} // verus!
