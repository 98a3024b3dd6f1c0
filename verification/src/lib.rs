//! A pin-level simulator of a small 6502 computer: a processor core, a RAM
//! chip and a NAND, wired together on shared bus signals.
//!
//! Each component is ticked once per simulation step and sees the wires as
//! the components before it left them. What a component does with the
//! levels that it finds is a function on plain values with an exact
//! contract: the instruction engine in `cpu_6502::state_machine`, the memory
//! cycle in `ram_hm62256b`, the NAND in `nand`. The components themselves
//! sample shared signals, of which no contract can speak. `board` wires the
//! same functions together on plain values, `laws` proves of that board
//! what the machine is built to do, and `program` follows one program
//! through it.

pub mod board;
pub mod cpu_6502;
pub mod generic;
pub mod laws;
pub mod nand;
pub mod program;
pub mod ram_hm62256b;
pub mod sim_ram;
pub mod waveform;
