//! A two-input NAND.

use crate::generic::Connection;
use vstd::prelude::*;

verus! {

/// The output level of a NAND for two input levels.
pub fn nand(in0: bool, in1: bool) -> (out: bool)
    ensures
        out == !(in0 && in1),
{
    !(in0 && in1)
}

/// What one tick of a NAND found on its inputs, and what it put on its
/// output.
#[derive(Clone, Copy, Debug, PartialEq, Eq)]
pub struct Tick {
    pub in0: bool,
    pub in1: bool,
    pub out: bool,
}

/// A NAND on its three wires.
pub struct Component {
    input0_in: Connection<bool>,
    input1_in: Connection<bool>,
    output_out: Connection<bool>,
}

impl Component {
    /// The wires of the NAND: first input, second input, output.
    pub closed spec fn wiring(&self) -> (Connection<bool>, Connection<bool>, Connection<bool>) {
        (self.input0_in, self.input1_in, self.output_out)
    }

    pub fn new(
        input0_in: Connection<bool>,
        input1_in: Connection<bool>,
        output_out: Connection<bool>,
    ) -> (component: Self)
        ensures
            component.wiring() == (input0_in, input1_in, output_out),
    {
        Self { input0_in: input0_in, input1_in: input1_in, output_out: output_out }
    }

    /// Samples both inputs and drives the output with their NAND. Nothing is
    /// kept from one tick to the next.
    ///
    /// The levels come off shared wires, so no contract can say which they
    /// were. The result says what was found and what was driven.
    pub fn tick(&mut self) -> (outcome: Tick)
        ensures
            *final(self) == *old(self),
            outcome.out == !(outcome.in0 && outcome.in1),
    {
        let in0 = self.input0_in.read_copy();
        let in1 = self.input1_in.read_copy();
        let out = nand(in0, in1);

        self.output_out.write_copy(out);
        Tick { in0, in1, out }
    }
}

} // verus!
