use vstd::prelude::*;

verus! {

/// The registers of the processor.
///
/// `internal` is a scratch latch in which a 16-bit operand is put together
/// from two bus reads; it means nothing outside instruction decoding.
#[derive(Clone, Copy, Debug, PartialEq, Eq, Structural)]
pub struct CPUState {
    pub a: u8,
    pub x: u8,
    pub y: u8,
    /// Stack pointer, an offset into the page at `SP_MEM_OFFSET`.
    pub sp: u8,
    pub pc: u16,
    pub internal: u16,
}

impl CPUState {
    /// Base address of the stack page.
    pub const SP_MEM_OFFSET: u16 = 0x100;

    /// The registers as a reset leaves them. The program counter is zero
    /// until the reset sequence has fetched the reset vector.
    pub open spec fn cleared() -> CPUState {
        CPUState { a: 0, x: 0, y: 0, sp: 0xFF, pc: 0x0000, internal: 0x0000 }
    }

    pub fn new() -> (state: Self)
        ensures
            state == Self::cleared(),
    {
        let mut new_state = Self { a: 0, x: 0, y: 0, pc: 0x0000, sp: 0xFF, internal: 0x0000 };
        new_state.reset();
        new_state
    }

    /// Clears every register and hands the registers back for chaining.
    pub fn reset(&mut self) -> (state: &mut Self)
        ensures
            *state == Self::cleared(),
            *final(self) == *final(state),
    {
        self.a = 0;
        self.x = 0;
        self.y = 0;
        self.pc = 0x0000;
        self.sp = 0xFF;
        self.internal = 0x0000;
        self
    }
}

} // verus!
