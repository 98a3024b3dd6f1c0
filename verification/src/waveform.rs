//! The schedule on which a board is driven: a clock of four simulation
//! steps per cycle, and a reset that is asserted during the first cycle
//! only.

use vstd::prelude::*;

verus! {

/// The number of simulation steps in one clock cycle. Two steps per half
/// cycle let every component see each level once after it has settled.
pub const CLOCK_CYCLE_SIM_STEPS: u32 = 4;

/// Where the schedule stands: the steps counted, the clock cycles begun, and
/// the level of the clock wire.
#[derive(Clone, Copy, Debug, PartialEq, Eq, Structural)]
pub struct Waveform {
    pub sim_step: u32,
    pub cycle: u32,
    pub clock: bool,
}

impl Waveform {
    /// The schedule before its first step: clock low, no cycle begun.
    pub open spec fn start() -> Waveform {
        Waveform { sim_step: 0, cycle: 0, clock: false }
    }

    /// The step counter after one more step; past its maximum it starts
    /// again at zero.
    pub open spec fn next_sim_step(self) -> u32 {
        if self.sim_step < u32::MAX {
            (self.sim_step + 1) as u32
        } else {
            0
        }
    }

    /// The schedule one step on. The clock rises on every fourth step, which
    /// begins a cycle, and falls two steps later. The count of cycles stops
    /// at its maximum.
    pub open spec fn next(self) -> Waveform {
        let sim_step = self.next_sim_step();
        if sim_step % CLOCK_CYCLE_SIM_STEPS == 0 {
            Waveform {
                sim_step,
                cycle: if self.cycle < u32::MAX {
                    (self.cycle + 1) as u32
                } else {
                    self.cycle
                },
                clock: true,
            }
        } else if sim_step % CLOCK_CYCLE_SIM_STEPS == 2 {
            Waveform { sim_step, clock: false, ..self }
        } else {
            Waveform { sim_step, ..self }
        }
    }

    /// The schedule `sim_steps` steps on.
    pub open spec fn after(self, sim_steps: nat) -> Waveform
        decreases sim_steps,
    {
        if sim_steps == 0 {
            self
        } else {
            self.next().after((sim_steps - 1) as nat)
        }
    }

    /// The level of the reset-enable wire: low, which holds the processor in
    /// reset, during the first clock cycle and at no other time.
    pub open spec fn reset_en(self) -> bool {
        self.cycle != 1
    }

    pub fn new() -> (waveform: Self)
        ensures
            waveform == Self::start(),
    {
        Self { sim_step: 0, cycle: 0, clock: false }
    }

    /// Moves the schedule one simulation step on and gives the levels to put
    /// on the clock wire and on the reset-enable wire for that step.
    pub fn advance(&mut self) -> (levels: (bool, bool))
        ensures
            *final(self) == old(self).next(),
            levels == (final(self).clock, final(self).reset_en()),
    {
        if self.sim_step < u32::MAX {
            self.sim_step += 1;
        } else {
            self.sim_step = u32::MIN;
        }
        if self.sim_step % CLOCK_CYCLE_SIM_STEPS == 0 {
            self.cycle = self.cycle.saturating_add(1);
            self.clock = true;
        } else if self.sim_step % CLOCK_CYCLE_SIM_STEPS == 2 {
            self.clock = false;
        }
        (self.clock, self.cycle != 1)
    }
}

} // verus!
