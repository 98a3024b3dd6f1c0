use super::cpu_state::CPUState;
use super::pin_state::PinState;
use std::collections::VecDeque;
use vstd::prelude::*;

verus! {

/// The work that the instruction being executed still owes on one later
/// clock cycle. Each step reads the byte that memory has put on the data bus
/// in answer to the address of the cycle before.
#[derive(Clone, Copy, Debug, PartialEq, Eq, Structural)]
pub enum MicroOp {
    /// Reset: take the bus byte as the low byte of `pc`, address `0xFFFD`.
    LatchVectorLow,
    /// Reset: take the bus byte as the high byte of `pc`, address `pc`.
    LatchVectorHigh,
    /// `LDA #`: copy the bus byte into `a`, step to the next instruction.
    LoadAccumulator,
    /// `AND #`: and the bus byte into `a`, step to the next instruction.
    AndAccumulator,
    /// Take the bus byte as the low byte of `internal`, step to the next byte.
    LatchLowByte,
    /// `JMP`: take the bus byte as the high byte of `internal`, continue there.
    LatchHighByteAndJump,
    /// `STA`: take the bus byte as the high byte of `internal`, write `a` there.
    LatchHighByteAndStore,
}

/// What a cycle met that the engine settles by itself and that whoever runs
/// it may want to report. None of it stops the machine.
#[derive(Clone, Copy, Debug, PartialEq, Eq, Structural)]
pub struct Diagnostics {
    /// The processor went through its reset behaviour, for its reset pin
    /// or for an unknown instruction.
    pub reset: bool,
    /// The byte that was decoded is no instruction that the engine knows.
    pub unknown_instruction: bool,
    /// The program counter was incremented past `0xFFFF` and is zero.
    pub pc_overflow: bool,
}

impl Diagnostics {
    /// Nothing to report.
    pub open spec fn none() -> Diagnostics {
        Diagnostics { reset: false, unknown_instruction: false, pc_overflow: false }
    }

    /// Only an overflow of the program counter, if `pc_overflow` says so.
    pub open spec fn overflow(pc_overflow: bool) -> Diagnostics {
        Diagnostics { pc_overflow, ..Diagnostics::none() }
    }
}

/// The program counter after one increment: past `0xFFFF` it is zero again.
pub open spec fn next_pc(pc: u16) -> u16 {
    if pc < u16::MAX {
        (pc + 1) as u16
    } else {
        0
    }
}

/// `word` with its low byte replaced by `byte`.
pub open spec fn with_low_byte(word: u16, byte: u8) -> u16 {
    (word & 0xFF00) | (byte as u16)
}

/// `word` with its high byte replaced by `byte`.
pub open spec fn with_high_byte(word: u16, byte: u8) -> u16 {
    (word & 0x00FF) | ((byte as u16) << 8)
}

/// The 16-bit word that memory holds as `lo` followed by `hi`.
pub open spec fn word(lo: u8, hi: u8) -> u16 {
    (lo as u16) | ((hi as u16) << 8)
}

/// The instruction engine as a mathematical value: registers, pins and the
/// queue of micro-ops, oldest first.
#[verifier::ext_equal]
pub struct Engine {
    pub cpu_state: CPUState,
    pub pin_state: PinState,
    pub planned_executions: Seq<MicroOp>,
}

impl Engine {
    /// The engine as it is built: registers cleared, pins idle, nothing
    /// queued.
    pub open spec fn power_on() -> Engine {
        Engine {
            cpu_state: CPUState::cleared(),
            pin_state: PinState::idle(),
            planned_executions: Seq::empty(),
        }
    }

    /// The program counter is incremented.
    pub open spec fn inc_pc(self) -> Engine {
        Engine { cpu_state: CPUState { pc: next_pc(self.cpu_state.pc), ..self.cpu_state }, ..self }
    }

    /// `address` is put on the address pins.
    pub open spec fn address(self, address: u16) -> Engine {
        Engine { pin_state: PinState { address_bus: address, ..self.pin_state }, ..self }
    }

    /// The program counter is incremented and put on the address pins.
    pub open spec fn inc_pc_and_address_it(self) -> Engine {
        let stepped = self.inc_pc();
        stepped.address(stepped.cpu_state.pc)
    }

    /// The program counter is set to `new_pc` and put on the address pins.
    pub open spec fn set_pc_and_address_it(self, new_pc: u16) -> Engine {
        Engine { cpu_state: CPUState { pc: new_pc, ..self.cpu_state }, ..self }.address(new_pc)
    }

    /// The byte on the data pins becomes the low byte of `internal`.
    pub open spec fn latch_internal_low(self) -> Engine {
        Engine {
            cpu_state: CPUState {
                internal: with_low_byte(self.cpu_state.internal, self.pin_state.data_bus),
                ..self.cpu_state
            },
            ..self
        }
    }

    /// The byte on the data pins becomes the high byte of `internal`.
    pub open spec fn latch_internal_high(self) -> Engine {
        Engine {
            cpu_state: CPUState {
                internal: with_high_byte(self.cpu_state.internal, self.pin_state.data_bus),
                ..self.cpu_state
            },
            ..self
        }
    }

    /// What one queued micro-op does to the engine.
    pub open spec fn run(self, op: MicroOp) -> Engine {
        match op {
            MicroOp::LatchVectorLow => Engine {
                cpu_state: CPUState {
                    pc: with_low_byte(self.cpu_state.pc, self.pin_state.data_bus),
                    ..self.cpu_state
                },
                ..self
            }.address(0xFFFD),
            MicroOp::LatchVectorHigh => self.set_pc_and_address_it(
                with_high_byte(self.cpu_state.pc, self.pin_state.data_bus),
            ),
            MicroOp::LoadAccumulator => Engine {
                cpu_state: CPUState { a: self.pin_state.data_bus, ..self.cpu_state },
                ..self
            }.inc_pc_and_address_it(),
            MicroOp::AndAccumulator => Engine {
                cpu_state: CPUState {
                    a: self.cpu_state.a & self.pin_state.data_bus,
                    ..self.cpu_state
                },
                ..self
            }.inc_pc_and_address_it(),
            MicroOp::LatchLowByte => self.latch_internal_low().inc_pc_and_address_it(),
            MicroOp::LatchHighByteAndJump => {
                let latched = self.latch_internal_high();
                latched.set_pc_and_address_it(latched.cpu_state.internal)
            },
            MicroOp::LatchHighByteAndStore => {
                let latched = self.latch_internal_high();
                Engine {
                    pin_state: PinState {
                        address_bus: latched.cpu_state.internal,
                        data_bus: latched.cpu_state.a,
                        rwb: false,
                        ..latched.pin_state
                    },
                    ..latched
                }.inc_pc()
            },
        }
    }

    /// Registers cleared and the queue emptied; the pins stay as the outside
    /// left them.
    pub open spec fn clear(self) -> Engine {
        Engine { cpu_state: CPUState::cleared(), planned_executions: Seq::empty(), ..self }
    }

    /// The reset behaviour: everything cleared, read/write-bar back at read,
    /// so that a write of the cycle before does not reach the reset vector,
    /// the low byte of the vector addressed, and the two vector latches
    /// queued.
    pub open spec fn reset(self) -> Engine {
        Engine {
            pin_state: PinState { rwb: true, address_bus: 0xFFFC, ..self.pin_state },
            planned_executions: seq![MicroOp::LatchVectorLow, MicroOp::LatchVectorHigh],
            ..self.clear()
        }
    }

    /// `ops` are queued behind what is queued already.
    pub open spec fn plan(self, ops: Seq<MicroOp>) -> Engine {
        Engine { planned_executions: self.planned_executions + ops, ..self }
    }

    /// The decode cycle: the byte on the data bus is taken as an opcode.
    pub open spec fn decode(self) -> Engine {
        let opcode = self.pin_state.data_bus;
        if opcode == 0xA9 {
            self.plan(seq![MicroOp::LoadAccumulator]).inc_pc_and_address_it()
        } else if opcode == 0x29 {
            self.plan(seq![MicroOp::AndAccumulator]).inc_pc_and_address_it()
        } else if opcode == 0x0A {
            Engine {
                cpu_state: CPUState { a: self.cpu_state.a << 1, ..self.cpu_state },
                ..self
            }.inc_pc_and_address_it()
        } else if opcode == 0x4C {
            self.plan(
                seq![MicroOp::LatchLowByte, MicroOp::LatchHighByteAndJump],
            ).inc_pc_and_address_it()
        } else if opcode == 0x8D {
            self.plan(
                seq![MicroOp::LatchLowByte, MicroOp::LatchHighByteAndStore],
            ).inc_pc_and_address_it()
        } else {
            self.reset()
        }
    }

    /// One cycle out of reset: read/write-bar goes back to read, then the
    /// oldest queued micro-op runs, or, with nothing queued, a decode.
    pub open spec fn next(self) -> Engine {
        let reading = Engine { pin_state: PinState { rwb: true, ..self.pin_state }, ..self };
        if self.planned_executions.len() > 0 {
            Engine {
                planned_executions: self.planned_executions.drop_first(),
                ..reading
            }.run(self.planned_executions[0])
        } else {
            reading.decode()
        }
    }

    /// One clock cycle of the engine on the pins as they were sampled.
    pub open spec fn execute(self) -> Engine {
        if !self.pin_state.reset_en {
            self.reset()
        } else {
            self.next()
        }
    }

    /// Whether the next increment of the program counter takes it past
    /// `0xFFFF`.
    pub open spec fn pc_at_end(self) -> bool {
        self.cpu_state.pc == u16::MAX
    }

    /// What there is to report of `run(op)`: an overflow of the program
    /// counter, where the micro-op increments it.
    pub open spec fn run_report(self, op: MicroOp) -> Diagnostics {
        match op {
            MicroOp::LatchVectorLow | MicroOp::LatchVectorHigh | MicroOp::LatchHighByteAndJump =>
                Diagnostics::none(),
            MicroOp::LoadAccumulator
            | MicroOp::AndAccumulator
            | MicroOp::LatchLowByte
            | MicroOp::LatchHighByteAndStore => Diagnostics::overflow(self.pc_at_end()),
        }
    }

    /// Whether the engine knows `opcode` as an instruction.
    pub open spec fn knows(opcode: u8) -> bool {
        opcode == 0xA9 || opcode == 0x29 || opcode == 0x0A || opcode == 0x4C || opcode == 0x8D
    }

    /// What there is to report of `decode()`: an overflow of the program
    /// counter behind a known opcode, a reset for an unknown one.
    pub open spec fn decode_report(self) -> Diagnostics {
        if Self::knows(self.pin_state.data_bus) {
            Diagnostics::overflow(self.pc_at_end())
        } else {
            Diagnostics { reset: true, unknown_instruction: true, pc_overflow: false }
        }
    }

    /// What there is to report of `next()`.
    pub open spec fn next_report(self) -> Diagnostics {
        if self.planned_executions.len() > 0 {
            self.run_report(self.planned_executions[0])
        } else {
            self.decode_report()
        }
    }

    /// What there is to report of `execute()`.
    pub open spec fn execute_report(self) -> Diagnostics {
        if !self.pin_state.reset_en {
            Diagnostics { reset: true, unknown_instruction: false, pc_overflow: false }
        } else {
            self.next_report()
        }
    }

    /// The clock level is latched.
    pub open spec fn clock_edge(self, clock: bool) -> Engine {
        Engine { pin_state: PinState { clock, ..self.pin_state }, ..self }
    }

    /// Whether `clock` is a rising edge for this engine.
    pub open spec fn rises(self, clock: bool) -> bool {
        !self.pin_state.clock && clock
    }

    /// Reset-enable is sampled always, the data bus only while the processor
    /// reads: while it writes it keeps the byte that it drives.
    pub open spec fn sample(self, reset_en: bool, data_bus: u8) -> Engine {
        Engine {
            pin_state: PinState {
                reset_en,
                data_bus: if self.pin_state.rwb {
                    data_bus
                } else {
                    self.pin_state.data_bus
                },
                ..self.pin_state
            },
            ..self
        }
    }

    /// One rising edge: the pins are sampled, then the engine runs one cycle.
    pub open spec fn cycle(self, reset_en: bool, data_bus: u8) -> Engine {
        self.sample(reset_en, data_bus).execute()
    }

    /// One tick of the processor with `clock`, `reset_en` and `data_bus` on
    /// its input wires. Only a rising clock edge runs a cycle; a falling edge
    /// is latched, a repeated level changes nothing.
    pub open spec fn tick(self, clock: bool, reset_en: bool, data_bus: u8) -> Engine {
        if self.rises(clock) {
            self.clock_edge(clock).cycle(reset_en, data_bus)
        } else {
            self.clock_edge(clock)
        }
    }

    /// What the queue may hold: the steps that one instruction, or the reset
    /// sequence, has left.
    pub open spec fn in_flight_ok(self) -> bool {
        let queue = self.planned_executions;
        ||| queue =~= seq![]
        ||| queue =~= seq![MicroOp::LatchVectorLow, MicroOp::LatchVectorHigh]
        ||| queue =~= seq![MicroOp::LatchVectorHigh]
        ||| queue =~= seq![MicroOp::LoadAccumulator]
        ||| queue =~= seq![MicroOp::AndAccumulator]
        ||| queue =~= seq![MicroOp::LatchLowByte, MicroOp::LatchHighByteAndJump]
        ||| queue =~= seq![MicroOp::LatchHighByteAndJump]
        ||| queue =~= seq![MicroOp::LatchLowByte, MicroOp::LatchHighByteAndStore]
        ||| queue =~= seq![MicroOp::LatchHighByteAndStore]
    }
}

/// The instruction engine of the processor: a state machine that runs one
/// step per rising clock edge.
pub struct StateMachine {
    cpu_state: CPUState,
    pin_state: PinState,
    planned_executions: VecDeque<MicroOp>,
}

impl View for StateMachine {
    type V = Engine;

    closed spec fn view(&self) -> Engine {
        Engine {
            cpu_state: self.cpu_state,
            pin_state: self.pin_state,
            planned_executions: self.planned_executions@,
        }
    }
}

impl StateMachine {
    pub fn new() -> (state_machine: Self)
        ensures
            state_machine@ == Engine::power_on(),
            state_machine@.in_flight_ok(),
    {
        Self {
            cpu_state: CPUState::new(),
            pin_state: PinState::new(),
            planned_executions: VecDeque::new(),
        }
    }

    /// Clears the registers and the queue. The pins are left alone: what is
    /// on them comes from outside.
    pub fn reset(&mut self)
        ensures
            final(self)@ == old(self)@.clear(),
            final(self)@.in_flight_ok(),
    {
        self.cpu_state.reset();
        self.planned_executions.clear();
    }

    pub fn cpu_state(&self) -> (cpu_state: CPUState)
        ensures
            cpu_state == self@.cpu_state,
    {
        self.cpu_state
    }

    pub fn pin_state(&self) -> (pin_state: PinState)
        ensures
            pin_state == self@.pin_state,
    {
        self.pin_state
    }

    /// The number of micro-ops that are queued.
    pub fn planned(&self) -> (count: usize)
        ensures
            count == self@.planned_executions.len(),
    {
        self.planned_executions.len()
    }

    /// Latches the clock level and says whether it rose.
    pub fn clock_edge(&mut self, clock: bool) -> (rising: bool)
        ensures
            final(self)@ == old(self)@.clock_edge(clock),
            old(self)@.in_flight_ok() ==> final(self)@.in_flight_ok(),
            rising == old(self)@.rises(clock),
    {
        let rising = !self.pin_state.clock && clock;
        self.pin_state.clock = clock;
        rising
    }

    /// Samples the input pins: reset-enable always, the data bus only while
    /// the processor reads.
    pub fn sample(&mut self, reset_en: bool, data_bus: u8)
        ensures
            final(self)@ == old(self)@.sample(reset_en, data_bus),
            old(self)@.in_flight_ok() ==> final(self)@.in_flight_ok(),
    {
        self.pin_state.reset_en = reset_en;
        if self.pin_state.rwb {
            self.pin_state.data_bus = data_bus;
        }
    }

    /// Runs one rising clock edge: samples the input pins, then executes one
    /// cycle.
    pub fn cycle(&mut self, reset_en: bool, data_bus: u8) -> (diagnostics: Diagnostics)
        ensures
            final(self)@ == old(self)@.cycle(reset_en, data_bus),
            old(self)@.in_flight_ok() ==> final(self)@.in_flight_ok(),
            diagnostics == old(self)@.sample(reset_en, data_bus).execute_report(),
    {
        self.sample(reset_en, data_bus);
        execute(self)
    }
}

/// Runs the engine for one clock cycle on the pins as they stand: the reset
/// behaviour while reset-enable is low, else the next step.
pub fn execute(state_machine: &mut StateMachine) -> (diagnostics: Diagnostics)
    ensures
        final(state_machine)@ == old(state_machine)@.execute(),
        old(state_machine)@.in_flight_ok() ==> final(state_machine)@.in_flight_ok(),
        diagnostics == old(state_machine)@.execute_report(),
{
    if !state_machine.pin_state.reset_en {
        exec_reset(state_machine);
        return Diagnostics { reset: true, unknown_instruction: false, pc_overflow: false };
    }
    exec_next(state_machine)
}

/// Puts read/write-bar back to read, then runs the oldest queued micro-op,
/// or decodes the byte on the data bus when nothing is queued.
pub fn exec_next(state_machine: &mut StateMachine) -> (diagnostics: Diagnostics)
    ensures
        final(state_machine)@ == old(state_machine)@.next(),
        old(state_machine)@.in_flight_ok() ==> final(state_machine)@.in_flight_ok(),
        diagnostics == old(state_machine)@.next_report(),
{
    // whatever the cycle before did, a write lasts one cycle
    state_machine.pin_state.rwb = true;

    if let Some(next) = state_machine.planned_executions.pop_front() {
        run_micro_op(state_machine, next)
    } else {
        exec_default(state_machine)
    }
}

fn run_micro_op(state_machine: &mut StateMachine, op: MicroOp) -> (diagnostics: Diagnostics)
    ensures
        final(state_machine)@ == old(state_machine)@.run(op),
        diagnostics == old(state_machine)@.run_report(op),
{
    let mut pc_overflow = false;
    match op {
        MicroOp::LatchVectorLow => {
            state_machine.cpu_state.pc &= 0xFF00;
            state_machine.cpu_state.pc |= u16::from(state_machine.pin_state.data_bus);
            state_machine.pin_state.address_bus = 0xfffd;
        },
        MicroOp::LatchVectorHigh => {
            state_machine.cpu_state.pc &= 0x00FF;
            state_machine.cpu_state.pc |= u16::from(state_machine.pin_state.data_bus) << 8;
            state_machine.pin_state.address_bus = state_machine.cpu_state.pc;
        },
        MicroOp::LoadAccumulator => {
            state_machine.cpu_state.a = state_machine.pin_state.data_bus;
            pc_overflow = inc_pc_and_address_it(state_machine);
        },
        MicroOp::AndAccumulator => {
            state_machine.cpu_state.a &= state_machine.pin_state.data_bus;
            pc_overflow = inc_pc_and_address_it(state_machine);
        },
        MicroOp::LatchLowByte => {
            state_machine.cpu_state.internal &= 0xFF00;
            state_machine.cpu_state.internal |= u16::from(state_machine.pin_state.data_bus);
            pc_overflow = inc_pc_and_address_it(state_machine);
        },
        MicroOp::LatchHighByteAndJump => {
            state_machine.cpu_state.internal &= 0x00FF;
            state_machine.cpu_state.internal |= u16::from(state_machine.pin_state.data_bus) << 8;
            let target = state_machine.cpu_state.internal;
            set_pc_and_address_it(state_machine, target);
        },
        MicroOp::LatchHighByteAndStore => {
            state_machine.cpu_state.internal &= 0x00FF;
            state_machine.cpu_state.internal |= u16::from(state_machine.pin_state.data_bus) << 8;
            state_machine.pin_state.address_bus = state_machine.cpu_state.internal;
            state_machine.pin_state.data_bus = state_machine.cpu_state.a;
            state_machine.pin_state.rwb = false;
            // the address bus has to stay on the target of the write
            pc_overflow = inc_pc(state_machine);
        },
    }
    Diagnostics { reset: false, unknown_instruction: false, pc_overflow }
}

fn exec_default(state_machine: &mut StateMachine) -> (diagnostics: Diagnostics)
    ensures
        final(state_machine)@ == old(state_machine)@.decode(),
        diagnostics == old(state_machine)@.decode_report(),
{
    let ghost queued = state_machine.planned_executions@;
    let mut diagnostics = Diagnostics {
        reset: false,
        unknown_instruction: false,
        pc_overflow: false,
    };

    // fetch next instruction
    let next_instruction = state_machine.pin_state.data_bus;

    // decode instruction
    match next_instruction {
        0xA9 => {
            // LDA immediate
            state_machine.planned_executions.push_back(MicroOp::LoadAccumulator);
            assert(state_machine.planned_executions@ =~= queued + seq![MicroOp::LoadAccumulator]);
            diagnostics.pc_overflow = inc_pc_and_address_it(state_machine);
        },
        0x29 => {
            // AND immediate
            state_machine.planned_executions.push_back(MicroOp::AndAccumulator);
            assert(state_machine.planned_executions@ =~= queued + seq![MicroOp::AndAccumulator]);
            diagnostics.pc_overflow = inc_pc_and_address_it(state_machine);
        },
        0x0A => {
            // ASL A
            state_machine.cpu_state.a = state_machine.cpu_state.a << 1;
            diagnostics.pc_overflow = inc_pc_and_address_it(state_machine);
        },
        0x4C => {
            // JMP absolute
            state_machine.planned_executions.push_back(MicroOp::LatchLowByte);
            state_machine.planned_executions.push_back(MicroOp::LatchHighByteAndJump);
            assert(state_machine.planned_executions@ =~= queued + seq![
                MicroOp::LatchLowByte,
                MicroOp::LatchHighByteAndJump,
            ]);
            diagnostics.pc_overflow = inc_pc_and_address_it(state_machine);
        },
        0x8D => {
            // STA absolute
            state_machine.planned_executions.push_back(MicroOp::LatchLowByte);
            state_machine.planned_executions.push_back(MicroOp::LatchHighByteAndStore);
            assert(state_machine.planned_executions@ =~= queued + seq![
                MicroOp::LatchLowByte,
                MicroOp::LatchHighByteAndStore,
            ]);
            diagnostics.pc_overflow = inc_pc_and_address_it(state_machine);
        },
        _ => {
            // an unknown instruction resets the processor
            diagnostics.unknown_instruction = true;
            diagnostics.reset = true;
            exec_reset(state_machine);
        },
    }
    diagnostics
}

/// The reset behaviour: clears the registers and the queue, puts
/// read/write-bar back to read, addresses the low byte of the reset vector
/// and queues the two steps that fetch it.
pub fn exec_reset(state_machine: &mut StateMachine)
    ensures
        final(state_machine)@ == old(state_machine)@.reset(),
        final(state_machine)@.in_flight_ok(),
{
    state_machine.reset();

    // a write lasts one cycle, whatever ends it
    state_machine.pin_state.rwb = true;
    state_machine.pin_state.address_bus = 0xfffc;
    state_machine.planned_executions.push_back(MicroOp::LatchVectorLow);
    state_machine.planned_executions.push_back(MicroOp::LatchVectorHigh);
    assert(state_machine.planned_executions@ =~= seq![
        MicroOp::LatchVectorLow,
        MicroOp::LatchVectorHigh,
    ]);
}

fn set_pc_and_address_it(state_machine: &mut StateMachine, new_pc: u16)
    ensures
        final(state_machine)@ == old(state_machine)@.set_pc_and_address_it(new_pc),
{
    state_machine.cpu_state.pc = new_pc;
    state_machine.pin_state.address_bus = state_machine.cpu_state.pc;
}

fn inc_pc_and_address_it(state_machine: &mut StateMachine) -> (overflow: bool)
    ensures
        final(state_machine)@ == old(state_machine)@.inc_pc_and_address_it(),
        overflow == old(state_machine)@.pc_at_end(),
{
    let overflow = inc_pc(state_machine);
    state_machine.pin_state.address_bus = state_machine.cpu_state.pc;
    overflow
}

/// Increments the program counter and says whether it went past `0xFFFF`,
/// to zero.
fn inc_pc(state_machine: &mut StateMachine) -> (overflow: bool)
    ensures
        final(state_machine)@ == old(state_machine)@.inc_pc(),
        overflow == old(state_machine)@.pc_at_end(),
{
    if state_machine.cpu_state.pc < u16::MAX {
        state_machine.cpu_state.pc += 1;
        false
    } else {
        state_machine.cpu_state.pc = 0;
        true
    }
}

} // verus!
