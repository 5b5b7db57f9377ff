//! The engine: the tick loop's decisions as a state machine over the
//! machine model. One tick refreshes the key snapshot, honours a quit
//! signal, decrements the timers at the configured cadence, and — while
//! RUNNING — fetches, decodes and executes at most one instruction,
//! reporting what the display and audio collaborators should do next.
//!
//! The host loop around this (polling the keyboard, painting the grid,
//! starting and stopping the tone) lives outside the engine and hands in
//! plain values.
use vstd::prelude::*;

use crate::decoder::decode;
use crate::decoder::spec_classify;
use crate::decoder::Op;
use crate::executor::step_spec;
use crate::executor::Fault;
use crate::executor::Flow;
use crate::machine::spec_reset;
use crate::machine::Machine;
use crate::machine::MachineSnap;
use crate::ram::LoadError;
use crate::KEY_COUNT;
use crate::PROGRAM_START;
use crate::RAM_SIZE;

verus! {

/// Where the engine stands in its run.
#[derive(Clone, Copy, PartialEq, Eq, Structural, Debug)]
pub enum RunState {
    /// Executing one instruction per tick.
    Running,
    /// Holding instruction progression until a key press arrives, which is
    /// then loaded into Vx.
    AwaitingKey { x: u8 },
    /// Finished: no further instruction ever executes.
    Stopped,
}

/// What the keyboard collaborator reports when polled: the current state
/// of the sixteen logical keys and whether the user asked to quit.
#[derive(Clone, Debug)]
pub struct KeyPoll {
    pub quit: bool,
    pub keys: Vec<bool>,
}

/// What one tick asks of the external collaborators.
#[derive(Clone, Copy, PartialEq, Eq, Debug)]
pub struct TickReport {
    /// Whether the engine is still live after this tick.
    pub running: bool,
    /// Whether the display collaborator should repaint the grid.
    pub redraw: bool,
    /// Whether the audio collaborator should play the tone.
    pub beep: bool,
    /// The fatal condition that stopped the engine this tick, if any.
    pub fault: Option<Fault>,
    /// The raw word of an unrecognized opcode executed as a no-op this
    /// tick under the lenient policy, for a diagnostic.
    pub unknown: Option<(u8, u8)>,
}

/// Mathematical model of the engine: the machine model plus the run state
/// and the tick configuration.
pub ghost struct EngineSnap {
    pub m: MachineSnap,
    pub state: RunState,
    pub strict_unknown: bool,
    pub halt_on_zero: bool,
    pub ticks_per_timer: u32,
    pub tick_count: u32,
}

impl EngineSnap {
    /// Dimensions and configuration bounds every reachable engine keeps.
    pub open spec fn wf(&self) -> bool {
        &&& self.m.wf()
        &&& self.ticks_per_timer >= 1
        &&& self.tick_count < self.ticks_per_timer
        &&& (self.state matches RunState::AwaitingKey { x } ==> x < 16)
    }
}

/// One countdown-timer step: down by exactly 1 while above zero, never
/// below zero.
pub open spec fn dec_timer(t: u8) -> u8 {
    if t > 0 {
        (t - 1) as u8
    } else {
        0
    }
}

/// The lowest-numbered pressed key at or above index `k`, if any.
pub open spec fn first_key_from(keys: Seq<bool>, k: int) -> Option<u8>
    decreases KEY_COUNT - k,
{
    if k < 0 || k >= KEY_COUNT {
        None
    } else if keys[k] {
        Some(k as u8)
    } else {
        first_key_from(keys, k + 1)
    }
}

/// The lowest-numbered pressed key, if any.
pub open spec fn first_key(keys: Seq<bool>) -> Option<u8> {
    first_key_from(keys, 0)
}

/// The report of a tick on a stopped engine: nothing to do.
pub open spec fn report_idle() -> TickReport {
    TickReport { running: false, redraw: false, beep: false, fault: None, unknown: None }
}

/// The report of a tick that stopped the engine normally (quit signal or
/// sentinel halt).
pub open spec fn report_stopping() -> TickReport {
    TickReport { running: false, redraw: false, beep: false, fault: None, unknown: None }
}

/// The report of a tick that stopped the engine on a fatal condition.
pub open spec fn report_fault(f: Fault) -> TickReport {
    TickReport { running: false, redraw: false, beep: false, fault: Some(f), unknown: None }
}

/// The engine after the timer phase: the cadence counter advances, and on
/// every `ticks_per_timer`-th tick both timers count down.
pub open spec fn timer_phase(e: EngineSnap) -> EngineSnap {
    if e.tick_count + 1 >= e.ticks_per_timer {
        EngineSnap {
            tick_count: 0,
            m: MachineSnap {
                delay_timer: dec_timer(e.m.delay_timer),
                sound_timer: dec_timer(e.m.sound_timer),
                ..e.m
            },
            ..e
        }
    } else {
        EngineSnap { tick_count: (e.tick_count + 1) as u32, ..e }
    }
}

/// The AWAITING_KEY phase: no fetch, no execution. Once a pressed key is
/// observed, its code completes the pending load and the engine resumes.
pub open spec fn await_phase(e: EngineSnap, x: u8) -> (EngineSnap, TickReport) {
    let held = TickReport {
        running: true,
        redraw: false,
        beep: e.m.sound_timer > 0,
        fault: None,
        unknown: None,
    };
    match first_key(e.m.keys) {
        Some(k) => (
            EngineSnap {
                m: MachineSnap { v: e.m.v.update(x as int, k), ..e.m },
                state: RunState::Running,
                ..e
            },
            held,
        ),
        None => (e, held),
    }
}

/// The RUNNING phase: fetch the word at PC (a PC without a whole
/// instruction inside memory is fatal), honour the sentinel-halt and
/// strict-opcode policies, and execute.
pub open spec fn run_phase(e: EngineSnap, rand: u8) -> (EngineSnap, TickReport) {
    let m = e.m;
    if m.pc + 1 >= RAM_SIZE {
        (
            EngineSnap { state: RunState::Stopped, ..e },
            report_fault(Fault::PcOutOfRange { pc: m.pc }),
        )
    } else {
        let b1 = m.ram[m.pc as int];
        let b2 = m.ram[m.pc + 1];
        if e.halt_on_zero && b1 == 0 && b2 == 0 {
            (EngineSnap { state: RunState::Stopped, ..e }, report_stopping())
        } else {
            let op = spec_classify(b1, b2);
            if (op matches Op::Unknown { .. }) && e.strict_unknown {
                (
                    EngineSnap { state: RunState::Stopped, ..e },
                    report_fault(Fault::UnknownOpcode { pc: m.pc, byte1: b1, byte2: b2 }),
                )
            } else {
                match step_spec(m, op, rand) {
                    Err(f) => (EngineSnap { state: RunState::Stopped, ..e }, report_fault(f)),
                    Ok((m2, flow)) => (
                        EngineSnap {
                            m: m2,
                            state: match flow {
                                Flow::Next => RunState::Running,
                                Flow::AwaitKey { x } => RunState::AwaitingKey { x },
                            },
                            ..e
                        },
                        TickReport {
                            running: true,
                            redraw: true,
                            beep: m2.sound_timer > 0,
                            fault: None,
                            unknown: if op matches Op::Unknown { .. } {
                                Some((b1, b2))
                            } else {
                                None
                            },
                        },
                    ),
                }
            }
        }
    }
}

/// One whole tick, in the fixed documented order: refresh the key
/// snapshot; stop on a quit signal; advance the timers at their cadence;
/// then, by state, hold for a key or fetch-decode-execute one instruction.
pub open spec fn tick_spec(e: EngineSnap, quit: bool, keys: Seq<bool>, rand: u8) -> (
    EngineSnap,
    TickReport,
) {
    if e.state is Stopped {
        (e, report_idle())
    } else {
        let e1 = EngineSnap { m: MachineSnap { keys, ..e.m }, ..e };
        if quit {
            (EngineSnap { state: RunState::Stopped, ..e1 }, report_stopping())
        } else {
            let e2 = timer_phase(e1);
            match e2.state {
                RunState::AwaitingKey { x } => await_phase(e2, x),
                _ => run_phase(e2, rand),
            }
        }
    }
}

/// The engine around one machine. Collaborator-facing work (rendering,
/// tone, key polling) stays outside; the engine only records what those
/// collaborators should do.
pub struct Engine {
    pub machine: Machine,
    pub state: RunState,
    /// Whether an unrecognized opcode is fatal (strict) or a diagnosed
    /// no-op (lenient).
    pub strict_unknown: bool,
    /// Whether an all-zero instruction word halts the engine. This
    /// sentinel is an extension beyond the minimal opcode semantics, there
    /// to keep a run from walking into uninitialized memory.
    pub halt_on_zero: bool,
    /// Instruction ticks per timer tick; the two cadences are independent
    /// configuration inputs.
    pub ticks_per_timer: u32,
    /// Ticks counted since the timers last moved.
    pub tick_count: u32,
}

impl View for Engine {
    type V = EngineSnap;

    open spec fn view(&self) -> EngineSnap {
        EngineSnap {
            m: self.machine@,
            state: self.state,
            strict_unknown: self.strict_unknown,
            halt_on_zero: self.halt_on_zero,
            ticks_per_timer: self.ticks_per_timer,
            tick_count: self.tick_count,
        }
    }
}

/// Relies on rand::random: a value drawn from the thread-local generator.
/// Nothing is promised of it; every caller states what holds of any byte.
pub assume_specification<T>[ rand::random::<T> ]() -> (r: T)
    where
        rand::distributions::Standard: rand::distributions::Distribution<T>,
;

impl Engine {
    /// Components in shape, cadence configuration sound, and any pending
    /// key load aimed at a real register.
    pub open spec fn wf(&self) -> bool {
        &&& self.machine.wf()
        &&& self.ticks_per_timer >= 1
        &&& self.tick_count < self.ticks_per_timer
        &&& (self.state matches RunState::AwaitingKey { x } ==> x < 16)
    }

    /// An engine around a freshly reset machine holding the given program
    /// image. Fails if and only if the image does not fit in memory.
    pub fn new(
        rom: &Vec<u8>,
        ticks_per_timer: u32,
        strict_unknown: bool,
        halt_on_zero: bool,
    ) -> (result: Result<Engine, LoadError>)
        requires
            ticks_per_timer >= 1,
        ensures
            match result {
                Ok(e) => {
                    &&& rom@.len() <= RAM_SIZE - PROGRAM_START
                    &&& e.wf()
                    &&& e@ == (EngineSnap {
                        m: spec_reset(rom@),
                        state: RunState::Running,
                        strict_unknown,
                        halt_on_zero,
                        ticks_per_timer,
                        tick_count: 0u32,
                    })
                },
                Err(err) => err == LoadError::ImageTooLarge && rom@.len() > RAM_SIZE
                    - PROGRAM_START,
            },
    {
        let machine = match Machine::with_image(rom) {
            Ok(m) => m,
            Err(err) => {
                return Err(err);
            },
        };
        Ok(
            Engine {
                machine,
                state: RunState::Running,
                strict_unknown,
                halt_on_zero,
                ticks_per_timer,
                tick_count: 0,
            },
        )
    }

    /// One tick with the randomness source already drawn: fully
    /// deterministic, the substitutable form the tests drive.
    pub fn tick_with(&mut self, poll: KeyPoll, rand: u8) -> (r: TickReport)
        requires
            old(self).wf(),
            poll.keys@.len() == KEY_COUNT,
        ensures
            final(self).wf(),
            (final(self)@, r) == tick_spec(old(self)@, poll.quit, poll.keys@, rand),
    {
        match self.state {
            RunState::Stopped => {
                return TickReport {
                    running: false,
                    redraw: false,
                    beep: false,
                    fault: None,
                    unknown: None,
                };
            },
            _ => {},
        }
        self.machine.keys = poll.keys;
        if poll.quit {
            self.state = RunState::Stopped;
            return TickReport {
                running: false,
                redraw: false,
                beep: false,
                fault: None,
                unknown: None,
            };
        }
        if self.tick_count + 1 >= self.ticks_per_timer {
            self.tick_count = 0;
            if self.machine.regs.delay_timer >= 1 {
                self.machine.regs.delay_timer = self.machine.regs.delay_timer - 1;
            }
            if self.machine.regs.sound_timer >= 1 {
                self.machine.regs.sound_timer = self.machine.regs.sound_timer - 1;
            }
        } else {
            self.tick_count = self.tick_count + 1;
        }
        let state_now = self.state;
        match state_now {
            RunState::AwaitingKey { x } => self.tick_awaiting(x),
            _ => self.tick_running(rand),
        }
    }

    /// One tick, drawing the random byte the RND opcode consumes from the
    /// process-wide randomness source. Whatever byte came back, the tick
    /// behaves as `tick_spec` says for that byte.
    pub fn tick(&mut self, poll: KeyPoll) -> (r: TickReport)
        requires
            old(self).wf(),
            poll.keys@.len() == KEY_COUNT,
        ensures
            final(self).wf(),
            exists|rand: u8| (final(self)@, r) == tick_spec(old(self)@, poll.quit, poll.keys@, rand),
    {
        let rand: u8 = rand::random();
        let r = self.tick_with(poll, rand);
        r
    }

    /// The held state: refresh and timers already done, no fetch and no
    /// execution; complete the pending load if a key is pressed.
    fn tick_awaiting(&mut self, x: u8) -> (r: TickReport)
        requires
            old(self).wf(),
            old(self).state == (RunState::AwaitingKey { x }),
        ensures
            final(self).wf(),
            (final(self)@, r) == await_phase(old(self)@, x),
    {
        let pressed = self.first_pressed_key();
        match pressed {
            Some(k) => {
                self.machine.regs.v[x as usize] = k;
                self.state = RunState::Running;
            },
            None => {},
        }
        let beep = self.machine.regs.sound_timer > 0;
        TickReport { running: true, redraw: false, beep, fault: None, unknown: None }
    }

    /// The running state: fetch the word at PC, apply the sentinel and
    /// strict-opcode policies, execute one instruction.
    fn tick_running(&mut self, rand: u8) -> (r: TickReport)
        requires
            old(self).wf(),
            old(self).state == RunState::Running,
        ensures
            final(self).wf(),
            (final(self)@, r) == run_phase(old(self)@, rand),
    {
        let pc = self.machine.regs.pc;
        if pc as usize + 1 >= RAM_SIZE {
            self.state = RunState::Stopped;
            return TickReport {
                running: false,
                redraw: false,
                beep: false,
                fault: Some(Fault::PcOutOfRange { pc }),
                unknown: None,
            };
        }
        let b1 = self.machine.ram.read(pc as usize);
        let b2 = self.machine.ram.read(pc as usize + 1);
        if self.halt_on_zero && b1 == 0 && b2 == 0 {
            self.state = RunState::Stopped;
            return TickReport {
                running: false,
                redraw: false,
                beep: false,
                fault: None,
                unknown: None,
            };
        }
        let op = decode(b1, b2);
        let mut unknown: Option<(u8, u8)> = None;
        match op {
            Op::Unknown { .. } => {
                if self.strict_unknown {
                    self.state = RunState::Stopped;
                    return TickReport {
                        running: false,
                        redraw: false,
                        beep: false,
                        fault: Some(Fault::UnknownOpcode { pc, byte1: b1, byte2: b2 }),
                        unknown: None,
                    };
                }
                unknown = Some((b1, b2));
            },
            _ => {},
        }
        match self.machine.execute(op, rand) {
            Err(f) => {
                self.state = RunState::Stopped;
                TickReport {
                    running: false,
                    redraw: false,
                    beep: false,
                    fault: Some(f),
                    unknown: None,
                }
            },
            Ok(flow) => {
                match flow {
                    Flow::Next => {
                        self.state = RunState::Running;
                    },
                    Flow::AwaitKey { x } => {
                        self.state = RunState::AwaitingKey { x };
                    },
                }
                let beep = self.machine.regs.sound_timer > 0;
                TickReport { running: true, redraw: true, beep, fault: None, unknown }
            },
        }
    }

    /// The lowest-numbered key currently pressed, if any.
    fn first_pressed_key(&self) -> (r: Option<u8>)
        requires
            self.wf(),
        ensures
            r == first_key(self.machine@.keys),
    {
        let mut k: usize = 0;
        while k < KEY_COUNT
            invariant
                k <= KEY_COUNT,
                self.wf(),
                first_key(self.machine@.keys) == first_key_from(self.machine@.keys, k as int),
            decreases KEY_COUNT - k,
        {
            if self.machine.keys[k] {
                return Some(k as u8);
            }
            k = k + 1;
        }
        None
    }
}

} // verus!
