use crate::console::components::bus::spec_bus_input;
use crate::console::components::bus::BusModel;
use crate::console::components::cpu::spec_cpu_reset;
use crate::console::components::ram::spec_ram_zeroed;
use crate::console::components::rom::spec_rom_of;
use crate::console::lemma_step_cycles_bounded;
use crate::console::spec_console_step;
use crate::console::spec_step_cycles_sum;
use crate::console::spec_step_n;
use crate::console::Console;
use crate::console::step::ConsoleStep;
use crate::debugger::spec_has_breakpoint;
use crate::debugger::Debugger;
use crate::emulator::command::EmulatorCommand;
use crate::emulator::event::EmulatorEvent;
use crate::emulator::state::EmulatorState;
use vstd::prelude::*;

verus! {

/// Pacing target installed on start-up, in cycles per second.
pub const DEFAULT_CYCLES_PER_SECOND: u64 = 600000000;

/// Worker frames per second of wall time.
pub const FRAMES_PER_SECOND: u64 = 60;

/// What the worker must do after handling one command: stop its loop,
/// and/or emit an event to the consumer.
pub struct CommandOutcome {
    pub shutdown: bool,
    pub event: Option<EmulatorEvent>,
}

/// The worker's decision state: the console it owns, the debugger, the run
/// flags and the pacing bookkeeping. The surrounding loop — polling the
/// command queue, publishing snapshots under a try-lock, and sleeping out
/// the frame — performs these decisions' outcomes.
pub struct EmulatorThreadContext {
    pub console: Console,
    pub debugger: Debugger,
    pub running: bool,
    pub halt: bool,
    pub cycles_per_second: u64,
    pub last_frame_micros: u64,
    pub last_frame_cycles: u64,
}

impl EmulatorThreadContext {
    /// The console's stores are full-size, the breakpoint set holds no
    /// duplicates, and the cycle accumulator is drained between steps.
    pub open spec fn wf(&self) -> bool {
        self.console.wf() && self.debugger.wf() && self.console@.bus.cycles == 0
    }

    pub fn new(console: Console, debugger: Debugger) -> (r: Self)
        requires
            console.wf(),
            debugger.wf(),
            console@.bus.cycles == 0,
        ensures
            r.wf(),
            r.console@ == console@,
            r.debugger.breakpoints@ == debugger.breakpoints@,
            !r.running,
            !r.halt,
            r.cycles_per_second == DEFAULT_CYCLES_PER_SECOND,
            r.last_frame_micros == 0,
            r.last_frame_cycles == 0,
    {
        Self {
            console,
            debugger,
            running: false,
            halt: false,
            cycles_per_second: DEFAULT_CYCLES_PER_SECOND,
            last_frame_micros: 0,
            last_frame_cycles: 0,
        }
    }

    /// Marks the console halted and pauses the run loop.
    fn halt_now(&mut self)
        ensures
            *final(self) == (EmulatorThreadContext { halt: true, running: false, ..*old(self) }),
    {
        self.halt = true;
        self.running = false;
    }

    /// One worker step: steps the console, latches a raised HALT, and
    /// pauses when the new PC sits on a breakpoint.
    pub fn step(&mut self) -> (r: ConsoleStep)
        requires
            old(self).wf(),
        ensures
            final(self).wf(),
            ({
                let (c2, cycles, halted) = spec_console_step(old(self).console@);
                let bp = spec_has_breakpoint(old(self).debugger.breakpoints@, c2.cpu.pc@);
                final(self).console@ == c2 && r.cycles == cycles && r.cpu_step_flags.halt == halted
                    && final(self).halt == (old(self).halt || halted) && final(self).running == (
                old(self).running && !halted && !bp) && final(self).debugger.breakpoints@ == old(
                    self,
                ).debugger.breakpoints@ && final(self).cycles_per_second == old(
                    self,
                ).cycles_per_second && final(self).last_frame_micros == old(self).last_frame_micros
                    && final(self).last_frame_cycles == old(self).last_frame_cycles
            }),
    {
        let step = self.console.step();
        if step.cpu_step_flags.is_halt() {
            self.halt_now();
        }
        let events = self.debugger.inspect(&self.console);
        if events.len() > 0 {
            self.running = false;
        }
        step
    }

    /// One frame's worth of stepping: runs the console until the frame's
    /// cycle budget — the pacing target divided over the frames of a
    /// second — is consumed, a step halts, or the run flag clears; returns
    /// exactly the cycles the steps of this frame consumed.
    #[verifier::rlimit(100)]
    #[verifier::spinoff_prover]
    pub fn run_frame(&mut self) -> (r: u64)
        requires
            old(self).wf(),
        ensures
            final(self).wf(),
            exists|n: nat|
                final(self).console@ == #[trigger] spec_step_n(old(self).console@, n) && r
                    == spec_step_cycles_sum(old(self).console@, n),
            r >= old(self).cycles_per_second / FRAMES_PER_SECOND || final(self).halt
                || !final(self).running,
            final(self).debugger.breakpoints@ == old(self).debugger.breakpoints@,
            final(self).cycles_per_second == old(self).cycles_per_second,
            final(self).last_frame_micros == old(self).last_frame_micros,
            final(self).last_frame_cycles == old(self).last_frame_cycles,
            old(self).halt ==> final(self).halt,
            !old(self).running ==> !final(self).running,
    {
        let cycles_per_frame = self.cycles_per_second / FRAMES_PER_SECOND;
        let mut cycles: u64 = 0;
        let ghost orig = self.console@;
        let ghost mut steps: nat = 0;
        proof {
            assert(self.console@ == spec_step_n(orig, 0));
        }
        while cycles < cycles_per_frame
            invariant_except_break
                self.wf(),
                cycles <= cycles_per_frame + 7,
                cycles_per_frame == old(self).cycles_per_second / FRAMES_PER_SECOND,
                self.console@ == spec_step_n(orig, steps),
                cycles == spec_step_cycles_sum(orig, steps),
                self.debugger.breakpoints@ == old(self).debugger.breakpoints@,
                self.cycles_per_second == old(self).cycles_per_second,
                self.last_frame_micros == old(self).last_frame_micros,
                self.last_frame_cycles == old(self).last_frame_cycles,
                old(self).halt ==> self.halt,
                !old(self).running ==> !self.running,
            ensures
                self.wf(),
                self.console@ == spec_step_n(orig, steps),
                cycles == spec_step_cycles_sum(orig, steps),
                cycles >= cycles_per_frame || self.halt || !self.running,
                cycles_per_frame == old(self).cycles_per_second / FRAMES_PER_SECOND,
                self.debugger.breakpoints@ == old(self).debugger.breakpoints@,
                self.cycles_per_second == old(self).cycles_per_second,
                self.last_frame_micros == old(self).last_frame_micros,
                self.last_frame_cycles == old(self).last_frame_cycles,
                old(self).halt ==> self.halt,
                !old(self).running ==> !self.running,
            decreases cycles_per_frame + 8 - cycles,
        {
            if self.halt || !self.running {
                break ;
            }
            proof {
                lemma_step_cycles_bounded(self.console@);
            }
            let step = self.step();
            proof {
                steps = steps + 1;
                assert(spec_step_n(orig, steps) == spec_console_step(
                    spec_step_n(orig, (steps - 1) as nat),
                ).0);
                assert(spec_step_cycles_sum(orig, steps) == spec_step_cycles_sum(
                    orig,
                    (steps - 1) as nat,
                ) + spec_console_step(spec_step_n(orig, (steps - 1) as nat)).1);
                assert(self.console@ == spec_step_n(orig, steps));
                assert(1 <= step.cycles <= 8);
            }
            cycles = cycles + step.cycles;
        }
        cycles
    }

    /// Handles one operator command; the returned outcome tells the
    /// surrounding loop whether to stop and which event to emit.
    #[verifier::rlimit(100)]
    pub fn handle_command(&mut self, command: EmulatorCommand) -> (r: CommandOutcome)
        requires
            old(self).wf(),
        ensures
            final(self).wf(),
            final(self).last_frame_micros == old(self).last_frame_micros,
            final(self).last_frame_cycles == old(self).last_frame_cycles,
            ({
                match command {
                    EmulatorCommand::Load(cartridge) => {
                        &&& !final(self).running
                        &&& !final(self).halt
                        &&& !r.shutdown
                        &&& final(self).cycles_per_second == old(self).cycles_per_second
                        &&& final(self).debugger.breakpoints@ == old(self).debugger.breakpoints@
                        &&& cartridge.binary@.len() <= 0x8000 ==> (final(self).console@.cpu
                            == spec_cpu_reset() && final(self).console@.bus == (BusModel {
                            rom: spec_rom_of(cartridge.binary@),
                            ram: spec_ram_zeroed(),
                            cycles: 0,
                            ..old(self).console@.bus
                        }) && (r.event matches Some(e) && e is CartridgeLoadSuccess))
                        &&& cartridge.binary@.len() > 0x8000 ==> (final(self).console@ == old(
                            self,
                        ).console@ && (r.event matches Some(e) && e is CartridgeLoadFailed))
                    },
                    EmulatorCommand::Reset => {
                        &&& !final(self).running
                        &&& !final(self).halt
                        &&& !r.shutdown
                        &&& r.event is None
                        &&& final(self).cycles_per_second == old(self).cycles_per_second
                        &&& final(self).debugger.breakpoints@ == old(self).debugger.breakpoints@
                        &&& final(self).console@.cpu == spec_cpu_reset()
                        &&& final(self).console@.bus == (BusModel {
                            ram: spec_ram_zeroed(),
                            ..old(self).console@.bus
                        })
                    },
                    EmulatorCommand::Run => {
                        &&& *final(self) == (EmulatorThreadContext {
                            running: true,
                            ..*old(self)
                        })
                        &&& !r.shutdown
                        &&& r.event is None
                    },
                    EmulatorCommand::Pause => {
                        &&& *final(self) == (EmulatorThreadContext {
                            running: false,
                            ..*old(self)
                        })
                        &&& !r.shutdown
                        &&& r.event is None
                    },
                    EmulatorCommand::Shutdown => {
                        &&& *final(self) == *old(self)
                        &&& r.shutdown
                        &&& r.event is None
                    },
                    EmulatorCommand::Step => {
                        &&& !r.shutdown
                        &&& r.event is None
                        &&& final(self).cycles_per_second == old(self).cycles_per_second
                        &&& final(self).debugger.breakpoints@ == old(self).debugger.breakpoints@
                        &&& (!old(self).running && !old(self).halt) ==> ({
                            let (c2, cycles, halted) = spec_console_step(old(self).console@);
                            let bp = spec_has_breakpoint(
                                old(self).debugger.breakpoints@,
                                c2.cpu.pc@,
                            );
                            final(self).console@ == c2 && final(self).halt == halted
                                && !final(self).running
                        })
                        &&& (old(self).running || old(self).halt) ==> *final(self) == *old(self)
                    },
                    EmulatorCommand::Input(input) => {
                        &&& !r.shutdown
                        &&& r.event is None
                        &&& final(self).console@.cpu == old(self).console@.cpu
                        &&& final(self).console@.bus == spec_bus_input(
                            old(self).console@.bus,
                            input,
                        )
                        &&& final(self).running == old(self).running
                        &&& final(self).halt == old(self).halt
                        &&& final(self).cycles_per_second == old(self).cycles_per_second
                        &&& final(self).debugger.breakpoints@ == old(self).debugger.breakpoints@
                    },
                    EmulatorCommand::SetClockSpeed(cycles_per_second) => {
                        &&& *final(self) == (EmulatorThreadContext {
                            cycles_per_second,
                            ..*old(self)
                        })
                        &&& !r.shutdown
                        &&& r.event is None
                    },
                    EmulatorCommand::SetBreakpoint(address) => {
                        &&& !r.shutdown
                        &&& r.event is None
                        &&& final(self).console@ == old(self).console@
                        &&& final(self).running == old(self).running
                        &&& final(self).halt == old(self).halt
                        &&& final(self).cycles_per_second == old(self).cycles_per_second
                        &&& spec_has_breakpoint(final(self).debugger.breakpoints@, address@)
                        &&& forall|a: u16|
                            a != address@ ==> spec_has_breakpoint(
                                final(self).debugger.breakpoints@,
                                a,
                            ) == spec_has_breakpoint(old(self).debugger.breakpoints@, a)
                    },
                    EmulatorCommand::RemoveBreakpoint(address) => {
                        &&& !r.shutdown
                        &&& r.event is None
                        &&& final(self).console@ == old(self).console@
                        &&& final(self).running == old(self).running
                        &&& final(self).halt == old(self).halt
                        &&& final(self).cycles_per_second == old(self).cycles_per_second
                        &&& !spec_has_breakpoint(final(self).debugger.breakpoints@, address@)
                        &&& forall|a: u16|
                            a != address@ ==> spec_has_breakpoint(
                                final(self).debugger.breakpoints@,
                                a,
                            ) == spec_has_breakpoint(old(self).debugger.breakpoints@, a)
                    },
                }
            }),
    {
        match command {
            EmulatorCommand::Load(cartridge) => {
                self.running = false;
                self.halt = false;
                match self.console.load_cartridge(*cartridge) {
                    Ok(_) => CommandOutcome {
                        shutdown: false,
                        event: Some(EmulatorEvent::CartridgeLoadSuccess),
                    },
                    Err(_) => CommandOutcome {
                        shutdown: false,
                        event: Some(EmulatorEvent::CartridgeLoadFailed),
                    },
                }
            },
            EmulatorCommand::Reset => {
                self.running = false;
                self.halt = false;
                self.console.reset();
                CommandOutcome { shutdown: false, event: None }
            },
            EmulatorCommand::Run => {
                self.running = true;
                CommandOutcome { shutdown: false, event: None }
            },
            EmulatorCommand::Pause => {
                self.running = false;
                CommandOutcome { shutdown: false, event: None }
            },
            EmulatorCommand::Shutdown => CommandOutcome { shutdown: true, event: None },
            EmulatorCommand::Step => {
                if !self.running && !self.halt {
                    self.step();
                }
                CommandOutcome { shutdown: false, event: None }
            },
            EmulatorCommand::Input(input) => {
                self.console.bus.input(input);
                CommandOutcome { shutdown: false, event: None }
            },
            EmulatorCommand::SetClockSpeed(cycles_per_second) => {
                self.cycles_per_second = cycles_per_second;
                CommandOutcome { shutdown: false, event: None }
            },
            EmulatorCommand::SetBreakpoint(address) => {
                self.debugger.set_breakpoint(address);
                CommandOutcome { shutdown: false, event: None }
            },
            EmulatorCommand::RemoveBreakpoint(address) => {
                self.debugger.remove_breakpoint(address);
                CommandOutcome { shutdown: false, event: None }
            },
        }
    }

    /// The snapshot of the current state, for the per-frame publication to
    /// the shared cell.
    pub fn snapshot(&self) -> (r: EmulatorState)
        ensures
            r.cpu_snapshot == self.console@.cpu,
            r.is_running == self.running,
            r.is_halting == self.halt,
            r.cycles_per_second == self.cycles_per_second,
            r.last_frame_micros == self.last_frame_micros,
            r.last_frame_cycles == self.last_frame_cycles,
            r.breakpoints@ == self.debugger.breakpoints@,
    {
        EmulatorState {
            cpu_snapshot: self.console.cpu,
            is_running: self.running,
            is_halting: self.halt,
            cycles_per_second: self.cycles_per_second,
            last_frame_micros: self.last_frame_micros,
            last_frame_cycles: self.last_frame_cycles,
            breakpoints: self.debugger.breakpoints.clone(),
        }
    }
}

} // verus!
