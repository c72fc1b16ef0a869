//! The frame loop: instructions run against a budget of cycles per frame,
//! and an interrupt is requested each time half a frame of cycles has
//! gone by, on vector 1 and vector 2 in turn.

use vstd::prelude::*;
use crate::cycles::{instr_cycles, lemma_cycles_bounds};
use crate::flags::wrap16;
use crate::isa::{decode, implemented};
use crate::machine::Machine;
use crate::state8080::{emulate_8080_op, generate_interrupt, is_implemented, State8080};
use crate::trace::{keep_last, Trace, TraceEntry};

verus! {

/// Cycles in one frame: a 2 MHz clock at 60 frames per second.
pub const CYCLES_PER_FRAME: u32 = 33_333;

/// Cycles between two interrupt requests: half a frame.
pub const INTERRUPT_PERIOD: u32 = 16_667;

/// The interrupt schedule: the cycles run since the last request, and
/// which vector is next.
#[derive(Clone, Copy, Debug, PartialEq, Eq, Structural)]
pub struct Scheduler {
    /// Cycles run since the last interrupt request.
    pub total_cycles: u32,
    /// Whether the next request is for vector 2 (end of screen) rather
    /// than vector 1 (middle of screen).
    pub swap_interrupt: bool,
}

/// How a frame ended.
#[derive(Clone, Copy, Debug, PartialEq, Eq, Structural)]
pub enum FrameEnd {
    /// The budget of cycles was used up; holds the cycles that the frame
    /// ran, which exceed the budget by less than one instruction.
    Complete(u32),
    /// PC came to an opcode that the interpreter does not execute.
    Unimplemented(u8),
}

/// Everything that a frame changes, with the cycles it has used so far.
pub struct Frame {
    pub machine: Machine,
    pub scheduler: Scheduler,
    pub trace: Seq<TraceEntry>,
    pub executed: int,
}

impl Scheduler {
    /// The accumulator is within one interrupt period.
    pub open spec fn wf(&self) -> bool {
        self.total_cycles <= INTERRUPT_PERIOD
    }

    /// The vector of the next interrupt request.
    pub open spec fn vector(&self) -> u8 {
        if self.swap_interrupt {
            2
        } else {
            1
        }
    }

    /// A schedule that starts at zero cycles with vector 1.
    pub fn new() -> (scheduler: Scheduler)
        ensures
            scheduler == (Scheduler { total_cycles: 0, swap_interrupt: false }),
            scheduler.wf(),
    {
        Scheduler { total_cycles: 0, swap_interrupt: false }
    }
}

impl Frame {
    /// Whether the frame is over: the budget is used up, or the next
    /// opcode is one that the interpreter does not execute.
    pub open spec fn done(self) -> bool {
        self.executed >= CYCLES_PER_FRAME || !implemented(self.machine.opcode())
    }

    /// The trace entry of the instruction at PC.
    pub open spec fn entry(self) -> TraceEntry {
        let m = self.machine;
        TraceEntry {
            pc: m.pc,
            opcode: m.opcode(),
            lo: m.read(wrap16(m.pc + 1)),
            hi: m.read(wrap16(m.pc + 2)),
            frame_cycles: self.executed as u16,
        }
    }

    /// One instruction of a frame. The instruction is traced and run and
    /// its cycles are counted. If the cycles since the last interrupt
    /// request then exceed `INTERRUPT_PERIOD`, the next vector is
    /// requested, the vectors change places and the count starts again at
    /// zero.
    pub open spec fn tick(self) -> Frame {
        let cost = instr_cycles(decode(self.machine.opcode()));
        let stepped = self.machine.step();
        let total = self.scheduler.total_cycles + cost;
        if total > INTERRUPT_PERIOD {
            Frame {
                machine: stepped.interrupt(self.scheduler.vector()),
                scheduler: Scheduler {
                    total_cycles: 0,
                    swap_interrupt: !self.scheduler.swap_interrupt,
                },
                trace: keep_last(self.trace.push(self.entry())),
                executed: self.executed + cost,
            }
        } else {
            Frame {
                machine: stepped,
                scheduler: Scheduler { total_cycles: total as u32, ..self.scheduler },
                trace: keep_last(self.trace.push(self.entry())),
                executed: self.executed + cost,
            }
        }
    }

    /// The frame run to its end.
    pub open spec fn run(self) -> Frame
        decreases CYCLES_PER_FRAME + 18 - self.executed,
    {
        if self.done() {
            self
        } else {
            proof {
                lemma_cycles_bounds(decode(self.machine.opcode()));
            }
            self.tick().run()
        }
    }
}

/// Runs one frame: instructions until `CYCLES_PER_FRAME` cycles are used
/// up, with the interrupt requests that fall due between them. Stops
/// early, before the instruction, at an opcode that the interpreter does
/// not execute.
pub fn run_frame(state: &mut State8080, scheduler: &mut Scheduler, trace: &mut Trace) -> (end:
    FrameEnd)
    requires
        old(state).wf(),
        old(scheduler).wf(),
        old(trace).wf(),
    ensures
        final(state).wf(),
        final(scheduler).wf(),
        final(trace).wf(),
        ({
            let last = (Frame {
                machine: old(state)@,
                scheduler: *old(scheduler),
                trace: old(trace)@,
                executed: 0,
            }).run();
            &&& final(state)@ == last.machine
            &&& *final(scheduler) == last.scheduler
            &&& final(trace)@ == last.trace
            &&& end == (if last.executed >= CYCLES_PER_FRAME {
                FrameEnd::Complete(last.executed as u32)
            } else {
                FrameEnd::Unimplemented(last.machine.opcode())
            })
        }),
{
    let ghost first = Frame {
        machine: state@,
        scheduler: *scheduler,
        trace: trace@,
        executed: 0,
    };
    let mut cycles_executed: u32 = 0;
    while cycles_executed < CYCLES_PER_FRAME
        invariant
            state.wf(),
            scheduler.wf(),
            trace.wf(),
            cycles_executed < CYCLES_PER_FRAME + 18,
            first == (Frame {
                machine: old(state)@,
                scheduler: *old(scheduler),
                trace: old(trace)@,
                executed: 0,
            }),
            first.run() == (Frame {
                machine: state@,
                scheduler: *scheduler,
                trace: trace@,
                executed: cycles_executed as int,
            }).run(),
        decreases CYCLES_PER_FRAME + 18 - cycles_executed,
    {
        let ghost now = Frame {
            machine: state@,
            scheduler: *scheduler,
            trace: trace@,
            executed: cycles_executed as int,
        };
        let pc = state.get_pc();
        let opcode = state.read_mem(pc);
        if !is_implemented(opcode) {
            assert(now.done());
            return FrameEnd::Unimplemented(opcode);
        }
        trace.record(
            TraceEntry {
                pc,
                opcode,
                lo: state.read_mem(pc.wrapping_add(1)),
                hi: state.read_mem(pc.wrapping_add(2)),
                frame_cycles: cycles_executed as u16,
            },
        );
        proof {
            lemma_cycles_bounds(decode(opcode));
        }
        let cost = emulate_8080_op(state) as u32;
        cycles_executed = cycles_executed + cost;
        scheduler.total_cycles = scheduler.total_cycles + cost;
        if scheduler.total_cycles > INTERRUPT_PERIOD {
            scheduler.total_cycles = 0;
            if scheduler.swap_interrupt {
                generate_interrupt(state, 2);
            } else {
                generate_interrupt(state, 1);
            }
            scheduler.swap_interrupt = !scheduler.swap_interrupt;
        }
        assert((Frame {
            machine: state@,
            scheduler: *scheduler,
            trace: trace@,
            executed: cycles_executed as int,
        }) == now.tick());
    }
    FrameEnd::Complete(cycles_executed)
}

} // verus!
