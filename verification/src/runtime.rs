//! The runtime host's run-loop state machine.
//!
//! One run of a component walks through four phases: the engine and
//! component are prepared (`Uninitialized`); on the first resume signal
//! from the native windowing system the window, presentation surface and
//! component instance are created and the guest's `init` export is called
//! exactly once (`Initializing`); the native event loop then drives
//! translated events and update/render frame cycles into the guest
//! (`Running`); a guest `Exit` answer, an exit request, a failed guest
//! call or a failed initialization ends the run (`Terminated`).
//!
//! The decisions live here, over plain values; the embedder performs the
//! native work each decision asks for — creating the window, calling the
//! guest's exports, presenting the canvas — and reports the outcome back.

use vstd::prelude::*;

use crate::host::HostState;
use crate::input::{spec_translate, Event, EventResult, NativeEvent};

verus! {

/// Configuration for one runtime invocation, built from CLI flags and
/// immutable thereafter.
#[derive(Clone, Copy, PartialEq, Eq, Structural, Debug)]
pub struct RuntimeConfig {
    /// Verbose logging and reduced optimisation of the loaded component.
    pub debug: bool,
    /// Target frames per second; 0 means unlimited.
    pub target_fps: u32,
}

impl Default for RuntimeConfig {
    /// The default runtime configuration: release-style execution at 60
    /// frames per second.
    fn default() -> (c: RuntimeConfig)
        ensures
            c.debug == false,
            c.target_fps == 60,
    {
        RuntimeConfig { debug: false, target_fps: 60 }
    }
}

/// Where one run stands.
#[derive(Clone, Copy, PartialEq, Eq, Structural, Debug)]
pub enum Phase {
    /// Engine and component bytes are prepared; no window exists yet.
    Uninitialized,
    /// The first resume signal arrived; the embedder is creating the
    /// window and instance and calling the guest's `init`.
    Initializing,
    /// The native event loop is live and frames are being driven.
    Running,
    /// The run is over; the event loop returns to the caller.
    Terminated,
}

/// What the driver asks the embedder to do with one native window event.
#[derive(Clone, Copy, PartialEq, Eq, Structural, Debug)]
pub enum EventDisposition {
    /// Run one update+render+present cycle, then request another redraw.
    RunFrame,
    /// Deliver this translated event to the guest's event handler.
    Deliver(Event),
    /// Nothing to do for this event.
    Ignore,
}

/// One abstract step of the run-loop state machine, for stating laws
/// about whole runs.
#[derive(Clone, Copy, PartialEq, Eq, Structural, Debug)]
pub enum DriverOp {
    /// The native windowing system granted a resume signal.
    Resumed,
    /// Initialization finished, successfully or not.
    InitResult(bool),
    /// The guest answered a delivered event.
    GuestAnswer(EventResult),
    /// A frame cycle finished: whether every guest call succeeded, and
    /// whether the exit-requested flag was set afterwards.
    FrameOutcome(bool, bool),
    /// A delivered event's guest call trapped or returned an error.
    DeliveryFailed,
}

/// The phase after one abstract step.
pub open spec fn spec_step(p: Phase, op: DriverOp) -> Phase {
    match op {
        DriverOp::Resumed => if p == Phase::Uninitialized {
            Phase::Initializing
        } else {
            p
        },
        DriverOp::InitResult(ok) => if p == Phase::Initializing {
            if ok {
                Phase::Running
            } else {
                Phase::Terminated
            }
        } else {
            p
        },
        DriverOp::GuestAnswer(r) => if r == EventResult::Exit {
            Phase::Terminated
        } else {
            p
        },
        DriverOp::FrameOutcome(ok, exit) => if !ok || exit {
            Phase::Terminated
        } else {
            p
        },
        DriverOp::DeliveryFailed => Phase::Terminated,
    }
}

/// Whether one abstract step performs the guest's one-time
/// initialization.
pub open spec fn spec_step_initializes(p: Phase, op: DriverOp) -> bool {
    op == DriverOp::Resumed && p == Phase::Uninitialized
}

/// The phase after a whole run of abstract steps.
pub open spec fn run_phase(p: Phase, ops: Seq<DriverOp>) -> Phase
    decreases ops.len(),
{
    if ops.len() == 0 {
        p
    } else {
        run_phase(spec_step(p, ops[0]), ops.drop_first())
    }
}

/// How many of the steps perform initialization.
pub open spec fn run_inits(p: Phase, ops: Seq<DriverOp>) -> nat
    decreases ops.len(),
{
    if ops.len() == 0 {
        0
    } else {
        (if spec_step_initializes(p, ops[0]) {
            1nat
        } else {
            0nat
        }) + run_inits(spec_step(p, ops[0]), ops.drop_first())
    }
}

/// Once a run has left `Uninitialized` it never returns there, so no
/// later step initializes.
proof fn lemma_no_inits_after_leaving(p: Phase, ops: Seq<DriverOp>)
    requires
        p != Phase::Uninitialized,
    ensures
        run_inits(p, ops) == 0,
    decreases ops.len(),
{
    if ops.len() > 0 {
        assert(spec_step(p, ops[0]) != Phase::Uninitialized);
        lemma_no_inits_after_leaving(spec_step(p, ops[0]), ops.drop_first());
    }
}

/// Law: over any whole run that starts before the first resume signal,
/// the guest's `init` export is performed at most once.
pub proof fn lemma_init_at_most_once(ops: Seq<DriverOp>)
    ensures
        run_inits(Phase::Uninitialized, ops) <= 1,
{
    if ops.len() > 0 {
        let p1 = spec_step(Phase::Uninitialized, ops[0]);
        if spec_step_initializes(Phase::Uninitialized, ops[0]) {
            assert(p1 != Phase::Uninitialized);
            lemma_no_inits_after_leaving(p1, ops.drop_first());
        } else {
            assert(p1 == Phase::Uninitialized || p1 == Phase::Terminated);
            if p1 == Phase::Uninitialized {
                lemma_init_at_most_once_from(p1, ops.drop_first());
            } else {
                lemma_no_inits_after_leaving(p1, ops.drop_first());
            }
        }
    }
}

/// Helper for [`lemma_init_at_most_once`]: the same claim from any
/// point at which initialization has not yet happened.
proof fn lemma_init_at_most_once_from(p: Phase, ops: Seq<DriverOp>)
    requires
        p == Phase::Uninitialized,
    ensures
        run_inits(p, ops) <= 1,
    decreases ops.len(),
{
    if ops.len() > 0 {
        let p1 = spec_step(p, ops[0]);
        if p1 == Phase::Uninitialized {
            lemma_init_at_most_once_from(p1, ops.drop_first());
        } else {
            lemma_no_inits_after_leaving(p1, ops.drop_first());
        }
    }
}

/// Law: frames run only in the `Running` phase, and a run that reaches
/// `Running` has performed initialization exactly once beforehand.
pub proof fn lemma_running_implies_one_init(ops: Seq<DriverOp>)
    requires
        run_phase(Phase::Uninitialized, ops) == Phase::Running,
    ensures
        run_inits(Phase::Uninitialized, ops) == 1,
{
    lemma_init_at_most_once(ops);
    lemma_zero_inits_stay_out_of_running(Phase::Uninitialized, ops);
}

/// Without an initialization step, a run from `Uninitialized` never
/// reaches `Running`.
proof fn lemma_zero_inits_stay_out_of_running(p: Phase, ops: Seq<DriverOp>)
    requires
        p == Phase::Uninitialized || p == Phase::Terminated,
    ensures
        run_inits(p, ops) == 0 ==> run_phase(p, ops) != Phase::Running,
    decreases ops.len(),
{
    if ops.len() > 0 {
        let p1 = spec_step(p, ops[0]);
        if !spec_step_initializes(p, ops[0]) {
            assert(p1 == Phase::Uninitialized || p1 == Phase::Terminated);
            lemma_zero_inits_stay_out_of_running(p1, ops.drop_first());
        }
    }
}

/// The delta reported to the guest's `update` export, in microseconds:
/// the elapsed wall-clock time between two timestamps, and never
/// negative even if the clock steps backwards.
pub fn frame_delta_us(prev_us: u64, now_us: u64) -> (delta: u64)
    ensures
        delta == (if now_us >= prev_us {
            now_us - prev_us
        } else {
            0
        }),
        delta >= 0,
{
    if now_us >= prev_us {
        now_us - prev_us
    } else {
        0
    }
}

/// Copies the canvas into the presentation surface's buffer, only as
/// many pixels as the smaller of the two lengths, to tolerate transient
/// size mismatches.
pub fn present_copy(canvas: &Vec<u32>, surface: &mut Vec<u32>)
    ensures
        final(surface)@.len() == old(surface)@.len(),
        forall|i: int|
            0 <= i < old(surface)@.len() && i < canvas@.len() ==> final(surface)@[i]
                == canvas@[i],
        forall|i: int|
            canvas@.len() <= i < old(surface)@.len() ==> final(surface)@[i] == old(surface)@[i],
{
    let n: usize = if canvas.len() < surface.len() {
        canvas.len()
    } else {
        surface.len()
    };
    let mut i: usize = 0;
    while i < n
        invariant
            n <= canvas@.len(),
            n <= surface@.len(),
            surface@.len() == old(surface)@.len(),
            i <= n,
            forall|j: int| 0 <= j < i ==> surface@[j] == canvas@[j],
            forall|j: int| i <= j < surface@.len() ==> surface@[j] == old(surface)@[j],
            n == (if canvas@.len() < old(surface)@.len() {
                canvas@.len() as int
            } else {
                old(surface)@.len() as int
            }),
        decreases n - i,
    {
        surface[i] = canvas[i];
        i += 1;
    }
}

/// The run-loop driver: the phase of one run plus its configuration.
/// The embedder owns the native resources and asks the driver what to
/// do at each native signal.
pub struct RunDriver {
    pub phase: Phase,
    pub config: RuntimeConfig,
}

impl RunDriver {
    /// A driver for one fresh run.
    pub fn new(config: RuntimeConfig) -> (d: RunDriver)
        ensures
            d.phase == Phase::Uninitialized,
            d.config == config,
    {
        RunDriver { phase: Phase::Uninitialized, config }
    }

    /// Answers a resume signal from the native windowing system: on the
    /// first one the embedder must create the window and surface,
    /// instantiate the component and call the guest's `init` export;
    /// later resume signals do nothing.
    pub fn on_resumed(&mut self) -> (do_init: bool)
        ensures
            do_init == (old(self).phase == Phase::Uninitialized),
            final(self).phase == spec_step(old(self).phase, DriverOp::Resumed),
            final(self).config == old(self).config,
    {
        if self.phase == Phase::Uninitialized {
            self.phase = Phase::Initializing;
            true
        } else {
            false
        }
    }

    /// Records whether window creation, instantiation and the guest's
    /// `init` call succeeded.
    pub fn init_result(&mut self, ok: bool)
        ensures
            final(self).phase == spec_step(old(self).phase, DriverOp::InitResult(ok)),
            final(self).config == old(self).config,
    {
        if self.phase == Phase::Initializing {
            self.phase = if ok {
                Phase::Running
            } else {
                Phase::Terminated
            };
        }
    }

    /// Decides what one native window event means: a redraw request
    /// runs a frame cycle, a translatable event is delivered to the
    /// guest, and everything else — including events arriving outside
    /// the `Running` phase — is ignored.  Cursor events update the host
    /// state's stored cursor position on the way through.
    pub fn on_window_event(&mut self, host: &mut HostState, ev: &NativeEvent) -> (d:
        EventDisposition)
        ensures
            old(self).phase != Phase::Running ==> d == EventDisposition::Ignore && *final(host)
                == *old(host),
            old(self).phase == Phase::Running ==> d == (match *ev {
                NativeEvent::RedrawRequested => EventDisposition::RunFrame,
                _ => match spec_translate(*ev) {
                    Some(e) => EventDisposition::Deliver(e),
                    None => EventDisposition::Ignore,
                },
            }),
            old(self).phase == Phase::Running ==> final(host).cursor_position == (match *ev {
                NativeEvent::CursorMoved(p) => Some(p),
                NativeEvent::CursorLeft => None,
                _ => old(host).cursor_position,
            }),
            old(self).phase == Phase::Running ==> final(host).window_config
                == old(host).window_config && final(host).cursor_visible
                == old(host).cursor_visible && final(host).should_exit == old(host).should_exit
                && final(host).canvas == old(host).canvas,
            final(self).phase == old(self).phase,
            final(self).config == old(self).config,
    {
        if self.phase != Phase::Running {
            return EventDisposition::Ignore;
        }
        match ev {
            NativeEvent::RedrawRequested => EventDisposition::RunFrame,
            _ => {
                match host.handle_native_event(ev) {
                    Some(e) => EventDisposition::Deliver(e),
                    None => EventDisposition::Ignore,
                }
            },
        }
    }

    /// Records the guest's answer to a delivered event; `Exit` ends the
    /// run loop immediately.
    pub fn on_event_result(&mut self, result: EventResult)
        ensures
            final(self).phase == spec_step(old(self).phase, DriverOp::GuestAnswer(result)),
            final(self).config == old(self).config,
    {
        if result == EventResult::Exit {
            self.phase = Phase::Terminated;
        }
    }

    /// Records that a delivered event's guest call failed.  A failed
    /// lifecycle call is logged by the embedder and fatal to the run:
    /// the loop terminates rather than retrying or skipping.
    pub fn on_event_failed(&mut self)
        ensures
            final(self).phase == spec_step(old(self).phase, DriverOp::DeliveryFailed),
            final(self).config == old(self).config,
    {
        self.phase = Phase::Terminated;
    }

    /// Records the outcome of one frame cycle: a failed guest call is
    /// fatal to the run, and the exit-requested flag, consulted after
    /// the cycle, ends it too.
    pub fn after_frame(&mut self, frame_ok: bool, exit_requested: bool)
        ensures
            final(self).phase == spec_step(
                old(self).phase,
                DriverOp::FrameOutcome(frame_ok, exit_requested),
            ),
            final(self).config == old(self).config,
    {
        if !frame_ok || exit_requested {
            self.phase = Phase::Terminated;
        }
    }

    /// Whether the idle signal should schedule another redraw: the run
    /// loop repaints continuously while it is running.
    pub fn should_request_redraw(&self) -> (r: bool)
        ensures
            r == (self.phase == Phase::Running),
    {
        self.phase == Phase::Running
    }

    /// Whether the run is over and the native event loop should return.
    pub fn is_terminated(&self) -> (r: bool)
        ensures
            r == (self.phase == Phase::Terminated),
    {
        self.phase == Phase::Terminated
    }
}

} // verus!
