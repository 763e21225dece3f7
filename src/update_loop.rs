//! The update loop's decisions, as a state machine.
//!
//! The caller owns the timer and the collection work: it feeds each tick, each
//! finished cycle and each stop request to `UpdateLoop::step`, and performs the
//! action that comes back. At most one cycle is in flight at a time; a tick that
//! comes during a cycle makes the next cycle start as soon as this one finishes.
use vstd::prelude::*;

verus! {

/// Period between the starts of two cycles, in milliseconds.
pub const TICK_PERIOD_MS: u64 = 500;

/// Where the loop stands.
#[derive(Clone, Copy, Debug, PartialEq, Eq, Structural)]
pub enum LoopPhase {
    /// Waiting for the next tick.
    Idle,
    /// One cycle in flight.
    Collecting,
    /// Stopped for good.
    Stopped,
}

/// What happened.
#[derive(Clone, Copy, Debug, PartialEq, Eq, Structural)]
pub enum LoopEvent {
    /// The timer ticked.
    Tick,
    /// The cycle in flight finished and its snapshot was published.
    CycleFinished,
    /// Shutdown asked the loop to stop.
    StopRequested,
}

/// What the caller must do next.
#[derive(Clone, Copy, Debug, PartialEq, Eq, Structural)]
pub enum LoopAction {
    /// Start one collection cycle.
    StartCycle,
    /// Wait for the next event.
    Wait,
    /// Leave the loop.
    Exit,
}

/// State of the update loop.
#[derive(Clone, Copy, Debug, PartialEq, Eq, Structural)]
pub struct UpdateLoop {
    pub phase: LoopPhase,
    /// A tick came while a cycle was in flight.
    pub tick_pending: bool,
    /// A stop was asked for while a cycle was in flight.
    pub stop_pending: bool,
}

/// The next state and action. Stopping is checked at the top of each cycle: a
/// stop asked for during a cycle takes effect once it finishes.
pub open spec fn loop_next(s: UpdateLoop, e: LoopEvent) -> (UpdateLoop, LoopAction) {
    let idle = UpdateLoop { phase: LoopPhase::Idle, tick_pending: false, stop_pending: false };
    let collecting = UpdateLoop {
        phase: LoopPhase::Collecting,
        tick_pending: false,
        stop_pending: false,
    };
    let stopped = UpdateLoop { phase: LoopPhase::Stopped, tick_pending: false, stop_pending: false };
    match s.phase {
        LoopPhase::Stopped => (stopped, LoopAction::Exit),
        LoopPhase::Idle => match e {
            LoopEvent::Tick => (collecting, LoopAction::StartCycle),
            LoopEvent::CycleFinished => (idle, LoopAction::Wait),
            LoopEvent::StopRequested => (stopped, LoopAction::Exit),
        },
        LoopPhase::Collecting => match e {
            LoopEvent::Tick => (UpdateLoop { tick_pending: true, ..s }, LoopAction::Wait),
            LoopEvent::StopRequested => (UpdateLoop { stop_pending: true, ..s }, LoopAction::Wait),
            LoopEvent::CycleFinished => if s.stop_pending {
                (stopped, LoopAction::Exit)
            } else if s.tick_pending {
                (collecting, LoopAction::StartCycle)
            } else {
                (idle, LoopAction::Wait)
            },
        },
    }
}

impl UpdateLoop {
    /// Pending flags are only set while a cycle is in flight.
    pub open spec fn wf(self) -> bool {
        self.phase != LoopPhase::Collecting ==> !self.tick_pending && !self.stop_pending
    }

    /// A loop waiting for its first tick.
    pub fn new() -> (r: UpdateLoop)
        ensures
            r.wf(),
            r.phase == LoopPhase::Idle,
            !r.tick_pending,
            !r.stop_pending,
    {
        UpdateLoop { phase: LoopPhase::Idle, tick_pending: false, stop_pending: false }
    }

    /// Takes one event; returns what to do.
    pub fn step(&mut self, e: LoopEvent) -> (r: LoopAction)
        requires
            old(self).wf(),
        ensures
            final(self).wf(),
            (*final(self), r) == loop_next(*old(self), e),
    {
        let idle = UpdateLoop { phase: LoopPhase::Idle, tick_pending: false, stop_pending: false };
        let collecting = UpdateLoop {
            phase: LoopPhase::Collecting,
            tick_pending: false,
            stop_pending: false,
        };
        let stopped = UpdateLoop {
            phase: LoopPhase::Stopped,
            tick_pending: false,
            stop_pending: false,
        };
        let (next, action) = match self.phase {
            LoopPhase::Stopped => (stopped, LoopAction::Exit),
            LoopPhase::Idle => match e {
                LoopEvent::Tick => (collecting, LoopAction::StartCycle),
                LoopEvent::CycleFinished => (idle, LoopAction::Wait),
                LoopEvent::StopRequested => (stopped, LoopAction::Exit),
            },
            LoopPhase::Collecting => match e {
                LoopEvent::Tick => (UpdateLoop { tick_pending: true, ..*self }, LoopAction::Wait),
                LoopEvent::StopRequested => (
                    UpdateLoop { stop_pending: true, ..*self },
                    LoopAction::Wait,
                ),
                LoopEvent::CycleFinished => if self.stop_pending {
                    (stopped, LoopAction::Exit)
                } else if self.tick_pending {
                    (collecting, LoopAction::StartCycle)
                } else {
                    (idle, LoopAction::Wait)
                },
            },
        };
        *self = next;
        action
    }
}

/// Cycles never overlap: a cycle starts only when none is in flight, or as the
/// one in flight finishes; and once stopped, the loop only exits.
pub proof fn lemma_one_cycle_at_a_time(s: UpdateLoop, e: LoopEvent)
    requires
        s.wf(),
    ensures
        loop_next(s, e).1 == LoopAction::StartCycle ==> (s.phase == LoopPhase::Idle || (s.phase
            == LoopPhase::Collecting && e == LoopEvent::CycleFinished)),
        loop_next(s, e).1 == LoopAction::StartCycle ==> loop_next(s, e).0.phase
            == LoopPhase::Collecting,
        s.phase == LoopPhase::Stopped ==> loop_next(s, e).1 == LoopAction::Exit,
        loop_next(s, e).0.wf(),
{
}

} // verus!
