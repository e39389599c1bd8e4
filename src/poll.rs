//! The decisions of the polling loop: sample at once on start, then sleep
//! for the configured interval after every cycle, forever.

use vstd::prelude::*;

verus! {

/// Where the loop stands.
#[derive(Clone, Copy, Debug, PartialEq, Eq, Structural)]
pub enum PollPhase {
    Sampling,
    Idle,
}

/// What happened since the last decision.
#[derive(Clone, Copy, Debug, PartialEq, Eq, Structural)]
pub enum PollEvent {
    CycleCompleted,
    TimerExpired,
}

/// What the driver must do next.
#[derive(Clone, Copy, Debug, PartialEq, Eq, Structural)]
pub enum PollAction {
    RunCycle,
    Sleep { seconds: u64 },
}

/// The polling loop's state.
#[derive(Clone, Copy, Debug, PartialEq, Eq, Structural)]
pub struct PollLoop {
    pub interval_seconds: u64,
    pub phase: PollPhase,
}

/// The action owed in a phase.
pub open spec fn action_of(phase: PollPhase, interval_seconds: u64) -> PollAction {
    match phase {
        PollPhase::Sampling => PollAction::RunCycle,
        PollPhase::Idle => PollAction::Sleep { seconds: interval_seconds },
    }
}

/// The phase after an event: a completed cycle leads to sleeping, an expired
/// timer to sampling; an event that does not belong to the phase changes
/// nothing.
pub open spec fn phase_after(phase: PollPhase, event: PollEvent) -> PollPhase {
    match (phase, event) {
        (PollPhase::Sampling, PollEvent::CycleCompleted) => PollPhase::Idle,
        (PollPhase::Idle, PollEvent::TimerExpired) => PollPhase::Sampling,
        _ => phase,
    }
}

impl PollLoop {
    /// A loop that samples first, then every `interval_seconds`.
    pub fn new(interval_seconds: u64) -> (r: PollLoop)
        ensures
            r.phase == PollPhase::Sampling,
            r.interval_seconds == interval_seconds,
    {
        PollLoop { interval_seconds, phase: PollPhase::Sampling }
    }

    /// The action owed now.
    pub fn action(&self) -> (r: PollAction)
        ensures
            r == action_of(self.phase, self.interval_seconds),
    {
        match self.phase {
            PollPhase::Sampling => PollAction::RunCycle,
            PollPhase::Idle => PollAction::Sleep { seconds: self.interval_seconds },
        }
    }

    /// Takes in an event and returns the action owed afterwards.
    pub fn step(&mut self, event: PollEvent) -> (r: PollAction)
        ensures
            final(self).phase == phase_after(old(self).phase, event),
            final(self).interval_seconds == old(self).interval_seconds,
            r == action_of(final(self).phase, final(self).interval_seconds),
    {
        self.phase = match (self.phase, event) {
            (PollPhase::Sampling, PollEvent::CycleCompleted) => PollPhase::Idle,
            (PollPhase::Idle, PollEvent::TimerExpired) => PollPhase::Sampling,
            (phase, _) => phase,
        };
        self.action()
    }
}

} // verus!
