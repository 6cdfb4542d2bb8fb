//! The supervisor: tracks the backend's lifecycle phase, hands the host a
//! plan for each window-system event, and absorbs every outcome without
//! failing the calling flow.

use vstd::prelude::*;

use crate::plan::{
    actions_of, is_startup_plan, logs_to, plan_for_event, plan_matches, Action, Event, Outcome,
    Step, Stream,
};

verus! {

/// Lifecycle of the backend process, as the supervisor models it.
#[derive(Clone, Copy, PartialEq, Eq, Structural, Debug)]
pub enum Phase {
    /// No backend launched by this shell yet.
    NotLaunched,
    /// A launch went through; the backend runs unmanaged.
    Running,
    /// The close-time terminate was issued. No way back without a restart.
    Terminated,
}

/// The phase after an action's outcome is recorded. Total: every outcome of
/// every action leads somewhere, none aborts.
pub open spec fn phase_after(p: Phase, a: Action, oc: Outcome) -> Phase {
    match a {
        Action::TerminateExisting => if p is Running {
            Phase::Terminated
        } else {
            p
        },
        Action::LaunchBackend => if p is NotLaunched && oc is Succeeded {
            Phase::Running
        } else {
            p
        },
        _ => p,
    }
}

/// A failed launch degrades the shell instead of crashing it: the phase is
/// unchanged, the failure is logged to the error stream, and the startup plan
/// still shows and focuses the window after the launch step, whatever its
/// outcome was.
pub proof fn lemma_launch_failure_degrades(p: Phase, s: Seq<Step>)
    requires
        is_startup_plan(s),
    ensures
        phase_after(p, Action::LaunchBackend, Outcome::Failed) == p,
        logs_to(s[1].on_failure, Stream::Stderr, "[OutPrio] Failed to launch backend: "@),
        exists|i: int, j: int|
            0 <= i < j < s.len() && actions_of(s)[i] == Action::LaunchBackend && actions_of(
                s,
            )[j] == Action::ShowWindow,
        exists|i: int, j: int|
            0 <= i < j < s.len() && actions_of(s)[i] == Action::LaunchBackend && actions_of(
                s,
            )[j] == Action::FocusWindow,
{
    assert(actions_of(s)[1] == Action::LaunchBackend);
    assert(actions_of(s)[3] == Action::ShowWindow);
    assert(actions_of(s)[4] == Action::FocusWindow);
    assert(0 <= 1 < 3 < s.len() && actions_of(s)[1] == Action::LaunchBackend && actions_of(s)[3]
        == Action::ShowWindow);
    assert(0 <= 1 < 4 < s.len() && actions_of(s)[1] == Action::LaunchBackend && actions_of(s)[4]
        == Action::FocusWindow);
}

/// Terminating is harmless whatever happens: the phase the supervisor lands
/// in does not depend on the terminate's outcome, so a terminate that found
/// no process to kill is a no-op of the flow, and a second terminate on the
/// heels of a first lands where the first did.
pub proof fn lemma_terminate_harmless(p: Phase, oc1: Outcome, oc2: Outcome)
    ensures
        phase_after(p, Action::TerminateExisting, oc1) == phase_after(
            p,
            Action::TerminateExisting,
            oc2,
        ),
        phase_after(
            phase_after(p, Action::TerminateExisting, oc1),
            Action::TerminateExisting,
            oc2,
        ) == phase_after(p, Action::TerminateExisting, oc1),
{
}

/// Supervises the one backend process across the window's lifetime.
pub struct Supervisor {
    pub phase: Phase,
}

impl Supervisor {
    /// A fresh supervisor: nothing launched yet.
    pub fn new() -> (s: Supervisor)
        ensures
            s.phase == Phase::NotLaunched,
    {
        Supervisor { phase: Phase::NotLaunched }
    }

    /// The plan owed for an event. Deciding changes no state: the phase moves
    /// only when outcomes are recorded.
    pub fn handle_event(&mut self, e: Event) -> (plan: Vec<Step>)
        ensures
            plan_matches(e, plan@),
            final(self).phase == old(self).phase,
    {
        plan_for_event(e)
    }

    /// Record how an action went. Accepts every action and outcome in every
    /// phase: no outcome is fatal to the shell.
    pub fn record_outcome(&mut self, a: Action, oc: Outcome)
        ensures
            final(self).phase == phase_after(old(self).phase, a, oc),
    {
        self.phase = match a {
            Action::TerminateExisting => if self.phase == Phase::Running {
                Phase::Terminated
            } else {
                self.phase
            },
            Action::LaunchBackend => if self.phase == Phase::NotLaunched && oc == Outcome::Succeeded {
                Phase::Running
            } else {
                self.phase
            },
            _ => self.phase,
        };
    }
}

} // verus!
