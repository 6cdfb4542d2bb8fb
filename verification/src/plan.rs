//! Events, actions, and the plan the supervisor hands its host for each
//! window-system event: an ordered list of steps, each an action together
//! with the log line owed on success and on failure.

use vstd::prelude::*;

verus! {

/// A side effect the shell asks its host to perform.
#[derive(Clone, Copy, PartialEq, Eq, Structural, Debug)]
pub enum Action {
    /// Forceful, tree-wide terminate of every process matching the backend
    /// image name. Best effort: a miss is not a fault.
    TerminateExisting,
    /// Spawn the backend executable, its output streams discarded.
    LaunchBackend,
    /// Restore the main window if it is minimized.
    Unminimize,
    /// Make the main window visible.
    ShowWindow,
    /// Give the main window input focus.
    FocusWindow,
}

/// A window-system event the supervisor reacts to.
#[derive(Clone, Copy, PartialEq, Eq, Structural, Debug)]
pub enum Event {
    /// The main window has been constructed; fired once at startup.
    WindowReady,
    /// The user asked to close the window.
    CloseRequested,
    /// Any other event: none concerns the supervisor.
    Other,
}

/// Whether an attempted action went through.
#[derive(Clone, Copy, PartialEq, Eq, Structural, Debug)]
pub enum Outcome {
    Succeeded,
    Failed,
}

/// Where a log line goes.
#[derive(Clone, Copy, PartialEq, Eq, Structural, Debug)]
pub enum Stream {
    Stdout,
    Stderr,
}

/// A log line the host should emit. For a failure the text ends in ": " and
/// the host appends the error's own description.
#[derive(Clone, Copy, Debug)]
pub struct LogDirective {
    pub stream: Stream,
    pub text: &'static str,
}

/// One step of a plan: an action, and what to log for each outcome.
/// `None` means the outcome is ignored in silence.
#[derive(Clone, Copy, Debug)]
pub struct Step {
    pub action: Action,
    pub on_success: Option<LogDirective>,
    pub on_failure: Option<LogDirective>,
}

/// The directive asks for `text` on `stream`.
pub open spec fn logs_to(l: Option<LogDirective>, stream: Stream, text: Seq<char>) -> bool {
    l matches Some(d) && d.stream == stream && d.text@ == text
}

/// The step performs `a` and logs nothing, whichever way it goes.
pub open spec fn silent_step(s: Step, a: Action) -> bool {
    &&& s.action == a
    &&& s.on_success is None
    &&& s.on_failure is None
}

/// The startup plan: terminate any stale backend, then launch a fresh one,
/// then unminimize, show and focus the window. Process outcomes are logged;
/// window operations are best effort and silent.
pub open spec fn is_startup_plan(s: Seq<Step>) -> bool {
    &&& s.len() == 5
    &&& s[0].action == Action::TerminateExisting
    &&& logs_to(s[0].on_success, Stream::Stdout, "[OutPrio] Existing backend processes terminated."@)
    &&& logs_to(s[0].on_failure, Stream::Stderr, "[OutPrio] Failed to kill existing backend processes: "@)
    &&& s[1].action == Action::LaunchBackend
    &&& logs_to(s[1].on_success, Stream::Stdout, "[OutPrio] Backend launched successfully."@)
    &&& logs_to(s[1].on_failure, Stream::Stderr, "[OutPrio] Failed to launch backend: "@)
    &&& silent_step(s[2], Action::Unminimize)
    &&& silent_step(s[3], Action::ShowWindow)
    &&& silent_step(s[4], Action::FocusWindow)
}

/// The close plan: one terminate of the backend, logged, and nothing else.
pub open spec fn is_close_plan(s: Seq<Step>) -> bool {
    &&& s.len() == 1
    &&& s[0].action == Action::TerminateExisting
    &&& logs_to(s[0].on_success, Stream::Stdout, "[OutPrio] Backend processes terminated."@)
    &&& logs_to(s[0].on_failure, Stream::Stderr, "[OutPrio] Failed to kill backend processes: "@)
}

/// What plan each event demands.
pub open spec fn plan_matches(e: Event, s: Seq<Step>) -> bool {
    match e {
        Event::WindowReady => is_startup_plan(s),
        Event::CloseRequested => is_close_plan(s),
        Event::Other => s.len() == 0,
    }
}

/// The plan for the startup event.
pub fn startup_plan() -> (plan: Vec<Step>)
    ensures
        is_startup_plan(plan@),
{
    let mut plan: Vec<Step> = Vec::new();
    plan.push(Step {
        action: Action::TerminateExisting,
        on_success: Some(LogDirective {
            stream: Stream::Stdout,
            text: "[OutPrio] Existing backend processes terminated.",
        }),
        on_failure: Some(LogDirective {
            stream: Stream::Stderr,
            text: "[OutPrio] Failed to kill existing backend processes: ",
        }),
    });
    plan.push(Step {
        action: Action::LaunchBackend,
        on_success: Some(LogDirective {
            stream: Stream::Stdout,
            text: "[OutPrio] Backend launched successfully.",
        }),
        on_failure: Some(LogDirective {
            stream: Stream::Stderr,
            text: "[OutPrio] Failed to launch backend: ",
        }),
    });
    plan.push(Step { action: Action::Unminimize, on_success: None, on_failure: None });
    plan.push(Step { action: Action::ShowWindow, on_success: None, on_failure: None });
    plan.push(Step { action: Action::FocusWindow, on_success: None, on_failure: None });
    plan
}

/// The plan for a close request.
pub fn close_plan() -> (plan: Vec<Step>)
    ensures
        is_close_plan(plan@),
{
    let mut plan: Vec<Step> = Vec::new();
    plan.push(Step {
        action: Action::TerminateExisting,
        on_success: Some(LogDirective {
            stream: Stream::Stdout,
            text: "[OutPrio] Backend processes terminated.",
        }),
        on_failure: Some(LogDirective {
            stream: Stream::Stderr,
            text: "[OutPrio] Failed to kill backend processes: ",
        }),
    });
    plan
}

/// The plan for any event.
pub fn plan_for_event(e: Event) -> (plan: Vec<Step>)
    ensures
        plan_matches(e, plan@),
{
    match e {
        Event::WindowReady => startup_plan(),
        Event::CloseRequested => close_plan(),
        Event::Other => Vec::new(),
    }
}

/// The actions of a plan, in order.
pub open spec fn actions_of(s: Seq<Step>) -> Seq<Action> {
    s.map_values(|st: Step| st.action)
}

/// How often `a` occurs in `s`.
pub open spec fn count_action(s: Seq<Action>, a: Action) -> nat
    decreases s.len(),
{
    if s.len() == 0 {
        0
    } else {
        (if s[0] == a {
            1nat
        } else {
            0nat
        }) + count_action(s.subrange(1, s.len() as int), a)
    }
}

/// How many terminate requests an event's plan owes: one at startup, one per
/// close request, none otherwise.
pub open spec fn terminates_owed(e: Event) -> nat {
    match e {
        Event::WindowReady => 1,
        Event::CloseRequested => 1,
        Event::Other => 0,
    }
}

/// In every startup plan, the terminate of stale backend processes comes
/// strictly before the launch of the fresh one, so a prior unclean shutdown
/// cannot leave two backends running.
pub proof fn lemma_terminate_precedes_launch(s: Seq<Step>)
    requires
        is_startup_plan(s),
    ensures
        actions_of(s)[0] == Action::TerminateExisting,
        actions_of(s)[1] == Action::LaunchBackend,
        forall|i: int, j: int|
            0 <= i < s.len() && 0 <= j < s.len() && actions_of(s)[i] == Action::LaunchBackend
                && actions_of(s)[j] == Action::TerminateExisting ==> j < i,
{
    assert forall|i: int, j: int|
        0 <= i < s.len() && 0 <= j < s.len() && actions_of(s)[i] == Action::LaunchBackend
            && actions_of(s)[j] == Action::TerminateExisting implies j < i by {
        assert(actions_of(s)[i] == s[i].action);
        assert(actions_of(s)[j] == s[j].action);
    }
}

/// Every plan issues exactly the terminates its event owes: exactly one per
/// close request, exactly one at startup, none for an indifferent event.
pub proof fn lemma_terminate_count(e: Event, s: Seq<Step>)
    requires
        plan_matches(e, s),
    ensures
        count_action(actions_of(s), Action::TerminateExisting) == terminates_owed(e),
{
    let acts = actions_of(s);
    match e {
        Event::WindowReady => {
            assert(count_action(acts, Action::TerminateExisting) == 1) by {
                reveal_with_fuel(count_action, 6);
                assert(acts.len() == 5);
                assert(acts[0] == Action::TerminateExisting);
                assert(acts.subrange(1, 5)[0] == acts[1]);
                assert(acts.subrange(1, 5).subrange(1, 4) =~= acts.subrange(2, 5));
                assert(acts.subrange(2, 5)[0] == acts[2]);
                assert(acts.subrange(2, 5).subrange(1, 3) =~= acts.subrange(3, 5));
                assert(acts.subrange(3, 5)[0] == acts[3]);
                assert(acts.subrange(3, 5).subrange(1, 2) =~= acts.subrange(4, 5));
                assert(acts.subrange(4, 5)[0] == acts[4]);
                assert(acts.subrange(4, 5).subrange(1, 1) =~= Seq::<Action>::empty());
            }
        },
        Event::CloseRequested => {
            assert(count_action(acts, Action::TerminateExisting) == 1) by {
                reveal_with_fuel(count_action, 2);
                assert(acts.len() == 1);
                assert(acts[0] == Action::TerminateExisting);
                assert(acts.subrange(1, 1) =~= Seq::<Action>::empty());
            }
        },
        Event::Other => {
            assert(acts.len() == 0);
        },
    }
}

/// The actions of a whole run: each plan's actions, concatenated in order.
pub open spec fn actions_of_run(plans: Seq<Seq<Step>>) -> Seq<Action>
    decreases plans.len(),
{
    if plans.len() == 0 {
        Seq::empty()
    } else {
        actions_of(plans[0]) + actions_of_run(plans.subrange(1, plans.len() as int))
    }
}

/// Terminate requests owed over a whole run of events.
pub open spec fn terminates_owed_in(es: Seq<Event>) -> nat
    decreases es.len(),
{
    if es.len() == 0 {
        0
    } else {
        terminates_owed(es[0]) + terminates_owed_in(es.subrange(1, es.len() as int))
    }
}

/// Counting an action distributes over concatenation.
proof fn lemma_count_action_concat(a: Seq<Action>, b: Seq<Action>, x: Action)
    ensures
        count_action(a + b, x) == count_action(a, x) + count_action(b, x),
    decreases a.len(),
{
    if a.len() == 0 {
        assert(a + b =~= b);
    } else {
        lemma_count_action_concat(a.subrange(1, a.len() as int), b, x);
        assert((a + b).subrange(1, (a + b).len() as int) =~= a.subrange(1, a.len() as int) + b);
        assert((a + b)[0] == a[0]);
    }
}

/// Over any run in which each event is answered by a matching plan, the
/// terminate command is issued exactly once per startup and once per close
/// request: never more, never fewer. Two close requests in quick succession
/// thus issue exactly two terminates.
pub proof fn lemma_run_terminate_count(es: Seq<Event>, plans: Seq<Seq<Step>>)
    requires
        plans.len() == es.len(),
        forall|i: int| 0 <= i < es.len() ==> plan_matches(es[i], #[trigger] plans[i]),
    ensures
        count_action(actions_of_run(plans), Action::TerminateExisting) == terminates_owed_in(es),
    decreases es.len(),
{
    if es.len() > 0 {
        let es1 = es.subrange(1, es.len() as int);
        let plans1 = plans.subrange(1, plans.len() as int);
        assert forall|i: int| 0 <= i < es1.len() implies plan_matches(
            es1[i],
            #[trigger] plans1[i],
        ) by {
            assert(plans1[i] == plans[i + 1]);
            assert(es1[i] == es[i + 1]);
        }
        lemma_run_terminate_count(es1, plans1);
        lemma_terminate_count(es[0], plans[0]);
        lemma_count_action_concat(
            actions_of(plans[0]),
            actions_of_run(plans1),
            Action::TerminateExisting,
        );
    }
}

/// The log line a step owes for an outcome.
pub fn log_for(step: &Step, oc: Outcome) -> (r: Option<LogDirective>)
    ensures
        r == (if oc is Succeeded {
            step.on_success
        } else {
            step.on_failure
        }),
{
    if oc == Outcome::Succeeded {
        step.on_success
    } else {
        step.on_failure
    }
}

} // verus!
