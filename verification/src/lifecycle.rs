//! The lifecycle of the process as a state machine.

use vstd::prelude::*;

verus! {

/// How a process that has reached the end of its life ended.
#[derive(Clone, Copy, Debug, PartialEq, Eq, Structural)]
pub enum Termination {
    /// The runtime shut down by ordinary means.
    Success,
    /// The runtime could not be started.
    Fatal,
}

/// Where the process stands in its life.
#[derive(Clone, Copy, Debug, PartialEq, Eq, Structural)]
pub enum Phase {
    /// The entry point has not been invoked yet.
    NotStarted,
    /// The runtime has been handed the configuration and owns the process.
    Running,
    /// The process has ended; no event changes this any more.
    Terminated(Termination),
}

/// What can happen to the process from outside.
#[derive(Clone, Copy, Debug, PartialEq, Eq, Structural)]
pub enum Event {
    /// The platform invoked the entry point.
    Invoked,
    /// The start operation returned normally: the runtime has shut down.
    RuntimeExited,
    /// The start operation signalled that the runtime could not start.
    StartFailed,
}

/// What the driver of the lifecycle has to do after an event.
#[derive(Clone, Copy, Debug, PartialEq, Eq, Structural)]
pub enum Action {
    /// Build the runtime with the generated configuration and start it.
    StartRuntime,
    /// Return from the entry point; the process exits with success.
    ExitSuccess,
    /// Terminate the process with the fixed diagnostic.
    Abort,
    /// The event is not expected in this phase and changes nothing.
    Nothing,
}

/// The phase that follows `phase` when `event` arrives.
pub open spec fn next_phase(phase: Phase, event: Event) -> Phase {
    match (phase, event) {
        (Phase::NotStarted, Event::Invoked) => Phase::Running,
        (Phase::Running, Event::RuntimeExited) => Phase::Terminated(Termination::Success),
        (Phase::Running, Event::StartFailed) => Phase::Terminated(Termination::Fatal),
        _ => phase,
    }
}

/// The action that `event` calls for when it arrives in `phase`.
pub open spec fn action_for(phase: Phase, event: Event) -> Action {
    match (phase, event) {
        (Phase::NotStarted, Event::Invoked) => Action::StartRuntime,
        (Phase::Running, Event::RuntimeExited) => Action::ExitSuccess,
        (Phase::Running, Event::StartFailed) => Action::Abort,
        _ => Action::Nothing,
    }
}

/// Takes one step of the lifecycle: the phase after `event`, and what the
/// driver has to do now.
pub fn step(phase: Phase, event: Event) -> (next: (Phase, Action))
    ensures
        next.0 == next_phase(phase, event),
        next.1 == action_for(phase, event),
{
    match (phase, event) {
        (Phase::NotStarted, Event::Invoked) => (Phase::Running, Action::StartRuntime),
        (Phase::Running, Event::RuntimeExited) => (
            Phase::Terminated(Termination::Success),
            Action::ExitSuccess,
        ),
        (Phase::Running, Event::StartFailed) => (
            Phase::Terminated(Termination::Fatal),
            Action::Abort,
        ),
        _ => (phase, Action::Nothing),
    }
}

/// The phase that a process in `phase` has reached once the events of
/// `events` have arrived, first to last.
pub open spec fn phase_after(phase: Phase, events: Seq<Event>) -> Phase
    decreases events.len(),
{
    if events.len() == 0 {
        phase
    } else {
        phase_after(next_phase(phase, events.first()), events.drop_first())
    }
}

/// How often the driver is told to start the runtime while the events of
/// `events` arrive, first to last, at a process in `phase`.
pub open spec fn starts_during(phase: Phase, events: Seq<Event>) -> nat
    decreases events.len(),
{
    if events.len() == 0 {
        0
    } else {
        let now: nat = if action_for(phase, events.first()) == Action::StartRuntime {
            1
        } else {
            0
        };
        now + starts_during(next_phase(phase, events.first()), events.drop_first())
    }
}

/// Once the entry point has been invoked, nothing leads back to
/// `NotStarted`, and the runtime is not started again, whatever arrives.
pub proof fn lemma_no_way_back(phase: Phase, events: Seq<Event>)
    requires
        phase != Phase::NotStarted,
    ensures
        phase_after(phase, events) != Phase::NotStarted,
        starts_during(phase, events) == 0,
    decreases events.len(),
{
    if events.len() > 0 {
        lemma_no_way_back(next_phase(phase, events.first()), events.drop_first());
    }
}

/// Over the whole life of a process the runtime is started exactly once if
/// the entry point is ever invoked, and never otherwise: a second invocation
/// starts nothing.
pub proof fn lemma_single_start(events: Seq<Event>)
    ensures
        events.contains(Event::Invoked) ==> starts_during(Phase::NotStarted, events) == 1,
        !events.contains(Event::Invoked) ==> starts_during(Phase::NotStarted, events) == 0,
    decreases events.len(),
{
    if events.len() > 0 {
        let rest = events.drop_first();
        if events.first() == Event::Invoked {
            lemma_no_way_back(Phase::Running, rest);
            assert(events[0] == Event::Invoked);
        } else {
            lemma_single_start(rest);
            if rest.contains(Event::Invoked) {
                let i = choose|i: int| 0 <= i < rest.len() && rest[i] == Event::Invoked;
                assert(events[i + 1] == Event::Invoked);
            }
            if events.contains(Event::Invoked) {
                let i = choose|i: int| 0 <= i < events.len() && events[i] == Event::Invoked;
                assert(rest[i - 1] == Event::Invoked);
            }
        }
    }
}

/// A terminated process stays as it ended: no event changes how it
/// terminated.
pub proof fn lemma_termination_is_final(how: Termination, events: Seq<Event>)
    ensures
        phase_after(Phase::Terminated(how), events) == Phase::Terminated(how),
    decreases events.len(),
{
    if events.len() > 0 {
        lemma_termination_is_final(how, events.drop_first());
    }
}

} // verus!
