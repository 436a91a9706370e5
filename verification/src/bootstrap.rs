//! The entry point: start the runtime once, and settle what its start
//! operation reports.

use crate::diagnostic::{failure_message, failure_text};
use crate::lifecycle::{phase_after, starts_during, Event, Phase, Termination};
use vstd::prelude::*;

verus! {

/// The one error of the bootstrap: the runtime could not begin normal
/// operation. It is never recovered from and never retried.
#[derive(Debug)]
pub struct RuntimeStartFailure<E> {
    /// What the start operation reported, untouched.
    pub cause: E,
    /// The fixed text with which the process is to be terminated.
    pub diagnostic: String,
}

/// Whether `outcome` is what the failure policy makes of `started`, the value
/// that the start operation came back with: a normal return stays a normal
/// return, and a failure becomes fatal, with its cause kept and with the fixed
/// diagnostic.
pub open spec fn settles<E>(
    started: Result<(), E>,
    outcome: Result<(), RuntimeStartFailure<E>>,
) -> bool {
    match started {
        Ok(_) => outcome is Ok,
        Err(cause) => {
            &&& outcome is Err
            &&& outcome->Err_0.cause == cause
            &&& outcome->Err_0.diagnostic@ == failure_text()
        },
    }
}

/// Applies the failure policy to what the start operation came back with.
///
/// The caller terminates the process on `Err`, with the diagnostic it holds,
/// and returns normally on `Ok`.
pub fn conclude<E>(started: Result<(), E>) -> (outcome: Result<(), RuntimeStartFailure<E>>)
    ensures
        settles(started, outcome),
{
    match started {
        Ok(()) => Ok(()),
        Err(cause) => Err(RuntimeStartFailure { cause, diagnostic: failure_message() }),
    }
}

/// Runs the shell: hands `config` to `start`, which builds the runtime around
/// it and blocks until the runtime has shut down or has failed to start, and
/// settles what `start` reports.
///
/// `start` is called once, on `config` as it was given: it is consumed by the
/// call, and whatever is returned here is what that call on `config` came back
/// with. A normal return is passed on and carries no diagnostic; a failure
/// comes back with its cause and the fixed diagnostic, for the caller to
/// terminate the process with.
pub fn run<C, E, F>(config: C, start: F) -> (outcome: Result<(), RuntimeStartFailure<E>>) where
    F: FnOnce(C) -> Result<(), E>,

    requires
        call_requires(start, (config,)),
    ensures
        outcome is Ok ==> call_ensures(start, (config,), Ok(())),
        outcome is Err ==> call_ensures(start, (config,), Err(outcome->Err_0.cause)),
        outcome is Err ==> outcome->Err_0.diagnostic@ == failure_text(),
{
    let started = start(config);
    // A normal return holds the unit value, and there is only one.
    assert(started is Ok ==> started->Ok_0 == ());
    conclude(started)
}

/// The event with which the outcome of the start operation enters the
/// lifecycle.
pub open spec fn outcome_event<E>(started: Result<(), E>) -> Event {
    match started {
        Ok(_) => Event::RuntimeExited,
        Err(_) => Event::StartFailed,
    }
}

/// The event that tells the lifecycle what the start operation came back
/// with.
pub fn event_of<E>(started: &Result<(), E>) -> (event: Event)
    ensures
        event == outcome_event(*started),
{
    match started {
        Ok(_) => Event::RuntimeExited,
        Err(_) => Event::StartFailed,
    }
}

/// The entry point and the lifecycle agree. A life that consists of the
/// invocation and of what the start operation reports starts the runtime
/// once and ends terminated: with success where the entry point returns
/// normally, fatally where it reports the failure.
pub proof fn lemma_run_follows_lifecycle<E>(
    started: Result<(), E>,
    outcome: Result<(), RuntimeStartFailure<E>>,
)
    requires
        settles(started, outcome),
    ensures
        starts_during(Phase::NotStarted, seq![Event::Invoked, outcome_event(started)]) == 1,
        outcome is Ok ==> phase_after(
            Phase::NotStarted,
            seq![Event::Invoked, outcome_event(started)],
        ) == Phase::Terminated(Termination::Success),
        outcome is Err ==> phase_after(
            Phase::NotStarted,
            seq![Event::Invoked, outcome_event(started)],
        ) == Phase::Terminated(Termination::Fatal),
{
    reveal_with_fuel(phase_after, 3);
    reveal_with_fuel(starts_during, 3);
}

} // verus!
