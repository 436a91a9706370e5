use futurebuddy_desktop::bootstrap::{conclude, event_of, run, RuntimeStartFailure};
use futurebuddy_desktop::lifecycle::{step, Action, Event, Phase, Termination};
use std::cell::Cell;

#[test]
fn failing_runner_is_fatal_with_the_fixed_diagnostic() {
    let outcome = run((), |_config: ()| Err::<(), &str>("no display server"));
    let failure = outcome.unwrap_err();
    assert_eq!(failure.diagnostic, "error while running FutureBuddy Desktop");
    assert_eq!(failure.cause, "no display server");
}

#[test]
fn diagnostic_names_the_application_and_the_failed_run() {
    let failure = run(7u32, |_config: u32| Err::<(), u8>(1)).unwrap_err();
    assert!(failure.diagnostic.contains("FutureBuddy Desktop"));
    assert!(failure.diagnostic.starts_with("error while running "));
}

#[test]
fn diagnostic_does_not_depend_on_the_cause() {
    let first = run((), |_config: ()| Err::<(), String>(String::from("missing library")));
    let second = run((), |_config: ()| Err::<(), i64>(-3));
    assert_eq!(first.unwrap_err().diagnostic, second.unwrap_err().diagnostic);
}

#[test]
fn returning_runner_passes_through() {
    let outcome = run("generated context", |_config: &str| Ok::<(), String>(()));
    assert!(outcome.is_ok());
}

#[test]
fn start_is_called_exactly_once_on_success() {
    let calls = Cell::new(0u32);
    let outcome = run((), |_config: ()| {
        calls.set(calls.get() + 1);
        Ok::<(), ()>(())
    });
    assert!(outcome.is_ok());
    assert_eq!(calls.get(), 1);
}

#[test]
fn start_is_called_exactly_once_on_failure() {
    let calls = Cell::new(0u32);
    let outcome = run((), |_config: ()| {
        calls.set(calls.get() + 1);
        Err::<(), u8>(9)
    });
    assert!(outcome.is_err());
    assert_eq!(calls.get(), 1);
}

#[test]
fn failure_is_not_retried() {
    let calls = Cell::new(0u32);
    let outcome = run((), |_config: ()| {
        calls.set(calls.get() + 1);
        if calls.get() == 1 {
            Err::<(), &str>("first attempt")
        } else {
            Ok(())
        }
    });
    assert_eq!(outcome.unwrap_err().cause, "first attempt");
    assert_eq!(calls.get(), 1);
}

#[test]
fn configuration_reaches_the_runtime_unchanged() {
    let generated: Vec<(String, u32)> = vec![
        (String::from("identifier"), 1),
        (String::from("windows"), 2),
        (String::from("assets"), 3),
    ];
    let before = generated.clone();
    let seen: Cell<Option<Vec<(String, u32)>>> = Cell::new(None);
    let outcome = run(generated, |config: Vec<(String, u32)>| {
        seen.set(Some(config));
        Ok::<(), ()>(())
    });
    assert!(outcome.is_ok());
    assert_eq!(seen.take(), Some(before));
}

#[test]
fn configuration_reaches_a_failing_runtime_unchanged() {
    let generated = String::from("{\"productName\":\"FutureBuddy Desktop\"}");
    let before = generated.clone();
    let outcome = run(generated, |config: String| Err::<(), String>(config));
    assert_eq!(outcome.unwrap_err().cause, before);
}

#[test]
fn conclude_keeps_a_normal_return() {
    assert!(conclude::<u8>(Ok(())).is_ok());
}

#[test]
fn conclude_makes_a_failure_fatal() {
    let RuntimeStartFailure { cause, diagnostic } = conclude(Err::<(), u16>(404)).unwrap_err();
    assert_eq!(cause, 404);
    assert_eq!(diagnostic, "error while running FutureBuddy Desktop");
}

#[test]
fn event_of_tells_the_outcomes_apart() {
    assert_eq!(event_of(&Ok::<(), u8>(())), Event::RuntimeExited);
    assert_eq!(event_of(&Err::<(), u8>(0)), Event::StartFailed);
}

#[test]
fn lifecycle_ends_as_the_entry_point_reports_on_failure() {
    let started = Err::<(), &str>("incompatible platform");
    let (phase, action) = step(Phase::NotStarted, Event::Invoked);
    assert_eq!(action, Action::StartRuntime);
    let (phase, action) = step(phase, event_of(&started));
    assert_eq!(action, Action::Abort);
    assert_eq!(phase, Phase::Terminated(Termination::Fatal));
    assert!(conclude(started).is_err());
}

#[test]
fn lifecycle_ends_as_the_entry_point_reports_on_success() {
    let started = Ok::<(), &str>(());
    let (phase, action) = step(Phase::NotStarted, Event::Invoked);
    assert_eq!(action, Action::StartRuntime);
    let (phase, action) = step(phase, event_of(&started));
    assert_eq!(action, Action::ExitSuccess);
    assert_eq!(phase, Phase::Terminated(Termination::Success));
    assert!(conclude(started).is_ok());
}

#[test]
fn run_is_reachable_from_the_crate_root() {
    let outcome = futurebuddy_desktop::run((), |_config: ()| Err::<(), ()>(()));
    assert_eq!(
        outcome.unwrap_err().diagnostic,
        "error while running FutureBuddy Desktop"
    );
}
