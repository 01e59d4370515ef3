use color_scheme::bridge::{
    step, Action, Event, Stage, Step, FAILURE_STATUS, LAUNCH_FAILURE, SETTLE_MILLIS,
};
use color_scheme::preferences::PreferenceValue;
use color_scheme::settings::{set_preference, ReadOutcome};

/// Hands the events to the machine one by one, from the start, and collects
/// what it asks for, up to the first event that it does not take.
fn run(events: &[Event]) -> Vec<Action> {
    let mut stage = Stage::Start;
    let mut done = Vec::new();
    for event in events {
        match step(stage, *event) {
            Some(moved) => {
                stage = moved.next;
                done.push(moved.action);
            }
            None => return done,
        }
    }
    done
}

fn all_stages() -> [Stage; 5] {
    [
        Stage::Start,
        Stage::Launching,
        Stage::Settling,
        Stage::Reading,
        Stage::Done,
    ]
}

fn some_events() -> Vec<Event> {
    vec![
        Event::Begin(None),
        Event::Begin(Some(PreferenceValue::Default)),
        Event::Begin(Some(PreferenceValue::Light)),
        Event::Begin(Some(PreferenceValue::Dark)),
        Event::Launched,
        Event::LaunchFailed,
        Event::Elapsed,
        Event::Answered(ReadOutcome::NoConnection),
        Event::Answered(ReadOutcome::CallFailed),
        Event::Answered(ReadOutcome::WrongType),
        Event::Answered(ReadOutcome::Code(0)),
        Event::Answered(ReadOutcome::Code(1)),
        Event::Answered(ReadOutcome::Code(2)),
    ]
}

#[test]
fn constants() {
    assert_eq!(SETTLE_MILLIS, 100);
    assert_eq!(FAILURE_STATUS, 1);
    assert_eq!(LAUNCH_FAILURE, "failed to execute process");
}

#[test]
fn service_answers_dark_and_the_run_prints_it() {
    let done = run(&[
        Event::Begin(None),
        Event::Elapsed,
        Event::Answered(ReadOutcome::Code(1)),
    ]);
    assert_eq!(
        done,
        vec![
            Action::Wait(100),
            Action::Query,
            Action::Print(PreferenceValue::Dark)
        ]
    );
    match done[2] {
        Action::Print(preference) => assert_eq!(preference.quoted(), "\"dark\""),
        _ => panic!("the run does not print"),
    }
}

#[test]
fn service_unreachable_and_the_run_fails_silently() {
    let done = run(&[
        Event::Begin(None),
        Event::Elapsed,
        Event::Answered(ReadOutcome::NoConnection),
    ]);
    assert_eq!(done, vec![Action::Wait(100), Action::Query, Action::Exit(1)]);
    assert!(!done.iter().any(|action| matches!(action, Action::Print(_))));
}

#[test]
fn failed_call_and_wrong_reply_fail_like_no_connection() {
    for outcome in [ReadOutcome::CallFailed, ReadOutcome::WrongType] {
        let done = run(&[Event::Begin(None), Event::Elapsed, Event::Answered(outcome)]);
        assert_eq!(done, vec![Action::Wait(100), Action::Query, Action::Exit(1)]);
    }
}

#[test]
fn given_preference_is_stored_once_before_the_query() {
    for preference in [
        PreferenceValue::Default,
        PreferenceValue::Light,
        PreferenceValue::Dark,
    ] {
        let done = run(&[
            Event::Begin(Some(preference)),
            Event::Launched,
            Event::Elapsed,
            Event::Answered(ReadOutcome::Code(2)),
        ]);
        assert_eq!(
            done,
            vec![
                Action::Launch(preference),
                Action::Wait(100),
                Action::Query,
                Action::Print(PreferenceValue::Light)
            ]
        );
        let launches = done
            .iter()
            .filter(|action| matches!(action, Action::Launch(_)))
            .count();
        assert_eq!(launches, 1);
        let launch_at = done
            .iter()
            .position(|action| matches!(action, Action::Launch(_)));
        let query_at = done.iter().position(|action| matches!(action, Action::Query));
        assert_eq!(launch_at, Some(0));
        assert_eq!(query_at, Some(2));
    }
}

#[test]
fn launched_command_carries_the_mapped_value() {
    let done = run(&[Event::Begin(Some(PreferenceValue::Dark))]);
    assert_eq!(done, vec![Action::Launch(PreferenceValue::Dark)]);
    match done[0] {
        Action::Launch(preference) => {
            let command = set_preference(preference);
            assert_eq!(command.program, "gsettings");
            assert_eq!(command.args[3], "prefer-dark");
        }
        _ => panic!("the run does not start the command"),
    }
}

#[test]
fn no_preference_starts_no_command() {
    let done = run(&[
        Event::Begin(None),
        Event::Elapsed,
        Event::Answered(ReadOutcome::Code(0)),
    ]);
    assert_eq!(
        done,
        vec![
            Action::Wait(100),
            Action::Query,
            Action::Print(PreferenceValue::Default)
        ]
    );
    assert!(!done.iter().any(|action| matches!(action, Action::Launch(_))));
}

#[test]
fn failed_launch_aborts_the_run() {
    let done = run(&[
        Event::Begin(Some(PreferenceValue::Light)),
        Event::LaunchFailed,
        Event::Elapsed,
        Event::Answered(ReadOutcome::Code(2)),
    ]);
    assert_eq!(
        done,
        vec![Action::Launch(PreferenceValue::Light), Action::Abort]
    );
}

#[test]
fn each_move_from_its_stage() {
    assert_eq!(
        step(Stage::Start, Event::Begin(Some(PreferenceValue::Dark))),
        Some(Step {
            next: Stage::Launching,
            action: Action::Launch(PreferenceValue::Dark)
        })
    );
    assert_eq!(
        step(Stage::Start, Event::Begin(None)),
        Some(Step {
            next: Stage::Settling,
            action: Action::Wait(100)
        })
    );
    assert_eq!(
        step(Stage::Launching, Event::Launched),
        Some(Step {
            next: Stage::Settling,
            action: Action::Wait(100)
        })
    );
    assert_eq!(
        step(Stage::Launching, Event::LaunchFailed),
        Some(Step {
            next: Stage::Done,
            action: Action::Abort
        })
    );
    assert_eq!(
        step(Stage::Settling, Event::Elapsed),
        Some(Step {
            next: Stage::Reading,
            action: Action::Query
        })
    );
    assert_eq!(
        step(Stage::Reading, Event::Answered(ReadOutcome::Code(2))),
        Some(Step {
            next: Stage::Done,
            action: Action::Print(PreferenceValue::Light)
        })
    );
    assert_eq!(
        step(Stage::Reading, Event::Answered(ReadOutcome::Code(7))),
        Some(Step {
            next: Stage::Done,
            action: Action::Print(PreferenceValue::Default)
        })
    );
    assert_eq!(
        step(Stage::Reading, Event::Answered(ReadOutcome::CallFailed)),
        Some(Step {
            next: Stage::Done,
            action: Action::Exit(1)
        })
    );
}

#[test]
fn events_out_of_place_are_not_taken() {
    assert_eq!(step(Stage::Start, Event::Launched), None);
    assert_eq!(step(Stage::Start, Event::Elapsed), None);
    assert_eq!(step(Stage::Start, Event::Answered(ReadOutcome::Code(1))), None);
    assert_eq!(step(Stage::Launching, Event::Begin(None)), None);
    assert_eq!(step(Stage::Launching, Event::Elapsed), None);
    assert_eq!(step(Stage::Settling, Event::Launched), None);
    assert_eq!(step(Stage::Settling, Event::LaunchFailed), None);
    assert_eq!(step(Stage::Settling, Event::Answered(ReadOutcome::Code(1))), None);
    assert_eq!(step(Stage::Reading, Event::Elapsed), None);
    assert_eq!(step(Stage::Reading, Event::Begin(Some(PreferenceValue::Dark))), None);
}

#[test]
fn a_finished_run_takes_no_event() {
    for event in some_events() {
        assert_eq!(step(Stage::Done, event), None);
    }
}

#[test]
fn no_stage_but_the_start_launches() {
    for stage in all_stages() {
        for event in some_events() {
            if let Some(moved) = step(stage, event) {
                if matches!(moved.action, Action::Launch(_)) {
                    assert_eq!(stage, Stage::Start);
                }
                if matches!(moved.action, Action::Query) {
                    assert_eq!(stage, Stage::Settling);
                }
            }
        }
    }
}

#[test]
fn no_run_does_more_than_four_things() {
    let events = some_events();
    for a in &events {
        for b in &events {
            for c in &events {
                for d in &events {
                    for e in &events {
                        let done = run(&[*a, *b, *c, *d, *e]);
                        assert!(done.len() <= 4);
                        let launches = done
                            .iter()
                            .filter(|action| matches!(action, Action::Launch(_)))
                            .count();
                        let queries = done
                            .iter()
                            .filter(|action| matches!(action, Action::Query))
                            .count();
                        assert!(launches <= 1);
                        assert!(queries <= 1);
                    }
                }
            }
        }
    }
}
