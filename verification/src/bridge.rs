//! The order of a run: store the preference if one was given, wait, read the
//! current preference back, and report it.
//!
//! The run is a state machine. The program hands it what has just happened,
//! and is told what to do next; the machine itself starts no command and
//! reads no setting.

use crate::preferences::PreferenceValue;
use crate::settings::{get_preference, reported, writer_arguments, ReadOutcome};
use vstd::prelude::*;

verus! {

/// How long the store is given to take the new value in, in milliseconds.
pub const SETTLE_MILLIS: u64 = 100;

/// The exit status of a run that could not read the preference.
pub const FAILURE_STATUS: i32 = 1;

/// What a run says when it gives up because the command could not be started.
pub const LAUNCH_FAILURE: &'static str = "failed to execute process";

/// How far a run has come.
#[derive(Copy, Clone, PartialEq, Eq, Debug, Structural)]
pub enum Stage {
    /// Nothing has happened yet.
    Start,
    /// The command that stores the preference is being started.
    Launching,
    /// The store is given time.
    Settling,
    /// The settings service is being asked.
    Reading,
    /// The run is over.
    Done,
}

/// What has just happened.
#[derive(Copy, Clone, PartialEq, Eq, Debug, Structural)]
pub enum Event {
    /// The command line was read, with the preference that it gave, if any.
    Begin(Option<PreferenceValue>),
    /// The command that stores the preference was started.
    Launched,
    /// The command that stores the preference could not be started.
    LaunchFailed,
    /// The time given to the store is over.
    Elapsed,
    /// The settings service was asked, with this outcome.
    Answered(ReadOutcome),
}

/// What the program is to do next.
#[derive(Copy, Clone, PartialEq, Eq, Debug, Structural)]
pub enum Action {
    /// Start the command that stores this preference, and do not wait for it.
    Launch(PreferenceValue),
    /// Wait for this many milliseconds.
    Wait(u64),
    /// Ask the settings service for the current preference.
    Query,
    /// Print this preference and end with success.
    Print(PreferenceValue),
    /// Print nothing and end with this exit status.
    Exit(i32),
    /// Give up with a fatal message.
    Abort,
}

/// One move of the machine: the stage it enters, and what is to be done.
#[derive(Copy, Clone, PartialEq, Eq, Debug, Structural)]
pub struct Step {
    pub next: Stage,
    pub action: Action,
}

/// How a run ends once the settings service was asked: it prints the
/// preference that was read, or fails where none was.
pub open spec fn report(outcome: ReadOutcome) -> Action {
    match reported(outcome) {
        Some(preference) => Action::Print(preference),
        None => Action::Exit(FAILURE_STATUS),
    }
}

/// The move that `event` causes at `stage`, or none where the event does not
/// belong to the stage.
pub open spec fn spec_step(stage: Stage, event: Event) -> Option<Step> {
    match (stage, event) {
        (Stage::Start, Event::Begin(Some(preference))) => Some(
            Step { next: Stage::Launching, action: Action::Launch(preference) },
        ),
        (Stage::Start, Event::Begin(None)) => Some(
            Step { next: Stage::Settling, action: Action::Wait(SETTLE_MILLIS) },
        ),
        (Stage::Launching, Event::Launched) => Some(
            Step { next: Stage::Settling, action: Action::Wait(SETTLE_MILLIS) },
        ),
        (Stage::Launching, Event::LaunchFailed) => Some(
            Step { next: Stage::Done, action: Action::Abort },
        ),
        (Stage::Settling, Event::Elapsed) => Some(
            Step { next: Stage::Reading, action: Action::Query },
        ),
        (Stage::Reading, Event::Answered(outcome)) => Some(
            Step { next: Stage::Done, action: report(outcome) },
        ),
        _ => None,
    }
}

/// Makes the move that `event` causes at `stage`.
pub fn step(stage: Stage, event: Event) -> (moved: Option<Step>)
    ensures
        moved == spec_step(stage, event),
{
    match (stage, event) {
        (Stage::Start, Event::Begin(Some(preference))) => Some(
            Step { next: Stage::Launching, action: Action::Launch(preference) },
        ),
        (Stage::Start, Event::Begin(None)) | (Stage::Launching, Event::Launched) => Some(
            Step { next: Stage::Settling, action: Action::Wait(SETTLE_MILLIS) },
        ),
        (Stage::Launching, Event::LaunchFailed) => Some(
            Step { next: Stage::Done, action: Action::Abort },
        ),
        (Stage::Settling, Event::Elapsed) => Some(
            Step { next: Stage::Reading, action: Action::Query },
        ),
        (Stage::Reading, Event::Answered(outcome)) => {
            let action = match get_preference(outcome) {
                Some(preference) => Action::Print(preference),
                None => Action::Exit(FAILURE_STATUS),
            };
            Some(Step { next: Stage::Done, action })
        },
        _ => None,
    }
}

/// What a run does, one action after the other, when it stands at `stage`
/// and `events` happen in their order. It ends with the events, or at the
/// first event that does not belong to the stage it has reached.
pub open spec fn actions(stage: Stage, events: Seq<Event>) -> Seq<Action>
    decreases events.len(),
{
    if events.len() == 0 {
        Seq::empty()
    } else {
        match spec_step(stage, events[0]) {
            Some(moved) => seq![moved.action] + actions(moved.next, events.skip(1)),
            None => Seq::empty(),
        }
    }
}

/// Once a run has left its start, it starts no command.
pub proof fn lemma_launch_only_at_start(stage: Stage, events: Seq<Event>)
    requires
        stage != Stage::Start,
    ensures
        forall|i: int|
            0 <= i < actions(stage, events).len() ==> !(#[trigger] actions(stage, events)[i] is Launch),
    decreases events.len(),
{
    if events.len() > 0 {
        match spec_step(stage, events[0]) {
            Some(moved) => {
                lemma_launch_only_at_start(moved.next, events.skip(1));
            },
            None => {},
        }
    }
}

/// In every run from the start, at most one command is started and the
/// settings service is asked at most once, the command before the question;
/// and no run does more than four things.
pub proof fn lemma_run_order(events: Seq<Event>)
    ensures
        ({
            let run = actions(Stage::Start, events);
            &&& run.len() <= 4
            &&& forall|i: int, j: int|
                0 <= i < run.len() && 0 <= j < run.len() && #[trigger] run[i] is Launch
                    && #[trigger] run[j] is Launch ==> i == j
            &&& forall|i: int, j: int|
                0 <= i < run.len() && 0 <= j < run.len() && #[trigger] run[i] is Query
                    && #[trigger] run[j] is Query ==> i == j
            &&& forall|i: int, j: int|
                0 <= i < run.len() && 0 <= j < run.len() && #[trigger] run[i] is Launch
                    && #[trigger] run[j] is Query ==> i < j
        }),
{
    reveal_with_fuel(actions, 6);
    if events.len() > 0 {
        let rest = events.skip(1);
        if rest.len() > 0 {
            let rest2 = rest.skip(1);
            if rest2.len() > 0 {
                let rest3 = rest2.skip(1);
                if rest3.len() > 0 {
                    let rest4 = rest3.skip(1);
                    assert(actions(Stage::Done, rest4).len() == 0);
                }
            }
        }
    }
}

/// A run that was given a preference begins by starting the command that
/// stores it, with the value that the store accepts for that preference as
/// the command's last argument. It starts no other command, and asks the
/// settings service only after that.
pub proof fn lemma_given_preference_is_stored_first(
    preference: PreferenceValue,
    events: Seq<Event>,
)
    requires
        events.len() > 0,
        events[0] == Event::Begin(Some(preference)),
    ensures
        ({
            let run = actions(Stage::Start, events);
            &&& run.len() > 0
            &&& run[0] == Action::Launch(preference)
            &&& writer_arguments(preference).last() == preference.spec_gsettings_value()
            &&& forall|i: int| 0 < i < run.len() ==> !(#[trigger] run[i] is Launch)
            &&& forall|i: int| 0 <= i < run.len() && #[trigger] run[i] is Query ==> 0 < i
        }),
{
    let rest = events.skip(1);
    let tail = actions(Stage::Launching, rest);
    lemma_launch_only_at_start(Stage::Launching, rest);
    let run = actions(Stage::Start, events);
    assert(run == seq![Action::Launch(preference)] + tail);
    assert forall|i: int| 0 < i < run.len() implies !(#[trigger] run[i] is Launch) by {
        assert(run[i] == tail[i - 1]);
    }
}

/// A run that was given no preference starts no command.
pub proof fn lemma_no_preference_stores_nothing(events: Seq<Event>)
    requires
        events.len() > 0,
        events[0] == Event::Begin(None),
    ensures
        ({
            let run = actions(Stage::Start, events);
            forall|i: int| 0 <= i < run.len() ==> !(#[trigger] run[i] is Launch)
        }),
{
    let rest = events.skip(1);
    let tail = actions(Stage::Settling, rest);
    lemma_launch_only_at_start(Stage::Settling, rest);
    let run = actions(Stage::Start, events);
    assert(run == seq![Action::Wait(SETTLE_MILLIS)] + tail);
    assert forall|i: int| 0 <= i < run.len() implies !(#[trigger] run[i] is Launch) by {
        if i > 0 {
            assert(run[i] == tail[i - 1]);
        }
    }
}

/// The whole run without a preference: wait, ask, and report what was read.
pub proof fn lemma_run_without_preference(outcome: ReadOutcome)
    ensures
        actions(
            Stage::Start,
            seq![Event::Begin(None), Event::Elapsed, Event::Answered(outcome)],
        ) == seq![Action::Wait(SETTLE_MILLIS), Action::Query, report(outcome)],
{
    let events = seq![Event::Begin(None), Event::Elapsed, Event::Answered(outcome)];
    reveal_with_fuel(actions, 4);
    assert(events.skip(1) =~= seq![Event::Elapsed, Event::Answered(outcome)]);
    assert(events.skip(1).skip(1) =~= seq![Event::Answered(outcome)]);
    assert(events.skip(1).skip(1).skip(1) =~= Seq::<Event>::empty());
    assert(actions(Stage::Start, events) =~= seq![
        Action::Wait(SETTLE_MILLIS),
        Action::Query,
        report(outcome),
    ]);
}

/// The whole run with a preference: start the command that stores it, wait,
/// ask, and report what was read.
pub proof fn lemma_run_with_preference(preference: PreferenceValue, outcome: ReadOutcome)
    ensures
        actions(
            Stage::Start,
            seq![
                Event::Begin(Some(preference)),
                Event::Launched,
                Event::Elapsed,
                Event::Answered(outcome),
            ],
        ) == seq![
            Action::Launch(preference),
            Action::Wait(SETTLE_MILLIS),
            Action::Query,
            report(outcome),
        ],
{
    let events = seq![
        Event::Begin(Some(preference)),
        Event::Launched,
        Event::Elapsed,
        Event::Answered(outcome),
    ];
    reveal_with_fuel(actions, 5);
    assert(events.skip(1) =~= seq![Event::Launched, Event::Elapsed, Event::Answered(outcome)]);
    assert(events.skip(1).skip(1) =~= seq![Event::Elapsed, Event::Answered(outcome)]);
    assert(events.skip(1).skip(1).skip(1) =~= seq![Event::Answered(outcome)]);
    assert(events.skip(1).skip(1).skip(1).skip(1) =~= Seq::<Event>::empty());
    assert(actions(Stage::Start, events) =~= seq![
        Action::Launch(preference),
        Action::Wait(SETTLE_MILLIS),
        Action::Query,
        report(outcome),
    ]);
}

/// A run whose command cannot be started gives up at once: it neither waits
/// nor asks the settings service.
pub proof fn lemma_run_with_failed_launch(preference: PreferenceValue, later: Seq<Event>)
    ensures
        actions(
            Stage::Start,
            seq![Event::Begin(Some(preference)), Event::LaunchFailed] + later,
        ) == seq![Action::Launch(preference), Action::Abort],
{
    let events = seq![Event::Begin(Some(preference)), Event::LaunchFailed] + later;
    reveal_with_fuel(actions, 4);
    assert(events.skip(1).skip(1) =~= later);
    assert(actions(Stage::Done, later) =~= Seq::<Action>::empty());
    assert(actions(Stage::Start, events) =~= seq![Action::Launch(preference), Action::Abort]);
}

} // verus!
