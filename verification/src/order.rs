//! What a run of the typing operation has been through by the time it
//! reaches a stage: the delay comes before the capability is acquired, the
//! capability before the text is submitted, and a run ends in an error only
//! where the caller reported one.

use crate::typing::{
    due, is_over, lemma_stage_after_push, next_stage, stage_after, ActionView, Event, Stage,
    TypeError, FOCUS_DELAY_MS,
};
use vstd::prelude::*;

verus! {

/// `event` is among the reports.
pub open spec fn reported(events: Seq<Event>, event: Event) -> bool {
    exists|i: int| 0 <= i < events.len() && #[trigger] events[i] == event
}

/// `first` is among the reports, and `second` somewhere behind it.
pub open spec fn reported_in_turn(events: Seq<Event>, first: Event, second: Event) -> bool {
    exists|i: int, j: int|
        #![trigger events[i], events[j]]
        0 <= i < j < events.len() && events[i] == first && events[j] == second
}

/// `first` is among the reports, `second` somewhere behind it, and `third`
/// somewhere behind that.
pub open spec fn reported_all_in_turn(
    events: Seq<Event>,
    first: Event,
    second: Event,
    third: Event,
) -> bool {
    exists|i: int, j: int, k: int|
        #![trigger events[i], events[j], events[k]]
        0 <= i < j < k < events.len() && events[i] == first && events[j] == second && events[k]
            == third
}

/// What must have been reported, and in which order, for a fresh run to
/// stand at `stage`.
pub open spec fn history_of(stage: Stage, events: Seq<Event>) -> bool {
    match stage {
        Stage::Delaying => true,
        Stage::Acquiring => reported(events, Event::DelayElapsed),
        Stage::Submitting => reported_in_turn(
            events,
            Event::DelayElapsed,
            Event::CapabilityAcquired,
        ),
        Stage::Finished => reported_all_in_turn(
            events,
            Event::DelayElapsed,
            Event::CapabilityAcquired,
            Event::TextSubmitted,
        ),
        Stage::Failed(TypeError::CapabilityUnavailable) => reported_in_turn(
            events,
            Event::DelayElapsed,
            Event::CapabilityUnavailable,
        ),
        Stage::Failed(TypeError::SubmissionFailed) => reported_all_in_turn(
            events,
            Event::DelayElapsed,
            Event::CapabilityAcquired,
            Event::SubmissionFailed,
        ),
    }
}

proof fn lemma_reported_stays(events: Seq<Event>, last: Event, event: Event)
    requires
        reported(events, event),
    ensures
        reported(events.push(last), event),
{
    let i = choose|i: int| 0 <= i < events.len() && #[trigger] events[i] == event;
    assert(events.push(last)[i] == event);
}

proof fn lemma_in_turn_stays(events: Seq<Event>, last: Event, first: Event, second: Event)
    requires
        reported_in_turn(events, first, second),
    ensures
        reported_in_turn(events.push(last), first, second),
{
    let (i, j) = choose|i: int, j: int|
        #![trigger events[i], events[j]]
        0 <= i < j < events.len() && events[i] == first && events[j] == second;
    let longer = events.push(last);
    assert(longer[i] == first && longer[j] == second);
}

proof fn lemma_all_in_turn_stays(
    events: Seq<Event>,
    last: Event,
    first: Event,
    second: Event,
    third: Event,
)
    requires
        reported_all_in_turn(events, first, second, third),
    ensures
        reported_all_in_turn(events.push(last), first, second, third),
{
    let (i, j, k) = choose|i: int, j: int, k: int|
        #![trigger events[i], events[j], events[k]]
        0 <= i < j < k < events.len() && events[i] == first && events[j] == second && events[k]
            == third;
    let longer = events.push(last);
    assert(longer[i] == first && longer[j] == second && longer[k] == third);
}

proof fn lemma_reported_then(events: Seq<Event>, first: Event, second: Event)
    requires
        reported(events, first),
    ensures
        reported_in_turn(events.push(second), first, second),
{
    let i = choose|i: int| 0 <= i < events.len() && #[trigger] events[i] == first;
    let j = events.len() as int;
    let longer = events.push(second);
    assert(longer[i] == first && longer[j] == second);
}

proof fn lemma_in_turn_then(events: Seq<Event>, first: Event, second: Event, third: Event)
    requires
        reported_in_turn(events, first, second),
    ensures
        reported_all_in_turn(events.push(third), first, second, third),
{
    let (i, j) = choose|i: int, j: int|
        #![trigger events[i], events[j]]
        0 <= i < j < events.len() && events[i] == first && events[j] == second;
    let k = events.len() as int;
    let longer = events.push(third);
    assert(longer[i] == first && longer[j] == second && longer[k] == third);
}

/// A history that held of a stage still holds of it after one more report.
proof fn lemma_history_stays(stage: Stage, events: Seq<Event>, last: Event)
    requires
        history_of(stage, events),
    ensures
        history_of(stage, events.push(last)),
{
    match stage {
        Stage::Delaying => {},
        Stage::Acquiring => {
            lemma_reported_stays(events, last, Event::DelayElapsed);
        },
        Stage::Submitting => {
            lemma_in_turn_stays(events, last, Event::DelayElapsed, Event::CapabilityAcquired);
        },
        Stage::Finished => {
            lemma_all_in_turn_stays(
                events,
                last,
                Event::DelayElapsed,
                Event::CapabilityAcquired,
                Event::TextSubmitted,
            );
        },
        Stage::Failed(TypeError::CapabilityUnavailable) => {
            lemma_in_turn_stays(events, last, Event::DelayElapsed, Event::CapabilityUnavailable);
        },
        Stage::Failed(TypeError::SubmissionFailed) => {
            lemma_all_in_turn_stays(
                events,
                last,
                Event::DelayElapsed,
                Event::CapabilityAcquired,
                Event::SubmissionFailed,
            );
        },
    }
}

/// Whatever the caller reports, and in whatever order, the stage that a
/// fresh run stands at has its history behind it: the delay has elapsed
/// before the capability is asked for, the capability was acquired after the
/// delay before the text is handed out, and the run has ended only after the
/// step that ended it was attempted and reported.
pub proof fn lemma_stage_has_history(events: Seq<Event>)
    ensures
        history_of(stage_after(events), events),
    decreases events.len(),
{
    if events.len() > 0 {
        let before = events.drop_last();
        let last = events.last();
        let stage = stage_after(before);
        lemma_stage_has_history(before);
        assert(events =~= before.push(last));
        if next_stage(stage, last) == stage {
            lemma_history_stays(stage, before, last);
        } else {
            match stage {
                Stage::Delaying => {
                    assert(before.push(last)[before.len() as int] == Event::DelayElapsed);
                },
                Stage::Acquiring => {
                    lemma_reported_then(before, Event::DelayElapsed, last);
                },
                Stage::Submitting => {
                    lemma_in_turn_then(
                        before,
                        Event::DelayElapsed,
                        Event::CapabilityAcquired,
                        last,
                    );
                },
                _ => {},
            }
        }
    }
}

/// The text is handed out for typing only after the delay has elapsed and
/// the capability was then acquired, and it is the text that the run was
/// begun with. The only wait that a run asks for is the full focus delay.
pub proof fn lemma_submission_follows_delay(text: Seq<char>, events: Seq<Event>)
    ensures
        due(text, stage_after(events)) is Submit ==> {
            &&& due(text, stage_after(events)) == ActionView::Submit(text)
            &&& reported_in_turn(events, Event::DelayElapsed, Event::CapabilityAcquired)
        },
        due(text, stage_after(events)) is Wait ==> {
            &&& due(text, stage_after(events)) == ActionView::Wait(FOCUS_DELAY_MS)
            &&& FOCUS_DELAY_MS >= 300
            &&& stage_after(events) == Stage::Delaying
        },
        stage_after(Seq::<Event>::empty()) == Stage::Delaying,
{
    lemma_stage_has_history(events);
}

/// A run is over only after the delay has elapsed. It has finished only
/// after the text was submitted, behind the delay and the acquisition; it
/// has failed only where the caller reported the failure, and never on
/// account of the text.
pub proof fn lemma_end_follows_attempt(events: Seq<Event>)
    ensures
        is_over(stage_after(events)) ==> reported(events, Event::DelayElapsed),
        stage_after(events) == Stage::Finished ==> reported_all_in_turn(
            events,
            Event::DelayElapsed,
            Event::CapabilityAcquired,
            Event::TextSubmitted,
        ),
        stage_after(events) == Stage::Failed(TypeError::CapabilityUnavailable) ==> reported(
            events,
            Event::CapabilityUnavailable,
        ),
        stage_after(events) == Stage::Failed(TypeError::SubmissionFailed) ==> reported(
            events,
            Event::SubmissionFailed,
        ),
{
    lemma_stage_has_history(events);
    match stage_after(events) {
        Stage::Finished => {
            let (i, j, k) = choose|i: int, j: int, k: int|
                #![trigger events[i], events[j], events[k]]
                0 <= i < j < k < events.len() && events[i] == Event::DelayElapsed && events[j]
                    == Event::CapabilityAcquired && events[k] == Event::TextSubmitted;
            assert(events[i] == Event::DelayElapsed);
        },
        Stage::Failed(TypeError::CapabilityUnavailable) => {
            let (i, j) = choose|i: int, j: int|
                #![trigger events[i], events[j]]
                0 <= i < j < events.len() && events[i] == Event::DelayElapsed && events[j]
                    == Event::CapabilityUnavailable;
            assert(events[i] == Event::DelayElapsed);
            assert(events[j] == Event::CapabilityUnavailable);
        },
        Stage::Failed(TypeError::SubmissionFailed) => {
            let (i, j, k) = choose|i: int, j: int, k: int|
                #![trigger events[i], events[j], events[k]]
                0 <= i < j < k < events.len() && events[i] == Event::DelayElapsed && events[j]
                    == Event::CapabilityAcquired && events[k] == Event::SubmissionFailed;
            assert(events[i] == Event::DelayElapsed);
            assert(events[k] == Event::SubmissionFailed);
        },
        _ => {},
    }
}

/// A run that has ended stays as it ended, whatever is reported to it.
pub proof fn lemma_end_is_final(stage: Stage, event: Event)
    requires
        is_over(stage),
    ensures
        next_stage(stage, event) == stage,
{
}

/// A run whose three effects all succeed finishes, whatever the text: an
/// empty text is typed like any other.
pub proof fn lemma_unhindered_run_finishes(text: Seq<char>)
    ensures
        stage_after(seq![Event::DelayElapsed]) == Stage::Acquiring,
        stage_after(seq![Event::DelayElapsed, Event::CapabilityAcquired]) == Stage::Submitting,
        due(text, stage_after(seq![Event::DelayElapsed, Event::CapabilityAcquired]))
            == ActionView::Submit(text),
        stage_after(seq![Event::DelayElapsed, Event::CapabilityAcquired, Event::TextSubmitted])
            == Stage::Finished,
{
    let none = Seq::<Event>::empty();
    let one = seq![Event::DelayElapsed];
    let two = seq![Event::DelayElapsed, Event::CapabilityAcquired];
    let three = seq![Event::DelayElapsed, Event::CapabilityAcquired, Event::TextSubmitted];
    assert(one =~= none.push(Event::DelayElapsed));
    assert(two =~= one.push(Event::CapabilityAcquired));
    assert(three =~= two.push(Event::TextSubmitted));
    lemma_stage_after_push(none, Event::DelayElapsed);
    lemma_stage_after_push(one, Event::CapabilityAcquired);
    lemma_stage_after_push(two, Event::TextSubmitted);
}

} // verus!
