//! The decisions behind typing text into the focused application.
//!
//! Typing is a short, linear run: wait for the focus delay, acquire the
//! input-simulation capability, submit the text. Each of the three is an
//! effect that only the caller can perform, so the run is written as a step
//! function. A [`Typist`] holds the text and the stage that the run has
//! reached; [`Typist::pending`] names the effect that is due, and
//! [`Typist::step`] takes the caller's report of what happened and moves on.
//! The two failures end the run with a [`TypeError`]; what to do about one is
//! left to the caller.

use crate::order::{history_of, lemma_stage_has_history, reported_in_turn};
use vstd::prelude::*;
use vstd::string::StringExecFns;

verus! {

/// How long the operator is given to move the input focus, in milliseconds.
pub const FOCUS_DELAY_MS: u64 = 300;

/// Why a run ended without the text having been typed.
#[derive(Clone, Copy, Debug, PartialEq, Eq, Structural)]
pub enum TypeError {
    /// The input-simulation capability could not be acquired.
    CapabilityUnavailable,
    /// The capability was acquired, but it refused the text.
    SubmissionFailed,
}

/// How far a run has got.
#[derive(Clone, Copy, Debug, PartialEq, Eq, Structural)]
pub enum Stage {
    /// The focus delay has not elapsed yet.
    Delaying,
    /// The delay is over; the capability has not been acquired yet.
    Acquiring,
    /// The capability is there; the text has not been submitted yet.
    Submitting,
    /// The text was submitted.
    Finished,
    /// The run ended with an error.
    Failed(TypeError),
}

/// What the caller reports back after performing an effect.
#[derive(Clone, Copy, Debug, PartialEq, Eq, Structural)]
pub enum Event {
    /// The wait that was asked for is over.
    DelayElapsed,
    /// The input-simulation capability was acquired.
    CapabilityAcquired,
    /// The input-simulation capability could not be acquired.
    CapabilityUnavailable,
    /// The capability took the text.
    TextSubmitted,
    /// The capability refused the text.
    SubmissionFailed,
}

/// The effect that is due.
#[derive(Debug, PartialEq, Eq)]
pub enum Action {
    /// Block for this many milliseconds, then report `DelayElapsed`.
    Wait(u64),
    /// Acquire the input-simulation capability, then report
    /// `CapabilityAcquired` or `CapabilityUnavailable`.
    Acquire,
    /// Hand this text to the capability, then report `TextSubmitted` or
    /// `SubmissionFailed`.
    Submit(String),
    /// Nothing is left to do: the text was typed.
    Finish,
    /// Nothing is left to do: the run failed.
    Abort(TypeError),
}

/// An [`Action`] with its text as a sequence of characters.
pub enum ActionView {
    Wait(u64),
    Acquire,
    Submit(Seq<char>),
    Finish,
    Abort(TypeError),
}

impl View for Action {
    type V = ActionView;

    open spec fn view(&self) -> ActionView {
        match *self {
            Action::Wait(millis) => ActionView::Wait(millis),
            Action::Acquire => ActionView::Acquire,
            Action::Submit(text) => ActionView::Submit(text@),
            Action::Finish => ActionView::Finish,
            Action::Abort(error) => ActionView::Abort(error),
        }
    }
}

/// One run of the typing operation: the text, and the stage reached. It
/// also remembers, for proofs only, every report that was made to it; the
/// stage is always the one that these reports lead to.
pub struct Typist {
    text: String,
    stage: Stage,
    reports: Ghost<Seq<Event>>,
}

/// A [`Typist`] with its text as a sequence of characters, and the reports
/// made to it so far, the oldest first.
pub struct TypistView {
    pub text: Seq<char>,
    pub stage: Stage,
    pub reports: Seq<Event>,
}

impl View for Typist {
    type V = TypistView;

    closed spec fn view(&self) -> TypistView {
        TypistView { text: self.text@, stage: self.stage, reports: self.reports@ }
    }
}

/// The stage that follows `stage` when `event` is reported. A report that
/// does not answer the effect that was due changes nothing, and a run that
/// has ended stays as it ended.
pub open spec fn next_stage(stage: Stage, event: Event) -> Stage {
    match (stage, event) {
        (Stage::Delaying, Event::DelayElapsed) => Stage::Acquiring,
        (Stage::Acquiring, Event::CapabilityAcquired) => Stage::Submitting,
        (Stage::Acquiring, Event::CapabilityUnavailable) => Stage::Failed(
            TypeError::CapabilityUnavailable,
        ),
        (Stage::Submitting, Event::TextSubmitted) => Stage::Finished,
        (Stage::Submitting, Event::SubmissionFailed) => Stage::Failed(
            TypeError::SubmissionFailed,
        ),
        _ => stage,
    }
}

/// The stage that a fresh run has reached after the caller has made these
/// reports, one after the other.
pub open spec fn stage_after(events: Seq<Event>) -> Stage
    decreases events.len(),
{
    if events.len() == 0 {
        Stage::Delaying
    } else {
        next_stage(stage_after(events.drop_last()), events.last())
    }
}

/// One more report moves the stage by one step of [`next_stage`].
pub proof fn lemma_stage_after_push(events: Seq<Event>, event: Event)
    ensures
        stage_after(events.push(event)) == next_stage(stage_after(events), event),
{
    assert(events.push(event).drop_last() =~= events);
}

/// The effect that is due in a run that holds `text` and has reached
/// `stage`.
pub open spec fn due(text: Seq<char>, stage: Stage) -> ActionView {
    match stage {
        Stage::Delaying => ActionView::Wait(FOCUS_DELAY_MS),
        Stage::Acquiring => ActionView::Acquire,
        Stage::Submitting => ActionView::Submit(text),
        Stage::Finished => ActionView::Finish,
        Stage::Failed(error) => ActionView::Abort(error),
    }
}

/// Whether a run that has reached `stage` is over.
pub open spec fn is_over(stage: Stage) -> bool {
    stage == Stage::Finished || stage is Failed
}

/// What a run that has reached `stage` has come to: nothing yet, success,
/// or the error it ended with.
pub open spec fn outcome_of(stage: Stage) -> Option<Result<(), TypeError>> {
    match stage {
        Stage::Finished => Some(Ok(())),
        Stage::Failed(error) => Some(Err(error)),
        _ => None,
    }
}

/// Computes [`next_stage`].
fn advance(stage: Stage, event: Event) -> (next: Stage)
    ensures
        next == next_stage(stage, event),
{
    match stage {
        Stage::Delaying => match event {
            Event::DelayElapsed => Stage::Acquiring,
            _ => stage,
        },
        Stage::Acquiring => match event {
            Event::CapabilityAcquired => Stage::Submitting,
            Event::CapabilityUnavailable => Stage::Failed(TypeError::CapabilityUnavailable),
            _ => stage,
        },
        Stage::Submitting => match event {
            Event::TextSubmitted => Stage::Finished,
            Event::SubmissionFailed => Stage::Failed(TypeError::SubmissionFailed),
            _ => stage,
        },
        _ => stage,
    }
}

/// Begins a run that is to type `text`, which may be any text, the empty one
/// too. The run starts in the delay, with no report made yet, so the first
/// effect asked for is the wait of [`FOCUS_DELAY_MS`] milliseconds.
pub fn type_text(text: String) -> (begun: (Typist, Action))
    ensures
        begun.0@ == (TypistView {
            text: text@,
            stage: Stage::Delaying,
            reports: Seq::<Event>::empty(),
        }),
        begun.1@ == ActionView::Wait(FOCUS_DELAY_MS),
        begun.0@.stage == stage_after(begun.0@.reports),
{
    let typist = Typist { text, stage: Stage::Delaying, reports: Ghost(Seq::empty()) };
    (typist, Action::Wait(FOCUS_DELAY_MS))
}

impl Typist {
    #[verifier::type_invariant]
    spec fn stage_follows_reports(self) -> bool {
        self.stage == stage_after(self.reports@)
    }

    /// The text that this run is to type.
    pub fn text(&self) -> (text: &str)
        ensures
            text@ == self@.text,
    {
        self.text.as_str()
    }

    /// The stage that this run has reached. It is the stage that the
    /// reports made to the run lead to, so it has its history behind it.
    pub fn stage(&self) -> (stage: Stage)
        ensures
            stage == self@.stage,
            stage == stage_after(self@.reports),
            history_of(stage, self@.reports),
    {
        proof {
            use_type_invariant(self);
            lemma_stage_has_history(self.reports@);
        }
        self.stage
    }

    /// The effect that is due. The text is handed out only after the delay
    /// was reported as elapsed and the capability then as acquired.
    pub fn pending(&self) -> (action: Action)
        ensures
            action@ == due(self@.text, self@.stage),
            self@.stage == stage_after(self@.reports),
            action@ is Submit ==> reported_in_turn(
                self@.reports,
                Event::DelayElapsed,
                Event::CapabilityAcquired,
            ),
    {
        proof {
            use_type_invariant(self);
            lemma_stage_has_history(self.reports@);
        }
        match self.stage {
            Stage::Delaying => Action::Wait(FOCUS_DELAY_MS),
            Stage::Acquiring => Action::Acquire,
            Stage::Submitting => Action::Submit(self.text.clone()),
            Stage::Finished => Action::Finish,
            Stage::Failed(error) => Action::Abort(error),
        }
    }

    /// What the run has come to: `None` while an effect is still due, then
    /// `Ok` once the text was submitted, or the error that ended the run. A
    /// run has ended only after the step that ended it was reported, behind
    /// the steps that come before it.
    pub fn outcome(&self) -> (outcome: Option<Result<(), TypeError>>)
        ensures
            outcome == outcome_of(self@.stage),
            self@.stage == stage_after(self@.reports),
            history_of(self@.stage, self@.reports),
    {
        proof {
            use_type_invariant(self);
            lemma_stage_has_history(self.reports@);
        }
        match self.stage {
            Stage::Finished => Some(Ok(())),
            Stage::Failed(error) => Some(Err(error)),
            _ => None,
        }
    }

    /// Takes the caller's report and moves the run on: the text stays, the
    /// stage becomes [`next_stage`], the report joins those made before, and
    /// the effect that is then due comes back with the run.
    pub fn step(self, event: Event) -> (moved: (Typist, Action))
        ensures
            moved.0@ == (TypistView {
                text: self@.text,
                stage: next_stage(self@.stage, event),
                reports: self@.reports.push(event),
            }),
            moved.1@ == due(self@.text, next_stage(self@.stage, event)),
            moved.0@.stage == stage_after(moved.0@.reports),
    {
        proof {
            use_type_invariant(&self);
            lemma_stage_after_push(self.reports@, event);
        }
        let stage = advance(self.stage, event);
        let next = Typist { text: self.text, stage, reports: Ghost(self.reports@.push(event)) };
        let action = next.pending();
        (next, action)
    }
}

impl TypeError {
    /// A short sentence that says what failed.
    pub fn message(&self) -> (message: String)
        ensures
            message@ == (match *self {
                TypeError::CapabilityUnavailable => "Failed to initialize Enigo"@,
                TypeError::SubmissionFailed => "Failed to type text"@,
            }),
    {
        match self {
            TypeError::CapabilityUnavailable => String::from_str("Failed to initialize Enigo"),
            TypeError::SubmissionFailed => String::from_str("Failed to type text"),
        }
    }
}

} // verus!
