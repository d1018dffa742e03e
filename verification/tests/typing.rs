use typist::{type_text, Action, Event, Stage, TypeError, Typist, FOCUS_DELAY_MS};

/// A stand-in for the clock and the input-simulation capability: it records
/// what it is asked to do, and fails where it is told to.
struct Desk {
    waited_ms: u64,
    acquired: bool,
    typed: Vec<char>,
    submissions: Vec<String>,
    log: Vec<String>,
    refuse_acquire: bool,
    refuse_text: bool,
}

impl Desk {
    fn new() -> Desk {
        Desk {
            waited_ms: 0,
            acquired: false,
            typed: Vec::new(),
            submissions: Vec::new(),
            log: Vec::new(),
            refuse_acquire: false,
            refuse_text: false,
        }
    }

    /// Performs effects as they fall due until the run is over.
    fn drive(&mut self, text: &str) -> Result<(), TypeError> {
        let (mut typist, mut action) = type_text(text.to_string());
        loop {
            let event = match action {
                Action::Wait(millis) => {
                    self.waited_ms += millis;
                    self.log.push(format!("wait {}", millis));
                    Event::DelayElapsed
                }
                Action::Acquire => {
                    self.log.push("acquire".to_string());
                    if self.refuse_acquire {
                        Event::CapabilityUnavailable
                    } else {
                        self.acquired = true;
                        Event::CapabilityAcquired
                    }
                }
                Action::Submit(text) => {
                    assert!(self.acquired);
                    assert!(self.waited_ms >= 300);
                    self.log.push(format!("submit {:?}", text));
                    if self.refuse_text {
                        Event::SubmissionFailed
                    } else {
                        self.typed.extend(text.chars());
                        self.submissions.push(text);
                        Event::TextSubmitted
                    }
                }
                Action::Finish => {
                    assert_eq!(typist.outcome(), Some(Ok(())));
                    return Ok(());
                }
                Action::Abort(error) => {
                    assert_eq!(typist.outcome(), Some(Err(error)));
                    return Err(error);
                }
            };
            let (next, due) = typist.step(event);
            typist = next;
            action = due;
        }
    }
}

fn begun(text: &str) -> Typist {
    type_text(text.to_string()).0
}

#[test]
fn focus_delay_is_300_ms() {
    assert_eq!(FOCUS_DELAY_MS, 300);
}

#[test]
fn run_begins_with_the_delay() {
    let (typist, action) = type_text("abc".to_string());
    assert_eq!(action, Action::Wait(300));
    assert_eq!(typist.stage(), Stage::Delaying);
    assert_eq!(typist.text(), "abc");
    assert_eq!(typist.pending(), Action::Wait(300));
    assert_eq!(typist.outcome(), None);
}

#[test]
fn types_abc_after_the_delay() {
    let mut desk = Desk::new();
    assert_eq!(desk.drive("abc"), Ok(()));
    assert_eq!(desk.typed, vec!['a', 'b', 'c']);
    assert_eq!(desk.submissions, vec!["abc".to_string()]);
    assert_eq!(desk.waited_ms, 300);
    assert_eq!(desk.log, vec!["wait 300", "acquire", "submit \"abc\""]);
}

#[test]
fn steps_follow_one_another() {
    let typist = begun("abc");
    let (typist, action) = typist.step(Event::DelayElapsed);
    assert_eq!(typist.stage(), Stage::Acquiring);
    assert_eq!(action, Action::Acquire);
    assert_eq!(typist.outcome(), None);
    let (typist, action) = typist.step(Event::CapabilityAcquired);
    assert_eq!(typist.stage(), Stage::Submitting);
    assert_eq!(action, Action::Submit("abc".to_string()));
    assert_eq!(typist.pending(), Action::Submit("abc".to_string()));
    assert_eq!(typist.outcome(), None);
    let (typist, action) = typist.step(Event::TextSubmitted);
    assert_eq!(typist.stage(), Stage::Finished);
    assert_eq!(action, Action::Finish);
    assert_eq!(typist.outcome(), Some(Ok(())));
    assert_eq!(typist.text(), "abc");
}

#[test]
fn empty_text_is_delayed_and_submitted_without_error() {
    let mut desk = Desk::new();
    assert_eq!(desk.drive(""), Ok(()));
    assert_eq!(desk.waited_ms, 300);
    assert!(desk.typed.is_empty());
    assert_eq!(desk.submissions, vec![String::new()]);
    assert_eq!(desk.log, vec!["wait 300", "acquire", "submit \"\""]);
}

#[test]
fn text_is_submitted_unchanged() {
    let text = "Zoë ❤ 日本語\n\t{}\\ \"q\"";
    let mut desk = Desk::new();
    assert_eq!(desk.drive(text), Ok(()));
    assert_eq!(desk.submissions, vec![text.to_string()]);
    assert_eq!(desk.typed, text.chars().collect::<Vec<char>>());
}

#[test]
fn unavailable_capability_ends_the_run() {
    let mut desk = Desk::new();
    desk.refuse_acquire = true;
    assert_eq!(desk.drive("abc"), Err(TypeError::CapabilityUnavailable));
    assert_eq!(desk.waited_ms, 300);
    assert!(desk.submissions.is_empty());
    assert_eq!(desk.log, vec!["wait 300", "acquire"]);
}

#[test]
fn refused_text_ends_the_run() {
    let mut desk = Desk::new();
    desk.refuse_text = true;
    assert_eq!(desk.drive("abc"), Err(TypeError::SubmissionFailed));
    assert_eq!(desk.waited_ms, 300);
    assert!(desk.typed.is_empty());
    assert_eq!(desk.log, vec!["wait 300", "acquire", "submit \"abc\""]);
}

#[test]
fn failure_stages_and_actions() {
    let (typist, _) = begun("abc").step(Event::DelayElapsed);
    let (typist, action) = typist.step(Event::CapabilityUnavailable);
    assert_eq!(typist.stage(), Stage::Failed(TypeError::CapabilityUnavailable));
    assert_eq!(action, Action::Abort(TypeError::CapabilityUnavailable));
    assert_eq!(typist.outcome(), Some(Err(TypeError::CapabilityUnavailable)));

    let (typist, _) = begun("abc").step(Event::DelayElapsed);
    let (typist, _) = typist.step(Event::CapabilityAcquired);
    let (typist, action) = typist.step(Event::SubmissionFailed);
    assert_eq!(typist.stage(), Stage::Failed(TypeError::SubmissionFailed));
    assert_eq!(action, Action::Abort(TypeError::SubmissionFailed));
    assert_eq!(typist.outcome(), Some(Err(TypeError::SubmissionFailed)));
}

#[test]
fn nothing_is_submitted_before_the_delay_has_elapsed() {
    let early = [
        Event::CapabilityAcquired,
        Event::CapabilityUnavailable,
        Event::TextSubmitted,
        Event::SubmissionFailed,
    ];
    let mut typist = begun("abc");
    for event in early {
        let (next, action) = typist.step(event);
        assert_eq!(action, Action::Wait(300));
        assert_eq!(next.stage(), Stage::Delaying);
        assert_eq!(next.outcome(), None);
        typist = next;
    }
    let (typist, action) = typist.step(Event::DelayElapsed);
    assert_eq!(action, Action::Acquire);
    assert_eq!(typist.stage(), Stage::Acquiring);
}

#[test]
fn reports_out_of_turn_change_nothing() {
    let (mut typist, _) = begun("abc").step(Event::DelayElapsed);
    for event in [Event::DelayElapsed, Event::TextSubmitted, Event::SubmissionFailed] {
        let (next, action) = typist.step(event);
        assert_eq!(action, Action::Acquire);
        assert_eq!(next.stage(), Stage::Acquiring);
        typist = next;
    }
    let (mut typist, _) = typist.step(Event::CapabilityAcquired);
    for event in [Event::DelayElapsed, Event::CapabilityAcquired, Event::CapabilityUnavailable] {
        let (next, action) = typist.step(event);
        assert_eq!(action, Action::Submit("abc".to_string()));
        assert_eq!(next.stage(), Stage::Submitting);
        typist = next;
    }
}

#[test]
fn ended_run_stays_as_it_ended() {
    let all = [
        Event::DelayElapsed,
        Event::CapabilityAcquired,
        Event::CapabilityUnavailable,
        Event::TextSubmitted,
        Event::SubmissionFailed,
    ];
    let (typist, _) = begun("abc").step(Event::DelayElapsed);
    let (typist, _) = typist.step(Event::CapabilityAcquired);
    let (mut finished, _) = typist.step(Event::TextSubmitted);
    for event in all {
        let (next, action) = finished.step(event);
        assert_eq!(action, Action::Finish);
        assert_eq!(next.stage(), Stage::Finished);
        finished = next;
    }
    let (typist, _) = begun("abc").step(Event::DelayElapsed);
    let (mut failed, _) = typist.step(Event::CapabilityUnavailable);
    for event in all {
        let (next, action) = failed.step(event);
        assert_eq!(action, Action::Abort(TypeError::CapabilityUnavailable));
        assert_eq!(next.stage(), Stage::Failed(TypeError::CapabilityUnavailable));
        failed = next;
    }
}

#[test]
fn every_order_of_reports_keeps_the_delay_first() {
    let all = [
        Event::DelayElapsed,
        Event::CapabilityAcquired,
        Event::CapabilityUnavailable,
        Event::TextSubmitted,
        Event::SubmissionFailed,
    ];
    // every sequence of four reports
    for code in 0..625usize {
        let picks = [code % 5, code / 5 % 5, code / 25 % 5, code / 125 % 5];
        let mut typist = begun("abc");
        let mut delayed = false;
        let mut acquired = false;
        for pick in picks {
            let event = all[pick];
            let (next, action) = typist.step(event);
            delayed = delayed || event == Event::DelayElapsed;
            acquired = acquired || (delayed && event == Event::CapabilityAcquired);
            match &action {
                Action::Wait(millis) => assert_eq!(*millis, 300),
                Action::Acquire => assert!(delayed),
                Action::Submit(text) => {
                    assert!(delayed && acquired);
                    assert_eq!(text, "abc");
                }
                Action::Finish => assert!(delayed && acquired),
                Action::Abort(_) => assert!(delayed),
            }
            assert_eq!(next.text(), "abc");
            assert_eq!(next.pending(), action);
            typist = next;
        }
    }
}

#[test]
fn error_messages() {
    assert_eq!(TypeError::CapabilityUnavailable.message(), "Failed to initialize Enigo");
    assert_eq!(TypeError::SubmissionFailed.message(), "Failed to type text");
}
