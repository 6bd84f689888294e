use llama_chat::decode::{
    drive, should_stop, step, Action, DecodePhase, DecodeReport, DecodeState, EngineEvent,
};
use llama_chat::inference::{EngineStage, InferenceError};

fn token(text: &str) -> EngineEvent {
    EngineEvent::Token(text.to_string())
}

fn tokens(texts: &[&str]) -> Vec<EngineEvent> {
    texts.iter().map(|t| token(t)).collect()
}

fn backend_error() -> InferenceError {
    InferenceError::new(EngineStage::Compute, "Backend Error: Runtime Error".to_string())
}

fn check_invariants(report: &DecodeReport) {
    assert_eq!(report.emitted.concat(), report.state.output());
    let over = if report.state.phase() == DecodePhase::Running { 0 } else { 1 };
    assert_eq!(report.pulls, report.emitted.len() + report.dropped + over);
    assert_eq!(
        report.state.phase() == DecodePhase::Failed,
        matches!(report.state.clone().outcome(), Some(Err(_)))
    );
    assert_eq!(
        report.state.phase() == DecodePhase::Running,
        report.state.clone().outcome().is_none()
    );
}

#[test]
fn should_stop_wants_the_whole_marker() {
    assert!(should_stop("</s>", Some("</s>")));
    assert!(!should_stop("</s", Some("</s>")));
    assert!(!should_stop("/s>", Some("</s>")));
    assert!(!should_stop("</s>x", Some("</s>")));
    assert!(!should_stop("x</s>", Some("</s>")));
    assert!(!should_stop("", Some("</s>")));
    assert!(!should_stop("</S>", Some("</s>")));
}

#[test]
fn should_stop_never_stops_without_a_marker() {
    assert!(!should_stop("</s>", None));
    assert!(!should_stop("", None));
}

#[test]
fn should_stop_with_an_empty_marker_stops_on_an_empty_token() {
    assert!(should_stop("", Some("")));
    assert!(!should_stop("a", Some("")));
}

#[test]
fn a_leading_space_token_is_dropped() {
    let report = drive(tokens(&[" ", "Hello", " world"]), None);
    assert_eq!(report.state.output(), "Hello world");
    assert_eq!(report.state.phase(), DecodePhase::Running);
    assert_eq!(report.emitted, vec!["Hello".to_string(), " world".to_string()]);
    assert_eq!(report.dropped, 1);
    assert_eq!(report.pulls, 3);
    check_invariants(&report);
}

#[test]
fn leading_space_stream_ends_with_the_text() {
    let mut events = tokens(&[" ", "Hello", " world"]);
    events.push(EngineEvent::EndOfSequence);
    let report = drive(events, None);
    assert_eq!(report.state.phase(), DecodePhase::EndOfSequence);
    assert_eq!(report.state.clone().outcome(), Some(Ok("Hello world".to_string())));
    check_invariants(&report);
}

#[test]
fn a_first_token_loses_its_leading_whitespace() {
    let report = drive(tokens(&[" Hello", " world"]), None);
    assert_eq!(report.state.output(), "Hello world");
    assert_eq!(report.emitted, vec!["Hello".to_string(), " world".to_string()]);
    let report = drive(tokens(&[" \t Hello"]), None);
    assert_eq!(report.state.output(), "Hello");
    let report = drive(tokens(&["\tHello"]), None);
    assert_eq!(report.state.output(), "\tHello");
}

#[test]
fn spaces_are_dropped_until_something_is_accepted() {
    let report = drive(tokens(&[" ", " ", "a", " ", "b"]), None);
    assert_eq!(report.state.output(), "a b");
    assert_eq!(report.dropped, 2);
    assert_eq!(report.emitted.len(), 3);
    check_invariants(&report);
}

#[test]
fn two_spaces_are_accepted_as_nothing() {
    let report = drive(tokens(&["  ", "a"]), None);
    assert_eq!(report.state.output(), "a");
    assert_eq!(report.emitted, vec!["".to_string(), "a".to_string()]);
    assert_eq!(report.dropped, 0);
    check_invariants(&report);
}

#[test]
fn the_stop_token_is_not_appended() {
    let report = drive(tokens(&["a", "b", "STOP", "c"]), Some("STOP"));
    assert_eq!(report.state.phase(), DecodePhase::Stopped);
    assert_eq!(report.state.output(), "ab");
    assert_eq!(report.emitted, vec!["a".to_string(), "b".to_string()]);
    assert_eq!(report.pulls, 3);
    assert_eq!(report.emitted.len(), report.pulls - 1);
    assert_eq!(report.state.clone().outcome(), Some(Ok("ab".to_string())));
    check_invariants(&report);
}

#[test]
fn the_stop_token_is_matched_after_trimming() {
    let report = drive(tokens(&["a", " STOP\n", "b"]), Some("STOP"));
    assert_eq!(report.state.phase(), DecodePhase::Stopped);
    assert_eq!(report.state.output(), "a");
    assert_eq!(report.pulls, 2);
}

#[test]
fn a_partial_match_does_not_stop() {
    let report = drive(tokens(&["STO", "STOPS", "xSTOP", "ST OP"]), Some("STOP"));
    assert_eq!(report.state.phase(), DecodePhase::Running);
    assert_eq!(report.state.output(), "STOSTOPSxSTOPST OP");
    assert_eq!(report.pulls, 4);
    check_invariants(&report);
}

#[test]
fn no_stop_string_never_stops_early() {
    let report = drive(tokens(&["a", "STOP", "b"]), None);
    assert_eq!(report.state.phase(), DecodePhase::Running);
    assert_eq!(report.state.output(), "aSTOPb");
}

#[test]
fn a_lone_space_is_dropped_before_it_can_stop() {
    let report = drive(tokens(&[" ", "a"]), Some(""));
    assert_eq!(report.state.phase(), DecodePhase::Running);
    assert_eq!(report.state.output(), "a");
    assert_eq!(report.dropped, 1);
    let report = drive(tokens(&["a", " "]), Some(""));
    assert_eq!(report.state.phase(), DecodePhase::Stopped);
    assert_eq!(report.state.output(), "a");
}

#[test]
fn a_stop_as_first_token_returns_nothing() {
    let report = drive(tokens(&["STOP", "a"]), Some("STOP"));
    assert_eq!(report.state.phase(), DecodePhase::Stopped);
    assert_eq!(report.state.output(), "");
    assert_eq!(report.pulls, 1);
    assert_eq!(report.emitted.len(), 0);
}

#[test]
fn a_failure_at_the_third_pull_fails_the_run() {
    let events = vec![
        token("Hello"),
        token(" world"),
        EngineEvent::Failure(backend_error()),
        token("!"),
    ];
    let report = drive(events, None);
    assert_eq!(report.state.phase(), DecodePhase::Failed);
    assert_eq!(report.emitted, vec!["Hello".to_string(), " world".to_string()]);
    assert_eq!(report.pulls, 3);
    assert_eq!(report.state.clone().outcome(), Some(Err(backend_error())));
    check_invariants(&report);
}

#[test]
fn a_failure_at_the_first_pull_fails_the_run() {
    let report = drive(vec![EngineEvent::Failure(backend_error())], Some("STOP"));
    assert_eq!(report.state.outcome(), Some(Err(backend_error())));
    assert_eq!(report.emitted.len(), 0);
    assert_eq!(report.pulls, 1);
}

#[test]
fn the_end_of_the_sequence_returns_what_was_accepted() {
    let events = vec![token("a"), EngineEvent::EndOfSequence, token("b")];
    let report = drive(events, Some("STOP"));
    assert_eq!(report.state.phase(), DecodePhase::EndOfSequence);
    assert_eq!(report.pulls, 2);
    assert_eq!(report.state.outcome(), Some(Ok("a".to_string())));
}

#[test]
fn an_empty_run_is_still_running() {
    let report = drive(Vec::new(), None);
    assert_eq!(report.state, DecodeState::new());
    assert_eq!(report.state.phase(), DecodePhase::Running);
    assert_eq!(report.pulls, 0);
    assert_eq!(report.state.outcome(), None);
}

#[test]
fn step_accepts_a_token_and_shows_it() {
    let (state, action) = step(DecodeState::new(), token("Hi"), Some("STOP"));
    assert_eq!(action, Action::Emit("Hi".to_string()));
    assert_eq!(state.phase(), DecodePhase::Running);
    assert_eq!(state.output(), "Hi");
    let (state, action) = step(state, token(" there"), Some("STOP"));
    assert_eq!(action, Action::Emit(" there".to_string()));
    assert_eq!(state.output(), "Hi there");
}

#[test]
fn step_drops_a_lone_space_before_any_output() {
    let (state, action) = step(DecodeState::new(), token(" "), None);
    assert_eq!(action, Action::Pull);
    assert_eq!(state, DecodeState::new());
    let (state, _) = step(state, token("a"), None);
    let (state, action) = step(state, token(" "), None);
    assert_eq!(action, Action::Emit(" ".to_string()));
    assert_eq!(state.output(), "a ");
}

#[test]
fn step_halts_on_stop_end_and_failure() {
    let (running, _) = step(DecodeState::new(), token("a"), Some("STOP"));
    let (state, action) = step(running.clone(), token("STOP"), Some("STOP"));
    assert_eq!((state.phase(), action), (DecodePhase::Stopped, Action::Halt));
    assert_eq!(state.output(), "a");
    let (state, action) = step(running.clone(), EngineEvent::EndOfSequence, Some("STOP"));
    assert_eq!((state.phase(), action), (DecodePhase::EndOfSequence, Action::Halt));
    let (state, action) = step(running, EngineEvent::Failure(backend_error()), Some("STOP"));
    assert_eq!((state.phase(), action), (DecodePhase::Failed, Action::Halt));
    assert_eq!(state.output(), "a");
    assert_eq!(state.outcome(), Some(Err(backend_error())));
}

#[test]
fn step_leaves_a_finished_run_as_it_is() {
    let (stopped, _) = step(DecodeState::new(), token("STOP"), Some("STOP"));
    for event in [token("a"), EngineEvent::EndOfSequence, EngineEvent::Failure(backend_error())] {
        let (state, action) = step(stopped.clone(), event, Some("STOP"));
        assert_eq!(state, stopped);
        assert_eq!(action, Action::Halt);
    }
}

#[test]
fn drive_is_step_by_step() {
    let events = vec![
        token(" "),
        token(" It"),
        token(" is"),
        token(" 12."),
        token("</s>"),
        token(" more"),
    ];
    let report = drive(events.clone(), Some("</s>"));
    let mut state = DecodeState::new();
    let mut shown: Vec<String> = Vec::new();
    for event in events {
        let (next, action) = step(state, event, Some("</s>"));
        state = next;
        match action {
            Action::Emit(chunk) => shown.push(chunk),
            Action::Pull => {}
            Action::Halt => break,
        }
    }
    assert_eq!(report.state, state);
    assert_eq!(report.emitted, shown);
    assert_eq!(report.state.output(), "It is 12.");
    check_invariants(&report);
}

#[test]
fn the_accepted_text_only_grows() {
    let events = vec![
        token(" "),
        token(" one"),
        token(" two"),
        token("STOP"),
        token(" three"),
        EngineEvent::EndOfSequence,
    ];
    let whole = drive(events.clone(), Some("STOP"));
    for k in 0..=events.len() {
        let part = drive(events[..k].to_vec(), Some("STOP"));
        assert!(whole.state.output().starts_with(part.state.output()));
        assert!(whole.emitted.starts_with(&part.emitted));
        if part.state.phase() != DecodePhase::Running {
            assert_eq!(part, whole);
        }
        check_invariants(&part);
    }
}

fn engine_fault(end_of_sequence: bool, message: &str) -> llama_chat::inference::EngineFault {
    llama_chat::inference::EngineFault { end_of_sequence, message: message.to_string() }
}

#[test]
fn a_computed_token_is_still_to_be_read() {
    assert_eq!(llama_chat::decode::event_of_compute(Ok(())), None);
}

#[test]
fn the_end_of_sequence_signal_is_no_error() {
    let reply = Err(engine_fault(true, "Backend Error: WASI-NN Backend Error: EOS Found"));
    assert_eq!(llama_chat::decode::event_of_compute(reply), Some(EngineEvent::EndOfSequence));
}

#[test]
fn any_other_fault_of_compute_is_a_failure() {
    let reply = Err(engine_fault(false, "Backend Error: WASI-NN Backend Error: Context Full"));
    assert_eq!(
        llama_chat::decode::event_of_compute(reply),
        Some(EngineEvent::Failure(InferenceError::new(
            EngineStage::Compute,
            "Backend Error: WASI-NN Backend Error: Context Full".to_string()
        )))
    );
}

#[test]
fn what_was_read_is_the_token() {
    let mut buffer = b" world".to_vec();
    buffer.resize(32, 0);
    assert_eq!(llama_chat::decode::event_of_output(Ok((buffer, 6))), token(" world"));
    assert_eq!(llama_chat::decode::event_of_output(Ok((vec![0xFF], 1))), token("\u{FFFD}"));
    assert_eq!(llama_chat::decode::event_of_output(Ok((b"ab".to_vec(), 9))), token("ab"));
}

#[test]
fn a_fault_of_reading_is_a_failure_even_at_the_end_of_the_sequence() {
    for end_of_sequence in [false, true] {
        assert_eq!(
            llama_chat::decode::event_of_output(Err(engine_fault(end_of_sequence, "busy"))),
            EngineEvent::Failure(InferenceError::new(EngineStage::GetOutput, "busy".to_string()))
        );
    }
}
