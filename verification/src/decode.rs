//! The streaming decode loop as a state machine.
//!
//! The caller pulls one token at a time from the engine and hands each
//! answer to `step`, which says what to show and whether to pull again.
//! `drive` runs the same machine over a recorded list of answers.
use vstd::prelude::*;
use crate::inference::{
    lossy_text, output_text, written, EngineFault, EngineStage, ErrorView, FaultView,
    InferenceError,
};
use crate::text::{chars_of, same_text, string_of, trim, trim_bounds, trim_start};

verus! {

/// What one pull of the engine gave.
#[derive(Clone, Debug, PartialEq, Eq)]
pub enum EngineEvent {
    /// The text of the next token.
    Token(String),
    /// The model came to its own end.
    EndOfSequence,
    /// The engine failed.
    Failure(InferenceError),
}

/// What an `EngineEvent` holds, as plain values.
pub enum EventView {
    Token(Seq<char>),
    EndOfSequence,
    Failure(ErrorView),
}

impl DeepView for EngineEvent {
    type V = EventView;

    open spec fn deep_view(&self) -> EventView {
        match self {
            EngineEvent::Token(text) => EventView::Token(text@),
            EngineEvent::EndOfSequence => EventView::EndOfSequence,
            EngineEvent::Failure(error) => EventView::Failure(error.deep_view()),
        }
    }
}

/// What the answer to the call that computes one token means for the run:
/// on success nothing yet, for the token is still to be read; on the
/// end-of-sequence signal the end of the sequence, which is no error; on
/// any other fault a failure of the compute stage.
pub open spec fn compute_event(reply: Result<(), FaultView>) -> Option<EventView> {
    match reply {
        Ok(_) => None,
        Err(fault) => if fault.end_of_sequence {
            Some(EventView::EndOfSequence)
        } else {
            Some(
                EventView::Failure(
                    ErrorView { stage: EngineStage::Compute, message: fault.message },
                ),
            )
        },
    }
}

/// What the answer to the call that reads one token means for the run: the
/// token that the engine wrote, or a failure of the output stage.
pub open spec fn output_event(read: Result<(Seq<u8>, usize), FaultView>) -> EventView {
    match read {
        Ok((buffer, reported)) => EventView::Token(lossy_text(written(buffer, reported))),
        Err(fault) => EventView::Failure(
            ErrorView { stage: EngineStage::GetOutput, message: fault.message },
        ),
    }
}

/// The view of the answer to a compute call.
pub open spec fn reply_view(reply: Result<(), EngineFault>) -> Result<(), FaultView> {
    match reply {
        Ok(_) => Ok(()),
        Err(fault) => Err(fault.deep_view()),
    }
}

/// The view of the answer to a read call.
pub open spec fn read_view(read: Result<(Vec<u8>, usize), EngineFault>) -> Result<
    (Seq<u8>, usize),
    FaultView,
> {
    match read {
        Ok((buffer, reported)) => Ok((buffer@, reported)),
        Err(fault) => Err(fault.deep_view()),
    }
}

/// The event, if any, that the answer to a compute call amounts to. `None`
/// means that a token was computed and is to be read next.
pub fn event_of_compute(reply: Result<(), EngineFault>) -> (event: Option<EngineEvent>)
    ensures
        event.deep_view() == compute_event(reply_view(reply)),
{
    match reply {
        Ok(_) => None,
        Err(fault) => {
            if fault.end_of_sequence {
                Some(EngineEvent::EndOfSequence)
            } else {
                Some(EngineEvent::Failure(InferenceError::at(EngineStage::Compute, fault)))
            }
        },
    }
}

/// The event that the answer to a read call amounts to. The engine reports
/// how many bytes of the buffer it wrote.
pub fn event_of_output(read: Result<(Vec<u8>, usize), EngineFault>) -> (event: EngineEvent)
    ensures
        event.deep_view() == output_event(read_view(read)),
{
    match read {
        Ok((buffer, reported)) => EngineEvent::Token(output_text(buffer, reported)),
        Err(fault) => EngineEvent::Failure(InferenceError::at(EngineStage::GetOutput, fault)),
    }
}

/// Where a decode run stands. `Running` is the only phase that pulls.
#[derive(Clone, Copy, Debug, PartialEq, Eq, Structural, Hash)]
pub enum DecodePhase {
    Running,
    Stopped,
    Failed,
    EndOfSequence,
}

/// The state of a decode run. Every state holds the text accepted so far; a
/// failed one also holds the error that ended it.
#[derive(Clone, Debug, PartialEq, Eq)]
pub enum DecodeState {
    /// The run goes on.
    Running { output: String },
    /// A token that trims to the stop string ended the run.
    Stopped { output: String },
    /// The model came to its own end.
    EndOfSequence { output: String },
    /// The engine failed. The text accepted before is kept for the record
    /// and is no part of what the run returns.
    Failed { output: String, error: InferenceError },
}

/// What a `DecodeState` holds, as plain values.
pub enum StateView {
    Running { output: Seq<char> },
    Stopped { output: Seq<char> },
    EndOfSequence { output: Seq<char> },
    Failed { output: Seq<char>, error: ErrorView },
}

impl DeepView for DecodeState {
    type V = StateView;

    open spec fn deep_view(&self) -> StateView {
        match self {
            DecodeState::Running { output } => StateView::Running { output: output@ },
            DecodeState::Stopped { output } => StateView::Stopped { output: output@ },
            DecodeState::EndOfSequence { output } => StateView::EndOfSequence { output: output@ },
            DecodeState::Failed { output, error } => StateView::Failed {
                output: output@,
                error: error.deep_view(),
            },
        }
    }
}

/// The phase of a state.
pub open spec fn phase_of(state: StateView) -> DecodePhase {
    match state {
        StateView::Running { .. } => DecodePhase::Running,
        StateView::Stopped { .. } => DecodePhase::Stopped,
        StateView::EndOfSequence { .. } => DecodePhase::EndOfSequence,
        StateView::Failed { .. } => DecodePhase::Failed,
    }
}

/// The text accepted so far.
pub open spec fn output_of(state: StateView) -> Seq<char> {
    match state {
        StateView::Running { output } => output,
        StateView::Stopped { output } => output,
        StateView::EndOfSequence { output } => output,
        StateView::Failed { output, .. } => output,
    }
}

/// What the caller does after a step.
#[derive(Clone, Debug, PartialEq, Eq)]
pub enum Action {
    /// Show nothing and pull the next token.
    Pull,
    /// Show this text, then pull the next token.
    Emit(String),
    /// Pull no more: the run is over.
    Halt,
}

/// What an `Action` holds, as plain values.
pub enum ActionView {
    Pull,
    Emit(Seq<char>),
    Halt,
}

impl DeepView for Action {
    type V = ActionView;

    open spec fn deep_view(&self) -> ActionView {
        match self {
            Action::Pull => ActionView::Pull,
            Action::Emit(text) => ActionView::Emit(text@),
            Action::Halt => ActionView::Halt,
        }
    }
}

/// The view of an optional stop string.
pub open spec fn stop_view(stop: Option<&str>) -> Option<Seq<char>> {
    match stop {
        Some(s) => Some(s@),
        None => None,
    }
}

/// A stop string is configured and the trimmed token is exactly it.
pub open spec fn stop_matches(trimmed_token: Seq<char>, stop: Option<Seq<char>>) -> bool {
    stop == Some(trimmed_token)
}

/// The token is one space and nothing else.
pub open spec fn is_lone_space(token: Seq<char>) -> bool {
    token.len() == 1 && token[0] == ' '
}

/// What is accepted of a token: without its leading whitespace where it
/// opens the output with a space, as it stands otherwise.
pub open spec fn chunk_of(output: Seq<char>, token: Seq<char>) -> Seq<char> {
    if output.len() == 0 && token.len() > 0 && token[0] == ' ' {
        trim_start(token)
    } else {
        token
    }
}

/// The state a run begins in.
pub open spec fn initial_state() -> StateView {
    StateView::Running { output: Seq::empty() }
}

/// One transition of the machine.
///
/// A run that is over stays as it is. In a running one, the end of the
/// sequence and a failure end the run. A lone space before any output is
/// dropped. A token that trims to the stop string ends the run and is not
/// accepted. Any other token is accepted and shown.
pub open spec fn step_spec(state: StateView, event: EventView, stop: Option<Seq<char>>) -> (
    StateView,
    ActionView,
) {
    match state {
        StateView::Running { output } => match event {
            EventView::EndOfSequence => (StateView::EndOfSequence { output }, ActionView::Halt),
            EventView::Failure(error) => (StateView::Failed { output, error }, ActionView::Halt),
            EventView::Token(token) => {
                if output.len() == 0 && is_lone_space(token) {
                    (state, ActionView::Pull)
                } else if stop_matches(trim(token), stop) {
                    (StateView::Stopped { output }, ActionView::Halt)
                } else {
                    let chunk = chunk_of(output, token);
                    (StateView::Running { output: output + chunk }, ActionView::Emit(chunk))
                }
            },
        },
        _ => (state, ActionView::Halt),
    }
}

/// What a finished run returns: the accepted text after a stop or the end
/// of the sequence, the error after a failure. `None` while it runs.
pub open spec fn outcome_spec(state: StateView) -> Option<Result<Seq<char>, ErrorView>> {
    match state {
        StateView::Running { .. } => None,
        StateView::Stopped { output } => Some(Ok(output)),
        StateView::EndOfSequence { output } => Some(Ok(output)),
        StateView::Failed { error, .. } => Some(Err(error)),
    }
}

/// A decode run so far: its state, what was shown, and the count of the
/// tokens dropped and of the pulls made.
pub struct Trace {
    pub state: StateView,
    pub emitted: Seq<Seq<char>>,
    pub dropped: nat,
    pub pulls: nat,
}

/// The trace of a run before its first pull.
pub open spec fn initial_trace() -> Trace {
    Trace { state: initial_state(), emitted: Seq::empty(), dropped: 0, pulls: 0 }
}

/// The trace after one more answer of the engine. A run that is over pulls
/// no more, so its trace stays as it is.
pub open spec fn advance(trace: Trace, event: EventView, stop: Option<Seq<char>>) -> Trace {
    if phase_of(trace.state) != DecodePhase::Running {
        trace
    } else {
        let (state, action) = step_spec(trace.state, event, stop);
        Trace {
            state,
            emitted: match action {
                ActionView::Emit(chunk) => trace.emitted.push(chunk),
                _ => trace.emitted,
            },
            dropped: match action {
                ActionView::Pull => trace.dropped + 1,
                _ => trace.dropped,
            },
            pulls: trace.pulls + 1,
        }
    }
}

/// The trace of a run that is given `events` as the engine's answers, in
/// order.
pub open spec fn replay(events: Seq<EventView>, stop: Option<Seq<char>>) -> Trace
    decreases events.len(),
{
    if events.len() == 0 {
        initial_trace()
    } else {
        advance(replay(events.drop_last(), stop), events.last(), stop)
    }
}

/// The texts of `chunks`, one after the other.
pub open spec fn joined(chunks: Seq<Seq<char>>) -> Seq<char>
    decreases chunks.len(),
{
    if chunks.len() == 0 {
        Seq::empty()
    } else {
        joined(chunks.drop_last()) + chunks.last()
    }
}

/// Whether to halt on a token: a stop string is configured and the trimmed
/// token is exactly that string. Without a stop string nothing halts
/// early.
pub fn should_stop(trimmed_token: &str, stop: Option<&str>) -> (halt: bool)
    ensures
        halt == stop_matches(trimmed_token@, stop_view(stop)),
{
    match stop {
        Some(marker) => same_text(marker, trimmed_token),
        None => false,
    }
}

impl DecodeState {
    /// The state a run begins in: running, with nothing accepted.
    pub fn new() -> (state: DecodeState)
        ensures
            state.deep_view() == initial_state(),
    {
        DecodeState::Running { output: String::new() }
    }

    /// The phase of this state.
    pub fn phase(&self) -> (phase: DecodePhase)
        ensures
            phase == phase_of(self.deep_view()),
    {
        match self {
            DecodeState::Running { .. } => DecodePhase::Running,
            DecodeState::Stopped { .. } => DecodePhase::Stopped,
            DecodeState::EndOfSequence { .. } => DecodePhase::EndOfSequence,
            DecodeState::Failed { .. } => DecodePhase::Failed,
        }
    }

    /// The text accepted so far.
    pub fn output(&self) -> (text: &str)
        ensures
            text@ == output_of(self.deep_view()),
    {
        match self {
            DecodeState::Running { output } => output.as_str(),
            DecodeState::Stopped { output } => output.as_str(),
            DecodeState::EndOfSequence { output } => output.as_str(),
            DecodeState::Failed { output, .. } => output.as_str(),
        }
    }

    /// What the run returns once it is over; `None` while it runs.
    pub fn outcome(self) -> (out: Option<Result<String, InferenceError>>)
        ensures
            match out {
                None => outcome_spec(self.deep_view()) is None,
                Some(Ok(text)) => outcome_spec(self.deep_view()) == Some(
                    Ok::<Seq<char>, ErrorView>(text@),
                ),
                Some(Err(error)) => outcome_spec(self.deep_view()) == Some(
                    Err::<Seq<char>, ErrorView>(error.deep_view()),
                ),
            },
    {
        match self {
            DecodeState::Running { .. } => None,
            DecodeState::Stopped { output } => Some(Ok(output)),
            DecodeState::EndOfSequence { output } => Some(Ok(output)),
            DecodeState::Failed { error, .. } => Some(Err(error)),
        }
    }
}

/// One transition of the decode machine: the next state and what the caller
/// does before the next pull.
pub fn step(state: DecodeState, event: EngineEvent, stop: Option<&str>) -> (next: (
    DecodeState,
    Action,
))
    ensures
        (next.0.deep_view(), next.1.deep_view()) == step_spec(
            state.deep_view(),
            event.deep_view(),
            stop_view(stop),
        ),
{
    let output = match state {
        DecodeState::Running { output } => output,
        _ => {
            return (state, Action::Halt);
        },
    };
    match event {
        EngineEvent::EndOfSequence => (DecodeState::EndOfSequence { output }, Action::Halt),
        EngineEvent::Failure(error) => (DecodeState::Failed { output, error }, Action::Halt),
        EngineEvent::Token(token) => {
            let chars = chars_of(token.as_str());
            let fresh: bool = output.as_str().is_empty();
            if fresh && chars.len() == 1 && chars[0] == ' ' {
                return (DecodeState::Running { output }, Action::Pull);
            }
            let (from, to) = trim_bounds(&chars);
            let core = string_of(&chars, from, to);
            if should_stop(core.as_str(), stop) {
                return (DecodeState::Stopped { output }, Action::Halt);
            }
            let chunk = if fresh && chars.len() > 0 && chars[0] == ' ' {
                proof {
                    assert(chars@.subrange(from as int, chars@.len() as int) =~= trim_start(
                        chars@,
                    ));
                }
                string_of(&chars, from, chars.len())
            } else {
                token
            };
            let mut output = output;
            output.append(chunk.as_str());
            (DecodeState::Running { output }, Action::Emit(chunk))
        },
    }
}

/// What `drive` reports of a run: the state it ended in, what it showed,
/// and how many tokens it dropped and pulls it made.
#[derive(Clone, Debug, PartialEq, Eq)]
pub struct DecodeReport {
    pub state: DecodeState,
    pub emitted: Vec<String>,
    pub dropped: usize,
    pub pulls: usize,
}

impl DeepView for DecodeReport {
    type V = Trace;

    open spec fn deep_view(&self) -> Trace {
        Trace {
            state: self.state.deep_view(),
            emitted: self.emitted.deep_view(),
            dropped: self.dropped as nat,
            pulls: self.pulls as nat,
        }
    }
}

/// Runs the decode machine over `events`, the engine's answers in order,
/// until the run is over or the answers are used up.
pub fn drive(events: Vec<EngineEvent>, stop: Option<&str>) -> (report: DecodeReport)
    ensures
        report.deep_view() == replay(events.deep_view(), stop_view(stop)),
{
    let ghost all = events.deep_view();
    let count: usize = events.len();
    let mut state = DecodeState::new();
    let mut emitted: Vec<String> = Vec::new();
    let mut dropped: usize = 0;
    let mut pulls: usize = 0;
    assert(all.take(0) =~= Seq::<EventView>::empty());
    assert(emitted.deep_view() =~= Seq::<Seq<char>>::empty());
    for event in it: events
        invariant
            it.seq() == events@,
            all == events.deep_view(),
            count == events@.len(),
            dropped <= pulls <= it.index(),
            emitted@.len() <= pulls,
            (Trace {
                state: state.deep_view(),
                emitted: emitted.deep_view(),
                dropped: dropped as nat,
                pulls: pulls as nat,
            }) == replay(all.take(it.index() as int), stop_view(stop)),
    {
        proof {
            let i = it.index() as int;
            assert(all.take(i + 1).drop_last() =~= all.take(i));
            assert(all.take(i + 1).last() == event.deep_view());
        }
        if state.phase() == DecodePhase::Running {
            let ghost shown = emitted.deep_view();
            let (next, action) = step(state, event, stop);
            state = next;
            pulls += 1;
            match action {
                Action::Pull => {
                    dropped += 1;
                },
                Action::Emit(chunk) => {
                    emitted.push(chunk);
                    assert(emitted.deep_view() =~= shown.push(chunk@));
                },
                Action::Halt => {},
            }
        }
    }
    assert(all.take(events@.len() as int) =~= all);
    DecodeReport { state, emitted, dropped, pulls }
}

/// Each further answer advances the trace by one step.
pub proof fn lemma_replay_unfolds(events: Seq<EventView>, stop: Option<Seq<char>>, k: int)
    requires
        0 <= k < events.len(),
    ensures
        replay(events.take(k + 1), stop) == advance(replay(events.take(k), stop), events[k], stop),
{
    assert(events.take(k + 1).drop_last() =~= events.take(k));
}

/// A run that is over after `k` answers is not changed by the answers that
/// follow.
pub proof fn lemma_halted_run_stays(events: Seq<EventView>, stop: Option<Seq<char>>, k: int)
    requires
        0 <= k <= events.len(),
        phase_of(replay(events.take(k), stop).state) != DecodePhase::Running,
    ensures
        replay(events, stop) == replay(events.take(k), stop),
    decreases events.len() - k,
{
    if k == events.len() {
        assert(events.take(k) =~= events);
    } else {
        lemma_replay_unfolds(events, stop, k);
        lemma_halted_run_stays(events, stop, k + 1);
    }
}

/// What holds of every trace: the accepted text is what was shown, in
/// order; every pull either accepted a token, dropped one or ended the run;
/// and a run that is not over has used every answer.
pub proof fn lemma_trace_invariants(events: Seq<EventView>, stop: Option<Seq<char>>)
    ensures
        ({
            let trace = replay(events, stop);
            &&& joined(trace.emitted) == output_of(trace.state)
            &&& trace.pulls == trace.emitted.len() + trace.dropped + if phase_of(trace.state)
                == DecodePhase::Running {
                0nat
            } else {
                1nat
            }
            &&& trace.pulls <= events.len()
            &&& phase_of(trace.state) == DecodePhase::Running ==> trace.pulls == events.len()
        }),
    decreases events.len(),
{
    if events.len() > 0 {
        let before = replay(events.drop_last(), stop);
        lemma_trace_invariants(events.drop_last(), stop);
        let after = replay(events, stop);
        if phase_of(before.state) == DecodePhase::Running {
            let (state, action) = step_spec(before.state, events.last(), stop);
            if let ActionView::Emit(chunk) = action {
                assert(after.emitted.drop_last() =~= before.emitted);
            }
        }
    } else {
        assert(joined(Seq::<Seq<char>>::empty()) =~= Seq::<char>::empty());
    }
}

/// The accepted text only grows: what a run has accepted after `k` answers
/// is the beginning of what it has accepted after all of them, and what it
/// has shown by then stays shown.
pub proof fn lemma_output_only_grows(events: Seq<EventView>, stop: Option<Seq<char>>, k: int)
    requires
        0 <= k <= events.len(),
    ensures
        output_of(replay(events.take(k), stop).state).is_prefix_of(
            output_of(replay(events, stop).state),
        ),
        replay(events.take(k), stop).emitted.is_prefix_of(replay(events, stop).emitted),
    decreases events.len() - k,
{
    if k == events.len() {
        assert(events.take(k) =~= events);
    } else {
        lemma_replay_unfolds(events, stop, k);
        lemma_output_only_grows(events, stop, k + 1);
        let here = replay(events.take(k), stop);
        let next = replay(events.take(k + 1), stop);
        let last = replay(events, stop);
        assert(output_of(here.state).is_prefix_of(output_of(next.state)));
        assert(here.emitted.is_prefix_of(next.emitted));
        assert(output_of(here.state) =~= output_of(last.state).subrange(
            0,
            output_of(here.state).len() as int,
        ));
        assert(here.emitted =~= last.emitted.subrange(0, here.emitted.len() as int));
    }
}

/// The token that triggers a stop is never accepted.
///
/// Where the run is still going after `k` answers and answer `k` is a token
/// that stops it, the run ends there: it returns the text accepted before
/// that token, shows nothing more, and has made `k + 1` pulls for `k`
/// tokens accepted or dropped.
pub proof fn lemma_stop_token_is_not_accepted(
    events: Seq<EventView>,
    stop: Option<Seq<char>>,
    k: int,
)
    requires
        0 <= k < events.len(),
        phase_of(replay(events.take(k), stop).state) == DecodePhase::Running,
        events[k] is Token,
        phase_of(step_spec(replay(events.take(k), stop).state, events[k], stop).0)
            == DecodePhase::Stopped,
    ensures
        ({
            let before = replay(events.take(k), stop);
            let after = replay(events, stop);
            &&& stop_matches(trim(events[k]->Token_0), stop)
            &&& after.state == StateView::Stopped { output: output_of(before.state) }
            &&& after.emitted == before.emitted
            &&& outcome_spec(after.state) == Some(
                Ok::<Seq<char>, ErrorView>(output_of(before.state)),
            )
            &&& after.pulls == k + 1
            &&& after.emitted.len() + after.dropped == k
        }),
{
    lemma_replay_unfolds(events, stop, k);
    lemma_halted_run_stays(events, stop, k + 1);
    lemma_trace_invariants(events.take(k), stop);
}

/// A failure of the engine is surfaced, never passed over.
///
/// Where the run is still going after `k` answers and answer `k` is a
/// failure, the run ends failed and returns that error, whatever was
/// accepted before. What was shown stays shown.
pub proof fn lemma_failure_is_surfaced(events: Seq<EventView>, stop: Option<Seq<char>>, k: int)
    requires
        0 <= k < events.len(),
        phase_of(replay(events.take(k), stop).state) == DecodePhase::Running,
        events[k] is Failure,
    ensures
        ({
            let before = replay(events.take(k), stop);
            let after = replay(events, stop);
            &&& phase_of(after.state) == DecodePhase::Failed
            &&& outcome_spec(after.state) == Some(
                Err::<Seq<char>, ErrorView>(events[k]->Failure_0),
            )
            &&& after.emitted == before.emitted
            &&& after.pulls == k + 1
        }),
{
    lemma_replay_unfolds(events, stop, k);
    lemma_halted_run_stays(events, stop, k + 1);
    lemma_trace_invariants(events.take(k), stop);
}

/// The end of the sequence ends the run with the text accepted so far.
pub proof fn lemma_end_of_sequence_returns_output(
    events: Seq<EventView>,
    stop: Option<Seq<char>>,
    k: int,
)
    requires
        0 <= k < events.len(),
        phase_of(replay(events.take(k), stop).state) == DecodePhase::Running,
        events[k] is EndOfSequence,
    ensures
        ({
            let before = replay(events.take(k), stop);
            let after = replay(events, stop);
            &&& after.state == StateView::EndOfSequence { output: output_of(before.state) }
            &&& outcome_spec(after.state) == Some(
                Ok::<Seq<char>, ErrorView>(output_of(before.state)),
            )
            &&& after.emitted == before.emitted
            &&& after.pulls == k + 1
        }),
{
    lemma_replay_unfolds(events, stop, k);
    lemma_halted_run_stays(events, stop, k + 1);
    lemma_trace_invariants(events.take(k), stop);
}

/// A token halts the run only where it is the stop string entire: a token
/// that trims to a proper prefix or a proper suffix of the stop string, or
/// to a text that the stop string is a proper prefix or suffix of, does
/// not.
pub proof fn lemma_partial_match_does_not_stop(trimmed_token: Seq<char>, marker: Seq<char>)
    requires
        trimmed_token.len() != marker.len(),
        trimmed_token.is_prefix_of(marker) || trimmed_token.is_suffix_of(marker)
            || marker.is_prefix_of(trimmed_token) || marker.is_suffix_of(trimmed_token),
    ensures
        !stop_matches(trimmed_token, Some(marker)),
{
}

/// Without a stop string no token halts the run.
pub proof fn lemma_no_stop_without_marker(trimmed_token: Seq<char>)
    ensures
        !stop_matches(trimmed_token, None),
{
}

} // verus!
