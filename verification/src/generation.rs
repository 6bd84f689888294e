//! What a generation call returns once the engine has answered: the text
//! of the completion and its token counts, or the engine's error.
use vstd::prelude::*;
use crate::decode::{
    lemma_failure_is_surfaced, lemma_stop_token_is_not_accepted, output_of, outcome_spec, phase_of,
    replay, step_spec, DecodePhase, DecodeState, EventView, StateView,
};
use crate::inference::{lossy_text, output_text, written, ErrorView, InferenceError};
use crate::postprocess::{strip, stripped};
use crate::response::{usage_of, usage_spec, Usage};
use crate::template::TemplateKind;
use crate::text::{trim, trimmed};

verus! {

/// A completion and the token counts of its request.
#[derive(Clone, Debug, PartialEq, Eq)]
pub struct Generation {
    pub text: String,
    pub usage: Usage,
}

/// What a `Generation` holds, as plain values.
pub struct GenerationView {
    pub text: Seq<char>,
    pub usage: Usage,
}

impl DeepView for Generation {
    type V = GenerationView;

    open spec fn deep_view(&self) -> GenerationView {
        GenerationView { text: self.text@, usage: self.usage }
    }
}

/// The completion `text` for `prompt`, with its counts.
pub open spec fn generation_of(prompt: Seq<char>, text: Seq<char>) -> GenerationView {
    GenerationView { text, usage: usage_spec(prompt, text) }
}

/// The view of what a finished call returns.
pub open spec fn result_view(out: Result<Generation, InferenceError>) -> Result<
    GenerationView,
    ErrorView,
> {
    match out {
        Ok(generation) => Ok(generation.deep_view()),
        Err(error) => Err(error.deep_view()),
    }
}

/// What a streaming call returns for the state that its decode run ended
/// in: the accepted text with its counts after a stop or the end of the
/// sequence, the error after a failure, and nothing yet while it runs.
pub open spec fn streaming_spec(prompt: Seq<char>, state: StateView) -> Option<
    Result<GenerationView, ErrorView>,
> {
    match outcome_spec(state) {
        None => None,
        Some(Ok(text)) => Some(Ok(generation_of(prompt, text))),
        Some(Err(error)) => Some(Err(error)),
    }
}

/// Concludes a streaming call. A failed run gives the engine's error and
/// no text, whatever was accepted before the failure.
pub fn finish_streaming(prompt: &str, state: DecodeState) -> (out: Option<
    Result<Generation, InferenceError>,
>)
    ensures
        match out {
            None => streaming_spec(prompt@, state.deep_view()) is None,
            Some(result) => streaming_spec(prompt@, state.deep_view()) == Some(result_view(result)),
        },
{
    match state.outcome() {
        None => None,
        Some(Ok(text)) => {
            let usage = usage_of(prompt, text.as_str());
            Some(Ok(Generation { text, usage }))
        },
        Some(Err(error)) => Some(Err(error)),
    }
}

/// A streaming call that a stop ends returns the text accepted before the
/// token that stopped it, and nothing of that token.
pub proof fn lemma_stopped_call_returns_the_text_before(
    prompt: Seq<char>,
    events: Seq<EventView>,
    stop: Option<Seq<char>>,
    k: int,
)
    requires
        0 <= k < events.len(),
        phase_of(replay(events.take(k), stop).state) == DecodePhase::Running,
        events[k] is Token,
        phase_of(step_spec(replay(events.take(k), stop).state, events[k], stop).0)
            == DecodePhase::Stopped,
    ensures
        streaming_spec(prompt, replay(events, stop).state) == Some(
            Ok::<GenerationView, ErrorView>(
                generation_of(prompt, output_of(replay(events.take(k), stop).state)),
            ),
        ),
{
    lemma_stop_token_is_not_accepted(events, stop, k);
}

/// A streaming call whose engine fails returns the engine's error and no
/// partial text, however many tokens were accepted and shown before.
pub proof fn lemma_failed_call_returns_the_error(
    prompt: Seq<char>,
    events: Seq<EventView>,
    stop: Option<Seq<char>>,
    k: int,
)
    requires
        0 <= k < events.len(),
        phase_of(replay(events.take(k), stop).state) == DecodePhase::Running,
        events[k] is Failure,
    ensures
        streaming_spec(prompt, replay(events, stop).state) == Some(
            Err::<GenerationView, ErrorView>(events[k]->Failure_0),
        ),
        replay(events, stop).emitted == replay(events.take(k), stop).emitted,
{
    lemma_failure_is_surfaced(events, stop, k);
}

/// The text of a single-shot call: the output stripped by the rule of its
/// dialect, or only trimmed where the call has no dialect.
pub open spec fn cleaned(output: Seq<char>, kind: Option<TemplateKind>) -> Seq<char> {
    match kind {
        Some(kind) => stripped(output, kind),
        None => trim(output),
    }
}

/// Concludes a single-shot call: the engine's output is read from `buffer`,
/// cleaned and counted. A chat completion names its dialect; a plain text
/// completion has none.
pub fn finish_single_shot(
    prompt: &str,
    kind: Option<TemplateKind>,
    buffer: Vec<u8>,
    reported: usize,
) -> (out: Generation)
    ensures
        out.deep_view() == generation_of(
            prompt@,
            cleaned(lossy_text(written(buffer@, reported)), kind),
        ),
{
    let raw = output_text(buffer, reported);
    let text = match kind {
        Some(kind) => strip(raw.as_str(), kind),
        None => trimmed(raw.as_str()),
    };
    let usage = usage_of(prompt, text.as_str());
    Generation { text, usage }
}

} // verus!
