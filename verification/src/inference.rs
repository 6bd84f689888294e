//! What passes between this library and the inference engine: the bytes of
//! a prompt on the way in, the bytes of an output on the way out, and the
//! error that reports a failed engine call.
//!
//! The engine itself is driven by the caller. Nothing here calls it.
use vstd::prelude::*;
use vstd::utf8::{decode_utf8, encode_utf8, valid_utf8};

verus! {

/// The room for one token that the engine hands back.
pub const TOKEN_BUFFER_SIZE: usize = 4096 * 6;

/// The engine call that failed.
#[derive(Clone, Copy, Debug, PartialEq, Eq, Structural, Hash)]
pub enum EngineStage {
    SetInput,
    Compute,
    GetOutput,
}

/// A failure of the engine other than its end-of-sequence signal.
#[derive(Clone, Debug, PartialEq, Eq)]
pub struct InferenceError {
    pub stage: EngineStage,
    /// What the engine said.
    pub message: String,
}

/// What an `InferenceError` holds, as plain values.
pub struct ErrorView {
    pub stage: EngineStage,
    pub message: Seq<char>,
}

impl DeepView for InferenceError {
    type V = ErrorView;

    open spec fn deep_view(&self) -> ErrorView {
        ErrorView { stage: self.stage, message: self.message@ }
    }
}

/// What the engine reports when a call fails: whether it is the signal that
/// the model came to its own end, and what the engine says of it.
#[derive(Clone, Debug, PartialEq, Eq)]
pub struct EngineFault {
    pub end_of_sequence: bool,
    pub message: String,
}

/// What an `EngineFault` holds, as plain values.
pub struct FaultView {
    pub end_of_sequence: bool,
    pub message: Seq<char>,
}

impl DeepView for EngineFault {
    type V = FaultView;

    open spec fn deep_view(&self) -> FaultView {
        FaultView { end_of_sequence: self.end_of_sequence, message: self.message@ }
    }
}

/// The text that reports a failure at `stage` with the engine's `message`.
pub open spec fn description_of(stage: EngineStage, message: Seq<char>) -> Seq<char> {
    match stage {
        EngineStage::SetInput => "Fail to set input tensor"@,
        EngineStage::Compute => "Fail to execute model inference"@,
        EngineStage::GetOutput => "Fail to get output tensor: "@ + message,
    }
}

impl InferenceError {
    /// The error for a call at `stage` that the engine answered with
    /// `message`.
    pub fn new(stage: EngineStage, message: String) -> (error: InferenceError)
        ensures
            error.deep_view() == (ErrorView { stage, message: message@ }),
    {
        InferenceError { stage, message }
    }

    /// The error for a call at `stage` that the engine answered with
    /// `fault`. Outside the token-by-token loop the end-of-sequence signal
    /// is a failure like any other.
    pub fn at(stage: EngineStage, fault: EngineFault) -> (error: InferenceError)
        ensures
            error.deep_view() == (ErrorView { stage, message: fault.message@ }),
    {
        InferenceError { stage, message: fault.message }
    }

    /// The text that reports this error to a caller.
    pub fn describe(&self) -> (text: String)
        ensures
            text@ == description_of(self.stage, self.message@),
    {
        match self.stage {
            EngineStage::SetInput => "Fail to set input tensor".to_owned(),
            EngineStage::Compute => "Fail to execute model inference".to_owned(),
            EngineStage::GetOutput => {
                let mut text = "Fail to get output tensor: ".to_owned();
                text.append(self.message.as_str());
                text
            },
        }
    }
}

/// The size of the buffer for a whole output: six bytes for each token of
/// the context. `None` where that is more than can be addressed.
pub fn context_buffer_size(ctx_size: u64) -> (size: Option<usize>)
    ensures
        size == if ctx_size * 6 <= usize::MAX {
            Some((ctx_size * 6) as usize)
        } else {
            None::<usize>
        },
{
    if ctx_size <= (usize::MAX / 6) as u64 {
        Some(ctx_size as usize * 6)
    } else {
        None
    }
}

/// The input tensor for a prompt: its UTF-8 bytes.
pub fn prompt_tensor(prompt: &str) -> (bytes: Vec<u8>)
    ensures
        bytes@ == encode_utf8(prompt@),
{
    prompt.as_bytes_vec()
}

/// What the engine wrote: the first `reported` bytes of `buffer`, or all of
/// it where the engine reports more than the buffer holds.
pub open spec fn written(buffer: Seq<u8>, reported: usize) -> Seq<u8> {
    if reported <= buffer.len() {
        buffer.take(reported as int)
    } else {
        buffer
    }
}

/// The bytes that the engine wrote into `buffer`.
pub fn take_output(buffer: Vec<u8>, reported: usize) -> (bytes: Vec<u8>)
    ensures
        bytes@ == written(buffer@, reported),
{
    let mut bytes = buffer;
    if reported < bytes.len() {
        bytes.truncate(reported);
    } else if reported == bytes.len() {
        assert(bytes@.take(reported as int) =~= bytes@);
    }
    bytes
}

/// What `String::from_utf8_lossy` makes of `bytes`.
pub uninterp spec fn lossy_text(bytes: Seq<u8>) -> Seq<char>;

/// Calls `String::from_utf8_lossy` of std, which reads valid UTF-8 as it
/// stands and puts U+FFFD in place of what is not. The contract names the
/// result and equates it with the decoded text where the bytes are valid
/// UTF-8; what the text is elsewhere is not described.
#[verifier::external_body]
fn decode_lossy(bytes: &Vec<u8>) -> (text: String)
    ensures
        text@ == lossy_text(bytes@),
        valid_utf8(bytes@) ==> text@ == decode_utf8(bytes@),
{
    String::from_utf8_lossy(bytes).into_owned()
}

/// The text that the engine wrote into `buffer`, be it one token or a whole
/// output, read leniently: valid UTF-8 is decoded as it stands.
pub fn output_text(buffer: Vec<u8>, reported: usize) -> (text: String)
    ensures
        text@ == lossy_text(written(buffer@, reported)),
        valid_utf8(written(buffer@, reported)) ==> text@ == decode_utf8(
            written(buffer@, reported),
        ),
{
    let bytes = take_output(buffer, reported);
    decode_lossy(&bytes)
}

} // verus!
