//! The prompt builder: renders an ordered list of messages into the one
//! prompt string that a dialect expects.
//!
//! The text of each dialect is produced by the `chat-prompts` crate. This
//! module decides which inputs are rendered at all, names the text that
//! comes back and reports each rejection as an error of its own.
use vstd::prelude::*;
use std::str::FromStr;
use chat_prompts::error::PromptError;
use chat_prompts::{BuildChatPrompt, ChatPrompt, PromptTemplateType};
use endpoints::chat::{ChatCompletionRequestMessage, ChatCompletionUserMessageContent};
use crate::message::{ChatMessage, ChatRole, MessageView};
use crate::registry::{resolve, strategy_of, PromptStrategy};
use crate::template::TemplateKind;

verus! {

/// The error type of `chat-prompts`. Verus is told that the type exists
/// and nothing of what a value of it holds.
#[verifier::external_type_specification]
#[verifier::external_body]
pub struct ExPromptError(PromptError);

/// Why a list of messages could not be rendered.
#[derive(Clone, Copy, Debug, PartialEq, Eq, Structural, Hash)]
pub enum PromptBuildError {
    /// The list of messages is empty.
    NoMessages,
    /// The strategy renders the last message as the instruction, and the
    /// last message is not a user message.
    NoUserMessage,
}

/// What each error says.
pub open spec fn error_text(error: PromptBuildError) -> Seq<char> {
    match error {
        PromptBuildError::NoMessages => "the conversation holds no message"@,
        PromptBuildError::NoUserMessage => "the last message is not a user message"@,
    }
}

impl PromptBuildError {
    /// What this error says, for a report to the caller.
    pub fn describe(&self) -> (text: &'static str)
        ensures
            text@ == error_text(*self),
    {
        match self {
            PromptBuildError::NoMessages => "the conversation holds no message",
            PromptBuildError::NoUserMessage => "the last message is not a user message",
        }
    }
}

/// The name under which `chat-prompts` knows each strategy.
pub open spec fn dialect_of(strategy: PromptStrategy) -> Seq<char> {
    match strategy {
        PromptStrategy::Llama2Chat => "llama-2-chat"@,
        PromptStrategy::CodeLlamaInstruct => "codellama-instruct"@,
        PromptStrategy::MistralInstruct => "mistral-instruct"@,
        PromptStrategy::MistralLite => "mistrallite"@,
        PromptStrategy::OpenChat => "openchat"@,
        PromptStrategy::HumanAssistant => "human-assistant"@,
        PromptStrategy::VicunaChat => "vicuna-1.0-chat"@,
        PromptStrategy::Vicuna11Chat => "vicuna-1.1-chat"@,
        PromptStrategy::ChatML => "chatml"@,
        PromptStrategy::Baichuan2Chat => "baichuan-2"@,
        PromptStrategy::WizardCoder => "wizard-coder"@,
        PromptStrategy::ZephyrChat => "zephyr"@,
        PromptStrategy::NeuralChat => "intel-neural"@,
        PromptStrategy::DeepseekChat => "deepseek-chat"@,
        PromptStrategy::DeepseekCoder => "deepseek-coder"@,
    }
}

/// `dialect` is the name of one of the strategies.
pub open spec fn is_dialect(dialect: Seq<char>) -> bool {
    exists|strategy: PromptStrategy| dialect_of(strategy) == dialect
}

/// The prompt that `chat-prompts` renders for the dialect named `dialect`
/// from `messages`, where it renders one.
pub uninterp spec fn prompt_text(dialect: Seq<char>, messages: Seq<MessageView>) -> Seq<char>;

/// The lists of messages that the dialect named `dialect` renders: any list
/// that is not empty, except that `wizard-coder` wants a user message last.
pub open spec fn renders(dialect: Seq<char>, messages: Seq<MessageView>) -> bool {
    &&& messages.len() > 0
    &&& dialect == "wizard-coder"@ ==> messages.last().role == ChatRole::User
}

/// What `build` returns for each strategy and list of messages.
pub open spec fn build_spec(strategy: PromptStrategy, messages: Seq<MessageView>) -> Result<
    Seq<char>,
    PromptBuildError,
> {
    if messages.len() == 0 {
        Err(PromptBuildError::NoMessages)
    } else if strategy == PromptStrategy::WizardCoder && messages.last().role != ChatRole::User {
        Err(PromptBuildError::NoUserMessage)
    } else {
        Ok(prompt_text(dialect_of(strategy), messages))
    }
}

/// The view of what `build` returns.
pub open spec fn outcome_view(out: Result<String, PromptBuildError>) -> Result<
    Seq<char>,
    PromptBuildError,
> {
    match out {
        Ok(text) => Ok(text@),
        Err(e) => Err(e),
    }
}

/// Calls `BuildChatPrompt::build` of `chat-prompts` on the `ChatPrompt` that
/// `PromptTemplateType::from_str` and `ChatPrompt::from` give for `dialect`,
/// with each message turned into a request message of `endpoints`: system,
/// user (as text) and assistant messages as such, a function message as a
/// tool message whose call id is its name.
///
/// The contract claims that the call succeeds exactly on the lists that
/// `renders` admits, and that its text depends on the dialect and on the
/// messages' roles, contents and names alone. The text itself is not
/// described: `prompt_text` only names it.
#[verifier::external_body]
fn build_outside(dialect: &str, messages: &Vec<ChatMessage>) -> (out: Result<String, PromptError>)
    requires
        is_dialect(dialect@),
    ensures
        out is Ok <==> renders(dialect@, messages.deep_view()),
        out matches Ok(text) ==> text@ == prompt_text(dialect@, messages.deep_view()),
{
    let mut outside: Vec<ChatCompletionRequestMessage> = Vec::new();
    for m in messages.iter() {
        let (content, name) = (m.content.clone(), m.name.clone());
        outside.push(match m.role {
            ChatRole::System => ChatCompletionRequestMessage::new_system_message(content, name),
            ChatRole::User => ChatCompletionRequestMessage::new_user_message(
                ChatCompletionUserMessageContent::Text(content), name),
            ChatRole::Assistant => ChatCompletionRequestMessage::new_assistant_message(
                Some(content), name, None),
            ChatRole::Function => ChatCompletionRequestMessage::new_tool_message(
                content, name.unwrap_or_default()),
        });
    }
    ChatPrompt::from(PromptTemplateType::from_str(dialect)?).build(&mut outside)
}

impl PromptStrategy {
    /// The name under which `chat-prompts` knows this strategy.
    pub fn dialect(&self) -> (name: &'static str)
        ensures
            name@ == dialect_of(*self),
    {
        match self {
            PromptStrategy::Llama2Chat => "llama-2-chat",
            PromptStrategy::CodeLlamaInstruct => "codellama-instruct",
            PromptStrategy::MistralInstruct => "mistral-instruct",
            PromptStrategy::MistralLite => "mistrallite",
            PromptStrategy::OpenChat => "openchat",
            PromptStrategy::HumanAssistant => "human-assistant",
            PromptStrategy::VicunaChat => "vicuna-1.0-chat",
            PromptStrategy::Vicuna11Chat => "vicuna-1.1-chat",
            PromptStrategy::ChatML => "chatml",
            PromptStrategy::Baichuan2Chat => "baichuan-2",
            PromptStrategy::WizardCoder => "wizard-coder",
            PromptStrategy::ZephyrChat => "zephyr",
            PromptStrategy::NeuralChat => "intel-neural",
            PromptStrategy::DeepseekChat => "deepseek-chat",
            PromptStrategy::DeepseekCoder => "deepseek-coder",
        }
    }
}

/// Only the wizard-coder strategy goes by the name `wizard-coder`.
proof fn lemma_wizard_coder_dialect(strategy: PromptStrategy)
    ensures
        dialect_of(strategy) == "wizard-coder"@ <==> strategy == PromptStrategy::WizardCoder,
{
    reveal_strlit("llama-2-chat");
    reveal_strlit("codellama-instruct");
    reveal_strlit("mistral-instruct");
    reveal_strlit("mistrallite");
    reveal_strlit("openchat");
    reveal_strlit("human-assistant");
    reveal_strlit("vicuna-1.0-chat");
    reveal_strlit("vicuna-1.1-chat");
    reveal_strlit("chatml");
    reveal_strlit("baichuan-2");
    reveal_strlit("wizard-coder");
    reveal_strlit("zephyr");
    reveal_strlit("intel-neural");
    reveal_strlit("deepseek-chat");
    reveal_strlit("deepseek-coder");
    if strategy != PromptStrategy::WizardCoder {
        let d = dialect_of(strategy);
        let w = "wizard-coder"@;
        assert(d.len() != w.len() || d[0] != w[0]);
    }
}

/// Renders `messages`, in their order, as one prompt of `strategy`.
///
/// An empty list is rejected by every strategy. The wizard-coder strategy
/// renders the last message as the instruction and rejects a list whose last
/// message is not a user message. Every other list is rendered.
pub fn build(strategy: PromptStrategy, messages: &Vec<ChatMessage>) -> (out: Result<
    String,
    PromptBuildError,
>)
    ensures
        outcome_view(out) == build_spec(strategy, messages.deep_view()),
{
    proof {
        lemma_wizard_coder_dialect(strategy);
    }
    match build_outside(strategy.dialect(), messages) {
        Ok(text) => Ok(text),
        Err(_) => {
            if messages.len() == 0 {
                Err(PromptBuildError::NoMessages)
            } else {
                Err(PromptBuildError::NoUserMessage)
            }
        },
    }
}

/// Building is deterministic: whatever `build` returns for one strategy and
/// two lists that hold the same messages is the same, character for
/// character.
pub proof fn lemma_build_is_deterministic(
    strategy: PromptStrategy,
    first: Vec<ChatMessage>,
    second: Vec<ChatMessage>,
    first_out: Result<String, PromptBuildError>,
    second_out: Result<String, PromptBuildError>,
)
    requires
        first.deep_view() == second.deep_view(),
        outcome_view(first_out) == build_spec(strategy, first.deep_view()),
        outcome_view(second_out) == build_spec(strategy, second.deep_view()),
    ensures
        outcome_view(first_out) == outcome_view(second_out),
{
}

/// Renders `messages` as one prompt of the dialect `kind`.
pub fn render_prompt(kind: TemplateKind, messages: &Vec<ChatMessage>) -> (out: Result<
    String,
    PromptBuildError,
>)
    ensures
        outcome_view(out) == build_spec(strategy_of(kind), messages.deep_view()),
{
    build(resolve(kind), messages)
}

} // verus!
