//! The response assembler: token accounting and the records that answer a
//! completion, a chat completion and a request for the list of models.
//!
//! A token is counted as one whitespace-separated word. This is an
//! approximation and is meant as one: no tokenizer is consulted.
use vstd::prelude::*;
use crate::message::{ChatMessage, ChatRole};
use crate::template::{name_of, TemplateKind};
use crate::text::{count_words, lemma_word_count_bound, lemma_word_count_of_trim, trim, word_count};

verus! {

/// Approximate token counts of one request.
#[derive(Clone, Copy, Debug, PartialEq, Eq, Structural, Hash)]
pub struct Usage {
    pub prompt_tokens: u64,
    pub completion_tokens: u64,
    pub total_tokens: u64,
}

/// Why generation ended.
#[derive(Clone, Copy, Debug, PartialEq, Eq, Structural, Hash)]
pub enum FinishReason {
    Stop,
    Length,
}

/// One answer of a text completion.
#[derive(Clone, Debug, PartialEq, Eq)]
pub struct CompletionChoice {
    pub index: u32,
    pub text: String,
    pub finish_reason: FinishReason,
}

/// The record that answers a text completion.
#[derive(Clone, Debug, PartialEq, Eq)]
pub struct CompletionResult {
    pub id: String,
    pub object: String,
    pub created: u64,
    pub model: String,
    pub choices: Vec<CompletionChoice>,
    pub usage: Usage,
}

/// One answer of a chat completion.
#[derive(Clone, Debug, PartialEq, Eq)]
pub struct ChatChoice {
    pub index: u32,
    pub message: ChatMessage,
    pub finish_reason: FinishReason,
}

/// The record that answers a chat completion.
#[derive(Clone, Debug, PartialEq, Eq)]
pub struct ChatCompletionResult {
    pub id: String,
    pub object: String,
    pub created: u64,
    pub model: String,
    pub choices: Vec<ChatChoice>,
    pub usage: Usage,
}

/// One model that the server offers.
#[derive(Clone, Debug, PartialEq, Eq)]
pub struct ModelEntry {
    pub id: String,
    pub created: u64,
    pub object: String,
    pub owned_by: String,
}

/// The record that answers a request for the list of models.
#[derive(Clone, Debug, PartialEq, Eq)]
pub struct ModelList {
    pub object: String,
    pub data: Vec<ModelEntry>,
}

/// `a + b`, or the largest `u64` where the sum is larger.
pub open spec fn capped_sum(a: int, b: int) -> int {
    if a + b <= u64::MAX {
        a + b
    } else {
        u64::MAX as int
    }
}

/// The counts for a prompt and a completion: the words of each, and their
/// sum. The sum is held at the largest `u64`, which no two texts that fit
/// in memory can reach (`lemma_total_is_sum`).
pub open spec fn usage_spec(prompt: Seq<char>, completion: Seq<char>) -> Usage {
    Usage {
        prompt_tokens: word_count(prompt) as u64,
        completion_tokens: word_count(completion) as u64,
        total_tokens: capped_sum(word_count(prompt) as int, word_count(completion) as int) as u64,
    }
}

/// The parts of a prompt with one space between each two.
pub open spec fn spaced(parts: Seq<Seq<char>>) -> Seq<char>
    decreases parts.len(),
{
    if parts.len() == 0 {
        Seq::empty()
    } else if parts.len() == 1 {
        parts[0]
    } else {
        spaced(parts.drop_last()) + seq![' '] + parts.last()
    }
}

/// The name of the model, or the empty text where none is given.
pub open spec fn model_name(model: Option<String>) -> Seq<char> {
    match model {
        Some(name) => name@,
        None => Seq::empty(),
    }
}

/// `result` is the answer to a text completion: one choice, numbered 0,
/// that holds `text` and ended by a stop, with the counts for `prompt` and
/// `text`.
pub open spec fn is_completion(
    result: CompletionResult,
    id: Seq<char>,
    created: u64,
    model: Seq<char>,
    prompt: Seq<char>,
    text: Seq<char>,
) -> bool {
    &&& result.id@ == id
    &&& result.object@ == "text_completion"@
    &&& result.created == created
    &&& result.model@ == model
    &&& result.choices@.len() == 1
    &&& result.choices@[0].index == 0
    &&& result.choices@[0].text@ == text
    &&& result.choices@[0].finish_reason == FinishReason::Stop
    &&& result.usage == usage_spec(prompt, text)
}

/// `result` is the answer to a chat completion: one choice, numbered 0,
/// whose message is the assistant's and holds `text`, ended by a stop, with
/// the counts for `prompt` and `text`.
pub open spec fn is_chat_completion(
    result: ChatCompletionResult,
    id: Seq<char>,
    created: u64,
    model: Seq<char>,
    prompt: Seq<char>,
    text: Seq<char>,
) -> bool {
    &&& result.id@ == id
    &&& result.object@ == "chat.completion"@
    &&& result.created == created
    &&& result.model@ == model
    &&& result.choices@.len() == 1
    &&& result.choices@[0].index == 0
    &&& result.choices@[0].message.role == ChatRole::Assistant
    &&& result.choices@[0].message.content@ == text
    &&& result.choices@[0].message.name is None
    &&& result.choices@[0].finish_reason == FinishReason::Stop
    &&& result.usage == usage_spec(prompt, text)
}

/// `list` offers one model, `name` served with the dialect `kind`.
pub open spec fn is_model_list(list: ModelList, name: Seq<char>, kind: TemplateKind, created: u64) -> bool {
    &&& list.object@ == "list"@
    &&& list.data@.len() == 1
    &&& list.data@[0].id@ == name + ":"@ + name_of(kind)
    &&& list.data@[0].created == created
    &&& list.data@[0].object@ == "model"@
    &&& list.data@[0].owned_by@ == "Not specified"@
}

/// Wherever the two texts together are shorter than `u64::MAX - 1`
/// characters, and so for all that fit in memory, the total is the plain
/// sum of the two counts.
pub proof fn lemma_total_is_sum(prompt: Seq<char>, completion: Seq<char>)
    requires
        prompt.len() + completion.len() <= u64::MAX - 2,
    ensures
        usage_spec(prompt, completion).total_tokens == word_count(prompt) + word_count(completion),
        usage_spec(prompt, completion).prompt_tokens == word_count(prompt),
        usage_spec(prompt, completion).completion_tokens == word_count(completion),
{
    lemma_word_count_bound(prompt);
    lemma_word_count_bound(completion);
}

/// The counts do not depend on the whitespace around the prompt or around
/// the completion.
pub proof fn lemma_usage_ignores_outer_space(prompt: Seq<char>, completion: Seq<char>)
    ensures
        usage_spec(trim(prompt), trim(completion)) == usage_spec(prompt, completion),
{
    lemma_word_count_of_trim(prompt);
    lemma_word_count_of_trim(completion);
}

/// The approximate token counts for a prompt and its completion.
pub fn usage_of(prompt: &str, completion: &str) -> (usage: Usage)
    ensures
        usage == usage_spec(prompt@, completion@),
{
    let prompt_tokens: u64 = count_words(prompt) as u64;
    let completion_tokens: u64 = count_words(completion) as u64;
    Usage {
        prompt_tokens,
        completion_tokens,
        total_tokens: prompt_tokens.saturating_add(completion_tokens),
    }
}

/// The prompt of a text completion: its parts with one space between each
/// two.
pub fn join_prompt(parts: &Vec<String>) -> (prompt: String)
    ensures
        prompt@ == spaced(parts.deep_view()),
{
    let ghost all = parts.deep_view();
    let mut prompt = String::new();
    let mut i: usize = 0;
    assert(all.take(0) =~= Seq::<Seq<char>>::empty());
    while i < parts.len()
        invariant
            i <= parts@.len(),
            all == parts.deep_view(),
            prompt@ == spaced(all.take(i as int)),
        decreases parts@.len() - i,
    {
        proof {
            assert(all.take(i + 1).drop_last() =~= all.take(i as int));
            assert(all.take(i + 1).last() == parts@[i as int]@);
            reveal_strlit(" ");
            assert(" "@ =~= seq![' ']);
        }
        if i > 0 {
            prompt.append(" ");
        } else {
            assert(Seq::<char>::empty() + parts@[0]@ =~= parts@[0]@);
        }
        prompt.append(parts[i].as_str());
        i += 1;
    }
    assert(all.take(parts@.len() as int) =~= all);
    prompt
}

/// The answer to a text completion, from the prompt that was sent and the
/// text that came back.
pub fn assemble_completion(
    id: String,
    created: u64,
    model: Option<String>,
    prompt: &str,
    text: String,
) -> (result: CompletionResult)
    ensures
        is_completion(result, id@, created, model_name(model), prompt@, text@),
{
    let usage = usage_of(prompt, text.as_str());
    let mut choices: Vec<CompletionChoice> = Vec::new();
    choices.push(CompletionChoice { index: 0, text, finish_reason: FinishReason::Stop });
    CompletionResult {
        id,
        object: "text_completion".to_owned(),
        created,
        model: match model {
            Some(name) => name,
            None => String::new(),
        },
        choices,
        usage,
    }
}

/// The answer to a chat completion, from the prompt that was sent and the
/// text of the assistant's reply.
pub fn assemble_chat_completion(
    id: String,
    created: u64,
    model: Option<String>,
    prompt: &str,
    text: String,
) -> (result: ChatCompletionResult)
    ensures
        is_chat_completion(result, id@, created, model_name(model), prompt@, text@),
{
    let usage = usage_of(prompt, text.as_str());
    let mut choices: Vec<ChatChoice> = Vec::new();
    choices.push(
        ChatChoice {
            index: 0,
            message: ChatMessage { role: ChatRole::Assistant, content: text, name: None },
            finish_reason: FinishReason::Stop,
        },
    );
    ChatCompletionResult {
        id,
        object: "chat.completion".to_owned(),
        created,
        model: match model {
            Some(name) => name,
            None => String::new(),
        },
        choices,
        usage,
    }
}

/// The answer to a request for the list of models: the one model `name`,
/// known as `name`, a colon and the name of its dialect.
pub fn list_models(name: &str, kind: TemplateKind, created: u64) -> (list: ModelList)
    ensures
        is_model_list(list, name@, kind, created),
{
    let mut id = name.to_owned();
    id.append(":");
    id.append(kind.name());
    let mut data: Vec<ModelEntry> = Vec::new();
    data.push(
        ModelEntry {
            id,
            created,
            object: "model".to_owned(),
            owned_by: "Not specified".to_owned(),
        },
    );
    ModelList { object: "list".to_owned(), data }
}

/// A new random identifier in the hyphenated form: `Uuid::new_v4` of the
/// `uuid` crate, then its `to_string`. The contract claims the length of
/// that form and nothing of the digits, which are drawn at random. The call
/// panics only where the system has no random bytes to give.
#[verifier::external_body]
fn fresh_id() -> (id: String)
    ensures
        id@.len() == 36,
{
    uuid::Uuid::new_v4().to_string()
}

/// Answers a text completion under a fresh identifier.
pub fn complete(created: u64, model: Option<String>, prompt: &str, text: String) -> (result:
    CompletionResult)
    ensures
        result.id@.len() == 36,
        is_completion(result, result.id@, created, model_name(model), prompt@, text@),
{
    assemble_completion(fresh_id(), created, model, prompt, text)
}

/// Answers a chat completion under a fresh identifier.
pub fn complete_chat(created: u64, model: Option<String>, prompt: &str, text: String) -> (result:
    ChatCompletionResult)
    ensures
        result.id@.len() == 36,
        is_chat_completion(result, result.id@, created, model_name(model), prompt@, text@),
{
    assemble_chat_completion(fresh_id(), created, model, prompt, text)
}

} // verus!
