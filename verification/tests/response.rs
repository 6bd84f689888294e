use llama_chat::message::ChatRole;
use llama_chat::response::{
    assemble_chat_completion, assemble_completion, complete, complete_chat, join_prompt,
    list_models, usage_of, FinishReason, Usage,
};
use llama_chat::template::TemplateKind;

#[test]
fn usage_counts_words() {
    let usage = usage_of("a b c", "d e");
    assert_eq!(usage.prompt_tokens, 3);
    assert_eq!(usage.completion_tokens, 2);
    assert_eq!(usage.total_tokens, 5);
}

#[test]
fn usage_of_nothing_is_zero() {
    assert_eq!(
        usage_of("", " \n"),
        Usage { prompt_tokens: 0, completion_tokens: 0, total_tokens: 0 }
    );
}

#[test]
fn usage_counts_words_not_model_tokens() {
    let usage = usage_of("<|im_start|>user\nunbelievable<|im_end|>", "antidisestablishmentarianism");
    assert_eq!(usage, Usage { prompt_tokens: 2, completion_tokens: 1, total_tokens: 3 });
}

#[test]
fn join_prompt_puts_one_space_between_parts() {
    assert_eq!(join_prompt(&vec![]), "");
    assert_eq!(join_prompt(&vec!["a".to_string()]), "a");
    assert_eq!(join_prompt(&vec!["a".to_string(), "b c".to_string(), "".to_string()]), "a b c ");
    let parts = vec!["x".to_string(), " y".to_string()];
    assert_eq!(join_prompt(&parts), parts.join(" "));
}

#[test]
fn a_completion_holds_one_choice_that_stopped() {
    let result = assemble_completion(
        "id-1".to_string(),
        1700000000,
        Some("llama-2-7b".to_string()),
        "a b c",
        "d e".to_string(),
    );
    assert_eq!(result.id, "id-1");
    assert_eq!(result.object, "text_completion");
    assert_eq!(result.created, 1700000000);
    assert_eq!(result.model, "llama-2-7b");
    assert_eq!(result.choices.len(), 1);
    assert_eq!(result.choices[0].index, 0);
    assert_eq!(result.choices[0].text, "d e");
    assert_eq!(result.choices[0].finish_reason, FinishReason::Stop);
    assert_eq!(result.usage, Usage { prompt_tokens: 3, completion_tokens: 2, total_tokens: 5 });
}

#[test]
fn a_completion_without_a_model_has_an_empty_model_name() {
    let result = assemble_completion("x".to_string(), 0, None, "", String::new());
    assert_eq!(result.model, "");
    assert_eq!(result.usage.total_tokens, 0);
}

#[test]
fn a_chat_completion_holds_the_assistant_message() {
    let result = assemble_chat_completion(
        "id-2".to_string(),
        7,
        Some("m".to_string()),
        "one two",
        "three".to_string(),
    );
    assert_eq!(result.id, "id-2");
    assert_eq!(result.object, "chat.completion");
    assert_eq!(result.created, 7);
    assert_eq!(result.model, "m");
    assert_eq!(result.choices.len(), 1);
    assert_eq!(result.choices[0].index, 0);
    assert_eq!(result.choices[0].message.role, ChatRole::Assistant);
    assert_eq!(result.choices[0].message.content, "three");
    assert_eq!(result.choices[0].message.name, None);
    assert_eq!(result.choices[0].finish_reason, FinishReason::Stop);
    assert_eq!(result.usage, Usage { prompt_tokens: 2, completion_tokens: 1, total_tokens: 3 });
}

#[test]
fn the_model_list_names_the_model_and_its_dialect() {
    let list = list_models("default", TemplateKind::Llama2Chat, 42);
    assert_eq!(list.object, "list");
    assert_eq!(list.data.len(), 1);
    assert_eq!(list.data[0].id, "default:llama-2-chat");
    assert_eq!(list.data[0].created, 42);
    assert_eq!(list.data[0].object, "model");
    assert_eq!(list.data[0].owned_by, "Not specified");
    assert_eq!(list_models("", TemplateKind::ChatML, 0).data[0].id, ":chatml");
}

#[test]
fn complete_answers_under_a_fresh_identifier() {
    let result = complete(5, Some("m".to_string()), "Once upon a time", "there was a king.".to_string());
    assert_eq!(result.id.chars().count(), 36);
    assert_eq!(result.object, "text_completion");
    assert_eq!(result.created, 5);
    assert_eq!(result.model, "m");
    assert_eq!(result.choices.len(), 1);
    assert_eq!(result.choices[0].text, "there was a king.");
    assert_eq!(result.choices[0].finish_reason, FinishReason::Stop);
    assert_eq!(result.usage, Usage { prompt_tokens: 4, completion_tokens: 4, total_tokens: 8 });
}

#[test]
fn complete_chat_answers_under_a_fresh_identifier() {
    let result = complete_chat(
        5,
        None,
        "<|im_start|>user\nhi<|im_end|>\n<|im_start|>assistant",
        "Hello there!".to_string(),
    );
    assert_eq!(result.id.chars().count(), 36);
    assert_eq!(result.object, "chat.completion");
    assert_eq!(result.model, "");
    assert_eq!(result.choices[0].message.role, ChatRole::Assistant);
    assert_eq!(result.choices[0].message.content, "Hello there!");
    assert_eq!(result.usage, Usage { prompt_tokens: 3, completion_tokens: 2, total_tokens: 5 });
}

#[test]
fn every_response_gets_an_identifier_of_its_own() {
    let a = complete(0, None, "", String::new());
    let b = complete(0, None, "", String::new());
    let c = complete_chat(0, None, "", String::new());
    for id in [&a.id, &b.id, &c.id] {
        assert_eq!(id.chars().count(), 36);
        let dashes: Vec<usize> = id.char_indices().filter(|(_, ch)| *ch == '-').map(|(i, _)| i).collect();
        assert_eq!(dashes, vec![8, 13, 18, 23]);
        assert!(id.chars().all(|ch| ch == '-' || ch.is_ascii_hexdigit()));
    }
    assert_ne!(a.id, b.id);
    assert_ne!(a.id, c.id);
}

#[test]
fn usage_ignores_the_whitespace_around_a_text() {
    assert_eq!(usage_of("  a b c \n", "\td e  "), usage_of("a b c", "d e"));
    assert_eq!(usage_of(" ", "x"), usage_of("", "x"));
}
