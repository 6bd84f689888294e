use llama_chat::postprocess::strip;
use llama_chat::template::TemplateKind;

#[test]
fn a_dialect_without_a_marker_is_only_trimmed() {
    for kind in [
        TemplateKind::Llama2Chat,
        TemplateKind::CodeLlama,
        TemplateKind::MistralInstructV01,
        TemplateKind::MistralInstruct,
        TemplateKind::VicunaChat,
        TemplateKind::Vicuna11Chat,
        TemplateKind::WizardCoder,
        TemplateKind::IntelNeural,
        TemplateKind::DeepseekCoder,
    ] {
        assert_eq!(strip("  Paris. \n", kind), "Paris.");
        assert_eq!(strip("Paris.</s>", kind), "Paris.</s>");
        assert_eq!(strip("a<|im_end|>", kind), "a<|im_end|>");
        assert_eq!(strip("", kind), "");
    }
}

#[test]
fn baichuan2_loses_the_trailing_user_marker() {
    assert_eq!(strip(" 你好 用户:", TemplateKind::Baichuan2), "你好");
    assert_eq!(strip("你好用户:用户:", TemplateKind::Baichuan2), "你好");
    assert_eq!(strip("用户: 你好", TemplateKind::Baichuan2), "用户: 你好");
    assert_eq!(strip(" 你好 ", TemplateKind::Baichuan2), "你好");
}

#[test]
fn openchat_loses_the_trailing_end_of_turn() {
    assert_eq!(strip("Paris.<|end_of_turn|>", TemplateKind::OpenChat), "Paris.");
    assert_eq!(strip(" Paris. <|end_of_turn|><|end_of_turn|>", TemplateKind::OpenChat), "Paris.");
    assert_eq!(strip("a<|end_of_turn|>b", TemplateKind::OpenChat), "a<|end_of_turn|>b");
}

#[test]
fn deepseek_chat_loses_the_trailing_end_of_sentence() {
    assert_eq!(strip("Paris.<|end_of_sentence|>", TemplateKind::DeepseekChat), "Paris.");
    assert_eq!(strip("Paris.", TemplateKind::DeepseekChat), "Paris.");
    assert_eq!(strip("Paris.<|end_of_sentence|>", TemplateKind::DeepseekCoder), "Paris.<|end_of_sentence|>");
}

#[test]
fn belle_loses_the_trailing_human_cue() {
    assert_eq!(strip("Paris.\n\nHuman:", TemplateKind::BelleLlama2Chat), "Paris.");
    assert_eq!(strip("Human: hi", TemplateKind::BelleLlama2Chat), "Human: hi");
}

#[test]
fn zephyr_and_mistrallite_lose_the_trailing_end_of_string() {
    for kind in [TemplateKind::Zephyr, TemplateKind::MistralLite] {
        assert_eq!(strip("Paris.</s>", kind), "Paris.");
        assert_eq!(strip(" Paris. </s>", kind), "Paris.");
        assert_eq!(strip("</s>", kind), "");
        assert_eq!(strip("Paris.</s><", kind), "Paris.");
        assert_eq!(strip("Paris.</s><</s><", kind), "Paris.");
        assert_eq!(strip("Paris.", kind), "Paris.");
    }
}

#[test]
fn zephyr_looks_for_the_longer_marker_first() {
    assert_eq!(strip("Paris.</s></s>", TemplateKind::Zephyr), "Paris.</s></s>");
    assert_eq!(strip("Paris.</s></s><", TemplateKind::Zephyr), "Paris.</s>");
    assert_eq!(strip("a</s><b</s>", TemplateKind::MistralLite), "a</s><b</s>");
}

#[test]
fn zephyr_keeps_a_marker_that_is_not_at_the_end() {
    assert_eq!(strip("a</s>b", TemplateKind::Zephyr), "a</s>b");
    assert_eq!(strip("a</s><b", TemplateKind::Zephyr), "a</s><b");
}

#[test]
fn chatml_is_cut_at_the_first_marker() {
    assert_eq!(strip("Paris.<|im_end|>", TemplateKind::ChatML), "Paris.");
    assert_eq!(strip(" Paris. <|im_end|>\n<|im_start|>user\nAnd Spain?<|im_end|>", TemplateKind::ChatML), "Paris.");
    assert_eq!(strip("Paris.<|im_start|>user<|im_end|>", TemplateKind::ChatML), "Paris.");
    assert_eq!(strip("Paris.<|im_start|>user", TemplateKind::ChatML), "Paris.");
    assert_eq!(strip("<|im_end|>Paris.", TemplateKind::ChatML), "");
    assert_eq!(strip(" Paris. ", TemplateKind::ChatML), "Paris.");
}

#[test]
fn stripping_twice_is_stripping_once_where_no_marker_is_left() {
    let outputs = [
        "", " ", "Paris.", " Paris. ", "Paris.</s>", "Paris.</s><", "Paris.<|im_end|>",
        "Paris.<|end_of_turn|>", "Paris.<|end_of_sentence|>", "Paris. Human:", "你好用户:",
        "a<|im_start|>b<|im_end|>c", "a</s>b", "Human: hi Human:",
    ];
    for kind in TemplateKind::all() {
        for output in outputs {
            let once = strip(output, kind);
            let twice = strip(&once, kind);
            assert_eq!(twice, once, "{:?} {:?}", kind, output);
        }
    }
}

#[test]
fn whitespace_after_a_marker_shields_it_from_the_first_pass() {
    let once = strip("x 用户:  ", TemplateKind::Baichuan2);
    assert_eq!(once, "x 用户:");
    assert_eq!(strip(&once, TemplateKind::Baichuan2), "x");
    let once = strip("Paris.</s> ", TemplateKind::Zephyr);
    assert_eq!(once, "Paris.</s>");
    assert_eq!(strip(&once, TemplateKind::Zephyr), "Paris.");
}

#[test]
fn chatml_stripping_is_idempotent_even_around_whitespace() {
    for output in ["a <|im_end|> ", " <|im_start|> a", "a\n<|im_end|>\n<|im_end|>"] {
        let once = strip(output, TemplateKind::ChatML);
        assert_eq!(strip(&once, TemplateKind::ChatML), once);
    }
}
