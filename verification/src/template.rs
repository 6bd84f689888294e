//! The closed set of prompt dialects and the names they go by.
use vstd::prelude::*;
use crate::text::same_text;

verus! {

/// A prompt dialect: the convention of delimiters and role markers that one
/// family of models expects.
#[derive(Clone, Copy, Debug, PartialEq, Eq, Structural, Hash)]
pub enum TemplateKind {
    Llama2Chat,
    CodeLlama,
    MistralInstructV01,
    MistralInstruct,
    MistralLite,
    OpenChat,
    BelleLlama2Chat,
    VicunaChat,
    Vicuna11Chat,
    ChatML,
    Baichuan2,
    WizardCoder,
    Zephyr,
    IntelNeural,
    DeepseekChat,
    DeepseekCoder,
}

/// The name of a dialect.
pub open spec fn name_of(kind: TemplateKind) -> Seq<char> {
    match kind {
        TemplateKind::Llama2Chat => "llama-2-chat"@,
        TemplateKind::CodeLlama => "codellama-instruct"@,
        TemplateKind::MistralInstructV01 => "mistral-instruct-v0.1"@,
        TemplateKind::MistralInstruct => "mistral-instruct"@,
        TemplateKind::MistralLite => "mistrallite"@,
        TemplateKind::OpenChat => "openchat"@,
        TemplateKind::BelleLlama2Chat => "belle-llama-2-chat"@,
        TemplateKind::VicunaChat => "vicuna-chat"@,
        TemplateKind::Vicuna11Chat => "vicuna-1.1-chat"@,
        TemplateKind::ChatML => "chatml"@,
        TemplateKind::Baichuan2 => "baichuan-2"@,
        TemplateKind::WizardCoder => "wizard-coder"@,
        TemplateKind::Zephyr => "zephyr"@,
        TemplateKind::IntelNeural => "intel-neural"@,
        TemplateKind::DeepseekChat => "deepseek-chat"@,
        TemplateKind::DeepseekCoder => "deepseek-coder"@,
    }
}

/// The dialect that goes by `name`, if there is one.
pub open spec fn kind_named(name: Seq<char>) -> Option<TemplateKind> {
    if exists|kind: TemplateKind| name_of(kind) == name {
        Some(choose|kind: TemplateKind| name_of(kind) == name)
    } else {
        None
    }
}

/// The length and the first character of each name; no two names agree on
/// both.
proof fn lemma_name_marks(kind: TemplateKind)
    ensures
        name_of(kind).len() == match kind {
            TemplateKind::Llama2Chat => 12int,
            TemplateKind::CodeLlama => 18,
            TemplateKind::MistralInstructV01 => 21,
            TemplateKind::MistralInstruct => 16,
            TemplateKind::MistralLite => 11,
            TemplateKind::OpenChat => 8,
            TemplateKind::BelleLlama2Chat => 18,
            TemplateKind::VicunaChat => 11,
            TemplateKind::Vicuna11Chat => 15,
            TemplateKind::ChatML => 6,
            TemplateKind::Baichuan2 => 10,
            TemplateKind::WizardCoder => 12,
            TemplateKind::Zephyr => 6,
            TemplateKind::IntelNeural => 12,
            TemplateKind::DeepseekChat => 13,
            TemplateKind::DeepseekCoder => 14,
        },
        name_of(kind)[0] == match kind {
            TemplateKind::Llama2Chat => 'l',
            TemplateKind::CodeLlama => 'c',
            TemplateKind::MistralInstructV01 => 'm',
            TemplateKind::MistralInstruct => 'm',
            TemplateKind::MistralLite => 'm',
            TemplateKind::OpenChat => 'o',
            TemplateKind::BelleLlama2Chat => 'b',
            TemplateKind::VicunaChat => 'v',
            TemplateKind::Vicuna11Chat => 'v',
            TemplateKind::ChatML => 'c',
            TemplateKind::Baichuan2 => 'b',
            TemplateKind::WizardCoder => 'w',
            TemplateKind::Zephyr => 'z',
            TemplateKind::IntelNeural => 'i',
            TemplateKind::DeepseekChat => 'd',
            TemplateKind::DeepseekCoder => 'd',
        },
{
    reveal_strlit("llama-2-chat");
    reveal_strlit("codellama-instruct");
    reveal_strlit("mistral-instruct-v0.1");
    reveal_strlit("mistral-instruct");
    reveal_strlit("mistrallite");
    reveal_strlit("openchat");
    reveal_strlit("belle-llama-2-chat");
    reveal_strlit("vicuna-chat");
    reveal_strlit("vicuna-1.1-chat");
    reveal_strlit("chatml");
    reveal_strlit("baichuan-2");
    reveal_strlit("wizard-coder");
    reveal_strlit("zephyr");
    reveal_strlit("intel-neural");
    reveal_strlit("deepseek-chat");
    reveal_strlit("deepseek-coder");
}

/// No two dialects share a name.
pub proof fn lemma_names_distinct(a: TemplateKind, b: TemplateKind)
    ensures
        name_of(a) == name_of(b) ==> a == b,
{
    lemma_name_marks(a);
    lemma_name_marks(b);
}

/// Looking a dialect up by its own name finds that dialect.
pub proof fn lemma_name_round_trip(kind: TemplateKind)
    ensures
        kind_named(name_of(kind)) == Some(kind),
{
    let found = choose|k: TemplateKind| name_of(k) == name_of(kind);
    lemma_names_distinct(found, kind);
}

/// A name that a lookup accepts is the name of the dialect it returns.
pub proof fn lemma_kind_named_is_sound(name: Seq<char>)
    ensures
        kind_named(name) matches Some(kind) ==> name_of(kind) == name,
{
}

impl TemplateKind {
    /// The name of this dialect.
    pub fn name(&self) -> (s: &'static str)
        ensures
            s@ == name_of(*self),
    {
        match self {
            TemplateKind::Llama2Chat => "llama-2-chat",
            TemplateKind::CodeLlama => "codellama-instruct",
            TemplateKind::MistralInstructV01 => "mistral-instruct-v0.1",
            TemplateKind::MistralInstruct => "mistral-instruct",
            TemplateKind::MistralLite => "mistrallite",
            TemplateKind::OpenChat => "openchat",
            TemplateKind::BelleLlama2Chat => "belle-llama-2-chat",
            TemplateKind::VicunaChat => "vicuna-chat",
            TemplateKind::Vicuna11Chat => "vicuna-1.1-chat",
            TemplateKind::ChatML => "chatml",
            TemplateKind::Baichuan2 => "baichuan-2",
            TemplateKind::WizardCoder => "wizard-coder",
            TemplateKind::Zephyr => "zephyr",
            TemplateKind::IntelNeural => "intel-neural",
            TemplateKind::DeepseekChat => "deepseek-chat",
            TemplateKind::DeepseekCoder => "deepseek-coder",
        }
    }

    /// Every dialect, each once.
    pub fn all() -> (kinds: Vec<TemplateKind>)
        ensures
            kinds@.len() == 16,
            kinds@.no_duplicates(),
            forall|kind: TemplateKind| kinds@.contains(kind),
    {
        let kinds = vec![
            TemplateKind::Llama2Chat,
            TemplateKind::CodeLlama,
            TemplateKind::MistralInstructV01,
            TemplateKind::MistralInstruct,
            TemplateKind::MistralLite,
            TemplateKind::OpenChat,
            TemplateKind::BelleLlama2Chat,
            TemplateKind::VicunaChat,
            TemplateKind::Vicuna11Chat,
            TemplateKind::ChatML,
            TemplateKind::Baichuan2,
            TemplateKind::WizardCoder,
            TemplateKind::Zephyr,
            TemplateKind::IntelNeural,
            TemplateKind::DeepseekChat,
            TemplateKind::DeepseekCoder,
        ];
        proof {
            assert forall|kind: TemplateKind| kinds@.contains(kind) by {
                let i: int = match kind {
                    TemplateKind::Llama2Chat => 0,
                    TemplateKind::CodeLlama => 1,
                    TemplateKind::MistralInstructV01 => 2,
                    TemplateKind::MistralInstruct => 3,
                    TemplateKind::MistralLite => 4,
                    TemplateKind::OpenChat => 5,
                    TemplateKind::BelleLlama2Chat => 6,
                    TemplateKind::VicunaChat => 7,
                    TemplateKind::Vicuna11Chat => 8,
                    TemplateKind::ChatML => 9,
                    TemplateKind::Baichuan2 => 10,
                    TemplateKind::WizardCoder => 11,
                    TemplateKind::Zephyr => 12,
                    TemplateKind::IntelNeural => 13,
                    TemplateKind::DeepseekChat => 14,
                    TemplateKind::DeepseekCoder => 15,
                };
                assert(kinds@[i] == kind);
            }
        }
        kinds
    }

    /// The dialect that goes by `name`; `None` where no dialect does.
    pub fn from_name(name: &str) -> (found: Option<TemplateKind>)
        ensures
            found == kind_named(name@),
    {
        let kinds = TemplateKind::all();
        let mut i: usize = 0;
        while i < kinds.len()
            invariant
                i <= kinds@.len(),
                forall|kind: TemplateKind| kinds@.contains(kind),
                forall|j: int| 0 <= j < i ==> name_of(#[trigger] kinds@[j]) != name@,
            decreases kinds@.len() - i,
        {
            let kind = kinds[i];
            if same_text(kind.name(), name) {
                proof {
                    lemma_name_round_trip(kind);
                }
                return Some(kind);
            }
            i += 1;
        }
        proof {
            assert forall|kind: TemplateKind| name_of(kind) != name@ by {
                assert(kinds@.contains(kind));
                let j = choose|j: int| 0 <= j < kinds@.len() && kinds@[j] == kind;
                assert(name_of(kinds@[j]) != name@);
            }
        }
        None
    }
}

} // verus!
