//! The template registry: which formatting strategy renders each dialect.
use vstd::prelude::*;
use crate::template::TemplateKind;

verus! {

/// A prompt-formatting strategy. Each one lays out the system message, the
/// user and assistant turns and the closing cue in its own way.
#[derive(Clone, Copy, Debug, PartialEq, Eq, Structural, Hash)]
pub enum PromptStrategy {
    Llama2Chat,
    CodeLlamaInstruct,
    MistralInstruct,
    MistralLite,
    OpenChat,
    HumanAssistant,
    VicunaChat,
    Vicuna11Chat,
    ChatML,
    Baichuan2Chat,
    WizardCoder,
    ZephyrChat,
    NeuralChat,
    DeepseekChat,
    DeepseekCoder,
}

/// The strategy of each dialect. Both Mistral instruct dialects share one
/// strategy; every other dialect has its own.
pub open spec fn strategy_of(kind: TemplateKind) -> PromptStrategy {
    match kind {
        TemplateKind::Llama2Chat => PromptStrategy::Llama2Chat,
        TemplateKind::CodeLlama => PromptStrategy::CodeLlamaInstruct,
        TemplateKind::MistralInstructV01 => PromptStrategy::MistralInstruct,
        TemplateKind::MistralInstruct => PromptStrategy::MistralInstruct,
        TemplateKind::MistralLite => PromptStrategy::MistralLite,
        TemplateKind::OpenChat => PromptStrategy::OpenChat,
        TemplateKind::BelleLlama2Chat => PromptStrategy::HumanAssistant,
        TemplateKind::VicunaChat => PromptStrategy::VicunaChat,
        TemplateKind::Vicuna11Chat => PromptStrategy::Vicuna11Chat,
        TemplateKind::ChatML => PromptStrategy::ChatML,
        TemplateKind::Baichuan2 => PromptStrategy::Baichuan2Chat,
        TemplateKind::WizardCoder => PromptStrategy::WizardCoder,
        TemplateKind::Zephyr => PromptStrategy::ZephyrChat,
        TemplateKind::IntelNeural => PromptStrategy::NeuralChat,
        TemplateKind::DeepseekChat => PromptStrategy::DeepseekChat,
        TemplateKind::DeepseekCoder => PromptStrategy::DeepseekCoder,
    }
}

/// The strategy that renders prompts of the dialect `kind`. The lookup is
/// total: there is no dialect without a strategy.
pub fn resolve(kind: TemplateKind) -> (strategy: PromptStrategy)
    ensures
        strategy == strategy_of(kind),
{
    match kind {
        TemplateKind::Llama2Chat => PromptStrategy::Llama2Chat,
        TemplateKind::CodeLlama => PromptStrategy::CodeLlamaInstruct,
        TemplateKind::MistralInstructV01 | TemplateKind::MistralInstruct => {
            PromptStrategy::MistralInstruct
        },
        TemplateKind::MistralLite => PromptStrategy::MistralLite,
        TemplateKind::OpenChat => PromptStrategy::OpenChat,
        TemplateKind::BelleLlama2Chat => PromptStrategy::HumanAssistant,
        TemplateKind::VicunaChat => PromptStrategy::VicunaChat,
        TemplateKind::Vicuna11Chat => PromptStrategy::Vicuna11Chat,
        TemplateKind::ChatML => PromptStrategy::ChatML,
        TemplateKind::Baichuan2 => PromptStrategy::Baichuan2Chat,
        TemplateKind::WizardCoder => PromptStrategy::WizardCoder,
        TemplateKind::Zephyr => PromptStrategy::ZephyrChat,
        TemplateKind::IntelNeural => PromptStrategy::NeuralChat,
        TemplateKind::DeepseekChat => PromptStrategy::DeepseekChat,
        TemplateKind::DeepseekCoder => PromptStrategy::DeepseekCoder,
    }
}

/// Every strategy serves at least one dialect: the registry holds no
/// strategy that nothing can select.
pub proof fn lemma_every_strategy_is_used(strategy: PromptStrategy)
    ensures
        exists|kind: TemplateKind| strategy_of(kind) == strategy,
{
    let kind = match strategy {
        PromptStrategy::Llama2Chat => TemplateKind::Llama2Chat,
        PromptStrategy::CodeLlamaInstruct => TemplateKind::CodeLlama,
        PromptStrategy::MistralInstruct => TemplateKind::MistralInstruct,
        PromptStrategy::MistralLite => TemplateKind::MistralLite,
        PromptStrategy::OpenChat => TemplateKind::OpenChat,
        PromptStrategy::HumanAssistant => TemplateKind::BelleLlama2Chat,
        PromptStrategy::VicunaChat => TemplateKind::VicunaChat,
        PromptStrategy::Vicuna11Chat => TemplateKind::Vicuna11Chat,
        PromptStrategy::ChatML => TemplateKind::ChatML,
        PromptStrategy::Baichuan2Chat => TemplateKind::Baichuan2,
        PromptStrategy::WizardCoder => TemplateKind::WizardCoder,
        PromptStrategy::ZephyrChat => TemplateKind::Zephyr,
        PromptStrategy::NeuralChat => TemplateKind::IntelNeural,
        PromptStrategy::DeepseekChat => TemplateKind::DeepseekChat,
        PromptStrategy::DeepseekCoder => TemplateKind::DeepseekCoder,
    };
    assert(strategy_of(kind) == strategy);
}

} // verus!
