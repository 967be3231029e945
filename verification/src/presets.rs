//! The built-in model presets and who gets to see them.

use vstd::prelude::*;
use vstd::string::StringExecFns;

verus! {

/// How the user is signed in.
#[derive(Clone, Copy, Debug, PartialEq, Eq, Structural)]
pub enum AuthMode {
    ApiKey,
    ChatGPT,
}

/// A model's reasoning effort level.
#[derive(Clone, Copy, Debug, PartialEq, Eq, Structural)]
pub enum ReasoningEffort {
    Minimal,
    Low,
    Medium,
    High,
}

/// A reasoning effort option that can be surfaced for a model.
pub struct ReasoningEffortPreset {
    /// Effort level that the model supports.
    pub effort: ReasoningEffort,
    /// Short human description shown next to the effort in UIs.
    pub description: String,
}

/// Metadata describing a supported model.
pub struct ModelPreset {
    /// Stable identifier for the preset.
    pub id: String,
    /// Model slug.
    pub model: String,
    /// Display name shown in UIs.
    pub display_name: String,
    /// Short human description shown in UIs.
    pub description: String,
    /// Reasoning effort applied when none is explicitly chosen.
    pub default_reasoning_effort: ReasoningEffort,
    /// Supported reasoning effort options.
    pub supported_reasoning_efforts: Vec<ReasoningEffortPreset>,
    /// Whether this is the default model for new users.
    pub is_default: bool,
}

pub open spec fn is_effort_option(
    p: ReasoningEffortPreset,
    effort: ReasoningEffort,
    description: Seq<char>,
) -> bool {
    p.effort == effort && p.description@ == description
}

pub open spec fn is_llmx_preset(p: ModelPreset) -> bool {
    &&& p.id@ == "gpt-5-llmx"@
    &&& p.model@ == "gpt-5-llmx"@
    &&& p.display_name@ == "gpt-5-llmx"@
    &&& p.description@ == "Optimized for llmx."@
    &&& p.default_reasoning_effort == ReasoningEffort::Medium
    &&& p.supported_reasoning_efforts@.len() == 3
    &&& is_effort_option(
        p.supported_reasoning_efforts@[0],
        ReasoningEffort::Low,
        "Fastest responses with limited reasoning"@,
    )
    &&& is_effort_option(
        p.supported_reasoning_efforts@[1],
        ReasoningEffort::Medium,
        "Dynamically adjusts reasoning based on the task"@,
    )
    &&& is_effort_option(
        p.supported_reasoning_efforts@[2],
        ReasoningEffort::High,
        "Maximizes reasoning depth for complex or ambiguous problems"@,
    )
    &&& p.is_default
}

pub open spec fn is_llmx_mini_preset(p: ModelPreset) -> bool {
    &&& p.id@ == "gpt-5-llmx-mini"@
    &&& p.model@ == "gpt-5-llmx-mini"@
    &&& p.display_name@ == "gpt-5-llmx-mini"@
    &&& p.description@ == "Optimized for llmx. Cheaper, faster, but less capable."@
    &&& p.default_reasoning_effort == ReasoningEffort::Medium
    &&& p.supported_reasoning_efforts@.len() == 2
    &&& is_effort_option(
        p.supported_reasoning_efforts@[0],
        ReasoningEffort::Medium,
        "Dynamically adjusts reasoning based on the task"@,
    )
    &&& is_effort_option(
        p.supported_reasoning_efforts@[1],
        ReasoningEffort::High,
        "Maximizes reasoning depth for complex or ambiguous problems"@,
    )
    &&& !p.is_default
}

pub open spec fn is_gpt5_preset(p: ModelPreset) -> bool {
    &&& p.id@ == "gpt-5"@
    &&& p.model@ == "gpt-5"@
    &&& p.display_name@ == "gpt-5"@
    &&& p.description@ == "Broad world knowledge with strong general reasoning."@
    &&& p.default_reasoning_effort == ReasoningEffort::Medium
    &&& p.supported_reasoning_efforts@.len() == 4
    &&& is_effort_option(
        p.supported_reasoning_efforts@[0],
        ReasoningEffort::Minimal,
        "Fastest responses with little reasoning"@,
    )
    &&& is_effort_option(
        p.supported_reasoning_efforts@[1],
        ReasoningEffort::Low,
        "Balances speed with some reasoning; useful for straightforward queries and short explanations"@,
    )
    &&& is_effort_option(
        p.supported_reasoning_efforts@[2],
        ReasoningEffort::Medium,
        "Provides a solid balance of reasoning depth and latency for general-purpose tasks"@,
    )
    &&& is_effort_option(
        p.supported_reasoning_efforts@[3],
        ReasoningEffort::High,
        "Maximizes reasoning depth for complex or ambiguous problems"@,
    )
    &&& !p.is_default
}

fn effort_option(effort: ReasoningEffort, description: &str) -> (p: ReasoningEffortPreset)
    ensures
        is_effort_option(p, effort, description@),
{
    ReasoningEffortPreset { effort, description: String::from_str(description) }
}

fn llmx_preset() -> (p: ModelPreset)
    ensures
        is_llmx_preset(p),
{
    let mut efforts: Vec<ReasoningEffortPreset> = Vec::new();
    efforts.push(
        effort_option(ReasoningEffort::Low, "Fastest responses with limited reasoning"),
    );
    efforts.push(
        effort_option(ReasoningEffort::Medium, "Dynamically adjusts reasoning based on the task"),
    );
    efforts.push(
        effort_option(
            ReasoningEffort::High,
            "Maximizes reasoning depth for complex or ambiguous problems",
        ),
    );
    ModelPreset {
        id: String::from_str("gpt-5-llmx"),
        model: String::from_str("gpt-5-llmx"),
        display_name: String::from_str("gpt-5-llmx"),
        description: String::from_str("Optimized for llmx."),
        default_reasoning_effort: ReasoningEffort::Medium,
        supported_reasoning_efforts: efforts,
        is_default: true,
    }
}

fn llmx_mini_preset() -> (p: ModelPreset)
    ensures
        is_llmx_mini_preset(p),
{
    let mut efforts: Vec<ReasoningEffortPreset> = Vec::new();
    efforts.push(
        effort_option(ReasoningEffort::Medium, "Dynamically adjusts reasoning based on the task"),
    );
    efforts.push(
        effort_option(
            ReasoningEffort::High,
            "Maximizes reasoning depth for complex or ambiguous problems",
        ),
    );
    ModelPreset {
        id: String::from_str("gpt-5-llmx-mini"),
        model: String::from_str("gpt-5-llmx-mini"),
        display_name: String::from_str("gpt-5-llmx-mini"),
        description: String::from_str("Optimized for llmx. Cheaper, faster, but less capable."),
        default_reasoning_effort: ReasoningEffort::Medium,
        supported_reasoning_efforts: efforts,
        is_default: false,
    }
}

fn gpt5_preset() -> (p: ModelPreset)
    ensures
        is_gpt5_preset(p),
{
    let mut efforts: Vec<ReasoningEffortPreset> = Vec::new();
    efforts.push(
        effort_option(ReasoningEffort::Minimal, "Fastest responses with little reasoning"),
    );
    efforts.push(
        effort_option(
            ReasoningEffort::Low,
            "Balances speed with some reasoning; useful for straightforward queries and short explanations",
        ),
    );
    efforts.push(
        effort_option(
            ReasoningEffort::Medium,
            "Provides a solid balance of reasoning depth and latency for general-purpose tasks",
        ),
    );
    efforts.push(
        effort_option(
            ReasoningEffort::High,
            "Maximizes reasoning depth for complex or ambiguous problems",
        ),
    );
    ModelPreset {
        id: String::from_str("gpt-5"),
        model: String::from_str("gpt-5"),
        display_name: String::from_str("gpt-5"),
        description: String::from_str("Broad world knowledge with strong general reasoning."),
        default_reasoning_effort: ReasoningEffort::Medium,
        supported_reasoning_efforts: efforts,
        is_default: false,
    }
}

/// The presets surfaced for a signed-in user: everyone sees the default
/// model first and the general model last; the mini model is offered to
/// ChatGPT accounts only. Exactly one preset — the first — is the default.
pub fn builtin_model_presets(auth_mode: Option<AuthMode>) -> (r: Vec<ModelPreset>)
    ensures
        ({
            let allow_mini = auth_mode matches Some(AuthMode::ChatGPT);
            &&& r@.len() == if allow_mini {
                3int
            } else {
                2int
            }
            &&& is_llmx_preset(r@[0])
            &&& allow_mini ==> is_llmx_mini_preset(r@[1]) && is_gpt5_preset(r@[2])
            &&& !allow_mini ==> is_gpt5_preset(r@[1])
        }),
        forall|i: int| 0 <= i < r@.len() ==> ((#[trigger] r@[i]).is_default <==> i == 0),
{
    let allow_mini = match auth_mode {
        Some(AuthMode::ChatGPT) => true,
        _ => false,
    };
    let mut r: Vec<ModelPreset> = Vec::new();
    r.push(llmx_preset());
    if allow_mini {
        r.push(llmx_mini_preset());
    }
    r.push(gpt5_preset());
    r
}

} // verus!
