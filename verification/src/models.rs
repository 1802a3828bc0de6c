//! Types representing the different LLMs which can be used.

use vstd::prelude::*;

use crate::data_model::{spec_text_msg, OaiChatMessage};
use crate::Role;

verus! {

/// Some specific LLM.
pub trait Model: Sized {
    /// The role a merged system prompt is carried under: most models take
    /// the system role, a few do not understand it and take user text.
    spec fn spec_prompt_role(&self) -> Role;

    /// Takes a 'system' prompt, formatting it into a message to be used in a
    /// model call.
    fn make_prompt(&self, prompt: String) -> (m: OaiChatMessage)
        ensures
            m@ == spec_text_msg(self.spec_prompt_role(), prompt@),
    ;
}

/// An LLM which can be called via Openrouter.
pub trait OpenrouterModel: Sized {
    /// The Openrouter wire identifier of the model.
    spec fn spec_model_str(&self) -> Seq<char>;

    /// Whether the model lacks support for the system role.
    spec fn spec_no_sys_prompt(&self) -> bool;

    /// Returns the Openrouter wire identifier of the model.
    fn model_str(&self) -> (r: String)
        ensures
            r@ == self.spec_model_str(),
    ;

    /// Returns whether the model lacks support for the system role.
    fn no_sys_prompt(&self) -> (r: bool)
        ensures
            r == self.spec_no_sys_prompt(),
    ;
}

/// An LLM which can be called via the Anthropic public API.
pub trait AnthropicModel: Model {
    /// The Anthropic wire identifier of the model.
    spec fn spec_model_str(&self) -> Seq<char>;

    /// Returns the Anthropic wire identifier of the model.
    fn model_str(&self) -> (r: String)
        ensures
            r@ == AnthropicModel::spec_model_str(self),
    ;
}

/// An LLM which can be called via the OpenAI chat completions API.
pub trait OpenAIModel: Model {
    /// The OpenAI wire identifier of the model.
    spec fn spec_model_str(&self) -> Seq<char>;

    /// Returns the OpenAI wire identifier of the model.
    fn model_str(&self) -> (r: String)
        ensures
            r@ == OpenAIModel::spec_model_str(self),
    ;
}

impl<X: OpenrouterModel> Model for X {
    open spec fn spec_prompt_role(&self) -> Role {
        if self.spec_no_sys_prompt() {
            Role::User
        } else {
            Role::System
        }
    }

    fn make_prompt(&self, prompt: String) -> (m: OaiChatMessage) {
        if self.no_sys_prompt() {
            OaiChatMessage::text_msg(Role::User, prompt)
        } else {
            OaiChatMessage::text_msg(Role::System, prompt)
        }
    }
}

/// The Gemma3 27b LLM.
#[derive(Clone, Copy, Debug, PartialEq, Eq, Structural)]
pub struct Gemma27B3;

impl OpenrouterModel for Gemma27B3 {
    open spec fn spec_model_str(&self) -> Seq<char> {
        "google/gemma-3-27b-it"@
    }

    open spec fn spec_no_sys_prompt(&self) -> bool {
        false
    }

    fn model_str(&self) -> (r: String) {
        String::from_str("google/gemma-3-27b-it")
    }

    fn no_sys_prompt(&self) -> (r: bool) {
        false
    }
}

/// The Qwen3 235b (22b active) LLM.
#[derive(Clone, Copy, Debug, PartialEq, Eq, Structural)]
pub struct Qwen235B3;

impl OpenrouterModel for Qwen235B3 {
    open spec fn spec_model_str(&self) -> Seq<char> {
        "qwen/qwen3-235b-a22b"@
    }

    open spec fn spec_no_sys_prompt(&self) -> bool {
        false
    }

    fn model_str(&self) -> (r: String) {
        String::from_str("qwen/qwen3-235b-a22b")
    }

    fn no_sys_prompt(&self) -> (r: bool) {
        false
    }
}

/// The Phi4 LLM.
#[derive(Clone, Copy, Debug, PartialEq, Eq, Structural)]
pub struct Phi4;

impl OpenrouterModel for Phi4 {
    open spec fn spec_model_str(&self) -> Seq<char> {
        "microsoft/phi-4"@
    }

    open spec fn spec_no_sys_prompt(&self) -> bool {
        true
    }

    fn model_str(&self) -> (r: String) {
        String::from_str("microsoft/phi-4")
    }

    fn no_sys_prompt(&self) -> (r: bool) {
        true
    }
}

/// The Gemini 2 flash LLM.
#[derive(Clone, Copy, Debug, PartialEq, Eq, Structural)]
pub struct Gemini2Flash;

impl OpenrouterModel for Gemini2Flash {
    open spec fn spec_model_str(&self) -> Seq<char> {
        "google/gemini-2.0-flash-001"@
    }

    open spec fn spec_no_sys_prompt(&self) -> bool {
        false
    }

    fn model_str(&self) -> (r: String) {
        String::from_str("google/gemini-2.0-flash-001")
    }

    fn no_sys_prompt(&self) -> (r: bool) {
        false
    }
}

/// The Gemini 2.5 flash LLM.
#[derive(Clone, Copy, Debug, PartialEq, Eq, Structural)]
pub struct Gemini25Flash;

impl OpenrouterModel for Gemini25Flash {
    open spec fn spec_model_str(&self) -> Seq<char> {
        "google/gemini-2.5-flash-preview-05-20"@
    }

    open spec fn spec_no_sys_prompt(&self) -> bool {
        false
    }

    fn model_str(&self) -> (r: String) {
        String::from_str("google/gemini-2.5-flash-preview-05-20")
    }

    fn no_sys_prompt(&self) -> (r: bool) {
        false
    }
}

/// The Devstral Small LLM.
#[derive(Clone, Copy, Debug, PartialEq, Eq, Structural)]
pub struct DevstralSmall;

impl OpenrouterModel for DevstralSmall {
    open spec fn spec_model_str(&self) -> Seq<char> {
        "mistralai/devstral-small"@
    }

    open spec fn spec_no_sys_prompt(&self) -> bool {
        false
    }

    fn model_str(&self) -> (r: String) {
        String::from_str("mistralai/devstral-small")
    }

    fn no_sys_prompt(&self) -> (r: bool) {
        false
    }
}

/// OpenAI's GPT-4o-mini model.
#[derive(Clone, Copy, Debug, PartialEq, Eq, Structural)]
pub struct GPT4oMini;

impl OpenrouterModel for GPT4oMini {
    open spec fn spec_model_str(&self) -> Seq<char> {
        "openai/gpt-4o-mini"@
    }

    open spec fn spec_no_sys_prompt(&self) -> bool {
        false
    }

    fn model_str(&self) -> (r: String) {
        String::from_str("openai/gpt-4o-mini")
    }

    fn no_sys_prompt(&self) -> (r: bool) {
        false
    }
}

impl OpenAIModel for GPT4oMini {
    open spec fn spec_model_str(&self) -> Seq<char> {
        "gpt-4o-mini"@
    }

    fn model_str(&self) -> (r: String) {
        String::from_str("gpt-4o-mini")
    }
}

/// Deepseek v3 0324.
#[derive(Clone, Copy, Debug, PartialEq, Eq, Structural)]
pub struct Deepseek0324v3;

impl OpenrouterModel for Deepseek0324v3 {
    open spec fn spec_model_str(&self) -> Seq<char> {
        "deepseek/deepseek-chat-v3-0324"@
    }

    open spec fn spec_no_sys_prompt(&self) -> bool {
        false
    }

    fn model_str(&self) -> (r: String) {
        String::from_str("deepseek/deepseek-chat-v3-0324")
    }

    fn no_sys_prompt(&self) -> (r: bool) {
        false
    }
}

/// An Anthropic-served LLM named by its wire identifier at run time, for
/// models this crate declares no marker type for.
#[derive(Debug, PartialEq)]
pub struct AnthropicModelId {
    /// The Anthropic wire identifier of the model.
    pub id: String,
}

impl Clone for AnthropicModelId {
    fn clone(&self) -> (r: Self)
        ensures
            r.id@ == self.id@,
    {
        AnthropicModelId { id: self.id.clone() }
    }
}

impl AnthropicModel for AnthropicModelId {
    open spec fn spec_model_str(&self) -> Seq<char> {
        self.id@
    }

    fn model_str(&self) -> (r: String) {
        self.id.clone()
    }
}

impl Model for AnthropicModelId {
    open spec fn spec_prompt_role(&self) -> Role {
        Role::System
    }

    fn make_prompt(&self, prompt: String) -> (m: OaiChatMessage) {
        OaiChatMessage::text_msg(Role::System, prompt)
    }
}

} // verus!
