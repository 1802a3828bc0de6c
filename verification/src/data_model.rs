//! The wire shapes of the supported provider protocols, as plain values,
//! and the translation between them and the conversation model.
//!
//! Serialization of these shapes to JSON and the network transport live
//! outside the library; everything here is the translation logic itself:
//! how turns flatten into wire messages, and how the providers' vocabulary
//! for finish reasons and roles maps onto the canonical enums.

use vstd::prelude::*;

use crate::strutil::str_eq;
use crate::{FinishReason, Message, MessageV, Role, ToolInfo, Turn, TurnV};

verus! {

broadcast use vstd::string::group_string_axioms;

/// One tool invocation as carried inside a chat-completions wire message.
#[derive(Debug, PartialEq)]
pub struct OaiToolCall {
    /// The provider-assigned identifier of the call.
    pub id: String,
    /// The name of the function to call.
    pub name: String,
    /// The arguments of the call, as a JSON-formatted string.
    pub arguments: String,
}

/// Mathematical model of an [`OaiToolCall`].
pub ghost struct OaiToolCallV {
    pub id: Seq<char>,
    pub name: Seq<char>,
    pub arguments: Seq<char>,
}

impl View for OaiToolCall {
    type V = OaiToolCallV;

    open spec fn view(&self) -> OaiToolCallV {
        OaiToolCallV { id: self.id@, name: self.name@, arguments: self.arguments@ }
    }
}

/// One message in the chat-completions wire format.
#[derive(Debug, PartialEq)]
pub struct OaiChatMessage {
    /// The speaker of the message.
    pub role: Role,
    /// The text of the message, when it carries any.
    pub content: Option<String>,
    /// The tool invocations the message requests.
    pub tool_calls: Vec<OaiToolCall>,
    /// For tool-role messages, the id of the call this message answers.
    pub tool_call_id: Option<String>,
}

/// Mathematical model of an [`OaiChatMessage`].
pub ghost struct OaiChatMessageV {
    pub role: Role,
    pub content: Option<Seq<char>>,
    pub tool_calls: Seq<OaiToolCallV>,
    pub tool_call_id: Option<Seq<char>>,
}

impl View for OaiChatMessage {
    type V = OaiChatMessageV;

    open spec fn view(&self) -> OaiChatMessageV {
        OaiChatMessageV {
            role: self.role,
            content: match self.content {
                Some(ref c) => Some(c@),
                None => None,
            },
            tool_calls: self.tool_calls@.map_values(|c: OaiToolCall| c@),
            tool_call_id: match self.tool_call_id {
                Some(ref i) => Some(i@),
                None => None,
            },
        }
    }
}

/// The wire message that carries plain text under the given role.
pub open spec fn spec_text_msg(role: Role, text: Seq<char>) -> OaiChatMessageV {
    OaiChatMessageV {
        role,
        content: Some(text),
        tool_calls: Seq::empty(),
        tool_call_id: None,
    }
}

impl OaiChatMessage {
    /// Builds a plain text message under the given role.
    pub fn text_msg(role: Role, text: String) -> (m: Self)
        ensures
            m@ == spec_text_msg(role, text@),
    {
        let m = OaiChatMessage { role, content: Some(text), tool_calls: Vec::new(), tool_call_id: None };
        proof {
            assert(m@.tool_calls =~= Seq::<OaiToolCallV>::empty());
        }
        m
    }
}

/// One tool declaration in the chat-completions wire format. The enclosing
/// `function`-type wrapper object is a serialization concern and is added at
/// the wire.
#[derive(Debug, PartialEq)]
pub struct OaiTool {
    /// The name of the function.
    pub name: String,
    /// A description of what the function does.
    pub description: String,
    /// The accepted parameters, as the JSON text of a JSON-Schema object.
    pub parameters: String,
}

/// Mathematical model of an [`OaiTool`].
pub ghost struct OaiToolV {
    pub name: Seq<char>,
    pub description: Seq<char>,
    pub parameters: Seq<char>,
}

impl View for OaiTool {
    type V = OaiToolV;

    open spec fn view(&self) -> OaiToolV {
        OaiToolV { name: self.name@, description: self.description@, parameters: self.parameters@ }
    }
}

/// The tool declaration that advertises the given tool.
pub open spec fn spec_oai_tool(t: crate::ToolInfoV) -> OaiToolV {
    OaiToolV { name: t.name, description: t.description, parameters: t.parameters }
}

impl ToolInfo {
    /// Translates this tool description into the chat-completions shape.
    pub fn to_oai_tool(&self) -> (r: OaiTool)
        ensures
            r@ == spec_oai_tool(self@),
    {
        OaiTool {
            name: self.name.clone(),
            description: self.description.clone(),
            parameters: self.parameters.clone(),
        }
    }

    /// Translates this tool description into the messages-API shape.
    pub fn to_anthropic_tool(&self) -> (r: AnthropicTool)
        ensures
            r@ == spec_anthropic_tool(self@),
    {
        AnthropicTool {
            name: self.name.clone(),
            description: self.description.clone(),
            input_schema: self.parameters.clone(),
        }
    }
}

/// A complete chat-completions request body.
#[derive(Debug, PartialEq)]
pub struct OaiRequest {
    /// The wire identifier of the model to call.
    pub model: String,
    /// Sampling temperature in hundredths, if set.
    pub temperature: Option<u32>,
    /// The limit on generated tokens.
    pub max_tokens: usize,
    /// The conversation, flattened to wire messages.
    pub messages: Vec<OaiChatMessage>,
    /// The tools the model may call.
    pub tools: Vec<OaiTool>,
    /// Whether the request selects automatic tool choice; set exactly when
    /// tools are declared.
    pub tool_choice_auto: bool,
}

/// One content block in the messages-API wire format.
#[derive(Debug, PartialEq)]
pub enum AnthropicBlock {
    /// Plain text.
    Text { text: String },
    /// A tool invocation requested by the model.
    ToolUse { id: String, name: String, input: String },
    /// The result of an earlier tool invocation.
    ToolResult { tool_use_id: String, content: String },
}

/// Mathematical model of an [`AnthropicBlock`].
pub ghost enum AnthropicBlockV {
    Text { text: Seq<char> },
    ToolUse { id: Seq<char>, name: Seq<char>, input: Seq<char> },
    ToolResult { tool_use_id: Seq<char>, content: Seq<char> },
}

impl View for AnthropicBlock {
    type V = AnthropicBlockV;

    open spec fn view(&self) -> AnthropicBlockV {
        match self {
            AnthropicBlock::Text { text } => AnthropicBlockV::Text { text: text@ },
            AnthropicBlock::ToolUse { id, name, input } => AnthropicBlockV::ToolUse {
                id: id@,
                name: name@,
                input: input@,
            },
            AnthropicBlock::ToolResult { tool_use_id, content } => AnthropicBlockV::ToolResult {
                tool_use_id: tool_use_id@,
                content: content@,
            },
        }
    }
}

/// One message in the messages-API wire format: a role with content blocks.
#[derive(Debug, PartialEq)]
pub struct AnthropicMessage {
    /// The speaker: the user or the assistant.
    pub role: Role,
    /// The content blocks of the message.
    pub content: Vec<AnthropicBlock>,
}

/// Mathematical model of an [`AnthropicMessage`].
pub ghost struct AnthropicMessageV {
    pub role: Role,
    pub content: Seq<AnthropicBlockV>,
}

impl View for AnthropicMessage {
    type V = AnthropicMessageV;

    open spec fn view(&self) -> AnthropicMessageV {
        AnthropicMessageV {
            role: self.role,
            content: self.content@.map_values(|b: AnthropicBlock| b@),
        }
    }
}

/// One tool declaration in the messages-API wire format.
#[derive(Debug, PartialEq)]
pub struct AnthropicTool {
    /// The name of the tool.
    pub name: String,
    /// A description of what the tool does.
    pub description: String,
    /// The accepted input, as the JSON text of a JSON-Schema object.
    pub input_schema: String,
}

/// Mathematical model of an [`AnthropicTool`].
pub ghost struct AnthropicToolV {
    pub name: Seq<char>,
    pub description: Seq<char>,
    pub input_schema: Seq<char>,
}

impl View for AnthropicTool {
    type V = AnthropicToolV;

    open spec fn view(&self) -> AnthropicToolV {
        AnthropicToolV {
            name: self.name@,
            description: self.description@,
            input_schema: self.input_schema@,
        }
    }
}

/// The tool declaration that advertises the given tool.
pub open spec fn spec_anthropic_tool(t: crate::ToolInfoV) -> AnthropicToolV {
    AnthropicToolV { name: t.name, description: t.description, input_schema: t.parameters }
}

/// A complete messages-API request body.
#[derive(Debug, PartialEq)]
pub struct AnthropicRequest {
    /// The wire identifier of the model to call.
    pub model: String,
    /// Sampling temperature in hundredths, if set.
    pub temperature: Option<u32>,
    /// The limit on generated tokens.
    pub max_tokens: usize,
    /// The system prompt, set exactly when the caller supplied one.
    pub system: Option<String>,
    /// The conversation, flattened to wire messages.
    pub messages: Vec<AnthropicMessage>,
    /// The tools the model may call.
    pub tools: Vec<AnthropicTool>,
    /// Whether the request selects automatic tool choice; set exactly when
    /// tools are declared.
    pub tool_choice_auto: bool,
}

/// The message of one chat-completions choice, as it arrives off the wire:
/// discriminators still raw strings, to be validated here.
#[derive(Debug, PartialEq)]
pub struct OaiRespMessage {
    /// The raw role string of the message.
    pub role: String,
    /// The text of the message, when present.
    pub content: Option<String>,
    /// The tool invocations the message requests.
    pub tool_calls: Vec<OaiToolCall>,
}

/// Mathematical model of an [`OaiRespMessage`].
pub ghost struct OaiRespMessageV {
    pub role: Seq<char>,
    pub content: Option<Seq<char>>,
    pub tool_calls: Seq<OaiToolCallV>,
}

impl View for OaiRespMessage {
    type V = OaiRespMessageV;

    open spec fn view(&self) -> OaiRespMessageV {
        OaiRespMessageV {
            role: self.role@,
            content: match self.content {
                Some(ref c) => Some(c@),
                None => None,
            },
            tool_calls: self.tool_calls@.map_values(|c: OaiToolCall| c@),
        }
    }
}

/// One choice of a chat-completions response.
#[derive(Debug, PartialEq)]
pub struct OaiChoice {
    /// The raw finish-reason term of the choice.
    pub finish_reason: String,
    /// The generated message.
    pub message: OaiRespMessage,
}

/// Mathematical model of an [`OaiChoice`].
pub ghost struct OaiChoiceV {
    pub finish_reason: Seq<char>,
    pub message: OaiRespMessageV,
}

impl View for OaiChoice {
    type V = OaiChoiceV;

    open spec fn view(&self) -> OaiChoiceV {
        OaiChoiceV { finish_reason: self.finish_reason@, message: self.message@ }
    }
}

/// A chat-completions response envelope, as it arrives off the wire.
#[derive(Debug, PartialEq)]
pub struct OaiResponse {
    /// The provider's id for the call.
    pub id: String,
    /// The model that answered, possibly empty.
    pub model: String,
    /// The envelope discriminator, expected to be `chat.completion`.
    pub object: Option<String>,
    /// The completion choices.
    pub choices: Vec<OaiChoice>,
}

/// Mathematical model of an [`OaiResponse`].
pub ghost struct OaiResponseV {
    pub id: Seq<char>,
    pub model: Seq<char>,
    pub object: Option<Seq<char>>,
    pub choices: Seq<OaiChoiceV>,
}

impl View for OaiResponse {
    type V = OaiResponseV;

    open spec fn view(&self) -> OaiResponseV {
        OaiResponseV {
            id: self.id@,
            model: self.model@,
            object: match self.object {
                Some(ref o) => Some(o@),
                None => None,
            },
            choices: self.choices@.map_values(|c: OaiChoice| c@),
        }
    }
}

/// A messages-API response envelope, as it arrives off the wire.
#[derive(Debug, PartialEq)]
pub struct AnthropicResponse {
    /// The provider's id for the call.
    pub id: String,
    /// The model that answered, possibly empty.
    pub model: String,
    /// The envelope discriminator, expected to be `message`.
    pub object: Option<String>,
    /// The role discriminator, expected to be `assistant`.
    pub role: Option<String>,
    /// The raw stop-reason term.
    pub stop_reason: String,
    /// The generated content blocks.
    pub content: Vec<AnthropicBlock>,
}

/// Mathematical model of an [`AnthropicResponse`].
pub ghost struct AnthropicResponseV {
    pub id: Seq<char>,
    pub model: Seq<char>,
    pub object: Option<Seq<char>>,
    pub role: Option<Seq<char>>,
    pub stop_reason: Seq<char>,
    pub content: Seq<AnthropicBlockV>,
}

impl View for AnthropicResponse {
    type V = AnthropicResponseV;

    open spec fn view(&self) -> AnthropicResponseV {
        AnthropicResponseV {
            id: self.id@,
            model: self.model@,
            object: match self.object {
                Some(ref o) => Some(o@),
                None => None,
            },
            role: match self.role {
                Some(ref r) => Some(r@),
                None => None,
            },
            stop_reason: self.stop_reason@,
            content: self.content@.map_values(|b: AnthropicBlock| b@),
        }
    }
}

/// The number of leading text messages: the index of the first message that
/// is not plain text, or the length when every message is text.
pub open spec fn first_call_index(ms: Seq<MessageV>) -> int
    decreases ms.len(),
{
    if ms.len() == 0 || !ms[0].is_text() {
        0
    } else {
        1 + first_call_index(ms.drop_first())
    }
}

/// Fixes the first-call index from what a scan saw: text everywhere before
/// `k`, and something else at `k` itself unless `k` is the length.
pub(crate) proof fn lemma_first_call_index_is(ms: Seq<MessageV>, k: int)
    requires
        0 <= k <= ms.len(),
        forall|j: int| 0 <= j < k ==> ms[j].is_text(),
        k < ms.len() ==> !ms[k].is_text(),
    ensures
        first_call_index(ms) == k,
    decreases ms.len(),
{
    if ms.len() == 0 || !ms[0].is_text() {
    } else {
        lemma_first_call_index_is(ms.drop_first(), k - 1);
    }
}

/// The text a message carries, empty for non-text messages.
pub open spec fn spec_text_of(m: MessageV) -> Seq<char> {
    match m {
        MessageV::Text { text } => text,
        _ => Seq::empty(),
    }
}

/// The wire tool call a tool-call message carries; empty fields for other
/// messages.
pub open spec fn spec_call_of(m: MessageV) -> OaiToolCallV {
    match m {
        MessageV::ToolCall { id, name, arguments } => OaiToolCallV { id, name, arguments },
        _ => OaiToolCallV { id: Seq::empty(), name: Seq::empty(), arguments: Seq::empty() },
    }
}

/// The tool-role wire message a tool-result message becomes.
pub open spec fn spec_tool_result_msg(m: MessageV) -> OaiChatMessageV {
    OaiChatMessageV {
        role: Role::Tool,
        content: Some(
            match m {
                MessageV::ToolResult { result, .. } => result,
                _ => Seq::empty(),
            },
        ),
        tool_calls: Seq::empty(),
        tool_call_id: Some(
            match m {
                MessageV::ToolResult { id, .. } => id,
                _ => Seq::empty(),
            },
        ),
    }
}

/// How a well-formed turn flattens into chat-completions wire messages:
/// user, system and tool turns give one wire message per message; an
/// assistant turn gives one wire message per text, with all its tool calls
/// coalesced onto the last text message — or onto a single text-free message
/// when the turn carries only tool calls.
pub open spec fn spec_oai_msgs_of_turn(t: TurnV) -> Seq<OaiChatMessageV> {
    match t.role {
        Role::User => t.content.map_values(|m: MessageV| spec_text_msg(Role::User, spec_text_of(m))),
        Role::System => t.content.map_values(
            |m: MessageV| spec_text_msg(Role::System, spec_text_of(m)),
        ),
        Role::Tool => t.content.map_values(|m: MessageV| spec_tool_result_msg(m)),
        Role::Assistant => {
            let k = first_call_index(t.content);
            let n = t.content.len() as int;
            if k == n {
                t.content.map_values(|m: MessageV| spec_text_msg(Role::Assistant, spec_text_of(m)))
            } else {
                let calls = t.content.skip(k).map_values(|m: MessageV| spec_call_of(m));
                if k == 0 {
                    seq![
                        (OaiChatMessageV {
                            role: Role::Assistant,
                            content: None,
                            tool_calls: calls,
                            tool_call_id: None,
                        }),
                    ]
                } else {
                    t.content.take(k - 1).map_values(
                        |m: MessageV| spec_text_msg(Role::Assistant, spec_text_of(m)),
                    ) + seq![
                        (OaiChatMessageV {
                            role: Role::Assistant,
                            content: Some(spec_text_of(t.content[k - 1])),
                            tool_calls: calls,
                            tool_call_id: None,
                        }),
                    ]
                }
            }
        },
    }
}

/// Checks whether a message is plain text.
pub(crate) fn msg_is_text(m: &Message) -> (b: bool)
    ensures
        b == m@.is_text(),
{
    match m {
        Message::Text { .. } => true,
        _ => false,
    }
}

impl Turn {
    /// Converts this turn into the wire format expected by chat-completions
    /// APIs, coalescing an assistant turn's tool calls onto its last text
    /// message as those APIs expect them together.
    pub fn into_oai_msgs(&self) -> (out: Vec<OaiChatMessage>)
        requires
            self.wf(),
        ensures
            out@.map_values(|m: OaiChatMessage| m@) == spec_oai_msgs_of_turn(self@),
    {
        let mut out: Vec<OaiChatMessage> = Vec::new();
        let n = self.content.len();
        match self.role {
            Role::User | Role::System | Role::Tool => {
                let mut i: usize = 0;
                while i < n
                    invariant
                        self.wf(),
                        self.role == Role::User || self.role == Role::System || self.role
                            == Role::Tool,
                        n == self.content@.len(),
                        i <= n,
                        out@.len() == i,
                        forall|j: int|
                            0 <= j < i ==> #[trigger] out@[j]@ == (if self@.role is Tool {
                                spec_tool_result_msg(self@.content[j])
                            } else {
                                spec_text_msg(self@.role, spec_text_of(self@.content[j]))
                            }),
                    decreases n - i,
                {
                    match &self.content[i] {
                        Message::Text { text } => {
                            proof {
                                assert(self@.content[i as int].is_text());
                            }
                            out.push(OaiChatMessage::text_msg(self.role, text.clone()));
                        },
                        Message::ToolResult { id, result } => {
                            proof {
                                assert(self@.content[i as int].is_tool_result());
                            }
                            let m = OaiChatMessage {
                                role: Role::Tool,
                                content: Some(result.clone()),
                                tool_calls: Vec::new(),
                                tool_call_id: Some(id.clone()),
                            };
                            proof {
                                assert(m@.tool_calls =~= Seq::<OaiToolCallV>::empty());
                            }
                            out.push(m);
                        },
                        Message::ToolCall { .. } => {
                            proof {
                                assert(self@.content[i as int].is_tool_call());
                                assert(false);
                            }
                        },
                    }
                    i = i + 1;
                }
                proof {
                    assert(out@.map_values(|m: OaiChatMessage| m@) =~= spec_oai_msgs_of_turn(
                        self@,
                    ));
                }
            },
            Role::Assistant => {
                let mut k: usize = 0;
                while k < n && msg_is_text(&self.content[k])
                    invariant
                        n == self.content@.len(),
                        k <= n,
                        forall|j: int| 0 <= j < k ==> self@.content[j].is_text(),
                    decreases n - k,
                {
                    k = k + 1;
                }
                proof {
                    lemma_first_call_index_is(self@.content, k as int);
                }
                if k == n {
                    // Only text: one wire message per text message.
                    let mut i: usize = 0;
                    while i < n
                        invariant
                            self.wf(),
                            self.role == Role::Assistant,
                            n == self.content@.len(),
                            forall|j: int| 0 <= j < n ==> self@.content[j].is_text(),
                            i <= n,
                            out@.len() == i,
                            forall|j: int|
                                0 <= j < i ==> #[trigger] out@[j]@ == spec_text_msg(
                                    Role::Assistant,
                                    spec_text_of(self@.content[j]),
                                ),
                        decreases n - i,
                    {
                        match &self.content[i] {
                            Message::Text { text } => {
                                out.push(OaiChatMessage::text_msg(Role::Assistant, text.clone()));
                            },
                            _ => {
                                proof {
                                    assert(self@.content[i as int] == self.content@[i as int]@);
                                    assert(self@.content[i as int].is_text());
                                    assert(false);
                                }
                            },
                        }
                        i = i + 1;
                    }
                    proof {
                        assert(out@.map_values(|m: OaiChatMessage| m@) =~= spec_oai_msgs_of_turn(
                            self@,
                        ));
                    }
                } else {
                    // Text messages first, then the turn's tool calls,
                    // coalesced onto the last text message if there is one.
                    let mut calls: Vec<OaiToolCall> = Vec::new();
                    let mut j: usize = k;
                    while j < n
                        invariant
                            self.wf(),
                            self.role == Role::Assistant,
                            n == self.content@.len(),
                            k <= j <= n,
                            k < n,
                            forall|p: int| 0 <= p < k ==> self@.content[p].is_text(),
                            !self@.content[k as int].is_text(),
                            calls@.len() == j - k,
                            forall|p: int|
                                0 <= p < j - k ==> #[trigger] calls@[p]@ == spec_call_of(
                                    self@.content[k + p],
                                ),
                        decreases n - j,
                    {
                        match &self.content[j] {
                            Message::ToolCall { id, name, arguments } => {
                                calls.push(OaiToolCall {
                                    id: id.clone(),
                                    name: name.clone(),
                                    arguments: arguments.clone(),
                                });
                            },
                            _ => {
                                proof {
                                    // A well-formed assistant turn has only
                                    // tool calls after its first one.
                                    assert(self@.content[k as int].is_tool_call());
                                    assert(self@.content[j as int].is_tool_call());
                                    assert(false);
                                }
                            },
                        }
                        j = j + 1;
                    }
                    proof {
                        assert(calls@.map_values(|c: OaiToolCall| c@) =~= self@.content.skip(
                            k as int,
                        ).map_values(|m: MessageV| spec_call_of(m)));
                    }
                    if k == 0 {
                        let m = OaiChatMessage {
                            role: Role::Assistant,
                            content: None,
                            tool_calls: calls,
                            tool_call_id: None,
                        };
                        out.push(m);
                        proof {
                            assert(out@.map_values(|m2: OaiChatMessage| m2@)
                                =~= spec_oai_msgs_of_turn(self@));
                        }
                    } else {
                        let mut i: usize = 0;
                        while i < k - 1
                            invariant
                                self.wf(),
                                self.role == Role::Assistant,
                                n == self.content@.len(),
                                k <= n,
                                1 <= k,
                                forall|p: int| 0 <= p < k ==> self@.content[p].is_text(),
                                i <= k - 1,
                                out@.len() == i,
                                forall|p: int|
                                    0 <= p < i ==> #[trigger] out@[p]@ == spec_text_msg(
                                        Role::Assistant,
                                        spec_text_of(self@.content[p]),
                                    ),
                            decreases k - i,
                        {
                            match &self.content[i] {
                                Message::Text { text } => {
                                    out.push(
                                        OaiChatMessage::text_msg(Role::Assistant, text.clone()),
                                    );
                                },
                                _ => {
                                    proof {
                                        assert(self@.content[i as int] == self.content@[
                                            i as int
                                        ]@);
                                        assert(self@.content[i as int].is_text());
                                        assert(false);
                                    }
                                },
                            }
                            i = i + 1;
                        }
                        match &self.content[k - 1] {
                            Message::Text { text } => {
                                let m = OaiChatMessage {
                                    role: Role::Assistant,
                                    content: Some(text.clone()),
                                    tool_calls: calls,
                                    tool_call_id: None,
                                };
                                out.push(m);
                            },
                            _ => {
                                proof {
                                    assert(self@.content[k - 1].is_text());
                                    assert(false);
                                }
                            },
                        }
                        proof {
                            assert(out@.map_values(|m2: OaiChatMessage| m2@)
                                =~= spec_oai_msgs_of_turn(self@));
                        }
                    }
                }
            },
        }
        out
    }
}

/// The messages-API role a turn is carried under: the assistant speaks as
/// the assistant, everything else — user input, system text hoisted into
/// the message array, tool results — is carried as the user.
pub open spec fn spec_anthropic_role(r: Role) -> Role {
    match r {
        Role::Assistant => Role::Assistant,
        _ => Role::User,
    }
}

/// The messages-API content block a conversation message becomes.
pub open spec fn spec_block_of(m: MessageV) -> AnthropicBlockV {
    match m {
        MessageV::Text { text } => AnthropicBlockV::Text { text },
        MessageV::ToolCall { id, name, arguments } => AnthropicBlockV::ToolUse {
            id,
            name,
            input: arguments,
        },
        MessageV::ToolResult { id, result } => AnthropicBlockV::ToolResult {
            tool_use_id: id,
            content: result,
        },
    }
}

/// How a turn flattens into messages-API wire messages: a non-empty turn
/// becomes one message whose blocks are the turn's messages in order —
/// the multi-block message those APIs expect from coalescing consecutive
/// same-role content — and an empty turn vanishes.
pub open spec fn spec_anthropic_msgs_of_turn(t: TurnV) -> Seq<AnthropicMessageV> {
    if t.content.len() == 0 {
        Seq::empty()
    } else {
        seq![
            (AnthropicMessageV {
                role: spec_anthropic_role(t.role),
                content: t.content.map_values(|m: MessageV| spec_block_of(m)),
            }),
        ]
    }
}

impl Turn {
    /// Converts this turn into the wire format expected by Anthropic's
    /// messages API: one multi-block message carrying the turn's content.
    pub fn into_anthropic_msgs(&self) -> (out: Vec<AnthropicMessage>)
        requires
            self.wf(),
        ensures
            out@.map_values(|m: AnthropicMessage| m@) == spec_anthropic_msgs_of_turn(self@),
    {
        let mut out: Vec<AnthropicMessage> = Vec::new();
        let n = self.content.len();
        if n == 0 {
            proof {
                assert(out@.map_values(|m: AnthropicMessage| m@) =~= spec_anthropic_msgs_of_turn(
                    self@,
                ));
            }
            return out;
        }
        let mut blocks: Vec<AnthropicBlock> = Vec::new();
        let mut i: usize = 0;
        while i < n
            invariant
                n == self.content@.len(),
                i <= n,
                blocks@.len() == i,
                forall|j: int|
                    0 <= j < i ==> #[trigger] blocks@[j]@ == spec_block_of(self@.content[j]),
            decreases n - i,
        {
            let b = match &self.content[i] {
                Message::Text { text } => AnthropicBlock::Text { text: text.clone() },
                Message::ToolCall { id, name, arguments } => AnthropicBlock::ToolUse {
                    id: id.clone(),
                    name: name.clone(),
                    input: arguments.clone(),
                },
                Message::ToolResult { id, result } => AnthropicBlock::ToolResult {
                    tool_use_id: id.clone(),
                    content: result.clone(),
                },
            };
            proof {
                assert(self@.content[i as int] == self.content@[i as int]@);
            }
            blocks.push(b);
            i = i + 1;
        }
        let role = match self.role {
            Role::Assistant => Role::Assistant,
            _ => Role::User,
        };
        let m = AnthropicMessage { role, content: blocks };
        proof {
            assert(m@.content =~= self@.content.map_values(|m2: MessageV| spec_block_of(m2)));
        }
        out.push(m);
        proof {
            assert(out@.map_values(|m2: AnthropicMessage| m2@) =~= spec_anthropic_msgs_of_turn(
                self@,
            ));
        }
        out
    }
}

/// The chat-completions term for a finish reason.
pub open spec fn spec_oai_finish_term(r: FinishReason) -> Seq<char> {
    match r {
        FinishReason::Stop => "stop"@,
        FinishReason::ToolCalls => "tool_calls"@,
        FinishReason::Length => "length"@,
        FinishReason::ContentFilter => "content_filter"@,
    }
}

/// The messages-API term for a finish reason.
pub open spec fn spec_anthropic_finish_term(r: FinishReason) -> Seq<char> {
    match r {
        FinishReason::Stop => "end_turn"@,
        FinishReason::ToolCalls => "tool_use"@,
        FinishReason::Length => "max_tokens"@,
        FinishReason::ContentFilter => "refusal"@,
    }
}

/// The canonical finish reason a provider term denotes, under either
/// provider vocabulary, or nothing for an unknown term.
pub open spec fn spec_parse_finish(s: Seq<char>) -> Option<FinishReason> {
    if s == "stop"@ || s == "end_turn"@ {
        Some(FinishReason::Stop)
    } else if s == "tool_calls"@ || s == "tool_use"@ {
        Some(FinishReason::ToolCalls)
    } else if s == "length"@ || s == "max_tokens"@ {
        Some(FinishReason::Length)
    } else if s == "content_filter"@ || s == "refusal"@ {
        Some(FinishReason::ContentFilter)
    } else {
        None
    }
}

/// Normalizes a provider finish-reason term into the canonical enum.
pub fn parse_finish_reason(s: &str) -> (r: Option<FinishReason>)
    ensures
        r == spec_parse_finish(s@),
{
    if str_eq(s, "stop") || str_eq(s, "end_turn") {
        Some(FinishReason::Stop)
    } else if str_eq(s, "tool_calls") || str_eq(s, "tool_use") {
        Some(FinishReason::ToolCalls)
    } else if str_eq(s, "length") || str_eq(s, "max_tokens") {
        Some(FinishReason::Length)
    } else if str_eq(s, "content_filter") || str_eq(s, "refusal") {
        Some(FinishReason::ContentFilter)
    } else {
        None
    }
}

/// The wire term for a conversation role.
pub open spec fn spec_role_term(r: Role) -> Seq<char> {
    match r {
        Role::User => "user"@,
        Role::System => "system"@,
        Role::Assistant => "assistant"@,
        Role::Tool => "tool"@,
    }
}

/// The role a wire term denotes, or nothing for an unknown term.
pub open spec fn spec_parse_role(s: Seq<char>) -> Option<Role> {
    if s == "user"@ {
        Some(Role::User)
    } else if s == "system"@ {
        Some(Role::System)
    } else if s == "assistant"@ {
        Some(Role::Assistant)
    } else if s == "tool"@ {
        Some(Role::Tool)
    } else {
        None
    }
}

/// Normalizes a wire role term into the canonical enum.
pub fn parse_role(s: &str) -> (r: Option<Role>)
    ensures
        r == spec_parse_role(s@),
{
    if str_eq(s, "user") {
        Some(Role::User)
    } else if str_eq(s, "system") {
        Some(Role::System)
    } else if str_eq(s, "assistant") {
        Some(Role::Assistant)
    } else if str_eq(s, "tool") {
        Some(Role::Tool)
    } else {
        None
    }
}

/// The normalization tables round-trip: every canonical finish reason,
/// written in either provider's vocabulary, parses back to itself, and every
/// role term parses back to its role.
pub proof fn lemma_term_round_trip(r: FinishReason, role: Role)
    ensures
        spec_parse_finish(spec_oai_finish_term(r)) == Some(r),
        spec_parse_finish(spec_anthropic_finish_term(r)) == Some(r),
        spec_parse_role(spec_role_term(role)) == Some(role),
{
    reveal_strlit("stop");
    reveal_strlit("end_turn");
    reveal_strlit("tool_calls");
    reveal_strlit("tool_use");
    reveal_strlit("length");
    reveal_strlit("max_tokens");
    reveal_strlit("content_filter");
    reveal_strlit("refusal");
    reveal_strlit("user");
    reveal_strlit("system");
    reveal_strlit("assistant");
    reveal_strlit("tool");
    assert("stop"@.len() == 4);
    assert("end_turn"@.len() == 8);
    assert("tool_calls"@.len() == 10);
    assert("tool_use"@.len() == 8);
    assert("length"@.len() == 6);
    assert("max_tokens"@.len() == 10);
    assert("content_filter"@.len() == 14);
    assert("refusal"@.len() == 7);
    assert("user"@.len() == 4);
    assert("system"@.len() == 6);
    assert("assistant"@.len() == 9);
    assert("tool"@.len() == 4);
    assert("end_turn"@[0] == 'e');
    assert("tool_use"@[0] == 't');
    assert("tool_calls"@[0] == 't');
    assert("max_tokens"@[0] == 'm');
    assert("length"@[0] == 'l');
    assert("user"@[0] == 'u');
    assert("tool"@[0] == 't');
    assert("system"@[0] == 's');
    match r {
        FinishReason::Stop => {
            assert(spec_parse_finish("stop"@) == Some(FinishReason::Stop));
            assert(spec_parse_finish("end_turn"@) == Some(FinishReason::Stop));
        },
        FinishReason::ToolCalls => {
            assert("tool_calls"@ != "stop"@ && "tool_calls"@ != "end_turn"@);
            assert("tool_use"@ != "stop"@ && "tool_use"@[0] != "end_turn"@[0]);
            assert(spec_parse_finish("tool_calls"@) == Some(FinishReason::ToolCalls));
            assert(spec_parse_finish("tool_use"@) == Some(FinishReason::ToolCalls));
        },
        FinishReason::Length => {
            assert(spec_parse_finish("length"@) == Some(FinishReason::Length));
            assert("max_tokens"@[0] != "tool_calls"@[0] && "max_tokens"@[0] != "tool_use"@[0]);
            assert(spec_parse_finish("max_tokens"@) == Some(FinishReason::Length));
        },
        FinishReason::ContentFilter => {
            assert(spec_parse_finish("content_filter"@) == Some(FinishReason::ContentFilter));
            assert(spec_parse_finish("refusal"@) == Some(FinishReason::ContentFilter));
        },
    }
    match role {
        Role::User => {
            assert(spec_parse_role("user"@) == Some(Role::User));
        },
        Role::System => {
            assert(spec_parse_role("system"@) == Some(Role::System));
        },
        Role::Assistant => {
            assert(spec_parse_role("assistant"@) == Some(Role::Assistant));
        },
        Role::Tool => {
            assert("tool"@[0] != "user"@[0]);
            assert(spec_parse_role("tool"@) == Some(Role::Tool));
        },
    }
}

} // verus!
