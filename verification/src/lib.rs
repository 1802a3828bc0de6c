//! Small, verified core for talking to large-language-model completion
//! providers through one uniform interface.
//!
//! The crate holds a provider-agnostic conversation model ([`Turn`],
//! [`Message`], [`Role`], [`FinishReason`]), wire-format adapters for the two
//! common protocol families ([`callers`]), a bounded tool-dispatch loop
//! ([`tools`]) and extractors that pull structured answers out of model prose
//! ([`parse`]).

use vstd::prelude::*;
use vstd::string::StrSliceExecFns;

pub mod callers;
pub mod data_model;
pub mod models;
pub mod parse;
mod strutil;
pub mod tools;

pub use callers::ModelCaller;
pub use tools::{ToolHandler, ToolsSession};

verus! {

/// The context of data in or out of the model.
#[derive(Clone, Copy, Debug, PartialEq, Eq, Structural)]
pub enum Role {
    /// Data in this turn represents user (non-LLM) input.
    User,
    /// Data in this turn represents the system prompt.
    System,
    /// Data in this turn was generated by the LLM.
    Assistant,
    /// Data in this turn represents the result of a tool call.
    Tool,
}

/// Describes the reason a model stopped providing tokens.
#[derive(Clone, Copy, Debug, PartialEq, Eq, Structural)]
pub enum FinishReason {
    /// The model finished its answer.
    Stop,
    /// The model asked for tool invocations and awaits their results.
    ToolCalls,
    /// The model ran into the output-token limit.
    Length,
    /// The provider suppressed output.
    ContentFilter,
}

/// A unit of data written to or read from the model.
#[derive(Debug, PartialEq)]
pub enum Message {
    /// Text tokens fed into or read from the model.
    Text { text: String },
    /// A request by the model to run a tool.
    ToolCall {
        /// The identifier the model is using for this tool call.
        id: String,
        /// The name of the function the model wants to call.
        name: String,
        /// A (usually JSON-formatted) representation of the arguments.
        arguments: String,
    },
    /// The result of an earlier tool call.
    ToolResult {
        /// Corresponds to the id of an earlier `ToolCall` message.
        id: String,
        /// A (usually JSON-formatted) representation of the result.
        result: String,
    },
}

/// Mathematical model of a [`Message`]: the same shape over sequences of
/// characters.
pub ghost enum MessageV {
    Text { text: Seq<char> },
    ToolCall { id: Seq<char>, name: Seq<char>, arguments: Seq<char> },
    ToolResult { id: Seq<char>, result: Seq<char> },
}

impl View for Message {
    type V = MessageV;

    open spec fn view(&self) -> MessageV {
        match self {
            Message::Text { text } => MessageV::Text { text: text@ },
            Message::ToolCall { id, name, arguments } => MessageV::ToolCall {
                id: id@,
                name: name@,
                arguments: arguments@,
            },
            Message::ToolResult { id, result } => MessageV::ToolResult {
                id: id@,
                result: result@,
            },
        }
    }
}

impl Clone for Message {
    fn clone(&self) -> (r: Self)
        ensures
            r@ == self@,
    {
        match self {
            Message::Text { text } => Message::Text { text: text.clone() },
            Message::ToolCall { id, name, arguments } => Message::ToolCall {
                id: id.clone(),
                name: name.clone(),
                arguments: arguments.clone(),
            },
            Message::ToolResult { id, result } => Message::ToolResult {
                id: id.clone(),
                result: result.clone(),
            },
        }
    }
}

impl Message {
    /// Creates a new `Text` message.
    pub fn text(text: String) -> (m: Self)
        ensures
            m@ == (MessageV::Text { text: text@ }),
    {
        Message::Text { text }
    }
}

/// Describes a round of model input or output.
#[derive(Debug, PartialEq)]
pub struct Turn {
    /// The source of the content: the user, the model (assistant), a tool.
    pub role: Role,
    /// Some data fed into or read from the model.
    pub content: Vec<Message>,
}

/// Mathematical model of a [`Turn`].
pub ghost struct TurnV {
    pub role: Role,
    pub content: Seq<MessageV>,
}

impl View for Turn {
    type V = TurnV;

    open spec fn view(&self) -> TurnV {
        TurnV { role: self.role, content: self.content@.map_values(|m: Message| m@) }
    }
}

impl Clone for Turn {
    fn clone(&self) -> (r: Self)
        ensures
            r@ == self@,
    {
        let mut content: Vec<Message> = Vec::new();
        let mut i: usize = 0;
        while i < self.content.len()
            invariant
                i <= self.content.len(),
                content@.len() == i,
                forall|j: int| 0 <= j < i ==> #[trigger] content@[j]@ == self.content@[j]@,
            decreases self.content.len() - i,
        {
            content.push(self.content[i].clone());
            i = i + 1;
        }
        let r = Turn { role: self.role, content };
        proof {
            assert(r@.content =~= self@.content);
        }
        r
    }
}

impl MessageV {
    /// True of messages that carry plain text.
    pub open spec fn is_text(self) -> bool {
        self is Text
    }

    /// True of messages that request a tool invocation.
    pub open spec fn is_tool_call(self) -> bool {
        self is ToolCall
    }

    /// True of messages that carry a tool's result.
    pub open spec fn is_tool_result(self) -> bool {
        self is ToolResult
    }
}

impl TurnV {
    /// The well-formedness invariant of a conversation turn: user and system
    /// turns carry only text; assistant turns carry text first and tool-call
    /// requests after; tool turns carry only tool results.
    pub open spec fn wf(self) -> bool {
        match self.role {
            Role::User | Role::System => forall|i: int|
                0 <= i < self.content.len() ==> self.content[i].is_text(),
            Role::Assistant => {
                &&& (forall|i: int|
                    0 <= i < self.content.len() ==> #[trigger] self.content[i].is_text()
                        || self.content[i].is_tool_call())
                &&& (forall|i: int, j: int|
                    0 <= i < j < self.content.len() && #[trigger] self.content[i].is_tool_call()
                        ==> #[trigger] self.content[j].is_tool_call())
            },
            Role::Tool => forall|i: int|
                0 <= i < self.content.len() ==> self.content[i].is_tool_result(),
        }
    }
}

impl Turn {
    /// The well-formedness invariant of a turn, stated on the view.
    pub open spec fn wf(self) -> bool {
        self@.wf()
    }

    /// Builds a turn holding a single text message for the given role.
    pub fn text(role: Role, text: String) -> (t: Turn)
        requires
            role == Role::User || role == Role::System || role == Role::Assistant,
        ensures
            t@.role == role,
            t@.content =~= seq![MessageV::Text { text: text@ }],
            t.wf(),
    {
        let mut content: Vec<Message> = Vec::new();
        content.push(Message::Text { text });
        Turn { role, content }
    }

    /// Checks the turn's well-formedness invariant at run time, so that
    /// unverified callers can test it before handing a turn to functions
    /// that require it.
    pub fn check_wf(&self) -> (r: bool)
        ensures
            r == self.wf(),
    {
        let n = self.content.len();
        let mut i: usize = 0;
        match self.role {
            Role::User | Role::System => {
                while i < n
                    invariant
                        self.role == Role::User || self.role == Role::System,
                        n == self.content@.len(),
                        i <= n,
                        forall|j: int| 0 <= j < i ==> (#[trigger] self@.content[j]).is_text(),
                    decreases n - i,
                {
                    match &self.content[i] {
                        Message::Text { .. } => {},
                        _ => {
                            proof {
                                assert(!self@.content[i as int].is_text());
                            }
                            return false;
                        },
                    }
                    i = i + 1;
                }
                true
            },
            Role::Tool => {
                while i < n
                    invariant
                        self.role == Role::Tool,
                        n == self.content@.len(),
                        i <= n,
                        forall|j: int|
                            0 <= j < i ==> (#[trigger] self@.content[j]).is_tool_result(),
                    decreases n - i,
                {
                    match &self.content[i] {
                        Message::ToolResult { .. } => {},
                        _ => {
                            proof {
                                assert(!self@.content[i as int].is_tool_result());
                            }
                            return false;
                        },
                    }
                    i = i + 1;
                }
                true
            },
            Role::Assistant => {
                let mut seen_call: bool = false;
                while i < n
                    invariant
                        self.role == Role::Assistant,
                        n == self.content@.len(),
                        i <= n,
                        forall|j: int|
                            0 <= j < i ==> (#[trigger] self@.content[j]).is_text()
                                || self@.content[j].is_tool_call(),
                        forall|j: int, j2: int|
                            0 <= j < j2 < i && (#[trigger] self@.content[j]).is_tool_call() ==> (
                            #[trigger] self@.content[j2]).is_tool_call(),
                        seen_call <==> exists|j: int|
                            0 <= j < i && (#[trigger] self@.content[j]).is_tool_call(),
                        seen_call ==> i > 0 && self@.content[i - 1].is_tool_call(),
                    decreases n - i,
                {
                    proof {
                        assert(self@.content[i as int] == self.content@[i as int]@);
                    }
                    match &self.content[i] {
                        Message::Text { .. } => {
                            if seen_call {
                                proof {
                                    let j = choose|j: int|
                                        0 <= j < i && (#[trigger] self@.content[j]).is_tool_call();
                                    assert(self@.content[j].is_tool_call()
                                        && !self@.content[i as int].is_tool_call());
                                }
                                return false;
                            }
                        },
                        Message::ToolCall { .. } => {
                            seen_call = true;
                        },
                        Message::ToolResult { .. } => {
                            proof {
                                assert(!self@.content[i as int].is_text() && !self@.content[
                                    i as int
                                ].is_tool_call());
                            }
                            return false;
                        },
                    }
                    i = i + 1;
                }
                true
            },
        }
    }

    /// Returns the text of the turn's first message, if that message is text.
    pub fn first_text(&self) -> (r: Option<String>)
        ensures
            match r {
                Some(s) => self@.content.len() > 0 && self@.content[0] == (MessageV::Text {
                    text: s@,
                }),
                None => self@.content.len() == 0 || !self@.content[0].is_text(),
            },
    {
        if self.content.len() == 0 {
            return None;
        }
        match &self.content[0] {
            Message::Text { text } => Some(text.clone()),
            _ => None,
        }
    }
}

/// Describes an error which occurred during a model call.
#[derive(Debug, PartialEq)]
pub enum CallErr {
    /// The response lacked any completions. Non-erroneous for multi-turn
    /// contexts with an earlier good response, always anomalous otherwise.
    NoCompletions,
    /// A transport or deserialization error occurred; the payload is its
    /// description.
    Api(String),
    /// A model call API returned a non-2xx status code, carried here with the
    /// raw response body.
    RequestFailed(u16, String),
    /// Any other error, such as a malformed response envelope.
    Other(String),
    /// A tool call could not be dispatched or reported an error.
    ToolFailed { name: String, err: String },
}

/// Mathematical model of a [`CallErr`].
pub ghost enum CallErrV {
    NoCompletions,
    Api(Seq<char>),
    RequestFailed(u16, Seq<char>),
    Other(Seq<char>),
    ToolFailed { name: Seq<char>, err: Seq<char> },
}

impl View for CallErr {
    type V = CallErrV;

    open spec fn view(&self) -> CallErrV {
        match self {
            CallErr::NoCompletions => CallErrV::NoCompletions,
            CallErr::Api(s) => CallErrV::Api(s@),
            CallErr::RequestFailed(status, body) => CallErrV::RequestFailed(*status, body@),
            CallErr::Other(s) => CallErrV::Other(s@),
            CallErr::ToolFailed { name, err } => CallErrV::ToolFailed { name: name@, err: err@ },
        }
    }
}

/// Describes the parameters and use of a tool made available to an LLM.
#[derive(Debug, PartialEq)]
pub struct ToolInfo {
    /// The name of the function to be called. Expected to use `a-z`, `A-Z`,
    /// `0-9`, underscores and dashes, with a maximum length of 64.
    pub name: String,
    /// A description of what the function does.
    pub description: String,
    /// The parameters the function accepts, as the JSON text of a JSON-Schema
    /// object.
    pub parameters: String,
}

/// Mathematical model of a [`ToolInfo`].
pub ghost struct ToolInfoV {
    pub name: Seq<char>,
    pub description: Seq<char>,
    pub parameters: Seq<char>,
}

impl View for ToolInfo {
    type V = ToolInfoV;

    open spec fn view(&self) -> ToolInfoV {
        ToolInfoV { name: self.name@, description: self.description@, parameters: self.parameters@ }
    }
}

impl Clone for ToolInfo {
    fn clone(&self) -> (r: Self)
        ensures
            r@ == self@,
    {
        ToolInfo {
            name: self.name.clone(),
            description: self.description.clone(),
            parameters: self.parameters.clone(),
        }
    }
}

/// A character allowed in a tool name: letters, digits, underscore, dash.
pub open spec fn tool_name_char_ok(c: char) -> bool {
    ('a' <= c && c <= 'z') || ('A' <= c && c <= 'Z') || ('0' <= c && c <= '9') || c == '_' || c
        == '-'
}

impl ToolInfo {
    /// The JSON-Schema text describing a function that accepts no parameters.
    pub open spec fn spec_empty_schema() -> Seq<char> {
        "{\"type\": \"object\", \"properties\": {}}"@
    }

    /// The well-formedness invariant of a tool name: the restricted charset,
    /// at most 64 characters.
    pub open spec fn name_ok(self) -> bool {
        &&& self@.name.len() <= 64
        &&& forall|i: int| 0 <= i < self@.name.len() ==> tool_name_char_ok(#[trigger] self@.name[i])
    }

    /// Checks the tool-name invariant at run time.
    pub fn check_name(&self) -> (r: bool)
        ensures
            r == self.name_ok(),
    {
        let n = self.name.as_str().unicode_len();
        if n > 64 {
            return false;
        }
        let mut i: usize = 0;
        while i < n
            invariant
                n == self@.name.len(),
                i <= n,
                forall|j: int| 0 <= j < i ==> tool_name_char_ok(#[trigger] self@.name[j]),
            decreases n - i,
        {
            let c = self.name.as_str().get_char(i);
            let ok = ('a' <= c && c <= 'z') || ('A' <= c && c <= 'Z') || ('0' <= c && c <= '9')
                || c == '_' || c == '-';
            if !ok {
                return false;
            }
            i = i + 1;
        }
        true
    }

    /// Builds a tool description; an omitted parameters schema defaults to
    /// the empty-object schema.
    pub fn new(name: String, description: String, parameters: Option<String>) -> (t: Self)
        ensures
            t@.name == name@,
            t@.description == description@,
            t@.parameters == match parameters {
                Some(p) => p@,
                None => Self::spec_empty_schema(),
            },
    {
        let parameters = match parameters {
            Some(p) => p,
            None => String::from_str("{\"type\": \"object\", \"properties\": {}}"),
        };
        ToolInfo { name, description, parameters }
    }
}

/// The basic parameters for a (possibly multi-turn) model call.
#[derive(Debug, PartialEq)]
pub struct CallBase {
    /// Short-form information describing the persona of the LLM.
    pub system: String,
    /// Task-specific instructions for the LLM.
    pub instructions: String,
    /// Descriptions of tools that may be used.
    pub tools: Vec<ToolInfo>,
    /// Sampling temperature in hundredths (100 stands for 1.0), if set.
    pub temperature: Option<u32>,
    /// The limit on generated tokens.
    pub max_tokens: usize,
}

/// Mathematical model of a [`CallBase`].
pub ghost struct CallBaseV {
    pub system: Seq<char>,
    pub instructions: Seq<char>,
    pub tools: Seq<ToolInfoV>,
    pub temperature: Option<u32>,
    pub max_tokens: int,
}

impl View for CallBase {
    type V = CallBaseV;

    open spec fn view(&self) -> CallBaseV {
        CallBaseV {
            system: self.system@,
            instructions: self.instructions@,
            tools: self.tools@.map_values(|t: ToolInfo| t@),
            temperature: self.temperature,
            max_tokens: self.max_tokens as int,
        }
    }
}

impl Clone for CallBase {
    fn clone(&self) -> (r: Self)
        ensures
            r@ == self@,
    {
        let mut tools: Vec<ToolInfo> = Vec::new();
        let mut i: usize = 0;
        while i < self.tools.len()
            invariant
                i <= self.tools.len(),
                tools@.len() == i,
                forall|j: int| 0 <= j < i ==> #[trigger] tools@[j]@ == self.tools@[j]@,
            decreases self.tools.len() - i,
        {
            tools.push(self.tools[i].clone());
            i = i + 1;
        }
        let r = CallBase {
            system: self.system.clone(),
            instructions: self.instructions.clone(),
            tools,
            temperature: self.temperature,
            max_tokens: self.max_tokens,
        };
        proof {
            assert(r@.tools =~= self@.tools);
        }
        r
    }
}

impl Default for CallBase {
    /// The default call parameters: empty texts, no tools, no temperature,
    /// and an output limit of 8192 tokens.
    fn default() -> (r: Self)
        ensures
            r@.system.len() == 0,
            r@.instructions.len() == 0,
            r@.tools.len() == 0,
            r@.temperature is None,
            r@.max_tokens == 8192,
    {
        let r = CallBase {
            system: String::new(),
            instructions: String::new(),
            tools: Vec::new(),
            temperature: None,
            max_tokens: 8192,
        };
        proof {
            assert(r@.tools =~= Seq::<ToolInfoV>::empty());
        }
        r
    }
}

/// The response from the model for generating a single turn.
#[derive(Debug, PartialEq)]
pub struct CallResp {
    /// A provider-specific unique ID for this model call.
    pub id: String,
    /// Identifier for the model which was called.
    pub model: String,
    /// The reason the model stopped generating tokens.
    pub finish_reason: FinishReason,
    /// The tokens the model generated.
    pub content: Turn,
}

/// Mathematical model of a [`CallResp`].
pub ghost struct CallRespV {
    pub id: Seq<char>,
    pub model: Seq<char>,
    pub finish_reason: FinishReason,
    pub content: TurnV,
}

impl View for CallResp {
    type V = CallRespV;

    open spec fn view(&self) -> CallRespV {
        CallRespV {
            id: self.id@,
            model: self.model@,
            finish_reason: self.finish_reason,
            content: self.content@,
        }
    }
}

impl CallResp {
    /// What every well-behaved model caller promises of a successful
    /// response: an assistant turn, well formed, that stopped either to end
    /// the answer or to request tools.
    pub open spec fn wf_model_output(self) -> bool {
        &&& self@.finish_reason == FinishReason::Stop || self@.finish_reason
            == FinishReason::ToolCalls
        &&& self@.content.role == Role::Assistant
        &&& self@.content.wf()
    }
}

} // verus!

