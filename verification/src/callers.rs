//! The single-call contract and the per-provider adapters.
//!
//! A [`ModelCaller`] performs exactly one request/response cycle. The
//! adapter types here own the pure halves of that cycle — building a wire
//! request out of call parameters and turns, and validating a wire response
//! into a [`CallResp`] — while the HTTP transport that carries the bytes
//! lives outside the library.

use vstd::prelude::*;
use vstd::string::StringExecFns;

use crate::data_model::{
    parse_finish_reason, parse_role, spec_anthropic_msgs_of_turn, spec_anthropic_tool,
    spec_oai_msgs_of_turn, spec_oai_tool, spec_parse_finish, spec_parse_role, spec_text_msg,
    AnthropicMessage, AnthropicMessageV, AnthropicRequest, AnthropicResponseV, AnthropicTool,
    OaiChatMessage, OaiChatMessageV, OaiRequest, OaiResponseV, OaiTool,
};
use crate::models::{AnthropicModel, Model, OpenAIModel, OpenrouterModel};
use crate::strutil::str_eq;
use crate::{
    CallBase, CallBaseV, CallErr, CallErrV, CallResp, CallRespV, FinishReason, Message, MessageV,
    Role, Turn, TurnV,
};

verus! {

/// A type which is able to make model calls.
///
/// A successful call always hands back a well-formed assistant turn that
/// stopped either to end the answer or to request tools; every implementor
/// is expected to validate its provider's response down to that shape.
pub trait ModelCaller: Sized {
    /// Performs a model call, returning the response from the model. This
    /// method is the workhorse of this trait.
    fn call(&mut self, params: CallBase, turns: Vec<Turn>) -> (r: Result<CallResp, CallErr>)
        requires
            forall|i: int| 0 <= i < turns@.len() ==> (#[trigger] turns@[i]).wf(),
        ensures
            r matches Ok(resp) ==> resp.wf_model_output(),
    ;

    /// Convenience method to prompt a model and get the response as a
    /// string: exactly one call of [`ModelCaller::call`], on an empty
    /// transcript, with the parameters [`single_turn_params`] pins — the
    /// prompt as the instructions, everything else at its default — and its
    /// outcome mapped by [`simple_answer`]: a backend error verbatim, the
    /// first text message of the resulting turn, or the no-message-content
    /// error when the turn does not begin with text. No retry either way.
    fn simple_call(&mut self, prompt: String) -> (r: Result<String, CallErr>) {
        simple_answer(self.call(single_turn_params(prompt), Vec::new()))
    }
}

/// The parameters of a convenience single-turn call: the prompt stands as
/// the task instructions, every other field at its default — no persona, no
/// tools, no temperature, an output limit of 8192 tokens.
pub fn single_turn_params(prompt: String) -> (r: CallBase)
    ensures
        r@.instructions == prompt@,
        r@.system.len() == 0,
        r@.tools.len() == 0,
        r@.temperature is None,
        r@.max_tokens == 8192,
{
    let mut params = CallBase::default();
    params.instructions = prompt;
    params
}

/// The answer a convenience single-turn call derives from one completion
/// attempt: a backend error is handed through verbatim; a response answers
/// with the text of its turn's first message, or fails with the
/// no-message-content error when that turn does not begin with text.
pub fn simple_answer(res: Result<CallResp, CallErr>) -> (r: Result<String, CallErr>)
    ensures
        match res {
            Ok(resp) => match r {
                Ok(t) => resp@.content.content.len() > 0 && resp@.content.content[0] == (
                MessageV::Text { text: t@ }),
                Err(e) => {
                    &&& resp@.content.content.len() == 0 || !resp@.content.content[0].is_text()
                    &&& e@ == CallErrV::Other("unexpected: no message content"@)
                },
            },
            Err(e0) => r matches Err(e) && e == e0,
        },
{
    match res {
        Ok(resp) => match resp.content.first_text() {
            Some(text) => Ok(text),
            None => Err(CallErr::Other(String::from_str("unexpected: no message content"))),
        },
        Err(e) => Err(e),
    }
}

/// The transport status rule: a non-2xx HTTP status fails the call with
/// `RequestFailed` carrying the status code and the raw response body; a
/// 2xx status is no error.
pub fn check_status(status: u16, body: String) -> (r: Result<(), CallErr>)
    ensures
        match r {
            Ok(u) => 200 <= status < 300,
            Err(e) => !(200 <= status < 300) && e@ == CallErrV::RequestFailed(status, body@),
        },
{
    if 200 <= status && status < 300 {
        Ok(())
    } else {
        Err(CallErr::RequestFailed(status, body))
    }
}

/// The system prompt a request carries: persona and instructions merged
/// into one text, with a blank line between them when both are present,
/// and nothing when both are empty.
pub open spec fn spec_sys_prompt(p: CallBaseV) -> Option<Seq<char>> {
    if p.system.len() > 0 && p.instructions.len() > 0 {
        Some(p.system + "\n\n"@ + p.instructions)
    } else if p.instructions.len() > 0 {
        Some(p.instructions)
    } else if p.system.len() > 0 {
        Some(p.system)
    } else {
        None
    }
}

/// Merges persona and instructions into the single text stanza expected by
/// chat-completions APIs.
fn merged_sys_prompt(params: &CallBase) -> (r: Option<String>)
    ensures
        match r {
            Some(s) => spec_sys_prompt(params@) == Some(s@),
            None => spec_sys_prompt(params@) is None,
        },
{
    let sys_empty = params.system.as_str().is_empty();
    let ins_empty = params.instructions.as_str().is_empty();
    if !sys_empty && !ins_empty {
        let mut s = params.system.clone();
        s.append("\n\n");
        s.append(params.instructions.as_str());
        Some(s)
    } else if !ins_empty {
        Some(params.instructions.clone())
    } else if !sys_empty {
        Some(params.system.clone())
    } else {
        None
    }
}

/// The concatenation of the wire messages of a sequence of turns, in order.
pub open spec fn spec_oai_wire_msgs(turns: Seq<TurnV>) -> Seq<OaiChatMessageV>
    decreases turns.len(),
{
    if turns.len() == 0 {
        Seq::empty()
    } else {
        spec_oai_msgs_of_turn(turns[0]) + spec_oai_wire_msgs(turns.drop_first())
    }
}

/// The concatenation of the messages-API wire messages of a sequence of
/// turns, in order.
pub open spec fn spec_anthropic_wire_msgs(turns: Seq<TurnV>) -> Seq<AnthropicMessageV>
    decreases turns.len(),
{
    if turns.len() == 0 {
        Seq::empty()
    } else {
        spec_anthropic_msgs_of_turn(turns[0]) + spec_anthropic_wire_msgs(turns.drop_first())
    }
}

/// Flattens the turns into chat-completions wire messages, appended to the
/// given head messages.
fn push_oai_wire_msgs(out: &mut Vec<OaiChatMessage>, turns: &Vec<Turn>)
    requires
        forall|i: int| 0 <= i < turns@.len() ==> (#[trigger] turns@[i]).wf(),
    ensures
        final(out)@.map_values(|m: OaiChatMessage| m@) == old(out)@.map_values(
            |m: OaiChatMessage| m@,
        ) + spec_oai_wire_msgs(turns@.map_values(|t: Turn| t@)),
{
    let ghost all = turns@.map_values(|t: Turn| t@);
    let ghost head = out@.map_values(|m: OaiChatMessage| m@);
    let mut i: usize = 0;
    proof {
        assert(all.skip(0) =~= all);
    }
    while i < turns.len()
        invariant
            forall|p: int| 0 <= p < turns@.len() ==> (#[trigger] turns@[p]).wf(),
            all == turns@.map_values(|t: Turn| t@),
            i <= turns@.len(),
            head + spec_oai_wire_msgs(all) =~= out@.map_values(|m: OaiChatMessage| m@)
                + spec_oai_wire_msgs(all.skip(i as int)),
        decreases turns.len() - i,
    {
        let mut msgs = turns[i].into_oai_msgs();
        proof {
            assert(all.skip(i as int)[0] == all[i as int]);
            assert(all.skip(i as int).drop_first() =~= all.skip(i + 1 as int));
            assert(all[i as int] == turns@[i as int]@);
        }
        out.append(&mut msgs);
        i = i + 1;
    }
    proof {
        assert(all.skip(turns@.len() as int) =~= Seq::<TurnV>::empty());
        assert(head + spec_oai_wire_msgs(all) =~= out@.map_values(|m: OaiChatMessage| m@));
    }
}

/// Flattens the turns into messages-API wire messages, appended to the
/// given head messages.
fn push_anthropic_wire_msgs(out: &mut Vec<AnthropicMessage>, turns: &Vec<Turn>)
    requires
        forall|i: int| 0 <= i < turns@.len() ==> (#[trigger] turns@[i]).wf(),
    ensures
        final(out)@.map_values(|m: AnthropicMessage| m@) == old(out)@.map_values(
            |m: AnthropicMessage| m@,
        ) + spec_anthropic_wire_msgs(turns@.map_values(|t: Turn| t@)),
{
    let ghost all = turns@.map_values(|t: Turn| t@);
    let ghost head = out@.map_values(|m: AnthropicMessage| m@);
    let mut i: usize = 0;
    proof {
        assert(all.skip(0) =~= all);
    }
    while i < turns.len()
        invariant
            forall|p: int| 0 <= p < turns@.len() ==> (#[trigger] turns@[p]).wf(),
            all == turns@.map_values(|t: Turn| t@),
            i <= turns@.len(),
            head + spec_anthropic_wire_msgs(all) =~= out@.map_values(|m: AnthropicMessage| m@)
                + spec_anthropic_wire_msgs(all.skip(i as int)),
        decreases turns.len() - i,
    {
        let mut msgs = turns[i].into_anthropic_msgs();
        proof {
            assert(all.skip(i as int)[0] == all[i as int]);
            assert(all.skip(i as int).drop_first() =~= all.skip(i + 1 as int));
            assert(all[i as int] == turns@[i as int]@);
        }
        out.append(&mut msgs);
        i = i + 1;
    }
    proof {
        assert(all.skip(turns@.len() as int) =~= Seq::<TurnV>::empty());
        assert(head + spec_anthropic_wire_msgs(all) =~= out@.map_values(
            |m: AnthropicMessage| m@,
        ));
    }
}

/// Translates the declared tools into the chat-completions shape.
fn oai_tools_of(params: &CallBase) -> (out: Vec<OaiTool>)
    ensures
        out@.map_values(|t: OaiTool| t@) == params@.tools.map_values(
            |t: crate::ToolInfoV| spec_oai_tool(t),
        ),
{
    let mut out: Vec<OaiTool> = Vec::new();
    let mut i: usize = 0;
    while i < params.tools.len()
        invariant
            i <= params.tools@.len(),
            out@.len() == i,
            forall|j: int|
                0 <= j < i ==> #[trigger] out@[j]@ == spec_oai_tool(params.tools@[j]@),
        decreases params.tools.len() - i,
    {
        out.push(params.tools[i].to_oai_tool());
        i = i + 1;
    }
    proof {
        assert(out@.map_values(|t: OaiTool| t@) =~= params@.tools.map_values(
            |t: crate::ToolInfoV| spec_oai_tool(t),
        ));
    }
    out
}

/// Translates the declared tools into the messages-API shape.
fn anthropic_tools_of(params: &CallBase) -> (out: Vec<AnthropicTool>)
    ensures
        out@.map_values(|t: AnthropicTool| t@) == params@.tools.map_values(
            |t: crate::ToolInfoV| spec_anthropic_tool(t),
        ),
{
    let mut out: Vec<AnthropicTool> = Vec::new();
    let mut i: usize = 0;
    while i < params.tools.len()
        invariant
            i <= params.tools@.len(),
            out@.len() == i,
            forall|j: int|
                0 <= j < i ==> #[trigger] out@[j]@ == spec_anthropic_tool(params.tools@[j]@),
        decreases params.tools.len() - i,
    {
        out.push(params.tools[i].to_anthropic_tool());
        i = i + 1;
    }
    proof {
        assert(out@.map_values(|t: AnthropicTool| t@) =~= params@.tools.map_values(
            |t: crate::ToolInfoV| spec_anthropic_tool(t),
        ));
    }
    out
}

/// Builds a chat-completions request: the merged system prompt first, the
/// flattened turns after it, tools declared and automatic tool choice
/// selected exactly when tools are present.
fn build_oai_request(
    model_str: String,
    sys_msg: Option<OaiChatMessage>,
    params: &CallBase,
    turns: &Vec<Turn>,
) -> (r: OaiRequest)
    requires
        forall|i: int| 0 <= i < turns@.len() ==> (#[trigger] turns@[i]).wf(),
    ensures
        r.model@ == model_str@,
        r.temperature == params.temperature,
        r.max_tokens == params.max_tokens,
        r.tools@.map_values(|t: OaiTool| t@) == params@.tools.map_values(
            |t: crate::ToolInfoV| spec_oai_tool(t),
        ),
        r.tool_choice_auto == (params@.tools.len() > 0),
        r.messages@.map_values(|m: OaiChatMessage| m@) == (match sys_msg {
            Some(m) => seq![m@],
            None => Seq::<OaiChatMessageV>::empty(),
        }) + spec_oai_wire_msgs(turns@.map_values(|t: Turn| t@)),
{
    let mut messages: Vec<OaiChatMessage> = Vec::new();
    match sys_msg {
        Some(m) => {
            messages.push(m);
        },
        None => {},
    }
    push_oai_wire_msgs(&mut messages, turns);
    let tools = oai_tools_of(params);
    let tool_choice_auto = params.tools.len() > 0;
    OaiRequest {
        model: model_str,
        temperature: params.temperature,
        max_tokens: params.max_tokens,
        messages,
        tools,
        tool_choice_auto,
    }
}

/// The assistant turn a chat-completions response message denotes: its
/// text, if any, followed by its tool calls in order.
pub open spec fn spec_turn_of_oai_msg(m: crate::data_model::OaiRespMessageV) -> TurnV {
    TurnV {
        role: Role::Assistant,
        content: (match m.content {
            Some(t) => seq![(MessageV::Text { text: t })],
            None => Seq::<MessageV>::empty(),
        }) + m.tool_calls.map_values(
            |c: crate::data_model::OaiToolCallV| MessageV::ToolCall {
                id: c.id,
                name: c.name,
                arguments: c.arguments,
            },
        ),
    }
}

/// What validating a chat-completions response yields, once the envelope
/// discriminator has been accepted: no choices fail as `NoCompletions`; an
/// unknown finish term is a deserialization error; a finish reason other
/// than stopping or requesting tools is refused; a role other than the
/// assistant is refused; otherwise the first choice becomes the response,
/// with the request's model id standing in when the reply names none.
pub open spec fn spec_oai_checked(v: OaiResponseV, fallback: Seq<char>) -> Result<
    CallRespV,
    CallErrV,
> {
    if v.choices.len() == 0 {
        Err(CallErrV::NoCompletions)
    } else {
        let c = v.choices[0];
        match spec_parse_finish(c.finish_reason) {
            None => Err(CallErrV::Api("unrecognized finish reason: "@ + c.finish_reason)),
            Some(fr) => if fr != FinishReason::Stop && fr != FinishReason::ToolCalls {
                Err(CallErrV::Other("unexpected finish reason: "@ + c.finish_reason))
            } else if spec_parse_role(c.message.role) != Some(Role::Assistant) {
                Err(CallErrV::Other("unexpected value for 'role': "@ + c.message.role))
            } else {
                Ok(
                    CallRespV {
                        id: v.id,
                        model: if v.model.len() == 0 {
                            fallback
                        } else {
                            v.model
                        },
                        finish_reason: fr,
                        content: spec_turn_of_oai_msg(c.message),
                    },
                )
            },
        }
    }
}

/// What validating a chat-completions response yields: an envelope whose
/// `object` field is present but not the expected literal is refused,
/// citing the value; everything else is checked as [`spec_oai_checked`].
pub open spec fn spec_oai_outcome(v: OaiResponseV, fallback: Seq<char>) -> Result<
    CallRespV,
    CallErrV,
> {
    match v.object {
        Some(o) => if o != "chat.completion"@ {
            Err(CallErrV::Other("unexpected value for 'object': "@ + o))
        } else {
            spec_oai_checked(v, fallback)
        },
        None => spec_oai_checked(v, fallback),
    }
}

/// Validates a chat-completions response into a [`CallResp`], per
/// [`spec_oai_outcome`].
fn oai_validate(resp: crate::data_model::OaiResponse, fallback_model: String) -> (r: Result<
    CallResp,
    CallErr,
>)
    ensures
        match (r, spec_oai_outcome(resp@, fallback_model@)) {
            (Ok(a), Ok(b)) => a@ == b && a.wf_model_output(),
            (Err(a), Err(b)) => a@ == b,
            _ => false,
        },
{
    let ghost v = resp@;
    let crate::data_model::OaiResponse { id, model, object, mut choices } = resp;
    match &object {
        Some(o) => {
            if !str_eq(o.as_str(), "chat.completion") {
                let mut msg = String::from_str("unexpected value for 'object': ");
                msg.append(o.as_str());
                return Err(CallErr::Other(msg));
            }
        },
        None => {},
    }
    if choices.len() == 0 {
        return Err(CallErr::NoCompletions);
    }
    let c = choices.remove(0);
    proof {
        assert(c@ == v.choices[0]);
    }
    let fr = match parse_finish_reason(c.finish_reason.as_str()) {
        None => {
            let mut msg = String::from_str("unrecognized finish reason: ");
            msg.append(c.finish_reason.as_str());
            return Err(CallErr::Api(msg));
        },
        Some(fr) => fr,
    };
    match fr {
        FinishReason::Stop | FinishReason::ToolCalls => {},
        _ => {
            let mut msg = String::from_str("unexpected finish reason: ");
            msg.append(c.finish_reason.as_str());
            return Err(CallErr::Other(msg));
        },
    }
    let role_ok = match parse_role(c.message.role.as_str()) {
        Some(Role::Assistant) => true,
        _ => false,
    };
    if !role_ok {
        let mut msg = String::from_str("unexpected value for 'role': ");
        msg.append(c.message.role.as_str());
        return Err(CallErr::Other(msg));
    }
    let msg = c.message;
    let mut content: Vec<Message> = Vec::new();
    match msg.content {
        Some(text) => {
            content.push(Message::Text { text });
            proof {
                assert(content@.map_values(|m: Message| m@) =~= seq![
                    (MessageV::Text { text: v.choices[0].message.content->0 }),
                ]);
            }
        },
        None => {
            proof {
                assert(content@.map_values(|m: Message| m@) =~= Seq::<MessageV>::empty());
            }
        },
    }
    let ghost head = content@.map_values(|m: Message| m@);
    proof {
        assert(head == (match v.choices[0].message.content {
            Some(t) => seq![(MessageV::Text { text: t })],
            None => Seq::<MessageV>::empty(),
        }));
        assert(content@.map_values(|m: Message| m@).take(head.len() as int) =~= head);
    }
    let mut i: usize = 0;
    while i < msg.tool_calls.len()
        invariant
            content@.len() == head.len() + i,
            i <= msg.tool_calls@.len(),
            content@.map_values(|m: Message| m@).take(head.len() as int) == head,
            forall|j: int|
                0 <= j < i ==> #[trigger] content@[head.len() + j]@ == (MessageV::ToolCall {
                    id: msg.tool_calls@[j]@.id,
                    name: msg.tool_calls@[j]@.name,
                    arguments: msg.tool_calls@[j]@.arguments,
                }),
        decreases msg.tool_calls.len() - i,
    {
        let tc = &msg.tool_calls[i];
        content.push(
            Message::ToolCall {
                id: tc.id.clone(),
                name: tc.name.clone(),
                arguments: tc.arguments.clone(),
            },
        );
        proof {
            assert(content@.map_values(|m: Message| m@).take(head.len() as int) =~= head);
        }
        i = i + 1;
    }
    let turn = Turn { role: Role::Assistant, content };
    proof {
        let spec_content = spec_turn_of_oai_msg(v.choices[0].message).content;
        assert(turn@.content.len() == content@.len());
        assert(v.choices[0].message.tool_calls.len() == msg.tool_calls@.len());
        assert(spec_content.len() == head.len() + msg.tool_calls@.len());
        assert(turn@.content.len() == spec_content.len());
        assert forall|p: int| 0 <= p < head.len() implies turn@.content[p] == spec_content[p] by {
            assert(turn@.content.take(head.len() as int)[p] == turn@.content[p]);
            assert(turn@.content[p] == head[p]);
        }
        assert forall|p: int|
            head.len() <= p < spec_content.len() implies turn@.content[p] == spec_content[p] by {
            let j = p - head.len();
            assert(content@[head.len() + j]@ == (MessageV::ToolCall {
                id: msg.tool_calls@[j]@.id,
                name: msg.tool_calls@[j]@.name,
                arguments: msg.tool_calls@[j]@.arguments,
            }));
            assert(v.choices[0].message.tool_calls[j] == msg.tool_calls@[j]@);
        }
        assert(turn@.content =~= spec_turn_of_oai_msg(v.choices[0].message).content);
        assert(turn@ == spec_turn_of_oai_msg(v.choices[0].message));
        assert forall|p: int, q: int|
            0 <= p < q < turn@.content.len() && #[trigger] turn@.content[p].is_tool_call()
                implies #[trigger] turn@.content[q].is_tool_call() by {
            assert(head.len() <= 1);
        }
        assert(turn.wf());
    }
    let model = if model.as_str().is_empty() {
        fallback_model
    } else {
        model
    };
    Ok(CallResp { id, model, finish_reason: fr, content: turn })
}

/// Holds of messages-API content that can stand as an assistant turn: no
/// tool-result block, and no text after a tool-use block, so that the turn
/// invariant — text first, tool calls after — carries over.
pub open spec fn spec_blocks_ok(blocks: Seq<crate::data_model::AnthropicBlockV>) -> bool {
    &&& forall|i: int|
        0 <= i < blocks.len() ==> !((#[trigger] blocks[i]) is ToolResult)
    &&& forall|i: int, j: int|
        0 <= i < j < blocks.len() && (#[trigger] blocks[i]) is ToolUse ==> (
        #[trigger] blocks[j]) is ToolUse
}

/// The conversation message a messages-API content block denotes.
pub open spec fn spec_msg_of_block(b: crate::data_model::AnthropicBlockV) -> MessageV {
    match b {
        crate::data_model::AnthropicBlockV::Text { text } => MessageV::Text { text },
        crate::data_model::AnthropicBlockV::ToolUse { id, name, input } => MessageV::ToolCall {
            id,
            name,
            arguments: input,
        },
        crate::data_model::AnthropicBlockV::ToolResult { tool_use_id, content } => (
        MessageV::ToolResult { id: tool_use_id, result: content }),
    }
}

/// The assistant turn a messages-API response denotes.
pub open spec fn spec_turn_of_blocks(blocks: Seq<crate::data_model::AnthropicBlockV>) -> TurnV {
    TurnV {
        role: Role::Assistant,
        content: blocks.map_values(|b: crate::data_model::AnthropicBlockV| spec_msg_of_block(b)),
    }
}

/// What validating a messages-API response yields, once the envelope
/// discriminators have been accepted: an unknown stop term is a
/// deserialization error; a stop reason other than ending the turn or
/// requesting tools is refused; content that cannot stand as an assistant
/// turn is refused; otherwise the content becomes the response, with the
/// request's model id standing in when the reply names none.
pub open spec fn spec_anthropic_checked(v: AnthropicResponseV, fallback: Seq<char>) -> Result<
    CallRespV,
    CallErrV,
> {
    match spec_parse_finish(v.stop_reason) {
        None => Err(CallErrV::Api("unrecognized finish reason: "@ + v.stop_reason)),
        Some(fr) => if fr != FinishReason::Stop && fr != FinishReason::ToolCalls {
            Err(CallErrV::Other("unexpected finish reason: "@ + v.stop_reason))
        } else if !spec_blocks_ok(v.content) {
            Err(CallErrV::Other("unexpected content block in assistant message"@))
        } else {
            Ok(
                CallRespV {
                    id: v.id,
                    model: if v.model.len() == 0 {
                        fallback
                    } else {
                        v.model
                    },
                    finish_reason: fr,
                    content: spec_turn_of_blocks(v.content),
                },
            )
        },
    }
}

/// What validating a messages-API response yields after its `role`
/// discriminator is checked: a present role other than `assistant` is
/// refused, citing the value.
pub open spec fn spec_anthropic_role_checked(v: AnthropicResponseV, fallback: Seq<char>) -> Result<
    CallRespV,
    CallErrV,
> {
    match v.role {
        Some(ro) => if ro != "assistant"@ {
            Err(CallErrV::Other("unexpected value for 'role': "@ + ro))
        } else {
            spec_anthropic_checked(v, fallback)
        },
        None => spec_anthropic_checked(v, fallback),
    }
}

/// What validating a messages-API response yields: an envelope whose
/// `object` field is present but not the expected literal is refused,
/// citing the value; then the role is checked, then the rest.
pub open spec fn spec_anthropic_outcome(v: AnthropicResponseV, fallback: Seq<char>) -> Result<
    CallRespV,
    CallErrV,
> {
    match v.object {
        Some(o) => if o != "message"@ {
            Err(CallErrV::Other("unexpected value for 'object': "@ + o))
        } else {
            spec_anthropic_role_checked(v, fallback)
        },
        None => spec_anthropic_role_checked(v, fallback),
    }
}

/// Checks that messages-API content can stand as an assistant turn.
fn blocks_ok(blocks: &Vec<crate::data_model::AnthropicBlock>) -> (r: bool)
    ensures
        r == spec_blocks_ok(blocks@.map_values(|b: crate::data_model::AnthropicBlock| b@)),
{
    let ghost bs = blocks@.map_values(|b: crate::data_model::AnthropicBlock| b@);
    let mut seen_tool_use: bool = false;
    let mut i: usize = 0;
    while i < blocks.len()
        invariant
            bs == blocks@.map_values(|b: crate::data_model::AnthropicBlock| b@),
            i <= bs.len(),
            forall|p: int| 0 <= p < i ==> !((#[trigger] bs[p]) is ToolResult),
            forall|p: int, q: int|
                0 <= p < q < i && (#[trigger] bs[p]) is ToolUse ==> (#[trigger] bs[q]) is ToolUse,
            seen_tool_use <==> exists|p: int| 0 <= p < i && (#[trigger] bs[p]) is ToolUse,
            seen_tool_use ==> i > 0 && bs[i - 1] is ToolUse,
        decreases blocks.len() - i,
    {
        proof {
            assert(bs[i as int] == blocks@[i as int]@);
        }
        match &blocks[i] {
            crate::data_model::AnthropicBlock::ToolResult { .. } => {
                return false;
            },
            crate::data_model::AnthropicBlock::ToolUse { .. } => {
                seen_tool_use = true;
            },
            crate::data_model::AnthropicBlock::Text { .. } => {
                if seen_tool_use {
                    proof {
                        let p = choose|p: int| 0 <= p < i && (#[trigger] bs[p]) is ToolUse;
                        assert(bs[p] is ToolUse && !(bs[i as int] is ToolUse));
                    }
                    return false;
                }
            },
        }
        i = i + 1;
    }
    true
}

/// Validates a messages-API response into a [`CallResp`], per
/// [`spec_anthropic_outcome`].
fn anthropic_validate(resp: crate::data_model::AnthropicResponse, fallback_model: String) -> (r:
    Result<CallResp, CallErr>)
    ensures
        match (r, spec_anthropic_outcome(resp@, fallback_model@)) {
            (Ok(a), Ok(b)) => a@ == b && a.wf_model_output(),
            (Err(a), Err(b)) => a@ == b,
            _ => false,
        },
{
    let ghost v = resp@;
    let crate::data_model::AnthropicResponse { id, model, object, role, stop_reason, content } =
        resp;
    match &object {
        Some(o) => {
            if !str_eq(o.as_str(), "message") {
                let mut msg = String::from_str("unexpected value for 'object': ");
                msg.append(o.as_str());
                return Err(CallErr::Other(msg));
            }
        },
        None => {},
    }
    match &role {
        Some(ro) => {
            if !str_eq(ro.as_str(), "assistant") {
                let mut msg = String::from_str("unexpected value for 'role': ");
                msg.append(ro.as_str());
                return Err(CallErr::Other(msg));
            }
        },
        None => {},
    }
    let fr = match parse_finish_reason(stop_reason.as_str()) {
        None => {
            let mut msg = String::from_str("unrecognized finish reason: ");
            msg.append(stop_reason.as_str());
            return Err(CallErr::Api(msg));
        },
        Some(fr) => fr,
    };
    match fr {
        FinishReason::Stop | FinishReason::ToolCalls => {},
        _ => {
            let mut msg = String::from_str("unexpected finish reason: ");
            msg.append(stop_reason.as_str());
            return Err(CallErr::Other(msg));
        },
    }
    if !blocks_ok(&content) {
        return Err(
            CallErr::Other(String::from_str("unexpected content block in assistant message")),
        );
    }
    let mut msgs: Vec<Message> = Vec::new();
    let mut i: usize = 0;
    while i < content.len()
        invariant
            i <= content@.len(),
            msgs@.len() == i,
            forall|j: int|
                0 <= j < i ==> #[trigger] msgs@[j]@ == spec_msg_of_block(content@[j]@),
        decreases content.len() - i,
    {
        let m = match &content[i] {
            crate::data_model::AnthropicBlock::Text { text } => Message::Text {
                text: text.clone(),
            },
            crate::data_model::AnthropicBlock::ToolUse { id, name, input } => Message::ToolCall {
                id: id.clone(),
                name: name.clone(),
                arguments: input.clone(),
            },
            crate::data_model::AnthropicBlock::ToolResult { tool_use_id, content } => (
            Message::ToolResult { id: tool_use_id.clone(), result: content.clone() }),
        };
        msgs.push(m);
        i = i + 1;
    }
    let turn = Turn { role: Role::Assistant, content: msgs };
    proof {
        let ghost bs = v.content;
        assert(turn@.content =~= spec_turn_of_blocks(bs).content) by {
            assert forall|p: int| 0 <= p < turn@.content.len() implies turn@.content[p]
                == spec_msg_of_block(bs[p]) by {
                assert(msgs@[p]@ == spec_msg_of_block(content@[p]@));
                assert(content@[p]@ == bs[p]);
            }
        }
        assert(turn@ == spec_turn_of_blocks(bs));
        assert(spec_blocks_ok(bs));
        assert(turn.wf()) by {
            assert forall|p: int|
                0 <= p < turn@.content.len() implies (#[trigger] turn@.content[p]).is_text()
                    || turn@.content[p].is_tool_call() by {
                assert(turn@.content[p] == spec_msg_of_block(bs[p]));
                assert(!(bs[p] is ToolResult));
            }
            assert forall|p: int, q: int|
                0 <= p < q < turn@.content.len() && #[trigger] turn@.content[p].is_tool_call()
                    implies #[trigger] turn@.content[q].is_tool_call() by {
                assert(turn@.content[p] == spec_msg_of_block(bs[p]));
                assert(turn@.content[q] == spec_msg_of_block(bs[q]));
                assert(bs[p] is ToolUse);
            }
        }
    }
    let model = if model.as_str().is_empty() {
        fallback_model
    } else {
        model
    };
    Ok(CallResp { id, model, finish_reason: fr, content: turn })
}

/// A caller that talks to a model accessible via Openrouter.
///
/// Holds the pure halves of the call cycle; the HTTP transport that posts
/// the request and the key read from the environment live with the code
/// that runs the call.
#[derive(Debug)]
pub struct Openrouter<M: OpenrouterModel> {
    /// The model the requests name.
    pub model: M,
    /// The bearer token, when given explicitly.
    pub api_key: Option<String>,
}

impl<M: OpenrouterModel> Openrouter<M> {
    /// Builds the chat-completions request for one call: the merged system
    /// prompt under the model's prompt role, then the flattened turns;
    /// tools declared and automatic tool choice selected exactly when the
    /// parameters carry tools.
    pub fn build_request(&self, params: &CallBase, turns: &Vec<Turn>) -> (r: OaiRequest)
        requires
            forall|i: int| 0 <= i < turns@.len() ==> (#[trigger] turns@[i]).wf(),
        ensures
            r.model@ == self.model.spec_model_str(),
            r.temperature == params.temperature,
            r.max_tokens == params.max_tokens,
            r.tools@.map_values(|t: OaiTool| t@) == params@.tools.map_values(
                |t: crate::ToolInfoV| spec_oai_tool(t),
            ),
            r.tool_choice_auto == (params@.tools.len() > 0),
            r.messages@.map_values(|m: OaiChatMessage| m@) == (match spec_sys_prompt(params@) {
                Some(p) => seq![spec_text_msg(self.model.spec_prompt_role(), p)],
                None => Seq::<OaiChatMessageV>::empty(),
            }) + spec_oai_wire_msgs(turns@.map_values(|t: Turn| t@)),
    {
        let sys_msg = match merged_sys_prompt(params) {
            Some(p) => Some(self.model.make_prompt(p)),
            None => None,
        };
        build_oai_request(self.model.model_str(), sys_msg, params, turns)
    }

    /// Validates a chat-completions response into a [`CallResp`], with this
    /// model's wire identifier standing in when the reply names no model.
    pub fn handle_response(&self, resp: crate::data_model::OaiResponse) -> (r: Result<
        CallResp,
        CallErr,
    >)
        ensures
            match (r, spec_oai_outcome(resp@, self.model.spec_model_str())) {
                (Ok(a), Ok(b)) => a@ == b && a.wf_model_output(),
                (Err(a), Err(b)) => a@ == b,
                _ => false,
            },
    {
        oai_validate(resp, self.model.model_str())
    }
}

/// A caller that talks to a model via OpenAI's chat completions API.
///
/// Holds the pure halves of the call cycle; the HTTP transport that posts
/// the request and the key read from the environment live with the code
/// that runs the call.
#[derive(Debug)]
pub struct Openai<M: OpenAIModel> {
    /// The model the requests name.
    pub model: M,
    /// The bearer token, when given explicitly.
    pub api_key: Option<String>,
}

impl<M: OpenAIModel> Openai<M> {
    /// Builds the chat-completions request for one call, as
    /// [`Openrouter::build_request`] does.
    pub fn build_request(&self, params: &CallBase, turns: &Vec<Turn>) -> (r: OaiRequest)
        requires
            forall|i: int| 0 <= i < turns@.len() ==> (#[trigger] turns@[i]).wf(),
        ensures
            r.model@ == OpenAIModel::spec_model_str(&self.model),
            r.temperature == params.temperature,
            r.max_tokens == params.max_tokens,
            r.tools@.map_values(|t: OaiTool| t@) == params@.tools.map_values(
                |t: crate::ToolInfoV| spec_oai_tool(t),
            ),
            r.tool_choice_auto == (params@.tools.len() > 0),
            r.messages@.map_values(|m: OaiChatMessage| m@) == (match spec_sys_prompt(params@) {
                Some(p) => seq![spec_text_msg(self.model.spec_prompt_role(), p)],
                None => Seq::<OaiChatMessageV>::empty(),
            }) + spec_oai_wire_msgs(turns@.map_values(|t: Turn| t@)),
    {
        let sys_msg = match merged_sys_prompt(params) {
            Some(p) => Some(self.model.make_prompt(p)),
            None => None,
        };
        build_oai_request(OpenAIModel::model_str(&self.model), sys_msg, params, turns)
    }

    /// Validates a chat-completions response into a [`CallResp`], with this
    /// model's wire identifier standing in when the reply names no model.
    pub fn handle_response(&self, resp: crate::data_model::OaiResponse) -> (r: Result<
        CallResp,
        CallErr,
    >)
        ensures
            match (r, spec_oai_outcome(resp@, OpenAIModel::spec_model_str(&self.model))) {
                (Ok(a), Ok(b)) => a@ == b && a.wf_model_output(),
                (Err(a), Err(b)) => a@ == b,
                _ => false,
            },
    {
        oai_validate(resp, OpenAIModel::model_str(&self.model))
    }
}

/// A caller that talks to a model via Anthropic's public messages API.
///
/// Holds the pure halves of the call cycle; the HTTP transport that posts
/// the request and the key read from the environment live with the code
/// that runs the call.
#[derive(Debug)]
pub struct Anthropic<M: AnthropicModel> {
    /// The model the requests name.
    pub model: M,
    /// The output-token limit of each request; 8192 when unset.
    pub max_tokens: Option<usize>,
    /// The API key, when given explicitly.
    pub api_key: Option<String>,
}

impl<M: AnthropicModel> Anthropic<M> {
    /// Builds the messages-API request for one call: the instructions as a
    /// leading user message when present, then the flattened turns; the
    /// persona in the dedicated `system` field when present; tools declared
    /// and automatic tool choice selected exactly when the parameters carry
    /// tools.
    pub fn build_request(&self, params: &CallBase, turns: &Vec<Turn>) -> (r: AnthropicRequest)
        requires
            forall|i: int| 0 <= i < turns@.len() ==> (#[trigger] turns@[i]).wf(),
        ensures
            r.model@ == AnthropicModel::spec_model_str(&self.model),
            r.temperature == params.temperature,
            r.max_tokens == (match self.max_tokens {
                Some(m) => m,
                None => 8192,
            }),
            match r.system {
                Some(s) => params@.system.len() > 0 && s@ == params@.system,
                None => params@.system.len() == 0,
            },
            r.tools@.map_values(|t: AnthropicTool| t@) == params@.tools.map_values(
                |t: crate::ToolInfoV| spec_anthropic_tool(t),
            ),
            r.tool_choice_auto == (params@.tools.len() > 0),
            r.messages@.map_values(|m: AnthropicMessage| m@) == (if params@.instructions.len()
                > 0 {
                seq![
                    (AnthropicMessageV {
                        role: Role::User,
                        content: seq![
                            (crate::data_model::AnthropicBlockV::Text {
                                text: params@.instructions,
                            }),
                        ],
                    }),
                ]
            } else {
                Seq::<AnthropicMessageV>::empty()
            }) + spec_anthropic_wire_msgs(turns@.map_values(|t: Turn| t@)),
    {
        let mut messages: Vec<AnthropicMessage> = Vec::new();
        if !params.instructions.as_str().is_empty() {
            let mut blocks: Vec<crate::data_model::AnthropicBlock> = Vec::new();
            blocks.push(
                crate::data_model::AnthropicBlock::Text { text: params.instructions.clone() },
            );
            let m = AnthropicMessage { role: Role::User, content: blocks };
            proof {
                assert(m@.content =~= seq![
                    (crate::data_model::AnthropicBlockV::Text { text: params@.instructions }),
                ]);
            }
            messages.push(m);
        }
        push_anthropic_wire_msgs(&mut messages, turns);
        let system = if params.system.as_str().is_empty() {
            None
        } else {
            Some(params.system.clone())
        };
        let max_tokens = match self.max_tokens {
            Some(m) => m,
            None => 8192,
        };
        let tools = anthropic_tools_of(params);
        let tool_choice_auto = params.tools.len() > 0;
        AnthropicRequest {
            model: AnthropicModel::model_str(&self.model),
            temperature: params.temperature,
            max_tokens,
            system,
            messages,
            tools,
            tool_choice_auto,
        }
    }

    /// Validates a messages-API response into a [`CallResp`], with this
    /// model's wire identifier standing in when the reply names no model.
    pub fn handle_response(&self, resp: crate::data_model::AnthropicResponse) -> (r: Result<
        CallResp,
        CallErr,
    >)
        ensures
            match (r, spec_anthropic_outcome(resp@, AnthropicModel::spec_model_str(&self.model))) {
                (Ok(a), Ok(b)) => a@ == b && a.wf_model_output(),
                (Err(a), Err(b)) => a@ == b,
                _ => false,
            },
    {
        anthropic_validate(resp, AnthropicModel::model_str(&self.model))
    }
}

} // verus!
