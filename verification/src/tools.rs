//! Tool-calling scaffolding: the bounded tool-dispatch loop.
//!
//! A [`ToolsSession`] drives a multi-turn conversation: it calls its
//! backend, and as long as the model answers by requesting tools, it runs
//! the registered handlers and feeds their results back, up to a fixed
//! iteration cap.

use vstd::pervasive::unreached;
use vstd::prelude::*;
use vstd::string::StringExecFns;

use crate::callers::ModelCaller;
use crate::data_model::{first_call_index, lemma_first_call_index_is, msg_is_text};
use crate::strutil::str_eq;
use crate::{
    CallBase, CallErr, CallErrV, CallResp, FinishReason, Message, MessageV, Role, ToolInfo,
    ToolInfoV, Turn, TurnV,
};

verus! {

/// The fixed cap on model calls in one session invocation: the only bound
/// against unbounded tool-calling loops.
pub const MAX_TOOL_ITER: usize = 12;

/// A function usable in a [`ToolsSession`]: it is run each time the model
/// requests the tool it was registered under, with the model's argument
/// string, and its result is handed back to the model.
pub trait ToolHandler: Sized {
    /// Runs the tool on the given arguments.
    fn run(&mut self, args: String) -> String;
}

/// The action the tool-dispatch loop takes after one completion attempt,
/// mirroring the loop's states: a terminal success, a round of tool
/// dispatch, or a terminal failure.
#[derive(Debug, PartialEq)]
pub enum LoopStep {
    /// The loop is done; this response is its result.
    Done(CallResp),
    /// The response requests tools: dispatch them and call the model again.
    DispatchTools(CallResp),
    /// The loop failed; this error is its result.
    Failed(CallErr),
}

/// The loop's decision on one completion attempt, given the last good
/// response if one exists: a response that stopped ends the loop with that
/// response; one that requests tools is dispatched; an empty completion
/// falls back to the last good response, and is fatal without one; any
/// other error is terminal, verbatim.
pub fn loop_step(res: Result<CallResp, CallErr>, last: Option<CallResp>) -> (s: LoopStep)
    requires
        res matches Ok(resp) ==> resp@.finish_reason == FinishReason::Stop || resp@.finish_reason
            == FinishReason::ToolCalls,
    ensures
        match res {
            Ok(resp) => if resp@.finish_reason == FinishReason::Stop {
                s == LoopStep::Done(resp)
            } else {
                s == LoopStep::DispatchTools(resp)
            },
            Err(e) => match e {
                CallErr::NoCompletions => match last {
                    Some(lr) => s == LoopStep::Done(lr),
                    None => s == LoopStep::Failed(e),
                },
                _ => s == LoopStep::Failed(e),
            },
        },
{
    match res {
        Ok(resp) => match resp.finish_reason {
            FinishReason::Stop => LoopStep::Done(resp),
            FinishReason::ToolCalls => LoopStep::DispatchTools(resp),
            _ => {
                proof {
                    assert(false);
                }
                unreached()
            },
        },
        Err(e) => match e {
            CallErr::NoCompletions => match last {
                Some(lr) => LoopStep::Done(lr),
                None => LoopStep::Failed(CallErr::NoCompletions),
            },
            other => LoopStep::Failed(other),
        },
    }
}

/// The error the loop fails with when [`MAX_TOOL_ITER`] rounds pass without
/// a terminal answer.
pub fn exceeded_iterations_error() -> (e: CallErr)
    ensures
        e@ == CallErrV::Other("exceeded max tool iterations: 12"@),
{
    CallErr::Other(String::from_str("exceeded max tool iterations: 12"))
}

/// The name of a tool-call message; empty for other messages.
pub open spec fn spec_call_name(m: MessageV) -> Seq<char> {
    match m {
        MessageV::ToolCall { name, .. } => name,
        _ => Seq::empty(),
    }
}

/// The id of a tool-call message; empty for other messages.
pub open spec fn spec_call_id(m: MessageV) -> Seq<char> {
    match m {
        MessageV::ToolCall { id, .. } => id,
        _ => Seq::empty(),
    }
}

/// The id of a tool-result message; empty for other messages.
pub open spec fn spec_result_id(m: MessageV) -> Seq<char> {
    match m {
        MessageV::ToolResult { id, .. } => id,
        _ => Seq::empty(),
    }
}

/// The tool calls of a well-formed assistant turn: everything from the
/// first non-text message on.
pub open spec fn spec_calls_of_turn(t: TurnV) -> Seq<MessageV> {
    t.content.skip(first_call_index(t.content))
}

/// A model call which has access to tools.
///
/// This type implements [`ModelCaller`], but any tools provided in the call
/// parameters are ignored in favor of the tools provided when creating the
/// session: the session's own registered set is always advertised.
pub struct ToolsSession<B: ModelCaller, H: ToolHandler> {
    tools: Vec<(ToolInfo, H)>,
    backend: B,
}

impl<B: ModelCaller, H: ToolHandler> ToolsSession<B, H> {
    /// The descriptions of the registered tools, in registration order.
    pub closed spec fn spec_tool_infos(&self) -> Seq<ToolInfoV> {
        self.tools@.map_values(|t: (ToolInfo, H)| t.0@)
    }

    /// Whether a tool of the given name is registered.
    pub open spec fn spec_registered(&self, name: Seq<char>) -> bool {
        exists|i: int|
            0 <= i < self.spec_tool_infos().len() && (#[trigger] self.spec_tool_infos()[i]).name
                == name
    }

    /// Constructs a new session with the given backend and tools.
    pub fn new(b: B, tools: Vec<(ToolInfo, H)>) -> (s: Self)
        ensures
            s.spec_tool_infos() == tools@.map_values(|t: (ToolInfo, H)| t.0@),
    {
        ToolsSession { tools, backend: b }
    }

    /// Runs the first registered handler whose name matches, returning its
    /// result, or a `ToolFailed` error naming the missing tool when none
    /// matches.
    fn tool_call(&mut self, name: &String, args: String) -> (r: Result<String, CallErr>)
        ensures
            final(self).spec_tool_infos() == old(self).spec_tool_infos(),
            r is Ok <==> old(self).spec_registered(name@),
            r matches Err(e) ==> e@ == (CallErrV::ToolFailed {
                name: name@,
                err: "no such tool"@,
            }),
    {
        let ghost infos = self.spec_tool_infos();
        let mut i: usize = 0;
        while i < self.tools.len()
            invariant
                infos == self.spec_tool_infos(),
                infos == old(self).spec_tool_infos(),
                i <= infos.len(),
                forall|j: int| 0 <= j < i ==> (#[trigger] infos[j]).name != name@,
            decreases self.tools.len() - i,
        {
            if str_eq(self.tools[i].0.name.as_str(), name.as_str()) {
                proof {
                    assert((infos[i as int]).name == name@);
                }
                let ghost t0 = self.tools@;
                let mut entry = self.tools.remove(i);
                let out = entry.1.run(args);
                self.tools.insert(i, entry);
                proof {
                    let t1 = self.tools@;
                    assert(t1.len() == t0.len());
                    assert forall|j: int|
                        0 <= j < t1.len() implies (#[trigger] t1[j]).0@ == t0[j].0@ by {
                        if j < i {
                            assert(t1[j] == t0.remove(i as int)[j]);
                            assert(t0.remove(i as int)[j] == t0[j]);
                        } else if j == i {
                            assert(t1[j] == entry);
                            assert(entry.0 == t0[i as int].0);
                        } else {
                            assert(t1[j] == t0.remove(i as int)[j - 1]);
                            assert(t0.remove(i as int)[j - 1] == t0[j]);
                        }
                    }
                    assert(self.spec_tool_infos() =~= infos);
                    assert((old(self).spec_tool_infos()[i as int]).name == name@);
                    assert(0 <= i < old(self).spec_tool_infos().len());
                    assert(old(self).spec_registered(name@));
                }
                return Ok(out);
            }
            i = i + 1;
        }
        Err(
            CallErr::ToolFailed {
                name: name.clone(),
                err: String::from_str("no such tool"),
            },
        )
    }

    /// Builds the parameters actually handed to the backend on every model
    /// call of this session: the caller's parameters with the tools
    /// replaced by the session's registered set, in registration order —
    /// whatever tools the caller's parameters carried — and every other
    /// field passed through unchanged.
    pub fn advertised_params(&self, params: CallBase) -> (r: CallBase)
        ensures
            r@.tools == self.spec_tool_infos(),
            r@.system == params@.system,
            r@.instructions == params@.instructions,
            r@.temperature == params@.temperature,
            r@.max_tokens == params@.max_tokens,
    {
        let mut tool_infos: Vec<ToolInfo> = Vec::new();
        let mut ti: usize = 0;
        while ti < self.tools.len()
            invariant
                ti <= self.tools@.len(),
                tool_infos@.len() == ti,
                forall|j: int|
                    0 <= j < ti ==> #[trigger] tool_infos@[j]@ == self.spec_tool_infos()[j],
            decreases self.tools.len() - ti,
        {
            tool_infos.push(self.tools[ti].0.clone());
            ti = ti + 1;
        }
        let r = CallBase { tools: tool_infos, ..params };
        proof {
            assert(r@.tools =~= self.spec_tool_infos());
        }
        r
    }

    /// Dispatches every tool call of one assistant turn, strictly in the
    /// order the model emitted them, and wraps the results as a tool turn
    /// whose results answer the calls in that same order. The first call
    /// naming an unregistered tool aborts with a `ToolFailed` error naming
    /// it, and no later call in the turn is dispatched.
    pub fn dispatch_tool_calls(&mut self, asst: &Turn) -> (r: Result<Turn, CallErr>)
        requires
            asst.wf(),
            asst@.role == Role::Assistant,
        ensures
            final(self).spec_tool_infos() == old(self).spec_tool_infos(),
            match r {
                Ok(t) => {
                    &&& t@.role == Role::Tool
                    &&& t.wf()
                    &&& t@.content.len() == spec_calls_of_turn(asst@).len()
                    &&& forall|i: int|
                        0 <= i < t@.content.len() ==> (#[trigger] t@.content[i]).is_tool_result()
                            && spec_result_id(t@.content[i]) == spec_call_id(
                            spec_calls_of_turn(asst@)[i],
                        )
                    &&& forall|i: int|
                        0 <= i < spec_calls_of_turn(asst@).len() ==> old(self).spec_registered(
                            spec_call_name(#[trigger] spec_calls_of_turn(asst@)[i]),
                        )
                },
                Err(e) => exists|i: int|
                    {
                        &&& 0 <= i < spec_calls_of_turn(asst@).len()
                        &&& !old(self).spec_registered(
                            spec_call_name(#[trigger] spec_calls_of_turn(asst@)[i]),
                        )
                        &&& forall|j: int|
                            0 <= j < i ==> old(self).spec_registered(
                                spec_call_name(#[trigger] spec_calls_of_turn(asst@)[j]),
                            )
                        &&& e@ == (CallErrV::ToolFailed {
                            name: spec_call_name(spec_calls_of_turn(asst@)[i]),
                            err: "no such tool"@,
                        })
                    },
            },
    {
        let ghost infos = self.spec_tool_infos();
        let n = asst.content.len();
        let mut k: usize = 0;
        while k < n && msg_is_text(&asst.content[k])
            invariant
                n == asst.content@.len(),
                k <= n,
                forall|j: int| 0 <= j < k ==> (#[trigger] asst@.content[j]).is_text(),
            decreases n - k,
        {
            k = k + 1;
        }
        proof {
            lemma_first_call_index_is(asst@.content, k as int);
        }
        let ghost calls = spec_calls_of_turn(asst@);
        let mut results: Vec<Message> = Vec::new();
        let mut j: usize = k;
        while j < n
            invariant
                infos == self.spec_tool_infos(),
                infos == old(self).spec_tool_infos(),
                asst.wf(),
                asst@.role == Role::Assistant,
                n == asst.content@.len(),
                k <= j <= n,
                k < n ==> !(asst@.content[k as int].is_text()),
                first_call_index(asst@.content) == k,
                calls == spec_calls_of_turn(asst@),
                forall|p: int| 0 <= p < k ==> (#[trigger] asst@.content[p]).is_text(),
                results@.len() == j - k,
                forall|p: int|
                    0 <= p < j - k ==> (#[trigger] results@[p]@).is_tool_result() && spec_result_id(
                        results@[p]@,
                    ) == spec_call_id(calls[p]),
                forall|p: int|
                    0 <= p < j - k ==> old(self).spec_registered(
                        spec_call_name(#[trigger] calls[p]),
                    ),
            decreases n - j,
        {
            proof {
                assert(calls[j - k] == asst@.content[j as int]);
                assert(asst@.content[j as int] == asst.content@[j as int]@);
                if asst@.content[j as int].is_text() {
                    assert(asst@.content[k as int].is_text()
                        || asst@.content[k as int].is_tool_call());
                    assert(asst@.content[k as int].is_tool_call());
                    if k < j {
                        assert(asst@.content[j as int].is_tool_call());
                    }
                    assert(false);
                }
            }
            match &asst.content[j] {
                Message::ToolCall { id, name, arguments } => {
                    let ghost pre = *self;
                    proof {
                        assert(spec_call_name(calls[j - k]) == name@);
                        assert(spec_call_id(calls[j - k]) == id@);
                    }
                    match self.tool_call(name, arguments.clone()) {
                        Ok(out) => {
                            proof {
                                assert(pre.spec_registered(name@));
                                assert forall|q: int|
                                    0 <= q < old(self).spec_tool_infos().len() implies (
                                #[trigger] old(self).spec_tool_infos()[q])
                                    == pre.spec_tool_infos()[q] by {}
                                assert(old(self).spec_registered(name@)) by {
                                    let w = choose|w: int|
                                        0 <= w < pre.spec_tool_infos().len() && (
                                        #[trigger] pre.spec_tool_infos()[w]).name == name@;
                                    assert((old(self).spec_tool_infos()[w]).name == name@);
                                }
                            }
                            results.push(Message::ToolResult { id: id.clone(), result: out });
                        },
                        Err(e) => {
                            proof {
                                assert(!pre.spec_registered(name@));
                                assert(!old(self).spec_registered(name@)) by {
                                    if old(self).spec_registered(name@) {
                                        let w = choose|w: int|
                                            0 <= w < old(self).spec_tool_infos().len() && (
                                            #[trigger] old(self).spec_tool_infos()[w]).name
                                                == name@;
                                        assert((pre.spec_tool_infos()[w]).name == name@);
                                    }
                                }
                            }
                            return Err(e);
                        },
                    }
                },
                _ => {
                    proof {
                        assert(asst@.content[j as int].is_text()
                            || asst@.content[j as int].is_tool_call());
                        assert(false);
                    }
                },
            }
            j = j + 1;
        }
        let t = Turn { role: Role::Tool, content: results };
        proof {
            assert(calls.len() == n - k);
            assert forall|p: int|
                0 <= p < t@.content.len() implies (#[trigger] t@.content[p]).is_tool_result() by {
                assert(results@[p]@.is_tool_result());
            }
            assert(t.wf());
        }
        Ok(t)
    }
}

impl<B: ModelCaller, H: ToolHandler> ModelCaller for ToolsSession<B, H> {
    /// Runs the bounded tool-dispatch loop: at most [`MAX_TOOL_ITER`] model
    /// calls, each receiving the parameters
    /// [`ToolsSession::advertised_params`] pins — the session's registered
    /// tools advertised, whatever the caller's parameters carried — and an
    /// append-only transcript: the caller's turns, extended by one assistant
    /// turn and its answering tool turn per dispatch round. Each attempt's
    /// outcome is acted on exactly as [`loop_step`] decides (stop, dispatch
    /// via [`ToolsSession::dispatch_tool_calls`], fall back, or fail); a
    /// failed dispatch is terminal, and [`MAX_TOOL_ITER`] rounds without a
    /// terminal answer fail with [`exceeded_iterations_error`]. The
    /// registered tool set is left unchanged.
    fn call(&mut self, params: CallBase, turns: Vec<Turn>) -> (r: Result<CallResp, CallErr>)
        ensures
            final(self).spec_tool_infos() == old(self).spec_tool_infos(),
    {
        let mut turns = turns;
        let ghost init_turns = turns@;
        let params = self.advertised_params(params);
        let ghost advertised = params@;
        let mut last_res: Option<CallResp> = None;
        let mut iter: usize = 0;
        while iter < MAX_TOOL_ITER
            invariant
                iter <= MAX_TOOL_ITER,
                self.spec_tool_infos() == old(self).spec_tool_infos(),
                params@ == advertised,
                advertised.tools == old(self).spec_tool_infos(),
                // The transcript is append-only: the caller's turns stand
                // unchanged at its head, and each completed round added its
                // assistant turn and the answering tool turn.
                turns@.len() == init_turns.len() + 2 * iter,
                forall|i: int| 0 <= i < init_turns.len() ==> turns@[i] == init_turns[i],
                forall|i: int| 0 <= i < turns@.len() ==> (#[trigger] turns@[i]).wf(),
                match last_res {
                    Some(lr) => lr.wf_model_output(),
                    None => true,
                },
            decreases MAX_TOOL_ITER - iter,
        {
            let cloned_turns = turns.clone();
            proof {
                assert forall|i: int|
                    0 <= i < cloned_turns@.len() implies (#[trigger] cloned_turns@[i]).wf() by {
                    assert(cloned::<Turn>(turns@[i], cloned_turns@[i]));
                }
            }
            let res = self.backend.call(params.clone(), cloned_turns);
            match loop_step(res, last_res) {
                LoopStep::Done(resp) => {
                    return Ok(resp);
                },
                LoopStep::Failed(e) => {
                    return Err(e);
                },
                LoopStep::DispatchTools(resp) => {
                    let asst = resp.content.clone();
                    let tool_turn = match self.dispatch_tool_calls(&asst) {
                        Ok(t) => t,
                        Err(e) => {
                            return Err(e);
                        },
                    };
                    turns.push(asst);
                    turns.push(tool_turn);
                    last_res = Some(resp);
                },
            }
            iter = iter + 1;
        }
        Err(exceeded_iterations_error())
    }
}

} // verus!
