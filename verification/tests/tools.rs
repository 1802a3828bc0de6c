//! Tests for the bounded tool-dispatch loop.

use std::cell::RefCell;
use std::rc::Rc;

use mini_prompt::tools::{exceeded_iterations_error, loop_step, LoopStep, MAX_TOOL_ITER};
use mini_prompt::{
    CallBase, CallErr, CallResp, FinishReason, Message, ModelCaller, Role, ToolHandler, ToolInfo,
    ToolsSession, Turn,
};

/// A handler that counts its invocations and returns a fixed result.
struct CountingHandler {
    count: Rc<RefCell<usize>>,
    result: String,
}

impl ToolHandler for CountingHandler {
    fn run(&mut self, _args: String) -> String {
        *self.count.borrow_mut() += 1;
        self.result.clone()
    }
}

fn tool_call_msg(id: &str, name: &str) -> Message {
    Message::ToolCall {
        id: id.to_string(),
        name: name.to_string(),
        arguments: "{}".to_string(),
    }
}

fn tool_calls_resp(calls: Vec<Message>) -> CallResp {
    CallResp {
        id: "call-tools".to_string(),
        model: "stub".to_string(),
        finish_reason: FinishReason::ToolCalls,
        content: Turn {
            role: Role::Assistant,
            content: calls,
        },
    }
}

fn stop_resp(text: &str) -> CallResp {
    CallResp {
        id: "call-stop".to_string(),
        model: "stub".to_string(),
        finish_reason: FinishReason::Stop,
        content: Turn {
            role: Role::Assistant,
            content: vec![Message::text(text.to_string())],
        },
    }
}

/// A stub model that requests the tool `flubb` exactly once, then stops; it
/// records the transcript and the advertised tools it is handed on each
/// call.
struct FlubbOnceModel {
    calls: Rc<RefCell<usize>>,
    transcripts: Rc<RefCell<Vec<Vec<Turn>>>>,
    advertised: Rc<RefCell<Vec<Vec<ToolInfo>>>>,
}

impl ModelCaller for FlubbOnceModel {
    fn call(&mut self, params: CallBase, turns: Vec<Turn>) -> Result<CallResp, CallErr> {
        *self.calls.borrow_mut() += 1;
        self.transcripts.borrow_mut().push(turns);
        self.advertised.borrow_mut().push(params.tools);
        if *self.calls.borrow() == 1 {
            Ok(tool_calls_resp(vec![tool_call_msg("tc-1", "flubb")]))
        } else {
            Ok(stop_resp("all flubbed"))
        }
    }
}

#[test]
fn loop_runs_tool_once_then_stops() {
    let handler_count = Rc::new(RefCell::new(0usize));
    let model_calls = Rc::new(RefCell::new(0usize));
    let transcripts = Rc::new(RefCell::new(Vec::new()));
    let advertised = Rc::new(RefCell::new(Vec::new()));
    let backend = FlubbOnceModel {
        calls: model_calls.clone(),
        transcripts: transcripts.clone(),
        advertised: advertised.clone(),
    };
    let mut session = ToolsSession::new(
        backend,
        vec![(
            ToolInfo::new(
                "flubb".to_string(),
                "Performs the flubb action.".to_string(),
                None,
            ),
            CountingHandler {
                count: handler_count.clone(),
                result: "{\"status\": \"success\"}".to_string(),
            },
        )],
    );

    let res = session.call(CallBase::default(), vec![]).unwrap();
    assert_eq!(res.finish_reason, FinishReason::Stop);
    // The session's own registered tool set is advertised on every call,
    // whatever the call parameters carried.
    for tools in advertised.borrow().iter() {
        assert_eq!(
            *tools,
            vec![ToolInfo::new(
                "flubb".to_string(),
                "Performs the flubb action.".to_string(),
                None,
            )]
        );
    }
    assert_eq!(
        res.content.content,
        vec![Message::text("all flubbed".to_string())]
    );
    // The handler ran exactly once, over exactly two model calls.
    assert_eq!(*handler_count.borrow(), 1);
    assert_eq!(*model_calls.borrow(), 2);
    // The second call saw the assistant turn and the tool turn appended,
    // the tool result answering the originating call.
    let seen = transcripts.borrow();
    assert_eq!(seen[0].len(), 0);
    assert_eq!(seen[1].len(), 2);
    assert_eq!(seen[1][0].role, Role::Assistant);
    assert_eq!(seen[1][0].content, vec![tool_call_msg("tc-1", "flubb")]);
    assert_eq!(seen[1][1].role, Role::Tool);
    assert_eq!(
        seen[1][1].content,
        vec![Message::ToolResult {
            id: "tc-1".to_string(),
            result: "{\"status\": \"success\"}".to_string(),
        }]
    );
}

/// A stub model that always requests a tool and never stops.
struct AlwaysToolModel {
    calls: Rc<RefCell<usize>>,
}

impl ModelCaller for AlwaysToolModel {
    fn call(&mut self, _params: CallBase, _turns: Vec<Turn>) -> Result<CallResp, CallErr> {
        *self.calls.borrow_mut() += 1;
        Ok(tool_calls_resp(vec![tool_call_msg("tc-n", "flubb")]))
    }
}

#[test]
fn loop_fails_after_twelve_iterations() {
    let handler_count = Rc::new(RefCell::new(0usize));
    let model_calls = Rc::new(RefCell::new(0usize));
    let backend = AlwaysToolModel {
        calls: model_calls.clone(),
    };
    let mut session = ToolsSession::new(
        backend,
        vec![(
            ToolInfo::new("flubb".to_string(), "Flubbs.".to_string(), None),
            CountingHandler {
                count: handler_count.clone(),
                result: "{}".to_string(),
            },
        )],
    );

    let err = session.call(CallBase::default(), vec![]).unwrap_err();
    assert_eq!(
        err,
        CallErr::Other("exceeded max tool iterations: 12".to_string())
    );
    // Exactly twelve model calls: never eleven, never thirteen.
    assert_eq!(*model_calls.borrow(), 12);
    assert_eq!(*handler_count.borrow(), 12);
}

/// A stub model whose first answer names an unregistered tool before a
/// registered one.
struct UnknownToolModel;

impl ModelCaller for UnknownToolModel {
    fn call(&mut self, _params: CallBase, _turns: Vec<Turn>) -> Result<CallResp, CallErr> {
        Ok(tool_calls_resp(vec![
            tool_call_msg("tc-1", "missing_tool"),
            tool_call_msg("tc-2", "flubb"),
        ]))
    }
}

#[test]
fn loop_fails_immediately_on_unregistered_tool() {
    let handler_count = Rc::new(RefCell::new(0usize));
    let mut session = ToolsSession::new(
        UnknownToolModel,
        vec![(
            ToolInfo::new("flubb".to_string(), "Flubbs.".to_string(), None),
            CountingHandler {
                count: handler_count.clone(),
                result: "{}".to_string(),
            },
        )],
    );

    let err = session.call(CallBase::default(), vec![]).unwrap_err();
    assert_eq!(
        err,
        CallErr::ToolFailed {
            name: "missing_tool".to_string(),
            err: "no such tool".to_string(),
        }
    );
    // No other tool in that turn was invoked.
    assert_eq!(*handler_count.borrow(), 0);
}

/// A stub model that requests a tool once, then reports no completions.
struct ThenEmptyModel {
    calls: Rc<RefCell<usize>>,
}

impl ModelCaller for ThenEmptyModel {
    fn call(&mut self, _params: CallBase, _turns: Vec<Turn>) -> Result<CallResp, CallErr> {
        *self.calls.borrow_mut() += 1;
        if *self.calls.borrow() == 1 {
            Ok(tool_calls_resp(vec![tool_call_msg("tc-1", "flubb")]))
        } else {
            Err(CallErr::NoCompletions)
        }
    }
}

#[test]
fn loop_falls_back_to_last_response_on_no_completions() {
    let handler_count = Rc::new(RefCell::new(0usize));
    let mut session = ToolsSession::new(
        ThenEmptyModel {
            calls: Rc::new(RefCell::new(0)),
        },
        vec![(
            ToolInfo::new("flubb".to_string(), "Flubbs.".to_string(), None),
            CountingHandler {
                count: handler_count.clone(),
                result: "{}".to_string(),
            },
        )],
    );
    // The fallback is the last good response: the tool-calls answer.
    let res = session.call(CallBase::default(), vec![]).unwrap();
    assert_eq!(res.finish_reason, FinishReason::ToolCalls);
}

/// A stub model that always reports no completions.
struct AlwaysEmptyModel;

impl ModelCaller for AlwaysEmptyModel {
    fn call(&mut self, _params: CallBase, _turns: Vec<Turn>) -> Result<CallResp, CallErr> {
        Err(CallErr::NoCompletions)
    }
}

#[test]
fn loop_fails_on_no_completions_without_prior_response() {
    let mut session = ToolsSession::new(
        AlwaysEmptyModel,
        Vec::<(ToolInfo, CountingHandler)>::new(),
    );
    let err = session.call(CallBase::default(), vec![]).unwrap_err();
    assert_eq!(err, CallErr::NoCompletions);
}

/// A stub model that always fails with a transport error.
struct FailingModel;

impl ModelCaller for FailingModel {
    fn call(&mut self, _params: CallBase, _turns: Vec<Turn>) -> Result<CallResp, CallErr> {
        Err(CallErr::RequestFailed(503, "unavailable".to_string()))
    }
}

#[test]
fn loop_propagates_other_errors_verbatim() {
    let mut session = ToolsSession::new(
        FailingModel,
        Vec::<(ToolInfo, CountingHandler)>::new(),
    );
    let err = session.call(CallBase::default(), vec![]).unwrap_err();
    assert_eq!(err, CallErr::RequestFailed(503, "unavailable".to_string()));
}

#[test]
fn loop_step_policy() {
    // A response that stopped ends the loop with that response.
    assert_eq!(
        loop_step(Ok(stop_resp("done")), None),
        LoopStep::Done(stop_resp("done"))
    );
    // One that requests tools is dispatched, prior response or not.
    assert_eq!(
        loop_step(Ok(tool_calls_resp(vec![])), Some(stop_resp("prev"))),
        LoopStep::DispatchTools(tool_calls_resp(vec![]))
    );
    // An empty completion falls back to the last good response.
    assert_eq!(
        loop_step(Err(CallErr::NoCompletions), Some(stop_resp("prev"))),
        LoopStep::Done(stop_resp("prev"))
    );
    // Without one, it is fatal.
    assert_eq!(
        loop_step(Err(CallErr::NoCompletions), None),
        LoopStep::Failed(CallErr::NoCompletions)
    );
    // Any other error is terminal verbatim, even with a prior response.
    assert_eq!(
        loop_step(
            Err(CallErr::RequestFailed(500, "boom".to_string())),
            Some(stop_resp("prev"))
        ),
        LoopStep::Failed(CallErr::RequestFailed(500, "boom".to_string()))
    );
}

#[test]
fn iteration_cap_and_its_error() {
    assert_eq!(MAX_TOOL_ITER, 12);
    assert_eq!(
        exceeded_iterations_error(),
        CallErr::Other("exceeded max tool iterations: 12".to_string())
    );
}

#[test]
fn advertised_params_replace_caller_tools() {
    let session = ToolsSession::new(
        UnknownToolModel,
        vec![(
            ToolInfo::new("flubb".to_string(), "Flubbs.".to_string(), None),
            CountingHandler {
                count: Rc::new(RefCell::new(0)),
                result: "{}".to_string(),
            },
        )],
    );
    let caller_params = CallBase {
        system: "persona".to_string(),
        instructions: "task".to_string(),
        tools: vec![ToolInfo::new(
            "ignored_tool".to_string(),
            "Never advertised.".to_string(),
            None,
        )],
        temperature: Some(55),
        max_tokens: 256,
    };
    let sent = session.advertised_params(caller_params);
    // The session's registered set replaces the caller's tools; every
    // other field passes through unchanged.
    assert_eq!(
        sent.tools,
        vec![ToolInfo::new(
            "flubb".to_string(),
            "Flubbs.".to_string(),
            None
        )]
    );
    assert_eq!(sent.system, "persona");
    assert_eq!(sent.instructions, "task");
    assert_eq!(sent.temperature, Some(55));
    assert_eq!(sent.max_tokens, 256);
}

/// A stub model that answers with plain text at once.
struct EchoModel;

impl ModelCaller for EchoModel {
    fn call(&mut self, _params: CallBase, _turns: Vec<Turn>) -> Result<CallResp, CallErr> {
        Ok(stop_resp("hello there"))
    }
}

#[test]
fn simple_call_returns_first_text() {
    let mut backend = EchoModel;
    let res = backend.simple_call("hi".to_string()).unwrap();
    assert_eq!(res, "hello there");
}

/// A stub model whose answer carries no text at all.
struct SilentModel;

impl ModelCaller for SilentModel {
    fn call(&mut self, _params: CallBase, _turns: Vec<Turn>) -> Result<CallResp, CallErr> {
        Ok(CallResp {
            id: "call-silent".to_string(),
            model: "stub".to_string(),
            finish_reason: FinishReason::Stop,
            content: Turn {
                role: Role::Assistant,
                content: vec![],
            },
        })
    }
}

#[test]
fn simple_call_fails_without_text() {
    let mut backend = SilentModel;
    let err = backend.simple_call("hi".to_string()).unwrap_err();
    assert_eq!(
        err,
        CallErr::Other("unexpected: no message content".to_string())
    );
}
