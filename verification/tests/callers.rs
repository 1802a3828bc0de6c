//! Tests for the provider adapters: request building, response validation
//! and the wire-vocabulary normalization tables.

use mini_prompt::callers::{
    check_status, simple_answer, single_turn_params, Anthropic, Openai, Openrouter,
};
use mini_prompt::data_model::{
    parse_finish_reason, parse_role, AnthropicBlock, AnthropicResponse, OaiChoice, OaiRespMessage,
    OaiResponse, OaiToolCall,
};
use mini_prompt::models::{AnthropicModelId, Gemma27B3, Phi4, GPT4oMini};
use mini_prompt::{CallBase, CallErr, CallResp, FinishReason, Message, Role, ToolInfo, Turn};

fn ok_oai_response(model: &str, finish: &str, text: &str) -> OaiResponse {
    OaiResponse {
        id: "resp-1".to_string(),
        model: model.to_string(),
        object: Some("chat.completion".to_string()),
        choices: vec![OaiChoice {
            finish_reason: finish.to_string(),
            message: OaiRespMessage {
                role: "assistant".to_string(),
                content: Some(text.to_string()),
                tool_calls: vec![],
            },
        }],
    }
}

#[test]
fn single_turn_params_fields() {
    let p = single_turn_params("what is up".to_string());
    assert_eq!(p.instructions, "what is up");
    assert_eq!(p.system, "");
    assert_eq!(p.tools, vec![]);
    assert_eq!(p.temperature, None);
    assert_eq!(p.max_tokens, 8192);
}

#[test]
fn simple_answer_outcomes() {
    // A backend error passes through verbatim.
    assert_eq!(
        simple_answer(Err(CallErr::RequestFailed(500, "boom".to_string()))),
        Err(CallErr::RequestFailed(500, "boom".to_string()))
    );
    // A response answers with its first text message.
    let resp = CallResp {
        id: "r".to_string(),
        model: "m".to_string(),
        finish_reason: FinishReason::Stop,
        content: Turn {
            role: Role::Assistant,
            content: vec![Message::text("four".to_string())],
        },
    };
    assert_eq!(simple_answer(Ok(resp)), Ok("four".to_string()));
    // A turn that does not begin with text fails.
    let silent = CallResp {
        id: "r".to_string(),
        model: "m".to_string(),
        finish_reason: FinishReason::Stop,
        content: Turn {
            role: Role::Assistant,
            content: vec![],
        },
    };
    assert_eq!(
        simple_answer(Ok(silent)),
        Err(CallErr::Other("unexpected: no message content".to_string()))
    );
}

#[test]
fn status_rule() {
    assert_eq!(check_status(200, "".to_string()), Ok(()));
    assert_eq!(check_status(299, "".to_string()), Ok(()));
    assert_eq!(
        check_status(199, "low".to_string()),
        Err(CallErr::RequestFailed(199, "low".to_string()))
    );
    assert_eq!(
        check_status(404, "nope".to_string()),
        Err(CallErr::RequestFailed(404, "nope".to_string()))
    );
    assert_eq!(
        check_status(500, "boom".to_string()),
        Err(CallErr::RequestFailed(500, "boom".to_string()))
    );
}

#[test]
fn finish_reason_terms_normalize_and_round_trip() {
    assert_eq!(parse_finish_reason("stop"), Some(FinishReason::Stop));
    assert_eq!(parse_finish_reason("end_turn"), Some(FinishReason::Stop));
    assert_eq!(parse_finish_reason("tool_calls"), Some(FinishReason::ToolCalls));
    assert_eq!(parse_finish_reason("tool_use"), Some(FinishReason::ToolCalls));
    assert_eq!(parse_finish_reason("length"), Some(FinishReason::Length));
    assert_eq!(parse_finish_reason("max_tokens"), Some(FinishReason::Length));
    assert_eq!(
        parse_finish_reason("content_filter"),
        Some(FinishReason::ContentFilter)
    );
    assert_eq!(
        parse_finish_reason("refusal"),
        Some(FinishReason::ContentFilter)
    );
    assert_eq!(parse_finish_reason("gibberish"), None);
    assert_eq!(parse_finish_reason(""), None);
}

#[test]
fn role_terms_normalize() {
    assert_eq!(parse_role("user"), Some(Role::User));
    assert_eq!(parse_role("system"), Some(Role::System));
    assert_eq!(parse_role("assistant"), Some(Role::Assistant));
    assert_eq!(parse_role("tool"), Some(Role::Tool));
    assert_eq!(parse_role("robot"), None);
}

#[test]
fn openrouter_request_merges_system_and_instructions() {
    let caller = Openrouter {
        model: Gemma27B3,
        api_key: None,
    };
    let params = CallBase {
        system: "You are terse.".to_string(),
        instructions: "Say hi.".to_string(),
        temperature: Some(70),
        ..CallBase::default()
    };
    let req = caller.build_request(&params, &vec![]);
    assert_eq!(req.model, "google/gemma-3-27b-it");
    assert_eq!(req.temperature, Some(70));
    assert_eq!(req.max_tokens, 8192);
    assert_eq!(req.messages.len(), 1);
    assert_eq!(req.messages[0].role, Role::System);
    assert_eq!(
        req.messages[0].content,
        Some("You are terse.\n\nSay hi.".to_string())
    );
    assert!(!req.tool_choice_auto);
    assert_eq!(req.tools.len(), 0);
}

#[test]
fn openrouter_request_no_sys_prompt_model_uses_user_role() {
    let caller = Openrouter {
        model: Phi4,
        api_key: None,
    };
    let params = CallBase {
        instructions: "Say hi.".to_string(),
        ..CallBase::default()
    };
    let req = caller.build_request(&params, &vec![]);
    assert_eq!(req.model, "microsoft/phi-4");
    assert_eq!(req.messages.len(), 1);
    assert_eq!(req.messages[0].role, Role::User);
    assert_eq!(req.messages[0].content, Some("Say hi.".to_string()));
}

#[test]
fn openrouter_request_flattens_turns_and_declares_tools() {
    let caller = Openrouter {
        model: Gemma27B3,
        api_key: None,
    };
    let params = CallBase {
        tools: vec![ToolInfo::new(
            "flubb".to_string(),
            "Flubbs.".to_string(),
            None,
        )],
        ..CallBase::default()
    };
    let turns = vec![
        Turn::text(Role::User, "question".to_string()),
        Turn {
            role: Role::Assistant,
            content: vec![
                Message::text("thinking".to_string()),
                Message::ToolCall {
                    id: "tc-1".to_string(),
                    name: "flubb".to_string(),
                    arguments: "{}".to_string(),
                },
                Message::ToolCall {
                    id: "tc-2".to_string(),
                    name: "flubb".to_string(),
                    arguments: "{\"n\": 2}".to_string(),
                },
            ],
        },
        Turn {
            role: Role::Tool,
            content: vec![
                Message::ToolResult {
                    id: "tc-1".to_string(),
                    result: "ok".to_string(),
                },
                Message::ToolResult {
                    id: "tc-2".to_string(),
                    result: "ok too".to_string(),
                },
            ],
        },
    ];
    let req = caller.build_request(&params, &turns);
    assert!(req.tool_choice_auto);
    assert_eq!(req.tools.len(), 1);
    assert_eq!(req.tools[0].name, "flubb");
    assert_eq!(
        req.tools[0].parameters,
        "{\"type\": \"object\", \"properties\": {}}"
    );
    // One user message; one assistant message carrying the text and both
    // tool calls coalesced; one tool message per result.
    assert_eq!(req.messages.len(), 4);
    assert_eq!(req.messages[0].role, Role::User);
    assert_eq!(req.messages[1].role, Role::Assistant);
    assert_eq!(req.messages[1].content, Some("thinking".to_string()));
    assert_eq!(
        req.messages[1].tool_calls,
        vec![
            OaiToolCall {
                id: "tc-1".to_string(),
                name: "flubb".to_string(),
                arguments: "{}".to_string(),
            },
            OaiToolCall {
                id: "tc-2".to_string(),
                name: "flubb".to_string(),
                arguments: "{\"n\": 2}".to_string(),
            },
        ]
    );
    assert_eq!(req.messages[2].role, Role::Tool);
    assert_eq!(req.messages[2].tool_call_id, Some("tc-1".to_string()));
    assert_eq!(req.messages[2].content, Some("ok".to_string()));
    assert_eq!(req.messages[3].tool_call_id, Some("tc-2".to_string()));
}

#[test]
fn openrouter_response_accepts_stop() {
    let caller = Openrouter {
        model: Gemma27B3,
        api_key: None,
    };
    let resp = caller
        .handle_response(ok_oai_response("somebody/some-model", "stop", "hi"))
        .unwrap();
    assert_eq!(resp.id, "resp-1");
    assert_eq!(resp.model, "somebody/some-model");
    assert_eq!(resp.finish_reason, FinishReason::Stop);
    assert_eq!(resp.content.role, Role::Assistant);
    assert_eq!(resp.content.content, vec![Message::text("hi".to_string())]);
}

#[test]
fn openrouter_response_fills_in_missing_model() {
    let caller = Openrouter {
        model: Gemma27B3,
        api_key: None,
    };
    let resp = caller
        .handle_response(ok_oai_response("", "stop", "hi"))
        .unwrap();
    assert_eq!(resp.model, "google/gemma-3-27b-it");
}

#[test]
fn openrouter_response_rejects_bad_envelope() {
    let caller = Openrouter {
        model: Gemma27B3,
        api_key: None,
    };
    let mut bad_object = ok_oai_response("m", "stop", "hi");
    bad_object.object = Some("weird.object".to_string());
    assert_eq!(
        caller.handle_response(bad_object).unwrap_err(),
        CallErr::Other("unexpected value for 'object': weird.object".to_string())
    );

    let mut no_choices = ok_oai_response("m", "stop", "hi");
    no_choices.choices.clear();
    assert_eq!(
        caller.handle_response(no_choices).unwrap_err(),
        CallErr::NoCompletions
    );

    // An envelope without the optional object field is accepted.
    let mut no_object = ok_oai_response("m", "stop", "hi");
    no_object.object = None;
    assert!(caller.handle_response(no_object).is_ok());
}

#[test]
fn openrouter_response_rejects_bad_finish_reasons() {
    let caller = Openrouter {
        model: Gemma27B3,
        api_key: None,
    };
    assert_eq!(
        caller
            .handle_response(ok_oai_response("m", "length", "hi"))
            .unwrap_err(),
        CallErr::Other("unexpected finish reason: length".to_string())
    );
    assert_eq!(
        caller
            .handle_response(ok_oai_response("m", "content_filter", "hi"))
            .unwrap_err(),
        CallErr::Other("unexpected finish reason: content_filter".to_string())
    );
    assert_eq!(
        caller
            .handle_response(ok_oai_response("m", "gibberish", "hi"))
            .unwrap_err(),
        CallErr::Api("unrecognized finish reason: gibberish".to_string())
    );
}

#[test]
fn openrouter_response_rejects_bad_role() {
    let caller = Openrouter {
        model: Gemma27B3,
        api_key: None,
    };
    let mut resp = ok_oai_response("m", "stop", "hi");
    resp.choices[0].message.role = "user".to_string();
    assert_eq!(
        caller.handle_response(resp).unwrap_err(),
        CallErr::Other("unexpected value for 'role': user".to_string())
    );
}

#[test]
fn openrouter_response_collects_tool_calls() {
    let caller = Openrouter {
        model: Gemma27B3,
        api_key: None,
    };
    let mut resp = ok_oai_response("m", "tool_calls", "let me check");
    resp.choices[0].message.tool_calls = vec![OaiToolCall {
        id: "tc-9".to_string(),
        name: "lookup".to_string(),
        arguments: "{\"q\": 1}".to_string(),
    }];
    let out = caller.handle_response(resp).unwrap();
    assert_eq!(out.finish_reason, FinishReason::ToolCalls);
    assert_eq!(
        out.content.content,
        vec![
            Message::text("let me check".to_string()),
            Message::ToolCall {
                id: "tc-9".to_string(),
                name: "lookup".to_string(),
                arguments: "{\"q\": 1}".to_string(),
            },
        ]
    );
}

#[test]
fn openai_request_uses_openai_model_id() {
    let caller = Openai {
        model: GPT4oMini,
        api_key: None,
    };
    let params = CallBase {
        instructions: "Say hi.".to_string(),
        ..CallBase::default()
    };
    let req = caller.build_request(&params, &vec![]);
    assert_eq!(req.model, "gpt-4o-mini");
    assert_eq!(req.messages.len(), 1);
    assert_eq!(req.messages[0].role, Role::System);
}

fn ok_anthropic_response(model: &str, stop: &str, blocks: Vec<AnthropicBlock>) -> AnthropicResponse {
    AnthropicResponse {
        id: "msg-1".to_string(),
        model: model.to_string(),
        object: Some("message".to_string()),
        role: Some("assistant".to_string()),
        stop_reason: stop.to_string(),
        content: blocks,
    }
}

#[test]
fn anthropic_request_hoists_system_field() {
    let caller = Anthropic {
        model: AnthropicModelId {
            id: "test-model".to_string(),
        },
        max_tokens: None,
        api_key: None,
    };
    let params = CallBase {
        system: "You are terse.".to_string(),
        instructions: "Say hi.".to_string(),
        ..CallBase::default()
    };
    let req = caller.build_request(&params, &vec![]);
    assert_eq!(req.model, "test-model");
    assert_eq!(req.system, Some("You are terse.".to_string()));
    assert_eq!(req.max_tokens, 8192);
    assert_eq!(req.messages.len(), 1);
    assert_eq!(req.messages[0].role, Role::User);
    assert_eq!(
        req.messages[0].content,
        vec![AnthropicBlock::Text {
            text: "Say hi.".to_string()
        }]
    );
}

#[test]
fn anthropic_request_coalesces_turn_into_blocks() {
    let caller = Anthropic {
        model: AnthropicModelId {
            id: "test-model".to_string(),
        },
        max_tokens: Some(512),
        api_key: None,
    };
    let turns = vec![Turn {
        role: Role::Assistant,
        content: vec![
            Message::text("thinking".to_string()),
            Message::ToolCall {
                id: "tc-1".to_string(),
                name: "flubb".to_string(),
                arguments: "{}".to_string(),
            },
        ],
    }];
    let req = caller.build_request(&CallBase::default(), &turns);
    assert_eq!(req.max_tokens, 512);
    assert_eq!(req.system, None);
    assert_eq!(req.messages.len(), 1);
    assert_eq!(req.messages[0].role, Role::Assistant);
    assert_eq!(
        req.messages[0].content,
        vec![
            AnthropicBlock::Text {
                text: "thinking".to_string()
            },
            AnthropicBlock::ToolUse {
                id: "tc-1".to_string(),
                name: "flubb".to_string(),
                input: "{}".to_string(),
            },
        ]
    );
}

#[test]
fn anthropic_response_accepts_end_turn() {
    let caller = Anthropic {
        model: AnthropicModelId {
            id: "test-model".to_string(),
        },
        max_tokens: None,
        api_key: None,
    };
    let resp = caller
        .handle_response(ok_anthropic_response(
            "",
            "end_turn",
            vec![AnthropicBlock::Text {
                text: "hi".to_string(),
            }],
        ))
        .unwrap();
    assert_eq!(resp.model, "test-model");
    assert_eq!(resp.finish_reason, FinishReason::Stop);
    assert_eq!(resp.content.role, Role::Assistant);
    assert_eq!(resp.content.content, vec![Message::text("hi".to_string())]);
}

#[test]
fn anthropic_response_accepts_tool_use() {
    let caller = Anthropic {
        model: AnthropicModelId {
            id: "test-model".to_string(),
        },
        max_tokens: None,
        api_key: None,
    };
    let resp = caller
        .handle_response(ok_anthropic_response(
            "test-model",
            "tool_use",
            vec![
                AnthropicBlock::Text {
                    text: "checking".to_string(),
                },
                AnthropicBlock::ToolUse {
                    id: "tu-1".to_string(),
                    name: "lookup".to_string(),
                    input: "{}".to_string(),
                },
            ],
        ))
        .unwrap();
    assert_eq!(resp.finish_reason, FinishReason::ToolCalls);
    assert_eq!(
        resp.content.content,
        vec![
            Message::text("checking".to_string()),
            Message::ToolCall {
                id: "tu-1".to_string(),
                name: "lookup".to_string(),
                arguments: "{}".to_string(),
            },
        ]
    );
}

#[test]
fn anthropic_response_rejects_bad_envelope() {
    let caller = Anthropic {
        model: AnthropicModelId {
            id: "test-model".to_string(),
        },
        max_tokens: None,
        api_key: None,
    };
    let mut bad_object = ok_anthropic_response("m", "end_turn", vec![]);
    bad_object.object = Some("completion".to_string());
    assert_eq!(
        caller.handle_response(bad_object).unwrap_err(),
        CallErr::Other("unexpected value for 'object': completion".to_string())
    );

    let mut bad_role = ok_anthropic_response("m", "end_turn", vec![]);
    bad_role.role = Some("user".to_string());
    assert_eq!(
        caller.handle_response(bad_role).unwrap_err(),
        CallErr::Other("unexpected value for 'role': user".to_string())
    );

    assert_eq!(
        caller
            .handle_response(ok_anthropic_response("m", "max_tokens", vec![]))
            .unwrap_err(),
        CallErr::Other("unexpected finish reason: max_tokens".to_string())
    );
    assert_eq!(
        caller
            .handle_response(ok_anthropic_response("m", "refusal", vec![]))
            .unwrap_err(),
        CallErr::Other("unexpected finish reason: refusal".to_string())
    );
    assert_eq!(
        caller
            .handle_response(ok_anthropic_response("m", "???", vec![]))
            .unwrap_err(),
        CallErr::Api("unrecognized finish reason: ???".to_string())
    );
}

#[test]
fn anthropic_response_rejects_misplaced_blocks() {
    let caller = Anthropic {
        model: AnthropicModelId {
            id: "test-model".to_string(),
        },
        max_tokens: None,
        api_key: None,
    };
    // A tool-result block cannot stand in an assistant answer.
    let bad = ok_anthropic_response(
        "m",
        "end_turn",
        vec![AnthropicBlock::ToolResult {
            tool_use_id: "tu-1".to_string(),
            content: "r".to_string(),
        }],
    );
    assert_eq!(
        caller.handle_response(bad).unwrap_err(),
        CallErr::Other("unexpected content block in assistant message".to_string())
    );
}
