//! Tests for the conversation model and its helpers.

use mini_prompt::models::{AnthropicModel, AnthropicModelId, Gemma27B3, OpenrouterModel, Phi4};
use mini_prompt::{CallBase, Message, Role, ToolInfo, Turn};

#[test]
fn smoke() {}

#[test]
fn lib_smoke() {}

#[test]
fn message_text_builds_text_message() {
    assert_eq!(
        Message::text("hello".to_string()),
        Message::Text {
            text: "hello".to_string()
        }
    );
}

#[test]
fn turn_text_and_first_text() {
    let t = Turn::text(Role::User, "question".to_string());
    assert_eq!(t.role, Role::User);
    assert_eq!(t.first_text(), Some("question".to_string()));

    let empty = Turn {
        role: Role::Assistant,
        content: vec![],
    };
    assert_eq!(empty.first_text(), None);

    let tool_first = Turn {
        role: Role::Tool,
        content: vec![Message::ToolResult {
            id: "tc-1".to_string(),
            result: "ok".to_string(),
        }],
    };
    assert_eq!(tool_first.first_text(), None);
}

#[test]
fn call_base_defaults() {
    let base = CallBase::default();
    assert_eq!(base.system, "");
    assert_eq!(base.instructions, "");
    assert_eq!(base.tools, vec![]);
    assert_eq!(base.temperature, None);
    assert_eq!(base.max_tokens, 8192);
}

#[test]
fn tool_info_defaults_to_empty_schema() {
    let t = ToolInfo::new(
        "flubb".to_string(),
        "Performs the flubb action.".to_string(),
        None,
    );
    assert_eq!(t.name, "flubb");
    assert_eq!(t.description, "Performs the flubb action.");
    assert_eq!(t.parameters, "{\"type\": \"object\", \"properties\": {}}");

    let explicit = ToolInfo::new(
        "flubb".to_string(),
        "Flubbs.".to_string(),
        Some("{\"type\": \"object\"}".to_string()),
    );
    assert_eq!(explicit.parameters, "{\"type\": \"object\"}");
}

#[test]
fn tool_name_charset_check() {
    let ok = ToolInfo::new("add_memory-2".to_string(), "d".to_string(), None);
    assert!(ok.check_name());
    let bad = ToolInfo::new("no spaces allowed".to_string(), "d".to_string(), None);
    assert!(!bad.check_name());
    let long = ToolInfo::new("x".repeat(65), "d".to_string(), None);
    assert!(!long.check_name());
    let just_fits = ToolInfo::new("x".repeat(64), "d".to_string(), None);
    assert!(just_fits.check_name());
}

#[test]
fn model_identifiers() {
    assert_eq!(Gemma27B3.model_str(), "google/gemma-3-27b-it");
    assert!(!Gemma27B3.no_sys_prompt());
    assert_eq!(Phi4.model_str(), "microsoft/phi-4");
    assert!(Phi4.no_sys_prompt());
    let custom = AnthropicModelId {
        id: "test-model".to_string(),
    };
    assert_eq!(AnthropicModel::model_str(&custom), "test-model");
}

#[test]
fn turn_clone_preserves_content() {
    let t = Turn {
        role: Role::Assistant,
        content: vec![
            Message::text("a".to_string()),
            Message::ToolCall {
                id: "1".to_string(),
                name: "n".to_string(),
                arguments: "{}".to_string(),
            },
        ],
    };
    let c = t.clone();
    assert_eq!(c.role, t.role);
    assert_eq!(c.content, t.content);
}
