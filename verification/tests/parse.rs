//! Tests for the structured-output extractors.

use mini_prompt::parse::{
    markdown_codeblock, multiclass, select_code_block, tagged, CodeBlock, EnumOptions,
    MarkdownOptions, TagOptions,
};

#[test]
fn find_markdown_json_trailing() {
    // Empty
    assert_eq!(
        markdown_codeblock("\n            ", &MarkdownOptions::json()),
        None
    );
    // Easy
    assert_eq!(
        markdown_codeblock(
            "\nSome random earlier text.\n```json\n{\"and\": \"blueberries\"}\n```\n            ",
            &MarkdownOptions::json()
        ),
        Some("{\"and\": \"blueberries\"}".to_string()),
    );

    // Make sure order is respected
    assert_eq!(
        markdown_codeblock(
            "\n```json\n{\"and\": \"swiggity swooty\"}\n```\nSome random earlier text.\n```json\n{\"and\": \"blueberries\"}\n```\n            ",
            &MarkdownOptions::json()
        ),
        Some("{\"and\": \"blueberries\"}".to_string()),
    );
}

#[test]
fn find_markdown_json_leading() {
    assert_eq!(
        markdown_codeblock(
            "\nMerrpp\n```json\n{\"and\": \"swiggity swooty\"}\n```\nSome random earlier text.\n```json\n{\"and\": \"blueberries\"}\n```\n            ",
            &MarkdownOptions::json().leading()
        ),
        Some("{\"and\": \"swiggity swooty\"}".to_string()),
    );
}

#[test]
fn find_markdown_requested_lang_only() {
    // A json block, a python block and an untagged block: requesting json
    // returns only the json block, from either direction.
    let text = "```json\n{\"a\": 1}\n```\nmiddle\n```python\nprint(2)\n```\nmore\n```\nplain\n```\n";
    assert_eq!(
        markdown_codeblock(text, &MarkdownOptions::json()),
        Some("{\"a\": 1}".to_string())
    );
    assert_eq!(
        markdown_codeblock(text, &MarkdownOptions::json().leading()),
        Some("{\"a\": 1}".to_string())
    );
    assert_eq!(
        markdown_codeblock(text, &MarkdownOptions::python()),
        Some("print(2)".to_string())
    );
}

#[test]
fn find_markdown_untagged_when_no_lang_requested() {
    let text = "```rust\nlet x = 1;\n```\n\n```\nplain text\n```\n";
    let opts = MarkdownOptions {
        from_back: true,
        require_lang: false,
        lang: None,
    };
    assert_eq!(markdown_codeblock(text, &opts), Some("plain text".to_string()));
    // With a language required and none requested, nothing qualifies.
    let strict = MarkdownOptions {
        from_back: true,
        require_lang: true,
        lang: None,
    };
    assert_eq!(markdown_codeblock(text, &strict), None);
}

#[test]
fn find_markdown_empty_input() {
    assert_eq!(markdown_codeblock("", &MarkdownOptions::json()), None);
    assert_eq!(markdown_codeblock("", &MarkdownOptions::json().leading()), None);
}

#[test]
fn select_code_block_direction() {
    let blocks = vec![
        CodeBlock {
            lang: Some("json".to_string()),
            text: "first".to_string(),
        },
        CodeBlock {
            lang: None,
            text: "untagged".to_string(),
        },
        CodeBlock {
            lang: Some("json".to_string()),
            text: "second".to_string(),
        },
    ];
    assert_eq!(
        select_code_block(&blocks, &MarkdownOptions::json()),
        Some("second".to_string())
    );
    assert_eq!(
        select_code_block(&blocks, &MarkdownOptions::json().leading()),
        Some("first".to_string())
    );
    assert_eq!(
        select_code_block(&blocks, &MarkdownOptions::python()),
        None
    );
}

#[test]
fn parse_multiclass_simple() {
    assert_eq!(
        multiclass(
            "So based on the given input, the answer is:\nanswer: query\nuwu",
            &EnumOptions::from(vec!["query".to_string(), "action".to_string()])
        ),
        Some("query".to_string())
    );
}

#[test]
fn parse_multiclass_respects_last() {
    assert_eq!(
        multiclass(
            "So based on the given input, the answer is:\nanswer: query\nanswer: action",
            &EnumOptions::from(vec!["query".to_string(), "action".to_string()])
        ),
        Some("action".to_string())
    );
}

#[test]
fn parse_multiclass_missing_space_bad_caps() {
    assert_eq!(
        multiclass(
            "So based on the given input, the answer is:\nanswer: query\nanswer:AcTiON",
            &EnumOptions::from(vec!["query".to_string(), "action".to_string()])
        ),
        Some("action".to_string())
    );
}

#[test]
fn parse_multiclass_no_match() {
    let opts = EnumOptions::from(vec!["query".to_string(), "action".to_string()]);
    assert_eq!(multiclass("no answer line at all", &opts), None);
    assert_eq!(multiclass("answer: banana", &opts), None);
    assert_eq!(multiclass("", &opts), None);
    // The separating colon must follow the key immediately.
    assert_eq!(multiclass("answer query", &opts), None);
}

#[test]
fn parse_multiclass_trims_and_lowers() {
    let opts = EnumOptions::from(vec!["query".to_string(), "action".to_string()]);
    assert_eq!(
        multiclass("  ANSWER:   Query   ", &opts),
        Some("query".to_string())
    );
}

#[test]
fn parse_tagged_simple() {
    assert_eq!(
        tagged(
            "So based on the given input, the answer is:\n<answer>query</answer>",
            &TagOptions::default()
        ),
        Some(("query", ""))
    );
}

#[test]
fn parse_tagged_multiple() {
    let a1 = tagged(
        "So based on the given input, the answer is:\n<answer>swiggity</answer>\n<answer>swooty</answer>\n",
        &TagOptions::default(),
    );
    assert_eq!(a1, Some(("swiggity", "\n<answer>swooty</answer>\n")));
    assert_eq!(
        tagged(a1.unwrap().1, &TagOptions::default()),
        Some(("swooty", "\n"))
    );
}

#[test]
fn parse_tagged_missing() {
    assert_eq!(
        tagged(
            "Some text\nWhere the tag is not to be found",
            &TagOptions::default()
        ),
        None
    );
    assert_eq!(
        tagged(
            "The tag isnt present, but a different one is:\n<blueberries>query</blueberries>",
            &TagOptions::default()
        ),
        None
    );
}

#[test]
fn parse_tagged_stray_brackets() {
    // Stray opening brackets in prose are skipped; the real span is found.
    assert_eq!(
        tagged("a < b and c < d, but <answer>yes</answer>!", &TagOptions::default()),
        Some(("yes", "!"))
    );
    // An opening tag without a closer resolves nothing.
    assert_eq!(tagged("<answer>never closed", &TagOptions::default()), None);
}

#[test]
fn parse_tagged_custom_key() {
    let opts = TagOptions {
        key: "add_memory".to_string(),
    };
    assert_eq!(
        tagged("noted <add_memory>{\"text\": \"x\"}</add_memory> done", &opts),
        Some(("{\"text\": \"x\"}", " done"))
    );
}
