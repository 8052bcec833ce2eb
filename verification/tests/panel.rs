use panel_rust::json::{JsonError, JsonValue};
use panel_rust::model::{McpServerEntry, McpToolCatalog, Model, ThreadModel, ThreadState};
use panel_rust::panel::{
    dispatch_agent_website_clicked, form_agent, open_md_link_target, panel_rust_buffer_len,
    panel_rust_height, panel_rust_poll, panel_rust_render_impl, panel_rust_width, prompt_to_send,
    WebsiteClick,
};
use panel_rust::paths::{components, file_name, join_path, parent, same_path};
use panel_rust::text::{comes_before, decimal_text, ends_with, parse_u64, text_from_chars, trim};

#[test]
fn a_busy_panel_is_painted() {
    let mut model = Model::default();
    model.threads = vec![ThreadModel::default()];
    let quiet = panel_rust_poll(Some(&model), false, false, "Connected");
    assert!(!quiet.needs_paint && !quiet.redraw);
    let changed = panel_rust_poll(Some(&model), true, false, "Connected");
    assert!(changed.needs_paint && !changed.redraw);
    assert!(panel_rust_poll(Some(&model), false, false, "Connecting...").redraw);
    model.threads[0].state = ThreadState::Loading;
    assert!(panel_rust_poll(Some(&model), false, false, "").redraw);
    model.threads[0].state = ThreadState::Idle;
    model.available_mcp_servers = vec![McpServerEntry {
        name: "files".to_owned(),
        definition: JsonValue::Null,
        tool_catalog: Some(McpToolCatalog::Fetching),
    }];
    assert!(panel_rust_poll(Some(&model), false, false, "").needs_paint);
    assert!(!panel_rust_poll(None, true, true, "").needs_paint);
}

#[test]
fn a_panel_that_is_too_small_is_not_drawn() {
    assert!(!panel_rust_render_impl(None));
    assert!(!panel_rust_render_impl(Some((10, 480))));
    assert!(panel_rust_render_impl(Some((640, 480))));
    assert_eq!(panel_rust_buffer_len(Some(100)), 400);
    assert_eq!(panel_rust_buffer_len(None), 0);
    assert_eq!(panel_rust_width(Some((96, 64))), 96);
    assert_eq!(panel_rust_height(None), 0);
}

#[test]
fn links_are_opened_with_the_configured_program() {
    let opening = open_md_link_target("https://example.org", None).expect("an opening");
    assert_eq!(opening.program, "xdg-open");
    assert_eq!(opening.target, "https://example.org");
    let with = open_md_link_target("https://example.org", Some("firefox")).expect("an opening");
    assert_eq!(with.program, "firefox");
    assert!(matches!(
        dispatch_agent_website_clicked("https://example.org", None),
        WebsiteClick::Open(_)
    ));
    assert!(matches!(
        dispatch_agent_website_clicked("javascript:alert(1)", None),
        WebsiteClick::Refuse(_)
    ));
    assert_eq!(dispatch_agent_website_clicked("", None), WebsiteClick::Nothing);
}

#[test]
fn prompts_are_trimmed() {
    assert_eq!(prompt_to_send("  hi \n").as_deref(), Some("hi"));
    assert_eq!(prompt_to_send(" \t\u{2003} "), None);
    assert_eq!(form_agent(String::new()), None);
    assert_eq!(form_agent("codex".to_owned()).as_deref(), Some("codex"));
}

#[test]
fn paths_are_joined_and_taken_apart() {
    assert_eq!(join_path("/a", "b"), "/a/b");
    assert_eq!(file_name("/a/b.mlt").as_deref(), Some("b.mlt"));
    assert_eq!(parent("/a/b.mlt").as_deref(), Some("/a"));
}

#[test]
fn numbers_and_texts() {
    assert_eq!(decimal_text(0), "0");
    assert_eq!(decimal_text(u64::MAX), "18446744073709551615");
    assert_eq!(parse_u64("18446744073709551615"), Some(u64::MAX));
    assert_eq!(parse_u64("18446744073709551616"), None);
    assert_eq!(parse_u64("+7"), Some(7));
    assert_eq!(parse_u64(""), None);
    assert_eq!(trim("\u{a0} x \u{3000}"), "x");
    assert_eq!(text_from_chars(&['a', '\u{1F600}']), "a\u{1F600}");
    assert!(ends_with("SKILL.md", ".md"));
    assert!(comes_before("a", "b") && !comes_before("b", "a") && comes_before("a", "aa"));
}

#[test]
fn json_is_read_and_printed() {
    let value = JsonValue::parse(r#" {"b": [1, -2, true, null], "a": "x\u0001"} "#).unwrap();
    assert_eq!(value.to_text(), r#"{"b":[1,-2,true,null],"a":"x\u0001"}"#);
    assert_eq!(JsonValue::parse(&value.to_text()), Ok(value));
    assert_eq!(JsonValue::parse("{"), Err(JsonError));
    let float = JsonValue::parse("1.5").unwrap();
    assert!(matches!(float, JsonValue::Float(_)));
    assert_eq!(float.to_text(), "1.5");
    assert_eq!(
        JsonValue::parse("18446744073709551615").unwrap(),
        JsonValue::Int(u64::MAX as i128)
    );
}

#[test]
fn paths_are_compared_by_their_components() {
    assert_eq!(components("/a//b/./c/"), vec!["/", "a", "b", "c"]);
    assert_eq!(components("./a"), vec![".", "a"]);
    assert!(components("").is_empty());
    assert_eq!(components("//"), vec!["/"]);
    for (a, b) in [("/a//b", "/a/b"), ("a/.", "a"), ("./a", "a"), ("/a", "a"), ("a/..", "")] {
        assert_eq!(same_path(a, b), std::path::Path::new(a) == std::path::Path::new(b), "{a} {b}");
    }
}
