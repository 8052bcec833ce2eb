use panel_rust::gateway_actor::classify_raw_update;
use panel_rust::gateway_actor::command_loop::{
    cancel_call, next_quiet_wait, AcpxThreadError, Answer, Command, CommandLoop, Next, Occurrence,
};
use panel_rust::gateway_actor::forwarder::{
    forwarder_start, forwarder_step, out_of_band_event, ForwarderEvent, ForwarderStep,
    RelayedRequest,
};
use panel_rust::gateway_actor::session_opener::{
    classify, created, profile_from_key, provider_profile_key, resumed, CallResult,
    GatewaySessionOpener, PoolKey,
    NO_PROFILE_SENTINEL,
};
use panel_rust::gateway_actor::thread_actor::{
    emit_capability_events, forward_updates, list_entries, parse_capability_update,
    parse_config_options, parse_profiles, parse_session_modes, parse_terminal_output,
};
use panel_rust::json::JsonValue;
use panel_rust::protocol_types::{AgentEvent, MessageKind};

fn json(text: &str) -> JsonValue {
    JsonValue::parse(text).expect("JSON")
}

fn update_notification(session_update: &str) -> JsonValue {
    json(&format!(
        r#"{{"jsonrpc":"2.0","method":"session/update","params":{{"sessionId":"s1","update":{session_update}}}}}"#
    ))
}

#[test]
fn agent_message_chunk_maps_to_agent_kind() {
    let update = update_notification(
        r#"{"sessionUpdate":"agent_message_chunk","content":{"type":"text","text":"hello"}}"#,
    );
    let msg = classify_raw_update(&update).expect("message");
    assert_eq!(msg.kind, MessageKind::Agent);
    assert_eq!(msg.text, "hello");
    assert_eq!(msg.status, None);
    assert_eq!(msg.id, None);
}

#[test]
fn agent_message_chunk_extracts_message_id_when_present() {
    let update = update_notification(
        r#"{"sessionUpdate":"agent_message_chunk","messageId":"msg-42","content":{"type":"text","text":"hello"}}"#,
    );
    let msg = classify_raw_update(&update).expect("message");
    assert_eq!(msg.id.as_deref(), Some("msg-42"));
}

#[test]
fn tool_call_extracts_tool_call_id() {
    let update = update_notification(
        r#"{"sessionUpdate":"tool_call","toolCallId":"tc-7","title":"ffmpeg.export(...)","status":"in_progress"}"#,
    );
    let msg = classify_raw_update(&update).expect("message");
    assert_eq!(msg.id.as_deref(), Some("tc-7"));
}

#[test]
fn agent_thought_chunk_maps_to_thinking_kind() {
    let update = update_notification(
        r#"{"sessionUpdate":"agent_thought_chunk","content":{"type":"text","text":"considering..."}}"#,
    );
    let msg = classify_raw_update(&update).expect("message");
    assert_eq!(msg.kind, MessageKind::Thinking);
}

#[test]
fn tool_call_carries_status_into_chat_message() {
    let update = update_notification(
        r#"{"sessionUpdate":"tool_call","toolCallId":"tc-1","title":"ffmpeg.export(...)","status":"in_progress"}"#,
    );
    let msg = classify_raw_update(&update).expect("message");
    assert_eq!(msg.kind, MessageKind::ToolCall);
    assert_eq!(msg.text, "ffmpeg.export(...)");
    assert_eq!(msg.status.as_deref(), Some("in_progress"));
}

#[test]
fn status_only_tool_call_update_still_produces_a_message() {
    let update = update_notification(
        r#"{"sessionUpdate":"tool_call_update","toolCallId":"tc-1","status":"completed"}"#,
    );
    let msg = classify_raw_update(&update).expect("message");
    assert_eq!(msg.kind, MessageKind::ToolCall);
    assert_eq!(msg.text, "");
    assert_eq!(msg.status.as_deref(), Some("completed"));
}

#[test]
fn tool_call_update_with_neither_title_nor_status_is_dropped() {
    let update =
        update_notification(r#"{"sessionUpdate":"tool_call_update","toolCallId":"tc-1"}"#);
    assert!(classify_raw_update(&update).is_none());
}

#[test]
fn non_session_update_method_is_ignored() {
    let other = json(r#"{"jsonrpc":"2.0","id":1,"result":{"ok":true}}"#);
    assert!(classify_raw_update(&other).is_none());
}

#[test]
fn unknown_session_update_kind_is_ignored_not_an_error() {
    let update = update_notification(r#"{"sessionUpdate":"plan"}"#);
    assert!(classify_raw_update(&update).is_none());
}

#[test]
fn provider_profile_key_round_trips_through_the_sentinel() {
    assert_eq!(provider_profile_key(Some("codex")), "codex");
    assert_eq!(provider_profile_key(None), NO_PROFILE_SENTINEL);

    let key_with_profile = PoolKey::new("/proj", "agent-1", provider_profile_key(Some("codex")));
    assert_eq!(profile_from_key(&key_with_profile), Some("codex"));

    let key_without_profile = PoolKey::new("/proj", "agent-1", provider_profile_key(None));
    assert_eq!(profile_from_key(&key_without_profile), None);
}

#[test]
fn parse_session_modes_reads_current_and_available() {
    let modes = json(
        r#"{"currentModeId":"ask","availableModes":[{"id":"ask","name":"Ask"},{"id":"code","name":"Code","description":"Autonomous coding"}]}"#,
    );
    let parsed = parse_session_modes(&modes).expect("parses");
    assert_eq!(parsed.current_mode_id, "ask");
    assert_eq!(parsed.available.len(), 2);
    assert_eq!(parsed.available[1].id, "code");
    assert_eq!(
        parsed.available[1].description.as_deref(),
        Some("Autonomous coding")
    );
}

#[test]
fn parse_session_modes_is_none_for_null_or_missing_fields() {
    assert!(parse_session_modes(&JsonValue::Null).is_none());
    assert!(parse_session_modes(&json(r#"{"currentModeId":"ask"}"#)).is_none());
    assert!(parse_session_modes(&json(r#"{"availableModes":[]}"#)).is_none());
}

#[test]
fn parse_session_modes_accepts_an_empty_available_list() {
    let modes = json(r#"{"currentModeId":"ask","availableModes":[]}"#);
    let parsed = parse_session_modes(&modes).expect("parses");
    assert_eq!(parsed.current_mode_id, "ask");
    assert!(parsed.available.is_empty());
}

#[test]
fn parse_config_options_reads_select_options_and_current_value() {
    let options = json(
        r#"[{"id":"model","name":"Model","description":"Which model to use","category":"model","type":"select","currentValue":"gpt-5","options":[{"value":"gpt-5","name":"GPT-5"},{"value":"gpt-5-mini","name":"GPT-5 mini","description":"Cheaper"}]}]"#,
    );
    let parsed = parse_config_options(&options).expect("parses");
    assert_eq!(parsed.len(), 1);
    assert_eq!(parsed[0].id, "model");
    assert_eq!(parsed[0].kind, "select");
    assert_eq!(parsed[0].current_value.as_deref(), Some("gpt-5"));
    assert_eq!(parsed[0].options.len(), 2);
    assert_eq!(parsed[0].options[1].description.as_deref(), Some("Cheaper"));
}

#[test]
fn parse_config_options_skips_entries_without_an_id_but_keeps_the_rest() {
    let options = json(r#"[{"name":"no id here"},{"id":"model","currentValue":"gpt-5"}]"#);
    let parsed = parse_config_options(&options).expect("parses");
    assert_eq!(parsed.len(), 1);
    assert_eq!(parsed[0].id, "model");
    assert_eq!(parsed[0].name, "model");
    assert_eq!(parsed[0].kind, "select");
}

#[test]
fn parse_config_options_is_none_for_a_non_array_value() {
    assert!(parse_config_options(&json(r#"{"id":"model"}"#)).is_none());
}

#[test]
fn parse_capability_update_recognizes_current_mode_update() {
    let update = update_notification(
        r#"{"sessionUpdate":"current_mode_update","currentModeId":"code"}"#,
    );
    match parse_capability_update(&update).expect("parses") {
        AgentEvent::CurrentModeChanged(id) => assert_eq!(id, "code"),
        other => panic!("expected CurrentModeChanged, got {other:?}"),
    }
}

#[test]
fn parse_capability_update_recognizes_config_option_update() {
    let update = update_notification(
        r#"{"sessionUpdate":"config_option_update","configOptions":[{"id":"model","currentValue":"gpt-5-mini"}]}"#,
    );
    match parse_capability_update(&update).expect("parses") {
        AgentEvent::ConfigOptions(options) => {
            assert_eq!(options.len(), 1);
            assert_eq!(options[0].current_value.as_deref(), Some("gpt-5-mini"));
        },
        other => panic!("expected ConfigOptions, got {other:?}"),
    }
}

#[test]
fn parse_capability_update_ignores_unrelated_session_updates() {
    let update = update_notification(r#"{"sessionUpdate":"plan"}"#);
    assert!(parse_capability_update(&update).is_none());
}

#[test]
fn usage_updates_count_missing_numbers_as_zero() {
    let update = update_notification(r#"{"sessionUpdate":"usage_update","used":12}"#);
    assert_eq!(
        parse_capability_update(&update),
        Some(AgentEvent::UsageUpdate { used: 12, size: 0 })
    );
}

#[test]
fn terminal_output_is_read_with_its_exit() {
    let value = json(
        r#"{"method":"acpx/terminal_output","params":{"terminalId":"t1","output":"ok\n","truncated":true,"exitStatus":{"exitCode":0}}}"#,
    );
    let event = parse_terminal_output(&value).expect("terminal output");
    assert_eq!(event.terminal_id, "t1");
    assert_eq!(event.output, "ok\n");
    assert!(event.truncated);
    assert_eq!(event.exit_status, Some((Some(0), None)));
    assert!(parse_terminal_output(&json(r#"{"method":"session/update"}"#)).is_none());
}

#[test]
fn a_notification_is_an_event_on_one_side_only() {
    let terminal = json(
        r#"{"method":"acpx/terminal_output","params":{"terminalId":"t1","output":"x"}}"#,
    );
    assert!(forward_updates(&[terminal]).is_empty());
    let chunk = update_notification(
        r#"{"sessionUpdate":"agent_message_chunk","content":{"text":"hello"}}"#,
    );
    assert!(out_of_band_event(None, &chunk).is_none());
    assert_eq!(forward_updates(&[chunk]).len(), 1);
}

#[test]
fn a_relayed_request_becomes_a_permission_request() {
    let event = out_of_band_event(
        Some(RelayedRequest {
            relay_id: "r1".to_owned(),
            method: None,
            request: json(r#"{"id":7}"#),
        }),
        &JsonValue::Null,
    );
    match event {
        Some(AgentEvent::PermissionRequest(request)) => {
            assert_eq!(request.relay_id, "r1");
            assert_eq!(request.method, "");
            assert_eq!(request.raw_request, json(r#"{"id":7}"#));
        },
        other => panic!("unexpected {other:?}"),
    }
}

#[test]
fn forwarding_reconnects_until_that_fails() {
    assert_eq!(forwarder_start(false), ForwarderStep::Stop);
    assert_eq!(forwarder_start(true), ForwarderStep::Subscribe);
    assert_eq!(forwarder_step(ForwarderEvent::Subscribed(true)), ForwarderStep::Listen);
    assert_eq!(forwarder_step(ForwarderEvent::Subscribed(false)), ForwarderStep::Reconnect);
    assert_eq!(forwarder_step(ForwarderEvent::Lagged), ForwarderStep::Listen);
    assert_eq!(forwarder_step(ForwarderEvent::Notified), ForwarderStep::Listen);
    assert_eq!(forwarder_step(ForwarderEvent::Closed), ForwarderStep::Reconnect);
    assert_eq!(forwarder_step(ForwarderEvent::Disconnected), ForwarderStep::Reconnect);
    assert_eq!(forwarder_step(ForwarderEvent::Reconnected(true)), ForwarderStep::Subscribe);
    assert_eq!(forwarder_step(ForwarderEvent::Reconnected(false)), ForwarderStep::Stop);
}

#[test]
fn advertised_modes_and_options_are_told_in_order() {
    let answer = json(
        r#"{"sessionId":"s1","modes":{"currentModeId":"ask","availableModes":[]},"configOptions":[{"id":"model"}]}"#,
    );
    let events = emit_capability_events(&answer);
    assert_eq!(events.len(), 2);
    assert!(matches!(&events[0], AgentEvent::SessionModes(modes) if modes.current_mode_id == "ask"));
    assert!(matches!(&events[1], AgentEvent::ConfigOptions(options) if options.len() == 1));
}

#[test]
fn profiles_without_a_name_are_left_out() {
    let value = json(
        r#"{"profiles":[{"name":"p","agent_id":"a","allow_terminal_access":true},{"agent_id":"b"}]}"#,
    );
    let profiles = parse_profiles(&value);
    assert_eq!(profiles.len(), 1);
    assert_eq!(profiles[0].name, "p");
    assert!(profiles[0].allow_terminal_access);
    assert!(!profiles[0].allow_fs_access);
    assert_eq!(list_entries(&value, "profiles").len(), 2);
    assert!(list_entries(&value, "agents").is_empty());
}

#[test]
fn a_command_without_a_session_makes_no_call() {
    let mut actor = CommandLoop::new();
    let outcome = actor.step(Occurrence::Asked(Command::SendPrompt { text: "hi".to_owned() }));
    match outcome.next {
        Next::Reply(Answer::Failure(AcpxThreadError::NoActiveSession)) => {},
        other => panic!("unexpected {other:?}"),
    }
    match cancel_call(&None) {
        Err(AcpxThreadError::NoActiveSession) => {},
        other => panic!("unexpected {other:?}"),
    }
    assert_eq!(cancel_call(&Some("s1".to_owned())).unwrap().method, "session/cancel");
}

#[test]
fn an_opened_session_is_bound_and_a_turn_ends_with_its_reason() {
    let mut actor = CommandLoop::new();
    let outcome = actor.step(Occurrence::Asked(Command::OpenSession {
        cwd: "/proj".to_owned(),
        profile: None,
        mcp_servers: vec![],
    }));
    match outcome.next {
        Next::Call(call) => assert_eq!(call.method, "session/new"),
        other => panic!("unexpected {other:?}"),
    }
    let outcome = actor.step(Occurrence::Answered {
        value: json(r#"{"sessionId":"s1"}"#),
        updates: vec![],
    });
    assert_eq!(outcome.bound.as_deref(), Some("s1"));
    match outcome.next {
        Next::Reply(Answer::Session(id)) => assert_eq!(id, "s1"),
        other => panic!("unexpected {other:?}"),
    }
    let outcome = actor.step(Occurrence::Asked(Command::SendPrompt { text: "hi".to_owned() }));
    match outcome.next {
        Next::Call(call) => {
            assert_eq!(call.method, "session/prompt");
            assert!(call.with_updates);
        },
        other => panic!("unexpected {other:?}"),
    }
}

#[test]
fn an_opening_that_fails_is_tried_again_and_then_given_up() {
    let mut actor = CommandLoop::new();
    actor.step(Occurrence::Asked(Command::OpenSession {
        cwd: "/proj".to_owned(),
        profile: None,
        mcp_servers: vec![],
    }));
    let mut pauses = Vec::new();
    loop {
        let outcome = actor.step(Occurrence::Failed("refused".to_owned()));
        match outcome.next {
            Next::Pause { millis } => {
                pauses.push(millis);
                actor.step(Occurrence::Rested);
            },
            Next::Reply(Answer::Failure(error)) => {
                assert!(error.message().contains("refused"));
                break;
            },
            other => panic!("unexpected {other:?}"),
        }
    }
    assert_eq!(pauses, vec![100, 200, 300, 400]);
}

#[test]
fn the_wait_for_quiet_is_bounded() {
    assert_eq!(next_quiet_wait(0), Some(75));
    assert_eq!(next_quiet_wait(480), Some(20));
    assert_eq!(next_quiet_wait(500), None);
    assert_eq!(next_quiet_wait(10_000), None);
}

#[test]
fn failures_of_a_pool_session_are_classified() {
    assert!(!classify(true, "no".to_owned()).retryable);
    assert!(classify(false, "no".to_owned()).retryable);
    let opener = GatewaySessionOpener::new(JsonValue::Array(vec![]));
    let key = PoolKey::new("/proj", "agent-1", provider_profile_key(Some("p")));
    let call = opener.create_call(&key);
    assert_eq!(call.method, "session/new");
    assert_eq!(call.profile.as_deref(), Some("p"));
    assert_eq!(
        created(CallResult::Value(json(r#"{"sessionId":"s9"}"#))).unwrap(),
        "s9"
    );
    assert!(created(CallResult::Value(json("{}"))).is_err());
    assert_eq!(
        resumed("saved", CallResult::Value(json("{}"))).unwrap(),
        "saved"
    );
}
