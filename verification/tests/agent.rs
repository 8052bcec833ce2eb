use panel_rust::json::JsonValue;
use panel_rust::mock_agent::state::SessionState;
use panel_rust::mock_agent::turns::{
    built_in_offers, permission_decided, persona_commands, persona_prefix, prompt_turn,
    slow_turn_ended, stream_chunks, terminal_ended, terminal_step, AgentUpdate, PermissionAnswer,
    TerminalAnswer, TerminalEnd, TerminalStep, Turn, TurnEnd, CHUNK_LEN, TERMINAL_ASKS,
};
use panel_rust::mock_agent::{config_options, record_gateway_event, MockAgent};

fn agent(persona: &str) -> MockAgent {
    MockAgent::new(persona.to_owned(), built_in_offers())
}

fn state<'a>(agent: &'a MockAgent, id: &str) -> &'a SessionState {
    &agent.sessions.iter().find(|s| s.0 == id).expect("a session").1
}

#[test]
fn sessions_get_ids_of_their_own() {
    let mut agent = agent("");
    let first = agent.new_session();
    let second = agent.new_session();
    assert_eq!(first, "mock-session-1");
    assert_eq!(second, "mock-session-3");
    assert_eq!(state(&agent, &first).title, "New session");
    assert_eq!(state(&agent, &first).updated_at, "t2");
    assert_eq!(state(&agent, &second).model, "mock-model-a");
    assert!(agent.resume_session(&first).is_ok());
    assert_eq!(agent.resume_session("other").unwrap_err(), "unknown session id");
}

#[test]
fn a_turn_echoes_the_prompt_in_upper_case_behind_the_persona() {
    let mut agent = agent("codex");
    let id = agent.new_session();
    let prompted = agent.prompt(&id, "fix it");
    assert_eq!(
        prompted.turn,
        Turn::Plain {
            updates: vec![
                AgentUpdate::Thought("considering: fix it".to_owned()),
                AgentUpdate::Tool {
                    id: "mock-tool-1".to_owned(),
                    title: "mock_tool(input=fix it)".to_owned(),
                },
                AgentUpdate::Message("[CODEX] FIX IT".to_owned()),
            ]
        }
    );
    assert!(matches!(prompted.first.as_slice(), [AgentUpdate::Commands(c)] if c.len() == 2));
    assert_eq!(state(&agent, &id).title, "Turn 1: fix it");
    assert!(agent.prompt(&id, "again").first.is_empty());
    assert_eq!(state(&agent, &id).title, "Turn 2: again");
}

#[test]
fn loading_tells_what_the_turns_told() {
    let mut agent = agent("");
    let id = agent.new_session();
    let mut told = Vec::new();
    for text in ["one", "two"] {
        match agent.prompt(&id, text).turn {
            Turn::Plain { updates } => told.extend(updates),
            other => panic!("unexpected {other:?}"),
        }
    }
    assert_eq!(agent.load_session(&id).unwrap(), told);
    assert_eq!(agent.load_session("other").unwrap_err(), "unknown session id");
}

#[test]
fn every_turn_changes_the_list_of_sessions() {
    let mut agent = agent("");
    let id = agent.new_session();
    let mut seen = Vec::new();
    for text in ["a", "a", "a"] {
        agent.prompt(&id, text);
        let line = agent.list_sessions().remove(0);
        assert_eq!(line.cwd, "/");
        assert!(!seen.contains(&(line.title.clone(), line.updated_at.clone())));
        seen.push((line.title, line.updated_at));
    }
}

#[test]
fn words_at_the_start_choose_the_turn() {
    assert!(matches!(prompt_turn("", "slow test"), Turn::Slow { thought: AgentUpdate::Thought(t) } if t == "considering (slow): test"));
    assert_eq!(
        prompt_turn("", "permission run"),
        Turn::Permission { title: "run".to_owned() }
    );
    assert_eq!(
        prompt_turn("", "terminal a b"),
        Turn::Terminal { argument: "a b".to_owned() }
    );
    assert_eq!(
        prompt_turn("grok", "stream **bold**"),
        Turn::Stream {
            pieces: vec!["[GROK]".to_owned(), " **bol".to_owned(), "d**".to_owned()]
        }
    );
    let mut agent = agent("");
    let id = agent.new_session();
    agent.prompt(&id, "slow x");
    assert_eq!(state(&agent, &id).turn_count, 0);
    let planned = agent.prompt(&id, "plan the fix");
    assert_eq!(planned.first.len(), 2);
    assert!(matches!(&planned.first[0], AgentUpdate::Plan(steps) if steps.len() == 2));
    assert_eq!(planned.first[1], AgentUpdate::Title("Fixing the login bug".to_owned()));
}

#[test]
fn pieces_of_a_stream_are_the_text_and_cut_no_character() {
    for body in ["", "short", "exactly6bytes!!", "\u{1F600}\u{1F600}\u{e4}bc\u{2003}xyz and more"] {
        let pieces = stream_chunks(body);
        assert_eq!(pieces.concat(), body);
        for (i, piece) in pieces.iter().enumerate() {
            assert!(piece.len() < CHUNK_LEN + 4);
            if i + 1 < pieces.len() {
                assert!(piece.len() >= CHUNK_LEN);
            }
        }
    }
    assert_eq!(
        stream_chunks("\u{1F600}\u{1F600}x"),
        vec!["\u{1F600}\u{1F600}".to_owned(), "x".to_owned()]
    );
}

#[test]
fn personas_are_told_apart() {
    assert_eq!(persona_prefix(""), "");
    assert_eq!(persona_prefix("grok"), "[GROK] ");
    assert_eq!(persona_prefix("stra\u{df}e"), "[STRASSE] ");
    let names = |p: &str| -> Vec<String> {
        persona_commands(&built_in_offers(), p).into_iter().map(|c| c.name).collect()
    };
    assert_eq!(names("codex"), vec!["codex_plan", "codex_review"]);
    assert_eq!(names("grok"), vec!["grok_search"]);
    assert!(names("other").is_empty());
}

#[test]
fn decisions_and_terminals_are_told() {
    let (word, update) = permission_decided("", PermissionAnswer::Selected("allow-once".to_owned()));
    assert_eq!(word, "allow-once");
    assert_eq!(
        update,
        AgentUpdate::Message("permission decision: allow-once".to_owned())
    );
    assert_eq!(permission_decided("", PermissionAnswer::Cancelled).0, "cancelled");
    assert_eq!(permission_decided("", PermissionAnswer::NoResponse).0, "no-response");
    assert_eq!(slow_turn_ended(true), TurnEnd::Cancelled);
    assert_eq!(slow_turn_ended(false), TurnEnd::EndTurn);

    let empty = || TerminalAnswer::Gave { output: String::new(), exited: false };
    assert_eq!(terminal_step(0, empty()), TerminalStep::Ask);
    assert_eq!(
        terminal_step(TERMINAL_ASKS - 1, empty()),
        TerminalStep::Ended(TerminalEnd::Output(String::new()))
    );
    assert_eq!(
        terminal_step(0, TerminalAnswer::Failed("x".to_owned())),
        TerminalStep::Ended(TerminalEnd::OutputFailed("x".to_owned()))
    );
    let report = terminal_ended("codex", TerminalEnd::CreateFailed("denied".to_owned()));
    assert_eq!(
        report.failure,
        Some(("terminal/create_error".to_owned(), "denied".to_owned()))
    );
    assert_eq!(report.output, "terminal-create-error");
    assert_eq!(
        report.update,
        AgentUpdate::Message("[CODEX] terminal-create-error".to_owned())
    );
}

#[test]
fn the_model_of_a_session_stays_set() {
    let mut agent = agent("");
    let id = agent.new_session();
    let params = JsonValue::parse(&format!(
        r#"{{"sessionId":"{id}","configId":"model","value":"mock-model-b"}}"#
    ))
    .unwrap();
    let set = agent.set_config_option(&params);
    assert_eq!(set.detail, "model=mock-model-b");
    assert_eq!(set.answer.get("configOptions"), Some(&config_options("mock-model-b")));
    agent.prompt(&id, "hello");
    assert_eq!(state(&agent, &id).model, "mock-model-b");
    let other = JsonValue::parse(r#"{"sessionId":"gone","configId":"model","value":"x"}"#).unwrap();
    assert_eq!(
        agent.set_config_option(&other).answer.get("configOptions"),
        Some(&config_options("x"))
    );
}

#[test]
fn sessions_survive_a_restart_and_deleted_ones_are_gone() {
    let mut first = agent("");
    let kept = first.new_session();
    let gone = first.new_session();
    first.prompt(&kept, "remember");
    first.delete_session(&gone);
    assert!(!first.knows(&gone));
    let saved = first.persist_sessions();
    let mut second = agent("");
    second.load_persisted_sessions(&saved);
    assert_eq!(second.sessions, first.sessions);
    assert_eq!(second.load_session(&kept), first.load_session(&kept));
    second.load_persisted_sessions(r#"{"x":{"title":"t"}}"#);
    assert_eq!(second.sessions, first.sessions);
}

#[test]
fn records_are_lines_of_json() {
    assert_eq!(
        record_gateway_event("codex", "session/new", Some("s1"), "/proj"),
        "{\"method\":\"session/new\",\"session_id\":\"s1\",\"detail\":\"/proj\",\"persona\":\"codex\"}\n"
    );
    assert_eq!(
        record_gateway_event("", "unhandled", None, "x"),
        "{\"method\":\"unhandled\",\"session_id\":null,\"detail\":\"x\",\"persona\":\"\"}\n"
    );
}

#[test]
fn a_session_that_counts_no_more_turns_still_takes_those_that_are_not_counted() {
    let mut agent = agent("");
    let id = agent.new_session();
    agent.sessions[0].1.turn_count = u64::MAX;
    for text in ["slow x", "stream x", "permission x", "terminal x"] {
        assert!(!matches!(agent.prompt(&id, text).turn, Turn::Plain { .. }));
        assert_eq!(state(&agent, &id).turn_count, u64::MAX);
    }
}

#[test]
fn saved_sessions_with_a_repeated_field_are_not_taken_over() {
    let session = |extra: &str| {
        format!(
            r#"{{"title":"t","updated_at":"t1","turn_count":0,"replay_turns":[],"model":"m"{extra}}}"#
        )
    };
    let taken = |text: String| {
        let mut agent = agent("");
        agent.load_persisted_sessions(&text);
        agent.sessions.iter().map(|s| s.0.clone()).collect::<Vec<String>>()
    };
    let good = session("");
    assert_eq!(taken(format!(r#"{{"a":{good}}}"#)), vec!["a"]);
    let repeated = session(r#","title":"u""#);
    assert!(taken(format!(r#"{{"a":{repeated}}}"#)).is_empty());
    let unread = session(r#","other":1,"other":2"#);
    assert_eq!(taken(format!(r#"{{"a":{unread}}}"#)), vec!["a"]);
    assert_eq!(taken(format!(r#"{{"a":{good},"a":{good}}}"#)), vec!["a"]);
    assert!(taken(format!(r#"{{"a":{repeated},"a":{good}}}"#)).is_empty());
    assert!(taken(format!(r#"{{"a":1,"a":{good}}}"#)).is_empty());
    let turns = good.replace("[]", r#"[{"prompt_text":"x","prompt_text":"y"}]"#);
    assert!(taken(format!(r#"{{"a":{turns}}}"#)).is_empty());
}
