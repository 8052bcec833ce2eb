use panel_rust::json::JsonValue;
use panel_rust::jsonl_format::{
    line_from_json, message_to_json, trailer_from_json, trailer_to_json, Line, ThreadTrailer,
};
use panel_rust::jsonl_store::{
    compute_offsets, index_after_append, message_line_bytes, page_from_lines, page_range,
    read_index, use_of_index, write_index, CacheError, IndexChange, IndexUse, IoReason,
    JsonlStore, MessagePage,
};
use panel_rust::protocol_types::{
    AgentRequestEvent, ChatMessage, ConfigOptionInfo, ConfigOptionValue, MessageKind,
    SessionModeInfo, SessionModesEvent,
};
use panel_rust::runtime_snapshot::{Stored, TerminalRuntimeSnapshot, ThreadRuntimeSnapshot};

fn msg(text: &str) -> ChatMessage {
    ChatMessage {
        kind: MessageKind::Agent,
        text: text.to_string(),
        status: None,
        id: None,
        raw_input: None,
        raw_output: None,
    }
}

fn trailer() -> ThreadTrailer {
    ThreadTrailer {
        acp_session_id: "s1".into(),
        title: None,
        updated_at: None,
        message_count: 0,
    }
}

fn texts(messages: &[ChatMessage]) -> Vec<&str> {
    messages.iter().map(|m| m.text.as_str()).collect()
}

/// The files of a thread, moved to a fresh store without one of them.
fn without(store: &JsonlStore, gone: &str) -> JsonlStore {
    let mut out = JsonlStore::open("cache");
    for path in [
        store.path_for("t1"),
        store.index_path_for("t1"),
        store.trailer_path_for("t1"),
    ] {
        if path != gone {
            if let Some(bytes) = store.file(&path) {
                out.put_file(path, bytes.clone());
            }
        }
    }
    out
}

#[test]
fn load_round_trips_overwrite_and_reports_no_cache_as_empty_not_error() {
    let mut store = JsonlStore::open("cache");

    let empty = store.load("missing-thread").expect("load missing");
    assert!(empty.messages.is_empty());
    assert!(empty.trailer.is_none());

    let messages = vec![msg("hello"), msg("world")];
    store.overwrite("t1", &messages, &trailer());
    let loaded = store.load("t1").expect("load t1");
    assert_eq!(loaded.messages, messages);
    assert_eq!(loaded.trailer.unwrap().acp_session_id, "s1");
}

#[test]
fn append_grows_the_file_without_disturbing_the_trailer() {
    let mut store = JsonlStore::open("cache");
    store.overwrite("t1", &[msg("first")], &trailer());
    store.append("t1", &msg("second"));
    let loaded = store.load("t1").expect("load");
    assert_eq!(loaded.messages.len(), 2);
    assert_eq!(loaded.messages[1].text, "second");
    assert_eq!(loaded.trailer.unwrap().acp_session_id, "s1");
}

#[test]
fn tail_returns_the_newest_page_in_order_with_older_available_flag() {
    let mut store = JsonlStore::open("cache");
    let messages: Vec<ChatMessage> = (0..10).map(|i| msg(&format!("m{i}"))).collect();
    store.overwrite("t1", &messages, &trailer());

    let page = store.tail("t1", 3).expect("tail");
    assert_eq!(texts(&page.messages), vec!["m7", "m8", "m9"]);
    assert!(page.older_available);
    assert_eq!(page.oldest_loaded_index, 7);
}

#[test]
fn tail_with_page_size_covering_everything_reports_no_older_available() {
    let mut store = JsonlStore::open("cache");
    store.overwrite("t1", &[msg("a"), msg("b")], &trailer());
    let page = store.tail("t1", 50).expect("tail");
    assert_eq!(page.messages.len(), 2);
    assert!(!page.older_available);
    assert_eq!(page.oldest_loaded_index, 0);
}

#[test]
fn predecessor_page_walks_backward_from_a_prior_page_boundary() {
    let mut store = JsonlStore::open("cache");
    let messages: Vec<ChatMessage> = (0..10).map(|i| msg(&format!("m{i}"))).collect();
    store.overwrite("t1", &messages, &trailer());

    let tail_page = store.tail("t1", 3).expect("tail");
    let older = store
        .predecessor_page("t1", tail_page.oldest_loaded_index, 3)
        .expect("predecessor_page");
    assert_eq!(texts(&older.messages), vec!["m4", "m5", "m6"]);
    assert!(older.older_available);
    assert_eq!(older.oldest_loaded_index, 4);

    let earliest = store
        .predecessor_page("t1", older.oldest_loaded_index, 100)
        .expect("predecessor_page to start");
    assert_eq!(texts(&earliest.messages), vec!["m0", "m1", "m2", "m3"]);
    assert!(!earliest.older_available);
    assert_eq!(earliest.oldest_loaded_index, 0);
}

#[test]
fn appended_messages_are_immediately_visible_to_tail_via_the_incremental_index() {
    let mut store = JsonlStore::open("cache");
    store.overwrite("t1", &[msg("a")], &trailer());
    store.append("t1", &msg("b"));
    store.append("t1", &msg("c"));

    let page = store.tail("t1", 2).expect("tail");
    assert_eq!(texts(&page.messages), vec!["b", "c"]);
    assert_eq!(store.message_count("t1").expect("message_count"), 3);
}

#[test]
fn index_is_transparently_rebuilt_when_the_idx_file_is_missing() {
    let mut full = JsonlStore::open("cache");
    full.overwrite("t1", &[msg("a"), msg("b"), msg("c")], &trailer());
    let index = full.index_path_for("t1");
    assert_eq!(index, "cache/t1.idx");
    let mut store = without(&full, &index);
    assert!(store.file(&index).is_none());

    let page = store.tail("t1", 2).expect("tail after index removed");
    assert_eq!(texts(&page.messages), vec!["b", "c"]);
    assert!(store.file(&index).is_some());
}

#[test]
fn tail_stays_bounded_against_a_real_ten_thousand_message_jsonl_file() {
    let mut store = JsonlStore::open("cache");
    let big_text = "x".repeat(1024);
    let messages: Vec<ChatMessage> = (0..10_000)
        .map(|i| msg(&format!("m{i}-{big_text}")))
        .collect();
    store.overwrite("t1", &messages, &trailer());

    let jsonl_len = store.file("cache/t1.jsonl").expect("jsonl metadata").len();
    assert!(
        jsonl_len > 5 * 1024 * 1024,
        "expected a genuinely multi-megabyte jsonl file, got {jsonl_len} bytes"
    );

    let page = store.tail("t1", 50).expect("tail");
    assert_eq!(page.messages.len(), 50);
    assert_eq!(page.messages[0].text, "m9950-".to_string() + &big_text);
    assert_eq!(page.messages[49].text, "m9999-".to_string() + &big_text);
    assert!(page.older_available);
    assert_eq!(page.oldest_loaded_index, 9_950);

    let older = store
        .predecessor_page("t1", page.oldest_loaded_index, 20)
        .expect("predecessor_page");
    assert_eq!(older.messages.len(), 20);
    assert_eq!(older.messages[0].text, "m9930-".to_string() + &big_text);
    assert_eq!(older.messages[19].text, "m9949-".to_string() + &big_text);
}

#[test]
fn trailer_is_readable_without_touching_the_jsonl_file_and_none_when_absent() {
    let mut full = JsonlStore::open("cache");
    assert!(full.trailer("missing").expect("trailer missing").is_none());

    full.overwrite("t1", &[msg("a")], &trailer());
    let read_back = full
        .trailer("t1")
        .expect("trailer t1")
        .expect("some trailer");
    assert_eq!(read_back.acp_session_id, "s1");

    let store = without(&full, &full.path_for("t1"));
    let still_readable = store.trailer("t1").expect("trailer after jsonl removed");
    assert_eq!(still_readable.unwrap().acp_session_id, "s1");
}

#[test]
fn is_stale_matches_pre_existing_diff_semantics() {
    assert!(JsonlStore::is_stale(None, &None, &None));
    let t = ThreadTrailer {
        acp_session_id: "s".into(),
        title: Some("Title".into()),
        updated_at: Some("2026-01-01".into()),
        message_count: 1,
    };
    assert!(!JsonlStore::is_stale(
        Some(&t),
        &Some("Title".into()),
        &Some("2026-01-01".into())
    ));
    assert!(JsonlStore::is_stale(
        Some(&t),
        &Some("Title".into()),
        &Some("2026-02-01".into())
    ));
}

fn snapshot() -> ThreadRuntimeSnapshot {
    ThreadRuntimeSnapshot {
        pending_requests: vec![AgentRequestEvent {
            relay_id: "relay-1".into(),
            method: "terminal/create".into(),
            raw_request: JsonValue::parse(r#"{"id":7,"method":"terminal/create"}"#).unwrap(),
        }],
        terminals: vec![TerminalRuntimeSnapshot {
            terminal_id: "term-1".into(),
            output: "building\n".into(),
            truncated: false,
            exit_status: Some((Some(0), None)),
        }],
        session_modes: Some(SessionModesEvent {
            current_mode_id: "ask".into(),
            available: vec![SessionModeInfo {
                id: "ask".into(),
                name: "Ask".into(),
                description: None,
            }],
        }),
        config_options: vec![ConfigOptionInfo {
            id: "model".into(),
            name: "Model".into(),
            description: None,
            category: None,
            kind: "select".into(),
            current_value: Some("fast".into()),
            options: vec![ConfigOptionValue {
                value: "fast".into(),
                name: "Fast".into(),
                description: None,
            }],
        }],
    }
}

#[test]
fn runtime_snapshot_round_trips_without_mutating_transcript_or_trailer() {
    let mut store = JsonlStore::open("cache");
    store.overwrite("t1", &[msg("transcript")], &trailer());
    let snapshot = snapshot();
    store.write_runtime_snapshot("t1", &snapshot);

    assert_eq!(store.runtime_snapshot("t1").expect("read snapshot"), snapshot);
    assert_eq!(
        store.load("t1").expect("read transcript").messages,
        vec![msg("transcript")],
        "writing interaction state must not rewrite message JSONL"
    );
    assert_eq!(
        store
            .trailer("t1")
            .expect("read trailer")
            .expect("trailer")
            .acp_session_id,
        "s1",
        "writing interaction state must not rewrite transcript metadata"
    );
}

#[test]
fn a_snapshot_that_was_not_written_is_empty() {
    let store = JsonlStore::open("cache");
    let empty = store.runtime_snapshot("t1").expect("read snapshot");
    assert!(empty.pending_requests.is_empty());
    assert!(empty.terminals.is_empty());
    assert!(empty.session_modes.is_none());
    assert!(empty.config_options.is_empty());
    let written = snapshot().to_json();
    assert_eq!(ThreadRuntimeSnapshot::from_json(&written), Some(snapshot()));
}

#[test]
fn the_files_of_two_threads_differ() {
    let store = JsonlStore::open("cache");
    let paths = [
        store.path_for("a"),
        store.path_for("b"),
        store.index_path_for("a"),
        store.trailer_path_for("a"),
        store.runtime_snapshot_path_for("a"),
    ];
    for i in 0..paths.len() {
        for k in 0..i {
            assert_ne!(paths[i], paths[k]);
        }
    }
    assert_eq!(store.path_for("a"), "cache/a.jsonl");
}

#[test]
fn pages_put_together_are_the_whole_thread() {
    let mut store = JsonlStore::open("cache");
    let messages: Vec<ChatMessage> = (0..7).map(|i| msg(&format!("m{i}"))).collect();
    store.overwrite("t1", &messages, &trailer());
    let mut page = store.tail("t1", 3).expect("tail");
    let mut all = page.messages;
    while page.older_available {
        let older = store
            .predecessor_page("t1", page.oldest_loaded_index, 3)
            .expect("page");
        let mut joined = older.messages;
        joined.append(&mut all);
        all = joined;
        page = MessagePage {
            messages: vec![],
            older_available: older.older_available,
            oldest_loaded_index: older.oldest_loaded_index,
        };
    }
    assert_eq!(all, messages);
}

#[test]
fn a_malformed_line_is_told_with_its_number() {
    let mut store = JsonlStore::open("cache");
    store.put_file(
        "cache/t1.jsonl".to_owned(),
        b"{\"kind\":\"nonsense\"\n".to_vec(),
    );
    match store.load("t1") {
        Err(CacheError::Parse { path, line_no }) => {
            assert_eq!(path, "cache/t1.jsonl");
            assert_eq!(line_no, 1);
        },
        other => panic!("unexpected {:?}", other.is_ok()),
    }
    store.put_file("cache/t2.jsonl".to_owned(), vec![0xff, 0xfe, 10]);
    match store.load("t2") {
        Err(CacheError::Io { reason, .. }) => assert_eq!(reason, IoReason::InvalidUtf8),
        other => panic!("unexpected {:?}", other.is_ok()),
    }
}

#[test]
fn a_message_and_a_trailer_survive_their_json() {
    let mut message = msg("tool \"quoted\" \u{1F600}\n");
    message.kind = MessageKind::ToolCall;
    message.status = Some("completed".to_owned());
    message.id = Some("tc-1".to_owned());
    message.raw_input = Some(JsonValue::parse(r#"{"path":"a","n":[1,-2]}"#).unwrap());
    let text = message_to_json(&message).to_text();
    assert!(!text.contains('\n'));
    match line_from_json(&JsonValue::parse(&text).unwrap()) {
        Some(Line::Message(read)) => assert_eq!(read, message),
        _ => panic!("not a message"),
    }
    let t = ThreadTrailer {
        acp_session_id: "s".into(),
        title: Some("Title".into()),
        updated_at: None,
        message_count: 3,
    };
    let text = trailer_to_json(&t).to_text();
    assert_eq!(trailer_from_json(&JsonValue::parse(&text).unwrap()), Some(t));
}

#[test]
fn an_index_reads_back_what_was_written() {
    let offsets = vec![0u64, 17, 4096, u64::MAX];
    let written = write_index(&offsets);
    assert_eq!(written, b"0\n17\n4096\n18446744073709551615\n".to_vec());
    assert_eq!(read_index(&written), offsets);
    let mut content = message_to_json(&msg("a")).to_text().into_bytes();
    content.push(10);
    let second = content.len() as u64;
    content.extend(b"{\"line_kind\":\"trailer\"}\n");
    let third = content.len() as u64;
    content.extend(message_to_json(&msg("b")).to_text().into_bytes());
    assert_eq!(compute_offsets(&content), vec![0, third]);
    assert!(second < third);
}

#[test]
fn an_append_to_a_thread_without_an_index_indexes_all_of_it() {
    let mut full = JsonlStore::open("cache");
    full.overwrite("t1", &[msg("a"), msg("b")], &trailer());
    let index = full.index_path_for("t1");
    let mut store = without(&full, &index);
    store.append("t1", &msg("c"));
    let page = store.tail("t1", 2).expect("tail");
    assert_eq!(texts(&page.messages), vec!["b", "c"]);
    assert!(page.older_available);
    assert_eq!(page.oldest_loaded_index, 1);
    assert_eq!(store.message_count("t1").expect("count"), 3);

    let mut store = without(&full, &index);
    store.put_file(index, b"none\n".to_vec());
    store.append("t1", &msg("c"));
    assert_eq!(store.message_count("t1").expect("count"), 3);
}

#[test]
fn the_count_is_that_of_the_loaded_messages() {
    let mut store = JsonlStore::open("cache");
    assert_eq!(store.message_count("t1").expect("count"), 0);
    store.append("t1", &msg("a"));
    let mut odd = msg("b");
    odd.raw_input = Some(JsonValue::Null);
    store.append("t1", &odd);
    store.update_trailer("t1", &trailer());
    store.write_runtime_snapshot("t1", &snapshot());
    let loaded = store.load("t1").expect("load").messages;
    assert_eq!(store.message_count("t1").expect("count"), 2);
    assert_eq!(loaded.len(), 2);
    assert_eq!(loaded[1].raw_input, None);
    store.overwrite("t1", &[odd], &trailer());
    assert_eq!(store.message_count("t1").expect("count"), 1);
    store.append("t1", &msg("c"));
    assert_eq!(store.message_count("t1").expect("count"), 2);
}

#[test]
fn a_walk_back_takes_as_many_pages_as_are_needed() {
    let mut store = JsonlStore::open("cache");
    let messages: Vec<ChatMessage> = (0..6).map(|i| msg(&format!("m{i}"))).collect();
    store.overwrite("t1", &messages, &trailer());
    let newest = store.tail("t1", 3).expect("tail");
    assert!(newest.older_available);
    let oldest = store.predecessor_page("t1", newest.oldest_loaded_index, 3).expect("page");
    assert!(!oldest.older_available);
    assert_eq!(oldest.oldest_loaded_index, 0);
    assert_eq!(texts(&oldest.messages), vec!["m0", "m1", "m2"]);
}

#[test]
fn fields_can_stand_by_position() {
    let by_position = JsonValue::parse(r#"["s1", null, "now", 3]"#).unwrap();
    let read = trailer_from_json(&by_position).expect("a trailer");
    assert_eq!(read.acp_session_id, "s1");
    assert_eq!(read.title, None);
    assert_eq!(read.updated_at.as_deref(), Some("now"));
    assert_eq!(read.message_count, 3);
    assert!(trailer_from_json(&JsonValue::parse(r#"["s1", null]"#).unwrap()).is_none());
    let snapshot = JsonValue::parse(r#"[[], [["t", "out", true, null]]]"#).unwrap();
    let snapshot = ThreadRuntimeSnapshot::from_json(&snapshot).expect("a snapshot");
    assert_eq!(snapshot.terminals[0].output, "out");
    assert!(snapshot.config_options.is_empty());
}

#[test]
fn a_page_is_made_of_its_own_lines() {
    let mut store = JsonlStore::open("cache");
    store.overwrite("t1", &[msg("a"), msg("b"), msg("c")], &trailer());
    let whole = store.tail("t1", 2).expect("tail");
    let path = store.path_for("t1");
    let offsets = read_index(store.file(&store.index_path_for("t1")).unwrap());
    let (start, end) = page_range(offsets.len(), None, 2);
    assert_eq!((start, end), (1, 3));
    assert_eq!(page_range(3, Some(1), 2), (0, 1));
    assert_eq!(page_range(3, Some(9), 2), (1, 3));
    let content = store.file(&path).unwrap();
    let lines: Vec<Vec<u8>> = offsets[start..end]
        .iter()
        .map(|o| content[*o as usize..].split(|b| *b == b'\n').next().unwrap().to_vec())
        .collect();
    assert_eq!(page_from_lines(path.clone(), &lines, start).expect("page"), whole);
    let torn = vec![b"{".to_vec()];
    assert_eq!(
        page_from_lines(path.clone(), &torn, 0),
        Err(CacheError::Parse { path: path.clone(), line_no: 0 })
    );
    let bytes = vec![vec![0xff]];
    assert_eq!(
        page_from_lines(path.clone(), &bytes, 0),
        Err(CacheError::Io { path, reason: IoReason::InvalidUtf8 })
    );
}

#[test]
fn an_append_adds_one_line_to_each_file() {
    let mut store = JsonlStore::open("cache");
    store.append("t1", &msg("a"));
    let lines = store.file(&store.path_for("t1")).unwrap().clone();
    let index = store.file(&store.index_path_for("t1")).unwrap().clone();
    assert_eq!(lines, message_line_bytes(&msg("a")));
    assert_eq!(index, b"0\n");
    store.append("t1", &msg("b"));
    let mut grown = lines.clone();
    grown.extend(message_line_bytes(&msg("b")));
    assert_eq!(store.file(&store.path_for("t1")).unwrap(), &grown);
    let added = format!("{}\n", lines.len()).into_bytes();
    let mut listed = index.clone();
    listed.extend(&added);
    assert_eq!(store.file(&store.index_path_for("t1")).unwrap(), &listed);
    let offset = lines.len() as u64;
    assert_eq!(index_after_append(Some(&index), offset), IndexChange::Add(added.clone()));
    assert_eq!(index_after_append(Some(&[0xff]), offset), IndexChange::Add(added));
    assert_eq!(index_after_append(None, 0), IndexChange::Begin(b"0\n".to_vec()));
    assert_eq!(index_after_append(Some(b"x\n"), 0), IndexChange::Begin(b"0\n".to_vec()));
    assert_eq!(index_after_append(None, offset), IndexChange::Rebuild);
    assert_eq!(index_after_append(Some(b""), offset), IndexChange::Rebuild);
}

#[test]
fn an_index_that_lists_nothing_is_rebuilt_where_there_are_lines() {
    assert_eq!(use_of_index(None, 0), IndexUse::Rebuild);
    assert_eq!(use_of_index(Some(b"x\n"), 7), IndexUse::Rebuild);
    assert_eq!(use_of_index(Some(b""), 0), IndexUse::Listed(vec![]));
    assert_eq!(use_of_index(Some(b"0\n12\n"), 7), IndexUse::Listed(vec![0, 12]));
    assert_eq!(use_of_index(Some(&[0xff]), 7), IndexUse::NotText);
}

#[test]
fn the_files_of_another_thread_stay() {
    let mut store = JsonlStore::open("cache");
    store.overwrite("t2", &[msg("kept")], &trailer());
    let before: Vec<Option<Vec<u8>>> = files(&store, "t2");
    store.overwrite("t1", &[msg("a"), msg("b")], &trailer());
    store.append("t1", &msg("c"));
    store.update_trailer("t1", &trailer());
    store.write_runtime_snapshot("t1", &ThreadRuntimeSnapshot::default());
    assert_eq!(files(&store, "t2"), before);
    assert_eq!(texts(&store.load("t2").expect("load").messages), vec!["kept"]);
}

fn files(store: &JsonlStore, id: &str) -> Vec<Option<Vec<u8>>> {
    [
        store.path_for(id),
        store.index_path_for(id),
        store.trailer_path_for(id),
        store.runtime_snapshot_path_for(id),
    ]
    .iter()
    .map(|path| store.file(path).cloned())
    .collect()
}

#[test]
fn lines_can_stand_as_arrays() {
    let read = |text: &str| line_from_json(&JsonValue::parse(text).unwrap());
    match read(r#"["message", "agent", "hello", null, "m1", null, null]"#) {
        Some(Line::Message(message)) => {
            assert_eq!(message.text, "hello");
            assert_eq!(message.id.as_deref(), Some("m1"));
            assert_eq!(message.status, None);
        }
        other => panic!("{other:?}"),
    }
    assert!(matches!(
        read(r#"["trailer", "s1", null, "now", 3]"#),
        Some(Line::Trailer(t)) if t.acp_session_id == "s1" && t.message_count == 3
    ));
    assert!(read(r#"["message", "agent", "hello"]"#).is_none());
    assert!(read(r#"["message", "agent", "hello", null, "m1", null, null, null]"#).is_none());
    assert!(read(r#"["other", "s1", null, "now", 3]"#).is_none());
    assert!(read(r#"[]"#).is_none());
    let mut store = JsonlStore::open("cache");
    let line = br#"["message", "agent", "hello", null, null, null, null]"#;
    store.put_file(store.path_for("t1"), line.to_vec());
    assert_eq!(texts(&store.load("t1").expect("load").messages), vec!["hello"]);
}

#[test]
fn a_field_that_stands_twice_is_refused() {
    let malformed = |store: &JsonlStore| {
        assert_eq!(
            store.load("t1").map(|_| ()),
            Err(CacheError::Parse { path: store.path_for("t1"), line_no: 1 })
        );
    };
    let mut store = JsonlStore::open("cache");
    let path = store.path_for("t1");
    let line = |extra: &str| {
        format!(
            r#"{{"line_kind":"message","kind":"agent","text":"a","status":null,"id":null{extra}}}"#
        )
        .into_bytes()
    };
    store.put_file(path.clone(), line(r#","other":1,"other":2"#));
    assert_eq!(texts(&store.load("t1").expect("load").messages), vec!["a"]);
    store.put_file(path.clone(), line(r#","raw_input":{"x":1,"x":2}"#));
    let kept = store.load("t1").expect("load");
    let last = JsonValue::parse(r#"{"x":2}"#).unwrap();
    assert_eq!(kept.messages[0].raw_input, Some(last));
    store.put_file(path.clone(), line(r#","text":"b""#));
    malformed(&store);
    store.put_file(path, line(r#","line_kind":"message""#));
    malformed(&store);

    let trailer = br#"{"acpSessionId":"s","title":null,"title":"t","updatedAt":null,"messageCount":0}"#;
    let path = store.trailer_path_for("t1");
    store.put_file(path.clone(), trailer.to_vec());
    assert_eq!(store.trailer("t1"), Err(CacheError::Parse { path, line_no: 0 }));

    let path = store.runtime_snapshot_path_for("t1");
    for (text, read) in [
        (r#"{"terminals":[],"configOptions":[]}"#, true),
        (r#"{"terminals":[],"terminals":[]}"#, false),
        (r#"{"sessionModes":{"current_mode_id":"m","available":[],"available":[]}}"#, false),
        (
            r#"{"terminals":[{"terminalId":"t","output":"","output":"x","truncated":false}]}"#,
            false,
        ),
        (r#"{"terminals":[{"terminalId":"t","output":"","truncated":false}]}"#, true),
    ] {
        store.put_file(path.clone(), text.as_bytes().to_vec());
        assert_eq!(store.runtime_snapshot("t1").is_ok(), read, "{text}");
    }
}
