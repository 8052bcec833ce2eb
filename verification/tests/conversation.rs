use panel_rust::conversation::{
    rebuild_from_chat_messages, ConversationEvent, ConversationState, TranscriptItem,
};
use panel_rust::protocol_types::{ChatMessage, MessageKind};

fn chunk(thread: &str, id: &str, text: &str, completed: bool) -> ConversationEvent {
    ConversationEvent::AssistantChunk {
        thread_id: thread.to_owned(),
        message_id: id.to_owned(),
        text: text.to_owned(),
        completed,
    }
}

fn message(kind: MessageKind, text: &str, id: Option<&str>) -> ChatMessage {
    ChatMessage {
        kind,
        text: text.to_owned(),
        status: None,
        id: id.map(|s| s.to_owned()),
        raw_input: None,
        raw_output: None,
    }
}

#[test]
fn chunks_merge_by_message_id_and_do_not_cross_threads() {
    let mut state = ConversationState::new("thread-a");
    assert!(state.apply(ConversationEvent::AssistantChunk {
        thread_id: "thread-a".to_owned(),
        message_id: "message-1".to_owned(),
        text: "Hello".to_owned(),
        completed: false,
    }));
    assert!(state.apply(ConversationEvent::AssistantChunk {
        thread_id: "thread-a".to_owned(),
        message_id: "message-1".to_owned(),
        text: " world".to_owned(),
        completed: true,
    }));
    assert!(!state.apply(ConversationEvent::AssistantChunk {
        thread_id: "thread-b".to_owned(),
        message_id: "message-1".to_owned(),
        text: " ignored".to_owned(),
        completed: true,
    }));
    assert_eq!(
        state.items(),
        &[TranscriptItem::Assistant {
            message_id: "message-1".to_owned(),
            text: "Hello world".to_owned(),
            streaming: false,
        }]
    );
}

#[test]
fn tool_updates_merge_by_tool_call_id() {
    let mut state = ConversationState::new("thread-a");
    state.apply(ConversationEvent::ToolCall {
        thread_id: "thread-a".to_owned(),
        tool_call_id: "tool-1".to_owned(),
        title: Some("Read file".to_owned()),
        status: Some("in_progress".to_owned()),
        detail: None,
        raw_input: Some(r#"{"path":"src/main.rs"}"#.to_owned()),
        raw_output: None,
    });
    state.apply(ConversationEvent::ToolCall {
        thread_id: "thread-a".to_owned(),
        tool_call_id: "tool-1".to_owned(),
        title: None,
        status: Some("completed".to_owned()),
        detail: Some("src/main.rs".to_owned()),
        raw_input: None,
        raw_output: Some(r#"{"ok":true}"#.to_owned()),
    });
    assert_eq!(state.items().len(), 1);
    assert!(matches!(
        &state.items()[0],
        TranscriptItem::Tool {
            title,
            status,
            detail,
            raw_input,
            raw_output,
            ..
        } if title == "Read file"
            && status.as_deref() == Some("completed")
            && detail.as_deref() == Some("src/main.rs")
            && raw_input.as_deref() == Some(r#"{"path":"src/main.rs"}"#)
            && raw_output.as_deref() == Some(r#"{"ok":true}"#)
    ));
}

#[test]
fn terminal_deltas_merge_by_terminal_id_before_and_after_create() {
    let mut state = ConversationState::new("thread-a");
    state.apply(ConversationEvent::TerminalOutput {
        thread_id: "thread-a".to_owned(),
        terminal_id: "terminal-1".to_owned(),
        text: "building\n".to_owned(),
    });
    state.apply(ConversationEvent::TerminalCreated {
        thread_id: "thread-a".to_owned(),
        terminal_id: "terminal-1".to_owned(),
        title: "cargo test".to_owned(),
    });
    state.apply(ConversationEvent::TerminalExited {
        thread_id: "thread-a".to_owned(),
        terminal_id: "terminal-1".to_owned(),
        exit_code: 0,
    });
    assert!(matches!(
        &state.items()[0],
        TranscriptItem::Terminal { title, output, exit_code, .. }
            if title == "cargo test" && output == "building\n" && *exit_code == Some(0)
    ));
}

#[test]
fn a_kept_item_is_the_only_one_with_its_key() {
    let mut state = ConversationState::new("t");
    for i in 0..4 {
        assert!(state.apply(chunk("t", if i % 2 == 0 { "a" } else { "b" }, "x", false)));
    }
    assert_eq!(state.items().len(), 2);
    assert_eq!(
        state.items()[0],
        TranscriptItem::Assistant {
            message_id: "a".to_owned(),
            text: "xx".to_owned(),
            streaming: true,
        }
    );
}

#[test]
fn marking_all_completed_settles_every_stream() {
    let mut state = ConversationState::new("t");
    state.apply(chunk("t", "a", "x", false));
    state.apply(ConversationEvent::ThoughtChunk {
        thread_id: "t".to_owned(),
        message_id: "h".to_owned(),
        text: "hm".to_owned(),
        completed: false,
    });
    state.mark_all_streaming_completed();
    for item in state.items() {
        match item {
            TranscriptItem::Assistant { streaming, .. } => assert!(!streaming),
            TranscriptItem::Thought { streaming, .. } => assert!(!streaming),
            other => panic!("unexpected {other:?}"),
        }
    }
}

#[test]
fn rebuilt_chunks_without_an_id_share_one_and_a_user_message_closes_the_run() {
    let history = vec![
        message(MessageKind::User, "hi", None),
        message(MessageKind::Agent, "Hel", None),
        message(MessageKind::Agent, "lo", None),
        message(MessageKind::User, "again", None),
        message(MessageKind::Agent, "Yes", None),
    ];
    let state = rebuild_from_chat_messages("t", &history);
    let texts: Vec<String> = state
        .items()
        .iter()
        .map(|item| match item {
            TranscriptItem::User { text, .. } => format!("user {text}"),
            TranscriptItem::Assistant { text, streaming, .. } => {
                assert!(!streaming);
                format!("agent {text}")
            },
            other => panic!("unexpected {other:?}"),
        })
        .collect();
    assert_eq!(texts, vec!["user hi", "agent Hello", "user again", "agent Yes"]);
}

#[test]
fn a_chunk_with_an_id_of_its_own_closes_the_run() {
    let history = vec![
        message(MessageKind::Agent, "a", Some("m1")),
        message(MessageKind::Agent, "b", None),
        message(MessageKind::Agent, "c", None),
        message(MessageKind::Agent, "d", Some("m1")),
        message(MessageKind::Agent, "e", None),
    ];
    let state = rebuild_from_chat_messages("t", &history);
    let item = |id: &str, text: &str| TranscriptItem::Assistant {
        message_id: id.to_owned(),
        text: text.to_owned(),
        streaming: false,
    };
    assert_eq!(
        state.items(),
        &[item("m1", "ad"), item("synthetic-1", "bc"), item("synthetic-2", "e")]
    );
}

#[test]
fn thought_chunks_join_and_a_user_message_is_replaced_in_place() {
    let thought = |text: &str, completed: bool| ConversationEvent::ThoughtChunk {
        thread_id: "t".to_owned(),
        message_id: "m".to_owned(),
        text: text.to_owned(),
        completed,
    };
    let said = |text: &str| ConversationEvent::UserMessage {
        thread_id: "t".to_owned(),
        message_id: "m".to_owned(),
        text: text.to_owned(),
    };
    let mut apart = ConversationState::new("t");
    let mut whole = ConversationState::new("t");
    assert!(apart.apply(said("first")));
    assert!(apart.apply(thought("a", true)));
    assert!(apart.apply(said("second")));
    assert!(apart.apply(thought("b", false)));
    assert!(whole.apply(said("second")));
    assert!(whole.apply(thought("ab", false)));
    assert_eq!(apart.items(), whole.items());
    assert_eq!(apart.items().len(), 2);
}

#[test]
fn a_longer_history_keeps_the_earlier_rows() {
    let mut history = vec![
        message(MessageKind::User, "hi", None),
        message(MessageKind::Agent, "Hel", Some("m1")),
    ];
    let before = rebuild_from_chat_messages("t", &history);
    assert_eq!(before.items().len(), 2);
    history.push(message(MessageKind::Agent, "lo", Some("m1")));
    history.push(message(MessageKind::User, "bye", None));
    let after = rebuild_from_chat_messages("t", &history);
    assert_eq!(after.items().len(), 3);
    assert_eq!(after.items()[0], before.items()[0]);
    assert!(matches!(
        &after.items()[1],
        TranscriptItem::Assistant { message_id, text, .. } if message_id == "m1" && text == "Hello"
    ));
}

#[test]
fn pieces_with_one_id_make_one_item() {
    let mut state = ConversationState::new("thread-a");
    state.upsert_user("u1".to_owned(), "first".to_owned());
    state.merge_text("m1".to_owned(), "Hel".to_owned(), false, false);
    state.merge_text("m1".to_owned(), "hm".to_owned(), false, true);
    state.merge_text("m1".to_owned(), "lo".to_owned(), true, false);
    state.upsert_user("u1".to_owned(), "second".to_owned());
    assert_eq!(
        state.items(),
        &[
            TranscriptItem::User { message_id: "u1".to_owned(), text: "second".to_owned() },
            TranscriptItem::Assistant {
                message_id: "m1".to_owned(),
                text: "Hello".to_owned(),
                streaming: false,
            },
            TranscriptItem::Thought {
                message_id: "m1".to_owned(),
                text: "hm".to_owned(),
                streaming: true,
            },
        ]
    );
}
