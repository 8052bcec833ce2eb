use panel_rust::external_snapshot::frame::{collect_frame_input, FrameSignals, FrameTimers};
use panel_rust::external_snapshot::thread_list::{
    collect_thread_list_snapshot, placeholder_thread_id, probes_agent, thread_list_columns,
    IndexedItem, ThreadFacts,
};
use panel_rust::external_snapshot::thread_view::{
    collect_selected_thread_snapshot, collect_thread_snapshot_for, selected_provider, BridgeFrame,
    ContextUsage, TerminalBuffer, TerminalSlot,
};
use panel_rust::external_snapshot::{
    collect_thread_record, collect_thread_record_snapshots, hydrate_thread_ids_from_bridge,
    shows_starting_thread_loading, skills_rescan_due,
};
use panel_rust::json::JsonValue;
use panel_rust::model::{
    BridgeThread, Model, PanelState, ThreadBinding, ThreadItem, ThreadModel, ThreadState,
};
use panel_rust::session_cache::{
    refresh_session_subscription, SessionCache, SessionDerivedState, SessionSnapshot,
    SessionUpdate, MAX_WAITING,
};

fn slot(id: Option<&str>, session: Option<&str>) -> BridgeThread {
    BridgeThread {
        thread_id: id.map(|s| s.to_owned()),
        binding: session.map(|s| ThreadBinding {
            thread_id: id.unwrap_or("").to_owned(),
            session_id: s.to_owned(),
        }),
        provider: Some("codex".to_owned()),
        project_path: None,
        attachment_error: None,
        closed: false,
        archived: false,
        deferred: false,
        local_terminal: false,
    }
}

fn thread(id: &str) -> ThreadModel {
    ThreadModel {
        thread_id: id.to_owned(),
        display_name: format!("name {id}"),
        provider: "codex".to_owned(),
        ..ThreadModel::default()
    }
}

fn panel(threads: Vec<ThreadModel>, bridge: Vec<BridgeThread>) -> PanelState {
    let mut model = Model::default();
    model.visible_indices = (0..threads.len()).collect();
    model.threads = threads;
    PanelState {
        model,
        bridge: Some(bridge),
        component: true,
        store: true,
        width: 640,
        height: 480,
    }
}

fn item(status: &str) -> ThreadItem {
    ThreadItem {
        name: "n".to_owned(),
        status: status.to_owned(),
        description: String::new(),
        busy: false,
        closed: false,
        archived: false,
        unread: false,
        background_session: false,
        provider: "codex".to_owned(),
        model: String::new(),
        project_name: String::new(),
        project_path: String::new(),
        project_instance_live: false,
        profile_name: String::new(),
        has_session: false,
    }
}

#[test]
fn shows_starting_thread_loading_does_not_override_an_already_failed_attach() {
    assert!(
        !shows_starting_thread_loading(false, "error", false, false),
        "an already-failed attach's row must stay on its real \"error\" \
         status, not be forced back to \"loading\" forever"
    );
}

#[test]
fn shows_starting_thread_loading_still_covers_the_real_in_flight_case() {
    assert!(shows_starting_thread_loading(false, "idle", false, false));
}

#[test]
fn shows_starting_thread_loading_leaves_deferred_and_closed_rows_alone() {
    assert!(!shows_starting_thread_loading(false, "idle", false, true));
    assert!(!shows_starting_thread_loading(true, "idle", false, false));
    assert!(!shows_starting_thread_loading(false, "idle", true, false));
}

#[test]
fn a_failed_thread_without_a_session_still_gets_its_durable_id() {
    let mut model = Model::default();
    model.threads = vec![thread("thread:0")];
    let bridge = vec![slot(Some("durable"), None)];
    assert!(model.thread_index_for_id("durable").is_none());
    assert!(hydrate_thread_ids_from_bridge(&mut model, &bridge));
    assert_eq!(model.threads[0].thread_id, "durable");
    assert_eq!(model.thread_index_for_id("durable"), Some(0));
    assert!(!hydrate_thread_ids_from_bridge(&mut model, &bridge));
}

#[test]
fn looks_around_are_a_period_apart() {
    let mut last = None;
    assert!(skills_rescan_due(&mut last, 1000));
    assert!(!skills_rescan_due(&mut last, 1001));
    assert!(skills_rescan_due(&mut last, 1_000_000));
}

#[test]
fn only_threads_with_a_session_have_a_record() {
    let panel = panel(
        vec![thread("t1"), thread("t2")],
        vec![slot(Some("t1"), Some("s1")), slot(Some("t2"), None)],
    );
    assert_eq!(collect_thread_record(&panel, 0).unwrap().session_id, "s1");
    assert!(collect_thread_record(&panel, 1).is_none());
    assert_eq!(collect_thread_record_snapshots(&panel).len(), 1);
    assert!(!probes_agent(&panel, 9));
}

#[test]
fn a_row_without_a_session_is_loading_and_a_failed_one_stays() {
    let panel = panel(
        vec![thread("t1"), thread("t2")],
        vec![slot(Some("t1"), None), slot(Some("t2"), None)],
    );
    let facts = vec![
        ThreadFacts { description: "d".to_owned(), background: Some(true), model_name: "m".to_owned() },
        ThreadFacts { description: String::new(), background: None, model_name: String::new() },
    ];
    let columns = thread_list_columns(&panel, &facts);
    assert_eq!(columns.names, vec!["name t1", "name t2"]);
    assert!(columns.states.iter().all(|s| *s == ThreadState::Idle));
    let snapshot = collect_thread_list_snapshot(
        &panel,
        columns,
        vec![
            IndexedItem { real_index: 0, item: item("idle") },
            IndexedItem { real_index: 1, item: item("error") },
        ],
        &vec![false, false],
        &vec![None, None],
    );
    assert_eq!(snapshot.rows[0].item.status, "loading");
    assert_eq!(snapshot.rows[1].item.status, "error");
    assert_eq!(snapshot.visible_indices, vec![0, 1]);
    assert_eq!(placeholder_thread_id(3), "thread:3");
}

fn frame() -> BridgeFrame {
    BridgeFrame {
        transcript: vec![],
        has_older_messages: true,
        pending_requests: vec![],
        active_terminals: vec!["a".to_owned()],
        buffers: vec![
            TerminalSlot {
                id: "a".to_owned(),
                buffer: TerminalBuffer { output: "one".to_owned(), exited: false },
            },
            TerminalSlot {
                id: "b".to_owned(),
                buffer: TerminalBuffer { output: "two".to_owned(), exited: true },
            },
        ],
        connection_status: "connected".to_owned(),
        session_modes: None,
        config_options: vec![],
        session_title: None,
        local_terminal: Some(TerminalBuffer { output: "$".to_owned(), exited: false }),
        usage: Some(ContextUsage { used: 5, size: 9 }),
        available_commands: vec![JsonValue::Text("init".to_owned())],
        plan: vec![JsonValue::Text("first".to_owned())],
    }
}

#[test]
fn open_terminal_tabs_stay_after_their_terminal_is_gone() {
    let mut panel = panel(vec![thread("t1")], vec![slot(Some("t1"), Some("s1"))]);
    panel.model.open_terminal_ids = vec!["b".to_owned(), "gone".to_owned()];
    panel.model.expanded_terminal_id = Some("b".to_owned());
    let snapshot = collect_thread_snapshot_for(&panel, 0, frame()).expect("a snapshot");
    let open: Vec<&str> = snapshot.open_terminals.iter().map(|t| t.id.as_str()).collect();
    assert_eq!(open, vec!["b", "gone"]);
    assert!(snapshot.open_terminals[1].buffer.is_none());
    assert_eq!(snapshot.expanded_terminal.unwrap().id, "b");
    assert_eq!(snapshot.terminals.len(), 1);
    assert!(snapshot.has_older_messages);
    assert_eq!(snapshot.local_terminal.unwrap().output, "$");
    assert_eq!(snapshot.usage, Some(ContextUsage { used: 5, size: 9 }));
    assert_eq!(snapshot.available_commands, vec![JsonValue::Text("init".to_owned())]);
    assert_eq!(snapshot.plan, vec![JsonValue::Text("first".to_owned())]);
    assert_eq!(selected_provider(&panel, 0), "codex");
    assert_eq!(collect_selected_thread_snapshot(&panel), Some(0));
    panel.bridge = None;
    assert!(collect_thread_snapshot_for(&panel, 0, frame()).is_none());
}

#[test]
fn events_of_threads_are_told_by_their_ids() {
    let panel = panel(vec![thread("t1")], vec![slot(Some("t1"), Some("s1"))]);
    let mut timers = FrameTimers { skills: None, daemon_projects: None };
    let plan = collect_frame_input(
        &panel,
        &FrameSignals {
            event_threads: vec![0],
            settings_changed: false,
            ignore_settings_until: None,
            projects_told: false,
            now: 10,
        },
        &mut timers,
    );
    assert!(plan.bridge_events_pending);
    assert_eq!(plan.bridge_event_thread_ids, vec!["t1"]);
}

fn kept(id: &str) -> SessionDerivedState {
    SessionDerivedState {
        session_id: id.to_owned(),
        acp_session_id: None,
        project_id: None,
        project_path: None,
        connection_status: "connected".to_owned(),
        revision: 3,
    }
}

#[test]
fn what_was_kept_of_sessions_is_told_once() {
    let mut cache = SessionCache { scope: None, hydrated: false, waiting: vec![] };
    let model = Model::default();
    let look = refresh_session_subscription(&mut cache, &model, None, Some(vec![kept("s1")]), true);
    assert_eq!(look.updates.len(), 1);
    assert_eq!(look.updates[0].snapshot.session_id, "s1");
    assert_eq!(look.updates[0].client_instance_id, None);
    assert_eq!(look.keep, vec![kept("s1")]);
    let again = refresh_session_subscription(&mut cache, &model, None, Some(vec![kept("s1")]), true);
    assert!(again.updates.is_empty());
    let sent = SessionUpdate {
        client_instance_id: Some("c".to_owned()),
        snapshot: SessionSnapshot {
            session_id: "s2".to_owned(),
            acp_session_id: None,
            project_id: None,
            project_path: None,
            connection_status: "gone".to_owned(),
            revision: 4,
            created_at: String::new(),
            expires_at: String::new(),
        },
    };
    let later = refresh_session_subscription(&mut cache, &model, Some(vec![sent]), None, false);
    assert_eq!(later.updates.len(), 1);
    assert!(later.keep.is_empty());
}

#[test]
fn no_more_updates_wait_than_may() {
    let mut cache = SessionCache { scope: None, hydrated: false, waiting: vec![] };
    let many: Vec<SessionDerivedState> = (0..300).map(|i| kept(&format!("s{i}"))).collect();
    let look = refresh_session_subscription(&mut cache, &Model::default(), None, Some(many), false);
    assert_eq!(look.updates.len(), MAX_WAITING);
    assert_eq!(look.updates[0].snapshot.session_id, "s44");
    assert_eq!(look.updates[255].snapshot.session_id, "s299");
}
