use panel_rust::model::{
    BridgeThread, Model, PanelState, ProjectIdentity, ThreadBinding, ThreadModel, ThreadRecord,
    ThreadState,
};
use panel_rust::project_stores::{
    move_project_store_for_rename, project_identity_for_path, ProjectStores, StoreChoice, StoreMove,
};
use panel_rust::startup::{
    cold_start_thread_specs, configured_agent, initial_specs, initial_state, panel_rust_create,
    panel_rust_create_with_identity, panel_rust_rename_project_path, panel_rust_set_language,
    panel_rust_set_project_path, panel_rust_set_theme, restored_selection, seed_names,
    startup_scope, startup_warning, CreateStep, StartupFailure, NO_PROVIDER_REQUESTED_FALLBACK,
};

fn names(list: &[&str]) -> Vec<String> {
    list.iter().map(|s| s.to_string()).collect()
}

fn record(id: &str, profile: Option<&str>) -> ThreadRecord {
    ThreadRecord {
        thread_id: id.to_owned(),
        display_name: "Chat".to_owned(),
        provider: "codex".to_owned(),
        session_id: "s1".to_owned(),
        profile_name: profile.map(|s| s.to_owned()),
        permission_profile: None,
        background_session: None,
        project_path: None,
    }
}

#[test]
fn with_nothing_configured_seed_threads_use_the_fallback_provider_and_stay_unprofiled() {
    let specs =
        cold_start_thread_specs(&names(&["Fix timeline crash", "Add fade transition"]), None);
    assert_eq!(specs.len(), 2);
    for spec in &specs {
        assert_eq!(spec.provider, NO_PROVIDER_REQUESTED_FALLBACK);
        assert_eq!(spec.profile_name, None, "got: {specs:?}");
    }
}

#[test]
fn with_a_configured_default_agent_id_every_seed_thread_binds_to_it_as_its_profile() {
    let specs = cold_start_thread_specs(
        &names(&[
            "Fix timeline crash",
            "Add fade transition",
            "Refactor filters",
        ]),
        Some("codex-acp".to_owned()),
    );
    assert_eq!(specs.len(), 3);
    for spec in &specs {
        assert_eq!(spec.provider, "codex-acp");
        assert_eq!(
            spec.profile_name.as_deref(),
            Some("codex-acp"),
            "got: {specs:?}"
        );
    }
}

#[test]
fn one_plain_thread_is_seeded_unless_more_are_asked_for() {
    assert_eq!(seed_names(None), vec!["Chat"]);
    assert_eq!(seed_names(Some(" 0 ")), vec!["Chat"]);
    assert_eq!(seed_names(Some("00")), vec!["Chat"]);
    assert_eq!(seed_names(Some("+0")), vec!["Chat"]);
    assert_eq!(seed_names(Some("2")).len(), 2);
    let all = seed_names(Some("many"));
    assert_eq!(seed_names(Some("1000")), all);
    assert_eq!(all[0], "Fix timeline crash");
}

#[test]
fn restored_threads_lose_the_sentinel_profile_and_take_the_open_path() {
    let records = vec![record("t1", Some("default")), record("t2", Some("p"))];
    let identity = Some(ProjectIdentity::Saved("/p/a.mlt".to_owned()));
    let specs = initial_specs(&records, &names(&["Chat"]), None, &identity);
    assert_eq!(specs.len(), 2);
    assert_eq!(specs[0].profile_name, None);
    assert_eq!(specs[1].profile_name.as_deref(), Some("p"));
    assert_eq!(specs[0].project_path.as_deref(), Some("/p/a.mlt"));
    let state = initial_state(
        &records,
        &names(&["Chat"]),
        None,
        &identity,
        Some("t2".to_owned()),
        false,
        vec![],
    );
    assert_eq!(state.thread_ids, vec!["t1", "t2"]);
    assert!(state.thread_states.iter().all(|s| *s == ThreadState::Error));
    let seeded = initial_state(&vec![], &names(&["Chat"]), None, &None, None, true, vec![]);
    assert_eq!(seeded.thread_ids, vec!["thread:0"]);
    assert!(seeded.thread_states.iter().all(|s| *s == ThreadState::Idle));
}

#[test]
fn warnings_say_what_failed() {
    assert_eq!(
        startup_warning(&StartupFailure::Persistence("locked".to_owned())),
        "panel settings persistence unavailable: locked"
    );
    assert_eq!(
        startup_warning(&StartupFailure::ThreadRecords("bad".to_owned())),
        "failed to restore chat thread records: bad"
    );
    assert_eq!(
        startup_warning(&StartupFailure::Bridge("none".to_owned())),
        "agent bridge unavailable, chat panel is display-only: none"
    );
}

#[test]
fn a_panel_that_exists_is_kept_or_resized() {
    assert_eq!(panel_rust_create(Some((640, 480)), 640, 480), CreateStep::Keep);
    assert_eq!(
        panel_rust_create(Some((640, 480)), 200, 10),
        CreateStep::Resize { pixels: 2000, compact: true, narrow: true }
    );
    assert_eq!(
        panel_rust_create(None, 300, 10),
        CreateStep::Build { pixels: 3000, compact: true, narrow: false }
    );
}

#[test]
fn an_untitled_project_gets_a_fresh_name() {
    let first = panel_rust_create_with_identity(b"", true);
    let second = panel_rust_create_with_identity(b"", true);
    match (first, second) {
        (Some(ProjectIdentity::Untitled(a)), Some(ProjectIdentity::Untitled(b))) => {
            assert_eq!(a.len(), 36);
            assert_ne!(a, b);
        },
        other => panic!("unexpected {other:?}"),
    }
    match panel_rust_create_with_identity(b"/p/a.mlt", false) {
        Some(ProjectIdentity::Saved(path)) => assert_eq!(path, "/p/a.mlt"),
        other => panic!("unexpected {other:?}"),
    }
}

#[test]
fn texts_of_the_host_are_taken_where_they_are_utf8() {
    assert_eq!(panel_rust_set_project_path(b"/p").as_deref(), Some("/p"));
    assert_eq!(panel_rust_set_language("fr-FR".as_bytes()).as_deref(), Some("fr-FR"));
    assert_eq!(panel_rust_set_language(&[0xff]), None);
    assert_eq!(panel_rust_set_theme(b"light"), "light");
    assert_eq!(
        panel_rust_rename_project_path(b"/a", b"/b"),
        ("/a".to_owned(), "/b".to_owned())
    );
}

#[test]
fn the_selected_thread_is_found_again_by_its_durable_id() {
    let mut model = Model::default();
    model.threads = vec![ThreadModel::default(), ThreadModel::default()];
    model.visible_indices = vec![1, 0];
    let bound = |id: &str| BridgeThread {
        thread_id: None,
        binding: Some(ThreadBinding {
            thread_id: id.to_owned(),
            session_id: "s".to_owned(),
        }),
        provider: None,
        project_path: None,
        attachment_error: None,
        closed: false,
        archived: false,
        deferred: false,
        local_terminal: false,
    };
    let panel = PanelState {
        model,
        bridge: Some(vec![bound("t1"), bound("t2")]),
        component: true,
        store: true,
        width: 640,
        height: 480,
    };
    assert_eq!(restored_selection(&panel, &Some("t1".to_owned())), Some(1));
    assert_eq!(restored_selection(&panel, &Some("t2".to_owned())), Some(0));
    assert_eq!(restored_selection(&panel, &None), None);
    assert_eq!(configured_agent(Some("default".to_owned())), None);
    assert_eq!(startup_scope(true), "project");
    assert_eq!(startup_scope(false), "global");
}

#[test]
fn a_moved_store_is_found_under_its_new_project() {
    let mut stores = ProjectStores::new();
    let old = project_identity_for_path("/p/a.mlt");
    let new = project_identity_for_path("/p/b.mlt");
    stores.insert(old.copied(), 7);
    assert_eq!(stores.project_state_for_identity(&old), Some(7));
    stores.rename(&old, new.copied());
    assert_eq!(stores.project_state_for_identity(&new), Some(7));
    assert_eq!(stores.project_state_for_identity(&old), None);
    assert_eq!(stores.active_panel_state(&new), StoreChoice::Open(7));
    assert_eq!(
        stores.active_panel_state(&ProjectIdentity::NoProject),
        StoreChoice::Global
    );
    assert_eq!(stores.active_panel_state(&old), StoreChoice::Missing);
}

#[test]
fn a_store_moves_only_to_where_there_is_none() {
    let a = Some("/p/a".to_owned());
    let b = Some("/q/b".to_owned());
    assert_eq!(
        move_project_store_for_rename(&a, &b, true, false),
        StoreMove::Move { parent: Some("/q".to_owned()) }
    );
    assert_eq!(move_project_store_for_rename(&a, &b, true, true), StoreMove::Retain);
    assert_eq!(move_project_store_for_rename(&a, &b, false, false), StoreMove::Stay);
    let same = Some("/p//./a/".to_owned());
    assert_eq!(move_project_store_for_rename(&a, &same, true, true), StoreMove::Stay);
}
