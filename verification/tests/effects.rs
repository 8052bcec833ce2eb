use panel_rust::effect::{Effect, EffectError, EffectResultMsg};
use panel_rust::effect_executor::gateway_ops::{
    authenticate_result, builtin_server_result, gateway_op_result, profile_definition, GatewayOp,
    ToolField,
};
use panel_rust::effect_executor::outcomes::{
    answer_pending_request, dispatch_load_older_requested, dispatch_reactive_sync_failed,
    editor_launched, enabled_vendor_ids, failure_message, local_terminal_input, os_default_opened,
    provider_probe_started, skill_created, skill_deleted, skill_promoted, skill_read,
    skill_written, state_effect_failed, toggled_background, write_clipboard_text, ClipboardStep,
    Debounce, FollowUp, PermissionOption, SkillSync, StateFailure, SKILL_EDIT_DEBOUNCE_MILLIS,
};
use panel_rust::effect_executor::{
    execute_effects, execute_skill_effects, plan_effect, skill_scope, Action,
};
use panel_rust::model::{
    AgentCatalogEntry, BridgeThread, Model, PanelState, ProjectIdentity, SkillScope,
    ThreadBinding, ThreadModel,
};

fn slot(id: &str) -> BridgeThread {
    BridgeThread {
        thread_id: Some(id.to_owned()),
        binding: Some(ThreadBinding {
            thread_id: id.to_owned(),
            session_id: format!("session-{id}"),
        }),
        provider: Some("codex".to_owned()),
        project_path: None,
        attachment_error: None,
        closed: false,
        archived: false,
        deferred: false,
        local_terminal: false,
    }
}

fn panel(ids: &[&str]) -> PanelState {
    let mut model = Model::default();
    model.threads = ids
        .iter()
        .map(|id| ThreadModel {
            thread_id: id.to_string(),
            ..ThreadModel::default()
        })
        .collect();
    model.visible_indices = (0..ids.len()).collect();
    PanelState {
        model,
        bridge: Some(ids.iter().map(|id| slot(id)).collect()),
        component: true,
        store: true,
        width: 640,
        height: 480,
    }
}

fn send(id: &str) -> Effect {
    Effect::SendPrompt { thread_id: id.to_owned(), text: "hi".to_owned() }
}

#[test]
fn a_prompt_goes_to_the_thread_with_its_id() {
    let panel = panel(&["t1", "t2"]);
    assert_eq!(
        plan_effect(&panel, send("t2")),
        vec![Action::Prompt { real_index: 1, text: "hi".to_owned() }]
    );
    assert!(plan_effect(&panel, send("gone")).is_empty());
}

#[test]
fn a_prompt_to_a_closed_or_failed_thread_is_not_sent() {
    let mut closed = panel(&["t1"]);
    closed.bridge.as_mut().unwrap()[0].closed = true;
    assert!(plan_effect(&closed, send("t1")).is_empty());
    let mut failed = panel(&["t1"]);
    failed.bridge.as_mut().unwrap()[0].attachment_error = Some("no agent".to_owned());
    let actions = plan_effect(&failed, send("t1"));
    match actions.as_slice() {
        [Action::Report(EffectResultMsg::PromptSent { real_index: 0, result: Err(error) })] => {
            assert_eq!(error.text(), "session attachment failed: no agent");
        },
        other => panic!("unexpected {other:?}"),
    }
}

#[test]
fn effects_are_done_in_order() {
    let panel = panel(&["t1"]);
    let actions = execute_effects(
        &panel,
        vec![
            Effect::CancelGeneration { real_index: 0 },
            Effect::ClipboardWrite { text: "x".to_owned() },
        ],
    );
    assert_eq!(
        actions[..2],
        [
            Action::CancelPrompt { real_index: 0 },
            Action::WriteClipboard { text: "x".to_owned() },
        ]
    );
}

#[test]
fn a_local_terminal_is_opened_and_closed_by_turns() {
    let mut panel = panel(&["t1"]);
    match plan_effect(&panel, Effect::LocalTerminalSpawn).as_slice() {
        [Action::OpenLocalTerminal { real_index: 0, cols, rows }] => {
            assert!(*cols > 0 && *rows > 0);
        },
        other => panic!("unexpected {other:?}"),
    }
    panel.bridge.as_mut().unwrap()[0].local_terminal = true;
    assert_eq!(
        plan_effect(&panel, Effect::LocalTerminalSpawn),
        vec![Action::CloseLocalTerminal { real_index: 0 }]
    );
}

#[test]
fn saving_under_another_path_keeps_the_sessions_of_a_project() {
    let mut panel = panel(&["t1"]);
    panel.model.project_lifecycle_reason = "switched".to_owned();
    panel.model.active_project = ProjectIdentity::Saved("/p/a.mlt".to_owned());
    let path = Some("/p/a.mlt".to_owned());
    let actions = plan_effect(&panel, Effect::SetActiveProjectPath { path: path.clone() });
    assert_eq!(actions[0], Action::ReleaseProjectSessions);
    panel.model.project_lifecycle_reason = "saved_as".to_owned();
    let actions = plan_effect(&panel, Effect::SetActiveProjectPath { path });
    assert!(!actions.contains(&Action::ReleaseProjectSessions));
}

#[test]
fn without_a_gateway_a_server_of_tools_cannot_be_changed() {
    let mut panel = panel(&[]);
    panel.bridge = None;
    let effect = Effect::McpServerDelete { real_index: 0, name: "files".to_owned() };
    match plan_effect(&panel, effect).as_slice() {
        [Action::Report(EffectResultMsg::McpServerOperationCompleted(Err(error)))] => {
            assert_eq!(error.message, "no gateway connection");
        },
        other => panic!("unexpected {other:?}"),
    }
}

#[test]
fn editors_and_scopes_that_are_not_known_are_told() {
    let panel = panel(&["t1"]);
    let effect = Effect::OpenInEditor { editor_name: "Note\"pad".to_owned(), path: "/s".to_owned() };
    match plan_effect(&panel, effect).as_slice() {
        [Action::Report(EffectResultMsg::ExternalEditorOpened(Err(error)))] => {
            assert_eq!(error.message, r#"unknown editor "Note\"pad""#);
        },
        other => panic!("unexpected {other:?}"),
    }
    assert_eq!(skill_scope("global"), Ok(SkillScope::Global));
    assert_eq!(
        skill_scope("team"),
        Err(EffectError { message: r#"invalid skill scope "team""#.to_owned() })
    );
}

#[test]
fn gateway_results_say_what_was_done() {
    let op = GatewayOp::SetTool {
        server: "files".to_owned(),
        tool: "read".to_owned(),
        field: ToolField::Deferred,
        value: false,
    };
    assert_eq!(gateway_op_result(&op, Ok(())).unwrap(), "Tool \"read\" set to eager");
    assert_eq!(
        gateway_op_result(&op, Err("down".to_owned())).unwrap_err().message,
        "Failed to update tool \"read\" on MCP server \"files\": down"
    );
    let create = GatewayOp::DeleteProfile { name: "p".to_owned() };
    assert_eq!(gateway_op_result(&create, Ok(())).unwrap(), "Profile \"p\" deleted");
    assert_eq!(
        authenticate_result("files".to_owned(), Ok(Ok(()))).unwrap(),
        "Opened browser to connect \"files\""
    );
    assert_eq!(
        authenticate_result("files".to_owned(), Ok(Err("no".to_owned()))).unwrap_err().message,
        "MCP server \"files\": failed to open browser for OAuth: no"
    );
    assert_eq!(builtin_server_result(true, Ok(())).unwrap(), "MCP server \"snapflow\" enabled");
}

#[test]
fn a_profile_names_its_agent_only_where_it_has_one() {
    let with = profile_definition("p", &Some("codex".to_owned()), true, false);
    assert_eq!(
        with.to_text(),
        r#"{"name":"p","allow_terminal_access":true,"allow_fs_access":false,"agent_id":"codex"}"#
    );
    let without = profile_definition("p", &Some(String::new()), false, true);
    assert_eq!(
        without.to_text(),
        r#"{"name":"p","allow_terminal_access":false,"allow_fs_access":true}"#
    );
}

#[test]
fn failures_of_the_state_are_told() {
    assert_eq!(
        failure_message(&StateFailure::ArchiveThread { real_index: 12, archived: true }),
        "failed to set thread 12 archived=true"
    );
    assert_eq!(
        state_effect_failed("t".to_owned(), &StateFailure::DevMode { error: "ro".to_owned() }),
        EffectResultMsg::StateEffectFailed {
            thread_id: "t".to_owned(),
            message: "failed to persist dev mode: ro".to_owned(),
        }
    );
}

#[test]
fn skills_that_changed_are_shown_and_brought_to_the_agents() {
    let written = skill_written("/s/release".to_owned(), Ok(()));
    assert!(written.contains(&FollowUp::ResyncSkill { directory: "/s/release".to_owned() }));
    assert!(written.contains(&FollowUp::Report(EffectResultMsg::SkillWritten(Ok(())))));
    let failed = skill_written("/s/release".to_owned(), Err("full".to_owned()));
    assert!(!failed.contains(&FollowUp::ResyncSkill { directory: "/s/release".to_owned() }));
    assert!(skill_deleted(Ok(())).contains(&FollowUp::RefreshSkills));
    let created = skill_created(
        Ok("/s/new".to_owned()),
        SkillScope::Global,
        &None,
        vec!["codex".to_owned()],
    );
    assert!(created.contains(&FollowUp::RegisterSkill {
        path: "/s/new".to_owned(),
        project_root: None,
        vendor_ids: vec!["codex".to_owned()],
    }));
    let promoted = skill_promoted(Ok("/g/new".to_owned()), vec![]);
    assert!(promoted.contains(&FollowUp::Report(EffectResultMsg::SkillPromoted(Ok(())))));
    match skill_read("/s/a".to_owned(), "a".to_owned(), Ok("text".to_owned()), vec![]) {
        EffectResultMsg::SkillEditorLoaded(Ok(state)) => assert_eq!(state.content, "text"),
        other => panic!("unexpected {other:?}"),
    }
    assert_eq!(editor_launched(Ok(())), EffectResultMsg::ExternalEditorOpened(Ok(())));
    assert!(matches!(
        os_default_opened(Err("none".to_owned())),
        EffectResultMsg::OsDefaultOpened(Err(_))
    ));
    assert_eq!(
        dispatch_reactive_sync_failed(SkillSync::AgentEnable, "x".to_owned()),
        EffectResultMsg::SkillReactiveSyncFailed {
            operation: "agent-enable".to_owned(),
            detail: "x".to_owned(),
        }
    );
}

#[test]
fn only_agents_that_are_switched_on_get_skills() {
    let agents = vec![
        AgentCatalogEntry { id: "codex".to_owned(), enabled: true },
        AgentCatalogEntry { id: "gemini".to_owned(), enabled: false },
    ];
    assert_eq!(enabled_vendor_ids(Some(&agents)), vec!["codex"]);
    assert!(enabled_vendor_ids(None).is_empty());
}

#[test]
fn a_single_call_settles_and_runs_after_the_delay() {
    let mut counter = Debounce { generation: 0 };
    let edit = counter.debounce(0, 30);

    assert!(!counter.settles(edit, 10), "must not run before the delay elapses");
    assert!(!counter.settles(edit, 29), "must not run before the delay elapses");
    assert!(counter.settles(edit, 50), "must run once the delay has elapsed");
}

#[test]
fn a_burst_of_calls_runs_on_settled_exactly_once_using_the_last_call() {
    let mut counter = Debounce { generation: 0 };
    let mut waiting = Vec::new();
    let mut settled = Vec::new();
    for now in 0..151u64 {
        if now < 50 && now % 10 == 0 {
            waiting.push(counter.debounce(now, 60));
        }
        for (i, edit) in waiting.iter().enumerate() {
            if edit.due == now && counter.settles(*edit, now) {
                settled.push(i);
            }
        }
    }
    assert_eq!(
        settled.as_slice(),
        &[4],
        "exactly one settlement, from the last call in the burst"
    );
}

#[test]
fn two_calls_spaced_further_apart_than_the_delay_both_settle() {
    let mut counter = Debounce { generation: 0 };
    let mut settled = Vec::new();
    for i in 0..2u64 {
        let edit = counter.debounce(i * 60, 30);
        if counter.settles(edit, i * 60 + 30) {
            settled.push(i);
        }
    }
    assert_eq!(settled.as_slice(), &[0, 1]);
}

#[test]
fn an_edit_of_a_skill_waits_three_quarters_of_a_second() {
    let mut counter = Debounce { generation: 7 };
    let edit = counter.debounce(1000, SKILL_EDIT_DEBOUNCE_MILLIS);
    assert_eq!(edit.edit, 8);
    assert_eq!(edit.due, 1750);
}

#[test]
fn the_clipboard_programs_are_tried_in_turn() {
    match write_clipboard_text(0, false) {
        ClipboardStep::Try(helper) => {
            assert_eq!(helper.program, "wl-copy");
            assert!(helper.args.is_empty());
        },
        other => panic!("unexpected {other:?}"),
    }
    match write_clipboard_text(1, false) {
        ClipboardStep::Try(helper) => assert_ne!(helper.program, "wl-copy"),
        other => panic!("unexpected {other:?}"),
    }
    assert_eq!(write_clipboard_text(1, true), ClipboardStep::Written);
    assert!(matches!(write_clipboard_text(100, false), ClipboardStep::Failed(_)));
}

#[test]
fn a_request_is_answered_with_the_first_option_of_its_kind() {
    let options = vec![
        PermissionOption { id: "r".to_owned(), kind: "reject_once".to_owned() },
        PermissionOption { id: "a".to_owned(), kind: "allow_always".to_owned() },
    ];
    assert_eq!(answer_pending_request(&options, true).as_deref(), Some("a"));
    assert_eq!(answer_pending_request(&options, false).as_deref(), Some("r"));
    assert_eq!(answer_pending_request(&vec![], true), None);
}

#[test]
fn small_outcomes() {
    assert_eq!(dispatch_load_older_requested(10, 60), 50);
    assert_eq!(dispatch_load_older_requested(60, 10), 0);
    assert!(toggled_background(Some(false)));
    assert!(!toggled_background(Some(true)));
    assert!(matches!(
        provider_probe_started(1, "codex".to_owned(), false),
        Some(EffectResultMsg::ProviderProbeSkipped { real_index: 1, .. })
    ));
    assert!(provider_probe_started(1, "codex".to_owned(), true).is_none());
}

#[test]
fn keys_for_a_local_terminal_are_shown_as_text() {
    let panel = panel(&["t1"]);
    let effect = Effect::LocalTerminalWrite { bytes: vec![b'l', b's', 0xff] };
    assert_eq!(
        plan_effect(&panel, effect),
        vec![Action::TypeInLocalTerminal { real_index: 0, text: "ls\u{fffd}".to_owned() }]
    );
    assert_eq!(local_terminal_input(vec![]), None);
    assert_eq!(local_terminal_input(vec![13]), Some(vec![13]));
    let other = Effect::RefreshDaemonProjectInstances;
    assert!(execute_skill_effects(&panel, other).is_empty());
}
