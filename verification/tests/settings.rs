use panel_rust::effect::EffectError;
use panel_rust::external_snapshot::preferences::{
    cached_preferences, collect_settings_gateway_snapshot, collect_settings_preferences_snapshot,
    last_prefs_snapshot_if_scope, preferences_scope, FallbackPreferences, PreferencesCache,
};
use panel_rust::model::{Model, PanelDefaults, SettingsSaveInput};
use panel_rust::prefs::{
    execute_settings_save, ignore_settings_until, load_panel_prefs, load_scoped_panel_prefs,
    maybe_migrate_sqlite_defaults_to_json, non_default_sentinel, non_empty,
    profile_wiring_enabled, save_panel_prefs_to_json, scoped_settings_path, settings_save,
    startup_prefs, sync_runtime_defaults, ResolvedSettings, SaveStage, SettingsDocument, SettingsFiles, SettingsPaths,
};

fn defaults_with_background(background_session: bool) -> PanelDefaults {
    PanelDefaults {
        profile_name: None,
        permission_profile: None,
        background_session,
        selected_thread_id: None,
    }
}

fn document() -> SettingsDocument {
    SettingsDocument {
        schema_version: 1,
        default_profile: None,
        permission_profile: None,
        background_session_default: None,
        default_agent_id: None,
        show_global_skills: None,
        harness: None,
        dev_mode: None,
        snapflow_mcp_enabled: None,
    }
}

fn files() -> SettingsFiles {
    SettingsFiles {
        bundled_default: None,
        global: Ok(document()),
        project: Some(Ok(document())),
    }
}

#[test]
fn background_session_default_persists_independently_per_scope() {
    let paths = SettingsPaths {
        bundled_default: None,
        global: "/settings/settings.global.json".to_owned(),
        project: Some("/project/.snapflow/settings.json".to_owned()),
    };
    let global_path = scoped_settings_path(&paths, "global").expect("global path resolved");
    let project_path = scoped_settings_path(&paths, "project").expect("project path resolved");
    assert_ne!(
        global_path, project_path,
        "project and global settings paths must never collide"
    );
    let mut files = files();

    save_panel_prefs_to_json(&mut files, "global", &defaults_with_background(true), None, true)
        .expect("save global");
    let mut warnings = Vec::new();
    let global_prefs =
        load_scoped_panel_prefs(&files, "global", None, &mut warnings).expect("load global");
    assert!(warnings.is_empty(), "unexpected warnings: {warnings:?}");
    assert!(global_prefs.defaults.background_session);
    let project_prefs = load_scoped_panel_prefs(&files, "project", None, &mut warnings)
        .expect("load project (inherits global)");
    assert!(
        project_prefs.defaults.background_session,
        "project scope must inherit the global value when it has no override"
    );

    save_panel_prefs_to_json(&mut files, "project", &defaults_with_background(false), None, true)
        .expect("save project");
    let project_prefs = load_scoped_panel_prefs(&files, "project", None, &mut warnings)
        .expect("load project after override");
    assert!(
        !project_prefs.defaults.background_session,
        "project override must take effect for project scope"
    );
    let global_prefs = load_scoped_panel_prefs(&files, "global", None, &mut warnings)
        .expect("load global after project write");
    assert!(
        global_prefs.defaults.background_session,
        "a project-scope write must not affect the separately-read global value"
    );

    let global_doc = files.global.as_ref().expect("read global doc");
    let project_doc = files
        .project
        .as_ref()
        .expect("a project")
        .as_ref()
        .expect("read project doc");
    assert_eq!(global_doc.background_session_default, Some(true));
    assert_eq!(project_doc.background_session_default, Some(false));
}

#[test]
fn global_write_does_not_affect_an_existing_project_override() {
    let mut files = files();
    save_panel_prefs_to_json(&mut files, "project", &defaults_with_background(true), None, true)
        .expect("save project override");
    save_panel_prefs_to_json(&mut files, "global", &defaults_with_background(false), None, true)
        .expect("save global default");

    let mut warnings = Vec::new();
    let project_prefs =
        load_scoped_panel_prefs(&files, "project", None, &mut warnings).expect("load project");
    assert!(
        project_prefs.defaults.background_session,
        "existing project override must survive an unrelated global write"
    );
    let global_prefs =
        load_scoped_panel_prefs(&files, "global", None, &mut warnings).expect("load global");
    assert!(!global_prefs.defaults.background_session);
}

#[test]
fn show_global_skills_persists_independently_per_scope() {
    let mut files = files();
    save_panel_prefs_to_json(&mut files, "global", &defaults_with_background(false), None, true)
        .expect("save global");
    let mut warnings = Vec::new();
    let global_prefs =
        load_scoped_panel_prefs(&files, "global", None, &mut warnings).expect("load global");
    assert!(warnings.is_empty(), "unexpected warnings: {warnings:?}");
    assert!(global_prefs.show_global_skills);
    let project_prefs = load_scoped_panel_prefs(&files, "project", None, &mut warnings)
        .expect("load project (inherits global)");
    assert!(
        project_prefs.show_global_skills,
        "project scope must inherit the global value when it has no override"
    );

    save_panel_prefs_to_json(&mut files, "project", &defaults_with_background(false), None, false)
        .expect("save project");
    let project_prefs = load_scoped_panel_prefs(&files, "project", None, &mut warnings)
        .expect("load project after override");
    assert!(
        !project_prefs.show_global_skills,
        "project override must take effect for project scope"
    );
    let global_prefs = load_scoped_panel_prefs(&files, "global", None, &mut warnings)
        .expect("load global after project write");
    assert!(
        global_prefs.show_global_skills,
        "a project-scope write must not affect the separately-read global value"
    );
}

#[test]
fn a_document_that_cannot_be_read_is_a_warning() {
    let mut broken = files();
    broken.global = Err("permission denied".to_owned());
    let mut warnings = Vec::new();
    assert!(load_scoped_panel_prefs(&broken, "global", None, &mut warnings).is_none());
    assert_eq!(warnings.len(), 1);
    assert!(warnings[0].contains("permission denied"));
    let defaults = load_panel_prefs(Err("gone".to_owned()), Some("t".to_owned()), &mut warnings);
    assert_eq!(defaults.selected_thread_id.as_deref(), Some("t"));
    assert_eq!(warnings.len(), 2);
}

#[test]
fn names_that_say_nothing_are_dropped() {
    assert_eq!(non_empty("  ".to_owned()), None);
    assert_eq!(non_empty(" codex ".to_owned()).as_deref(), Some("codex"));
    assert_eq!(non_default_sentinel(Some("default".to_owned())), None);
    assert_eq!(
        non_default_sentinel(Some("codex".to_owned())).as_deref(),
        Some("codex")
    );
    assert_eq!(non_default_sentinel(None), None);
}

#[test]
fn stored_defaults_seed_a_document_only_where_there_is_none() {
    let stored = defaults_with_background(true);
    assert!(maybe_migrate_sqlite_defaults_to_json(true, Some(stored.clone())).is_none());
    let seeded = maybe_migrate_sqlite_defaults_to_json(false, Some(stored.clone()));
    assert_eq!(
        seeded.expect("a document").background_session_default,
        Some(true)
    );
    let kept = sync_runtime_defaults(&defaults_with_background(false), Some(stored));
    assert!(!kept.background_session);
}

#[test]
fn a_form_is_saved_trimmed_and_stage_by_stage() {
    let save = settings_save(SettingsSaveInput {
        scope: "global".to_owned(),
        default_profile: " p ".to_owned(),
        permission_profile: "".to_owned(),
        background_default: true,
        default_agent_id: "codex".to_owned(),
        show_global_skills: false,
        selected_thread_id: Some("t".to_owned()),
        background_override_set: true,
        background_override: false,
    });
    assert_eq!(save.defaults.profile_name.as_deref(), Some("p"));
    assert_eq!(save.defaults.permission_profile, None);
    assert_eq!(save.background_override, Some(false));
    let stage = execute_settings_save(SaveStage::Document, Ok(()), true, true);
    assert_eq!(stage, SaveStage::SelectedThread);
    let failed = execute_settings_save(SaveStage::Document, Err("full".to_owned()), true, true);
    match failed {
        SaveStage::Finished(Err(EffectError { message })) => assert!(message.contains("full")),
        other => panic!("unexpected {other:?}"),
    }
}

#[test]
fn profile_wiring_is_on_only_when_it_is_switched_on() {
    assert!(profile_wiring_enabled(Some("1")));
    assert!(!profile_wiring_enabled(Some("0")));
    assert!(!profile_wiring_enabled(None));
}

#[test]
fn preferences_that_were_stored_are_found_for_their_scope() {
    let mut cache = PreferencesCache { last_scan: None, last: None };
    assert!(cached_preferences(&mut cache, "global", 0).is_none());
    let snapshot = collect_settings_preferences_snapshot(
        &mut cache,
        "global".to_owned(),
        None,
        FallbackPreferences {
            defaults: defaults_with_background(true),
            default_agent_id: Some("codex".to_owned()),
            show_global_skills: None,
        },
        Some(false),
        true,
    );
    assert!(snapshot.background_default);
    assert_eq!(snapshot.default_agent_id, "codex");
    assert!(snapshot.background_override_set);
    assert!(!snapshot.background_override);
    assert_eq!(last_prefs_snapshot_if_scope(&cache, "global"), Some(snapshot));
    assert!(last_prefs_snapshot_if_scope(&cache, "project").is_none());
    assert_eq!(preferences_scope(Some("project"), "global", true), "project");
}

#[test]
fn the_catalog_is_that_of_the_model_until_the_bridge_has_one() {
    let mut model = Model::default();
    model.recovery_provider = "codex".to_owned();
    let none = collect_settings_gateway_snapshot(&model, false, None);
    assert_eq!(none.recovery_provider, "");
    assert!(none.profiles.is_empty());
    let shown = collect_settings_gateway_snapshot(&model, true, None);
    assert_eq!(shown.recovery_provider, "codex");
}

#[test]
fn a_panel_starts_with_the_tier_and_else_with_all_tiers() {
    let resolved = || {
        Ok(ResolvedSettings {
            default_profile: Some("all".to_owned()),
            permission_profile: None,
            background_session_default: true,
            default_agent_id: Some("codex".to_owned()),
            show_global_skills: true,
        })
    };
    let mut kept = files();
    if let Some(Ok(project)) = &mut kept.project {
        project.default_agent_id = Some("codex".to_owned());
        project.default_profile = Some("default".to_owned());
    }
    let mut warnings = Vec::new();
    let prefs = startup_prefs(&kept, "project", resolved(), Some("t".to_owned()), &mut warnings);
    assert_eq!(prefs.default_agent_id.as_deref(), Some("codex"));
    assert_eq!(prefs.defaults.profile_name, None);
    assert_eq!(prefs.defaults.selected_thread_id.as_deref(), Some("t"));
    assert!(warnings.is_empty());

    kept.project = Some(Err("torn".to_owned()));
    let prefs = startup_prefs(&kept, "project", resolved(), None, &mut warnings);
    assert_eq!(prefs.default_agent_id, None);
    assert_eq!(prefs.defaults.profile_name.as_deref(), Some("all"));
    assert!(prefs.defaults.background_session);
    assert_eq!(warnings, vec!["project settings load failed: torn"]);

    let prefs = startup_prefs(&kept, "project", Err("gone".to_owned()), None, &mut warnings);
    assert!(!prefs.defaults.background_session);
    assert_eq!(warnings.len(), 3);
}

#[test]
fn the_panel_passes_over_its_own_change_for_half_a_second() {
    assert_eq!(ignore_settings_until(&SaveStage::Document, &Ok(()), 1000), Some(1500));
    assert_eq!(ignore_settings_until(&SaveStage::Document, &Err("full".to_owned()), 1000), None);
    assert_eq!(ignore_settings_until(&SaveStage::SelectedThread, &Ok(()), 1000), None);
}
