//! The panel's preferences.
//!
//! They stand in documents of three tiers: those that came with the panel, those
//! of the user, and those of a project. Each tier that sets a value overrides
//! the ones before it; saving writes a single tier.

pub mod laws;

use crate::effect::EffectError;
use crate::json::JsonValue;
use crate::model::{PanelDefaults, SettingsSaveInput};
use crate::text::{
    borrowed_text, clone_optional, debug_shown, debug_text, join, join3, optional_text, same, texts,
    trim, trimmed,
};
use vstd::prelude::*;

verus! {

/// A document of settings. What a document does not set, it leaves to the tiers
/// before it.
#[derive(Debug, PartialEq)]
pub struct SettingsDocument {
    pub schema_version: u32,
    pub default_profile: Option<String>,
    pub permission_profile: Option<String>,
    pub background_session_default: Option<bool>,
    pub default_agent_id: Option<String>,
    pub show_global_skills: Option<bool>,
    pub harness: Option<JsonValue>,
    pub dev_mode: Option<bool>,
    pub snapflow_mcp_enabled: Option<bool>,
}

/// Where the documents are; a tier can be missing, except the user's.
#[derive(Debug, Clone, PartialEq, Eq)]
pub struct SettingsPaths {
    pub bundled_default: Option<String>,
    pub global: String,
    pub project: Option<String>,
}

/// The documents of the tiers, each as it was read; a file that does not exist
/// reads as a document that sets nothing.
#[derive(Debug, PartialEq)]
pub struct SettingsFiles {
    pub bundled_default: Option<Result<SettingsDocument, String>>,
    pub global: Result<SettingsDocument, String>,
    pub project: Option<Result<SettingsDocument, String>>,
}

/// The settings that hold, all tiers taken together.
#[derive(Debug, Clone, PartialEq, Eq)]
pub struct ResolvedSettings {
    pub default_profile: Option<String>,
    pub permission_profile: Option<String>,
    pub background_session_default: bool,
    pub default_agent_id: Option<String>,
    pub show_global_skills: bool,
}

/// The preferences that a tier shows.
#[derive(Debug, Clone, PartialEq)]
pub struct ScopedPanelPrefs {
    pub defaults: PanelDefaults,
    pub default_agent_id: Option<String>,
    pub show_global_skills: bool,
}

/// A value, and another where it is not set.
pub open spec fn over<A>(top: Option<A>, below: Option<A>) -> Option<A> {
    match top {
        Some(value) => Some(value),
        None => below,
    }
}

/// A value that is the same in a tier as below where the tier does not set it.
pub open spec fn flag_over(top: Option<bool>, below: bool) -> bool {
    match top {
        Some(value) => value,
        None => below,
    }
}

/// The settings that hold where no tier sets any.
pub open spec fn unset() -> ResolvedSettings {
    ResolvedSettings {
        default_profile: None,
        permission_profile: None,
        background_session_default: false,
        default_agent_id: None,
        show_global_skills: true,
    }
}

/// The settings that hold once one more tier is added.
pub open spec fn overlaid(below: ResolvedSettings, top: SettingsDocument) -> ResolvedSettings {
    ResolvedSettings {
        default_profile: over(top.default_profile, below.default_profile),
        permission_profile: over(top.permission_profile, below.permission_profile),
        background_session_default: flag_over(
            top.background_session_default,
            below.background_session_default,
        ),
        default_agent_id: over(top.default_agent_id, below.default_agent_id),
        show_global_skills: flag_over(top.show_global_skills, below.show_global_skills),
    }
}

/// A trimmed text, where anything is left of it.
pub open spec fn filled(s: Seq<char>) -> Option<Seq<char>> {
    if trimmed(s).len() == 0 {
        None
    } else {
        Some(trimmed(s))
    }
}

/// The text without the white space around it, where anything is left.
pub fn non_empty(value: String) -> (r: Option<String>)
    ensures
        optional_text(r) == filled(value@),
{
    let text: &str = trim(value.as_str());
    if text.unicode_len() == 0 {
        None
    } else {
        Some(text.to_owned())
    }
}

/// A name that is not the one that stands for no choice.
pub open spec fn chosen_name(name: Option<String>) -> Option<String> {
    match name {
        Some(name) => if name@ == "default"@ {
            None
        } else {
            Some(name)
        },
        None => None,
    }
}

/// A name, unless it is the one that the gateway keeps for no choice.
pub fn non_default_sentinel(name: Option<String>) -> (r: Option<String>)
    ensures
        r == chosen_name(name),
{
    match name {
        Some(name) => if same(name.as_str(), "default") {
            None
        } else {
            Some(name)
        },
        None => None,
    }
}

/// The file that the settings of a scope are in.
pub open spec fn settings_path(paths: SettingsPaths, scope: Seq<char>) -> Option<Seq<char>> {
    if scope == "global"@ {
        Some(paths.global@)
    } else if scope == "project"@ {
        optional_text(paths.project)
    } else {
        None
    }
}

/// The file of a tier that can be edited: the user's, or the project's where a
/// project is open.
pub fn scoped_settings_path<'a>(paths: &'a SettingsPaths, scope: &str) -> (r: Option<&'a str>)
    ensures
        borrowed_text(r) == settings_path(*paths, scope@),
{
    if same(scope, "global") {
        Some(paths.global.as_str())
    } else if same(scope, "project") {
        match &paths.project {
            Some(path) => Some(path.as_str()),
            None => None,
        }
    } else {
        None
    }
}

/// Whether a tier can be edited.
pub open spec fn available(files: SettingsFiles, scope: Seq<char>) -> bool {
    scope == "global"@ || (scope == "project"@ && files.project is Some)
}

/// What went wrong in reading the documents of a tier and of those below it, if
/// anything: the first failure.
pub open spec fn read_failure(files: SettingsFiles, scope: Seq<char>) -> Option<Seq<char>> {
    match files.bundled_default {
        Some(Err(error)) => Some("bundled settings load failed: "@ + error@),
        _ => match files.global {
            Err(error) => Some("global settings load failed: "@ + error@),
            Ok(_) => if scope == "project"@ && scope != "global"@ {
                match files.project {
                    Some(Err(error)) => Some("project settings load failed: "@ + error@),
                    _ => None,
                }
            } else {
                None
            },
        },
    }
}

/// The settings that a tier shows: its own over the user's over those that came
/// with the panel.
pub open spec fn shown(files: SettingsFiles, scope: Seq<char>) -> ResolvedSettings {
    let bundled = match files.bundled_default {
        Some(Ok(document)) => overlaid(unset(), document),
        _ => unset(),
    };
    let global = match files.global {
        Ok(document) => overlaid(bundled, document),
        Err(_) => bundled,
    };
    if scope == "project"@ && scope != "global"@ {
        match files.project {
            Some(Ok(document)) => overlaid(global, document),
            _ => global,
        }
    } else {
        global
    }
}

/// The preferences of the panel by settings.
pub open spec fn defaults_of(
    resolved: ResolvedSettings,
    selected: Option<String>,
) -> PanelDefaults {
    PanelDefaults {
        profile_name: chosen_name(resolved.default_profile),
        permission_profile: chosen_name(resolved.permission_profile),
        background_session: resolved.background_session_default,
        selected_thread_id: selected,
    }
}

/// The preferences of the panel by settings; names that stand for no choice are
/// left out.
pub fn resolved_to_panel_defaults(
    resolved: &ResolvedSettings,
    selected_thread_id: Option<String>,
) -> (r: PanelDefaults)
    ensures
        r == defaults_of(*resolved, selected_thread_id),
{
    PanelDefaults {
        profile_name: non_default_sentinel(clone_optional(&resolved.default_profile)),
        permission_profile: non_default_sentinel(clone_optional(&resolved.permission_profile)),
        background_session: resolved.background_session_default,
        selected_thread_id,
    }
}

fn over_text(top: &Option<String>, below: Option<String>) -> (r: Option<String>)
    ensures
        r == over(*top, below),
{
    match top {
        Some(value) => Some(value.clone()),
        None => below,
    }
}

fn over_flag(top: Option<bool>, below: bool) -> (r: bool)
    ensures
        r == flag_over(top, below),
{
    match top {
        Some(value) => value,
        None => below,
    }
}

fn overlay(below: ResolvedSettings, top: &SettingsDocument) -> (r: ResolvedSettings)
    ensures
        r == overlaid(below, *top),
{
    ResolvedSettings {
        default_profile: over_text(&top.default_profile, below.default_profile),
        permission_profile: over_text(&top.permission_profile, below.permission_profile),
        background_session_default: over_flag(
            top.background_session_default,
            below.background_session_default,
        ),
        default_agent_id: over_text(&top.default_agent_id, below.default_agent_id),
        show_global_skills: over_flag(top.show_global_skills, below.show_global_skills),
    }
}

/// Whether `prefs` are the preferences that a tier shows, and `after` the warnings
/// then.
pub open spec fn prefs_loaded(
    files: SettingsFiles,
    scope: Seq<char>,
    selected: Option<String>,
    prefs: Option<ScopedPanelPrefs>,
    before: Seq<String>,
    after: Seq<String>,
) -> bool {
    &&& prefs is Some <==> available(files, scope) && read_failure(files, scope) is None
    &&& prefs is Some ==> prefs->0 == (ScopedPanelPrefs {
        defaults: defaults_of(shown(files, scope), selected),
        default_agent_id: shown(files, scope).default_agent_id,
        show_global_skills: shown(files, scope).show_global_skills,
    }) && after == before
    &&& prefs is None ==> texts(after) == texts(before).push(
        if !available(files, scope) {
            "unavailable settings scope "@ + debug_shown(scope)
        } else {
            read_failure(files, scope)->0
        },
    )
}

/// The preferences that a tier shows. Where the tier cannot be had, or one of
/// the documents cannot be read, nothing is shown and a warning says why.
pub fn load_scoped_panel_prefs(
    files: &SettingsFiles,
    scope: &str,
    selected_thread_id: Option<String>,
    warnings: &mut Vec<String>,
) -> (r: Option<ScopedPanelPrefs>)
    ensures
        prefs_loaded(
            *files,
            scope@,
            selected_thread_id,
            r,
            old(warnings)@,
            final(warnings)@,
        ),
{
    let project: bool = same(scope, "project") && !same(scope, "global");
    let known: bool = same(scope, "global") || (project && files.project.is_some());
    if !known {
        let quoted: String = debug_text(scope);
        warnings.push(join("unavailable settings scope ", quoted.as_str()));
        assert(texts(warnings@) =~= texts(old(warnings)@).push(
            "unavailable settings scope "@ + debug_shown(scope@),
        ));
        return None;
    }
    let mut resolved: ResolvedSettings = ResolvedSettings {
        default_profile: None,
        permission_profile: None,
        background_session_default: false,
        default_agent_id: None,
        show_global_skills: true,
    };
    if let Some(bundled) = &files.bundled_default {
        match bundled {
            Ok(document) => {
                resolved = overlay(resolved, document);
            },
            Err(error) => {
                warnings.push(join("bundled settings load failed: ", error.as_str()));
                assert(texts(warnings@) =~= texts(old(warnings)@).push(
                    read_failure(*files, scope@)->0,
                ));
                return None;
            },
        }
    }
    match &files.global {
        Ok(document) => {
            resolved = overlay(resolved, document);
        },
        Err(error) => {
            warnings.push(join("global settings load failed: ", error.as_str()));
            assert(texts(warnings@) =~= texts(old(warnings)@).push(
                read_failure(*files, scope@)->0,
            ));
            return None;
        },
    }
    if project {
        match &files.project {
            Some(Ok(document)) => {
                resolved = overlay(resolved, document);
            },
            Some(Err(error)) => {
                warnings.push(join("project settings load failed: ", error.as_str()));
                assert(texts(warnings@) =~= texts(old(warnings)@).push(
                    read_failure(*files, scope@)->0,
                ));
                return None;
            },
            None => {
                return None;
            },
        }
    }
    let default_agent_id: Option<String> = clone_optional(&resolved.default_agent_id);
    let show_global_skills: bool = resolved.show_global_skills;
    Some(
        ScopedPanelPrefs {
            defaults: resolved_to_panel_defaults(&resolved, selected_thread_id),
            default_agent_id,
            show_global_skills,
        },
    )
}

/// Whether `prefs` are the preferences of the panel, and `after` the warnings
/// then.
pub open spec fn defaults_loaded(
    resolved: Result<ResolvedSettings, String>,
    selected: Option<String>,
    prefs: PanelDefaults,
    before: Seq<String>,
    after: Seq<String>,
) -> bool {
    match resolved {
        Ok(resolved) => prefs == defaults_of(resolved, selected) && after == before,
        Err(error) => prefs == (PanelDefaults {
            profile_name: None,
            permission_profile: None,
            background_session: false,
            selected_thread_id: selected,
        }) && texts(after) == texts(before).push("settings file load failed: "@ + error@),
    }
}

/// The preferences of the panel; where the settings cannot be read, those that
/// hold without any, with a warning.
pub fn load_panel_prefs(
    resolved: Result<ResolvedSettings, String>,
    selected_thread_id: Option<String>,
    warnings: &mut Vec<String>,
) -> (r: PanelDefaults)
    ensures
        defaults_loaded(resolved, selected_thread_id, r, old(warnings)@, final(warnings)@),
{
    match resolved {
        Ok(resolved) => resolved_to_panel_defaults(&resolved, selected_thread_id),
        Err(error) => {
            warnings.push(join("settings file load failed: ", error.as_str()));
            assert(texts(warnings@) =~= texts(old(warnings)@).push(
                "settings file load failed: "@ + error@,
            ));
            PanelDefaults {
                profile_name: None,
                permission_profile: None,
                background_session: false,
                selected_thread_id,
            }
        },
    }
}

/// The document of a tier after preferences were saved into it: what they do not
/// speak of stays.
pub open spec fn saved_document(
    document: SettingsDocument,
    defaults: PanelDefaults,
    default_agent_id: Option<String>,
    show_global_skills: bool,
) -> SettingsDocument {
    SettingsDocument {
        schema_version: 1,
        default_profile: defaults.profile_name,
        permission_profile: defaults.permission_profile,
        background_session_default: Some(defaults.background_session),
        default_agent_id,
        show_global_skills: Some(show_global_skills),
        ..document
    }
}

fn write_prefs(
    document: &mut SettingsDocument,
    defaults: &PanelDefaults,
    default_agent_id: Option<String>,
    show_global_skills: bool,
)
    ensures
        *final(document) == saved_document(
            *old(document),
            *defaults,
            default_agent_id,
            show_global_skills,
        ),
{
    document.schema_version = 1;
    document.default_profile = clone_optional(&defaults.profile_name);
    document.permission_profile = clone_optional(&defaults.permission_profile);
    document.background_session_default = Some(defaults.background_session);
    document.default_agent_id = default_agent_id;
    document.show_global_skills = Some(show_global_skills);
}

/// The document of a tier that can be edited.
pub open spec fn tier(files: SettingsFiles, scope: Seq<char>) -> Option<
    Result<SettingsDocument, String>,
> {
    if scope == "global"@ {
        Some(files.global)
    } else if scope == "project"@ {
        files.project
    } else {
        None
    }
}

/// The documents after that of one tier was replaced.
pub open spec fn saved_into(
    files: SettingsFiles,
    scope: Seq<char>,
    document: SettingsDocument,
) -> SettingsFiles {
    if scope == "global"@ {
        SettingsFiles { global: Ok(document), ..files }
    } else {
        SettingsFiles { project: Some(Ok(document)), ..files }
    }
}

/// Whether `result` and `after` are what saving preferences into a tier comes to.
pub open spec fn prefs_saved(
    before: SettingsFiles,
    scope: Seq<char>,
    defaults: PanelDefaults,
    default_agent_id: Option<String>,
    show_global_skills: bool,
    after: SettingsFiles,
    result: Result<(), String>,
) -> bool {
    match tier(before, scope) {
        None => result is Err && result->Err_0@ == "settings scope "@ + debug_shown(scope)
            + " is unavailable"@ && after == before,
        Some(Err(error)) => result is Err && result->Err_0@ == error@ && after == before,
        Some(Ok(document)) => {
            let saved = saved_document(document, defaults, default_agent_id, show_global_skills);
            &&& result is Ok
            &&& after == saved_into(before, scope, saved)
        },
    }
}

/// Saves preferences into a tier. Nothing is written where the tier cannot be
/// had or its document cannot be read.
pub fn save_panel_prefs_to_json(
    files: &mut SettingsFiles,
    scope: &str,
    defaults: &PanelDefaults,
    default_agent_id: Option<String>,
    show_global_skills: bool,
) -> (r: Result<(), String>)
    ensures
        prefs_saved(
            *old(files),
            scope@,
            *defaults,
            default_agent_id,
            show_global_skills,
            *final(files),
            r,
        ),
{
    if same(scope, "global") {
        match &mut files.global {
            Ok(document) => {
                write_prefs(document, defaults, default_agent_id, show_global_skills);
                Ok(())
            },
            Err(error) => Err(error.clone()),
        }
    } else if same(scope, "project") {
        match &mut files.project {
            Some(Ok(document)) => {
                write_prefs(document, defaults, default_agent_id, show_global_skills);
                Ok(())
            },
            Some(Err(error)) => Err(error.clone()),
            None => {
                let quoted: String = debug_text(scope);
                Err(join3("settings scope ", quoted.as_str(), " is unavailable"))
            },
        }
    } else {
        let quoted: String = debug_text(scope);
        Err(join3("settings scope ", quoted.as_str(), " is unavailable"))
    }
}

/// Saving into one tier leaves the document of the other as it was, and with it
/// what the user's tier shows.
pub proof fn law_tiers_are_independent(
    before: SettingsFiles,
    scope: Seq<char>,
    other: Seq<char>,
    saved: SettingsDocument,
)
    requires
        scope == "global"@ || scope == "project"@,
        other != scope,
    ensures
        tier(saved_into(before, scope, saved), other) == tier(before, other),
        scope != "global"@ ==> shown(saved_into(before, scope, saved), "global"@) == shown(
            before,
            "global"@,
        ),
{
}

/// What is saved into a tier is what the tier shows, whatever stands in the
/// tiers below, as far as it sets a value.
pub proof fn law_saved_prefs_are_shown(
    before: SettingsFiles,
    scope: Seq<char>,
    document: SettingsDocument,
    defaults: PanelDefaults,
    default_agent_id: Option<String>,
    show_global_skills: bool,
)
    requires
        tier(before, scope) == Some(Ok::<SettingsDocument, String>(document)),
    ensures
        ({
            let saved = saved_document(document, defaults, default_agent_id, show_global_skills);
            let seen = shown(saved_into(before, scope, saved), scope);
            &&& seen.background_session_default == defaults.background_session
            &&& seen.show_global_skills == show_global_skills
            &&& defaults.profile_name is Some ==> seen.default_profile == defaults.profile_name
            &&& defaults.permission_profile is Some ==> seen.permission_profile
                == defaults.permission_profile
            &&& default_agent_id is Some ==> seen.default_agent_id == default_agent_id
        }),
{
}

/// A project that sets nothing shows what the user's tier shows.
pub proof fn law_project_inherits(files: SettingsFiles, document: SettingsDocument)
    requires
        files.project == Some(Ok::<SettingsDocument, String>(document)),
        document.default_profile is None,
        document.permission_profile is None,
        document.background_session_default is None,
        document.default_agent_id is None,
        document.show_global_skills is None,
    ensures
        shown(files, "project"@) == shown(files, "global"@),
{
    reveal_strlit("global");
    reveal_strlit("project");
    assert("global"@.len() == 6);
    assert("project"@.len() == 7);
}

/// Saving into the user's tier changes nothing that a project has set for
/// itself.
pub proof fn law_project_override_survives(
    before: SettingsFiles,
    saved: SettingsDocument,
    document: SettingsDocument,
)
    requires
        before.project == Some(Ok::<SettingsDocument, String>(document)),
        document.background_session_default is Some,
        document.show_global_skills is Some,
    ensures
        ({
            let after = saved_into(before, "global"@, saved);
            &&& shown(after, "project"@).background_session_default == shown(
                before,
                "project"@,
            ).background_session_default
            &&& shown(after, "project"@).show_global_skills == shown(
                before,
                "project"@,
            ).show_global_skills
        }),
{
    reveal_strlit("global");
    reveal_strlit("project");
    assert("global"@.len() == 6);
    assert("project"@.len() == 7);
}

/// The document that carries preferences over into a file that does not exist
/// yet: those of the store, where it has any.
pub open spec fn carried_over(
    global_exists: bool,
    stored: Option<PanelDefaults>,
) -> Option<SettingsDocument> {
    if global_exists {
        None
    } else {
        match stored {
            Some(defaults) => if defaults.profile_name is Some || defaults.permission_profile is Some
                || defaults.background_session {
                Some(
                    SettingsDocument {
                        schema_version: 1,
                        default_profile: defaults.profile_name,
                        permission_profile: defaults.permission_profile,
                        background_session_default: Some(defaults.background_session),
                        default_agent_id: None,
                        show_global_skills: None,
                        harness: None,
                        dev_mode: None,
                        snapflow_mcp_enabled: None,
                    },
                )
            } else {
                None
            },
            None => None,
        }
    }
}

/// The document that carries preferences over into a file that does not exist
/// yet: those of the store, where it has any.
pub fn maybe_migrate_sqlite_defaults_to_json(
    global_exists: bool,
    stored: Option<PanelDefaults>,
) -> (r: Option<SettingsDocument>)
    ensures
        r == carried_over(global_exists, stored),
{
    if global_exists {
        return None;
    }
    match stored {
        Some(defaults) => if defaults.profile_name.is_some()
            || defaults.permission_profile.is_some() || defaults.background_session {
            Some(
                SettingsDocument {
                    schema_version: 1,
                    default_profile: defaults.profile_name,
                    permission_profile: defaults.permission_profile,
                    background_session_default: Some(defaults.background_session),
                    default_agent_id: None,
                    show_global_skills: None,
                    harness: None,
                    dev_mode: None,
                    snapflow_mcp_enabled: None,
                },
            )
        } else {
            None
        },
        None => None,
    }
}

/// The preferences that the store is brought to: those that hold, with the
/// thread that the store has as selected.
pub open spec fn brought_to(effective: PanelDefaults, stored: Option<PanelDefaults>) -> PanelDefaults {
    PanelDefaults {
        selected_thread_id: match stored {
            Some(stored) => stored.selected_thread_id,
            None => None,
        },
        ..effective
    }
}

/// The preferences that the store is brought to: those that hold, with the
/// thread that the store has as selected.
pub fn sync_runtime_defaults(effective: &PanelDefaults, stored: Option<PanelDefaults>) -> (r:
    PanelDefaults)
    ensures
        r == brought_to(*effective, stored),
{
    PanelDefaults {
        profile_name: clone_optional(&effective.profile_name),
        permission_profile: clone_optional(&effective.permission_profile),
        background_session: effective.background_session,
        selected_thread_id: match stored {
            Some(stored) => stored.selected_thread_id,
            None => None,
        },
    }
}

/// What the settings sheet asks for, as it is saved.
#[derive(Debug, Clone, PartialEq)]
pub struct SettingsSave {
    pub scope: String,
    pub defaults: PanelDefaults,
    pub default_agent_id: Option<String>,
    pub show_global_skills: bool,
    pub background_override: Option<bool>,
}

/// What is saved for the settings sheet: names without white space around them,
/// and left out where they are empty; the background setting of the selected
/// thread only where it was set.
pub fn settings_save(input: SettingsSaveInput) -> (r: SettingsSave)
    ensures
        r.scope == input.scope,
        optional_text(r.defaults.profile_name) == filled(input.default_profile@),
        optional_text(r.defaults.permission_profile) == filled(input.permission_profile@),
        r.defaults.background_session == input.background_default,
        r.defaults.selected_thread_id == input.selected_thread_id,
        optional_text(r.default_agent_id) == filled(input.default_agent_id@),
        r.show_global_skills == input.show_global_skills,
        r.background_override == if input.background_override_set {
            Some(input.background_override)
        } else {
            None
        },
{
    let background_override: Option<bool> = if input.background_override_set {
        Some(input.background_override)
    } else {
        None
    };
    SettingsSave {
        scope: input.scope,
        defaults: PanelDefaults {
            profile_name: non_empty(input.default_profile),
            permission_profile: non_empty(input.permission_profile),
            background_session: input.background_default,
            selected_thread_id: input.selected_thread_id,
        },
        default_agent_id: non_empty(input.default_agent_id),
        show_global_skills: input.show_global_skills,
        background_override,
    }
}

/// How far the saving of settings has come: the document of the tier is written,
/// then the selected thread is stored, then its background setting, and then it
/// is finished.
#[derive(Debug, PartialEq)]
pub enum SaveStage {
    Document,
    SelectedThread,
    BackgroundOverride,
    Finished(Result<(), EffectError>),
}

/// Whether a stage ended with an error that says this.
pub open spec fn failed_with(stage: SaveStage, message: Seq<char>) -> bool {
    match stage {
        SaveStage::Finished(Err(error)) => error.message@ == message,
        _ => false,
    }
}

/// Whether a stage is the one after another whose outcome is known.
pub open spec fn follows(
    stage: SaveStage,
    outcome: Result<(), String>,
    store: bool,
    selected_thread: bool,
    next: SaveStage,
) -> bool {
    match (stage, outcome) {
        (SaveStage::Document, Ok(())) => next == if store && selected_thread {
            SaveStage::SelectedThread
        } else {
            SaveStage::Finished(Ok(()))
        },
        (SaveStage::Document, Err(error)) => failed_with(
            next,
            "failed to save panel settings JSON: "@ + error@,
        ),
        (SaveStage::SelectedThread, Ok(())) => next == SaveStage::BackgroundOverride,
        (SaveStage::SelectedThread, Err(error)) => failed_with(
            next,
            "failed to persist selected chat thread: "@ + error@,
        ),
        (SaveStage::BackgroundOverride, Ok(())) => next == SaveStage::Finished(Ok(())),
        (SaveStage::BackgroundOverride, Err(error)) => failed_with(
            next,
            "failed to save background-session override: "@ + error@,
        ),
        (SaveStage::Finished(result), _) => next == SaveStage::Finished(result),
    }
}

/// The stage after one whose outcome is known. The thread is stored only where
/// there is a store and a selected thread; the first failure ends the saving.
pub fn execute_settings_save(
    stage: SaveStage,
    outcome: Result<(), String>,
    store: bool,
    selected_thread: bool,
) -> (r: SaveStage)
    ensures
        follows(stage, outcome, store, selected_thread, r),
{
    match (stage, outcome) {
        (SaveStage::Document, Ok(())) => if store && selected_thread {
            SaveStage::SelectedThread
        } else {
            SaveStage::Finished(Ok(()))
        },
        (SaveStage::Document, Err(error)) => SaveStage::Finished(
            Err(EffectError::new(join("failed to save panel settings JSON: ", error.as_str()))),
        ),
        (SaveStage::SelectedThread, Ok(())) => SaveStage::BackgroundOverride,
        (SaveStage::SelectedThread, Err(error)) => SaveStage::Finished(
            Err(EffectError::new(join("failed to persist selected chat thread: ", error.as_str()))),
        ),
        (SaveStage::BackgroundOverride, Ok(())) => SaveStage::Finished(Ok(())),
        (SaveStage::BackgroundOverride, Err(error)) => SaveStage::Finished(
            Err(
                EffectError::new(
                    join("failed to save background-session override: ", error.as_str()),
                ),
            ),
        ),
        (SaveStage::Finished(result), _) => SaveStage::Finished(result),
    }
}

/// For how many milliseconds after the panel saved its settings it passes over
/// what it is told of changed settings: the change is its own.
pub const OWN_CHANGE_MILLIS: u64 = 500;

/// A point in time, some milliseconds later.
pub open spec fn later(now: u64, millis: u64) -> u64 {
    if now + millis > u64::MAX {
        u64::MAX
    } else {
        (now + millis) as u64
    }
}

/// Until when the panel passes over changed settings, after a stage of saving.
pub open spec fn ignored_until(stage: SaveStage, outcome: Result<(), String>, now: u64) -> Option<
    u64,
> {
    if stage is Document && outcome is Ok {
        Some(later(now, OWN_CHANGE_MILLIS))
    } else {
        None
    }
}

/// Until when the panel passes over changed settings, from the outcome of a
/// stage of saving at the time `now`: only once the document is written.
pub fn ignore_settings_until(stage: &SaveStage, outcome: &Result<(), String>, now: u64) -> (r: Option<
    u64,
>)
    ensures
        r == ignored_until(*stage, *outcome, now),
{
    match (stage, outcome) {
        (SaveStage::Document, Ok(_)) => Some(now.saturating_add(OWN_CHANGE_MILLIS)),
        _ => None,
    }
}

/// The preferences that a panel starts with, and the agent that its new threads
/// use, where the settings name one.
#[derive(Debug, Clone, PartialEq)]
pub struct StartupPrefs {
    pub defaults: PanelDefaults,
    pub default_agent_id: Option<String>,
}

/// The preferences that a panel starts with: those of the tier `scope`; where it
/// shows none, those of all tiers, with a warning, and no agent.
pub fn startup_prefs(
    files: &SettingsFiles,
    scope: &str,
    resolved: Result<ResolvedSettings, String>,
    selected_thread_id: Option<String>,
    warnings: &mut Vec<String>,
) -> (r: StartupPrefs)
    ensures
        available(*files, scope@) && read_failure(*files, scope@) is None ==> r == (StartupPrefs {
            defaults: defaults_of(shown(*files, scope@), selected_thread_id),
            default_agent_id: chosen_name(shown(*files, scope@).default_agent_id),
        }) && final(warnings)@ == old(warnings)@,
        !(available(*files, scope@) && read_failure(*files, scope@) is None) ==> {
            let why = if !available(*files, scope@) {
                "unavailable settings scope "@ + debug_shown(scope@)
            } else {
                read_failure(*files, scope@)->0
            };
            &&& r.default_agent_id is None
            &&& match resolved {
                Ok(resolved) => r.defaults == defaults_of(resolved, selected_thread_id) && texts(
                    final(warnings)@,
                ) == texts(old(warnings)@).push(why),
                Err(error) => r.defaults == (PanelDefaults {
                    profile_name: None,
                    permission_profile: None,
                    background_session: false,
                    selected_thread_id,
                }) && texts(final(warnings)@) == texts(old(warnings)@).push(why).push(
                    "settings file load failed: "@ + error@,
                ),
            }
        },
{
    match load_scoped_panel_prefs(files, scope, clone_optional(&selected_thread_id), warnings) {
        Some(scoped) => StartupPrefs {
            defaults: scoped.defaults,
            default_agent_id: non_default_sentinel(scoped.default_agent_id),
        },
        None => StartupPrefs {
            defaults: load_panel_prefs(resolved, selected_thread_id, warnings),
            default_agent_id: None,
        },
    }
}

/// Whether a setting of the environment is on.
pub open spec fn wired(value: Option<Seq<char>>) -> bool {
    value == Some("1"@)
}

/// Whether the choice of profiles is shown in the settings: only where it was
/// switched on by `1`.
pub fn profile_wiring_enabled(value: Option<&str>) -> (r: bool)
    ensures
        r == wired(borrowed_text(value)),
{
    match value {
        Some(value) => same(value, "1"),
        None => false,
    }
}

} // verus!
