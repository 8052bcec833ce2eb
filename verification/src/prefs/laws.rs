//! Which preferences hold, and what saving them does, said of each of them.

use crate::model::PanelDefaults;
use crate::prefs::{
    brought_to, carried_over, chosen_name, defaults_loaded, defaults_of, follows, ignored_until,
    later, overlaid, prefs_loaded, prefs_saved, read_failure, settings_path, shown, wired,
    ResolvedSettings, SaveStage, ScopedPanelPrefs, SettingsDocument, SettingsFiles, SettingsPaths,
};
use crate::text::{debug_shown, texts};
use vstd::prelude::*;

verus! {

proof fn lemma_tiers_differ()
    ensures
        "global"@ != "project"@,
{
    reveal_strlit("global");
    reveal_strlit("project");
    assert("global"@.len() == 6 && "project"@.len() == 7);
}

/// A tier decides what it sets, and leaves what it does not set to those below.
pub proof fn law_tier_decides_what_it_sets(below: ResolvedSettings, top: SettingsDocument)
    ensures
        ({
            let r = overlaid(below, top);
            &&& top.default_profile is Some ==> r.default_profile == top.default_profile
            &&& top.default_profile is None ==> r.default_profile == below.default_profile
            &&& top.permission_profile is Some ==> r.permission_profile == top.permission_profile
            &&& top.permission_profile is None ==> r.permission_profile == below.permission_profile
            &&& top.default_agent_id is Some ==> r.default_agent_id == top.default_agent_id
            &&& top.default_agent_id is None ==> r.default_agent_id == below.default_agent_id
            &&& top.background_session_default matches Some(on) ==> r.background_session_default
                == on
            &&& top.background_session_default is None ==> r.background_session_default
                == below.background_session_default
            &&& top.show_global_skills matches Some(show) ==> r.show_global_skills == show
            &&& top.show_global_skills is None ==> r.show_global_skills == below.show_global_skills
        }),
{
}

/// A project's own settings come first, then the user's, then those that came
/// with the panel.
pub proof fn law_nearer_tiers_come_first(
    files: SettingsFiles,
    bundled: SettingsDocument,
    global: SettingsDocument,
    project: SettingsDocument,
)
    requires
        files.bundled_default == Some(Ok::<SettingsDocument, String>(bundled)),
        files.global == Ok::<SettingsDocument, String>(global),
        files.project == Some(Ok::<SettingsDocument, String>(project)),
    ensures
        ({
            let user = shown(files, "global"@);
            let seen = shown(files, "project"@);
            &&& project.default_profile is Some ==> seen.default_profile == project.default_profile
            &&& project.default_profile is None ==> seen.default_profile == user.default_profile
            &&& global.default_profile is Some ==> user.default_profile == global.default_profile
            &&& global.default_profile is None ==> user.default_profile == bundled.default_profile
            &&& project.permission_profile is Some ==> seen.permission_profile
                == project.permission_profile
            &&& project.permission_profile is None ==> seen.permission_profile
                == user.permission_profile
            &&& global.permission_profile is Some ==> user.permission_profile
                == global.permission_profile
            &&& global.permission_profile is None ==> user.permission_profile
                == bundled.permission_profile
            &&& project.default_agent_id is Some ==> seen.default_agent_id
                == project.default_agent_id
            &&& project.default_agent_id is None ==> seen.default_agent_id == user.default_agent_id
            &&& global.default_agent_id is Some ==> user.default_agent_id
                == global.default_agent_id
            &&& global.default_agent_id is None ==> user.default_agent_id
                == bundled.default_agent_id
            &&& project.background_session_default matches Some(on)
                ==> seen.background_session_default == on
            &&& project.background_session_default is None ==> seen.background_session_default
                == user.background_session_default
            &&& global.background_session_default matches Some(on)
                ==> user.background_session_default == on
            &&& project.show_global_skills matches Some(show) ==> seen.show_global_skills == show
            &&& project.show_global_skills is None ==> seen.show_global_skills
                == user.show_global_skills
            &&& global.show_global_skills matches Some(show) ==> user.show_global_skills == show
        }),
{
    lemma_tiers_differ();
}

/// Where no tier sets anything, no profile and no agent is chosen, sessions do
/// not stay in the background, and the skills for all projects are shown.
pub proof fn law_nothing_is_set(files: SettingsFiles, document: SettingsDocument)
    requires
        files.bundled_default is None,
        files.global == Ok::<SettingsDocument, String>(document),
        document.default_profile is None,
        document.permission_profile is None,
        document.background_session_default is None,
        document.default_agent_id is None,
        document.show_global_skills is None,
    ensures
        ({
            let r = shown(files, "global"@);
            &&& r.default_profile is None
            &&& r.permission_profile is None
            &&& r.default_agent_id is None
            &&& !r.background_session_default
            &&& r.show_global_skills
        }),
{
    lemma_tiers_differ();
}

/// The preferences of the panel are the settings, each under its own name, but
/// that the name `default` stands for no choice.
pub proof fn law_defaults_are_the_settings(resolved: ResolvedSettings, selected: Option<String>)
    ensures
        ({
            let d = defaults_of(resolved, selected);
            &&& d.background_session == resolved.background_session_default
            &&& d.selected_thread_id == selected
            &&& resolved.default_profile is None ==> d.profile_name is None
            &&& resolved.default_profile matches Some(name) ==> (name@ == "default"@
                ==> d.profile_name is None) && (name@ != "default"@ ==> d.profile_name == Some(
                name,
            ))
            &&& resolved.permission_profile is None ==> d.permission_profile is None
            &&& resolved.permission_profile matches Some(name) ==> (name@ == "default"@
                ==> d.permission_profile is None) && (name@ != "default"@ ==> d.permission_profile
                == Some(name))
        }),
{
}

/// Where the documents of a tier can be read, its preferences are the settings
/// that it shows, and no warning is given; else there are none, and one warning
/// more says why.
pub proof fn law_preferences_are_loaded(
    files: SettingsFiles,
    scope: Seq<char>,
    selected: Option<String>,
    prefs: Option<ScopedPanelPrefs>,
    before: Seq<String>,
    after: Seq<String>,
)
    requires
        prefs_loaded(files, scope, selected, prefs, before, after),
    ensures
        prefs matches Some(p) ==> {
            let r = shown(files, scope);
            &&& after == before
            &&& p.defaults.background_session == r.background_session_default
            &&& p.defaults.selected_thread_id == selected
            &&& p.defaults.profile_name == chosen_name(r.default_profile)
            &&& p.defaults.permission_profile == chosen_name(r.permission_profile)
            &&& p.default_agent_id == r.default_agent_id
            &&& p.show_global_skills == r.show_global_skills
        },
        prefs is None ==> after.len() == before.len() + 1,
        scope == "global"@ && files.global is Ok && files.bundled_default is None ==> prefs is Some,
        scope != "global"@ && scope != "project"@ ==> prefs is None && after.last()@
            == "unavailable settings scope "@ + debug_shown(scope),
        files.project is None && scope == "project"@ ==> prefs is None,
        files.global is Err ==> prefs is None,
{
    lemma_tiers_differ();
    if prefs is None {
        assert(texts(after).len() == texts(before).len() + 1);
        assert(texts(after).last() == after.last()@);
    }
}

/// The first document that cannot be read is named, with the reason: of those
/// that came with the panel, of the user, and of the project where it is asked
/// for, in this order.
pub proof fn law_first_unread_document_is_named(files: SettingsFiles, scope: Seq<char>)
    ensures
        files.bundled_default matches Some(Err(error)) ==> read_failure(files, scope) == Some(
            "bundled settings load failed: "@ + error@,
        ),
        !(files.bundled_default is Some && files.bundled_default->0 is Err) ==> {
            &&& files.global matches Err(error) ==> read_failure(files, scope) == Some(
                "global settings load failed: "@ + error@,
            )
            &&& files.global is Ok && scope == "project"@ ==> (files.project matches Some(
                Err(error),
            ) ==> read_failure(files, scope) == Some("project settings load failed: "@ + error@))
            &&& files.global is Ok && scope == "global"@ ==> read_failure(files, scope) is None
        },
{
    lemma_tiers_differ();
}

/// Settings that cannot be read leave nothing chosen but the selected thread, and
/// one warning more.
pub proof fn law_unread_settings_choose_nothing(
    error: String,
    selected: Option<String>,
    prefs: PanelDefaults,
    before: Seq<String>,
    after: Seq<String>,
)
    requires
        defaults_loaded(Err(error), selected, prefs, before, after),
    ensures
        prefs.profile_name is None,
        prefs.permission_profile is None,
        !prefs.background_session,
        prefs.selected_thread_id == selected,
        after.len() == before.len() + 1,
        after.last()@ == "settings file load failed: "@ + error@,
{
    assert(texts(after).len() == texts(before).len() + 1);
    assert(texts(after).last() == after.last()@);
}

/// Saving writes the preferences into the document of the tier that was named and
/// into no other, and leaves there what they do not speak of.
pub proof fn law_saving_writes_one_tier(
    before: SettingsFiles,
    scope: Seq<char>,
    defaults: PanelDefaults,
    agent: Option<String>,
    show: bool,
    after: SettingsFiles,
    result: Result<(), String>,
)
    requires
        prefs_saved(before, scope, defaults, agent, show, after, result),
    ensures
        after.bundled_default == before.bundled_default,
        scope == "global"@ ==> after.project == before.project,
        scope != "global"@ ==> after.global == before.global,
        result is Err ==> after == before,
        scope == "global"@ ==> (before.global matches Ok(was) ==> result is Ok && (
        after.global matches Ok(now) && is_saved(was, defaults, agent, show, now))),
        scope == "project"@ ==> (before.project matches Some(Ok(was)) ==> result is Ok && (
        after.project matches Some(Ok(now)) && is_saved(was, defaults, agent, show, now))),
        scope == "project"@ && before.project is None ==> result is Err,
        scope != "global"@ && scope != "project"@ ==> result is Err,
        scope == "global"@ && before.global is Err ==> result is Err,
{
    lemma_tiers_differ();
}

/// Whether a document is another after preferences were saved into it.
pub open spec fn is_saved(
    was: SettingsDocument,
    defaults: PanelDefaults,
    agent: Option<String>,
    show: bool,
    now: SettingsDocument,
) -> bool {
    &&& now.default_profile == defaults.profile_name
    &&& now.permission_profile == defaults.permission_profile
    &&& now.background_session_default == Some(defaults.background_session)
    &&& now.default_agent_id == agent
    &&& now.show_global_skills == Some(show)
    &&& now.schema_version == 1
    &&& now.harness == was.harness
    &&& now.dev_mode == was.dev_mode
    &&& now.snapflow_mcp_enabled == was.snapflow_mcp_enabled
}

/// Saving goes through its stages in order: the document, then the selected
/// thread and its background setting where there is a store and a selection. It
/// ends well only after the last of them, and ends at once with the first
/// failure, in the words of that failure.
pub proof fn law_saving_goes_through_its_stages(
    stage: SaveStage,
    outcome: Result<(), String>,
    store: bool,
    selected: bool,
    next: SaveStage,
)
    requires
        follows(stage, outcome, store, selected, next),
    ensures
        stage is Document && outcome is Ok && store && selected ==> next is SelectedThread,
        stage is Document && outcome is Ok && !(store && selected) ==> next == SaveStage::Finished(
            Ok(()),
        ),
        stage is SelectedThread && outcome is Ok ==> next is BackgroundOverride,
        stage is BackgroundOverride && outcome is Ok ==> next == SaveStage::Finished(Ok(())),
        stage is Finished ==> next == stage,
        !(stage is Finished) ==> (outcome matches Err(error) ==> (next matches SaveStage::Finished(
            Err(told),
        ) && error@.is_suffix_of(told.message@))),
{
    if let Err(error) = outcome {
        lemma_ends("failed to save panel settings JSON: "@, error@);
        lemma_ends("failed to persist selected chat thread: "@, error@);
        lemma_ends("failed to save background-session override: "@, error@);
    }
}

proof fn lemma_ends(head: Seq<char>, error: Seq<char>)
    ensures
        error.is_suffix_of(head + error),
{
    let s = head + error;
    assert(s.skip(s.len() - error.len()) =~= error);
}

/// Only after the document was written is a change of the settings passed over,
/// and for half a second.
pub proof fn law_own_change_is_passed_over(
    stage: SaveStage,
    outcome: Result<(), String>,
    now: u64,
)
    ensures
        ignored_until(stage, outcome, now) is Some <==> stage is Document && outcome is Ok,
        ignored_until(stage, outcome, now) matches Some(until) ==> until == if now <= u64::MAX - 500 {
            now + 500
        } else {
            u64::MAX as int
        },
{
}

/// A later point in time is later by just the given time, as far as time goes.
pub proof fn law_later(now: u64, millis: u64)
    ensures
        now <= later(now, millis),
        now + millis <= u64::MAX ==> later(now, millis) == now + millis,
{
}

/// What the store has is carried over only into a file that does not exist, and
/// only where the store has anything; then it is carried over as it is.
pub proof fn law_stored_defaults_are_carried_over(exists: bool, stored: Option<PanelDefaults>)
    ensures
        exists || stored is None ==> carried_over(exists, stored) is None,
        stored matches Some(d) ==> !exists && (d.profile_name is Some || d.permission_profile
            is Some || d.background_session) ==> (carried_over(exists, stored) matches Some(doc)
            && doc.default_profile == d.profile_name && doc.permission_profile
            == d.permission_profile && doc.background_session_default == Some(d.background_session)
            && doc.default_agent_id is None && doc.show_global_skills is None),
        stored matches Some(d) ==> d.profile_name is None && d.permission_profile is None
            && !d.background_session ==> carried_over(exists, stored) is None,
{
}

/// The store is brought to the preferences that hold, but keeps the thread that
/// it has as selected.
pub proof fn law_store_keeps_its_selection(effective: PanelDefaults, stored: Option<PanelDefaults>)
    ensures
        brought_to(effective, stored).profile_name == effective.profile_name,
        brought_to(effective, stored).permission_profile == effective.permission_profile,
        brought_to(effective, stored).background_session == effective.background_session,
        stored matches Some(s) ==> brought_to(effective, stored).selected_thread_id
            == s.selected_thread_id,
        stored is None ==> brought_to(effective, stored).selected_thread_id is None,
{
}

/// The settings of a scope are in the file of that scope; no other scope has one.
pub proof fn law_scopes_have_their_files(paths: SettingsPaths, scope: Seq<char>)
    ensures
        settings_path(paths, "global"@) == Some(paths.global@),
        paths.project matches Some(path) ==> settings_path(paths, "project"@) == Some(path@),
        paths.project is None ==> settings_path(paths, "project"@) is None,
        scope != "global"@ && scope != "project"@ ==> settings_path(paths, scope) is None,
{
    reveal_strlit("global");
    reveal_strlit("project");
    assert("global"@.len() == 6 && "project"@.len() == 7);
}

/// Only a one switches the wiring of profiles on.
pub proof fn law_only_a_one_is_on(value: Seq<char>)
    ensures
        wired(Some(value)) <==> value == seq!['1'],
        !wired(None),
{
    reveal_strlit("1");
    assert("1"@ =~= seq!['1']);
}

/// A scope that has no settings is named in what the user is told.
pub proof fn law_missing_scope_is_named(
    before: SettingsFiles,
    scope: Seq<char>,
    defaults: PanelDefaults,
    agent: Option<String>,
    show: bool,
    after: SettingsFiles,
    result: Result<(), String>,
)
    requires
        prefs_saved(before, scope, defaults, agent, show, after, result),
        scope != "global"@,
        scope != "project"@,
    ensures
        result matches Err(text) && "settings scope "@.is_prefix_of(text@)
            && " is unavailable"@.is_suffix_of(text@) && text@.len() == "settings scope "@.len()
            + debug_shown(scope).len() + " is unavailable"@.len(),
{
    let text = result->Err_0@;
    assert(text.take("settings scope "@.len() as int) =~= "settings scope "@);
    assert(text.skip(text.len() - " is unavailable"@.len()) =~= " is unavailable"@);
}

/// What cannot be read is not written over, and its own reason is told.
pub proof fn law_unread_settings_stay(
    before: SettingsFiles,
    defaults: PanelDefaults,
    agent: Option<String>,
    show: bool,
    after: SettingsFiles,
    result: Result<(), String>,
    why: String,
)
    requires
        prefs_saved(before, "global"@, defaults, agent, show, after, result),
        before.global matches Err(reason) && reason == why,
    ensures
        result matches Err(text) && text@ == why@,
        after == before,
{
}

} // verus!
