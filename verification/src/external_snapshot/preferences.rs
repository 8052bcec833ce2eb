//! The preferences that the settings sheet shows, and the catalogs beside them.

use crate::external_snapshot::{due, prefs_rescan_due};
use crate::gateway_actor::thread_actor::{ProfileSummary, RemoteThreadInfo};
use crate::model::{AgentCatalogEntry, McpServerEntry, Model, PanelDefaults};
use crate::prefs::ScopedPanelPrefs;
use crate::text::{clone_optional, or_empty, optional_text, same, text_or};
use vstd::prelude::*;

verus! {

/// The preferences of a tier, as they are shown.
#[derive(Debug, Clone, PartialEq, Eq)]
pub struct SettingsPreferencesSnapshot {
    pub scope: String,
    pub default_profile: String,
    pub permission_profile: String,
    pub background_default: bool,
    pub default_agent_id: String,
    pub dev_mode: bool,
    pub background_override_set: bool,
    pub background_override: bool,
    pub show_global_skills: bool,
}

/// The preferences that were read last, with the tier that they are of, and
/// when it was.
#[derive(Debug, PartialEq, Eq)]
pub struct PreferencesCache {
    pub last_scan: Option<u64>,
    pub last: Option<(String, SettingsPreferencesSnapshot)>,
}

fn copy_snapshot(s: &SettingsPreferencesSnapshot) -> (r: SettingsPreferencesSnapshot)
    ensures
        r == *s,
{
    SettingsPreferencesSnapshot {
        scope: s.scope.clone(),
        default_profile: s.default_profile.clone(),
        permission_profile: s.permission_profile.clone(),
        background_default: s.background_default,
        default_agent_id: s.default_agent_id.clone(),
        dev_mode: s.dev_mode,
        background_override_set: s.background_override_set,
        background_override: s.background_override,
        show_global_skills: s.show_global_skills,
    }
}

/// The preferences that were read last, where they are of a tier.
pub open spec fn cached(
    last: Option<(String, SettingsPreferencesSnapshot)>,
    scope: Seq<char>,
) -> Option<SettingsPreferencesSnapshot> {
    match last {
        Some((of, snapshot)) => if of@ == scope {
            Some(snapshot)
        } else {
            None
        },
        None => None,
    }
}

/// The preferences that were read last, where they are of a tier.
pub fn last_prefs_snapshot_if_scope(cache: &PreferencesCache, scope: &str) -> (r: Option<
    SettingsPreferencesSnapshot,
>)
    ensures
        r == cached(cache.last, scope@),
{
    match &cache.last {
        Some((of, snapshot)) => if same(of.as_str(), scope) {
            Some(copy_snapshot(snapshot))
        } else {
            None
        },
        None => None,
    }
}

/// The cache after preferences were kept.
pub open spec fn stored_prefs(
    cache: PreferencesCache,
    snapshot: SettingsPreferencesSnapshot,
) -> PreferencesCache {
    PreferencesCache { last: Some((snapshot.scope, snapshot)), ..cache }
}

/// Keeps preferences as those that were read last.
pub fn store_prefs_snapshot(cache: &mut PreferencesCache, snapshot: &SettingsPreferencesSnapshot)
    ensures
        *final(cache) == stored_prefs(*old(cache), *snapshot),
{
    cache.last = Some((snapshot.scope.clone(), copy_snapshot(snapshot)));
}

/// What was stored for a tier is what is found for it, and for no other tier.
pub proof fn law_stored_prefs_are_found(snapshot: SettingsPreferencesSnapshot, scope: Seq<char>)
    ensures
        cached(Some((snapshot.scope, snapshot)), scope) == if scope == snapshot.scope@ {
            Some(snapshot)
        } else {
            None
        },
{
}

/// The tier whose preferences are shown: the one asked for, else the one that is
/// shown already, else the project's where a project is open.
pub open spec fn chosen_scope(
    requested: Option<Seq<char>>,
    shown: Seq<char>,
    project: bool,
) -> Seq<char> {
    if requested is Some && (requested->0 == "global"@ || requested->0 == "project"@) {
        requested->0
    } else if shown.len() > 0 {
        shown
    } else if project {
        "project"@
    } else {
        "global"@
    }
}

/// The tier whose preferences are shown.
pub fn preferences_scope(requested: Option<&str>, shown: &str, project: bool) -> (r: String)
    ensures
        r@ == chosen_scope(
            match requested {
                Some(scope) => Some(scope@),
                None => None,
            },
            shown@,
            project,
        ),
{
    if let Some(scope) = requested {
        if same(scope, "global") || same(scope, "project") {
            return scope.to_owned();
        }
    }
    if shown.unicode_len() > 0 {
        shown.to_owned()
    } else if project {
        "project".to_owned()
    } else {
        "global".to_owned()
    }
}

/// The preferences to show without reading any: those that were read last for
/// the tier, while it is not a second ago. Otherwise they are to be read.
pub fn cached_preferences(cache: &mut PreferencesCache, scope: &str, now: u64) -> (r: Option<
    SettingsPreferencesSnapshot,
>)
    ensures
        r == if due(old(cache).last_scan, now, 1000) {
            None
        } else {
            cached(old(cache).last, scope@)
        },
        final(cache).last == old(cache).last,
        final(cache).last_scan == if due(old(cache).last_scan, now, 1000) {
            Some(now)
        } else {
            old(cache).last_scan
        },
{
    if prefs_rescan_due(&mut cache.last_scan, now) {
        None
    } else {
        last_prefs_snapshot_if_scope(cache, scope)
    }
}

/// The preferences that are shown where those of a tier cannot be had.
#[derive(Debug, Clone, PartialEq)]
pub struct FallbackPreferences {
    pub defaults: PanelDefaults,
    pub default_agent_id: Option<String>,
    pub show_global_skills: Option<bool>,
}

/// The preferences of the panel that are shown: those of the tier, else those of
/// all tiers together.
pub open spec fn shown_defaults(
    scoped: Option<ScopedPanelPrefs>,
    fallback: FallbackPreferences,
) -> (PanelDefaults, Option<String>, bool) {
    match scoped {
        Some(prefs) => (prefs.defaults, prefs.default_agent_id, prefs.show_global_skills),
        None => (
            fallback.defaults,
            fallback.default_agent_id,
            match fallback.show_global_skills {
                Some(show) => show,
                None => true,
            },
        ),
    }
}

/// Whether `shown` is what is shown of the preferences of a tier.
pub open spec fn preferences_shown(
    scope: String,
    scoped: Option<ScopedPanelPrefs>,
    fallback: FallbackPreferences,
    background: Option<bool>,
    dev_mode: bool,
    shown: SettingsPreferencesSnapshot,
) -> bool {
    let (defaults, agent, show) = shown_defaults(scoped, fallback);
    &&& shown.scope == scope
    &&& shown.default_profile@ == text_or(optional_text(defaults.profile_name), Seq::empty())
    &&& shown.permission_profile@ == text_or(
        optional_text(defaults.permission_profile),
        Seq::empty(),
    )
    &&& shown.background_default == defaults.background_session
    &&& shown.default_agent_id@ == text_or(optional_text(agent), Seq::empty())
    &&& shown.dev_mode == dev_mode
    &&& shown.background_override_set == (background is Some)
    &&& shown.background_override == (background == Some(true))
    &&& shown.show_global_skills == show
}

/// The preferences of a tier, as they are shown. `background` is the setting of
/// the selected thread, where it has one of its own. What is shown is kept as
/// read last.
pub fn collect_settings_preferences_snapshot(
    cache: &mut PreferencesCache,
    scope: String,
    scoped: Option<ScopedPanelPrefs>,
    fallback: FallbackPreferences,
    background: Option<bool>,
    dev_mode: bool,
) -> (r: SettingsPreferencesSnapshot)
    ensures
        preferences_shown(scope, scoped, fallback, background, dev_mode, r),
        final(cache).last == Some((scope, r)),
        final(cache).last_scan == old(cache).last_scan,
{
    let (defaults, agent, show): (PanelDefaults, Option<String>, bool) = match scoped {
        Some(prefs) => (prefs.defaults, prefs.default_agent_id, prefs.show_global_skills),
        None => (
            fallback.defaults,
            fallback.default_agent_id,
            match fallback.show_global_skills {
                Some(show) => show,
                None => true,
            },
        ),
    };
    let snapshot: SettingsPreferencesSnapshot = SettingsPreferencesSnapshot {
        scope,
        default_profile: or_empty(&defaults.profile_name),
        permission_profile: or_empty(&defaults.permission_profile),
        background_default: defaults.background_session,
        default_agent_id: or_empty(&agent),
        dev_mode,
        background_override_set: background.is_some(),
        background_override: match background {
            Some(value) => value,
            None => false,
        },
        show_global_skills: show,
    };
    store_prefs_snapshot(cache, &snapshot);
    snapshot
}

/// The catalogs of the gateway: its profiles, servers of tools and agents, and
/// the sessions that can be taken up again.
#[derive(Debug, PartialEq)]
pub struct SettingsGatewaySnapshot {
    pub profiles: Vec<ProfileSummary>,
    pub mcp_servers: Vec<McpServerEntry>,
    pub agents: Vec<AgentCatalogEntry>,
    pub agents_fetched: bool,
    pub recoverable_sessions: Vec<RemoteThreadInfo>,
    pub recovery_provider: String,
}

/// Whether two servers of tools are the same.
pub open spec fn same_server(a: McpServerEntry, b: McpServerEntry) -> bool {
    a.name == b.name && a.definition@ == b.definition@ && a.tool_catalog == b.tool_catalog
}

fn copy_profiles(v: &Vec<ProfileSummary>) -> (r: Vec<ProfileSummary>)
    ensures
        r@ == v@,
{
    let mut out: Vec<ProfileSummary> = Vec::new();
    let mut i: usize = 0;
    while i < v.len()
        invariant
            i <= v@.len(),
            out@ == v@.take(i as int),
        decreases v@.len() - i,
    {
        let p: &ProfileSummary = &v[i];
        out.push(
            ProfileSummary {
                name: p.name.clone(),
                agent_id: p.agent_id.clone(),
                allow_terminal_access: p.allow_terminal_access,
                allow_fs_access: p.allow_fs_access,
            },
        );
        i += 1;
        assert(out@ =~= v@.take(i as int));
    }
    assert(out@ =~= v@);
    out
}

fn copy_agents(v: &Vec<AgentCatalogEntry>) -> (r: Vec<AgentCatalogEntry>)
    ensures
        r@ == v@,
{
    let mut out: Vec<AgentCatalogEntry> = Vec::new();
    let mut i: usize = 0;
    while i < v.len()
        invariant
            i <= v@.len(),
            out@ == v@.take(i as int),
        decreases v@.len() - i,
    {
        out.push(AgentCatalogEntry { id: v[i].id.clone(), enabled: v[i].enabled });
        i += 1;
        assert(out@ =~= v@.take(i as int));
    }
    assert(out@ =~= v@);
    out
}

fn copy_sessions(v: &Vec<RemoteThreadInfo>) -> (r: Vec<RemoteThreadInfo>)
    ensures
        r@ == v@,
{
    let mut out: Vec<RemoteThreadInfo> = Vec::new();
    let mut i: usize = 0;
    while i < v.len()
        invariant
            i <= v@.len(),
            out@ == v@.take(i as int),
        decreases v@.len() - i,
    {
        let s: &RemoteThreadInfo = &v[i];
        out.push(
            RemoteThreadInfo {
                acp_session_id: s.acp_session_id.clone(),
                agent_id: s.agent_id.clone(),
                title: clone_optional(&s.title),
                updated_at: clone_optional(&s.updated_at),
            },
        );
        i += 1;
        assert(out@ =~= v@.take(i as int));
    }
    assert(out@ =~= v@);
    out
}

fn copy_servers(v: &Vec<McpServerEntry>) -> (r: Vec<McpServerEntry>)
    ensures
        r@.len() == v@.len(),
        forall|k: int| 0 <= k < v@.len() ==> same_server(#[trigger] r@[k], v@[k]),
{
    let mut out: Vec<McpServerEntry> = Vec::new();
    let mut i: usize = 0;
    while i < v.len()
        invariant
            i <= v@.len(),
            out@.len() == i,
            forall|k: int| 0 <= k < i ==> same_server(#[trigger] out@[k], v@[k]),
        decreases v@.len() - i,
    {
        out.push(
            McpServerEntry {
                name: v[i].name.clone(),
                definition: v[i].definition.clone(),
                tool_catalog: v[i].tool_catalog,
            },
        );
        i += 1;
    }
    out
}

/// Whether a catalog is what the model has fetched.
pub open spec fn catalog_of_model(model: Model, r: SettingsGatewaySnapshot) -> bool {
    &&& r.profiles@ == model.available_profiles@
    &&& r.mcp_servers@.len() == model.available_mcp_servers@.len()
    &&& forall|k: int|
        0 <= k < r.mcp_servers@.len() ==> same_server(
            #[trigger] r.mcp_servers@[k],
            model.available_mcp_servers@[k],
        )
    &&& r.agents@ == model.agent_catalog@
    &&& r.agents_fetched == model.agent_catalog_fetched
    &&& r.recoverable_sessions@ == model.recoverable_sessions@
    &&& r.recovery_provider == model.recovery_provider
}

/// The catalogs that the model has, which are shown until newer ones come.
pub fn model_gateway_catalog_snapshot(model: &Model) -> (r: SettingsGatewaySnapshot)
    ensures
        catalog_of_model(*model, r),
{
    SettingsGatewaySnapshot {
        profiles: copy_profiles(&model.available_profiles),
        mcp_servers: copy_servers(&model.available_mcp_servers),
        agents: copy_agents(&model.agent_catalog),
        agents_fetched: model.agent_catalog_fetched,
        recoverable_sessions: copy_sessions(&model.recoverable_sessions),
        recovery_provider: model.recovery_provider.clone(),
    }
}

/// Whether `shown` is what is shown of the catalogs of the gateway: those that
/// the bridge has got, else the model's; without a bridge there are none.
pub open spec fn catalogs_shown(
    model: Model,
    bridge: bool,
    fetched: Option<SettingsGatewaySnapshot>,
    shown: SettingsGatewaySnapshot,
) -> bool {
    &&& !bridge ==> shown.profiles@.len() == 0 && shown.mcp_servers@.len() == 0
        && shown.agents@.len() == 0 && !shown.agents_fetched && shown.recoverable_sessions@.len()
        == 0 && shown.recovery_provider@.len() == 0
    &&& bridge && fetched is Some ==> shown == fetched->0
    &&& bridge && fetched is None ==> {
        &&& shown.profiles@ == model.available_profiles@
        &&& shown.mcp_servers@.len() == model.available_mcp_servers@.len()
        &&& forall|k: int|
            0 <= k < shown.mcp_servers@.len() ==> same_server(
                #[trigger] shown.mcp_servers@[k],
                model.available_mcp_servers@[k],
            )
        &&& shown.agents@ == model.agent_catalog@
        &&& shown.agents_fetched == model.agent_catalog_fetched
        &&& shown.recoverable_sessions@ == model.recoverable_sessions@
        &&& shown.recovery_provider == model.recovery_provider
    }
}

/// The catalogs that are shown: those that the bridge has got, else the model's;
/// without a bridge there are none.
pub fn collect_settings_gateway_snapshot(
    model: &Model,
    bridge: bool,
    fetched: Option<SettingsGatewaySnapshot>,
) -> (r: SettingsGatewaySnapshot)
    ensures
        catalogs_shown(*model, bridge, fetched, r),
{
    if !bridge {
        return SettingsGatewaySnapshot {
            profiles: Vec::new(),
            mcp_servers: Vec::new(),
            agents: Vec::new(),
            agents_fetched: false,
            recoverable_sessions: Vec::new(),
            recovery_provider: crate::text::empty_text(),
        };
    }
    match fetched {
        Some(catalog) => catalog,
        None => model_gateway_catalog_snapshot(model),
    }
}

} // verus!
