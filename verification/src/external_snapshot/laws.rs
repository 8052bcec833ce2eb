//! What frames show, said of what is shown.

use crate::external_snapshot::{hydrated, new_record, new_records, record_of, starting};
use crate::external_snapshot::frame::{
    event_id, frame_planned, FramePlan, FrameSignals, FrameTimers,
};
use crate::external_snapshot::preferences::{
    catalog_of_model, catalogs_shown, chosen_scope, preferences_shown, stored_prefs,
    FallbackPreferences, PreferencesCache, SettingsGatewaySnapshot, SettingsPreferencesSnapshot,
};
use crate::external_snapshot::thread_list::{
    column_entry, columns_len, listed_row, placeholder_id, threads_listed, IndexedItem, ThreadFacts,
    ThreadListColumns, ThreadListSnapshot,
};
use crate::external_snapshot::thread_view::{
    agent_of_profile, buffer_of, chosen_provider, selected_of, thread_shown, BridgeFrame,
    TerminalSlot, TerminalView, ThreadFrameSnapshot,
};
use crate::gateway_actor::thread_actor::ProfileSummary;
use crate::model::{BridgeThread, Model, PanelState, ThreadModel, VisibleThreadItem};
use crate::paths::named_by;
use crate::prefs::ScopedPanelPrefs;
use crate::text::decimal;
use vstd::prelude::*;

verus! {

/// The thread of the bridge at a place.
pub open spec fn on_bridge(panel: PanelState, at: int) -> Option<BridgeThread> {
    match panel.bridge {
        Some(threads) => if 0 <= at < threads@.len() {
            Some(threads@[at])
        } else {
            None
        },
        None => None,
    }
}

/// What the bridge has of a thread is shown as it is: its messages in full, its
/// title, what the agent said of itself, and the terminal of the user. Of the
/// requests that wait, the oldest is shown.
pub proof fn law_thread_is_shown_as_it_is(
    panel: PanelState,
    index: usize,
    frame: BridgeFrame,
    shown: ThreadFrameSnapshot,
)
    requires
        thread_shown(panel, index, frame, shown),
    ensures
        shown.real_index == index,
        shown.transcript@ == frame.transcript@,
        shown.has_older_messages == frame.has_older_messages,
        frame.pending_requests@.len() == 0 ==> shown.pending_request is None,
        frame.pending_requests@.len() > 0 ==> shown.pending_request == Some(
            frame.pending_requests@.first(),
        ),
        shown.connection_status@ == frame.connection_status@,
        shown.session_modes == frame.session_modes,
        shown.config_options@ == frame.config_options@,
        shown.session_title == frame.session_title,
        shown.local_terminal == frame.local_terminal,
        shown.usage == frame.usage,
        shown.available_commands@ == frame.available_commands@,
        shown.plan@ == frame.plan@,
{
}

/// A thread is shown under the id of its session; before there is one, under its
/// own.
pub proof fn law_thread_is_shown_under_its_id(
    panel: PanelState,
    index: usize,
    frame: BridgeFrame,
    shown: ThreadFrameSnapshot,
)
    requires
        thread_shown(panel, index, frame, shown),
    ensures
        on_bridge(panel, index as int) matches Some(thread) ==> (thread.binding matches Some(
            binding,
        ) ==> shown.thread_id@ == binding.thread_id@),
        on_bridge(panel, index as int) is None || on_bridge(panel, index as int)->0.binding is None
            ==> {
            &&& index < panel.model.threads@.len() ==> shown.thread_id@
                == panel.model.threads@[index as int].thread_id@
            &&& index >= panel.model.threads@.len() ==> shown.thread_id@ == "thread:"@ + decimal(
                index as nat,
            )
        },
{
}

/// Whether a profile is the first that is registered under a name.
pub open spec fn is_first_profile(
    profiles: Seq<ProfileSummary>,
    name: Seq<char>,
    at: int,
) -> bool {
    &&& 0 <= at < profiles.len()
    &&& profiles[at].name@ == name
    &&& forall|k: int| 0 <= k < at ==> (#[trigger] profiles[k]).name@ != name
}

proof fn lemma_profile_found(profiles: Seq<ProfileSummary>, name: Seq<char>, from: int, at: int)
    requires
        is_first_profile(profiles, name, at),
        0 <= from <= at,
    ensures
        agent_of_profile(profiles, name, from) == Some(profiles[at].agent_id@),
    decreases at - from,
{
    if from < at {
        lemma_profile_found(profiles, name, from + 1, at);
    }
}

proof fn lemma_profile_missing(profiles: Seq<ProfileSummary>, name: Seq<char>, from: int)
    requires
        0 <= from,
        forall|k: int| 0 <= k < profiles.len() ==> (#[trigger] profiles[k]).name@ != name,
    ensures
        agent_of_profile(profiles, name, from) is None,
    decreases profiles.len() - from,
{
    if from < profiles.len() {
        lemma_profile_missing(profiles, name, from + 1);
    }
}

/// The provider of a thread is the agent of its profile where that is registered.
pub proof fn law_profile_decides_the_provider(
    panel: PanelState,
    index: int,
    name: String,
    at: int,
)
    requires
        0 <= index < panel.model.threads@.len(),
        panel.model.threads@[index].profile_name == Some(name),
        is_first_profile(panel.model.available_profiles@, name@, at),
    ensures
        chosen_provider(panel, index) == panel.model.available_profiles@[at].agent_id@,
{
    lemma_profile_found(panel.model.available_profiles@, name@, 0, at);
}

/// Without a registered profile, a thread's provider is its own, and where it has
/// none, the one that the bridge opened it with.
pub proof fn law_provider_without_profile(panel: PanelState, index: int)
    requires
        0 <= index < panel.model.threads@.len(),
        panel.model.threads@[index].profile_name matches Some(name) ==> forall|k: int|
            0 <= k < panel.model.available_profiles@.len() ==> (
            #[trigger] panel.model.available_profiles@[k]).name@ != name@,
    ensures
        ({
            let own = panel.model.threads@[index].provider@;
            let opened = on_bridge(panel, index);
            &&& own.len() > 0 ==> chosen_provider(panel, index) == own
            &&& own.len() == 0 ==> {
                &&& opened matches Some(thread) ==> (thread.provider matches Some(provider)
                    ==> chosen_provider(panel, index) == provider@)
                &&& opened is None || opened->0.provider is None ==> chosen_provider(
                    panel,
                    index,
                ).len() == 0
            }
        }),
{
    if let Some(name) = panel.model.threads@[index].profile_name {
        lemma_profile_missing(panel.model.available_profiles@, name@, 0);
    }
}

proof fn lemma_buffer(buffers: Seq<TerminalSlot>, id: Seq<char>, from: int)
    requires
        0 <= from <= buffers.len(),
    ensures
        buffer_of(buffers, id, from) matches Some(b) ==> exists|k: int|
            from <= k < buffers.len() && (#[trigger] buffers[k]).id@ == id && buffers[k].buffer
                == b && forall|j: int| from <= j < k ==> (#[trigger] buffers[j]).id@ != id,
        buffer_of(buffers, id, from) is None ==> forall|k: int|
            from <= k < buffers.len() ==> (#[trigger] buffers[k]).id@ != id,
    decreases buffers.len() - from,
{
    if from < buffers.len() {
        if buffers[from].id@ == id {
            assert(buffers[from].buffer == buffer_of(buffers, id, from)->0);
        } else {
            lemma_buffer(buffers, id, from + 1);
        }
    }
}

/// Whether a terminal is shown with what is buffered for it: the first buffer
/// under its id, and nothing where there is none.
pub open spec fn shows_buffer(buffers: Seq<TerminalSlot>, shown: TerminalView) -> bool {
    &&& shown.buffer matches Some(b) ==> exists|k: int|
        0 <= k < buffers.len() && (#[trigger] buffers[k]).id@ == shown.id@ && buffers[k].buffer
            == b && forall|j: int| 0 <= j < k ==> (#[trigger] buffers[j]).id@ != shown.id@
    &&& shown.buffer is None ==> forall|k: int|
        0 <= k < buffers.len() ==> (#[trigger] buffers[k]).id@ != shown.id@
}

/// The terminals that run, and the tabs that are open, are each shown in their
/// order with what is buffered for them. The terminal that is shown large is the
/// one that was chosen, as long as something is buffered for it.
pub proof fn law_terminals_are_shown(
    panel: PanelState,
    index: usize,
    frame: BridgeFrame,
    shown: ThreadFrameSnapshot,
)
    requires
        thread_shown(panel, index, frame, shown),
    ensures
        shown.terminals@.len() == frame.active_terminals@.len(),
        forall|k: int|
            0 <= k < shown.terminals@.len() ==> (#[trigger] shown.terminals@[k]).id
                == frame.active_terminals@[k] && shows_buffer(frame.buffers@, shown.terminals@[k]),
        shown.open_terminals@.len() == panel.model.open_terminal_ids@.len(),
        forall|k: int|
            0 <= k < shown.open_terminals@.len() ==> (#[trigger] shown.open_terminals@[k]).id
                == panel.model.open_terminal_ids@[k] && shows_buffer(
                frame.buffers@,
                shown.open_terminals@[k],
            ),
        shown.expanded_terminal matches Some(large) ==> panel.model.expanded_terminal_id == Some(
            large.id,
        ) && large.buffer is Some && shows_buffer(frame.buffers@, large),
        shown.expanded_terminal is None ==> (panel.model.expanded_terminal_id matches Some(id)
            ==> forall|k: int|
            0 <= k < frame.buffers@.len() ==> (#[trigger] frame.buffers@[k]).id@ != id@),
{
    assert forall|k: int| 0 <= k < shown.terminals@.len() implies (
    #[trigger] shown.terminals@[k]).id == frame.active_terminals@[k] && shows_buffer(
        frame.buffers@,
        shown.terminals@[k],
    ) by {
        lemma_buffer(frame.buffers@, frame.active_terminals@[k]@, 0);
    }
    assert forall|k: int| 0 <= k < shown.open_terminals@.len() implies (
    #[trigger] shown.open_terminals@[k]).id == panel.model.open_terminal_ids@[k] && shows_buffer(
        frame.buffers@,
        shown.open_terminals@[k],
    ) by {
        lemma_buffer(frame.buffers@, panel.model.open_terminal_ids@[k]@, 0);
    }
    if let Some(id) = panel.model.expanded_terminal_id {
        lemma_buffer(frame.buffers@, id@, 0);
    }
}

/// What the list says of a thread: its name, its state and whether it is unread
/// are its own, and whether it is closed or archived, its provider and its
/// project are what the bridge has of it.
pub proof fn law_columns_say_what_is_known(
    panel: PanelState,
    facts: Seq<ThreadFacts>,
    c: ThreadListColumns,
    i: int,
)
    requires
        0 <= i < panel.model.threads@.len(),
        column_entry(panel, facts, c, i),
    ensures
        ({
            let thread = panel.model.threads@[i];
            let slot = on_bridge(panel, i);
            &&& c.names@[i]@ == thread.display_name@
            &&& c.states@[i] == thread.state
            &&& c.unread@[i] == thread.unread
            &&& c.closed@[i] <==> slot is Some && slot->0.closed
            &&& c.archived@[i] <==> slot is Some && slot->0.archived
            &&& slot matches Some(s) ==> (s.provider matches Some(p) ==> c.providers@[i]@ == p@)
            &&& slot is None || slot->0.provider is None ==> c.providers@[i]@.len() == 0
            &&& slot matches Some(s) ==> (s.project_path matches Some(p) ==> c.project_paths@[i]@
                == p@)
            &&& slot is None || slot->0.project_path is None ==> c.project_paths@[i]@.len() == 0
        }),
{
}

/// A thread is listed under the id of its session, else under its own, else under
/// a number. It is described by its error where it has one, and else by its last
/// message. Its session stays open in the background only where it has one and
/// the store says so.
pub proof fn law_thread_is_described(
    panel: PanelState,
    facts: Seq<ThreadFacts>,
    c: ThreadListColumns,
    i: int,
)
    requires
        0 <= i < panel.model.threads@.len(),
        column_entry(panel, facts, c, i),
    ensures
        ({
            let thread = panel.model.threads@[i];
            let slot = on_bridge(panel, i);
            let bound = slot is Some && slot->0.binding is Some;
            let failed = thread.error is Some && thread.error->0@.len() > 0;
            let told = panel.bridge is Some && i < facts.len();
            &&& bound ==> c.thread_ids@[i]@ == slot->0.binding->0.thread_id@
            &&& !bound && thread.thread_id@.len() > 0 ==> c.thread_ids@[i]@ == thread.thread_id@
            &&& !bound && thread.thread_id@.len() == 0 ==> c.thread_ids@[i]@ == "thread:"@
                + decimal(i as nat)
            &&& failed ==> c.descriptions@[i]@ == "Error: "@ + thread.error->0@
            &&& !failed && told ==> c.descriptions@[i]@ == facts[i].description@
            &&& !failed && !told ==> c.descriptions@[i]@.len() == 0
            &&& told ==> c.thread_models@[i]@ == facts[i].model_name@
            &&& c.background_sessions@[i] <==> panel.store && bound && i < facts.len()
                && facts[i].background == Some(true)
        }),
{
}

/// The list has one row for each that the search leaves, in order, and each
/// stands for its thread under the thread's id.
pub proof fn law_list_has_a_row_for_each(
    panel: PanelState,
    columns: ThreadListColumns,
    items: Seq<IndexedItem>,
    live: Seq<bool>,
    detected: Seq<Option<bool>>,
    list: ThreadListSnapshot,
)
    requires
        threads_listed(panel, columns, items, live, detected, list),
    ensures
        list.rows@.len() == items.len(),
        list.visible_indices@.len() == items.len(),
        list.visible_thread_ids@.len() == items.len(),
        forall|k: int|
            0 <= k < items.len() ==> (#[trigger] list.rows@[k]).real_index == items[k].real_index
                && list.visible_indices@[k] == items[k].real_index && list.visible_thread_ids@[k]
                == list.rows@[k].thread_id && list.rows@[k].item.name == items[k].item.name,
        list.archived_flags@ == columns.archived@,
        list.active_project_path == panel.model.active_project_path,
{
    assert forall|k: int| 0 <= k < items.len() implies (#[trigger] list.rows@[k]).real_index
        == items[k].real_index && list.visible_indices@[k] == items[k].real_index
        && list.visible_thread_ids@[k] == list.rows@[k].thread_id && list.rows@[k].item.name
        == items[k].item.name by {
        assert(listed_row(panel, columns, live, detected, items[k], list.rows@[k]));
        assert(list.visible_thread_ids@[k] == list.rows@[k].thread_id);
    }
}

/// Whether the row of a thread says that its session is being opened: it is
/// neither closed nor in error nor put off, and the bridge has no session for it.
pub open spec fn is_starting(panel: PanelState, from: IndexedItem) -> bool {
    let slot = on_bridge(panel, from.real_index as int);
    &&& !from.item.closed
    &&& from.item.status@ != "error"@
    &&& !(slot is Some && slot->0.binding is Some)
    &&& !(slot is Some && slot->0.deferred)
}

/// A row is completed with what is known of its thread, and says that the thread
/// is loading exactly while its session is being opened; else it says what it
/// said.
pub proof fn law_row_is_completed(
    panel: PanelState,
    c: ThreadListColumns,
    live: Seq<bool>,
    detected: Seq<Option<bool>>,
    from: IndexedItem,
    out: VisibleThreadItem,
)
    requires
        listed_row(panel, c, live, detected, from, out),
        from.real_index < panel.model.threads@.len(),
        from.real_index < c.providers@.len(),
        from.real_index < c.thread_models@.len(),
        from.real_index < c.project_paths@.len(),
        from.real_index < c.thread_ids@.len(),
    ensures
        ({
            let i = from.real_index as int;
            let thread = panel.model.threads@[i];
            let slot = on_bridge(panel, i);
            &&& out.thread_id@ == c.thread_ids@[i]@
            &&& slot is Some && slot->0.binding is Some ==> (out.session_id matches Some(id) && id@
                == slot->0.binding->0.session_id@)
            &&& slot is None || slot->0.binding is None ==> out.session_id is None
            &&& out.item.provider@ == c.providers@[i]@
            &&& out.item.model@ == c.thread_models@[i]@
            &&& out.item.project_path@ == c.project_paths@[i]@
            &&& named_by(c.project_paths@[i]@) matches Some(name) ==> out.item.project_name@ == name
            &&& named_by(c.project_paths@[i]@) is None ==> out.item.project_name@.len() == 0
            &&& out.item.project_instance_live <==> i < live.len() && live[i]
            &&& thread.profile_name matches Some(p) ==> out.item.profile_name@ == p@
            &&& thread.profile_name is None ==> out.item.profile_name@.len() == 0
            &&& out.item.has_session <==> thread.session_id is Some
            &&& out.item.closed == from.item.closed && out.item.archived == from.item.archived
                && out.item.unread == from.item.unread && out.item.background_session
                == from.item.background_session
            &&& is_starting(panel, from) ==> out.item.status@ == "loading"@ && out.item.busy
            &&& is_starting(panel, from) && from.item.description@.len() == 0
                ==> out.item.description@ == "Starting new thread..."@
            &&& is_starting(panel, from) && from.item.description@.len() > 0
                ==> out.item.description@ == from.item.description@
            &&& !is_starting(panel, from) ==> out.item.status@ == from.item.status@
                && out.item.busy == from.item.busy && out.item.description@
                == from.item.description@
        }),
{
}

/// Whether a thread's agent is installed is told in the frame in which its
/// session appears, and in no other.
pub proof fn law_agent_is_told_when_attached(
    panel: PanelState,
    c: ThreadListColumns,
    live: Seq<bool>,
    detected: Seq<Option<bool>>,
    from: IndexedItem,
    out: VisibleThreadItem,
)
    requires
        listed_row(panel, c, live, detected, from, out),
        from.real_index < panel.model.threads@.len(),
        from.real_index < detected.len(),
    ensures
        ({
            let i = from.real_index as int;
            let slot = on_bridge(panel, i);
            let appears = slot is Some && slot->0.binding is Some
                && panel.model.threads@[i].session_id is None;
            &&& appears ==> out.agent_detected == detected[i]
            &&& !appears ==> out.agent_detected is None
        }),
{
}

/// A frame reads the settings where they are open or changed by another hand, the
/// catalogs where they are shown or missing, the skills at most once in a second
/// while the settings are open, and the host's projects at most once in three
/// seconds unless the host tells of them.
pub proof fn law_frame_reads_what_is_needed(
    panel: PanelState,
    signals: FrameSignals,
    before: FrameTimers,
    after: FrameTimers,
    plan: FramePlan,
)
    requires
        frame_planned(panel, signals, before, after, plan),
    ensures
        plan.bridge_events_pending <==> signals.event_threads@.len() > 0,
        plan.settings_reload_pending ==> signals.settings_changed,
        signals.settings_changed && signals.ignore_settings_until is None
            ==> plan.settings_reload_pending,
        signals.ignore_settings_until matches Some(until) ==> signals.now < until
            ==> !plan.settings_reload_pending,
        signals.ignore_settings_until matches Some(until) ==> signals.now >= until
            && signals.settings_changed ==> plan.settings_reload_pending,
        plan.collect_preferences <==> panel.model.settings_open || plan.settings_reload_pending,
        plan.collect_gateway_catalog <==> panel.model.settings_open
            || panel.model.available_profiles@.len() == 0 || panel.model.agent_catalog@.len() == 0,
        plan.collect_skills ==> panel.model.settings_open,
        panel.model.settings_open ==> (plan.collect_skills <==> before.skills is None
            || signals.now >= before.skills->0 + 1000),
        signals.projects_told ==> plan.daemon_projects_refresh_due,
        !signals.projects_told ==> (plan.daemon_projects_refresh_due <==> before.daemon_projects
            is None || signals.now >= before.daemon_projects->0 + 3000),
        plan.collect_skills ==> after.skills == Some(signals.now),
        !plan.collect_skills ==> after.skills == before.skills,
{
}

/// The events of a frame go, in order, under the ids of their threads: that of
/// the session, and before there is one the durable id.
pub proof fn law_events_go_under_their_threads(
    panel: PanelState,
    signals: FrameSignals,
    before: FrameTimers,
    after: FrameTimers,
    plan: FramePlan,
    k: int,
)
    requires
        frame_planned(panel, signals, before, after, plan),
        0 <= k < signals.event_threads@.len(),
    ensures
        plan.bridge_event_thread_ids@.len() == signals.event_threads@.len(),
        ({
            let slot = on_bridge(panel, signals.event_threads@[k] as int);
            let id = plan.bridge_event_thread_ids@[k]@;
            &&& slot is Some && slot->0.binding is Some ==> id == slot->0.binding->0.thread_id@
            &&& slot is Some && slot->0.binding is None && slot->0.thread_id is Some ==> id
                == slot->0.thread_id->0@
            &&& slot is None ==> id.len() == 0
        }),
{
    let ids = crate::text::texts(plan.bridge_event_thread_ids@);
    assert(ids.len() == plan.bridge_event_thread_ids@.len());
    assert(ids[k] == event_id(panel, signals.event_threads@[k] as int));
    assert(ids[k] == plan.bridge_event_thread_ids@[k]@);
}

/// The preferences of a tier are shown each under its own name; where the tier
/// cannot be had, those of all tiers together are, and skills for all projects
/// are shown unless it is said otherwise.
pub proof fn law_preferences_are_shown(
    scope: String,
    scoped: Option<ScopedPanelPrefs>,
    fallback: FallbackPreferences,
    background: Option<bool>,
    dev_mode: bool,
    shown: SettingsPreferencesSnapshot,
)
    requires
        preferences_shown(scope, scoped, fallback, background, dev_mode, shown),
    ensures
        ({
            let defaults = if scoped is Some {
                scoped->0.defaults
            } else {
                fallback.defaults
            };
            let agent = if scoped is Some {
                scoped->0.default_agent_id
            } else {
                fallback.default_agent_id
            };
            &&& shown.scope == scope
            &&& defaults.profile_name matches Some(p) ==> shown.default_profile@ == p@
            &&& defaults.profile_name is None ==> shown.default_profile@.len() == 0
            &&& defaults.permission_profile matches Some(p) ==> shown.permission_profile@ == p@
            &&& defaults.permission_profile is None ==> shown.permission_profile@.len() == 0
            &&& shown.background_default == defaults.background_session
            &&& agent matches Some(a) ==> shown.default_agent_id@ == a@
            &&& agent is None ==> shown.default_agent_id@.len() == 0
            &&& shown.dev_mode == dev_mode
            &&& shown.background_override_set <==> background is Some
            &&& background matches Some(on) ==> shown.background_override == on
            &&& scoped matches Some(prefs) ==> shown.show_global_skills
                == prefs.show_global_skills
            &&& scoped is None ==> (fallback.show_global_skills matches Some(show)
                ==> shown.show_global_skills == show)
            &&& scoped is None && fallback.show_global_skills is None ==> shown.show_global_skills
        }),
{
}

/// The tier that is shown is the one that was asked for, if it is one of the two;
/// else the one that is shown already; else that of the open project.
pub proof fn law_tier_that_is_shown(requested: Option<Seq<char>>, shown: Seq<char>, project: bool)
    ensures
        requested == Some("global"@) ==> chosen_scope(requested, shown, project) == "global"@,
        requested == Some("project"@) ==> chosen_scope(requested, shown, project) == "project"@,
        requested != Some("global"@) && requested != Some("project"@) ==> {
            &&& shown.len() > 0 ==> chosen_scope(requested, shown, project) == shown
            &&& shown.len() == 0 && project ==> chosen_scope(requested, shown, project)
                == "project"@
            &&& shown.len() == 0 && !project ==> chosen_scope(requested, shown, project)
                == "global"@
        },
{
}

/// The catalogs that were fetched are shown as they came, and until then those
/// that the model has; without a bridge none.
pub proof fn law_catalogs_are_shown(
    model: Model,
    bridge: bool,
    fetched: Option<SettingsGatewaySnapshot>,
    shown: SettingsGatewaySnapshot,
)
    requires
        catalogs_shown(model, bridge, fetched, shown),
    ensures
        bridge ==> (fetched matches Some(catalog) ==> shown == catalog),
        bridge && fetched is None ==> shown.profiles@ == model.available_profiles@
            && shown.agents@ == model.agent_catalog@ && shown.agents_fetched
            == model.agent_catalog_fetched && shown.recoverable_sessions@
            == model.recoverable_sessions@ && shown.recovery_provider@ == model.recovery_provider@
            && shown.mcp_servers@.len() == model.available_mcp_servers@.len(),
        bridge && fetched is None ==> forall|k: int|
            0 <= k < shown.mcp_servers@.len() ==> (#[trigger] shown.mcp_servers@[k]).name
                == model.available_mcp_servers@[k].name && shown.mcp_servers@[k].definition@
                == model.available_mcp_servers@[k].definition@
                && shown.mcp_servers@[k].tool_catalog
                == model.available_mcp_servers@[k].tool_catalog,
        !bridge ==> shown.profiles@.len() == 0 && shown.agents@.len() == 0
            && shown.mcp_servers@.len() == 0 && shown.recoverable_sessions@.len() == 0
            && !shown.agents_fetched,
{
}

/// A thread takes over the id and the session that the bridge has for it; without
/// an id there, it keeps its own.
pub proof fn law_bridge_gives_the_ids(thread: ThreadModel, slot: BridgeThread)
    ensures
        slot.thread_id matches Some(id) ==> hydrated(thread, Some(slot)).0 == id@,
        slot.thread_id is None ==> hydrated(thread, Some(slot)).0 == thread.thread_id@,
        slot.thread_id is Some ==> (slot.binding matches Some(binding) ==> hydrated(
            thread,
            Some(slot),
        ).1 == Some(binding.session_id@)),
        slot.thread_id is None || slot.binding is None ==> (thread.session_id matches Some(s)
            ==> hydrated(thread, Some(slot)).1 == Some(s@)),
        hydrated(thread, None).0 == thread.thread_id@,
        thread.session_id is None ==> hydrated(thread, None).1 is None,
{
}

/// What is kept of a thread is what the bridge has of its session and the model
/// of its name and profiles; nothing is kept without a session or a provider.
pub proof fn law_record_is_of_the_thread(panel: PanelState, index: int)
    requires
        0 <= index < panel.model.threads@.len(),
    ensures
        record_of(panel, index) is Some <==> on_bridge(panel, index) is Some && on_bridge(
            panel,
            index,
        )->0.binding is Some && on_bridge(panel, index)->0.provider is Some,
        record_of(panel, index) matches Some(r) ==> {
            let thread = panel.model.threads@[index];
            let slot = on_bridge(panel, index)->0;
            &&& r.thread_id@ == slot.binding->0.thread_id@
            &&& r.session_id@ == slot.binding->0.session_id@
            &&& r.provider@ == slot.provider->0@
            &&& r.project_path == slot.project_path
            &&& r.display_name@ == thread.display_name@
            &&& r.profile_name == thread.profile_name
            &&& r.permission_profile == thread.permission_profile
            &&& r.background_session is None
        },
{
}

/// Every thread that has a session and was not kept before is to be kept, once;
/// none that was kept before is.
pub proof fn law_new_sessions_are_kept(panel: PanelState, n: int, i: int)
    requires
        0 <= i < n,
    ensures
        record_of(panel, i) is Some && !(exists|k: int|
            0 <= k < panel.model.traced_attachment_threads@.len() && (
            #[trigger] panel.model.traced_attachment_threads@[k])@ == record_of(
                panel,
                i,
            )->0.thread_id@) ==> new_records(panel, n).contains(record_of(panel, i)->0),
        forall|j: int|
            0 <= j < new_records(panel, n).len() ==> !crate::external_snapshot::traced(
                panel.model.traced_attachment_threads@,
                (#[trigger] new_records(panel, n)[j]).thread_id@,
            ),
    decreases n,
{
    lemma_new_records(panel, n);
    if record_of(panel, i) is Some && new_record(panel, i) is Some {
        lemma_new_record_is_listed(panel, n, i);
    }
}

proof fn lemma_new_records(panel: PanelState, n: int)
    ensures
        forall|j: int|
            0 <= j < new_records(panel, n).len() ==> !crate::external_snapshot::traced(
                panel.model.traced_attachment_threads@,
                (#[trigger] new_records(panel, n)[j]).thread_id@,
            ),
    decreases n,
{
    if n > 0 {
        lemma_new_records(panel, n - 1);
    }
}

proof fn lemma_new_record_is_listed(panel: PanelState, n: int, i: int)
    requires
        0 <= i < n,
        new_record(panel, i) is Some,
    ensures
        new_records(panel, n).contains(new_record(panel, i)->0),
    decreases n,
{
    let before = new_records(panel, n - 1);
    if i == n - 1 {
        assert(new_records(panel, n)[before.len() as int] == new_record(panel, i)->0);
    } else {
        lemma_new_record_is_listed(panel, n - 1, i);
        let k = choose|k: int| 0 <= k < before.len() && before[k] == new_record(panel, i)->0;
        assert(new_records(panel, n)[k] == before[k]);
    }
}

/// A thread is shown as starting while it is open, has not failed, and has
/// neither a session nor a reason to wait for one.
pub proof fn law_only_unbound_threads_are_starting(
    closed: bool,
    status: Seq<char>,
    bound: bool,
    deferred: bool,
)
    ensures
        closed || bound || deferred || status == "error"@ ==> !starting(
            closed,
            status,
            bound,
            deferred,
        ),
        status != "error"@ ==> starting(false, status, false, false),
{
}

/// Threads without an id get one of their own, by their place.
pub proof fn law_places_give_ids(a: nat, b: nat)
    ensures
        "thread:"@.is_prefix_of(placeholder_id(a as int)),
        decimal(a).is_suffix_of(placeholder_id(a as int)),
        a != b ==> placeholder_id(a as int) != placeholder_id(b as int),
{
    let x = placeholder_id(a as int);
    let y = placeholder_id(b as int);
    let n = "thread:"@.len() as int;
    assert(x.take(n) =~= "thread:"@);
    assert(x.skip(n) =~= decimal(a));
    assert(y.skip(n) =~= decimal(b));
    assert(x.len() - decimal(a).len() == n);
    if x == y {
        crate::text::law_decimal_is_injective(a, b);
    }
}

/// Preferences that are kept are found with their scope; when the files were
/// looked at stays as it was.
pub proof fn law_preferences_are_kept(
    cache: PreferencesCache,
    snapshot: SettingsPreferencesSnapshot,
)
    ensures
        stored_prefs(cache, snapshot).last matches Some((scope, kept)) && scope == snapshot.scope
            && kept == snapshot,
        stored_prefs(cache, snapshot).last_scan == cache.last_scan,
{
}

/// What was fetched is shown, list by list.
pub proof fn law_fetched_catalog_is_shown(model: Model, r: SettingsGatewaySnapshot, k: int)
    requires
        catalog_of_model(model, r),
    ensures
        r.profiles@ == model.available_profiles@,
        r.agents@ == model.agent_catalog@,
        r.recoverable_sessions@ == model.recoverable_sessions@,
        r.agents_fetched == model.agent_catalog_fetched,
        r.recovery_provider == model.recovery_provider,
        r.mcp_servers@.len() == model.available_mcp_servers@.len(),
        0 <= k < r.mcp_servers@.len() ==> r.mcp_servers@[k].name
            == model.available_mcp_servers@[k].name && r.mcp_servers@[k].definition@
            == model.available_mcp_servers@[k].definition@ && r.mcp_servers@[k].tool_catalog
            == model.available_mcp_servers@[k].tool_catalog,
{
}

/// The thread that is selected is the one that its row shows; there is none
/// without a bridge, or without such a row.
pub proof fn law_selected_row_names_the_thread(panel: PanelState)
    ensures
        panel.bridge is None ==> selected_of(panel) is None,
        panel.bridge is Some && panel.model.selected_thread < panel.model.visible_indices@.len()
            ==> selected_of(panel) == Some(
            panel.model.visible_indices@[panel.model.selected_thread as int],
        ),
        panel.model.selected_thread >= panel.model.visible_indices@.len() ==> selected_of(panel)
            is None,
{
}

/// Every column has an entry for each thread.
pub proof fn law_columns_are_of_one_length(c: ThreadListColumns, n: int)
    requires
        columns_len(c, n),
    ensures
        c.names@.len() == n && c.states@.len() == n && c.thread_ids@.len() == n,
        c.descriptions@.len() == n && c.background_sessions@.len() == n && c.closed@.len() == n,
        c.archived@.len() == n && c.unread@.len() == n && c.providers@.len() == n,
        c.thread_models@.len() == n && c.project_paths@.len() == n,
{
}

/// When the projects were last looked for is kept as it was until three seconds
/// have passed, and is then the time of the frame.
pub proof fn law_projects_are_looked_for_in_turn(
    panel: PanelState,
    signals: FrameSignals,
    before: FrameTimers,
    after: FrameTimers,
    plan: FramePlan,
)
    requires
        frame_planned(panel, signals, before, after, plan),
    ensures
        before.daemon_projects matches Some(last) ==> signals.now < last + 3000
            ==> after.daemon_projects == before.daemon_projects,
        before.daemon_projects matches Some(last) ==> signals.now >= last + 3000
            ==> after.daemon_projects == Some(signals.now),
        before.daemon_projects is None ==> after.daemon_projects == Some(signals.now),
{
}

} // verus!
