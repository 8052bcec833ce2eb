//! What is done for effects, said of the things that are done.

use crate::effect::{Effect, EffectError, EffectResultMsg};
use crate::effect_executor::{carried_out, only, planned, refreshes, slot_with_id, Action};
use crate::effect_executor::gateway_ops::{
    done_text, failed_text, profile_json, tells_builtin, tells_outcome, tells_signing_in, GatewayOp,
    ToolField,
};
use crate::effect_executor::outcomes::{
    after_creating, after_deleting, after_promoting, after_writing, clipboard_next, enabled_ids,
    failure_text, first_option, input_sent, probe_told, rows_before, settled, skill_project,
    switched, tells_failure, tells_launch, tells_opening, tells_read, tells_sync_failure,
    ClipboardStep, FollowUp, PermissionOption, SkillSync, StateFailure, WaitingEdit,
};
use crate::json::{field, lemma_fields_are, str_field, Json};
use crate::model::{
    first_bound, gateway_index, terminal_size, thread_from, AgentCatalogEntry, BridgeThread,
    McpServerEntry, PanelState, ProjectIdentity, SettingsSaveInput, SkillScope, ThreadModel,
    ThreadRecord,
};
use crate::paths::{joined, named_by, parent_of};
use crate::text::{
    blank, debug_shown, decimal, holds, lossy_shown, optional_text, stands_at, trimmed,
};
use vstd::prelude::*;

verus! {

/// Whether the selected row stands for a thread of the bridge.
pub open spec fn selects(panel: PanelState, at: usize) -> bool {
    let rows = panel.model.visible_indices@;
    &&& panel.bridge is Some
    &&& panel.model.selected_thread < rows.len()
    &&& rows[panel.model.selected_thread as int] == at
}

/// Whether there is no bridge, or no row is selected that the list has.
pub open spec fn selects_none(panel: PanelState) -> bool {
    panel.bridge is None || panel.model.selected_thread >= panel.model.visible_indices@.len()
}

/// Whether the one thing to be done is the given one.
pub open spec fn does(actions: Seq<Action>, action: Action) -> bool {
    actions.len() == 1 && actions[0] == action
}

/// Whether a thread is the first of the model with an id.
pub open spec fn is_first_with_id(threads: Seq<ThreadModel>, id: Seq<char>, at: int) -> bool {
    &&& 0 <= at < threads.len()
    &&& threads[at].thread_id@ == id
    &&& forall|k: int| 0 <= k < at ==> (#[trigger] threads[k]).thread_id@ != id
}

proof fn lemma_thread_found(threads: Seq<ThreadModel>, id: Seq<char>, from: int, at: int)
    requires
        is_first_with_id(threads, id, at),
        0 <= from <= at,
    ensures
        thread_from(threads, id, from) == Some(at),
    decreases at - from,
{
    if from < at {
        lemma_thread_found(threads, id, from + 1, at);
    }
}

proof fn lemma_thread_missing(threads: Seq<ThreadModel>, id: Seq<char>, from: int)
    requires
        0 <= from,
        forall|k: int| 0 <= k < threads.len() ==> (#[trigger] threads[k]).thread_id@ != id,
    ensures
        thread_from(threads, id, from) is None,
    decreases threads.len() - from,
{
    if from < threads.len() {
        lemma_thread_missing(threads, id, from + 1);
    }
}

/// A prompt goes, as it was given, to the thread that it names, and to no other.
/// Where the session of the thread could not be opened, the prompt fails with the
/// reason; a thread that is closed takes none.
pub proof fn law_prompt_goes_to_its_thread(
    panel: PanelState,
    threads: Vec<BridgeThread>,
    thread_id: String,
    text: String,
    at: int,
    actions: Seq<Action>,
)
    requires
        planned(panel, Effect::SendPrompt { thread_id, text }, actions),
        panel.bridge == Some(threads),
        is_first_with_id(panel.model.threads@, thread_id@, at),
    ensures
        at >= threads@.len() ==> does(actions, Action::Prompt { real_index: at as usize, text }),
        at < threads@.len() && threads@[at].attachment_error is None && !threads@[at].closed
            ==> does(actions, Action::Prompt { real_index: at as usize, text }),
        at < threads@.len() && threads@[at].attachment_error is None && threads@[at].closed
            ==> actions.len() == 0,
        at < threads@.len() ==> (threads@[at].attachment_error matches Some(error) ==> (
        actions.len() == 1 && (actions[0] matches Action::Report(
            EffectResultMsg::PromptSent { real_index, result },
        ) && real_index == at && result is Err && result->Err_0.message@
            == "session attachment failed: "@ + error@))),
{
    lemma_thread_found(panel.model.threads@, thread_id@, 0, at);
}

/// A prompt for a thread that the model does not know, or without a bridge, is
/// not sent.
pub proof fn law_prompt_needs_a_thread(
    panel: PanelState,
    thread_id: String,
    text: String,
    actions: Seq<Action>,
)
    requires
        planned(panel, Effect::SendPrompt { thread_id, text }, actions),
        panel.bridge is None || forall|k: int|
            0 <= k < panel.model.threads@.len() ==> (#[trigger] panel.model.threads@[k]).thread_id@
                != thread_id@,
    ensures
        actions.len() == 0,
{
    if panel.bridge is Some {
        lemma_thread_missing(panel.model.threads@, thread_id@, 0);
    }
}

/// What the user decides of a request goes to the selected thread as it was
/// decided: approval as approval, and an option as that option.
pub proof fn law_decision_goes_to_the_selected_thread(
    panel: PanelState,
    at: usize,
    of: usize,
    request_id: String,
    approve: bool,
    option: String,
    answered: Seq<Action>,
    chosen: Seq<Action>,
)
    requires
        planned(
            panel,
            Effect::RespondAgentRequest { real_index: of, request_id, approve },
            answered,
        ),
        planned(
            panel,
            Effect::PermissionOptionSelected { real_index: of, request_id, option },
            chosen,
        ),
    ensures
        selects(panel, at) ==> does(answered, Action::AnswerRequest { real_index: at, approve }),
        selects(panel, at) ==> does(chosen, Action::AnswerOption { real_index: at, option }),
        selects_none(panel) ==> answered.len() == 0 && chosen.len() == 0,
{
}

/// An option and a mode are set, as they were chosen, on the selected thread.
pub proof fn law_choice_goes_to_the_selected_thread(
    panel: PanelState,
    at: usize,
    of: usize,
    key: String,
    value: String,
    mode: String,
    option_set: Seq<Action>,
    mode_set: Seq<Action>,
)
    requires
        planned(panel, Effect::SetConfigOption { real_index: of, key, value }, option_set),
        planned(panel, Effect::SetMode { real_index: of, mode }, mode_set),
    ensures
        selects(panel, at) ==> does(
            option_set,
            Action::SetConfigOption { real_index: at, key, value },
        ),
        selects(panel, at) ==> does(mode_set, Action::SetMode { real_index: at, mode }),
        selects_none(panel) ==> option_set.len() == 0 && mode_set.len() == 0,
{
}

/// The panel's own terminal is opened for the selected thread where it has none,
/// and closed where it has one, in a size that fits the view; keys go to it as
/// they are.
pub proof fn law_local_terminal(
    panel: PanelState,
    threads: Vec<BridgeThread>,
    at: usize,
    bytes: Vec<u8>,
    spawned: Seq<Action>,
    killed: Seq<Action>,
    typed: Seq<Action>,
)
    requires
        planned(panel, Effect::LocalTerminalSpawn, spawned),
        planned(panel, Effect::LocalTerminalKill, killed),
        planned(panel, Effect::LocalTerminalWrite { bytes }, typed),
        panel.bridge == Some(threads),
        selects(panel, at),
    ensures
        at < threads@.len() && threads@[at as int].local_terminal ==> does(
            spawned,
            Action::CloseLocalTerminal { real_index: at },
        ),
        !(at < threads@.len() && threads@[at as int].local_terminal) ==> spawned.len() == 1 && (
        spawned[0] matches Action::OpenLocalTerminal { real_index, cols, rows } && real_index == at
            && 20 <= cols <= 240 && 8 <= rows <= 120 && (160 <= panel.width < 1928 ==> cols
            == panel.width / 8) && (144 <= panel.height < 2178 ==> rows == panel.height / 18)),
        does(killed, Action::CloseLocalTerminal { real_index: at }),
        typed.len() == 1 && (typed[0] matches Action::TypeInLocalTerminal { real_index, text }
            && real_index == at && text@ == lossy_shown(bytes@)),
{
}

/// A terminal in the view has a column for every 8 pixels of width and a row for
/// every 18 of height, but never fewer than 20 and 8, nor more than 240 and 120.
pub proof fn law_terminal_fits_the_view(width: int, height: int)
    requires
        width >= 0,
        height >= 0,
    ensures
        ({
            let (cols, rows) = terminal_size(width, height);
            &&& 20 <= cols <= 240 && 8 <= rows <= 120
            &&& 20 * 8 <= width < 241 * 8 ==> cols * 8 <= width < (cols + 1) * 8
            &&& 8 * 18 <= height < 121 * 18 ==> rows * 18 <= height < (rows + 1) * 18
            &&& width < 20 * 8 ==> cols == 20
            &&& width >= 240 * 8 ==> cols == 240
            &&& height < 8 * 18 ==> rows == 8
            &&& height >= 120 * 18 ==> rows == 120
        }),
{
}

/// What names a thread of the bridge goes to that thread.
pub proof fn law_named_thread_is_meant(
    panel: PanelState,
    at: usize,
    terminal_id: String,
    provider: String,
    profile_name: Option<String>,
    cancelled: Seq<Action>,
    killed: Seq<Action>,
    probed: Seq<Action>,
)
    requires
        planned(panel, Effect::CancelGeneration { real_index: at }, cancelled),
        planned(panel, Effect::KillAgentTerminal { real_index: at, terminal_id }, killed),
        planned(panel, Effect::ProbeProvider { real_index: at, provider, profile_name }, probed),
    ensures
        panel.bridge is Some ==> {
            &&& does(cancelled, Action::CancelPrompt { real_index: at })
            &&& does(killed, Action::KillTerminal { real_index: at, terminal_id })
            &&& does(probed, Action::ProbeProvider { real_index: at, provider, profile_name })
        },
        panel.bridge is None ==> cancelled.len() == 0 && killed.len() == 0 && probed.len() == 0,
{
}

/// Older messages are loaded of the thread that is displayed.
pub proof fn law_older_messages_of_the_displayed_thread(
    panel: PanelState,
    of: usize,
    actions: Seq<Action>,
)
    requires
        planned(panel, Effect::LoadOlderMessages { real_index: of }, actions),
    ensures
        panel.bridge is Some ==> (panel.model.displayed_thread matches Some(at) ==> does(
            actions,
            Action::LoadOlderPage { real_index: at },
        )),
        panel.bridge is None || panel.model.displayed_thread is None ==> actions.len() == 0,
{
}

/// A thread is closed, and deleted, by its place and the id under which it is
/// kept; whether its session goes on in the background is asked only of one that
/// is kept.
pub proof fn law_thread_is_closed_and_deleted(
    panel: PanelState,
    threads: Vec<BridgeThread>,
    at: usize,
    closed: Seq<Action>,
    deleted: Seq<Action>,
)
    requires
        planned(panel, Effect::CloseThread { real_index: at }, closed),
        planned(panel, Effect::DeleteThread { real_index: at }, deleted),
        panel.bridge == Some(threads),
        at < threads@.len(),
    ensures
        threads@[at as int].binding matches Some(binding) ==> {
            &&& does(
                closed,
                Action::CloseThread {
                    real_index: at,
                    thread_id: Some(binding.thread_id),
                    ask_background: panel.store,
                },
            )
            &&& deleted.len() == 1 && (deleted[0] matches Action::DeleteThread {
                real_index,
                thread_id,
            } && real_index == at && thread_id@ == binding.thread_id@)
        },
        threads@[at as int].binding is None ==> {
            &&& does(
                closed,
                Action::CloseThread { real_index: at, thread_id: None, ask_background: false },
            )
            &&& deleted.len() == 1 && (deleted[0] matches Action::DeleteThread {
                real_index,
                thread_id,
            } && real_index == at && thread_id@.len() == 0)
        },
{
}

/// Whether a thread of the bridge goes by an id: its own, or that of its session.
pub open spec fn goes_by(thread: BridgeThread, id: Seq<char>) -> bool {
    (thread.thread_id matches Some(own) && own@ == id) || (thread.binding matches Some(binding)
        && binding.thread_id@ == id)
}

proof fn lemma_slot_found(threads: Seq<BridgeThread>, id: Seq<char>, from: int)
    requires
        0 <= from <= threads.len(),
    ensures
        slot_with_id(threads, id, from) matches Some(at) ==> from <= at < threads.len() && goes_by(
            threads[at],
            id,
        ) && forall|k: int| from <= k < at ==> !goes_by(#[trigger] threads[k], id),
        slot_with_id(threads, id, from) is None ==> forall|k: int|
            from <= k < threads.len() ==> !goes_by(#[trigger] threads[k], id),
    decreases threads.len() - from,
{
    if from < threads.len() {
        lemma_slot_found(threads, id, from + 1);
    }
}

/// The first thread that goes by the id is archived, or taken back, as was asked;
/// where none does, nothing is done.
pub proof fn law_thread_is_archived(
    panel: PanelState,
    threads: Vec<BridgeThread>,
    thread_id: String,
    archived: bool,
    actions: Seq<Action>,
)
    requires
        planned(panel, Effect::ArchiveThread { thread_id, archived }, actions),
        panel.bridge == Some(threads),
    ensures
        (exists|k: int| 0 <= k < threads@.len() && goes_by(#[trigger] threads@[k], thread_id@)) ==> (
        actions.len() == 1 && (actions[0] matches Action::ArchiveThread {
            real_index,
            thread_id: id,
            archived: wanted,
        } && real_index < threads@.len() && goes_by(threads@[real_index as int], thread_id@)
            && id == thread_id && wanted == archived && forall|k: int|
            0 <= k < real_index ==> !goes_by(#[trigger] threads@[k], thread_id@))),
        (forall|k: int| 0 <= k < threads@.len() ==> !goes_by(#[trigger] threads@[k], thread_id@))
            ==> actions.len() == 0,
{
    lemma_slot_found(threads@, thread_id@, 0);
    let found = slot_with_id(threads@, thread_id@, 0);
    assert(threads.len() == threads@.len());
    if found is Some {
        assert(goes_by(threads@[found->0], thread_id@));
    }
}

/// What is kept of a thread needs a store: the selection, a record as it was
/// given, a new name under the id of the thread, and the background setting of a
/// thread with a session.
pub proof fn law_keeping_needs_a_store(
    panel: PanelState,
    threads: Vec<BridgeThread>,
    at: usize,
    thread_id: String,
    name: String,
    record: ThreadRecord,
    selection: Seq<Action>,
    recorded: Seq<Action>,
    renamed: Seq<Action>,
    toggled: Seq<Action>,
)
    requires
        planned(panel, Effect::PersistSelectedThread { thread_id }, selection),
        planned(panel, Effect::PersistThreadRecord { record }, recorded),
        planned(panel, Effect::RenameThread { real_index: at, name }, renamed),
        planned(panel, Effect::ToggleBackground { real_index: at }, toggled),
        panel.bridge == Some(threads),
        at < threads@.len(),
        at < panel.model.threads@.len(),
    ensures
        panel.store ==> {
            &&& does(selection, Action::StoreSelectedThread { thread_id })
            &&& does(recorded, Action::SaveRecord { record })
            &&& does(
                renamed,
                Action::RenameRecord {
                    thread_id: panel.model.threads@[at as int].thread_id,
                    name,
                },
            )
            &&& threads@[at as int].binding matches Some(binding) ==> does(
                toggled,
                Action::ToggleBackground { thread_id: binding.thread_id },
            )
        },
        !panel.store ==> {
            &&& selection.len() == 0
            &&& does(recorded, Action::Report(EffectResultMsg::ThreadRecordPersisted(Ok(()))))
            &&& renamed.len() == 0
            &&& toggled.len() == 0
        },
        threads@[at as int].binding is None ==> toggled.len() == 0,
{
}

/// A thread with a session and a provider is kept by a record of its ids, its
/// name, its provider, its profiles and its project.
pub proof fn law_thread_is_recorded(
    panel: PanelState,
    threads: Vec<BridgeThread>,
    at: usize,
    actions: Seq<Action>,
)
    requires
        planned(panel, Effect::PersistThread { real_index: at }, actions),
        panel.bridge == Some(threads),
        panel.store,
        at < threads@.len(),
        at < panel.model.threads@.len(),
        threads@[at as int].binding is Some,
        threads@[at as int].provider is Some,
    ensures
        actions.len() == 1 && (actions[0] matches Action::SaveThread { real_index, record } && {
            let thread = panel.model.threads@[at as int];
            let slot = threads@[at as int];
            &&& real_index == at
            &&& record.thread_id == slot.binding->0.thread_id
            &&& record.session_id == slot.binding->0.session_id
            &&& record.provider == slot.provider->0
            &&& record.project_path == slot.project_path
            &&& record.display_name == thread.display_name
            &&& record.profile_name == thread.profile_name
            &&& record.permission_profile == thread.permission_profile
            &&& record.background_session is None
        }),
{
}

/// Whether an optional text is what was entered, without white space around it,
/// and nothing where only white space was.
pub open spec fn is_entered(kept: Option<String>, entered: Seq<char>) -> bool {
    &&& blank(entered) ==> kept is None
    &&& !blank(entered) ==> kept is Some && kept->0@ == trimmed(entered)
}

/// Settings are saved as they were entered, each under its own name.
pub proof fn law_settings_are_saved_as_entered(
    panel: PanelState,
    input: SettingsSaveInput,
    actions: Seq<Action>,
)
    requires
        planned(panel, Effect::SaveSettings { input }, actions),
    ensures
        actions.len() == 1 && (actions[0] matches Action::SaveSettings(save) && {
            &&& save.scope == input.scope
            &&& is_entered(save.defaults.profile_name, input.default_profile@)
            &&& is_entered(save.defaults.permission_profile, input.permission_profile@)
            &&& is_entered(save.default_agent_id, input.default_agent_id@)
            &&& save.defaults.background_session == input.background_default
            &&& save.defaults.selected_thread_id == input.selected_thread_id
            &&& save.show_global_skills == input.show_global_skills
            &&& input.background_override_set ==> save.background_override == Some(
                input.background_override,
            )
            &&& !input.background_override_set ==> save.background_override is None
        }),
{
    crate::text::lemma_blank_is_trimmed_empty(input.default_profile@);
    crate::text::lemma_blank_is_trimmed_empty(input.permission_profile@);
    crate::text::lemma_blank_is_trimmed_empty(input.default_agent_id@);
}

/// Whether something is asked of the gateway through a thread.
pub open spec fn asks(panel: PanelState, actions: Seq<Action>, op: GatewayOp) -> bool {
    does(actions, Action::Gateway { index: gateway_index(panel) as usize, op })
}

/// Servers are created, changed and removed as was asked.
pub proof fn law_servers_are_written(
    panel: PanelState,
    of: usize,
    entry: McpServerEntry,
    name: String,
    created: Seq<Action>,
    updated: Seq<Action>,
    deleted: Seq<Action>,
)
    requires
        planned(panel, Effect::McpServerCreate { real_index: of, entry }, created),
        planned(panel, Effect::McpServerUpdate { real_index: of, entry }, updated),
        planned(panel, Effect::McpServerDelete { real_index: of, name }, deleted),
        panel.component,
    ensures
        panel.bridge is Some ==> {
            &&& asks(panel, created, GatewayOp::CreateServer { entry })
            &&& asks(panel, updated, GatewayOp::UpdateServer { entry })
            &&& asks(panel, deleted, GatewayOp::DeleteServer { name })
        },
        panel.bridge is None ==> says_no_gateway(created) && says_no_gateway(updated)
            && says_no_gateway(deleted),
{
}

/// Whether it is told, and nothing else is done, that there is no gateway.
pub open spec fn says_no_gateway(actions: Seq<Action>) -> bool {
    actions.len() == 1 && (actions[0] matches Action::Report(
        EffectResultMsg::McpServerOperationCompleted(result),
    ) && result is Err && result->Err_0.message@ == "no gateway connection"@)
}

/// A server is switched on where it was asked to be on, and off where off; the
/// panel's own server is switched by the panel itself.
pub proof fn law_servers_are_switched(
    panel: PanelState,
    of: usize,
    name: String,
    enabled: bool,
    actions: Seq<Action>,
)
    requires
        planned(panel, Effect::McpServerEnabledChanged { real_index: of, name, enabled }, actions),
        panel.component,
    ensures
        name@ == "snapflow"@ ==> does(actions, Action::SetBuiltinServer { enabled }),
        name@ != "snapflow"@ && panel.bridge is Some ==> asks(
            panel,
            actions,
            GatewayOp::SetServerEnabled { name, enabled },
        ),
        name@ != "snapflow"@ && panel.bridge is None ==> says_no_gateway(actions),
{
}

/// Signing in, signing out and asking for tools are of the server that was named.
pub proof fn law_servers_are_asked(
    panel: PanelState,
    of: usize,
    name: String,
    signed_in: Seq<Action>,
    signed_out: Seq<Action>,
    fetched: Seq<Action>,
)
    requires
        planned(panel, Effect::McpServerAuthenticate { real_index: of, name }, signed_in),
        planned(panel, Effect::McpServerLogout { real_index: of, name }, signed_out),
        planned(
            panel,
            Effect::McpServerToolsFetchRequested { real_index: of, server_name: name },
            fetched,
        ),
        panel.component,
        panel.bridge is Some,
    ensures
        asks(panel, signed_in, GatewayOp::Authenticate { name }),
        asks(panel, signed_out, GatewayOp::Logout { name }),
        asks(panel, fetched, GatewayOp::FetchTools { name }),
{
}

/// A tool is enabled, or deferred, as was asked, on the server that was named.
pub proof fn law_tools_are_switched(
    panel: PanelState,
    of: usize,
    server_name: String,
    tool_name: String,
    on: bool,
    enabled: Seq<Action>,
    deferred: Seq<Action>,
)
    requires
        planned(
            panel,
            Effect::McpServerToolEnabledChanged {
                real_index: of,
                server_name,
                tool_name,
                enabled: on,
            },
            enabled,
        ),
        planned(
            panel,
            Effect::McpServerToolDeferredChanged {
                real_index: of,
                server_name,
                tool_name,
                deferred: on,
            },
            deferred,
        ),
        panel.component,
        panel.bridge is Some,
    ensures
        asks(
            panel,
            enabled,
            GatewayOp::SetTool {
                server: server_name,
                tool: tool_name,
                field: ToolField::Enabled,
                value: on,
            },
        ),
        asks(
            panel,
            deferred,
            GatewayOp::SetTool {
                server: server_name,
                tool: tool_name,
                field: ToolField::Deferred,
                value: on,
            },
        ),
{
}

proof fn lemma_bound_found(panel: PanelState, from: int)
    requires
        0 <= from,
    ensures
        first_bound(panel, from) matches Some(at) ==> from <= at < panel.model.threads@.len()
            && has_session(panel, at) && forall|k: int|
            from <= k < at ==> !#[trigger] has_session(panel, k),
        first_bound(panel, from) is None ==> forall|k: int|
            from <= k < panel.model.threads@.len() ==> !#[trigger] has_session(panel, k),
    decreases panel.model.threads@.len() - from,
{
    if from < panel.model.threads@.len() {
        lemma_bound_found(panel, from + 1);
    }
}

/// Whether a thread of the bridge has a session.
pub open spec fn has_session(panel: PanelState, at: int) -> bool {
    panel.bridge matches Some(threads) && 0 <= at < threads@.len() && threads@[at].binding is Some
}

/// The gateway is asked through the selected thread where that has a session,
/// else through the first that has one; through the first where none has.
pub proof fn law_gateway_is_asked_through_a_session(panel: PanelState)
    ensures
        ({
            let rows = panel.model.visible_indices@;
            let row = panel.model.selected_thread as int;
            let at = gateway_index(panel);
            &&& row < rows.len() && has_session(panel, rows[row] as int) ==> at == rows[row]
            &&& !(row < rows.len() && has_session(panel, rows[row] as int)) ==> {
                &&& (exists|k: int|
                    0 <= k < panel.model.threads@.len() && #[trigger] has_session(panel, k)) ==> (
                0 <= at < panel.model.threads@.len() && has_session(panel, at) && forall|k: int|
                    0 <= k < at ==> !#[trigger] has_session(panel, k))
                &&& (forall|k: int|
                    0 <= k < panel.model.threads@.len() ==> !#[trigger] has_session(panel, k))
                    ==> at == 0
            }
        }),
{
    lemma_bound_found(panel, 0);
}

/// A profile is created with its name, what it allows, and its agent where one
/// was chosen; and is deleted by its name.
pub proof fn law_profiles_are_written(
    panel: PanelState,
    of: usize,
    name: String,
    agent_id: Option<String>,
    terminal_enabled: bool,
    fs_enabled: bool,
    created: Seq<Action>,
    deleted: Seq<Action>,
)
    requires
        planned(
            panel,
            Effect::ProfileCreate { real_index: of, name, agent_id, terminal_enabled, fs_enabled },
            created,
        ),
        planned(panel, Effect::ProfileDelete { real_index: of, name }, deleted),
        panel.component,
        panel.bridge is Some,
    ensures
        created.len() == 1 && (created[0] matches Action::Gateway { index, op } && index
            == gateway_index(panel) && (op matches GatewayOp::CreateProfile { name: called, entry }
            && called == name && {
            &&& str_field(entry@, "name"@) == Some(name@)
            &&& field(entry@, "allow_terminal_access"@) == Some(Json::Bool(terminal_enabled))
            &&& field(entry@, "allow_fs_access"@) == Some(Json::Bool(fs_enabled))
            &&& agent_id is Some && agent_id->0@.len() > 0 ==> str_field(entry@, "agent_id"@)
                == Some(agent_id->0@)
            &&& agent_id is None || agent_id->0@.len() == 0 ==> field(entry@, "agent_id"@) is None
        })),
        asks(panel, deleted, GatewayOp::DeleteProfile { name }),
{
    law_profile_definition(name@, optional_text(agent_id), terminal_enabled, fs_enabled);
}

/// The definition of a profile names it, says what it allows, and names its agent
/// only where one was chosen.
pub proof fn law_profile_definition(
    name: Seq<char>,
    agent_id: Option<Seq<char>>,
    terminal: bool,
    fs: bool,
)
    ensures
        ({
            let j = profile_json(name, agent_id, terminal, fs);
            &&& str_field(j, "name"@) == Some(name)
            &&& field(j, "allow_terminal_access"@) == Some(Json::Bool(terminal))
            &&& field(j, "allow_fs_access"@) == Some(Json::Bool(fs))
            &&& agent_id is Some && agent_id->0.len() > 0 ==> str_field(j, "agent_id"@) == agent_id
            &&& agent_id is None || agent_id->0.len() == 0 ==> field(j, "agent_id"@) is None
        }),
{
    reveal_strlit("name");
    reveal_strlit("allow_terminal_access");
    reveal_strlit("allow_fs_access");
    reveal_strlit("agent_id");
    assert("name"@.len() == 4 && "allow_terminal_access"@.len() == 21);
    assert("allow_fs_access"@.len() == 15 && "agent_id"@.len() == 8);
    let j = profile_json(name, agent_id, terminal, fs);
    let fields = j->Object_0;
    assert(fields[0].0 == "name"@);
    assert(fields[1].0 == "allow_terminal_access"@);
    assert(fields[2].0 == "allow_fs_access"@);
    lemma_fields_are(fields);
    if agent_id is Some && agent_id->0.len() > 0 {
        assert(fields[3].0 == "agent_id"@);
    } else if field(j, "agent_id"@) is Some {
        let i = choose|i: int| 0 <= i < fields.len() && (#[trigger] fields[i]).0 == "agent_id"@;
        assert(i == 0 || i == 1 || i == 2);
    }
}

/// An agent is installed by its id; one that is switched on or off is so for the
/// gateway and for the skills alike, the gateway first.
pub proof fn law_agents_are_switched(
    panel: PanelState,
    of: usize,
    agent_id: String,
    enabled: bool,
    installed: Seq<Action>,
    switched: Seq<Action>,
)
    requires
        planned(panel, Effect::AgentInstallRequested { real_index: of, agent_id }, installed),
        planned(panel, Effect::AgentSetEnabled { real_index: of, agent_id, enabled }, switched),
    ensures
        panel.component && panel.bridge is Some ==> does(
            installed,
            Action::InstallAgent { index: gateway_index(panel) as usize, agent_id },
        ),
        !(panel.component && panel.bridge is Some) ==> installed.len() == 0,
        switched.len() > 0 && switched.last() == (Action::SyncAgentSkills { agent_id, enabled }),
        panel.bridge is Some ==> switched.len() == 2 && switched[0] == (Action::SetAgentEnabled {
            agent_id,
            enabled,
        }),
        panel.bridge is None ==> switched.len() == 1,
{
}

/// A skill is written, with what was given, to its file in its directory; is
/// deleted and made one for all projects by its directory; and is opened in the
/// editor under the name of its directory.
pub proof fn law_skills_are_written(
    panel: PanelState,
    path: String,
    content: String,
    written: Seq<Action>,
    deleted: Seq<Action>,
    promoted: Seq<Action>,
    opened: Seq<Action>,
)
    requires
        planned(panel, Effect::SkillWrite { path, content }, written),
        planned(panel, Effect::SkillDelete { path }, deleted),
        planned(panel, Effect::SkillPromoteToGlobal { path }, promoted),
        planned(panel, Effect::OpenSkillEditor { path }, opened),
    ensures
        written.len() == 1 && (written[0] matches Action::WriteSkill {
            directory,
            file,
            content: given,
        } && directory == path && given == content && file@ == joined(path@, "SKILL.md"@)),
        does(deleted, Action::DeleteSkill { path }),
        does(promoted, Action::PromoteSkill { path }),
        opened.len() == 1 && (opened[0] matches Action::ReadSkill { path: of, name, file } && of
            == path && file@ == joined(path@, "SKILL.md"@) && (named_by(path@) matches Some(n)
            ==> name@ == n) && (named_by(path@) is None ==> name@.len() == 0)),
{
}

/// A skill is created where it was asked to be: for all projects, or for the open
/// one. A place that is neither is refused by its name.
pub proof fn law_skill_is_created_where_asked(
    panel: PanelState,
    name: String,
    scope: String,
    project: Option<String>,
    actions: Seq<Action>,
)
    requires
        planned(
            panel,
            Effect::CreateSkill { name, scope, active_project_path: project },
            actions,
        ),
    ensures
        scope@ == "global"@ ==> does(
            actions,
            Action::CreateSkill { name, scope: SkillScope::Global, active_project_path: project },
        ),
        scope@ == "project"@ ==> does(
            actions,
            Action::CreateSkill { name, scope: SkillScope::Project, active_project_path: project },
        ),
        scope@ != "global"@ && scope@ != "project"@ ==> actions.len() == 2 && actions[0]
            == Action::RefreshSkills && (actions[1] matches Action::Report(
            EffectResultMsg::SkillCreated(result),
        ) && result is Err && result->Err_0.message@ == "invalid skill scope "@ + debug_shown(
            scope@,
        )),
{
    reveal_strlit("global");
    reveal_strlit("project");
    assert("global"@.len() == 6 && "project"@.len() == 7);
}

/// A file is opened in the editor that was named, by the editor's program; an
/// editor that is not known is refused by its name. What the system opens, and
/// what goes to the clipboard, is as it was given.
pub proof fn law_files_are_opened(
    panel: PanelState,
    editor_name: String,
    path: String,
    text: String,
    opened: Seq<Action>,
    by_system: Seq<Action>,
    copied: Seq<Action>,
)
    requires
        planned(panel, Effect::OpenInEditor { editor_name, path }, opened),
        planned(panel, Effect::OpenWithOsDefault { path }, by_system),
        planned(panel, Effect::ClipboardWrite { text }, copied),
    ensures
        editor_name@ == "VS Code"@ ==> opened.len() == 1 && (opened[0] matches Action::LaunchEditor {
            bin,
            path: of,
        } && bin@ == "code"@ && of == path),
        editor_name@ == "Sublime Text"@ ==> opened.len() == 1 && (
        opened[0] matches Action::LaunchEditor { bin, path: of } && bin@ == "subl"@ && of == path),
        editor_name@ != "VS Code"@ && editor_name@ != "Sublime Text"@ ==> opened.len() == 1 && (
        opened[0] matches Action::Report(EffectResultMsg::ExternalEditorOpened(result)) && result
            is Err && result->Err_0.message@ == "unknown editor "@ + debug_shown(editor_name@)),
        does(by_system, Action::OpenWithOsDefault { path }),
        does(copied, Action::WriteClipboard { text }),
{
    reveal_strlit("VS Code");
    reveal_strlit("Sublime Text");
    assert("VS Code"@.len() == 7 && "Sublime Text"@.len() == 12);
}

/// When another project is opened the bridge learns of it, the sessions of the
/// one before are released first, except where it only got another path, and the
/// agent for new threads is started, where there is one. The host's daemon is
/// told last, of the path that was given, and also without a bridge.
pub proof fn law_project_is_opened(panel: PanelState, path: Option<String>, actions: Seq<Action>)
    requires
        planned(panel, Effect::SetActiveProjectPath { path }, actions),
    ensures
        ({
            let told = Action::UpdateRegistration {
                project_path: path,
                reason: panel.model.project_lifecycle_reason,
                generation: panel.model.project_generation,
            };
            let saved_as = panel.model.project_lifecycle_reason@ == "saved_as"@;
            let learned = Action::SetActiveProject(panel.model.active_project);
            let started = Action::PrewarmAgent { agent_id: panel.model.default_agent_id };
            let starts = !blank(panel.model.default_agent_id@);
            &&& actions.len() > 0 && actions.last() == told
            &&& panel.bridge is None ==> actions.len() == 1
            &&& panel.bridge is Some ==> {
                &&& saved_as ==> actions[0] == learned && actions.len() == if starts {
                    3int
                } else {
                    2
                }
                &&& !saved_as ==> actions[0] == Action::ReleaseProjectSessions && actions[1]
                    == learned && actions.len() == if starts {
                    4int
                } else {
                    3
                }
                &&& starts ==> actions[actions.len() - 2] == started
            }
        }),
{
}

/// A project that got another path is bound anew by the bridge, renamed in the
/// store and its own store moved, in this order, each where there is one.
pub proof fn law_project_is_renamed(
    panel: PanelState,
    old_path: String,
    new_path: String,
    old_identity: ProjectIdentity,
    actions: Seq<Action>,
)
    requires
        planned(
            panel,
            Effect::RenameProjectAssociation { old: old_path, new: new_path, old_identity },
            actions,
        ),
    ensures
        actions.len() > 0 && actions.last() == (Action::MoveProjectStore {
            old_identity,
            new: new_path,
        }),
        panel.bridge is Some ==> actions[0] == (Action::RebindProject {
            old: old_path,
            new: new_path,
        }),
        panel.store ==> actions.len() >= 2 && actions[actions.len() - 2]
            == (Action::RenameStoredProject { old: old_path, new: new_path }),
        actions.len() == 1 + (if panel.bridge is Some {
            1int
        } else {
            0
        }) + (if panel.store {
            1int
        } else {
            0
        }),
{
}

/// The developer's mode is kept as it was chosen, and brings its skill only where
/// it is switched on.
pub proof fn law_dev_mode_is_kept(panel: PanelState, enabled: bool, actions: Seq<Action>)
    requires
        planned(panel, Effect::SaveDevMode { enabled }, actions),
    ensures
        does(actions, Action::SaveDevMode { enabled, install_skill: enabled }),
{
}

/// What is done for one effect alone: its own actions, and then the surroundings
/// are read again, except after those two that change nothing that is shown.
pub proof fn law_one_effect(panel: PanelState, effect: Effect, actions: Seq<Action>)
    requires
        carried_out(panel, seq![effect], actions),
    ensures
        effect is LoadInitialState || effect is PersistSelectedThread ==> planned(
            panel,
            effect,
            actions,
        ),
        !(effect is LoadInitialState || effect is PersistSelectedThread) ==> actions.len() > 0
            && actions.last() == Action::PollFrame && planned(panel, effect, actions.drop_last()),
{
    let effects = seq![effect];
    let plans = choose|plans: Seq<Seq<Action>>|
        {
            &&& plans.len() == effects.len()
            &&& forall|k: int|
                0 <= k < effects.len() ==> planned(panel, effects[k], #[trigger] plans[k])
            &&& actions == #[trigger] plans.flatten() + only(
                if crate::effect_executor::any_refreshes(effects) {
                    Some(Action::PollFrame)
                } else {
                    None
                },
            )
        };
    assert(planned(panel, effects[0], plans[0]));
    plans.lemma_flatten_one_element();
    let plan = plans.first();
    assert(plans.flatten() == plan);
    if effect is LoadInitialState || effect is PersistSelectedThread {
        assert(!refreshes(effects[0]));
        assert(actions =~= plan);
    } else {
        assert(refreshes(effects[0]));
        assert(actions =~= plan.push(Action::PollFrame));
        assert(actions.drop_last() =~= plan);
    }
}

/// What the user is told of something that was asked of the gateway names what it
/// was asked about, and a failure ends with the gateway's own words.
pub proof fn law_gateway_outcome_names_its_subject(op: GatewayOp, error: Seq<char>)
    ensures
        error.is_suffix_of(failed_text(op, error)),
        holds(done_text(op), subject(op)),
        holds(failed_text(op, error), subject(op)),
{
    let name = subject(op);
    let failed = failed_text(op, error);
    assert(failed.skip(failed.len() - error.len()) =~= error);
    let quote = "\""@;
    lemma_done_names(op);
    lemma_failed_names(op, error);
}

/// What something that is asked of the gateway is about.
pub open spec fn subject(op: GatewayOp) -> Seq<char> {
    match op {
        GatewayOp::CreateServer { entry } => entry.name@,
        GatewayOp::UpdateServer { entry } => entry.name@,
        GatewayOp::DeleteServer { name } => name@,
        GatewayOp::SetServerEnabled { name, .. } => name@,
        GatewayOp::Authenticate { name } => name@,
        GatewayOp::Logout { name } => name@,
        GatewayOp::SetTool { tool, .. } => tool@,
        GatewayOp::FetchTools { name } => name@,
        GatewayOp::CreateProfile { name, .. } => name@,
        GatewayOp::DeleteProfile { name } => name@,
    }
}

proof fn lemma_holds_in(head: Seq<char>, name: Seq<char>, tail: Seq<char>)
    ensures
        holds(head + name + tail, name),
{
    let s = head + name + tail;
    let at = head.len() as int;
    assert(s.subrange(at, at + name.len()) =~= name);
    assert(stands_at(s, name, at));
}

proof fn lemma_done_names(op: GatewayOp)
    ensures
        holds(done_text(op), subject(op)),
{
    let name = subject(op);
    let q = "\""@;
    let text = done_text(op);
    let head = match op {
        GatewayOp::Authenticate { .. } => "Opened browser to connect "@,
        GatewayOp::Logout { .. } => "Disconnected "@,
        GatewayOp::SetTool { .. } => "Tool "@,
        GatewayOp::FetchTools { .. } => "Fetching tools for "@,
        GatewayOp::CreateProfile { .. } => "Profile "@,
        GatewayOp::DeleteProfile { .. } => "Profile "@,
        _ => "MCP server "@,
    };
    let at = (head + q).len() as int;
    assert(text.subrange(at, at + name.len()) =~= name);
    assert(stands_at(text, name, at));
}

proof fn lemma_failed_names(op: GatewayOp, error: Seq<char>)
    ensures
        holds(failed_text(op, error), subject(op)),
{
    let name = subject(op);
    let q = "\""@;
    let text = failed_text(op, error);
    let head = match op {
        GatewayOp::CreateServer { .. } => "Failed to create MCP server "@,
        GatewayOp::UpdateServer { .. } => "Failed to update MCP server "@,
        GatewayOp::DeleteServer { .. } => "Failed to remove MCP server "@,
        GatewayOp::SetServerEnabled { .. } => "Failed to update enabled state for MCP server "@,
        GatewayOp::Authenticate { .. } => "Failed to start OAuth flow for MCP server "@,
        GatewayOp::Logout { .. } => "Failed to disconnect MCP server "@,
        GatewayOp::SetTool { .. } => "Failed to update tool "@,
        GatewayOp::FetchTools { .. } => "Failed to fetch tools for MCP server "@,
        GatewayOp::CreateProfile { .. } => "Failed to create profile "@,
        GatewayOp::DeleteProfile { .. } => "Failed to delete profile "@,
    };
    let at = (head + q).len() as int;
    assert(text.subrange(at, at + name.len()) =~= name);
    assert(stands_at(text, name, at));
}

/// Whether an option allows, or rejects.
pub open spec fn is_kind(option: PermissionOption, approved: bool) -> bool {
    if approved {
        "allow_"@.is_prefix_of(option.kind@)
    } else {
        "reject_"@.is_prefix_of(option.kind@)
    }
}

/// A request is approved by the first of its options that allows, and rejected by
/// the first that rejects; never by one of the other kind.
pub proof fn law_request_is_answered_as_decided(options: Seq<PermissionOption>, approved: bool)
    ensures
        first_option(options, approved, 0) matches Some(id) ==> exists|k: int|
            0 <= k < options.len() && is_kind(#[trigger] options[k], approved) && options[k].id@
                == id && forall|j: int| 0 <= j < k ==> !is_kind(#[trigger] options[j], approved),
        first_option(options, approved, 0) is None ==> forall|k: int|
            0 <= k < options.len() ==> !is_kind(#[trigger] options[k], approved),
        forall|option: PermissionOption|
            !(#[trigger] is_kind(option, true) && is_kind(option, false)),
{
    lemma_option_found(options, approved, 0);
    assert forall|option: PermissionOption| !(#[trigger] is_kind(option, true) && is_kind(
        option,
        false,
    )) by {
        reveal_strlit("allow_");
        reveal_strlit("reject_");
        if is_kind(option, true) && is_kind(option, false) {
            assert("allow_"@[0] == option.kind@[0]);
            assert("reject_"@[0] == option.kind@[0]);
        }
    }
}

proof fn lemma_option_found(options: Seq<PermissionOption>, approved: bool, from: int)
    requires
        0 <= from <= options.len(),
    ensures
        first_option(options, approved, from) matches Some(id) ==> exists|k: int|
            from <= k < options.len() && is_kind(#[trigger] options[k], approved) && options[k].id@
                == id && forall|j: int| from <= j < k ==> !is_kind(#[trigger] options[j], approved),
        first_option(options, approved, from) is None ==> forall|k: int|
            from <= k < options.len() ==> !is_kind(#[trigger] options[k], approved),
    decreases options.len() - from,
{
    if from < options.len() {
        if is_kind(options[from], approved) {
            assert(options[from].id@ == first_option(options, approved, from)->0);
        } else {
            lemma_option_found(options, approved, from + 1);
        }
    }
}

/// Of two edits, what follows the earlier is never done once the later came; what
/// follows one is not done before its wait is over.
pub proof fn law_only_the_last_edit_counts(generation: u64, waiting: WaitingEdit, now: u64)
    ensures
        generation != waiting.edit ==> !settled(generation, waiting, now),
        now < waiting.due ==> !settled(generation, waiting, now),
        generation == waiting.edit && now >= waiting.due ==> settled(generation, waiting, now),
{
}

/// A new skill belongs to the directory of the project's file only where it was
/// created for that project.
pub proof fn law_skill_belongs_to_its_project(project: Option<Seq<char>>)
    ensures
        skill_project(SkillScope::Global, project) is None,
        project matches Some(file) ==> skill_project(SkillScope::Project, project) == parent_of(
            file,
        ),
        project is None ==> skill_project(SkillScope::Project, project) is None,
{
}

/// What the user is told of a failure ends with its reason.
pub proof fn law_failures_give_their_reason(error: String)
    ensures
        error@.is_suffix_of(failure_text(StateFailure::SelectedThread { error })),
        error@.is_suffix_of(failure_text(StateFailure::BackgroundOverride { error })),
        error@.is_suffix_of(failure_text(StateFailure::RenamedThread { error })),
        error@.is_suffix_of(failure_text(StateFailure::RuntimeDefaults { error })),
        error@.is_suffix_of(failure_text(StateFailure::DevMode { error })),
        error@.is_suffix_of(failure_text(StateFailure::BundledSkill { error })),
        error@.is_suffix_of(failure_text(StateFailure::BundledSkillAtStartup { error })),
        error@.is_suffix_of(failure_text(StateFailure::MigratedDefaults { error })),
{
    lemma_ends("failed to persist selected chat thread: "@, error@);
    lemma_ends("failed to toggle background-session override: "@, error@);
    lemma_ends("failed to persist renamed chat thread: "@, error@);
    lemma_ends("failed to synchronize runtime panel defaults: "@, error@);
    lemma_ends("failed to persist dev mode: "@, error@);
    lemma_ends("failed to install bundled global skill: "@, error@);
    lemma_ends("failed to install bundled global skill at startup: "@, error@);
    lemma_ends("failed to migrate panel defaults to JSON: "@, error@);
}

proof fn lemma_ends(head: Seq<char>, error: Seq<char>)
    ensures
        error.is_suffix_of(head + error),
{
    let s = head + error;
    assert(s.skip(s.len() - error.len()) =~= error);
}

/// What is told of something that was asked of the gateway is good news exactly
/// where the gateway did it.
pub proof fn law_outcome_is_told_as_it_was(
    op: GatewayOp,
    result: Result<(), String>,
    told: Result<String, EffectError>,
)
    requires
        tells_outcome(op, result, told),
    ensures
        told is Ok <==> result is Ok,
        told matches Ok(text) ==> holds(text@, subject(op)),
        told matches Err(error) ==> holds(error.message@, subject(op)) && (result matches Err(why)
            && why@.is_suffix_of(error.message@)),
{
    if let Err(why) = result {
        law_gateway_outcome_names_its_subject(op, why@);
    } else {
        lemma_done_names(op);
    }
}

/// Signing in is told as done only where the gateway gave a page and the browser
/// opened it; a failure ends with its reason.
pub proof fn law_signing_in_is_told(
    name: Seq<char>,
    opened: Result<Result<(), String>, String>,
    told: Result<String, EffectError>,
)
    requires
        tells_signing_in(name, opened, told),
    ensures
        told is Ok <==> opened is Ok && opened->Ok_0 is Ok,
        opened matches Err(why) ==> why@.is_suffix_of(told->Err_0.message@),
        opened matches Ok(Err(why)) ==> why@.is_suffix_of(told->Err_0.message@),
{
    match opened {
        Err(why) => {
            let text = told->Err_0.message@;
            assert(text.skip(text.len() - why@.len()) =~= why@);
        },
        Ok(Err(why)) => {
            let text = told->Err_0.message@;
            assert(text.skip(text.len() - why@.len()) =~= why@);
        },
        _ => {},
    }
}

/// Switching the panel's own server is told as it was: on or off, where it could
/// be kept.
pub proof fn law_builtin_switch_is_told(
    enabled: bool,
    kept: Result<(), String>,
    told: Result<String, EffectError>,
)
    requires
        tells_builtin(enabled, kept, told),
    ensures
        told is Ok <==> kept is Ok,
        kept is Ok && enabled ==> " enabled"@.is_suffix_of(told->Ok_0@),
        kept is Ok && !enabled ==> " disabled"@.is_suffix_of(told->Ok_0@),
        kept matches Err(why) ==> why@.is_suffix_of(told->Err_0.message@),
{
    match kept {
        Ok(()) => {
            let text = told->Ok_0@;
            let end = if enabled {
                " enabled"@
            } else {
                " disabled"@
            };
            assert(text.skip(text.len() - end.len()) =~= end);
        },
        Err(why) => {
            let text = told->Err_0.message@;
            assert(text.skip(text.len() - why@.len()) =~= why@);
        },
    }
}

/// A skill that was written is told as written and then brought to the agents;
/// one that could not be is told with the reason, and nothing more is done.
pub proof fn law_written_skill_is_brought(
    directory: String,
    result: Result<(), String>,
    follows: Seq<FollowUp>,
)
    requires
        after_writing(directory, result, follows),
    ensures
        follows.len() > 0 && (follows[0] matches FollowUp::Report(EffectResultMsg::SkillWritten(told))
            && (told is Ok <==> result is Ok) && (result matches Err(why) ==> told->Err_0.message
            == why)),
        result is Ok ==> follows.len() == 2 && follows[1] == (FollowUp::ResyncSkill { directory }),
        result is Err ==> follows.len() == 1,
{
}

/// After a skill was deleted, or could not be, this is told and the skills are
/// shown anew.
pub proof fn law_deleted_skill_is_told(result: Result<(), String>, follows: Seq<FollowUp>)
    requires
        after_deleting(result, follows),
    ensures
        follows.len() == 2,
        follows[0] matches FollowUp::Report(EffectResultMsg::SkillWritten(told)) && (told is Ok
            <==> result is Ok) && (result matches Err(why) ==> told->Err_0.message == why),
        follows[1] is RefreshSkills,
{
}

/// A skill that was created is shown, brought to the agents of its project or of
/// all, and told of, in this order.
pub proof fn law_created_skill_is_brought(
    result: Result<String, EffectError>,
    scope: SkillScope,
    project: Option<Seq<char>>,
    vendors: Vec<String>,
    follows: Seq<FollowUp>,
)
    requires
        after_creating(result, scope, project, vendors, follows),
    ensures
        follows.len() >= 2,
        follows[0] is RefreshSkills,
        follows.last() == FollowUp::Report(EffectResultMsg::SkillCreated(result)),
        result matches Ok(path) ==> follows.len() == 3 && (follows[1] matches FollowUp::RegisterSkill {
            path: of,
            project_root,
            vendor_ids,
        } && of@ == path@ && vendor_ids == vendors && (scope == SkillScope::Global ==> project_root
            is None) && (scope == SkillScope::Project && project is Some ==> optional_text(
            project_root,
        ) == parent_of(project->0))),
        result is Err ==> follows.len() == 2,
{
}

/// A skill that was made one for all projects is told of, shown, and brought to
/// the agents for all projects.
pub proof fn law_promoted_skill_is_brought(
    result: Result<String, String>,
    vendors: Vec<String>,
    follows: Seq<FollowUp>,
)
    requires
        after_promoting(result, vendors, follows),
    ensures
        follows.len() >= 2,
        follows[0] matches FollowUp::Report(EffectResultMsg::SkillPromoted(told)) && (told is Ok
            <==> result is Ok),
        follows[1] is RefreshSkills,
        result matches Ok(path) ==> follows.len() == 3 && (follows[2] matches FollowUp::RegisterSkill {
            path: of,
            project_root,
            vendor_ids,
        } && of@ == path@ && project_root is None && vendor_ids == vendors),
        result is Err ==> follows.len() == 2,
{
}

/// A skill is opened in the editor with what its file holds.
pub proof fn law_read_skill_is_opened(
    msg: EffectResultMsg,
    path: String,
    name: String,
    content: Result<String, String>,
    editors: Vec<String>,
)
    requires
        tells_read(msg, path, name, content, editors),
    ensures
        content matches Ok(text) ==> (msg matches EffectResultMsg::SkillEditorLoaded(Ok(state))
            && state.content == text && state.path == path && state.name == name
            && state.detected_editors == editors),
        content matches Err(why) ==> (msg matches EffectResultMsg::SkillEditorLoaded(Err(told))
            && told.message == why),
{
}

/// The agents that skills are brought to are those that are enabled, in the order
/// of the catalog.
pub proof fn law_enabled_agents_are_meant(
    agents: Seq<AgentCatalogEntry>,
    more: AgentCatalogEntry,
)
    ensures
        enabled_ids(Seq::empty()).len() == 0,
        more.enabled ==> enabled_ids(agents.push(more)) == enabled_ids(agents).push(more.id),
        !more.enabled ==> enabled_ids(agents.push(more)) == enabled_ids(agents),
{
    assert(agents.push(more).drop_last() =~= agents);
    assert(agents.push(more).last() == more);
}

/// A text is put on the clipboard by the first of three programs that takes it,
/// tried in turn; none is tried once one has taken it.
pub proof fn law_clipboard_programs_in_turn(tried: usize, wrote: bool, step: ClipboardStep)
    requires
        clipboard_next(tried, wrote, step),
    ensures
        tried > 0 && wrote ==> step is Written,
        tried == 0 ==> (step matches ClipboardStep::Try(helper) && helper.program@ == "wl-copy"@
            && helper.args@.len() == 0),
        tried == 1 && !wrote ==> (step matches ClipboardStep::Try(helper) && helper.program@
            == "xclip"@ && helper.args@.len() == 2),
        tried == 2 && !wrote ==> (step matches ClipboardStep::Try(helper) && helper.program@
            == "xsel"@ && helper.args@.len() == 2),
        tried > 2 && !wrote ==> step is Failed,
{
    if let ClipboardStep::Try(helper) = step {
        assert(crate::text::texts(helper.args@).len() == helper.args@.len());
    }
}

/// The rows that are put before those shown are as many as were added.
pub proof fn law_rows_are_added_before(before_len: int, added: int)
    requires
        0 <= added,
    ensures
        rows_before(before_len, before_len + added) == added,
        rows_before(before_len + added, before_len) == 0,
{
}

/// Switching twice leads back, and what is not known is switched on.
pub proof fn law_background_is_switched(on: bool)
    ensures
        switched(Some(on)) == !on,
        switched(None),
{
}

/// A probe that will report is not told of; one that will not is told as skipped.
pub proof fn law_skipped_probe_is_told(real_index: usize, provider: String)
    ensures
        probe_told(real_index, provider, true) is None,
        probe_told(real_index, provider, false) == Some(
            EffectResultMsg::ProviderProbeSkipped { real_index, provider },
        ),
{
}

/// What the user is told of a thread that could not be changed says what was
/// tried, and with which thread.
pub proof fn law_failed_changes_name_the_thread(real_index: usize, archived: bool)
    ensures
        "failed to close thread "@.is_prefix_of(
            failure_text(StateFailure::CloseThread { real_index }),
        ),
        decimal(real_index as nat).is_suffix_of(
            failure_text(StateFailure::CloseThread { real_index }),
        ),
        "failed to delete thread "@.is_prefix_of(
            failure_text(StateFailure::DeleteThread { real_index }),
        ),
        decimal(real_index as nat).is_suffix_of(
            failure_text(StateFailure::DeleteThread { real_index }),
        ),
        ("failed to set thread "@ + decimal(real_index as nat)).is_prefix_of(
            failure_text(StateFailure::ArchiveThread { real_index, archived }),
        ),
        archived ==> " archived=true"@.is_suffix_of(
            failure_text(StateFailure::ArchiveThread { real_index, archived }),
        ),
        !archived ==> " archived=false"@.is_suffix_of(
            failure_text(StateFailure::ArchiveThread { real_index, archived }),
        ),
{
    let n = decimal(real_index as nat);
    lemma_ends("failed to close thread "@, n);
    lemma_starts("failed to close thread "@, n);
    lemma_ends("failed to delete thread "@, n);
    lemma_starts("failed to delete thread "@, n);
    let end = if archived {
        " archived=true"@
    } else {
        " archived=false"@
    };
    lemma_starts("failed to set thread "@ + n, end);
    lemma_ends("failed to set thread "@ + n, end);
}

proof fn lemma_starts(head: Seq<char>, rest: Seq<char>)
    ensures
        head.is_prefix_of(head + rest),
{
    assert((head + rest).take(head.len() as int) =~= head);
}

/// What the user is told of a failure starts with what was tried.
pub proof fn law_failures_say_what_was_tried(error: String)
    ensures
        "failed to persist selected chat thread: "@.is_prefix_of(
            failure_text(StateFailure::SelectedThread { error }),
        ),
        "failed to toggle background-session override: "@.is_prefix_of(
            failure_text(StateFailure::BackgroundOverride { error }),
        ),
        "failed to persist renamed chat thread: "@.is_prefix_of(
            failure_text(StateFailure::RenamedThread { error }),
        ),
        "failed to synchronize runtime panel defaults: "@.is_prefix_of(
            failure_text(StateFailure::RuntimeDefaults { error }),
        ),
        "failed to persist dev mode: "@.is_prefix_of(
            failure_text(StateFailure::DevMode { error }),
        ),
        "failed to install bundled global skill: "@.is_prefix_of(
            failure_text(StateFailure::BundledSkill { error }),
        ),
        "failed to install bundled global skill at startup: "@.is_prefix_of(
            failure_text(StateFailure::BundledSkillAtStartup { error }),
        ),
        "failed to migrate panel defaults to JSON: "@.is_prefix_of(
            failure_text(StateFailure::MigratedDefaults { error }),
        ),
{
    lemma_starts("failed to persist selected chat thread: "@, error@);
    lemma_starts("failed to toggle background-session override: "@, error@);
    lemma_starts("failed to persist renamed chat thread: "@, error@);
    lemma_starts("failed to synchronize runtime panel defaults: "@, error@);
    lemma_starts("failed to persist dev mode: "@, error@);
    lemma_starts("failed to install bundled global skill: "@, error@);
    lemma_starts("failed to install bundled global skill at startup: "@, error@);
    lemma_starts("failed to migrate panel defaults to JSON: "@, error@);
}

/// A failure is told of the thread that it is about.
pub proof fn law_failure_is_told_of_its_thread(
    msg: EffectResultMsg,
    thread: Seq<char>,
    error: String,
)
    requires
        tells_failure(msg, thread, StateFailure::RenamedThread { error }),
    ensures
        msg matches EffectResultMsg::StateEffectFailed { thread_id, message } && thread_id@ == thread
            && error@.is_suffix_of(message@),
{
    law_failures_give_their_reason(error);
}

/// What is told of an editor or a program that was opened is whether it was.
pub proof fn law_opening_is_told_as_it_was(
    launched: EffectResultMsg,
    opened: EffectResultMsg,
    result: Result<(), String>,
)
    requires
        tells_launch(launched, result),
        tells_opening(opened, result),
    ensures
        launched matches EffectResultMsg::ExternalEditorOpened(told) && (told is Ok <==> result
            is Ok) && (result matches Err(why) ==> told->Err_0.message == why),
        opened matches EffectResultMsg::OsDefaultOpened(told) && (told is Ok <==> result is Ok) && (
        result matches Err(why) ==> told->Err_0.message == why),
{
}

/// A skill that could not be brought to the agents is told of with what was done
/// and why it failed.
pub proof fn law_failed_sync_is_told(msg: EffectResultMsg, sync: SkillSync, why: String)
    requires
        tells_sync_failure(msg, sync, why),
    ensures
        msg matches EffectResultMsg::SkillReactiveSyncFailed { operation, detail } && detail == why
            && (sync is Create ==> operation@ == "create"@) && (sync is Edit ==> operation@
            == "edit"@) && (sync is Promote ==> operation@ == "promote"@) && (sync is AgentEnable
            ==> operation@ == "agent-enable"@) && (sync is AgentDisable ==> operation@
            == "agent-disable"@),
{
}

/// What is typed is sent to the terminal as it is; nothing is not sent.
pub proof fn law_input_is_sent_whole(bytes: Vec<u8>)
    ensures
        bytes@.len() > 0 ==> input_sent(bytes) == Some(bytes),
        bytes@.len() == 0 ==> input_sent(bytes) is None,
{
}

/// What is told of a server, a tool or a profile says what was done to it.
pub proof fn law_outcome_says_what_was_done(op: GatewayOp)
    ensures
        op is CreateServer ==> " created"@.is_suffix_of(done_text(op)),
        op is UpdateServer ==> " updated"@.is_suffix_of(done_text(op)),
        op is DeleteServer ==> " removed"@.is_suffix_of(done_text(op)),
        op matches GatewayOp::SetServerEnabled { enabled, .. } ==> (enabled ==> " enabled"@.is_suffix_of(
            done_text(op),
        )) && (!enabled ==> " disabled"@.is_suffix_of(done_text(op))),
        op is Authenticate ==> "Opened browser to connect "@.is_prefix_of(done_text(op)),
        op is Logout ==> "Disconnected "@.is_prefix_of(done_text(op)),
        op is FetchTools ==> "Fetching tools for "@.is_prefix_of(done_text(op)),
        op is CreateProfile ==> " created"@.is_suffix_of(done_text(op)),
        op is DeleteProfile ==> " deleted"@.is_suffix_of(done_text(op)),
        op matches GatewayOp::SetTool { field, value, .. } ==> {
            &&& field == ToolField::Enabled && value ==> "enabled"@.is_suffix_of(done_text(op))
            &&& field == ToolField::Enabled && !value ==> "disabled"@.is_suffix_of(done_text(op))
            &&& field == ToolField::Deferred && value ==> "set to deferred"@.is_suffix_of(
                done_text(op),
            )
            &&& field == ToolField::Deferred && !value ==> "set to eager"@.is_suffix_of(
                done_text(op),
            )
        },
{
    let text = done_text(op);
    match op {
        GatewayOp::CreateServer { entry } => {
            lemma_ends("MCP server "@ + "\""@ + entry.name@ + "\""@, " created"@);
        },
        GatewayOp::UpdateServer { entry } => {
            lemma_ends("MCP server "@ + "\""@ + entry.name@ + "\""@, " updated"@);
        },
        GatewayOp::DeleteServer { name } => {
            lemma_ends("MCP server "@ + "\""@ + name@ + "\""@, " removed"@);
        },
        GatewayOp::SetServerEnabled { name, enabled } => {
            let end = if enabled {
                " enabled"@
            } else {
                " disabled"@
            };
            lemma_ends("MCP server "@ + "\""@ + name@ + "\""@, end);
        },
        GatewayOp::Authenticate { .. } => {
            let head = "Opened browser to connect "@;
            assert(text.take(head.len() as int) =~= head);
        },
        GatewayOp::Logout { .. } => {
            let head = "Disconnected "@;
            assert(text.take(head.len() as int) =~= head);
        },
        GatewayOp::FetchTools { .. } => {
            let head = "Fetching tools for "@;
            assert(text.take(head.len() as int) =~= head);
        },
        GatewayOp::CreateProfile { name, .. } => {
            lemma_ends("Profile "@ + "\""@ + name@ + "\""@, " created"@);
        },
        GatewayOp::DeleteProfile { name } => {
            lemma_ends("Profile "@ + "\""@ + name@ + "\""@, " deleted"@);
        },
        GatewayOp::SetTool { tool, field, value, .. } => {
            let end = crate::effect_executor::gateway_ops::tool_change(field, value);
            lemma_ends("Tool "@ + "\""@ + tool@ + "\""@ + " "@, end);
        },
    }
}

/// What is told of something that failed says what was tried.
pub proof fn law_failed_outcome_says_what_was_tried(op: GatewayOp, error: Seq<char>)
    ensures
        ({
            let text = failed_text(op, error);
            &&& op is CreateServer ==> "Failed to create MCP server "@.is_prefix_of(text)
            &&& op is UpdateServer ==> "Failed to update MCP server "@.is_prefix_of(text)
            &&& op is DeleteServer ==> "Failed to remove MCP server "@.is_prefix_of(text)
            &&& op is SetServerEnabled
                ==> "Failed to update enabled state for MCP server "@.is_prefix_of(text)
            &&& op is Authenticate ==> "Failed to start OAuth flow for MCP server "@.is_prefix_of(
                text,
            )
            &&& op is Logout ==> "Failed to disconnect MCP server "@.is_prefix_of(text)
            &&& op is SetTool ==> "Failed to update tool "@.is_prefix_of(text)
            &&& op is FetchTools ==> "Failed to fetch tools for MCP server "@.is_prefix_of(text)
            &&& op is CreateProfile ==> "Failed to create profile "@.is_prefix_of(text)
            &&& op is DeleteProfile ==> "Failed to delete profile "@.is_prefix_of(text)
        }),
{
    let text = failed_text(op, error);
    let head = match op {
        GatewayOp::CreateServer { .. } => "Failed to create MCP server "@,
        GatewayOp::UpdateServer { .. } => "Failed to update MCP server "@,
        GatewayOp::DeleteServer { .. } => "Failed to remove MCP server "@,
        GatewayOp::SetServerEnabled { .. } => "Failed to update enabled state for MCP server "@,
        GatewayOp::Authenticate { .. } => "Failed to start OAuth flow for MCP server "@,
        GatewayOp::Logout { .. } => "Failed to disconnect MCP server "@,
        GatewayOp::SetTool { .. } => "Failed to update tool "@,
        GatewayOp::FetchTools { .. } => "Failed to fetch tools for MCP server "@,
        GatewayOp::CreateProfile { .. } => "Failed to create profile "@,
        GatewayOp::DeleteProfile { .. } => "Failed to delete profile "@,
    };
    assert(text.take(head.len() as int) =~= head);
}

} // verus!
