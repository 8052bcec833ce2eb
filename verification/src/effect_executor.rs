//! What is done for the effects that folding a message asked for.
//!
//! [`execute_effects`] says, from what the panel knows, what is to be done for
//! each effect. What is done outside comes back through the functions of
//! [`outcomes`], which say what is told to the model and what follows.

pub mod gateway_ops;
pub mod laws;
pub mod outcomes;

use crate::editor_detect::{editor_bin_named, program_named};
use crate::effect::{Effect, EffectError, EffectResultMsg};
use crate::effect_executor::gateway_ops::{profile_definition, profile_json, GatewayOp, ToolField};
use crate::external_snapshot::{collect_thread_record, record_of};
use crate::model::{
    bound, gateway_index, has_terminal, real_index_of, slot, terminal_size, thread_from,
    BridgeThread, PanelState, ProjectIdentity, SkillScope, ThreadRecord,
};
use crate::paths::{file_name, join_path, joined, named_by};
use crate::prefs::{filled, settings_save, SettingsSave};
use crate::text::{
    blank, debug_shown, debug_text, empty_text, join, lemma_blank_is_trimmed_empty, lossy_shown,
    lossy_text, optional_text, or_empty, same, text_or, trim,
};
use vstd::prelude::*;

verus! {

/// Something that is done outside the model.
#[derive(Debug, PartialEq)]
pub enum Action {
    /// Shows the prompt in the thread and sends it.
    Prompt { real_index: usize, text: String },
    CancelPrompt { real_index: usize },
    /// Answers the request that waits, if any, as the user wants it.
    AnswerRequest { real_index: usize, approve: bool },
    /// Answers the request that waits, if any, with one of its options.
    AnswerOption { real_index: usize, option: String },
    LoadOlderPage { real_index: usize },
    OpenLocalTerminal { real_index: usize, cols: u16, rows: u16 },
    CloseLocalTerminal { real_index: usize },
    /// Types into the terminal what the keys of the text stand for.
    TypeInLocalTerminal { real_index: usize, text: String },
    KillTerminal { real_index: usize, terminal_id: String },
    SaveSettings(SettingsSave),
    SetConfigOption { real_index: usize, key: String, value: String },
    SetMode { real_index: usize, mode: String },
    /// Keeps the setting; with `install_skill`, installs the skill that comes
    /// with the panel.
    SaveDevMode { enabled: bool, install_skill: bool },
    /// Asks something of the gateway, through the thread with the index.
    Gateway { index: usize, op: GatewayOp },
    /// Switches the server of tools that is the panel's own.
    SetBuiltinServer { enabled: bool },
    InstallAgent { index: usize, agent_id: String },
    SetAgentEnabled { agent_id: String, enabled: bool },
    /// Brings the skills to an agent, or takes them away from it.
    SyncAgentSkills { agent_id: String, enabled: bool },
    WriteSkill { directory: String, file: String, content: String },
    CreateSkill { name: String, scope: SkillScope, active_project_path: Option<String> },
    PromoteSkill { path: String },
    DeleteSkill { path: String },
    /// Reads a skill for the editor.
    ReadSkill { path: String, name: String, file: String },
    LaunchEditor { bin: String, path: String },
    OpenWithOsDefault { path: String },
    WriteClipboard { text: String },
    /// Reads the skills again and shows them.
    RefreshSkills,
    ReleaseProjectSessions,
    SetActiveProject(ProjectIdentity),
    PrewarmAgent { agent_id: String },
    /// Tells the host's daemon of the project.
    UpdateRegistration { project_path: Option<String>, reason: String, generation: u64 },
    CloseThread { real_index: usize, thread_id: Option<String>, ask_background: bool },
    ArchiveThread { real_index: usize, thread_id: String, archived: bool },
    DeleteThread { real_index: usize, thread_id: String },
    StoreSelectedThread { thread_id: String },
    ToggleBackground { thread_id: String },
    SaveRecord { record: ThreadRecord },
    SaveThread { real_index: usize, record: ThreadRecord },
    RenameRecord { thread_id: String, name: String },
    ProbeProvider { real_index: usize, provider: String, profile_name: Option<String> },
    RebindProject { old: String, new: String },
    RenameStoredProject { old: String, new: String },
    MoveProjectStore { old_identity: ProjectIdentity, new: String },
    RefreshDaemonProjects,
    /// Tells the model of an outcome.
    Report(EffectResultMsg),
    /// Reads the surroundings again and shows them.
    PollFrame,
}

/// The thread that the selected row stands for, where there is a bridge.
pub open spec fn selected(panel: PanelState) -> Option<usize> {
    if panel.bridge is Some {
        real_index_of(panel.model, panel.model.selected_thread as int)
    } else {
        None
    }
}

/// Nothing to be done, or one thing.
pub open spec fn only<A>(o: Option<A>) -> Seq<A> {
    match o {
        Some(a) => seq![a],
        None => Seq::empty(),
    }
}

/// Whether the one thing to be done is to tell of a prompt that failed.
pub open spec fn prompt_refused(actions: Seq<Action>, index: int, error: Seq<char>) -> bool {
    actions.len() == 1 && match actions[0] {
        Action::Report(EffectResultMsg::PromptSent { real_index, result }) => real_index == index
            && result is Err && result->Err_0.message@ == "session attachment failed: "@ + error,
        _ => false,
    }
}

/// What is done for a prompt to a thread of the bridge: where its session could
/// not be opened, the reason is told; a closed thread takes none.
pub open spec fn prompt_planned(
    panel: PanelState,
    index: int,
    text: String,
    actions: Seq<Action>,
) -> bool {
    if panel.bridge is None {
        actions.len() == 0
    } else {
        match slot(panel, index) {
            Some(slot) => match slot.attachment_error {
                Some(error) => prompt_refused(actions, index, error@),
                None => actions == if slot.closed {
                    Seq::empty()
                } else {
                    seq![Action::Prompt { real_index: index as usize, text }]
                },
            },
            None => actions == seq![Action::Prompt { real_index: index as usize, text }],
        }
    }
}

/// Whether the one thing to be done is to tell that there is no gateway.
pub open spec fn no_gateway(actions: Seq<Action>) -> bool {
    actions.len() == 1 && match actions[0] {
        Action::Report(EffectResultMsg::McpServerOperationCompleted(Err(error))) => error.message@
            == "no gateway connection"@,
        _ => false,
    }
}

/// What is done for a request to the gateway about servers of tools.
pub open spec fn gateway_planned(panel: PanelState, op: GatewayOp, actions: Seq<Action>) -> bool {
    if !panel.component {
        actions.len() == 0
    } else if panel.bridge is None {
        no_gateway(actions)
    } else {
        actions == seq![Action::Gateway { index: gateway_index(panel) as usize, op }]
    }
}

/// What is done for a request to the gateway about profiles.
pub open spec fn profile_planned(panel: PanelState, op: GatewayOp) -> Seq<Action> {
    if panel.component && panel.bridge is Some {
        seq![Action::Gateway { index: gateway_index(panel) as usize, op }]
    } else {
        Seq::empty()
    }
}

/// Whether the thing to be done is to create a profile with a definition.
pub open spec fn creates_profile(
    actions: Seq<Action>,
    at: int,
    profile: String,
    json: crate::json::Json,
) -> bool {
    actions.len() == 1 && match actions[0] {
        Action::Gateway { index, op: GatewayOp::CreateProfile { name, entry } } => index == at
            && name == profile && entry@ == json,
        _ => false,
    }
}

/// Whether the one thing to be done is to tell that an editor is not known.
pub open spec fn editor_unknown(actions: Seq<Action>, name: Seq<char>) -> bool {
    actions.len() == 1 && match actions[0] {
        Action::Report(EffectResultMsg::ExternalEditorOpened(Err(error))) => error.message@
            == "unknown editor "@ + debug_shown(name),
        _ => false,
    }
}

/// Whether the skills are shown anew and it is told that a scope is not known.
pub open spec fn scope_unknown(actions: Seq<Action>, scope: Seq<char>) -> bool {
    actions.len() == 2 && actions[0] == Action::RefreshSkills && match actions[1] {
        Action::Report(EffectResultMsg::SkillCreated(Err(error))) => error.message@
            == "invalid skill scope "@ + debug_shown(scope),
        _ => false,
    }
}

/// The scope of skills with a name.
pub open spec fn scope_named(scope: Seq<char>) -> Option<SkillScope> {
    if scope == "global"@ {
        Some(SkillScope::Global)
    } else if scope == "project"@ {
        Some(SkillScope::Project)
    } else {
        None
    }
}

/// What is done when another project becomes the open one: the sessions of the
/// one before are released, except when it only got another path; the bridge
/// learns of the project; the agent that new threads use is started.
pub open spec fn project_planned(panel: PanelState, path: Option<String>) -> Seq<Action> {
    let model = panel.model;
    let told = seq![
        Action::UpdateRegistration {
            project_path: path,
            reason: model.project_lifecycle_reason,
            generation: model.project_generation,
        },
    ];
    if panel.bridge is None {
        told
    } else {
        only(
            if model.project_lifecycle_reason@ != "saved_as"@ {
                Some(Action::ReleaseProjectSessions)
            } else {
                None
            },
        ) + seq![Action::SetActiveProject(model.active_project)] + only(
            if blank(model.default_agent_id@) {
                None
            } else {
                Some(Action::PrewarmAgent { agent_id: model.default_agent_id })
            },
        ) + told
    }
}

/// The first thread of the bridge, from a position on, with a durable id.
pub open spec fn slot_with_id(threads: Seq<BridgeThread>, id: Seq<char>, from: int) -> Option<int>
    decreases threads.len() - from,
{
    if from < 0 || from >= threads.len() {
        None
    } else if optional_text(threads[from].thread_id) == Some(id) || (threads[from].binding is Some
        && threads[from].binding->0.thread_id@ == id) {
        Some(from)
    } else {
        slot_with_id(threads, id, from + 1)
    }
}

/// The durable id of a thread with a session, and the empty text of others.
pub open spec fn id_or_empty(panel: PanelState, index: int) -> Seq<char> {
    match bound(panel, index) {
        Some(binding) => binding.thread_id@,
        None => Seq::empty(),
    }
}

/// Whether a name is that of the panel's own server of tools.
pub open spec fn is_builtin(name: Seq<char>) -> bool {
    name == "snapflow"@
}

/// Whether `actions` is what is done for an effect.
pub open spec fn planned(panel: PanelState, effect: Effect, actions: Seq<Action>) -> bool {
    match effect {
        Effect::LoadInitialState => actions.len() == 0,
        Effect::NewThreadDeferred { .. } => actions.len() == 0,
        Effect::RecoverSessionAttach { .. } => actions.len() == 0,
        Effect::SendPrompt { thread_id, text } => match thread_from(
            panel.model.threads@,
            thread_id@,
            0,
        ) {
            Some(index) => prompt_planned(panel, index, text, actions),
            None => actions.len() == 0,
        },
        Effect::CancelGeneration { real_index } => actions == if panel.bridge is Some {
            seq![Action::CancelPrompt { real_index }]
        } else {
            Seq::empty()
        },
        Effect::RespondAgentRequest { approve, .. } => actions == match selected(panel) {
            Some(real_index) => seq![Action::AnswerRequest { real_index, approve }],
            None => Seq::empty(),
        },
        Effect::PermissionOptionSelected { option, .. } => actions == match selected(panel) {
            Some(real_index) => seq![Action::AnswerOption { real_index, option }],
            None => Seq::empty(),
        },
        Effect::LoadOlderMessages { .. } => actions == if panel.bridge is Some
            && panel.model.displayed_thread is Some {
            seq![Action::LoadOlderPage { real_index: panel.model.displayed_thread->0 }]
        } else {
            Seq::empty()
        },
        Effect::LocalTerminalSpawn => match selected(panel) {
            Some(real_index) => actions.len() == 1 && (if has_terminal(panel, real_index as int) {
                actions[0] == Action::CloseLocalTerminal { real_index }
            } else {
                match actions[0] {
                    Action::OpenLocalTerminal { real_index: at, cols, rows } => at == real_index
                        && (cols as int, rows as int) == terminal_size(
                        panel.width as int,
                        panel.height as int,
                    ),
                    _ => false,
                }
            }),
            None => actions.len() == 0,
        },
        Effect::LocalTerminalKill => actions == match selected(panel) {
            Some(real_index) => seq![Action::CloseLocalTerminal { real_index }],
            None => Seq::empty(),
        },
        Effect::LocalTerminalWrite { bytes } => match selected(panel) {
            Some(index) => actions.len() == 1 && match actions[0] {
                Action::TypeInLocalTerminal { real_index, text } => real_index == index && text@
                    == lossy_shown(bytes@),
                _ => false,
            },
            None => actions.len() == 0,
        },
        Effect::KillAgentTerminal { real_index, terminal_id } => actions == if panel.bridge
            is Some {
            seq![Action::KillTerminal { real_index, terminal_id }]
        } else {
            Seq::empty()
        },
        Effect::SaveSettings { input } => actions.len() == 1 && match actions[0] {
            Action::SaveSettings(save) => {
                &&& save.scope == input.scope
                &&& optional_text(save.defaults.profile_name) == filled(input.default_profile@)
                &&& optional_text(save.defaults.permission_profile) == filled(
                    input.permission_profile@,
                )
                &&& save.defaults.background_session == input.background_default
                &&& save.defaults.selected_thread_id == input.selected_thread_id
                &&& optional_text(save.default_agent_id) == filled(input.default_agent_id@)
                &&& save.show_global_skills == input.show_global_skills
                &&& save.background_override == if input.background_override_set {
                    Some(input.background_override)
                } else {
                    None
                }
            },
            _ => false,
        },
        Effect::SetConfigOption { key, value, .. } => actions == match selected(panel) {
            Some(real_index) => seq![Action::SetConfigOption { real_index, key, value }],
            None => Seq::empty(),
        },
        Effect::SetMode { mode, .. } => actions == match selected(panel) {
            Some(real_index) => seq![Action::SetMode { real_index, mode }],
            None => Seq::empty(),
        },
        Effect::SaveDevMode { enabled } => actions == seq![
            Action::SaveDevMode { enabled, install_skill: enabled },
        ],
        Effect::McpServerCreate { entry, .. } => gateway_planned(
            panel,
            GatewayOp::CreateServer { entry },
            actions,
        ),
        Effect::McpServerUpdate { entry, .. } => gateway_planned(
            panel,
            GatewayOp::UpdateServer { entry },
            actions,
        ),
        Effect::McpServerDelete { name, .. } => gateway_planned(
            panel,
            GatewayOp::DeleteServer { name },
            actions,
        ),
        Effect::McpServerEnabledChanged { name, enabled, .. } => if panel.component && is_builtin(
            name@,
        ) {
            actions == seq![Action::SetBuiltinServer { enabled }]
        } else {
            gateway_planned(panel, GatewayOp::SetServerEnabled { name, enabled }, actions)
        },
        Effect::McpServerAuthenticate { name, .. } => gateway_planned(
            panel,
            GatewayOp::Authenticate { name },
            actions,
        ),
        Effect::McpServerLogout { name, .. } => gateway_planned(
            panel,
            GatewayOp::Logout { name },
            actions,
        ),
        Effect::McpServerToolEnabledChanged { server_name, tool_name, enabled, .. } =>
            gateway_planned(
            panel,
            GatewayOp::SetTool {
                server: server_name,
                tool: tool_name,
                field: ToolField::Enabled,
                value: enabled,
            },
            actions,
        ),
        Effect::McpServerToolDeferredChanged { server_name, tool_name, deferred, .. } =>
            gateway_planned(
            panel,
            GatewayOp::SetTool {
                server: server_name,
                tool: tool_name,
                field: ToolField::Deferred,
                value: deferred,
            },
            actions,
        ),
        Effect::McpServerToolsFetchRequested { server_name, .. } => gateway_planned(
            panel,
            GatewayOp::FetchTools { name: server_name },
            actions,
        ),
        Effect::ProfileCreate { name, agent_id, terminal_enabled, fs_enabled, .. } =>
            if panel.component && panel.bridge is Some {
            creates_profile(
                actions,
                gateway_index(panel),
                name,
                profile_json(name@, optional_text(agent_id), terminal_enabled, fs_enabled),
            )
        } else {
            actions.len() == 0
        },
        Effect::ProfileDelete { name, .. } => actions == profile_planned(
            panel,
            GatewayOp::DeleteProfile { name },
        ),
        Effect::AgentInstallRequested { agent_id, .. } => actions == if panel.component
            && panel.bridge is Some {
            seq![Action::InstallAgent { index: gateway_index(panel) as usize, agent_id }]
        } else {
            Seq::empty()
        },
        Effect::AgentSetEnabled { agent_id, enabled, .. } => actions == only(
            if panel.bridge is Some {
                Some(Action::SetAgentEnabled { agent_id, enabled })
            } else {
                None
            },
        ).push(Action::SyncAgentSkills { agent_id, enabled }),
        Effect::SkillWrite { path, content } => actions.len() == 1 && match actions[0] {
            Action::WriteSkill { directory, file, content: written } => directory == path && file@
                == joined(path@, "SKILL.md"@) && written == content,
            _ => false,
        },
        Effect::CreateSkill { name, scope, active_project_path } => match scope_named(scope@) {
            Some(scope) => actions == seq![
                Action::CreateSkill { name, scope, active_project_path },
            ],
            None => scope_unknown(actions, scope@),
        },
        Effect::SkillDelete { path } => actions == seq![Action::DeleteSkill { path }],
        Effect::SkillPromoteToGlobal { path } => actions == seq![Action::PromoteSkill { path }],
        Effect::OpenSkillEditor { path } => actions.len() == 1 && match actions[0] {
            Action::ReadSkill { path: of, name, file } => of == path && name@ == text_or(
                named_by(path@),
                Seq::empty(),
            ) && file@ == joined(path@, "SKILL.md"@),
            _ => false,
        },
        Effect::OpenInEditor { editor_name, path } => match program_named(editor_name@) {
            Some(program) => actions.len() == 1 && match actions[0] {
                Action::LaunchEditor { bin, path: of } => bin@ == program && of == path,
                _ => false,
            },
            None => editor_unknown(actions, editor_name@),
        },
        Effect::OpenWithOsDefault { path } => actions == seq![Action::OpenWithOsDefault { path }],
        Effect::ClipboardWrite { text } => actions == seq![Action::WriteClipboard { text }],
        Effect::SetActiveProjectPath { path } => actions == project_planned(panel, path),
        Effect::CloseThread { real_index } => actions == if panel.bridge is Some {
            seq![
                Action::CloseThread {
                    real_index,
                    thread_id: match bound(panel, real_index as int) {
                        Some(binding) => Some(binding.thread_id),
                        None => None,
                    },
                    ask_background: panel.store && bound(panel, real_index as int) is Some,
                },
            ]
        } else {
            Seq::empty()
        },
        Effect::ArchiveThread { thread_id, archived } => actions == match panel.bridge {
            Some(threads) => match slot_with_id(threads@, thread_id@, 0) {
                Some(at) => seq![
                    Action::ArchiveThread { real_index: at as usize, thread_id, archived },
                ],
                None => Seq::empty(),
            },
            None => Seq::empty(),
        },
        Effect::DeleteThread { real_index } => if panel.bridge is Some {
            actions.len() == 1 && match actions[0] {
                Action::DeleteThread { real_index: at, thread_id } => at == real_index && thread_id@
                    == id_or_empty(panel, real_index as int),
                _ => false,
            }
        } else {
            actions.len() == 0
        },
        Effect::PersistSelectedThread { thread_id } => actions == if panel.store {
            seq![Action::StoreSelectedThread { thread_id }]
        } else {
            Seq::empty()
        },
        Effect::ToggleBackground { real_index } => actions == match bound(
            panel,
            real_index as int,
        ) {
            Some(binding) => if panel.store {
                seq![Action::ToggleBackground { thread_id: binding.thread_id }]
            } else {
                Seq::empty()
            },
            None => Seq::empty(),
        },
        Effect::PersistThreadRecord { record } => actions == if panel.store {
            seq![Action::SaveRecord { record }]
        } else {
            seq![Action::Report(EffectResultMsg::ThreadRecordPersisted(Ok(())))]
        },
        Effect::PersistThread { real_index } => actions == match record_of(
            panel,
            real_index as int,
        ) {
            Some(record) if panel.store => seq![Action::SaveThread { real_index, record }],
            _ => seq![Action::Report(EffectResultMsg::ThreadPersisted { real_index, result: Ok(()) })],
        },
        Effect::RenameThread { real_index, name } => actions == if panel.store && real_index
            < panel.model.threads@.len() {
            seq![
                Action::RenameRecord {
                    thread_id: panel.model.threads@[real_index as int].thread_id,
                    name,
                },
            ]
        } else {
            Seq::empty()
        },
        Effect::ProbeProvider { real_index, provider, profile_name } => actions
            == if panel.bridge is Some {
            seq![Action::ProbeProvider { real_index, provider, profile_name }]
        } else {
            Seq::empty()
        },
        Effect::RenameProjectAssociation { old, new, old_identity } => actions == only(
            if panel.bridge is Some {
                Some(Action::RebindProject { old, new })
            } else {
                None
            },
        ) + only(
            if panel.store {
                Some(Action::RenameStoredProject { old, new })
            } else {
                None
            },
        ) + seq![Action::MoveProjectStore { old_identity, new }],
        Effect::RefreshDaemonProjectInstances => actions == seq![Action::RefreshDaemonProjects],
    }
}

/// The thread that the selected row stands for, where there is a bridge.
pub fn selected_thread(panel: &PanelState) -> (r: Option<usize>)
    ensures
        r == selected(*panel),
{
    if panel.bridge.is_some() {
        panel.model.real_index(panel.model.selected_thread)
    } else {
        None
    }
}

fn one(action: Action) -> (r: Vec<Action>)
    ensures
        r@ == seq![action],
{
    let mut out: Vec<Action> = Vec::new();
    out.push(action);
    assert(out@ =~= seq![action]);
    out
}

fn none() -> (r: Vec<Action>)
    ensures
        r@ == Seq::<Action>::empty(),
{
    Vec::new()
}

fn plan_prompt(panel: &PanelState, index: usize, text: String) -> (r: Vec<Action>)
    ensures
        prompt_planned(*panel, index as int, text, r@),
{
    if panel.bridge.is_none() {
        return none();
    }
    match panel.bridge_thread(index) {
        Some(slot) => match &slot.attachment_error {
            Some(error) => {
                let message: String = join("session attachment failed: ", error.as_str());
                one(
                    Action::Report(
                        EffectResultMsg::PromptSent {
                            real_index: index,
                            result: Err(EffectError::new(message)),
                        },
                    ),
                )
            },
            None => if slot.closed {
                none()
            } else {
                one(Action::Prompt { real_index: index, text })
            },
        },
        None => one(Action::Prompt { real_index: index, text }),
    }
}

fn plan_gateway(panel: &PanelState, op: GatewayOp) -> (r: Vec<Action>)
    ensures
        gateway_planned(*panel, op, r@),
{
    if !panel.component {
        none()
    } else if panel.bridge.is_none() {
        one(
            Action::Report(
                EffectResultMsg::McpServerOperationCompleted(
                    Err(EffectError::new("no gateway connection".to_owned())),
                ),
            ),
        )
    } else {
        one(Action::Gateway { index: panel.settings_gateway_index(), op })
    }
}

fn plan_project(panel: &PanelState, path: Option<String>) -> (r: Vec<Action>)
    ensures
        r@ == project_planned(*panel, path),
{
    let mut out: Vec<Action> = Vec::new();
    if panel.bridge.is_some() {
        if !same(panel.model.project_lifecycle_reason.as_str(), "saved_as") {
            out.push(Action::ReleaseProjectSessions);
        }
        out.push(Action::SetActiveProject(panel.model.active_project.copied()));
        let agent: &str = trim(panel.model.default_agent_id.as_str());
        proof {
            lemma_blank_is_trimmed_empty(panel.model.default_agent_id@);
        }
        if agent.unicode_len() > 0 {
            out.push(Action::PrewarmAgent { agent_id: panel.model.default_agent_id.clone() });
        }
    }
    out.push(
        Action::UpdateRegistration {
            project_path: path,
            reason: panel.model.project_lifecycle_reason.clone(),
            generation: panel.model.project_generation,
        },
    );
    assert(out@ =~= project_planned(*panel, path));
    out
}

fn find_slot(threads: &Vec<BridgeThread>, id: &str) -> (r: Option<usize>)
    ensures
        match slot_with_id(threads@, id@, 0) {
            Some(at) => r is Some && r->0 == at,
            None => r is None,
        },
{
    let mut i: usize = 0;
    while i < threads.len()
        invariant
            i <= threads@.len(),
            slot_with_id(threads@, id@, 0) == slot_with_id(threads@, id@, i as int),
        decreases threads@.len() - i,
    {
        let durable: bool = match &threads[i].thread_id {
            Some(own) => same(own.as_str(), id),
            None => false,
        };
        let attached: bool = match &threads[i].binding {
            Some(binding) => same(binding.thread_id.as_str(), id),
            None => false,
        };
        if durable || attached {
            return Some(i);
        }
        i += 1;
    }
    None
}

fn binding_id(panel: &PanelState, index: usize) -> (r: Option<String>)
    ensures
        r == match bound(*panel, index as int) {
            Some(binding) => Some(binding.thread_id),
            None => None,
        },
{
    match panel.thread_binding(index) {
        Some(binding) => Some(binding.thread_id.clone()),
        None => None,
    }
}

/// The scope of skills with a name; others are an error that names them.
pub fn skill_scope(scope: &str) -> (r: Result<SkillScope, EffectError>)
    ensures
        match scope_named(scope@) {
            Some(known) => r == Ok::<SkillScope, EffectError>(known),
            None => r is Err && r->Err_0.message@ == "invalid skill scope "@ + debug_shown(scope@),
        },
{
    if same(scope, "global") {
        Ok(SkillScope::Global)
    } else if same(scope, "project") {
        Ok(SkillScope::Project)
    } else {
        let quoted: String = debug_text(scope);
        Err(EffectError::new(join("invalid skill scope ", quoted.as_str())))
    }
}

/// What is done for one of the effects on skills and editors; for any other,
/// nothing.
pub fn execute_skill_effects(panel: &PanelState, effect: Effect) -> (r: Vec<Action>)
    ensures
        is_skill_effect(effect) ==> planned(*panel, effect, r@),
        !is_skill_effect(effect) ==> r@.len() == 0,
{
    match effect {
        Effect::SkillWrite { path, content } => {
            let file: String = join_path(path.as_str(), "SKILL.md");
            one(Action::WriteSkill { directory: path, file, content })
        },
        Effect::CreateSkill { name, scope, active_project_path } => match skill_scope(
            scope.as_str(),
        ) {
            Ok(scope) => one(Action::CreateSkill { name, scope, active_project_path }),
            Err(error) => {
                let mut out: Vec<Action> = one(Action::RefreshSkills);
                out.push(Action::Report(EffectResultMsg::SkillCreated(Err(error))));
                out
            },
        },
        Effect::SkillDelete { path } => one(Action::DeleteSkill { path }),
        Effect::SkillPromoteToGlobal { path } => one(Action::PromoteSkill { path }),
        Effect::OpenSkillEditor { path } => {
            let name: String = match file_name(path.as_str()) {
                Some(name) => name,
                None => empty_text(),
            };
            let file: String = join_path(path.as_str(), "SKILL.md");
            one(Action::ReadSkill { path, name, file })
        },
        Effect::OpenInEditor { editor_name, path } => match editor_bin_named(
            editor_name.as_str(),
        ) {
            Some(bin) => one(Action::LaunchEditor { bin, path }),
            None => {
                let quoted: String = debug_text(editor_name.as_str());
                let error: EffectError = EffectError::new(
                    join("unknown editor ", quoted.as_str()),
                );
                one(Action::Report(EffectResultMsg::ExternalEditorOpened(Err(error))))
            },
        },
        Effect::OpenWithOsDefault { path } => one(Action::OpenWithOsDefault { path }),
        Effect::ClipboardWrite { text } => one(Action::WriteClipboard { text }),
        _ => none(),
    }
}

/// Whether an effect is one on skills, editors or the clipboard.
pub open spec fn is_skill_effect(effect: Effect) -> bool {
    effect is SkillWrite || effect is CreateSkill || effect is SkillDelete
        || effect is SkillPromoteToGlobal || effect is OpenSkillEditor || effect is OpenInEditor
        || effect is OpenWithOsDefault || effect is ClipboardWrite
}

/// What is done for an effect. Threads that are about to be opened are opened
/// elsewhere, so nothing is done for them here.
#[verifier::rlimit(60)]
pub fn plan_effect(panel: &PanelState, effect: Effect) -> (r: Vec<Action>)
    ensures
        planned(*panel, effect, r@),
{
    match effect {
        Effect::LoadInitialState => none(),
        Effect::NewThreadDeferred { .. } => none(),
        Effect::RecoverSessionAttach { .. } => none(),
        Effect::SendPrompt { thread_id, text } => match panel.model.thread_index_for_id(
            thread_id.as_str(),
        ) {
            Some(index) => plan_prompt(panel, index, text),
            None => none(),
        },
        Effect::CancelGeneration { real_index } => if panel.bridge.is_some() {
            one(Action::CancelPrompt { real_index })
        } else {
            none()
        },
        Effect::RespondAgentRequest { approve, .. } => match selected_thread(panel) {
            Some(real_index) => one(Action::AnswerRequest { real_index, approve }),
            None => none(),
        },
        Effect::PermissionOptionSelected { option, .. } => match selected_thread(panel) {
            Some(real_index) => one(Action::AnswerOption { real_index, option }),
            None => none(),
        },
        Effect::LoadOlderMessages { .. } => match panel.model.displayed_thread {
            Some(real_index) => if panel.bridge.is_some() {
                one(Action::LoadOlderPage { real_index })
            } else {
                none()
            },
            None => none(),
        },
        Effect::LocalTerminalSpawn => match selected_thread(panel) {
            Some(real_index) => {
                let open: bool = match panel.bridge_thread(real_index) {
                    Some(slot) => slot.local_terminal,
                    None => false,
                };
                if open {
                    one(Action::CloseLocalTerminal { real_index })
                } else {
                    let (cols, rows): (u16, u16) = panel.local_terminal_dimensions();
                    one(Action::OpenLocalTerminal { real_index, cols, rows })
                }
            },
            None => none(),
        },
        Effect::LocalTerminalKill => match selected_thread(panel) {
            Some(real_index) => one(Action::CloseLocalTerminal { real_index }),
            None => none(),
        },
        Effect::LocalTerminalWrite { bytes } => match selected_thread(panel) {
            Some(real_index) => {
                let text: String = lossy_text(bytes.as_slice());
                one(Action::TypeInLocalTerminal { real_index, text })
            },
            None => none(),
        },
        Effect::KillAgentTerminal { real_index, terminal_id } => if panel.bridge.is_some() {
            one(Action::KillTerminal { real_index, terminal_id })
        } else {
            none()
        },
        Effect::SaveSettings { input } => one(Action::SaveSettings(settings_save(input))),
        Effect::SetConfigOption { key, value, .. } => match selected_thread(panel) {
            Some(real_index) => one(Action::SetConfigOption { real_index, key, value }),
            None => none(),
        },
        Effect::SetMode { mode, .. } => match selected_thread(panel) {
            Some(real_index) => one(Action::SetMode { real_index, mode }),
            None => none(),
        },
        Effect::SaveDevMode { enabled } => one(
            Action::SaveDevMode { enabled, install_skill: enabled },
        ),
        Effect::McpServerCreate { entry, .. } => plan_gateway(
            panel,
            GatewayOp::CreateServer { entry },
        ),
        Effect::McpServerUpdate { entry, .. } => plan_gateway(
            panel,
            GatewayOp::UpdateServer { entry },
        ),
        Effect::McpServerDelete { name, .. } => plan_gateway(
            panel,
            GatewayOp::DeleteServer { name },
        ),
        Effect::McpServerEnabledChanged { name, enabled, .. } => if panel.component && same(
            name.as_str(),
            "snapflow",
        ) {
            one(Action::SetBuiltinServer { enabled })
        } else {
            plan_gateway(panel, GatewayOp::SetServerEnabled { name, enabled })
        },
        Effect::McpServerAuthenticate { name, .. } => plan_gateway(
            panel,
            GatewayOp::Authenticate { name },
        ),
        Effect::McpServerLogout { name, .. } => plan_gateway(panel, GatewayOp::Logout { name }),
        Effect::McpServerToolEnabledChanged { server_name, tool_name, enabled, .. } =>
            plan_gateway(
            panel,
            GatewayOp::SetTool {
                server: server_name,
                tool: tool_name,
                field: ToolField::Enabled,
                value: enabled,
            },
        ),
        Effect::McpServerToolDeferredChanged { server_name, tool_name, deferred, .. } =>
            plan_gateway(
            panel,
            GatewayOp::SetTool {
                server: server_name,
                tool: tool_name,
                field: ToolField::Deferred,
                value: deferred,
            },
        ),
        Effect::McpServerToolsFetchRequested { server_name, .. } => plan_gateway(
            panel,
            GatewayOp::FetchTools { name: server_name },
        ),
        Effect::ProfileCreate { name, agent_id, terminal_enabled, fs_enabled, .. } =>
            if panel.component && panel.bridge.is_some() {
            let entry: crate::json::JsonValue = profile_definition(
                name.as_str(),
                &agent_id,
                terminal_enabled,
                fs_enabled,
            );
            one(
                Action::Gateway {
                    index: panel.settings_gateway_index(),
                    op: GatewayOp::CreateProfile { name, entry },
                },
            )
        } else {
            none()
        },
        Effect::ProfileDelete { name, .. } => if panel.component && panel.bridge.is_some() {
            one(
                Action::Gateway {
                    index: panel.settings_gateway_index(),
                    op: GatewayOp::DeleteProfile { name },
                },
            )
        } else {
            none()
        },
        Effect::AgentInstallRequested { agent_id, .. } => if panel.component
            && panel.bridge.is_some() {
            one(Action::InstallAgent { index: panel.settings_gateway_index(), agent_id })
        } else {
            none()
        },
        Effect::AgentSetEnabled { agent_id, enabled, .. } => {
            let mut out: Vec<Action> = none();
            if panel.bridge.is_some() {
                out.push(Action::SetAgentEnabled { agent_id: agent_id.clone(), enabled });
                assert(out@ =~= seq![Action::SetAgentEnabled { agent_id, enabled }]);
            }
            out.push(Action::SyncAgentSkills { agent_id, enabled });
            out
        },
        Effect::SetActiveProjectPath { path } => plan_project(panel, path),
        Effect::CloseThread { real_index } => if panel.bridge.is_some() {
            let thread_id: Option<String> = binding_id(panel, real_index);
            let ask_background: bool = panel.store && thread_id.is_some();
            one(Action::CloseThread { real_index, thread_id, ask_background })
        } else {
            none()
        },
        Effect::ArchiveThread { thread_id, archived } => match &panel.bridge {
            Some(threads) => match find_slot(threads, thread_id.as_str()) {
                Some(real_index) => one(Action::ArchiveThread { real_index, thread_id, archived }),
                None => none(),
            },
            None => none(),
        },
        Effect::DeleteThread { real_index } => if panel.bridge.is_some() {
            let id: Option<String> = binding_id(panel, real_index);
            one(Action::DeleteThread { real_index, thread_id: or_empty(&id) })
        } else {
            none()
        },
        Effect::PersistSelectedThread { thread_id } => if panel.store {
            one(Action::StoreSelectedThread { thread_id })
        } else {
            none()
        },
        Effect::ToggleBackground { real_index } => match binding_id(panel, real_index) {
            Some(thread_id) => if panel.store {
                one(Action::ToggleBackground { thread_id })
            } else {
                none()
            },
            None => none(),
        },
        Effect::PersistThreadRecord { record } => if panel.store {
            one(Action::SaveRecord { record })
        } else {
            one(Action::Report(EffectResultMsg::ThreadRecordPersisted(Ok(()))))
        },
        Effect::PersistThread { real_index } => match collect_thread_record(panel, real_index) {
            Some(record) => if panel.store {
                one(Action::SaveThread { real_index, record })
            } else {
                one(
                    Action::Report(
                        EffectResultMsg::ThreadPersisted { real_index, result: Ok(()) },
                    ),
                )
            },
            None => one(
                Action::Report(EffectResultMsg::ThreadPersisted { real_index, result: Ok(()) }),
            ),
        },
        Effect::RenameThread { real_index, name } => if panel.store && real_index
            < panel.model.threads.len() {
            let thread_id: String = panel.model.threads[real_index].thread_id.clone();
            one(Action::RenameRecord { thread_id, name })
        } else {
            none()
        },
        Effect::ProbeProvider { real_index, provider, profile_name } => if panel.bridge.is_some() {
            one(Action::ProbeProvider { real_index, provider, profile_name })
        } else {
            none()
        },
        Effect::RenameProjectAssociation { old, new, old_identity } => {
            let mut out: Vec<Action> = none();
            if panel.bridge.is_some() {
                out.push(Action::RebindProject { old: old.clone(), new: new.clone() });
            }
            if panel.store {
                out.push(Action::RenameStoredProject { old, new: new.clone() });
            }
            out.push(Action::MoveProjectStore { old_identity, new });
            assert(out@ =~= only(
                if panel.bridge is Some {
                    Some(Action::RebindProject { old, new })
                } else {
                    None
                },
            ) + only(
                if panel.store {
                    Some(Action::RenameStoredProject { old, new })
                } else {
                    None
                },
            ) + seq![Action::MoveProjectStore { old_identity, new }]);
            out
        },
        Effect::RefreshDaemonProjectInstances => one(Action::RefreshDaemonProjects),
        skill => execute_skill_effects(panel, skill),
    }
}

/// Whether the surroundings are read again after an effect: after all but those
/// that change nothing that is shown.
pub open spec fn refreshes(effect: Effect) -> bool {
    !(effect is LoadInitialState || effect is PersistSelectedThread)
}

/// Whether the surroundings are read again after some of a list of effects.
pub open spec fn any_refreshes(effects: Seq<Effect>) -> bool {
    exists|k: int| 0 <= k < effects.len() && refreshes(#[trigger] effects[k])
}

/// Whether `actions` is what is done for a list of effects: for each of them in
/// turn, and then the surroundings are read again where an effect asks for it.
pub open spec fn carried_out(
    panel: PanelState,
    effects: Seq<Effect>,
    actions: Seq<Action>,
) -> bool {
    exists|plans: Seq<Seq<Action>>|
        {
            &&& plans.len() == effects.len()
            &&& forall|k: int|
                0 <= k < effects.len() ==> planned(panel, effects[k], #[trigger] plans[k])
            &&& actions == #[trigger] plans.flatten() + only(
                if any_refreshes(effects) {
                    Some(Action::PollFrame)
                } else {
                    None
                },
            )
        }
}

fn needs_refresh(effect: &Effect) -> (r: bool)
    ensures
        r == refreshes(*effect),
{
    match effect {
        Effect::LoadInitialState => false,
        Effect::PersistSelectedThread { .. } => false,
        _ => true,
    }
}

/// Says what is done for the effects that folding a message asked for.
pub fn execute_effects(panel: &PanelState, effects: Vec<Effect>) -> (r: Vec<Action>)
    ensures
        carried_out(*panel, effects@, r@),
{
    let ghost given = effects@;
    let mut rest: Vec<Effect> = effects;
    let mut back: Vec<Effect> = Vec::new();
    while rest.len() > 0
        invariant
            rest@.len() + back@.len() == given.len(),
            forall|k: int| 0 <= k < rest@.len() ==> #[trigger] rest@[k] == given[k],
            forall|k: int|
                0 <= k < back@.len() ==> #[trigger] back@[k] == given[given.len() - 1 - k],
        decreases rest@.len(),
    {
        if let Some(effect) = rest.pop() {
            back.push(effect);
        }
    }
    let mut out: Vec<Action> = Vec::new();
    let mut refresh: bool = false;
    let ghost mut plans: Seq<Seq<Action>> = Seq::empty();
    assert(plans.flatten() =~= Seq::<Action>::empty());
    while back.len() > 0
        invariant
            plans.len() + back@.len() == given.len(),
            forall|k: int|
                0 <= k < back@.len() ==> #[trigger] back@[k] == given[given.len() - 1 - k],
            forall|k: int|
                0 <= k < plans.len() ==> planned(*panel, given[k], #[trigger] plans[k]),
            out@ == plans.flatten(),
            refresh <==> exists|k: int|
                0 <= k < plans.len() && refreshes(#[trigger] given[k]),
        decreases back@.len(),
    {
        if let Some(effect) = back.pop() {
            let ghost at = plans.len() as int;
            assert(effect == given[at]);
            if needs_refresh(&effect) {
                assert(refreshes(given[at]));
                refresh = true;
            }
            let mut plan: Vec<Action> = plan_effect(panel, effect);
            proof {
                let before = plans;
                plans = plans.push(plan@);
                before.lemma_flatten_push(plan@);
            }
            out.append(&mut plan);
        }
    }
    if refresh {
        out.push(Action::PollFrame);
    }
    proof {
        assert(refresh == any_refreshes(given));
        assert(out@ =~= plans.flatten() + only(
            if any_refreshes(given) {
                Some(Action::PollFrame)
            } else {
                None
            },
        ));
    }
    out
}

} // verus!
