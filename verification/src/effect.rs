//! What folding a message asks to be done outside the model, and what comes
//! back of it.

use crate::model::{
    DaemonProjectInstance, InitialState, McpServerEntry, ProjectIdentity, SettingsSaveInput,
    SkillEditorState, ThreadRecord,
};
use vstd::prelude::*;

verus! {

/// Why something that was asked for was not done.
#[derive(Debug, Clone, PartialEq, Eq)]
pub struct EffectError {
    pub message: String,
}

impl EffectError {
    /// An error with a message.
    pub fn new(message: String) -> (r: EffectError)
        ensures
            r.message == message,
    {
        EffectError { message }
    }

    /// The message, as it is displayed.
    pub fn text(&self) -> (r: String)
        ensures
            r == self.message,
    {
        self.message.clone()
    }
}

/// Something to be done outside the model. A thread is named by its place in
/// the list of threads, or by its durable id.
#[derive(Debug, Clone, PartialEq)]
pub enum Effect {
    LoadInitialState,
    NewThreadDeferred { real_index: usize, display_name: String, provider: String },
    CloseThread { real_index: usize },
    PersistSelectedThread { thread_id: String },
    ToggleBackground { real_index: usize },
    DeleteThread { real_index: usize },
    ArchiveThread { thread_id: String, archived: bool },
    RenameThread { real_index: usize, name: String },
    PersistThread { real_index: usize },
    PersistThreadRecord { record: ThreadRecord },
    RecoverSessionAttach {
        real_index: usize,
        session_id: String,
        provider: String,
        title: String,
    },
    SendPrompt { thread_id: String, text: String },
    ProbeProvider { real_index: usize, provider: String, profile_name: Option<String> },
    CancelGeneration { real_index: usize },
    RespondAgentRequest { real_index: usize, request_id: String, approve: bool },
    PermissionOptionSelected { real_index: usize, request_id: String, option: String },
    LoadOlderMessages { real_index: usize },
    LocalTerminalSpawn,
    LocalTerminalKill,
    LocalTerminalWrite { bytes: Vec<u8> },
    KillAgentTerminal { real_index: usize, terminal_id: String },
    SaveSettings { input: SettingsSaveInput },
    SetConfigOption { real_index: usize, key: String, value: String },
    SetMode { real_index: usize, mode: String },
    SaveDevMode { enabled: bool },
    McpServerCreate { real_index: usize, entry: McpServerEntry },
    McpServerUpdate { real_index: usize, entry: McpServerEntry },
    McpServerDelete { real_index: usize, name: String },
    McpServerEnabledChanged { real_index: usize, name: String, enabled: bool },
    McpServerAuthenticate { real_index: usize, name: String },
    McpServerLogout { real_index: usize, name: String },
    McpServerToolEnabledChanged {
        real_index: usize,
        server_name: String,
        tool_name: String,
        enabled: bool,
    },
    McpServerToolDeferredChanged {
        real_index: usize,
        server_name: String,
        tool_name: String,
        deferred: bool,
    },
    McpServerToolsFetchRequested { real_index: usize, server_name: String },
    ProfileCreate {
        real_index: usize,
        name: String,
        agent_id: Option<String>,
        terminal_enabled: bool,
        fs_enabled: bool,
    },
    ProfileDelete { real_index: usize, name: String },
    AgentInstallRequested { real_index: usize, agent_id: String },
    AgentSetEnabled { real_index: usize, agent_id: String, enabled: bool },
    SkillWrite { path: String, content: String },
    CreateSkill { name: String, scope: String, active_project_path: Option<String> },
    SkillDelete { path: String },
    SkillPromoteToGlobal { path: String },
    OpenSkillEditor { path: String },
    OpenInEditor { editor_name: String, path: String },
    OpenWithOsDefault { path: String },
    ClipboardWrite { text: String },
    SetActiveProjectPath { path: Option<String> },
    RenameProjectAssociation { old: String, new: String, old_identity: ProjectIdentity },
    RefreshDaemonProjectInstances,
}

/// What came of an [`Effect`].
#[derive(Debug, PartialEq)]
pub enum EffectResultMsg {
    InitialStateLoaded(Result<InitialState, EffectError>),
    ThreadPersisted { real_index: usize, result: Result<(), EffectError> },
    ThreadRecordPersisted(Result<(), EffectError>),
    SessionAttached {
        real_index: usize,
        thread_id: Option<String>,
        provider: Option<String>,
        result: Result<String, EffectError>,
    },
    SessionAttachStarted { thread_id: String },
    ProviderProbeSkipped { real_index: usize, provider: String },
    ThreadCreationFailed { real_index: usize, message: String },
    SkillWritten(Result<(), EffectError>),
    SkillCreated(Result<String, EffectError>),
    SkillPromoted(Result<(), EffectError>),
    ExternalEditorOpened(Result<(), EffectError>),
    OsDefaultOpened(Result<(), EffectError>),
    SkillEditorLoaded(Result<SkillEditorState, EffectError>),
    MarkdownBlocksReady {
        thread_id: String,
        message_key: String,
        source_hash: u64,
        blocks: Vec<String>,
    },
    SkillReactiveSyncFailed { operation: String, detail: String },
    PromptStreamDelta { thread_id: String, message_id: String, delta: String },
    PromptSent { real_index: usize, result: Result<(), EffectError> },
    SettingsSaved(Result<(), EffectError>),
    GatewayCallCompleted { real_index: usize, result: Result<(), EffectError> },
    StateEffectFailed { thread_id: String, message: String },
    McpServerOperationCompleted(Result<String, EffectError>),
    DaemonProjectInstancesLoaded(Result<Vec<DaemonProjectInstance>, EffectError>),
}

} // verus!
