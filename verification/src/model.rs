//! What the panel holds: its threads, what it shows of them, and what its
//! surroundings told it last.

pub mod laws;

use crate::gateway_actor::thread_actor::{ProfileSummary, RemoteThreadInfo};
use crate::json::JsonValue;
use crate::text::same;
use vstd::prelude::*;

verus! {

/// What a thread is doing.
#[derive(Debug, Clone, Copy, PartialEq, Eq, Structural)]
pub enum ThreadState {
    Idle,
    Loading,
    Cancelling,
    Error,
}

/// The project that is open: none, one that was saved to a path, or one that
/// was not saved yet and goes by a name of its own.
#[derive(Debug, Clone, PartialEq)]
pub enum ProjectIdentity {
    NoProject,
    Saved(String),
    Untitled(String),
}

/// A [`ProjectIdentity`] as a mathematical value.
#[verifier::ext_equal]
pub enum ProjectView {
    NoProject,
    Saved(Seq<char>),
    Untitled(Seq<char>),
}

impl View for ProjectIdentity {
    type V = ProjectView;

    open spec fn view(&self) -> ProjectView {
        match *self {
            ProjectIdentity::NoProject => ProjectView::NoProject,
            ProjectIdentity::Saved(path) => ProjectView::Saved(path@),
            ProjectIdentity::Untitled(name) => ProjectView::Untitled(name@),
        }
    }
}

impl ProjectIdentity {
    /// The path that the project was saved to.
    pub fn saved_path(&self) -> (r: Option<&str>)
        ensures
            match self@ {
                ProjectView::Saved(path) => r is Some && r->0@ == path,
                _ => r is None,
            },
    {
        match self {
            ProjectIdentity::Saved(path) => Some(path.as_str()),
            _ => None,
        }
    }

    /// Whether two identities are of the same project.
    pub fn matches(&self, other: &ProjectIdentity) -> (r: bool)
        ensures
            r == (self@ == other@),
    {
        match (self, other) {
            (ProjectIdentity::NoProject, ProjectIdentity::NoProject) => true,
            (ProjectIdentity::Saved(a), ProjectIdentity::Saved(b)) => same(a.as_str(), b.as_str()),
            (ProjectIdentity::Untitled(a), ProjectIdentity::Untitled(b)) => same(
                a.as_str(),
                b.as_str(),
            ),
            _ => false,
        }
    }

    /// The same identity once more.
    pub fn copied(&self) -> (r: ProjectIdentity)
        ensures
            r == *self,
    {
        match self {
            ProjectIdentity::NoProject => ProjectIdentity::NoProject,
            ProjectIdentity::Saved(path) => ProjectIdentity::Saved(path.clone()),
            ProjectIdentity::Untitled(name) => ProjectIdentity::Untitled(name.clone()),
        }
    }
}

/// A chat thread.
#[derive(Debug, Clone, PartialEq)]
pub struct ThreadModel {
    pub thread_id: String,
    pub display_name: String,
    pub provider: String,
    pub session_id: Option<String>,
    pub profile_name: Option<String>,
    pub permission_profile: Option<String>,
    pub state: ThreadState,
    pub error: Option<String>,
    pub unread: bool,
    pub connection_status: String,
}

impl Default for ThreadModel {
    fn default() -> (r: ThreadModel)
        ensures
            r.thread_id@.len() == 0,
            r.display_name@.len() == 0,
            r.provider@.len() == 0,
            r.session_id is None,
            r.profile_name is None,
            r.permission_profile is None,
            r.state == ThreadState::Idle,
            r.error is None,
            !r.unread,
            r.connection_status@.len() == 0,
    {
        proof {
            reveal_strlit("");
        }
        ThreadModel {
            thread_id: "".to_owned(),
            display_name: "".to_owned(),
            provider: "".to_owned(),
            session_id: None,
            profile_name: None,
            permission_profile: None,
            state: ThreadState::Idle,
            error: None,
            unread: false,
            connection_status: "".to_owned(),
        }
    }
}

/// How far the tools of a server are known: they are being asked for, or an
/// answer came.
#[derive(Debug, Clone, Copy, PartialEq, Eq, Structural)]
pub enum McpToolCatalog {
    Fetching,
    Settled,
}

/// A server of tools that the gateway has registered.
#[derive(Debug, Clone, PartialEq)]
pub struct McpServerEntry {
    pub name: String,
    pub definition: JsonValue,
    pub tool_catalog: Option<McpToolCatalog>,
}

/// An agent that the gateway knows of.
#[derive(Debug, Clone, PartialEq)]
pub struct AgentCatalogEntry {
    pub id: String,
    pub enabled: bool,
}

/// A project that some process of the host has open.
#[derive(Debug, Clone, PartialEq)]
pub struct DaemonProjectInstance {
    pub project_path: String,
    pub ready: bool,
}

/// Where a skill belongs.
#[derive(Debug, Clone, Copy, PartialEq, Eq, Structural)]
pub enum SkillScope {
    Global,
    Project,
}

/// A skill on disk: `path` is its directory, `started_from` the skill that it
/// was made from.
#[derive(Debug, Clone, PartialEq)]
pub struct SkillEntry {
    pub name: String,
    pub description: String,
    pub scope: SkillScope,
    pub started_from: Option<String>,
    pub path: String,
}

/// The skill that the editor shows.
#[derive(Debug, Clone, PartialEq)]
pub struct SkillEditorState {
    pub name: String,
    pub path: String,
    pub content: String,
    pub detected_editors: Vec<String>,
}

/// A row of the thread list.
#[derive(Debug, Clone, PartialEq)]
pub struct ThreadItem {
    pub name: String,
    pub status: String,
    pub description: String,
    pub busy: bool,
    pub closed: bool,
    pub archived: bool,
    pub unread: bool,
    pub background_session: bool,
    pub provider: String,
    pub model: String,
    pub project_name: String,
    pub project_path: String,
    pub project_instance_live: bool,
    pub profile_name: String,
    pub has_session: bool,
}

/// A row of the thread list with the thread that it stands for.
#[derive(Debug, Clone, PartialEq)]
pub struct VisibleThreadItem {
    pub real_index: usize,
    pub thread_id: String,
    pub session_id: Option<String>,
    pub agent_detected: Option<bool>,
    pub item: ThreadItem,
}

/// What is kept of a thread when the panel is not running.
#[derive(Debug, Clone, PartialEq)]
pub struct ThreadRecord {
    pub thread_id: String,
    pub display_name: String,
    pub provider: String,
    pub session_id: String,
    pub profile_name: Option<String>,
    pub permission_profile: Option<String>,
    pub background_session: Option<bool>,
    pub project_path: Option<String>,
}

/// What a thread is opened with.
#[derive(Debug, Clone, PartialEq)]
pub struct ThreadSpec {
    pub display_name: String,
    pub provider: String,
    pub session_id: Option<String>,
    pub profile_name: Option<String>,
    pub project_path: Option<String>,
}

/// The preferences of the panel.
#[derive(Debug, Clone, PartialEq)]
pub struct PanelDefaults {
    pub profile_name: Option<String>,
    pub permission_profile: Option<String>,
    pub background_session: bool,
    pub selected_thread_id: Option<String>,
}

/// What the panel starts with.
#[derive(Debug, Clone, PartialEq)]
pub struct InitialState {
    pub threads: Vec<ThreadSpec>,
    pub thread_ids: Vec<String>,
    pub selected_thread_id: Option<String>,
    pub permission_profiles: Vec<Option<String>>,
    pub thread_states: Vec<ThreadState>,
    pub startup_warnings: Vec<String>,
}

/// What the settings sheet asks to be saved.
#[derive(Debug, Clone, PartialEq)]
pub struct SettingsSaveInput {
    pub scope: String,
    pub default_profile: String,
    pub permission_profile: String,
    pub background_default: bool,
    pub default_agent_id: String,
    pub show_global_skills: bool,
    pub selected_thread_id: Option<String>,
    pub background_override_set: bool,
    pub background_override: bool,
}

/// The session that a thread is bound to.
#[derive(Debug, Clone, PartialEq)]
pub struct ThreadBinding {
    pub thread_id: String,
    pub session_id: String,
}

/// A thread as the bridge to the gateway has it: its durable id, and its
/// session once there is one.
#[derive(Debug, Clone, PartialEq)]
pub struct BridgeThread {
    pub thread_id: Option<String>,
    pub binding: Option<ThreadBinding>,
    pub provider: Option<String>,
    pub project_path: Option<String>,
    pub attachment_error: Option<String>,
    pub closed: bool,
    pub archived: bool,
    pub deferred: bool,
    pub local_terminal: bool,
}

/// The state that messages are folded into.
#[derive(Debug, Clone, PartialEq)]
pub struct Model {
    pub threads: Vec<ThreadModel>,
    pub selected_thread: usize,
    pub visible_indices: Vec<usize>,
    pub displayed_thread: Option<usize>,
    pub search_query: String,
    pub settings_open: bool,
    pub settings_scope: String,
    pub available_profiles: Vec<ProfileSummary>,
    pub available_mcp_servers: Vec<McpServerEntry>,
    pub mcp_operations_in_flight: Vec<String>,
    pub agent_catalog: Vec<AgentCatalogEntry>,
    pub agent_catalog_fetched: bool,
    pub recoverable_sessions: Vec<RemoteThreadInfo>,
    pub recovery_provider: String,
    pub active_project: ProjectIdentity,
    pub active_project_path: Option<String>,
    pub project_lifecycle_reason: String,
    pub project_generation: u64,
    pub traced_attachment_threads: Vec<String>,
    pub expanded_terminal_id: Option<String>,
    pub open_terminal_ids: Vec<String>,
    pub default_agent_id: String,
    pub dev_mode: bool,
}

impl Default for Model {
    fn default() -> (r: Model)
        ensures
            r.threads@.len() == 0,
            r.selected_thread == 0,
            r.visible_indices@.len() == 0,
            r.displayed_thread is None,
            r.search_query@.len() == 0,
            !r.settings_open,
            r.settings_scope@.len() == 0,
            r.available_profiles@.len() == 0,
            r.available_mcp_servers@.len() == 0,
            r.mcp_operations_in_flight@.len() == 0,
            r.agent_catalog@.len() == 0,
            !r.agent_catalog_fetched,
            r.recoverable_sessions@.len() == 0,
            r.recovery_provider@.len() == 0,
            r.active_project == ProjectIdentity::NoProject,
            r.active_project_path is None,
            r.project_lifecycle_reason@.len() == 0,
            r.project_generation == 0,
            r.traced_attachment_threads@.len() == 0,
            r.expanded_terminal_id is None,
            r.open_terminal_ids@.len() == 0,
            r.default_agent_id@.len() == 0,
            !r.dev_mode,
    {
        proof {
            reveal_strlit("");
        }
        Model {
            threads: Vec::new(),
            selected_thread: 0,
            visible_indices: Vec::new(),
            displayed_thread: None,
            search_query: "".to_owned(),
            settings_open: false,
            settings_scope: "".to_owned(),
            available_profiles: Vec::new(),
            available_mcp_servers: Vec::new(),
            mcp_operations_in_flight: Vec::new(),
            agent_catalog: Vec::new(),
            agent_catalog_fetched: false,
            recoverable_sessions: Vec::new(),
            recovery_provider: "".to_owned(),
            active_project: ProjectIdentity::NoProject,
            active_project_path: None,
            project_lifecycle_reason: "".to_owned(),
            project_generation: 0,
            traced_attachment_threads: Vec::new(),
            expanded_terminal_id: None,
            open_terminal_ids: Vec::new(),
            default_agent_id: "".to_owned(),
            dev_mode: false,
        }
    }
}

/// The first thread at `from` or later whose id is `id`.
pub open spec fn thread_from(threads: Seq<ThreadModel>, id: Seq<char>, from: int) -> Option<int>
    decreases threads.len() - from,
{
    if from < 0 || from >= threads.len() {
        None
    } else if threads[from].thread_id@ == id {
        Some(from)
    } else {
        thread_from(threads, id, from + 1)
    }
}

/// The thread that a row of the list stands for.
pub open spec fn real_index_of(model: Model, row: int) -> Option<usize> {
    if 0 <= row < model.visible_indices@.len() {
        Some(model.visible_indices@[row])
    } else {
        None
    }
}

impl Model {
    /// The first thread with an id.
    pub fn thread_index_for_id(&self, id: &str) -> (r: Option<usize>)
        ensures
            match thread_from(self.threads@, id@, 0) {
                Some(at) => r is Some && r->0 == at,
                None => r is None,
            },
    {
        let mut i: usize = 0;
        while i < self.threads.len()
            invariant
                i <= self.threads@.len(),
                thread_from(self.threads@, id@, 0) == thread_from(self.threads@, id@, i as int),
            decreases self.threads@.len() - i,
        {
            if same(self.threads[i].thread_id.as_str(), id) {
                return Some(i);
            }
            i += 1;
        }
        None
    }

    /// The thread that a row of the list stands for, where the list has that
    /// row.
    pub fn real_index(&self, row: usize) -> (r: Option<usize>)
        ensures
            r == real_index_of(*self, row as int),
    {
        if row < self.visible_indices.len() {
            Some(self.visible_indices[row])
        } else {
            None
        }
    }
}

/// The panel with what surrounds it: the bridge to the gateway with its
/// threads, where it could be made; whether the component is still displayed;
/// whether the store of the panel's state could be opened; and the size of the
/// view.
#[derive(Debug, Clone, PartialEq)]
pub struct PanelState {
    pub model: Model,
    pub bridge: Option<Vec<BridgeThread>>,
    pub component: bool,
    pub store: bool,
    pub width: u32,
    pub height: u32,
}

/// A thread of the bridge.
pub open spec fn slot(panel: PanelState, index: int) -> Option<BridgeThread> {
    match panel.bridge {
        Some(threads) => if 0 <= index < threads@.len() {
            Some(threads@[index])
        } else {
            None
        },
        None => None,
    }
}

/// The session that a thread of the bridge is bound to.
pub open spec fn bound(panel: PanelState, index: int) -> Option<ThreadBinding> {
    match slot(panel, index) {
        Some(thread) => thread.binding,
        None => None,
    }
}

/// The first of the threads from `from` on that has a session.
pub open spec fn first_bound(panel: PanelState, from: int) -> Option<int>
    decreases panel.model.threads@.len() - from,
{
    if from < 0 || from >= panel.model.threads@.len() {
        None
    } else if bound(panel, from) is Some {
        Some(from)
    } else {
        first_bound(panel, from + 1)
    }
}

/// The thread through which settings are asked of the gateway: the selected one
/// where it has a session, else the first that has one, else the first.
pub open spec fn gateway_index(panel: PanelState) -> int {
    match real_index_of(panel.model, panel.model.selected_thread as int) {
        Some(at) if bound(panel, at as int) is Some => at as int,
        _ => match first_bound(panel, 0) {
            Some(at) => at,
            None => 0,
        },
    }
}

/// The number of columns and of rows of a terminal in the view.
pub open spec fn terminal_size(width: int, height: int) -> (int, int) {
    (clamped(width / 8, 20, 240), clamped(height / 18, 8, 120))
}

/// A number brought into a range.
pub open spec fn clamped(n: int, low: int, high: int) -> int {
    if n < low {
        low
    } else if n > high {
        high
    } else {
        n
    }
}

fn clamp_u16(n: u32, low: u16, high: u16) -> (r: u16)
    requires
        low <= high,
    ensures
        r == clamped(n as int, low as int, high as int),
{
    if n < low as u32 {
        low
    } else if n > high as u32 {
        high
    } else {
        n as u16
    }
}

impl PanelState {
    /// A thread of the bridge.
    pub fn bridge_thread(&self, index: usize) -> (r: Option<&BridgeThread>)
        ensures
            match slot(*self, index as int) {
                Some(thread) => r is Some && *r->0 == thread,
                None => r is None,
            },
    {
        match &self.bridge {
            Some(threads) => if index < threads.len() {
                Some(&threads[index])
            } else {
                None
            },
            None => None,
        }
    }

    /// The session that a thread of the bridge is bound to.
    pub fn thread_binding(&self, index: usize) -> (r: Option<&ThreadBinding>)
        ensures
            match bound(*self, index as int) {
                Some(binding) => r is Some && *r->0 == binding,
                None => r is None,
            },
    {
        match self.bridge_thread(index) {
            Some(thread) => match &thread.binding {
                Some(binding) => Some(binding),
                None => None,
            },
            None => None,
        }
    }

    /// The thread through which settings are asked of the gateway.
    pub fn settings_gateway_index(&self) -> (r: usize)
        ensures
            r == gateway_index(*self),
    {
        if let Some(at) = self.model.real_index(self.model.selected_thread) {
            if self.thread_binding(at).is_some() {
                return at;
            }
        }
        let mut i: usize = 0;
        while i < self.model.threads.len()
            invariant
                i <= self.model.threads@.len(),
                first_bound(*self, 0) == first_bound(*self, i as int),
                match real_index_of(self.model, self.model.selected_thread as int) {
                    Some(at) => bound(*self, at as int) is None,
                    None => true,
                },
            decreases self.model.threads@.len() - i,
        {
            if self.thread_binding(i).is_some() {
                return i;
            }
            i += 1;
        }
        0
    }

    /// The columns and rows of a terminal in the view: one for every 8 pixels of
    /// width and every 18 of height, within bounds.
    pub fn local_terminal_dimensions(&self) -> (r: (u16, u16))
        ensures
            (r.0 as int, r.1 as int) == terminal_size(self.width as int, self.height as int),
    {
        (clamp_u16(self.width / 8, 20, 240), clamp_u16(self.height / 18, 8, 120))
    }

    /// The terminals that are given a new size when that of the view changed:
    /// those of the threads that have one.
    pub fn resize_local_terminals_for_viewport(&self) -> (r: Vec<usize>)
        ensures
            forall|k: int|
                0 <= k < r@.len() ==> (#[trigger] r@[k]) < self.model.threads@.len()
                    && has_terminal(*self, r@[k] as int),
            forall|k: int| #![trigger r@[k]]
                0 < k < r@.len() ==> r@[k - 1] < r@[k],
            forall|i: int|
                0 <= i < self.model.threads@.len() && #[trigger] has_terminal(*self, i)
                    ==> r@.contains(i as usize),
    {
        let mut out: Vec<usize> = Vec::new();
        let mut i: usize = 0;
        while i < self.model.threads.len()
            invariant
                i <= self.model.threads@.len(),
                forall|k: int|
                    0 <= k < out@.len() ==> (#[trigger] out@[k]) < i && has_terminal(
                        *self,
                        out@[k] as int,
                    ),
                forall|k: int| #![trigger out@[k]] 0 < k < out@.len() ==> out@[k - 1] < out@[k],
                forall|j: int|
                    0 <= j < i && #[trigger] has_terminal(*self, j) ==> out@.contains(j as usize),
            decreases self.model.threads@.len() - i,
        {
            let open: bool = match self.bridge_thread(i) {
                Some(thread) => thread.local_terminal,
                None => false,
            };
            let ghost before = out@;
            if open {
                out.push(i);
                assert(out@[before.len() as int] == i);
            }
            assert forall|j: int| 0 <= j < i + 1 && #[trigger] has_terminal(
                *self,
                j,
            ) implies out@.contains(j as usize) by {
                if j < i {
                    assert(before.contains(j as usize));
                    let k = choose|k: int| 0 <= k < before.len() && before[k] == j as usize;
                    assert(out@[k] == j as usize);
                } else {
                    assert(out@[before.len() as int] == j as usize);
                }
            }
            i += 1;
        }
        out
    }
}

/// Whether a thread has a terminal of the panel's own.
pub open spec fn has_terminal(panel: PanelState, index: int) -> bool {
    match slot(panel, index) {
        Some(thread) => thread.local_terminal,
        None => false,
    }
}

} // verus!
