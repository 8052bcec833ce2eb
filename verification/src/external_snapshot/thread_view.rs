//! What one frame shows of the thread that is displayed.

use crate::external_snapshot::thread_list::{placeholder_id, placeholder_thread_id};
use crate::gateway_actor::thread_actor::ProfileSummary;
use crate::json::JsonValue;
use crate::model::{bound, real_index_of, slot, PanelState, ThreadModel};
use crate::protocol_types::{AgentRequestEvent, ChatMessage, ConfigOptionInfo, SessionModesEvent};
use crate::text::{clone_optional, empty_text, optional_text, same, text_or};
use vstd::prelude::*;

verus! {

/// A terminal's output, and whether its process has ended.
#[derive(Debug, Clone, PartialEq, Eq)]
pub struct TerminalBuffer {
    pub output: String,
    pub exited: bool,
}

/// A terminal's buffer by the terminal's id.
#[derive(Debug, Clone, PartialEq, Eq)]
pub struct TerminalSlot {
    pub id: String,
    pub buffer: TerminalBuffer,
}

/// A terminal as it is shown; one whose buffer is gone is shown empty.
#[derive(Debug, Clone, PartialEq, Eq)]
pub struct TerminalView {
    pub id: String,
    pub buffer: Option<TerminalBuffer>,
}

/// How much of its context an agent has used.
#[derive(Debug, Clone, Copy, PartialEq, Eq, Structural)]
pub struct ContextUsage {
    pub used: i64,
    pub size: i64,
}

/// What the bridge has of a thread: its messages and whether there are older
/// ones, the requests that wait for an answer, the ids of the terminals that
/// run, the buffers of terminals, what the agent said of itself, the terminal of
/// the user, and the agent's use of its context, commands and plan.
#[derive(Debug, PartialEq)]
pub struct BridgeFrame {
    pub transcript: Vec<ChatMessage>,
    pub has_older_messages: bool,
    pub pending_requests: Vec<AgentRequestEvent>,
    pub active_terminals: Vec<String>,
    pub buffers: Vec<TerminalSlot>,
    pub connection_status: String,
    pub session_modes: Option<SessionModesEvent>,
    pub config_options: Vec<ConfigOptionInfo>,
    pub session_title: Option<String>,
    pub local_terminal: Option<TerminalBuffer>,
    pub usage: Option<ContextUsage>,
    pub available_commands: Vec<JsonValue>,
    pub plan: Vec<JsonValue>,
}

/// What a frame shows of a thread.
#[derive(Debug, PartialEq)]
pub struct ThreadFrameSnapshot {
    pub thread_id: String,
    pub real_index: usize,
    pub selected_provider: String,
    pub selected_profile: Option<String>,
    pub transcript: Vec<ChatMessage>,
    pub has_older_messages: bool,
    pub pending_request: Option<AgentRequestEvent>,
    pub terminals: Vec<TerminalView>,
    pub expanded_terminal: Option<TerminalView>,
    pub open_terminals: Vec<TerminalView>,
    pub connection_status: String,
    pub session_modes: Option<SessionModesEvent>,
    pub config_options: Vec<ConfigOptionInfo>,
    pub session_title: Option<String>,
    pub local_terminal: Option<TerminalBuffer>,
    pub usage: Option<ContextUsage>,
    pub available_commands: Vec<JsonValue>,
    pub plan: Vec<JsonValue>,
}

/// The profile that a thread was given.
pub open spec fn profile_of(panel: PanelState, index: int) -> Option<String> {
    if 0 <= index < panel.model.threads@.len() {
        panel.model.threads@[index].profile_name
    } else {
        None
    }
}

/// The agent of the first profile, from a position on, that has a name.
pub open spec fn agent_of_profile(
    profiles: Seq<ProfileSummary>,
    name: Seq<char>,
    from: int,
) -> Option<Seq<char>>
    decreases profiles.len() - from,
{
    if from < 0 || from >= profiles.len() {
        None
    } else if profiles[from].name@ == name {
        Some(profiles[from].agent_id@)
    } else {
        agent_of_profile(profiles, name, from + 1)
    }
}

/// The agent of the profile that a thread was given, where the profile is
/// registered.
pub open spec fn profile_agent(panel: PanelState, index: int) -> Option<Seq<char>> {
    match profile_of(panel, index) {
        Some(name) => agent_of_profile(panel.model.available_profiles@, name@, 0),
        None => None,
    }
}

/// The provider that is selected for a thread: that of its profile, else its
/// own, else the one that the bridge opened it with.
pub open spec fn chosen_provider(panel: PanelState, index: int) -> Seq<char> {
    match profile_agent(panel, index) {
        Some(agent) => agent,
        None => if 0 <= index < panel.model.threads@.len()
            && panel.model.threads@[index].provider@.len() > 0 {
            panel.model.threads@[index].provider@
        } else {
            match slot(panel, index) {
                Some(slot) => text_or(optional_text(slot.provider), Seq::empty()),
                None => Seq::empty(),
            }
        },
    }
}

/// The id under which a frame shows a thread.
pub open spec fn shown_id(panel: PanelState, index: int) -> Seq<char> {
    match bound(panel, index) {
        Some(binding) => binding.thread_id@,
        None => if 0 <= index < panel.model.threads@.len() {
            panel.model.threads@[index].thread_id@
        } else {
            placeholder_id(index)
        },
    }
}

/// The first buffer, from a position on, of a terminal.
pub open spec fn buffer_of(
    buffers: Seq<TerminalSlot>,
    id: Seq<char>,
    from: int,
) -> Option<TerminalBuffer>
    decreases buffers.len() - from,
{
    if from < 0 || from >= buffers.len() {
        None
    } else if buffers[from].id@ == id {
        Some(buffers[from].buffer)
    } else {
        buffer_of(buffers, id, from + 1)
    }
}

/// The terminals with given ids, in that order.
pub open spec fn terminals_shown(
    buffers: Seq<TerminalSlot>,
    ids: Seq<String>,
    shown: Seq<TerminalView>,
) -> bool {
    shown.len() == ids.len() && forall|k: int|
        0 <= k < ids.len() ==> (#[trigger] shown[k]) == (TerminalView {
            id: ids[k],
            buffer: buffer_of(buffers, ids[k]@, 0),
        })
}

fn find_agent(profiles: &Vec<ProfileSummary>, name: &str) -> (r: Option<String>)
    ensures
        optional_text(r) == agent_of_profile(profiles@, name@, 0),
{
    let mut i: usize = 0;
    while i < profiles.len()
        invariant
            i <= profiles@.len(),
            agent_of_profile(profiles@, name@, 0) == agent_of_profile(profiles@, name@, i as int),
        decreases profiles@.len() - i,
    {
        if same(profiles[i].name.as_str(), name) {
            return Some(profiles[i].agent_id.clone());
        }
        i += 1;
    }
    None
}

/// The provider that is selected for a thread.
pub fn selected_provider(panel: &PanelState, index: usize) -> (r: String)
    ensures
        r@ == chosen_provider(*panel, index as int),
{
    if index < panel.model.threads.len() {
        let thread: &ThreadModel = &panel.model.threads[index];
        if let Some(profile) = &thread.profile_name {
            if let Some(agent) = find_agent(&panel.model.available_profiles, profile.as_str()) {
                return agent;
            }
        }
        if thread.provider.as_str().unicode_len() > 0 {
            return thread.provider.clone();
        }
    }
    match panel.bridge_thread(index) {
        Some(slot) => match &slot.provider {
            Some(provider) => provider.clone(),
            None => empty_text(),
        },
        None => empty_text(),
    }
}

fn copy_buffer(buffer: &TerminalBuffer) -> (r: TerminalBuffer)
    ensures
        r == *buffer,
{
    TerminalBuffer { output: buffer.output.clone(), exited: buffer.exited }
}

fn find_buffer(buffers: &Vec<TerminalSlot>, id: &str) -> (r: Option<TerminalBuffer>)
    ensures
        r == buffer_of(buffers@, id@, 0),
{
    let mut i: usize = 0;
    while i < buffers.len()
        invariant
            i <= buffers@.len(),
            buffer_of(buffers@, id@, 0) == buffer_of(buffers@, id@, i as int),
        decreases buffers@.len() - i,
    {
        if same(buffers[i].id.as_str(), id) {
            return Some(copy_buffer(&buffers[i].buffer));
        }
        i += 1;
    }
    None
}

fn show_terminals(buffers: &Vec<TerminalSlot>, ids: &Vec<String>) -> (r: Vec<TerminalView>)
    ensures
        terminals_shown(buffers@, ids@, r@),
{
    let mut out: Vec<TerminalView> = Vec::new();
    let mut i: usize = 0;
    while i < ids.len()
        invariant
            i <= ids@.len(),
            out@.len() == i,
            forall|k: int|
                0 <= k < i ==> (#[trigger] out@[k]) == (TerminalView {
                    id: ids@[k],
                    buffer: buffer_of(buffers@, ids@[k]@, 0),
                }),
        decreases ids@.len() - i,
    {
        let buffer: Option<TerminalBuffer> = find_buffer(buffers, ids[i].as_str());
        out.push(TerminalView { id: ids[i].clone(), buffer });
        i += 1;
    }
    out
}

/// The terminal that is shown large: the one that was chosen, while it has a
/// buffer.
pub open spec fn expanded_of(panel: PanelState, frame: BridgeFrame) -> Option<TerminalView> {
    match panel.model.expanded_terminal_id {
        Some(id) => match buffer_of(frame.buffers@, id@, 0) {
            Some(buffer) => Some(TerminalView { id, buffer: Some(buffer) }),
            None => None,
        },
        None => None,
    }
}

/// Whether `shown` is what a frame shows of a thread. Of the requests that wait,
/// the first is shown.
pub open spec fn thread_shown(
    panel: PanelState,
    index: usize,
    frame: BridgeFrame,
    shown: ThreadFrameSnapshot,
) -> bool {
    &&& shown.thread_id@ == shown_id(panel, index as int)
    &&& shown.real_index == index
    &&& shown.selected_provider@ == chosen_provider(panel, index as int)
    &&& shown.selected_profile == profile_of(panel, index as int)
    &&& shown.pending_request == (if frame.pending_requests@.len() > 0 {
        Some(frame.pending_requests@[0])
    } else {
        None
    })
    &&& terminals_shown(frame.buffers@, frame.active_terminals@, shown.terminals@)
    &&& shown.expanded_terminal == expanded_of(panel, frame)
    &&& terminals_shown(
        frame.buffers@,
        panel.model.open_terminal_ids@,
        shown.open_terminals@,
    )
    &&& shown.transcript == frame.transcript
    &&& shown.has_older_messages == frame.has_older_messages
    &&& shown.connection_status == frame.connection_status
    &&& shown.session_modes == frame.session_modes
    &&& shown.config_options == frame.config_options
    &&& shown.session_title == frame.session_title
    &&& shown.local_terminal == frame.local_terminal
    &&& shown.usage == frame.usage
    &&& shown.available_commands == frame.available_commands
    &&& shown.plan == frame.plan
}

/// What a frame shows of a thread; nothing without a bridge.
pub fn collect_thread_snapshot_for(
    panel: &PanelState,
    index: usize,
    frame: BridgeFrame,
) -> (r: Option<ThreadFrameSnapshot>)
    ensures
        r is Some <==> panel.bridge is Some,
        r is Some ==> thread_shown(*panel, index, frame, r->0),
{
    if panel.bridge.is_none() {
        return None;
    }
    let thread_id: String = match panel.thread_binding(index) {
        Some(binding) => binding.thread_id.clone(),
        None => if index < panel.model.threads.len() {
            panel.model.threads[index].thread_id.clone()
        } else {
            placeholder_thread_id(index)
        },
    };
    let selected_profile: Option<String> = if index < panel.model.threads.len() {
        clone_optional(&panel.model.threads[index].profile_name)
    } else {
        None
    };
    let mut pending: Vec<AgentRequestEvent> = frame.pending_requests;
    let pending_request: Option<AgentRequestEvent> = if pending.len() > 0 {
        Some(pending.remove(0))
    } else {
        None
    };
    let expanded_terminal: Option<TerminalView> = match &panel.model.expanded_terminal_id {
        Some(id) => match find_buffer(&frame.buffers, id.as_str()) {
            Some(buffer) => Some(TerminalView { id: id.clone(), buffer: Some(buffer) }),
            None => None,
        },
        None => None,
    };
    Some(
        ThreadFrameSnapshot {
            thread_id,
            real_index: index,
            selected_provider: selected_provider(panel, index),
            selected_profile,
            transcript: frame.transcript,
            has_older_messages: frame.has_older_messages,
            pending_request,
            terminals: show_terminals(&frame.buffers, &frame.active_terminals),
            expanded_terminal,
            open_terminals: show_terminals(&frame.buffers, &panel.model.open_terminal_ids),
            connection_status: frame.connection_status,
            session_modes: frame.session_modes,
            config_options: frame.config_options,
            session_title: frame.session_title,
            local_terminal: frame.local_terminal,
            usage: frame.usage,
            available_commands: frame.available_commands,
            plan: frame.plan,
        },
    )
}

/// The thread that is selected, where there is a bridge.
pub open spec fn selected_of(panel: PanelState) -> Option<usize> {
    if panel.bridge is Some {
        real_index_of(panel.model, panel.model.selected_thread as int)
    } else {
        None
    }
}

/// The thread whose frame is shown: the one of the selected row.
pub fn collect_selected_thread_snapshot(panel: &PanelState) -> (r: Option<usize>)
    ensures
        r == selected_of(*panel),
{
    if panel.bridge.is_some() {
        panel.model.real_index(panel.model.selected_thread)
    } else {
        None
    }
}

/// A tab that was opened stays in its place, whether or not its terminal still
/// has a buffer.
pub proof fn law_open_tabs_stay(
    buffers: Seq<TerminalSlot>,
    later: Seq<TerminalSlot>,
    ids: Seq<String>,
    shown: Seq<TerminalView>,
    shown_later: Seq<TerminalView>,
)
    requires
        terminals_shown(buffers, ids, shown),
        terminals_shown(later, ids, shown_later),
    ensures
        shown.len() == shown_later.len(),
        forall|k: int| 0 <= k < shown.len() ==> (#[trigger] shown[k]).id == shown_later[k].id,
{
}

} // verus!
