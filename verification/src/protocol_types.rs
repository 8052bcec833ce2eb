//! The vocabulary that the panel shares with its gateway: chat messages,
//! session capabilities, and the events of a running thread.

use crate::json::{Json, JsonValue};
use crate::text::{clone_optional, optional_text};
use vstd::prelude::*;

verus! {

/// Who a chat message comes from, or that it reports a tool call.
#[derive(Clone, Copy, Debug, PartialEq, Eq, Structural)]
pub enum MessageKind {
    User,
    Agent,
    Thinking,
    ToolCall,
}

/// One entry of a thread's history, as it arrived.
#[derive(Debug, PartialEq)]
pub struct ChatMessage {
    pub kind: MessageKind,
    pub text: String,
    pub status: Option<String>,
    /// The message id of a chunk, or the tool call id of a tool call.
    pub id: Option<String>,
    pub raw_input: Option<JsonValue>,
    pub raw_output: Option<JsonValue>,
}

/// A [`ChatMessage`] as a mathematical value.
#[verifier::ext_equal]
pub struct ChatMessageView {
    pub kind: MessageKind,
    pub text: Seq<char>,
    pub status: Option<Seq<char>>,
    pub id: Option<Seq<char>>,
    pub raw_input: Option<Json>,
    pub raw_output: Option<Json>,
}

/// An optional document as a mathematical value.
pub open spec fn optional_json(o: Option<JsonValue>) -> Option<Json> {
    match o {
        Some(v) => Some(v@),
        None => None,
    }
}

/// A copy of an optional document.
pub fn clone_optional_json(o: &Option<JsonValue>) -> (r: Option<JsonValue>)
    ensures
        optional_json(r) == optional_json(*o),
{
    match o {
        Some(v) => Some(v.clone()),
        None => None,
    }
}

impl View for ChatMessage {
    type V = ChatMessageView;

    open spec fn view(&self) -> ChatMessageView {
        ChatMessageView {
            kind: self.kind,
            text: self.text@,
            status: optional_text(self.status),
            id: optional_text(self.id),
            raw_input: optional_json(self.raw_input),
            raw_output: optional_json(self.raw_output),
        }
    }
}

impl Clone for ChatMessage {
    fn clone(&self) -> (r: ChatMessage)
        ensures
            r@ == self@,
    {
        ChatMessage {
            kind: self.kind,
            text: self.text.clone(),
            status: clone_optional(&self.status),
            id: clone_optional(&self.id),
            raw_input: clone_optional_json(&self.raw_input),
            raw_output: clone_optional_json(&self.raw_output),
        }
    }
}

/// A list of chat messages as mathematical values.
pub open spec fn messages_view(v: Seq<ChatMessage>) -> Seq<ChatMessageView> {
    v.map_values(|m: ChatMessage| m@)
}

/// A request that an agent waits to have answered.
#[derive(Debug, PartialEq)]
pub struct AgentRequestEvent {
    pub relay_id: String,
    pub method: String,
    pub raw_request: JsonValue,
}

/// An [`AgentRequestEvent`] as a mathematical value.
#[verifier::ext_equal]
pub struct AgentRequestView {
    pub relay_id: Seq<char>,
    pub method: Seq<char>,
    pub raw_request: Json,
}

impl View for AgentRequestEvent {
    type V = AgentRequestView;

    open spec fn view(&self) -> AgentRequestView {
        AgentRequestView {
            relay_id: self.relay_id@,
            method: self.method@,
            raw_request: self.raw_request@,
        }
    }
}

/// A mode that an agent offers.
#[derive(Debug, PartialEq)]
pub struct SessionModeInfo {
    pub id: String,
    pub name: String,
    pub description: Option<String>,
}

/// A [`SessionModeInfo`] as a mathematical value.
#[verifier::ext_equal]
pub struct SessionModeView {
    pub id: Seq<char>,
    pub name: Seq<char>,
    pub description: Option<Seq<char>>,
}

impl View for SessionModeInfo {
    type V = SessionModeView;

    open spec fn view(&self) -> SessionModeView {
        SessionModeView {
            id: self.id@,
            name: self.name@,
            description: optional_text(self.description),
        }
    }
}

/// The modes that an agent offers, and the one it is in.
#[derive(Debug, PartialEq)]
pub struct SessionModesEvent {
    pub current_mode_id: String,
    pub available: Vec<SessionModeInfo>,
}

/// A [`SessionModesEvent`] as a mathematical value.
#[verifier::ext_equal]
pub struct SessionModesView {
    pub current_mode_id: Seq<char>,
    pub available: Seq<SessionModeView>,
}

/// A list of modes as mathematical values.
pub open spec fn modes_view(v: Seq<SessionModeInfo>) -> Seq<SessionModeView> {
    v.map_values(|m: SessionModeInfo| m@)
}

impl View for SessionModesEvent {
    type V = SessionModesView;

    open spec fn view(&self) -> SessionModesView {
        SessionModesView {
            current_mode_id: self.current_mode_id@,
            available: modes_view(self.available@),
        }
    }
}

/// One value that a configuration option can take.
#[derive(Debug, PartialEq)]
pub struct ConfigOptionValue {
    pub value: String,
    pub name: String,
    pub description: Option<String>,
}

/// A [`ConfigOptionValue`] as a mathematical value.
#[verifier::ext_equal]
pub struct ConfigValueView {
    pub value: Seq<char>,
    pub name: Seq<char>,
    pub description: Option<Seq<char>>,
}

impl View for ConfigOptionValue {
    type V = ConfigValueView;

    open spec fn view(&self) -> ConfigValueView {
        ConfigValueView {
            value: self.value@,
            name: self.name@,
            description: optional_text(self.description),
        }
    }
}

/// A configuration option that an agent offers.
#[derive(Debug, PartialEq)]
pub struct ConfigOptionInfo {
    pub id: String,
    pub name: String,
    pub description: Option<String>,
    pub category: Option<String>,
    pub kind: String,
    pub current_value: Option<String>,
    pub options: Vec<ConfigOptionValue>,
}

/// A [`ConfigOptionInfo`] as a mathematical value.
#[verifier::ext_equal]
pub struct ConfigOptionView {
    pub id: Seq<char>,
    pub name: Seq<char>,
    pub description: Option<Seq<char>>,
    pub category: Option<Seq<char>>,
    pub kind: Seq<char>,
    pub current_value: Option<Seq<char>>,
    pub options: Seq<ConfigValueView>,
}

/// A list of option values as mathematical values.
pub open spec fn config_values_view(v: Seq<ConfigOptionValue>) -> Seq<ConfigValueView> {
    v.map_values(|o: ConfigOptionValue| o@)
}

impl View for ConfigOptionInfo {
    type V = ConfigOptionView;

    open spec fn view(&self) -> ConfigOptionView {
        ConfigOptionView {
            id: self.id@,
            name: self.name@,
            description: optional_text(self.description),
            category: optional_text(self.category),
            kind: self.kind@,
            current_value: optional_text(self.current_value),
            options: config_values_view(self.options@),
        }
    }
}

/// A list of configuration options as mathematical values.
pub open spec fn config_options_view(v: Seq<ConfigOptionInfo>) -> Seq<ConfigOptionView> {
    v.map_values(|o: ConfigOptionInfo| o@)
}

/// What a terminal has printed so far, and how it ended once it has.
#[derive(Debug, PartialEq)]
pub struct TerminalOutputEvent {
    pub terminal_id: String,
    pub output: String,
    pub truncated: bool,
    /// The exit code and the signal, each where the terminal reported one.
    pub exit_status: Option<(Option<i32>, Option<i32>)>,
}

/// A [`TerminalOutputEvent`] as a mathematical value.
#[verifier::ext_equal]
pub struct TerminalOutputView {
    pub terminal_id: Seq<char>,
    pub output: Seq<char>,
    pub truncated: bool,
    pub exit_status: Option<(Option<i32>, Option<i32>)>,
}

impl View for TerminalOutputEvent {
    type V = TerminalOutputView;

    open spec fn view(&self) -> TerminalOutputView {
        TerminalOutputView {
            terminal_id: self.terminal_id@,
            output: self.output@,
            truncated: self.truncated,
            exit_status: self.exit_status,
        }
    }
}

/// What happens on a thread that is bound to a gateway session.
#[derive(Debug, PartialEq)]
pub enum AgentEvent {
    Message(ChatMessage),
    TurnEnded(String),
    Error(String),
    UsageUpdate { used: i64, size: i64 },
    CurrentModeChanged(String),
    SessionModes(SessionModesEvent),
    ConfigOptions(Vec<ConfigOptionInfo>),
    PermissionRequest(AgentRequestEvent),
    TerminalOutput(TerminalOutputEvent),
}

/// An [`AgentEvent`] as a mathematical value.
#[verifier::ext_equal]
pub enum AgentEventView {
    Message(ChatMessageView),
    TurnEnded(Seq<char>),
    Error(Seq<char>),
    UsageUpdate { used: int, size: int },
    CurrentModeChanged(Seq<char>),
    SessionModes(SessionModesView),
    ConfigOptions(Seq<ConfigOptionView>),
    PermissionRequest(AgentRequestView),
    TerminalOutput(TerminalOutputView),
}

impl View for AgentEvent {
    type V = AgentEventView;

    open spec fn view(&self) -> AgentEventView {
        match self {
            AgentEvent::Message(m) => AgentEventView::Message(m@),
            AgentEvent::TurnEnded(s) => AgentEventView::TurnEnded(s@),
            AgentEvent::Error(s) => AgentEventView::Error(s@),
            AgentEvent::UsageUpdate { used, size } => AgentEventView::UsageUpdate {
                used: *used as int,
                size: *size as int,
            },
            AgentEvent::CurrentModeChanged(s) => AgentEventView::CurrentModeChanged(s@),
            AgentEvent::SessionModes(m) => AgentEventView::SessionModes(m@),
            AgentEvent::ConfigOptions(v) => AgentEventView::ConfigOptions(config_options_view(v@)),
            AgentEvent::PermissionRequest(r) => AgentEventView::PermissionRequest(r@),
            AgentEvent::TerminalOutput(t) => AgentEventView::TerminalOutput(t@),
        }
    }
}

/// A list of events as mathematical values.
pub open spec fn events_view(v: Seq<AgentEvent>) -> Seq<AgentEventView> {
    v.map_values(|e: AgentEvent| e@)
}

} // verus!
