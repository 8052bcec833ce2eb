//! The panel's side of a gateway session: what the gateway's notifications
//! mean, and how a thread's commands become gateway calls.

pub mod command_loop;
pub mod forwarder;
pub mod laws;
pub mod session_opener;
pub mod thread_actor;

use crate::json::{field, get_str, str_field, Json, JsonValue};
use crate::protocol_types::{ChatMessage, ChatMessageView, MessageKind};
use crate::text::{optional_text, owned, owned_or, same, text_or};
use vstd::prelude::*;

verus! {

/// What a `session/update` notification reports.
pub open spec fn session_update(update: Json) -> Option<Json> {
    if str_field(update, "method"@) != Some("session/update"@) {
        None
    } else {
        match field(update, "params"@) {
            Some(params) => field(params, "update"@),
            None => None,
        }
    }
}

/// The text of a message chunk.
pub open spec fn chunk_text(update: Json) -> Option<Seq<char>> {
    match field(update, "content"@) {
        Some(content) => str_field(content, "text"@),
        None => None,
    }
}

/// A message chunk as a chat message, where it carries a text.
pub open spec fn chunk_message(update: Json, kind: MessageKind, id: Option<Seq<char>>) -> Option<
    ChatMessageView,
> {
    match chunk_text(update) {
        Some(text) => Some(
            ChatMessageView {
                kind,
                text,
                status: None,
                id,
                raw_input: None,
                raw_output: None,
            },
        ),
        None => None,
    }
}

/// A tool call, or a change of one, as a chat message.
pub open spec fn tool_message(update: Json) -> ChatMessageView {
    ChatMessageView {
        kind: MessageKind::ToolCall,
        text: text_or(str_field(update, "title"@), Seq::empty()),
        status: str_field(update, "status"@),
        id: str_field(update, "toolCallId"@),
        raw_input: field(update, "rawInput"@),
        raw_output: field(update, "rawOutput"@),
    }
}

/// The chat message that an update of kind `kind` stands for. A tool call is
/// always one, even without a title; a change of one only where it has a title
/// or a status.
pub open spec fn message_of_kind(kind: Seq<char>, update: Json) -> Option<ChatMessageView> {
    if kind == "agent_message_chunk"@ {
        chunk_message(update, MessageKind::Agent, str_field(update, "messageId"@))
    } else if kind == "agent_thought_chunk"@ {
        chunk_message(update, MessageKind::Thinking, str_field(update, "messageId"@))
    } else if kind == "user_message_chunk"@ {
        chunk_message(update, MessageKind::User, None)
    } else if kind == "tool_call"@ {
        Some(tool_message(update))
    } else if kind == "tool_call_update"@ {
        if str_field(update, "title"@) is None && str_field(update, "status"@) is None {
            None
        } else {
            Some(tool_message(update))
        }
    } else {
        None
    }
}

/// The chat message that a notification stands for.
pub open spec fn classified(update: Json) -> Option<ChatMessageView> {
    match session_update(update) {
        Some(report) => match str_field(report, "sessionUpdate"@) {
            Some(kind) => message_of_kind(kind, report),
            None => None,
        },
        None => None,
    }
}

/// An optional chat message as a mathematical value.
pub open spec fn optional_message(o: Option<ChatMessage>) -> Option<ChatMessageView> {
    match o {
        Some(m) => Some(m@),
        None => None,
    }
}

pub(crate) fn find_session_update(update: &JsonValue) -> (r: Option<&JsonValue>)
    ensures
        r is Some <==> session_update(update@) is Some,
        r is Some ==> session_update(update@) == Some(r->0@),
{
    match get_str(update, "method") {
        Some(method) => {
            if !same(method, "session/update") {
                return None;
            }
        },
        None => {
            return None;
        },
    }
    match update.get("params") {
        Some(params) => params.get("update"),
        None => None,
    }
}

fn chunk_to_message(report: &JsonValue, kind: MessageKind, id: Option<String>) -> (r: Option<
    ChatMessage,
>)
    ensures
        optional_message(r) == chunk_message(report@, kind, optional_text(id)),
{
    match report.get("content") {
        Some(content) => match get_str(content, "text") {
            Some(text) => Some(
                ChatMessage {
                    kind,
                    text: text.to_owned(),
                    status: None,
                    id,
                    raw_input: None,
                    raw_output: None,
                },
            ),
            None => None,
        },
        None => None,
    }
}

fn clone_field(value: &JsonValue, key: &str) -> (r: Option<JsonValue>)
    ensures
        crate::protocol_types::optional_json(r) == field(value@, key@),
{
    match value.get(key) {
        Some(v) => Some(v.clone()),
        None => None,
    }
}

fn tool_to_message(report: &JsonValue) -> (r: ChatMessage)
    ensures
        r@ == tool_message(report@),
{
    proof {
        reveal_strlit("");
        assert(""@ =~= Seq::<char>::empty());
    }
    ChatMessage {
        kind: MessageKind::ToolCall,
        text: owned_or(get_str(report, "title"), ""),
        status: owned(get_str(report, "status")),
        id: owned(get_str(report, "toolCallId")),
        raw_input: clone_field(report, "rawInput"),
        raw_output: clone_field(report, "rawOutput"),
    }
}

/// Reads a notification as a chat message: nothing where it is not a
/// `session/update`, or one that does not show as a message.
pub fn classify_raw_update(update: &JsonValue) -> (r: Option<ChatMessage>)
    ensures
        optional_message(r) == classified(update@),
{
    let report: &JsonValue = match find_session_update(update) {
        Some(report) => report,
        None => {
            return None;
        },
    };
    let kind: &str = match get_str(report, "sessionUpdate") {
        Some(kind) => kind,
        None => {
            return None;
        },
    };
    if same(kind, "agent_message_chunk") {
        chunk_to_message(report, MessageKind::Agent, owned(get_str(report, "messageId")))
    } else if same(kind, "agent_thought_chunk") {
        chunk_to_message(report, MessageKind::Thinking, owned(get_str(report, "messageId")))
    } else if same(kind, "user_message_chunk") {
        chunk_to_message(report, MessageKind::User, None)
    } else if same(kind, "tool_call") {
        Some(tool_to_message(report))
    } else if same(kind, "tool_call_update") {
        if get_str(report, "title").is_none() && get_str(report, "status").is_none() {
            None
        } else {
            Some(tool_to_message(report))
        }
    } else {
        None
    }
}

} // verus!
