//! What the gateway tells a thread between its commands: requests of the agent,
//! and what terminals print.

use crate::gateway_actor::thread_actor::{parse_terminal_output, terminal_read, update_event};
use crate::json::{str_field, Json, JsonValue};
use crate::protocol_types::{AgentEvent, AgentEventView, AgentRequestEvent, AgentRequestView};
use crate::text::{optional_text, or_empty, text_or};
use vstd::prelude::*;

verus! {

/// A request of the agent, as the gateway relays it: its id, its method where
/// it has one, and the request itself.
#[derive(Debug, PartialEq)]
pub struct RelayedRequest {
    pub relay_id: String,
    pub method: Option<String>,
    pub request: JsonValue,
}

/// The event that a notification stands for, where it relays a request of the
/// agent or carries what a terminal printed.
pub open spec fn aside_event(request: Option<RelayedRequest>, update: Json) -> Option<
    AgentEventView,
> {
    match request {
        Some(relayed) => Some(
            AgentEventView::PermissionRequest(
                AgentRequestView {
                    relay_id: relayed.relay_id@,
                    method: text_or(optional_text(relayed.method), Seq::empty()),
                    raw_request: relayed.request@,
                },
            ),
        ),
        None => match terminal_read(update) {
            Some(printed) => Some(AgentEventView::TerminalOutput(printed)),
            None => None,
        },
    }
}

/// An optional event as a mathematical value.
pub open spec fn optional_event(o: Option<AgentEvent>) -> Option<AgentEventView> {
    match o {
        Some(event) => Some(event@),
        None => None,
    }
}

/// The event that a notification stands for; `request` is what it relays, if
/// anything.
pub fn out_of_band_event(request: Option<RelayedRequest>, update: &JsonValue) -> (r: Option<
    AgentEvent,
>)
    ensures
        optional_event(r) == aside_event(request, update@),
{
    match request {
        Some(relayed) => {
            let method: String = or_empty(&relayed.method);
            Some(
                AgentEvent::PermissionRequest(
                    AgentRequestEvent {
                        relay_id: relayed.relay_id,
                        method,
                        raw_request: relayed.request,
                    },
                ),
            )
        },
        None => match parse_terminal_output(update) {
            Some(printed) => Some(AgentEvent::TerminalOutput(printed)),
            None => None,
        },
    }
}

/// What happened to the connection that notifications come through.
#[derive(Clone, Copy, Debug, PartialEq, Eq, Structural)]
pub enum ForwarderEvent {
    /// Whether there was something to subscribe to.
    Subscribed(bool),
    Notified,
    /// Notifications were lost because they were not taken in time.
    Lagged,
    Closed,
    Disconnected,
    Reconnected(bool),
}

/// What is done next.
#[derive(Clone, Copy, Debug, PartialEq, Eq, Structural)]
pub enum ForwarderStep {
    Subscribe,
    Listen,
    Reconnect,
    Stop,
}

/// What is done first.
pub open spec fn first_step(subscribed: bool) -> ForwarderStep {
    if subscribed {
        ForwarderStep::Subscribe
    } else {
        ForwarderStep::Stop
    }
}

/// Whether notifications are listened for at all: only where there are any to
/// subscribe to.
pub fn forwarder_start(subscribed: bool) -> (r: ForwarderStep)
    ensures
        r == first_step(subscribed),
{
    if subscribed {
        ForwarderStep::Subscribe
    } else {
        ForwarderStep::Stop
    }
}

/// What is done after an event.
pub open spec fn step_after(event: ForwarderEvent) -> ForwarderStep {
    match event {
        ForwarderEvent::Subscribed(true) => ForwarderStep::Listen,
        ForwarderEvent::Subscribed(false) => ForwarderStep::Reconnect,
        ForwarderEvent::Notified => ForwarderStep::Listen,
        ForwarderEvent::Lagged => ForwarderStep::Listen,
        ForwarderEvent::Closed => ForwarderStep::Reconnect,
        ForwarderEvent::Disconnected => ForwarderStep::Reconnect,
        ForwarderEvent::Reconnected(true) => ForwarderStep::Subscribe,
        ForwarderEvent::Reconnected(false) => ForwarderStep::Stop,
    }
}

/// What is done after an event: a connection that ends is made anew, and only
/// where that fails is nothing listened for any more.
pub fn forwarder_step(event: ForwarderEvent) -> (r: ForwarderStep)
    ensures
        r == step_after(event),
{
    match event {
        ForwarderEvent::Subscribed(true) => ForwarderStep::Listen,
        ForwarderEvent::Subscribed(false) => ForwarderStep::Reconnect,
        ForwarderEvent::Notified => ForwarderStep::Listen,
        ForwarderEvent::Lagged => ForwarderStep::Listen,
        ForwarderEvent::Closed => ForwarderStep::Reconnect,
        ForwarderEvent::Disconnected => ForwarderStep::Reconnect,
        ForwarderEvent::Reconnected(true) => ForwarderStep::Subscribe,
        ForwarderEvent::Reconnected(false) => ForwarderStep::Stop,
    }
}

/// No notification is told twice: what is an event here, because of its method,
/// is none for the thread that waits for its command to end.
pub proof fn law_nothing_is_told_twice(update: Json)
    ensures
        update_event(update) is Some ==> terminal_read(update) is None && str_field(
            update,
            "method"@,
        ) != Some("acpx/agent_request"@),
{
    reveal_strlit("session/update");
    reveal_strlit("acpx/terminal_output");
    reveal_strlit("acpx/agent_request");
    assert("session/update"@.len() == 14);
    assert("acpx/terminal_output"@.len() == 20);
    assert("acpx/agent_request"@.len() == 18);
}

/// As long as a connection can be made anew, notifications are listened for
/// again after it ended.
pub proof fn law_forwarding_outlives_the_connection(ended: ForwarderEvent)
    requires
        ended is Closed || ended is Disconnected,
    ensures
        step_after(ended) == ForwarderStep::Reconnect,
        step_after(ForwarderEvent::Reconnected(true)) == ForwarderStep::Subscribe,
        step_after(ForwarderEvent::Subscribed(true)) == ForwarderStep::Listen,
{
}

} // verus!
