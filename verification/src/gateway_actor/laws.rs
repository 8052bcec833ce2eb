//! What notifications are read as, said of the fields that they hold.

use crate::gateway_actor::classified;
use crate::gateway_actor::forwarder::{
    aside_event, first_step, step_after, ForwarderEvent, ForwarderStep, RelayedRequest,
};
use crate::gateway_actor::session_opener::{
    create_read, creates, key_profile, profile_key, resume_read, resumes_to, CallResult, OpenError,
    PoolKey,
};
use crate::gateway_actor::thread_actor::{
    advertised, config_entry, config_read, config_value_entry, entries_read, mode_entry, modes_read,
    profile_entry, profiles_read, terminal_read, update_event, update_events,
};
use crate::json::{field, has_only, i64_field, items_field, lemma_two_fields, str_field, Json};
use crate::protocol_types::{AgentEventView, ConfigOptionView, ConfigValueView, MessageKind};
use crate::seqs::{lemma_picked_add, lemma_picked_all, picked};
use vstd::prelude::*;

verus! {

/// Whether a notification is a `session/update` of a kind, with what it reports.
pub open spec fn reports(update: Json, kind: Seq<char>, report: Json) -> bool {
    &&& str_field(update, "method"@) == Some("session/update"@)
    &&& field(update, "params"@) is Some
    &&& field(field(update, "params"@)->0, "update"@) == Some(report)
    &&& str_field(report, "sessionUpdate"@) == Some(kind)
}

proof fn lemma_kinds_differ()
    ensures
        "agent_message_chunk"@ != "agent_thought_chunk"@,
        "agent_message_chunk"@ != "user_message_chunk"@,
        "agent_message_chunk"@ != "tool_call"@,
        "agent_message_chunk"@ != "tool_call_update"@,
        "agent_thought_chunk"@ != "user_message_chunk"@,
        "agent_thought_chunk"@ != "tool_call"@,
        "agent_thought_chunk"@ != "tool_call_update"@,
        "user_message_chunk"@ != "tool_call"@,
        "user_message_chunk"@ != "tool_call_update"@,
        "tool_call"@ != "tool_call_update"@,
        "usage_update"@ != "current_mode_update"@,
        "usage_update"@ != "config_option_update"@,
        "current_mode_update"@ != "config_option_update"@,
        "current_mode_update"@ != "agent_message_chunk"@,
        "current_mode_update"@ != "agent_thought_chunk"@,
        "usage_update"@.len() == 12,
        "current_mode_update"@.len() == 19,
        "config_option_update"@.len() == 20,
        "agent_message_chunk"@.len() == 19,
        "agent_thought_chunk"@.len() == 19,
        "user_message_chunk"@.len() == 18,
        "tool_call"@.len() == 9,
        "tool_call_update"@.len() == 16,
{
    reveal_strlit("agent_message_chunk");
    reveal_strlit("agent_thought_chunk");
    reveal_strlit("user_message_chunk");
    reveal_strlit("tool_call");
    reveal_strlit("tool_call_update");
    reveal_strlit("usage_update");
    reveal_strlit("current_mode_update");
    reveal_strlit("config_option_update");
    assert("user_message_chunk"@.len() == 18 && "tool_call"@.len() == 9);
    assert("tool_call_update"@.len() == 16 && "usage_update"@.len() == 12);
    assert("current_mode_update"@.len() == 19 && "config_option_update"@.len() == 20);
    assert("agent_message_chunk"@[6] != "agent_thought_chunk"@[6]);
    assert("current_mode_update"@[0] != "agent_message_chunk"@[0]);
    assert("current_mode_update"@[0] != "agent_thought_chunk"@[0]);
}

/// A message is read from a notification as said by whom its kind names: what
/// the user said comes from `user_message_chunk` alone, answers from
/// `agent_message_chunk`, thoughts from `agent_thought_chunk`, and tool calls
/// from the two notifications of tool calls.
pub proof fn law_messages_keep_their_speaker(update: Json, kind: Seq<char>, report: Json)
    requires
        reports(update, kind, report),
        classified(update) is Some,
    ensures
        classified(update)->0.kind == MessageKind::User <==> kind == "user_message_chunk"@,
        classified(update)->0.kind == MessageKind::Agent <==> kind == "agent_message_chunk"@,
        classified(update)->0.kind == MessageKind::Thinking <==> kind == "agent_thought_chunk"@,
        classified(update)->0.kind == MessageKind::ToolCall <==> (kind == "tool_call"@ || kind
            == "tool_call_update"@),
{
    lemma_kinds_differ();
}

/// A chunk with a text is read as a message with just that text. It bears the
/// chunk's `messageId`, but for what the user said, which bears none; it has no
/// status and no payloads.
pub proof fn law_chunk_is_read_with_its_text(
    update: Json,
    kind: Seq<char>,
    report: Json,
    content: Json,
    text: Seq<char>,
)
    requires
        reports(update, kind, report),
        kind == "user_message_chunk"@ || kind == "agent_message_chunk"@ || kind
            == "agent_thought_chunk"@,
        field(report, "content"@) == Some(content),
        str_field(content, "text"@) == Some(text),
    ensures
        classified(update) is Some,
        classified(update)->0.text == text,
        kind == "user_message_chunk"@ ==> classified(update)->0.id is None,
        kind != "user_message_chunk"@ ==> classified(update)->0.id == str_field(
            report,
            "messageId"@,
        ),
        classified(update)->0.status is None,
        classified(update)->0.raw_input is None,
        classified(update)->0.raw_output is None,
{
    lemma_kinds_differ();
}

/// A chunk without a text is no message.
pub proof fn law_chunk_without_text_is_no_message(update: Json, kind: Seq<char>, report: Json)
    requires
        reports(update, kind, report),
        kind == "user_message_chunk"@ || kind == "agent_message_chunk"@ || kind
            == "agent_thought_chunk"@,
        field(report, "content"@) is None || str_field(
            field(report, "content"@)->0,
            "text"@,
        ) is None,
    ensures
        classified(update) is None,
{
    lemma_kinds_differ();
}

/// A tool call is read with its title, its status, its id and its payloads. A
/// change of one is read alike where it has a title or a status, and is no
/// message where it has neither.
pub proof fn law_tool_call_is_read(update: Json, kind: Seq<char>, report: Json)
    requires
        reports(update, kind, report),
        kind == "tool_call"@ || kind == "tool_call_update"@,
    ensures
        classified(update) is None <==> kind == "tool_call_update"@ && str_field(
            report,
            "title"@,
        ) is None && str_field(report, "status"@) is None,
        classified(update) matches Some(m) ==> {
            &&& m.kind == MessageKind::ToolCall
            &&& str_field(report, "title"@) is Some ==> m.text == str_field(report, "title"@)->0
            &&& str_field(report, "title"@) is None ==> m.text.len() == 0
            &&& m.status == str_field(report, "status"@)
            &&& m.id == str_field(report, "toolCallId"@)
            &&& m.raw_input == field(report, "rawInput"@)
            &&& m.raw_output == field(report, "rawOutput"@)
        },
{
    lemma_kinds_differ();
}

/// Only a `session/update` of one of five kinds is a message.
pub proof fn law_nothing_else_is_a_message(update: Json)
    requires
        classified(update) is Some,
    ensures
        exists|kind: Seq<char>, report: Json| #[trigger]
            reports(update, kind, report) && (kind == "user_message_chunk"@ || kind
                == "agent_message_chunk"@ || kind == "agent_thought_chunk"@ || kind
                == "tool_call"@ || kind == "tool_call_update"@),
{
    let report = field(field(update, "params"@)->0, "update"@)->0;
    let kind = str_field(report, "sessionUpdate"@)->0;
    assert(reports(update, kind, report));
}

/// A report of usage gives its two numbers, zero where one is missing.
pub proof fn law_usage_is_told(update: Json, report: Json)
    requires
        reports(update, "usage_update"@, report),
    ensures
        update_event(update) is Some,
        update_event(update)->0 is UsageUpdate,
        i64_field(report, "used"@) matches Some(n) ==> update_event(update)->0->used == n,
        i64_field(report, "used"@) is None ==> update_event(update)->0->used == 0,
        i64_field(report, "size"@) matches Some(n) ==> update_event(update)->0->size == n,
        i64_field(report, "size"@) is None ==> update_event(update)->0->size == 0,
{
    lemma_kinds_differ();
}

/// A change of the mode gives the mode that it names, and nothing where it names
/// none.
pub proof fn law_mode_change_is_told(update: Json, report: Json)
    requires
        reports(update, "current_mode_update"@, report),
    ensures
        str_field(report, "currentModeId"@) matches Some(id) ==> update_event(update) == Some(
            AgentEventView::CurrentModeChanged(id),
        ),
        str_field(report, "currentModeId"@) is None ==> update_event(update) is None,
{
    lemma_kinds_differ();
}

/// Where each option of a list has an id, a change of the options gives all of
/// them, in order.
pub proof fn law_option_change_is_told(update: Json, report: Json, entries: Seq<Json>)
    requires
        reports(update, "config_option_update"@, report),
        items_field(report, "configOptions"@) == Some(entries),
        forall|i: int| 0 <= i < entries.len() ==> str_field(#[trigger] entries[i], "id"@) is Some,
    ensures
        update_event(update) is Some,
        update_event(update)->0 is ConfigOptions,
        update_event(update)->0->ConfigOptions_0.len() == entries.len(),
        forall|i: int|
            0 <= i < entries.len() ==> (#[trigger] update_event(
                update,
            )->0->ConfigOptions_0[i]).id == str_field(entries[i], "id"@)->0,
{
    lemma_kinds_differ();
    let list = field(report, "configOptions"@)->0;
    law_options_are_read(list, entries);
}

/// A message is told as a message, whatever else a notification may hold.
pub proof fn law_message_is_told(update: Json)
    requires
        classified(update) is Some,
    ensures
        update_event(update) == Some(AgentEventView::Message(classified(update)->0)),
{
}

/// Notifications are told in their order: what a list gives is what its parts
/// give, one after the other.
pub proof fn law_updates_are_told_in_order(first: Seq<Json>, second: Seq<Json>, one: Json)
    ensures
        update_events(first + second) == update_events(first) + update_events(second),
        update_events(Seq::empty()).len() == 0,
        update_event(one) matches Some(event) ==> update_events(seq![one]) == seq![event],
        update_event(one) is None ==> update_events(seq![one]).len() == 0,
{
    let f = |update: Json| update_event(update);
    lemma_picked_add(first, second, f);
    let single = seq![one];
    assert(single.drop_last() =~= Seq::empty());
    assert(picked(single.drop_last(), f) =~= Seq::empty());
    if update_event(one) is Some {
        assert(picked(single, f) =~= seq![update_event(one)->0]);
    }
}

/// A mode is read with its id, its name, and what it is said to do; without an
/// id it is none.
pub proof fn law_mode_is_read(mode: Json)
    ensures
        mode_entry(mode) is Some <==> str_field(mode, "id"@) is Some,
        mode_entry(mode) matches Some(m) ==> {
            &&& m.id == str_field(mode, "id"@)->0
            &&& str_field(mode, "name"@) matches Some(name) ==> m.name == name
            &&& str_field(mode, "name"@) is None ==> m.name.len() == 0
            &&& m.description == str_field(mode, "description"@)
        },
{
}

/// Modes are read in order, with the one that is current.
pub proof fn law_modes_are_read(modes: Json, entries: Seq<Json>)
    requires
        items_field(modes, "availableModes"@) == Some(entries),
        str_field(modes, "currentModeId"@) is Some,
        forall|i: int| 0 <= i < entries.len() ==> str_field(#[trigger] entries[i], "id"@) is Some,
    ensures
        modes_read(modes) is Some,
        modes_read(modes)->0.current_mode_id == str_field(modes, "currentModeId"@)->0,
        modes_read(modes)->0.available.len() == entries.len(),
        forall|i: int|
            0 <= i < entries.len() ==> Some(#[trigger] modes_read(modes)->0.available[i])
                == mode_entry(entries[i]),
{
    let f = |mode: Json| mode_entry(mode);
    let out = Seq::new(entries.len(), |i: int| mode_entry(entries[i])->0);
    assert forall|i: int| 0 <= i < entries.len() implies f(#[trigger] entries[i]) == Some(
        out[i],
    ) by {
        assert(str_field(entries[i], "id"@) is Some);
    }
    lemma_picked_all(entries, f, out);
}

/// One value of an option is read with its name and what it is said to do.
pub proof fn law_option_value_is_read(value: Json)
    ensures
        config_value_entry(value) is Some <==> str_field(value, "value"@) is Some,
        config_value_entry(value) matches Some(v) ==> {
            &&& v.value == str_field(value, "value"@)->0
            &&& str_field(value, "name"@) matches Some(name) ==> v.name == name
            &&& str_field(value, "name"@) is None ==> v.name.len() == 0
            &&& v.description == str_field(value, "description"@)
        },
{
}

/// An option is read with its id, its name (the id where it has none), its kind,
/// its category, its value, and the values that it can take.
pub proof fn law_option_is_read(entry: Json)
    ensures
        config_entry(entry) is Some <==> str_field(entry, "id"@) is Some,
        config_entry(entry) matches Some(o) ==> {
            &&& o.id == str_field(entry, "id"@)->0
            &&& str_field(entry, "name"@) matches Some(name) ==> o.name == name
            &&& str_field(entry, "name"@) is None ==> o.name == o.id
            &&& o.description == str_field(entry, "description"@)
            &&& o.category == str_field(entry, "category"@)
            &&& str_field(entry, "type"@) matches Some(kind) ==> o.kind == kind
            &&& str_field(entry, "type"@) is None ==> o.kind == "select"@
            &&& o.current_value == str_field(entry, "currentValue"@)
            &&& items_field(entry, "options"@) is None ==> o.options.len() == 0
        },
{
}

/// Where each value of an option has one, all of them are read, in order.
pub proof fn law_option_values_are_read(entry: Json, values: Seq<Json>)
    requires
        str_field(entry, "id"@) is Some,
        items_field(entry, "options"@) == Some(values),
        forall|i: int|
            0 <= i < values.len() ==> str_field(#[trigger] values[i], "value"@) is Some,
    ensures
        config_entry(entry)->0.options.len() == values.len(),
        forall|i: int|
            0 <= i < values.len() ==> Some(#[trigger] config_entry(entry)->0.options[i])
                == config_value_entry(values[i]),
{
    let f = |value: Json| config_value_entry(value);
    let out: Seq<ConfigValueView> = Seq::new(
        values.len(),
        |i: int| config_value_entry(values[i])->0,
    );
    assert forall|i: int| 0 <= i < values.len() implies f(#[trigger] values[i]) == Some(out[i]) by {
        assert(str_field(values[i], "value"@) is Some);
    }
    lemma_picked_all(values, f, out);
}

/// Where each option of a list has an id, all of them are read, in order.
pub proof fn law_options_are_read(list: Json, entries: Seq<Json>)
    requires
        list == Json::Array(entries),
        forall|i: int| 0 <= i < entries.len() ==> str_field(#[trigger] entries[i], "id"@) is Some,
    ensures
        config_read(list) is Some,
        config_read(list)->0.len() == entries.len(),
        forall|i: int|
            0 <= i < entries.len() ==> Some(#[trigger] config_read(list)->0[i]) == config_entry(
                entries[i],
            ),
        forall|i: int|
            0 <= i < entries.len() ==> (#[trigger] config_read(list)->0[i]).id == str_field(
                entries[i],
                "id"@,
            )->0,
{
    let f = |entry: Json| config_entry(entry);
    let out: Seq<ConfigOptionView> = Seq::new(
        entries.len(),
        |i: int| config_entry(entries[i])->0,
    );
    assert forall|i: int| 0 <= i < entries.len() implies f(#[trigger] entries[i]) == Some(
        out[i],
    ) by {
        assert(str_field(entries[i], "id"@) is Some);
    }
    lemma_picked_all(entries, f, out);
}

/// An answer to opening a session tells its modes and then its options, each
/// where it has them, and nothing else.
pub proof fn law_answer_tells_modes_and_options(value: Json)
    ensures
        ({
            let modes = match field(value, "modes"@) {
                Some(m) => modes_read(m),
                None => None,
            };
            let options = match field(value, "configOptions"@) {
                Some(list) => config_read(list),
                None => None,
            };
            let told = advertised(value);
            &&& modes is None && options is None ==> told.len() == 0
            &&& modes matches Some(m) ==> told.len() > 0 && told[0]
                == AgentEventView::SessionModes(m)
            &&& options matches Some(o) ==> told.len() > 0 && told.last()
                == AgentEventView::ConfigOptions(o)
            &&& modes is Some && options is Some ==> told.len() == 2
            &&& (modes is Some) != (options is Some) ==> told.len() == 1
        }),
{
}

/// A notification of a terminal is read with its id and all that the terminal
/// printed; it is cut off only where it says so, and has ended only where it
/// says how.
pub proof fn law_terminal_output_is_read(value: Json, params: Json)
    requires
        str_field(value, "method"@) == Some("acpx/terminal_output"@),
        field(value, "params"@) == Some(params),
    ensures
        terminal_read(value) is Some <==> str_field(params, "terminalId"@) is Some && str_field(
            params,
            "output"@,
        ) is Some,
        terminal_read(value) matches Some(t) ==> {
            &&& t.terminal_id == str_field(params, "terminalId"@)->0
            &&& t.output == str_field(params, "output"@)->0
            &&& t.truncated <==> field(params, "truncated"@) == Some(Json::Bool(true))
            &&& t.exit_status is None <==> field(params, "exitStatus"@) is None || field(
                params,
                "exitStatus"@,
            ) == Some(Json::Null)
        },
{
}

/// A terminal that ended is read with its exit code and its signal, each where
/// it is given.
pub proof fn law_exit_status_is_read(value: Json, params: Json, status: Json)
    requires
        str_field(value, "method"@) == Some("acpx/terminal_output"@),
        field(value, "params"@) == Some(params),
        field(params, "exitStatus"@) == Some(status),
        status != Json::Null,
        terminal_read(value) is Some,
    ensures
        terminal_read(value)->0.exit_status matches Some((code, signal)) && {
            &&& code is Some <==> i64_field(status, "exitCode"@) is Some
            &&& signal is Some <==> i64_field(status, "signal"@) is Some
            &&& i64_field(status, "exitCode"@) matches Some(n) ==> i32::MIN <= n <= i32::MAX
                ==> code == Some(n as i32)
            &&& i64_field(status, "signal"@) matches Some(n) ==> i32::MIN <= n <= i32::MAX
                ==> signal == Some(n as i32)
        },
{
}

/// A profile is read with its name, its agent, and what it allows; it allows
/// only what it says.
pub proof fn law_profile_is_read(profile: Json)
    ensures
        profile_entry(profile) is Some <==> str_field(profile, "name"@) is Some,
        profile_entry(profile) matches Some(p) ==> {
            &&& p.name == str_field(profile, "name"@)->0
            &&& str_field(profile, "agent_id"@) matches Some(id) ==> p.agent_id == id
            &&& str_field(profile, "agent_id"@) is None ==> p.agent_id.len() == 0
            &&& p.allow_terminal_access <==> field(profile, "allow_terminal_access"@) == Some(
                Json::Bool(true),
            )
            &&& p.allow_fs_access <==> field(profile, "allow_fs_access"@) == Some(
                Json::Bool(true),
            )
        },
{
}

/// Where each profile of a list has a name, all of them are read, in order.
pub proof fn law_profiles_are_read(value: Json, entries: Seq<Json>)
    requires
        items_field(value, "profiles"@) == Some(entries),
        forall|i: int|
            0 <= i < entries.len() ==> str_field(#[trigger] entries[i], "name"@) is Some,
    ensures
        profiles_read(value).len() == entries.len(),
        forall|i: int|
            0 <= i < entries.len() ==> Some(#[trigger] profiles_read(value)[i]) == profile_entry(
                entries[i],
            ),
{
    let f = |profile: Json| profile_entry(profile);
    let out = Seq::new(entries.len(), |i: int| profile_entry(entries[i])->0);
    assert forall|i: int| 0 <= i < entries.len() implies f(#[trigger] entries[i]) == Some(
        out[i],
    ) by {
        assert(str_field(entries[i], "name"@) is Some);
    }
    lemma_picked_all(entries, f, out);
}

/// A list that an answer holds is given whole; where there is none, nothing is.
pub proof fn law_entries_are_given_whole(value: Json, key: Seq<char>)
    ensures
        items_field(value, key) matches Some(entries) ==> entries_read(value, key) == entries,
        items_field(value, key) is None ==> entries_read(value, key).len() == 0,
{
}

/// A request of the agent is told with its id, its method and the request itself,
/// and comes before what a terminal printed.
pub proof fn law_request_is_told(request: RelayedRequest, update: Json)
    ensures
        aside_event(Some(request), update) matches Some(AgentEventView::PermissionRequest(r)) && {
            &&& r.relay_id == request.relay_id@
            &&& r.raw_request == request.request@
            &&& request.method matches Some(method) ==> r.method == method@
            &&& request.method is None ==> r.method.len() == 0
        },
{
}

/// What a terminal printed is told where no request is relayed, and nothing else
/// is told beside it.
pub proof fn law_terminal_is_told(update: Json)
    ensures
        terminal_read(update) matches Some(t) ==> aside_event(None, update) == Some(
            AgentEventView::TerminalOutput(t),
        ),
        terminal_read(update) is None ==> aside_event(None, update) is None,
{
}

/// Nothing but a failed new connection ends the listening, and what was lost
/// does not.
pub proof fn law_only_a_failed_connection_stops(event: ForwarderEvent)
    ensures
        step_after(event) == ForwarderStep::Stop <==> event == ForwarderEvent::Reconnected(false),
        event is Lagged || event is Notified ==> step_after(event) == ForwarderStep::Listen,
        event == ForwarderEvent::Subscribed(false) ==> step_after(event)
            == ForwarderStep::Reconnect,
{
}

/// Notifications are listened for where there are any.
pub proof fn law_listening_starts_where_it_can()
    ensures
        first_step(true) == ForwarderStep::Subscribe,
        first_step(false) == ForwarderStep::Stop,
{
}

/// A session of a pool is taken up again by its own id, in the project's
/// directory and under the profile of its key.
pub proof fn law_pool_resumes_the_saved_session(key: PoolKey, saved: Seq<char>)
    ensures
        ({
            let call = resume_read(key, saved);
            &&& call.method == "session/resume"@
            &&& str_field(call.params, "sessionId"@) == Some(saved)
            &&& str_field(call.params, "cwd"@) == Some(key.project_dir@)
            &&& has_only(call.params, seq!["sessionId"@, "cwd"@])
            &&& key.provider_profile@ == "__default__"@ ==> call.profile is None
            &&& key.provider_profile@ != "__default__"@ ==> call.profile == Some(
                key.provider_profile@,
            )
            &&& !call.with_updates
        }),
{
    reveal_strlit("sessionId");
    reveal_strlit("cwd");
    assert("sessionId"@.len() == 9 && "cwd"@.len() == 3);
    lemma_two_fields("sessionId"@, Json::Text(saved), "cwd"@, Json::Text(key.project_dir@));
}

/// A new session of a pool is opened in the project's directory with the servers
/// that were set, under the profile of its key.
pub proof fn law_pool_opens_with_its_servers(key: PoolKey, servers: Json)
    ensures
        ({
            let call = create_read(key, servers);
            &&& call.method == "session/new"@
            &&& str_field(call.params, "cwd"@) == Some(key.project_dir@)
            &&& field(call.params, "mcpServers"@) == Some(servers)
            &&& has_only(call.params, seq!["cwd"@, "mcpServers"@])
            &&& key.provider_profile@ == "__default__"@ ==> call.profile is None
            &&& key.provider_profile@ != "__default__"@ ==> call.profile == Some(
                key.provider_profile@,
            )
        }),
        profile_key(None) == "__default__"@,
        key_profile("__default__"@) is None,
{
    reveal_strlit("mcpServers");
    reveal_strlit("cwd");
    assert("mcpServers"@.len() == 10 && "cwd"@.len() == 3);
    lemma_two_fields("cwd"@, Json::Text(key.project_dir@), "mcpServers"@, servers);
}

/// A session that was taken up again is the one that was saved; a new one is the
/// one that the gateway names.
pub proof fn law_pool_gets_its_session(
    saved: Seq<char>,
    result: CallResult,
    resumed: Result<String, OpenError>,
    made: Result<String, OpenError>,
)
    requires
        resumes_to(saved, result, resumed),
        creates(result, made),
        result is Value,
    ensures
        resumed matches Ok(id) && id@ == saved,
        str_field(result->Value_0@, "sessionId"@) matches Some(id) ==> (made matches Ok(got)
            && got@ == id),
        str_field(result->Value_0@, "sessionId"@) is None ==> (made matches Err(error)
            && error.retryable),
{
}

/// A call that failed is worth another attempt unless it was refused for lack of
/// authentication or capacity; its words are kept.
pub proof fn law_refused_calls_are_not_retried(
    refused: bool,
    message: String,
    saved: Seq<char>,
    resumed: Result<String, OpenError>,
    made: Result<String, OpenError>,
)
    requires
        resumes_to(
            saved,
            CallResult::Failure { authentication_or_capacity: refused, message },
            resumed,
        ),
        creates(CallResult::Failure { authentication_or_capacity: refused, message }, made),
    ensures
        resumed matches Err(error) && (error.retryable <==> !refused) && error.message@ == message@,
        made matches Err(error) && (error.retryable <==> !refused) && error.message@ == message@,
{
}

} // verus!
