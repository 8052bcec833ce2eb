//! What a thread's commands lead to, said of the calls that are made and of the
//! answers that are given.

use crate::gateway_actor::command_loop::{
    cancel_read, failure_text, stepped, AnswerView, CallView, Command, LoopView, NextView,
    Occurrence, Opening, StageView, ThreadErrorView,
};
use crate::gateway_actor::thread_actor::{advertised, update_events, RemoteThreadInfo};
use crate::json::{
    field, has_only, items_field, json_seq, lemma_field_absent, lemma_one_field, lemma_three_fields,
    lemma_two_fields, str_field, Json, JsonValue,
};
use crate::protocol_types::AgentEventView;
use vstd::prelude::*;

verus! {

/// A thread that waits for a command.
pub open spec fn idle(session: Option<Seq<char>>) -> LoopView {
    LoopView { session, stage: StageView::Idle }
}

/// Whether a command of an idle thread leads to a call, and to nothing else yet:
/// no event is told, and the thread stays bound to what it was bound to.
pub open spec fn leads_to_call(session: Option<Seq<char>>, command: Command) -> bool {
    let (then, out) = stepped(idle(session), Occurrence::Asked(command));
    &&& out.next is Call
    &&& out.events.len() == 0
    &&& out.bound is None
    &&& then.session == session
    &&& !(then.stage is Idle)
}

/// The call that a command of an idle thread leads to.
pub open spec fn call_for(session: Option<Seq<char>>, command: Command) -> CallView {
    stepped(idle(session), Occurrence::Asked(command)).1.next->Call_0
}

proof fn lemma_names()
    ensures
        "sessionId"@ != "prompt"@,
        "sessionId"@ != "cwd"@,
        "sessionId"@ != "mcpServers"@,
        "sessionId"@ != "_acpx"@,
        "sessionId"@ != "modeId"@,
        "sessionId"@ != "configId"@,
        "sessionId"@ != "value"@,
        "configId"@ != "value"@,
        "cwd"@ != "mcpServers"@,
        "type"@ != "text"@,
{
    reveal_strlit("sessionId");
    reveal_strlit("prompt");
    reveal_strlit("cwd");
    reveal_strlit("mcpServers");
    reveal_strlit("_acpx");
    reveal_strlit("modeId");
    reveal_strlit("configId");
    reveal_strlit("value");
    reveal_strlit("type");
    reveal_strlit("text");
    assert("sessionId"@.len() == 9 && "prompt"@.len() == 6 && "cwd"@.len() == 3);
    assert("mcpServers"@.len() == 10 && "_acpx"@.len() == 5 && "modeId"@.len() == 6);
    assert("configId"@.len() == 8 && "value"@.len() == 5);
    assert("type"@[1] != "text"@[1]);
}

/// A prompt is sent to the session that the thread is bound to, as one block that
/// is the text that was given and nothing else.
pub proof fn law_prompt_carries_the_text(session: Seq<char>, text: String)
    ensures
        ({
            let command = Command::SendPrompt { text };
            let call = call_for(Some(session), command);
            &&& leads_to_call(Some(session), command)
            &&& call.method == "session/prompt"@
            &&& call.profile is None
            &&& call.with_updates
            &&& has_only(call.params, seq!["sessionId"@, "prompt"@])
            &&& str_field(call.params, "sessionId"@) == Some(session)
            &&& items_field(call.params, "prompt"@) matches Some(blocks) && blocks.len() == 1
                && str_field(blocks[0], "type"@) == Some("text"@) && str_field(blocks[0], "text"@)
                == Some(text@) && has_only(blocks[0], seq!["type"@, "text"@])
        }),
{
    lemma_names();
    let call = call_for(Some(session), Command::SendPrompt { text });
    let block = Json::Object(seq![("type"@, Json::Text("text"@)), ("text"@, Json::Text(text@))]);
    lemma_two_fields("type"@, Json::Text("text"@), "text"@, Json::Text(text@));
    lemma_two_fields("sessionId"@, Json::Text(session), "prompt"@, Json::Array(seq![block]));
    assert(items_field(call.params, "prompt"@) == Some(seq![block]));
}

/// Prompts with different texts, or to different sessions, are different calls.
pub proof fn law_prompts_differ(a: Seq<char>, b: Seq<char>, first: String, second: String)
    requires
        a != b || first@ != second@,
    ensures
        call_for(Some(a), Command::SendPrompt { text: first }) != call_for(
            Some(b),
            Command::SendPrompt { text: second },
        ),
{
    law_prompt_carries_the_text(a, first);
    law_prompt_carries_the_text(b, second);
}

/// A new session is opened in the directory that was given, with the servers and
/// under the profile that were given.
pub proof fn law_open_carries_its_arguments(
    session: Option<Seq<char>>,
    cwd: String,
    profile: Option<String>,
    mcp_servers: Vec<JsonValue>,
)
    ensures
        ({
            let command = Command::OpenSession { cwd, profile, mcp_servers };
            let call = call_for(session, command);
            &&& leads_to_call(session, command)
            &&& call.method == "session/new"@
            &&& profile matches Some(p) ==> call.profile == Some(p@)
            &&& profile is None ==> call.profile is None
            &&& !call.with_updates
            &&& has_only(call.params, seq!["cwd"@, "mcpServers"@])
            &&& str_field(call.params, "cwd"@) == Some(cwd@)
            &&& items_field(call.params, "mcpServers"@) == Some(json_seq(mcp_servers@))
        }),
{
    lemma_names();
    let servers = Json::Array(json_seq(mcp_servers@));
    lemma_two_fields("cwd"@, Json::Text(cwd@), "mcpServers"@, servers);
}

/// A known session is loaded by its id, with its directory and servers, and its
/// notifications are asked for.
pub proof fn law_resume_carries_its_arguments(
    session: Option<Seq<char>>,
    session_id: String,
    cwd: String,
    mcp_servers: Vec<JsonValue>,
)
    ensures
        ({
            let command = Command::ResumeSession { session_id, cwd, mcp_servers };
            let call = call_for(session, command);
            &&& leads_to_call(session, command)
            &&& call.method == "session/load"@
            &&& call.profile is None
            &&& call.with_updates
            &&& has_only(call.params, seq!["sessionId"@, "cwd"@, "mcpServers"@])
            &&& str_field(call.params, "sessionId"@) == Some(session_id@)
            &&& str_field(call.params, "cwd"@) == Some(cwd@)
            &&& items_field(call.params, "mcpServers"@) == Some(json_seq(mcp_servers@))
        }),
{
    lemma_names();
    let servers = Json::Array(json_seq(mcp_servers@));
    lemma_three_fields(
        "sessionId"@,
        Json::Text(session_id@),
        "cwd"@,
        Json::Text(cwd@),
        "mcpServers"@,
        servers,
    );
}

/// A known session is taken up without its history by its id, with its directory.
pub proof fn law_reattach_carries_its_arguments(
    session: Option<Seq<char>>,
    session_id: String,
    cwd: String,
)
    ensures
        ({
            let command = Command::ReattachSession { session_id, cwd };
            let call = call_for(session, command);
            &&& leads_to_call(session, command)
            &&& call.method == "session/resume"@
            &&& call.profile is None
            &&& call.with_updates
            &&& has_only(call.params, seq!["sessionId"@, "cwd"@])
            &&& str_field(call.params, "sessionId"@) == Some(session_id@)
            &&& str_field(call.params, "cwd"@) == Some(cwd@)
        }),
{
    lemma_names();
    lemma_two_fields("sessionId"@, Json::Text(session_id@), "cwd"@, Json::Text(cwd@));
}

/// Closing names the session that the thread is bound to, and says that it is to
/// be kept exactly where it goes to the background.
pub proof fn law_close_names_the_session(session: Seq<char>, background: bool)
    ensures
        ({
            let command = Command::CloseSession { background };
            let call = call_for(Some(session), command);
            &&& leads_to_call(Some(session), command)
            &&& call.method == "session/close"@
            &&& str_field(call.params, "sessionId"@) == Some(session)
            &&& field(call.params, "_acpx"@) is Some <==> background
            &&& background ==> field(field(call.params, "_acpx"@)->0, "bg"@) == Some(
                Json::Bool(true),
            )
            &&& has_only(call.params, seq!["sessionId"@, "_acpx"@])
        }),
{
    lemma_names();
    let kept = Json::Object(seq![("bg"@, Json::Bool(true))]);
    lemma_one_field("bg"@, Json::Bool(true));
    let call = call_for(Some(session), Command::CloseSession { background });
    let names = seq!["sessionId"@, "_acpx"@];
    assert(names[0] == "sessionId"@);
    if background {
        lemma_two_fields("sessionId"@, Json::Text(session), "_acpx"@, kept);
    } else {
        lemma_one_field("sessionId"@, Json::Text(session));
        lemma_field_absent(seq![("sessionId"@, Json::Text(session))], "_acpx"@);
        assert forall|key: Seq<char>| #[trigger]
            field(call.params, key) is Some implies names.contains(key) by {
            assert(seq!["sessionId"@].contains(key));
            assert(key == "sessionId"@);
        }
    }
}

/// Deleting names the session that the thread is bound to.
pub proof fn law_delete_names_the_session(session: Seq<char>)
    ensures
        ({
            let call = call_for(Some(session), Command::DeleteSession);
            &&& leads_to_call(Some(session), Command::DeleteSession)
            &&& call.method == "session/delete"@
            &&& str_field(call.params, "sessionId"@) == Some(session)
            &&& has_only(call.params, seq!["sessionId"@])
        }),
{
    lemma_one_field("sessionId"@, Json::Text(session));
}

/// A mode is set on the session that the thread is bound to.
pub proof fn law_mode_is_set(session: Seq<char>, mode_id: String)
    ensures
        ({
            let command = Command::SetMode { mode_id };
            let call = call_for(Some(session), command);
            &&& leads_to_call(Some(session), command)
            &&& call.method == "session/set_mode"@
            &&& str_field(call.params, "sessionId"@) == Some(session)
            &&& str_field(call.params, "modeId"@) == Some(mode_id@)
            &&& has_only(call.params, seq!["sessionId"@, "modeId"@])
        }),
{
    lemma_names();
    lemma_two_fields("sessionId"@, Json::Text(session), "modeId"@, Json::Text(mode_id@));
}

/// An option is set, to the value that was given, on the session that the thread
/// is bound to.
pub proof fn law_option_is_set(session: Seq<char>, config_id: String, value: JsonValue)
    ensures
        ({
            let command = Command::SetConfigOption { config_id, value };
            let call = call_for(Some(session), command);
            &&& leads_to_call(Some(session), command)
            &&& call.method == "session/set_config_option"@
            &&& str_field(call.params, "sessionId"@) == Some(session)
            &&& str_field(call.params, "configId"@) == Some(config_id@)
            &&& field(call.params, "value"@) == Some(value@)
            &&& has_only(call.params, seq!["sessionId"@, "configId"@, "value"@])
        }),
{
    lemma_names();
    lemma_three_fields(
        "sessionId"@,
        Json::Text(session),
        "configId"@,
        Json::Text(config_id@),
        "value"@,
        value@,
    );
}

/// Whether a command leads, on any thread, to one call of a method.
pub open spec fn calls(session: Option<Seq<char>>, command: Command, method: Seq<char>) -> bool {
    &&& leads_to_call(session, command)
    &&& call_for(session, command).method == method
    &&& call_for(session, command).profile is None
    &&& !call_for(session, command).with_updates
}

/// Lists are asked for without arguments, and servers and profiles are written
/// with the entry that was given.
pub proof fn law_lists_and_entries(session: Option<Seq<char>>, entry: JsonValue)
    ensures
        calls(session, Command::ListProfiles, "profiles/list"@),
        has_only(call_for(session, Command::ListProfiles).params, Seq::empty()),
        calls(session, Command::ListMcpServers, "mcp_servers/list"@),
        has_only(call_for(session, Command::ListMcpServers).params, Seq::empty()),
        calls(session, Command::ListAgents, "agents/list"@),
        has_only(call_for(session, Command::ListAgents).params, Seq::empty()),
        calls(session, Command::CreateMcpServer { entry }, "mcp_servers/create"@),
        call_for(session, Command::CreateMcpServer { entry }).params == entry@,
        calls(session, Command::UpdateMcpServer { entry }, "mcp_servers/update"@),
        call_for(session, Command::UpdateMcpServer { entry }).params == entry@,
        calls(session, Command::CreateProfile { entry }, "profiles/create"@),
        call_for(session, Command::CreateProfile { entry }).params == entry@,
        calls(session, Command::UpdateProfile { entry }, "profiles/update"@),
        call_for(session, Command::UpdateProfile { entry }).params == entry@,
{
}

/// Servers and profiles are deleted by the name, and agents are asked about and
/// installed by the id, that was given.
pub proof fn law_names_and_ids(session: Option<Seq<char>>, name: String)
    ensures
        calls(session, Command::DeleteMcpServer { name }, "mcp_servers/delete"@),
        str_field(call_for(session, Command::DeleteMcpServer { name }).params, "name"@) == Some(
            name@,
        ),
        calls(session, Command::DeleteProfile { name }, "profiles/delete"@),
        str_field(call_for(session, Command::DeleteProfile { name }).params, "name"@) == Some(
            name@,
        ),
        calls(session, Command::AgentStatus { agent_id: name }, "agents/status"@),
        str_field(
            call_for(session, Command::AgentStatus { agent_id: name }).params,
            "id"@,
        ) == Some(name@),
        calls(session, Command::InstallAgent { agent_id: name }, "agents/install"@),
        str_field(
            call_for(session, Command::InstallAgent { agent_id: name }).params,
            "id"@,
        ) == Some(name@),
{
    lemma_one_field("name"@, Json::Text(name@));
    lemma_one_field("id"@, Json::Text(name@));
}

/// Sessions are listed of the agent that was given, or of all; the list that
/// comes back is the answer, as it is.
pub proof fn law_sessions_are_listed(
    session: Option<Seq<char>>,
    agent_id: Option<String>,
    sessions: Vec<RemoteThreadInfo>,
)
    ensures
        ({
            let (waiting, out) = stepped(
                idle(session),
                Occurrence::Asked(Command::ListSessions { agent_id }),
            );
            let (then, answered) = stepped(waiting, Occurrence::Sessions(sessions));
            &&& agent_id matches Some(id) ==> out.next == NextView::ListSessions(Some(id@))
            &&& agent_id is None ==> out.next == NextView::ListSessions(None)
            &&& then == idle(session)
            &&& answered.next == NextView::Reply(AnswerView::Sessions(sessions@))
        }),
{
}

/// A shutdown stops the thread for good: whatever happens then, it stays stopped.
pub proof fn law_shutdown_is_final(session: Option<Seq<char>>, what: Occurrence)
    ensures
        ({
            let (stopped, out) = stepped(idle(session), Occurrence::Asked(Command::Shutdown));
            &&& out.next is Stop
            &&& stepped(stopped, what).0 == stopped
            &&& stepped(stopped, what).1.next is Stop
            &&& stepped(stopped, what).1.events.len() == 0
        }),
{
}

/// Whether a command's answer is only that it was done.
pub open spec fn is_acknowledged(command: Command) -> bool {
    command is CloseSession || command is DeleteSession || command is SetMode || command
        is SetConfigOption || command is DeleteMcpServer || command is DeleteProfile
}

/// Whether a command's answer is what the gateway answered.
pub open spec fn is_passed_on(command: Command) -> bool {
    command is CreateMcpServer || command is UpdateMcpServer || command is CreateProfile || command
        is UpdateProfile || command is AgentStatus || command is InstallAgent
}

/// What the gateway answers to a single call becomes the answer to the command:
/// that it was done, or the gateway's value itself. Only the answer to setting an
/// option tells anything, namely the options that it advertises.
pub proof fn law_single_answers(
    session: Seq<char>,
    command: Command,
    value: JsonValue,
    updates: Vec<JsonValue>,
)
    requires
        is_acknowledged(command) || is_passed_on(command),
    ensures
        ({
            let waiting = stepped(idle(Some(session)), Occurrence::Asked(command)).0;
            let (then, out) = stepped(waiting, Occurrence::Answered { value, updates });
            &&& then == idle(Some(session))
            &&& out.bound is None
            &&& is_acknowledged(command) ==> out.next == NextView::Reply(AnswerView::Done)
            &&& is_passed_on(command) ==> out.next == NextView::Reply(AnswerView::Value(value@))
            &&& command is SetConfigOption ==> out.events == advertised(value@)
            &&& !(command is SetConfigOption) ==> out.events.len() == 0
        }),
{
}

/// The lists of servers and of agents are what the answer holds under `servers`
/// and under `agents`.
pub proof fn law_listed_entries(
    session: Option<Seq<char>>,
    value: JsonValue,
    updates: Vec<JsonValue>,
)
    ensures
        ({
            let waiting = stepped(idle(session), Occurrence::Asked(Command::ListMcpServers)).0;
            let out = stepped(waiting, Occurrence::Answered { value, updates }).1;
            &&& out.next matches NextView::Reply(AnswerView::Entries(entries)) && (items_field(
                value@,
                "servers"@,
            ) matches Some(items) ==> entries == items) && (items_field(value@, "servers"@) is None
                ==> entries.len() == 0)
        }),
        ({
            let waiting = stepped(idle(session), Occurrence::Asked(Command::ListAgents)).0;
            let out = stepped(waiting, Occurrence::Answered { value, updates }).1;
            &&& out.next matches NextView::Reply(AnswerView::Entries(entries)) && (items_field(
                value@,
                "agents"@,
            ) matches Some(items) ==> entries == items) && (items_field(value@, "agents"@) is None
                ==> entries.len() == 0)
        }),
{
}

/// A single call that the gateway fails is answered with the gateway's words, and
/// the thread waits for the next command.
pub proof fn law_failed_call_is_answered(session: Seq<char>, command: Command, text: String)
    requires
        is_acknowledged(command) || is_passed_on(command) || command is ListProfiles || command
            is ListMcpServers || command is ListAgents || command is ListSessions,
    ensures
        ({
            let waiting = stepped(idle(Some(session)), Occurrence::Asked(command)).0;
            let (then, out) = stepped(waiting, Occurrence::Failed(text));
            &&& then == idle(Some(session))
            &&& out.next == NextView::Reply(AnswerView::Failure(ThreadErrorView::Gateway(text@)))
            &&& out.events.len() == 0
            &&& out.bound is None
        }),
{
}

/// A new session is bound, and is the answer, under the id that the gateway gave
/// it.
pub proof fn law_new_session_is_bound(
    session: Option<Seq<char>>,
    command: Command,
    value: JsonValue,
    updates: Vec<JsonValue>,
    id: Seq<char>,
)
    requires
        command is OpenSession,
        str_field(value@, "sessionId"@) == Some(id),
    ensures
        ({
            let waiting = stepped(idle(session), Occurrence::Asked(command)).0;
            let (then, out) = stepped(waiting, Occurrence::Answered { value, updates });
            &&& then == idle(Some(id))
            &&& out.bound == Some(id)
            &&& out.next == NextView::Reply(AnswerView::Session(id))
            &&& out.events == advertised(value@)
        }),
{
}

/// An answer that names no session counts as a failed attempt, and the fifth is
/// answered with just that.
pub proof fn law_nameless_session_is_not_bound(
    session: Option<Seq<char>>,
    target: Seq<char>,
    call: CallView,
    attempt: u64,
    value: JsonValue,
    updates: Vec<JsonValue>,
)
    requires
        str_field(value@, "sessionId"@) is None,
    ensures
        ({
            let at = LoopView {
                session,
                stage: StageView::Open { how: Opening::New, session: target, call, attempt },
            };
            let (then, out) = stepped(at, Occurrence::Answered { value, updates });
            &&& then.session == session
            &&& out.bound is None
            &&& attempt < 4 ==> out.next is Pause
            &&& attempt >= 4 ==> out.next == NextView::Reply(
                AnswerView::Failure(ThreadErrorView::MissingSessionId),
            )
        }),
{
}

/// A session that is loaded is bound once its replay is collected, for which half
/// a second is waited: first what the answer advertises and brings is told, then
/// the replay.
pub proof fn law_loaded_session_is_bound(
    session: Option<Seq<char>>,
    session_id: String,
    cwd: String,
    mcp_servers: Vec<JsonValue>,
    value: JsonValue,
    updates: Vec<JsonValue>,
    replay: Vec<JsonValue>,
)
    ensures
        ({
            let command = Command::ResumeSession { session_id, cwd, mcp_servers };
            let waiting = stepped(idle(session), Occurrence::Asked(command)).0;
            let (replaying, first) = stepped(waiting, Occurrence::Answered { value, updates });
            let (then, second) = stepped(replaying, Occurrence::Replayed(replay));
            &&& first.events == advertised(value@) + update_events(json_seq(updates@))
            &&& first.bound is None
            &&& first.next == NextView::CollectReplay { millis: 500 }
            &&& second.events == update_events(json_seq(replay@))
            &&& second.bound == Some(session_id@)
            &&& second.next == NextView::Reply(AnswerView::Done)
            &&& then == idle(Some(session_id@))
        }),
{
}

/// A session that is taken up without its history is bound at once.
pub proof fn law_reattached_session_is_bound(
    session: Option<Seq<char>>,
    session_id: String,
    cwd: String,
    value: JsonValue,
    updates: Vec<JsonValue>,
)
    ensures
        ({
            let command = Command::ReattachSession { session_id, cwd };
            let waiting = stepped(idle(session), Occurrence::Asked(command)).0;
            let (then, out) = stepped(waiting, Occurrence::Answered { value, updates });
            &&& out.events == advertised(value@) + update_events(json_seq(updates@))
            &&& out.bound == Some(session_id@)
            &&& out.next == NextView::Reply(AnswerView::Done)
            &&& then == idle(Some(session_id@))
        }),
{
}

/// Each of the first four attempts at opening a session that fail is followed by
/// a pause, a tenth of a second longer each time, and then by the same call; the
/// fifth failure is the answer, in the gateway's words. Nothing is bound or told
/// on the way.
pub proof fn law_failed_attempts(
    session: Option<Seq<char>>,
    how: Opening,
    target: Seq<char>,
    call: CallView,
    attempt: u64,
    text: String,
)
    ensures
        ({
            let at = LoopView {
                session,
                stage: StageView::Open { how, session: target, call, attempt },
            };
            let (paused, out) = stepped(at, Occurrence::Failed(text));
            let (again, retried) = stepped(paused, Occurrence::Rested);
            &&& out.events.len() == 0 && out.bound is None && paused.session == session
            &&& attempt < 4 ==> {
                &&& out.next == NextView::Pause { millis: ((attempt + 1) * 100) as u64 }
                &&& retried.next == NextView::Call(call)
                &&& retried.events.len() == 0 && retried.bound is None
                &&& again == (LoopView {
                    session,
                    stage: StageView::Open {
                        how,
                        session: target,
                        call,
                        attempt: (attempt + 1) as u64,
                    },
                })
            }
            &&& attempt >= 4 ==> paused == idle(session) && out.next == NextView::Reply(
                AnswerView::Failure(ThreadErrorView::Gateway(text@)),
            )
        }),
{
}

/// The first attempt at opening a session is the call that the command leads to.
pub proof fn law_first_attempt_is_the_call(session: Option<Seq<char>>, command: Command)
    requires
        command is OpenSession || command is ResumeSession || command is ReattachSession,
    ensures
        ({
            let (then, out) = stepped(idle(session), Occurrence::Asked(command));
            &&& then.stage is Open
            &&& then.stage->Open_attempt == 0
            &&& out.next == NextView::Call(then.stage->Open_call)
        }),
{
}

/// A turn: what the answer to a prompt brings is told, and a quarter of a second
/// is waited for what comes late. Where nothing comes, the turn ends with the
/// reason that the answer gave, `end_turn` where it gave none, and the prompt is
/// answered.
pub proof fn law_turn_ends_with_its_reason(
    session: Seq<char>,
    text: String,
    value: JsonValue,
    updates: Vec<JsonValue>,
    elapsed_ms: u64,
)
    ensures
        ({
            let asked = stepped(
                idle(Some(session)),
                Occurrence::Asked(Command::SendPrompt { text }),
            ).0;
            let (quiet, first) = stepped(asked, Occurrence::Answered { value, updates });
            let (then, second) = stepped(quiet, Occurrence::Waited { update: None, elapsed_ms });
            let reason = str_field(value@, "stopReason"@);
            &&& first.events == update_events(json_seq(updates@))
            &&& first.bound is None
            &&& first.next == NextView::AwaitQuiet { millis: 250 }
            &&& second.events.len() == 1
            &&& reason matches Some(r) ==> second.events[0] == AgentEventView::TurnEnded(r)
            &&& reason is None ==> second.events[0] == AgentEventView::TurnEnded("end_turn"@)
            &&& second.next == NextView::Reply(AnswerView::Done)
            &&& then == idle(Some(session))
        }),
{
}

/// What comes late is told before the turn ends. The wait goes on in the same
/// turn while half a second is not over; then the turn ends.
pub proof fn law_late_updates_are_told(
    session: Option<Seq<char>>,
    stop_reason: Seq<char>,
    update: JsonValue,
    elapsed_ms: u64,
)
    ensures
        ({
            let at = LoopView { session, stage: StageView::Quiet { stop_reason } };
            let (then, out) = stepped(
                at,
                Occurrence::Waited { update: Some(update), elapsed_ms },
            );
            let told = update_events(seq![update@]);
            &&& elapsed_ms < 500 ==> {
                &&& then == at
                &&& out.events == told
                &&& out.next == NextView::AwaitQuiet {
                    millis: if elapsed_ms <= 425 {
                        75
                    } else {
                        (500 - elapsed_ms) as u64
                    },
                }
            }
            &&& elapsed_ms >= 500 ==> {
                &&& then == idle(session)
                &&& out.events == told.push(AgentEventView::TurnEnded(stop_reason))
                &&& out.next == NextView::Reply(AnswerView::Done)
            }
        }),
{
}

/// A prompt that fails tells the gateway's words as an error, and answers with
/// them; the thread stays bound and waits for the next command.
pub proof fn law_failed_prompt(session: Seq<char>, text: String, why: String)
    ensures
        ({
            let asked = stepped(
                idle(Some(session)),
                Occurrence::Asked(Command::SendPrompt { text }),
            ).0;
            let (then, out) = stepped(asked, Occurrence::Failed(why));
            &&& out.events.len() == 1 && out.events[0] == AgentEventView::Error(why@)
            &&& out.next == NextView::Reply(AnswerView::Failure(ThreadErrorView::Gateway(why@)))
            &&& then == idle(Some(session))
        }),
{
}

/// A live notification is told at once, whatever the thread is doing, and changes
/// nothing else.
pub proof fn law_live_updates_are_told(at: LoopView, update: JsonValue)
    requires
        !(at.stage is Stopped),
    ensures
        stepped(at, Occurrence::Update(update)).0 == at,
        stepped(at, Occurrence::Update(update)).1.events == update_events(seq![update@]),
        stepped(at, Occurrence::Update(update)).1.next is Stay,
        stepped(at, Occurrence::Update(update)).1.bound is None,
{
}

/// A command that comes while another is served is not started: nothing is
/// called, told or answered.
pub proof fn law_one_command_at_a_time(at: LoopView, command: Command)
    requires
        !(at.stage is Idle),
        !(at.stage is Stopped),
    ensures
        stepped(at, Occurrence::Asked(command)).0 == at,
        stepped(at, Occurrence::Asked(command)).1.next is Stay,
        stepped(at, Occurrence::Asked(command)).1.events.len() == 0,
{
}

/// Cancelling names the session that the thread is bound to; without one there
/// is nothing to cancel.
pub proof fn law_cancel_names_the_session(session: Seq<char>)
    ensures
        cancel_read(None) is None,
        cancel_read(Some(session)) matches Some(call) && {
            &&& call.method == "session/cancel"@
            &&& str_field(call.params, "sessionId"@) == Some(session)
            &&& has_only(call.params, seq!["sessionId"@])
            &&& call.profile is None
            &&& !call.with_updates
        },
{
    lemma_one_field("sessionId"@, Json::Text(session));
}

/// A failure of the gateway reads as the gateway's words after a heading, so that
/// different words read differently.
pub proof fn law_gateway_failure_is_quoted(a: Seq<char>, b: Seq<char>)
    ensures
        a.is_suffix_of(failure_text(ThreadErrorView::Gateway(a))),
        "acpx gateway error: "@.is_prefix_of(failure_text(ThreadErrorView::Gateway(a))),
        failure_text(ThreadErrorView::Gateway(a)).len() == "acpx gateway error: "@.len() + a.len(),
        failure_text(ThreadErrorView::Gateway(a)) == failure_text(ThreadErrorView::Gateway(b))
            ==> a == b,
{
    let head = "acpx gateway error: "@;
    let text = failure_text(ThreadErrorView::Gateway(a));
    let other = failure_text(ThreadErrorView::Gateway(b));
    assert(text.skip(text.len() - a.len()) =~= a);
    assert(text.take(head.len() as int) =~= head);
    if text == other {
        assert(text.skip(head.len() as int) =~= a);
        assert(other.skip(head.len() as int) =~= b);
    }
}

} // verus!
