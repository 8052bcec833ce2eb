//! How a thread serves its commands.
//!
//! A thread takes one command at a time. [`CommandLoop::step`] says, for each
//! thing that happens, what the thread tells its listeners and what it does
//! next: call the gateway, pause, wait for late notifications, or answer the
//! command. Whoever drives the loop performs that and reports what came of it.

pub mod laws;

use crate::gateway_actor::thread_actor::{
    advertised, emit_capability_events, entries_read, forward_updates, list_entries,
    parse_profiles, profiles_read, profiles_view, update_events, ProfileSummary, ProfileView,
    RemoteThreadInfo,
};
use crate::json::{
    array1, get_str, json_seq, lemma_array_view, object0, object1, object2, object3, str_field,
    text_value, Json, JsonValue,
};
use crate::protocol_types::{events_view, AgentEvent, AgentEventView};
use crate::text::{clone_optional, join, optional_text, owned_or, text_or};
use vstd::prelude::*;

verus! {

/// How often a session is tried to be opened before the thread gives up.
pub const OPEN_ATTEMPTS: u64 = 5;

/// How much longer, in milliseconds, each pause between two attempts is.
pub const PAUSE_STEP_MS: u64 = 100;

/// How long a loaded session's replay is waited for.
pub const REPLAY_WAIT_MS: u64 = 500;

/// How long the end of a turn is held open for late notifications at most.
pub const TURN_LIMIT_MS: u64 = 500;

/// How long the first late notification of a turn is waited for.
pub const FIRST_QUIET_MS: u64 = 250;

/// How long each further one is waited for.
pub const NEXT_QUIET_MS: u64 = 75;

/// Why a command failed.
#[derive(Debug, PartialEq, Eq)]
pub enum AcpxThreadError {
    NoActiveSession,
    ActorGone,
    Gateway(String),
    MissingSessionId,
}

/// An [`AcpxThreadError`] as a mathematical value.
#[verifier::ext_equal]
pub enum ThreadErrorView {
    NoActiveSession,
    ActorGone,
    Gateway(Seq<char>),
    MissingSessionId,
}

impl View for AcpxThreadError {
    type V = ThreadErrorView;

    open spec fn view(&self) -> ThreadErrorView {
        match self {
            AcpxThreadError::NoActiveSession => ThreadErrorView::NoActiveSession,
            AcpxThreadError::ActorGone => ThreadErrorView::ActorGone,
            AcpxThreadError::Gateway(text) => ThreadErrorView::Gateway(text@),
            AcpxThreadError::MissingSessionId => ThreadErrorView::MissingSessionId,
        }
    }
}

/// What a failure reads as.
pub open spec fn failure_text(e: ThreadErrorView) -> Seq<char> {
    match e {
        ThreadErrorView::NoActiveSession => {
            "no active session on this thread -- call open_session or resume_session first"@
        },
        ThreadErrorView::ActorGone => {
            "actor task for this thread is gone (shut down or panicked)"@
        },
        ThreadErrorView::Gateway(text) => "acpx gateway error: "@ + text,
        ThreadErrorView::MissingSessionId => {
            "gateway response for session/new had no sessionId field"@
        },
    }
}

impl AcpxThreadError {
    /// What the failure reads as.
    pub fn message(&self) -> (r: String)
        ensures
            r@ == failure_text(self@),
    {
        match self {
            AcpxThreadError::NoActiveSession => {
                "no active session on this thread -- call open_session or resume_session first"
                    .to_owned()
            },
            AcpxThreadError::ActorGone => {
                "actor task for this thread is gone (shut down or panicked)".to_owned()
            },
            AcpxThreadError::Gateway(text) => join("acpx gateway error: ", text.as_str()),
            AcpxThreadError::MissingSessionId => {
                "gateway response for session/new had no sessionId field".to_owned()
            },
        }
    }
}

/// A call to the gateway.
#[derive(Debug, PartialEq)]
pub struct GatewayCall {
    pub method: String,
    pub params: JsonValue,
    pub profile: Option<String>,
    /// Whether the notifications that belong to the call are asked for too.
    pub with_updates: bool,
}

/// A [`GatewayCall`] as a mathematical value.
#[verifier::ext_equal]
pub struct CallView {
    pub method: Seq<char>,
    pub params: Json,
    pub profile: Option<Seq<char>>,
    pub with_updates: bool,
}

impl View for GatewayCall {
    type V = CallView;

    open spec fn view(&self) -> CallView {
        CallView {
            method: self.method@,
            params: self.params@,
            profile: optional_text(self.profile),
            with_updates: self.with_updates,
        }
    }
}

impl Clone for GatewayCall {
    fn clone(&self) -> (r: GatewayCall)
        ensures
            r@ == self@,
    {
        GatewayCall {
            method: self.method.clone(),
            params: self.params.clone(),
            profile: clone_optional(&self.profile),
            with_updates: self.with_updates,
        }
    }
}

/// What a thread can be asked to do.
#[derive(Debug, PartialEq)]
pub enum Command {
    OpenSession { cwd: String, profile: Option<String>, mcp_servers: Vec<JsonValue> },
    ResumeSession { session_id: String, cwd: String, mcp_servers: Vec<JsonValue> },
    ReattachSession { session_id: String, cwd: String },
    SendPrompt { text: String },
    ListSessions { agent_id: Option<String> },
    ListProfiles,
    CloseSession { background: bool },
    DeleteSession,
    SetMode { mode_id: String },
    SetConfigOption { config_id: String, value: JsonValue },
    ListMcpServers,
    CreateMcpServer { entry: JsonValue },
    UpdateMcpServer { entry: JsonValue },
    DeleteMcpServer { name: String },
    CreateProfile { entry: JsonValue },
    UpdateProfile { entry: JsonValue },
    DeleteProfile { name: String },
    ListAgents,
    AgentStatus { agent_id: String },
    InstallAgent { agent_id: String },
    Shutdown,
}

/// What the answer to a single call is made into.
#[derive(Clone, Copy, Debug, PartialEq, Eq, Structural)]
pub enum Purpose {
    /// Nothing but that it is done.
    Acknowledge,
    /// That it is done, and the options that it advertises.
    Options,
    Profiles,
    Servers,
    Agents,
    /// The answer itself.
    Whole,
}

/// How a session is opened.
#[derive(Clone, Copy, Debug, PartialEq, Eq, Structural)]
pub enum Opening {
    /// As a new one.
    New,
    /// As a known one whose history is replayed.
    Load,
    /// As a known one, without its history.
    Attach,
}

/// What a thread is in the middle of.
#[derive(Debug, PartialEq)]
pub enum Stage {
    Idle,
    /// A session is being opened: the attempt that runs, counted from zero.
    Open { how: Opening, session: String, call: GatewayCall, attempt: u64 },
    /// An attempt failed, and the next one is waited for.
    Paused { how: Opening, session: String, call: GatewayCall, attempt: u64 },
    /// A loaded session's replay is being collected.
    Replay { session: String },
    /// A prompt is being answered.
    Prompt,
    /// A turn has ended, and late notifications are waited for.
    Quiet { stop_reason: String },
    Single { purpose: Purpose },
    Listing,
    Stopped,
}

/// A [`Stage`] as a mathematical value.
#[verifier::ext_equal]
pub enum StageView {
    Idle,
    Open { how: Opening, session: Seq<char>, call: CallView, attempt: u64 },
    Paused { how: Opening, session: Seq<char>, call: CallView, attempt: u64 },
    Replay { session: Seq<char> },
    Prompt,
    Quiet { stop_reason: Seq<char> },
    Single { purpose: Purpose },
    Listing,
    Stopped,
}

impl View for Stage {
    type V = StageView;

    open spec fn view(&self) -> StageView {
        match self {
            Stage::Idle => StageView::Idle,
            Stage::Open { how, session, call, attempt } => StageView::Open {
                how: *how,
                session: session@,
                call: call@,
                attempt: *attempt,
            },
            Stage::Paused { how, session, call, attempt } => StageView::Paused {
                how: *how,
                session: session@,
                call: call@,
                attempt: *attempt,
            },
            Stage::Replay { session } => StageView::Replay { session: session@ },
            Stage::Prompt => StageView::Prompt,
            Stage::Quiet { stop_reason } => StageView::Quiet { stop_reason: stop_reason@ },
            Stage::Single { purpose } => StageView::Single { purpose: *purpose },
            Stage::Listing => StageView::Listing,
            Stage::Stopped => StageView::Stopped,
        }
    }
}

/// What can happen to a thread.
#[derive(Debug, PartialEq)]
pub enum Occurrence {
    /// A command came in.
    Asked(Command),
    /// A live notification came in.
    Update(JsonValue),
    /// The gateway answered the call, with the notifications that belong to it.
    Answered { value: JsonValue, updates: Vec<JsonValue> },
    /// The gateway failed the call.
    Failed(String),
    /// The gateway listed its sessions.
    Sessions(Vec<RemoteThreadInfo>),
    /// The pause is over.
    Rested,
    /// The replay has been collected.
    Replayed(Vec<JsonValue>),
    /// The wait for a late notification is over, `elapsed_ms` after the turn
    /// ended; with the notification, where one came.
    Waited { update: Option<JsonValue>, elapsed_ms: u64 },
}

/// The answer to a command.
#[derive(Debug, PartialEq)]
pub enum Answer {
    Done,
    Session(String),
    Failure(AcpxThreadError),
    Profiles(Vec<ProfileSummary>),
    Sessions(Vec<RemoteThreadInfo>),
    Entries(Vec<JsonValue>),
    Value(JsonValue),
}

/// An [`Answer`] as a mathematical value.
#[verifier::ext_equal]
pub enum AnswerView {
    Done,
    Session(Seq<char>),
    Failure(ThreadErrorView),
    Profiles(Seq<ProfileView>),
    Sessions(Seq<RemoteThreadInfo>),
    Entries(Seq<Json>),
    Value(Json),
}

impl View for Answer {
    type V = AnswerView;

    open spec fn view(&self) -> AnswerView {
        match self {
            Answer::Done => AnswerView::Done,
            Answer::Session(id) => AnswerView::Session(id@),
            Answer::Failure(e) => AnswerView::Failure(e@),
            Answer::Profiles(v) => AnswerView::Profiles(profiles_view(v@)),
            Answer::Sessions(v) => AnswerView::Sessions(v@),
            Answer::Entries(v) => AnswerView::Entries(json_seq(v@)),
            Answer::Value(v) => AnswerView::Value(v@),
        }
    }
}

/// What a thread does next.
#[derive(Debug, PartialEq)]
pub enum Next {
    /// Waits for a command or a notification.
    Listen,
    /// Goes on waiting for what it already waits for.
    Stay,
    Call(GatewayCall),
    ListSessions(Option<String>),
    Pause { millis: u64 },
    CollectReplay { millis: u64 },
    AwaitQuiet { millis: u64 },
    /// Answers the command, and then waits for the next.
    Reply(Answer),
    Stop,
}

/// A [`Next`] as a mathematical value.
#[verifier::ext_equal]
pub enum NextView {
    Listen,
    Stay,
    Call(CallView),
    ListSessions(Option<Seq<char>>),
    Pause { millis: u64 },
    CollectReplay { millis: u64 },
    AwaitQuiet { millis: u64 },
    Reply(AnswerView),
    Stop,
}

impl View for Next {
    type V = NextView;

    open spec fn view(&self) -> NextView {
        match self {
            Next::Listen => NextView::Listen,
            Next::Stay => NextView::Stay,
            Next::Call(call) => NextView::Call(call@),
            Next::ListSessions(agent) => NextView::ListSessions(optional_text(*agent)),
            Next::Pause { millis } => NextView::Pause { millis: *millis },
            Next::CollectReplay { millis } => NextView::CollectReplay { millis: *millis },
            Next::AwaitQuiet { millis } => NextView::AwaitQuiet { millis: *millis },
            Next::Reply(answer) => NextView::Reply(answer@),
            Next::Stop => NextView::Stop,
        }
    }
}

/// What a step comes to: the events for the thread's listeners, in order, the
/// session that the thread is now bound to, where it changed, and what is done
/// next.
#[derive(Debug, PartialEq)]
pub struct Outcome {
    pub events: Vec<AgentEvent>,
    pub bound: Option<String>,
    pub next: Next,
}

/// An [`Outcome`] as a mathematical value.
#[verifier::ext_equal]
pub struct OutcomeView {
    pub events: Seq<AgentEventView>,
    pub bound: Option<Seq<char>>,
    pub next: NextView,
}

impl View for Outcome {
    type V = OutcomeView;

    open spec fn view(&self) -> OutcomeView {
        OutcomeView {
            events: events_view(self.events@),
            bound: optional_text(self.bound),
            next: self.next@,
        }
    }
}

/// The state of a thread: the session it is bound to, and what it is in the
/// middle of.
#[derive(Debug, PartialEq)]
pub struct CommandLoop {
    pub session: Option<String>,
    pub stage: Stage,
}

/// A [`CommandLoop`] as a mathematical value.
#[verifier::ext_equal]
pub struct LoopView {
    pub session: Option<Seq<char>>,
    pub stage: StageView,
}

impl View for CommandLoop {
    type V = LoopView;

    open spec fn view(&self) -> LoopView {
        LoopView { session: optional_text(self.session), stage: self.stage@ }
    }
}

/// A call without a profile and without notifications.
pub open spec fn plain_call(method: Seq<char>, params: Json) -> CallView {
    CallView { method, params, profile: None, with_updates: false }
}

/// An object with one text field.
pub open spec fn text_object(key: Seq<char>, value: Seq<char>) -> Json {
    Json::Object(seq![(key, Json::Text(value))])
}

/// What `session/new` is sent.
pub open spec fn new_params(cwd: Seq<char>, mcp_servers: Seq<Json>) -> Json {
    Json::Object(seq![("cwd"@, Json::Text(cwd)), ("mcpServers"@, Json::Array(mcp_servers))])
}

/// What `session/load` is sent.
pub open spec fn load_params(session: Seq<char>, cwd: Seq<char>, mcp_servers: Seq<Json>) -> Json {
    Json::Object(
        seq![
            ("sessionId"@, Json::Text(session)),
            ("cwd"@, Json::Text(cwd)),
            ("mcpServers"@, Json::Array(mcp_servers)),
        ],
    )
}

/// What `session/resume` is sent.
pub open spec fn attach_params(session: Seq<char>, cwd: Seq<char>) -> Json {
    Json::Object(seq![("sessionId"@, Json::Text(session)), ("cwd"@, Json::Text(cwd))])
}

/// What `session/prompt` is sent.
pub open spec fn prompt_params(session: Seq<char>, text: Seq<char>) -> Json {
    Json::Object(
        seq![
            ("sessionId"@, Json::Text(session)),
            (
                "prompt"@,
                Json::Array(
                    seq![
                        Json::Object(
                            seq![("type"@, Json::Text("text"@)), ("text"@, Json::Text(text))],
                        ),
                    ],
                ),
            ),
        ],
    )
}

/// What `session/close` is sent; in the background, the session is to be kept.
pub open spec fn close_params(session: Seq<char>, background: bool) -> Json {
    if background {
        Json::Object(
            seq![
                ("sessionId"@, Json::Text(session)),
                ("_acpx"@, Json::Object(seq![("bg"@, Json::Bool(true))])),
            ],
        )
    } else {
        text_object("sessionId"@, session)
    }
}

/// What `session/set_mode` is sent.
pub open spec fn mode_params(session: Seq<char>, mode: Seq<char>) -> Json {
    Json::Object(seq![("sessionId"@, Json::Text(session)), ("modeId"@, Json::Text(mode))])
}

/// What `session/set_config_option` is sent.
pub open spec fn option_params(session: Seq<char>, config: Seq<char>, value: Json) -> Json {
    Json::Object(
        seq![
            ("sessionId"@, Json::Text(session)),
            ("configId"@, Json::Text(config)),
            ("value"@, value),
        ],
    )
}

/// An empty object.
pub open spec fn no_params() -> Json {
    Json::Object(Seq::empty())
}

/// A step that only does something next.
pub open spec fn only(next: NextView) -> OutcomeView {
    OutcomeView { events: Seq::empty(), bound: None, next }
}

/// A single call for a purpose.
pub open spec fn single(
    session: Option<Seq<char>>,
    purpose: Purpose,
    method: Seq<char>,
    params: Json,
) -> (LoopView, OutcomeView) {
    (
        LoopView { session, stage: StageView::Single { purpose } },
        only(NextView::Call(plain_call(method, params))),
    )
}

/// The first attempt at opening a session.
pub open spec fn first_attempt(
    session: Option<Seq<char>>,
    how: Opening,
    target: Seq<char>,
    call: CallView,
) -> (LoopView, OutcomeView) {
    (
        LoopView {
            session,
            stage: StageView::Open { how, session: target, call, attempt: 0 },
        },
        only(NextView::Call(call)),
    )
}

/// An answer that is given at once.
pub open spec fn at_once(session: Option<Seq<char>>, answer: AnswerView) -> (
    LoopView,
    OutcomeView,
) {
    (LoopView { session, stage: StageView::Idle }, only(NextView::Reply(answer)))
}

/// How a thread that is bound to `session` starts on a command. What needs a
/// session fails where there is none; closing or deleting one that was never
/// opened is done at once.
pub open spec fn started(session: Option<Seq<char>>, command: Command) -> (LoopView, OutcomeView) {
    match command {
        Command::OpenSession { cwd, profile, mcp_servers } => first_attempt(
            session,
            Opening::New,
            Seq::empty(),
            CallView {
                method: "session/new"@,
                params: new_params(cwd@, json_seq(mcp_servers@)),
                profile: optional_text(profile),
                with_updates: false,
            },
        ),
        Command::ResumeSession { session_id, cwd, mcp_servers } => first_attempt(
            session,
            Opening::Load,
            session_id@,
            CallView {
                method: "session/load"@,
                params: load_params(session_id@, cwd@, json_seq(mcp_servers@)),
                profile: None,
                with_updates: true,
            },
        ),
        Command::ReattachSession { session_id, cwd } => first_attempt(
            session,
            Opening::Attach,
            session_id@,
            CallView {
                method: "session/resume"@,
                params: attach_params(session_id@, cwd@),
                profile: None,
                with_updates: true,
            },
        ),
        Command::SendPrompt { text } => match session {
            Some(id) => (
                LoopView { session, stage: StageView::Prompt },
                only(
                    NextView::Call(
                        CallView {
                            method: "session/prompt"@,
                            params: prompt_params(id, text@),
                            profile: None,
                            with_updates: true,
                        },
                    ),
                ),
            ),
            None => at_once(session, AnswerView::Failure(ThreadErrorView::NoActiveSession)),
        },
        Command::ListSessions { agent_id } => (
            LoopView { session, stage: StageView::Listing },
            only(NextView::ListSessions(optional_text(agent_id))),
        ),
        Command::ListProfiles => single(
            session,
            Purpose::Profiles,
            "profiles/list"@,
            no_params(),
        ),
        Command::CloseSession { background } => match session {
            Some(id) => single(
                session,
                Purpose::Acknowledge,
                "session/close"@,
                close_params(id, background),
            ),
            None => at_once(session, AnswerView::Done),
        },
        Command::DeleteSession => match session {
            Some(id) => single(
                session,
                Purpose::Acknowledge,
                "session/delete"@,
                text_object("sessionId"@, id),
            ),
            None => at_once(session, AnswerView::Done),
        },
        Command::SetMode { mode_id } => match session {
            Some(id) => single(
                session,
                Purpose::Acknowledge,
                "session/set_mode"@,
                mode_params(id, mode_id@),
            ),
            None => at_once(session, AnswerView::Failure(ThreadErrorView::NoActiveSession)),
        },
        Command::SetConfigOption { config_id, value } => match session {
            Some(id) => single(
                session,
                Purpose::Options,
                "session/set_config_option"@,
                option_params(id, config_id@, value@),
            ),
            None => at_once(session, AnswerView::Failure(ThreadErrorView::NoActiveSession)),
        },
        Command::ListMcpServers => single(
            session,
            Purpose::Servers,
            "mcp_servers/list"@,
            no_params(),
        ),
        Command::CreateMcpServer { entry } => single(
            session,
            Purpose::Whole,
            "mcp_servers/create"@,
            entry@,
        ),
        Command::UpdateMcpServer { entry } => single(
            session,
            Purpose::Whole,
            "mcp_servers/update"@,
            entry@,
        ),
        Command::DeleteMcpServer { name } => single(
            session,
            Purpose::Acknowledge,
            "mcp_servers/delete"@,
            text_object("name"@, name@),
        ),
        Command::CreateProfile { entry } => single(
            session,
            Purpose::Whole,
            "profiles/create"@,
            entry@,
        ),
        Command::UpdateProfile { entry } => single(
            session,
            Purpose::Whole,
            "profiles/update"@,
            entry@,
        ),
        Command::DeleteProfile { name } => single(
            session,
            Purpose::Acknowledge,
            "profiles/delete"@,
            text_object("name"@, name@),
        ),
        Command::ListAgents => single(session, Purpose::Agents, "agents/list"@, no_params()),
        Command::AgentStatus { agent_id } => single(
            session,
            Purpose::Whole,
            "agents/status"@,
            text_object("id"@, agent_id@),
        ),
        Command::InstallAgent { agent_id } => single(
            session,
            Purpose::Whole,
            "agents/install"@,
            text_object("id"@, agent_id@),
        ),
        Command::Shutdown => (
            LoopView { session, stage: StageView::Stopped },
            only(NextView::Stop),
        ),
    }
}

/// What a failed attempt leads to: a pause that is longer each time, and the
/// failure itself after the last attempt.
pub open spec fn attempt_failed(
    session: Option<Seq<char>>,
    how: Opening,
    target: Seq<char>,
    call: CallView,
    attempt: u64,
    why: ThreadErrorView,
) -> (LoopView, OutcomeView) {
    if attempt + 1 >= OPEN_ATTEMPTS {
        at_once(session, AnswerView::Failure(why))
    } else {
        (
            LoopView {
                session,
                stage: StageView::Paused {
                    how,
                    session: target,
                    call,
                    attempt: (attempt + 1) as u64,
                },
            },
            only(NextView::Pause { millis: (PAUSE_STEP_MS * (attempt + 1)) as u64 }),
        )
    }
}

/// What an answered attempt leads to. A new session is bound where the answer
/// names one; a session that is loaded is bound once its replay is collected.
pub open spec fn attempt_answered(
    session: Option<Seq<char>>,
    how: Opening,
    target: Seq<char>,
    call: CallView,
    attempt: u64,
    value: Json,
    updates: Seq<Json>,
) -> (LoopView, OutcomeView) {
    match how {
        Opening::New => match str_field(value, "sessionId"@) {
            Some(id) => (
                LoopView { session: Some(id), stage: StageView::Idle },
                OutcomeView {
                    events: advertised(value),
                    bound: Some(id),
                    next: NextView::Reply(AnswerView::Session(id)),
                },
            ),
            None => attempt_failed(
                session,
                how,
                target,
                call,
                attempt,
                ThreadErrorView::MissingSessionId,
            ),
        },
        Opening::Load => (
            LoopView { session, stage: StageView::Replay { session: target } },
            OutcomeView {
                events: advertised(value) + update_events(updates),
                bound: None,
                next: NextView::CollectReplay { millis: REPLAY_WAIT_MS },
            },
        ),
        Opening::Attach => (
            LoopView { session: Some(target), stage: StageView::Idle },
            OutcomeView {
                events: advertised(value) + update_events(updates),
                bound: Some(target),
                next: NextView::Reply(AnswerView::Done),
            },
        ),
    }
}

/// What the answer to a single call is made into.
pub open spec fn single_answer(purpose: Purpose, value: Json) -> AnswerView {
    match purpose {
        Purpose::Acknowledge | Purpose::Options => AnswerView::Done,
        Purpose::Profiles => AnswerView::Profiles(profiles_read(value)),
        Purpose::Servers => AnswerView::Entries(entries_read(value, "servers"@)),
        Purpose::Agents => AnswerView::Entries(entries_read(value, "agents"@)),
        Purpose::Whole => AnswerView::Value(value),
    }
}

/// How long the next late notification is waited for: not at all once the
/// turn's limit is reached.
pub open spec fn quiet_wait(elapsed_ms: u64) -> Option<u64> {
    if elapsed_ms >= TURN_LIMIT_MS {
        None
    } else if NEXT_QUIET_MS <= TURN_LIMIT_MS - elapsed_ms {
        Some(NEXT_QUIET_MS)
    } else {
        Some((TURN_LIMIT_MS - elapsed_ms) as u64)
    }
}

/// The events of a late notification, where one came.
pub open spec fn late_events(update: Option<JsonValue>) -> Seq<AgentEventView> {
    match update {
        Some(u) => update_events(seq![u@]),
        None => Seq::empty(),
    }
}

/// What a step of a thread comes to.
pub open spec fn stepped(at: LoopView, what: Occurrence) -> (LoopView, OutcomeView) {
    match (at.stage, what) {
        (StageView::Stopped, _) => (at, only(NextView::Stop)),
        (_, Occurrence::Update(update)) => (
            at,
            OutcomeView {
                events: update_events(seq![update@]),
                bound: None,
                next: NextView::Stay,
            },
        ),
        (StageView::Idle, Occurrence::Asked(command)) => started(at.session, command),
        (
            StageView::Open { how, session, call, attempt },
            Occurrence::Answered { value, updates },
        ) => attempt_answered(
            at.session,
            how,
            session,
            call,
            attempt,
            value@,
            json_seq(updates@),
        ),
        (StageView::Open { how, session, call, attempt }, Occurrence::Failed(text)) => {
            attempt_failed(
                at.session,
                how,
                session,
                call,
                attempt,
                ThreadErrorView::Gateway(text@),
            )
        },
        (StageView::Paused { how, session, call, attempt }, Occurrence::Rested) => (
            LoopView {
                session: at.session,
                stage: StageView::Open { how, session, call, attempt },
            },
            only(NextView::Call(call)),
        ),
        (StageView::Replay { session }, Occurrence::Replayed(updates)) => (
            LoopView { session: Some(session), stage: StageView::Idle },
            OutcomeView {
                events: update_events(json_seq(updates@)),
                bound: Some(session),
                next: NextView::Reply(AnswerView::Done),
            },
        ),
        (StageView::Prompt, Occurrence::Answered { value, updates }) => (
            LoopView {
                session: at.session,
                stage: StageView::Quiet {
                    stop_reason: text_or(str_field(value@, "stopReason"@), "end_turn"@),
                },
            },
            OutcomeView {
                events: update_events(json_seq(updates@)),
                bound: None,
                next: NextView::AwaitQuiet { millis: FIRST_QUIET_MS },
            },
        ),
        (StageView::Prompt, Occurrence::Failed(text)) => (
            LoopView { session: at.session, stage: StageView::Idle },
            OutcomeView {
                events: seq![AgentEventView::Error(text@)],
                bound: None,
                next: NextView::Reply(AnswerView::Failure(ThreadErrorView::Gateway(text@))),
            },
        ),
        (StageView::Quiet { stop_reason }, Occurrence::Waited { update, elapsed_ms }) => {
            match (update, quiet_wait(elapsed_ms)) {
                (Some(_), Some(millis)) => (
                    at,
                    OutcomeView {
                        events: late_events(update),
                        bound: None,
                        next: NextView::AwaitQuiet { millis },
                    },
                ),
                _ => (
                    LoopView { session: at.session, stage: StageView::Idle },
                    OutcomeView {
                        events: late_events(update).push(AgentEventView::TurnEnded(stop_reason)),
                        bound: None,
                        next: NextView::Reply(AnswerView::Done),
                    },
                ),
            }
        },
        (StageView::Single { purpose }, Occurrence::Answered { value, .. }) => (
            LoopView { session: at.session, stage: StageView::Idle },
            OutcomeView {
                events: if purpose == Purpose::Options {
                    advertised(value@)
                } else {
                    Seq::empty()
                },
                bound: None,
                next: NextView::Reply(single_answer(purpose, value@)),
            },
        ),
        (StageView::Listing, Occurrence::Sessions(sessions)) => at_once(
            at.session,
            AnswerView::Sessions(sessions@),
        ),
        (StageView::Single { .. }, Occurrence::Failed(text)) => at_once(
            at.session,
            AnswerView::Failure(ThreadErrorView::Gateway(text@)),
        ),
        (StageView::Listing, Occurrence::Failed(text)) => at_once(
            at.session,
            AnswerView::Failure(ThreadErrorView::Gateway(text@)),
        ),
        _ => (at, only(NextView::Stay)),
    }
}

fn no_events() -> (r: Vec<AgentEvent>)
    ensures
        events_view(r@) == Seq::<AgentEventView>::empty(),
{
    let r: Vec<AgentEvent> = Vec::new();
    assert(events_view(r@) =~= Seq::empty());
    r
}

fn only_next(next: Next) -> (r: Outcome)
    ensures
        r@ == only(next@),
{
    Outcome { events: no_events(), bound: None, next }
}

fn single_call(method: &str, params: JsonValue) -> (r: Outcome)
    ensures
        r@ == only(NextView::Call(plain_call(method@, params@))),
{
    only_next(
        Next::Call(
            GatewayCall {
                method: method.to_owned(),
                params,
                profile: None,
                with_updates: false,
            },
        ),
    )
}

fn reply(answer: Answer) -> (r: Outcome)
    ensures
        r@ == only(NextView::Reply(answer@)),
{
    only_next(Next::Reply(answer))
}

fn joined_events(first: Vec<AgentEvent>, second: Vec<AgentEvent>) -> (r: Vec<AgentEvent>)
    ensures
        events_view(r@) == events_view(first@) + events_view(second@),
{
    let mut out: Vec<AgentEvent> = first;
    let mut more: Vec<AgentEvent> = second;
    out.append(&mut more);
    assert(events_view(out@) =~= events_view(first@) + events_view(second@));
    out
}

fn one_update(update: JsonValue) -> (r: Vec<AgentEvent>)
    ensures
        events_view(r@) == update_events(seq![update@]),
{
    let mut updates: Vec<JsonValue> = Vec::new();
    updates.push(update);
    assert(json_seq(updates@) =~= seq![update@]);
    forward_updates(updates.as_slice())
}

/// How long the next late notification is waited for.
pub fn next_quiet_wait(elapsed_ms: u64) -> (r: Option<u64>)
    ensures
        r == quiet_wait(elapsed_ms),
{
    if elapsed_ms >= TURN_LIMIT_MS {
        None
    } else if NEXT_QUIET_MS <= TURN_LIMIT_MS - elapsed_ms {
        Some(NEXT_QUIET_MS)
    } else {
        Some(TURN_LIMIT_MS - elapsed_ms)
    }
}

/// The call that cancels the turn of a session.
pub open spec fn cancel_read(session: Option<Seq<char>>) -> Option<CallView> {
    match session {
        Some(id) => Some(plain_call("session/cancel"@, text_object("sessionId"@, id))),
        None => None,
    }
}

/// The call that cancels the running turn; a failure where no session is bound.
pub fn cancel_call(session: &Option<String>) -> (r: Result<GatewayCall, AcpxThreadError>)
    ensures
        match r {
            Ok(call) => cancel_read(optional_text(*session)) == Some(call@),
            Err(e) => cancel_read(optional_text(*session)) is None && e@
                == ThreadErrorView::NoActiveSession,
        },
{
    match session {
        Some(id) => Ok(
            GatewayCall {
                method: "session/cancel".to_owned(),
                params: object1("sessionId", text_value(id.as_str())),
                profile: None,
                with_updates: false,
            },
        ),
        None => Err(AcpxThreadError::NoActiveSession),
    }
}

impl CommandLoop {
    /// A thread that is bound to no session yet, and waits for a command.
    pub fn new() -> (r: CommandLoop)
        ensures
            r@ == (LoopView { session: None, stage: StageView::Idle }),
    {
        CommandLoop { session: None, stage: Stage::Idle }
    }

    fn open(&mut self, how: Opening, target: String, call: GatewayCall) -> (r: Outcome)
        ensures
            (final(self)@, r@) == first_attempt(old(self)@.session, how, target@, call@),
    {
        let sent: GatewayCall = call.clone();
        self.stage = Stage::Open { how, session: target, call, attempt: 0 };
        only_next(Next::Call(sent))
    }

    fn call_for(&mut self, purpose: Purpose, method: &str, params: JsonValue) -> (r: Outcome)
        ensures
            (final(self)@, r@) == single(old(self)@.session, purpose, method@, params@),
    {
        self.stage = Stage::Single { purpose };
        single_call(method, params)
    }

    fn answer_now(&mut self, answer: Answer) -> (r: Outcome)
        ensures
            (final(self)@, r@) == at_once(old(self)@.session, answer@),
    {
        self.stage = Stage::Idle;
        reply(answer)
    }

    fn start(&mut self, command: Command) -> (r: Outcome)
        ensures
            (final(self)@, r@) == started(old(self)@.session, command),
    {
        broadcast use lemma_array_view;

        let bound: Option<String> = clone_optional(&self.session);
        match command {
            Command::OpenSession { cwd, profile, mcp_servers } => {
                let params: JsonValue = object2(
                    "cwd",
                    JsonValue::Text(cwd),
                    "mcpServers",
                    JsonValue::Array(mcp_servers),
                );
                self.open(
                    Opening::New,
                    String::new(),
                    GatewayCall {
                        method: "session/new".to_owned(),
                        params,
                        profile,
                        with_updates: false,
                    },
                )
            },
            Command::ResumeSession { session_id, cwd, mcp_servers } => {
                let params: JsonValue = object3(
                    "sessionId",
                    text_value(session_id.as_str()),
                    "cwd",
                    JsonValue::Text(cwd),
                    "mcpServers",
                    JsonValue::Array(mcp_servers),
                );
                self.open(
                    Opening::Load,
                    session_id,
                    GatewayCall {
                        method: "session/load".to_owned(),
                        params,
                        profile: None,
                        with_updates: true,
                    },
                )
            },
            Command::ReattachSession { session_id, cwd } => {
                let params: JsonValue = object2(
                    "sessionId",
                    text_value(session_id.as_str()),
                    "cwd",
                    JsonValue::Text(cwd),
                );
                self.open(
                    Opening::Attach,
                    session_id,
                    GatewayCall {
                        method: "session/resume".to_owned(),
                        params,
                        profile: None,
                        with_updates: true,
                    },
                )
            },
            Command::SendPrompt { text } => match bound {
                Some(id) => {
                    let block: JsonValue = object2(
                        "type",
                        text_value("text"),
                        "text",
                        JsonValue::Text(text),
                    );
                    let params: JsonValue = object2(
                        "sessionId",
                        JsonValue::Text(id),
                        "prompt",
                        array1(block),
                    );
                    self.stage = Stage::Prompt;
                    only_next(
                        Next::Call(
                            GatewayCall {
                                method: "session/prompt".to_owned(),
                                params,
                                profile: None,
                                with_updates: true,
                            },
                        ),
                    )
                },
                None => self.answer_now(Answer::Failure(AcpxThreadError::NoActiveSession)),
            },
            Command::ListSessions { agent_id } => {
                self.stage = Stage::Listing;
                only_next(Next::ListSessions(agent_id))
            },
            Command::ListProfiles => self.call_for(Purpose::Profiles, "profiles/list", object0()),
            Command::CloseSession { background } => match bound {
                Some(id) => {
                    let params: JsonValue = if background {
                        object2(
                            "sessionId",
                            JsonValue::Text(id),
                            "_acpx",
                            object1("bg", JsonValue::Bool(true)),
                        )
                    } else {
                        object1("sessionId", JsonValue::Text(id))
                    };
                    self.call_for(Purpose::Acknowledge, "session/close", params)
                },
                None => self.answer_now(Answer::Done),
            },
            Command::DeleteSession => match bound {
                Some(id) => self.call_for(
                    Purpose::Acknowledge,
                    "session/delete",
                    object1("sessionId", JsonValue::Text(id)),
                ),
                None => self.answer_now(Answer::Done),
            },
            Command::SetMode { mode_id } => match bound {
                Some(id) => self.call_for(
                    Purpose::Acknowledge,
                    "session/set_mode",
                    object2("sessionId", JsonValue::Text(id), "modeId", JsonValue::Text(mode_id)),
                ),
                None => self.answer_now(Answer::Failure(AcpxThreadError::NoActiveSession)),
            },
            Command::SetConfigOption { config_id, value } => match bound {
                Some(id) => self.call_for(
                    Purpose::Options,
                    "session/set_config_option",
                    object3(
                        "sessionId",
                        JsonValue::Text(id),
                        "configId",
                        JsonValue::Text(config_id),
                        "value",
                        value,
                    ),
                ),
                None => self.answer_now(Answer::Failure(AcpxThreadError::NoActiveSession)),
            },
            Command::ListMcpServers => self.call_for(
                Purpose::Servers,
                "mcp_servers/list",
                object0(),
            ),
            Command::CreateMcpServer { entry } => self.call_for(
                Purpose::Whole,
                "mcp_servers/create",
                entry,
            ),
            Command::UpdateMcpServer { entry } => self.call_for(
                Purpose::Whole,
                "mcp_servers/update",
                entry,
            ),
            Command::DeleteMcpServer { name } => self.call_for(
                Purpose::Acknowledge,
                "mcp_servers/delete",
                object1("name", JsonValue::Text(name)),
            ),
            Command::CreateProfile { entry } => self.call_for(
                Purpose::Whole,
                "profiles/create",
                entry,
            ),
            Command::UpdateProfile { entry } => self.call_for(
                Purpose::Whole,
                "profiles/update",
                entry,
            ),
            Command::DeleteProfile { name } => self.call_for(
                Purpose::Acknowledge,
                "profiles/delete",
                object1("name", JsonValue::Text(name)),
            ),
            Command::ListAgents => self.call_for(Purpose::Agents, "agents/list", object0()),
            Command::AgentStatus { agent_id } => self.call_for(
                Purpose::Whole,
                "agents/status",
                object1("id", JsonValue::Text(agent_id)),
            ),
            Command::InstallAgent { agent_id } => self.call_for(
                Purpose::Whole,
                "agents/install",
                object1("id", JsonValue::Text(agent_id)),
            ),
            Command::Shutdown => {
                self.stage = Stage::Stopped;
                only_next(Next::Stop)
            },
        }
    }

    fn fail_attempt(
        &mut self,
        how: Opening,
        target: String,
        call: GatewayCall,
        attempt: u64,
        why: AcpxThreadError,
    ) -> (r: Outcome)
        ensures
            (final(self)@, r@) == attempt_failed(
                old(self)@.session,
                how,
                target@,
                call@,
                attempt,
                why@,
            ),
    {
        if attempt >= OPEN_ATTEMPTS - 1 {
            self.answer_now(Answer::Failure(why))
        } else {
            self.stage = Stage::Paused { how, session: target, call, attempt: attempt + 1 };
            only_next(Next::Pause { millis: PAUSE_STEP_MS * (attempt + 1) })
        }
    }

    fn answer_attempt(
        &mut self,
        how: Opening,
        target: String,
        call: GatewayCall,
        attempt: u64,
        value: JsonValue,
        updates: Vec<JsonValue>,
    ) -> (r: Outcome)
        ensures
            (final(self)@, r@) == attempt_answered(
                old(self)@.session,
                how,
                target@,
                call@,
                attempt,
                value@,
                json_seq(updates@),
            ),
    {
        match how {
            Opening::New => match get_str(&value, "sessionId") {
                Some(id) => {
                    self.session = Some(id.to_owned());
                    self.stage = Stage::Idle;
                    Outcome {
                        events: emit_capability_events(&value),
                        bound: Some(id.to_owned()),
                        next: Next::Reply(Answer::Session(id.to_owned())),
                    }
                },
                None => self.fail_attempt(
                    how,
                    target,
                    call,
                    attempt,
                    AcpxThreadError::MissingSessionId,
                ),
            },
            Opening::Load => {
                self.stage = Stage::Replay { session: target };
                Outcome {
                    events: joined_events(
                        emit_capability_events(&value),
                        forward_updates(updates.as_slice()),
                    ),
                    bound: None,
                    next: Next::CollectReplay { millis: REPLAY_WAIT_MS },
                }
            },
            Opening::Attach => {
                self.session = Some(target.clone());
                self.stage = Stage::Idle;
                Outcome {
                    events: joined_events(
                        emit_capability_events(&value),
                        forward_updates(updates.as_slice()),
                    ),
                    bound: Some(target),
                    next: Next::Reply(Answer::Done),
                }
            },
        }
    }

    fn end_wait(&mut self, stop_reason: String, update: Option<JsonValue>, elapsed_ms: u64) -> (r:
        Outcome)
        requires
            old(self)@.stage is Idle,
        ensures
            (final(self)@, r@) == stepped(
                LoopView {
                    session: old(self)@.session,
                    stage: StageView::Quiet { stop_reason: stop_reason@ },
                },
                Occurrence::Waited { update, elapsed_ms },
            ),
    {
        match update {
            Some(u) => {
                let events: Vec<AgentEvent> = one_update(u);
                match next_quiet_wait(elapsed_ms) {
                    Some(millis) => {
                        self.stage = Stage::Quiet { stop_reason };
                        Outcome { events, bound: None, next: Next::AwaitQuiet { millis } }
                    },
                    None => {
                        let mut all: Vec<AgentEvent> = events;
                        let ghost before = events_view(all@);
                        all.push(AgentEvent::TurnEnded(stop_reason));
                        assert(events_view(all@) =~= before.push(
                            AgentEventView::TurnEnded(stop_reason@),
                        ));
                        Outcome { events: all, bound: None, next: Next::Reply(Answer::Done) }
                    },
                }
            },
            None => {
                let mut all: Vec<AgentEvent> = Vec::new();
                all.push(AgentEvent::TurnEnded(stop_reason));
                assert(events_view(all@) =~= Seq::empty().push(
                    AgentEventView::TurnEnded(stop_reason@),
                ));
                Outcome { events: all, bound: None, next: Next::Reply(Answer::Done) }
            },
        }
    }

    fn finish_single(&mut self, purpose: Purpose, value: JsonValue) -> (r: Outcome)
        ensures
            final(self)@ == (LoopView { session: old(self)@.session, stage: StageView::Idle }),
            r@ == (OutcomeView {
                events: if purpose == Purpose::Options {
                    advertised(value@)
                } else {
                    Seq::empty()
                },
                bound: None,
                next: NextView::Reply(single_answer(purpose, value@)),
            }),
    {
        self.stage = Stage::Idle;
        match purpose {
            Purpose::Acknowledge => reply(Answer::Done),
            Purpose::Options => Outcome {
                events: emit_capability_events(&value),
                bound: None,
                next: Next::Reply(Answer::Done),
            },
            Purpose::Profiles => reply(Answer::Profiles(parse_profiles(&value))),
            Purpose::Servers => reply(Answer::Entries(list_entries(&value, "servers"))),
            Purpose::Agents => reply(Answer::Entries(list_entries(&value, "agents"))),
            Purpose::Whole => reply(Answer::Value(value)),
        }
    }

    /// Takes in what happened, and says what the thread tells its listeners
    /// and does next. What the thread does not wait for changes nothing.
    pub fn step(&mut self, what: Occurrence) -> (r: Outcome)
        ensures
            (final(self)@, r@) == stepped(old(self)@, what),
    {
        let mut stage: Stage = Stage::Idle;
        std::mem::swap(&mut stage, &mut self.stage);
        match (stage, what) {
            (Stage::Stopped, _) => {
                self.stage = Stage::Stopped;
                only_next(Next::Stop)
            },
            (stage, Occurrence::Update(update)) => {
                self.stage = stage;
                Outcome { events: one_update(update), bound: None, next: Next::Stay }
            },
            (Stage::Idle, Occurrence::Asked(command)) => self.start(command),
            (
                Stage::Open { how, session, call, attempt },
                Occurrence::Answered { value, updates },
            ) => self.answer_attempt(how, session, call, attempt, value, updates),
            (Stage::Open { how, session, call, attempt }, Occurrence::Failed(text)) => {
                self.fail_attempt(how, session, call, attempt, AcpxThreadError::Gateway(text))
            },
            (Stage::Paused { how, session, call, attempt }, Occurrence::Rested) => {
                let sent: GatewayCall = call.clone();
                self.stage = Stage::Open { how, session, call, attempt };
                only_next(Next::Call(sent))
            },
            (Stage::Replay { session }, Occurrence::Replayed(updates)) => {
                self.session = Some(session.clone());
                Outcome {
                    events: forward_updates(updates.as_slice()),
                    bound: Some(session),
                    next: Next::Reply(Answer::Done),
                }
            },
            (Stage::Prompt, Occurrence::Answered { value, updates }) => {
                let stop_reason: String = owned_or(get_str(&value, "stopReason"), "end_turn");
                self.stage = Stage::Quiet { stop_reason };
                Outcome {
                    events: forward_updates(updates.as_slice()),
                    bound: None,
                    next: Next::AwaitQuiet { millis: FIRST_QUIET_MS },
                }
            },
            (Stage::Prompt, Occurrence::Failed(text)) => {
                let mut events: Vec<AgentEvent> = Vec::new();
                events.push(AgentEvent::Error(text.clone()));
                assert(events_view(events@) =~= seq![AgentEventView::Error(text@)]);
                Outcome {
                    events,
                    bound: None,
                    next: Next::Reply(Answer::Failure(AcpxThreadError::Gateway(text))),
                }
            },
            (Stage::Quiet { stop_reason }, Occurrence::Waited { update, elapsed_ms }) => {
                self.end_wait(stop_reason, update, elapsed_ms)
            },
            (Stage::Single { purpose }, Occurrence::Answered { value, .. }) => {
                self.finish_single(purpose, value)
            },
            (Stage::Listing, Occurrence::Sessions(sessions)) => {
                reply(Answer::Sessions(sessions))
            },
            (Stage::Single { .. }, Occurrence::Failed(text)) => {
                reply(Answer::Failure(AcpxThreadError::Gateway(text)))
            },
            (Stage::Listing, Occurrence::Failed(text)) => {
                reply(Answer::Failure(AcpxThreadError::Gateway(text)))
            },
            (stage, _) => {
                self.stage = stage;
                only_next(Next::Stay)
            },
        }
    }
}

/// Whether a thread is in the middle of a command.
pub open spec fn busy(at: LoopView) -> bool {
    !(at.stage is Idle) && !(at.stage is Stopped)
}

/// A command is answered exactly once: a step that answers ends the command,
/// and a command ends only in a step that answers it.
pub proof fn law_one_answer_per_command(at: LoopView, what: Occurrence)
    requires
        busy(at) || what is Asked,
        !(at.stage is Stopped),
    ensures
        stepped(at, what).0.stage is Idle && (busy(at) || what is Asked) <==> stepped(
            at,
            what,
        ).1.next is Reply,
{
}

/// The session of a thread changes only in a step that says so, and is never
/// given up.
pub proof fn law_session_changes_are_told(at: LoopView, what: Occurrence)
    ensures
        ({
            let (then, out) = stepped(at, what);
            &&& out.bound is None ==> then.session == at.session
            &&& out.bound is Some ==> then.session == out.bound
            &&& at.session is Some ==> then.session is Some
        }),
{
}

/// Without a session, a prompt, a mode and an option are refused, and closing
/// and deleting are done at once; in each case the gateway is not called and
/// nothing changes.
pub proof fn law_no_session_no_call(command: Command)
    ensures
        ({
            let idle = LoopView { session: None, stage: StageView::Idle };
            let (then, out) = stepped(idle, Occurrence::Asked(command));
            &&& (command is SendPrompt || command is SetMode || command is SetConfigOption) ==> (
            then == idle && out == only(
                NextView::Reply(AnswerView::Failure(ThreadErrorView::NoActiveSession)),
            ))
            &&& (command is CloseSession || command is DeleteSession) ==> (then == idle && out
                == only(NextView::Reply(AnswerView::Done)))
        }),
{
}

/// The state of a thread whose every attempt to open a session fails, after
/// `failures` failed attempts and the pauses between them.
pub open spec fn after_failures(
    at: LoopView,
    text: String,
    failures: nat,
) -> LoopView
    decreases failures,
{
    if failures == 0 {
        at
    } else {
        let before = after_failures(at, text, (failures - 1) as nat);
        let failed = stepped(before, Occurrence::Failed(text)).0;
        stepped(failed, Occurrence::Rested).0
    }
}

/// A session that cannot be opened is tried exactly five times with the same
/// call; then the last failure is the answer.
pub proof fn law_opening_gives_up(
    session: Option<Seq<char>>,
    how: Opening,
    target: Seq<char>,
    call: CallView,
    text: String,
)
    ensures
        ({
            let first = first_attempt(session, how, target, call).0;
            &&& forall|n: nat|
                n < OPEN_ATTEMPTS ==> (#[trigger] after_failures(first, text, n)) == (LoopView {
                    session,
                    stage: StageView::Open { how, session: target, call, attempt: n as u64 },
                })
            &&& stepped(
                after_failures(first, text, (OPEN_ATTEMPTS - 1) as nat),
                Occurrence::Failed(text),
            ) == at_once(session, AnswerView::Failure(ThreadErrorView::Gateway(text@)))
        }),
{
    let first = first_attempt(session, how, target, call).0;
    assert forall|n: nat| n < OPEN_ATTEMPTS implies (#[trigger] after_failures(first, text, n))
        == (LoopView {
        session,
        stage: StageView::Open { how, session: target, call, attempt: n as u64 },
    }) by {
        lemma_after_failures(session, how, target, call, text, n);
    }
}

proof fn lemma_after_failures(
    session: Option<Seq<char>>,
    how: Opening,
    target: Seq<char>,
    call: CallView,
    text: String,
    n: nat,
)
    requires
        n < OPEN_ATTEMPTS,
    ensures
        after_failures(first_attempt(session, how, target, call).0, text, n) == (LoopView {
            session,
            stage: StageView::Open { how, session: target, call, attempt: n as u64 },
        }),
    decreases n,
{
    if n > 0 {
        lemma_after_failures(session, how, target, call, text, (n - 1) as nat);
    }
}

/// A wait for late notifications never reaches past the turn's limit.
pub proof fn law_quiet_wait_is_bounded(elapsed_ms: u64)
    ensures
        quiet_wait(elapsed_ms) is Some ==> 0 < quiet_wait(elapsed_ms)->0 <= NEXT_QUIET_MS
            && elapsed_ms + quiet_wait(elapsed_ms)->0 <= TURN_LIMIT_MS,
        quiet_wait(elapsed_ms) is None <==> elapsed_ms >= TURN_LIMIT_MS,
{
}

} // verus!
