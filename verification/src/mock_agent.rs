//! A stand-in agent, simple and deterministic: it answers every prompt without
//! a model behind it.

use crate::json::{
    array, array1, fields_seq, get_str, json_seq, json_text, no_fields, object, object1, object2,
    object4, put, str_field, text_value, Json, JsonValue,
};
use crate::text::{
    borrowed_text, decimal, decimal_text, empty_text, join, join3, law_decimal_is_injective,
    lemma_decimal_digits, same, starts_with, text_or,
};
use state::{
    distinct_ids, find_session, lasting, law_put_session_is_found, put_session, remove_session,
    session_of, sessions_from_text, sessions_in, sessions_json, sessions_to_text, sessions_view,
    turns_view, with_session, without_session, ReplayTurn, SessionState, StateView,
};
use turns::{
    counts_as_turn, offers_view, persona_commands, persona_offers, plan_updates, planned_updates,
    prompt_turn, replay_of, send_replay, turn_of, updates_view, AgentCommand, AgentUpdate,
    PersonaOffer, Turn, UpdateView,
};
use vstd::prelude::*;

pub mod laws;
pub mod state;
pub mod turns;

verus! {

/// The agent: the persona that it stands in for, empty where it has none, the
/// commands that personas offer, the number that the next id gets, and its
/// sessions.
#[derive(Debug, PartialEq)]
pub struct MockAgent {
    pub persona: String,
    pub offers: Vec<PersonaOffer>,
    pub next_id: u64,
    pub sessions: Vec<(String, SessionState)>,
}

/// A [`MockAgent`] as a mathematical value.
#[verifier::ext_equal]
pub struct AgentView {
    pub persona: Seq<char>,
    pub offers: Seq<(Seq<char>, Seq<(Seq<char>, Seq<char>)>)>,
    pub next_id: u64,
    pub sessions: Seq<(Seq<char>, StateView)>,
}

impl View for MockAgent {
    type V = AgentView;

    open spec fn view(&self) -> AgentView {
        AgentView {
            persona: self.persona@,
            offers: offers_view(self.offers@),
            next_id: self.next_id,
            sessions: sessions_view(self.sessions@),
        }
    }
}

/// The number after another; the last is followed by zero.
pub open spec fn after(n: u64) -> u64 {
    if n == u64::MAX {
        0
    } else {
        (n + 1) as u64
    }
}

/// The id of the session with a number.
pub open spec fn session_name(n: u64) -> Seq<char> {
    "mock-session-"@ + decimal(n as nat)
}

/// The time with a number.
pub open spec fn time_name(n: u64) -> Seq<char> {
    "t"@ + decimal(n as nat)
}

/// The title of a session after a turn.
pub open spec fn turn_title(turn: u64, text: Seq<char>) -> Seq<char> {
    "Turn "@ + decimal(turn as nat) + ": "@ + text
}

/// A session that has just begun.
pub open spec fn new_state(n: u64) -> StateView {
    StateView {
        title: "New session"@,
        updated_at: time_name(n),
        turn_count: 0,
        replay_turns: Seq::empty(),
        model: "mock-model-a"@,
    }
}

/// The agent after it began a session.
pub open spec fn begun(agent: AgentView) -> AgentView {
    AgentView {
        next_id: after(after(agent.next_id)),
        sessions: with_session(
            agent.sessions,
            session_name(agent.next_id),
            new_state(after(agent.next_id)),
        ),
        ..agent
    }
}

/// A choice of the model.
pub open spec fn model_choice(value: Seq<char>, name: Seq<char>) -> Json {
    Json::Object(seq![("value"@, Json::Text(value)), ("name"@, Json::Text(name))])
}

/// The one thing that a session lets its client set: the model.
pub open spec fn model_option(current: Seq<char>) -> Json {
    Json::Object(
        seq![
            ("id"@, Json::Text("model"@)),
            ("name"@, Json::Text("Model"@)),
            ("type"@, Json::Text("select"@)),
            ("currentValue"@, Json::Text(current)),
            (
                "options"@,
                Json::Array(
                    seq![
                        model_choice("mock-model-a"@, "Mock Model A"@),
                        model_choice("mock-model-b"@, "Mock Model B"@),
                    ],
                ),
            ),
        ],
    )
}

/// What a session lets its client set.
pub open spec fn options_json(current: Seq<char>) -> Json {
    Json::Array(seq![model_option(current)])
}

/// What a session lets its client set.
pub fn config_options(current: &str) -> (r: JsonValue)
    ensures
        r@ == options_json(current@),
{
    let mut choices: Vec<JsonValue> = Vec::new();
    choices.push(
        object2("value", text_value("mock-model-a"), "name", text_value("Mock Model A")),
    );
    choices.push(
        object2("value", text_value("mock-model-b"), "name", text_value("Mock Model B")),
    );
    assert(json_seq(choices@) =~= seq![
        model_choice("mock-model-a"@, "Mock Model A"@),
        model_choice("mock-model-b"@, "Mock Model B"@),
    ]);
    let mut fields: Vec<(String, JsonValue)> = no_fields();
    put(&mut fields, "id", text_value("model"));
    put(&mut fields, "name", text_value("Model"));
    put(&mut fields, "type", text_value("select"));
    put(&mut fields, "currentValue", text_value(current));
    put(&mut fields, "options", array(choices));
    assert(fields_seq(fields@) =~= model_option(current@)->Object_0);
    array1(object(fields))
}

/// The session that an event is about, as JSON.
pub open spec fn event_session(session_id: Option<Seq<char>>) -> Json {
    match session_id {
        Some(id) => Json::Text(id),
        None => Json::Null,
    }
}

/// The record of something that the agent was asked.
pub open spec fn event_json(
    method: Seq<char>,
    session_id: Option<Seq<char>>,
    detail: Seq<char>,
    persona: Seq<char>,
) -> Json {
    Json::Object(
        seq![
            ("method"@, Json::Text(method)),
            ("session_id"@, event_session(session_id)),
            ("detail"@, Json::Text(detail)),
            ("persona"@, Json::Text(persona)),
        ],
    )
}

/// The record of something that the agent was asked, as a line of text.
pub open spec fn event_line(
    method: Seq<char>,
    session_id: Option<Seq<char>>,
    detail: Seq<char>,
    persona: Seq<char>,
) -> Seq<char> {
    json_text(event_json(method, session_id, detail, persona)) + "\n"@
}

/// The record of something that the agent was asked, as a line of text.
pub fn record_gateway_event(
    persona: &str,
    method: &str,
    session_id: Option<&str>,
    detail: &str,
) -> (r: String)
    ensures
        r@ == event_line(method@, borrowed_text(session_id), detail@, persona@),
{
    let session: JsonValue = match session_id {
        Some(id) => text_value(id),
        None => JsonValue::Null,
    };
    assert(session@ == event_session(borrowed_text(session_id)));
    let record: JsonValue = object4(
        "method",
        text_value(method),
        "session_id",
        session,
        "detail",
        text_value(detail),
        "persona",
        text_value(persona),
    );
    let text: String = record.to_text();
    join(text.as_str(), "\n")
}

/// What the agent answers where a session is not known.
pub open spec fn unknown_session() -> Seq<char> {
    "unknown session id"@
}

/// A session in the list of sessions.
#[derive(Debug, PartialEq)]
pub struct SessionLine {
    pub session_id: String,
    pub cwd: String,
    pub title: String,
    pub updated_at: String,
}

/// Whether a line is that of a session.
pub open spec fn line_of(line: SessionLine, session: (Seq<char>, StateView)) -> bool {
    &&& line.session_id@ == session.0
    &&& line.cwd@ == "/"@
    &&& line.title@ == session.1.title
    &&& line.updated_at@ == session.1.updated_at
}

/// Whether lines are those of the sessions, in order.
pub open spec fn sessions_listed(
    lines: Seq<SessionLine>,
    sessions: Seq<(Seq<char>, StateView)>,
) -> bool {
    lines.len() == sessions.len() && forall|k: int|
        0 <= k < lines.len() ==> line_of(#[trigger] lines[k], sessions[k])
}

/// What the agent tells at once on a prompt, and the turn that follows.
#[derive(Debug, PartialEq)]
pub struct Prompted {
    pub first: Vec<AgentUpdate>,
    pub turn: Turn,
}

/// Whether a session has had no turn that it remembers.
pub open spec fn first_turn(agent: AgentView, id: Seq<char>) -> bool {
    match session_of(agent.sessions, id) {
        Some(state) => state.turn_count == 0,
        None => true,
    }
}

/// The commands that are told before the first turn, where there are any.
pub open spec fn offered(agent: AgentView, id: Seq<char>) -> Seq<UpdateView> {
    let commands = persona_offers(agent.offers, agent.persona, 0);
    if first_turn(agent, id) && commands.len() > 0 {
        seq![UpdateView::Commands(commands)]
    } else {
        Seq::empty()
    }
}

/// What is told at once on a prompt.
pub open spec fn told_first(agent: AgentView, id: Seq<char>, text: Seq<char>) -> Seq<UpdateView> {
    offered(agent, id) + if "plan "@.is_prefix_of(text) {
        planned_updates()
    } else {
        Seq::empty()
    }
}

/// A session after a turn.
pub open spec fn turned(state: StateView, text: Seq<char>, now: u64) -> StateView {
    StateView {
        title: turn_title((state.turn_count + 1) as u64, text),
        updated_at: time_name(now),
        turn_count: (state.turn_count + 1) as u64,
        replay_turns: state.replay_turns.push(text),
        model: state.model,
    }
}

/// The agent after a prompt: only a plain turn of a known session is
/// remembered.
pub open spec fn prompted(agent: AgentView, id: Seq<char>, text: Seq<char>) -> AgentView {
    match session_of(agent.sessions, id) {
        Some(state) => if turn_of(agent.persona, text) is Plain {
            AgentView {
                next_id: after(agent.next_id),
                sessions: with_session(agent.sessions, id, turned(state, text, agent.next_id)),
                ..agent
            }
        } else {
            agent
        },
        None => agent,
    }
}

/// What the turns of a session tell, one after the other.
pub open spec fn replayed(persona: Seq<char>, turns: Seq<Seq<char>>) -> Seq<UpdateView>
    decreases turns.len(),
{
    if turns.len() == 0 {
        Seq::empty()
    } else {
        replayed(persona, turns.drop_last()) + replay_of(persona, turns.last())
    }
}

/// Whether a result is what loading a session comes to.
pub open spec fn loads_as(
    agent: AgentView,
    id: Seq<char>,
    r: Result<Vec<AgentUpdate>, String>,
) -> bool {
    match session_of(agent.sessions, id) {
        Some(state) => r is Ok && updates_view(r->Ok_0@) == replayed(
            agent.persona,
            state.replay_turns,
        ),
        None => r is Err && r->Err_0@ == unknown_session(),
    }
}

/// Whether a result is what taking up a session comes to.
pub open spec fn taken_up(agent: AgentView, id: Seq<char>, r: Result<(), String>) -> bool {
    &&& r is Ok <==> session_of(agent.sessions, id) is Some
    &&& r is Err ==> r->Err_0@ == unknown_session()
}

/// The agent after saved sessions were read.
pub open spec fn with_saved(agent: AgentView, saved: Seq<char>) -> AgentView {
    match sessions_in(saved) {
        Some(sessions) => AgentView { sessions, ..agent },
        None => agent,
    }
}

/// The agent after a session was taken away.
pub open spec fn without(agent: AgentView, id: Seq<char>) -> AgentView {
    AgentView { sessions: without_session(agent.sessions, id), ..agent }
}

/// The model of a session after it was asked to set something.
pub open spec fn model_after(state: StateView, config_id: Seq<char>, value: Seq<char>) -> Seq<
    char,
> {
    if config_id == "model"@ {
        value
    } else {
        state.model
    }
}

/// The agent after a session was asked to set something.
pub open spec fn configured(
    agent: AgentView,
    id: Seq<char>,
    config_id: Seq<char>,
    value: Seq<char>,
) -> AgentView {
    match session_of(agent.sessions, id) {
        Some(state) => AgentView {
            sessions: with_session(
                agent.sessions,
                id,
                StateView { model: model_after(state, config_id, value), ..state },
            ),
            ..agent
        },
        None => agent,
    }
}

/// What a session that was asked to set something answers; one that is not known
/// repeats the value.
pub open spec fn configured_answer(
    agent: AgentView,
    id: Seq<char>,
    config_id: Seq<char>,
    value: Seq<char>,
) -> Json {
    Json::Object(
        seq![
            (
                "configOptions"@,
                options_json(
                    match session_of(agent.sessions, id) {
                        Some(state) => model_after(state, config_id, value),
                        None => value,
                    },
                ),
            ),
        ],
    )
}

/// What is recorded of a setting.
pub open spec fn setting_text(config_id: Seq<char>, value: Seq<char>) -> Seq<char> {
    config_id + "="@ + value
}

/// The text that a field holds; empty where there is none.
pub open spec fn text_param(params: Json, key: Seq<char>) -> Seq<char> {
    text_or(str_field(params, key), Seq::empty())
}

/// What the agent was asked to set, and what it answers.
#[derive(Debug, PartialEq)]
pub struct Configured {
    pub session_id: String,
    pub detail: String,
    pub answer: JsonValue,
}

fn read_param(params: &JsonValue, key: &str) -> (r: String)
    ensures
        r@ == text_param(params@, key@),
{
    match get_str(params, key) {
        Some(text) => text.to_owned(),
        None => empty_text(),
    }
}

impl MockAgent {
    /// An agent without sessions.
    pub fn new(persona: String, offers: Vec<PersonaOffer>) -> (r: MockAgent)
        ensures
            r@.persona == persona@,
            r@.offers == offers_view(offers@),
            r@.next_id == 1,
            r@.sessions.len() == 0,
            distinct_ids(r@.sessions),
    {
        MockAgent { persona, offers, next_id: 1, sessions: Vec::new() }
    }

    fn take_number(&mut self) -> (r: u64)
        ensures
            r == old(self)@.next_id,
            final(self)@ == (AgentView { next_id: after(old(self)@.next_id), ..old(self)@ }),
            final(self).sessions == old(self).sessions,
    {
        let n: u64 = self.next_id;
        self.next_id = if n == u64::MAX {
            0
        } else {
            n + 1
        };
        n
    }

    /// The time: later calls give later ones.
    pub fn now_iso(&mut self) -> (r: String)
        ensures
            r@ == time_name(old(self)@.next_id),
            final(self)@ == (AgentView { next_id: after(old(self)@.next_id), ..old(self)@ }),
            final(self).sessions == old(self).sessions,
    {
        let n: u64 = self.take_number();
        let digits: String = decimal_text(n);
        join("t", digits.as_str())
    }

    /// Takes over the sessions that were saved, where they can be read.
    pub fn load_persisted_sessions(&mut self, saved: &str)
        ensures
            final(self)@ == with_saved(old(self)@, saved@),
    {
        if let Some(sessions) = sessions_from_text(saved) {
            self.sessions = sessions;
        }
    }

    /// The sessions as they are saved, and read again.
    pub fn persist_sessions(&self) -> (r: String)
        ensures
            r@ == json_text(sessions_json(self@.sessions)),
            lasting(self@.sessions) ==> sessions_in(r@) == Some(self@.sessions),
    {
        sessions_to_text(&self.sessions)
    }

    /// Begins a session; gives its id.
    pub fn new_session(&mut self) -> (r: String)
        ensures
            r@ == session_name(old(self)@.next_id),
            final(self)@ == begun(old(self)@),
    {
        let n: u64 = self.take_number();
        let digits: String = decimal_text(n);
        let id: String = join("mock-session-", digits.as_str());
        let updated_at: String = self.now_iso();
        let replay_turns: Vec<ReplayTurn> = Vec::new();
        assert(turns_view(replay_turns@) =~= Seq::empty());
        put_session(
            &mut self.sessions,
            id.clone(),
            SessionState {
                title: "New session".to_owned(),
                updated_at,
                turn_count: 0,
                replay_turns,
                model: "mock-model-a".to_owned(),
            },
        );
        id
    }

    /// Whether a session is known.
    pub fn knows(&self, session_id: &str) -> (r: bool)
        ensures
            r == (session_of(self@.sessions, session_id@) is Some),
    {
        find_session(&self.sessions, session_id).is_some()
    }

    fn offer(&self, session_id: &str) -> (r: Vec<AgentUpdate>)
        ensures
            updates_view(r@) == offered(self@, session_id@),
    {
        let first: bool = match find_session(&self.sessions, session_id) {
            Some(at) => self.sessions[at].1.turn_count == 0,
            None => true,
        };
        let mut out: Vec<AgentUpdate> = Vec::new();
        if first {
            let commands: Vec<AgentCommand> = persona_commands(
                &self.offers,
                self.persona.as_str(),
            );
            if commands.len() > 0 {
                out.push(AgentUpdate::Commands(commands));
            }
        }
        assert(updates_view(out@) =~= offered(self@, session_id@));
        out
    }

    /// Answers a prompt. A session that counts as many turns as can be counted
    /// takes no further one that is counted.
    pub fn prompt(&mut self, session_id: &str, text: &str) -> (r: Prompted)
        requires
            counts_as_turn(text@) ==> match session_of(old(self)@.sessions, session_id@) {
                Some(state) => state.turn_count < u64::MAX,
                None => true,
            },
        ensures
            updates_view(r.first@) == told_first(old(self)@, session_id@, text@),
            r.turn@ == turn_of(old(self)@.persona, text@),
            final(self)@ == prompted(old(self)@, session_id@, text@),
    {
        let mut first: Vec<AgentUpdate> = self.offer(session_id);
        let ghost offers = updates_view(first@);
        if starts_with(text, "plan ") {
            let mut plan: Vec<AgentUpdate> = plan_updates();
            let ghost plans = updates_view(plan@);
            first.append(&mut plan);
            assert(updates_view(first@) =~= offers + plans);
        } else {
            assert(offers + Seq::empty() =~= offers);
        }
        let turn: Turn = prompt_turn(self.persona.as_str(), text);
        let plain: bool = match &turn {
            Turn::Plain { .. } => true,
            _ => false,
        };
        if plain {
            if let Some(at) = find_session(&self.sessions, session_id) {
                self.remember(at, text);
            }
        }
        Prompted { first, turn }
    }

    fn remember(&mut self, at: usize, text: &str)
        requires
            at < old(self).sessions@.len(),
            old(self).sessions@[at as int].1.turn_count < u64::MAX,
        ensures
            final(self)@ == (AgentView {
                next_id: after(old(self)@.next_id),
                sessions: old(self)@.sessions.update(
                    at as int,
                    (
                        old(self)@.sessions[at as int].0,
                        turned(old(self)@.sessions[at as int].1, text@, old(self)@.next_id),
                    ),
                ),
                ..old(self)@
            }),
    {
        let ghost before = self@;
        let updated_at: String = self.now_iso();
        let (id, mut state): (String, SessionState) = self.sessions.remove(at);
        let ghost old_state = state@;
        assert(before.sessions[at as int] == (id@, old_state));
        state.turn_count = state.turn_count + 1;
        let digits: String = decimal_text(state.turn_count);
        let head: String = join3("Turn ", digits.as_str(), ": ");
        state.title = join(head.as_str(), text);
        state.updated_at = updated_at;
        let ghost turns_before = state.replay_turns@;
        state.replay_turns.push(ReplayTurn { prompt_text: text.to_owned() });
        assert(turns_view(state.replay_turns@) =~= turns_view(turns_before).push(text@));
        assert(state@ == turned(old_state, text@, before.next_id));
        self.sessions.insert(at, (id, state));
        assert(self@.sessions =~= before.sessions.update(
            at as int,
            (before.sessions[at as int].0, turned(before.sessions[at as int].1, text@, before.next_id)),
        ));
    }

    /// The sessions that there are.
    pub fn list_sessions(&self) -> (r: Vec<SessionLine>)
        ensures
            sessions_listed(r@, self@.sessions),
    {
        let mut out: Vec<SessionLine> = Vec::new();
        let mut i: usize = 0;
        while i < self.sessions.len()
            invariant
                i <= self.sessions@.len(),
                out@.len() == i,
                forall|k: int| 0 <= k < i ==> line_of(#[trigger] out@[k], self@.sessions[k]),
            decreases self.sessions@.len() - i,
        {
            out.push(
                SessionLine {
                    session_id: self.sessions[i].0.clone(),
                    cwd: "/".to_owned(),
                    title: self.sessions[i].1.title.clone(),
                    updated_at: self.sessions[i].1.updated_at.clone(),
                },
            );
            i += 1;
        }
        out
    }

    /// Tells once more what the turns of a session told.
    pub fn load_session(&self, session_id: &str) -> (r: Result<Vec<AgentUpdate>, String>)
        ensures
            loads_as(self@, session_id@, r),
    {
        let at: usize = match find_session(&self.sessions, session_id) {
            Some(at) => at,
            None => {
                return Err("unknown session id".to_owned());
            },
        };
        let turns: &Vec<ReplayTurn> = &self.sessions[at].1.replay_turns;
        let ghost prompts = turns_view(turns@);
        let mut out: Vec<AgentUpdate> = Vec::new();
        let mut i: usize = 0;
        assert(updates_view(out@) =~= Seq::empty());
        assert(prompts.take(0) =~= Seq::empty());
        while i < turns.len()
            invariant
                i <= turns@.len(),
                prompts == turns_view(turns@),
                updates_view(out@) == replayed(self@.persona, prompts.take(i as int)),
            decreases turns@.len() - i,
        {
            let ghost before = updates_view(out@);
            let mut told: Vec<AgentUpdate> = send_replay(
                self.persona.as_str(),
                turns[i].prompt_text.as_str(),
            );
            let ghost new = updates_view(told@);
            out.append(&mut told);
            assert(updates_view(out@) =~= before + new);
            assert(prompts.take(i + 1).drop_last() =~= prompts.take(i as int));
            assert(prompts.take(i + 1).last() == turns@[i as int].prompt_text@);
            i += 1;
        }
        assert(prompts.take(i as int) =~= prompts);
        Ok(out)
    }

    /// Takes a session up again.
    pub fn resume_session(&self, session_id: &str) -> (r: Result<(), String>)
        ensures
            taken_up(self@, session_id@, r),
    {
        if self.knows(session_id) {
            Ok(())
        } else {
            Err("unknown session id".to_owned())
        }
    }

    /// Takes a session away for good.
    pub fn delete_session(&mut self, session_id: &str)
        ensures
            final(self)@ == without(old(self)@, session_id@),
    {
        remove_session(&mut self.sessions, session_id);
    }

    /// Sets what a client asks a session to set. Only the model can be set; of a
    /// session that is not known, the answer repeats the value.
    pub fn set_config_option(&mut self, params: &JsonValue) -> (r: Configured)
        ensures
            r.session_id@ == text_param(params@, "sessionId"@),
            r.detail@ == setting_text(
                text_param(params@, "configId"@),
                text_param(params@, "value"@),
            ),
            r.answer@ == configured_answer(
                old(self)@,
                text_param(params@, "sessionId"@),
                text_param(params@, "configId"@),
                text_param(params@, "value"@),
            ),
            final(self)@ == configured(
                old(self)@,
                text_param(params@, "sessionId"@),
                text_param(params@, "configId"@),
                text_param(params@, "value"@),
            ),
    {
        let session_id: String = read_param(params, "sessionId");
        let config_id: String = read_param(params, "configId");
        let value: String = read_param(params, "value");
        let detail: String = join3(config_id.as_str(), "=", value.as_str());
        let ghost before = self@;
        let current: String = match find_session(&self.sessions, session_id.as_str()) {
            Some(at) => {
                let (id, mut state): (String, SessionState) = self.sessions.remove(at);
                let ghost old_state = state@;
                if same(config_id.as_str(), "model") {
                    state.model = value.clone();
                }
                let current: String = state.model.clone();
                self.sessions.insert(at, (id, state));
                assert(self@.sessions =~= configured(
                    before,
                    session_id@,
                    config_id@,
                    value@,
                ).sessions);
                current
            },
            None => value,
        };
        let answer: JsonValue = object1("configOptions", config_options(current.as_str()));
        Configured { session_id, detail, answer }
    }
}

/// Two numbers never give one session id.
pub proof fn law_session_ids_differ(a: u64, b: u64)
    requires
        a != b,
    ensures
        session_name(a) != session_name(b),
        time_name(a) != time_name(b),
{
    let head = "mock-session-"@;
    if session_name(a) == session_name(b) {
        assert(decimal(a as nat) =~= session_name(a).skip(head.len() as int));
        assert(decimal(b as nat) =~= session_name(b).skip(head.len() as int));
        law_decimal_is_injective(a as nat, b as nat);
    }
    if time_name(a) == time_name(b) {
        assert(decimal(a as nat) =~= time_name(a).skip("t"@.len() as int));
        assert(decimal(b as nat) =~= time_name(b).skip("t"@.len() as int));
        law_decimal_is_injective(a as nat, b as nat);
    }
}

proof fn lemma_turn_titles_differ(a: u64, b: u64, first: Seq<char>, second: Seq<char>)
    requires
        a != b,
    ensures
        turn_title(a, first) != turn_title(b, second),
{
    reveal_strlit("Turn ");
    reveal_strlit(": ");
    let da = decimal(a as nat);
    let db = decimal(b as nat);
    lemma_decimal_digits(a as nat);
    lemma_decimal_digits(b as nat);
    let left = turn_title(a, first);
    let right = turn_title(b, second);
    if left == right {
        assert(left[5int + da.len()] == ':');
        assert(right[5int + db.len()] == ':');
        if da.len() < db.len() {
            assert(right[5int + da.len()] == db[da.len() as int]);
        }
        if db.len() < da.len() {
            assert(left[5int + db.len()] == da[db.len() as int]);
        }
        assert(da =~= left.subrange(5, 5int + da.len()));
        assert(db =~= right.subrange(5, 5int + db.len()));
        law_decimal_is_injective(a as nat, b as nat);
    }
}

/// Every turn changes what the list of sessions says of a session: its title,
/// and its time where the clock has not gone all the way round.
pub proof fn law_turns_change_the_session(
    state: StateView,
    first: Seq<char>,
    then_text: Seq<char>,
    first_time: u64,
    then_time: u64,
)
    requires
        state.turn_count <= u64::MAX - 2,
        first_time != then_time,
    ensures
        turned(turned(state, first, first_time), then_text, then_time).title != turned(
            state,
            first,
            first_time,
        ).title,
        turned(turned(state, first, first_time), then_text, then_time).updated_at != turned(
            state,
            first,
            first_time,
        ).updated_at,
{
    lemma_turn_titles_differ(
        (state.turn_count + 1) as u64,
        (state.turn_count + 2) as u64,
        first,
        then_text,
    );
    law_session_ids_differ(first_time, then_time);
}

/// Loading a session tells what its turns told when they were prompted: a plain
/// turn adds exactly what it told.
pub proof fn law_load_repeats_the_turns(agent: AgentView, id: Seq<char>, text: Seq<char>)
    requires
        distinct_ids(agent.sessions),
        session_of(agent.sessions, id) is Some,
        turn_of(agent.persona, text) is Plain,
    ensures
        session_of(prompted(agent, id, text).sessions, id) is Some,
        replayed(
            agent.persona,
            session_of(prompted(agent, id, text).sessions, id)->0.replay_turns,
        ) == replayed(agent.persona, session_of(agent.sessions, id)->0.replay_turns) + turn_of(
            agent.persona,
            text,
        )->Plain_0,
{
    let state = session_of(agent.sessions, id)->0;
    law_put_session_is_found(agent.sessions, id, turned(state, text, agent.next_id), id);
    assert(state.replay_turns.push(text).drop_last() =~= state.replay_turns);
}

/// A prompt changes no session but its own, and leaves the ids distinct.
pub proof fn law_prompt_keeps_other_sessions(
    agent: AgentView,
    id: Seq<char>,
    text: Seq<char>,
    other: Seq<char>,
)
    requires
        distinct_ids(agent.sessions),
        other != id,
    ensures
        distinct_ids(prompted(agent, id, text).sessions),
        session_of(prompted(agent, id, text).sessions, other) == session_of(agent.sessions, other),
{
    if session_of(agent.sessions, id) is Some {
        let state = session_of(agent.sessions, id)->0;
        law_put_session_is_found(agent.sessions, id, turned(state, text, agent.next_id), other);
    }
}

/// A session that has begun is known, with the model that is set at first, and
/// a model that is set stays set until it is set again.
pub proof fn law_set_model_is_kept(
    agent: AgentView,
    id: Seq<char>,
    value: Seq<char>,
    text: Seq<char>,
)
    requires
        distinct_ids(agent.sessions),
        session_of(agent.sessions, id) is Some,
    ensures
        session_of(configured(agent, id, "model"@, value).sessions, id) is Some,
        session_of(configured(agent, id, "model"@, value).sessions, id)->0.model == value,
        session_of(
            prompted(configured(agent, id, "model"@, value), id, text).sessions,
            id,
        )->0.model == value,
        session_of(begun(agent).sessions, session_name(agent.next_id))->0.model == "mock-model-a"@,
{
    let state = session_of(agent.sessions, id)->0;
    let set = StateView { model: value, ..state };
    law_put_session_is_found(agent.sessions, id, set, id);
    let later = configured(agent, id, "model"@, value);
    law_put_session_is_found(later.sessions, id, turned(set, text, later.next_id), id);
    law_put_session_is_found(
        agent.sessions,
        session_name(agent.next_id),
        new_state(after(agent.next_id)),
        id,
    );
}

} // verus!
