//! The sessions of the stand-in agent, and how they outlive it.

use crate::json::{
    by_position, distinct_names, faithful, field, fields_by_position, fields_seq, json_parsed,
    json_shown, json_text, lemma_faithful_deeper, lemma_field_found, names_view, no_fields, object,
    put, str_field, text_value, Json, JsonValue, MAX_DEPTH, RESERVED_KEY,
};
use crate::records::{
    is_without_repeats, lemma_faithful_without_repeats, without_repeats, Part, Record,
};
use crate::runtime_snapshot::{
    lemma_list_faithful, lemma_list_round_trip, list_from_json, list_json, list_member,
    list_to_json, read_str_member, seen_list, Stored,
};
use crate::seqs::{every, lemma_every, lemma_every_none};
use crate::text::same;
use vstd::prelude::*;

verus! {

/// A turn that a session remembers.
#[derive(Debug, PartialEq)]
pub struct ReplayTurn {
    pub prompt_text: String,
}

/// A session of the agent.
#[derive(Debug, PartialEq)]
pub struct SessionState {
    pub title: String,
    pub updated_at: String,
    pub turn_count: u64,
    pub replay_turns: Vec<ReplayTurn>,
    pub model: String,
}

/// A [`SessionState`] as a mathematical value; a turn is its prompt.
#[verifier::ext_equal]
pub struct StateView {
    pub title: Seq<char>,
    pub updated_at: Seq<char>,
    pub turn_count: u64,
    pub replay_turns: Seq<Seq<char>>,
    pub model: Seq<char>,
}

/// The prompts of turns.
pub open spec fn turns_view(v: Seq<ReplayTurn>) -> Seq<Seq<char>> {
    v.map_values(|t: ReplayTurn| t.prompt_text@)
}

impl View for SessionState {
    type V = StateView;

    open spec fn view(&self) -> StateView {
        StateView {
            title: self.title@,
            updated_at: self.updated_at@,
            turn_count: self.turn_count,
            replay_turns: turns_view(self.replay_turns@),
            model: self.model@,
        }
    }
}

/// Sessions with their ids, as mathematical values.
pub open spec fn sessions_view(v: Seq<(String, SessionState)>) -> Seq<(Seq<char>, StateView)> {
    v.map_values(|s: (String, SessionState)| (s.0@, s.1@))
}

/// The position of the session with an id, at `from` or later.
pub open spec fn session_from(
    sessions: Seq<(Seq<char>, StateView)>,
    id: Seq<char>,
    from: int,
) -> Option<int>
    decreases sessions.len() - from,
{
    if from < 0 || from >= sessions.len() {
        None
    } else if sessions[from].0 == id {
        Some(from)
    } else {
        session_from(sessions, id, from + 1)
    }
}

/// The session with an id.
pub open spec fn session_of(sessions: Seq<(Seq<char>, StateView)>, id: Seq<char>) -> Option<
    StateView,
> {
    match session_from(sessions, id, 0) {
        Some(at) => Some(sessions[at].1),
        None => None,
    }
}

/// Whether no two sessions have one id.
pub open spec fn distinct_ids(sessions: Seq<(Seq<char>, StateView)>) -> bool {
    forall|i: int, k: int|
        0 <= i < k < sessions.len() ==> (#[trigger] sessions[i]).0 != (#[trigger] sessions[k]).0
}

/// Sessions after one was put among them: in the place of the one with its id,
/// or else behind them.
pub open spec fn with_session(
    sessions: Seq<(Seq<char>, StateView)>,
    id: Seq<char>,
    state: StateView,
) -> Seq<(Seq<char>, StateView)> {
    match session_from(sessions, id, 0) {
        Some(at) => sessions.update(at, (id, state)),
        None => sessions.push((id, state)),
    }
}

/// Sessions without the one with an id.
pub open spec fn without_session(sessions: Seq<(Seq<char>, StateView)>, id: Seq<char>) -> Seq<
    (Seq<char>, StateView),
> {
    match session_from(sessions, id, 0) {
        Some(at) => sessions.remove(at),
        None => sessions,
    }
}

/// The position of the session with an id.
pub fn find_session(sessions: &Vec<(String, SessionState)>, id: &str) -> (r: Option<usize>)
    ensures
        match session_from(sessions_view(sessions@), id@, 0) {
            Some(at) => r is Some && r->0 == at,
            None => r is None,
        },
        r is Some ==> r->0 < sessions@.len() && sessions@[r->0 as int].0@ == id@,
{
    let ghost all = sessions_view(sessions@);
    let mut i: usize = 0;
    while i < sessions.len()
        invariant
            i <= sessions@.len(),
            all == sessions_view(sessions@),
            session_from(all, id@, 0) == session_from(all, id@, i as int),
        decreases sessions@.len() - i,
    {
        if same(sessions[i].0.as_str(), id) {
            return Some(i);
        }
        i += 1;
    }
    None
}

/// Puts a session among others: in the place of the one with its id, or else
/// behind them.
pub fn put_session(sessions: &mut Vec<(String, SessionState)>, id: String, state: SessionState)
    ensures
        sessions_view(final(sessions)@) == with_session(
            sessions_view(old(sessions)@),
            id@,
            state@,
        ),
{
    match find_session(sessions, id.as_str()) {
        Some(at) => {
            sessions.set(at, (id, state));
        },
        None => {
            sessions.push((id, state));
        },
    }
    assert(sessions_view(sessions@) =~= with_session(sessions_view(old(sessions)@), id@, state@));
}

/// Takes the session with an id away; where there is none, nothing changes.
pub fn remove_session(sessions: &mut Vec<(String, SessionState)>, id: &str)
    ensures
        sessions_view(final(sessions)@) == without_session(sessions_view(old(sessions)@), id@),
{
    if let Some(at) = find_session(sessions, id) {
        sessions.remove(at);
    }
    assert(sessions_view(sessions@) =~= without_session(sessions_view(old(sessions)@), id@));
}

proof fn lemma_session_from(sessions: Seq<(Seq<char>, StateView)>, id: Seq<char>, from: int)
    requires
        0 <= from,
    ensures
        match session_from(sessions, id, from) {
            Some(at) => from <= at < sessions.len() && sessions[at].0 == id && forall|k: int|
                from <= k < at ==> (#[trigger] sessions[k]).0 != id,
            None => forall|k: int|
                from <= k < sessions.len() ==> (#[trigger] sessions[k]).0 != id,
        },
    decreases sessions.len() - from,
{
    if from < sessions.len() && sessions[from].0 != id {
        lemma_session_from(sessions, id, from + 1);
    }
}

proof fn lemma_found_at(sessions: Seq<(Seq<char>, StateView)>, at: int)
    requires
        distinct_ids(sessions),
        0 <= at < sessions.len(),
    ensures
        session_from(sessions, sessions[at].0, 0) == Some(at),
{
    lemma_session_from(sessions, sessions[at].0, 0);
}

/// A session that was put among others is the one that its id gives, the others
/// stay as they were, and no two have one id.
pub proof fn law_put_session_is_found(
    sessions: Seq<(Seq<char>, StateView)>,
    id: Seq<char>,
    state: StateView,
    other: Seq<char>,
)
    requires
        distinct_ids(sessions),
    ensures
        distinct_ids(with_session(sessions, id, state)),
        session_of(with_session(sessions, id, state), id) == Some(state),
        other != id ==> session_of(with_session(sessions, id, state), other) == session_of(
            sessions,
            other,
        ),
{
    let after = with_session(sessions, id, state);
    lemma_session_from(sessions, id, 0);
    assert(distinct_ids(after));
    let at = match session_from(sessions, id, 0) {
        Some(at) => at,
        None => sessions.len() as int,
    };
    assert(after[at] == (id, state));
    lemma_found_at(after, at);
    if other != id {
        lemma_session_from(sessions, other, 0);
        lemma_session_from(after, other, 0);
        if session_from(sessions, other, 0) is Some {
            let k = session_from(sessions, other, 0)->0;
            assert(after[k] == sessions[k]);
            lemma_found_at(after, k);
        } else if session_from(after, other, 0) is Some {
            let k = session_from(after, other, 0)->0;
            assert(k != at);
            assert(sessions[k].0 == other);
        }
    }
}

/// A session that was taken away is gone, and the others stay as they were.
pub proof fn law_removed_session_is_gone(
    sessions: Seq<(Seq<char>, StateView)>,
    id: Seq<char>,
    other: Seq<char>,
)
    requires
        distinct_ids(sessions),
    ensures
        distinct_ids(without_session(sessions, id)),
        session_of(without_session(sessions, id), id) is None,
        other != id ==> session_of(without_session(sessions, id), other) == session_of(
            sessions,
            other,
        ),
{
    let after = without_session(sessions, id);
    lemma_session_from(sessions, id, 0);
    lemma_session_from(after, id, 0);
    if session_from(sessions, id, 0) is Some {
        let at = session_from(sessions, id, 0)->0;
        assert forall|k: int| 0 <= k < after.len() implies #[trigger] after[k] == (if k < at {
            sessions[k]
        } else {
            sessions[k + 1]
        }) by {}
        assert(distinct_ids(after)) by {
            assert forall|i: int, k: int| 0 <= i < k < after.len() implies (#[trigger] after[i]).0
                != (#[trigger] after[k]).0 by {
                let from = if i < at { i } else { i + 1 };
                let to = if k < at { k } else { k + 1 };
                assert(sessions[from].0 != sessions[to].0);
            }
        }
        if other != id {
            lemma_session_from(sessions, other, 0);
            lemma_session_from(after, other, 0);
            if session_from(sessions, other, 0) is Some {
                let k = session_from(sessions, other, 0)->0;
                let moved = if k < at { k } else { k - 1 };
                assert(after[moved] == sessions[k]);
                lemma_found_at(after, moved);
            } else if session_from(after, other, 0) is Some {
                let k = session_from(after, other, 0)->0;
                let from = if k < at { k } else { k + 1 };
                assert(sessions[from].0 == other);
            }
        }
    }
}

proof fn lemma_turn_names(v: Seq<char>)
    ensures
        distinct_names(ReplayTurn::encoded(v)->Object_0),
        forall|i: int|
            0 <= i < 1 ==> (#[trigger] ReplayTurn::encoded(v)->Object_0[i]).0 != RESERVED_KEY@,
{
    reveal_strlit("$serde_json::private::RawValue");
    assert(RESERVED_KEY@.len() == 30);
    reveal_strlit("prompt_text");
    assert("prompt_text"@.len() == 11);
}

impl Stored for ReplayTurn {
    type Seen = Seq<char>;

    open spec fn seen(self) -> Seq<char> {
        self.prompt_text@
    }

    open spec fn encoded(v: Seq<char>) -> Json {
        Json::Object(seq![("prompt_text"@, Json::Text(v))])
    }

    open spec fn decoded(j: Json) -> Option<Seq<char>> {
        str_field(by_position(j, seq!["prompt_text"@], 1), "prompt_text"@)
    }

    open spec fn carries_faithful(v: Seq<char>) -> bool {
        true
    }

    open spec fn levels() -> nat {
        1
    }

    fn to_json(&self) -> (r: JsonValue) {
        let mut fields: Vec<(String, JsonValue)> = no_fields();
        put(&mut fields, "prompt_text", text_value(self.prompt_text.as_str()));
        assert(fields_seq(fields@) =~= ReplayTurn::encoded(self.seen())->Object_0);
        object(fields)
    }

    fn from_json(j: &JsonValue) -> (r: Option<ReplayTurn>) {
        let names: Vec<&str> = vec!["prompt_text"];
        assert(names_view(names@) =~= seq!["prompt_text"@]);
        match read_str_member(&fields_by_position(j, &names, 1), "prompt_text") {
            Some(prompt_text) => Some(ReplayTurn { prompt_text }),
            None => None,
        }
    }

    proof fn law_round_trip(v: Seq<char>) {
        lemma_turn_names(v);
        lemma_field_found(ReplayTurn::encoded(v)->Object_0, 0);
    }

    proof fn law_faithful(v: Seq<char>) {
        lemma_turn_names(v);
        let fields = ReplayTurn::encoded(v)->Object_0;
        assert forall|i: int| 0 <= i < fields.len() implies faithful(
            (#[trigger] fields[i]).1,
            (ReplayTurn::levels() - 1) as nat,
        ) by {
            assert(i == 0);
        }
    }
}

/// The number of 64 bits that a field holds.
pub open spec fn u64_member(j: Json, key: Seq<char>) -> Option<u64> {
    match field(j, key) {
        Some(Json::Int(i)) => if 0 <= i <= u64::MAX {
            Some(i as u64)
        } else {
            None
        },
        _ => None,
    }
}

fn read_u64_member(j: &JsonValue, key: &str) -> (r: Option<u64>)
    ensures
        r == u64_member(j@, key@),
{
    match j.get(key) {
        Some(JsonValue::Int(i)) => {
            if 0 <= *i && *i <= u64::MAX as i128 {
                Some(*i as u64)
            } else {
                None
            }
        },
        _ => None,
    }
}

proof fn lemma_state_names(v: StateView)
    ensures
        distinct_names(SessionState::encoded(v)->Object_0),
        forall|i: int|
            0 <= i < 5 ==> (#[trigger] SessionState::encoded(v)->Object_0[i]).0 != RESERVED_KEY@,
{
    reveal_strlit("$serde_json::private::RawValue");
    assert(RESERVED_KEY@.len() == 30);
    reveal_strlit("title");
    reveal_strlit("updated_at");
    reveal_strlit("turn_count");
    reveal_strlit("replay_turns");
    reveal_strlit("model");
    assert("title"@.len() == 5);
    assert("updated_at"@.len() == 10);
    assert("turn_count"@.len() == 10);
    assert("replay_turns"@.len() == 12);
    assert("model"@.len() == 5);
    assert("title"@[0] == 't' && "model"@[0] == 'm');
    assert("turn_count"@[0] == 't' && "updated_at"@[0] == 'u');
}

impl Stored for SessionState {
    type Seen = StateView;

    open spec fn seen(self) -> StateView {
        self@
    }

    open spec fn encoded(v: StateView) -> Json {
        Json::Object(
            seq![
                ("title"@, Json::Text(v.title)),
                ("updated_at"@, Json::Text(v.updated_at)),
                ("turn_count"@, Json::Int(v.turn_count as int)),
                ("replay_turns"@, list_json::<ReplayTurn>(v.replay_turns)),
                ("model"@, Json::Text(v.model)),
            ],
        )
    }

    open spec fn decoded(j: Json) -> Option<StateView> {
        let j = by_position(
            j,
            seq!["title"@, "updated_at"@, "turn_count"@, "replay_turns"@, "model"@],
            5,
        );
        match (
            str_field(j, "title"@),
            str_field(j, "updated_at"@),
            u64_member(j, "turn_count"@),
            list_member::<ReplayTurn>(j, "replay_turns"@),
            str_field(j, "model"@),
        ) {
            (
                Some(title),
                Some(updated_at),
                Some(turn_count),
                Some(replay_turns),
                Some(model),
            ) => if field(j, "replay_turns"@) is Some {
                Some(StateView { title, updated_at, turn_count, replay_turns, model })
            } else {
                None
            },
            _ => None,
        }
    }

    open spec fn carries_faithful(v: StateView) -> bool {
        true
    }

    open spec fn levels() -> nat {
        3
    }

    fn to_json(&self) -> (r: JsonValue) {
        let mut fields: Vec<(String, JsonValue)> = no_fields();
        put(&mut fields, "title", text_value(self.title.as_str()));
        put(&mut fields, "updated_at", text_value(self.updated_at.as_str()));
        put(&mut fields, "turn_count", JsonValue::Int(self.turn_count as i128));
        put(&mut fields, "replay_turns", list_to_json(&self.replay_turns));
        put(&mut fields, "model", text_value(self.model.as_str()));
        assert(turns_view(self.replay_turns@) =~= seen_list(self.replay_turns@));
        assert(fields_seq(fields@) =~= SessionState::encoded(self.seen())->Object_0);
        object(fields)
    }

    fn from_json(j: &JsonValue) -> (r: Option<SessionState>) {
        let names: Vec<&str> = vec!["title", "updated_at", "turn_count", "replay_turns", "model"];
        assert(names_view(names@) =~= seq![
            "title"@,
            "updated_at"@,
            "turn_count"@,
            "replay_turns"@,
            "model"@,
        ]);
        let whole: JsonValue = fields_by_position(j, &names, 5);
        let j: &JsonValue = &whole;
        if j.get("replay_turns").is_none() {
            return None;
        }
        match (
            read_str_member(j, "title"),
            read_str_member(j, "updated_at"),
            read_u64_member(j, "turn_count"),
            list_from_json::<ReplayTurn>(j, "replay_turns"),
            read_str_member(j, "model"),
        ) {
            (
                Some(title),
                Some(updated_at),
                Some(turn_count),
                Some(replay_turns),
                Some(model),
            ) => {
                assert(turns_view(replay_turns@) =~= seen_list(replay_turns@));
                Some(SessionState { title, updated_at, turn_count, replay_turns, model })
            },
            _ => None,
        }
    }

    proof fn law_round_trip(v: StateView) {
        lemma_state_names(v);
        let fields = SessionState::encoded(v)->Object_0;
        lemma_field_found(fields, 0);
        lemma_field_found(fields, 1);
        lemma_field_found(fields, 2);
        lemma_field_found(fields, 3);
        lemma_field_found(fields, 4);
        lemma_list_round_trip::<ReplayTurn>(v.replay_turns);
    }

    proof fn law_faithful(v: StateView) {
        lemma_state_names(v);
        let fields = SessionState::encoded(v)->Object_0;
        lemma_list_faithful::<ReplayTurn>(v.replay_turns, 2);
        assert forall|i: int| 0 <= i < fields.len() implies faithful(
            (#[trigger] fields[i]).1,
            (SessionState::levels() - 1) as nat,
        ) by {
            assert(i == 0 || i == 1 || i == 2 || i == 3 || i == 4);
        }
    }
}

/// Sessions as JSON: an object with a field for each id.
pub open spec fn sessions_json(sessions: Seq<(Seq<char>, StateView)>) -> Json {
    Json::Object(
        sessions.map_values(|s: (Seq<char>, StateView)| (s.0, SessionState::encoded(s.1))),
    )
}

/// The session that a field stands for.
pub open spec fn session_field(f: (Seq<char>, Json)) -> Option<(Seq<char>, StateView)> {
    match SessionState::decoded(f.1) {
        Some(state) => Some((f.0, state)),
        None => None,
    }
}

/// The sessions that a JSON document stands for: nothing where a field is not a
/// session.
pub open spec fn sessions_read(j: Json) -> Option<Seq<(Seq<char>, StateView)>> {
    match j {
        Json::Object(fields) => every(fields, |f: (Seq<char>, Json)| session_field(f)),
        _ => None,
    }
}

/// Sessions as JSON.
pub fn sessions_to_json(sessions: &Vec<(String, SessionState)>) -> (r: JsonValue)
    ensures
        r@ == sessions_json(sessions_view(sessions@)),
{
    let mut fields: Vec<(String, JsonValue)> = Vec::new();
    let mut i: usize = 0;
    while i < sessions.len()
        invariant
            i <= sessions@.len(),
            fields@.len() == i,
            forall|k: int|
                0 <= k < i ==> (#[trigger] fields@[k]).0@ == sessions@[k].0@ && fields@[k].1@
                    == SessionState::encoded(sessions@[k].1@),
        decreases sessions@.len() - i,
    {
        fields.push((sessions[i].0.clone(), sessions[i].1.to_json()));
        i += 1;
    }
    assert(fields_seq(fields@) =~= sessions_json(sessions_view(sessions@))->Object_0);
    object(fields)
}

/// The sessions that a JSON document stands for.
pub fn sessions_from_json(j: &JsonValue) -> (r: Option<Vec<(String, SessionState)>>)
    ensures
        r is Some <==> sessions_read(j@) is Some,
        r is Some ==> sessions_read(j@) == Some(sessions_view(r->0@)),
{
    broadcast use crate::json::lemma_object_view;

    match j {
        JsonValue::Object(fields) => {
            let ghost all = fields_seq(fields@);
            let ghost f = |x: (Seq<char>, Json)| session_field(x);
            let mut out: Vec<(String, SessionState)> = Vec::new();
            let mut i: usize = 0;
            assert(sessions_view(out@) =~= Seq::empty());
            while i < fields.len()
                invariant
                    i <= fields@.len(),
                    j@ == Json::Object(all),
                    all == fields_seq(fields@),
                    f == (|x: (Seq<char>, Json)| session_field(x)),
                    out@.len() == i,
                    forall|k: int|
                        0 <= k < i ==> f(#[trigger] all[k]) == Some(sessions_view(out@)[k]),
                decreases fields@.len() - i,
            {
                let ghost before = sessions_view(out@);
                match SessionState::from_json(&fields[i].1) {
                    Some(state) => {
                        out.push((fields[i].0.clone(), state));
                        assert(sessions_view(out@) =~= before.push((fields@[i as int].0@, state@)));
                    },
                    None => {
                        proof {
                            assert(f(all[i as int]) is None);
                            lemma_every_none(all, f, i as int);
                        }
                        return None;
                    },
                }
                i += 1;
            }
            proof {
                lemma_every(all, f, sessions_view(out@));
            }
            Some(out)
        },
        _ => None,
    }
}

/// The sessions that a text stands for: nothing where a session that it shows
/// cannot be read, or has one of its fields twice. Of two sessions under one id,
/// the later counts.
pub open spec fn sessions_in(text: Seq<char>) -> Option<Seq<(Seq<char>, StateView)>> {
    match (json_shown(text), json_parsed(text)) {
        (Some(all), Some(j)) => if sessions_read(all) is Some && without_repeats(
            all,
            Part::Named(Record::Session),
        ) {
            sessions_read(j)
        } else {
            None
        },
        _ => None,
    }
}

/// The sessions that a text stands for.
pub fn sessions_from_text(text: &str) -> (r: Option<Vec<(String, SessionState)>>)
    ensures
        r is Some <==> sessions_in(text@) is Some,
        r is Some ==> sessions_in(text@) == Some(sessions_view(r->0@)),
{
    match (JsonValue::parse_all(text), JsonValue::parse(text)) {
        (Ok(all), Ok(value)) => {
            if sessions_from_json(&all).is_some() && is_without_repeats(
                &all,
                Part::Named(Record::Session),
            ) {
                sessions_from_json(&value)
            } else {
                None
            }
        },
        _ => None,
    }
}

/// Whether sessions survive being printed and read: their ids differ, and none
/// is the one name that JSON text reserves.
pub open spec fn lasting(sessions: Seq<(Seq<char>, StateView)>) -> bool {
    distinct_ids(sessions) && forall|i: int|
        0 <= i < sessions.len() ==> (#[trigger] sessions[i]).0 != RESERVED_KEY@
}

/// Sessions as text, from which they are read again.
pub fn sessions_to_text(sessions: &Vec<(String, SessionState)>) -> (r: String)
    ensures
        r@ == json_text(sessions_json(sessions_view(sessions@))),
        lasting(sessions_view(sessions@)) ==> sessions_in(r@) == Some(sessions_view(sessions@)),
{
    let text: String = sessions_to_json(sessions).to_text();
    proof {
        let all = sessions_view(sessions@);
        law_sessions_survive(all);
        if lasting(all) {
            lemma_faithful_without_repeats(
                sessions_json(all),
                MAX_DEPTH as nat,
                Part::Named(Record::Session),
            );
        }
    }
    text
}

/// Sessions that were saved are read again, in the same order, and their JSON
/// survives being printed and read where their ids differ and none is the one
/// name that JSON text reserves.
pub proof fn law_sessions_survive(sessions: Seq<(Seq<char>, StateView)>)
    ensures
        sessions_read(sessions_json(sessions)) == Some(sessions),
        lasting(sessions) ==> faithful(sessions_json(sessions), MAX_DEPTH as nat),
{
    let fields = sessions_json(sessions)->Object_0;
    let f = |x: (Seq<char>, Json)| session_field(x);
    assert forall|i: int| 0 <= i < fields.len() implies f(#[trigger] fields[i]) == Some(
        sessions[i],
    ) by {
        SessionState::law_round_trip(sessions[i].1);
    }
    lemma_every(fields, f, sessions);
    if lasting(sessions) {
        assert forall|i: int| 0 <= i < fields.len() implies faithful(
            (#[trigger] fields[i]).1,
            (MAX_DEPTH - 1) as nat,
        ) by {
            SessionState::law_faithful(sessions[i].1);
            lemma_faithful_deeper(fields[i].1, SessionState::levels(), (MAX_DEPTH - 1) as nat);
        }
        assert forall|i: int| 0 <= i < fields.len() implies (#[trigger] fields[i]).0
            != RESERVED_KEY@ by {
            assert(sessions[i].0 != RESERVED_KEY@);
        }
        assert forall|i: int, k: int| 0 <= i < k < fields.len() implies (#[trigger] fields[i]).0
            != (#[trigger] fields[k]).0 by {
            assert(sessions[i].0 != sessions[k].0);
        }
    }
}

} // verus!
