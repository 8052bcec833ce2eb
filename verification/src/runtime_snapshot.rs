//! The interaction state of a thread that its transcript does not hold:
//! requests that wait for an answer, terminals, and what the session offers.

pub mod laws;

use crate::json::{
    array, by_position, distinct_names, faithful, field, fields_by_position, fields_seq, get_str,
    json_bool, json_seq, lemma_faithful_deeper, lemma_field_found, names_view, no_fields, object,
    put, str_field, text_value, Json, JsonValue, RESERVED_KEY,
};
use crate::jsonl_format::{read_text_member, text_json, text_member, text_to_json};
use crate::protocol_types::{
    config_values_view, modes_view, AgentRequestEvent, AgentRequestView, ConfigOptionInfo,
    ConfigOptionValue, ConfigOptionView, ConfigValueView, SessionModeInfo, SessionModeView,
    SessionModesEvent, SessionModesView,
};
use crate::seqs::{every, lemma_every, lemma_every_none};
use crate::text::optional_text;
use vstd::prelude::*;

verus! {

/// What a terminal held when the state was saved.
#[derive(Debug, PartialEq)]
pub struct TerminalRuntimeSnapshot {
    pub terminal_id: String,
    pub output: String,
    pub truncated: bool,
    pub exit_status: Option<(Option<i32>, Option<i32>)>,
}

/// A [`TerminalRuntimeSnapshot`] as a mathematical value.
#[verifier::ext_equal]
pub struct TerminalSnapshotView {
    pub terminal_id: Seq<char>,
    pub output: Seq<char>,
    pub truncated: bool,
    pub exit_status: Option<(Option<i32>, Option<i32>)>,
}

/// The interaction state of a thread.
#[derive(Debug, PartialEq)]
pub struct ThreadRuntimeSnapshot {
    pub pending_requests: Vec<AgentRequestEvent>,
    pub terminals: Vec<TerminalRuntimeSnapshot>,
    pub session_modes: Option<SessionModesEvent>,
    pub config_options: Vec<ConfigOptionInfo>,
}

/// A [`ThreadRuntimeSnapshot`] as a mathematical value.
#[verifier::ext_equal]
pub struct SnapshotView {
    pub pending_requests: Seq<AgentRequestView>,
    pub terminals: Seq<TerminalSnapshotView>,
    pub session_modes: Option<SessionModesView>,
    pub config_options: Seq<ConfigOptionView>,
}

/// A value that a snapshot holds, with its form as JSON.
pub trait Stored: Sized {
    /// The value as contracts speak of it.
    type Seen;

    /// What the value is.
    spec fn seen(self) -> Self::Seen;

    /// The value as JSON.
    spec fn encoded(v: Self::Seen) -> Json;

    /// The value that a JSON document stands for.
    spec fn decoded(j: Json) -> Option<Self::Seen>;

    /// Whether what the value carries unread survives being printed and read.
    spec fn carries_faithful(v: Self::Seen) -> bool;

    /// How deep its JSON nests at most.
    spec fn levels() -> nat;

    fn to_json(&self) -> (r: JsonValue)
        ensures
            r@ == Self::encoded(self.seen()),
    ;

    fn from_json(j: &JsonValue) -> (r: Option<Self>)
        ensures
            r is Some <==> Self::decoded(j@) is Some,
            r is Some ==> Self::decoded(j@) == Some(r->0.seen()),
    ;

    /// The value is read again from its JSON.
    proof fn law_round_trip(v: Self::Seen)
        ensures
            Self::decoded(Self::encoded(v)) == Some(v),
    ;

    /// The JSON of the value survives being printed and read.
    proof fn law_faithful(v: Self::Seen)
        requires
            Self::carries_faithful(v),
        ensures
            faithful(Self::encoded(v), Self::levels()),
    ;
}

/// A list of stored values as contracts speak of it.
pub open spec fn seen_list<T: Stored>(v: Seq<T>) -> Seq<T::Seen> {
    v.map_values(|t: T| t.seen())
}

/// A list of stored values as JSON.
pub open spec fn list_json<T: Stored>(v: Seq<T::Seen>) -> Json {
    Json::Array(v.map_values(|x: T::Seen| T::encoded(x)))
}

/// The list that the field `key` holds: empty where there is no such field,
/// nothing where it holds something else.
pub open spec fn list_member<T: Stored>(j: Json, key: Seq<char>) -> Option<Seq<T::Seen>> {
    match field(j, key) {
        None => Some(Seq::empty()),
        Some(Json::Array(items)) => every(items, |x: Json| T::decoded(x)),
        Some(_) => None,
    }
}

/// A list of stored values as JSON.
pub fn list_to_json<T: Stored>(v: &Vec<T>) -> (r: JsonValue)
    ensures
        r@ == list_json::<T>(seen_list(v@)),
{
    let mut items: Vec<JsonValue> = Vec::new();
    let mut i: usize = 0;
    while i < v.len()
        invariant
            i <= v.len(),
            items@.len() == i,
            forall|k: int| 0 <= k < i ==> (#[trigger] items@[k])@ == T::encoded(v@[k].seen()),
        decreases v.len() - i,
    {
        items.push(v[i].to_json());
        i += 1;
    }
    assert(json_seq(items@) =~= seen_list(v@).map_values(|x: T::Seen| T::encoded(x)));
    array(items)
}

/// Reads the list that the field `key` holds.
pub fn list_from_json<T: Stored>(j: &JsonValue, key: &str) -> (r: Option<Vec<T>>)
    ensures
        r is Some <==> list_member::<T>(j@, key@) is Some,
        r is Some ==> list_member::<T>(j@, key@) == Some(seen_list(r->0@)),
{
    broadcast use crate::json::lemma_array_view;

    let mut out: Vec<T> = Vec::new();
    assert(seen_list(out@) =~= Seq::empty());
    match j.get(key) {
        None => Some(out),
        Some(JsonValue::Array(items)) => {
            let ghost all = json_seq(items@);
            let ghost f = |x: Json| T::decoded(x);
            let mut i: usize = 0;
            while i < items.len()
                invariant
                    i <= items.len(),
                    all == json_seq(items@),
                    f == (|x: Json| T::decoded(x)),
                    out@.len() == i,
                    forall|k: int|
                        0 <= k < i ==> f(#[trigger] all[k]) == Some(seen_list(out@)[k]),
                    field(j@, key@) == Some(Json::Array(all)),
                decreases items.len() - i,
            {
                let ghost before = seen_list(out@);
                match T::from_json(&items[i]) {
                    Some(value) => {
                        out.push(value);
                        assert(seen_list(out@) =~= before.push(value.seen()));
                    },
                    None => {
                        proof {
                            assert(f(all[i as int]) is None);
                            lemma_every_none(all, f, i as int);
                        }
                        return None;
                    },
                }
                i += 1;
            }
            proof {
                lemma_every(all, f, seen_list(out@));
            }
            Some(out)
        },
        Some(_) => None,
    }
}

/// A list of stored values is read again from its JSON.
pub proof fn lemma_list_round_trip<T: Stored>(v: Seq<T::Seen>)
    ensures
        list_json::<T>(v) is Array,
        every(list_json::<T>(v)->Array_0, |x: Json| T::decoded(x)) == Some(v),
{
    let items = list_json::<T>(v)->Array_0;
    let f = |x: Json| T::decoded(x);
    assert forall|i: int| 0 <= i < items.len() implies f(#[trigger] items[i]) == Some(v[i]) by {
        T::law_round_trip(v[i]);
    }
    lemma_every(items, f, v);
}

/// The JSON of a list survives being printed and read where that of each of
/// its values does.
pub proof fn lemma_list_faithful<T: Stored>(v: Seq<T::Seen>, depth: nat)
    requires
        forall|i: int| 0 <= i < v.len() ==> T::carries_faithful(#[trigger] v[i]),
        depth > T::levels(),
    ensures
        faithful(list_json::<T>(v), depth),
{
    let items = list_json::<T>(v)->Array_0;
    assert forall|i: int| 0 <= i < items.len() implies faithful(
        #[trigger] items[i],
        (depth - 1) as nat,
    ) by {
        assert(T::carries_faithful(v[i]));
        T::law_faithful(v[i]);
        lemma_faithful_deeper(items[i], T::levels(), (depth - 1) as nat);
    }
}

/// A boolean that a field holds.
pub open spec fn bool_member(j: Json, key: Seq<char>) -> Option<bool> {
    match field(j, key) {
        Some(v) => json_bool(v),
        None => None,
    }
}

fn read_bool_member(j: &JsonValue, key: &str) -> (r: Option<bool>)
    ensures
        r == bool_member(j@, key@),
{
    match j.get(key) {
        Some(v) => v.as_bool(),
        None => None,
    }
}

/// Reads the text that a field holds.
pub fn read_str_member(j: &JsonValue, key: &str) -> (r: Option<String>)
    ensures
        optional_text(r) == str_field(j@, key@),
{
    crate::text::owned(get_str(j, key))
}

/// An optional number as JSON.
pub open spec fn code_json(o: Option<i32>) -> Json {
    match o {
        Some(n) => Json::Int(n as int),
        None => Json::Null,
    }
}

/// The optional number that a JSON document stands for.
pub open spec fn code_read(j: Json) -> Option<Option<i32>> {
    match j {
        Json::Null => Some(None),
        Json::Int(i) => if i32::MIN <= i <= i32::MAX {
            Some(Some(i as i32))
        } else {
            None
        },
        _ => None,
    }
}

/// How a terminal ended, as JSON.
pub open spec fn exit_json(o: Option<(Option<i32>, Option<i32>)>) -> Json {
    match o {
        Some((code, signal)) => Json::Array(seq![code_json(code), code_json(signal)]),
        None => Json::Null,
    }
}

/// How a terminal ended, from the field `key`: not yet, where the field is
/// absent or `null`.
pub open spec fn exit_member(j: Json, key: Seq<char>) -> Option<
    Option<(Option<i32>, Option<i32>)>,
> {
    match field(j, key) {
        None => Some(None),
        Some(Json::Null) => Some(None),
        Some(Json::Array(items)) => if items.len() == 2 {
            match (code_read(items[0]), code_read(items[1])) {
                (Some(code), Some(signal)) => Some(Some((code, signal))),
                _ => None,
            }
        } else {
            None
        },
        Some(_) => None,
    }
}

fn code_to_json(o: &Option<i32>) -> (r: JsonValue)
    ensures
        r@ == code_json(*o),
{
    match o {
        Some(n) => JsonValue::Int(*n as i128),
        None => JsonValue::Null,
    }
}

fn code_from_json(j: &JsonValue) -> (r: Option<Option<i32>>)
    ensures
        r == code_read(j@),
{
    match j {
        JsonValue::Null => Some(None),
        JsonValue::Int(i) => {
            if i32::MIN as i128 <= *i && *i <= i32::MAX as i128 {
                Some(Some(*i as i32))
            } else {
                None
            }
        },
        _ => None,
    }
}

fn exit_to_json(o: &Option<(Option<i32>, Option<i32>)>) -> (r: JsonValue)
    ensures
        r@ == exit_json(*o),
{
    match o {
        Some((code, signal)) => {
            let mut items: Vec<JsonValue> = Vec::new();
            items.push(code_to_json(code));
            items.push(code_to_json(signal));
            assert(json_seq(items@) =~= seq![code_json(*code), code_json(*signal)]);
            array(items)
        },
        None => JsonValue::Null,
    }
}

fn read_exit_member(j: &JsonValue, key: &str) -> (r: Option<Option<(Option<i32>, Option<i32>)>>)
    ensures
        r == exit_member(j@, key@),
{
    broadcast use crate::json::lemma_array_view;

    match j.get(key) {
        None => Some(None),
        Some(JsonValue::Null) => Some(None),
        Some(JsonValue::Array(items)) => {
            if items.len() == 2 {
                match (code_from_json(&items[0]), code_from_json(&items[1])) {
                    (Some(code), Some(signal)) => Some(Some((code, signal))),
                    _ => None,
                }
            } else {
                None
            }
        },
        Some(_) => None,
    }
}

proof fn lemma_agentrequestevent_names(v: AgentRequestView)
    ensures
        distinct_names(AgentRequestEvent::encoded(v)->Object_0),
        forall|i: int|
            0 <= i < 3 ==> (#[trigger] AgentRequestEvent::encoded(v)->Object_0[i]).0 != RESERVED_KEY@,
{
    reveal_strlit("$serde_json::private::RawValue");
    assert(RESERVED_KEY@.len() == 30);
    reveal_strlit("relay_id");
    reveal_strlit("method");
    reveal_strlit("raw_request");
    assert("relay_id"@.len() == 8);
    assert("method"@.len() == 6);
    assert("raw_request"@.len() == 11);
}

impl Stored for AgentRequestEvent {
    type Seen = AgentRequestView;

    open spec fn seen(self) -> AgentRequestView {
        self@
    }

    open spec fn encoded(v: AgentRequestView) -> Json {
        Json::Object(
            seq![
                ("relay_id"@, Json::Text(v.relay_id)),
                ("method"@, Json::Text(v.method)),
                ("raw_request"@, v.raw_request),
            ],
        )
    }

    open spec fn decoded(j: Json) -> Option<AgentRequestView> {
        match (str_field(j, "relay_id"@), str_field(j, "method"@), field(j, "raw_request"@)) {
            (Some(relay_id), Some(method), Some(raw_request)) => Some(
                AgentRequestView { relay_id, method, raw_request },
            ),
            _ => None,
        }
    }

    open spec fn carries_faithful(v: AgentRequestView) -> bool {
        faithful(v.raw_request, 124)
    }

    open spec fn levels() -> nat {
        125
    }

    fn to_json(&self) -> (r: JsonValue) {
        let mut fields: Vec<(String, JsonValue)> = no_fields();
        put(&mut fields, "relay_id", text_value(self.relay_id.as_str()));
        put(&mut fields, "method", text_value(self.method.as_str()));
        put(&mut fields, "raw_request", self.raw_request.clone());
        assert(fields_seq(fields@) =~= AgentRequestEvent::encoded(self.seen())->Object_0);
        object(fields)
    }

    fn from_json(j: &JsonValue) -> (r: Option<AgentRequestEvent>) {
        match (read_str_member(j, "relay_id"), read_str_member(j, "method"), j.get("raw_request")) {
            (Some(relay_id), Some(method), Some(raw_request)) => Some(
                AgentRequestEvent { relay_id, method, raw_request: raw_request.clone() },
            ),
            _ => None,
        }
    }

    proof fn law_round_trip(v: AgentRequestView) {
        lemma_agentrequestevent_names(v);
        let fields = AgentRequestEvent::encoded(v)->Object_0;
        lemma_field_found(fields, 0);
        lemma_field_found(fields, 1);
        lemma_field_found(fields, 2);
    }

    proof fn law_faithful(v: AgentRequestView) {
        lemma_agentrequestevent_names(v);
        let fields = AgentRequestEvent::encoded(v)->Object_0;
        assert forall|i: int| 0 <= i < fields.len() implies faithful(
            (#[trigger] fields[i]).1,
            (AgentRequestEvent::levels() - 1) as nat,
        ) by {
            assert(i == 0 || i == 1 || i == 2);
        }
    }
}

proof fn lemma_terminalruntimesnapshot_names(v: TerminalSnapshotView)
    ensures
        distinct_names(TerminalRuntimeSnapshot::encoded(v)->Object_0),
        forall|i: int|
            0 <= i < 4 ==> (#[trigger] TerminalRuntimeSnapshot::encoded(v)->Object_0[i]).0 != RESERVED_KEY@,
{
    reveal_strlit("$serde_json::private::RawValue");
    assert(RESERVED_KEY@.len() == 30);
    reveal_strlit("terminalId");
    reveal_strlit("output");
    reveal_strlit("truncated");
    reveal_strlit("exitStatus");
    assert("terminalId"@.len() == 10);
    assert("output"@.len() == 6);
    assert("truncated"@.len() == 9);
    assert("exitStatus"@.len() == 10);
    assert("terminalId"@[0] == 't' && "exitStatus"@[0] == 'e');
}

impl Stored for TerminalRuntimeSnapshot {
    type Seen = TerminalSnapshotView;

    open spec fn seen(self) -> TerminalSnapshotView {
        TerminalSnapshotView {
            terminal_id: self.terminal_id@,
            output: self.output@,
            truncated: self.truncated,
            exit_status: self.exit_status,
        }
    }

    open spec fn encoded(v: TerminalSnapshotView) -> Json {
        Json::Object(
            seq![
                ("terminalId"@, Json::Text(v.terminal_id)),
                ("output"@, Json::Text(v.output)),
                ("truncated"@, Json::Bool(v.truncated)),
                ("exitStatus"@, exit_json(v.exit_status)),
            ],
        )
    }

    open spec fn decoded(j: Json) -> Option<TerminalSnapshotView> {
        let j = by_position(j, seq!["terminalId"@, "output"@, "truncated"@, "exitStatus"@], 4);
        match (
            str_field(j, "terminalId"@),
            str_field(j, "output"@),
            bool_member(j, "truncated"@),
            exit_member(j, "exitStatus"@),
        ) {
            (Some(terminal_id), Some(output), Some(truncated), Some(exit_status)) => Some(
                TerminalSnapshotView { terminal_id, output, truncated, exit_status },
            ),
            _ => None,
        }
    }

    open spec fn carries_faithful(v: TerminalSnapshotView) -> bool {
        true
    }

    open spec fn levels() -> nat {
        2
    }

    fn to_json(&self) -> (r: JsonValue) {
        let mut fields: Vec<(String, JsonValue)> = no_fields();
        put(&mut fields, "terminalId", text_value(self.terminal_id.as_str()));
        put(&mut fields, "output", text_value(self.output.as_str()));
        put(&mut fields, "truncated", JsonValue::Bool(self.truncated));
        put(&mut fields, "exitStatus", exit_to_json(&self.exit_status));
        assert(fields_seq(fields@) =~= TerminalRuntimeSnapshot::encoded(self.seen())->Object_0);
        object(fields)
    }

    fn from_json(j: &JsonValue) -> (r: Option<TerminalRuntimeSnapshot>) {
        let names: Vec<&str> = vec!["terminalId", "output", "truncated", "exitStatus"];
        assert(names_view(names@) =~= seq![
            "terminalId"@,
            "output"@,
            "truncated"@,
            "exitStatus"@,
        ]);
        let whole: JsonValue = fields_by_position(j, &names, 4);
        let j: &JsonValue = &whole;
        match (
            read_str_member(j, "terminalId"),
            read_str_member(j, "output"),
            read_bool_member(j, "truncated"),
            read_exit_member(j, "exitStatus"),
        ) {
            (Some(terminal_id), Some(output), Some(truncated), Some(exit_status)) => Some(
                TerminalRuntimeSnapshot { terminal_id, output, truncated, exit_status },
            ),
            _ => None,
        }
    }

    proof fn law_round_trip(v: TerminalSnapshotView) {
        lemma_terminalruntimesnapshot_names(v);
        let fields = TerminalRuntimeSnapshot::encoded(v)->Object_0;
        lemma_field_found(fields, 0);
        lemma_field_found(fields, 1);
        lemma_field_found(fields, 2);
        lemma_field_found(fields, 3);
    }

    proof fn law_faithful(v: TerminalSnapshotView) {
        lemma_terminalruntimesnapshot_names(v);
        let fields = TerminalRuntimeSnapshot::encoded(v)->Object_0;
        assert(faithful(exit_json(v.exit_status), 1)) by {
            if v.exit_status is Some {
                let items = exit_json(v.exit_status)->Array_0;
                assert forall|i: int| 0 <= i < items.len() implies faithful(
                    #[trigger] items[i],
                    0,
                ) by {
                    assert(i == 0 || i == 1);
                }
            }
        }
        assert forall|i: int| 0 <= i < fields.len() implies faithful(
            (#[trigger] fields[i]).1,
            (TerminalRuntimeSnapshot::levels() - 1) as nat,
        ) by {
            assert(i == 0 || i == 1 || i == 2 || i == 3);
        }
    }
}

proof fn lemma_sessionmodeinfo_names(v: SessionModeView)
    ensures
        distinct_names(SessionModeInfo::encoded(v)->Object_0),
        forall|i: int|
            0 <= i < 3 ==> (#[trigger] SessionModeInfo::encoded(v)->Object_0[i]).0 != RESERVED_KEY@,
{
    reveal_strlit("$serde_json::private::RawValue");
    assert(RESERVED_KEY@.len() == 30);
    reveal_strlit("id");
    reveal_strlit("name");
    reveal_strlit("description");
    assert("id"@.len() == 2);
    assert("name"@.len() == 4);
    assert("description"@.len() == 11);
}

impl Stored for SessionModeInfo {
    type Seen = SessionModeView;

    open spec fn seen(self) -> SessionModeView {
        self@
    }

    open spec fn encoded(v: SessionModeView) -> Json {
        Json::Object(
            seq![
                ("id"@, Json::Text(v.id)),
                ("name"@, Json::Text(v.name)),
                ("description"@, text_json(v.description)),
            ],
        )
    }

    open spec fn decoded(j: Json) -> Option<SessionModeView> {
        match (str_field(j, "id"@), str_field(j, "name"@), text_member(j, "description"@)) {
            (Some(id), Some(name), Some(description)) => Some(
                SessionModeView { id, name, description },
            ),
            _ => None,
        }
    }

    open spec fn carries_faithful(v: SessionModeView) -> bool {
        true
    }

    open spec fn levels() -> nat {
        1
    }

    fn to_json(&self) -> (r: JsonValue) {
        let mut fields: Vec<(String, JsonValue)> = no_fields();
        put(&mut fields, "id", text_value(self.id.as_str()));
        put(&mut fields, "name", text_value(self.name.as_str()));
        put(&mut fields, "description", text_to_json(&self.description));
        assert(fields_seq(fields@) =~= SessionModeInfo::encoded(self.seen())->Object_0);
        object(fields)
    }

    fn from_json(j: &JsonValue) -> (r: Option<SessionModeInfo>) {
        match (
            read_str_member(j, "id"),
            read_str_member(j, "name"),
            read_text_member(j, "description"),
        ) {
            (Some(id), Some(name), Some(description)) => Some(
                SessionModeInfo { id, name, description },
            ),
            _ => None,
        }
    }

    proof fn law_round_trip(v: SessionModeView) {
        lemma_sessionmodeinfo_names(v);
        let fields = SessionModeInfo::encoded(v)->Object_0;
        lemma_field_found(fields, 0);
        lemma_field_found(fields, 1);
        lemma_field_found(fields, 2);
    }

    proof fn law_faithful(v: SessionModeView) {
        lemma_sessionmodeinfo_names(v);
        let fields = SessionModeInfo::encoded(v)->Object_0;
        assert forall|i: int| 0 <= i < fields.len() implies faithful(
            (#[trigger] fields[i]).1,
            (SessionModeInfo::levels() - 1) as nat,
        ) by {
            assert(i == 0 || i == 1 || i == 2);
        }
    }
}

proof fn lemma_sessionmodesevent_names(v: SessionModesView)
    ensures
        distinct_names(SessionModesEvent::encoded(v)->Object_0),
        forall|i: int|
            0 <= i < 2 ==> (#[trigger] SessionModesEvent::encoded(v)->Object_0[i]).0 != RESERVED_KEY@,
{
    reveal_strlit("$serde_json::private::RawValue");
    assert(RESERVED_KEY@.len() == 30);
    reveal_strlit("current_mode_id");
    reveal_strlit("available");
    assert("current_mode_id"@.len() == 15);
    assert("available"@.len() == 9);
}

impl Stored for SessionModesEvent {
    type Seen = SessionModesView;

    open spec fn seen(self) -> SessionModesView {
        self@
    }

    open spec fn encoded(v: SessionModesView) -> Json {
        Json::Object(
            seq![
                ("current_mode_id"@, Json::Text(v.current_mode_id)),
                ("available"@, list_json::<SessionModeInfo>(v.available)),
            ],
        )
    }

    open spec fn decoded(j: Json) -> Option<SessionModesView> {
        match (
            str_field(j, "current_mode_id"@),
            list_member::<SessionModeInfo>(j, "available"@),
        ) {
            (Some(current_mode_id), Some(available)) => if field(j, "available"@) is Some {
                Some(SessionModesView { current_mode_id, available })
            } else {
                None
            },
            _ => None,
        }
    }

    open spec fn carries_faithful(v: SessionModesView) -> bool {
        true
    }

    open spec fn levels() -> nat {
        3
    }

    fn to_json(&self) -> (r: JsonValue) {
        let mut fields: Vec<(String, JsonValue)> = no_fields();
        put(&mut fields, "current_mode_id", text_value(self.current_mode_id.as_str()));
        put(&mut fields, "available", list_to_json(&self.available));
        assert(modes_view(self.available@) =~= seen_list(self.available@));
        assert(fields_seq(fields@) =~= SessionModesEvent::encoded(self.seen())->Object_0);
        object(fields)
    }

    fn from_json(j: &JsonValue) -> (r: Option<SessionModesEvent>) {
        if j.get("available").is_none() {
            return None;
        }
        match (
            read_str_member(j, "current_mode_id"),
            list_from_json::<SessionModeInfo>(j, "available"),
        ) {
            (Some(current_mode_id), Some(available)) => {
                assert(modes_view(available@) =~= seen_list(available@));
                Some(SessionModesEvent { current_mode_id, available })
            },
            _ => None,
        }
    }

    proof fn law_round_trip(v: SessionModesView) {
        lemma_sessionmodesevent_names(v);
        let fields = SessionModesEvent::encoded(v)->Object_0;
        lemma_field_found(fields, 0);
        lemma_field_found(fields, 1);
        lemma_list_round_trip::<SessionModeInfo>(v.available);
    }

    proof fn law_faithful(v: SessionModesView) {
        lemma_sessionmodesevent_names(v);
        let fields = SessionModesEvent::encoded(v)->Object_0;
        lemma_list_faithful::<SessionModeInfo>(v.available, 2);
        assert forall|i: int| 0 <= i < fields.len() implies faithful(
            (#[trigger] fields[i]).1,
            (SessionModesEvent::levels() - 1) as nat,
        ) by {
            assert(i == 0 || i == 1);
        }
    }
}

proof fn lemma_configoptionvalue_names(v: ConfigValueView)
    ensures
        distinct_names(ConfigOptionValue::encoded(v)->Object_0),
        forall|i: int|
            0 <= i < 3 ==> (#[trigger] ConfigOptionValue::encoded(v)->Object_0[i]).0 != RESERVED_KEY@,
{
    reveal_strlit("$serde_json::private::RawValue");
    assert(RESERVED_KEY@.len() == 30);
    reveal_strlit("value");
    reveal_strlit("name");
    reveal_strlit("description");
    assert("value"@.len() == 5);
    assert("name"@.len() == 4);
    assert("description"@.len() == 11);
}

impl Stored for ConfigOptionValue {
    type Seen = ConfigValueView;

    open spec fn seen(self) -> ConfigValueView {
        self@
    }

    open spec fn encoded(v: ConfigValueView) -> Json {
        Json::Object(
            seq![
                ("value"@, Json::Text(v.value)),
                ("name"@, Json::Text(v.name)),
                ("description"@, text_json(v.description)),
            ],
        )
    }

    open spec fn decoded(j: Json) -> Option<ConfigValueView> {
        match (str_field(j, "value"@), str_field(j, "name"@), text_member(j, "description"@)) {
            (Some(value), Some(name), Some(description)) => Some(
                ConfigValueView { value, name, description },
            ),
            _ => None,
        }
    }

    open spec fn carries_faithful(v: ConfigValueView) -> bool {
        true
    }

    open spec fn levels() -> nat {
        1
    }

    fn to_json(&self) -> (r: JsonValue) {
        let mut fields: Vec<(String, JsonValue)> = no_fields();
        put(&mut fields, "value", text_value(self.value.as_str()));
        put(&mut fields, "name", text_value(self.name.as_str()));
        put(&mut fields, "description", text_to_json(&self.description));
        assert(fields_seq(fields@) =~= ConfigOptionValue::encoded(self.seen())->Object_0);
        object(fields)
    }

    fn from_json(j: &JsonValue) -> (r: Option<ConfigOptionValue>) {
        match (
            read_str_member(j, "value"),
            read_str_member(j, "name"),
            read_text_member(j, "description"),
        ) {
            (Some(value), Some(name), Some(description)) => Some(
                ConfigOptionValue { value, name, description },
            ),
            _ => None,
        }
    }

    proof fn law_round_trip(v: ConfigValueView) {
        lemma_configoptionvalue_names(v);
        let fields = ConfigOptionValue::encoded(v)->Object_0;
        lemma_field_found(fields, 0);
        lemma_field_found(fields, 1);
        lemma_field_found(fields, 2);
    }

    proof fn law_faithful(v: ConfigValueView) {
        lemma_configoptionvalue_names(v);
        let fields = ConfigOptionValue::encoded(v)->Object_0;
        assert forall|i: int| 0 <= i < fields.len() implies faithful(
            (#[trigger] fields[i]).1,
            (ConfigOptionValue::levels() - 1) as nat,
        ) by {
            assert(i == 0 || i == 1 || i == 2);
        }
    }
}

proof fn lemma_configoptioninfo_names(v: ConfigOptionView)
    ensures
        distinct_names(ConfigOptionInfo::encoded(v)->Object_0),
        forall|i: int|
            0 <= i < 7 ==> (#[trigger] ConfigOptionInfo::encoded(v)->Object_0[i]).0 != RESERVED_KEY@,
{
    reveal_strlit("$serde_json::private::RawValue");
    assert(RESERVED_KEY@.len() == 30);
    reveal_strlit("id");
    reveal_strlit("name");
    reveal_strlit("description");
    reveal_strlit("category");
    reveal_strlit("kind");
    reveal_strlit("current_value");
    reveal_strlit("options");
    assert("id"@.len() == 2);
    assert("name"@.len() == 4);
    assert("description"@.len() == 11);
    assert("category"@.len() == 8);
    assert("kind"@.len() == 4);
    assert("current_value"@.len() == 13);
    assert("options"@.len() == 7);
    assert("name"@[0] == 'n' && "kind"@[0] == 'k');
}

impl Stored for ConfigOptionInfo {
    type Seen = ConfigOptionView;

    open spec fn seen(self) -> ConfigOptionView {
        self@
    }

    open spec fn encoded(v: ConfigOptionView) -> Json {
        Json::Object(
            seq![
                ("id"@, Json::Text(v.id)),
                ("name"@, Json::Text(v.name)),
                ("description"@, text_json(v.description)),
                ("category"@, text_json(v.category)),
                ("kind"@, Json::Text(v.kind)),
                ("current_value"@, text_json(v.current_value)),
                ("options"@, list_json::<ConfigOptionValue>(v.options)),
            ],
        )
    }

    open spec fn decoded(j: Json) -> Option<ConfigOptionView> {
        match (
            (str_field(j, "id"@), str_field(j, "name"@), str_field(j, "kind"@)),
            (
                text_member(j, "description"@),
                text_member(j, "category"@),
                text_member(j, "current_value"@),
            ),
            list_member::<ConfigOptionValue>(j, "options"@),
        ) {
            (
                (Some(id), Some(name), Some(kind)),
                (Some(description), Some(category), Some(current_value)),
                Some(options),
            ) => if field(j, "options"@) is Some {
                Some(
                    ConfigOptionView {
                        id,
                        name,
                        description,
                        category,
                        kind,
                        current_value,
                        options,
                    },
                )
            } else {
                None
            },
            _ => None,
        }
    }

    open spec fn carries_faithful(v: ConfigOptionView) -> bool {
        true
    }

    open spec fn levels() -> nat {
        3
    }

    fn to_json(&self) -> (r: JsonValue) {
        let mut fields: Vec<(String, JsonValue)> = no_fields();
        put(&mut fields, "id", text_value(self.id.as_str()));
        put(&mut fields, "name", text_value(self.name.as_str()));
        put(&mut fields, "description", text_to_json(&self.description));
        put(&mut fields, "category", text_to_json(&self.category));
        put(&mut fields, "kind", text_value(self.kind.as_str()));
        put(&mut fields, "current_value", text_to_json(&self.current_value));
        put(&mut fields, "options", list_to_json(&self.options));
        assert(config_values_view(self.options@) =~= seen_list(self.options@));
        assert(fields_seq(fields@) =~= ConfigOptionInfo::encoded(self.seen())->Object_0);
        object(fields)
    }

    fn from_json(j: &JsonValue) -> (r: Option<ConfigOptionInfo>) {
        if j.get("options").is_none() {
            return None;
        }
        match (
            (read_str_member(j, "id"), read_str_member(j, "name"), read_str_member(j, "kind")),
            (
                read_text_member(j, "description"),
                read_text_member(j, "category"),
                read_text_member(j, "current_value"),
            ),
            list_from_json::<ConfigOptionValue>(j, "options"),
        ) {
            (
                (Some(id), Some(name), Some(kind)),
                (Some(description), Some(category), Some(current_value)),
                Some(options),
            ) => {
                assert(config_values_view(options@) =~= seen_list(options@));
                Some(
                    ConfigOptionInfo {
                        id,
                        name,
                        description,
                        category,
                        kind,
                        current_value,
                        options,
                    },
                )
            },
            _ => None,
        }
    }

    proof fn law_round_trip(v: ConfigOptionView) {
        lemma_configoptioninfo_names(v);
        let fields = ConfigOptionInfo::encoded(v)->Object_0;
        lemma_field_found(fields, 0);
        lemma_field_found(fields, 1);
        lemma_field_found(fields, 2);
        lemma_field_found(fields, 3);
        lemma_field_found(fields, 4);
        lemma_field_found(fields, 5);
        lemma_field_found(fields, 6);
        lemma_list_round_trip::<ConfigOptionValue>(v.options);
    }

    proof fn law_faithful(v: ConfigOptionView) {
        lemma_configoptioninfo_names(v);
        let fields = ConfigOptionInfo::encoded(v)->Object_0;
        lemma_list_faithful::<ConfigOptionValue>(v.options, 2);
        assert forall|i: int| 0 <= i < fields.len() implies faithful(
            (#[trigger] fields[i]).1,
            (ConfigOptionInfo::levels() - 1) as nat,
        ) by {
            assert(i == 0 || i == 1 || i == 2 || i == 3 || i == 4 || i == 5 || i == 6);
        }
    }
}

/// Optional session modes as JSON.
pub open spec fn modes_json(o: Option<SessionModesView>) -> Json {
    match o {
        Some(m) => SessionModesEvent::encoded(m),
        None => Json::Null,
    }
}

/// Optional session modes, from the field `key`: none where it is absent or
/// `null`.
pub open spec fn modes_member(j: Json, key: Seq<char>) -> Option<Option<SessionModesView>> {
    match field(j, key) {
        None => Some(None),
        Some(Json::Null) => Some(None),
        Some(v) => match SessionModesEvent::decoded(v) {
            Some(m) => Some(Some(m)),
            None => None,
        },
    }
}

spec fn modes_option(o: Option<SessionModesEvent>) -> Option<SessionModesView> {
    match o {
        Some(m) => Some(m@),
        None => None,
    }
}

fn modes_to_json(o: &Option<SessionModesEvent>) -> (r: JsonValue)
    ensures
        r@ == modes_json(modes_option(*o)),
{
    match o {
        Some(m) => m.to_json(),
        None => JsonValue::Null,
    }
}

fn read_modes_member(j: &JsonValue, key: &str) -> (r: Option<Option<SessionModesEvent>>)
    ensures
        r is Some <==> modes_member(j@, key@) is Some,
        r is Some ==> modes_member(j@, key@) == Some(modes_option(r->0)),
{
    match j.get(key) {
        None => Some(None),
        Some(v) => {
            if v.is_null() {
                Some(None)
            } else {
                match SessionModesEvent::from_json(v) {
                    Some(m) => Some(Some(m)),
                    None => None,
                }
            }
        },
    }
}

impl View for ThreadRuntimeSnapshot {
    type V = SnapshotView;

    open spec fn view(&self) -> SnapshotView {
        SnapshotView {
            pending_requests: seen_list(self.pending_requests@),
            terminals: seen_list(self.terminals@),
            session_modes: match self.session_modes {
                Some(m) => Some(m@),
                None => None,
            },
            config_options: seen_list(self.config_options@),
        }
    }
}

proof fn lemma_threadruntimesnapshot_names(v: SnapshotView)
    ensures
        distinct_names(ThreadRuntimeSnapshot::encoded(v)->Object_0),
        forall|i: int|
            0 <= i < 4 ==> (#[trigger] ThreadRuntimeSnapshot::encoded(v)->Object_0[i]).0 != RESERVED_KEY@,
{
    reveal_strlit("$serde_json::private::RawValue");
    assert(RESERVED_KEY@.len() == 30);
    reveal_strlit("pendingRequests");
    reveal_strlit("terminals");
    reveal_strlit("sessionModes");
    reveal_strlit("configOptions");
    assert("pendingRequests"@.len() == 15);
    assert("terminals"@.len() == 9);
    assert("sessionModes"@.len() == 12);
    assert("configOptions"@.len() == 13);
}

impl Stored for ThreadRuntimeSnapshot {
    type Seen = SnapshotView;

    open spec fn seen(self) -> SnapshotView {
        self@
    }

    open spec fn encoded(v: SnapshotView) -> Json {
        Json::Object(
            seq![
                ("pendingRequests"@, list_json::<AgentRequestEvent>(v.pending_requests)),
                ("terminals"@, list_json::<TerminalRuntimeSnapshot>(v.terminals)),
                ("sessionModes"@, modes_json(v.session_modes)),
                ("configOptions"@, list_json::<ConfigOptionInfo>(v.config_options)),
            ],
        )
    }

    open spec fn decoded(j: Json) -> Option<SnapshotView> {
        let j = by_position(
            j,
            seq!["pendingRequests"@, "terminals"@, "sessionModes"@, "configOptions"@],
            0,
        );
        match (
            list_member::<AgentRequestEvent>(j, "pendingRequests"@),
            list_member::<TerminalRuntimeSnapshot>(j, "terminals"@),
            modes_member(j, "sessionModes"@),
            list_member::<ConfigOptionInfo>(j, "configOptions"@),
        ) {
            (Some(pending_requests), Some(terminals), Some(session_modes), Some(config_options)) => {
                if j is Object {
                    Some(
                        SnapshotView {
                            pending_requests,
                            terminals,
                            session_modes,
                            config_options,
                        },
                    )
                } else {
                    None
                }
            },
            _ => None,
        }
    }

    open spec fn carries_faithful(v: SnapshotView) -> bool {
        forall|i: int|
            0 <= i < v.pending_requests.len() ==> AgentRequestEvent::carries_faithful(
                #[trigger] v.pending_requests[i],
            )
    }

    open spec fn levels() -> nat {
        127
    }

    fn to_json(&self) -> (r: JsonValue) {
        let mut fields: Vec<(String, JsonValue)> = no_fields();
        put(&mut fields, "pendingRequests", list_to_json(&self.pending_requests));
        put(&mut fields, "terminals", list_to_json(&self.terminals));
        put(&mut fields, "sessionModes", modes_to_json(&self.session_modes));
        put(&mut fields, "configOptions", list_to_json(&self.config_options));
        assert(fields_seq(fields@) =~= ThreadRuntimeSnapshot::encoded(self.seen())->Object_0);
        object(fields)
    }

    fn from_json(j: &JsonValue) -> (r: Option<ThreadRuntimeSnapshot>) {
        let names: Vec<&str> = vec!["pendingRequests", "terminals", "sessionModes", "configOptions"];
        assert(names_view(names@) =~= seq![
            "pendingRequests"@,
            "terminals"@,
            "sessionModes"@,
            "configOptions"@,
        ]);
        let whole: JsonValue = fields_by_position(j, &names, 0);
        let j: &JsonValue = &whole;
        match j {
            JsonValue::Object(_) => {},
            _ => {
                return None;
            },
        }
        match (
            list_from_json::<AgentRequestEvent>(j, "pendingRequests"),
            list_from_json::<TerminalRuntimeSnapshot>(j, "terminals"),
            read_modes_member(j, "sessionModes"),
            list_from_json::<ConfigOptionInfo>(j, "configOptions"),
        ) {
            (Some(pending_requests), Some(terminals), Some(session_modes), Some(config_options)) => {
                Some(
                    ThreadRuntimeSnapshot {
                        pending_requests,
                        terminals,
                        session_modes,
                        config_options,
                    },
                )
            },
            _ => None,
        }
    }

    proof fn law_round_trip(v: SnapshotView) {
        lemma_threadruntimesnapshot_names(v);
        let fields = ThreadRuntimeSnapshot::encoded(v)->Object_0;
        lemma_field_found(fields, 0);
        lemma_field_found(fields, 1);
        lemma_field_found(fields, 2);
        lemma_field_found(fields, 3);
        lemma_list_round_trip::<AgentRequestEvent>(v.pending_requests);
        lemma_list_round_trip::<TerminalRuntimeSnapshot>(v.terminals);
        lemma_list_round_trip::<ConfigOptionInfo>(v.config_options);
        if v.session_modes is Some {
            SessionModesEvent::law_round_trip(v.session_modes->0);
        }
    }

    proof fn law_faithful(v: SnapshotView) {
        lemma_threadruntimesnapshot_names(v);
        let fields = ThreadRuntimeSnapshot::encoded(v)->Object_0;
        lemma_list_faithful::<AgentRequestEvent>(v.pending_requests, 126);
        lemma_list_faithful::<TerminalRuntimeSnapshot>(v.terminals, 126);
        lemma_list_faithful::<ConfigOptionInfo>(v.config_options, 126);
        if v.session_modes is Some {
            SessionModesEvent::law_faithful(v.session_modes->0);
            lemma_faithful_deeper(SessionModesEvent::encoded(v.session_modes->0), 3, 126);
        }
        assert forall|i: int| 0 <= i < fields.len() implies faithful(
            (#[trigger] fields[i]).1,
            (ThreadRuntimeSnapshot::levels() - 1) as nat,
        ) by {
            assert(i == 0 || i == 1 || i == 2 || i == 3);
        }
    }
}

impl Default for ThreadRuntimeSnapshot {
    fn default() -> (r: ThreadRuntimeSnapshot)
        ensures
            r@ == empty_snapshot(),
    {
        let r = ThreadRuntimeSnapshot {
            pending_requests: Vec::new(),
            terminals: Vec::new(),
            session_modes: None,
            config_options: Vec::new(),
        };
        assert(r@ =~= empty_snapshot());
        r
    }
}

/// No interaction state.
pub open spec fn empty_snapshot() -> SnapshotView {
    SnapshotView {
        pending_requests: Seq::empty(),
        terminals: Seq::empty(),
        session_modes: None,
        config_options: Seq::empty(),
    }
}

} // verus!
