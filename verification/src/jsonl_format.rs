//! How cached messages, trailers and snapshots are written as JSON, and read
//! again.

pub mod laws;

use crate::json::{
    array, by_position, distinct_names, faithful, field, fields_by_position, fields_seq, get_str,
    json_seq, lemma_array_view, lemma_field_found, lemma_object_view, names_view, no_fields,
    object, put, str_field, text_value, Json, JsonValue, MAX_DEPTH, RESERVED_KEY,
};
use crate::protocol_types::{optional_json, ChatMessage, ChatMessageView, MessageKind};
use crate::text::{optional_text, same};
use vstd::prelude::*;

verus! {

/// What a cached thread's last synchronisation with its agent recorded.
#[derive(Debug, PartialEq, Eq)]
pub struct ThreadTrailer {
    pub acp_session_id: String,
    pub title: Option<String>,
    pub updated_at: Option<String>,
    pub message_count: usize,
}

/// A [`ThreadTrailer`] as a mathematical value.
#[verifier::ext_equal]
pub struct TrailerView {
    pub acp_session_id: Seq<char>,
    pub title: Option<Seq<char>>,
    pub updated_at: Option<Seq<char>>,
    pub message_count: usize,
}

impl View for ThreadTrailer {
    type V = TrailerView;

    open spec fn view(&self) -> TrailerView {
        TrailerView {
            acp_session_id: self.acp_session_id@,
            title: optional_text(self.title),
            updated_at: optional_text(self.updated_at),
            message_count: self.message_count,
        }
    }
}

/// The name of a message kind in a cache file.
pub open spec fn kind_name(kind: MessageKind) -> Seq<char> {
    match kind {
        MessageKind::User => "user"@,
        MessageKind::Agent => "agent"@,
        MessageKind::Thinking => "thinking"@,
        MessageKind::ToolCall => "tool_call"@,
    }
}

/// The message kind of a name in a cache file.
pub open spec fn named_kind(name: Seq<char>) -> Option<MessageKind> {
    if name == "user"@ {
        Some(MessageKind::User)
    } else if name == "agent"@ {
        Some(MessageKind::Agent)
    } else if name == "thinking"@ {
        Some(MessageKind::Thinking)
    } else if name == "tool_call"@ {
        Some(MessageKind::ToolCall)
    } else {
        None
    }
}

/// An optional text as JSON.
pub open spec fn text_json(o: Option<Seq<char>>) -> Json {
    match o {
        Some(s) => Json::Text(s),
        None => Json::Null,
    }
}

/// An optional document as JSON.
pub open spec fn payload_json(o: Option<Json>) -> Json {
    match o {
        Some(j) => j,
        None => Json::Null,
    }
}

/// An optional field: absent or `null` is none; the outer answer is nothing
/// where the field holds something that is not a text.
pub open spec fn text_member(j: Json, key: Seq<char>) -> Option<Option<Seq<char>>> {
    match field(j, key) {
        None => Some(None),
        Some(Json::Null) => Some(None),
        Some(Json::Text(s)) => Some(Some(s)),
        Some(_) => None,
    }
}

/// An optional document: absent or `null` is none.
pub open spec fn payload_member(j: Json, key: Seq<char>) -> Option<Json> {
    match field(j, key) {
        None => None,
        Some(Json::Null) => None,
        Some(v) => Some(v),
    }
}

/// A cached message as JSON.
pub open spec fn message_json(m: ChatMessageView) -> Json {
    Json::Object(
        seq![
            ("line_kind"@, Json::Text("message"@)),
            ("kind"@, Json::Text(kind_name(m.kind))),
            ("text"@, Json::Text(m.text)),
            ("status"@, text_json(m.status)),
            ("id"@, text_json(m.id)),
            ("raw_input"@, payload_json(m.raw_input)),
            ("raw_output"@, payload_json(m.raw_output)),
        ],
    )
}

/// The message that a JSON document stands for.
pub open spec fn message_read(j: Json) -> Option<ChatMessageView> {
    match (
        str_field(j, "kind"@),
        str_field(j, "text"@),
        text_member(j, "status"@),
        text_member(j, "id"@),
    ) {
        (Some(kind), Some(text), Some(status), Some(id)) => match named_kind(kind) {
            Some(kind) => Some(
                ChatMessageView {
                    kind,
                    text,
                    status,
                    id,
                    raw_input: payload_member(j, "raw_input"@),
                    raw_output: payload_member(j, "raw_output"@),
                },
            ),
            None => None,
        },
        _ => None,
    }
}

/// A trailer as JSON, as the trailer file holds it.
pub open spec fn trailer_json(t: TrailerView) -> Json {
    Json::Object(
        seq![
            ("acpSessionId"@, Json::Text(t.acp_session_id)),
            ("title"@, text_json(t.title)),
            ("updatedAt"@, text_json(t.updated_at)),
            ("messageCount"@, Json::Int(t.message_count as int)),
        ],
    )
}

/// A trailer as JSON, as a line of the cache holds it.
pub open spec fn trailer_line_json(t: TrailerView) -> Json {
    Json::Object(
        seq![
            ("line_kind"@, Json::Text("trailer"@)),
            ("acpSessionId"@, Json::Text(t.acp_session_id)),
            ("title"@, text_json(t.title)),
            ("updatedAt"@, text_json(t.updated_at)),
            ("messageCount"@, Json::Int(t.message_count as int)),
        ],
    )
}

/// A count that a field holds.
pub open spec fn count_field(j: Json, key: Seq<char>) -> Option<usize> {
    match field(j, key) {
        Some(Json::Int(i)) => if 0 <= i <= usize::MAX {
            Some(i as usize)
        } else {
            None
        },
        _ => None,
    }
}

/// The fields of a trailer, in order.
pub open spec fn trailer_names() -> Seq<Seq<char>> {
    seq!["acpSessionId"@, "title"@, "updatedAt"@, "messageCount"@]
}

/// The trailer that a JSON document stands for, its fields by name or by
/// position.
pub open spec fn trailer_read(j: Json) -> Option<TrailerView> {
    trailer_fields_read(by_position(j, trailer_names(), 4))
}

/// The trailer that the fields of an object give.
pub open spec fn trailer_fields_read(j: Json) -> Option<TrailerView> {
    match (
        str_field(j, "acpSessionId"@),
        text_member(j, "title"@),
        text_member(j, "updatedAt"@),
        count_field(j, "messageCount"@),
    ) {
        (Some(acp_session_id), Some(title), Some(updated_at), Some(message_count)) => Some(
            TrailerView { acp_session_id, title, updated_at, message_count },
        ),
        _ => None,
    }
}

/// What a line of a cache file holds.
#[verifier::ext_equal]
pub enum LineView {
    Message(ChatMessageView),
    Trailer(TrailerView),
}

/// The fields of a message, in order.
pub open spec fn message_names() -> Seq<Seq<char>> {
    seq!["kind"@, "text"@, "status"@, "id"@, "raw_input"@, "raw_output"@]
}

/// What kind of line a JSON document says that it is: an object by its
/// `line_kind`, an array by its first element.
pub open spec fn line_tag(j: Json) -> Option<Seq<char>> {
    match j {
        Json::Array(items) => if items.len() > 0 {
            match items[0] {
                Json::Text(kind) => Some(kind),
                _ => None,
            }
        } else {
            None
        },
        _ => str_field(j, "line_kind"@),
    }
}

/// What a line holds besides its kind: of an array, what follows.
pub open spec fn line_body(j: Json) -> Json {
    match j {
        Json::Array(items) => Json::Array(items.skip(1)),
        _ => j,
    }
}

/// The line that a JSON document stands for, by its kind, with fields by name or
/// by position.
pub open spec fn line_read(j: Json) -> Option<LineView> {
    match line_tag(j) {
        Some(kind) => if kind == "message"@ {
            match message_read(by_position(line_body(j), message_names(), 6)) {
                Some(m) => Some(LineView::Message(m)),
                None => None,
            }
        } else if kind == "trailer"@ {
            match trailer_read(line_body(j)) {
                Some(t) => Some(LineView::Trailer(t)),
                None => None,
            }
        } else {
            None
        },
        None => None,
    }
}

/// Whether a message holds no payload that is `null`, which a cache file does
/// not tell apart from none.
pub open spec fn storable(m: ChatMessageView) -> bool {
    m.raw_input != Some(Json::Null) && m.raw_output != Some(Json::Null)
}

/// A message as a cache file gives it back: a payload that is `null` is none.
pub open spec fn reread(m: ChatMessageView) -> ChatMessageView {
    ChatMessageView {
        raw_input: if m.raw_input == Some(Json::Null) {
            None
        } else {
            m.raw_input
        },
        raw_output: if m.raw_output == Some(Json::Null) {
            None
        } else {
            m.raw_output
        },
        ..m
    }
}

/// Messages as a cache file gives them back.
pub open spec fn reread_all(messages: Seq<ChatMessageView>) -> Seq<ChatMessageView> {
    messages.map_values(|m: ChatMessageView| reread(m))
}

proof fn lemma_message_names(m: ChatMessageView)
    ensures
        distinct_names(message_json(m)->Object_0),
        forall|i: int|
            0 <= i < 7 ==> (#[trigger] message_json(m)->Object_0[i]).0 != RESERVED_KEY@,
{
    reveal_strlit("line_kind");
    reveal_strlit("kind");
    reveal_strlit("text");
    reveal_strlit("status");
    reveal_strlit("id");
    reveal_strlit("raw_input");
    reveal_strlit("raw_output");
    reveal_strlit("$serde_json::private::RawValue");
    assert(RESERVED_KEY@.len() == 30);
    assert("line_kind"@.len() == 9 && "kind"@.len() == 4 && "text"@.len() == 4);
    assert("status"@.len() == 6 && "id"@.len() == 2);
    assert("raw_input"@.len() == 9 && "raw_output"@.len() == 10);
    assert("line_kind"@[0] == 'l' && "raw_input"@[0] == 'r');
    assert("kind"@[0] == 'k' && "text"@[0] == 't');
}

proof fn lemma_trailer_names(t: TrailerView)
    ensures
        distinct_names(trailer_json(t)->Object_0),
        distinct_names(trailer_line_json(t)->Object_0),
        forall|i: int|
            0 <= i < 5 ==> (#[trigger] trailer_line_json(t)->Object_0[i]).0 != RESERVED_KEY@,
        forall|i: int|
            0 <= i < 4 ==> (#[trigger] trailer_json(t)->Object_0[i]).0 != RESERVED_KEY@,
{
    reveal_strlit("line_kind");
    reveal_strlit("acpSessionId");
    reveal_strlit("title");
    reveal_strlit("updatedAt");
    reveal_strlit("messageCount");
    reveal_strlit("$serde_json::private::RawValue");
    assert(RESERVED_KEY@.len() == 30);
    assert("line_kind"@.len() == 9 && "acpSessionId"@.len() == 12 && "title"@.len() == 5);
    assert("updatedAt"@.len() == 9 && "messageCount"@.len() == 12);
    assert("line_kind"@[0] == 'l' && "updatedAt"@[0] == 'u');
    assert("acpSessionId"@[0] == 'a' && "messageCount"@[0] == 'm');
}

proof fn lemma_kind_names(kind: MessageKind)
    ensures
        named_kind(kind_name(kind)) == Some(kind),
        "message"@ != "trailer"@,
{
    reveal_strlit("user");
    reveal_strlit("agent");
    reveal_strlit("thinking");
    reveal_strlit("tool_call");
    reveal_strlit("message");
    reveal_strlit("trailer");
    assert("user"@.len() == 4 && "agent"@.len() == 5);
    assert("thinking"@.len() == 8 && "tool_call"@.len() == 9);
    assert("message"@[0] == 'm' && "trailer"@[0] == 't');
}

/// A message is read again from its JSON, but for a payload that is `null`,
/// which is read as none.
pub proof fn law_message_json_round_trip(m: ChatMessageView)
    ensures
        line_read(message_json(m)) == Some(LineView::Message(reread(m))),
        storable(m) ==> line_read(message_json(m)) == Some(LineView::Message(m)),
{
    lemma_message_names(m);
    lemma_kind_names(m.kind);
    let fields = message_json(m)->Object_0;
    lemma_field_found(fields, 0);
    lemma_field_found(fields, 1);
    lemma_field_found(fields, 2);
    lemma_field_found(fields, 3);
    lemma_field_found(fields, 4);
    lemma_field_found(fields, 5);
    lemma_field_found(fields, 6);
}

/// A trailer is read again from its JSON, in its own file and as a line.
pub proof fn law_trailer_json_round_trip(t: TrailerView)
    ensures
        trailer_read(trailer_json(t)) == Some(t),
        line_read(trailer_line_json(t)) == Some(LineView::Trailer(t)),
{
    lemma_trailer_names(t);
    lemma_kind_names(MessageKind::User);
    let fields = trailer_json(t)->Object_0;
    lemma_field_found(fields, 0);
    lemma_field_found(fields, 1);
    lemma_field_found(fields, 2);
    lemma_field_found(fields, 3);
    let line = trailer_line_json(t)->Object_0;
    lemma_field_found(line, 0);
    lemma_field_found(line, 1);
    lemma_field_found(line, 2);
    lemma_field_found(line, 3);
    lemma_field_found(line, 4);
}

/// Whether the payloads of a message survive being printed and read again.
pub open spec fn faithful_message(m: ChatMessageView) -> bool {
    &&& faithful(payload_json(m.raw_input), (MAX_DEPTH - 1) as nat)
    &&& faithful(payload_json(m.raw_output), (MAX_DEPTH - 1) as nat)
}

/// A message with faithful payloads is faithful as JSON.
pub proof fn lemma_message_faithful(m: ChatMessageView)
    requires
        faithful_message(m),
    ensures
        faithful(message_json(m), MAX_DEPTH as nat),
{
    lemma_message_names(m);
    let fields = message_json(m)->Object_0;
    assert forall|i: int| 0 <= i < fields.len() implies faithful(
        (#[trigger] fields[i]).1,
        (MAX_DEPTH - 1) as nat,
    ) by {
        assert(i == 0 || i == 1 || i == 2 || i == 3 || i == 4 || i == 5 || i == 6);
    }
}

/// A trailer is faithful as JSON.
pub proof fn lemma_trailer_faithful(t: TrailerView)
    ensures
        faithful(trailer_json(t), MAX_DEPTH as nat),
        faithful(trailer_line_json(t), MAX_DEPTH as nat),
{
    lemma_trailer_names(t);
    let fields = trailer_json(t)->Object_0;
    assert forall|i: int| 0 <= i < fields.len() implies faithful(
        (#[trigger] fields[i]).1,
        (MAX_DEPTH - 1) as nat,
    ) by {
        assert(i == 0 || i == 1 || i == 2 || i == 3);
    }
    let line = trailer_line_json(t)->Object_0;
    assert forall|i: int| 0 <= i < line.len() implies faithful(
        (#[trigger] line[i]).1,
        (MAX_DEPTH - 1) as nat,
    ) by {
        assert(i == 0 || i == 1 || i == 2 || i == 3 || i == 4);
    }
}

pub(crate) fn text_to_json(o: &Option<String>) -> (r: JsonValue)
    ensures
        r@ == text_json(optional_text(*o)),
{
    match o {
        Some(s) => text_value(s.as_str()),
        None => JsonValue::Null,
    }
}

fn payload_to_json(o: &Option<JsonValue>) -> (r: JsonValue)
    ensures
        r@ == payload_json(optional_json(*o)),
{
    match o {
        Some(v) => v.clone(),
        None => JsonValue::Null,
    }
}

fn kind_to_name(kind: MessageKind) -> (r: JsonValue)
    ensures
        r@ == Json::Text(kind_name(kind)),
{
    match kind {
        MessageKind::User => text_value("user"),
        MessageKind::Agent => text_value("agent"),
        MessageKind::Thinking => text_value("thinking"),
        MessageKind::ToolCall => text_value("tool_call"),
    }
}

/// A cached message as JSON.
pub fn message_to_json(m: &ChatMessage) -> (r: JsonValue)
    ensures
        r@ == message_json(m@),
{
    let mut fields: Vec<(String, JsonValue)> = no_fields();
    put(&mut fields, "line_kind", text_value("message"));
    put(&mut fields, "kind", kind_to_name(m.kind));
    put(&mut fields, "text", text_value(m.text.as_str()));
    put(&mut fields, "status", text_to_json(&m.status));
    put(&mut fields, "id", text_to_json(&m.id));
    put(&mut fields, "raw_input", payload_to_json(&m.raw_input));
    put(&mut fields, "raw_output", payload_to_json(&m.raw_output));
    assert(fields_seq(fields@) =~= message_json(m@)->Object_0);
    object(fields)
}

fn put_trailer(fields: &mut Vec<(String, JsonValue)>, t: &ThreadTrailer)
    ensures
        fields_seq(final(fields)@) == fields_seq(old(fields)@).push(
            ("acpSessionId"@, Json::Text(t@.acp_session_id)),
        ).push(("title"@, text_json(t@.title))).push(("updatedAt"@, text_json(t@.updated_at))).push(
            ("messageCount"@, Json::Int(t@.message_count as int)),
        ),
{
    put(fields, "acpSessionId", text_value(t.acp_session_id.as_str()));
    put(fields, "title", text_to_json(&t.title));
    put(fields, "updatedAt", text_to_json(&t.updated_at));
    put(fields, "messageCount", JsonValue::Int(t.message_count as i128));
}

/// A trailer as JSON, as the trailer file holds it.
pub fn trailer_to_json(t: &ThreadTrailer) -> (r: JsonValue)
    ensures
        r@ == trailer_json(t@),
{
    let mut fields: Vec<(String, JsonValue)> = no_fields();
    put_trailer(&mut fields, t);
    assert(fields_seq(fields@) =~= trailer_json(t@)->Object_0);
    object(fields)
}

/// A trailer as JSON, as a line of the cache holds it.
pub fn trailer_to_line_json(t: &ThreadTrailer) -> (r: JsonValue)
    ensures
        r@ == trailer_line_json(t@),
{
    let mut fields: Vec<(String, JsonValue)> = no_fields();
    put(&mut fields, "line_kind", text_value("trailer"));
    put_trailer(&mut fields, t);
    assert(fields_seq(fields@) =~= trailer_line_json(t@)->Object_0);
    object(fields)
}

pub open spec fn nested_text(o: Option<Option<String>>) -> Option<Option<Seq<char>>> {
    match o {
        Some(inner) => Some(optional_text(inner)),
        None => None,
    }
}

pub(crate) fn read_text_member(value: &JsonValue, key: &str) -> (r: Option<Option<String>>)
    ensures
        nested_text(r) == text_member(value@, key@),
{
    match value.get(key) {
        None => Some(None),
        Some(JsonValue::Null) => Some(None),
        Some(JsonValue::Text(s)) => Some(Some(s.clone())),
        Some(_) => None,
    }
}

fn read_payload_member(value: &JsonValue, key: &str) -> (r: Option<JsonValue>)
    ensures
        optional_json(r) == payload_member(value@, key@),
{
    match value.get(key) {
        None => None,
        Some(v) => {
            if v.is_null() {
                None
            } else {
                Some(v.clone())
            }
        },
    }
}

fn read_kind(name: &str) -> (r: Option<MessageKind>)
    ensures
        r == named_kind(name@),
{
    if same(name, "user") {
        Some(MessageKind::User)
    } else if same(name, "agent") {
        Some(MessageKind::Agent)
    } else if same(name, "thinking") {
        Some(MessageKind::Thinking)
    } else if same(name, "tool_call") {
        Some(MessageKind::ToolCall)
    } else {
        None
    }
}

fn read_count(value: &JsonValue, key: &str) -> (r: Option<usize>)
    ensures
        r == count_field(value@, key@),
{
    match value.get(key) {
        Some(JsonValue::Int(i)) => {
            if 0 <= *i && *i <= usize::MAX as i128 {
                Some(*i as usize)
            } else {
                None
            }
        },
        _ => None,
    }
}

/// An optional message as a mathematical value.
pub open spec fn message_option(o: Option<ChatMessage>) -> Option<ChatMessageView> {
    match o {
        Some(m) => Some(m@),
        None => None,
    }
}

fn message_from_json(value: &JsonValue) -> (r: Option<ChatMessage>)
    ensures
        message_option(r) == message_read(value@),
{
    let kind_text: &str = match get_str(value, "kind") {
        Some(s) => s,
        None => {
            return None;
        },
    };
    let text: &str = match get_str(value, "text") {
        Some(s) => s,
        None => {
            return None;
        },
    };
    let status: Option<String> = match read_text_member(value, "status") {
        Some(o) => o,
        None => {
            return None;
        },
    };
    let id: Option<String> = match read_text_member(value, "id") {
        Some(o) => o,
        None => {
            return None;
        },
    };
    match read_kind(kind_text) {
        Some(kind) => Some(
            ChatMessage {
                kind,
                text: text.to_owned(),
                status,
                id,
                raw_input: read_payload_member(value, "raw_input"),
                raw_output: read_payload_member(value, "raw_output"),
            },
        ),
        None => None,
    }
}

/// An optional trailer as a mathematical value.
pub open spec fn trailer_option(o: Option<ThreadTrailer>) -> Option<TrailerView> {
    match o {
        Some(t) => Some(t@),
        None => None,
    }
}

/// Reads a trailer.
pub fn trailer_from_json(value: &JsonValue) -> (r: Option<ThreadTrailer>)
    ensures
        trailer_option(r) == trailer_read(value@),
{
    let names: Vec<&str> = vec!["acpSessionId", "title", "updatedAt", "messageCount"];
    assert(names_view(names@) =~= trailer_names());
    trailer_from_fields(&fields_by_position(value, &names, 4))
}

fn trailer_from_fields(value: &JsonValue) -> (r: Option<ThreadTrailer>)
    ensures
        trailer_option(r) == trailer_fields_read(value@),
{
    let acp_session_id: &str = match get_str(value, "acpSessionId") {
        Some(s) => s,
        None => {
            return None;
        },
    };
    let title: Option<String> = match read_text_member(value, "title") {
        Some(o) => o,
        None => {
            return None;
        },
    };
    let updated_at: Option<String> = match read_text_member(value, "updatedAt") {
        Some(o) => o,
        None => {
            return None;
        },
    };
    match read_count(value, "messageCount") {
        Some(message_count) => Some(
            ThreadTrailer {
                acp_session_id: acp_session_id.to_owned(),
                title,
                updated_at,
                message_count,
            },
        ),
        None => None,
    }
}

/// What a line of a cache file holds.
#[derive(Debug, PartialEq)]
pub enum Line {
    Message(ChatMessage),
    Trailer(ThreadTrailer),
}

impl View for Line {
    type V = LineView;

    open spec fn view(&self) -> LineView {
        match self {
            Line::Message(m) => LineView::Message(m@),
            Line::Trailer(t) => LineView::Trailer(t@),
        }
    }
}

/// An optional line as a mathematical value.
pub open spec fn line_option(o: Option<Line>) -> Option<LineView> {
    match o {
        Some(l) => Some(l@),
        None => None,
    }
}

fn read_line_tag(value: &JsonValue) -> (r: Option<&str>)
    ensures
        r is Some <==> line_tag(value@) is Some,
        r is Some ==> line_tag(value@) == Some(r->0@),
{
    broadcast use {lemma_array_view, lemma_object_view};

    match value {
        JsonValue::Array(items) => if items.len() > 0 {
            items[0].as_str()
        } else {
            None
        },
        _ => get_str(value, "line_kind"),
    }
}

fn read_line_body(value: &JsonValue) -> (r: JsonValue)
    requires
        line_tag(value@) is Some,
    ensures
        r@ == line_body(value@),
{
    broadcast use {lemma_array_view, lemma_object_view};

    match value {
        JsonValue::Array(items) => {
            let mut rest: Vec<JsonValue> = Vec::new();
            let mut i: usize = 1;
            while i < items.len()
                invariant
                    1 <= i <= items@.len(),
                    rest@.len() == i - 1,
                    forall|k: int| 0 <= k < rest@.len() ==> (#[trigger] rest@[k])@ == items@[k + 1]@,
                decreases items@.len() - i,
            {
                rest.push(items[i].clone());
                i += 1;
            }
            assert(json_seq(rest@) =~= json_seq(items@).skip(1));
            array(rest)
        },
        _ => value.clone(),
    }
}

/// Reads a line, by its kind.
pub fn line_from_json(value: &JsonValue) -> (r: Option<Line>)
    ensures
        line_option(r) == line_read(value@),
{
    match read_line_tag(value) {
        Some(kind) => {
            let body: JsonValue = read_line_body(value);
            if same(kind, "message") {
                let names: Vec<&str> = vec![
                    "kind", "text", "status", "id", "raw_input", "raw_output"
                ];
                assert(names_view(names@) =~= message_names());
                match message_from_json(&fields_by_position(&body, &names, 6)) {
                    Some(m) => Some(Line::Message(m)),
                    None => None,
                }
            } else if same(kind, "trailer") {
                match trailer_from_json(&body) {
                    Some(t) => Some(Line::Trailer(t)),
                    None => None,
                }
            } else {
                None
            }
        },
        None => None,
    }
}

} // verus!
