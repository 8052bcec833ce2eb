//! What a cache file holds of messages and trailers, said of the fields.

use crate::json::{field, lemma_field_found, lemma_fields_are, str_field, Json};
use crate::jsonl_format::{
    by_position, kind_name, lemma_message_names, lemma_trailer_names, line_body, line_read,
    line_tag, message_json, message_names, named_kind, reread, trailer_json, trailer_line_json,
    trailer_read, LineView, TrailerView,
};
use crate::protocol_types::{ChatMessageView, MessageKind};
use vstd::prelude::*;

verus! {

/// Whether a field holds an optional text, and `null` where there is none.
pub open spec fn holds_text(j: Json, key: Seq<char>, text: Option<Seq<char>>) -> bool {
    &&& text matches Some(t) ==> str_field(j, key) == Some(t)
    &&& text is None ==> field(j, key) == Some(Json::Null)
}

/// Whether a field holds an optional payload, and `null` where there is none.
pub open spec fn holds_payload(j: Json, key: Seq<char>, payload: Option<Json>) -> bool {
    &&& payload matches Some(p) ==> field(j, key) == Some(p)
    &&& payload is None ==> field(j, key) == Some(Json::Null)
}

/// The words for the kinds of message.
pub proof fn law_kinds_have_their_words()
    ensures
        kind_name(MessageKind::User) == "user"@,
        kind_name(MessageKind::Agent) == "agent"@,
        kind_name(MessageKind::Thinking) == "thinking"@,
        kind_name(MessageKind::ToolCall) == "tool_call"@,
        named_kind("user"@) == Some(MessageKind::User),
        named_kind("agent"@) == Some(MessageKind::Agent),
        named_kind("thinking"@) == Some(MessageKind::Thinking),
        named_kind("tool_call"@) == Some(MessageKind::ToolCall),
        forall|name: Seq<char>|
            name != "user"@ && name != "agent"@ && name != "thinking"@ && name != "tool_call"@
                ==> #[trigger] named_kind(name) is None,
{
    reveal_strlit("user");
    reveal_strlit("agent");
    reveal_strlit("thinking");
    reveal_strlit("tool_call");
    assert("user"@.len() == 4 && "agent"@.len() == 5);
    assert("thinking"@.len() == 8 && "tool_call"@.len() == 9);
}

/// A message is written with its kind, its text, its status, its id and its
/// payloads, each under its own name, as a line of messages.
pub proof fn law_message_is_written_by_its_fields(m: ChatMessageView)
    ensures
        ({
            let j = message_json(m);
            &&& str_field(j, "line_kind"@) == Some("message"@)
            &&& m.kind == MessageKind::User ==> str_field(j, "kind"@) == Some("user"@)
            &&& m.kind == MessageKind::Agent ==> str_field(j, "kind"@) == Some("agent"@)
            &&& m.kind == MessageKind::Thinking ==> str_field(j, "kind"@) == Some("thinking"@)
            &&& m.kind == MessageKind::ToolCall ==> str_field(j, "kind"@) == Some("tool_call"@)
            &&& str_field(j, "text"@) == Some(m.text)
            &&& holds_text(j, "status"@, m.status)
            &&& holds_text(j, "id"@, m.id)
            &&& holds_payload(j, "raw_input"@, m.raw_input)
            &&& holds_payload(j, "raw_output"@, m.raw_output)
        }),
{
    lemma_message_names(m);
    let fields = message_json(m)->Object_0;
    lemma_fields_are(fields);
    assert(fields[0].0 == "line_kind"@ && fields[1].0 == "kind"@ && fields[2].0 == "text"@);
    assert(fields[3].0 == "status"@ && fields[4].0 == "id"@);
    assert(fields[5].0 == "raw_input"@ && fields[6].0 == "raw_output"@);
}

/// A trailer is written with the id of its session, its title, its time and the
/// number of messages, each under its own name, in its own file and as a line.
pub proof fn law_trailer_is_written_by_its_fields(t: TrailerView)
    ensures
        is_trailer(trailer_json(t), t),
        is_trailer(trailer_line_json(t), t),
        str_field(trailer_line_json(t), "line_kind"@) == Some("trailer"@),
        field(trailer_json(t), "line_kind"@) is None,
{
    lemma_trailer_names(t);
    let own = trailer_json(t)->Object_0;
    let line = trailer_line_json(t)->Object_0;
    lemma_fields_are(own);
    lemma_fields_are(line);
    assert(own[0].0 == "acpSessionId"@ && own[1].0 == "title"@);
    assert(own[2].0 == "updatedAt"@ && own[3].0 == "messageCount"@);
    assert(line[0].0 == "line_kind"@ && line[1].0 == "acpSessionId"@ && line[2].0 == "title"@);
    assert(line[3].0 == "updatedAt"@ && line[4].0 == "messageCount"@);
    if field(trailer_json(t), "line_kind"@) is Some {
        let i = choose|i: int| 0 <= i < own.len() && (#[trigger] own[i]).0 == "line_kind"@;
        assert(line[i + 1].0 == own[i].0);
    }
}

/// Whether an object holds a trailer.
pub open spec fn is_trailer(j: Json, t: TrailerView) -> bool {
    &&& str_field(j, "acpSessionId"@) == Some(t.acp_session_id)
    &&& holds_text(j, "title"@, t.title)
    &&& holds_text(j, "updatedAt"@, t.updated_at)
    &&& field(j, "messageCount"@) == Some(Json::Int(t.message_count as int))
}

/// Whether an optional text is the one of a field: none where the field is
/// missing or `null`.
pub open spec fn is_text_of(text: Option<Seq<char>>, j: Json, key: Seq<char>) -> bool {
    &&& str_field(j, key) is Some ==> text == str_field(j, key)
    &&& field(j, key) is None || field(j, key) == Some(Json::Null) ==> text is None
}

/// An object that says that it is a message is read with its own kind and text,
/// and with its status, id and payloads, where it has them.
pub proof fn law_message_is_read_by_its_fields(j: Json)
    requires
        j is Object,
        str_field(j, "line_kind"@) == Some("message"@),
    ensures
        line_read(j) matches Some(line) ==> (line matches LineView::Message(m) && {
            &&& named_kind(str_field(j, "kind"@)->0) == Some(m.kind)
            &&& str_field(j, "text"@) == Some(m.text)
            &&& is_text_of(m.status, j, "status"@)
            &&& is_text_of(m.id, j, "id"@)
            &&& m.raw_input is Some ==> m.raw_input == field(j, "raw_input"@)
            &&& field(j, "raw_input"@) is Some && field(j, "raw_input"@)->0 != Json::Null
                ==> m.raw_input == field(j, "raw_input"@)
            &&& m.raw_output is Some ==> m.raw_output == field(j, "raw_output"@)
            &&& field(j, "raw_output"@) is Some && field(j, "raw_output"@)->0 != Json::Null
                ==> m.raw_output == field(j, "raw_output"@)
        }),
        str_field(j, "kind"@) is None || str_field(j, "text"@) is None ==> line_read(j) is None,
        str_field(j, "kind"@) is Some && named_kind(str_field(j, "kind"@)->0) is None
            ==> line_read(j) is None,
        str_field(j, "kind"@) is Some && named_kind(str_field(j, "kind"@)->0) is Some && str_field(
            j,
            "text"@,
        ) is Some && field(j, "status"@) is None && field(j, "id"@) is None ==> line_read(
            j,
        ) is Some,
{
}

/// An object that says that it is a trailer is read with its own fields, and
/// needs its session and its count.
pub proof fn law_trailer_is_read_by_its_fields(j: Json)
    requires
        j is Object,
        str_field(j, "line_kind"@) == Some("trailer"@),
    ensures
        line_read(j) matches Some(line) ==> (line matches LineView::Trailer(t) && {
            &&& str_field(j, "acpSessionId"@) == Some(t.acp_session_id)
            &&& is_text_of(t.title, j, "title"@)
            &&& is_text_of(t.updated_at, j, "updatedAt"@)
            &&& field(j, "messageCount"@) == Some(Json::Int(t.message_count as int))
            &&& trailer_read(j) == Some(t)
        }),
        str_field(j, "acpSessionId"@) is None ==> line_read(j) is None,
        field(j, "messageCount"@) is None ==> line_read(j) is None,
{
    reveal_strlit("message");
    reveal_strlit("trailer");
    assert("message"@[0] != "trailer"@[0]);
}

/// A document that says that it is neither is no line.
pub proof fn law_other_lines_are_refused(j: Json)
    requires
        line_tag(j) != Some("message"@),
        line_tag(j) != Some("trailer"@),
    ensures
        line_read(j) is None,
{
}

/// A message whose fields stand by position is read as the one whose fields have
/// their names: kind, text, status, id, input and output, after the tag.
pub proof fn law_message_is_read_by_position(
    kind: Json,
    text: Json,
    status: Json,
    id: Json,
    input: Json,
    output: Json,
)
    ensures
        line_read(
            Json::Array(
                seq![Json::Text("message"@), kind, text, status, id, input, output],
            ),
        ) == line_read(
            Json::Object(
                seq![
                    ("line_kind"@, Json::Text("message"@)),
                    ("kind"@, kind),
                    ("text"@, text),
                    ("status"@, status),
                    ("id"@, id),
                    ("raw_input"@, input),
                    ("raw_output"@, output),
                ],
            ),
        ),
{
    let line = Json::Array(seq![Json::Text("message"@), kind, text, status, id, input, output]);
    let named = seq![
        ("line_kind"@, Json::Text("message"@)),
        ("kind"@, kind),
        ("text"@, text),
        ("status"@, status),
        ("id"@, id),
        ("raw_input"@, input),
        ("raw_output"@, output),
    ];
    let body = line_body(line)->Array_0;
    assert(body =~= seq![kind, text, status, id, input, output]);
    let placed = by_position(line_body(line), message_names(), 6)->Object_0;
    assert(placed =~= seq![
        ("kind"@, kind),
        ("text"@, text),
        ("status"@, status),
        ("id"@, id),
        ("raw_input"@, input),
        ("raw_output"@, output),
    ]);
    lemma_distinct();
    assert(crate::json::distinct_names(named));
    assert(crate::json::distinct_names(placed));
    assert forall|i: int| 0 <= i < 6 implies placed[i] == #[trigger] named[i + 1] by {}
    lemma_field_found(named, 0);
    lemma_field_found(named, 1);
    lemma_field_found(named, 2);
    lemma_field_found(named, 3);
    lemma_field_found(named, 4);
    lemma_field_found(named, 5);
    lemma_field_found(named, 6);
    lemma_field_found(placed, 0);
    lemma_field_found(placed, 1);
    lemma_field_found(placed, 2);
    lemma_field_found(placed, 3);
    lemma_field_found(placed, 4);
    lemma_field_found(placed, 5);
    assert(named[0].0 == "line_kind"@ && named[1].0 == "kind"@ && named[2].0 == "text"@);
    assert(named[3].0 == "status"@ && named[4].0 == "id"@);
    assert(named[5].0 == "raw_input"@ && named[6].0 == "raw_output"@);
    assert(placed[0].0 == "kind"@ && placed[1].0 == "text"@ && placed[2].0 == "status"@);
    assert(placed[3].0 == "id"@ && placed[4].0 == "raw_input"@ && placed[5].0 == "raw_output"@);
}

proof fn lemma_distinct()
    ensures
        "line_kind"@.len() == 9 && "line_kind"@[0] == 'l',
        "kind"@.len() == 4 && "kind"@[0] == 'k',
        "text"@.len() == 4 && "text"@[0] == 't',
        "status"@.len() == 6,
        "id"@.len() == 2,
        "raw_input"@.len() == 9 && "raw_input"@[0] == 'r',
        "raw_output"@.len() == 10,
{
    reveal_strlit("line_kind");
    reveal_strlit("kind");
    reveal_strlit("text");
    reveal_strlit("status");
    reveal_strlit("id");
    reveal_strlit("raw_input");
    reveal_strlit("raw_output");
}

/// A message comes back as it was, but for a payload that is `null`, which comes
/// back as none.
pub proof fn law_only_null_payloads_are_lost(m: ChatMessageView)
    ensures
        m.raw_input != Some(Json::Null) && m.raw_output != Some(Json::Null) ==> reread(m) == m,
        m.raw_input == Some(Json::Null) ==> reread(m).raw_input is None,
        m.raw_output == Some(Json::Null) ==> reread(m).raw_output is None,
        reread(m).kind == m.kind && reread(m).text == m.text && reread(m).status == m.status
            && reread(m).id == m.id,
{
}

} // verus!
