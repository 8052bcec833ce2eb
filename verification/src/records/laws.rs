//! Which documents have a field twice, said of their fields.

use crate::json::{json_shown, Json};
use crate::jsonl_format::{message_json, trailer_json, trailer_line_json, TrailerView};
use crate::mock_agent::state::{ReplayTurn, SessionState, StateView};
use crate::protocol_types::{
    AgentRequestEvent, AgentRequestView, ChatMessageView, ConfigOptionInfo, ConfigOptionValue,
    ConfigOptionView, ConfigValueView, SessionModeInfo, SessionModeView, SessionModesEvent,
    SessionModesView,
};
use crate::records::{
    field_names, field_part, item_part, part_named, text_without_repeats, without_repeats, Part,
    Record,
};
use crate::runtime_snapshot::{
    SnapshotView, Stored, TerminalRuntimeSnapshot, TerminalSnapshotView, ThreadRuntimeSnapshot,
};
use vstd::prelude::*;

verus! {

/// A record with one of its fields twice is refused, on its own, in a list and
/// under a name.
pub proof fn law_repeated_fields_are_refused(
    fields: Seq<(Seq<char>, Json)>,
    r: Record,
    i: int,
    k: int,
    text: Seq<char>,
    name: Seq<char>,
)
    requires
        0 <= i < k < fields.len(),
        fields[i].0 == fields[k].0,
        field_names(r).contains(fields[i].0),
        json_shown(text) == Some(Json::Object(fields)),
    ensures
        !without_repeats(Json::Object(fields), Part::One(r)),
        !text_without_repeats(text, Part::One(r)),
        !without_repeats(Json::Array(seq![Json::Object(fields)]), Part::Many(r)),
        !without_repeats(Json::Object(seq![(name, Json::Object(fields))]), Part::Named(r)),
{
    let record = Json::Object(fields);
    assert(!without_repeats(record, Part::One(r)));
    let list = seq![record];
    assert(list[0] == record);
    assert(!without_repeats(list[0], item_part(Part::Many(r), 0)));
    assert(Json::Array(list)->Array_0[0] == list[0]);
    let named = seq![(name, record)];
    assert(named[0].1 == record);
}

/// Whether a value has neither items nor fields.
pub open spec fn is_plain(j: Json) -> bool {
    !(j is Array) && !(j is Object)
}

/// Fields that a record does not know may stand twice, and fields that stand once
/// are in order whatever they are.
pub proof fn law_other_fields_may_repeat(fields: Seq<(Seq<char>, Json)>, r: Record)
    requires
        forall|i: int| 0 <= i < fields.len() ==> is_plain((#[trigger] fields[i]).1),
        forall|i: int, k: int|
            0 <= i < k < fields.len() && (#[trigger] fields[i]).0 == (#[trigger] fields[k]).0
                ==> !field_names(r).contains(fields[i].0),
    ensures
        without_repeats(Json::Object(fields), Part::One(r)),
{
    assert forall|i: int| 0 <= i < fields.len() implies without_repeats(
        (#[trigger] fields[i]).1,
        field_part(Part::One(r), fields[i].0),
    ) by {
        assert(is_plain(fields[i].1));
    }
}

/// What is no JSON at all is refused.
pub proof fn law_other_texts_are_refused(text: Seq<char>, p: Part)
    requires
        json_shown(text) is None,
    ensures
        !text_without_repeats(text, p),
{
}

proof fn lemma_refused_inside(
    fields: Seq<(Seq<char>, Json)>,
    r: Record,
    n: int,
    items: Seq<Json>,
    k: int,
    inner: Record,
)
    requires
        0 <= n < fields.len(),
        0 <= k < items.len(),
        fields[n].1 == Json::Array(items),
        part_named(r, fields[n].0) == Part::Many(inner),
        !without_repeats(items[k], Part::One(inner)),
    ensures
        !without_repeats(Json::Object(fields), Part::One(r)),
{
    assert(!without_repeats(items[k], item_part(Part::Many(inner), k)));
    assert(Json::Array(items)->Array_0[k] == items[k]);
    assert(!without_repeats(Json::Array(items), Part::Many(inner)));
    assert(!without_repeats(
        fields[n].1,
        field_part(Part::One(r), fields[n].0),
    ));
}

/// A snapshot is refused for each record inside it that is.
pub proof fn law_snapshot_is_refused_for_its_parts(
    fields: Seq<(Seq<char>, Json)>,
    n: int,
    items: Seq<Json>,
    k: int,
)
    requires
        0 <= n < fields.len(),
        0 <= k < items.len(),
    ensures
        fields[n] == ("pendingRequests"@, Json::Array(items)) && !without_repeats(
            items[k],
            Part::One(Record::Request),
        ) ==> !without_repeats(Json::Object(fields), Part::One(Record::Snapshot)),
        fields[n] == ("terminals"@, Json::Array(items)) && !without_repeats(
            items[k],
            Part::One(Record::Terminal),
        ) ==> !without_repeats(Json::Object(fields), Part::One(Record::Snapshot)),
        fields[n] == ("configOptions"@, Json::Array(items)) && !without_repeats(
            items[k],
            Part::One(Record::ConfigOption),
        ) ==> !without_repeats(Json::Object(fields), Part::One(Record::Snapshot)),
        fields[n].0 == "sessionModes"@ && !without_repeats(fields[n].1, Part::One(Record::Modes))
            ==> !without_repeats(Json::Object(fields), Part::One(Record::Snapshot)),
{
    reveal_strlit("pendingRequests");
    reveal_strlit("terminals");
    reveal_strlit("sessionModes");
    reveal_strlit("configOptions");
    assert("pendingRequests"@.len() == 15 && "terminals"@.len() == 9);
    assert("sessionModes"@.len() == 12 && "configOptions"@.len() == 13);
    if fields[n] == ("pendingRequests"@, Json::Array(items)) && !without_repeats(
        items[k],
        Part::One(Record::Request),
    ) {
        lemma_refused_inside(fields, Record::Snapshot, n, items, k, Record::Request);
    }
    if fields[n] == ("terminals"@, Json::Array(items)) && !without_repeats(
        items[k],
        Part::One(Record::Terminal),
    ) {
        lemma_refused_inside(fields, Record::Snapshot, n, items, k, Record::Terminal);
    }
    if fields[n] == ("configOptions"@, Json::Array(items)) && !without_repeats(
        items[k],
        Part::One(Record::ConfigOption),
    ) {
        lemma_refused_inside(fields, Record::Snapshot, n, items, k, Record::ConfigOption);
    }
    if fields[n].0 == "sessionModes"@ && !without_repeats(fields[n].1, Part::One(Record::Modes)) {
        assert(!without_repeats(
            fields[n].1,
            field_part(Part::One(Record::Snapshot), fields[n].0),
        ));
    }
}

/// Modes, options and sessions are refused for each record in their lists that is.
pub proof fn law_records_are_refused_for_their_lists(
    fields: Seq<(Seq<char>, Json)>,
    n: int,
    items: Seq<Json>,
    k: int,
)
    requires
        0 <= n < fields.len(),
        0 <= k < items.len(),
    ensures
        fields[n] == ("available"@, Json::Array(items)) && !without_repeats(
            items[k],
            Part::One(Record::Mode),
        ) ==> !without_repeats(Json::Object(fields), Part::One(Record::Modes)),
        fields[n] == ("options"@, Json::Array(items)) && !without_repeats(
            items[k],
            Part::One(Record::ConfigValue),
        ) ==> !without_repeats(Json::Object(fields), Part::One(Record::ConfigOption)),
        fields[n] == ("replay_turns"@, Json::Array(items)) && !without_repeats(
            items[k],
            Part::One(Record::Turn),
        ) ==> !without_repeats(Json::Object(fields), Part::One(Record::Session)),
{
    if fields[n] == ("available"@, Json::Array(items)) && !without_repeats(
        items[k],
        Part::One(Record::Mode),
    ) {
        lemma_refused_inside(fields, Record::Modes, n, items, k, Record::Mode);
    }
    if fields[n] == ("options"@, Json::Array(items)) && !without_repeats(
        items[k],
        Part::One(Record::ConfigValue),
    ) {
        lemma_refused_inside(fields, Record::ConfigOption, n, items, k, Record::ConfigValue);
    }
    if fields[n] == ("replay_turns"@, Json::Array(items)) && !without_repeats(
        items[k],
        Part::One(Record::Turn),
    ) {
        lemma_refused_inside(fields, Record::Session, n, items, k, Record::Turn);
    }
}

/// Whether the fields of an object are those of a record, in order.
pub open spec fn has_fields_of(j: Json, r: Record) -> bool {
    j matches Json::Object(fields) && fields.len() == field_names(r).len() && forall|i: int|
        0 <= i < fields.len() ==> (#[trigger] fields[i]).0 == field_names(r)[i]
}

/// The fields of a line of the cache are those that the line is written with.
pub proof fn law_lines_are_written_with_their_fields(m: ChatMessageView, t: TrailerView)
    ensures
        has_fields_of(message_json(m), Record::MessageLine),
        has_fields_of(trailer_line_json(t), Record::TrailerLine),
        has_fields_of(trailer_json(t), Record::Trailer),
{
}

/// The fields of a snapshot and of what it holds are those that each is written
/// with.
pub proof fn law_snapshots_are_written_with_their_fields(
    s: SnapshotView,
    q: AgentRequestView,
    t: TerminalSnapshotView,
    ms: SessionModesView,
    m: SessionModeView,
    o: ConfigOptionView,
    v: ConfigValueView,
)
    ensures
        has_fields_of(ThreadRuntimeSnapshot::encoded(s), Record::Snapshot),
        has_fields_of(AgentRequestEvent::encoded(q), Record::Request),
        has_fields_of(TerminalRuntimeSnapshot::encoded(t), Record::Terminal),
        has_fields_of(SessionModesEvent::encoded(ms), Record::Modes),
        has_fields_of(SessionModeInfo::encoded(m), Record::Mode),
        has_fields_of(ConfigOptionInfo::encoded(o), Record::ConfigOption),
        has_fields_of(ConfigOptionValue::encoded(v), Record::ConfigValue),
{
}

/// The fields of a session that is kept are those that it is written with.
pub proof fn law_sessions_are_written_with_their_fields(s: StateView, prompt: Seq<char>)
    ensures
        has_fields_of(SessionState::encoded(s), Record::Session),
        has_fields_of(ReplayTurn::encoded(prompt), Record::Turn),
{
}

} // verus!
