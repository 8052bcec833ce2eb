//! The records that are kept as JSON: which fields each has, and that none of
//! them stands twice in a text.

pub mod laws;

use crate::json::{
    distinct_names, faithful, fields_seq, json_seq, json_shown, lemma_array_view,
    lemma_object_view, names_view, Json, JsonValue,
};
use crate::text::same;
use vstd::prelude::*;

verus! {

/// A record.
#[derive(Clone, Copy, Debug, PartialEq, Eq, Structural)]
pub enum Record {
    MessageLine,
    TrailerLine,
    Trailer,
    Snapshot,
    Request,
    Terminal,
    Modes,
    Mode,
    ConfigOption,
    ConfigValue,
    Session,
    Turn,
}

/// What a place in a document holds.
#[derive(Clone, Copy, Debug, PartialEq, Eq, Structural)]
pub enum Part {
    /// Nothing that has fields of its own.
    Plain,
    /// A record.
    One(Record),
    /// A list of records.
    Many(Record),
    /// Records under names of their own.
    Named(Record),
}

/// The fields of a record, in order. That of a line starts with its kind.
pub open spec fn field_names(r: Record) -> Seq<Seq<char>> {
    match r {
        Record::MessageLine => seq![
            "line_kind"@,
            "kind"@,
            "text"@,
            "status"@,
            "id"@,
            "raw_input"@,
            "raw_output"@,
        ],
        Record::TrailerLine => seq![
            "line_kind"@,
            "acpSessionId"@,
            "title"@,
            "updatedAt"@,
            "messageCount"@,
        ],
        Record::Trailer => seq!["acpSessionId"@, "title"@, "updatedAt"@, "messageCount"@],
        Record::Snapshot => seq![
            "pendingRequests"@,
            "terminals"@,
            "sessionModes"@,
            "configOptions"@,
        ],
        Record::Request => seq!["relay_id"@, "method"@, "raw_request"@],
        Record::Terminal => seq!["terminalId"@, "output"@, "truncated"@, "exitStatus"@],
        Record::Modes => seq!["current_mode_id"@, "available"@],
        Record::Mode => seq!["id"@, "name"@, "description"@],
        Record::ConfigOption => seq![
            "id"@,
            "name"@,
            "description"@,
            "category"@,
            "kind"@,
            "current_value"@,
            "options"@,
        ],
        Record::ConfigValue => seq!["value"@, "name"@, "description"@],
        Record::Session => seq!["title"@, "updated_at"@, "turn_count"@, "replay_turns"@, "model"@],
        Record::Turn => seq!["prompt_text"@],
    }
}

/// What a field of a record holds.
pub open spec fn part_named(r: Record, name: Seq<char>) -> Part {
    match r {
        Record::Snapshot => if name == "pendingRequests"@ {
            Part::Many(Record::Request)
        } else if name == "terminals"@ {
            Part::Many(Record::Terminal)
        } else if name == "sessionModes"@ {
            Part::One(Record::Modes)
        } else if name == "configOptions"@ {
            Part::Many(Record::ConfigOption)
        } else {
            Part::Plain
        },
        Record::Modes => if name == "available"@ {
            Part::Many(Record::Mode)
        } else {
            Part::Plain
        },
        Record::ConfigOption => if name == "options"@ {
            Part::Many(Record::ConfigValue)
        } else {
            Part::Plain
        },
        Record::Session => if name == "replay_turns"@ {
            Part::Many(Record::Turn)
        } else {
            Part::Plain
        },
        _ => Part::Plain,
    }
}

/// Whether each of the names stands at most once.
pub open spec fn once(fields: Seq<(Seq<char>, Json)>, names: Seq<Seq<char>>) -> bool {
    forall|i: int, k: int|
        0 <= i < k < fields.len() && (#[trigger] fields[i]).0 == (#[trigger] fields[k]).0
            ==> !names.contains(fields[i].0)
}

/// What an item of a list holds, by its place: the fields of a record can also
/// stand by position.
pub open spec fn item_part(p: Part, i: int) -> Part {
    match p {
        Part::One(r) => if 0 <= i < field_names(r).len() {
            part_named(r, field_names(r)[i])
        } else {
            Part::Plain
        },
        Part::Many(r) => Part::One(r),
        _ => Part::Plain,
    }
}

/// What a field of an object holds, by its name.
pub open spec fn field_part(p: Part, name: Seq<char>) -> Part {
    match p {
        Part::One(r) => part_named(r, name),
        Part::Named(r) => Part::One(r),
        _ => Part::Plain,
    }
}

/// Whether no record in a document has one of its fields twice.
pub open spec fn without_repeats(j: Json, p: Part) -> bool
    decreases j,
{
    match j {
        Json::Array(items) => forall|i: int|
            0 <= i < items.len() ==> without_repeats(#[trigger] items[i], item_part(p, i)),
        Json::Object(fields) => {
            &&& p matches Part::One(r) ==> once(fields, field_names(r))
            &&& forall|i: int|
                0 <= i < fields.len() ==> without_repeats(
                    (#[trigger] fields[i]).1,
                    field_part(p, fields[i].0),
                )
        },
        _ => true,
    }
}

/// Whether a text is JSON in which no record has one of its fields twice.
pub open spec fn text_without_repeats(text: Seq<char>, p: Part) -> bool {
    match json_shown(text) {
        Some(j) => without_repeats(j, p),
        None => false,
    }
}

/// A document that survives being printed and read has no field twice.
pub proof fn lemma_faithful_without_repeats(j: Json, depth: nat, p: Part)
    requires
        faithful(j, depth),
    ensures
        without_repeats(j, p),
    decreases j,
{
    match j {
        Json::Array(items) => {
            assert forall|i: int| 0 <= i < items.len() implies without_repeats(
                #[trigger] items[i],
                item_part(p, i),
            ) by {
                lemma_faithful_without_repeats(items[i], (depth - 1) as nat, item_part(p, i));
            }
        },
        Json::Object(fields) => {
            assert(distinct_names(fields));
            assert forall|i: int| 0 <= i < fields.len() implies without_repeats(
                (#[trigger] fields[i]).1,
                field_part(p, fields[i].0),
            ) by {
                let inner = field_part(p, fields[i].0);
                lemma_faithful_without_repeats(fields[i].1, (depth - 1) as nat, inner);
            }
        },
        _ => {},
    }
}

fn known_names(r: Record) -> (names: Vec<&'static str>)
    ensures
        names_view(names@) == field_names(r),
{
    let names: Vec<&'static str> = match r {
        Record::MessageLine => vec![
            "line_kind", "kind", "text", "status", "id", "raw_input", "raw_output"
        ],
        Record::TrailerLine => vec![
            "line_kind", "acpSessionId", "title", "updatedAt", "messageCount"
        ],
        Record::Trailer => vec!["acpSessionId", "title", "updatedAt", "messageCount"],
        Record::Snapshot => vec!["pendingRequests", "terminals", "sessionModes", "configOptions"],
        Record::Request => vec!["relay_id", "method", "raw_request"],
        Record::Terminal => vec!["terminalId", "output", "truncated", "exitStatus"],
        Record::Modes => vec!["current_mode_id", "available"],
        Record::Mode => vec!["id", "name", "description"],
        Record::ConfigOption => vec![
            "id", "name", "description", "category", "kind", "current_value", "options"
        ],
        Record::ConfigValue => vec!["value", "name", "description"],
        Record::Session => vec!["title", "updated_at", "turn_count", "replay_turns", "model"],
        Record::Turn => vec!["prompt_text"],
    };
    assert(names_view(names@) =~= field_names(r));
    names
}

fn part_of(r: Record, name: &str) -> (p: Part)
    ensures
        p == part_named(r, name@),
{
    match r {
        Record::Snapshot => if same(name, "pendingRequests") {
            Part::Many(Record::Request)
        } else if same(name, "terminals") {
            Part::Many(Record::Terminal)
        } else if same(name, "sessionModes") {
            Part::One(Record::Modes)
        } else if same(name, "configOptions") {
            Part::Many(Record::ConfigOption)
        } else {
            Part::Plain
        },
        Record::Modes => if same(name, "available") {
            Part::Many(Record::Mode)
        } else {
            Part::Plain
        },
        Record::ConfigOption => if same(name, "options") {
            Part::Many(Record::ConfigValue)
        } else {
            Part::Plain
        },
        Record::Session => if same(name, "replay_turns") {
            Part::Many(Record::Turn)
        } else {
            Part::Plain
        },
        _ => Part::Plain,
    }
}

fn is_among(names: &Vec<&'static str>, name: &str) -> (r: bool)
    ensures
        r == names_view(names@).contains(name@),
{
    let mut i: usize = 0;
    while i < names.len()
        invariant
            i <= names.len(),
            forall|k: int| 0 <= k < i ==> names_view(names@)[k] != name@,
        decreases names.len() - i,
    {
        assert(names_view(names@)[i as int] == names@[i as int]@);
        if same(names[i], name) {
            return true;
        }
        i += 1;
    }
    false
}

fn is_once(fields: &Vec<(String, JsonValue)>, names: &Vec<&'static str>) -> (r: bool)
    ensures
        r == once(fields_seq(fields@), names_view(names@)),
{
    let ghost all = fields_seq(fields@);
    let ghost known = names_view(names@);
    let mut i: usize = 0;
    while i < fields.len()
        invariant
            i <= fields.len(),
            all == fields_seq(fields@),
            known == names_view(names@),
            forall|a: int, b: int|
                0 <= a < i && a < b < all.len() && (#[trigger] all[a]).0 == (#[trigger] all[b]).0
                    ==> !known.contains(all[a].0),
        decreases fields.len() - i,
    {
        assert(all[i as int].0 == fields@[i as int].0@);
        if is_among(names, fields[i].0.as_str()) {
            let mut k: usize = i + 1;
            while k < fields.len()
                invariant
                    i < k <= fields.len(),
                    all == fields_seq(fields@),
                    known == names_view(names@),
                    known.contains(all[i as int].0),
                    all[i as int].0 == fields@[i as int].0@,
                    forall|b: int| i < b < k ==> all[i as int].0 != (#[trigger] all[b]).0,
                decreases fields.len() - k,
            {
                assert(all[k as int].0 == fields@[k as int].0@);
                if same(fields[i].0.as_str(), fields[k].0.as_str()) {
                    assert(!once(all, known));
                    return false;
                }
                k += 1;
            }
        }
        i += 1;
    }
    true
}

fn part_at(p: Part, i: usize) -> (r: Part)
    ensures
        r == item_part(p, i as int),
{
    match p {
        Part::One(record) => {
            let names: Vec<&'static str> = known_names(record);
            if i < names.len() {
                assert(names_view(names@)[i as int] == names@[i as int]@);
                part_of(record, names[i])
            } else {
                Part::Plain
            }
        },
        Part::Many(record) => Part::One(record),
        _ => Part::Plain,
    }
}

fn part_under(p: Part, name: &str) -> (r: Part)
    ensures
        r == field_part(p, name@),
{
    match p {
        Part::One(record) => part_of(record, name),
        Part::Named(record) => Part::One(record),
        _ => Part::Plain,
    }
}

/// Whether no record in a document has one of its fields twice.
pub fn is_without_repeats(value: &JsonValue, part: Part) -> (r: bool)
    ensures
        r == without_repeats(value@, part),
    decreases value,
{
    broadcast use {lemma_array_view, lemma_object_view};

    match value {
        JsonValue::Array(items) => {
            let ghost all = json_seq(items@);
            let mut i: usize = 0;
            while i < items.len()
                invariant
                    i <= items.len(),
                    *value == JsonValue::Array(*items),
                    all == json_seq(items@),
                    value@ == Json::Array(all),
                    forall|k: int|
                        0 <= k < i ==> without_repeats(#[trigger] all[k], item_part(part, k)),
                decreases items.len() - i,
            {
                proof {
                    assert(decreases_to!(*value => value->Array_0));
                    assert(decreases_to!(*items => items@));
                    assert(decreases_to!(items@ => items@[i as int]));
                    assert(all[i as int] == items@[i as int]@);
                }
                if !is_without_repeats(&items[i], part_at(part, i)) {
                    assert(!without_repeats(all[i as int], item_part(part, i as int)));
                    assert(Json::Array(all)->Array_0[i as int] == all[i as int]);
                    return false;
                }
                i += 1;
            }
            true
        },
        JsonValue::Object(fields) => {
            let ghost all = fields_seq(fields@);
            if let Part::One(record) = part {
                if !is_once(fields, &known_names(record)) {
                    return false;
                }
            }
            let mut i: usize = 0;
            while i < fields.len()
                invariant
                    i <= fields.len(),
                    *value == JsonValue::Object(*fields),
                    all == fields_seq(fields@),
                    value@ == Json::Object(all),
                    part matches Part::One(record) ==> once(all, field_names(record)),
                    forall|k: int|
                        0 <= k < i ==> without_repeats(
                            (#[trigger] all[k]).1,
                            field_part(part, all[k].0),
                        ),
                decreases fields.len() - i,
            {
                proof {
                    assert(decreases_to!(*value => value->Object_0));
                    assert(decreases_to!(*fields => fields@));
                    assert(decreases_to!(fields@ => fields@[i as int]));
                    assert(decreases_to!(fields@[i as int] => fields@[i as int].1));
                    assert(all[i as int] == (fields@[i as int].0@, fields@[i as int].1@));
                }
                let inner: Part = part_under(part, fields[i].0.as_str());
                if !is_without_repeats(&fields[i].1, inner) {
                    return false;
                }
                i += 1;
            }
            true
        },
        _ => true,
    }
}

/// Whether a text is JSON in which no record has one of its fields twice.
pub fn is_text_without_repeats(text: &str, part: Part) -> (r: bool)
    ensures
        r == text_without_repeats(text@, part),
{
    match JsonValue::parse_all(text) {
        Ok(value) => is_without_repeats(&value, part),
        Err(_) => false,
    }
}

} // verus!
