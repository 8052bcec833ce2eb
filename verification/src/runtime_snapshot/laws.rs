//! What a snapshot is kept as, said of its fields.

use crate::json::{field, items_field, lemma_fields_are, str_field, Json};
use crate::jsonl_format::laws::{holds_text, is_text_of};
use crate::protocol_types::{
    AgentRequestEvent, AgentRequestView, ConfigOptionInfo, ConfigOptionValue, ConfigOptionView,
    ConfigValueView, SessionModeInfo, SessionModeView, SessionModesEvent, SessionModesView,
};
use crate::runtime_snapshot::{
    code_read, empty_snapshot, lemma_agentrequestevent_names, lemma_configoptioninfo_names,
    lemma_configoptionvalue_names, lemma_sessionmodeinfo_names, lemma_sessionmodesevent_names,
    lemma_terminalruntimesnapshot_names, lemma_threadruntimesnapshot_names, list_json, list_member,
    SnapshotView, Stored, TerminalRuntimeSnapshot, TerminalSnapshotView, ThreadRuntimeSnapshot,
};
use crate::seqs::{lemma_every_gives, lemma_every_none};
use vstd::prelude::*;

verus! {

/// A list is kept with one entry for each of its values, in order.
pub proof fn law_lists_are_kept_in_order<T: Stored>(v: Seq<T::Seen>, k: int)
    requires
        0 <= k < v.len(),
    ensures
        list_json::<T>(v) is Array,
        list_json::<T>(v)->Array_0.len() == v.len(),
        list_json::<T>(v)->Array_0[k] == T::encoded(v[k]),
{
}

/// A snapshot is kept with its requests, terminals, modes and options, each under
/// its own name and in order.
pub proof fn law_snapshot_is_kept_by_its_fields(v: SnapshotView)
    ensures
        ({
            let j = ThreadRuntimeSnapshot::encoded(v);
            &&& items_field(j, "pendingRequests"@) matches Some(items) && items.len()
                == v.pending_requests.len() && forall|k: int|
                0 <= k < items.len() ==> #[trigger] items[k] == AgentRequestEvent::encoded(
                    v.pending_requests[k],
                )
        }),
        ({
            let j = ThreadRuntimeSnapshot::encoded(v);
            &&& items_field(j, "terminals"@) matches Some(items) && items.len()
                == v.terminals.len() && forall|k: int|
                0 <= k < items.len() ==> #[trigger] items[k] == TerminalRuntimeSnapshot::encoded(
                    v.terminals[k],
                )
        }),
        ({
            let j = ThreadRuntimeSnapshot::encoded(v);
            &&& items_field(j, "configOptions"@) matches Some(items) && items.len()
                == v.config_options.len() && forall|k: int|
                0 <= k < items.len() ==> #[trigger] items[k] == ConfigOptionInfo::encoded(
                    v.config_options[k],
                )
        }),
        v.session_modes matches Some(modes) ==> field(
            ThreadRuntimeSnapshot::encoded(v),
            "sessionModes"@,
        ) == Some(SessionModesEvent::encoded(modes)),
        v.session_modes is None ==> field(
            ThreadRuntimeSnapshot::encoded(v),
            "sessionModes"@,
        ) == Some(Json::Null),
{
    lemma_threadruntimesnapshot_names(v);
    let fields = ThreadRuntimeSnapshot::encoded(v)->Object_0;
    lemma_fields_are(fields);
    assert(fields[0].0 == "pendingRequests"@ && fields[1].0 == "terminals"@);
    assert(fields[2].0 == "sessionModes"@ && fields[3].0 == "configOptions"@);
}

/// A terminal is kept with its id, what it printed, whether that was cut off, and
/// how it ended.
pub proof fn law_terminal_is_kept_by_its_fields(v: TerminalSnapshotView)
    ensures
        ({
            let j = TerminalRuntimeSnapshot::encoded(v);
            &&& str_field(j, "terminalId"@) == Some(v.terminal_id)
            &&& str_field(j, "output"@) == Some(v.output)
            &&& field(j, "truncated"@) == Some(Json::Bool(v.truncated))
            &&& v.exit_status is None ==> field(j, "exitStatus"@) == Some(Json::Null)
            &&& v.exit_status matches Some((code, signal)) ==> (items_field(
                j,
                "exitStatus"@,
            ) matches Some(parts) && parts.len() == 2 && (code matches Some(n) ==> parts[0]
                == Json::Int(n as int)) && (code is None ==> parts[0] == Json::Null) && (
            signal matches Some(n) ==> parts[1] == Json::Int(n as int)) && (signal is None
                ==> parts[1] == Json::Null))
        }),
{
    lemma_terminalruntimesnapshot_names(v);
    let fields = TerminalRuntimeSnapshot::encoded(v)->Object_0;
    lemma_fields_are(fields);
    assert(fields[0].0 == "terminalId"@ && fields[1].0 == "output"@);
    assert(fields[2].0 == "truncated"@ && fields[3].0 == "exitStatus"@);
}

/// A request is kept with its id, its method and itself.
pub proof fn law_request_is_kept_by_its_fields(v: AgentRequestView)
    ensures
        str_field(AgentRequestEvent::encoded(v), "relay_id"@) == Some(v.relay_id),
        str_field(AgentRequestEvent::encoded(v), "method"@) == Some(v.method),
        field(AgentRequestEvent::encoded(v), "raw_request"@) == Some(v.raw_request),
{
    lemma_agentrequestevent_names(v);
    let fields = AgentRequestEvent::encoded(v)->Object_0;
    lemma_fields_are(fields);
    assert(fields[0].0 == "relay_id"@ && fields[1].0 == "method"@);
    assert(fields[2].0 == "raw_request"@);
}

/// Modes are kept with the current one and the list of them, each mode with its
/// id, its name and what it is for.
pub proof fn law_modes_are_kept_by_their_fields(v: SessionModesView, m: SessionModeView)
    ensures
        str_field(SessionModesEvent::encoded(v), "current_mode_id"@) == Some(v.current_mode_id),
        field(SessionModesEvent::encoded(v), "available"@) == Some(
            list_json::<SessionModeInfo>(v.available),
        ),
        str_field(SessionModeInfo::encoded(m), "id"@) == Some(m.id),
        str_field(SessionModeInfo::encoded(m), "name"@) == Some(m.name),
        holds_text(SessionModeInfo::encoded(m), "description"@, m.description),
{
    lemma_sessionmodesevent_names(v);
    lemma_sessionmodeinfo_names(m);
    let fields = SessionModesEvent::encoded(v)->Object_0;
    lemma_fields_are(fields);
    assert(fields[0].0 == "current_mode_id"@ && fields[1].0 == "available"@);
    let own = SessionModeInfo::encoded(m)->Object_0;
    lemma_fields_are(own);
    assert(own[0].0 == "id"@ && own[1].0 == "name"@ && own[2].0 == "description"@);
}

/// An option is kept with its id, its name, its kind, its category, its value and
/// what it can be set to, each value with its name and what it is for.
pub proof fn law_options_are_kept_by_their_fields(v: ConfigOptionView, o: ConfigValueView)
    ensures
        ({
            let j = ConfigOptionInfo::encoded(v);
            &&& str_field(j, "id"@) == Some(v.id)
            &&& str_field(j, "name"@) == Some(v.name)
            &&& str_field(j, "kind"@) == Some(v.kind)
            &&& holds_text(j, "description"@, v.description)
            &&& holds_text(j, "category"@, v.category)
            &&& holds_text(j, "current_value"@, v.current_value)
            &&& field(j, "options"@) == Some(list_json::<ConfigOptionValue>(v.options))
        }),
        str_field(ConfigOptionValue::encoded(o), "value"@) == Some(o.value),
        str_field(ConfigOptionValue::encoded(o), "name"@) == Some(o.name),
        holds_text(ConfigOptionValue::encoded(o), "description"@, o.description),
{
    lemma_configoptioninfo_names(v);
    lemma_configoptionvalue_names(o);
    let fields = ConfigOptionInfo::encoded(v)->Object_0;
    lemma_fields_are(fields);
    assert(fields[0].0 == "id"@ && fields[1].0 == "name"@ && fields[2].0 == "description"@);
    assert(fields[3].0 == "category"@ && fields[4].0 == "kind"@);
    assert(fields[5].0 == "current_value"@ && fields[6].0 == "options"@);
    let own = ConfigOptionValue::encoded(o)->Object_0;
    lemma_fields_are(own);
    assert(own[0].0 == "value"@ && own[1].0 == "name"@ && own[2].0 == "description"@);
}

/// Whether values are what the items of a field stand for, in order.
pub open spec fn listed_in<T: Stored>(v: Seq<T::Seen>, j: Json, key: Seq<char>) -> bool {
    items_field(j, key) matches Some(items) && items.len() == v.len() && forall|k: int|
        0 <= k < v.len() ==> T::decoded(#[trigger] items[k]) == Some(v[k])
}

/// A list is read item by item, in order; a field that is not there is an empty
/// list, and one that holds no list, or an item that cannot be read, is refused.
pub proof fn law_lists_are_read_in_order<T: Stored>(j: Json, key: Seq<char>, at: int)
    ensures
        field(j, key) is None ==> (list_member::<T>(j, key) matches Some(v) && v.len() == 0),
        field(j, key) is Some ==> (list_member::<T>(j, key) matches Some(v) ==> listed_in::<T>(
            v,
            j,
            key,
        )),
        field(j, key) is Some && items_field(j, key) is None ==> list_member::<T>(j, key) is None,
        items_field(j, key) matches Some(items) ==> 0 <= at < items.len() && T::decoded(items[at])
            is None ==> list_member::<T>(j, key) is None,
{
    if let Some(Json::Array(items)) = field(j, key) {
        let f = |x: Json| T::decoded(x);
        if let Some(v) = list_member::<T>(j, key) {
            lemma_every_gives(items, f, v);
            assert forall|k: int| 0 <= k < v.len() implies T::decoded(#[trigger] items[k]) == Some(
                v[k],
            ) by {
                assert(f(items[k]) == Some(v[k]));
            }
        }
        if 0 <= at < items.len() && T::decoded(items[at]) is None {
            assert(f(items[at]) is None);
            lemma_every_none(items, f, at);
        }
    }
}

/// A snapshot is read with its requests, terminals, modes and options, each under
/// its own name and in order; what is not there is empty.
pub proof fn law_snapshot_is_read_by_its_fields(j: Json, v: SnapshotView)
    requires
        j is Object,
        ThreadRuntimeSnapshot::decoded(j) == Some(v),
    ensures
        field(j, "pendingRequests"@) is None ==> v.pending_requests.len() == 0,
        field(j, "pendingRequests"@) is Some ==> listed_in::<AgentRequestEvent>(
            v.pending_requests,
            j,
            "pendingRequests"@,
        ),
        field(j, "terminals"@) is None ==> v.terminals.len() == 0,
        field(j, "terminals"@) is Some ==> listed_in::<TerminalRuntimeSnapshot>(
            v.terminals,
            j,
            "terminals"@,
        ),
        field(j, "configOptions"@) is None ==> v.config_options.len() == 0,
        field(j, "configOptions"@) is Some ==> listed_in::<ConfigOptionInfo>(
            v.config_options,
            j,
            "configOptions"@,
        ),
        field(j, "sessionModes"@) is None || field(j, "sessionModes"@) == Some(Json::Null)
            ==> v.session_modes is None,
        field(j, "sessionModes"@) matches Some(modes) ==> modes != Json::Null ==> (
        v.session_modes matches Some(m) && SessionModesEvent::decoded(modes) == Some(m)),
{
    law_lists_are_read_in_order::<AgentRequestEvent>(j, "pendingRequests"@, 0);
    law_lists_are_read_in_order::<TerminalRuntimeSnapshot>(j, "terminals"@, 0);
    law_lists_are_read_in_order::<ConfigOptionInfo>(j, "configOptions"@, 0);
}

/// A snapshot of which nothing was kept is empty, and what is neither an object nor
/// a list is no snapshot.
pub proof fn law_nothing_kept_is_an_empty_snapshot(j: Json)
    ensures
        j is Object && field(j, "pendingRequests"@) is None && field(j, "terminals"@) is None
            && field(j, "sessionModes"@) is None && field(j, "configOptions"@) is None
            ==> ThreadRuntimeSnapshot::decoded(j) == Some(empty_snapshot()),
        !(j is Object) && !(j is Array) ==> ThreadRuntimeSnapshot::decoded(j) is None,
        empty_snapshot().pending_requests.len() == 0 && empty_snapshot().terminals.len() == 0
            && empty_snapshot().session_modes is None && empty_snapshot().config_options.len() == 0,
{
}

/// A terminal is read with its id, what it printed, whether that was cut off, and
/// how it ended; it has no end where none was kept.
pub proof fn law_terminal_is_read_by_its_fields(j: Json, v: TerminalSnapshotView)
    requires
        j is Object,
    ensures
        TerminalRuntimeSnapshot::decoded(j) == Some(v) ==> {
            &&& str_field(j, "terminalId"@) == Some(v.terminal_id)
            &&& str_field(j, "output"@) == Some(v.output)
            &&& field(j, "truncated"@) == Some(Json::Bool(v.truncated))
            &&& field(j, "exitStatus"@) is None ==> v.exit_status is None
            &&& items_field(j, "exitStatus"@) matches Some(parts) ==> (
            v.exit_status matches Some((code, signal)) && parts.len() == 2 && code_read(parts[0])
                == Some(code) && code_read(parts[1]) == Some(signal))
        },
        str_field(j, "terminalId"@) is None ==> TerminalRuntimeSnapshot::decoded(j) is None,
        str_field(j, "output"@) is None ==> TerminalRuntimeSnapshot::decoded(j) is None,
        field(j, "truncated"@) is None ==> TerminalRuntimeSnapshot::decoded(j) is None,
{
}

/// A code is a number that fits, or `null` where there is none.
pub proof fn law_codes_are_read(code: i32, other: int)
    ensures
        code_read(Json::Int(code as int)) == Some(Some(code)),
        code_read(Json::Null) == Some(None::<i32>),
        other < i32::MIN || other > i32::MAX ==> code_read(Json::Int(other)) is None,
{
}

/// A request is read with its id, its method and itself, and needs all three.
pub proof fn law_request_is_read_by_its_fields(j: Json, v: AgentRequestView)
    ensures
        AgentRequestEvent::decoded(j) == Some(v) <==> str_field(j, "relay_id"@) == Some(v.relay_id)
            && str_field(j, "method"@) == Some(v.method) && field(j, "raw_request"@) == Some(
            v.raw_request,
        ),
{
}

/// Modes are read with the current one and the list of them, and need both.
pub proof fn law_modes_are_read_by_their_fields(j: Json, v: SessionModesView)
    ensures
        SessionModesEvent::decoded(j) == Some(v) ==> str_field(j, "current_mode_id"@) == Some(
            v.current_mode_id,
        ) && listed_in::<SessionModeInfo>(v.available, j, "available"@),
        str_field(j, "current_mode_id"@) is None ==> SessionModesEvent::decoded(j) is None,
        field(j, "available"@) is None ==> SessionModesEvent::decoded(j) is None,
{
    law_lists_are_read_in_order::<SessionModeInfo>(j, "available"@, 0);
}

/// A mode and a value are read with their texts.
pub proof fn law_mode_and_value_are_read_by_their_fields(
    j: Json,
    m: SessionModeView,
    v: ConfigValueView,
)
    ensures
        SessionModeInfo::decoded(j) == Some(m) ==> str_field(j, "id"@) == Some(m.id) && str_field(
            j,
            "name"@,
        ) == Some(m.name) && is_text_of(m.description, j, "description"@),
        str_field(j, "id"@) is None ==> SessionModeInfo::decoded(j) is None,
        str_field(j, "name"@) is None ==> SessionModeInfo::decoded(j) is None,
        ConfigOptionValue::decoded(j) == Some(v) ==> str_field(j, "value"@) == Some(v.value)
            && str_field(j, "name"@) == Some(v.name) && is_text_of(
            v.description,
            j,
            "description"@,
        ),
        str_field(j, "value"@) is None ==> ConfigOptionValue::decoded(j) is None,
        str_field(j, "name"@) is None ==> ConfigOptionValue::decoded(j) is None,
{
}

/// An option is read with its texts and its values, and needs its id, its name, its
/// kind and its values.
pub proof fn law_option_is_read_by_its_fields(j: Json, v: ConfigOptionView)
    ensures
        ConfigOptionInfo::decoded(j) == Some(v) ==> {
            &&& str_field(j, "id"@) == Some(v.id)
            &&& str_field(j, "name"@) == Some(v.name)
            &&& str_field(j, "kind"@) == Some(v.kind)
            &&& is_text_of(v.description, j, "description"@)
            &&& is_text_of(v.category, j, "category"@)
            &&& is_text_of(v.current_value, j, "current_value"@)
            &&& listed_in::<ConfigOptionValue>(v.options, j, "options"@)
        },
        str_field(j, "id"@) is None ==> ConfigOptionInfo::decoded(j) is None,
        str_field(j, "name"@) is None ==> ConfigOptionInfo::decoded(j) is None,
        str_field(j, "kind"@) is None ==> ConfigOptionInfo::decoded(j) is None,
        field(j, "options"@) is None ==> ConfigOptionInfo::decoded(j) is None,
{
    law_lists_are_read_in_order::<ConfigOptionValue>(j, "options"@, 0);
}

/// A snapshot that is written as a list is read as the one with the items as its
/// fields, and a terminal likewise.
pub proof fn law_snapshot_is_read_by_position(a: Json, b: Json, c: Json, d: Json)
    ensures
        ThreadRuntimeSnapshot::decoded(Json::Array(seq![a, b, c, d]))
            == ThreadRuntimeSnapshot::decoded(
            Json::Object(
                seq![
                    ("pendingRequests"@, a),
                    ("terminals"@, b),
                    ("sessionModes"@, c),
                    ("configOptions"@, d),
                ],
            ),
        ),
        TerminalRuntimeSnapshot::decoded(Json::Array(seq![a, b, c, d]))
            == TerminalRuntimeSnapshot::decoded(
            Json::Object(
                seq![("terminalId"@, a), ("output"@, b), ("truncated"@, c), ("exitStatus"@, d)],
            ),
        ),
{
    let items = seq![a, b, c, d];
    let names = seq!["pendingRequests"@, "terminals"@, "sessionModes"@, "configOptions"@];
    let fields = seq![
        ("pendingRequests"@, a),
        ("terminals"@, b),
        ("sessionModes"@, c),
        ("configOptions"@, d),
    ];
    assert(Seq::new(items.len(), |i: int| (names[i], items[i])) =~= fields);
    let words = seq!["terminalId"@, "output"@, "truncated"@, "exitStatus"@];
    let parts = seq![("terminalId"@, a), ("output"@, b), ("truncated"@, c), ("exitStatus"@, d)];
    assert(Seq::new(items.len(), |i: int| (words[i], items[i])) =~= parts);
}

} // verus!
