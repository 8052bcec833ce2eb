//! What the gateway tells a thread, read from its raw notifications and
//! answers: session modes, configuration options, terminal output, profiles.

use crate::gateway_actor::{classified, classify_raw_update, find_session_update, session_update};
use crate::json::{
    field, get_array, get_i64, get_str, i64_field, items_field, json_bool, json_items, json_seq,
    str_field, Json, JsonValue,
};
use crate::protocol_types::{
    config_options_view, config_values_view, events_view, modes_view, AgentEvent, AgentEventView,
    ConfigOptionInfo, ConfigOptionValue, ConfigOptionView, ConfigValueView, SessionModeInfo,
    SessionModeView, SessionModesEvent, SessionModesView, TerminalOutputEvent, TerminalOutputView,
};
use crate::seqs::{lemma_picked_take, picked};
use crate::text::{owned, owned_or, same, text_or};
use vstd::prelude::*;

verus! {

/// A mode entry, where it has an id.
pub open spec fn mode_entry(mode: Json) -> Option<SessionModeView> {
    match str_field(mode, "id"@) {
        Some(id) => Some(
            SessionModeView {
                id,
                name: text_or(str_field(mode, "name"@), Seq::empty()),
                description: str_field(mode, "description"@),
            },
        ),
        None => None,
    }
}

/// The modes that a `modes` field advertises: nothing unless it names the
/// current mode and lists the available ones, of which those without an id are
/// left out.
pub open spec fn modes_read(modes: Json) -> Option<SessionModesView> {
    match (str_field(modes, "currentModeId"@), items_field(modes, "availableModes"@)) {
        (Some(current_mode_id), Some(entries)) => Some(
            SessionModesView {
                current_mode_id,
                available: picked(entries, |mode: Json| mode_entry(mode)),
            },
        ),
        _ => None,
    }
}

/// One value of a configuration option, where it has one.
pub open spec fn config_value_entry(value: Json) -> Option<ConfigValueView> {
    match str_field(value, "value"@) {
        Some(v) => Some(
            ConfigValueView {
                value: v,
                name: text_or(str_field(value, "name"@), Seq::empty()),
                description: str_field(value, "description"@),
            },
        ),
        None => None,
    }
}

/// The values that a configuration option can take: those of its `options`
/// that have one, or none where there is no such list.
pub open spec fn config_values_read(entry: Json) -> Seq<ConfigValueView> {
    match items_field(entry, "options"@) {
        Some(values) => picked(values, |value: Json| config_value_entry(value)),
        None => Seq::empty(),
    }
}

/// A configuration option, where it has an id. It is named by its id where it
/// has no name, and is a selection where it does not say its type.
pub open spec fn config_entry(entry: Json) -> Option<ConfigOptionView> {
    match str_field(entry, "id"@) {
        Some(id) => Some(
            ConfigOptionView {
                id,
                name: text_or(str_field(entry, "name"@), id),
                description: str_field(entry, "description"@),
                category: str_field(entry, "category"@),
                kind: text_or(str_field(entry, "type"@), "select"@),
                current_value: str_field(entry, "currentValue"@),
                options: config_values_read(entry),
            },
        ),
        None => None,
    }
}

/// The configuration options that a list advertises; nothing where it is not a
/// list.
pub open spec fn config_read(list: Json) -> Option<Seq<ConfigOptionView>> {
    match json_items(list) {
        Some(entries) => Some(picked(entries, |entry: Json| config_entry(entry))),
        None => None,
    }
}

/// The capability event that a `session/update` notification stands for.
pub open spec fn capability_event(update: Json) -> Option<AgentEventView> {
    match session_update(update) {
        Some(report) => match str_field(report, "sessionUpdate"@) {
            Some(kind) => if kind == "usage_update"@ {
                Some(
                    AgentEventView::UsageUpdate {
                        used: int_or_zero(i64_field(report, "used"@)),
                        size: int_or_zero(i64_field(report, "size"@)),
                    },
                )
            } else if kind == "current_mode_update"@ {
                match str_field(report, "currentModeId"@) {
                    Some(id) => Some(AgentEventView::CurrentModeChanged(id)),
                    None => None,
                }
            } else if kind == "config_option_update"@ {
                match field(report, "configOptions"@) {
                    Some(list) => match config_read(list) {
                        Some(options) => Some(AgentEventView::ConfigOptions(options)),
                        None => None,
                    },
                    None => None,
                }
            } else {
                None
            },
            None => None,
        },
        None => None,
    }
}

/// A number, or zero where there is none.
pub open spec fn int_or_zero(o: Option<int>) -> int {
    match o {
        Some(i) => i,
        None => 0,
    }
}

/// The event that a notification of a running session stands for: a chat
/// message where it shows as one, else a change of capabilities.
pub open spec fn update_event(update: Json) -> Option<AgentEventView> {
    match classified(update) {
        Some(message) => Some(AgentEventView::Message(message)),
        None => capability_event(update),
    }
}

/// The events that a list of notifications stands for, in order.
pub open spec fn update_events(updates: Seq<Json>) -> Seq<AgentEventView> {
    picked(updates, |update: Json| update_event(update))
}

/// The events that an answer to opening a session advertises: its modes, then
/// its configuration options.
pub open spec fn advertised(value: Json) -> Seq<AgentEventView> {
    advertised_modes(value) + advertised_options(value)
}

/// The event for the modes that an answer advertises.
pub open spec fn advertised_modes(value: Json) -> Seq<AgentEventView> {
    match field(value, "modes"@) {
        Some(modes) => match modes_read(modes) {
            Some(m) => seq![AgentEventView::SessionModes(m)],
            None => Seq::empty(),
        },
        None => Seq::empty(),
    }
}

/// The event for the configuration options that an answer advertises.
pub open spec fn advertised_options(value: Json) -> Seq<AgentEventView> {
    match field(value, "configOptions"@) {
        Some(list) => match config_read(list) {
            Some(options) => seq![AgentEventView::ConfigOptions(options)],
            None => Seq::empty(),
        },
        None => Seq::empty(),
    }
}

/// The low 32 bits of a 64-bit number.
pub open spec fn low32(o: Option<int>) -> Option<i32> {
    match o {
        Some(i) => Some((i as i64) as i32),
        None => None,
    }
}

/// What an `acpx/terminal_output` notification reports.
pub open spec fn terminal_read(value: Json) -> Option<TerminalOutputView> {
    if str_field(value, "method"@) != Some("acpx/terminal_output"@) {
        None
    } else {
        match field(value, "params"@) {
            Some(params) => match (
                str_field(params, "terminalId"@),
                str_field(params, "output"@),
            ) {
                (Some(terminal_id), Some(output)) => Some(
                    TerminalOutputView {
                        terminal_id,
                        output,
                        truncated: bool_field(params, "truncated"@),
                        exit_status: exit_read(params),
                    },
                ),
                _ => None,
            },
            None => None,
        }
    }
}

/// Whether the field `key` holds `true`.
pub open spec fn bool_field(j: Json, key: Seq<char>) -> bool {
    match field(j, key) {
        Some(v) => json_bool(v) == Some(true),
        None => false,
    }
}

/// How a terminal ended, where its notification says that it has.
pub open spec fn exit_read(params: Json) -> Option<(Option<i32>, Option<i32>)> {
    match field(params, "exitStatus"@) {
        Some(status) => if status == Json::Null {
            None
        } else {
            Some(
                (low32(i64_field(status, "exitCode"@)), low32(i64_field(status, "signal"@))),
            )
        },
        None => None,
    }
}

/// A session that the gateway knows of.
#[derive(Debug, Clone, PartialEq, Eq)]
pub struct RemoteThreadInfo {
    pub acp_session_id: String,
    pub agent_id: String,
    pub title: Option<String>,
    pub updated_at: Option<String>,
}

/// A profile that the gateway has registered.
#[derive(Debug, Clone, PartialEq, Eq)]
pub struct ProfileSummary {
    pub name: String,
    pub agent_id: String,
    pub allow_terminal_access: bool,
    pub allow_fs_access: bool,
}

/// A [`ProfileSummary`] as a mathematical value.
#[verifier::ext_equal]
pub struct ProfileView {
    pub name: Seq<char>,
    pub agent_id: Seq<char>,
    pub allow_terminal_access: bool,
    pub allow_fs_access: bool,
}

impl View for ProfileSummary {
    type V = ProfileView;

    open spec fn view(&self) -> ProfileView {
        ProfileView {
            name: self.name@,
            agent_id: self.agent_id@,
            allow_terminal_access: self.allow_terminal_access,
            allow_fs_access: self.allow_fs_access,
        }
    }
}

/// A list of profiles as mathematical values.
pub open spec fn profiles_view(v: Seq<ProfileSummary>) -> Seq<ProfileView> {
    v.map_values(|p: ProfileSummary| p@)
}

/// A profile entry, where it has a name.
pub open spec fn profile_entry(profile: Json) -> Option<ProfileView> {
    match str_field(profile, "name"@) {
        Some(name) => Some(
            ProfileView {
                name,
                agent_id: text_or(str_field(profile, "agent_id"@), Seq::empty()),
                allow_terminal_access: bool_field(profile, "allow_terminal_access"@),
                allow_fs_access: bool_field(profile, "allow_fs_access"@),
            },
        ),
        None => None,
    }
}

/// The profiles that an answer to `profiles/list` names.
pub open spec fn profiles_read(value: Json) -> Seq<ProfileView> {
    match items_field(value, "profiles"@) {
        Some(entries) => picked(entries, |profile: Json| profile_entry(profile)),
        None => Seq::empty(),
    }
}

/// The entries of the list that an answer holds under `key`, or none.
pub open spec fn entries_read(value: Json, key: Seq<char>) -> Seq<Json> {
    match items_field(value, key) {
        Some(entries) => entries,
        None => Seq::empty(),
    }
}

/// An empty literal is the empty text.
pub proof fn lemma_empty_literal()
    ensures
        ""@ == Seq::<char>::empty(),
{
    reveal_strlit("");
    assert(""@ =~= Seq::<char>::empty());
}

spec fn optional_mode(o: Option<SessionModeInfo>) -> Option<SessionModeView> {
    match o {
        Some(m) => Some(m@),
        None => None,
    }
}

fn parse_mode(mode: &JsonValue) -> (r: Option<SessionModeInfo>)
    ensures
        optional_mode(r) == mode_entry(mode@),
{
    proof {
        lemma_empty_literal();
    }
    match get_str(mode, "id") {
        Some(id) => Some(
            SessionModeInfo {
                id: id.to_owned(),
                name: owned_or(get_str(mode, "name"), ""),
                description: owned(get_str(mode, "description")),
            },
        ),
        None => None,
    }
}

/// Optional session modes as a mathematical value.
pub open spec fn optional_modes(o: Option<SessionModesEvent>) -> Option<SessionModesView> {
    match o {
        Some(m) => Some(m@),
        None => None,
    }
}

/// Reads a `modes` field: nothing where it is `null`, or does not name the
/// current mode, or does not list the available ones.
pub fn parse_session_modes(modes: &JsonValue) -> (r: Option<SessionModesEvent>)
    ensures
        optional_modes(r) == modes_read(modes@),
{
    let current: &str = match get_str(modes, "currentModeId") {
        Some(id) => id,
        None => {
            return None;
        },
    };
    let entries: &Vec<JsonValue> = match get_array(modes, "availableModes") {
        Some(entries) => entries,
        None => {
            return None;
        },
    };
    let ghost f = |mode: Json| mode_entry(mode);
    let mut available: Vec<SessionModeInfo> = Vec::new();
    let mut i: usize = 0;
    assert(modes_view(available@) =~= picked(json_seq(entries@).take(0), f));
    while i < entries.len()
        invariant
            i <= entries.len(),
            f == (|mode: Json| mode_entry(mode)),
            modes_view(available@) == picked(json_seq(entries@).take(i as int), f),
        decreases entries.len() - i,
    {
        proof {
            lemma_picked_take(json_seq(entries@), i as int, f);
        }
        let ghost before = modes_view(available@);
        if let Some(mode) = parse_mode(&entries[i]) {
            available.push(mode);
            assert(modes_view(available@) =~= before.push(mode@));
        }
        i += 1;
    }
    assert(json_seq(entries@).take(entries@.len() as int) =~= json_seq(entries@));
    Some(SessionModesEvent { current_mode_id: current.to_owned(), available })
}

spec fn optional_config_value(o: Option<ConfigOptionValue>) -> Option<ConfigValueView> {
    match o {
        Some(v) => Some(v@),
        None => None,
    }
}

fn parse_config_value(value: &JsonValue) -> (r: Option<ConfigOptionValue>)
    ensures
        optional_config_value(r) == config_value_entry(value@),
{
    proof {
        lemma_empty_literal();
    }
    match get_str(value, "value") {
        Some(v) => Some(
            ConfigOptionValue {
                value: v.to_owned(),
                name: owned_or(get_str(value, "name"), ""),
                description: owned(get_str(value, "description")),
            },
        ),
        None => None,
    }
}

fn parse_config_values(entry: &JsonValue) -> (r: Vec<ConfigOptionValue>)
    ensures
        config_values_view(r@) == config_values_read(entry@),
{
    let mut out: Vec<ConfigOptionValue> = Vec::new();
    let values: &Vec<JsonValue> = match get_array(entry, "options") {
        Some(values) => values,
        None => {
            assert(config_values_view(out@) =~= Seq::empty());
            return out;
        },
    };
    let ghost f = |value: Json| config_value_entry(value);
    let mut i: usize = 0;
    assert(config_values_view(out@) =~= picked(json_seq(values@).take(0), f));
    while i < values.len()
        invariant
            i <= values.len(),
            f == (|value: Json| config_value_entry(value)),
            config_values_view(out@) == picked(json_seq(values@).take(i as int), f),
        decreases values.len() - i,
    {
        proof {
            lemma_picked_take(json_seq(values@), i as int, f);
        }
        let ghost before = config_values_view(out@);
        if let Some(value) = parse_config_value(&values[i]) {
            out.push(value);
            assert(config_values_view(out@) =~= before.push(value@));
        }
        i += 1;
    }
    assert(json_seq(values@).take(values@.len() as int) =~= json_seq(values@));
    out
}

spec fn optional_config(o: Option<ConfigOptionInfo>) -> Option<ConfigOptionView> {
    match o {
        Some(c) => Some(c@),
        None => None,
    }
}

fn parse_config_entry(entry: &JsonValue) -> (r: Option<ConfigOptionInfo>)
    ensures
        optional_config(r) == config_entry(entry@),
{
    match get_str(entry, "id") {
        Some(id) => Some(
            ConfigOptionInfo {
                id: id.to_owned(),
                name: owned_or(get_str(entry, "name"), id),
                description: owned(get_str(entry, "description")),
                category: owned(get_str(entry, "category")),
                kind: owned_or(get_str(entry, "type"), "select"),
                current_value: owned(get_str(entry, "currentValue")),
                options: parse_config_values(entry),
            },
        ),
        None => None,
    }
}

/// Optional configuration options as a mathematical value.
pub open spec fn optional_configs(o: Option<Vec<ConfigOptionInfo>>) -> Option<
    Seq<ConfigOptionView>,
> {
    match o {
        Some(v) => Some(config_options_view(v@)),
        None => None,
    }
}

/// Reads a `configOptions` list: nothing where it is not a list; an entry
/// without an id is left out.
pub fn parse_config_options(list: &JsonValue) -> (r: Option<Vec<ConfigOptionInfo>>)
    ensures
        optional_configs(r) == config_read(list@),
{
    let entries: &Vec<JsonValue> = match list.as_array() {
        Some(entries) => entries,
        None => {
            return None;
        },
    };
    let ghost f = |entry: Json| config_entry(entry);
    let mut out: Vec<ConfigOptionInfo> = Vec::new();
    let mut i: usize = 0;
    assert(config_options_view(out@) =~= picked(json_seq(entries@).take(0), f));
    while i < entries.len()
        invariant
            i <= entries.len(),
            f == (|entry: Json| config_entry(entry)),
            config_options_view(out@) == picked(json_seq(entries@).take(i as int), f),
        decreases entries.len() - i,
    {
        proof {
            lemma_picked_take(json_seq(entries@), i as int, f);
        }
        let ghost before = config_options_view(out@);
        if let Some(option) = parse_config_entry(&entries[i]) {
            out.push(option);
            assert(config_options_view(out@) =~= before.push(option@));
        }
        i += 1;
    }
    assert(json_seq(entries@).take(entries@.len() as int) =~= json_seq(entries@));
    Some(out)
}

/// An optional event as a mathematical value.
pub open spec fn optional_event(o: Option<AgentEvent>) -> Option<AgentEventView> {
    match o {
        Some(e) => Some(e@),
        None => None,
    }
}

/// Reads a `session/update` notification that changes a session's usage, mode
/// or configuration; nothing where it is another.
pub fn parse_capability_update(update: &JsonValue) -> (r: Option<AgentEvent>)
    ensures
        optional_event(r) == capability_event(update@),
{
    let report: &JsonValue = match find_session_update(update) {
        Some(report) => report,
        None => {
            return None;
        },
    };
    let kind: &str = match get_str(report, "sessionUpdate") {
        Some(kind) => kind,
        None => {
            return None;
        },
    };
    if same(kind, "usage_update") {
        let used: i64 = match get_i64(report, "used") {
            Some(n) => n,
            None => 0,
        };
        let size: i64 = match get_i64(report, "size") {
            Some(n) => n,
            None => 0,
        };
        Some(AgentEvent::UsageUpdate { used, size })
    } else if same(kind, "current_mode_update") {
        match get_str(report, "currentModeId") {
            Some(id) => Some(AgentEvent::CurrentModeChanged(id.to_owned())),
            None => None,
        }
    } else if same(kind, "config_option_update") {
        match report.get("configOptions") {
            Some(list) => match parse_config_options(list) {
                Some(options) => Some(AgentEvent::ConfigOptions(options)),
                None => None,
            },
            None => None,
        }
    } else {
        None
    }
}

/// The events that notifications of a running session stand for, in order; one
/// that stands for none is passed over.
pub fn forward_updates(updates: &[JsonValue]) -> (r: Vec<AgentEvent>)
    ensures
        events_view(r@) == update_events(json_seq(updates@)),
{
    let ghost f = |update: Json| update_event(update);
    let mut out: Vec<AgentEvent> = Vec::new();
    let mut i: usize = 0;
    assert(events_view(out@) =~= picked(json_seq(updates@).take(0), f));
    while i < updates.len()
        invariant
            i <= updates.len(),
            f == (|update: Json| update_event(update)),
            events_view(out@) == picked(json_seq(updates@).take(i as int), f),
        decreases updates.len() - i,
    {
        proof {
            lemma_picked_take(json_seq(updates@), i as int, f);
        }
        let ghost before = events_view(out@);
        if let Some(message) = classify_raw_update(&updates[i]) {
            let event: AgentEvent = AgentEvent::Message(message);
            out.push(event);
            assert(events_view(out@) =~= before.push(event@));
        } else if let Some(event) = parse_capability_update(&updates[i]) {
            out.push(event);
            assert(events_view(out@) =~= before.push(event@));
        }
        i += 1;
    }
    assert(json_seq(updates@).take(updates@.len() as int) =~= json_seq(updates@));
    out
}

/// The events that an answer to opening a session advertises.
pub fn emit_capability_events(value: &JsonValue) -> (r: Vec<AgentEvent>)
    ensures
        events_view(r@) == advertised(value@),
{
    let mut out: Vec<AgentEvent> = Vec::new();
    if let Some(field_value) = value.get("modes") {
        if let Some(modes) = parse_session_modes(field_value) {
            out.push(AgentEvent::SessionModes(modes));
        }
    }
    assert(events_view(out@) =~= advertised_modes(value@));
    if let Some(list) = value.get("configOptions") {
        if let Some(options) = parse_config_options(list) {
            out.push(AgentEvent::ConfigOptions(options));
        }
    }
    assert(events_view(out@) =~= advertised(value@));
    out
}

fn get_true(value: &JsonValue, key: &str) -> (r: bool)
    ensures
        r == bool_field(value@, key@),
{
    match value.get(key) {
        Some(v) => match v.as_bool() {
            Some(b) => b,
            None => false,
        },
        None => false,
    }
}

fn get_low32(value: &JsonValue, key: &str) -> (r: Option<i32>)
    ensures
        r == low32(i64_field(value@, key@)),
{
    match get_i64(value, key) {
        Some(n) => Some(#[verifier::truncate] (n as i32)),
        None => None,
    }
}

/// Optional terminal output as a mathematical value.
pub open spec fn optional_terminal(o: Option<TerminalOutputEvent>) -> Option<TerminalOutputView> {
    match o {
        Some(t) => Some(t@),
        None => None,
    }
}

/// Reads an `acpx/terminal_output` notification; nothing where it is another.
pub fn parse_terminal_output(value: &JsonValue) -> (r: Option<TerminalOutputEvent>)
    ensures
        optional_terminal(r) == terminal_read(value@),
{
    match get_str(value, "method") {
        Some(method) => {
            if !same(method, "acpx/terminal_output") {
                return None;
            }
        },
        None => {
            return None;
        },
    }
    let params: &JsonValue = match value.get("params") {
        Some(params) => params,
        None => {
            return None;
        },
    };
    let terminal_id: &str = match get_str(params, "terminalId") {
        Some(id) => id,
        None => {
            return None;
        },
    };
    let output: &str = match get_str(params, "output") {
        Some(output) => output,
        None => {
            return None;
        },
    };
    let exit_status: Option<(Option<i32>, Option<i32>)> = match params.get("exitStatus") {
        Some(status) => {
            if status.is_null() {
                None
            } else {
                Some((get_low32(status, "exitCode"), get_low32(status, "signal")))
            }
        },
        None => None,
    };
    Some(
        TerminalOutputEvent {
            terminal_id: terminal_id.to_owned(),
            output: output.to_owned(),
            truncated: get_true(params, "truncated"),
            exit_status,
        },
    )
}

spec fn optional_profile(o: Option<ProfileSummary>) -> Option<ProfileView> {
    match o {
        Some(p) => Some(p@),
        None => None,
    }
}

fn parse_profile(profile: &JsonValue) -> (r: Option<ProfileSummary>)
    ensures
        optional_profile(r) == profile_entry(profile@),
{
    proof {
        lemma_empty_literal();
    }
    match get_str(profile, "name") {
        Some(name) => Some(
            ProfileSummary {
                name: name.to_owned(),
                agent_id: owned_or(get_str(profile, "agent_id"), ""),
                allow_terminal_access: get_true(profile, "allow_terminal_access"),
                allow_fs_access: get_true(profile, "allow_fs_access"),
            },
        ),
        None => None,
    }
}

/// Reads the answer to `profiles/list`; an entry without a name is left out.
pub fn parse_profiles(value: &JsonValue) -> (r: Vec<ProfileSummary>)
    ensures
        profiles_view(r@) == profiles_read(value@),
{
    let mut out: Vec<ProfileSummary> = Vec::new();
    let entries: &Vec<JsonValue> = match get_array(value, "profiles") {
        Some(entries) => entries,
        None => {
            assert(profiles_view(out@) =~= Seq::empty());
            return out;
        },
    };
    let ghost f = |profile: Json| profile_entry(profile);
    let mut i: usize = 0;
    assert(profiles_view(out@) =~= picked(json_seq(entries@).take(0), f));
    while i < entries.len()
        invariant
            i <= entries.len(),
            f == (|profile: Json| profile_entry(profile)),
            profiles_view(out@) == picked(json_seq(entries@).take(i as int), f),
        decreases entries.len() - i,
    {
        proof {
            lemma_picked_take(json_seq(entries@), i as int, f);
        }
        let ghost before = profiles_view(out@);
        if let Some(profile) = parse_profile(&entries[i]) {
            out.push(profile);
            assert(profiles_view(out@) =~= before.push(profile@));
        }
        i += 1;
    }
    assert(json_seq(entries@).take(entries@.len() as int) =~= json_seq(entries@));
    out
}

/// The entries of the list that an answer holds under `key`, or none.
pub fn list_entries(value: &JsonValue, key: &str) -> (r: Vec<JsonValue>)
    ensures
        json_seq(r@) == entries_read(value@, key@),
{
    let mut out: Vec<JsonValue> = Vec::new();
    let entries: &Vec<JsonValue> = match get_array(value, key) {
        Some(entries) => entries,
        None => {
            assert(json_seq(out@) =~= Seq::empty());
            return out;
        },
    };
    let mut i: usize = 0;
    while i < entries.len()
        invariant
            i <= entries.len(),
            out@.len() == i,
            forall|k: int| 0 <= k < i ==> (#[trigger] out@[k])@ == entries@[k]@,
        decreases entries.len() - i,
    {
        out.push(entries[i].clone());
        i += 1;
    }
    assert(json_seq(out@) =~= json_seq(entries@));
    out
}

} // verus!
