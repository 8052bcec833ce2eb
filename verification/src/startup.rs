//! What the panel starts with: the threads that were kept or that are seeded,
//! the project that is open, and what is selected.

pub mod laws;

use crate::keys::buffer_or;
use crate::external_snapshot::thread_list::{placeholder_id, placeholder_thread_id};
use crate::model::{
    bound, InitialState, PanelState, ProjectIdentity, ProjectView, ThreadRecord, ThreadSpec,
    ThreadState,
};
use crate::prefs::{chosen_name, non_default_sentinel};
use crate::text::{
    clone_optional, join, optional_text, parse_u64, same, text_from_bytes, texts, trim, trimmed,
    u64_read,
};
use vstd::prelude::*;
use vstd::utf8::{decode_utf8, valid_utf8};

verus! {

/// The provider of a thread for which none was asked.
pub const NO_PROVIDER_REQUESTED_FALLBACK: &'static str = "codex";

/// The handle of the panel that the host holds; there is one panel in a
/// process.
pub struct PanelHandle {
    _private: (),
}

/// What is done when a panel of some size is asked for.
#[derive(Debug, Clone, Copy, PartialEq, Eq, Structural)]
pub enum CreateStep {
    /// There is one of that size.
    Keep,
    /// There is one of another size: its view and its buffer, which has that
    /// many pixels, are given the new size.
    Resize { pixels: usize, compact: bool, narrow: bool },
    /// There is none.
    Build { pixels: usize, compact: bool, narrow: bool },
}

/// What is done when a panel of some size is asked for.
pub open spec fn created(existing: Option<(u32, u32)>, width: u32, height: u32) -> CreateStep {
    match existing {
        Some((w, h)) => if w == width && h == height {
            CreateStep::Keep
        } else {
            CreateStep::Resize {
                pixels: (width * height) as usize,
                compact: width < 320,
                narrow: width < 220,
            }
        },
        None => CreateStep::Build {
            pixels: (width * height) as usize,
            compact: width < 320,
            narrow: width < 220,
        },
    }
}

/// What is done when a panel of some size is asked for, where `existing` is the
/// size of the one that there is. Below 320 pixels of width the view is compact,
/// below 220 narrow.
pub fn panel_rust_create(existing: Option<(u32, u32)>, width: u32, height: u32) -> (r: CreateStep)
    requires
        width * height <= u32::MAX,
    ensures
        r == created(existing, width, height),
{
    let pixels: usize = (width * height) as usize;
    match existing {
        Some((w, h)) => if w == width && h == height {
            CreateStep::Keep
        } else {
            CreateStep::Resize { pixels, compact: width < 320, narrow: width < 220 }
        },
        None => CreateStep::Build { pixels, compact: width < 320, narrow: width < 220 },
    }
}

/// Whether a character is a hexadecimal digit in lower case.
pub open spec fn hex_digit(c: char) -> bool {
    '0' <= c <= '9' || 'a' <= c <= 'f'
}

/// Whether a text is a random identifier: five groups of hexadecimal digits
/// joined by hyphens, the third of which starts with the digit 4.
pub open spec fn random_name(s: Seq<char>) -> bool {
    &&& s.len() == 36
    &&& forall|i: int|
        0 <= i < 36 ==> if i == 8 || i == 13 || i == 18 || i == 23 {
            #[trigger] s[i] == '-'
        } else {
            hex_digit(s[i])
        }
    &&& s[14] == '4'
}

/// A fresh random identifier, from `uuid::Uuid::new_v4` and its `Display`; the
/// contract claims the form of the text, and nothing of the digits that are
/// random. The call panics where the system gives no randomness, which no
/// argument decides.
#[verifier::external_body]
fn fresh_name() -> (r: String)
    ensures
        random_name(r@),
{
    uuid::Uuid::new_v4().to_string()
}

/// The text that the host gave, where it gave one.
pub open spec fn text_given(bytes: Seq<u8>) -> Option<Seq<char>> {
    if bytes.len() > 0 && valid_utf8(bytes) {
        Some(decode_utf8(bytes))
    } else {
        None
    }
}

/// Whether a project is the one that the host named.
pub open spec fn identified(
    path: Seq<u8>,
    untitled: bool,
    identity: Option<ProjectIdentity>,
) -> bool {
    match identity {
        Some(identity) => match identity@ {
            ProjectView::Untitled(name) => untitled && random_name(name),
            ProjectView::Saved(saved) => !untitled && path.len() > 0 && valid_utf8(path) && saved
                == decode_utf8(path),
            ProjectView::NoProject => false,
        },
        None => !untitled && (path.len() == 0 || !valid_utf8(path)),
    }
}

/// The theme that the host asked for.
pub open spec fn theme_given(bytes: Seq<u8>) -> Seq<char> {
    if bytes.len() > 0 && valid_utf8(bytes) {
        decode_utf8(bytes)
    } else {
        "dark"@
    }
}

/// The word for a scope.
pub open spec fn scope_word(project: bool) -> Seq<char> {
    if project {
        "project"@
    } else {
        "global"@
    }
}

/// The project that the host has open when it asks for the panel: one without a
/// path gets a fresh name; a path is taken where it is UTF-8.
pub fn panel_rust_create_with_identity(path: &[u8], untitled: bool) -> (r: Option<ProjectIdentity>)
    ensures
        identified(path@, untitled, r),
{
    if untitled {
        return Some(ProjectIdentity::Untitled(fresh_name()));
    }
    match panel_rust_set_project_path(path) {
        Some(path) => Some(ProjectIdentity::Saved(path)),
        None => None,
    }
}

/// The project path that the host sends: none where the buffer is empty or not
/// UTF-8.
pub fn panel_rust_set_project_path(path: &[u8]) -> (r: Option<String>)
    ensures
        optional_text(r) == text_given(path@),
{
    if path.len() == 0 {
        None
    } else {
        text_from_bytes(path)
    }
}

/// The language that the host sends: none, and so no change, where the buffer is
/// empty or not UTF-8.
pub fn panel_rust_set_language(language: &[u8]) -> (r: Option<String>)
    ensures
        optional_text(r) == text_given(language@),
{
    panel_rust_set_project_path(language)
}

/// The theme that the host sends: dark where the buffer is empty or not UTF-8.
pub fn panel_rust_set_theme(theme: &[u8]) -> (r: String)
    ensures
        r@ == theme_given(theme@),
{
    buffer_or(theme, "dark")
}

/// The paths between which the host renamed a project; each empty where its
/// buffer is empty or not UTF-8.
pub fn panel_rust_rename_project_path(old: &[u8], new: &[u8]) -> (r: (String, String))
    ensures
        r.0@ == crate::keys::buffer_text(old@),
        r.1@ == crate::keys::buffer_text(new@),
{
    proof {
        reveal_strlit("");
        assert(""@ =~= Seq::<char>::empty());
    }
    (buffer_or(old, ""), buffer_or(new, ""))
}

/// The names of the threads with which the panel can be seeded for a
/// demonstration.
pub open spec fn demo_names() -> Seq<Seq<char>> {
    seq![
        "Fix timeline crash"@,
        "Add fade transition"@,
        "Refactor filters"@,
        "Export pipeline bug"@,
    ]
}

/// The names of the threads with which an empty panel is seeded. A single one,
/// unless a number of those for a demonstration was asked for, other than none;
/// what is no number asks for all of them.
pub open spec fn seeded(asked: Option<Seq<char>>) -> Seq<Seq<char>> {
    match asked {
        None => seq!["Chat"@],
        Some(value) => match u64_read(trimmed(value)) {
            Some(n) => if n == 0 {
                seq!["Chat"@]
            } else if n < 4 {
                demo_names().take(n as int)
            } else {
                demo_names()
            },
            None => demo_names(),
        },
    }
}

/// The names of the threads with which an empty panel is seeded.
pub fn seed_names(asked: Option<&str>) -> (r: Vec<String>)
    ensures
        texts(r@) == seeded(
            match asked {
                Some(value) => Some(value@),
                None => None,
            },
        ),
{
    let mut out: Vec<String> = Vec::new();
    let n: u64 = match asked {
        Some(value) => match parse_u64(trim(value)) {
            Some(n) => n,
            None => 4,
        },
        None => 0,
    };
    if n == 0 {
        out.push("Chat".to_owned());
        assert(texts(out@) =~= seq!["Chat"@]);
        return out;
    }
    out.push("Fix timeline crash".to_owned());
    if n > 1 {
        out.push("Add fade transition".to_owned());
    }
    if n > 2 {
        out.push("Refactor filters".to_owned());
    }
    if n > 3 {
        out.push("Export pipeline bug".to_owned());
    }
    assert(texts(out@) =~= demo_names().take(
        if n < 4 {
            n as int
        } else {
            4
        },
    ));
    assert(demo_names().take(4) =~= demo_names());
    out
}

/// Whether threads are those that a panel without any is seeded with: of one
/// provider, which is the configured agent where there is one, and then with the
/// profile of that agent.
pub open spec fn cold_specs(
    names: Seq<Seq<char>>,
    configured: Option<String>,
    specs: Seq<ThreadSpec>,
) -> bool {
    specs.len() == names.len() && forall|k: int|
        0 <= k < names.len() ==> {
            &&& (#[trigger] specs[k]).display_name@ == names[k]
            &&& specs[k].provider@ == match configured {
                Some(agent) => agent@,
                None => NO_PROVIDER_REQUESTED_FALLBACK@,
            }
            &&& specs[k].session_id is None
            &&& specs[k].profile_name == configured
            &&& specs[k].project_path is None
        }
}

/// The threads with which a panel without any is seeded.
pub fn cold_start_thread_specs(
    seed_names: &Vec<String>,
    configured_agent_id: Option<String>,
) -> (r: Vec<ThreadSpec>)
    ensures
        cold_specs(texts(seed_names@), configured_agent_id, r@),
{
    let mut out: Vec<ThreadSpec> = Vec::new();
    let mut i: usize = 0;
    while i < seed_names.len()
        invariant
            i <= seed_names@.len(),
            cold_specs(texts(seed_names@).take(i as int), configured_agent_id, out@),
        decreases seed_names@.len() - i,
    {
        let provider: String = match &configured_agent_id {
            Some(agent) => agent.clone(),
            None => NO_PROVIDER_REQUESTED_FALLBACK.to_owned(),
        };
        out.push(
            ThreadSpec {
                display_name: seed_names[i].clone(),
                provider,
                session_id: None,
                profile_name: clone_optional(&configured_agent_id),
                project_path: None,
            },
        );
        i += 1;
    }
    assert(texts(seed_names@).take(i as int) =~= texts(seed_names@));
    out
}

/// The thread that was kept in a record. A profile name that stands for no
/// choice is left out.
pub open spec fn restored(record: ThreadRecord) -> ThreadSpec {
    ThreadSpec {
        display_name: record.display_name,
        provider: record.provider,
        session_id: Some(record.session_id),
        profile_name: chosen_name(record.profile_name),
        project_path: record.project_path,
    }
}

/// A thread that belongs to a project unless it belongs to one already.
pub open spec fn placed(spec: ThreadSpec, saved: Option<Seq<char>>, out: ThreadSpec) -> bool {
    &&& out.display_name == spec.display_name
    &&& out.provider == spec.provider
    &&& out.session_id == spec.session_id
    &&& out.profile_name == spec.profile_name
    &&& optional_text(out.project_path) == match spec.project_path {
        Some(path) => Some(path@),
        None => saved,
    }
}

/// The path of the project that is open, where it was saved.
pub open spec fn open_path(identity: Option<ProjectIdentity>) -> Option<Seq<char>> {
    match identity {
        Some(identity) => match identity@ {
            ProjectView::Saved(path) => Some(path),
            _ => None,
        },
        None => None,
    }
}

fn restored_specs(records: &Vec<ThreadRecord>) -> (r: Vec<ThreadSpec>)
    ensures
        r@ == records@.map_values(|record: ThreadRecord| restored(record)),
{
    let mut out: Vec<ThreadSpec> = Vec::new();
    let mut i: usize = 0;
    while i < records.len()
        invariant
            i <= records@.len(),
            out@.len() == i,
            forall|k: int| 0 <= k < i ==> #[trigger] out@[k] == restored(records@[k]),
        decreases records@.len() - i,
    {
        let record: &ThreadRecord = &records[i];
        out.push(
            ThreadSpec {
                display_name: record.display_name.clone(),
                provider: record.provider.clone(),
                session_id: Some(record.session_id.clone()),
                profile_name: non_default_sentinel(clone_optional(&record.profile_name)),
                project_path: clone_optional(&record.project_path),
            },
        );
        i += 1;
    }
    assert(out@ =~= records@.map_values(|record: ThreadRecord| restored(record)));
    out
}

/// Whether threads are those that the panel starts with, before the open project
/// is taken into account.
pub open spec fn first_specs(
    records: Seq<ThreadRecord>,
    seeds: Seq<Seq<char>>,
    configured: Option<String>,
    specs: Seq<ThreadSpec>,
) -> bool {
    if records.len() == 0 {
        cold_specs(seeds, configured, specs)
    } else {
        specs == records.map_values(|record: ThreadRecord| restored(record))
    }
}

/// Whether threads are those that the panel starts with: the ones that were
/// kept, else the seeds, which belong to the open project where they have none.
pub open spec fn starting_specs(
    records: Seq<ThreadRecord>,
    seeds: Seq<Seq<char>>,
    configured: Option<String>,
    saved: Option<Seq<char>>,
    specs: Seq<ThreadSpec>,
) -> bool {
    exists|first: Seq<ThreadSpec>|
        {
            &&& #[trigger] first_specs(records, seeds, configured, first)
            &&& first.len() == specs.len()
            &&& forall|k: int| 0 <= k < first.len() ==> placed(first[k], saved, #[trigger] specs[k])
        }
}

/// The threads that the panel starts with.
pub fn initial_specs(
    records: &Vec<ThreadRecord>,
    seeds: &Vec<String>,
    configured_agent_id: Option<String>,
    identity: &Option<ProjectIdentity>,
) -> (r: Vec<ThreadSpec>)
    ensures
        starting_specs(records@, texts(seeds@), configured_agent_id, open_path(*identity), r@),
        r@.len() == if records@.len() == 0 {
            seeds@.len()
        } else {
            records@.len()
        },
{
    let mut specs: Vec<ThreadSpec> = if records.len() == 0 {
        cold_start_thread_specs(seeds, configured_agent_id)
    } else {
        restored_specs(records)
    };
    let ghost first = specs@;
    assert(first_specs(records@, texts(seeds@), configured_agent_id, first));
    let saved: Option<&str> = match identity {
        Some(identity) => identity.saved_path(),
        None => None,
    };
    if let Some(path) = saved {
        let mut i: usize = 0;
        while i < specs.len()
            invariant
                i <= specs@.len(),
                specs@.len() == first.len(),
                open_path(*identity) == Some(path@),
                forall|k: int|
                    0 <= k < i ==> placed(first[k], open_path(*identity), #[trigger] specs@[k]),
                forall|k: int| i <= k < first.len() ==> #[trigger] specs@[k] == first[k],
            decreases specs@.len() - i,
        {
            if specs[i].project_path.is_none() {
                specs[i].project_path = Some(path.to_owned());
            }
            i += 1;
        }
    }
    specs
}

fn permission_profiles(records: &Vec<ThreadRecord>, count: usize) -> (r: Vec<Option<String>>)
    ensures
        r@.len() == count,
        forall|k: int|
            0 <= k < count ==> #[trigger] r@[k] == if k < records@.len() {
                chosen_name(records@[k].permission_profile)
            } else {
                None
            },
{
    let mut out: Vec<Option<String>> = Vec::new();
    let mut i: usize = 0;
    while i < count
        invariant
            i <= count,
            out@.len() == i,
            forall|k: int|
                0 <= k < i ==> #[trigger] out@[k] == if k < records@.len() {
                    chosen_name(records@[k].permission_profile)
                } else {
                    None
                },
        decreases count - i,
    {
        let profile: Option<String> = if i < records.len() {
            non_default_sentinel(clone_optional(&records[i].permission_profile))
        } else {
            None
        };
        out.push(profile);
        i += 1;
    }
    out
}

/// The id of a thread that the panel starts with.
pub open spec fn starting_id(records: Seq<ThreadRecord>, k: int) -> Seq<char> {
    if k < records.len() {
        records[k].thread_id@
    } else {
        placeholder_id(k)
    }
}

fn thread_ids(records: &Vec<ThreadRecord>, count: usize) -> (r: Vec<String>)
    requires
        records@.len() <= count,
    ensures
        r@.len() == count,
        forall|k: int| 0 <= k < count ==> (#[trigger] r@[k])@ == starting_id(records@, k),
{
    let mut out: Vec<String> = Vec::new();
    let mut i: usize = 0;
    while i < count
        invariant
            i <= count,
            out@.len() == i,
            forall|k: int| 0 <= k < i ==> (#[trigger] out@[k])@ == starting_id(records@, k),
        decreases count - i,
    {
        let id: String = if i < records.len() {
            records[i].thread_id.clone()
        } else {
            placeholder_thread_id(i)
        };
        out.push(id);
        i += 1;
    }
    out
}

/// Whether `start` is what the panel starts with.
pub open spec fn started_with(
    records: Seq<ThreadRecord>,
    seeds: Seq<Seq<char>>,
    configured: Option<String>,
    identity: Option<ProjectIdentity>,
    selected: Option<String>,
    bridge: bool,
    warnings: Vec<String>,
    start: InitialState,
) -> bool {
    &&& starting_specs(records, seeds, configured, open_path(identity), start.threads@)
    &&& start.thread_ids@.len() == start.threads@.len()
    &&& forall|k: int|
        0 <= k < start.threads@.len() ==> (#[trigger] start.thread_ids@[k])@ == starting_id(
            records,
            k,
        )
    &&& start.selected_thread_id == selected
    &&& start.permission_profiles@.len() == start.threads@.len()
    &&& forall|k: int|
        0 <= k < start.threads@.len() ==> #[trigger] start.permission_profiles@[k] == if k
            < records.len() {
            chosen_name(records[k].permission_profile)
        } else {
            None
        }
    &&& start.thread_states@ == Seq::new(
        start.threads@.len(),
        |k: int|
            if bridge {
                ThreadState::Idle
            } else {
                ThreadState::Error
            },
    )
    &&& start.startup_warnings == warnings
}

/// What the panel starts with. Without a bridge to the gateway its threads are
/// in error.
pub fn initial_state(
    records: &Vec<ThreadRecord>,
    seeds: &Vec<String>,
    configured_agent_id: Option<String>,
    identity: &Option<ProjectIdentity>,
    selected_thread_id: Option<String>,
    bridge_available: bool,
    startup_warnings: Vec<String>,
) -> (r: InitialState)
    ensures
        started_with(
            records@,
            texts(seeds@),
            configured_agent_id,
            *identity,
            selected_thread_id,
            bridge_available,
            startup_warnings,
            r,
        ),
{
    let threads: Vec<ThreadSpec> = initial_specs(records, seeds, configured_agent_id, identity);
    let count: usize = threads.len();
    let mut thread_states: Vec<ThreadState> = Vec::new();
    let mut i: usize = 0;
    while i < count
        invariant
            i <= count,
            thread_states@.len() == i,
            forall|k: int|
                0 <= k < i ==> #[trigger] thread_states@[k] == if bridge_available {
                    ThreadState::Idle
                } else {
                    ThreadState::Error
                },
        decreases count - i,
    {
        thread_states.push(
            if bridge_available {
                ThreadState::Idle
            } else {
                ThreadState::Error
            },
        );
        i += 1;
    }
    assert(thread_states@ =~= Seq::new(
        threads@.len(),
        |k: int|
            if bridge_available {
                ThreadState::Idle
            } else {
                ThreadState::Error
            },
    ));
    InitialState {
        thread_ids: thread_ids(records, count),
        selected_thread_id,
        permission_profiles: permission_profiles(records, count),
        thread_states,
        threads,
        startup_warnings,
    }
}

/// What went wrong while the panel was made.
#[derive(Debug, Clone, PartialEq, Eq)]
pub enum StartupFailure {
    Persistence(String),
    ThreadRecords(String),
    Bridge(String),
}

/// What the user is told of it.
pub open spec fn startup_text(failure: StartupFailure) -> Seq<char> {
    match failure {
        StartupFailure::Persistence(error) => "panel settings persistence unavailable: "@ + error@,
        StartupFailure::ThreadRecords(error) => "failed to restore chat thread records: "@
            + error@,
        StartupFailure::Bridge(error) =>
            "agent bridge unavailable, chat panel is display-only: "@ + error@,
    }
}

/// What the user is told when something went wrong while the panel was made.
pub fn startup_warning(failure: &StartupFailure) -> (r: String)
    ensures
        r@ == startup_text(*failure),
{
    match failure {
        StartupFailure::Persistence(error) => join(
            "panel settings persistence unavailable: ",
            error.as_str(),
        ),
        StartupFailure::ThreadRecords(error) => join(
            "failed to restore chat thread records: ",
            error.as_str(),
        ),
        StartupFailure::Bridge(error) => join(
            "agent bridge unavailable, chat panel is display-only: ",
            error.as_str(),
        ),
    }
}

/// The first thread, from a position on, with a session under an id.
pub open spec fn bound_to(panel: PanelState, id: Seq<char>, from: int) -> Option<int>
    decreases panel.model.threads@.len() - from,
{
    if from < 0 || from >= panel.model.threads@.len() {
        None
    } else if bound(panel, from) is Some && bound(panel, from)->0.thread_id@ == id {
        Some(from)
    } else {
        bound_to(panel, id, from + 1)
    }
}

/// The first row, from a position on, that stands for a thread.
pub open spec fn row_of(visible: Seq<usize>, index: int, from: int) -> Option<int>
    decreases visible.len() - from,
{
    if from < 0 || from >= visible.len() {
        None
    } else if visible[from] == index {
        Some(from)
    } else {
        row_of(visible, index, from + 1)
    }
}

/// The row that is selected at the start: that of the thread that was selected
/// last, where it has a session and is in the list.
pub open spec fn restored_row(panel: PanelState, selected: Option<Seq<char>>) -> Option<int> {
    match selected {
        Some(id) => match bound_to(panel, id, 0) {
            Some(index) => row_of(panel.model.visible_indices@, index, 0),
            None => None,
        },
        None => None,
    }
}

/// The row that is selected at the start.
pub fn restored_selection(panel: &PanelState, selected: &Option<String>) -> (r: Option<usize>)
    ensures
        match restored_row(*panel, optional_text(*selected)) {
            Some(row) => r is Some && r->0 == row,
            None => r is None,
        },
{
    let id: &String = match selected {
        Some(id) => id,
        None => {
            return None;
        },
    };
    let mut i: usize = 0;
    while i < panel.model.threads.len()
        invariant
            i <= panel.model.threads@.len(),
            *selected == Some(*id),
            bound_to(*panel, id@, 0) == bound_to(*panel, id@, i as int),
        decreases panel.model.threads@.len() - i,
    {
        let found: bool = match panel.thread_binding(i) {
            Some(binding) => same(binding.thread_id.as_str(), id.as_str()),
            None => false,
        };
        if found {
            let mut row: usize = 0;
            while row < panel.model.visible_indices.len()
                invariant
                    row <= panel.model.visible_indices@.len(),
                    *selected == Some(*id),
                    bound_to(*panel, id@, 0) == Some(i as int),
                    row_of(panel.model.visible_indices@, i as int, 0) == row_of(
                        panel.model.visible_indices@,
                        i as int,
                        row as int,
                    ),
                decreases panel.model.visible_indices@.len() - row,
            {
                if panel.model.visible_indices[row] == i {
                    return Some(row);
                }
                row += 1;
            }
            return None;
        }
        i += 1;
    }
    None
}

/// The agent that new threads use, where the settings name one.
pub fn configured_agent(default_agent_id: Option<String>) -> (r: Option<String>)
    ensures
        r == chosen_name(default_agent_id),
{
    non_default_sentinel(default_agent_id)
}

/// The tier of settings that is shown at the start: the project's where a
/// project is open.
pub fn startup_scope(project: bool) -> (r: String)
    ensures
        r@ == scope_word(project),
{
    if project {
        "project".to_owned()
    } else {
        "global".to_owned()
    }
}

/// Seeded threads never differ in their provider, and have a profile exactly
/// where an agent is configured.
pub proof fn law_seeds_share_one_provider(
    names: Seq<Seq<char>>,
    configured: Option<String>,
    specs: Seq<ThreadSpec>,
    a: int,
    b: int,
)
    requires
        cold_specs(names, configured, specs),
        0 <= a < specs.len(),
        0 <= b < specs.len(),
    ensures
        specs[a].provider@ == specs[b].provider@,
        specs[a].profile_name is Some <==> configured is Some,
        specs[a].profile_name is Some ==> specs[a].profile_name->0@ == specs[a].provider@,
{
    assert(specs[a].display_name@ == names[a]);
    assert(specs[b].display_name@ == names[b]);
}

/// No thread starts with a profile name that stands for no choice.
pub proof fn law_no_sentinel_profile(record: ThreadRecord)
    ensures
        restored(record).profile_name is Some ==> restored(record).profile_name->0@
            != "default"@,
{
}

/// A panel without kept threads is never empty, whatever was asked for.
pub proof fn law_seeded_is_not_empty(asked: Option<Seq<char>>)
    ensures
        seeded(asked).len() > 0,
{
}

} // verus!
