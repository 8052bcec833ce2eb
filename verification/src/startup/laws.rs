//! What the panel starts with, said of its threads.

use crate::model::{
    InitialState, PanelState, ProjectIdentity, ThreadRecord, ThreadSpec, ThreadState,
};
use crate::startup::{
    bound_to, created, first_specs, identified, placed, random_name, restored_row, row_of,
    scope_word, seeded, started_with, startup_text, text_given, theme_given, CreateStep,
    StartupFailure,
};
use crate::text::{decimal, trimmed, u64_read};
use vstd::prelude::*;
use vstd::utf8::{encode_utf8, encode_utf8_decode_utf8, encode_utf8_valid_utf8};

verus! {

/// The panel starts with one thread for each that was kept, in order: under its
/// id, with its name, its provider and its session. A thread that belongs to no
/// project belongs to the one that is open.
pub proof fn law_kept_threads_come_back(
    records: Seq<ThreadRecord>,
    seeds: Seq<Seq<char>>,
    configured: Option<String>,
    identity: Option<ProjectIdentity>,
    selected: Option<String>,
    bridge: bool,
    warnings: Vec<String>,
    start: InitialState,
    k: int,
)
    requires
        started_with(records, seeds, configured, identity, selected, bridge, warnings, start),
        0 <= k < records.len(),
    ensures
        start.threads@.len() == records.len(),
        ({
            let spec = start.threads@[k];
            let record = records[k];
            &&& start.thread_ids@[k]@ == record.thread_id@
            &&& spec.display_name@ == record.display_name@
            &&& spec.provider@ == record.provider@
            &&& spec.session_id == Some(record.session_id)
            &&& record.profile_name matches Some(p) ==> (p@ == "default"@ ==> spec.profile_name
                is None) && (p@ != "default"@ ==> spec.profile_name == Some(p))
            &&& record.profile_name is None ==> spec.profile_name is None
            &&& record.project_path matches Some(path) ==> (spec.project_path matches Some(of)
                && of@ == path@)
            &&& record.project_path is None ==> {
                &&& identity matches Some(ProjectIdentity::Saved(path)) ==> (
                spec.project_path matches Some(of) && of@ == path@)
                &&& !(identity is Some && identity->0 is Saved) ==> spec.project_path is None
            }
            &&& record.permission_profile matches Some(p) ==> p@ != "default"@
                ==> start.permission_profiles@[k] == Some(p)
            &&& record.permission_profile is None ==> start.permission_profiles@[k] is None
        }),
{
    let saved = crate::startup::open_path(identity);
    let first = choose|first: Seq<ThreadSpec>|
        {
            &&& #[trigger] first_specs(records, seeds, configured, first)
            &&& first.len() == start.threads@.len()
            &&& forall|k: int|
                0 <= k < first.len() ==> placed(first[k], saved, #[trigger] start.threads@[k])
        };
    assert(first_specs(records, seeds, configured, first));
    assert(placed(first[k], saved, start.threads@[k]));
    assert(first[k] == crate::startup::restored(records[k]));
    assert(start.thread_ids@[k]@ == crate::startup::starting_id(records, k));
    assert(start.permission_profiles@[k] == crate::prefs::chosen_name(
        records[k].permission_profile,
    ));
}

/// Without kept threads the panel starts with one for each seed, by its name,
/// with no session, of the agent that is configured or else of `codex`.
pub proof fn law_seeds_become_threads(
    seeds: Seq<Seq<char>>,
    configured: Option<String>,
    identity: Option<ProjectIdentity>,
    selected: Option<String>,
    bridge: bool,
    warnings: Vec<String>,
    start: InitialState,
    k: int,
)
    requires
        started_with(
            Seq::empty(),
            seeds,
            configured,
            identity,
            selected,
            bridge,
            warnings,
            start,
        ),
        0 <= k < seeds.len(),
    ensures
        start.threads@.len() == seeds.len(),
        ({
            let spec = start.threads@[k];
            &&& spec.display_name@ == seeds[k]
            &&& spec.session_id is None
            &&& spec.profile_name == configured
            &&& configured matches Some(agent) ==> spec.provider@ == agent@
            &&& configured is None ==> spec.provider@ == "codex"@
            &&& identity matches Some(ProjectIdentity::Saved(path)) ==> (
            spec.project_path matches Some(of) && of@ == path@)
            &&& !(identity is Some && identity->0 is Saved) ==> spec.project_path is None
            &&& start.thread_ids@[k]@ == "thread:"@ + decimal(k as nat)
            &&& start.permission_profiles@[k] is None
        }),
{
    let none = Seq::<ThreadRecord>::empty();
    let saved = crate::startup::open_path(identity);
    let first = choose|first: Seq<ThreadSpec>|
        {
            &&& #[trigger] first_specs(none, seeds, configured, first)
            &&& first.len() == start.threads@.len()
            &&& forall|k: int|
                0 <= k < first.len() ==> placed(first[k], saved, #[trigger] start.threads@[k])
        };
    assert(first_specs(none, seeds, configured, first));
    assert(first[k].display_name@ == seeds[k]);
    assert(placed(first[k], saved, start.threads@[k]));
    assert(start.thread_ids@[k]@ == crate::startup::starting_id(none, k));
    assert(start.permission_profiles@[k] is None);
}

/// The threads are at rest where the bridge could be made, and in error where it
/// could not; the selection and the warnings are as they were given.
pub proof fn law_threads_start_at_rest(
    records: Seq<ThreadRecord>,
    seeds: Seq<Seq<char>>,
    configured: Option<String>,
    identity: Option<ProjectIdentity>,
    selected: Option<String>,
    bridge: bool,
    warnings: Vec<String>,
    start: InitialState,
    k: int,
)
    requires
        started_with(records, seeds, configured, identity, selected, bridge, warnings, start),
        0 <= k < start.threads@.len(),
    ensures
        start.thread_states@.len() == start.threads@.len(),
        bridge ==> start.thread_states@[k] == ThreadState::Idle,
        !bridge ==> start.thread_states@[k] == ThreadState::Error,
        start.selected_thread_id == selected,
        start.startup_warnings == warnings,
{
}

/// A panel is seeded with a single thread, or with as many of the four for a
/// demonstration as were asked for.
pub proof fn law_seeds_are_as_many_as_asked(asked: Option<Seq<char>>)
    ensures
        asked is None ==> seeded(asked) == seq!["Chat"@],
        asked matches Some(value) ==> {
            &&& u64_read(trimmed(value)) == Some(0nat) ==> seeded(asked) == seq!["Chat"@]
            &&& u64_read(trimmed(value)) matches Some(n) ==> 0 < n <= 4 ==> seeded(asked).len() == n
            &&& u64_read(trimmed(value)) matches Some(n) ==> n > 4 ==> seeded(asked).len() == 4
            &&& u64_read(trimmed(value)) is None ==> seeded(asked).len() == 4
            &&& u64_read(trimmed(value)) != Some(0nat) ==> seeded(asked)[0]
                == "Fix timeline crash"@
        },
{
}

proof fn lemma_row(visible: Seq<usize>, index: int, from: int)
    requires
        0 <= from <= visible.len(),
    ensures
        row_of(visible, index, from) matches Some(row) ==> from <= row < visible.len()
            && visible[row] == index,
        row_of(visible, index, from) is None ==> forall|k: int|
            from <= k < visible.len() ==> #[trigger] visible[k] != index,
    decreases visible.len() - from,
{
    if from < visible.len() {
        lemma_row(visible, index, from + 1);
    }
}

proof fn lemma_bound_to(panel: PanelState, id: Seq<char>, from: int)
    requires
        0 <= from,
    ensures
        bound_to(panel, id, from) matches Some(at) ==> from <= at < panel.model.threads@.len()
            && has_session_under(panel, at, id),
        bound_to(panel, id, from) is None ==> forall|k: int|
            from <= k < panel.model.threads@.len() ==> !#[trigger] has_session_under(panel, k, id),
    decreases panel.model.threads@.len() - from,
{
    if from < panel.model.threads@.len() {
        lemma_bound_to(panel, id, from + 1);
    }
}

/// Whether a thread of the bridge has a session under an id.
pub open spec fn has_session_under(panel: PanelState, at: int, id: Seq<char>) -> bool {
    panel.bridge matches Some(threads) && 0 <= at < threads@.len() && (
    threads@[at].binding matches Some(binding) && binding.thread_id@ == id)
}

/// The row that is selected at the start stands for a thread whose session goes
/// by the id that was selected last; nothing is selected where nothing was, or
/// where no thread has such a session.
pub proof fn law_selection_comes_back(panel: PanelState, selected: Option<Seq<char>>)
    ensures
        restored_row(panel, selected) matches Some(row) ==> selected is Some && 0 <= row
            < panel.model.visible_indices@.len() && has_session_under(
            panel,
            panel.model.visible_indices@[row] as int,
            selected->0,
        ),
        selected is None ==> restored_row(panel, selected) is None,
        selected matches Some(id) ==> (forall|k: int|
            0 <= k < panel.model.threads@.len() ==> !#[trigger] has_session_under(panel, k, id))
            ==> restored_row(panel, selected) is None,
{
    if let Some(id) = selected {
        lemma_bound_to(panel, id, 0);
        if let Some(at) = bound_to(panel, id, 0) {
            lemma_row(panel.model.visible_indices@, at, 0);
        }
    }
}

/// A panel of the size that there is stays; one of another size gets the new one;
/// and where there is none, one is made. There are as many pixels as the size
/// says, and the view is narrow below 220 of them and compact below 320.
pub proof fn law_panel_has_the_size_asked_for(
    existing: Option<(u32, u32)>,
    width: u32,
    height: u32,
)
    requires
        width * height <= u32::MAX,
    ensures
        created(existing, width, height) is Keep <==> existing == Some((width, height)),
        created(existing, width, height) is Build <==> existing is None,
        created(existing, width, height) matches CreateStep::Resize { pixels, compact, narrow }
            ==> pixels == width * height && (compact <==> width < 320) && (narrow <==> width < 220),
        created(existing, width, height) matches CreateStep::Build { pixels, compact, narrow }
            ==> pixels == width * height && (compact <==> width < 320) && (narrow <==> width < 220),
{
}

/// What the user is told of a failure at the start ends with its reason.
pub proof fn law_startup_failures_give_their_reason(error: String)
    ensures
        error@.is_suffix_of(startup_text(StartupFailure::Persistence(error))),
        error@.is_suffix_of(startup_text(StartupFailure::ThreadRecords(error))),
        error@.is_suffix_of(startup_text(StartupFailure::Bridge(error))),
{
    lemma_ends("panel settings persistence unavailable: "@, error@);
    lemma_ends("failed to restore chat thread records: "@, error@);
    lemma_ends("agent bridge unavailable, chat panel is display-only: "@, error@);
}

proof fn lemma_ends(head: Seq<char>, error: Seq<char>)
    ensures
        error.is_suffix_of(head + error),
{
    let s = head + error;
    assert(s.skip(s.len() - error.len()) =~= error);
}

/// A text that the host gives is read as it was written; an empty one is none.
pub proof fn law_host_texts_are_read(text: Seq<char>)
    ensures
        encode_utf8(text).len() > 0 ==> text_given(encode_utf8(text)) == Some(text) && theme_given(
            encode_utf8(text),
        ) == text,
        text_given(Seq::empty()) is None,
        theme_given(Seq::empty()) == "dark"@,
{
    encode_utf8_valid_utf8(text);
    encode_utf8_decode_utf8(text);
}

/// A project without a title gets a random name whatever path is given; any other
/// is the one at its path, and without a path there is none.
pub proof fn law_project_is_identified(
    path: Seq<char>,
    untitled: bool,
    identity: Option<ProjectIdentity>,
    nowhere: Option<ProjectIdentity>,
)
    requires
        identified(encode_utf8(path), untitled, identity),
        identified(Seq::empty(), untitled, nowhere),
        encode_utf8(path).len() > 0,
    ensures
        untitled ==> (identity matches Some(ProjectIdentity::Untitled(name)) && name@.len() == 36
            && name@[14] == '4') && (nowhere matches Some(ProjectIdentity::Untitled(_))),
        !untitled ==> (identity matches Some(ProjectIdentity::Saved(at)) && at@ == path) && nowhere
            is None,
{
    encode_utf8_valid_utf8(path);
    encode_utf8_decode_utf8(path);
}

/// Each scope goes by its own word.
pub proof fn law_scopes_have_their_words(project: bool)
    ensures
        project ==> scope_word(project) == "project"@,
        !project ==> scope_word(project) == "global"@,
{
}

/// What the user is told when the panel starts with less than it should says what
/// is missing.
pub proof fn law_startup_failures_say_what_is_missing(error: String)
    ensures
        "panel settings persistence unavailable: "@.is_prefix_of(
            startup_text(StartupFailure::Persistence(error)),
        ),
        "failed to restore chat thread records: "@.is_prefix_of(
            startup_text(StartupFailure::ThreadRecords(error)),
        ),
        "agent bridge unavailable, chat panel is display-only: "@.is_prefix_of(
            startup_text(StartupFailure::Bridge(error)),
        ),
{
    lemma_starts("panel settings persistence unavailable: "@, error@);
    lemma_starts("failed to restore chat thread records: "@, error@);
    lemma_starts("agent bridge unavailable, chat panel is display-only: "@, error@);
}

proof fn lemma_starts(head: Seq<char>, error: Seq<char>)
    ensures
        head.is_prefix_of(head + error),
{
    assert((head + error).take(head.len() as int) =~= head);
}

/// The name of a project without a title is five groups of digits, parted by
/// hyphens.
pub proof fn law_random_names_have_five_groups(name: Seq<char>, i: int)
    requires
        random_name(name),
        0 <= i < 36,
    ensures
        name.len() == 36,
        name[8] == '-' && name[13] == '-' && name[18] == '-' && name[23] == '-',
        i != 8 && i != 13 && i != 18 && i != 23 ==> '0' <= name[i] <= '9' || 'a' <= name[i] <= 'f',
{
    assert(name[8] == '-' && name[13] == '-' && name[18] == '-' && name[23] == '-');
    assert(i == 8 || i == 13 || i == 18 || i == 23 || crate::startup::hex_digit(name[i]));
}

/// Every thread that the panel starts with has an id and a setting for what it may
/// do, those that were kept their own.
pub proof fn law_threads_start_with_their_ids(
    records: Seq<ThreadRecord>,
    seeds: Seq<Seq<char>>,
    configured: Option<String>,
    identity: Option<ProjectIdentity>,
    selected: Option<String>,
    bridge: bool,
    warnings: Vec<String>,
    start: InitialState,
    k: int,
)
    requires
        started_with(records, seeds, configured, identity, selected, bridge, warnings, start),
        0 <= k < start.threads@.len(),
    ensures
        start.thread_ids@.len() == start.threads@.len(),
        start.permission_profiles@.len() == start.threads@.len(),
        k < records.len() ==> start.thread_ids@[k]@ == records[k].thread_id@,
        k >= records.len() ==> start.permission_profiles@[k] is None,
{
    assert(start.thread_ids@[k]@ == crate::startup::starting_id(records, k));
    assert(k >= records.len() ==> start.permission_profiles@[k] is None);
}

} // verus!
