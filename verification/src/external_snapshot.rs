//! What the panel reads of its surroundings for one frame: the bridge to the
//! gateway, the stores and the settings. Nothing here changes the panel, except
//! that durable ids of threads are taken over as soon as they are known.

pub mod frame;
pub mod laws;
pub mod preferences;
pub mod thread_list;
pub mod thread_view;

use crate::model::{bound, slot, BridgeThread, Model, PanelState, ThreadModel, ThreadRecord};
use crate::text::{clone_optional, optional_text, same};
use vstd::prelude::*;

verus! {

/// Whether something that was last done at `last` is to be done again, `period`
/// milliseconds having to pass in between; times are readings of one clock, in
/// milliseconds.
pub open spec fn due(last: Option<u64>, now: u64, period: u64) -> bool {
    match last {
        Some(at) => now - at >= period,
        None => true,
    }
}

fn take_turn(last: &mut Option<u64>, now: u64, period: u64) -> (r: bool)
    requires
        0 < period,
    ensures
        r == due(*old(last), now, period),
        *final(last) == if r {
            Some(now)
        } else {
            *old(last)
        },
{
    let r: bool = match *last {
        Some(at) => now >= at && now - at >= period,
        None => true,
    };
    if r {
        *last = Some(now);
    }
    r
}

/// Whether the directories of skills are to be read again: at most once in a
/// second.
pub fn skills_rescan_due(last: &mut Option<u64>, now: u64) -> (r: bool)
    ensures
        r == due(*old(last), now, 1000),
        *final(last) == if r {
            Some(now)
        } else {
            *old(last)
        },
{
    take_turn(last, now, 1000)
}

/// Whether the settings are to be read again: at most once in a second.
pub fn prefs_rescan_due(last: &mut Option<u64>, now: u64) -> (r: bool)
    ensures
        r == due(*old(last), now, 1000),
        *final(last) == if r {
            Some(now)
        } else {
            *old(last)
        },
{
    take_turn(last, now, 1000)
}

/// Whether the host is to be asked again for the projects that it has open: at
/// most once in three seconds.
pub fn daemon_projects_refresh_due(last: &mut Option<u64>, now: u64) -> (r: bool)
    ensures
        r == due(*old(last), now, 3000),
        *final(last) == if r {
            Some(now)
        } else {
            *old(last)
        },
{
    take_turn(last, now, 3000)
}

/// After a turn was taken, none is due before the period has passed, and one is
/// due once it has.
pub proof fn law_turns_are_a_period_apart(last: Option<u64>, now: u64, later: u64, period: u64)
    requires
        due(last, now, period),
    ensures
        due(Some(now), later, period) <==> later >= now + period,
{
}

/// Whether the row of a thread shows that its session is being opened: it is
/// neither closed nor in error nor waiting for its first prompt, and has no
/// session yet.
pub fn shows_starting_thread_loading(
    closed: bool,
    status: &str,
    has_binding: bool,
    is_deferred: bool,
) -> (r: bool)
    ensures
        r == starting(closed, status@, has_binding, is_deferred),
{
    !closed && !same(status, "error") && !has_binding && !is_deferred
}

/// Whether a thread's session is being opened.
pub open spec fn starting(
    closed: bool,
    status: Seq<char>,
    has_binding: bool,
    is_deferred: bool,
) -> bool {
    !closed && status != "error"@ && !has_binding && !is_deferred
}

/// The durable id of a thread and its session, after those of the bridge were
/// taken over. The id is known before there is a session, and is taken over
/// without one.
pub open spec fn hydrated(
    thread: ThreadModel,
    slot: Option<BridgeThread>,
) -> (Seq<char>, Option<Seq<char>>) {
    match slot {
        Some(slot) => match slot.thread_id {
            Some(id) => (
                id@,
                match slot.binding {
                    Some(binding) => Some(binding.session_id@),
                    None => optional_text(thread.session_id),
                },
            ),
            None => (thread.thread_id@, optional_text(thread.session_id)),
        },
        None => (thread.thread_id@, optional_text(thread.session_id)),
    }
}

/// The durable id and the session of a thread.
pub open spec fn identity(thread: ThreadModel) -> (Seq<char>, Option<Seq<char>>) {
    (thread.thread_id@, optional_text(thread.session_id))
}

/// Whether two threads differ at most in their durable id and session.
pub open spec fn same_but_identity(a: ThreadModel, b: ThreadModel) -> bool {
    b == (ThreadModel { thread_id: b.thread_id, session_id: b.session_id, ..a })
}

/// A thread of a bridge.
pub open spec fn slot_of(bridge: Seq<BridgeThread>, index: int) -> Option<BridgeThread> {
    if 0 <= index < bridge.len() {
        Some(bridge[index])
    } else {
        None
    }
}

fn hydrate_thread(thread: &mut ThreadModel, slot: &BridgeThread) -> (r: bool)
    ensures
        identity(*final(thread)) == hydrated(*old(thread), Some(*slot)),
        same_but_identity(*old(thread), *final(thread)),
        r == (identity(*final(thread)) != identity(*old(thread))),
{
    let mut changed: bool = false;
    if let Some(id) = &slot.thread_id {
        if !same(thread.thread_id.as_str(), id.as_str()) {
            thread.thread_id = id.clone();
            changed = true;
        }
        if let Some(binding) = &slot.binding {
            let known: bool = match &thread.session_id {
                Some(session) => same(session.as_str(), binding.session_id.as_str()),
                None => false,
            };
            if !known {
                thread.session_id = Some(binding.session_id.clone());
                changed = true;
            }
        }
    }
    changed
}

/// Takes over the durable ids and the sessions that the bridge has for the
/// threads; says whether anything changed.
pub fn hydrate_thread_ids_from_bridge(model: &mut Model, bridge: &Vec<BridgeThread>) -> (r: bool)
    ensures
        final(model).threads@.len() == old(model).threads@.len(),
        forall|i: int|
            0 <= i < old(model).threads@.len() ==> identity(#[trigger] final(model).threads@[i])
                == hydrated(old(model).threads@[i], slot_of(bridge@, i)) && same_but_identity(
                old(model).threads@[i],
                final(model).threads@[i],
            ),
        r <==> exists|i: int|
            0 <= i < old(model).threads@.len() && hydrated(
                #[trigger] old(model).threads@[i],
                slot_of(bridge@, i),
            ) != identity(old(model).threads@[i]),
        *final(model) == (Model { threads: final(model).threads, ..*old(model) }),
{
    let mut changed: bool = false;
    let mut i: usize = 0;
    let ghost before = model.threads@;
    while i < model.threads.len() && i < bridge.len()
        invariant
            i <= bridge@.len(),
            i <= model.threads@.len(),
            before == old(model).threads@,
            model.threads@.len() == before.len(),
            *model == (Model { threads: model.threads, ..*old(model) }),
            forall|k: int|
                0 <= k < i ==> identity(#[trigger] model.threads@[k]) == hydrated(
                    before[k],
                    slot_of(bridge@, k),
                ) && same_but_identity(before[k], model.threads@[k]),
            forall|k: int| i <= k < before.len() ==> #[trigger] model.threads@[k] == before[k],
            changed <==> exists|k: int|
                0 <= k < i && hydrated(#[trigger] before[k], slot_of(bridge@, k)) != identity(
                    before[k],
                ),
        decreases before.len() - i,
    {
        let ghost held = changed;
        let now: bool = hydrate_thread(&mut model.threads[i], &bridge[i]);
        if now {
            assert(hydrated(before[i as int], slot_of(bridge@, i as int)) != identity(
                before[i as int],
            ));
        }
        changed = changed || now;
        i += 1;
    }
    assert forall|k: int| i <= k < before.len() implies hydrated(
        #[trigger] before[k],
        slot_of(bridge@, k),
    ) == identity(before[k]) by {}
    changed
}

/// Taking over what the bridge has a second time changes nothing.
pub proof fn law_hydration_settles(
    thread: ThreadModel,
    after: ThreadModel,
    slot: Option<BridgeThread>,
)
    requires
        identity(after) == hydrated(thread, slot),
    ensures
        hydrated(after, slot) == identity(after),
{
}

/// A thread whose session could not be opened is known by its durable id all
/// the same: an event under that id finds it.
pub proof fn law_failed_thread_is_found(
    threads: Seq<ThreadModel>,
    bridge: Seq<BridgeThread>,
    index: int,
)
    requires
        0 <= index < threads.len(),
        0 <= index < bridge.len(),
        bridge[index].thread_id is Some,
        bridge[index].binding is None,
        forall|i: int|
            0 <= i < threads.len() ==> identity(#[trigger] threads[i]) == hydrated(
                threads[i],
                slot_of(bridge, i),
            ),
    ensures
        crate::model::thread_from(threads, bridge[index].thread_id->0@, 0) is Some,
{
    assert(threads[index].thread_id@ == bridge[index].thread_id->0@);
    lemma_thread_found(threads, bridge[index].thread_id->0@, 0, index);
}

proof fn lemma_thread_found(threads: Seq<ThreadModel>, id: Seq<char>, from: int, at: int)
    requires
        0 <= from <= at < threads.len(),
        threads[at].thread_id@ == id,
    ensures
        crate::model::thread_from(threads, id, from) is Some,
    decreases at - from,
{
    if from < at {
        lemma_thread_found(threads, id, from + 1, at);
    }
}

/// What is kept of a thread: nothing without a session or without a provider.
pub open spec fn record_of(panel: PanelState, index: int) -> Option<ThreadRecord> {
    if !(0 <= index < panel.model.threads@.len()) {
        None
    } else {
        match slot(panel, index) {
            Some(slot) => match (slot.binding, slot.provider) {
                (Some(binding), Some(provider)) => Some(
                    ThreadRecord {
                        thread_id: binding.thread_id,
                        display_name: panel.model.threads@[index].display_name,
                        provider,
                        session_id: binding.session_id,
                        profile_name: panel.model.threads@[index].profile_name,
                        permission_profile: panel.model.threads@[index].permission_profile,
                        background_session: None,
                        project_path: slot.project_path,
                    },
                ),
                _ => None,
            },
            None => None,
        }
    }
}

/// What is kept of a thread, with the project that its session was opened for.
pub fn collect_thread_record(panel: &PanelState, index: usize) -> (r: Option<ThreadRecord>)
    ensures
        r == record_of(*panel, index as int),
{
    if index >= panel.model.threads.len() {
        return None;
    }
    let thread: &ThreadModel = &panel.model.threads[index];
    match panel.bridge_thread(index) {
        Some(slot) => match (&slot.binding, &slot.provider) {
            (Some(binding), Some(provider)) => Some(
                ThreadRecord {
                    thread_id: binding.thread_id.clone(),
                    display_name: thread.display_name.clone(),
                    provider: provider.clone(),
                    session_id: binding.session_id.clone(),
                    profile_name: clone_optional(&thread.profile_name),
                    permission_profile: clone_optional(&thread.permission_profile),
                    background_session: None,
                    project_path: clone_optional(&slot.project_path),
                },
            ),
            _ => None,
        },
        None => None,
    }
}

/// Whether an id is one of a list.
pub open spec fn traced(ids: Seq<String>, id: Seq<char>) -> bool {
    exists|k: int| 0 <= k < ids.len() && (#[trigger] ids[k])@ == id
}

fn is_traced(ids: &Vec<String>, id: &str) -> (r: bool)
    ensures
        r == traced(ids@, id@),
{
    let mut i: usize = 0;
    while i < ids.len()
        invariant
            i <= ids@.len(),
            forall|k: int| 0 <= k < i ==> (#[trigger] ids@[k])@ != id@,
        decreases ids@.len() - i,
    {
        if same(ids[i].as_str(), id) {
            return true;
        }
        i += 1;
    }
    false
}

/// What is still to be kept of a thread: its record, unless it was kept before.
pub open spec fn new_record(panel: PanelState, index: int) -> Option<ThreadRecord> {
    match bound(panel, index) {
        Some(binding) => if traced(panel.model.traced_attachment_threads@, binding.thread_id@) {
            None
        } else {
            record_of(panel, index)
        },
        None => None,
    }
}

/// The records of the threads before `index` that are still to be kept.
pub open spec fn new_records(panel: PanelState, index: int) -> Seq<ThreadRecord>
    decreases index,
{
    if index <= 0 {
        Seq::empty()
    } else {
        match new_record(panel, index - 1) {
            Some(record) => new_records(panel, index - 1).push(record),
            None => new_records(panel, index - 1),
        }
    }
}

/// The records of the threads that have a session and were not kept before, in
/// the order of the threads.
pub fn collect_thread_record_snapshots(panel: &PanelState) -> (r: Vec<ThreadRecord>)
    ensures
        r@ == new_records(*panel, panel.model.threads@.len() as int),
{
    let mut out: Vec<ThreadRecord> = Vec::new();
    let mut i: usize = 0;
    while i < panel.model.threads.len()
        invariant
            i <= panel.model.threads@.len(),
            out@ == new_records(*panel, i as int),
        decreases panel.model.threads@.len() - i,
    {
        let ghost before = out@;
        if let Some(binding) = panel.thread_binding(i) {
            if !is_traced(&panel.model.traced_attachment_threads, binding.thread_id.as_str()) {
                if let Some(record) = collect_thread_record(panel, i) {
                    out.push(record);
                }
            }
        }
        assert(out@ == new_records(*panel, i + 1));
        i += 1;
    }
    out
}

} // verus!
