//! The thread list of one frame.
//!
//! It comes about in two steps. [`thread_list_columns`] says of every thread
//! what the list is built from. The rows that are in the list, by the search
//! and the project that is open, are then completed by
//! [`collect_thread_list_snapshot`] with what the bridge knows of their
//! threads.

use crate::external_snapshot::{shows_starting_thread_loading, starting};
use crate::model::{
    bound, slot, PanelState, ThreadItem, ThreadModel, ThreadState, VisibleThreadItem,
};
use crate::paths::{file_name, named_by};
use crate::text::{
    clone_optional, decimal, decimal_text, empty_text, join, optional_text, or_empty, text_or,
};
use vstd::prelude::*;

verus! {

/// What the stores and the transcript say of a thread: how its last message is
/// described, whether its session stays open in the background, as far as that
/// is known, and the model that it uses.
#[derive(Debug, Clone, PartialEq)]
pub struct ThreadFacts {
    pub description: String,
    pub background: Option<bool>,
    pub model_name: String,
}

/// What the thread list is built from, each a list with one entry for every
/// thread.
#[derive(Debug, Clone, PartialEq)]
pub struct ThreadListColumns {
    pub names: Vec<String>,
    pub states: Vec<ThreadState>,
    pub thread_ids: Vec<String>,
    pub descriptions: Vec<String>,
    pub background_sessions: Vec<bool>,
    pub closed: Vec<bool>,
    pub archived: Vec<bool>,
    pub unread: Vec<bool>,
    pub providers: Vec<String>,
    pub thread_models: Vec<String>,
    pub project_paths: Vec<String>,
}

/// The name that a thread goes by while it has no durable id.
pub open spec fn placeholder_id(index: int) -> Seq<char> {
    "thread:"@ + decimal(index as nat)
}

/// The id of a thread: that of its session, else its own, else a placeholder.
pub open spec fn listed_id(panel: PanelState, index: int) -> Seq<char> {
    match bound(panel, index) {
        Some(binding) => binding.thread_id@,
        None => if panel.model.threads@[index].thread_id@.len() == 0 {
            placeholder_id(index)
        } else {
            panel.model.threads@[index].thread_id@
        },
    }
}

/// How a thread is described: by its error, else by its last message where
/// there is a bridge.
pub open spec fn described(panel: PanelState, facts: Seq<ThreadFacts>, index: int) -> Seq<char> {
    let error = text_or(optional_text(panel.model.threads@[index].error), Seq::empty());
    if error.len() > 0 {
        "Error: "@ + error
    } else if panel.bridge is Some && index < facts.len() {
        facts[index].description@
    } else {
        Seq::empty()
    }
}

/// Whether a thread's session stays open in the background: known only of a
/// thread with a session, where the store is open.
pub open spec fn in_background(panel: PanelState, facts: Seq<ThreadFacts>, index: int) -> bool {
    panel.store && bound(panel, index) is Some && index < facts.len() && facts[index].background
        == Some(true)
}

/// The provider of a thread of the bridge.
pub open spec fn provider_of(panel: PanelState, index: int) -> Seq<char> {
    match slot(panel, index) {
        Some(slot) => text_or(optional_text(slot.provider), Seq::empty()),
        None => Seq::empty(),
    }
}

/// The project that a thread of the bridge was opened for.
pub open spec fn project_of(panel: PanelState, index: int) -> Seq<char> {
    match slot(panel, index) {
        Some(slot) => text_or(optional_text(slot.project_path), Seq::empty()),
        None => Seq::empty(),
    }
}

/// Whether columns say of a thread what the panel and the facts say of it.
pub open spec fn column_entry(
    panel: PanelState,
    facts: Seq<ThreadFacts>,
    c: ThreadListColumns,
    i: int,
) -> bool {
    let thread = panel.model.threads@[i];
    &&& c.names@[i] == thread.display_name
    &&& c.states@[i] == thread.state
    &&& c.thread_ids@[i]@ == listed_id(panel, i)
    &&& c.descriptions@[i]@ == described(panel, facts, i)
    &&& c.background_sessions@[i] == in_background(panel, facts, i)
    &&& c.closed@[i] == (slot(panel, i) is Some && slot(panel, i)->0.closed)
    &&& c.archived@[i] == (slot(panel, i) is Some && slot(panel, i)->0.archived)
    &&& c.unread@[i] == thread.unread
    &&& c.providers@[i]@ == provider_of(panel, i)
    &&& c.thread_models@[i]@ == (if panel.bridge is Some && i < facts.len() {
        facts[i].model_name@
    } else {
        Seq::empty()
    })
    &&& c.project_paths@[i]@ == project_of(panel, i)
}

/// Whether every column has `n` entries.
pub open spec fn columns_len(c: ThreadListColumns, n: int) -> bool {
    &&& c.names@.len() == n
    &&& c.states@.len() == n
    &&& c.thread_ids@.len() == n
    &&& c.descriptions@.len() == n
    &&& c.background_sessions@.len() == n
    &&& c.closed@.len() == n
    &&& c.archived@.len() == n
    &&& c.unread@.len() == n
    &&& c.providers@.len() == n
    &&& c.thread_models@.len() == n
    &&& c.project_paths@.len() == n
}

/// The name that a thread goes by while it has no durable id.
pub fn placeholder_thread_id(index: usize) -> (r: String)
    ensures
        r@ == placeholder_id(index as int),
{
    let number: String = decimal_text(index as u64);
    join("thread:", number.as_str())
}

fn listed_thread_id(panel: &PanelState, index: usize) -> (r: String)
    requires
        index < panel.model.threads@.len(),
    ensures
        r@ == listed_id(*panel, index as int),
{
    match panel.thread_binding(index) {
        Some(binding) => binding.thread_id.clone(),
        None => {
            let own: &String = &panel.model.threads[index].thread_id;
            if own.as_str().unicode_len() == 0 {
                placeholder_thread_id(index)
            } else {
                own.clone()
            }
        },
    }
}

fn describe(panel: &PanelState, facts: &Vec<ThreadFacts>, index: usize) -> (r: String)
    requires
        index < panel.model.threads@.len(),
    ensures
        r@ == described(*panel, facts@, index as int),
{
    let error: String = or_empty(&panel.model.threads[index].error);
    if error.as_str().unicode_len() > 0 {
        join("Error: ", error.as_str())
    } else if panel.bridge.is_some() && index < facts.len() {
        facts[index].description.clone()
    } else {
        empty_text()
    }
}

/// What the list says of every thread.
pub fn thread_list_columns(panel: &PanelState, facts: &Vec<ThreadFacts>) -> (r: ThreadListColumns)
    ensures
        columns_len(r, panel.model.threads@.len() as int),
        forall|i: int|
            0 <= i < panel.model.threads@.len() ==> #[trigger] column_entry(*panel, facts@, r, i),
{
    let mut c: ThreadListColumns = ThreadListColumns {
        names: Vec::new(),
        states: Vec::new(),
        thread_ids: Vec::new(),
        descriptions: Vec::new(),
        background_sessions: Vec::new(),
        closed: Vec::new(),
        archived: Vec::new(),
        unread: Vec::new(),
        providers: Vec::new(),
        thread_models: Vec::new(),
        project_paths: Vec::new(),
    };
    let mut i: usize = 0;
    while i < panel.model.threads.len()
        invariant
            i <= panel.model.threads@.len(),
            columns_len(c, i as int),
            forall|k: int| 0 <= k < i ==> #[trigger] column_entry(*panel, facts@, c, k),
        decreases panel.model.threads@.len() - i,
    {
        let ghost before = c;
        let thread: &ThreadModel = &panel.model.threads[i];
        c.names.push(thread.display_name.clone());
        c.states.push(thread.state);
        c.thread_ids.push(listed_thread_id(panel, i));
        c.descriptions.push(describe(panel, facts, i));
        let background: bool = if panel.store && panel.thread_binding(i).is_some() && i
            < facts.len() {
            match facts[i].background {
                Some(kept) => kept,
                None => false,
            }
        } else {
            false
        };
        c.background_sessions.push(background);
        let mut closed: bool = false;
        let mut archived: bool = false;
        let mut provider: String = empty_text();
        let mut project: String = empty_text();
        if let Some(slot) = panel.bridge_thread(i) {
            closed = slot.closed;
            archived = slot.archived;
            provider = or_empty(&slot.provider);
            project = or_empty(&slot.project_path);
        }
        c.closed.push(closed);
        c.archived.push(archived);
        c.unread.push(thread.unread);
        c.providers.push(provider);
        let model_name: String = if panel.bridge.is_some() && i < facts.len() {
            facts[i].model_name.clone()
        } else {
            empty_text()
        };
        c.thread_models.push(model_name);
        c.project_paths.push(project);
        assert(column_entry(*panel, facts@, c, i as int));
        assert forall|k: int| 0 <= k < i implies #[trigger] column_entry(
            *panel,
            facts@,
            c,
            k,
        ) by {
            assert(column_entry(*panel, facts@, before, k));
        }
        i += 1;
    }
    c
}

/// A row that is in the list, and the thread that it stands for.
#[derive(Debug, Clone, PartialEq)]
pub struct IndexedItem {
    pub real_index: usize,
    pub item: ThreadItem,
}

/// The thread list of one frame.
#[derive(Debug, Clone, PartialEq)]
pub struct ThreadListSnapshot {
    pub visible_indices: Vec<usize>,
    pub visible_thread_ids: Vec<String>,
    pub rows: Vec<VisibleThreadItem>,
    pub archived_flags: Vec<bool>,
    pub active_project_path: Option<String>,
}

/// An entry of a column, and the empty text past its end.
pub open spec fn entry(column: Seq<String>, i: int) -> Seq<char> {
    if 0 <= i < column.len() {
        column[i]@
    } else {
        Seq::empty()
    }
}

/// Whether it is to be found out if the agent of a thread is installed: in the
/// one frame in which its session is seen for the first time.
pub open spec fn newly_attached(panel: PanelState, index: int) -> bool {
    bound(panel, index) is Some && !(0 <= index < panel.model.threads@.len()
        && panel.model.threads@[index].session_id is Some)
}

/// Whether it is to be found out if the agent of a thread is installed.
pub fn probes_agent(panel: &PanelState, index: usize) -> (r: bool)
    ensures
        r == newly_attached(*panel, index as int),
{
    let attached: bool = index < panel.model.threads.len()
        && panel.model.threads[index].session_id.is_some();
    !attached && panel.thread_binding(index).is_some()
}

/// Whether the row of a thread shows that its session is being opened.
pub open spec fn row_starting(panel: PanelState, index: int, item: ThreadItem) -> bool {
    starting(
        item.closed,
        item.status@,
        bound(panel, index) is Some,
        slot(panel, index) is Some && slot(panel, index)->0.deferred,
    )
}

/// Whether `out` is the row for `from`: as it was, with what the columns, the
/// model and the bridge say of its thread.
pub open spec fn completed(
    panel: PanelState,
    c: ThreadListColumns,
    live: Seq<bool>,
    from: IndexedItem,
    out: ThreadItem,
) -> bool {
    let i = from.real_index as int;
    let known = i < panel.model.threads@.len();
    &&& out.name == from.item.name
    &&& out.closed == from.item.closed
    &&& out.archived == from.item.archived
    &&& out.unread == from.item.unread
    &&& out.background_session == from.item.background_session
    &&& out.provider@ == entry(c.providers@, i)
    &&& out.model@ == entry(c.thread_models@, i)
    &&& out.project_path@ == entry(c.project_paths@, i)
    &&& out.project_name@ == text_or(named_by(entry(c.project_paths@, i)), Seq::empty())
    &&& out.project_instance_live == (i < live.len() && live[i])
    &&& out.profile_name@ == (if known {
        text_or(optional_text(panel.model.threads@[i].profile_name), Seq::empty())
    } else {
        from.item.profile_name@
    })
    &&& out.has_session == (if known {
        panel.model.threads@[i].session_id is Some
    } else {
        from.item.has_session
    })
    &&& if row_starting(panel, i, from.item) {
        &&& out.status@ == "loading"@
        &&& out.busy
        &&& out.description@ == (if from.item.description@.len() == 0 {
            "Starting new thread..."@
        } else {
            from.item.description@
        })
    } else {
        &&& out.status == from.item.status
        &&& out.busy == from.item.busy
        &&& out.description == from.item.description
    }
}

/// Whether `out` is the entry of the list for `from`.
pub open spec fn listed_row(
    panel: PanelState,
    c: ThreadListColumns,
    live: Seq<bool>,
    detected: Seq<Option<bool>>,
    from: IndexedItem,
    out: VisibleThreadItem,
) -> bool {
    let i = from.real_index as int;
    &&& out.real_index == from.real_index
    &&& out.thread_id@ == (if i < c.thread_ids@.len() {
        c.thread_ids@[i]@
    } else {
        placeholder_id(i)
    })
    &&& optional_text(out.session_id) == match bound(panel, i) {
        Some(binding) => Some(binding.session_id@),
        None => None,
    }
    &&& out.agent_detected == (if newly_attached(panel, i) && i < detected.len() {
        detected[i]
    } else {
        None
    })
    &&& completed(panel, c, live, from, out.item)
}

fn entry_text(column: &Vec<String>, i: usize) -> (r: String)
    ensures
        r@ == entry(column@, i as int),
{
    if i < column.len() {
        column[i].clone()
    } else {
        empty_text()
    }
}

fn complete_row(
    panel: &PanelState,
    c: &ThreadListColumns,
    live: &Vec<bool>,
    from: IndexedItem,
) -> (r: ThreadItem)
    ensures
        completed(*panel, *c, live@, from, r),
{
    let i: usize = from.real_index;
    let mut row: ThreadItem = from.item;
    row.provider = entry_text(&c.providers, i);
    row.model = entry_text(&c.thread_models, i);
    let project: String = entry_text(&c.project_paths, i);
    row.project_name = match file_name(project.as_str()) {
        Some(name) => name,
        None => empty_text(),
    };
    row.project_instance_live = i < live.len() && live[i];
    row.project_path = project;
    if i < panel.model.threads.len() {
        row.profile_name = or_empty(&panel.model.threads[i].profile_name);
        row.has_session = panel.model.threads[i].session_id.is_some();
    }
    let deferred: bool = match panel.bridge_thread(i) {
        Some(slot) => slot.deferred,
        None => false,
    };
    if shows_starting_thread_loading(
        row.closed,
        row.status.as_str(),
        panel.thread_binding(i).is_some(),
        deferred,
    ) {
        row.status = "loading".to_owned();
        row.busy = true;
        if row.description.as_str().unicode_len() == 0 {
            row.description = "Starting new thread...".to_owned();
        }
    }
    row
}

/// Whether `list` is the list of the rows: one row for each, in order.
pub open spec fn threads_listed(
    panel: PanelState,
    columns: ThreadListColumns,
    items: Seq<IndexedItem>,
    live: Seq<bool>,
    detected: Seq<Option<bool>>,
    list: ThreadListSnapshot,
) -> bool {
    &&& list.visible_indices@.len() == items.len()
    &&& list.rows@.len() == items.len()
    &&& forall|k: int|
        0 <= k < items.len() ==> list.visible_indices@[k] == (#[trigger] items[k]).real_index
    &&& forall|k: int|
        0 <= k < items.len() ==> listed_row(
            panel,
            columns,
            live,
            detected,
            items[k],
            #[trigger] list.rows@[k],
        )
    &&& list.visible_thread_ids@.len() == items.len()
    &&& forall|k: int|
        0 <= k < items.len() ==> #[trigger] list.visible_thread_ids@[k] == list.rows@[k].thread_id
    &&& list.archived_flags == columns.archived
    &&& list.active_project_path == panel.model.active_project_path
}

/// Completes the rows that are in the list. `items` are those rows as the
/// search and the open project leave them; `live` says of a thread whether its
/// project is open somewhere, and `detected` whether its agent is installed,
/// as far as that was found out.
pub fn collect_thread_list_snapshot(
    panel: &PanelState,
    columns: ThreadListColumns,
    items: Vec<IndexedItem>,
    live: &Vec<bool>,
    detected: &Vec<Option<bool>>,
) -> (r: ThreadListSnapshot)
    ensures
        threads_listed(*panel, columns, items@, live@, detected@, r),
{
    let ghost given = items@;
    let mut visible_indices: Vec<usize> = Vec::new();
    let mut visible_thread_ids: Vec<String> = Vec::new();
    let mut rows: Vec<VisibleThreadItem> = Vec::new();
    let mut rest: Vec<IndexedItem> = items;
    let mut back: Vec<IndexedItem> = Vec::new();
    while rest.len() > 0
        invariant
            rest@.len() + back@.len() == given.len(),
            forall|k: int| 0 <= k < rest@.len() ==> #[trigger] rest@[k] == given[k],
            forall|k: int|
                0 <= k < back@.len() ==> #[trigger] back@[k] == given[given.len() - 1 - k],
        decreases rest@.len(),
    {
        if let Some(item) = rest.pop() {
            back.push(item);
        }
    }
    while back.len() > 0
        invariant
            rows@.len() + back@.len() == given.len(),
            visible_indices@.len() == rows@.len(),
            visible_thread_ids@.len() == rows@.len(),
            forall|k: int|
                0 <= k < back@.len() ==> #[trigger] back@[k] == given[given.len() - 1 - k],
            forall|k: int|
                0 <= k < rows@.len() ==> visible_indices@[k] == (#[trigger] given[k]).real_index,
            forall|k: int|
                0 <= k < rows@.len() ==> listed_row(
                    *panel,
                    columns,
                    live@,
                    detected@,
                    given[k],
                    #[trigger] rows@[k],
                ),
            forall|k: int|
                0 <= k < rows@.len() ==> #[trigger] visible_thread_ids@[k] == rows@[k].thread_id,
        decreases back@.len(),
    {
        if let Some(from) = back.pop() {
            let ghost at = rows@.len() as int;
            assert(from == given[at]);
            let i: usize = from.real_index;
            let thread_id: String = if i < columns.thread_ids.len() {
                columns.thread_ids[i].clone()
            } else {
                placeholder_thread_id(i)
            };
            let session_id: Option<String> = match panel.thread_binding(i) {
                Some(binding) => Some(binding.session_id.clone()),
                None => None,
            };
            let agent_detected: Option<bool> = if probes_agent(panel, i) && i < detected.len() {
                detected[i]
            } else {
                None
            };
            let item: ThreadItem = complete_row(panel, &columns, live, from);
            visible_indices.push(i);
            visible_thread_ids.push(thread_id.clone());
            rows.push(
                VisibleThreadItem { real_index: i, thread_id, session_id, agent_detected, item },
            );
        }
    }
    ThreadListSnapshot {
        visible_indices,
        visible_thread_ids,
        rows,
        archived_flags: columns.archived,
        active_project_path: clone_optional(&panel.model.active_project_path),
    }
}

/// The row of a thread that failed keeps saying so: it is not put back to
/// loading by any later frame.
pub proof fn law_error_row_stays(
    panel: PanelState,
    c: ThreadListColumns,
    live: Seq<bool>,
    from: IndexedItem,
    out: ThreadItem,
)
    requires
        completed(panel, c, live, from, out),
        from.item.status@ == "error"@,
    ensures
        out.status@ == "error"@,
        out.busy == from.item.busy,
        out.description@ == from.item.description@,
{
}

/// Whether a thread's agent is installed is told at most once: after the frame
/// that takes over the thread's session, it is not asked again.
pub proof fn law_agent_probed_once(panel: PanelState, index: int)
    requires
        0 <= index < panel.model.threads@.len(),
        panel.model.threads@[index].session_id is Some,
    ensures
        !newly_attached(panel, index),
{
}

} // verus!
