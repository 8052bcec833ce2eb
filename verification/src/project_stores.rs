//! The stores of the projects that were open, one for each project.

pub mod laws;

use crate::model::{ProjectIdentity, ProjectView};
use crate::paths::{components_of, parent, parent_of, same_path};
use crate::text::{ends_with, optional_text, same};
use vstd::prelude::*;

verus! {

/// The identity of a project by its path: a saved project has the file type of
/// the editor's projects; another path is that of a project not saved yet.
pub open spec fn identity_of(path: Seq<char>) -> ProjectView {
    if ".mlt"@.is_suffix_of(path) {
        ProjectView::Saved(path)
    } else {
        ProjectView::Untitled(path)
    }
}

/// The identity of a project by its path.
pub fn project_identity_for_path(path: &str) -> (r: ProjectIdentity)
    ensures
        r@ == identity_of(path@),
{
    if ends_with(path, ".mlt") {
        ProjectIdentity::Saved(path.to_owned())
    } else {
        ProjectIdentity::Untitled(path.to_owned())
    }
}

/// A store that is open, by the number under which it is held.
#[derive(Debug, PartialEq)]
pub struct StoreEntry {
    pub identity: ProjectIdentity,
    pub store: usize,
}

/// The stores that are open, each for one project.
#[derive(Debug, PartialEq)]
pub struct ProjectStores {
    pub entries: Vec<StoreEntry>,
}

/// The store of a project, from a position on.
pub open spec fn store_from(entries: Seq<StoreEntry>, id: ProjectView, from: int) -> Option<usize>
    decreases entries.len() - from,
{
    if from < 0 || from >= entries.len() {
        None
    } else if entries[from].identity@ == id {
        Some(entries[from].store)
    } else {
        store_from(entries, id, from + 1)
    }
}

/// Whether no project has two entries.
pub open spec fn one_each(entries: Seq<StoreEntry>) -> bool {
    forall|i: int, j: int|
        0 <= i < j < entries.len() ==> (#[trigger] entries[i]).identity@ != (
        #[trigger] entries[j]).identity@
}

/// Which store a project's state is kept in.
#[derive(Debug, Clone, Copy, PartialEq, Eq, Structural)]
pub enum StoreChoice {
    /// The panel's own, while no project is open.
    Global,
    /// One that is open.
    Open(usize),
    /// One that has to be opened.
    Missing,
}

proof fn lemma_store_found(entries: Seq<StoreEntry>, id: ProjectView, from: int, at: int)
    requires
        0 <= from <= at < entries.len(),
        entries[at].identity@ == id,
        forall|k: int| from <= k < at ==> (#[trigger] entries[k]).identity@ != id,
    ensures
        store_from(entries, id, from) == Some(entries[at].store),
    decreases at - from,
{
    if from < at {
        lemma_store_found(entries, id, from + 1, at);
    }
}

proof fn lemma_store_missing(entries: Seq<StoreEntry>, id: ProjectView, from: int)
    requires
        0 <= from,
        forall|k: int| from <= k < entries.len() ==> (#[trigger] entries[k]).identity@ != id,
    ensures
        store_from(entries, id, from) is None,
    decreases entries.len() - from,
{
    if from < entries.len() {
        lemma_store_missing(entries, id, from + 1);
    }
}

proof fn lemma_store_same(
    entries: Seq<StoreEntry>,
    other: Seq<StoreEntry>,
    id: ProjectView,
    shift: int,
    from: int,
)
    requires
        0 <= from,
        0 <= shift <= 1,
        other.len() == entries.len() - shift,
        forall|k: int| from <= k < other.len() ==> #[trigger] other[k] == entries[k + shift],
    ensures
        store_from(other, id, from) == store_from(entries, id, from + shift),
    decreases other.len() - from,
{
    if from < other.len() {
        assert(other[from] == entries[from + shift]);
        lemma_store_same(entries, other, id, shift, from + 1);
    }
}

/// Which store the state of the open project is kept in.
pub open spec fn chosen_store(stores: Map<ProjectView, usize>, active: ProjectView) -> StoreChoice {
    if active == ProjectView::NoProject {
        StoreChoice::Global
    } else if stores.dom().contains(active) {
        StoreChoice::Open(stores[active])
    } else {
        StoreChoice::Missing
    }
}

/// The stores after that of one project is held for another.
pub open spec fn renamed_stores(
    stores: Map<ProjectView, usize>,
    old_id: ProjectView,
    new_id: ProjectView,
) -> Map<ProjectView, usize> {
    if stores.dom().contains(old_id) {
        stores.remove(old_id).insert(new_id, stores[old_id])
    } else {
        stores
    }
}

impl ProjectStores {
    /// The stores by project.
    pub open spec fn stores(self) -> Map<ProjectView, usize> {
        Map::new(
            |id: ProjectView| store_from(self.entries@, id, 0) is Some,
            |id: ProjectView| store_from(self.entries@, id, 0)->0,
        )
    }

    /// Whether each project has one store at most.
    pub open spec fn wf(self) -> bool {
        one_each(self.entries@)
    }

    /// No store is open.
    pub fn new() -> (r: ProjectStores)
        ensures
            r.wf(),
            r.stores() == Map::<ProjectView, usize>::empty(),
    {
        let r: ProjectStores = ProjectStores { entries: Vec::new() };
        assert(r.stores() =~= Map::<ProjectView, usize>::empty());
        r
    }

    fn position(&self, id: &ProjectIdentity) -> (r: Option<usize>)
        ensures
            match r {
                Some(at) => at < self.entries@.len() && self.entries@[at as int].identity@ == id@
                    && store_from(self.entries@, id@, 0) == Some(self.entries@[at as int].store),
                None => store_from(self.entries@, id@, 0) is None && forall|k: int|
                    0 <= k < self.entries@.len() ==> (#[trigger] self.entries@[k]).identity@ != id@,
            },
    {
        let mut i: usize = 0;
        while i < self.entries.len()
            invariant
                i <= self.entries@.len(),
                forall|k: int| 0 <= k < i ==> (#[trigger] self.entries@[k]).identity@ != id@,
            decreases self.entries@.len() - i,
        {
            if self.entries[i].identity.matches(id) {
                proof {
                    lemma_store_found(self.entries@, id@, 0, i as int);
                }
                return Some(i);
            }
            i += 1;
        }
        proof {
            lemma_store_missing(self.entries@, id@, 0);
        }
        None
    }

    /// The store of a project, where it is open.
    pub fn project_state_for_identity(&self, id: &ProjectIdentity) -> (r: Option<usize>)
        ensures
            r == if self.stores().dom().contains(id@) {
                Some(self.stores()[id@])
            } else {
                None
            },
    {
        match self.position(id) {
            Some(at) => Some(self.entries[at].store),
            None => None,
        }
    }

    /// Which store the state of the open project is kept in.
    pub fn active_panel_state(&self, active: &ProjectIdentity) -> (r: StoreChoice)
        ensures
            r == chosen_store(self.stores(), active@),
    {
        match active {
            ProjectIdentity::NoProject => StoreChoice::Global,
            _ => match self.position(active) {
                Some(at) => StoreChoice::Open(self.entries[at].store),
                None => StoreChoice::Missing,
            },
        }
    }

    /// Holds a store for a project, in place of the one that it had.
    pub fn insert(&mut self, id: ProjectIdentity, store: usize)
        requires
            old(self).wf(),
        ensures
            final(self).wf(),
            final(self).stores() == old(self).stores().insert(id@, store),
    {
        let ghost before = self.entries@;
        match self.position(&id) {
            Some(at) => {
                self.entries[at].store = store;
                proof {
                    assert forall|k: int| 0 <= k < before.len() implies (
                    #[trigger] self.entries@[k]).identity@ == before[k].identity@ by {}
                    assert forall|other: ProjectView| store_from(self.entries@, other, 0) == (
                    if other == id@ {
                        Some(store)
                    } else {
                        store_from(before, other, 0)
                    }) by {
                        if other == id@ {
                            assert forall|k: int| 0 <= k < at implies (
                            #[trigger] self.entries@[k]).identity@ != id@ by {
                                assert(before[k].identity@ != before[at as int].identity@);
                            }
                            lemma_store_found(self.entries@, other, 0, at as int);
                        } else {
                            lemma_store_replaced(before, self.entries@, other, at as int, 0);
                        }
                    }
                }
            },
            None => {
                let ghost entry = StoreEntry { identity: id, store };
                self.entries.push(StoreEntry { identity: id, store });
                proof {
                    assert forall|other: ProjectView| store_from(self.entries@, other, 0) == (
                    if other == id@ {
                        Some(store)
                    } else {
                        store_from(before, other, 0)
                    }) by {
                        lemma_store_pushed(before, entry, other, 0);
                    }
                }
            },
        }
        assert(self.stores() =~= old(self).stores().insert(id@, store));
    }

    /// Holds the store of one project for another, where there is one.
    pub fn rename(&mut self, old_id: &ProjectIdentity, new_id: ProjectIdentity)
        requires
            old(self).wf(),
        ensures
            final(self).wf(),
            final(self).stores() == renamed_stores(old(self).stores(), old_id@, new_id@),
    {
        let ghost before = self.entries@;
        if let Some(at) = self.position(old_id) {
            let entry: StoreEntry = self.entries.remove(at);
            let store: usize = entry.store;
            proof {
                assert(self.entries@ == before.remove(at as int));
                assert forall|other: ProjectView| store_from(self.entries@, other, 0) == (
                if other == old_id@ {
                    None
                } else {
                    store_from(before, other, 0)
                }) by {
                    if other == old_id@ {
                        assert forall|k: int| 0 <= k < self.entries@.len() implies (
                        #[trigger] self.entries@[k]).identity@ != old_id@ by {
                            if k < at {
                                assert(before[k].identity@ != before[at as int].identity@);
                            } else {
                                assert(before[at as int].identity@ != before[k + 1].identity@);
                            }
                        }
                        lemma_store_missing(self.entries@, other, 0);
                    } else {
                        lemma_store_removed(before, other, at as int, 0);
                    }
                }
                assert(self.stores() =~= old(self).stores().remove(old_id@));
            }
            self.insert(new_id, store);
        }
    }
}

proof fn lemma_store_replaced(
    before: Seq<StoreEntry>,
    after: Seq<StoreEntry>,
    id: ProjectView,
    at: int,
    from: int,
)
    requires
        0 <= from,
        0 <= at < before.len(),
        before.len() == after.len(),
        before[at].identity@ != id,
        after[at].identity@ != id,
        forall|k: int| 0 <= k < before.len() && k != at ==> #[trigger] after[k] == before[k],
    ensures
        store_from(after, id, from) == store_from(before, id, from),
    decreases before.len() - from,
{
    if from < before.len() {
        lemma_store_replaced(before, after, id, at, from + 1);
    }
}

proof fn lemma_store_pushed(
    before: Seq<StoreEntry>,
    entry: StoreEntry,
    id: ProjectView,
    from: int,
)
    requires
        0 <= from <= before.len(),
        forall|k: int| from <= k < before.len() ==> (#[trigger] before[k]).identity@
            != entry.identity@,
    ensures
        store_from(before.push(entry), id, from) == if id == entry.identity@ {
            Some(entry.store)
        } else {
            store_from(before, id, from)
        },
    decreases before.len() - from,
{
    if from < before.len() {
        assert(before.push(entry)[from] == before[from]);
        lemma_store_pushed(before, entry, id, from + 1);
    } else {
        assert(store_from(before.push(entry), id, from + 1) is None);
    }
}

proof fn lemma_store_removed(before: Seq<StoreEntry>, id: ProjectView, at: int, from: int)
    requires
        0 <= from <= at < before.len(),
        before[at].identity@ != id,
    ensures
        store_from(before.remove(at), id, from) == store_from(before, id, from),
    decreases at - from,
{
    if from < at {
        assert(before.remove(at)[from] == before[from]);
        lemma_store_removed(before, id, at, from + 1);
    } else {
        lemma_store_same(before, before.remove(at), id, 1, from);
    }
}

/// What is done with the directory of a project's store when the project gets
/// another path.
#[derive(Debug, Clone, PartialEq, Eq)]
pub enum StoreMove {
    /// Nothing.
    Stay,
    /// The other directory exists already, and stays.
    Retain,
    /// The directory is moved; the one that it is to stand in is made first.
    Move { parent: Option<String> },
}

/// Whether a move is the one for two directories.
pub open spec fn store_moved(
    old_dir: Option<Seq<char>>,
    new_dir: Option<Seq<char>>,
    old_exists: bool,
    new_exists: bool,
    r: StoreMove,
) -> bool {
    if old_dir is None || new_dir is None || components_of(old_dir->0) == components_of(new_dir->0)
        || !old_exists {
        r == StoreMove::Stay
    } else if new_exists {
        r == StoreMove::Retain
    } else {
        match r {
            StoreMove::Move { parent } => optional_text(parent) == parent_of(new_dir->0),
            _ => false,
        }
    }
}

/// What is done with the directory of a project's store when the project gets
/// another path: it is moved, unless it is the same directory, there is none to
/// move or one is there already.
pub fn move_project_store_for_rename(
    old_dir: &Option<String>,
    new_dir: &Option<String>,
    old_exists: bool,
    new_exists: bool,
) -> (r: StoreMove)
    ensures
        store_moved(
            optional_text(*old_dir),
            optional_text(*new_dir),
            old_exists,
            new_exists,
            r,
        ),
{
    match (old_dir, new_dir) {
        (Some(from), Some(to)) => if same_path(from.as_str(), to.as_str()) || !old_exists {
            StoreMove::Stay
        } else if new_exists {
            StoreMove::Retain
        } else {
            StoreMove::Move { parent: parent(to.as_str()) }
        },
        _ => StoreMove::Stay,
    }
}

/// After the store of a project was moved, it is found under the project's new
/// identity and no longer under the old one.
pub proof fn law_moved_store_is_found(
    stores: Map<ProjectView, usize>,
    old_id: ProjectView,
    new_id: ProjectView,
)
    requires
        stores.dom().contains(old_id),
        old_id != new_id,
    ensures
        ({
            let after = renamed_stores(stores, old_id, new_id);
            &&& after.dom().contains(new_id)
            &&& after[new_id] == stores[old_id]
            &&& !after.dom().contains(old_id)
        }),
{
}

} // verus!
