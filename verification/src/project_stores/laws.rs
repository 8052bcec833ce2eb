//! Which store a project has, said of the stores.

use crate::model::ProjectView;
use crate::paths::{components_of, parent_of};
use crate::project_stores::{
    chosen_store, identity_of, renamed_stores, store_moved, StoreChoice, StoreMove,
};
use vstd::prelude::*;

verus! {

/// A path is that of a saved project exactly where it ends in `.mlt`; every other
/// path is that of a project not saved yet. Either way the project goes by it.
pub proof fn law_saved_projects_end_in_mlt(path: Seq<char>, name: Seq<char>)
    ensures
        identity_of(name + ".mlt"@) == ProjectView::Saved(name + ".mlt"@),
        identity_of(path) is Saved <==> ".mlt"@.is_suffix_of(path),
        identity_of(path) is Saved ==> identity_of(path)->Saved_0 == path,
        !(identity_of(path) is Saved) ==> identity_of(path) == ProjectView::Untitled(path),
{
    let s = name + ".mlt"@;
    assert(s.skip(s.len() - ".mlt"@.len()) =~= ".mlt"@);
}

/// Without a project, the state is kept in the panel's own store; with one, in
/// the store that is open for it, which is opened where there is none.
pub proof fn law_project_has_its_own_store(
    stores: Map<ProjectView, usize>,
    active: ProjectView,
)
    ensures
        active is NoProject ==> chosen_store(stores, active) is Global,
        !(active is NoProject) && stores.dom().contains(active) ==> chosen_store(stores, active)
            == StoreChoice::Open(stores[active]),
        !(active is NoProject) && !stores.dom().contains(active) ==> chosen_store(stores, active)
            is Missing,
{
}

/// Renaming a project takes its store along and leaves the stores of all others;
/// a project without a store changes nothing.
pub proof fn law_renaming_leaves_other_stores(
    stores: Map<ProjectView, usize>,
    old_id: ProjectView,
    new_id: ProjectView,
    other: ProjectView,
)
    requires
        other != old_id,
        other != new_id,
    ensures
        ({
            let after = renamed_stores(stores, old_id, new_id);
            &&& after.dom().contains(other) <==> stores.dom().contains(other)
            &&& stores.dom().contains(other) ==> after[other] == stores[other]
            &&& stores.dom().contains(old_id) ==> after.dom().contains(new_id) && after[new_id]
                == stores[old_id]
            &&& !stores.dom().contains(old_id) ==> after == stores
        }),
{
}

/// The directory of a store is moved only where there is one to move, to another
/// place, at which there is none yet; the directory that it is to stand in is
/// then made first.
pub proof fn law_store_is_moved_only_where_it_can(
    from: Option<Seq<char>>,
    to: Option<Seq<char>>,
    from_exists: bool,
    to_exists: bool,
    r: StoreMove,
)
    requires
        store_moved(from, to, from_exists, to_exists, r),
    ensures
        r is Move <==> from is Some && to is Some && from_exists && !to_exists && components_of(
            from->0,
        ) != components_of(to->0),
        r is Retain <==> from is Some && to is Some && from_exists && to_exists && components_of(
            from->0,
        ) != components_of(to->0),
        r matches StoreMove::Move { parent } ==> (parent_of(to->0) matches Some(dir) ==> (
        parent matches Some(p) && p@ == dir)),
        from == to ==> r is Stay,
{
}

} // verus!
