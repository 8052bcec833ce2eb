//! What a look at the daemon gives, said of the updates themselves.

use crate::model::{Model, ThreadModel};
use crate::seqs::{lemma_picked_from, lemma_picked_len, picked};
use crate::session_cache::{
    kept, look_taken, newest, sessions, tells, told_all, with_kept, SessionCache,
    SessionDerivedState, SessionLook, SessionUpdate,
};
use vstd::prelude::*;

verus! {

/// What is kept of an update is what it says of the session, each under its own
/// name.
pub proof fn law_update_is_kept_as_told(update: SessionUpdate)
    ensures
        kept(update).session_id == update.snapshot.session_id,
        kept(update).acp_session_id == update.snapshot.acp_session_id,
        kept(update).project_id == update.snapshot.project_id,
        kept(update).project_path == update.snapshot.project_path,
        kept(update).connection_status == update.snapshot.connection_status,
        kept(update).revision == update.snapshot.revision,
{
}

/// What was kept is told as it was, without times and from no client.
pub proof fn law_kept_is_told_as_it_was(state: SessionDerivedState, update: SessionUpdate)
    requires
        tells(state, update),
    ensures
        update.snapshot.session_id == state.session_id,
        update.snapshot.acp_session_id == state.acp_session_id,
        update.snapshot.project_id == state.project_id,
        update.snapshot.project_path == state.project_path,
        update.snapshot.connection_status == state.connection_status,
        update.snapshot.revision == state.revision,
        update.client_instance_id is None,
        update.snapshot.created_at@.len() == 0,
        update.snapshot.expires_at@.len() == 0,
{
}

proof fn lemma_session_is_listed(threads: Seq<ThreadModel>, k: int)
    requires
        0 <= k < threads.len(),
        threads[k].session_id is Some,
    ensures
        sessions(threads).contains(threads[k].session_id->0),
    decreases threads.len(),
{
    let f = |thread: ThreadModel| thread.session_id;
    let before = picked(threads.drop_last(), f);
    if k == threads.len() - 1 {
        assert(picked(threads, f)[before.len() as int] == threads[k].session_id->0);
    } else {
        assert(threads.drop_last()[k] == threads[k]);
        lemma_session_is_listed(threads.drop_last(), k);
        let at = choose|at: int| 0 <= at < before.len() && before[at] == threads[k].session_id->0;
        assert(picked(threads, f)[at] == before[at]);
    }
}

/// The daemon is to tell of the sessions of the threads, of every one and of no
/// other.
pub proof fn law_every_session_is_watched(
    before: SessionCache,
    model: Model,
    subscription: Option<Seq<SessionUpdate>>,
    stored: Option<Seq<SessionDerivedState>>,
    store: bool,
    after: SessionCache,
    look: SessionLook,
    k: int,
)
    requires
        look_taken(before, model, subscription, stored, store, after, look),
    ensures
        look.sessions@.len() <= model.threads@.len(),
        0 <= k < model.threads@.len() ==> (model.threads@[k].session_id matches Some(id)
            ==> look.sessions@.contains(id)),
        forall|j: int|
            0 <= j < look.sessions@.len() ==> exists|i: int|
                0 <= i < model.threads@.len() && (#[trigger] model.threads@[i]).session_id == Some(
                    #[trigger] look.sessions@[j],
                ),
{
    let f = |thread: ThreadModel| thread.session_id;
    lemma_picked_len(model.threads@, f);
    if 0 <= k < model.threads@.len() && model.threads@[k].session_id is Some {
        lemma_session_is_listed(model.threads@, k);
    }
    assert forall|j: int| 0 <= j < look.sessions@.len() implies exists|i: int|
        0 <= i < model.threads@.len() && (#[trigger] model.threads@[i]).session_id == Some(
            #[trigger] look.sessions@[j],
        ) by {
        lemma_picked_from(model.threads@, f, j);
        let i = choose|i: int|
            0 <= i < model.threads@.len() && f(#[trigger] model.threads@[i]) == Some(
                picked(model.threads@, f)[j],
            );
        assert(model.threads@[i].session_id == Some(look.sessions@[j]));
    }
}

/// Once what was kept has been told, a look gives what waited and then what the
/// daemon sent, all of it and in order; nothing waits then.
pub proof fn law_updates_are_given_in_order(
    before: SessionCache,
    model: Model,
    subscription: Option<Seq<SessionUpdate>>,
    stored: Option<Seq<SessionDerivedState>>,
    store: bool,
    after: SessionCache,
    look: SessionLook,
)
    requires
        look_taken(before, model, subscription, stored, store, after, look),
        before.hydrated && before.scope is Some && before.scope->0@ == model.active_project@,
    ensures
        subscription matches Some(sent) ==> look.updates@ == before.waiting@ + sent,
        subscription is None ==> look.updates@ == before.waiting@,
        after.waiting@.len() == 0,
        after.hydrated,
        after.scope is Some,
        after.scope->0@ == model.active_project@,
{
}

/// The first look at a project gives, at the end and in order, what was kept of
/// it, where no more is there than may wait.
pub proof fn law_first_look_tells_what_was_kept(
    before: SessionCache,
    model: Model,
    sent: Seq<SessionUpdate>,
    states: Seq<SessionDerivedState>,
    store: bool,
    after: SessionCache,
    look: SessionLook,
    k: int,
)
    requires
        look_taken(before, model, Some(sent), Some(states), store, after, look),
        !before.hydrated || before.scope is None || before.scope->0@ != model.active_project@,
        sent.len() + states.len() <= 256,
        0 <= k < states.len(),
    ensures
        look.updates@.len() == before.waiting@.len() + sent.len() + states.len(),
        tells(states[k], look.updates@[before.waiting@.len() + sent.len() + k]),
        forall|i: int|
            0 <= i < before.waiting@.len() ==> #[trigger] look.updates@[i] == before.waiting@[i],
{
    let told = choose|told: Seq<SessionUpdate>|
        #[trigger] told_all(states, told) && look.updates@ == before.waiting@ + with_kept(
            sent,
            told,
        );
    assert(told_all(states, told));
    assert(with_kept(sent, told) == sent + told);
    assert(look.updates@[before.waiting@.len() + sent.len() + k] == told[k]);
}

/// Of more updates than may wait, the newest stay.
pub proof fn law_newest_updates_stay(queue: Seq<SessionUpdate>)
    ensures
        newest(queue).len() <= 256,
        newest(queue).is_suffix_of(queue),
        queue.len() <= 256 ==> newest(queue) == queue,
        queue.len() > 256 ==> newest(queue).len() == 256,
{
    assert(queue.skip(0) =~= queue);
}

/// What comes is kept for the next time, update by update, where there is a
/// store; without one nothing is.
pub proof fn law_updates_are_kept(
    before: SessionCache,
    model: Model,
    subscription: Option<Seq<SessionUpdate>>,
    stored: Option<Seq<SessionDerivedState>>,
    store: bool,
    after: SessionCache,
    look: SessionLook,
)
    requires
        look_taken(before, model, subscription, stored, store, after, look),
    ensures
        !store ==> look.keep@.len() == 0,
        store ==> look.keep@.len() == look.updates@.len(),
        store ==> forall|k: int|
            0 <= k < look.keep@.len() ==> (#[trigger] look.keep@[k]).session_id
                == look.updates@[k].snapshot.session_id && look.keep@[k].connection_status
                == look.updates@[k].snapshot.connection_status && look.keep@[k].revision
                == look.updates@[k].snapshot.revision && look.keep@[k].project_path
                == look.updates@[k].snapshot.project_path,
{
}

} // verus!
