//! What the host's daemon tells of the sessions of the panel's threads.
//!
//! What it told last is kept in the store of the open project, and is told once
//! more when the project is opened.

pub mod laws;

use crate::model::{Model, ProjectIdentity, ThreadModel};
use crate::seqs::{lemma_picked_take, picked};
use crate::text::{clone_optional, empty_text};
use vstd::prelude::*;

verus! {

/// The state of a session.
#[derive(Debug, Clone, PartialEq, Eq)]
pub struct SessionSnapshot {
    pub session_id: String,
    pub acp_session_id: Option<String>,
    pub project_id: Option<String>,
    pub project_path: Option<String>,
    pub connection_status: String,
    pub revision: u64,
    pub created_at: String,
    pub expires_at: String,
}

/// A change of a session's state, and the client that it is from.
#[derive(Debug, Clone, PartialEq, Eq)]
pub struct SessionUpdate {
    pub client_instance_id: Option<String>,
    pub snapshot: SessionSnapshot,
}

/// What is kept of a session's state.
#[derive(Debug, Clone, PartialEq, Eq)]
pub struct SessionDerivedState {
    pub session_id: String,
    pub acp_session_id: Option<String>,
    pub project_id: Option<String>,
    pub project_path: Option<String>,
    pub connection_status: String,
    pub revision: u64,
}

/// The most updates that wait.
pub const MAX_WAITING: usize = 256;

/// The project whose sessions are told of, whether what was kept of them was
/// told, and the updates that wait while there is no connection to the daemon.
#[derive(Debug, PartialEq)]
pub struct SessionCache {
    pub scope: Option<ProjectIdentity>,
    pub hydrated: bool,
    pub waiting: Vec<SessionUpdate>,
}

/// What is kept of an update.
pub open spec fn kept(update: SessionUpdate) -> SessionDerivedState {
    SessionDerivedState {
        session_id: update.snapshot.session_id,
        acp_session_id: update.snapshot.acp_session_id,
        project_id: update.snapshot.project_id,
        project_path: update.snapshot.project_path,
        connection_status: update.snapshot.connection_status,
        revision: update.snapshot.revision,
    }
}

/// Whether an update tells what was kept: of no client, and without times.
pub open spec fn tells(state: SessionDerivedState, update: SessionUpdate) -> bool {
    &&& update.client_instance_id is None
    &&& kept(update) == state
    &&& update.snapshot.created_at@.len() == 0
    &&& update.snapshot.expires_at@.len() == 0
}

/// The newest of a list of updates, as many as may wait.
pub open spec fn newest(queue: Seq<SessionUpdate>) -> Seq<SessionUpdate> {
    if queue.len() > MAX_WAITING {
        queue.skip(queue.len() - MAX_WAITING)
    } else {
        queue
    }
}

/// The updates that wait after what was kept was added to them.
pub open spec fn with_kept(queue: Seq<SessionUpdate>, told: Seq<SessionUpdate>) -> Seq<
    SessionUpdate,
> {
    if told.len() == 0 {
        queue
    } else {
        newest(queue + told)
    }
}

/// Whether updates tell of all that was kept, in order.
pub open spec fn told_all(states: Seq<SessionDerivedState>, told: Seq<SessionUpdate>) -> bool {
    told.len() == states.len() && forall|k: int|
        0 <= k < states.len() ==> tells(states[k], #[trigger] told[k])
}

fn update_of(state: SessionDerivedState) -> (r: SessionUpdate)
    ensures
        tells(state, r),
{
    SessionUpdate {
        client_instance_id: None,
        snapshot: SessionSnapshot {
            session_id: state.session_id,
            acp_session_id: state.acp_session_id,
            project_id: state.project_id,
            project_path: state.project_path,
            connection_status: state.connection_status,
            revision: state.revision,
            created_at: empty_text(),
            expires_at: empty_text(),
        },
    }
}

proof fn lemma_newest_push(queue: Seq<SessionUpdate>, update: SessionUpdate)
    ensures
        newest(newest(queue).push(update)) == newest(queue.push(update)),
{
    assert(newest(newest(queue).push(update)) =~= newest(queue.push(update)));
}

fn add_kept(queue: &mut Vec<SessionUpdate>, states: Vec<SessionDerivedState>) -> (told: Ghost<
    Seq<SessionUpdate>,
>)
    ensures
        told_all(states@, told@),
        final(queue)@ == with_kept(old(queue)@, told@),
{
    let ghost given = states@;
    let ghost first = queue@;
    let ghost mut told: Seq<SessionUpdate> = Seq::empty();
    let mut rest: Vec<SessionDerivedState> = states;
    while rest.len() > 0
        invariant
            told.len() + rest@.len() == given.len(),
            forall|k: int| 0 <= k < rest@.len() ==> #[trigger] rest@[k] == given[told.len() + k],
            forall|k: int| 0 <= k < told.len() ==> tells(given[k], #[trigger] told[k]),
            queue@ == with_kept(first, told),
        decreases rest@.len(),
    {
        let state: SessionDerivedState = rest.remove(0);
        let update: SessionUpdate = update_of(state);
        let ghost before = told;
        let ghost waiting = queue@;
        queue.push(update);
        while queue.len() > MAX_WAITING
            invariant
                queue@.len() >= 1,
                newest(queue@) == newest(waiting.push(update)),
            decreases queue@.len(),
        {
            let ghost long = queue@;
            queue.remove(0);
            assert(newest(queue@) =~= newest(long));
        }
        proof {
            told = told.push(update);
            assert(queue@ == newest(queue@));
            lemma_newest_push(first + before, update);
            assert((first + before).push(update) =~= first + told);
            if before.len() == 0 {
                assert(first + told =~= first.push(update));
            }
        }
    }
    Ghost(told)
}

/// The sessions of threads, in the order of the threads.
pub open spec fn sessions(threads: Seq<ThreadModel>) -> Seq<String> {
    picked(threads, |thread: ThreadModel| thread.session_id)
}

fn session_ids(threads: &Vec<ThreadModel>) -> (r: Vec<String>)
    ensures
        r@ == sessions(threads@),
{
    let ghost session = |thread: ThreadModel| thread.session_id;
    let mut out: Vec<String> = Vec::new();
    let mut i: usize = 0;
    assert(threads@.take(0) =~= Seq::empty());
    while i < threads.len()
        invariant
            i <= threads@.len(),
            session == (|thread: ThreadModel| thread.session_id),
            out@ == picked(threads@.take(i as int), session),
        decreases threads@.len() - i,
    {
        proof {
            lemma_picked_take(threads@, i as int, session);
        }
        if let Some(id) = &threads[i].session_id {
            out.push(id.clone());
        }
        i += 1;
    }
    assert(threads@.take(i as int) =~= threads@);
    out
}

/// What one look at the daemon gives: the sessions that it is to tell of, the
/// updates that came, and what is to be kept of them.
#[derive(Debug, PartialEq)]
pub struct SessionLook {
    pub sessions: Vec<String>,
    pub updates: Vec<SessionUpdate>,
    pub keep: Vec<SessionDerivedState>,
}

/// The elements of an optional list.
pub open spec fn listed<A>(o: Option<Vec<A>>) -> Option<Seq<A>> {
    match o {
        Some(list) => Some(list@),
        None => None,
    }
}

/// Whether what was kept has to be told: the project is another one, or it was
/// not told yet.
pub open spec fn untold(cache: SessionCache, active: ProjectIdentity) -> bool {
    !cache.hydrated || match cache.scope {
        Some(scope) => scope@ != active@,
        None => true,
    }
}

/// Whether updates are those of one look: the ones that waited, and then the
/// ones that the daemon sent; what was kept comes after those of the queue that
/// it is put into, which is the daemon's where there is a connection.
pub open spec fn looked(
    cache: SessionCache,
    active: ProjectIdentity,
    subscription: Option<Seq<SessionUpdate>>,
    stored: Option<Seq<SessionDerivedState>>,
    updates: Seq<SessionUpdate>,
) -> bool {
    if untold(cache, active) && stored is Some {
        exists|told: Seq<SessionUpdate>|
            #[trigger] told_all(stored->0, told) && updates == match subscription {
                Some(sent) => cache.waiting@ + with_kept(sent, told),
                None => with_kept(cache.waiting@, told),
            }
    } else {
        updates == match subscription {
            Some(sent) => cache.waiting@ + sent,
            None => cache.waiting@,
        }
    }
}

fn keep_all(updates: &Vec<SessionUpdate>) -> (r: Vec<SessionDerivedState>)
    ensures
        r@ == updates@.map_values(|update: SessionUpdate| kept(update)),
{
    let mut out: Vec<SessionDerivedState> = Vec::new();
    let mut i: usize = 0;
    while i < updates.len()
        invariant
            i <= updates@.len(),
            out@.len() == i,
            forall|k: int| 0 <= k < i ==> #[trigger] out@[k] == kept(updates@[k]),
        decreases updates@.len() - i,
    {
        let snapshot: &SessionSnapshot = &updates[i].snapshot;
        out.push(
            SessionDerivedState {
                session_id: snapshot.session_id.clone(),
                acp_session_id: clone_optional(&snapshot.acp_session_id),
                project_id: clone_optional(&snapshot.project_id),
                project_path: clone_optional(&snapshot.project_path),
                connection_status: snapshot.connection_status.clone(),
                revision: snapshot.revision,
            },
        );
        i += 1;
    }
    assert(out@ =~= updates@.map_values(|update: SessionUpdate| kept(update)));
    out
}

/// Whether `look` is what one look at the daemon gives, and `after` what is
/// remembered then.
pub open spec fn look_taken(
    before: SessionCache,
    model: Model,
    subscription: Option<Seq<SessionUpdate>>,
    stored: Option<Seq<SessionDerivedState>>,
    store: bool,
    after: SessionCache,
    look: SessionLook,
) -> bool {
    &&& look.sessions@ == sessions(model.threads@)
    &&& looked(before, model.active_project, subscription, stored, look.updates@)
    &&& look.keep@ == if store {
        look.updates@.map_values(|update: SessionUpdate| kept(update))
    } else {
        Seq::empty()
    }
    &&& after.waiting@.len() == 0
    &&& after.hydrated
    &&& after.scope is Some
    &&& after.scope->0@ == model.active_project@
}

/// Looks at what the daemon has told. `subscription` is what it has sent, where
/// there is a connection; `stored` is what was kept for the open project, where
/// that could be read. Nothing is kept without a store.
pub fn refresh_session_subscription(
    cache: &mut SessionCache,
    model: &Model,
    subscription: Option<Vec<SessionUpdate>>,
    stored: Option<Vec<SessionDerivedState>>,
    store: bool,
) -> (r: SessionLook)
    ensures
        look_taken(
            *old(cache),
            *model,
            listed(subscription),
            listed(stored),
            store,
            *final(cache),
            r,
        ),
{
    let ghost sent_view = listed(subscription);
    let ghost stored_view = listed(stored);
    let same_scope: bool = match &cache.scope {
        Some(scope) => scope.matches(&model.active_project),
        None => false,
    };
    if !same_scope {
        cache.scope = Some(model.active_project.copied());
        cache.hydrated = false;
    }
    let ids: Vec<String> = session_ids(&model.threads);
    let mut updates: Vec<SessionUpdate> = Vec::new();
    std::mem::swap(&mut updates, &mut cache.waiting);
    let connected: bool = subscription.is_some();
    let mut sent: Vec<SessionUpdate> = match subscription {
        Some(sent) => sent,
        None => Vec::new(),
    };
    let ghost mut told_now: Seq<SessionUpdate> = Seq::empty();
    assert(untold(*old(cache), model.active_project) == !cache.hydrated);
    if !cache.hydrated {
        if let Some(states) = stored {
            if connected {
                let told: Ghost<Seq<SessionUpdate>> = add_kept(&mut sent, states);
                proof {
                    told_now = told@;
                }
            } else {
                let told: Ghost<Seq<SessionUpdate>> = add_kept(&mut updates, states);
                proof {
                    told_now = told@;
                }
            }
            assert(told_all(stored_view->0, told_now));
        }
        cache.hydrated = true;
    }
    let ghost head = updates@;
    let ghost tail = sent@;
    updates.append(&mut sent);
    assert(updates@ =~= head + tail);
    assert(!connected ==> head + tail =~= head);
    assert(looked(*old(cache), model.active_project, sent_view, stored_view, updates@));
    let keep: Vec<SessionDerivedState> = if store {
        keep_all(&updates)
    } else {
        Vec::new()
    };
    SessionLook { sessions: ids, updates, keep }
}

/// What was kept of a session is kept once more as it was, when it is told.
pub proof fn law_kept_state_survives(state: SessionDerivedState, update: SessionUpdate)
    requires
        tells(state, update),
    ensures
        kept(update) == state,
{
}

/// After a look, what was kept is not told again while the project stays open.
pub proof fn law_kept_is_told_once(cache: SessionCache, active: ProjectIdentity)
    requires
        cache.hydrated,
        cache.scope is Some,
        cache.scope->0@ == active@,
    ensures
        !untold(cache, active),
{
}

/// However much was kept, no more updates wait than may.
pub proof fn law_waiting_is_bounded(queue: Seq<SessionUpdate>, told: Seq<SessionUpdate>)
    requires
        queue.len() <= MAX_WAITING,
    ensures
        with_kept(queue, told).len() <= MAX_WAITING,
{
}

} // verus!
