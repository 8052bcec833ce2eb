//! Which parts of the surroundings a frame reads.

use crate::external_snapshot::{daemon_projects_refresh_due, due, skills_rescan_due};
use crate::model::{slot, Model, PanelState};
use crate::prefs::{later, OWN_CHANGE_MILLIS};
use crate::text::{empty_text, texts};
use vstd::prelude::*;

verus! {

/// When the parts that are read now and then were read last.
#[derive(Debug, Clone, Copy, PartialEq, Eq, Structural)]
pub struct FrameTimers {
    pub skills: Option<u64>,
    pub daemon_projects: Option<u64>,
}

/// What is known at the start of a frame: the threads of the events that came
/// over the bridge, whether the settings files changed, until when such changes
/// are the panel's own, whether the host told of projects, and the time.
#[derive(Debug, Clone, PartialEq, Eq)]
pub struct FrameSignals {
    pub event_threads: Vec<usize>,
    pub settings_changed: bool,
    pub ignore_settings_until: Option<u64>,
    pub projects_told: bool,
    pub now: u64,
}

/// What a frame reads, and under which ids its events go.
#[derive(Debug, Clone, PartialEq, Eq)]
pub struct FramePlan {
    pub bridge_events_pending: bool,
    pub bridge_event_thread_ids: Vec<String>,
    pub settings_reload_pending: bool,
    pub collect_preferences: bool,
    pub collect_gateway_catalog: bool,
    pub collect_skills: bool,
    pub daemon_projects_refresh_due: bool,
}

/// The id under which an event of a thread goes: that of the thread's session,
/// else the durable id that it has before there is a session.
pub open spec fn event_id(panel: PanelState, index: int) -> Seq<char> {
    match slot(panel, index) {
        Some(slot) => match slot.binding {
            Some(binding) => binding.thread_id@,
            None => match slot.thread_id {
                Some(id) => id@,
                None => Seq::empty(),
            },
        },
        None => Seq::empty(),
    }
}

/// Whether the settings are to be read because their files changed, and not by
/// the panel's own hand.
pub open spec fn reload(signals: FrameSignals) -> bool {
    signals.settings_changed && !(signals.ignore_settings_until is Some && signals.now
        < signals.ignore_settings_until->0)
}

/// Whether the catalogs of the gateway are wanted: the settings show them, and
/// the choice of a provider needs them.
pub open spec fn wants_catalog(model: Model) -> bool {
    model.settings_open || model.available_profiles@.len() == 0 || model.agent_catalog@.len() == 0
}

fn event_thread_id(panel: &PanelState, index: usize) -> (r: String)
    ensures
        r@ == event_id(*panel, index as int),
{
    match panel.bridge_thread(index) {
        Some(slot) => match &slot.binding {
            Some(binding) => binding.thread_id.clone(),
            None => match &slot.thread_id {
                Some(id) => id.clone(),
                None => empty_text(),
            },
        },
        None => empty_text(),
    }
}

/// Whether `plan` is what a frame reads, after which the timers stand at `after`.
/// The skills are read while the settings are open, at most once in a second;
/// the projects that the host has open, at most once in three seconds and
/// whenever the host told of them.
pub open spec fn frame_planned(
    panel: PanelState,
    signals: FrameSignals,
    before: FrameTimers,
    after: FrameTimers,
    plan: FramePlan,
) -> bool {
    &&& plan.bridge_events_pending == (signals.event_threads@.len() > 0)
    &&& texts(plan.bridge_event_thread_ids@) == signals.event_threads@.map_values(
        |index: usize| event_id(panel, index as int),
    )
    &&& plan.settings_reload_pending == reload(signals)
    &&& plan.collect_preferences == (panel.model.settings_open || reload(signals))
    &&& plan.collect_gateway_catalog == wants_catalog(panel.model)
    &&& plan.collect_skills == (panel.model.settings_open && due(before.skills, signals.now, 1000))
    &&& plan.daemon_projects_refresh_due == (due(before.daemon_projects, signals.now, 3000)
        || signals.projects_told)
    &&& after.skills == if plan.collect_skills {
        Some(signals.now)
    } else {
        before.skills
    }
    &&& after.daemon_projects == if due(before.daemon_projects, signals.now, 3000) {
        Some(signals.now)
    } else {
        before.daemon_projects
    }
}

/// Says what a frame reads. The skills are read while the settings are open, at
/// most once in a second; the projects that the host has open, at most once in
/// three seconds and whenever the host told of them.
pub fn collect_frame_input(
    panel: &PanelState,
    signals: &FrameSignals,
    timers: &mut FrameTimers,
) -> (r: FramePlan)
    ensures
        frame_planned(*panel, *signals, *old(timers), *final(timers), r),
{
    let mut ids: Vec<String> = Vec::new();
    let mut i: usize = 0;
    while i < signals.event_threads.len()
        invariant
            i <= signals.event_threads@.len(),
            ids@.len() == i,
            forall|k: int|
                0 <= k < i ==> (#[trigger] ids@[k])@ == event_id(
                    *panel,
                    signals.event_threads@[k] as int,
                ),
        decreases signals.event_threads@.len() - i,
    {
        ids.push(event_thread_id(panel, signals.event_threads[i]));
        i += 1;
    }
    assert(texts(ids@) =~= signals.event_threads@.map_values(
        |index: usize| event_id(*panel, index as int),
    ));
    let ignored: bool = match signals.ignore_settings_until {
        Some(until) => signals.now < until,
        None => false,
    };
    let reload_pending: bool = signals.settings_changed && !ignored;
    let open: bool = panel.model.settings_open;
    let mut skills: bool = false;
    if open {
        skills = skills_rescan_due(&mut timers.skills, signals.now);
    }
    let projects: bool = daemon_projects_refresh_due(&mut timers.daemon_projects, signals.now);
    FramePlan {
        bridge_events_pending: signals.event_threads.len() > 0,
        bridge_event_thread_ids: ids,
        settings_reload_pending: reload_pending,
        collect_preferences: open || reload_pending,
        collect_gateway_catalog: open || panel.model.available_profiles.len() == 0
            || panel.model.agent_catalog.len() == 0,
        collect_skills: skills,
        daemon_projects_refresh_due: projects || signals.projects_told,
    }
}

/// An event of a thread goes under the same id before and after the thread's
/// session was opened under its durable id.
pub proof fn law_event_id_outlives_opening(before: PanelState, after: PanelState, index: int)
    requires
        slot(before, index) is Some,
        slot(after, index) is Some,
        slot(before, index)->0.binding is None,
        slot(before, index)->0.thread_id is Some,
        slot(after, index)->0.binding is Some,
        slot(after, index)->0.binding->0.thread_id@ == slot(before, index)->0.thread_id->0@,
    ensures
        event_id(before, index) == event_id(after, index),
{
}

/// What the panel itself saved is not read again: for a while after a document
/// of settings was written, a change of the settings is passed over.
pub proof fn law_own_change_is_not_reloaded(saved_at: u64, signals: FrameSignals)
    requires
        signals.ignore_settings_until == Some(later(saved_at, OWN_CHANGE_MILLIS)),
        signals.now < saved_at + OWN_CHANGE_MILLIS,
        signals.now < u64::MAX,
    ensures
        !reload(signals),
{
}

} // verus!
