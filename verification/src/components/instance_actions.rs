//! The instance commands of the menus: play, stop, duplicate and delete.
use vstd::prelude::*;

use crate::route::{InstanceRef, Route, RouteView, pushed};
use crate::seqs::first_index;
use crate::state::instances::{launch_recording, named, target};
use crate::state::sessions::{running_of, session_with_id, SessionStoreView};
use crate::state::{AppState, SessionId, SessionSummary};
use crate::text::{decimal, push_decimal, push_str, string_of};

verus! {

/// The id of the session a preview start records: `preview-<instance>-<n>`,
/// `n` being the session store's revision.
pub open spec fn preview_session_id(instance: Seq<char>, revision: u64) -> Seq<char> {
    "preview-"@ + instance + seq!['-'] + decimal(revision as nat)
}

/// Whether the instance has a running session.
pub open spec fn running_in(s: SessionStoreView, instance: crate::route::RefView) -> bool {
    exists|i: int| 0 <= i < s.sessions.len() && #[trigger] s.sessions[i].running && s.sessions[i].instance@ == instance
}

/// Starts a preview session of the instance and records the launch; nothing
/// happens when the instance is unknown or already running. Returns whether
/// a session was started.
/// What starting an instance does to the launcher state: nothing when the
/// instance is unknown or already running; else a preview session is
/// recorded, unless its id is taken, and the launch is counted.
pub open spec fn start_effect(o: AppState, f: AppState, reference: crate::route::RefView, r: bool) -> bool {
    &&& f.navigation == o.navigation
    &&& f.crashes == o.crashes
    &&& f.settings == o.settings
    &&& f.accounts == o.accounts
    &&& f.storages == o.storages
    &&& f.default_storage == o.default_storage
    &&& (first_index(o.instances@.instances, named(reference)) is None || running_in(o.sessions@, reference))
        ==> !r && f.sessions@ == o.sessions@ && f.instances@ == o.instances@
    &&& !(first_index(o.instances@.instances, named(reference)) is None || running_in(o.sessions@, reference)) ==> {
        let id = preview_session_id(reference.id, o.sessions@.revision);
        &&& r == (first_index(o.sessions@.sessions, session_with_id(id)) is None)
        &&& r ==> f.sessions@.sessions.len() == o.sessions@.sessions.len() + 1
            && f.sessions@.sessions.last().id.0@ == id
            && f.sessions@.sessions.last().instance@ == reference
            && f.sessions@.sessions.last().running
            && f.sessions@.sessions.last().started_at@ == "just now"@
            && f.sessions@.sessions.last().exit_code is None
        &&& !r ==> f.sessions@ == o.sessions@
        &&& crate::pages::launch_settings::apply_change(o.instances@, reference, launch_recording()).0 == f.instances@
    }
}

/// What stopping an instance does: its running sessions end with exit code
/// 0, and nothing else changes.
pub open spec fn stop_effect(o: AppState, f: AppState, reference: crate::route::RefView, r: bool) -> bool {
    &&& r == running_in(o.sessions@, reference)
    &&& f.sessions@.sessions.len() == o.sessions@.sessions.len()
    &&& forall|i: int| 0 <= i < o.sessions@.sessions.len() ==> #[trigger] f.sessions@.sessions[i] == if o.sessions@.sessions[i].running
        && o.sessions@.sessions[i].instance@ == reference {
        crate::state::sessions::stopped(o.sessions@.sessions[i], 0)
    } else {
        o.sessions@.sessions[i]
    }
    &&& f.instances == o.instances
    &&& f.navigation == o.navigation
}

pub fn start(state: &mut AppState, reference: &InstanceRef) -> (r: bool)
    requires
        old(state).sessions@.revision < u64::MAX,
        old(state).instances@.revision < u64::MAX,
        target(old(state).instances@, reference@) matches Some(k) ==> old(state).instances@.instances[k].play_count < u32::MAX,
    ensures
        start_effect(*old(state), *final(state), reference@, r),
{
    if state.instances.find(reference).is_none() || state.sessions.is_running(reference) {
        return false;
    }
    let mut id: Vec<char> = Vec::new();
    push_str(&mut id, "preview-");
    push_str(&mut id, reference.instance_id.as_str());
    id.push('-');
    push_decimal(&mut id, state.sessions.revision());
    assert(id@ =~= preview_session_id(reference@.id, old(state).sessions@.revision));
    let session = SessionSummary {
        id: SessionId(string_of(&id)),
        instance: InstanceRef { storage_id: reference.storage_id, instance_id: reference.instance_id.clone() },
        started_at: "just now".to_owned(),
        exit_code: None,
        running: true,
    };
    let started = state.sessions.start(session);
    state.instances.record_launch(reference);
    started
}

/// Stopping an instance leaves none of its sessions running, and playing a
/// running instance stops it.
pub proof fn law_stop_leaves_the_instance_idle(o: AppState, f: AppState, reference: crate::route::RefView, r: bool)
    requires
        stop_effect(o, f, reference, r),
    ensures
        !running_in(f.sessions@, reference),
{
    if running_in(f.sessions@, reference) {
        let i = choose|i: int| 0 <= i < f.sessions@.sessions.len() && #[trigger] f.sessions@.sessions[i].running
            && f.sessions@.sessions[i].instance@ == reference;
        assert(f.sessions@.sessions[i] == if o.sessions@.sessions[i].running && o.sessions@.sessions[i].instance@ == reference {
            crate::state::sessions::stopped(o.sessions@.sessions[i], 0)
        } else {
            o.sessions@.sessions[i]
        });
    }
}

/// Starting an instance that is known and idle leaves it running, when the
/// preview session id is free.
pub proof fn law_start_leaves_the_instance_running(o: AppState, f: AppState, reference: crate::route::RefView)
    requires
        start_effect(o, f, reference, true),
    ensures
        running_in(f.sessions@, reference),
{
    let k = f.sessions@.sessions.len() - 1;
    assert(f.sessions@.sessions[k] == f.sessions@.sessions.last());
    assert(f.sessions@.sessions[k].running && f.sessions@.sessions[k].instance@ == reference);
}

/// Stops the instance's running sessions with exit code 0; returns whether any
/// was running.
pub fn stop(state: &mut AppState, reference: &InstanceRef) -> (r: bool)
    requires
        old(state).sessions@.revision < u64::MAX,
    ensures
        stop_effect(*old(state), *final(state), reference@, r),
{
    state.sessions.stop_instance(reference, 0)
}

/// Stops a running instance, or starts a stopped one. Returns `true` when it
/// was running.
pub fn play(state: &mut AppState, reference: &InstanceRef) -> (r: bool)
    requires
        old(state).sessions@.revision < u64::MAX,
        old(state).instances@.revision < u64::MAX,
        target(old(state).instances@, reference@) matches Some(k) ==> old(state).instances@.instances[k].play_count < u32::MAX,
    ensures
        r == running_in(old(state).sessions@, reference@),
        r ==> stop_effect(*old(state), *final(state), reference@, true),
        !r ==> exists|started: bool| #[trigger] start_effect(*old(state), *final(state), reference@, started),
{
    if state.sessions.is_running(reference) {
        stop(state, reference);
        true
    } else {
        let started = start(state, reference);
        assert(start_effect(*old(state), *state, reference@, started));
        false
    }
}

/// Duplicates the instance and opens the copy; returns the copy.
pub fn duplicate(state: &mut AppState, reference: &InstanceRef) -> (r: Option<InstanceRef>)
    requires
        old(state).instances@.revision < u64::MAX,
        old(state).instances@.next_id < u64::MAX,
    ensures
        r matches Some(copy) ==> final(state).navigation@ == pushed(old(state).navigation@, RouteView::InstanceDetail(copy@)),
        r is None ==> final(state).navigation@ == old(state).navigation@ && final(state).instances@ == old(state).instances@,
        (r is Some) == (target(old(state).instances@, reference@) is Some),
        target(old(state).instances@, reference@) matches Some(k) ==> {
            let id = crate::state::instances::allocated_id("inst"@, (old(state).instances@.next_id + 1) as u64);
            &&& r matches Some(copy) && copy@ == (crate::route::RefView { storage: reference@.storage, id })
            &&& final(state).instances@ == (crate::state::instances::InstanceStoreView {
                instances: old(state).instances@.instances.push(crate::state::instances::duplicated_instance(old(state).instances@.instances[k], id)),
                current_storage: old(state).instances@.current_storage,
                next_id: (old(state).instances@.next_id + 1) as u64,
                revision: (old(state).instances@.revision + 1) as u64,
            })
        },
        final(state).sessions == old(state).sessions,
        final(state).crashes == old(state).crashes,
        final(state).settings == old(state).settings,
        final(state).accounts == old(state).accounts,
{
    let created = state.instances.duplicate(reference);
    match created {
        Some(copy) => {
            let route = Route::InstanceDetail(InstanceRef { storage_id: copy.storage_id, instance_id: copy.instance_id.clone() });
            state.navigation.push(route);
            Some(copy)
        },
        None => None,
    }
}

/// Deletes the instance with its sessions and crash reports, and returns to
/// the instance list.
pub fn delete(state: &mut AppState, reference: &InstanceRef)
    requires
        old(state).instances@.revision < u64::MAX,
        old(state).sessions@.revision < u64::MAX,
        old(state).crashes@.revision < u64::MAX,
    ensures
        final(state).navigation@ == (crate::route::NavigationView { stack: old(state).navigation@.stack, current: RouteView::Instances }),
        final(state).sessions@.sessions == old(state).sessions@.sessions.filter(crate::state::sessions::session_not_of(reference@)),
        final(state).crashes@.reports == old(state).crashes@.reports.filter(crate::state::crash::report_not_of(reference@)),
        old(state).instances@.current_storage == Some(reference@.storage)
            ==> final(state).instances@.instances == old(state).instances@.instances.filter(crate::state::instances::not_named(reference@)),
        old(state).instances@.current_storage != Some(reference@.storage) ==> final(state).instances@ == old(state).instances@,
        final(state).settings == old(state).settings,
        final(state).accounts == old(state).accounts,
        final(state).storages == old(state).storages,
        final(state).default_storage == old(state).default_storage,
{
    proof {
        let insts = old(state).instances@.instances;
        let p = crate::state::instances::not_named(reference@);
        if insts.filter(p).len() == insts.len() {
            crate::seqs::lemma_filter_full_means_all(insts, p);
            crate::seqs::lemma_filter_keeps_all(insts, p);
        }
        let reports = old(state).crashes@.reports;
        let q = crate::state::crash::report_not_of(reference@);
        if reports.filter(q).len() == reports.len() {
            crate::seqs::lemma_filter_full_means_all(reports, q);
            crate::seqs::lemma_filter_keeps_all(reports, q);
        }
    }
    state.instances.remove(reference);
    state.sessions.remove_instance(reference);
    state.crashes.remove_instance(reference);
    state.navigation.replace(Route::Instances);
}

} // verus!
