//! The running games listed by the status bar's popover.
use vstd::prelude::*;

use crate::seqs::first_index;
use crate::state::instances::{named, InstanceSummaryView};
use crate::state::sessions::is_running_session;
use crate::state::{InstanceStore, InstanceSummary, SessionStore, SessionSummary};

verus! {

/// The instances of the running sessions, in start order; sessions of
/// unknown instances are skipped.
pub open spec fn running_instances_of(sessions: Seq<SessionSummary>, instances: Seq<InstanceSummaryView>) -> Seq<InstanceSummaryView>
    decreases sessions.len(),
{
    if sessions.len() == 0 {
        Seq::empty()
    } else {
        let rest = running_instances_of(sessions.drop_last(), instances);
        match first_index(instances, named(sessions.last().instance@)) {
            Some(k) => rest.push(instances[k]),
            None => rest,
        }
    }
}

/// The instances of the running sessions.
pub fn running_instances<'a>(sessions: &SessionStore, instances: &'a InstanceStore) -> (r: Vec<&'a InstanceSummary>)
    ensures
        r.deep_view() == running_instances_of(sessions@.sessions.filter(is_running_session()), instances@.instances),
{
    let running = sessions.running();
    let ghost seen = running@.map_values(|s: &SessionSummary| *s);
    let mut out: Vec<&InstanceSummary> = Vec::new();
    let mut i: usize = 0;
    while i < running.len()
        invariant
            i <= running.len(),
            seen == running@.map_values(|s: &SessionSummary| *s),
            out.deep_view() == running_instances_of(seen.take(i as int), instances@.instances),
        decreases running.len() - i,
    {
        proof {
            assert(seen.take(i + 1).drop_last() =~= seen.take(i as int));
            assert(seen.take(i + 1).last() == *running@[i as int]);
            crate::seqs::lemma_first_index(instances@.instances, named(running@[i as int].instance@));
        }
        let ghost before = out.deep_view();
        match instances.find(&running[i].instance) {
            Some(instance) => {
                out.push(instance);
                assert(out.deep_view() =~= before.push(instance.deep_view()));
            },
            None => {},
        }
        i += 1;
    }
    assert(seen.take(running.len() as int) =~= seen);
    out
}

/// The popover trigger's label for a number of running sessions.
pub fn running_label(count: usize) -> (r: String)
    ensures
        r@ == "● "@ + crate::text::decimal(count as nat) + " running"@,
{
    let mut out: Vec<char> = Vec::new();
    crate::text::push_str(&mut out, "● ");
    crate::text::push_decimal(&mut out, count as u64);
    crate::text::push_str(&mut out, " running");
    crate::text::string_of(&out)
}

/// The line under a running instance's name: its game version and loader.
pub fn running_line(instance: &InstanceSummary) -> (r: String)
    ensures
        r@ == "MC "@ + instance@.mc_version + " · "@ + crate::state::loader_label(instance@.loader),
{
    let mut out: Vec<char> = Vec::new();
    crate::text::push_str(&mut out, "MC ");
    crate::text::push_str(&mut out, instance.mc_version.as_str());
    crate::text::push_str(&mut out, " · ");
    crate::text::push_str(&mut out, instance.loader.label());
    crate::text::string_of(&out)
}

/// The status bar's count of instances.
pub fn instance_total(count: usize) -> (r: String)
    ensures
        r@ == crate::text::decimal(count as nat) + " instances"@,
{
    let mut out: Vec<char> = Vec::new();
    crate::text::push_decimal(&mut out, count as u64);
    crate::text::push_str(&mut out, " instances");
    crate::text::string_of(&out)
}

} // verus!
