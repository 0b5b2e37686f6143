//! The settings page: how its controls read and write the preferences.
use vstd::prelude::*;

use crate::state::instances::{is_aphanite, InstanceSummaryView};
use crate::state::{InstanceStore, InstanceSummary, ProcessPriority};
use crate::text::{parse_u32, parsed_u32, str_eq};

verus! {

/// The priority a picked label stands for.
pub fn priority_named(label: &str) -> (r: Option<ProcessPriority>)
    ensures
        r == (if label@ == "Low"@ {
            Some(ProcessPriority::Low)
        } else if label@ == "Normal"@ {
            Some(ProcessPriority::Normal)
        } else if label@ == "High"@ {
            Some(ProcessPriority::High)
        } else {
            None
        }),
{
    if str_eq(label, ProcessPriority::Low.label()) {
        Some(ProcessPriority::Low)
    } else if str_eq(label, ProcessPriority::Normal.label()) {
        Some(ProcessPriority::Normal)
    } else if str_eq(label, ProcessPriority::High.label()) {
        Some(ProcessPriority::High)
    } else {
        None
    }
}

/// The pixel size that anchors the interface's text scale for a font-size key.
pub fn font_size_px(key: &str) -> (r: u32)
    ensures
        r == (if key@ == "sm"@ { 14u32 } else if key@ == "lg"@ { 18u32 } else { 16u32 }),
{
    if str_eq(key, "sm") {
        14
    } else if str_eq(key, "lg") {
        18
    } else {
        16
    }
}

/// The connection timeout a typed text sets: whole seconds from 1 to 600;
/// anything else leaves the setting as it was.
pub fn connection_timeout(typed: &str) -> (r: Option<u32>)
    ensures
        r == match parsed_u32(typed@) {
            Some(v) => if 1 <= v <= 600 { Some(v) } else { None },
            None => None,
        },
{
    match parse_u32(typed) {
        Some(v) => if 1 <= v && v <= 600 { Some(v) } else { None },
        None => None,
    }
}

/// Whether an Aphanite instance has been played.
pub open spec fn played_aphanite() -> spec_fn(InstanceSummaryView) -> bool {
    |i: InstanceSummaryView| i.aphanite && i.last_played is Some
}

/// The Aphanite figures: how many configurations the server offers and how
/// many of them have been played here.
pub fn aphanite_counts(store: &InstanceStore) -> (r: (usize, usize))
    ensures
        r.0 == store@.instances.filter(is_aphanite()).len(),
        r.1 == store@.instances.filter(played_aphanite()).len(),
{
    let all = store.all();
    let configurations = crate::seqs::count_by(
        all,
        |i: &InstanceSummary| -> (b: bool) ensures b == i.deep_view().aphanite { i.aphanite },
        Ghost(is_aphanite()),
    );
    let installed = crate::seqs::count_by(
        all,
        |i: &InstanceSummary| -> (b: bool) ensures b == (i.deep_view().aphanite && i.deep_view().last_played is Some) { i.aphanite && i.last_played.is_some() },
        Ghost(played_aphanite()),
    );
    (configurations, installed)
}

} // verus!
