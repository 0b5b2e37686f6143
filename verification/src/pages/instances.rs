//! The instance list page.
use vstd::prelude::*;

use crate::pages::widgets::{search_key, search_key_of};
use crate::state::instances::InstanceSummaryView;
use crate::state::{loader_label, InstanceStore, InstanceSummary};
use crate::text::{contains, contains_seq, decimal, lowercased, push_decimal, push_str, str_eq, string_of, to_lowercase};

verus! {

/// The loader filter's choices.
pub const LOADER_FILTERS: [&'static str; 5] = ["All loaders", "Vanilla", "Fabric", "NeoForge", "Forge"];

/// Whether an instance is listed for a lower-cased search and a loader filter.
pub open spec fn instance_shown(i: InstanceSummaryView, search: Seq<char>, loader: Seq<char>) -> bool {
    &&& (search.len() == 0 || contains_seq(lowercased(i.name), search))
    &&& (loader == "All loaders"@ || loader_label(i.loader) == loader)
}

/// Whether an instance is listed for a lower-cased search and a loader filter.
pub fn instance_is_shown(instance: &InstanceSummary, search: &str, loader: &str) -> (r: bool)
    ensures
        r == instance_shown(instance@, search@, loader@),
{
    let found = if search.is_empty() {
        true
    } else {
        let name = to_lowercase(instance.name.as_str());
        contains(name.as_str(), search)
    };
    found && (str_eq(loader, "All loaders") || str_eq(instance.loader.label(), loader))
}

/// The instances the page lists, in order, for the search box's text
/// (trimmed and lower-cased before it is matched) and a loader filter.
pub fn shown_instances<'a>(store: &'a InstanceStore, query: &str, loader: &str) -> (r: Vec<&'a InstanceSummary>)
    ensures
        r.deep_view() == store@.instances.filter(|i: InstanceSummaryView| instance_shown(i, search_key_of(query@), loader@)),
{
    let key = search_key(query);
    let search = key.as_str();
    let all = store.all();
    let ghost p = |i: InstanceSummaryView| instance_shown(i, search@, loader@);
    let mut out: Vec<&InstanceSummary> = Vec::new();
    let mut k: usize = 0;
    while k < all.len()
        invariant
            k <= all.len(),
            all.deep_view() == store@.instances,
            p == (|i: InstanceSummaryView| instance_shown(i, search@, loader@)),
            out.deep_view() == all.deep_view().take(k as int).filter(p),
        decreases all.len() - k,
    {
        let ghost before = out.deep_view();
        proof {
            assert(all.deep_view().take(k + 1).drop_last() =~= all.deep_view().take(k as int));
            reveal(Seq::filter);
        }
        if instance_is_shown(&all[k], search, loader) {
            out.push(&all[k]);
            assert(out.deep_view() =~= before.push(all.deep_view()[k as int]));
        }
        k += 1;
    }
    assert(all.deep_view().take(all.len() as int) =~= all.deep_view());
    out
}

/// The empty state when nothing is listed: title and explanation, depending
/// on whether the store holds any instance.
pub fn empty_state(total: usize) -> (r: (&'static str, &'static str))
    ensures
        r.0@ == (if total == 0 { "No instances found"@ } else { "No matching instances"@ }),
        r.1@ == (if total == 0 {
            "Create your first instance to get started."@
        } else {
            "Try a different search or loader filter."@
        }),
{
    if total == 0 {
        ("No instances found", "Create your first instance to get started.")
    } else {
        ("No matching instances", "Try a different search or loader filter.")
    }
}

/// The line under an instance card's name: `Loader · MC version · N launches`.
pub open spec fn card_line_of(i: InstanceSummaryView) -> Seq<char> {
    loader_label(i.loader) + " · MC "@ + i.mc_version + " · "@ + decimal(i.play_count as nat) + " launches"@
}

/// The line under an instance card's name.
pub fn card_line(instance: &InstanceSummary) -> (r: String)
    ensures
        r@ == card_line_of(instance@),
{
    let mut out: Vec<char> = Vec::new();
    push_str(&mut out, instance.loader.label());
    push_str(&mut out, " · MC ");
    push_str(&mut out, instance.mc_version.as_str());
    push_str(&mut out, " · ");
    push_decimal(&mut out, instance.play_count as u64);
    push_str(&mut out, " launches");
    assert(out@ =~= card_line_of(instance@));
    string_of(&out)
}

/// The play button's label for a running or stopped instance, and the
/// matching menu entry.
pub fn play_labels(running: bool) -> (r: (&'static str, &'static str))
    ensures
        r.0@ == (if running { "Stop instance"@ } else { "Play instance"@ }),
        r.1@ == (if running { "Stop"@ } else { "Launch"@ }),
{
    if running {
        ("Stop instance", "Stop")
    } else {
        ("Play instance", "Launch")
    }
}

} // verus!
