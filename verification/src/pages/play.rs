//! The home page: launch controls and the launcher overview.
use vstd::prelude::*;

use crate::seqs::first_index;
use crate::state::accounts::AccountSummaryView;
use crate::state::instances::{mod_enabled, InstanceSummaryView};
use crate::state::{loader_label, AccountSummary, InstanceStore, InstanceSummary};
use crate::text::{decimal, push_decimal, push_str, str_eq, string_of};

verus! {

/// The instance the page recommends: the one named `Old Faithful`, or else
/// the first.
pub open spec fn recommended_of(instances: Seq<InstanceSummaryView>) -> Option<int> {
    match first_index(instances, |i: InstanceSummaryView| i.name == "Old Faithful"@) {
        Some(k) => Some(k),
        None => if instances.len() > 0 { Some(0) } else { None },
    }
}

/// The instance the page recommends.
pub fn recommended(store: &InstanceStore) -> (r: Option<&InstanceSummary>)
    ensures
        match recommended_of(store@.instances) {
            Some(k) => r matches Some(i) && i@ == store@.instances[k],
            None => r is None,
        },
{
    let all = store.all();
    let ghost p = |i: InstanceSummaryView| i.name == "Old Faithful"@;
    proof {
        crate::seqs::lemma_first_index(store@.instances, p);
    }
    let mut k: usize = 0;
    while k < all.len()
        invariant
            k <= all.len(),
            all.deep_view() == store@.instances,
            p == (|i: InstanceSummaryView| i.name == "Old Faithful"@),
            forall|j: int| 0 <= j < k ==> !p(#[trigger] store@.instances[j]),
        decreases all.len() - k,
    {
        if str_eq(all[k].name.as_str(), "Old Faithful") {
            proof {
                crate::seqs::lemma_first_index(store@.instances, p);
                assert(p(store@.instances[k as int]));
                let j = first_index(store@.instances, p)->0;
                if j < k {
                    assert(!p(store@.instances[j]));
                }
            }
            return Some(&all[k]);
        }
        k += 1;
    }
    if all.len() > 0 { Some(&all[0]) } else { None }
}

/// The greeting for the hour of the day (0 to 23).
pub fn greeting(hour: u32) -> (r: &'static str)
    ensures
        r@ == (if 5 <= hour < 12 {
            "Good morning."@
        } else if 12 <= hour < 18 {
            "Good afternoon."@
        } else if 18 <= hour < 22 {
            "Good evening."@
        } else {
            "Welcome back."@
        }),
{
    if 5 <= hour && hour < 12 {
        "Good morning."
    } else if 12 <= hour && hour < 18 {
        "Good afternoon."
    } else if 18 <= hour && hour < 22 {
        "Good evening."
    } else {
        "Welcome back."
    }
}

/// `N instance` or `N instances`.
pub open spec fn instance_count_of(n: nat) -> Seq<char> {
    decimal(n) + " instance"@ + (if n == 1 { Seq::<char>::empty() } else { seq!['s'] })
}

/// `N instance` or `N instances`.
pub fn instance_count(n: usize) -> (r: String)
    ensures
        r@ == instance_count_of(n as nat),
{
    let mut out: Vec<char> = Vec::new();
    push_decimal(&mut out, n as u64);
    push_str(&mut out, " instance");
    if n != 1 {
        out.push('s');
    }
    assert(out@ =~= instance_count_of(n as nat));
    string_of(&out)
}

/// The account button's label: the active account's name, or `Offline`.
pub fn account_label(active: Option<&AccountSummary>) -> (r: String)
    ensures
        r@ == match active {
            Some(a) => a@.username,
            None => "Offline"@,
        },
{
    match active {
        Some(a) => a.username.clone(),
        None => "Offline".to_owned(),
    }
}

/// The line under a card's name: `MC version · Loader`, then ` · last played`
/// when it has been played.
pub open spec fn card_line_of(i: InstanceSummaryView) -> Seq<char> {
    "MC "@ + i.mc_version + " · "@ + loader_label(i.loader) + match i.last_played {
        Some(last) => " · "@ + last,
        None => Seq::empty(),
    }
}

/// The line under a card's name.
pub fn card_line(instance: &InstanceSummary) -> (r: String)
    ensures
        r@ == card_line_of(instance@),
{
    let mut out: Vec<char> = Vec::new();
    push_str(&mut out, "MC ");
    push_str(&mut out, instance.mc_version.as_str());
    push_str(&mut out, " · ");
    push_str(&mut out, instance.loader.label());
    if let Some(last) = &instance.last_played {
        push_str(&mut out, " · ");
        push_str(&mut out, last.as_str());
    }
    assert(out@ =~= card_line_of(instance@));
    string_of(&out)
}

/// The recommended instance's figures:
/// `N mods    N packs    N worlds    Java V`.
pub open spec fn stats_line_of(i: InstanceSummaryView) -> Seq<char> {
    decimal(i.mods.filter(mod_enabled()).len()) + " mods    "@ + decimal(i.resource_packs.len()) + " packs    "@
        + decimal(i.worlds.len()) + " worlds    Java "@ + i.java
}

/// The recommended instance's figures.
pub fn stats_line(instance: &InstanceSummary) -> (r: String)
    ensures
        r@ == stats_line_of(instance@),
{
    let mut out: Vec<char> = Vec::new();
    push_decimal(&mut out, instance.enabled_mods() as u64);
    push_str(&mut out, " mods    ");
    push_decimal(&mut out, instance.resource_packs.len() as u64);
    push_str(&mut out, " packs    ");
    push_decimal(&mut out, instance.worlds.len() as u64);
    push_str(&mut out, " worlds    Java ");
    push_str(&mut out, instance.java.as_str());
    assert(out@ =~= stats_line_of(instance@));
    string_of(&out)
}

} // verus!
