//! The Aphanite page: the configurations that the connected server provides
//! and whether each one is installed (the figures come from
//! `settings::aphanite_counts`).
use vstd::prelude::*;

use crate::state::instances::{mod_enabled, InstanceSummaryView};
use crate::state::{loader_label, InstanceSummary};
use crate::text::{contains, contains_seq, decimal, push_decimal, push_str, string_of};

verus! {

/// The host of the launcher's own Aphanite server.
pub open spec fn home_host() -> Seq<char> {
    "aphanite.enita.cn"@
}

/// What the page calls the connected server: the home server by its name,
/// any other by its address.
pub open spec fn server_label_of(server: Seq<char>) -> Seq<char> {
    if contains_seq(server, home_host()) {
        "Enita’s Aphanite Server"@
    } else {
        server
    }
}

/// What the page calls the connected server.
pub fn server_label(server: &str) -> (r: String)
    ensures
        r@ == server_label_of(server@),
{
    if contains(server, "aphanite.enita.cn") {
        "Enita’s Aphanite Server".to_owned()
    } else {
        server.to_owned()
    }
}

/// `N configurations, K installed`.
pub open spec fn summary_line_of(total: nat, installed: nat) -> Seq<char> {
    decimal(total) + " configurations, "@ + decimal(installed) + " installed"@
}

/// `N configurations, K installed`.
pub fn summary_line(total: usize, installed: usize) -> (r: String)
    ensures
        r@ == summary_line_of(total as nat, installed as nat),
{
    let mut out: Vec<char> = Vec::new();
    push_decimal(&mut out, total as u64);
    push_str(&mut out, " configurations, ");
    push_decimal(&mut out, installed as u64);
    push_str(&mut out, " installed");
    assert(out@ =~= summary_line_of(total as nat, installed as nat));
    string_of(&out)
}

/// The line under a configuration's name: `Loader · MC version · N mods`,
/// counting the enabled mods.
pub open spec fn configuration_line_of(i: InstanceSummaryView) -> Seq<char> {
    loader_label(i.loader) + " · MC "@ + i.mc_version + " · "@ + decimal(i.mods.filter(mod_enabled()).len())
        + " mods"@
}

/// The line under a configuration's name.
pub fn configuration_line(instance: &InstanceSummary) -> (r: String)
    ensures
        r@ == configuration_line_of(instance@),
{
    let mut out: Vec<char> = Vec::new();
    push_str(&mut out, instance.loader.label());
    push_str(&mut out, " · MC ");
    push_str(&mut out, instance.mc_version.as_str());
    push_str(&mut out, " · ");
    push_decimal(&mut out, instance.enabled_mods() as u64);
    push_str(&mut out, " mods");
    assert(out@ =~= configuration_line_of(instance@));
    string_of(&out)
}

/// The badge on a configuration: `Installed` once it has been played.
pub fn install_badge(instance: &InstanceSummary) -> (r: &'static str)
    ensures
        r@ == (if instance@.last_played is Some { "Installed"@ } else { "Not installed"@ }),
{
    if instance.last_played.is_some() {
        "Installed"
    } else {
        "Not installed"
    }
}

/// The empty state, shown only when the server provides no configuration:
/// title and explanation.
pub fn empty_state(total: usize) -> (r: Option<(&'static str, &'static str)>)
    ensures
        total == 0 <==> r is Some,
        r matches Some(m) ==> m.0@ == "No Aphanite configurations"@
            && m.1@ == "Connect a server in Settings to discover modpack configurations."@,
{
    if total == 0 {
        Some(("No Aphanite configurations", "Connect a server in Settings to discover modpack configurations."))
    } else {
        None
    }
}

} // verus!
