//! The instance page: its last crash, the counts of its configuration, its
//! Java runtime and its launch button.
use vstd::prelude::*;

use crate::route::{CrashRef, InstanceRef, RefView};
use crate::seqs::first_index;
use crate::state::crash::{report_named, CrashReportView, CrashStoreView};
use crate::state::instances::{java_change, mod_enabled, mutated, InstanceStoreView, InstanceSummaryView, JavaRuntimeSummaryView};
use crate::state::settings::runtime_with_id;
use crate::state::{CrashReport, CrashStore, InstanceStore, InstanceSummary, JavaRuntimeSummary, SettingsStore};
use crate::text::{decimal, push_decimal, push_signed, push_str, signed_decimal, string_of};

verus! {

/// The crash report the instance's last launch left, in the instance's
/// storage, if the store still has it.
pub open spec fn last_crash_of(crashes: CrashStoreView, i: InstanceSummaryView) -> Option<CrashReportView> {
    match i.last_crash_id {
        Some(id) => match first_index(crashes.reports, report_named(RefView { storage: i.storage_id, id })) {
            Some(k) => Some(crashes.reports[k]),
            None => None,
        },
        None => None,
    }
}

/// The crash report of the instance's last launch.
pub fn last_crash<'a>(crashes: &'a CrashStore, instance: &InstanceSummary) -> (r: Option<&'a CrashReport>)
    ensures
        match last_crash_of(crashes@, instance@) {
            Some(c) => r matches Some(found) && found.deep_view() == c,
            None => r is None,
        },
{
    match &instance.last_crash_id {
        Some(id) => crashes.find(&CrashRef::new(instance.storage_id, id.as_str())),
        None => None,
    }
}

/// The banner of a crashed last launch: its title and its detail line.
pub fn crash_banner(report: &CrashReport) -> (r: (String, String))
    ensures
        r.0@ == "Last launch crashed · "@ + report@.when,
        r.1@ == "Exit code "@ + signed_decimal(report@.exit_code as int),
{
    let mut title: Vec<char> = Vec::new();
    push_str(&mut title, "Last launch crashed · ");
    push_str(&mut title, report.when.as_str());
    let mut detail: Vec<char> = Vec::new();
    push_str(&mut detail, "Exit code ");
    push_signed(&mut detail, report.exit_code);
    (string_of(&title), string_of(&detail))
}

/// The counts the configuration tiles show: enabled and total mods, then the
/// resource packs, shader packs and worlds.
pub open spec fn configuration_of(i: InstanceSummaryView) -> Seq<Seq<char>> {
    seq![
        decimal(i.mods.filter(mod_enabled()).len()) + seq!['/'] + decimal(i.mods.len()) + " enabled"@,
        decimal(i.resource_packs.len()) + " installed"@,
        decimal(i.shader_packs.len()) + " installed"@,
        decimal(i.worlds.len()) + " saved"@,
    ]
}

/// The counts the configuration tiles show.
pub fn configuration_lines(instance: &InstanceSummary) -> (r: Vec<String>)
    ensures
        r.deep_view() == configuration_of(instance@),
{
    let mut mods: Vec<char> = Vec::new();
    push_decimal(&mut mods, instance.enabled_mods() as u64);
    mods.push('/');
    push_decimal(&mut mods, instance.mods.len() as u64);
    push_str(&mut mods, " enabled");
    let mut packs: Vec<char> = Vec::new();
    push_decimal(&mut packs, instance.resource_packs.len() as u64);
    push_str(&mut packs, " installed");
    let mut shaders: Vec<char> = Vec::new();
    push_decimal(&mut shaders, instance.shader_packs.len() as u64);
    push_str(&mut shaders, " installed");
    let mut worlds: Vec<char> = Vec::new();
    push_decimal(&mut worlds, instance.worlds.len() as u64);
    push_str(&mut worlds, " saved");
    assert(instance@.mods.len() == instance.mods@.len());
    assert(instance@.resource_packs.len() == instance.resource_packs@.len());
    assert(instance@.shader_packs.len() == instance.shader_packs@.len());
    assert(instance@.worlds.len() == instance.worlds@.len());
    assert(mods@ =~= configuration_of(instance@)[0]);
    assert(packs@ =~= configuration_of(instance@)[1]);
    assert(shaders@ =~= configuration_of(instance@)[2]);
    assert(worlds@ =~= configuration_of(instance@)[3]);
    let mut out: Vec<String> = Vec::new();
    out.push(string_of(&mods));
    out.push(string_of(&packs));
    out.push(string_of(&shaders));
    out.push(string_of(&worlds));
    assert(out.deep_view() =~= configuration_of(instance@));
    out
}

/// A runtime as the Java runtime picker lists it.
pub open spec fn runtime_choice_of(rt: JavaRuntimeSummaryView) -> Seq<char> {
    rt.name + " (Java "@ + decimal(rt.version as nat) + ")"@ + (if rt.managed { " · Managed"@ } else { Seq::empty() })
}

/// A runtime as the Java runtime picker lists it.
pub fn runtime_choice(runtime: &JavaRuntimeSummary) -> (r: String)
    ensures
        r@ == runtime_choice_of(runtime.deep_view()),
{
    let mut out: Vec<char> = Vec::new();
    push_str(&mut out, runtime.name.as_str());
    push_str(&mut out, " (Java ");
    push_decimal(&mut out, runtime.version as u64);
    push_str(&mut out, ")");
    if runtime.managed {
        push_str(&mut out, " · Managed");
    }
    string_of(&out)
}

/// The note under the picker: the chosen runtime's executable, or a hint.
pub fn runtime_note(settings: &SettingsStore, instance: &InstanceSummary) -> (r: String)
    ensures
        r@ == match first_index(settings@.runtimes, runtime_with_id(instance@.java_runtime_id)) {
            Some(k) => settings@.runtimes[k].path,
            None => "Select a Java runtime in Settings."@,
        },
{
    match settings.runtime(instance.java_runtime_id.as_str()) {
        Some(runtime) => runtime.path.clone(),
        None => "Select a Java runtime in Settings.".to_owned(),
    }
}

/// Moves the instance to the runtime picked by id, with that runtime's Java
/// version; an unknown id changes nothing. Returns whether the instance
/// changed.
pub fn choose_runtime(instances: &mut InstanceStore, settings: &SettingsStore, reference: &InstanceRef, runtime_id: &str) -> (r: bool)
    requires
        old(instances)@.revision < u64::MAX,
    ensures
        match first_index(settings@.runtimes, runtime_with_id(runtime_id@)) {
            Some(k) => mutated(old(instances)@, final(instances)@, r, reference@, java_change(runtime_id@, settings@.runtimes[k].version)),
            None => !r && final(instances)@ == old(instances)@,
        },
{
    match settings.runtime(runtime_id) {
        Some(runtime) => instances.set_java_runtime(reference, runtime_id, runtime.version),
        None => false,
    }
}

/// The launch button's label: `Play` or `Stop`, then the instance name.
pub fn launch_label(running: bool, name: &str) -> (r: String)
    ensures
        r@ == (if running { "Stop "@ } else { "Play "@ }) + name@,
{
    let mut out: Vec<char> = Vec::new();
    push_str(&mut out, if running { "Stop " } else { "Play " });
    push_str(&mut out, name);
    string_of(&out)
}

} // verus!
