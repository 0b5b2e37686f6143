//! The crash page: the actions its findings offer, the evidence they point
//! at, and the portable report it prepares.
use vstd::prelude::*;

use crate::pages::launch_settings::apply_change;
use crate::route::RefView;
use crate::seqs::first_index;
use crate::state::crash::{
    joined, output_of, redacted, CrashEnvironmentView, CrashFindingView, CrashReportView,
};
use crate::state::instances::{
    mod_enabled_change, named, override_change, target, InstanceStoreView, InstanceSummaryView, ModSummaryView,
};
use crate::state::launch::LaunchValueView;
use crate::state::{
    loader_label, redact, CrashFinding, CrashReport, CrashSource, InstanceStore, InstanceSummary,
    LaunchField, LaunchValue, ModSummary,
};
use crate::text::{decimal, push_decimal, push_signed, push_str, signed_decimal, string_of};

verus! {

/// Who a prepared report is written for.
#[derive(Clone, Copy, Debug, PartialEq, Eq, Structural)]
pub enum ReportFormat {
    /// A request to an assistant for help with the crash.
    Ai,
    /// A post for a forum or a server owner.
    Post,
}

/// The opening paragraph of a prepared report.
pub open spec fn intro_of(format: ReportFormat) -> Seq<char> {
    match format {
        ReportFormat::Ai => "My Minecraft game crashed while using Phanerite. Help me identify the likely cause from the captured output and environment. Explain the evidence and where to find any additional information you need."@,
        ReportFormat::Post => "Minecraft crash report captured by Phanerite."@,
    }
}

/// A finding as a report line: `- title (rule): explanation`.
pub open spec fn finding_line_of(f: CrashFindingView) -> Seq<char> {
    "- "@ + f.title + " ("@ + f.rule + "): "@ + f.explanation
}

/// The findings section of a report.
pub open spec fn findings_text(findings: Seq<CrashFindingView>) -> Seq<char> {
    if findings.len() == 0 {
        "- No local crash signature matched."@
    } else {
        joined(findings.map_values(|f: CrashFindingView| finding_line_of(f)), "\n"@)
    }
}

/// An enabled mod as a report line: `- name version`.
pub open spec fn mod_line_of(m: (Seq<char>, Seq<char>)) -> Seq<char> {
    "- "@ + m.0 + " "@ + m.1
}

/// The enabled-mods section of a report.
pub open spec fn mods_text(mods: Seq<(Seq<char>, Seq<char>)>) -> Seq<char> {
    if mods.len() == 0 {
        "None"@
    } else {
        joined(mods.map_values(|m: (Seq<char>, Seq<char>)| mod_line_of(m)), "\n"@)
    }
}

/// The overridden launch settings, comma separated, or `None`.
pub open spec fn overrides_text(overrides: Seq<Seq<char>>) -> Seq<char> {
    if overrides.len() == 0 {
        "None"@
    } else {
        joined(overrides, ", "@)
    }
}

/// The environment section of a report.
pub open spec fn environment_text(e: CrashEnvironmentView) -> Seq<char> {
    runtime_text(e) + setup_text(e)
}

/// The environment's first lines: the game, its loader and the Java runtime.
pub open spec fn runtime_text(e: CrashEnvironmentView) -> Seq<char> {
    "\n\n## Environment\nMinecraft "@ + e.mc_version + " · "@ + loader_label(e.loader) + " "@ + e.loader_version
        + "\nJava "@ + decimal(e.java_version as nat) + " ("@ + e.java_name + ")"@
        + "\nJava path: "@ + e.java_path
}

/// The environment's remaining lines: memory, system, overrides and mods.
pub open spec fn setup_text(e: CrashEnvironmentView) -> Seq<char> {
    "\nMemory "@ + decimal(e.memory as nat) + " GB · "@ + e.os + " · "@ + e.gpu
        + "\nOverridden launch settings: "@ + overrides_text(e.active_overrides)
        + "\n\n## Enabled mods ("@ + decimal(e.enabled_mods.len()) + ")\n"@ + mods_text(e.enabled_mods)
}

/// The report document before redaction.
pub open spec fn report_document(r: CrashReportView, name: Seq<char>, format: ReportFormat) -> Seq<char> {
    intro_of(format) + "\n\nInstance: "@ + name + "\nTime: "@ + r.when + "\nExit code: "@ + signed_decimal(r.exit_code as int)
        + "\n\n## Local crash-signature matches\n"@ + findings_text(r.findings)
        + environment_text(r.environment)
        + "\n\n## "@ + (if r.lines is Some { "Crash report"@ } else { "Process output"@ })
        + "\n\n~~~text\n"@ + joined(output_of(r), seq!['\n']) + "\n~~~\n"@
}

fn findings_section(findings: &Vec<CrashFinding>) -> (r: String)
    ensures
        r@ == findings_text(findings.deep_view()),
{
    if findings.len() == 0 {
        return "- No local crash signature matched.".to_owned();
    }
    let mut lines: Vec<String> = Vec::new();
    let mut i: usize = 0;
    while i < findings.len()
        invariant
            i <= findings.len(),
            lines.deep_view() == findings.deep_view().take(i as int).map_values(|f: CrashFindingView| finding_line_of(f)),
        decreases findings.len() - i,
    {
        let f = &findings[i];
        let mut out: Vec<char> = Vec::new();
        push_str(&mut out, "- ");
        push_str(&mut out, f.title.as_str());
        push_str(&mut out, " (");
        push_str(&mut out, f.rule.as_str());
        push_str(&mut out, "): ");
        push_str(&mut out, f.explanation.as_str());
        assert(out@ =~= finding_line_of(findings.deep_view()[i as int]));
        let line = string_of(&out);
        let ghost prev = lines.deep_view();
        lines.push(line);
        assert(lines.deep_view() =~= prev.push(finding_line_of(findings.deep_view()[i as int])));
        assert(findings.deep_view().take(i + 1) =~= findings.deep_view().take(i as int).push(findings.deep_view()[i as int]));
        assert(lines.deep_view() =~= findings.deep_view().take(i + 1).map_values(|f: CrashFindingView| finding_line_of(f)));
        i += 1;
    }
    assert(findings.deep_view().take(findings.len() as int) =~= findings.deep_view());
    crate::state::crash::join(lines.as_slice(), "\n")
}

fn mods_section(mods: &Vec<(String, String)>) -> (r: String)
    ensures
        r@ == mods_text(mods.deep_view()),
{
    if mods.len() == 0 {
        return "None".to_owned();
    }
    let mut lines: Vec<String> = Vec::new();
    let mut i: usize = 0;
    while i < mods.len()
        invariant
            i <= mods.len(),
            lines.deep_view() == mods.deep_view().take(i as int).map_values(|m: (Seq<char>, Seq<char>)| mod_line_of(m)),
        decreases mods.len() - i,
    {
        let m = &mods[i];
        let mut out: Vec<char> = Vec::new();
        push_str(&mut out, "- ");
        push_str(&mut out, m.0.as_str());
        push_str(&mut out, " ");
        push_str(&mut out, m.1.as_str());
        assert(out@ =~= mod_line_of(mods.deep_view()[i as int]));
        let line = string_of(&out);
        let ghost prev = lines.deep_view();
        lines.push(line);
        assert(lines.deep_view() =~= prev.push(mod_line_of(mods.deep_view()[i as int])));
        assert(mods.deep_view().take(i + 1) =~= mods.deep_view().take(i as int).push(mods.deep_view()[i as int]));
        assert(lines.deep_view() =~= mods.deep_view().take(i + 1).map_values(|m: (Seq<char>, Seq<char>)| mod_line_of(m)));
        i += 1;
    }
    assert(mods.deep_view().take(mods.len() as int) =~= mods.deep_view());
    crate::state::crash::join(lines.as_slice(), "\n")
}

fn runtime_section(out: &mut Vec<char>, report: &CrashReport)
    ensures
        final(out)@ == old(out)@ + runtime_text(report@.environment),
{
    let e = &report.environment;
    push_str(out, "\n\n## Environment\nMinecraft ");
    push_str(out, e.mc_version.as_str());
    push_str(out, " · ");
    push_str(out, e.loader.label());
    push_str(out, " ");
    push_str(out, e.loader_version.as_str());
    push_str(out, "\nJava ");
    push_decimal(out, e.java_version as u64);
    push_str(out, " (");
    push_str(out, e.java_name.as_str());
    push_str(out, ")");
    push_str(out, "\nJava path: ");
    push_str(out, e.java_path.as_str());
    assert(final(out)@ =~= old(out)@ + runtime_text(report@.environment));
}

fn setup_section(out: &mut Vec<char>, report: &CrashReport)
    ensures
        final(out)@ == old(out)@ + setup_text(report@.environment),
{
    let e = &report.environment;
    let overrides = if e.active_overrides.len() == 0 {
        "None".to_owned()
    } else {
        crate::state::crash::join(e.active_overrides.as_slice(), ", ")
    };
    let mods = mods_section(&e.enabled_mods);
    push_str(out, "\nMemory ");
    push_decimal(out, e.memory as u64);
    push_str(out, " GB · ");
    push_str(out, e.os.as_str());
    push_str(out, " · ");
    push_str(out, e.gpu.as_str());
    push_str(out, "\nOverridden launch settings: ");
    push_str(out, overrides.as_str());
    push_str(out, "\n\n## Enabled mods (");
    push_decimal(out, e.enabled_mods.len() as u64);
    push_str(out, ")\n");
    push_str(out, mods.as_str());
    assert(final(out)@ =~= old(out)@ + setup_text(report@.environment));
}

fn environment_section(out: &mut Vec<char>, report: &CrashReport)
    ensures
        final(out)@ == old(out)@ + environment_text(report@.environment),
{
    runtime_section(out, report);
    setup_section(out, report);
    assert(final(out)@ =~= old(out)@ + environment_text(report@.environment));
}

/// The report the crash page copies or saves: the crash, the local findings
/// and the environment, with credentials, tokens and home paths redacted
/// throughout.
#[verifier::rlimit(40)]
pub fn prepared_report(report: &CrashReport, name: &str, format: ReportFormat) -> (r: String)
    ensures
        r@ == redacted(report_document(report@, name@, format)),
{
    let intro = match format {
        ReportFormat::Ai => "My Minecraft game crashed while using Phanerite. Help me identify the likely cause from the captured output and environment. Explain the evidence and where to find any additional information you need.",
        ReportFormat::Post => "Minecraft crash report captured by Phanerite.",
    };
    let findings = findings_section(&report.findings);
    let source = report.source_text();
    let mut out: Vec<char> = Vec::new();
    push_str(&mut out, intro);
    push_str(&mut out, "\n\nInstance: ");
    push_str(&mut out, name);
    push_str(&mut out, "\nTime: ");
    push_str(&mut out, report.when.as_str());
    push_str(&mut out, "\nExit code: ");
    push_signed(&mut out, report.exit_code);
    push_str(&mut out, "\n\n## Local crash-signature matches\n");
    push_str(&mut out, findings.as_str());
    let ghost head = out@;
    environment_section(&mut out, report);
    push_str(&mut out, "\n\n## ");
    push_str(&mut out, if report.has_report() { "Crash report" } else { "Process output" });
    push_str(&mut out, "\n\n~~~text\n");
    push_str(&mut out, source.as_str());
    push_str(&mut out, "\n~~~\n");
    assert(out@ =~= report_document(report@, name@, format));
    let document = string_of(&out);
    redact(document.as_str())
}

/// The retry action a finding offers: disabling the first implicated mod, by
/// its display name when the instance has it, or raising the memory.
pub open spec fn action_label_of(f: CrashFindingView, instance: Option<InstanceSummaryView>) -> Seq<char> {
    if f.implicated_mod_ids.len() > 0 {
        let id = f.implicated_mod_ids[0];
        let name = match instance {
            Some(i) => match first_index(i.mods, |m: ModSummaryView| m.id == id) {
                Some(k) => match i.mods[k].name {
                    Some(n) => n,
                    None => i.mods[k].file_name,
                },
                None => "mod"@,
            },
            None => "mod"@,
        };
        "Disable "@ + name + " and retry"@
    } else {
        "Raise memory to "@ + decimal(
            (match f.suggested_memory {
                Some(m) => m,
                None => 4,
            }) as nat,
        ) + " GB and retry"@
    }
}

/// The label of a finding's retry action.
pub fn action_label(finding: &CrashFinding, instance: Option<&InstanceSummary>) -> (r: String)
    ensures
        r@ == action_label_of(finding@, match instance {
            Some(i) => Some(i@),
            None => None,
        }),
{
    let mut out: Vec<char> = Vec::new();
    if finding.implicated_mod_ids.len() > 0 {
        let id = &finding.implicated_mod_ids[0];
        let ghost idv = finding@.implicated_mod_ids[0];
        push_str(&mut out, "Disable ");
        match instance {
            Some(i) => {
                let found = crate::seqs::position_where(
                    &i.mods,
                    |m: &ModSummary| -> (b: bool) ensures b == (m.deep_view().id == idv) { crate::text::str_eq(m.id.as_str(), id.as_str()) },
                    Ghost(|m: ModSummaryView| m.id == idv),
                );
                proof {
                    crate::seqs::lemma_first_index(i@.mods, |m: ModSummaryView| m.id == idv);
                }
                match found {
                    Some(k) => push_str(&mut out, i.mods[k].display_name()),
                    None => push_str(&mut out, "mod"),
                }
            },
            None => push_str(&mut out, "mod"),
        }
        push_str(&mut out, " and retry");
    } else {
        push_str(&mut out, "Raise memory to ");
        let memory = match finding.suggested_memory {
            Some(m) => m,
            None => 4,
        };
        push_decimal(&mut out, memory as u64);
        push_str(&mut out, " GB and retry");
    }
    assert(out@ =~= action_label_of(finding@, match instance {
        Some(i) => Some(i@),
        None => None,
    }));
    string_of(&out)
}

/// What applying a finding does: disables its first implicated mod, then
/// overrides the memory it suggests, each only when that changes something;
/// and whether anything changed.
pub open spec fn finding_applied(s: InstanceStoreView, report: CrashReportView, f: CrashFindingView) -> (InstanceStoreView, bool) {
    let instance = RefView { storage: report.storage_id, id: report.instance_id };
    let first = if f.implicated_mod_ids.len() > 0 {
        apply_change(s, instance, mod_enabled_change(f.implicated_mod_ids[0], false))
    } else {
        (s, false)
    };
    let second = match f.suggested_memory {
        Some(m) => apply_change(first.0, instance, override_change(LaunchField::Memory, LaunchValueView::Number(m))),
        None => (first.0, false),
    };
    (second.0, first.1 || second.1)
}

/// Applying a finding that suggests `m` GB to an instance of the storage the
/// store is scoped to leaves that instance overriding its memory with `m`,
/// touches no other instance, and reports a change whenever the instance did
/// not already override its memory with `m`.
pub proof fn law_applied_finding_raises_memory(s: InstanceStoreView, report: CrashReportView, f: CrashFindingView, m: u32, k: int)
    requires
        f.suggested_memory == Some(m),
        s.current_storage == Some(report.storage_id),
        0 <= k < s.instances.len(),
        s.instances[k].storage_id == report.storage_id,
        s.instances[k].id == report.instance_id,
        forall|j: int| 0 <= j < k ==> !(s.instances[j].storage_id == report.storage_id && s.instances[j].id == report.instance_id),
    ensures
        ({
            let (t, changed) = finding_applied(s, report, f);
            &&& t.instances.len() == s.instances.len()
            &&& t.instances[k].launch_overrides.contains_key(LaunchField::Memory)
            &&& t.instances[k].launch_overrides[LaunchField::Memory] == LaunchValueView::Number(m)
            &&& forall|j: int| 0 <= j < s.instances.len() && j != k ==> t.instances[j] == s.instances[j]
            &&& !(s.instances[k].launch_overrides.contains_key(LaunchField::Memory)
                && s.instances[k].launch_overrides[LaunchField::Memory] == LaunchValueView::Number(m)) ==> changed
        }),
{
    let r = RefView { storage: report.storage_id, id: report.instance_id };
    crate::seqs::lemma_first_index(s.instances, named(r));
    assert(target(s, r) == Some(k));
    let first = if f.implicated_mod_ids.len() > 0 {
        apply_change(s, r, mod_enabled_change(f.implicated_mod_ids[0], false))
    } else {
        (s, false)
    };
    let u = first.0;
    assert(u.instances.len() == s.instances.len());
    assert(u.current_storage == s.current_storage);
    assert(forall|j: int| 0 <= j < s.instances.len() && j != k ==> u.instances[j] == s.instances[j]);
    assert(u.instances[k].storage_id == s.instances[k].storage_id);
    assert(u.instances[k].id == s.instances[k].id);
    assert(u.instances[k].launch_overrides == s.instances[k].launch_overrides);
    crate::seqs::lemma_first_index(u.instances, named(r));
    assert(named(r)(u.instances[k]));
    assert(forall|j: int| 0 <= j < k ==> !named(r)(#[trigger] u.instances[j]));
    assert(target(u, r) == Some(k));
}

/// Applies finding `index` of the report to the crashed instance; `None` when
/// the report has no such finding. The caller then restarts the instance.
pub fn apply_finding(instances: &mut InstanceStore, report: &CrashReport, index: usize) -> (r: Option<bool>)
    requires
        old(instances)@.revision + 2 < u64::MAX,
    ensures
        index >= report@.findings.len() ==> r is None && final(instances)@ == old(instances)@,
        index < report@.findings.len() ==> (r matches Some(changed)
            && (final(instances)@, changed) == finding_applied(old(instances)@, report@, report@.findings[index as int])),
{
    if index >= report.findings.len() {
        return None;
    }
    let finding = &report.findings[index];
    let instance = report.instance();
    let mut changed = false;
    if finding.implicated_mod_ids.len() > 0 {
        changed = instances.set_mod_enabled(&instance, finding.implicated_mod_ids[0].as_str(), false);
    }
    if let Some(memory) = finding.suggested_memory {
        let step = instances.set_launch_override(&instance, LaunchField::Memory, LaunchValue::Number(memory));
        changed = changed || step;
    }
    Some(changed)
}

/// The output lines a finding cites, in the order it cites them; indices past
/// the output are skipped.
pub open spec fn cited_lines(indices: Seq<usize>, output: Seq<Seq<char>>) -> Seq<Seq<char>>
    decreases indices.len(),
{
    if indices.len() == 0 {
        Seq::empty()
    } else {
        let rest = cited_lines(indices.drop_last(), output);
        if indices.last() < output.len() { rest.push(output[indices.last() as int]) } else { rest }
    }
}

/// The evidence panel text of the selected finding: its cited lines, one per
/// line; nothing when no finding is selected.
pub open spec fn evidence_of(r: CrashReportView, selected: int) -> Seq<char> {
    if 0 <= selected < r.findings.len() {
        joined(cited_lines(r.findings[selected].evidence_lines, output_of(r)), "\n"@)
    } else {
        Seq::empty()
    }
}

/// The evidence panel text of the selected finding.
pub fn evidence_text(report: &CrashReport, selected: usize) -> (r: String)
    ensures
        r@ == evidence_of(report@, selected as int),
{
    if selected >= report.findings.len() {
        return String::new();
    }
    let indices = &report.findings[selected].evidence_lines;
    let output = report.output();
    let mut lines: Vec<String> = Vec::new();
    let mut i: usize = 0;
    while i < indices.len()
        invariant
            i <= indices.len(),
            output.deep_view() == output_of(report@),
            indices@ == report@.findings[selected as int].evidence_lines,
            lines.deep_view() == cited_lines(indices@.take(i as int), output.deep_view()),
        decreases indices.len() - i,
    {
        let at = indices[i];
        assert(indices@.take(i + 1).drop_last() =~= indices@.take(i as int));
        let ghost prev = lines.deep_view();
        if at < output.len() {
            let line = output[at].clone();
            lines.push(line);
            assert(lines.deep_view() =~= prev.push(output.deep_view()[at as int]));
        }
        i += 1;
    }
    assert(indices@.take(indices.len() as int) =~= indices@);
    crate::state::crash::join(lines.as_slice(), "\n")
}

/// The output line the page scrolls to when a finding is selected: its first
/// cited line.
pub fn first_evidence_line(report: &CrashReport, index: usize) -> (r: Option<usize>)
    ensures
        r == (if index < report@.findings.len() && report@.findings[index as int].evidence_lines.len() > 0 {
            Some(report@.findings[index as int].evidence_lines[0])
        } else {
            None
        }),
{
    if index < report.findings.len() && report.findings[index].evidence_lines.len() > 0 {
        Some(report.findings[index].evidence_lines[0])
    } else {
        None
    }
}

/// The line under the crash title: `when · exit code N`.
pub open spec fn subtitle_of(r: CrashReportView) -> Seq<char> {
    r.when + " · exit code "@ + signed_decimal(r.exit_code as int)
}

/// The line under the crash title.
pub fn subtitle(report: &CrashReport) -> (r: String)
    ensures
        r@ == subtitle_of(report@),
{
    let mut out: Vec<char> = Vec::new();
    push_str(&mut out, report.when.as_str());
    push_str(&mut out, " · exit code ");
    push_signed(&mut out, report.exit_code);
    assert(out@ =~= subtitle_of(report@));
    string_of(&out)
}

/// The name the crash page shows: the crashed instance's name, or its id when
/// the instance is gone.
pub open spec fn crashed_name_of(instances: InstanceStoreView, r: CrashReportView) -> Seq<char> {
    match first_index(instances.instances, named(RefView { storage: r.storage_id, id: r.instance_id })) {
        Some(k) => instances.instances[k].name,
        None => r.instance_id,
    }
}

/// The name the crash page shows.
pub fn crashed_name(instances: &InstanceStore, report: &CrashReport) -> (r: String)
    ensures
        r@ == crashed_name_of(instances@, report@),
{
    match instances.find(&report.instance()) {
        Some(instance) => instance.name.clone(),
        None => report.instance_id.clone(),
    }
}

/// Who a crash can be reported to: the Aphanite server it was captured on (or
/// its owner, unnamed); nobody for a local crash.
pub open spec fn report_owner_of(e: CrashEnvironmentView) -> Option<Seq<char>> {
    match e.source {
        CrashSource::Aphanite => Some(match e.aphanite_server {
            Some(server) => server,
            None => "the server owner"@,
        }),
        CrashSource::Local => None,
    }
}

/// Who a crash can be reported to.
pub fn report_owner(report: &CrashReport) -> (r: Option<String>)
    ensures
        r.deep_view() == report_owner_of(report@.environment),
{
    match report.environment.source {
        CrashSource::Aphanite => Some(match &report.environment.aphanite_server {
            Some(server) => server.clone(),
            None => "the server owner".to_owned(),
        }),
        CrashSource::Local => None,
    }
}

} // verus!
