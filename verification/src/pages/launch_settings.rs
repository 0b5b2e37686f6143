//! Launch settings, edited globally or as per-instance overrides.
use vstd::prelude::*;

use crate::pages::widgets::{instance_key, instance_key_of};
use crate::route::{InstanceRef, RefView};
use crate::seqs::first_index;
use crate::state::instances::{bumped, named, override_change, override_clearing, target, InstanceStoreView, InstanceSummaryView};
use crate::state::launch::{
    field_key, memory_mode_label, quick_play_label, resolved, settings_get, settings_set,
    window_mode_label, LaunchSettingsView, LaunchValueView,
};
use crate::state::settings::{SettingsStoreView, SettingsView};
use crate::state::{
    InstanceStore, LaunchField, LaunchSettings, LaunchValue, MemoryMode,
    QuickPlayMode, SettingsStore, WindowMode,
};
use crate::text::{decimal, parse_u32, parsed_u32, push_decimal, push_str, str_eq, string_of};

verus! {

/// The reference's abstract value, when there is one.
pub open spec fn ref_view(reference: Option<&InstanceRef>) -> Option<RefView> {
    match reference {
        Some(r) => Some(r@),
        None => None,
    }
}

/// The settings a launch uses: the named instance's overrides over the global
/// settings, or the global settings when no instance is named or found.
pub open spec fn effective_of(instances: InstanceStoreView, global: LaunchSettingsView, reference: Option<RefView>) -> LaunchSettingsView {
    match reference {
        Some(r) => match first_index(instances.instances, named(r)) {
            Some(k) => resolved(instances.instances[k].launch_overrides, global),
            None => global,
        },
        None => global,
    }
}

/// The settings a launch of the instance uses, or the global settings.
pub fn effective(instances: &InstanceStore, global: &LaunchSettings, reference: Option<&InstanceRef>) -> (r: LaunchSettings)
    ensures
        r@ == effective_of(instances@, global@, ref_view(reference)),
{
    match reference {
        Some(r) => match instances.find(r) {
            Some(instance) => instance.launch_overrides.resolve(global),
            None => global.copied(),
        },
        None => global.copied(),
    }
}

/// Whether a field's control is editable: always for the global settings, and
/// for an instance when it overrides the field.
pub open spec fn overridden_of(instances: InstanceStoreView, reference: Option<RefView>, field: LaunchField) -> bool {
    match reference {
        None => true,
        Some(r) => match first_index(instances.instances, named(r)) {
            Some(k) => instances.instances[k].launch_overrides.contains_key(field),
            None => false,
        },
    }
}

/// Whether a field's control is editable.
pub fn overridden(instances: &InstanceStore, reference: Option<&InstanceRef>, field: LaunchField) -> (r: bool)
    ensures
        r == overridden_of(instances@, ref_view(reference), field),
{
    match reference {
        None => true,
        Some(r) => match instances.find(r) {
            Some(instance) => instance.launch_overrides.is_overridden(field),
            None => false,
        },
    }
}

/// The store after one possible change of the instance a reference reaches,
/// and whether it changed.
pub open spec fn apply_change(
    s: InstanceStoreView,
    r: RefView,
    change: spec_fn(InstanceSummaryView) -> Option<InstanceSummaryView>,
) -> (InstanceStoreView, bool) {
    match target(s, r) {
        None => (s, false),
        Some(k) => match change(s.instances[k]) {
            None => (s, false),
            Some(v) => (bumped(s, s.instances.update(k, v)), true),
        },
    }
}

/// Writes a launch setting: as an override of the instance, or into the
/// global settings. Returns whether anything changed.
pub fn set_value(
    instances: &mut InstanceStore,
    settings: &mut SettingsStore,
    reference: Option<&InstanceRef>,
    field: LaunchField,
    value: LaunchValue,
) -> (r: bool)
    requires
        old(instances)@.revision < u64::MAX,
        old(settings)@.revision < u64::MAX,
    ensures
        match reference {
            Some(rf) => {
                &&& (final(instances)@, r) == apply_change(old(instances)@, rf@, override_change(field, value@))
                &&& final(settings)@ == old(settings)@
            },
            None => {
                let next = settings_set(old(settings)@.settings.launch, field, value@);
                &&& final(instances)@ == old(instances)@
                &&& r == (old(settings)@.settings.launch != next)
                &&& r ==> final(settings)@ == (SettingsStoreView {
                    settings: SettingsView { launch: next, ..old(settings)@.settings },
                    revision: (old(settings)@.revision + 1) as u64,
                    ..old(settings)@
                })
                &&& !r ==> final(settings)@ == old(settings)@
            },
        },
{
    match reference {
        Some(rf) => instances.set_launch_override(rf, field, value),
        None => {
            let mut next = settings.launch().copied();
            next.set(field, value);
            settings.set_launch(next)
        },
    }
}

/// The state key of a field's control: per instance, or `global-launch-<key>`.
pub open spec fn control_key_of(reference: Option<RefView>, field: LaunchField) -> Seq<char> {
    match reference {
        Some(r) => instance_key_of(r, field_key(field)),
        None => "global-launch-"@ + field_key(field),
    }
}

/// The state key of a field's control.
pub fn key(reference: Option<&InstanceRef>, field: LaunchField) -> (r: String)
    ensures
        r@ == control_key_of(ref_view(reference), field),
{
    match reference {
        Some(rf) => instance_key(rf, field.key()),
        None => {
            let mut out: Vec<char> = Vec::new();
            push_str(&mut out, "global-launch-");
            push_str(&mut out, field.key());
            string_of(&out)
        },
    }
}

/// The store after the overrides of `fields[..n]` are taken over from
/// `current` (or dropped, when `enabled` is false) one by one, and whether any
/// step changed it.
pub open spec fn overrides_toggled(
    s: InstanceStoreView,
    r: RefView,
    fields: Seq<LaunchField>,
    current: LaunchSettingsView,
    enabled: bool,
    n: int,
) -> (InstanceStoreView, bool)
    decreases n,
{
    if n <= 0 {
        (s, false)
    } else {
        let before = overrides_toggled(s, r, fields, current, enabled, n - 1);
        let field = fields[n - 1];
        let step = apply_change(
            before.0,
            r,
            if enabled { override_change(field, settings_get(current, field)) } else { override_clearing(field) },
        );
        (step.0, before.1 || step.1)
    }
}

proof fn lemma_toggled_revision(s: InstanceStoreView, r: RefView, fields: Seq<LaunchField>, current: LaunchSettingsView, enabled: bool, n: int)
    requires
        0 <= n,
    ensures
        overrides_toggled(s, r, fields, current, enabled, n).0.revision <= s.revision + n,
        overrides_toggled(s, r, fields, current, enabled, n).0.current_storage == s.current_storage,
    decreases n,
{
    if n > 0 {
        lemma_toggled_revision(s, r, fields, current, enabled, n - 1);
    }
}

/// Makes the instance override `fields` with the values it launches with now,
/// or drops those overrides. Returns whether anything changed.
pub fn override_fields(
    instances: &mut InstanceStore,
    global: &LaunchSettings,
    reference: &InstanceRef,
    fields: &[LaunchField],
    enabled: bool,
) -> (r: bool)
    requires
        old(instances)@.revision + fields.len() < u64::MAX,
    ensures
        (final(instances)@, r) == overrides_toggled(
            old(instances)@,
            reference@,
            fields@,
            effective_of(old(instances)@, global@, Some(reference@)),
            enabled,
            fields.len() as int,
        ),
{
    let current = effective(instances, global, Some(reference));
    let ghost s0 = instances@;
    let mut changed = false;
    let mut i: usize = 0;
    while i < fields.len()
        invariant
            i <= fields.len(),
            s0.revision + fields.len() < u64::MAX,
            current@ == effective_of(s0, global@, Some(reference@)),
            (instances@, changed) == overrides_toggled(s0, reference@, fields@, current@, enabled, i as int),
        decreases fields.len() - i,
    {
        proof {
            lemma_toggled_revision(s0, reference@, fields@, current@, enabled, i as int);
        }
        let field = fields[i];
        let step = if enabled {
            instances.set_launch_override(reference, field, current.get(field))
        } else {
            instances.clear_launch_override(reference, field)
        };
        changed = changed || step;
        i += 1;
    }
    changed
}

/// What a text control shows for a value: text as it is, numbers in decimal,
/// anything else as nothing.
pub open spec fn text_of(value: LaunchValueView) -> Seq<char> {
    match value {
        LaunchValueView::Text(v) => v,
        LaunchValueView::Number(n) => decimal(n as nat),
        _ => Seq::empty(),
    }
}

/// What a text control shows for a value.
pub fn text_value(value: &LaunchValue) -> (r: String)
    ensures
        r@ == text_of(value@),
{
    match value {
        LaunchValue::Text(v) => v.clone(),
        LaunchValue::Number(n) => {
            let mut out: Vec<char> = Vec::new();
            push_decimal(&mut out, *n as u64);
            string_of(&out)
        },
        _ => String::new(),
    }
}

/// The value typed into a text control: window sizes must be whole numbers
/// from 1 to 16384, anything else is taken as text.
pub open spec fn text_input_of(field: LaunchField, input: Seq<char>) -> Option<LaunchValueView> {
    if field == LaunchField::WindowWidth || field == LaunchField::WindowHeight {
        match parsed_u32(input) {
            Some(n) => if 1 <= n <= 16384 { Some(LaunchValueView::Number(n)) } else { None },
            None => None,
        }
    } else {
        Some(LaunchValueView::Text(input))
    }
}

/// The value typed into a text control, or `None` when it is refused.
pub fn text_input_value(field: LaunchField, input: &str) -> (r: Option<LaunchValue>)
    ensures
        match r {
            Some(v) => text_input_of(field, input@) == Some(v@),
            None => text_input_of(field, input@) is None,
        },
{
    if field == LaunchField::WindowWidth || field == LaunchField::WindowHeight {
        match parse_u32(input) {
            Some(n) => if 1 <= n && n <= 16384 {
                Some(LaunchValue::Number(n))
            } else {
                None
            },
            None => None,
        }
    } else {
        Some(LaunchValue::Text(input.to_owned()))
    }
}

/// The label a choice control shows for a value; other values show nothing.
pub open spec fn choice_of(value: LaunchValueView) -> Seq<char> {
    match value {
        LaunchValueView::Memory(m) => memory_mode_label(m),
        LaunchValueView::Window(m) => window_mode_label(m),
        LaunchValueView::QuickPlay(m) => quick_play_label(m),
        _ => Seq::empty(),
    }
}

/// The label a choice control shows for a value.
pub fn choice_value(value: &LaunchValue) -> (r: String)
    ensures
        r@ == choice_of(value@),
{
    match value {
        LaunchValue::Memory(m) => m.label().to_owned(),
        LaunchValue::Window(m) => m.label().to_owned(),
        LaunchValue::QuickPlay(m) => m.label().to_owned(),
        _ => String::new(),
    }
}

/// The labels a choice control offers for a field, in order.
pub open spec fn choices_of(field: LaunchField) -> Seq<Seq<char>> {
    match field {
        LaunchField::MemoryMode => seq![memory_mode_label(MemoryMode::Auto), memory_mode_label(MemoryMode::Manual)],
        LaunchField::WindowMode => seq![
            window_mode_label(WindowMode::Windowed),
            window_mode_label(WindowMode::Maximized),
            window_mode_label(WindowMode::Fullscreen),
        ],
        LaunchField::QuickPlayMode => seq![
            quick_play_label(QuickPlayMode::Off),
            quick_play_label(QuickPlayMode::Server),
            quick_play_label(QuickPlayMode::World),
            quick_play_label(QuickPlayMode::Realms),
        ],
        _ => Seq::empty(),
    }
}

/// The labels a choice control offers for a field.
pub fn choices(field: LaunchField) -> (r: Vec<&'static str>)
    ensures
        r@.map_values(|s: &'static str| s@) == choices_of(field),
{
    let mut out: Vec<&'static str> = Vec::new();
    match field {
        LaunchField::MemoryMode => {
            out.push(MemoryMode::Auto.label());
            out.push(MemoryMode::Manual.label());
        },
        LaunchField::WindowMode => {
            out.push(WindowMode::Windowed.label());
            out.push(WindowMode::Maximized.label());
            out.push(WindowMode::Fullscreen.label());
        },
        LaunchField::QuickPlayMode => {
            out.push(QuickPlayMode::Off.label());
            out.push(QuickPlayMode::Server.label());
            out.push(QuickPlayMode::World.label());
            out.push(QuickPlayMode::Realms.label());
        },
        _ => {},
    }
    assert(out@.map_values(|s: &'static str| s@) =~= choices_of(field));
    out
}

/// The value a picked label stands for: the first mode of the field with that
/// label.
pub open spec fn chosen_of(field: LaunchField, label: Seq<char>) -> Option<LaunchValueView> {
    match field {
        LaunchField::MemoryMode => if label == memory_mode_label(MemoryMode::Auto) {
            Some(LaunchValueView::Memory(MemoryMode::Auto))
        } else if label == memory_mode_label(MemoryMode::Manual) {
            Some(LaunchValueView::Memory(MemoryMode::Manual))
        } else {
            None
        },
        LaunchField::WindowMode => if label == window_mode_label(WindowMode::Windowed) {
            Some(LaunchValueView::Window(WindowMode::Windowed))
        } else if label == window_mode_label(WindowMode::Maximized) {
            Some(LaunchValueView::Window(WindowMode::Maximized))
        } else if label == window_mode_label(WindowMode::Fullscreen) {
            Some(LaunchValueView::Window(WindowMode::Fullscreen))
        } else {
            None
        },
        LaunchField::QuickPlayMode => if label == quick_play_label(QuickPlayMode::Off) {
            Some(LaunchValueView::QuickPlay(QuickPlayMode::Off))
        } else if label == quick_play_label(QuickPlayMode::Server) {
            Some(LaunchValueView::QuickPlay(QuickPlayMode::Server))
        } else if label == quick_play_label(QuickPlayMode::World) {
            Some(LaunchValueView::QuickPlay(QuickPlayMode::World))
        } else if label == quick_play_label(QuickPlayMode::Realms) {
            Some(LaunchValueView::QuickPlay(QuickPlayMode::Realms))
        } else {
            None
        },
        _ => None,
    }
}

/// The value a picked label stands for, if any.
pub fn chosen_value(field: LaunchField, label: &str) -> (r: Option<LaunchValue>)
    ensures
        match r {
            Some(v) => chosen_of(field, label@) == Some(v@),
            None => chosen_of(field, label@) is None,
        },
{
    match field {
        LaunchField::MemoryMode => if str_eq(MemoryMode::Auto.label(), label) {
            Some(LaunchValue::Memory(MemoryMode::Auto))
        } else if str_eq(MemoryMode::Manual.label(), label) {
            Some(LaunchValue::Memory(MemoryMode::Manual))
        } else {
            None
        },
        LaunchField::WindowMode => if str_eq(WindowMode::Windowed.label(), label) {
            Some(LaunchValue::Window(WindowMode::Windowed))
        } else if str_eq(WindowMode::Maximized.label(), label) {
            Some(LaunchValue::Window(WindowMode::Maximized))
        } else if str_eq(WindowMode::Fullscreen.label(), label) {
            Some(LaunchValue::Window(WindowMode::Fullscreen))
        } else {
            None
        },
        LaunchField::QuickPlayMode => if str_eq(QuickPlayMode::Off.label(), label) {
            Some(LaunchValue::QuickPlay(QuickPlayMode::Off))
        } else if str_eq(QuickPlayMode::Server.label(), label) {
            Some(LaunchValue::QuickPlay(QuickPlayMode::Server))
        } else if str_eq(QuickPlayMode::World.label(), label) {
            Some(LaunchValue::QuickPlay(QuickPlayMode::World))
        } else if str_eq(QuickPlayMode::Realms.label(), label) {
            Some(LaunchValue::QuickPlay(QuickPlayMode::Realms))
        } else {
            None
        },
        _ => None,
    }
}

/// The fields an override switch covers: a window mode brings its size, a
/// quick play mode its target.
pub open spec fn switch_fields_of(field: LaunchField) -> Seq<LaunchField> {
    if field == LaunchField::WindowMode {
        seq![field, LaunchField::WindowWidth, LaunchField::WindowHeight]
    } else if field == LaunchField::QuickPlayMode {
        seq![field, LaunchField::QuickPlayTarget]
    } else {
        seq![field]
    }
}

/// The fields an override switch covers.
pub fn switch_fields(field: LaunchField) -> (r: Vec<LaunchField>)
    ensures
        r@ == switch_fields_of(field),
{
    let mut out: Vec<LaunchField> = Vec::new();
    out.push(field);
    if field == LaunchField::WindowMode {
        out.push(LaunchField::WindowWidth);
        out.push(LaunchField::WindowHeight);
    } else if field == LaunchField::QuickPlayMode {
        out.push(LaunchField::QuickPlayTarget);
    }
    assert(out@ =~= switch_fields_of(field));
    out
}

/// The note under the memory slider.
pub open spec fn memory_hint_of(launch: LaunchSettingsView) -> Seq<char> {
    if launch.memory_mode == MemoryMode::Auto {
        "Phanerite chooses a safe allocation for the machine."@
    } else {
        decimal(launch.memory as nat) + " GB maximum heap"@
    }
}

/// The note under the memory slider.
pub fn memory_hint(launch: &LaunchSettings) -> (r: String)
    ensures
        r@ == memory_hint_of(launch@),
{
    if launch.memory_mode == MemoryMode::Auto {
        "Phanerite chooses a safe allocation for the machine.".to_owned()
    } else {
        let mut out: Vec<char> = Vec::new();
        push_decimal(&mut out, launch.memory as u64);
        push_str(&mut out, " GB maximum heap");
        string_of(&out)
    }
}

} // verus!
