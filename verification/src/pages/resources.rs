//! The resource pages of an instance: mods, resource packs, shader packs and
//! worlds share one row shape and one set of actions.
use vstd::prelude::*;

use crate::assets::PhaIcon;
use crate::pages::widgets::{search_key, search_key_of};
use crate::components::add_resources_dialog::ResourceMode;
use crate::pages::launch_settings::apply_change;
use crate::route::{InstanceRef, RefView};
use crate::state::instances::{
    mod_enabled_change, mods_removal, override_change, resource_packs_enabled_change,
    resource_packs_removal, shader_packs_enabled_change, shader_packs_removal, worlds_removal,
    InstanceStoreView, InstanceSummaryView, ModSummaryView, ResourcePackSummaryView,
    ShaderPackSummaryView, WorldSummaryView,
};
use crate::state::launch::LaunchValueView;
use crate::state::{
    loader_label, InstanceStore, InstanceSummary, LaunchField, LaunchValue, Loader, QuickPlayMode,
};
use crate::text::{
    contains, contains_seq, decimal, lowercased, push_decimal, push_str, str_eq, string_of,
    to_lowercase,
};

verus! {

/// The collections an instance page lists.
#[derive(Clone, Copy, Debug, PartialEq, Eq, Structural)]
pub enum ResourceKind {
    Mods,
    Packs,
    Shaders,
    Worlds,
}

impl ResourceKind {
    /// The page title.
    pub fn title(self) -> (r: &'static str)
        ensures
            r@ == match self {
                ResourceKind::Mods => "Mods"@,
                ResourceKind::Packs => "Resource packs"@,
                ResourceKind::Shaders => "Shader packs"@,
                ResourceKind::Worlds => "Worlds"@,
            },
    {
        match self {
            ResourceKind::Mods => "Mods",
            ResourceKind::Packs => "Resource packs",
            ResourceKind::Shaders => "Shader packs",
            ResourceKind::Worlds => "Worlds",
        }
    }

    /// The page icon.
    pub fn icon(self) -> (r: PhaIcon)
        ensures
            r == match self {
                ResourceKind::Mods => PhaIcon::Puzzle,
                ResourceKind::Packs => PhaIcon::Palette,
                ResourceKind::Shaders => PhaIcon::Sparkles,
                ResourceKind::Worlds => PhaIcon::Globe,
            },
    {
        match self {
            ResourceKind::Mods => PhaIcon::Puzzle,
            ResourceKind::Packs => PhaIcon::Palette,
            ResourceKind::Shaders => PhaIcon::Sparkles,
            ResourceKind::Worlds => PhaIcon::Globe,
        }
    }

    /// The line under the page title.
    pub fn description(self) -> (r: &'static str)
        ensures
            r@ == match self {
                ResourceKind::Mods => "Manage the isolated mods folder for this instance."@,
                ResourceKind::Packs => "Texture packs for the instance you opened."@,
                ResourceKind::Shaders => "Shader packs for the instance you opened."@,
                ResourceKind::Worlds => "Saved worlds for the instance you opened."@,
            },
    {
        match self {
            ResourceKind::Mods => "Manage the isolated mods folder for this instance.",
            ResourceKind::Packs => "Texture packs for the instance you opened.",
            ResourceKind::Shaders => "Shader packs for the instance you opened.",
            ResourceKind::Worlds => "Saved worlds for the instance you opened.",
        }
    }

    /// The import dialog the page offers; worlds cannot be imported.
    pub fn mode(self) -> (r: Option<ResourceMode>)
        ensures
            r == match self {
                ResourceKind::Mods => Some(ResourceMode::Mods),
                ResourceKind::Packs => Some(ResourceMode::Packs),
                ResourceKind::Shaders => Some(ResourceMode::Shaders),
                ResourceKind::Worlds => None,
            },
    {
        match self {
            ResourceKind::Mods => Some(ResourceMode::Mods),
            ResourceKind::Packs => Some(ResourceMode::Packs),
            ResourceKind::Shaders => Some(ResourceMode::Shaders),
            ResourceKind::Worlds => None,
        }
    }
}

/// One row of a resource page.
#[derive(Clone, Debug, PartialEq, Eq)]
pub struct ResourceRow {
    pub id: String,
    pub name: String,
    pub detail: String,
    pub metadata: String,
    /// `None` for worlds, which cannot be switched off.
    pub enabled: Option<bool>,
}

/// The abstract value of `ResourceRow`.
pub struct ResourceRowView {
    pub id: Seq<char>,
    pub name: Seq<char>,
    pub detail: Seq<char>,
    pub metadata: Seq<char>,
    pub enabled: Option<bool>,
}

impl DeepView for ResourceRow {
    type V = ResourceRowView;

    open spec fn deep_view(&self) -> ResourceRowView {
        ResourceRowView {
            id: self.id@,
            name: self.name@,
            detail: self.detail@,
            metadata: self.metadata@,
            enabled: self.enabled,
        }
    }
}

impl View for ResourceRow {
    type V = ResourceRowView;

    open spec fn view(&self) -> ResourceRowView {
        self.deep_view()
    }
}

/// The name a mod is listed under.
pub open spec fn mod_display(m: ModSummaryView) -> Seq<char> {
    match m.name {
        Some(n) => n,
        None => m.file_name,
    }
}

/// A mod's row: its version and file, or just the file.
pub open spec fn mod_row(m: ModSummaryView) -> ResourceRowView {
    ResourceRowView {
        id: m.id,
        name: mod_display(m),
        detail: match m.version {
            Some(v) => v + " · "@ + m.file_name,
            None => if m.name is Some { m.file_name } else { Seq::empty() },
        },
        metadata: Seq::empty(),
        enabled: Some(m.enabled),
    }
}

/// Whether a mod is listed for a lower-cased search and a loader filter.
pub open spec fn mod_shown(m: ModSummaryView, search: Seq<char>, loader: Seq<char>) -> bool {
    &&& (search.len() == 0 || contains_seq(lowercased(mod_display(m)), search) || contains_seq(lowercased(m.file_name), search))
    &&& (loader == "All loaders"@ || match m.loader {
        Some(l) => loader_label(l) == loader,
        None => false,
    })
}

/// A resource pack's row.
pub open spec fn pack_row(p: ResourcePackSummaryView) -> ResourceRowView {
    ResourceRowView { id: p.id, name: p.name, detail: p.description, metadata: p.author + " · "@ + p.size, enabled: Some(p.enabled) }
}

/// A shader pack's row.
pub open spec fn shader_row(p: ShaderPackSummaryView) -> ResourceRowView {
    ResourceRowView { id: p.id, name: p.name, detail: p.author + " · "@ + p.version, metadata: p.gpu, enabled: Some(p.enabled) }
}

/// A world's row.
pub open spec fn world_row(w: WorldSummaryView) -> ResourceRowView {
    ResourceRowView {
        id: w.id,
        name: w.name,
        detail: "seed "@ + w.seed + " · "@ + w.last_played + " · "@ + decimal(w.players as nat) + " player"@
            + (if w.players == 1 { Seq::<char>::empty() } else { seq!['s'] }),
        metadata: "MC "@ + w.version,
        enabled: None,
    }
}

/// The rows a page lists; only mods are searched and filtered by loader.
pub open spec fn rows_of(i: InstanceSummaryView, kind: ResourceKind, search: Seq<char>, loader: Seq<char>) -> Seq<ResourceRowView> {
    match kind {
        ResourceKind::Mods => i.mods.filter(|m: ModSummaryView| mod_shown(m, search, loader)).map_values(|m: ModSummaryView| mod_row(m)),
        ResourceKind::Packs => i.resource_packs.map_values(|p: ResourcePackSummaryView| pack_row(p)),
        ResourceKind::Shaders => i.shader_packs.map_values(|p: ShaderPackSummaryView| shader_row(p)),
        ResourceKind::Worlds => i.worlds.map_values(|w: WorldSummaryView| world_row(w)),
    }
}

fn joined3(a: &str, sep: &str, b: &str) -> (r: String)
    ensures
        r@ == a@ + sep@ + b@,
{
    let mut out: Vec<char> = Vec::new();
    push_str(&mut out, a);
    push_str(&mut out, sep);
    push_str(&mut out, b);
    string_of(&out)
}

/// Whether a mod is listed for a lower-cased search and a loader filter.
pub fn mod_is_shown(m: &crate::state::ModSummary, search: &str, loader: &str) -> (r: bool)
    ensures
        r == mod_shown(m@, search@, loader@),
{
    let found = if search.is_empty() {
        true
    } else {
        let name = to_lowercase(m.display_name());
        if contains(name.as_str(), search) {
            true
        } else {
            let file = to_lowercase(m.file_name.as_str());
            contains(file.as_str(), search)
        }
    };
    let loader_ok = if str_eq(loader, "All loaders") {
        true
    } else {
        match m.loader {
            Some(l) => str_eq(l.label(), loader),
            None => false,
        }
    };
    found && loader_ok
}

fn mod_row_of(m: &crate::state::ModSummary) -> (r: ResourceRow)
    ensures
        r@ == mod_row(m@),
{
    let detail = match &m.version {
        Some(v) => joined3(v.as_str(), " · ", m.file_name.as_str()),
        None => if m.name.is_some() { m.file_name.clone() } else { String::new() },
    };
    ResourceRow { id: m.id.clone(), name: m.display_name().to_owned(), detail, metadata: String::new(), enabled: Some(m.enabled) }
}

fn world_row_of(w: &crate::state::WorldSummary) -> (r: ResourceRow)
    ensures
        r@ == world_row(w@),
{
    let mut detail: Vec<char> = Vec::new();
    push_str(&mut detail, "seed ");
    push_str(&mut detail, w.seed.as_str());
    push_str(&mut detail, " · ");
    push_str(&mut detail, w.last_played.as_str());
    push_str(&mut detail, " · ");
    push_decimal(&mut detail, w.players as u64);
    push_str(&mut detail, " player");
    if w.players != 1 {
        detail.push('s');
    }
    assert(detail@ =~= world_row(w@).detail);
    let mut metadata: Vec<char> = Vec::new();
    push_str(&mut metadata, "MC ");
    push_str(&mut metadata, w.version.as_str());
    ResourceRow {
        id: w.id.clone(),
        name: w.name.clone(),
        detail: string_of(&detail),
        metadata: string_of(&metadata),
        enabled: None,
    }
}

/// The rows a resource page lists, for the search box's text and a loader
/// filter (the search, trimmed and lower-cased, and the filter apply to mods
/// only).
pub fn rows(instance: &InstanceSummary, kind: ResourceKind, query: &str, loader: &str) -> (r: Vec<ResourceRow>)
    ensures
        r.deep_view() == rows_of(instance@, kind, search_key_of(query@), loader@),
{
    let key = search_key(query);
    let search = key.as_str();
    let mut out: Vec<ResourceRow> = Vec::new();
    let mut i: usize = 0;
    match kind {
        ResourceKind::Mods => {
            let ghost p = |m: ModSummaryView| mod_shown(m, search@, loader@);
            while i < instance.mods.len()
                invariant
                    i <= instance.mods.len(),
                    p == (|m: ModSummaryView| mod_shown(m, search@, loader@)),
                    out.deep_view() == instance@.mods.take(i as int).filter(p).map_values(|m: ModSummaryView| mod_row(m)),
                decreases instance.mods.len() - i,
            {
                let ghost before = out.deep_view();
                proof {
                    assert(instance@.mods.take(i + 1).drop_last() =~= instance@.mods.take(i as int));
                    reveal(Seq::filter);
                }
                let m = &instance.mods[i];
                if mod_is_shown(m, search, loader) {
                    let row = mod_row_of(m);
                    out.push(row);
                    assert(out.deep_view() =~= before.push(mod_row(instance@.mods[i as int])));
                    assert(instance@.mods.take(i + 1).filter(p) =~= instance@.mods.take(i as int).filter(p).push(instance@.mods[i as int]));
                } else {
                    assert(instance@.mods.take(i + 1).filter(p) =~= instance@.mods.take(i as int).filter(p));
                }
                assert(out.deep_view() =~= instance@.mods.take(i + 1).filter(p).map_values(|m: ModSummaryView| mod_row(m)));
                i += 1;
            }
            assert(instance@.mods.take(instance.mods.len() as int) =~= instance@.mods);
        },
        ResourceKind::Packs => {
            while i < instance.resource_packs.len()
                invariant
                    i <= instance.resource_packs.len(),
                    out.deep_view() == instance@.resource_packs.take(i as int).map_values(|p: ResourcePackSummaryView| pack_row(p)),
                decreases instance.resource_packs.len() - i,
            {
                let p = &instance.resource_packs[i];
                let ghost before = out.deep_view();
                let row = ResourceRow {
                    id: p.id.clone(),
                    name: p.name.clone(),
                    detail: p.description.clone(),
                    metadata: joined3(p.author.as_str(), " · ", p.size.as_str()),
                    enabled: Some(p.enabled),
                };
                out.push(row);
                assert(out.deep_view() =~= before.push(pack_row(instance@.resource_packs[i as int])));
                assert(instance@.resource_packs.take(i + 1) =~= instance@.resource_packs.take(i as int).push(instance@.resource_packs[i as int]));
                i += 1;
            }
            assert(instance@.resource_packs.take(instance.resource_packs.len() as int) =~= instance@.resource_packs);
        },
        ResourceKind::Shaders => {
            while i < instance.shader_packs.len()
                invariant
                    i <= instance.shader_packs.len(),
                    out.deep_view() == instance@.shader_packs.take(i as int).map_values(|p: ShaderPackSummaryView| shader_row(p)),
                decreases instance.shader_packs.len() - i,
            {
                let p = &instance.shader_packs[i];
                let ghost before = out.deep_view();
                let row = ResourceRow {
                    id: p.id.clone(),
                    name: p.name.clone(),
                    detail: joined3(p.author.as_str(), " · ", p.version.as_str()),
                    metadata: p.gpu.clone(),
                    enabled: Some(p.enabled),
                };
                out.push(row);
                assert(out.deep_view() =~= before.push(shader_row(instance@.shader_packs[i as int])));
                assert(instance@.shader_packs.take(i + 1) =~= instance@.shader_packs.take(i as int).push(instance@.shader_packs[i as int]));
                i += 1;
            }
            assert(instance@.shader_packs.take(instance.shader_packs.len() as int) =~= instance@.shader_packs);
        },
        ResourceKind::Worlds => {
            while i < instance.worlds.len()
                invariant
                    i <= instance.worlds.len(),
                    out.deep_view() == instance@.worlds.take(i as int).map_values(|w: WorldSummaryView| world_row(w)),
                decreases instance.worlds.len() - i,
            {
                let ghost before = out.deep_view();
                let row = world_row_of(&instance.worlds[i]);
                out.push(row);
                assert(out.deep_view() =~= before.push(world_row(instance@.worlds[i as int])));
                assert(instance@.worlds.take(i + 1) =~= instance@.worlds.take(i as int).push(instance@.worlds[i as int]));
                i += 1;
            }
            assert(instance@.worlds.take(instance.worlds.len() as int) =~= instance@.worlds);
        },
    }
    out
}

/// How many items of the kind the instance has, unfiltered.
pub open spec fn count_of(i: InstanceSummaryView, kind: ResourceKind) -> nat {
    match kind {
        ResourceKind::Mods => i.mods.len(),
        ResourceKind::Packs => i.resource_packs.len(),
        ResourceKind::Shaders => i.shader_packs.len(),
        ResourceKind::Worlds => i.worlds.len(),
    }
}

/// How many items of the kind the instance has.
pub fn resource_count(instance: &InstanceSummary, kind: ResourceKind) -> (r: usize)
    ensures
        r == count_of(instance@, kind),
{
    match kind {
        ResourceKind::Mods => instance.mods.len(),
        ResourceKind::Packs => instance.resource_packs.len(),
        ResourceKind::Shaders => instance.shader_packs.len(),
        ResourceKind::Worlds => instance.worlds.len(),
    }
}

/// The badge beside the title: `enabled/total enabled` for mods, the count
/// otherwise.
pub fn count_badge(instance: &InstanceSummary, kind: ResourceKind) -> (r: String)
    ensures
        r@ == if kind == ResourceKind::Mods {
            decimal(instance@.mods.filter(crate::state::instances::mod_enabled()).len()) + seq!['/']
                + decimal(count_of(instance@, kind)) + " enabled"@
        } else {
            decimal(count_of(instance@, kind))
        },
{
    let count = resource_count(instance, kind);
    let mut out: Vec<char> = Vec::new();
    if kind == ResourceKind::Mods {
        push_decimal(&mut out, instance.enabled_mods() as u64);
        out.push('/');
        push_decimal(&mut out, count as u64);
        push_str(&mut out, " enabled");
    } else {
        push_decimal(&mut out, count as u64);
    }
    let r = string_of(&out);
    assert(r@ =~= (if kind == ResourceKind::Mods {
        decimal(instance@.mods.filter(crate::state::instances::mod_enabled()).len()) + seq!['/']
            + decimal(count_of(instance@, kind)) + " enabled"@
    } else {
        decimal(count_of(instance@, kind))
    }));
    r
}

/// The empty state of a page with no rows: title and explanation.
pub fn empty_state(kind: ResourceKind, count: usize) -> (r: (&'static str, &'static str))
    ensures
        r.0@ == match kind {
            ResourceKind::Mods => if count > 0 { "No mods match"@ } else { "No mods installed"@ },
            ResourceKind::Packs => "No resource packs"@,
            ResourceKind::Shaders => "No shader packs"@,
            ResourceKind::Worlds => "No worlds yet"@,
        },
        r.1@ == match kind {
            ResourceKind::Mods => if count > 0 {
                "Try a different search or loader filter."@
            } else {
                "Add .jar files to customize this instance."@
            },
            ResourceKind::Packs => "Texture packs change how the game looks without touching the code."@,
            ResourceKind::Shaders => "Shaders need Iris or OptiFine in the instance’s mod loader."@,
            ResourceKind::Worlds => "Saved games appear here once you create them."@,
        },
{
    match kind {
        ResourceKind::Mods => if count > 0 {
            ("No mods match", "Try a different search or loader filter.")
        } else {
            ("No mods installed", "Add .jar files to customize this instance.")
        },
        ResourceKind::Packs => ("No resource packs", "Texture packs change how the game looks without touching the code."),
        ResourceKind::Shaders => ("No shader packs", "Shaders need Iris or OptiFine in the instance’s mod loader."),
        ResourceKind::Worlds => ("No worlds yet", "Saved games appear here once you create them."),
    }
}

/// What switching a row on or off does; worlds have no switch.
pub open spec fn enabled_set(s: InstanceStoreView, r: RefView, kind: ResourceKind, id: Seq<char>, enabled: bool) -> (InstanceStoreView, bool) {
    match kind {
        ResourceKind::Mods => apply_change(s, r, mod_enabled_change(id, enabled)),
        ResourceKind::Packs => apply_change(s, r, resource_packs_enabled_change(id, enabled)),
        ResourceKind::Shaders => apply_change(s, r, shader_packs_enabled_change(id, enabled)),
        ResourceKind::Worlds => (s, false),
    }
}

/// Switches a row on or off; returns whether anything changed.
pub fn set_enabled(store: &mut InstanceStore, reference: &InstanceRef, kind: ResourceKind, id: &str, enabled: bool) -> (r: bool)
    requires
        old(store)@.revision < u64::MAX,
    ensures
        (final(store)@, r) == enabled_set(old(store)@, reference@, kind, id@, enabled),
{
    match kind {
        ResourceKind::Mods => store.set_mod_enabled(reference, id, enabled),
        ResourceKind::Packs => store.set_resource_pack_enabled(reference, id, enabled),
        ResourceKind::Shaders => store.set_shader_pack_enabled(reference, id, enabled),
        ResourceKind::Worlds => false,
    }
}

/// What deleting a row does.
pub open spec fn row_removed(s: InstanceStoreView, r: RefView, kind: ResourceKind, id: Seq<char>) -> (InstanceStoreView, bool) {
    match kind {
        ResourceKind::Mods => apply_change(s, r, mods_removal(id)),
        ResourceKind::Packs => apply_change(s, r, resource_packs_removal(id)),
        ResourceKind::Shaders => apply_change(s, r, shader_packs_removal(id)),
        ResourceKind::Worlds => apply_change(s, r, worlds_removal(id)),
    }
}

/// Deletes a row; returns whether anything changed.
pub fn remove_resource(store: &mut InstanceStore, reference: &InstanceRef, kind: ResourceKind, id: &str) -> (r: bool)
    requires
        old(store)@.revision < u64::MAX,
    ensures
        (final(store)@, r) == row_removed(old(store)@, reference@, kind, id@),
{
    match kind {
        ResourceKind::Mods => store.remove_mod(reference, id),
        ResourceKind::Packs => store.remove_resource_pack(reference, id),
        ResourceKind::Shaders => store.remove_shader_pack(reference, id),
        ResourceKind::Worlds => store.remove_world(reference, id),
    }
}

/// What playing a world does before the launch: quick play into that world.
pub open spec fn world_queued(s: InstanceStoreView, r: RefView, world: Seq<char>) -> InstanceStoreView {
    let first = apply_change(s, r, override_change(LaunchField::QuickPlayMode, LaunchValueView::QuickPlay(QuickPlayMode::World)));
    apply_change(first.0, r, override_change(LaunchField::QuickPlayTarget, LaunchValueView::Text(world))).0
}

/// Makes the instance quick-play into the named world; the caller then
/// launches it.
pub fn queue_world(store: &mut InstanceStore, reference: &InstanceRef, world: &str)
    requires
        old(store)@.revision + 1 < u64::MAX,
    ensures
        final(store)@ == world_queued(old(store)@, reference@, world@),
{
    store.set_launch_override(reference, LaunchField::QuickPlayMode, LaunchValue::QuickPlay(QuickPlayMode::World));
    store.set_launch_override(reference, LaunchField::QuickPlayTarget, LaunchValue::Text(world.to_owned()));
}

/// The label of the import button.
pub fn add_label(kind: ResourceKind) -> (r: &'static str)
    ensures
        r@ == (if kind == ResourceKind::Mods { "Add mods…"@ } else { "Import…"@ }),
{
    if kind == ResourceKind::Mods { "Add mods…" } else { "Import…" }
}

/// The confirmation a delete asks for: its title and explanation.
pub fn delete_confirmation(kind: ResourceKind, name: &str) -> (r: (String, &'static str))
    ensures
        r.0@ == "Delete “"@ + name@ + "”?"@,
        r.1@ == (if kind == ResourceKind::Worlds {
            "The world and its saved progress are removed from this instance."@
        } else {
            "The resource is removed from this instance."@
        }),
{
    let mut out: Vec<char> = Vec::new();
    push_str(&mut out, "Delete “");
    push_str(&mut out, name);
    push_str(&mut out, "”?");
    let message = if kind == ResourceKind::Worlds {
        "The world and its saved progress are removed from this instance."
    } else {
        "The resource is removed from this instance."
    };
    (string_of(&out), message)
}

} // verus!
