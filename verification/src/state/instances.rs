//! Minecraft instance models and instance store operations.
use vstd::prelude::*;

use crate::plain::PlainData;
use crate::route::{InstanceRef, RefView, StorageId};
use crate::seqs::{
    count_by, first_index, lemma_filter_full_means_all, lemma_filter_keeps_all, lemma_first_index,
    position_where, retain_where, select_by,
};
use crate::state::launch::{
    LaunchField, LaunchOverrides, LaunchValue, LaunchValueView,
};
use crate::state::{loader_key, loader_label, Loader};
use crate::text::{decimal, hex, push_decimal, push_hex8, push_str, starts_with, string_of, zero_padded};

verus! {

/// A mod installed in an instance.
#[derive(Clone, Debug, PartialEq, Eq)]
pub struct ModSummary {
    pub id: String,
    /// `None` when the jar metadata could not be read.
    pub name: Option<String>,
    pub version: Option<String>,
    pub file_name: String,
    pub loader: Option<Loader>,
    pub enabled: bool,
}

/// The abstract value of `ModSummary`.
pub struct ModSummaryView {
    pub id: Seq<char>,
    pub name: Option<Seq<char>>,
    pub version: Option<Seq<char>>,
    pub file_name: Seq<char>,
    pub loader: Option<Loader>,
    pub enabled: bool,
}

impl DeepView for ModSummary {
    type V = ModSummaryView;

    open spec fn deep_view(&self) -> ModSummaryView {
        ModSummaryView {
            id: self.id.deep_view(),
            name: self.name.deep_view(),
            version: self.version.deep_view(),
            file_name: self.file_name.deep_view(),
            loader: self.loader.deep_view(),
            enabled: self.enabled.deep_view(),
        }
    }
}

impl View for ModSummary {
    type V = ModSummaryView;

    open spec fn view(&self) -> ModSummaryView {
        self.deep_view()
    }
}

impl PlainData for ModSummary {
    fn same(&self, other: &Self) -> (r: bool) {
        self.id.same(&other.id)
            && self.name.same(&other.name)
            && self.version.same(&other.version)
            && self.file_name.same(&other.file_name)
            && self.loader.same(&other.loader)
            && self.enabled.same(&other.enabled)
    }

    fn copied(&self) -> (r: Self) {
        ModSummary {
            id: self.id.copied(),
            name: self.name.copied(),
            version: self.version.copied(),
            file_name: self.file_name.copied(),
            loader: self.loader.copied(),
            enabled: self.enabled.copied(),
        }
    }
}
impl ModSummary {
    /// The label shown for the mod: its name, or the file name when the
    /// metadata is unreadable.
    pub fn display_name(&self) -> (r: &str)
        ensures
            r@ == match self.name {
                Some(n) => n@,
                None => self.file_name@,
            },
    {
        match &self.name {
            Some(n) => n.as_str(),
            None => self.file_name.as_str(),
        }
    }
}
/// A resource pack of an instance.
#[derive(Clone, Debug, PartialEq, Eq)]
pub struct ResourcePackSummary {
    pub id: String,
    pub name: String,
    pub author: String,
    pub version: String,
    pub description: String,
    pub size: String,
    pub enabled: bool,
}

/// The abstract value of `ResourcePackSummary`.
pub struct ResourcePackSummaryView {
    pub id: Seq<char>,
    pub name: Seq<char>,
    pub author: Seq<char>,
    pub version: Seq<char>,
    pub description: Seq<char>,
    pub size: Seq<char>,
    pub enabled: bool,
}

impl DeepView for ResourcePackSummary {
    type V = ResourcePackSummaryView;

    open spec fn deep_view(&self) -> ResourcePackSummaryView {
        ResourcePackSummaryView {
            id: self.id.deep_view(),
            name: self.name.deep_view(),
            author: self.author.deep_view(),
            version: self.version.deep_view(),
            description: self.description.deep_view(),
            size: self.size.deep_view(),
            enabled: self.enabled.deep_view(),
        }
    }
}

impl View for ResourcePackSummary {
    type V = ResourcePackSummaryView;

    open spec fn view(&self) -> ResourcePackSummaryView {
        self.deep_view()
    }
}

impl PlainData for ResourcePackSummary {
    fn same(&self, other: &Self) -> (r: bool) {
        self.id.same(&other.id)
            && self.name.same(&other.name)
            && self.author.same(&other.author)
            && self.version.same(&other.version)
            && self.description.same(&other.description)
            && self.size.same(&other.size)
            && self.enabled.same(&other.enabled)
    }

    fn copied(&self) -> (r: Self) {
        ResourcePackSummary {
            id: self.id.copied(),
            name: self.name.copied(),
            author: self.author.copied(),
            version: self.version.copied(),
            description: self.description.copied(),
            size: self.size.copied(),
            enabled: self.enabled.copied(),
        }
    }
}
/// A shader pack of an instance.
#[derive(Clone, Debug, PartialEq, Eq)]
pub struct ShaderPackSummary {
    pub id: String,
    pub name: String,
    pub author: String,
    pub version: String,
    pub gpu: String,
    pub enabled: bool,
}

/// The abstract value of `ShaderPackSummary`.
pub struct ShaderPackSummaryView {
    pub id: Seq<char>,
    pub name: Seq<char>,
    pub author: Seq<char>,
    pub version: Seq<char>,
    pub gpu: Seq<char>,
    pub enabled: bool,
}

impl DeepView for ShaderPackSummary {
    type V = ShaderPackSummaryView;

    open spec fn deep_view(&self) -> ShaderPackSummaryView {
        ShaderPackSummaryView {
            id: self.id.deep_view(),
            name: self.name.deep_view(),
            author: self.author.deep_view(),
            version: self.version.deep_view(),
            gpu: self.gpu.deep_view(),
            enabled: self.enabled.deep_view(),
        }
    }
}

impl View for ShaderPackSummary {
    type V = ShaderPackSummaryView;

    open spec fn view(&self) -> ShaderPackSummaryView {
        self.deep_view()
    }
}

impl PlainData for ShaderPackSummary {
    fn same(&self, other: &Self) -> (r: bool) {
        self.id.same(&other.id)
            && self.name.same(&other.name)
            && self.author.same(&other.author)
            && self.version.same(&other.version)
            && self.gpu.same(&other.gpu)
            && self.enabled.same(&other.enabled)
    }

    fn copied(&self) -> (r: Self) {
        ShaderPackSummary {
            id: self.id.copied(),
            name: self.name.copied(),
            author: self.author.copied(),
            version: self.version.copied(),
            gpu: self.gpu.copied(),
            enabled: self.enabled.copied(),
        }
    }
}
/// A saved world of an instance.
#[derive(Clone, Debug, PartialEq, Eq)]
pub struct WorldSummary {
    pub id: String,
    pub name: String,
    pub seed: String,
    pub version: String,
    pub last_played: String,
    pub players: u32,
}

/// The abstract value of `WorldSummary`.
pub struct WorldSummaryView {
    pub id: Seq<char>,
    pub name: Seq<char>,
    pub seed: Seq<char>,
    pub version: Seq<char>,
    pub last_played: Seq<char>,
    pub players: u32,
}

impl DeepView for WorldSummary {
    type V = WorldSummaryView;

    open spec fn deep_view(&self) -> WorldSummaryView {
        WorldSummaryView {
            id: self.id.deep_view(),
            name: self.name.deep_view(),
            seed: self.seed.deep_view(),
            version: self.version.deep_view(),
            last_played: self.last_played.deep_view(),
            players: self.players.deep_view(),
        }
    }
}

impl View for WorldSummary {
    type V = WorldSummaryView;

    open spec fn view(&self) -> WorldSummaryView {
        self.deep_view()
    }
}

impl PlainData for WorldSummary {
    fn same(&self, other: &Self) -> (r: bool) {
        self.id.same(&other.id)
            && self.name.same(&other.name)
            && self.seed.same(&other.seed)
            && self.version.same(&other.version)
            && self.last_played.same(&other.last_played)
            && self.players.same(&other.players)
    }

    fn copied(&self) -> (r: Self) {
        WorldSummary {
            id: self.id.copied(),
            name: self.name.copied(),
            seed: self.seed.copied(),
            version: self.version.copied(),
            last_played: self.last_played.copied(),
            players: self.players.copied(),
        }
    }
}
/// A Java runtime the launcher can start the game with.
#[derive(Clone, Debug, PartialEq, Eq)]
pub struct JavaRuntimeSummary {
    pub id: String,
    pub name: String,
    pub version: u32,
    pub version_string: String,
    /// The executable path.
    pub path: String,
    pub managed: bool,
}

/// The abstract value of `JavaRuntimeSummary`.
pub struct JavaRuntimeSummaryView {
    pub id: Seq<char>,
    pub name: Seq<char>,
    pub version: u32,
    pub version_string: Seq<char>,
    pub path: Seq<char>,
    pub managed: bool,
}

impl DeepView for JavaRuntimeSummary {
    type V = JavaRuntimeSummaryView;

    open spec fn deep_view(&self) -> JavaRuntimeSummaryView {
        JavaRuntimeSummaryView {
            id: self.id.deep_view(),
            name: self.name.deep_view(),
            version: self.version.deep_view(),
            version_string: self.version_string.deep_view(),
            path: self.path.deep_view(),
            managed: self.managed.deep_view(),
        }
    }
}

impl View for JavaRuntimeSummary {
    type V = JavaRuntimeSummaryView;

    open spec fn view(&self) -> JavaRuntimeSummaryView {
        self.deep_view()
    }
}

impl PlainData for JavaRuntimeSummary {
    fn same(&self, other: &Self) -> (r: bool) {
        self.id.same(&other.id)
            && self.name.same(&other.name)
            && self.version.same(&other.version)
            && self.version_string.same(&other.version_string)
            && self.path.same(&other.path)
            && self.managed.same(&other.managed)
    }

    fn copied(&self) -> (r: Self) {
        JavaRuntimeSummary {
            id: self.id.copied(),
            name: self.name.copied(),
            version: self.version.copied(),
            version_string: self.version_string.copied(),
            path: self.path.copied(),
            managed: self.managed.copied(),
        }
    }
}
/// A Minecraft instance as the launcher shows it.
#[derive(Clone, Debug, PartialEq, Eq)]
pub struct InstanceSummary {
    pub storage_id: StorageId,
    pub id: String,
    /// Deterministic seed for the generated icon, in `name|mcVersion|loader` form.
    pub icon_seed: String,
    pub name: String,
    pub aphanite: bool,
    pub favorite: bool,
    pub description: String,
    pub loader: Loader,
    pub mc_version: String,
    pub loader_version: String,
    pub java: String,
    pub java_runtime_id: String,
    pub created_at: String,
    pub last_played: Option<String>,
    pub play_count: u32,
    pub last_crash_id: Option<String>,
    pub launch_overrides: LaunchOverrides,
    pub mods: Vec<ModSummary>,
    pub resource_packs: Vec<ResourcePackSummary>,
    pub shader_packs: Vec<ShaderPackSummary>,
    pub worlds: Vec<WorldSummary>,
}

/// The abstract value of `InstanceSummary`.
pub struct InstanceSummaryView {
    pub storage_id: u64,
    pub id: Seq<char>,
    pub icon_seed: Seq<char>,
    pub name: Seq<char>,
    pub aphanite: bool,
    pub favorite: bool,
    pub description: Seq<char>,
    pub loader: Loader,
    pub mc_version: Seq<char>,
    pub loader_version: Seq<char>,
    pub java: Seq<char>,
    pub java_runtime_id: Seq<char>,
    pub created_at: Seq<char>,
    pub last_played: Option<Seq<char>>,
    pub play_count: u32,
    pub last_crash_id: Option<Seq<char>>,
    pub launch_overrides: Map<LaunchField, LaunchValueView>,
    pub mods: Seq<ModSummaryView>,
    pub resource_packs: Seq<ResourcePackSummaryView>,
    pub shader_packs: Seq<ShaderPackSummaryView>,
    pub worlds: Seq<WorldSummaryView>,
}

impl DeepView for InstanceSummary {
    type V = InstanceSummaryView;

    open spec fn deep_view(&self) -> InstanceSummaryView {
        InstanceSummaryView {
            storage_id: self.storage_id.deep_view(),
            id: self.id.deep_view(),
            icon_seed: self.icon_seed.deep_view(),
            name: self.name.deep_view(),
            aphanite: self.aphanite.deep_view(),
            favorite: self.favorite.deep_view(),
            description: self.description.deep_view(),
            loader: self.loader.deep_view(),
            mc_version: self.mc_version.deep_view(),
            loader_version: self.loader_version.deep_view(),
            java: self.java.deep_view(),
            java_runtime_id: self.java_runtime_id.deep_view(),
            created_at: self.created_at.deep_view(),
            last_played: self.last_played.deep_view(),
            play_count: self.play_count.deep_view(),
            last_crash_id: self.last_crash_id.deep_view(),
            launch_overrides: self.launch_overrides.deep_view(),
            mods: self.mods.deep_view(),
            resource_packs: self.resource_packs.deep_view(),
            shader_packs: self.shader_packs.deep_view(),
            worlds: self.worlds.deep_view(),
        }
    }
}

impl View for InstanceSummary {
    type V = InstanceSummaryView;

    open spec fn view(&self) -> InstanceSummaryView {
        self.deep_view()
    }
}

impl PlainData for InstanceSummary {
    fn same(&self, other: &Self) -> (r: bool) {
        self.storage_id.same(&other.storage_id)
            && self.id.same(&other.id)
            && self.icon_seed.same(&other.icon_seed)
            && self.name.same(&other.name)
            && self.aphanite.same(&other.aphanite)
            && self.favorite.same(&other.favorite)
            && self.description.same(&other.description)
            && self.loader.same(&other.loader)
            && self.mc_version.same(&other.mc_version)
            && self.loader_version.same(&other.loader_version)
            && self.java.same(&other.java)
            && self.java_runtime_id.same(&other.java_runtime_id)
            && self.created_at.same(&other.created_at)
            && self.last_played.same(&other.last_played)
            && self.play_count.same(&other.play_count)
            && self.last_crash_id.same(&other.last_crash_id)
            && self.launch_overrides.same(&other.launch_overrides)
            && self.mods.same(&other.mods)
            && self.resource_packs.same(&other.resource_packs)
            && self.shader_packs.same(&other.shader_packs)
            && self.worlds.same(&other.worlds)
    }

    fn copied(&self) -> (r: Self) {
        InstanceSummary {
            storage_id: self.storage_id.copied(),
            id: self.id.copied(),
            icon_seed: self.icon_seed.copied(),
            name: self.name.copied(),
            aphanite: self.aphanite.copied(),
            favorite: self.favorite.copied(),
            description: self.description.copied(),
            loader: self.loader.copied(),
            mc_version: self.mc_version.copied(),
            loader_version: self.loader_version.copied(),
            java: self.java.copied(),
            java_runtime_id: self.java_runtime_id.copied(),
            created_at: self.created_at.copied(),
            last_played: self.last_played.copied(),
            play_count: self.play_count.copied(),
            last_crash_id: self.last_crash_id.copied(),
            launch_overrides: self.launch_overrides.copied(),
            mods: self.mods.copied(),
            resource_packs: self.resource_packs.copied(),
            shader_packs: self.shader_packs.copied(),
            worlds: self.worlds.copied(),
        }
    }
}
/// The fields the create-instance dialog collects.
#[derive(Clone, Debug, PartialEq, Eq)]
pub struct NewInstance {
    pub name: String,
    pub description: String,
    pub mc_version: String,
    pub loader: Loader,
    pub loader_version: String,
    pub memory: u32,
}

/// The abstract value of `NewInstance`.
pub struct NewInstanceView {
    pub name: Seq<char>,
    pub description: Seq<char>,
    pub mc_version: Seq<char>,
    pub loader: Loader,
    pub loader_version: Seq<char>,
    pub memory: u32,
}

impl DeepView for NewInstance {
    type V = NewInstanceView;

    open spec fn deep_view(&self) -> NewInstanceView {
        NewInstanceView {
            name: self.name.deep_view(),
            description: self.description.deep_view(),
            mc_version: self.mc_version.deep_view(),
            loader: self.loader.deep_view(),
            loader_version: self.loader_version.deep_view(),
            memory: self.memory.deep_view(),
        }
    }
}

impl View for NewInstance {
    type V = NewInstanceView;

    open spec fn view(&self) -> NewInstanceView {
        self.deep_view()
    }
}

impl PlainData for NewInstance {
    fn same(&self, other: &Self) -> (r: bool) {
        self.name.same(&other.name)
            && self.description.same(&other.description)
            && self.mc_version.same(&other.mc_version)
            && self.loader.same(&other.loader)
            && self.loader_version.same(&other.loader_version)
            && self.memory.same(&other.memory)
    }

    fn copied(&self) -> (r: Self) {
        NewInstance {
            name: self.name.copied(),
            description: self.description.copied(),
            mc_version: self.mc_version.copied(),
            loader: self.loader.copied(),
            loader_version: self.loader_version.copied(),
            memory: self.memory.copied(),
        }
    }
}
/// The icon seed of an instance: `name|mc_version|loader-key`.
pub open spec fn icon_seed_of(name: Seq<char>, mc_version: Seq<char>, loader: Loader) -> Seq<char> {
    name + seq!['|'] + mc_version + seq!['|'] + loader_key(loader)
}

/// The seed string for an instance's generated artwork.
pub fn icon_seed(name: &str, mc_version: &str, loader: Loader) -> (r: String)
    ensures
        r@ == icon_seed_of(name@, mc_version@, loader),
{
    let mut out: Vec<char> = Vec::new();
    push_str(&mut out, name);
    out.push('|');
    push_str(&mut out, mc_version);
    out.push('|');
    push_str(&mut out, loader.key());
    assert(out@ =~= icon_seed_of(name@, mc_version@, loader));
    string_of(&out)
}

/// Selects the enabled mods.
pub open spec fn mod_enabled() -> spec_fn(ModSummaryView) -> bool {
    |m: ModSummaryView| m.enabled
}

/// The loader shown for an instance: `Vanilla`, or the loader's label and
/// version separated by a space.
pub open spec fn loader_label_of(v: InstanceSummaryView) -> Seq<char> {
    if v.loader == Loader::Vanilla {
        loader_label(v.loader)
    } else {
        loader_label(v.loader) + seq![' '] + v.loader_version
    }
}

impl InstanceSummary {
    /// The reference that names this instance.
    pub fn reference(&self) -> (r: InstanceRef)
        ensures
            r@ == (RefView { storage: self@.storage_id, id: self@.id }),
    {
        InstanceRef { storage_id: self.storage_id, instance_id: self.id.clone() }
    }

    /// The number of enabled mods.
    pub fn enabled_mods(&self) -> (r: usize)
        ensures
            r == self@.mods.filter(mod_enabled()).len(),
    {
        count_by(
            self.mods.as_slice(),
            |m: &ModSummary| -> (b: bool) ensures b == m.deep_view().enabled { m.enabled },
            Ghost(mod_enabled()),
        )
    }

    /// `Fabric 0.115.1+1.21.4`, or just `Vanilla` when there is no loader.
    pub fn loader_label(&self) -> (r: String)
        ensures
            r@ == loader_label_of(self@),
    {
        let mut out: Vec<char> = Vec::new();
        push_str(&mut out, self.loader.label());
        if self.loader != Loader::Vanilla {
            out.push(' ');
            push_str(&mut out, self.loader_version.as_str());
        }
        assert(out@ =~= loader_label_of(self@));
        string_of(&out)
    }
}

/// The abstract state of an instance store.
pub struct InstanceStoreView {
    pub instances: Seq<InstanceSummaryView>,
    pub current_storage: Option<u64>,
    pub next_id: u64,
    pub revision: u64,
}

/// Selects the instance a reference names.
pub open spec fn named(r: RefView) -> spec_fn(InstanceSummaryView) -> bool {
    |i: InstanceSummaryView| i.storage_id == r.storage && i.id == r.id
}

/// Selects every instance but the one a reference names.
pub open spec fn not_named(r: RefView) -> spec_fn(InstanceSummaryView) -> bool {
    |i: InstanceSummaryView| !(i.storage_id == r.storage && i.id == r.id)
}

/// The instance a mutation through `r` acts on: only references into the
/// storage the store is currently scoped to reach an instance.
pub open spec fn target(s: InstanceStoreView, r: RefView) -> Option<int> {
    if s.current_storage == Some(r.storage) {
        first_index(s.instances, named(r))
    } else {
        None
    }
}

/// The store with its revision advanced by one and nothing else changed.
pub open spec fn bumped(s: InstanceStoreView, instances: Seq<InstanceSummaryView>) -> InstanceStoreView {
    InstanceStoreView { instances, revision: (s.revision + 1) as u64, ..s }
}

/// Selects the favorite instances.
pub open spec fn is_favorite() -> spec_fn(InstanceSummaryView) -> bool {
    |i: InstanceSummaryView| i.favorite
}

/// Selects the local instances that are not favorites.
pub open spec fn is_local_unfavorited() -> spec_fn(InstanceSummaryView) -> bool {
    |i: InstanceSummaryView| !i.aphanite && !i.favorite
}

/// Selects the Aphanite instances that are not favorites.
pub open spec fn is_aphanite_unfavorited() -> spec_fn(InstanceSummaryView) -> bool {
    |i: InstanceSummaryView| i.aphanite && !i.favorite
}

/// The sidebar's groups split the instances: the favorites group holds the
/// favorites, the local group the non-Aphanite instances that are not
/// favorites, the Aphanite group the Aphanite instances that are not
/// favorites; so no instance is listed twice, and together the groups list
/// every instance.
pub proof fn law_sidebar_groups_partition(instances: Seq<InstanceSummaryView>)
    ensures
        forall|k: int| 0 <= k < instances.filter(is_favorite()).len() ==> (#[trigger] instances.filter(is_favorite())[k]).favorite,
        forall|k: int| 0 <= k < instances.filter(is_local_unfavorited()).len() ==> {
            let i = #[trigger] instances.filter(is_local_unfavorited())[k];
            !i.favorite && !i.aphanite
        },
        forall|k: int| 0 <= k < instances.filter(is_aphanite_unfavorited()).len() ==> {
            let i = #[trigger] instances.filter(is_aphanite_unfavorited())[k];
            !i.favorite && i.aphanite
        },
        instances.filter(is_favorite()).len() + instances.filter(is_local_unfavorited()).len()
            + instances.filter(is_aphanite_unfavorited()).len() == instances.len(),
    decreases instances.len(),
{
    reveal(Seq::filter);
    if instances.len() > 0 {
        let rest = instances.drop_last();
        law_sidebar_groups_partition(rest);
        let x = instances.last();
        assert forall|k: int| 0 <= k < instances.filter(is_favorite()).len() implies (#[trigger] instances.filter(is_favorite())[k]).favorite by {
            instances.filter_lemma(is_favorite());
        }
        assert forall|k: int| 0 <= k < instances.filter(is_local_unfavorited()).len() implies {
            let i = #[trigger] instances.filter(is_local_unfavorited())[k];
            !i.favorite && !i.aphanite
        } by {
            instances.filter_lemma(is_local_unfavorited());
        }
        assert forall|k: int| 0 <= k < instances.filter(is_aphanite_unfavorited()).len() implies {
            let i = #[trigger] instances.filter(is_aphanite_unfavorited())[k];
            !i.favorite && i.aphanite
        } by {
            instances.filter_lemma(is_aphanite_unfavorited());
        }
    }
}

/// Selects the Aphanite instances.
pub open spec fn is_aphanite() -> spec_fn(InstanceSummaryView) -> bool {
    |i: InstanceSummaryView| i.aphanite
}

/// An id the store allocates: `prefix-` and the counter as at least eight
/// lower-case hexadecimal digits.
pub open spec fn allocated_id(prefix: Seq<char>, n: u64) -> Seq<char> {
    prefix + seq!['-'] + zero_padded(hex(n as nat), 8)
}

/// The launcher's instances and a revision that advances exactly when they
/// change. Mutations only reach instances of the storage the store is scoped
/// to, so late results for another storage are ignored.
#[derive(Default)]
pub struct InstanceStore {
    instances: Vec<InstanceSummary>,
    current_storage: Option<StorageId>,
    next_id: u64,
    revision: u64,
}

impl View for InstanceStore {
    type V = InstanceStoreView;

    closed spec fn view(&self) -> InstanceStoreView {
        InstanceStoreView {
            instances: self.instances.deep_view(),
            current_storage: self.current_storage.deep_view(),
            next_id: self.next_id,
            revision: self.revision,
        }
    }
}

impl InstanceStore {
    pub fn new(instances: Vec<InstanceSummary>) -> (r: Self)
        ensures
            r@ == (InstanceStoreView {
                instances: instances.deep_view(),
                current_storage: None,
                next_id: 0,
                revision: 0,
            }),
    {
        InstanceStore { instances, current_storage: None, next_id: 0, revision: 0 }
    }

    pub fn all(&self) -> (r: &[InstanceSummary])
        ensures
            r.deep_view() == self@.instances,
    {
        self.instances.as_slice()
    }

    pub fn len(&self) -> (r: usize)
        ensures
            r == self@.instances.len(),
    {
        self.instances.len()
    }

    pub fn is_empty(&self) -> (r: bool)
        ensures
            r == (self@.instances.len() == 0),
    {
        self.instances.is_empty()
    }

    fn position(&self, storage: StorageId, id: &str) -> (r: Option<usize>)
        ensures
            r matches Some(k) ==> first_index(self@.instances, named(RefView { storage: storage@, id: id@ })) == Some(k as int),
            r is None ==> first_index(self@.instances, named(RefView { storage: storage@, id: id@ })) is None,
    {
        let ghost t = RefView { storage: storage@, id: id@ };
        position_where(
            &self.instances,
            |i: &InstanceSummary| -> (b: bool) ensures b == (i.deep_view().storage_id == t.storage && i.deep_view().id == t.id) { i.storage_id.value() == storage.value() && crate::text::str_eq(i.id.as_str(), id) },
            Ghost(named(t)),
        )
    }

    /// The instance `id` of `storage`, whatever storage the store is scoped to.
    pub fn get(&self, storage: StorageId, id: &str) -> (r: Option<&InstanceSummary>)
        ensures
            r matches Some(i) ==> first_index(self@.instances, named(RefView { storage: storage@, id: id@ })) matches Some(k)
                && i.deep_view() == self@.instances[k],
            r is None ==> first_index(self@.instances, named(RefView { storage: storage@, id: id@ })) is None,
    {
        proof {
            lemma_first_index(self@.instances, named(RefView { storage: storage@, id: id@ }));
        }
        match self.position(storage, id) {
            Some(k) => Some(&self.instances[k]),
            None => None,
        }
    }

    /// The instance a reference names.
    pub fn find(&self, reference: &InstanceRef) -> (r: Option<&InstanceSummary>)
        ensures
            r matches Some(i) ==> first_index(self@.instances, named(reference@)) matches Some(k)
                && i.deep_view() == self@.instances[k],
            r is None ==> first_index(self@.instances, named(reference@)) is None,
    {
        self.get(reference.storage_id, reference.instance_id.as_str())
    }

    /// The favorite instances, in order.
    pub fn favorites(&self) -> (r: Vec<&InstanceSummary>)
        ensures
            r.deep_view() == self@.instances.filter(is_favorite()),
    {
        select_by(&self.instances, |i: &InstanceSummary| -> (b: bool) ensures b == i.deep_view().favorite { i.favorite }, Ghost(is_favorite()))
    }

    /// The local instances that are not favorites, in order.
    pub fn local(&self) -> (r: Vec<&InstanceSummary>)
        ensures
            r.deep_view() == self@.instances.filter(is_local_unfavorited()),
    {
        select_by(&self.instances, |i: &InstanceSummary| -> (b: bool) ensures b == (!i.deep_view().aphanite && !i.deep_view().favorite) { !i.aphanite && !i.favorite }, Ghost(is_local_unfavorited()))
    }

    /// The Aphanite instances that are not favorites, in order.
    pub fn aphanite_unfavorited(&self) -> (r: Vec<&InstanceSummary>)
        ensures
            r.deep_view() == self@.instances.filter(is_aphanite_unfavorited()),
    {
        select_by(&self.instances, |i: &InstanceSummary| -> (b: bool) ensures b == (i.deep_view().aphanite && !i.deep_view().favorite) { i.aphanite && !i.favorite }, Ghost(is_aphanite_unfavorited()))
    }

    /// The Aphanite instances, in order.
    pub fn aphanite(&self) -> (r: Vec<&InstanceSummary>)
        ensures
            r.deep_view() == self@.instances.filter(is_aphanite()),
    {
        select_by(&self.instances, |i: &InstanceSummary| -> (b: bool) ensures b == i.deep_view().aphanite { i.aphanite }, Ghost(is_aphanite()))
    }

    /// Scopes mutations to `id`.
    pub fn set_storage_context(&mut self, id: StorageId)
        ensures
            final(self)@ == (InstanceStoreView { current_storage: Some(id@), ..old(self)@ }),
    {
        self.current_storage = Some(id);
    }

    pub fn storage_context(&self) -> (r: Option<StorageId>)
        ensures
            r.deep_view() == self@.current_storage,
    {
        self.current_storage
    }

    pub fn revision(&self) -> (r: u64)
        ensures
            r == self@.revision,
    {
        self.revision
    }

    /// The position of the instance a mutation through `reference` acts on.
    fn locate(&self, reference: &InstanceRef) -> (r: Option<usize>)
        ensures
            r matches Some(k) ==> target(self@, reference@) == Some(k as int) && k < self@.instances.len(),
            r is None ==> target(self@, reference@) is None,
    {
        proof {
            lemma_first_index(self@.instances, named(reference@));
        }
        match self.current_storage {
            Some(s) => {
                if s.value() != reference.storage_id.value() {
                    return None;
                }
            },
            None => {
                return None;
            },
        }
        self.position(reference.storage_id, reference.instance_id.as_str())
    }

    /// Allocates a deterministic id inside this store: `prefix-` and a
    /// counter in eight hexadecimal digits.
    fn allocate_id(&mut self, prefix: &str) -> (r: String)
        requires
            old(self)@.next_id < u64::MAX,
        ensures
            final(self)@ == (InstanceStoreView { next_id: (old(self)@.next_id + 1) as u64, ..old(self)@ }),
            r@ == allocated_id(prefix@, final(self)@.next_id),
    {
        self.next_id += 1;
        let mut out: Vec<char> = Vec::new();
        push_str(&mut out, prefix);
        out.push('-');
        push_hex8(&mut out, self.next_id);
        assert(out@ =~= allocated_id(prefix@, self.next_id));
        string_of(&out)
    }
}

/// The outcome of a mutation that may or may not change one instance: nothing
/// changes when the reference reaches no instance or `changed` is `None`;
/// otherwise instance `k` becomes the given value and the revision advances.
pub open spec fn mutated(
    old: InstanceStoreView,
    new: InstanceStoreView,
    r: bool,
    reference: RefView,
    changed: spec_fn(InstanceSummaryView) -> Option<InstanceSummaryView>,
) -> bool {
    match target(old, reference) {
        None => !r && new == old,
        Some(k) => match changed(old.instances[k]) {
            None => !r && new == old,
            Some(v) => r && new == bumped(old, old.instances.update(k, v)),
        },
    }
}

/// A mutation through a reference into a storage other than the one the
/// store is scoped to changes nothing: late results of another storage are
/// ignored.
pub proof fn law_other_storage_is_untouched(
    old: InstanceStoreView,
    new: InstanceStoreView,
    r: bool,
    reference: RefView,
    changed: spec_fn(InstanceSummaryView) -> Option<InstanceSummaryView>,
)
    requires
        mutated(old, new, r, reference, changed),
        old.current_storage != Some(reference.storage),
    ensures
        !r,
        new == old,
{
}

/// The revision advances exactly when a mutation changes the store: by one
/// with a change, not at all without one; and only the targeted instance
/// changes.
pub proof fn law_revision_tracks_change(
    old: InstanceStoreView,
    new: InstanceStoreView,
    r: bool,
    reference: RefView,
    changed: spec_fn(InstanceSummaryView) -> Option<InstanceSummaryView>,
)
    requires
        mutated(old, new, r, reference, changed),
        old.revision < u64::MAX,
    ensures
        new.revision == if r { old.revision + 1 } else { old.revision as int },
        !r ==> new == old,
        new.instances.len() == old.instances.len(),
        r ==> exists|k: int| #![trigger old.instances[k]] 0 <= k < old.instances.len() && forall|j: int| 0 <= j < old.instances.len() && j != k
            ==> #[trigger] new.instances[j] == old.instances[j],
{
    if r {
        let k = target(old, reference)->0;
        crate::seqs::lemma_first_index(old.instances, named(reference));
        assert(forall|j: int| 0 <= j < old.instances.len() && j != k ==> #[trigger] new.instances[j] == old.instances[j]);
        assert(old.instances[k] == old.instances[k]);
    }
}

/// Setting the favorite flag.
pub open spec fn favorite_change(value: bool) -> spec_fn(InstanceSummaryView) -> Option<InstanceSummaryView> {
    |i: InstanceSummaryView| if i.favorite == value {
        None
    } else {
        Some(InstanceSummaryView { favorite: value, ..i })
    }
}

/// Enabling or disabling the mod `id`.
pub open spec fn mod_enabled_change(id: Seq<char>, value: bool) -> spec_fn(InstanceSummaryView) -> Option<InstanceSummaryView> {
    |i: InstanceSummaryView| match first_index(i.mods, |m: ModSummaryView| m.id == id) {
        None => None,
        Some(j) => if i.mods[j].enabled == value {
            None
        } else {
            Some(InstanceSummaryView { mods: i.mods.update(j, ModSummaryView { enabled: value, ..i.mods[j] }), ..i })
        },
    }
}

impl InstanceStore {
    pub fn set_favorite(&mut self, reference: &InstanceRef, value: bool) -> (r: bool)
        requires
            old(self)@.revision < u64::MAX,
        ensures
            mutated(old(self)@, final(self)@, r, reference@, favorite_change(value)),
    {
        let k = match self.locate(reference) {
            Some(k) => k,
            None => return false,
        };
        if self.instances[k].favorite == value {
            return false;
        }
        self.instances[k].favorite = value;
        self.revision += 1;
        proof {
            let o = old(self)@.instances;
            assert(self@.instances =~= o.update(k as int, InstanceSummaryView { favorite: value, ..o[k as int] }));
        }
        true
    }

    /// Flips the favorite flag of the instance a reference names.
    pub fn toggle_favorite(&mut self, reference: &InstanceRef) -> (r: bool)
        requires
            old(self)@.revision < u64::MAX,
        ensures
            match first_index(old(self)@.instances, named(reference@)) {
                None => !r && final(self)@ == old(self)@,
                Some(k) => mutated(old(self)@, final(self)@, r, reference@, favorite_change(!old(self)@.instances[k].favorite)),
            },
    {
        let current = match self.find(reference) {
            Some(instance) => instance.favorite,
            None => return false,
        };
        self.set_favorite(reference, !current)
    }

    pub fn set_mod_enabled(&mut self, reference: &InstanceRef, mod_id: &str, value: bool) -> (r: bool)
        requires
            old(self)@.revision < u64::MAX,
        ensures
            mutated(old(self)@, final(self)@, r, reference@, mod_enabled_change(mod_id@, value)),
    {
        let k = match self.locate(reference) {
            Some(k) => k,
            None => return false,
        };
        let ghost t = mod_id@;
        let ghost p = |m: ModSummaryView| m.id == t;
        proof {
            lemma_first_index(self@.instances[k as int].mods, p);
        }
        let j = match position_where(
            &self.instances[k].mods,
            |m: &ModSummary| -> (b: bool) ensures b == (m.deep_view().id == t) { crate::text::str_eq(m.id.as_str(), mod_id) },
            Ghost(p),
        ) {
            Some(j) => j,
            None => return false,
        };
        if self.instances[k].mods[j].enabled == value {
            return false;
        }
        self.instances[k].mods[j].enabled = value;
        self.revision += 1;
        proof {
            let o = old(self)@.instances;
            let i = o[k as int];
            assert(self@.instances[k as int].mods =~= i.mods.update(j as int, ModSummaryView { enabled: value, ..i.mods[j as int] }));
            assert(self@.instances =~= o.update(k as int, InstanceSummaryView { mods: i.mods.update(j as int, ModSummaryView { enabled: value, ..i.mods[j as int] }), ..i }));
        }
        true
    }
}


/// Enabling or disabling the resource pack `id`.
pub open spec fn resource_packs_enabled_change(id: Seq<char>, value: bool) -> spec_fn(InstanceSummaryView) -> Option<InstanceSummaryView> {
    |i: InstanceSummaryView| match first_index(i.resource_packs, |m: ResourcePackSummaryView| m.id == id) {
        None => None,
        Some(j) => if i.resource_packs[j].enabled == value {
            None
        } else {
            Some(InstanceSummaryView { resource_packs: i.resource_packs.update(j, ResourcePackSummaryView { enabled: value, ..i.resource_packs[j] }), ..i })
        },
    }
}

impl InstanceStore {
    pub fn set_resource_pack_enabled(&mut self, reference: &InstanceRef, pack_id: &str, value: bool) -> (r: bool)
        requires
            old(self)@.revision < u64::MAX,
        ensures
            mutated(old(self)@, final(self)@, r, reference@, resource_packs_enabled_change(pack_id@, value)),
    {
        let k = match self.locate(reference) {
            Some(k) => k,
            None => return false,
        };
        let ghost t = pack_id@;
        let ghost p = |m: ResourcePackSummaryView| m.id == t;
        proof {
            lemma_first_index(self@.instances[k as int].resource_packs, p);
        }
        let j = match position_where(
            &self.instances[k].resource_packs,
            |m: &ResourcePackSummary| -> (b: bool) ensures b == (m.deep_view().id == t) { crate::text::str_eq(m.id.as_str(), pack_id) },
            Ghost(p),
        ) {
            Some(j) => j,
            None => return false,
        };
        if self.instances[k].resource_packs[j].enabled == value {
            return false;
        }
        self.instances[k].resource_packs[j].enabled = value;
        self.revision += 1;
        proof {
            let o = old(self)@.instances;
            let i = o[k as int];
            assert(self@.instances[k as int].resource_packs =~= i.resource_packs.update(j as int, ResourcePackSummaryView { enabled: value, ..i.resource_packs[j as int] }));
            assert(self@.instances =~= o.update(k as int, InstanceSummaryView { resource_packs: i.resource_packs.update(j as int, ResourcePackSummaryView { enabled: value, ..i.resource_packs[j as int] }), ..i }));
        }
        true
    }
}

/// Enabling or disabling the shader pack `id`.
pub open spec fn shader_packs_enabled_change(id: Seq<char>, value: bool) -> spec_fn(InstanceSummaryView) -> Option<InstanceSummaryView> {
    |i: InstanceSummaryView| match first_index(i.shader_packs, |m: ShaderPackSummaryView| m.id == id) {
        None => None,
        Some(j) => if i.shader_packs[j].enabled == value {
            None
        } else {
            Some(InstanceSummaryView { shader_packs: i.shader_packs.update(j, ShaderPackSummaryView { enabled: value, ..i.shader_packs[j] }), ..i })
        },
    }
}

impl InstanceStore {
    pub fn set_shader_pack_enabled(&mut self, reference: &InstanceRef, pack_id: &str, value: bool) -> (r: bool)
        requires
            old(self)@.revision < u64::MAX,
        ensures
            mutated(old(self)@, final(self)@, r, reference@, shader_packs_enabled_change(pack_id@, value)),
    {
        let k = match self.locate(reference) {
            Some(k) => k,
            None => return false,
        };
        let ghost t = pack_id@;
        let ghost p = |m: ShaderPackSummaryView| m.id == t;
        proof {
            lemma_first_index(self@.instances[k as int].shader_packs, p);
        }
        let j = match position_where(
            &self.instances[k].shader_packs,
            |m: &ShaderPackSummary| -> (b: bool) ensures b == (m.deep_view().id == t) { crate::text::str_eq(m.id.as_str(), pack_id) },
            Ghost(p),
        ) {
            Some(j) => j,
            None => return false,
        };
        if self.instances[k].shader_packs[j].enabled == value {
            return false;
        }
        self.instances[k].shader_packs[j].enabled = value;
        self.revision += 1;
        proof {
            let o = old(self)@.instances;
            let i = o[k as int];
            assert(self@.instances[k as int].shader_packs =~= i.shader_packs.update(j as int, ShaderPackSummaryView { enabled: value, ..i.shader_packs[j as int] }));
            assert(self@.instances =~= o.update(k as int, InstanceSummaryView { shader_packs: i.shader_packs.update(j as int, ShaderPackSummaryView { enabled: value, ..i.shader_packs[j as int] }), ..i }));
        }
        true
    }
}

/// Removing every mod with the id `id`.
pub open spec fn mods_removal(id: Seq<char>) -> spec_fn(InstanceSummaryView) -> Option<InstanceSummaryView> {
    |i: InstanceSummaryView| {
        let kept = i.mods.filter(|m: ModSummaryView| m.id != id);
        if kept.len() == i.mods.len() {
            None
        } else {
            Some(InstanceSummaryView { mods: kept, ..i })
        }
    }
}

impl InstanceStore {
    pub fn remove_mod(&mut self, reference: &InstanceRef, mod_id: &str) -> (r: bool)
        requires
            old(self)@.revision < u64::MAX,
        ensures
            mutated(old(self)@, final(self)@, r, reference@, mods_removal(mod_id@)),
    {
        let k = match self.locate(reference) {
            Some(k) => k,
            None => return false,
        };
        let ghost t = mod_id@;
        let ghost p = |m: ModSummaryView| m.id != t;
        let before = self.instances[k].mods.len();
        retain_where(
            &mut self.instances[k].mods,
            |m: &ModSummary| -> (b: bool) ensures b == (m.deep_view().id != t) { !crate::text::str_eq(m.id.as_str(), mod_id) },
            Ghost(p),
        );
        let ghost o = old(self)@.instances;
        if self.instances[k].mods.len() == before {
            proof {
                lemma_filter_full_means_all(o[k as int].mods, p);
                lemma_filter_keeps_all(o[k as int].mods, p);
                assert(self@.instances =~= o);
            }
            return false;
        }
        self.revision += 1;
        proof {
            let i = o[k as int];
            assert(self@.instances =~= o.update(k as int, InstanceSummaryView { mods: i.mods.filter(p), ..i }));
        }
        true
    }
}

/// Removing every resource pack with the id `id`.
pub open spec fn resource_packs_removal(id: Seq<char>) -> spec_fn(InstanceSummaryView) -> Option<InstanceSummaryView> {
    |i: InstanceSummaryView| {
        let kept = i.resource_packs.filter(|m: ResourcePackSummaryView| m.id != id);
        if kept.len() == i.resource_packs.len() {
            None
        } else {
            Some(InstanceSummaryView { resource_packs: kept, ..i })
        }
    }
}

impl InstanceStore {
    pub fn remove_resource_pack(&mut self, reference: &InstanceRef, pack_id: &str) -> (r: bool)
        requires
            old(self)@.revision < u64::MAX,
        ensures
            mutated(old(self)@, final(self)@, r, reference@, resource_packs_removal(pack_id@)),
    {
        let k = match self.locate(reference) {
            Some(k) => k,
            None => return false,
        };
        let ghost t = pack_id@;
        let ghost p = |m: ResourcePackSummaryView| m.id != t;
        let before = self.instances[k].resource_packs.len();
        retain_where(
            &mut self.instances[k].resource_packs,
            |m: &ResourcePackSummary| -> (b: bool) ensures b == (m.deep_view().id != t) { !crate::text::str_eq(m.id.as_str(), pack_id) },
            Ghost(p),
        );
        let ghost o = old(self)@.instances;
        if self.instances[k].resource_packs.len() == before {
            proof {
                lemma_filter_full_means_all(o[k as int].resource_packs, p);
                lemma_filter_keeps_all(o[k as int].resource_packs, p);
                assert(self@.instances =~= o);
            }
            return false;
        }
        self.revision += 1;
        proof {
            let i = o[k as int];
            assert(self@.instances =~= o.update(k as int, InstanceSummaryView { resource_packs: i.resource_packs.filter(p), ..i }));
        }
        true
    }
}

/// Removing every shader pack with the id `id`.
pub open spec fn shader_packs_removal(id: Seq<char>) -> spec_fn(InstanceSummaryView) -> Option<InstanceSummaryView> {
    |i: InstanceSummaryView| {
        let kept = i.shader_packs.filter(|m: ShaderPackSummaryView| m.id != id);
        if kept.len() == i.shader_packs.len() {
            None
        } else {
            Some(InstanceSummaryView { shader_packs: kept, ..i })
        }
    }
}

impl InstanceStore {
    pub fn remove_shader_pack(&mut self, reference: &InstanceRef, pack_id: &str) -> (r: bool)
        requires
            old(self)@.revision < u64::MAX,
        ensures
            mutated(old(self)@, final(self)@, r, reference@, shader_packs_removal(pack_id@)),
    {
        let k = match self.locate(reference) {
            Some(k) => k,
            None => return false,
        };
        let ghost t = pack_id@;
        let ghost p = |m: ShaderPackSummaryView| m.id != t;
        let before = self.instances[k].shader_packs.len();
        retain_where(
            &mut self.instances[k].shader_packs,
            |m: &ShaderPackSummary| -> (b: bool) ensures b == (m.deep_view().id != t) { !crate::text::str_eq(m.id.as_str(), pack_id) },
            Ghost(p),
        );
        let ghost o = old(self)@.instances;
        if self.instances[k].shader_packs.len() == before {
            proof {
                lemma_filter_full_means_all(o[k as int].shader_packs, p);
                lemma_filter_keeps_all(o[k as int].shader_packs, p);
                assert(self@.instances =~= o);
            }
            return false;
        }
        self.revision += 1;
        proof {
            let i = o[k as int];
            assert(self@.instances =~= o.update(k as int, InstanceSummaryView { shader_packs: i.shader_packs.filter(p), ..i }));
        }
        true
    }
}

/// Removing every world with the id `id`.
pub open spec fn worlds_removal(id: Seq<char>) -> spec_fn(InstanceSummaryView) -> Option<InstanceSummaryView> {
    |i: InstanceSummaryView| {
        let kept = i.worlds.filter(|m: WorldSummaryView| m.id != id);
        if kept.len() == i.worlds.len() {
            None
        } else {
            Some(InstanceSummaryView { worlds: kept, ..i })
        }
    }
}

impl InstanceStore {
    pub fn remove_world(&mut self, reference: &InstanceRef, world_id: &str) -> (r: bool)
        requires
            old(self)@.revision < u64::MAX,
        ensures
            mutated(old(self)@, final(self)@, r, reference@, worlds_removal(world_id@)),
    {
        let k = match self.locate(reference) {
            Some(k) => k,
            None => return false,
        };
        let ghost t = world_id@;
        let ghost p = |m: WorldSummaryView| m.id != t;
        let before = self.instances[k].worlds.len();
        retain_where(
            &mut self.instances[k].worlds,
            |m: &WorldSummary| -> (b: bool) ensures b == (m.deep_view().id != t) { !crate::text::str_eq(m.id.as_str(), world_id) },
            Ghost(p),
        );
        let ghost o = old(self)@.instances;
        if self.instances[k].worlds.len() == before {
            proof {
                lemma_filter_full_means_all(o[k as int].worlds, p);
                lemma_filter_keeps_all(o[k as int].worlds, p);
                assert(self@.instances =~= o);
            }
            return false;
        }
        self.revision += 1;
        proof {
            let i = o[k as int];
            assert(self@.instances =~= o.update(k as int, InstanceSummaryView { worlds: i.worlds.filter(p), ..i }));
        }
        true
    }
}


/// Pointing an instance at a Java runtime and major version.
pub open spec fn java_change(runtime_id: Seq<char>, version: u32) -> spec_fn(InstanceSummaryView) -> Option<InstanceSummaryView> {
    |i: InstanceSummaryView| if i.java_runtime_id == runtime_id && i.java == decimal(version as nat) {
        None
    } else {
        Some(InstanceSummaryView { java_runtime_id: runtime_id, java: decimal(version as nat), ..i })
    }
}

/// Overriding one launch field.
pub open spec fn override_change(field: LaunchField, value: LaunchValueView) -> spec_fn(InstanceSummaryView) -> Option<InstanceSummaryView> {
    |i: InstanceSummaryView| if i.launch_overrides.contains_key(field) && i.launch_overrides[field] == value {
        None
    } else {
        Some(InstanceSummaryView { launch_overrides: i.launch_overrides.insert(field, value), ..i })
    }
}

/// Dropping the override of one launch field.
pub open spec fn override_clearing(field: LaunchField) -> spec_fn(InstanceSummaryView) -> Option<InstanceSummaryView> {
    |i: InstanceSummaryView| if i.launch_overrides.contains_key(field) {
        Some(InstanceSummaryView { launch_overrides: i.launch_overrides.remove(field), ..i })
    } else {
        None
    }
}

/// Recording a launch: played "just now", one more play.
pub open spec fn launch_recording() -> spec_fn(InstanceSummaryView) -> Option<InstanceSummaryView> {
    |i: InstanceSummaryView| Some(InstanceSummaryView {
        last_played: Some("just now"@),
        play_count: (i.play_count + 1) as u32,
        ..i
    })
}

impl InstanceStore {
    pub fn set_java_runtime(&mut self, reference: &InstanceRef, runtime_id: &str, version: u32) -> (r: bool)
        requires
            old(self)@.revision < u64::MAX,
        ensures
            mutated(old(self)@, final(self)@, r, reference@, java_change(runtime_id@, version)),
    {
        let k = match self.locate(reference) {
            Some(k) => k,
            None => return false,
        };
        let mut digits: Vec<char> = Vec::new();
        push_decimal(&mut digits, version as u64);
        let java = string_of(&digits);
        assert(java@ =~= decimal(version as nat));
        if crate::text::str_eq(self.instances[k].java_runtime_id.as_str(), runtime_id) && self.instances[k].java == java {
            return false;
        }
        self.instances[k].java_runtime_id = runtime_id.to_owned();
        self.instances[k].java = java;
        self.revision += 1;
        proof {
            let o = old(self)@.instances;
            assert(self@.instances =~= o.update(k as int, InstanceSummaryView { java_runtime_id: runtime_id@, java: decimal(version as nat), ..o[k as int] }));
        }
        true
    }

    pub fn set_launch_override(&mut self, reference: &InstanceRef, field: LaunchField, value: LaunchValue) -> (r: bool)
        requires
            old(self)@.revision < u64::MAX,
        ensures
            mutated(old(self)@, final(self)@, r, reference@, override_change(field, value@)),
    {
        let k = match self.locate(reference) {
            Some(k) => k,
            None => return false,
        };
        let ghost v = value@;
        if !self.instances[k].launch_overrides.set(field, value) {
            proof {
                let o = old(self)@.instances;
                assert(o[k as int].launch_overrides.insert(field, v) =~= o[k as int].launch_overrides);
                assert(self@.instances =~= o);
            }
            return false;
        }
        self.revision += 1;
        proof {
            let o = old(self)@.instances;
            assert(self@.instances =~= o.update(k as int, InstanceSummaryView { launch_overrides: o[k as int].launch_overrides.insert(field, v), ..o[k as int] }));
        }
        true
    }

    pub fn clear_launch_override(&mut self, reference: &InstanceRef, field: LaunchField) -> (r: bool)
        requires
            old(self)@.revision < u64::MAX,
        ensures
            mutated(old(self)@, final(self)@, r, reference@, override_clearing(field)),
    {
        let k = match self.locate(reference) {
            Some(k) => k,
            None => return false,
        };
        if !self.instances[k].launch_overrides.clear(field) {
            proof {
                let o = old(self)@.instances;
                assert(o[k as int].launch_overrides.remove(field) =~= o[k as int].launch_overrides);
                assert(self@.instances =~= o);
            }
            return false;
        }
        self.revision += 1;
        proof {
            let o = old(self)@.instances;
            assert(self@.instances =~= o.update(k as int, InstanceSummaryView { launch_overrides: o[k as int].launch_overrides.remove(field), ..o[k as int] }));
        }
        true
    }

    /// Records a successful launch: one more play, last played "just now".
    pub fn record_launch(&mut self, reference: &InstanceRef) -> (r: bool)
        requires
            old(self)@.revision < u64::MAX,
            target(old(self)@, reference@) matches Some(k) ==> old(self)@.instances[k].play_count < u32::MAX,
        ensures
            mutated(old(self)@, final(self)@, r, reference@, launch_recording()),
    {
        let k = match self.locate(reference) {
            Some(k) => k,
            None => return false,
        };
        self.instances[k].last_played = Some("just now".to_owned());
        self.instances[k].play_count += 1;
        self.revision += 1;
        proof {
            let o = old(self)@.instances;
            assert(self@.instances =~= o.update(k as int, InstanceSummaryView {
                last_played: Some("just now"@),
                play_count: (o[k as int].play_count + 1) as u32,
                ..o[k as int]
            }));
        }
        true
    }

    /// Removes the instance a reference names.
    pub fn remove(&mut self, reference: &InstanceRef) -> (r: bool)
        requires
            old(self)@.revision < u64::MAX,
        ensures
            old(self)@.current_storage != Some(reference@.storage) ==> !r && final(self)@ == old(self)@,
            old(self)@.current_storage == Some(reference@.storage) ==> {
                let kept = old(self)@.instances.filter(not_named(reference@));
                if kept.len() == old(self)@.instances.len() {
                    !r && final(self)@ == old(self)@
                } else {
                    r && final(self)@ == bumped(old(self)@, kept)
                }
            },
    {
        match self.current_storage {
            Some(s) => {
                if s.value() != reference.storage_id.value() {
                    return false;
                }
            },
            None => return false,
        }
        let ghost t = reference@;
        let before = self.instances.len();
        retain_where(
            &mut self.instances,
            |i: &InstanceSummary| -> (b: bool) ensures b == !(i.deep_view().storage_id == t.storage && i.deep_view().id == t.id) { !(i.storage_id.value() == reference.storage_id.value() && i.id == reference.instance_id) },
            Ghost(not_named(t)),
        );
        if self.instances.len() == before {
            proof {
                let o = old(self)@.instances;
                lemma_filter_full_means_all(o, not_named(t));
                lemma_filter_keeps_all(o, not_named(t));
            }
            return false;
        }
        self.revision += 1;
        true
    }

    /// Replaces the instances with a storage's listing, unless the storage is
    /// not registered, is not the one the store is scoped to, or the listing
    /// equals what is held.
    pub fn apply_for_storage(&mut self, registered: &[StorageId], storage: StorageId, result: Vec<InstanceSummary>) -> (r: bool)
        requires
            old(self)@.revision < u64::MAX,
        ensures
            r == (registered.deep_view().contains(storage@) && old(self)@.current_storage == Some(storage@)
                && old(self)@.instances != result.deep_view()),
            r ==> final(self)@ == bumped(old(self)@, result.deep_view()),
            !r ==> final(self)@ == old(self)@,
    {
        let mut known = false;
        let mut i: usize = 0;
        while i < registered.len()
            invariant
                i <= registered.len(),
                known == exists|j: int| 0 <= j < i && registered.deep_view()[j] == storage@,
            decreases registered.len() - i,
        {
            assert(registered.deep_view()[i as int] == registered@[i as int]@);
            if registered[i].value() == storage.value() {
                known = true;
            }
            i += 1;
        }
        proof {
            if registered.deep_view().contains(storage@) {
                let j = choose|j: int| 0 <= j < registered.deep_view().len() && registered.deep_view()[j] == storage@;
                assert(registered.deep_view()[j] == storage@);
            }
        }
        let scoped = match self.current_storage {
            Some(s) => s.value() == storage.value(),
            None => false,
        };
        if !known || !scoped || self.instances.same(&result) {
            return false;
        }
        self.instances = result;
        self.revision += 1;
        true
    }
}


/// The instance `create` builds from the dialog's fields.
pub open spec fn created_instance(storage: u64, id: Seq<char>, input: NewInstanceView) -> InstanceSummaryView {
    let modern = "1.21"@.len() <= input.mc_version.len() && input.mc_version.take("1.21"@.len() as int) == "1.21"@;
    InstanceSummaryView {
        storage_id: storage,
        id,
        icon_seed: icon_seed_of(input.name, input.mc_version, input.loader),
        name: input.name,
        aphanite: false,
        favorite: false,
        description: if input.description.len() == 0 {
            "A new Phanerite instance."@
        } else {
            input.description
        },
        loader: input.loader,
        mc_version: input.mc_version,
        loader_version: input.loader_version,
        java: if modern {
            "21"@
        } else {
            "17"@
        },
        java_runtime_id: if modern {
            "zulu-21"@
        } else {
            "temurin-17"@
        },
        created_at: "just now"@,
        last_played: None,
        play_count: 0,
        last_crash_id: None,
        launch_overrides: Map::<LaunchField, LaunchValueView>::empty().insert(LaunchField::Memory, LaunchValueView::Number(input.memory)),
        mods: Seq::empty(),
        resource_packs: Seq::empty(),
        shader_packs: Seq::empty(),
        worlds: Seq::empty(),
    }
}

/// A created instance runs on the Java its Minecraft version needs: a
/// version starting with `1.21` gets Java 21 on the `zulu-21` runtime, any
/// other version Java 17 on `temurin-17`.
pub proof fn law_created_instance_java(storage: u64, id: Seq<char>, input: NewInstanceView)
    ensures
        ({
            let v = input.mc_version;
            let made = created_instance(storage, id, input);
            if v.len() >= 4 && v[0] == '1' && v[1] == '.' && v[2] == '2' && v[3] == '1' {
                made.java == seq!['2', '1'] && made.java_runtime_id == seq!['z', 'u', 'l', 'u', '-', '2', '1']
            } else {
                made.java == seq!['1', '7']
                    && made.java_runtime_id == seq!['t', 'e', 'm', 'u', 'r', 'i', 'n', '-', '1', '7']
            }
        }),
{
    reveal_strlit("1.21");
    reveal_strlit("21");
    reveal_strlit("17");
    reveal_strlit("zulu-21");
    reveal_strlit("temurin-17");
    let v = input.mc_version;
    if v.len() >= 4 && v[0] == '1' && v[1] == '.' && v[2] == '2' && v[3] == '1' {
        assert(v.take(4) =~= "1.21"@);
    } else if 4 <= v.len() {
        if v.take(4) == "1.21"@ {
            assert(v.take(4)[0] == '1');
            assert(v.take(4)[1] == '.');
            assert(v.take(4)[2] == '2');
            assert(v.take(4)[3] == '1');
        }
    }
    assert("21"@ =~= seq!['2', '1']);
    assert("17"@ =~= seq!['1', '7']);
    assert("zulu-21"@ =~= seq!['z', 'u', 'l', 'u', '-', '2', '1']);
    assert("temurin-17"@ =~= seq!['t', 'e', 'm', 'u', 'r', 'i', 'n', '-', '1', '7']);
}

/// The copy `duplicate` makes of an instance.
pub open spec fn duplicated_instance(source: InstanceSummaryView, id: Seq<char>) -> InstanceSummaryView {
    InstanceSummaryView {
        id,
        name: source.name + " (copy)"@,
        play_count: 0,
        last_played: None,
        last_crash_id: None,
        ..source
    }
}

impl InstanceStore {
    /// Creates an instance in the storage the store is scoped to.
    pub fn create(&mut self, storage: StorageId, input: NewInstance) -> (r: Option<InstanceRef>)
        requires
            old(self)@.revision < u64::MAX,
            old(self)@.next_id < u64::MAX,
        ensures
            old(self)@.current_storage != Some(storage@) ==> r is None && final(self)@ == old(self)@,
            old(self)@.current_storage == Some(storage@) ==> {
                let id = allocated_id("inst"@, (old(self)@.next_id + 1) as u64);
                &&& r matches Some(reference) && reference@ == (RefView { storage: storage@, id })
                &&& final(self)@ == (InstanceStoreView {
                    instances: old(self)@.instances.push(created_instance(storage@, id, input@)),
                    current_storage: old(self)@.current_storage,
                    next_id: (old(self)@.next_id + 1) as u64,
                    revision: (old(self)@.revision + 1) as u64,
                })
            },
    {
        match self.current_storage {
            Some(s) => {
                if s.value() != storage.value() {
                    return None;
                }
            },
            None => return None,
        }
        let id = self.allocate_id("inst");
        let is_modern = starts_with(input.mc_version.as_str(), "1.21");
        let mut overrides = LaunchOverrides::new();
        overrides.set(LaunchField::Memory, LaunchValue::Number(input.memory));
        let icon = icon_seed(input.name.as_str(), input.mc_version.as_str(), input.loader);
        let description = if input.description.as_str().is_empty() {
            "A new Phanerite instance.".to_owned()
        } else {
            input.description
        };
        let instance = InstanceSummary {
            storage_id: storage,
            id: id.clone(),
            icon_seed: icon,
            name: input.name,
            aphanite: false,
            favorite: false,
            description,
            loader: input.loader,
            mc_version: input.mc_version,
            loader_version: input.loader_version,
            java: if is_modern {
                "21".to_owned()
            } else {
                "17".to_owned()
            },
            java_runtime_id: if is_modern {
                "zulu-21".to_owned()
            } else {
                "temurin-17".to_owned()
            },
            created_at: "just now".to_owned(),
            last_played: None,
            play_count: 0,
            last_crash_id: None,
            launch_overrides: overrides,
            mods: Vec::new(),
            resource_packs: Vec::new(),
            shader_packs: Vec::new(),
            worlds: Vec::new(),
        };
        let ghost before = self.instances.deep_view();
        self.instances.push(instance);
        self.revision += 1;
        proof {
            assert(instance.deep_view().mods =~= Seq::<ModSummaryView>::empty());
            assert(instance.deep_view().resource_packs =~= Seq::<ResourcePackSummaryView>::empty());
            assert(instance.deep_view().shader_packs =~= Seq::<ShaderPackSummaryView>::empty());
            assert(instance.deep_view().worlds =~= Seq::<WorldSummaryView>::empty());
            assert(self@.instances =~= before.push(instance.deep_view()));
        }
        Some(InstanceRef { storage_id: storage, instance_id: id })
    }

    /// Copies the instance a reference names into a fresh id.
    pub fn duplicate(&mut self, reference: &InstanceRef) -> (r: Option<InstanceRef>)
        requires
            old(self)@.revision < u64::MAX,
            old(self)@.next_id < u64::MAX,
        ensures
            old(self)@.current_storage != Some(reference@.storage) ==> r is None && final(self)@ == old(self)@,
            old(self)@.current_storage == Some(reference@.storage) ==> match first_index(old(self)@.instances, named(reference@)) {
                None => r is None && final(self)@ == old(self)@,
                Some(k) => {
                    let id = allocated_id("inst"@, (old(self)@.next_id + 1) as u64);
                    &&& r matches Some(copy) && copy@ == (RefView { storage: reference@.storage, id })
                    &&& final(self)@ == (InstanceStoreView {
                        instances: old(self)@.instances.push(duplicated_instance(old(self)@.instances[k], id)),
                        current_storage: old(self)@.current_storage,
                        next_id: (old(self)@.next_id + 1) as u64,
                        revision: (old(self)@.revision + 1) as u64,
                    })
                },
            },
    {
        match self.current_storage {
            Some(s) => {
                if s.value() != reference.storage_id.value() {
                    return None;
                }
            },
            None => return None,
        }
        let source = match self.find(reference) {
            Some(instance) => instance.copied(),
            None => return None,
        };
        let id = self.allocate_id("inst");
        let mut name: Vec<char> = Vec::new();
        push_str(&mut name, source.name.as_str());
        push_str(&mut name, " (copy)");
        let copy = InstanceSummary {
            id: id.clone(),
            name: string_of(&name),
            play_count: 0,
            last_played: None,
            last_crash_id: None,
            ..source
        };
        let ghost before = self.instances.deep_view();
        self.instances.push(copy);
        self.revision += 1;
        proof {
            assert(self@.instances =~= before.push(copy.deep_view()));
        }
        Some(InstanceRef { storage_id: reference.storage_id, instance_id: id })
    }
}


/// Records with a string id that the store may assign.
pub trait Identified: DeepView + Sized {
    spec fn id_of(v: Self::V) -> Seq<char>;

    spec fn with_id(v: Self::V, id: Seq<char>) -> Self::V;

    fn id_is_blank(&self) -> (r: bool)
        ensures
            r == (Self::id_of(self.deep_view()).len() == 0),
    ;

    fn set_id(&mut self, id: String)
        ensures
            final(self).deep_view() == Self::with_id(old(self).deep_view(), id@),
    ;
}

/// The number of records without an id.
pub open spec fn blank_ids<T: Identified>(items: Seq<T::V>) -> nat
    decreases items.len(),
{
    if items.len() == 0 {
        0
    } else {
        blank_ids::<T>(items.drop_last()) + if T::id_of(items.last()).len() == 0 {
            1nat
        } else {
            0nat
        }
    }
}

/// The records with ids allocated, in order, for those that had none; the
/// counter starts at `next`.
pub open spec fn ids_assigned<T: Identified>(items: Seq<T::V>, prefix: Seq<char>, next: nat) -> Seq<T::V>
    decreases items.len(),
{
    if items.len() == 0 {
        Seq::empty()
    } else {
        let before = ids_assigned::<T>(items.drop_last(), prefix, next);
        let last = items.last();
        if T::id_of(last).len() == 0 {
            before.push(T::with_id(last, allocated_id(prefix, (next + blank_ids::<T>(items.drop_last()) + 1) as u64)))
        } else {
            before.push(last)
        }
    }
}

pub proof fn lemma_blank_ids_bound<T: Identified>(items: Seq<T::V>)
    ensures
        blank_ids::<T>(items) <= items.len(),
    decreases items.len(),
{
    if items.len() > 0 {
        lemma_blank_ids_bound::<T>(items.drop_last());
    }
}

impl Identified for ModSummary {
    open spec fn id_of(v: ModSummaryView) -> Seq<char> {
        v.id
    }

    open spec fn with_id(v: ModSummaryView, id: Seq<char>) -> ModSummaryView {
        ModSummaryView { id, ..v }
    }

    fn id_is_blank(&self) -> (r: bool) {
        self.id.as_str().is_empty()
    }

    fn set_id(&mut self, id: String) {
        self.id = id;
    }
}

impl Identified for ResourcePackSummary {
    open spec fn id_of(v: ResourcePackSummaryView) -> Seq<char> {
        v.id
    }

    open spec fn with_id(v: ResourcePackSummaryView, id: Seq<char>) -> ResourcePackSummaryView {
        ResourcePackSummaryView { id, ..v }
    }

    fn id_is_blank(&self) -> (r: bool) {
        self.id.as_str().is_empty()
    }

    fn set_id(&mut self, id: String) {
        self.id = id;
    }
}

impl Identified for ShaderPackSummary {
    open spec fn id_of(v: ShaderPackSummaryView) -> Seq<char> {
        v.id
    }

    open spec fn with_id(v: ShaderPackSummaryView, id: Seq<char>) -> ShaderPackSummaryView {
        ShaderPackSummaryView { id, ..v }
    }

    fn id_is_blank(&self) -> (r: bool) {
        self.id.as_str().is_empty()
    }

    fn set_id(&mut self, id: String) {
        self.id = id;
    }
}

impl InstanceStore {
    /// Gives every record without an id a freshly allocated one.
    fn assign_ids<T: Identified>(&mut self, items: &mut Vec<T>, prefix: &str)
        requires
            old(self)@.next_id + old(items).len() < u64::MAX,
        ensures
            final(self)@ == (InstanceStoreView {
                next_id: (old(self)@.next_id + blank_ids::<T>(old(items).deep_view())) as u64,
                ..old(self)@
            }),
            final(items).deep_view() == ids_assigned::<T>(old(items).deep_view(), prefix@, old(self)@.next_id as nat),
    {
        let ghost all = items.deep_view();
        let ghost start = self@;
        let mut i: usize = 0;
        while i < items.len()
            invariant
                i <= items.len() == all.len(),
                start.next_id + all.len() < u64::MAX,
                items.deep_view().take(i as int) == ids_assigned::<T>(all.take(i as int), prefix@, start.next_id as nat),
                items.deep_view().skip(i as int) == all.skip(i as int),
                self@ == (InstanceStoreView { next_id: (start.next_id + blank_ids::<T>(all.take(i as int))) as u64, ..start }),
            decreases items.len() - i,
        {
            let ghost before_items = items.deep_view();
            proof {
                lemma_blank_ids_bound::<T>(all.take(i as int));
                assert(all.take(i + 1).drop_last() =~= all.take(i as int));
                assert(all.take(i + 1).last() == all[i as int]);
                assert(before_items[i as int] == all.skip(i as int)[0]);
                assert forall|j: int| i <= j < all.len() implies before_items[j] == all[j] by {
                    assert(before_items.skip(i as int)[j - i] == all.skip(i as int)[j - i]);
                }
            }
            if items[i].id_is_blank() {
                let id = self.allocate_id(prefix);
                items[i].set_id(id);
                proof {
                    assert(items.deep_view().take(i + 1) =~= before_items.take(i as int).push(T::with_id(all[i as int], id@)));
                    assert(items.deep_view().skip(i + 1) =~= all.skip(i + 1));
                }
            } else {
                proof {
                    assert(items.deep_view().take(i + 1) =~= before_items.take(i as int).push(all[i as int]));
                    assert(items.deep_view().skip(i + 1) =~= all.skip(i + 1));
                }
            }
            i += 1;
        }
        assert(items.deep_view().take(i as int) =~= items.deep_view());
        assert(all.take(i as int) =~= all);
    }
}


impl InstanceStore {
    /// Adds records to the instance a reference names; records without an id
    /// get one allocated first (the counter advances even when the reference
    /// reaches no instance).
    pub fn add_mods(&mut self, reference: &InstanceRef, mods: Vec<ModSummary>) -> (r: bool)
        requires
            old(self)@.revision < u64::MAX,
            old(self)@.next_id + mods.len() < u64::MAX,
        ensures
            mods.len() == 0 ==> !r && final(self)@ == old(self)@,
            mods.len() > 0 ==> {
                let next = (old(self)@.next_id + blank_ids::<ModSummary>(mods.deep_view())) as u64;
                let prepared = ids_assigned::<ModSummary>(mods.deep_view(), "mod"@, old(self)@.next_id as nat);
                match target(old(self)@, reference@) {
                    None => !r && final(self)@ == (InstanceStoreView { next_id: next, ..old(self)@ }),
                    Some(k) => r && final(self)@ == (InstanceStoreView {
                        instances: old(self)@.instances.update(
                            k,
                            InstanceSummaryView { mods: old(self)@.instances[k].mods + prepared, ..old(self)@.instances[k] },
                        ),
                        next_id: next,
                        revision: (old(self)@.revision + 1) as u64,
                        ..old(self)@
                    }),
                }
            },
    {
        if mods.is_empty() {
            return false;
        }
        let mut prepared = mods;
        self.assign_ids(&mut prepared, "mod");
        let k = match self.locate(reference) {
            Some(k) => k,
            None => return false,
        };
        let ghost before = self.instances.deep_view();
        let ghost added = prepared.deep_view();
        self.instances[k].mods.append(&mut prepared);
        self.revision += 1;
        proof {
            assert(self@.instances[k as int].mods =~= before[k as int].mods + added);
            assert(self@.instances =~= before.update(k as int, InstanceSummaryView { mods: before[k as int].mods + added, ..before[k as int] }));
        }
        true
    }
}

impl InstanceStore {
    /// Adds records to the instance a reference names; records without an id
    /// get one allocated first (the counter advances even when the reference
    /// reaches no instance).
    pub fn add_resource_packs(&mut self, reference: &InstanceRef, packs: Vec<ResourcePackSummary>) -> (r: bool)
        requires
            old(self)@.revision < u64::MAX,
            old(self)@.next_id + packs.len() < u64::MAX,
        ensures
            packs.len() == 0 ==> !r && final(self)@ == old(self)@,
            packs.len() > 0 ==> {
                let next = (old(self)@.next_id + blank_ids::<ResourcePackSummary>(packs.deep_view())) as u64;
                let prepared = ids_assigned::<ResourcePackSummary>(packs.deep_view(), "pack"@, old(self)@.next_id as nat);
                match target(old(self)@, reference@) {
                    None => !r && final(self)@ == (InstanceStoreView { next_id: next, ..old(self)@ }),
                    Some(k) => r && final(self)@ == (InstanceStoreView {
                        instances: old(self)@.instances.update(
                            k,
                            InstanceSummaryView { resource_packs: old(self)@.instances[k].resource_packs + prepared, ..old(self)@.instances[k] },
                        ),
                        next_id: next,
                        revision: (old(self)@.revision + 1) as u64,
                        ..old(self)@
                    }),
                }
            },
    {
        if packs.is_empty() {
            return false;
        }
        let mut prepared = packs;
        self.assign_ids(&mut prepared, "pack");
        let k = match self.locate(reference) {
            Some(k) => k,
            None => return false,
        };
        let ghost before = self.instances.deep_view();
        let ghost added = prepared.deep_view();
        self.instances[k].resource_packs.append(&mut prepared);
        self.revision += 1;
        proof {
            assert(self@.instances[k as int].resource_packs =~= before[k as int].resource_packs + added);
            assert(self@.instances =~= before.update(k as int, InstanceSummaryView { resource_packs: before[k as int].resource_packs + added, ..before[k as int] }));
        }
        true
    }
}

impl InstanceStore {
    /// Adds records to the instance a reference names; records without an id
    /// get one allocated first (the counter advances even when the reference
    /// reaches no instance).
    pub fn add_shader_packs(&mut self, reference: &InstanceRef, packs: Vec<ShaderPackSummary>) -> (r: bool)
        requires
            old(self)@.revision < u64::MAX,
            old(self)@.next_id + packs.len() < u64::MAX,
        ensures
            packs.len() == 0 ==> !r && final(self)@ == old(self)@,
            packs.len() > 0 ==> {
                let next = (old(self)@.next_id + blank_ids::<ShaderPackSummary>(packs.deep_view())) as u64;
                let prepared = ids_assigned::<ShaderPackSummary>(packs.deep_view(), "shader"@, old(self)@.next_id as nat);
                match target(old(self)@, reference@) {
                    None => !r && final(self)@ == (InstanceStoreView { next_id: next, ..old(self)@ }),
                    Some(k) => r && final(self)@ == (InstanceStoreView {
                        instances: old(self)@.instances.update(
                            k,
                            InstanceSummaryView { shader_packs: old(self)@.instances[k].shader_packs + prepared, ..old(self)@.instances[k] },
                        ),
                        next_id: next,
                        revision: (old(self)@.revision + 1) as u64,
                        ..old(self)@
                    }),
                }
            },
    {
        if packs.is_empty() {
            return false;
        }
        let mut prepared = packs;
        self.assign_ids(&mut prepared, "shader");
        let k = match self.locate(reference) {
            Some(k) => k,
            None => return false,
        };
        let ghost before = self.instances.deep_view();
        let ghost added = prepared.deep_view();
        self.instances[k].shader_packs.append(&mut prepared);
        self.revision += 1;
        proof {
            assert(self@.instances[k as int].shader_packs =~= before[k as int].shader_packs + added);
            assert(self@.instances =~= before.update(k as int, InstanceSummaryView { shader_packs: before[k as int].shader_packs + added, ..before[k as int] }));
        }
        true
    }
}

} // verus!
