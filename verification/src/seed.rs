//! Deterministic sample data: the instances, runtimes, news, importable
//! resources, logs and crash reports a fresh gallery starts with.
use vstd::prelude::*;

use crate::plain::PlainData;
use crate::route::StorageId;
use crate::state::crash::{
    AphaniteSummary, AphaniteSummaryView, CrashEnvironment, CrashEnvironmentView, CrashFinding,
    CrashFindingView, CrashReport, CrashReportView, CrashSource,
};
use crate::state::instances::{
    icon_seed, icon_seed_of, InstanceSummary, InstanceSummaryView, JavaRuntimeSummary,
    JavaRuntimeSummaryView, ModSummary, ModSummaryView, ResourcePackSummary,
    ResourcePackSummaryView, ShaderPackSummary, ShaderPackSummaryView, WorldSummary,
    WorldSummaryView,
};
use crate::state::launch::{LaunchField, LaunchOverrides, LaunchValue, LaunchValueView};
use crate::state::Loader;
use crate::text::{dash_spaces, dashed, lowercased, push_str, str_eq, string_of, to_lowercase};

verus! {

/// The storage identity the sample data is scoped to.
pub fn storage_ident(value: u64) -> (r: StorageId)
    ensures
        r@ == value,
{
    StorageId::new(value)
}

/// A news entry on the play page.
#[derive(Clone, Debug, PartialEq, Eq)]
pub struct NewsItem {
    pub id: String,
    pub source: String,
    pub title: String,
    pub when: String,
}

/// The abstract value of `NewsItem`.
pub struct NewsItemView {
    pub id: Seq<char>,
    pub source: Seq<char>,
    pub title: Seq<char>,
    pub when: Seq<char>,
}

impl DeepView for NewsItem {
    type V = NewsItemView;

    open spec fn deep_view(&self) -> NewsItemView {
        NewsItemView {
            id: self.id.deep_view(),
            source: self.source.deep_view(),
            title: self.title.deep_view(),
            when: self.when.deep_view(),
        }
    }
}

impl View for NewsItem {
    type V = NewsItemView;

    open spec fn view(&self) -> NewsItemView {
        self.deep_view()
    }
}

impl PlainData for NewsItem {
    fn same(&self, other: &Self) -> (r: bool) {
        self.id.same(&other.id)
            && self.source.same(&other.source)
            && self.title.same(&other.title)
            && self.when.same(&other.when)
    }

    fn copied(&self) -> (r: Self) {
        NewsItem {
            id: self.id.copied(),
            source: self.source.copied(),
            title: self.title.copied(),
            when: self.when.copied(),
        }
    }
}

/// A mod the import dialog can add.
#[derive(Clone, Debug, PartialEq, Eq)]
pub struct ImportableMod {
    pub name: String,
    pub version: String,
    pub file_name: String,
    pub loader: Loader,
}

/// The abstract value of `ImportableMod`.
pub struct ImportableModView {
    pub name: Seq<char>,
    pub version: Seq<char>,
    pub file_name: Seq<char>,
    pub loader: Loader,
}

impl DeepView for ImportableMod {
    type V = ImportableModView;

    open spec fn deep_view(&self) -> ImportableModView {
        ImportableModView {
            name: self.name.deep_view(),
            version: self.version.deep_view(),
            file_name: self.file_name.deep_view(),
            loader: self.loader.deep_view(),
        }
    }
}

impl View for ImportableMod {
    type V = ImportableModView;

    open spec fn view(&self) -> ImportableModView {
        self.deep_view()
    }
}

impl PlainData for ImportableMod {
    fn same(&self, other: &Self) -> (r: bool) {
        self.name.same(&other.name)
            && self.version.same(&other.version)
            && self.file_name.same(&other.file_name)
            && self.loader.same(&other.loader)
    }

    fn copied(&self) -> (r: Self) {
        ImportableMod {
            name: self.name.copied(),
            version: self.version.copied(),
            file_name: self.file_name.copied(),
            loader: self.loader.copied(),
        }
    }
}

/// The jar file name a sample mod is listed under: a fixed name for the mods
/// whose published jar differs, otherwise `name-version.jar` lower-cased with
/// spaces turned into hyphens.
pub open spec fn file_name_of(name: Seq<char>, version: Seq<char>) -> Seq<char> {
    if name == "OptiFine"@ {
        "optifine-hd_u_i8.jar"@
    } else if name == "Iris Shaders"@ {
        "iris-shaders-1.8.9.jar"@
    } else if name == "Just Enough Items"@ {
        "just-enough-items-19.21.0.7.jar"@
    } else if name == "YetAnotherConfigLib"@ {
        "yetanotherconfiglib-3.6.6.jar"@
    } else if name == "Sound Physics Remastered"@ {
        "sound-physics-remastered-1.21.4.jar"@
    } else if name == "Sophisticated Backpacks"@ {
        "sophisticated-backpacks-3.22.1.jar"@
    } else if name == "Tinkers’ Construct"@ {
        "tinkers-construct-2.13.0.183.jar"@
    } else if name == "Create: Steam ‘n’ Rails"@ {
        "create-steam-n-rails-1.6.4.jar"@
    } else if name == "CC: Tweaked"@ {
        "cc-tweaked-1.112.2.jar"@
    } else {
        dashed(lowercased(name + "-"@ + version + ".jar"@))
    }
}

fn file_name_for(name: &str, version: &str) -> (r: String)
    ensures
        r@ == file_name_of(name@, version@),
{
    if str_eq(name, "OptiFine") {
        return "optifine-hd_u_i8.jar".to_owned();
    }
    if str_eq(name, "Iris Shaders") {
        return "iris-shaders-1.8.9.jar".to_owned();
    }
    if str_eq(name, "Just Enough Items") {
        return "just-enough-items-19.21.0.7.jar".to_owned();
    }
    if str_eq(name, "YetAnotherConfigLib") {
        return "yetanotherconfiglib-3.6.6.jar".to_owned();
    }
    if str_eq(name, "Sound Physics Remastered") {
        return "sound-physics-remastered-1.21.4.jar".to_owned();
    }
    if str_eq(name, "Sophisticated Backpacks") {
        return "sophisticated-backpacks-3.22.1.jar".to_owned();
    }
    if str_eq(name, "Tinkers’ Construct") {
        return "tinkers-construct-2.13.0.183.jar".to_owned();
    }
    if str_eq(name, "Create: Steam ‘n’ Rails") {
        return "create-steam-n-rails-1.6.4.jar".to_owned();
    }
    if str_eq(name, "CC: Tweaked") {
        return "cc-tweaked-1.112.2.jar".to_owned();
    }
    let mut joined: Vec<char> = Vec::new();
    push_str(&mut joined, name);
    push_str(&mut joined, "-");
    push_str(&mut joined, version);
    push_str(&mut joined, ".jar");
    assert(joined@ =~= name@ + "-"@ + version@ + ".jar"@);
    let joined = string_of(&joined);
    let lower = to_lowercase(joined.as_str());
    dash_spaces(lower.as_str())
}

/// The sample mod with readable metadata.
pub open spec fn item_view(id: Seq<char>, name: Seq<char>, version: Seq<char>, loader: Loader, enabled: bool) -> ModSummaryView {
    ModSummaryView {
        id,
        name: Some(name),
        version: Some(version),
        file_name: file_name_of(name, version),
        loader: Some(loader),
        enabled,
    }
}

fn item(id: &str, name: &str, version: &str, loader: Loader, enabled: bool) -> (r: ModSummary)
    ensures
        r@ == item_view(id@, name@, version@, loader, enabled),
{
    ModSummary {
        id: id.to_owned(),
        name: Some(name.to_owned()),
        version: Some(version.to_owned()),
        file_name: file_name_for(name, version),
        loader: Some(loader),
        enabled,
    }
}

/// The sample mod whose metadata could not be read.
pub open spec fn unreadable_view(id: Seq<char>, file_name: Seq<char>, enabled: bool) -> ModSummaryView {
    ModSummaryView { id, name: None, version: None, file_name, loader: None, enabled }
}

fn unreadable(id: &str, file_name: &str, enabled: bool) -> (r: ModSummary)
    ensures
        r@ == unreadable_view(id@, file_name@, enabled),
{
    ModSummary {
        id: id.to_owned(),
        name: None,
        version: None,
        file_name: file_name.to_owned(),
        loader: None,
        enabled,
    }
}

/// A sample resource pack.
pub open spec fn pack_view(
    id: Seq<char>,
    name: Seq<char>,
    author: Seq<char>,
    version: Seq<char>,
    description: Seq<char>,
    size: Seq<char>,
    enabled: bool,
) -> ResourcePackSummaryView {
    ResourcePackSummaryView { id, name, author, version, description, size, enabled }
}

fn pack(
    id: &str,
    name: &str,
    author: &str,
    version: &str,
    description: &str,
    size: &str,
    enabled: bool,
) -> (r: ResourcePackSummary)
    ensures
        r@ == pack_view(id@, name@, author@, version@, description@, size@, enabled),
{
    ResourcePackSummary {
        id: id.to_owned(),
        name: name.to_owned(),
        author: author.to_owned(),
        version: version.to_owned(),
        description: description.to_owned(),
        size: size.to_owned(),
        enabled,
    }
}

/// A sample shader pack.
pub open spec fn shader_view(
    id: Seq<char>,
    name: Seq<char>,
    author: Seq<char>,
    version: Seq<char>,
    gpu: Seq<char>,
    enabled: bool,
) -> ShaderPackSummaryView {
    ShaderPackSummaryView { id, name, author, version, gpu, enabled }
}

fn shader(id: &str, name: &str, author: &str, version: &str, gpu: &str, enabled: bool) -> (r: ShaderPackSummary)
    ensures
        r@ == shader_view(id@, name@, author@, version@, gpu@, enabled),
{
    ShaderPackSummary {
        id: id.to_owned(),
        name: name.to_owned(),
        author: author.to_owned(),
        version: version.to_owned(),
        gpu: gpu.to_owned(),
        enabled,
    }
}

/// A sample world.
pub open spec fn world_view(
    id: Seq<char>,
    name: Seq<char>,
    seed: Seq<char>,
    version: Seq<char>,
    last_played: Seq<char>,
    players: u32,
) -> WorldSummaryView {
    WorldSummaryView { id, name, seed, version, last_played, players }
}

fn world(id: &str, name: &str, seed: &str, version: &str, last_played: &str, players: u32) -> (r: WorldSummary)
    ensures
        r@ == world_view(id@, name@, seed@, version@, last_played@, players),
{
    WorldSummary {
        id: id.to_owned(),
        name: name.to_owned(),
        seed: seed.to_owned(),
        version: version.to_owned(),
        last_played: last_played.to_owned(),
        players,
    }
}

/// The launch overrides of a sample instance: a memory override when one is given.
pub open spec fn memory_overrides(memory: Option<u32>) -> Map<LaunchField, LaunchValueView> {
    match memory {
        Some(gigabytes) => Map::empty().insert(LaunchField::Memory, LaunchValueView::Number(gigabytes)),
        None => Map::empty(),
    }
}

fn memory_override(gigabytes: u32) -> (r: LaunchOverrides)
    ensures
        r@ == memory_overrides(Some(gigabytes)),
{
    let mut overrides = LaunchOverrides::new();
    overrides.set(LaunchField::Memory, LaunchValue::Number(gigabytes));
    overrides
}

/// The fixed facts of one sample instance.
pub struct InstanceSeed {
    pub id: &'static str,
    pub name: &'static str,
    pub aphanite: bool,
    pub favorite: bool,
    pub description: &'static str,
    pub loader: Loader,
    pub mc_version: &'static str,
    pub loader_version: &'static str,
    pub java: &'static str,
    pub java_runtime_id: &'static str,
    pub created_at: &'static str,
    pub last_played: Option<&'static str>,
    pub play_count: u32,
    pub last_crash_id: Option<&'static str>,
    pub memory: Option<u32>,
}

/// The text of an optional literal.
pub open spec fn opt_text(s: Option<&'static str>) -> Option<Seq<char>> {
    match s {
        Some(t) => Some(t@),
        None => None,
    }
}

fn owned_opt(s: Option<&'static str>) -> (r: Option<String>)
    ensures
        r.deep_view() == opt_text(s),
{
    match s {
        Some(t) => Some(t.to_owned()),
        None => None,
    }
}

impl InstanceSeed {
    /// The instance these facts describe, in the given storage, with its content.
    pub open spec fn summary(
        self,
        storage: u64,
        mods: Seq<ModSummaryView>,
        resource_packs: Seq<ResourcePackSummaryView>,
        shader_packs: Seq<ShaderPackSummaryView>,
        worlds: Seq<WorldSummaryView>,
    ) -> InstanceSummaryView {
        InstanceSummaryView {
            storage_id: storage,
            id: self.id@,
            icon_seed: icon_seed_of(self.name@, self.mc_version@, self.loader),
            name: self.name@,
            aphanite: self.aphanite,
            favorite: self.favorite,
            description: self.description@,
            loader: self.loader,
            mc_version: self.mc_version@,
            loader_version: self.loader_version@,
            java: self.java@,
            java_runtime_id: self.java_runtime_id@,
            created_at: self.created_at@,
            last_played: opt_text(self.last_played),
            play_count: self.play_count,
            last_crash_id: opt_text(self.last_crash_id),
            launch_overrides: memory_overrides(self.memory),
            mods,
            resource_packs,
            shader_packs,
            worlds,
        }
    }

    fn build(
        self,
        storage: StorageId,
        mods: Vec<ModSummary>,
        resource_packs: Vec<ResourcePackSummary>,
        shader_packs: Vec<ShaderPackSummary>,
        worlds: Vec<WorldSummary>,
    ) -> (r: InstanceSummary)
        ensures
            r@ == self.summary(
                storage@,
                mods.deep_view(),
                resource_packs.deep_view(),
                shader_packs.deep_view(),
                worlds.deep_view(),
            ),
    {
        let launch_overrides = match self.memory {
            Some(gigabytes) => memory_override(gigabytes),
            None => LaunchOverrides::new(),
        };
        InstanceSummary {
            storage_id: storage,
            id: self.id.to_owned(),
            icon_seed: icon_seed(self.name, self.mc_version, self.loader),
            name: self.name.to_owned(),
            aphanite: self.aphanite,
            favorite: self.favorite,
            description: self.description.to_owned(),
            loader: self.loader,
            mc_version: self.mc_version.to_owned(),
            loader_version: self.loader_version.to_owned(),
            java: self.java.to_owned(),
            java_runtime_id: self.java_runtime_id.to_owned(),
            created_at: self.created_at.to_owned(),
            last_played: owned_opt(self.last_played),
            play_count: self.play_count,
            last_crash_id: owned_opt(self.last_crash_id),
            launch_overrides,
            mods,
            resource_packs,
            shader_packs,
            worlds,
        }
    }
}

/// The mods of the `inst-fog` sample instance.
pub open spec fn fog_mods() -> Seq<ModSummaryView> {
    seq![
        item_view("m-sodium"@, "Sodium"@, "0.6.9"@, Loader::Fabric, true),
        item_view("m-optifine"@, "OptiFine"@, "HD_U_I8"@, Loader::Fabric, true),
        item_view("m-iris"@, "Iris Shaders"@, "1.8.9"@, Loader::Fabric, true),
        item_view("m-create"@, "Create"@, "6.0.1"@, Loader::Fabric, true),
        item_view("m-jei"@, "Just Enough Items"@, "19.21.0.7"@, Loader::Fabric, true),
        item_view("m-lithium"@, "Lithium"@, "0.16.1"@, Loader::Fabric, true),
        item_view("m-kubejs"@, "KubeJS"@, "2101.6.1"@, Loader::Fabric, true),
        item_view("m-yacl"@, "YetAnotherConfigLib"@, "3.6.6"@, Loader::Fabric, true),
        item_view("m-modmenu"@, "Mod Menu"@, "13.0.0"@, Loader::Fabric, true),
        item_view("m-rei"@, "Roughly Enough Items"@, "18.1.2"@, Loader::Fabric, false),
        item_view("m-twigs"@, "Twigs"@, "4.0.2"@, Loader::Fabric, false),
        item_view("m-sounds"@, "Sound Physics Remastered"@, "1.21.4"@, Loader::Fabric, false),
        item_view("m-backpacks"@, "Sophisticated Backpacks"@, "3.22.1"@, Loader::Fabric, false),
        item_view("m-midnightlib"@, "MidnightLib"@, "1.6.5"@, Loader::Fabric, true),
        item_view("m-cloth"@, "Cloth Config API"@, "18.1.1"@, Loader::Fabric, true),
        unreadable_view("m-unknown"@, "legacy-addon-1.21.4.jar"@, false),
    ]
}

fn fog_mod_list() -> (r: Vec<ModSummary>)
    ensures
        r.deep_view() == fog_mods(),
{
    let mut v: Vec<ModSummary> = Vec::new();
    v.push(item("m-sodium", "Sodium", "0.6.9", Loader::Fabric, true));
    v.push(item("m-optifine", "OptiFine", "HD_U_I8", Loader::Fabric, true));
    v.push(item("m-iris", "Iris Shaders", "1.8.9", Loader::Fabric, true));
    v.push(item("m-create", "Create", "6.0.1", Loader::Fabric, true));
    v.push(item("m-jei", "Just Enough Items", "19.21.0.7", Loader::Fabric, true));
    v.push(item("m-lithium", "Lithium", "0.16.1", Loader::Fabric, true));
    v.push(item("m-kubejs", "KubeJS", "2101.6.1", Loader::Fabric, true));
    v.push(item("m-yacl", "YetAnotherConfigLib", "3.6.6", Loader::Fabric, true));
    v.push(item("m-modmenu", "Mod Menu", "13.0.0", Loader::Fabric, true));
    v.push(item("m-rei", "Roughly Enough Items", "18.1.2", Loader::Fabric, false));
    v.push(item("m-twigs", "Twigs", "4.0.2", Loader::Fabric, false));
    v.push(item("m-sounds", "Sound Physics Remastered", "1.21.4", Loader::Fabric, false));
    v.push(item("m-backpacks", "Sophisticated Backpacks", "3.22.1", Loader::Fabric, false));
    v.push(item("m-midnightlib", "MidnightLib", "1.6.5", Loader::Fabric, true));
    v.push(item("m-cloth", "Cloth Config API", "18.1.1", Loader::Fabric, true));
    v.push(unreadable("m-unknown", "legacy-addon-1.21.4.jar", false));
    assert(v.deep_view() =~= fog_mods());
    v
}

/// The resource packs of the `inst-fog` sample instance.
pub open spec fn fog_resource_packs() -> Seq<ResourcePackSummaryView> {
    seq![
        pack_view("p-xray"@, "Xray Ultimate"@, "RayDyn"@, "1.21.4"@, "Friendly voxel outlines, no textures removed."@, "6.4 MB"@, true),
        pack_view("p-bare"@, "Bare Bones"@, "robotpant"@, "1.21.4"@, "A minimal, remastered take on the default look."@, "4.2 MB"@, true),
        pack_view("p-faithful"@, "Faithful 64x"@, "Vattic"@, "1.21.4"@, "The classic faithful higher-resolution pack."@, "22.1 MB"@, false),
    ]
}

fn fog_resource_pack_list() -> (r: Vec<ResourcePackSummary>)
    ensures
        r.deep_view() == fog_resource_packs(),
{
    let mut v: Vec<ResourcePackSummary> = Vec::new();
    v.push(pack("p-xray", "Xray Ultimate", "RayDyn", "1.21.4", "Friendly voxel outlines, no textures removed.", "6.4 MB", true));
    v.push(pack("p-bare", "Bare Bones", "robotpant", "1.21.4", "A minimal, remastered take on the default look.", "4.2 MB", true));
    v.push(pack("p-faithful", "Faithful 64x", "Vattic", "1.21.4", "The classic faithful higher-resolution pack.", "22.1 MB", false));
    assert(v.deep_view() =~= fog_resource_packs());
    v
}

/// The shader packs of the `inst-fog` sample instance.
pub open spec fn fog_shader_packs() -> Seq<ShaderPackSummaryView> {
    seq![
        shader_view("s-comp"@, "Complementary Reimagined"@, "EminGT"@, "r5.4"@, "GTX 1060 6GB"@, true),
        shader_view("s-bsl"@, "BSL Shaders"@, "capttatsu"@, "v8.4"@, "GTX 1070 8GB"@, false),
    ]
}

fn fog_shader_pack_list() -> (r: Vec<ShaderPackSummary>)
    ensures
        r.deep_view() == fog_shader_packs(),
{
    let mut v: Vec<ShaderPackSummary> = Vec::new();
    v.push(shader("s-comp", "Complementary Reimagined", "EminGT", "r5.4", "GTX 1060 6GB", true));
    v.push(shader("s-bsl", "BSL Shaders", "capttatsu", "v8.4", "GTX 1070 8GB", false));
    assert(v.deep_view() =~= fog_shader_packs());
    v
}

/// The worlds of the `inst-fog` sample instance.
pub open spec fn fog_worlds() -> Seq<WorldSummaryView> {
    seq![
        world_view("w-main"@, "Survival World"@, "7421095342"@, "1.21.4"@, "2 hours ago"@, 4),
        world_view("w-creative"@, "Creative Testing"@, "-92873144"@, "1.21.4"@, "3 days ago"@, 1),
        world_view("w-nethern"@, "Nether Farm"@, "108892"@, "1.21.4"@, "a week ago"@, 2),
    ]
}

fn fog_world_list() -> (r: Vec<WorldSummary>)
    ensures
        r.deep_view() == fog_worlds(),
{
    let mut v: Vec<WorldSummary> = Vec::new();
    v.push(world("w-main", "Survival World", "7421095342", "1.21.4", "2 hours ago", 4));
    v.push(world("w-creative", "Creative Testing", "-92873144", "1.21.4", "3 days ago", 1));
    v.push(world("w-nethern", "Nether Farm", "108892", "1.21.4", "a week ago", 2));
    assert(v.deep_view() =~= fog_worlds());
    v
}

/// The fixed facts of the `inst-fog` sample instance.
pub open spec fn fog_seed() -> InstanceSeed {
    InstanceSeed {
        id: "inst-fog",
        name: "The Fog",
        aphanite: true,
        favorite: true,
        description: "Vanilla-plus survival with Create, Sodium and JEI. The main world everyone actually plays on.",
        loader: Loader::Fabric,
        mc_version: "1.21.4",
        loader_version: "0.115.1+1.21.4",
        java: "21",
        java_runtime_id: "zulu-21",
        created_at: "2026-02-14",
        last_played: Some("2 hours ago"),
        play_count: 312,
        last_crash_id: Some("crash-sodium-optifine"),
        memory: Some(6),
    }
}

/// The `inst-fog` sample instance in the given storage.
pub open spec fn fog_instance(storage: u64) -> InstanceSummaryView {
    fog_seed().summary(storage, fog_mods(), fog_resource_packs(), fog_shader_packs(), fog_worlds())
}

fn build_fog(storage: StorageId) -> (r: InstanceSummary)
    ensures
        r@ == fog_instance(storage@),
{
    let seed = InstanceSeed {
        id: "inst-fog",
        name: "The Fog",
        aphanite: true,
        favorite: true,
        description: "Vanilla-plus survival with Create, Sodium and JEI. The main world everyone actually plays on.",
        loader: Loader::Fabric,
        mc_version: "1.21.4",
        loader_version: "0.115.1+1.21.4",
        java: "21",
        java_runtime_id: "zulu-21",
        created_at: "2026-02-14",
        last_played: Some("2 hours ago"),
        play_count: 312,
        last_crash_id: Some("crash-sodium-optifine"),
        memory: Some(6),
    };
    assert(seed == fog_seed());
    seed.build(storage, fog_mod_list(), fog_resource_pack_list(), fog_shader_pack_list(), fog_world_list())
}

/// The mods of the `inst-vanilla` sample instance.
pub open spec fn vanilla_mods() -> Seq<ModSummaryView> {
    Seq::empty()
}

fn vanilla_mod_list() -> (r: Vec<ModSummary>)
    ensures
        r.deep_view() == vanilla_mods(),
{
    let mut v: Vec<ModSummary> = Vec::new();
    assert(v.deep_view() =~= vanilla_mods());
    v
}

/// The resource packs of the `inst-vanilla` sample instance.
pub open spec fn vanilla_resource_packs() -> Seq<ResourcePackSummaryView> {
    seq![
        pack_view("p-faithful"@, "Faithful 64x"@, "Vattic"@, "1.21.4"@, "The classic faithful higher-resolution pack."@, "22.1 MB"@, true),
    ]
}

fn vanilla_resource_pack_list() -> (r: Vec<ResourcePackSummary>)
    ensures
        r.deep_view() == vanilla_resource_packs(),
{
    let mut v: Vec<ResourcePackSummary> = Vec::new();
    v.push(pack("p-faithful", "Faithful 64x", "Vattic", "1.21.4", "The classic faithful higher-resolution pack.", "22.1 MB", true));
    assert(v.deep_view() =~= vanilla_resource_packs());
    v
}

/// The shader packs of the `inst-vanilla` sample instance.
pub open spec fn vanilla_shader_packs() -> Seq<ShaderPackSummaryView> {
    Seq::empty()
}

fn vanilla_shader_pack_list() -> (r: Vec<ShaderPackSummary>)
    ensures
        r.deep_view() == vanilla_shader_packs(),
{
    let mut v: Vec<ShaderPackSummary> = Vec::new();
    assert(v.deep_view() =~= vanilla_shader_packs());
    v
}

/// The worlds of the `inst-vanilla` sample instance.
pub open spec fn vanilla_worlds() -> Seq<WorldSummaryView> {
    seq![
        world_view("w-hardcore"@, "Hardcore Run"@, "77"@, "1.21.4"@, "yesterday"@, 1),
    ]
}

fn vanilla_world_list() -> (r: Vec<WorldSummary>)
    ensures
        r.deep_view() == vanilla_worlds(),
{
    let mut v: Vec<WorldSummary> = Vec::new();
    v.push(world("w-hardcore", "Hardcore Run", "77", "1.21.4", "yesterday", 1));
    assert(v.deep_view() =~= vanilla_worlds());
    v
}

/// The fixed facts of the `inst-vanilla` sample instance.
pub open spec fn vanilla_seed() -> InstanceSeed {
    InstanceSeed {
        id: "inst-vanilla",
        name: "Vanilla Survival",
        aphanite: false,
        favorite: false,
        description: "Pristine vanilla 1.21.4 with no modifications. For when the server demands purity.",
        loader: Loader::Vanilla,
        mc_version: "1.21.4",
        loader_version: "—",
        java: "21",
        java_runtime_id: "zulu-21",
        created_at: "2026-03-02",
        last_played: Some("yesterday"),
        play_count: 48,
        last_crash_id: Some("crash-unknown"),
        memory: None,
    }
}

/// The `inst-vanilla` sample instance in the given storage.
pub open spec fn vanilla_instance(storage: u64) -> InstanceSummaryView {
    vanilla_seed().summary(storage, vanilla_mods(), vanilla_resource_packs(), vanilla_shader_packs(), vanilla_worlds())
}

fn build_vanilla(storage: StorageId) -> (r: InstanceSummary)
    ensures
        r@ == vanilla_instance(storage@),
{
    let seed = InstanceSeed {
        id: "inst-vanilla",
        name: "Vanilla Survival",
        aphanite: false,
        favorite: false,
        description: "Pristine vanilla 1.21.4 with no modifications. For when the server demands purity.",
        loader: Loader::Vanilla,
        mc_version: "1.21.4",
        loader_version: "—",
        java: "21",
        java_runtime_id: "zulu-21",
        created_at: "2026-03-02",
        last_played: Some("yesterday"),
        play_count: 48,
        last_crash_id: Some("crash-unknown"),
        memory: None,
    };
    assert(seed == vanilla_seed());
    seed.build(storage, vanilla_mod_list(), vanilla_resource_pack_list(), vanilla_shader_pack_list(), vanilla_world_list())
}

/// The mods of the `inst-neo` sample instance.
pub open spec fn neo_mods() -> Seq<ModSummaryView> {
    seq![
        item_view("m-ftbq"@, "FTB Quests"@, "2100.1.1"@, Loader::NeoForge, true),
        item_view("m-ftbl"@, "FTB Library"@, "2101.1.5"@, Loader::NeoForge, true),
        item_view("m-ftbc"@, "FTB Chunks"@, "2100.1.1"@, Loader::NeoForge, true),
        item_view("m-arch"@, "Architectury API"@, "13.0.8"@, Loader::NeoForge, true),
        item_view("m-mek"@, "Mekanism"@, "10.7.10"@, Loader::NeoForge, false),
        item_view("m-cc"@, "CC: Tweaked"@, "1.112.2"@, Loader::NeoForge, false),
    ]
}

fn neo_mod_list() -> (r: Vec<ModSummary>)
    ensures
        r.deep_view() == neo_mods(),
{
    let mut v: Vec<ModSummary> = Vec::new();
    v.push(item("m-ftbq", "FTB Quests", "2100.1.1", Loader::NeoForge, true));
    v.push(item("m-ftbl", "FTB Library", "2101.1.5", Loader::NeoForge, true));
    v.push(item("m-ftbc", "FTB Chunks", "2100.1.1", Loader::NeoForge, true));
    v.push(item("m-arch", "Architectury API", "13.0.8", Loader::NeoForge, true));
    v.push(item("m-mek", "Mekanism", "10.7.10", Loader::NeoForge, false));
    v.push(item("m-cc", "CC: Tweaked", "1.112.2", Loader::NeoForge, false));
    assert(v.deep_view() =~= neo_mods());
    v
}

/// The resource packs of the `inst-neo` sample instance.
pub open spec fn neo_resource_packs() -> Seq<ResourcePackSummaryView> {
    seq![
        pack_view("p-bare"@, "Bare Bones"@, "robotpant"@, "1.21.1"@, "A minimal, remastered take on the default look."@, "4.2 MB"@, true),
    ]
}

fn neo_resource_pack_list() -> (r: Vec<ResourcePackSummary>)
    ensures
        r.deep_view() == neo_resource_packs(),
{
    let mut v: Vec<ResourcePackSummary> = Vec::new();
    v.push(pack("p-bare", "Bare Bones", "robotpant", "1.21.1", "A minimal, remastered take on the default look.", "4.2 MB", true));
    assert(v.deep_view() =~= neo_resource_packs());
    v
}

/// The shader packs of the `inst-neo` sample instance.
pub open spec fn neo_shader_packs() -> Seq<ShaderPackSummaryView> {
    Seq::empty()
}

fn neo_shader_pack_list() -> (r: Vec<ShaderPackSummary>)
    ensures
        r.deep_view() == neo_shader_packs(),
{
    let mut v: Vec<ShaderPackSummary> = Vec::new();
    assert(v.deep_view() =~= neo_shader_packs());
    v
}

/// The worlds of the `inst-neo` sample instance.
pub open spec fn neo_worlds() -> Seq<WorldSummaryView> {
    seq![
        world_view("w-test"@, "Server Test"@, "11223344"@, "1.21.1"@, "5 days ago"@, 0),
    ]
}

fn neo_world_list() -> (r: Vec<WorldSummary>)
    ensures
        r.deep_view() == neo_worlds(),
{
    let mut v: Vec<WorldSummary> = Vec::new();
    v.push(world("w-test", "Server Test", "11223344", "1.21.1", "5 days ago", 0));
    assert(v.deep_view() =~= neo_worlds());
    v
}

/// The fixed facts of the `inst-neo` sample instance.
pub open spec fn neo_seed() -> InstanceSeed {
    InstanceSeed {
        id: "inst-neo",
        name: "NeoForge Server Test",
        aphanite: true,
        favorite: false,
        description: "NeoForge test bed used to validate the server pack before it ships to the host.",
        loader: Loader::NeoForge,
        mc_version: "1.21.1",
        loader_version: "21.1.181",
        java: "21",
        java_runtime_id: "zulu-21",
        created_at: "2026-05-11",
        last_played: Some("5 days ago"),
        play_count: 23,
        last_crash_id: Some("crash-possible"),
        memory: Some(8),
    }
}

/// The `inst-neo` sample instance in the given storage.
pub open spec fn neo_instance(storage: u64) -> InstanceSummaryView {
    neo_seed().summary(storage, neo_mods(), neo_resource_packs(), neo_shader_packs(), neo_worlds())
}

fn build_neo(storage: StorageId) -> (r: InstanceSummary)
    ensures
        r@ == neo_instance(storage@),
{
    let seed = InstanceSeed {
        id: "inst-neo",
        name: "NeoForge Server Test",
        aphanite: true,
        favorite: false,
        description: "NeoForge test bed used to validate the server pack before it ships to the host.",
        loader: Loader::NeoForge,
        mc_version: "1.21.1",
        loader_version: "21.1.181",
        java: "21",
        java_runtime_id: "zulu-21",
        created_at: "2026-05-11",
        last_played: Some("5 days ago"),
        play_count: 23,
        last_crash_id: Some("crash-possible"),
        memory: Some(8),
    };
    assert(seed == neo_seed());
    seed.build(storage, neo_mod_list(), neo_resource_pack_list(), neo_shader_pack_list(), neo_world_list())
}

/// The mods of the `inst-legacy` sample instance.
pub open spec fn legacy_mods() -> Seq<ModSummaryView> {
    seq![
        item_view("m-old-1"@, "Thaumcraft"@, "6.1.BETA26"@, Loader::Forge, true),
        item_view("m-old-2"@, "Buildcraft"@, "7.99.24"@, Loader::Forge, true),
        item_view("m-old-3"@, "Tinkers’ Construct"@, "2.13.0.183"@, Loader::Forge, true),
    ]
}

fn legacy_mod_list() -> (r: Vec<ModSummary>)
    ensures
        r.deep_view() == legacy_mods(),
{
    let mut v: Vec<ModSummary> = Vec::new();
    v.push(item("m-old-1", "Thaumcraft", "6.1.BETA26", Loader::Forge, true));
    v.push(item("m-old-2", "Buildcraft", "7.99.24", Loader::Forge, true));
    v.push(item("m-old-3", "Tinkers’ Construct", "2.13.0.183", Loader::Forge, true));
    assert(v.deep_view() =~= legacy_mods());
    v
}

/// The resource packs of the `inst-legacy` sample instance.
pub open spec fn legacy_resource_packs() -> Seq<ResourcePackSummaryView> {
    Seq::empty()
}

fn legacy_resource_pack_list() -> (r: Vec<ResourcePackSummary>)
    ensures
        r.deep_view() == legacy_resource_packs(),
{
    let mut v: Vec<ResourcePackSummary> = Vec::new();
    assert(v.deep_view() =~= legacy_resource_packs());
    v
}

/// The shader packs of the `inst-legacy` sample instance.
pub open spec fn legacy_shader_packs() -> Seq<ShaderPackSummaryView> {
    Seq::empty()
}

fn legacy_shader_pack_list() -> (r: Vec<ShaderPackSummary>)
    ensures
        r.deep_view() == legacy_shader_packs(),
{
    let mut v: Vec<ShaderPackSummary> = Vec::new();
    assert(v.deep_view() =~= legacy_shader_packs());
    v
}

/// The worlds of the `inst-legacy` sample instance.
pub open spec fn legacy_worlds() -> Seq<WorldSummaryView> {
    Seq::empty()
}

fn legacy_world_list() -> (r: Vec<WorldSummary>)
    ensures
        r.deep_view() == legacy_worlds(),
{
    let mut v: Vec<WorldSummary> = Vec::new();
    assert(v.deep_view() =~= legacy_worlds());
    v
}

/// The fixed facts of the `inst-legacy` sample instance.
pub open spec fn legacy_seed() -> InstanceSeed {
    InstanceSeed {
        id: "inst-legacy",
        name: "Old Faithful",
        aphanite: false,
        favorite: true,
        description: "The 2018 modpack that will not die. Forge 1.12.2, still running a community server.",
        loader: Loader::Forge,
        mc_version: "1.12.2",
        loader_version: "14.23.5.2860",
        java: "8",
        java_runtime_id: "legacy-8",
        created_at: "2026-01-08",
        last_played: Some("a month ago"),
        play_count: 509,
        last_crash_id: Some("crash-jvm"),
        memory: Some(6),
    }
}

/// The `inst-legacy` sample instance in the given storage.
pub open spec fn legacy_instance(storage: u64) -> InstanceSummaryView {
    legacy_seed().summary(storage, legacy_mods(), legacy_resource_packs(), legacy_shader_packs(), legacy_worlds())
}

fn build_legacy(storage: StorageId) -> (r: InstanceSummary)
    ensures
        r@ == legacy_instance(storage@),
{
    let seed = InstanceSeed {
        id: "inst-legacy",
        name: "Old Faithful",
        aphanite: false,
        favorite: true,
        description: "The 2018 modpack that will not die. Forge 1.12.2, still running a community server.",
        loader: Loader::Forge,
        mc_version: "1.12.2",
        loader_version: "14.23.5.2860",
        java: "8",
        java_runtime_id: "legacy-8",
        created_at: "2026-01-08",
        last_played: Some("a month ago"),
        play_count: 509,
        last_crash_id: Some("crash-jvm"),
        memory: Some(6),
    };
    assert(seed == legacy_seed());
    seed.build(storage, legacy_mod_list(), legacy_resource_pack_list(), legacy_shader_pack_list(), legacy_world_list())
}

/// The mods of the `inst-create` sample instance.
pub open spec fn create_mods() -> Seq<ModSummaryView> {
    seq![
        item_view("m-create-1"@, "Create"@, "0.5.1j"@, Loader::Fabric, true),
        item_view("m-create-2"@, "Create: Steam ‘n’ Rails"@, "1.6.4"@, Loader::Fabric, true),
        item_view("m-create-3"@, "Flywheel"@, "0.6.10"@, Loader::Fabric, true),
    ]
}

fn create_mod_list() -> (r: Vec<ModSummary>)
    ensures
        r.deep_view() == create_mods(),
{
    let mut v: Vec<ModSummary> = Vec::new();
    v.push(item("m-create-1", "Create", "0.5.1j", Loader::Fabric, true));
    v.push(item("m-create-2", "Create: Steam ‘n’ Rails", "1.6.4", Loader::Fabric, true));
    v.push(item("m-create-3", "Flywheel", "0.6.10", Loader::Fabric, true));
    assert(v.deep_view() =~= create_mods());
    v
}

/// The resource packs of the `inst-create` sample instance.
pub open spec fn create_resource_packs() -> Seq<ResourcePackSummaryView> {
    Seq::empty()
}

fn create_resource_pack_list() -> (r: Vec<ResourcePackSummary>)
    ensures
        r.deep_view() == create_resource_packs(),
{
    let mut v: Vec<ResourcePackSummary> = Vec::new();
    assert(v.deep_view() =~= create_resource_packs());
    v
}

/// The shader packs of the `inst-create` sample instance.
pub open spec fn create_shader_packs() -> Seq<ShaderPackSummaryView> {
    Seq::empty()
}

fn create_shader_pack_list() -> (r: Vec<ShaderPackSummary>)
    ensures
        r.deep_view() == create_shader_packs(),
{
    let mut v: Vec<ShaderPackSummary> = Vec::new();
    assert(v.deep_view() =~= create_shader_packs());
    v
}

/// The worlds of the `inst-create` sample instance.
pub open spec fn create_worlds() -> Seq<WorldSummaryView> {
    Seq::empty()
}

fn create_world_list() -> (r: Vec<WorldSummary>)
    ensures
        r.deep_view() == create_worlds(),
{
    let mut v: Vec<WorldSummary> = Vec::new();
    assert(v.deep_view() =~= create_worlds());
    v
}

/// The fixed facts of the `inst-create` sample instance.
pub open spec fn create_seed() -> InstanceSeed {
    InstanceSeed {
        id: "inst-create",
        name: "Create: Engineering",
        aphanite: true,
        favorite: false,
        description: "Pure Create contraptions sandbox. Water wheels, trains, and very questionable elevators.",
        loader: Loader::Fabric,
        mc_version: "1.20.1",
        loader_version: "0.15.11+1.20.1",
        java: "17",
        java_runtime_id: "temurin-17",
        created_at: "2026-06-21",
        last_played: None,
        play_count: 0,
        last_crash_id: None,
        memory: Some(5),
    }
}

/// The `inst-create` sample instance in the given storage.
pub open spec fn create_instance(storage: u64) -> InstanceSummaryView {
    create_seed().summary(storage, create_mods(), create_resource_packs(), create_shader_packs(), create_worlds())
}

fn build_create(storage: StorageId) -> (r: InstanceSummary)
    ensures
        r@ == create_instance(storage@),
{
    let seed = InstanceSeed {
        id: "inst-create",
        name: "Create: Engineering",
        aphanite: true,
        favorite: false,
        description: "Pure Create contraptions sandbox. Water wheels, trains, and very questionable elevators.",
        loader: Loader::Fabric,
        mc_version: "1.20.1",
        loader_version: "0.15.11+1.20.1",
        java: "17",
        java_runtime_id: "temurin-17",
        created_at: "2026-06-21",
        last_played: None,
        play_count: 0,
        last_crash_id: None,
        memory: Some(5),
    };
    assert(seed == create_seed());
    seed.build(storage, create_mod_list(), create_resource_pack_list(), create_shader_pack_list(), create_world_list())
}

/// The sample instances, all in the given storage.
pub open spec fn seed_instances_view(storage: u64) -> Seq<InstanceSummaryView> {
    seq![fog_instance(storage), vanilla_instance(storage), neo_instance(storage), legacy_instance(storage), create_instance(storage)]
}

/// The sample instances of a storage: the same list on every call, each
/// instance scoped to that storage and with a non-empty icon seed.
pub fn seed_instances(storage: StorageId) -> (r: Vec<InstanceSummary>)
    ensures
        r.deep_view() == seed_instances_view(storage@),
        forall|i: int| 0 <= i < r@.len() ==> #[trigger] r@[i].storage_id == storage,
        forall|i: int| 0 <= i < r@.len() ==> #[trigger] r@[i]@.icon_seed.len() > 0,
{
    let mut v: Vec<InstanceSummary> = Vec::new();
    v.push(build_fog(storage));
    v.push(build_vanilla(storage));
    v.push(build_neo(storage));
    v.push(build_legacy(storage));
    v.push(build_create(storage));
    assert(v.deep_view() =~= seed_instances_view(storage@));
    assert forall|i: int| 0 <= i < v@.len() implies #[trigger] v@[i].storage_id == storage by {
        assert(v.deep_view()[i].storage_id == storage@);
        StorageId::lemma_view_injective(v@[i].storage_id, storage);
    }
    assert forall|i: int| 0 <= i < v@.len() implies #[trigger] v@[i]@.icon_seed.len() > 0 by {
        assert(v.deep_view()[i] == v@[i]@);
    }
    v
}

/// A sample Java runtime.
pub open spec fn runtime_view(
    id: Seq<char>,
    name: Seq<char>,
    version: u32,
    version_string: Seq<char>,
    path: Seq<char>,
    managed: bool,
) -> JavaRuntimeSummaryView {
    JavaRuntimeSummaryView { id, name, version, version_string, path, managed }
}

fn runtime(id: &str, name: &str, version: u32, version_string: &str, path: &str, managed: bool) -> (r: JavaRuntimeSummary)
    ensures
        r@ == runtime_view(id@, name@, version, version_string@, path@, managed),
{
    JavaRuntimeSummary {
        id: id.to_owned(),
        name: name.to_owned(),
        version,
        version_string: version_string.to_owned(),
        path: path.to_owned(),
        managed,
    }
}

/// The sample Java runtimes.
pub open spec fn seed_runtimes_view() -> Seq<JavaRuntimeSummaryView> {
    seq![
        runtime_view("zulu-21"@, "Azul Zulu JDK 21"@, 21, "21.0.6"@, "Managed by Phanerite"@, true),
        runtime_view("temurin-17"@, "Eclipse Temurin JDK 17"@, 17, "17.0.13"@, "/usr/lib/jvm/java-17-openjdk"@, false),
        runtime_view("legacy-8"@, "OpenJDK 8"@, 8, "1.8.0_392"@, "/usr/lib/jvm/java-8-openjdk"@, false),
    ]
}

/// The sample Java runtimes, in the order the settings page lists them.
pub fn seed_runtimes() -> (r: Vec<JavaRuntimeSummary>)
    ensures
        r.deep_view() == seed_runtimes_view(),
{
    let mut v: Vec<JavaRuntimeSummary> = Vec::new();
    v.push(runtime("zulu-21", "Azul Zulu JDK 21", 21, "21.0.6", "Managed by Phanerite", true));
    v.push(runtime("temurin-17", "Eclipse Temurin JDK 17", 17, "17.0.13", "/usr/lib/jvm/java-17-openjdk", false));
    v.push(runtime("legacy-8", "OpenJDK 8", 8, "1.8.0_392", "/usr/lib/jvm/java-8-openjdk", false));
    assert(v.deep_view() =~= seed_runtimes_view());
    v
}

/// A news entry with the given text.
pub open spec fn news_view(id: Seq<char>, source: Seq<char>, title: Seq<char>, when: Seq<char>) -> NewsItemView {
    NewsItemView { id, source, title, when }
}

fn news(id: &str, source: &str, title: &str, when: &str) -> (r: NewsItem)
    ensures
        r@ == news_view(id@, source@, title@, when@),
{
    NewsItem { id: id.to_owned(), source: source.to_owned(), title: title.to_owned(), when: when.to_owned() }
}

/// The sample news entries.
pub open spec fn seed_news_view() -> Seq<NewsItemView> {
    seq![
        news_view("n1"@, "Mojang"@, "Minecraft Java 1.21.5 Released"@, "yesterday"@),
        news_view("n2"@, "Fabric"@, "Fabric API 0.115.1 for 1.21.4"@, "2 days ago"@),
        news_view("n3"@, "NeoForged"@, "NeoForge 21.1.181 out now"@, "4 days ago"@),
        news_view("n4"@, "CaffeineMC"@, "Sodium 0.6.9 — smaller, faster"@, "a week ago"@),
    ]
}

/// The sample news entries, newest first.
pub fn seed_news() -> (r: Vec<NewsItem>)
    ensures
        r.deep_view() == seed_news_view(),
{
    let mut v: Vec<NewsItem> = Vec::new();
    v.push(news("n1", "Mojang", "Minecraft Java 1.21.5 Released", "yesterday"));
    v.push(news("n2", "Fabric", "Fabric API 0.115.1 for 1.21.4", "2 days ago"));
    v.push(news("n3", "NeoForged", "NeoForge 21.1.181 out now", "4 days ago"));
    v.push(news("n4", "CaffeineMC", "Sodium 0.6.9 — smaller, faster", "a week ago"));
    assert(v.deep_view() =~= seed_news_view());
    v
}

/// An importable Fabric mod.
pub open spec fn importable_view(name: Seq<char>, version: Seq<char>, file_name: Seq<char>) -> ImportableModView {
    ImportableModView { name, version, file_name, loader: Loader::Fabric }
}

fn importable(name: &str, version: &str, file_name: &str) -> (r: ImportableMod)
    ensures
        r@ == importable_view(name@, version@, file_name@),
{
    ImportableMod {
        name: name.to_owned(),
        version: version.to_owned(),
        file_name: file_name.to_owned(),
        loader: Loader::Fabric,
    }
}

/// The mods the import dialog offers.
pub open spec fn importable_mods_view() -> Seq<ImportableModView> {
    seq![
        importable_view("JourneyMap"@, "1.21.4-6.0.0"@, "journeymap-1.21.4-6.0.0-fabric.jar"@),
        importable_view("Distant Horizons"@, "2.3.0"@, "DistantHorizons-2.3.0-fabric.jar"@),
        importable_view("Supplementaries"@, "3.0.2"@, "supplementaries-3.0.2.jar"@),
        importable_view("Better Combat"@, "1.9.5"@, "bettercombat-1.9.5.jar"@),
        importable_view("Terralith"@, "2.5.8"@, "terralith-2.5.8.jar"@),
        importable_view("AppleSkin"@, "3.0.4"@, "appleskin-fabric-mc1.21-3.0.4.jar"@),
    ]
}

/// The mods the import dialog offers, all for Fabric.
pub fn importable_mods() -> (r: Vec<ImportableMod>)
    ensures
        r.deep_view() == importable_mods_view(),
{
    let mut v: Vec<ImportableMod> = Vec::new();
    v.push(importable("JourneyMap", "1.21.4-6.0.0", "journeymap-1.21.4-6.0.0-fabric.jar"));
    v.push(importable("Distant Horizons", "2.3.0", "DistantHorizons-2.3.0-fabric.jar"));
    v.push(importable("Supplementaries", "3.0.2", "supplementaries-3.0.2.jar"));
    v.push(importable("Better Combat", "1.9.5", "bettercombat-1.9.5.jar"));
    v.push(importable("Terralith", "2.5.8", "terralith-2.5.8.jar"));
    v.push(importable("AppleSkin", "3.0.4", "appleskin-fabric-mc1.21-3.0.4.jar"));
    assert(v.deep_view() =~= importable_mods_view());
    v
}

/// The resource packs the import dialog offers.
pub open spec fn importable_resource_packs_view() -> Seq<ResourcePackSummaryView> {
    seq![
        pack_view(""@, "Vanilla Tweaks"@, "xisumavoid"@, "1.21.4"@, "Subtle quality-of-life texture tweaks."@, "2.3 MB"@, true),
        pack_view(""@, "Programmer Art"@, "Mojang"@, "1.21.4"@, "The classic pixel look, restored."@, "1.8 MB"@, true),
    ]
}

/// The resource packs the import dialog offers, not yet given an id.
pub fn importable_resource_packs() -> (r: Vec<ResourcePackSummary>)
    ensures
        r.deep_view() == importable_resource_packs_view(),
{
    let mut v: Vec<ResourcePackSummary> = Vec::new();
    v.push(pack("", "Vanilla Tweaks", "xisumavoid", "1.21.4", "Subtle quality-of-life texture tweaks.", "2.3 MB", true));
    v.push(pack("", "Programmer Art", "Mojang", "1.21.4", "The classic pixel look, restored.", "1.8 MB", true));
    assert(v.deep_view() =~= importable_resource_packs_view());
    v
}

/// The shader packs the import dialog offers.
pub open spec fn importable_shader_packs_view() -> Seq<ShaderPackSummaryView> {
    seq![
        shader_view(""@, "Complementary Unbound"@, "EminGT"@, "r5.3"@, "GTX 1060 6GB"@, true),
        shader_view(""@, "MakeUp Ultra Fast"@, "Capt Tatsu"@, "v9.1c"@, "Intel UHD 630"@, true),
    ]
}

/// The shader packs the import dialog offers, enabled and not yet given an id.
pub fn importable_shader_packs() -> (r: Vec<ShaderPackSummary>)
    ensures
        r.deep_view() == importable_shader_packs_view(),
{
    let mut v: Vec<ShaderPackSummary> = Vec::new();
    v.push(shader("", "Complementary Unbound", "EminGT", "r5.3", "GTX 1060 6GB", true));
    v.push(shader("", "MakeUp Ultra Fast", "Capt Tatsu", "v9.1c", "Intel UHD 630", true));
    assert(v.deep_view() =~= importable_shader_packs_view());
    v
}

/// The lines of the sample `latest.log`.
pub open spec fn latest_log_lines() -> Seq<Seq<char>> {
    seq![
        "[12:14:03] [Render thread/INFO]: Reloading ResourceManager: vanilla"@,
        "[12:14:06] [Server thread/INFO]: Local session started"@,
        "[12:14:08] [Render thread/WARN]: Missing optional resource pack metadata"@,
        "[12:15:17] [Server thread/INFO]: Saving chunks for level 'ServerLevel[world]'"@,
    ]
}

/// The sample `latest.log`, as the log source selector shows it.
pub fn seed_latest_log() -> (r: Vec<String>)
    ensures
        r.deep_view() == latest_log_lines(),
{
    let mut v: Vec<String> = Vec::new();
    v.push("[12:14:03] [Render thread/INFO]: Reloading ResourceManager: vanilla".to_owned());
    v.push("[12:14:06] [Server thread/INFO]: Local session started".to_owned());
    v.push("[12:14:08] [Render thread/WARN]: Missing optional resource pack metadata".to_owned());
    v.push("[12:15:17] [Server thread/INFO]: Saving chunks for level 'ServerLevel[world]'".to_owned());
    assert(v.deep_view() =~= latest_log_lines());
    v
}

/// The lines of the sample `debug.log`.
pub open spec fn debug_log_lines() -> Seq<Seq<char>> {
    seq![
        "[12:14:02] [main/DEBUG]: Launch arguments resolved"@,
        "[12:14:03] [main/INFO]: Using Java runtime version 21"@,
        "[12:14:04] [main/DEBUG]: Fabric loader initialized"@,
        "[12:14:07] [Render thread/WARN]: Skipping unavailable GPU extension"@,
    ]
}

/// The sample `debug.log`, as the log source selector shows it.
pub fn seed_debug_log() -> (r: Vec<String>)
    ensures
        r.deep_view() == debug_log_lines(),
{
    let mut v: Vec<String> = Vec::new();
    v.push("[12:14:02] [main/DEBUG]: Launch arguments resolved".to_owned());
    v.push("[12:14:03] [main/INFO]: Using Java runtime version 21".to_owned());
    v.push("[12:14:04] [main/DEBUG]: Fabric loader initialized".to_owned());
    v.push("[12:14:07] [Render thread/WARN]: Skipping unavailable GPU extension".to_owned());
    assert(v.deep_view() =~= debug_log_lines());
    v
}

/// The repeating lines a running sample game emits.
pub open spec fn live_output_lines() -> Seq<Seq<char>> {
    seq!["[Render thread/INFO]: Chunk render batches rebuilt"@, "[Server thread/INFO]: Saving players"@, "[Render thread/INFO]: Sound engine tick"@, "[Server thread/INFO]: Autosave completed"@]
}

/// The repeating lines a running sample game emits, in order.
pub fn live_output_samples() -> (r: [&'static str; 4])
    ensures
        r@.map_values(|s: &'static str| s@) == live_output_lines(),
{
    let r: [&'static str; 4] = ["[Render thread/INFO]: Chunk render batches rebuilt", "[Server thread/INFO]: Saving players", "[Render thread/INFO]: Sound engine tick", "[Server thread/INFO]: Autosave completed"];
    assert(r@.map_values(|s: &'static str| s@) =~= live_output_lines());
    r
}

/// The opening lines every sample crash report shares.
pub open spec fn crash_header_lines() -> Seq<Seq<char>> {
    seq![
        "---- Minecraft Crash Report ----"@,
        "// Oops. The game did not enjoy that."@,
        ""@,
        "Time: 2026-08-17 14:22:18"@,
        "Description: Initializing game"@,
        ""@,
    ]
}

fn crash_header() -> (r: Vec<String>)
    ensures
        r.deep_view() == crash_header_lines(),
{
    let mut v: Vec<String> = Vec::new();
    v.push("---- Minecraft Crash Report ----".to_owned());
    v.push("// Oops. The game did not enjoy that.".to_owned());
    v.push("".to_owned());
    v.push("Time: 2026-08-17 14:22:18".to_owned());
    v.push("Description: Initializing game".to_owned());
    v.push("".to_owned());
    assert(v.deep_view() =~= crash_header_lines());
    v
}

fn body(extra: Vec<String>) -> (r: Option<Vec<String>>)
    ensures
        r matches Some(lines) && lines.deep_view() == crash_header_lines() + extra.deep_view(),
{
    let mut lines = crash_header();
    let ghost start = lines.deep_view();
    let mut i: usize = 0;
    while i < extra.len()
        invariant
            i <= extra.len(),
            start == crash_header_lines(),
            lines.deep_view() == start + extra.deep_view().take(i as int),
        decreases extra.len() - i,
    {
        let ghost before = lines.deep_view();
        let item = extra[i].copied();
        lines.push(item);
        assert(lines.deep_view() =~= before.push(item.deep_view()));
        assert(extra.deep_view().take(i + 1) =~= extra.deep_view().take(i as int).push(extra.deep_view()[i as int]));
        assert(lines.deep_view() =~= start + extra.deep_view().take(i + 1));
        i += 1;
    }
    assert(extra.deep_view().take(extra.len() as int) =~= extra.deep_view());
    Some(lines)
}

/// The environment of a sample crash; the Aphanite server is named for crashes it reported.
pub open spec fn environment_view(
    mc_version: Seq<char>,
    loader: Loader,
    loader_version: Seq<char>,
    java_name: Seq<char>,
    java_version: u32,
    java_path: Seq<char>,
    memory: u32,
    enabled_mods: Seq<(Seq<char>, Seq<char>)>,
    active_overrides: Seq<Seq<char>>,
    source: CrashSource,
) -> CrashEnvironmentView {
    CrashEnvironmentView {
        mc_version,
        loader,
        loader_version,
        java_name,
        java_version,
        java_path,
        memory,
        os: "Fedora Linux 44"@,
        gpu: "NVIDIA GeForce GTX 1060 6GB"@,
        enabled_mods,
        active_overrides,
        source,
        aphanite_server: match source {
            CrashSource::Aphanite => Some("aphanite.enita.cn"@),
            CrashSource::Local => None,
        },
    }
}

fn environment(
    mc_version: &str,
    loader: Loader,
    loader_version: &str,
    java_name: &str,
    java_version: u32,
    java_path: &str,
    memory: u32,
    enabled_mods: Vec<(String, String)>,
    active_overrides: Vec<String>,
    source: CrashSource,
) -> (r: CrashEnvironment)
    ensures
        r@ == environment_view(
            mc_version@,
            loader,
            loader_version@,
            java_name@,
            java_version,
            java_path@,
            memory,
            enabled_mods.deep_view(),
            active_overrides.deep_view(),
            source,
        ),
{
    let aphanite_server = match source {
        CrashSource::Aphanite => Some("aphanite.enita.cn".to_owned()),
        CrashSource::Local => None,
    };
    CrashEnvironment {
        mc_version: mc_version.to_owned(),
        loader,
        loader_version: loader_version.to_owned(),
        java_name: java_name.to_owned(),
        java_version,
        java_path: java_path.to_owned(),
        memory,
        os: "Fedora Linux 44".to_owned(),
        gpu: "NVIDIA GeForce GTX 1060 6GB".to_owned(),
        enabled_mods,
        active_overrides,
        source,
        aphanite_server,
    }
}

/// A sample finding citing one evidence line.
pub open spec fn finding_view(
    rule: Seq<char>,
    title: Seq<char>,
    explanation: Seq<char>,
    evidence_line: usize,
    implicated_mod_ids: Seq<Seq<char>>,
) -> CrashFindingView {
    CrashFindingView {
        rule,
        title,
        explanation,
        evidence_lines: seq![evidence_line],
        implicated_mod_ids,
        suggested_memory: None,
    }
}

fn finding(
    rule: &str,
    title: &str,
    explanation: &str,
    evidence_line: usize,
    implicated_mod_ids: Vec<String>,
) -> (r: CrashFinding)
    ensures
        r@ == finding_view(rule@, title@, explanation@, evidence_line, implicated_mod_ids.deep_view()),
{
    let mut evidence_lines: Vec<usize> = Vec::new();
    evidence_lines.push(evidence_line);
    let r = CrashFinding {
        rule: rule.to_owned(),
        title: title.to_owned(),
        explanation: explanation.to_owned(),
        evidence_lines,
        implicated_mod_ids,
        suggested_memory: None,
    };
    assert(r@.evidence_lines =~= seq![evidence_line]);
    r
}

/// Where the managed Zulu runtime of the sample data lives.
pub const ZULU_PATH: &'static str = "/home/enita/.local/share/phanerite/java/zulu-21/bin/java";

/// The crash-specific lines of the `crash-sodium-optifine` sample report.
pub open spec fn sodium_optifine_report_lines() -> Seq<Seq<char>> {
    seq![
        "java.lang.RuntimeException: Mixin apply failed net.minecraft.class_310"@,
        "Mixin apply for mod optifine failed"@,
        "  at net.fabricmc.loader.impl.launch.knot.KnotClassDelegate.getPostMixinClassByteArray(KnotClassDelegate.java:427)"@,
        "  at net.optifine.reflect.Reflector.<clinit>(Reflector.java:155)"@,
        "  at me.jellysquid.mods.sodium.client.SodiumClientMod.onInitializeClient(SodiumClientMod.java:52)"@,
        "Caused by: org.spongepowered.asm.mixin.transformer.throwables.MixinTransformerError: An unexpected critical error was encountered"@,
        "  at org.spongepowered.asm.mixin.transformer.MixinProcessor.applyMixins(MixinProcessor.java:392)"@,
        ""@,
        "-- System Details --"@,
        "Details:"@,
        "\tMinecraft Version: 1.21.4"@,
        "\tOperating System: Linux (amd64) version 6.14.0"@,
        "\tJava Version: 21.0.8, Azul Systems, Inc."@,
        "\tMemory: 1148928000 bytes (1095 MiB) / 6442450944 bytes (6144 MiB) up to 6442450944 bytes (6144 MiB)"@,
        "\tJVM Flags: 2 total; -Xmx6G --accessToken eyJhbGciOiJIUzI1NiJ9.fake.token"@,
        "\tLaunched Version: fabric-loader-0.16.9-1.21.4"@,
    ]
}

fn sodium_optifine_report_line_list() -> (r: Vec<String>)
    ensures
        r.deep_view() == sodium_optifine_report_lines(),
{
    let mut v: Vec<String> = Vec::new();
    v.push("java.lang.RuntimeException: Mixin apply failed net.minecraft.class_310".to_owned());
    v.push("Mixin apply for mod optifine failed".to_owned());
    v.push("  at net.fabricmc.loader.impl.launch.knot.KnotClassDelegate.getPostMixinClassByteArray(KnotClassDelegate.java:427)".to_owned());
    v.push("  at net.optifine.reflect.Reflector.<clinit>(Reflector.java:155)".to_owned());
    v.push("  at me.jellysquid.mods.sodium.client.SodiumClientMod.onInitializeClient(SodiumClientMod.java:52)".to_owned());
    v.push("Caused by: org.spongepowered.asm.mixin.transformer.throwables.MixinTransformerError: An unexpected critical error was encountered".to_owned());
    v.push("  at org.spongepowered.asm.mixin.transformer.MixinProcessor.applyMixins(MixinProcessor.java:392)".to_owned());
    v.push("".to_owned());
    v.push("-- System Details --".to_owned());
    v.push("Details:".to_owned());
    v.push("\tMinecraft Version: 1.21.4".to_owned());
    v.push("\tOperating System: Linux (amd64) version 6.14.0".to_owned());
    v.push("\tJava Version: 21.0.8, Azul Systems, Inc.".to_owned());
    v.push("\tMemory: 1148928000 bytes (1095 MiB) / 6442450944 bytes (6144 MiB) up to 6442450944 bytes (6144 MiB)".to_owned());
    v.push("\tJVM Flags: 2 total; -Xmx6G --accessToken eyJhbGciOiJIUzI1NiJ9.fake.token".to_owned());
    v.push("\tLaunched Version: fabric-loader-0.16.9-1.21.4".to_owned());
    assert(v.deep_view() =~= sodium_optifine_report_lines());
    v
}

/// The captured stderr tail of the `crash-sodium-optifine` sample crash.
pub open spec fn sodium_optifine_stderr() -> Seq<Seq<char>> {
    Seq::empty()
}

fn sodium_optifine_stderr_list() -> (r: Vec<String>)
    ensures
        r.deep_view() == sodium_optifine_stderr(),
{
    let v: Vec<String> = Vec::new();
    assert(v.deep_view() =~= sodium_optifine_stderr());
    v
}

/// The enabled mods recorded with the `crash-sodium-optifine` sample crash.
pub open spec fn sodium_optifine_enabled_mods() -> Seq<(Seq<char>, Seq<char>)> {
    seq![
        ("Sodium"@, "0.6.9"@),
        ("OptiFine"@, "HD_U_I8"@),
        ("Iris Shaders"@, "1.8.9"@),
        ("Create"@, "6.0.1"@),
        ("Just Enough Items"@, "19.21.0.7"@),
    ]
}

fn sodium_optifine_enabled_mod_list() -> (r: Vec<(String, String)>)
    ensures
        r.deep_view() == sodium_optifine_enabled_mods(),
{
    let mut v: Vec<(String, String)> = Vec::new();
    v.push(("Sodium".to_owned(), "0.6.9".to_owned()));
    v.push(("OptiFine".to_owned(), "HD_U_I8".to_owned()));
    v.push(("Iris Shaders".to_owned(), "1.8.9".to_owned()));
    v.push(("Create".to_owned(), "6.0.1".to_owned()));
    v.push(("Just Enough Items".to_owned(), "19.21.0.7".to_owned()));
    assert(v.deep_view() =~= sodium_optifine_enabled_mods());
    v
}

/// The active overrides recorded with the `crash-sodium-optifine` sample crash.
pub open spec fn sodium_optifine_overrides() -> Seq<Seq<char>> {
    seq![
        "memory"@,
    ]
}

fn sodium_optifine_override_list() -> (r: Vec<String>)
    ensures
        r.deep_view() == sodium_optifine_overrides(),
{
    let mut v: Vec<String> = Vec::new();
    v.push("memory".to_owned());
    assert(v.deep_view() =~= sodium_optifine_overrides());
    v
}

/// The mods the `crash-sodium-optifine` sample finding implicates.
pub open spec fn sodium_optifine_implicated() -> Seq<Seq<char>> {
    seq![
        "m-optifine"@,
    ]
}

fn sodium_optifine_implicated_list() -> (r: Vec<String>)
    ensures
        r.deep_view() == sodium_optifine_implicated(),
{
    let mut v: Vec<String> = Vec::new();
    v.push("m-optifine".to_owned());
    assert(v.deep_view() =~= sodium_optifine_implicated());
    v
}

/// The `crash-sodium-optifine` sample crash report in the given storage.
pub open spec fn sodium_optifine_crash(storage: u64) -> CrashReportView {
    CrashReportView {
        storage_id: storage,
        id: "crash-sodium-optifine"@,
        instance_id: "inst-fog"@,
        when: "2 minutes ago"@,
        exit_code: 1i32,
        lines: Some(crash_header_lines() + sodium_optifine_report_lines()),
        stderr_tail: sodium_optifine_stderr(),
        hs_err_path: None,
        findings: seq![finding_view("MIXIN_APPLY_MOD_FAILED"@, "OptiFine failed while its mixin was being applied"@, "The mod id appears directly in the matched crash signature. Disable or update OptiFine before retrying."@, 7, sodium_optifine_implicated())],
        environment: environment_view("1.21.4"@, Loader::Fabric, "0.115.1+1.21.4"@, "Azul Zulu JDK 21"@, 21, ZULU_PATH@, 6, sodium_optifine_enabled_mods(), sodium_optifine_overrides(), CrashSource::Aphanite),
    }
}

fn build_sodium_optifine_crash(storage: StorageId) -> (r: CrashReport)
    ensures
        r@ == sodium_optifine_crash(storage@),
{
    let mut findings: Vec<CrashFinding> = Vec::new();
    findings.push(finding("MIXIN_APPLY_MOD_FAILED", "OptiFine failed while its mixin was being applied", "The mod id appears directly in the matched crash signature. Disable or update OptiFine before retrying.", 7, sodium_optifine_implicated_list()));
    let r = CrashReport {
        storage_id: storage,
        id: "crash-sodium-optifine".to_owned(),
        instance_id: "inst-fog".to_owned(),
        when: "2 minutes ago".to_owned(),
        exit_code: 1,
        lines: body(sodium_optifine_report_line_list()),
        stderr_tail: sodium_optifine_stderr_list(),
        hs_err_path: None,
        findings,
        environment: environment("1.21.4", Loader::Fabric, "0.115.1+1.21.4", "Azul Zulu JDK 21", 21, ZULU_PATH, 6, sodium_optifine_enabled_mod_list(), sodium_optifine_override_list(), CrashSource::Aphanite),
    };
    assert(r@.findings =~= sodium_optifine_crash(storage@).findings);
    r
}

/// The crash-specific lines of the `crash-possible` sample report.
pub open spec fn possible_report_lines() -> Seq<Seq<char>> {
    seq![
        "java.lang.NoSuchMethodError: 'void net.neoforged.fml.ModList.registerEventHandler()'"@,
        "  at dev.ftb.mods.ftbchunks.FTBChunks.init(FTBChunks.java:84)"@,
        "  at net.neoforged.fml.ModLoader.gatherAndInitializeMods(ModLoader.java:203)"@,
        "Caused by: java.lang.IllegalStateException: Could not load mod ftbquests"@,
        "  at dev.ftb.mods.ftbquests.FTBQuestsCommon.init(FTBQuestsCommon.java:66)"@,
        ""@,
        "-- System Details --"@,
        "Details:"@,
        "\tMinecraft Version: 1.21.1"@,
        "\tMod Launcher: 11.0.4"@,
    ]
}

fn possible_report_line_list() -> (r: Vec<String>)
    ensures
        r.deep_view() == possible_report_lines(),
{
    let mut v: Vec<String> = Vec::new();
    v.push("java.lang.NoSuchMethodError: 'void net.neoforged.fml.ModList.registerEventHandler()'".to_owned());
    v.push("  at dev.ftb.mods.ftbchunks.FTBChunks.init(FTBChunks.java:84)".to_owned());
    v.push("  at net.neoforged.fml.ModLoader.gatherAndInitializeMods(ModLoader.java:203)".to_owned());
    v.push("Caused by: java.lang.IllegalStateException: Could not load mod ftbquests".to_owned());
    v.push("  at dev.ftb.mods.ftbquests.FTBQuestsCommon.init(FTBQuestsCommon.java:66)".to_owned());
    v.push("".to_owned());
    v.push("-- System Details --".to_owned());
    v.push("Details:".to_owned());
    v.push("\tMinecraft Version: 1.21.1".to_owned());
    v.push("\tMod Launcher: 11.0.4".to_owned());
    assert(v.deep_view() =~= possible_report_lines());
    v
}

/// The captured stderr tail of the `crash-possible` sample crash.
pub open spec fn possible_stderr() -> Seq<Seq<char>> {
    Seq::empty()
}

fn possible_stderr_list() -> (r: Vec<String>)
    ensures
        r.deep_view() == possible_stderr(),
{
    let v: Vec<String> = Vec::new();
    assert(v.deep_view() =~= possible_stderr());
    v
}

/// The enabled mods recorded with the `crash-possible` sample crash.
pub open spec fn possible_enabled_mods() -> Seq<(Seq<char>, Seq<char>)> {
    seq![
        ("FTB Quests"@, "2100.1.1"@),
        ("FTB Library"@, "2101.1.5"@),
        ("FTB Chunks"@, "2100.1.1"@),
        ("Architectury API"@, "13.0.8"@),
    ]
}

fn possible_enabled_mod_list() -> (r: Vec<(String, String)>)
    ensures
        r.deep_view() == possible_enabled_mods(),
{
    let mut v: Vec<(String, String)> = Vec::new();
    v.push(("FTB Quests".to_owned(), "2100.1.1".to_owned()));
    v.push(("FTB Library".to_owned(), "2101.1.5".to_owned()));
    v.push(("FTB Chunks".to_owned(), "2100.1.1".to_owned()));
    v.push(("Architectury API".to_owned(), "13.0.8".to_owned()));
    assert(v.deep_view() =~= possible_enabled_mods());
    v
}

/// The active overrides recorded with the `crash-possible` sample crash.
pub open spec fn possible_overrides() -> Seq<Seq<char>> {
    seq![
        "memory"@,
    ]
}

fn possible_override_list() -> (r: Vec<String>)
    ensures
        r.deep_view() == possible_overrides(),
{
    let mut v: Vec<String> = Vec::new();
    v.push("memory".to_owned());
    assert(v.deep_view() =~= possible_overrides());
    v
}

/// The mods the `crash-possible` sample finding implicates.
pub open spec fn possible_implicated() -> Seq<Seq<char>> {
    Seq::empty()
}

fn possible_implicated_list() -> (r: Vec<String>)
    ensures
        r.deep_view() == possible_implicated(),
{
    let v: Vec<String> = Vec::new();
    assert(v.deep_view() =~= possible_implicated());
    v
}

/// The `crash-possible` sample crash report in the given storage.
pub open spec fn possible_crash(storage: u64) -> CrashReportView {
    CrashReportView {
        storage_id: storage,
        id: "crash-possible"@,
        instance_id: "inst-neo"@,
        when: "18 minutes ago"@,
        exit_code: 1i32,
        lines: Some(crash_header_lines() + possible_report_lines()),
        stderr_tail: possible_stderr(),
        hs_err_path: None,
        findings: seq![finding_view("NO_SUCH_METHOD_ERROR"@, "A required method was not available"@, "This signature can indicate a missing or incompatible mod or game component. It does not identify one mod by itself."@, 7, possible_implicated())],
        environment: environment_view("1.21.1"@, Loader::NeoForge, "21.1.181"@, "Azul Zulu JDK 21"@, 21, ZULU_PATH@, 8, possible_enabled_mods(), possible_overrides(), CrashSource::Aphanite),
    }
}

fn build_possible_crash(storage: StorageId) -> (r: CrashReport)
    ensures
        r@ == possible_crash(storage@),
{
    let mut findings: Vec<CrashFinding> = Vec::new();
    findings.push(finding("NO_SUCH_METHOD_ERROR", "A required method was not available", "This signature can indicate a missing or incompatible mod or game component. It does not identify one mod by itself.", 7, possible_implicated_list()));
    let r = CrashReport {
        storage_id: storage,
        id: "crash-possible".to_owned(),
        instance_id: "inst-neo".to_owned(),
        when: "18 minutes ago".to_owned(),
        exit_code: 1,
        lines: body(possible_report_line_list()),
        stderr_tail: possible_stderr_list(),
        hs_err_path: None,
        findings,
        environment: environment("1.21.1", Loader::NeoForge, "21.1.181", "Azul Zulu JDK 21", 21, ZULU_PATH, 8, possible_enabled_mod_list(), possible_override_list(), CrashSource::Aphanite),
    };
    assert(r@.findings =~= possible_crash(storage@).findings);
    r
}

/// The crash-specific lines of the `crash-unknown` sample report.
pub open spec fn unknown_report_lines() -> Seq<Seq<char>> {
    seq![
        "java.lang.IllegalStateException: Failed to load registries due to above errors"@,
        "  at net.minecraft.server.Bootstrap.bootStrap(Bootstrap.java:124)"@,
        "  at net.minecraft.client.main.Main.main(Main.java:201)"@,
        "Caused by: java.io.IOException: Error reading level.dat"@,
        "  at net.minecraft.world.level.storage.LevelStorageSource.readLevelData(LevelStorageSource.java:301)"@,
        "  at net.minecraft.client.Minecraft.createLevel(Minecraft.java:517)"@,
        ""@,
        "-- System Details --"@,
        "Details:"@,
        "\tMinecraft Version: 1.21.4"@,
        "\tOperating System: Linux (amd64) version 6.14.0"@,
        "\tJava Version: 21.0.8, Azul Systems, Inc."@,
        "\tMemory: 402653184 bytes (384 MiB) / 4294967296 bytes (4096 MiB) up to 4294967296 bytes (4096 MiB)"@,
    ]
}

fn unknown_report_line_list() -> (r: Vec<String>)
    ensures
        r.deep_view() == unknown_report_lines(),
{
    let mut v: Vec<String> = Vec::new();
    v.push("java.lang.IllegalStateException: Failed to load registries due to above errors".to_owned());
    v.push("  at net.minecraft.server.Bootstrap.bootStrap(Bootstrap.java:124)".to_owned());
    v.push("  at net.minecraft.client.main.Main.main(Main.java:201)".to_owned());
    v.push("Caused by: java.io.IOException: Error reading level.dat".to_owned());
    v.push("  at net.minecraft.world.level.storage.LevelStorageSource.readLevelData(LevelStorageSource.java:301)".to_owned());
    v.push("  at net.minecraft.client.Minecraft.createLevel(Minecraft.java:517)".to_owned());
    v.push("".to_owned());
    v.push("-- System Details --".to_owned());
    v.push("Details:".to_owned());
    v.push("\tMinecraft Version: 1.21.4".to_owned());
    v.push("\tOperating System: Linux (amd64) version 6.14.0".to_owned());
    v.push("\tJava Version: 21.0.8, Azul Systems, Inc.".to_owned());
    v.push("\tMemory: 402653184 bytes (384 MiB) / 4294967296 bytes (4096 MiB) up to 4294967296 bytes (4096 MiB)".to_owned());
    assert(v.deep_view() =~= unknown_report_lines());
    v
}

/// The captured stderr tail of the `crash-unknown` sample crash.
pub open spec fn unknown_stderr() -> Seq<Seq<char>> {
    Seq::empty()
}

fn unknown_stderr_list() -> (r: Vec<String>)
    ensures
        r.deep_view() == unknown_stderr(),
{
    let v: Vec<String> = Vec::new();
    assert(v.deep_view() =~= unknown_stderr());
    v
}

/// The enabled mods recorded with the `crash-unknown` sample crash.
pub open spec fn unknown_enabled_mods() -> Seq<(Seq<char>, Seq<char>)> {
    Seq::empty()
}

fn unknown_enabled_mod_list() -> (r: Vec<(String, String)>)
    ensures
        r.deep_view() == unknown_enabled_mods(),
{
    let v: Vec<(String, String)> = Vec::new();
    assert(v.deep_view() =~= unknown_enabled_mods());
    v
}

/// The active overrides recorded with the `crash-unknown` sample crash.
pub open spec fn unknown_overrides() -> Seq<Seq<char>> {
    Seq::empty()
}

fn unknown_override_list() -> (r: Vec<String>)
    ensures
        r.deep_view() == unknown_overrides(),
{
    let v: Vec<String> = Vec::new();
    assert(v.deep_view() =~= unknown_overrides());
    v
}

/// The `crash-unknown` sample crash report in the given storage.
pub open spec fn unknown_crash(storage: u64) -> CrashReportView {
    CrashReportView {
        storage_id: storage,
        id: "crash-unknown"@,
        instance_id: "inst-vanilla"@,
        when: "yesterday"@,
        exit_code: 1i32,
        lines: Some(crash_header_lines() + unknown_report_lines()),
        stderr_tail: unknown_stderr(),
        hs_err_path: None,
        findings: Seq::empty(),
        environment: environment_view("1.21.4"@, Loader::Fabric, "0.115.1+1.21.4"@, "Azul Zulu JDK 21"@, 21, ZULU_PATH@, 4, unknown_enabled_mods(), unknown_overrides(), CrashSource::Local),
    }
}

fn build_unknown_crash(storage: StorageId) -> (r: CrashReport)
    ensures
        r@ == unknown_crash(storage@),
{
    let mut findings: Vec<CrashFinding> = Vec::new();
    let r = CrashReport {
        storage_id: storage,
        id: "crash-unknown".to_owned(),
        instance_id: "inst-vanilla".to_owned(),
        when: "yesterday".to_owned(),
        exit_code: 1,
        lines: body(unknown_report_line_list()),
        stderr_tail: unknown_stderr_list(),
        hs_err_path: None,
        findings,
        environment: environment("1.21.4", Loader::Fabric, "0.115.1+1.21.4", "Azul Zulu JDK 21", 21, ZULU_PATH, 4, unknown_enabled_mod_list(), unknown_override_list(), CrashSource::Local),
    };
    assert(r@.findings =~= unknown_crash(storage@).findings);
    r
}

/// The captured stderr tail of the `crash-jvm` sample crash.
pub open spec fn jvm_stderr() -> Seq<Seq<char>> {
    seq![
        "# A fatal error has been detected by the Java Runtime Environment:"@,
        "#  SIGSEGV (0xb) at pc=0x00007f1dd405ddf2, pid=48721, tid=48742"@,
        "# JRE version: OpenJDK Runtime Environment (8.0_472-b08)"@,
        "# Java VM: OpenJDK 64-Bit Server VM (25.472-b08 mixed mode linux-amd64 compressed oops)"@,
        "# Problematic frame:"@,
        "# C  [libGLX_nvidia.so.0+0x2ddf2]"@,
        "Aborted (core dumped)"@,
    ]
}

fn jvm_stderr_list() -> (r: Vec<String>)
    ensures
        r.deep_view() == jvm_stderr(),
{
    let mut v: Vec<String> = Vec::new();
    v.push("# A fatal error has been detected by the Java Runtime Environment:".to_owned());
    v.push("#  SIGSEGV (0xb) at pc=0x00007f1dd405ddf2, pid=48721, tid=48742".to_owned());
    v.push("# JRE version: OpenJDK Runtime Environment (8.0_472-b08)".to_owned());
    v.push("# Java VM: OpenJDK 64-Bit Server VM (25.472-b08 mixed mode linux-amd64 compressed oops)".to_owned());
    v.push("# Problematic frame:".to_owned());
    v.push("# C  [libGLX_nvidia.so.0+0x2ddf2]".to_owned());
    v.push("Aborted (core dumped)".to_owned());
    assert(v.deep_view() =~= jvm_stderr());
    v
}

/// The enabled mods recorded with the `crash-jvm` sample crash.
pub open spec fn jvm_enabled_mods() -> Seq<(Seq<char>, Seq<char>)> {
    seq![
        ("Thaumcraft"@, "6.1.BETA26"@),
        ("Buildcraft"@, "7.99.24"@),
        ("Tinkers’ Construct"@, "2.13.0.183"@),
    ]
}

fn jvm_enabled_mod_list() -> (r: Vec<(String, String)>)
    ensures
        r.deep_view() == jvm_enabled_mods(),
{
    let mut v: Vec<(String, String)> = Vec::new();
    v.push(("Thaumcraft".to_owned(), "6.1.BETA26".to_owned()));
    v.push(("Buildcraft".to_owned(), "7.99.24".to_owned()));
    v.push(("Tinkers’ Construct".to_owned(), "2.13.0.183".to_owned()));
    assert(v.deep_view() =~= jvm_enabled_mods());
    v
}

/// The active overrides recorded with the `crash-jvm` sample crash.
pub open spec fn jvm_overrides() -> Seq<Seq<char>> {
    seq![
        "memory"@,
    ]
}

fn jvm_override_list() -> (r: Vec<String>)
    ensures
        r.deep_view() == jvm_overrides(),
{
    let mut v: Vec<String> = Vec::new();
    v.push("memory".to_owned());
    assert(v.deep_view() =~= jvm_overrides());
    v
}

/// The `crash-jvm` sample crash report in the given storage.
pub open spec fn jvm_crash(storage: u64) -> CrashReportView {
    CrashReportView {
        storage_id: storage,
        id: "crash-jvm"@,
        instance_id: "inst-legacy"@,
        when: "3 days ago"@,
        exit_code: -6i32,
        lines: None,
        stderr_tail: jvm_stderr(),
        hs_err_path: Some("/home/enita/.local/share/phanerite/instances/old-faithful/hs_err_pid48721.log"@),
        findings: Seq::empty(),
        environment: environment_view("1.12.2"@, Loader::Forge, "14.23.5.2860"@, "OpenJDK 8"@, 8, "/usr/lib/jvm/java-8-openjdk/bin/java"@, 6, jvm_enabled_mods(), jvm_overrides(), CrashSource::Local),
    }
}

fn build_jvm_crash(storage: StorageId) -> (r: CrashReport)
    ensures
        r@ == jvm_crash(storage@),
{
    let mut findings: Vec<CrashFinding> = Vec::new();
    let r = CrashReport {
        storage_id: storage,
        id: "crash-jvm".to_owned(),
        instance_id: "inst-legacy".to_owned(),
        when: "3 days ago".to_owned(),
        exit_code: -6,
        lines: None,
        stderr_tail: jvm_stderr_list(),
        hs_err_path: Some("/home/enita/.local/share/phanerite/instances/old-faithful/hs_err_pid48721.log".to_owned()),
        findings,
        environment: environment("1.12.2", Loader::Forge, "14.23.5.2860", "OpenJDK 8", 8, "/usr/lib/jvm/java-8-openjdk/bin/java", 6, jvm_enabled_mod_list(), jvm_override_list(), CrashSource::Local),
    };
    assert(r@.findings =~= jvm_crash(storage@).findings);
    r
}

/// The sample crash reports, all in the given storage.
pub open spec fn seed_crash_reports_view(storage: u64) -> Seq<CrashReportView> {
    seq![sodium_optifine_crash(storage), possible_crash(storage), unknown_crash(storage), jvm_crash(storage)]
}

/// The sample crash reports of a storage, each scoped to that storage.
pub fn seed_crash_reports(storage: StorageId) -> (r: Vec<CrashReport>)
    ensures
        r.deep_view() == seed_crash_reports_view(storage@),
{
    let mut v: Vec<CrashReport> = Vec::new();
    v.push(build_sodium_optifine_crash(storage));
    v.push(build_possible_crash(storage));
    v.push(build_unknown_crash(storage));
    v.push(build_jvm_crash(storage));
    assert(v.deep_view() =~= seed_crash_reports_view(storage@));
    v
}

/// The Aphanite server the sample gallery is connected to.
pub open spec fn seed_aphanite_view(storage: u64) -> AphaniteSummaryView {
    AphaniteSummaryView {
        storage_id: storage,
        server_name: "Enita's Aphanite Server"@,
        server_url: "https://aphanite.enita.cn/"@,
    }
}

/// The Aphanite server the sample gallery is connected to, in the given storage.
pub fn seed_aphanite(storage: StorageId) -> (r: AphaniteSummary)
    ensures
        r@ == seed_aphanite_view(storage@),
{
    AphaniteSummary {
        storage_id: storage,
        server_name: "Enita's Aphanite Server".to_owned(),
        server_url: "https://aphanite.enita.cn/".to_owned(),
    }
}

} // verus!
