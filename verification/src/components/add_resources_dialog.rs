//! The resource import dialog: which files it accepts and the records it adds
//! to an instance.
use vstd::prelude::*;

use crate::route::{InstanceRef, RefView};
use crate::seed::{
    importable_mods, importable_mods_view, importable_resource_packs,
    importable_resource_packs_view, importable_shader_packs, importable_shader_packs_view,
    ImportableModView,
};
use crate::state::instances::{
    blank_ids, ids_assigned, target, InstanceStoreView, InstanceSummaryView, ModSummaryView,
    ResourcePackSummaryView, ShaderPackSummaryView,
};
use crate::plain::PlainData;
use crate::state::{InstanceStore, ModSummary, ResourcePackSummary, ShaderPackSummary};
use crate::text::{ascii_lower, chars_of, push_str, string_of, to_ascii_lower};

verus! {

/// The collection a dialog imports into.
#[derive(Clone, Copy, Debug, PartialEq, Eq, Structural)]
pub enum ResourceMode {
    Mods,
    Packs,
    Shaders,
}

/// The file extension a collection takes.
pub open spec fn extension_of(mode: ResourceMode) -> Seq<char> {
    if mode == ResourceMode::Mods { "jar"@ } else { "zip"@ }
}

/// Whether two strings are equal once ASCII letters are lower-cased
/// (`str::eq_ignore_ascii_case`).
pub open spec fn ascii_fold_eq(a: Seq<char>, b: Seq<char>) -> bool {
    a.len() == b.len() && forall|i: int| 0 <= i < a.len() ==> ascii_lower(#[trigger] a[i]) == ascii_lower(b[i])
}

/// Whether two strings are equal ignoring ASCII case.
pub fn eq_ignore_ascii_case(a: &str, b: &str) -> (r: bool)
    ensures
        r == ascii_fold_eq(a@, b@),
{
    let x = chars_of(a);
    let y = chars_of(b);
    if x.len() != y.len() {
        return false;
    }
    let mut i: usize = 0;
    while i < x.len()
        invariant
            i <= x.len(),
            x.len() == y.len(),
            x@ == a@,
            y@ == b@,
            forall|j: int| 0 <= j < i ==> ascii_lower(#[trigger] a@[j]) == ascii_lower(b@[j]),
        decreases x.len() - i,
    {
        if to_ascii_lower(x[i]) != to_ascii_lower(y[i]) {
            return false;
        }
        i += 1;
    }
    true
}

impl ResourceMode {
    /// The dialog title.
    pub fn title(self) -> (r: &'static str)
        ensures
            r@ == match self {
                ResourceMode::Mods => "Add mods"@,
                ResourceMode::Packs => "Import resource packs"@,
                ResourceMode::Shaders => "Import shader packs"@,
            },
    {
        match self {
            ResourceMode::Mods => "Add mods",
            ResourceMode::Packs => "Import resource packs",
            ResourceMode::Shaders => "Import shader packs",
        }
    }

    /// The file extension the collection takes.
    pub fn extension(self) -> (r: &'static str)
        ensures
            r@ == extension_of(self),
    {
        if self == ResourceMode::Mods { "jar" } else { "zip" }
    }

    /// Whether a picked file with this extension is taken.
    pub fn accepts(self, extension: Option<&str>) -> (r: bool)
        ensures
            r == match extension {
                Some(e) => ascii_fold_eq(e@, extension_of(self)),
                None => false,
            },
    {
        match extension {
            Some(e) => eq_ignore_ascii_case(e, self.extension()),
            None => false,
        }
    }

    /// The message shown when no picked file has the right extension.
    pub fn selection_error(self) -> (r: String)
        ensures
            r@ == "Choose ."@ + extension_of(self) + " files for this collection."@,
    {
        let mut out: Vec<char> = Vec::new();
        push_str(&mut out, "Choose .");
        push_str(&mut out, self.extension());
        push_str(&mut out, " files for this collection.");
        string_of(&out)
    }
}

/// The store after mods are added to the instance a reference reaches, and
/// whether that instance changed.
pub open spec fn mods_appended(s: InstanceStoreView, r: RefView, mods: Seq<ModSummaryView>) -> (InstanceStoreView, bool) {
    if mods.len() == 0 {
        (s, false)
    } else {
        let next = (s.next_id + blank_ids::<ModSummary>(mods)) as u64;
        let prepared = ids_assigned::<ModSummary>(mods, "mod"@, s.next_id as nat);
        match target(s, r) {
            None => (InstanceStoreView { next_id: next, ..s }, false),
            Some(k) => (InstanceStoreView {
                instances: s.instances.update(k, InstanceSummaryView { mods: s.instances[k].mods + prepared, ..s.instances[k] }),
                next_id: next,
                revision: (s.revision + 1) as u64,
                ..s
            }, true),
        }
    }
}

/// The store after resource packs are added, and whether the instance changed.
pub open spec fn packs_appended(s: InstanceStoreView, r: RefView, packs: Seq<ResourcePackSummaryView>) -> (InstanceStoreView, bool) {
    if packs.len() == 0 {
        (s, false)
    } else {
        let next = (s.next_id + blank_ids::<ResourcePackSummary>(packs)) as u64;
        let prepared = ids_assigned::<ResourcePackSummary>(packs, "pack"@, s.next_id as nat);
        match target(s, r) {
            None => (InstanceStoreView { next_id: next, ..s }, false),
            Some(k) => (InstanceStoreView {
                instances: s.instances.update(
                    k,
                    InstanceSummaryView { resource_packs: s.instances[k].resource_packs + prepared, ..s.instances[k] },
                ),
                next_id: next,
                revision: (s.revision + 1) as u64,
                ..s
            }, true),
        }
    }
}

/// The store after shader packs are added, and whether the instance changed.
pub open spec fn shaders_appended(s: InstanceStoreView, r: RefView, packs: Seq<ShaderPackSummaryView>) -> (InstanceStoreView, bool) {
    if packs.len() == 0 {
        (s, false)
    } else {
        let next = (s.next_id + blank_ids::<ShaderPackSummary>(packs)) as u64;
        let prepared = ids_assigned::<ShaderPackSummary>(packs, "shader"@, s.next_id as nat);
        match target(s, r) {
            None => (InstanceStoreView { next_id: next, ..s }, false),
            Some(k) => (InstanceStoreView {
                instances: s.instances.update(
                    k,
                    InstanceSummaryView { shader_packs: s.instances[k].shader_packs + prepared, ..s.instances[k] },
                ),
                next_id: next,
                revision: (s.revision + 1) as u64,
                ..s
            }, true),
        }
    }
}

/// A mod imported from a jar: only its file name is known, and it is enabled.
pub open spec fn file_mod(file_name: Seq<char>) -> ModSummaryView {
    ModSummaryView { id: Seq::empty(), name: None, version: None, file_name, loader: None, enabled: true }
}

/// A resource pack imported from a file.
pub open spec fn file_pack(file_name: Seq<char>) -> ResourcePackSummaryView {
    ResourcePackSummaryView {
        id: Seq::empty(),
        name: file_name,
        author: "Local file"@,
        version: Seq::empty(),
        description: "Imported resource pack"@,
        size: Seq::empty(),
        enabled: true,
    }
}

/// A shader pack imported from a file.
pub open spec fn file_shader(file_name: Seq<char>) -> ShaderPackSummaryView {
    ShaderPackSummaryView {
        id: Seq::empty(),
        name: file_name,
        author: "Local file"@,
        version: Seq::empty(),
        gpu: "Custom shader"@,
        enabled: true,
    }
}

/// What importing the files does to the store, and whether the instance
/// changed.
pub open spec fn files_imported(s: InstanceStoreView, r: RefView, mode: ResourceMode, files: Seq<Seq<char>>) -> (InstanceStoreView, bool) {
    match mode {
        ResourceMode::Mods => mods_appended(s, r, files.map_values(|f: Seq<char>| file_mod(f))),
        ResourceMode::Packs => packs_appended(s, r, files.map_values(|f: Seq<char>| file_pack(f))),
        ResourceMode::Shaders => shaders_appended(s, r, files.map_values(|f: Seq<char>| file_shader(f))),
    }
}

/// What `std::path::Path::file_name` returns for a path: its final
/// component, or nothing when the path ends in `..` or has no final name.
pub uninterp spec fn path_file_name(path: Seq<char>) -> Option<Seq<char>>;

/// Calls `Path::new(path).file_name()` and turns the name back into a
/// `String` (lossless, the path being UTF-8). Its documentation: the final
/// component, the file name of a plain file; `None` for a path that ends in
/// `..`. What the name is on a given path is not stated: it depends on the
/// platform's separators and prefixes.
#[verifier::external_body]
fn final_component(path: &str) -> (r: Option<String>)
    ensures
        r.deep_view() == path_file_name(path@),
{
    std::path::Path::new(path).file_name().map(|name| name.to_string_lossy().into_owned())
}

/// The name a picked path is imported under: its final component, or the
/// empty name when it has none.
pub open spec fn file_name_of(path: Seq<char>) -> Seq<char> {
    match path_file_name(path) {
        Some(name) => name,
        None => Seq::empty(),
    }
}

/// The name a picked path is imported under.
pub fn file_name(path: &str) -> (r: String)
    ensures
        r@ == file_name_of(path@),
{
    match final_component(path) {
        Some(name) => name,
        None => String::new(),
    }
}

/// Imports the picked paths, each under its file name.
pub fn import_paths(store: &mut InstanceStore, reference: &InstanceRef, mode: ResourceMode, paths: &Vec<String>) -> (r: bool)
    requires
        old(store)@.revision < u64::MAX,
        old(store)@.next_id + paths.len() < u64::MAX,
    ensures
        (final(store)@, r) == files_imported(
            old(store)@,
            reference@,
            mode,
            paths.deep_view().map_values(|p: Seq<char>| file_name_of(p)),
        ),
{
    let mut names: Vec<String> = Vec::new();
    let mut i: usize = 0;
    while i < paths.len()
        invariant
            i <= paths.len(),
            names.deep_view() == paths.deep_view().take(i as int).map_values(|p: Seq<char>| file_name_of(p)),
        decreases paths.len() - i,
    {
        let ghost prev = names.deep_view();
        let name = file_name(paths[i].as_str());
        names.push(name);
        proof {
            assert(paths.deep_view()[i as int] == paths@[i as int]@);
            assert(names.deep_view() =~= prev.push(file_name_of(paths.deep_view()[i as int])));
            assert(paths.deep_view().take(i + 1) =~= paths.deep_view().take(i as int).push(paths.deep_view()[i as int]));
        }
        i += 1;
    }
    assert(paths.deep_view().take(paths.len() as int) =~= paths.deep_view());
    import_files(store, reference, mode, &names)
}

/// Adds one record per picked file, by file name, to the instance. Returns
/// whether the instance changed; `false` tells the dialog that the instance
/// is no longer available.
pub fn import_files(store: &mut InstanceStore, reference: &InstanceRef, mode: ResourceMode, file_names: &Vec<String>) -> (r: bool)
    requires
        old(store)@.revision < u64::MAX,
        old(store)@.next_id + file_names.len() < u64::MAX,
    ensures
        (final(store)@, r) == files_imported(old(store)@, reference@, mode, file_names.deep_view()),
{
    let mut i: usize = 0;
    match mode {
        ResourceMode::Mods => {
            let mut mods: Vec<ModSummary> = Vec::new();
            while i < file_names.len()
                invariant
                    i <= file_names.len(),
                    mods.deep_view() == file_names.deep_view().take(i as int).map_values(|f: Seq<char>| file_mod(f)),
                decreases file_names.len() - i,
            {
                let ghost prev = mods.deep_view();
                mods.push(ModSummary {
                    id: String::new(),
                    name: None,
                    version: None,
                    file_name: file_names[i].clone(),
                    loader: None,
                    enabled: true,
                });
                assert(mods.deep_view() =~= prev.push(file_mod(file_names.deep_view()[i as int])));
                assert(file_names.deep_view().take(i + 1) =~= file_names.deep_view().take(i as int).push(file_names.deep_view()[i as int]));
                i += 1;
            }
            assert(file_names.deep_view().take(file_names.len() as int) =~= file_names.deep_view());
            store.add_mods(reference, mods)
        },
        ResourceMode::Packs => {
            let mut packs: Vec<ResourcePackSummary> = Vec::new();
            while i < file_names.len()
                invariant
                    i <= file_names.len(),
                    packs.deep_view() == file_names.deep_view().take(i as int).map_values(|f: Seq<char>| file_pack(f)),
                decreases file_names.len() - i,
            {
                let ghost prev = packs.deep_view();
                packs.push(ResourcePackSummary {
                    id: String::new(),
                    name: file_names[i].clone(),
                    author: "Local file".to_owned(),
                    version: String::new(),
                    description: "Imported resource pack".to_owned(),
                    size: String::new(),
                    enabled: true,
                });
                assert(packs.deep_view() =~= prev.push(file_pack(file_names.deep_view()[i as int])));
                assert(file_names.deep_view().take(i + 1) =~= file_names.deep_view().take(i as int).push(file_names.deep_view()[i as int]));
                i += 1;
            }
            assert(file_names.deep_view().take(file_names.len() as int) =~= file_names.deep_view());
            store.add_resource_packs(reference, packs)
        },
        ResourceMode::Shaders => {
            let mut packs: Vec<ShaderPackSummary> = Vec::new();
            while i < file_names.len()
                invariant
                    i <= file_names.len(),
                    packs.deep_view() == file_names.deep_view().take(i as int).map_values(|f: Seq<char>| file_shader(f)),
                decreases file_names.len() - i,
            {
                let ghost prev = packs.deep_view();
                packs.push(ShaderPackSummary {
                    id: String::new(),
                    name: file_names[i].clone(),
                    author: "Local file".to_owned(),
                    version: String::new(),
                    gpu: "Custom shader".to_owned(),
                    enabled: true,
                });
                assert(packs.deep_view() =~= prev.push(file_shader(file_names.deep_view()[i as int])));
                assert(file_names.deep_view().take(i + 1) =~= file_names.deep_view().take(i as int).push(file_names.deep_view()[i as int]));
                i += 1;
            }
            assert(file_names.deep_view().take(file_names.len() as int) =~= file_names.deep_view());
            store.add_shader_packs(reference, packs)
        },
    }
}

/// A sample importable mod as an enabled record without an id.
pub open spec fn sample_mod(m: ImportableModView) -> ModSummaryView {
    ModSummaryView {
        id: Seq::empty(),
        name: Some(m.name),
        version: Some(m.version),
        file_name: m.file_name,
        loader: Some(m.loader),
        enabled: true,
    }
}

/// What importing the sample resources does: the first three sample mods, or
/// every sample pack, with their ids cleared.
pub open spec fn samples_imported(s: InstanceStoreView, r: RefView, mode: ResourceMode) -> (InstanceStoreView, bool) {
    match mode {
        ResourceMode::Mods => mods_appended(s, r, importable_mods_view().take(3).map_values(|m: ImportableModView| sample_mod(m))),
        ResourceMode::Packs => packs_appended(
            s,
            r,
            importable_resource_packs_view().map_values(|p: ResourcePackSummaryView| ResourcePackSummaryView { id: Seq::empty(), ..p }),
        ),
        ResourceMode::Shaders => shaders_appended(
            s,
            r,
            importable_shader_packs_view().map_values(|p: ShaderPackSummaryView| ShaderPackSummaryView { id: Seq::empty(), ..p }),
        ),
    }
}

/// Adds the sample resources of the gallery to the instance.
pub fn import_samples(store: &mut InstanceStore, reference: &InstanceRef, mode: ResourceMode) -> (r: bool)
    requires
        old(store)@.revision < u64::MAX,
        old(store)@.next_id + 6 < u64::MAX,
    ensures
        (final(store)@, r) == samples_imported(old(store)@, reference@, mode),
{
    match mode {
        ResourceMode::Mods => {
            let all = importable_mods();
            assert(importable_mods_view().len() == 6);
            let mut mods: Vec<ModSummary> = Vec::new();
            let mut i: usize = 0;
            while i < 3
                invariant
                    i <= 3,
                    all.len() == 6,
                    all.deep_view() == importable_mods_view(),
                    mods.deep_view() == all.deep_view().take(i as int).map_values(|m: ImportableModView| sample_mod(m)),
                decreases 3 - i,
            {
                let item = &all[i];
                let ghost prev = mods.deep_view();
                mods.push(ModSummary {
                    id: String::new(),
                    name: Some(item.name.clone()),
                    version: Some(item.version.clone()),
                    file_name: item.file_name.clone(),
                    loader: Some(item.loader),
                    enabled: true,
                });
                assert(mods.deep_view() =~= prev.push(sample_mod(all.deep_view()[i as int])));
                assert(all.deep_view().take(i + 1) =~= all.deep_view().take(i as int).push(all.deep_view()[i as int]));
                i += 1;
            }
            store.add_mods(reference, mods)
        },
        ResourceMode::Packs => {
            let mut packs = importable_resource_packs();
            let ghost all = packs.deep_view();
            let mut i: usize = 0;
            while i < packs.len()
                invariant
                    i <= packs.len(),
                    packs.len() == all.len(),
                    forall|j: int| 0 <= j < i ==> #[trigger] packs.deep_view()[j] == (ResourcePackSummaryView { id: Seq::empty(), ..all[j] }),
                    forall|j: int| i <= j < packs.len() ==> #[trigger] packs.deep_view()[j] == all[j],
                decreases packs.len() - i,
            {
                let ghost before = packs.deep_view();
                assert(before[i as int] == all[i as int]);
                let mut item = packs[i].copied();
                assert(item.deep_view() == all[i as int]);
                item.id = String::new();
                assert(item.id@ =~= Seq::<char>::empty());
                let ghost cleared = item.deep_view();
                assert(cleared == (ResourcePackSummaryView { id: Seq::empty(), ..all[i as int] }));
                packs.set(i, item);
                assert(packs.deep_view() =~= before.update(i as int, cleared));
                i += 1;
            }
            assert(packs.deep_view() =~= all.map_values(|p: ResourcePackSummaryView| ResourcePackSummaryView { id: Seq::empty(), ..p }));
            store.add_resource_packs(reference, packs)
        },
        ResourceMode::Shaders => {
            let mut packs = importable_shader_packs();
            let ghost all = packs.deep_view();
            let mut i: usize = 0;
            while i < packs.len()
                invariant
                    i <= packs.len(),
                    packs.len() == all.len(),
                    forall|j: int| 0 <= j < i ==> #[trigger] packs.deep_view()[j] == (ShaderPackSummaryView { id: Seq::empty(), ..all[j] }),
                    forall|j: int| i <= j < packs.len() ==> #[trigger] packs.deep_view()[j] == all[j],
                decreases packs.len() - i,
            {
                let ghost before = packs.deep_view();
                assert(before[i as int] == all[i as int]);
                let mut item = packs[i].copied();
                assert(item.deep_view() == all[i as int]);
                item.id = String::new();
                assert(item.id@ =~= Seq::<char>::empty());
                let ghost cleared = item.deep_view();
                assert(cleared == (ShaderPackSummaryView { id: Seq::empty(), ..all[i as int] }));
                packs.set(i, item);
                assert(packs.deep_view() =~= before.update(i as int, cleared));
                i += 1;
            }
            assert(packs.deep_view() =~= all.map_values(|p: ShaderPackSummaryView| ShaderPackSummaryView { id: Seq::empty(), ..p }));
            store.add_shader_packs(reference, packs)
        },
    }
}

/// The position of the last `.` in a name, if any.
pub open spec fn last_dot(name: Seq<char>) -> Option<int>
    decreases name.len(),
{
    if name.len() == 0 {
        None
    } else if name.last() == '.' {
        Some(name.len() - 1)
    } else {
        last_dot(name.drop_last())
    }
}

/// What `Path::extension` returns for a path: what follows the last `.` of
/// its file name, unless that dot opens the name; nothing without a file
/// name or a dot.
pub open spec fn extension_of_path(path: Seq<char>) -> Option<Seq<char>> {
    match path_file_name(path) {
        None => None,
        Some(name) => match last_dot(name) {
            Some(k) => if k > 0 { Some(name.skip(k + 1)) } else { None },
            None => None,
        },
    }
}

/// Calls `Path::new(path).extension()` and turns it back into a `String`. Its
/// documentation: no extension without a file name or an embedded `.`, nor
/// for a name that begins with its only `.`; else the part after the final
/// `.`.
#[verifier::external_body]
fn path_extension(path: &str) -> (r: Option<String>)
    ensures
        r.deep_view() == extension_of_path(path@),
{
    std::path::Path::new(path).extension().map(|ext| ext.to_string_lossy().into_owned())
}

/// Whether a picked path has the collection's extension, in any ASCII case.
pub open spec fn picked_fits(mode: ResourceMode, path: Seq<char>) -> bool {
    match extension_of_path(path) {
        Some(e) => ascii_fold_eq(e, extension_of(mode)),
        None => false,
    }
}

/// What the file picker returned.
pub enum FilesPicked {
    /// The chosen paths.
    Picked(Vec<String>),
    /// The picker was dismissed.
    Dismissed,
    /// The picker could not be shown.
    Failed,
}

/// The import dialog's state: the collection, the accepted picked paths and
/// the message shown.
pub struct ImportDialog {
    pub mode: ResourceMode,
    pub files: Vec<String>,
    pub error: Option<String>,
}

/// The message shown when the picker cannot be shown.
pub open spec fn picker_failed() -> Seq<char> {
    "Could not open the file picker. Try again."@
}

/// The message shown when the instance disappeared before the import.
pub open spec fn instance_gone() -> Seq<char> {
    "The instance is no longer available."@
}

impl ImportDialog {
    /// A dialog for a collection, with nothing picked.
    pub fn new(mode: ResourceMode) -> (r: Self)
        ensures
            r.mode == mode,
            r.files@.len() == 0,
            r.error is None,
    {
        ImportDialog { mode, files: Vec::new(), error: None }
    }

    /// Takes in what the picker returned: the picked paths with the
    /// collection's extension replace the previous ones, and the dialog asks
    /// for the right files when none fits; a dismissal changes nothing; a
    /// failure says so.
    pub fn browsed(&mut self, outcome: FilesPicked)
        ensures
            final(self).mode == old(self).mode,
            match outcome {
                FilesPicked::Picked(paths) => {
                    let kept = paths.deep_view().filter(|p: Seq<char>| picked_fits(old(self).mode, p));
                    &&& final(self).files.deep_view() == kept
                    &&& final(self).error.deep_view() == if kept.len() == 0 {
                        Some("Choose ."@ + extension_of(old(self).mode) + " files for this collection."@)
                    } else {
                        None
                    }
                },
                FilesPicked::Dismissed => final(self).files.deep_view() == old(self).files.deep_view()
                    && final(self).error.deep_view() == old(self).error.deep_view(),
                FilesPicked::Failed => final(self).files.deep_view() == old(self).files.deep_view()
                    && final(self).error.deep_view() == Some(picker_failed()),
            },
    {
        match outcome {
            FilesPicked::Picked(paths) => {
                let ghost p = |q: Seq<char>| picked_fits(self.mode, q);
                let mut kept: Vec<String> = Vec::new();
                let mut i: usize = 0;
                while i < paths.len()
                    invariant
                        i <= paths.len(),
                        p == (|q: Seq<char>| picked_fits(self.mode, q)),
                        kept.deep_view() == paths.deep_view().take(i as int).filter(p),
                    decreases paths.len() - i,
                {
                    let ghost before = kept.deep_view();
                    let ghost x = paths.deep_view()[i as int];
                    proof {
                        assert(paths.deep_view().take(i + 1).drop_last() =~= paths.deep_view().take(i as int));
                        assert(paths.deep_view().take(i + 1).last() == x);
                        reveal(Seq::filter);
                        assert(x == paths@[i as int]@);
                    }
                    let fits = match path_extension(paths[i].as_str()) {
                        Some(ext) => self.mode.accepts(Some(ext.as_str())),
                        None => false,
                    };
                    if fits {
                        kept.push(paths[i].copied());
                        proof {
                            assert(kept.deep_view() =~= before.push(x));
                        }
                    }
                    proof {
                        assert(kept.deep_view() =~= paths.deep_view().take(i + 1).filter(p));
                    }
                    i += 1;
                }
                assert(paths.deep_view().take(paths.len() as int) =~= paths.deep_view());
                self.error = if kept.len() == 0 { Some(self.mode.selection_error()) } else { None };
                self.files = kept;
            },
            FilesPicked::Dismissed => {},
            FilesPicked::Failed => {
                self.error = Some("Could not open the file picker. Try again.".to_owned());
            },
        }
    }

    /// Imports the accepted paths into the instance; nothing happens when
    /// none is picked. Returns whether the instance changed, which closes the
    /// dialog; otherwise the dialog says the instance is gone.
    pub fn import(&mut self, store: &mut InstanceStore, reference: &InstanceRef) -> (r: bool)
        requires
            old(store)@.revision < u64::MAX,
            old(store)@.next_id + old(self).files.len() < u64::MAX,
        ensures
            final(self).mode == old(self).mode,
            final(self).files.deep_view() == old(self).files.deep_view(),
            old(self).files.len() == 0 ==> !r && final(store)@ == old(store)@
                && final(self).error.deep_view() == old(self).error.deep_view(),
            old(self).files.len() > 0 ==> (final(store)@, r) == files_imported(
                old(store)@,
                reference@,
                old(self).mode,
                old(self).files.deep_view().map_values(|p: Seq<char>| file_name_of(p)),
            ) && final(self).error.deep_view() == if r { old(self).error.deep_view() } else { Some(instance_gone()) },
    {
        if self.files.len() == 0 {
            return false;
        }
        let changed = import_paths(store, reference, self.mode, &self.files);
        if !changed {
            self.error = Some("The instance is no longer available.".to_owned());
        }
        changed
    }
}

} // verus!
