//! The form that creates an instance.
use vstd::prelude::*;

use crate::route::{pushed, InstanceRef, RefView, Route, RouteView};
use crate::state::instances::{allocated_id, created_instance, InstanceStoreView, NewInstanceView};
use crate::state::{AppState, Loader, NewInstance};
use crate::text::{push_str, string_of, trim, trimmed};

verus! {

/// The game versions the form offers; the first is preselected.
pub const MC_VERSIONS: [&'static str; 5] = ["1.21.4", "1.21.1", "1.20.1", "1.19.4", "1.12.2"];

/// Whether the form can be submitted: a name of 1 to 64 characters once
/// trimmed.
pub fn name_valid(name: &str) -> (r: bool)
    ensures
        r == (0 < trimmed(name@).len() <= 64),
{
    let t = trim(name);
    let n = crate::text::chars_of(t.as_str()).len();
    0 < n && n <= 64
}

/// The loader version field's placeholder.
pub fn loader_version_placeholder(loader: Loader) -> (r: &'static str)
    ensures
        r@ == (if loader == Loader::Vanilla { "No loader"@ } else { "Latest compatible version"@ }),
{
    if loader == Loader::Vanilla { "No loader" } else { "Latest compatible version" }
}

/// The loader version an instance is created with: `—` without a loader,
/// `Latest` when the field is left empty.
pub open spec fn loader_version_of(loader: Loader, typed: Seq<char>) -> Seq<char> {
    if loader == Loader::Vanilla {
        "—"@
    } else if trimmed(typed).len() == 0 {
        "Latest"@
    } else {
        trimmed(typed)
    }
}

/// The instance the form describes: trimmed text, the chosen game version
/// (or the first offered), and the loader version rule above.
pub fn new_instance(
    name: &str,
    description: &str,
    mc_version: Option<&str>,
    loader: Loader,
    loader_version: &str,
    memory: u32,
) -> (r: NewInstance)
    ensures
        r@ == (NewInstanceView {
            name: trimmed(name@),
            description: trimmed(description@),
            mc_version: match mc_version {
                Some(v) => v@,
                None => "1.21.4"@,
            },
            loader,
            loader_version: loader_version_of(loader, loader_version@),
            memory,
        }),
{
    let typed = trim(loader_version);
    let version = if loader == Loader::Vanilla {
        "—".to_owned()
    } else if typed.as_str().is_empty() {
        "Latest".to_owned()
    } else {
        typed
    };
    NewInstance {
        name: trim(name),
        description: trim(description),
        mc_version: match mc_version {
            Some(v) => v.to_owned(),
            None => "1.21.4".to_owned(),
        },
        loader,
        loader_version: version,
        memory,
    }
}

/// The message shown when no game directory is chosen.
pub open spec fn no_storage_message() -> Seq<char> {
    "Choose a game directory before creating an instance."@
}

/// The message shown when the chosen game directory is gone.
pub open spec fn storage_gone_message() -> Seq<char> {
    "The selected game directory is no longer available."@
}

/// Creates the instance the form describes in the current game directory
/// and opens its page. Fails, changing nothing, without a chosen directory or
/// when the instance store is scoped to another one.
pub fn submit(state: &mut AppState, input: NewInstance) -> (r: Result<InstanceRef, &'static str>)
    requires
        old(state).instances@.revision < u64::MAX,
        old(state).instances@.next_id < u64::MAX,
    ensures
        final(state).sessions == old(state).sessions,
        final(state).crashes == old(state).crashes,
        final(state).settings == old(state).settings,
        final(state).accounts == old(state).accounts,
        final(state).storages == old(state).storages,
        final(state).default_storage == old(state).default_storage,
        match old(state).default_storage {
            None => (r matches Err(m) && m@ == no_storage_message()) && final(state).instances@ == old(state).instances@
                && final(state).navigation@ == old(state).navigation@,
            Some(storage) => if old(state).instances@.current_storage == Some(storage@) {
                let id = allocated_id("inst"@, (old(state).instances@.next_id + 1) as u64);
                &&& r matches Ok(reference) && reference@ == (RefView { storage: storage@, id })
                &&& final(state).instances@ == (InstanceStoreView {
                    instances: old(state).instances@.instances.push(created_instance(storage@, id, input@)),
                    current_storage: old(state).instances@.current_storage,
                    next_id: (old(state).instances@.next_id + 1) as u64,
                    revision: (old(state).instances@.revision + 1) as u64,
                })
                &&& final(state).navigation@ == pushed(old(state).navigation@, RouteView::InstanceDetail(RefView { storage: storage@, id }))
            } else {
                (r matches Err(m) && m@ == storage_gone_message()) && final(state).instances@ == old(state).instances@
                    && final(state).navigation@ == old(state).navigation@
            },
        },
{
    let storage = match state.storage() {
        Some(storage) => storage,
        None => return Err("Choose a game directory before creating an instance."),
    };
    match state.instances.create(storage, input) {
        Some(reference) => {
            let route = Route::InstanceDetail(InstanceRef { storage_id: reference.storage_id, instance_id: reference.instance_id.clone() });
            state.navigation.push(route);
            Ok(reference)
        },
        None => Err("The selected game directory is no longer available."),
    }
}

/// The notification shown once an instance is created.
pub fn created_message(name: &str) -> (r: String)
    ensures
        r@ == "Instance “"@ + name@ + "” created"@,
{
    let mut out: Vec<char> = Vec::new();
    push_str(&mut out, "Instance “");
    push_str(&mut out, name);
    push_str(&mut out, "” created");
    string_of(&out)
}

} // verus!
