//! Application state models and stores shared across pages and components.
use vstd::prelude::*;

pub mod accounts;
pub mod crash;
pub mod instances;
pub mod launch;
pub mod sessions;
pub mod settings;

pub use accounts::{AccountStore, AccountSummary, PlayerProfileSummary};
pub use crash::{redact, CrashEnvironment, CrashFinding, CrashReport, CrashSource, CrashStore};
pub use instances::{
    icon_seed, InstanceStore, InstanceSummary, JavaRuntimeSummary, ModSummary, NewInstance,
    ResourcePackSummary, ShaderPackSummary, WorldSummary,
};
pub use launch::{
    LaunchField, LaunchJob, LaunchOverrides, LaunchPhase, LaunchSettings, LaunchStore, LaunchValue,
    MemoryMode, QuickPlayMode, WindowMode,
};
pub use sessions::{SessionId, SessionStore, SessionSummary};
pub use settings::{PreferenceFlag, Preferences, ProcessPriority, Settings, SettingsStore};

use crate::route::{InstanceRef, Navigation, NavigationView, Route, RouteView, StorageId, pushed};

use crate::text::str_eq;
use crate::plain::PlainData;

verus! {

/// The four mod loaders Phanerite supports. Quilt is deliberately absent.
#[derive(Clone, Copy, Debug, PartialEq, Eq, Hash, Structural)]
pub enum Loader {
    Vanilla,
    Fabric,
    Forge,
    NeoForge,
}

/// The lower-case identifier of a loader.
pub open spec fn loader_key(loader: Loader) -> Seq<char> {
    match loader {
        Loader::Vanilla => "vanilla"@,
        Loader::Fabric => "fabric"@,
        Loader::Forge => "forge"@,
        Loader::NeoForge => "neoforge"@,
    }
}

/// The display label of a loader.
pub open spec fn loader_label(loader: Loader) -> Seq<char> {
    match loader {
        Loader::Vanilla => "Vanilla"@,
        Loader::Fabric => "Fabric"@,
        Loader::Forge => "Forge"@,
        Loader::NeoForge => "NeoForge"@,
    }
}

impl Loader {
    pub const ALL: [Loader; 4] = [Loader::Vanilla, Loader::Fabric, Loader::Forge, Loader::NeoForge];

    /// The display label.
    pub fn label(self) -> (r: &'static str)
        ensures
            r@ == loader_label(self),
    {
        match self {
            Loader::Vanilla => "Vanilla",
            Loader::Fabric => "Fabric",
            Loader::Forge => "Forge",
            Loader::NeoForge => "NeoForge",
        }
    }

    /// The lowercase identifier that is stored and rendered capitalized.
    pub fn key(self) -> (r: &'static str)
        ensures
            r@ == loader_key(self),
    {
        match self {
            Loader::Vanilla => "vanilla",
            Loader::Fabric => "fabric",
            Loader::Forge => "forge",
            Loader::NeoForge => "neoforge",
        }
    }

    /// The loader whose identifier is `key`, if any.
    pub fn from_key(key: &str) -> (r: Option<Self>)
        ensures
            r matches Some(l) ==> loader_key(l) == key@,
            r is None ==> forall|l: Loader| loader_key(l) != key@,
    {
        proof {
            reveal_strlit("vanilla");
            reveal_strlit("fabric");
            reveal_strlit("forge");
            reveal_strlit("neoforge");
        }
        if str_eq(key, "vanilla") {
            Some(Loader::Vanilla)
        } else if str_eq(key, "fabric") {
            Some(Loader::Fabric)
        } else if str_eq(key, "forge") {
            Some(Loader::Forge)
        } else if str_eq(key, "neoforge") {
            Some(Loader::NeoForge)
        } else {
            proof {
                assert forall|l: Loader| loader_key(l) != key@ by {
                    match l {
                        Loader::Vanilla => {},
                        Loader::Fabric => {},
                        Loader::Forge => {},
                        Loader::NeoForge => {},
                    }
                }
            }
            None
        }
    }
}

/// The account providers the launcher offers.
#[derive(Clone, Copy, Debug, PartialEq, Eq, Hash, Structural)]
pub enum AccountType {
    Microsoft,
    Aphanite,
    Yggdrasil,
    Offline,
}

impl AccountType {
    pub fn label(self) -> (r: &'static str)
        ensures
            r@ == match self {
                AccountType::Microsoft => "Microsoft"@,
                AccountType::Aphanite => "Aphanite"@,
                AccountType::Yggdrasil => "Yggdrasil"@,
                AccountType::Offline => "Offline"@,
            },
    {
        match self {
            AccountType::Microsoft => "Microsoft",
            AccountType::Aphanite => "Aphanite",
            AccountType::Yggdrasil => "Yggdrasil",
            AccountType::Offline => "Offline",
        }
    }

    /// Lowercase form, as the account's type is stored.
    pub fn key(self) -> (r: &'static str)
        ensures
            r@ == match self {
                AccountType::Microsoft => "microsoft"@,
                AccountType::Aphanite => "aphanite"@,
                AccountType::Yggdrasil => "yggdrasil"@,
                AccountType::Offline => "offline"@,
            },
    {
        match self {
            AccountType::Microsoft => "microsoft",
            AccountType::Aphanite => "aphanite",
            AccountType::Yggdrasil => "yggdrasil",
            AccountType::Offline => "offline",
        }
    }
}

impl DeepView for Loader {
    type V = Loader;

    open spec fn deep_view(&self) -> Loader {
        *self
    }
}

impl PlainData for Loader {
    fn same(&self, other: &Self) -> (r: bool) {
        *self == *other
    }

    fn copied(&self) -> (r: Self) {
        *self
    }
}
impl DeepView for AccountType {
    type V = AccountType;

    open spec fn deep_view(&self) -> AccountType {
        *self
    }
}

impl PlainData for AccountType {
    fn same(&self, other: &Self) -> (r: bool) {
        *self == *other
    }

    fn copied(&self) -> (r: Self) {
        *self
    }
}

/// Whether `storage` is among the registered storage roots.
pub open spec fn registered(storages: Seq<StorageId>, storage: StorageId) -> bool {
    exists|i: int| 0 <= i < storages.len() && storages[i] == storage
}

/// The default storage, when there is one, is registered.
pub open spec fn default_is_registered(storages: Seq<StorageId>, default_storage: Option<StorageId>) -> bool {
    default_storage matches Some(d) ==> registered(storages, d)
}

/// Whether `remove_storage(storage, replacement)` goes ahead: the storage is
/// registered, and a replacement is given exactly when the default storage is
/// removed while others remain; it must then be another registered storage.
pub open spec fn removal_allowed(
    storages: Seq<StorageId>,
    default_storage: Option<StorageId>,
    storage: StorageId,
    replacement: Option<StorageId>,
) -> bool {
    &&& registered(storages, storage)
    &&& if default_storage == Some(storage) {
        if storages.len() > 1 {
            replacement matches Some(r) && r != storage && registered(storages, r)
        } else {
            replacement is None
        }
    } else {
        replacement is None
    }
}

/// No storage root is registered twice.
pub open spec fn distinct_storages(storages: Seq<StorageId>) -> bool {
    forall|i: int, j: int| 0 <= i < j < storages.len() ==> storages[i] != storages[j]
}

/// App-scoped state: the registered storage roots and the selected one,
/// navigation, and the low and medium frequency stores.
pub struct AppState {
    /// Identities of the registered storage roots.
    pub storages: Vec<StorageId>,
    /// Storage root currently selected by the app.
    pub default_storage: Option<StorageId>,
    /// Current route and the navigation history.
    pub navigation: Navigation,
    /// Instance metadata and the currently loaded instances.
    pub instances: InstanceStore,
    /// Configured accounts and the active account selection.
    pub accounts: AccountStore,
    /// Application settings, preferences, and discovered Java runtimes.
    pub settings: SettingsStore,
    /// Crash reports of the registered storage roots.
    pub crashes: CrashStore,
    /// Launched and recently finished game sessions.
    pub sessions: SessionStore,
}

fn position_of(storages: &Vec<StorageId>, storage: StorageId) -> (r: Option<usize>)
    ensures
        r matches Some(k) ==> k < storages.len() && storages@[k as int] == storage && forall|j: int|
            0 <= j < k ==> storages@[j] != storage,
        r is None ==> !registered(storages@, storage),
{
    let mut i: usize = 0;
    while i < storages.len()
        invariant
            i <= storages.len(),
            forall|j: int| 0 <= j < i ==> storages@[j] != storage,
        decreases storages.len() - i,
    {
        if storages[i].value() == storage.value() {
            proof {
                StorageId::lemma_view_injective(storages@[i as int], storage);
            }
            return Some(i);
        }
        proof {
            StorageId::lemma_view_injective(storages@[i as int], storage);
        }
        i += 1;
    }
    None
}

impl AppState {
    /// The route the app opens on: the given one, or Play when a storage is
    /// selected and Setup otherwise.
    pub open spec fn initial_route(default_storage: Option<StorageId>, initial: Option<RouteView>) -> RouteView {
        match initial {
            Some(r) => r,
            None => if default_storage is Some {
                RouteView::Play
            } else {
                RouteView::Setup
            },
        }
    }

    pub fn new(
        storages: Vec<StorageId>,
        default_storage: Option<StorageId>,
        instances: InstanceStore,
        accounts: AccountStore,
        settings: SettingsStore,
        crashes: CrashStore,
        sessions: SessionStore,
    ) -> (r: Self)
        requires
            distinct_storages(storages@),
        ensures
            r.storages == storages,
            r.default_storage == default_storage,
            r.navigation@.current == Self::initial_route(default_storage, None),
            r.navigation@.stack.len() == 0,
            r.instances == instances,
            r.accounts == accounts,
            r.settings == settings,
            r.crashes == crashes,
            r.sessions == sessions,
    {
        Self::new_with_route(storages, default_storage, instances, accounts, settings, crashes, sessions, None)
    }

    pub fn new_with_route(
        storages: Vec<StorageId>,
        default_storage: Option<StorageId>,
        instances: InstanceStore,
        accounts: AccountStore,
        settings: SettingsStore,
        crashes: CrashStore,
        sessions: SessionStore,
        initial_route: Option<Route>,
    ) -> (r: Self)
        requires
            distinct_storages(storages@),
        ensures
            r.storages == storages,
            r.default_storage == default_storage,
            r.navigation@.current == Self::initial_route(
                default_storage,
                match initial_route {
                    Some(route) => Some(route@),
                    None => None,
                },
            ),
            r.navigation@.stack.len() == 0,
            r.instances == instances,
            r.accounts == accounts,
            r.settings == settings,
            r.crashes == crashes,
            r.sessions == sessions,
    {
        let initial = match initial_route {
            Some(route) => route,
            None => if default_storage.is_some() {
                Route::Play
            } else {
                Route::Setup
            },
        };
        AppState {
            storages,
            default_storage,
            navigation: Navigation::new(initial),
            instances,
            accounts,
            settings,
            crashes,
            sessions,
        }
    }

    /// The storage the UI is currently scoped to, if any root is selected.
    pub fn storage(&self) -> (r: Option<StorageId>)
        ensures
            r == self.default_storage,
    {
        self.default_storage
    }

    /// Selects a registered storage root as the default for new UI work.
    pub fn set_default_storage(&mut self, storage: StorageId) -> (r: bool)
        ensures
            r == (old(self).default_storage != Some(storage) && registered(old(self).storages@, storage)),
            final(self).default_storage == if r {
                Some(storage)
            } else {
                old(self).default_storage
            },
            final(self).storages == old(self).storages,
            final(self).navigation == old(self).navigation,
    {
        let already = match self.default_storage {
            Some(d) => d.value() == storage.value(),
            None => false,
        };
        proof {
            if let Some(d) = self.default_storage {
                StorageId::lemma_view_injective(d, storage);
            }
        }
        if already || position_of(&self.storages, storage).is_none() {
            return false;
        }
        self.default_storage = Some(storage);
        true
    }

    /// Registers a storage root and selects it when no default exists yet;
    /// a root that is already registered is refused, so no root is ever
    /// registered twice.
    pub fn add_storage(&mut self, storage: StorageId) -> (r: Option<StorageId>)
        requires
            distinct_storages(old(self).storages@),
        ensures
            distinct_storages(final(self).storages@),
            r is Some == !registered(old(self).storages@, storage),
            r is Some ==> r == Some(storage) && final(self).storages@ == old(self).storages@.push(storage)
                && final(self).default_storage == if old(self).default_storage is None {
                    Some(storage)
                } else {
                    old(self).default_storage
                },
            r is None ==> final(self).storages == old(self).storages && final(self).default_storage == old(self).default_storage,
            final(self).navigation == old(self).navigation,
    {
        if position_of(&self.storages, storage).is_some() {
            return None;
        }
        self.storages.push(storage);
        if self.default_storage.is_none() {
            self.default_storage = Some(storage);
        }
        Some(storage)
    }

    /// Removes a storage root. Removing the default requires another
    /// registered root as replacement (unless it is the last one), and a
    /// replacement is refused when the default is not removed.
    pub fn remove_storage(&mut self, storage: StorageId, replacement: Option<StorageId>) -> (r: bool)
        requires
            distinct_storages(old(self).storages@),
        ensures
            distinct_storages(final(self).storages@),
            r ==> !registered(final(self).storages@, storage),
            r == removal_allowed(old(self).storages@, old(self).default_storage, storage, replacement),
            r ==> exists|k: int| 0 <= k < old(self).storages@.len() && old(self).storages@[k] == storage
                && final(self).storages@ == old(self).storages@.remove(k)
                && forall|j: int| 0 <= j < k ==> old(self).storages@[j] != storage,
            r ==> final(self).default_storage == if old(self).default_storage == Some(storage) {
                replacement
            } else {
                old(self).default_storage
            },
            !r ==> final(self).storages == old(self).storages && final(self).default_storage == old(self).default_storage,
            final(self).navigation == old(self).navigation,
    {
        let k = match position_of(&self.storages, storage) {
            Some(k) => k,
            None => return false,
        };
        let is_default = match self.default_storage {
            Some(d) => d.value() == storage.value(),
            None => false,
        };
        proof {
            if let Some(d) = self.default_storage {
                StorageId::lemma_view_injective(d, storage);
            }
            if let Some(rp) = replacement {
                StorageId::lemma_view_injective(rp, storage);
            }
        }
        if is_default {
            if self.storages.len() > 1 {
                let valid = match replacement {
                    Some(rp) => rp.value() != storage.value() && position_of(&self.storages, rp).is_some(),
                    None => false,
                };
                if !valid {
                    return false;
                }
            } else if replacement.is_some() {
                return false;
            }
        } else if replacement.is_some() {
            return false;
        }
        self.storages.remove(k);
        if is_default {
            self.default_storage = replacement;
        }
        true
    }

    pub fn route(&self) -> (r: &Route)
        ensures
            r@ == self.navigation@.current,
    {
        self.navigation.current()
    }

    pub fn push(&mut self, route: Route)
        ensures
            final(self).navigation@ == pushed(old(self).navigation@, route@),
            final(self).storages == old(self).storages,
            final(self).default_storage == old(self).default_storage,
    {
        self.navigation.push(route);
    }

    pub fn replace(&mut self, route: Route)
        ensures
            final(self).navigation@ == (NavigationView { stack: old(self).navigation@.stack, current: route@ }),
            final(self).storages == old(self).storages,
            final(self).default_storage == old(self).default_storage,
    {
        self.navigation.replace(route);
    }

    pub fn back(&mut self)
        ensures
            final(self).navigation@ == crate::route::popped(old(self).navigation@),
            final(self).storages == old(self).storages,
            final(self).default_storage == old(self).default_storage,
    {
        self.navigation.back();
    }

    /// Opens an instance detail page, ignoring references that no longer exist.
    pub fn open_instance(&mut self, reference: InstanceRef)
        ensures
            final(self).navigation@ == if crate::seqs::first_index(
                old(self).instances@.instances,
                crate::state::instances::named(reference@),
            ) is Some {
                pushed(old(self).navigation@, RouteView::InstanceDetail(reference@))
            } else {
                old(self).navigation@
            },
            final(self).storages == old(self).storages,
            final(self).default_storage == old(self).default_storage,
    {
        let exists = self.instances.find(&reference).is_some();
        if exists {
            self.push(Route::InstanceDetail(reference));
        }
    }
}

/// Every storage operation keeps the default storage registered.
pub proof fn law_default_storage_stays_registered(
    storages: Seq<StorageId>,
    default_storage: Option<StorageId>,
    storage: StorageId,
    replacement: Option<StorageId>,
    k: int,
)
    requires
        default_is_registered(storages, default_storage),
        removal_allowed(storages, default_storage, storage, replacement),
        0 <= k < storages.len(),
        storages[k] == storage,
        forall|j: int| 0 <= j < k ==> storages[j] != storage,
        distinct_storages(storages),
    ensures
        default_is_registered(
            storages.remove(k),
            if default_storage == Some(storage) {
                replacement
            } else {
                default_storage
            },
        ),
        default_is_registered(storages.push(storage), if default_storage is None { Some(storage) } else { default_storage }),
{
    let rest = storages.remove(k);
    let next = if default_storage == Some(storage) {
        replacement
    } else {
        default_storage
    };
    if let Some(d) = next {
        let i = choose|i: int| 0 <= i < storages.len() && storages[i] == d;
        assert(i != k);
        if i < k {
            assert(rest[i] == d);
        } else {
            assert(rest[i - 1] == d);
        }
    }
    let pushed_list = storages.push(storage);
    if let Some(d) = if default_storage is None { Some(storage) } else { default_storage } {
        if default_storage is None {
            assert(pushed_list[storages.len() as int] == d);
        } else {
            let i = choose|i: int| 0 <= i < storages.len() && storages[i] == d;
            assert(pushed_list[i] == d);
        }
    }
}

} // verus!
