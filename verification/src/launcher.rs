//! The launcher at start-up: the seeded gallery scoped to the storage the
//! program opened, the first account by username made active, and the first
//! route.
use vstd::prelude::*;

use crate::route::{CrashRef, InstanceRef, RefView, Route, RouteView, StorageId};
use crate::seed::{seed_crash_reports, seed_crash_reports_view, seed_instances, seed_instances_view, seed_runtimes, seed_runtimes_view};
use crate::state::accounts::AccountSummaryView;
use crate::state::crash::CrashStoreView;
use crate::state::instances::InstanceStoreView;
use crate::state::settings::{default_settings, SettingsStoreView};
use crate::state::{AccountStore, AccountSummary, AppState, CrashStore, InstanceStore, SessionStore, Settings, SettingsStore};
use crate::text::chars_of;

verus! {

/// Whether `a` sorts before `b`: the order of `str`, character by character,
/// a proper prefix first.
pub open spec fn lex_less(a: Seq<char>, b: Seq<char>) -> bool
    decreases a.len(),
{
    if a.len() == 0 {
        b.len() > 0
    } else if b.len() == 0 {
        false
    } else if a[0] != b[0] {
        a[0] < b[0]
    } else {
        lex_less(a.drop_first(), b.drop_first())
    }
}

/// The order is transitive.
pub proof fn lemma_lex_transitive(a: Seq<char>, b: Seq<char>, c: Seq<char>)
    requires
        lex_less(a, b),
        lex_less(b, c),
    ensures
        lex_less(a, c),
    decreases a.len(),
{
    if a.len() > 0 && b.len() > 0 && c.len() > 0 && a[0] == b[0] && b[0] == c[0] {
        lemma_lex_transitive(a.drop_first(), b.drop_first(), c.drop_first());
    }
}

/// Of two different strings, one sorts before the other.
pub proof fn lemma_lex_total(a: Seq<char>, b: Seq<char>)
    ensures
        lex_less(a, b) || lex_less(b, a) || a == b,
    decreases a.len(),
{
    if a.len() > 0 && b.len() > 0 && a[0] == b[0] {
        lemma_lex_total(a.drop_first(), b.drop_first());
        if a.drop_first() == b.drop_first() {
            assert(a =~= seq![a[0]] + a.drop_first());
            assert(b =~= seq![b[0]] + b.drop_first());
        }
    } else if a.len() == 0 && b.len() == 0 {
        assert(a =~= b);
    }
}

/// No string sorts before itself.
pub proof fn lemma_lex_irreflexive(a: Seq<char>)
    ensures
        !lex_less(a, a),
    decreases a.len(),
{
    if a.len() > 0 {
        lemma_lex_irreflexive(a.drop_first());
    }
}

/// Whether `a` sorts before `b`.
pub fn sorts_before(a: &str, b: &str) -> (r: bool)
    ensures
        r == lex_less(a@, b@),
{
    let x = chars_of(a);
    let y = chars_of(b);
    let mut i: usize = 0;
    assert(a@.skip(0) =~= a@ && b@.skip(0) =~= b@);
    while i < x.len() && i < y.len()
        invariant
            x@ == a@,
            y@ == b@,
            i <= x.len(),
            i <= y.len(),
            lex_less(a@, b@) == lex_less(a@.skip(i as int), b@.skip(i as int)),
        decreases x.len() - i,
    {
        if x[i] != y[i] {
            proof {
                assert(a@.skip(i as int)[0] == x@[i as int]);
                assert(b@.skip(i as int)[0] == y@[i as int]);
            }
            return x[i] < y[i];
        }
        proof {
            assert(a@.skip(i as int).drop_first() =~= a@.skip(i + 1));
            assert(b@.skip(i as int).drop_first() =~= b@.skip(i + 1));
        }
        i += 1;
    }
    proof {
        assert(a@.skip(i as int).len() == 0 || b@.skip(i as int).len() == 0);
    }
    i == x.len() && i < y.len()
}

/// Whether account `k` is the first one whose username sorts least: every
/// earlier username sorts after it, and no later one sorts before it.
pub open spec fn first_least_username(accounts: Seq<AccountSummaryView>, k: int) -> bool {
    &&& 0 <= k < accounts.len()
    &&& forall|j: int| 0 <= j < k ==> lex_less(accounts[k].username, #[trigger] accounts[j].username)
    &&& forall|j: int| k < j < accounts.len() ==> !lex_less(#[trigger] accounts[j].username, accounts[k].username)
}

/// The position of the first account whose username sorts least, the one a
/// stable sort by username puts first.
pub fn first_by_username(accounts: &[AccountSummary]) -> (r: Option<usize>)
    ensures
        accounts@.len() == 0 ==> r is None,
        accounts@.len() > 0 ==> (r matches Some(k) && first_least_username(accounts.deep_view(), k as int)),
{
    if accounts.len() == 0 {
        return None;
    }
    let ghost s = accounts.deep_view();
    let mut best: usize = 0;
    let mut i: usize = 1;
    while i < accounts.len()
        invariant
            s == accounts.deep_view(),
            s.len() == accounts.len(),
            best < i <= accounts.len(),
            forall|j: int| 0 <= j < best ==> lex_less(s[best as int].username, #[trigger] s[j].username),
            forall|j: int| best < j < i ==> !lex_less(#[trigger] s[j].username, s[best as int].username),
        decreases accounts.len() - i,
    {
        assert(s[i as int].username == accounts[i as int].username@);
        assert(s[best as int].username == accounts[best as int].username@);
        if sorts_before(accounts[i].username.as_str(), accounts[best].username.as_str()) {
            proof {
                let new_best = s[i as int].username;
                let old_best = s[best as int].username;
                assert forall|j: int| 0 <= j < i implies lex_less(new_best, #[trigger] s[j].username) by {
                    if j < best {
                        lemma_lex_transitive(new_best, old_best, s[j].username);
                    } else if j > best {
                        lemma_lex_total(s[j].username, old_best);
                        if lex_less(old_best, s[j].username) {
                            lemma_lex_transitive(new_best, old_best, s[j].username);
                        }
                    }
                }
            }
            best = i;
        }
        i += 1;
    }
    Some(best)
}

/// A route's references moved into the storage, for the instance and crash
/// pages; every other route as it is.
pub open spec fn rescoped_of(route: RouteView, storage: u64) -> RouteView {
    match route {
        RouteView::InstanceDetail(r) => RouteView::InstanceDetail(RefView { storage, ..r }),
        RouteView::Mods(r) => RouteView::Mods(RefView { storage, ..r }),
        RouteView::Packs(r) => RouteView::Packs(RefView { storage, ..r }),
        RouteView::Shaders(r) => RouteView::Shaders(RefView { storage, ..r }),
        RouteView::Worlds(r) => RouteView::Worlds(RefView { storage, ..r }),
        RouteView::Logs(r) => RouteView::Logs(RefView { storage, ..r }),
        RouteView::LaunchSettings(r) => RouteView::LaunchSettings(RefView { storage, ..r }),
        RouteView::Crash(r) => RouteView::Crash(RefView { storage, ..r }),
        _ => route,
    }
}

fn moved(reference: InstanceRef, storage: StorageId) -> (r: InstanceRef)
    ensures
        r@ == (RefView { storage: storage@, ..reference@ }),
{
    InstanceRef { storage_id: storage, instance_id: reference.instance_id }
}

/// A route moved into the storage.
pub fn rescoped_route(route: Route, storage: StorageId) -> (r: Route)
    ensures
        r@ == rescoped_of(route@, storage@),
{
    match route {
        Route::InstanceDetail(r) => Route::InstanceDetail(moved(r, storage)),
        Route::Mods(r) => Route::Mods(moved(r, storage)),
        Route::Packs(r) => Route::Packs(moved(r, storage)),
        Route::Shaders(r) => Route::Shaders(moved(r, storage)),
        Route::Worlds(r) => Route::Worlds(moved(r, storage)),
        Route::Logs(r) => Route::Logs(moved(r, storage)),
        Route::LaunchSettings(r) => Route::LaunchSettings(moved(r, storage)),
        Route::Crash(r) => Route::Crash(CrashRef { storage_id: storage, report_id: r.report_id }),
        other => other,
    }
}

/// The launcher's root state.
pub struct Phanerite {
    pub app: AppState,
}

impl Phanerite {
    /// The launcher in the opened storage, on its first page.
    pub fn new(storage: StorageId, accounts: AccountStore) -> (r: Self)
        requires
            accounts@.revision < u64::MAX,
        ensures
            Self::started(r, storage, accounts@, None),
    {
        Self::new_with_route(storage, accounts, None)
    }

    /// What the launcher holds at start-up: the seeded instances, crash
    /// reports and runtimes in the opened storage, which the instance store is
    /// scoped to; the first account by username made active; and the given
    /// route, moved into the storage, or the play page.
    pub open spec fn started(r: Self, storage: StorageId, accounts: crate::state::accounts::AccountStoreView, route: Option<RouteView>) -> bool {
        &&& r.app.storages@ == seq![storage]
        &&& r.app.default_storage == Some(storage)
        &&& r.app.instances@ == (InstanceStoreView {
            instances: seed_instances_view(storage@),
            current_storage: Some(storage@),
            next_id: 0,
            revision: 0,
        })
        &&& r.app.crashes@ == (CrashStoreView { reports: seed_crash_reports_view(storage@), current_storage: None, revision: 0 })
        &&& r.app.settings@ == (SettingsStoreView {
            settings: default_settings(),
            runtimes: seed_runtimes_view(),
            next_id: 0,
            revision: 0,
        })
        &&& r.app.sessions@.sessions.len() == 0
        &&& r.app.navigation@.stack.len() == 0
        &&& r.app.navigation@.current == match route {
            Some(route) => rescoped_of(route, storage@),
            None => RouteView::Play,
        }
        &&& r.app.accounts@.accounts == accounts.accounts
        &&& if accounts.accounts.len() == 0 {
            r.app.accounts@ == accounts
        } else {
            exists|k: int| #![trigger accounts.accounts[k]]
                first_least_username(accounts.accounts, k) && (if accounts.active_id == Some(accounts.accounts[k].id) {
                    r.app.accounts@ == accounts
                } else {
                    r.app.accounts@.active_id == Some(accounts.accounts[k].id)
                        && r.app.accounts@.revision == accounts.revision + 1
                })
        }
    }

    /// The launcher in the opened storage, on the given route.
    pub fn new_with_route(storage: StorageId, accounts: AccountStore, initial_route: Option<Route>) -> (r: Self)
        requires
            accounts@.revision < u64::MAX,
        ensures
            Self::started(r, storage, accounts@, match initial_route {
                Some(route) => Some(route@),
                None => None,
            }),
    {
        let mut instances = InstanceStore::new(seed_instances(storage));
        instances.set_storage_context(storage);
        let crashes = CrashStore::new(seed_crash_reports(storage));
        let settings = SettingsStore::new(Settings::default(), seed_runtimes());
        let mut accounts = accounts;
        let ghost before = accounts@;
        let all = accounts.all();
        match first_by_username(all.as_slice()) {
            Some(k) => {
                proof {
                    assert(all.deep_view()[k as int] == all@[k as int].deep_view());
                }
                accounts.set_active(all[k].id.as_str());
                proof {
                    let kk = k as int;
                    assert(first_least_username(before.accounts, kk));
                    assert(crate::seqs::first_index(before.accounts, crate::state::accounts::account_with_id(before.accounts[kk].id)) is Some) by {
                        crate::seqs::lemma_first_index(before.accounts, crate::state::accounts::account_with_id(before.accounts[kk].id));
                        assert(crate::state::accounts::account_with_id(before.accounts[kk].id)(before.accounts[kk]));
                    }
                }
            },
            None => {},
        }
        let route = match initial_route {
            Some(route) => Some(rescoped_route(route, storage)),
            None => None,
        };
        let mut storages: Vec<StorageId> = Vec::new();
        storages.push(storage);
        let app = AppState::new_with_route(
            storages,
            Some(storage),
            instances,
            accounts,
            settings,
            crashes,
            SessionStore::new(),
            route,
        );
        Phanerite { app }
    }
}

} // verus!
