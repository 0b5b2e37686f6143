//! Navigation routes and stable references to storage-backed resources.
use vstd::prelude::*;

use crate::text::{decimal, push_decimal, str_eq, string_of};
use crate::plain::PlainData;

verus! {

/// A stable identifier for a launcher-managed storage root.
#[derive(Clone, Copy, Debug, PartialEq, Eq, Hash, Structural)]
pub struct StorageId(u64);

impl View for StorageId {
    type V = u64;

    closed spec fn view(&self) -> u64 {
        self.0
    }
}

impl StorageId {
    /// Creates an identifier. App code should allocate these through its registry.
    pub fn new(value: u64) -> (r: Self)
        ensures
            r@ == value,
    {
        StorageId(value)
    }

    /// Constructor used by contract tests and seed data.
    pub fn for_test(value: u64) -> (r: Self)
        ensures
            r@ == value,
    {
        StorageId(value)
    }

    /// The raw identifier.
    pub fn value(&self) -> (r: u64)
        ensures
            r == self@,
    {
        self.0
    }

    /// Two identifiers are the same exactly when their raw values are.
    pub proof fn lemma_view_injective(a: StorageId, b: StorageId)
        ensures
            (a@ == b@) <==> a == b,
    {
    }

    /// The decimal rendering of the identifier (its `Display` form).
    pub fn to_string(&self) -> (r: String)
        ensures
            r@ == decimal(self@ as nat),
    {
        let mut digits: Vec<char> = Vec::new();
        push_decimal(&mut digits, self.0);
        string_of(&digits)
    }
}

/// The abstract value of a reference: its storage and the resource id.
pub struct RefView {
    pub storage: u64,
    pub id: Seq<char>,
}

/// A reference to an instance inside one storage root.
#[derive(Clone, Debug, PartialEq, Eq, Hash)]
pub struct InstanceRef {
    pub storage_id: StorageId,
    pub instance_id: String,
}

impl View for InstanceRef {
    type V = RefView;

    open spec fn view(&self) -> RefView {
        RefView { storage: self.storage_id@, id: self.instance_id@ }
    }
}

impl InstanceRef {
    pub fn new(storage_id: StorageId, instance_id: &str) -> (r: Self)
        ensures
            r.storage_id == storage_id,
            r.instance_id@ == instance_id@,
    {
        InstanceRef { storage_id, instance_id: instance_id.to_owned() }
    }

    pub fn for_test(storage_id: StorageId, instance_id: &str) -> (r: Self)
        ensures
            r.storage_id == storage_id,
            r.instance_id@ == instance_id@,
    {
        Self::new(storage_id, instance_id)
    }

    /// A copy of this reference.
    pub fn copied(&self) -> (r: Self)
        ensures
            r@ == self@,
            r.storage_id == self.storage_id,
    {
        InstanceRef { storage_id: self.storage_id, instance_id: self.instance_id.clone() }
    }

    /// Whether both references name the same instance.
    pub fn same(&self, other: &InstanceRef) -> (r: bool)
        ensures
            r == (self@ == other@),
    {
        self.storage_id.0 == other.storage_id.0 && self.instance_id == other.instance_id
    }
}

/// A reference to a crash report inside one storage root.
#[derive(Clone, Debug, PartialEq, Eq, Hash)]
pub struct CrashRef {
    pub storage_id: StorageId,
    pub report_id: String,
}

impl View for CrashRef {
    type V = RefView;

    open spec fn view(&self) -> RefView {
        RefView { storage: self.storage_id@, id: self.report_id@ }
    }
}

impl CrashRef {
    pub fn new(storage_id: StorageId, report_id: &str) -> (r: Self)
        ensures
            r.storage_id == storage_id,
            r.report_id@ == report_id@,
    {
        CrashRef { storage_id, report_id: report_id.to_owned() }
    }

    pub fn for_test(storage_id: StorageId, report_id: &str) -> (r: Self)
        ensures
            r.storage_id == storage_id,
            r.report_id@ == report_id@,
    {
        Self::new(storage_id, report_id)
    }

    /// Whether both references name the same report.
    pub fn same(&self, other: &CrashRef) -> (r: bool)
        ensures
            r == (self@ == other@),
    {
        self.storage_id.0 == other.storage_id.0 && self.report_id == other.report_id
    }
}

/// The pages of the launcher.
#[derive(Clone, Debug, PartialEq, Eq)]
pub enum Route {
    Setup,
    Play,
    Instances,
    Aphanite,
    InstanceDetail(InstanceRef),
    Mods(InstanceRef),
    Packs(InstanceRef),
    Shaders(InstanceRef),
    Worlds(InstanceRef),
    Logs(InstanceRef),
    LaunchSettings(InstanceRef),
    Crash(CrashRef),
    Accounts,
    Settings,
}

/// The abstract value of a route.
pub enum RouteView {
    Setup,
    Play,
    Instances,
    Aphanite,
    InstanceDetail(RefView),
    Mods(RefView),
    Packs(RefView),
    Shaders(RefView),
    Worlds(RefView),
    Logs(RefView),
    LaunchSettings(RefView),
    Crash(RefView),
    Accounts,
    Settings,
}

impl View for Route {
    type V = RouteView;

    open spec fn view(&self) -> RouteView {
        match self {
            Route::Setup => RouteView::Setup,
            Route::Play => RouteView::Play,
            Route::Instances => RouteView::Instances,
            Route::Aphanite => RouteView::Aphanite,
            Route::InstanceDetail(r) => RouteView::InstanceDetail(r@),
            Route::Mods(r) => RouteView::Mods(r@),
            Route::Packs(r) => RouteView::Packs(r@),
            Route::Shaders(r) => RouteView::Shaders(r@),
            Route::Worlds(r) => RouteView::Worlds(r@),
            Route::Logs(r) => RouteView::Logs(r@),
            Route::LaunchSettings(r) => RouteView::LaunchSettings(r@),
            Route::Crash(r) => RouteView::Crash(r@),
            Route::Accounts => RouteView::Accounts,
            Route::Settings => RouteView::Settings,
        }
    }
}

impl Route {
    /// Whether both routes lead to the same page.
    pub fn same(&self, other: &Route) -> (r: bool)
        ensures
            r == (self@ == other@),
    {
        match (self, other) {
            (Route::Setup, Route::Setup) => true,
            (Route::Play, Route::Play) => true,
            (Route::Instances, Route::Instances) => true,
            (Route::Aphanite, Route::Aphanite) => true,
            (Route::InstanceDetail(a), Route::InstanceDetail(b)) => a.same(b),
            (Route::Mods(a), Route::Mods(b)) => a.same(b),
            (Route::Packs(a), Route::Packs(b)) => a.same(b),
            (Route::Shaders(a), Route::Shaders(b)) => a.same(b),
            (Route::Worlds(a), Route::Worlds(b)) => a.same(b),
            (Route::Logs(a), Route::Logs(b)) => a.same(b),
            (Route::LaunchSettings(a), Route::LaunchSettings(b)) => a.same(b),
            (Route::Crash(a), Route::Crash(b)) => a.same(b),
            (Route::Accounts, Route::Accounts) => true,
            (Route::Settings, Route::Settings) => true,
            _ => false,
        }
    }
}

/// The most entries the history keeps, the current route included.
pub const MAX_HISTORY: usize = 32;

/// The abstract navigation state: the routes behind the current one, oldest
/// first, and the current route.
pub struct NavigationView {
    pub stack: Seq<RouteView>,
    pub current: RouteView,
}

/// The current route and the history that `back` returns through.
pub struct Navigation {
    current: Route,
    stack: Vec<Route>,
}

impl View for Navigation {
    type V = NavigationView;

    closed spec fn view(&self) -> NavigationView {
        NavigationView { stack: self.stack@.map_values(|r: Route| r@), current: self.current@ }
    }
}

/// What `push` does to the abstract state.
pub open spec fn pushed(nav: NavigationView, route: RouteView) -> NavigationView {
    if nav.current == route {
        nav
    } else {
        let kept = if nav.stack.len() >= 31 {
            nav.stack.remove(1)
        } else {
            nav.stack
        };
        NavigationView { stack: kept.push(nav.current), current: route }
    }
}

/// What `back` does to the abstract state.
pub open spec fn popped(nav: NavigationView) -> NavigationView {
    if nav.stack.len() == 0 {
        NavigationView { stack: nav.stack, current: RouteView::Play }
    } else {
        NavigationView { stack: nav.stack.drop_last(), current: nav.stack.last() }
    }
}

impl Navigation {
    #[verifier::type_invariant]
    closed spec fn bounded(self) -> bool {
        self.stack.len() < MAX_HISTORY
    }

    pub fn new(initial: Route) -> (r: Self)
        ensures
            r@.current == initial@,
            r@.stack == Seq::<RouteView>::empty(),
    {
        let r = Navigation { current: initial, stack: Vec::new() };
        assert(r@.stack =~= Seq::<RouteView>::empty());
        r
    }

    /// Moves to `route`, remembering the current route. Pushing the current
    /// route is a no-op; the oldest entry after the root is dropped once the
    /// history holds `MAX_HISTORY` entries, so the root entry is kept.
    pub fn push(&mut self, route: Route)
        ensures
            final(self)@ == pushed(old(self)@, route@),
            final(self)@.stack.len() < MAX_HISTORY,
    {
        proof {
            use_type_invariant(&*self);
        }
        if self.current.same(&route) {
            return;
        }
        let mut stack: Vec<Route> = Vec::new();
        std::mem::swap(&mut stack, &mut self.stack);
        if stack.len() >= 31 {
            stack.remove(1);
        }
        let mut previous = route;
        std::mem::swap(&mut self.current, &mut previous);
        stack.push(previous);
        std::mem::swap(&mut stack, &mut self.stack);
        proof {
            let o = old(self)@;
            let kept = if o.stack.len() >= 31 {
                o.stack.remove(1)
            } else {
                o.stack
            };
            assert(self@.stack =~= kept.push(o.current));
        }
    }

    /// Returns to the previous route, or to Play when there is none.
    pub fn back(&mut self)
        ensures
            final(self)@ == popped(old(self)@),
    {
        proof {
            use_type_invariant(&*self);
        }
        let mut stack: Vec<Route> = Vec::new();
        std::mem::swap(&mut stack, &mut self.stack);
        let last = stack.pop();
        std::mem::swap(&mut stack, &mut self.stack);
        match last {
            Some(previous) => {
                self.current = previous;
                proof {
                    assert(self@.stack =~= old(self)@.stack.drop_last());
                }
            },
            None => {
                self.current = Route::Play;
            },
        }
    }

    /// Changes the current route without touching the history.
    pub fn replace(&mut self, route: Route)
        ensures
            final(self)@ == (NavigationView { stack: old(self)@.stack, current: route@ }),
    {
        proof {
            use_type_invariant(&*self);
        }
        self.current = route;
    }

    pub fn current(&self) -> (r: &Route)
        ensures
            r@ == self@.current,
    {
        &self.current
    }

    pub fn history_len(&self) -> (r: usize)
        ensures
            r == self@.stack.len() + 1,
            r <= MAX_HISTORY,
    {
        proof {
            use_type_invariant(self);
        }
        self.stack.len() + 1
    }
}

/// Going back right after moving to a new route returns to exactly the
/// previous state, as long as the history was not full.
pub proof fn law_back_undoes_push(nav: NavigationView, route: RouteView)
    requires
        nav.current != route,
        nav.stack.len() + 1 < MAX_HISTORY,
    ensures
        popped(pushed(nav, route)) == nav,
{
    assert(nav.stack.push(nav.current).drop_last() =~= nav.stack);
}

/// Navigating to the route that is already current changes nothing.
pub proof fn law_push_current_is_noop(nav: NavigationView)
    ensures
        pushed(nav, nav.current) == nav,
{
}

/// The first entry of the history, the root, survives every push.
pub proof fn law_push_keeps_root(nav: NavigationView, route: RouteView)
    requires
        nav.stack.len() > 0,
        nav.stack.len() < MAX_HISTORY,
    ensures
        pushed(nav, route).stack[0] == nav.stack[0],
{
}

/// A push never lets the history grow past `MAX_HISTORY` entries.
pub proof fn law_push_bounds_history(nav: NavigationView, route: RouteView)
    requires
        nav.stack.len() < MAX_HISTORY,
    ensures
        pushed(nav, route).stack.len() < MAX_HISTORY,
        pushed(nav, route).stack.len() <= nav.stack.len() + 1,
{
}

impl DeepView for StorageId {
    type V = u64;

    open spec fn deep_view(&self) -> u64 {
        self@
    }
}

impl PlainData for StorageId {
    fn same(&self, other: &Self) -> (r: bool) {
        self.0 == other.0
    }

    fn copied(&self) -> (r: Self) {
        *self
    }
}
impl DeepView for InstanceRef {
    type V = RefView;

    open spec fn deep_view(&self) -> RefView {
        self@
    }
}

impl PlainData for InstanceRef {
    fn same(&self, other: &Self) -> (r: bool) {
        InstanceRef::same(self, other)
    }

    fn copied(&self) -> (r: Self) {
        InstanceRef::copied(self)
    }
}
impl DeepView for CrashRef {
    type V = RefView;

    open spec fn deep_view(&self) -> RefView {
        self@
    }
}

impl PlainData for CrashRef {
    fn same(&self, other: &Self) -> (r: bool) {
        CrashRef::same(self, other)
    }

    fn copied(&self) -> (r: Self) {
        CrashRef { storage_id: self.storage_id, report_id: self.report_id.clone() }
    }
}

/// The route a page name opens, the instance pages on `instance` and the
/// crash page on `report`, all in `storage`; nothing for an unknown name.
pub open spec fn page_route(page: Seq<char>, storage: u64, instance: Seq<char>, report: Seq<char>) -> Option<RouteView> {
    let r = RefView { storage, id: instance };
    if page == "setup"@ { Some(RouteView::Setup) }
    else if page == "play"@ { Some(RouteView::Play) }
    else if page == "instances"@ { Some(RouteView::Instances) }
    else if page == "aphanite"@ { Some(RouteView::Aphanite) }
    else if page == "instance-detail"@ { Some(RouteView::InstanceDetail(r)) }
    else if page == "mods"@ { Some(RouteView::Mods(r)) }
    else if page == "packs"@ { Some(RouteView::Packs(r)) }
    else if page == "shaders"@ { Some(RouteView::Shaders(r)) }
    else if page == "worlds"@ { Some(RouteView::Worlds(r)) }
    else if page == "logs"@ { Some(RouteView::Logs(r)) }
    else if page == "launch-settings"@ { Some(RouteView::LaunchSettings(r)) }
    else if page == "crash"@ { Some(RouteView::Crash(RefView { storage, id: report })) }
    else if page == "accounts"@ { Some(RouteView::Accounts) }
    else if page == "settings"@ { Some(RouteView::Settings) }
    else { None }
}

impl Route {
    /// The route a page name opens.
    pub fn from_page(page: &str, storage: StorageId, instance: &str, report: &str) -> (r: Option<Route>)
        ensures
            match r {
                Some(route) => page_route(page@, storage@, instance@, report@) == Some(route@),
                None => page_route(page@, storage@, instance@, report@) is None,
            },
    {
        let at = InstanceRef::new(storage, instance);
        if str_eq(page, "setup") { Some(Route::Setup) }
        else if str_eq(page, "play") { Some(Route::Play) }
        else if str_eq(page, "instances") { Some(Route::Instances) }
        else if str_eq(page, "aphanite") { Some(Route::Aphanite) }
        else if str_eq(page, "instance-detail") { Some(Route::InstanceDetail(at)) }
        else if str_eq(page, "mods") { Some(Route::Mods(at)) }
        else if str_eq(page, "packs") { Some(Route::Packs(at)) }
        else if str_eq(page, "shaders") { Some(Route::Shaders(at)) }
        else if str_eq(page, "worlds") { Some(Route::Worlds(at)) }
        else if str_eq(page, "logs") { Some(Route::Logs(at)) }
        else if str_eq(page, "launch-settings") { Some(Route::LaunchSettings(at)) }
        else if str_eq(page, "crash") { Some(Route::Crash(CrashRef::new(storage, report))) }
        else if str_eq(page, "accounts") { Some(Route::Accounts) }
        else if str_eq(page, "settings") { Some(Route::Settings) }
        else { None }
    }
}

} // verus!
