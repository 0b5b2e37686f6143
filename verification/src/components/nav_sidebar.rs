//! The sidebar's decisions: which entry is highlighted and how a group's
//! disclosure button is announced.
use vstd::prelude::*;

use crate::route::{InstanceRef, RefView, Route, RouteView};

verus! {

/// The instance a route shows a page of, if it shows one.
pub open spec fn instance_page_of(route: RouteView) -> Option<RefView> {
    match route {
        RouteView::InstanceDetail(r) | RouteView::Mods(r) | RouteView::Packs(r) | RouteView::Shaders(r)
        | RouteView::Worlds(r) | RouteView::Logs(r) | RouteView::LaunchSettings(r) => Some(r),
        _ => None,
    }
}

/// Whether an instance's sidebar row is highlighted: the current route is one
/// of that instance's pages.
pub fn row_active(current: &Route, reference: &InstanceRef) -> (r: bool)
    ensures
        r == (instance_page_of(current@) == Some(reference@)),
{
    match current {
        Route::InstanceDetail(active) | Route::Mods(active) | Route::Packs(active) | Route::Shaders(active)
        | Route::Worlds(active) | Route::Logs(active) | Route::LaunchSettings(active) => active.same(reference),
        _ => false,
    }
}

/// The two instance groups of the sidebar.
#[derive(Clone, Copy, Debug, PartialEq, Eq, Structural)]
pub enum Section {
    Local,
    Aphanite,
}

impl Section {
    /// The group's heading.
    pub fn label(&self) -> (r: &'static str)
        ensures
            r@ == (match self {
                Section::Local => "Instances"@,
                Section::Aphanite => "Aphanite"@,
            }),
    {
        match self {
            Section::Local => "Instances",
            Section::Aphanite => "Aphanite",
        }
    }

    /// The route the heading leads to.
    pub fn route(&self) -> (r: Route)
        ensures
            r@ == (match self {
                Section::Local => RouteView::Instances,
                Section::Aphanite => RouteView::Aphanite,
            }),
    {
        match self {
            Section::Local => Route::Instances,
            Section::Aphanite => Route::Aphanite,
        }
    }

    /// What the group's rows are called in its disclosure label.
    pub open spec fn noun(self) -> Seq<char> {
        match self {
            Section::Local => "local instances"@,
            Section::Aphanite => "Aphanite instances"@,
        }
    }

    /// The disclosure button's label: `Collapse` an open group, `Expand` a
    /// closed one.
    pub fn disclosure_label(&self, open: bool) -> (r: String)
        ensures
            r@ == (if open { "Collapse "@ } else { "Expand "@ }) + self.noun(),
    {
        let mut out: Vec<char> = Vec::new();
        crate::text::push_str(&mut out, if open { "Collapse " } else { "Expand " });
        crate::text::push_str(&mut out, match self {
            Section::Local => "local instances",
            Section::Aphanite => "Aphanite instances",
        });
        crate::text::string_of(&out)
    }
}

/// Whether a group heading is highlighted: the current route is the group's
/// own page.
pub fn section_active(current: &Route, section: Section) -> (r: bool)
    ensures
        r == (current@ == match section {
            Section::Local => RouteView::Instances,
            Section::Aphanite => RouteView::Aphanite,
        }),
{
    current.same(&section.route())
}

} // verus!
