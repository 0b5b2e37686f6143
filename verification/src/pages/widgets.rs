//! Helpers shared by the pages.
use vstd::prelude::*;

use crate::route::{InstanceRef, RefView};
use crate::text::{decimal, lowercased, push_decimal, push_str, string_of, to_lowercase, trim, trimmed};

verus! {

/// The key under which a page keeps state for something of an instance:
/// `storage:instance:suffix`.
pub open spec fn instance_key_of(r: RefView, suffix: Seq<char>) -> Seq<char> {
    decimal(r.storage as nat) + seq![':'] + r.id + seq![':'] + suffix
}

/// The key under which a page keeps state for something of an instance.
pub fn instance_key(reference: &InstanceRef, suffix: &str) -> (r: String)
    ensures
        r@ == instance_key_of(reference@, suffix@),
{
    let mut out: Vec<char> = Vec::new();
    push_decimal(&mut out, reference.storage_id.value());
    out.push(':');
    push_str(&mut out, reference.instance_id.as_str());
    out.push(':');
    push_str(&mut out, suffix);
    assert(out@ =~= instance_key_of(reference@, suffix@));
    string_of(&out)
}

/// The label of the favorite toggle for an instance that is, or is not, a
/// favorite.
pub fn favorite_label(favorite: bool) -> (r: &'static str)
    ensures
        r@ == (if favorite { "Remove from favorites"@ } else { "Add to favorites"@ }),
{
    if favorite {
        "Remove from favorites"
    } else {
        "Add to favorites"
    }
}

/// What a search box matches with: its text trimmed and lower-cased.
pub open spec fn search_key_of(raw: Seq<char>) -> Seq<char> {
    lowercased(trimmed(raw))
}

/// What a search box matches with.
pub fn search_key(raw: &str) -> (r: String)
    ensures
        r@ == search_key_of(raw@),
{
    let t = trim(raw);
    to_lowercase(t.as_str())
}

} // verus!
