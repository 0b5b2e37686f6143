//! The form that registers a local Java executable.
use vstd::prelude::*;

use crate::state::settings::{added_runtime, SettingsStoreView};
use crate::state::SettingsStore;
use crate::text::{is_whitespace, parse_u32, parsed_u32, trim, trimmed};

verus! {

/// Whether the form can be submitted: a name and a path that are not blank,
/// and a Java version from 8 to 99.
pub open spec fn runtime_form_ok(name: Seq<char>, version: Seq<char>, path: Seq<char>) -> bool {
    &&& trimmed(name).len() > 0
    &&& trimmed(path).len() > 0
    &&& match parsed_u32(version) {
        Some(v) => 8 <= v <= 99,
        None => false,
    }
}

/// Whether the form can be submitted.
pub fn runtime_form_valid(name: &str, version: &str, path: &str) -> (r: bool)
    ensures
        r == runtime_form_ok(name@, version@, path@),
{
    let n = trim(name);
    let p = trim(path);
    let v = match parse_u32(version) {
        Some(v) => 8 <= v && v <= 99,
        None => false,
    };
    !n.as_str().is_empty() && !p.as_str().is_empty() && v
}

/// The Java version the form submits: the typed number, or 21.
pub fn runtime_version(version: &str) -> (r: u32)
    ensures
        r == match parsed_u32(version@) {
            Some(v) => v,
            None => 21,
        },
{
    match parse_u32(version) {
        Some(v) => v,
        None => 21,
    }
}

/// Adds the runtime the form describes, by its trimmed name and path, when
/// the form can be submitted; the dialog then closes. Returns whether it was
/// added.
pub fn submit(settings: &mut SettingsStore, name: &str, version: &str, path: &str) -> (r: bool)
    requires
        old(settings)@.revision < u64::MAX,
        old(settings)@.next_id < u64::MAX,
    ensures
        r == runtime_form_ok(name@, version@, path@),
        r ==> final(settings)@ == (SettingsStoreView {
            runtimes: old(settings)@.runtimes.push(added_runtime(
                (old(settings)@.next_id + 1) as u64,
                trimmed(name@),
                parsed_u32(version@)->0,
                trimmed(path@),
            )),
            next_id: (old(settings)@.next_id + 1) as u64,
            revision: (old(settings)@.revision + 1) as u64,
            ..old(settings)@
        }),
        !r ==> final(settings)@ == old(settings)@,
{
    if !runtime_form_valid(name, version, path) {
        return false;
    }
    let trimmed_name = trim(name);
    let trimmed_path = trim(path);
    let number = runtime_version(version);
    proof {
        crate::text::lemma_trimmed_starts_with_text(name@);
        assert(!is_whitespace(trimmed_name@[0]));
    }
    settings.add_runtime(trimmed_name.as_str(), number, trimmed_path.as_str())
}

} // verus!
