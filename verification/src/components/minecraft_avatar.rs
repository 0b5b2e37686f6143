//! The Minecraft head shown for a player profile.
use vstd::prelude::*;

use crate::state::accounts::PlayerProfileSummaryView;
use crate::state::PlayerProfileSummary;
use crate::text::{chars_of, contains, contains_seq, push_str, starts_with, string_of, ascii_lower, to_ascii_lower};

verus! {

/// The skin-server prefix of the profile skin URLs.
pub open spec fn skin_prefix() -> Seq<char> {
    "https://mc-heads.net/skin/"@
}

/// The name a head is fetched by: what follows the skin-server prefix of the
/// skin URL, or the profile name when the URL has another form or nothing
/// follows the prefix.
pub open spec fn skin_name_of(p: PlayerProfileSummaryView) -> Seq<char> {
    if p.skin_url.len() > skin_prefix().len() && p.skin_url.take(skin_prefix().len() as int) == skin_prefix() {
        p.skin_url.skip(skin_prefix().len() as int)
    } else {
        p.name
    }
}

/// The name a head is fetched by.
pub fn skin_name(profile: &PlayerProfileSummary) -> (r: String)
    ensures
        r@ == skin_name_of(profile@),
{
    let url = chars_of(profile.skin_url.as_str());
    let prefix = chars_of("https://mc-heads.net/skin/");
    if url.len() > prefix.len() && starts_with(profile.skin_url.as_str(), "https://mc-heads.net/skin/") {
        let mut out: Vec<char> = Vec::new();
        crate::text::push_range(&mut out, &url, prefix.len(), url.len());
        assert(out@ =~= profile@.skin_url.skip(skin_prefix().len() as int));
        string_of(&out)
    } else {
        profile.name.clone()
    }
}

/// The name shown for an optional profile: its skin name, or `Steve`.
pub open spec fn head_name_of(p: Option<PlayerProfileSummaryView>) -> Seq<char> {
    match p {
        Some(p) => skin_name_of(p),
        None => "Steve"@,
    }
}

/// Whether the slim (Alex) fallback is drawn: for slim profiles, and for
/// names that contain `alex` in any ASCII case.
pub open spec fn slim_of(p: Option<PlayerProfileSummaryView>) -> bool {
    (p matches Some(q) && q.is_slim)
        || contains_seq(head_name_of(p).map_values(|c: char| ascii_lower(c)), "alex"@)
}

/// The name, head image URL and slim flag of the avatar for a profile.
pub fn avatar(profile: Option<&PlayerProfileSummary>) -> (r: (String, String, bool))
    ensures
        r.0@ == head_name_of(match profile {
            Some(p) => Some(p@),
            None => None,
        }),
        r.1@ == "https://mc-heads.net/avatar/"@ + r.0@ + "/64"@,
        r.2 == slim_of(match profile {
            Some(p) => Some(p@),
            None => None,
        }),
{
    let name = match profile {
        Some(p) => skin_name(p),
        None => "Steve".to_owned(),
    };
    let chars = chars_of(name.as_str());
    let mut lower: Vec<char> = Vec::new();
    let mut i: usize = 0;
    while i < chars.len()
        invariant
            i <= chars.len(),
            chars@ == name@,
            lower@ == name@.take(i as int).map_values(|c: char| ascii_lower(c)),
        decreases chars.len() - i,
    {
        lower.push(to_ascii_lower(chars[i]));
        assert(lower@ =~= name@.take(i + 1).map_values(|c: char| ascii_lower(c)));
        i += 1;
    }
    assert(name@.take(chars.len() as int) =~= name@);
    let lowered = string_of(&lower);
    let slim = match profile {
        Some(p) => p.is_slim,
        None => false,
    } || contains(lowered.as_str(), "alex");
    let mut url: Vec<char> = Vec::new();
    push_str(&mut url, "https://mc-heads.net/avatar/");
    push_str(&mut url, name.as_str());
    push_str(&mut url, "/64");
    (name, string_of(&url), slim)
}

} // verus!
