//! Bundled assets: the icon set, and how a bundled file is served once it has
//! been looked up in the application bundle or the toolkit's own assets.
use vstd::prelude::*;

pub mod icons;

pub use icons::PhaIcon;

use crate::plain::PlainData;
use crate::text::{ends_with, push_str, starts_with, string_of};

verus! {

/// The most bytes a compressed asset may unpack to, so that a corrupt asset
/// cannot exhaust memory.
pub const DECOMPRESSED_LIMIT: usize = 64 * 1024 * 1024;

/// The bundled typefaces, registered at start-up.
pub const FONT_PATHS: [&'static str; 2] = ["fonts/SarasaAdwaitaUiSC-Regular.ttf.zst", "fonts/AdwaitaMono-Regular.ttf.zst"];

#[verifier::external_type_specification]
#[verifier::external_body]
pub struct ExIoError(std::io::Error);

/// What a zstd stream decodes to: its frames' content when the stream is
/// well formed, nothing when it is not (as `zstd::bulk::decompress` reads it).
pub uninterp spec fn zstd_frames(data: Seq<u8>) -> Option<Seq<u8>>;

/// Calls `zstd::bulk::decompress`. A well-formed stream whose content fits in
/// `capacity` bytes is unpacked; what a success returns is the stream's
/// content, so the stream was well formed. Which error a failure carries is
/// left free, and so is whether a stream whose content is slightly larger
/// than `capacity` fails: the call decodes into a buffer allocated with at
/// least `capacity` bytes, and the allocator may give more.
#[verifier::external_body]
fn zstd_decompress(data: &[u8], capacity: usize) -> (r: Result<Vec<u8>, std::io::Error>)
    ensures
        zstd_frames(data@) matches Some(c) && c.len() <= capacity ==> r is Ok,
        r matches Ok(v) ==> zstd_frames(data@) == Some(v@),
{
    zstd::bulk::decompress(data, capacity)
}

/// The message of an I/O error, as its `Display` impl (`to_string`) writes
/// it. Nothing is stated of the text.
#[verifier::external_body]
fn io_error_message(error: &std::io::Error) -> (r: String) {
    error.to_string()
}

/// Why an asset could not be served.
#[derive(Debug, PartialEq, Eq)]
pub enum AssetError {
    /// Neither the bundle nor the toolkit has the path.
    NotFound(String),
    /// The compressed asset did not unpack; the decompressor's own message.
    Corrupt(String),
}

impl AssetError {
    /// The error's message.
    pub fn message(&self) -> (r: String)
        ensures
            r@ == match self {
                AssetError::NotFound(path) => "could not find asset at path \""@ + path@ + "\""@,
                AssetError::Corrupt(reason) => reason@,
            },
    {
        match self {
            AssetError::NotFound(path) => {
                let mut out: Vec<char> = Vec::new();
                push_str(&mut out, "could not find asset at path \"");
                push_str(&mut out, path.as_str());
                push_str(&mut out, "\"");
                string_of(&out)
            },
            AssetError::Corrupt(reason) => reason.clone(),
        }
    }
}

/// Whether a path names a compressed asset.
pub open spec fn compressed_path(path: Seq<char>) -> bool {
    path.len() >= 4 && path.skip(path.len() - 4) == ".zst"@
}

/// The application's assets, with the toolkit's assets as a fallback.
pub struct Assets;

impl Assets {
    /// Serves a path given what the lookup found for it: nothing for the empty
    /// path; the found bytes as they are, or unpacked within
    /// `DECOMPRESSED_LIMIT` when the path ends in `.zst` (a well-formed stream
    /// whose content fits is always unpacked; the decompressor's message when
    /// it fails); an error when the lookup found nothing.
    pub fn load(&self, path: &str, found: Option<Vec<u8>>) -> (r: Result<Option<Vec<u8>>, AssetError>)
        ensures
            path@.len() == 0 ==> r == Ok::<Option<Vec<u8>>, AssetError>(None),
            path@.len() > 0 && found is None ==> (r matches Err(AssetError::NotFound(p)) && p@ == path@),
            path@.len() > 0 && !compressed_path(path@) ==> (found matches Some(d) ==> (r matches Ok(Some(v)) && v@ == d@)),
            path@.len() > 0 && compressed_path(path@) ==> (found matches Some(d) ==> match r {
                Ok(Some(v)) => zstd_frames(d@) == Some(v@),
                Ok(None) => false,
                Err(e) => e is Corrupt,
            }),
            path@.len() > 0 && compressed_path(path@) ==> (found matches Some(d) ==> (zstd_frames(d@) matches Some(c)
                && c.len() <= DECOMPRESSED_LIMIT ==> r is Ok)),
    {
        if path.is_empty() {
            return Ok(None);
        }
        proof {
            reveal_strlit(".zst");
        }
        let data = match found {
            Some(data) => data,
            None => return Err(AssetError::NotFound(path.to_owned())),
        };
        if !ends_with(path, ".zst") {
            return Ok(Some(data));
        }
        match zstd_decompress(data.as_slice(), DECOMPRESSED_LIMIT) {
            Ok(bytes) => Ok(Some(bytes)),
            Err(error) => Err(AssetError::Corrupt(io_error_message(&error))),
        }
    }

    /// The assets under a path: the toolkit's, then the bundle's own whose
    /// names start with the path.
    pub fn list(&self, path: &str, toolkit: Vec<String>, bundled: &[String]) -> (r: Vec<String>)
        ensures
            r.deep_view() == toolkit.deep_view() + bundled.deep_view().filter(|name: Seq<char>| name.take(path@.len() as int) == path@ && path@.len() <= name.len()),
    {
        let mut out = toolkit;
        let ghost p = |name: Seq<char>| name.take(path@.len() as int) == path@ && path@.len() <= name.len();
        let ghost head = out.deep_view();
        let mut i: usize = 0;
        while i < bundled.len()
            invariant
                i <= bundled.len(),
                p == (|name: Seq<char>| name.take(path@.len() as int) == path@ && path@.len() <= name.len()),
                out.deep_view() == head + bundled.deep_view().take(i as int).filter(p),
            decreases bundled.len() - i,
        {
            let ghost before = out.deep_view();
            let ghost x = bundled.deep_view()[i as int];
            proof {
                assert(bundled.deep_view().take(i + 1).drop_last() =~= bundled.deep_view().take(i as int));
                assert(bundled.deep_view().take(i + 1).last() == x);
                reveal(Seq::filter);
                assert(x == bundled@[i as int]@);
            }
            if starts_with(bundled[i].as_str(), path) {
                let name = bundled[i].copied();
                out.push(name);
                proof {
                    assert(out.deep_view() =~= before.push(x));
                    assert(bundled.deep_view().take(i + 1).filter(p) == bundled.deep_view().take(i as int).filter(p).push(x));
                }
            } else {
                proof {
                    assert(bundled.deep_view().take(i + 1).filter(p) == bundled.deep_view().take(i as int).filter(p));
                }
            }
            proof {
                assert(out.deep_view() =~= head + bundled.deep_view().take(i + 1).filter(p));
            }
            i += 1;
        }
        assert(bundled.deep_view().take(bundled.len() as int) =~= bundled.deep_view());
        out
    }
}

/// The bundled typefaces from what the lookups returned, in `FONT_PATHS`
/// order; the first missing one is reported.
pub fn collect_fonts(loaded: Vec<Option<Vec<u8>>>) -> (r: Result<Vec<Vec<u8>>, String>)
    requires
        loaded.len() == FONT_PATHS.len(),
    ensures
        (forall|i: int| 0 <= i < loaded.len() ==> #[trigger] loaded@[i] is Some) ==> (r matches Ok(fonts) && fonts.len() == loaded.len()
            && forall|i: int| 0 <= i < fonts.len() ==> loaded@[i] == Some(#[trigger] fonts@[i])),
        r matches Err(m) ==> exists|i: int| 0 <= i < loaded.len() && #[trigger] loaded@[i] is None
            && (forall|j: int| 0 <= j < i ==> #[trigger] loaded@[j] is Some)
            && m@ == "bundled font is missing: "@ + FONT_PATHS@[i]@,
        r is Ok ==> forall|i: int| 0 <= i < loaded.len() ==> #[trigger] loaded@[i] is Some,
{
    let mut fonts: Vec<Vec<u8>> = Vec::new();
    let ghost given = loaded@;
    let mut rest = loaded;
    let paths = FONT_PATHS;
    let mut i: usize = 0;
    while i < 2
        invariant
            i <= 2,
            paths@ == FONT_PATHS@,
            given.len() == 2,
            rest@ == given.skip(i as int),
            given == loaded@,
            fonts.len() == i,
            forall|j: int| 0 <= j < i ==> #[trigger] given[j] == Some(fonts@[j]),
        decreases 2 - i,
    {
        let slot = rest.remove(0);
        assert(slot == given[i as int]);
        assert(given.skip(i as int).drop_first() =~= given.skip(i + 1));
        match slot {
            Some(font) => fonts.push(font),
            None => {
                assert(given[i as int] is None);
                assert(forall|j: int| 0 <= j < i ==> #[trigger] given[j] is Some);
                assert(paths[i as int]@ == FONT_PATHS@[i as int]@);
                let mut out: Vec<char> = Vec::new();
                push_str(&mut out, "bundled font is missing: ");
                push_str(&mut out, paths[i]);
                let m = string_of(&out);
                assert(m@ == "bundled font is missing: "@ + FONT_PATHS@[i as int]@);
                assert(given[i as int] is None && (forall|j: int| 0 <= j < i ==> #[trigger] given[j] is Some)
                    && m@ == "bundled font is missing: "@ + FONT_PATHS@[i as int]@);
                return Err(m);
            },
        }
        i += 1;
    }
    assert forall|j: int| #![trigger given[j]] #![trigger fonts@[j]] 0 <= j < 2 implies given[j] == Some(fonts@[j]) by {}
    Ok(fonts)
}

} // verus!
