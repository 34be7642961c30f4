use vstd::prelude::*;

use crate::errors::VersionError;
use crate::strutil::str_eq;
use crate::version::gate_spec;
use crate::version::check_version_chars;
use crate::version::version_chars_ok;
use crate::version::version_gate;

verus! {

/// One version known to the catalog: its id and its per-version metadata URL.
pub struct VersionEntry {
    pub id: String,
    pub url: String,
}

/// The remote catalog: the latest release id and all known versions,
/// in catalog order.
pub struct VersionManifest {
    pub latest_release: String,
    pub versions: Vec<VersionEntry>,
}

/// The id a request resolves to: the request itself, or the catalog's
/// latest release when the request is empty.
pub open spec fn resolved_id(requested: Seq<char>, latest: Seq<char>) -> Seq<char> {
    if requested.len() == 0 {
        latest
    } else {
        requested
    }
}

/// Index of the first catalog entry whose id is `id`.
pub fn find_entry(versions: &Vec<VersionEntry>, id: &str) -> (r: Option<usize>)
    ensures
        r matches Some(k) ==> k < versions@.len() && versions@[k as int].id@ == id@ && (forall|
            j: int,
        |
            0 <= j < k ==> versions@[j].id@ != id@),
        r is None ==> forall|j: int| 0 <= j < versions@.len() ==> versions@[j].id@ != id@,
{
    let mut k: usize = 0;
    while k < versions.len()
        invariant
            k <= versions@.len(),
            forall|j: int| 0 <= j < k ==> versions@[j].id@ != id@,
        decreases versions@.len() - k,
    {
        if str_eq(versions[k].id.as_str(), id) {
            return Some(k);
        }
        k = k + 1;
    }
    None
}

/// What one resolution round decided, short of a fatal error.
pub enum ResolveOutcome {
    /// The id was found: the index of the first matching catalog entry.
    Resolved(usize),
    /// The id holds a character outside digits and dots: ask again.
    InvalidChars,
    /// The id is not in the catalog: ask again.
    NotFound,
}

/// Resolves a requested version against the catalog: an empty request
/// means the latest release; the id is then gated against the minimum
/// supported version, checked for its characters, and looked up.
///
/// Only the version gate is fatal; a malformed or unknown id asks the
/// operator for another round.
pub fn resolve_version(requested: &str, manifest: &VersionManifest) -> (r: Result<
    ResolveOutcome,
    VersionError,
>)
    ensures
        ({
            let rid = resolved_id(requested@, manifest.latest_release@);
            &&& (r matches Err(e) ==> gate_spec(rid) == Err::<(), VersionError>(e))
            &&& (r is Ok ==> gate_spec(rid) is Ok)
            &&& (r == Ok::<ResolveOutcome, VersionError>(ResolveOutcome::InvalidChars) ==> !version_chars_ok(rid))
            &&& (r == Ok::<ResolveOutcome, VersionError>(ResolveOutcome::NotFound) ==> version_chars_ok(rid) && (forall|j: int|
                0 <= j < manifest.versions@.len() ==> manifest.versions@[j].id@ != rid))
            &&& (r matches Ok(ResolveOutcome::Resolved(k)) ==> version_chars_ok(rid)
                && k < manifest.versions@.len() && manifest.versions@[k as int].id@ == rid && (
            forall|j: int| 0 <= j < k ==> manifest.versions@[j].id@ != rid))
        }),
        r matches Ok(ResolveOutcome::Resolved(k)) ==> (requested@.len() == 0
            ==> manifest.versions@[k as int].id@ == manifest.latest_release@),
{
    let id: &str = if requested.unicode_len() == 0 {
        manifest.latest_release.as_str()
    } else {
        requested
    };
    match version_gate(id) {
        Err(e) => {
            return Err(e);
        },
        Ok(()) => {},
    }
    if !check_version_chars(id) {
        return Ok(ResolveOutcome::InvalidChars);
    }
    match find_entry(&manifest.versions, id) {
        Some(k) => Ok(ResolveOutcome::Resolved(k)),
        None => Ok(ResolveOutcome::NotFound),
    }
}

} // verus!
