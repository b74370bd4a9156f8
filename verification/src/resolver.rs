//! Portable-mode resolution.
//!
//! The application looks for two fixed-name files directly inside its
//! resource directory: the database file itself and a marker file whose mere
//! presence switches portable mode on.  If either exists, the database
//! file's path is the portable path; otherwise there is none and the caller
//! falls back to its own default location.  The existence checks themselves
//! are file-system work and belong to the caller: the functions here take
//! their outcome as plain booleans, so the decision is verified for every
//! outcome of the checks.

use vstd::prelude::*;
use vstd::string::StringExecFns;

verus! {

/// Name of the database file looked for inside the resource directory.
pub open spec fn db_file_name() -> Seq<char> {
    "finanzas.db"@
}

/// Name of the marker file whose presence alone switches portable mode on.
pub open spec fn marker_file_name() -> Seq<char> {
    "fintrack.portable"@
}

/// The path of `name` placed directly under the directory `dir`, with a
/// single separator written between the two.
pub open spec fn joined(dir: Seq<char>, name: Seq<char>) -> Seq<char> {
    dir + "/"@ + name
}

/// What the resolver returns, as a function of the resource directory
/// (absent when the host cannot determine it) and of the outcome of the two
/// existence checks.
pub open spec fn spec_resolve(
    resource_dir: Option<Seq<char>>,
    marker_exists: bool,
    db_exists: bool,
) -> Option<Seq<char>> {
    match resource_dir {
        Some(dir) => if marker_exists || db_exists {
            Some(joined(dir, db_file_name()))
        } else {
            None
        },
        None => None,
    }
}

/// `name` placed directly under `dir`.
fn join_under(dir: &str, name: &str) -> (r: String)
    ensures
        r@ == joined(dir@, name@),
{
    let mut path = dir.to_owned();
    path.append("/");
    path.append(name);
    path
}

/// The candidate database path inside the resource directory.
pub fn db_candidate_path(resource_dir: &str) -> (r: String)
    ensures
        r@ == joined(resource_dir@, db_file_name()),
{
    join_under(resource_dir, "finanzas.db")
}

/// The candidate marker path inside the resource directory.
pub fn marker_candidate_path(resource_dir: &str) -> (r: String)
    ensures
        r@ == joined(resource_dir@, marker_file_name()),
{
    join_under(resource_dir, "fintrack.portable")
}

/// Decide the portable database path.
///
/// `resource_dir` is absent when the host could not determine the resource
/// directory; that case is not an error, only the absence of a portable
/// path.  `marker_exists` and `db_exists` report whether the marker file and
/// the database file exist at their candidate paths; the caller performs
/// those checks against the file system and owns their outcome.
pub fn resolve_portable_db_path(
    resource_dir: Option<&str>,
    marker_exists: bool,
    db_exists: bool,
) -> (r: Option<String>)
    ensures
        r.deep_view() == spec_resolve(resource_dir.deep_view(), marker_exists, db_exists),
{
    match resource_dir {
        Some(dir) => {
            if marker_exists || db_exists {
                Some(db_candidate_path(dir))
            } else {
                None
            }
        },
        None => None,
    }
}

/// When neither the marker file nor the database file exists, the resolver
/// returns absence, whatever the resource directory is.
pub proof fn lemma_resolve_neither(resource_dir: Option<Seq<char>>)
    ensures
        spec_resolve(resource_dir, false, false) is None,
{
}

/// The marker file alone suffices: the database file's path is returned even
/// though the database file itself does not exist.
pub proof fn lemma_resolve_marker_alone(dir: Seq<char>)
    ensures
        spec_resolve(Some(dir), true, false) == Some(joined(dir, db_file_name())),
{
}

/// The database file alone suffices: its path is returned without a marker.
pub proof fn lemma_resolve_db_alone(dir: Seq<char>)
    ensures
        spec_resolve(Some(dir), false, true) == Some(joined(dir, db_file_name())),
{
}

/// The two existence checks form a logical or: their order does not matter.
pub proof fn lemma_resolve_check_order(
    resource_dir: Option<Seq<char>>,
    marker_exists: bool,
    db_exists: bool,
)
    ensures
        spec_resolve(resource_dir, marker_exists, db_exists) == spec_resolve(
            resource_dir,
            db_exists,
            marker_exists,
        ),
{
}

} // verus!
