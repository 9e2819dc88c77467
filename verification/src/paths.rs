//! Where the snapshot of the counters is kept when nobody says otherwise.

use std::path::PathBuf;
use vstd::prelude::*;

verus! {

/// `std::path::PathBuf`, carried through as it is: nothing here looks inside
/// a path.
#[verifier::external_type_specification]
#[verifier::external_body]
pub struct ExPathBuf(PathBuf);

/// The name of the snapshot file inside the home directory.
pub const DEFAULT_STATS_FILE: &'static str = ".fishnet-stats";

/// `home::home_dir`: the home directory of the current user, as the
/// environment or the operating system tells it, or `None` where neither
/// does. The answer is the machine's to give, so nothing is claimed of it.
#[verifier::external_body]
fn home_dir() -> Option<PathBuf> {
    home::home_dir()
}

/// The path that `Path::join` makes of a directory and a name. The join reads
/// nothing but its two arguments, so the same two always give the same path.
pub uninterp spec fn joined(dir: PathBuf, name: Seq<char>) -> PathBuf;

/// `Path::join`: the path that names `name` inside `dir`. The claim is that
/// the result is the join of exactly these two, which [`joined`] names; what
/// that path looks like is left to the standard library.
#[verifier::external_body]
fn join(dir: &PathBuf, name: &str) -> (path: PathBuf)
    ensures
        path == joined(*dir, name@),
{
    dir.join(name)
}

/// The default snapshot file of a user whose home directory is `home`: the
/// join of that directory and [`DEFAULT_STATS_FILE`], and none without a
/// home directory.
pub open spec fn default_file_in(home: Option<PathBuf>) -> Option<PathBuf> {
    match home {
        Some(dir) => Some(joined(dir, DEFAULT_STATS_FILE@)),
        None => None,
    }
}

/// The default snapshot file of a user whose home directory is `home`: it
/// lies in that directory under the name [`DEFAULT_STATS_FILE`]. Without a
/// home directory there is none.
pub fn stats_file_in(home: Option<PathBuf>) -> (file: Option<PathBuf>)
    ensures
        file == default_file_in(home),
{
    match home {
        Some(dir) => Some(join(&dir, DEFAULT_STATS_FILE)),
        None => None,
    }
}

/// The default snapshot file of the current user, if the home directory can
/// be told: whatever the home directory turns out to be, the file is the
/// default one in it.
pub(crate) fn default_stats_file() -> (file: Option<PathBuf>)
    ensures
        exists|home: Option<PathBuf>| file == default_file_in(home),
{
    let home = home_dir();
    let file = stats_file_in(home);
    assert(file == default_file_in(home));
    file
}

} // verus!
