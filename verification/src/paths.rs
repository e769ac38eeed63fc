//! File system paths, which are carried through and never looked into.
//! What joining makes of a directory and a name is known by name only.

use std::path::Path;
use std::path::PathBuf;
use vstd::prelude::*;

verus! {

#[verifier::external_type_specification]
#[verifier::external_body]
pub struct ExPathBuf(PathBuf);

#[verifier::external_type_specification]
#[verifier::external_body]
pub struct ExPath(Path);

/// The path that `Path::join` makes of `dir` and `name`.
pub uninterp spec fn joined_path(dir: &Path, name: Seq<char>) -> PathBuf;

/// `Path::join`: `dir` with `name` adjoined. The result depends on the two
/// arguments alone; a path is opaque here, so it is claimed by name only.
#[verifier::external_body]
pub(crate) fn path_join(dir: &Path, name: &str) -> (joined: PathBuf)
    ensures
        joined == joined_path(dir, name@),
{
    dir.join(name)
}

} // verus!
