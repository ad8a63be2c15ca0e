//! Source paths.
//!
//! Debug information names a source file by a directory and a file name. The
//! directory is relative to the unit's compilation directory, or absolute.
//! Paths are kept as the bytes the debug information holds; what is
//! relative, what lies below what, and how a name is put into a directory
//! is asked of `std::path`.

use std::path::{Path, PathBuf};
use vstd::prelude::*;
use crate::bytes::copy_range;

verus! {

/// Whether `std::path::Path::is_relative` holds of the path that the bytes
/// spell.
pub uninterp spec fn relative_of(path: Seq<u8>) -> bool;

/// What `std::path::Path::strip_prefix` leaves of `path` when `base` is
/// taken off its front; `None` where `path` does not start with `base`.
pub uninterp spec fn stripped_of(path: Seq<u8>, base: Seq<u8>) -> Option<Seq<u8>>;

/// What `std::path::PathBuf::push` makes of `dir` when `name` is pushed
/// onto it.
pub uninterp spec fn joined_of(dir: Seq<u8>, name: Seq<u8>) -> Seq<u8>;

/// Asks `std::path::Path::is_relative`. Bytes that are no UTF-8 are read as
/// the replacement character.
#[verifier::external_body]
fn is_relative(path: &[u8]) -> (relative: bool)
    ensures
        relative == relative_of(path@),
{
    Path::new(&*String::from_utf8_lossy(path)).is_relative()
}

/// Takes `base` off the front of `path` with
/// `std::path::Path::strip_prefix`. Bytes that are no UTF-8 are read as the
/// replacement character.
#[verifier::external_body]
fn strip_prefix(path: &[u8], base: &[u8]) -> (rest: Option<Vec<u8>>)
    ensures
        rest is Some <==> stripped_of(path@, base@) is Some,
        rest matches Some(r) ==> stripped_of(path@, base@) == Some(r@),
{
    let (path, base) = (String::from_utf8_lossy(path), String::from_utf8_lossy(base));
    let rest = Path::new(&*path).strip_prefix(Path::new(&*base)).ok()?;
    Some(rest.to_string_lossy().into_owned().into_bytes())
}

/// Puts `name` into `dir` with `std::path::PathBuf::push`. Bytes that are
/// no UTF-8 are read as the replacement character.
#[verifier::external_body]
fn join_path(dir: &[u8], name: &[u8]) -> (path: Vec<u8>)
    ensures
        path@ == joined_of(dir@, name@),
{
    let mut path = PathBuf::from(&*String::from_utf8_lossy(dir));
    path.push(&*String::from_utf8_lossy(name));
    path.to_string_lossy().into_owned().into_bytes()
}

/// Where a file of a line program is filed: its path relative to the
/// directory under which it is grouped, and that directory.
pub struct Placement {
    pub relative: Vec<u8>,
    pub hash_dir: Vec<u8>,
}

/// The placement of the file `name` in `directory`, for a unit compiled in
/// `comp_dir`.
///
/// A relative directory is taken below the compilation directory. An
/// absolute one that lies at or below the compilation directory is made
/// relative to it. Any other directory is a group of its own.
pub open spec fn placement(directory: Seq<u8>, name: Seq<u8>, comp_dir: Seq<u8>) -> (Seq<u8>, Seq<u8>) {
    if relative_of(directory) {
        (joined_of(directory, name), comp_dir)
    } else {
        match stripped_of(directory, comp_dir) {
            Some(rest) => (joined_of(rest, name), comp_dir),
            None => (name, directory),
        }
    }
}

/// A copy of `bytes`.
pub fn to_vec(bytes: &[u8]) -> (copy: Vec<u8>)
    ensures
        copy@ == bytes@,
{
    let copy = copy_range(bytes, 0, bytes.len());
    assert(bytes@.subrange(0, bytes@.len() as int) =~= bytes@);
    copy
}

/// Decides the placement of a file from what was found of its directory.
///
/// `below` is what is left of the directory below the compilation
/// directory, for a directory that is not relative; `joined` is the file's
/// name put into the directory, or into what is left of it. A directory that
/// is neither relative nor below the compilation directory keeps the name as
/// it is and is the group itself.
pub fn decide_placement(
    relative: bool,
    below: bool,
    joined: Vec<u8>,
    directory: &[u8],
    name: &[u8],
    comp_dir: &[u8],
) -> (at: Placement)
    ensures
        at.relative@ == (if relative || below {
            joined@
        } else {
            name@
        }),
        at.hash_dir@ == (if relative || below {
            comp_dir@
        } else {
            directory@
        }),
{
    if relative || below {
        Placement { relative: joined, hash_dir: to_vec(comp_dir) }
    } else {
        Placement { relative: to_vec(name), hash_dir: to_vec(directory) }
    }
}

/// Works out where the file `name` in `directory` is filed, for a unit
/// compiled in `comp_dir`.
pub fn place(directory: &[u8], name: &[u8], comp_dir: &[u8]) -> (at: Placement)
    ensures
        (at.relative@, at.hash_dir@) == placement(directory@, name@, comp_dir@),
{
    if is_relative(directory) {
        decide_placement(true, false, join_path(directory, name), directory, name, comp_dir)
    } else {
        match strip_prefix(directory, comp_dir) {
            Some(rest) => decide_placement(
                false,
                true,
                join_path(rest.as_slice(), name),
                directory,
                name,
                comp_dir,
            ),
            None => decide_placement(false, false, Vec::new(), directory, name, comp_dir),
        }
    }
}

} // verus!
