//! Paths as plain text, for platforms whose paths are rooted at `/` and have
//! `/` between their components.
//!
//! A path is absolute when it begins at the root. Joining a relative path to a
//! directory puts exactly one separator between the two, unless the directory
//! is empty or already ends in one; joining an absolute path replaces the
//! directory.
//!
//! These rules are the whole of this module and hold of `/`-rooted paths
//! only. They know no drive prefix and no other separator: on a platform
//! that has either, a caller resolves the path by the platform's own rules
//! and hands it on without a working directory, which leaves it unchanged.

use vstd::prelude::*;

verus! {

/// What stands between the components of a path.
pub const SEPARATOR: char = '/';

/// Whether `path` begins at the root `/`.
pub open spec fn absolute(path: Seq<char>) -> bool {
    path.len() > 0 && path[0] == SEPARATOR
}

/// `path` adjoined to `dir`, by the rules of `/`-rooted paths.
pub open spec fn joined(dir: Seq<char>, path: Seq<char>) -> Seq<char> {
    if absolute(path) {
        path
    } else if dir.len() == 0 || dir.last() == SEPARATOR {
        dir + path
    } else {
        dir + seq![SEPARATOR] + path
    }
}

/// `path` made independent of the working directory, where one is known,
/// by the rules of `/`-rooted paths. Without a working directory the path is
/// left as it is.
pub open spec fn resolved(path: Seq<char>, working_dir: Option<Seq<char>>) -> Seq<char> {
    match working_dir {
        Some(dir) => if absolute(path) { path } else { joined(dir, path) },
        None => path,
    }
}

/// Tells whether `path` begins at the root `/`.
pub fn is_absolute(path: &str) -> (r: bool)
    ensures
        r == absolute(path@),
{
    !path.is_empty() && path.get_char(0) == SEPARATOR
}

/// Adjoins `path` to `dir`, by the rules of `/`-rooted paths.
pub fn join(dir: &str, path: &str) -> (out: String)
    ensures
        out@ == joined(dir@, path@),
{
    if is_absolute(path) {
        return String::from_str(path);
    }
    let n: usize = dir.unicode_len();
    let mut out = String::from_str(dir);
    if n > 0 && dir.get_char(n - 1) != SEPARATOR {
        proof {
            reveal_strlit("/");
            assert("/"@ =~= seq![SEPARATOR]);
        }
        out.append("/");
    }
    out.append(path);
    out
}

/// Resolves the path given at launch against the working directory.
///
/// An absolute path is returned as it is. A relative one is joined to
/// `working_dir`; where the working directory is not known, the path is
/// returned as it is. Both `path` and `working_dir` are read as `/`-rooted
/// paths: where the platform's paths are of another form, pass a path that
/// the platform has resolved, and no working directory.
pub fn resolve(path: &str, working_dir: Option<&str>) -> (out: String)
    ensures
        out@ == resolved(
            path@,
            match working_dir {
                Some(dir) => Some(dir@),
                None => None,
            },
        ),
{
    match working_dir {
        Some(dir) => {
            if is_absolute(path) {
                String::from_str(path)
            } else {
                join(dir, path)
            }
        },
        None => String::from_str(path),
    }
}

/// Resolving against a known working directory is joining to it: a relative
/// path is adjoined to the directory, and an absolute one replaces it.
pub proof fn resolve_is_join(path: Seq<char>, dir: Seq<char>)
    ensures
        resolved(path, Some(dir)) == joined(dir, path),
        !absolute(path) && dir.len() > 0 && dir.last() != SEPARATOR ==> resolved(path, Some(dir))
            == dir + seq![SEPARATOR] + path,
        !absolute(path) && (dir.len() == 0 || dir.last() == SEPARATOR) ==> resolved(
            path,
            Some(dir),
        ) == dir + path,
{
}

/// Resolving an absolute path changes nothing, whatever the working
/// directory is and whether or not it is known.
pub proof fn resolve_absolute_is_identity(path: Seq<char>, working_dir: Option<Seq<char>>)
    requires
        absolute(path),
    ensures
        resolved(path, working_dir) == path,
{
}

/// Resolved against an absolute working directory, every path is absolute.
pub proof fn resolved_is_absolute(path: Seq<char>, dir: Seq<char>)
    requires
        absolute(dir),
    ensures
        absolute(resolved(path, Some(dir))),
{
}

/// Resolving is idempotent: once a path has been resolved against an
/// absolute working directory, resolving it again against any directory, or
/// none, gives the same path.
pub proof fn resolve_is_idempotent(
    path: Seq<char>,
    dir: Seq<char>,
    other: Option<Seq<char>>,
)
    requires
        absolute(dir),
    ensures
        resolved(resolved(path, Some(dir)), other) == resolved(path, Some(dir)),
{
    resolved_is_absolute(path, dir);
    resolve_absolute_is_identity(resolved(path, Some(dir)), other);
}

/// Without a known working directory the path is left as it was given.
pub proof fn resolve_without_working_dir(path: Seq<char>)
    ensures
        resolved(path, None) == path,
{
}

} // verus!
