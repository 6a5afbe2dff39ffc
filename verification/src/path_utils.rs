//! Paths as text: the file name of a path, and paths that begin at the home
//! directory.

use crate::text::{trim, trimmed};
use vstd::prelude::*;
use vstd::string::{StrSliceExecFns, StringExecFns};

verus! {

/// The name of the final component of `path`, as `std::path::Path::file_name`
/// gives it on this platform; `None` where the path has none that is text.
pub uninterp spec fn file_name_of(path: Seq<char>) -> Option<Seq<char>>;

/// Calls `std::path::Path::file_name` on `path`.
///
/// Trusted: the result is the file name that the platform's path rules find
/// in `path`, kept only if it is text. Nothing is claimed of what that name
/// is.
#[verifier::external_body]
pub(crate) fn path_file_name(path: &str) -> (name: Option<&str>)
    ensures
        file_name_of(path@) == match name {
            Some(n) => Some(n@),
            None => None,
        },
{
    match std::path::Path::new(path).file_name() {
        Some(name) => name.to_str(),
        None => None,
    }
}

/// The path `rest` taken from the directory `base`, as `std::path::Path::join`
/// gives it on this platform.
pub uninterp spec fn joined_path(base: Seq<char>, rest: Seq<char>) -> Seq<char>;

/// Calls `std::path::Path::join` on `base`, with `rest`.
///
/// Trusted: the result is the path that the platform's path rules make of
/// the two. Nothing is claimed of what that path is.
#[verifier::external_body]
pub(crate) fn path_join(base: &str, rest: &str) -> (joined: String)
    ensures
        joined@ == joined_path(base@, rest@),
{
    std::path::Path::new(base).join(rest).to_string_lossy().into_owned()
}

/// The directory that stands for the home directory where none is known.
pub const ROOT_DIR: &'static str = "/";

/// The home directory to use: `home`, or the root where there is none.
pub open spec fn home_or_root(home: Option<Seq<char>>) -> Seq<char> {
    match home {
        Some(dir) => dir,
        None => ROOT_DIR@,
    }
}

/// True when `path` begins with a tilde and a separator.
pub open spec fn begins_at_home(path: Seq<char>) -> bool {
    path.len() >= 2 && path[0] == '~' && (path[1] == '/' || path[1] == '\\')
}

/// What `inner`, a path without white space around it, stands for: the
/// home directory for a lone tilde, the path below the home directory for one
/// that begins with a tilde and a separator, and itself otherwise.
pub open spec fn expanded(inner: Seq<char>, home: Option<Seq<char>>) -> Seq<char> {
    if inner.len() == 0 {
        inner
    } else if inner == seq!['~'] {
        home_or_root(home)
    } else if begins_at_home(inner) {
        joined_path(home_or_root(home), inner.skip(2))
    } else {
        inner
    }
}

/// Expands the tilde at the beginning of `inner`, a path without white
/// space around it.
pub fn expand_trimmed(inner: &str, home: Option<&str>) -> (path: String)
    ensures
        path@ == expanded(
            inner@,
            match home {
                Some(dir) => Some(dir@),
                None => None,
            },
        ),
{
    let len = inner.unicode_len();
    if len == 0 {
        return String::from_str(inner);
    }
    let home_dir = match home {
        Some(dir) => dir,
        None => ROOT_DIR,
    };
    if inner.get_char(0) != '~' {
        return String::from_str(inner);
    }
    if len == 1 {
        assert(inner@ =~= seq!['~']);
        return String::from_str(home_dir);
    }
    let second = inner.get_char(1);
    if second == '/' || second == '\\' {
        let rest = inner.substring_char(2, len);
        assert(rest@ =~= inner@.skip(2));
        path_join(home_dir, rest)
    } else {
        String::from_str(inner)
    }
}

/// Expands the tilde at the beginning of the path `value`, whose home
/// directory is `home`. White space around the path is dropped.
pub fn expand_tilde_path(value: &str, home: Option<&str>) -> (path: String)
    ensures
        path@ == expanded(
            trimmed(value@),
            match home {
                Some(dir) => Some(dir@),
                None => None,
            },
        ),
{
    expand_trimmed(trim(value), home)
}

} // verus!
