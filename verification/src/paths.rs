//! Paths as the user writes them: tilde expansion and existence, and the
//! search path that the run's commands are found on.
use vstd::prelude::*;

verus! {

/// `std::path::PathBuf`, carried through as it is.
#[verifier::external_type_specification]
#[verifier::external_body]
pub struct ExPathBuf(std::path::PathBuf);

/// Whether `s` starts with a tilde that stands alone or is followed by a
/// path separator. Only such a tilde is ever expanded.
pub open spec fn tilde_led(s: Seq<char>) -> bool {
    s.len() > 0 && s[0] == '~' && (s.len() == 1 || s[1] == '/' || s[1] == '\\')
}

/// Whether `expanded` can be what tilde expansion makes of `s`: `s` itself,
/// or, for a leading tilde, `s` with some home directory in the tilde's
/// place.
pub open spec fn expands_to(s: Seq<char>, expanded: Seq<char>) -> bool {
    expanded == s || (tilde_led(s) && s.skip(1).is_suffix_of(expanded))
}

/// Tilde expansion by `shellexpand::tilde`.
///
/// A leading `~` that stands alone or before a separator is replaced by the
/// home directory, where one is known; every other input comes back as it
/// is. Which directory that is depends on the environment.
#[verifier::external_body]
pub(crate) fn expand_tilde(path: &str) -> (expanded: String)
    ensures
        expands_to(path@, expanded@),
{
    shellexpand::tilde(path).into_owned()
}

/// `Path::exists`: whether the path points at something on disk. Nothing is
/// promised of the answer.
#[verifier::external_body]
pub(crate) fn path_exists(path: &str) -> bool {
    std::path::Path::new(path).exists()
}

/// `dirs::config_dir`: the user's configuration directory, where the
/// environment names one. Nothing is promised of the answer.
#[verifier::external_body]
pub(crate) fn config_dir() -> Option<std::path::PathBuf> {
    dirs::config_dir()
}

/// `Path::join`: `base` extended by `part`. How the two are put together
/// is the platform's business, so nothing is promised of the result.
#[verifier::external_body]
pub(crate) fn join_path(base: &std::path::PathBuf, part: &str) -> std::path::PathBuf {
    base.join(part)
}

/// `PathBuf::clone`: the same path again.
#[verifier::external_body]
pub(crate) fn clone_path(path: &std::path::PathBuf) -> (copy: std::path::PathBuf)
    ensures
        copy == *path,
{
    path.clone()
}

/// The directory of the package manager's executables that goes in front
/// of the search path: the one of the newer layout where the package
/// manager is found there, else the one of the older layout where it is
/// found there, else none.
pub fn homebrew_dir(found_in_opt: bool, found_in_usr_local: bool) -> (dir: Option<&'static str>)
    ensures
        dir.deep_view() == (if found_in_opt {
            Some("/opt/homebrew/bin"@)
        } else if found_in_usr_local {
            Some("/usr/local/bin"@)
        } else {
            None
        }),
{
    if found_in_opt {
        Some("/opt/homebrew/bin")
    } else if found_in_usr_local {
        Some("/usr/local/bin")
    } else {
        None
    }
}

/// The search path with `dir` in front of it.
pub open spec fn path_with(dir: Seq<char>, current: Option<Seq<char>>) -> Seq<char> {
    match current {
        Some(rest) => if rest.len() > 0 {
            dir + ":"@ + rest
        } else {
            dir
        },
        None => dir,
    }
}

/// The search path with `dir` in front of what it holds so far, if it
/// holds anything.
pub fn prepend_to_path(dir: &str, current: Option<&str>) -> (path: String)
    ensures
        path@ == path_with(dir@, current.deep_view()),
{
    let mut path = dir.to_owned();
    if let Some(rest) = current {
        if !rest.is_empty() {
            path.append(":");
            path.append(rest);
        }
    }
    path
}

} // verus!
