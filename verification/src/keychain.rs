//! The secret store as the system's keychain tool offers it: what the tool
//! is asked and what its answers mean. Running the tool is left to the
//! caller. The search for executables lives here too.
use crate::text::{trim, trimmed};
use vstd::prelude::*;

verus! {

/// Check command existence in PATH.
///
/// Calls `which::which` and reports whether it found an executable. The
/// answer depends on the search path and on the disk, so nothing is
/// promised of it.
#[verifier::external_body]
pub fn command_exists(cmd: &str) -> bool {
    which::which(cmd).is_ok()
}

/// The arguments that ask the keychain tool whether an entry exists.
pub open spec fn find_entry_words(label: Seq<char>) -> Seq<Seq<char>> {
    seq!["find-generic-password"@, "-s"@, label, "-a"@, "root"@]
}

/// The arguments that ask the keychain tool for the secret of an entry.
pub open spec fn read_secret_words(label: Seq<char>) -> Seq<Seq<char>> {
    seq!["find-generic-password"@, "-s"@, label, "-a"@, "root"@, "-w"@]
}

/// The arguments that make the keychain tool store a secret.
pub open spec fn save_secret_words(label: Seq<char>, secret: Seq<char>) -> Seq<Seq<char>> {
    seq!["add-generic-password"@, "-s"@, label, "-a"@, "root"@, "-w"@, secret]
}

/// The arguments that ask the keychain tool whether an entry exists.
pub fn find_entry_args(label: &str) -> (args: Vec<String>)
    ensures
        args.deep_view() == find_entry_words(label@),
{
    let args = vec![
        "find-generic-password".to_owned(),
        "-s".to_owned(),
        label.to_owned(),
        "-a".to_owned(),
        "root".to_owned(),
    ];
    args
}

/// The arguments that ask the keychain tool for the secret of an entry.
pub fn read_secret_args(label: &str) -> (args: Vec<String>)
    ensures
        args.deep_view() == read_secret_words(label@),
{
    let args = vec![
        "find-generic-password".to_owned(),
        "-s".to_owned(),
        label.to_owned(),
        "-a".to_owned(),
        "root".to_owned(),
        "-w".to_owned(),
    ];
    args
}

/// The arguments that make the keychain tool store a secret.
pub fn save_secret_args(label: &str, secret: &str) -> (args: Vec<String>)
    ensures
        args.deep_view() == save_secret_words(label@, secret@),
{
    let args = vec![
        "add-generic-password".to_owned(),
        "-s".to_owned(),
        label.to_owned(),
        "-a".to_owned(),
        "root".to_owned(),
        "-w".to_owned(),
        secret.to_owned(),
    ];
    args
}

/// Check if a keychain entry exists, given how the tool ended: `None` when
/// it could not be run, else whether it ended with status zero.
pub fn entry_exists(ended: Option<bool>) -> (exists: bool)
    ensures
        exists == (ended == Some(true)),
{
    match ended {
        Some(success) => success,
        None => false,
    }
}

/// Get password from keychain, given how the tool ended and what it
/// printed: the output without surrounding white space, or the error that
/// there is no entry.
pub fn get_password(success: bool, stdout: &str) -> (r: Result<String, String>)
    ensures
        r is Ok == success,
        r matches Ok(secret) ==> secret@ == trimmed(stdout@),
        r matches Err(reason) ==> reason@ == "Keychain entry not found"@,
{
    if success {
        Ok(trim(stdout).to_owned())
    } else {
        Err("Keychain entry not found".to_owned())
    }
}

/// Save password to keychain, given how the tool ended.
pub fn save_password(success: bool) -> (r: Result<(), String>)
    ensures
        r is Ok == success,
        r matches Err(reason) ==> reason@ == "Failed to save password to keychain"@,
{
    if success {
        Ok(())
    } else {
        Err("Failed to save password to keychain".to_owned())
    }
}

} // verus!
