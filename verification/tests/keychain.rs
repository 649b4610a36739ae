use tide::keychain::command_exists;

#[test]
fn command_lookup_finds_what_is_installed() {
    // Whatever this machine has installed, the answer is the search's own.
    for name in ["sh", "ls", "cmd", "env"] {
        assert_eq!(command_exists(name), which::which(name).is_ok(), "for {}", name);
    }
    assert!(!command_exists("tide-test-no-such-command-4711"));
    assert!(!command_exists(""));
}

fn strings(items: &[&str]) -> Vec<String> {
    items.iter().map(|s| s.to_string()).collect()
}

#[test]
fn keychain_tool_is_asked_for_the_root_account() {
    assert_eq!(
        tide::keychain::find_entry_args("tide-sudo"),
        strings(&["find-generic-password", "-s", "tide-sudo", "-a", "root"])
    );
    assert_eq!(
        tide::keychain::read_secret_args("tide-sudo"),
        strings(&["find-generic-password", "-s", "tide-sudo", "-a", "root", "-w"])
    );
    assert_eq!(
        tide::keychain::save_secret_args("work", "pw 1"),
        strings(&["add-generic-password", "-s", "work", "-a", "root", "-w", "pw 1"])
    );
}

#[test]
fn entry_exists_only_when_the_tool_succeeds() {
    assert!(tide::keychain::entry_exists(Some(true)));
    assert!(!tide::keychain::entry_exists(Some(false)));
    assert!(!tide::keychain::entry_exists(None));
}

#[test]
fn password_is_the_trimmed_output() {
    assert_eq!(
        tide::keychain::get_password(true, "  hunter2\n"),
        Ok("hunter2".to_string())
    );
    assert_eq!(tide::keychain::get_password(true, ""), Ok(String::new()));
    assert_eq!(
        tide::keychain::get_password(false, "hunter2\n"),
        Err("Keychain entry not found".to_string())
    );
}

#[test]
fn save_fails_with_a_fixed_reason() {
    assert_eq!(tide::keychain::save_password(true), Ok(()));
    assert_eq!(
        tide::keychain::save_password(false),
        Err("Failed to save password to keychain".to_string())
    );
}
