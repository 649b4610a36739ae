use tide::negotiator::{AuthAction, AuthEvent, AuthState, Denial, Grant, Purpose};

fn run(purpose: Purpose, events: Vec<AuthEvent>) -> AuthState {
    let mut state = AuthState::start();
    for event in events {
        state = state.advance(purpose, event);
    }
    state
}

fn secret(s: &str) -> String {
    s.to_string()
}

#[test]
fn negotiation_starts_with_the_session_probe() {
    let state = AuthState::start();
    assert_eq!(state, AuthState::Unchecked);
    assert_eq!(state.action(Purpose::PreAuthorize), AuthAction::ProbeSession);
    assert_eq!(state.action(Purpose::RunElevated), AuthAction::ProbeSession);
}

#[test]
fn cached_session_grants_at_once() {
    for purpose in [Purpose::PreAuthorize, Purpose::RunElevated] {
        let state = run(purpose, vec![AuthEvent::SessionProbed { valid: true }]);
        assert_eq!(state, AuthState::CachedValid);
        assert!(state.is_granted());
        assert!(!state.is_denied());
        assert_eq!(state.action(purpose), AuthAction::Finished);
    }
}

#[test]
fn stored_secret_is_tried_second() {
    let state = run(
        Purpose::PreAuthorize,
        vec![AuthEvent::SessionProbed { valid: false }],
    );
    assert_eq!(state, AuthState::NeedsSecret);
    assert_eq!(state.action(Purpose::PreAuthorize), AuthAction::LoadSecret);
    let state = state.advance(
        Purpose::PreAuthorize,
        AuthEvent::SecretLoaded { secret: Some(secret("hunter2")) },
    );
    assert_eq!(
        state.action(Purpose::PreAuthorize),
        AuthAction::ValidateSecret { secret: secret("hunter2") }
    );
    let state = state.advance(
        Purpose::PreAuthorize,
        AuthEvent::SecretValidated { outcome: Ok(true) },
    );
    assert_eq!(state, AuthState::Authenticated { how: Grant::StoredSecret });
    assert!(state.is_granted());
}

#[test]
fn outdated_stored_secret_leads_to_the_prompt_before_the_run() {
    let state = run(
        Purpose::PreAuthorize,
        vec![
            AuthEvent::SessionProbed { valid: false },
            AuthEvent::SecretLoaded { secret: Some(secret("old")) },
            AuthEvent::SecretValidated { outcome: Ok(false) },
        ],
    );
    assert_eq!(state, AuthState::Prompting { stored_rejected: true });
    assert_eq!(
        state.action(Purpose::PreAuthorize),
        AuthAction::Prompt { announce: true, allow_empty: true }
    );
}

#[test]
fn rejected_stored_secret_fails_an_elevated_task() {
    let state = run(
        Purpose::RunElevated,
        vec![
            AuthEvent::SessionProbed { valid: false },
            AuthEvent::SecretLoaded { secret: Some(secret("old")) },
            AuthEvent::SecretValidated { outcome: Ok(false) },
        ],
    );
    assert_eq!(state, AuthState::InvalidSecret);
    assert!(state.is_denied());
    let denial = state.into_denial().unwrap();
    assert_eq!(denial, Denial::InvalidSecret);
    assert_eq!(denial.message(Purpose::RunElevated), "authentication failed");
}

#[test]
fn missing_stored_secret_leads_to_the_prompt() {
    let state = run(
        Purpose::RunElevated,
        vec![
            AuthEvent::SessionProbed { valid: false },
            AuthEvent::SecretLoaded { secret: None },
        ],
    );
    assert_eq!(state, AuthState::Prompting { stored_rejected: false });
    assert_eq!(
        state.action(Purpose::RunElevated),
        AuthAction::Prompt { announce: false, allow_empty: false }
    );
}

#[test]
fn empty_answer_abandons_pre_authorization() {
    let state = run(
        Purpose::PreAuthorize,
        vec![
            AuthEvent::SessionProbed { valid: false },
            AuthEvent::SecretLoaded { secret: None },
            AuthEvent::Prompted { answer: Ok(secret("")) },
        ],
    );
    assert_eq!(state, AuthState::AbandonedByUser { cancelled: false });
    assert_eq!(state.action(Purpose::PreAuthorize), AuthAction::Finished);
    let denial = state.into_denial().unwrap();
    assert_eq!(
        denial.message(Purpose::PreAuthorize),
        "User skipped sudo authentication"
    );
}

#[test]
fn cancelled_prompt_abandons_pre_authorization() {
    let state = run(
        Purpose::PreAuthorize,
        vec![
            AuthEvent::SessionProbed { valid: false },
            AuthEvent::SecretLoaded { secret: None },
            AuthEvent::Prompted { answer: Err(secret("interrupted")) },
        ],
    );
    assert_eq!(state, AuthState::AbandonedByUser { cancelled: true });
    let denial = state.into_denial().unwrap();
    assert_eq!(
        denial.message(Purpose::PreAuthorize),
        "User cancelled sudo authentication"
    );
}

#[test]
fn failed_prompt_fails_an_elevated_task_with_its_error() {
    let state = run(
        Purpose::RunElevated,
        vec![
            AuthEvent::SessionProbed { valid: false },
            AuthEvent::SecretLoaded { secret: None },
            AuthEvent::Prompted { answer: Err(secret("not a terminal")) },
        ],
    );
    assert_eq!(state, AuthState::Faulted { error: secret("not a terminal") });
    let denial = state.into_denial().unwrap();
    assert_eq!(denial.message(Purpose::RunElevated), "not a terminal");
}

#[test]
fn wrong_entered_secret_is_invalid() {
    let state = run(
        Purpose::PreAuthorize,
        vec![
            AuthEvent::SessionProbed { valid: false },
            AuthEvent::SecretLoaded { secret: None },
            AuthEvent::Prompted { answer: Ok(secret("nope")) },
            AuthEvent::SecretValidated { outcome: Ok(false) },
        ],
    );
    assert_eq!(state, AuthState::InvalidSecret);
    let denial = state.into_denial().unwrap();
    assert_eq!(denial.message(Purpose::PreAuthorize), "Invalid sudo password");
}

#[test]
fn validation_that_cannot_run_is_a_fault() {
    let state = run(
        Purpose::RunElevated,
        vec![
            AuthEvent::SessionProbed { valid: false },
            AuthEvent::SecretLoaded { secret: Some(secret("s")) },
            AuthEvent::SecretValidated { outcome: Err(secret("spawn failed")) },
        ],
    );
    assert_eq!(state, AuthState::Faulted { error: secret("spawn failed") });
}

#[test]
fn entered_secret_is_offered_for_saving_when_none_is_stored() {
    let state = run(
        Purpose::PreAuthorize,
        vec![
            AuthEvent::SessionProbed { valid: false },
            AuthEvent::SecretLoaded { secret: None },
            AuthEvent::Prompted { answer: Ok(secret("pw")) },
            AuthEvent::SecretValidated { outcome: Ok(true) },
        ],
    );
    assert_eq!(state, AuthState::CheckingStore { secret: secret("pw") });
    assert_eq!(state.action(Purpose::PreAuthorize), AuthAction::CheckStore);
    let state = state.advance(
        Purpose::PreAuthorize,
        AuthEvent::StoreChecked { exists: false },
    );
    assert_eq!(state.action(Purpose::PreAuthorize), AuthAction::OfferSave);
    let state = state.advance(
        Purpose::PreAuthorize,
        AuthEvent::SaveAnswered { consent: Ok(true) },
    );
    assert_eq!(
        state.action(Purpose::PreAuthorize),
        AuthAction::Save { secret: secret("pw") }
    );
    let state = state.advance(Purpose::PreAuthorize, AuthEvent::Saved { result: Ok(()) });
    assert_eq!(state, AuthState::Authenticated { how: Grant::EnteredAndSaved });
}

#[test]
fn existing_entry_is_not_overwritten() {
    let state = run(
        Purpose::RunElevated,
        vec![
            AuthEvent::SessionProbed { valid: false },
            AuthEvent::SecretLoaded { secret: None },
            AuthEvent::Prompted { answer: Ok(secret("pw")) },
            AuthEvent::SecretValidated { outcome: Ok(true) },
            AuthEvent::StoreChecked { exists: true },
        ],
    );
    assert_eq!(state, AuthState::Authenticated { how: Grant::EnteredSecret });
}

#[test]
fn declined_save_still_grants() {
    let state = run(
        Purpose::RunElevated,
        vec![
            AuthEvent::SessionProbed { valid: false },
            AuthEvent::SecretLoaded { secret: None },
            AuthEvent::Prompted { answer: Ok(secret("pw")) },
            AuthEvent::SecretValidated { outcome: Ok(true) },
            AuthEvent::StoreChecked { exists: false },
            AuthEvent::SaveAnswered { consent: Ok(false) },
        ],
    );
    assert_eq!(state, AuthState::Authenticated { how: Grant::EnteredSecret });
}

#[test]
fn failed_save_is_not_fatal() {
    let state = run(
        Purpose::RunElevated,
        vec![
            AuthEvent::SessionProbed { valid: false },
            AuthEvent::SecretLoaded { secret: None },
            AuthEvent::Prompted { answer: Ok(secret("pw")) },
            AuthEvent::SecretValidated { outcome: Ok(true) },
            AuthEvent::StoreChecked { exists: false },
            AuthEvent::SaveAnswered { consent: Ok(true) },
            AuthEvent::Saved { result: Err(secret("keychain locked")) },
        ],
    );
    assert_eq!(
        state,
        AuthState::Authenticated {
            how: Grant::EnteredNotSaved { error: secret("keychain locked") }
        }
    );
    assert!(state.is_granted());
}

#[test]
fn failed_save_question_is_a_fault() {
    let state = run(
        Purpose::PreAuthorize,
        vec![
            AuthEvent::SessionProbed { valid: false },
            AuthEvent::SecretLoaded { secret: None },
            AuthEvent::Prompted { answer: Ok(secret("pw")) },
            AuthEvent::SecretValidated { outcome: Ok(true) },
            AuthEvent::StoreChecked { exists: false },
            AuthEvent::SaveAnswered { consent: Err(secret("io")) },
        ],
    );
    assert_eq!(state, AuthState::Faulted { error: secret("io") });
}

#[test]
fn answers_that_are_not_due_change_nothing() {
    let state = AuthState::start().advance(
        Purpose::RunElevated,
        AuthEvent::Prompted { answer: Ok(secret("pw")) },
    );
    assert_eq!(state, AuthState::Unchecked);
    let state = run(
        Purpose::RunElevated,
        vec![
            AuthEvent::SessionProbed { valid: true },
            AuthEvent::SecretLoaded { secret: Some(secret("x")) },
            AuthEvent::Saved { result: Ok(()) },
        ],
    );
    assert_eq!(state, AuthState::CachedValid);
}

#[test]
fn a_state_that_is_not_a_denial_comes_back_unchanged() {
    let state = AuthState::NeedsSecret;
    assert_eq!(state.into_denial(), Err(AuthState::NeedsSecret));
}

#[test]
fn empty_secret_is_validated_for_an_elevated_task() {
    let state = run(
        Purpose::RunElevated,
        vec![
            AuthEvent::SessionProbed { valid: false },
            AuthEvent::SecretLoaded { secret: None },
            AuthEvent::Prompted { answer: Ok(secret("")) },
        ],
    );
    assert_eq!(state, AuthState::ValidatingEntered { secret: secret("") });
}

#[test]
fn escalation_command_lines_are_fixed() {
    assert_eq!(
        tide::negotiator::session_probe_args(),
        vec!["-n".to_string(), "true".to_string()]
    );
    assert_eq!(
        tide::negotiator::validation_args(),
        vec!["-S".to_string(), "true".to_string()]
    );
    assert_eq!(tide::negotiator::validation_input("pw"), "pw\n");
    assert_eq!(tide::negotiator::validation_input(""), "\n");
}

#[test]
fn prompt_offers_to_skip_before_the_run_only() {
    assert_eq!(
        tide::negotiator::prompt_text(Purpose::PreAuthorize),
        "Enter sudo password (or press Ctrl+C to skip)"
    );
    assert_eq!(
        tide::negotiator::prompt_text(Purpose::RunElevated),
        "Enter sudo password"
    );
}

#[test]
fn fault_without_a_word_is_reported_with_a_fixed_text() {
    let silent = Denial::Faulted { error: String::new() };
    assert_eq!(
        silent.message(Purpose::RunElevated),
        "Authentication could not be completed"
    );
    assert_eq!(
        silent.message(Purpose::PreAuthorize),
        "Authentication could not be completed"
    );
    let worded = Denial::Faulted { error: "io".to_string() };
    assert_eq!(worded.message(Purpose::RunElevated), "io");
}

#[test]
fn unattended_negotiation_never_prompts() {
    let purpose = Purpose::RunUnattended;
    let state = run(
        purpose,
        vec![
            AuthEvent::SessionProbed { valid: false },
            AuthEvent::SecretLoaded { secret: None },
        ],
    );
    assert_eq!(state, AuthState::NoSecret);
    assert!(state.is_denied());
    assert_eq!(state.action(purpose), AuthAction::Finished);
    let denial = state.into_denial().unwrap();
    assert_eq!(denial, Denial::NoSecret);
    assert_eq!(denial.message(purpose), "authentication required");
    let state = run(
        purpose,
        vec![
            AuthEvent::SessionProbed { valid: false },
            AuthEvent::SecretLoaded { secret: Some(secret("old")) },
            AuthEvent::SecretValidated { outcome: Ok(false) },
        ],
    );
    assert_eq!(state, AuthState::InvalidSecret);
    assert_eq!(
        state.into_denial().unwrap().message(purpose),
        "authentication failed"
    );
}

#[test]
fn unattended_negotiation_accepts_session_and_stored_secret() {
    let purpose = Purpose::RunUnattended;
    assert_eq!(
        run(purpose, vec![AuthEvent::SessionProbed { valid: true }]),
        AuthState::CachedValid
    );
    let state = run(
        purpose,
        vec![
            AuthEvent::SessionProbed { valid: false },
            AuthEvent::SecretLoaded { secret: Some(secret("pw")) },
        ],
    );
    assert_eq!(
        state.action(purpose),
        AuthAction::ValidateSecret { secret: secret("pw") }
    );
    let state = state.advance(purpose, AuthEvent::SecretValidated { outcome: Ok(true) });
    assert_eq!(state, AuthState::Authenticated { how: Grant::StoredSecret });
}
