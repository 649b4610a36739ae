//! Negotiation of an elevated-privilege session.
//!
//! Elevation is tried in three tiers: a session that is still cached, a
//! secret from the secret store, a secret the user types. The third tier
//! is open only on the coordinator: in a parallel worker nobody can be
//! asked, and a negotiation there ends where a secret would have to be
//! typed. The negotiation is a state machine: a state names the one outside
//! step that is due ([`AuthState::action`]), and the answer to that step
//! moves the machine on ([`AuthState::advance`]). An answer to a step that
//! is not due changes nothing.
use vstd::prelude::*;

verus! {

/// What the negotiation is for.
#[derive(Debug, Clone, Copy, PartialEq, Eq, Structural)]
pub enum Purpose {
    /// Once before any task runs, so that no task meets a prompt later.
    /// The user may decline, and a rejected stored secret leads to the prompt.
    PreAuthorize,
    /// For one task that runs elevated on the coordinator. A rejected
    /// secret, stored or entered, fails that task.
    RunElevated,
    /// For one task that runs elevated in a parallel worker. Nobody can be
    /// asked there: the user is never prompted, and a stored secret that
    /// is missing or rejected fails that task.
    RunUnattended,
}

/// How a secret came to authorize elevation.
#[derive(Debug, PartialEq, Eq)]
pub enum Grant {
    /// The stored secret was accepted.
    StoredSecret,
    /// The entered secret was accepted; it was not stored, because one is
    /// stored already or the user declined.
    EnteredSecret,
    /// The entered secret was accepted and stored.
    EnteredAndSaved,
    /// The entered secret was accepted; storing it failed.
    EnteredNotSaved { error: String },
}

/// State of a negotiation.
#[derive(Debug, PartialEq, Eq)]
pub enum AuthState {
    /// Nothing is known yet.
    Unchecked,
    /// A cached session is valid. Final: elevation is authorized.
    CachedValid,
    /// No session is cached; a secret is needed.
    NeedsSecret,
    /// A stored secret was found and awaits validation.
    ValidatingStored { secret: String },
    /// The user is to type the secret. `stored_rejected` records that a
    /// stored secret was tried and found outdated.
    Prompting { stored_rejected: bool },
    /// The typed secret awaits validation.
    ValidatingEntered { secret: String },
    /// The typed secret is valid; whether the store holds one is open.
    CheckingStore { secret: String },
    /// The store holds none; the user is to say whether to store this one.
    OfferingSave { secret: String },
    /// The user agreed; the secret is to be stored.
    Saving { secret: String },
    /// A secret was accepted. Final: elevation is authorized.
    Authenticated { how: Grant },
    /// The user gave no secret: an empty answer, or with `cancelled` a
    /// broken-off prompt. Final: not authorized.
    AbandonedByUser { cancelled: bool },
    /// The secret was rejected. Final: not authorized.
    InvalidSecret,
    /// An outside step failed with `error`. Final: not authorized.
    Faulted { error: String },
    /// No session is cached, no secret is stored, and nobody can be asked.
    /// Final: not authorized.
    NoSecret,
}

/// Why a negotiation ended without authorization.
#[derive(Debug, PartialEq, Eq)]
pub enum Denial {
    /// The user gave no secret: an empty answer, or with `cancelled` a
    /// broken-off prompt.
    AbandonedByUser { cancelled: bool },
    /// The secret was rejected.
    InvalidSecret,
    /// An outside step failed with `error`, the outside's own words, which
    /// may be none.
    Faulted { error: String },
    /// No session is cached, no secret is stored, and nobody can be asked.
    NoSecret,
}

/// The outside step that a state asks for.
#[derive(Debug, PartialEq, Eq)]
pub enum AuthAction {
    /// Probe, without prompting, whether elevation would succeed now.
    ProbeSession,
    /// Look the secret up in the secret store.
    LoadSecret,
    /// Attempt a silent no-op elevation with `secret`.
    ValidateSecret { secret: String },
    /// Ask the user for the secret. With `announce` a desktop alert goes out
    /// first; with `allow_empty` an empty answer is taken.
    Prompt { announce: bool, allow_empty: bool },
    /// Ask the secret store whether it holds an entry.
    CheckStore,
    /// Ask the user whether the secret shall be stored.
    OfferSave,
    /// Store `secret` in the secret store.
    Save { secret: String },
    /// Nothing: the negotiation is over.
    Finished,
}

/// What an outside step answered.
#[derive(Debug, PartialEq, Eq)]
pub enum AuthEvent {
    SessionProbed { valid: bool },
    SecretLoaded { secret: Option<String> },
    /// `Ok` says whether the secret was accepted; `Err` that the attempt
    /// could not be made.
    SecretValidated { outcome: Result<bool, String> },
    /// `Err` is a prompt that was cancelled or could not be shown.
    Prompted { answer: Result<String, String> },
    StoreChecked { exists: bool },
    SaveAnswered { consent: Result<bool, String> },
    Saved { result: Result<(), String> },
}

/// The state that follows `state` on `event`.
pub open spec fn auth_step(purpose: Purpose, state: AuthState, event: AuthEvent) -> AuthState {
    match (state, event) {
        (AuthState::Unchecked, AuthEvent::SessionProbed { valid }) => if valid {
            AuthState::CachedValid
        } else {
            AuthState::NeedsSecret
        },
        (AuthState::NeedsSecret, AuthEvent::SecretLoaded { secret }) => match secret {
            Some(s) => AuthState::ValidatingStored { secret: s },
            None => if purpose == Purpose::RunUnattended {
                AuthState::NoSecret
            } else {
                AuthState::Prompting { stored_rejected: false }
            },
        },
        (AuthState::ValidatingStored { secret }, AuthEvent::SecretValidated { outcome }) => match outcome {
            Ok(accepted) => if accepted {
                AuthState::Authenticated { how: Grant::StoredSecret }
            } else if purpose == Purpose::PreAuthorize {
                AuthState::Prompting { stored_rejected: true }
            } else {
                AuthState::InvalidSecret
            },
            Err(error) => AuthState::Faulted { error },
        },
        (AuthState::Prompting { stored_rejected }, AuthEvent::Prompted { answer }) => match answer {
            Ok(secret) => if purpose == Purpose::PreAuthorize && secret@.len() == 0 {
                AuthState::AbandonedByUser { cancelled: false }
            } else {
                AuthState::ValidatingEntered { secret }
            },
            Err(error) => if purpose == Purpose::PreAuthorize {
                AuthState::AbandonedByUser { cancelled: true }
            } else {
                AuthState::Faulted { error }
            },
        },
        (AuthState::ValidatingEntered { secret }, AuthEvent::SecretValidated { outcome }) => match outcome {
            Ok(accepted) => if accepted {
                AuthState::CheckingStore { secret }
            } else {
                AuthState::InvalidSecret
            },
            Err(error) => AuthState::Faulted { error },
        },
        (AuthState::CheckingStore { secret }, AuthEvent::StoreChecked { exists }) => if exists {
            AuthState::Authenticated { how: Grant::EnteredSecret }
        } else {
            AuthState::OfferingSave { secret }
        },
        (AuthState::OfferingSave { secret }, AuthEvent::SaveAnswered { consent }) => match consent {
            Ok(agreed) => if agreed {
                AuthState::Saving { secret }
            } else {
                AuthState::Authenticated { how: Grant::EnteredSecret }
            },
            Err(error) => AuthState::Faulted { error },
        },
        (AuthState::Saving { secret }, AuthEvent::Saved { result }) => match result {
            Ok(_) => AuthState::Authenticated { how: Grant::EnteredAndSaved },
            Err(error) => AuthState::Authenticated { how: Grant::EnteredNotSaved { error } },
        },
        (state, _) => state,
    }
}

/// The outside step that `state` asks for.
pub open spec fn auth_action(purpose: Purpose, state: AuthState) -> AuthAction {
    match state {
        AuthState::Unchecked => AuthAction::ProbeSession,
        AuthState::NeedsSecret => AuthAction::LoadSecret,
        AuthState::ValidatingStored { secret } => AuthAction::ValidateSecret { secret },
        AuthState::Prompting { .. } => AuthAction::Prompt {
            announce: purpose == Purpose::PreAuthorize,
            allow_empty: purpose == Purpose::PreAuthorize,
        },
        AuthState::ValidatingEntered { secret } => AuthAction::ValidateSecret { secret },
        AuthState::CheckingStore { .. } => AuthAction::CheckStore,
        AuthState::OfferingSave { .. } => AuthAction::OfferSave,
        AuthState::Saving { secret } => AuthAction::Save { secret },
        _ => AuthAction::Finished,
    }
}

/// The reason that is reported for a denial.
pub open spec fn denial_text(purpose: Purpose, denial: Denial) -> Seq<char> {
    match denial {
        Denial::AbandonedByUser { cancelled } => if cancelled {
            "User cancelled sudo authentication"@
        } else {
            "User skipped sudo authentication"@
        },
        Denial::InvalidSecret => if purpose == Purpose::PreAuthorize {
            "Invalid sudo password"@
        } else {
            "authentication failed"@
        },
        Denial::Faulted { error } => if error@.len() > 0 {
            error@
        } else {
            "Authentication could not be completed"@
        },
        Denial::NoSecret => "authentication required"@,
    }
}

/// The reason that is reported for a denial is never empty.
pub proof fn lemma_denial_text_not_empty(purpose: Purpose, denial: Denial)
    ensures
        denial_text(purpose, denial).len() > 0,
{
    reveal_strlit("User cancelled sudo authentication");
    reveal_strlit("User skipped sudo authentication");
    reveal_strlit("Invalid sudo password");
    reveal_strlit("authentication failed");
    reveal_strlit("Authentication could not be completed");
    reveal_strlit("authentication required");
}

/// The arguments with which the escalation command reports, without
/// prompting, whether a session is cached.
pub fn session_probe_args() -> (args: Vec<String>)
    ensures
        args.deep_view() == seq!["-n"@, "true"@],
{
    let args = vec!["-n".to_owned(), "true".to_owned()];
    args
}

/// The arguments with which the escalation command validates a secret
/// that it reads from its standard input.
pub fn validation_args() -> (args: Vec<String>)
    ensures
        args.deep_view() == seq!["-S"@, "true"@],
{
    let args = vec!["-S".to_owned(), "true".to_owned()];
    args
}

/// What is written to the escalation command's standard input to validate
/// `secret`: the secret and a line feed.
pub fn validation_input(secret: &str) -> (input: String)
    ensures
        input@ == secret@ + "\n"@,
{
    let mut input = secret.to_owned();
    input.append("\n");
    input
}

/// What the user is asked when the secret is needed.
pub fn prompt_text(purpose: Purpose) -> (text: String)
    ensures
        text@ == (if purpose == Purpose::PreAuthorize {
            "Enter sudo password (or press Ctrl+C to skip)"@
        } else {
            "Enter sudo password"@
        }),
{
    match purpose {
        Purpose::PreAuthorize => "Enter sudo password (or press Ctrl+C to skip)".to_owned(),
        _ => "Enter sudo password".to_owned(),
    }
}

impl Denial {
    /// The reason that is reported for this denial. It is never empty:
    /// where an outside step failed without a word, a fixed text stands in.
    pub fn message(&self, purpose: Purpose) -> (s: String)
        ensures
            s@ == denial_text(purpose, *self),
            s@.len() > 0,
    {
        proof {
            lemma_denial_text_not_empty(purpose, *self);
        }
        match self {
            Denial::AbandonedByUser { cancelled } => {
                if *cancelled {
                    "User cancelled sudo authentication".to_owned()
                } else {
                    "User skipped sudo authentication".to_owned()
                }
            },
            Denial::InvalidSecret => {
                match purpose {
                    Purpose::PreAuthorize => "Invalid sudo password".to_owned(),
                    _ => "authentication failed".to_owned(),
                }
            },
            Denial::Faulted { error } => {
                if error.as_str().is_empty() {
                    "Authentication could not be completed".to_owned()
                } else {
                    error.clone()
                }
            },
            Denial::NoSecret => "authentication required".to_owned(),
        }
    }
}

impl AuthState {
    /// Why the negotiation ended without authorization, if it did.
    pub open spec fn denial(self) -> Option<Denial> {
        match self {
            AuthState::AbandonedByUser { cancelled } => Some(Denial::AbandonedByUser { cancelled }),
            AuthState::InvalidSecret => Some(Denial::InvalidSecret),
            AuthState::Faulted { error } => Some(Denial::Faulted { error }),
            AuthState::NoSecret => Some(Denial::NoSecret),
            _ => None,
        }
    }

    /// The reason of a negotiation that ended without authorization; any
    /// other state comes back as it is.
    pub fn into_denial(self) -> (r: Result<Denial, AuthState>)
        ensures
            r == match self.denial() {
                Some(denial) => Ok::<Denial, AuthState>(denial),
                None => Err(self),
            },
            r.is_ok() == self.denied(),
    {
        match self {
            AuthState::AbandonedByUser { cancelled } => Ok(Denial::AbandonedByUser { cancelled }),
            AuthState::InvalidSecret => Ok(Denial::InvalidSecret),
            AuthState::Faulted { error } => Ok(Denial::Faulted { error }),
            AuthState::NoSecret => Ok(Denial::NoSecret),
            state => Err(state),
        }
    }

    /// Whether elevation is authorized.
    pub open spec fn granted(self) -> bool {
        self is CachedValid || self is Authenticated
    }

    /// Whether the negotiation ended without authorization.
    pub open spec fn denied(self) -> bool {
        self is AbandonedByUser || self is InvalidSecret || self is Faulted || self is NoSecret
    }

    /// Whether the negotiation is over.
    pub open spec fn finished(self) -> bool {
        self.granted() || self.denied()
    }

    /// The state a negotiation starts in.
    pub fn start() -> (s: AuthState)
        ensures
            s == AuthState::Unchecked,
    {
        AuthState::Unchecked
    }

    /// Whether elevation is authorized.
    pub fn is_granted(&self) -> (b: bool)
        ensures
            b == self.granted(),
    {
        match self {
            AuthState::CachedValid => true,
            AuthState::Authenticated { .. } => true,
            _ => false,
        }
    }

    /// Whether the negotiation ended without authorization.
    pub fn is_denied(&self) -> (b: bool)
        ensures
            b == self.denied(),
    {
        match self {
            AuthState::AbandonedByUser { .. } => true,
            AuthState::InvalidSecret => true,
            AuthState::Faulted { .. } => true,
            AuthState::NoSecret => true,
            _ => false,
        }
    }

    /// The outside step that is due in this state.
    pub fn action(&self, purpose: Purpose) -> (a: AuthAction)
        ensures
            a == auth_action(purpose, *self),
    {
        let interactive = match purpose {
            Purpose::PreAuthorize => true,
            _ => false,
        };
        match self {
            AuthState::Unchecked => AuthAction::ProbeSession,
            AuthState::NeedsSecret => AuthAction::LoadSecret,
            AuthState::ValidatingStored { secret } => AuthAction::ValidateSecret {
                secret: secret.clone(),
            },
            AuthState::Prompting { .. } => AuthAction::Prompt {
                announce: interactive,
                allow_empty: interactive,
            },
            AuthState::ValidatingEntered { secret } => AuthAction::ValidateSecret {
                secret: secret.clone(),
            },
            AuthState::CheckingStore { .. } => AuthAction::CheckStore,
            AuthState::OfferingSave { .. } => AuthAction::OfferSave,
            AuthState::Saving { secret } => AuthAction::Save { secret: secret.clone() },
            _ => AuthAction::Finished,
        }
    }

    /// Moves on with the answer of an outside step.
    pub fn advance(self, purpose: Purpose, event: AuthEvent) -> (next: AuthState)
        ensures
            next == auth_step(purpose, self, event),
    {
        let lenient = match purpose {
            Purpose::PreAuthorize => true,
            _ => false,
        };
        let attended = match purpose {
            Purpose::RunUnattended => false,
            _ => true,
        };
        match (self, event) {
            (AuthState::Unchecked, AuthEvent::SessionProbed { valid }) => {
                if valid {
                    AuthState::CachedValid
                } else {
                    AuthState::NeedsSecret
                }
            },
            (AuthState::NeedsSecret, AuthEvent::SecretLoaded { secret }) => {
                match secret {
                    Some(s) => AuthState::ValidatingStored { secret: s },
                    None => {
                        if attended {
                            AuthState::Prompting { stored_rejected: false }
                        } else {
                            AuthState::NoSecret
                        }
                    },
                }
            },
            (AuthState::ValidatingStored { secret }, AuthEvent::SecretValidated { outcome }) => {
                match outcome {
                    Ok(accepted) => {
                        if accepted {
                            AuthState::Authenticated { how: Grant::StoredSecret }
                        } else if lenient {
                            AuthState::Prompting { stored_rejected: true }
                        } else {
                            AuthState::InvalidSecret
                        }
                    },
                    Err(error) => AuthState::Faulted { error },
                }
            },
            (AuthState::Prompting { stored_rejected }, AuthEvent::Prompted { answer }) => {
                match answer {
                    Ok(secret) => {
                        if lenient && secret.as_str().is_empty() {
                            AuthState::AbandonedByUser { cancelled: false }
                        } else {
                            AuthState::ValidatingEntered { secret }
                        }
                    },
                    Err(error) => {
                        if lenient {
                            AuthState::AbandonedByUser { cancelled: true }
                        } else {
                            AuthState::Faulted { error }
                        }
                    },
                }
            },
            (AuthState::ValidatingEntered { secret }, AuthEvent::SecretValidated { outcome }) => {
                match outcome {
                    Ok(accepted) => {
                        if accepted {
                            AuthState::CheckingStore { secret }
                        } else {
                            AuthState::InvalidSecret
                        }
                    },
                    Err(error) => AuthState::Faulted { error },
                }
            },
            (AuthState::CheckingStore { secret }, AuthEvent::StoreChecked { exists }) => {
                if exists {
                    AuthState::Authenticated { how: Grant::EnteredSecret }
                } else {
                    AuthState::OfferingSave { secret }
                }
            },
            (AuthState::OfferingSave { secret }, AuthEvent::SaveAnswered { consent }) => {
                match consent {
                    Ok(agreed) => {
                        if agreed {
                            AuthState::Saving { secret }
                        } else {
                            AuthState::Authenticated { how: Grant::EnteredSecret }
                        }
                    },
                    Err(error) => AuthState::Faulted { error },
                }
            },
            (AuthState::Saving { secret }, AuthEvent::Saved { result }) => {
                match result {
                    Ok(_) => AuthState::Authenticated { how: Grant::EnteredAndSaved },
                    Err(error) => AuthState::Authenticated {
                        how: Grant::EnteredNotSaved { error },
                    },
                }
            },
            (state, _) => state,
        }
    }
}

/// How far a negotiation has come. Every step that changes the state
/// raises the rank, so a negotiation asks for at most eight outside steps
/// and prompts the user at most once.
pub open spec fn auth_rank(state: AuthState) -> nat {
    match state {
        AuthState::Unchecked => 0,
        AuthState::NeedsSecret => 1,
        AuthState::ValidatingStored { .. } => 2,
        AuthState::Prompting { .. } => 3,
        AuthState::ValidatingEntered { .. } => 4,
        AuthState::CheckingStore { .. } => 5,
        AuthState::OfferingSave { .. } => 6,
        AuthState::Saving { .. } => 7,
        _ => 8,
    }
}

/// The state after `events` were reported one after the other, starting
/// from `state`.
pub open spec fn auth_run(purpose: Purpose, state: AuthState, events: Seq<AuthEvent>) -> AuthState
    decreases events.len(),
{
    if events.len() == 0 {
        state
    } else {
        auth_run(purpose, auth_step(purpose, state, events[0]), events.drop_first())
    }
}

/// Whether an event shows that elevation is in order: a cached session
/// that is valid, or a secret that was accepted.
pub open spec fn proves_right(event: AuthEvent) -> bool {
    event == (AuthEvent::SessionProbed { valid: true }) || event == (AuthEvent::SecretValidated {
        outcome: Ok(true),
    })
}

/// Whether a state is reached only after elevation was shown to be in
/// order.
pub open spec fn proven(state: AuthState) -> bool {
    state.granted() || state is CheckingStore || state is OfferingSave || state is Saving
}

/// Whether a state is reached only after the user agreed to store the
/// secret.
pub open spec fn consented(state: AuthState) -> bool {
    state is Saving || (state matches AuthState::Authenticated { how } && (how
        == Grant::EnteredAndSaved || how is EnteredNotSaved))
}

/// A negotiation never goes back: a step either leaves the state as it is
/// or raises its rank. A state in which the negotiation is over is never
/// left.
pub proof fn law_negotiation_progresses(purpose: Purpose, state: AuthState, event: AuthEvent)
    ensures
        auth_step(purpose, state, event) == state || auth_rank(auth_step(purpose, state, event))
            > auth_rank(state),
        state.finished() ==> auth_step(purpose, state, event) == state,
        state.finished() <==> auth_action(purpose, state) == AuthAction::Finished,
{
}

/// A negotiation that is over stays as it is, whatever is reported.
pub proof fn law_finished_is_final(purpose: Purpose, state: AuthState, events: Seq<AuthEvent>)
    requires
        state.finished(),
    ensures
        auth_run(purpose, state, events) == state,
    decreases events.len(),
{
    if events.len() > 0 {
        law_finished_is_final(purpose, state, events.drop_first());
    }
}

/// From a state that is not yet proven, a proven one is reached only
/// through an event that proves the right.
proof fn lemma_proof_precedes(purpose: Purpose, state: AuthState, events: Seq<AuthEvent>)
    requires
        !proven(state),
        proven(auth_run(purpose, state, events)),
    ensures
        exists|i: int| 0 <= i < events.len() && proves_right(#[trigger] events[i]),
    decreases events.len(),
{
    if events.len() > 0 {
        let next = auth_step(purpose, state, events[0]);
        if proven(next) {
            assert(proves_right(events[0]));
        } else {
            let rest = events.drop_first();
            lemma_proof_precedes(purpose, next, rest);
            let i = choose|i: int| 0 <= i < rest.len() && proves_right(#[trigger] rest[i]);
            assert(rest[i] == events[i + 1]);
        }
    }
}

/// Elevation is never authorized on trust: a negotiation ends authorized
/// only if a cached session was found valid or a secret was accepted.
pub proof fn law_grant_needs_proof(purpose: Purpose, events: Seq<AuthEvent>)
    requires
        auth_run(purpose, AuthState::Unchecked, events).granted(),
    ensures
        exists|i: int| 0 <= i < events.len() && proves_right(#[trigger] events[i]),
{
    lemma_proof_precedes(purpose, AuthState::Unchecked, events);
}

/// From a state without the user's consent, one with it is reached only
/// through the user's agreement.
proof fn lemma_consent_precedes(purpose: Purpose, state: AuthState, events: Seq<AuthEvent>)
    requires
        !consented(state),
        consented(auth_run(purpose, state, events)),
    ensures
        exists|i: int|
            0 <= i < events.len() && #[trigger] events[i] == (AuthEvent::SaveAnswered {
                consent: Ok(true),
            }),
    decreases events.len(),
{
    if events.len() > 0 {
        let next = auth_step(purpose, state, events[0]);
        if consented(next) {
            assert(events[0] == (AuthEvent::SaveAnswered { consent: Ok(true) }));
        } else {
            let rest = events.drop_first();
            lemma_consent_precedes(purpose, next, rest);
            let i = choose|i: int|
                0 <= i < rest.len() && #[trigger] rest[i] == (AuthEvent::SaveAnswered {
                    consent: Ok(true),
                });
            assert(rest[i] == events[i + 1]);
        }
    }
}

/// The secret store is written only with the user's consent: a negotiation
/// asks to store a secret, or has stored one, only if the user agreed to
/// it.
pub proof fn law_save_needs_consent(purpose: Purpose, events: Seq<AuthEvent>)
    requires
        consented(auth_run(purpose, AuthState::Unchecked, events)),
    ensures
        exists|i: int|
            0 <= i < events.len() && #[trigger] events[i] == (AuthEvent::SaveAnswered {
                consent: Ok(true),
            }),
{
    lemma_consent_precedes(purpose, AuthState::Unchecked, events);
}

/// Declining is not an error of the run: when the user answers the prompt
/// of a pre-authorization with nothing, or breaks it off, the negotiation
/// ends as abandoned and nothing more is asked for.
pub proof fn law_declined_preauthorization_ends(stored_rejected: bool, answer: Result<String, String>)
    requires
        answer matches Ok(secret) ==> secret@.len() == 0,
    ensures
        ({
            let end = auth_step(
                Purpose::PreAuthorize,
                AuthState::Prompting { stored_rejected },
                AuthEvent::Prompted { answer },
            );
            &&& end == AuthState::AbandonedByUser { cancelled: answer is Err }
            &&& auth_action(Purpose::PreAuthorize, end) == AuthAction::Finished
        }),
{
}

/// Whether a state can be reached without anybody to ask: nothing was
/// typed and nothing was offered.
pub open spec fn unattended(state: AuthState) -> bool {
    match state {
        AuthState::Unchecked => true,
        AuthState::CachedValid => true,
        AuthState::NeedsSecret => true,
        AuthState::ValidatingStored { .. } => true,
        AuthState::Authenticated { how } => how == Grant::StoredSecret,
        AuthState::InvalidSecret => true,
        AuthState::Faulted { .. } => true,
        AuthState::NoSecret => true,
        _ => false,
    }
}

/// Whether an outside step asks the user for anything or writes to the
/// secret store.
pub open spec fn involves_user(action: AuthAction) -> bool {
    action is Prompt || action is OfferSave || action is Save || action is CheckStore
}

/// A negotiation in a worker stays among the states that need nobody to
/// ask.
proof fn lemma_unattended_stays(state: AuthState, events: Seq<AuthEvent>)
    requires
        unattended(state),
    ensures
        unattended(auth_run(Purpose::RunUnattended, state, events)),
    decreases events.len(),
{
    if events.len() > 0 {
        lemma_unattended_stays(
            auth_step(Purpose::RunUnattended, state, events[0]),
            events.drop_first(),
        );
    }
}

/// In a parallel worker the user is never asked and the secret store is
/// never written: whatever is reported, the negotiation asks only for the
/// probe of the session, for the stored secret and for its validation. A
/// stored secret that is missing or rejected ends the negotiation as a
/// denial.
pub proof fn law_worker_never_asks(events: Seq<AuthEvent>)
    ensures
        !involves_user(
            auth_action(
                Purpose::RunUnattended,
                auth_run(Purpose::RunUnattended, AuthState::Unchecked, events),
            ),
        ),
        auth_step(
            Purpose::RunUnattended,
            AuthState::NeedsSecret,
            AuthEvent::SecretLoaded { secret: None },
        ).denied(),
        forall|secret: String|
            (#[trigger] auth_step(
                Purpose::RunUnattended,
                AuthState::ValidatingStored { secret },
                AuthEvent::SecretValidated { outcome: Ok(false) },
            )).denied(),
{
    lemma_unattended_stays(AuthState::Unchecked, events);
}

} // verus!
