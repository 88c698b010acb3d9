//! Interactive login state machine for the secondary user-account session:
//! phone, then login code, then an optional second-factor password, then
//! one attempt to persist the session. Each transition is a pure step from
//! state and event to next state and action; the caller performs the
//! prompts and remote calls and feeds the outcome back.

use vstd::prelude::*;

verus! {

/// Where the startup login stands.
#[derive(Clone, Copy, PartialEq, Eq, Structural, Debug)]
pub enum LoginState {
    /// waiting to learn whether the loaded session is already authorized
    AwaitingAuthStatus,
    /// waiting for the phone number and the login-code request
    AwaitingPhone,
    /// waiting for the received code and its submission
    AwaitingCode,
    /// waiting for the second-factor password and its submission
    AwaitingPassword,
    /// waiting for the one attempt to persist the fresh session
    Persisting,
    /// startup may complete; `sign_out` flags a failed persist, forcing a
    /// sign-out at shutdown so no unpersisted authorized session survives
    Ready { sign_out: bool },
    /// fatal authentication failure: startup aborts
    Failed,
}

/// How a login-code submission ended.
pub enum SignInOutcome {
    /// signed in; no second factor required
    Authorized,
    /// a second factor is required; the service may supply a hint
    PasswordNeeded { hint: Option<String> },
    /// any other submission failure: fatal
    Rejected,
}

/// Mathematical image of [`SignInOutcome`].
pub ghost enum SignInOutcomeView {
    Authorized,
    PasswordNeeded { hint: Option<Seq<char>> },
    Rejected,
}

impl View for SignInOutcome {
    type V = SignInOutcomeView;

    open spec fn view(&self) -> SignInOutcomeView {
        match self {
            SignInOutcome::Authorized => SignInOutcomeView::Authorized,
            SignInOutcome::PasswordNeeded { hint } => (SignInOutcomeView::PasswordNeeded {
                hint: match hint {
                    Some(h) => Some(h@),
                    None => None,
                },
            }),
            SignInOutcome::Rejected => SignInOutcomeView::Rejected,
        }
    }
}

/// What the caller reports back to the machine.
pub enum LoginEvent {
    /// whether the loaded session is already authorized
    AuthStatus { authorized: bool },
    /// whether requesting a login code succeeded
    CodeRequested { ok: bool },
    /// how submitting the received code ended
    SignedIn { outcome: SignInOutcome },
    /// whether the second-factor password was accepted
    PasswordChecked { ok: bool },
    /// whether persisting the session succeeded
    Persisted { ok: bool },
}

/// Mathematical image of [`LoginEvent`].
pub ghost enum LoginEventView {
    AuthStatus { authorized: bool },
    CodeRequested { ok: bool },
    SignedIn { outcome: SignInOutcomeView },
    PasswordChecked { ok: bool },
    Persisted { ok: bool },
}

impl View for LoginEvent {
    type V = LoginEventView;

    open spec fn view(&self) -> LoginEventView {
        match self {
            LoginEvent::AuthStatus { authorized } => (LoginEventView::AuthStatus {
                authorized: *authorized,
            }),
            LoginEvent::CodeRequested { ok } => (LoginEventView::CodeRequested { ok: *ok }),
            LoginEvent::SignedIn { outcome } => (LoginEventView::SignedIn { outcome: outcome@ }),
            LoginEvent::PasswordChecked { ok } => (LoginEventView::PasswordChecked { ok: *ok }),
            LoginEvent::Persisted { ok } => (LoginEventView::Persisted { ok: *ok }),
        }
    }
}

/// What the caller must do next.
pub enum LoginAction {
    /// prompt for the phone number and request a login code with it
    PromptPhone,
    /// prompt for the received code and submit it
    PromptCode,
    /// show this prompt, read the password and submit it
    PromptPassword { prompt: String },
    /// persist the session to storage
    PersistSession,
    /// fatal authentication failure: abort startup
    AbortStartup,
    /// startup is complete
    Finish,
}

/// Mathematical image of [`LoginAction`].
pub ghost enum LoginActionView {
    PromptPhone,
    PromptCode,
    PromptPassword { prompt: Seq<char> },
    PersistSession,
    AbortStartup,
    Finish,
}

impl View for LoginAction {
    type V = LoginActionView;

    open spec fn view(&self) -> LoginActionView {
        match self {
            LoginAction::PromptPhone => LoginActionView::PromptPhone,
            LoginAction::PromptCode => LoginActionView::PromptCode,
            LoginAction::PromptPassword { prompt } => (LoginActionView::PromptPassword {
                prompt: prompt@,
            }),
            LoginAction::PersistSession => LoginActionView::PersistSession,
            LoginAction::AbortStartup => LoginActionView::AbortStartup,
            LoginAction::Finish => LoginActionView::Finish,
        }
    }
}

/// The password prompt, echoing the service-supplied hint when present.
pub open spec fn password_prompt_text(hint: Option<Seq<char>>) -> Seq<char> {
    "Enter the password (hint "@ + (match hint {
        Some(h) => h,
        None => "None"@,
    }) + "): "@
}

/// The event a state is waiting for.
pub open spec fn event_matches(s: LoginState, e: LoginEventView) -> bool {
    ||| (s is AwaitingAuthStatus && e is AuthStatus)
    ||| (s is AwaitingPhone && e is CodeRequested)
    ||| (s is AwaitingCode && e is SignedIn)
    ||| (s is AwaitingPassword && e is PasswordChecked)
    ||| (s is Persisting && e is Persisted)
}

/// The transition relation of the login machine.
pub open spec fn login_step_spec(s: LoginState, e: LoginEventView) -> (LoginState, LoginActionView) {
    match e {
        LoginEventView::AuthStatus { authorized } => if authorized {
            (LoginState::Ready { sign_out: false }, LoginActionView::Finish)
        } else {
            (LoginState::AwaitingPhone, LoginActionView::PromptPhone)
        },
        LoginEventView::CodeRequested { ok } => if ok {
            (LoginState::AwaitingCode, LoginActionView::PromptCode)
        } else {
            (LoginState::Failed, LoginActionView::AbortStartup)
        },
        LoginEventView::SignedIn { outcome } => match outcome {
            SignInOutcomeView::Authorized => (
                LoginState::Persisting,
                LoginActionView::PersistSession,
            ),
            SignInOutcomeView::PasswordNeeded { hint } => (
                LoginState::AwaitingPassword,
                LoginActionView::PromptPassword { prompt: password_prompt_text(hint) },
            ),
            SignInOutcomeView::Rejected => (LoginState::Failed, LoginActionView::AbortStartup),
        },
        LoginEventView::PasswordChecked { ok } => if ok {
            (LoginState::Persisting, LoginActionView::PersistSession)
        } else {
            (LoginState::Failed, LoginActionView::AbortStartup)
        },
        LoginEventView::Persisted { ok } => (
            LoginState::Ready { sign_out: !ok },
            LoginActionView::Finish,
        ),
    }
}

/// Failing to persist the session after a successful login still completes
/// startup: the machine reaches `Ready` either way, and a failed save flags
/// the session for the mandatory sign-out at shutdown.
pub proof fn lemma_persistence_failure_still_completes(ok: bool)
    ensures
        login_step_spec(LoginState::Persisting, LoginEventView::Persisted { ok }) == ((
            LoginState::Ready { sign_out: !ok },
            LoginActionView::Finish,
        )),
{
}

/// Whether the finished login demands a sign-out at shutdown.
pub open spec fn must_sign_out(s: LoginState) -> bool {
    match s {
        LoginState::Ready { sign_out } => sign_out,
        _ => false,
    }
}

/// Builds the password prompt from the service-supplied hint.
pub fn password_prompt(hint: &Option<String>) -> (p: String)
    ensures
        p@ == password_prompt_text(
            match hint {
                Some(h) => Some(h@),
                None => None,
            },
        ),
{
    let mut s = String::from_str("Enter the password (hint ");
    match hint {
        Some(h) => s.append(h.as_str()),
        None => s.append("None"),
    }
    s.append("): ");
    s
}

/// One transition of the login machine.
pub fn login_step(state: LoginState, event: LoginEvent) -> (r: (LoginState, LoginAction))
    requires
        event_matches(state, event@),
    ensures
        (r.0, r.1@) == login_step_spec(state, event@),
{
    match event {
        LoginEvent::AuthStatus { authorized } => if authorized {
            (LoginState::Ready { sign_out: false }, LoginAction::Finish)
        } else {
            (LoginState::AwaitingPhone, LoginAction::PromptPhone)
        },
        LoginEvent::CodeRequested { ok } => if ok {
            (LoginState::AwaitingCode, LoginAction::PromptCode)
        } else {
            (LoginState::Failed, LoginAction::AbortStartup)
        },
        LoginEvent::SignedIn { outcome } => match outcome {
            SignInOutcome::Authorized => (LoginState::Persisting, LoginAction::PersistSession),
            SignInOutcome::PasswordNeeded { hint } => {
                let prompt = password_prompt(&hint);
                (LoginState::AwaitingPassword, LoginAction::PromptPassword { prompt })
            },
            SignInOutcome::Rejected => (LoginState::Failed, LoginAction::AbortStartup),
        },
        LoginEvent::PasswordChecked { ok } => if ok {
            (LoginState::Persisting, LoginAction::PersistSession)
        } else {
            (LoginState::Failed, LoginAction::AbortStartup)
        },
        LoginEvent::Persisted { ok } => (LoginState::Ready { sign_out: !ok }, LoginAction::Finish),
    }
}

/// Runtime check for [`must_sign_out`].
pub fn needs_sign_out(state: &LoginState) -> (r: bool)
    ensures
        r == must_sign_out(*state),
{
    match state {
        LoginState::Ready { sign_out } => *sign_out,
        _ => false,
    }
}

} // verus!
