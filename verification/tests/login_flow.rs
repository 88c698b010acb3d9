use titlebot::login::login_step;
use titlebot::login::needs_sign_out;
use titlebot::login::LoginAction;
use titlebot::login::LoginEvent;
use titlebot::login::LoginState;
use titlebot::login::SignInOutcome;

#[test]
fn an_authorized_session_skips_the_login() {
    let (state, action) = login_step(
        LoginState::AwaitingAuthStatus,
        LoginEvent::AuthStatus { authorized: true },
    );
    assert_eq!(state, LoginState::Ready { sign_out: false });
    assert!(matches!(action, LoginAction::Finish));
    assert!(!needs_sign_out(&state));
}

#[test]
fn full_login_with_second_factor_and_good_persist() {
    let (state, action) = login_step(
        LoginState::AwaitingAuthStatus,
        LoginEvent::AuthStatus { authorized: false },
    );
    assert_eq!(state, LoginState::AwaitingPhone);
    assert!(matches!(action, LoginAction::PromptPhone));

    let (state, action) = login_step(state, LoginEvent::CodeRequested { ok: true });
    assert_eq!(state, LoginState::AwaitingCode);
    assert!(matches!(action, LoginAction::PromptCode));

    let (state, action) = login_step(
        state,
        LoginEvent::SignedIn {
            outcome: SignInOutcome::PasswordNeeded { hint: Some("pet name".to_string()) },
        },
    );
    assert_eq!(state, LoginState::AwaitingPassword);
    match action {
        LoginAction::PromptPassword { prompt } => {
            assert_eq!(prompt, "Enter the password (hint pet name): ");
        }
        _ => panic!("expected a password prompt"),
    }

    let (state, action) = login_step(state, LoginEvent::PasswordChecked { ok: true });
    assert_eq!(state, LoginState::Persisting);
    assert!(matches!(action, LoginAction::PersistSession));

    let (state, action) = login_step(state, LoginEvent::Persisted { ok: true });
    assert_eq!(state, LoginState::Ready { sign_out: false });
    assert!(matches!(action, LoginAction::Finish));
    assert!(!needs_sign_out(&state));
}

#[test]
fn a_missing_hint_prompts_with_the_word_none() {
    let (_, action) = login_step(
        LoginState::AwaitingCode,
        LoginEvent::SignedIn { outcome: SignInOutcome::PasswordNeeded { hint: None } },
    );
    match action {
        LoginAction::PromptPassword { prompt } => {
            assert_eq!(prompt, "Enter the password (hint None): ");
        }
        _ => panic!("expected a password prompt"),
    }
}

#[test]
fn persistence_failure_still_completes_startup_with_forced_sign_out() {
    let (state, _) = login_step(
        LoginState::AwaitingCode,
        LoginEvent::SignedIn { outcome: SignInOutcome::Authorized },
    );
    assert_eq!(state, LoginState::Persisting);
    let (state, action) = login_step(state, LoginEvent::Persisted { ok: false });
    assert_eq!(state, LoginState::Ready { sign_out: true });
    assert!(matches!(action, LoginAction::Finish));
    assert!(needs_sign_out(&state));
}

#[test]
fn a_rejected_code_aborts_startup() {
    let (state, action) = login_step(
        LoginState::AwaitingCode,
        LoginEvent::SignedIn { outcome: SignInOutcome::Rejected },
    );
    assert_eq!(state, LoginState::Failed);
    assert!(matches!(action, LoginAction::AbortStartup));
}

#[test]
fn a_rejected_password_aborts_startup() {
    let (state, action) =
        login_step(LoginState::AwaitingPassword, LoginEvent::PasswordChecked { ok: false });
    assert_eq!(state, LoginState::Failed);
    assert!(matches!(action, LoginAction::AbortStartup));
}

#[test]
fn a_failed_code_request_aborts_startup() {
    let (state, action) =
        login_step(LoginState::AwaitingPhone, LoginEvent::CodeRequested { ok: false });
    assert_eq!(state, LoginState::Failed);
    assert!(matches!(action, LoginAction::AbortStartup));
}
