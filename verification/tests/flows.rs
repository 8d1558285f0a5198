use halal_certification_auth::api::{ApiOutcome, ApiRequest};
use halal_certification_auth::features::auth::commons::flow::Directive;
use halal_certification_auth::features::auth::commons::validation::{
    CONFIRM_MISMATCH, EMAIL_FORMAT, EMAIL_REQUIRED, PASSWORD_LENGTH, PASSWORD_NUMBER,
};
use halal_certification_auth::features::auth::hooks::use_confirm_state::{
    use_confirm_state, ConfirmCall, ConfirmForm, CONFIRM_FAILED, CONFIRM_NETWORK_ERROR,
    RESEND_DONE, RESEND_FAILED,
};
use halal_certification_auth::features::auth::hooks::use_password_reset_request_state::{
    use_password_reset_request_state, RESET_CODE_SENT, RESET_REQUEST_FAILED,
    RESET_REQUEST_NETWORK_ERROR,
};
use halal_certification_auth::features::auth::hooks::use_signin_mfa_state::{
    use_signin_mfa_state, MFA_NETWORK_ERROR, MFA_REJECTED,
};
use halal_certification_auth::features::auth::hooks::use_signin_state::{
    use_signin_state, SigninFormState, SigninReply, SIGNIN_NETWORK_ERROR, SIGNIN_REJECTED,
    SIGNIN_UNREADABLE,
};
use halal_certification_auth::features::auth::hooks::use_signup_state::{
    use_signup_state, SignupFormState, SIGNUP_FAILED, SIGNUP_NETWORK_ERROR,
};
use halal_certification_auth::features::auth::pages::password_reset::mfa::{
    password_reset_mfa_page, RESET_MFA_FAILED, RESET_MFA_NETWORK_ERROR,
};
use halal_certification_auth::features::auth::pages::password_reset::reset::{
    password_reset_page, RESET_DONE, RESET_FAILED, RESET_MISMATCH, RESET_NETWORK_ERROR,
};
use halal_certification_auth::routes::Route;
use halal_certification_auth::types::AuthContext;
use halal_certification_auth::utils::PasswordRulesState;

fn context(email: &str, session: &str) -> AuthContext {
    AuthContext { email: email.to_string(), session: session.to_string() }
}

// Sign-in

#[test]
fn signin_unconfirmed_account_goes_to_confirm() {
    let mut ctx = context("old@x.com", "stale");
    let mut screen = use_signin_state();
    screen.handle_email_input("a@b.com");
    screen.handle_password_input("x");
    assert_eq!(
        screen.onsubmit(),
        Directive::Send(ApiRequest::SignIn {
            email: "a@b.com".to_string(),
            password: "x".to_string()
        })
    );
    let next = screen.on_outcome(&mut ctx, ApiOutcome::Forbidden(403));
    assert_eq!(next, Directive::Navigate(Route::SignupConfirm));
    assert_eq!(ctx.email, "a@b.com");
    assert_eq!(ctx.session, "");
    assert_eq!(screen.state.message, "");
    assert_eq!(screen.in_flight, None);
}

#[test]
fn signin_accepted_goes_to_second_factor() {
    let mut ctx = AuthContext::new();
    let mut screen = use_signin_state();
    screen.handle_email_input("a@b.com");
    screen.handle_password_input("x");
    assert!(screen.onsubmit().is_request());
    let next = screen.on_outcome(
        &mut ctx,
        ApiOutcome::Success(Some("{\"session\":\"tok123\"}".to_string())),
    );
    assert_eq!(next, Directive::Navigate(Route::SigninMfa));
    assert_eq!(ctx.email, "a@b.com");
    assert_eq!(ctx.session, "tok123");
    assert_eq!(screen.state.message, "");
}

#[test]
fn signin_unreadable_answer_stays_with_a_message() {
    let mut ctx = context("old@x.com", "stale");
    let mut screen = use_signin_state();
    screen.handle_email_input("a@b.com");
    screen.handle_password_input("x");
    screen.onsubmit();
    let next = screen.on_outcome(&mut ctx, ApiOutcome::Success(Some("not json".to_string())));
    assert_eq!(next, Directive::Stay);
    assert_eq!(screen.state.message, SIGNIN_UNREADABLE);
    assert_eq!(ctx, context("old@x.com", "stale"));
    assert_eq!(screen.state.email, "a@b.com");
    assert_eq!(screen.state.password, "x");
}

#[test]
fn signin_rejected_and_network_error_stay_with_a_message() {
    let mut ctx = AuthContext::new();
    let mut screen = use_signin_state();
    screen.handle_email_input("a@b.com");
    screen.handle_password_input("x");
    screen.onsubmit();
    assert_eq!(screen.on_outcome(&mut ctx, ApiOutcome::Rejected(401)), Directive::Stay);
    assert_eq!(screen.state.message, SIGNIN_REJECTED);
    assert_eq!(ctx, AuthContext::new());
    screen.onsubmit();
    assert_eq!(screen.on_outcome(&mut ctx, ApiOutcome::NetworkError), Directive::Stay);
    assert_eq!(screen.state.message, SIGNIN_NETWORK_ERROR);
    assert_eq!(ctx, AuthContext::new());
}

#[test]
fn signin_needs_both_fields() {
    let mut screen = use_signin_state();
    assert_eq!(screen.state, SigninFormState::default());
    assert!(!screen.is_valid());
    assert_eq!(screen.onsubmit(), Directive::Stay);
    screen.handle_email_input("a@b.com");
    assert!(!screen.is_valid());
    assert_eq!(screen.onsubmit(), Directive::Stay);
    screen.handle_email_input("");
    screen.handle_password_input("x");
    assert!(!screen.is_valid());
    assert_eq!(screen.onsubmit(), Directive::Stay);
    assert_eq!(screen.in_flight, None);
    screen.handle_email_input("not an address");
    assert!(screen.is_valid());
    assert!(screen.can_submit());
    assert!(screen.onsubmit().is_request());
}

#[test]
fn signin_sends_one_request_at_a_time() {
    let mut ctx = AuthContext::new();
    let mut screen = use_signin_state();
    screen.handle_email_input("a@b.com");
    screen.handle_password_input("x");
    assert!(screen.onsubmit().is_request());
    assert!(screen.is_valid());
    assert!(!screen.can_submit());
    assert_eq!(screen.onsubmit(), Directive::Stay);
    screen.on_outcome(&mut ctx, ApiOutcome::Rejected(400));
    assert!(screen.can_submit());
    assert!(screen.onsubmit().is_request());
}

#[test]
fn signin_uses_the_address_that_was_submitted() {
    let mut ctx = AuthContext::new();
    let mut screen = use_signin_state();
    screen.handle_email_input("a@b.com");
    screen.handle_password_input("x");
    screen.onsubmit();
    screen.handle_email_input("typed@later.com");
    let next = screen.on_reply(&mut ctx, SigninReply::SignedIn("t".to_string()));
    assert_eq!(next, Directive::Navigate(Route::SigninMfa));
    assert_eq!(ctx, context("a@b.com", "t"));
    assert_eq!(screen.state.email, "typed@later.com");
}

#[test]
fn signin_ignores_an_answer_that_it_does_not_wait_for() {
    let mut ctx = context("keep@x.com", "keep");
    let mut screen = use_signin_state();
    screen.handle_email_input("a@b.com");
    let before = screen.clone();
    assert_eq!(
        screen.on_outcome(&mut ctx, ApiOutcome::Success(Some("{\"session\":\"t\"}".to_string()))),
        Directive::Stay
    );
    assert_eq!(screen.on_outcome(&mut ctx, ApiOutcome::Forbidden(403)), Directive::Stay);
    assert_eq!(screen.on_outcome(&mut ctx, ApiOutcome::NetworkError), Directive::Stay);
    assert_eq!(screen, before);
    assert_eq!(ctx, context("keep@x.com", "keep"));
}

#[test]
fn signin_without_session_in_the_answer_gives_an_empty_token() {
    let mut ctx = context("old@x.com", "stale");
    let mut screen = use_signin_state();
    screen.handle_email_input("a@b.com");
    screen.handle_password_input("x");
    screen.onsubmit();
    let next = screen.on_outcome(&mut ctx, ApiOutcome::Success(Some("{}".to_string())));
    assert_eq!(next, Directive::Navigate(Route::SigninMfa));
    assert_eq!(ctx, context("a@b.com", ""));
    let mfa = use_signin_mfa_state(&ctx, "https://example.com".to_string());
    assert_eq!(mfa.guard(), Directive::Navigate(Route::Signin));
}

// Second factor

#[test]
fn mfa_without_email_redirects_to_signin() {
    let ctx = context("", "tok");
    let mut screen = use_signin_mfa_state(&ctx, "https://example.com/home".to_string());
    assert_eq!(screen.guard(), Directive::Navigate(Route::Signin));
    screen.on_input("123456");
    assert_eq!(screen.on_submit(), Directive::Navigate(Route::Signin));
    assert!(!screen.in_flight);
}

#[test]
fn mfa_without_session_redirects_to_signin() {
    let ctx = context("a@b.com", "");
    let mut screen = use_signin_mfa_state(&ctx, "https://example.com/home".to_string());
    assert_eq!(screen.guard(), Directive::Navigate(Route::Signin));
    screen.on_input("123456");
    assert_eq!(screen.on_submit(), Directive::Navigate(Route::Signin));
    let empty = use_signin_mfa_state(&AuthContext::new(), String::new());
    assert_eq!(empty.guard(), Directive::Navigate(Route::Signin));
}

#[test]
fn mfa_sends_a_code_of_six_digits() {
    let ctx = context("a@b.com", "tok123");
    let mut screen = use_signin_mfa_state(&ctx, "https://example.com/home".to_string());
    assert_eq!(screen.guard(), Directive::Stay);
    assert_eq!(screen.state.email, "a@b.com");
    assert_eq!(screen.state.session, "tok123");
    assert!(!screen.is_valid());
    assert_eq!(screen.on_submit(), Directive::Stay);
    for bad in ["12345", "1234567", "12345a", "abcdef", " 123456"] {
        screen.on_input(bad);
        assert!(!screen.is_valid(), "{}", bad);
        assert_eq!(screen.on_submit(), Directive::Stay, "{}", bad);
    }
    screen.on_input("123456");
    assert!(screen.is_valid());
    assert_eq!(
        screen.on_submit(),
        Directive::Send(ApiRequest::VerifyMfa {
            email: "a@b.com".to_string(),
            code: "123456".to_string(),
            session: "tok123".to_string(),
        })
    );
    assert_eq!(screen.on_submit(), Directive::Stay);
}

#[test]
fn mfa_accepted_leaves_for_the_configured_address() {
    let ctx = context("a@b.com", "tok123");
    let mut screen = use_signin_mfa_state(&ctx, "https://example.com/home".to_string());
    screen.on_input("123456");
    screen.on_submit();
    assert_eq!(
        screen.on_outcome(ApiOutcome::Success(None)),
        Directive::Leave("https://example.com/home".to_string())
    );
    assert_eq!(screen.state.message, "");
    assert!(!screen.in_flight);
}

#[test]
fn mfa_refused_code_stays_with_a_message() {
    let ctx = context("a@b.com", "tok123");
    let mut screen = use_signin_mfa_state(&ctx, "https://example.com/home".to_string());
    screen.on_input("123456");
    screen.on_submit();
    assert_eq!(screen.on_outcome(ApiOutcome::Rejected(400)), Directive::Stay);
    assert_eq!(screen.state.message, MFA_REJECTED);
    screen.on_submit();
    assert_eq!(screen.on_outcome(ApiOutcome::Forbidden(403)), Directive::Stay);
    assert_eq!(screen.state.message, MFA_REJECTED);
    screen.on_submit();
    assert_eq!(screen.on_outcome(ApiOutcome::NetworkError), Directive::Stay);
    assert_eq!(screen.state.message, MFA_NETWORK_ERROR);
    assert_eq!(screen.on_outcome(ApiOutcome::Success(None)), Directive::Stay);
    assert_eq!(screen.state.message, MFA_NETWORK_ERROR);
}

// Sign-up

#[test]
fn signup_starts_empty() {
    let screen = use_signup_state();
    assert_eq!(screen.state, SignupFormState::default());
    assert_eq!(screen.state.email, "");
    assert_eq!(screen.state.password_rules, PasswordRulesState::default());
    assert!(!screen.state.is_password_first_input);
    assert!(!screen.state.submitted);
    assert!(!screen.is_valid());
    assert_eq!(screen.in_flight, None);
}

#[test]
fn signup_checks_the_password_while_it_is_typed() {
    let mut screen = use_signup_state();
    screen.handle_password_input("abc");
    assert_eq!(screen.state.password, "abc");
    assert_eq!(screen.state.password_error, Some(PASSWORD_LENGTH.to_string()));
    assert!(screen.state.is_password_first_input);
    assert_eq!(
        screen.state.password_rules,
        PasswordRulesState { length: false, number: false, lowercase: true, uppercase: false, symbol: false }
    );
    assert_eq!(screen.state.confirm_error, None);
    screen.handle_password_input("abcdefgh");
    assert_eq!(screen.state.password_error, Some(PASSWORD_NUMBER.to_string()));
    screen.handle_password_input("Password1!");
    assert_eq!(screen.state.password_error, None);
    assert_eq!(
        screen.state.password_rules,
        PasswordRulesState { length: true, number: true, lowercase: true, uppercase: true, symbol: true }
    );
    screen.handle_password_input("");
    assert!(screen.state.is_password_first_input);
    assert_eq!(screen.state.password_error, Some(PASSWORD_LENGTH.to_string()));
}

#[test]
fn signup_checks_the_other_fields_after_the_first_submission() {
    let mut screen = use_signup_state();
    screen.handle_email_input("invalid");
    assert_eq!(screen.state.email, "invalid");
    assert_eq!(screen.state.email_error, None);
    screen.handle_confirm_input("x");
    assert_eq!(screen.state.confirm_password, "x");
    assert_eq!(screen.state.confirm_error, None);
    assert!(!screen.state.is_password_first_input);

    assert_eq!(screen.onsubmit(), Directive::Stay);
    assert!(screen.state.submitted);
    assert_eq!(screen.state.email_error, Some(EMAIL_FORMAT.to_string()));
    assert_eq!(screen.state.password_error, Some(PASSWORD_LENGTH.to_string()));
    assert_eq!(screen.state.confirm_error, Some(CONFIRM_MISMATCH.to_string()));
    assert!(!screen.is_valid());

    screen.handle_email_input("");
    assert_eq!(screen.state.email_error, Some(EMAIL_REQUIRED.to_string()));
    screen.handle_email_input("a@b.com");
    assert_eq!(screen.state.email_error, None);
    screen.handle_password_input("Password1!");
    assert_eq!(screen.state.password_error, None);
    assert_eq!(screen.state.confirm_error, Some(CONFIRM_MISMATCH.to_string()));
    screen.handle_confirm_input("Password1!");
    assert_eq!(screen.state.confirm_error, None);
    assert!(screen.is_valid());
    screen.handle_password_input("Password2!");
    assert_eq!(screen.state.confirm_error, Some(CONFIRM_MISMATCH.to_string()));
    assert!(!screen.is_valid());
}

#[test]
fn signup_accepted_goes_to_confirm() {
    let mut ctx = context("old@x.com", "stale");
    let mut screen = use_signup_state();
    screen.handle_email_input("new@example.com");
    screen.handle_password_input("Password1!");
    screen.handle_confirm_input("Password1!");
    assert!(screen.is_valid());
    assert_eq!(
        screen.onsubmit(),
        Directive::Send(ApiRequest::SignUp {
            email: "new@example.com".to_string(),
            password: "Password1!".to_string(),
        })
    );
    assert!(screen.state.submitted);
    assert!(screen.is_valid());
    assert_eq!(screen.onsubmit(), Directive::Stay);
    let next = screen.on_outcome(&mut ctx, ApiOutcome::Success(None));
    assert_eq!(next, Directive::Navigate(Route::SignupConfirm));
    assert_eq!(ctx, context("new@example.com", ""));
    assert_eq!(screen.state.message, "");
}

#[test]
fn signup_refused_stays_with_a_message() {
    let mut ctx = context("old@x.com", "stale");
    let mut screen = use_signup_state();
    screen.handle_email_input("new@example.com");
    screen.handle_password_input("Password1!");
    screen.handle_confirm_input("Password1!");
    assert!(screen.onsubmit().is_request());
    assert_eq!(screen.on_outcome(&mut ctx, ApiOutcome::Rejected(409)), Directive::Stay);
    assert_eq!(screen.state.message, SIGNUP_FAILED);
    assert_eq!(ctx, context("old@x.com", "stale"));
    assert!(screen.onsubmit().is_request());
    assert_eq!(screen.on_outcome(&mut ctx, ApiOutcome::Forbidden(403)), Directive::Stay);
    assert_eq!(screen.state.message, SIGNUP_FAILED);
    assert!(screen.onsubmit().is_request());
    assert_eq!(screen.on_outcome(&mut ctx, ApiOutcome::NetworkError), Directive::Stay);
    assert_eq!(screen.state.message, SIGNUP_NETWORK_ERROR);
    assert_eq!(ctx, context("old@x.com", "stale"));
    assert_eq!(screen.on_outcome(&mut ctx, ApiOutcome::Success(None)), Directive::Stay);
    assert_eq!(ctx, context("old@x.com", "stale"));
}

#[test]
fn signup_with_one_wrong_field_is_not_sent() {
    let mut screen = use_signup_state();
    screen.handle_email_input("new@example.com");
    screen.handle_password_input("Password1!");
    screen.handle_confirm_input("Password1");
    assert!(screen.is_valid());
    assert_eq!(screen.onsubmit(), Directive::Stay);
    assert_eq!(screen.state.email_error, None);
    assert_eq!(screen.state.password_error, None);
    assert_eq!(screen.state.confirm_error, Some(CONFIRM_MISMATCH.to_string()));
    assert_eq!(screen.in_flight, None);
    assert!(!screen.is_valid());
}

// Confirmation code

#[test]
fn confirm_without_account_redirects_to_signin() {
    let ctx = AuthContext::new();
    assert_eq!(ConfirmForm::guard(&ctx), Directive::Navigate(Route::Signin));
    assert_eq!(ConfirmForm::guard(&context("a@b.com", "")), Directive::Stay);
    let mut screen = use_confirm_state();
    screen.on_input("123");
    assert_eq!(screen.on_submit(&ctx), Directive::Navigate(Route::Signin));
    assert_eq!(screen.on_resend(&ctx), Directive::Navigate(Route::Signin));
    assert_eq!(screen.in_flight, None);
}

#[test]
fn confirm_accepted_completes_the_registration() {
    let ctx = context("a@b.com", "");
    let mut screen = use_confirm_state();
    assert!(!screen.is_valid());
    screen.on_input("anything goes");
    assert!(screen.is_valid());
    assert_eq!(
        screen.on_submit(&ctx),
        Directive::Send(ApiRequest::ConfirmSignup {
            email: "a@b.com".to_string(),
            code: "anything goes".to_string(),
        })
    );
    assert_eq!(screen.in_flight, Some(ConfirmCall::Confirm));
    assert_eq!(screen.on_submit(&ctx), Directive::Stay);
    assert_eq!(screen.on_resend(&ctx), Directive::Stay);
    assert_eq!(
        screen.on_outcome(ApiOutcome::Success(None)),
        Directive::Navigate(Route::SignupConfirmComplete)
    );
    assert_eq!(screen.state.message, "");
    assert_eq!(screen.in_flight, None);
}

#[test]
fn confirm_refused_stays_with_a_message() {
    let ctx = context("a@b.com", "");
    let mut screen = use_confirm_state();
    screen.on_input("000");
    screen.on_submit(&ctx);
    assert_eq!(screen.on_outcome(ApiOutcome::Rejected(400)), Directive::Stay);
    assert_eq!(screen.state.message, CONFIRM_FAILED);
    assert_eq!(screen.state.code, "000");
    screen.on_submit(&ctx);
    assert_eq!(screen.on_outcome(ApiOutcome::NetworkError), Directive::Stay);
    assert_eq!(screen.state.message, CONFIRM_NETWORK_ERROR);
}

#[test]
fn resend_only_changes_the_message() {
    let ctx = context("a@b.com", "");
    let mut screen = use_confirm_state();
    screen.on_input("12");
    assert_eq!(
        screen.on_resend(&ctx),
        Directive::Send(ApiRequest::ResendConfirmCode { email: "a@b.com".to_string() })
    );
    assert_eq!(screen.in_flight, Some(ConfirmCall::Resend));
    assert_eq!(screen.on_outcome(ApiOutcome::Success(None)), Directive::Stay);
    assert_eq!(screen.state.message, RESEND_DONE);
    assert_eq!(screen.state.code, "12");
    screen.on_resend(&ctx);
    assert_eq!(screen.on_outcome(ApiOutcome::Rejected(500)), Directive::Stay);
    assert_eq!(screen.state.message, RESEND_FAILED);
    screen.on_resend(&ctx);
    assert_eq!(screen.on_outcome(ApiOutcome::NetworkError), Directive::Stay);
    assert_eq!(screen.state.message, CONFIRM_NETWORK_ERROR);
    assert_eq!(screen.on_outcome(ApiOutcome::Success(None)), Directive::Stay);
    assert_eq!(screen.state.message, CONFIRM_NETWORK_ERROR);
}

// Password reset: request

#[test]
fn reset_request_checks_the_address_on_every_keystroke() {
    let mut screen = use_password_reset_request_state();
    assert!(!screen.is_valid());
    screen.on_input("a");
    assert_eq!(screen.state.email_error, Some(EMAIL_FORMAT.to_string()));
    assert!(!screen.is_valid());
    screen.on_input("a@b.com");
    assert_eq!(screen.state.email_error, None);
    assert!(screen.is_valid());
    screen.on_input("");
    assert_eq!(screen.state.email_error, Some(EMAIL_REQUIRED.to_string()));
    assert!(!screen.is_valid());
}

#[test]
fn reset_request_is_sent_for_a_valid_address_only() {
    let mut screen = use_password_reset_request_state();
    assert_eq!(screen.on_submit(), Directive::Stay);
    assert_eq!(screen.state.email_error, Some(EMAIL_REQUIRED.to_string()));
    screen.on_input("nope");
    assert_eq!(screen.on_submit(), Directive::Stay);
    assert!(!screen.in_flight);
    screen.on_input("a@b.com");
    assert_eq!(
        screen.on_submit(),
        Directive::Send(ApiRequest::RequestPasswordReset { email: "a@b.com".to_string() })
    );
    assert_eq!(screen.on_submit(), Directive::Stay);
}

#[test]
fn reset_request_outcomes_only_change_the_message() {
    let mut screen = use_password_reset_request_state();
    screen.on_input("a@b.com");
    screen.on_submit();
    assert_eq!(screen.on_outcome(ApiOutcome::Success(None)), Directive::Stay);
    assert_eq!(screen.state.message, RESET_CODE_SENT);
    screen.on_submit();
    assert_eq!(screen.on_outcome(ApiOutcome::Rejected(404)), Directive::Stay);
    assert_eq!(screen.state.message, RESET_REQUEST_FAILED);
    screen.on_submit();
    assert_eq!(screen.on_outcome(ApiOutcome::NetworkError), Directive::Stay);
    assert_eq!(screen.state.message, RESET_REQUEST_NETWORK_ERROR);
    assert_eq!(screen.on_outcome(ApiOutcome::Success(None)), Directive::Stay);
    assert_eq!(screen.state.message, RESET_REQUEST_NETWORK_ERROR);
    assert_eq!(screen.state.email, "a@b.com");
}

// Password reset: code

#[test]
fn reset_code_accepted_goes_to_the_new_password() {
    let mut screen = password_reset_mfa_page();
    assert!(!screen.is_valid());
    screen.handle_username_input("user");
    assert!(!screen.is_valid());
    screen.handle_code_input("123456");
    assert!(screen.is_valid());
    assert_eq!(
        screen.onsubmit(),
        Directive::Send(ApiRequest::VerifyPasswordResetMfa {
            username: "user".to_string(),
            code: "123456".to_string(),
        })
    );
    assert_eq!(screen.onsubmit(), Directive::Stay);
    assert_eq!(
        screen.on_outcome(ApiOutcome::Success(None)),
        Directive::Navigate(Route::PasswordReset)
    );
    assert_eq!(screen.message, "");
}

#[test]
fn reset_code_refused_stays_with_a_message() {
    let mut screen = password_reset_mfa_page();
    screen.handle_username_input("user");
    screen.handle_code_input("1");
    screen.onsubmit();
    assert_eq!(screen.on_outcome(ApiOutcome::Rejected(400)), Directive::Stay);
    assert_eq!(screen.message, RESET_MFA_FAILED);
    screen.onsubmit();
    assert_eq!(screen.on_outcome(ApiOutcome::NetworkError), Directive::Stay);
    assert_eq!(screen.message, RESET_MFA_NETWORK_ERROR);
    assert_eq!(screen.on_outcome(ApiOutcome::Success(None)), Directive::Stay);
    assert_eq!(screen.username, "user");
    assert_eq!(screen.code, "1");
}

// Password reset: new password

#[test]
fn reset_with_different_passwords_makes_no_request() {
    let mut screen = password_reset_page();
    screen.handle_username_input("user");
    screen.handle_new_password_input("Password1!");
    screen.handle_confirm_password_input("Password1! ");
    let before = screen.clone();
    assert_eq!(screen.onsubmit(), Directive::Stay);
    assert_eq!(screen.message, RESET_MISMATCH);
    assert_eq!(screen.username, before.username);
    assert_eq!(screen.new_password, before.new_password);
    assert_eq!(screen.confirm_password, before.confirm_password);
    assert_eq!(screen.in_flight, before.in_flight);
    assert!(!screen.in_flight);
}

#[test]
fn reset_with_matching_passwords_is_sent() {
    let mut screen = password_reset_page();
    assert!(!screen.is_valid());
    screen.handle_username_input("user");
    screen.handle_new_password_input("Password1!");
    assert!(!screen.is_valid());
    screen.handle_confirm_password_input("Password1!");
    assert!(screen.is_valid());
    assert_eq!(
        screen.onsubmit(),
        Directive::Send(ApiRequest::ConfirmPasswordReset {
            username: "user".to_string(),
            new_password: "Password1!".to_string(),
        })
    );
    assert_eq!(screen.message, "");
    assert_eq!(screen.onsubmit(), Directive::Stay);
    assert_eq!(screen.on_outcome(ApiOutcome::Success(None)), Directive::Stay);
    assert_eq!(screen.message, RESET_DONE);
    screen.onsubmit();
    assert_eq!(screen.on_outcome(ApiOutcome::Rejected(400)), Directive::Stay);
    assert_eq!(screen.message, RESET_FAILED);
    screen.onsubmit();
    assert_eq!(screen.on_outcome(ApiOutcome::NetworkError), Directive::Stay);
    assert_eq!(screen.message, RESET_NETWORK_ERROR);
    assert_eq!(screen.on_outcome(ApiOutcome::Success(None)), Directive::Stay);
    assert_eq!(screen.message, RESET_NETWORK_ERROR);
}

#[test]
fn reset_mismatch_is_reported_while_a_change_is_under_way() {
    let mut screen = password_reset_page();
    screen.handle_new_password_input("a");
    screen.handle_confirm_password_input("a");
    assert!(screen.onsubmit().is_request());
    screen.handle_confirm_password_input("b");
    assert_eq!(screen.onsubmit(), Directive::Stay);
    assert_eq!(screen.message, RESET_MISMATCH);
    assert!(screen.in_flight);
}

// The button that submits

#[test]
fn submit_is_enabled_for_a_valid_form_with_no_request_under_way() {
    let mut signup = use_signup_state();
    assert!(!signup.can_submit());
    signup.handle_email_input("new@example.com");
    signup.handle_password_input("Password1!");
    signup.handle_confirm_input("Password1!");
    assert!(signup.can_submit());
    assert!(signup.onsubmit().is_request());
    assert!(signup.is_valid());
    assert!(!signup.can_submit());

    let ctx = context("a@b.com", "tok");
    let mut confirm = use_confirm_state();
    assert!(!confirm.can_submit());
    confirm.on_input("1");
    assert!(confirm.can_submit());
    confirm.on_resend(&ctx);
    assert!(confirm.is_valid());
    assert!(!confirm.can_submit());
    confirm.on_outcome(ApiOutcome::Success(None));
    assert!(confirm.can_submit());

    let mut mfa = use_signin_mfa_state(&ctx, String::new());
    assert!(!mfa.can_submit());
    mfa.on_input("123456");
    assert!(mfa.can_submit());
    mfa.on_submit();
    assert!(mfa.is_valid());
    assert!(!mfa.can_submit());

    let mut request = use_password_reset_request_state();
    assert!(!request.can_submit());
    request.on_input("a@b.com");
    assert!(request.can_submit());
    request.on_submit();
    assert!(request.is_valid());
    assert!(!request.can_submit());

    let mut code = password_reset_mfa_page();
    assert!(!code.can_submit());
    code.handle_username_input("user");
    assert!(!code.can_submit());
    code.handle_code_input("1");
    assert!(code.can_submit());
    code.onsubmit();
    assert!(code.is_valid());
    assert!(!code.can_submit());

    let mut reset = password_reset_page();
    assert!(!reset.can_submit());
    reset.handle_username_input("user");
    reset.handle_new_password_input("a");
    assert!(!reset.can_submit());
    reset.handle_confirm_password_input("a");
    assert!(reset.can_submit());
    reset.onsubmit();
    assert!(reset.is_valid());
    assert!(!reset.can_submit());
}
