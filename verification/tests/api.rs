use halal_certification_auth::api::{
    classify_response, ApiOutcome, ApiRequest, Endpoint, CONTENT_TYPE, CONTENT_TYPE_HEADER,
    METHOD,
};
use halal_certification_auth::features::auth::commons::flow::Directive;
use halal_certification_auth::features::auth::commons::validation::is_mfa_code;
use halal_certification_auth::features::auth::hooks::use_signin_state::{
    interpret, read_session, SigninReply,
};
use halal_certification_auth::routes::Route;

#[test]
fn endpoints_have_their_paths() {
    assert_eq!(Endpoint::SignUp.to_path(), "/api/auth/signup");
    assert_eq!(Endpoint::ConfirmSignup.to_path(), "/api/auth/signup/confirm");
    assert_eq!(Endpoint::ResendConfirmCode.to_path(), "/api/auth/resend-code");
    assert_eq!(Endpoint::SignIn.to_path(), "/api/auth/signin");
    assert_eq!(Endpoint::VerifyMfa.to_path(), "/api/auth/mfa");
    assert_eq!(Endpoint::RequestPasswordReset.to_path(), "/api/auth/forgot-password");
    assert_eq!(Endpoint::VerifyPasswordResetMfa.to_path(), "/api/auth/mfa");
    assert_eq!(Endpoint::ConfirmPasswordReset.to_path(), "/api/auth/forgot-password/confirm");
}

#[test]
fn requests_are_json_posts() {
    assert_eq!(METHOD, "POST");
    assert_eq!(CONTENT_TYPE_HEADER, "Content-Type");
    assert_eq!(CONTENT_TYPE, "application/json");
}

#[test]
fn requests_name_their_endpoint() {
    let s = |t: &str| t.to_string();
    assert_eq!(ApiRequest::SignUp { email: s("a"), password: s("b") }.endpoint(), Endpoint::SignUp);
    assert_eq!(
        ApiRequest::ConfirmSignup { email: s("a"), code: s("b") }.endpoint(),
        Endpoint::ConfirmSignup
    );
    assert_eq!(
        ApiRequest::ResendConfirmCode { email: s("a") }.endpoint(),
        Endpoint::ResendConfirmCode
    );
    assert_eq!(ApiRequest::SignIn { email: s("a"), password: s("b") }.endpoint(), Endpoint::SignIn);
    assert_eq!(
        ApiRequest::VerifyMfa { email: s("a"), code: s("b"), session: s("c") }.endpoint(),
        Endpoint::VerifyMfa
    );
    assert_eq!(
        ApiRequest::RequestPasswordReset { email: s("a") }.endpoint(),
        Endpoint::RequestPasswordReset
    );
    assert_eq!(
        ApiRequest::VerifyPasswordResetMfa { username: s("a"), code: s("b") }.endpoint(),
        Endpoint::VerifyPasswordResetMfa
    );
    assert_eq!(
        ApiRequest::ConfirmPasswordReset { username: s("a"), new_password: s("b") }.endpoint(),
        Endpoint::ConfirmPasswordReset
    );
}

#[test]
fn statuses_from_200_to_299_are_accepted() {
    for status in [200u16, 201, 204, 250, 299] {
        assert_eq!(classify_response(status, None), ApiOutcome::Success(None));
        assert_eq!(
            classify_response(status, Some("body".to_string())),
            ApiOutcome::Success(Some("body".to_string()))
        );
    }
}

#[test]
fn status_403_is_the_unconfirmed_account() {
    assert_eq!(classify_response(403, None), ApiOutcome::Forbidden(403));
    assert_eq!(classify_response(403, Some("x".to_string())), ApiOutcome::Forbidden(403));
}

#[test]
fn every_other_status_is_rejected() {
    for status in [0u16, 100, 199, 300, 301, 400, 401, 402, 404, 409, 500, 503, 65535] {
        assert_eq!(classify_response(status, None), ApiOutcome::Rejected(status));
        assert_eq!(
            classify_response(status, Some("ignored".to_string())),
            ApiOutcome::Rejected(status)
        );
    }
}

#[test]
fn session_is_read_from_the_answer() {
    let body = |t: &str| ApiOutcome::Success(Some(t.to_string()));
    assert_eq!(interpret(body("{\"session\":\"tok123\"}")), SigninReply::SignedIn("tok123".to_string()));
    assert_eq!(
        interpret(body(" { \"other\": 1, \"session\" : \"a\\\"b\" } ")),
        SigninReply::SignedIn("a\"b".to_string())
    );
    assert_eq!(interpret(body("{\"session\":\"\"}")), SigninReply::SignedIn(String::new()));
}

#[test]
fn answer_without_a_session_string_signs_in_with_an_empty_token() {
    let body = |t: &str| ApiOutcome::Success(Some(t.to_string()));
    assert_eq!(interpret(body("{}")), SigninReply::SignedIn(String::new()));
    assert_eq!(interpret(body("{\"session\":12}")), SigninReply::SignedIn(String::new()));
    assert_eq!(interpret(body("{\"session\":null}")), SigninReply::SignedIn(String::new()));
    assert_eq!(interpret(body("{\"Session\":\"tok\"}")), SigninReply::SignedIn(String::new()));
    assert_eq!(interpret(body("[\"session\"]")), SigninReply::SignedIn(String::new()));
    assert_eq!(interpret(body("\"session\"")), SigninReply::SignedIn(String::new()));
    assert_eq!(interpret(body("null")), SigninReply::SignedIn(String::new()));
}

#[test]
fn answer_that_is_not_json_is_unreadable() {
    let body = |t: &str| ApiOutcome::Success(Some(t.to_string()));
    assert_eq!(interpret(body("")), SigninReply::Unreadable);
    assert_eq!(interpret(body("session")), SigninReply::Unreadable);
    assert_eq!(interpret(body("{\"session\":\"tok\"")), SigninReply::Unreadable);
    assert_eq!(interpret(body("{\"session\":\"tok\"} x")), SigninReply::Unreadable);
    assert_eq!(interpret(body("<html></html>")), SigninReply::Unreadable);
    assert_eq!(interpret(ApiOutcome::Success(None)), SigninReply::Unreadable);
}

#[test]
fn other_outcomes_of_a_sign_in() {
    assert_eq!(interpret(ApiOutcome::Forbidden(403)), SigninReply::Unconfirmed);
    assert_eq!(interpret(ApiOutcome::Rejected(401)), SigninReply::Rejected);
    assert_eq!(interpret(ApiOutcome::Rejected(500)), SigninReply::Rejected);
    assert_eq!(interpret(ApiOutcome::NetworkError), SigninReply::NetworkError);
}

#[test]
fn read_session_decides_from_what_was_read() {
    assert_eq!(read_session(None), SigninReply::Unreadable);
    assert_eq!(read_session(Some(None)), SigninReply::SignedIn(String::new()));
    assert_eq!(
        read_session(Some(Some("tok".to_string()))),
        SigninReply::SignedIn("tok".to_string())
    );
}

#[test]
fn mfa_code_is_six_ascii_digits() {
    assert!(is_mfa_code("000000"));
    assert!(is_mfa_code("123456"));
    assert!(is_mfa_code("999999"));
    assert!(!is_mfa_code(""));
    assert!(!is_mfa_code("12345"));
    assert!(!is_mfa_code("1234567"));
    assert!(!is_mfa_code("12345a"));
    assert!(!is_mfa_code("a23456"));
    assert!(!is_mfa_code("12 456"));
    assert!(!is_mfa_code("１２３４５６"));
    assert!(!is_mfa_code("１２"));
    assert!(!is_mfa_code("12345/"));
    assert!(!is_mfa_code("12345:"));
    assert!(!is_mfa_code("-12345"));
}

#[test]
fn directive_tells_a_request_apart() {
    assert!(Directive::Send(ApiRequest::ResendConfirmCode { email: "a".to_string() }).is_request());
    assert!(!Directive::Stay.is_request());
    assert!(!Directive::Navigate(Route::Signin).is_request());
    assert!(!Directive::Leave("x".to_string()).is_request());
}
