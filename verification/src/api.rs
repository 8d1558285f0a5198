//! The contract with the authentication service: where each operation is sent, what it
//! carries, and how an answer is classified.

use vstd::prelude::*;

verus! {

/// Every request is a `POST`.
pub const METHOD: &'static str = "POST";

/// Every request names its body as JSON in this header.
pub const CONTENT_TYPE_HEADER: &'static str = "Content-Type";

/// The value of that header.
pub const CONTENT_TYPE: &'static str = "application/json";

/// An operation of the authentication service.
#[derive(Clone, Copy, Debug, PartialEq, Eq, Structural)]
pub enum Endpoint {
    SignUp,
    ConfirmSignup,
    ResendConfirmCode,
    SignIn,
    VerifyMfa,
    RequestPasswordReset,
    VerifyPasswordResetMfa,
    ConfirmPasswordReset,
}

impl Endpoint {
    /// The path of an operation. The second factor of the sign-in and that of the password
    /// reset are sent to the same path and are told apart by what they carry.
    pub open spec fn path(self) -> Seq<char> {
        match self {
            Endpoint::SignUp => "/api/auth/signup"@,
            Endpoint::ConfirmSignup => "/api/auth/signup/confirm"@,
            Endpoint::ResendConfirmCode => "/api/auth/resend-code"@,
            Endpoint::SignIn => "/api/auth/signin"@,
            Endpoint::VerifyMfa => "/api/auth/mfa"@,
            Endpoint::RequestPasswordReset => "/api/auth/forgot-password"@,
            Endpoint::VerifyPasswordResetMfa => "/api/auth/mfa"@,
            Endpoint::ConfirmPasswordReset => "/api/auth/forgot-password/confirm"@,
        }
    }

    /// The path to which an operation is posted.
    pub fn to_path(self) -> (r: &'static str)
        ensures
            r@ == self.path(),
    {
        match self {
            Endpoint::SignUp => "/api/auth/signup",
            Endpoint::ConfirmSignup => "/api/auth/signup/confirm",
            Endpoint::ResendConfirmCode => "/api/auth/resend-code",
            Endpoint::SignIn => "/api/auth/signin",
            Endpoint::VerifyMfa => "/api/auth/mfa",
            Endpoint::RequestPasswordReset => "/api/auth/forgot-password",
            Endpoint::VerifyPasswordResetMfa => "/api/auth/mfa",
            Endpoint::ConfirmPasswordReset => "/api/auth/forgot-password/confirm",
        }
    }
}

/// A request to the authentication service: the operation, with the fields of its body.
#[derive(Clone, Debug, PartialEq, Eq)]
pub enum ApiRequest {
    SignUp { email: String, password: String },
    ConfirmSignup { email: String, code: String },
    ResendConfirmCode { email: String },
    SignIn { email: String, password: String },
    VerifyMfa { email: String, code: String, session: String },
    RequestPasswordReset { email: String },
    VerifyPasswordResetMfa { username: String, code: String },
    ConfirmPasswordReset { username: String, new_password: String },
}

/// A request with its fields as texts.
pub enum Payload {
    SignUp { email: Seq<char>, password: Seq<char> },
    ConfirmSignup { email: Seq<char>, code: Seq<char> },
    ResendConfirmCode { email: Seq<char> },
    SignIn { email: Seq<char>, password: Seq<char> },
    VerifyMfa { email: Seq<char>, code: Seq<char>, session: Seq<char> },
    RequestPasswordReset { email: Seq<char> },
    VerifyPasswordResetMfa { username: Seq<char>, code: Seq<char> },
    ConfirmPasswordReset { username: Seq<char>, new_password: Seq<char> },
}

impl Payload {
    /// The operation that a request asks for.
    pub open spec fn endpoint(self) -> Endpoint {
        match self {
            Payload::SignUp { .. } => Endpoint::SignUp,
            Payload::ConfirmSignup { .. } => Endpoint::ConfirmSignup,
            Payload::ResendConfirmCode { .. } => Endpoint::ResendConfirmCode,
            Payload::SignIn { .. } => Endpoint::SignIn,
            Payload::VerifyMfa { .. } => Endpoint::VerifyMfa,
            Payload::RequestPasswordReset { .. } => Endpoint::RequestPasswordReset,
            Payload::VerifyPasswordResetMfa { .. } => Endpoint::VerifyPasswordResetMfa,
            Payload::ConfirmPasswordReset { .. } => Endpoint::ConfirmPasswordReset,
        }
    }
}

impl View for ApiRequest {
    type V = Payload;

    open spec fn view(&self) -> Payload {
        match self {
            ApiRequest::SignUp { email, password } => Payload::SignUp {
                email: email@,
                password: password@,
            },
            ApiRequest::ConfirmSignup { email, code } => Payload::ConfirmSignup {
                email: email@,
                code: code@,
            },
            ApiRequest::ResendConfirmCode { email } => Payload::ResendConfirmCode {
                email: email@,
            },
            ApiRequest::SignIn { email, password } => Payload::SignIn {
                email: email@,
                password: password@,
            },
            ApiRequest::VerifyMfa { email, code, session } => Payload::VerifyMfa {
                email: email@,
                code: code@,
                session: session@,
            },
            ApiRequest::RequestPasswordReset { email } => Payload::RequestPasswordReset {
                email: email@,
            },
            ApiRequest::VerifyPasswordResetMfa { username, code } => Payload::VerifyPasswordResetMfa {
                username: username@,
                code: code@,
            },
            ApiRequest::ConfirmPasswordReset { username, new_password } => Payload::ConfirmPasswordReset {
                username: username@,
                new_password: new_password@,
            },
        }
    }
}

impl ApiRequest {
    /// The operation that the request asks for.
    pub fn endpoint(&self) -> (r: Endpoint)
        ensures
            r == self@.endpoint(),
    {
        match self {
            ApiRequest::SignUp { .. } => Endpoint::SignUp,
            ApiRequest::ConfirmSignup { .. } => Endpoint::ConfirmSignup,
            ApiRequest::ResendConfirmCode { .. } => Endpoint::ResendConfirmCode,
            ApiRequest::SignIn { .. } => Endpoint::SignIn,
            ApiRequest::VerifyMfa { .. } => Endpoint::VerifyMfa,
            ApiRequest::RequestPasswordReset { .. } => Endpoint::RequestPasswordReset,
            ApiRequest::VerifyPasswordResetMfa { .. } => Endpoint::VerifyPasswordResetMfa,
            ApiRequest::ConfirmPasswordReset { .. } => Endpoint::ConfirmPasswordReset,
        }
    }
}

/// What became of a request.
#[derive(Clone, Debug, PartialEq, Eq)]
pub enum ApiOutcome {
    /// The service answered with a status from 200 to 299. The body is the text that was
    /// received, where it could be read.
    Success(Option<String>),
    /// The service answered 403: the account exists and is not confirmed yet.
    Forbidden(u16),
    /// The service answered with any other status.
    Rejected(u16),
    /// No answer was received.
    NetworkError,
}

/// An outcome with its body as text.
pub enum Outcome {
    Success(Option<Seq<char>>),
    Forbidden(u16),
    Rejected(u16),
    NetworkError,
}

impl View for ApiOutcome {
    type V = Outcome;

    open spec fn view(&self) -> Outcome {
        match self {
            ApiOutcome::Success(body) => Outcome::Success(crate::text::text_of(*body)),
            ApiOutcome::Forbidden(status) => Outcome::Forbidden(*status),
            ApiOutcome::Rejected(status) => Outcome::Rejected(*status),
            ApiOutcome::NetworkError => Outcome::NetworkError,
        }
    }
}

/// The status that tells that an account is not confirmed yet.
pub const FORBIDDEN: u16 = 403;

/// The class of an answer with a given status and body.
pub open spec fn classified(status: u16, body: Option<Seq<char>>) -> Outcome {
    if 200 <= status <= 299 {
        Outcome::Success(body)
    } else if status == FORBIDDEN {
        Outcome::Forbidden(status)
    } else {
        Outcome::Rejected(status)
    }
}

/// Classifies an answer of the service by its status. The body is kept for an accepted
/// request only.
pub fn classify_response(status: u16, body: Option<String>) -> (r: ApiOutcome)
    ensures
        r@ == classified(status, crate::text::text_of(body)),
{
    if 200 <= status && status <= 299 {
        ApiOutcome::Success(body)
    } else if status == FORBIDDEN {
        ApiOutcome::Forbidden(status)
    } else {
        ApiOutcome::Rejected(status)
    }
}

/// Every answer falls in exactly one class: accepted for the statuses from 200 to 299,
/// unconfirmed for 403, rejected for all others.
pub proof fn classes_partition_the_statuses(status: u16, body: Option<Seq<char>>)
    ensures
        classified(status, body) is Success <==> 200 <= status <= 299,
        classified(status, body) is Forbidden <==> status == 403,
        classified(status, body) is Rejected <==> !(200 <= status <= 299) && status != 403,
        !(classified(status, body) is NetworkError),
{
}

/// What `serde_json` reads from `text` under `key`: `None` where the text is not a JSON
/// document; else `Some(None)` where the document is not an object that holds a string
/// under the key, and the string where it is.
pub uninterp spec fn json_string_member(text: Seq<char>, key: Seq<char>) -> Option<
    Option<Seq<char>>,
>;

/// What was read of a member, as text.
pub open spec fn member_text(member: Option<Option<String>>) -> Option<Option<Seq<char>>> {
    match member {
        Some(found) => Some(crate::text::text_of(found)),
        None => None,
    }
}

/// `serde_json::from_str` into a `serde_json::Value`, then `Value::get` with the key and
/// `Value::as_str`. Trusted: the outcome is the one named by [`json_string_member`]; none
/// of the calls panics.
#[verifier::external_body]
pub(crate) fn read_string_member(text: &str, key: &str) -> (r: Option<Option<String>>)
    ensures
        member_text(r) == json_string_member(text@, key@),
{
    match serde_json::from_str::<serde_json::Value>(text) {
        Ok(document) => Some(
            document.get(key).and_then(serde_json::Value::as_str).map(String::from),
        ),
        Err(_) => None,
    }
}

} // verus!
