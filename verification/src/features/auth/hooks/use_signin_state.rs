//! The sign-in screen: an e-mail address and a password.
//!
//! An accepted sign-in answers with a JSON document whose `session` member is the token
//! for the second factor. An account that is not confirmed yet is sent to the screen for
//! the confirmation code instead of being told of a failure.

use crate::api::{
    json_string_member, member_text, read_string_member, ApiOutcome, ApiRequest, Outcome, Payload,
};
use crate::features::auth::commons::flow::{Directive, Step};
use crate::routes::Route;
use crate::text::text_of;
use crate::types::{AuthContext, Identity};
use vstd::prelude::*;

verus! {

/// The member of the answer that holds the session token.
pub const SESSION_KEY: &'static str = "session";

/// Shown when the sign-in was accepted and its answer could not be read.
pub const SIGNIN_UNREADABLE: &'static str =
    "サインイン成功しましたが、レスポンスの解析に失敗しました。";

/// Shown when the service refuses the sign-in.
pub const SIGNIN_REJECTED: &'static str = "メールまたはパスワードが違います";

/// Shown when no answer was received.
pub const SIGNIN_NETWORK_ERROR: &'static str = "ネットワークエラー";

/// What the sign-in form holds.
#[derive(Clone, Debug, PartialEq, Eq)]
pub struct SigninFormState {
    pub email: String,
    pub password: String,
    pub message: String,
}

/// The sign-in form as texts.
pub struct SigninFormModel {
    pub email: Seq<char>,
    pub password: Seq<char>,
    pub message: Seq<char>,
}

impl View for SigninFormState {
    type V = SigninFormModel;

    open spec fn view(&self) -> SigninFormModel {
        SigninFormModel { email: self.email@, password: self.password@, message: self.message@ }
    }
}

impl SigninFormModel {
    /// The form as it is first shown.
    pub open spec fn initial() -> SigninFormModel {
        SigninFormModel { email: Seq::empty(), password: Seq::empty(), message: Seq::empty() }
    }

    /// Whether the form may be submitted: both fields hold something.
    pub open spec fn valid(self) -> bool {
        self.email.len() > 0 && self.password.len() > 0
    }
}

impl Default for SigninFormState {
    fn default() -> (r: Self)
        ensures
            r@ == SigninFormModel::initial(),
    {
        SigninFormState { email: String::new(), password: String::new(), message: String::new() }
    }
}

/// What an answer to a sign-in means.
#[derive(Clone, Debug, PartialEq, Eq)]
pub enum SigninReply {
    /// Accepted, with the session token for the second factor. The token is empty where
    /// the answer names none.
    SignedIn(String),
    /// Accepted, but the answer is not a JSON document.
    Unreadable,
    /// The account is not confirmed yet.
    Unconfirmed,
    /// Refused.
    Rejected,
    /// No answer was received.
    NetworkError,
}

/// The meaning of an answer, with the token as text.
pub enum Reply {
    SignedIn(Seq<char>),
    Unreadable,
    Unconfirmed,
    Rejected,
    NetworkError,
}

impl View for SigninReply {
    type V = Reply;

    open spec fn view(&self) -> Reply {
        match self {
            SigninReply::SignedIn(session) => Reply::SignedIn(session@),
            SigninReply::Unreadable => Reply::Unreadable,
            SigninReply::Unconfirmed => Reply::Unconfirmed,
            SigninReply::Rejected => Reply::Rejected,
            SigninReply::NetworkError => Reply::NetworkError,
        }
    }
}

/// What an accepted sign-in means, given what was read of the `session` member of its
/// answer: a document without such a string still signs in, with an empty token.
pub open spec fn session_reply(member: Option<Option<Seq<char>>>) -> Reply {
    match member {
        Some(Some(session)) => Reply::SignedIn(session),
        Some(None) => Reply::SignedIn(Seq::empty()),
        None => Reply::Unreadable,
    }
}

/// What the outcome of a sign-in means.
pub open spec fn signin_reply(outcome: Outcome) -> Reply {
    match outcome {
        Outcome::Success(Some(body)) => session_reply(json_string_member(body, SESSION_KEY@)),
        Outcome::Success(None) => Reply::Unreadable,
        Outcome::Forbidden(_) => Reply::Unconfirmed,
        Outcome::Rejected(_) => Reply::Rejected,
        Outcome::NetworkError => Reply::NetworkError,
    }
}

/// Decides what an accepted sign-in means from what was read of the `session` member.
pub fn read_session(member: Option<Option<String>>) -> (r: SigninReply)
    ensures
        r@ == session_reply(member_text(member)),
{
    match member {
        Some(Some(session)) => SigninReply::SignedIn(session),
        Some(None) => SigninReply::SignedIn(String::new()),
        None => SigninReply::Unreadable,
    }
}

/// Reads the outcome of a sign-in.
pub fn interpret(outcome: ApiOutcome) -> (r: SigninReply)
    ensures
        r@ == signin_reply(outcome@),
{
    match outcome {
        ApiOutcome::Success(Some(body)) => read_session(
            read_string_member(body.as_str(), SESSION_KEY),
        ),
        ApiOutcome::Success(None) => SigninReply::Unreadable,
        ApiOutcome::Forbidden(_) => SigninReply::Unconfirmed,
        ApiOutcome::Rejected(_) => SigninReply::Rejected,
        ApiOutcome::NetworkError => SigninReply::NetworkError,
    }
}

/// The sign-in screen: its form, and the e-mail address of the sign-in that is under way,
/// if one is.
#[derive(Clone, Debug, PartialEq, Eq)]
pub struct SigninState {
    pub state: SigninFormState,
    pub in_flight: Option<String>,
}

/// The sign-in screen as texts, with the steps that it takes.
pub struct SigninModel {
    pub form: SigninFormModel,
    pub in_flight: Option<Seq<char>>,
}

impl View for SigninState {
    type V = SigninModel;

    open spec fn view(&self) -> SigninModel {
        SigninModel { form: self.state@, in_flight: text_of(self.in_flight) }
    }
}

impl SigninModel {
    /// The screen as it is first shown.
    pub open spec fn initial() -> SigninModel {
        SigninModel { form: SigninFormModel::initial(), in_flight: None }
    }

    /// A sign-in that is under way was sent for an account.
    pub open spec fn wf(self) -> bool {
        self.in_flight matches Some(email) ==> email.len() > 0
    }

    /// A keystroke in the e-mail field.
    pub open spec fn email_input(self, value: Seq<char>) -> SigninModel {
        SigninModel { form: SigninFormModel { email: value, ..self.form }, ..self }
    }

    /// A keystroke in the password field.
    pub open spec fn password_input(self, value: Seq<char>) -> SigninModel {
        SigninModel { form: SigninFormModel { password: value, ..self.form }, ..self }
    }

    /// Whether a submission sends a sign-in: the form is filled in and no sign-in is under
    /// way.
    pub open spec fn can_submit(self) -> bool {
        self.form.valid() && self.in_flight is None
    }

    /// A submission. The form itself does not change.
    pub open spec fn submit(self) -> (SigninModel, Step) {
        if self.can_submit() {
            (
                SigninModel { in_flight: Some(self.form.email), ..self },
                Step::Send(
                    Payload::SignIn { email: self.form.email, password: self.form.password },
                ),
            )
        } else {
            (self, Step::Stay)
        }
    }

    /// The screen with another message.
    pub open spec fn with_message(self, message: Seq<char>) -> SigninModel {
        SigninModel { form: SigninFormModel { message, ..self.form }, ..self }
    }

    /// The answer to the sign-in that is under way.
    ///
    /// Signed in, the account and its session token become the ones that the following
    /// screens work on, and the screen for the second factor is shown. For an account that
    /// is not confirmed, the account is kept without a token and the screen for the
    /// confirmation code is shown. In every other case the user stays on the screen with a
    /// message, and what the screens share is not touched. An answer that no sign-in waits
    /// for changes nothing.
    pub open spec fn settle(self, ctx: Identity, reply: Reply) -> (SigninModel, Identity, Step) {
        match self.in_flight {
            None => (self, ctx, Step::Stay),
            Some(email) => {
                let idle = SigninModel { in_flight: None, ..self };
                match reply {
                    Reply::SignedIn(session) => (
                        idle,
                        Identity { email, session },
                        Step::Navigate(Route::SigninMfa),
                    ),
                    Reply::Unconfirmed => (
                        idle,
                        Identity { email, session: Seq::empty() },
                        Step::Navigate(Route::SignupConfirm),
                    ),
                    Reply::Unreadable => (idle.with_message(SIGNIN_UNREADABLE@), ctx, Step::Stay),
                    Reply::Rejected => (idle.with_message(SIGNIN_REJECTED@), ctx, Step::Stay),
                    Reply::NetworkError => (
                        idle.with_message(SIGNIN_NETWORK_ERROR@),
                        ctx,
                        Step::Stay,
                    ),
                }
            },
        }
    }
}

/// The sign-in screen as it is first shown.
pub fn use_signin_state() -> (r: SigninState)
    ensures
        r@ == SigninModel::initial(),
{
    SigninState { state: SigninFormState::default(), in_flight: None }
}

impl SigninState {
    /// Takes a keystroke in the e-mail field.
    pub fn handle_email_input(&mut self, value: &str)
        ensures
            final(self)@ == old(self)@.email_input(value@),
    {
        self.state.email = value.to_owned();
    }

    /// Takes a keystroke in the password field.
    pub fn handle_password_input(&mut self, value: &str)
        ensures
            final(self)@ == old(self)@.password_input(value@),
    {
        self.state.password = value.to_owned();
    }

    /// Whether the form is filled in.
    pub fn is_valid(&self) -> (r: bool)
        ensures
            r == self@.form.valid(),
    {
        !self.state.email.as_str().is_empty() && !self.state.password.as_str().is_empty()
    }

    /// Whether the button that submits the form is enabled.
    pub fn can_submit(&self) -> (r: bool)
        ensures
            r == self@.can_submit(),
    {
        self.is_valid() && self.in_flight.is_none()
    }

    /// Takes a submission of the form.
    pub fn onsubmit(&mut self) -> (r: Directive)
        ensures
            (final(self)@, r@) == old(self)@.submit(),
    {
        if self.can_submit() {
            self.in_flight = Some(self.state.email.clone());
            Directive::Send(
                ApiRequest::SignIn {
                    email: self.state.email.clone(),
                    password: self.state.password.clone(),
                },
            )
        } else {
            Directive::Stay
        }
    }

    /// Takes the answer to the sign-in that was sent, once its meaning is known.
    pub fn on_reply(&mut self, ctx: &mut AuthContext, reply: SigninReply) -> (r: Directive)
        ensures
            (final(self)@, final(ctx)@, r@) == old(self)@.settle(old(ctx)@, reply@),
    {
        match self.in_flight.take() {
            None => Directive::Stay,
            Some(email) => match reply {
                SigninReply::SignedIn(session) => {
                    ctx.set_email(email);
                    ctx.set_session(session);
                    Directive::Navigate(Route::SigninMfa)
                },
                SigninReply::Unconfirmed => {
                    ctx.set_email(email);
                    ctx.set_session(String::new());
                    Directive::Navigate(Route::SignupConfirm)
                },
                SigninReply::Unreadable => {
                    self.state.message = SIGNIN_UNREADABLE.to_owned();
                    Directive::Stay
                },
                SigninReply::Rejected => {
                    self.state.message = SIGNIN_REJECTED.to_owned();
                    Directive::Stay
                },
                SigninReply::NetworkError => {
                    self.state.message = SIGNIN_NETWORK_ERROR.to_owned();
                    Directive::Stay
                },
            },
        }
    }

    /// Takes the outcome of the sign-in that was sent.
    pub fn on_outcome(&mut self, ctx: &mut AuthContext, outcome: ApiOutcome) -> (r: Directive)
        ensures
            (final(self)@, final(ctx)@, r@) == old(self)@.settle(
                old(ctx)@,
                signin_reply(outcome@),
            ),
    {
        let reply = interpret(outcome);
        self.on_reply(ctx, reply)
    }
}

/// A sign-in is sent exactly for a form that is filled in while none is under way, and it
/// carries the e-mail address and the password of the form. A submission changes nothing
/// else on the screen.
pub proof fn signin_sends_only_filled_forms(screen: SigninModel)
    ensures
        screen.submit().1 is Send <==> screen.form.valid() && screen.in_flight is None,
        screen.submit().1 is Send ==> screen.submit().1 == Step::Send(
            Payload::SignIn { email: screen.form.email, password: screen.form.password },
        ) && screen.submit().0.in_flight == Some(screen.form.email),
        !(screen.submit().1 is Send) ==> screen.submit() == (screen, Step::Stay),
        screen.submit().0.form == screen.form,
{
}

/// Whatever happens on the screen, a sign-in that is under way was sent for an account.
pub proof fn signin_stays_well_formed(
    screen: SigninModel,
    value: Seq<char>,
    ctx: Identity,
    reply: Reply,
)
    requires
        screen.wf(),
    ensures
        SigninModel::initial().wf(),
        screen.email_input(value).wf(),
        screen.password_input(value).wf(),
        screen.submit().0.wf(),
        screen.settle(ctx, reply).0.wf(),
{
}

/// The answer to a sign-in never leaves a session token without an account.
pub proof fn signin_keeps_identity_well_formed(screen: SigninModel, ctx: Identity, reply: Reply)
    requires
        screen.wf(),
        ctx.wf(),
    ensures
        screen.settle(ctx, reply).1.wf(),
{
}

/// A sign-in for an account that is not confirmed leads to the screen for the confirmation
/// code, with the account kept and no session token; an accepted one leads to the screen
/// for the second factor, with the account and the token of the answer. Every other answer
/// leaves the user on the screen and what the screens share untouched.
pub proof fn signin_answers_lead_on(screen: SigninModel, ctx: Identity, session: Seq<char>)
    requires
        screen.in_flight is Some,
    ensures
        screen.settle(ctx, Reply::Unconfirmed).1 == (Identity {
            email: screen.in_flight->0,
            session: Seq::empty(),
        }),
        screen.settle(ctx, Reply::Unconfirmed).2 == Step::Navigate(Route::SignupConfirm),
        screen.settle(ctx, Reply::SignedIn(session)).1 == (Identity {
            email: screen.in_flight->0,
            session,
        }),
        screen.settle(ctx, Reply::SignedIn(session)).2 == Step::Navigate(Route::SigninMfa),
        forall|reply: Reply|
            reply is Unreadable || reply is Rejected || reply is NetworkError ==> (
            #[trigger] screen.settle(ctx, reply)).1 == ctx && screen.settle(ctx, reply).2 is Stay,
{
}

} // verus!
