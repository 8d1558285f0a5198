//! The screen for the confirmation code that activates a new account.
//!
//! The code is confirmed for the account that the screens share. The screen can also ask
//! for the code to be sent again, which changes its message and nothing else.

use crate::api::{ApiOutcome, ApiRequest, Outcome, Payload};
use crate::features::auth::commons::flow::{Directive, Step};
use crate::routes::Route;
use crate::types::{AuthContext, Identity};
use vstd::prelude::*;

verus! {

/// Shown when the service refuses the code.
pub const CONFIRM_FAILED: &'static str =
    "確認に失敗しました。コードまたはメールアドレスを確認してください。";

/// Shown when the code was sent again.
pub const RESEND_DONE: &'static str = "確認コードを再送信しました。";

/// Shown when the service refuses to send the code again.
pub const RESEND_FAILED: &'static str = "再送信に失敗しました。";

/// Shown when no answer was received.
pub const CONFIRM_NETWORK_ERROR: &'static str = "通信エラーが発生しました。";

/// What the screen holds: the code as typed so far, and the last message.
#[derive(Clone, Debug, PartialEq, Eq)]
pub struct ConfirmFormState {
    pub code: String,
    pub message: String,
}

/// The form of the confirmation code as texts.
pub struct ConfirmFormModel {
    pub code: Seq<char>,
    pub message: Seq<char>,
}

impl View for ConfirmFormState {
    type V = ConfirmFormModel;

    open spec fn view(&self) -> ConfirmFormModel {
        ConfirmFormModel { code: self.code@, message: self.message@ }
    }
}

impl ConfirmFormModel {
    /// The form as it is first shown.
    pub open spec fn initial() -> ConfirmFormModel {
        ConfirmFormModel { code: Seq::empty(), message: Seq::empty() }
    }

    /// Whether the form may be submitted: a code was typed. Its format is not checked.
    pub open spec fn valid(self) -> bool {
        self.code.len() > 0
    }
}

impl Default for ConfirmFormState {
    fn default() -> (r: Self)
        ensures
            r@ == ConfirmFormModel::initial(),
    {
        ConfirmFormState { code: String::new(), message: String::new() }
    }
}

/// The request that the screen waits for.
#[derive(Clone, Copy, Debug, PartialEq, Eq, Structural)]
pub enum ConfirmCall {
    /// The confirmation of the code.
    Confirm,
    /// The request to send the code again.
    Resend,
}

/// The screen for the confirmation code: its form, and the request that is under way, if
/// one is.
#[derive(Clone, Debug, PartialEq, Eq)]
pub struct ConfirmForm {
    pub state: ConfirmFormState,
    pub in_flight: Option<ConfirmCall>,
}

/// The screen for the confirmation code as texts, with the steps that it takes.
pub struct ConfirmModel {
    pub form: ConfirmFormModel,
    pub in_flight: Option<ConfirmCall>,
}

impl View for ConfirmForm {
    type V = ConfirmModel;

    open spec fn view(&self) -> ConfirmModel {
        ConfirmModel { form: self.state@, in_flight: self.in_flight }
    }
}

/// What the screen asks for when it is opened: the sign-in screen where no account is
/// known, nothing otherwise.
pub open spec fn confirm_guard(ctx: Identity) -> Step {
    if ctx.email.len() == 0 {
        Step::Navigate(Route::Signin)
    } else {
        Step::Stay
    }
}

impl ConfirmModel {
    /// The screen as it is first shown.
    pub open spec fn initial() -> ConfirmModel {
        ConfirmModel { form: ConfirmFormModel::initial(), in_flight: None }
    }

    /// Whether the button that submits the form is enabled: the form is valid and no request
    /// is under way.
    pub open spec fn can_submit(self) -> bool {
        self.form.valid() && self.in_flight is None
    }

    /// A keystroke in the code field.
    pub open spec fn input(self, value: Seq<char>) -> ConfirmModel {
        ConfirmModel { form: ConfirmFormModel { code: value, ..self.form }, ..self }
    }

    /// The screen with another message.
    pub open spec fn with_message(self, message: Seq<char>) -> ConfirmModel {
        ConfirmModel { form: ConfirmFormModel { message, ..self.form }, ..self }
    }

    /// A submission. Without an account the user is sent to the sign-in and no request is
    /// made. Otherwise the code is sent for the account, unless a request is under way.
    pub open spec fn submit(self, ctx: Identity) -> (ConfirmModel, Step) {
        if ctx.email.len() == 0 {
            (self, Step::Navigate(Route::Signin))
        } else if self.in_flight is None {
            (
                ConfirmModel { in_flight: Some(ConfirmCall::Confirm), ..self },
                Step::Send(Payload::ConfirmSignup { email: ctx.email, code: self.form.code }),
            )
        } else {
            (self, Step::Stay)
        }
    }

    /// A request for a new code, under the same conditions as a submission.
    pub open spec fn resend(self, ctx: Identity) -> (ConfirmModel, Step) {
        if ctx.email.len() == 0 {
            (self, Step::Navigate(Route::Signin))
        } else if self.in_flight is None {
            (
                ConfirmModel { in_flight: Some(ConfirmCall::Resend), ..self },
                Step::Send(Payload::ResendConfirmCode { email: ctx.email }),
            )
        } else {
            (self, Step::Stay)
        }
    }

    /// The outcome of the request that is under way. An accepted code leads to the screen
    /// that closes the registration; every other outcome only changes the message. An
    /// outcome that no request waits for changes nothing.
    pub open spec fn settle(self, outcome: Outcome) -> (ConfirmModel, Step) {
        match self.in_flight {
            None => (self, Step::Stay),
            Some(call) => {
                let idle = ConfirmModel { in_flight: None, ..self };
                match (call, outcome) {
                    (ConfirmCall::Confirm, Outcome::Success(_)) => (
                        idle,
                        Step::Navigate(Route::SignupConfirmComplete),
                    ),
                    (ConfirmCall::Resend, Outcome::Success(_)) => (
                        idle.with_message(RESEND_DONE@),
                        Step::Stay,
                    ),
                    (_, Outcome::NetworkError) => (
                        idle.with_message(CONFIRM_NETWORK_ERROR@),
                        Step::Stay,
                    ),
                    (ConfirmCall::Confirm, _) => (idle.with_message(CONFIRM_FAILED@), Step::Stay),
                    (ConfirmCall::Resend, _) => (idle.with_message(RESEND_FAILED@), Step::Stay),
                }
            },
        }
    }
}

/// The screen for the confirmation code as it is first shown.
pub fn use_confirm_state() -> (r: ConfirmForm)
    ensures
        r@ == ConfirmModel::initial(),
{
    ConfirmForm { state: ConfirmFormState::default(), in_flight: None }
}

impl ConfirmForm {
    /// What to do when the screen is opened.
    pub fn guard(auth_ctx: &AuthContext) -> (r: Directive)
        ensures
            r@ == confirm_guard(auth_ctx@),
    {
        if auth_ctx.email.as_str().is_empty() {
            Directive::Navigate(Route::Signin)
        } else {
            Directive::Stay
        }
    }

    /// Takes a keystroke in the field.
    pub fn on_input(&mut self, value: &str)
        ensures
            final(self)@ == old(self)@.input(value@),
    {
        self.state.code = value.to_owned();
    }

    /// Whether a code was typed.
    pub fn is_valid(&self) -> (r: bool)
        ensures
            r == self@.form.valid(),
    {
        !self.state.code.as_str().is_empty()
    }

    /// Whether the button that submits the form is enabled.
    pub fn can_submit(&self) -> (r: bool)
        ensures
            r == self@.can_submit(),
    {
        self.is_valid() && self.in_flight.is_none()
    }

    /// Takes a submission of the form.
    pub fn on_submit(&mut self, auth_ctx: &AuthContext) -> (r: Directive)
        ensures
            (final(self)@, r@) == old(self)@.submit(auth_ctx@),
    {
        if auth_ctx.email.as_str().is_empty() {
            Directive::Navigate(Route::Signin)
        } else if self.in_flight.is_none() {
            self.in_flight = Some(ConfirmCall::Confirm);
            Directive::Send(
                ApiRequest::ConfirmSignup {
                    email: auth_ctx.email.clone(),
                    code: self.state.code.clone(),
                },
            )
        } else {
            Directive::Stay
        }
    }

    /// Takes a click on the button that asks for a new code.
    pub fn on_resend(&mut self, auth_ctx: &AuthContext) -> (r: Directive)
        ensures
            (final(self)@, r@) == old(self)@.resend(auth_ctx@),
    {
        if auth_ctx.email.as_str().is_empty() {
            Directive::Navigate(Route::Signin)
        } else if self.in_flight.is_none() {
            self.in_flight = Some(ConfirmCall::Resend);
            Directive::Send(ApiRequest::ResendConfirmCode { email: auth_ctx.email.clone() })
        } else {
            Directive::Stay
        }
    }

    /// Takes the outcome of the request that was sent.
    pub fn on_outcome(&mut self, outcome: ApiOutcome) -> (r: Directive)
        ensures
            (final(self)@, r@) == old(self)@.settle(outcome@),
    {
        let call = match self.in_flight {
            None => {
                return Directive::Stay;
            },
            Some(call) => call,
        };
        self.in_flight = None;
        match outcome {
            ApiOutcome::Success(_) => match call {
                ConfirmCall::Confirm => Directive::Navigate(Route::SignupConfirmComplete),
                ConfirmCall::Resend => {
                    self.state.message = RESEND_DONE.to_owned();
                    Directive::Stay
                },
            },
            ApiOutcome::NetworkError => {
                self.state.message = CONFIRM_NETWORK_ERROR.to_owned();
                Directive::Stay
            },
            _ => {
                match call {
                    ConfirmCall::Confirm => {
                        self.state.message = CONFIRM_FAILED.to_owned();
                    },
                    ConfirmCall::Resend => {
                        self.state.message = RESEND_FAILED.to_owned();
                    },
                }
                Directive::Stay
            },
        }
    }
}

/// Without a known account the screen sends the user to the sign-in, and neither a
/// submission nor a request for a new code reaches the service.
pub proof fn confirm_without_account_goes_back(screen: ConfirmModel, ctx: Identity)
    requires
        ctx.email.len() == 0,
    ensures
        confirm_guard(ctx) == Step::Navigate(Route::Signin),
        screen.submit(ctx) == (screen, Step::Navigate(Route::Signin)),
        screen.resend(ctx) == (screen, Step::Navigate(Route::Signin)),
{
}

/// A request for a new code never leads to another screen: whatever its outcome, the user
/// stays, and only the message changes.
pub proof fn resend_never_leaves_the_screen(screen: ConfirmModel, outcome: Outcome)
    requires
        screen.in_flight == Some(ConfirmCall::Resend),
    ensures
        screen.settle(outcome).1 is Stay,
        screen.settle(outcome).0.form.code == screen.form.code,
        screen.settle(outcome).0.in_flight is None,
{
}

/// The registration is closed exactly by an accepted confirmation.
pub proof fn confirm_completes_only_when_accepted(screen: ConfirmModel, outcome: Outcome)
    ensures
        screen.settle(outcome).1 == Step::Navigate(Route::SignupConfirmComplete) <==> (
        screen.in_flight == Some(ConfirmCall::Confirm) && outcome is Success),
        !(screen.settle(outcome).1 is Send),
{
}

/// While a request is under way, neither a submission nor a request for a new code sends
/// a second one.
pub proof fn confirm_keeps_one_request(screen: ConfirmModel, ctx: Identity)
    requires
        screen.in_flight is Some,
    ensures
        !(screen.submit(ctx).1 is Send),
        !(screen.resend(ctx).1 is Send),
        screen.submit(ctx).0 == screen,
        screen.resend(ctx).0 == screen,
{
}

} // verus!
