//! The screen for the second factor of the sign-in: a code of six digits.
//!
//! The screen works on the account and the session token that the sign-in left behind.
//! Without them it has nothing to verify and sends the user back to the sign-in.

use crate::api::{ApiOutcome, ApiRequest, Outcome, Payload};
use crate::features::auth::commons::flow::{Directive, Step};
use crate::features::auth::commons::validation::{is_mfa_code, mfa_code};
use crate::routes::Route;
use crate::types::{AuthContext, Identity};
use vstd::prelude::*;

verus! {

/// Shown when the service refuses the code.
pub const MFA_REJECTED: &'static str = "コードが正しくありません。";

/// Shown when no answer was received.
pub const MFA_NETWORK_ERROR: &'static str = "ネットワークエラーが発生しました。";

/// What the screen holds: the account and the token that it was opened with, the code as
/// typed so far, and the last message.
#[derive(Clone, Debug, PartialEq, Eq)]
pub struct SigninMfaFormState {
    pub email: String,
    pub session: String,
    pub code: String,
    pub message: String,
}

/// The form of the second factor as texts.
pub struct SigninMfaFormModel {
    pub email: Seq<char>,
    pub session: Seq<char>,
    pub code: Seq<char>,
    pub message: Seq<char>,
}

impl View for SigninMfaFormState {
    type V = SigninMfaFormModel;

    open spec fn view(&self) -> SigninMfaFormModel {
        SigninMfaFormModel {
            email: self.email@,
            session: self.session@,
            code: self.code@,
            message: self.message@,
        }
    }
}

impl SigninMfaFormModel {
    /// Whether the form may be submitted: the code has six digits.
    pub open spec fn valid(self) -> bool {
        mfa_code(self.code)
    }

    /// Whether the screen was opened without an account or without a session token.
    pub open spec fn unidentified(self) -> bool {
        self.email.len() == 0 || self.session.len() == 0
    }
}

/// The screen for the second factor: its form, the address to leave for once the code is
/// accepted, and whether a verification is under way.
#[derive(Clone, Debug, PartialEq, Eq)]
pub struct SigninMfaState {
    pub state: SigninMfaFormState,
    pub redirect_url: String,
    pub in_flight: bool,
}

/// The screen for the second factor as texts, with the steps that it takes.
pub struct SigninMfaModel {
    pub form: SigninMfaFormModel,
    pub redirect_url: Seq<char>,
    pub in_flight: bool,
}

impl View for SigninMfaState {
    type V = SigninMfaModel;

    open spec fn view(&self) -> SigninMfaModel {
        SigninMfaModel {
            form: self.state@,
            redirect_url: self.redirect_url@,
            in_flight: self.in_flight,
        }
    }
}

impl SigninMfaModel {
    /// The screen as it is opened on what the screens share.
    pub open spec fn initial(ctx: Identity, redirect_url: Seq<char>) -> SigninMfaModel {
        SigninMfaModel {
            form: SigninMfaFormModel {
                email: ctx.email,
                session: ctx.session,
                code: Seq::empty(),
                message: Seq::empty(),
            },
            redirect_url,
            in_flight: false,
        }
    }

    /// What the screen asks for when it is opened: the sign-in screen where the account or
    /// the token is missing, nothing otherwise.
    pub open spec fn guard(self) -> Step {
        if self.form.unidentified() {
            Step::Navigate(Route::Signin)
        } else {
            Step::Stay
        }
    }

    /// Whether the button that submits the form is enabled: the form is valid and no request
    /// is under way.
    pub open spec fn can_submit(self) -> bool {
        self.form.valid() && !self.in_flight
    }

    /// A keystroke in the code field.
    pub open spec fn input(self, value: Seq<char>) -> SigninMfaModel {
        SigninMfaModel { form: SigninMfaFormModel { code: value, ..self.form }, ..self }
    }

    /// A submission. Without an account or a token the user is sent to the sign-in and no
    /// request is made. Otherwise the code is sent where it has six digits and no
    /// verification is under way.
    pub open spec fn submit(self) -> (SigninMfaModel, Step) {
        if self.form.unidentified() {
            (self, Step::Navigate(Route::Signin))
        } else if self.form.valid() && !self.in_flight {
            (
                SigninMfaModel { in_flight: true, ..self },
                Step::Send(
                    Payload::VerifyMfa {
                        email: self.form.email,
                        code: self.form.code,
                        session: self.form.session,
                    },
                ),
            )
        } else {
            (self, Step::Stay)
        }
    }

    /// The screen with another message.
    pub open spec fn with_message(self, message: Seq<char>) -> SigninMfaModel {
        SigninMfaModel { form: SigninMfaFormModel { message, ..self.form }, ..self }
    }

    /// The outcome of the verification that is under way. Accepted, the user leaves the
    /// application for the configured address. Otherwise a message says what went wrong.
    /// An outcome that no verification waits for changes nothing.
    pub open spec fn settle(self, outcome: Outcome) -> (SigninMfaModel, Step) {
        if !self.in_flight {
            (self, Step::Stay)
        } else {
            let idle = SigninMfaModel { in_flight: false, ..self };
            match outcome {
                Outcome::Success(_) => (idle, Step::Leave(self.redirect_url)),
                Outcome::NetworkError => (idle.with_message(MFA_NETWORK_ERROR@), Step::Stay),
                _ => (idle.with_message(MFA_REJECTED@), Step::Stay),
            }
        }
    }
}

/// Opens the screen for the second factor on what the screens share, with the address to
/// leave for once the code is accepted.
pub fn use_signin_mfa_state(auth_ctx: &AuthContext, redirect_url: String) -> (r: SigninMfaState)
    ensures
        r@ == SigninMfaModel::initial(auth_ctx@, redirect_url@),
{
    SigninMfaState {
        state: SigninMfaFormState {
            email: auth_ctx.email.clone(),
            session: auth_ctx.session.clone(),
            code: String::new(),
            message: String::new(),
        },
        redirect_url,
        in_flight: false,
    }
}

impl SigninMfaState {
    /// What to do when the screen is opened.
    pub fn guard(&self) -> (r: Directive)
        ensures
            r@ == self@.guard(),
    {
        if self.state.email.as_str().is_empty() || self.state.session.as_str().is_empty() {
            Directive::Navigate(Route::Signin)
        } else {
            Directive::Stay
        }
    }

    /// Takes a keystroke in the field.
    pub fn on_input(&mut self, value: &str)
        ensures
            final(self)@ == old(self)@.input(value@),
    {
        self.state.code = value.to_owned();
    }

    /// Whether the code has six digits.
    pub fn is_valid(&self) -> (r: bool)
        ensures
            r == self@.form.valid(),
    {
        is_mfa_code(self.state.code.as_str())
    }

    /// Whether the button that submits the form is enabled.
    pub fn can_submit(&self) -> (r: bool)
        ensures
            r == self@.can_submit(),
    {
        self.is_valid() && !self.in_flight
    }

    /// Takes a submission of the form.
    pub fn on_submit(&mut self) -> (r: Directive)
        ensures
            (final(self)@, r@) == old(self)@.submit(),
    {
        if self.state.email.as_str().is_empty() || self.state.session.as_str().is_empty() {
            Directive::Navigate(Route::Signin)
        } else if self.is_valid() && !self.in_flight {
            self.in_flight = true;
            Directive::Send(
                ApiRequest::VerifyMfa {
                    email: self.state.email.clone(),
                    code: self.state.code.clone(),
                    session: self.state.session.clone(),
                },
            )
        } else {
            Directive::Stay
        }
    }

    /// Takes the outcome of the verification that was sent.
    pub fn on_outcome(&mut self, outcome: ApiOutcome) -> (r: Directive)
        ensures
            (final(self)@, r@) == old(self)@.settle(outcome@),
    {
        if !self.in_flight {
            return Directive::Stay;
        }
        self.in_flight = false;
        match outcome {
            ApiOutcome::Success(_) => Directive::Leave(self.redirect_url.clone()),
            ApiOutcome::NetworkError => {
                self.state.message = MFA_NETWORK_ERROR.to_owned();
                Directive::Stay
            },
            _ => {
                self.state.message = MFA_REJECTED.to_owned();
                Directive::Stay
            },
        }
    }
}

/// A screen that is opened without an account or without a session token sends the user
/// to the sign-in at once, and no submission on it makes a request.
pub proof fn mfa_without_identity_goes_back(ctx: Identity, redirect_url: Seq<char>, code: Seq<char>)
    requires
        ctx.email.len() == 0 || ctx.session.len() == 0,
    ensures
        SigninMfaModel::initial(ctx, redirect_url).guard() == Step::Navigate(Route::Signin),
        SigninMfaModel::initial(ctx, redirect_url).input(code).submit().1 == Step::Navigate(
            Route::Signin,
        ),
        !SigninMfaModel::initial(ctx, redirect_url).input(code).submit().0.in_flight,
{
}

/// A code is sent exactly when the screen has its account and token, the code has six
/// digits, and no verification is under way. The request carries the account, the code
/// and the token.
pub proof fn mfa_sends_only_valid_codes(screen: SigninMfaModel)
    ensures
        screen.submit().1 is Send <==> !screen.form.unidentified() && mfa_code(screen.form.code)
            && !screen.in_flight,
        screen.submit().1 is Send ==> screen.submit().1 == Step::Send(
            Payload::VerifyMfa {
                email: screen.form.email,
                code: screen.form.code,
                session: screen.form.session,
            },
        ),
        screen.submit().0.form == screen.form,
{
}

/// The user leaves the application only after an accepted code, and then for the
/// configured address.
pub proof fn mfa_leaves_only_when_accepted(screen: SigninMfaModel, outcome: Outcome)
    ensures
        screen.settle(outcome).1 is Leave <==> screen.in_flight && outcome is Success,
        screen.settle(outcome).1 is Leave ==> screen.settle(outcome).1 == Step::Leave(
            screen.redirect_url,
        ),
        !screen.settle(outcome).0.in_flight,
{
}

} // verus!
