//! The screen that asks for a password reset: an e-mail address, to which the service
//! sends a code.
//!
//! The address is checked on every keystroke. An accepted request changes the message and
//! leaves the user on the screen.

use crate::api::{ApiOutcome, ApiRequest, Outcome, Payload};
use crate::features::auth::commons::flow::{Directive, Step};
use crate::features::auth::commons::validation::{email_error, validate_email};
use crate::text::text_of;
use crate::utils::make_input_handler;
use vstd::prelude::*;

verus! {

/// Shown when the code was sent.
pub const RESET_CODE_SENT: &'static str = "確認コードを送信しました。メールをご確認ください。";

/// Shown when the service refuses the request.
pub const RESET_REQUEST_FAILED: &'static str =
    "送信に失敗しました。メールアドレスを確認してください。";

/// Shown when no answer was received.
pub const RESET_REQUEST_NETWORK_ERROR: &'static str = "ネットワークエラーが発生しました。";

/// What the screen holds: the address with its error, and the last message.
#[derive(Clone, Debug, PartialEq, Eq)]
pub struct PasswordResetRequestState {
    pub email: String,
    pub email_error: Option<String>,
    pub message: String,
}

/// The form of the reset request as texts.
pub struct PasswordResetRequestModel {
    pub email: Seq<char>,
    pub email_error: Option<Seq<char>>,
    pub message: Seq<char>,
}

impl View for PasswordResetRequestState {
    type V = PasswordResetRequestModel;

    open spec fn view(&self) -> PasswordResetRequestModel {
        PasswordResetRequestModel {
            email: self.email@,
            email_error: text_of(self.email_error),
            message: self.message@,
        }
    }
}

impl PasswordResetRequestModel {
    /// The form as it is first shown.
    pub open spec fn initial() -> PasswordResetRequestModel {
        PasswordResetRequestModel {
            email: Seq::empty(),
            email_error: None,
            message: Seq::empty(),
        }
    }

    /// Whether the form may be submitted: an address was typed and it has no error.
    pub open spec fn valid(self) -> bool {
        self.email.len() > 0 && self.email_error is None
    }
}

impl Default for PasswordResetRequestState {
    fn default() -> (r: Self)
        ensures
            r@ == PasswordResetRequestModel::initial(),
    {
        PasswordResetRequestState {
            email: String::new(),
            email_error: None,
            message: String::new(),
        }
    }
}

/// The screen that asks for a password reset: its form, and whether a request is under
/// way.
#[derive(Clone, Debug, PartialEq, Eq)]
pub struct PasswordResetRequestHook {
    pub state: PasswordResetRequestState,
    pub in_flight: bool,
}

/// The screen that asks for a password reset as texts, with the steps that it takes.
pub struct PasswordResetRequestScreen {
    pub form: PasswordResetRequestModel,
    pub in_flight: bool,
}

impl View for PasswordResetRequestHook {
    type V = PasswordResetRequestScreen;

    open spec fn view(&self) -> PasswordResetRequestScreen {
        PasswordResetRequestScreen { form: self.state@, in_flight: self.in_flight }
    }
}

impl PasswordResetRequestScreen {
    /// The screen as it is first shown.
    pub open spec fn initial() -> PasswordResetRequestScreen {
        PasswordResetRequestScreen { form: PasswordResetRequestModel::initial(), in_flight: false }
    }

    /// Whether the button that submits the form is enabled: the form is valid and no request
    /// is under way.
    pub open spec fn can_submit(self) -> bool {
        self.form.valid() && !self.in_flight
    }

    /// A keystroke in the address field: the address is judged at once.
    pub open spec fn input(self, value: Seq<char>) -> PasswordResetRequestScreen {
        PasswordResetRequestScreen {
            form: PasswordResetRequestModel {
                email: value,
                email_error: email_error(value),
                ..self.form
            },
            ..self
        }
    }

    /// The screen with another message.
    pub open spec fn with_message(self, message: Seq<char>) -> PasswordResetRequestScreen {
        PasswordResetRequestScreen {
            form: PasswordResetRequestModel { message, ..self.form },
            ..self
        }
    }

    /// A submission. The address is judged as it stands and its error shown. The request
    /// is sent where the address is accepted and no request is under way.
    pub open spec fn submit(self) -> (PasswordResetRequestScreen, Step) {
        let error = email_error(self.form.email);
        let form = PasswordResetRequestModel { email_error: error, ..self.form };
        if error is None && !self.in_flight {
            (
                PasswordResetRequestScreen { form, in_flight: true },
                Step::Send(Payload::RequestPasswordReset { email: self.form.email }),
            )
        } else {
            (PasswordResetRequestScreen { form, ..self }, Step::Stay)
        }
    }

    /// The outcome of the request that is under way: a message says whether the code was
    /// sent, and the user stays on the screen. An outcome that no request waits for
    /// changes nothing.
    pub open spec fn settle(self, outcome: Outcome) -> (PasswordResetRequestScreen, Step) {
        if !self.in_flight {
            (self, Step::Stay)
        } else {
            let idle = PasswordResetRequestScreen { in_flight: false, ..self };
            match outcome {
                Outcome::Success(_) => (idle.with_message(RESET_CODE_SENT@), Step::Stay),
                Outcome::NetworkError => (
                    idle.with_message(RESET_REQUEST_NETWORK_ERROR@),
                    Step::Stay,
                ),
                _ => (idle.with_message(RESET_REQUEST_FAILED@), Step::Stay),
            }
        }
    }
}

/// The screen that asks for a password reset as it is first shown.
pub fn use_password_reset_request_state() -> (r: PasswordResetRequestHook)
    ensures
        r@ == PasswordResetRequestScreen::initial(),
{
    PasswordResetRequestHook { state: PasswordResetRequestState::default(), in_flight: false }
}

impl PasswordResetRequestHook {
    /// Takes a keystroke in the field.
    pub fn on_input(&mut self, value: &str)
        ensures
            final(self)@ == old(self)@.input(value@),
    {
        make_input_handler(
            &mut self.state.email,
            &mut self.state.email_error,
            validate_email,
            value,
        );
    }

    /// Whether an address was typed and it has no error.
    pub fn is_valid(&self) -> (r: bool)
        ensures
            r == self@.form.valid(),
    {
        !self.state.email.as_str().is_empty() && self.state.email_error.is_none()
    }

    /// Whether the button that submits the form is enabled.
    pub fn can_submit(&self) -> (r: bool)
        ensures
            r == self@.can_submit(),
    {
        self.is_valid() && !self.in_flight
    }

    /// Takes a submission of the form.
    pub fn on_submit(&mut self) -> (r: Directive)
        ensures
            (final(self)@, r@) == old(self)@.submit(),
    {
        self.state.email_error = validate_email(self.state.email.as_str());
        if self.state.email_error.is_none() && !self.in_flight {
            self.in_flight = true;
            Directive::Send(ApiRequest::RequestPasswordReset { email: self.state.email.clone() })
        } else {
            Directive::Stay
        }
    }

    /// Takes the outcome of the request that was sent.
    pub fn on_outcome(&mut self, outcome: ApiOutcome) -> (r: Directive)
        ensures
            (final(self)@, r@) == old(self)@.settle(outcome@),
    {
        if !self.in_flight {
            return Directive::Stay;
        }
        self.in_flight = false;
        match outcome {
            ApiOutcome::Success(_) => {
                self.state.message = RESET_CODE_SENT.to_owned();
            },
            ApiOutcome::NetworkError => {
                self.state.message = RESET_REQUEST_NETWORK_ERROR.to_owned();
            },
            _ => {
                self.state.message = RESET_REQUEST_FAILED.to_owned();
            },
        }
        Directive::Stay
    }
}

/// A reset is asked for exactly when the address as it stands is accepted and no request
/// is under way; the request carries that address, and the form is then valid.
pub proof fn reset_request_sends_only_accepted_addresses(screen: PasswordResetRequestScreen)
    ensures
        screen.submit().1 is Send <==> email_error(screen.form.email) is None && !screen.in_flight,
        screen.submit().1 is Send ==> screen.submit().1 == Step::Send(
            Payload::RequestPasswordReset { email: screen.form.email },
        ) && screen.submit().0.form.valid(),
        !(screen.submit().1 is Send) ==> screen.submit().1 is Stay,
{
}

/// No outcome of the request leads to another screen.
pub proof fn reset_request_never_leaves_the_screen(
    screen: PasswordResetRequestScreen,
    outcome: Outcome,
)
    ensures
        screen.settle(outcome).1 is Stay,
        !screen.settle(outcome).0.in_flight,
        screen.settle(outcome).0.form.email == screen.form.email,
        screen.settle(outcome).0.form.email_error == screen.form.email_error,
{
}

} // verus!
