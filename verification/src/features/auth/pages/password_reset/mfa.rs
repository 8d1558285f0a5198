//! The screen for the code that authorises a password reset: a user name and the code
//! that was sent by e-mail.

use crate::api::{ApiOutcome, ApiRequest, Outcome, Payload};
use crate::features::auth::commons::flow::{Directive, Step};
use crate::routes::Route;
use vstd::prelude::*;

verus! {

/// Shown when the service refuses the code.
pub const RESET_MFA_FAILED: &'static str = "認証に失敗しました。コードを再確認してください。";

/// Shown when no answer was received.
pub const RESET_MFA_NETWORK_ERROR: &'static str = "ネットワークエラーが発生しました。";

/// The screen for the code of a password reset: its two fields, the last message, and
/// whether a verification is under way.
#[derive(Clone, Debug, PartialEq, Eq)]
pub struct PasswordResetMfaPage {
    pub username: String,
    pub code: String,
    pub message: String,
    pub in_flight: bool,
}

/// The screen for the code of a password reset as texts, with the steps that it takes.
pub struct PasswordResetMfaModel {
    pub username: Seq<char>,
    pub code: Seq<char>,
    pub message: Seq<char>,
    pub in_flight: bool,
}

impl View for PasswordResetMfaPage {
    type V = PasswordResetMfaModel;

    open spec fn view(&self) -> PasswordResetMfaModel {
        PasswordResetMfaModel {
            username: self.username@,
            code: self.code@,
            message: self.message@,
            in_flight: self.in_flight,
        }
    }
}

impl PasswordResetMfaModel {
    /// The screen as it is first shown.
    pub open spec fn initial() -> PasswordResetMfaModel {
        PasswordResetMfaModel {
            username: Seq::empty(),
            code: Seq::empty(),
            message: Seq::empty(),
            in_flight: false,
        }
    }

    /// Whether both fields hold something.
    pub open spec fn valid(self) -> bool {
        self.username.len() > 0 && self.code.len() > 0
    }

    /// Whether the button that submits the form is enabled: the form is valid and no request
    /// is under way.
    pub open spec fn can_submit(self) -> bool {
        self.valid() && !self.in_flight
    }

    /// A keystroke in the field of the user name.
    pub open spec fn username_input(self, value: Seq<char>) -> PasswordResetMfaModel {
        PasswordResetMfaModel { username: value, ..self }
    }

    /// A keystroke in the code field.
    pub open spec fn code_input(self, value: Seq<char>) -> PasswordResetMfaModel {
        PasswordResetMfaModel { code: value, ..self }
    }

    /// A submission: the two fields are sent as they stand, unless a verification is under
    /// way.
    pub open spec fn submit(self) -> (PasswordResetMfaModel, Step) {
        if !self.in_flight {
            (
                PasswordResetMfaModel { in_flight: true, ..self },
                Step::Send(
                    Payload::VerifyPasswordResetMfa { username: self.username, code: self.code },
                ),
            )
        } else {
            (self, Step::Stay)
        }
    }

    /// The outcome of the verification that is under way. An accepted code leads to the
    /// screen for the new password; otherwise a message says what went wrong. An outcome
    /// that no verification waits for changes nothing.
    pub open spec fn settle(self, outcome: Outcome) -> (PasswordResetMfaModel, Step) {
        if !self.in_flight {
            (self, Step::Stay)
        } else {
            let idle = PasswordResetMfaModel { in_flight: false, ..self };
            match outcome {
                Outcome::Success(_) => (idle, Step::Navigate(Route::PasswordReset)),
                Outcome::NetworkError => (
                    PasswordResetMfaModel { message: RESET_MFA_NETWORK_ERROR@, ..idle },
                    Step::Stay,
                ),
                _ => (PasswordResetMfaModel { message: RESET_MFA_FAILED@, ..idle }, Step::Stay),
            }
        }
    }
}

/// The screen for the code of a password reset as it is first shown.
pub fn password_reset_mfa_page() -> (r: PasswordResetMfaPage)
    ensures
        r@ == PasswordResetMfaModel::initial(),
{
    PasswordResetMfaPage {
        username: String::new(),
        code: String::new(),
        message: String::new(),
        in_flight: false,
    }
}

impl PasswordResetMfaPage {
    /// Takes a keystroke in the field of the user name.
    pub fn handle_username_input(&mut self, value: &str)
        ensures
            final(self)@ == old(self)@.username_input(value@),
    {
        self.username = value.to_owned();
    }

    /// Takes a keystroke in the code field.
    pub fn handle_code_input(&mut self, value: &str)
        ensures
            final(self)@ == old(self)@.code_input(value@),
    {
        self.code = value.to_owned();
    }

    /// Whether both fields hold something.
    pub fn is_valid(&self) -> (r: bool)
        ensures
            r == self@.valid(),
    {
        !self.username.as_str().is_empty() && !self.code.as_str().is_empty()
    }

    /// Whether the button that submits the form is enabled.
    pub fn can_submit(&self) -> (r: bool)
        ensures
            r == self@.can_submit(),
    {
        self.is_valid() && !self.in_flight
    }

    /// Takes a submission of the form.
    pub fn onsubmit(&mut self) -> (r: Directive)
        ensures
            (final(self)@, r@) == old(self)@.submit(),
    {
        if !self.in_flight {
            self.in_flight = true;
            Directive::Send(
                ApiRequest::VerifyPasswordResetMfa {
                    username: self.username.clone(),
                    code: self.code.clone(),
                },
            )
        } else {
            Directive::Stay
        }
    }

    /// Takes the outcome of the verification that was sent.
    pub fn on_outcome(&mut self, outcome: ApiOutcome) -> (r: Directive)
        ensures
            (final(self)@, r@) == old(self)@.settle(outcome@),
    {
        if !self.in_flight {
            return Directive::Stay;
        }
        self.in_flight = false;
        match outcome {
            ApiOutcome::Success(_) => Directive::Navigate(Route::PasswordReset),
            ApiOutcome::NetworkError => {
                self.message = RESET_MFA_NETWORK_ERROR.to_owned();
                Directive::Stay
            },
            _ => {
                self.message = RESET_MFA_FAILED.to_owned();
                Directive::Stay
            },
        }
    }
}

/// The screen for the new password is reached exactly by an accepted code, and the fields
/// are kept whatever the outcome.
pub proof fn reset_code_leads_on_only_when_accepted(screen: PasswordResetMfaModel, outcome: Outcome)
    ensures
        screen.settle(outcome).1 == Step::Navigate(Route::PasswordReset) <==> screen.in_flight
            && outcome is Success,
        screen.settle(outcome).1 is Navigate || screen.settle(outcome).1 is Stay,
        screen.settle(outcome).0.username == screen.username,
        screen.settle(outcome).0.code == screen.code,
        !screen.settle(outcome).0.in_flight,
{
}

} // verus!
