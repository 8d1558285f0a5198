//! The screen that sets the new password: a user name, the new password, and the new
//! password once more.
//!
//! The two passwords are compared before anything is sent: where they differ, the service
//! is not asked.

use crate::api::{ApiOutcome, ApiRequest, Outcome, Payload};
use crate::features::auth::commons::flow::{Directive, Step};
use crate::text::same_text;
use vstd::prelude::*;

verus! {

/// Shown when the two passwords differ.
pub const RESET_MISMATCH: &'static str = "パスワードが一致しません。";

/// Shown when the password was changed.
pub const RESET_DONE: &'static str = "パスワードの変更が完了しました。ログインしてください。";

/// Shown when the service refuses the change.
pub const RESET_FAILED: &'static str = "パスワード変更に失敗しました。";

/// Shown when no answer was received.
pub const RESET_NETWORK_ERROR: &'static str = "ネットワークエラーが発生しました。";

/// The screen for the new password: its three fields, the last message, and whether a
/// change is under way.
#[derive(Clone, Debug, PartialEq, Eq)]
pub struct PasswordResetPage {
    pub username: String,
    pub new_password: String,
    pub confirm_password: String,
    pub message: String,
    pub in_flight: bool,
}

/// The screen for the new password as texts, with the steps that it takes.
pub struct PasswordResetModel {
    pub username: Seq<char>,
    pub new_password: Seq<char>,
    pub confirm_password: Seq<char>,
    pub message: Seq<char>,
    pub in_flight: bool,
}

impl View for PasswordResetPage {
    type V = PasswordResetModel;

    open spec fn view(&self) -> PasswordResetModel {
        PasswordResetModel {
            username: self.username@,
            new_password: self.new_password@,
            confirm_password: self.confirm_password@,
            message: self.message@,
            in_flight: self.in_flight,
        }
    }
}

impl PasswordResetModel {
    /// The screen as it is first shown.
    pub open spec fn initial() -> PasswordResetModel {
        PasswordResetModel {
            username: Seq::empty(),
            new_password: Seq::empty(),
            confirm_password: Seq::empty(),
            message: Seq::empty(),
            in_flight: false,
        }
    }

    /// Whether all three fields hold something.
    pub open spec fn valid(self) -> bool {
        self.username.len() > 0 && self.new_password.len() > 0 && self.confirm_password.len() > 0
    }

    /// Whether the button that submits the form is enabled: the form is valid and no request
    /// is under way.
    pub open spec fn can_submit(self) -> bool {
        self.valid() && !self.in_flight
    }

    /// A keystroke in the field of the user name.
    pub open spec fn username_input(self, value: Seq<char>) -> PasswordResetModel {
        PasswordResetModel { username: value, ..self }
    }

    /// A keystroke in the field of the new password.
    pub open spec fn new_password_input(self, value: Seq<char>) -> PasswordResetModel {
        PasswordResetModel { new_password: value, ..self }
    }

    /// A keystroke in the field of the second password.
    pub open spec fn confirm_password_input(self, value: Seq<char>) -> PasswordResetModel {
        PasswordResetModel { confirm_password: value, ..self }
    }

    /// A submission. Where the two passwords differ, the message says so and nothing else
    /// changes. Where they are the same, the change is sent, unless one is under way.
    pub open spec fn submit(self) -> (PasswordResetModel, Step) {
        if self.new_password != self.confirm_password {
            (PasswordResetModel { message: RESET_MISMATCH@, ..self }, Step::Stay)
        } else if !self.in_flight {
            (
                PasswordResetModel { in_flight: true, ..self },
                Step::Send(
                    Payload::ConfirmPasswordReset {
                        username: self.username,
                        new_password: self.new_password,
                    },
                ),
            )
        } else {
            (self, Step::Stay)
        }
    }

    /// The outcome of the change that is under way: a message says what became of it, and
    /// the user stays on the screen. An outcome that no change waits for changes nothing.
    pub open spec fn settle(self, outcome: Outcome) -> (PasswordResetModel, Step) {
        if !self.in_flight {
            (self, Step::Stay)
        } else {
            let idle = PasswordResetModel { in_flight: false, ..self };
            match outcome {
                Outcome::Success(_) => (
                    PasswordResetModel { message: RESET_DONE@, ..idle },
                    Step::Stay,
                ),
                Outcome::NetworkError => (
                    PasswordResetModel { message: RESET_NETWORK_ERROR@, ..idle },
                    Step::Stay,
                ),
                _ => (PasswordResetModel { message: RESET_FAILED@, ..idle }, Step::Stay),
            }
        }
    }
}

/// The screen for the new password as it is first shown.
pub fn password_reset_page() -> (r: PasswordResetPage)
    ensures
        r@ == PasswordResetModel::initial(),
{
    PasswordResetPage {
        username: String::new(),
        new_password: String::new(),
        confirm_password: String::new(),
        message: String::new(),
        in_flight: false,
    }
}

impl PasswordResetPage {
    /// Takes a keystroke in the field of the user name.
    pub fn handle_username_input(&mut self, value: &str)
        ensures
            final(self)@ == old(self)@.username_input(value@),
    {
        self.username = value.to_owned();
    }

    /// Takes a keystroke in the field of the new password.
    pub fn handle_new_password_input(&mut self, value: &str)
        ensures
            final(self)@ == old(self)@.new_password_input(value@),
    {
        self.new_password = value.to_owned();
    }

    /// Takes a keystroke in the field of the second password.
    pub fn handle_confirm_password_input(&mut self, value: &str)
        ensures
            final(self)@ == old(self)@.confirm_password_input(value@),
    {
        self.confirm_password = value.to_owned();
    }

    /// Whether all three fields hold something.
    pub fn is_valid(&self) -> (r: bool)
        ensures
            r == self@.valid(),
    {
        !self.username.as_str().is_empty() && !self.new_password.as_str().is_empty()
            && !self.confirm_password.as_str().is_empty()
    }

    /// Whether the button that submits the form is enabled.
    pub fn can_submit(&self) -> (r: bool)
        ensures
            r == self@.can_submit(),
    {
        self.is_valid() && !self.in_flight
    }

    /// Takes a submission of the form.
    pub fn onsubmit(&mut self) -> (r: Directive)
        ensures
            (final(self)@, r@) == old(self)@.submit(),
    {
        if !same_text(self.new_password.as_str(), self.confirm_password.as_str()) {
            self.message = RESET_MISMATCH.to_owned();
            Directive::Stay
        } else if !self.in_flight {
            self.in_flight = true;
            Directive::Send(
                ApiRequest::ConfirmPasswordReset {
                    username: self.username.clone(),
                    new_password: self.new_password.clone(),
                },
            )
        } else {
            Directive::Stay
        }
    }

    /// Takes the outcome of the change that was sent.
    pub fn on_outcome(&mut self, outcome: ApiOutcome) -> (r: Directive)
        ensures
            (final(self)@, r@) == old(self)@.settle(outcome@),
    {
        if !self.in_flight {
            return Directive::Stay;
        }
        self.in_flight = false;
        match outcome {
            ApiOutcome::Success(_) => {
                self.message = RESET_DONE.to_owned();
            },
            ApiOutcome::NetworkError => {
                self.message = RESET_NETWORK_ERROR.to_owned();
            },
            _ => {
                self.message = RESET_FAILED.to_owned();
            },
        }
        Directive::Stay
    }
}

/// A submission with two passwords that differ asks nothing of the service: the message
/// says that they differ, and everything else on the screen stays as it was.
pub proof fn mismatch_blocks_the_reset(screen: PasswordResetModel)
    requires
        screen.new_password != screen.confirm_password,
    ensures
        screen.submit().1 is Stay,
        screen.submit().0 == (PasswordResetModel { message: RESET_MISMATCH@, ..screen }),
{
}

/// A change is sent exactly when the two passwords are the same and no change is under
/// way; it carries the user name and the new password.
pub proof fn reset_sends_only_matching_passwords(screen: PasswordResetModel)
    ensures
        screen.submit().1 is Send <==> screen.new_password == screen.confirm_password
            && !screen.in_flight,
        screen.submit().1 is Send ==> screen.submit().1 == Step::Send(
            Payload::ConfirmPasswordReset {
                username: screen.username,
                new_password: screen.new_password,
            },
        ),
        !(screen.submit().1 is Send) ==> screen.submit().1 is Stay,
{
}

/// No outcome of the change leads to another screen: the way back to the sign-in is left
/// to the user.
pub proof fn reset_never_leaves_the_screen(screen: PasswordResetModel, outcome: Outcome)
    ensures
        screen.settle(outcome).1 is Stay,
        !screen.settle(outcome).0.in_flight,
{
}

} // verus!
