//! The sign-up screen: an e-mail address, a password and the password once more.
//!
//! The password is checked while it is typed, and the checklist of its rules is shown from
//! the first keystroke in it. The two other fields are checked on each keystroke only once
//! the form has been submitted.

use crate::api::{ApiOutcome, ApiRequest, Outcome, Payload};
use crate::features::auth::commons::flow::{Directive, Step};
use crate::features::auth::commons::validation::{
    accepted_signup_is_filled_in, confirm_error, email_error, password_error, signup_errors,
    validate_confirm, validate_email, validate_password, validate_signup,
};
use crate::routes::Route;
use crate::text::text_of;
use crate::types::{AuthContext, Identity};
use crate::utils::{
    checklist, evaluate_password_rules, make_input_handler, make_input_handler_with_submit,
    PasswordRulesState,
};
use vstd::prelude::*;

verus! {

/// Shown when the service refuses the registration.
pub const SIGNUP_FAILED: &'static str = "サインアップ失敗...";

/// Shown when no answer was received.
pub const SIGNUP_NETWORK_ERROR: &'static str = "ネットワークエラー";

/// What the sign-up form holds: the three fields with their errors, the checklist of the
/// password rules, and the last message.
#[derive(Clone, Debug, PartialEq, Eq)]
pub struct SignupFormState {
    pub email: String,
    pub password: String,
    pub confirm_password: String,
    pub email_error: Option<String>,
    pub password_error: Option<String>,
    pub confirm_error: Option<String>,
    pub password_rules: PasswordRulesState,
    /// Set by the first keystroke in the password field, and never cleared: the checklist
    /// is shown from then on.
    pub is_password_first_input: bool,
    /// Set by the first submission, and never cleared.
    pub submitted: bool,
    pub message: String,
}

/// The sign-up form as texts.
pub struct SignupFormModel {
    pub email: Seq<char>,
    pub password: Seq<char>,
    pub confirm_password: Seq<char>,
    pub email_error: Option<Seq<char>>,
    pub password_error: Option<Seq<char>>,
    pub confirm_error: Option<Seq<char>>,
    pub password_rules: PasswordRulesState,
    pub is_password_first_input: bool,
    pub submitted: bool,
    pub message: Seq<char>,
}

impl View for SignupFormState {
    type V = SignupFormModel;

    open spec fn view(&self) -> SignupFormModel {
        SignupFormModel {
            email: self.email@,
            password: self.password@,
            confirm_password: self.confirm_password@,
            email_error: text_of(self.email_error),
            password_error: text_of(self.password_error),
            confirm_error: text_of(self.confirm_error),
            password_rules: self.password_rules,
            is_password_first_input: self.is_password_first_input,
            submitted: self.submitted,
            message: self.message@,
        }
    }
}

impl SignupFormModel {
    /// The form as it is first shown: empty, without errors, the checklist hidden.
    pub open spec fn initial() -> SignupFormModel {
        SignupFormModel {
            email: Seq::empty(),
            password: Seq::empty(),
            confirm_password: Seq::empty(),
            email_error: None,
            password_error: None,
            confirm_error: None,
            password_rules: PasswordRulesState::unmet(),
            is_password_first_input: false,
            submitted: false,
            message: Seq::empty(),
        }
    }

    /// Whether the form may be submitted: every field holds something and none has an
    /// error.
    pub open spec fn valid(self) -> bool {
        &&& self.email_error is None
        &&& self.password_error is None
        &&& self.confirm_error is None
        &&& self.email.len() > 0
        &&& self.password.len() > 0
        &&& self.confirm_password.len() > 0
    }
}

impl Default for SignupFormState {
    fn default() -> (r: Self)
        ensures
            r@ == SignupFormModel::initial(),
    {
        SignupFormState {
            email: String::new(),
            password: String::new(),
            confirm_password: String::new(),
            email_error: None,
            password_error: None,
            confirm_error: None,
            password_rules: PasswordRulesState::default(),
            is_password_first_input: false,
            submitted: false,
            message: String::new(),
        }
    }
}

/// The sign-up screen: its form, and the e-mail address of the registration that is under
/// way, if one is.
#[derive(Clone, Debug, PartialEq, Eq)]
pub struct SignupState {
    pub state: SignupFormState,
    pub in_flight: Option<String>,
}

/// The sign-up screen as texts, with the steps that it takes.
pub struct SignupModel {
    pub form: SignupFormModel,
    pub in_flight: Option<Seq<char>>,
}

impl View for SignupState {
    type V = SignupModel;

    open spec fn view(&self) -> SignupModel {
        SignupModel { form: self.state@, in_flight: text_of(self.in_flight) }
    }
}

impl SignupModel {
    /// The screen as it is first shown.
    pub open spec fn initial() -> SignupModel {
        SignupModel { form: SignupFormModel::initial(), in_flight: None }
    }

    /// A registration that is under way was sent for an account.
    pub open spec fn wf(self) -> bool {
        self.in_flight matches Some(email) ==> email.len() > 0
    }

    /// Whether the button that submits the form is enabled: the form is valid and no request
    /// is under way.
    pub open spec fn can_submit(self) -> bool {
        self.form.valid() && self.in_flight is None
    }

    /// A keystroke in the e-mail field. Its error is shown only after a first submission.
    pub open spec fn email_input(self, value: Seq<char>) -> SignupModel {
        SignupModel {
            form: SignupFormModel {
                email: value,
                email_error: if self.form.submitted {
                    email_error(value)
                } else {
                    None
                },
                ..self.form
            },
            ..self
        }
    }

    /// A keystroke in the password field. The password is judged at once, and so is the
    /// checklist, which is shown from now on. After a first submission the second password
    /// is compared again.
    pub open spec fn password_input(self, value: Seq<char>) -> SignupModel {
        SignupModel {
            form: SignupFormModel {
                password: value,
                password_error: password_error(value),
                password_rules: checklist(value),
                is_password_first_input: true,
                confirm_error: if self.form.submitted {
                    confirm_error(value, self.form.confirm_password)
                } else {
                    self.form.confirm_error
                },
                ..self.form
            },
            ..self
        }
    }

    /// A keystroke in the field of the second password. Its error is shown only after a
    /// first submission.
    pub open spec fn confirm_input(self, value: Seq<char>) -> SignupModel {
        SignupModel {
            form: SignupFormModel {
                confirm_password: value,
                confirm_error: if self.form.submitted {
                    confirm_error(self.form.password, value)
                } else {
                    None
                },
                ..self.form
            },
            ..self
        }
    }

    /// A submission. All three fields are judged and their errors shown together. The
    /// registration is sent where none has an error and no registration is under way.
    pub open spec fn submit(self) -> (SignupModel, Step) {
        let errors = signup_errors(
            self.form.email,
            self.form.password,
            self.form.confirm_password,
        );
        let form = SignupFormModel {
            email_error: errors.email,
            password_error: errors.password,
            confirm_error: errors.confirm,
            submitted: true,
            ..self.form
        };
        if errors.is_empty() && self.in_flight is None {
            (
                SignupModel { form, in_flight: Some(self.form.email) },
                Step::Send(
                    Payload::SignUp { email: self.form.email, password: self.form.password },
                ),
            )
        } else {
            (SignupModel { form, ..self }, Step::Stay)
        }
    }

    /// The outcome of the registration that is under way. Accepted, the account becomes
    /// the one that the following screens work on, without a session, and the screen for
    /// the confirmation code is shown. Otherwise a message says what went wrong. An outcome
    /// that no registration waits for changes nothing.
    pub open spec fn settle(self, ctx: Identity, outcome: Outcome) -> (SignupModel, Identity, Step) {
        match self.in_flight {
            None => (self, ctx, Step::Stay),
            Some(email) => {
                let idle = SignupModel { in_flight: None, ..self };
                match outcome {
                    Outcome::Success(_) => (
                        idle,
                        Identity { email, session: Seq::empty() },
                        Step::Navigate(Route::SignupConfirm),
                    ),
                    Outcome::NetworkError => (
                        idle.with_message(SIGNUP_NETWORK_ERROR@),
                        ctx,
                        Step::Stay,
                    ),
                    _ => (idle.with_message(SIGNUP_FAILED@), ctx, Step::Stay),
                }
            },
        }
    }

    /// The screen with another message.
    pub open spec fn with_message(self, message: Seq<char>) -> SignupModel {
        SignupModel { form: SignupFormModel { message, ..self.form }, ..self }
    }
}

/// The sign-up screen as it is first shown.
pub fn use_signup_state() -> (r: SignupState)
    ensures
        r@ == SignupModel::initial(),
{
    SignupState { state: SignupFormState::default(), in_flight: None }
}

impl SignupState {
    /// Takes a keystroke in the e-mail field.
    pub fn handle_email_input(&mut self, value: &str)
        ensures
            final(self)@ == old(self)@.email_input(value@),
    {
        let submitted = self.state.submitted;
        make_input_handler_with_submit(
            &mut self.state.email,
            &mut self.state.email_error,
            submitted,
            validate_email,
            value,
        );
    }

    /// Takes a keystroke in the password field.
    pub fn handle_password_input(&mut self, value: &str)
        ensures
            final(self)@ == old(self)@.password_input(value@),
    {
        make_input_handler(
            &mut self.state.password,
            &mut self.state.password_error,
            validate_password,
            value,
        );
        self.state.password_rules = evaluate_password_rules(value);
        self.state.is_password_first_input = true;
        if self.state.submitted {
            self.state.confirm_error = validate_confirm(value, self.state.confirm_password.as_str());
        }
    }

    /// Takes a keystroke in the field of the second password.
    pub fn handle_confirm_input(&mut self, value: &str)
        ensures
            final(self)@ == old(self)@.confirm_input(value@),
    {
        let submitted = self.state.submitted;
        if submitted {
            self.state.confirm_error = validate_confirm(self.state.password.as_str(), value);
        } else {
            self.state.confirm_error = None;
        }
        self.state.confirm_password = value.to_owned();
    }

    /// Whether every field holds something and none has an error.
    pub fn is_valid(&self) -> (r: bool)
        ensures
            r == self@.form.valid(),
    {
        self.state.email_error.is_none() && self.state.password_error.is_none()
            && self.state.confirm_error.is_none() && !self.state.email.as_str().is_empty()
            && !self.state.password.as_str().is_empty()
            && !self.state.confirm_password.as_str().is_empty()
    }

    /// Whether the button that submits the form is enabled.
    pub fn can_submit(&self) -> (r: bool)
        ensures
            r == self@.can_submit(),
    {
        self.is_valid() && self.in_flight.is_none()
    }

    /// Takes a submission of the form.
    pub fn onsubmit(&mut self) -> (r: Directive)
        ensures
            (final(self)@, r@) == old(self)@.submit(),
    {
        self.state.submitted = true;
        match validate_signup(
            self.state.email.as_str(),
            self.state.password.as_str(),
            self.state.confirm_password.as_str(),
        ) {
            Ok(_) => {
                self.state.email_error = None;
                self.state.password_error = None;
                self.state.confirm_error = None;
                if self.in_flight.is_none() {
                    self.in_flight = Some(self.state.email.clone());
                    Directive::Send(
                        ApiRequest::SignUp {
                            email: self.state.email.clone(),
                            password: self.state.password.clone(),
                        },
                    )
                } else {
                    Directive::Stay
                }
            },
            Err(errs) => {
                self.state.email_error = errs.email;
                self.state.password_error = errs.password;
                self.state.confirm_error = errs.confirm;
                Directive::Stay
            },
        }
    }

    /// Takes the outcome of the registration that was sent.
    pub fn on_outcome(&mut self, ctx: &mut AuthContext, outcome: ApiOutcome) -> (r: Directive)
        ensures
            (final(self)@, final(ctx)@, r@) == old(self)@.settle(old(ctx)@, outcome@),
    {
        match self.in_flight.take() {
            None => Directive::Stay,
            Some(email) => match outcome {
                ApiOutcome::Success(_) => {
                    ctx.set_email(email);
                    ctx.set_session(String::new());
                    Directive::Navigate(Route::SignupConfirm)
                },
                ApiOutcome::NetworkError => {
                    self.state.message = SIGNUP_NETWORK_ERROR.to_owned();
                    Directive::Stay
                },
                _ => {
                    self.state.message = SIGNUP_FAILED.to_owned();
                    Directive::Stay
                },
            },
        }
    }
}

/// A registration is sent exactly for a form that is accepted while none is under way. It
/// carries the e-mail address and the password of the form, which may then be submitted
/// by its own account; in every other case nothing is asked of the host.
pub proof fn signup_sends_only_accepted_forms(screen: SignupModel)
    ensures
        screen.submit().1 is Send <==> signup_errors(
            screen.form.email,
            screen.form.password,
            screen.form.confirm_password,
        ).is_empty() && screen.in_flight is None,
        screen.submit().1 is Send ==> screen.submit().1 == Step::Send(
            Payload::SignUp { email: screen.form.email, password: screen.form.password },
        ) && screen.submit().0.form.valid() && screen.submit().0.in_flight == Some(
            screen.form.email,
        ),
        !(screen.submit().1 is Send) ==> screen.submit().1 is Stay && screen.submit().0.in_flight
            == screen.in_flight,
{
    if signup_errors(
        screen.form.email,
        screen.form.password,
        screen.form.confirm_password,
    ).is_empty() {
        accepted_signup_is_filled_in(
            screen.form.email,
            screen.form.password,
            screen.form.confirm_password,
        );
    }
}

/// Whatever happens on the screen, a registration that is under way was sent for an
/// account.
pub proof fn signup_stays_well_formed(
    screen: SignupModel,
    value: Seq<char>,
    ctx: Identity,
    outcome: Outcome,
)
    requires
        screen.wf(),
    ensures
        SignupModel::initial().wf(),
        screen.email_input(value).wf(),
        screen.password_input(value).wf(),
        screen.confirm_input(value).wf(),
        screen.submit().0.wf(),
        screen.settle(ctx, outcome).0.wf(),
{
    signup_sends_only_accepted_forms(screen);
}

/// While a registration is under way, a submission sends no second one.
pub proof fn signup_keeps_one_request(screen: SignupModel)
    requires
        screen.in_flight is Some,
    ensures
        screen.submit().1 is Stay,
        screen.submit().0.in_flight == screen.in_flight,
{
}

/// Once the form was submitted it stays so, and once the checklist is shown it stays shown,
/// whatever happens on the screen.
pub proof fn signup_flags_are_monotonic(
    screen: SignupModel,
    value: Seq<char>,
    ctx: Identity,
    outcome: Outcome,
)
    ensures
        screen.form.submitted ==> screen.email_input(value).form.submitted
            && screen.password_input(value).form.submitted && screen.confirm_input(
            value,
        ).form.submitted && screen.settle(ctx, outcome).0.form.submitted,
        screen.submit().0.form.submitted,
        screen.form.is_password_first_input ==> screen.email_input(
            value,
        ).form.is_password_first_input && screen.confirm_input(value).form.is_password_first_input
            && screen.submit().0.form.is_password_first_input && screen.settle(
            ctx,
            outcome,
        ).0.form.is_password_first_input,
        screen.password_input(value).form.is_password_first_input,
{
}

/// The outcome of a registration never leaves a session token without an account.
pub proof fn signup_keeps_identity_well_formed(screen: SignupModel, ctx: Identity, outcome: Outcome)
    requires
        ctx.wf(),
    ensures
        screen.settle(ctx, outcome).1.wf(),
{
}

} // verus!
