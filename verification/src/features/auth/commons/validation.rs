//! The rules for the fields of the forms: the e-mail address, the password, and the
//! password typed a second time.

use crate::pattern::{found, is_match};
use crate::text::{
    blank, blank_is_all_white_space, byte_len, characters_take_bytes, is_blank, same_text, text_of,
};
use crate::utils::{checklist, evaluate_password_rules, PasswordRulesState, MIN_PASSWORD_LENGTH};
use vstd::prelude::*;

verus! {

/// The shape `local@domain.tld`: word characters, dots and hyphens before the `@`; word
/// characters and dots in the domain; a last dot followed by one or more word characters.
pub const EMAIL_PATTERN: &'static str = r"^[\w\.-]+@[\w\.]+\.\w+$";

/// Shown for an e-mail address that is missing.
pub const EMAIL_REQUIRED: &'static str = "メールアドレスは必須です";

/// Shown for an e-mail address without the shape of one.
pub const EMAIL_FORMAT: &'static str = "有効なメールアドレスを入力してください";

/// Shown for a password of fewer than eight characters.
pub const PASSWORD_LENGTH: &'static str = "パスワードは8文字以上で入力してください";

/// Shown for a password without a digit.
pub const PASSWORD_NUMBER: &'static str = "パスワードには少なくとも1つの数字が必要です";

/// Shown for a password without a symbol.
pub const PASSWORD_SYMBOL: &'static str = "パスワードには少なくとも1つの特殊文字が必要です";

/// Shown for a password without an upper-case letter.
pub const PASSWORD_UPPERCASE: &'static str = "パスワードには少なくとも1つの大文字が必要です";

/// Shown for a password without a lower-case letter.
pub const PASSWORD_LOWERCASE: &'static str = "パスワードには少なくとも1つの小文字が必要です";

/// Shown where the second password is not the first.
pub const CONFIRM_MISMATCH: &'static str = "パスワードが一致しません";

/// The number of digits in a code for the second factor.
pub const MFA_CODE_LENGTH: usize = 6;

/// What can be wrong with an e-mail address.
#[derive(Clone, Copy, Debug, PartialEq, Eq, Structural)]
pub enum EmailFault {
    /// Nothing but white space was entered.
    Required,
    /// The text does not have the shape of an address.
    Format,
}

impl EmailFault {
    /// The message shown for the fault.
    pub open spec fn message(self) -> Seq<char> {
        match self {
            EmailFault::Required => EMAIL_REQUIRED@,
            EmailFault::Format => EMAIL_FORMAT@,
        }
    }

    /// The message as a string of its own.
    pub fn to_message(self) -> (r: String)
        ensures
            r@ == self.message(),
    {
        match self {
            EmailFault::Required => EMAIL_REQUIRED.to_owned(),
            EmailFault::Format => EMAIL_FORMAT.to_owned(),
        }
    }
}

/// A rule that a password has to meet, in the order in which the rules are checked.
#[derive(Clone, Copy, Debug, PartialEq, Eq, Structural)]
pub enum PasswordRule {
    Length,
    Number,
    Symbol,
    Uppercase,
    Lowercase,
}

impl PasswordRule {
    /// The message shown when the rule is not met.
    pub open spec fn message(self) -> Seq<char> {
        match self {
            PasswordRule::Length => PASSWORD_LENGTH@,
            PasswordRule::Number => PASSWORD_NUMBER@,
            PasswordRule::Symbol => PASSWORD_SYMBOL@,
            PasswordRule::Uppercase => PASSWORD_UPPERCASE@,
            PasswordRule::Lowercase => PASSWORD_LOWERCASE@,
        }
    }

    /// The message as a string of its own.
    pub fn to_message(self) -> (r: String)
        ensures
            r@ == self.message(),
    {
        match self {
            PasswordRule::Length => PASSWORD_LENGTH.to_owned(),
            PasswordRule::Number => PASSWORD_NUMBER.to_owned(),
            PasswordRule::Symbol => PASSWORD_SYMBOL.to_owned(),
            PasswordRule::Uppercase => PASSWORD_UPPERCASE.to_owned(),
            PasswordRule::Lowercase => PASSWORD_LOWERCASE.to_owned(),
        }
    }
}

/// The fault of an e-mail address, given whether it is blank and whether it has the shape
/// of an address. A blank one is reported as missing, whatever its shape.
pub open spec fn email_verdict(is_blank: bool, well_formed: bool) -> Option<EmailFault> {
    if is_blank {
        Some(EmailFault::Required)
    } else if !well_formed {
        Some(EmailFault::Format)
    } else {
        None
    }
}

/// Whether a text holds an `@` among its first `end` characters.
pub open spec fn at_before(text: Seq<char>, end: int) -> bool {
    exists|i: int| 0 <= i < end && i < text.len() && text[i] == '@'
}

/// Whether a text holds, among its first `end` characters, an `@` and a dot after it.
pub open spec fn at_then_dot_before(text: Seq<char>, end: int) -> bool {
    exists|i: int, j: int|
        0 <= i < j < end && j < text.len() && text[i] == '@' && text[j] == '.'
}

/// Whether a text holds an `@` and, somewhere after it, a dot: what every address has,
/// whatever else it is made of.
pub open spec fn at_then_dot(text: Seq<char>) -> bool {
    at_then_dot_before(text, text.len() as int)
}

/// Whether a text has the shape of an address: it holds an `@` with a dot after it, and
/// the pattern of an address is found in it.
pub open spec fn well_formed(email: Seq<char>) -> bool {
    at_then_dot(email) && found(EMAIL_PATTERN@, email)
}

/// The fault of an e-mail address.
pub open spec fn email_fault(email: Seq<char>) -> Option<EmailFault> {
    email_verdict(blank(email), well_formed(email))
}

/// The error message for an e-mail address: none where the address is accepted.
pub open spec fn email_error(email: Seq<char>) -> Option<Seq<char>> {
    match email_fault(email) {
        Some(fault) => Some(fault.message()),
        None => None,
    }
}

/// The first rule of the checklist that is not met, in the order length, digit, symbol,
/// upper case, lower case.
pub open spec fn first_unmet(rules: PasswordRulesState) -> Option<PasswordRule> {
    if !rules.length {
        Some(PasswordRule::Length)
    } else if !rules.number {
        Some(PasswordRule::Number)
    } else if !rules.symbol {
        Some(PasswordRule::Symbol)
    } else if !rules.uppercase {
        Some(PasswordRule::Uppercase)
    } else if !rules.lowercase {
        Some(PasswordRule::Lowercase)
    } else {
        None
    }
}

/// The rule on which a password fails: the first one that it does not meet.
pub open spec fn password_fault(password: Seq<char>) -> Option<PasswordRule> {
    first_unmet(checklist(password))
}

/// The error message for a password: none where it meets all five rules.
pub open spec fn password_error(password: Seq<char>) -> Option<Seq<char>> {
    match password_fault(password) {
        Some(rule) => Some(rule.message()),
        None => None,
    }
}

/// The error message for the password typed a second time: none exactly where it is the
/// password, character for character.
pub open spec fn confirm_error(password: Seq<char>, confirm: Seq<char>) -> Option<Seq<char>> {
    if password == confirm {
        None
    } else {
        Some(CONFIRM_MISMATCH@)
    }
}

/// Decides the fault of an e-mail address from the two facts that are found about it.
pub fn judge_email(is_blank: bool, well_formed: bool) -> (r: Option<EmailFault>)
    ensures
        r == email_verdict(is_blank, well_formed),
{
    if is_blank {
        Some(EmailFault::Required)
    } else if !well_formed {
        Some(EmailFault::Format)
    } else {
        None
    }
}

/// Picks the first rule of a checklist that is not met.
pub fn first_unmet_rule(rules: &PasswordRulesState) -> (r: Option<PasswordRule>)
    ensures
        r == first_unmet(*rules),
{
    if !rules.length {
        Some(PasswordRule::Length)
    } else if !rules.number {
        Some(PasswordRule::Number)
    } else if !rules.symbol {
        Some(PasswordRule::Symbol)
    } else if !rules.uppercase {
        Some(PasswordRule::Uppercase)
    } else if !rules.lowercase {
        Some(PasswordRule::Lowercase)
    } else {
        None
    }
}

/// Looks for an `@` and, after it, a dot.
pub fn has_at_then_dot(text: &str) -> (r: bool)
    ensures
        r == at_then_dot(text@),
{
    let mut seen_at = false;
    let mut seen_dot = false;
    for c in it: text.chars()
        invariant
            it.seq() == text@,
            seen_at == at_before(text@, it.index() as int),
            seen_dot == at_then_dot_before(text@, it.index() as int),
    {
        if seen_at && c == '.' {
            seen_dot = true;
        }
        if c == '@' {
            seen_at = true;
        }
    }
    seen_dot
}

/// Whether a text is a code for the second factor: six characters, each an ASCII digit.
pub open spec fn mfa_code(code: Seq<char>) -> bool {
    code.len() == MFA_CODE_LENGTH && forall|i: int|
        0 <= i < code.len() ==> '0' <= #[trigger] code[i] <= '9'
}

/// Checks that a text is a code for the second factor.
pub fn is_mfa_code(code: &str) -> (r: bool)
    ensures
        r == mfa_code(code@),
{
    if code.unicode_len() != MFA_CODE_LENGTH {
        return false;
    }
    let mut i: usize = 0;
    while i < MFA_CODE_LENGTH
        invariant
            i <= MFA_CODE_LENGTH,
            code@.len() == MFA_CODE_LENGTH,
            forall|k: int| 0 <= k < i ==> '0' <= #[trigger] code@[k] <= '9',
        decreases MFA_CODE_LENGTH - i,
    {
        let c = code.get_char(i);
        if c < '0' || c > '9' {
            return false;
        }
        i += 1;
    }
    true
}

/// Checks an e-mail address: it must not be blank, and it must have the shape of an
/// address. An empty one is always reported as missing.
///
/// The pattern decides the shape. That an address needs its `@` and a dot after it is
/// checked here as well, so that it holds whatever the pattern is taken to mean.
pub fn validate_email(val: &str) -> (r: Option<String>)
    ensures
        text_of(r) == email_error(val@),
        val@.len() == 0 ==> text_of(r) == Some(EmailFault::Required.message()),
{
    let is_missing = is_blank(val);
    let is_well_formed = !is_missing && has_at_then_dot(val) && is_match(EMAIL_PATTERN, val);
    match judge_email(is_missing, is_well_formed) {
        Some(fault) => Some(fault.to_message()),
        None => None,
    }
}

/// Checks a password against the five rules in their order and reports the first that it
/// does not meet. A password of fewer than eight characters fails on its length, whatever
/// it holds.
pub fn validate_password(val: &str) -> (r: Option<String>)
    ensures
        text_of(r) == password_error(val@),
        val@.len() < MIN_PASSWORD_LENGTH ==> text_of(r) == Some(PasswordRule::Length.message()),
{
    let rules = evaluate_password_rules(val);
    match first_unmet_rule(&rules) {
        Some(rule) => Some(rule.to_message()),
        None => None,
    }
}

/// Checks that the password typed a second time is the password: compared as it stands,
/// with case and white space.
pub fn validate_confirm(password: &str, confirm: &str) -> (r: Option<String>)
    ensures
        text_of(r) == confirm_error(password@, confirm@),
        r is None <==> password@ == confirm@,
{
    if same_text(password, confirm) {
        None
    } else {
        Some(CONFIRM_MISMATCH.to_owned())
    }
}

/// The errors of the three fields of the sign-up form.
#[derive(Debug, PartialEq, Eq)]
pub struct SignupValidationErrors {
    pub email: Option<String>,
    pub password: Option<String>,
    pub confirm: Option<String>,
}

/// The errors of the sign-up form as texts.
pub struct SignupErrors {
    pub email: Option<Seq<char>>,
    pub password: Option<Seq<char>>,
    pub confirm: Option<Seq<char>>,
}

impl SignupErrors {
    /// Whether no field has an error.
    pub open spec fn is_empty(self) -> bool {
        self.email is None && self.password is None && self.confirm is None
    }
}

impl View for SignupValidationErrors {
    type V = SignupErrors;

    open spec fn view(&self) -> SignupErrors {
        SignupErrors {
            email: text_of(self.email),
            password: text_of(self.password),
            confirm: text_of(self.confirm),
        }
    }
}

impl Default for SignupValidationErrors {
    fn default() -> (r: Self)
        ensures
            r@.is_empty(),
    {
        SignupValidationErrors { email: None, password: None, confirm: None }
    }
}

impl SignupValidationErrors {
    /// Whether no field has an error.
    pub fn is_empty(&self) -> (r: bool)
        ensures
            r == self@.is_empty(),
    {
        self.email.is_none() && self.password.is_none() && self.confirm.is_none()
    }
}

/// The errors of a sign-up form: each field judged by its own rule, whatever the others
/// hold.
pub open spec fn signup_errors(
    email: Seq<char>,
    password: Seq<char>,
    confirm_password: Seq<char>,
) -> SignupErrors {
    SignupErrors {
        email: email_error(email),
        password: password_error(password),
        confirm: confirm_error(password, confirm_password),
    }
}

/// The verdict on a sign-up form: accepted where no field has an error, else all the
/// errors at once.
pub open spec fn signup_verdict(
    email: Seq<char>,
    password: Seq<char>,
    confirm_password: Seq<char>,
) -> Result<(), SignupErrors> {
    let errors = signup_errors(email, password, confirm_password);
    if errors.is_empty() {
        Ok(())
    } else {
        Err(errors)
    }
}

/// A verdict on a sign-up form with its errors as texts.
pub open spec fn verdict_view(verdict: Result<(), SignupValidationErrors>) -> Result<
    (),
    SignupErrors,
> {
    match verdict {
        Ok(_) => Ok(()),
        Err(errors) => Err(errors@),
    }
}

/// Checks the three fields of the sign-up form. The form is accepted only where all three
/// are; where it is not, the errors of all fields are returned together.
pub fn validate_signup(email: &str, password: &str, confirm_password: &str) -> (r: Result<
    (),
    SignupValidationErrors,
>)
    ensures
        verdict_view(r) == signup_verdict(email@, password@, confirm_password@),
{
    let errors = SignupValidationErrors {
        email: validate_email(email),
        password: validate_password(password),
        confirm: validate_confirm(password, confirm_password),
    };
    if errors.is_empty() {
        Ok(())
    } else {
        Err(errors)
    }
}

/// No two faults share a message: a message tells which fault was found.
pub proof fn messages_are_distinct()
    ensures
        EmailFault::Required.message() != EmailFault::Format.message(),
        forall|a: PasswordRule, b: PasswordRule| a != b ==> a.message() != b.message(),
{
    reveal_strlit("メールアドレスは必須です");
    reveal_strlit("有効なメールアドレスを入力してください");
    reveal_strlit("パスワードは8文字以上で入力してください");
    reveal_strlit("パスワードには少なくとも1つの数字が必要です");
    reveal_strlit("パスワードには少なくとも1つの特殊文字が必要です");
    reveal_strlit("パスワードには少なくとも1つの大文字が必要です");
    reveal_strlit("パスワードには少なくとも1つの小文字が必要です");
    assert(EMAIL_REQUIRED@[0] != EMAIL_FORMAT@[0]);
    assert(PASSWORD_LENGTH@[5] != PASSWORD_NUMBER@[5]);
    assert(PASSWORD_LENGTH@[5] != PASSWORD_SYMBOL@[5]);
    assert(PASSWORD_LENGTH@[5] != PASSWORD_UPPERCASE@[5]);
    assert(PASSWORD_LENGTH@[5] != PASSWORD_LOWERCASE@[5]);
    assert(PASSWORD_NUMBER@[15] != PASSWORD_SYMBOL@[15]);
    assert(PASSWORD_NUMBER@[15] != PASSWORD_UPPERCASE@[15]);
    assert(PASSWORD_NUMBER@[15] != PASSWORD_LOWERCASE@[15]);
    assert(PASSWORD_SYMBOL@[15] != PASSWORD_UPPERCASE@[15]);
    assert(PASSWORD_SYMBOL@[15] != PASSWORD_LOWERCASE@[15]);
    assert(PASSWORD_UPPERCASE@[15] != PASSWORD_LOWERCASE@[15]);
}

/// A password of fewer than eight characters fails on its length, and its error is the
/// message of no other rule, whatever the password holds. So does, all the more, one of
/// fewer than eight bytes.
pub proof fn short_password_fails_on_length(password: Seq<char>)
    requires
        password.len() < MIN_PASSWORD_LENGTH || byte_len(password) < MIN_PASSWORD_LENGTH,
    ensures
        password_fault(password) == Some(PasswordRule::Length),
        password_error(password) == Some(PasswordRule::Length.message()),
        forall|rule: PasswordRule|
            rule != PasswordRule::Length ==> password_error(password) != Some(
                #[trigger] rule.message(),
            ),
{
    messages_are_distinct();
    characters_take_bytes(password);
}

/// A password passes exactly where it meets all five rules.
pub proof fn password_passes_on_all_rules(password: Seq<char>)
    ensures
        password_error(password) is None <==> {
            let rules = checklist(password);
            rules.length && rules.number && rules.symbol && rules.uppercase && rules.lowercase
        },
{
}

/// An address that is not blank and has the shape of an address is accepted. An empty one
/// is reported as missing, as every blank one is. One without an `@`, or without a dot
/// after an `@`, is refused, and so is every one in which the pattern is not found.
pub proof fn email_is_judged_by_shape(email: Seq<char>)
    ensures
        !blank(email) && well_formed(email) ==> email_error(email) is None,
        email.len() == 0 ==> email_error(email) == Some(EmailFault::Required.message()),
        blank(email) ==> email_error(email) == Some(EmailFault::Required.message()),
        !email.contains('@') ==> email_error(email) is Some,
        (forall|i: int, j: int|
            0 <= i < j < email.len() && email[i] == '@' ==> email[j] != '.') ==> email_error(
            email,
        ) is Some,
        !found(EMAIL_PATTERN@, email) ==> email_error(email) is Some,
        email_error(email) is None ==> email.len() > 0,
{
    blank_is_all_white_space(email);
    if at_then_dot(email) {
        let (i, j) = choose|i: int, j: int|
            0 <= i < j < email.len() && j < email.len() && email[i] == '@' && email[j] == '.';
        assert(email.contains('@'));
    }
}

/// A form that is accepted has something in each of its three fields.
pub proof fn accepted_signup_is_filled_in(
    email: Seq<char>,
    password: Seq<char>,
    confirm_password: Seq<char>,
)
    requires
        signup_verdict(email, password, confirm_password) is Ok,
    ensures
        email.len() > 0,
        password.len() > 0,
        confirm_password.len() > 0,
{
    blank_is_all_white_space(email);
}

/// The second password is accepted when it is the password and in no other case: a
/// difference in one character is enough, a space at the end too.
pub proof fn confirm_accepts_only_the_password(password: Seq<char>, confirm: Seq<char>)
    ensures
        confirm_error(password, password) is None,
        password != confirm ==> confirm_error(password, confirm) is Some,
        confirm_error(password, password.push(' ')) is Some,
{
    assert(password.push(' ').len() != password.len());
}

/// Where all three fields of the sign-up form are wrong, the form is refused with the
/// error of each of the three, never with the first alone.
pub proof fn signup_reports_every_fault(
    email: Seq<char>,
    password: Seq<char>,
    confirm_password: Seq<char>,
)
    requires
        email_error(email) is Some,
        password_error(password) is Some,
        confirm_error(password, confirm_password) is Some,
    ensures
        signup_verdict(email, password, confirm_password) matches Err(errors) && errors.email
            == email_error(email) && errors.password == password_error(password) && errors.confirm
            == confirm_error(password, confirm_password),
{
}

/// The sign-up form is accepted exactly where each of its three fields is, and a refusal
/// carries for each field the verdict of that field's own rule.
pub proof fn signup_judges_each_field(
    email: Seq<char>,
    password: Seq<char>,
    confirm_password: Seq<char>,
)
    ensures
        signup_verdict(email, password, confirm_password) is Ok <==> email_error(email) is None
            && password_error(password) is None && confirm_error(password, confirm_password)
            is None,
        signup_verdict(email, password, confirm_password) matches Err(errors) ==> errors
            == signup_errors(email, password, confirm_password),
{
}

} // verus!
