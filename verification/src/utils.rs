//! Helpers shared by the screens: the two ways in which a field is checked while the user
//! types, and the live checklist of the password rules.

use crate::pattern::{found, is_match};
use crate::text::char_count;
use vstd::prelude::*;

verus! {

/// The fewest characters a password may have.
pub const MIN_PASSWORD_LENGTH: usize = 8;

/// Occurs in a text that holds an ASCII digit.
pub const DIGIT_PATTERN: &'static str = r"[0-9]";

/// Occurs in a text that holds an ASCII lower-case letter.
pub const LOWERCASE_PATTERN: &'static str = r"[a-z]";

/// Occurs in a text that holds an ASCII upper-case letter.
pub const UPPERCASE_PATTERN: &'static str = r"[A-Z]";

/// Occurs in a text that holds one of the accepted symbols.
pub const SYMBOL_PATTERN: &'static str = r#"[!@#$%^&*(),.?\":{}|<>]"#;

/// Takes a keystroke into a field that is checked only once the form has been submitted:
/// the field takes the new value, and its error is the validator's verdict on that value
/// after a first submission, and none before it.
pub fn make_input_handler_with_submit<F>(
    state: &mut String,
    error_state: &mut Option<String>,
    submitted: bool,
    validator: F,
    value: &str,
) where F: Fn(&str) -> Option<String>
    requires
        submitted ==> call_requires(validator, (value,)),
    ensures
        final(state)@ == value@,
        submitted ==> call_ensures(validator, (value,), *final(error_state)),
        !submitted ==> *final(error_state) is None,
{
    let validation_result = if submitted {
        validator(value)
    } else {
        None
    };
    *state = value.to_owned();
    *error_state = validation_result;
}

/// Takes a keystroke into a field that is checked at once: the field takes the new value,
/// and its error is the validator's verdict on that value.
pub fn make_input_handler<F>(
    state: &mut String,
    error_state: &mut Option<String>,
    validator: F,
    value: &str,
) where F: Fn(&str) -> Option<String>
    requires
        call_requires(validator, (value,)),
    ensures
        final(state)@ == value@,
        call_ensures(validator, (value,), *final(error_state)),
{
    let validation_result = validator(value);
    *state = value.to_owned();
    *error_state = validation_result;
}

/// The five password rules, each met or not.
#[derive(Clone, Copy, Debug, PartialEq, Eq, Structural)]
pub struct PasswordRules {
    pub length: bool,
    pub number: bool,
    pub lowercase: bool,
    pub uppercase: bool,
    pub symbol: bool,
}

impl Default for PasswordRules {
    fn default() -> (r: Self)
        ensures
            r == (PasswordRules {
                length: false,
                number: false,
                lowercase: false,
                uppercase: false,
                symbol: false,
            }),
    {
        PasswordRules {
            length: false,
            number: false,
            lowercase: false,
            uppercase: false,
            symbol: false,
        }
    }
}

impl PasswordRules {
    /// The rules as a given password meets them, each judged by itself.
    pub open spec fn of(password: Seq<char>) -> PasswordRules {
        PasswordRules {
            length: password.len() >= MIN_PASSWORD_LENGTH,
            number: found(DIGIT_PATTERN@, password),
            lowercase: found(LOWERCASE_PATTERN@, password),
            uppercase: found(UPPERCASE_PATTERN@, password),
            symbol: found(SYMBOL_PATTERN@, password),
        }
    }

    /// Whether all five rules are met.
    pub open spec fn all_valid(self) -> bool {
        self.length && self.number && self.lowercase && self.uppercase && self.symbol
    }

    /// Judges a password against each of the five rules.
    pub fn from_password(password: &str) -> (r: Self)
        ensures
            r == PasswordRules::of(password@),
    {
        PasswordRules {
            length: char_count(password) >= MIN_PASSWORD_LENGTH,
            number: is_match(DIGIT_PATTERN, password),
            lowercase: is_match(LOWERCASE_PATTERN, password),
            uppercase: is_match(UPPERCASE_PATTERN, password),
            symbol: is_match(SYMBOL_PATTERN, password),
        }
    }

    /// Whether all five rules are met.
    pub fn is_all_valid(&self) -> (r: bool)
        ensures
            r == self.all_valid(),
    {
        self.length && self.number && self.lowercase && self.uppercase && self.symbol
    }
}

/// The state of the live checklist under the password field: one flag for each rule.
#[derive(Clone, Copy, Debug, PartialEq, Eq, Structural)]
pub struct PasswordRulesState {
    pub length: bool,
    pub number: bool,
    pub lowercase: bool,
    pub uppercase: bool,
    pub symbol: bool,
}

impl Default for PasswordRulesState {
    fn default() -> (r: Self)
        ensures
            r == PasswordRulesState::unmet(),
    {
        PasswordRulesState {
            length: false,
            number: false,
            lowercase: false,
            uppercase: false,
            symbol: false,
        }
    }
}

impl PasswordRulesState {
    /// The checklist before anything was typed: no rule is met.
    pub open spec fn unmet() -> PasswordRulesState {
        PasswordRulesState {
            length: false,
            number: false,
            lowercase: false,
            uppercase: false,
            symbol: false,
        }
    }
}

/// The checklist that a password earns. Each flag depends on the password alone, not on
/// another flag: the length counts characters, the other four search for a class of
/// characters.
pub open spec fn checklist(password: Seq<char>) -> PasswordRulesState {
    PasswordRulesState {
        length: password.len() >= MIN_PASSWORD_LENGTH,
        number: found(DIGIT_PATTERN@, password),
        lowercase: found(LOWERCASE_PATTERN@, password),
        uppercase: found(UPPERCASE_PATTERN@, password),
        symbol: found(SYMBOL_PATTERN@, password),
    }
}

/// Computes all five flags of the checklist, none short-circuited by another.
pub fn evaluate_password_rules(password: &str) -> (r: PasswordRulesState)
    ensures
        r == checklist(password@),
{
    PasswordRulesState {
        length: char_count(password) >= MIN_PASSWORD_LENGTH,
        number: is_match(DIGIT_PATTERN, password),
        lowercase: is_match(LOWERCASE_PATTERN, password),
        uppercase: is_match(UPPERCASE_PATTERN, password),
        symbol: is_match(SYMBOL_PATTERN, password),
    }
}

/// Each flag of the checklist is decided by its own rule: what one flag says changes
/// nothing in what another says.
pub proof fn checklist_flags_are_independent(password: Seq<char>)
    ensures
        checklist(password).length <==> password.len() >= MIN_PASSWORD_LENGTH,
        checklist(password).number <==> found(DIGIT_PATTERN@, password),
        checklist(password).lowercase <==> found(LOWERCASE_PATTERN@, password),
        checklist(password).uppercase <==> found(UPPERCASE_PATTERN@, password),
        checklist(password).symbol <==> found(SYMBOL_PATTERN@, password),
{
}

/// Evaluating the same password twice gives the same checklist: whatever two evaluations
/// return, both are the checklist that the password earns.
pub proof fn evaluation_is_repeatable(
    password: Seq<char>,
    first: PasswordRulesState,
    second: PasswordRulesState,
)
    requires
        first == checklist(password),
        second == checklist(password),
    ensures
        first == second,
{
}

} // verus!
