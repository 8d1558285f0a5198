pub mod mfa;
pub mod reset;
