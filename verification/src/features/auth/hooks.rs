pub mod use_confirm_state;
pub mod use_password_reset_request_state;
pub mod use_signin_mfa_state;
pub mod use_signin_state;
pub mod use_signup_state;
