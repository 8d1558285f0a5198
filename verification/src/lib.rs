//! The client side of a multi-step authentication flow: the rules that gate each form, the
//! session data carried from one screen to the next, the classification of what the
//! authentication service answers, and one controller for each screen.

pub mod api;
pub mod config;
pub mod features;
pub mod pattern;
pub mod routes;
pub mod text;
pub mod types;
pub mod utils;
