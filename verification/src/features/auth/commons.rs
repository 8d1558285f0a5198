pub mod flow;
pub mod validation;
