pub mod commons;
pub mod hooks;
pub mod journey;
pub mod pages;
