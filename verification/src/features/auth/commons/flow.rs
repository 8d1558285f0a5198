//! What a screen asks of its host after an event.

use crate::api::{ApiRequest, Payload};
use crate::routes::Route;
use vstd::prelude::*;

verus! {

/// What the host has to do after a screen has handled an event. The screens decide; the
/// host sends, navigates and hands the outcome of a request back.
#[derive(Clone, Debug, PartialEq, Eq)]
pub enum Directive {
    /// Nothing: the screen stays as it is shown.
    Stay,
    /// Send the request to the authentication service and hand back what became of it.
    Send(ApiRequest),
    /// Show another screen of the application.
    Navigate(Route),
    /// Leave the application for the given address.
    Leave(String),
}

/// A directive with its texts.
pub enum Step {
    Stay,
    Send(Payload),
    Navigate(Route),
    Leave(Seq<char>),
}

impl View for Directive {
    type V = Step;

    open spec fn view(&self) -> Step {
        match self {
            Directive::Stay => Step::Stay,
            Directive::Send(request) => Step::Send(request@),
            Directive::Navigate(route) => Step::Navigate(*route),
            Directive::Leave(url) => Step::Leave(url@),
        }
    }
}

impl Directive {
    /// Whether the directive asks for a request to the service.
    pub fn is_request(&self) -> (r: bool)
        ensures
            r == (self@ is Send),
    {
        match self {
            Directive::Send(_) => true,
            _ => false,
        }
    }
}

} // verus!
