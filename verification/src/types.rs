//! The data that the screens share.

use vstd::prelude::*;

verus! {

/// Who is signing in, carried from one screen to the next: the e-mail address of the
/// account, and the session token that the second factor has to present. An empty token
/// means that no second factor is awaited.
#[derive(Debug, Clone, PartialEq, Eq)]
pub struct AuthContext {
    pub email: String,
    pub session: String,
}

/// The shared data as texts.
pub struct Identity {
    pub email: Seq<char>,
    pub session: Seq<char>,
}

impl Identity {
    /// The shared data of an application that has just started.
    pub open spec fn empty() -> Identity {
        Identity { email: Seq::empty(), session: Seq::empty() }
    }

    /// A session token is only ever held for a known account.
    pub open spec fn wf(self) -> bool {
        self.session.len() > 0 ==> self.email.len() > 0
    }
}

impl View for AuthContext {
    type V = Identity;

    open spec fn view(&self) -> Identity {
        Identity { email: self.email@, session: self.session@ }
    }
}

impl AuthContext {
    /// The shared data at the start of the application: no account, no token.
    pub fn new() -> (r: Self)
        ensures
            r@ == Identity::empty(),
            r@.wf(),
    {
        AuthContext { email: String::new(), session: String::new() }
    }

    /// The e-mail address of the account.
    pub fn email(&self) -> (r: &str)
        ensures
            r@ == self@.email,
    {
        self.email.as_str()
    }

    /// The session token, empty where no second factor is awaited.
    pub fn session(&self) -> (r: &str)
        ensures
            r@ == self@.session,
    {
        self.session.as_str()
    }

    /// Replaces the e-mail address and leaves the token as it is. Nothing is checked here:
    /// the screens that write keep a token from outliving its account.
    pub fn set_email(&mut self, email: String)
        ensures
            final(self)@ == (Identity { email: email@, session: old(self)@.session }),
            final(self)@.wf() <==> email@.len() > 0 || old(self)@.session.len() == 0,
    {
        self.email = email;
    }

    /// Replaces the session token and leaves the e-mail address as it is.
    pub fn set_session(&mut self, session: String)
        ensures
            final(self)@ == (Identity { email: old(self)@.email, session: session@ }),
            final(self)@.wf() <==> session@.len() == 0 || old(self)@.email.len() > 0,
    {
        self.session = session;
    }
}

} // verus!
