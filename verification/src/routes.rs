//! The screens of the application and the paths under which the router shows them.

use vstd::prelude::*;

verus! {

/// A screen of the application.
#[derive(Clone, Copy, Debug, PartialEq, Eq, Structural)]
pub enum Route {
    Signup,
    SignupConfirm,
    SignupConfirmComplete,
    Signin,
    SigninMfa,
    PasswordResetRequest,
    PasswordResetMfa,
    PasswordReset,
    /// Shown for every path that names no screen.
    NotFound,
}

impl Route {
    /// The path of a screen.
    pub open spec fn path(self) -> Seq<char> {
        match self {
            Route::Signup => "/auth/signup"@,
            Route::SignupConfirm => "/auth/signup/confirm"@,
            Route::SignupConfirmComplete => "/auth/signup/confirm/complete"@,
            Route::Signin => "/auth/signin"@,
            Route::SigninMfa => "/auth/signin/mfa"@,
            Route::PasswordResetRequest => "/auth/forgot"@,
            Route::PasswordResetMfa => "/auth/forgot/mfa"@,
            Route::PasswordReset => "/auth/reset"@,
            Route::NotFound => "/404"@,
        }
    }

    /// The path that is pushed to the router to show a screen.
    pub fn to_path(self) -> (r: &'static str)
        ensures
            r@ == self.path(),
    {
        match self {
            Route::Signup => "/auth/signup",
            Route::SignupConfirm => "/auth/signup/confirm",
            Route::SignupConfirmComplete => "/auth/signup/confirm/complete",
            Route::Signin => "/auth/signin",
            Route::SigninMfa => "/auth/signin/mfa",
            Route::PasswordResetRequest => "/auth/forgot",
            Route::PasswordResetMfa => "/auth/forgot/mfa",
            Route::PasswordReset => "/auth/reset",
            Route::NotFound => "/404",
        }
    }
}

/// No two screens share a path.
pub proof fn paths_are_distinct()
    ensures
        forall|a: Route, b: Route| a != b ==> a.path() != b.path(),
{
    reveal_strlit("/auth/signup");
    reveal_strlit("/auth/signup/confirm");
    reveal_strlit("/auth/signup/confirm/complete");
    reveal_strlit("/auth/signin");
    reveal_strlit("/auth/signin/mfa");
    reveal_strlit("/auth/forgot");
    reveal_strlit("/auth/forgot/mfa");
    reveal_strlit("/auth/reset");
    reveal_strlit("/404");
    assert("/auth/signup"@.len() == 12 && "/auth/signin"@.len() == 12);
    assert("/auth/forgot"@.len() == 12 && "/auth/reset"@.len() == 11);
    assert("/auth/signin/mfa"@.len() == 16 && "/auth/forgot/mfa"@.len() == 16);
    assert("/auth/signup/confirm"@.len() == 20);
    assert("/auth/signup/confirm/complete"@.len() == 29);
    assert("/404"@.len() == 4);
    assert("/auth/signup"@[10] != "/auth/signin"@[10]);
    assert("/auth/signup"@[6] != "/auth/forgot"@[6]);
    assert("/auth/signin"@[6] != "/auth/forgot"@[6]);
    assert("/auth/signin/mfa"@[6] != "/auth/forgot/mfa"@[6]);
}

} // verus!
