//! How the screens hand over to one another: what one screen leaves in the shared data is
//! what the next one needs to open.

use crate::api::Outcome;
use crate::features::auth::commons::flow::Step;
use crate::features::auth::hooks::use_confirm_state::confirm_guard;
use crate::features::auth::hooks::use_signin_mfa_state::SigninMfaModel;
use crate::features::auth::hooks::use_signin_state::{Reply, SigninModel};
use crate::features::auth::hooks::use_signup_state::SignupModel;
use crate::routes::Route;
use crate::types::Identity;
use vstd::prelude::*;

verus! {

/// In an application that has just started, the screens that need an account send the
/// user to the sign-in.
pub proof fn fresh_application_starts_at_the_sign_in(redirect_url: Seq<char>)
    ensures
        Identity::empty().wf(),
        confirm_guard(Identity::empty()) == Step::Navigate(Route::Signin),
        SigninMfaModel::initial(Identity::empty(), redirect_url).guard() == Step::Navigate(
            Route::Signin,
        ),
{
}

/// An accepted registration leads to the screen for the confirmation code, and that
/// screen opens on the account that was registered.
pub proof fn registration_opens_the_confirmation(
    screen: SignupModel,
    ctx: Identity,
    outcome: Outcome,
)
    requires
        screen.wf(),
        screen.in_flight is Some,
        outcome is Success,
    ensures
        screen.settle(ctx, outcome).2 == Step::Navigate(Route::SignupConfirm),
        screen.settle(ctx, outcome).1.email == screen.in_flight->0,
        confirm_guard(screen.settle(ctx, outcome).1) is Stay,
{
}

/// A sign-in for an account that is not confirmed leads to the screen for the
/// confirmation code, and that screen opens on the account that tried to sign in.
pub proof fn unconfirmed_sign_in_opens_the_confirmation(screen: SigninModel, ctx: Identity)
    requires
        screen.wf(),
        screen.in_flight is Some,
    ensures
        screen.settle(ctx, Reply::Unconfirmed).2 == Step::Navigate(Route::SignupConfirm),
        confirm_guard(screen.settle(ctx, Reply::Unconfirmed).1) is Stay,
{
}

/// An accepted sign-in leads to the screen for the second factor. With a session token
/// that screen opens on the account and the token; without one it sends the user back to
/// the sign-in.
pub proof fn sign_in_opens_the_second_factor(
    screen: SigninModel,
    ctx: Identity,
    session: Seq<char>,
    redirect_url: Seq<char>,
)
    requires
        screen.wf(),
        screen.in_flight is Some,
    ensures
        screen.settle(ctx, Reply::SignedIn(session)).2 == Step::Navigate(Route::SigninMfa),
        ({
            let opened = SigninMfaModel::initial(
                screen.settle(ctx, Reply::SignedIn(session)).1,
                redirect_url,
            );
            &&& opened.form.email == screen.in_flight->0
            &&& opened.form.session == session
            &&& session.len() > 0 ==> opened.guard() is Stay
            &&& session.len() == 0 ==> opened.guard() == Step::Navigate(Route::Signin)
        }),
{
}

} // verus!
