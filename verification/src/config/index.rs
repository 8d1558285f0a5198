//! The one setting that the application needs: where to send the user once the sign-in is
//! complete.

use vstd::prelude::*;

verus! {

/// The address to which the user is sent after the second factor was accepted. The setting
/// is fixed when the application is built and must be present: an application without it
/// does not start.
pub fn get_redirect_url(configured: Option<&str>) -> (r: String)
    requires
        configured is Some,
    ensures
        r@ == configured->0@,
{
    match configured {
        Some(url) => url.to_owned(),
        None => String::new(),
    }
}

} // verus!
