//! The decision of a login by email.

use crate::login::model::login::LoginError;
use vstd::prelude::*;
use vstd::string::*;

verus! {

/// The message for an email that no user has.
pub open spec fn unknown_user_message(email: Seq<char>) -> Seq<char> {
    "User with email `"@ + email + "` not found"@
}

/// Turns the result of the lookup by email into the outcome of the login: a
/// user that was found is let in, an unknown email is refused.
pub fn authenticate(email: &str, found: Option<(i32, String)>) -> (r: Result<(), LoginError>)
    ensures
        found is Some ==> r is Ok,
        found is None ==> r is Err && r->Err_0 is AuthorizationError
            && r->Err_0->AuthorizationError_0@ == unknown_user_message(email@),
{
    match found {
        Some(_) => Ok(()),
        None => Err(
            LoginError::AuthorizationError(
                String::from_str("User with email `").concat(email).concat("` not found"),
            ),
        ),
    }
}

} // verus!
