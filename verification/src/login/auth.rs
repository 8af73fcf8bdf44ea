//! What a signed-in user claims, and what it allows.

use crate::login::model::role::Role;
use vstd::prelude::*;

verus! {

/// The claims that a signed-in user carries.
#[derive(Clone, Copy, Debug, PartialEq, Eq)]
pub struct UserClaims {
    pub id: u32,
    pub role: Role,
}

/// Whether the user may use the service: administrators may.
pub fn verify_service_request(user_claims: UserClaims) -> (allowed: bool)
    ensures
        allowed == (user_claims.role == Role::Admin),
{
    match user_claims.role {
        Role::Admin => true,
        Role::BaseUser => false,
    }
}

} // verus!
