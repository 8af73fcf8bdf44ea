//! A login request and its failures.

use vstd::prelude::*;

verus! {

/// The body of a login request.
#[derive(Debug, PartialEq, Eq)]
pub struct LoginRequest {
    pub email: String,
    pub password: String,
}

/// Why a login failed, with the message for the caller.
#[derive(Debug, PartialEq, Eq)]
pub enum LoginError {
    NotFoundError(String),
    AuthorizationError(String),
    UnexpectedError(String),
}

impl LoginError {
    /// The status that answers the failed login.
    pub fn status_code(&self) -> (status: u16)
        ensures
            status == match *self {
                LoginError::NotFoundError(_) => 404u16,
                LoginError::AuthorizationError(_) => 401u16,
                LoginError::UnexpectedError(_) => 500u16,
            },
    {
        match self {
            LoginError::NotFoundError(_) => 404,
            LoginError::AuthorizationError(_) => 401,
            LoginError::UnexpectedError(_) => 500,
        }
    }
}

} // verus!
