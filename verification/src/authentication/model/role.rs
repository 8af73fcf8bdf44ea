//! The role of a caller.

use vstd::prelude::*;
use vstd::string::*;

verus! {

/// What a caller may do.
#[derive(Clone, Copy, Debug, PartialEq, Eq, Structural)]
pub enum Role {
    Admin,
    BaseUser,
}

impl Role {
    /// The name under which the role is shown.
    pub fn to_string(&self) -> (name: String)
        ensures
            name@ == match *self {
                Role::Admin => "Admin"@,
                Role::BaseUser => "User"@,
            },
    {
        match self {
            Role::Admin => String::from_str("Admin"),
            Role::BaseUser => String::from_str("User"),
        }
    }
}

} // verus!
