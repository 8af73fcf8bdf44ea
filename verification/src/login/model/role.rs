//! The role of a user.

use vstd::prelude::*;

verus! {

/// What a user may do.
#[derive(Clone, Copy, Debug, PartialEq, Eq, Structural)]
pub enum Role {
    Admin,
    BaseUser,
}

} // verus!
