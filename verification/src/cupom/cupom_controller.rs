//! The bodies of the lookup requests.

use vstd::prelude::*;

verus! {

/// A lookup by id.
#[derive(Clone, Copy, Debug, PartialEq, Eq)]
pub struct Id {
    pub id: i32,
}

/// A lookup by code.
#[derive(Clone, Debug, PartialEq, Eq)]
pub struct Code {
    pub code: String,
}

} // verus!
