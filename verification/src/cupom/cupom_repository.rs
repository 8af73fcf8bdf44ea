//! By what a cupom is looked up.

use vstd::prelude::*;

verus! {

/// The field by which a cupom is selected.
#[derive(Debug, PartialEq, Eq)]
pub enum Fields {
    Id(i32),
    Code(String),
    /// No selection.
    Unspecified,
}

impl Fields {
    /// The column that the selection compares, if there is a selection.
    pub fn column(&self) -> (name: Option<&'static str>)
        ensures
            match *self {
                Fields::Id(_) => name is Some && name->Some_0@ == "id"@,
                Fields::Code(_) => name is Some && name->Some_0@ == "code"@,
                Fields::Unspecified => name is None,
            },
    {
        match self {
            Fields::Id(_) => Some("id"),
            Fields::Code(_) => Some("code"),
            Fields::Unspecified => None,
        }
    }
}

} // verus!
