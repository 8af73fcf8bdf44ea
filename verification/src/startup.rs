//! Values that the running application hands to its handlers.

use vstd::prelude::*;

verus! {

/// The base URL of the service. A type of its own, so that handlers can ask for
/// it without meeting another text.
#[derive(Clone, Debug, PartialEq, Eq)]
pub struct ApplicationBaseUrl(pub String);

/// The expected API key, as the handlers receive it.
#[derive(Clone, PartialEq, Eq)]
pub struct ApplicationApiKey(pub String);

} // verus!
