//! Values the application is configured with at start-up.

use vstd::prelude::*;

verus! {

/// The public address under which the application is reached; confirmation
/// links begin with it.
pub struct ApplicationBaseUrl(pub String);

} // verus!
