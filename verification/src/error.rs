//! The one kind of failure there is.

use vstd::prelude::*;

verus! {

/// An authentication failure. Every denial is this error, whatever caused it.
#[derive(Debug, Clone, Copy)]
pub struct AuthError;

impl AuthError {
    /// The text that describes the failure.
    pub open spec fn text() -> Seq<char> {
        "authentication error"@
    }

    /// A short description of the failure, the same for every denial.
    pub fn description(&self) -> (text: &'static str)
        ensures
            text@ == Self::text(),
    {
        "authentication error"
    }
}

} // verus!
