use vstd::prelude::*;

verus! {

/// First words of the answer to a failed authentication.
pub const AUTH_FAILED_TMP: &'static str = "Auth filed!";

} // verus!
