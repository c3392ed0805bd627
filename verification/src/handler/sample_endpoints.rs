//! Two endpoints that exist to exercise the middlewares: one always succeeds,
//! one always fails.

use vstd::prelude::*;

verus! {

/// The text of the failing endpoint's error.
pub open spec fn secret_error() -> Seq<char> {
    "This is a secret internal error"@
}

/// The sample endpoint succeeds with an empty answer.
pub fn sample_endpoint() -> (result: Result<(), (u16, String)>)
    ensures
        result is Ok,
{
    Ok(())
}

/// The failing endpoint answers with an internal server error.
pub fn failing_endpoint() -> (result: Result<(), (u16, String)>)
    ensures
        result matches Err((status, message)) && status == 500 && message@ == secret_error(),
{
    Err((500, String::from_str("This is a secret internal error")))
}

} // verus!
