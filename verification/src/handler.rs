//! What the HTTP handlers answer, given the outcome of their storage work.

pub mod index;
pub mod sample_endpoints;
pub mod user_handler;
pub mod users;

use vstd::prelude::*;

verus! {

/// The status of an internal server error.
pub const INTERNAL_SERVER_ERROR: u16 = 500;

/// The answer to a request whose handling failed with this message: an
/// internal server error carrying the message.
pub fn internal_error(message: String) -> (response: (u16, String))
    ensures
        response.0 == 500,
        response.1 == message,
{
    (INTERNAL_SERVER_ERROR, message)
}

} // verus!
