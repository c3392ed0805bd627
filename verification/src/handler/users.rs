//! A registration endpoint that stores a user without issuing a key.

use vstd::prelude::*;
use crate::handler::internal_error;
use crate::handler::user_handler::OK;
use crate::models::User;

verus! {

/// The answer to a registration: the stored user with status 200, or an
/// internal server error carrying the failure's message.
pub fn store_user_response(outcome: Result<User, String>) -> (response: Result<(u16, User), (u16, String)>)
    ensures
        match outcome {
            Ok(user) => response == Ok::<(u16, User), (u16, String)>((200u16, user)),
            Err(message) => response == Err::<(u16, User), (u16, String)>((500u16, message)),
        },
{
    match outcome {
        Ok(user) => Ok((OK, user)),
        Err(message) => Err(internal_error(message)),
    }
}

} // verus!
