//! The `/users` endpoint: registration and listing of users.

use vstd::prelude::*;
use crate::handler::internal_error;
use crate::models::User;

verus! {

/// The status of a created resource.
pub const CREATED: u16 = 201;

/// The status of a successful answer.
pub const OK: u16 = 200;

/// The listing of all users.
#[derive(Debug)]
pub struct IndexUserResponse {
    pub users: Vec<User>,
}

/// The answer to a registration: the stored user with status 201, or an
/// internal server error carrying the failure's message.
pub fn store_user_response(outcome: Result<User, String>) -> (response: Result<(u16, User), (u16, String)>)
    ensures
        match outcome {
            Ok(user) => response == Ok::<(u16, User), (u16, String)>((201u16, user)),
            Err(message) => response == Err::<(u16, User), (u16, String)>((500u16, message)),
        },
{
    match outcome {
        Ok(user) => Ok((CREATED, user)),
        Err(message) => Err(internal_error(message)),
    }
}

/// The answer to a listing: all users as loaded with status 200, or an
/// internal server error carrying the failure's message.
pub fn index_users_response(outcome: Result<Vec<User>, String>) -> (response: Result<
    (u16, IndexUserResponse),
    (u16, String),
>)
    ensures
        match outcome {
            Ok(users) => response matches Ok((status, listing)) && status == 200 && listing.users == users,
            Err(message) => response == Err::<(u16, IndexUserResponse), (u16, String)>((500u16, message)),
        },
{
    match outcome {
        Ok(users) => Ok((OK, IndexUserResponse { users })),
        Err(message) => Err(internal_error(message)),
    }
}

} // verus!
