use api_gateway::handler::index::{index, index2};
use api_gateway::handler::internal_error;
use api_gateway::handler::sample_endpoints::{failing_endpoint, sample_endpoint};
use api_gateway::handler::user_handler::{index_users_response, store_user_response};
use api_gateway::handler::users;
use api_gateway::models::User;

fn user(id: u32, name: &str, email: &str) -> User {
    User {
        id,
        name: String::from(name),
        email: String::from(email),
        created_at: chrono::NaiveDateTime::default(),
        updated_at: None,
    }
}

#[test]
fn test_index_route_returns_correct_content_type() {
    assert_eq!(index(), "Hello, world!");
    assert_eq!(index2(), "Hello, world2!");
}

#[test]
fn test_users_can_be_retrieved() {
    let (status, listing) = index_users_response(Ok(vec![user(1, "example_user", "user@example.com")])).unwrap();
    assert_eq!(status, 200);
    assert_eq!(listing.users.len(), 1);
    assert_eq!(listing.users[0].name, "example_user");
}

/// The registration endpoint that issues no key answers the stored user
/// with status 200, as a bare JSON answer does.
#[test]
fn keyless_registration_answers_ok() {
    let (status, stored) = users::store_user_response(Ok(user(5, "example_user", "user@example.com"))).unwrap();
    assert_eq!(status, 200);
    assert_eq!(stored.name, "example_user");
}

#[test]
fn store_user_test_user_can_be_stored() {
    let (status, stored) = store_user_response(Ok(user(5, "example_user", "user@example.com"))).unwrap();
    assert_eq!(status, 201);
    assert_eq!(stored.email, "user@example.com");
    assert_eq!(stored.name, "example_user");
    assert_eq!(stored.id, 5);
}

#[test]
fn failures_become_internal_server_errors() {
    assert_eq!(internal_error(String::from("boom")), (500, String::from("boom")));
    assert_eq!(store_user_response(Err(String::from("pool"))).unwrap_err(), (500, String::from("pool")));
    assert_eq!(users::store_user_response(Err(String::from("db"))).unwrap_err(), (500, String::from("db")));
    assert_eq!(index_users_response(Err(String::from("q"))).unwrap_err(), (500, String::from("q")));
}

#[test]
fn sample_endpoints_answer_as_designed() {
    assert_eq!(sample_endpoint(), Ok(()));
    assert_eq!(failing_endpoint(), Err((500, String::from("This is a secret internal error"))));
}
