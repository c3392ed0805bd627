//! Which endpoint answers which request.

use vstd::prelude::*;

verus! {

/// The HTTP methods the gateway answers.
#[derive(Debug, Clone, Copy, PartialEq, Eq, Structural)]
pub enum HttpMethod {
    Get,
    Post,
}

/// The gateway's endpoints.
#[derive(Debug, Clone, Copy, PartialEq, Eq, Structural)]
pub enum Endpoint {
    /// Always succeeds with an empty answer.
    SampleEndpoint,
    /// Always answers with an internal server error.
    FailingEndpoint,
    /// Registers a user with an API key.
    StoreUser,
    /// Lists all users.
    IndexUsers,
}

/// One entry of the routing table.
#[derive(Debug)]
pub struct Route {
    pub path: String,
    pub method: HttpMethod,
    pub endpoint: Endpoint,
}

/// The routing table: path, method and endpoint of each route.
pub open spec fn route_table() -> Seq<(Seq<char>, HttpMethod, Endpoint)> {
    seq![
        ("/sample-endpoints"@, HttpMethod::Post, Endpoint::SampleEndpoint),
        ("/sample-endpoints"@, HttpMethod::Get, Endpoint::SampleEndpoint),
        ("/fail"@, HttpMethod::Get, Endpoint::FailingEndpoint),
        ("/users"@, HttpMethod::Post, Endpoint::StoreUser),
        ("/users"@, HttpMethod::Get, Endpoint::IndexUsers),
    ]
}

/// A route as a triple of its path's characters, its method and endpoint.
pub open spec fn route_entry(route: Route) -> (Seq<char>, HttpMethod, Endpoint) {
    (route.path@, route.method, route.endpoint)
}

fn route(path: &str, method: HttpMethod, endpoint: Endpoint) -> (r: Route)
    ensures
        route_entry(r) == (path@, method, endpoint),
{
    Route { path: String::from_str(path), method, endpoint }
}

/// The routes the gateway serves.
pub fn routes() -> (table: Vec<Route>)
    ensures
        table@.map_values(|r: Route| route_entry(r)) == route_table(),
        forall|i: int|
            0 <= i < table@.len() ==> endpoint_for(#[trigger] table@[i].path@, table@[i].method) == Some(
                table@[i].endpoint,
            ),
        exists|i: int|
            0 <= i < table@.len() && #[trigger] table@[i].path@ == "/users"@ && table@[i].method
                == HttpMethod::Post && table@[i].endpoint == Endpoint::StoreUser,
        exists|i: int|
            0 <= i < table@.len() && #[trigger] table@[i].path@ == "/users"@ && table@[i].method
                == HttpMethod::Get && table@[i].endpoint == Endpoint::IndexUsers,
{
    let mut table: Vec<Route> = Vec::new();
    table.push(route("/sample-endpoints", HttpMethod::Post, Endpoint::SampleEndpoint));
    table.push(route("/sample-endpoints", HttpMethod::Get, Endpoint::SampleEndpoint));
    table.push(route("/fail", HttpMethod::Get, Endpoint::FailingEndpoint));
    table.push(route("/users", HttpMethod::Post, Endpoint::StoreUser));
    table.push(route("/users", HttpMethod::Get, Endpoint::IndexUsers));
    assert(table@.map_values(|r: Route| route_entry(r)) =~= route_table());
    proof {
        lemma_routes_serve_their_endpoints();
        assert(table@.len() == route_table().len());
        assert forall|i: int| 0 <= i < table@.len() implies endpoint_for(
            #[trigger] table@[i].path@,
            table@[i].method,
        ) == Some(table@[i].endpoint) by {
            assert(table@.map_values(|r: Route| route_entry(r))[i] == route_entry(table@[i]));
            assert(route_entry(table@[i]) == route_table()[i]);
            assert(endpoint_for(route_table()[i].0, route_table()[i].1) == Some(route_table()[i].2));
        }
        assert(table@.map_values(|r: Route| route_entry(r))[3] == route_entry(table@[3]));
        assert(table@.map_values(|r: Route| route_entry(r))[4] == route_entry(table@[4]));
        assert(route_entry(table@[3]) == route_table()[3]);
        assert(route_entry(table@[4]) == route_table()[4]);
    }
    table
}

/// The endpoint that answers a request with this path and method: the
/// gateway registers users on `POST /users`, lists them on `GET /users`,
/// answers `GET` and `POST` on `/sample-endpoints` with the sample endpoint
/// and `GET /fail` with the failing one, and serves nothing else.
pub open spec fn endpoint_for(path: Seq<char>, method: HttpMethod) -> Option<Endpoint> {
    if path == "/users"@ && method == HttpMethod::Post {
        Some(Endpoint::StoreUser)
    } else if path == "/users"@ && method == HttpMethod::Get {
        Some(Endpoint::IndexUsers)
    } else if path == "/sample-endpoints"@ {
        Some(Endpoint::SampleEndpoint)
    } else if path == "/fail"@ && method == HttpMethod::Get {
        Some(Endpoint::FailingEndpoint)
    } else {
        None
    }
}

/// Law: every route of the table sends its request to the endpoint that
/// answers it: registration for `POST /users`, the listing for `GET /users`;
/// and each of those two requests has a route.
pub proof fn lemma_routes_serve_their_endpoints()
    ensures
        forall|i: int|
            0 <= i < route_table().len() ==> endpoint_for(#[trigger] route_table()[i].0, route_table()[i].1)
                == Some(route_table()[i].2),
        exists|i: int|
            0 <= i < route_table().len() && #[trigger] route_table()[i] == ("/users"@, HttpMethod::Post, Endpoint::StoreUser),
        exists|i: int|
            0 <= i < route_table().len() && #[trigger] route_table()[i] == ("/users"@, HttpMethod::Get, Endpoint::IndexUsers),
{
    reveal_strlit("/users");
    reveal_strlit("/sample-endpoints");
    reveal_strlit("/fail");
    let t = route_table();
    assert("/users"@.len() == 6);
    assert("/sample-endpoints"@.len() == 17);
    assert("/fail"@.len() == 5);
    assert(t.len() == 5);
    assert(endpoint_for(t[0].0, t[0].1) == Some(t[0].2));
    assert(endpoint_for(t[1].0, t[1].1) == Some(t[1].2));
    assert(endpoint_for(t[2].0, t[2].1) == Some(t[2].2));
    assert(endpoint_for(t[3].0, t[3].1) == Some(t[3].2));
    assert(endpoint_for(t[4].0, t[4].1) == Some(t[4].2));
    assert(t[3] == ("/users"@, HttpMethod::Post, Endpoint::StoreUser));
    assert(t[4] == ("/users"@, HttpMethod::Get, Endpoint::IndexUsers));
}

} // verus!
