//! The route table: each method and path template the server answers, and
//! the endpoint behind it.
use vstd::prelude::*;

verus! {

#[derive(PartialEq, Eq, Structural, Clone, Copy, Debug)]
pub enum Method {
    Get,
    Post,
}

#[derive(PartialEq, Eq, Structural, Clone, Copy, Debug)]
pub enum Endpoint {
    LandingPage,
    GetUser,
    CreateUser,
    UploadFile,
    SwaggerUi,
    OpenApiJson,
}

/// A route: a method and a path template, which may hold one `{id}` segment.
pub struct Route {
    pub method: Method,
    pub path: String,
    pub endpoint: Endpoint,
}

pub open spec fn endpoint_method(e: Endpoint) -> Method {
    match e {
        Endpoint::CreateUser | Endpoint::UploadFile => Method::Post,
        _ => Method::Get,
    }
}

pub open spec fn endpoint_path(e: Endpoint) -> Seq<char> {
    match e {
        Endpoint::LandingPage => "/"@,
        Endpoint::GetUser => "/user/{id}"@,
        Endpoint::CreateUser => "/user"@,
        Endpoint::UploadFile => "/upload"@,
        Endpoint::SwaggerUi => "/swagger-ui"@,
        Endpoint::OpenApiJson => "/api-docs/openapi.json"@,
    }
}

/// The endpoints that the server answers, in the order they are registered.
pub open spec fn served_endpoints() -> Seq<Endpoint> {
    seq![
        Endpoint::LandingPage,
        Endpoint::GetUser,
        Endpoint::CreateUser,
        Endpoint::UploadFile,
        Endpoint::SwaggerUi,
        Endpoint::OpenApiJson,
    ]
}

/// The endpoints of the API proper, as opposed to the page and the
/// documentation assets.
pub open spec fn is_api(e: Endpoint) -> bool {
    e == Endpoint::GetUser || e == Endpoint::CreateUser || e == Endpoint::UploadFile
}

pub open spec fn api_endpoints() -> Seq<Endpoint> {
    seq![Endpoint::GetUser, Endpoint::CreateUser, Endpoint::UploadFile]
}

pub open spec fn route_is(r: Route, e: Endpoint) -> bool {
    &&& r.method == endpoint_method(e)
    &&& r.path@ == endpoint_path(e)
    &&& r.endpoint == e
}

pub fn endpoint_path_text(e: Endpoint) -> (r: &'static str)
    ensures
        r@ == endpoint_path(e),
{
    match e {
        Endpoint::LandingPage => "/",
        Endpoint::GetUser => "/user/{id}",
        Endpoint::CreateUser => "/user",
        Endpoint::UploadFile => "/upload",
        Endpoint::SwaggerUi => "/swagger-ui",
        Endpoint::OpenApiJson => "/api-docs/openapi.json",
    }
}

pub fn route_of(e: Endpoint) -> (r: Route)
    ensures
        route_is(r, e),
{
    let method = match e {
        Endpoint::CreateUser | Endpoint::UploadFile => Method::Post,
        _ => Method::Get,
    };
    Route { method, path: String::from_str(endpoint_path_text(e)), endpoint: e }
}

/// All routes of the server, one per served endpoint.
pub fn route_table() -> (r: Vec<Route>)
    ensures
        r@.len() == served_endpoints().len(),
        forall|i: int| 0 <= i < r@.len() ==> route_is(#[trigger] r@[i], served_endpoints()[i]),
{
    let mut r: Vec<Route> = Vec::new();
    r.push(route_of(Endpoint::LandingPage));
    r.push(route_of(Endpoint::GetUser));
    r.push(route_of(Endpoint::CreateUser));
    r.push(route_of(Endpoint::UploadFile));
    r.push(route_of(Endpoint::SwaggerUi));
    r.push(route_of(Endpoint::OpenApiJson));
    r
}

/// No two served endpoints share a method and a path, so each request is
/// dispatched to one handler at most.
pub proof fn lemma_routes_unambiguous(i: int, j: int)
    requires
        0 <= i < served_endpoints().len(),
        0 <= j < served_endpoints().len(),
        i != j,
    ensures
        endpoint_method(served_endpoints()[i]) != endpoint_method(served_endpoints()[j])
            || endpoint_path(served_endpoints()[i]) != endpoint_path(served_endpoints()[j]),
{
    reveal_strlit("/");
    reveal_strlit("/user/{id}");
    reveal_strlit("/user");
    reveal_strlit("/upload");
    reveal_strlit("/swagger-ui");
    reveal_strlit("/api-docs/openapi.json");
    let a = served_endpoints()[i];
    let b = served_endpoints()[j];
    if endpoint_path(a) == endpoint_path(b) {
        assert(endpoint_path(a).len() == endpoint_path(b).len());
        if a == Endpoint::CreateUser || a == Endpoint::UploadFile {
            assert(endpoint_path(a)[2] == endpoint_path(b)[2]);
        }
    }
}

/// The API endpoints are exactly the served endpoints that are not assets.
pub proof fn lemma_api_endpoints_served(e: Endpoint)
    ensures
        api_endpoints().contains(e) <==> (served_endpoints().contains(e) && is_api(e)),
{
    assert(served_endpoints()[0] == Endpoint::LandingPage);
    assert(served_endpoints()[1] == Endpoint::GetUser);
    assert(served_endpoints()[2] == Endpoint::CreateUser);
    assert(served_endpoints()[3] == Endpoint::UploadFile);
    assert(api_endpoints()[0] == Endpoint::GetUser);
    assert(api_endpoints()[1] == Endpoint::CreateUser);
    assert(api_endpoints()[2] == Endpoint::UploadFile);
}

} // verus!
