use vstd::prelude::*;
use vstd::string::StringExecFns;

verus! {

/// The HTTP methods the control surface answers.
#[derive(PartialEq, Eq, Structural, Clone, Copy, Debug)]
pub enum Method {
    Get,
    Post,
    Delete,
}

/// The operations behind the routes of the control surface.
#[derive(PartialEq, Eq, Structural, Clone, Copy, Debug)]
pub enum Endpoint {
    Index,
    Users,
    Status,
    Play,
    PlayWithoutBody,
    SetSleepTimer,
    ClearSleepTimer,
    Stop,
    Health,
    JukectlPage,
    ProxyTags,
    ProxySkip,
    ProxyToggleAlbum,
    ProxyUpdateTags,
}

/// A route: a method, a path pattern (`<name>` stands for one segment), and
/// the operation it leads to.
#[derive(Debug)]
pub struct Route {
    pub method: Method,
    pub path: String,
    pub endpoint: Endpoint,
}

/// A route in mathematical terms.
pub open spec fn route_view(r: Route) -> (Method, Seq<char>, Endpoint) {
    (r.method, r.path@, r.endpoint)
}

/// The views of some routes.
pub open spec fn table_of(routes: Seq<Route>) -> Seq<(Method, Seq<char>, Endpoint)> {
    routes.map_values(|r: Route| route_view(r))
}

/// The route for `method` on `path` to `endpoint`.
pub fn route(method: Method, path: &str, endpoint: Endpoint) -> (r: Route)
    ensures
        route_view(r) == (method, path@, endpoint),
{
    Route { method, path: String::from_str(path), endpoint }
}

/// Every route of the control surface: the page, the API, and the jukebox
/// pages, in that order.
pub fn all_routes() -> (r: Vec<Route>)
    ensures
        table_of(r@) == crate::index::index_table() + crate::api::api_table()
            + crate::jukectl::jukectl_table(),
{
    let mut routes: Vec<Route> = Vec::new();
    let mut index = crate::index::routes();
    let mut api = crate::api::routes();
    let mut jukectl = crate::jukectl::routes();
    let ghost (a, b, c) = (index@, api@, jukectl@);
    routes.append(&mut index);
    routes.append(&mut api);
    routes.append(&mut jukectl);
    assert(routes@ == a + b + c);
    assert(table_of(a + b + c) =~= table_of(a) + table_of(b) + table_of(c));
    routes
}

} // verus!
