use vstd::prelude::*;
use crate::routing::{route, table_of, Endpoint, Method, Route};

verus! {

/// The routes of the jukebox page and of its proxy to the jukebox service.
pub open spec fn jukectl_table() -> Seq<(Method, Seq<char>, Endpoint)> {
    seq![
        (Method::Get, "/jukectl"@, Endpoint::JukectlPage),
        (Method::Get, "/jukectl/proxy/tags"@, Endpoint::ProxyTags),
        (Method::Post, "/jukectl/proxy/skip"@, Endpoint::ProxySkip),
        (Method::Post, "/jukectl/proxy/album-mode/toggle"@, Endpoint::ProxyToggleAlbum),
        (Method::Post, "/jukectl/proxy/tags"@, Endpoint::ProxyUpdateTags),
    ]
}

/// The routes of the jukebox page and of its proxy to the jukebox service.
pub fn routes() -> (r: Vec<Route>)
    ensures
        table_of(r@) == jukectl_table(),
{
    let r = vec![
        route(Method::Get, "/jukectl", Endpoint::JukectlPage),
        route(Method::Get, "/jukectl/proxy/tags", Endpoint::ProxyTags),
        route(Method::Post, "/jukectl/proxy/skip", Endpoint::ProxySkip),
        route(Method::Post, "/jukectl/proxy/album-mode/toggle", Endpoint::ProxyToggleAlbum),
        route(Method::Post, "/jukectl/proxy/tags", Endpoint::ProxyUpdateTags),
    ];
    assert(table_of(r@) =~= jukectl_table());
    r
}

} // verus!
