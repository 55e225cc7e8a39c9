use vstd::prelude::*;
use crate::routing::{route, table_of, Endpoint, Method, Route};

verus! {

/// The routes of the page itself.
pub open spec fn index_table() -> Seq<(Method, Seq<char>, Endpoint)> {
    seq![(Method::Get, "/"@, Endpoint::Index)]
}

/// The routes of the page itself.
pub fn routes() -> (r: Vec<Route>)
    ensures
        table_of(r@) == index_table(),
{
    let r = vec![route(Method::Get, "/", Endpoint::Index)];
    assert(table_of(r@) =~= index_table());
    r
}

} // verus!
