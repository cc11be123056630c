//! The route table: every path the service answers, the handler bodies, and
//! the lookup from a request path to its route.

use vstd::prelude::*;
use crate::config::str_equal;

verus! {

/// One registered route. All of them answer GET.
#[derive(PartialEq, Eq, Structural, Clone, Copy, Debug)]
pub enum Route {
    ApiDocs,
    HelloWorld,
    ComplexData,
}

/// The path a route is registered under.
pub open spec fn route_path(r: Route) -> Seq<char> {
    match r {
        Route::ApiDocs => "/api-docs/openapi.json"@,
        Route::HelloWorld => "/helloworld"@,
        Route::ComplexData => "/complexdata"@,
    }
}

/// The route table, in registration order.
pub open spec fn route_list() -> Seq<Route> {
    seq![Route::ApiDocs, Route::HelloWorld, Route::ComplexData]
}

/// The set of paths that the route table registers.
pub open spec fn registered_paths() -> Set<Seq<char>> {
    route_list().map_values(|r: Route| route_path(r)).to_set()
}

/// The route registered under `p`, if any.
pub open spec fn route_for(p: Seq<char>) -> Option<Route> {
    if p == route_path(Route::ApiDocs) {
        Some(Route::ApiDocs)
    } else if p == route_path(Route::HelloWorld) {
        Some(Route::HelloWorld)
    } else if p == route_path(Route::ComplexData) {
        Some(Route::ComplexData)
    } else {
        None
    }
}

/// The greeting answered on `/helloworld`.
pub open spec fn hello_body() -> Seq<char> {
    "{\"message\": \"Hello world! ABCDEFGHIJKLMNOPQRSTUVWXYZ.\"}"@
}

/// The fixed payload answered on `/complexdata`.
pub open spec fn complex_body() -> Seq<char> {
    "[{\"data\":[{\"my_string\":\"my complex data\",\"my_bool\":true,\"my_int\":144}]}]"@
}

/// The paths are pairwise distinct, so a path names at most one route.
pub proof fn lemma_paths_distinct()
    ensures
        route_path(Route::ApiDocs) != route_path(Route::HelloWorld),
        route_path(Route::ApiDocs) != route_path(Route::ComplexData),
        route_path(Route::HelloWorld) != route_path(Route::ComplexData),
{
    reveal_strlit("/api-docs/openapi.json");
    reveal_strlit("/helloworld");
    reveal_strlit("/complexdata");
    assert(route_path(Route::ApiDocs).len() != route_path(Route::HelloWorld).len());
    assert(route_path(Route::ApiDocs).len() != route_path(Route::ComplexData).len());
    assert(route_path(Route::HelloWorld)[1] != route_path(Route::ComplexData)[1]);
}

/// A path is routed exactly when the table registers it, and then to the
/// route registered under it.
pub proof fn lemma_routed_iff_registered(p: Seq<char>)
    ensures
        route_for(p) is Some <==> registered_paths().contains(p),
        route_for(p) matches Some(r) ==> route_path(r) == p,
        forall|r: Route| route_for(route_path(r)) == Some(r),
{
    lemma_paths_distinct();
    let paths = route_list().map_values(|r: Route| route_path(r));
    assert(paths[0] == route_path(Route::ApiDocs));
    assert(paths[1] == route_path(Route::HelloWorld));
    assert(paths[2] == route_path(Route::ComplexData));
    if registered_paths().contains(p) {
        assert(route_for(p) is Some);
    }
    if route_for(p) is Some {
        if p == route_path(Route::ApiDocs) {
            assert(paths.contains(p));
        } else if p == route_path(Route::HelloWorld) {
            assert(paths[1] == p);
        } else {
            assert(paths[2] == p);
        }
    }
}

impl Route {
    /// The path this route is registered under.
    pub fn path(&self) -> (r: &'static str)
        ensures
            r@ == route_path(*self),
    {
        match self {
            Route::ApiDocs => "/api-docs/openapi.json",
            Route::HelloWorld => "/helloworld",
            Route::ComplexData => "/complexdata",
        }
    }
}

/// The route table, in registration order.
pub fn route_table() -> (r: Vec<Route>)
    ensures
        r@ == route_list(),
{
    let r = vec![Route::ApiDocs, Route::HelloWorld, Route::ComplexData];
    assert(r@ =~= route_list());
    r
}

/// Looks a request path up in the route table; `None` for an unregistered path.
pub fn resolve(path: &str) -> (r: Option<Route>)
    ensures
        r == route_for(path@),
        r is Some <==> registered_paths().contains(path@),
{
    let table = route_table();
    let mut i: usize = 0;
    while i < table.len()
        invariant
            table@ == route_list(),
            0 <= i <= table.len(),
            forall|j: int| 0 <= j < i ==> route_path(#[trigger] table@[j]) != path@,
        decreases table.len() - i,
    {
        let route = table[i];
        if str_equal(route.path(), path) {
            proof {
                lemma_routed_iff_registered(path@);
            }
            return Some(route);
        }
        i = i + 1;
    }
    proof {
        lemma_routed_iff_registered(path@);
        assert(route_path(table@[0]) != path@);
        assert(route_path(table@[1]) != path@);
        assert(route_path(table@[2]) != path@);
    }
    None
}

/// The greeting answered on `/helloworld`.
pub fn helloworld() -> (r: String)
    ensures
        r@ == hello_body(),
{
    "{\"message\": \"Hello world! ABCDEFGHIJKLMNOPQRSTUVWXYZ.\"}".to_owned()
}

/// The fixed payload answered on `/complexdata`.
pub fn complexdata() -> (r: String)
    ensures
        r@ == complex_body(),
{
    "[{\"data\":[{\"my_string\":\"my complex data\",\"my_bool\":true,\"my_int\":144}]}]".to_owned()
}

} // verus!
