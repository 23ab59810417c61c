//! The route table: which path patterns lead to the handler, and for which
//! methods.
//!
//! The router itself is axum's. What it holds is modelled as a map from
//! each registered pattern to the methods that have a handler there, and
//! [`app`] is proved to build exactly the table of this service. Matching a
//! request against the table is the router's work, and so is the answer to
//! a request that no route takes.

use crate::handler::handler;
use axum::body::Body;
use axum::http::Request;
use axum::routing::MethodRouter;
use axum::Router;
use vstd::prelude::*;

verus! {

/// `axum::Router`.
#[verifier::external_type_specification]
#[verifier::external_body]
#[verifier::reject_recursive_types(S)]
pub struct ExRouter<S>(Router<S>);

/// `axum::routing::MethodRouter`.
#[verifier::external_type_specification]
#[verifier::external_body]
#[verifier::reject_recursive_types(S)]
#[verifier::reject_recursive_types(E)]
pub struct ExMethodRouter<S, E>(MethodRouter<S, E>);

/// The routes of a router, as a value: each pattern that was added, with
/// the methods that have a handler there.
pub type Routes = Map<Seq<char>, Set<Seq<char>>>;

/// The methods under which a method router holds a handler.
pub uninterp spec fn method_router_methods(
    target: MethodRouter<(), std::convert::Infallible>,
) -> Set<Seq<char>>;

/// The routes that were added to a router.
pub uninterp spec fn router_routes(router: Router<()>) -> Routes;

/// The pattern of the root route.
pub const ROOT_ROUTE: &'static str = "/";

/// The pattern of the wildcard route, which takes every longer path.
pub const WILDCARD_ROUTE: &'static str = "/*path";

/// The one method that the service answers.
pub open spec fn get_method() -> Seq<char> {
    "GET"@
}

/// A pattern of literal segments only: it starts with `/` and holds no `:`
/// and no `*`.
pub open spec fn is_static_pattern(pattern: Seq<char>) -> bool {
    &&& pattern.len() > 0
    &&& pattern[0] == '/'
    &&& forall|i: int| 0 <= i < pattern.len() ==> pattern[i] != ':' && #[trigger] pattern[i] != '*'
}

/// A wildcard directly under the root: `/*` and then a name, which is not
/// empty and holds no `/`, `:` or `*`.
pub open spec fn is_root_wildcard(pattern: Seq<char>) -> bool {
    &&& pattern.len() > 2
    &&& pattern[0] == '/'
    &&& pattern[1] == '*'
    &&& forall|i: int|
        2 <= i < pattern.len() ==> pattern[i] != '/' && pattern[i] != ':' && #[trigger] pattern[i]
            != '*'
}

/// Whether `pattern` can be added to a router that holds `routes`.
///
/// The router refuses a pattern that overlaps one of its routes. This is
/// the part of what it takes that the service needs: next to static routes,
/// which overlap only where they are equal, one more static route or a
/// wildcard under the root, which yields to every static route. The
/// pattern is new, and the router has not run out of route ids, which are
/// 32 bits wide.
pub open spec fn accepts(routes: Routes, pattern: Seq<char>) -> bool {
    &&& routes.dom().finite()
    &&& routes.dom().len() < u32::MAX
    &&& !routes.dom().contains(pattern)
    &&& forall|known: Seq<char>| #[trigger] routes.dom().contains(known) ==> is_static_pattern(known)
    &&& is_static_pattern(pattern) || is_root_wildcard(pattern)
}

/// The table of this service: the root and the wildcard, each for `GET`.
pub open spec fn route_table() -> Routes {
    map![
        ROOT_ROUTE@ => set![get_method()],
        WILDCARD_ROUTE@ => set![get_method()],
    ]
}

/// The table holds the root and the wildcard, and no other route.
pub proof fn lemma_table_has_two_routes(pattern: Seq<char>)
    ensures
        route_table().dom().contains(pattern) <==> pattern == ROOT_ROUTE@ || pattern
            == WILDCARD_ROUTE@,
{
}

/// Every route of the table has a handler for `GET` and for no other
/// method, so the wildcard is answered exactly as the root is.
pub proof fn lemma_routes_take_get_only(pattern: Seq<char>, method: Seq<char>)
    requires
        route_table().dom().contains(pattern),
    ensures
        route_table()[pattern].contains(method) <==> method == get_method(),
        route_table()[pattern] == route_table()[ROOT_ROUTE@],
{
    reveal_strlit("/");
    reveal_strlit("/*path");
    assert(ROOT_ROUTE@.len() != WILDCARD_ROUTE@.len());
}

/// Calls `axum::Router::new`.
///
/// Trusted: a new router holds no route.
#[verifier::external_body]
fn new_router() -> (router: Router<()>)
    ensures
        router_routes(router) == Routes::empty(),
{
    Router::new()
}

/// Calls `axum::routing::get` with [`handler`].
///
/// Trusted: the method router that comes back holds a handler under `GET`
/// and under no other method.
#[verifier::external_body]
fn get_handler() -> (target: MethodRouter<(), std::convert::Infallible>)
    ensures
        method_router_methods(target) == set![get_method()],
{
    axum::routing::get(|request: Request<Body>| std::future::ready(handler(request)))
}

/// Calls `axum::Router::route`.
///
/// Trusted: the router that comes back holds the routes of `router` and
/// `pattern` with the methods of `target`. `Router::route` panics on a
/// pattern that is empty, does not start with `/`, is malformed or
/// overlaps a route that is already there; [`accepts`] admits none of these.
#[verifier::external_body]
fn route(
    router: Router<()>,
    pattern: &str,
    target: MethodRouter<(), std::convert::Infallible>,
) -> (extended: Router<()>)
    requires
        accepts(router_routes(router), pattern@),
    ensures
        router_routes(extended) == router_routes(router).insert(
            pattern@,
            method_router_methods(target),
        ),
{
    router.route(pattern, target)
}

/// Builds the router of the service.
///
/// It holds exactly two routes, the root and the wildcard, and both answer
/// `GET` with [`handler`].
pub fn app() -> (router: Router<()>)
    ensures
        router_routes(router) == route_table(),
{
    proof {
        reveal_strlit("/");
        reveal_strlit("/*path");
        assert(ROOT_ROUTE@.len() != WILDCARD_ROUTE@.len());
    }
    let router = new_router();
    let router = route(router, ROOT_ROUTE, get_handler());
    let router = route(router, WILDCARD_ROUTE, get_handler());
    router
}

} // verus!
