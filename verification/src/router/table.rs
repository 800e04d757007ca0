//! The dispatch table: an `axum::Router`, filled from a list of routes.
//!
//! The router is the outside crate's. What it holds is given a name here,
//! `routes_of`, and the functions that fill it say over that name what they
//! did. A list of routes is accepted whole or not at all: a path that the
//! router would not match letter for letter, a content type that cannot be
//! sent, and a path that occurs twice are refused, each with the place of the
//! first route at fault.

use vstd::prelude::*;
use vstd::utf8::*;
use super::{is_header_value, is_route_path, served, Response, ResponseView, Route, RouteView};

verus! {

/// `axum::Router`, carried as it is: nothing inside it is read here.
#[verifier::external_type_specification]
#[verifier::external_body]
#[verifier::reject_recursive_types(S)]
pub struct ExRouter<S>(axum::Router<S>);

/// What a router holds. The domain is every path that has a route in the
/// router; each path goes to the payload and the content type that its `GET`
/// handler answers with.
pub uninterp spec fn routes_of(router: axum::Router) -> Map<Seq<char>, (Seq<u8>, Seq<char>)>;

/// The table without routes.
pub open spec fn no_routes() -> Map<Seq<char>, (Seq<u8>, Seq<char>)> {
    Map::empty()
}

/// The table takes one more route: the router numbers its routes with 32 bits.
pub open spec fn has_room(table: Map<Seq<char>, (Seq<u8>, Seq<char>)>) -> bool {
    table.dom().finite() && table.dom().len() < u32::MAX
}

/// The table that installing `routes` in order, each over what came before,
/// leaves behind.
pub open spec fn table_of(routes: Seq<RouteView>) -> Map<Seq<char>, (Seq<u8>, Seq<char>)>
    decreases routes.len(),
{
    if routes.len() == 0 {
        no_routes()
    } else {
        table_of(routes.drop_last()).insert(
            routes.last().path,
            (routes.last().payload, routes.last().content_type),
        )
    }
}

/// The method of a request, as far as the answer depends on it.
pub enum Method {
    Get,
    Head,
    /// Any other method.
    Other,
}

/// How a router answers a request.
pub enum Answer {
    /// With the response of the route at the path.
    Served(ResponseView),
    /// With the status and the headers of that response, and no body.
    HeadersOnly(ResponseView),
    /// With status 405 and no body: the path has a route, the method has none.
    MethodNotAllowed,
    /// With status 404 and no body: the path has no route.
    NotFound,
}

impl Answer {
    /// The status code of the answer.
    pub open spec fn status(self) -> int {
        match self {
            Answer::Served(response) => response.status,
            Answer::HeadersOnly(response) => response.status,
            Answer::MethodNotAllowed => 405,
            Answer::NotFound => 404,
        }
    }

    /// The body of the answer.
    pub open spec fn body(self) -> Seq<u8> {
        match self {
            Answer::Served(response) => response.body,
            _ => Seq::empty(),
        }
    }
}

/// What a request is answered with by a router that holds `table`. A path
/// without a route gives 404, whatever the method. A path with a route gives
/// the route's payload on `GET`, the same without the body on `HEAD`, and
/// 405 on every other method.
pub open spec fn answer(
    table: Map<Seq<char>, (Seq<u8>, Seq<char>)>,
    method: Method,
    path: Seq<char>,
) -> Answer {
    if !table.dom().contains(path) {
        Answer::NotFound
    } else {
        match method {
            Method::Get => Answer::Served(served(table[path].0, table[path].1)),
            Method::Head => Answer::HeadersOnly(served(table[path].0, table[path].1)),
            Method::Other => Answer::MethodNotAllowed,
        }
    }
}

/// Why a list of routes is refused.
#[derive(Clone, Copy, Debug, PartialEq, Eq)]
pub enum Fault {
    /// The path does not start with `/`, or holds capture or wildcard syntax.
    InvalidPath,
    /// The content type cannot be sent as a header value.
    InvalidContentType,
    /// An earlier route has the same path.
    DuplicateRoute,
    /// The router cannot number this many routes.
    TooManyRoutes,
}

/// The first route of a list that cannot be installed, and why.
#[derive(Clone, Copy, Debug, PartialEq, Eq)]
pub struct RouteError {
    pub index: usize,
    pub fault: Fault,
}

/// Some route before place `i` has the path of the route at `i`.
pub open spec fn seen_before(routes: Seq<RouteView>, i: int) -> bool {
    exists|j: int| 0 <= j < i && #[trigger] routes[j].path == routes[i].path
}

/// What is wrong with the route at place `i` of `routes`, if anything.
pub open spec fn fault_at(routes: Seq<RouteView>, i: int) -> Option<Fault> {
    if i >= u32::MAX {
        Some(Fault::TooManyRoutes)
    } else if !is_route_path(encode_utf8(routes[i].path)) {
        Some(Fault::InvalidPath)
    } else if !is_header_value(encode_utf8(routes[i].content_type)) {
        Some(Fault::InvalidContentType)
    } else if seen_before(routes, i) {
        Some(Fault::DuplicateRoute)
    } else {
        None
    }
}

/// Every route of the list can be installed after those before it.
pub open spec fn accepted(routes: Seq<RouteView>) -> bool {
    forall|i: int| 0 <= i < routes.len() ==> fault_at(routes, i) is None
}

/// `error` names the first route of the list that cannot be installed, and
/// what is wrong with it.
pub open spec fn is_first_fault(routes: Seq<RouteView>, error: RouteError) -> bool {
    &&& error.index < routes.len()
    &&& fault_at(routes, error.index as int) == Some(error.fault)
    &&& forall|i: int| 0 <= i < error.index ==> fault_at(routes, i) is None
}

/// The routes of a list as mathematics.
pub open spec fn views(routes: Seq<Route>) -> Seq<RouteView> {
    routes.map_values(|r: Route| r@)
}

/// `axum::Router::new`: a router without routes.
#[verifier::external_body]
pub(crate) fn empty_router() -> (router: axum::Router)
    ensures
        routes_of(router) == no_routes(),
{
    axum::Router::new()
}

/// `axum::Router::route` with `axum::routing::get`: the router with one more
/// route. Its handler answers every `GET` with `response`: status 200, the
/// two headers that `into_wire` gives, and the body. The router panics on a
/// path that it cannot take, on a path that has a route, and when it runs
/// out of route numbers; a content type that cannot be sent would turn the
/// answer into an error.
#[verifier::external_body]
pub(crate) fn route_get(router: axum::Router, path: &str, response: Response) -> (out: axum::Router)
    requires
        is_route_path(encode_utf8(path@)),
        is_header_value(encode_utf8(response@.content_type)),
        has_room(routes_of(router)),
        !routes_of(router).dom().contains(path@),
    ensures
        routes_of(out) == routes_of(router).insert(
            path@,
            (response@.body, response@.content_type),
        ),
{
    let handler = move || std::future::ready(response.into_wire());
    router.route(path, axum::routing::get(handler))
}

/// The paths of a table are the paths of the routes it was made from, and
/// there are no more of them than routes.
pub proof fn lemma_table_paths(routes: Seq<RouteView>)
    ensures
        table_of(routes).dom().finite(),
        table_of(routes).dom().len() <= routes.len(),
        forall|path: Seq<char>|
            table_of(routes).dom().contains(path) <==> exists|j: int|
                0 <= j < routes.len() && #[trigger] routes[j].path == path,
    decreases routes.len(),
{
    if routes.len() > 0 {
        let front = routes.drop_last();
        lemma_table_paths(front);
        assert forall|path: Seq<char>|
            table_of(routes).dom().contains(path) <==> exists|j: int|
                0 <= j < routes.len() && #[trigger] routes[j].path == path by {
            if table_of(routes).dom().contains(path) {
                if path == routes.last().path {
                    assert(routes[routes.len() - 1].path == path);
                } else {
                    let j = choose|j: int| 0 <= j < front.len() && #[trigger] front[j].path == path;
                    assert(routes[j].path == path);
                }
            }
            if exists|j: int| 0 <= j < routes.len() && #[trigger] routes[j].path == path {
                let j = choose|j: int| 0 <= j < routes.len() && #[trigger] routes[j].path == path;
                if j < front.len() {
                    assert(front[j].path == path);
                }
            }
        }
    }
}

/// In an accepted list, each route is in the table under its own path with
/// its own payload and content type.
pub proof fn lemma_table_holds_each_route(routes: Seq<RouteView>, i: int)
    requires
        accepted(routes),
        0 <= i < routes.len(),
    ensures
        table_of(routes).dom().contains(routes[i].path),
        table_of(routes)[routes[i].path] == (routes[i].payload, routes[i].content_type),
    decreases routes.len(),
{
    let front = routes.drop_last();
    let last = routes.len() - 1;
    if i < last {
        assert forall|k: int| 0 <= k < front.len() implies fault_at(front, k) is None by {
            assert(fault_at(routes, k) is None);
            if seen_before(front, k) {
                let j = choose|j: int| 0 <= j < k && #[trigger] front[j].path == front[k].path;
                assert(routes[j].path == routes[k].path);
            }
        }
        lemma_table_holds_each_route(front, i);
        assert(fault_at(routes, last) is None);
        if routes[last].path == routes[i].path {
            assert(seen_before(routes, last));
        }
    }
}

/// A `GET` for a registered path is answered with status 200, the route's
/// payload as body, its content type, and the payload's length as content
/// length: for every payload and every content type that can be sent.
pub proof fn lemma_registered_path_is_served(routes: Seq<RouteView>, i: int)
    requires
        accepted(routes),
        0 <= i < routes.len(),
    ensures
        answer(table_of(routes), Method::Get, routes[i].path) == Answer::Served(
            ResponseView {
                status: 200,
                content_type: routes[i].content_type,
                content_length: routes[i].payload.len(),
                body: routes[i].payload,
            },
        ),
        answer(table_of(routes), Method::Get, routes[i].path).status() == 200,
        answer(table_of(routes), Method::Get, routes[i].path).body() == routes[i].payload,
{
    lemma_table_holds_each_route(routes, i);
}

/// A request for a path that no route has is answered with 404 and an empty
/// body, whatever its method, however many routes there are and whatever
/// they hold.
pub proof fn lemma_unregistered_path_is_not_found(
    routes: Seq<RouteView>,
    method: Method,
    path: Seq<char>,
)
    requires
        forall|j: int| 0 <= j < routes.len() ==> (#[trigger] routes[j]).path != path,
    ensures
        !table_of(routes).dom().contains(path),
        answer(table_of(routes), method, path) == Answer::NotFound,
        answer(table_of(routes), method, path).status() == 404,
        answer(table_of(routes), method, path).body() == Seq::<u8>::empty(),
{
    lemma_table_paths(routes);
    if table_of(routes).dom().contains(path) {
        let j = choose|j: int| 0 <= j < routes.len() && #[trigger] routes[j].path == path;
        assert(routes[j].path != path);
    }
}

/// The order in which routes are added does not matter: two accepted lists
/// with the same routes make the same table.
pub proof fn lemma_order_does_not_matter(first: Seq<RouteView>, second: Seq<RouteView>)
    requires
        accepted(first),
        accepted(second),
        forall|i: int| 0 <= i < first.len() ==> second.contains(#[trigger] first[i]),
        forall|i: int| 0 <= i < second.len() ==> first.contains(#[trigger] second[i]),
    ensures
        table_of(first) == table_of(second),
{
    lemma_table_paths(first);
    lemma_table_paths(second);
    assert forall|path: Seq<char>| table_of(first).dom().contains(path) implies table_of(
        second,
    ).dom().contains(path) && table_of(first)[path] == table_of(second)[path] by {
        let i = choose|i: int| 0 <= i < first.len() && #[trigger] first[i].path == path;
        assert(second.contains(first[i]));
        let j = choose|j: int| 0 <= j < second.len() && second[j] == first[i];
        assert(second[j].path == path);
        lemma_table_holds_each_route(first, i);
        lemma_table_holds_each_route(second, j);
    }
    assert forall|path: Seq<char>| table_of(second).dom().contains(path) implies table_of(
        first,
    ).dom().contains(path) by {
        let j = choose|j: int| 0 <= j < second.len() && #[trigger] second[j].path == path;
        assert(first.contains(second[j]));
        let i = choose|i: int| 0 <= i < first.len() && first[i] == second[j];
        assert(first[i].path == path);
    }
    assert(table_of(first) =~= table_of(second));
}

/// Whether a route before place `i` has the path of the route at `i`.
fn path_seen_before(routes: &Vec<Route>, i: usize) -> (seen: bool)
    requires
        i < routes.len(),
    ensures
        seen == seen_before(views(routes@), i as int),
{
    let ghost all = views(routes@);
    let mut j: usize = 0;
    while j < i
        invariant
            j <= i,
            i < routes.len(),
            all == views(routes@),
            forall|k: int| 0 <= k < j ==> (#[trigger] all[k]).path != all[i as int].path,
        decreases i - j,
    {
        assert(all[j as int] == routes[j as int]@);
        assert(all[i as int] == routes[i as int]@);
        if routes[j].same_path(&routes[i]) {
            return true;
        }
        j += 1;
    }
    false
}

/// Folds `routes` into one router, each route installed in order. The list is
/// taken whole or refused with its first fault.
pub fn build(routes: &Vec<Route>) -> (built: Result<axum::Router, RouteError>)
    ensures
        match built {
            Ok(router) => accepted(views(routes@)) && routes_of(router) == table_of(views(routes@)),
            Err(error) => is_first_fault(views(routes@), error),
        },
{
    let ghost all = views(routes@);
    let mut router = empty_router();
    let mut i: usize = 0;
    while i < routes.len()
        invariant
            i <= routes.len(),
            all == views(routes@),
            forall|k: int| 0 <= k < i ==> fault_at(all, k) is None,
            routes_of(router) == table_of(all.take(i as int)),
        decreases routes.len() - i,
    {
        let route = &routes[i];
        assert(all[i as int] == route@);
        if i >= 0xffff_ffff {
            return Err(RouteError { index: i, fault: Fault::TooManyRoutes });
        }
        if !super::check_path(route.path()) {
            return Err(RouteError { index: i, fault: Fault::InvalidPath });
        }
        if !super::check_header_value(route.content_type()) {
            return Err(RouteError { index: i, fault: Fault::InvalidContentType });
        }
        if path_seen_before(routes, i) {
            return Err(RouteError { index: i, fault: Fault::DuplicateRoute });
        }
        proof {
            let front = all.take(i as int);
            lemma_table_paths(front);
            if table_of(front).dom().contains(route@.path) {
                let j = choose|j: int| 0 <= j < front.len() && #[trigger] front[j].path == route@.path;
                assert(all[j].path == all[i as int].path);
            }
            assert(all.take(i + 1).drop_last() == front);
        }
        router = route.build_router(router);
        i += 1;
    }
    assert(all.take(i as int) == all);
    Ok(router)
}

} // verus!
