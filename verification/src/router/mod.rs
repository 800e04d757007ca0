//! Routes and the responses they give.
//!
//! A route binds a path to a payload and a content type. It never changes
//! after it is made; every request for it is answered with the same bytes.

use vstd::prelude::*;
use vstd::string::*;
use vstd::utf8::*;
use crate::text::{decimal, decimal_text};

pub mod server;
pub mod table;

verus! {

/// One static resource: a path, the bytes served there and their content type.
#[derive(Debug)]
pub struct Route {
    pub route: String,
    data: Vec<u8>,
    pub mime: String,
}

/// The answer to a successful request for a route.
#[derive(Debug)]
pub struct Response {
    data: Vec<u8>,
    mime: String,
}

/// What a route is, as mathematics.
pub struct RouteView {
    pub path: Seq<char>,
    pub payload: Seq<u8>,
    pub content_type: Seq<char>,
}

/// What a response to a successful request is on the wire, as mathematics:
/// the status code, the `Content-Type` and `Content-Length` headers, and the
/// body.
pub struct ResponseView {
    pub status: int,
    pub content_type: Seq<char>,
    pub content_length: nat,
    pub body: Seq<u8>,
}

/// The response that serves `payload` as `content_type`: status 200, the
/// payload as body, its length and its type in the headers.
pub open spec fn served(payload: Seq<u8>, content_type: Seq<char>) -> ResponseView {
    ResponseView { status: 200, content_type, content_length: payload.len(), body: payload }
}

/// The byte at `i` may stand in a path that the router matches letter for
/// letter: it is no brace, and it is neither `:` nor `*` at the start of a
/// segment.
pub open spec fn plain_at(path: Seq<u8>, i: int) -> bool {
    &&& path[i] != 0x7b
    &&& path[i] != 0x7d
    &&& i > 0 && path[i - 1] == 0x2f ==> path[i] != 0x3a && path[i] != 0x2a
}

/// A path that a route may have, as UTF-8: it starts with `/` and holds no
/// capture or wildcard syntax, so that it matches itself and nothing else.
pub open spec fn is_route_path(path: Seq<u8>) -> bool {
    &&& path.len() > 0
    &&& path[0] == 0x2f
    &&& forall|i: int| 0 <= i < path.len() ==> plain_at(path, i)
}

/// A byte that may stand in the value of an HTTP header: tab, or anything
/// from the space on but DEL.
pub open spec fn header_byte(b: u8) -> bool {
    b == 0x09 || (b >= 0x20 && b != 0x7f)
}

/// A text that can be sent as the value of an HTTP header, as UTF-8.
pub open spec fn is_header_value(value: Seq<u8>) -> bool {
    forall|i: int| 0 <= i < value.len() ==> header_byte(#[trigger] value[i])
}

impl RouteView {
    /// The route can be installed and served: its path is a route path and
    /// its content type a header value.
    pub open spec fn well_formed(self) -> bool {
        &&& is_route_path(encode_utf8(self.path))
        &&& is_header_value(encode_utf8(self.content_type))
    }
}

impl View for Route {
    type V = RouteView;

    closed spec fn view(&self) -> RouteView {
        RouteView { path: self.route@, payload: self.data@, content_type: self.mime@ }
    }
}

impl View for Response {
    type V = ResponseView;

    closed spec fn view(&self) -> ResponseView {
        served(self.data@, self.mime@)
    }
}

impl Clone for Response {
    fn clone(&self) -> (copy: Response)
        ensures
            copy@ == self@,
    {
        Response { data: self.data.clone(), mime: self.mime.clone() }
    }
}

impl Clone for Route {
    fn clone(&self) -> (copy: Route)
        ensures
            copy@ == self@,
    {
        Route { route: self.route.clone(), data: self.data.clone(), mime: self.mime.clone() }
    }
}

/// Whether `path` is a route path.
pub fn check_path(path: &str) -> (ok: bool)
    ensures
        ok == is_route_path(encode_utf8(path@)),
{
    let bytes = path.as_bytes();
    let n = bytes.len();
    if n == 0 || bytes[0] != 0x2f {
        return false;
    }
    let mut i: usize = 0;
    while i < n
        invariant
            i <= n,
            n == bytes@.len(),
            bytes@ == encode_utf8(path@),
            forall|k: int| 0 <= k < i ==> plain_at(bytes@, k),
        decreases n - i,
    {
        let b = bytes[i];
        if b == 0x7b || b == 0x7d {
            assert(!plain_at(bytes@, i as int));
            return false;
        }
        if i > 0 && bytes[i - 1] == 0x2f && (b == 0x3a || b == 0x2a) {
            assert(!plain_at(bytes@, i as int));
            return false;
        }
        i += 1;
    }
    true
}

/// Whether `value` can be sent as a header value.
pub fn check_header_value(value: &str) -> (ok: bool)
    ensures
        ok == is_header_value(encode_utf8(value@)),
{
    let bytes = value.as_bytes();
    let n = bytes.len();
    let mut i: usize = 0;
    while i < n
        invariant
            i <= n,
            n == bytes@.len(),
            bytes@ == encode_utf8(value@),
            forall|k: int| 0 <= k < i ==> header_byte(#[trigger] bytes@[k]),
        decreases n - i,
    {
        let b = bytes[i];
        if !(b == 0x09 || (b >= 0x20 && b != 0x7f)) {
            assert(!header_byte(bytes@[i as int]));
            return false;
        }
        i += 1;
    }
    true
}

impl Route {
    /// A route from its three parts, taken as they are.
    pub fn new(route: String, data: Vec<u8>, mime: String) -> (r: Route)
        ensures
            r@ == (RouteView { path: route@, payload: data@, content_type: mime@ }),
    {
        Route { route, data, mime }
    }

    /// A route that can be installed and served, or what is wrong with its
    /// parts: the path is looked at first, then the content type.
    pub fn try_new(route: String, data: Vec<u8>, mime: String) -> (made: Result<
        Route,
        table::Fault,
    >)
        ensures
            match made {
                Ok(r) => {
                    &&& r@ == (RouteView { path: route@, payload: data@, content_type: mime@ })
                    &&& r@.well_formed()
                },
                Err(fault) => if is_route_path(encode_utf8(route@)) {
                    &&& !is_header_value(encode_utf8(mime@))
                    &&& fault == table::Fault::InvalidContentType
                } else {
                    fault == table::Fault::InvalidPath
                },
            },
    {
        if !check_path(route.as_str()) {
            return Err(table::Fault::InvalidPath);
        }
        if !check_header_value(mime.as_str()) {
            return Err(table::Fault::InvalidContentType);
        }
        Ok(Route { route, data, mime })
    }

    /// A route whose payload is the UTF-8 encoding of `data`.
    pub fn from_string(route: String, data: String, mime: String) -> (r: Route)
        ensures
            r@ == (RouteView { path: route@, payload: encode_utf8(data@), content_type: mime@ }),
    {
        let bytes = data.as_str().as_bytes_vec();
        Route { route, data: bytes, mime }
    }

    /// As `from_string`, from borrowed text.
    pub fn from_str(route: &str, data: &str, mime: String) -> (r: Route)
        ensures
            r@ == (RouteView { path: route@, payload: encode_utf8(data@), content_type: mime@ }),
    {
        Route { route: String::from_str(route), data: data.as_bytes_vec(), mime }
    }

    /// The path of the route.
    pub fn path(&self) -> (path: &str)
        ensures
            path@ == self@.path,
    {
        self.route.as_str()
    }

    /// The bytes served at the route.
    pub fn payload(&self) -> (payload: &Vec<u8>)
        ensures
            payload@ == self@.payload,
    {
        &self.data
    }

    /// The content type that the payload is served with.
    pub fn content_type(&self) -> (content_type: &str)
        ensures
            content_type@ == self@.content_type,
    {
        self.mime.as_str()
    }

    /// Whether two routes have the same path.
    pub fn same_path(&self, other: &Route) -> (same: bool)
        ensures
            same == (self@.path == other@.path),
    {
        self.route == other.route
    }

    /// Whether the route can be installed and served.
    pub fn is_well_formed(&self) -> (ok: bool)
        ensures
            ok == self@.well_formed(),
    {
        check_path(self.route.as_str()) && check_header_value(self.mime.as_str())
    }

    /// What every request for the route is answered with.
    pub fn respond(&self) -> (response: Response)
        ensures
            response@ == served(self@.payload, self@.content_type),
    {
        Response::new(self.data.clone(), self.mime.clone())
    }

    /// Adds the route to `router`, which has no route at this path yet and
    /// room for one more.
    pub fn build_router(&self, router: axum::Router) -> (out: axum::Router)
        requires
            self@.well_formed(),
            table::has_room(table::routes_of(router)),
            !table::routes_of(router).dom().contains(self@.path),
        ensures
            table::routes_of(out) == table::routes_of(router).insert(
                self@.path,
                (self@.payload, self@.content_type),
            ),
    {
        table::route_get(router, self.route.as_str(), self.respond())
    }
}

impl Response {
    /// A response that serves `data` as `mime`.
    pub fn new(data: Vec<u8>, mime: String) -> (response: Response)
        ensures
            response@ == served(data@, mime@),
    {
        Response { data, mime }
    }

    /// The status code: always 200.
    pub fn status(&self) -> (status: u16)
        ensures
            status == self@.status,
    {
        200
    }

    /// The value of the `Content-Type` header.
    pub fn content_type(&self) -> (content_type: &str)
        ensures
            content_type@ == self@.content_type,
    {
        self.mime.as_str()
    }

    /// The value of the `Content-Length` header: the number of body bytes.
    pub fn content_length(&self) -> (length: usize)
        ensures
            length == self@.content_length,
    {
        self.data.len()
    }

    /// The body bytes.
    pub fn body(&self) -> (body: &Vec<u8>)
        ensures
            body@ == self@.body,
    {
        &self.data
    }

    /// The response as it goes out: the two headers, each with its name and
    /// its value, and the body. The content length is written in decimal.
    pub fn into_wire(self) -> (wire: ([(&'static str, String); 2], Vec<u8>))
        ensures
            wire.0[0].0@ == "Content-Type"@,
            wire.0[0].1@ == self@.content_type,
            wire.0[1].0@ == "Content-Length"@,
            wire.0[1].1@ == decimal(self@.content_length),
            wire.1@ == self@.body,
    {
        let length = decimal_text(self.data.len());
        ([("Content-Type", self.mime), ("Content-Length", length)], self.data)
    }
}

} // verus!
