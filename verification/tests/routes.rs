use axum::body::Body;
use axum::http::{Method, Request};
use http_serve::router::table::{build, Fault, RouteError};
use http_serve::router::{check_header_value, check_path, Response, Route};
use tower::ServiceExt;

struct Reply {
    status: u16,
    headers: Vec<(String, String)>,
    content_type: Option<String>,
    content_length: Option<String>,
    body: Vec<u8>,
}

fn send(router: &axum::Router, method: Method, path: &str) -> Reply {
    let runtime = tokio::runtime::Builder::new_current_thread().build().unwrap();
    let request = Request::builder().method(method).uri(path).body(Body::empty()).unwrap();
    let response = runtime.block_on(router.clone().oneshot(request)).unwrap();
    let status = response.status().as_u16();
    let header = |name: &str| response.headers().get(name).map(|v| String::from_utf8(v.as_bytes().to_vec()).unwrap());
    let headers = response
        .headers()
        .iter()
        .map(|(name, value)| (name.as_str().to_string(), String::from_utf8(value.as_bytes().to_vec()).unwrap()))
        .collect();
    let content_type = header("content-type");
    let content_length = header("content-length");
    let body = runtime.block_on(axum::body::to_bytes(response.into_body(), usize::MAX)).unwrap().to_vec();
    Reply { status, headers, content_type, content_length, body }
}

fn get(router: &axum::Router, path: &str) -> Reply {
    send(router, Method::GET, path)
}

fn route(path: &str, data: &[u8], mime: &str) -> Route {
    Route::new(String::from(path), data.to_vec(), String::from(mime))
}

#[test]
fn route_keeps_its_parts() {
    let r = route("/", &[1, 2, 3], "text/plain");
    assert_eq!(r.route, "/");
    assert_eq!(r.mime, "text/plain");
    assert_eq!(r.path(), "/");
    assert_eq!(r.payload(), &vec![1u8, 2, 3]);
    assert_eq!(r.content_type(), "text/plain");
}

#[test]
fn route_from_text_holds_its_utf8_bytes() {
    let a = Route::from_string(String::from("/a"), String::from("h\u{e9}llo"), String::from("text/plain"));
    assert_eq!(a.payload(), &vec![0x68u8, 0xc3, 0xa9, 0x6c, 0x6c, 0x6f]);
    let b = Route::from_str("/b", "hi", String::from("text/html"));
    assert_eq!(b.payload(), &vec![0x68u8, 0x69]);
    assert_eq!(b.path(), "/b");
    assert_eq!(b.content_type(), "text/html");
}

#[test]
fn response_reports_status_headers_and_body() {
    let response = Response::new(vec![9, 8, 7, 6], String::from("application/octet-stream"));
    assert_eq!(response.status(), 200);
    assert_eq!(response.content_type(), "application/octet-stream");
    assert_eq!(response.content_length(), 4);
    assert_eq!(response.body(), &vec![9u8, 8, 7, 6]);
    let (headers, body) = response.into_wire();
    assert_eq!(headers[0], ("Content-Type", String::from("application/octet-stream")));
    assert_eq!(headers[1], ("Content-Length", String::from("4")));
    assert_eq!(body, vec![9u8, 8, 7, 6]);
}

#[test]
fn route_responds_with_its_payload() {
    let r = route("/x", b"payload", "text/x");
    let response = r.respond();
    assert_eq!(response.status(), 200);
    assert_eq!(response.body(), &b"payload".to_vec());
    assert_eq!(response.content_type(), "text/x");
    assert_eq!(response.content_length(), 7);
}

#[test]
fn route_paths_are_checked() {
    assert!(check_path("/"));
    assert!(check_path("/a/b.txt"));
    assert!(check_path("/a:b/c*d"));
    assert!(check_path("/\u{e9}"));
    assert!(!check_path(""));
    assert!(!check_path("a"));
    assert!(!check_path("/{id}"));
    assert!(!check_path("/a}"));
    assert!(!check_path("/:id"));
    assert!(!check_path("/a/*rest"));
}

#[test]
fn header_values_are_checked() {
    assert!(check_header_value(""));
    assert!(check_header_value("text/plain; charset=utf-8"));
    assert!(check_header_value("a\tb"));
    assert!(check_header_value("caf\u{e9}"));
    assert!(!check_header_value("a\nb"));
    assert!(!check_header_value("a\u{7f}"));
    assert!(!check_header_value("\u{0}"));
}

#[test]
fn well_formed_needs_path_and_content_type() {
    assert!(route("/", b"", "text/plain").is_well_formed());
    assert!(!route("x", b"", "text/plain").is_well_formed());
    assert!(!route("/", b"", "text\r\nplain").is_well_formed());
}

#[test]
fn registered_path_is_served() {
    let router = build(&vec![route("/", b"hello", "text/plain")]).unwrap();
    let reply = get(&router, "/");
    assert_eq!(reply.status, 200);
    assert_eq!(reply.body, b"hello".to_vec());
    assert_eq!(reply.content_type.as_deref(), Some("text/plain"));
    assert_eq!(reply.content_length.as_deref(), Some("5"));
    assert_eq!(
        reply.headers,
        vec![(String::from("content-type"), String::from("text/plain")), (String::from("content-length"), String::from("5"))]
    );
}

#[test]
fn empty_router_answers_not_found() {
    let router = build(&vec![]).unwrap();
    let reply = get(&router, "/");
    assert_eq!(reply.status, 404);
    assert!(reply.body.is_empty());
}

#[test]
fn unregistered_path_is_not_found_in_any_order() {
    let a = route("/a", b"A", "text/a");
    let b = route("/b", b"BB", "text/b");
    let c = route("/c/d", b"CCC", "text/c");
    let orders = vec![
        vec![a.clone(), b.clone(), c.clone()],
        vec![c.clone(), a.clone(), b.clone()],
        vec![b.clone(), c.clone(), a.clone()],
    ];
    for routes in orders {
        let router = build(&routes).unwrap();
        for missing in ["/", "/ab", "/c", "/c/d/e", "/A"] {
            let reply = get(&router, missing);
            assert_eq!(reply.status, 404);
            assert!(reply.body.is_empty());
        }
        let reply = get(&router, "/a");
        assert_eq!((reply.status, reply.body, reply.content_type), (200, b"A".to_vec(), Some(String::from("text/a"))));
        let reply = get(&router, "/b");
        assert_eq!((reply.status, reply.body, reply.content_type), (200, b"BB".to_vec(), Some(String::from("text/b"))));
        let reply = get(&router, "/c/d");
        assert_eq!((reply.status, reply.body, reply.content_length), (200, b"CCC".to_vec(), Some(String::from("3"))));
    }
}

#[test]
fn other_method_on_registered_path_is_not_allowed() {
    let router = build(&vec![route("/", b"x", "text/plain")]).unwrap();
    for method in [Method::POST, Method::PUT, Method::DELETE, Method::PATCH, Method::OPTIONS] {
        let reply = send(&router, method, "/");
        assert_eq!(reply.status, 405);
        assert!(reply.body.is_empty());
    }
}

#[test]
fn any_method_on_unregistered_path_is_not_found() {
    let router = build(&vec![route("/", b"x", "text/plain")]).unwrap();
    for method in [Method::GET, Method::HEAD, Method::POST, Method::DELETE] {
        let reply = send(&router, method, "/nowhere");
        assert_eq!(reply.status, 404);
        assert!(reply.body.is_empty());
    }
}

#[test]
fn head_is_answered_as_get_without_the_body() {
    let router = build(&vec![route("/", b"hello", "text/plain")]).unwrap();
    let reply = send(&router, Method::HEAD, "/");
    assert_eq!(reply.status, 200);
    assert!(reply.body.is_empty());
    assert_eq!(reply.content_type.as_deref(), Some("text/plain"));
    assert_eq!(reply.content_length.as_deref(), Some("5"));
}

#[test]
fn build_router_adds_one_route() {
    let router = route("/one", b"1", "text/plain").build_router(axum::Router::new());
    assert_eq!(get(&router, "/one").status, 200);
    assert_eq!(get(&router, "/two").status, 404);
    let router = route("/two", b"22", "text/plain").build_router(router);
    assert_eq!(get(&router, "/one").body, b"1".to_vec());
    assert_eq!(get(&router, "/two").body, b"22".to_vec());
}

#[test]
fn binary_payload_is_served_byte_for_byte() {
    let data: Vec<u8> = (0..=255u8).collect();
    let router = build(&vec![route("/bin", &data, "application/octet-stream")]).unwrap();
    let reply = get(&router, "/bin");
    assert_eq!(reply.status, 200);
    assert_eq!(reply.body, data);
    assert_eq!(reply.content_length.as_deref(), Some("256"));
}

#[test]
fn build_refuses_the_first_fault() {
    let bad_path = build(&vec![route("/ok", b"", "t"), route("nope", b"", "t"), route("/ok", b"", "t")]);
    assert_eq!(bad_path.err(), Some(RouteError { index: 1, fault: Fault::InvalidPath }));
    let capture = build(&vec![route("/{id}", b"", "t")]);
    assert_eq!(capture.err(), Some(RouteError { index: 0, fault: Fault::InvalidPath }));
    let bad_type = build(&vec![route("/ok", b"", "a\nb")]);
    assert_eq!(bad_type.err(), Some(RouteError { index: 0, fault: Fault::InvalidContentType }));
    let both = build(&vec![route("", b"", "a\nb")]);
    assert_eq!(both.err(), Some(RouteError { index: 0, fault: Fault::InvalidPath }));
    let twice = build(&vec![route("/a", b"1", "t"), route("/b", b"2", "t"), route("/a", b"3", "t")]);
    assert_eq!(twice.err(), Some(RouteError { index: 2, fault: Fault::DuplicateRoute }));
}

#[test]
fn checked_construction_refuses_bad_parts() {
    let made = Route::try_new(String::from("/ok"), vec![1, 2], String::from("text/plain")).unwrap();
    assert_eq!((made.path(), made.payload(), made.content_type()), ("/ok", &vec![1u8, 2], "text/plain"));
    assert!(made.is_well_formed());
    assert_eq!(Route::try_new(String::new(), vec![], String::from("text/plain")).err(), Some(Fault::InvalidPath));
    assert_eq!(Route::try_new(String::from("ok"), vec![], String::from("a\nb")).err(), Some(Fault::InvalidPath));
    assert_eq!(Route::try_new(String::from("/ok"), vec![], String::from("a\nb")).err(), Some(Fault::InvalidContentType));
}
