use std::future::IntoFuture;
use std::time::{Duration, Instant};

use axum::body::Body;
use axum::http::Request;
use http_serve::commands::serve::{HttpServeCommand, Teardown};
use http_serve::commands::{InputValue, PipelineInput};
use http_serve::router::server::{BindOutcome, BoundAddr, Server, StartError};
use http_serve::router::Route;
use tokio::net::TcpListener;
use tokio::runtime::Runtime;
use tokio::task::JoinHandle;
use tower::ServiceExt;

struct Reply {
    status: u16,
    content_type: Option<String>,
    content_length: Option<String>,
    body: Vec<u8>,
}

struct Session {
    addr: BoundAddr,
    router: axum::Router,
    task: JoinHandle<std::io::Result<()>>,
}

fn runtime() -> Runtime {
    tokio::runtime::Builder::new_multi_thread().worker_threads(2).enable_all().build().unwrap()
}

fn bind(runtime: &Runtime, address: &str) -> (Option<TcpListener>, BindOutcome) {
    match runtime.block_on(TcpListener::bind(address.to_string())) {
        Ok(listener) => {
            let local = listener.local_addr().unwrap();
            let bound = BoundAddr { host: local.ip().to_string(), port: local.port() };
            (Some(listener), BindOutcome::Bound(bound))
        }
        Err(error) => (None, BindOutcome::Failed(error.to_string())),
    }
}

fn launch(runtime: &Runtime, server: &mut Server) -> Result<Session, StartError> {
    assert!(server.is_unbound());
    let (listener, outcome) = bind(runtime, server.bind_address());
    let (addr, router) = server.start(outcome)?;
    let task = runtime.spawn(axum::serve(listener.unwrap(), router.clone()).into_future());
    Ok(Session { addr, router, task })
}

fn get(runtime: &Runtime, session: &Session, path: &str) -> Reply {
    let uri = format!("http://{}:{}{}", session.addr.host, session.addr.port, path);
    let request = Request::builder().uri(uri).body(Body::empty()).unwrap();
    let response = runtime.block_on(session.router.clone().oneshot(request)).unwrap();
    let status = response.status().as_u16();
    let header = |name: &str| response.headers().get(name).map(|v| v.to_str().unwrap().to_string());
    let content_type = header("content-type");
    let content_length = header("content-length");
    let body = runtime.block_on(axum::body::to_bytes(response.into_body(), usize::MAX)).unwrap().to_vec();
    Reply { status, content_type, content_length, body }
}

fn free_within(runtime: &Runtime, addr: &BoundAddr, limit: Duration) -> bool {
    let address = format!("{}:{}", addr.host, addr.port);
    let begun = Instant::now();
    while begun.elapsed() < limit {
        if let (Some(_), _) = bind(runtime, &address) {
            return true;
        }
    }
    false
}

#[test]
fn empty_input_is_served_as_empty_plain_text() {
    let runtime = runtime();
    let mut server = HttpServeCommand::prepare(None, None, PipelineInput::Empty).unwrap();
    assert_eq!(server.bind_address(), "127.0.0.1:0");
    let session = launch(&runtime, &mut server).unwrap();
    let reply = get(&runtime, &session, "/");
    assert_eq!(reply.status, 200);
    assert!(reply.body.is_empty());
    assert_eq!(reply.content_type.as_deref(), Some("text/plain; charset=utf-8"));
    assert_eq!(reply.content_length.as_deref(), Some("0"));
    session.task.abort();
}

#[test]
fn hello_is_served_at_an_assigned_port() {
    let runtime = runtime();
    let routes = vec![Route::new(String::from("/"), "hello".as_bytes().to_vec(), String::from("text/plain"))];
    let mut server = Server::new(String::from("127.0.0.1:0"), routes);
    assert!(server.binded_address().is_none());
    let session = launch(&runtime, &mut server).unwrap();
    assert_eq!(session.addr.host, "127.0.0.1");
    assert_ne!(session.addr.port, 0);
    assert!(server.is_serving());
    let reported = server.binded_address().unwrap();
    assert_eq!((reported.host.as_str(), reported.port), (session.addr.host.as_str(), session.addr.port));
    let reply = get(&runtime, &session, "/");
    assert_eq!(reply.status, 200);
    assert_eq!(reply.body, b"hello".to_vec());
    assert_eq!(reply.content_type.as_deref(), Some("text/plain"));
    assert_eq!(reply.content_length.as_deref(), Some("5"));
    let missing = get(&runtime, &session, "/missing");
    assert_eq!(missing.status, 404);
    assert!(missing.body.is_empty());
    session.task.abort();
}

#[test]
fn address_in_use_fails_the_start() {
    let runtime = runtime();
    let (holder, outcome) = bind(&runtime, "127.0.0.1:0");
    let taken = match outcome {
        BindOutcome::Bound(addr) => addr,
        BindOutcome::Failed(reason) => panic!("{}", reason),
    };
    let routes = vec![Route::new(String::from("/"), vec![1], String::from("text/plain"))];
    let mut server = Server::new(format!("{}:{}", taken.host, taken.port), routes);
    match launch(&runtime, &mut server) {
        Err(StartError::Bind(error)) => assert!(!error.reason.is_empty()),
        Err(StartError::Routes(error)) => panic!("{:?}", error),
        Ok(_) => panic!("started on an address in use"),
    }
    assert!(server.is_stopped());
    assert!(server.binded_address().is_none());
    drop(holder);
}

#[test]
fn stop_signal_ends_the_task_and_frees_the_address() {
    let runtime = runtime();
    let input = PipelineInput::Value(InputValue::String(String::from("bye")), None);
    let mut server = HttpServeCommand::prepare(None, None, input).unwrap();
    let session = launch(&runtime, &mut server).unwrap();
    assert_eq!(get(&runtime, &session, "/").body, b"bye".to_vec());
    assert!(bind(&runtime, &format!("{}:{}", session.addr.host, session.addr.port)).0.is_none());
    let steps = HttpServeCommand::shutdown(&mut server);
    assert_eq!(steps, vec![Teardown::AbortTask, Teardown::LeaveForeground, Teardown::DropSignalHandler]);
    let Session { addr, router: _, task } = session;
    for step in steps {
        if step == Teardown::AbortTask {
            task.abort();
        }
    }
    assert!(server.is_stopped());
    assert!(server.binded_address().is_none());
    assert!(runtime.block_on(task).unwrap_err().is_cancelled());
    assert!(free_within(&runtime, &addr, Duration::from_secs(10)));
    let again = HttpServeCommand::shutdown(&mut server);
    assert!(again.is_empty());
    assert!(server.is_stopped());
}
