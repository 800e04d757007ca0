//! The server and its life cycle: unbound, serving, stopped.
//!
//! The server owns the address to bind and the routes. It opens no socket and
//! spawns no task: whoever embeds it binds the address and reports how that
//! went, and the server decides what follows. `start` takes the report and
//! hands out the router to serve, or fails before anything is served.
//! `cancel` stops a serving server and is harmless on any other.

use vstd::prelude::*;
use super::table::{accepted, build, is_first_fault, routes_of, table_of, views, RouteError};
use super::{Route, RouteView};

verus! {

/// The address that a listener was bound to: the host as text, and the port.
#[derive(Debug)]
pub struct BoundAddr {
    pub host: String,
    pub port: u16,
}

/// A bound address as mathematics.
pub struct AddrView {
    pub host: Seq<char>,
    pub port: u16,
}

impl View for BoundAddr {
    type V = AddrView;

    open spec fn view(&self) -> AddrView {
        AddrView { host: self.host@, port: self.port }
    }
}

impl Clone for BoundAddr {
    fn clone(&self) -> (copy: BoundAddr)
        ensures
            copy@ == self@,
    {
        BoundAddr { host: self.host.clone(), port: self.port }
    }
}

/// How binding the server's address went.
#[derive(Debug)]
pub enum BindOutcome {
    /// A listener is open at this address.
    Bound(BoundAddr),
    /// No listener could be opened, for this reason.
    Failed(String),
}

/// The address could not be used.
#[derive(Debug)]
pub struct BindError {
    pub reason: String,
}

/// Why a server did not start.
#[derive(Debug)]
pub enum StartError {
    /// The address could not be bound.
    Bind(BindError),
    /// The routes cannot be installed.
    Routes(RouteError),
}

/// Where a server is in its life.
pub enum PhaseView {
    /// Made, and not started yet.
    Unbound,
    /// Listening at this address, and answering requests.
    Serving(AddrView),
    /// Stopped for good, or never started and cancelled.
    Stopped,
}

/// A server as mathematics.
pub struct ServerView {
    pub bind_addr: Seq<char>,
    pub routes: Seq<RouteView>,
    pub phase: PhaseView,
}

/// The reason given when a listener reports port 0, which no listener has.
pub open spec fn no_port_reason() -> Seq<char> {
    "the listener reports port 0"@
}

impl ServerView {
    /// The address that the server listens at, while it serves.
    pub open spec fn bound(self) -> Option<AddrView> {
        match self.phase {
            PhaseView::Serving(addr) => Some(addr),
            _ => None,
        }
    }

    /// The server after the cancellation signal.
    pub open spec fn cancelled(self) -> ServerView {
        ServerView { phase: PhaseView::Stopped, ..self }
    }
}

#[derive(Debug)]
enum Phase {
    Unbound,
    Serving(BoundAddr),
    Stopped,
}

/// A server for a fixed set of routes at a fixed address. It is used once.
#[derive(Debug)]
pub struct Server {
    bind_addr: String,
    routes: Vec<Route>,
    phase: Phase,
}

impl View for Server {
    type V = ServerView;

    closed spec fn view(&self) -> ServerView {
        ServerView {
            bind_addr: self.bind_addr@,
            routes: views(self.routes@),
            phase: match self.phase {
                Phase::Unbound => PhaseView::Unbound,
                Phase::Serving(addr) => PhaseView::Serving(addr@),
                Phase::Stopped => PhaseView::Stopped,
            },
        }
    }
}

impl Server {
    /// An unbound server for `routes` at `bind_addr`.
    pub fn new(bind_addr: String, routes: Vec<Route>) -> (server: Server)
        ensures
            server@ == (ServerView {
                bind_addr: bind_addr@,
                routes: views(routes@),
                phase: PhaseView::Unbound,
            }),
    {
        Server { bind_addr, routes, phase: Phase::Unbound }
    }

    /// The address to bind, as it was given: `host:port`, where port 0 asks
    /// for any free port.
    pub fn bind_address(&self) -> (address: &str)
        ensures
            address@ == self@.bind_addr,
    {
        self.bind_addr.as_str()
    }

    /// The address that the server listens at: present while it serves, and
    /// at no other time.
    pub fn binded_address(&self) -> (address: Option<BoundAddr>)
        ensures
            match address {
                Some(addr) => self@.bound() == Some(addr@),
                None => self@.bound() is None,
            },
    {
        match &self.phase {
            Phase::Serving(addr) => Some(addr.clone()),
            _ => None,
        }
    }

    /// The routes, in the order in which they were given.
    pub fn routes(&self) -> (routes: Vec<Route>)
        ensures
            views(routes@) == self@.routes,
    {
        let mut copy: Vec<Route> = Vec::new();
        let mut i: usize = 0;
        while i < self.routes.len()
            invariant
                i <= self.routes.len(),
                copy.len() == i,
                forall|k: int| 0 <= k < i ==> copy[k]@ == self.routes[k]@,
            decreases self.routes.len() - i,
        {
            copy.push(self.routes[i].clone());
            i += 1;
        }
        assert(views(copy@) =~= views(self.routes@));
        copy
    }

    /// Whether the server has not been started or cancelled yet.
    pub fn is_unbound(&self) -> (unbound: bool)
        ensures
            unbound == (self@.phase is Unbound),
    {
        match &self.phase {
            Phase::Unbound => true,
            _ => false,
        }
    }

    /// Whether the server is serving.
    pub fn is_serving(&self) -> (serving: bool)
        ensures
            serving == (self@.phase is Serving),
    {
        match &self.phase {
            Phase::Serving(_) => true,
            _ => false,
        }
    }

    /// Whether the server has stopped.
    pub fn is_stopped(&self) -> (stopped: bool)
        ensures
            stopped == (self@.phase is Stopped),
    {
        match &self.phase {
            Phase::Stopped => true,
            _ => false,
        }
    }

    /// Starts the server on the report of how binding its address went.
    ///
    /// With a listener open at a port other than 0 and routes that can all be
    /// installed, the server serves from now on: the result is the bound
    /// address and the router to answer requests with. In every other case
    /// nothing is served and the server is used up: a failed bind and a
    /// listener without a port give a `BindError`, routes at fault give the
    /// first fault.
    pub fn start(&mut self, outcome: BindOutcome) -> (started: Result<
        (BoundAddr, axum::Router),
        StartError,
    >)
        requires
            old(self)@.phase is Unbound,
        ensures
            final(self)@.bind_addr == old(self)@.bind_addr,
            final(self)@.routes == old(self)@.routes,
            match started {
                Ok((addr, router)) => {
                    &&& outcome matches BindOutcome::Bound(bound)
                    &&& addr@ == bound@
                    &&& addr.port != 0
                    &&& accepted(old(self)@.routes)
                    &&& routes_of(router) == table_of(old(self)@.routes)
                    &&& final(self)@.phase == PhaseView::Serving(addr@)
                },
                Err(StartError::Bind(error)) => {
                    &&& final(self)@.phase is Stopped
                    &&& match outcome {
                        BindOutcome::Failed(reason) => error.reason@ == reason@,
                        BindOutcome::Bound(bound) => bound.port == 0 && error.reason@
                            == no_port_reason(),
                    }
                },
                Err(StartError::Routes(error)) => {
                    &&& final(self)@.phase is Stopped
                    &&& outcome matches BindOutcome::Bound(bound)
                    &&& bound.port != 0
                    &&& is_first_fault(old(self)@.routes, error)
                },
            },
    {
        match outcome {
            BindOutcome::Failed(reason) => {
                self.phase = Phase::Stopped;
                Err(StartError::Bind(BindError { reason }))
            },
            BindOutcome::Bound(bound) => {
                if bound.port == 0 {
                    self.phase = Phase::Stopped;
                    let reason = String::from_str("the listener reports port 0");
                    return Err(StartError::Bind(BindError { reason }));
                }
                match build(&self.routes) {
                    Err(error) => {
                        self.phase = Phase::Stopped;
                        Err(StartError::Routes(error))
                    },
                    Ok(router) => {
                        let addr = bound.clone();
                        self.phase = Phase::Serving(bound);
                        Ok((addr, router))
                    },
                }
            },
        }
    }

    /// Takes the cancellation signal. A serving server stops, and the result
    /// says that its task is to be aborted; on any other server there is
    /// nothing to abort. No server serves afterwards, or can be started.
    pub fn cancel(&mut self) -> (abort: bool)
        ensures
            final(self)@ == old(self)@.cancelled(),
            abort == (old(self)@.phase is Serving),
    {
        let abort = self.is_serving();
        self.phase = Phase::Stopped;
        abort
    }
}

/// Cancelling is idempotent: the signal leaves every server stopped and
/// without a bound address, and a second signal changes nothing and finds
/// nothing to abort.
pub proof fn lemma_cancel_is_idempotent(server: ServerView)
    ensures
        server.cancelled().phase is Stopped,
        server.cancelled().bound() is None,
        server.cancelled().cancelled() == server.cancelled(),
        !(server.cancelled().phase is Serving),
{
}

} // verus!
