//! Serving one in-memory payload over HTTP for the length of a session.
//!
//! The crate holds the rules of that service: what a route is, which routes a
//! router may take, what a request is answered with, how piped input becomes a
//! payload, and the life cycle of a server from unbound to stopped. Sockets,
//! tasks and signals are the embedding program's business; it reports what
//! happened and performs what this crate decides.

pub mod commands;
pub mod router;
pub mod text;
