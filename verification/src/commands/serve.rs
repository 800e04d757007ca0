//! The `http serve` command: what it is called, what it takes, and what it
//! decides while it runs.
//!
//! Running the command is a session: the input becomes one route at `/`, a
//! server is made for it, the embedding program binds and serves, and on the
//! stop signal everything that the session holds is given back, once and in
//! order.

use vstd::prelude::*;
use vstd::string::*;
use vstd::utf8::*;
use super::{parse_pipeline_data, payload_of, PayloadError, PipelineInput};
use crate::router::server::{AddrView, BoundAddr, PhaseView, Server, ServerView};
use crate::router::table::accepted;
use crate::router::{check_header_value, is_header_value, is_route_path, Route, RouteView};
use crate::text::{decimal, decimal_text};

verus! {

/// The command that serves piped data over HTTP.
#[derive(Debug)]
pub struct HttpServeCommand;

/// A way to call the command, with what it is for.
#[derive(Debug)]
pub struct Example {
    pub description: &'static str,
    pub example: &'static str,
}

/// A kind of value that goes into or comes out of the command.
#[derive(Clone, Copy, Debug, PartialEq, Eq)]
pub enum ValueKind {
    String,
    Nothing,
    Binary,
    Bool,
}

/// A named flag of the command. Every flag takes a string.
#[derive(Debug)]
pub struct Flag {
    pub long: &'static str,
    pub short: char,
    pub description: &'static str,
}

/// The command's name, its flags, and the kinds of input it takes with the
/// kind of output each gives.
#[derive(Debug)]
pub struct CommandSignature {
    pub name: &'static str,
    pub flags: Vec<Flag>,
    pub input_output_types: Vec<(ValueKind, ValueKind)>,
}

/// One thing to give back when a session ends.
#[derive(Clone, Copy, Debug, PartialEq, Eq)]
pub enum Teardown {
    /// Abort the task that serves.
    AbortTask,
    /// Leave the foreground that the session entered.
    LeaveForeground,
    /// Drop the registration of the stop signal.
    DropSignalHandler,
}

/// The address that is bound where none is asked for: this machine only, at
/// any free port.
pub open spec fn default_address() -> Seq<char> {
    "127.0.0.1:0"@
}

/// The server that a session starts with, or why there is none.
pub open spec fn session_of(
    address: Option<String>,
    mime: Option<String>,
    input: PipelineInput,
) -> Result<ServerView, PayloadError> {
    match payload_of(input) {
        Err(error) => Err(error),
        Ok((data, given)) => {
            let content_type = match mime {
                Some(asked) => asked@,
                None => given,
            };
            if is_header_value(encode_utf8(content_type)) {
                Ok(
                    ServerView {
                        bind_addr: match address {
                            Some(asked) => asked@,
                            None => default_address(),
                        },
                        routes: seq![RouteView { path: "/"@, payload: data, content_type }],
                        phase: PhaseView::Unbound,
                    },
                )
            } else {
                Err(PayloadError::InvalidContentType)
            }
        },
    }
}

/// The line that tells the user where the server listens.
pub open spec fn banner(addr: AddrView) -> Seq<char> {
    "Binded to: http://"@ + addr.host + ":"@ + decimal(addr.port as nat) + "/"@
}

/// What a session gives back on the stop signal: everything, in order, if it
/// serves, and nothing if it does not.
pub open spec fn teardown_of(phase: PhaseView) -> Seq<Teardown> {
    if phase is Serving {
        seq![Teardown::AbortTask, Teardown::LeaveForeground, Teardown::DropSignalHandler]
    } else {
        Seq::empty()
    }
}

/// A port number in decimal.
pub fn port_text(port: u16) -> (text: String)
    ensures
        text@ == decimal(port as nat),
{
    decimal_text(port as usize)
}

impl HttpServeCommand {
    /// The name under which the command is called.
    pub fn name(&self) -> (name: &'static str)
        ensures
            name@ == "http serve"@,
    {
        "http serve"
    }

    /// What the command does, in a line.
    pub fn description(&self) -> (text: &'static str)
        ensures
            text@ == "Serve piped data on a web server"@,
    {
        "Serve piped data on a web server"
    }

    /// What the command does, at more length.
    pub fn extra_description(&self) -> (text: &'static str)
        ensures
            text@ == "Binds a HTTP server to a random (or given) address and port."@,
    {
        "Binds a HTTP server to a random (or given) address and port."
    }

    /// Two ways to call the command.
    pub fn examples(&self) -> (examples: Vec<Example>)
        ensures
            examples.len() == 2,
            examples[0].description@ == "List all files as JSON"@,
            examples[0].example@ == "ls | to json | http serve --mime 'application/json'"@,
            examples[1].description@ == "Serve a HTML document on port 25565"@,
            examples[1].example@
                == "open index.html --raw | http serve -m 'text/html' -a '127.0.0.1:25565'"@,
    {
        let mut examples: Vec<Example> = Vec::new();
        examples.push(
            Example {
                description: "List all files as JSON",
                example: "ls | to json | http serve --mime 'application/json'",
            },
        );
        examples.push(
            Example {
                description: "Serve a HTML document on port 25565",
                example: "open index.html --raw | http serve -m 'text/html' -a '127.0.0.1:25565'",
            },
        );
        examples
    }

    /// The command's signature: two optional flags, `--address` (`-a`) and
    /// `--mime` (`-m`), and four kinds of input, none of which gives output.
    pub fn signature(&self) -> (signature: CommandSignature)
        ensures
            signature.name@ == "http serve"@,
            signature.flags.len() == 2,
            signature.flags[0].long@ == "address"@,
            signature.flags[0].short == 'a',
            signature.flags[0].description@ == "Address to bind onto"@,
            signature.flags[1].long@ == "mime"@,
            signature.flags[1].short == 'm',
            signature.flags[1].description@ == "Mime-type to output"@,
            signature.input_output_types@ == seq![
                (ValueKind::String, ValueKind::Nothing),
                (ValueKind::Nothing, ValueKind::Nothing),
                (ValueKind::Binary, ValueKind::Nothing),
                (ValueKind::Bool, ValueKind::Nothing),
            ],
    {
        let mut flags: Vec<Flag> = Vec::new();
        flags.push(Flag { long: "address", short: 'a', description: "Address to bind onto" });
        flags.push(Flag { long: "mime", short: 'm', description: "Mime-type to output" });
        let mut kinds: Vec<(ValueKind, ValueKind)> = Vec::new();
        kinds.push((ValueKind::String, ValueKind::Nothing));
        kinds.push((ValueKind::Nothing, ValueKind::Nothing));
        kinds.push((ValueKind::Binary, ValueKind::Nothing));
        kinds.push((ValueKind::Bool, ValueKind::Nothing));
        assert(kinds@ =~= seq![
            (ValueKind::String, ValueKind::Nothing),
            (ValueKind::Nothing, ValueKind::Nothing),
            (ValueKind::Binary, ValueKind::Nothing),
            (ValueKind::Bool, ValueKind::Nothing),
        ]);
        CommandSignature { name: self.name(), flags, input_output_types: kinds }
    }

    /// Makes the server of a session from the command's flags and input.
    ///
    /// The input becomes the one route, at `/`. Its content type is the
    /// `--mime` flag where that is given, else the input's own. The address
    /// is the `--address` flag, else any free port on this machine. Input
    /// that has no payload, and a content type that cannot be sent, are
    /// refused here, before anything is bound.
    pub fn prepare(
        address: Option<String>,
        mime: Option<String>,
        input: PipelineInput,
    ) -> (prepared: Result<Server, PayloadError>)
        ensures
            match prepared {
                Ok(server) => {
                    &&& session_of(address, mime, input) == Ok::<ServerView, PayloadError>(server@)
                    &&& accepted(server@.routes)
                },
                Err(error) => session_of(address, mime, input) == Err::<ServerView, PayloadError>(
                    error,
                ),
            },
    {
        let bind_addr = match address {
            Some(asked) => asked,
            None => String::from_str("127.0.0.1:0"),
        };
        let (data, given) = match parse_pipeline_data(input) {
            Ok(payload) => payload,
            Err(error) => {
                return Err(error);
            },
        };
        let content_type = match mime {
            Some(asked) => asked,
            None => given,
        };
        if !check_header_value(content_type.as_str()) {
            return Err(PayloadError::InvalidContentType);
        }
        let route = Route::new(String::from_str("/"), data, content_type);
        let mut routes: Vec<Route> = Vec::new();
        routes.push(route);
        let server = Server::new(bind_addr, routes);
        proof {
            lemma_root_is_a_route_path();
            assert(server@.routes =~= seq![route@]);
            assert(!crate::router::table::seen_before(server@.routes, 0));
        }
        Ok(server)
    }

    /// The line to print once the server listens at `addr`. A session that
    /// talks to its host over standard input and output prints nothing.
    pub fn announcement(addr: &BoundAddr, using_stdio: bool) -> (line: Option<String>)
        ensures
            match line {
                Some(text) => !using_stdio && text@ == banner(addr@),
                None => using_stdio,
            },
    {
        if using_stdio {
            return None;
        }
        let mut text = String::from_str("Binded to: http://");
        text.append(addr.host.as_str());
        text.append(":");
        let port = port_text(addr.port);
        text.append(port.as_str());
        text.append("/");
        Some(text)
    }

    /// Takes the stop signal for a session's server. A serving server is
    /// stopped, and the result lists what to give back, in order; a second
    /// signal finds the server stopped and nothing left to give back.
    pub fn shutdown(server: &mut Server) -> (steps: Vec<Teardown>)
        ensures
            final(server)@ == old(server)@.cancelled(),
            steps@ == teardown_of(old(server)@.phase),
    {
        let mut steps: Vec<Teardown> = Vec::new();
        if server.cancel() {
            steps.push(Teardown::AbortTask);
            steps.push(Teardown::LeaveForeground);
            steps.push(Teardown::DropSignalHandler);
        }
        assert(steps@ =~= teardown_of(old(server)@.phase));
        steps
    }
}

/// The root path `/` is a route path.
pub proof fn lemma_root_is_a_route_path()
    ensures
        is_route_path(encode_utf8("/"@)),
{
    reveal_strlit("/");
    is_ascii_chars_encode_utf8("/"@);
    assert(encode_utf8("/"@) =~= seq![0x2fu8]);
}

/// The stop signal may come any number of times: after the first, nothing is
/// left to give back, and the server stays as the first left it.
pub proof fn lemma_second_signal_does_nothing(server: ServerView)
    ensures
        teardown_of(server.cancelled().phase) == Seq::<Teardown>::empty(),
        server.cancelled().cancelled() == server.cancelled(),
{
}

} // verus!
