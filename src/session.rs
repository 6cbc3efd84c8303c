//! The lifecycle of one streaming session with the log server.
//!
//! A session is always in exactly one stage. For each stage the host program
//! performs one unit of I/O (named by [`GrpcConnection::work`]), reports what
//! came of it as an [`Outcome`], and [`step`] turns stage and outcome into the
//! event to publish and the next stage.

use vstd::prelude::*;
use crate::status::{Status, benign_code};

verus! {

/// The opaque identifier that the server hands out on registration; it lets a
/// session resume after a transient failure.
#[derive(Debug, Clone)]
pub struct Connection {
    pub connection_id: String,
}

/// The server's answer to a request to register an existing connection.
#[derive(Debug, Clone, Copy, PartialEq, Eq, Structural)]
pub enum RequestStatus {
    Confirmed,
    Error,
}

/// What the server tells about itself.
#[derive(Debug, Clone)]
pub struct ServerDetails {
    pub host: String,
    pub port: u32,
    pub uptime: u64,
}

/// One log record received from the stream.
#[derive(Debug, Clone)]
pub struct Log {
    pub message: String,
    pub file_name: String,
    pub line_number: u32,
    pub address: String,
    pub time: String,
}

/// The stage of a session. `C` is the client handle, `S` the log stream.
pub enum GrpcConnection<C, S> {
    NotConnected(String, u32),
    Connected(C, Option<Connection>),
    FetchingDetails(C, Connection),
    Registered(C, Connection),
    Streaming((Option<Result<Log, Status>>, S), C, Connection),
    Error(Status, C, Option<Connection>),
}

/// The unit of I/O that a stage asks for.
#[derive(Debug, Clone, Copy, PartialEq, Eq, Structural)]
pub enum Work {
    /// Open a transport to the stage's host and port.
    Connect,
    /// Register as a new client.
    RegisterNew,
    /// Register again with the stage's connection token.
    RegisterExisting,
    /// Ask the server for its details.
    FetchDetails,
    /// Open the log stream for the stage's connection token.
    OpenStream,
    /// Read the next item of the stage's log stream.
    PullNext,
    /// No I/O: the next stage follows from this one alone.
    Decide,
}

/// What came of the unit of I/O that a stage asked for.
pub enum Outcome<C, S> {
    /// The transport is open; here is the client.
    Connected(C),
    /// The transport could not be opened.
    Unreachable,
    /// Registration as a new client gave this token.
    Token(Connection),
    /// The server answered the registration of an existing token.
    Reply(RequestStatus),
    /// The server's details.
    Details(ServerDetails),
    /// The log stream was opened; its first item and its tail.
    Opened(Option<Result<Log, Status>>, S),
    /// The next item of the log stream (`None`: the stream ended).
    Pulled(Option<Result<Log, Status>>),
    /// The remote call failed.
    Failed(Status),
    /// No I/O was performed.
    Idle,
}

/// What a step hands to the user interface.
pub enum Event {
    /// Nothing to show.
    NoOp,
    /// The server details may be stale: refresh them if they are old enough.
    RefreshDetails,
    /// New server details.
    UpdateDetails(ServerDetails),
    /// A log record to append.
    AppendLog(Log),
    /// A failed remote call to report.
    ReportError(Status),
    /// The server refused to resume the connection token.
    TokenRejected,
}

/// The unit of I/O that stage `s` asks for.
pub open spec fn work_of<C, S>(s: GrpcConnection<C, S>) -> Work {
    match s {
        GrpcConnection::NotConnected(_, _) => Work::Connect,
        GrpcConnection::Connected(_, None) => Work::RegisterNew,
        GrpcConnection::Connected(_, Some(_)) => Work::RegisterExisting,
        GrpcConnection::FetchingDetails(_, _) => Work::FetchDetails,
        GrpcConnection::Registered(_, _) => Work::OpenStream,
        GrpcConnection::Streaming((Some(Ok(_)), _), _, _) => Work::PullNext,
        GrpcConnection::Streaming(_, _, _) => Work::Decide,
        GrpcConnection::Error(_, _, _) => Work::Decide,
    }
}

/// Whether outcome `o` can come of the work that stage `s` asks for.
pub open spec fn fits<C, S>(s: GrpcConnection<C, S>, o: Outcome<C, S>) -> bool {
    match work_of(s) {
        Work::Connect => o is Connected || o is Unreachable,
        Work::RegisterNew => o is Token || o is Failed,
        Work::RegisterExisting => o is Reply || o is Failed,
        Work::FetchDetails => o is Details || o is Failed,
        Work::OpenStream => o is Opened || o is Failed,
        Work::PullNext => o is Pulled,
        Work::Decide => o is Idle,
    }
}

/// The transition table: the event and the next stage for stage `s` and the
/// outcome `o` of its work. An outcome that does not fit leaves the stage as
/// it is.
pub open spec fn transition<C, S>(s: GrpcConnection<C, S>, o: Outcome<C, S>) -> (Event, GrpcConnection<C, S>) {
    if !fits(s, o) {
        (Event::NoOp, s)
    } else {
        match s {
            GrpcConnection::NotConnected(host, port) => match o {
                Outcome::Connected(c) => (Event::NoOp, GrpcConnection::Connected(c, None)),
                _ => (Event::NoOp, GrpcConnection::NotConnected(host, port)),
            },
            GrpcConnection::Connected(c, None) => match o {
                Outcome::Token(t) => (Event::RefreshDetails, GrpcConnection::FetchingDetails(c, t)),
                Outcome::Failed(st) => (Event::NoOp, GrpcConnection::Error(st, c, None)),
                _ => (Event::NoOp, s),
            },
            GrpcConnection::Connected(c, Some(t)) => match o {
                Outcome::Reply(RequestStatus::Confirmed) => (Event::RefreshDetails, GrpcConnection::FetchingDetails(c, t)),
                Outcome::Reply(RequestStatus::Error) => (Event::TokenRejected, GrpcConnection::Connected(c, None)),
                Outcome::Failed(st) => (Event::NoOp, GrpcConnection::Error(st, c, Some(t))),
                _ => (Event::NoOp, s),
            },
            GrpcConnection::FetchingDetails(c, t) => match o {
                Outcome::Details(d) => (Event::UpdateDetails(d), GrpcConnection::Registered(c, t)),
                Outcome::Failed(st) => (Event::RefreshDetails, GrpcConnection::Error(st, c, Some(t))),
                _ => (Event::NoOp, s),
            },
            GrpcConnection::Registered(c, t) => match o {
                Outcome::Opened(first, tail) => (Event::RefreshDetails, GrpcConnection::Streaming((first, tail), c, t)),
                Outcome::Failed(st) => (Event::RefreshDetails, GrpcConnection::Error(st, c, Some(t))),
                _ => (Event::NoOp, s),
            },
            GrpcConnection::Streaming((item, tail), c, t) => match item {
                Some(Ok(log)) => match o {
                    Outcome::Pulled(next) => (Event::AppendLog(log), GrpcConnection::Streaming((next, tail), c, t)),
                    _ => (Event::NoOp, GrpcConnection::Streaming((Some(Ok(log)), tail), c, t)),
                },
                Some(Err(st)) => (Event::RefreshDetails, GrpcConnection::Error(st, c, Some(t))),
                None => (Event::RefreshDetails, GrpcConnection::Registered(c, t)),
            },
            GrpcConnection::Error(st, c, tok) => {
                if benign_code(st.code) && tok is Some {
                    (Event::NoOp, GrpcConnection::Registered(c, tok->Some_0))
                } else {
                    (Event::ReportError(st), GrpcConnection::Connected(c, tok))
                }
            },
        }
    }
}

impl<C, S> GrpcConnection<C, S> {
    /// The first stage of a session with the server at `host`:`port`.
    pub fn new(host: String, port: u32) -> (r: GrpcConnection<C, S>)
        ensures
            r == GrpcConnection::<C, S>::NotConnected(host, port),
    {
        GrpcConnection::NotConnected(host, port)
    }

    /// The unit of I/O that this stage asks for.
    pub fn work(&self) -> (r: Work)
        ensures
            r == work_of(*self),
    {
        match self {
            GrpcConnection::NotConnected(_, _) => Work::Connect,
            GrpcConnection::Connected(_, None) => Work::RegisterNew,
            GrpcConnection::Connected(_, Some(_)) => Work::RegisterExisting,
            GrpcConnection::FetchingDetails(_, _) => Work::FetchDetails,
            GrpcConnection::Registered(_, _) => Work::OpenStream,
            GrpcConnection::Streaming((Some(Ok(_)), _), _, _) => Work::PullNext,
            GrpcConnection::Streaming(_, _, _) => Work::Decide,
            GrpcConnection::Error(_, _, _) => Work::Decide,
        }
    }

    /// Whether `o` can come of the work that this stage asks for.
    pub fn accepts(&self, o: &Outcome<C, S>) -> (r: bool)
        ensures
            r == fits(*self, *o),
    {
        match self.work() {
            Work::Connect => matches!(o, Outcome::Connected(_) | Outcome::Unreachable),
            Work::RegisterNew => matches!(o, Outcome::Token(_) | Outcome::Failed(_)),
            Work::RegisterExisting => matches!(o, Outcome::Reply(_) | Outcome::Failed(_)),
            Work::FetchDetails => matches!(o, Outcome::Details(_) | Outcome::Failed(_)),
            Work::OpenStream => matches!(o, Outcome::Opened(_, _) | Outcome::Failed(_)),
            Work::PullNext => matches!(o, Outcome::Pulled(_)),
            Work::Decide => matches!(o, Outcome::Idle),
        }
    }
}

/// One step of the session: the event to publish and the next stage, given
/// stage `state` and the outcome of the work that it asked for.
pub fn step<C, S>(state: GrpcConnection<C, S>, outcome: Outcome<C, S>) -> (r: (Event, GrpcConnection<C, S>))
    requires
        fits(state, outcome),
    ensures
        r == transition(state, outcome),
{
    match state {
        GrpcConnection::NotConnected(host, port) => match outcome {
            Outcome::Connected(c) => (Event::NoOp, GrpcConnection::Connected(c, None)),
            _ => (Event::NoOp, GrpcConnection::NotConnected(host, port)),
        },
        GrpcConnection::Connected(c, None) => match outcome {
            Outcome::Token(t) => (Event::RefreshDetails, GrpcConnection::FetchingDetails(c, t)),
            Outcome::Failed(st) => (Event::NoOp, GrpcConnection::Error(st, c, None)),
            _ => (Event::NoOp, GrpcConnection::Connected(c, None)),
        },
        GrpcConnection::Connected(c, Some(t)) => match outcome {
            Outcome::Reply(RequestStatus::Confirmed) => (Event::RefreshDetails, GrpcConnection::FetchingDetails(c, t)),
            Outcome::Reply(RequestStatus::Error) => (Event::TokenRejected, GrpcConnection::Connected(c, None)),
            Outcome::Failed(st) => (Event::NoOp, GrpcConnection::Error(st, c, Some(t))),
            _ => (Event::NoOp, GrpcConnection::Connected(c, Some(t))),
        },
        GrpcConnection::FetchingDetails(c, t) => match outcome {
            Outcome::Details(d) => (Event::UpdateDetails(d), GrpcConnection::Registered(c, t)),
            Outcome::Failed(st) => (Event::RefreshDetails, GrpcConnection::Error(st, c, Some(t))),
            _ => (Event::NoOp, GrpcConnection::FetchingDetails(c, t)),
        },
        GrpcConnection::Registered(c, t) => match outcome {
            Outcome::Opened(first, tail) => (Event::RefreshDetails, GrpcConnection::Streaming((first, tail), c, t)),
            Outcome::Failed(st) => (Event::RefreshDetails, GrpcConnection::Error(st, c, Some(t))),
            _ => (Event::NoOp, GrpcConnection::Registered(c, t)),
        },
        GrpcConnection::Streaming((item, tail), c, t) => match item {
            Some(Ok(log)) => match outcome {
                Outcome::Pulled(next) => (Event::AppendLog(log), GrpcConnection::Streaming((next, tail), c, t)),
                _ => (Event::NoOp, GrpcConnection::Streaming((Some(Ok(log)), tail), c, t)),
            },
            Some(Err(st)) => (Event::RefreshDetails, GrpcConnection::Error(st, c, Some(t))),
            None => (Event::RefreshDetails, GrpcConnection::Registered(c, t)),
        },
        GrpcConnection::Error(st, c, tok) => {
            if st.is_benign() {
                match tok {
                    Some(t) => (Event::NoOp, GrpcConnection::Registered(c, t)),
                    None => (Event::ReportError(st), GrpcConnection::Connected(c, None)),
                }
            } else {
                (Event::ReportError(st), GrpcConnection::Connected(c, tok))
            }
        },
    }
}

} // verus!
