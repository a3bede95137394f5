//! The outbound client: one request to one origin over a fresh connection.
//!
//! The client decides; it does not connect. [`Client::execute`] is told what
//! happened last and answers with what to do next, until it hands back the
//! origin's response or the failure to report.

use vstd::prelude::*;
use crate::proxy::error::ProxyError;
use crate::proxy::message::HttpResponse;
use crate::proxy::text::str_eq;
use crate::proxy::uri::{Target, TargetView};

verus! {

/// The outbound client. It holds nothing: every request opens a connection
/// of its own.
#[derive(Clone, Copy, Debug)]
pub struct Client {}

/// How far one exchange with an origin has come.
#[derive(Clone, Copy, Debug, PartialEq, Eq, Structural)]
pub enum OriginPhase {
    /// Nothing has been asked yet.
    Idle,
    /// A TCP connection is being opened.
    Connecting,
    /// The HTTP/1.1 connection is being set up.
    Handshaking,
    /// The request is on its way, the response head awaited.
    Sending,
    /// The response body is being read to its end.
    Collecting,
    /// The exchange is over.
    Done,
}

/// What happened last.
#[derive(Debug, PartialEq, Eq)]
pub enum OriginEvent {
    /// A request for this target is to be sent.
    Request(Target),
    /// The step that was asked for succeeded.
    Succeeded,
    /// The step that was asked for failed.
    Failed,
    /// The response is in, body and all.
    Response(HttpResponse),
}

/// What to do next.
#[derive(Debug, PartialEq, Eq)]
pub enum OriginAction {
    /// Open a TCP connection.
    Connect {
        /// The origin's host.
        host: String,
        /// The origin's port.
        port: u16,
    },
    /// Set up HTTP/1.1 on the connection.
    Handshake,
    /// Send the request and await the response head.
    Send,
    /// Read the response body to its end.
    Collect,
    /// Hand this response to the client, as it is.
    Return(HttpResponse),
    /// Report this failure.
    Fail(ProxyError),
}

/// The port of a scheme where the target names none: 443 for `https`, 80
/// otherwise.
pub open spec fn default_port(scheme: Seq<char>) -> u16 {
    if scheme == "https"@ {
        443
    } else {
        80
    }
}

/// Where a request for a target goes: the host and port to connect to. A
/// target without scheme or without host names no origin.
pub open spec fn endpoint(target: TargetView) -> Result<(Seq<char>, u16), ProxyError> {
    match (target.scheme, target.host) {
        (Some(scheme), Some(host)) => Ok(
            (
                host,
                match target.port {
                    Some(port) => port,
                    None => default_port(scheme),
                },
            ),
        ),
        _ => Err(ProxyError::BadRequest),
    }
}

/// The first step of an exchange, told by what it is for a target with the
/// given parts.
pub open spec fn begins(target: TargetView, phase: OriginPhase, action: OriginAction) -> bool {
    match endpoint(target) {
        Ok((host, port)) => {
            &&& phase == OriginPhase::Connecting
            &&& action matches OriginAction::Connect { host: h, port: p }
            &&& h@ == host
            &&& p == port
        },
        Err(error) => {
            &&& phase == OriginPhase::Done
            &&& action == OriginAction::Fail(error)
        },
    }
}

/// The step that follows an event in a phase.
///
/// A request starts with a connection to the target's endpoint, or ends at
/// once as a bad request. A failure to connect is an unreachable origin; a
/// failure of any later step is the origin's breach of protocol. The
/// response that was collected is returned as it is. An event that does not
/// belong to the phase ends the exchange as a breach of protocol.
pub open spec fn execute_spec(phase: OriginPhase, event: OriginEvent) -> (
    OriginPhase,
    OriginAction,
) {
    match (phase, event) {
        (OriginPhase::Idle, OriginEvent::Request(target)) => match (target.scheme, target.host) {
            (Some(scheme), Some(host)) => (
                OriginPhase::Connecting,
                OriginAction::Connect {
                    host,
                    port: match target.port {
                        Some(port) => port,
                        None => default_port(scheme@),
                    },
                },
            ),
            _ => (OriginPhase::Done, OriginAction::Fail(ProxyError::BadRequest)),
        },
        (OriginPhase::Connecting, OriginEvent::Succeeded) => (
            OriginPhase::Handshaking,
            OriginAction::Handshake,
        ),
        (OriginPhase::Connecting, OriginEvent::Failed) => (
            OriginPhase::Done,
            OriginAction::Fail(ProxyError::Unreachable),
        ),
        (OriginPhase::Handshaking, OriginEvent::Succeeded) => (
            OriginPhase::Sending,
            OriginAction::Send,
        ),
        (OriginPhase::Sending, OriginEvent::Succeeded) => (
            OriginPhase::Collecting,
            OriginAction::Collect,
        ),
        (OriginPhase::Collecting, OriginEvent::Response(response)) => (
            OriginPhase::Done,
            OriginAction::Return(response),
        ),
        _ => (OriginPhase::Done, OriginAction::Fail(ProxyError::OriginProtocolError)),
    }
}

/// The first step for a target is the one its parts call for.
pub proof fn lemma_execute_begins(target: Target)
    ensures
        begins(
            target@,
            execute_spec(OriginPhase::Idle, OriginEvent::Request(target)).0,
            execute_spec(OriginPhase::Idle, OriginEvent::Request(target)).1,
        ),
{
}

impl Client {
    /// A client. It holds nothing, so every client is this one.
    pub fn new() -> (client: Self)
        ensures
            client == (Client {  }),
    {
        Self {  }
    }

    /// Takes one step of an exchange: given the phase and what happened
    /// last, the next phase and what to do next.
    pub fn execute(&self, phase: OriginPhase, event: OriginEvent) -> (step: (
        OriginPhase,
        OriginAction,
    ))
        ensures
            step == execute_spec(phase, event),
    {
        let protocol_error = (
            OriginPhase::Done,
            OriginAction::Fail(ProxyError::OriginProtocolError),
        );
        match phase {
            OriginPhase::Idle => match event {
                OriginEvent::Request(target) => Self::begin(target),
                _ => protocol_error,
            },
            OriginPhase::Connecting => match event {
                OriginEvent::Succeeded => (OriginPhase::Handshaking, OriginAction::Handshake),
                OriginEvent::Failed => (
                    OriginPhase::Done,
                    OriginAction::Fail(ProxyError::Unreachable),
                ),
                _ => protocol_error,
            },
            OriginPhase::Handshaking => match event {
                OriginEvent::Succeeded => (OriginPhase::Sending, OriginAction::Send),
                _ => protocol_error,
            },
            OriginPhase::Sending => match event {
                OriginEvent::Succeeded => (OriginPhase::Collecting, OriginAction::Collect),
                _ => protocol_error,
            },
            OriginPhase::Collecting => match event {
                OriginEvent::Response(response) => (
                    OriginPhase::Done,
                    OriginAction::Return(response),
                ),
                _ => protocol_error,
            },
            OriginPhase::Done => protocol_error,
        }
    }

    fn begin(target: Target) -> (step: (OriginPhase, OriginAction))
        ensures
            step == execute_spec(OriginPhase::Idle, OriginEvent::Request(target)),
    {
        let Target { scheme, host, port, path_and_query: _ } = target;
        match (scheme, host) {
            (Some(scheme), Some(host)) => {
                let port: u16 = match port {
                    Some(port) => port,
                    None => if str_eq(scheme.as_str(), "https") {
                        443
                    } else {
                        80
                    },
                };
                (OriginPhase::Connecting, OriginAction::Connect { host, port })
            },
            _ => (OriginPhase::Done, OriginAction::Fail(ProxyError::BadRequest)),
        }
    }
}

/// The response that answers the client once an exchange has ended.
///
/// An origin's response is handed on unchanged. A failure is answered by a
/// bare response with its status. While the exchange goes on there is no
/// answer yet.
pub fn answer(action: OriginAction) -> (response: Option<HttpResponse>)
    ensures
        action matches OriginAction::Return(r) ==> response == Some(r),
        action matches OriginAction::Fail(e) ==> {
            &&& response is Some <==> e.status() is Some
            &&& response matches Some(r) ==> r.is_bare(e.status().unwrap())
        },
        !(action is Return) && !(action is Fail) ==> response is None,
{
    match action {
        OriginAction::Return(response) => Some(response),
        OriginAction::Fail(error) => HttpResponse::for_error(error),
        _ => None,
    }
}

} // verus!
