//! The proxy engine: the handle that owns one listener's lifecycle, and the
//! dispatcher that decides what becomes of each request.

use vstd::prelude::*;
use vstd::string::*;
use tokio::sync::oneshot::{Receiver, Sender};

pub mod certs;
pub mod client;
pub mod error;
pub mod laws;
pub mod logs;
pub mod message;
pub mod text;
pub mod tls;
pub mod trusted;
pub mod uri;

use crate::proxy::certs::{minted, Identity};
use crate::proxy::client::{
    answer, begins, endpoint, execute_spec, Client, OriginAction, OriginEvent, OriginPhase,
};
use crate::proxy::error::ProxyError;
use crate::proxy::logs::{HttpRecord, ProxyLogs, RecordView};
use crate::proxy::message::{HttpRequest, HttpResponse};
use crate::proxy::text::{authority, authority_text, str_eq};
use crate::proxy::trusted::{fire, shutdown_channel, Described};
use crate::proxy::uri::{is_valid_https_upgrade_uri, parsed_target, Target};

verus! {

/// What an observer sees of a proxy instance.
#[derive(Clone, Copy, Debug, PartialEq, Eq, Structural)]
pub enum ProxyState {
    /// The listener is bound and accepting.
    Serving,
    /// No listener; the state a new instance starts in.
    Stopped,
    /// The last attempt to bind the listener failed.
    Error,
}

/// An IP address, as plain numbers.
#[derive(Clone, Copy, Debug, PartialEq, Eq, Structural)]
pub enum Ip {
    /// The four octets of an IPv4 address, first to last.
    V4(u8, u8, u8, u8),
    /// The 128 bits of an IPv6 address, most significant first.
    V6(u128),
}

/// The address a listener binds.
#[derive(Clone, Copy, Debug, PartialEq, Eq, Structural)]
pub struct BindAddr {
    /// The address of the interface.
    pub ip: Ip,
    /// The TCP port.
    pub port: u16,
}

/// What every connection of one proxy shares.
pub struct ProxyCtx {
    /// The authority that signs the leaf of every intercepted host.
    pub ca: Identity,
}

impl Clone for ProxyCtx {
    fn clone(&self) -> (copy: Self)
        ensures
            copy == *self,
    {
        ProxyCtx { ca: self.ca.clone() }
    }
}

/// Where a listener stands: whether it serves, whether a shutdown signal
/// is armed, and what an observer sees.
#[derive(Clone, Copy, Debug, PartialEq, Eq, Structural)]
pub struct Lifecycle {
    /// Whether the listener is up.
    pub is_serving: bool,
    /// Whether the shutdown slot holds a sender.
    pub armed: bool,
    /// What an observer sees.
    pub state: ProxyState,
}

impl Lifecycle {
    /// A listener serves exactly while its shutdown slot is occupied, and
    /// is seen as serving exactly then.
    pub open spec fn wf(self) -> bool {
        &&& self.is_serving <==> self.armed
        &&& self.is_serving <==> self.state == ProxyState::Serving
    }

    /// Where a new handle stands.
    pub open spec fn initial() -> Lifecycle {
        Lifecycle { is_serving: false, armed: false, state: ProxyState::Stopped }
    }

    /// Where a serving handle stands.
    pub open spec fn serving() -> Lifecycle {
        Lifecycle { is_serving: true, armed: true, state: ProxyState::Serving }
    }

    /// Where a handle stands whose bind failed.
    pub open spec fn failed() -> Lifecycle {
        Lifecycle { is_serving: false, armed: false, state: ProxyState::Error }
    }
}

/// What [`ProxyHandle::serve`] asks for.
#[derive(Clone, Copy, Debug, PartialEq, Eq, Structural)]
pub enum ServeStep {
    /// Nothing: the handle serves already.
    Nothing,
    /// A listener on this address.
    Bind(BindAddr),
}

/// What the embedder does after [`ProxyHandle::serve`].
pub enum ServeAction {
    /// Nothing: the handle serves already.
    Nothing,
    /// Bind a listener and accept until the shutdown signal arrives.
    Bind {
        /// The address to bind.
        addr: BindAddr,
        /// Where the shutdown signal arrives: the receiver that belongs
        /// to the sender in the handle's shutdown slot.
        shutdown: Described<Receiver<()>, Sender<()>>,
    },
}

impl ServeAction {
    /// What is asked for, without the receiver that goes with it.
    pub open spec fn step(self) -> ServeStep {
        match self {
            ServeAction::Nothing => ServeStep::Nothing,
            ServeAction::Bind { addr, .. } => ServeStep::Bind(addr),
        }
    }
}

/// What [`ProxyHandle::stop`] does.
#[derive(Clone, Copy, Debug, PartialEq, Eq, Structural)]
pub enum StopStep {
    /// Nothing: there is no listener to stop.
    Nothing,
    /// The sender is taken out of the shutdown slot and fired.
    /// Connections that are open go on by themselves.
    Shutdown,
}

/// What [`ProxyHandle::stop`] did.
pub enum StopAction {
    /// Nothing: there was no listener to stop.
    Nothing,
    /// The sender was taken out of the shutdown slot and fired.
    Shutdown {
        /// The record of the send: whether the listener was still there
        /// to hear the signal, and on which sender the signal went out.
        sent: Described<bool, Sender<()>>,
    },
}

impl StopAction {
    /// What was done, without the record of the send.
    pub open spec fn step(self) -> StopStep {
        match self {
            StopAction::Nothing => StopStep::Nothing,
            StopAction::Shutdown { .. } => StopStep::Shutdown,
        }
    }
}

/// `serve`, on the lifecycle: a no-op while serving; else the handle
/// serves and a listener is to be bound.
pub open spec fn serve_spec(at: Lifecycle, addr: BindAddr) -> (Lifecycle, ServeStep) {
    if at.is_serving {
        (at, ServeStep::Nothing)
    } else {
        (Lifecycle::serving(), ServeStep::Bind(addr))
    }
}

/// `stop`, on the lifecycle: a no-op while the shutdown slot is empty;
/// else the slot is emptied, the signal fired and the handle stopped.
pub open spec fn stop_spec(at: Lifecycle) -> (Lifecycle, StopStep) {
    if at.armed {
        (Lifecycle::initial(), StopStep::Shutdown)
    } else {
        (at, StopStep::Nothing)
    }
}

/// A failure, on the lifecycle: a failed bind rolls the handle back and
/// shows as [`ProxyState::Error`]; no other failure touches the listener.
pub open spec fn failure_spec(at: Lifecycle, error: ProxyError) -> Lifecycle {
    if error.fatal() {
        Lifecycle::failed()
    } else {
        at
    }
}

/// The end of the accept loop, on the lifecycle: a serving handle stops.
pub open spec fn accept_ended_spec(at: Lifecycle) -> Lifecycle {
    if at.is_serving {
        Lifecycle::initial()
    } else {
        at
    }
}

/// The control object of one proxy instance.
///
/// The handle is a plain value and cannot be cloned: two copies would each
/// have a lifecycle of their own. A program that hands it to several
/// owners keeps one handle behind a lock and lets every owner call through
/// it, so that all of them see one lifecycle and a shutdown fires once.
pub struct ProxyHandle {
    addr: BindAddr,
    http_client: Client,
    ctx: ProxyCtx,
    /// The shutdown slot. The listener serves exactly while it is occupied.
    shutdown: Option<Sender<()>>,
    /// Whether the handle shows the failure of its last bind.
    failed: bool,
}

impl ProxyHandle {
    /// The address the handle was made for.
    pub closed spec fn spec_addr(self) -> BindAddr {
        self.addr
    }

    /// Where the handle stands.
    pub closed spec fn lifecycle(self) -> Lifecycle {
        Lifecycle {
            is_serving: self.shutdown is Some,
            armed: self.shutdown is Some,
            state: if self.shutdown is Some {
                ProxyState::Serving
            } else if self.failed {
                ProxyState::Error
            } else {
                ProxyState::Stopped
            },
        }
    }

    /// The authority the handle signs leaves with.
    pub closed spec fn spec_ca(self) -> Identity {
        self.ctx.ca
    }

    /// The sender in the shutdown slot, while there is one.
    pub closed spec fn spec_shutdown(self) -> Option<Sender<()>> {
        self.shutdown
    }

    /// The handle serves, and its shutdown is armed, exactly while the
    /// shutdown slot holds a sender.
    pub proof fn lemma_armed_while_slot_is_occupied(self)
        ensures
            self.lifecycle().armed <==> self.spec_shutdown() is Some,
            self.lifecycle().is_serving <==> self.spec_shutdown() is Some,
            self.lifecycle().wf(),
    {
    }

    /// A handle for `addr` that signs with `ca`. Nothing is opened; the
    /// handle is stopped.
    pub fn new(addr: BindAddr, ca: Identity) -> (handle: Self)
        ensures
            handle.spec_addr() == addr,
            handle.spec_ca() == ca,
            handle.lifecycle() == Lifecycle::initial(),
            handle.lifecycle().wf(),
            handle.spec_shutdown() is None,
    {
        Self {
            addr,
            http_client: Client::new(),
            ctx: ProxyCtx { ca },
            shutdown: None,
            failed: false,
        }
    }

    /// The address the handle was made for.
    pub fn addr(&self) -> (addr: BindAddr)
        ensures
            addr == self.spec_addr(),
    {
        self.addr
    }

    /// Whether the listener is up.
    pub fn is_serving(&self) -> (serving: bool)
        ensures
            serving == self.lifecycle().is_serving,
            self.lifecycle().wf(),
    {
        self.shutdown.is_some()
    }

    /// What an observer sees.
    pub fn state(&self) -> (state: ProxyState)
        ensures
            state == self.lifecycle().state,
            self.lifecycle().wf(),
    {
        if self.shutdown.is_some() {
            ProxyState::Serving
        } else if self.failed {
            ProxyState::Error
        } else {
            ProxyState::Stopped
        }
    }

    /// What every connection of this proxy shares.
    pub fn ctx(&self) -> (ctx: &ProxyCtx)
        ensures
            ctx.ca == self.spec_ca(),
    {
        &self.ctx
    }

    /// The outbound client of this proxy.
    pub fn client(&self) -> (client: &Client)
        ensures
            *client == (Client {  }),
    {
        &self.http_client
    }

    /// Starts serving. On a handle that serves already this changes
    /// nothing and asks for nothing. Else a fresh shutdown channel is
    /// made, its sender put into the shutdown slot, and the handle serves
    /// from now on: the embedder binds the listener and accepts until the
    /// channel's receiver, which it is handed, gets the signal.
    pub fn serve(&mut self) -> (action: ServeAction)
        ensures
            final(self).spec_addr() == old(self).spec_addr(),
            final(self).spec_ca() == old(self).spec_ca(),
            (final(self).lifecycle(), action.step()) == serve_spec(
                old(self).lifecycle(),
                old(self).spec_addr(),
            ),
            final(self).lifecycle().wf(),
            old(self).lifecycle().is_serving ==> *final(self) == *old(self),
            action matches ServeAction::Bind { shutdown, .. } ==> final(self).spec_shutdown()
                == Some(shutdown.model()),
    {
        if self.shutdown.is_some() {
            return ServeAction::Nothing;
        }
        let (sender, receiver) = shutdown_channel();
        self.shutdown = Some(sender);
        self.failed = false;
        ServeAction::Bind { addr: self.addr, shutdown: receiver }
    }

    /// Stops serving. On a handle whose shutdown slot is empty, one never
    /// served or stopped already, this changes nothing and does nothing.
    /// Else the sender is taken out of the slot and the signal sent on it,
    /// and the handle is stopped, whether or not anyone was left to hear
    /// the signal.
    pub fn stop(&mut self) -> (action: StopAction)
        ensures
            final(self).spec_addr() == old(self).spec_addr(),
            final(self).spec_ca() == old(self).spec_ca(),
            (final(self).lifecycle(), action.step()) == stop_spec(old(self).lifecycle()),
            final(self).lifecycle().wf(),
            final(self).spec_shutdown() is None,
            !old(self).lifecycle().armed ==> *final(self) == *old(self),
            action matches StopAction::Shutdown { sent } ==> old(self).spec_shutdown() == Some(
                sent.model(),
            ),
    {
        match self.shutdown.take() {
            Some(sender) => {
                let sent = fire(sender);
                self.failed = false;
                StopAction::Shutdown { sent }
            },
            None => StopAction::Nothing,
        }
    }

    /// Takes note of a failure. A failed bind rolls the handle back, shows
    /// as [`ProxyState::Error`] and is to be surfaced; any other failure
    /// belongs to one request or one connection and leaves the listener as
    /// it is. Returns whether the failure is to be surfaced.
    pub fn on_error(&mut self, error: ProxyError) -> (surfaced: bool)
        ensures
            final(self).spec_addr() == old(self).spec_addr(),
            final(self).spec_ca() == old(self).spec_ca(),
            final(self).lifecycle() == failure_spec(old(self).lifecycle(), error),
            final(self).lifecycle().wf(),
            error.fatal() ==> final(self).spec_shutdown() is None,
            !error.fatal() ==> *final(self) == *old(self),
            surfaced == error.fatal(),
    {
        if error.is_fatal() {
            self.shutdown = None;
            self.failed = true;
            true
        } else {
            false
        }
    }

    /// Takes note that the accept loop has ended: a serving handle is
    /// stopped, any other stays as it is.
    pub fn accept_ended(&mut self)
        ensures
            final(self).spec_addr() == old(self).spec_addr(),
            final(self).spec_ca() == old(self).spec_ca(),
            final(self).lifecycle() == accept_ended_spec(old(self).lifecycle()),
            final(self).lifecycle().wf(),
            final(self).spec_shutdown() is None,
            !old(self).lifecycle().is_serving ==> *final(self) == *old(self),
    {
        if self.shutdown.is_some() {
            self.shutdown = None;
            self.failed = false;
        }
    }
}

/// A request on its way to an origin.
#[derive(Debug, PartialEq, Eq)]
pub struct Forwarded {
    /// The request target to send in place of the one received, where it
    /// was rewritten.
    pub uri: Option<String>,
    /// How far the exchange with the origin has come.
    pub phase: OriginPhase,
    /// What to do next for it.
    pub action: OriginAction,
}

/// What becomes of a request.
pub enum Dispatch {
    /// Answer with an empty `200`, then run an interceptor on the
    /// connection that presents `identity` and forwards to `remote_addr`.
    Intercept {
        /// The leaf minted for the intercepted authority.
        identity: Identity,
        /// The intercepted authority, `host:port`.
        remote_addr: String,
    },
    /// Forward the request, in plaintext, and answer with what comes back.
    Forward(Forwarded),
    /// Answer with the failure, where it has a status; else drop the
    /// connection.
    Fail(ProxyError),
}

/// The method that asks for a tunnel.
pub open spec fn connect_method() -> Seq<char> {
    "CONNECT"@
}

/// Whether a path begins with a slash.
pub open spec fn begins_with_slash(path: Seq<char>) -> bool {
    path.len() > 0 && path[0] == '/'
}

/// The absolute target that an intercepted request is forwarded to:
/// `https://`, the intercepted authority, then path and query as they
/// came. A path begins with a slash; where it does not, or where there is
/// no path, a slash is put after the authority.
pub open spec fn rewritten_text(remote_addr: Seq<char>, path_and_query: Option<Seq<char>>) -> Seq<
    char,
> {
    match path_and_query {
        Some(path) => if begins_with_slash(path) {
            "https://"@ + remote_addr + path
        } else {
            "https://"@ + remote_addr + "/"@ + path
        },
        None => "https://"@ + remote_addr + "/"@,
    }
}

/// Sends a request on its way to its origin.
///
/// A request that came in plaintext keeps its target, and the exchange
/// begins as [`execute_spec`] says for it. A request that came through a
/// tunnel to `remote_addr` carries a path only: it gets the absolute target
/// [`rewritten_text`]. Where that text is a URI it names an origin, and
/// the exchange begins with the connection to it; where it is none, the
/// request is a bad request.
pub fn forward_http(uri: &Target, remote_addr: Option<&str>, client: &Client) -> (forwarded:
    Forwarded)
    ensures
        remote_addr is None ==> {
            &&& forwarded.uri is None
            &&& (forwarded.phase, forwarded.action) == execute_spec(
                OriginPhase::Idle,
                OriginEvent::Request(*uri),
            )
        },
        remote_addr matches Some(addr) ==> {
            &&& forwarded.uri matches Some(text)
            &&& text@ == rewritten_text(addr@, uri@.path_and_query)
            &&& match parsed_target(text@) {
                Some(target) => {
                    &&& endpoint(target) is Ok
                    &&& begins(target, forwarded.phase, forwarded.action)
                },
                None => {
                    &&& forwarded.phase == OriginPhase::Done
                    &&& forwarded.action == OriginAction::Fail(ProxyError::BadRequest)
                },
            }
        },
{
    match remote_addr {
        None => {
            let (phase, action) = client.execute(
                OriginPhase::Idle,
                OriginEvent::Request(uri.clone()),
            );
            Forwarded { uri: None, phase, action }
        },
        Some(addr) => {
            let mut text = String::from_str("https://");
            text.append(addr);
            match &uri.path_and_query {
                Some(path) => {
                    let path = path.as_str();
                    if !(path.unicode_len() > 0 && path.get_char(0) == '/') {
                        text.append("/");
                    }
                    text.append(path);
                },
                None => {
                    text.append("/");
                },
            }
            assert(text@ =~= rewritten_text(addr@, uri@.path_and_query));
            proof {
                reveal_strlit("https://");
                assert(text@.subrange(0, 8) =~= "https://"@);
            }
            match Target::parse(text.as_str()) {
                Some(target) => {
                    proof {
                        crate::proxy::client::lemma_execute_begins(target);
                    }
                    let (phase, action) = client.execute(
                        OriginPhase::Idle,
                        OriginEvent::Request(target),
                    );
                    Forwarded { uri: Some(text), phase, action }
                },
                None => Forwarded {
                    uri: Some(text),
                    phase: OriginPhase::Done,
                    action: OriginAction::Fail(ProxyError::BadRequest),
                },
            }
        },
    }
}

/// What becomes of a `CONNECT` for `remote_addr`, given the leaf that was
/// minted for it or the failure to mint one.
pub open spec fn intercept_spec(remote_addr: String, minted: Result<Identity, ()>) -> Dispatch {
    match minted {
        Ok(identity) => Dispatch::Intercept { identity, remote_addr },
        Err(_) => Dispatch::Fail(ProxyError::CryptoError),
    }
}

/// What becomes of a `CONNECT` for `remote_addr`, given the leaf that was
/// minted for it or the failure to mint one: the interception with that
/// leaf, or a failure that costs this request alone.
pub fn intercept(remote_addr: String, minted: Result<Identity, ()>) -> (dispatch: Dispatch)
    ensures
        dispatch == intercept_spec(remote_addr, minted),
{
    match minted {
        Ok(identity) => Dispatch::Intercept { identity, remote_addr },
        Err(_) => Dispatch::Fail(ProxyError::CryptoError),
    }
}

/// Decides what becomes of one request.
///
/// A `CONNECT` whose target is in authority form is intercepted: a leaf is
/// minted for `host:port`, issued and signed by the context's authority. Whether the
/// mint succeeds is OpenSSL's to decide; where it fails, the request fails
/// with [`ProxyError::CryptoError`]. A `CONNECT` with any other target is a
/// bad request. Every other request is forwarded as [`forward_http`] says
/// for a request that came in plaintext.
pub fn dispatch_req(method: &str, uri: &Target, ctx: &ProxyCtx, client: &Client) -> (dispatch:
    Dispatch)
    ensures
        method@ == connect_method() && uri@.is_authority_form() ==> {
            ||| {
                &&& dispatch matches Dispatch::Intercept { identity, remote_addr }
                &&& remote_addr@ == authority_text(uri@.host.unwrap(), uri@.port.unwrap())
                &&& minted(identity@, remote_addr@, Some(ctx.ca@))
            }
            ||| dispatch == Dispatch::Fail(ProxyError::CryptoError)
        },
        method@ == connect_method() && !uri@.is_authority_form() ==> dispatch == Dispatch::Fail(
            ProxyError::BadRequest,
        ),
        method@ != connect_method() ==> {
            &&& dispatch matches Dispatch::Forward(forwarded)
            &&& forwarded.uri is None
            &&& (forwarded.phase, forwarded.action) == execute_spec(
                OriginPhase::Idle,
                OriginEvent::Request(*uri),
            )
        },
{
    if str_eq(method, "CONNECT") {
        if is_valid_https_upgrade_uri(uri) {
            let remote_addr = match (&uri.host, uri.port) {
                (Some(host), Some(port)) => authority(host.as_str(), port),
                _ => return Dispatch::Fail(ProxyError::BadRequest),
            };
            let minted = Identity::entity_certificate(&ctx.ca, remote_addr.as_str());
            intercept(remote_addr, minted)
        } else {
            Dispatch::Fail(ProxyError::BadRequest)
        }
    } else {
        Dispatch::Forward(forward_http(uri, None, client))
    }
}

impl Dispatch {
    /// The response that answers the client at once: the empty `200` for
    /// an interception, the failure's response for a request that failed
    /// before it was sent. `None` where the answer is yet to come from the
    /// origin, and for a failure that is not answered.
    pub fn reply(&self) -> (response: Option<HttpResponse>)
        ensures
            self is Intercept ==> (response matches Some(r) && r.is_bare(200)),
            self matches Dispatch::Fail(error) ==> {
                &&& response is Some <==> error.status() is Some
                &&& response matches Some(r) ==> r.is_bare(error.status().unwrap())
            },
            self matches Dispatch::Forward(forwarded) ==> match forwarded.action {
                OriginAction::Fail(error) => {
                    &&& response is Some <==> error.status() is Some
                    &&& response matches Some(r) ==> r.is_bare(error.status().unwrap())
                },
                _ => response is None,
            },
    {
        match self {
            Dispatch::Intercept { .. } => Some(HttpResponse::tunnel_open()),
            Dispatch::Fail(error) => HttpResponse::for_error(*error),
            Dispatch::Forward(forwarded) => match &forwarded.action {
                OriginAction::Fail(error) => HttpResponse::for_error(*error),
                _ => None,
            },
        }
    }
}

/// Ends the exchange for `request` and keeps the journal.
///
/// The client is answered as [`answer`] says: with the origin's response
/// as it came, or with the bare response that tells of the failure. Where
/// there is an answer, the pair of request and answer is appended to the
/// journal, after all that is there; where there is none, because the
/// exchange goes on or the failure is not answered, the journal stays as
/// it is.
pub fn conclude(logs: &mut ProxyLogs, request: HttpRequest, action: OriginAction) -> (response:
    Option<HttpResponse>)
    ensures
        action matches OriginAction::Return(r) ==> response == Some(r),
        action matches OriginAction::Fail(e) ==> {
            &&& response is Some <==> e.status() is Some
            &&& response matches Some(r) ==> r.is_bare(e.status().unwrap())
        },
        !(action is Return) && !(action is Fail) ==> response is None,
        match response {
            Some(r) => final(logs)@ == old(logs)@.push(
                RecordView { request: request@, response: r@ },
            ),
            None => final(logs)@ == old(logs)@,
        },
{
    match answer(action) {
        Some(response) => {
            logs.append(HttpRecord { request, response: response.clone() });
            Some(response)
        },
        None => None,
    }
}

} // verus!
