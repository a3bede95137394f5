//! Laws of the engine: what holds of every lifecycle, every journal and
//! every exchange, stated over the same functions that the contracts use.

use vstd::prelude::*;
use crate::proxy::certs::{minted, Digest, IdentityView};
use crate::proxy::client::{
    begins, endpoint, execute_spec, OriginAction, OriginEvent, OriginPhase,
};
use crate::proxy::error::ProxyError;
use crate::proxy::logs::RecordView;
use crate::proxy::message::HttpResponse;
use crate::proxy::tls::{tls_step, TlsAction, TlsEvent, TlsPhase};
use crate::proxy::trusted::ExtensionModel;
use crate::proxy::uri::{Target, TargetView};
use crate::proxy::{
    accept_ended_spec, failure_spec, serve_spec, stop_spec, BindAddr, Lifecycle, ProxyState,
    ServeStep, StopStep,
};

verus! {

/// A new handle is well formed, and every step of the lifecycle keeps it
/// so: the listener serves exactly while the shutdown slot is occupied.
pub proof fn law_lifecycle_stays_well_formed(at: Lifecycle, addr: BindAddr, error: ProxyError)
    requires
        at.wf(),
    ensures
        Lifecycle::initial().wf(),
        serve_spec(at, addr).0.wf(),
        stop_spec(at).0.wf(),
        failure_spec(at, error).wf(),
        accept_ended_spec(at).wf(),
{
}

/// The lifecycle moves as drawn: a stopped handle that is served serves; a
/// serving handle that is stopped, or whose accept loop ends, is stopped; a
/// serving handle whose bind fails shows the error; and a handle that shows
/// an error can be served again.
pub proof fn law_lifecycle_moves(addr: BindAddr)
    ensures
        Lifecycle::initial().state == ProxyState::Stopped,
        serve_spec(Lifecycle::initial(), addr) == (Lifecycle::serving(), ServeStep::Bind(addr)),
        stop_spec(Lifecycle::serving()) == (Lifecycle::initial(), StopStep::Shutdown),
        accept_ended_spec(Lifecycle::serving()) == Lifecycle::initial(),
        failure_spec(Lifecycle::serving(), ProxyError::BindError) == Lifecycle::failed(),
        Lifecycle::failed().state == ProxyState::Error,
        serve_spec(Lifecycle::failed(), addr) == (Lifecycle::serving(), ServeStep::Bind(addr)),
{
}

/// Serving twice binds at most one listener: whatever the first call did,
/// the handle serves after it, and the second call changes nothing and
/// asks for nothing.
pub proof fn law_serve_twice_binds_once(at: Lifecycle, addr: BindAddr)
    requires
        at.wf(),
    ensures
        serve_spec(at, addr).0.is_serving,
        serve_spec(serve_spec(at, addr).0, addr) == (serve_spec(at, addr).0, ServeStep::Nothing),
{
}

/// Stopping a handle that does not serve, be it new or stopped before, is
/// a no-op; so stopping twice fires the shutdown signal at most once.
pub proof fn law_stop_is_idempotent(at: Lifecycle)
    requires
        at.wf(),
    ensures
        stop_spec(Lifecycle::initial()) == (Lifecycle::initial(), StopStep::Nothing),
        !at.is_serving ==> stop_spec(at) == (at, StopStep::Nothing),
        stop_spec(stop_spec(at).0) == (stop_spec(at).0, StopStep::Nothing),
{
}

/// A failure that is not a failed bind leaves the listener as it is: what
/// goes wrong for one request or on one connection stops nothing else.
pub proof fn law_failures_stay_local(at: Lifecycle, error: ProxyError)
    requires
        error != ProxyError::BindError,
    ensures
        failure_spec(at, error) == at,
{
}

/// Records stay in the order of their appends: after two appends the
/// journal is what it was, then the first record, then the second.
pub proof fn law_appends_keep_order(journal: Seq<RecordView>, first: RecordView, second: RecordView)
    ensures
        journal.push(first).push(second).len() == journal.len() + 2,
        journal.push(first).push(second)[journal.len() as int] == first,
        journal.push(first).push(second)[journal.len() as int + 1] == second,
        forall|i: int|
            0 <= i < journal.len() ==> #[trigger] journal.push(first).push(second)[i]
                == journal[i],
{
}

/// The four steps that take an exchange from an open connection to its
/// end, when each succeeds and the origin answers `response`.
pub open spec fn runs_to_return(phase: OriginPhase, response: HttpResponse) -> bool {
    let handshake = execute_spec(phase, OriginEvent::Succeeded);
    let send = execute_spec(handshake.0, OriginEvent::Succeeded);
    let collect = execute_spec(send.0, OriginEvent::Succeeded);
    let end = execute_spec(collect.0, OriginEvent::Response(response));
    &&& handshake.1 == OriginAction::Handshake
    &&& send.1 == OriginAction::Send
    &&& collect.1 == OriginAction::Collect
    &&& end == (OriginPhase::Done, OriginAction::Return(response))
}

/// Pass-through: a request whose target names an origin is sent there,
/// and where the origin is reached and answers, the client gets that very
/// response: status, headers and body.
pub proof fn law_pass_through(target: Target, response: HttpResponse)
    requires
        target.scheme is Some,
        target.host is Some,
    ensures
        execute_spec(OriginPhase::Idle, OriginEvent::Request(target)).1 is Connect,
        runs_to_return(
            execute_spec(OriginPhase::Idle, OriginEvent::Request(target)).0,
            response,
        ),
{
}

/// Pass-through under interception: the rewritten target of a tunnelled
/// request names an origin wherever it is a URI, as `forward_http` states;
/// the exchange that begins for it ends, when the origin is reached and
/// answers, with that very response.
pub proof fn law_intercepted_pass_through(
    target: TargetView,
    phase: OriginPhase,
    action: OriginAction,
    response: HttpResponse,
)
    requires
        begins(target, phase, action),
        endpoint(target) is Ok,
    ensures
        action is Connect,
        runs_to_return(phase, response),
{
}

/// An exchange that cannot reach its origin ends as unreachable, which the
/// client sees as a `503`; one that the origin breaks ends as a breach of
/// protocol, a `502`.
pub proof fn law_origin_failures(response: HttpResponse)
    ensures
        execute_spec(OriginPhase::Connecting, OriginEvent::Failed) == (
            OriginPhase::Done,
            OriginAction::Fail(ProxyError::Unreachable),
        ),
        ProxyError::Unreachable.status() == Some(503u16),
        execute_spec(OriginPhase::Handshaking, OriginEvent::Failed).1 == OriginAction::Fail(
            ProxyError::OriginProtocolError,
        ),
        execute_spec(OriginPhase::Sending, OriginEvent::Failed).1 == OriginAction::Fail(
            ProxyError::OriginProtocolError,
        ),
        execute_spec(OriginPhase::Collecting, OriginEvent::Failed).1 == OriginAction::Fail(
            ProxyError::OriginProtocolError,
        ),
        ProxyError::OriginProtocolError.status() == Some(502u16),
{
}

/// How far a phase of an exchange is from its beginning.
pub open spec fn origin_rank(phase: OriginPhase) -> nat {
    match phase {
        OriginPhase::Idle => 0,
        OriginPhase::Connecting => 1,
        OriginPhase::Handshaking => 2,
        OriginPhase::Sending => 3,
        OriginPhase::Collecting => 4,
        OriginPhase::Done => 5,
    }
}

/// An exchange never goes back and never stalls: every step takes it to a
/// later phase, until it is done, and done it stays. So an exchange is over
/// after five steps at most, and whoever drives one loops no longer.
pub proof fn law_exchange_moves_on(phase: OriginPhase, event: OriginEvent)
    ensures
        phase != OriginPhase::Done ==> origin_rank(execute_spec(phase, event).0) > origin_rank(
            phase,
        ),
        phase == OriginPhase::Done ==> execute_spec(phase, event).0 == OriginPhase::Done,
{
}

/// An exchange carries one request: every request begins with a
/// connection of its own or ends at once, and a request handed to an
/// exchange that is under way or over is not sent on anything that is
/// open.
pub proof fn law_exchange_is_one_shot(phase: OriginPhase, target: Target)
    ensures
        phase == OriginPhase::Idle ==> {
            ||| execute_spec(phase, OriginEvent::Request(target)).1 is Connect
            ||| execute_spec(phase, OriginEvent::Request(target)).1 == OriginAction::Fail(
                ProxyError::BadRequest,
            )
        },
        phase != OriginPhase::Idle ==> execute_spec(phase, OriginEvent::Request(target)) == (
            OriginPhase::Done,
            OriginAction::Fail(ProxyError::OriginProtocolError),
        ),
{
}

/// An exchange ends in exactly two ways: with a response that is handed
/// on, or with a failure. The step that ends it is the only one that
/// carries either.
pub proof fn law_exchange_ends_with_an_answer(phase: OriginPhase, event: OriginEvent)
    ensures
        execute_spec(phase, event).0 == OriginPhase::Done <==> (execute_spec(phase, event).1
            is Return || execute_spec(phase, event).1 is Fail),
{
}

/// An interceptor that has ended stays ended, with the result it ended
/// with: nothing is served after a failed handshake.
pub proof fn law_interceptor_ends_for_good(result: Result<(), ProxyError>, event: TlsEvent)
    ensures
        tls_step(TlsPhase::Closed(result), event) == (
            TlsPhase::Closed(result),
            TlsAction::Finish(result),
        ),
        tls_step(TlsPhase::Handshaking, TlsEvent::Failed).0 == TlsPhase::Closed(
            Err(ProxyError::TlsHandshakeError),
        ),
        tls_step(tls_step(TlsPhase::Handshaking, TlsEvent::Failed).0, event).1
            == TlsAction::Finish(Err(ProxyError::TlsHandshakeError)),
{
}

/// An interceptor serves only after a handshake that succeeded.
pub proof fn law_interceptor_serves_after_handshake(phase: TlsPhase, event: TlsEvent)
    ensures
        tls_step(phase, event).1 == TlsAction::Serve <==> (phase == TlsPhase::Handshaking && event
            == TlsEvent::Succeeded),
{
}

/// An authority signs itself: it names itself as issuer, carries the
/// public half of its own key, is marked as an authority in critical basic
/// constraints, has no alternative name, and its signature is made with
/// its own key over all that it says.
pub proof fn law_authority_signs_itself(authority: IdentityView, name: Seq<char>)
    requires
        minted(authority, name, None),
    ensures
        authority.certificate.content.subject == seq![name],
        authority.certificate.content.issuer == authority.certificate.content.subject,
        authority.certificate.content.public_key == Some(authority.private_key),
        authority.certificate.content.extensions == seq![
            ExtensionModel::BasicConstraints { critical: true, ca: true },
        ],
        authority.certificate.is_signed_by(authority.private_key, Digest::Sha256),
{
}

/// A leaf chains to its signer: it names the signer's subject as issuer,
/// carries the public half of its own key, is not marked as an authority,
/// and its signature is made with the signer's key over all that it says,
/// the alternative name included.
pub proof fn law_leaf_chains_to_its_signer(
    leaf: IdentityView,
    name: Seq<char>,
    signer: IdentityView,
)
    requires
        minted(leaf, name, Some(signer)),
    ensures
        leaf.certificate.content.subject == seq![name],
        leaf.certificate.content.issuer == signer.certificate.content.subject,
        leaf.certificate.content.public_key == Some(leaf.private_key),
        leaf.certificate.content.extensions[0] == (ExtensionModel::BasicConstraints {
            critical: true,
            ca: false,
        }),
        leaf.certificate.is_signed_by(signer.private_key, Digest::Sha256),
        leaf.certificate.signature.unwrap().content.extensions
            == leaf.certificate.content.extensions,
{
}

/// A leaf names exactly its host: it has one subject alternative name
/// extension, and that extension holds the one entry `DNS:name`.
pub proof fn law_leaf_names_exactly_its_host(
    leaf: IdentityView,
    name: Seq<char>,
    signer: IdentityView,
)
    requires
        minted(leaf, name, Some(signer)),
    ensures
        leaf.certificate.content.extensions.len() == 2,
        leaf.certificate.content.extensions[1] == (ExtensionModel::SubjectAltName {
            dns: seq![name],
        }),
        forall|i: int|
            0 <= i < leaf.certificate.content.extensions.len()
                && #[trigger] leaf.certificate.content.extensions[i] is SubjectAltName ==> i == 1,
        forall|i: int|
            0 <= i < leaf.certificate.content.extensions.len() ==> (
            #[trigger] leaf.certificate.content.extensions[i] matches ExtensionModel::SubjectAltName {
                dns,
            } ==> dns.len() == 1 && dns[0] == name),
{
}

} // verus!
