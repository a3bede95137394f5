//! The TLS interceptor: what happens on a tunnel once `CONNECT` has been
//! answered.
//!
//! The interceptor waits for the connection to be handed over, completes a
//! TLS handshake as the forged origin, and serves HTTP/1.1 over the
//! decrypted stream until the client closes it. The waiting is the
//! embedder's; [`upgrade_to_tls`] is told what happened and answers with
//! what to do next.

use vstd::prelude::*;
use openssl::ssl::Ssl;
use crate::proxy::certs::Identity;
use crate::proxy::error::ProxyError;
use crate::proxy::trusted::{
    build_acceptor, intermediate_acceptor, new_session, set_certificate, set_private_key,
    AcceptorModel, Described, Profile,
};

verus! {

/// How far an interceptor has come.
#[derive(Clone, Copy, Debug, PartialEq, Eq)]
pub enum TlsPhase {
    /// `CONNECT` was answered; the connection is yet to be handed over.
    AwaitingUpgrade,
    /// The TLS handshake with the client is under way.
    Handshaking,
    /// HTTP/1.1 is served over the decrypted stream.
    Serving,
    /// The interceptor has ended, as the result says.
    Closed(Result<(), ProxyError>),
}

/// What happened last on the tunnel.
#[derive(Clone, Copy, Debug, PartialEq, Eq, Structural)]
pub enum TlsEvent {
    /// The step that was asked for succeeded.
    Succeeded,
    /// The step that was asked for failed.
    Failed,
}

/// What the interceptor does next.
pub enum TlsAction {
    /// Perform the server side of the handshake with this session.
    Handshake(Described<Ssl, AcceptorModel>),
    /// Serve HTTP/1.1 over the decrypted stream.
    Serve,
    /// End, with this result.
    Finish(Result<(), ProxyError>),
}

/// The step that follows an event in a phase, but for the one that needs a
/// TLS session: that one is [`begin_handshake`]'s.
///
/// A connection that is never handed over ends the interceptor quietly. A
/// failed handshake ends it with that failure, and nothing has been sent to
/// the client. Serving ends well when the client closes the stream, and as
/// a dropped connection when it breaks. An interceptor that has ended stays
/// so.
pub open spec fn tls_step(phase: TlsPhase, event: TlsEvent) -> (TlsPhase, TlsAction) {
    match (phase, event) {
        (TlsPhase::AwaitingUpgrade, _) => (TlsPhase::Closed(Ok(())), TlsAction::Finish(Ok(()))),
        (TlsPhase::Handshaking, TlsEvent::Succeeded) => (TlsPhase::Serving, TlsAction::Serve),
        (TlsPhase::Handshaking, TlsEvent::Failed) => (
            TlsPhase::Closed(Err(ProxyError::TlsHandshakeError)),
            TlsAction::Finish(Err(ProxyError::TlsHandshakeError)),
        ),
        (TlsPhase::Serving, TlsEvent::Succeeded) => (
            TlsPhase::Closed(Ok(())),
            TlsAction::Finish(Ok(())),
        ),
        (TlsPhase::Serving, TlsEvent::Failed) => (
            TlsPhase::Closed(Err(ProxyError::ConnectionDropped)),
            TlsAction::Finish(Err(ProxyError::ConnectionDropped)),
        ),
        (TlsPhase::Closed(result), _) => (TlsPhase::Closed(result), TlsAction::Finish(result)),
    }
}

/// The step that follows the hand-over of the connection, given the TLS
/// session or the failure to prepare one.
pub open spec fn handshake_step(session: Result<Described<Ssl, AcceptorModel>, ProxyError>) -> (
    TlsPhase,
    TlsAction,
) {
    match session {
        Ok(ssl) => (TlsPhase::Handshaking, TlsAction::Handshake(ssl)),
        Err(error) => (TlsPhase::Closed(Err(error)), TlsAction::Finish(Err(error))),
    }
}

/// What a session presents that was prepared for an identity: that
/// identity's certificate with its private key, under Mozilla's
/// intermediate profile.
pub open spec fn presents(identity: Identity) -> AcceptorModel {
    AcceptorModel {
        profile: Profile::MozillaIntermediate,
        certificate: Some(identity.spec_certificate()),
        private_key: Some(identity.spec_private_key()),
    }
}

/// Prepares the TLS session in which `identity` is presented: an acceptor
/// with Mozilla's intermediate profile, the identity's certificate and its
/// private key.
///
/// Whether this succeeds is OpenSSL's to decide. Every failure is a
/// [`ProxyError::CryptoError`]; a session that comes back presents the
/// identity.
pub fn tls_session(identity: &Identity) -> (session: Result<
    Described<Ssl, AcceptorModel>,
    ProxyError,
>)
    ensures
        session matches Err(error) ==> error == ProxyError::CryptoError,
        session matches Ok(s) ==> s.model() == presents(*identity),
{
    let mut acceptor = match intermediate_acceptor() {
        Ok(acceptor) => acceptor,
        Err(_) => return Err(ProxyError::CryptoError),
    };
    if set_certificate(&mut acceptor, identity.cert_ref()).is_err() {
        return Err(ProxyError::CryptoError);
    }
    if set_private_key(&mut acceptor, identity.key_ref()).is_err() {
        return Err(ProxyError::CryptoError);
    }
    let acceptor = build_acceptor(acceptor);
    match new_session(&acceptor) {
        Ok(session) => Ok(session),
        Err(_) => Err(ProxyError::CryptoError),
    }
}

/// The step that follows the hand-over of the connection: the handshake
/// with the session that was prepared, or the end where none could be.
pub fn begin_handshake(session: Result<Described<Ssl, AcceptorModel>, ProxyError>) -> (step: (
    TlsPhase,
    TlsAction,
))
    ensures
        step == handshake_step(session),
{
    match session {
        Ok(ssl) => (TlsPhase::Handshaking, TlsAction::Handshake(ssl)),
        Err(error) => (TlsPhase::Closed(Err(error)), TlsAction::Finish(Err(error))),
    }
}

/// Takes one step of an interceptor that presents `entity_certificate`:
/// given the phase and what happened last, the next phase and what to do
/// next.
///
/// Once the connection is handed over, the TLS session is prepared and the
/// handshake asked for, with a session that presents the certificate and
/// its key; where OpenSSL refuses the session, the interceptor
/// ends with [`ProxyError::CryptoError`]. Every other step is
/// [`tls_step`]'s.
pub fn upgrade_to_tls(phase: TlsPhase, event: TlsEvent, entity_certificate: &Identity) -> (step: (
    TlsPhase,
    TlsAction,
))
    ensures
        phase == TlsPhase::AwaitingUpgrade && event == TlsEvent::Succeeded ==> {
            ||| {
                &&& step.0 == TlsPhase::Handshaking
                &&& step.1 matches TlsAction::Handshake(session)
                &&& session.model() == presents(*entity_certificate)
            }
            ||| step == handshake_step(Err(ProxyError::CryptoError))
        },
        !(phase == TlsPhase::AwaitingUpgrade && event == TlsEvent::Succeeded) ==> step
            == tls_step(phase, event),
{
    match phase {
        TlsPhase::AwaitingUpgrade => match event {
            TlsEvent::Succeeded => begin_handshake(tls_session(entity_certificate)),
            TlsEvent::Failed => (TlsPhase::Closed(Ok(())), TlsAction::Finish(Ok(()))),
        },
        TlsPhase::Handshaking => match event {
            TlsEvent::Succeeded => (TlsPhase::Serving, TlsAction::Serve),
            TlsEvent::Failed => (
                TlsPhase::Closed(Err(ProxyError::TlsHandshakeError)),
                TlsAction::Finish(Err(ProxyError::TlsHandshakeError)),
            ),
        },
        TlsPhase::Serving => match event {
            TlsEvent::Succeeded => (TlsPhase::Closed(Ok(())), TlsAction::Finish(Ok(()))),
            TlsEvent::Failed => (
                TlsPhase::Closed(Err(ProxyError::ConnectionDropped)),
                TlsAction::Finish(Err(ProxyError::ConnectionDropped)),
            ),
        },
        TlsPhase::Closed(result) => (TlsPhase::Closed(result), TlsAction::Finish(result)),
    }
}

} // verus!
