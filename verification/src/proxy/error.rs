//! The kinds of failure the engine tells apart, and what a client sees of
//! each.

use vstd::prelude::*;
use vstd::string::*;

verus! {

/// A kind of failure.
#[derive(Clone, Copy, Debug, PartialEq, Eq, Structural)]
pub enum ProxyError {
    /// The listener could not bind its address.
    BindError,
    /// The origin could not be connected to.
    Unreachable,
    /// A malformed `CONNECT` target, or a request target that does not
    /// name an origin.
    BadRequest,
    /// Minting a certificate or preparing TLS failed.
    CryptoError,
    /// The TLS handshake with the client failed.
    TlsHandshakeError,
    /// The origin broke HTTP/1.1 framing.
    OriginProtocolError,
    /// The peer went away.
    ConnectionDropped,
}

impl ProxyError {
    /// The HTTP status that tells the client of this failure, where one
    /// does: 400 for a bad request, 503 for an unreachable origin, 502 for
    /// an origin that broke the protocol. The other kinds are not answered.
    pub open spec fn status(self) -> Option<u16> {
        match self {
            ProxyError::BadRequest => Some(400u16),
            ProxyError::Unreachable => Some(503u16),
            ProxyError::OriginProtocolError => Some(502u16),
            _ => None,
        }
    }

    /// Whether this failure ends the listener: only a failed bind does.
    pub open spec fn fatal(self) -> bool {
        self == ProxyError::BindError
    }

    /// The HTTP status that tells the client of this failure, if any.
    pub fn status_code(&self) -> (code: Option<u16>)
        ensures
            code == self.status(),
    {
        match self {
            ProxyError::BadRequest => Some(400),
            ProxyError::Unreachable => Some(503),
            ProxyError::OriginProtocolError => Some(502),
            _ => None,
        }
    }

    /// Whether this failure ends the listener.
    pub fn is_fatal(&self) -> (fatal: bool)
        ensures
            fatal == self.fatal(),
    {
        match self {
            ProxyError::BindError => true,
            _ => false,
        }
    }

    /// The words for this kind of failure.
    pub open spec fn words(self) -> Seq<char> {
        match self {
            ProxyError::BindError => "listener could not bind"@,
            ProxyError::Unreachable => "origin unreachable"@,
            ProxyError::BadRequest => "bad request"@,
            ProxyError::CryptoError => "certificate could not be minted"@,
            ProxyError::TlsHandshakeError => "TLS handshake failed"@,
            ProxyError::OriginProtocolError => "origin broke the protocol"@,
            ProxyError::ConnectionDropped => "connection dropped"@,
        }
    }

    /// A short description, for logs.
    pub fn describe(&self) -> (text: String)
        ensures
            text@ == self.words(),
    {
        match self {
            ProxyError::BindError => String::from_str("listener could not bind"),
            ProxyError::Unreachable => String::from_str("origin unreachable"),
            ProxyError::BadRequest => String::from_str("bad request"),
            ProxyError::CryptoError => String::from_str("certificate could not be minted"),
            ProxyError::TlsHandshakeError => String::from_str("TLS handshake failed"),
            ProxyError::OriginProtocolError => String::from_str("origin broke the protocol"),
            ProxyError::ConnectionDropped => String::from_str("connection dropped"),
        }
    }
}

} // verus!
