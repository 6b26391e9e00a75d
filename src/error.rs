use vstd::prelude::*;

verus! {

/// Why a TLS negotiation failed.
#[derive(Clone, Copy, Debug, PartialEq, Eq, Structural)]
pub enum TlsFailure {
    /// The server answered the request with something other than the accept
    /// byte, and the mode demands TLS.
    ServerDeclined,
    /// The server accepted, but no hostname was configured to validate its
    /// certificate against.
    NoHostname,
    /// The connector's own handshake failed.
    Handshake,
}

/// A failure of the negotiation.
#[derive(Clone, Copy, Debug, PartialEq, Eq, Structural)]
pub enum Error {
    /// Writing the request or reading the answer failed on the transport,
    /// a premature close included.
    Io,
    /// The negotiation itself failed.
    Tls(TlsFailure),
}

impl TlsFailure {
    /// A short description of the failure.
    pub fn message(&self) -> (r: &'static str)
        ensures
            *self == TlsFailure::ServerDeclined ==> r@ == "server does not support TLS"@,
            *self == TlsFailure::NoHostname ==> r@ == "no hostname provided for TLS handshake"@,
            *self == TlsFailure::Handshake ==> r@ == "TLS handshake failed"@,
    {
        match self {
            TlsFailure::ServerDeclined => "server does not support TLS",
            TlsFailure::NoHostname => "no hostname provided for TLS handshake",
            TlsFailure::Handshake => "TLS handshake failed",
        }
    }
}

} // verus!
