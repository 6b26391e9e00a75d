use vstd::prelude::*;
use crate::config::SslMode;
use crate::error::{Error, TlsFailure};
use crate::message::SSL_ACCEPT;

verus! {

/// What to do before any byte is exchanged.
#[derive(Clone, Copy, Debug, PartialEq, Eq, Structural)]
pub enum Policy {
    /// Keep the stream as it is, without asking the server.
    Skip,
    /// Send the negotiation request.
    Negotiate,
}

/// What the server's answer leads to.
#[derive(Clone, Copy, Debug, PartialEq, Eq, Structural)]
pub enum Verdict {
    /// Go on over the clear stream: a success, not an error.
    KeepRaw,
    /// Hand the stream to the connector for the TLS handshake.
    Upgrade,
    /// Give up with this error.
    Reject(Error),
}

/// Negotiation is attempted under `Require`, and under `Prefer` when the
/// connector can work on the stream; never under `Disable`.
pub open spec fn should_negotiate(mode: SslMode, can_connect: bool) -> bool {
    mode == SslMode::Require || (mode == SslMode::Prefer && can_connect)
}

/// The decision on the server's answer `response`, for a negotiation that
/// was started under `mode`.
pub open spec fn verdict_of(mode: SslMode, response: u8, has_hostname: bool) -> Verdict {
    if response != SSL_ACCEPT {
        if mode == SslMode::Require {
            Verdict::Reject(Error::Tls(TlsFailure::ServerDeclined))
        } else {
            Verdict::KeepRaw
        }
    } else if !has_hostname {
        Verdict::Reject(Error::Tls(TlsFailure::NoHostname))
    } else {
        Verdict::Upgrade
    }
}

/// Decides, before any traffic, whether to send the negotiation request.
pub fn evaluate_policy(mode: SslMode, can_connect: bool) -> (r: Policy)
    ensures
        r == Policy::Negotiate <==> should_negotiate(mode, can_connect),
        mode == SslMode::Disable ==> r == Policy::Skip,
        mode == SslMode::Require ==> r == Policy::Negotiate,
{
    match mode {
        SslMode::Disable => Policy::Skip,
        SslMode::Prefer => if can_connect {
            Policy::Negotiate
        } else {
            Policy::Skip
        },
        SslMode::Require => Policy::Negotiate,
    }
}

/// Decides what the server's one-byte answer leads to. Any byte but the
/// accept byte is a decline, whatever its value.
pub fn interpret_response(mode: SslMode, response: u8, has_hostname: bool) -> (r: Verdict)
    ensures
        r == verdict_of(mode, response, has_hostname),
        r == Verdict::Upgrade <==> (response == SSL_ACCEPT && has_hostname),
        r == Verdict::KeepRaw <==> (response != SSL_ACCEPT && mode != SslMode::Require),
{
    if response != SSL_ACCEPT {
        if mode == SslMode::Require {
            Verdict::Reject(Error::Tls(TlsFailure::ServerDeclined))
        } else {
            Verdict::KeepRaw
        }
    } else if !has_hostname {
        Verdict::Reject(Error::Tls(TlsFailure::NoHostname))
    } else {
        Verdict::Upgrade
    }
}

} // verus!
