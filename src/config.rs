use vstd::prelude::*;

verus! {

/// How strongly the client insists on an encrypted channel.
#[derive(Clone, Copy, Debug, PartialEq, Eq, Structural)]
pub enum SslMode {
    /// Never ask for TLS.
    Disable,
    /// Ask for TLS when the connector can do it; fall back to the clear
    /// channel when it cannot or the server declines.
    Prefer,
    /// TLS is mandatory: any failure to negotiate it is fatal.
    Require,
}

} // verus!
