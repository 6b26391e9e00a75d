use vstd::prelude::*;

verus! {

/// The channel after negotiation: the original stream, or the stream that
/// the connector upgraded to TLS.
pub enum MaybeTlsStream<S, T> {
    Raw(S),
    Tls(T),
}

} // verus!
