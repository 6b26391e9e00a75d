//! Channel-security negotiation that a PostgreSQL client runs on a fresh
//! connection, before authentication: the policy that decides whether to ask
//! for TLS, the decision on the server's one-byte answer, and a step-by-step
//! state machine that a driver runs around the actual I/O.

pub mod config;
pub mod error;
pub mod guarantees;
pub mod handshake;
pub mod policy;
pub mod stream;
pub mod message;

pub use config::SslMode;
pub use error::{Error, TlsFailure};
pub use handshake::{Action, Event, Handshake, Phase};
pub use message::{ssl_request, SSL_ACCEPT};
pub use policy::{evaluate_policy, interpret_response, Policy, Verdict};
pub use stream::MaybeTlsStream;
