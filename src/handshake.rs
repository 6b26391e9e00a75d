use vstd::prelude::*;
use crate::config::SslMode;
use crate::error::{Error, TlsFailure};
use crate::policy::{
    evaluate_policy, interpret_response, should_negotiate, verdict_of, Policy, Verdict,
};

verus! {

/// Where a negotiation stands.
#[derive(Clone, Copy, Debug, PartialEq, Eq, Structural)]
pub enum Phase {
    /// Nothing has been decided yet.
    Start,
    /// The request is being written.
    AwaitWrite,
    /// The server's one-byte answer is being read.
    AwaitResponse,
    /// The connector is running the TLS handshake.
    AwaitUpgrade,
    /// The negotiation is over; no event is taken any more.
    Done,
}

/// What the driver reports back to the machine.
#[derive(Clone, Copy, Debug, PartialEq, Eq, Structural)]
pub enum Event {
    /// The driver starts, and says whether the connector can work on the
    /// stream at all.
    Begin(bool),
    /// The whole request was written.
    WriteOk,
    /// Writing the request failed.
    WriteFailed,
    /// One byte was read from the server.
    Response(u8),
    /// Reading the answer failed, or the stream closed first.
    ReadFailed,
    /// The connector finished the TLS handshake.
    UpgradeOk,
    /// The connector's handshake failed.
    UpgradeFailed,
}

/// What the driver must do next.
#[derive(Clone, Copy, Debug, PartialEq, Eq, Structural)]
pub enum Action {
    /// Write the negotiation request (`message::ssl_request`) in full; this
    /// also starts the latency timer.
    SendRequest,
    /// Read exactly one byte from the stream.
    ReadResponse,
    /// Hand the stream to the connector.
    Upgrade,
    /// Stop and return the stream unchanged, as `Raw`.
    FinishRaw,
    /// Stop, record the handshake latency and return the upgraded stream,
    /// as `Tls`.
    FinishTls,
    /// Stop with this error.
    Fail(Error),
}

/// A single-use negotiation: one per connection attempt.
#[derive(Clone, Copy, Debug, PartialEq, Eq, Structural)]
pub struct Handshake {
    pub mode: SslMode,
    pub has_hostname: bool,
    pub phase: Phase,
}

/// The negotiation that has not started yet.
pub open spec fn initial(mode: SslMode, has_hostname: bool) -> Handshake {
    Handshake { mode, has_hostname, phase: Phase::Start }
}

/// Whether `e` is an event that the negotiation waits for in its phase.
pub open spec fn expects(h: Handshake, e: Event) -> bool {
    match h.phase {
        Phase::Start => e is Begin,
        Phase::AwaitWrite => e == Event::WriteOk || e == Event::WriteFailed,
        Phase::AwaitResponse => e is Response || e == Event::ReadFailed,
        Phase::AwaitUpgrade => e == Event::UpgradeOk || e == Event::UpgradeFailed,
        Phase::Done => false,
    }
}

/// The negotiation with another phase.
pub open spec fn moved(h: Handshake, phase: Phase) -> Handshake {
    Handshake { phase, ..h }
}

/// The next state and the action for an expected event.
pub open spec fn next(h: Handshake, e: Event) -> (Handshake, Action) {
    match e {
        Event::Begin(can_connect) => if should_negotiate(h.mode, can_connect) {
            (moved(h, Phase::AwaitWrite), Action::SendRequest)
        } else {
            (moved(h, Phase::Done), Action::FinishRaw)
        },
        Event::WriteOk => (moved(h, Phase::AwaitResponse), Action::ReadResponse),
        Event::WriteFailed => (moved(h, Phase::Done), Action::Fail(Error::Io)),
        Event::Response(b) => match verdict_of(h.mode, b, h.has_hostname) {
            Verdict::KeepRaw => (moved(h, Phase::Done), Action::FinishRaw),
            Verdict::Upgrade => (moved(h, Phase::AwaitUpgrade), Action::Upgrade),
            Verdict::Reject(err) => (moved(h, Phase::Done), Action::Fail(err)),
        },
        Event::ReadFailed => (moved(h, Phase::Done), Action::Fail(Error::Io)),
        Event::UpgradeOk => (moved(h, Phase::Done), Action::FinishTls),
        Event::UpgradeFailed => (
            moved(h, Phase::Done),
            Action::Fail(Error::Tls(TlsFailure::Handshake)),
        ),
    }
}

/// The actions that a driver performs when it feeds `events` to `h` in
/// order; the run stops at the first event that is not expected.
pub open spec fn actions(h: Handshake, events: Seq<Event>) -> Seq<Action>
    decreases events.len(),
{
    if events.len() == 0 || !expects(h, events[0]) {
        Seq::empty()
    } else {
        seq![next(h, events[0]).1] + actions(next(h, events[0]).0, events.drop_first())
    }
}

impl Handshake {
    /// A negotiation under `mode`, not started yet.
    pub fn new(mode: SslMode, has_hostname: bool) -> (r: Handshake)
        ensures
            r == initial(mode, has_hostname),
    {
        Handshake { mode, has_hostname, phase: Phase::Start }
    }

    /// Whether the negotiation is over.
    pub fn is_done(&self) -> (r: bool)
        ensures
            r == (self.phase == Phase::Done),
    {
        self.phase == Phase::Done
    }

    /// Whether `e` is an event that the negotiation waits for now.
    pub fn accepts(&self, e: Event) -> (r: bool)
        ensures
            r == expects(*self, e),
    {
        match self.phase {
            Phase::Start => matches!(e, Event::Begin(_)),
            Phase::AwaitWrite => e == Event::WriteOk || e == Event::WriteFailed,
            Phase::AwaitResponse => matches!(e, Event::Response(_)) || e == Event::ReadFailed,
            Phase::AwaitUpgrade => e == Event::UpgradeOk || e == Event::UpgradeFailed,
            Phase::Done => false,
        }
    }

    /// Takes the driver's report and says what to do next.
    pub fn step(&mut self, e: Event) -> (r: Action)
        requires
            expects(*old(self), e),
        ensures
            (*final(self), r) == next(*old(self), e),
    {
        let (phase, action) = match e {
            Event::Begin(can_connect) => match evaluate_policy(self.mode, can_connect) {
                Policy::Negotiate => (Phase::AwaitWrite, Action::SendRequest),
                Policy::Skip => (Phase::Done, Action::FinishRaw),
            },
            Event::WriteOk => (Phase::AwaitResponse, Action::ReadResponse),
            Event::WriteFailed => (Phase::Done, Action::Fail(Error::Io)),
            Event::Response(b) => match interpret_response(self.mode, b, self.has_hostname) {
                Verdict::KeepRaw => (Phase::Done, Action::FinishRaw),
                Verdict::Upgrade => (Phase::AwaitUpgrade, Action::Upgrade),
                Verdict::Reject(err) => (Phase::Done, Action::Fail(err)),
            },
            Event::ReadFailed => (Phase::Done, Action::Fail(Error::Io)),
            Event::UpgradeOk => (Phase::Done, Action::FinishTls),
            Event::UpgradeFailed => (Phase::Done, Action::Fail(Error::Tls(TlsFailure::Handshake))),
        };
        self.phase = phase;
        action
    }
}

} // verus!
