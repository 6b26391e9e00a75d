use vstd::prelude::*;
use crate::config::SslMode;
use crate::error::{Error, TlsFailure};
use crate::handshake::{actions, expects, initial, next, Action, Event, Handshake, Phase};
use crate::message::SSL_ACCEPT;
use crate::policy::should_negotiate;

verus! {

/// Once over, a negotiation takes no more events.
proof fn lemma_done_is_silent(h: Handshake, events: Seq<Event>)
    requires
        h.phase == Phase::Done,
    ensures
        actions(h, events) == Seq::<Action>::empty(),
{
}

/// One step of a run: the action for the first event, then the rest.
proof fn lemma_step(h: Handshake, events: Seq<Event>)
    requires
        events.len() > 0,
        expects(h, events[0]),
    ensures
        actions(h, events) == seq![next(h, events[0]).1] + actions(
            next(h, events[0]).0,
            events.drop_first(),
        ),
{
}

/// The request is sent and acknowledged as written: the state that then
/// waits for the server's byte, and the actions so far.
proof fn lemma_request_written(mode: SslMode, has_hostname: bool, can_connect: bool, events: Seq<Event>)
    requires
        should_negotiate(mode, can_connect),
        events.len() >= 2,
        events[0] == Event::Begin(can_connect),
        events[1] == Event::WriteOk,
    ensures
        actions(initial(mode, has_hostname), events) == seq![
            Action::SendRequest,
            Action::ReadResponse,
        ] + actions(
            Handshake { mode, has_hostname, phase: Phase::AwaitResponse },
            events.drop_first().drop_first(),
        ),
{
    let h0 = initial(mode, has_hostname);
    let h1 = next(h0, events[0]).0;
    lemma_step(h0, events);
    lemma_step(h1, events.drop_first());
    assert(events.drop_first()[0] == events[1]);
    assert(actions(h0, events) =~= seq![Action::SendRequest, Action::ReadResponse] + actions(
        Handshake { mode, has_hostname, phase: Phase::AwaitResponse },
        events.drop_first().drop_first(),
    ));
}

/// The actions of a negotiation that reached the server's answer `b`, when
/// that answer ends it.
proof fn lemma_answer_ends(mode: SslMode, has_hostname: bool, can_connect: bool, b: u8, last: Action, events: Seq<Event>)
    requires
        should_negotiate(mode, can_connect),
        events.len() >= 3,
        events[0] == Event::Begin(can_connect),
        events[1] == Event::WriteOk,
        events[2] == Event::Response(b),
        next(Handshake { mode, has_hostname, phase: Phase::AwaitResponse }, Event::Response(b))
            == (Handshake { mode, has_hostname, phase: Phase::Done }, last),
    ensures
        actions(initial(mode, has_hostname), events) == seq![
            Action::SendRequest,
            Action::ReadResponse,
            last,
        ],
{
    lemma_request_written(mode, has_hostname, can_connect, events);
    let h2 = Handshake { mode, has_hostname, phase: Phase::AwaitResponse };
    let rest = events.drop_first().drop_first();
    assert(rest[0] == events[2]);
    lemma_step(h2, rest);
    lemma_done_is_silent(next(h2, rest[0]).0, rest.drop_first());
    assert(actions(initial(mode, has_hostname), events) =~= seq![
        Action::SendRequest,
        Action::ReadResponse,
        last,
    ]);
}

/// Under `Disable` the request is never sent: whatever the driver reports,
/// the only action is to return the stream as `Raw`.
pub proof fn disable_never_negotiates(has_hostname: bool, events: Seq<Event>)
    ensures
        actions(initial(SslMode::Disable, has_hostname), events).len() <= 1,
        forall|i: int|
            0 <= i < actions(initial(SslMode::Disable, has_hostname), events).len()
                ==> actions(initial(SslMode::Disable, has_hostname), events)[i]
                == Action::FinishRaw,
{
    let h = initial(SslMode::Disable, has_hostname);
    if events.len() > 0 && expects(h, events[0]) {
        lemma_done_is_silent(next(h, events[0]).0, events.drop_first());
        assert(actions(h, events) =~= seq![Action::FinishRaw]);
    }
}

/// Under `Prefer`, a connector that cannot work on the stream means no
/// request and a `Raw` result.
pub proof fn prefer_without_connector_stays_raw(has_hostname: bool, events: Seq<Event>)
    requires
        events.len() >= 1,
        events[0] == Event::Begin(false),
    ensures
        actions(initial(SslMode::Prefer, has_hostname), events) == seq![Action::FinishRaw],
{
    let h = initial(SslMode::Prefer, has_hostname);
    lemma_done_is_silent(next(h, events[0]).0, events.drop_first());
    assert(actions(h, events) =~= seq![Action::FinishRaw]);
}

/// Under `Prefer`, a server that declines (any byte but the accept byte)
/// leaves the stream `Raw`, with no error: one request, one byte read.
pub proof fn prefer_declined_stays_raw(has_hostname: bool, b: u8, events: Seq<Event>)
    requires
        b != SSL_ACCEPT,
        events.len() >= 3,
        events[0] == Event::Begin(true),
        events[1] == Event::WriteOk,
        events[2] == Event::Response(b),
    ensures
        actions(initial(SslMode::Prefer, has_hostname), events) == seq![
            Action::SendRequest,
            Action::ReadResponse,
            Action::FinishRaw,
        ],
{
    lemma_answer_ends(SslMode::Prefer, has_hostname, true, b, Action::FinishRaw, events);
}

/// Under `Require`, a server that declines makes the negotiation fail with
/// a TLS error, and the connector is never asked to upgrade.
pub proof fn require_declined_fails(has_hostname: bool, can_connect: bool, b: u8, events: Seq<Event>)
    requires
        b != SSL_ACCEPT,
        events.len() >= 3,
        events[0] == Event::Begin(can_connect),
        events[1] == Event::WriteOk,
        events[2] == Event::Response(b),
    ensures
        actions(initial(SslMode::Require, has_hostname), events) == seq![
            Action::SendRequest,
            Action::ReadResponse,
            Action::Fail(Error::Tls(TlsFailure::ServerDeclined)),
        ],
{
    lemma_answer_ends(
        SslMode::Require,
        has_hostname,
        can_connect,
        b,
        Action::Fail(Error::Tls(TlsFailure::ServerDeclined)),
        events,
    );
}

/// In any mode, a server that accepts while no hostname is configured makes
/// the negotiation fail with a TLS error before the connector is asked to
/// upgrade.
pub proof fn accepted_without_hostname_fails(mode: SslMode, can_connect: bool, events: Seq<Event>)
    requires
        should_negotiate(mode, can_connect),
        events.len() >= 3,
        events[0] == Event::Begin(can_connect),
        events[1] == Event::WriteOk,
        events[2] == Event::Response(SSL_ACCEPT),
    ensures
        actions(initial(mode, false), events) == seq![
            Action::SendRequest,
            Action::ReadResponse,
            Action::Fail(Error::Tls(TlsFailure::NoHostname)),
        ],
{
    lemma_answer_ends(
        mode,
        false,
        can_connect,
        SSL_ACCEPT,
        Action::Fail(Error::Tls(TlsFailure::NoHostname)),
        events,
    );
}

/// In any mode, a server that accepts, with a hostname configured and a
/// connector whose handshake succeeds, ends in `Tls` (with the latency
/// recorded) after exactly one request, one byte read and one upgrade.
pub proof fn accepted_with_hostname_upgrades(mode: SslMode, can_connect: bool, events: Seq<Event>)
    requires
        should_negotiate(mode, can_connect),
        events.len() >= 4,
        events[0] == Event::Begin(can_connect),
        events[1] == Event::WriteOk,
        events[2] == Event::Response(SSL_ACCEPT),
        events[3] == Event::UpgradeOk,
    ensures
        actions(initial(mode, true), events) == seq![
            Action::SendRequest,
            Action::ReadResponse,
            Action::Upgrade,
            Action::FinishTls,
        ],
{
    lemma_request_written(mode, true, can_connect, events);
    let h2 = Handshake { mode, has_hostname: true, phase: Phase::AwaitResponse };
    let rest = events.drop_first().drop_first();
    assert(rest[0] == events[2]);
    lemma_step(h2, rest);
    let h3 = next(h2, rest[0]).0;
    assert(rest.drop_first()[0] == events[3]);
    lemma_step(h3, rest.drop_first());
    lemma_done_is_silent(next(h3, events[3]).0, rest.drop_first().drop_first());
    assert(actions(initial(mode, true), events) =~= seq![
        Action::SendRequest,
        Action::ReadResponse,
        Action::Upgrade,
        Action::FinishTls,
    ]);
}

/// In any mode, a failed write of the request ends the negotiation with an
/// I/O error; nothing is read and the connector is never invoked.
pub proof fn write_failure_is_io_error(mode: SslMode, has_hostname: bool, can_connect: bool, events: Seq<Event>)
    requires
        should_negotiate(mode, can_connect),
        events.len() >= 2,
        events[0] == Event::Begin(can_connect),
        events[1] == Event::WriteFailed,
    ensures
        actions(initial(mode, has_hostname), events) == seq![
            Action::SendRequest,
            Action::Fail(Error::Io),
        ],
{
    let h0 = initial(mode, has_hostname);
    let h1 = next(h0, events[0]).0;
    lemma_step(h0, events);
    assert(events.drop_first()[0] == events[1]);
    lemma_step(h1, events.drop_first());
    lemma_done_is_silent(next(h1, events[1]).0, events.drop_first().drop_first());
    assert(actions(h0, events) =~= seq![Action::SendRequest, Action::Fail(Error::Io)]);
}

/// Past its start, a negotiation never sends the request again.
proof fn lemma_no_request_after_start(h: Handshake, events: Seq<Event>)
    requires
        h.phase != Phase::Start,
    ensures
        forall|i: int| 0 <= i < actions(h, events).len() ==> actions(h, events)[i] != Action::SendRequest,
    decreases events.len(),
{
    if events.len() > 0 && expects(h, events[0]) {
        lemma_no_request_after_start(next(h, events[0]).0, events.drop_first());
    }
}

/// Once the byte is being read, or later, no further byte is read.
proof fn lemma_no_read_after_write(h: Handshake, events: Seq<Event>)
    requires
        h.phase != Phase::Start,
        h.phase != Phase::AwaitWrite,
    ensures
        forall|i: int| 0 <= i < actions(h, events).len() ==> actions(h, events)[i] != Action::ReadResponse,
    decreases events.len(),
{
    if events.len() > 0 && expects(h, events[0]) {
        lemma_no_read_after_write(next(h, events[0]).0, events.drop_first());
    }
}

/// The handshake is single-use: whatever the driver reports, the request is
/// sent at most once and at most one answer byte is read.
pub proof fn request_and_answer_at_most_once(h: Handshake, events: Seq<Event>)
    ensures
        forall|i: int, j: int|
            0 <= i < actions(h, events).len() && 0 <= j < actions(h, events).len()
                && actions(h, events)[i] == Action::SendRequest
                && actions(h, events)[j] == Action::SendRequest ==> i == j,
        forall|i: int, j: int|
            0 <= i < actions(h, events).len() && 0 <= j < actions(h, events).len()
                && actions(h, events)[i] == Action::ReadResponse
                && actions(h, events)[j] == Action::ReadResponse ==> i == j,
    decreases events.len(),
{
    if events.len() > 0 && expects(h, events[0]) {
        let (h1, a) = next(h, events[0]);
        let rest = events.drop_first();
        request_and_answer_at_most_once(h1, rest);
        lemma_no_request_after_start(h1, rest);
        if a == Action::ReadResponse {
            lemma_no_read_after_write(h1, rest);
        }
        let acts = actions(h, events);
        assert(acts == seq![a] + actions(h1, rest));
        assert forall|i: int| 1 <= i < acts.len() implies acts[i] == actions(h1, rest)[i - 1] by {}
    }
}

} // verus!
