use connect_tls::{
    evaluate_policy, interpret_response, ssl_request, Action, Error, Event, Handshake, Phase,
    Policy, SslMode, TlsFailure, Verdict, SSL_ACCEPT,
};

/// Feeds the events in order, as a driver would, and collects the actions;
/// stops at the first event the machine does not expect.
fn run(mode: SslMode, has_hostname: bool, events: &[Event]) -> Vec<Action> {
    let mut h = Handshake::new(mode, has_hostname);
    let mut out = Vec::new();
    for e in events {
        if !h.accepts(*e) {
            break;
        }
        out.push(h.step(*e));
    }
    out
}

#[test]
fn request_frame_bytes() {
    assert_eq!(ssl_request(), vec![0u8, 0, 0, 8, 0x04, 0xd2, 0x16, 0x2f]);
    let code = u32::from_be_bytes([0x04, 0xd2, 0x16, 0x2f]);
    assert_eq!(code, 80877103);
}

#[test]
fn accept_byte_is_s() {
    assert_eq!(SSL_ACCEPT, b'S');
}

#[test]
fn disable_never_sends_request() {
    for can in [false, true] {
        for host in [false, true] {
            let acts = run(
                SslMode::Disable,
                host,
                &[Event::Begin(can), Event::WriteOk, Event::Response(b'S'), Event::UpgradeOk],
            );
            assert_eq!(acts, vec![Action::FinishRaw]);
        }
    }
}

#[test]
fn prefer_infeasible_is_raw_without_request() {
    let acts = run(SslMode::Prefer, true, &[Event::Begin(false), Event::WriteOk]);
    assert_eq!(acts, vec![Action::FinishRaw]);
}

#[test]
fn prefer_declined_is_raw_not_error() {
    for b in [b'N', b'E', 0u8, 255u8] {
        let acts = run(
            SslMode::Prefer,
            true,
            &[Event::Begin(true), Event::WriteOk, Event::Response(b), Event::UpgradeOk],
        );
        assert_eq!(acts, vec![Action::SendRequest, Action::ReadResponse, Action::FinishRaw]);
    }
}

#[test]
fn require_declined_is_tls_error() {
    for can in [false, true] {
        let acts = run(
            SslMode::Require,
            true,
            &[Event::Begin(can), Event::WriteOk, Event::Response(b'N'), Event::UpgradeOk],
        );
        assert_eq!(
            acts,
            vec![
                Action::SendRequest,
                Action::ReadResponse,
                Action::Fail(Error::Tls(TlsFailure::ServerDeclined)),
            ]
        );
    }
}

#[test]
fn accepted_without_hostname_fails_before_upgrade() {
    for mode in [SslMode::Prefer, SslMode::Require] {
        let acts = run(
            mode,
            false,
            &[Event::Begin(true), Event::WriteOk, Event::Response(b'S'), Event::UpgradeOk],
        );
        assert_eq!(
            acts,
            vec![
                Action::SendRequest,
                Action::ReadResponse,
                Action::Fail(Error::Tls(TlsFailure::NoHostname)),
            ]
        );
        assert!(!acts.contains(&Action::Upgrade));
    }
}

#[test]
fn accepted_with_hostname_upgrades_to_tls() {
    for mode in [SslMode::Prefer, SslMode::Require] {
        let acts = run(
            mode,
            true,
            &[Event::Begin(true), Event::WriteOk, Event::Response(b'S'), Event::UpgradeOk],
        );
        assert_eq!(
            acts,
            vec![Action::SendRequest, Action::ReadResponse, Action::Upgrade, Action::FinishTls]
        );
    }
}

#[test]
fn connector_failure_is_tls_error() {
    let acts = run(
        SslMode::Require,
        true,
        &[Event::Begin(true), Event::WriteOk, Event::Response(b'S'), Event::UpgradeFailed],
    );
    assert_eq!(acts.last(), Some(&Action::Fail(Error::Tls(TlsFailure::Handshake))));
}

#[test]
fn write_failure_is_io_error() {
    for mode in [SslMode::Prefer, SslMode::Require] {
        let acts = run(mode, true, &[Event::Begin(true), Event::WriteFailed, Event::UpgradeOk]);
        assert_eq!(acts, vec![Action::SendRequest, Action::Fail(Error::Io)]);
    }
}

#[test]
fn read_failure_is_io_error() {
    let acts = run(
        SslMode::Prefer,
        true,
        &[Event::Begin(true), Event::WriteOk, Event::ReadFailed, Event::UpgradeOk],
    );
    assert_eq!(acts, vec![Action::SendRequest, Action::ReadResponse, Action::Fail(Error::Io)]);
}

#[test]
fn one_request_and_one_byte_per_handshake() {
    let acts = run(
        SslMode::Prefer,
        true,
        &[
            Event::Begin(true),
            Event::WriteOk,
            Event::Response(b'N'),
            Event::Begin(true),
            Event::WriteOk,
            Event::Response(b'S'),
        ],
    );
    assert_eq!(acts.iter().filter(|a| **a == Action::SendRequest).count(), 1);
    assert_eq!(acts.iter().filter(|a| **a == Action::ReadResponse).count(), 1);
}

#[test]
fn machine_refuses_events_out_of_phase() {
    let mut h = Handshake::new(SslMode::Require, true);
    assert_eq!(h.phase, Phase::Start);
    assert!(!h.accepts(Event::WriteOk));
    assert!(h.accepts(Event::Begin(false)));
    assert_eq!(h.step(Event::Begin(false)), Action::SendRequest);
    assert_eq!(h.phase, Phase::AwaitWrite);
    assert!(!h.accepts(Event::Response(b'S')));
    assert!(!h.is_done());
    assert_eq!(h.step(Event::WriteFailed), Action::Fail(Error::Io));
    assert!(h.is_done());
    assert!(!h.accepts(Event::Begin(true)));
}

#[test]
fn policy_table() {
    assert_eq!(evaluate_policy(SslMode::Disable, true), Policy::Skip);
    assert_eq!(evaluate_policy(SslMode::Disable, false), Policy::Skip);
    assert_eq!(evaluate_policy(SslMode::Prefer, true), Policy::Negotiate);
    assert_eq!(evaluate_policy(SslMode::Prefer, false), Policy::Skip);
    assert_eq!(evaluate_policy(SslMode::Require, true), Policy::Negotiate);
    assert_eq!(evaluate_policy(SslMode::Require, false), Policy::Negotiate);
}

#[test]
fn response_table() {
    assert_eq!(interpret_response(SslMode::Prefer, b'N', false), Verdict::KeepRaw);
    assert_eq!(
        interpret_response(SslMode::Require, b'N', true),
        Verdict::Reject(Error::Tls(TlsFailure::ServerDeclined))
    );
    assert_eq!(
        interpret_response(SslMode::Prefer, b'S', false),
        Verdict::Reject(Error::Tls(TlsFailure::NoHostname))
    );
    assert_eq!(interpret_response(SslMode::Require, b'S', true), Verdict::Upgrade);
    assert_eq!(interpret_response(SslMode::Prefer, b's', true), Verdict::KeepRaw);
}

#[test]
fn failure_messages() {
    assert_eq!(TlsFailure::ServerDeclined.message(), "server does not support TLS");
    assert_eq!(TlsFailure::NoHostname.message(), "no hostname provided for TLS handshake");
    assert_eq!(TlsFailure::Handshake.message(), "TLS handshake failed");
}
