//! Scenario tests driving the session runner through whole
//! command/outcome cycles.

use vaux_runner::command::{Command, ConnectOutcome, Error, PublishPacket, StopOutcome};
use vaux_runner::packet::{Packet, QosLevel};
use vaux_runner::runner::{Action, ConnState, Runner};
use vaux_runner::settings::{ClientSetting, TransportDescriptor};

fn transport(host: &str, port: u16) -> TransportDescriptor {
    TransportDescriptor {
        host: host.to_string(),
        port,
        with_tls: false,
        with_credentials: false,
        username: String::new(),
        password: String::new(),
    }
}

fn connect(runner: &mut Runner) {
    let mut settings = ClientSetting::new();
    settings.host = "localhost".to_string();
    settings.port = 1883;
    let action = runner.process(Command::StartClient(settings));
    assert!(matches!(action, Action::Connect(_)));
    let action = runner.on_connect_outcome(ConnectOutcome::Connected);
    assert!(matches!(action, Action::DoNothing));
}

#[test]
fn start_client_within_deadline_then_ping() {
    let mut runner = Runner::new();
    assert_eq!(runner.conn_state(), ConnState::NoClient);

    let mut settings = ClientSetting::new();
    settings.host = "localhost".to_string();
    settings.port = 1883;
    let action = runner.process(Command::StartClient(settings));
    match action {
        Action::Connect(s) => {
            assert_eq!(s.host, "localhost");
            assert_eq!(s.port, 1883);
        }
        _ => panic!("expected a connect action"),
    }
    assert_eq!(runner.conn_state(), ConnState::Connecting);

    let action = runner.on_connect_outcome(ConnectOutcome::Connected);
    assert!(matches!(action, Action::DoNothing));
    assert_eq!(runner.conn_state(), ConnState::Connected);

    let action = runner.process(Command::Ping);
    assert!(matches!(action, Action::SendPing));
    assert_eq!(runner.conn_state(), ConnState::Connected);
}

#[test]
fn connect_deadline_exceeded_reports_and_stays_no_client() {
    let mut runner = Runner::new();
    let action = runner.process(Command::StartClient(ClientSetting::new()));
    assert!(matches!(action, Action::Connect(_)));

    let action = runner.on_connect_outcome(ConnectOutcome::TimedOut);
    assert!(matches!(action, Action::Report(Error::ConnectTimeout)));
    assert_eq!(runner.conn_state(), ConnState::NoClient);
}

#[test]
fn handshake_rejection_reports_and_stays_no_client() {
    let mut runner = Runner::new();
    let _ = runner.process(Command::StartClient(ClientSetting::new()));
    let action = runner.on_connect_outcome(ConnectOutcome::Rejected);
    assert!(matches!(action, Action::Report(Error::ConnectRejected)));
    assert_eq!(runner.conn_state(), ConnState::NoClient);
}

#[test]
fn stop_captures_session_and_resume_reuses_it() {
    let mut runner = Runner::new();
    connect(&mut runner);

    let action = runner.process(Command::StopClient);
    assert!(matches!(action, Action::StopAndJoin));
    assert_eq!(runner.conn_state(), ConnState::Disconnecting);

    let action = runner.on_stop_outcome(StopOutcome::SessionCaptured);
    assert!(matches!(action, Action::DoNothing));
    assert_eq!(runner.conn_state(), ConnState::NoClient);
    assert!(runner.session_available());

    // Resuming needs only the transport descriptor, not the original
    // settings snapshot.
    let action = runner.process(Command::ResumeSession(transport("localhost", 1883)));
    match action {
        Action::Resume(t) => {
            assert_eq!(t.host, "localhost");
            assert_eq!(t.port, 1883);
        }
        _ => panic!("expected a resume action"),
    }
    assert!(!runner.session_available());
    assert_eq!(runner.conn_state(), ConnState::Connecting);

    let action = runner.on_connect_outcome(ConnectOutcome::Connected);
    assert!(matches!(action, Action::DoNothing));
    assert_eq!(runner.conn_state(), ConnState::Connected);
}

#[test]
fn resume_without_session_is_rejected_unchanged() {
    let mut runner = Runner::new();
    assert!(!runner.session_available());
    let action = runner.process(Command::ResumeSession(transport("localhost", 1883)));
    assert!(matches!(action, Action::Report(Error::NoSessionToResume)));
    assert_eq!(runner.conn_state(), ConnState::NoClient);
    assert!(!runner.session_available());
    assert!(runner.is_running());
}

#[test]
fn subscribe_issues_exactly_one_request_with_given_id() {
    let mut runner = Runner::new();
    connect(&mut runner);

    let action = runner.process(Command::Subscribe(
        7,
        QosLevel::AtLeastOnce,
        "sensors/#".to_string(),
    ));
    match action {
        Action::SendSubscribe(packet_id, qos, topic) => {
            assert_eq!(packet_id, 7);
            assert_eq!(qos, QosLevel::AtLeastOnce);
            assert_eq!(topic, "sensors/#");
        }
        _ => panic!("expected a subscribe action"),
    }
    assert_eq!(runner.conn_state(), ConnState::Connected);
}

#[test]
fn unsubscribe_carries_id_and_topic() {
    let mut runner = Runner::new();
    connect(&mut runner);
    let action = runner.process(Command::Unsubscribe(9, "sensors/#".to_string()));
    match action {
        Action::SendUnsubscribe(packet_id, topic) => {
            assert_eq!(packet_id, 9);
            assert_eq!(topic, "sensors/#");
        }
        _ => panic!("expected an unsubscribe action"),
    }
}

#[test]
fn publish_hands_packet_to_outbound_path() {
    let mut runner = Runner::new();
    connect(&mut runner);
    let publish = PublishPacket {
        packet_id: Some(3),
        topic: "a/b".to_string(),
        payload: b"hello".to_vec(),
        qos: QosLevel::AtLeastOnce,
        retain: true,
    };
    let action = runner.process(Command::Publish(publish));
    match action {
        Action::SendPublish(p) => {
            assert_eq!(p.packet_id, Some(3));
            assert_eq!(p.topic, "a/b");
            assert_eq!(p.payload, b"hello".to_vec());
            assert_eq!(p.qos, QosLevel::AtLeastOnce);
            assert!(p.retain);
        }
        _ => panic!("expected a publish action"),
    }
}

#[test]
fn requests_while_no_client_are_rejected() {
    let mut runner = Runner::new();
    let action = runner.process(Command::Ping);
    assert!(matches!(action, Action::Report(Error::NotConnected)));
    let action = runner.process(Command::Publish(PublishPacket {
        packet_id: None,
        topic: "a".to_string(),
        payload: Vec::new(),
        qos: QosLevel::AtMostOnce,
        retain: false,
    }));
    assert!(matches!(action, Action::Report(Error::NotConnected)));
    let action = runner.process(Command::Subscribe(1, QosLevel::AtMostOnce, "a".to_string()));
    assert!(matches!(action, Action::Report(Error::NotConnected)));
    let action = runner.process(Command::Unsubscribe(1, "a".to_string()));
    assert!(matches!(action, Action::Report(Error::NotConnected)));
    assert_eq!(runner.conn_state(), ConnState::NoClient);
}

#[test]
fn stop_client_with_no_client_is_noop() {
    let mut runner = Runner::new();
    let action = runner.process(Command::StopClient);
    assert!(matches!(action, Action::NothingToStop));
    assert_eq!(runner.conn_state(), ConnState::NoClient);
    assert!(runner.is_running());
    assert!(!runner.session_available());
}

#[test]
fn start_client_while_active_is_rejected() {
    let mut runner = Runner::new();
    connect(&mut runner);
    let action = runner.process(Command::StartClient(ClientSetting::new()));
    assert!(matches!(action, Action::Report(Error::ClientAlreadyActive)));
    assert_eq!(runner.conn_state(), ConnState::Connected);
}

#[test]
fn start_client_while_connecting_is_rejected() {
    let mut runner = Runner::new();
    let _ = runner.process(Command::StartClient(ClientSetting::new()));
    assert_eq!(runner.conn_state(), ConnState::Connecting);
    let action = runner.process(Command::StartClient(ClientSetting::new()));
    assert!(matches!(action, Action::Report(Error::ClientAlreadyActive)));
    assert_eq!(runner.conn_state(), ConnState::Connecting);
}

#[test]
fn stop_client_while_connecting_cancels() {
    let mut runner = Runner::new();
    let _ = runner.process(Command::StartClient(ClientSetting::new()));
    let action = runner.process(Command::StopClient);
    assert!(matches!(action, Action::CancelConnect));
    assert_eq!(runner.conn_state(), ConnState::NoClient);
}

#[test]
fn packets_forwarded_in_arrival_order() {
    let mut runner = Runner::new();
    connect(&mut runner);

    let inbound = [
        Packet::ConnAck,
        Packet::SubAck(7),
        Packet::Publish(Some(12)),
        Packet::PingResponse,
    ];
    let mut observed = Vec::new();
    for p in inbound {
        match runner.on_packet(p) {
            Action::Forward(q) => observed.push(q),
            _ => panic!("expected a forward action"),
        }
    }
    assert_eq!(observed.as_slice(), &inbound);
}

#[test]
fn stop_failure_still_reaches_no_client() {
    let mut runner = Runner::new();
    connect(&mut runner);
    let _ = runner.process(Command::StopClient);
    let action = runner.on_stop_outcome(StopOutcome::Failed);
    assert!(matches!(action, Action::Report(Error::StopFailed)));
    assert_eq!(runner.conn_state(), ConnState::NoClient);
    assert!(!runner.session_available());
}

#[test]
fn packet_source_closing_is_implicit_disconnect() {
    let mut runner = Runner::new();
    connect(&mut runner);
    let action = runner.on_packets_closed();
    assert!(matches!(action, Action::Report(Error::ConnectionSevered)));
    assert_eq!(runner.conn_state(), ConnState::NoClient);
}

#[test]
fn intent_queue_closed_drains_packets_before_full_stop() {
    let mut runner = Runner::new();
    connect(&mut runner);

    // The intent queue closes while connected: shutdown begins, the
    // live client is torn down rather than abandoned.
    let action = runner.on_commands_closed();
    assert!(matches!(action, Action::StopAndJoin));
    assert!(!runner.is_running());
    assert_eq!(runner.conn_state(), ConnState::Disconnecting);
    assert!(!runner.finished());

    // Packets already queued on the source are still forwarded while
    // the stop is in flight.
    let action = runner.on_packet(Packet::Publish(Some(2)));
    assert!(matches!(action, Action::Forward(Packet::Publish(Some(2)))));
    let action = runner.on_packet(Packet::Disconnect);
    assert!(matches!(action, Action::Forward(Packet::Disconnect)));

    let action = runner.on_stop_outcome(StopOutcome::SessionCaptured);
    assert!(matches!(action, Action::DoNothing));
    assert!(runner.finished());
}

#[test]
fn stop_runner_tears_down_live_client() {
    let mut runner = Runner::new();
    connect(&mut runner);
    let action = runner.process(Command::StopRunner);
    assert!(matches!(action, Action::StopAndJoin));
    assert!(!runner.is_running());
    assert_eq!(runner.conn_state(), ConnState::Disconnecting);
    let action = runner.on_stop_outcome(StopOutcome::Failed);
    assert!(matches!(action, Action::Report(Error::StopFailed)));
    assert!(runner.finished());
}

#[test]
fn stop_runner_while_idle_finishes_at_once() {
    let mut runner = Runner::new();
    let action = runner.process(Command::StopRunner);
    assert!(matches!(action, Action::DoNothing));
    assert!(runner.finished());
}

#[test]
fn source_installed_tracks_lifecycle() {
    let mut runner = Runner::new();
    assert!(!runner.source_installed());
    connect(&mut runner);
    assert!(runner.source_installed());
    let _ = runner.process(Command::StopClient);
    assert!(runner.source_installed());
    let _ = runner.on_stop_outcome(StopOutcome::Failed);
    assert!(!runner.source_installed());
}

#[test]
fn failed_request_is_reported_and_leaves_connected() {
    let mut runner = Runner::new();
    connect(&mut runner);
    let action = runner.on_request_outcome(false);
    assert!(matches!(action, Action::Report(Error::RequestFailed)));
    assert_eq!(runner.conn_state(), ConnState::Connected);
    let action = runner.on_request_outcome(true);
    assert!(matches!(action, Action::DoNothing));
    assert_eq!(runner.conn_state(), ConnState::Connected);
}
