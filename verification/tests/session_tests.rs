use pod_server::ack_nack::AckNack;
use pod_server::can_bus::{CanBusState, CanOutbound};
use pod_server::can_command::CanCommand;
use pod_server::messages::{CanMessage, Errno, Ipv4Address, SocketAddress, TcpMessage, UDPMessage};
use pod_server::pod_data::{Aggregator, PodData};
use pod_server::pod_state::PodState;
use pod_server::pod_state::PodState::{
    Armed, AutoPilot, Braking, EmergencyBrake, LowVoltage, Startup, SystemFailure,
};
use pod_server::session::{SessionState, UdpSession};
use pod_server::tcp::{
    apply_tcp_message, handle_tcp_request, initialize_request_parser, RequestParser,
    RequestParserResult, RequestTypes, TcpReply,
};

fn operator() -> SocketAddress {
    SocketAddress::new(Ipv4Address::new(10, 0, 0, 5), 40123)
}

fn connected_session() -> UdpSession {
    let mut s = UdpSession::new(10);
    s.handle_message(UDPMessage::StartupComplete);
    s.handle_message(UDPMessage::ConnectToHost(SocketAddress::new(
        Ipv4Address::new(10, 0, 0, 5),
        8888,
    )));
    assert_eq!(s.session_state, SessionState::Connected);
    s
}

#[test]
fn clean_handshake_first_message() {
    // Startup completes, the operator connects over TCP, and the first
    // outbound UDP message reports an idle LowVoltage pod.
    let mut tcp_state = SessionState::Startup;
    let mut session = UdpSession::new(10);

    session.handle_message(UDPMessage::StartupComplete);
    tcp_state = apply_tcp_message(tcp_state, TcpMessage::RecoveryComplete);
    assert_eq!(tcp_state, SessionState::Disconnected);

    let decision = handle_tcp_request(tcp_state, RequestTypes::Connect, operator());
    assert_eq!(decision.new_state, SessionState::Connected);
    assert_eq!(decision.reply, Some(TcpReply::PortOpen));
    assert_eq!(decision.reply.unwrap().text(), "OK 8888");
    let expected_peer = SocketAddress::new(Ipv4Address::new(10, 0, 0, 5), 8888);
    assert_eq!(decision.to_udp, Some(UDPMessage::ConnectToHost(expected_peer)));

    session.handle_message(decision.to_udp.unwrap());
    assert_eq!(session.session_state, SessionState::Connected);
    assert_eq!(session.remote, Some(expected_peer));

    let msg = session.next_outbound();
    assert_eq!(msg.current_state, PodState::LowVoltage);
    assert_eq!(msg.next_state, PodState::LowVoltage);
    assert_eq!(msg.errno, Errno::NoError);
    assert!(!msg.recovery);
    assert_eq!(msg.telemetry, None);
}

#[test]
fn valid_transition_with_bms_ack() {
    // LowVoltage -> Armed is legal: the session commands the CAN task,
    // the BMS acks, and the next message reports Armed/Armed.
    let mut session = connected_session();
    let mut bus = CanBusState::new();

    let cmd = session.handle_desktop_message(PodState::Armed, 0);
    assert_eq!(cmd, Some(CanMessage::ChangeState(PodState::Armed)));
    assert_eq!(session.current_pod_state, PodState::LowVoltage);
    assert_eq!(session.next_pod_state, PodState::Armed);

    bus.handle_change_state(cmd.unwrap());
    assert_eq!(bus.requested_pod_state, PodState::Armed);
    match bus.select_outbound() {
        CanOutbound::Announce(s) => assert_eq!(s, PodState::Armed),
        other => panic!("expected an announcement, got {:?}", other),
    }

    let fwd = bus.handle_decoded_frame(&CanCommand::BmsStateChange(AckNack::Ack));
    assert_eq!(bus.bms_state, PodState::Armed);
    assert_eq!(fwd, Some(UDPMessage::PodStateChanged(PodState::Armed)));

    session.handle_message(fwd.unwrap());
    let msg = session.next_outbound();
    assert_eq!(msg.current_state, PodState::Armed);
    assert_eq!(msg.next_state, PodState::Armed);
    assert_eq!(msg.errno, Errno::NoError);
    assert!(!msg.recovery);
}

#[test]
fn invalid_transition_forces_recovery() {
    // AutoPilot is not adjacent to LowVoltage: errno 2, recovery true.
    let mut session = connected_session();
    let cmd = session.handle_desktop_message(PodState::AutoPilot, 0);
    assert_eq!(cmd, None);
    let msg = session.next_outbound();
    assert_eq!(msg.errno.to_byte(), 2);
    assert!(msg.recovery);
    assert_eq!(session.session_state, SessionState::Recovery);
}

#[test]
fn heartbeats_and_inflight_requests() {
    let mut session = connected_session();
    // Repeating the current state while idle is a heartbeat.
    assert_eq!(session.handle_desktop_message(PodState::LowVoltage, 1), None);
    assert_eq!(session.session_state, SessionState::Connected);
    // Repeating the pending target during a transition is a heartbeat.
    let cmd = session.handle_desktop_message(PodState::Armed, 2);
    assert_eq!(cmd, Some(CanMessage::ChangeState(PodState::Armed)));
    assert_eq!(session.handle_desktop_message(PodState::Armed, 3), None);
    assert_eq!(session.session_state, SessionState::Connected);
    // A third target while one is in flight is invalid.
    let cmd = session.handle_desktop_message(PodState::EmergencyBrake, 4);
    assert_eq!(cmd, None);
    assert_eq!(session.session_state, SessionState::Recovery);
    assert_eq!(session.errno, Errno::InvalidTransitionRequest);
}

#[test]
fn operator_silence_forces_recovery_with_errno_3() {
    // Ten consecutive read timeouts put the session in recovery with
    // ControllerTimeout before the next outbound message.
    let mut session = connected_session();
    for i in 0..10 {
        assert_eq!(
            session.session_state,
            SessionState::Connected,
            "after {} timeouts",
            i
        );
        session.handle_timeout();
    }
    assert_eq!(session.session_state, SessionState::Recovery);
    let msg = session.next_outbound();
    assert!(msg.recovery);
    assert_eq!(msg.errno.to_byte(), 3);
    // The CAN task keeps announcing the requested state regardless.
    let bus = CanBusState::new();
    assert_eq!(
        bus.select_outbound(),
        CanOutbound::Announce(PodState::LowVoltage)
    );
    // A successful receive before the budget runs out resets the count.
    let mut fresh = connected_session();
    for _ in 0..9 {
        fresh.handle_timeout();
    }
    fresh.handle_desktop_message(PodState::LowVoltage, 0);
    assert_eq!(fresh.timeout_counter, 0);
    assert_eq!(fresh.session_state, SessionState::Connected);
}

#[test]
fn telemetry_suppression_until_newer_snapshot() {
    let mut session = connected_session();
    let mut agg = Aggregator::new();

    // First snapshot at t1 = 100.
    let push = agg.ingest(&CanCommand::PressureHigh(7), 100).unwrap();
    session.handle_message(push);
    let msg = session.next_outbound();
    assert!(msg.telemetry.is_some());
    assert_eq!(msg.telemetry_timestamp, 100);

    // The operator echoes t1: the next message omits the telemetry.
    session.handle_desktop_message(PodState::LowVoltage, 100);
    let msg = session.next_outbound();
    assert_eq!(msg.telemetry, None);
    assert_eq!(msg.telemetry_timestamp, 100);

    // A newer snapshot at t2 > t1 rides along again.
    let push = agg.ingest(&CanCommand::PressureLow1(9), 160).unwrap();
    session.handle_message(push);
    let msg = session.next_outbound();
    let snap = msg.telemetry.expect("newer telemetry should be attached");
    assert_eq!(snap.pressure_high, Some(7));
    assert_eq!(snap.pressure_low_1, Some(9));
    assert_eq!(msg.telemetry_timestamp, 160);
}

#[test]
fn autopilot_handoff_emits_throttle() {
    let mut bus = CanBusState::new();
    bus.handle_change_state(CanMessage::ChangeState(PodState::AutoPilot));
    assert_eq!(
        bus.select_outbound(),
        CanOutbound::Announce(PodState::AutoPilot)
    );
    assert!(bus.announcement_frame().is_some());
    // Once the BMS also reports AutoPilot, the throttle frame wins.
    bus.handle_decoded_frame(&CanCommand::BmsStateChange(AckNack::Ack));
    assert_eq!(bus.bms_state, PodState::AutoPilot);
    assert_eq!(bus.select_outbound(), CanOutbound::Throttle);
    assert!(bus.announcement_frame().is_none());
    // Either variable changing ends the handoff.
    bus.handle_change_state(CanMessage::ChangeState(PodState::Braking));
    assert_eq!(
        bus.select_outbound(),
        CanOutbound::Announce(PodState::Braking)
    );
}

#[test]
fn nack_reports_refusal_and_recovery() {
    let mut session = connected_session();
    let mut bus = CanBusState::new();
    let cmd = session.handle_desktop_message(PodState::Armed, 0).unwrap();
    bus.handle_change_state(cmd);
    let fwd = bus.handle_decoded_frame(&CanCommand::BmsStateChange(AckNack::Nack));
    assert_eq!(fwd, Some(UDPMessage::StateChangeNacked));
    session.handle_message(fwd.unwrap());
    assert_eq!(session.session_state, SessionState::Recovery);
    assert_eq!(session.errno, Errno::InvalidTransitionRequest);
    assert_eq!(session.next_pod_state, session.current_pod_state);
    // An absent acknowledgement byte is no acknowledgement at all.
    let mut bus2 = CanBusState::new();
    assert_eq!(
        bus2.handle_decoded_frame(&CanCommand::BmsStateChange(AckNack::Unknown)),
        None
    );
    assert_eq!(bus2.bms_state, PodState::LowVoltage);
}

#[test]
fn recovery_is_sticky_for_the_session() {
    let mut session = connected_session();
    session.handle_message(UDPMessage::DisconnectFromHost);
    assert_eq!(session.session_state, SessionState::Recovery);
    // No later event reconnects the same session.
    session.handle_message(UDPMessage::ConnectToHost(operator()));
    assert_eq!(session.session_state, SessionState::Recovery);
    session.handle_desktop_message(PodState::Armed, 0);
    assert_eq!(session.session_state, SessionState::Recovery);
    session.handle_timeout();
    assert_eq!(session.session_state, SessionState::Recovery);
    session.handle_message(UDPMessage::StartupComplete);
    assert_eq!(session.session_state, SessionState::Recovery);
}

#[test]
fn pod_fault_forces_recovery_with_errno_1() {
    let mut session = connected_session();
    session.handle_message(UDPMessage::PodStateChanged(PodState::EmergencyBrake));
    assert_eq!(session.session_state, SessionState::Recovery);
    assert_eq!(session.errno, Errno::GeneralPodFailure);
    assert_eq!(session.errno.to_byte(), 1);
    assert_eq!(session.current_pod_state, PodState::EmergencyBrake);
    assert_eq!(session.next_pod_state, PodState::EmergencyBrake);
}

#[test]
fn transition_graph_matches_the_devices() {
    let legal = [
        (Startup, LowVoltage),
        (LowVoltage, Armed),
        (Armed, AutoPilot),
        (Armed, LowVoltage),
        (AutoPilot, Braking),
        (Braking, LowVoltage),
        (LowVoltage, EmergencyBrake),
        (AutoPilot, EmergencyBrake),
    ];
    for (c, n) in legal {
        assert!(c.can_transition_to(&n), "{:?} -> {:?} should be legal", c, n);
    }
    let illegal = [
        (LowVoltage, AutoPilot),
        (LowVoltage, LowVoltage),
        (EmergencyBrake, LowVoltage),
        (SystemFailure, EmergencyBrake),
        (Armed, SystemFailure),
        (Braking, Armed),
    ];
    for (c, n) in illegal {
        assert!(!c.can_transition_to(&n), "{:?} -> {:?} should be illegal", c, n);
    }
    assert!(EmergencyBrake.is_error_state());
    assert!(SystemFailure.is_error_state());
    assert!(!Armed.is_error_state());
}

#[test]
fn tcp_handshake_table() {
    let peer = operator();
    // CONNECT while connected is refused.
    let d = handle_tcp_request(SessionState::Connected, RequestTypes::Connect, peer);
    assert_eq!(d.new_state, SessionState::Connected);
    assert_eq!(d.reply, Some(TcpReply::AlreadyConnected));
    assert_eq!(
        d.reply.unwrap().text(),
        "ERROR POD Already Connected to Controller"
    );
    assert_eq!(d.to_udp, None);
    // CONNECT while recovering is refused with the recovery text.
    let d = handle_tcp_request(SessionState::Recovery, RequestTypes::Connect, peer);
    assert_eq!(d.new_state, SessionState::Recovery);
    assert_eq!(
        d.reply.unwrap().text(),
        "ERROR Unable to Connect to Pod while recovering. Please Wait for recovery to finish"
    );
    // DISCONNECT while connected begins recovery.
    let d = handle_tcp_request(SessionState::Connected, RequestTypes::Disconnect, peer);
    assert_eq!(d.new_state, SessionState::Recovery);
    assert_eq!(d.reply.unwrap().text(), "DISCONNECTED");
    assert_eq!(d.to_udp, Some(UDPMessage::DisconnectFromHost));
    // DISCONNECT elsewhere is idempotent.
    let d = handle_tcp_request(SessionState::Disconnected, RequestTypes::Disconnect, peer);
    assert_eq!(d.new_state, SessionState::Disconnected);
    assert_eq!(d.reply, Some(TcpReply::Disconnected));
    assert_eq!(d.to_udp, None);
    // A malformed request gets no reply.
    let d = handle_tcp_request(SessionState::Connected, RequestTypes::Unknown, peer);
    assert_eq!(d.reply, None);
    assert_eq!(d.to_udp, None);
    // The acceptor's inbox.
    assert_eq!(
        apply_tcp_message(SessionState::Connected, TcpMessage::EnteringRecovery),
        SessionState::Recovery
    );
    assert_eq!(
        apply_tcp_message(SessionState::Recovery, TcpMessage::RecoveryComplete),
        SessionState::Disconnected
    );
}

#[test]
fn request_parser_matches_registered_tokens() {
    let mut parser: RequestParser<RequestTypes> = RequestParser::new();
    initialize_request_parser(&mut parser);
    assert_eq!(
        parser.strip_line_and_get_value(b"CONNECT\r\n"),
        RequestParserResult::Success(RequestTypes::Connect)
    );
    assert_eq!(
        parser.strip_line_and_get_value(b"DISCONNECT\r\nextra bytes"),
        RequestParserResult::Success(RequestTypes::Disconnect)
    );
    assert_eq!(
        parser.strip_line_and_get_value(b"@@Failed@@\r\n"),
        RequestParserResult::Success(RequestTypes::Unknown)
    );
    assert_eq!(
        parser.strip_line_and_get_value(b"CONNECT"),
        RequestParserResult::InvalidRequest
    );
    assert_eq!(
        parser.strip_line_and_get_value(b"HELLO\r\n"),
        RequestParserResult::InvalidRequest
    );
}

#[test]
fn aggregator_routes_fields_and_flags_new_data() {
    let mut agg = Aggregator::new();
    assert_eq!(agg.pod_data, PodData::new());
    // Health checks update diagnostics but are not new telemetry.
    let push = agg.ingest(
        &CanCommand::BmsHealthCheck {
            battery_pack_current: 11,
            cell_temperature: 22,
        },
        5,
    );
    assert_eq!(push, None);
    assert_eq!(agg.pod_data.battery_pack_current, Some(11));
    assert_eq!(agg.pod_data.cell_temperature, Some(22));
    // Fault reports and acks are not new telemetry either.
    assert_eq!(
        agg.ingest(&CanCommand::BmsStateChange(AckNack::Ack), 6),
        None
    );
    // Sensor data is pushed with its timestamp.
    let push = agg.ingest(
        &CanCommand::MotorControllerData2 {
            battery_current: 1,
            battery_voltage: 2,
        },
        7,
    );
    match push {
        Some(UDPMessage::TelemetryDataAvailable(snap, ts)) => {
            assert_eq!(ts, 7);
            assert_eq!(snap.battery_current, Some(1));
            assert_eq!(snap.battery_voltage, Some(2));
            assert_eq!(snap.battery_pack_current, Some(11));
        }
        other => panic!("expected a telemetry push, got {:?}", other),
    }
    // Torchic frames fill both readings of their board.
    agg.ingest(&CanCommand::Torchic2 { temp_1: 8, temp_2: 9 }, 8);
    assert_eq!(agg.pod_data.torchic_2.temp_1, Some(8));
    assert_eq!(agg.pod_data.torchic_2.temp_2, Some(9));
    assert_eq!(agg.pod_data.torchic_1.temp_1, None);
    // Unknown frames change nothing.
    let before = agg.pod_data;
    assert_eq!(agg.ingest(&CanCommand::Unknown(0x300), 9), None);
    assert_eq!(agg.pod_data, before);
}

#[test]
fn startup_complete_only_advances_from_startup() {
    let mut session = UdpSession::new(10);
    assert_eq!(session.session_state, SessionState::Startup);
    session.handle_message(UDPMessage::StartupComplete);
    assert_eq!(session.session_state, SessionState::Disconnected);
    // A second StartupComplete changes nothing.
    let mut connected = connected_session();
    connected.handle_message(UDPMessage::StartupComplete);
    assert_eq!(connected.session_state, SessionState::Connected);
}

#[test]
fn connect_is_ignored_outside_disconnected() {
    let mut session = UdpSession::new(10);
    // Still in Startup: the bind is ignored.
    session.handle_message(UDPMessage::ConnectToHost(operator()));
    assert_eq!(session.session_state, SessionState::Startup);
    assert_eq!(session.remote, None);
    // Connected: a second bind is ignored too.
    let mut connected = connected_session();
    let first_peer = connected.remote;
    connected.handle_message(UDPMessage::ConnectToHost(operator()));
    assert_eq!(connected.remote, first_peer);
}
