use mx100qp::config::{ChannelConfig, MultiOn, PowerSupplyConfig};
use mx100qp::dispatch::PowerSupplyAction;
use mx100qp::error::OpenError;
use mx100qp::state::VoltageTracking;
use mx100qp::status;
use mx100qp::supervisor::{Phase, Supervisor, SupervisorEffect, SupervisorEvent};

fn channel(name: &str) -> ChannelConfig {
    ChannelConfig {
        name: name.to_string(),
        voltage_mv: 3_300,
        current_ma: 500,
        multi_on: MultiOn { enabled: true, delay_ms: 0 },
        vrange: 1,
        auto_vrange: true,
        overvoltage_trip_mv: None,
        overcurrent_trip_ma: None,
    }
}

fn config() -> PowerSupplyConfig {
    PowerSupplyConfig {
        vid: 0x103E,
        pid: 0x0424,
        serial_number: Some(b"SER123".to_vec()),
        id: b"SER123".to_vec(),
        name: "Bench supply".to_string(),
        channels: vec![channel("A"), channel("B"), channel("C"), channel("D")],
        voltage_tracking: 0,
    }
}

/// Response lines for one channel of a pass, with the given status byte.
fn channel_lines(ch: u8, status: &str) -> Vec<Vec<u8>> {
    let d = (b'1' + ch) as char;
    vec![
        status.as_bytes().to_vec(),
        b"1".to_vec(),
        b"2".to_vec(),
        format!("OVP{} OFF", d).into_bytes(),
        format!("OCP{} OFF", d).into_bytes(),
        b"3.300V".to_vec(),
        format!("V{} 3.300", d).into_bytes(),
        b"0.250A".to_vec(),
        format!("I{} 0.500", d).into_bytes(),
    ]
}

fn poll_event(status: &str) -> SupervisorEvent {
    SupervisorEvent::PollResponses(
        b"0".to_vec(),
        vec![
            channel_lines(0, status),
            channel_lines(1, status),
            channel_lines(2, status),
            channel_lines(3, status),
        ],
    )
}

/// Drive a fresh supervisor to the ready state.
fn connected_supervisor() -> Supervisor {
    let mut s = Supervisor::new(config());
    let eff = s.step(SupervisorEvent::Tick);
    assert_eq!(eff, vec![SupervisorEffect::TryOpen]);
    let eff = s.step(SupervisorEvent::OpenSucceeded);
    assert_eq!(
        eff,
        vec![SupervisorEffect::Send(b"*IDN?".to_vec()), SupervisorEffect::AwaitLine(100)]
    );
    let eff = s.step(SupervisorEvent::Line(b"THURLBY THANDAR, MX100QP, SER123, 1.00".to_vec()));
    assert_eq!(
        eff,
        vec![SupervisorEffect::Send(b"CONFIG?".to_vec()), SupervisorEffect::AwaitLine(0)]
    );
    assert_eq!(s.phase, Phase::SyncTracking);
    let eff = s.step(SupervisorEvent::Line(b"0".to_vec()));
    assert_eq!(
        eff,
        vec![
            SupervisorEffect::Send(b"ONACTION1 QUICK".to_vec()),
            SupervisorEffect::Send(b"ONACTION2 QUICK".to_vec()),
            SupervisorEffect::Send(b"ONACTION3 QUICK".to_vec()),
            SupervisorEffect::Send(b"ONACTION4 QUICK".to_vec()),
        ]
    );
    assert_eq!(s.phase, Phase::Ready);
    assert!(s.state.connected);
    assert_eq!(s.state.voltage_tracking, Some(VoltageTracking::NoTracking));
    s
}

#[test]
fn failed_attempts_retry_forever() {
    let mut s = Supervisor::new(config());
    for round in 1..=4u64 {
        let eff = s.step(SupervisorEvent::Tick);
        assert_eq!(eff, vec![SupervisorEffect::TryOpen]);
        assert!(!s.state.connected);
        let error = if round % 2 == 1 {
            OpenError::NoDeviceFound
        } else {
            OpenError::OpenError
        };
        let eff = s.step(SupervisorEvent::OpenFailed(error.clone()));
        assert_eq!(eff, vec![SupervisorEffect::Sleep(1000)]);
        assert_eq!(s.phase, Phase::Disconnected);
        assert_eq!(s.retries, round);
        assert_eq!(s.last_error, Some(error));
    }
    // and the machine is still live: the next tick tries again
    let eff = s.step(SupervisorEvent::Tick);
    assert_eq!(eff, vec![SupervisorEffect::TryOpen]);
}

#[test]
fn unexpected_events_change_nothing() {
    let mut s = Supervisor::new(config());
    // these events have no meaning while disconnected
    assert!(s.step(SupervisorEvent::ActionTimeout).is_empty());
    assert!(s.step(SupervisorEvent::Silence).is_empty());
    assert!(s.step(SupervisorEvent::OpenSucceeded).is_empty());
    assert_eq!(s.phase, Phase::Disconnected);
    assert_eq!(s.retries, 0);
}

#[test]
fn identity_mismatch_does_not_reach_sync() {
    let mut s = Supervisor::new(config());
    s.step(SupervisorEvent::Tick);
    s.step(SupervisorEvent::OpenSucceeded);
    let eff = s.step(SupervisorEvent::Line(b"THURLBY THANDAR, MX100QP, SER999, 1.00".to_vec()));
    assert_eq!(eff, vec![SupervisorEffect::Sleep(1000), SupervisorEffect::Sleep(1000)]);
    assert_eq!(s.phase, Phase::Disconnected);
    match s.last_error {
        Some(OpenError::IdNotMatch(ref n)) => {
            assert_eq!(n.configured, b"SER123".to_vec());
            assert_eq!(n.device, b"SER999".to_vec());
        },
        ref other => panic!("unexpected error {:?}", other),
    }
    assert!(!s.state.connected);
}

#[test]
fn malformed_identity_is_protocol_error() {
    let mut s = Supervisor::new(config());
    s.step(SupervisorEvent::Tick);
    s.step(SupervisorEvent::OpenSucceeded);
    let eff = s.step(SupervisorEvent::Line(b"garbage".to_vec()));
    assert_eq!(eff, vec![SupervisorEffect::Sleep(1000)]);
    assert_eq!(s.last_error, Some(OpenError::ProtocolError));
    assert_eq!(s.phase, Phase::Disconnected);
}

#[test]
fn identify_times_out_after_five_seconds() {
    let mut s = Supervisor::new(config());
    s.step(SupervisorEvent::Tick);
    s.step(SupervisorEvent::OpenSucceeded);
    for _ in 0..49 {
        let eff = s.step(SupervisorEvent::Silence);
        assert_eq!(
            eff,
            vec![SupervisorEffect::Send(b"*IDN?".to_vec()), SupervisorEffect::AwaitLine(100)]
        );
    }
    let eff = s.step(SupervisorEvent::Silence);
    assert_eq!(eff, vec![SupervisorEffect::Sleep(1000)]);
    assert_eq!(s.last_error, Some(OpenError::Timeout));
    assert_eq!(s.phase, Phase::Disconnected);
    assert_eq!(s.retries, 1);
}

#[test]
fn telemetry_pass_fills_channels() {
    let mut s = connected_supervisor();
    let eff = s.step(SupervisorEvent::ActionTimeout);
    assert_eq!(eff, vec![SupervisorEffect::Poll]);
    assert_eq!(s.phase, Phase::Polling);
    let eff = s.step(poll_event("0"));
    assert!(eff.is_empty());
    assert_eq!(s.phase, Phase::Ready);
    for ch in 0..4usize {
        let c = &s.state.channels[ch];
        assert_eq!(c.index, ch as u8);
        assert!(c.enabled);
        assert_eq!(c.vrange, 2);
        assert_eq!(c.voltage.measured, 3_300);
        assert_eq!(c.voltage.set, 3_300);
        assert_eq!(c.current.measured, 250);
        assert_eq!(c.current.set, 500);
        assert_eq!(c.overvoltage_trip, None);
        assert_eq!(c.overcurrent_trip, None);
        assert!(c.status.is_empty());
    }
}

#[test]
fn status_bits_latch_until_reset() {
    let mut s = connected_supervisor();
    // first pass: the device reports a fault trip on every channel
    s.step(SupervisorEvent::ActionTimeout);
    s.step(poll_event("64"));
    assert!(s.state.channels[0].status.contains(status::FAULT_TRIP));
    // second pass: the device reports nothing, but the latch holds
    s.step(SupervisorEvent::ActionTimeout);
    s.step(poll_event("0"));
    for ch in 0..4usize {
        assert!(s.state.channels[ch].status.contains(status::FAULT_TRIP));
    }
    // a trip reset clears every channel and issues the reset command
    let eff = s.step(SupervisorEvent::ActionRequest(PowerSupplyAction::TripReset));
    assert_eq!(
        eff,
        vec![SupervisorEffect::Send(b"TRIPRST".to_vec()), SupervisorEffect::Poll]
    );
    for ch in 0..4usize {
        assert!(s.state.channels[ch].status.is_empty());
    }
}

#[test]
fn trip_queries_skipped_when_both_pairs_track() {
    let mut s = connected_supervisor();
    s.step(SupervisorEvent::ActionTimeout);
    // the pass reports tracking mode 3; channel 1 (wire channel 2) then
    // answers no trip queries, so its line list is two shorter
    let mut lines1 = channel_lines(1, "0");
    lines1.remove(3);
    lines1.remove(3);
    let eff = s.step(SupervisorEvent::PollResponses(
        b"3".to_vec(),
        vec![channel_lines(0, "0"), lines1, channel_lines(2, "0"), channel_lines(3, "0")],
    ));
    assert!(eff.is_empty());
    assert_eq!(s.phase, Phase::Ready);
    assert_eq!(s.state.voltage_tracking, Some(VoltageTracking::CH0_1AndCH2_3));
    assert_eq!(s.state.channels[1].overvoltage_trip, None);
    assert_eq!(s.state.channels[1].overcurrent_trip, None);
}

#[test]
fn malformed_poll_drops_the_session() {
    let mut s = connected_supervisor();
    s.step(SupervisorEvent::ActionTimeout);
    let eff = s.step(SupervisorEvent::PollResponses(b"junk".to_vec(), Vec::new()));
    assert!(eff.is_empty());
    assert_eq!(s.phase, Phase::Disconnected);
    assert!(!s.state.connected);
    assert_eq!(s.last_error, Some(OpenError::ProtocolError));
}

#[test]
fn link_error_while_ready_reconnects_without_backoff() {
    let mut s = connected_supervisor();
    let retries_before = s.retries;
    let eff = s.step(SupervisorEvent::LinkError);
    assert!(eff.is_empty());
    assert_eq!(s.phase, Phase::Disconnected);
    assert!(!s.state.connected);
    assert_eq!(s.retries, retries_before);
    let eff = s.step(SupervisorEvent::Tick);
    assert_eq!(eff, vec![SupervisorEffect::TryOpen]);
}

#[test]
fn action_sends_commands_then_polls() {
    let mut s = connected_supervisor();
    let eff = s.step(SupervisorEvent::ActionRequest(PowerSupplyAction::SetVoltage(0, 1_000)));
    assert_eq!(
        eff,
        vec![
            SupervisorEffect::Send(b"VRANGE1 2".to_vec()),
            SupervisorEffect::Send(b"V1 1.000".to_vec()),
            SupervisorEffect::SaveConfig,
            SupervisorEffect::Poll,
        ]
    );
    assert_eq!(s.phase, Phase::Polling);
    assert_eq!(s.config.channels[0].voltage_mv, 1_000);
    assert_eq!(s.config.channels[0].vrange, 2);
}
