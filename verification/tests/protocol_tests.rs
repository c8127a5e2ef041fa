use mx100qp::commands::{command_lines, query_line, DeviceCmd, MultiChannelOn, Query};
use mx100qp::error::OpenError;
use mx100qp::responses::{
    check_identity, parse_enabled, parse_measurement, parse_setpoint, parse_status, parse_tracking,
    parse_trip, parse_u8_dec,
};
use mx100qp::state::VoltageTracking;
use mx100qp::status;

fn lines(cmd: DeviceCmd) -> Vec<Vec<u8>> {
    command_lines(&cmd)
}

#[test]
fn set_voltage_line() {
    let l = lines(DeviceCmd::SetVoltage { ch: 0, millivolts: 12_345 });
    assert_eq!(l, vec![b"V1 12.345".to_vec()]);
    let l = lines(DeviceCmd::SetVoltage { ch: 3, millivolts: 35_000 });
    assert_eq!(l, vec![b"V4 35.000".to_vec()]);
}

#[test]
fn set_current_line() {
    let l = lines(DeviceCmd::SetCurrent { ch: 1, milliamps: 500 });
    assert_eq!(l, vec![b"I2 0.500".to_vec()]);
}

#[test]
fn on_off_lines() {
    assert_eq!(lines(DeviceCmd::ChannelOn { ch: 0 }), vec![b"OP1 1".to_vec()]);
    assert_eq!(lines(DeviceCmd::ChannelOff { ch: 2 }), vec![b"OP3 0".to_vec()]);
    assert_eq!(lines(DeviceCmd::AllChannelsOn), vec![b"OPALL 1".to_vec()]);
    assert_eq!(lines(DeviceCmd::AllChannelsOff), vec![b"OPALL 0".to_vec()]);
}

#[test]
fn range_and_tracking_lines() {
    assert_eq!(
        lines(DeviceCmd::SetVRange { ch: 1, vrange: 3 }),
        vec![b"VRANGE2 3".to_vec()]
    );
    assert_eq!(lines(DeviceCmd::SetTracking { mode: 2 }), vec![b"CONFIG 2".to_vec()]);
}

#[test]
fn trip_lines() {
    assert_eq!(
        lines(DeviceCmd::SetOvervoltageTrip { ch: 0, millivolts: Some(1_500) }),
        vec![b"OVP1 1.500".to_vec(), b"OVP1 ON".to_vec()]
    );
    assert_eq!(
        lines(DeviceCmd::SetOvercurrentTrip { ch: 3, milliamps: None }),
        vec![b"OCP4 OFF".to_vec()]
    );
}

#[test]
fn multi_on_lines() {
    assert_eq!(
        lines(DeviceCmd::MultiOnSetup { ch: 0, behaviour: MultiChannelOn::Disabled }),
        vec![b"ONACTION1 NEVER".to_vec()]
    );
    assert_eq!(
        lines(DeviceCmd::MultiOnSetup { ch: 1, behaviour: MultiChannelOn::Delay(0) }),
        vec![b"ONACTION2 QUICK".to_vec()]
    );
    assert_eq!(
        lines(DeviceCmd::MultiOnSetup { ch: 2, behaviour: MultiChannelOn::Delay(250) }),
        vec![b"ONACTION3 DELAY".to_vec(), b"ONDELAY3 250".to_vec()]
    );
}

#[test]
fn trip_reset_line() {
    assert_eq!(lines(DeviceCmd::TripReset), vec![b"TRIPRST".to_vec()]);
}

#[test]
fn query_lines() {
    assert_eq!(query_line(&Query::Identify), b"*IDN?".to_vec());
    assert_eq!(query_line(&Query::Tracking), b"CONFIG?".to_vec());
    assert_eq!(query_line(&Query::Status { ch: 0 }), b"LSR1?".to_vec());
    assert_eq!(query_line(&Query::Enabled { ch: 1 }), b"OP2?".to_vec());
    assert_eq!(query_line(&Query::VRange { ch: 2 }), b"VRANGE3?".to_vec());
    assert_eq!(query_line(&Query::OverVoltage { ch: 3 }), b"OVP4?".to_vec());
    assert_eq!(query_line(&Query::OverCurrent { ch: 0 }), b"OCP1?".to_vec());
    assert_eq!(query_line(&Query::MeasuredVoltage { ch: 1 }), b"V2O?".to_vec());
    assert_eq!(query_line(&Query::SetpointVoltage { ch: 1 }), b"V2?".to_vec());
    assert_eq!(query_line(&Query::MeasuredCurrent { ch: 3 }), b"I4O?".to_vec());
    assert_eq!(query_line(&Query::SetpointCurrent { ch: 3 }), b"I4?".to_vec());
}

#[test]
fn parse_enabled_lines() {
    assert!(parse_enabled(b"1"));
    assert!(!parse_enabled(b"0"));
    assert!(!parse_enabled(b"10"));
    assert!(!parse_enabled(b""));
}

#[test]
fn parse_small_integers() {
    assert_eq!(parse_u8_dec(b"0"), Some(0));
    assert_eq!(parse_u8_dec(b"255"), Some(255));
    assert_eq!(parse_u8_dec(b"256"), None);
    assert_eq!(parse_u8_dec(b""), None);
    assert_eq!(parse_u8_dec(b"1x"), None);
    assert_eq!(parse_u8_dec(b"007"), Some(7));
}

#[test]
fn parse_status_lines() {
    let s = parse_status(b"64").unwrap();
    assert_eq!(s.bits, status::FAULT_TRIP);
    assert!(s.contains(status::FAULT_TRIP));
    let s = parse_status(b"0").unwrap();
    assert!(s.is_empty());
    // bit 5 is undefined on this device
    assert_eq!(parse_status(b"32"), None);
    assert_eq!(parse_status(b"notanumber"), None);
}

#[test]
fn parse_tracking_lines() {
    assert_eq!(parse_tracking(b"0"), Some(VoltageTracking::NoTracking));
    assert_eq!(parse_tracking(b"1"), Some(VoltageTracking::CH0_1));
    assert_eq!(parse_tracking(b"2"), Some(VoltageTracking::CH2_3));
    assert_eq!(parse_tracking(b"3"), Some(VoltageTracking::CH0_1AndCH2_3));
    assert_eq!(parse_tracking(b"4"), None);
    assert_eq!(parse_tracking(b""), None);
}

#[test]
fn parse_trip_lines() {
    assert_eq!(parse_trip(b"OVP1 OFF"), Some(None));
    assert_eq!(parse_trip(b"OVP1 2.500"), Some(Some(2_500)));
    assert_eq!(parse_trip(b"OCP4 3"), Some(Some(3_000)));
    assert_eq!(parse_trip(b"nospace"), None);
    assert_eq!(parse_trip(b"OVP1 junk"), None);
}

#[test]
fn parse_measurement_lines() {
    assert_eq!(parse_measurement(b"2.500V"), Some(2_500));
    assert_eq!(parse_measurement(b"0.000A"), Some(0));
    assert_eq!(parse_measurement(b"35V"), Some(35_000));
    assert_eq!(parse_measurement(b"V"), None); // nothing left once the suffix goes
    assert_eq!(parse_measurement(b"3.5A"), Some(3_500));
    assert_eq!(parse_measurement(b""), None);
}

#[test]
fn parse_setpoint_lines() {
    assert_eq!(parse_setpoint(b'V', 0, b"V1 2.500"), Some(2_500));
    assert_eq!(parse_setpoint(b'I', 3, b"I4 0.125"), Some(125));
    // echoed token must match the queried channel
    assert_eq!(parse_setpoint(b'V', 1, b"V1 2.500"), None);
    assert_eq!(parse_setpoint(b'V', 0, b"X1 2.500"), None);
    assert_eq!(parse_setpoint(b'V', 0, b"V1"), None);
    // only the token up to the next space is read
    assert_eq!(parse_setpoint(b'V', 0, b"V1 1.5 trailing"), Some(1_500));
}

#[test]
fn identity_match() {
    assert!(check_identity(b"SER123", b"THURLBY THANDAR, MX100QP, SER123, 1.00").is_ok());
}

#[test]
fn identity_mismatch_reports_both() {
    let err = check_identity(b"SER123", b"THURLBY THANDAR, MX100QP, SER999, 1.00").unwrap_err();
    match err {
        OpenError::IdNotMatch(n) => {
            assert_eq!(n.configured, b"SER123".to_vec());
            assert_eq!(n.device, b"SER999".to_vec());
        },
        other => panic!("unexpected error {:?}", other),
    }
}

#[test]
fn identity_malformed() {
    assert_eq!(
        check_identity(b"SER123", b"no commas here").unwrap_err(),
        OpenError::ProtocolError
    );
    assert_eq!(check_identity(b"SER123", b"one, two,").unwrap_err(), OpenError::ProtocolError);
}
