use mx100qp::commands::{DeviceCmd, MultiChannelOn};
use mx100qp::config::{ChannelConfig, MultiOn, PowerSupplyConfig};
use mx100qp::dispatch::{dispatch_action, ChannelSelection, PowerSupplyAction};

fn channel(name: &str, voltage_mv: u32, current_ma: u32) -> ChannelConfig {
    ChannelConfig {
        name: name.to_string(),
        voltage_mv,
        current_ma,
        multi_on: MultiOn { enabled: true, delay_ms: 0 },
        vrange: 1,
        auto_vrange: true,
        overvoltage_trip_mv: None,
        overcurrent_trip_ma: None,
    }
}

fn config() -> PowerSupplyConfig {
    PowerSupplyConfig {
        vid: 0x103E,
        pid: 0x0424,
        serial_number: Some(b"SER123".to_vec()),
        id: b"SER123".to_vec(),
        name: "Bench supply".to_string(),
        channels: vec![
            channel("Logic", 3_300, 500),
            channel("Analog", 12_000, 1_000),
            channel("Aux", 5_000, 2_000),
            channel("Spare", 0, 0),
        ],
        voltage_tracking: 0,
    }
}

#[test]
fn on_off_dispatch() {
    let mut c = config();
    let (cmds, save) = dispatch_action(&mut c, &PowerSupplyAction::On(ChannelSelection::Channel(2)));
    assert_eq!(cmds, vec![DeviceCmd::ChannelOn { ch: 2 }]);
    assert!(!save);
    let (cmds, save) =
        dispatch_action(&mut c, &PowerSupplyAction::Off(ChannelSelection::AllChannels));
    assert_eq!(cmds, vec![DeviceCmd::AllChannelsOff]);
    assert!(!save);
}

#[test]
fn set_voltage_reselects_range() {
    let mut c = config();
    // channel 0 carries 500 mA; 1 V fits range 2 (16 V / 6 A), the lowest
    // voltage capacity on the low-voltage table
    let (cmds, save) = dispatch_action(&mut c, &PowerSupplyAction::SetVoltage(0, 1_000));
    assert_eq!(
        cmds,
        vec![
            DeviceCmd::SetVRange { ch: 0, vrange: 2 },
            DeviceCmd::SetVoltage { ch: 0, millivolts: 1_000 },
        ]
    );
    assert!(save);
    assert_eq!(c.channels[0].voltage_mv, 1_000);
    assert_eq!(c.channels[0].vrange, 2);
}

#[test]
fn set_voltage_without_fit_keeps_range() {
    let mut c = config();
    let (cmds, save) = dispatch_action(&mut c, &PowerSupplyAction::SetVoltage(0, 70_000));
    assert_eq!(cmds, vec![DeviceCmd::SetVoltage { ch: 0, millivolts: 70_000 }]);
    assert!(save);
    assert_eq!(c.channels[0].vrange, 1);
}

#[test]
fn set_voltage_manual_range() {
    let mut c = config();
    c.channels[1].auto_vrange = false;
    let (cmds, _) = dispatch_action(&mut c, &PowerSupplyAction::SetVoltage(1, 9_000));
    assert_eq!(cmds, vec![DeviceCmd::SetVoltage { ch: 1, millivolts: 9_000 }]);
    assert_eq!(c.channels[1].vrange, 1);
}

#[test]
fn set_current_reselects_range() {
    let mut c = config();
    // channel 1 targets 20 V; 5 A then forces range 3 (35 V / 6 A)
    c.channels[1].voltage_mv = 20_000;
    let (cmds, _) = dispatch_action(&mut c, &PowerSupplyAction::SetCurrent(1, 5_000));
    assert_eq!(
        cmds,
        vec![
            DeviceCmd::SetVRange { ch: 1, vrange: 3 },
            DeviceCmd::SetCurrent { ch: 1, milliamps: 5_000 },
        ]
    );
    assert_eq!(c.channels[1].current_ma, 5_000);
    assert_eq!(c.channels[1].vrange, 3);
}

#[test]
fn rename_is_config_only() {
    let mut c = config();
    let (cmds, save) =
        dispatch_action(&mut c, &PowerSupplyAction::RenameChannel(3, "Heater".to_string()));
    assert!(cmds.is_empty());
    assert!(save);
    assert_eq!(c.channels[3].name, "Heater");
}

#[test]
fn set_multi_channel_disabled_keeps_delay() {
    let mut c = config();
    c.channels[2].multi_on = MultiOn { enabled: true, delay_ms: 750 };
    let (cmds, save) =
        dispatch_action(&mut c, &PowerSupplyAction::SetMultiChannel(2, MultiChannelOn::Disabled));
    assert_eq!(
        cmds,
        vec![DeviceCmd::MultiOnSetup { ch: 2, behaviour: MultiChannelOn::Disabled }]
    );
    assert!(save);
    assert_eq!(c.channels[2].multi_on, MultiOn { enabled: false, delay_ms: 750 });
}

#[test]
fn set_multi_channel_delay() {
    let mut c = config();
    let (cmds, _) =
        dispatch_action(&mut c, &PowerSupplyAction::SetMultiChannel(0, MultiChannelOn::Delay(120)));
    assert_eq!(
        cmds,
        vec![DeviceCmd::MultiOnSetup { ch: 0, behaviour: MultiChannelOn::Delay(120) }]
    );
    assert_eq!(c.channels[0].multi_on, MultiOn { enabled: true, delay_ms: 120 });
}

#[test]
fn set_auto_vrange_is_config_only() {
    let mut c = config();
    let (cmds, save) = dispatch_action(&mut c, &PowerSupplyAction::SetAutoVRange(0, false));
    assert!(cmds.is_empty());
    assert!(save);
    assert!(!c.channels[0].auto_vrange);
}

#[test]
fn set_tracking_dispatch() {
    let mut c = config();
    let (cmds, save) = dispatch_action(&mut c, &PowerSupplyAction::SetVoltageTracking(3));
    assert_eq!(cmds, vec![DeviceCmd::SetTracking { mode: 3 }]);
    assert!(save);
    assert_eq!(c.voltage_tracking, 3);
}

#[test]
fn set_trip_dispatch() {
    let mut c = config();
    let (cmds, save) =
        dispatch_action(&mut c, &PowerSupplyAction::SetOvervoltageTrip(0, Some(3_600)));
    assert_eq!(
        cmds,
        vec![DeviceCmd::SetOvervoltageTrip { ch: 0, millivolts: Some(3_600) }]
    );
    assert!(save);
    assert_eq!(c.channels[0].overvoltage_trip_mv, Some(3_600));
    let (cmds, _) = dispatch_action(&mut c, &PowerSupplyAction::SetOvercurrentTrip(1, None));
    assert_eq!(cmds, vec![DeviceCmd::SetOvercurrentTrip { ch: 1, milliamps: None }]);
    assert_eq!(c.channels[1].overcurrent_trip_ma, None);
}

#[test]
fn trip_reset_dispatch() {
    let mut c = config();
    let (cmds, save) = dispatch_action(&mut c, &PowerSupplyAction::TripReset);
    assert_eq!(cmds, vec![DeviceCmd::TripReset]);
    assert!(!save);
}

#[test]
fn reconfigure_command_order() {
    let mut c = config();
    c.voltage_tracking = 2;
    c.channels[1].overvoltage_trip_mv = Some(13_000);
    let before = c.clone();
    let (cmds, save) = dispatch_action(&mut c, &PowerSupplyAction::Reconfigure);
    assert!(!save);
    assert_eq!(c, before);
    assert_eq!(cmds.len(), 26);
    assert_eq!(cmds[0], DeviceCmd::AllChannelsOff);
    assert_eq!(cmds[1], DeviceCmd::SetTracking { mode: 2 });
    for ch in 0..4u8 {
        let cc = &before.channels[ch as usize];
        let base = 2 + 6 * ch as usize;
        assert_eq!(cmds[base], DeviceCmd::SetVRange { ch, vrange: cc.vrange });
        assert_eq!(cmds[base + 1], DeviceCmd::SetVoltage { ch, millivolts: cc.voltage_mv });
        assert_eq!(cmds[base + 2], DeviceCmd::SetCurrent { ch, milliamps: cc.current_ma });
        assert_eq!(
            cmds[base + 3],
            DeviceCmd::SetOvervoltageTrip { ch, millivolts: cc.overvoltage_trip_mv }
        );
        assert_eq!(
            cmds[base + 4],
            DeviceCmd::SetOvercurrentTrip { ch, milliamps: cc.overcurrent_trip_ma }
        );
        let behaviour = if cc.multi_on.enabled {
            MultiChannelOn::Delay(cc.multi_on.delay_ms)
        } else {
            MultiChannelOn::Disabled
        };
        assert_eq!(cmds[base + 5], DeviceCmd::MultiOnSetup { ch, behaviour });
    }
}
