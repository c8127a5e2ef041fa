//! The caller-facing action set and its dispatcher: what each action does
//! to the configuration, and which device commands it issues.
//!
//! Device commands are only issued after the corresponding configuration
//! change has been applied in memory; the dispatcher also says whether the
//! configuration collaborator should persist afterwards.

use vstd::prelude::*;

use crate::commands::{DeviceCmd, MultiChannelOn};
use crate::config::{ChannelConfigView, MultiOn, PowerSupplyConfig, PowerSupplyConfigView};
use crate::range::{auto_vrange, spec_auto_vrange};

verus! {

/// One channel, or all of them at once.
#[derive(Clone, Copy, PartialEq, Eq, Structural, Debug)]
pub enum ChannelSelection {
    AllChannels,
    Channel(u8),
}

impl ChannelSelection {
    /// A named channel really exists.
    pub open spec fn wf(self) -> bool {
        match self {
            ChannelSelection::AllChannels => true,
            ChannelSelection::Channel(ch) => ch < 4,
        }
    }
}

/// The closed set of commands a caller can issue against one supply.
#[derive(Clone, PartialEq, Debug)]
pub enum PowerSupplyAction {
    On(ChannelSelection),
    Off(ChannelSelection),
    SetVoltage(u8, u32),
    SetCurrent(u8, u32),
    RenameChannel(u8, String),
    SetMultiChannel(u8, MultiChannelOn),
    SetVRange(u8, u8),
    SetAutoVRange(u8, bool),
    SetVoltageTracking(u8),
    SetOvervoltageTrip(u8, Option<u32>),
    SetOvercurrentTrip(u8, Option<u32>),
    Reconfigure,
    TripReset,
}

impl PowerSupplyAction {
    /// Channel arguments name real channels; a tracking mode is 0..=3.
    pub open spec fn wf(self) -> bool {
        match self {
            PowerSupplyAction::On(sel) => sel.wf(),
            PowerSupplyAction::Off(sel) => sel.wf(),
            PowerSupplyAction::SetVoltage(ch, _) => ch < 4,
            PowerSupplyAction::SetCurrent(ch, _) => ch < 4,
            PowerSupplyAction::RenameChannel(ch, _) => ch < 4,
            PowerSupplyAction::SetMultiChannel(ch, _) => ch < 4,
            PowerSupplyAction::SetVRange(ch, _) => ch < 4,
            PowerSupplyAction::SetAutoVRange(ch, _) => ch < 4,
            PowerSupplyAction::SetVoltageTracking(mode) => mode <= 3,
            PowerSupplyAction::SetOvervoltageTrip(ch, _) => ch < 4,
            PowerSupplyAction::SetOvercurrentTrip(ch, _) => ch < 4,
            PowerSupplyAction::Reconfigure => true,
            PowerSupplyAction::TripReset => true,
        }
    }
}

/// The multi-on behaviour a channel's configuration calls for.
pub open spec fn spec_behaviour(m: MultiOn) -> MultiChannelOn {
    if m.enabled {
        MultiChannelOn::Delay(m.delay_ms)
    } else {
        MultiChannelOn::Disabled
    }
}

/// Read the multi-on behaviour off a channel's configuration.
pub fn multi_on_behaviour(m: &MultiOn) -> (r: MultiChannelOn)
    ensures
        r == spec_behaviour(*m),
{
    if m.enabled {
        MultiChannelOn::Delay(m.delay_ms)
    } else {
        MultiChannelOn::Disabled
    }
}

/// The configuration with channel `ch` replaced.
pub open spec fn spec_with_channel(
    c: PowerSupplyConfigView,
    ch: int,
    nc: ChannelConfigView,
) -> PowerSupplyConfigView {
    PowerSupplyConfigView { channels: c.channels.update(ch, nc), ..c }
}

/// How an action changes the configuration.  Setting a voltage or current
/// with automatic ranging enabled also stores the newly selected range.
pub open spec fn spec_apply_action(
    c: PowerSupplyConfigView,
    a: PowerSupplyAction,
) -> PowerSupplyConfigView {
    match a {
        PowerSupplyAction::SetVoltage(ch, mv) => {
            let cc = c.channels[ch as int];
            let vrange = if cc.auto_vrange {
                match spec_auto_vrange(ch as int, mv as int, cc.current_ma as int) {
                    Some(rg) => rg,
                    None => cc.vrange,
                }
            } else {
                cc.vrange
            };
            spec_with_channel(c, ch as int, ChannelConfigView { voltage_mv: mv, vrange, ..cc })
        },
        PowerSupplyAction::SetCurrent(ch, ma) => {
            let cc = c.channels[ch as int];
            let vrange = if cc.auto_vrange {
                match spec_auto_vrange(ch as int, cc.voltage_mv as int, ma as int) {
                    Some(rg) => rg,
                    None => cc.vrange,
                }
            } else {
                cc.vrange
            };
            spec_with_channel(c, ch as int, ChannelConfigView { current_ma: ma, vrange, ..cc })
        },
        PowerSupplyAction::RenameChannel(ch, name) => {
            let cc = c.channels[ch as int];
            spec_with_channel(c, ch as int, ChannelConfigView { name: name@, ..cc })
        },
        PowerSupplyAction::SetMultiChannel(ch, behaviour) => {
            let cc = c.channels[ch as int];
            let multi_on = match behaviour {
                MultiChannelOn::Disabled => MultiOn {
                    enabled: false,
                    delay_ms: cc.multi_on.delay_ms,
                },
                MultiChannelOn::Delay(d) => MultiOn { enabled: true, delay_ms: d },
            };
            spec_with_channel(c, ch as int, ChannelConfigView { multi_on, ..cc })
        },
        PowerSupplyAction::SetVRange(ch, rg) => {
            let cc = c.channels[ch as int];
            spec_with_channel(c, ch as int, ChannelConfigView { vrange: rg, ..cc })
        },
        PowerSupplyAction::SetAutoVRange(ch, en) => {
            let cc = c.channels[ch as int];
            spec_with_channel(c, ch as int, ChannelConfigView { auto_vrange: en, ..cc })
        },
        PowerSupplyAction::SetVoltageTracking(mode) => PowerSupplyConfigView {
            voltage_tracking: mode,
            ..c
        },
        PowerSupplyAction::SetOvervoltageTrip(ch, o) => {
            let cc = c.channels[ch as int];
            spec_with_channel(c, ch as int, ChannelConfigView { overvoltage_trip_mv: o, ..cc })
        },
        PowerSupplyAction::SetOvercurrentTrip(ch, o) => {
            let cc = c.channels[ch as int];
            spec_with_channel(c, ch as int, ChannelConfigView { overcurrent_trip_ma: o, ..cc })
        },
        _ => c,
    }
}

/// The full resynchronisation block for one channel, in the fixed order:
/// range, voltage, current, overvoltage trip, overcurrent trip, multi-on.
pub open spec fn spec_channel_sync_cmds(c: PowerSupplyConfigView, ch: int) -> Seq<DeviceCmd> {
    let cc = c.channels[ch];
    seq![
        DeviceCmd::SetVRange { ch: ch as u8, vrange: cc.vrange },
        DeviceCmd::SetVoltage { ch: ch as u8, millivolts: cc.voltage_mv },
        DeviceCmd::SetCurrent { ch: ch as u8, milliamps: cc.current_ma },
        DeviceCmd::SetOvervoltageTrip { ch: ch as u8, millivolts: cc.overvoltage_trip_mv },
        DeviceCmd::SetOvercurrentTrip { ch: ch as u8, milliamps: cc.overcurrent_trip_ma },
        DeviceCmd::MultiOnSetup { ch: ch as u8, behaviour: spec_behaviour(cc.multi_on) },
    ]
}

/// A full reconfiguration: all channels off, the tracking mode pushed
/// once, then every channel's block in channel order.
pub open spec fn spec_reconfigure_cmds(c: PowerSupplyConfigView) -> Seq<DeviceCmd> {
    seq![DeviceCmd::AllChannelsOff, DeviceCmd::SetTracking { mode: c.voltage_tracking }]
        + spec_channel_sync_cmds(c, 0) + spec_channel_sync_cmds(c, 1) + spec_channel_sync_cmds(c, 2)
        + spec_channel_sync_cmds(c, 3)
}

/// The device commands an action issues, against the configuration as
/// already updated by the action.
pub open spec fn spec_action_cmds(c: PowerSupplyConfigView, a: PowerSupplyAction) -> Seq<
    DeviceCmd,
> {
    match a {
        PowerSupplyAction::On(sel) => match sel {
            ChannelSelection::AllChannels => seq![DeviceCmd::AllChannelsOn],
            ChannelSelection::Channel(ch) => seq![DeviceCmd::ChannelOn { ch }],
        },
        PowerSupplyAction::Off(sel) => match sel {
            ChannelSelection::AllChannels => seq![DeviceCmd::AllChannelsOff],
            ChannelSelection::Channel(ch) => seq![DeviceCmd::ChannelOff { ch }],
        },
        PowerSupplyAction::SetVoltage(ch, mv) => {
            let cc = c.channels[ch as int];
            let set = DeviceCmd::SetVoltage { ch, millivolts: mv };
            if cc.auto_vrange {
                match spec_auto_vrange(ch as int, mv as int, cc.current_ma as int) {
                    Some(rg) => seq![DeviceCmd::SetVRange { ch, vrange: rg }, set],
                    None => seq![set],
                }
            } else {
                seq![set]
            }
        },
        PowerSupplyAction::SetCurrent(ch, ma) => {
            let cc = c.channels[ch as int];
            let set = DeviceCmd::SetCurrent { ch, milliamps: ma };
            if cc.auto_vrange {
                match spec_auto_vrange(ch as int, cc.voltage_mv as int, ma as int) {
                    Some(rg) => seq![DeviceCmd::SetVRange { ch, vrange: rg }, set],
                    None => seq![set],
                }
            } else {
                seq![set]
            }
        },
        PowerSupplyAction::RenameChannel(_, _) => seq![],
        PowerSupplyAction::SetMultiChannel(ch, behaviour) => seq![
            DeviceCmd::MultiOnSetup { ch, behaviour },
        ],
        PowerSupplyAction::SetVRange(ch, rg) => seq![DeviceCmd::SetVRange { ch, vrange: rg }],
        PowerSupplyAction::SetAutoVRange(_, _) => seq![],
        PowerSupplyAction::SetVoltageTracking(mode) => seq![DeviceCmd::SetTracking { mode }],
        PowerSupplyAction::SetOvervoltageTrip(ch, o) => seq![
            DeviceCmd::SetOvervoltageTrip { ch, millivolts: o },
        ],
        PowerSupplyAction::SetOvercurrentTrip(ch, o) => seq![
            DeviceCmd::SetOvercurrentTrip { ch, milliamps: o },
        ],
        PowerSupplyAction::Reconfigure => spec_reconfigure_cmds(c),
        PowerSupplyAction::TripReset => seq![DeviceCmd::TripReset],
    }
}

/// Whether the configuration collaborator should persist after an action.
pub open spec fn spec_action_saves(a: PowerSupplyAction) -> bool {
    match a {
        PowerSupplyAction::On(_) => false,
        PowerSupplyAction::Off(_) => false,
        PowerSupplyAction::Reconfigure => false,
        PowerSupplyAction::TripReset => false,
        _ => true,
    }
}

/// Reconfigure ordering: the tracking mode is pushed once, before any
/// per-channel command, and each channel's commands are exactly range,
/// voltage, current, overvoltage trip, overcurrent trip, multi-on setup,
/// in that order, channel by channel.
pub proof fn lemma_reconfigure_command_order(c: PowerSupplyConfigView)
    requires
        c.wf(),
    ensures
        ({
            let cmds = spec_action_cmds(c, PowerSupplyAction::Reconfigure);
            &&& cmds.len() == 26
            &&& cmds[0] == DeviceCmd::AllChannelsOff
            &&& cmds[1] == DeviceCmd::SetTracking { mode: c.voltage_tracking }
            &&& forall|ch: int|
                0 <= ch < 4 ==> cmds.subrange(2 + 6 * ch, 8 + 6 * ch) == #[trigger] spec_channel_sync_cmds(
                    c,
                    ch,
                )
        }),
{
    let cmds = spec_action_cmds(c, PowerSupplyAction::Reconfigure);
    assert forall|ch: int| 0 <= ch < 4 implies cmds.subrange(2 + 6 * ch, 8 + 6 * ch)
        == #[trigger] spec_channel_sync_cmds(c, ch) by {
        if ch == 0 {
            assert(cmds.subrange(2, 8) =~= spec_channel_sync_cmds(c, 0));
        } else if ch == 1 {
            assert(cmds.subrange(8, 14) =~= spec_channel_sync_cmds(c, 1));
        } else if ch == 2 {
            assert(cmds.subrange(14, 20) =~= spec_channel_sync_cmds(c, 2));
        } else {
            assert(cmds.subrange(20, 26) =~= spec_channel_sync_cmds(c, 3));
        }
    }
}

/// Every command a well-formed action issues is itself well-formed.
pub proof fn lemma_action_cmds_wf(c: PowerSupplyConfigView, a: PowerSupplyAction)
    requires
        c.wf(),
        a.wf(),
    ensures
        forall|i: int|
            0 <= i < spec_action_cmds(c, a).len() ==> (#[trigger] spec_action_cmds(c, a)[i]).wf(),
{
    let cmds = spec_action_cmds(c, a);
    match a {
        PowerSupplyAction::Reconfigure => {
            assert forall|i: int| 0 <= i < cmds.len() implies (#[trigger] cmds[i]).wf() by {
                if i >= 2 {
                    let ch = (i - 2) / 6;
                    let off = (i - 2) % 6;
                    assert(cmds[i] == spec_channel_sync_cmds(c, ch)[off]) by {
                        assert(cmds.len() == 26);
                        if i < 8 {
                            assert(cmds[i] == spec_channel_sync_cmds(c, 0)[i - 2]);
                        } else if i < 14 {
                            assert(cmds[i] == spec_channel_sync_cmds(c, 1)[i - 8]);
                        } else if i < 20 {
                            assert(cmds[i] == spec_channel_sync_cmds(c, 2)[i - 14]);
                        } else {
                            assert(cmds[i] == spec_channel_sync_cmds(c, 3)[i - 20]);
                        }
                    }
                }
            }
        },
        _ => {},
    }
}

/// Apply an action: update the configuration in memory, and return the
/// device commands to issue, in order, together with whether the
/// configuration should be persisted.
pub fn dispatch_action(config: &mut PowerSupplyConfig, action: &PowerSupplyAction) -> (r: (
    Vec<DeviceCmd>,
    bool,
))
    requires
        old(config)@.wf(),
        action.wf(),
    ensures
        final(config)@ == spec_apply_action(old(config)@, *action),
        final(config)@.wf(),
        r.0@ == spec_action_cmds(old(config)@, *action),
        r.1 == spec_action_saves(*action),
{
    let mut cmds: Vec<DeviceCmd> = Vec::new();
    let save: bool;
    match action {
        PowerSupplyAction::On(sel) => {
            match sel {
                ChannelSelection::AllChannels => cmds.push(DeviceCmd::AllChannelsOn),
                ChannelSelection::Channel(ch) => cmds.push(DeviceCmd::ChannelOn { ch: *ch }),
            }
            save = false;
        },
        PowerSupplyAction::Off(sel) => {
            match sel {
                ChannelSelection::AllChannels => cmds.push(DeviceCmd::AllChannelsOff),
                ChannelSelection::Channel(ch) => cmds.push(DeviceCmd::ChannelOff { ch: *ch }),
            }
            save = false;
        },
        PowerSupplyAction::SetVoltage(ch, mv) => {
            let chx = *ch as usize;
            let auto = config.channels[chx].auto_vrange;
            let current_ma = config.channels[chx].current_ma;
            let selected = if auto {
                auto_vrange(*ch, *mv, current_ma)
            } else {
                None
            };
            let chan = &mut config.channels[chx];
            chan.voltage_mv = *mv;
            if auto {
                if let Some(rg) = selected {
                    chan.vrange = rg;
                    cmds.push(DeviceCmd::SetVRange { ch: *ch, vrange: rg });
                }
            }
            cmds.push(DeviceCmd::SetVoltage { ch: *ch, millivolts: *mv });
            save = true;
            proof {
                lemma_channel_view_update(old(config)@, *old(config), *config, *ch as int);
            }
        },
        PowerSupplyAction::SetCurrent(ch, ma) => {
            let chx = *ch as usize;
            let auto = config.channels[chx].auto_vrange;
            let voltage_mv = config.channels[chx].voltage_mv;
            let selected = if auto {
                auto_vrange(*ch, voltage_mv, *ma)
            } else {
                None
            };
            let chan = &mut config.channels[chx];
            chan.current_ma = *ma;
            if auto {
                if let Some(rg) = selected {
                    chan.vrange = rg;
                    cmds.push(DeviceCmd::SetVRange { ch: *ch, vrange: rg });
                }
            }
            cmds.push(DeviceCmd::SetCurrent { ch: *ch, milliamps: *ma });
            save = true;
            proof {
                lemma_channel_view_update(old(config)@, *old(config), *config, *ch as int);
            }
        },
        PowerSupplyAction::RenameChannel(ch, name) => {
            let chx = *ch as usize;
            let new_name = clone_string(name);
            let chan = &mut config.channels[chx];
            chan.name = new_name;
            save = true;
            proof {
                lemma_channel_view_update(old(config)@, *old(config), *config, *ch as int);
            }
        },
        PowerSupplyAction::SetMultiChannel(ch, behaviour) => {
            let chx = *ch as usize;
            let chan = &mut config.channels[chx];
            match behaviour {
                MultiChannelOn::Disabled => {
                    chan.multi_on.enabled = false;
                },
                MultiChannelOn::Delay(d) => {
                    chan.multi_on = MultiOn { enabled: true, delay_ms: *d };
                },
            }
            cmds.push(DeviceCmd::MultiOnSetup { ch: *ch, behaviour: *behaviour });
            save = true;
            proof {
                lemma_channel_view_update(old(config)@, *old(config), *config, *ch as int);
            }
        },
        PowerSupplyAction::SetVRange(ch, rg) => {
            let chx = *ch as usize;
            let chan = &mut config.channels[chx];
            chan.vrange = *rg;
            cmds.push(DeviceCmd::SetVRange { ch: *ch, vrange: *rg });
            save = true;
            proof {
                lemma_channel_view_update(old(config)@, *old(config), *config, *ch as int);
            }
        },
        PowerSupplyAction::SetAutoVRange(ch, en) => {
            let chx = *ch as usize;
            let chan = &mut config.channels[chx];
            chan.auto_vrange = *en;
            save = true;
            proof {
                lemma_channel_view_update(old(config)@, *old(config), *config, *ch as int);
            }
        },
        PowerSupplyAction::SetVoltageTracking(mode) => {
            config.voltage_tracking = *mode;
            cmds.push(DeviceCmd::SetTracking { mode: *mode });
            save = true;
            proof {
                assert(config@.channels =~= old(config)@.channels);
            }
        },
        PowerSupplyAction::SetOvervoltageTrip(ch, o) => {
            let chx = *ch as usize;
            let chan = &mut config.channels[chx];
            chan.overvoltage_trip_mv = *o;
            cmds.push(DeviceCmd::SetOvervoltageTrip { ch: *ch, millivolts: *o });
            save = true;
            proof {
                lemma_channel_view_update(old(config)@, *old(config), *config, *ch as int);
            }
        },
        PowerSupplyAction::SetOvercurrentTrip(ch, o) => {
            let chx = *ch as usize;
            let chan = &mut config.channels[chx];
            chan.overcurrent_trip_ma = *o;
            cmds.push(DeviceCmd::SetOvercurrentTrip { ch: *ch, milliamps: *o });
            save = true;
            proof {
                lemma_channel_view_update(old(config)@, *old(config), *config, *ch as int);
            }
        },
        PowerSupplyAction::Reconfigure => {
            cmds.push(DeviceCmd::AllChannelsOff);
            cmds.push(DeviceCmd::SetTracking { mode: config.voltage_tracking });
            push_channel_sync(config, 0, &mut cmds);
            push_channel_sync(config, 1, &mut cmds);
            push_channel_sync(config, 2, &mut cmds);
            push_channel_sync(config, 3, &mut cmds);
            save = false;
            proof {
                assert(cmds@ =~= spec_reconfigure_cmds(old(config)@));
            }
        },
        PowerSupplyAction::TripReset => {
            cmds.push(DeviceCmd::TripReset);
            save = false;
        },
    }
    proof {
        assert(cmds@ =~= spec_action_cmds(old(config)@, *action));
        assert(config@ =~= spec_apply_action(old(config)@, *action));
    }
    (cmds, save)
}

/// After one channel of `after` was rewritten, the views line up: the new
/// view is the old one with that channel's view replaced.
proof fn lemma_channel_view_update(
    c0: PowerSupplyConfigView,
    before: PowerSupplyConfig,
    after: PowerSupplyConfig,
    ch: int,
)
    requires
        before@ == c0,
        0 <= ch < before.channels@.len(),
        after.channels@ == before.channels@.update(ch, after.channels@[ch]),
        after.vid == before.vid,
        after.pid == before.pid,
        after.serial_number == before.serial_number,
        after.id == before.id,
        after.name == before.name,
        after.voltage_tracking == before.voltage_tracking,
    ensures
        after@ == spec_with_channel(c0, ch, after.channels@[ch]@),
{
    assert(after@.channels =~= c0.channels.update(ch, after.channels@[ch]@));
    assert(after@ =~= spec_with_channel(c0, ch, after.channels@[ch]@));
}

/// Append one channel's resynchronisation block to `cmds`.
fn push_channel_sync(config: &PowerSupplyConfig, ch: u8, cmds: &mut Vec<DeviceCmd>)
    requires
        config@.wf(),
        ch < 4,
    ensures
        final(cmds)@ == old(cmds)@ + spec_channel_sync_cmds(config@, ch as int),
{
    let chx = ch as usize;
    let c = &config.channels[chx];
    cmds.push(DeviceCmd::SetVRange { ch, vrange: c.vrange });
    cmds.push(DeviceCmd::SetVoltage { ch, millivolts: c.voltage_mv });
    cmds.push(DeviceCmd::SetCurrent { ch, milliamps: c.current_ma });
    cmds.push(DeviceCmd::SetOvervoltageTrip { ch, millivolts: c.overvoltage_trip_mv });
    cmds.push(DeviceCmd::SetOvercurrentTrip { ch, milliamps: c.overcurrent_trip_ma });
    cmds.push(DeviceCmd::MultiOnSetup { ch, behaviour: multi_on_behaviour(&c.multi_on) });
    proof {
        assert(config@.channels[ch as int] == config.channels@[ch as int]@);
        assert(cmds@ =~= old(cmds)@ + spec_channel_sync_cmds(config@, ch as int));
    }
}

/// Clone a channel name.
fn clone_string(s: &String) -> (r: String)
    ensures
        r@ == s@,
{
    let r = s.clone();
    r
}

} // verus!
