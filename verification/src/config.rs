//! The per-supply configuration the core reads to drive the device.
//!
//! The configuration is owned and persisted by an outside collaborator;
//! the core only holds it in memory, updates it when an action asks for a
//! change, and signals when the collaborator should save it.

use vstd::prelude::*;

verus! {

/// Default range index for a channel that has never been configured.
pub fn one() -> (r: u8)
    ensures
        r == 1,
{
    1
}

/// Default voltage-tracking mode: no coupling.
pub fn zero() -> (r: u8)
    ensures
        r == 0,
{
    0
}

/// Default for the automatic-range flag: enabled.
pub fn def_true() -> (r: bool)
    ensures
        r,
{
    true
}

/// Per-channel behaviour when all channels are switched on together:
/// whether the channel takes part, and after what delay.
#[derive(Clone, Copy, PartialEq, Eq, Structural, Debug)]
pub struct MultiOn {
    pub enabled: bool,
    pub delay_ms: u32,
}

impl Default for MultiOn {
    /// Taking part, with no delay.
    fn default() -> (r: Self)
        ensures
            r.enabled,
            r.delay_ms == 0,
    {
        MultiOn { enabled: true, delay_ms: 0 }
    }
}

/// The configured targets of one channel.  Voltages are millivolts,
/// currents milliamps; a `None` trip threshold means that protection is
/// disabled.
#[derive(Clone, PartialEq, Eq, Debug)]
pub struct ChannelConfig {
    pub name: String,
    pub voltage_mv: u32,
    pub current_ma: u32,
    pub multi_on: MultiOn,
    pub vrange: u8,
    pub auto_vrange: bool,
    pub overvoltage_trip_mv: Option<u32>,
    pub overcurrent_trip_ma: Option<u32>,
}

/// Everything configured for one supply: the USB matching key, the
/// identity string the device must report, and the four channel
/// configurations.
#[derive(Clone, PartialEq, Eq, Debug)]
pub struct PowerSupplyConfig {
    pub vid: u16,
    pub pid: u16,
    pub serial_number: Option<Vec<u8>>,
    pub id: Vec<u8>,
    pub name: String,
    pub channels: Vec<ChannelConfig>,
    pub voltage_tracking: u8,
}

impl PowerSupplyConfig {
    /// Four channels and a meaningful tracking mode.
    pub open spec fn wf(self) -> bool {
        self@.wf()
    }
}

/// The mathematical model of a channel configuration.
pub struct ChannelConfigView {
    pub name: Seq<char>,
    pub voltage_mv: u32,
    pub current_ma: u32,
    pub multi_on: MultiOn,
    pub vrange: u8,
    pub auto_vrange: bool,
    pub overvoltage_trip_mv: Option<u32>,
    pub overcurrent_trip_ma: Option<u32>,
}

impl View for ChannelConfig {
    type V = ChannelConfigView;

    open spec fn view(&self) -> ChannelConfigView {
        ChannelConfigView {
            name: self.name@,
            voltage_mv: self.voltage_mv,
            current_ma: self.current_ma,
            multi_on: self.multi_on,
            vrange: self.vrange,
            auto_vrange: self.auto_vrange,
            overvoltage_trip_mv: self.overvoltage_trip_mv,
            overcurrent_trip_ma: self.overcurrent_trip_ma,
        }
    }
}

/// The mathematical model of a supply configuration.
pub struct PowerSupplyConfigView {
    pub vid: u16,
    pub pid: u16,
    pub serial_number: Option<Seq<u8>>,
    pub id: Seq<u8>,
    pub name: Seq<char>,
    pub channels: Seq<ChannelConfigView>,
    pub voltage_tracking: u8,
}

impl PowerSupplyConfigView {
    /// Four channels and a meaningful tracking mode.
    pub open spec fn wf(self) -> bool {
        &&& self.channels.len() == 4
        &&& self.voltage_tracking <= 3
    }
}

impl View for PowerSupplyConfig {
    type V = PowerSupplyConfigView;

    open spec fn view(&self) -> PowerSupplyConfigView {
        PowerSupplyConfigView {
            vid: self.vid,
            pid: self.pid,
            serial_number: match self.serial_number {
                Some(ref s) => Some(s@),
                None => None,
            },
            id: self.id@,
            name: self.name@,
            channels: self.channels@.map_values(|c: ChannelConfig| c@),
            voltage_tracking: self.voltage_tracking,
        }
    }
}

} // verus!
