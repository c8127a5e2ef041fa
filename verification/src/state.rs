//! In-memory model of what is known about the device and its channels.
//!
//! A `Channel` snapshot is rebuilt on every telemetry pass, except for its
//! sticky status bits, which accumulate until a trip reset.  Voltages are
//! millivolts, currents milliamps.

use vstd::prelude::*;

use crate::status::LimitEventStatus;

verus! {

/// The device's voltage-tracking mode: which channel pairs are coupled.
#[derive(Clone, Copy, PartialEq, Eq, Structural, Debug)]
pub enum VoltageTracking {
    NoTracking,
    CH0_1,
    CH2_3,
    CH0_1AndCH2_3,
}

impl VoltageTracking {
    /// The wire encoding of the mode.
    pub open spec fn spec_to_u8(self) -> u8 {
        match self {
            VoltageTracking::NoTracking => 0,
            VoltageTracking::CH0_1 => 1,
            VoltageTracking::CH2_3 => 2,
            VoltageTracking::CH0_1AndCH2_3 => 3,
        }
    }

    /// The mode a wire value denotes, if any.
    pub open spec fn spec_from_u8(v: u8) -> Option<VoltageTracking> {
        if v == 0 {
            Some(VoltageTracking::NoTracking)
        } else if v == 1 {
            Some(VoltageTracking::CH0_1)
        } else if v == 2 {
            Some(VoltageTracking::CH2_3)
        } else if v == 3 {
            Some(VoltageTracking::CH0_1AndCH2_3)
        } else {
            None
        }
    }

    /// Encode the mode for the wire.
    pub fn to_u8(self) -> (r: u8)
        ensures
            r == self.spec_to_u8(),
    {
        match self {
            VoltageTracking::NoTracking => 0,
            VoltageTracking::CH0_1 => 1,
            VoltageTracking::CH2_3 => 2,
            VoltageTracking::CH0_1AndCH2_3 => 3,
        }
    }

    /// Decode a wire value; values above 3 denote no mode.
    pub fn from_u8(v: u8) -> (r: Option<VoltageTracking>)
        ensures
            r == Self::spec_from_u8(v),
    {
        if v == 0 {
            Some(VoltageTracking::NoTracking)
        } else if v == 1 {
            Some(VoltageTracking::CH0_1)
        } else if v == 2 {
            Some(VoltageTracking::CH2_3)
        } else if v == 3 {
            Some(VoltageTracking::CH0_1AndCH2_3)
        } else {
            None
        }
    }
}

/// A channel's role under the current voltage-tracking mode.
#[derive(Clone, Copy, PartialEq, Eq, Structural, Debug)]
pub enum VoltageTrackingState {
    Independent,
    Master,
    Slave,
}

/// The role channel `ch` plays under tracking mode `config`: in a coupled
/// pair the even channel is the master and the odd one the slave.
pub open spec fn spec_tracking_role(ch: int, config: VoltageTracking) -> VoltageTrackingState {
    if (config == VoltageTracking::CH0_1 || config == VoltageTracking::CH0_1AndCH2_3) && ch == 0 {
        VoltageTrackingState::Master
    } else if (config == VoltageTracking::CH0_1 || config == VoltageTracking::CH0_1AndCH2_3) && ch
        == 1 {
        VoltageTrackingState::Slave
    } else if (config == VoltageTracking::CH2_3 || config == VoltageTracking::CH0_1AndCH2_3) && ch
        == 2 {
        VoltageTrackingState::Master
    } else if (config == VoltageTracking::CH2_3 || config == VoltageTracking::CH0_1AndCH2_3) && ch
        == 3 {
        VoltageTrackingState::Slave
    } else {
        VoltageTrackingState::Independent
    }
}

impl VoltageTrackingState {
    /// Derive a channel's tracking role from its index and the device mode.
    pub fn from_channel_and_config(ch: u8, config: &VoltageTracking) -> (r: VoltageTrackingState)
        ensures
            r == spec_tracking_role(ch as int, *config),
    {
        match (config, ch) {
            (VoltageTracking::CH0_1, 0) | (VoltageTracking::CH0_1AndCH2_3, 0) => {
                VoltageTrackingState::Master
            },
            (VoltageTracking::CH0_1, 1) | (VoltageTracking::CH0_1AndCH2_3, 1) => {
                VoltageTrackingState::Slave
            },
            (VoltageTracking::CH2_3, 2) | (VoltageTracking::CH0_1AndCH2_3, 2) => {
                VoltageTrackingState::Master
            },
            (VoltageTracking::CH2_3, 3) | (VoltageTracking::CH0_1AndCH2_3, 3) => {
                VoltageTrackingState::Slave
            },
            _ => VoltageTrackingState::Independent,
        }
    }
}

/// A measured value together with the set-point the device echoed back.
#[derive(Clone, Copy, PartialEq, Eq, Structural, Debug)]
pub struct Unit {
    pub measured: u32,
    pub set: u32,
}

/// Everything one telemetry pass learns about one channel.
#[derive(Clone, Copy, PartialEq, Eq, Structural, Debug)]
pub struct Channel {
    pub index: u8,
    pub vrange: u8,
    pub enabled: bool,
    pub current: Unit,
    pub voltage: Unit,
    pub overvoltage_trip: Option<u32>,
    pub overcurrent_trip: Option<u32>,
    pub status: LimitEventStatus,
    pub voltage_tracking: VoltageTrackingState,
}

/// The channel snapshot before anything has been read.
pub open spec fn spec_blank_channel(index: u8) -> Channel {
    Channel {
        index,
        vrange: 0,
        enabled: false,
        current: Unit { measured: 0, set: 0 },
        voltage: Unit { measured: 0, set: 0 },
        overvoltage_trip: None,
        overcurrent_trip: None,
        status: LimitEventStatus { bits: 0 },
        voltage_tracking: VoltageTrackingState::Independent,
    }
}

/// A blank snapshot for channel `index`.
pub fn blank_channel(index: u8) -> (r: Channel)
    ensures
        r == spec_blank_channel(index),
{
    Channel {
        index,
        vrange: 0,
        enabled: false,
        current: Unit { measured: 0, set: 0 },
        voltage: Unit { measured: 0, set: 0 },
        overvoltage_trip: None,
        overcurrent_trip: None,
        status: LimitEventStatus { bits: 0 },
        voltage_tracking: VoltageTrackingState::Independent,
    }
}

/// The published view of one device: a connected flag, the four channel
/// snapshots, and the tracking mode last read back.
pub struct DeviceState {
    pub connected: bool,
    pub channels: Vec<Channel>,
    pub voltage_tracking: Option<VoltageTracking>,
}

impl DeviceState {
    /// Four channels, each carrying its own index.
    pub open spec fn wf(self) -> bool {
        &&& self.channels@.len() == 4
        &&& forall|i: int| 0 <= i < 4 ==> (#[trigger] self.channels@[i]).index == i
    }

    /// The state before any connection attempt: disconnected, blank
    /// channels, no tracking mode known.
    pub fn new() -> (r: DeviceState)
        ensures
            r.wf(),
            !r.connected,
            r.voltage_tracking is None,
            forall|i: int| 0 <= i < 4 ==> r.channels@[i] == spec_blank_channel(i as u8),
    {
        let mut channels: Vec<Channel> = Vec::new();
        channels.push(blank_channel(0));
        channels.push(blank_channel(1));
        channels.push(blank_channel(2));
        channels.push(blank_channel(3));
        DeviceState { connected: false, channels, voltage_tracking: None }
    }
}

} // verus!
