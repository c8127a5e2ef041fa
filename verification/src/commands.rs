//! Request-line formatting: every command and query the core can put on
//! the wire, with the exact bytes each one produces.
//!
//! Channel arguments are 0-based here and 1-based on the wire.  Voltages
//! and currents are written as fixed-point volts or amps with three
//! fractional digits; delays, range indices and tracking modes as plain
//! decimal integers.

use vstd::prelude::*;

use crate::numbers::{push_decimal, push_milli, spec_dec_digits, spec_milli_digits};

verus! {

/// The wire digit for 0-based channel `ch`.
pub open spec fn spec_ch_digit(ch: int) -> u8 {
    (49 + ch) as u8
}

/// Behaviour of one channel under the all-channels-on command.
#[derive(Clone, Copy, PartialEq, Eq, Structural, Debug)]
pub enum MultiChannelOn {
    Disabled,
    Delay(u32),
}

/// A command that expects no response line.
#[derive(Clone, Copy, PartialEq, Eq, Structural, Debug)]
pub enum DeviceCmd {
    SetVoltage { ch: u8, millivolts: u32 },
    SetCurrent { ch: u8, milliamps: u32 },
    ChannelOn { ch: u8 },
    ChannelOff { ch: u8 },
    AllChannelsOn,
    AllChannelsOff,
    SetVRange { ch: u8, vrange: u8 },
    SetTracking { mode: u8 },
    SetOvervoltageTrip { ch: u8, millivolts: Option<u32> },
    SetOvercurrentTrip { ch: u8, milliamps: Option<u32> },
    MultiOnSetup { ch: u8, behaviour: MultiChannelOn },
    TripReset,
}

impl DeviceCmd {
    /// The channel argument, where there is one, names a real channel.
    pub open spec fn wf(self) -> bool {
        match self {
            DeviceCmd::SetVoltage { ch, .. } => ch < 4,
            DeviceCmd::SetCurrent { ch, .. } => ch < 4,
            DeviceCmd::ChannelOn { ch } => ch < 4,
            DeviceCmd::ChannelOff { ch } => ch < 4,
            DeviceCmd::AllChannelsOn => true,
            DeviceCmd::AllChannelsOff => true,
            DeviceCmd::SetVRange { ch, .. } => ch < 4,
            DeviceCmd::SetTracking { .. } => true,
            DeviceCmd::SetOvervoltageTrip { ch, .. } => ch < 4,
            DeviceCmd::SetOvercurrentTrip { ch, .. } => ch < 4,
            DeviceCmd::MultiOnSetup { ch, .. } => ch < 4,
            DeviceCmd::TripReset => true,
        }
    }
}

/// A request that the device answers with exactly one line.
#[derive(Clone, Copy, PartialEq, Eq, Structural, Debug)]
pub enum Query {
    Identify,
    Tracking,
    Status { ch: u8 },
    Enabled { ch: u8 },
    VRange { ch: u8 },
    OverVoltage { ch: u8 },
    OverCurrent { ch: u8 },
    MeasuredVoltage { ch: u8 },
    SetpointVoltage { ch: u8 },
    MeasuredCurrent { ch: u8 },
    SetpointCurrent { ch: u8 },
}

impl Query {
    /// The channel argument, where there is one, names a real channel.
    pub open spec fn wf(self) -> bool {
        match self {
            Query::Identify => true,
            Query::Tracking => true,
            Query::Status { ch } => ch < 4,
            Query::Enabled { ch } => ch < 4,
            Query::VRange { ch } => ch < 4,
            Query::OverVoltage { ch } => ch < 4,
            Query::OverCurrent { ch } => ch < 4,
            Query::MeasuredVoltage { ch } => ch < 4,
            Query::SetpointVoltage { ch } => ch < 4,
            Query::MeasuredCurrent { ch } => ch < 4,
            Query::SetpointCurrent { ch } => ch < 4,
        }
    }
}

/// The request line a query puts on the wire (without the terminator).
pub open spec fn spec_query_line(q: Query) -> Seq<u8> {
    match q {
        Query::Identify => seq![42, 73, 68, 78, 63],
        Query::Tracking => seq![67, 79, 78, 70, 73, 71, 63],
        Query::Status { ch } => seq![76, 83, 82, spec_ch_digit(ch as int), 63],
        Query::Enabled { ch } => seq![79, 80, spec_ch_digit(ch as int), 63],
        Query::VRange { ch } => seq![
            86,
            82,
            65,
            78,
            71,
            69,
            spec_ch_digit(ch as int),
            63,
        ],
        Query::OverVoltage { ch } => seq![79, 86, 80, spec_ch_digit(ch as int), 63],
        Query::OverCurrent { ch } => seq![79, 67, 80, spec_ch_digit(ch as int), 63],
        Query::MeasuredVoltage { ch } => seq![86, spec_ch_digit(ch as int), 79, 63],
        Query::SetpointVoltage { ch } => seq![86, spec_ch_digit(ch as int), 63],
        Query::MeasuredCurrent { ch } => seq![73, spec_ch_digit(ch as int), 79, 63],
        Query::SetpointCurrent { ch } => seq![73, spec_ch_digit(ch as int), 63],
    }
}

/// Format a query's request line.
pub fn query_line(q: &Query) -> (r: Vec<u8>)
    requires
        q.wf(),
    ensures
        r@ == spec_query_line(*q),
{
    let mut r: Vec<u8> = Vec::new();
    match q {
        Query::Identify => {
            r.push(42);
            r.push(73);
            r.push(68);
            r.push(78);
            r.push(63);
        },
        Query::Tracking => {
            r.push(67);
            r.push(79);
            r.push(78);
            r.push(70);
            r.push(73);
            r.push(71);
            r.push(63);
        },
        Query::Status { ch } => {
            r.push(76);
            r.push(83);
            r.push(82);
            r.push(49 + *ch);
            r.push(63);
        },
        Query::Enabled { ch } => {
            r.push(79);
            r.push(80);
            r.push(49 + *ch);
            r.push(63);
        },
        Query::VRange { ch } => {
            r.push(86);
            r.push(82);
            r.push(65);
            r.push(78);
            r.push(71);
            r.push(69);
            r.push(49 + *ch);
            r.push(63);
        },
        Query::OverVoltage { ch } => {
            r.push(79);
            r.push(86);
            r.push(80);
            r.push(49 + *ch);
            r.push(63);
        },
        Query::OverCurrent { ch } => {
            r.push(79);
            r.push(67);
            r.push(80);
            r.push(49 + *ch);
            r.push(63);
        },
        Query::MeasuredVoltage { ch } => {
            r.push(86);
            r.push(49 + *ch);
            r.push(79);
            r.push(63);
        },
        Query::SetpointVoltage { ch } => {
            r.push(86);
            r.push(49 + *ch);
            r.push(63);
        },
        Query::MeasuredCurrent { ch } => {
            r.push(73);
            r.push(49 + *ch);
            r.push(79);
            r.push(63);
        },
        Query::SetpointCurrent { ch } => {
            r.push(73);
            r.push(49 + *ch);
            r.push(63);
        },
    }
    proof {
        assert(r@ =~= spec_query_line(*q));
    }
    r
}

/// The request lines a command puts on the wire, in order.  Most commands
/// are a single line; a present trip threshold is written and then armed,
/// and a delayed multi-on behaviour is followed by its delay.
pub open spec fn spec_cmd_lines(cmd: DeviceCmd) -> Seq<Seq<u8>> {
    match cmd {
        DeviceCmd::SetVoltage { ch, millivolts } => seq![
            seq![86, spec_ch_digit(ch as int), 32] + spec_milli_digits(millivolts as nat),
        ],
        DeviceCmd::SetCurrent { ch, milliamps } => seq![
            seq![73, spec_ch_digit(ch as int), 32] + spec_milli_digits(milliamps as nat),
        ],
        DeviceCmd::ChannelOn { ch } => seq![
            seq![79, 80, spec_ch_digit(ch as int), 32, 49],
        ],
        DeviceCmd::ChannelOff { ch } => seq![
            seq![79, 80, spec_ch_digit(ch as int), 32, 48],
        ],
        DeviceCmd::AllChannelsOn => seq![seq![79, 80, 65, 76, 76, 32, 49]],
        DeviceCmd::AllChannelsOff => seq![seq![79, 80, 65, 76, 76, 32, 48]],
        DeviceCmd::SetVRange { ch, vrange } => seq![
            seq![86, 82, 65, 78, 71, 69, spec_ch_digit(ch as int), 32]
                + spec_dec_digits(vrange as nat),
        ],
        DeviceCmd::SetTracking { mode } => seq![
            seq![67, 79, 78, 70, 73, 71, 32] + spec_dec_digits(mode as nat),
        ],
        DeviceCmd::SetOvervoltageTrip { ch, millivolts } => spec_trip_lines(
            86,
            ch as int,
            millivolts,
        ),
        DeviceCmd::SetOvercurrentTrip { ch, milliamps } => spec_trip_lines(
            67,
            ch as int,
            milliamps,
        ),
        DeviceCmd::MultiOnSetup { ch, behaviour } => spec_multi_on_lines(ch as int, behaviour),
        DeviceCmd::TripReset => seq![seq![84, 82, 73, 80, 82, 83, 84]],
    }
}

/// Lines for a trip-threshold command: write the threshold (when present),
/// then switch the protection on or off.
pub open spec fn spec_trip_lines(unit: u8, ch: int, threshold: Option<u32>) -> Seq<Seq<u8>> {
    match threshold {
        Some(v) => seq![
            seq![79, unit, 80, spec_ch_digit(ch), 32] + spec_milli_digits(v as nat),
            seq![79, unit, 80, spec_ch_digit(ch), 32, 79, 78],
        ],
        None => seq![seq![79, unit, 80, spec_ch_digit(ch), 32, 79, 70, 70]],
    }
}

/// Lines for a multi-on behaviour: the action, then the delay when one is
/// needed.  A zero delay maps to the quick action with no delay line.
pub open spec fn spec_multi_on_lines(ch: int, behaviour: MultiChannelOn) -> Seq<Seq<u8>> {
    match behaviour {
        MultiChannelOn::Disabled => seq![
            spec_onaction_prefix(ch) + seq![78, 69, 86, 69, 82],
        ],
        MultiChannelOn::Delay(delay) => if delay == 0 {
            seq![spec_onaction_prefix(ch) + seq![81, 85, 73, 67, 75]]
        } else {
            seq![
                spec_onaction_prefix(ch) + seq![68, 69, 76, 65, 89],
                seq![79, 78, 68, 69, 76, 65, 89, spec_ch_digit(ch), 32]
                    + spec_dec_digits(delay as nat),
            ]
        },
    }
}

/// The common `ONACTION{ch} ` opening of a multi-on action line.
pub open spec fn spec_onaction_prefix(ch: int) -> Seq<u8> {
    seq![79, 78, 65, 67, 84, 73, 79, 78, spec_ch_digit(ch), 32]
}

/// Whether each `Vec` line carries exactly the bytes of each spec line.
pub open spec fn lines_match(v: Seq<Vec<u8>>, s: Seq<Seq<u8>>) -> bool {
    v.len() == s.len() && forall|i: int| 0 <= i < v.len() ==> (#[trigger] v[i])@ == s[i]
}

/// Format the request lines of a command.
pub fn command_lines(cmd: &DeviceCmd) -> (r: Vec<Vec<u8>>)
    requires
        cmd.wf(),
    ensures
        lines_match(r@, spec_cmd_lines(*cmd)),
{
    let mut r: Vec<Vec<u8>> = Vec::new();
    match cmd {
        DeviceCmd::SetVoltage { ch, millivolts } => {
            let mut l: Vec<u8> = Vec::new();
            l.push(86);
            l.push(49 + *ch);
            l.push(32);
            push_milli(*millivolts, &mut l);
            proof {
                assert(l@ =~= spec_cmd_lines(*cmd)[0]);
            }
            r.push(l);
        },
        DeviceCmd::SetCurrent { ch, milliamps } => {
            let mut l: Vec<u8> = Vec::new();
            l.push(73);
            l.push(49 + *ch);
            l.push(32);
            push_milli(*milliamps, &mut l);
            proof {
                assert(l@ =~= spec_cmd_lines(*cmd)[0]);
            }
            r.push(l);
        },
        DeviceCmd::ChannelOn { ch } => {
            let mut l: Vec<u8> = Vec::new();
            l.push(79);
            l.push(80);
            l.push(49 + *ch);
            l.push(32);
            l.push(49);
            proof {
                assert(l@ =~= spec_cmd_lines(*cmd)[0]);
            }
            r.push(l);
        },
        DeviceCmd::ChannelOff { ch } => {
            let mut l: Vec<u8> = Vec::new();
            l.push(79);
            l.push(80);
            l.push(49 + *ch);
            l.push(32);
            l.push(48);
            proof {
                assert(l@ =~= spec_cmd_lines(*cmd)[0]);
            }
            r.push(l);
        },
        DeviceCmd::AllChannelsOn => {
            let mut l: Vec<u8> = Vec::new();
            l.push(79);
            l.push(80);
            l.push(65);
            l.push(76);
            l.push(76);
            l.push(32);
            l.push(49);
            proof {
                assert(l@ =~= spec_cmd_lines(*cmd)[0]);
            }
            r.push(l);
        },
        DeviceCmd::AllChannelsOff => {
            let mut l: Vec<u8> = Vec::new();
            l.push(79);
            l.push(80);
            l.push(65);
            l.push(76);
            l.push(76);
            l.push(32);
            l.push(48);
            proof {
                assert(l@ =~= spec_cmd_lines(*cmd)[0]);
            }
            r.push(l);
        },
        DeviceCmd::SetVRange { ch, vrange } => {
            let mut l: Vec<u8> = Vec::new();
            l.push(86);
            l.push(82);
            l.push(65);
            l.push(78);
            l.push(71);
            l.push(69);
            l.push(49 + *ch);
            l.push(32);
            push_decimal(*vrange as u64, &mut l);
            proof {
                assert(l@ =~= spec_cmd_lines(*cmd)[0]);
            }
            r.push(l);
        },
        DeviceCmd::SetTracking { mode } => {
            let mut l: Vec<u8> = Vec::new();
            l.push(67);
            l.push(79);
            l.push(78);
            l.push(70);
            l.push(73);
            l.push(71);
            l.push(32);
            push_decimal(*mode as u64, &mut l);
            proof {
                assert(l@ =~= spec_cmd_lines(*cmd)[0]);
            }
            r.push(l);
        },
        DeviceCmd::SetOvervoltageTrip { ch, millivolts } => {
            push_trip_lines(86, *ch, millivolts, &mut r);
        },
        DeviceCmd::SetOvercurrentTrip { ch, milliamps } => {
            push_trip_lines(67, *ch, milliamps, &mut r);
        },
        DeviceCmd::MultiOnSetup { ch, behaviour } => {
            push_multi_on_lines(*ch, behaviour, &mut r);
        },
        DeviceCmd::TripReset => {
            let mut l: Vec<u8> = Vec::new();
            l.push(84);
            l.push(82);
            l.push(73);
            l.push(80);
            l.push(82);
            l.push(83);
            l.push(84);
            proof {
                assert(l@ =~= spec_cmd_lines(*cmd)[0]);
            }
            r.push(l);
        },
    }
    r
}

/// Format the lines of a trip-threshold command into `out`.
fn push_trip_lines(unit: u8, ch: u8, threshold: &Option<u32>, out: &mut Vec<Vec<u8>>)
    requires
        ch < 4,
        old(out)@.len() == 0,
    ensures
        lines_match(final(out)@, spec_trip_lines(unit, ch as int, *threshold)),
{
    match threshold {
        Some(v) => {
            let mut l: Vec<u8> = Vec::new();
            l.push(79);
            l.push(unit);
            l.push(80);
            l.push(49 + ch);
            l.push(32);
            push_milli(*v, &mut l);
            proof {
                assert(l@ =~= spec_trip_lines(unit, ch as int, *threshold)[0]);
            }
            out.push(l);
            let mut l2: Vec<u8> = Vec::new();
            l2.push(79);
            l2.push(unit);
            l2.push(80);
            l2.push(49 + ch);
            l2.push(32);
            l2.push(79);
            l2.push(78);
            proof {
                assert(l2@ =~= spec_trip_lines(unit, ch as int, *threshold)[1]);
            }
            out.push(l2);
        },
        None => {
            let mut l: Vec<u8> = Vec::new();
            l.push(79);
            l.push(unit);
            l.push(80);
            l.push(49 + ch);
            l.push(32);
            l.push(79);
            l.push(70);
            l.push(70);
            proof {
                assert(l@ =~= spec_trip_lines(unit, ch as int, *threshold)[0]);
            }
            out.push(l);
        },
    }
}

/// Format the lines of a multi-on setup command into `out`.
fn push_multi_on_lines(ch: u8, behaviour: &MultiChannelOn, out: &mut Vec<Vec<u8>>)
    requires
        ch < 4,
        old(out)@.len() == 0,
    ensures
        lines_match(final(out)@, spec_multi_on_lines(ch as int, *behaviour)),
{
    let mut l: Vec<u8> = Vec::new();
    l.push(79);
    l.push(78);
    l.push(65);
    l.push(67);
    l.push(84);
    l.push(73);
    l.push(79);
    l.push(78);
    l.push(49 + ch);
    l.push(32);
    proof {
        assert(l@ =~= spec_onaction_prefix(ch as int));
    }
    match behaviour {
        MultiChannelOn::Disabled => {
            l.push(78);
            l.push(69);
            l.push(86);
            l.push(69);
            l.push(82);
            proof {
                assert(l@ =~= spec_multi_on_lines(ch as int, *behaviour)[0]);
            }
            out.push(l);
        },
        MultiChannelOn::Delay(delay) => {
            if *delay == 0 {
                l.push(81);
                l.push(85);
                l.push(73);
                l.push(67);
                l.push(75);
                proof {
                    assert(l@ =~= spec_multi_on_lines(ch as int, *behaviour)[0]);
                }
                out.push(l);
            } else {
                l.push(68);
                l.push(69);
                l.push(76);
                l.push(65);
                l.push(89);
                proof {
                    assert(l@ =~= spec_multi_on_lines(ch as int, *behaviour)[0]);
                }
                out.push(l);
                let mut l2: Vec<u8> = Vec::new();
                l2.push(79);
                l2.push(78);
                l2.push(68);
                l2.push(69);
                l2.push(76);
                l2.push(65);
                l2.push(89);
                l2.push(49 + ch);
                l2.push(32);
                push_decimal(*delay as u64, &mut l2);
                proof {
                    assert(l2@ =~= spec_multi_on_lines(ch as int, *behaviour)[1]);
                }
                out.push(l2);
            }
        },
    }
}

} // verus!
