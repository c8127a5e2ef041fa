//! One telemetry pass: which queries to issue for each channel, and how
//! the response lines become a channel snapshot.
//!
//! The tracking mode is read once per pass (not per channel).  When the
//! mode couples channels 2 and 3 (0-based 1 is the wire's channel 2), the
//! device does not answer that channel's trip-threshold queries reliably,
//! so they are skipped and the trips reported as disabled.  Status bits
//! merge into the previous sticky set.  Any malformed response aborts the
//! pass.

use vstd::prelude::*;

use crate::commands::Query;
use crate::responses::{
    parse_enabled, parse_measurement, parse_setpoint, parse_status, parse_trip, parse_u8_dec,
    spec_parse_enabled, spec_parse_measurement, spec_parse_setpoint, spec_parse_status,
    spec_parse_trip, spec_parse_u8_dec,
};
use crate::state::{spec_tracking_role, Channel, Unit, VoltageTracking, VoltageTrackingState};
use crate::status::LimitEventStatus;

verus! {

/// Whether the trip-threshold queries are skipped for `ch` under
/// `tracking`: the quirk hits the wire's channel 2 when both pairs track.
pub open spec fn spec_skip_trip(ch: int, tracking: VoltageTracking) -> bool {
    tracking == VoltageTracking::CH0_1AndCH2_3 && ch == 1
}

/// The queries one pass issues for channel `ch`, in order: status latch,
/// enabled flag, active range, the two trip thresholds (unless skipped),
/// then measured and set voltage and measured and set current.
pub open spec fn spec_channel_queries(ch: int, tracking: VoltageTracking) -> Seq<Query> {
    let chu = ch as u8;
    let head = seq![
        Query::Status { ch: chu },
        Query::Enabled { ch: chu },
        Query::VRange { ch: chu },
    ];
    let trips = if spec_skip_trip(ch, tracking) {
        Seq::<Query>::empty()
    } else {
        seq![Query::OverVoltage { ch: chu }, Query::OverCurrent { ch: chu }]
    };
    let units = seq![
        Query::MeasuredVoltage { ch: chu },
        Query::SetpointVoltage { ch: chu },
        Query::MeasuredCurrent { ch: chu },
        Query::SetpointCurrent { ch: chu },
    ];
    head + trips + units
}

/// Build the query list for channel `ch`.
pub fn channel_queries(ch: u8, tracking: VoltageTracking) -> (r: Vec<Query>)
    requires
        ch < 4,
    ensures
        r@ == spec_channel_queries(ch as int, tracking),
{
    let mut r: Vec<Query> = Vec::new();
    r.push(Query::Status { ch });
    r.push(Query::Enabled { ch });
    r.push(Query::VRange { ch });
    let skip = match tracking {
        VoltageTracking::CH0_1AndCH2_3 => ch == 1,
        _ => false,
    };
    if !skip {
        r.push(Query::OverVoltage { ch });
        r.push(Query::OverCurrent { ch });
    }
    r.push(Query::MeasuredVoltage { ch });
    r.push(Query::SetpointVoltage { ch });
    r.push(Query::MeasuredCurrent { ch });
    r.push(Query::SetpointCurrent { ch });
    proof {
        assert(r@ =~= spec_channel_queries(ch as int, tracking));
    }
    r
}

/// The views of a list of response lines.
pub open spec fn spec_line_views(lines: Seq<Vec<u8>>) -> Seq<Seq<u8>> {
    lines.map_values(|l: Vec<u8>| l@)
}

/// The channel snapshot one pass yields for `ch`, given the response line
/// of each query in order, or nothing if any line is malformed.  The new
/// status is the previous sticky set merged with the reported bits; the
/// skipped trip thresholds read as disabled.
pub open spec fn spec_parse_channel(
    ch: int,
    tracking: VoltageTracking,
    prev_status: LimitEventStatus,
    lines: Seq<Seq<u8>>,
) -> Option<Channel> {
    if lines.len() != spec_channel_queries(ch, tracking).len() {
        None
    } else {
        let skip = spec_skip_trip(ch, tracking);
        let k: int = if skip {
            0
        } else {
            2
        };
        let ovp = if skip {
            Some(None)
        } else {
            spec_parse_trip(lines[3])
        };
        let ocp = if skip {
            Some(None)
        } else {
            spec_parse_trip(lines[4])
        };
        match (spec_parse_status(lines[0]), spec_parse_u8_dec(lines[2]), ovp, ocp) {
            (Some(st), Some(vrange), Some(ovp), Some(ocp)) => {
                let vm = spec_parse_measurement(lines[3 + k]);
                let vs = spec_parse_setpoint(86, ch, lines[4 + k]);
                let im = spec_parse_measurement(lines[5 + k]);
                let is_ = spec_parse_setpoint(73, ch, lines[6 + k]);
                match (vm, vs, im, is_) {
                    (Some(vm), Some(vs), Some(im), Some(is_)) => Some(
                        Channel {
                            index: ch as u8,
                            vrange,
                            enabled: spec_parse_enabled(lines[1]),
                            current: Unit { measured: im, set: is_ },
                            voltage: Unit { measured: vm, set: vs },
                            overvoltage_trip: ovp,
                            overcurrent_trip: ocp,
                            status: LimitEventStatus { bits: prev_status.bits | st.bits },
                            voltage_tracking: spec_tracking_role(ch, tracking),
                        },
                    ),
                    _ => None,
                }
            },
            _ => None,
        }
    }
}

/// A telemetry pass never clears a latched status bit: whatever flags the
/// previous sticky set held, the freshly parsed snapshot still holds them,
/// whatever the device reported.  Only a trip reset clears the latch.
pub proof fn lemma_poll_keeps_latched(
    ch: int,
    tracking: VoltageTracking,
    prev_status: LimitEventStatus,
    lines: Seq<Seq<u8>>,
    flags: u8,
)
    requires
        prev_status.bits & flags == flags,
        spec_parse_channel(ch, tracking, prev_status, lines) is Some,
    ensures
        spec_parse_channel(ch, tracking, prev_status, lines) matches Some(c) && c.status.bits
            & flags == flags,
{
    match spec_parse_status(lines[0]) {
        Some(st) => {
            crate::status::lemma_union_keeps_flags(prev_status.bits, st.bits, flags);
        },
        None => {},
    }
}

/// Parse the responses of one channel's queries into its snapshot.
pub fn parse_channel_poll(
    ch: u8,
    tracking: VoltageTracking,
    prev_status: LimitEventStatus,
    lines: &Vec<Vec<u8>>,
) -> (r: Option<Channel>)
    requires
        ch < 4,
    ensures
        r == spec_parse_channel(ch as int, tracking, prev_status, spec_line_views(lines@)),
{
    let skip = match tracking {
        VoltageTracking::CH0_1AndCH2_3 => ch == 1,
        _ => false,
    };
    let expected: usize = if skip {
        7
    } else {
        9
    };
    if lines.len() != expected {
        return None;
    }
    let k: usize = if skip {
        0
    } else {
        2
    };
    let st = match parse_status(lines[0].as_slice()) {
        Some(st) => st,
        None => {
            return None;
        },
    };
    let enabled = parse_enabled(lines[1].as_slice());
    let vrange = match parse_u8_dec(lines[2].as_slice()) {
        Some(v) => v,
        None => {
            return None;
        },
    };
    let ovp = if skip {
        None
    } else {
        match parse_trip(lines[3].as_slice()) {
            Some(t) => t,
            None => {
                return None;
            },
        }
    };
    let ocp = if skip {
        None
    } else {
        match parse_trip(lines[4].as_slice()) {
            Some(t) => t,
            None => {
                return None;
            },
        }
    };
    let vm = match parse_measurement(lines[3 + k].as_slice()) {
        Some(v) => v,
        None => {
            return None;
        },
    };
    let vs = match parse_setpoint(86, ch, lines[4 + k].as_slice()) {
        Some(v) => v,
        None => {
            return None;
        },
    };
    let im = match parse_measurement(lines[5 + k].as_slice()) {
        Some(v) => v,
        None => {
            return None;
        },
    };
    let is_ = match parse_setpoint(73, ch, lines[6 + k].as_slice()) {
        Some(v) => v,
        None => {
            return None;
        },
    };
    Some(
        Channel {
            index: ch,
            vrange,
            enabled,
            current: Unit { measured: im, set: is_ },
            voltage: Unit { measured: vm, set: vs },
            overvoltage_trip: ovp,
            overcurrent_trip: ocp,
            status: prev_status.union(st),
            voltage_tracking: VoltageTrackingState::from_channel_and_config(ch, &tracking),
        },
    )
}

/// The views of each channel's response lines.
pub open spec fn spec_poll_views(responses: Seq<Vec<Vec<u8>>>) -> Seq<Seq<Seq<u8>>> {
    responses.map_values(|c: Vec<Vec<u8>>| spec_line_views(c@))
}

/// The four channel snapshots one pass yields, or nothing if any response
/// is missing or malformed.  Each channel's sticky status continues from
/// `prev`, the snapshots of the previous pass.
pub open spec fn spec_parse_poll(
    tracking: VoltageTracking,
    prev: Seq<Channel>,
    responses: Seq<Seq<Seq<u8>>>,
) -> Option<Seq<Channel>>
    recommends
        prev.len() == 4,
{
    if responses.len() != 4 {
        None
    } else {
        let c0 = spec_parse_channel(0, tracking, prev[0].status, responses[0]);
        let c1 = spec_parse_channel(1, tracking, prev[1].status, responses[1]);
        let c2 = spec_parse_channel(2, tracking, prev[2].status, responses[2]);
        let c3 = spec_parse_channel(3, tracking, prev[3].status, responses[3]);
        match (c0, c1, c2, c3) {
            (Some(c0), Some(c1), Some(c2), Some(c3)) => Some(seq![c0, c1, c2, c3]),
            _ => None,
        }
    }
}

/// Parse a whole pass: the four channels' response lines against the
/// previous snapshots.
pub fn parse_poll(
    tracking: VoltageTracking,
    prev: &Vec<Channel>,
    responses: &Vec<Vec<Vec<u8>>>,
) -> (r: Option<Vec<Channel>>)
    requires
        prev@.len() == 4,
    ensures
        match r {
            Some(cs) => spec_parse_poll(tracking, prev@, spec_poll_views(responses@)) == Some(cs@),
            None => spec_parse_poll(tracking, prev@, spec_poll_views(responses@)) is None,
        },
{
    if responses.len() != 4 {
        return None;
    }
    let c0 = parse_channel_poll(0, tracking, prev[0].status, &responses[0]);
    let c1 = parse_channel_poll(1, tracking, prev[1].status, &responses[1]);
    let c2 = parse_channel_poll(2, tracking, prev[2].status, &responses[2]);
    let c3 = parse_channel_poll(3, tracking, prev[3].status, &responses[3]);
    match (c0, c1, c2, c3) {
        (Some(c0), Some(c1), Some(c2), Some(c3)) => {
            let mut cs: Vec<Channel> = Vec::new();
            cs.push(c0);
            cs.push(c1);
            cs.push(c2);
            cs.push(c3);
            proof {
                assert(cs@ =~= seq![c0, c1, c2, c3]);
            }
            Some(cs)
        },
        _ => None,
    }
}

} // verus!
