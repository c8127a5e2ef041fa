//! Response-line parsing: one function per response shape the device
//! produces, each pinned to a spec-level reading of the line.
//!
//! A malformed line never panics; it parses to nothing, which the
//! supervisor treats as a recoverable protocol error.

use vstd::prelude::*;

use crate::error::{NotMatchingId, OpenError};
use crate::numbers::{spec_parse_dec, spec_parse_milli, parse_decimal, parse_milli};
use crate::state::VoltageTracking;
use crate::status::LimitEventStatus;
use crate::text::{bytes_eq, copy_range, find_byte, spec_find, spec_trim, trim_copy};
use crate::commands::spec_ch_digit;

verus! {

/// A channel is reported enabled exactly by the line `1`.
pub open spec fn spec_parse_enabled(s: Seq<u8>) -> bool {
    s == seq![49u8]
}

/// Whether the line reports the channel as enabled.
pub fn parse_enabled(line: &[u8]) -> (r: bool)
    ensures
        r == spec_parse_enabled(line@),
{
    let r = line.len() == 1 && line[0] == 49;
    proof {
        if line@.len() == 1 && line@[0] == 49 {
            assert(line@ =~= seq![49u8]);
        }
    }
    r
}

/// The line as a decimal integer no larger than 255.
pub open spec fn spec_parse_u8_dec(s: Seq<u8>) -> Option<u8> {
    match spec_parse_dec(s) {
        Some(v) => if v <= 255 {
            Some(v as u8)
        } else {
            None
        },
        None => None,
    }
}

/// Parse the whole line as a small decimal integer.
pub fn parse_u8_dec(line: &[u8]) -> (r: Option<u8>)
    ensures
        r == spec_parse_u8_dec(line@),
{
    proof {
        assert(line@.subrange(0, line@.len() as int) =~= line@);
    }
    match parse_decimal(line, 0, line.len()) {
        Some(v) => if v <= 255 {
            Some(v as u8)
        } else {
            None
        },
        None => None,
    }
}

/// The status latch a line reports: a small decimal integer using only
/// defined bits.
pub open spec fn spec_parse_status(s: Seq<u8>) -> Option<LimitEventStatus> {
    match spec_parse_u8_dec(s) {
        Some(b) => if LimitEventStatus::spec_valid_bits(b) {
            Some(LimitEventStatus { bits: b })
        } else {
            None
        },
        None => None,
    }
}

/// Parse a status-latch response.
pub fn parse_status(line: &[u8]) -> (r: Option<LimitEventStatus>)
    ensures
        r == spec_parse_status(line@),
{
    match parse_u8_dec(line) {
        Some(b) => LimitEventStatus::from_bits(b),
        None => None,
    }
}

/// The tracking mode a line reports: a decimal integer from 0 to 3.
pub open spec fn spec_parse_tracking(s: Seq<u8>) -> Option<VoltageTracking> {
    match spec_parse_u8_dec(s) {
        Some(v) => VoltageTracking::spec_from_u8(v),
        None => None,
    }
}

/// Parse a tracking-mode response.
pub fn parse_tracking(line: &[u8]) -> (r: Option<VoltageTracking>)
    ensures
        r == spec_parse_tracking(line@),
{
    match parse_u8_dec(line) {
        Some(v) => VoltageTracking::from_u8(v),
        None => None,
    }
}

/// A trip-threshold response: a label, one space, then `OFF` or the
/// threshold value.  The outer `None` is a malformed line; the inner
/// `None` means the protection is off.
pub open spec fn spec_parse_trip(s: Seq<u8>) -> Option<Option<u32>> {
    let sp = spec_find(s, 32, 0);
    if sp == -1 {
        None
    } else {
        let tail = s.subrange(sp + 1, s.len() as int);
        if tail == seq![79u8, 70u8, 70u8] {
            Some(None)
        } else {
            match spec_parse_milli(tail) {
                Some(v) => Some(Some(v)),
                None => None,
            }
        }
    }
}

/// Parse a trip-threshold response.
pub fn parse_trip(line: &[u8]) -> (r: Option<Option<u32>>)
    ensures
        r == spec_parse_trip(line@),
{
    match find_byte(line, 32, 0) {
        None => None,
        Some(sp) => {
            let len = line.len();
            let ghost tail = line@.subrange(sp + 1, len as int);
            if len - sp - 1 == 3 && line[sp + 1] == 79 && line[sp + 2] == 70 && line[sp + 3] == 70 {
                proof {
                    assert(tail =~= seq![79u8, 70u8, 70u8]);
                }
                Some(None)
            } else {
                proof {
                    if tail == seq![79u8, 70u8, 70u8] {
                        assert(tail.len() == 3);
                        assert(line@[sp + 1] == 79 && line@[sp + 2] == 70 && line@[sp + 3] == 70);
                    }
                }
                match parse_milli(line, sp + 1, len) {
                    Some(v) => Some(Some(v)),
                    None => None,
                }
            }
        },
    }
}

/// A measured-value response: the reading followed by one unit-suffix
/// character, which is dropped before the fixed-point value is read.
pub open spec fn spec_parse_measurement(s: Seq<u8>) -> Option<u32> {
    if s.len() == 0 {
        None
    } else {
        spec_parse_milli(s.drop_last())
    }
}

/// Parse a measured-value response.
pub fn parse_measurement(line: &[u8]) -> (r: Option<u32>)
    ensures
        r == spec_parse_measurement(line@),
{
    let len = line.len();
    if len == 0 {
        None
    } else {
        proof {
            assert(line@.subrange(0, len - 1) =~= line@.drop_last());
        }
        parse_milli(line, 0, len - 1)
    }
}

/// A set-point response: the echoed token `{unit}{ch}`, one space, then
/// the value up to the next space, if any.
pub open spec fn spec_parse_setpoint(unit: u8, ch: int, s: Seq<u8>) -> Option<u32> {
    let sp = spec_find(s, 32, 0);
    if sp != 2 {
        None
    } else if s[0] == unit && s[1] == spec_ch_digit(ch) {
        let sp2 = spec_find(s, 32, 3);
        let end = if sp2 == -1 {
            s.len() as int
        } else {
            sp2
        };
        spec_parse_milli(s.subrange(3, end))
    } else {
        None
    }
}

/// Parse a set-point response for channel `ch` of unit `unit` (the `V` or
/// `I` command letter).
pub fn parse_setpoint(unit: u8, ch: u8, line: &[u8]) -> (r: Option<u32>)
    requires
        ch < 4,
    ensures
        r == spec_parse_setpoint(unit, ch as int, line@),
{
    let len = line.len();
    match find_byte(line, 32, 0) {
        None => None,
        Some(sp) => {
            if sp != 2 {
                None
            } else if line[0] == unit && line[1] == 49 + ch {
                let end = match find_byte(line, 32, 3) {
                    None => len,
                    Some(sp2) => sp2,
                };
                parse_milli(line, 3, end)
            } else {
                None
            }
        },
    }
}

/// The third comma-separated field of an identify response, when the
/// response has one (a trailing empty field does not count).
pub open spec fn spec_third_field(s: Seq<u8>) -> Option<Seq<u8>> {
    let c1 = spec_find(s, 44, 0);
    if c1 == -1 {
        None
    } else {
        let c2 = spec_find(s, 44, c1 + 1);
        if c2 == -1 {
            None
        } else {
            let c3 = spec_find(s, 44, c2 + 1);
            if c3 != -1 {
                Some(s.subrange(c2 + 1, c3))
            } else if c2 + 1 < s.len() {
                Some(s.subrange(c2 + 1, s.len() as int))
            } else {
                None
            }
        }
    }
}

/// Check an identify response against the configured identity string: the
/// third comma field, trimmed, must equal it.  A response without a third
/// field is malformed; a mismatch reports both strings.
pub fn check_identity(configured: &[u8], line: &[u8]) -> (r: Result<(), OpenError>)
    ensures
        match spec_third_field(line@) {
            None => r matches Err(e) && e == OpenError::ProtocolError,
            Some(f) => if spec_trim(f) == configured@ {
                r is Ok
            } else {
                r matches Err(e) && e matches OpenError::IdNotMatch(n) && n.configured@
                    == configured@ && n.device@ == spec_trim(f)
            },
        },
{
    let len = line.len();
    let c1 = match find_byte(line, 44, 0) {
        None => {
            return Err(OpenError::ProtocolError);
        },
        Some(i) => i,
    };
    let c2 = match find_byte(line, 44, c1 + 1) {
        None => {
            return Err(OpenError::ProtocolError);
        },
        Some(i) => i,
    };
    let field_end = match find_byte(line, 44, c2 + 1) {
        None => {
            if c2 + 1 >= len {
                return Err(OpenError::ProtocolError);
            }
            len
        },
        Some(c3) => c3,
    };
    let field = copy_range(line, c2 + 1, field_end);
    let device = trim_copy(field.as_slice());
    if bytes_eq(device.as_slice(), configured) {
        Ok(())
    } else {
        let configured_copy = copy_range(configured, 0, configured.len());
        proof {
            assert(configured@.subrange(0, configured@.len() as int) =~= configured@);
        }
        Err(
            OpenError::IdNotMatch(
                NotMatchingId { configured: configured_copy, device },
            ),
        )
    }
}

} // verus!
