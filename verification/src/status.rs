//! Sticky fault/limit status bits.
//!
//! The supply reports a bit set per channel; observed bits accumulate across
//! polls (bitwise OR) and are cleared only by an explicit trip reset.

use vstd::prelude::*;

verus! {

pub const VOLTAGE_LIMIT: u8 = 1;

pub const CURRENT_LIMIT: u8 = 2;

pub const OVER_VOLTAGE_TRIP: u8 = 4;

pub const OVER_CURRENT_TRIP: u8 = 8;

pub const TEMPERATURE_TRIP: u8 = 16;

pub const FAULT_TRIP: u8 = 64;

/// Every bit the device can report.
pub const STATUS_MASK: u8 = 95;

/// A set of fault/limit indicator bits, one channel's worth.
#[derive(Clone, Copy, PartialEq, Eq, Structural, Debug)]
pub struct LimitEventStatus {
    pub bits: u8,
}

impl LimitEventStatus {
    /// Whether the raw byte uses only bits the device defines.
    pub open spec fn spec_valid_bits(bits: u8) -> bool {
        bits & STATUS_MASK == bits
    }

    /// The empty bit set.
    pub fn empty() -> (r: LimitEventStatus)
        ensures
            r.bits == 0,
    {
        LimitEventStatus { bits: 0 }
    }

    /// Interpret a raw byte; rejected when it carries an undefined bit.
    pub fn from_bits(bits: u8) -> (r: Option<LimitEventStatus>)
        ensures
            r is Some <==> Self::spec_valid_bits(bits),
            r matches Some(s) ==> s.bits == bits,
    {
        if bits & STATUS_MASK == bits {
            Some(LimitEventStatus { bits })
        } else {
            None
        }
    }

    /// The accumulation of this set with a newly reported one.
    pub fn union(self, other: LimitEventStatus) -> (r: LimitEventStatus)
        ensures
            r.bits == self.bits | other.bits,
    {
        LimitEventStatus { bits: self.bits | other.bits }
    }

    /// Whether every bit of `flags` is set.
    pub fn contains(self, flags: u8) -> (r: bool)
        ensures
            r == (self.bits & flags == flags),
    {
        self.bits & flags == flags
    }

    /// Whether no bit is set.
    pub fn is_empty(self) -> (r: bool)
        ensures
            r == (self.bits == 0),
    {
        self.bits == 0
    }
}

/// Accumulated status after merging a sequence of reported bit sets into a
/// starting set, oldest report first.
pub open spec fn spec_accumulate(start: u8, reports: Seq<u8>) -> u8
    decreases reports.len(),
{
    if reports.len() == 0 {
        start
    } else {
        spec_accumulate(start, reports.drop_last()) | reports.last()
    }
}

/// Latching: once a flag is set, no later report can clear it — only an
/// explicit reset does.  Every flag of the starting set, and every flag of
/// any report, is still set after the whole sequence is merged.
pub proof fn lemma_status_is_sticky(start: u8, reports: Seq<u8>, flags: u8)
    requires
        start & flags == flags || exists|i: int|
            0 <= i < reports.len() && #[trigger] (reports[i] & flags) == flags,
    ensures
        spec_accumulate(start, reports) & flags == flags,
    decreases reports.len(),
{
    if reports.len() == 0 {
        assert(start & flags == flags);
    } else {
        let prefix = reports.drop_last();
        let merged = spec_accumulate(start, prefix);
        let last = reports.last();
        if last & flags == flags {
            assert(merged | last == last | merged) by (bit_vector);
            lemma_union_keeps_flags(last, merged, flags);
        } else {
            if start & flags != flags {
                let i = choose|i: int|
                    0 <= i < reports.len() && #[trigger] (reports[i] & flags) == flags;
                assert(i < prefix.len());
                assert(prefix[i] & flags == flags);
            }
            lemma_status_is_sticky(start, prefix, flags);
            lemma_union_keeps_flags(merged, reports.last(), flags);
        }
    }
}

/// Merging more bits never clears one already set.
pub proof fn lemma_union_keeps_flags(a: u8, b: u8, flags: u8)
    requires
        a & flags == flags,
    ensures
        (a | b) & flags == flags,
{
    assert(a & flags == flags ==> (a | b) & flags == flags) by (bit_vector);
}

} // verus!
