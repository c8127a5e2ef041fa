//! Per-channel range capability tables and the automatic range selector.
//!
//! Every channel of the supply offers three selectable ranges (indices 1..=3;
//! index 0 means "no valid range"), each with a voltage capacity and a
//! current capacity.  Channels 0 and 1 share one capability table, channels
//! 2 and 3 another.  All quantities are held in millivolts and milliamps.

use vstd::prelude::*;

verus! {

/// Voltage and current capacity of one selectable range, in millivolts
/// and milliamps.
#[derive(Clone, Copy, PartialEq, Eq, Structural, Debug)]
pub struct VRange {
    pub voltage_mv: u32,
    pub current_ma: u32,
}

/// The capability table entry for range `idx` of channel `ch`.
pub open spec fn spec_range_table(ch: int, idx: int) -> VRange {
    if ch < 2 {
        if idx == 1 {
            VRange { voltage_mv: 35000, current_ma: 3000 }
        } else if idx == 2 {
            VRange { voltage_mv: 16000, current_ma: 6000 }
        } else if idx == 3 {
            VRange { voltage_mv: 35000, current_ma: 6000 }
        } else {
            VRange { voltage_mv: 0, current_ma: 0 }
        }
    } else {
        if idx == 1 {
            VRange { voltage_mv: 35000, current_ma: 3000 }
        } else if idx == 2 {
            VRange { voltage_mv: 70000, current_ma: 1500 }
        } else if idx == 3 {
            VRange { voltage_mv: 70000, current_ma: 3000 }
        } else {
            VRange { voltage_mv: 0, current_ma: 0 }
        }
    }
}

/// Whether range `idx` of channel `ch` can carry the requested voltage and
/// current.
pub open spec fn spec_range_fits(ch: int, idx: int, voltage_mv: int, current_ma: int) -> bool {
    voltage_mv <= spec_range_table(ch, idx).voltage_mv
        && current_ma <= spec_range_table(ch, idx).current_ma
}

/// The capability table entry for range `idx` of channel `ch`.
pub fn vrange_entry(ch: u8, idx: u8) -> (r: VRange)
    requires
        ch < 4,
        idx < 4,
    ensures
        r == spec_range_table(ch as int, idx as int),
{
    if ch < 2 {
        if idx == 1 {
            VRange { voltage_mv: 35000, current_ma: 3000 }
        } else if idx == 2 {
            VRange { voltage_mv: 16000, current_ma: 6000 }
        } else if idx == 3 {
            VRange { voltage_mv: 35000, current_ma: 6000 }
        } else {
            VRange { voltage_mv: 0, current_ma: 0 }
        }
    } else {
        if idx == 1 {
            VRange { voltage_mv: 35000, current_ma: 3000 }
        } else if idx == 2 {
            VRange { voltage_mv: 70000, current_ma: 1500 }
        } else if idx == 3 {
            VRange { voltage_mv: 70000, current_ma: 3000 }
        } else {
            VRange { voltage_mv: 0, current_ma: 0 }
        }
    }
}

/// The best fitting range with index at least `i`: the lowest voltage
/// capacity wins, ties going to the lowest index.
pub open spec fn spec_best_from(ch: int, voltage_mv: int, current_ma: int, i: int) -> Option<u8>
    decreases 4 - i,
{
    if i < 1 || i >= 4 {
        None
    } else {
        let rest = spec_best_from(ch, voltage_mv, current_ma, i + 1);
        if !spec_range_fits(ch, i, voltage_mv, current_ma) {
            rest
        } else {
            match rest {
                None => Some(i as u8),
                Some(j) => if spec_range_table(ch, j as int).voltage_mv < spec_range_table(
                    ch,
                    i,
                ).voltage_mv {
                    Some(j)
                } else {
                    Some(i as u8)
                },
            }
        }
    }
}

/// The range the automatic selector picks for channel `ch`.
pub open spec fn spec_auto_vrange(ch: int, voltage_mv: int, current_ma: int) -> Option<u8> {
    spec_best_from(ch, voltage_mv, current_ma, 1)
}

/// What the selector's choice means: the chosen index fits, no fitting
/// index has a smaller voltage capacity, and among equal capacities the
/// lowest index wins; when nothing is returned, nothing fits.
pub proof fn lemma_best_from_props(ch: int, voltage_mv: int, current_ma: int, i: int)
    requires
        1 <= i <= 4,
    ensures
        match spec_best_from(ch, voltage_mv, current_ma, i) {
            Some(b) => {
                &&& i <= b < 4
                &&& spec_range_fits(ch, b as int, voltage_mv, current_ma)
                &&& forall|j: int|
                    i <= j < 4 && spec_range_fits(ch, j, voltage_mv, current_ma)
                        ==> spec_range_table(ch, b as int).voltage_mv <= spec_range_table(
                        ch,
                        j,
                    ).voltage_mv
                &&& forall|j: int|
                    i <= j < 4 && spec_range_fits(ch, j, voltage_mv, current_ma)
                        && spec_range_table(ch, j).voltage_mv == spec_range_table(
                        ch,
                        b as int,
                    ).voltage_mv ==> b <= j
            },
            None => forall|j: int| i <= j < 4 ==> !spec_range_fits(ch, j, voltage_mv, current_ma),
        },
    decreases 4 - i,
{
    if i < 4 {
        lemma_best_from_props(ch, voltage_mv, current_ma, i + 1);
    }
}

/// Select the range for channel `ch` that carries `voltage_mv` and
/// `current_ma`: among the ranges with index 1..=3 whose capacities cover
/// both requests, the one with the lowest voltage capacity wins, ties going
/// to the lowest index.  `None` when no range qualifies.  Index 0, the
/// "no valid range" entry, is never returned.
pub fn auto_vrange(ch: u8, voltage_mv: u32, current_ma: u32) -> (r: Option<u8>)
    requires
        ch < 4,
    ensures
        r == spec_auto_vrange(ch as int, voltage_mv as int, current_ma as int),
        match r {
            Some(i) => {
                &&& 1 <= i < 4
                &&& spec_range_fits(ch as int, i as int, voltage_mv as int, current_ma as int)
                &&& forall|j: int|
                    1 <= j < 4 && spec_range_fits(ch as int, j, voltage_mv as int, current_ma as int)
                        ==> spec_range_table(ch as int, i as int).voltage_mv
                            <= spec_range_table(ch as int, j).voltage_mv
                &&& forall|j: int|
                    1 <= j < 4 && spec_range_fits(ch as int, j, voltage_mv as int, current_ma as int)
                        && spec_range_table(ch as int, j).voltage_mv
                            == spec_range_table(ch as int, i as int).voltage_mv ==> i <= j
            },
            None => forall|j: int|
                1 <= j < 4 ==> !spec_range_fits(ch as int, j, voltage_mv as int, current_ma as int),
        },
{
    proof {
        lemma_best_from_props(ch as int, voltage_mv as int, current_ma as int, 1);
    }
    best_from(ch, voltage_mv, current_ma, 1)
}

/// Walk the table from index `i` upward, keeping the best fit seen.
fn best_from(ch: u8, voltage_mv: u32, current_ma: u32, i: u8) -> (r: Option<u8>)
    requires
        ch < 4,
        1 <= i <= 4,
    ensures
        r == spec_best_from(ch as int, voltage_mv as int, current_ma as int, i as int),
    decreases 4 - i,
{
    if i >= 4 {
        None
    } else {
        let rest = best_from(ch, voltage_mv, current_ma, i + 1);
        proof {
            lemma_best_from_props(ch as int, voltage_mv as int, current_ma as int, i as int + 1);
        }
        let entry = vrange_entry(ch, i);
        if voltage_mv <= entry.voltage_mv && current_ma <= entry.current_ma {
            match rest {
                None => Some(i),
                Some(j) => {
                    let other = vrange_entry(ch, j);
                    if other.voltage_mv < entry.voltage_mv {
                        Some(j)
                    } else {
                        Some(i)
                    }
                },
            }
        } else {
            rest
        }
    }
}

} // verus!
