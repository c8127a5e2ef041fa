//! Picking the right serial port out of an enumerated list.
//!
//! Port enumeration itself is an outside concern; the core receives the
//! candidate descriptors as plain values and selects the first whose USB
//! vendor id, product id and serial number all match the configuration
//! exactly.

use vstd::prelude::*;

use crate::config::{PowerSupplyConfig, PowerSupplyConfigView};
use crate::text::bytes_eq;

verus! {

/// What is known about one attached serial port.
#[derive(Clone, PartialEq, Eq, Debug)]
pub struct PortInfo {
    pub port_name: String,
    pub vid: u16,
    pub pid: u16,
    pub serial_number: Option<Vec<u8>>,
}

/// Whether a port descriptor matches the configured USB key exactly.
pub open spec fn spec_port_matches(c: PowerSupplyConfigView, p: PortInfo) -> bool {
    &&& p.vid == c.vid
    &&& p.pid == c.pid
    &&& match (c.serial_number, p.serial_number) {
        (Option::None, Option::None) => true,
        (Option::Some(a), Option::Some(b)) => a == b@,
        _ => false,
    }
}

/// Equality of two optional serial numbers.
fn serial_eq(a: &Option<Vec<u8>>, b: &Option<Vec<u8>>) -> (r: bool)
    ensures
        r == match (a, b) {
            (Option::None, Option::None) => true,
            (Option::Some(x), Option::Some(y)) => x@ == y@,
            _ => false,
        },
{
    match (a, b) {
        (None, None) => true,
        (Some(x), Some(y)) => bytes_eq(x.as_slice(), y.as_slice()),
        _ => false,
    }
}

/// The first port in `ports` that matches the configured USB key, if any.
pub fn find_usb(config: &PowerSupplyConfig, ports: &Vec<PortInfo>) -> (r: Option<usize>)
    ensures
        match r {
            Some(i) => {
                &&& i < ports@.len()
                &&& spec_port_matches(config@, ports@[i as int])
                &&& forall|j: int| 0 <= j < i ==> !spec_port_matches(config@, ports@[j])
            },
            None => forall|j: int| 0 <= j < ports@.len() ==> !spec_port_matches(config@, ports@[j]),
        },
{
    let len = ports.len();
    let mut i: usize = 0;
    while i < len
        invariant
            i <= len,
            len == ports@.len(),
            forall|j: int| 0 <= j < i ==> !spec_port_matches(config@, ports@[j]),
        decreases len - i,
    {
        let p = &ports[i];
        if p.vid == config.vid && p.pid == config.pid && serial_eq(
            &config.serial_number,
            &p.serial_number,
        ) {
            return Some(i);
        }
        i = i + 1;
    }
    None
}

} // verus!
