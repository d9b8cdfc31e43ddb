//! Internet addresses.

use vstd::prelude::*;

verus! {

/// An IP address, version 4 or 6, as its octets in network order.
#[derive(Clone, Copy, Debug, PartialEq, Eq)]
pub enum IpAddress {
    V4([u8; 4]),
    V6([u8; 16]),
}

} // verus!
