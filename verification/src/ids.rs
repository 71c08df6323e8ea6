//! Identifiers for devices and services.
//!
//! The managed runtime reports a service identifier as a pair of 64-bit
//! halves and a device as its address string; both are held here as plain
//! values so that the rest of the crate can reason about them.

use vstd::prelude::*;

verus! {

/// A 128-bit service identifier, held as its most- and least-significant
/// 64-bit halves, exactly as the managed runtime reports them.
#[derive(Clone, Copy, PartialEq, Eq, Structural, Debug, Hash)]
pub struct Uuid128 {
    pub msb: u64,
    pub lsb: u64,
}

impl Uuid128 {
    /// The identifier as a single 128-bit integer.
    pub open spec fn spec_value(self) -> int {
        self.msb * 0x1_0000_0000_0000_0000 + self.lsb
    }

    /// Builds the identifier from its two 64-bit halves.
    pub fn from_u64_pair(msb: u64, lsb: u64) -> (r: Uuid128)
        ensures
            r.msb == msb,
            r.lsb == lsb,
    {
        Uuid128 { msb, lsb }
    }

    /// The identifier as a single 128-bit integer.
    pub fn value(self) -> (r: u128)
        ensures
            r == self.spec_value(),
    {
        (self.msb as u128) * 0x1_0000_0000_0000_0000u128 + (self.lsb as u128)
    }
}

/// A discovered device's identity: its address as the runtime prints it.
#[derive(Debug, PartialEq, Eq, Hash)]
pub struct DeviceId {
    pub address: String,
}

impl Clone for DeviceId {
    /// A copy that names the same device.
    fn clone(&self) -> (r: DeviceId)
        ensures
            r == *self,
    {
        DeviceId { address: self.address.clone() }
    }
}

impl DeviceId {
    /// Wraps an address string.
    pub fn new(address: String) -> (r: DeviceId)
        ensures
            r.address@ == address@,
    {
        DeviceId { address }
    }
}

} // verus!
