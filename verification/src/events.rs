//! The advertising event delivered to consumers of a scan.
//!
//! An event combines a device identity, a structured advertisement payload,
//! and an optional signal-strength reading.  Ownership of an event transfers
//! fully to the channel when it is sent.

use vstd::prelude::*;
use crate::ids::{DeviceId, Uuid128};

verus! {

/// One manufacturer-specific payload: the company identifier and its bytes.
///
/// An advertisement may carry several such entries; the decoder keeps only
/// the first, a deliberate simplification.
#[derive(Clone, Debug, PartialEq, Eq)]
pub struct ManufacturerData {
    pub company_id: u16,
    pub data: Vec<u8>,
}

/// The structured advertisement payload of one scan callback.
#[derive(Clone, Debug, PartialEq, Eq)]
pub struct AdvertisementData {
    /// Whether the advertisement says the device accepts connections.  Where
    /// the platform cannot report this, the decoder assumes it can.
    pub is_connectable: bool,
    /// The device's advertised name, when present.
    pub local_name: Option<String>,
    /// The first manufacturer-specific entry, when any is present.
    pub manufacturer_data: Option<ManufacturerData>,
    /// Per-service byte payloads, one entry per service identifier.
    pub service_data: Vec<(Uuid128, Vec<u8>)>,
    /// The advertised service identifiers, in the order reported.
    pub services: Vec<Uuid128>,
    /// The advertised transmit power level.
    pub tx_power_level: Option<i16>,
}

impl AdvertisementData {
    /// The per-service payloads carry each service identifier at most once.
    pub open spec fn service_data_keys_unique(self) -> bool {
        forall|i: int, j: int|
            0 <= i < j < self.service_data@.len() ==> self.service_data@[i].0 != self.service_data@[j].0
    }
}

/// One decoded advertising event, as the scan stream yields it.
#[derive(Clone, Debug, PartialEq, Eq)]
pub struct AdvertisingEvent {
    /// The advertising device.
    pub device: DeviceId,
    /// The advertisement payload.
    pub adv_data: AdvertisementData,
    /// The received signal strength, when the platform reports one.
    pub rssi: Option<i16>,
}

} // verus!
