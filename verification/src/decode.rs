//! Decoding one scan callback's raw arguments into an advertising event.
//!
//! The glue layer that receives the callback reads every field out of the
//! managed objects into a [`RawScanResult`] of plain values; everything the
//! decoder decides is verified here.  A callback whose required fields are
//! missing yields an error and is dropped by the caller; it never terminates
//! the stream.

use vstd::prelude::*;
use crate::events::{AdvertisementData, AdvertisingEvent, ManufacturerData};
use crate::ids::{DeviceId, Uuid128};

verus! {

/// One manufacturer-specific entry as the platform reports it: a raw
/// company identifier and the payload bytes.
#[derive(Clone, Debug)]
pub struct RawManufacturerEntry {
    pub company_id: i32,
    pub data: Vec<u8>,
}

/// The advertisement record attached to a scan callback, read field by
/// field into plain values.  `None` stands for a field the platform left
/// null.
#[derive(Clone, Debug)]
pub struct RawScanRecord {
    /// The advertised device name, when present.
    pub device_name: Option<String>,
    /// The advertised transmit power level.
    pub tx_power_level: i32,
    /// The advertised service identifiers; the whole list may be absent.
    pub service_uuids: Option<Vec<Uuid128>>,
    /// Per-service payloads in the record's iteration order; one service
    /// identifier may occur more than once.
    pub service_data: Vec<(Uuid128, Vec<u8>)>,
    /// Manufacturer-specific entries in the record's index order.
    pub manufacturer_data: Vec<RawManufacturerEntry>,
}

/// The raw arguments of one scan callback.
#[derive(Clone, Debug)]
pub struct RawScanResult {
    /// The callback type the runtime passed alongside the result.
    pub callback_type: i32,
    /// The device's address, when the device and its address were non-null.
    pub device_address: Option<String>,
    /// The received signal strength.
    pub rssi: i32,
    /// Whether the device is connectable, where the platform reports it;
    /// `None` on platform versions that cannot.
    pub connectable: Option<bool>,
    /// The advertisement record, when non-null.
    pub scan_record: Option<RawScanRecord>,
}

/// Why a scan callback could not be decoded.
#[derive(Clone, Copy, Debug, PartialEq, Eq, Structural)]
pub enum DecodeError {
    /// The callback carried no advertisement record.
    MissingScanRecord,
    /// The callback carried no device, or a device without an address.
    MissingDeviceAddress,
}

/// A raw result that decoding rejects: a required field is missing.
pub open spec fn spec_malformed(raw: RawScanResult) -> bool {
    raw.scan_record is None || raw.device_address is None
}

/// The error reported for a malformed raw result.
pub open spec fn spec_missing_field(raw: RawScanResult) -> DecodeError {
    if raw.scan_record is None {
        DecodeError::MissingScanRecord
    } else {
        DecodeError::MissingDeviceAddress
    }
}

/// The per-service payload map described by a raw entry list: later entries
/// for the same service identifier replace earlier ones.
pub open spec fn entries_map(s: Seq<(Uuid128, Vec<u8>)>) -> Map<Uuid128, Seq<u8>>
    decreases s.len(),
{
    if s.len() == 0 {
        Map::empty()
    } else {
        entries_map(s.drop_last()).insert(s.last().0, s.last().1@)
    }
}

/// Keys occur at most once in the entry list.
pub open spec fn keys_unique(s: Seq<(Uuid128, Vec<u8>)>) -> bool {
    forall|i: int, j: int| 0 <= i < j < s.len() ==> s[i].0 != s[j].0
}

/// Overwriting the entry at `j` with a pair under the same key changes the
/// described map the same way an insert does.
proof fn lemma_entries_map_update(s: Seq<(Uuid128, Vec<u8>)>, j: int, e: (Uuid128, Vec<u8>))
    requires
        keys_unique(s),
        0 <= j < s.len(),
        s[j].0 == e.0,
    ensures
        entries_map(s.update(j, e)) =~= entries_map(s).insert(e.0, e.1@),
    decreases s.len(),
{
    let t = s.update(j, e);
    if j == s.len() - 1 {
        assert(t.drop_last() =~= s.drop_last());
    } else {
        assert(t.drop_last() =~= s.drop_last().update(j, e));
        assert(s.last().0 != e.0);
        lemma_entries_map_update(s.drop_last(), j, e);
    }
}

/// Collapses a raw per-service entry list into one entry per service
/// identifier, later entries replacing earlier ones.
fn dedup_service_data(entries: &Vec<(Uuid128, Vec<u8>)>) -> (out: Vec<(Uuid128, Vec<u8>)>)
    ensures
        keys_unique(out@),
        entries_map(out@) == entries_map(entries@),
{
    let mut out: Vec<(Uuid128, Vec<u8>)> = Vec::new();
    let mut idx: usize = 0;
    while idx < entries.len()
        invariant
            idx <= entries.len(),
            keys_unique(out@),
            entries_map(out@) == entries_map(entries@.take(idx as int)),
        decreases entries.len() - idx,
    {
        let key = entries[idx].0;
        let value = entries[idx].1.clone();
        assert(value@ == entries@[idx as int].1@);
        let mut j: usize = 0;
        let mut found = false;
        while j < out.len() && !found
            invariant
                j <= out.len(),
                found ==> j < out@.len() && out@[j as int].0 == key,
                !found ==> forall|i: int| 0 <= i < j ==> out@[i].0 != key,
            decreases out.len() - j, (if found { 0int } else { 1int }),
        {
            if out[j].0 == key {
                found = true;
            } else {
                j = j + 1;
            }
        }
        proof {
            assert(entries@.take(idx as int + 1).drop_last() =~= entries@.take(idx as int));
            assert(entries@.take(idx as int + 1).last() == entries@[idx as int]);
        }
        let ghost prev = out@;
        if found {
            proof {
                lemma_entries_map_update(out@, j as int, (key, value));
            }
            out.set(j, (key, value));
            assert(forall|i: int| 0 <= i < out@.len() ==> out@[i].0 == prev[i].0);
            assert(entries_map(out@) == entries_map(prev).insert(key, value@));
        } else {
            out.push((key, value));
            proof {
                assert(out@.drop_last() =~= prev);
                assert(out@.last() == (key, value));
                assert(entries_map(out@) == entries_map(prev).insert(key, value@));
            }
        }
        idx = idx + 1;
    }
    proof {
        assert(entries@.take(entries@.len() as int) =~= entries@);
    }
    out
}

/// Decodes one scan callback's raw arguments into an advertising event.
///
/// Fails exactly when a required field is missing: the advertisement record,
/// or the device address.  On success the event carries the address, the
/// signal strength, the connectable flag (assumed true where the platform
/// cannot report it), the advertised name, power level and services, the
/// per-service payloads collapsed to one entry per service, and the first
/// manufacturer-specific entry with its company identifier narrowed to
/// 16 bits.
pub fn decode_scan_result(raw: RawScanResult) -> (r: Result<AdvertisingEvent, DecodeError>)
    ensures
        r is Err <==> spec_malformed(raw),
        r is Err ==> r == Result::<AdvertisingEvent, DecodeError>::Err(spec_missing_field(raw)),
        r matches Ok(ev) ==> {
            let record = raw.scan_record->0;
            &&& ev.device.address@ == raw.device_address->0@
            &&& ev.rssi == Some(raw.rssi as i16)
            &&& ev.adv_data.is_connectable == (match raw.connectable {
                Some(c) => c,
                None => true,
            })
            &&& ev.adv_data.local_name == record.device_name
            &&& ev.adv_data.tx_power_level == Some(record.tx_power_level as i16)
            &&& ev.adv_data.services@ == (match record.service_uuids {
                Some(v) => v@,
                None => Seq::<Uuid128>::empty(),
            })
            &&& ev.adv_data.service_data_keys_unique()
            &&& entries_map(ev.adv_data.service_data@) == entries_map(record.service_data@)
            &&& (record.manufacturer_data@.len() == 0 ==> ev.adv_data.manufacturer_data is None)
            &&& (record.manufacturer_data@.len() > 0 ==> (ev.adv_data.manufacturer_data matches Some(m)
                && m.company_id == record.manufacturer_data@[0].company_id as u16
                && m.data@ == record.manufacturer_data@[0].data@))
        },
{
    let record = match raw.scan_record {
        Some(record) => record,
        None => {
            return Err(DecodeError::MissingScanRecord);
        },
    };
    let address = match raw.device_address {
        Some(address) => address,
        None => {
            return Err(DecodeError::MissingDeviceAddress);
        },
    };
    let is_connectable = match raw.connectable {
        Some(c) => c,
        None => true,
    };
    let services = match record.service_uuids {
        Some(v) => v,
        None => Vec::new(),
    };
    let service_data = dedup_service_data(&record.service_data);
    let manufacturer_data = if record.manufacturer_data.len() > 0 {
        Some(ManufacturerData {
            company_id: #[verifier::truncate] (record.manufacturer_data[0].company_id as u16),
            data: record.manufacturer_data[0].data.clone(),
        })
    } else {
        None
    };
    Ok(AdvertisingEvent {
        device: DeviceId::new(address),
        adv_data: AdvertisementData {
            is_connectable,
            local_name: record.device_name,
            manufacturer_data,
            service_data,
            services,
            tx_power_level: Some(#[verifier::truncate] (record.tx_power_level as i16)),
        },
        rssi: Some(#[verifier::truncate] (raw.rssi as i16)),
    })
}

} // verus!
