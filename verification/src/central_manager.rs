//! Decisions of the central (client) mode: setting up, scanning, and turning
//! the adapter's events into reports for the host while keeping the caches.

use vstd::prelude::*;
use vstd::string::*;
use crate::central_manager_state::{cache_rssi, RssiCache, ServiceCache, recorded, RssiReading};
use crate::central_manager_utils::{copy_texts, texts, PeripheralPropertiesInfo};
use crate::text::{concat, decimal_digits, decimal_string_u64};

verus! {

/// What the adapter reports, with identifiers and UUIDs printed.
pub enum CentralEventInfo {
    DeviceDiscovered(String),
    DeviceUpdated(String),
    DeviceConnected(String),
    DeviceDisconnected(String),
    ManufacturerDataAdvertisement { id: String, manufacturer_data: Vec<(u16, Vec<u8>)> },
    ServiceDataAdvertisement { id: String, service_data: Vec<(String, Vec<u8>)> },
    ServicesAdvertisement { id: String, services: Vec<String> },
    /// The adapter's state changed; its new state, printed.
    StateUpdate(String),
}

/// What the central reports to the host process.
#[derive(Debug)]
pub enum CentralMessage {
    /// A device was discovered; its id.
    PeripheralDiscovered(String),
    /// A known device was updated; its id.
    PeripheralUpdated(String),
    PeripheralConnected(String),
    PeripheralDisconnected(String),
    AdapterStatusUpdate(String),
    ManufacturerDataAdvertisement(String, Vec<(u16, Vec<u8>)>),
    ServiceDataAdvertisement(String, Vec<(String, Vec<u8>)>),
    ServicesAdvertisement(String, Vec<String>),
    ScanStarted(String),
    ScanStopped(String),
}

/// Picks the adapter to use: the first one; an error when there is none.
pub fn select_adapter<T>(adapters: Vec<T>) -> (r: Result<T, String>)
    ensures
        adapters@.len() == 0 ==> (r matches Err(e) && e@ == "No available adapter"@),
        adapters@.len() > 0 ==> r == Ok::<T, String>(adapters@[0]),
{
    let mut adapters = adapters;
    if adapters.len() == 0 {
        return Err(crate::text::owned("No available adapter"));
    }
    Ok(adapters.remove(0))
}

/// The error for a manager that could not be created.
pub fn manager_error(error: &str) -> (r: String)
    ensures
        r@ == "Manager error: "@ + error@,
{
    concat("Manager error: ", error)
}

/// The error for adapters that could not be listed.
pub fn adapter_error(error: &str) -> (r: String)
    ensures
        r@ == "Adapter error: "@ + error@,
{
    concat("Adapter error: ", error)
}

/// The report that a scan of `duration_ms` milliseconds started.
pub fn scan_started_message(duration_ms: u64) -> (m: CentralMessage)
    ensures
        m matches CentralMessage::ScanStarted(t) && t@ == "Scan started: "@ + decimal_digits(duration_ms as nat) + " ms"@,
{
    let mut t = crate::text::owned("Scan started: ");
    t.append(decimal_string_u64(duration_ms).as_str());
    t.append(" ms");
    CentralMessage::ScanStarted(t)
}

/// The report that a scan ended after its `duration_ms` milliseconds.
pub fn scan_stopped_message(duration_ms: u64) -> (m: CentralMessage)
    ensures
        m matches CentralMessage::ScanStopped(t) && t@ == "Scan stopped after timeout: "@ + decimal_digits(duration_ms as nat) + " ms"@,
{
    let mut t = crate::text::owned("Scan stopped after timeout: ");
    t.append(decimal_string_u64(duration_ms).as_str());
    t.append(" ms");
    CentralMessage::ScanStopped(t)
}

/// For discovery and update events, the peripheral to look up and whether
/// its services are to be discovered first (only for a new device).
pub fn device_lookup(event: &CentralEventInfo) -> (r: Option<(String, bool)>)
    ensures
        match *event {
            CentralEventInfo::DeviceDiscovered(id) => r matches Some((i, d)) && i@ == id@ && d,
            CentralEventInfo::DeviceUpdated(id) => r matches Some((i, d)) && i@ == id@ && !d,
            _ => r.is_none(),
        },
{
    match event {
        CentralEventInfo::DeviceDiscovered(id) => Some((id.clone(), true)),
        CentralEventInfo::DeviceUpdated(id) => Some((id.clone(), false)),
        _ => None,
    }
}

/// The report about a discovered (`discovered`) or updated device `id`,
/// whose properties were fetched at `timestamp`: the signal strength, when
/// known, is recorded; the report carries the device's id.
pub fn device_report(
    cache: &mut RssiCache,
    discovered: bool,
    id: String,
    properties: Option<PeripheralPropertiesInfo>,
    timestamp: i64,
) -> (m: CentralMessage)
    ensures
        match properties {
            Some(p) => match p.rssi {
                Some(rssi) => final(cache).histories() == old(cache).histories().insert(
                    id@,
                    recorded(
                        if old(cache).histories().contains_key(id@) { old(cache).histories()[id@] } else { Seq::<RssiReading>::empty() },
                        (timestamp, rssi),
                    ),
                ),
                None => final(cache).histories() == old(cache).histories(),
            },
            None => final(cache).histories() == old(cache).histories(),
        },
        discovered ==> m == CentralMessage::PeripheralDiscovered(id),
        !discovered ==> m == CentralMessage::PeripheralUpdated(id),
{
    match &properties {
        Some(p) => match p.rssi {
            Some(rssi) => cache_rssi(cache, id.as_str(), timestamp, rssi),
            None => {},
        },
        None => {},
    }
    if discovered {
        CentralMessage::PeripheralDiscovered(id)
    } else {
        CentralMessage::PeripheralUpdated(id)
    }
}

/// The report for an adapter event that needs no lookup; advertised service
/// lists are also remembered per device. Discovery and update events are
/// reported through [`device_report`] instead.
pub fn central_event_message(services: &mut ServiceCache, event: CentralEventInfo) -> (m: Option<CentralMessage>)
    ensures
        match event {
            CentralEventInfo::DeviceDiscovered(_) => m.is_none() && final(services).map() == old(services).map(),
            CentralEventInfo::DeviceUpdated(_) => m.is_none() && final(services).map() == old(services).map(),
            CentralEventInfo::DeviceConnected(id) => m == Some(CentralMessage::PeripheralConnected(id))
                && final(services).map() == old(services).map(),
            CentralEventInfo::DeviceDisconnected(id) => m == Some(CentralMessage::PeripheralDisconnected(id))
                && final(services).map() == old(services).map(),
            CentralEventInfo::StateUpdate(state) => m == Some(CentralMessage::AdapterStatusUpdate(state))
                && final(services).map() == old(services).map(),
            CentralEventInfo::ManufacturerDataAdvertisement { id, manufacturer_data } =>
                m == Some(CentralMessage::ManufacturerDataAdvertisement(id, manufacturer_data))
                && final(services).map() == old(services).map(),
            CentralEventInfo::ServiceDataAdvertisement { id, service_data } =>
                m == Some(CentralMessage::ServiceDataAdvertisement(id, service_data))
                && final(services).map() == old(services).map(),
            CentralEventInfo::ServicesAdvertisement { id, services: list } => {
                &&& m matches Some(CentralMessage::ServicesAdvertisement(i, l)) && i == id && l == list
                &&& final(services).map().dom() == old(services).map().dom().insert(id@)
                &&& texts(final(services).map()[id@]@) == texts(list@)
                &&& forall|k: Seq<char>| k != id@ && #[trigger] old(services).map().contains_key(k)
                    ==> final(services).map()[k] == old(services).map()[k]
            },
        },
{
    match event {
        CentralEventInfo::DeviceDiscovered(_) => None,
        CentralEventInfo::DeviceUpdated(_) => None,
        CentralEventInfo::DeviceConnected(id) => Some(CentralMessage::PeripheralConnected(id)),
        CentralEventInfo::DeviceDisconnected(id) => Some(CentralMessage::PeripheralDisconnected(id)),
        CentralEventInfo::StateUpdate(state) => Some(CentralMessage::AdapterStatusUpdate(state)),
        CentralEventInfo::ManufacturerDataAdvertisement { id, manufacturer_data } =>
            Some(CentralMessage::ManufacturerDataAdvertisement(id, manufacturer_data)),
        CentralEventInfo::ServiceDataAdvertisement { id, service_data } =>
            Some(CentralMessage::ServiceDataAdvertisement(id, service_data)),
        CentralEventInfo::ServicesAdvertisement { id, services: list } => {
            services.insert(id.clone(), copy_texts(&list));
            Some(CentralMessage::ServicesAdvertisement(id, list))
        },
    }
}

} // verus!
