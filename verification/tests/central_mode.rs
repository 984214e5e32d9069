use btleplug_client::central_manager::{
    adapter_error, central_event_message, device_lookup, device_report, manager_error,
    scan_started_message, scan_stopped_message, select_adapter, CentralEventInfo, CentralMessage,
};
use btleplug_client::central_manager_finder::{
    cached_peripheral, position_by_id, position_by_name, remember_peripheral, search_error,
    select_peripheral_by_name, select_peripheral_by_uuid, PeripheralListing,
};
use btleplug_client::central_manager_state::{
    cache_rssi, get_peripheral_rssi_cache, KeyedStore, RssiCache, ServiceCache, RSSI_HISTORY_LIMIT,
};
use btleplug_client::central_manager_utils::{
    get_characteristic_properties, properties_to_map, PeripheralPropertiesInfo, NOTIFY, READ, WRITE,
    BROADCAST, EXTENDED_PROPERTIES, AUTHENTICATED_SIGNED_WRITES, WRITE_WITHOUT_RESPONSE, INDICATE,
};

fn props(rssi: Option<i16>) -> PeripheralPropertiesInfo {
    PeripheralPropertiesInfo {
        address: "AA:BB:CC:DD:EE:FF".to_string(),
        address_type: None,
        local_name: None,
        tx_power_level: None,
        rssi,
        manufacturer_data: vec![(76, vec![2, 21])],
        service_data: vec![("0000180f-0000-1000-8000-00805f9b34fb".to_string(), vec![90])],
        services: vec!["0000180d-0000-1000-8000-00805f9b34fb".to_string()],
    }
}

#[test]
fn rssi_history_keeps_the_last_ten() {
    let mut cache = RssiCache::new();
    assert!(get_peripheral_rssi_cache(&cache, "dev").is_none());
    for i in 0..12i64 {
        cache_rssi(&mut cache, "dev", 1000 + i, -(i as i16));
    }
    let h = get_peripheral_rssi_cache(&cache, "dev").unwrap();
    assert_eq!(h.len(), RSSI_HISTORY_LIMIT);
    assert_eq!(h[0], (1002, -2));
    assert_eq!(*h.last().unwrap(), (1011, -11));
    assert!(get_peripheral_rssi_cache(&cache, "other").is_none());
}

#[test]
fn rssi_history_below_limit_keeps_all() {
    let mut cache = RssiCache::new();
    cache_rssi(&mut cache, "a", 1, -40);
    cache_rssi(&mut cache, "b", 2, -50);
    cache_rssi(&mut cache, "a", 3, -41);
    assert_eq!(get_peripheral_rssi_cache(&cache, "a").unwrap(), vec![(1, -40), (3, -41)]);
    assert_eq!(get_peripheral_rssi_cache(&cache, "b").unwrap(), vec![(2, -50)]);
}

#[test]
fn keyed_store_reads_what_was_written() {
    let mut store: KeyedStore<u32> = KeyedStore::new();
    assert!(store.get("k").is_none());
    store.insert("k".to_string(), 1);
    store.insert("j".to_string(), 2);
    store.insert("k".to_string(), 3);
    assert_eq!(store.get("k"), Some(&3));
    assert_eq!(store.get("j"), Some(&2));
    assert!(store.contains_key("j"));
    assert!(!store.contains_key("x"));
}

#[test]
fn property_names_of_characteristics() {
    assert_eq!(get_characteristic_properties(READ | WRITE | NOTIFY), vec!["Read", "Write", "Notify"]);
    assert_eq!(
        get_characteristic_properties(0xFF),
        vec![
            "Read", "Write", "Write Without Response", "Notify", "Indicate", "Broadcast",
            "Extended Properties", "Authenticated Signed Writes"
        ]
    );
    assert!(get_characteristic_properties(0).is_empty());
    assert_eq!(BROADCAST | WRITE_WITHOUT_RESPONSE | INDICATE | EXTENDED_PROPERTIES | AUTHENTICATED_SIGNED_WRITES, 0xE5);
}

#[test]
fn properties_summary_uses_placeholders() {
    let s = properties_to_map(&props(Some(-60)));
    assert_eq!(s.address, "AA:BB:CC:DD:EE:FF");
    assert_eq!(s.address_type, "Unknown");
    assert_eq!(s.local_name, "(unknown)");
    assert_eq!(s.tx_power_level, "N/A");
    assert_eq!(s.rssi, "-60");
    assert_eq!(s.manufacturer_data, vec![("76".to_string(), vec![2, 21])]);
    assert_eq!(s.service_data.len(), 1);
    assert_eq!(s.services, vec!["0000180d-0000-1000-8000-00805f9b34fb".to_string()]);
    let mut p = props(None);
    p.local_name = Some("Pressure".to_string());
    p.address_type = Some("Random".to_string());
    p.tx_power_level = Some(4);
    let s = properties_to_map(&p);
    assert_eq!((s.local_name.as_str(), s.address_type.as_str(), s.tx_power_level.as_str(), s.rssi.as_str()), ("Pressure", "Random", "4", "N/A"));
}

#[test]
fn device_events_are_reported_by_id() {
    let mut cache = RssiCache::new();
    let ev = CentralEventInfo::DeviceDiscovered("dev-1".to_string());
    assert_eq!(device_lookup(&ev), Some(("dev-1".to_string(), true)));
    assert_eq!(device_lookup(&CentralEventInfo::DeviceUpdated("d".to_string())), Some(("d".to_string(), false)));
    assert_eq!(device_lookup(&CentralEventInfo::DeviceConnected("d".to_string())), None);
    match device_report(&mut cache, true, "dev-1".to_string(), Some(props(Some(-70))), 42) {
        CentralMessage::PeripheralDiscovered(id) => assert_eq!(id, "dev-1"),
        other => panic!("unexpected {:?}", other),
    }
    assert_eq!(get_peripheral_rssi_cache(&cache, "dev-1").unwrap(), vec![(42, -70)]);
    match device_report(&mut cache, false, "dev-2".to_string(), None, 43) {
        CentralMessage::PeripheralUpdated(id) => assert_eq!(id, "dev-2"),
        other => panic!("unexpected {:?}", other),
    }
    assert!(get_peripheral_rssi_cache(&cache, "dev-2").is_none());
}

#[test]
fn other_events_are_forwarded() {
    let mut services: ServiceCache = KeyedStore::new();
    assert!(central_event_message(&mut services, CentralEventInfo::DeviceDiscovered("x".to_string())).is_none());
    match central_event_message(&mut services, CentralEventInfo::DeviceConnected("x".to_string())) {
        Some(CentralMessage::PeripheralConnected(id)) => assert_eq!(id, "x"),
        other => panic!("unexpected {:?}", other),
    }
    match central_event_message(&mut services, CentralEventInfo::StateUpdate("PoweredOn".to_string())) {
        Some(CentralMessage::AdapterStatusUpdate(s)) => assert_eq!(s, "PoweredOn"),
        other => panic!("unexpected {:?}", other),
    }
    let ev = CentralEventInfo::ServicesAdvertisement { id: "x".to_string(), services: vec!["s1".to_string(), "s2".to_string()] };
    match central_event_message(&mut services, ev) {
        Some(CentralMessage::ServicesAdvertisement(id, list)) => {
            assert_eq!(id, "x");
            assert_eq!(list.len(), 2);
        }
        other => panic!("unexpected {:?}", other),
    }
    assert_eq!(services.get("x"), Some(&vec!["s1".to_string(), "s2".to_string()]));
}

#[test]
fn scan_messages_name_the_duration() {
    match scan_started_message(5000) {
        CentralMessage::ScanStarted(t) => assert_eq!(t, "Scan started: 5000 ms"),
        other => panic!("unexpected {:?}", other),
    }
    match scan_stopped_message(0) {
        CentralMessage::ScanStopped(t) => assert_eq!(t, "Scan stopped after timeout: 0 ms"),
        other => panic!("unexpected {:?}", other),
    }
}

#[test]
fn setup_errors() {
    assert_eq!(select_adapter::<u8>(vec![]), Err("No available adapter".to_string()));
    assert_eq!(select_adapter(vec![7u8, 8]), Ok(7));
    assert_eq!(manager_error("no dbus"), "Manager error: no dbus");
    assert_eq!(adapter_error("gone"), "Adapter error: gone");
}

#[test]
fn search_by_name_matches_part_of_the_name() {
    let names = vec![None, Some("Thermo".to_string()), Some("Pressure Sensor".to_string()), Some("Pressure 2".to_string())];
    assert_eq!(position_by_name(&names, "Pressure"), Some(2));
    assert_eq!(position_by_name(&names, "Sensor"), Some(2));
    assert_eq!(position_by_name(&names, "pressure"), None);
    assert_eq!(select_peripheral_by_name(&PeripheralListing::Listed(names.clone()), "Thermo"), Ok(1));
    assert_eq!(select_peripheral_by_name(&PeripheralListing::Listed(names), "Nope"), Err("Peripheral not found".to_string()));
    assert_eq!(
        select_peripheral_by_name(&PeripheralListing::Failed("dbus".to_string()), "x"),
        Err("Failed to get peripherals: dbus".to_string())
    );
    assert_eq!(
        select_peripheral_by_name(&PeripheralListing::TimedOut, "x"),
        Err("Timeout while fetching peripherals".to_string())
    );
}

#[test]
fn search_by_id_needs_the_exact_id() {
    let ids = vec!["hci0/dev_A".to_string(), "hci0/dev_B".to_string()];
    assert_eq!(position_by_id(&ids, "hci0/dev_B"), Some(1));
    assert_eq!(position_by_id(&ids, "dev_B"), None);
    assert_eq!(
        select_peripheral_by_uuid(&PeripheralListing::Listed(ids), "zzz"),
        Err("Peripheral not found with UUID: zzz".to_string())
    );
    assert_eq!(
        select_peripheral_by_uuid(&PeripheralListing::TimedOut, "zzz"),
        Err("Timeout while fetching peripherals".to_string())
    );
}

#[test]
fn found_peripherals_are_remembered() {
    let mut cache: KeyedStore<&str> = KeyedStore::new();
    assert!(cached_peripheral(&cache, "id").is_none());
    remember_peripheral(&mut cache, "id".to_string(), "first");
    remember_peripheral(&mut cache, "id".to_string(), "second");
    assert_eq!(cached_peripheral(&cache, "id"), Some(&"second"));
}

#[test]
fn search_errors_are_quoted() {
    assert_eq!(search_error("Peripheral not found"), "\"Peripheral not found\"");
    assert_eq!(search_error("a\"b"), "\"a\\\"b\"");
}
