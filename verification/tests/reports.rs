use btleplug_client::central_manager_state_utils::{
    adapter_state_graph, adapter_state_to_map, adapter_state_to_mermaid_graph,
    adapter_state_to_mermaid_mindmap, shown_flag_names, AdapterSnapshot, CharacteristicSnapshot,
    PeripheralSnapshot, ServiceSnapshot,
};
use btleplug_client::central_manager_utils::{INDICATE, NOTIFY, READ, WRITE};

fn snapshot() -> AdapterSnapshot {
    AdapterSnapshot {
        name: Some("hci0".to_string()),
        peripherals: vec![PeripheralSnapshot {
            id: "dev1".to_string(),
            local_name: Some("Pressure".to_string()),
            rssi: Some(-55),
            tx_power_level: None,
            connected: true,
            services: vec![ServiceSnapshot {
                uuid: "svc1".to_string(),
                characteristics: vec![
                    CharacteristicSnapshot { uuid: "ch1".to_string(), flags: READ | NOTIFY },
                    CharacteristicSnapshot { uuid: "ch2".to_string(), flags: 0 },
                ],
            }],
        }],
    }
}

#[test]
fn mindmap_lists_everything_indented() {
    let expected = [
        "mindmap\n",
        "adapter((Adapter: hci0))\n",
        "    adapter\n        dev1((Peripheral: **Pressure**))\n",
        "            RSSI: -55dBm\n",
        "            TX Power: N/A\n",
        "            **Connected** :::green\n",
        "            svc1[Service: svc1]\n",
        "                ch1[Characteristic: ch1 [Read, Notify]]\n",
        "                ch2[Characteristic: ch2 []]\n"
    ].concat();
    assert_eq!(adapter_state_to_mermaid_mindmap(&snapshot()), expected);
}

#[test]
fn graph_links_adapter_peripherals_services_characteristics() {
    let expected = [
        "graph TD\n",
        "    Adapter[\"Adapter: hci0\"]\n",
        "    Adapter --> dev1[\"Peripheral: Pressure<br>RSSI: -55dBm<br>TX Power: N/A\"]\n",
        "    dev1 --> svc1[\"Service: svc1\"]\n",
        "    svc1 --> ch1[\"Characteristic: ch1 (Read, Notify)\"]\n",
        "    svc1 --> ch2[\"Characteristic: ch2 ()\"]\n"
    ].concat();
    assert_eq!(adapter_state_to_mermaid_graph(&snapshot()), expected);
    assert_eq!(adapter_state_graph(&snapshot(), "graph"), expected);
    assert!(adapter_state_graph(&snapshot(), "mindmap").starts_with("mindmap\n"));
    assert_eq!(adapter_state_graph(&snapshot(), "other"), adapter_state_to_mermaid_graph(&snapshot()));
    assert_eq!(adapter_state_graph(&snapshot(), ""), adapter_state_to_mermaid_graph(&snapshot()));
}

#[test]
fn unknown_adapter_and_peripheral_names() {
    let mut s = snapshot();
    s.name = None;
    s.peripherals[0].local_name = None;
    s.peripherals[0].connected = false;
    s.peripherals[0].tx_power_level = Some(-4);
    let mm = adapter_state_to_mermaid_mindmap(&s);
    assert!(mm.starts_with("mindmap\nadapter((Adapter: Unknown Adapter))\n    adapter\n        dev1((Peripheral: **dev1**))\n"));
    assert!(mm.contains("            TX Power: -4dBm\n            **Disconnected** :::red\n"));
    let empty = AdapterSnapshot { name: None, peripherals: vec![] };
    assert_eq!(adapter_state_to_mermaid_graph(&empty), "graph TD\n    Adapter[\"Adapter: Unknown Adapter\"]\n");
}

#[test]
fn nested_report_mirrors_the_snapshot() {
    let r = adapter_state_to_map(&snapshot());
    assert_eq!(r.adapter.name, "hci0");
    assert_eq!(r.peripherals.len(), 1);
    let p = &r.peripherals[0];
    assert_eq!((p.id.as_str(), p.name.as_str(), p.rssi, p.tx_power), ("dev1", "Pressure", Some(-55), None));
    assert_eq!(p.services[0].uuid, "svc1");
    assert_eq!(p.services[0].characteristics[0].properties, vec!["Read", "Notify"]);
    assert!(p.services[0].characteristics[1].properties.is_empty());
    let mut s = snapshot();
    s.peripherals[0].local_name = None;
    assert_eq!(adapter_state_to_map(&s).peripherals[0].name, "dev1");
}

#[test]
fn shown_flags_keep_their_order() {
    assert_eq!(shown_flag_names(INDICATE | READ | WRITE | NOTIFY), vec!["Read", "Write", "Notify", "Indicate"]);
    assert!(shown_flag_names(0x01).is_empty());
}
