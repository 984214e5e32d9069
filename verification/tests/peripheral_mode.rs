use btleplug_client::peripheral_manager::{
    advertising_started, advertising_stopped, build_service, characteristic_access,
    characteristic_updated, creation_failed, handle_peripheral_event, is_advertising,
    parse_advertised_uuids, parse_characteristic_uuid, power_failure, power_wait_step, read_reply,
    respond_to_read_request, respond_to_write_request, service_added, write_reply, AnswerWait,
    AttributePermission, CharacteristicProperty, ManagerMessage, PendingAnswer, PeripheralEventInfo,
    PowerWait, RadioOutcome, RequestStatus, POWER_CHECKS,
};
use btleplug_client::peripheral_manager_state::{
    PeripheralManagerState, ReadRequestResponse, WriteRequestResponse,
};
use btleplug_client::peripheral_types::{
    CharacteristicDefinition, CharacteristicProperties, DecodeError, ServiceDefinition,
};

fn props(read: bool, write: bool, notify: bool) -> CharacteristicProperties {
    CharacteristicProperties { read, write, write_without_response: false, notify, indicate: false }
}

fn heart_rate_service() -> ServiceDefinition {
    ServiceDefinition {
        uuid: "0000180d-0000-1000-8000-00805f9b34fb".to_string(),
        primary: true,
        characteristics: vec![CharacteristicDefinition {
            uuid: "00002a37-0000-1000-8000-00805f9b34fb".to_string(),
            properties: props(true, false, true),
            value: Some(vec![0, 60]),
        }],
    }
}

fn error_text(m: &ManagerMessage) -> String {
    match m {
        ManagerMessage::Error(t) => t.clone(),
        other => panic!("not an error: {:?}", other),
    }
}

#[test]
fn properties_default_to_nothing() {
    let p = CharacteristicProperties::default();
    assert_eq!(p, props(false, false, false));
}

#[test]
fn properties_read_from_named_flags() {
    let entries = vec![
        ("notify".to_string(), true),
        ("read".to_string(), true),
        ("unknown".to_string(), true),
    ];
    assert_eq!(CharacteristicProperties::from_entries(&entries), props(true, false, true));
}

#[test]
fn properties_round_trip_through_named_flags() {
    let p = CharacteristicProperties { read: true, write: false, write_without_response: true, notify: false, indicate: true };
    let entries = p.to_entries();
    assert_eq!(entries.len(), 5);
    assert_eq!(entries[2], ("write_without_response".to_string(), true));
    assert_eq!(CharacteristicProperties::from_entries(&entries), p);
}

#[test]
fn definitions_need_their_required_keys() {
    assert_eq!(CharacteristicDefinition::from_fields(None, None, None).unwrap_err(), DecodeError::BadArg);
    let c = CharacteristicDefinition::from_fields(Some("2A37".to_string()), None, Some(vec![1])).unwrap();
    assert_eq!(c.properties, CharacteristicProperties::default());
    assert_eq!(c.value, Some(vec![1]));
    let s = ServiceDefinition::from_fields(Some("180D".to_string()), None, Some(vec![c.clone()])).unwrap();
    assert!(s.primary);
    let s2 = ServiceDefinition::from_fields(Some("180D".to_string()), Some(false), Some(vec![])).unwrap();
    assert!(!s2.primary);
    assert_eq!(ServiceDefinition::from_fields(Some("180D".to_string()), Some(true), None).unwrap_err(), DecodeError::BadArg);
    assert_eq!(ServiceDefinition::from_fields(None, Some(true), Some(vec![])).unwrap_err(), DecodeError::BadArg);
}

#[test]
fn access_follows_properties() {
    let (p, a) = characteristic_access(&CharacteristicProperties { read: true, write: true, write_without_response: true, notify: true, indicate: true });
    assert_eq!(p, vec![
        CharacteristicProperty::Read,
        CharacteristicProperty::Write,
        CharacteristicProperty::WriteWithoutResponse,
        CharacteristicProperty::Notify,
        CharacteristicProperty::Indicate,
    ]);
    assert_eq!(a, vec![AttributePermission::Readable, AttributePermission::Writeable]);
    let (p2, a2) = characteristic_access(&props(false, false, true));
    assert_eq!(p2, vec![CharacteristicProperty::Notify]);
    assert!(a2.is_empty());
}

#[test]
fn services_are_built_from_definitions() {
    let s = build_service(&heart_rate_service()).unwrap();
    assert_eq!(s.uuid, [0, 0, 0x18, 0x0d, 0, 0, 0x10, 0, 0x80, 0, 0, 0x80, 0x5f, 0x9b, 0x34, 0xfb]);
    assert!(s.primary);
    assert_eq!(s.characteristics.len(), 1);
    assert_eq!(s.characteristics[0].properties, vec![CharacteristicProperty::Read, CharacteristicProperty::Notify]);
    assert_eq!(s.characteristics[0].value, Some(vec![0, 60]));
}

#[test]
fn bad_uuids_are_reported() {
    let mut def = heart_rate_service();
    def.uuid = "not-a-uuid".to_string();
    assert!(build_service(&def).unwrap_err().starts_with("Invalid service UUID: "));
    let mut def = heart_rate_service();
    def.characteristics[0].uuid = "zz".to_string();
    assert!(build_service(&def).unwrap_err().starts_with("Invalid characteristic UUID: "));
    assert!(parse_characteristic_uuid("nope").unwrap_err().starts_with("Invalid characteristic UUID: "));
    assert!(parse_characteristic_uuid("00002a37-0000-1000-8000-00805f9b34fb").is_ok());
}

#[test]
fn added_service_is_kept_and_reported() {
    let mut state = PeripheralManagerState::new();
    let s = build_service(&heart_rate_service()).unwrap();
    match service_added(&mut state, s.clone(), RadioOutcome::Done) {
        ManagerMessage::ServiceAdded(u) => assert_eq!(u, "0000180d-0000-1000-8000-00805f9b34fb"),
        other => panic!("unexpected {:?}", other),
    }
    assert_eq!(state.services.len(), 1);
    let m = service_added(&mut state, s.clone(), RadioOutcome::Failed("Busy".to_string()));
    assert_eq!(error_text(&m), "Failed to add service: Busy");
    let m = service_added(&mut state, s, RadioOutcome::NotInitialized);
    assert_eq!(error_text(&m), "Peripheral not initialized");
    assert_eq!(state.services.len(), 1);
}

#[test]
fn advertised_uuids_are_parsed_in_order() {
    let ok = parse_advertised_uuids(&vec!["0000180d-0000-1000-8000-00805f9b34fb".to_string()]).unwrap();
    assert_eq!(ok.len(), 1);
    let err = parse_advertised_uuids(&vec!["0000180d-0000-1000-8000-00805f9b34fb".to_string(), "x".to_string()]).unwrap_err();
    assert!(err.starts_with("Invalid UUID: "));
    assert!(parse_advertised_uuids(&vec![]).unwrap().is_empty());
}

#[test]
fn advertising_state_follows_outcomes() {
    let mut state = PeripheralManagerState::new();
    assert!(!is_advertising(&state));
    let m = advertising_started(&mut state, "Demo".to_string(), RadioOutcome::Failed("Off".to_string()));
    assert_eq!(error_text(&m), "Failed to start advertising: Off");
    assert_eq!(state.device_name, Some("Demo".to_string()));
    assert!(!is_advertising(&state));
    assert!(matches!(advertising_started(&mut state, "Demo".to_string(), RadioOutcome::Done), ManagerMessage::AdvertisingStarted));
    assert!(is_advertising(&state));
    let m = advertising_stopped(&mut state, RadioOutcome::NotInitialized);
    assert_eq!(error_text(&m), "Peripheral not initialized");
    assert!(is_advertising(&state));
    assert!(matches!(advertising_stopped(&mut state, RadioOutcome::Done), ManagerMessage::AdvertisingStopped));
    assert!(!is_advertising(&state));
    let m = advertising_stopped(&mut state, RadioOutcome::Failed("E".to_string()));
    assert_eq!(error_text(&m), "Failed to stop advertising: E");
}

#[test]
fn characteristic_updates_report_only_failures() {
    assert!(characteristic_updated(RadioOutcome::Done).is_none());
    assert_eq!(error_text(&characteristic_updated(RadioOutcome::Failed("E".to_string())).unwrap()), "Failed to update characteristic: E");
    assert_eq!(error_text(&characteristic_updated(RadioOutcome::NotInitialized).unwrap()), "Peripheral not initialized");
}

#[test]
fn creation_and_power_reports() {
    assert_eq!(error_text(&creation_failed("NoAdapter")), "Failed to create peripheral: NoAdapter");
    assert_eq!(error_text(&power_failure()), "Peripheral failed to power on");
    assert_eq!(power_wait_step(1, true), PowerWait::Powered);
    assert_eq!(power_wait_step(1, false), PowerWait::CheckAgain);
    assert_eq!(power_wait_step(POWER_CHECKS, false), PowerWait::GiveUp);
    assert_eq!(POWER_CHECKS, 50);
}

#[test]
fn request_ids_count_up() {
    let mut state = PeripheralManagerState::new();
    assert_eq!(state.next_request_id(), 0);
    assert_eq!(state.next_request_id(), 1);
    assert_eq!(state.next_request_id(), 2);
}

#[test]
fn request_ids_wrap_around() {
    let mut state = PeripheralManagerState::new();
    state.request_counter = u64::MAX;
    assert_eq!(state.next_request_id(), u64::MAX);
    assert_eq!(state.next_request_id(), 0);
}

#[test]
fn read_request_is_answered_once() {
    let mut state = PeripheralManagerState::new();
    let (id, mut rx) = state.register_read_request();
    assert_eq!(id, 0);
    assert!(state.pending_read_requests.contains_key(&0));
    assert_eq!(respond_to_read_request(&mut state, id, vec![7, 7], true), Ok(()));
    let got = rx.try_recv().unwrap();
    assert_eq!(got.value, vec![7, 7]);
    assert!(got.success);
    assert_eq!(
        respond_to_read_request(&mut state, id, vec![], true),
        Err("Request not found or already completed".to_string())
    );
}

#[test]
fn write_request_is_answered_once() {
    let mut state = PeripheralManagerState::new();
    let (id, mut rx) = state.register_write_request();
    assert_eq!(respond_to_write_request(&mut state, id, false), Ok(()));
    assert!(!rx.try_recv().unwrap().success);
    assert!(respond_to_write_request(&mut state, id, true).is_err());
    assert!(respond_to_write_request(&mut state, 99, true).is_err());
}

#[test]
fn answer_to_a_gone_requester_fails() {
    let mut state = PeripheralManagerState::new();
    let (id, rx) = state.register_read_request();
    drop(rx);
    assert!(!state.complete_read_request(id, ReadRequestResponse { value: vec![], success: true }));
    assert!(state.pending_read_requests.is_empty());
}

#[test]
fn radio_events_become_reports() {
    let mut state = PeripheralManagerState::new();
    let (m, p) = handle_peripheral_event(&mut state, PeripheralEventInfo::StateUpdate { is_powered: true });
    assert!(m.is_none() && p.is_none());
    let (m, p) = handle_peripheral_event(&mut state, PeripheralEventInfo::SubscriptionUpdate {
        characteristic: "c".to_string(), service: "s".to_string(), subscribed: true });
    assert!(p.is_none());
    match m.unwrap() {
        ManagerMessage::SubscriptionUpdate(u) => {
            assert_eq!(u.characteristic_uuid, "c");
            assert_eq!(u.service_uuid, "s");
            assert!(u.subscribed);
        }
        other => panic!("unexpected {:?}", other),
    }
    let (m, p) = handle_peripheral_event(&mut state, PeripheralEventInfo::ReadRequest {
        characteristic: "c".to_string(), service: "s".to_string(), offset: 4 });
    match (m.unwrap(), p.unwrap()) {
        (ManagerMessage::ReadRequest(id, q), PendingAnswer::Read(pid, _)) => {
            assert_eq!(id, 0);
            assert_eq!(pid, 0);
            assert_eq!(q.offset, 4);
        }
        _ => panic!("unexpected"),
    }
    let (m, _p) = handle_peripheral_event(&mut state, PeripheralEventInfo::WriteRequest {
        characteristic: "c".to_string(), service: "s".to_string(), value: vec![1], offset: 0 });
    match m.unwrap() {
        ManagerMessage::WriteRequest(id, q) => {
            assert_eq!(id, 1);
            assert_eq!(q.value, vec![1]);
        }
        other => panic!("unexpected {:?}", other),
    }
    assert!(state.pending_read_requests.contains_key(&0));
    assert!(state.pending_write_requests.contains_key(&1));
}

#[test]
fn replies_to_centrals() {
    let mut state = PeripheralManagerState::new();
    let (id, _rx) = state.register_read_request();
    let (v, s) = read_reply(&mut state, id, AnswerWait::Answered(ReadRequestResponse { value: vec![3], success: true }));
    assert_eq!((v, s), (vec![3], RequestStatus::Success));
    let (v, s) = read_reply(&mut state, id, AnswerWait::Answered(ReadRequestResponse { value: vec![3], success: false }));
    assert_eq!((v, s), (vec![3], RequestStatus::RequestNotSupported));
    assert_eq!(read_reply(&mut state, id, AnswerWait::Abandoned), (vec![], RequestStatus::RequestNotSupported));
    assert!(state.pending_read_requests.contains_key(&id));
    assert_eq!(read_reply(&mut state, id, AnswerWait::TimedOut), (vec![], RequestStatus::RequestNotSupported));
    assert!(!state.pending_read_requests.contains_key(&id));
    let (wid, _wrx) = state.register_write_request();
    assert_eq!(write_reply(&mut state, wid, AnswerWait::Answered(WriteRequestResponse { success: true })), RequestStatus::Success);
    assert_eq!(write_reply(&mut state, wid, AnswerWait::TimedOut), RequestStatus::RequestNotSupported);
    assert!(state.pending_write_requests.is_empty());
}

#[test]
fn advertising_follows_the_last_successful_attempt() {
    let mut state = PeripheralManagerState::new();
    assert!(!is_advertising(&state));
    advertising_started(&mut state, "A".to_string(), RadioOutcome::Done);
    advertising_stopped(&mut state, RadioOutcome::Failed("busy".to_string()));
    advertising_started(&mut state, "B".to_string(), RadioOutcome::NotInitialized);
    assert!(is_advertising(&state));
    advertising_stopped(&mut state, RadioOutcome::Done);
    advertising_started(&mut state, "C".to_string(), RadioOutcome::Failed("off".to_string()));
    assert!(!is_advertising(&state));
}

#[test]
fn request_ids_stay_unique() {
    let mut state = PeripheralManagerState::new();
    let mut seen = Vec::new();
    for k in 0..50u64 {
        let (id, _rx) = if k % 2 == 0 { let (i, r) = state.register_read_request(); (i, Some(r)) } else { (state.next_request_id(), None) };
        assert_eq!(id, k);
        assert!(!seen.contains(&id));
        seen.push(id);
    }
}

#[test]
fn answer_is_handed_to_the_sender_of_its_request() {
    let mut state = PeripheralManagerState::new();
    let (tx0, rx0) = tokio::sync::oneshot::channel::<ReadRequestResponse>();
    let (tx1, rx1) = tokio::sync::oneshot::channel::<ReadRequestResponse>();
    let (id0, mut back0) = state.record_read_request(tx0, rx0);
    let (id1, mut back1) = state.record_read_request(tx1, rx1);
    assert_eq!((id0, id1), (0, 1));
    let (sender, answer) = state.take_read_answer(id1, ReadRequestResponse { value: vec![9], success: true }).unwrap();
    assert_eq!(answer.value, vec![9]);
    assert!(sender.send(answer).is_ok());
    assert_eq!(back1.try_recv().unwrap().value, vec![9]);
    assert!(back0.try_recv().is_err());
    assert!(state.take_read_answer(id1, ReadRequestResponse { value: vec![], success: false }).is_none());
    assert!(state.pending_read_requests.contains_key(&id0));
}

#[test]
fn write_answer_is_handed_to_the_sender_of_its_request() {
    let mut state = PeripheralManagerState::new();
    let (tx, rx) = tokio::sync::oneshot::channel::<WriteRequestResponse>();
    let (id, mut back) = state.record_write_request(tx, rx);
    let (sender, answer) = state.take_write_answer(id, WriteRequestResponse { success: true }).unwrap();
    assert!(sender.send(answer).is_ok());
    assert!(back.try_recv().unwrap().success);
    assert!(state.pending_write_requests.is_empty());
}

#[test]
fn definitions_round_trip_through_their_fields() {
    let p = props(true, false, true);
    let back = CharacteristicProperties::from_entries(&p.to_entries());
    let c = CharacteristicDefinition::from_fields(Some("2a37".to_string()), Some(back), Some(vec![1])).unwrap();
    assert_eq!((c.uuid.as_str(), c.properties, c.value.clone()), ("2a37", p, Some(vec![1])));
    let s = ServiceDefinition::from_fields(Some("180d".to_string()), Some(false), Some(vec![c])).unwrap();
    assert_eq!((s.uuid.as_str(), s.primary, s.characteristics.len()), ("180d", false, 1));
}
