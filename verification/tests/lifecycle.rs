use btleplug_client::peripheral::{
    begin_connect, begin_disconnect, begin_discovery, choose_characteristic, connect_attempt_step,
    disconnect_outcome, discovery_step, needs_service_discovery, AttemptOutcome, CharacteristicChoice,
    CharacteristicSummary, ConnectStep, DiscoveryInput, DiscoveryStep, PeripheralState,
    PeripheralStateEnum, CONNECT_ATTEMPTS,
};
use btleplug_client::central_manager_utils::{NOTIFY, READ};

#[test]
fn connecting_retries_then_gives_up() {
    let mut p = PeripheralState::new("dev".to_string());
    assert_eq!(p.state, PeripheralStateEnum::Disconnected);
    begin_connect(&mut p);
    assert_eq!(p.state, PeripheralStateEnum::Connecting);
    assert_eq!(connect_attempt_step(&mut p, 1, AttemptOutcome::TimedOut), ConnectStep::Retry);
    assert_eq!(connect_attempt_step(&mut p, 2, AttemptOutcome::Failed), ConnectStep::Retry);
    assert_eq!(p.state, PeripheralStateEnum::Connecting);
    assert_eq!(connect_attempt_step(&mut p, CONNECT_ATTEMPTS, AttemptOutcome::Failed), ConnectStep::GiveUp);
    assert_eq!(p.state, PeripheralStateEnum::Disconnected);
}

#[test]
fn connecting_succeeds() {
    let mut p = PeripheralState::new("dev".to_string());
    begin_connect(&mut p);
    assert_eq!(connect_attempt_step(&mut p, 2, AttemptOutcome::Connected), ConnectStep::Connected);
    assert_eq!(p.state, PeripheralStateEnum::Connected);
    assert_eq!(p.id, "dev");
}

#[test]
fn disconnecting() {
    let mut p = PeripheralState::new("dev".to_string());
    begin_disconnect(&mut p);
    assert_eq!(p.state, PeripheralStateEnum::Disconnecting);
    disconnect_outcome(&mut p, false);
    assert_eq!(p.state, PeripheralStateEnum::Connected);
    disconnect_outcome(&mut p, true);
    assert_eq!(p.state, PeripheralStateEnum::Disconnected);
}

#[test]
fn discovering_services() {
    let mut p = PeripheralState::new("dev".to_string());
    begin_discovery(&mut p);
    assert_eq!(p.state, PeripheralStateEnum::DiscoveringServices);
    assert_eq!(discovery_step(&mut p, DiscoveryInput::KnownServices(0)), DiscoveryStep::KeepWaiting);
    assert_eq!(discovery_step(&mut p, DiscoveryInput::ServicesAdvertised("other".to_string())), DiscoveryStep::KeepWaiting);
    assert_eq!(discovery_step(&mut p, DiscoveryInput::OtherEvent), DiscoveryStep::KeepWaiting);
    assert_eq!(p.state, PeripheralStateEnum::DiscoveringServices);
    assert_eq!(discovery_step(&mut p, DiscoveryInput::ServicesAdvertised("dev".to_string())), DiscoveryStep::Discovered);
    assert_eq!(p.state, PeripheralStateEnum::ServicesDiscovered);
    let mut q = PeripheralState::new("dev".to_string());
    begin_discovery(&mut q);
    assert_eq!(discovery_step(&mut q, DiscoveryInput::NoMoreEvents), DiscoveryStep::Failed);
    assert_eq!(q.state, PeripheralStateEnum::DiscoveringServices);
    assert_eq!(discovery_step(&mut q, DiscoveryInput::KnownServices(2)), DiscoveryStep::Discovered);
}

#[test]
fn subscription_targets() {
    assert!(needs_service_discovery(PeripheralStateEnum::Connected));
    assert!(!needs_service_discovery(PeripheralStateEnum::ServicesDiscovered));
    let chars = vec![
        CharacteristicSummary { uuid: "a".to_string(), flags: READ },
        CharacteristicSummary { uuid: "b".to_string(), flags: READ | NOTIFY },
        CharacteristicSummary { uuid: "a".to_string(), flags: NOTIFY },
    ];
    assert_eq!(choose_characteristic(&chars, "b"), CharacteristicChoice::Notifiable(1));
    assert_eq!(choose_characteristic(&chars, "a"), CharacteristicChoice::NotNotifiable(0));
    assert_eq!(choose_characteristic(&chars, "c"), CharacteristicChoice::Missing);
}
