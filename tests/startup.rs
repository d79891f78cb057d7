use ble_toggle::service::{advertised_name, Permission, Property, ServiceDescriptor};
use ble_toggle::startup::{Phase, Sequencer, StartupAction, StartupEvent, POLL_INTERVAL_MS};

fn drive(events: &[StartupEvent]) -> (Phase, Vec<StartupAction>) {
    let mut s = Sequencer::new();
    let actions = events.iter().map(|e| s.advance(*e)).collect();
    (s.phase, actions)
}

#[test]
fn startup_waits_for_power_then_registers_then_advertises() {
    for n in [0usize, 1, 5] {
        let mut events = vec![StartupEvent::Created];
        events.extend(std::iter::repeat(StartupEvent::PowerPolled { is_powered: false }).take(n));
        events.push(StartupEvent::PowerPolled { is_powered: true });
        events.push(StartupEvent::ServiceAdded { ok: true });
        events.push(StartupEvent::AdvertisingStarted { ok: true });
        let (phase, actions) = drive(&events);
        let mut expected = vec![StartupAction::PollPower];
        expected.extend(std::iter::repeat(StartupAction::PollPowerAfterWait).take(n));
        expected.push(StartupAction::AddService);
        expected.push(StartupAction::StartAdvertising);
        expected.push(StartupAction::Run);
        assert_eq!(phase, Phase::Running);
        assert_eq!(actions, expected);
    }
}

#[test]
fn registration_failure_prevents_advertising() {
    let events = [
        StartupEvent::Created,
        StartupEvent::PowerPolled { is_powered: false },
        StartupEvent::PowerPolled { is_powered: true },
        StartupEvent::ServiceAdded { ok: false },
        StartupEvent::ServiceAdded { ok: true },
        StartupEvent::AdvertisingStarted { ok: true },
        StartupEvent::PowerPolled { is_powered: true },
    ];
    let (phase, actions) = drive(&events);
    assert_eq!(phase, Phase::Failed);
    assert_eq!(actions[3], StartupAction::Abort);
    assert!(!actions.contains(&StartupAction::StartAdvertising));
    assert_eq!(
        actions.iter().filter(|a| **a == StartupAction::AddService).count(),
        1
    );
}

#[test]
fn advertising_failure_aborts() {
    let events = [
        StartupEvent::Created,
        StartupEvent::PowerPolled { is_powered: true },
        StartupEvent::ServiceAdded { ok: true },
        StartupEvent::AdvertisingStarted { ok: false },
    ];
    let (phase, actions) = drive(&events);
    assert_eq!(phase, Phase::Failed);
    assert_eq!(actions.last(), Some(&StartupAction::Abort));
}

#[test]
fn out_of_order_events_do_nothing() {
    let mut s = Sequencer::new();
    assert_eq!(s.advance(StartupEvent::ServiceAdded { ok: true }), StartupAction::Nothing);
    assert_eq!(s.phase, Phase::Uninitialized);
    assert_eq!(s.advance(StartupEvent::Created), StartupAction::PollPower);
    assert_eq!(s.advance(StartupEvent::AdvertisingStarted { ok: true }), StartupAction::Nothing);
    assert_eq!(s.phase, Phase::WaitingForPower);
}

#[test]
fn poll_interval_is_a_tenth_of_a_second() {
    assert_eq!(POLL_INTERVAL_MS, 100);
}

#[test]
fn toggle_service_schema() {
    let s = ServiceDescriptor::toggle_service();
    assert_eq!(s.service_id, 0x1234);
    assert!(s.primary);
    assert_eq!(s.toggle_id, 0x2A3D);
    assert_eq!(s.properties, vec![Property::Read, Property::Write, Property::Notify]);
    assert_eq!(s.permissions, vec![Permission::Readable, Permission::Writeable]);
    assert_eq!(s.descriptor_id, 0x2A13);
    assert_eq!(s.descriptor_value, vec![0, 1]);
    assert_eq!(s.auxiliary_id, 0x1209);
    assert_eq!(s.advertised_ids(), vec![0x1234]);
    assert_eq!(advertised_name(), "RustBLE");
}
