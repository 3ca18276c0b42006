use tap_client::catalog::{CharInfo, Characteristic, DriverError};
use tap_client::commands::{InputMode, InputType, MouseModes};
use tap_client::demux::{Delivery, Registration};
use tap_client::events::Event;
use tap_client::session::{
    find_peripheral, select_peripheral, Client, ConfigUpdate, PeripheralInfo, SessionState,
};

fn all_characteristics() -> Vec<CharInfo> {
    vec![
        CharInfo { uuid: Characteristic::TapMode.as_uuid(), notify: false },
        CharInfo { uuid: Characteristic::UiCmd.as_uuid(), notify: false },
        CharInfo { uuid: Characteristic::TapData.as_uuid(), notify: true },
        CharInfo { uuid: Characteristic::MouseData.as_uuid(), notify: true },
        CharInfo { uuid: Characteristic::AirGestureData.as_uuid(), notify: true },
        CharInfo { uuid: Characteristic::RawSensors.as_uuid(), notify: true },
    ]
}

fn peripheral(address: u64, name: Option<&str>, connected: bool) -> PeripheralInfo {
    PeripheralInfo { address, local_name: name.map(String::from), connected }
}

fn ready_client() -> Client {
    let mut c = Client::new(Some(0x112233445566));
    c.begin_connect();
    c.connect_finished(true).unwrap();
    c.services_discovered(Some(all_characteristics())).unwrap();
    c
}

#[test]
fn discovery_to_ready_with_baseline_writes() {
    let mut c = Client::new(None);
    assert_eq!(c.state(), SessionState::Discovering);
    let scanned = vec![
        peripheral(1, Some("Speaker"), true),
        peripheral(2, None, true),
        peripheral(3, Some("TapXYZ"), true),
    ];
    assert_eq!(c.finish_discovery(&scanned), Ok(3));
    assert_eq!(c.state(), SessionState::Found);
    assert_eq!(c.begin_connect(), 3);
    assert_eq!(c.state(), SessionState::Connecting);
    assert_eq!(c.connect_finished(true), Ok(()));
    assert_eq!(c.state(), SessionState::Connected);
    assert_eq!(c.services_discovered(Some(all_characteristics())), Ok(()));
    assert_eq!(c.state(), SessionState::Ready);
    assert_eq!(c.input_mode(), Some(InputMode::Text));
    assert_eq!(c.input_type(), Some(InputType::Auto));

    let (mode, input_type) = c.set_initial_state();
    let mode = mode.unwrap();
    let input_type = input_type.unwrap();
    assert_eq!(mode.target, Characteristic::TapMode);
    assert_eq!(mode.index, 0);
    assert_eq!(mode.bytes, vec![0x03, 0x0c, 0x00, 0x00]);
    assert_eq!(input_type.target, Characteristic::TapMode);
    assert_eq!(input_type.index, 0);
    assert_eq!(input_type.bytes, vec![0x03, 0x0d, 0x00, 0x03]);
    assert_eq!(c.write_completed(&mode, true), Ok(()));
    assert_eq!(c.write_completed(&input_type, true), Ok(()));
    assert_eq!(c.input_mode(), Some(InputMode::Text));
    assert_eq!(c.input_type(), Some(InputType::Auto));

    assert_eq!(c.register_tap_events(1), Ok(Registration::Subscribe(2)));
    assert_eq!(c.register_tap_events(2), Ok(Registration::Added));
    assert_eq!(
        c.dispatch(Characteristic::TapData.as_uuid(), &vec![0x02]),
        vec![
            Delivery { listener: 1, event: Event::Tapped(2) },
            Delivery { listener: 2, event: Event::Tapped(2) },
        ]
    );
}

#[test]
fn registration_before_ready_is_refused() {
    let mut c = Client::new(Some(1));
    assert_eq!(c.register_mouse_events(1), Err(DriverError::NotConnected));
}

#[test]
fn session_registrations_by_kind() {
    let mut c = ready_client();
    assert_eq!(c.register_mouse_events(1), Ok(Registration::Subscribe(3)));
    assert_eq!(c.register_air_gesture_events(2), Ok(Registration::Subscribe(4)));
    assert_eq!(c.register_air_gesture_state_events(3), Ok(Registration::Added));
    assert_eq!(c.register_raw_data_events(4), Ok(Registration::Subscribe(5)));
    assert!(c.dispatch(Characteristic::MouseData.as_uuid(), &vec![1, 2]).is_empty());
    c.drop_subscription(Characteristic::RawSensors);
    assert!(c.dispatch(Characteristic::RawSensors.as_uuid(), &vec![1, 2]).is_empty());
}

#[test]
fn reset_tears_down_subscriptions() {
    let mut c = ready_client();
    c.register_tap_events(1).unwrap();
    c.fail();
    c.reset();
    assert!(c.dispatch(Characteristic::TapData.as_uuid(), &vec![1]).is_empty());
    assert_eq!(c.register_tap_events(2), Err(DriverError::NotConnected));
}

#[test]
fn known_address_skips_the_scan() {
    let c = Client::new(Some(42));
    assert_eq!(c.state(), SessionState::Found);
    assert_eq!(c.address(), Some(42));
}

#[test]
fn no_peripherals_means_device_not_found() {
    let mut c = Client::new(None);
    assert_eq!(c.finish_discovery(&vec![]), Err(DriverError::DeviceNotFound));
    assert_eq!(c.state(), SessionState::Failed);
}

#[test]
fn unmatched_peripherals_mean_device_not_found() {
    let mut c = Client::new(None);
    let scanned = vec![peripheral(1, Some("TapXYZ"), false), peripheral(2, Some("tap"), true), peripheral(3, Some("Ta"), true)];
    assert_eq!(c.finish_discovery(&scanned), Err(DriverError::DeviceNotFound));
    assert_eq!(c.state(), SessionState::Failed);
}

#[test]
fn first_eligible_peripheral_is_picked() {
    let scanned = vec![peripheral(1, Some("Tap"), false), peripheral(2, Some("Tap Strap"), true), peripheral(3, Some("TapXYZ"), true)];
    assert_eq!(select_peripheral(&scanned), Some(1));
    assert_eq!(select_peripheral(&vec![]), None);
}

#[test]
fn peripheral_by_address() {
    assert_eq!(find_peripheral(&vec![5, 6, 7, 6], 6), Some(1));
    assert_eq!(find_peripheral(&vec![5, 6], 8), None);
}

#[test]
fn connect_failure() {
    let mut c = Client::new(Some(1));
    c.begin_connect();
    assert_eq!(c.connect_finished(false), Err(DriverError::ConnectFailed));
    assert_eq!(c.state(), SessionState::Failed);
}

#[test]
fn service_discovery_failure() {
    let mut c = Client::new(Some(1));
    c.begin_connect();
    c.connect_finished(true).unwrap();
    assert_eq!(c.services_discovered(None), Err(DriverError::DiscoveryFailed));
    assert_eq!(c.state(), SessionState::Failed);
}

#[test]
fn reset_after_failure() {
    let mut c = Client::new(None);
    c.finish_discovery(&vec![]).unwrap_err();
    c.reset();
    assert_eq!(c.state(), SessionState::Idle);
    assert_eq!(c.address(), None);
    c.discover(Some(9));
    assert_eq!(c.state(), SessionState::Found);
    assert_eq!(c.address(), Some(9));
}

#[test]
fn commands_before_ready_are_refused() {
    let c = Client::new(Some(1));
    assert_eq!(c.set_input_mode(InputMode::Raw, None), Err(DriverError::NotConnected));
    assert_eq!(c.set_input_type(InputType::Mouse), Err(DriverError::NotConnected));
    assert_eq!(c.set_mouse_mode(MouseModes::AirMouse), Err(DriverError::NotConnected));
    assert_eq!(c.send_vibration_sequence(vec![100]), Err(DriverError::NotConnected));
}

#[test]
fn command_on_missing_endpoint() {
    let mut c = Client::new(Some(1));
    c.begin_connect();
    c.connect_finished(true).unwrap();
    c.services_discovered(Some(vec![CharInfo { uuid: Characteristic::TapMode.as_uuid(), notify: false }])).unwrap();
    assert_eq!(c.send_vibration_sequence(vec![100]), Err(DriverError::EndpointNotFound));
    assert!(c.set_mouse_mode(MouseModes::Stdby).is_ok());
}

#[test]
fn command_writes() {
    let c = ready_client();
    let w = c.set_input_mode(InputMode::Raw, Some(vec![1, 2, 3, 4])).unwrap();
    assert_eq!(w.bytes, vec![0x03, 0x0c, 0x00, 0x0a, 1, 2, 3]);
    assert_eq!(w.update, ConfigUpdate::Mode(InputMode::Raw));
    let w = c.set_mouse_mode(MouseModes::OpticalTwo).unwrap();
    assert_eq!(w.bytes, vec![0x03, 0x0e, 0x00, 0x03]);
    assert_eq!(w.update, ConfigUpdate::Unchanged);
    let w = c.send_vibration_sequence(vec![100, 200, 100, 200, 500]).unwrap();
    assert_eq!(w.target, Characteristic::UiCmd);
    assert_eq!(w.index, 1);
    assert_eq!(w.bytes, vec![0x00, 0x02, 10, 20, 10, 20, 50]);
}

#[test]
fn tracked_configuration_follows_successful_writes() {
    let mut c = ready_client();
    assert!(!c.auto_refresh_running());
    let w = c.set_input_type(InputType::Keyboard).unwrap();
    assert_eq!(c.write_completed(&w, false), Err(DriverError::WriteFailed));
    assert_eq!(c.input_type(), Some(InputType::Auto));
    assert!(!c.auto_refresh_running());
    assert_eq!(c.write_completed(&w, true), Ok(()));
    assert_eq!(c.input_type(), Some(InputType::Keyboard));
    assert!(c.auto_refresh_running());
    let w = c.set_input_mode(InputMode::Controller, None).unwrap();
    c.write_completed(&w, true).unwrap();
    assert_eq!(c.input_mode(), Some(InputMode::Controller));
}

#[test]
fn auto_refresh_starts_once() {
    let mut c = ready_client();
    assert!(c.start_auto_refresh());
    assert!(!c.start_auto_refresh());
    assert!(c.auto_refresh_running());
}

#[test]
fn failing_a_ready_session() {
    let mut c = ready_client();
    c.fail();
    assert_eq!(c.state(), SessionState::Failed);
    assert_eq!(c.set_input_type(InputType::Auto), Err(DriverError::NotConnected));
}
