use tap_client::catalog::{CharInfo, Characteristic, DriverError};
use tap_client::demux::{Delivery, EventManager, Registration};
use tap_client::events::{AirGestures, Event};

fn discovered() -> Vec<CharInfo> {
    vec![
        CharInfo { uuid: Characteristic::TapMode.as_uuid(), notify: false },
        CharInfo { uuid: Characteristic::UiCmd.as_uuid(), notify: false },
        CharInfo { uuid: Characteristic::TapData.as_uuid(), notify: true },
        CharInfo { uuid: Characteristic::MouseData.as_uuid(), notify: true },
        CharInfo { uuid: Characteristic::AirGestureData.as_uuid(), notify: true },
        CharInfo { uuid: Characteristic::RawSensors.as_uuid(), notify: true },
    ]
}

fn connected() -> EventManager {
    let mut m = EventManager::new();
    m.set_peripheral(discovered());
    m
}

#[test]
fn two_listeners_share_one_subscription() {
    let mut m = connected();
    assert_eq!(m.register_tap_events(1), Ok(Registration::Subscribe(2)));
    assert_eq!(m.register_tap_events(2), Ok(Registration::Added));
    let out = m.dispatch(Characteristic::TapData.as_uuid(), &vec![0x05]);
    assert_eq!(
        out,
        vec![
            Delivery { listener: 1, event: Event::Tapped(5) },
            Delivery { listener: 2, event: Event::Tapped(5) },
        ]
    );
}

#[test]
fn gesture_and_state_share_the_air_gesture_stream() {
    let mut m = connected();
    assert_eq!(m.register_air_gesture_events(7), Ok(Registration::Subscribe(4)));
    assert_eq!(m.register_air_gesture_state_events(8), Ok(Registration::Added));
    let out = m.dispatch(Characteristic::AirGestureData.as_uuid(), &vec![0x14, 0x01]);
    assert_eq!(
        out,
        vec![
            Delivery { listener: 7, event: Event::Gesture(AirGestures::NoGesture) },
            Delivery { listener: 8, event: Event::GestureStateChanged(true) },
        ]
    );
    let out = m.dispatch(Characteristic::AirGestureData.as_uuid(), &vec![0x01]);
    assert_eq!(out, vec![Delivery { listener: 7, event: Event::Gesture(AirGestures::General) }]);
}

#[test]
fn short_mouse_notification_reaches_nobody() {
    let mut m = connected();
    assert_eq!(m.register_mouse_events(3), Ok(Registration::Subscribe(3)));
    assert!(m.dispatch(Characteristic::MouseData.as_uuid(), &vec![0x00, 0x10]).is_empty());
    assert_eq!(
        m.dispatch(Characteristic::MouseData.as_uuid(), &vec![0x00, 0x10, 0xff, 0xff, 1]),
        vec![Delivery { listener: 3, event: Event::MouseMoved(16, -1, true) }]
    );
}

#[test]
fn notifications_go_to_their_endpoint_only() {
    let mut m = connected();
    m.register_tap_events(1).unwrap();
    m.register_raw_data_events(2).unwrap();
    assert_eq!(
        m.dispatch(Characteristic::RawSensors.as_uuid(), &vec![9, 8]),
        vec![Delivery { listener: 2, event: Event::RawFrame(vec![9, 8]) }]
    );
    assert!(m.dispatch(Characteristic::MouseData.as_uuid(), &vec![0, 0, 0, 0]).is_empty());
    assert!(m.dispatch(12345, &vec![1]).is_empty());
}

#[test]
fn registration_needs_a_device() {
    let mut m = EventManager::new();
    assert_eq!(m.register_tap_events(1), Err(DriverError::NotConnected));
    assert!(m.dispatch(Characteristic::TapData.as_uuid(), &vec![1]).is_empty());
}

#[test]
fn registration_needs_the_endpoint() {
    let mut m = EventManager::new();
    m.set_peripheral(vec![CharInfo { uuid: Characteristic::TapData.as_uuid(), notify: true }]);
    assert_eq!(m.register_mouse_events(1), Err(DriverError::EndpointNotFound));
    assert!(m.dispatch(Characteristic::MouseData.as_uuid(), &vec![0, 0, 0, 0]).is_empty());
}

#[test]
fn registration_needs_notify_support() {
    let mut m = EventManager::new();
    m.set_peripheral(vec![CharInfo { uuid: Characteristic::RawSensors.as_uuid(), notify: false }]);
    assert_eq!(m.register_raw_data_events(1), Err(DriverError::UnsupportedCapability));
}

#[test]
fn dropped_subscription_is_opened_again() {
    let mut m = connected();
    assert_eq!(m.register_tap_events(1), Ok(Registration::Subscribe(2)));
    m.drop_subscription(Characteristic::TapData);
    assert!(m.dispatch(Characteristic::TapData.as_uuid(), &vec![1]).is_empty());
    assert_eq!(m.register_tap_events(2), Ok(Registration::Subscribe(2)));
    assert_eq!(
        m.dispatch(Characteristic::TapData.as_uuid(), &vec![1]),
        vec![Delivery { listener: 2, event: Event::Tapped(1) }]
    );
}
