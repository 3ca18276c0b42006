use tap_client::events::{
    decode, decode_air_gesture, decode_air_gesture_state, decode_mouse, decode_raw, decode_tap,
    AirGestures, Event, EventKind,
};

#[test]
fn gesture_codes() {
    assert_eq!(AirGestures::from_u8(0), AirGestures::NoGesture);
    assert_eq!(AirGestures::from_u8(1), AirGestures::General);
    assert_eq!(AirGestures::from_u8(2), AirGestures::UpOneFinger);
    assert_eq!(AirGestures::from_u8(9), AirGestures::RightTwoFingers);
    assert_eq!(AirGestures::from_u8(10), AirGestures::Pinch);
    assert_eq!(AirGestures::from_u8(12), AirGestures::ThumbFinger);
    assert_eq!(AirGestures::from_u8(14), AirGestures::ThumbMiddle);
    assert_eq!(AirGestures::from_u8(100), AirGestures::StateOpen);
    assert_eq!(AirGestures::from_u8(101), AirGestures::StateThumbFinger);
    assert_eq!(AirGestures::from_u8(102), AirGestures::StateThumbMiddle);
}

#[test]
fn unknown_gesture_codes() {
    assert_eq!(AirGestures::from_u8(11), AirGestures::NoGesture);
    assert_eq!(AirGestures::from_u8(13), AirGestures::NoGesture);
    assert_eq!(AirGestures::from_u8(0x14), AirGestures::NoGesture);
    assert_eq!(AirGestures::from_u8(255), AirGestures::NoGesture);
}

#[test]
fn tap_decoding() {
    assert_eq!(decode_tap(&vec![0x1f, 9]), Some(Event::Tapped(0x1f)));
    assert_eq!(decode_tap(&vec![]), None);
}

#[test]
fn mouse_decoding() {
    assert_eq!(decode_mouse(&vec![0xff, 0xfe, 0x00, 0x05]), Some(Event::MouseMoved(-2, 5, false)));
    assert_eq!(decode_mouse(&vec![0x80, 0x00, 0x7f, 0xff, 1]), Some(Event::MouseMoved(-32768, 32767, true)));
    assert_eq!(decode_mouse(&vec![0x01, 0x00, 0x00, 0x00, 0]), Some(Event::MouseMoved(256, 0, false)));
}

#[test]
fn short_mouse_payload_is_dropped() {
    assert_eq!(decode_mouse(&vec![0x00, 0x01]), None);
    assert_eq!(decode_mouse(&vec![0x00, 0x01, 0x02]), None);
}

#[test]
fn gesture_state_decoding() {
    assert_eq!(decode_air_gesture_state(&vec![0x14, 0x01]), Some(Event::GestureStateChanged(true)));
    assert_eq!(decode_air_gesture_state(&vec![0x14, 0x07, 3]), Some(Event::GestureStateChanged(true)));
    assert_eq!(decode_air_gesture_state(&vec![0x14, 0x00]), Some(Event::GestureStateChanged(false)));
    assert_eq!(decode_air_gesture_state(&vec![0x01, 0x01]), Some(Event::GestureStateChanged(false)));
}

#[test]
fn one_byte_gesture_payload() {
    assert_eq!(decode_air_gesture_state(&vec![0x01]), None);
    assert_eq!(decode_air_gesture(&vec![0x01]), Some(Event::Gesture(AirGestures::General)));
    assert_eq!(decode_air_gesture(&vec![]), None);
}

#[test]
fn raw_frames_pass_through() {
    assert_eq!(decode_raw(&vec![]), Some(Event::RawFrame(vec![])));
    assert_eq!(decode_raw(&vec![1, 2, 3]), Some(Event::RawFrame(vec![1, 2, 3])));
}

#[test]
fn decode_by_kind() {
    let p = vec![0x14, 0x01, 0x00, 0x02];
    assert_eq!(decode(EventKind::Tap, &p), Some(Event::Tapped(0x14)));
    assert_eq!(decode(EventKind::AirGesture, &p), Some(Event::Gesture(AirGestures::NoGesture)));
    assert_eq!(decode(EventKind::AirGestureState, &p), Some(Event::GestureStateChanged(true)));
    assert_eq!(decode(EventKind::Mouse, &p), Some(Event::MouseMoved(0x1401, 2, false)));
    assert_eq!(decode(EventKind::RawData, &p), Some(Event::RawFrame(p.clone())));
}
