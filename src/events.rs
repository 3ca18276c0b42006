//! Decoders from notification payloads to typed events.
use vstd::prelude::*;

verus! {

/// Gestures made in the air, as the device reports them.
#[derive(Debug, Clone, Copy, PartialEq, Eq, Structural)]
pub enum AirGestures {
    NoGesture,
    General,
    UpOneFinger,
    UpTwoFingers,
    DownOneFinger,
    DownTwoFingers,
    LeftOneFinger,
    LeftTwoFingers,
    RightOneFinger,
    RightTwoFingers,
    Pinch,
    ThumbFinger,
    ThumbMiddle,
    StateOpen,
    StateThumbFinger,
    StateThumbMiddle,
}

/// The kinds of event a listener can ask for.
#[derive(Debug, Clone, Copy, PartialEq, Eq, Structural)]
pub enum EventKind {
    Tap,
    Mouse,
    AirGesture,
    AirGestureState,
    RawData,
}

/// A decoded notification.
#[derive(Debug, Clone, PartialEq, Eq)]
pub enum Event {
    Tapped(u8),
    Gesture(AirGestures),
    MouseMoved(i16, i16, bool),
    RawFrame(Vec<u8>),
    GestureStateChanged(bool),
}

/// An event with its raw frame seen as a sequence.
pub enum EventView {
    Tapped(u8),
    Gesture(AirGestures),
    MouseMoved(i16, i16, bool),
    RawFrame(Seq<u8>),
    GestureStateChanged(bool),
}

impl View for Event {
    type V = EventView;

    open spec fn view(&self) -> EventView {
        match self {
            Event::Tapped(c) => EventView::Tapped(*c),
            Event::Gesture(g) => EventView::Gesture(*g),
            Event::MouseMoved(dx, dy, p) => EventView::MouseMoved(*dx, *dy, *p),
            Event::RawFrame(b) => EventView::RawFrame(b@),
            Event::GestureStateChanged(a) => EventView::GestureStateChanged(*a),
        }
    }
}

impl AirGestures {
    /// The gesture a code names; unknown codes name `NoGesture`.
    pub open spec fn spec_from_u8(value: u8) -> AirGestures {
        if value == 0 {
            AirGestures::NoGesture
        } else if value == 1 {
            AirGestures::General
        } else if value == 2 {
            AirGestures::UpOneFinger
        } else if value == 3 {
            AirGestures::UpTwoFingers
        } else if value == 4 {
            AirGestures::DownOneFinger
        } else if value == 5 {
            AirGestures::DownTwoFingers
        } else if value == 6 {
            AirGestures::LeftOneFinger
        } else if value == 7 {
            AirGestures::LeftTwoFingers
        } else if value == 8 {
            AirGestures::RightOneFinger
        } else if value == 9 {
            AirGestures::RightTwoFingers
        } else if value == 10 {
            AirGestures::Pinch
        } else if value == 12 {
            AirGestures::ThumbFinger
        } else if value == 14 {
            AirGestures::ThumbMiddle
        } else if value == 100 {
            AirGestures::StateOpen
        } else if value == 101 {
            AirGestures::StateThumbFinger
        } else if value == 102 {
            AirGestures::StateThumbMiddle
        } else {
            AirGestures::NoGesture
        }
    }

    pub fn from_u8(value: u8) -> (r: AirGestures)
        ensures
            r == Self::spec_from_u8(value),
    {
        match value {
            0 => AirGestures::NoGesture,
            1 => AirGestures::General,
            2 => AirGestures::UpOneFinger,
            3 => AirGestures::UpTwoFingers,
            4 => AirGestures::DownOneFinger,
            5 => AirGestures::DownTwoFingers,
            6 => AirGestures::LeftOneFinger,
            7 => AirGestures::LeftTwoFingers,
            8 => AirGestures::RightOneFinger,
            9 => AirGestures::RightTwoFingers,
            10 => AirGestures::Pinch,
            12 => AirGestures::ThumbFinger,
            14 => AirGestures::ThumbMiddle,
            100 => AirGestures::StateOpen,
            101 => AirGestures::StateThumbFinger,
            102 => AirGestures::StateThumbMiddle,
            _ => AirGestures::NoGesture,
        }
    }
}

/// Two bytes read as a big-endian two's-complement 16-bit integer.
pub open spec fn be_i16(hi: u8, lo: u8) -> int {
    if hi < 128 {
        hi as int * 256 + lo as int
    } else {
        hi as int * 256 + lo as int - 65536
    }
}

/// What a payload means to a listener of `kind`; `None` where it is too
/// short for that kind.
pub open spec fn spec_decode(kind: EventKind, p: Seq<u8>) -> Option<EventView> {
    match kind {
        EventKind::Tap => if p.len() >= 1 {
            Some(EventView::Tapped(p[0]))
        } else {
            None
        },
        EventKind::AirGesture => if p.len() >= 1 {
            Some(EventView::Gesture(AirGestures::spec_from_u8(p[0])))
        } else {
            None
        },
        EventKind::AirGestureState => if p.len() >= 2 {
            Some(EventView::GestureStateChanged(p[0] == 0x14 && p[1] != 0))
        } else {
            None
        },
        EventKind::Mouse => if p.len() >= 4 {
            Some(
                EventView::MouseMoved(
                    be_i16(p[0], p[1]) as i16,
                    be_i16(p[2], p[3]) as i16,
                    p.len() > 4 && p[4] != 0,
                ),
            )
        } else {
            None
        },
        EventKind::RawData => Some(EventView::RawFrame(p)),
    }
}

pub open spec fn opt_event(e: Option<Event>) -> Option<EventView> {
    match e {
        Some(e) => Some(e@),
        None => None,
    }
}

fn read_be_i16(hi: u8, lo: u8) -> (r: i16)
    ensures
        r as int == be_i16(hi, lo),
{
    if hi < 128 {
        (hi as i16) * 256 + (lo as i16)
    } else {
        ((hi as i32) * 256 + (lo as i32) - 65536) as i16
    }
}

/// A tap's code: the first byte.
pub fn decode_tap(payload: &Vec<u8>) -> (r: Option<Event>)
    ensures
        opt_event(r) == spec_decode(EventKind::Tap, payload@),
{
    if payload.len() >= 1 {
        Some(Event::Tapped(payload[0]))
    } else {
        None
    }
}

/// An air gesture: the first byte's gesture.
pub fn decode_air_gesture(payload: &Vec<u8>) -> (r: Option<Event>)
    ensures
        opt_event(r) == spec_decode(EventKind::AirGesture, payload@),
{
    if payload.len() >= 1 {
        Some(Event::Gesture(AirGestures::from_u8(payload[0])))
    } else {
        None
    }
}

/// Whether the device is in the air-gesture state: first byte `0x14` and
/// a nonzero second byte.
pub fn decode_air_gesture_state(payload: &Vec<u8>) -> (r: Option<Event>)
    ensures
        opt_event(r) == spec_decode(EventKind::AirGestureState, payload@),
{
    if payload.len() >= 2 {
        Some(Event::GestureStateChanged(payload[0] == 0x14 && payload[1] != 0))
    } else {
        None
    }
}

/// Pointer movement: two big-endian signed deltas and a proximity flag.
pub fn decode_mouse(payload: &Vec<u8>) -> (r: Option<Event>)
    ensures
        opt_event(r) == spec_decode(EventKind::Mouse, payload@),
{
    if payload.len() >= 4 {
        let dx = read_be_i16(payload[0], payload[1]);
        let dy = read_be_i16(payload[2], payload[3]);
        let proximity = payload.len() > 4 && payload[4] != 0;
        Some(Event::MouseMoved(dx, dy, proximity))
    } else {
        None
    }
}

/// A raw sensor frame: the payload as it came.
pub fn decode_raw(payload: &Vec<u8>) -> (r: Option<Event>)
    ensures
        opt_event(r) == spec_decode(EventKind::RawData, payload@),
{
    Some(Event::RawFrame(payload.clone()))
}

/// The event `payload` carries for a listener of `kind`.
pub fn decode(kind: EventKind, payload: &Vec<u8>) -> (r: Option<Event>)
    ensures
        opt_event(r) == spec_decode(kind, payload@),
{
    match kind {
        EventKind::Tap => decode_tap(payload),
        EventKind::Mouse => decode_mouse(payload),
        EventKind::AirGesture => decode_air_gesture(payload),
        EventKind::AirGestureState => decode_air_gesture_state(payload),
        EventKind::RawData => decode_raw(payload),
    }
}

/// The air-gesture state is active exactly for payloads that begin with
/// `0x14` and a nonzero byte; a one-byte payload gives no state event.
pub proof fn lemma_gesture_state_active(p: Seq<u8>)
    ensures
        spec_decode(EventKind::AirGestureState, p) == Some(EventView::GestureStateChanged(true))
            <==> (p.len() >= 2 && p[0] == 0x14 && p[1] != 0),
        p.len() < 2 ==> spec_decode(EventKind::AirGestureState, p) is None,
{
}

} // verus!
