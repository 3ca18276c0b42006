//! Stable 128-bit identifiers of the device's services and characteristics.
use vstd::prelude::*;

verus! {

/// Why a session step, a command or a subscription could not go ahead.
#[derive(Debug, Clone, Copy, PartialEq, Eq, Structural)]
pub enum DriverError {
    DeviceNotFound,
    ConnectFailed,
    DiscoveryFailed,
    EndpointNotFound,
    UnsupportedCapability,
    NotConnected,
    WriteFailed,
}

/// The device's data channels.
#[derive(Debug, Clone, Copy, PartialEq, Eq, Structural)]
pub enum Characteristic {
    TapData,
    MouseData,
    AirGestureData,
    UiCmd,
    TapMode,
    RawSensors,
}

/// The two service groupings the characteristics live in.
#[derive(Debug, Clone, Copy, PartialEq, Eq, Structural)]
pub enum Service {
    Tap,
    Nus,
}

/// Every identifier the device exposes, as named in its textual form.
#[derive(Debug, Clone, Copy, PartialEq, Eq, Structural)]
pub enum UUID {
    TapService,
    NusService,
    TapDataCharacteristic,
    MouseDataCharacteristic,
    UiCmdCharacteristic,
    AirGestureDataCharacteristic,
    TapModeCharacteristic,
    RawSensorsCharacteristic,
}

impl Characteristic {
    pub open spec fn spec_uuid(self) -> u128 {
        match self {
            Characteristic::TapData => 0xc3ff0005_1d8b_40fd_a56f_c7bd5d0f3370,
            Characteristic::MouseData => 0xc3ff0006_1d8b_40fd_a56f_c7bd5d0f3370,
            Characteristic::AirGestureData => 0xc3ff000a_1d8b_40fd_a56f_c7bd5d0f3370,
            Characteristic::UiCmd => 0xc3ff0009_1d8b_40fd_a56f_c7bd5d0f3370,
            Characteristic::TapMode => 0x6e400002_b5a3_f393_e0a9_e50e24dcca9e,
            Characteristic::RawSensors => 0x6e400003_b5a3_f393_e0a9_e50e24dcca9e,
        }
    }

    /// The characteristic whose identifier is `uuid`, if any.
    pub open spec fn classify(uuid: u128) -> Option<Characteristic> {
        if exists|c: Characteristic| c.spec_uuid() == uuid {
            Some(choose|c: Characteristic| c.spec_uuid() == uuid)
        } else {
            None
        }
    }

    /// All characteristics, in declaration order.
    pub open spec fn spec_all() -> Seq<Characteristic> {
        seq![
            Characteristic::TapData,
            Characteristic::MouseData,
            Characteristic::AirGestureData,
            Characteristic::UiCmd,
            Characteristic::TapMode,
            Characteristic::RawSensors,
        ]
    }

    pub fn as_uuid(&self) -> (r: u128)
        ensures
            r == self.spec_uuid(),
    {
        match self {
            Characteristic::TapData => 0xc3ff0005_1d8b_40fd_a56f_c7bd5d0f3370,
            Characteristic::MouseData => 0xc3ff0006_1d8b_40fd_a56f_c7bd5d0f3370,
            Characteristic::AirGestureData => 0xc3ff000a_1d8b_40fd_a56f_c7bd5d0f3370,
            Characteristic::UiCmd => 0xc3ff0009_1d8b_40fd_a56f_c7bd5d0f3370,
            Characteristic::TapMode => 0x6e400002_b5a3_f393_e0a9_e50e24dcca9e,
            Characteristic::RawSensors => 0x6e400003_b5a3_f393_e0a9_e50e24dcca9e,
        }
    }

    pub fn all() -> (r: Vec<Characteristic>)
        ensures
            r@ == Self::spec_all(),
    {
        let r = vec![
            Characteristic::TapData,
            Characteristic::MouseData,
            Characteristic::AirGestureData,
            Characteristic::UiCmd,
            Characteristic::TapMode,
            Characteristic::RawSensors,
        ];
        assert(r@ =~= Self::spec_all());
        r
    }

    /// Whether `uuid` names one of the device's characteristics.
    pub fn is_tap(uuid: u128) -> (r: bool)
        ensures
            r == (exists|c: Characteristic| c.spec_uuid() == uuid),
    {
        let all = Characteristic::all();
        let mut i: usize = 0;
        while i < all.len()
            invariant
                i <= all@.len(),
                all@ == Self::spec_all(),
                forall|j: int| 0 <= j < i ==> all@[j].spec_uuid() != uuid,
            decreases all@.len() - i,
        {
            if all[i].as_uuid() == uuid {
                return true;
            }
            i = i + 1;
        }
        proof {
            assert forall|c: Characteristic| c.spec_uuid() != uuid by {
                lemma_listed(c);
            }
        }
        false
    }

    /// The characteristic named by `uuid`; `EndpointNotFound` for any
    /// identifier outside the catalog.
    pub fn from_uuid(uuid: u128) -> (r: Result<Characteristic, DriverError>)
        ensures
            r matches Ok(c) ==> c.spec_uuid() == uuid,
            r is Err <==> Self::classify(uuid) is None,
            r matches Err(e) ==> e == DriverError::EndpointNotFound,
            r matches Ok(c) ==> Self::classify(uuid) == Some(c),
    {
        let all = Characteristic::all();
        let mut i: usize = 0;
        while i < all.len()
            invariant
                i <= all@.len(),
                all@ == Self::spec_all(),
                forall|j: int| 0 <= j < i ==> all@[j].spec_uuid() != uuid,
            decreases all@.len() - i,
        {
            if all[i].as_uuid() == uuid {
                let c = all[i];
                proof {
                    lemma_classify(c);
                }
                return Ok(c);
            }
            i = i + 1;
        }
        proof {
            assert forall|c: Characteristic| c.spec_uuid() != uuid by {
                lemma_listed(c);
            }
        }
        Err(DriverError::EndpointNotFound)
    }
}

impl Service {
    pub open spec fn spec_uuid(self) -> u128 {
        match self {
            Service::Tap => 0xc3ff0001_1d8b_40fd_a56f_c7bd5d0f3370,
            Service::Nus => 0x6e400001_b5a3_f393_e0a9_e50e24dcca9e,
        }
    }

    pub fn as_uuid(&self) -> (r: u128)
        ensures
            r == self.spec_uuid(),
    {
        match self {
            Service::Tap => 0xc3ff0001_1d8b_40fd_a56f_c7bd5d0f3370,
            Service::Nus => 0x6e400001_b5a3_f393_e0a9_e50e24dcca9e,
        }
    }
}

impl UUID {
    pub open spec fn spec_str(self) -> Seq<char> {
        match self {
            UUID::TapService => "c3ff0001-1d8b-40fd-a56f-c7bd5d0f3370"@,
            UUID::NusService => "6e400001-b5a3-f393-e0a9-e50e24dcca9e"@,
            UUID::TapDataCharacteristic => "c3ff0005-1d8b-40fd-a56f-c7bd5d0f3370"@,
            UUID::MouseDataCharacteristic => "c3ff0006-1d8b-40fd-a56f-c7bd5d0f3370"@,
            UUID::UiCmdCharacteristic => "c3ff0009-1d8b-40fd-a56f-c7bd5d0f3370"@,
            UUID::AirGestureDataCharacteristic => "c3ff000a-1d8b-40fd-a56f-c7bd5d0f3370"@,
            UUID::TapModeCharacteristic => "6e400002-b5a3-f393-e0a9-e50e24dcca9e"@,
            UUID::RawSensorsCharacteristic => "6e400003-b5a3-f393-e0a9-e50e24dcca9e"@,
        }
    }

    /// The identifier in its hyphenated textual form.
    pub fn as_str(&self) -> (r: &'static str)
        ensures
            r@ == self.spec_str(),
    {
        match self {
            UUID::TapService => "c3ff0001-1d8b-40fd-a56f-c7bd5d0f3370",
            UUID::NusService => "6e400001-b5a3-f393-e0a9-e50e24dcca9e",
            UUID::TapDataCharacteristic => "c3ff0005-1d8b-40fd-a56f-c7bd5d0f3370",
            UUID::MouseDataCharacteristic => "c3ff0006-1d8b-40fd-a56f-c7bd5d0f3370",
            UUID::UiCmdCharacteristic => "c3ff0009-1d8b-40fd-a56f-c7bd5d0f3370",
            UUID::AirGestureDataCharacteristic => "c3ff000a-1d8b-40fd-a56f-c7bd5d0f3370",
            UUID::TapModeCharacteristic => "6e400002-b5a3-f393-e0a9-e50e24dcca9e",
            UUID::RawSensorsCharacteristic => "6e400003-b5a3-f393-e0a9-e50e24dcca9e",
        }
    }
}

/// What the transport reports of one discovered characteristic: its
/// identifier and whether it can push notifications.
#[derive(Debug, Clone, Copy, PartialEq, Eq, Structural)]
pub struct CharInfo {
    pub uuid: u128,
    pub notify: bool,
}

/// The first position at or after `from` whose identifier is `uuid`, or -1.
pub open spec fn first_char(chars: Seq<CharInfo>, uuid: u128, from: int) -> int
    decreases chars.len() - from,
{
    if from < 0 || from >= chars.len() {
        -1
    } else if chars[from].uuid == uuid {
        from
    } else {
        first_char(chars, uuid, from + 1)
    }
}

/// The position of the first discovered characteristic named `uuid`.
pub fn find_characteristic(chars: &Vec<CharInfo>, uuid: u128) -> (r: Option<usize>)
    ensures
        match r {
            Some(i) => i as int == first_char(chars@, uuid, 0),
            None => first_char(chars@, uuid, 0) == -1,
        },
        r matches Some(i) ==> i < chars@.len() && chars@[i as int].uuid == uuid,
{
    let mut i: usize = 0;
    while i < chars.len()
        invariant
            i <= chars@.len(),
            first_char(chars@, uuid, 0) == first_char(chars@, uuid, i as int),
        decreases chars@.len() - i,
    {
        if chars[i].uuid == uuid {
            return Some(i);
        }
        i = i + 1;
    }
    None
}

proof fn lemma_listed(c: Characteristic)
    ensures
        Characteristic::spec_all().contains(c),
{
    let all = Characteristic::spec_all();
    match c {
        Characteristic::TapData => assert(all[0] == c),
        Characteristic::MouseData => assert(all[1] == c),
        Characteristic::AirGestureData => assert(all[2] == c),
        Characteristic::UiCmd => assert(all[3] == c),
        Characteristic::TapMode => assert(all[4] == c),
        Characteristic::RawSensors => assert(all[5] == c),
    }
}

/// No two characteristics share an identifier.
pub proof fn lemma_uuid_injective(a: Characteristic, b: Characteristic)
    ensures
        a.spec_uuid() == b.spec_uuid() ==> a == b,
{
}

/// Looking up a characteristic's own identifier gives it back.
pub proof fn lemma_classify(c: Characteristic)
    ensures
        Characteristic::classify(c.spec_uuid()) == Some(c),
{
    let u = c.spec_uuid();
    assert(exists|d: Characteristic| d.spec_uuid() == u);
    let d = choose|d: Characteristic| d.spec_uuid() == u;
    lemma_uuid_injective(c, d);
}

} // verus!
