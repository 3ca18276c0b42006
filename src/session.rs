//! The connection lifecycle of one device and the command writes it issues.
//! Every step here is a decision on plain values; the caller performs the
//! transport work the step asks for and reports back what happened.
use vstd::prelude::*;
use vstd::string::StrSliceExecFns;
use crate::catalog::{CharInfo, Characteristic, DriverError, first_char, find_characteristic};
use crate::demux::{
    Delivery, EventManager, EventManagerView, Registration, deliveries_view, position, registry_wf,
    spec_dispatch, spec_register,
};
use crate::events::EventKind;
use crate::commands::{InputMode, InputType, MouseModes, opt_bytes, spec_vibration_command, vibration_command};

verus! {

/// Where a session stands in its lifecycle.
#[derive(Debug, Clone, Copy, PartialEq, Eq, Structural)]
pub enum SessionState {
    Idle,
    Discovering,
    Found,
    Connecting,
    Connected,
    Ready,
    Failed,
}

/// What a scan reports of one peripheral.
#[derive(Debug, Clone, PartialEq, Eq)]
pub struct PeripheralInfo {
    /// The 48-bit hardware address.
    pub address: u64,
    pub local_name: Option<String>,
    pub connected: bool,
}

/// The tracked configuration a successful write changes.
#[derive(Debug, Clone, Copy, PartialEq, Eq, Structural)]
pub enum ConfigUpdate {
    Mode(InputMode),
    Type(InputType),
    Unchanged,
}

/// One command write for the caller to perform on the device handle, as a
/// single undivided write.
#[derive(Debug, Clone, PartialEq, Eq)]
pub struct WriteRequest {
    pub target: Characteristic,
    /// Position of the target among the discovered characteristics.
    pub index: usize,
    pub bytes: Vec<u8>,
    pub update: ConfigUpdate,
}

pub struct WriteRequestView {
    pub target: Characteristic,
    pub index: usize,
    pub bytes: Seq<u8>,
    pub update: ConfigUpdate,
}

impl View for WriteRequest {
    type V = WriteRequestView;

    open spec fn view(&self) -> WriteRequestView {
        WriteRequestView {
            target: self.target,
            index: self.index,
            bytes: self.bytes@,
            update: self.update,
        }
    }
}

pub open spec fn write_view(r: Result<WriteRequest, DriverError>) -> Result<WriteRequestView, DriverError> {
    match r {
        Ok(w) => Ok(w@),
        Err(e) => Err(e),
    }
}

/// One device session.
#[derive(Debug)]
pub struct Client {
    state: SessionState,
    address: Option<u64>,
    event_manager: EventManager,
    input_mode: Option<InputMode>,
    input_type: Option<InputType>,
    auto_refresh_running: bool,
}

pub struct ClientView {
    pub state: SessionState,
    pub address: Option<u64>,
    pub events: EventManagerView,
    pub input_mode: Option<InputMode>,
    pub input_type: Option<InputType>,
    pub auto_refresh_running: bool,
}

impl View for Client {
    type V = ClientView;

    closed spec fn view(&self) -> ClientView {
        ClientView {
            state: self.state,
            address: self.address,
            events: self.event_manager@,
            input_mode: self.input_mode,
            input_type: self.input_type,
            auto_refresh_running: self.auto_refresh_running,
        }
    }
}

/// A name that follows the device's naming convention: it starts with "Tap".
pub open spec fn is_device_name(name: Seq<char>) -> bool {
    name.len() >= 3 && name[0] == 'T' && name[1] == 'a' && name[2] == 'p'
}

/// A peripheral a scan may pick: connected, and named as the device is.
pub open spec fn eligible(p: PeripheralInfo) -> bool {
    p.connected && match p.local_name {
        Some(n) => is_device_name(n@),
        None => false,
    }
}

/// The command write the session in `v` makes for `bytes` on `target`.
pub open spec fn spec_prepare(
    v: ClientView,
    target: Characteristic,
    bytes: Seq<u8>,
    update: ConfigUpdate,
) -> Result<WriteRequestView, DriverError> {
    match v.events.peripheral {
        Some(chars) => if v.state != SessionState::Ready {
            Err(DriverError::NotConnected)
        } else {
            let k = first_char(chars, target.spec_uuid(), 0);
            if k < 0 {
                Err(DriverError::EndpointNotFound)
            } else {
                Ok(WriteRequestView { target, index: k as usize, bytes, update })
            }
        },
        None => Err(DriverError::NotConnected),
    }
}

fn name_matches(name: &String) -> (r: bool)
    ensures
        r == is_device_name(name@),
{
    let s = name.as_str();
    if s.unicode_len() < 3 {
        return false;
    }
    s.get_char(0) == 'T' && s.get_char(1) == 'a' && s.get_char(2) == 'p'
}

/// The first peripheral a scan may pick.
pub fn select_peripheral(peripherals: &Vec<PeripheralInfo>) -> (r: Option<usize>)
    ensures
        match r {
            Some(i) => i < peripherals@.len() && eligible(peripherals@[i as int]) && forall|j: int|
                0 <= j < i ==> !eligible(#[trigger] peripherals@[j]),
            None => forall|j: int| 0 <= j < peripherals@.len() ==> !eligible(#[trigger] peripherals@[j]),
        },
{
    let mut i: usize = 0;
    while i < peripherals.len()
        invariant
            i <= peripherals@.len(),
            forall|j: int| 0 <= j < i ==> !eligible(#[trigger] peripherals@[j]),
        decreases peripherals@.len() - i,
    {
        let p = &peripherals[i];
        if p.connected {
            match &p.local_name {
                Some(n) => {
                    if name_matches(n) {
                        return Some(i);
                    }
                },
                None => {},
            }
        }
        i = i + 1;
    }
    None
}

/// The position of the peripheral with hardware address `address`.
pub fn find_peripheral(addresses: &Vec<u64>, address: u64) -> (r: Option<usize>)
    ensures
        match r {
            Some(i) => i < addresses@.len() && addresses@[i as int] == address && forall|j: int|
                0 <= j < i ==> addresses@[j] != address,
            None => !addresses@.contains(address),
        },
{
    let mut i: usize = 0;
    while i < addresses.len()
        invariant
            i <= addresses@.len(),
            forall|j: int| 0 <= j < i ==> addresses@[j] != address,
        decreases addresses@.len() - i,
    {
        if addresses[i] == address {
            return Some(i);
        }
        i = i + 1;
    }
    None
}

impl Client {
    /// Past discovery the session knows its device's address; a ready
    /// session knows the device's characteristics; the registry is sound.
    pub open spec fn wf(self) -> bool {
        &&& match self@.state {
            SessionState::Found | SessionState::Connecting | SessionState::Connected
            | SessionState::Ready => self@.address is Some,
            _ => true,
        }
        &&& self@.state == SessionState::Ready ==> self@.events.peripheral is Some
        &&& registry_wf(self@.events)
    }

    /// A session that has begun discovery: with a known address it goes
    /// straight to `Found`, without one it waits for a scan in `Discovering`.
    pub fn new(address: Option<u64>) -> (r: Client)
        ensures
            r.wf(),
            r@.state == (if address is Some {
                SessionState::Found
            } else {
                SessionState::Discovering
            }),
            r@.address == address,
            r@.events.peripheral is None,
            r@.events.subscriptions.len() == 0,
            r@.input_mode == Some(InputMode::Text),
            r@.input_type == Some(InputType::Auto),
            !r@.auto_refresh_running,
    {
        let mut c = Client {
            state: SessionState::Idle,
            address: None,
            event_manager: EventManager::new(),
            input_mode: Some(InputMode::Text),
            input_type: Some(InputType::Auto),
            auto_refresh_running: false,
        };
        c.discover(address);
        c
    }

    /// Starts discovery from `Idle`.
    pub fn discover(&mut self, known: Option<u64>)
        requires
            registry_wf(old(self)@.events),
            old(self)@.state == SessionState::Idle,
        ensures
            final(self).wf(),
            final(self)@.state == (if known is Some {
                SessionState::Found
            } else {
                SessionState::Discovering
            }),
            final(self)@.address == known,
            final(self)@.events == old(self)@.events,
            final(self)@.input_mode == old(self)@.input_mode,
            final(self)@.input_type == old(self)@.input_type,
            final(self)@.auto_refresh_running == old(self)@.auto_refresh_running,
    {
        self.address = known;
        self.state = match known {
            Some(_) => SessionState::Found,
            None => SessionState::Discovering,
        };
    }

    /// Ends a scan over `peripherals` (those of every adapter, in order):
    /// the first eligible one is the device; with none the session fails
    /// with `DeviceNotFound`.
    pub fn finish_discovery(&mut self, peripherals: &Vec<PeripheralInfo>) -> (r: Result<u64, DriverError>)
        requires
            old(self).wf(),
            old(self)@.state == SessionState::Discovering,
        ensures
            final(self).wf(),
            (exists|j: int| 0 <= j < peripherals@.len() && eligible(#[trigger] peripherals@[j]))
                <==> r is Ok,
            r matches Ok(a) ==> final(self)@.state == SessionState::Found && final(self)@.address
                == Some(a) && exists|i: int|
                0 <= i < peripherals@.len() && eligible(peripherals@[i]) && peripherals@[i].address
                    == a && forall|j: int| 0 <= j < i ==> !eligible(#[trigger] peripherals@[j]),
            r matches Err(e) ==> e == DriverError::DeviceNotFound && final(self)@.state
                == SessionState::Failed && final(self)@.address == old(self)@.address,
            final(self)@.events == old(self)@.events,
            final(self)@.input_mode == old(self)@.input_mode,
            final(self)@.input_type == old(self)@.input_type,
            final(self)@.auto_refresh_running == old(self)@.auto_refresh_running,
    {
        match select_peripheral(peripherals) {
            Some(i) => {
                let a = peripherals[i].address;
                self.address = Some(a);
                self.state = SessionState::Found;
                Ok(a)
            },
            None => {
                self.state = SessionState::Failed;
                Err(DriverError::DeviceNotFound)
            },
        }
    }

    /// Moves from `Found` to `Connecting`, giving the address to connect to.
    pub fn begin_connect(&mut self) -> (r: u64)
        requires
            old(self).wf(),
            old(self)@.state == SessionState::Found,
        ensures
            final(self).wf(),
            old(self)@.address == Some(r),
            final(self)@ == (ClientView { state: SessionState::Connecting, ..old(self)@ }),
    {
        self.state = SessionState::Connecting;
        match self.address {
            Some(a) => a,
            None => 0,
        }
    }

    /// Ends a connection attempt: `Connected` on success, else `Failed`
    /// with `ConnectFailed`.
    pub fn connect_finished(&mut self, connected: bool) -> (r: Result<(), DriverError>)
        requires
            old(self).wf(),
            old(self)@.state == SessionState::Connecting,
        ensures
            final(self).wf(),
            connected ==> r is Ok && final(self)@ == (ClientView {
                state: SessionState::Connected,
                ..old(self)@
            }),
            !connected ==> r == Err::<(), DriverError>(DriverError::ConnectFailed) && final(self)@
                == (ClientView { state: SessionState::Failed, ..old(self)@ }),
    {
        if connected {
            self.state = SessionState::Connected;
            Ok(())
        } else {
            self.state = SessionState::Failed;
            Err(DriverError::ConnectFailed)
        }
    }

    /// Ends capability discovery. With the discovered characteristics the
    /// session is `Ready` and tracks the baseline configuration (text mode,
    /// automatic type) that `set_initial_state` then writes; without them it
    /// fails with `DiscoveryFailed`.
    pub fn services_discovered(&mut self, discovered: Option<Vec<CharInfo>>) -> (r: Result<(), DriverError>)
        requires
            old(self).wf(),
            old(self)@.state == SessionState::Connected,
        ensures
            final(self).wf(),
            match discovered {
                Some(chars) => r is Ok && final(self)@ == (ClientView {
                    state: SessionState::Ready,
                    events: EventManagerView {
                        peripheral: Some(chars@),
                        subscriptions: old(self)@.events.subscriptions,
                    },
                    input_mode: Some(InputMode::Text),
                    input_type: Some(InputType::Auto),
                    ..old(self)@
                }),
                None => r == Err::<(), DriverError>(DriverError::DiscoveryFailed) && final(self)@
                    == (ClientView { state: SessionState::Failed, ..old(self)@ }),
            },
    {
        match discovered {
            Some(chars) => {
                self.event_manager.set_peripheral(chars);
                self.input_mode = Some(InputMode::Text);
                self.input_type = Some(InputType::Auto);
                self.state = SessionState::Ready;
                Ok(())
            },
            None => {
                self.state = SessionState::Failed;
                Err(DriverError::DiscoveryFailed)
            },
        }
    }

    /// Leaves the lifecycle for `Failed` from any state, as when the
    /// transport drops the device.
    pub fn fail(&mut self)
        requires
            old(self).wf(),
        ensures
            final(self).wf(),
            final(self)@ == (ClientView { state: SessionState::Failed, ..old(self)@ }),
    {
        self.state = SessionState::Failed;
    }

    /// Brings a failed session back to `Idle`, forgetting its device and
    /// every subscription.
    pub fn reset(&mut self)
        requires
            old(self)@.state == SessionState::Failed,
        ensures
            final(self).wf(),
            final(self)@.state == SessionState::Idle,
            final(self)@.address is None,
            final(self)@.events.peripheral is None,
            final(self)@.events.subscriptions.len() == 0,
            !final(self)@.auto_refresh_running,
            final(self)@.input_mode == old(self)@.input_mode,
            final(self)@.input_type == old(self)@.input_type,
    {
        self.state = SessionState::Idle;
        self.address = None;
        self.event_manager = EventManager::new();
        self.auto_refresh_running = false;
    }

    fn prepare(&self, target: Characteristic, bytes: Vec<u8>, update: ConfigUpdate) -> (r: Result<WriteRequest, DriverError>)
        ensures
            write_view(r) == spec_prepare(self@, target, bytes@, update),
    {
        match self.state {
            SessionState::Ready => {},
            _ => {
                return Err(DriverError::NotConnected);
            },
        }
        let chars = match self.event_manager.characteristics() {
            Some(chars) => chars,
            None => {
                return Err(DriverError::NotConnected);
            },
        };
        match find_characteristic(chars, target.as_uuid()) {
            Some(index) => Ok(WriteRequest { target, index, bytes, update }),
            None => Err(DriverError::EndpointNotFound),
        }
    }

    /// The write that sets the input mode, on the tap-mode characteristic.
    pub fn set_input_mode(&self, mode: InputMode, sensitivity: Option<Vec<u8>>) -> (r: Result<WriteRequest, DriverError>)
        ensures
            write_view(r) == spec_prepare(
                self@,
                Characteristic::TapMode,
                mode.spec_command(opt_bytes(sensitivity)),
                ConfigUpdate::Mode(mode),
            ),
    {
        let command = mode.to_command(sensitivity);
        self.prepare(Characteristic::TapMode, command, ConfigUpdate::Mode(mode))
    }

    /// The write that sets the input type, on the tap-mode characteristic.
    pub fn set_input_type(&self, input_type: InputType) -> (r: Result<WriteRequest, DriverError>)
        ensures
            write_view(r) == spec_prepare(
                self@,
                Characteristic::TapMode,
                input_type.spec_command(),
                ConfigUpdate::Type(input_type),
            ),
    {
        let command = input_type.to_command();
        self.prepare(Characteristic::TapMode, command, ConfigUpdate::Type(input_type))
    }

    /// The write that sets the mouse mode, on the tap-mode characteristic.
    pub fn set_mouse_mode(&self, mouse_mode: MouseModes) -> (r: Result<WriteRequest, DriverError>)
        ensures
            write_view(r) == spec_prepare(
                self@,
                Characteristic::TapMode,
                mouse_mode.spec_command(),
                ConfigUpdate::Unchanged,
            ),
    {
        let command = mouse_mode.to_command();
        self.prepare(Characteristic::TapMode, command, ConfigUpdate::Unchanged)
    }

    /// The write that plays a vibration pattern, on the UI command
    /// characteristic.
    pub fn send_vibration_sequence(&self, sequence: Vec<u16>) -> (r: Result<WriteRequest, DriverError>)
        ensures
            write_view(r) == spec_prepare(
                self@,
                Characteristic::UiCmd,
                spec_vibration_command(sequence@),
                ConfigUpdate::Unchanged,
            ),
    {
        let command = vibration_command(&sequence);
        self.prepare(Characteristic::UiCmd, command, ConfigUpdate::Unchanged)
    }

    /// The baseline writes of a ready session: text mode, then automatic
    /// input type.
    pub fn set_initial_state(&self) -> (r: (Result<WriteRequest, DriverError>, Result<WriteRequest, DriverError>))
        ensures
            write_view(r.0) == spec_prepare(
                self@,
                Characteristic::TapMode,
                InputMode::Text.spec_command(None),
                ConfigUpdate::Mode(InputMode::Text),
            ),
            write_view(r.1) == spec_prepare(
                self@,
                Characteristic::TapMode,
                InputType::Auto.spec_command(),
                ConfigUpdate::Type(InputType::Auto),
            ),
    {
        let mode = self.set_input_mode(InputMode::Text, None);
        let input_type = self.set_input_type(InputType::Auto);
        (mode, input_type)
    }

    /// Marks periodic re-assertion of the configuration as begun; returns
    /// whether this call began it. Starting it twice changes nothing.
    pub fn start_auto_refresh(&mut self) -> (r: bool)
        ensures
            r == !old(self)@.auto_refresh_running,
            final(self)@ == (ClientView { auto_refresh_running: true, ..old(self)@ }),
    {
        if self.auto_refresh_running {
            return false;
        }
        self.auto_refresh_running = true;
        true
    }

    /// Records the outcome of a write the caller performed. A failed write
    /// is `WriteFailed` and changes nothing; a successful one updates the
    /// tracked mode or type it set and begins auto-refresh.
    pub fn write_completed(&mut self, request: &WriteRequest, succeeded: bool) -> (r: Result<(), DriverError>)
        requires
            old(self).wf(),
        ensures
            final(self).wf(),
            !succeeded ==> r == Err::<(), DriverError>(DriverError::WriteFailed) && final(self)@
                == old(self)@,
            succeeded ==> r is Ok && final(self)@ == match request.update {
                ConfigUpdate::Mode(m) => ClientView {
                    input_mode: Some(m),
                    auto_refresh_running: true,
                    ..old(self)@
                },
                ConfigUpdate::Type(t) => ClientView {
                    input_type: Some(t),
                    auto_refresh_running: true,
                    ..old(self)@
                },
                ConfigUpdate::Unchanged => old(self)@,
            },
    {
        if !succeeded {
            return Err(DriverError::WriteFailed);
        }
        match request.update {
            ConfigUpdate::Mode(m) => {
                self.input_mode = Some(m);
                self.start_auto_refresh();
            },
            ConfigUpdate::Type(t) => {
                self.input_type = Some(t);
                self.start_auto_refresh();
            },
            ConfigUpdate::Unchanged => {},
        }
        Ok(())
    }

    pub fn register_air_gesture_events(&mut self, listener: u64) -> (r: Result<Registration, DriverError>)
        requires
            old(self).wf(),
        ensures
            final(self).wf(),
            (final(self)@.events, r) == spec_register(old(self)@.events, EventKind::AirGesture, listener),
            final(self)@ == (ClientView { events: final(self)@.events, ..old(self)@ }),
    {
        self.event_manager.register_air_gesture_events(listener)
    }

    pub fn register_tap_events(&mut self, listener: u64) -> (r: Result<Registration, DriverError>)
        requires
            old(self).wf(),
        ensures
            final(self).wf(),
            (final(self)@.events, r) == spec_register(old(self)@.events, EventKind::Tap, listener),
            final(self)@ == (ClientView { events: final(self)@.events, ..old(self)@ }),
    {
        self.event_manager.register_tap_events(listener)
    }

    pub fn register_raw_data_events(&mut self, listener: u64) -> (r: Result<Registration, DriverError>)
        requires
            old(self).wf(),
        ensures
            final(self).wf(),
            (final(self)@.events, r) == spec_register(old(self)@.events, EventKind::RawData, listener),
            final(self)@ == (ClientView { events: final(self)@.events, ..old(self)@ }),
    {
        self.event_manager.register_raw_data_events(listener)
    }

    pub fn register_mouse_events(&mut self, listener: u64) -> (r: Result<Registration, DriverError>)
        requires
            old(self).wf(),
        ensures
            final(self).wf(),
            (final(self)@.events, r) == spec_register(old(self)@.events, EventKind::Mouse, listener),
            final(self)@ == (ClientView { events: final(self)@.events, ..old(self)@ }),
    {
        self.event_manager.register_mouse_events(listener)
    }

    pub fn register_air_gesture_state_events(&mut self, listener: u64) -> (r: Result<Registration, DriverError>)
        requires
            old(self).wf(),
        ensures
            final(self).wf(),
            (final(self)@.events, r) == spec_register(old(self)@.events, EventKind::AirGestureState, listener),
            final(self)@ == (ClientView { events: final(self)@.events, ..old(self)@ }),
    {
        self.event_manager.register_air_gesture_state_events(listener)
    }

    /// Forgets the subscription to `endpoint` after the transport refused it.
    pub fn drop_subscription(&mut self, endpoint: Characteristic)
        requires
            old(self).wf(),
        ensures
            final(self).wf(),
            final(self)@.events.peripheral == old(self)@.events.peripheral,
            final(self)@ == (ClientView { events: final(self)@.events, ..old(self)@ }),
            ({
                let i = position(old(self)@.events.subscriptions, endpoint, 0);
                final(self)@.events.subscriptions == if i < 0 {
                    old(self)@.events.subscriptions
                } else {
                    old(self)@.events.subscriptions.remove(i)
                }
            }),
    {
        self.event_manager.drop_subscription(endpoint);
    }

    /// The listener invocations one notification makes.
    pub fn dispatch(&self, uuid: u128, payload: &Vec<u8>) -> (r: Vec<Delivery>)
        ensures
            deliveries_view(r@) == spec_dispatch(self@.events, uuid, payload@),
    {
        self.event_manager.dispatch(uuid, payload)
    }

    pub fn state(&self) -> (r: SessionState)
        ensures
            r == self@.state,
    {
        self.state
    }

    pub fn address(&self) -> (r: Option<u64>)
        ensures
            r == self@.address,
    {
        self.address
    }

    pub fn input_mode(&self) -> (r: Option<InputMode>)
        ensures
            r == self@.input_mode,
    {
        self.input_mode
    }

    pub fn input_type(&self) -> (r: Option<InputType>)
        ensures
            r == self@.input_type,
    {
        self.input_type
    }

    pub fn auto_refresh_running(&self) -> (r: bool)
        ensures
            r == self@.auto_refresh_running,
    {
        self.auto_refresh_running
    }
}

} // verus!
