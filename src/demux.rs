//! The notification registry: one subscription per endpoint, each with the
//! listeners registered on it, and the fan-out of one notification to them.
use vstd::prelude::*;
use crate::catalog::{CharInfo, Characteristic, DriverError, first_char, find_characteristic};
use crate::events::{Event, EventKind, EventView, decode, spec_decode};

verus! {

/// A registered listener: a handle chosen by the caller and the kind of
/// event it takes.
#[derive(Debug, Clone, Copy, PartialEq, Eq, Structural)]
pub struct Listener {
    pub id: u64,
    pub kind: EventKind,
}

/// A live subscription to one endpoint.
#[derive(Debug)]
pub struct Subscription {
    pub endpoint: Characteristic,
    pub listeners: Vec<Listener>,
}

/// One listener invocation: the listener's handle and the event it gets.
#[derive(Debug, Clone, PartialEq, Eq)]
pub struct Delivery {
    pub listener: u64,
    pub event: Event,
}

/// What a registration asks of the transport.
#[derive(Debug, Clone, Copy, PartialEq, Eq, Structural)]
pub enum Registration {
    /// Subscribe to the discovered characteristic at this position and
    /// start the task that reads its notifications.
    Subscribe(usize),
    /// The endpoint is already subscribed; nothing to start.
    Added,
}

/// The registry of live subscriptions for one connected device.
#[derive(Debug)]
pub struct EventManager {
    peripheral: Option<Vec<CharInfo>>,
    subscriptions: Vec<Subscription>,
}

pub struct EventManagerView {
    pub peripheral: Option<Seq<CharInfo>>,
    pub subscriptions: Seq<(Characteristic, Seq<Listener>)>,
}

impl View for Subscription {
    type V = (Characteristic, Seq<Listener>);

    open spec fn view(&self) -> (Characteristic, Seq<Listener>) {
        (self.endpoint, self.listeners@)
    }
}

impl View for EventManager {
    type V = EventManagerView;

    closed spec fn view(&self) -> EventManagerView {
        EventManagerView {
            peripheral: match self.peripheral {
                Some(c) => Some(c@),
                None => None,
            },
            subscriptions: self.subscriptions@.map_values(|s: Subscription| s@),
        }
    }
}

impl EventKind {
    /// The endpoint whose notifications carry this kind of event.
    pub open spec fn spec_endpoint(self) -> Characteristic {
        match self {
            EventKind::Tap => Characteristic::TapData,
            EventKind::Mouse => Characteristic::MouseData,
            EventKind::AirGesture => Characteristic::AirGestureData,
            EventKind::AirGestureState => Characteristic::AirGestureData,
            EventKind::RawData => Characteristic::RawSensors,
        }
    }

    pub fn endpoint(&self) -> (r: Characteristic)
        ensures
            r == self.spec_endpoint(),
    {
        match self {
            EventKind::Tap => Characteristic::TapData,
            EventKind::Mouse => Characteristic::MouseData,
            EventKind::AirGesture => Characteristic::AirGestureData,
            EventKind::AirGestureState => Characteristic::AirGestureData,
            EventKind::RawData => Characteristic::RawSensors,
        }
    }
}

/// The first subscription at or after `from` to endpoint `c`, or -1.
pub open spec fn position(subs: Seq<(Characteristic, Seq<Listener>)>, c: Characteristic, from: int) -> int
    decreases subs.len() - from,
{
    if from < 0 || from >= subs.len() {
        -1
    } else if subs[from].0 == c {
        from
    } else {
        position(subs, c, from + 1)
    }
}

/// The endpoints subscribed to, in order of subscription.
pub open spec fn endpoints(subs: Seq<(Characteristic, Seq<Listener>)>) -> Seq<Characteristic> {
    subs.map_values(|s: (Characteristic, Seq<Listener>)| s.0)
}

/// What the listeners `ls` receive for `payload`, in registration order;
/// a listener whose kind the payload is too short for receives nothing.
pub open spec fn listener_deliveries(ls: Seq<Listener>, payload: Seq<u8>) -> Seq<(u64, EventView)>
    decreases ls.len(),
{
    if ls.len() == 0 {
        seq![]
    } else {
        let rest = listener_deliveries(ls.drop_last(), payload);
        match spec_decode(ls.last().kind, payload) {
            Some(e) => rest.push((ls.last().id, e)),
            None => rest,
        }
    }
}

pub open spec fn deliveries_view(ds: Seq<Delivery>) -> Seq<(u64, EventView)> {
    ds.map_values(|d: Delivery| (d.listener, d.event@))
}

/// What a notification from `uuid` with `payload` delivers.
pub open spec fn spec_dispatch(m: EventManagerView, uuid: u128, payload: Seq<u8>) -> Seq<(u64, EventView)> {
    match Characteristic::classify(uuid) {
        Some(c) => {
            let i = position(m.subscriptions, c, 0);
            if i < 0 {
                seq![]
            } else {
                listener_deliveries(m.subscriptions[i].1, payload)
            }
        },
        None => seq![],
    }
}

/// The registry after registering listener `id` for `kind`, and the
/// registration's outcome.
pub open spec fn spec_register(m: EventManagerView, kind: EventKind, id: u64) -> (
    EventManagerView,
    Result<Registration, DriverError>,
) {
    let c = kind.spec_endpoint();
    let l = Listener { id, kind };
    match m.peripheral {
        None => (m, Err(DriverError::NotConnected)),
        Some(chars) => {
            let i = position(m.subscriptions, c, 0);
            if i >= 0 {
                (
                    EventManagerView {
                        peripheral: m.peripheral,
                        subscriptions: m.subscriptions.update(
                            i,
                            (c, m.subscriptions[i].1.push(l)),
                        ),
                    },
                    Ok(Registration::Added),
                )
            } else {
                let k = first_char(chars, c.spec_uuid(), 0);
                if k < 0 {
                    (m, Err(DriverError::EndpointNotFound))
                } else if !chars[k].notify {
                    (m, Err(DriverError::UnsupportedCapability))
                } else {
                    (
                        EventManagerView {
                            peripheral: m.peripheral,
                            subscriptions: m.subscriptions.push((c, seq![l])),
                        },
                        Ok(Registration::Subscribe(k as usize)),
                    )
                }
            }
        },
    }
}

/// No endpoint is subscribed twice, and every listener sits under the
/// endpoint its kind reads.
pub open spec fn registry_wf(m: EventManagerView) -> bool {
    &&& forall|i: int, j: int|
        0 <= i < j < m.subscriptions.len() ==> m.subscriptions[i].0 != m.subscriptions[j].0
    &&& forall|i: int, j: int|
        0 <= i < m.subscriptions.len() && 0 <= j < m.subscriptions[i].1.len()
            ==> (#[trigger] m.subscriptions[i].1[j]).kind.spec_endpoint() == m.subscriptions[i].0
}

proof fn lemma_position_absent(subs: Seq<(Characteristic, Seq<Listener>)>, c: Characteristic, from: int)
    requires
        0 <= from,
    ensures
        position(subs, c, from) == -1 <==> (forall|j: int| from <= j < subs.len() ==> subs[j].0 != c),
        position(subs, c, from) != -1 ==> from <= position(subs, c, from) < subs.len()
            && subs[position(subs, c, from)].0 == c,
    decreases subs.len() - from,
{
    if from < subs.len() {
        lemma_position_absent(subs, c, from + 1);
    }
}

proof fn lemma_position_same_endpoints(
    a: Seq<(Characteristic, Seq<Listener>)>,
    b: Seq<(Characteristic, Seq<Listener>)>,
    c: Characteristic,
    from: int,
)
    requires
        endpoints(a) == endpoints(b),
    ensures
        position(a, c, from) == position(b, c, from),
    decreases a.len() - from,
{
    assert(a.len() == endpoints(a).len());
    assert(b.len() == endpoints(b).len());
    if 0 <= from < a.len() {
        assert(endpoints(a)[from] == a[from].0);
        assert(endpoints(b)[from] == b[from].0);
        lemma_position_same_endpoints(a, b, c, from + 1);
    }
}

impl EventManager {
    pub open spec fn wf(self) -> bool {
        registry_wf(self@)
    }

    /// A registry with no device and no subscriptions.
    pub fn new() -> (r: EventManager)
        ensures
            r@.peripheral is None,
            r@.subscriptions.len() == 0,
            r.wf(),
    {
        EventManager { peripheral: None, subscriptions: Vec::new() }
    }

    /// Binds the registry to a connected device with the characteristics
    /// it discovered.
    pub fn set_peripheral(&mut self, characteristics: Vec<CharInfo>)
        requires
            old(self).wf(),
        ensures
            final(self)@.peripheral == Some(characteristics@),
            final(self)@.subscriptions == old(self)@.subscriptions,
            final(self).wf(),
    {
        self.peripheral = Some(characteristics);
    }

    /// The characteristics of the bound device, if any.
    pub fn characteristics(&self) -> (r: Option<&Vec<CharInfo>>)
        ensures
            match r {
                Some(c) => self@.peripheral == Some(c@),
                None => self@.peripheral is None,
            },
    {
        match &self.peripheral {
            Some(c) => Some(c),
            None => None,
        }
    }

    fn subscription_of(&self, c: Characteristic) -> (r: Option<usize>)
        ensures
            match r {
                Some(i) => i as int == position(self@.subscriptions, c, 0),
                None => position(self@.subscriptions, c, 0) == -1,
            },
            r matches Some(i) ==> i < self.subscriptions@.len(),
    {
        let mut i: usize = 0;
        while i < self.subscriptions.len()
            invariant
                i <= self.subscriptions@.len(),
                position(self@.subscriptions, c, 0) == position(self@.subscriptions, c, i as int),
            decreases self.subscriptions@.len() - i,
        {
            assert(self@.subscriptions[i as int] == self.subscriptions@[i as int]@);
            if self.subscriptions[i].endpoint == c {
                return Some(i);
            }
            i = i + 1;
        }
        None
    }

    /// Adds listener `id` for `kind`. The first listener of an endpoint
    /// opens its subscription, which needs a discovered characteristic that
    /// pushes notifications; later ones join it.
    pub fn register(&mut self, kind: EventKind, id: u64) -> (r: Result<Registration, DriverError>)
        requires
            old(self).wf(),
        ensures
            (final(self)@, r) == spec_register(old(self)@, kind, id),
            final(self).wf(),
    {
        let c = kind.endpoint();
        let l = Listener { id, kind };
        let chars = match &self.peripheral {
            Some(chars) => chars,
            None => {
                return Err(DriverError::NotConnected);
            },
        };
        match self.subscription_of(c) {
            Some(i) => {
                let ghost old_subs = self.subscriptions@;
                let ghost pre = self@;
                let mut listeners = Vec::new();
                std::mem::swap(&mut listeners, &mut self.subscriptions[i].listeners);
                listeners.push(l);
                self.subscriptions.set(i, Subscription { endpoint: c, listeners });
                proof {
                    lemma_position_absent(pre.subscriptions, c, 0);
                    assert(self@.subscriptions =~= pre.subscriptions.update(
                        i as int,
                        (c, pre.subscriptions[i as int].1.push(l)),
                    ));
                    assert forall|a: int, b: int|
                        0 <= a < self@.subscriptions.len() && 0 <= b
                            < self@.subscriptions[a].1.len() implies (
                    #[trigger] self@.subscriptions[a].1[b]).kind.spec_endpoint()
                        == self@.subscriptions[a].0 by {
                        if a == i as int && b < pre.subscriptions[a].1.len() {
                            assert(self@.subscriptions[a].1[b] == pre.subscriptions[a].1[b]);
                        }
                    }
                }
                Ok(Registration::Added)
            },
            None => {
                let k = match find_characteristic(chars, c.as_uuid()) {
                    Some(k) => k,
                    None => {
                        return Err(DriverError::EndpointNotFound);
                    },
                };
                if !chars[k].notify {
                    return Err(DriverError::UnsupportedCapability);
                }
                let ghost pre = self@;
                let mut listeners = Vec::new();
                listeners.push(l);
                self.subscriptions.push(Subscription { endpoint: c, listeners });
                proof {
                    lemma_position_absent(pre.subscriptions, c, 0);
                    assert(self@.subscriptions =~= pre.subscriptions.push((c, seq![l])));
                    assert forall|a: int, b: int|
                        0 <= a < self@.subscriptions.len() && 0 <= b
                            < self@.subscriptions[a].1.len() implies (
                    #[trigger] self@.subscriptions[a].1[b]).kind.spec_endpoint()
                        == self@.subscriptions[a].0 by {
                        if a < pre.subscriptions.len() {
                            assert(self@.subscriptions[a] == pre.subscriptions[a]);
                        }
                    }
                }
                Ok(Registration::Subscribe(k))
            },
        }
    }

    pub fn register_air_gesture_events(&mut self, listener: u64) -> (r: Result<Registration, DriverError>)
        requires
            old(self).wf(),
        ensures
            (final(self)@, r) == spec_register(old(self)@, EventKind::AirGesture, listener),
            final(self).wf(),
    {
        self.register(EventKind::AirGesture, listener)
    }

    pub fn register_tap_events(&mut self, listener: u64) -> (r: Result<Registration, DriverError>)
        requires
            old(self).wf(),
        ensures
            (final(self)@, r) == spec_register(old(self)@, EventKind::Tap, listener),
            final(self).wf(),
    {
        self.register(EventKind::Tap, listener)
    }

    pub fn register_raw_data_events(&mut self, listener: u64) -> (r: Result<Registration, DriverError>)
        requires
            old(self).wf(),
        ensures
            (final(self)@, r) == spec_register(old(self)@, EventKind::RawData, listener),
            final(self).wf(),
    {
        self.register(EventKind::RawData, listener)
    }

    pub fn register_mouse_events(&mut self, listener: u64) -> (r: Result<Registration, DriverError>)
        requires
            old(self).wf(),
        ensures
            (final(self)@, r) == spec_register(old(self)@, EventKind::Mouse, listener),
            final(self).wf(),
    {
        self.register(EventKind::Mouse, listener)
    }

    pub fn register_air_gesture_state_events(&mut self, listener: u64) -> (r: Result<Registration, DriverError>)
        requires
            old(self).wf(),
        ensures
            (final(self)@, r) == spec_register(old(self)@, EventKind::AirGestureState, listener),
            final(self).wf(),
    {
        self.register(EventKind::AirGestureState, listener)
    }

    /// Forgets the subscription to `endpoint`, as when the transport refused
    /// to subscribe; its listeners go with it.
    pub fn drop_subscription(&mut self, endpoint: Characteristic)
        requires
            old(self).wf(),
        ensures
            final(self).wf(),
            final(self)@.peripheral == old(self)@.peripheral,
            ({
                let i = position(old(self)@.subscriptions, endpoint, 0);
                final(self)@.subscriptions == if i < 0 {
                    old(self)@.subscriptions
                } else {
                    old(self)@.subscriptions.remove(i)
                }
            }),
            position(final(self)@.subscriptions, endpoint, 0) == -1,
    {
        let ghost pre = self@;
        proof {
            lemma_position_absent(pre.subscriptions, endpoint, 0);
        }
        match self.subscription_of(endpoint) {
            Some(i) => {
                self.subscriptions.remove(i);
                proof {
                    assert(self@.subscriptions =~= pre.subscriptions.remove(i as int));
                    assert forall|a: int, b: int|
                        0 <= a < self@.subscriptions.len() && 0 <= b
                            < self@.subscriptions[a].1.len() implies (
                    #[trigger] self@.subscriptions[a].1[b]).kind.spec_endpoint()
                        == self@.subscriptions[a].0 by {
                        if a < i {
                            assert(self@.subscriptions[a] == pre.subscriptions[a]);
                        } else {
                            assert(self@.subscriptions[a] == pre.subscriptions[a + 1]);
                        }
                    }
                    assert forall|a: int, b: int|
                        0 <= a < b < self@.subscriptions.len() implies self@.subscriptions[a].0
                            != self@.subscriptions[b].0 by {
                        let a0 = if a < i { a } else { a + 1 };
                        let b0 = if b < i { b } else { b + 1 };
                        assert(self@.subscriptions[a] == pre.subscriptions[a0]);
                        assert(self@.subscriptions[b] == pre.subscriptions[b0]);
                    }
                    assert forall|j: int| 0 <= j < self@.subscriptions.len() implies self@.subscriptions[j].0
                        != endpoint by {
                        let j0 = if j < i { j } else { j + 1 };
                        assert(self@.subscriptions[j] == pre.subscriptions[j0]);
                    }
                    lemma_position_absent(self@.subscriptions, endpoint, 0);
                }
            },
            None => {},
        }
    }

    /// Every delivery one notification makes: each listener of the
    /// endpoint named by `uuid`, in registration order, with the event its
    /// kind decodes; listeners whose decoder rejects the payload are skipped.
    pub fn dispatch(&self, uuid: u128, payload: &Vec<u8>) -> (r: Vec<Delivery>)
        ensures
            deliveries_view(r@) == spec_dispatch(self@, uuid, payload@),
    {
        let mut out: Vec<Delivery> = Vec::new();
        let c = match Characteristic::from_uuid(uuid) {
            Ok(c) => c,
            Err(_) => {
                assert(deliveries_view(out@) =~= seq![]);
                return out;
            },
        };
        let i = match self.subscription_of(c) {
            Some(i) => i,
            None => {
                assert(deliveries_view(out@) =~= seq![]);
                return out;
            },
        };
        let listeners = &self.subscriptions[i].listeners;
        assert(self@.subscriptions[i as int].1 == listeners@);
        let mut j: usize = 0;
        while j < listeners.len()
            invariant
                j <= listeners@.len(),
                deliveries_view(out@) == listener_deliveries(listeners@.subrange(0, j as int), payload@),
            decreases listeners@.len() - j,
        {
            let l = listeners[j];
            let ghost before = out@;
            let ghost ls = listeners@.subrange(0, j + 1);
            assert(ls.drop_last() =~= listeners@.subrange(0, j as int));
            assert(ls.last() == l);
            match decode(l.kind, payload) {
                Some(e) => {
                    out.push(Delivery { listener: l.id, event: e });
                    assert(deliveries_view(out@) =~= deliveries_view(before).push((l.id, e@)));
                },
                None => {},
            }
            j = j + 1;
        }
        assert(listeners@.subrange(0, listeners@.len() as int) =~= listeners@);
        out
    }
}

/// Two listeners registered on one endpoint that had no subscription share
/// a single new subscription, and each notification reaches both, in the
/// order they were registered.
pub proof fn lemma_one_subscription_for_two_listeners(
    m: EventManagerView,
    k1: EventKind,
    id1: u64,
    k2: EventKind,
    id2: u64,
    payload: Seq<u8>,
)
    requires
        k1.spec_endpoint() == k2.spec_endpoint(),
        position(m.subscriptions, k1.spec_endpoint(), 0) == -1,
        spec_register(m, k1, id1).1 is Ok,
    ensures
        ({
            let c = k1.spec_endpoint();
            let (m1, r1) = spec_register(m, k1, id1);
            let (m2, r2) = spec_register(m1, k2, id2);
            &&& r1 is Ok && r1 != Ok::<Registration, DriverError>(Registration::Added)
            &&& r2 == Ok::<Registration, DriverError>(Registration::Added)
            &&& endpoints(m2.subscriptions) == endpoints(m.subscriptions).push(c)
            &&& endpoints(m2.subscriptions).to_multiset().count(c) == 1
            &&& spec_dispatch(m2, c.spec_uuid(), payload) == listener_deliveries(
                seq![Listener { id: id1, kind: k1 }, Listener { id: id2, kind: k2 }],
                payload,
            )
        }),
{
    let c = k1.spec_endpoint();
    let l1 = Listener { id: id1, kind: k1 };
    let l2 = Listener { id: id2, kind: k2 };
    let m1 = spec_register(m, k1, id1).0;
    let n = m.subscriptions.len() as int;
    assert(m1.subscriptions == m.subscriptions.push((c, seq![l1])));
    lemma_position_absent(m.subscriptions, c, 0);
    lemma_position_absent(m1.subscriptions, c, 0);
    assert(m1.subscriptions[n].0 == c);
    assert(position(m1.subscriptions, c, 0) == n);
    let m2 = spec_register(m1, k2, id2).0;
    assert(m2.subscriptions == m1.subscriptions.update(n, (c, seq![l1].push(l2))));
    assert(endpoints(m2.subscriptions) =~= endpoints(m.subscriptions).push(c));
    assert(endpoints(m2.subscriptions) =~= endpoints(m1.subscriptions));
    lemma_position_same_endpoints(m2.subscriptions, m1.subscriptions, c, 0);
    crate::catalog::lemma_classify(c);
    assert(seq![l1].push(l2) =~= seq![l1, l2]);
    broadcast use vstd::seq_lib::group_to_multiset_ensures;
    assert(!endpoints(m.subscriptions).contains(c));
    assert(endpoints(m.subscriptions).to_multiset().count(c) == 0);
}

proof fn lemma_no_deliveries(ls: Seq<Listener>, payload: Seq<u8>)
    requires
        forall|j: int| 0 <= j < ls.len() ==> spec_decode((#[trigger] ls[j]).kind, payload) is None,
    ensures
        listener_deliveries(ls, payload) == Seq::<(u64, EventView)>::empty(),
    decreases ls.len(),
{
    if ls.len() > 0 {
        assert(ls.last() == ls[ls.len() - 1]);
        lemma_no_deliveries(ls.drop_last(), payload);
    }
}

/// A mouse notification shorter than four bytes reaches no listener.
pub proof fn lemma_short_mouse_payload_dropped(m: EventManagerView, payload: Seq<u8>)
    requires
        registry_wf(m),
        payload.len() < 4,
    ensures
        spec_dispatch(m, Characteristic::MouseData.spec_uuid(), payload) == Seq::<
            (u64, EventView),
        >::empty(),
{
    let c = Characteristic::MouseData;
    crate::catalog::lemma_classify(c);
    let i = position(m.subscriptions, c, 0);
    if i >= 0 {
        lemma_position_absent(m.subscriptions, c, 0);
        let ls = m.subscriptions[i].1;
        assert forall|j: int| 0 <= j < ls.len() implies spec_decode(
            (#[trigger] ls[j]).kind,
            payload,
        ) is None by {
            assert(ls[j].kind.spec_endpoint() == c);
        }
        lemma_no_deliveries(ls, payload);
    }
}

} // verus!
