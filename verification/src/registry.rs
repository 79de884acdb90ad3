//! The device registry: live devices, bound units, and event delivery.
//!
//! The registry records every device the dispatch boundary has seen and not
//! yet destroyed, keyed by the device's stable identifier. A device that a
//! handler accepted carries a bound unit — the handler together with the
//! device's installed event subscriptions; a declined device is live but
//! unbound, and owns no subscriptions at all. The identifier doubles as the
//! weak device reference handed to user code: looking it up fails with a
//! plain "no such device" once the device is gone, never with a fault.
//!
//! Invariants: a device has at most one bound unit (it is the value of one
//! key); event subscriptions exist exactly when a bound unit exists, and a
//! bound unit's subscriptions are exactly the fixed channel sequence of its
//! device's kind, destroy last.

use std::collections::HashMap;

use vstd::prelude::*;

use crate::channel::channel_seq;
use crate::channel::kind_channel_seq;
use crate::channel::kind_emits;
use crate::channel::lemma_destroy_subscribed_last;
use crate::channel::subscription_channels;
use crate::channel::Channel;
use crate::device::DeviceKind;
use crate::dispatch::added_steps;
use crate::dispatch::Step;

verus! {

broadcast use vstd::std_specs::hash::group_hash_axioms;

/// The handler and the installed event subscriptions of an accepted device.
/// Created only on acceptance and dropped only when the device's destroy
/// notification fires.
pub struct BoundUnit {
    /// Identifier of the user-supplied handler object for this device.
    pub handler: u64,
    /// Every installed subscription, in installation order, destroy last.
    pub subscriptions: Vec<Channel>,
}

/// What the registry knows of one live device.
pub struct DeviceRecord {
    /// The device's kind, fixed at classification time.
    pub kind: DeviceKind,
    /// The device's bound unit, present exactly when a handler accepted it.
    pub binding: Option<BoundUnit>,
}

/// Where a per-kind event for a device ends up.
#[derive(Clone, Copy, Debug, PartialEq, Eq, Structural)]
pub enum Delivery {
    /// The device is live and bound, and its kind emits the channel: the
    /// event reaches the handler with this identifier.
    Delivered(u64),
    /// The device is live but has no bound unit, or its kind does not emit
    /// the channel: the event reaches no handler.
    NotSubscribed,
    /// No live device has this identifier.
    NoDevice,
}

/// The subscriptions installed for a device: those of its bound unit, none
/// when the device is unbound or unknown.
pub open spec fn subs_of(m: Map<u64, DeviceRecord>, id: u64) -> Seq<Channel> {
    if m.contains_key(id) {
        match m[id].binding {
            Some(b) => b.subscriptions@,
            None => Seq::empty(),
        }
    } else {
        Seq::empty()
    }
}

/// Every bound unit in the registry holds exactly the fixed subscription
/// sequence of its device's kind.
pub open spec fn registry_wf(m: Map<u64, DeviceRecord>) -> bool {
    forall|id: u64| #[trigger]
        m.contains_key(id) ==> match m[id].binding {
            Some(b) => b.subscriptions@ == channel_seq(m[id].kind),
            None => true,
        }
}

/// Where a per-kind event on the given channel for the given device ends up
/// in a registry state.
pub open spec fn delivery_spec(m: Map<u64, DeviceRecord>, id: u64, ch: Channel) -> Delivery {
    if !m.contains_key(id) {
        Delivery::NoDevice
    } else {
        match m[id].binding {
            Some(b) => if kind_channel_seq(m[id].kind).contains(ch) {
                Delivery::Delivered(b.handler)
            } else {
                Delivery::NotSubscribed
            },
            None => Delivery::NotSubscribed,
        }
    }
}

/// What one device-added event did: whether keymap setup was owed to the
/// device, which subscriptions were installed, and the full ordered action
/// sequence the event stands for.
pub struct AddedOutcome {
    /// True exactly for keyboard devices, whose symbol map is initialized
    /// before the handler is offered the device.
    pub keymap_required: bool,
    /// The installed subscriptions in installation order; empty when the
    /// handler declined.
    pub subscribed: Vec<Channel>,
    /// The ordered actions of this device-added event.
    pub steps: Vec<Step>,
}

/// What tearing a device down released.
pub struct DestroyOutcome {
    /// Whether the device had a bound unit to tear down.
    pub was_bound: bool,
    /// The subscriptions released with the bound unit; empty when the
    /// device was unbound or unknown.
    pub released: Vec<Channel>,
}

/// The registry of live devices and their bound units.
pub struct InputManager {
    devices: HashMap<u64, DeviceRecord>,
}

impl View for InputManager {
    type V = Map<u64, DeviceRecord>;

    closed spec fn view(&self) -> Map<u64, DeviceRecord> {
        self.devices@
    }
}

impl InputManager {
    /// Whether every bound unit of this registry holds exactly its kind's
    /// fixed subscription sequence.
    pub open spec fn wf(self) -> bool {
        registry_wf(self@)
    }

    /// A registry with no devices.
    pub fn new() -> (r: InputManager)
        ensures
            r.wf(),
            r@ == Map::<u64, DeviceRecord>::empty(),
    {
        InputManager { devices: HashMap::new() }
    }

    /// Record one device-added event after the acceptance decision fell:
    /// the device becomes live, and exactly when a handler accepted it, a
    /// bound unit with the full subscription sequence of its kind is
    /// created — destroy subscribed last. A declined device stays live but
    /// owns no subscriptions. The outcome reports the ordered actions of
    /// the event.
    pub fn device_added(&mut self, id: u64, kind: DeviceKind, handler: Option<u64>) -> (o:
        AddedOutcome)
        requires
            old(self).wf(),
            !old(self)@.contains_key(id),
        ensures
            final(self).wf(),
            final(self)@.contains_key(id),
            final(self)@[id].kind == kind,
            (final(self)@[id].binding is Some) == (handler is Some),
            handler matches Some(h) ==> (final(self)@[id].binding matches Some(b) && b.handler
                == h && b.subscriptions@ == channel_seq(kind)),
            handler is None ==> subs_of(final(self)@, id) == Seq::<Channel>::empty(),
            forall|d: u64| #![auto]
                d != id ==> final(self)@.contains_key(d) == old(self)@.contains_key(d) && (old(
                    self,
                )@.contains_key(d) ==> final(self)@[d] == old(self)@[d]),
            o.keymap_required == (kind is Keyboard),
            o.subscribed@ == (if handler is Some {
                channel_seq(kind)
            } else {
                Seq::<Channel>::empty()
            }),
            o.steps@ == added_steps(kind, handler is Some),
    {
        let keymap_required = matches!(kind, DeviceKind::Keyboard);
        let mut steps: Vec<Step> = Vec::new();
        if keymap_required {
            steps.push(Step::KeymapInit);
        }
        steps.push(Step::OfferToHandler);
        let ghost base = steps@;
        let mut subscribed: Vec<Channel> = Vec::new();
        let binding = match handler {
            Some(h) => {
                let channels = subscription_channels(kind);
                proof {
                    assert(steps@ =~= base + channel_seq(kind).take(0).map_values(
                        |ch: Channel| Step::Subscribe(ch),
                    ));
                }
                let mut i: usize = 0;
                while i < channels.len()
                    invariant
                        i <= channels.len(),
                        channels@ == channel_seq(kind),
                        steps@ == base + channel_seq(kind).take(i as int).map_values(
                            |ch: Channel| Step::Subscribe(ch),
                        ),
                    decreases channels.len() - i,
                {
                    steps.push(Step::Subscribe(channels[i]));
                    proof {
                        assert(steps@ =~= base + channel_seq(kind).take(i as int + 1).map_values(
                            |ch: Channel| Step::Subscribe(ch),
                        ));
                    }
                    i = i + 1;
                }
                proof {
                    assert(channel_seq(kind).take(channels@.len() as int) =~= channel_seq(kind));
                }
                steps.push(Step::PublishBoundUnit);
                subscribed = subscription_channels(kind);
                Some(BoundUnit { handler: h, subscriptions: channels })
            },
            None => None,
        };
        steps.push(Step::NotifyInputAdded);
        proof {
            assert(steps@ =~= added_steps(kind, handler is Some));
        }
        self.devices.insert(id, DeviceRecord { kind, binding });
        proof {
            assert forall|d: u64| #[trigger] self@.contains_key(d) implies match self@[d].binding {
                Some(b) => b.subscriptions@ == channel_seq(self@[d].kind),
                None => true,
            } by {
                if d != id {
                    assert(old(self)@.contains_key(d));
                }
            }
            assert(registry_wf(self@));
        }
        AddedOutcome { keymap_required, subscribed, steps }
    }

    /// Record the device's destroy notification: the device ceases to be
    /// live and its bound unit, if any, is torn down — every installed
    /// subscription is released with it, exactly once. A destroy for an
    /// unknown identifier releases nothing and changes nothing.
    pub fn device_destroyed(&mut self, id: u64) -> (o: DestroyOutcome)
        requires
            old(self).wf(),
        ensures
            final(self).wf(),
            final(self)@ == old(self)@.remove(id),
            o.was_bound == (old(self)@.contains_key(id) && old(self)@[id].binding is Some),
            o.was_bound ==> o.released@ == channel_seq(old(self)@[id].kind),
            !o.was_bound ==> o.released@ == Seq::<Channel>::empty(),
    {
        let removed = self.devices.remove(&id);
        proof {
            assert forall|d: u64| #[trigger] self@.contains_key(d) implies match self@[d].binding {
                Some(b) => b.subscriptions@ == channel_seq(self@[d].kind),
                None => true,
            } by {
                assert(old(self)@.contains_key(d));
            }
            assert(registry_wf(self@));
        }
        match removed {
            Some(record) => match record.binding {
                Some(unit) => DestroyOutcome { was_bound: true, released: unit.subscriptions },
                None => DestroyOutcome { was_bound: false, released: Vec::new() },
            },
            None => DestroyOutcome { was_bound: false, released: Vec::new() },
        }
    }

    /// Deliver one per-kind event: it reaches the device's handler exactly
    /// when the device is live, a handler accepted it, and the device's kind
    /// emits the channel.
    pub fn deliver(&self, id: u64, ch: Channel) -> (d: Delivery)
        ensures
            d == delivery_spec(self@, id, ch),
    {
        match self.devices.get(&id) {
            None => Delivery::NoDevice,
            Some(record) => match &record.binding {
                Some(unit) => if kind_emits(record.kind, ch) {
                    Delivery::Delivered(unit.handler)
                } else {
                    Delivery::NotSubscribed
                },
                None => Delivery::NotSubscribed,
            },
        }
    }

    /// Resolve a weak device reference: the kind of the device with this
    /// identifier, or nothing when no such device is live. A stale
    /// reference is an ordinary miss, not a fault.
    pub fn lookup_kind(&self, id: u64) -> (r: Option<DeviceKind>)
        ensures
            r matches Some(kind) ==> self@.contains_key(id) && self@[id].kind == kind,
            (r is None) <==> !self@.contains_key(id),
    {
        match self.devices.get(&id) {
            Some(record) => Some(record.kind),
            None => None,
        }
    }

    /// Whether a live device with this identifier currently has a bound
    /// unit.
    pub fn is_bound(&self, id: u64) -> (r: bool)
        ensures
            r == (self@.contains_key(id) && self@[id].binding is Some),
    {
        match self.devices.get(&id) {
            Some(record) => record.binding.is_some(),
            None => false,
        }
    }
}

/// A device without a bound unit receives nothing: if the device is unbound
/// (in particular, freshly declined), no event on any channel is delivered
/// to any handler.
pub proof fn lemma_unbound_device_receives_nothing(
    m: Map<u64, DeviceRecord>,
    id: u64,
    ch: Channel,
)
    requires
        m.contains_key(id) ==> m[id].binding is None,
    ensures
        !(delivery_spec(m, id, ch) is Delivered),
{
}

/// Once destroy has fired for a device, no further per-kind event reaches
/// its handler, and nothing of it remains to be released a second time.
pub proof fn lemma_destroyed_device_silenced(m: Map<u64, DeviceRecord>, id: u64, ch: Channel)
    ensures
        delivery_spec(m.remove(id), id, ch) is NoDevice,
        !m.remove(id).contains_key(id),
{
}

/// In a well-formed registry, an event is delivered exactly when its channel
/// is among the device's installed subscriptions and is not the destroy
/// channel: delivery happens only through a bound unit's subscriptions.
pub proof fn lemma_delivery_requires_subscription(
    m: Map<u64, DeviceRecord>,
    id: u64,
    ch: Channel,
)
    requires
        registry_wf(m),
    ensures
        (delivery_spec(m, id, ch) is Delivered) <==> (m.contains_key(id) && m[id].binding is Some
            && subs_of(m, id).contains(ch) && ch != Channel::Destroy),
{
    if m.contains_key(id) && m[id].binding is Some {
        let kind = m[id].kind;
        lemma_destroy_subscribed_last(kind);
        if kind_channel_seq(kind).contains(ch) {
            let i = choose|i: int|
                0 <= i < kind_channel_seq(kind).len() && kind_channel_seq(kind)[i] == ch;
            assert(channel_seq(kind)[i] == ch);
            assert(channel_seq(kind)[i] != Channel::Destroy);
            assert(subs_of(m, id).contains(ch));
        }
        if subs_of(m, id).contains(ch) && ch != Channel::Destroy {
            let i = choose|i: int| 0 <= i < channel_seq(kind).len() && channel_seq(kind)[i] == ch;
            assert(i < channel_seq(kind).len() - 1);
            assert(kind_channel_seq(kind)[i] == ch);
            assert(kind_channel_seq(kind).contains(ch));
        }
    }
}

} // verus!
