//! The dispatch boundary: the per-device sequence and the fault policy.
//!
//! The external event loop invokes this layer once per attached device. The
//! whole device-added sequence — classification, keymap setup for keyboards,
//! the handler-acceptance call, subscription binding, and the generic
//! input-added notification — runs inside one fault-isolating region whose
//! only outcomes are "completed" and "terminate the process". The event loop
//! has no way to roll back a half-initialized device, so no fault is ever
//! reported back to it as recoverable.
//!
//! `added_steps` is the exact ordered sequence of actions that one
//! device-added event performs for a given kind and acceptance decision; the
//! registry reports it with every addition, and the lemmas below pin down the
//! ordering contracts: keymap setup happens exactly once for keyboards and
//! never otherwise, the handler is offered the device before anything is
//! bound, the destroy channel is subscribed last, and the generic
//! notification comes after everything else.

use vstd::prelude::*;

use crate::channel::channel_seq;
use crate::channel::Channel;
use crate::device::classify;
use crate::device::classify_spec;
use crate::device::DeviceKind;

verus! {

/// A condition this layer cannot safely continue past. Every fault is
/// terminal: there is no retry and no recovery path anywhere in this layer.
#[derive(Clone, Copy, Debug, PartialEq, Eq, Structural)]
pub enum Fault {
    /// The driver reported a kind value outside the closed enumeration.
    UnknownDeviceKind,
    /// The symbol-map compilation context could not be created.
    KeymapContextFailed,
    /// The symbol map itself could not be compiled.
    KeymapCompileFailed,
    /// User-supplied handler code raised an unrecoverable error.
    HandlerFault,
}

/// The two outcomes of the fault-isolating region around one device-added
/// event. There is no partial-success value.
#[derive(Clone, Copy, Debug, PartialEq, Eq, Structural)]
pub enum Verdict {
    /// The sequence ran to completion; the device is ignored or fully bound.
    Completed,
    /// A fault was raised somewhere in the sequence; the process must
    /// terminate before the event loop runs again.
    AbortProcess,
}

/// Map the result of the wrapped device-added sequence to what the boundary
/// does next: a completed sequence lets the event loop continue; any fault
/// terminates the process.
pub fn boundary_verdict(outcome: Result<(), Fault>) -> (v: Verdict)
    ensures
        (v is Completed) <==> (outcome is Ok),
        (v is AbortProcess) <==> (outcome is Err),
{
    match outcome {
        Ok(_) => Verdict::Completed,
        Err(_) => Verdict::AbortProcess,
    }
}

/// Classify a raw driver kind value at the dispatch boundary. An
/// unrecognised value is a driver contract violation and yields the fault
/// that terminates the process before any handler is invoked.
pub fn classify_or_fault(raw: u32) -> (r: Result<DeviceKind, Fault>)
    ensures
        r matches Ok(kind) ==> classify_spec(raw) == Some(kind),
        (r is Err) <==> (classify_spec(raw) is None),
        r is Err ==> r == Err::<DeviceKind, Fault>(Fault::UnknownDeviceKind),
{
    match classify(raw) {
        Some(kind) => Ok(kind),
        None => Err(Fault::UnknownDeviceKind),
    }
}

/// One action of the device-added sequence, in the order it is performed.
#[derive(Clone, Copy, Debug, PartialEq, Eq, Structural)]
pub enum Step {
    /// Compile and apply the keyboard symbol map and the repeat policy.
    KeymapInit,
    /// Run the user's kind-specific acceptance operation.
    OfferToHandler,
    /// Install one event subscription.
    Subscribe(Channel),
    /// Publish the bound unit as the device's per-device state.
    PublishBoundUnit,
    /// Run the user's generic input-added notification.
    NotifyInputAdded,
}

/// The subscription actions for a device kind, in subscription order.
pub open spec fn subscribe_steps(kind: DeviceKind) -> Seq<Step> {
    channel_seq(kind).map_values(|ch: Channel| Step::Subscribe(ch))
}

/// The exact ordered action sequence of one device-added event, for a given
/// kind and acceptance decision: keymap setup first for keyboards, then the
/// acceptance offer, then — only on acceptance — every subscription and the
/// publication of the bound unit, and the generic notification last.
pub open spec fn added_steps(kind: DeviceKind, accepted: bool) -> Seq<Step> {
    (if kind is Keyboard {
        seq![Step::KeymapInit]
    } else {
        Seq::empty()
    }) + seq![Step::OfferToHandler] + (if accepted {
        subscribe_steps(kind).push(Step::PublishBoundUnit)
    } else {
        Seq::empty()
    }) + seq![Step::NotifyInputAdded]
}

/// Keymap initialization runs exactly once per device-added event for a
/// keyboard — as the first action, before the handler is offered anything —
/// and never for any other kind, whatever the acceptance decision.
pub proof fn lemma_keymap_init_exactly_for_keyboards(kind: DeviceKind, accepted: bool)
    ensures
        kind is Keyboard ==> added_steps(kind, accepted)[0] == Step::KeymapInit,
        kind is Keyboard ==> forall|i: int|
            1 <= i < added_steps(kind, accepted).len() ==> added_steps(kind, accepted)[i]
                != Step::KeymapInit,
        !(kind is Keyboard) ==> forall|i: int|
            0 <= i < added_steps(kind, accepted).len() ==> added_steps(kind, accepted)[i]
                != Step::KeymapInit,
{
    assert forall|i: int| 0 <= i < subscribe_steps(kind).len() implies subscribe_steps(kind)[i]
        != Step::KeymapInit by {
        assert(subscribe_steps(kind)[i] == Step::Subscribe(channel_seq(kind)[i]));
    }
}

/// The acceptance offer precedes every subscription and the publication of
/// the bound unit, and the generic input-added notification is the final
/// action of the sequence: user code running in that notification always
/// observes a fully-initialized device.
pub proof fn lemma_added_sequence_order(kind: DeviceKind, accepted: bool)
    ensures
        added_steps(kind, accepted).len() >= 1,
        added_steps(kind, accepted).last() == Step::NotifyInputAdded,
        exists|o: int|
            0 <= o < added_steps(kind, accepted).len() && added_steps(kind, accepted)[o]
                == Step::OfferToHandler,
        forall|o: int, i: int|
            (0 <= o < added_steps(kind, accepted).len() && added_steps(kind, accepted)[o]
                == Step::OfferToHandler && 0 <= i < added_steps(kind, accepted).len() && (
            added_steps(kind, accepted)[i] matches Step::Subscribe(_) || added_steps(
                kind,
                accepted,
            )[i] == Step::PublishBoundUnit)) ==> o < i,
{
    let s = added_steps(kind, accepted);
    let pre: int = if kind is Keyboard {
        1
    } else {
        0
    };
    assert(s[pre] == Step::OfferToHandler);
    assert forall|i: int|
        0 <= i < s.len() && (s[i] matches Step::Subscribe(_) || s[i]
            == Step::PublishBoundUnit) implies pre < i by {
        if i < pre {
            assert(s[i] == Step::KeymapInit);
        }
        if i == pre {
            assert(s[i] == Step::OfferToHandler);
        }
    }
    assert forall|o: int, i: int|
        (0 <= o < s.len() && s[o] == Step::OfferToHandler && 0 <= i < s.len() && (
        s[i] matches Step::Subscribe(_) || s[i] == Step::PublishBoundUnit)) implies o < i by {
        if o != pre {
            if o < pre {
                assert(s[o] == Step::KeymapInit);
            } else if accepted && o - pre - 1 < subscribe_steps(kind).len() {
                assert(s[o] == Step::Subscribe(channel_seq(kind)[o - pre - 1]));
            } else if accepted && o - pre - 1 == subscribe_steps(kind).len() {
                assert(s[o] == Step::PublishBoundUnit);
            } else {
                assert(s[o] == Step::NotifyInputAdded);
            }
        }
    }
}

} // verus!
