//! Event channels and the fixed per-kind subscription sets.
//!
//! Every device kind emits a fixed set of event channels. When a handler
//! accepts a device, the binder subscribes to all of that kind's channels and
//! then to the device's destroy channel, in that order: destroy is always the
//! last subscription installed. The sets are a contract of this layer, not a
//! configurable detail.

use vstd::prelude::*;

use crate::device::DeviceKind;

verus! {

/// One event channel of an input device. The kind-specific channels are
/// qualified by the kind that emits them; `Destroy` is common to all kinds
/// and signals the end of the device's life.
#[derive(Clone, Copy, Debug, PartialEq, Eq, Structural)]
pub enum Channel {
    Key,
    Modifiers,
    KeymapChanged,
    RepeatInfoChanged,
    PointerMotion,
    PointerMotionAbsolute,
    PointerButton,
    PointerAxis,
    TouchDown,
    TouchUp,
    TouchMotion,
    TouchCancel,
    TabletToolAxis,
    TabletToolProximity,
    TabletToolTip,
    TabletToolButton,
    TabletPadButton,
    TabletPadRing,
    TabletPadStrip,
    Destroy,
}

/// The kind-specific channels a device of the given kind emits, in the order
/// the binder subscribes to them. Does not include the destroy channel.
pub open spec fn kind_channel_seq(kind: DeviceKind) -> Seq<Channel> {
    match kind {
        DeviceKind::Keyboard => seq![
            Channel::Key,
            Channel::Modifiers,
            Channel::KeymapChanged,
            Channel::RepeatInfoChanged,
        ],
        DeviceKind::Pointer => seq![
            Channel::PointerMotion,
            Channel::PointerMotionAbsolute,
            Channel::PointerButton,
            Channel::PointerAxis,
        ],
        DeviceKind::Touch => seq![
            Channel::TouchDown,
            Channel::TouchUp,
            Channel::TouchMotion,
            Channel::TouchCancel,
        ],
        DeviceKind::TabletTool => seq![
            Channel::TabletToolAxis,
            Channel::TabletToolProximity,
            Channel::TabletToolTip,
            Channel::TabletToolButton,
        ],
        DeviceKind::TabletPad => seq![
            Channel::TabletPadButton,
            Channel::TabletPadRing,
            Channel::TabletPadStrip,
        ],
    }
}

/// The full subscription sequence for a device of the given kind: every
/// kind-specific channel first, the destroy channel last.
pub open spec fn channel_seq(kind: DeviceKind) -> Seq<Channel> {
    kind_channel_seq(kind).push(Channel::Destroy)
}

/// Build the subscription sequence for a device kind, in subscription order.
pub fn subscription_channels(kind: DeviceKind) -> (r: Vec<Channel>)
    ensures
        r@ == channel_seq(kind),
{
    let mut r: Vec<Channel> = Vec::new();
    match kind {
        DeviceKind::Keyboard => {
            r.push(Channel::Key);
            r.push(Channel::Modifiers);
            r.push(Channel::KeymapChanged);
            r.push(Channel::RepeatInfoChanged);
        },
        DeviceKind::Pointer => {
            r.push(Channel::PointerMotion);
            r.push(Channel::PointerMotionAbsolute);
            r.push(Channel::PointerButton);
            r.push(Channel::PointerAxis);
        },
        DeviceKind::Touch => {
            r.push(Channel::TouchDown);
            r.push(Channel::TouchUp);
            r.push(Channel::TouchMotion);
            r.push(Channel::TouchCancel);
        },
        DeviceKind::TabletTool => {
            r.push(Channel::TabletToolAxis);
            r.push(Channel::TabletToolProximity);
            r.push(Channel::TabletToolTip);
            r.push(Channel::TabletToolButton);
        },
        DeviceKind::TabletPad => {
            r.push(Channel::TabletPadButton);
            r.push(Channel::TabletPadRing);
            r.push(Channel::TabletPadStrip);
        },
    }
    r.push(Channel::Destroy);
    proof {
        assert(r@ =~= channel_seq(kind));
    }
    r
}

/// Whether a device of the given kind emits the given kind-specific channel.
/// The destroy channel is not a kind-specific channel of any kind.
pub fn kind_emits(kind: DeviceKind, ch: Channel) -> (r: bool)
    ensures
        r == kind_channel_seq(kind).contains(ch),
{
    let r = match kind {
        DeviceKind::Keyboard => matches!(
            ch,
            Channel::Key | Channel::Modifiers | Channel::KeymapChanged | Channel::RepeatInfoChanged
        ),
        DeviceKind::Pointer => matches!(
            ch,
            Channel::PointerMotion | Channel::PointerMotionAbsolute | Channel::PointerButton
                | Channel::PointerAxis
        ),
        DeviceKind::Touch => matches!(
            ch,
            Channel::TouchDown | Channel::TouchUp | Channel::TouchMotion | Channel::TouchCancel
        ),
        DeviceKind::TabletTool => matches!(
            ch,
            Channel::TabletToolAxis | Channel::TabletToolProximity | Channel::TabletToolTip
                | Channel::TabletToolButton
        ),
        DeviceKind::TabletPad => matches!(
            ch,
            Channel::TabletPadButton | Channel::TabletPadRing | Channel::TabletPadStrip
        ),
    };
    proof {
        if r {
            lemma_emitted_channel_is_listed(kind, ch);
        } else {
            lemma_unlisted_channel_not_contained(kind, ch);
        }
    }
    r
}

proof fn lemma_emitted_channel_is_listed(kind: DeviceKind, ch: Channel)
    requires
        exists|i: int| 0 <= i < kind_channel_seq(kind).len() && kind_channel_seq(kind)[i] == ch,
    ensures
        kind_channel_seq(kind).contains(ch),
{
}

proof fn lemma_unlisted_channel_not_contained(kind: DeviceKind, ch: Channel)
    requires
        forall|i: int|
            0 <= i < kind_channel_seq(kind).len() ==> kind_channel_seq(kind)[i] != ch,
    ensures
        !kind_channel_seq(kind).contains(ch),
{
}

/// The destroy channel is subscribed last, and only last: it closes every
/// kind's subscription sequence and appears nowhere before the final slot.
pub proof fn lemma_destroy_subscribed_last(kind: DeviceKind)
    ensures
        channel_seq(kind).len() >= 1,
        channel_seq(kind).last() == Channel::Destroy,
        forall|i: int|
            0 <= i < channel_seq(kind).len() - 1 ==> channel_seq(kind)[i] != Channel::Destroy,
{
    match kind {
        DeviceKind::Keyboard => {},
        DeviceKind::Pointer => {},
        DeviceKind::Touch => {},
        DeviceKind::TabletTool => {},
        DeviceKind::TabletPad => {},
    }
}

/// No channel is subscribed twice for one device.
pub proof fn lemma_channels_distinct(kind: DeviceKind)
    ensures
        channel_seq(kind).no_duplicates(),
{
    match kind {
        DeviceKind::Keyboard => {},
        DeviceKind::Pointer => {},
        DeviceKind::Touch => {},
        DeviceKind::TabletTool => {},
        DeviceKind::TabletPad => {},
    }
}

} // verus!
