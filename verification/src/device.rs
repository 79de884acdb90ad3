//! Device kinds and classification of raw driver kind values.
//!
//! The driver layer reports the kind of a newly attached input device as a
//! small integer drawn from a closed, versioned enumeration. Classification
//! maps that raw value onto the library's own kind type. The enumeration is
//! exhaustive: every raw value below the number of kinds maps to exactly one
//! kind, and any other value is a contract violation by the driver, reported
//! as a classification failure that the dispatch boundary treats as fatal.

use vstd::prelude::*;

verus! {

/// The closed set of input device kinds this layer manages.
#[derive(Clone, Copy, Debug, PartialEq, Eq, Structural)]
pub enum DeviceKind {
    Keyboard,
    Pointer,
    Touch,
    TabletTool,
    TabletPad,
}

/// The raw kind value the driver uses for each device kind.
pub open spec fn kind_code(kind: DeviceKind) -> u32 {
    match kind {
        DeviceKind::Keyboard => 0,
        DeviceKind::Pointer => 1,
        DeviceKind::Touch => 2,
        DeviceKind::TabletTool => 3,
        DeviceKind::TabletPad => 4,
    }
}

/// What classification yields for each raw kind value.
pub open spec fn classify_spec(raw: u32) -> Option<DeviceKind> {
    if raw == 0 {
        Some(DeviceKind::Keyboard)
    } else if raw == 1 {
        Some(DeviceKind::Pointer)
    } else if raw == 2 {
        Some(DeviceKind::Touch)
    } else if raw == 3 {
        Some(DeviceKind::TabletTool)
    } else if raw == 4 {
        Some(DeviceKind::TabletPad)
    } else {
        None
    }
}

/// Classify a raw driver kind value. Returns `None` exactly when the value
/// lies outside the closed enumeration.
pub fn classify(raw: u32) -> (r: Option<DeviceKind>)
    ensures
        r == classify_spec(raw),
{
    if raw == 0 {
        Some(DeviceKind::Keyboard)
    } else if raw == 1 {
        Some(DeviceKind::Pointer)
    } else if raw == 2 {
        Some(DeviceKind::Touch)
    } else if raw == 3 {
        Some(DeviceKind::TabletTool)
    } else if raw == 4 {
        Some(DeviceKind::TabletPad)
    } else {
        None
    }
}

/// Classification is total and exhaustive over the closed enumeration: a raw
/// value is recognised exactly when it lies below the number of kinds, each
/// kind is produced by exactly one raw value, and that value is `kind_code`.
pub proof fn lemma_classification_total_and_exhaustive()
    ensures
        forall|raw: u32| (classify_spec(raw) is Some) <==> raw < 5,
        forall|kind: DeviceKind| classify_spec(kind_code(kind)) == Some(kind),
        forall|raw: u32, kind: DeviceKind|
            classify_spec(raw) == Some(kind) ==> raw == kind_code(kind),
{
}

} // verus!
