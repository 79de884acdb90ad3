//! Device-lifecycle and event-dispatch core of a compositor's input layer.
//!
//! This library holds the verified decision logic of the input manager: how a
//! newly attached device is classified, which event channels a device kind
//! subscribes to, how the keyboard symbol-map configuration is assembled, and
//! how the registry of bound devices evolves as devices are added, offered to
//! handler code, and destroyed. The surrounding process performs the actual
//! driver calls and feeds their results back in as plain values.

mod channel;
mod device;
mod dispatch;
mod keymap;
mod registry;

pub use channel::channel_seq;
pub use channel::kind_channel_seq;
pub use channel::kind_emits;
pub use channel::lemma_channels_distinct;
pub use channel::lemma_destroy_subscribed_last;
pub use channel::subscription_channels;
pub use channel::Channel;
pub use device::classify;
pub use device::classify_spec;
pub use device::kind_code;
pub use device::lemma_classification_total_and_exhaustive;
pub use device::DeviceKind;
pub use dispatch::added_steps;
pub use dispatch::boundary_verdict;
pub use dispatch::classify_or_fault;
pub use dispatch::lemma_added_sequence_order;
pub use dispatch::lemma_keymap_init_exactly_for_keyboards;
pub use dispatch::subscribe_steps;
pub use dispatch::Fault;
pub use dispatch::Step;
pub use dispatch::Verdict;
pub use keymap::default_repeat_info;
pub use keymap::keymap_build_outcome;
pub use keymap::keymap_config_from_values;
pub use keymap::value_or_empty;
pub use keymap::KeymapConfig;
pub use keymap::RepeatInfo;
pub use keymap::DEFAULT_REPEAT_DELAY;
pub use keymap::DEFAULT_REPEAT_RATE;
pub use registry::delivery_spec;
pub use registry::lemma_delivery_requires_subscription;
pub use registry::lemma_destroyed_device_silenced;
pub use registry::lemma_unbound_device_receives_nothing;
pub use registry::registry_wf;
pub use registry::subs_of;
pub use registry::AddedOutcome;
pub use registry::BoundUnit;
pub use registry::Delivery;
pub use registry::DestroyOutcome;
pub use registry::DeviceRecord;
pub use registry::InputManager;
