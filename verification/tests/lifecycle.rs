use input_manager::subscription_channels;
use input_manager::Channel;
use input_manager::Delivery;
use input_manager::DeviceKind;
use input_manager::InputManager;
use input_manager::Step;

const ALL_KINDS: [DeviceKind; 5] = [
    DeviceKind::Keyboard,
    DeviceKind::Pointer,
    DeviceKind::Touch,
    DeviceKind::TabletTool,
    DeviceKind::TabletPad,
];

#[test]
fn accepted_keyboard_runs_keymap_binds_and_notifies() {
    let mut manager = InputManager::new();
    let outcome = manager.device_added(1, DeviceKind::Keyboard, Some(7));
    assert!(outcome.keymap_required);
    assert_eq!(
        outcome.steps,
        vec![
            Step::KeymapInit,
            Step::OfferToHandler,
            Step::Subscribe(Channel::Key),
            Step::Subscribe(Channel::Modifiers),
            Step::Subscribe(Channel::KeymapChanged),
            Step::Subscribe(Channel::RepeatInfoChanged),
            Step::Subscribe(Channel::Destroy),
            Step::PublishBoundUnit,
            Step::NotifyInputAdded,
        ]
    );
    assert_eq!(manager.deliver(1, Channel::Key), Delivery::Delivered(7));
    assert_eq!(manager.deliver(1, Channel::Modifiers), Delivery::Delivered(7));
    assert!(manager.is_bound(1));
}

#[test]
fn declined_pointer_gets_no_subscriptions_but_notify_still_fires() {
    let mut manager = InputManager::new();
    let outcome = manager.device_added(2, DeviceKind::Pointer, None);
    assert!(!outcome.keymap_required);
    assert!(outcome.subscribed.is_empty());
    assert_eq!(outcome.steps, vec![Step::OfferToHandler, Step::NotifyInputAdded]);
    assert!(!manager.is_bound(2));
    for ch in subscription_channels(DeviceKind::Pointer) {
        if ch != Channel::Destroy {
            assert_eq!(manager.deliver(2, ch), Delivery::NotSubscribed);
        }
    }
    assert_eq!(manager.lookup_kind(2), Some(DeviceKind::Pointer));
}

#[test]
fn acceptance_installs_exactly_the_kind_channel_set() {
    for (i, kind) in ALL_KINDS.into_iter().enumerate() {
        let mut manager = InputManager::new();
        let id = i as u64;
        let outcome = manager.device_added(id, kind, Some(10 + id));
        assert_eq!(outcome.subscribed, subscription_channels(kind));
        assert_eq!(*outcome.subscribed.last().unwrap(), Channel::Destroy);
        for ch in &outcome.subscribed[..outcome.subscribed.len() - 1] {
            assert_eq!(manager.deliver(id, *ch), Delivery::Delivered(10 + id));
        }
    }
}

#[test]
fn keymap_setup_is_owed_to_keyboards_regardless_of_acceptance() {
    for handler in [Some(3), None] {
        for kind in ALL_KINDS {
            let mut manager = InputManager::new();
            let outcome = manager.device_added(4, kind, handler);
            assert_eq!(outcome.keymap_required, kind == DeviceKind::Keyboard);
            let keymap_steps = outcome
                .steps
                .iter()
                .filter(|step| **step == Step::KeymapInit)
                .count();
            assert_eq!(keymap_steps, usize::from(kind == DeviceKind::Keyboard));
        }
    }
}

#[test]
fn generic_notification_is_always_the_final_step() {
    for handler in [Some(5), None] {
        for kind in ALL_KINDS {
            let mut manager = InputManager::new();
            let outcome = manager.device_added(6, kind, handler);
            assert_eq!(*outcome.steps.last().unwrap(), Step::NotifyInputAdded);
            let offer_at = outcome
                .steps
                .iter()
                .position(|step| *step == Step::OfferToHandler)
                .unwrap();
            for (i, step) in outcome.steps.iter().enumerate() {
                if matches!(step, Step::Subscribe(_)) || *step == Step::PublishBoundUnit {
                    assert!(offer_at < i);
                }
            }
        }
    }
}

#[test]
fn destroy_releases_everything_exactly_once() {
    let mut manager = InputManager::new();
    manager.device_added(8, DeviceKind::Touch, Some(20));
    let outcome = manager.device_destroyed(8);
    assert!(outcome.was_bound);
    assert_eq!(outcome.released, subscription_channels(DeviceKind::Touch));
    assert_eq!(manager.deliver(8, Channel::TouchDown), Delivery::NoDevice);
    assert_eq!(manager.lookup_kind(8), None);
    let again = manager.device_destroyed(8);
    assert!(!again.was_bound);
    assert!(again.released.is_empty());
}

#[test]
fn destroying_a_declined_device_releases_nothing() {
    let mut manager = InputManager::new();
    manager.device_added(9, DeviceKind::TabletPad, None);
    let outcome = manager.device_destroyed(9);
    assert!(!outcome.was_bound);
    assert!(outcome.released.is_empty());
    assert_eq!(manager.lookup_kind(9), None);
}

#[test]
fn weak_references_miss_without_fault_once_the_device_is_gone() {
    let mut manager = InputManager::new();
    assert_eq!(manager.lookup_kind(11), None);
    manager.device_added(11, DeviceKind::TabletTool, Some(30));
    assert_eq!(manager.lookup_kind(11), Some(DeviceKind::TabletTool));
    manager.device_destroyed(11);
    assert_eq!(manager.lookup_kind(11), None);
    assert!(!manager.is_bound(11));
}

#[test]
fn devices_are_bound_and_torn_down_independently() {
    let mut manager = InputManager::new();
    manager.device_added(1, DeviceKind::Keyboard, Some(100));
    manager.device_added(2, DeviceKind::Pointer, Some(200));
    manager.device_destroyed(1);
    assert_eq!(manager.deliver(1, Channel::Key), Delivery::NoDevice);
    assert_eq!(manager.deliver(2, Channel::PointerAxis), Delivery::Delivered(200));
}

#[test]
fn events_of_another_kind_never_reach_a_handler() {
    let mut manager = InputManager::new();
    manager.device_added(3, DeviceKind::Keyboard, Some(40));
    assert_eq!(manager.deliver(3, Channel::PointerMotion), Delivery::NotSubscribed);
    assert_eq!(manager.deliver(3, Channel::TouchDown), Delivery::NotSubscribed);
    assert_eq!(manager.deliver(3, Channel::Destroy), Delivery::NotSubscribed);
}
