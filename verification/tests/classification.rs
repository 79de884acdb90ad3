use input_manager::boundary_verdict;
use input_manager::classify;
use input_manager::classify_or_fault;
use input_manager::DeviceKind;
use input_manager::Fault;
use input_manager::Verdict;

#[test]
fn five_kinds_map_uniquely() {
    assert_eq!(classify(0), Some(DeviceKind::Keyboard));
    assert_eq!(classify(1), Some(DeviceKind::Pointer));
    assert_eq!(classify(2), Some(DeviceKind::Touch));
    assert_eq!(classify(3), Some(DeviceKind::TabletTool));
    assert_eq!(classify(4), Some(DeviceKind::TabletPad));
}

#[test]
fn no_valid_kind_is_unhandled() {
    let kinds: Vec<DeviceKind> = (0u32..5).map(|raw| classify(raw).unwrap()).collect();
    for i in 0..kinds.len() {
        for j in 0..kinds.len() {
            if i != j {
                assert_ne!(kinds[i], kinds[j]);
            }
        }
    }
}

#[test]
fn raw_values_outside_enumeration_are_rejected() {
    assert_eq!(classify(5), None);
    assert_eq!(classify(6), None);
    assert_eq!(classify(u32::MAX), None);
}

#[test]
fn unknown_kind_terminates_before_any_handler() {
    let fault = classify_or_fault(9).unwrap_err();
    assert_eq!(fault, Fault::UnknownDeviceKind);
    assert_eq!(boundary_verdict(Err(fault)), Verdict::AbortProcess);
}

#[test]
fn completed_sequence_passes_the_boundary() {
    assert_eq!(boundary_verdict(Ok(())), Verdict::Completed);
}

#[test]
fn every_fault_is_terminal() {
    for fault in [
        Fault::UnknownDeviceKind,
        Fault::KeymapContextFailed,
        Fault::KeymapCompileFailed,
        Fault::HandlerFault,
    ] {
        assert_eq!(boundary_verdict(Err(fault)), Verdict::AbortProcess);
    }
}
