use input_manager::boundary_verdict;
use input_manager::default_repeat_info;
use input_manager::keymap_build_outcome;
use input_manager::keymap_config_from_values;
use input_manager::Fault;
use input_manager::Verdict;

#[test]
fn unset_values_default_to_empty_strings() {
    let config = keymap_config_from_values(None, None, None, None, None);
    assert_eq!(config.rules, "");
    assert_eq!(config.model, "");
    assert_eq!(config.layout, "");
    assert_eq!(config.variant, "");
    assert_eq!(config.options, "");
}

#[test]
fn set_values_are_kept_verbatim() {
    let config = keymap_config_from_values(
        Some("evdev".to_string()),
        Some("pc105".to_string()),
        Some("us".to_string()),
        Some("dvorak".to_string()),
        Some("ctrl:nocaps".to_string()),
    );
    assert_eq!(config.rules, "evdev");
    assert_eq!(config.model, "pc105");
    assert_eq!(config.layout, "us");
    assert_eq!(config.variant, "dvorak");
    assert_eq!(config.options, "ctrl:nocaps");
}

#[test]
fn layout_alone_may_be_set() {
    let config = keymap_config_from_values(None, None, Some("us".to_string()), None, None);
    assert_eq!(config.layout, "us");
    assert_eq!(config.rules, "");
    assert_eq!(config.options, "");
}

#[test]
fn repeat_policy_is_twenty_five_per_second_after_six_hundred_ms() {
    let info = default_repeat_info();
    assert_eq!(info.rate, 25);
    assert_eq!(info.delay, 600);
}

#[test]
fn missing_context_is_fatal() {
    assert_eq!(
        keymap_build_outcome(false, false).unwrap_err(),
        Fault::KeymapContextFailed
    );
    assert_eq!(
        keymap_build_outcome(false, true).unwrap_err(),
        Fault::KeymapContextFailed
    );
}

#[test]
fn failed_compilation_is_fatal() {
    assert_eq!(
        keymap_build_outcome(true, false).unwrap_err(),
        Fault::KeymapCompileFailed
    );
}

#[test]
fn successful_compilation_applies_the_fixed_repeat_policy() {
    let info = keymap_build_outcome(true, true).unwrap();
    assert_eq!(info.rate, 25);
    assert_eq!(info.delay, 600);
}

#[test]
fn keymap_faults_terminate_the_process() {
    let fault = keymap_build_outcome(true, false).unwrap_err();
    assert_eq!(boundary_verdict(Err(fault)), Verdict::AbortProcess);
    let fault = keymap_build_outcome(false, true).unwrap_err();
    assert_eq!(boundary_verdict(Err(fault)), Verdict::AbortProcess);
}
