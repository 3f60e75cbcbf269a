use heater_control::ssr_control::SsrCommand;
use heater_control::temp_sensor::SafetyMonitor;

#[test]
fn hysteresis_locks_high_holds_between_and_unlocks_low() {
    let mut monitor = SafetyMonitor::new();
    assert_eq!(monitor.on_reading(7100), Some(SsrCommand::Lock));
    assert_eq!(monitor.on_reading(5000), None);
    assert_eq!(monitor.on_reading(2900), Some(SsrCommand::Unlock));
}

#[test]
fn repeated_high_readings_lock_only_once() {
    let mut monitor = SafetyMonitor::new();
    assert_eq!(monitor.on_reading(7100), Some(SsrCommand::Lock));
    assert_eq!(monitor.on_reading(7100), None);
    assert_eq!(monitor.on_reading(7100), None);
}

#[test]
fn thresholds_are_reached_exactly_at_the_limits() {
    let mut monitor = SafetyMonitor::new();
    assert_eq!(monitor.on_reading(6999), None, "just below the high limit");
    assert_eq!(monitor.on_reading(7000), Some(SsrCommand::Lock));
    assert_eq!(monitor.on_reading(3000), None, "at the low limit: still locked");
    assert_eq!(monitor.on_reading(2999), Some(SsrCommand::Unlock));
}

#[test]
fn low_readings_while_unlocked_do_nothing() {
    let mut monitor = SafetyMonitor::new();
    assert_eq!(monitor.on_reading(2000), None);
    assert_eq!(monitor.on_reading(5000), None);
    assert!(!monitor.temperature_exceeded());
}

#[test]
fn failed_readings_never_change_the_state() {
    let mut monitor = SafetyMonitor::new();
    assert_eq!(monitor.on_sample(None), None);
    assert!(!monitor.temperature_exceeded());

    assert_eq!(monitor.on_sample(Some(7500)), Some(SsrCommand::Lock));
    assert!(monitor.temperature_exceeded());

    assert_eq!(monitor.on_sample(None), None, "an error is no unlock trigger");
    assert!(monitor.temperature_exceeded());

    assert_eq!(monitor.on_sample(Some(2500)), Some(SsrCommand::Unlock));
    assert!(!monitor.temperature_exceeded());
}
