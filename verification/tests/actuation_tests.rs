use boopboard::actuation::LedTask;
use boopboard::actuation::MotorTask;
use boopboard::store::SampleStore;
use boopboard::HOLD_MS;

#[test]
fn trigger_raises_output_and_holds_for_the_configured_time() {
    let mut task = MotorTask::new();
    let actuation = task.on_trigger();
    assert!(actuation.drive_high);
    assert_eq!(actuation.hold_ms, HOLD_MS);
    assert_eq!(actuation.hold_ms, 100);
}

#[test]
fn release_lowers_output_and_reports_the_ambient_sample_once() {
    let mut store = SampleStore::new();
    let readings: Vec<u16> = vec![23, 0, 0, 0, 0, 0, 0, 0];
    store.publish_from_readings(&readings);

    let mut task = MotorTask::new();
    let _ = task.on_trigger();
    let release = task.on_hold_elapsed(store.ambient_level());
    assert!(!release.drive_high);
    let report = release.report.expect("one completed actuation owes one report");
    assert_eq!(report.as_str(), "boop detected. activating motor. light level: 23");
}

#[test]
fn release_before_first_sample_completes_without_a_report() {
    let store = SampleStore::new();
    let mut task = MotorTask::new();
    let _ = task.on_trigger();
    let release = task.on_hold_elapsed(store.ambient_level());
    assert!(!release.drive_high);
    assert!(release.report.is_none());
}

#[test]
fn motor_cycle_can_run_again_after_release() {
    let mut task = MotorTask::new();
    let _ = task.on_trigger();
    let _ = task.on_hold_elapsed(None);
    let actuation = task.on_trigger();
    assert!(actuation.drive_high);
    assert_eq!(actuation.hold_ms, HOLD_MS);
}

#[test]
fn led_toggles_on_every_trigger() {
    let mut task = LedTask::new();
    let first = task.on_trigger(None);
    assert!(first.drive_high, "first trigger turns the LED on");
    let second = task.on_trigger(None);
    assert!(!second.drive_high, "second trigger turns it off again");
}

#[test]
fn led_report_classifies_ambient_light() {
    let mut task = LedTask::new();
    let dark = task.on_trigger(Some(8));
    assert_eq!(
        dark.report.expect("a sampled store owes a report").as_str(),
        "boop detected. light level: dark"
    );
    let light = task.on_trigger(Some(9));
    assert_eq!(
        light.report.expect("a sampled store owes a report").as_str(),
        "boop detected. light level: light"
    );
}

#[test]
fn led_trigger_without_samples_still_toggles() {
    let mut task = LedTask::new();
    let update = task.on_trigger(None);
    assert!(update.drive_high);
    assert!(update.report.is_none());
}
