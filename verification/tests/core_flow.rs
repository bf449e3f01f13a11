use mousecal::calibrate::{compute, motion_scalar, CalibrationInputs};
use mousecal::core_state::{AppCore, InputEvent, BIND_RECORD, BIND_RESET_X};
use mousecal::keybind::KeyBindState;
use mousecal::scalar::Scalar;

fn val(num: i64, den: i64) -> Scalar {
    Scalar::ratio(num, den)
}

fn inputs_all_missing() -> CalibrationInputs {
    CalibrationInputs::new()
}

#[test]
fn unit_conversion_inch_and_cm() {
    let mut inputs = inputs_all_missing();
    inputs.distance_moved = val(10, 1);
    inputs.distance_is_inch = true;
    let out = compute(inputs, Scalar::Missing, Scalar::Missing);
    assert!(out.physical_distance_cm.same_value(val(254, 10)), "10 inch is 25.4 cm");

    inputs.distance_is_inch = false;
    let out = compute(inputs, Scalar::Missing, Scalar::Missing);
    assert!(out.physical_distance_cm.same_value(val(10, 1)), "10 cm stays 10 cm");
}

#[test]
fn missing_dpi_blanks_only_dpi_metrics() {
    let mut inputs = inputs_all_missing();
    inputs.configured_dpi = Scalar::Missing;
    inputs.current_sensitivity = val(1, 1);
    inputs.revolutions = val(2, 1);
    inputs.target_rpi = val(1, 1);
    inputs.distance_moved = val(10, 1);
    inputs.distance_is_inch = false;
    let x = motion_scalar(5_000_000); // 5000 counts
    let abs = motion_scalar(2_540_000); // 2540 counts
    let out = compute(inputs, x, abs);

    assert!(out.inch_equivalent.is_missing());
    assert!(out.current_rpi.is_missing());
    assert!(out.sensitivity_adjustment_ratio.is_missing());
    assert!(out.adjusted_sensitivity.is_missing());

    assert!(out.physical_distance_cm.same_value(val(10, 1)));
    assert!(out.revolutions_per_dot.same_value(val(1, 2500)));
    assert!(out.revolutions_per_dot_unit_sens.same_value(val(1, 2500)));
    // 2540 counts over 10 cm: 2540 / (10 / 2.54) = 645.16 dots per inch
    assert!(out.computed_dpi.same_value(val(64516, 100)));
}

#[test]
fn zero_divisors_blank_their_metrics() {
    let mut inputs = inputs_all_missing();
    inputs.configured_dpi = val(0, 1);
    inputs.current_sensitivity = val(0, 1);
    inputs.revolutions = val(2, 1);
    inputs.distance_moved = val(0, 1);
    let x = motion_scalar(0);
    let abs = motion_scalar(1_000);
    let out = compute(inputs, x, abs);
    assert!(out.inch_equivalent.is_missing(), "zero DPI divides nothing");
    assert!(out.revolutions_per_dot.is_missing(), "zero motion divides nothing");
    assert!(out.revolutions_per_dot_unit_sens.is_missing(), "zero sensitivity");
    assert!(out.computed_dpi.is_missing(), "zero distance");
    assert!(out.physical_distance_cm.same_value(val(0, 1)), "distance itself is fine");
}

#[test]
fn adjusted_sensitivity_formula() {
    let mut inputs = inputs_all_missing();
    inputs.configured_dpi = val(1000, 1);
    inputs.current_sensitivity = val(2, 1);
    inputs.revolutions = val(2, 1);
    inputs.target_rpi = val(4, 5);
    let x = motion_scalar(5_000_000);
    let out = compute(inputs, x, Scalar::Missing);
    assert!(out.current_rpi.same_value(val(2, 5)));
    assert!(out.sensitivity_adjustment_ratio.same_value(val(2, 1)));
    assert!(out.adjusted_sensitivity.same_value(val(4, 1)));
}

#[test]
fn end_to_end_motion_to_metrics() {
    // Device 1 emits motion totalling dx = 5000 counts while recording is on
    // and the device is active; DPI 1000 and 2 revolutions are entered.
    let mut core = AppCore::new();
    let mut inputs = core.inputs();
    inputs.configured_dpi = val(1000, 1);
    inputs.revolutions = val(2, 1);
    core.set_inputs(inputs);
    core.click_recording_toggle();
    let events = vec![
        InputEvent::PointerMotion { device: 1, dx: 2_000_000, mag: 2_000_000 },
        InputEvent::Other,
        InputEvent::PointerMotion { device: 1, dx: 3_000_000, mag: 3_000_000 },
    ];
    core.tick(&events);
    assert_eq!(core.active_device(), Some(1), "first observed device is auto-selected");
    assert_eq!(core.x_motion_count(), 5_000_000);
    let out = core.outputs();
    assert!(out.inch_equivalent.same_value(val(5, 1)), "5000 counts at 1000 DPI is 5 inch");
    assert!(out.current_rpi.same_value(val(2, 5)), "2 revolutions over 5 inch is 0.4 RPI");
}

#[test]
fn negative_motion_keeps_rpi_positive() {
    let mut inputs = inputs_all_missing();
    inputs.configured_dpi = val(1000, 1);
    inputs.revolutions = val(2, 1);
    let x = motion_scalar(-5_000_000);
    let out = compute(inputs, x, Scalar::Missing);
    assert!(out.inch_equivalent.same_value(val(-5, 1)));
    assert!(out.current_rpi.same_value(val(2, 5)), "RPI is an absolute value");
    assert!(out.revolutions_per_dot.same_value(val(1, 2500)));
}

#[test]
fn core_key_bound_recording_toggle() {
    let mut core = AppCore::new();
    core.begin_bind(BIND_RECORD);
    core.tick(&vec![InputEvent::Key { code: 30, pressed: true }]);
    assert_eq!(core.bind_state(BIND_RECORD), KeyBindState::Bound(30, false));
    assert!(!core.is_recording(), "binding a key does not fire the action");

    core.tick(&vec![InputEvent::Key { code: 30, pressed: true }]);
    assert_eq!(core.bind_state(BIND_RECORD), KeyBindState::Bound(30, true));
    core.apply_triggers();
    assert!(core.is_recording(), "the press toggles recording on");
    assert_eq!(core.bind_state(BIND_RECORD), KeyBindState::Bound(30, false));

    core.apply_triggers();
    assert!(core.is_recording(), "the consumed edge does not fire again");

    core.tick(&vec![InputEvent::Key { code: 30, pressed: true }]);
    core.apply_triggers();
    assert!(!core.is_recording(), "a new press toggles recording off");
}

#[test]
fn core_two_armed_actions_one_press() {
    let mut core = AppCore::new();
    core.begin_bind(BIND_RECORD);
    core.begin_bind(BIND_RESET_X);
    core.tick(&vec![InputEvent::Key { code: 42, pressed: true }]);
    assert_eq!(core.bind_state(BIND_RECORD), KeyBindState::Bound(42, false));
    assert_eq!(core.bind_state(BIND_RESET_X), KeyBindState::Binding, "one press, one consumer");
}

#[test]
fn core_ignores_releases_and_other_events() {
    let mut core = AppCore::new();
    core.begin_bind(BIND_RECORD);
    core.tick(&vec![InputEvent::Key { code: 30, pressed: false }, InputEvent::Other]);
    assert_eq!(core.bind_state(BIND_RECORD), KeyBindState::Binding);
    assert_eq!(core.device_count(), 0);
}

#[test]
fn core_inactive_device_is_not_accumulated() {
    let mut core = AppCore::new();
    core.click_recording_toggle();
    core.tick(&vec![InputEvent::PointerMotion { device: 1, dx: 1_000, mag: 1_000 }]);
    core.tick(&vec![InputEvent::PointerMotion { device: 2, dx: 9_000, mag: 9_000 }]);
    assert_eq!(core.device_count(), 2, "the second device is still registered");
    assert_eq!(core.active_device(), Some(1));
    assert_eq!(core.x_motion_count(), 1_000, "only the active device's motion counts");
}

#[test]
fn core_reset_bind_zeroes_one_sum() {
    let mut core = AppCore::new();
    core.begin_bind(BIND_RESET_X);
    core.tick(&vec![InputEvent::Key { code: 50, pressed: true }]);
    core.click_recording_toggle();
    core.tick(&vec![InputEvent::PointerMotion { device: 1, dx: 2_000, mag: 3_000 }]);
    assert_eq!(core.x_motion_count(), 2_000);
    core.tick(&vec![InputEvent::Key { code: 50, pressed: true }]);
    core.apply_triggers();
    assert_eq!(core.x_motion_count(), 0, "the reset bind zeroes the horizontal sum");
    assert_eq!(core.abs_motion_count(), 3_000, "the absolute sum is untouched");
}

#[test]
fn core_empty_tick_changes_nothing() {
    let mut core = AppCore::new();
    core.tick(&vec![]);
    assert_eq!(core.device_count(), 0);
    assert_eq!(core.active_device(), None);
    assert!(!core.is_recording());
    assert!(core.inputs().configured_dpi.is_missing());
}

#[test]
fn core_select_device_round_trip() {
    let mut core = AppCore::new();
    core.tick(&vec![
        InputEvent::PointerMotion { device: 1, dx: 0, mag: 0 },
        InputEvent::PointerMotion { device: 2, dx: 0, mag: 0 },
    ]);
    core.select_device(2);
    assert_eq!(core.active_device(), Some(2));
    core.select_device(7);
    assert_eq!(core.active_device(), Some(2), "an unknown device is ignored");
}
