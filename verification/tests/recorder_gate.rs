use mousecal::recorder::{MotionRecorder, SessionRecorder};

#[test]
fn gate_closed_recorder_is_frozen() {
    let mut rec = MotionRecorder::new();
    rec.record_motion(100, 120);
    assert_eq!(rec.x_count(), 0);
    assert_eq!(rec.abs_count(), 0);
    assert!(!rec.is_recording());
}

#[test]
fn recording_gate_scripted_sequence() {
    // Motion events interleaved with toggles: only the events strictly
    // inside a recording window count, and each opening restarts at zero.
    let mut rec = MotionRecorder::new();
    rec.record_motion(7, 7); // gate closed: ignored
    rec.toggle_recording(); // open
    rec.record_motion(3000, 5000);
    rec.record_motion(-1000, 1000);
    assert_eq!(rec.x_count(), 2000);
    assert_eq!(rec.abs_count(), 6000);
    rec.toggle_recording(); // close: frozen
    rec.record_motion(400, 400);
    assert_eq!(rec.x_count(), 2000);
    assert_eq!(rec.abs_count(), 6000);
    rec.toggle_recording(); // reopen: restart from zero
    assert_eq!(rec.x_count(), 0);
    assert_eq!(rec.abs_count(), 0);
    rec.record_motion(50, 50);
    assert_eq!(rec.x_count(), 50);
    assert_eq!(rec.abs_count(), 50);
}

#[test]
fn recorder_resets_zero_one_sum_each() {
    let mut rec = MotionRecorder::new();
    rec.toggle_recording();
    rec.record_motion(300, 500);
    rec.reset_x();
    assert_eq!(rec.x_count(), 0);
    assert_eq!(rec.abs_count(), 500);
    rec.record_motion(40, 60);
    rec.reset_abs();
    assert_eq!(rec.x_count(), 40);
    assert_eq!(rec.abs_count(), 0);
}

#[test]
fn session_recorder_measures_against_baseline() {
    let mut rec = SessionRecorder::new();
    rec.integrate(1000, 1500); // before any window: integrates anyway
    rec.start_window();
    rec.integrate(30, 40);
    rec.integrate(-10, 15);
    assert_eq!(rec.value_x(), 20, "live value is total minus baseline");
    assert_eq!(rec.value_abs(), 55);
    rec.stop_window();
    rec.integrate(500, 500); // totals keep integrating after the stop
    assert_eq!(rec.value_x(), 20, "a closed window shows its frozen span");
    assert_eq!(rec.value_abs(), 55);
}

#[test]
fn session_recorder_reset_snapshots_new_baseline() {
    let mut rec = SessionRecorder::new();
    rec.start_window();
    rec.integrate(10, 10);
    rec.reset_window();
    assert_eq!(rec.value_x(), 0, "a reset restarts the measured span at zero");
    rec.integrate(5, 5);
    assert_eq!(rec.value_x(), 5);
    assert_eq!(rec.value_abs(), 5);
}
