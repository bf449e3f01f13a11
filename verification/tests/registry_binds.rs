use mousecal::keybind::{dispatch_key_press, KeyBindState};
use mousecal::registry::DeviceRegistry;

#[test]
fn registry_empty_has_no_selection() {
    let reg = DeviceRegistry::new();
    assert_eq!(reg.active(), None);
    assert_eq!(reg.device_count(), 0);
}

#[test]
fn registry_auto_selects_first_observed() {
    let mut reg = DeviceRegistry::new();
    reg.observe(11);
    assert_eq!(reg.active(), Some(11));
    reg.observe(22);
    assert_eq!(reg.active(), Some(11), "selection is stable once made");
    assert_eq!(reg.device_count(), 2);
}

#[test]
fn registry_observe_is_idempotent() {
    let mut reg = DeviceRegistry::new();
    reg.observe(11);
    reg.observe(11);
    assert_eq!(reg.device_count(), 1);
    assert_eq!(reg.device_at(0), 11);
}

#[test]
fn registry_select_rejects_unknown() {
    let mut reg = DeviceRegistry::new();
    reg.observe(11);
    reg.select(99);
    assert_eq!(reg.active(), Some(11));
    assert_eq!(reg.device_count(), 1, "a rejected selection is not inserted");
}

#[test]
fn registry_select_honours_member() {
    let mut reg = DeviceRegistry::new();
    reg.observe(11);
    reg.observe(22);
    reg.select(22);
    assert_eq!(reg.active(), Some(22));
}

#[test]
fn registry_clear_then_reobserve_repicks() {
    let mut reg = DeviceRegistry::new();
    reg.observe(11);
    reg.observe(22);
    reg.clear_selection();
    assert_eq!(reg.active(), None);
    reg.observe(22);
    assert_eq!(reg.active(), Some(11), "the first known member is re-picked");
}

#[test]
fn bind_poll_is_one_shot() {
    let mut b = KeyBindState::Bound(30, true);
    assert!(b.poll_triggered());
    assert!(!b.poll_triggered());
    assert!(!b.poll_triggered());
    assert_eq!(b, KeyBindState::Bound(30, false));
}

#[test]
fn bind_poll_on_unarmed_states() {
    let mut b = KeyBindState::Unbound;
    assert!(!b.poll_triggered());
    let mut b = KeyBindState::Binding;
    assert!(!b.poll_triggered());
    assert_eq!(b, KeyBindState::Binding);
}

#[test]
fn bind_begin_and_cancel() {
    let mut b = KeyBindState::Unbound;
    b.begin_binding();
    assert_eq!(b, KeyBindState::Binding);
    b.cancel_binding();
    assert_eq!(b, KeyBindState::Unbound);
    let mut b = KeyBindState::Bound(7, false);
    b.cancel_binding();
    assert_eq!(b, KeyBindState::Bound(7, false), "cancel is ignored when not armed");
    b.begin_binding();
    assert_eq!(b, KeyBindState::Binding, "rebinding discards the old key");
}

#[test]
fn key_press_binds_only_first_armed() {
    let mut binds = vec![KeyBindState::Binding, KeyBindState::Binding];
    dispatch_key_press(&mut binds, 42);
    assert_eq!(binds[0], KeyBindState::Bound(42, false));
    assert_eq!(binds[1], KeyBindState::Binding, "the second armed action keeps waiting");
}

#[test]
fn key_press_triggers_earlier_bound_then_arms() {
    let mut binds = vec![
        KeyBindState::Bound(5, false),
        KeyBindState::Binding,
        KeyBindState::Binding,
    ];
    dispatch_key_press(&mut binds, 5);
    assert_eq!(binds[0], KeyBindState::Bound(5, true), "a matching bound action fires");
    assert_eq!(binds[1], KeyBindState::Bound(5, false), "the first armed action consumes");
    assert_eq!(binds[2], KeyBindState::Binding);
}

#[test]
fn key_press_ignores_unbound_and_mismatched() {
    let mut binds = vec![KeyBindState::Unbound, KeyBindState::Bound(9, false)];
    dispatch_key_press(&mut binds, 5);
    assert_eq!(binds[0], KeyBindState::Unbound);
    assert_eq!(binds[1], KeyBindState::Bound(9, false));
}
