use quick_picker::autohide::{grace_interval_ms, resolve_focus_loss, schedule_check};
use quick_picker::tray::{dispatch, TrayAction, TrayButton, TrayButtonState, TrayEvent};
use quick_picker::window::{
    apply_action, quick_picker_config, toggle, toggle_action, ToggleAction, WindowError,
    WindowKind, WindowState,
};

#[test]
fn quick_picker_toggle_cycle_from_absent() {
    let absent = WindowState { exists: false, visible: false, focused: false };

    let (a1, s1) = toggle(WindowKind::QuickPicker, absent);
    assert_eq!(a1, ToggleAction::CreateAndFocus);
    assert_eq!(s1, WindowState { exists: true, visible: true, focused: true });

    let (a2, s2) = toggle(WindowKind::QuickPicker, s1);
    assert_eq!(a2, ToggleAction::Hide);
    assert_eq!(s2, WindowState { exists: true, visible: false, focused: false });

    let (a3, s3) = toggle(WindowKind::QuickPicker, s2);
    assert_eq!(a3, ToggleAction::ShowAndFocus);
    assert_eq!(s3, WindowState { exists: true, visible: true, focused: true });
}

#[test]
fn absent_main_window_toggle_is_a_noop() {
    let absent = WindowState { exists: false, visible: false, focused: false };
    let (a, s) = toggle(WindowKind::Main, absent);
    assert_eq!(a, ToggleAction::NoAction);
    assert_eq!(s, absent);
}

#[test]
fn existing_main_window_toggles_visibility() {
    let shown = WindowState { exists: true, visible: true, focused: true };
    assert_eq!(toggle_action(WindowKind::Main, shown), ToggleAction::Hide);
    let hidden = apply_action(shown, ToggleAction::Hide);
    assert_eq!(hidden, WindowState { exists: true, visible: false, focused: false });
    assert_eq!(toggle_action(WindowKind::Main, hidden), ToggleAction::ShowAndFocus);
}

#[test]
fn quick_picker_config_is_fixed() {
    let c = quick_picker_config();
    assert_eq!(c.width, 500);
    assert_eq!(c.height, 300);
    assert_eq!(c.min_width, 400);
    assert_eq!(c.min_height, 200);
    assert!(c.centered);
    assert!(c.resizable);
    assert!(!c.decorations);
    assert!(c.transparent);
    assert!(c.always_on_top);
    assert!(c.skip_taskbar);
}

#[test]
fn tray_left_release_toggles_quick_picker() {
    let e = TrayEvent::Click { button: TrayButton::LeftButton, state: TrayButtonState::Up };
    assert_eq!(dispatch(e), TrayAction::Toggle(WindowKind::QuickPicker));
}

#[test]
fn tray_right_release_toggles_main() {
    let e = TrayEvent::Click { button: TrayButton::RightButton, state: TrayButtonState::Up };
    assert_eq!(dispatch(e), TrayAction::Toggle(WindowKind::Main));
}

#[test]
fn tray_other_events_are_ignored() {
    let press = TrayEvent::Click { button: TrayButton::LeftButton, state: TrayButtonState::Down };
    assert_eq!(dispatch(press), TrayAction::Ignore);
    let right_press =
        TrayEvent::Click { button: TrayButton::RightButton, state: TrayButtonState::Down };
    assert_eq!(dispatch(right_press), TrayAction::Ignore);
    let middle = TrayEvent::Click { button: TrayButton::OtherButton, state: TrayButtonState::Up };
    assert_eq!(dispatch(middle), TrayAction::Ignore);
    assert_eq!(dispatch(TrayEvent::OtherEvent), TrayAction::Ignore);
}

#[test]
fn focus_loss_schedules_check_only_for_quick_picker() {
    assert!(schedule_check(true, false));
    assert!(!schedule_check(true, true));
    assert!(!schedule_check(false, false));
    assert!(!schedule_check(false, true));
}

#[test]
fn refocused_within_grace_stays_visible() {
    let refocused = WindowState { exists: true, visible: true, focused: true };
    let (action, after) = resolve_focus_loss(refocused);
    assert_eq!(action, ToggleAction::NoAction);
    assert_eq!(after, refocused);
    assert!(after.visible);
}

#[test]
fn still_unfocused_after_grace_is_hidden() {
    let unfocused = WindowState { exists: true, visible: true, focused: false };
    let (action, after) = resolve_focus_loss(unfocused);
    assert_eq!(action, ToggleAction::Hide);
    assert!(!after.visible);
}

#[test]
fn grace_interval_is_100ms() {
    assert_eq!(grace_interval_ms(), 100);
}

#[test]
fn window_error_carries_the_runtime_message() {
    let create = WindowError::CreateFailed("window creation refused".to_string());
    assert_eq!(create.message().as_str(), "window creation refused");
    let op = WindowError::OperationFailed("window gone".to_string());
    assert_eq!(op.message().as_str(), "window gone");
}
