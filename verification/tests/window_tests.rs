use shotbar::preview::{
    hide_preview_window, preview_position, preview_window_label, show_preview_window,
    MonitorGeometry, PreviewController,
};
use shotbar::windows::{
    capture_shortcut, handle_tray_click, main_window_label, show_editor_window,
    MainWindowAction, TrayEvent,
};

#[test]
fn placement_on_full_hd_at_origin() {
    let geometry = Some(MonitorGeometry { x: 0, y: 0, width: 1920, height: 1080 });
    let p = preview_position(&geometry);
    assert_eq!(p.x, 1600); // 0 + 1920 - 300 - 20
    assert_eq!(p.y, 840); // 0 + 1080 - 180 - 60
}

#[test]
fn placement_without_geometry_is_the_fallback() {
    let p = preview_position(&None);
    assert_eq!(p.x, 1580);
    assert_eq!(p.y, 820);
}

#[test]
fn placement_follows_a_shifted_display() {
    let geometry = Some(MonitorGeometry { x: -1920, y: 100, width: 1920, height: 1080 });
    let p = preview_position(&geometry);
    assert_eq!(p.x, -320);
    assert_eq!(p.y, 940);
}

#[test]
fn show_preview_twice_keeps_one_window_at_latest_placement() {
    let mut controller = PreviewController::new();
    let first = Some(MonitorGeometry { x: 0, y: 0, width: 1920, height: 1080 });
    let second = Some(MonitorGeometry { x: 0, y: 0, width: 2560, height: 1440 });

    let plan1 = show_preview_window(&mut controller, &first);
    assert!(!plan1.close_existing);
    assert_eq!(plan1.config.position.x, 1600);

    let plan2 = show_preview_window(&mut controller, &second);
    assert!(plan2.close_existing);
    assert_eq!(plan2.config.position.x, 2240); // 2560 - 300 - 20
    assert_eq!(plan2.config.position.y, 1200); // 1440 - 180 - 60

    // exactly one window is alive: one hide closes it, the next finds none
    assert!(hide_preview_window(&mut controller));
    assert!(!hide_preview_window(&mut controller));
}

#[test]
fn hide_preview_without_a_window_is_success() {
    let mut controller = PreviewController::new();
    let closed = hide_preview_window(&mut controller);
    assert!(!closed);
}

#[test]
fn preview_window_flags_are_fixed() {
    let mut controller = PreviewController::new();
    let plan = show_preview_window(&mut controller, &None);
    assert_eq!(plan.config.width, 300);
    assert_eq!(plan.config.height, 180);
    assert!(!plan.config.decorations);
    assert!(plan.config.always_on_top);
    assert!(!plan.config.resizable);
    assert!(plan.config.skip_taskbar);
}

#[test]
fn window_labels_and_shortcut() {
    assert_eq!(preview_window_label(), "preview");
    assert_eq!(main_window_label(), "main");
    assert_eq!(capture_shortcut(), "ctrl+alt+s");
}

#[test]
fn tray_left_release_toggles_the_main_window() {
    assert_eq!(
        handle_tray_click(TrayEvent::LeftClickUp, true, true),
        MainWindowAction::Hide
    );
    assert_eq!(
        handle_tray_click(TrayEvent::LeftClickUp, true, false),
        MainWindowAction::ShowAndFocus
    );
}

#[test]
fn tray_ignores_other_events_and_missing_window() {
    assert_eq!(
        handle_tray_click(TrayEvent::Other, true, true),
        MainWindowAction::Ignore
    );
    assert_eq!(
        handle_tray_click(TrayEvent::Other, true, false),
        MainWindowAction::Ignore
    );
    assert_eq!(
        handle_tray_click(TrayEvent::LeftClickUp, false, false),
        MainWindowAction::Ignore
    );
}

#[test]
fn editor_command_is_best_effort() {
    assert_eq!(show_editor_window(true), MainWindowAction::ShowAndFocus);
    assert_eq!(show_editor_window(false), MainWindowAction::Ignore);
}
