use huali_mascot::recovery_windows::{RecoveryWindow, RecoveryWindows};
use huali_mascot::runtime_health::Repair;

fn snapshot(x: i32, visible: bool) -> RecoveryWindow {
    RecoveryWindow {
        x,
        y: 20,
        width: 120,
        height: 104,
        visible,
        recreate: false,
        mounted: false,
    }
}

#[test]
fn a_repair_keeps_the_geometry_from_before_the_first_repair() {
    let mut windows = RecoveryWindows::default();
    windows.save_for_repair("mascot", snapshot(10, true), Repair::Reload);
    // The second repair sees the window parked off screen; that must not win.
    windows.save_for_repair("mascot", snapshot(-32_000, false), Repair::Recreate);
    let kept = windows.pending("mascot").expect("snapshot of the mascot");
    assert_eq!(kept.x, 10);
    assert!(kept.visible);
    assert!(kept.recreate);
    assert!(!kept.mounted);
    assert!(windows.rebuilding());
}

#[test]
fn unknown_labels_are_ignored() {
    let mut windows = RecoveryWindows::default();
    windows.save_for_repair("settings", snapshot(10, true), Repair::Recreate);
    windows.mark_mounted("settings");
    assert_eq!(windows.pending("settings"), None);
    assert!(!windows.rebuilding());
    assert!(windows.recreation_candidates().is_empty());
    assert!(windows.take_mounted().is_empty());
}

#[test]
fn recreation_is_attempted_once() {
    let mut windows = RecoveryWindows::default();
    windows.save_for_repair("panel", snapshot(1, true), Repair::Recreate);
    windows.save_for_repair("mascot-menu", snapshot(2, false), Repair::Reload);
    windows.save_for_repair("mascot", snapshot(3, true), Repair::Recreate);
    let candidates = windows.recreation_candidates();
    // Visited in label text order: mascot before panel.
    assert_eq!(
        candidates.iter().map(|(index, s)| (*index, s.x)).collect::<Vec<_>>(),
        vec![(0, 3), (1, 1)]
    );
    windows.consume_recreation("mascot");
    windows.consume_recreation("panel");
    assert!(windows.recreation_candidates().is_empty());
    assert!(!windows.rebuilding());
    // The snapshots stay until their applications mount.
    assert_eq!(windows.pending("panel").map(|s| s.x), Some(1));
}

#[test]
fn mounted_windows_are_taken_once_in_label_order() {
    let mut windows = RecoveryWindows::default();
    windows.save_for_repair("panel", snapshot(1, true), Repair::Reload);
    windows.save_for_repair("mascot-notification", snapshot(4, false), Repair::Reload);
    windows.save_for_repair("mascot", snapshot(3, true), Repair::Reload);
    windows.mark_mounted("panel");
    windows.mark_mounted("mascot-notification");
    let ready = windows.take_mounted();
    assert_eq!(
        ready.iter().map(|(index, s)| (*index, s.x)).collect::<Vec<_>>(),
        vec![(3, 4), (1, 1)]
    );
    assert!(ready.iter().all(|(_, s)| s.mounted));
    assert!(windows.take_mounted().is_empty());
    assert_eq!(windows.pending("panel"), None);
    assert_eq!(windows.pending("mascot").map(|s| s.x), Some(3));
}

#[test]
fn hiding_the_assistant_keeps_rebuilt_windows_hidden() {
    let mut windows = RecoveryWindows::default();
    windows.save_for_repair("mascot", snapshot(3, true), Repair::Recreate);
    windows.save_for_repair("panel", snapshot(1, true), Repair::Reload);
    windows.user_hide();
    assert_eq!(windows.pending("mascot").map(|s| s.visible), Some(false));
    assert_eq!(windows.pending("panel").map(|s| s.visible), Some(false));
    assert_eq!(windows.pending("mascot").map(|s| s.x), Some(3));
    assert!(windows.rebuilding());
}
