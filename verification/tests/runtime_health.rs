use huali_mascot::labels::{label_index, label_name, LABELS, LABEL_COUNT};
use huali_mascot::runtime_health::{Repair, RuntimeHealth, RuntimeState};

fn slot(label: &str) -> usize {
    label_index(label).expect("tracked label")
}

#[test]
fn runtime_health_lock_never_consumes_repair_budget_and_unlock_has_grace() {
    let mut h = RuntimeHealth::default();
    h.attach("mascot", "old", 0);
    h.session(false, 1_000, false);
    assert_eq!(h.inspect("mascot", true, 8 * 3_600_000), None);
    h.session(true, 8 * 3_600_000, false);
    assert_eq!(h.inspect("mascot", true, 8 * 3_600_000 + 25_000), None);
    assert_eq!(h.view_health("mascot").unwrap().repairs, 0);
}

#[test]
fn runtime_health_reload_then_recreate_is_bounded_without_responsive_renderer() {
    let mut h = RuntimeHealth::default();
    h.attach("mascot", "old", 0);
    assert_eq!(h.inspect("mascot", false, 36_000), Some(Repair::Reload));
    assert_eq!(h.inspect("mascot", false, 72_000), Some(Repair::Recreate));
    assert_eq!(h.inspect("mascot", false, 9_000_000), None);
    assert!(!h.attach("mascot", "old", 75_000));
    assert!(h.attach("mascot", "new", 75_000));
}

#[test]
fn runtime_health_ignores_old_generation_ack_and_hidden_auxiliary_paint() {
    let mut h = RuntimeHealth::default();
    h.attach("mascot-notification", "card", 0);
    h.views[slot("mascot-notification")].sequence = 1;
    h.session(false, 1, false);
    h.session(true, 2, false);
    assert!(!h.ack("mascot-notification", "card", 1, 1, true, 3));
    assert_eq!(h.inspect("mascot-notification", false, 9_000_000), None);
    assert_eq!(
        h.inspect("mascot-notification", true, 9_000_000),
        Some(Repair::Reload)
    );
}

#[test]
fn runtime_health_browser_failure_recreates_directly_and_repeated_request_is_bounded() {
    let mut h = RuntimeHealth::default();
    h.request("mascot-notification", true);
    assert_eq!(
        h.inspect("mascot-notification", false, 36_000),
        Some(Repair::Recreate)
    );
    h.request("mascot-notification", true);
    assert_eq!(h.inspect("mascot-notification", false, 37_000), None);
    assert_eq!(
        h.inspect("mascot-notification", false, 72_000),
        Some(Repair::Recreate)
    );
    h.request("mascot-notification", true);
    assert_eq!(h.inspect("mascot-notification", false, 900_000), None);
}

#[test]
fn runtime_health_hidden_but_responsive_window_resets_budget_after_sustained_health() {
    let mut h = RuntimeHealth::default();
    h.request("mascot-notification", true);
    assert_eq!(
        h.inspect("mascot-notification", false, 36_000),
        Some(Repair::Recreate)
    );
    assert!(h.attach("mascot-notification", "new-card", 40_000));
    h.views[slot("mascot-notification")].application_ready = true;
    for now in (40_000..=165_000).step_by(5_000) {
        h.views[slot("mascot-notification")].sequence += 1;
        let sequence = h.view_health("mascot-notification").unwrap().sequence;
        let epoch = h.epoch;
        assert!(h.ack(
            "mascot-notification",
            "new-card",
            epoch,
            sequence,
            false,
            now
        ));
        assert_eq!(h.inspect("mascot-notification", false, now), None);
    }
    assert_eq!(h.view_health("mascot-notification").unwrap().repairs, 0);
    h.request("mascot-notification", false);
    assert_eq!(
        h.inspect("mascot-notification", false, 170_000),
        Some(Repair::Reload)
    );
}

#[test]
fn runtime_health_live_javascript_without_completed_app_mount_is_not_healthy() {
    let mut h = RuntimeHealth::default();
    h.attach("mascot", "incomplete", 0);
    h.views[slot("mascot")].sequence = 1;
    let epoch = h.epoch;
    assert!(h.ack("mascot", "incomplete", epoch, 1, true, 36_000));
    assert_eq!(h.inspect("mascot", true, 36_000), Some(Repair::Reload));
}

#[test]
fn default_health_tracks_every_label_with_startup_grace() {
    let h = RuntimeHealth::default();
    assert_eq!(h.epoch, 1);
    assert!(h.interactive);
    assert_eq!(h.views.len(), LABEL_COUNT);
    for (i, label) in LABELS.iter().enumerate() {
        assert_eq!(label_index(label), Some(i));
        assert_eq!(label_name(i), *label);
        let view = h.view_health(label).unwrap();
        assert_eq!(view.grace_until, 35_000);
        assert_eq!(view.restore_visible, *label == "mascot");
        assert!(view.instance.is_empty());
    }
    assert!(h.view_health("settings").is_none());
    assert!(h.state("settings").is_none());
}

#[test]
fn session_change_restarts_every_timer_and_bumps_epoch_once() {
    let mut h = RuntimeHealth::default();
    assert!(!h.session(true, 5_000, false));
    assert_eq!(h.epoch, 1);
    assert!(h.session(true, 5_000, true));
    assert_eq!(h.epoch, 2);
    for label in LABELS {
        let view = h.view_health(label).unwrap();
        assert_eq!(view.last_js, 5_000);
        assert_eq!(view.last_paint, 5_000);
        assert_eq!(view.grace_until, 40_000);
        assert_eq!(view.healthy_since, None);
    }
}

#[test]
fn attach_rejects_invalid_and_foreign_instances() {
    let mut h = RuntimeHealth::default();
    assert!(!h.attach("mascot", "", 0));
    assert!(!h.attach("mascot", &"x".repeat(101), 0));
    assert!(h.attach("mascot", &"x".repeat(100), 0));
    assert!(h.attach("mascot", &"x".repeat(100), 10));
    assert!(!h.attach("mascot", "other", 10));
    assert!(!h.attach("unknown", "renderer", 10));
    // Multi-byte characters count by bytes: 34 three-byte characters exceed the limit.
    assert!(!h.attach("panel", &"\u{4e2d}".repeat(34), 0));
    assert!(h.attach("panel", &"\u{4e2d}".repeat(33), 0));
}

#[test]
fn attaching_after_a_repair_starts_a_new_epoch() {
    let mut h = RuntimeHealth::default();
    assert!(h.attach("panel", "first", 0));
    h.request("panel", false);
    assert_eq!(h.inspect("panel", false, 40_000), Some(Repair::Reload));
    let view = h.view_health("panel").unwrap();
    assert!(view.instance.is_empty());
    assert_eq!(view.retired, vec!["first".to_string()]);
    assert!(view.recovered);
    assert_eq!(h.epoch, 1);
    assert!(!h.attach("panel", "first", 41_000));
    assert!(h.attach("panel", "second", 41_000));
    assert_eq!(h.epoch, 2);
    assert_eq!(h.view_health("panel").unwrap().grace_until, 76_000);
}

#[test]
fn retired_instances_are_bounded() {
    let mut h = RuntimeHealth::default();
    for n in 0..20u64 {
        let name = format!("renderer-{n}");
        assert!(h.attach("mascot", &name, n * 100_000));
        // Repairs would stop after two, so keep the budget fresh.
        h.views[slot("mascot")].repairs = 0;
        assert!(h.inspect("mascot", false, n * 100_000 + 40_000).is_some());
    }
    let retired = &h.view_health("mascot").unwrap().retired;
    assert_eq!(retired.len(), 16);
    assert_eq!(retired[0], "renderer-4");
    assert_eq!(retired[15], "renderer-19");
}

#[test]
fn ack_accepts_only_probes_within_the_answered_window() {
    let mut h = RuntimeHealth::default();
    assert!(h.attach("mascot", "r", 0));
    assert_eq!(
        h.next_probe("mascot"),
        Some((RuntimeState { epoch: 1, interactive: true, recovered: false, visible: true }, 1))
    );
    assert_eq!(h.next_probe("mascot").unwrap().1, 2);
    assert!(h.ack("mascot", "r", 1, 1, false, 100));
    assert_eq!(h.view_health("mascot").unwrap().last_paint, 0);
    assert!(!h.ack("mascot", "r", 1, 0, true, 200));
    assert!(!h.ack("mascot", "r", 1, 3, true, 200));
    assert!(!h.ack("mascot", "other", 1, 2, true, 200));
    assert!(h.ack("mascot", "r", 1, 2, true, 300));
    let view = h.view_health("mascot").unwrap();
    assert_eq!((view.last_ack, view.last_js, view.last_paint), (2, 300, 300));
    h.session(false, 400, false);
    assert!(!h.ack("mascot", "r", 2, 2, true, 500));
}

#[test]
fn hidden_auxiliary_window_without_request_is_left_alone() {
    let mut h = RuntimeHealth::default();
    assert_eq!(h.inspect("panel", false, 9_000_000), None);
    assert_eq!(h.inspect("mascot-menu", false, 9_000_000), None);
    assert_eq!(h.inspect("mascot", false, 9_000_000), Some(Repair::Reload));
}

#[test]
fn mounted_application_and_state_publication() {
    let mut h = RuntimeHealth::default();
    assert!(!h.mark_application_ready("mascot", "r"));
    assert!(h.attach("mascot", "r", 0));
    assert!(h.mark_application_ready("mascot", "r"));
    assert!(h.view_health("mascot").unwrap().application_ready);
    assert_eq!(
        h.state("mascot"),
        Some(RuntimeState { epoch: 1, interactive: true, recovered: false, visible: true })
    );
    h.advance_epoch();
    assert_eq!(h.state("panel").unwrap().epoch, 2);
}

#[test]
fn process_failures_of_old_generations_are_ignored() {
    let mut h = RuntimeHealth::default();
    assert_eq!(h.register_native_generation("mascot-menu"), Some(1));
    assert_eq!(h.register_native_generation("mascot-menu"), Some(2));
    assert!(!h.process_failed("mascot-menu", true, 1, 500));
    assert!(!h.view_health("mascot-menu").unwrap().requested);
    assert!(h.process_failed("mascot-menu", true, 2, 500));
    let view = h.view_health("mascot-menu").unwrap();
    assert!(view.requested && view.browser_failed);
    assert_eq!(view.grace_until, 500);
    assert_eq!(h.inspect("mascot-menu", false, 600), Some(Repair::Recreate));
    assert_eq!(h.register_native_generation("elsewhere"), None);
}

#[test]
fn only_the_mascot_may_request_notification_recovery() {
    let mut h = RuntimeHealth::default();
    h.request_notification_recovery("panel");
    assert!(!h.view_health("mascot-notification").unwrap().requested);
    h.request_notification_recovery("mascot");
    let view = h.view_health("mascot-notification").unwrap();
    assert!(view.requested);
    assert!(!view.browser_failed);
}

#[test]
fn stale_paint_of_a_visible_window_triggers_repair() {
    let mut h = RuntimeHealth::default();
    assert!(h.attach("panel", "p", 0));
    assert!(h.mark_application_ready("panel", "p"));
    h.views[slot("panel")].sequence = 10;
    // JavaScript keeps answering but the visible window stops painting.
    assert!(h.ack("panel", "p", 1, 1, false, 20_000));
    assert_eq!(h.inspect("panel", true, 40_000), None);
    assert!(h.ack("panel", "p", 1, 2, false, 60_000));
    assert_eq!(h.inspect("panel", true, 60_000), None);
    assert!(h.ack("panel", "p", 1, 3, false, 66_000));
    assert_eq!(h.inspect("panel", true, 66_000), Some(Repair::Reload));
    let view = h.view_health("panel").unwrap();
    assert!(view.restore_visible);
    assert_eq!(view.repairs, 1);
}
