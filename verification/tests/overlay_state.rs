use huali_mascot::overlay_state::{
    MascotContextMenuState, MascotSystemNotificationState, NotificationShowFailure,
};

#[test]
fn context_menu_state_waits_for_webview_ready_and_cancels_stale_show() {
    let mut state = MascotContextMenuState::default();
    let first_show = state.request_show();
    assert!(!state.can_prepare(first_show));
    assert_eq!(state.mark_ready(), Some(first_show));
    assert!(state.can_prepare(first_show));
    assert!(state.mark_awaiting_layout_ack(first_show));
    assert!(state.can_ack_layout(first_show));

    state.request_hide();
    assert!(!state.can_prepare(first_show));
    assert!(!state.can_ack_layout(first_show));
    assert!(!state.snapshot().visible);

    let latest_show = state.request_show();
    assert!(!state.can_prepare(first_show));
    assert!(state.can_prepare(latest_show));
    assert!(state.mark_awaiting_layout_ack(latest_show));
    assert!(state.mark_visible(latest_show));
    assert!(state.snapshot().visible);
}

#[test]
fn context_menu_hide_before_ready_prevents_late_first_show() {
    let mut state = MascotContextMenuState::default();
    let stale_show = state.request_show();
    state.request_hide();

    assert_eq!(state.mark_ready(), None);
    assert!(!state.can_prepare(stale_show));
    assert!(!state.snapshot().desired_visible);
}

#[test]
fn stale_focus_loss_cannot_cancel_a_new_context_menu_generation() {
    let mut state = MascotContextMenuState::default();
    let first_show = state.request_show();
    assert_eq!(state.mark_ready(), Some(first_show));
    assert!(state.mark_awaiting_layout_ack(first_show));
    assert!(state.mark_visible(first_show));
    assert!(state.is_visible());

    let replacement_show = state.request_show();
    assert!(!state.is_visible());
    assert!(state.can_prepare(replacement_show));
    assert!(!state.can_prepare(first_show));
    assert!(!state.can_ack_layout(first_show));
}

#[test]
fn quick_show_hide_show_rejects_every_stale_layout_ack_and_timeout() {
    let mut state = MascotContextMenuState::default();
    state.mark_ready();

    let first_show = state.request_show();
    assert!(state.mark_awaiting_layout_ack(first_show));
    state.request_hide();
    let latest_show = state.request_show();
    assert!(state.mark_awaiting_layout_ack(latest_show));

    assert!(!state.can_ack_layout(first_show));
    assert!(state.can_ack_layout(latest_show));
    assert!(!state.expire_pending_show(first_show));
    assert!(state.snapshot().desired_visible);
    assert_eq!(state.snapshot().generation, latest_show);
}

#[test]
fn repeated_notification_ready_is_idempotent() {
    let mut state = MascotSystemNotificationState::default();
    assert!(state.mark_ready());
    let generation = state.request_show(false, Some(1)).unwrap();
    assert!(state.mark_visible(generation, false));
    assert!(!state.mark_ready());
    assert_eq!(state.visible_compact(), Some(false));
}

#[test]
fn notification_show_hide_show_generations_reject_stale_native_transitions() {
    let mut state = MascotSystemNotificationState::default();
    assert_eq!(state.request_show(false, Some(1)), None);
    state.mark_ready();

    let stale_show = state.request_show(false, Some(2)).unwrap();
    assert!(state.can_show(stale_show, false));
    let stale_hide = state.request_hide(Some(3)).unwrap();
    assert!(!state.can_show(stale_show, false));
    assert!(state.can_hide(stale_hide));

    assert_eq!(state.request_show(false, Some(2)), None);
    let latest_show = state.request_show(true, Some(4)).unwrap();
    assert!(!state.can_hide(stale_hide));
    assert!(state.can_show(latest_show, true));
    assert!(state.mark_visible(latest_show, true));
    assert_eq!(state.visible_compact(), Some(true));

    let latest_hide = state.request_hide(Some(5)).unwrap();
    assert!(!state.can_show(latest_show, true));
    assert!(state.can_hide(latest_hide));
    state.mark_physical_hidden();
    assert_eq!(state.visible_compact(), None);
}

#[test]
fn repeated_notification_cycles_never_allow_a_delayed_show_to_revive_the_overlay() {
    let mut state = MascotSystemNotificationState::default();
    state.mark_ready();

    for cycle in 0_u64..32 {
        let show_client_generation = cycle * 2 + 1;
        let hide_client_generation = show_client_generation + 1;
        let show_generation = state
            .request_show(false, Some(show_client_generation))
            .unwrap();
        assert!(state.mark_visible(show_generation, false));

        let hide_generation = state.request_hide(Some(hide_client_generation)).unwrap();
        assert!(state.can_hide(hide_generation));
        assert_eq!(
            state.request_show(false, Some(show_client_generation)),
            None,
            "cycle {cycle} accepted a delayed stale show"
        );
        state.mark_physical_hidden();
        assert_eq!(state.visible_compact(), None);
    }
}

#[test]
fn notification_generation_wraps_and_requests_without_number_are_taken() {
    let mut state = MascotSystemNotificationState::default();
    state.mark_ready();
    state.status.generation = u64::MAX;
    assert_eq!(state.request_show(true, None), Some(0));
    assert_eq!(state.request_hide(None), Some(1));
    assert_eq!(state.status.client_generation, 0);
}

#[test]
fn cancelled_notification_show_is_withdrawn_only_for_its_generation() {
    let mut state = MascotSystemNotificationState::default();
    state.mark_ready();
    let show = state.request_show(false, None).unwrap();
    assert!(state.mark_visible(show, false));
    state.cancel_show(show + 1);
    assert_eq!(state.visible_compact(), Some(false));
    state.cancel_show(show);
    assert_eq!(state.visible_compact(), None);
    assert!(!state.can_show(show, false));
    assert!(!state.mark_visible(show, false));
}

#[test]
fn notification_reset_for_recovery_keeps_request_numbers() {
    let mut state = MascotSystemNotificationState::default();
    state.mark_ready();
    let show = state.request_show(true, Some(7)).unwrap();
    assert!(state.mark_visible(show, true));
    state.reset_for_recovery();
    assert!(!state.is_ready());
    assert_eq!(state.visible_compact(), None);
    assert_eq!(state.status.generation, show + 1);
    state.mark_ready();
    assert_eq!(state.request_show(false, Some(7)), None);
    assert_eq!(state.request_show(false, Some(8)), Some(show + 2));
}

#[test]
fn expired_menu_show_is_cancelled_and_later_generations_survive() {
    let mut state = MascotContextMenuState::default();
    state.mark_ready();
    let show = state.request_show();
    assert!(state.expire_pending_show(show));
    assert_eq!(state.snapshot().generation, show + 1);
    assert!(!state.snapshot().desired_visible);
    assert!(!state.cancel_generation(show));
    let next = state.request_show();
    assert!(state.mark_awaiting_layout_ack(next));
    assert!(state.mark_visible(next));
    assert!(!state.expire_pending_show(next));
    assert!(state.cancel_generation(next));
    assert!(!state.is_visible());
}

#[test]
fn menu_reset_for_recovery_invalidates_every_generation() {
    let mut state = MascotContextMenuState::default();
    state.mark_ready();
    let show = state.request_show();
    state.reset_for_recovery();
    assert!(!state.is_ready());
    assert!(!state.can_prepare(show));
    assert_eq!(state.snapshot().generation, show + 1);
    assert_eq!(state.mark_ready(), None);
}

#[test]
fn an_abandoned_show_cancels_or_hides_as_its_failure_requires() {
    let mut state = MascotSystemNotificationState::default();
    state.mark_ready();
    let first = state.request_show(false, None).expect("ready");
    assert!(state.mark_visible(first, false));

    // A failure before any window was touched by a superseded show changes nothing.
    state.abandon_show(first, NotificationShowFailure::SupersededBeforeWindow);
    assert_eq!(state.visible_compact(), Some(false));
    assert!(state.can_show(first, false));

    // A failed placement gives up the intent and hides the card.
    state.abandon_show(first, NotificationShowFailure::PositionFailed);
    assert_eq!(state.visible_compact(), None);
    assert!(!state.can_show(first, false));
    assert!(NotificationShowFailure::PositionFailed.hides_native());
    assert_eq!(NotificationShowFailure::PositionFailed.reason(), "position-failed");

    // A show superseded after it reached the window only hides the card; the
    // newer intent stays.
    let second = state.request_show(true, None).expect("ready");
    assert!(state.mark_visible(second, true));
    let third = state.request_show(false, None).expect("ready");
    state.abandon_show(second, NotificationShowFailure::SupersededAfterShow);
    assert_eq!(state.visible_compact(), None);
    assert!(state.can_show(third, false));

    // A refused native show gives up the intent without hiding again.
    assert!(!NotificationShowFailure::NativeShowFailed.hides_native());
    assert!(NotificationShowFailure::NativeShowFailed.cancels());
    state.abandon_show(third, NotificationShowFailure::NativeShowFailed);
    assert!(!state.can_show(third, false));
    assert_eq!(NotificationShowFailure::NotReadyOrStale.reason(), "not-ready-or-stale");
}
