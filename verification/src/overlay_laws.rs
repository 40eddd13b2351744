//! Properties of the overlay visibility state machines that span operations.

use vstd::prelude::*;
use crate::overlay_state::{
    menu_can_ack_layout, menu_can_prepare, menu_cancel_generation, menu_expire_pending_show,
    menu_mark_awaiting_layout_ack, menu_mark_ready, menu_mark_visible, menu_request_hide,
    menu_request_show, menu_initial, next_generation, notification_can_hide, notification_can_show,
    notification_cancel_show, notification_initial, notification_mark_visible,
    notification_request_hide, notification_request_show, abandoned_show, failure_cancels,
    failure_hides, MascotContextMenuStatus, MascotSystemNotificationStatus, NotificationShowFailure,
};

verus! {

/// Once a notification request is granted generation `g`, every show or hide
/// prepared for any other generation is refused.
pub proof fn law_notification_request_supersedes_older_generations(
    s: MascotSystemNotificationStatus,
    show: bool,
    compact: bool,
    client_generation: Option<u64>,
    other: u64,
    other_compact: bool,
)
    requires
        (if show {
            notification_request_show(s, compact, client_generation)
        } else {
            notification_request_hide(s, client_generation)
        }).1 is Some,
        other != (if show {
            notification_request_show(s, compact, client_generation)
        } else {
            notification_request_hide(s, client_generation)
        }).1->0,
    ensures
        ({
            let after = if show {
                notification_request_show(s, compact, client_generation).0
            } else {
                notification_request_hide(s, client_generation).0
            };
            !notification_can_show(after, other, other_compact) && !notification_can_hide(after, other)
                && notification_mark_visible(after, other, other_compact) == (after, false)
                && notification_cancel_show(after, other) == after
        }),
{
}

/// After a granted hide nothing may show the card until a new show is requested.
pub proof fn law_notification_hide_blocks_every_show(
    s: MascotSystemNotificationStatus,
    client_generation: Option<u64>,
    generation: u64,
    compact: bool,
)
    requires
        notification_request_hide(s, client_generation).1 is Some,
    ensures
        !notification_can_show(notification_request_hide(s, client_generation).0, generation, compact),
{
}

/// Renderer request numbers only move forward: a request numbered no higher
/// than one already taken is refused and changes nothing, so a delayed show
/// can never revive the card after a later hide.
pub proof fn law_notification_stale_client_request_is_refused(
    s: MascotSystemNotificationStatus,
    compact: bool,
    client_generation: u64,
)
    requires
        client_generation <= s.client_generation,
    ensures
        notification_request_show(s, compact, Some(client_generation)) == (s, None::<u64>),
        notification_request_hide(s, Some(client_generation)) == (s, None::<u64>),
{
}

/// A delayed show numbered below a granted hide is refused after that hide.
pub proof fn law_notification_delayed_show_cannot_follow_hide(
    s: MascotSystemNotificationStatus,
    hide_client_generation: u64,
    show_client_generation: u64,
    compact: bool,
)
    requires
        notification_request_hide(s, Some(hide_client_generation)).1 is Some,
        show_client_generation <= hide_client_generation,
    ensures
        notification_request_show(
            notification_request_hide(s, Some(hide_client_generation)).0,
            compact,
            Some(show_client_generation),
        ).1 is None,
{
}

/// Every notification request keeps the renderer request number from decreasing.
pub proof fn law_notification_client_generation_is_monotonic(
    s: MascotSystemNotificationStatus,
    compact: bool,
    client_generation: Option<u64>,
)
    ensures
        notification_request_show(s, compact, client_generation).0.client_generation >= s.client_generation,
        notification_request_hide(s, client_generation).0.client_generation >= s.client_generation,
{
}

/// Nothing is shown before the notification renderer is ready.
pub proof fn law_notification_show_waits_for_ready(
    s: MascotSystemNotificationStatus,
    compact: bool,
    client_generation: Option<u64>,
    generation: u64,
)
    requires
        !s.ready,
    ensures
        notification_request_show(s, compact, client_generation) == (s, None::<u64>),
        !notification_can_show(s, generation, compact),
{
}

/// A visible card always belongs to a ready renderer, whatever operation runs.
pub proof fn law_notification_visible_implies_ready(
    s: MascotSystemNotificationStatus,
    compact: bool,
    client_generation: Option<u64>,
    generation: u64,
)
    requires
        s.visible ==> s.ready,
    ensures
        ({
            let a = notification_request_show(s, compact, client_generation).0;
            a.visible ==> a.ready
        }),
        ({
            let a = notification_request_hide(s, client_generation).0;
            a.visible ==> a.ready
        }),
        ({
            let a = notification_mark_visible(s, generation, compact).0;
            a.visible ==> a.ready
        }),
        ({
            let a = notification_cancel_show(s, generation);
            a.visible ==> a.ready
        }),
        notification_initial().visible ==> notification_initial().ready,
{
}

/// Once a menu request is granted generation `g`, everything prepared for
/// any other generation is stale: it can neither be laid out, acknowledged,
/// shown, expired nor cancelled.
pub proof fn law_menu_request_supersedes_older_generations(s: MascotContextMenuStatus, show: bool, other: u64)
    requires
        other != (if show { menu_request_show(s).1 } else { menu_request_hide(s).1 }),
    ensures
        ({
            let after = if show { menu_request_show(s).0 } else { menu_request_hide(s).0 };
            &&& !menu_can_prepare(after, other)
            &&& !menu_can_ack_layout(after, other)
            &&& menu_mark_awaiting_layout_ack(after, other) == (after, false)
            &&& menu_mark_visible(after, other) == (after, false)
            &&& menu_expire_pending_show(after, other) == (after, false)
            &&& menu_cancel_generation(after, other) == (after, false)
        }),
{
}

/// A hide requested before the menu renderer is ready prevents the earlier
/// show from appearing once it becomes ready.
pub proof fn law_menu_hide_before_ready_prevents_late_show(s: MascotContextMenuStatus)
    ensures
        menu_mark_ready(menu_request_hide(menu_request_show(s).0).0).1 is None,
        !menu_mark_ready(menu_request_hide(menu_request_show(s).0).0).0.desired_visible,
{
}

/// A new show hides whatever older menu generation was visible, so that
/// menu's delayed focus loss cannot affect the new request.
pub proof fn law_menu_new_show_resets_visibility(s: MascotContextMenuStatus)
    ensures
        !menu_request_show(s).0.visible,
        menu_request_show(s).0.desired_visible,
        menu_request_show(s).1 == next_generation(s.generation),
{
}

/// The menu is visible or awaiting its layout acknowledgement only while it
/// is wanted and its renderer is ready.
pub open spec fn menu_wf(s: MascotContextMenuStatus) -> bool {
    &&& s.visible ==> s.ready && s.desired_visible
    &&& s.awaiting_layout_ack ==> s.ready && s.desired_visible
}

/// Every menu operation keeps [`menu_wf`].
pub proof fn law_menu_operations_keep_wf(s: MascotContextMenuStatus, generation: u64)
    requires
        menu_wf(s),
    ensures
        menu_wf(menu_initial()),
        menu_wf(menu_request_show(s).0),
        menu_wf(menu_request_hide(s).0),
        menu_wf(menu_mark_ready(s).0),
        menu_wf(menu_mark_awaiting_layout_ack(s, generation).0),
        menu_wf(menu_mark_visible(s, generation).0),
        menu_wf(menu_cancel_generation(s, generation).0),
        menu_wf(menu_expire_pending_show(s, generation).0),
{
}

/// A show abandoned by the current intent after the native window was
/// touched leaves the card hidden and its show no longer allowed.
pub proof fn law_abandoned_show_leaves_the_card_hidden(
    s: MascotSystemNotificationStatus,
    generation: u64,
    failure: NotificationShowFailure,
    compact: bool,
)
    requires
        s.generation == generation,
        failure_cancels(failure) || failure_hides(failure),
    ensures
        !abandoned_show(s, generation, failure).visible,
        failure_cancels(failure) ==> !notification_can_show(abandoned_show(s, generation, failure), generation, compact),
{
}

} // verus!
