//! Visibility intent of the detached overlay windows (system notification
//! card and context menu). Every request numbers a new generation; native
//! show/hide transitions carry the generation they were prepared for, so a
//! delayed transition of an older request can never overtake a newer one.

use vstd::prelude::*;

verus! {

/// The generation after `g`; generations wrap around.
pub open spec fn next_generation(g: u64) -> u64 {
    if g == u64::MAX { 0 } else { (g + 1) as u64 }
}

// ---------------------------------------------------------------------------
// System notification card.
// ---------------------------------------------------------------------------

#[derive(Clone, Copy, Debug, PartialEq, Eq, Structural)]
pub struct MascotSystemNotificationStatus {
    pub ready: bool,
    pub desired_visible: bool,
    pub visible: bool,
    pub desired_compact: bool,
    pub visible_compact: bool,
    pub generation: u64,
    pub client_generation: u64,
}

pub open spec fn notification_initial() -> MascotSystemNotificationStatus {
    MascotSystemNotificationStatus {
        ready: false,
        desired_visible: false,
        visible: false,
        desired_compact: false,
        visible_compact: false,
        generation: 0,
        client_generation: 0,
    }
}

impl Default for MascotSystemNotificationStatus {
    fn default() -> (status: Self)
        ensures
            status == notification_initial(),
    {
        MascotSystemNotificationStatus {
            ready: false,
            desired_visible: false,
            visible: false,
            desired_compact: false,
            visible_compact: false,
            generation: 0,
            client_generation: 0,
        }
    }
}

/// Whether a renderer request numbered `client_generation` is newer than every
/// request already taken (requests without a number are always taken).
pub open spec fn client_request_fresh(s: MascotSystemNotificationStatus, client_generation: Option<u64>) -> bool {
    match client_generation {
        Some(c) => c > s.client_generation,
        None => true,
    }
}

pub open spec fn taken_client_generation(s: MascotSystemNotificationStatus, client_generation: Option<u64>) -> u64 {
    match client_generation {
        Some(c) => c,
        None => s.client_generation,
    }
}

pub open spec fn notification_request_show(
    s: MascotSystemNotificationStatus,
    compact: bool,
    client_generation: Option<u64>,
) -> (MascotSystemNotificationStatus, Option<u64>) {
    if !s.ready || !client_request_fresh(s, client_generation) {
        (s, None)
    } else {
        let g = next_generation(s.generation);
        (
            MascotSystemNotificationStatus {
                client_generation: taken_client_generation(s, client_generation),
                generation: g,
                desired_visible: true,
                desired_compact: compact,
                ..s
            },
            Some(g),
        )
    }
}

pub open spec fn notification_request_hide(
    s: MascotSystemNotificationStatus,
    client_generation: Option<u64>,
) -> (MascotSystemNotificationStatus, Option<u64>) {
    if !client_request_fresh(s, client_generation) {
        (s, None)
    } else {
        let g = next_generation(s.generation);
        (
            MascotSystemNotificationStatus {
                client_generation: taken_client_generation(s, client_generation),
                generation: g,
                desired_visible: false,
                ..s
            },
            Some(g),
        )
    }
}

pub open spec fn notification_can_show(s: MascotSystemNotificationStatus, generation: u64, compact: bool) -> bool {
    s.ready && s.desired_visible && s.generation == generation && s.desired_compact == compact
}

pub open spec fn notification_can_hide(s: MascotSystemNotificationStatus, generation: u64) -> bool {
    !s.desired_visible && s.generation == generation
}

pub open spec fn notification_mark_visible(
    s: MascotSystemNotificationStatus,
    generation: u64,
    compact: bool,
) -> (MascotSystemNotificationStatus, bool) {
    if notification_can_show(s, generation, compact) {
        (MascotSystemNotificationStatus { visible: true, visible_compact: compact, ..s }, true)
    } else {
        (s, false)
    }
}

pub open spec fn notification_cancel_show(s: MascotSystemNotificationStatus, generation: u64) -> MascotSystemNotificationStatus {
    if s.generation == generation {
        MascotSystemNotificationStatus { desired_visible: false, visible: false, ..s }
    } else {
        s
    }
}

/// Intent and readiness of the system notification card.
pub struct MascotSystemNotificationState {
    pub status: MascotSystemNotificationStatus,
}

impl Default for MascotSystemNotificationState {
    fn default() -> (state: Self)
        ensures
            state.status == notification_initial(),
    {
        MascotSystemNotificationState { status: MascotSystemNotificationStatus::default() }
    }
}

impl MascotSystemNotificationState {
    /// The renderer finished loading; returns whether this is the first time.
    pub fn mark_ready(&mut self) -> (first_ready: bool)
        ensures
            first_ready == !old(self).status.ready,
            final(self).status == (MascotSystemNotificationStatus { ready: true, ..old(self).status }),
    {
        let first_ready = !self.status.ready;
        self.status.ready = true;
        first_ready
    }

    pub fn is_ready(&self) -> (ready: bool)
        ensures
            ready == self.status.ready,
    {
        self.status.ready
    }

    /// Asks for the card to be shown. Refused before the renderer is ready
    /// and for a renderer request that is not newer than the last one taken;
    /// otherwise returns the generation of the new intent.
    pub fn request_show(&mut self, compact: bool, client_generation: Option<u64>) -> (generation: Option<u64>)
        ensures
            (final(self).status, generation) == notification_request_show(old(self).status, compact, client_generation),
    {
        if !self.status.ready {
            return None;
        }
        if let Some(client_generation) = client_generation {
            if client_generation <= self.status.client_generation {
                return None;
            }
            self.status.client_generation = client_generation;
        }
        self.status.generation = self.status.generation.wrapping_add(1);
        self.status.desired_visible = true;
        self.status.desired_compact = compact;
        Some(self.status.generation)
    }

    /// Asks for the card to be hidden; refused for a renderer request that is
    /// not newer than the last one taken.
    pub fn request_hide(&mut self, client_generation: Option<u64>) -> (generation: Option<u64>)
        ensures
            (final(self).status, generation) == notification_request_hide(old(self).status, client_generation),
    {
        if let Some(client_generation) = client_generation {
            if client_generation <= self.status.client_generation {
                return None;
            }
            self.status.client_generation = client_generation;
        }
        self.status.generation = self.status.generation.wrapping_add(1);
        self.status.desired_visible = false;
        Some(self.status.generation)
    }

    /// Whether a show prepared for `generation` may still happen.
    pub fn can_show(&self, generation: u64, compact: bool) -> (allowed: bool)
        ensures
            allowed == notification_can_show(self.status, generation, compact),
    {
        self.status.ready && self.status.desired_visible && self.status.generation == generation
            && self.status.desired_compact == compact
    }

    /// Whether a hide prepared for `generation` may still happen.
    pub fn can_hide(&self, generation: u64) -> (allowed: bool)
        ensures
            allowed == notification_can_hide(self.status, generation),
    {
        !self.status.desired_visible && self.status.generation == generation
    }

    /// Records that the card became visible for `generation`, if that show is still wanted.
    pub fn mark_visible(&mut self, generation: u64, compact: bool) -> (marked: bool)
        ensures
            (final(self).status, marked) == notification_mark_visible(old(self).status, generation, compact),
    {
        if !self.status.ready || !self.status.desired_visible || self.status.generation != generation
            || self.status.desired_compact != compact {
            return false;
        }
        self.status.visible = true;
        self.status.visible_compact = compact;
        true
    }

    /// Abandons the show of `generation` when it is still the latest intent.
    pub fn cancel_show(&mut self, generation: u64)
        ensures
            final(self).status == notification_cancel_show(old(self).status, generation),
    {
        if self.status.generation != generation {
            return;
        }
        self.status.desired_visible = false;
        self.status.visible = false;
    }

    /// The native window was hidden.
    pub fn mark_physical_hidden(&mut self)
        ensures
            final(self).status == (MascotSystemNotificationStatus { visible: false, ..old(self).status }),
    {
        self.status.visible = false;
    }

    /// The layout the card is visible with, if it is visible.
    pub fn visible_compact(&self) -> (compact: Option<bool>)
        ensures
            compact == if self.status.visible { Some(self.status.visible_compact) } else { None },
    {
        if self.status.visible {
            Some(self.status.visible_compact)
        } else {
            None
        }
    }

    /// Forgets all intent when the renderer is rebuilt: the generation moves
    /// on (invalidating every prepared transition) and the last renderer
    /// request number is kept, so requests from before the rebuild stay refused.
    pub fn reset_for_recovery(&mut self)
        ensures
            final(self).status == (MascotSystemNotificationStatus {
                generation: next_generation(old(self).status.generation),
                client_generation: old(self).status.client_generation,
                ..notification_initial()
            }),
    {
        let generation = self.status.generation.wrapping_add(1);
        let client_generation = self.status.client_generation;
        self.status = MascotSystemNotificationStatus {
            ready: false,
            desired_visible: false,
            visible: false,
            desired_compact: false,
            visible_compact: false,
            generation,
            client_generation,
        };
    }

    /// Settles a show of `generation` that stopped on `failure` before the
    /// card became visible (the native window has already been hidden when
    /// [`NotificationShowFailure::hides_native`] asks for it).
    pub fn abandon_show(&mut self, generation: u64, failure: NotificationShowFailure)
        ensures
            final(self).status == abandoned_show(old(self).status, generation, failure),
    {
        if failure.cancels() {
            self.cancel_show(generation);
        }
        if failure.hides_native() {
            self.mark_physical_hidden();
        }
    }
}

/// Why a show of the notification card stopped before the card became visible.
#[derive(Clone, Copy, Debug, PartialEq, Eq, Structural)]
pub enum NotificationShowFailure {
    /// The request was refused (renderer not ready, or a stale renderer request).
    NotReadyOrStale,
    /// The intent could not be read.
    StateUnavailable,
    /// The native transition could not be serialized with other transitions.
    TransitionUnavailable,
    /// A newer request arrived before any window was touched.
    SupersededBeforeWindow,
    MascotWindowUnavailable,
    MascotWindowHidden,
    NotificationWindowUnavailable,
    /// The card could not be placed next to the mascot.
    PositionFailed,
    /// A newer request arrived while the card was being placed.
    SupersededAfterPosition,
    /// The native window refused to show.
    NativeShowFailed,
    /// A newer request arrived while the card was being shown.
    SupersededAfterShow,
}

/// Whether the failed show is abandoned as the current intent.
pub open spec fn failure_cancels(failure: NotificationShowFailure) -> bool {
    match failure {
        NotificationShowFailure::TransitionUnavailable
        | NotificationShowFailure::MascotWindowUnavailable
        | NotificationShowFailure::MascotWindowHidden
        | NotificationShowFailure::NotificationWindowUnavailable
        | NotificationShowFailure::PositionFailed
        | NotificationShowFailure::NativeShowFailed => true,
        _ => false,
    }
}

/// Whether the native window may already have been moved or shown, and so is hidden again.
pub open spec fn failure_hides(failure: NotificationShowFailure) -> bool {
    match failure {
        NotificationShowFailure::PositionFailed
        | NotificationShowFailure::SupersededAfterPosition
        | NotificationShowFailure::SupersededAfterShow => true,
        _ => false,
    }
}

pub open spec fn abandoned_show(
    s: MascotSystemNotificationStatus,
    generation: u64,
    failure: NotificationShowFailure,
) -> MascotSystemNotificationStatus {
    let cancelled = if failure_cancels(failure) { notification_cancel_show(s, generation) } else { s };
    if failure_hides(failure) { MascotSystemNotificationStatus { visible: false, ..cancelled } } else { cancelled }
}

impl NotificationShowFailure {
    pub fn cancels(self) -> (cancels: bool)
        ensures
            cancels == failure_cancels(self),
    {
        match self {
            NotificationShowFailure::TransitionUnavailable
            | NotificationShowFailure::MascotWindowUnavailable
            | NotificationShowFailure::MascotWindowHidden
            | NotificationShowFailure::NotificationWindowUnavailable
            | NotificationShowFailure::PositionFailed
            | NotificationShowFailure::NativeShowFailed => true,
            _ => false,
        }
    }

    pub fn hides_native(self) -> (hides: bool)
        ensures
            hides == failure_hides(self),
    {
        match self {
            NotificationShowFailure::PositionFailed
            | NotificationShowFailure::SupersededAfterPosition
            | NotificationShowFailure::SupersededAfterShow => true,
            _ => false,
        }
    }

    /// The reason recorded in the diagnostics log.
    pub fn reason(self) -> (reason: &'static str)
        ensures
            reason@ == match self {
                NotificationShowFailure::NotReadyOrStale => "not-ready-or-stale"@,
                NotificationShowFailure::StateUnavailable => "state-unavailable"@,
                NotificationShowFailure::TransitionUnavailable => "transition-unavailable"@,
                NotificationShowFailure::SupersededBeforeWindow => "superseded-before-window"@,
                NotificationShowFailure::MascotWindowUnavailable => "mascot-window-unavailable"@,
                NotificationShowFailure::MascotWindowHidden => "mascot-window-hidden"@,
                NotificationShowFailure::NotificationWindowUnavailable => "notification-window-unavailable"@,
                NotificationShowFailure::PositionFailed => "position-failed"@,
                NotificationShowFailure::SupersededAfterPosition => "superseded-after-position"@,
                NotificationShowFailure::NativeShowFailed => "native-show-failed"@,
                NotificationShowFailure::SupersededAfterShow => "superseded-after-show"@,
            },
    {
        match self {
            NotificationShowFailure::NotReadyOrStale => "not-ready-or-stale",
            NotificationShowFailure::StateUnavailable => "state-unavailable",
            NotificationShowFailure::TransitionUnavailable => "transition-unavailable",
            NotificationShowFailure::SupersededBeforeWindow => "superseded-before-window",
            NotificationShowFailure::MascotWindowUnavailable => "mascot-window-unavailable",
            NotificationShowFailure::MascotWindowHidden => "mascot-window-hidden",
            NotificationShowFailure::NotificationWindowUnavailable => "notification-window-unavailable",
            NotificationShowFailure::PositionFailed => "position-failed",
            NotificationShowFailure::SupersededAfterPosition => "superseded-after-position",
            NotificationShowFailure::NativeShowFailed => "native-show-failed",
            NotificationShowFailure::SupersededAfterShow => "superseded-after-show",
        }
    }
}

// ---------------------------------------------------------------------------
// Context menu.
// ---------------------------------------------------------------------------

#[derive(Clone, Copy, Debug, PartialEq, Eq, Structural)]
pub struct MascotContextMenuStatus {
    pub ready: bool,
    pub desired_visible: bool,
    pub visible: bool,
    pub awaiting_layout_ack: bool,
    pub generation: u64,
}

pub open spec fn menu_initial() -> MascotContextMenuStatus {
    MascotContextMenuStatus {
        ready: false,
        desired_visible: false,
        visible: false,
        awaiting_layout_ack: false,
        generation: 0,
    }
}

impl Default for MascotContextMenuStatus {
    fn default() -> (status: Self)
        ensures
            status == menu_initial(),
    {
        MascotContextMenuStatus {
            ready: false,
            desired_visible: false,
            visible: false,
            awaiting_layout_ack: false,
            generation: 0,
        }
    }
}

pub open spec fn menu_request_show(s: MascotContextMenuStatus) -> (MascotContextMenuStatus, u64) {
    let g = next_generation(s.generation);
    (MascotContextMenuStatus { generation: g, desired_visible: true, awaiting_layout_ack: false, visible: false, ..s }, g)
}

pub open spec fn menu_request_hide(s: MascotContextMenuStatus) -> (MascotContextMenuStatus, u64) {
    let g = next_generation(s.generation);
    (MascotContextMenuStatus { generation: g, desired_visible: false, awaiting_layout_ack: false, visible: false, ..s }, g)
}

pub open spec fn menu_mark_ready(s: MascotContextMenuStatus) -> (MascotContextMenuStatus, Option<u64>) {
    (MascotContextMenuStatus { ready: true, ..s }, if s.desired_visible { Some(s.generation) } else { None })
}

pub open spec fn menu_can_prepare(s: MascotContextMenuStatus, generation: u64) -> bool {
    s.ready && s.desired_visible && s.generation == generation
}

pub open spec fn menu_mark_awaiting_layout_ack(s: MascotContextMenuStatus, generation: u64) -> (MascotContextMenuStatus, bool) {
    if menu_can_prepare(s, generation) {
        (MascotContextMenuStatus { awaiting_layout_ack: true, ..s }, true)
    } else {
        (s, false)
    }
}

pub open spec fn menu_can_ack_layout(s: MascotContextMenuStatus, generation: u64) -> bool {
    menu_can_prepare(s, generation) && s.awaiting_layout_ack
}

pub open spec fn menu_mark_visible(s: MascotContextMenuStatus, generation: u64) -> (MascotContextMenuStatus, bool) {
    if menu_can_ack_layout(s, generation) {
        (MascotContextMenuStatus { awaiting_layout_ack: false, visible: true, ..s }, true)
    } else {
        (s, false)
    }
}

pub open spec fn menu_cancel_generation(s: MascotContextMenuStatus, generation: u64) -> (MascotContextMenuStatus, bool) {
    if s.generation == generation {
        (
            MascotContextMenuStatus {
                generation: next_generation(s.generation),
                desired_visible: false,
                visible: false,
                awaiting_layout_ack: false,
                ..s
            },
            true,
        )
    } else {
        (s, false)
    }
}

pub open spec fn menu_show_pending(s: MascotContextMenuStatus, generation: u64) -> bool {
    s.generation == generation && s.desired_visible && !s.visible
}

pub open spec fn menu_expire_pending_show(s: MascotContextMenuStatus, generation: u64) -> (MascotContextMenuStatus, bool) {
    if menu_show_pending(s, generation) {
        menu_cancel_generation(s, generation)
    } else {
        (s, false)
    }
}

/// Intent and readiness of the context menu.
pub struct MascotContextMenuState {
    pub status: MascotContextMenuStatus,
}

impl Default for MascotContextMenuState {
    fn default() -> (state: Self)
        ensures
            state.status == menu_initial(),
    {
        MascotContextMenuState { status: MascotContextMenuStatus::default() }
    }
}

impl MascotContextMenuState {
    /// Asks for the menu to be shown and returns the new generation. A new
    /// show supersedes the visibility of any older menu generation, so its
    /// delayed focus loss cannot cancel this request.
    pub fn request_show(&mut self) -> (generation: u64)
        ensures
            (final(self).status, generation) == menu_request_show(old(self).status),
    {
        self.status.generation = self.status.generation.wrapping_add(1);
        self.status.desired_visible = true;
        self.status.awaiting_layout_ack = false;
        self.status.visible = false;
        self.status.generation
    }

    /// Asks for the menu to be hidden and returns the new generation.
    pub fn request_hide(&mut self) -> (generation: u64)
        ensures
            (final(self).status, generation) == menu_request_hide(old(self).status),
    {
        self.status.generation = self.status.generation.wrapping_add(1);
        self.status.desired_visible = false;
        self.status.visible = false;
        self.status.awaiting_layout_ack = false;
        self.status.generation
    }

    /// The menu renderer finished loading; returns the generation of a show
    /// requested before that, if it is still wanted.
    pub fn mark_ready(&mut self) -> (pending: Option<u64>)
        ensures
            (final(self).status, pending) == menu_mark_ready(old(self).status),
    {
        self.status.ready = true;
        if self.status.desired_visible {
            Some(self.status.generation)
        } else {
            None
        }
    }

    /// Whether the menu may still be laid out for `generation`.
    pub fn can_prepare(&self, generation: u64) -> (allowed: bool)
        ensures
            allowed == menu_can_prepare(self.status, generation),
    {
        self.status.ready && self.status.desired_visible && self.status.generation == generation
    }

    pub fn is_ready(&self) -> (ready: bool)
        ensures
            ready == self.status.ready,
    {
        self.status.ready
    }

    /// The layout for `generation` was sent to the renderer; its acknowledgement is awaited.
    pub fn mark_awaiting_layout_ack(&mut self, generation: u64) -> (marked: bool)
        ensures
            (final(self).status, marked) == menu_mark_awaiting_layout_ack(old(self).status, generation),
    {
        if !self.status.ready || !self.status.desired_visible || self.status.generation != generation {
            return false;
        }
        self.status.awaiting_layout_ack = true;
        true
    }

    /// Whether a layout acknowledgement for `generation` is still expected.
    pub fn can_ack_layout(&self, generation: u64) -> (allowed: bool)
        ensures
            allowed == menu_can_ack_layout(self.status, generation),
    {
        self.status.ready && self.status.desired_visible && self.status.awaiting_layout_ack
            && self.status.generation == generation
    }

    /// The acknowledged menu of `generation` became visible, if it is still wanted.
    pub fn mark_visible(&mut self, generation: u64) -> (marked: bool)
        ensures
            (final(self).status, marked) == menu_mark_visible(old(self).status, generation),
    {
        if !self.status.ready || !self.status.desired_visible || !self.status.awaiting_layout_ack
            || self.status.generation != generation {
            return false;
        }
        self.status.awaiting_layout_ack = false;
        self.status.visible = true;
        true
    }

    /// Withdraws `generation` when it is still the latest intent.
    pub fn cancel_generation(&mut self, generation: u64) -> (cancelled: bool)
        ensures
            (final(self).status, cancelled) == menu_cancel_generation(old(self).status, generation),
    {
        if self.status.generation != generation {
            return false;
        }
        self.status.generation = self.status.generation.wrapping_add(1);
        self.status.desired_visible = false;
        self.status.visible = false;
        self.status.awaiting_layout_ack = false;
        true
    }

    /// Withdraws a show of `generation` that never became visible in time.
    pub fn expire_pending_show(&mut self, generation: u64) -> (expired: bool)
        ensures
            (final(self).status, expired) == menu_expire_pending_show(old(self).status, generation),
    {
        let should_expire = self.status.generation == generation && self.status.desired_visible
            && !self.status.visible;
        should_expire && self.cancel_generation(generation)
    }

    pub fn is_visible(&self) -> (visible: bool)
        ensures
            visible == self.status.visible,
    {
        self.status.visible
    }

    pub fn snapshot(&self) -> (status: MascotContextMenuStatus)
        ensures
            status == self.status,
    {
        self.status
    }

    /// Forgets all intent when the renderer is rebuilt; the generation moves
    /// on so every prepared transition is invalidated.
    pub fn reset_for_recovery(&mut self)
        ensures
            final(self).status == (MascotContextMenuStatus {
                generation: next_generation(old(self).status.generation),
                ..menu_initial()
            }),
    {
        let generation = self.status.generation.wrapping_add(1);
        self.status = MascotContextMenuStatus {
            ready: false,
            desired_visible: false,
            visible: false,
            awaiting_layout_ack: false,
            generation,
        };
    }
}

} // verus!
