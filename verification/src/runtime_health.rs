//! Recovery policy independent of the WebView event loop. No window calls or
//! blocking IPC may run while this state is held.

use vstd::prelude::*;
use crate::labels::{label_index, label_position, label_text, LABEL_COUNT};
use crate::text::{same_text, strings_view};
use vstd::string::*;

verus! {

/// A renderer must answer a probe within this many milliseconds.
pub const RESPONSE_TIMEOUT_MS: u64 = 25_000;
/// Time a freshly (re)started renderer gets before it can be judged.
pub const STARTUP_GRACE_MS: u64 = 35_000;
/// Sustained health for this long restores the full repair budget.
pub const HEALTHY_RESET_MS: u64 = 120_000;
/// Consecutive repairs allowed before the policy gives up on a window.
pub const REPAIR_BUDGET: u8 = 2;
/// Number of retired renderer instances remembered per window.
pub const RETIRED_CAPACITY: usize = 16;
/// Longest accepted renderer instance identifier, in bytes.
pub const MAX_INSTANCE_BYTES: usize = 100;

/// The repair the policy asks the host to perform on a window.
#[derive(Clone, Copy, Debug, PartialEq, Eq, Structural)]
pub enum Repair {
    Reload,
    Recreate,
}

/// Health bookkeeping of one desktop window.
pub struct ViewHealth {
    pub instance: String,
    pub application_ready: bool,
    pub native_generation: u64,
    pub retired: Vec<String>,
    pub recovered: bool,
    pub restore_visible: bool,
    pub sequence: u64,
    pub last_ack: u64,
    pub last_js: u64,
    pub last_paint: u64,
    pub grace_until: u64,
    pub visible_since: u64,
    pub was_visible: bool,
    pub requested: bool,
    pub browser_failed: bool,
    pub repairs: u8,
    pub healthy_since: Option<u64>,
}

/// Mathematical model of a [`ViewHealth`]: strings are taken by their characters.
#[verifier::ext_equal]
pub struct ViewModel {
    pub instance: Seq<char>,
    pub application_ready: bool,
    pub native_generation: u64,
    pub retired: Seq<Seq<char>>,
    pub recovered: bool,
    pub restore_visible: bool,
    pub sequence: u64,
    pub last_ack: u64,
    pub last_js: u64,
    pub last_paint: u64,
    pub grace_until: u64,
    pub visible_since: u64,
    pub was_visible: bool,
    pub requested: bool,
    pub browser_failed: bool,
    pub repairs: u8,
    pub healthy_since: Option<u64>,
}

impl View for ViewHealth {
    type V = ViewModel;

    open spec fn view(&self) -> ViewModel {
        ViewModel {
            instance: self.instance@,
            application_ready: self.application_ready,
            native_generation: self.native_generation,
            retired: strings_view(self.retired@),
            recovered: self.recovered,
            restore_visible: self.restore_visible,
            sequence: self.sequence,
            last_ack: self.last_ack,
            last_js: self.last_js,
            last_paint: self.last_paint,
            grace_until: self.grace_until,
            visible_since: self.visible_since,
            was_visible: self.was_visible,
            requested: self.requested,
            browser_failed: self.browser_failed,
            repairs: self.repairs,
            healthy_since: self.healthy_since,
        }
    }
}

/// Health of every tracked window. `views[i]` belongs to the window labelled
/// `LABELS[i]`; a label without a slot is not tracked.
pub struct RuntimeHealth {
    pub epoch: u64,
    pub interactive: bool,
    pub views: Vec<ViewHealth>,
}

/// Mathematical model of a [`RuntimeHealth`].
#[verifier::ext_equal]
pub struct HealthModel {
    pub epoch: u64,
    pub interactive: bool,
    pub views: Seq<ViewModel>,
}

pub open spec fn views_view(views: Seq<ViewHealth>) -> Seq<ViewModel> {
    views.map_values(|v: ViewHealth| v@)
}

impl View for RuntimeHealth {
    type V = HealthModel;

    open spec fn view(&self) -> HealthModel {
        HealthModel { epoch: self.epoch, interactive: self.interactive, views: views_view(self.views@) }
    }
}

/// State published to each renderer.
#[derive(Clone, Copy, Debug, PartialEq, Eq, Structural)]
pub struct RuntimeState {
    pub epoch: u64,
    pub interactive: bool,
    pub recovered: bool,
    pub visible: bool,
}

// ---------------------------------------------------------------------------
// The policy, stated over the model.
// ---------------------------------------------------------------------------

/// The slot of the view tracked under `label`, if any.
pub open spec fn slot(m: HealthModel, label: Seq<char>) -> Option<int> {
    match label_position(label) {
        Some(i) => if i < m.views.len() { Some(i) } else { None },
        None => None,
    }
}

pub open spec fn with_view(m: HealthModel, i: int, v: ViewModel) -> HealthModel {
    HealthModel { views: m.views.update(i, v), ..m }
}

/// A view at the fresh start of a renderer or session: timers restart and
/// the startup grace begins at `now`.
pub open spec fn restarted(v: ViewModel, now: u64) -> ViewModel {
    ViewModel {
        last_js: now,
        last_paint: now,
        grace_until: (now + STARTUP_GRACE_MS) as u64,
        healthy_since: None,
        ..v
    }
}

pub open spec fn session_changes(m: HealthModel, interactive: bool, force: bool) -> bool {
    m.interactive != interactive || force
}

pub open spec fn session_spec(m: HealthModel, interactive: bool, now: u64, force: bool) -> HealthModel {
    if session_changes(m, interactive, force) {
        HealthModel {
            epoch: (m.epoch + 1) as u64,
            interactive,
            views: m.views.map_values(|v: ViewModel| restarted(v, now)),
        }
    } else {
        m
    }
}

/// Why an attach request is refused before the view's current instance is consulted.
pub open spec fn instance_refused(v: ViewModel, instance: Seq<char>, instance_bytes: int) -> bool {
    instance.len() == 0 || instance_bytes > MAX_INSTANCE_BYTES || v.retired.contains(instance)
}

pub open spec fn attached(v: ViewModel, instance: Seq<char>, now: u64) -> ViewModel {
    ViewModel {
        instance,
        application_ready: false,
        last_js: now,
        last_paint: now,
        grace_until: (now + STARTUP_GRACE_MS) as u64,
        ..v
    }
}

/// Outcome of attaching renderer `instance` (of `instance_bytes` UTF-8 bytes) to `label`.
pub open spec fn attach_spec(
    m: HealthModel,
    label: Seq<char>,
    instance: Seq<char>,
    instance_bytes: int,
    now: u64,
) -> (HealthModel, bool) {
    match slot(m, label) {
        None => (m, false),
        Some(i) => {
            let v = m.views[i];
            if instance_refused(v, instance, instance_bytes) {
                (m, false)
            } else if v.instance == instance {
                (m, true)
            } else if v.instance.len() != 0 {
                (m, false)
            } else {
                let m2 = with_view(m, i, attached(v, instance, now));
                (if v.recovered { HealthModel { epoch: (m.epoch + 1) as u64, ..m2 } } else { m2 }, true)
            }
        },
    }
}

/// Whether attaching would start a renderer on a slot, with the bookkeeping that needs.
pub open spec fn attach_starts(m: HealthModel, label: Seq<char>, instance: Seq<char>, instance_bytes: int) -> bool {
    match slot(m, label) {
        None => false,
        Some(i) => {
            let v = m.views[i];
            !instance_refused(v, instance, instance_bytes) && v.instance != instance && v.instance.len() == 0
        },
    }
}

pub open spec fn ack_accepted(m: HealthModel, label: Seq<char>, instance: Seq<char>, epoch: u64, sequence: u64) -> bool {
    &&& epoch == m.epoch
    &&& m.interactive
    &&& slot(m, label) is Some
    &&& m.views[slot(m, label)->0].instance == instance
    &&& m.views[slot(m, label)->0].last_ack <= sequence <= m.views[slot(m, label)->0].sequence
}

pub open spec fn acknowledged(v: ViewModel, sequence: u64, painted: bool, now: u64) -> ViewModel {
    ViewModel {
        last_ack: sequence,
        last_js: now,
        last_paint: if painted { now } else { v.last_paint },
        ..v
    }
}

pub open spec fn requested_view(v: ViewModel, browser_failed: bool) -> ViewModel {
    ViewModel { requested: true, browser_failed: v.browser_failed || browser_failed, ..v }
}

pub open spec fn request_spec(m: HealthModel, label: Seq<char>, browser_failed: bool) -> HealthModel {
    match slot(m, label) {
        None => m,
        Some(i) => with_view(m, i, requested_view(m.views[i], browser_failed)),
    }
}

/// Milliseconds from `since` to `now`, zero when `since` lies in the future.
pub open spec fn elapsed(now: u64, since: u64) -> int {
    if now >= since { now - since } else { 0 }
}

/// The view after the host reports whether the window is visible at `now`.
pub open spec fn observed(v: ViewModel, visible: bool, now: u64) -> ViewModel {
    if visible && !v.was_visible {
        ViewModel { visible_since: now, last_paint: now, was_visible: visible, ..v }
    } else {
        ViewModel { was_visible: visible, ..v }
    }
}

pub open spec fn js_failed(v: ViewModel, now: u64) -> bool {
    elapsed(now, v.last_js) > RESPONSE_TIMEOUT_MS
}

pub open spec fn paint_failed(v: ViewModel, visible: bool, now: u64) -> bool {
    visible && elapsed(now, if v.last_paint >= v.visible_since { v.last_paint } else { v.visible_since })
        > RESPONSE_TIMEOUT_MS
}

/// A renderer is healthy when nothing asked for recovery, JavaScript and
/// paint both answered in time and the application finished mounting.
pub open spec fn healthy(v: ViewModel, visible: bool, now: u64) -> bool {
    !v.requested && !js_failed(v, now) && !paint_failed(v, visible, now) && v.application_ready
}

/// Whether an unhealthy window needs a repair at all: the mascot always does,
/// other windows only while visible, on request, or while an earlier
/// recovery has not completed.
pub open spec fn repair_required(v: ViewModel, is_mascot: bool, visible: bool) -> bool {
    is_mascot || visible || v.requested || (v.recovered && !v.application_ready)
}

pub open spec fn settled(v: ViewModel, now: u64) -> ViewModel {
    let since = match v.healthy_since { Some(s) => s, None => now };
    if v.instance.len() != 0 && elapsed(now, since) >= HEALTHY_RESET_MS {
        ViewModel { healthy_since: Some(since), repairs: 0, ..v }
    } else {
        ViewModel { healthy_since: Some(since), ..v }
    }
}

pub open spec fn repair_kind(v: ViewModel) -> Repair {
    if v.browser_failed || v.repairs > 0 { Repair::Recreate } else { Repair::Reload }
}

/// The retired list after `instance` retires: the oldest entry drops once
/// more than [`RETIRED_CAPACITY`] are remembered.
pub open spec fn retire(retired: Seq<Seq<char>>, instance: Seq<char>) -> Seq<Seq<char>> {
    let pushed = retired.push(instance);
    if pushed.len() > RETIRED_CAPACITY { pushed.drop_first() } else { pushed }
}

pub open spec fn repaired(v: ViewModel, visible: bool, now: u64) -> ViewModel {
    ViewModel {
        instance: Seq::empty(),
        retired: if v.instance.len() != 0 { retire(v.retired, v.instance) } else { v.retired },
        repairs: (v.repairs + 1) as u8,
        recovered: true,
        application_ready: false,
        restore_visible: visible,
        requested: false,
        browser_failed: false,
        grace_until: (now + STARTUP_GRACE_MS) as u64,
        last_js: now,
        last_paint: now,
        healthy_since: None,
        ..v
    }
}

/// Whether the view, once observed, is due for a repair.
pub open spec fn due_for_repair(o: ViewModel, is_mascot: bool, visible: bool, now: u64) -> bool {
    !healthy(o, visible, now) && repair_required(o, is_mascot, visible) && now >= o.grace_until
        && o.repairs < REPAIR_BUDGET
}

pub open spec fn inspect_view(v: ViewModel, is_mascot: bool, visible: bool, now: u64) -> (ViewModel, Option<Repair>) {
    let o = observed(v, visible, now);
    if healthy(o, visible, now) {
        (settled(o, now), None)
    } else if !repair_required(o, is_mascot, visible) {
        (o, None)
    } else if now < o.grace_until || o.repairs >= REPAIR_BUDGET {
        (ViewModel { healthy_since: None, ..o }, None)
    } else {
        (repaired(o, visible, now), Some(repair_kind(o)))
    }
}

pub open spec fn inspect_spec(m: HealthModel, label: Seq<char>, visible: bool, now: u64) -> (HealthModel, Option<Repair>) {
    if !m.interactive {
        (m, None)
    } else {
        match slot(m, label) {
            None => (m, None),
            Some(i) => {
                let r = inspect_view(m.views[i], i == 0, visible, now);
                (with_view(m, i, r.0), r.1)
            },
        }
    }
}

/// Whether inspecting `label` would perform a repair (and so restart its grace at `now`).
pub open spec fn inspect_repairs(m: HealthModel, label: Seq<char>, visible: bool, now: u64) -> bool {
    m.interactive && slot(m, label) is Some && due_for_repair(
        observed(m.views[slot(m, label)->0], visible, now),
        slot(m, label)->0 == 0,
        visible,
        now,
    )
}

pub open spec fn state_of(m: HealthModel, i: int) -> RuntimeState {
    RuntimeState {
        epoch: m.epoch,
        interactive: m.interactive,
        recovered: m.views[i].recovered,
        visible: m.views[i].restore_visible,
    }
}

/// A fresh view for the window at `index`.
pub open spec fn initial_view(index: int) -> ViewModel {
    ViewModel {
        instance: Seq::empty(),
        application_ready: false,
        native_generation: 0,
        retired: Seq::empty(),
        recovered: false,
        restore_visible: index == 0,
        sequence: 0,
        last_ack: 0,
        last_js: 0,
        last_paint: 0,
        grace_until: STARTUP_GRACE_MS,
        visible_since: 0,
        was_visible: false,
        requested: false,
        browser_failed: false,
        repairs: 0,
        healthy_since: None,
    }
}

/// The health a fresh runtime starts with: epoch 1, an interactive session
/// and a fresh view for each of the four tracked windows.
pub open spec fn initial_health() -> HealthModel {
    HealthModel { epoch: 1, interactive: true, views: Seq::new(4, |i: int| initial_view(i)) }
}

/// Putting an updated view back where it was taken from updates the model at that slot.
proof fn lemma_reinsert(views: Seq<ViewHealth>, i: int, view: ViewHealth)
    requires
        0 <= i < views.len(),
    ensures
        views_view(views.remove(i).insert(i, view)) == views_view(views).update(i, view@),
{
    assert(views_view(views.remove(i).insert(i, view)) =~= views_view(views).update(i, view@));
}

// ---------------------------------------------------------------------------
// Executable policy.
// ---------------------------------------------------------------------------

impl ViewHealth {
    /// A fresh view; only the mascot is restored visible after a repair by default.
    pub fn new(restore_visible: bool) -> (view: ViewHealth)
        ensures
            view@ == (ViewModel { restore_visible, ..initial_view(1) }),
    {
        let view = ViewHealth {
            instance: String::new(),
            application_ready: false,
            native_generation: 0,
            retired: Vec::new(),
            recovered: false,
            restore_visible,
            sequence: 0,
            last_ack: 0,
            last_js: 0,
            last_paint: 0,
            grace_until: STARTUP_GRACE_MS,
            visible_since: 0,
            was_visible: false,
            requested: false,
            browser_failed: false,
            repairs: 0,
            healthy_since: None,
        };
        assert(view@.retired =~= Seq::<Seq<char>>::empty());
        assert(view@ =~= (ViewModel { restore_visible, ..initial_view(1) }));
        view
    }
}

impl ViewHealth {
    /// Judges this window at `now`, given whether it is visible, and performs
    /// the bookkeeping of a repair when one is due.
    pub fn inspect(&mut self, is_mascot: bool, visible: bool, now: u64) -> (repair: Option<Repair>)
        requires
            due_for_repair(observed(old(self)@, visible, now), is_mascot, visible, now)
                ==> now <= u64::MAX - STARTUP_GRACE_MS,
        ensures
            (final(self)@, repair) == inspect_view(old(self)@, is_mascot, visible, now),
    {
        let ghost v0 = self@;
        if visible && !self.was_visible {
            self.visible_since = now;
            self.last_paint = now;
        }
        self.was_visible = visible;
        let ghost o = self@;
        assert(o =~= observed(v0, visible, now));
        let required = is_mascot || visible || self.requested || (self.recovered && !self.application_ready);
        let js_failed = now.saturating_sub(self.last_js) > RESPONSE_TIMEOUT_MS;
        let paint_since = if self.last_paint >= self.visible_since { self.last_paint } else { self.visible_since };
        let paint_failed = visible && now.saturating_sub(paint_since) > RESPONSE_TIMEOUT_MS;
        if !self.requested && !js_failed && !paint_failed && self.application_ready {
            let since = match self.healthy_since {
                Some(since) => since,
                None => now,
            };
            self.healthy_since = Some(since);
            if !self.instance.as_str().is_empty() && now.saturating_sub(since) >= HEALTHY_RESET_MS {
                self.repairs = 0;
            }
            assert(self@ =~= settled(o, now));
            return None;
        }
        if !required {
            return None;
        }
        self.healthy_since = None;
        if now < self.grace_until || self.repairs >= REPAIR_BUDGET {
            assert(self@ =~= (ViewModel { healthy_since: None, ..o }));
            return None;
        }
        let repair = if self.browser_failed || self.repairs > 0 {
            Repair::Recreate
        } else {
            Repair::Reload
        };
        self.repairs = self.repairs + 1;
        self.recovered = true;
        self.application_ready = false;
        // A hidden notification can be prepared off-screen; only its normal
        // generation/layout handshake may show it again.
        self.restore_visible = visible;
        self.requested = false;
        self.browser_failed = false;
        self.grace_until = now + STARTUP_GRACE_MS;
        self.last_js = now;
        self.last_paint = now;
        if !self.instance.as_str().is_empty() {
            let mut retiring = String::new();
            std::mem::swap(&mut retiring, &mut self.instance);
            let ghost before = self.retired@;
            self.retired.push(retiring);
            assert(strings_view(self.retired@) =~= strings_view(before).push(o.instance));
            if self.retired.len() > RETIRED_CAPACITY {
                let ghost pushed = self.retired@;
                let _oldest = self.retired.remove(0);
                assert(strings_view(self.retired@) =~= strings_view(pushed).drop_first());
            }
        }
        assert(self@ =~= repaired(o, visible, now));
        Some(repair)
    }
}

impl Default for RuntimeHealth {
    /// Epoch 1, an interactive session and a fresh view for every tracked window.
    fn default() -> (health: RuntimeHealth)
        ensures
            health@.epoch == 1,
            health@.interactive,
            health@.views.len() == LABEL_COUNT,
            forall|i: int| 0 <= i < LABEL_COUNT ==> #[trigger] health@.views[i] == initial_view(i),
            health@ == initial_health(),
    {
        let mut views: Vec<ViewHealth> = Vec::new();
        let mut i: usize = 0;
        while i < LABEL_COUNT
            invariant
                i <= LABEL_COUNT,
                views@.len() == i,
                forall|j: int| 0 <= j < i ==> #[trigger] views@[j]@ == initial_view(j),
            decreases LABEL_COUNT - i,
        {
            let view = ViewHealth::new(i == 0);
            assert(view@ =~= initial_view(i as int));
            views.push(view);
            i += 1;
        }
        let health = RuntimeHealth { epoch: 1, interactive: true, views };
        assert(health@.views =~= initial_health().views);
        health
    }
}

impl RuntimeHealth {

    /// Switches between an interactive and a locked/suspended session. A
    /// change (or `force`) starts a new epoch and restarts every window's
    /// timers with a fresh startup grace; returns whether that happened.
    pub fn session(&mut self, interactive: bool, now: u64, force: bool) -> (changed: bool)
        requires
            session_changes(old(self)@, interactive, force) ==> old(self).epoch < u64::MAX && (
            old(self).views.len() > 0 ==> now <= u64::MAX - STARTUP_GRACE_MS),
        ensures
            changed == session_changes(old(self)@, interactive, force),
            final(self)@ == session_spec(old(self)@, interactive, now, force),
    {
        if self.interactive == interactive && !force {
            return false;
        }
        let ghost before = self@;
        self.interactive = interactive;
        self.epoch = self.epoch + 1;
        let n = self.views.len();
        let mut i: usize = 0;
        while i < n
            invariant
                n == self.views.len(),
                n == before.views.len(),
                i <= n,
                n > 0 ==> now <= u64::MAX - STARTUP_GRACE_MS,
                self.epoch == before.epoch + 1,
                self.interactive == interactive,
                forall|j: int| 0 <= j < i ==> #[trigger] self.views@[j]@ == restarted(before.views[j], now),
                forall|j: int| i <= j < n ==> #[trigger] self.views@[j]@ == before.views[j],
            decreases n - i,
        {
            let ghost prior = self.views@;
            assert(self.views@[i as int]@ == before.views[i as int]);
            let mut view = self.views.remove(i);
            view.last_js = now;
            view.last_paint = now;
            view.grace_until = now + STARTUP_GRACE_MS;
            view.healthy_since = None;
            assert(view@ =~= restarted(before.views[i as int], now));
            self.views.insert(i, view);
            proof {
                lemma_reinsert(prior, i as int, self.views@[i as int]);
                assert(views_view(self.views@) == views_view(prior).update(i as int, self.views@[i as int]@));
                assert forall|j: int| 0 <= j < i + 1 implies #[trigger] self.views@[j]@ == restarted(before.views[j], now) by {
                    assert(views_view(self.views@)[j] == self.views@[j]@);
                    assert(views_view(prior)[j] == prior[j]@);
                }
                assert forall|j: int| i + 1 <= j < n implies #[trigger] self.views@[j]@ == before.views[j] by {
                    assert(views_view(self.views@)[j] == self.views@[j]@);
                    assert(views_view(prior)[j] == prior[j]@);
                }
            }
            i += 1;
        }
        assert(self@ =~= session_spec(before, interactive, now, force));
        true
    }

    /// Whether `instance` names a renderer that was retired from `view`.
    fn is_retired(view: &ViewHealth, instance: &str) -> (retired: bool)
        ensures
            retired == view@.retired.contains(instance@),
    {
        let n = view.retired.len();
        let mut k: usize = 0;
        while k < n
            invariant
                n == view.retired@.len(),
                k <= n,
                forall|j: int| 0 <= j < k ==> view.retired@[j]@ != instance@,
            decreases n - k,
        {
            if same_text(view.retired[k].as_str(), instance) {
                assert(view@.retired[k as int] == instance@);
                return true;
            }
            k += 1;
        }
        assert forall|j: int| 0 <= j < view@.retired.len() implies view@.retired[j] != instance@ by {
            assert(view@.retired[j] == view.retired@[j]@);
        }
        false
    }

    /// Attaches renderer `instance` to the window `label`. A renderer is
    /// accepted when its identifier is valid and was never retired, and the
    /// window either has no renderer or already has this one. A renderer that
    /// replaces a repaired one starts a new epoch.
    pub fn attach(&mut self, label: &str, instance: &str, now: u64) -> (accepted: bool)
        requires
            attach_starts(old(self)@, label@, instance@, instance.len() as int) ==> (
            now <= u64::MAX - STARTUP_GRACE_MS && (old(self)@.views[slot(old(self)@, label@)->0].recovered
                ==> old(self).epoch < u64::MAX)),
        ensures
            (final(self)@, accepted) == attach_spec(
                old(self)@,
                label@,
                instance@,
                instance.len() as int,
                now,
            ),
    {
        let ghost before = self@;
        let i = match self.slot_of(label) {
            Some(i) => i,
            None => return false,
        };
        assert(before.views[i as int] == self.views@[i as int]@);
        if instance.is_empty() || instance.len() > MAX_INSTANCE_BYTES || Self::is_retired(&self.views[i], instance) {
            return false;
        }
        if same_text(self.views[i].instance.as_str(), instance) {
            return true;
        }
        if !self.views[i].instance.as_str().is_empty() {
            return false;
        }
        let ghost prior = self.views@;
        let mut view = self.views.remove(i);
        view.instance = instance.to_owned();
        view.application_ready = false;
        view.last_js = now;
        view.last_paint = now;
        view.grace_until = now + STARTUP_GRACE_MS;
        let recovered = view.recovered;
        assert(view@ =~= attached(before.views[i as int], instance@, now));
        self.views.insert(i, view);
        proof {
            lemma_reinsert(prior, i as int, self.views@[i as int]);
        }
        if recovered {
            self.epoch = self.epoch + 1;
        }
        assert(self@ =~= attach_spec(before, label@, instance@, instance.len() as int, now).0);
        true
    }

    /// Accepts a probe answer from renderer `instance` of `label` when it
    /// carries the current epoch of an interactive session and a sequence
    /// between the last answered probe and the last one sent.
    pub fn ack(
        &mut self,
        label: &str,
        instance: &str,
        epoch: u64,
        sequence: u64,
        painted: bool,
        now: u64,
    ) -> (accepted: bool)
        ensures
            accepted == ack_accepted(old(self)@, label@, instance@, epoch, sequence),
            accepted ==> final(self)@ == with_view(
                old(self)@,
                slot(old(self)@, label@)->0,
                acknowledged(old(self)@.views[slot(old(self)@, label@)->0], sequence, painted, now),
            ),
            !accepted ==> final(self)@ == old(self)@,
    {
        let ghost before = self@;
        if epoch != self.epoch || !self.interactive {
            return false;
        }
        let i = match self.slot_of(label) {
            Some(i) => i,
            None => return false,
        };
        assert(before.views[i as int] == self.views@[i as int]@);
        if !same_text(self.views[i].instance.as_str(), instance) || sequence < self.views[i].last_ack
            || sequence > self.views[i].sequence {
            return false;
        }
        let ghost prior = self.views@;
        let mut view = self.views.remove(i);
        view.last_ack = sequence;
        view.last_js = now;
        if painted {
            view.last_paint = now;
        }
        assert(view@ =~= acknowledged(before.views[i as int], sequence, painted, now));
        self.views.insert(i, view);
        proof {
            lemma_reinsert(prior, i as int, self.views@[i as int]);
        }
        assert(self@ =~= with_view(before, i as int, acknowledged(before.views[i as int], sequence, painted, now)));
        true
    }

    /// Records that `label` asked for (or needs) recovery; a browser failure
    /// is remembered until the next repair.
    pub fn request(&mut self, label: &str, browser_failed: bool)
        ensures
            final(self)@ == request_spec(old(self)@, label@, browser_failed),
    {
        let ghost before = self@;
        if let Some(i) = self.slot_of(label) {
            assert(before.views[i as int] == self.views@[i as int]@);
            let ghost prior = self.views@;
            let mut view = self.views.remove(i);
            view.requested = true;
            view.browser_failed = view.browser_failed || browser_failed;
            assert(view@ =~= requested_view(before.views[i as int], browser_failed));
            self.views.insert(i, view);
            proof {
                lemma_reinsert(prior, i as int, self.views@[i as int]);
            }
            assert(self@ =~= request_spec(before, label@, browser_failed));
        }
    }

    /// Judges window `label` at `now` while the session is interactive and
    /// returns the repair the host must perform, if any. A locked session
    /// never consumes the repair budget.
    pub fn inspect(&mut self, label: &str, visible: bool, now: u64) -> (repair: Option<Repair>)
        requires
            inspect_repairs(old(self)@, label@, visible, now) ==> now <= u64::MAX - STARTUP_GRACE_MS,
        ensures
            (final(self)@, repair) == inspect_spec(old(self)@, label@, visible, now),
    {
        let ghost before = self@;
        if !self.interactive {
            return None;
        }
        let i = match self.slot_of(label) {
            Some(i) => i,
            None => return None,
        };
        assert(before.views[i as int] == self.views@[i as int]@);
        let ghost prior = self.views@;
        let mut view = self.views.remove(i);
        let repair = view.inspect(i == 0, visible, now);
        self.views.insert(i, view);
        proof {
            lemma_reinsert(prior, i as int, self.views@[i as int]);
        }
        assert(self@ =~= inspect_spec(before, label@, visible, now).0);
        repair
    }

    /// The state published to the renderer of `label`.
    pub fn state(&self, label: &str) -> (state: Option<RuntimeState>)
        ensures
            match slot(self@, label@) {
                Some(i) => state == Some(state_of(self@, i)),
                None => state is None,
            },
    {
        match self.slot_of(label) {
            Some(i) => {
                assert(self@.views[i as int] == self.views@[i as int]@);
                Some(RuntimeState {
                    epoch: self.epoch,
                    interactive: self.interactive,
                    recovered: self.views[i].recovered,
                    visible: self.views[i].restore_visible,
                })
            },
            None => None,
        }
    }

    /// The health of window `label`, if it is tracked.
    pub fn view_health(&self, label: &str) -> (view: Option<&ViewHealth>)
        ensures
            match slot(self@, label@) {
                Some(i) => view is Some && view->0@ == self@.views[i],
                None => view is None,
            },
    {
        match self.slot_of(label) {
            Some(i) => Some(&self.views[i]),
            None => None,
        }
    }

    /// Marks the application of `label` as mounted when `instance` is its
    /// current renderer; returns whether it was.
    pub fn mark_application_ready(&mut self, label: &str, instance: &str) -> (marked: bool)
        ensures
            marked == (slot(old(self)@, label@) is Some && old(self)@.views[slot(old(self)@, label@)->0].instance
                == instance@),
            marked ==> final(self)@ == with_view(
                old(self)@,
                slot(old(self)@, label@)->0,
                ViewModel { application_ready: true, ..old(self)@.views[slot(old(self)@, label@)->0] },
            ),
            !marked ==> final(self)@ == old(self)@,
    {
        let ghost before = self@;
        let i = match self.slot_of(label) {
            Some(i) => i,
            None => return false,
        };
        assert(before.views[i as int] == self.views@[i as int]@);
        if !same_text(self.views[i].instance.as_str(), instance) {
            return false;
        }
        let ghost prior = self.views@;
        let mut view = self.views.remove(i);
        view.application_ready = true;
        assert(view@ =~= ViewModel { application_ready: true, ..before.views[i as int] });
        self.views.insert(i, view);
        proof {
            lemma_reinsert(prior, i as int, self.views@[i as int]);
        }
        assert(self@ =~= with_view(before, i as int, ViewModel { application_ready: true, ..before.views[i as int] }));
        true
    }

    /// Numbers a new probe for the renderer of `label` and returns the state
    /// to send with it together with its sequence number.
    pub fn next_probe(&mut self, label: &str) -> (probe: Option<(RuntimeState, u64)>)
        requires
            slot(old(self)@, label@) is Some ==> old(self)@.views[slot(old(self)@, label@)->0].sequence < u64::MAX,
        ensures
            match slot(old(self)@, label@) {
                Some(i) => {
                    let v = ViewModel { sequence: (old(self)@.views[i].sequence + 1) as u64, ..old(self)@.views[i] };
                    &&& final(self)@ == with_view(old(self)@, i, v)
                    &&& probe == Some((state_of(final(self)@, i), v.sequence))
                },
                None => probe is None && final(self)@ == old(self)@,
            },
    {
        let ghost before = self@;
        let i = match self.slot_of(label) {
            Some(i) => i,
            None => return None,
        };
        assert(before.views[i as int] == self.views@[i as int]@);
        let ghost prior = self.views@;
        let mut view = self.views.remove(i);
        view.sequence = view.sequence + 1;
        let sequence = view.sequence;
        let state = RuntimeState {
            epoch: self.epoch,
            interactive: self.interactive,
            recovered: view.recovered,
            visible: view.restore_visible,
        };
        let ghost v = ViewModel { sequence: (before.views[i as int].sequence + 1) as u64, ..before.views[i as int] };
        assert(view@ =~= v);
        self.views.insert(i, view);
        proof {
            lemma_reinsert(prior, i as int, self.views@[i as int]);
        }
        assert(self@ =~= with_view(before, i as int, v));
        Some((state, sequence))
    }

    /// Starts a new native webview generation for `label` and returns its number.
    pub fn register_native_generation(&mut self, label: &str) -> (generation: Option<u64>)
        requires
            slot(old(self)@, label@) is Some ==> old(self)@.views[slot(old(self)@, label@)->0].native_generation
                < u64::MAX,
        ensures
            match slot(old(self)@, label@) {
                Some(i) => {
                    let g = (old(self)@.views[i].native_generation + 1) as u64;
                    &&& final(self)@ == with_view(old(self)@, i, ViewModel { native_generation: g, ..old(self)@.views[i] })
                    &&& generation == Some(g)
                },
                None => generation is None && final(self)@ == old(self)@,
            },
    {
        let ghost before = self@;
        let i = match self.slot_of(label) {
            Some(i) => i,
            None => return None,
        };
        assert(before.views[i as int] == self.views@[i as int]@);
        let ghost prior = self.views@;
        let mut view = self.views.remove(i);
        view.native_generation = view.native_generation + 1;
        let generation = view.native_generation;
        let ghost v = ViewModel { native_generation: generation, ..before.views[i as int] };
        assert(view@ =~= v);
        self.views.insert(i, view);
        proof {
            lemma_reinsert(prior, i as int, self.views@[i as int]);
        }
        assert(self@ =~= with_view(before, i as int, v));
        Some(generation)
    }

    /// Handles a native process failure reported for generation `generation`
    /// of `label`: a report about the current generation requests recovery and
    /// ends the startup grace at once. Reports about older generations are
    /// ignored. Returns whether the report was taken.
    pub fn process_failed(&mut self, label: &str, browser: bool, generation: u64, now: u64) -> (taken: bool)
        ensures
            taken == (slot(old(self)@, label@) is Some && old(self)@.views[slot(old(self)@, label@)->0].native_generation
                == generation),
            taken ==> final(self)@ == with_view(
                old(self)@,
                slot(old(self)@, label@)->0,
                ViewModel { grace_until: now, ..requested_view(old(self)@.views[slot(old(self)@, label@)->0], browser) },
            ),
            !taken ==> final(self)@ == old(self)@,
    {
        let ghost before = self@;
        let i = match self.slot_of(label) {
            Some(i) => i,
            None => return false,
        };
        assert(before.views[i as int] == self.views@[i as int]@);
        if self.views[i].native_generation != generation {
            return false;
        }
        self.request(label, browser);
        let ghost requested = self@;
        assert(requested == with_view(before, i as int, requested_view(before.views[i as int], browser)));
        assert(views_view(self.views@).len() == self.views@.len());
        assert(requested.views[i as int] == self.views@[i as int]@);
        let ghost prior = self.views@;
        let mut view = self.views.remove(i);
        view.grace_until = now;
        let ghost v = ViewModel { grace_until: now, ..requested_view(before.views[i as int], browser) };
        assert(view@ =~= v);
        self.views.insert(i, view);
        proof {
            lemma_reinsert(prior, i as int, self.views@[i as int]);
        }
        assert(self@ =~= with_view(before, i as int, v));
        true
    }

    /// A renderer asks for the notification window to be recovered; only the
    /// mascot may do so.
    pub fn request_notification_recovery(&mut self, requester: &str)
        ensures
            final(self)@ == if requester@ == label_text(0) {
                request_spec(old(self)@, label_text(3), false)
            } else {
                old(self)@
            },
    {
        if same_text(requester, "mascot") {
            proof {
                reveal_strlit("mascot");
            }
            self.request("mascot-notification", false);
        }
    }

    /// Starts a new epoch once repaired windows have been restored, so every
    /// renderer learns the recovery finished.
    pub fn advance_epoch(&mut self)
        requires
            old(self).epoch < u64::MAX,
        ensures
            final(self)@ == (HealthModel { epoch: (old(self).epoch + 1) as u64, ..old(self)@ }),
    {
        self.epoch = self.epoch + 1;
    }

    /// Finds the slot of `label`.
    fn slot_of(&self, label: &str) -> (index: Option<usize>)
        ensures
            match index {
                Some(i) => slot(self@, label@) == Some(i as int),
                None => slot(self@, label@) is None,
            },
    {
        match label_index(label) {
            Some(i) => if i < self.views.len() { Some(i) } else { None },
            None => None,
        }
    }
}

} // verus!
