//! Properties of the recovery policy that span operations.

use vstd::prelude::*;
use crate::labels::{label_position, label_text, lemma_label_positions};
use crate::runtime_health::{
    ack_accepted, acknowledged, attach_spec, attach_starts, elapsed, healthy, initial_health,
    initial_view, inspect_repairs, inspect_spec, inspect_view, observed, request_spec, session_changes,
    session_spec, slot, with_view, HealthModel, Repair, ViewModel, HEALTHY_RESET_MS,
    REPAIR_BUDGET, RESPONSE_TIMEOUT_MS, RETIRED_CAPACITY, STARTUP_GRACE_MS,
};

verus! {

/// Bookkeeping that every operation keeps for each window: an answered probe
/// was sent, the repair budget is never exceeded and the retired list is bounded.
pub open spec fn view_wf(v: ViewModel) -> bool {
    &&& v.last_ack <= v.sequence
    &&& v.repairs <= REPAIR_BUDGET
    &&& v.retired.len() <= RETIRED_CAPACITY
}

pub open spec fn health_wf(m: HealthModel) -> bool {
    forall|i: int| 0 <= i < m.views.len() ==> view_wf(#[trigger] m.views[i])
}

/// While the session is locked or suspended, inspecting a window neither
/// repairs it nor changes any bookkeeping, so the repair budget is never consumed.
pub proof fn law_locked_session_never_repairs(m: HealthModel, label: Seq<char>, visible: bool, now: u64)
    requires
        !m.interactive,
    ensures
        inspect_spec(m, label, visible, now) == (m, None::<Repair>),
{
}

/// After a session change (unlock, resume or forced restart at `now`), no
/// window is repaired before its fresh startup grace has passed.
pub proof fn law_session_change_grants_grace(
    m: HealthModel,
    interactive: bool,
    now: u64,
    force: bool,
    label: Seq<char>,
    visible: bool,
    later: u64,
)
    requires
        session_changes(m, interactive, force),
        now <= u64::MAX - STARTUP_GRACE_MS,
        later < now + STARTUP_GRACE_MS,
    ensures
        inspect_spec(session_spec(m, interactive, now, force), label, visible, later).1 is None,
{
    let s = session_spec(m, interactive, now, force);
    if s.interactive {
        if let Some(i) = slot(s, label) {
            assert(s.views[i].grace_until == now + STARTUP_GRACE_MS);
        }
    }
}

/// A repair happens only while the budget lasts and consumes one unit of it;
/// the first repair of a window whose browser did not fail is a reload and
/// every later repair (or any after a browser failure) recreates the window.
pub proof fn law_repairs_are_bounded_and_escalate(m: HealthModel, label: Seq<char>, visible: bool, now: u64)
    requires
        now <= u64::MAX - STARTUP_GRACE_MS,
        inspect_spec(m, label, visible, now).1 is Some,
    ensures
        slot(m, label) is Some,
        m.views[slot(m, label)->0].repairs < REPAIR_BUDGET,
        inspect_spec(m, label, visible, now).0.views[slot(m, label)->0].repairs
            == m.views[slot(m, label)->0].repairs + 1,
        inspect_spec(m, label, visible, now).1 == Some(
            if m.views[slot(m, label)->0].browser_failed || m.views[slot(m, label)->0].repairs > 0 {
                Repair::Recreate
            } else {
                Repair::Reload
            },
        ),
{
}

/// A window whose renderer is healthy (after the visibility report) is never repaired.
pub proof fn law_healthy_window_is_not_repaired(m: HealthModel, label: Seq<char>, visible: bool, now: u64)
    requires
        slot(m, label) is Some,
        healthy(observed(m.views[slot(m, label)->0], visible, now), visible, now),
    ensures
        inspect_spec(m, label, visible, now).1 is None,
{
}

/// Sustained health of an attached renderer restores the full repair budget.
pub proof fn law_sustained_health_restores_budget(m: HealthModel, label: Seq<char>, visible: bool, now: u64, since: u64)
    requires
        m.interactive,
        slot(m, label) is Some,
        healthy(observed(m.views[slot(m, label)->0], visible, now), visible, now),
        m.views[slot(m, label)->0].healthy_since == Some(since),
        m.views[slot(m, label)->0].instance.len() != 0,
        elapsed(now, since) >= HEALTHY_RESET_MS,
    ensures
        inspect_spec(m, label, visible, now).0.views[slot(m, label)->0].repairs == 0,
{
}

/// Once a window is repaired, the renderer instance it had can never attach again.
pub proof fn law_repaired_renderer_cannot_reattach(
    m: HealthModel,
    label: Seq<char>,
    visible: bool,
    now: u64,
    instance_bytes: int,
    later: u64,
)
    requires
        now <= u64::MAX - STARTUP_GRACE_MS,
        inspect_spec(m, label, visible, now).1 is Some,
        m.views[slot(m, label)->0].instance.len() != 0,
    ensures
        !attach_spec(
            inspect_spec(m, label, visible, now).0,
            label,
            m.views[slot(m, label)->0].instance,
            instance_bytes,
            later,
        ).1,
{
    let i = slot(m, label)->0;
    let old_instance = m.views[i].instance;
    let after = inspect_spec(m, label, visible, now).0;
    let o = observed(m.views[i], visible, now);
    assert(o.instance == old_instance);
    let pushed = o.retired.push(old_instance);
    assert(pushed[pushed.len() - 1] == old_instance);
    if pushed.len() > RETIRED_CAPACITY {
        assert(pushed.drop_first()[pushed.len() - 2] == old_instance);
    }
    assert(after.views[i].retired.contains(old_instance));
}

/// Attaching the renderer that is already attached is accepted and changes nothing.
pub proof fn law_reattach_is_idempotent(m: HealthModel, label: Seq<char>, instance_bytes: int, now: u64)
    requires
        slot(m, label) is Some,
        m.views[slot(m, label)->0].instance.len() != 0,
        instance_bytes <= 100,
        !m.views[slot(m, label)->0].retired.contains(m.views[slot(m, label)->0].instance),
    ensures
        attach_spec(m, label, m.views[slot(m, label)->0].instance, instance_bytes, now) == (m, true),
{
}

/// A probe answer carrying another epoch is refused; in particular every
/// answer to a probe sent before a session change is refused after it.
pub proof fn law_stale_epoch_ack_is_refused(
    m: HealthModel,
    interactive: bool,
    now: u64,
    force: bool,
    label: Seq<char>,
    instance: Seq<char>,
    sequence: u64,
)
    requires
        session_changes(m, interactive, force),
        m.epoch < u64::MAX,
    ensures
        !ack_accepted(session_spec(m, interactive, now, force), label, instance, m.epoch, sequence),
{
}

/// The default health tracks all four windows with a fresh grace, and every
/// tracked window is found under its own label.
pub proof fn law_each_label_has_its_own_view(m: HealthModel, i: int)
    requires
        m.views.len() == 4,
        0 <= i < 4,
    ensures
        slot(m, label_text(i)) == Some(i),
{
    lemma_label_positions();
    assert(label_position(label_text(i)) == Some(i));
}

/// Answering a probe keeps every window's bookkeeping well formed.
pub proof fn law_ack_keeps_wf(m: HealthModel, label: Seq<char>, instance: Seq<char>, epoch: u64, sequence: u64, painted: bool, now: u64)
    requires
        health_wf(m),
        ack_accepted(m, label, instance, epoch, sequence),
    ensures
        health_wf(with_view(m, slot(m, label)->0, acknowledged(m.views[slot(m, label)->0], sequence, painted, now))),
{
    let i = slot(m, label)->0;
    let after = with_view(m, i, acknowledged(m.views[i], sequence, painted, now));
    assert forall|j: int| 0 <= j < after.views.len() implies view_wf(#[trigger] after.views[j]) by {
        if j != i {
            assert(view_wf(m.views[j]));
        }
    }
}

/// A recovery request keeps every window's bookkeeping well formed.
pub proof fn law_request_keeps_wf(m: HealthModel, label: Seq<char>, browser_failed: bool)
    requires
        health_wf(m),
    ensures
        health_wf(request_spec(m, label, browser_failed)),
{
    let after = request_spec(m, label, browser_failed);
    assert forall|j: int| 0 <= j < after.views.len() implies view_wf(#[trigger] after.views[j]) by {
        assert(view_wf(m.views[j]));
    }
}

/// A session change keeps every window's bookkeeping well formed.
pub proof fn law_session_keeps_wf(m: HealthModel, interactive: bool, now: u64, force: bool)
    requires
        health_wf(m),
    ensures
        health_wf(session_spec(m, interactive, now, force)),
{
    let after = session_spec(m, interactive, now, force);
    assert forall|j: int| 0 <= j < after.views.len() implies view_wf(#[trigger] after.views[j]) by {
        assert(view_wf(m.views[j]));
    }
}

/// Inspection keeps every window's bookkeeping well formed: the repair budget
/// and the retired list stay bounded.
pub proof fn law_inspect_keeps_wf(m: HealthModel, label: Seq<char>, visible: bool, now: u64)
    requires
        health_wf(m),
    ensures
        health_wf(inspect_spec(m, label, visible, now).0),
{
    let after = inspect_spec(m, label, visible, now).0;
    assert forall|j: int| 0 <= j < after.views.len() implies view_wf(#[trigger] after.views[j]) by {
        assert(view_wf(m.views[j]));
    }
}

/// Attaching a renderer keeps every window's bookkeeping well formed.
pub proof fn law_attach_keeps_wf(m: HealthModel, label: Seq<char>, instance: Seq<char>, instance_bytes: int, now: u64)
    requires
        health_wf(m),
    ensures
        health_wf(attach_spec(m, label, instance, instance_bytes, now).0),
{
    let after = attach_spec(m, label, instance, instance_bytes, now).0;
    assert forall|j: int| 0 <= j < after.views.len() implies view_wf(#[trigger] after.views[j]) by {
        assert(view_wf(m.views[j]));
    }
}

/// Every freshly created window starts well formed.
pub proof fn law_initial_views_are_wf(i: int)
    ensures
        view_wf(initial_view(i)),
{
}

/// Numbering a new probe keeps every window's bookkeeping well formed.
pub proof fn law_next_probe_keeps_wf(m: HealthModel, i: int)
    requires
        health_wf(m),
        0 <= i < m.views.len(),
        m.views[i].sequence < u64::MAX,
    ensures
        health_wf(with_view(m, i, ViewModel { sequence: (m.views[i].sequence + 1) as u64, ..m.views[i] })),
{
    let after = with_view(m, i, ViewModel { sequence: (m.views[i].sequence + 1) as u64, ..m.views[i] });
    assert forall|j: int| 0 <= j < after.views.len() implies view_wf(#[trigger] after.views[j]) by {
        assert(view_wf(m.views[j]));
    }
}

/// A window of an interactive session is repaired once its startup grace is
/// over and budget is left, when it is unhealthy (recovery was requested, its
/// application has not mounted, or its JavaScript has been silent past the
/// response timeout) and a repair is called for: it is the mascot, it is
/// visible, recovery was requested, or an earlier repair has not completed
/// (its window was recovered and the application has not mounted again), even
/// while hidden. The first repair of a window whose browser did not fail
/// reloads it; any other recreates it.
pub proof fn law_unhealthy_window_past_grace_is_repaired(
    m: HealthModel,
    label: Seq<char>,
    i: int,
    visible: bool,
    now: u64,
)
    requires
        m.interactive,
        slot(m, label) == Some(i),
        i == 0 || visible || m.views[i].requested || (m.views[i].recovered && !m.views[i].application_ready),
        m.views[i].requested || !m.views[i].application_ready || now > m.views[i].last_js
            + RESPONSE_TIMEOUT_MS,
        now >= m.views[i].grace_until,
        m.views[i].repairs < REPAIR_BUDGET,
        now <= u64::MAX - STARTUP_GRACE_MS,
    ensures
        inspect_spec(m, label, visible, now).1 == Some(
            if m.views[i].browser_failed || m.views[i].repairs > 0 {
                Repair::Recreate
            } else {
                Repair::Reload
            },
        ),
        inspect_spec(m, label, visible, now).0.views[i].repairs == m.views[i].repairs + 1,
        inspect_spec(m, label, visible, now).0.views[i].recovered,
{
}

/// The same judgement for a single window ([`crate::runtime_health::ViewHealth::inspect`]).
pub proof fn law_unhealthy_view_past_grace_is_repaired(v: ViewModel, is_mascot: bool, visible: bool, now: u64)
    requires
        is_mascot || visible || v.requested || (v.recovered && !v.application_ready),
        v.requested || !v.application_ready || now > v.last_js + RESPONSE_TIMEOUT_MS,
        now >= v.grace_until,
        v.repairs < REPAIR_BUDGET,
        now <= u64::MAX - STARTUP_GRACE_MS,
    ensures
        inspect_view(v, is_mascot, visible, now).1 == Some(
            if v.browser_failed || v.repairs > 0 { Repair::Recreate } else { Repair::Reload },
        ),
        inspect_view(v, is_mascot, visible, now).0.repairs == v.repairs + 1,
{
}

/// A hidden auxiliary window whose earlier repair has not completed (its
/// application never mounted again) is repaired again once its new grace is
/// over, while budget is left: a stuck window is never abandoned early.
pub proof fn law_unmounted_recovered_window_is_repaired_again(
    m: HealthModel,
    label: Seq<char>,
    i: int,
    now: u64,
)
    requires
        m.interactive,
        slot(m, label) == Some(i),
        i != 0,
        m.views[i].recovered,
        !m.views[i].application_ready,
        now >= m.views[i].grace_until,
        m.views[i].repairs < REPAIR_BUDGET,
        now <= u64::MAX - STARTUP_GRACE_MS,
    ensures
        inspect_spec(m, label, false, now).1 is Some,
{
    law_unhealthy_window_past_grace_is_repaired(m, label, i, false, now);
}

// ---------------------------------------------------------------------------
// Sequences of calls.
// ---------------------------------------------------------------------------

/// A call of one of the [`crate::runtime_health::RuntimeHealth`] operations, with its arguments
/// (an instance identifier is given with its length in UTF-8 bytes).
pub enum HealthCall {
    Session { interactive: bool, now: u64, force: bool },
    Attach { label: Seq<char>, instance: Seq<char>, instance_bytes: int, now: u64 },
    Ack { label: Seq<char>, instance: Seq<char>, epoch: u64, sequence: u64, painted: bool, now: u64 },
    Request { label: Seq<char>, browser_failed: bool },
    Inspect { label: Seq<char>, visible: bool, now: u64 },
}

/// The health after `call`, as the operation's contract states it.
pub open spec fn after_call(m: HealthModel, call: HealthCall) -> HealthModel {
    match call {
        HealthCall::Session { interactive, now, force } => session_spec(m, interactive, now, force),
        HealthCall::Attach { label, instance, instance_bytes, now } => attach_spec(
            m,
            label,
            instance,
            instance_bytes,
            now,
        ).0,
        HealthCall::Ack { label, instance, epoch, sequence, painted, now } => if ack_accepted(
            m,
            label,
            instance,
            epoch,
            sequence,
        ) {
            with_view(m, slot(m, label)->0, acknowledged(m.views[slot(m, label)->0], sequence, painted, now))
        } else {
            m
        },
        HealthCall::Request { label, browser_failed } => request_spec(m, label, browser_failed),
        HealthCall::Inspect { label, visible, now } => inspect_spec(m, label, visible, now).0,
    }
}

/// Whether the operation's `requires` admits `call` on `m` (they exclude only
/// counter and clock overflow).
pub open spec fn call_admitted(m: HealthModel, call: HealthCall) -> bool {
    match call {
        HealthCall::Session { interactive, now, force } => session_changes(m, interactive, force) ==> m.epoch
            < u64::MAX && (m.views.len() > 0 ==> now <= u64::MAX - STARTUP_GRACE_MS),
        HealthCall::Attach { label, instance, instance_bytes, now } => attach_starts(
            m,
            label,
            instance,
            instance_bytes,
        ) ==> (now <= u64::MAX - STARTUP_GRACE_MS && (m.views[slot(m, label)->0].recovered ==> m.epoch
            < u64::MAX)),
        HealthCall::Ack { .. } => true,
        HealthCall::Request { .. } => true,
        HealthCall::Inspect { label, visible, now } => inspect_repairs(m, label, visible, now) ==> now
            <= u64::MAX - STARTUP_GRACE_MS,
    }
}

/// The health after `calls`, made in order from `m`.
pub open spec fn after_calls(m: HealthModel, calls: Seq<HealthCall>) -> HealthModel
    decreases calls.len(),
{
    if calls.len() == 0 {
        m
    } else {
        after_call(after_calls(m, calls.drop_last()), calls.last())
    }
}

/// Whether every call of `calls`, made in order from `m`, is admitted.
pub open spec fn calls_admitted(m: HealthModel, calls: Seq<HealthCall>) -> bool {
    forall|i: int| 0 <= i < calls.len() ==> #[trigger] call_admitted(after_calls(m, calls.subrange(0, i)), calls[i])
}

proof fn lemma_call_keeps_bookkeeping(m: HealthModel, call: HealthCall)
    requires
        health_wf(m),
        call_admitted(m, call),
    ensures
        health_wf(after_call(m, call)),
        after_call(m, call).views.len() == m.views.len(),
        m.epoch <= after_call(m, call).epoch,
{
    match call {
        HealthCall::Session { interactive, now, force } => law_session_keeps_wf(m, interactive, now, force),
        HealthCall::Attach { label, instance, instance_bytes, now } => law_attach_keeps_wf(
            m,
            label,
            instance,
            instance_bytes,
            now,
        ),
        HealthCall::Ack { label, instance, epoch, sequence, painted, now } => {
            if ack_accepted(m, label, instance, epoch, sequence) {
                law_ack_keeps_wf(m, label, instance, epoch, sequence, painted, now);
            }
        },
        HealthCall::Request { label, browser_failed } => law_request_keeps_wf(m, label, browser_failed),
        HealthCall::Inspect { label, visible, now } => law_inspect_keeps_wf(m, label, visible, now),
    }
}

proof fn lemma_prefix_keeps_bookkeeping(calls: Seq<HealthCall>, n: int)
    requires
        0 <= n <= calls.len(),
        calls_admitted(initial_health(), calls),
    ensures
        health_wf(after_calls(initial_health(), calls.subrange(0, n))),
        after_calls(initial_health(), calls.subrange(0, n)).views.len() == 4,
    decreases n,
{
    let start = initial_health();
    if n == 0 {
        assert(calls.subrange(0, 0) =~= Seq::<HealthCall>::empty());
        assert forall|j: int| 0 <= j < start.views.len() implies view_wf(#[trigger] start.views[j]) by {
            law_initial_views_are_wf(j);
        }
    } else {
        lemma_prefix_keeps_bookkeeping(calls, n - 1);
        let before = after_calls(start, calls.subrange(0, n - 1));
        assert(calls.subrange(0, n).drop_last() =~= calls.subrange(0, n - 1));
        assert(call_admitted(before, calls[n - 1]));
        lemma_call_keeps_bookkeeping(before, calls[n - 1]);
    }
}

/// From the initial health, any sequence of admitted `session`, `attach`,
/// `ack`, `request` and `inspect` calls keeps all four windows tracked under
/// their own labels, keeps every window within its repair budget and its
/// retired list within its capacity, and never moves the epoch backwards.
/// A call is admitted unless its epoch or clock arithmetic would overflow (a
/// new epoch at `u64::MAX`, or a startup grace ending past `u64::MAX`); on
/// those calls the epoch would wrap around to zero.
pub proof fn law_any_call_sequence_keeps_the_bookkeeping(calls: Seq<HealthCall>)
    requires
        calls_admitted(initial_health(), calls),
    ensures
        ({
            let h = after_calls(initial_health(), calls);
            &&& h.views.len() == 4
            &&& forall|i: int| 0 <= i < 4 ==> slot(h, #[trigger] label_text(i)) == Some(i)
            &&& forall|i: int| 0 <= i < 4 ==> (#[trigger] h.views[i]).repairs <= REPAIR_BUDGET
                && h.views[i].retired.len() <= RETIRED_CAPACITY
        }),
        forall|i: int|
            0 <= i < calls.len() ==> #[trigger] after_calls(initial_health(), calls.subrange(0, i)).epoch
                <= after_calls(initial_health(), calls.subrange(0, i + 1)).epoch,
{
    let start = initial_health();
    lemma_prefix_keeps_bookkeeping(calls, calls.len() as int);
    assert(calls.subrange(0, calls.len() as int) =~= calls);
    let h = after_calls(start, calls);
    assert forall|i: int| 0 <= i < 4 implies slot(h, #[trigger] label_text(i)) == Some(i) by {
        law_each_label_has_its_own_view(h, i);
    }
    assert forall|i: int| 0 <= i < 4 implies (#[trigger] h.views[i]).repairs <= REPAIR_BUDGET
        && h.views[i].retired.len() <= RETIRED_CAPACITY by {
        assert(view_wf(h.views[i]));
    }
    assert forall|i: int| 0 <= i < calls.len() implies #[trigger] after_calls(start, calls.subrange(0, i)).epoch
        <= after_calls(start, calls.subrange(0, i + 1)).epoch by {
        lemma_prefix_keeps_bookkeeping(calls, i);
        assert(calls.subrange(0, i + 1).drop_last() =~= calls.subrange(0, i));
        assert(call_admitted(after_calls(start, calls.subrange(0, i)), calls[i]));
        lemma_call_keeps_bookkeeping(after_calls(start, calls.subrange(0, i)), calls[i]);
    }
}

} // verus!
