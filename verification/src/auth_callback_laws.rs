//! Properties of the pending callback queue that span operations.

use vstd::prelude::*;
use crate::auth_callback::{captured, queued, CallbackModel, DESKTOP_AUTH_CALLBACK_QUEUE_CAPACITY};

verus! {

/// No callback URL waits twice.
pub open spec fn distinct_callbacks(pending: Seq<CallbackModel>) -> bool {
    forall|i: int, j: int|
        0 <= i < j < pending.len() && #[trigger] pending[i].callback_url is Some ==> pending[i].callback_url
            != #[trigger] pending[j].callback_url
}

/// The queue never holds more than its capacity.
pub proof fn law_queue_is_bounded(pending: Seq<CallbackModel>, found: Option<Seq<char>>, argument_count: usize)
    requires
        pending.len() <= DESKTOP_AUTH_CALLBACK_QUEUE_CAPACITY,
    ensures
        captured(pending, found, argument_count).len() <= DESKTOP_AUTH_CALLBACK_QUEUE_CAPACITY,
{
}

/// A command line without a callback (such as a second plain launch) never
/// disturbs the callbacks that are waiting.
pub proof fn law_unrelated_launch_keeps_pending(pending: Seq<CallbackModel>, argument_count: usize)
    ensures
        captured(pending, None, argument_count) == pending,
{
}

/// A callback that is already waiting is not queued again.
pub proof fn law_repeated_callback_is_not_duplicated(
    pending: Seq<CallbackModel>,
    url: Seq<char>,
    argument_count: usize,
)
    requires
        queued(pending, url),
    ensures
        captured(pending, Some(url), argument_count) == pending,
{
}

/// Capturing keeps the waiting callbacks distinct.
pub proof fn law_capture_keeps_callbacks_distinct(
    pending: Seq<CallbackModel>,
    found: Option<Seq<char>>,
    argument_count: usize,
)
    requires
        distinct_callbacks(pending),
    ensures
        distinct_callbacks(captured(pending, found, argument_count)),
{
    let after = captured(pending, found, argument_count);
    if let Some(url) = found {
        if !queued(pending, url) {
            let kept = if pending.len() >= DESKTOP_AUTH_CALLBACK_QUEUE_CAPACITY {
                pending.drop_first()
            } else {
                pending
            };
            assert forall|i: int, j: int|
                0 <= i < j < after.len() && #[trigger] after[i].callback_url is Some implies after[i].callback_url
                    != #[trigger] after[j].callback_url by {
                if j == after.len() - 1 {
                    if pending.len() >= DESKTOP_AUTH_CALLBACK_QUEUE_CAPACITY {
                        assert(after[i] == pending[i + 1]);
                        if after[i].callback_url == Some(url) {
                            assert(pending[i + 1].callback_url == Some(url));
                        }
                    } else {
                        assert(after[i] == pending[i]);
                        if after[i].callback_url == Some(url) {
                            assert(pending[i].callback_url == Some(url));
                        }
                    }
                } else {
                    if pending.len() >= DESKTOP_AUTH_CALLBACK_QUEUE_CAPACITY {
                        assert(after[i] == pending[i + 1] && after[j] == pending[j + 1]);
                    } else {
                        assert(after[i] == pending[i] && after[j] == pending[j]);
                    }
                }
            }
        }
    }
}

/// Callbacks are delivered in arrival order: a new callback joins behind
/// every waiting one, which keep their order (only the oldest leaves, and only
/// when the queue is full).
pub proof fn law_capture_preserves_arrival_order(pending: Seq<CallbackModel>, url: Seq<char>, argument_count: usize)
    requires
        !queued(pending, url),
        pending.len() < DESKTOP_AUTH_CALLBACK_QUEUE_CAPACITY,
    ensures
        captured(pending, Some(url), argument_count) == pending.push(
            CallbackModel { callback_url: Some(url), argument_count },
        ),
{
}

} // verus!
