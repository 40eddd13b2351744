//! The fixed set of desktop windows whose health is tracked.

use vstd::prelude::*;
use crate::text::same_text;

verus! {

/// Number of tracked windows.
pub const LABEL_COUNT: usize = 4;

/// Window labels, in tracking order.
pub const LABELS: [&'static str; 4] = ["mascot", "panel", "mascot-menu", "mascot-notification"];

/// The label of the tracked window at `index`.
pub open spec fn label_text(index: int) -> Seq<char> {
    if index == 0 {
        "mascot"@
    } else if index == 1 {
        "panel"@
    } else if index == 2 {
        "mascot-menu"@
    } else {
        "mascot-notification"@
    }
}

/// Position of a label among the tracked windows, if it is one of them.
pub open spec fn label_position(label: Seq<char>) -> Option<int> {
    if label == label_text(0) {
        Some(0)
    } else if label == label_text(1) {
        Some(1)
    } else if label == label_text(2) {
        Some(2)
    } else if label == label_text(3) {
        Some(3)
    } else {
        None
    }
}

/// The tracked labels are pairwise distinct, so each one is found at its own position.
pub proof fn lemma_label_positions()
    ensures
        forall|i: int| 0 <= i < 4 ==> #[trigger] label_position(label_text(i)) == Some(i),
{
    reveal_strlit("mascot");
    reveal_strlit("panel");
    reveal_strlit("mascot-menu");
    reveal_strlit("mascot-notification");
    assert(label_text(0).len() == 6);
    assert(label_text(1).len() == 5);
    assert(label_text(2).len() == 11);
    assert(label_text(3).len() == 19);
}

/// The label of the tracked window at `index`.
pub fn label_name(index: usize) -> (label: &'static str)
    requires
        index < LABEL_COUNT,
    ensures
        label@ == label_text(index as int),
{
    if index == 0 {
        "mascot"
    } else if index == 1 {
        "panel"
    } else if index == 2 {
        "mascot-menu"
    } else {
        "mascot-notification"
    }
}

/// Finds the tracking position of a window label.
pub fn label_index(label: &str) -> (index: Option<usize>)
    ensures
        match index {
            Some(i) => label_position(label@) == Some(i as int),
            None => label_position(label@) is None,
        },
{
    if same_text(label, "mascot") {
        Some(0)
    } else if same_text(label, "panel") {
        Some(1)
    } else if same_text(label, "mascot-menu") {
        Some(2)
    } else if same_text(label, "mascot-notification") {
        Some(3)
    } else {
        None
    }
}

} // verus!
