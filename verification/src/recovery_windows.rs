//! Native window snapshots kept while a repaired window is rebuilt, so it can
//! be restored to where it was once its application has mounted again.

use vstd::prelude::*;
use crate::labels::{label_index, label_position, LABEL_COUNT};
use crate::runtime_health::Repair;

verus! {

/// Geometry and visibility of a window before its repair.
#[derive(Clone, Copy, Debug, PartialEq, Eq, Structural)]
pub struct RecoveryWindow {
    pub x: i32,
    pub y: i32,
    pub width: u32,
    pub height: u32,
    pub visible: bool,
    pub recreate: bool,
    pub mounted: bool,
}

/// Snapshots by label position (see [`crate::labels::LABELS`]).
pub struct RecoveryWindows {
    pub windows: Vec<Option<RecoveryWindow>>,
}

pub open spec fn saved_slot(w: Seq<Option<RecoveryWindow>>, label: Seq<char>) -> Option<int> {
    match label_position(label) {
        Some(i) => if i < w.len() { Some(i) } else { None },
        None => None,
    }
}

/// The snapshot kept for a repair of the given kind: an existing snapshot is
/// kept (it holds the geometry from before the first repair), a new one is taken otherwise.
pub open spec fn saved_for_repair(existing: Option<RecoveryWindow>, snapshot: RecoveryWindow, repair: Repair) -> RecoveryWindow {
    let kept = match existing {
        Some(s) => s,
        None => snapshot,
    };
    RecoveryWindow { recreate: repair == Repair::Recreate, mounted: false, ..kept }
}

/// Labels are visited in their text order: mascot, mascot-menu, mascot-notification, panel.
pub open spec fn visit_order(k: int) -> int {
    if k == 0 { 0 } else if k == 1 { 2 } else if k == 2 { 3 } else { 1 }
}

pub open spec fn entry_if(w: Seq<Option<RecoveryWindow>>, i: int, wanted: spec_fn(RecoveryWindow) -> bool) -> Seq<(usize, RecoveryWindow)> {
    if i < w.len() && w[i] is Some && wanted(w[i]->0) {
        seq![(i as usize, w[i]->0)]
    } else {
        Seq::empty()
    }
}

/// Label positions and snapshots satisfying `wanted`, in visiting order.
pub open spec fn entries_where(w: Seq<Option<RecoveryWindow>>, wanted: spec_fn(RecoveryWindow) -> bool) -> Seq<(usize, RecoveryWindow)> {
    entry_if(w, visit_order(0), wanted) + entry_if(w, visit_order(1), wanted) + entry_if(w, visit_order(2), wanted)
        + entry_if(w, visit_order(3), wanted)
}

pub open spec fn is_mounted(s: RecoveryWindow) -> bool {
    s.mounted
}

pub open spec fn is_recreating(s: RecoveryWindow) -> bool {
    s.recreate
}

/// The snapshots left after the mounted ones are taken.
pub open spec fn without_mounted(w: Seq<Option<RecoveryWindow>>) -> Seq<Option<RecoveryWindow>> {
    w.map_values(|e: Option<RecoveryWindow>| if e is Some && e->0.mounted { None } else { e })
}

impl Default for RecoveryWindows {
    fn default() -> (windows: Self)
        ensures
            windows.windows@.len() == LABEL_COUNT,
            forall|i: int| 0 <= i < LABEL_COUNT ==> #[trigger] windows.windows@[i] is None,
    {
        let mut windows: Vec<Option<RecoveryWindow>> = Vec::new();
        let mut i: usize = 0;
        while i < LABEL_COUNT
            invariant
                i <= LABEL_COUNT,
                windows@.len() == i,
                forall|j: int| 0 <= j < i ==> #[trigger] windows@[j] is None,
            decreases LABEL_COUNT - i,
        {
            windows.push(None);
            i += 1;
        }
        RecoveryWindows { windows }
    }
}

impl RecoveryWindows {
    fn slot_of(&self, label: &str) -> (index: Option<usize>)
        ensures
            match index {
                Some(i) => saved_slot(self.windows@, label@) == Some(i as int),
                None => saved_slot(self.windows@, label@) is None,
            },
    {
        match label_index(label) {
            Some(i) => if i < self.windows.len() { Some(i) } else { None },
            None => None,
        }
    }

    /// The user hid the assistant: no rebuilt window may be shown again.
    pub fn user_hide(&mut self)
        ensures
            final(self).windows@ == old(self).windows@.map_values(
                |e: Option<RecoveryWindow>| match e {
                    Some(s) => Some(RecoveryWindow { visible: false, ..s }),
                    None => None,
                },
            ),
    {
        let ghost before = self.windows@;
        let n = self.windows.len();
        let mut i: usize = 0;
        while i < n
            invariant
                n == self.windows@.len(),
                n == before.len(),
                i <= n,
                forall|j: int| 0 <= j < i ==> #[trigger] self.windows@[j] == match before[j] {
                    Some(s) => Some(RecoveryWindow { visible: false, ..s }),
                    None => None,
                },
                forall|j: int| i <= j < n ==> #[trigger] self.windows@[j] == before[j],
            decreases n - i,
        {
            if let Some(snapshot) = self.windows[i] {
                self.windows.set(i, Some(RecoveryWindow { visible: false, ..snapshot }));
            }
            i += 1;
        }
        assert(self.windows@ =~= before.map_values(
            |e: Option<RecoveryWindow>| match e {
                Some(s) => Some(RecoveryWindow { visible: false, ..s }),
                None => None,
            },
        ));
    }

    /// Whether a window is waiting to be recreated (the host must not exit meanwhile).
    pub fn rebuilding(&self) -> (busy: bool)
        ensures
            busy == exists|i: int| 0 <= i < self.windows@.len() && #[trigger] self.windows@[i] is Some
                && self.windows@[i]->0.recreate,
    {
        let n = self.windows.len();
        let mut i: usize = 0;
        while i < n
            invariant
                n == self.windows@.len(),
                i <= n,
                forall|j: int| 0 <= j < i ==> !(#[trigger] self.windows@[j] is Some && self.windows@[j]->0.recreate),
            decreases n - i,
        {
            if let Some(snapshot) = self.windows[i] {
                if snapshot.recreate {
                    return true;
                }
            }
            i += 1;
        }
        false
    }

    /// Records the repair of `label`, keeping an earlier snapshot if there is one.
    pub fn save_for_repair(&mut self, label: &str, snapshot: RecoveryWindow, repair: Repair)
        ensures
            match saved_slot(old(self).windows@, label@) {
                Some(i) => final(self).windows@ == old(self).windows@.update(
                    i,
                    Some(saved_for_repair(old(self).windows@[i], snapshot, repair)),
                ),
                None => final(self).windows@ == old(self).windows@,
            },
    {
        if let Some(i) = self.slot_of(label) {
            let kept = match self.windows[i] {
                Some(existing) => existing,
                None => snapshot,
            };
            let recreate = match repair {
                Repair::Recreate => true,
                Repair::Reload => false,
            };
            self.windows.set(i, Some(RecoveryWindow { recreate, mounted: false, ..kept }));
        }
    }

    /// The rebuilt application of `label` has mounted.
    pub fn mark_mounted(&mut self, label: &str)
        ensures
            match saved_slot(old(self).windows@, label@) {
                Some(i) => final(self).windows@ == match old(self).windows@[i] {
                    Some(s) => old(self).windows@.update(i, Some(RecoveryWindow { mounted: true, ..s })),
                    None => old(self).windows@,
                },
                None => final(self).windows@ == old(self).windows@,
            },
    {
        if let Some(i) = self.slot_of(label) {
            if let Some(snapshot) = self.windows[i] {
                self.windows.set(i, Some(RecoveryWindow { mounted: true, ..snapshot }));
            }
        }
    }

    /// The snapshot kept for `label`, if any.
    pub fn pending(&self, label: &str) -> (snapshot: Option<RecoveryWindow>)
        ensures
            snapshot == match saved_slot(self.windows@, label@) {
                Some(i) => self.windows@[i],
                None => None,
            },
    {
        match self.slot_of(label) {
            Some(i) => self.windows[i],
            None => None,
        }
    }

    /// Consumes the pending creation attempt of `label` (even one that will
    /// fail), so a window is never rebuilt in an unbounded loop.
    pub fn consume_recreation(&mut self, label: &str)
        ensures
            match saved_slot(old(self).windows@, label@) {
                Some(i) => final(self).windows@ == match old(self).windows@[i] {
                    Some(s) => old(self).windows@.update(i, Some(RecoveryWindow { recreate: false, ..s })),
                    None => old(self).windows@,
                },
                None => final(self).windows@ == old(self).windows@,
            },
    {
        if let Some(i) = self.slot_of(label) {
            if let Some(snapshot) = self.windows[i] {
                self.windows.set(i, Some(RecoveryWindow { recreate: false, ..snapshot }));
            }
        }
    }

    fn entry_at(&self, i: usize, recreating: bool) -> (entry: Vec<(usize, RecoveryWindow)>)
        ensures
            entry@ == entry_if(self.windows@, i as int, if recreating { |s: RecoveryWindow| is_recreating(s) } else { |s: RecoveryWindow| is_mounted(s) }),
    {
        let mut entry: Vec<(usize, RecoveryWindow)> = Vec::new();
        if i < self.windows.len() {
            if let Some(snapshot) = self.windows[i] {
                if (recreating && snapshot.recreate) || (!recreating && snapshot.mounted) {
                    entry.push((i, snapshot));
                }
            }
        }
        assert(entry@ =~= entry_if(self.windows@, i as int, if recreating { |s: RecoveryWindow| is_recreating(s) } else { |s: RecoveryWindow| is_mounted(s) }));
        entry
    }

    fn entries(&self, recreating: bool) -> (entries: Vec<(usize, RecoveryWindow)>)
        ensures
            entries@ == entries_where(self.windows@, if recreating { |s: RecoveryWindow| is_recreating(s) } else { |s: RecoveryWindow| is_mounted(s) }),
    {
        let mut entries = self.entry_at(0, recreating);
        let mut more = self.entry_at(2, recreating);
        entries.append(&mut more);
        let mut more = self.entry_at(3, recreating);
        entries.append(&mut more);
        let mut more = self.entry_at(1, recreating);
        entries.append(&mut more);
        entries
    }

    /// Label positions and snapshots of windows waiting to be recreated.
    pub fn recreation_candidates(&self) -> (candidates: Vec<(usize, RecoveryWindow)>)
        ensures
            candidates@ == entries_where(self.windows@, |s: RecoveryWindow| is_recreating(s)),
    {
        self.entries(true)
    }

    /// Removes and returns the snapshots of windows whose application has mounted again.
    pub fn take_mounted(&mut self) -> (ready: Vec<(usize, RecoveryWindow)>)
        ensures
            ready@ == entries_where(old(self).windows@, |s: RecoveryWindow| is_mounted(s)),
            final(self).windows@ == without_mounted(old(self).windows@),
    {
        let ready = self.entries(false);
        let ghost before = self.windows@;
        let n = self.windows.len();
        let mut i: usize = 0;
        while i < n
            invariant
                n == self.windows@.len(),
                n == before.len(),
                i <= n,
                forall|j: int| 0 <= j < i ==> #[trigger] self.windows@[j] == (if before[j] is Some && before[j]->0.mounted { None } else { before[j] }),
                forall|j: int| i <= j < n ==> #[trigger] self.windows@[j] == before[j],
            decreases n - i,
        {
            if let Some(snapshot) = self.windows[i] {
                if snapshot.mounted {
                    self.windows.set(i, None);
                }
            }
            i += 1;
        }
        assert(self.windows@ =~= without_mounted(before));
        ready
    }
}

} // verus!
