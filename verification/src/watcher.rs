//! The development watch loop's state: which filesystem events matter,
//! the debounce that folds a burst of changes into one rebuild, and the
//! guarantee that at most one guest process is alive at a time.
//!
//! The embedder owns the filesystem watcher, the periodic tick and the
//! child process; it feeds events in and obeys the decisions.

use vstd::prelude::*;

use crate::strutil::{ends_with_str, spec_ends_with};

verus! {

/// Whether a filesystem event should schedule a rebuild: only modify or
/// create events whose path has a source, interface or manifest
/// extension.
pub open spec fn spec_relevant_change(modify_or_create: bool, path: Seq<char>) -> bool {
    modify_or_create && (spec_ends_with(path, ".rs"@) || spec_ends_with(path, ".wit"@)
        || spec_ends_with(path, ".toml"@))
}

/// Filters one filesystem event.
pub fn is_relevant_change(modify_or_create: bool, path: &str) -> (r: bool)
    ensures
        r == spec_relevant_change(modify_or_create, path@),
{
    if !modify_or_create {
        return false;
    }
    ends_with_str(path, ".rs") || ends_with_str(path, ".wit") || ends_with_str(path, ".toml")
}

/// The watch loop's state: the watched project, whether a guest process
/// is currently running, and whether a rebuild is pending.
pub struct DevWatcher {
    pub project_path: String,
    pub child_running: bool,
    pub pending_rebuild: bool,
}

/// The state after a relevant filesystem event: a rebuild is pending.
pub open spec fn spec_note_change(w: DevWatcher) -> DevWatcher {
    DevWatcher { pending_rebuild: true, ..w }
}

/// The state and decision of one debounce tick: rebuild exactly when a
/// change was pending, and clear the flag.
pub open spec fn spec_poll_tick(w: DevWatcher) -> (bool, DevWatcher) {
    (w.pending_rebuild, (DevWatcher { pending_rebuild: false, ..w }))
}

impl DevWatcher {
    /// A fresh watcher: nothing pending, no child process.
    pub fn new(project_path: String) -> (w: DevWatcher)
        ensures
            w.project_path == project_path,
            w.child_running == false,
            w.pending_rebuild == false,
    {
        DevWatcher { project_path, child_running: false, pending_rebuild: false }
    }

    /// Records that a relevant change arrived; many changes within one
    /// debounce window fold into a single pending rebuild.
    pub fn note_change(&mut self)
        ensures
            *final(self) == spec_note_change(*old(self)),
    {
        self.pending_rebuild = true;
    }

    /// One debounce tick: drains the pending flag and says whether to
    /// rebuild.  The tick period is the debounce window; at most one
    /// rebuild is triggered per tick.
    pub fn poll_tick(&mut self) -> (rebuild: bool)
        ensures
            rebuild == spec_poll_tick(*old(self)).0,
            *final(self) == spec_poll_tick(*old(self)).1,
    {
        let r: bool = self.pending_rebuild;
        self.pending_rebuild = false;
        r
    }

    /// Starts a rebuild cycle: any running guest process must be killed
    /// and reaped before the new build and launch, so that at most one
    /// guest process is ever alive.
    pub fn begin_cycle(&mut self) -> (kill_first: bool)
        ensures
            kill_first == old(self).child_running,
            final(self).child_running == false,
            final(self).project_path == old(self).project_path,
            final(self).pending_rebuild == old(self).pending_rebuild,
    {
        let r: bool = self.child_running;
        self.child_running = false;
        r
    }

    /// Records that a fresh guest process was spawned.
    pub fn mark_spawned(&mut self)
        ensures
            final(self).child_running == true,
            final(self).project_path == old(self).project_path,
            final(self).pending_rebuild == old(self).pending_rebuild,
    {
        self.child_running = true;
    }
}

/// Law: the debounce folds bursts — any number of changes within one
/// tick window trigger exactly one rebuild: the tick after three
/// changes says rebuild once, and the tick after it, with no further
/// change, says nothing.
pub proof fn lemma_watch_debounce(w: DevWatcher)
    ensures
        ({
            let w3 = spec_note_change(spec_note_change(spec_note_change(w)));
            let (first, w4) = spec_poll_tick(w3);
            let (second, _) = spec_poll_tick(w4);
            first == true && second == false
        }),
{
}

} // verus!
