//! The audit trail: append-only lifecycle entries, newest first, capped.

use vstd::prelude::*;

verus! {

/// Greatest number of entries the store retains.
pub const HISTORY_CAP: usize = 100;

/// One audit entry: a lifecycle event or the outcome of a copy.
#[derive(Clone, Debug)]
pub struct HistoryEntry {
    pub id: String,
    pub timestamp: String,
    pub action_type: String,
    pub description: String,
    pub folder_name: String,
    pub source_path: String,
    pub target_path: String,
    pub copied_files_count: usize,
    pub total_size: u64,
    pub files: Vec<String>,
}

/// The capped, newest-first store of audit entries.
#[derive(Clone, Debug)]
pub struct HistoryStore {
    pub entries: Vec<HistoryEntry>,
}

impl Default for HistoryStore {
    /// An empty store.
    fn default() -> (s: HistoryStore)
        ensures
            s.entries@.len() == 0,
    {
        HistoryStore { entries: Vec::new() }
    }
}

impl HistoryStore {
    /// The store never holds more than the cap.
    pub open spec fn capped(self) -> bool {
        self.entries@.len() <= HISTORY_CAP
    }

    /// Prepend `entry` and drop whatever falls past the cap: the store
    /// afterwards is the new entry followed by the old entries, truncated
    /// to the cap, so a store within the cap stays within it.
    pub fn add(&mut self, entry: HistoryEntry)
        ensures
            final(self).entries@ == (seq![entry] + old(self).entries@).take(
                if old(self).entries@.len() + 1 <= HISTORY_CAP {
                    old(self).entries@.len() + 1int
                } else {
                    HISTORY_CAP as int
                },
            ),
            final(self).entries@.len() >= 1 && final(self).entries@[0] == entry,
            old(self).capped() ==> final(self).capped(),
    {
        self.entries.insert(0, entry);
        if self.entries.len() > HISTORY_CAP {
            self.entries.truncate(HISTORY_CAP);
        }
        proof {
            let whole = seq![entry] + old(self).entries@;
            assert(old(self).entries@.insert(0, entry) =~= whole);
            if whole.len() <= HISTORY_CAP {
                assert(whole.take(whole.len() as int) =~= whole);
            }
        }
    }
}

/// A generic lifecycle event entry, as the control surface records one: a
/// fresh identifier, the current timestamp, the given action and
/// description, and empty copy fields.
pub fn system_event(action: String, desc: String) -> (e: HistoryEntry)
    ensures
        e.id@.len() == 36,
        e.timestamp@.len() > 0,
        e.action_type == action,
        e.description == desc,
        e.folder_name@.len() == 0,
        e.source_path@.len() == 0,
        e.target_path@.len() == 0,
        e.copied_files_count == 0,
        e.total_size == 0,
        e.files@.len() == 0,
{
    HistoryEntry {
        id: crate::ids::fresh_id(),
        timestamp: crate::clock::now_rfc3339(),
        action_type: action,
        description: desc,
        folder_name: String::new(),
        source_path: String::new(),
        target_path: String::new(),
        copied_files_count: 0,
        total_size: 0,
        files: Vec::new(),
    }
}

} // verus!
