//! The transfer engine's decisions: the conjunctive file filters, the byte
//! planning, the cooperative cancel/pause checkpoint, the progress
//! arithmetic, and the copy job whose accounting feeds the audit trail.

use vstd::prelude::*;
use crate::text::{ext_rule_matches, has_sub};
use crate::history::HistoryEntry;

verus! {

/// Extension filter: vacuously true without rules; otherwise some
/// configured extension must match the end of the name, case-insensitively
/// up to ASCII case folding, with the `"ext"` and `".ext"` spellings
/// accepted alike.
pub open spec fn ext_filter_ok(name: Seq<char>, exts: Seq<Seq<char>>) -> bool {
    exts.len() == 0 || exists|j: int| 0 <= j < exts.len() && ext_rule_matches(name, exts[j])
}

/// Include filter: vacuously true without rules; otherwise some configured
/// text must occur in the name.
pub open spec fn include_filter_ok(name: Seq<char>, incs: Seq<Seq<char>>) -> bool {
    incs.len() == 0 || exists|j: int| 0 <= j < incs.len() && has_sub(name, incs[j])
}

/// The conjunction of the two filters selects a file.
pub open spec fn file_selected(name: Seq<char>, exts: Seq<Seq<char>>, incs: Seq<Seq<char>>) -> bool {
    ext_filter_ok(name, exts) && include_filter_ok(name, incs)
}

/// One regular file discovered under a source tree.
#[derive(Debug)]
pub struct FileEntry {
    /// Path relative to the source root, separator included.
    pub rel_path: String,
    /// Final path component, the text the filters and the audit list see.
    pub name: String,
    /// Size in bytes as enumerated.
    pub size: u64,
}

/// An equal copy of a list of names.
fn copy_names(v: &Vec<String>) -> (r: Vec<String>)
    ensures
        r@ == v@,
{
    let n = v.len();
    let mut out: Vec<String> = Vec::new();
    let mut i: usize = 0;
    while i < n
        invariant
            i <= n,
            n == v@.len(),
            out@ =~= v@.take(i as int),
        decreases n - i,
    {
        out.push(v[i].clone());
        i += 1;
    }
    proof {
        assert(v@.take(n as int) =~= v@);
    }
    out
}

impl Clone for FileEntry {
    /// An equal copy.
    fn clone(&self) -> (r: Self)
        ensures
            r == *self,
    {
        FileEntry { rel_path: self.rel_path.clone(), name: self.name.clone(), size: self.size }
    }
}

/// Whether any configured extension matches `name`.
fn ext_any_match(name: &str, exts: &Vec<String>) -> (r: bool)
    ensures
        r == exists|j: int| 0 <= j < exts.deep_view().len() && ext_rule_matches(
            name@,
            exts.deep_view()[j],
        ),
{
    let mut j: usize = 0;
    while j < exts.len()
        invariant
            j <= exts@.len(),
            forall|q: int| 0 <= q < j ==> !ext_rule_matches(name@, exts.deep_view()[q]),
        decreases exts@.len() - j,
    {
        if crate::text::ext_rule_check(name, exts[j].as_str()) {
            assert(ext_rule_matches(name@, exts.deep_view()[j as int]));
            return true;
        }
        j += 1;
    }
    false
}

/// Whether any configured include text occurs in `name`.
fn include_any_match(name: &str, incs: &Vec<String>) -> (r: bool)
    ensures
        r == exists|j: int| 0 <= j < incs.deep_view().len() && has_sub(
            name@,
            incs.deep_view()[j],
        ),
{
    let mut j: usize = 0;
    while j < incs.len()
        invariant
            j <= incs@.len(),
            forall|q: int| 0 <= q < j ==> !has_sub(name@, incs.deep_view()[q]),
        decreases incs@.len() - j,
    {
        if crate::text::has_sub_str(name, incs[j].as_str()) {
            assert(has_sub(name@, incs.deep_view()[j as int]));
            return true;
        }
        j += 1;
    }
    false
}

/// Whether the filters select `name`, as `file_selected` describes.
pub fn file_passes(name: &str, exts: &Vec<String>, incs: &Vec<String>) -> (r: bool)
    ensures
        r == file_selected(name@, exts.deep_view(), incs.deep_view()),
{
    let ext_ok = if exts.len() == 0 {
        true
    } else {
        ext_any_match(name, exts)
    };
    if !ext_ok {
        return false;
    }
    if incs.len() == 0 {
        return true;
    }
    include_any_match(name, incs)
}

/// The filtered sublist of `files`, in listing order.
pub open spec fn spec_filtered(
    files: Seq<FileEntry>,
    exts: Seq<Seq<char>>,
    incs: Seq<Seq<char>>,
) -> Seq<FileEntry>
    decreases files.len(),
{
    if files.len() == 0 {
        Seq::<FileEntry>::empty()
    } else {
        let head = spec_filtered(files.drop_last(), exts, incs);
        if file_selected(files.last().name@, exts, incs) {
            head + seq![files.last()]
        } else {
            head
        }
    }
}

/// Keep exactly the files the filters select, in order.
pub fn filter_files(files: &Vec<FileEntry>, exts: &Vec<String>, incs: &Vec<String>) -> (r: Vec<
    FileEntry,
>)
    ensures
        r@ == spec_filtered(files@, exts.deep_view(), incs.deep_view()),
{
    let n = files.len();
    let mut out: Vec<FileEntry> = Vec::new();
    let mut i: usize = 0;
    proof {
        assert(files@.take(0) =~= Seq::<FileEntry>::empty());
    }
    while i < n
        invariant
            i <= n,
            n == files@.len(),
            out@ == spec_filtered(files@.take(i as int), exts.deep_view(), incs.deep_view()),
        decreases n - i,
    {
        let ghost pre = files@.take(i as int);
        let ghost post = files@.take(i + 1);
        proof {
            assert(post.drop_last() =~= pre);
            assert(post.last() == files@[i as int]);
        }
        if file_passes(files[i].name.as_str(), exts, incs) {
            let f = files[i].clone();
            out.push(f);
        }
        i += 1;
    }
    proof {
        assert(files@.take(n as int) =~= files@);
    }
    out
}

/// Sum in bytes of the listed files.
pub open spec fn total_size(files: Seq<FileEntry>) -> int
    decreases files.len(),
{
    if files.len() == 0 {
        0
    } else {
        total_size(files.drop_last()) + files.last().size
    }
}

/// A prefix never outweighs the whole list.
pub proof fn lemma_total_size_prefix(files: Seq<FileEntry>, k: int)
    requires
        0 <= k <= files.len(),
    ensures
        total_size(files.take(k)) <= total_size(files),
    decreases files.len(),
{
    if k == files.len() {
        assert(files.take(k) =~= files);
    } else {
        assert(files.drop_last().take(k) =~= files.take(k));
        lemma_total_size_prefix(files.drop_last(), k);
    }
}

/// The byte total of the listed files, or nothing when it overflows the
/// counter.
pub fn sum_sizes(files: &Vec<FileEntry>) -> (r: Option<u64>)
    ensures
        match r {
            Option::Some(t) => t == total_size(files@),
            Option::None => total_size(files@) > u64::MAX,
        },
{
    let n = files.len();
    let mut acc: u64 = 0;
    let mut i: usize = 0;
    proof {
        assert(files@.take(0) =~= Seq::<FileEntry>::empty());
    }
    while i < n
        invariant
            i <= n,
            n == files@.len(),
            acc == total_size(files@.take(i as int)),
        decreases n - i,
    {
        let ghost pre = files@.take(i as int);
        let ghost post = files@.take(i + 1);
        proof {
            assert(post.drop_last() =~= pre);
            assert(post.last() == files@[i as int]);
        }
        let sz = files[i].size;
        if sz <= u64::MAX - acc {
            acc += sz;
        } else {
            proof {
                lemma_total_size_prefix(files@, i + 1);
            }
            return Option::None;
        }
        i += 1;
    }
    proof {
        assert(files@.take(n as int) =~= files@);
    }
    Option::Some(acc)
}

/// What the copy loop does at the checkpoint before each chunk.
#[derive(Clone, Copy, Debug, PartialEq, Eq, Structural)]
pub enum ChunkStep {
    /// Stop at once and leave what is already written.
    Abort,
    /// Hold in place for a bounded sleep, then ask again.
    Wait,
    /// Read and write the next chunk.
    Proceed,
}

/// Bytes per chunk of a streamed copy.
pub const CHUNK_BYTES: usize = 65536;

/// Milliseconds a paused loop sleeps before asking again.
pub const PAUSE_POLL_MILLIS: u64 = 100;

/// The cooperative checkpoint: cancellation always wins, even over an
/// active pause, so a paused job stays cancellable; pause alone holds the
/// loop in place; otherwise the next chunk proceeds.
pub fn chunk_step(cancel: bool, paused: bool) -> (r: ChunkStep)
    ensures
        cancel ==> r is Abort,
        !cancel && paused ==> r is Wait,
        !cancel && !paused ==> r is Proceed,
{
    if cancel {
        ChunkStep::Abort
    } else if paused {
        ChunkStep::Wait
    } else {
        ChunkStep::Proceed
    }
}

/// Whole-number percentage of `copied` against `total`: zero of an empty
/// total, and the copied bytes are clamped to the total.
pub fn progress_percent(copied: u64, total: u64) -> (p: u64)
    ensures
        total == 0 ==> p == 0,
        total > 0 ==> p == (if copied <= total {
            copied as int
        } else {
            total as int
        }) * 100 / total as int,
{
    if total == 0 {
        return 0;
    }
    let c = if copied <= total {
        copied
    } else {
        total
    };
    let wide: u128 = (c as u128) * 100 / (total as u128);
    proof {
        assert((c as int) * 100 / (total as int) <= 100) by (nonlinear_arith)
            requires
                0 < total as int,
                0 <= c as int <= total as int,
        ;
    }
    wide as u64
}

/// Throughput in bytes per second: the copied bytes over the elapsed
/// seconds, zero before the first full second.
pub fn transfer_rate(copied: u64, elapsed_seconds: u64) -> (s: u64)
    ensures
        elapsed_seconds == 0 ==> s == 0,
        elapsed_seconds > 0 ==> s == copied as int / elapsed_seconds as int,
{
    if elapsed_seconds == 0 {
        0
    } else {
        copied / elapsed_seconds
    }
}

/// Estimated seconds to completion: the remaining bytes over the rate,
/// zero without a positive rate or remaining work.
pub fn remaining_seconds(copied: u64, total: u64, rate: u64) -> (e: u64)
    ensures
        rate > 0 && total > copied ==> e == (total - copied) as int / rate as int,
        !(rate > 0 && total > copied) ==> e == 0,
{
    if rate > 0 && total > copied {
        (total - copied) / rate
    } else {
        0
    }
}

/// What the engine does with a planned copy.
#[derive(Clone, Copy, Debug, PartialEq, Eq, Structural)]
pub enum CopyDirective {
    /// The destination already exists: leave it untouched, whatever the
    /// plan holds — running the same copy again is a no-op, not an error.
    SkipExisting,
    /// Nothing passed the filters: nothing to copy, a warning, no error.
    NothingToCopy,
    /// Copy the planned files.
    Proceed,
}

/// Decide a planned copy from the destination's existence and the size of
/// the filtered plan. An existing destination is skipped unconditionally.
pub fn copy_directive(dest_exists: bool, planned_files: usize) -> (r: CopyDirective)
    ensures
        dest_exists ==> r is SkipExisting,
        !dest_exists && planned_files == 0 ==> r is NothingToCopy,
        !dest_exists && planned_files > 0 ==> r is Proceed,
{
    if dest_exists {
        CopyDirective::SkipExisting
    } else if planned_files == 0 {
        CopyDirective::NothingToCopy
    } else {
        CopyDirective::Proceed
    }
}

/// One transfer in progress: the filtered plan, the byte accounting and
/// the audit list of fully copied files.
#[derive(Debug)]
pub struct CopyJob {
    /// Display name of the artifact directory being copied.
    pub folder_name: String,
    /// The source tree.
    pub source_path: String,
    /// The destination tree.
    pub target_path: String,
    /// The filtered files, in copy order.
    pub files: Vec<FileEntry>,
    /// Byte total of the plan, precomputed for percentage and estimates.
    pub total_bytes: u64,
    /// Bytes written so far, partial chunks of the current file included.
    pub copied_bytes: u64,
    /// Index of the next file to copy.
    pub next_file: usize,
    /// Names of the files written whole, in copy order.
    pub done_files: Vec<String>,
}

impl CopyJob {
    /// The accounting is consistent with the plan.
    pub open spec fn wf(self) -> bool {
        &&& self.next_file <= self.files@.len()
        &&& self.done_files@.len() <= self.next_file
        &&& self.total_bytes == total_size(self.files@)
    }

    /// Plan a transfer over already filtered files; refused when their
    /// byte total overflows the counter.
    pub fn plan(
        folder_name: String,
        source_path: String,
        target_path: String,
        files: Vec<FileEntry>,
    ) -> (r: Option<CopyJob>)
        ensures
            match r {
                Option::Some(job) => {
                    &&& job.wf()
                    &&& job.folder_name == folder_name
                    &&& job.source_path == source_path
                    &&& job.target_path == target_path
                    &&& job.files == files
                    &&& job.total_bytes == total_size(files@)
                    &&& job.copied_bytes == 0
                    &&& job.next_file == 0
                    &&& job.done_files@.len() == 0
                },
                Option::None => total_size(files@) > u64::MAX,
            },
    {
        match sum_sizes(&files) {
            Option::None => Option::None,
            Option::Some(total) => Option::Some(
                CopyJob {
                    folder_name,
                    source_path,
                    target_path,
                    files,
                    total_bytes: total,
                    copied_bytes: 0,
                    next_file: 0,
                    done_files: Vec::new(),
                },
            ),
        }
    }

    /// Account one chunk of `n` bytes, saturating at the counter's cap;
    /// nothing else moves.
    pub fn record_chunk(&mut self, n: u64)
        ensures
            final(self).copied_bytes == if old(self).copied_bytes + n <= u64::MAX {
                old(self).copied_bytes + n
            } else {
                u64::MAX as int
            },
            final(self).folder_name == old(self).folder_name,
            final(self).source_path == old(self).source_path,
            final(self).target_path == old(self).target_path,
            final(self).files == old(self).files,
            final(self).total_bytes == old(self).total_bytes,
            final(self).next_file == old(self).next_file,
            final(self).done_files == old(self).done_files,
            old(self).wf() ==> final(self).wf(),
    {
        if n <= u64::MAX - self.copied_bytes {
            self.copied_bytes = self.copied_bytes + n;
        } else {
            self.copied_bytes = u64::MAX;
        }
    }

    /// The current file was written whole: its display name joins the
    /// audit list and the job moves to the next file.
    pub fn file_done(&mut self)
        requires
            old(self).next_file < old(self).files@.len(),
        ensures
            final(self).next_file == old(self).next_file + 1,
            final(self).done_files@ == old(self).done_files@ + seq![
                old(self).files@[old(self).next_file as int].name,
            ],
            final(self).folder_name == old(self).folder_name,
            final(self).source_path == old(self).source_path,
            final(self).target_path == old(self).target_path,
            final(self).files == old(self).files,
            final(self).total_bytes == old(self).total_bytes,
            final(self).copied_bytes == old(self).copied_bytes,
            old(self).wf() ==> final(self).wf(),
    {
        let planned = self.files.len();
        assert(self.next_file < planned);
        let name = self.files[self.next_file].name.clone();
        self.done_files.push(name);
        self.next_file = self.next_file + 1;
    }

    /// The current file failed to copy for a reason other than
    /// cancellation: it is left out of the audit list and the job moves
    /// on.
    pub fn file_failed(&mut self)
        requires
            old(self).next_file < old(self).files@.len(),
        ensures
            final(self).next_file == old(self).next_file + 1,
            final(self).done_files == old(self).done_files,
            final(self).folder_name == old(self).folder_name,
            final(self).source_path == old(self).source_path,
            final(self).target_path == old(self).target_path,
            final(self).files == old(self).files,
            final(self).total_bytes == old(self).total_bytes,
            final(self).copied_bytes == old(self).copied_bytes,
            old(self).wf() ==> final(self).wf(),
    {
        let planned = self.files.len();
        assert(self.next_file < planned);
        self.next_file = self.next_file + 1;
    }

    /// The audit entry recorded when the copy starts.
    pub fn started_entry(&self) -> (e: HistoryEntry)
        ensures
            e.id@.len() == 36,
            e.timestamp@.len() > 0,
            e.action_type@ == "COPY_STARTED"@,
            e.description@ == "Started copying "@ + self.folder_name@,
            e.folder_name == self.folder_name,
            e.source_path == self.source_path,
            e.target_path == self.target_path,
            e.copied_files_count == 0,
            e.total_size == 0,
            e.files@.len() == 0,
    {
        HistoryEntry {
            id: crate::ids::fresh_id(),
            timestamp: crate::clock::now_rfc3339(),
            action_type: String::from_str("COPY_STARTED"),
            description: String::from_str("Started copying ").concat(self.folder_name.as_str()),
            folder_name: self.folder_name.clone(),
            source_path: self.source_path.clone(),
            target_path: self.target_path.clone(),
            copied_files_count: 0,
            total_size: 0,
            files: Vec::new(),
        }
    }

    /// The audit entry of a completed copy: it carries exactly the copied
    /// file names, their count and the byte total.
    pub fn completed_entry(&self) -> (e: HistoryEntry)
        ensures
            e.id@.len() == 36,
            e.timestamp@.len() > 0,
            e.action_type@ == "COPY_COMPLETED"@,
            e.description@ == "Successfully copied "@ + self.folder_name@,
            e.folder_name == self.folder_name,
            e.source_path == self.source_path,
            e.target_path == self.target_path,
            e.copied_files_count == self.done_files@.len(),
            e.total_size == self.copied_bytes,
            e.files@ == self.done_files@,
    {
        HistoryEntry {
            id: crate::ids::fresh_id(),
            timestamp: crate::clock::now_rfc3339(),
            action_type: String::from_str("COPY_COMPLETED"),
            description: String::from_str("Successfully copied ").concat(
                self.folder_name.as_str(),
            ),
            folder_name: self.folder_name.clone(),
            source_path: self.source_path.clone(),
            target_path: self.target_path.clone(),
            copied_files_count: self.done_files.len(),
            total_size: self.copied_bytes,
            files: copy_names(&self.done_files),
        }
    }

    /// The audit entry of a cancelled copy: partial progress is preserved,
    /// and the copied-file count equals exactly the number of files
    /// written whole before the cancellation checkpoint.
    pub fn cancelled_entry(&self) -> (e: HistoryEntry)
        ensures
            e.id@.len() == 36,
            e.timestamp@.len() > 0,
            e.action_type@ == "COPY_CANCELLED"@,
            e.description@ == "Cancelled copying "@ + self.folder_name@,
            e.folder_name@ == self.folder_name@ + " (Cancelled)"@,
            e.source_path == self.source_path,
            e.target_path == self.target_path,
            e.copied_files_count == self.done_files@.len(),
            e.total_size == self.copied_bytes,
            e.files@ == self.done_files@,
    {
        HistoryEntry {
            id: crate::ids::fresh_id(),
            timestamp: crate::clock::now_rfc3339(),
            action_type: String::from_str("COPY_CANCELLED"),
            description: String::from_str("Cancelled copying ").concat(self.folder_name.as_str()),
            folder_name: self.folder_name.clone().concat(" (Cancelled)"),
            source_path: self.source_path.clone(),
            target_path: self.target_path.clone(),
            copied_files_count: self.done_files.len(),
            total_size: self.copied_bytes,
            files: copy_names(&self.done_files),
        }
    }
}

} // verus!
