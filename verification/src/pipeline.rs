//! Orchestration of one scan cycle: the task list, the guard that admits
//! one cycle at a time, the control flags, the clock-checked gate, and
//! the aggregate result.

use vstd::prelude::*;
use crate::calendar::Date;
use crate::config::AppConfig;
use crate::pattern::fmt_date;

verus! {

/// The rule a task matches directory entries with: an exact version tag
/// among version-stamped names, or a direct lookup of the current date
/// rendered under a pattern.
#[derive(Debug)]
pub enum TaskRule {
    VersionMatch(String),
    DateMatch(String),
}

/// One configured unit of a scan cycle: a source to scan, a rule, and an
/// optional destination override.
#[derive(Debug)]
pub struct Task {
    pub name: String,
    pub enabled: bool,
    pub source: String,
    pub destination: Option<String>,
    pub rule: TaskRule,
}

/// The task list of a configuration snapshot: one version-match task per
/// (remote path, target version) pair, remote paths outermost, each
/// enabled, named after its version, without destination override.
pub fn tasks_of_config(config: &AppConfig) -> (r: Vec<Task>)
    ensures
        r@.len() == config.remote_paths@.len() * config.target_versions@.len(),
        forall|i: int, j: int|
            0 <= i < config.remote_paths@.len() && 0 <= j < config.target_versions@.len()
                ==> {
                let t = #[trigger] r@[i * config.target_versions@.len() + j];
                &&& t.enabled
                &&& t.source@ == config.remote_paths@[i]@
                &&& t.destination is None
                &&& t.rule matches TaskRule::VersionMatch(v) && v@ == config.target_versions@[j]@
                &&& t.name@ == config.target_versions@[j]@
            },
{
    let np = config.remote_paths.len();
    let nv = config.target_versions.len();
    let mut r: Vec<Task> = Vec::new();
    let mut i: usize = 0;
    while i < np
        invariant
            i <= np,
            np == config.remote_paths@.len(),
            nv == config.target_versions@.len(),
            r@.len() == i * nv,
            forall|a: int, b: int|
                0 <= a < i && 0 <= b < nv ==> {
                    let t = #[trigger] r@[a * nv + b];
                    &&& t.enabled
                    &&& t.source@ == config.remote_paths@[a]@
                    &&& t.destination is None
                    &&& t.rule matches TaskRule::VersionMatch(v) && v@
                        == config.target_versions@[b]@
                    &&& t.name@ == config.target_versions@[b]@
                },
        decreases np - i,
    {
        let mut j: usize = 0;
        proof {
            assert(i * nv + 0 == r@.len());
        }
        while j < nv
            invariant
                j <= nv,
                i < np,
                np == config.remote_paths@.len(),
                nv == config.target_versions@.len(),
                r@.len() == i * nv + j,
                forall|a: int, b: int|
                    0 <= a < i && 0 <= b < nv ==> {
                        let t = #[trigger] r@[a * nv + b];
                        &&& t.enabled
                        &&& t.source@ == config.remote_paths@[a]@
                        &&& t.destination is None
                        &&& t.rule matches TaskRule::VersionMatch(v) && v@
                            == config.target_versions@[b]@
                        &&& t.name@ == config.target_versions@[b]@
                    },
                forall|b: int|
                    0 <= b < j ==> {
                        let t = #[trigger] r@[i * nv + b];
                        &&& t.enabled
                        &&& t.source@ == config.remote_paths@[i as int]@
                        &&& t.destination is None
                        &&& t.rule matches TaskRule::VersionMatch(v) && v@
                            == config.target_versions@[b]@
                        &&& t.name@ == config.target_versions@[b]@
                    },
            decreases nv - j,
        {
            let version = config.target_versions[j].clone();
            let task = Task {
                name: config.target_versions[j].clone(),
                enabled: true,
                source: config.remote_paths[i].clone(),
                destination: Option::None,
                rule: TaskRule::VersionMatch(version),
            };
            let ghost prev = r@;
            r.push(task);
            proof {
                assert forall|a: int, b: int| 0 <= a < i && 0 <= b < nv implies {
                    let t = #[trigger] r@[a * nv + b];
                    &&& t.enabled
                    &&& t.source@ == config.remote_paths@[a]@
                    &&& t.destination is None
                    &&& t.rule matches TaskRule::VersionMatch(v) && v@
                        == config.target_versions@[b]@
                    &&& t.name@ == config.target_versions@[b]@
                } by {
                    assert(a * nv + b < i * nv) by (nonlinear_arith)
                        requires
                            0 <= a < i,
                            0 <= b < nv,
                    ;
                    assert(r@[a * nv + b] == prev[a * nv + b]);
                }
            }
            j += 1;
        }
        proof {
            assert((i + 1) * nv == i * nv + nv) by (nonlinear_arith);
            assert forall|a: int, b: int| 0 <= a < i + 1 && 0 <= b < nv implies {
                let t = #[trigger] r@[a * nv + b];
                &&& t.enabled
                &&& t.source@ == config.remote_paths@[a]@
                &&& t.destination is None
                &&& t.rule matches TaskRule::VersionMatch(v) && v@ == config.target_versions@[b]@
                &&& t.name@ == config.target_versions@[b]@
            } by {
                if a < i {
                    assert(0 <= a * nv + b < i * nv) by (nonlinear_arith)
                        requires
                            0 <= a < i,
                            0 <= b < nv,
                    ;
                }
            }
        }
        i += 1;
    }
    r
}

/// What the driver must do for a task: scan and select over a directory
/// listing, or look up one exact date-stamped name.
#[derive(Debug)]
pub enum TaskProbe {
    /// List the source directory and select among version candidates.
    Listing,
    /// Check the source directory for this exact entry name.
    Exact(String),
}

/// The probe of a task at date `today`: version rules scan listings,
/// date rules look up the rendered date directly.
pub fn task_probe(task: &Task, today: Date) -> (r: TaskProbe)
    requires
        today.year >= 0,
    ensures
        match task.rule {
            TaskRule::VersionMatch(_) => r is Listing,
            TaskRule::DateMatch(p) => r matches TaskProbe::Exact(nm) && nm@ == fmt_date(
                p@,
                today,
            ),
        },
{
    match &task.rule {
        TaskRule::VersionMatch(_) => TaskProbe::Listing,
        TaskRule::DateMatch(p) => TaskProbe::Exact(
            crate::pattern::format_date(p.as_str(), today),
        ),
    }
}

/// The destination root a task copies into: its own override when it has
/// one, the configured local path otherwise.
pub fn task_destination(task: &Task, config: &AppConfig) -> (r: String)
    ensures
        match task.destination {
            Option::Some(d) => r@ == d@,
            Option::None => r@ == config.local_path@,
        },
{
    match &task.destination {
        Option::Some(d) => d.clone(),
        Option::None => config.local_path.clone(),
    }
}

/// The aggregate result of one scan cycle.
#[derive(Debug)]
pub struct ScanResult {
    pub scanned_paths: usize,
    pub found_folders: Vec<String>,
    pub copied_folders: Vec<String>,
    pub errors: Vec<String>,
}

impl ScanResult {
    /// An empty result.
    pub fn new() -> (r: ScanResult)
        ensures
            r.scanned_paths == 0,
            r.found_folders@.len() == 0,
            r.copied_folders@.len() == 0,
            r.errors@.len() == 0,
    {
        ScanResult {
            scanned_paths: 0,
            found_folders: Vec::new(),
            copied_folders: Vec::new(),
            errors: Vec::new(),
        }
    }

    /// One more source path was scanned.
    pub fn record_scan(&mut self)
        requires
            old(self).scanned_paths < usize::MAX,
        ensures
            final(self).scanned_paths == old(self).scanned_paths + 1,
            final(self).found_folders == old(self).found_folders,
            final(self).copied_folders == old(self).copied_folders,
            final(self).errors == old(self).errors,
    {
        self.scanned_paths = self.scanned_paths + 1;
    }

    /// An eligible candidate was found.
    pub fn record_found(&mut self, name: String)
        ensures
            final(self).found_folders@ == old(self).found_folders@ + seq![name],
            final(self).scanned_paths == old(self).scanned_paths,
            final(self).copied_folders == old(self).copied_folders,
            final(self).errors == old(self).errors,
    {
        self.found_folders.push(name);
    }

    /// A candidate was copied whole.
    pub fn record_copied(&mut self, name: String)
        ensures
            final(self).copied_folders@ == old(self).copied_folders@ + seq![name],
            final(self).scanned_paths == old(self).scanned_paths,
            final(self).found_folders == old(self).found_folders,
            final(self).errors == old(self).errors,
    {
        self.copied_folders.push(name);
    }

    /// A task-scoped error was recorded; the cycle continues.
    pub fn record_error(&mut self, message: String)
        ensures
            final(self).errors@ == old(self).errors@ + seq![message],
            final(self).scanned_paths == old(self).scanned_paths,
            final(self).found_folders == old(self).found_folders,
            final(self).copied_folders == old(self).copied_folders,
    {
        self.errors.push(message);
    }
}

/// Whether a trigger may start a cycle.
#[derive(Clone, Copy, Debug, PartialEq, Eq, Structural)]
pub enum StartDecision {
    /// No cycle is active: this trigger takes the run.
    Proceed,
    /// A cycle is active: the trigger fails fast, it is never queued.
    RejectedBusy,
}

/// Exactly one cycle may run at a time: a trigger proceeds when none is
/// active and is rejected when one is.
pub fn start_decision(busy: bool) -> (r: StartDecision)
    ensures
        busy <==> r is RejectedBusy,
        !busy <==> r is Proceed,
{
    if busy {
        StartDecision::RejectedBusy
    } else {
        StartDecision::Proceed
    }
}

/// The level-triggered control flags of one run, as the control surface
/// mutates them and the cooperative checkpoints read them.
#[derive(Clone, Copy, Debug, PartialEq, Eq, Structural)]
pub struct ControlState {
    pub cancel: bool,
    pub paused: bool,
}

impl ControlState {
    /// A fresh run: nothing cancelled, nothing paused.
    pub fn fresh() -> (r: ControlState)
        ensures
            !r.cancel,
            !r.paused,
    {
        ControlState { cancel: false, paused: false }
    }

    /// Request cancellation: the cancel flag rises and the pause flag is
    /// lifted, so a paused loop wakes and exits instead of staying
    /// blocked.
    pub fn request_cancel(&mut self)
        ensures
            final(self).cancel,
            !final(self).paused,
    {
        self.cancel = true;
        self.paused = false;
    }

    /// Request a pause; cancellation is untouched.
    pub fn request_pause(&mut self)
        ensures
            final(self).paused,
            final(self).cancel == old(self).cancel,
    {
        self.paused = true;
    }

    /// Lift a pause; cancellation is untouched.
    pub fn request_resume(&mut self)
        ensures
            !final(self).paused,
            final(self).cancel == old(self).cancel,
    {
        self.paused = false;
    }
}

/// Evaluate the time-window gate against the wall clock: with no ranges
/// configured the cycle always proceeds, and otherwise the verdict is the
/// gate's on the second of day the clock read.
pub fn evaluate_gate(ranges: &Vec<String>) -> (r: bool)
    ensures
        ranges@.len() == 0 ==> r,
        exists|t: u32|
            t <= 86399 && r == crate::gate::cycle_admitted(#[trigger] ranges.deep_view(), t),
{
    let m = crate::clock::cycle_moment();
    let r = crate::gate::cycle_gate(ranges, m.second_of_day);
    proof {
        let t = m.second_of_day;
        assert(t <= 86399 && r == crate::gate::cycle_admitted(ranges.deep_view(), t));
    }
    r
}

} // verus!
