//! The deployment fan-out: strictly sequential targets, per-target
//! isolation of failures, the remote destination path, and `${filename}`
//! substitution in post-transfer commands.

use vstd::prelude::*;
use crate::config::DeployServer;
use crate::text::{
    ends_with, ends_with_str, strip_all, strip_all_str, strip_seps, strip_seps_str, is_sep,
    has_sub, has_sub_str, replace_all, replace_all_str, concat3,
};

verus! {

/// The replacement for the `${filename}` token: the first listed file
/// ending in `.tar.gz`, with every trailing `.tar.gz` removed; without
/// such a file, the artifact name itself.
pub open spec fn spec_resolve(listing: Seq<Seq<char>>, folder: Seq<char>) -> Seq<char>
    decreases listing.len(),
{
    if listing.len() == 0 {
        folder
    } else if ends_with(listing[0], ".tar.gz"@) {
        strip_all(listing[0], ".tar.gz"@)
    } else {
        spec_resolve(listing.skip(1), folder)
    }
}

/// Resolve the `${filename}` token against the files of the uploaded
/// tree, in listing order, as `spec_resolve` describes.
pub fn resolve_filename_token(listing: &Vec<String>, folder: &str) -> (r: String)
    ensures
        r@ == spec_resolve(listing.deep_view(), folder@),
{
    let n = listing.len();
    let mut i: usize = 0;
    proof {
        assert(listing.deep_view().skip(0) =~= listing.deep_view());
    }
    while i < n
        invariant
            i <= n,
            n == listing@.len(),
            spec_resolve(listing.deep_view().skip(i as int), folder@) == spec_resolve(
                listing.deep_view(),
                folder@,
            ),
        decreases n - i,
    {
        let ghost dv = listing.deep_view();
        let ghost tail = dv.skip(i as int);
        proof {
            assert(tail[0] == dv[i as int]);
            assert(tail.skip(1) =~= dv.skip(i + 1));
        }
        if ends_with_str(listing[i].as_str(), ".tar.gz") {
            proof {
                reveal_strlit(".tar.gz");
            }
            let stripped = strip_all_str(listing[i].as_str(), ".tar.gz");
            return stripped.to_owned();
        }
        i += 1;
    }
    proof {
        assert(listing.deep_view().skip(n as int) =~= Seq::<Seq<char>>::empty());
    }
    folder.to_owned()
}

/// The literal token that command substitution recognizes.
pub fn filename_token() -> (r: &'static str)
    ensures
        r@ == "${filename}"@,
        r@.len() > 0,
{
    proof {
        reveal_strlit("${filename}");
    }
    "${filename}"
}

/// One command with every `${filename}` replaced by the resolved name.
pub fn substitute_command(cmd: &str, listing: &Vec<String>, folder: &str) -> (r: String)
    ensures
        r@ == replace_all(
            cmd@,
            "${filename}"@,
            spec_resolve(listing.deep_view(), folder@),
        ),
{
    let rep = resolve_filename_token(listing, folder);
    let token = filename_token();
    replace_all_str(cmd, token, rep.as_str())
}

/// Every post-transfer command with its `${filename}` tokens resolved, in
/// configured order.
pub fn substitute_commands(cmds: &Vec<String>, listing: &Vec<String>, folder: &str) -> (r: Vec<
    String,
>)
    ensures
        r@.len() == cmds@.len(),
        forall|i: int|
            0 <= i < cmds@.len() ==> r@[i]@ == replace_all(
                cmds@[i]@,
                "${filename}"@,
                spec_resolve(listing.deep_view(), folder@),
            ),
{
    let n = cmds.len();
    let mut out: Vec<String> = Vec::new();
    let mut i: usize = 0;
    while i < n
        invariant
            i <= n,
            n == cmds@.len(),
            out@.len() == i,
            forall|q: int|
                0 <= q < i ==> out@[q]@ == replace_all(
                    cmds@[q]@,
                    "${filename}"@,
                    spec_resolve(listing.deep_view(), folder@),
                ),
        decreases n - i,
    {
        let c = substitute_command(cmds[i].as_str(), listing, folder);
        out.push(c);
        i += 1;
    }
    out
}

/// Remote destination directory of a deployment: the target's base path
/// without trailing slashes, one slash, the artifact name. An existing
/// remote directory is uploaded into anyway — deployments overwrite,
/// unlike the local copy's skip.
pub fn remote_target_dir(base: &str, folder: &str) -> (r: String)
    ensures
        r@ == strip_all(base@, "/"@) + "/"@ + folder@,
{
    proof {
        reveal_strlit("/");
    }
    let b = strip_all_str(base, "/");
    concat3(b, "/", folder)
}

/// What a deployment does at the remote destination.
#[derive(Clone, Copy, Debug, PartialEq, Eq, Structural)]
pub enum RemoteDirStep {
    /// The directory already exists: upload into it, overwriting.
    UploadInto,
    /// The directory is missing: create it recursively, then upload.
    CreateThenUpload,
}

/// Decide the remote-directory step: the upload always proceeds, and only
/// the creation depends on existence.
pub fn remote_dir_step(remote_exists: bool) -> (r: RemoteDirStep)
    ensures
        remote_exists ==> r is UploadInto,
        !remote_exists ==> r is CreateThenUpload,
{
    if remote_exists {
        RemoteDirStep::UploadInto
    } else {
        RemoteDirStep::CreateThenUpload
    }
}

/// Destination path of a manual deployment: a remote path ending in a
/// separator has the local artifact's name appended after its trailing
/// separators are folded, and every backslash becomes a slash.
pub open spec fn spec_manual_target(remote: Seq<char>, name: Seq<char>) -> Seq<char> {
    let joined = if remote.len() > 0 && is_sep(remote[remote.len() - 1]) {
        let base = strip_seps(remote);
        if has_sub(remote, seq!['\\']) {
            base + seq!['\\', '/'] + name
        } else {
            base + seq!['/'] + name
        }
    } else {
        remote
    };
    replace_all(joined, seq!['\\'], seq!['/'])
}

/// Destination path of a manual deployment, as `spec_manual_target`
/// describes.
pub fn manual_target_path(remote: &str, name: &str) -> (r: String)
    ensures
        r@ == spec_manual_target(remote@, name@),
{
    proof {
        reveal_strlit("\\");
        reveal_strlit("/");
        reveal_strlit("\\/");
        assert("\\"@ =~= seq!['\\']);
        assert("/"@ =~= seq!['/']);
        assert("\\/"@ =~= seq!['\\', '/']);
    }
    let n = crate::text::char_len(remote);
    let joined: String = if n > 0 {
        let last = remote.get_char(n - 1);
        if last == '/' || last == '\\' {
            let base = strip_seps_str(remote);
            if has_sub_str(remote, "\\") {
                concat3(base, "\\/", name)
            } else {
                concat3(base, "/", name)
            }
        } else {
            remote.to_owned()
        }
    } else {
        remote.to_owned()
    };
    let out = replace_all_str(joined.as_str(), "\\", "/");
    out
}

/// The reported outcome of one target's deployment, success or failure
/// alike.
#[derive(Clone, Debug)]
pub struct DeployReport {
    pub target_index: usize,
    pub target_name: String,
    pub success: bool,
    pub detail: String,
    pub elapsed_seconds: u64,
    pub bytes_copied: u64,
}

/// Index of the first enabled target at or after `from`.
pub open spec fn spec_next_enabled(servers: Seq<DeployServer>, from: int) -> Option<int>
    decreases servers.len() - from when 0 <= from <= servers.len()
{
    if from >= servers.len() {
        Option::None
    } else if servers[from].enabled {
        Option::Some(from)
    } else {
        spec_next_enabled(servers, from + 1)
    }
}

/// `spec_next_enabled` skips exactly the disabled targets.
pub proof fn lemma_next_enabled(servers: Seq<DeployServer>, from: int)
    requires
        0 <= from <= servers.len(),
    ensures
        match spec_next_enabled(servers, from) {
            Option::Some(i) => from <= i < servers.len() && servers[i].enabled && forall|j: int|
                from <= j < i ==> !servers[j].enabled,
            Option::None => forall|j: int| from <= j < servers.len() ==> !servers[j].enabled,
        },
    decreases servers.len() - from,
{
    if from < servers.len() && !servers[from].enabled {
        lemma_next_enabled(servers, from + 1);
    }
}

/// One artifact's fan-out across the configured targets: strictly
/// sequential, one report per attempted target, disabled targets skipped.
#[derive(Debug)]
pub struct FanoutRun {
    /// The configured targets, in order.
    pub servers: Vec<DeployServer>,
    /// Index past the last target handled.
    pub pos: usize,
    /// One report per attempted target, in attempt order.
    pub reports: Vec<DeployReport>,
}

impl FanoutRun {
    /// The reports name exactly the enabled targets already passed, in
    /// order.
    pub open spec fn wf(self) -> bool {
        &&& self.pos <= self.servers@.len()
        &&& forall|j: int|
            0 <= j < self.reports@.len() ==> #[trigger] self.reports@[j].target_index < self.pos
                && self.servers@[self.reports@[j].target_index as int].enabled
        &&& forall|j: int, k: int|
            0 <= j < k < self.reports@.len() ==> self.reports@[j].target_index
                < self.reports@[k].target_index
        &&& forall|t: int|
            0 <= t < self.pos && self.servers@[t].enabled ==> exists|j: int|
                0 <= j < self.reports@.len() && #[trigger] self.reports@[j].target_index == t
    }

    /// Start a fan-out over `servers`.
    pub fn begin(servers: Vec<DeployServer>) -> (r: FanoutRun)
        ensures
            r.wf(),
            r.servers == servers,
            r.pos == 0,
            r.reports@.len() == 0,
    {
        FanoutRun { servers, pos: 0, reports: Vec::new() }
    }

    /// The next target to attempt: nothing once cancelled — cancellation
    /// aborts targets not yet started — and otherwise the first enabled
    /// target not yet handled.
    pub fn next_target(&self, cancel: bool) -> (r: Option<usize>)
        requires
            self.wf(),
        ensures
            cancel ==> r is None,
            !cancel ==> match r {
                Option::Some(i) => spec_next_enabled(self.servers@, self.pos as int)
                    == Option::Some(i as int),
                Option::None => spec_next_enabled(self.servers@, self.pos as int) is None,
            },
    {
        if cancel {
            return Option::None;
        }
        let n = self.servers.len();
        let mut i: usize = self.pos;
        while i < n
            invariant
                !cancel,
                self.pos <= i <= n,
                n == self.servers@.len(),
                spec_next_enabled(self.servers@, i as int) == spec_next_enabled(
                    self.servers@,
                    self.pos as int,
                ),
            decreases n - i,
        {
            if self.servers[i].enabled {
                return Option::Some(i);
            }
            i += 1;
        }
        Option::None
    }

    /// Record the attempted target's report, success or failure alike:
    /// the run advances past the target either way, so one target's
    /// failure never withholds the targets after it.
    pub fn record(&mut self, report: DeployReport)
        requires
            old(self).wf(),
            spec_next_enabled(old(self).servers@, old(self).pos as int) == Option::Some(
                report.target_index as int,
            ),
        ensures
            final(self).wf(),
            final(self).servers == old(self).servers,
            final(self).pos == report.target_index + 1,
            final(self).reports@ == old(self).reports@ + seq![report],
    {
        proof {
            lemma_next_enabled(self.servers@, self.pos as int);
        }
        let n = self.servers.len();
        let idx = report.target_index;
        self.reports.push(report);
        self.pos = idx + 1;
        proof {
            let srv = self.servers@;
            let reps = self.reports@;
            assert forall|t: int| 0 <= t < self.pos && srv[t].enabled implies exists|j: int|
                0 <= j < reps.len() && #[trigger] reps[j].target_index == t by {
                if t < old(self).pos {
                    let j = choose|j: int|
                        0 <= j < old(self).reports@.len() && #[trigger] old(
                            self,
                        ).reports@[j].target_index == t;
                    assert(reps[j].target_index == t);
                } else if t == idx {
                    assert(reps[reps.len() - 1].target_index == t);
                }
            }
        }
    }
}

/// Isolation of target failures: once a fan-out has been driven until no
/// target remains, every enabled target has a report — whatever any
/// report said, an earlier failure never prevented a later attempt.
pub proof fn lemma_fanout_complete(run: FanoutRun)
    requires
        run.wf(),
        spec_next_enabled(run.servers@, run.pos as int) is None,
    ensures
        forall|t: int|
            0 <= t < run.servers@.len() && run.servers@[t].enabled ==> exists|j: int|
                0 <= j < run.reports@.len() && #[trigger] run.reports@[j].target_index == t,
{
    lemma_next_enabled(run.servers@, run.pos as int);
}

} // verus!
