//! The per-application lifecycle store and versioned rollback layout.
//!
//! Each deployed application owns one directory holding the extracted
//! trees, a `current` pointer at the active tree, a `versions/<timestamp>`
//! directory per superseded deployment, and a durable state record.  This
//! module models that layout and the operations over it: archiving the
//! previous tree on deploy, rolling back to the latest archived version,
//! and the start/stop/restart transitions over the state record.  The
//! unverified shell mirrors the model onto the filesystem (symlink swaps,
//! directory renames, record save/load).

use crate::strutil::{concat_str, spec_dec_digits, str_eq, u64_to_string};
use vstd::prelude::*;
use vstd::string::StringExecFns;

verus! {

broadcast use vstd::string::group_string_axioms;

/// The durable record of one deployed application.
#[derive(Clone, Debug, PartialEq)]
pub struct AppState {
    pub name: String,
    pub version: String,
    /// One of `running`, `stopped`, `failed`.
    pub status: String,
    pub pid: Option<u32>,
    pub port: Option<u16>,
    pub health_url: Option<String>,
    pub isolation: Option<String>,
}

/// A lifecycle operation failed.
#[derive(Clone, Copy, PartialEq, Eq, Structural, Debug)]
pub enum LifecycleError {
    /// The action was none of `start`, `stop`, `restart`.
    UnknownAction,
}

/// Applies one lifecycle action to an application's state record and
/// returns the process id to signal, if any.  `start` is a no-op on a
/// running application and otherwise marks it running; `stop` signals the
/// recorded process and marks the application stopped; `restart` signals
/// the recorded process and marks it running.  Any other action is
/// rejected and the record is left untouched.
pub fn manage_process(action: &str, state: &mut AppState) -> (r: Result<
    Option<u32>,
    LifecycleError,
>)
    ensures
        match r {
            Ok(kill) => {
                &&& (action@ == "start"@ || action@ == "stop"@ || action@ == "restart"@)
                &&& (action@ == "start"@ ==> kill is None && (if old(state).status@ == "running"@ {
                    *final(state) == *old(state)
                } else {
                    final(state).status@ == "running"@
                }))
                &&& (action@ == "stop"@ ==> kill == old(state).pid && final(state).status@
                    == "stopped"@)
                &&& (action@ == "restart"@ ==> kill == old(state).pid && final(state).status@
                    == "running"@)
                &&& final(state).name == old(state).name
                &&& final(state).version == old(state).version
                &&& final(state).pid == old(state).pid
                &&& final(state).port == old(state).port
                &&& final(state).health_url == old(state).health_url
                &&& final(state).isolation == old(state).isolation
            },
            Err(LifecycleError::UnknownAction) => {
                &&& action@ != "start"@ && action@ != "stop"@ && action@ != "restart"@
                &&& *final(state) == *old(state)
            },
        },
{
    proof {
        reveal_strlit("start");
        reveal_strlit("stop");
        reveal_strlit("restart");
        assert("start"@.len() == 5);
        assert("stop"@.len() == 4);
        assert("restart"@.len() == 7);
    }
    if str_eq(action, "start") {
        if !str_eq(state.status.as_str(), "running") {
            state.status = String::from_str("running");
        }
        Ok(None)
    } else if str_eq(action, "stop") {
        state.status = String::from_str("stopped");
        Ok(state.pid)
    } else if str_eq(action, "restart") {
        state.status = String::from_str("running");
        Ok(state.pid)
    } else {
        Err(LifecycleError::UnknownAction)
    }
}

/// The version history of one application directory: the active tree and
/// the archived trees, each under the timestamp of the deploy that
/// superseded it.  Timestamp directory names are decimal seconds, so their
/// lexicographic order is their chronological order.
pub struct VersionStore {
    /// The tree the `current` pointer names, if any deploy succeeded yet.
    pub current: Option<String>,
    /// Archived trees, oldest first, each under its timestamp.
    pub versions: Vec<(u64, String)>,
}

/// Rollback failed.
#[derive(Clone, Copy, PartialEq, Eq, Structural, Debug)]
pub enum RollbackError {
    /// No archived version exists to roll back to.
    NoVersions,
}

/// The mathematical model of a version history: the current tree and the
/// sequence of archived (timestamp, tree) entries, oldest first.
#[verifier::ext_equal]
pub struct VersionHistory {
    pub current: Option<String>,
    pub versions: Seq<(u64, String)>,
}

/// What one successful deploy does to the version history: the previous
/// tree, if any, is archived under the deploy's timestamp, and the new
/// tree becomes current.
pub open spec fn spec_record_deploy(s: VersionHistory, ts: u64, tree: String) -> VersionHistory {
    match s.current {
        Some(prev) => VersionHistory { current: Some(tree), versions: s.versions.push((ts, prev)) },
        None => VersionHistory { current: Some(tree), versions: s.versions },
    }
}

impl VersionStore {
    /// The history this store holds.
    pub open spec fn model(self) -> VersionHistory {
        VersionHistory { current: self.current, versions: self.versions@ }
    }

    /// Timestamps strictly increase along the archive, so the last entry
    /// is the chronologically (and lexicographically) greatest.
    pub open spec fn wf(self) -> bool {
        forall|i: int, j: int|
            0 <= i < j < self.versions@.len() ==> self.versions@[i].0 < self.versions@[j].0
    }

    /// A directory with no deploy yet: nothing current, nothing archived.
    pub fn new() -> (r: VersionStore)
        ensures
            r.current is None,
            r.versions@ == Seq::<(u64, String)>::empty(),
            r.wf(),
    {
        VersionStore { current: None, versions: Vec::new() }
    }

    /// Records one successful deploy at time `ts`: archives the previous
    /// current tree, if any, under `ts`, and makes `tree` current.  The
    /// archive grows by one entry exactly when a previous tree existed.
    pub fn record_deploy(&mut self, ts: u64, tree: String)
        requires
            old(self).wf(),
            forall|i: int| 0 <= i < old(self).versions@.len() ==> old(self).versions@[i].0 < ts,
        ensures
            final(self).model() =~= spec_record_deploy(old(self).model(), ts, tree),
            final(self).wf(),
            final(self).current == Some(tree),
            final(self).versions@.len() == old(self).versions@.len() + (if old(self).current
                is Some {
                1int
            } else {
                0int
            }),
    {
        let prev = self.current.take();
        if let Some(prev_tree) = prev {
            self.versions.push((ts, prev_tree));
        }
        self.current = Some(tree);
    }

    /// Rolls back to the most recent archived version: `current` comes to
    /// name the tree of the greatest timestamp, and the archive itself is
    /// left as it was.  Fails exactly when nothing is archived, leaving the
    /// history untouched.
    pub fn rollback(&mut self) -> (r: Result<String, RollbackError>)
        requires
            old(self).wf(),
        ensures
            final(self).wf(),
            final(self).versions@ == old(self).versions@,
            match r {
                Ok(tree) => {
                    &&& old(self).versions@.len() > 0
                    &&& tree == old(self).versions@.last().1
                    &&& final(self).current == Some(tree)
                    &&& forall|i: int|
                        0 <= i < old(self).versions@.len() ==> old(self).versions@[i].0 <= old(
                            self,
                        ).versions@.last().0
                },
                Err(RollbackError::NoVersions) => {
                    &&& old(self).versions@.len() == 0
                    &&& *final(self) == *old(self)
                },
            },
    {
        if self.versions.len() == 0 {
            return Err(RollbackError::NoVersions);
        }
        let last = self.versions.len() - 1;
        let tree = self.versions[last].1.clone();
        self.current = Some(tree.clone());
        Ok(tree)
    }
}

/// The version history that a run of deploys leaves behind, starting from
/// an empty directory.
pub open spec fn spec_deploy_history(deploys: Seq<(u64, String)>) -> VersionHistory
    decreases deploys.len(),
{
    if deploys.len() == 0 {
        VersionHistory { current: None, versions: Seq::empty() }
    } else {
        spec_record_deploy(
            spec_deploy_history(deploys.drop_last()),
            deploys.last().0,
            deploys.last().1,
        )
    }
}

/// Version rollback invariant, first half: after `K` successful deploys of
/// one application, exactly `K - 1` trees are archived and `current` names
/// the `K`th tree.  (Rollback's own contract gives the second half: the
/// tree rolled back to is the archived one of greatest timestamp.)
pub proof fn lemma_version_history(deploys: Seq<(u64, String)>)
    requires
        deploys.len() >= 1,
    ensures
        spec_deploy_history(deploys).versions.len() == deploys.len() - 1,
        spec_deploy_history(deploys).current == Some(deploys.last().1),
    decreases deploys.len(),
{
    if deploys.len() == 1 {
        assert(spec_deploy_history(deploys.drop_last()).current is None);
    } else {
        lemma_version_history(deploys.drop_last());
    }
}

/// The archived trees are exactly the superseded deploys, in order: after
/// the deploys `d_1 .. d_K`, entry `i` of the archive carries the tree of
/// `d_{i+1}` under the timestamp of `d_{i+2}` that superseded it.
pub proof fn lemma_version_history_entries(deploys: Seq<(u64, String)>, i: int)
    requires
        0 <= i < deploys.len() - 1,
    ensures
        spec_deploy_history(deploys).versions[i] == (deploys[i + 1].0, deploys[i].1),
    decreases deploys.len(),
{
    if deploys.len() >= 2 {
        lemma_version_history(deploys.drop_last());
        if i < deploys.len() - 2 {
            lemma_version_history_entries(deploys.drop_last(), i);
        }
    }
}

/// The application directory for a repository under the applications root:
/// `{apps_root}/{repo with / replaced by _}`.
pub open spec fn spec_app_dir(apps_root: Seq<char>, repo: Seq<char>) -> Seq<char> {
    apps_root + "/"@ + crate::strutil::spec_slash_to_underscore(repo)
}

/// Computes the application directory for a repository.
pub fn app_dir_for(apps_root: &str, repo: &str) -> (r: String)
    ensures
        r@ == spec_app_dir(apps_root@, repo@),
{
    let mut out = concat_str(apps_root, "/");
    let name = crate::strutil::slash_to_underscore(repo);
    out.append(name.as_str());
    out
}

/// The path of the `current` pointer inside an application directory.
pub fn current_link_path(app_dir: &str) -> (r: String)
    ensures
        r@ == app_dir@ + "/current"@,
{
    concat_str(app_dir, "/current")
}

/// The archive directory for the tree superseded at time `ts`:
/// `{app_dir}/versions/{ts}`.
pub fn version_dir_path(app_dir: &str, ts: u64) -> (r: String)
    ensures
        r@ == app_dir@ + "/versions/"@ + spec_dec_digits(ts as nat),
{
    let mut out = concat_str(app_dir, "/versions/");
    let digits = u64_to_string(ts);
    out.append(digits.as_str());
    out
}

/// The path the downloaded archive is written to before extraction:
/// `{app_dir}/{name}.tar.gz`.
pub fn archive_path(app_dir: &str, app_name: &str) -> (r: String)
    ensures
        r@ == app_dir@ + "/"@ + app_name@ + ".tar.gz"@,
{
    let mut out = concat_str(app_dir, "/");
    out.append(app_name);
    out.append(".tar.gz");
    out
}

/// The path of the durable state record: `{app_dir}/state.toml`.
pub fn state_record_path(app_dir: &str) -> (r: String)
    ensures
        r@ == app_dir@ + "/state.toml"@,
{
    concat_str(app_dir, "/state.toml")
}

} // verus!
