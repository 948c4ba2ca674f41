//! Repository decisions: status changes, job listings with live asset counts,
//! job lookup and settings validation.

use vstd::prelude::*;
use crate::models::{JobAsset, JobDetails, JobRow, JobSummary, SettingsPayload};
use crate::status::{can_transition, names_allowed};
use crate::text::{owned, push_str, same_text, string_of, trim, trimmed};

verus! {

/// Why the repository refused a change.
#[derive(Debug, Clone)]
pub enum RepoError {
    InvalidTransition { from: String, to: String },
    InvalidWriteMode,
}

impl RepoError {
    pub open spec fn spec_message(&self) -> Seq<char> {
        match self {
            RepoError::InvalidTransition { from, to } => "invalid status transition: "@ + from@
                + " -> "@ + to@,
            RepoError::InvalidWriteMode => "write_mode must be cli_only, filesystem_only, or cli_fallback"@,
        }
    }

    /// A readable description; a refused transition names both states.
    pub fn message(&self) -> (r: String)
        ensures
            r@ == self.spec_message(),
    {
        match self {
            RepoError::InvalidTransition { from, to } => {
                let mut s = owned("invalid status transition: ");
                push_str(&mut s, from.as_str());
                push_str(&mut s, " -> ");
                push_str(&mut s, to.as_str());
                s
            },
            RepoError::InvalidWriteMode => owned(
                "write_mode must be cli_only, filesystem_only, or cli_fallback",
            ),
        }
    }
}

/// What to do with a requested status change.
#[derive(Debug, Clone, Copy, PartialEq, Eq, Structural)]
pub enum StatusUpdate {
    /// No job has the id: an absence, not a failure.
    NotFound,
    /// The move is in the table: write the new status and time together.
    Apply,
}

/// Decides every status change. `current_status` is the stored status of
/// the job, or `None` when no job has the id. A move outside the transition
/// table is refused with both states named, and nothing is to be written.
pub fn plan_status_update(current_status: Option<&str>, next_status: &str) -> (r: Result<
    StatusUpdate,
    RepoError,
>)
    ensures
        current_status is None ==> r == Ok::<StatusUpdate, RepoError>(StatusUpdate::NotFound),
        current_status matches Some(c) ==> {
            &&& names_allowed(c@, next_status@) ==> r == Ok::<StatusUpdate, RepoError>(
                StatusUpdate::Apply,
            )
            &&& !names_allowed(c@, next_status@) ==> (r matches Err(
                RepoError::InvalidTransition { from, to },
            ) && from@ == c@ && to@ == next_status@)
        },
{
    match current_status {
        None => Ok(StatusUpdate::NotFound),
        Some(c) => {
            if can_transition(c, next_status) {
                Ok(StatusUpdate::Apply)
            } else {
                Err(RepoError::InvalidTransition { from: owned(c), to: owned(next_status) })
            }
        },
    }
}

/// The number of asset rows that reference a job.
pub open spec fn asset_count(assets: Seq<JobAsset>, job_id: Seq<char>) -> nat
    decreases assets.len(),
{
    if assets.len() == 0 {
        0
    } else {
        asset_count(assets.drop_last(), job_id) + if assets.last().job_id@ == job_id {
            1nat
        } else {
            0nat
        }
    }
}

/// The asset rows that reference a job, in table order.
pub open spec fn assets_of(assets: Seq<JobAsset>, job_id: Seq<char>) -> Seq<JobAsset>
    decreases assets.len(),
{
    if assets.len() == 0 {
        Seq::empty()
    } else if assets.last().job_id@ == job_id {
        assets_of(assets.drop_last(), job_id).push(assets.last())
    } else {
        assets_of(assets.drop_last(), job_id)
    }
}

/// A summary describes a job row, with the live count of its assets.
pub open spec fn summarizes(s: JobSummary, j: JobRow, assets: Seq<JobAsset>) -> bool {
    &&& s.id@ == j.id@
    &&& s.title@ == j.title@
    &&& s.status@ == j.status@
    &&& s.created_at == j.created_at
    &&& s.updated_at == j.updated_at
    &&& s.asset_count == asset_count(assets, j.id@)
}

/// Positions `0..n`, each once, in some order.
pub open spec fn is_permutation(perm: Seq<int>, n: nat) -> bool {
    &&& perm.len() == n
    &&& perm.no_duplicates()
    &&& forall|k: int| 0 <= k < perm.len() ==> 0 <= #[trigger] perm[k] < n
}

/// Counts the assets that reference a job.
pub fn count_assets(assets: &[JobAsset], job_id: &str) -> (r: i64)
    requires
        assets@.len() <= i64::MAX,
    ensures
        r == asset_count(assets@, job_id@),
{
    let mut n: i64 = 0;
    let mut i: usize = 0;
    while i < assets.len()
        invariant
            i <= assets.len() <= i64::MAX,
            n == asset_count(assets@.take(i as int), job_id@),
            n <= i,
        decreases assets.len() - i,
    {
        assert(assets@.take(i + 1).drop_last() =~= assets@.take(i as int));
        if same_text(assets[i].job_id.as_str(), job_id) {
            n = n + 1;
        }
        i = i + 1;
    }
    assert(assets@.take(i as int) =~= assets@);
    n
}

fn summarize(job: &JobRow, assets: &[JobAsset]) -> (r: JobSummary)
    requires
        assets@.len() <= i64::MAX,
    ensures
        summarizes(r, *job, assets@),
{
    JobSummary {
        id: job.id.clone(),
        title: job.title.clone(),
        status: job.status.clone(),
        created_at: job.created_at,
        updated_at: job.updated_at,
        asset_count: count_assets(assets, job.id.as_str()),
    }
}

/// All jobs, most recently updated first (ties keep table order), each with
/// the live count of its assets.
pub fn list_jobs(jobs: &[JobRow], assets: &[JobAsset]) -> (r: Vec<JobSummary>)
    requires
        assets@.len() <= i64::MAX,
    ensures
        r@.len() == jobs@.len(),
        forall|i: int, j: int| 0 <= i < j < r@.len() ==> r@[i].updated_at >= r@[j].updated_at,
        exists|perm: Seq<int>|
            is_permutation(perm, jobs@.len()) && forall|k: int|
                0 <= k < r@.len() ==> summarizes(#[trigger] r@[k], jobs@[perm[k]], assets@),
{
    let mut out: Vec<JobSummary> = Vec::new();
    let ghost mut perm: Seq<int> = Seq::empty();
    let mut i: usize = 0;
    while i < jobs.len()
        invariant
            i <= jobs.len(),
            assets@.len() <= i64::MAX,
            out@.len() == i,
            is_permutation(perm, i as nat),
            forall|a: int, b: int| 0 <= a < b < out@.len() ==> out@[a].updated_at >= out@[b].updated_at,
            forall|k: int| 0 <= k < out@.len() ==> summarizes(#[trigger] out@[k], jobs@[perm[k]], assets@),
        decreases jobs.len() - i,
    {
        let s = summarize(&jobs[i], assets);
        let mut p: usize = 0;
        while p < out.len() && out[p].updated_at >= s.updated_at
            invariant
                p <= out@.len(),
                forall|k: int| 0 <= k < p ==> out@[k].updated_at >= s.updated_at,
            decreases out@.len() - p,
        {
            p = p + 1;
        }
        let ghost old_out = out@;
        let ghost old_perm = perm;
        out.insert(p, s);
        proof {
            perm = perm.insert(p as int, i as int);
            assert forall|a: int, b: int| 0 <= a < b < out@.len() implies out@[a].updated_at
                >= out@[b].updated_at by {
                if b < p {
                } else if b == p {
                } else if a < p {
                    assert(out@[b] == old_out[b - 1]);
                    if p < old_out.len() {
                        assert(old_out[p as int].updated_at < s.updated_at);
                        assert(old_out[p as int].updated_at >= old_out[b - 1].updated_at
                            || p == b - 1);
                    }
                } else if a == p {
                    assert(old_out[p as int].updated_at < s.updated_at);
                    assert(old_out[p as int].updated_at >= old_out[b - 1].updated_at
                        || p == b - 1);
                } else {
                    assert(out@[a] == old_out[a - 1]);
                    assert(out@[b] == old_out[b - 1]);
                }
            }
            assert forall|k: int| 0 <= k < out@.len() implies summarizes(
                #[trigger] out@[k],
                jobs@[perm[k]],
                assets@,
            ) by {
                if k < p {
                    assert(out@[k] == old_out[k]);
                    assert(perm[k] == old_perm[k]);
                } else if k > p {
                    assert(out@[k] == old_out[k - 1]);
                    assert(perm[k] == old_perm[k - 1]);
                }
            }
            assert forall|k: int| 0 <= k < perm.len() implies 0 <= #[trigger] perm[k] < i + 1 by {
                if k < p {
                    assert(perm[k] == old_perm[k]);
                } else if k > p {
                    assert(perm[k] == old_perm[k - 1]);
                }
            }
            assert forall|a: int, b: int| 0 <= a < b < perm.len() implies perm[a] != perm[b] by {
                if a < p && b < p {
                    assert(perm[a] == old_perm[a] && perm[b] == old_perm[b]);
                } else if a < p && b == p {
                    assert(perm[a] == old_perm[a]);
                } else if a < p && b > p {
                    assert(perm[a] == old_perm[a] && perm[b] == old_perm[b - 1]);
                } else if a == p {
                    assert(perm[b] == old_perm[b - 1]);
                } else {
                    assert(perm[a] == old_perm[a - 1] && perm[b] == old_perm[b - 1]);
                }
            }
        }
        i = i + 1;
    }
    out
}

fn copy_asset(a: &JobAsset) -> (r: JobAsset)
    ensures
        r == *a,
{
    JobAsset {
        id: a.id,
        job_id: a.job_id.clone(),
        original_path: a.original_path.clone(),
        storage_path: a.storage_path.clone(),
        media_type: a.media_type.clone(),
        mime_type: a.mime_type.clone(),
        size_bytes: a.size_bytes,
        sha256: a.sha256.clone(),
    }
}

/// A job and its assets in table order, or `None` when no job has the id;
/// an unknown id is an absence, not an error.
pub fn find_job_with_assets(jobs: &[JobRow], assets: &[JobAsset], job_id: &str) -> (r: Option<
    JobDetails,
>)
    requires
        assets@.len() <= i64::MAX,
    ensures
        r is None <==> forall|k: int| 0 <= k < jobs@.len() ==> jobs@[k].id@ != job_id@,
        r matches Some(d) ==> {
            &&& exists|k: int|
                0 <= k < jobs@.len() && jobs@[k].id@ == job_id@ && summarizes(
                    d.job,
                    jobs@[k],
                    assets@,
                )
            &&& d.assets@ == assets_of(assets@, job_id@)
        },
{
    let mut k: usize = 0;
    while k < jobs.len()
        invariant
            k <= jobs.len(),
            assets@.len() <= i64::MAX,
            forall|m: int| 0 <= m < k ==> jobs@[m].id@ != job_id@,
        decreases jobs.len() - k,
    {
        if same_text(jobs[k].id.as_str(), job_id) {
            let job = summarize(&jobs[k], assets);
            let mut own: Vec<JobAsset> = Vec::new();
            let mut i: usize = 0;
            while i < assets.len()
                invariant
                    i <= assets.len(),
                    own@ == assets_of(assets@.take(i as int), job_id@),
                decreases assets.len() - i,
            {
                assert(assets@.take(i + 1).drop_last() =~= assets@.take(i as int));
                if same_text(assets[i].job_id.as_str(), job_id) {
                    own.push(copy_asset(&assets[i]));
                }
                i = i + 1;
            }
            assert(assets@.take(i as int) =~= assets@);
            return Some(JobDetails { job, assets: own });
        }
        k = k + 1;
    }
    None
}

/// The settings seeded into an empty store.
pub fn default_settings() -> (r: SettingsPayload)
    ensures
        r.vault_path@ == ""@,
        r.obsidian_cli_path@ == "obsidian"@,
        r.gemini_model@ == "gemini-2.5-flash"@,
        r.write_mode@ == "cli_fallback"@,
{
    SettingsPayload {
        vault_path: owned(""),
        obsidian_cli_path: owned("obsidian"),
        gemini_model: owned("gemini-2.5-flash"),
        write_mode: owned("cli_fallback"),
    }
}

/// The accepted write modes.
pub open spec fn valid_write_mode(mode: Seq<char>) -> bool {
    mode == "cli_only"@ || mode == "filesystem_only"@ || mode == "cli_fallback"@
}

/// The settings as they are to be stored: every field trimmed, and refused
/// unless the trimmed write mode is one of the three accepted.
pub fn normalize_settings(payload: &SettingsPayload) -> (r: Result<SettingsPayload, RepoError>)
    ensures
        r is Ok <==> valid_write_mode(trimmed(payload.write_mode@)),
        r matches Ok(s) ==> s.vault_path@ == trimmed(payload.vault_path@) && s.obsidian_cli_path@
            == trimmed(payload.obsidian_cli_path@) && s.gemini_model@ == trimmed(
            payload.gemini_model@,
        ) && s.write_mode@ == trimmed(payload.write_mode@),
        r matches Err(e) ==> e is InvalidWriteMode,
{
    let mode = string_of(&trim(payload.write_mode.as_str()));
    if !(same_text(mode.as_str(), "cli_only") || same_text(mode.as_str(), "filesystem_only")
        || same_text(mode.as_str(), "cli_fallback")) {
        return Err(RepoError::InvalidWriteMode);
    }
    Ok(
        SettingsPayload {
            vault_path: string_of(&trim(payload.vault_path.as_str())),
            obsidian_cli_path: string_of(&trim(payload.obsidian_cli_path.as_str())),
            gemini_model: string_of(&trim(payload.gemini_model.as_str())),
            write_mode: mode,
        },
    )
}

} // verus!
