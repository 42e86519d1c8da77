//! What the GitLab API reports of merge requests, pipelines and jobs, as the
//! queue logic reads it.

use vstd::prelude::*;

use crate::time::Timestamp;

verus! {

/// The state of a merge request together with its head pipeline.
#[derive(Debug, Clone, Copy, PartialEq, Eq, Structural)]
pub struct MergeRequestDetails {
    pub has_conflicts: bool,
    pub state: MergeRequestStatus,
    pub detailed_merge_status: DetailedMergeStatus,
    pub head_pipeline: MergeRequestPipeline,
    pub merge_when_pipeline_succeeds: bool,
    /// Whether GitLab is rebasing the source branch at the moment.
    pub rebase_in_progress: bool,
}

impl MergeRequestDetails {
    /// GitLab reports that the source branch must be rebased before it can
    /// be merged.
    pub open spec fn spec_needs_rebase(self) -> bool {
        self.detailed_merge_status == DetailedMergeStatus::NeedRebase
    }

    /// Whether the source branch must be rebased before it can be merged.
    pub fn needs_rebase(&self) -> (res: bool)
        ensures
            res == self.spec_needs_rebase(),
    {
        self.detailed_merge_status == DetailedMergeStatus::NeedRebase
    }
}

/// The pipeline that runs on the head commit of a merge request.
#[derive(Debug, Clone, Copy, PartialEq, Eq, Structural)]
pub struct MergeRequestPipeline {
    pub id: u64,
    pub status: JobStatus,
}

/// Why a merge request can or cannot be merged, as GitLab details it.
#[derive(Debug, Clone, Copy, PartialEq, Eq, Structural)]
pub enum DetailedMergeStatus {
    BrokenStatus,
    BlockedStatus,
    Checking,
    Unchecked,
    CiMustPass,
    CiStillRunning,
    DiscussionsNotResolved,
    DraftStatus,
    ExternalStatusChecks,
    Mergeable,
    NotApproved,
    NotOpen,
    JiraAssociationMissing,
    NeedRebase,
    Conflict,
    RequestedChanges,
    /// Any status that this list does not name.
    Unknown,
}

/// The state of a merge request.
#[derive(Debug, Clone, Copy, PartialEq, Eq, Structural)]
pub enum MergeRequestStatus {
    /// The merge request is open.
    Opened,
    /// The merge request was closed.
    Closed,
    /// The merge request is locked.
    Locked,
    /// The merge request was merged.
    Merged,
}

/// States of a pipeline or of one of its jobs.
#[derive(Debug, Clone, Copy, PartialEq, Eq, Structural)]
pub enum JobStatus {
    /// The check was created.
    Created,
    /// The check is waiting for some other resource.
    WaitingForResource,
    /// The check is currently being prepared.
    Preparing,
    /// The check is queued.
    Pending,
    /// The check is currently running.
    Running,
    /// The check succeeded.
    Success,
    /// The check failed.
    Failed,
    /// The check was canceled.
    Canceled,
    /// The check was skipped.
    Skipped,
    /// The check is waiting for manual action.
    Manual,
    /// The check is scheduled to run at some point in time.
    Scheduled,
}

/// Information about a job in GitLab CI.
#[derive(Debug, Clone)]
pub struct Job {
    /// The ID of the job.
    pub id: u64,
    /// The status of the job.
    pub status: JobStatus,
    /// The name of the job.
    pub name: String,
    /// Whether the pipeline may succeed although this job fails.
    pub allow_failure: bool,
}

/// An open merge request as the listing of a project reports it.
#[derive(Debug, Clone)]
pub struct MergeRequest {
    pub title: String,
    /// The merge request's number within its project.
    pub iid: u64,
    pub project_id: u64,
    /// When the merge request was last changed.
    pub updated_at: Timestamp,
}

} // verus!
