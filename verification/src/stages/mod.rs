//! The steps that move the running merge request along: rebasing it,
//! enabling auto-merge, following its state and its pipeline, and adding
//! newly listed merge requests to the queue. Each step decides; the caller
//! performs the GitLab requests that the decision names.

pub mod check_merge_request_status;
pub mod check_pipeline_status;
pub mod fetch_merge_requests;
pub mod start_merge_progress;

pub use self::check_merge_request_status::check_merge_request_status;
pub use self::check_pipeline_status::{check_pipeline_jobs, check_pipeline_status};
pub use self::fetch_merge_requests::fetch_merge_requests;
pub use self::start_merge_progress::{
    ensure_automerge, rebase_when_necessary, record_rebase_result, start_merge_progress,
    MergeProgress, RebaseDecision,
};
