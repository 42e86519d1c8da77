use std::collections::VecDeque;

use gitlab_merge_pipeline::api::{
    DetailedMergeStatus, Job, JobStatus, MergeRequest, MergeRequestDetails, MergeRequestPipeline,
    MergeRequestStatus,
};
use gitlab_merge_pipeline::merge_queue::{MergeQueue, QueueEntry, QueueState};
use gitlab_merge_pipeline::stages::{
    check_merge_request_status, check_pipeline_jobs, check_pipeline_status, ensure_automerge,
    fetch_merge_requests, rebase_when_necessary, record_rebase_result, start_merge_progress,
    MergeProgress, RebaseDecision,
};
use gitlab_merge_pipeline::time::Timestamp;

fn ts(secs: i64) -> Timestamp {
    Timestamp { secs, nanos: 0 }
}

fn mr(title: &str, iid: u64) -> MergeRequest {
    MergeRequest { title: title.to_string(), iid, project_id: 3, updated_at: ts(0) }
}

fn entry(state: QueueState) -> QueueEntry {
    let mut e = QueueEntry::from_at(mr("feature", 1), ts(10));
    e.change_state_at(state, ts(10));
    e
}

fn details() -> MergeRequestDetails {
    MergeRequestDetails {
        has_conflicts: false,
        state: MergeRequestStatus::Opened,
        detailed_merge_status: DetailedMergeStatus::Mergeable,
        head_pipeline: MergeRequestPipeline { id: 77, status: JobStatus::Running },
        merge_when_pipeline_succeeds: true,
        rebase_in_progress: false,
    }
}

fn job(id: u64, status: JobStatus, allow_failure: bool) -> Job {
    Job { id, status, name: format!("job-{id}"), allow_failure }
}

#[test]
fn status_of_a_waiting_entry_is_left_alone() {
    let mut e = entry(QueueState::Pending);
    let mut d = details();
    d.state = MergeRequestStatus::Merged;
    d.has_conflicts = true;
    assert!(!check_merge_request_status(&mut e, &d));
    assert_eq!(e.state(), QueueState::Pending);
    assert_eq!(e.last_state_change(), ts(10));
}

#[test]
fn an_open_running_request_keeps_running() {
    let mut e = entry(QueueState::Running);
    assert!(!check_merge_request_status(&mut e, &details()));
    assert_eq!(e.state(), QueueState::Running);
    assert_eq!(e.last_state_change(), ts(10));
}

#[test]
fn conflicts_end_the_merge() {
    let mut e = entry(QueueState::Running);
    let mut d = details();
    d.has_conflicts = true;
    assert!(!check_merge_request_status(&mut e, &d));
    assert_eq!(e.state(), QueueState::Conflicts);
    assert!(ts(10).is_before(&e.last_state_change()));
}

#[test]
fn a_merged_request_is_merged_and_waits() {
    let mut e = entry(QueueState::Running);
    let mut d = details();
    d.state = MergeRequestStatus::Merged;
    d.has_conflicts = true;
    assert!(check_merge_request_status(&mut e, &d));
    assert_eq!(e.state(), QueueState::Merged);
}

#[test]
fn a_closed_request_is_closed() {
    let mut e = entry(QueueState::Running);
    let mut d = details();
    d.state = MergeRequestStatus::Closed;
    assert!(!check_merge_request_status(&mut e, &d));
    assert_eq!(e.state(), QueueState::Closed);
}

#[test]
fn a_locked_request_keeps_running() {
    let mut e = entry(QueueState::Running);
    let mut d = details();
    d.state = MergeRequestStatus::Locked;
    assert!(!check_merge_request_status(&mut e, &d));
    assert_eq!(e.state(), QueueState::Running);
}

#[test]
fn a_failed_head_pipeline_fails_the_entry() {
    let mut e = entry(QueueState::Running);
    let mut d = details();
    d.head_pipeline.status = JobStatus::Failed;
    assert_eq!(check_pipeline_status(&mut e, &d), None);
    assert_eq!(e.state(), QueueState::PipelineFailed);
}

#[test]
fn a_live_head_pipeline_asks_for_its_jobs() {
    let mut e = entry(QueueState::Running);
    assert_eq!(check_pipeline_status(&mut e, &details()), Some(77));
    assert_eq!(e.state(), QueueState::Running);
}

#[test]
fn the_pipeline_of_a_waiting_entry_is_not_checked() {
    let mut e = entry(QueueState::Pending);
    let mut d = details();
    d.head_pipeline.status = JobStatus::Failed;
    assert_eq!(check_pipeline_status(&mut e, &d), None);
    assert_eq!(e.state(), QueueState::Pending);
}

#[test]
fn a_failed_required_job_fails_the_entry() {
    let mut e = entry(QueueState::Running);
    let jobs = vec![
        job(1, JobStatus::Manual, false),
        job(2, JobStatus::Failed, false),
        job(3, JobStatus::Success, false),
    ];
    let to_trigger = check_pipeline_jobs(&mut e, &jobs);
    assert!(to_trigger.is_empty());
    assert_eq!(e.state(), QueueState::PipelineFailed);
}

#[test]
fn a_canceled_required_job_fails_the_entry() {
    let mut e = entry(QueueState::Running);
    let jobs = vec![job(1, JobStatus::Canceled, false)];
    assert!(check_pipeline_jobs(&mut e, &jobs).is_empty());
    assert_eq!(e.state(), QueueState::PipelineFailed);
}

#[test]
fn optional_jobs_are_ignored() {
    let mut e = entry(QueueState::Running);
    let jobs = vec![
        job(1, JobStatus::Failed, true),
        job(2, JobStatus::Manual, true),
        job(3, JobStatus::Manual, false),
        job(4, JobStatus::Running, false),
        job(5, JobStatus::Manual, false),
    ];
    let to_trigger = check_pipeline_jobs(&mut e, &jobs);
    assert_eq!(to_trigger.iter().map(|j| j.id).collect::<Vec<_>>(), vec![3, 5]);
    assert_eq!(to_trigger[0].name, "job-3");
    assert!(!to_trigger[0].allow_failure);
    assert_eq!(to_trigger[1].status, JobStatus::Manual);
    assert_eq!(e.state(), QueueState::Running);
}

#[test]
fn no_jobs_nothing_to_trigger() {
    let mut e = entry(QueueState::Running);
    assert!(check_pipeline_jobs(&mut e, &Vec::new()).is_empty());
    assert_eq!(e.state(), QueueState::Running);
}

#[test]
fn rebase_decisions() {
    let mut d = details();
    assert_eq!(rebase_when_necessary(&d), RebaseDecision::NotNeeded);
    assert!(!d.needs_rebase());
    d.detailed_merge_status = DetailedMergeStatus::NeedRebase;
    assert!(d.needs_rebase());
    assert_eq!(rebase_when_necessary(&d), RebaseDecision::Rebase);
    d.rebase_in_progress = true;
    assert_eq!(rebase_when_necessary(&d), RebaseDecision::InProgress);
    assert!(RebaseDecision::InProgress.holds_back_merge());
    assert!(RebaseDecision::Rebase.holds_back_merge());
    assert!(!RebaseDecision::NotNeeded.holds_back_merge());
}

#[test]
fn a_refused_rebase_fails_the_entry() {
    let mut e = entry(QueueState::Running);
    record_rebase_result(&mut e, true);
    assert_eq!(e.state(), QueueState::Running);
    assert_eq!(e.last_state_change(), ts(10));
    record_rebase_result(&mut e, false);
    assert_eq!(e.state(), QueueState::RebaseFailed);
}

#[test]
fn automerge_is_enabled_once_for_running_requests() {
    let mut d = details();
    d.merge_when_pipeline_succeeds = false;
    assert!(ensure_automerge(&entry(QueueState::Running), &d));
    assert!(!ensure_automerge(&entry(QueueState::Pending), &d));
    d.merge_when_pipeline_succeeds = true;
    assert!(!ensure_automerge(&entry(QueueState::Running), &d));
}

#[test]
fn merge_progress_rebases_before_automerge() {
    let running = entry(QueueState::Running);
    let mut d = details();
    d.merge_when_pipeline_succeeds = false;
    assert_eq!(start_merge_progress(&running, &d), MergeProgress::EnableAutoMerge);
    d.detailed_merge_status = DetailedMergeStatus::NeedRebase;
    assert_eq!(start_merge_progress(&running, &d), MergeProgress::Rebase);
    d.rebase_in_progress = true;
    assert_eq!(start_merge_progress(&running, &d), MergeProgress::WaitForRebase);
    let mut d = details();
    d.merge_when_pipeline_succeeds = true;
    assert_eq!(start_merge_progress(&running, &d), MergeProgress::Nothing);
}

#[test]
fn fetch_adds_new_requests_in_order() {
    let mut q = MergeQueue { merge_requests: VecDeque::new() };
    q.merge_requests.push_back(QueueEntry::from_at(mr("old", 2), ts(5)));
    q.merge_requests[0].change_state_at(QueueState::Running, ts(6));
    fetch_merge_requests(&mut q, vec![mr("one", 1), mr("two again", 2), mr("three", 3), mr("one again", 1)]);
    let ids: Vec<u64> = q.merge_requests.iter().map(|e| e.merge_request_id).collect();
    assert_eq!(ids, vec![2, 1, 3]);
    assert_eq!(q.merge_requests[0].title, "old");
    assert_eq!(q.merge_requests[0].state(), QueueState::Running);
    assert_eq!(q.merge_requests[1].title, "one");
    assert!(q.merge_requests[2].is_pending());
}

#[test]
fn fetching_twice_adds_nothing_more() {
    let mut q = MergeQueue::default();
    let listing = || vec![mr("a", 1), mr("b", 2)];
    fetch_merge_requests(&mut q, listing());
    let first: Vec<(u64, String)> =
        q.merge_requests.iter().map(|e| (e.merge_request_id, e.title.clone())).collect();
    fetch_merge_requests(&mut q, listing());
    let second: Vec<(u64, String)> =
        q.merge_requests.iter().map(|e| (e.merge_request_id, e.title.clone())).collect();
    assert_eq!(first, second);
    assert_eq!(second.len(), 2);
}

#[test]
fn a_round_merges_one_request_then_starts_the_next() {
    let mut q = MergeQueue::default();
    fetch_merge_requests(&mut q, vec![mr("first", 1), mr("second", 2)]);
    assert_eq!(q.start_next(), Some(0));
    let running = q.running_index().unwrap();
    let mut d = details();
    d.state = MergeRequestStatus::Merged;
    assert!(check_merge_request_status(&mut q.merge_requests[running], &d));
    assert_eq!(check_pipeline_status(&mut q.merge_requests[running], &d), None);
    assert_eq!(q.running_index(), None);
    assert!(!q.should_sleep());
    assert_eq!(q.start_next(), Some(1));
    let running: Vec<bool> = q.merge_requests.iter().map(|e| e.is_running()).collect();
    assert_eq!(running, vec![false, true]);
    assert_eq!(q.merge_requests[0].state(), QueueState::Merged);
}

#[test]
fn jobs_of_a_waiting_entry_are_not_checked() {
    let mut e = entry(QueueState::Pending);
    let jobs = vec![job(1, JobStatus::Failed, false), job(2, JobStatus::Manual, false)];
    assert!(check_pipeline_jobs(&mut e, &jobs).is_empty());
    assert_eq!(e.state(), QueueState::Pending);
    assert_eq!(e.last_state_change(), ts(10));
}

#[test]
fn from_makes_a_pending_entry_now() {
    let e: QueueEntry = mr("converted", 9).into();
    assert_eq!(e.title, "converted");
    assert_eq!(e.merge_request_id, 9);
    assert!(e.is_pending());
    assert!(e.last_state_change().nanos < 1_000_000_000);
    assert!(e.last_state_change().secs >= 0);
}
