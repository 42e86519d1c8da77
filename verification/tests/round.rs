use gitlab_merge_pipeline::api::{
    DetailedMergeStatus, Job, JobStatus, MergeRequest, MergeRequestDetails, MergeRequestPipeline,
    MergeRequestStatus,
};
use gitlab_merge_pipeline::merge_queue::{MergeQueue, QueueState};
use gitlab_merge_pipeline::round::{RoundAction, RoundEvent, RoundPhase};
use gitlab_merge_pipeline::time::Timestamp;

fn mr(title: &str, iid: u64) -> MergeRequest {
    MergeRequest { title: title.to_string(), iid, project_id: 3, updated_at: Timestamp { secs: 0, nanos: 0 } }
}

fn details() -> MergeRequestDetails {
    MergeRequestDetails {
        has_conflicts: false,
        state: MergeRequestStatus::Opened,
        detailed_merge_status: DetailedMergeStatus::Mergeable,
        head_pipeline: MergeRequestPipeline { id: 77, status: JobStatus::Running },
        merge_when_pipeline_succeeds: true,
        rebase_in_progress: false,
    }
}

fn job(id: u64, status: JobStatus, allow_failure: bool) -> Job {
    Job { id, status, name: format!("job-{id}"), allow_failure }
}

fn states(q: &MergeQueue) -> Vec<QueueState> {
    q.merge_requests.iter().map(|e| e.state()).collect()
}

fn listed(q: &mut MergeQueue, titles: &[(&str, u64)]) -> (RoundPhase, RoundAction) {
    let listing = titles.iter().map(|(t, id)| mr(t, *id)).collect();
    q.step(RoundPhase::Start, RoundEvent::Listed(listing))
}

#[test]
fn an_empty_listing_ends_the_round_and_sleeps() {
    let mut q = MergeQueue::default();
    let (phase, action) = listed(&mut q, &[]);
    assert_eq!(phase, RoundPhase::Done);
    assert!(matches!(action, RoundAction::EndRound { sleep: true }));
}

#[test]
fn a_listing_starts_the_first_request() {
    let mut q = MergeQueue::default();
    let (phase, action) = listed(&mut q, &[("a", 1), ("b", 2)]);
    assert_eq!(phase, RoundPhase::AwaitDetails { index: 0 });
    assert!(matches!(action, RoundAction::FetchDetails(0)));
    assert_eq!(states(&q), vec![QueueState::Running, QueueState::Pending]);
}

#[test]
fn a_full_round_with_manual_jobs() {
    let mut q = MergeQueue::default();
    let (phase, _) = listed(&mut q, &[("a", 1)]);
    let mut d = details();
    d.merge_when_pipeline_succeeds = false;
    let (phase, action) = q.step(phase, RoundEvent::Details(d));
    assert_eq!(phase, RoundPhase::AwaitAutoMerge { index: 0, details: d });
    assert!(matches!(action, RoundAction::EnableAutoMerge(0)));
    let (phase, action) = q.step(phase, RoundEvent::AutoMergeRequested);
    assert_eq!(phase, RoundPhase::AwaitJobs { index: 0 });
    assert!(matches!(action, RoundAction::FetchJobs(0, 77)));
    let jobs = vec![job(1, JobStatus::Success, false), job(2, JobStatus::Manual, false)];
    let (phase, action) = q.step(phase, RoundEvent::Jobs(jobs));
    assert_eq!(phase, RoundPhase::AwaitTriggers);
    match action {
        RoundAction::TriggerJobs(0, to_trigger) => {
            assert_eq!(to_trigger.iter().map(|j| j.id).collect::<Vec<_>>(), vec![2])
        }
        other => panic!("unexpected action {other:?}"),
    }
    let (phase, action) = q.step(phase, RoundEvent::JobsTriggered);
    assert_eq!(phase, RoundPhase::Done);
    assert!(matches!(action, RoundAction::EndRound { sleep: true }));
    assert_eq!(states(&q), vec![QueueState::Running]);
}

#[test]
fn a_refused_rebase_ends_the_round() {
    let mut q = MergeQueue::default();
    let (phase, _) = listed(&mut q, &[("a", 1), ("b", 2)]);
    let mut d = details();
    d.detailed_merge_status = DetailedMergeStatus::NeedRebase;
    let (phase, action) = q.step(phase, RoundEvent::Details(d));
    assert!(matches!(action, RoundAction::Rebase(0)));
    let (phase, action) = q.step(phase, RoundEvent::RebaseFinished(false));
    assert_eq!(phase, RoundPhase::Done);
    assert!(matches!(action, RoundAction::EndRound { sleep: false }));
    assert_eq!(states(&q), vec![QueueState::RebaseFailed, QueueState::Pending]);
}

#[test]
fn a_merge_waits_then_the_next_round_starts_the_next_request() {
    let mut q = MergeQueue::default();
    let (phase, _) = listed(&mut q, &[("a", 1), ("b", 2)]);
    let mut d = details();
    d.state = MergeRequestStatus::Merged;
    let (phase, action) = q.step(phase, RoundEvent::Details(d));
    assert!(matches!(action, RoundAction::WaitForGitlab));
    assert_eq!(phase, RoundPhase::AwaitWait { index: 0, details: d });
    let (phase, action) = q.step(phase, RoundEvent::Waited);
    assert_eq!(phase, RoundPhase::Done);
    assert!(matches!(action, RoundAction::EndRound { sleep: false }));
    let (phase, _) = listed(&mut q, &[("b", 2)]);
    assert_eq!(phase, RoundPhase::AwaitDetails { index: 1 });
    assert_eq!(states(&q), vec![QueueState::Merged, QueueState::Running]);
}

#[test]
fn a_failed_pipeline_ends_the_round() {
    let mut q = MergeQueue::default();
    let (phase, _) = listed(&mut q, &[("a", 1)]);
    let mut d = details();
    d.head_pipeline.status = JobStatus::Failed;
    let (phase, action) = q.step(phase, RoundEvent::Details(d));
    assert_eq!(phase, RoundPhase::Done);
    assert!(matches!(action, RoundAction::EndRound { sleep: false }));
    assert_eq!(states(&q), vec![QueueState::PipelineFailed]);
}

#[test]
fn an_unexpected_event_ends_the_round_without_change() {
    let mut q = MergeQueue::default();
    let (phase, _) = listed(&mut q, &[("a", 1)]);
    let (phase, action) = q.step(phase, RoundEvent::Waited);
    assert_eq!(phase, RoundPhase::Done);
    assert!(matches!(action, RoundAction::EndRound { sleep: true }));
    assert_eq!(states(&q), vec![QueueState::Running]);
}

#[test]
fn a_phase_that_does_not_fit_the_queue_ends_the_round() {
    let mut q = MergeQueue::default();
    let (phase, action) = q.step(RoundPhase::AwaitJobs { index: 4 }, RoundEvent::Jobs(Vec::new()));
    assert_eq!(phase, RoundPhase::Done);
    assert!(matches!(action, RoundAction::EndRound { sleep: true }));
    assert!(!q.phase_is_valid(&RoundPhase::AwaitDetails { index: 0 }));
    assert!(q.phase_is_valid(&RoundPhase::Start));
}
