use vstd::prelude::*;

use crate::api::{Job, JobStatus, MergeRequestDetails};
use crate::merge_queue::{QueueEntry, QueueState};

verus! {

/// The job must succeed for the merge request to be merged.
pub open spec fn is_required(job: Job) -> bool {
    !job.allow_failure
}

/// A required job that failed or was canceled: the pipeline has failed.
pub open spec fn blocks_merge(job: Job) -> bool {
    is_required(job) && (job.status == JobStatus::Failed || job.status == JobStatus::Canceled)
}

/// A required job that waits for someone to start it.
pub open spec fn awaits_trigger(job: Job) -> bool {
    is_required(job) && job.status == JobStatus::Manual
}

/// The required manual jobs, in the order of the pipeline.
pub open spec fn manual_jobs(jobs: Seq<Job>) -> Seq<Job> {
    jobs.filter(|job: Job| awaits_trigger(job))
}

/// Some job of the pipeline has failed the merge request.
pub open spec fn pipeline_failed(jobs: Seq<Job>) -> bool {
    exists|i: int| 0 <= i < jobs.len() && #[trigger] blocks_merge(jobs[i])
}

/// First look at the pipeline of the running merge request: a failed head
/// pipeline ends the entry as `PipelineFailed`. Returns the pipeline whose
/// jobs are to be inspected next, if any.
pub fn check_pipeline_status(entry: &mut QueueEntry, details: &MergeRequestDetails) -> (inspect: Option<
    u64,
>)
    ensures
        old(entry)@.state != QueueState::Running ==> final(entry)@ == old(entry)@ && inspect
            is None,
        old(entry)@.state == QueueState::Running && details.head_pipeline.status
            == JobStatus::Failed ==> final(entry)@ == old(entry)@.with_state(
            QueueState::PipelineFailed,
            final(entry)@.last_state_change,
        ) && inspect is None,
        old(entry)@.state == QueueState::Running && details.head_pipeline.status
            != JobStatus::Failed ==> final(entry)@ == old(entry)@ && inspect == Some(
            details.head_pipeline.id,
        ),
{
    if !entry.is_running() {
        return None;
    }
    if details.head_pipeline.status == JobStatus::Failed {
        entry.change_state(QueueState::PipelineFailed);
        return None;
    }
    Some(details.head_pipeline.id)
}

/// Second look at the pipeline, at the jobs of the running merge request:
/// a required job that failed or was canceled ends the entry as
/// `PipelineFailed`; otherwise the required manual jobs are returned, in
/// order, for the caller to start. Jobs that may fail are ignored. An entry
/// that is not running is left alone and nothing is to be started.
pub fn check_pipeline_jobs(entry: &mut QueueEntry, jobs: &Vec<Job>) -> (to_trigger: Vec<Job>)
    ensures
        old(entry)@.state != QueueState::Running ==> final(entry)@ == old(entry)@
            && to_trigger@.len() == 0,
        old(entry)@.state == QueueState::Running && pipeline_failed(jobs@) ==> final(entry)@
            == old(entry)@.with_state(QueueState::PipelineFailed, final(entry)@.last_state_change)
            && to_trigger@.len() == 0,
        old(entry)@.state == QueueState::Running && !pipeline_failed(jobs@) ==> final(entry)@
            == old(entry)@ && to_trigger@ == manual_jobs(jobs@),
        forall|i: int|
            0 <= i < to_trigger@.len() ==> #[trigger] to_trigger@[i].status == JobStatus::Manual
                && !to_trigger@[i].allow_failure && jobs@.contains(to_trigger@[i]),
        old(entry)@.state == QueueState::Running && !pipeline_failed(jobs@) ==> to_trigger@
            == jobs@.filter(|job: Job| job.status == JobStatus::Manual && !job.allow_failure),
{
    if !entry.is_running() {
        return Vec::new();
    }
    proof {
        lemma_manual_jobs_are_the_required_manual_ones(jobs@);
    }
    let n = jobs.len();
    let mut i: usize = 0;
    while i < n
        invariant
            n == jobs@.len(),
            i <= n,
            *entry == *old(entry),
            old(entry)@.state == QueueState::Running,
            forall|j: int| 0 <= j < i ==> !#[trigger] blocks_merge(jobs@[j]),
        decreases n - i,
    {
        let job = &jobs[i];
        if !job.allow_failure && (job.status == JobStatus::Failed || job.status
            == JobStatus::Canceled) {
            assert(blocks_merge(jobs@[i as int]));
            entry.change_state(QueueState::PipelineFailed);
            return Vec::new();
        }
        i += 1;
    }
    let mut to_trigger: Vec<Job> = Vec::new();
    let mut i: usize = 0;
    while i < n
        invariant
            n == jobs@.len(),
            i <= n,
            *entry == *old(entry),
            old(entry)@.state == QueueState::Running,
            to_trigger@ == manual_jobs(jobs@.take(i as int)),
        decreases n - i,
    {
        let job = &jobs[i];
        proof {
            reveal(Seq::filter);
            assert(jobs@.take(i + 1).drop_last() == jobs@.take(i as int));
        }
        if !job.allow_failure && job.status == JobStatus::Manual {
            to_trigger.push(
                Job {
                    id: job.id,
                    status: job.status,
                    name: job.name.clone(),
                    allow_failure: job.allow_failure,
                },
            );
        }
        i += 1;
    }
    assert(jobs@.take(n as int) == jobs@);
    proof {
        lemma_manual_jobs_are_the_required_manual_ones(jobs@);
    }
    to_trigger
}

/// The jobs handed out to be started are exactly the pipeline's manual
/// jobs that must succeed, in the pipeline's order; each of them is one of
/// the pipeline's jobs. A pipeline has failed exactly when a job that must
/// succeed failed or was canceled.
pub proof fn lemma_manual_jobs_are_the_required_manual_ones(jobs: Seq<Job>)
    ensures
        manual_jobs(jobs) == jobs.filter(
            |job: Job| job.status == JobStatus::Manual && !job.allow_failure,
        ),
        forall|i: int|
            0 <= i < manual_jobs(jobs).len() ==> #[trigger] manual_jobs(jobs)[i].status
                == JobStatus::Manual && !manual_jobs(jobs)[i].allow_failure && jobs.contains(
                manual_jobs(jobs)[i],
            ),
        forall|i: int|
            0 <= i < jobs.len() && jobs[i].status == JobStatus::Manual && !jobs[i].allow_failure
                ==> manual_jobs(jobs).contains(#[trigger] jobs[i]),
        pipeline_failed(jobs) <==> exists|i: int|
            0 <= i < jobs.len() && !jobs[i].allow_failure && (#[trigger] jobs[i].status
                == JobStatus::Failed || jobs[i].status == JobStatus::Canceled),
{
    let raw = |job: Job| job.status == JobStatus::Manual && !job.allow_failure;
    let named = |job: Job| awaits_trigger(job);
    assert(named =~= raw);
    let manual = manual_jobs(jobs);
    assert(manual == jobs.filter(raw));
    assert forall|i: int| 0 <= i < manual.len() implies #[trigger] manual[i].status
        == JobStatus::Manual && !manual[i].allow_failure && jobs.contains(manual[i]) by {
        jobs.lemma_filter_pred(raw, i);
        assert(manual.contains(manual[i]));
        jobs.lemma_filter_contains_rev(raw, manual[i]);
    }
    assert forall|i: int|
        0 <= i < jobs.len() && jobs[i].status == JobStatus::Manual
            && !jobs[i].allow_failure implies manual.contains(#[trigger] jobs[i]) by {
        jobs.lemma_filter_contains(raw, i);
    }
    if pipeline_failed(jobs) {
        let i = choose|i: int| 0 <= i < jobs.len() && #[trigger] blocks_merge(jobs[i]);
        assert(jobs[i].status == JobStatus::Failed || jobs[i].status == JobStatus::Canceled);
    }
    if exists|i: int|
        0 <= i < jobs.len() && !jobs[i].allow_failure && (#[trigger] jobs[i].status
            == JobStatus::Failed || jobs[i].status == JobStatus::Canceled) {
        let i = choose|i: int|
            0 <= i < jobs.len() && !jobs[i].allow_failure && (#[trigger] jobs[i].status
                == JobStatus::Failed || jobs[i].status == JobStatus::Canceled);
        assert(blocks_merge(jobs[i]));
    }
}

} // verus!
