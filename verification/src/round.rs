//! One round of work on a repository's queue, as a step function: the
//! queue and the phase of the round take an event (what GitLab answered)
//! to the next phase and the next request to make. The caller makes the
//! requests and feeds their outcomes back.

use vstd::prelude::*;

use crate::api::{
    DetailedMergeStatus, Job, JobStatus, MergeRequest, MergeRequestDetails, MergeRequestStatus,
};
use crate::merge_queue::{
    all_running, entry_moved_to, has_id, has_running, is_first_in_state, lemma_replace_entry_keeps_well_formed,
    started_next, MergeQueue, QueueEntry, QueueState,
};
use crate::stages::check_merge_request_status::{status_changes_entry, status_outcome};
use crate::stages::check_pipeline_status::{
    lemma_manual_jobs_are_the_required_manual_ones, manual_jobs, pipeline_failed,
};
use crate::stages::fetch_merge_requests::{fetched, lists_id};
use crate::stages::start_merge_progress::spec_start_merge_progress;
use crate::stages::{
    check_merge_request_status, check_pipeline_jobs, check_pipeline_status, fetch_merge_requests,
    record_rebase_result, start_merge_progress, MergeProgress,
};

verus! {

/// Where a round stands. `index` is the position of the entry the round
/// works on; `details` is what GitLab reported of it.
#[derive(Debug, Clone, Copy, PartialEq, Eq, Structural)]
pub enum RoundPhase {
    /// Waiting for the listing of open merge requests.
    Start,
    /// Waiting for the details of the running merge request.
    AwaitDetails { index: usize },
    /// Waiting for the outcome of a rebase request.
    AwaitRebase { index: usize, details: MergeRequestDetails },
    /// Waiting for the auto-merge request to be made.
    AwaitAutoMerge { index: usize, details: MergeRequestDetails },
    /// Giving GitLab time to process a merge.
    AwaitWait { index: usize, details: MergeRequestDetails },
    /// Waiting for the jobs of the head pipeline.
    AwaitJobs { index: usize },
    /// Waiting for the manual jobs to be started.
    AwaitTriggers,
    /// The round is over.
    Done,
}

/// What the caller learned from the request it made.
#[derive(Debug, Clone)]
pub enum RoundEvent {
    /// The open merge requests of the repository, oldest first.
    Listed(Vec<MergeRequest>),
    /// The details of the running merge request.
    Details(MergeRequestDetails),
    /// Whether GitLab accepted the rebase request.
    RebaseFinished(bool),
    /// Auto-merge was requested (a failure is only logged).
    AutoMergeRequested,
    /// The wait is over.
    Waited,
    /// The jobs of the head pipeline.
    Jobs(Vec<Job>),
    /// The manual jobs were started (failures are only logged).
    JobsTriggered,
}

/// The request the caller is to make next, for the entry at the given
/// position.
#[derive(Debug, Clone)]
pub enum RoundAction {
    FetchDetails(usize),
    Rebase(usize),
    EnableAutoMerge(usize),
    /// Give GitLab time to process the merge.
    WaitForGitlab,
    /// Fetch the jobs of the given pipeline.
    FetchJobs(usize, u64),
    /// Start these manual jobs, in order.
    TriggerJobs(usize, Vec<Job>),
    /// The round is over; sleep before the next one if `sleep`.
    EndRound { sleep: bool },
}

/// The phase fits the queue: the entry it works on exists, and runs where
/// the round still acts on it.
pub open spec fn phase_valid(entries: Seq<QueueEntry>, phase: RoundPhase) -> bool {
    match phase {
        RoundPhase::AwaitDetails { index } => index < entries.len() && entries[index as int]@.state
            == QueueState::Running,
        RoundPhase::AwaitRebase { index, details } => index < entries.len()
            && entries[index as int]@.state == QueueState::Running,
        RoundPhase::AwaitAutoMerge { index, details } => index < entries.len()
            && entries[index as int]@.state == QueueState::Running,
        RoundPhase::AwaitWait { index, details } => index < entries.len()
            && entries[index as int]@.state == QueueState::Merged,
        RoundPhase::AwaitJobs { index } => index < entries.len() && entries[index as int]@.state
            == QueueState::Running,
        _ => true,
    }
}

/// How many steps a round can still take from `phase` at most.
pub open spec fn steps_left(phase: RoundPhase) -> nat {
    match phase {
        RoundPhase::Start => 6,
        RoundPhase::AwaitDetails { .. } => 5,
        RoundPhase::AwaitRebase { .. } => 4,
        RoundPhase::AwaitAutoMerge { .. } => 4,
        RoundPhase::AwaitWait { .. } => 3,
        RoundPhase::AwaitJobs { .. } => 2,
        RoundPhase::AwaitTriggers => 1,
        RoundPhase::Done => 0,
    }
}

/// The end of a round: sleep when every entry runs.
pub open spec fn end_of_round(entries: Seq<QueueEntry>) -> (RoundPhase, RoundAction) {
    (RoundPhase::Done, RoundAction::EndRound { sleep: all_running(entries) })
}

/// The state that the running entry reaches from GitLab's report: the
/// status check first, then the head pipeline.
pub open spec fn reported_state(details: MergeRequestDetails) -> QueueState {
    if status_changes_entry(QueueState::Running, details) {
        status_outcome(details)
    } else if details.head_pipeline.status == JobStatus::Failed {
        QueueState::PipelineFailed
    } else {
        QueueState::Running
    }
}

/// The running entry `index` takes GitLab's report: it moves to the
/// reported state; a merge is given time, a live pipeline's jobs are
/// fetched next, and otherwise the round ends.
pub open spec fn proceeds(
    before: Seq<QueueEntry>,
    after: Seq<QueueEntry>,
    index: usize,
    details: MergeRequestDetails,
    res: (RoundPhase, RoundAction),
) -> bool {
    &&& entry_moved_to(before, after, index as int, reported_state(details))
    &&& if details.state == MergeRequestStatus::Merged {
        res == (RoundPhase::AwaitWait { index, details }, RoundAction::WaitForGitlab)
    } else if reported_state(details) == QueueState::Running {
        res == (RoundPhase::AwaitJobs { index }, RoundAction::FetchJobs(
            index,
            details.head_pipeline.id,
        ))
    } else {
        res == end_of_round(after)
    }
}

/// After the listing: the queue took the listing and started the next
/// merge request; the running one, if any, is looked at next.
pub open spec fn after_listing(
    before: Seq<QueueEntry>,
    merge_requests: Seq<MergeRequest>,
    after: Seq<QueueEntry>,
    res: (RoundPhase, RoundAction),
) -> bool {
    &&& exists|listed: Seq<QueueEntry>|
        #[trigger] fetched(before, merge_requests, listed) && exists|started: Option<usize>|
            #[trigger] started_next(listed, after, started)
    &&& match res.0 {
        RoundPhase::AwaitDetails { index } => is_first_in_state(
            after,
            QueueState::Running,
            index as int,
        ) && res.1 == RoundAction::FetchDetails(index),
        _ => res == end_of_round(after) && forall|i: int|
            0 <= i < after.len() ==> #[trigger] after[i]@.state != QueueState::Running,
    }
}

/// One step of a round, from a valid phase. An event that the phase does
/// not wait for ends the round and leaves the queue alone.
pub open spec fn round_step(
    before: Seq<QueueEntry>,
    phase: RoundPhase,
    event: RoundEvent,
    after: Seq<QueueEntry>,
    res: (RoundPhase, RoundAction),
) -> bool {
    match phase {
        RoundPhase::Start => match event {
            RoundEvent::Listed(merge_requests) => after_listing(before, merge_requests@, after, res),
            _ => after == before && res == end_of_round(after),
        },
        RoundPhase::AwaitDetails { index } => match event {
            RoundEvent::Details(details) => match spec_start_merge_progress(
                QueueState::Running,
                details,
            ) {
                MergeProgress::Rebase => after == before && res == (
                    RoundPhase::AwaitRebase { index, details },
                    RoundAction::Rebase(index),
                ),
                MergeProgress::EnableAutoMerge => after == before && res == (
                    RoundPhase::AwaitAutoMerge { index, details },
                    RoundAction::EnableAutoMerge(index),
                ),
                _ => proceeds(before, after, index, details, res),
            },
            _ => after == before && res == end_of_round(after),
        },
        RoundPhase::AwaitRebase { index, details } => match event {
            RoundEvent::RebaseFinished(succeeded) => if succeeded {
                proceeds(before, after, index, details, res)
            } else {
                entry_moved_to(before, after, index as int, QueueState::RebaseFailed) && res
                    == end_of_round(after)
            },
            _ => after == before && res == end_of_round(after),
        },
        RoundPhase::AwaitAutoMerge { index, details } => match event {
            RoundEvent::AutoMergeRequested => proceeds(before, after, index, details, res),
            _ => after == before && res == end_of_round(after),
        },
        RoundPhase::AwaitJobs { index } => match event {
            RoundEvent::Jobs(jobs) => if pipeline_failed(jobs@) {
                entry_moved_to(before, after, index as int, QueueState::PipelineFailed) && res
                    == end_of_round(after)
            } else {
                &&& entry_moved_to(before, after, index as int, QueueState::Running)
                &&& if manual_jobs(jobs@).len() == 0 {
                    res == end_of_round(after)
                } else {
                    &&& res.0 == RoundPhase::AwaitTriggers
                    &&& res.1 matches RoundAction::TriggerJobs(at, to_trigger)
                    &&& at == index
                    &&& to_trigger@ == manual_jobs(jobs@)
                }
            },
            _ => after == before && res == end_of_round(after),
        },
        _ => after == before && res == end_of_round(after),
    }
}

/// Once the details of the running merge request are in, and GitLab asks
/// for no rebase and no auto-merge (a rebase is under way, or none is
/// needed and auto-merge is on): an open merge request without conflicts
/// whose head pipeline has not failed keeps running and its pipeline's jobs
/// are fetched next, whatever the pipeline's status; one whose head
/// pipeline failed ends as `PipelineFailed` and the round ends; one that
/// was merged ends merged and GitLab is given time.
pub proof fn lemma_details_decide_the_next_request(
    before: Seq<QueueEntry>,
    index: usize,
    details: MergeRequestDetails,
    after: Seq<QueueEntry>,
    res: (RoundPhase, RoundAction),
)
    requires
        phase_valid(before, RoundPhase::AwaitDetails { index }),
        round_step(
            before,
            RoundPhase::AwaitDetails { index },
            RoundEvent::Details(details),
            after,
            res,
        ),
        details.rebase_in_progress || (details.detailed_merge_status
            != DetailedMergeStatus::NeedRebase && details.merge_when_pipeline_succeeds),
    ensures
        after.len() == before.len(),
        forall|j: int| 0 <= j < before.len() && j != index ==> #[trigger] after[j] == before[j],
        !details.has_conflicts && details.state != MergeRequestStatus::Merged && details.state
            != MergeRequestStatus::Closed && details.head_pipeline.status != JobStatus::Failed
            ==> {
            &&& res == (RoundPhase::AwaitJobs { index }, RoundAction::FetchJobs(
                index,
                details.head_pipeline.id,
            ))
            &&& after[index as int]@ == before[index as int]@
            &&& after[index as int]@.state == QueueState::Running
        },
        !details.has_conflicts && details.state != MergeRequestStatus::Merged && details.state
            != MergeRequestStatus::Closed && details.head_pipeline.status == JobStatus::Failed
            ==> {
            &&& after[index as int]@.state == QueueState::PipelineFailed
            &&& res.0 == RoundPhase::Done
            &&& res.1 is EndRound
        },
        details.state == MergeRequestStatus::Merged ==> {
            &&& after[index as int]@.state == QueueState::Merged
            &&& res == (RoundPhase::AwaitWait { index, details }, RoundAction::WaitForGitlab)
        },
{
}

/// After a rebase was accepted or auto-merge requested, GitLab's report
/// decides as it does when no request is needed: an open merge request
/// without conflicts whose head pipeline has not failed keeps running and
/// its jobs are fetched; a failed head pipeline ends it; a merge is given
/// time. A refused rebase ends the merge request as `RebaseFailed`.
pub proof fn lemma_request_outcomes_lead_on(
    before: Seq<QueueEntry>,
    phase: RoundPhase,
    event: RoundEvent,
    after: Seq<QueueEntry>,
    res: (RoundPhase, RoundAction),
    index: usize,
    details: MergeRequestDetails,
)
    requires
        phase_valid(before, phase),
        round_step(before, phase, event, after, res),
        (phase == RoundPhase::AwaitRebase { index, details } && event
            == RoundEvent::RebaseFinished(true)) || (phase == RoundPhase::AwaitAutoMerge {
            index,
            details,
        } && event == RoundEvent::AutoMergeRequested) || (phase == RoundPhase::AwaitRebase {
            index,
            details,
        } && event == RoundEvent::RebaseFinished(false)),
    ensures
        after.len() == before.len(),
        forall|j: int| 0 <= j < before.len() && j != index ==> #[trigger] after[j] == before[j],
        event == RoundEvent::RebaseFinished(false) ==> {
            &&& after[index as int]@.state == QueueState::RebaseFailed
            &&& res.0 == RoundPhase::Done
        },
        event != RoundEvent::RebaseFinished(false) && !details.has_conflicts && details.state
            != MergeRequestStatus::Merged && details.state != MergeRequestStatus::Closed
            && details.head_pipeline.status != JobStatus::Failed ==> {
            &&& res == (RoundPhase::AwaitJobs { index }, RoundAction::FetchJobs(
                index,
                details.head_pipeline.id,
            ))
            &&& after[index as int]@ == before[index as int]@
        },
        event != RoundEvent::RebaseFinished(false) && !details.has_conflicts && details.state
            != MergeRequestStatus::Merged && details.state != MergeRequestStatus::Closed
            && details.head_pipeline.status == JobStatus::Failed ==> {
            &&& after[index as int]@.state == QueueState::PipelineFailed
            &&& res.0 == RoundPhase::Done
        },
        event != RoundEvent::RebaseFinished(false) && details.state == MergeRequestStatus::Merged
            ==> after[index as int]@.state == QueueState::Merged && res.1
            == RoundAction::WaitForGitlab,
{
}

/// What the other steps of a round do. A round that ends sleeps exactly
/// when every entry runs. After the listing, the round goes on with the
/// entry that runs, or ends with no entry running or waiting, and the
/// queue then holds every listed merge request. From the jobs, a required
/// job that failed or was canceled ends the merge request as
/// `PipelineFailed`; otherwise the entry stays as it was and exactly the
/// required manual jobs are handed out, the round ending when there are
/// none. Waiting and starting jobs change nothing and end the round.
pub proof fn lemma_round_step_outcomes(
    before: Seq<QueueEntry>,
    phase: RoundPhase,
    event: RoundEvent,
    after: Seq<QueueEntry>,
    res: (RoundPhase, RoundAction),
)
    requires
        phase_valid(before, phase),
        round_step(before, phase, event, after, res),
    ensures
        res.1 matches RoundAction::EndRound { sleep } ==> res.0 == RoundPhase::Done && (sleep
            <==> forall|i: int|
            0 <= i < after.len() ==> #[trigger] after[i]@.state == QueueState::Running),
        phase == RoundPhase::Start ==> (event matches RoundEvent::Listed(merge_requests) ==> {
            &&& res.0 matches RoundPhase::AwaitDetails { index } ==> index < after.len()
                && after[index as int]@.state == QueueState::Running && res.1
                == RoundAction::FetchDetails(index)
            &&& res.0 == RoundPhase::Done ==> forall|i: int|
                0 <= i < after.len() ==> #[trigger] after[i]@.state != QueueState::Running
                    && after[i]@.state != QueueState::Pending
            &&& forall|id: u64| lists_id(merge_requests@, id) ==> has_id(after, id)
        }),
        phase matches RoundPhase::AwaitJobs { index } ==> (event matches RoundEvent::Jobs(jobs) ==> {
            &&& after.len() == before.len()
            &&& forall|j: int| 0 <= j < before.len() && j != index ==> #[trigger] after[j] == before[j]
            &&& (exists|i: int|
                0 <= i < jobs@.len() && !jobs@[i].allow_failure && (#[trigger] jobs@[i].status
                    == JobStatus::Failed || jobs@[i].status == JobStatus::Canceled)) ==> {
                &&& after[index as int]@.state == QueueState::PipelineFailed
                &&& res.0 == RoundPhase::Done
            }
            &&& !(exists|i: int|
                0 <= i < jobs@.len() && !jobs@[i].allow_failure && (#[trigger] jobs@[i].status
                    == JobStatus::Failed || jobs@[i].status == JobStatus::Canceled)) ==> {
                &&& after[index as int]@ == before[index as int]@
                &&& res.1 matches RoundAction::TriggerJobs(at, to_trigger) ==> {
                    &&& at == index
                    &&& res.0 == RoundPhase::AwaitTriggers
                    &&& forall|k: int|
                        0 <= k < to_trigger@.len() ==> #[trigger] to_trigger@[k].status
                            == JobStatus::Manual && !to_trigger@[k].allow_failure
                            && jobs@.contains(to_trigger@[k])
                    &&& forall|k: int|
                        0 <= k < jobs@.len() && jobs@[k].status == JobStatus::Manual
                            && !jobs@[k].allow_failure ==> to_trigger@.contains(#[trigger] jobs@[k])
                }
                &&& res.0 == RoundPhase::Done ==> forall|k: int|
                    0 <= k < jobs@.len() ==> !(#[trigger] jobs@[k].status == JobStatus::Manual
                        && !jobs@[k].allow_failure)
            }
        }),
        phase is AwaitWait || phase is AwaitTriggers ==> after == before && res.0
            == RoundPhase::Done,
{
    match phase {
        RoundPhase::Start => match event {
            RoundEvent::Listed(merge_requests) => {
                let listed = choose|listed: Seq<QueueEntry>|
                    #[trigger] fetched(before, merge_requests@, listed) && exists|
                        started: Option<usize>,
                    | #[trigger] started_next(listed, after, started);
                let started = choose|started: Option<usize>|
                    #[trigger] started_next(listed, after, started);
                assert forall|id: u64| lists_id(merge_requests@, id) implies has_id(after, id) by {
                    assert(has_id(listed, id));
                    let i = choose|i: int|
                        0 <= i < listed.len() && #[trigger] listed[i]@.merge_request_id == id;
                    match started {
                        Some(s) => {
                            if i == s {
                                assert(after[i]@.merge_request_id == id);
                            } else {
                                assert(after[i] == listed[i]);
                            }
                        },
                        None => {
                            assert(after[i] == listed[i]);
                        },
                    }
                }
                if res.0 == RoundPhase::Done {
                    assert forall|i: int| 0 <= i < after.len() implies #[trigger] after[i]@.state
                        != QueueState::Running && after[i]@.state != QueueState::Pending by {
                        if let Some(st) = started {
                            assert(after[st as int]@.state == QueueState::Running);
                        }
                        if started is None {
                            assert(after == listed);
                            if has_running(listed) {
                                let r = choose|r: int|
                                    0 <= r < listed.len() && #[trigger] listed[r]@.state
                                        == QueueState::Running;
                                assert(after[r]@.state == QueueState::Running);
                            }
                        }
                    }
                }
            },
            _ => {},
        },
        RoundPhase::AwaitJobs { index } => match event {
            RoundEvent::Jobs(jobs) => {
                lemma_manual_jobs_are_the_required_manual_ones(jobs@);
                if !pipeline_failed(jobs@) && res.0 == RoundPhase::Done {
                    assert forall|k: int| 0 <= k < jobs@.len() implies !(
                    #[trigger] jobs@[k].status == JobStatus::Manual && !jobs@[k].allow_failure) by {
                        if jobs@[k].status == JobStatus::Manual && !jobs@[k].allow_failure {
                            assert(manual_jobs(jobs@).contains(jobs@[k]));
                        }
                    }
                }
            },
            _ => {},
        },
        _ => {},
    }
}

impl MergeQueue {
    /// Whether `phase` fits the queue.
    pub fn phase_is_valid(&self, phase: &RoundPhase) -> (res: bool)
        ensures
            res == phase_valid(self.entries(), *phase),
    {
        let n = self.merge_requests.len();
        match *phase {
            RoundPhase::AwaitDetails { index } => index < n && self.merge_requests[index].is_running(),
            RoundPhase::AwaitRebase { index, details: _ } => index < n
                && self.merge_requests[index].is_running(),
            RoundPhase::AwaitAutoMerge { index, details: _ } => index < n
                && self.merge_requests[index].is_running(),
            RoundPhase::AwaitWait { index, details: _ } => index < n
                && self.merge_requests[index].state() == QueueState::Merged,
            RoundPhase::AwaitJobs { index } => index < n && self.merge_requests[index].is_running(),
            _ => true,
        }
    }

    fn end_round(&self) -> (res: (RoundPhase, RoundAction))
        ensures
            res == end_of_round(self.entries()),
    {
        (RoundPhase::Done, RoundAction::EndRound { sleep: self.should_sleep() })
    }

    /// Runs the status check and the head-pipeline check on the running
    /// entry `index`.
    fn proceed(&mut self, index: usize, details: MergeRequestDetails) -> (res: (
        RoundPhase,
        RoundAction,
    ))
        requires
            index < old(self).entries().len(),
            old(self).entries()[index as int]@.state == QueueState::Running,
        ensures
            proceeds(old(self).entries(), final(self).entries(), index, details, res),
            old(self).well_formed() ==> final(self).well_formed(),
            phase_valid(final(self).entries(), res.0),
    {
        let ghost before = self.entries();
        let mut entry = self.merge_requests.remove(index).unwrap();
        let wait_for_gitlab = check_merge_request_status(&mut entry, &details);
        let inspect = if wait_for_gitlab {
            None
        } else {
            check_pipeline_status(&mut entry, &details)
        };
        self.merge_requests.insert(index, entry);
        proof {
            assert(self.entries() == before.update(index as int, entry));
            if old(self).well_formed() {
                lemma_replace_entry_keeps_well_formed(before, index as int, entry);
            }
        }
        if wait_for_gitlab {
            (RoundPhase::AwaitWait { index, details }, RoundAction::WaitForGitlab)
        } else {
            match inspect {
                Some(pipeline) => (RoundPhase::AwaitJobs { index }, RoundAction::FetchJobs(
                    index,
                    pipeline,
                )),
                None => self.end_round(),
            }
        }
    }

    /// Takes one step of a round: applies what GitLab answered to the
    /// queue and names the next request. A phase that does not fit the
    /// queue, or an event it does not wait for, ends the round.
    pub fn step(&mut self, phase: RoundPhase, event: RoundEvent) -> (res: (RoundPhase, RoundAction))
        ensures
            phase_valid(old(self).entries(), phase) ==> round_step(
                old(self).entries(),
                phase,
                event,
                final(self).entries(),
                res,
            ),
            !phase_valid(old(self).entries(), phase) ==> final(self).entries() == old(
                self,
            ).entries() && res == end_of_round(final(self).entries()),
            phase_valid(final(self).entries(), res.0),
            old(self).well_formed() ==> final(self).well_formed(),
            phase != RoundPhase::Done ==> steps_left(res.0) < steps_left(phase),
    {
        if !self.phase_is_valid(&phase) {
            return self.end_round();
        }
        let ghost before = self.entries();
        match phase {
            RoundPhase::Start => match event {
                RoundEvent::Listed(merge_requests) => {
                    let ghost listing = merge_requests@;
                    fetch_merge_requests(self, merge_requests);
                    let ghost listed = self.entries();
                    let started = self.start_next();
                    assert(fetched(before, listing, listed));
                    assert(started_next(listed, self.entries(), started));
                    match self.running_index() {
                        Some(index) => (
                            RoundPhase::AwaitDetails { index },
                            RoundAction::FetchDetails(index),
                        ),
                        None => self.end_round(),
                    }
                },
                _ => self.end_round(),
            },
            RoundPhase::AwaitDetails { index } => match event {
                RoundEvent::Details(details) => {
                    match start_merge_progress(&self.merge_requests[index], &details) {
                        MergeProgress::Rebase => (
                            RoundPhase::AwaitRebase { index, details },
                            RoundAction::Rebase(index),
                        ),
                        MergeProgress::EnableAutoMerge => (
                            RoundPhase::AwaitAutoMerge { index, details },
                            RoundAction::EnableAutoMerge(index),
                        ),
                        _ => self.proceed(index, details),
                    }
                },
                _ => self.end_round(),
            },
            RoundPhase::AwaitRebase { index, details } => match event {
                RoundEvent::RebaseFinished(succeeded) => {
                    if succeeded {
                        self.proceed(index, details)
                    } else {
                        let mut entry = self.merge_requests.remove(index).unwrap();
                        record_rebase_result(&mut entry, false);
                        self.merge_requests.insert(index, entry);
                        proof {
                            assert(self.entries() == before.update(index as int, entry));
                            if old(self).well_formed() {
                                lemma_replace_entry_keeps_well_formed(before, index as int, entry);
                            }
                        }
                        self.end_round()
                    }
                },
                _ => self.end_round(),
            },
            RoundPhase::AwaitAutoMerge { index, details } => match event {
                RoundEvent::AutoMergeRequested => self.proceed(index, details),
                _ => self.end_round(),
            },
            RoundPhase::AwaitJobs { index } => match event {
                RoundEvent::Jobs(jobs) => {
                    let mut entry = self.merge_requests.remove(index).unwrap();
                    let to_trigger = check_pipeline_jobs(&mut entry, &jobs);
                    self.merge_requests.insert(index, entry);
                    proof {
                        assert(self.entries() == before.update(index as int, entry));
                        if old(self).well_formed() {
                            lemma_replace_entry_keeps_well_formed(before, index as int, entry);
                        }
                    }
                    if to_trigger.len() == 0 {
                        self.end_round()
                    } else {
                        (RoundPhase::AwaitTriggers, RoundAction::TriggerJobs(index, to_trigger))
                    }
                },
                _ => self.end_round(),
            },
            _ => self.end_round(),
        }
    }
}

} // verus!
