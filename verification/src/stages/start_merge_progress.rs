use vstd::prelude::*;

use crate::api::{DetailedMergeStatus, MergeRequestDetails};
use crate::merge_queue::{QueueEntry, QueueState};

verus! {

/// What to do about the source branch of a merge request.
#[derive(Debug, Clone, Copy, PartialEq, Eq, Structural)]
pub enum RebaseDecision {
    /// GitLab is rebasing it already: wait.
    InProgress,
    /// It must be rebased: ask GitLab to do so.
    Rebase,
    /// It needs no rebase.
    NotNeeded,
}

impl RebaseDecision {
    /// Whether the merge request must wait for a rebase before it goes on.
    pub fn holds_back_merge(&self) -> (res: bool)
        ensures
            res == (*self != RebaseDecision::NotNeeded),
    {
        !matches!(self, RebaseDecision::NotNeeded)
    }
}

/// What the next request for the running merge request is.
#[derive(Debug, Clone, Copy, PartialEq, Eq, Structural)]
pub enum MergeProgress {
    /// A rebase is under way: nothing to do this round.
    WaitForRebase,
    /// Ask GitLab to rebase the source branch.
    Rebase,
    /// Ask GitLab to merge as soon as the pipeline succeeds.
    EnableAutoMerge,
    /// Nothing to ask for.
    Nothing,
}

/// The rebase that GitLab's report calls for.
pub open spec fn spec_rebase_when_necessary(details: MergeRequestDetails) -> RebaseDecision {
    if details.rebase_in_progress {
        RebaseDecision::InProgress
    } else if details.spec_needs_rebase() {
        RebaseDecision::Rebase
    } else {
        RebaseDecision::NotNeeded
    }
}

/// Decides whether the source branch must be rebased, or is being so.
pub fn rebase_when_necessary(merge_request: &MergeRequestDetails) -> (decision: RebaseDecision)
    ensures
        decision == spec_rebase_when_necessary(*merge_request),
        merge_request.rebase_in_progress ==> decision == RebaseDecision::InProgress,
        decision == RebaseDecision::Rebase ==> !merge_request.rebase_in_progress
            && merge_request.detailed_merge_status == DetailedMergeStatus::NeedRebase,
        decision == RebaseDecision::NotNeeded ==> !merge_request.rebase_in_progress
            && merge_request.detailed_merge_status != DetailedMergeStatus::NeedRebase,
{
    if merge_request.rebase_in_progress {
        return RebaseDecision::InProgress;
    }
    if merge_request.needs_rebase() {
        return RebaseDecision::Rebase;
    }
    RebaseDecision::NotNeeded
}

/// Records the outcome of a rebase request: a refused one ends the entry
/// as `RebaseFailed`.
pub fn record_rebase_result(entry: &mut QueueEntry, rebase_succeeded: bool)
    ensures
        rebase_succeeded ==> final(entry)@ == old(entry)@,
        !rebase_succeeded ==> final(entry)@ == old(entry)@.with_state(
            QueueState::RebaseFailed,
            final(entry)@.last_state_change,
        ),
{
    if !rebase_succeeded {
        entry.change_state(QueueState::RebaseFailed);
    }
}

/// Auto-merge is to be enabled: the merge request is running and GitLab
/// will not yet merge it when its pipeline succeeds.
pub open spec fn spec_ensure_automerge(entry_state: QueueState, details: MergeRequestDetails) -> bool {
    entry_state == QueueState::Running && !details.merge_when_pipeline_succeeds
}

/// Whether auto-merge must be enabled for the merge request.
pub fn ensure_automerge(entry: &QueueEntry, merge_request: &MergeRequestDetails) -> (enable: bool)
    ensures
        enable == spec_ensure_automerge(entry@.state, *merge_request),
        enable <==> entry@.state == QueueState::Running && !merge_request.merge_when_pipeline_succeeds,
{
    entry.is_running() && !merge_request.merge_when_pipeline_succeeds
}

/// The next request for the running merge request: a rebase comes first;
/// once none is needed, auto-merge is enabled.
pub open spec fn spec_start_merge_progress(entry_state: QueueState, details: MergeRequestDetails) -> MergeProgress {
    match spec_rebase_when_necessary(details) {
        RebaseDecision::InProgress => MergeProgress::WaitForRebase,
        RebaseDecision::Rebase => MergeProgress::Rebase,
        RebaseDecision::NotNeeded => if spec_ensure_automerge(entry_state, details) {
            MergeProgress::EnableAutoMerge
        } else {
            MergeProgress::Nothing
        },
    }
}

/// Decides the next request that moves the merge request towards its merge.
pub fn start_merge_progress(entry: &QueueEntry, merge_request: &MergeRequestDetails) -> (progress: MergeProgress)
    ensures
        progress == spec_start_merge_progress(entry@.state, *merge_request),
        merge_request.rebase_in_progress ==> progress == MergeProgress::WaitForRebase,
        progress == MergeProgress::Rebase <==> !merge_request.rebase_in_progress
            && merge_request.detailed_merge_status == DetailedMergeStatus::NeedRebase,
        progress == MergeProgress::EnableAutoMerge <==> !merge_request.rebase_in_progress
            && merge_request.detailed_merge_status != DetailedMergeStatus::NeedRebase
            && entry@.state == QueueState::Running && !merge_request.merge_when_pipeline_succeeds,
{
    let rebase = rebase_when_necessary(merge_request);
    if rebase.holds_back_merge() {
        if rebase == RebaseDecision::InProgress {
            return MergeProgress::WaitForRebase;
        }
        return MergeProgress::Rebase;
    }
    if ensure_automerge(entry, merge_request) {
        MergeProgress::EnableAutoMerge
    } else {
        MergeProgress::Nothing
    }
}

/// A rebase under way holds the merge whatever else GitLab reports; a
/// rebase is requested exactly when GitLab asks for one and none is under
/// way; and auto-merge is enabled only when no rebase is under way or
/// needed, for a running merge request that GitLab would not merge yet.
pub proof fn lemma_rebase_comes_before_auto_merge(entry_state: QueueState, details: MergeRequestDetails)
    ensures
        details.rebase_in_progress ==> spec_rebase_when_necessary(details)
            == RebaseDecision::InProgress,
        spec_rebase_when_necessary(details) == RebaseDecision::NotNeeded ==> !details.rebase_in_progress
            && details.detailed_merge_status != DetailedMergeStatus::NeedRebase,
        spec_rebase_when_necessary(details) == RebaseDecision::Rebase <==> !details.rebase_in_progress
            && details.detailed_merge_status == DetailedMergeStatus::NeedRebase,
        details.rebase_in_progress ==> spec_start_merge_progress(entry_state, details)
            == MergeProgress::WaitForRebase,
        spec_start_merge_progress(entry_state, details) == MergeProgress::EnableAutoMerge
            <==> !details.rebase_in_progress && details.detailed_merge_status
            != DetailedMergeStatus::NeedRebase && entry_state == QueueState::Running
            && !details.merge_when_pipeline_succeeds,
{
}

} // verus!
