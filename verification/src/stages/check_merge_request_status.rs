use vstd::prelude::*;

use crate::api::{MergeRequestDetails, MergeRequestStatus};
use crate::merge_queue::{QueueEntry, QueueState};

verus! {

/// Whether GitLab's report changes the state of an entry in `state`: only a
/// running entry reacts, to conflicts or to the merge request having been
/// merged or closed.
pub open spec fn status_changes_entry(state: QueueState, details: MergeRequestDetails) -> bool {
    state == QueueState::Running && (details.has_conflicts || details.state
        == MergeRequestStatus::Merged || details.state == MergeRequestStatus::Closed)
}

/// The state that a running entry reaches from GitLab's report. A merged
/// or closed merge request counts as such even with conflicts.
pub open spec fn status_outcome(details: MergeRequestDetails) -> QueueState {
    if details.state == MergeRequestStatus::Closed {
        QueueState::Closed
    } else if details.state == MergeRequestStatus::Merged {
        QueueState::Merged
    } else {
        QueueState::Conflicts
    }
}

/// Follows the state of the running merge request: it ends as `Conflicts`,
/// `Merged` or `Closed` when GitLab reports so. Returns whether the caller
/// should give GitLab time to process the merge (the merge request was
/// merged just now).
pub fn check_merge_request_status(
    entry: &mut QueueEntry,
    merge_request: &MergeRequestDetails,
) -> (wait_for_gitlab: bool)
    ensures
        status_changes_entry(old(entry)@.state, *merge_request) ==> final(entry)@ == old(
            entry,
        )@.with_state(status_outcome(*merge_request), final(entry)@.last_state_change),
        !status_changes_entry(old(entry)@.state, *merge_request) ==> final(entry)@ == old(
            entry,
        )@,
        wait_for_gitlab == (old(entry)@.state == QueueState::Running && merge_request.state
            == MergeRequestStatus::Merged),
        old(entry)@.state == QueueState::Running && merge_request.state == MergeRequestStatus::Closed
            ==> final(entry)@.state == QueueState::Closed,
        old(entry)@.state == QueueState::Running && merge_request.state == MergeRequestStatus::Merged
            ==> final(entry)@.state == QueueState::Merged,
        final(entry)@.state == QueueState::Conflicts && old(entry)@.state != QueueState::Conflicts
            ==> merge_request.has_conflicts && merge_request.state != MergeRequestStatus::Merged
            && merge_request.state != MergeRequestStatus::Closed,
        old(entry)@.state == QueueState::Running && merge_request.has_conflicts
            && merge_request.state != MergeRequestStatus::Merged && merge_request.state
            != MergeRequestStatus::Closed ==> final(entry)@.state == QueueState::Conflicts,
        old(entry)@.state == QueueState::Running && !merge_request.has_conflicts
            && merge_request.state != MergeRequestStatus::Merged && merge_request.state
            != MergeRequestStatus::Closed ==> final(entry)@ == old(entry)@,
        old(entry)@.state != QueueState::Running ==> final(entry)@ == old(entry)@,
{
    if !entry.is_running() {
        return false;
    }
    let mut wait_for_gitlab = false;
    if merge_request.has_conflicts {
        entry.change_state(QueueState::Conflicts);
    }
    if merge_request.state == MergeRequestStatus::Merged {
        entry.change_state(QueueState::Merged);
        wait_for_gitlab = true;
    }
    if merge_request.state == MergeRequestStatus::Closed {
        entry.change_state(QueueState::Closed);
    }
    wait_for_gitlab
}

/// What GitLab reports decides how a running merge request ends: closed
/// or merged as reported, whatever its conflicts; in conflict only while
/// it is still open or locked; and it keeps running otherwise.
pub proof fn lemma_reported_state_wins_over_conflicts(details: MergeRequestDetails)
    ensures
        details.state == MergeRequestStatus::Closed ==> status_changes_entry(
            QueueState::Running,
            details,
        ) && status_outcome(details) == QueueState::Closed,
        details.state == MergeRequestStatus::Merged ==> status_changes_entry(
            QueueState::Running,
            details,
        ) && status_outcome(details) == QueueState::Merged,
        details.has_conflicts && details.state != MergeRequestStatus::Merged && details.state
            != MergeRequestStatus::Closed ==> status_changes_entry(QueueState::Running, details)
            && status_outcome(details) == QueueState::Conflicts,
        status_changes_entry(QueueState::Running, details) && status_outcome(details)
            == QueueState::Conflicts ==> details.has_conflicts,
        !details.has_conflicts && details.state != MergeRequestStatus::Merged && details.state
            != MergeRequestStatus::Closed ==> !status_changes_entry(QueueState::Running, details),
        forall|state: QueueState|
            state != QueueState::Running ==> !#[trigger] status_changes_entry(state, details),
{
}

/// No report of GitLab makes the status check start a merge: a changed
/// entry ends closed, merged or in conflict.
pub proof fn lemma_status_check_never_starts_a_merge(details: MergeRequestDetails)
    ensures
        status_outcome(details) != QueueState::Running,
        status_outcome(details) == QueueState::Closed || status_outcome(details)
            == QueueState::Merged || status_outcome(details) == QueueState::Conflicts,
{
}

} // verus!
