use std::collections::VecDeque;

use gitlab_merge_pipeline::api::MergeRequest;
use gitlab_merge_pipeline::merge_queue::{
    line_layout, LabelColor, LineLayout, MergeQueue, QueueEntry, QueueState,
};
use gitlab_merge_pipeline::time::{now, Timestamp};

fn ts(secs: i64, nanos: u32) -> Timestamp {
    Timestamp { secs, nanos }
}

fn mr(title: &str, iid: u64, updated_at: Timestamp) -> MergeRequest {
    MergeRequest { title: title.to_string(), iid, project_id: 7, updated_at }
}

fn entry(title: &str, iid: u64, state: QueueState, at: Timestamp) -> QueueEntry {
    let mut e = QueueEntry::from_at(mr(title, iid, ts(0, 0)), at);
    e.change_state_at(state, at);
    e
}

fn queue(entries: Vec<QueueEntry>) -> MergeQueue {
    MergeQueue { merge_requests: entries.into_iter().collect::<VecDeque<_>>() }
}

fn ids(q: &MergeQueue) -> Vec<u64> {
    q.merge_requests.iter().map(|e| e.merge_request_id).collect()
}

fn states(q: &MergeQueue) -> Vec<QueueState> {
    q.merge_requests.iter().map(|e| e.state()).collect()
}

#[test]
fn timestamps_order_by_second_then_nanosecond() {
    assert!(ts(1, 999).is_before(&ts(2, 0)));
    assert!(ts(5, 1).is_before(&ts(5, 2)));
    assert!(!ts(5, 2).is_before(&ts(5, 2)));
    assert!(!ts(6, 0).is_before(&ts(5, 1_500_000_000)));
    assert!(ts(-3, 0).is_before(&ts(0, 0)));
}

#[test]
fn the_clock_moves_forward_from_the_epoch() {
    let t = now();
    assert!(t.secs > 1_600_000_000);
    assert!(t.nanos < 2_000_000_000);
}

#[test]
fn default_state_is_pending() {
    assert_eq!(QueueState::default(), QueueState::Pending);
}

#[test]
fn new_entry_is_pending_with_the_requests_fields() {
    let e = QueueEntry::from_at(mr("Fix bug", 12, ts(100, 0)), ts(200, 5));
    assert_eq!(e.title, "Fix bug");
    assert_eq!(e.merge_request_id, 12);
    assert_eq!(e.project_id, 7);
    assert_eq!(e.state(), QueueState::Pending);
    assert_eq!(e.last_state_change(), ts(200, 5));
    assert!(e.is_pending());
    assert!(!e.is_running());
}

#[test]
fn from_takes_the_current_time() {
    let before = now();
    let e = QueueEntry::from(mr("x", 1, ts(0, 0)));
    assert!(!e.last_state_change().is_before(&before));
    assert!(e.is_pending());
}

#[test]
fn change_state_records_state_and_time() {
    let mut e = entry("a", 1, QueueState::Pending, ts(10, 0));
    e.change_state_at(QueueState::Running, ts(20, 0));
    assert!(e.is_running());
    assert_eq!(e.last_state_change(), ts(20, 0));
    let before = now();
    e.change_state(QueueState::Merged);
    assert_eq!(e.state(), QueueState::Merged);
    assert!(!e.last_state_change().is_before(&before));
    assert_eq!(e.title, "a");
}

#[test]
fn should_update_when_request_changed_later() {
    let e = entry("a", 1, QueueState::Pending, ts(10, 0));
    assert!(e.should_update(&mr("a", 1, ts(10, 1))));
    assert!(!e.should_update(&mr("a", 1, ts(10, 0))));
    assert!(!e.should_update(&mr("a", 1, ts(9, 999))));
}

#[test]
fn default_queue_is_empty_and_sleeps() {
    let q = MergeQueue::default();
    assert!(q.merge_requests.is_empty());
    assert!(q.should_sleep());
    assert_eq!(q.running_index(), None);
}

#[test]
fn try_add_appends_a_new_request() {
    let mut q = queue(vec![entry("a", 1, QueueState::Pending, ts(10, 0))]);
    q.try_add_merge_request(mr("b", 2, ts(50, 0)));
    assert_eq!(ids(&q), vec![1, 2]);
    assert_eq!(q.merge_requests[1].title, "b");
    assert!(q.merge_requests[1].is_pending());
}

#[test]
fn try_add_keeps_an_entry_newer_than_the_request() {
    let mut q = queue(vec![
        entry("a", 1, QueueState::PipelineFailed, ts(100, 0)),
        entry("b", 2, QueueState::Pending, ts(10, 0)),
    ]);
    q.try_add_merge_request(mr("a renamed", 1, ts(100, 0)));
    assert_eq!(ids(&q), vec![1, 2]);
    assert_eq!(q.merge_requests[0].title, "a");
    assert_eq!(q.merge_requests[0].state(), QueueState::PipelineFailed);
}

#[test]
fn try_add_requeues_a_request_changed_since() {
    let mut q = queue(vec![
        entry("a", 1, QueueState::PipelineFailed, ts(100, 0)),
        entry("b", 2, QueueState::Pending, ts(10, 0)),
    ]);
    q.try_add_merge_request(mr("a fixed", 1, ts(150, 0)));
    assert_eq!(ids(&q), vec![2, 1]);
    assert_eq!(q.merge_requests[1].title, "a fixed");
    assert_eq!(q.merge_requests[1].state(), QueueState::Pending);
}

#[test]
fn position_and_contains() {
    let q = queue(vec![
        entry("a", 4, QueueState::Merged, ts(1, 0)),
        entry("b", 9, QueueState::Pending, ts(1, 0)),
    ]);
    assert_eq!(q.position_of(9), Some(1));
    assert_eq!(q.position_of(5), None);
    assert!(q.contains_merge_request(4));
    assert!(!q.contains_merge_request(5));
    assert_eq!(q.position_in_state(QueueState::Pending), Some(1));
    assert_eq!(q.position_in_state(QueueState::Closed), None);
}

#[test]
fn start_next_starts_the_first_pending_request() {
    let mut q = queue(vec![
        entry("a", 1, QueueState::Merged, ts(1, 0)),
        entry("b", 2, QueueState::Pending, ts(1, 0)),
        entry("c", 3, QueueState::Pending, ts(1, 0)),
    ]);
    assert_eq!(q.start_next(), Some(1));
    assert_eq!(
        states(&q),
        vec![QueueState::Merged, QueueState::Running, QueueState::Pending]
    );
    assert_eq!(q.running_index(), Some(1));
    // One at a time.
    assert_eq!(q.start_next(), None);
    assert_eq!(q.running_index(), Some(1));
}

#[test]
fn start_next_without_pending_requests_does_nothing() {
    let mut q = queue(vec![
        entry("a", 1, QueueState::Merged, ts(1, 0)),
        entry("b", 2, QueueState::Closed, ts(1, 0)),
    ]);
    assert_eq!(q.start_next(), None);
    assert_eq!(states(&q), vec![QueueState::Merged, QueueState::Closed]);
}

#[test]
fn sleeps_only_when_everything_runs() {
    let q = queue(vec![entry("a", 1, QueueState::Running, ts(1, 0))]);
    assert!(q.should_sleep());
    let q = queue(vec![
        entry("a", 1, QueueState::Running, ts(1, 0)),
        entry("b", 2, QueueState::Pending, ts(1, 0)),
    ]);
    assert!(!q.should_sleep());
}

#[test]
fn labels_and_colours() {
    assert_eq!(QueueState::Merged.label(), "Merged");
    assert_eq!(QueueState::Closed.label(), "Closed");
    assert_eq!(QueueState::Running.label(), "Running");
    assert_eq!(QueueState::Pending.label(), "Pending");
    assert_eq!(QueueState::RebaseFailed.label(), "Rebase Failed");
    assert_eq!(QueueState::PipelineFailed.label(), "Pipeline Failed");
    assert_eq!(QueueState::Conflicts.label(), "Conflicts");
    assert_eq!(QueueState::Merged.label_color(), LabelColor::Green);
    assert_eq!(QueueState::Closed.label_color(), LabelColor::Yellow);
    assert_eq!(QueueState::Running.label_color(), LabelColor::Blue);
    assert_eq!(QueueState::Pending.label_color(), LabelColor::BrightBlack);
    assert_eq!(QueueState::RebaseFailed.label_color(), LabelColor::Red);
    assert_eq!(QueueState::PipelineFailed.label_color(), LabelColor::Red);
    assert_eq!(QueueState::Conflicts.label_color(), LabelColor::Red);
}

#[test]
fn only_the_running_title_is_highlighted() {
    assert!(entry("a", 1, QueueState::Running, ts(1, 0)).title_highlighted());
    assert!(!entry("a", 1, QueueState::Pending, ts(1, 0)).title_highlighted());
}

#[test]
fn a_fitting_line_is_padded() {
    assert_eq!(line_layout(10, 9, 80), LineLayout { title_len: 10, padding: 64 });
    assert_eq!(line_layout(71, 9, 80), LineLayout { title_len: 71, padding: 3 });
}

#[test]
fn a_long_title_is_cut() {
    assert_eq!(line_layout(100, 9, 80), LineLayout { title_len: 68, padding: 6 });
    assert_eq!(line_layout(72, 9, 80), LineLayout { title_len: 68, padding: 6 });
}

#[test]
fn every_line_is_three_columns_wider() {
    for (t, s, c) in [(0usize, 0usize, 0u16), (5, 20, 30), (200, 10, 13), (1, 1, 65535)] {
        let l = line_layout(t, s, c);
        assert_eq!(l.title_len + l.padding + s, c as usize + 3);
    }
}
