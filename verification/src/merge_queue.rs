//! The queue of merge requests of one repository. At most one of them is
//! being merged at a time; the others wait their turn or record how they
//! ended.

use std::collections::VecDeque;

use vstd::prelude::*;

use crate::api::MergeRequest;
use crate::time::{now, Timestamp};

verus! {

/// Where a merge request stands in the queue.
#[derive(Debug, Clone, Copy, PartialEq, Eq, PartialOrd, Ord, Structural)]
pub enum QueueState {
    Merged,
    Running,
    Pending,
    RebaseFailed,
    PipelineFailed,
    Conflicts,
    Closed,
}

impl Default for QueueState {
    /// A merge request enters the queue as `Pending`.
    fn default() -> (state: Self)
        ensures
            state == QueueState::Pending,
    {
        QueueState::Pending
    }
}

/// A merge request in the queue.
#[derive(Debug, Clone, PartialEq, Eq, PartialOrd, Ord)]
pub struct QueueEntry {
    pub title: String,
    pub project_id: u64,
    pub merge_request_id: u64,
    state: QueueState,
    last_state_change: Timestamp,
}

/// The contents of a queue entry.
pub struct EntryView {
    pub title: Seq<char>,
    pub project_id: u64,
    pub merge_request_id: u64,
    pub state: QueueState,
    /// When the entry entered the queue or last changed its state.
    pub last_state_change: Timestamp,
}

impl EntryView {
    /// The same entry in `state`, changed at `at`.
    pub open spec fn with_state(self, state: QueueState, at: Timestamp) -> EntryView {
        EntryView { state, last_state_change: at, ..self }
    }

    /// The entry that a merge request becomes when it enters the queue at `at`.
    pub open spec fn spec_from(merge_request: MergeRequest, at: Timestamp) -> EntryView {
        EntryView {
            title: merge_request.title@,
            project_id: merge_request.project_id,
            merge_request_id: merge_request.iid,
            state: QueueState::Pending,
            last_state_change: at,
        }
    }
}

impl View for QueueEntry {
    type V = EntryView;

    closed spec fn view(&self) -> EntryView {
        EntryView {
            title: self.title@,
            project_id: self.project_id,
            merge_request_id: self.merge_request_id,
            state: self.state,
            last_state_change: self.last_state_change,
        }
    }
}

impl QueueEntry {
    /// Whether the merge request is being merged.
    pub fn is_running(&self) -> (res: bool)
        ensures
            res == (self@.state == QueueState::Running),
    {
        self.state == QueueState::Running
    }

    /// Whether the merge request waits for its turn.
    pub fn is_pending(&self) -> (res: bool)
        ensures
            res == (self@.state == QueueState::Pending),
    {
        self.state == QueueState::Pending
    }

    /// Where the merge request stands.
    pub fn state(&self) -> (res: QueueState)
        ensures
            res == self@.state,
    {
        self.state
    }

    /// When the entry entered the queue or last changed its state.
    pub fn last_state_change(&self) -> (res: Timestamp)
        ensures
            res == self@.last_state_change,
    {
        self.last_state_change
    }

    /// Moves the entry to `state`, recording `at` as the time of the change.
    pub fn change_state_at(&mut self, state: QueueState, at: Timestamp)
        ensures
            final(self)@ == old(self)@.with_state(state, at),
    {
        self.state = state;
        self.last_state_change = at;
    }

    /// Moves the entry to `state` and records the current time as the time
    /// of the change.
    pub fn change_state(&mut self, state: QueueState)
        ensures
            final(self)@ == old(self)@.with_state(state, final(self)@.last_state_change),
            final(self)@.last_state_change.secs >= 0,
            final(self)@.last_state_change.nanos < 1_000_000_000,
    {
        let at = now();
        self.change_state_at(state, at);
    }

    /// Whether the merge request changed on GitLab after the entry last
    /// changed its state.
    pub fn should_update(&self, merge_request: &MergeRequest) -> (res: bool)
        ensures
            res == self@.last_state_change.spec_is_before(merge_request.updated_at),
            res <==> self@.last_state_change.secs < merge_request.updated_at.secs || (
            self@.last_state_change.secs == merge_request.updated_at.secs
                && self@.last_state_change.nanos < merge_request.updated_at.nanos),
    {
        self.last_state_change.is_before(&merge_request.updated_at)
    }

    /// The pending entry for `merge_request`, entering the queue at `at`.
    pub fn from_at(merge_request: MergeRequest, at: Timestamp) -> (entry: QueueEntry)
        ensures
            entry@ == EntryView::spec_from(merge_request, at),
    {
        QueueEntry {
            title: merge_request.title,
            merge_request_id: merge_request.iid,
            project_id: merge_request.project_id,
            state: QueueState::default(),
            last_state_change: at,
        }
    }
}

impl From<MergeRequest> for QueueEntry {
    /// The pending entry for `merge_request`, entering the queue now.
    fn from(merge_request: MergeRequest) -> (entry: QueueEntry)
        ensures
            entry@ == EntryView::spec_from(merge_request, entry@.last_state_change),
            entry@.last_state_change.secs >= 0,
            entry@.last_state_change.nanos < 1_000_000_000,
    {
        let at = now();
        QueueEntry::from_at(merge_request, at)
    }
}

impl vstd::std_specs::convert::FromSpecImpl<MergeRequest> for QueueEntry {
    /// The entry carries the time at which it was made, which no function
    /// of the merge request alone describes; what holds of every entry is
    /// the `ensures` of `from`.
    open spec fn obeys_from_spec() -> bool {
        false
    }

    closed spec fn from_spec(merge_request: MergeRequest) -> QueueEntry {
        QueueEntry {
            title: merge_request.title,
            project_id: merge_request.project_id,
            merge_request_id: merge_request.iid,
            state: QueueState::Pending,
            last_state_change: Timestamp { secs: 0, nanos: 0 },
        }
    }
}

/// The queue of one repository, in the order in which merge requests
/// entered it.
#[derive(Debug, Clone)]
pub struct MergeQueue {
    pub merge_requests: VecDeque<QueueEntry>,
}

impl Default for MergeQueue {
    /// The empty queue.
    fn default() -> (queue: Self)
        ensures
            queue.merge_requests@ == Seq::<QueueEntry>::empty(),
    {
        MergeQueue { merge_requests: VecDeque::new() }
    }
}

/// Some entry of `entries` is for merge request `id`.
pub open spec fn has_id(entries: Seq<QueueEntry>, id: u64) -> bool {
    exists|i: int| 0 <= i < entries.len() && #[trigger] entries[i]@.merge_request_id == id
}

/// `i` is the first entry of `entries` for merge request `id`.
pub open spec fn is_first_with_id(entries: Seq<QueueEntry>, id: u64, i: int) -> bool {
    &&& 0 <= i < entries.len()
    &&& entries[i]@.merge_request_id == id
    &&& forall|j: int| 0 <= j < i ==> #[trigger] entries[j]@.merge_request_id != id
}

/// No two entries are for the same merge request.
pub open spec fn ids_unique(entries: Seq<QueueEntry>) -> bool {
    forall|i: int, j: int|
        0 <= i < j < entries.len() ==> #[trigger] entries[i]@.merge_request_id
            != #[trigger] entries[j]@.merge_request_id
}

/// At most one entry is being merged.
pub open spec fn at_most_one_running(entries: Seq<QueueEntry>) -> bool {
    forall|i: int, j: int|
        0 <= i < j < entries.len() ==> !(#[trigger] entries[i]@.state == QueueState::Running
            && #[trigger] entries[j]@.state == QueueState::Running)
}

/// Some entry of `entries` is being merged.
pub open spec fn has_running(entries: Seq<QueueEntry>) -> bool {
    exists|i: int| 0 <= i < entries.len() && #[trigger] entries[i]@.state == QueueState::Running
}

/// `i` is the first entry of `entries` in `state`.
pub open spec fn is_first_in_state(entries: Seq<QueueEntry>, state: QueueState, i: int) -> bool {
    &&& 0 <= i < entries.len()
    &&& entries[i]@.state == state
    &&& forall|j: int| 0 <= j < i ==> #[trigger] entries[j]@.state != state
}

/// The entry for `merge_request` stays as it is: it is in the queue and
/// has not changed on GitLab since the entry last changed its state.
pub open spec fn keeps_entry_for(entries: Seq<QueueEntry>, merge_request: MergeRequest) -> bool {
    exists|i: int|
        0 <= i < entries.len() && #[trigger] entries[i]@.merge_request_id == merge_request.iid
            && !entries[i]@.last_state_change.spec_is_before(merge_request.updated_at)
}

/// Every entry is being merged; true of no entries at all.
pub open spec fn all_running(entries: Seq<QueueEntry>) -> bool {
    forall|i: int| 0 <= i < entries.len() ==> #[trigger] entries[i]@.state == QueueState::Running
}

/// `after` is `before` with entry `i` replaced by one in `state`: the entry
/// is as it was if its state stays, and otherwise changed at some time.
pub open spec fn entry_moved_to(
    before: Seq<QueueEntry>,
    after: Seq<QueueEntry>,
    i: int,
    state: QueueState,
) -> bool {
    &&& 0 <= i < before.len()
    &&& after.len() == before.len()
    &&& forall|j: int| 0 <= j < before.len() && j != i ==> #[trigger] after[j] == before[j]
    &&& after[i]@ == if state == before[i]@.state {
        before[i]@
    } else {
        before[i]@.with_state(state, after[i]@.last_state_change)
    }
}

/// What starting the next merge request does: nothing while one runs or
/// none waits, and otherwise the first pending entry starts.
pub open spec fn started_next(
    before: Seq<QueueEntry>,
    after: Seq<QueueEntry>,
    started: Option<usize>,
) -> bool {
    match started {
        None => {
            &&& after == before
            &&& has_running(before) || forall|i: int|
                0 <= i < before.len() ==> #[trigger] before[i]@.state != QueueState::Pending
        },
        Some(i) => {
            &&& !has_running(before)
            &&& is_first_in_state(before, QueueState::Pending, i as int)
            &&& entry_moved_to(before, after, i as int, QueueState::Running)
        },
    }
}

/// What starting the next merge request means, entry by entry: the
/// started entry was pending and no entry before it was, no entry was
/// running, it runs now, and every other entry is as it was; when nothing
/// starts, nothing changes. Only the started entry can have begun running.
pub open spec fn starts_first_pending(
    before: Seq<QueueEntry>,
    after: Seq<QueueEntry>,
    started: Option<usize>,
) -> bool {
    &&& started is None ==> after == before
    &&& started matches Some(i) ==> {
        &&& i < before.len()
        &&& before[i as int]@.state == QueueState::Pending
        &&& forall|j: int| 0 <= j < i ==> #[trigger] before[j]@.state != QueueState::Pending
        &&& forall|j: int| 0 <= j < before.len() ==> #[trigger] before[j]@.state != QueueState::Running
        &&& after.len() == before.len()
        &&& after[i as int]@.state == QueueState::Running
        &&& forall|j: int| 0 <= j < before.len() && j != i ==> #[trigger] after[j] == before[j]
    }
    &&& forall|j: int|
        0 <= j < after.len() && #[trigger] after[j]@.state == QueueState::Running ==> j
            < before.len() && (before[j]@.state == QueueState::Running || (started == Some(
            j as usize) && before[j]@.state == QueueState::Pending))
}

/// Starting the next merge request starts the first pending one, only
/// when none runs, and never restarts an entry that has ended.
pub proof fn lemma_start_next_starts_the_first_pending(
    before: Seq<QueueEntry>,
    after: Seq<QueueEntry>,
    started: Option<usize>,
)
    requires
        started_next(before, after, started),
    ensures
        starts_first_pending(before, after, started),
{
    if let Some(i) = started {
        assert forall|j: int| 0 <= j < before.len() implies #[trigger] before[j]@.state
            != QueueState::Running by {
            if before[j]@.state == QueueState::Running {
                assert(has_running(before));
            }
        }
    }
}

impl MergeQueue {
    /// The entries, front first.
    pub open spec fn entries(self) -> Seq<QueueEntry> {
        self.merge_requests@
    }

    /// What every operation on the queue keeps: each merge request is in it
    /// at most once, and at most one of them is being merged.
    pub open spec fn well_formed(self) -> bool {
        ids_unique(self.entries()) && at_most_one_running(self.entries())
    }

    /// The position of the first entry for merge request `id`.
    pub fn position_of(&self, id: u64) -> (res: Option<usize>)
        ensures
            match res {
                Some(i) => is_first_with_id(self.entries(), id, i as int),
                None => !has_id(self.entries(), id),
            },
            res matches Some(i) ==> i < self.entries().len() && self.entries()[i as int]@.merge_request_id
                == id && forall|j: int| 0 <= j < i ==> #[trigger] self.entries()[j]@.merge_request_id != id,
            res is None ==> forall|j: int|
                0 <= j < self.entries().len() ==> #[trigger] self.entries()[j]@.merge_request_id != id,
    {
        let n = self.merge_requests.len();
        let mut i: usize = 0;
        while i < n
            invariant
                n == self.entries().len(),
                i <= n,
                forall|j: int| 0 <= j < i ==> #[trigger] self.entries()[j]@.merge_request_id != id,
            decreases n - i,
        {
            if self.merge_requests[i].merge_request_id == id {
                return Some(i);
            }
            i += 1;
        }
        None
    }

    /// Puts `merge_request` at the back of the queue as a pending entry,
    /// unless the queue holds an entry for it that is newer than its last
    /// change on GitLab; an older entry for it leaves the queue.
    pub fn try_add_merge_request(&mut self, merge_request: MergeRequest)
        ensures
            keeps_entry_for(old(self).entries(), merge_request) ==> final(self).entries()
                == old(self).entries(),
            !keeps_entry_for(old(self).entries(), merge_request) ==> {
                let entries = final(self).entries();
                &&& entries.len() > 0
                &&& entries.last()@ == EntryView::spec_from(
                    merge_request,
                    entries.last()@.last_state_change,
                )
                &&& forall|i: int|
                    #[trigger] is_first_with_id(old(self).entries(), merge_request.iid, i)
                        ==> entries.drop_last() == old(self).entries().remove(i)
                &&& !has_id(old(self).entries(), merge_request.iid) ==> entries.drop_last()
                    == old(self).entries()
            },
            has_id(final(self).entries(), merge_request.iid),
            old(self).well_formed() ==> final(self).well_formed(),
            (exists|i: int|
                0 <= i < old(self).entries().len() && #[trigger] old(self).entries()[i]@.merge_request_id
                    == merge_request.iid && !old(self).entries()[i]@.last_state_change.spec_is_before(
                    merge_request.updated_at,
                )) ==> final(self).entries() == old(self).entries(),
            (forall|i: int|
                0 <= i < old(self).entries().len() && #[trigger] old(self).entries()[i]@.merge_request_id
                    == merge_request.iid ==> old(self).entries()[i]@.last_state_change.spec_is_before(
                    merge_request.updated_at,
                )) ==> {
                let entries = final(self).entries();
                &&& entries.len() > 0
                &&& entries.last()@.merge_request_id == merge_request.iid
                &&& entries.last()@.project_id == merge_request.project_id
                &&& entries.last()@.title == merge_request.title@
                &&& entries.last()@.state == QueueState::Pending
                &&& forall|j: int|
                    0 <= j < old(self).entries().len() && #[trigger] old(self).entries()[j]@.merge_request_id
                        != merge_request.iid ==> entries.contains(old(self).entries()[j])
                &&& old(self).well_formed() ==> forall|j: int|
                    0 <= j < entries.len() - 1 ==> #[trigger] entries[j]@.merge_request_id
                        != merge_request.iid
            },
    {
        let ghost old_entries = self.entries();
        let n = self.merge_requests.len();
        let mut i: usize = 0;
        while i < n
            invariant
                self.entries() == old_entries,
                n == old_entries.len(),
                i <= n,
                forall|j: int|
                    0 <= j < i ==> !(#[trigger] old_entries[j]@.merge_request_id == merge_request.iid
                        && !old_entries[j]@.last_state_change.spec_is_before(
                        merge_request.updated_at,
                    )),
            decreases n - i,
        {
            let entry = &self.merge_requests[i];
            if entry.merge_request_id == merge_request.iid && !entry.should_update(&merge_request) {
                assert(old_entries[i as int]@.merge_request_id == merge_request.iid);
                return;
            }
            i += 1;
        }
        assert(!keeps_entry_for(old_entries, merge_request));
        let position = self.position_of(merge_request.iid);
        if let Some(p) = position {
            let _ = self.merge_requests.remove(p);
        }
        let ghost kept = self.entries();
        let iid = merge_request.iid;
        let entry = QueueEntry::from(merge_request);
        self.merge_requests.push_back(entry);
        proof {
            let entries = self.entries();
            assert(entries.drop_last() == kept);
            assert(entries[entries.len() - 1]@.merge_request_id == iid);
            if let Some(p) = position {
                assert forall|i: int| #[trigger]
                    is_first_with_id(old_entries, iid, i) implies kept == old_entries.remove(i) by {
                    if i < p {
                        assert(old_entries[i]@.merge_request_id != iid);
                    } else if i > p {
                        assert(old_entries[p as int]@.merge_request_id == iid);
                    }
                }
            }
            assert(entries.last() == entry);
            assert forall|j: int|
                0 <= j < old_entries.len() && #[trigger] old_entries[j]@.merge_request_id
                    != iid implies entries.contains(old_entries[j]) by {
                match position {
                    Some(p) => {
                        if j < p {
                            assert(entries[j] == old_entries[j]);
                        } else {
                            assert(j != p);
                            assert(entries[j - 1] == old_entries[j]);
                        }
                    },
                    None => {
                        assert(entries[j] == old_entries[j]);
                    },
                }
            }
            if ids_unique(old_entries) && at_most_one_running(old_entries) {
                assert(forall|j: int|
                    0 <= j < kept.len() ==> #[trigger] kept[j]@.merge_request_id != iid);
                assert(ids_unique(entries));
                assert(at_most_one_running(entries));
            }
        }
    }

    /// The position of the first entry in `state`.
    pub fn position_in_state(&self, state: QueueState) -> (res: Option<usize>)
        ensures
            match res {
                Some(i) => is_first_in_state(self.entries(), state, i as int),
                None => forall|i: int|
                    0 <= i < self.entries().len() ==> #[trigger] self.entries()[i]@.state != state,
            },
    {
        let n = self.merge_requests.len();
        let mut i: usize = 0;
        while i < n
            invariant
                n == self.entries().len(),
                i <= n,
                forall|j: int| 0 <= j < i ==> #[trigger] self.entries()[j]@.state != state,
            decreases n - i,
        {
            if self.merge_requests[i].state == state {
                return Some(i);
            }
            i += 1;
        }
        None
    }

    /// The position of the entry being merged, if any.
    pub fn running_index(&self) -> (res: Option<usize>)
        ensures
            match res {
                Some(i) => is_first_in_state(self.entries(), QueueState::Running, i as int),
                None => !has_running(self.entries()),
            },
            res matches Some(i) ==> i < self.entries().len() && self.entries()[i as int]@.state
                == QueueState::Running,
            res is None ==> forall|j: int|
                0 <= j < self.entries().len() ==> #[trigger] self.entries()[j]@.state
                    != QueueState::Running,
    {
        self.position_in_state(QueueState::Running)
    }

    /// Starts merging the first pending merge request, unless one is being
    /// merged already. Returns the position of the entry it started.
    pub fn start_next(&mut self) -> (res: Option<usize>)
        ensures
            started_next(old(self).entries(), final(self).entries(), res),
            starts_first_pending(old(self).entries(), final(self).entries(), res),
            old(self).well_formed() ==> final(self).well_formed(),
            has_running(final(self).entries()) || forall|i: int|
                0 <= i < final(self).entries().len()
                    ==> #[trigger] final(self).entries()[i]@.state != QueueState::Pending,
    {
        if self.running_index().is_some() {
            return None;
        }
        match self.position_in_state(QueueState::Pending) {
            None => None,
            Some(i) => {
                let ghost old_entries = self.entries();
                let mut entry = self.merge_requests.remove(i).unwrap();
                entry.change_state(QueueState::Running);
                self.merge_requests.insert(i, entry);
                proof {
                    let entries = self.entries();
                    assert(entries == old_entries.update(i as int, entry));
                    assert(forall|j: int|
                        0 <= j < old_entries.len() ==> #[trigger] entries[j]@.merge_request_id
                            == old_entries[j]@.merge_request_id);
                    if at_most_one_running(old_entries) {
                        assert forall|a: int, b: int|
                            0 <= a < b < entries.len() implies !(
                            #[trigger] entries[a]@.state == QueueState::Running
                                && #[trigger] entries[b]@.state == QueueState::Running) by {
                            if a != i {
                                assert(old_entries[a]@.state != QueueState::Running);
                            } else {
                                assert(old_entries[b]@.state != QueueState::Running);
                            }
                        }
                    }
                    assert(entries[i as int]@.state == QueueState::Running);
                    lemma_start_next_starts_the_first_pending(
                        old_entries,
                        entries,
                        Some(i),
                    );
                }
                Some(i)
            },
        }
    }

    /// Whether every entry is being merged, so that the queue has nothing
    /// to do but wait; true of the empty queue.
    pub fn should_sleep(&self) -> (res: bool)
        ensures
            res == all_running(self.entries()),
            res ==> forall|i: int|
                0 <= i < self.entries().len() ==> #[trigger] self.entries()[i]@.state
                    == QueueState::Running,
            !res ==> exists|i: int|
                0 <= i < self.entries().len() && #[trigger] self.entries()[i]@.state
                    != QueueState::Running,
    {
        let n = self.merge_requests.len();
        let mut i: usize = 0;
        while i < n
            invariant
                n == self.entries().len(),
                i <= n,
                forall|j: int|
                    0 <= j < i ==> #[trigger] self.entries()[j]@.state == QueueState::Running,
            decreases n - i,
        {
            if !self.merge_requests[i].is_running() {
                return false;
            }
            i += 1;
        }
        true
    }

    /// Whether some entry is for merge request `id`.
    pub fn contains_merge_request(&self, id: u64) -> (res: bool)
        ensures
            res == has_id(self.entries(), id),
    {
        let n = self.merge_requests.len();
        let mut i: usize = 0;
        while i < n
            invariant
                n == self.entries().len(),
                i <= n,
                forall|j: int| 0 <= j < i ==> #[trigger] self.entries()[j]@.merge_request_id != id,
            decreases n - i,
        {
            if self.merge_requests[i].merge_request_id == id {
                assert(self.entries()[i as int]@.merge_request_id == id);
                return true;
            }
            i += 1;
        }
        false
    }
}

/// Putting another entry for the same merge request in the place of one
/// keeps the queue well-formed, as long as the new entry runs only where
/// the old one did. This is what the steps do to the running entry.
pub proof fn lemma_replace_entry_keeps_well_formed(entries: Seq<QueueEntry>, i: int, entry: QueueEntry)
    requires
        ids_unique(entries),
        at_most_one_running(entries),
        0 <= i < entries.len(),
        entry@.merge_request_id == entries[i]@.merge_request_id,
        entry@.state == QueueState::Running ==> entries[i]@.state == QueueState::Running,
    ensures
        ids_unique(entries.update(i, entry)),
        at_most_one_running(entries.update(i, entry)),
{
    let updated = entries.update(i, entry);
    assert forall|a: int, b: int| 0 <= a < b < updated.len() implies #[trigger] updated[a]@.merge_request_id
        != #[trigger] updated[b]@.merge_request_id by {
        assert(updated[a]@.merge_request_id == entries[a]@.merge_request_id);
        assert(updated[b]@.merge_request_id == entries[b]@.merge_request_id);
    }
    assert forall|a: int, b: int| 0 <= a < b < updated.len() implies !(
    #[trigger] updated[a]@.state == QueueState::Running && #[trigger] updated[b]@.state
        == QueueState::Running) by {
        if updated[a]@.state == QueueState::Running {
            assert(entries[a]@.state == QueueState::Running);
        }
        if updated[b]@.state == QueueState::Running {
            assert(entries[b]@.state == QueueState::Running);
        }
    }
}

/// The colour in which a state's label is shown.
#[derive(Debug, Clone, Copy, PartialEq, Eq, Structural)]
pub enum LabelColor {
    Green,
    Yellow,
    Blue,
    BrightBlack,
    Red,
}

impl QueueState {
    /// The text that shows the state.
    pub open spec fn spec_label(self) -> Seq<char> {
        match self {
            QueueState::Merged => "Merged"@,
            QueueState::Closed => "Closed"@,
            QueueState::Running => "Running"@,
            QueueState::Pending => "Pending"@,
            QueueState::RebaseFailed => "Rebase Failed"@,
            QueueState::PipelineFailed => "Pipeline Failed"@,
            QueueState::Conflicts => "Conflicts"@,
        }
    }

    /// The text that shows the state.
    pub fn label(&self) -> (label: &'static str)
        ensures
            label@ == self.spec_label(),
    {
        match self {
            QueueState::Merged => "Merged",
            QueueState::Closed => "Closed",
            QueueState::Running => "Running",
            QueueState::Pending => "Pending",
            QueueState::RebaseFailed => "Rebase Failed",
            QueueState::PipelineFailed => "Pipeline Failed",
            QueueState::Conflicts => "Conflicts",
        }
    }

    /// Merged is green, closed yellow, running blue, pending grey, and every
    /// failure red.
    pub open spec fn spec_label_color(self) -> LabelColor {
        match self {
            QueueState::Merged => LabelColor::Green,
            QueueState::Closed => LabelColor::Yellow,
            QueueState::Running => LabelColor::Blue,
            QueueState::Pending => LabelColor::BrightBlack,
            QueueState::RebaseFailed => LabelColor::Red,
            QueueState::PipelineFailed => LabelColor::Red,
            QueueState::Conflicts => LabelColor::Red,
        }
    }

    /// The colour of the state's label.
    pub fn label_color(&self) -> (color: LabelColor)
        ensures
            color == self.spec_label_color(),
    {
        match self {
            QueueState::Merged => LabelColor::Green,
            QueueState::Closed => LabelColor::Yellow,
            QueueState::Running => LabelColor::Blue,
            QueueState::Pending => LabelColor::BrightBlack,
            QueueState::RebaseFailed => LabelColor::Red,
            QueueState::PipelineFailed => LabelColor::Red,
            QueueState::Conflicts => LabelColor::Red,
        }
    }
}

/// The colours tell how a merge request stands at a glance: every failure
/// is red and only failures are; merged is green, closed yellow, running
/// blue and waiting grey, each in a colour of its own. Every state has a
/// label, and different states have different labels.
pub proof fn lemma_colours_and_labels_tell_states_apart(a: QueueState, b: QueueState)
    ensures
        a.spec_label_color() == LabelColor::Red <==> (a == QueueState::RebaseFailed || a
            == QueueState::PipelineFailed || a == QueueState::Conflicts),
        a == QueueState::Merged <==> a.spec_label_color() == LabelColor::Green,
        a == QueueState::Closed <==> a.spec_label_color() == LabelColor::Yellow,
        a == QueueState::Running <==> a.spec_label_color() == LabelColor::Blue,
        a == QueueState::Pending <==> a.spec_label_color() == LabelColor::BrightBlack,
        a.spec_label().len() > 0,
        a != b ==> a.spec_label() != b.spec_label(),
{
    reveal_strlit("Merged");
    reveal_strlit("Closed");
    reveal_strlit("Running");
    reveal_strlit("Pending");
    reveal_strlit("Rebase Failed");
    reveal_strlit("Pipeline Failed");
    reveal_strlit("Conflicts");
    if a != b && a.spec_label() == b.spec_label() {
        assert(a.spec_label().len() == b.spec_label().len());
        assert(a.spec_label()[0] == b.spec_label()[0]);
        assert(a.spec_label()[1] == b.spec_label()[1]);
        assert(a.spec_label()[2] == b.spec_label()[2]);
    }
}

impl QueueEntry {
    /// Whether the entry's title is shown bright: it is being merged.
    pub fn title_highlighted(&self) -> (res: bool)
        ensures
            res == (self@.state == QueueState::Running),
    {
        self.is_running()
    }
}

/// How a queue entry fills a line: the bytes of its title that are shown,
/// then `padding` spaces, then the state.
#[derive(Debug, Clone, Copy, PartialEq, Eq, Structural)]
pub struct LineLayout {
    pub title_len: usize,
    pub padding: usize,
}

/// The title and the state together need more than the line's columns.
pub open spec fn overflows(title_len: usize, state_len: usize, columns: u16) -> bool {
    title_len + state_len > columns
}

/// Whether the title and the state together need more than the line's
/// columns.
pub fn overflows_columns(title_len: usize, state_len: usize, columns: u16) -> (res: bool)
    ensures
        res == overflows(title_len, state_len, columns),
{
    title_len as u128 + state_len as u128 > columns as u128
}

/// Lays out a line of `columns` columns that shows a title of `title_len`
/// bytes and a state of `state_len` bytes. A title that does not fit with
/// the state is cut to leave three columns free before the state; the
/// padding then brings the line to three columns more than `columns`.
pub fn line_layout(title_len: usize, state_len: usize, columns: u16) -> (layout: LineLayout)
    requires
        title_len + state_len <= usize::MAX,
        overflows(title_len, state_len, columns) ==> state_len + 3 <= columns,
    ensures
        !overflows(title_len, state_len, columns) ==> layout.title_len == title_len,
        overflows(title_len, state_len, columns) ==> layout.title_len == columns - state_len - 3,
        layout.padding == columns - layout.title_len - state_len + 3,
        layout.title_len + layout.padding + state_len == columns + 3,
{
    let columns = columns as usize;
    let required_space = title_len + state_len;
    let mut shown = title_len;
    if required_space > columns {
        let max_title = columns - state_len - 3;
        if max_title < shown {
            shown = max_title;
        }
    }
    let available_space = columns - shown - state_len + 3;
    LineLayout { title_len: shown, padding: available_space }
}

} // verus!
