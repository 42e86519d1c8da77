use vstd::prelude::*;

use crate::api::MergeRequest;
use crate::merge_queue::{
    at_most_one_running, has_id, ids_unique, EntryView, MergeQueue, QueueEntry, QueueState,
};

verus! {

/// Merge request `k` of the listing enters the queue: no entry is for it,
/// and no earlier merge request of the listing has its number.
pub open spec fn is_new_request(
    entries: Seq<QueueEntry>,
    merge_requests: Seq<MergeRequest>,
    k: int,
) -> bool {
    &&& !has_id(entries, merge_requests[k].iid)
    &&& forall|j: int| 0 <= j < k ==> #[trigger] merge_requests[j].iid != merge_requests[k].iid
}

/// The merge requests of the listing that enter the queue, in the order of
/// the listing.
pub open spec fn new_requests(entries: Seq<QueueEntry>, merge_requests: Seq<MergeRequest>) -> Seq<
    MergeRequest,
>
    decreases merge_requests.len(),
{
    if merge_requests.len() == 0 {
        Seq::empty()
    } else {
        let earlier = new_requests(entries, merge_requests.drop_last());
        if is_new_request(entries, merge_requests, merge_requests.len() - 1) {
            earlier.push(merge_requests.last())
        } else {
            earlier
        }
    }
}

/// Some merge request of the listing has number `id`.
pub open spec fn lists_id(merge_requests: Seq<MergeRequest>, id: u64) -> bool {
    exists|j: int| 0 <= j < merge_requests.len() && #[trigger] merge_requests[j].iid == id
}

/// `after` is `before` with the new merge requests of the listing added at
/// its back, as pending entries, in the order of the listing.
pub open spec fn fetched(
    before: Seq<QueueEntry>,
    merge_requests: Seq<MergeRequest>,
    after: Seq<QueueEntry>,
) -> bool {
    let added = new_requests(before, merge_requests);
    &&& after.len() == before.len() + added.len()
    &&& after.subrange(0, before.len() as int) == before
    &&& forall|i: int|
        0 <= i < added.len() ==> #[trigger] after[before.len() + i]@ == EntryView::spec_from(
            added[i],
            after[before.len() + i]@.last_state_change,
        )
    &&& forall|id: u64| has_id(after, id) <==> has_id(before, id) || lists_id(merge_requests, id)
}

/// Adds the merge requests of a listing that the queue does not hold yet
/// at its back, as pending entries, in the order of the listing. Entries
/// already in the queue stay as they are.
pub fn fetch_merge_requests(queue: &mut MergeQueue, merge_requests: Vec<MergeRequest>)
    ensures
        fetched(old(queue).entries(), merge_requests@, final(queue).entries()),
        old(queue).well_formed() ==> final(queue).well_formed(),
{
    let ghost before = queue.entries();
    let n = merge_requests.len();
    let mut k: usize = 0;
    while k < n
        invariant
            n == merge_requests@.len(),
            k <= n,
            ({
                let after = queue.entries();
                let added = new_requests(before, merge_requests@.take(k as int));
                &&& after.len() == before.len() + added.len()
                &&& after.subrange(0, before.len() as int) == before
                &&& forall|i: int|
                    0 <= i < added.len() ==> #[trigger] after[before.len() + i]@ == EntryView::spec_from(
                        added[i],
                        after[before.len() + i]@.last_state_change,
                    )
                &&& forall|id: u64|
                    has_id(after, id) <==> has_id(before, id) || lists_id(
                        merge_requests@.take(k as int),
                        id,
                    )
                &&& (ids_unique(before) ==> ids_unique(after))
                &&& (at_most_one_running(before) ==> at_most_one_running(after))
            }),
        decreases n - k,
    {
        let ghost current = queue.entries();
        let ghost listed = merge_requests@.take(k as int);
        let ghost next_listed = merge_requests@.take(k + 1);
        let iid = merge_requests[k].iid;
        let present = queue.contains_merge_request(iid);
        proof {
            assert(next_listed.drop_last() == listed);
            assert(next_listed.last() == merge_requests@[k as int]);
            assert(forall|j: int| 0 <= j <= k ==> #[trigger] next_listed[j] == merge_requests@[j]);
            assert(is_new_request(before, next_listed, k as int) == is_new_request(
                before,
                merge_requests@,
                k as int,
            )) by {
                if is_new_request(before, merge_requests@, k as int) {
                    assert forall|j: int| 0 <= j < k implies #[trigger] next_listed[j].iid
                        != next_listed[k as int].iid by {
                        assert(next_listed[j] == merge_requests@[j]);
                    }
                }
                if is_new_request(before, next_listed, k as int) {
                    assert forall|j: int| 0 <= j < k implies #[trigger] merge_requests@[j].iid
                        != merge_requests@[k as int].iid by {
                        assert(next_listed[j] == merge_requests@[j]);
                    }
                }
            }
            assert(present == !is_new_request(before, merge_requests@, k as int)) by {
                if lists_id(listed, iid) {
                    let j = choose|j: int| 0 <= j < listed.len() && #[trigger] listed[j].iid == iid;
                    assert(merge_requests@[j].iid == iid);
                }
                if exists|j: int| 0 <= j < k && #[trigger] merge_requests@[j].iid == iid {
                    let j = choose|j: int| 0 <= j < k && #[trigger] merge_requests@[j].iid == iid;
                    assert(listed[j].iid == iid);
                }
            }
            assert forall|id: u64| lists_id(next_listed, id) <==> lists_id(listed, id) || id
                == iid by {
                if lists_id(next_listed, id) {
                    let j = choose|j: int| 0 <= j < next_listed.len() && #[trigger] next_listed[j].iid == id;
                    if j < k {
                        assert(listed[j].iid == id);
                    }
                }
                if lists_id(listed, id) {
                    let j = choose|j: int| 0 <= j < listed.len() && #[trigger] listed[j].iid == id;
                    assert(next_listed[j].iid == id);
                }
                if id == iid {
                    assert(next_listed[k as int].iid == id);
                }
            }
        }
        if !present {
            let merge_request = MergeRequest {
                title: merge_requests[k].title.clone(),
                iid,
                project_id: merge_requests[k].project_id,
                updated_at: merge_requests[k].updated_at,
            };
            assert(merge_request == merge_requests@[k as int]);
            let entry = QueueEntry::from(merge_request);
            queue.merge_requests.push_back(entry);
            proof {
                let after = queue.entries();
                assert(after.drop_last() == current);
                assert(after[current.len() as int]@.merge_request_id == iid);
                assert(after.subrange(0, before.len() as int) == current.subrange(
                    0,
                    before.len() as int,
                ));
                assert forall|id: u64| has_id(after, id) <==> has_id(current, id) || id == iid by {
                    if has_id(after, id) {
                        let i = choose|i: int| 0 <= i < after.len() && #[trigger] after[i]@.merge_request_id == id;
                        if i < current.len() {
                            assert(current[i]@.merge_request_id == id);
                        }
                    }
                    if has_id(current, id) {
                        let i = choose|i: int| 0 <= i < current.len() && #[trigger] current[i]@.merge_request_id == id;
                        assert(after[i]@.merge_request_id == id);
                    }
                }
                assert(forall|i: int|
                    0 <= i < current.len() ==> #[trigger] current[i]@.merge_request_id != iid);
            }
        } else {
            proof {
                assert(forall|id: u64| has_id(current, id) <==> has_id(current, id) || id == iid);
            }
        }
        k += 1;
    }
    proof {
        assert(merge_requests@.take(n as int) == merge_requests@);
    }
}

/// A listing with one more merge request at its end adds that merge
/// request after the others exactly when neither the queue nor the rest of
/// the listing holds its number; otherwise it adds the same as before.
pub proof fn lemma_one_more_listed_request(
    entries: Seq<QueueEntry>,
    merge_requests: Seq<MergeRequest>,
    merge_request: MergeRequest,
)
    ensures
        !has_id(entries, merge_request.iid) && !lists_id(merge_requests, merge_request.iid)
            ==> new_requests(entries, merge_requests.push(merge_request)) == new_requests(
            entries,
            merge_requests,
        ).push(merge_request),
        has_id(entries, merge_request.iid) || lists_id(merge_requests, merge_request.iid)
            ==> new_requests(entries, merge_requests.push(merge_request)) == new_requests(
            entries,
            merge_requests,
        ),
{
    let longer = merge_requests.push(merge_request);
    assert(longer.drop_last() == merge_requests);
    assert(longer.last() == merge_request);
    let k = merge_requests.len() as int;
    if lists_id(merge_requests, merge_request.iid) {
        let j = choose|j: int|
            0 <= j < merge_requests.len() && #[trigger] merge_requests[j].iid == merge_request.iid;
        assert(longer[j].iid == longer[k].iid);
    }
    if !is_new_request(entries, longer, k) && !has_id(entries, merge_request.iid) {
        let j = choose|j: int| 0 <= j < k && #[trigger] longer[j].iid == longer[k].iid;
        assert(merge_requests[j].iid == merge_request.iid);
    }
}

/// Fetching a listing again adds nothing: once the queue holds every merge
/// request of a listing, none of them is new to it.
pub proof fn lemma_fetch_is_idempotent(entries: Seq<QueueEntry>, merge_requests: Seq<MergeRequest>)
    requires
        forall|id: u64| lists_id(merge_requests, id) ==> has_id(entries, id),
    ensures
        new_requests(entries, merge_requests).len() == 0,
    decreases merge_requests.len(),
{
    if merge_requests.len() > 0 {
        let earlier = merge_requests.drop_last();
        assert forall|id: u64| lists_id(earlier, id) implies has_id(entries, id) by {
            let j = choose|j: int| 0 <= j < earlier.len() && #[trigger] earlier[j].iid == id;
            assert(merge_requests[j].iid == id);
        }
        lemma_fetch_is_idempotent(entries, earlier);
        let last = merge_requests.len() - 1;
        assert(merge_requests[last].iid == merge_requests[last].iid);
        assert(lists_id(merge_requests, merge_requests[last].iid));
    }
}

/// The merge requests that a listing adds to a queue are new to it and
/// pairwise distinct.
pub proof fn lemma_new_requests_are_distinct(entries: Seq<QueueEntry>, merge_requests: Seq<MergeRequest>)
    ensures
        forall|i: int|
            0 <= i < new_requests(entries, merge_requests).len() ==> !has_id(
                entries,
                #[trigger] new_requests(entries, merge_requests)[i].iid,
            ),
        forall|i: int, j: int|
            0 <= i < j < new_requests(entries, merge_requests).len() ==> #[trigger] new_requests(
                entries,
                merge_requests,
            )[i].iid != #[trigger] new_requests(entries, merge_requests)[j].iid,
        forall|i: int|
            0 <= i < new_requests(entries, merge_requests).len() ==> lists_id(
                merge_requests,
                #[trigger] new_requests(entries, merge_requests)[i].iid,
            ),
    decreases merge_requests.len(),
{
    if merge_requests.len() > 0 {
        let earlier = merge_requests.drop_last();
        lemma_new_requests_are_distinct(entries, earlier);
        let added = new_requests(entries, merge_requests);
        let before = new_requests(entries, earlier);
        let last = merge_requests.len() - 1;
        assert forall|i: int| 0 <= i < before.len() implies lists_id(merge_requests, #[trigger] before[i].iid) by {
            let j = choose|j: int| 0 <= j < earlier.len() && #[trigger] earlier[j].iid == before[i].iid;
            assert(merge_requests[j].iid == before[i].iid);
        }
        if is_new_request(entries, merge_requests, last) {
            assert(added == before.push(merge_requests[last]));
            assert(merge_requests[last].iid == merge_requests[last].iid);
            assert forall|i: int| 0 <= i < before.len() implies #[trigger] before[i].iid != merge_requests[last].iid by {
                let j = choose|j: int| 0 <= j < earlier.len() && #[trigger] earlier[j].iid == before[i].iid;
                assert(merge_requests[j].iid == earlier[j].iid);
            }
        }
    }
}

} // verus!
