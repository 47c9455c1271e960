//! What holds of permission requests across several callbacks.

use crate::events::EventQueuesModel;
use crate::permission_bits::labels_of;
use crate::permissions::{
    adds_requests, media_recorded, numbered_after, numbered_requests, prompt_recorded,
    prompt_tokens, queued_requests, without_prompt, without_requests, PendingPermissionDecision,
};
use vstd::prelude::*;

verus! {

/// Every pending decision has a number that the counter has passed.
pub open spec fn numbers_used<M, P>(
    pending: Map<u64, PendingPermissionDecision<M, P>>,
    counter: u64,
) -> bool {
    forall|id: u64| #[trigger] pending.contains_key(id) ==> id <= counter
}

/// Every permission request in the queue has a pending decision.
pub open spec fn answerable<M, P>(
    queues: EventQueuesModel,
    pending: Map<u64, PendingPermissionDecision<M, P>>,
) -> bool {
    forall|i: int|
        0 <= i < queues.permission_requests.len() ==> pending.contains_key(
            (#[trigger] queues.permission_requests[i]).request_id,
        )
}

/// Request numbers only rise: the requests of one callback are numbered in
/// order, above every number given before and up to the counter that the
/// callback leaves.
pub proof fn request_numbers_rise(
    labels: Seq<&'static str>,
    url: Seq<char>,
    counter: u64,
    i: int,
    j: int,
)
    requires
        counter + labels.len() <= u64::MAX,
        0 <= i < j < labels.len(),
    ensures
        counter < numbered_requests(labels, url, counter)[i].request_id,
        numbered_requests(labels, url, counter)[i].request_id < numbered_requests(
            labels,
            url,
            counter,
        )[j].request_id,
        numbered_requests(labels, url, counter)[j].request_id <= counter + labels.len(),
{
}

/// Recording requests keeps every pending number at or below the counter,
/// whether the requests could be queued or not.
pub proof fn recording_keeps_numbers_used<M, P>(
    before: Map<u64, PendingPermissionDecision<M, P>>,
    after: Map<u64, PendingPermissionDecision<M, P>>,
    counter: u64,
    n: nat,
)
    requires
        numbers_used(before, counter),
        counter + n <= u64::MAX,
        adds_requests(before, after, counter, n) || after == without_requests(before, counter, n),
    ensures
        numbers_used(after, (counter + n) as u64),
{
    assert forall|id: u64| #[trigger] after.contains_key(id) implies id <= counter + n by {
        assert(before.contains_key(id) || numbered_after(counter, n, id));
    }
}

/// Every pending number lies at or below the counter to begin with, when nothing
/// is pending, and dismissing a prompt keeps it so.
pub proof fn dismissal_keeps_numbers_used<M, P>(
    pending: Map<u64, PendingPermissionDecision<M, P>>,
    counter: u64,
    prompt_id: u64,
)
    ensures
        numbers_used(Map::<u64, PendingPermissionDecision<M, P>>::empty(), counter),
        numbers_used(pending, counter) ==> numbers_used(
            without_prompt(pending, prompt_id),
            counter,
        ),
{
}

/// A request that could not be queued leaves no trace: nothing stays pending
/// that nobody will be asked about.
pub proof fn unqueued_requests_leave_no_trace<M, P>(
    before: Map<u64, PendingPermissionDecision<M, P>>,
    counter: u64,
    n: nat,
)
    requires
        numbers_used(before, counter),
    ensures
        without_requests(before, counter, n) == before,
{
    assert(without_requests(before, counter, n) =~= before);
}

/// Recording requests loses none: every decision that was pending still is,
/// unchanged.
pub proof fn recording_keeps_pending_decisions<M, P>(
    before: Map<u64, PendingPermissionDecision<M, P>>,
    after: Map<u64, PendingPermissionDecision<M, P>>,
    counter: u64,
    n: nat,
)
    requires
        numbers_used(before, counter),
        adds_requests(before, after, counter, n),
    ensures
        before.submap_of(after),
{
    assert forall|id: u64| #[trigger] before.dom().contains(id) implies after.dom().contains(id)
        && after[id] == before[id] by {
        assert(before.contains_key(id));
        assert(after.contains_key(id));
        assert(!numbered_after(counter, n, id));
    }
}

/// Each request that a callback queues comes with its pending decision, so that
/// a queue in which every request can be answered stays one.
pub proof fn queued_requests_are_answerable<M, P>(
    queues: EventQueuesModel,
    before: Map<u64, PendingPermissionDecision<M, P>>,
    after: Map<u64, PendingPermissionDecision<M, P>>,
    labels: Seq<&'static str>,
    url: Seq<char>,
    counter: u64,
)
    requires
        answerable(queues, before),
        counter + labels.len() <= u64::MAX,
        adds_requests(before, after, counter, labels.len()),
    ensures
        answerable(queued_requests(queues, true, labels, url, counter), after),
{
    let later = queued_requests(queues, true, labels, url, counter);
    assert forall|i: int| 0 <= i < later.permission_requests.len() implies after.contains_key(
        (#[trigger] later.permission_requests[i]).request_id,
    ) by {
        let earlier = queues.permission_requests.len();
        if i < earlier {
            assert(later.permission_requests[i] == queues.permission_requests[i]);
            assert(before.contains_key(queues.permission_requests[i].request_id));
        } else {
            assert(later.permission_requests[i] == numbered_requests(labels, url, counter)[i
                - earlier]);
        }
    }
}

/// The bit that a media access request carries under a label is the bit that is
/// recorded under the number of that label's request.
pub proof fn a_media_request_is_recorded_under_its_number<M: Clone, P>(
    before: Map<u64, PendingPermissionDecision<M, P>>,
    after: Map<u64, PendingPermissionDecision<M, P>>,
    entries: Seq<(u32, &'static str)>,
    callback: M,
    token: usize,
    counter: u64,
    url: Seq<char>,
    k: int,
)
    requires
        counter + entries.len() <= u64::MAX,
        media_recorded(before, after, true, entries, callback, token, counter),
        0 <= k < entries.len(),
    ensures
        ({
            let request = numbered_requests(labels_of(entries), url, counter)[k];
            &&& request.permission_type == entries[k].1@
            &&& after.contains_key(request.request_id)
            &&& after[request.request_id] matches PendingPermissionDecision::Media {
                permission_bit,
                ..
            }
            &&& permission_bit == entries[k].0
        }),
{
    let request = numbered_requests(labels_of(entries), url, counter)[k];
    assert(numbered_after(counter, entries.len(), request.request_id));
    assert(after.contains_key(request.request_id));
}

/// Once a prompt is dismissed, no pending decision belongs to it, every other
/// one is still there, and media access requests are not touched.
pub proof fn dismissal_forgets_the_prompt_alone<M, P>(
    pending: Map<u64, PendingPermissionDecision<M, P>>,
    prompt_id: u64,
    id: u64,
)
    requires
        pending.contains_key(id),
    ensures
        without_prompt(pending, prompt_id).contains_key(id) <==> !pending[id].belongs_to_prompt(
            prompt_id,
        ),
        without_prompt(pending, prompt_id).contains_key(id) ==> without_prompt(
            pending,
            prompt_id,
        )[id] == pending[id],
        pending[id] is Media ==> without_prompt(pending, prompt_id).contains_key(id),
{
}

/// Dismissing a prompt a second time changes nothing.
pub proof fn dismissal_is_idempotent<M, P>(
    pending: Map<u64, PendingPermissionDecision<M, P>>,
    prompt_id: u64,
)
    ensures
        without_prompt(without_prompt(pending, prompt_id), prompt_id) == without_prompt(
            pending,
            prompt_id,
        ),
        prompt_tokens(without_prompt(pending, prompt_id), prompt_id) == Set::<usize>::empty(),
{
    let once = without_prompt(pending, prompt_id);
    assert(without_prompt(once, prompt_id) =~= once);
    assert(prompt_tokens(once, prompt_id) =~= Set::<usize>::empty());
}

/// Dismissing a prompt undoes showing it: the decisions are pending again that
/// were pending before, and the callback of the prompt is the one forgotten.
pub proof fn dismissal_undoes_the_prompt<M, P: Clone>(
    before: Map<u64, PendingPermissionDecision<M, P>>,
    after: Map<u64, PendingPermissionDecision<M, P>>,
    labels: Seq<&'static str>,
    callback: P,
    prompt_id: u64,
    token: usize,
    counter: u64,
)
    requires
        numbers_used(before, counter),
        counter + labels.len() <= u64::MAX,
        labels.len() > 0,
        forall|id: u64|
            before.contains_key(id) ==> !(#[trigger] before[id]).belongs_to_prompt(prompt_id),
        prompt_recorded(before, after, true, labels, callback, prompt_id, token, counter),
    ensures
        without_prompt(after, prompt_id) == before,
        prompt_tokens(after, prompt_id) == set![token],
{
    let n = labels.len();
    assert forall|id: u64| #[trigger]
        without_prompt(after, prompt_id).contains_key(id) <==> before.contains_key(id) by {
        if before.contains_key(id) {
            assert(!numbered_after(counter, n, id));
            assert(after.contains_key(id));
            assert(after[id] == before[id]);
        } else if after.contains_key(id) {
            assert(numbered_after(counter, n, id));
            assert(after[id].belongs_to_prompt(prompt_id));
        }
    }
    assert(without_prompt(after, prompt_id) =~= before);
    assert forall|t: usize| prompt_tokens(after, prompt_id).contains(t) <==> t == token by {
        let first = (counter + 1) as u64;
        assert(numbered_after(counter, n, first));
        assert(after.contains_key(first));
        assert(after[first].belongs_to_prompt(prompt_id) && after[first].token() == token);
        if prompt_tokens(after, prompt_id).contains(t) {
            let id = choose|id: u64|
                after.contains_key(id) && (#[trigger] after[id]).belongs_to_prompt(prompt_id)
                    && after[id].token() == t;
            assert(after.contains_key(id));
            if !numbered_after(counter, n, id) {
                assert(before.contains_key(id));
                assert(after[id] == before[id]);
            }
        }
    }
    assert(prompt_tokens(after, prompt_id) =~= set![token]);
}

} // verus!
