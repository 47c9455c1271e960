//! What each permission callback answers, numbers, records and queues.

use crate::events::{EventQueues, EventQueuesModel};
use crate::permission_bits::{media_entries, prompt_labels};
use crate::permissions::{
    on_dismiss_permission_prompt, on_request_media_access_permission, on_show_permission_prompt,
    push_permission_request, MediaAccessReply, PendingPermissionAggregates,
    PendingPermissionDecision, PendingPermissionRequests, PromptAnswer, PromptReply, ALLOW_ALL,
    DENY_ALL,
};
use crate::view_laws::the_newest_events_are_seen_as_they_are;
use vstd::prelude::*;

verus! {

/// The policies keep the numbers that the host sets them by: permissions are
/// refused under 0 and granted under 1.
pub proof fn permission_policies_have_their_numbers(policy: i32)
    ensures
        policy == DENY_ALL <==> policy == 0,
        policy == ALLOW_ALL <==> policy == 1,
{
}

/// A request that is recorded and queued takes the next number: under that number
/// its decision is pending, beside all others, and under that number it is the
/// newest request, with its own label and origin.
pub proof fn a_request_takes_the_next_number<M, P>(
    queues: &mut EventQueues,
    pending: &mut PendingPermissionRequests<M, P>,
    counter: &mut u64,
    decision: PendingPermissionDecision<M, P>,
    permission_type: String,
    url: String,
    id: u64,
)
    requires
        call_ensures(
            push_permission_request::<M, P>,
            (Some(queues), Some(pending), counter, decision, permission_type, url),
            (),
        ),
    ensures
        *final(counter) == *old(counter) + 1,
        final(pending)@.contains_key(*final(counter)),
        final(pending)@[*final(counter)] == decision,
        id != *final(counter) ==> (final(pending)@.contains_key(id) <==> old(pending)@.contains_key(
            id,
        )),
        id != *final(counter) && old(pending)@.contains_key(id) ==> final(pending)@[id] == old(
            pending,
        )@[id],
        ({
            let before = old(queues)@;
            let after = final(queues)@;
            let newest = final(queues).permission_requests@.last();
            &&& after == (EventQueuesModel {
                permission_requests: after.permission_requests,
                ..before
            })
            &&& after.permission_requests.len() == before.permission_requests.len() + 1
            &&& before.permission_requests.is_prefix_of(after.permission_requests)
            &&& newest.request_id == *final(counter)
            &&& newest.permission_type@ == permission_type@
            &&& newest.url@ == url@
        }),
{
    the_newest_events_are_seen_as_they_are(*final(queues));
}

/// A request that cannot be queued is not left pending, one that cannot be
/// recorded is not queued, and the number is used up in either case.
pub proof fn a_failed_request_leaves_nothing<M, P>(
    queues: Option<&mut EventQueues>,
    pending: Option<&mut PendingPermissionRequests<M, P>>,
    counter: &mut u64,
    decision: PendingPermissionDecision<M, P>,
    permission_type: String,
    url: String,
    id: u64,
)
    requires
        queues is None || pending is None,
        call_ensures(
            push_permission_request::<M, P>,
            (queues, pending, counter, decision, permission_type, url),
            (),
        ),
    ensures
        *final(counter) == *old(counter) + 1,
        queues matches Some(q) ==> final(q)@ == q@,
        pending matches Some(p) ==> {
            &&& !final(p)@.contains_key(*final(counter))
            &&& id != *final(counter) ==> (final(p)@.contains_key(id) <==> p@.contains_key(id))
            &&& id != *final(counter) && p@.contains_key(id) ==> final(p)@[id] == p@[id]
        },
{
}

/// A media access request without a callback is not handled. With one, the
/// granting policy grants what was asked for, the refusing policy grants nothing,
/// and any other leaves the answer to the host.
pub proof fn a_media_request_is_answered<M: Clone, P>(
    policy: i32,
    origin: Option<String>,
    requested: u32,
    callback: Option<&M>,
    token: usize,
    counter: &mut u64,
    pending: Option<&mut PendingPermissionRequests<M, P>>,
    queues: Option<&mut EventQueues>,
    reply: MediaAccessReply,
)
    requires
        call_ensures(
            on_request_media_access_permission::<M, P>,
            (policy, origin, requested, callback, token, counter, pending, queues),
            reply,
        ),
    ensures
        reply.handled <==> callback is Some,
        callback is Some && policy == ALLOW_ALL ==> reply.grant == Some(requested),
        callback is Some && policy == DENY_ALL ==> reply.grant == Some(0u32),
        callback is None || (policy != ALLOW_ALL && policy != DENY_ALL) ==> reply.grant is None,
{
}

/// A media access request that is answered at once, or that has no callback,
/// numbers, records and queues nothing.
pub proof fn an_answered_media_request_is_not_queued<M: Clone, P>(
    policy: i32,
    origin: Option<String>,
    requested: u32,
    callback: Option<&M>,
    token: usize,
    counter: &mut u64,
    pending: Option<&mut PendingPermissionRequests<M, P>>,
    queues: Option<&mut EventQueues>,
    reply: MediaAccessReply,
)
    requires
        callback is None || policy == ALLOW_ALL || policy == DENY_ALL,
        call_ensures(
            on_request_media_access_permission::<M, P>,
            (policy, origin, requested, callback, token, counter, pending, queues),
            reply,
        ),
    ensures
        *final(counter) == *old(counter),
        pending matches Some(p) ==> final(p)@ == p@,
        queues matches Some(q) ==> final(q)@ == q@,
{
}

/// A media access request that is left to the host becomes one request for each
/// of its entries: the `k`th takes the `k`th number behind the counter, is queued
/// behind what waited, under the label of its entry and with the origin, and the
/// decision under its number is for the bit of that entry and for this callback.
pub proof fn a_media_request_is_left_to_the_host<M: Clone, P>(
    policy: i32,
    origin: Option<String>,
    requested: u32,
    callback: &M,
    token: usize,
    counter: &mut u64,
    pending: &mut PendingPermissionRequests<M, P>,
    queues: &mut EventQueues,
    reply: MediaAccessReply,
    k: int,
)
    requires
        policy != ALLOW_ALL && policy != DENY_ALL,
        *old(counter) + media_entries(requested).len() <= u64::MAX,
        call_ensures(
            on_request_media_access_permission::<M, P>,
            (
                policy,
                origin,
                requested,
                Some(callback),
                token,
                counter,
                Some(pending),
                Some(queues),
            ),
            reply,
        ),
        0 <= k < media_entries(requested).len(),
    ensures
        *final(counter) == *old(counter) + media_entries(requested).len(),
        ({
            let before = old(queues)@;
            let after = final(queues)@;
            let entry = media_entries(requested)[k];
            let number = (*old(counter) + k + 1) as u64;
            let request = after.permission_requests[before.permission_requests.len() + k];
            &&& after == (EventQueuesModel {
                permission_requests: after.permission_requests,
                ..before
            })
            &&& after.permission_requests.len() == before.permission_requests.len()
                + media_entries(requested).len()
            &&& before.permission_requests.is_prefix_of(after.permission_requests)
            &&& request.request_id == number
            &&& request.permission_type == entry.1@
            &&& origin is Some ==> request.url == origin->0@
            &&& origin is None ==> request.url.len() == 0
            &&& final(pending)@.contains_key(number)
            &&& final(pending)@[number] matches PendingPermissionDecision::Media {
                callback: copy,
                permission_bit,
                callback_token,
            }
            &&& permission_bit == entry.0
            &&& callback_token == token
            &&& cloned(*callback, copy)
        }),
{
    let before = old(queues)@.permission_requests;
    let number = (*old(counter) + k + 1) as u64;
    assert(crate::permissions::numbered_after(
        *old(counter),
        media_entries(requested).len(),
        number,
    ));
    assert(final(pending)@.contains_key(number));
    assert(before.is_prefix_of(final(queues)@.permission_requests));
}

/// What was pending before a media access request is pending after it, and
/// nothing else is but the numbers of the request.
pub proof fn a_media_request_keeps_what_was_pending<M: Clone, P>(
    policy: i32,
    origin: Option<String>,
    requested: u32,
    callback: &M,
    token: usize,
    counter: &mut u64,
    pending: &mut PendingPermissionRequests<M, P>,
    queues: Option<&mut EventQueues>,
    reply: MediaAccessReply,
    id: u64,
)
    requires
        policy != ALLOW_ALL && policy != DENY_ALL,
        call_ensures(
            on_request_media_access_permission::<M, P>,
            (policy, origin, requested, Some(callback), token, counter, Some(pending), queues),
            reply,
        ),
        id <= *old(counter) || id > *old(counter) + media_entries(requested).len(),
    ensures
        final(pending)@.contains_key(id) <==> old(pending)@.contains_key(id),
        old(pending)@.contains_key(id) ==> final(pending)@[id] == old(pending)@[id],
{
    assert(!crate::permissions::numbered_after(
        *old(counter),
        media_entries(requested).len(),
        id,
    ));
    if old(pending)@.contains_key(id) {
        assert(final(pending)@.contains_key(id));
    }
}

/// A media access request that cannot be queued leaves none of its numbers
/// pending, one that cannot be recorded queues nothing, and its numbers are used
/// up in either case.
pub proof fn a_failed_media_request_leaves_nothing<M: Clone, P>(
    policy: i32,
    origin: Option<String>,
    requested: u32,
    callback: &M,
    token: usize,
    counter: &mut u64,
    pending: Option<&mut PendingPermissionRequests<M, P>>,
    queues: Option<&mut EventQueues>,
    reply: MediaAccessReply,
    id: u64,
)
    requires
        policy != ALLOW_ALL && policy != DENY_ALL,
        pending is None || queues is None,
        call_ensures(
            on_request_media_access_permission::<M, P>,
            (policy, origin, requested, Some(callback), token, counter, pending, queues),
            reply,
        ),
    ensures
        *final(counter) == *old(counter) + media_entries(requested).len(),
        queues matches Some(q) ==> final(q)@ == q@,
        *old(counter) < id <= *old(counter) + media_entries(requested).len() ==> (
        pending matches Some(p) ==> !final(p)@.contains_key(id)),
{
}

/// A permission prompt without a callback is not handled. With one, the granting
/// policy accepts it, the refusing policy denies it, and any other leaves the
/// answer to the host.
pub proof fn a_prompt_is_answered<M, P: Clone>(
    policy: i32,
    prompt_id: u64,
    origin: Option<String>,
    requested: u32,
    callback: Option<&P>,
    token: usize,
    counter: &mut u64,
    pending: Option<&mut PendingPermissionRequests<M, P>>,
    queues: Option<&mut EventQueues>,
    reply: PromptReply,
)
    requires
        call_ensures(
            on_show_permission_prompt::<M, P>,
            (policy, prompt_id, origin, requested, callback, token, counter, pending, queues),
            reply,
        ),
    ensures
        reply.handled <==> callback is Some,
        callback is Some && policy == ALLOW_ALL ==> reply.answer == Some(PromptAnswer::Accept),
        callback is Some && policy == DENY_ALL ==> reply.answer == Some(PromptAnswer::Deny),
        callback is None || (policy != ALLOW_ALL && policy != DENY_ALL) ==> reply.answer is None,
{
}

/// A permission prompt that is answered at once, or that has no callback,
/// numbers, records and queues nothing.
pub proof fn an_answered_prompt_is_not_queued<M, P: Clone>(
    policy: i32,
    prompt_id: u64,
    origin: Option<String>,
    requested: u32,
    callback: Option<&P>,
    token: usize,
    counter: &mut u64,
    pending: Option<&mut PendingPermissionRequests<M, P>>,
    queues: Option<&mut EventQueues>,
    reply: PromptReply,
)
    requires
        callback is None || policy == ALLOW_ALL || policy == DENY_ALL,
        call_ensures(
            on_show_permission_prompt::<M, P>,
            (policy, prompt_id, origin, requested, callback, token, counter, pending, queues),
            reply,
        ),
    ensures
        *final(counter) == *old(counter),
        pending matches Some(p) ==> final(p)@ == p@,
        queues matches Some(q) ==> final(q)@ == q@,
{
}

/// A permission prompt that is left to the host becomes one request for each of
/// its labels: the `k`th takes the `k`th number behind the counter, is queued
/// behind what waited, under its label and with the origin, and the decision under
/// its number is for this prompt and this callback.
pub proof fn a_prompt_is_left_to_the_host<M, P: Clone>(
    policy: i32,
    prompt: u64,
    origin: Option<String>,
    requested: u32,
    callback: &P,
    token: usize,
    counter: &mut u64,
    pending: &mut PendingPermissionRequests<M, P>,
    queues: &mut EventQueues,
    reply: PromptReply,
    k: int,
)
    requires
        policy != ALLOW_ALL && policy != DENY_ALL,
        *old(counter) + prompt_labels(requested).len() <= u64::MAX,
        call_ensures(
            on_show_permission_prompt::<M, P>,
            (
                policy,
                prompt,
                origin,
                requested,
                Some(callback),
                token,
                counter,
                Some(pending),
                Some(queues),
            ),
            reply,
        ),
        0 <= k < prompt_labels(requested).len(),
    ensures
        *final(counter) == *old(counter) + prompt_labels(requested).len(),
        ({
            let before = old(queues)@;
            let after = final(queues)@;
            let number = (*old(counter) + k + 1) as u64;
            let request = after.permission_requests[before.permission_requests.len() + k];
            &&& after == (EventQueuesModel {
                permission_requests: after.permission_requests,
                ..before
            })
            &&& after.permission_requests.len() == before.permission_requests.len()
                + prompt_labels(requested).len()
            &&& before.permission_requests.is_prefix_of(after.permission_requests)
            &&& request.request_id == number
            &&& request.permission_type == prompt_labels(requested)[k]@
            &&& origin is Some ==> request.url == origin->0@
            &&& origin is None ==> request.url.len() == 0
            &&& final(pending)@.contains_key(number)
            &&& final(pending)@[number] matches PendingPermissionDecision::Prompt {
                callback: copy,
                prompt_id,
                callback_token,
            }
            &&& prompt_id == prompt
            &&& callback_token == token
            &&& cloned(*callback, copy)
        }),
{
    let before = old(queues)@.permission_requests;
    let number = (*old(counter) + k + 1) as u64;
    assert(crate::permissions::numbered_after(
        *old(counter),
        prompt_labels(requested).len(),
        number,
    ));
    assert(final(pending)@.contains_key(number));
    assert(before.is_prefix_of(final(queues)@.permission_requests));
}

/// What was pending before a permission prompt is pending after it, and nothing
/// else is but the numbers of the prompt.
pub proof fn a_prompt_keeps_what_was_pending<M, P: Clone>(
    policy: i32,
    prompt_id: u64,
    origin: Option<String>,
    requested: u32,
    callback: &P,
    token: usize,
    counter: &mut u64,
    pending: &mut PendingPermissionRequests<M, P>,
    queues: Option<&mut EventQueues>,
    reply: PromptReply,
    id: u64,
)
    requires
        policy != ALLOW_ALL && policy != DENY_ALL,
        call_ensures(
            on_show_permission_prompt::<M, P>,
            (
                policy,
                prompt_id,
                origin,
                requested,
                Some(callback),
                token,
                counter,
                Some(pending),
                queues,
            ),
            reply,
        ),
        id <= *old(counter) || id > *old(counter) + prompt_labels(requested).len(),
    ensures
        final(pending)@.contains_key(id) <==> old(pending)@.contains_key(id),
        old(pending)@.contains_key(id) ==> final(pending)@[id] == old(pending)@[id],
{
    assert(!crate::permissions::numbered_after(
        *old(counter),
        prompt_labels(requested).len(),
        id,
    ));
    if old(pending)@.contains_key(id) {
        assert(final(pending)@.contains_key(id));
    }
}

/// A permission prompt that cannot be queued leaves none of its numbers pending,
/// one that cannot be recorded queues nothing, and its numbers are used up in
/// either case.
pub proof fn a_failed_prompt_leaves_nothing<M, P: Clone>(
    policy: i32,
    prompt_id: u64,
    origin: Option<String>,
    requested: u32,
    callback: &P,
    token: usize,
    counter: &mut u64,
    pending: Option<&mut PendingPermissionRequests<M, P>>,
    queues: Option<&mut EventQueues>,
    reply: PromptReply,
    id: u64,
)
    requires
        policy != ALLOW_ALL && policy != DENY_ALL,
        pending is None || queues is None,
        call_ensures(
            on_show_permission_prompt::<M, P>,
            (policy, prompt_id, origin, requested, Some(callback), token, counter, pending, queues),
            reply,
        ),
    ensures
        *final(counter) == *old(counter) + prompt_labels(requested).len(),
        queues matches Some(q) ==> final(q)@ == q@,
        *old(counter) < id <= *old(counter) + prompt_labels(requested).len() ==> (
        pending matches Some(p) ==> !final(p)@.contains_key(id)),
{
}

/// A dismissed prompt takes exactly its own decisions with it: what is pending
/// for another prompt or for a media access request stays, unchanged.
pub proof fn a_dismissed_prompt_takes_its_decisions<M, P, A>(
    prompt: u64,
    pending: &mut PendingPermissionRequests<M, P>,
    aggregates: Option<&mut PendingPermissionAggregates<A>>,
    id: u64,
)
    requires
        call_ensures(
            on_dismiss_permission_prompt::<M, P, A>,
            (prompt, Some(pending), aggregates),
            (),
        ),
    ensures
        !old(pending)@.contains_key(id) ==> !final(pending)@.contains_key(id),
        old(pending)@.contains_key(id) ==> match old(pending)@[id] {
            PendingPermissionDecision::Prompt { prompt_id, .. } => final(pending)@.contains_key(id)
                <==> prompt_id != prompt,
            PendingPermissionDecision::Media { .. } => final(pending)@.contains_key(id),
        },
        final(pending)@.contains_key(id) ==> final(pending)@[id] == old(pending)@[id],
{
}

/// A dismissed prompt takes with it what was decided of its own callbacks, and
/// nothing of any other.
pub proof fn a_dismissed_prompt_takes_its_callbacks<M, P, A>(
    prompt: u64,
    pending: &mut PendingPermissionRequests<M, P>,
    aggregates: &mut PendingPermissionAggregates<A>,
    token: usize,
)
    requires
        call_ensures(
            on_dismiss_permission_prompt::<M, P, A>,
            (prompt, Some(pending), Some(aggregates)),
            (),
        ),
    ensures
        final(aggregates)@.contains_key(token) <==> old(aggregates)@.contains_key(token) && !(
        exists|id: u64|
            old(pending)@.contains_key(id) && (#[trigger] old(pending)@[id] matches
                PendingPermissionDecision::Prompt { prompt_id, callback_token, .. } && prompt_id
                == prompt && callback_token == token)),
        final(aggregates)@.contains_key(token) ==> final(aggregates)@[token] == old(
            aggregates,
        )@[token],
{
}

/// Where the pending decisions cannot be read, a dismissal changes nothing.
pub proof fn a_dismissal_in_the_dark_changes_nothing<M, P, A>(
    prompt: u64,
    aggregates: &mut PendingPermissionAggregates<A>,
)
    requires
        call_ensures(
            on_dismiss_permission_prompt::<M, P, A>,
            (prompt, None, Some(aggregates)),
            (),
        ),
    ensures
        final(aggregates)@ == old(aggregates)@,
{
}

} // verus!
