//! Permission requests: what a policy answers at once, what is left to the
//! host, and how a request waits for its answer.

use crate::codes::{media_permission_to_u32, MediaPermission};
use crate::events::{
    string_or_empty, text_or_empty, EventQueues, EventQueuesModel, PermissionRequestEvent,
};
use crate::permission_bits::{
    labels_of, map_media_permission_types, map_prompt_permission_types, media_entries,
    prompt_labels,
};
use std::collections::HashMap;
use vstd::prelude::*;

verus! {

/// The policy that refuses every permission.
pub const DENY_ALL: i32 = 0;

/// The policy that grants every permission. Any policy but this one and
/// `DENY_ALL` leaves the decision to the host.
pub const ALLOW_ALL: i32 = 1;

/// How to pass on the host's decision about one permission. `M` and `P` are the
/// callbacks of media access requests and of permission prompts.
#[allow(inconsistent_fields)]
#[derive(Debug, PartialEq)]
pub enum PendingPermissionDecision<M, P> {
    /// One bit of a media access request.
    Media { callback: M, permission_bit: u32, callback_token: usize },
    /// One label of a permission prompt.
    Prompt { callback: P, prompt_id: u64, callback_token: usize },
}

/// The decisions that the host owes, by request number.
pub type PendingPermissionRequests<M, P> = HashMap<u64, PendingPermissionDecision<M, P>>;

/// What has been decided of each callback so far, by callback token.
pub type PendingPermissionAggregates<A> = HashMap<usize, A>;

impl<M, P> PendingPermissionDecision<M, P> {
    /// This decision belongs to the prompt.
    pub open spec fn belongs_to_prompt(self, id: u64) -> bool {
        self matches PendingPermissionDecision::Prompt { prompt_id, .. } && prompt_id == id
    }

    /// The token of the callback that waits for this decision.
    pub open spec fn token(self) -> usize {
        match self {
            PendingPermissionDecision::Media { callback_token, .. } => callback_token,
            PendingPermissionDecision::Prompt { callback_token, .. } => callback_token,
        }
    }
}

/// The pending decisions that do not belong to the prompt.
pub open spec fn without_prompt<M, P>(
    pending: Map<u64, PendingPermissionDecision<M, P>>,
    prompt_id: u64,
) -> Map<u64, PendingPermissionDecision<M, P>> {
    pending.filter_keys(|request_id: u64| !pending[request_id].belongs_to_prompt(prompt_id))
}

/// The callback tokens of the pending decisions that belong to the prompt.
pub open spec fn prompt_tokens<M, P>(
    pending: Map<u64, PendingPermissionDecision<M, P>>,
    prompt_id: u64,
) -> Set<usize> {
    Set::new(
        |token: usize|
            exists|request_id: u64|
                pending.contains_key(request_id) && (
                #[trigger] pending[request_id]).belongs_to_prompt(prompt_id)
                    && pending[request_id].token() == token,
    )
}

/// A request of the prompt, and the token of its callback.
spec fn collected<M, P>(
    pending: Map<u64, PendingPermissionDecision<M, P>>,
    prompt_id: u64,
    request_id: u64,
    token: usize,
) -> bool {
    &&& pending.contains_key(request_id)
    &&& pending[request_id].belongs_to_prompt(prompt_id)
    &&& pending[request_id].token() == token
}

/// Forgets the pending decisions of a prompt and returns the tokens of their
/// callbacks.
fn forget_prompt<M, P>(
    pending: &mut PendingPermissionRequests<M, P>,
    prompt_id: u64,
) -> (callback_tokens: Vec<usize>)
    ensures
        final(pending)@ == without_prompt(old(pending)@, prompt_id),
        callback_tokens@.to_set() == prompt_tokens(old(pending)@, prompt_id),
{
    let mut callback_tokens: Vec<usize> = Vec::new();
    let mut request_ids: Vec<u64> = Vec::new();
    for entry in it: pending.iter()
        invariant
            request_ids@.len() == callback_tokens@.len(),
            forall|i: int|
                0 <= i < it.index() && (#[trigger] it.seq()[i]).1.belongs_to_prompt(prompt_id)
                    ==> request_ids@.contains(*it.seq()[i].0),
            forall|j: int|
                0 <= j < request_ids@.len() ==> collected(
                    pending@,
                    prompt_id,
                    #[trigger] request_ids@[j],
                    callback_tokens@[j],
                ),
    {
        let (request_id, decision) = entry;
        let ghost before = request_ids@;
        match decision {
            PendingPermissionDecision::Prompt { prompt_id: id, callback_token, .. } => {
                if *id == prompt_id {
                    callback_tokens.push(*callback_token);
                    request_ids.push(*request_id);
                    assert(request_ids@[before.len() as int] == *request_id);
                }
            },
            PendingPermissionDecision::Media { .. } => {},
        }
        assert forall|id: u64| before.contains(id) implies request_ids@.contains(id) by {
            let j = choose|j: int| 0 <= j < before.len() && before[j] == id;
            assert(request_ids@[j] == id);
        }
    }
    let ghost before = pending@;
    assert(before == old(pending)@);
    assert(forall|id: u64|
        before.contains_key(id) && (#[trigger] before[id]).belongs_to_prompt(prompt_id)
            ==> request_ids@.contains(id));
    let mut i: usize = 0;
    while i < request_ids.len()
        invariant
            i <= request_ids@.len(),
            forall|id: u64| #[trigger]
                pending@.contains_key(id) <==> before.contains_key(id) && !request_ids@.take(
                    i as int,
                ).contains(id),
            forall|id: u64| #[trigger] pending@.contains_key(id) ==> pending@[id] == before[id],
        decreases request_ids@.len() - i,
    {
        let ghost gone = request_ids@.take(i as int);
        pending.remove(&request_ids[i]);
        proof {
            let next = request_ids@.take(i + 1);
            assert(next =~= gone.push(request_ids@[i as int]));
            assert forall|id: u64|
                next.contains(id) <==> gone.contains(id) || id == request_ids@[i as int] by {
                if gone.contains(id) {
                    let k = choose|k: int| 0 <= k < gone.len() && gone[k] == id;
                    assert(next[k] == id);
                }
                assert(next[i as int] == request_ids@[i as int]);
            }
        }
        i = i + 1;
    }
    proof {
        assert(request_ids@.take(i as int) =~= request_ids@);
        assert forall|id: u64| #[trigger]
            pending@.contains_key(id) <==> before.contains_key(id)
                && !before[id].belongs_to_prompt(prompt_id) by {
            if request_ids@.contains(id) {
                let j = choose|j: int| 0 <= j < request_ids@.len() && request_ids@[j] == id;
                assert(collected(before, prompt_id, request_ids@[j], callback_tokens@[j]));
            }
        }
        assert(pending@ =~= without_prompt(before, prompt_id));
        assert forall|token: usize|
            callback_tokens@.to_set().contains(token) <==> prompt_tokens(
                before,
                prompt_id,
            ).contains(token) by {
            if callback_tokens@.contains(token) {
                let j = choose|j: int| 0 <= j < callback_tokens@.len() && callback_tokens@[j] == token;
                assert(collected(before, prompt_id, request_ids@[j], callback_tokens@[j]));
            }
            if prompt_tokens(before, prompt_id).contains(token) {
                let id = choose|id: u64|
                    before.contains_key(id) && (#[trigger] before[id]).belongs_to_prompt(prompt_id)
                        && before[id].token() == token;
                let j = choose|j: int| 0 <= j < request_ids@.len() && request_ids@[j] == id;
                assert(collected(before, prompt_id, request_ids@[j], callback_tokens@[j]));
                assert(callback_tokens@[j] == token);
            }
        }
        assert(callback_tokens@.to_set() =~= prompt_tokens(before, prompt_id));
    }
    callback_tokens
}

/// Numbers a permission request, records how to pass on its decision, and
/// queues it for the host.
///
/// A request that cannot be recorded is dropped, and one that cannot be queued
/// is not left pending. Its number is used up in either case.
pub fn push_permission_request<M, P>(
    event_queues: Option<&mut EventQueues>,
    pending_permission_requests: Option<&mut PendingPermissionRequests<M, P>>,
    permission_request_counter: &mut u64,
    pending_decision: PendingPermissionDecision<M, P>,
    permission_type: String,
    url: String,
)
    requires
        *old(permission_request_counter) < u64::MAX,
    ensures
        *final(permission_request_counter) == *old(permission_request_counter) + 1,
        event_queues matches Some(queues) ==> final(queues)@ == (
        if pending_permission_requests is Some {
            queues@.with_permission_request(
                PermissionRequestEvent {
                    permission_type: permission_type@,
                    url: url@,
                    request_id: *final(permission_request_counter),
                },
            )
        } else {
            queues@
        }),
        pending_permission_requests matches Some(pending) ==> final(pending)@ == (
        if event_queues is Some {
            pending@.insert(*final(permission_request_counter), pending_decision)
        } else {
            pending@.remove(*final(permission_request_counter))
        }),
{
    let request_id: u64 = *permission_request_counter + 1;
    *permission_request_counter = request_id;
    if let Some(pending) = pending_permission_requests {
        let ghost before = pending@;
        pending.insert(request_id, pending_decision);
        if let Some(queues) = event_queues {
            queues.push_permission_request(
                PermissionRequestEvent { permission_type, url, request_id },
            );
        } else {
            pending.remove(&request_id);
            assert(pending@ =~= before.remove(request_id));
        }
    }
}

/// The number belongs to one of `n` requests that follow request `counter`.
pub open spec fn numbered_after(counter: u64, n: nat, request_id: u64) -> bool {
    counter < request_id <= counter + n
}

/// Requests for labelled permissions, numbered from `counter + 1` on.
pub open spec fn numbered_requests(
    labels: Seq<&'static str>,
    url: Seq<char>,
    counter: u64,
) -> Seq<PermissionRequestEvent<Seq<char>>> {
    Seq::new(
        labels.len(),
        |k: int|
            PermissionRequestEvent {
                permission_type: labels[k]@,
                url,
                request_id: (counter + k + 1) as u64,
            },
    )
}

/// A decision about one bit of a media access request, to be passed on through
/// a clone of `callback`.
pub open spec fn decides_media<M: Clone, P>(
    decision: PendingPermissionDecision<M, P>,
    callback: M,
    bit: u32,
    token: usize,
) -> bool {
    decision matches PendingPermissionDecision::Media {
        callback: copy,
        permission_bit,
        callback_token,
    } && cloned(callback, copy) && permission_bit == bit && callback_token == token
}

/// A decision about one label of a permission prompt, to be passed on through
/// a clone of `callback`.
pub open spec fn decides_prompt<M, P: Clone>(
    decision: PendingPermissionDecision<M, P>,
    callback: P,
    id: u64,
    token: usize,
) -> bool {
    decision matches PendingPermissionDecision::Prompt {
        callback: copy,
        prompt_id,
        callback_token,
    } && cloned(callback, copy) && prompt_id == id && callback_token == token
}

/// `after` holds what `before` held, and beside it, or in its place, the
/// numbers of `n` requests that follow request `counter`.
pub open spec fn adds_requests<M, P>(
    before: Map<u64, PendingPermissionDecision<M, P>>,
    after: Map<u64, PendingPermissionDecision<M, P>>,
    counter: u64,
    n: nat,
) -> bool {
    &&& forall|id: u64| #[trigger]
        after.contains_key(id) <==> before.contains_key(id) || numbered_after(counter, n, id)
    &&& forall|id: u64|
        before.contains_key(id) && !numbered_after(counter, n, id) ==> #[trigger] after[id]
            == before[id]
}

/// `before` without the numbers of `n` requests that follow request `counter`.
pub open spec fn without_requests<M, P>(
    before: Map<u64, PendingPermissionDecision<M, P>>,
    counter: u64,
    n: nat,
) -> Map<u64, PendingPermissionDecision<M, P>> {
    before.filter_keys(|id: u64| !numbered_after(counter, n, id))
}

/// What numbering, recording and queueing the labelled requests makes of the
/// event queues: it adds them, unless they could not be recorded.
pub open spec fn queued_requests(
    before: EventQueuesModel,
    recorded: bool,
    labels: Seq<&'static str>,
    url: Seq<char>,
    counter: u64,
) -> EventQueuesModel {
    if recorded {
        EventQueuesModel {
            permission_requests: before.permission_requests + numbered_requests(
                labels,
                url,
                counter,
            ),
            ..before
        }
    } else {
        before
    }
}

/// What recording a media access request makes of the pending decisions: one
/// for each of its bits, or none where the requests could not be queued.
pub open spec fn media_recorded<M: Clone, P>(
    before: Map<u64, PendingPermissionDecision<M, P>>,
    after: Map<u64, PendingPermissionDecision<M, P>>,
    queued: bool,
    entries: Seq<(u32, &'static str)>,
    callback: M,
    token: usize,
    counter: u64,
) -> bool {
    if queued {
        &&& adds_requests(before, after, counter, entries.len())
        &&& forall|k: int|
            0 <= k < entries.len() ==> decides_media(
                after[(counter + k + 1) as u64],
                callback,
                (#[trigger] entries[k]).0,
                token,
            )
    } else {
        after == without_requests(before, counter, entries.len())
    }
}

/// What recording a permission prompt makes of the pending decisions: one for
/// each of its labels, or none where the requests could not be queued.
pub open spec fn prompt_recorded<M, P: Clone>(
    before: Map<u64, PendingPermissionDecision<M, P>>,
    after: Map<u64, PendingPermissionDecision<M, P>>,
    queued: bool,
    labels: Seq<&'static str>,
    callback: P,
    prompt_id: u64,
    token: usize,
    counter: u64,
) -> bool {
    if queued {
        &&& adds_requests(before, after, counter, labels.len())
        &&& forall|id: u64|
            numbered_after(counter, labels.len(), id) ==> decides_prompt(
                #[trigger] after[id],
                callback,
                prompt_id,
                token,
            )
    } else {
        after == without_requests(before, counter, labels.len())
    }
}

/// Queueing one more labelled request.
proof fn lemma_queue_one_more(
    before: EventQueuesModel,
    labels: Seq<&'static str>,
    url: Seq<char>,
    counter: u64,
    i: int,
)
    requires
        0 <= i < labels.len(),
        counter + labels.len() <= u64::MAX,
    ensures
        queued_requests(before, true, labels.take(i + 1), url, counter) == queued_requests(
            before,
            true,
            labels.take(i),
            url,
            counter,
        ).with_permission_request(
            PermissionRequestEvent {
                permission_type: labels[i]@,
                url,
                request_id: (counter + i + 1) as u64,
            },
        ),
{
    assert(queued_requests(before, true, labels.take(i + 1), url, counter).permission_requests
        =~= queued_requests(
        before,
        true,
        labels.take(i),
        url,
        counter,
    ).with_permission_request(
        PermissionRequestEvent {
            permission_type: labels[i]@,
            url,
            request_id: (counter + i + 1) as u64,
        },
    ).permission_requests);
}

/// Dropping one more number.
proof fn lemma_drop_one_more<M, P>(
    before: Map<u64, PendingPermissionDecision<M, P>>,
    counter: u64,
    i: nat,
)
    requires
        counter + i + 1 <= u64::MAX,
    ensures
        without_requests(before, counter, i + 1) == without_requests(before, counter, i).remove(
            (counter + i + 1) as u64,
        ),
{
    assert(without_requests(before, counter, i + 1) =~= without_requests(before, counter, i).remove(
        (counter + i + 1) as u64,
    ));
}

/// Queues one request for each bit of a media access request.
fn push_media_requests<M: Clone, P>(
    event_queues: Option<&mut EventQueues>,
    pending_permission_requests: Option<&mut PendingPermissionRequests<M, P>>,
    permission_request_counter: &mut u64,
    entries: &Vec<(u32, &'static str)>,
    callback: &M,
    callback_token: usize,
    url: &String,
)
    requires
        *old(permission_request_counter) + entries@.len() <= u64::MAX,
    ensures
        *final(permission_request_counter) == *old(permission_request_counter) + entries@.len(),
        event_queues matches Some(queues) ==> final(queues)@ == queued_requests(
            queues@,
            pending_permission_requests is Some,
            labels_of(entries@),
            url@,
            *old(permission_request_counter),
        ),
        pending_permission_requests matches Some(pending) ==> media_recorded(
            pending@,
            final(pending)@,
            event_queues is Some,
            entries@,
            *callback,
            callback_token,
            *old(permission_request_counter),
        ),
{
    let mut event_queues = event_queues;
    let mut pending_permission_requests = pending_permission_requests;
    let ghost queues_given = event_queues;
    let ghost pending_given = pending_permission_requests;
    let ghost counter = *permission_request_counter;
    let mut i: usize = 0;
    assert(entries@.take(0) =~= Seq::empty());
    proof {
        if queues_given is Some {
            assert(queues_given->0@.permission_requests + numbered_requests(
                labels_of(entries@.take(0)),
                url@,
                counter,
            ) =~= queues_given->0@.permission_requests);
        }
        if pending_given is Some {
            assert(without_requests(pending_given->0@, counter, 0) =~= pending_given->0@);
        }
    }
    while i < entries.len()
        invariant
            i <= entries@.len(),
            counter + entries@.len() <= u64::MAX,
            *permission_request_counter == counter + i,
            event_queues is Some <==> queues_given is Some,
            pending_permission_requests is Some <==> pending_given is Some,
            event_queues matches Some(queues) ==> *final(queues) == *final(queues_given->0)
                && queues@ == queued_requests(
                queues_given->0@,
                pending_given is Some,
                labels_of(entries@.take(i as int)),
                url@,
                counter,
            ),
            pending_permission_requests matches Some(pending) ==> *final(pending)
                == *final(pending_given->0) && media_recorded(
                pending_given->0@,
                pending@,
                queues_given is Some,
                entries@.take(i as int),
                *callback,
                callback_token,
                counter,
            ),
        decreases entries@.len() - i,
    {
        let (permission_bit, permission_type) = entries[i];
        let queues = match &mut event_queues {
            Some(queues) => Some(&mut **queues),
            None => None,
        };
        let pending = match &mut pending_permission_requests {
            Some(pending) => Some(&mut **pending),
            None => None,
        };
        push_permission_request(
            queues,
            pending,
            permission_request_counter,
            PendingPermissionDecision::Media {
                callback: callback.clone(),
                permission_bit,
                callback_token,
            },
            permission_type.to_string(),
            url.clone(),
        );
        proof {
            let labels = labels_of(entries@);
            assert(labels_of(entries@.take(i as int)) =~= labels.take(i as int));
            assert(labels_of(entries@.take(i + 1)) =~= labels.take(i + 1));
            if queues_given is Some {
                lemma_queue_one_more(queues_given->0@, labels, url@, counter, i as int);
            }
            if pending_given is Some {
                lemma_drop_one_more(pending_given->0@, counter, i as nat);
            }
        }
        i = i + 1;
    }
    assert(entries@.take(i as int) =~= entries@);
}

/// Queues one request for each label of a permission prompt.
fn push_prompt_requests<M, P: Clone>(
    event_queues: Option<&mut EventQueues>,
    pending_permission_requests: Option<&mut PendingPermissionRequests<M, P>>,
    permission_request_counter: &mut u64,
    labels: &Vec<&'static str>,
    callback: &P,
    prompt_id: u64,
    callback_token: usize,
    url: &String,
)
    requires
        *old(permission_request_counter) + labels@.len() <= u64::MAX,
    ensures
        *final(permission_request_counter) == *old(permission_request_counter) + labels@.len(),
        event_queues matches Some(queues) ==> final(queues)@ == queued_requests(
            queues@,
            pending_permission_requests is Some,
            labels@,
            url@,
            *old(permission_request_counter),
        ),
        pending_permission_requests matches Some(pending) ==> prompt_recorded(
            pending@,
            final(pending)@,
            event_queues is Some,
            labels@,
            *callback,
            prompt_id,
            callback_token,
            *old(permission_request_counter),
        ),
{
    let mut event_queues = event_queues;
    let mut pending_permission_requests = pending_permission_requests;
    let ghost queues_given = event_queues;
    let ghost pending_given = pending_permission_requests;
    let ghost counter = *permission_request_counter;
    let mut i: usize = 0;
    assert(labels@.take(0) =~= Seq::empty());
    proof {
        if queues_given is Some {
            assert(queues_given->0@.permission_requests + numbered_requests(
                labels@.take(0),
                url@,
                counter,
            ) =~= queues_given->0@.permission_requests);
        }
        if pending_given is Some {
            assert(without_requests(pending_given->0@, counter, 0) =~= pending_given->0@);
        }
    }
    while i < labels.len()
        invariant
            i <= labels@.len(),
            counter + labels@.len() <= u64::MAX,
            *permission_request_counter == counter + i,
            event_queues is Some <==> queues_given is Some,
            pending_permission_requests is Some <==> pending_given is Some,
            event_queues matches Some(queues) ==> *final(queues) == *final(queues_given->0)
                && queues@ == queued_requests(
                queues_given->0@,
                pending_given is Some,
                labels@.take(i as int),
                url@,
                counter,
            ),
            pending_permission_requests matches Some(pending) ==> *final(pending)
                == *final(pending_given->0) && prompt_recorded(
                pending_given->0@,
                pending@,
                queues_given is Some,
                labels@.take(i as int),
                *callback,
                prompt_id,
                callback_token,
                counter,
            ),
        decreases labels@.len() - i,
    {
        let permission_type = labels[i];
        let queues = match &mut event_queues {
            Some(queues) => Some(&mut **queues),
            None => None,
        };
        let pending = match &mut pending_permission_requests {
            Some(pending) => Some(&mut **pending),
            None => None,
        };
        push_permission_request(
            queues,
            pending,
            permission_request_counter,
            PendingPermissionDecision::Prompt {
                callback: callback.clone(),
                prompt_id,
                callback_token,
            },
            permission_type.to_string(),
            url.clone(),
        );
        proof {
            if queues_given is Some {
                lemma_queue_one_more(queues_given->0@, labels@, url@, counter, i as int);
            }
            if pending_given is Some {
                lemma_drop_one_more(pending_given->0@, counter, i as nat);
            }
        }
        i = i + 1;
    }
    assert(labels@.take(i as int) =~= labels@);
}

/// What is told to the browser about a media access request.
#[derive(Clone, Copy, Debug, PartialEq, Eq, Structural)]
pub struct MediaAccessReply {
    /// The permissions to grant at once, where the policy decides.
    pub grant: Option<u32>,
    /// What the callback returns: whether the request is taken care of.
    pub handled: bool,
}

/// The answer to a permission prompt.
#[derive(Clone, Copy, Debug, PartialEq, Eq, Structural)]
pub enum PromptAnswer {
    /// The permissions are granted.
    Accept,
    /// The permissions are refused.
    Deny,
}

/// What is told to the browser about a permission prompt.
#[derive(Clone, Copy, Debug, PartialEq, Eq, Structural)]
pub struct PromptReply {
    /// The answer to give at once, where the policy decides.
    pub answer: Option<PromptAnswer>,
    /// What the callback returns: whether the prompt is taken care of.
    pub handled: bool,
}

/// The policy leaves a request with a callback to the host.
pub open spec fn left_to_host(has_callback: bool, policy: i32) -> bool {
    has_callback && policy != ALLOW_ALL && policy != DENY_ALL
}

/// The reply to a media access request.
pub open spec fn media_reply(
    has_callback: bool,
    policy: i32,
    requested_permissions: u32,
) -> MediaAccessReply {
    MediaAccessReply {
        grant: if !has_callback || left_to_host(has_callback, policy) {
            None
        } else if policy == ALLOW_ALL {
            Some(requested_permissions)
        } else {
            Some(0u32)
        },
        handled: has_callback,
    }
}

/// The reply to a permission prompt.
pub open spec fn prompt_reply(has_callback: bool, policy: i32) -> PromptReply {
    PromptReply {
        answer: if !has_callback || left_to_host(has_callback, policy) {
            None
        } else if policy == ALLOW_ALL {
            Some(PromptAnswer::Accept)
        } else {
            Some(PromptAnswer::Deny)
        },
        handled: has_callback,
    }
}

/// A page asks for access to microphones, cameras or the desktop.
pub fn on_request_media_access_permission<M: Clone, P>(
    policy: i32,
    requesting_origin: Option<String>,
    requested_permissions: u32,
    callback: Option<&M>,
    callback_token: usize,
    permission_request_counter: &mut u64,
    pending_permission_requests: Option<&mut PendingPermissionRequests<M, P>>,
    event_queues: Option<&mut EventQueues>,
) -> (reply: MediaAccessReply)
    requires
        left_to_host(callback is Some, policy) ==> *old(permission_request_counter) + media_entries(
            requested_permissions,
        ).len() <= u64::MAX,
    ensures
        reply == media_reply(callback is Some, policy, requested_permissions),
        *final(permission_request_counter) == *old(permission_request_counter) + (
        if left_to_host(callback is Some, policy) {
            media_entries(requested_permissions).len()
        } else {
            0
        }),
        event_queues matches Some(queues) ==> final(queues)@ == queued_requests(
            queues@,
            left_to_host(callback is Some, policy) && pending_permission_requests is Some,
            labels_of(media_entries(requested_permissions)),
            text_or_empty(requesting_origin),
            *old(permission_request_counter),
        ),
        pending_permission_requests matches Some(pending) ==> if left_to_host(
            callback is Some,
            policy,
        ) {
            media_recorded(
                pending@,
                final(pending)@,
                event_queues is Some,
                media_entries(requested_permissions),
                *callback->0,
                callback_token,
                *old(permission_request_counter),
            )
        } else {
            final(pending)@ == pending@
        },
{
    let callback = match callback {
        Some(callback) => callback,
        None => {
            return MediaAccessReply { grant: None, handled: false };
        },
    };
    if policy == ALLOW_ALL {
        return MediaAccessReply { grant: Some(requested_permissions), handled: true };
    }
    if policy == DENY_ALL {
        let nothing = media_permission_to_u32(MediaPermission::Nothing);
        return MediaAccessReply { grant: Some(nothing), handled: true };
    }
    let url = string_or_empty(requesting_origin);
    let entries = map_media_permission_types(requested_permissions);
    push_media_requests(
        event_queues,
        pending_permission_requests,
        permission_request_counter,
        &entries,
        callback,
        callback_token,
        &url,
    );
    MediaAccessReply { grant: None, handled: true }
}

/// A page asks for permissions that the browser would prompt for.
pub fn on_show_permission_prompt<M, P: Clone>(
    policy: i32,
    prompt_id: u64,
    requesting_origin: Option<String>,
    requested_permissions: u32,
    callback: Option<&P>,
    callback_token: usize,
    permission_request_counter: &mut u64,
    pending_permission_requests: Option<&mut PendingPermissionRequests<M, P>>,
    event_queues: Option<&mut EventQueues>,
) -> (reply: PromptReply)
    requires
        left_to_host(callback is Some, policy) ==> *old(permission_request_counter) + prompt_labels(
            requested_permissions,
        ).len() <= u64::MAX,
    ensures
        reply == prompt_reply(callback is Some, policy),
        *final(permission_request_counter) == *old(permission_request_counter) + (
        if left_to_host(callback is Some, policy) {
            prompt_labels(requested_permissions).len()
        } else {
            0
        }),
        event_queues matches Some(queues) ==> final(queues)@ == queued_requests(
            queues@,
            left_to_host(callback is Some, policy) && pending_permission_requests is Some,
            prompt_labels(requested_permissions),
            text_or_empty(requesting_origin),
            *old(permission_request_counter),
        ),
        pending_permission_requests matches Some(pending) ==> if left_to_host(
            callback is Some,
            policy,
        ) {
            prompt_recorded(
                pending@,
                final(pending)@,
                event_queues is Some,
                prompt_labels(requested_permissions),
                *callback->0,
                prompt_id,
                callback_token,
                *old(permission_request_counter),
            )
        } else {
            final(pending)@ == pending@
        },
{
    let callback = match callback {
        Some(callback) => callback,
        None => {
            return PromptReply { answer: None, handled: false };
        },
    };
    if policy == ALLOW_ALL {
        return PromptReply { answer: Some(PromptAnswer::Accept), handled: true };
    }
    if policy == DENY_ALL {
        return PromptReply { answer: Some(PromptAnswer::Deny), handled: true };
    }
    let url = string_or_empty(requesting_origin);
    let labels = map_prompt_permission_types(requested_permissions);
    push_prompt_requests(
        event_queues,
        pending_permission_requests,
        permission_request_counter,
        &labels,
        callback,
        prompt_id,
        callback_token,
        &url,
    );
    PromptReply { answer: None, handled: true }
}

/// A permission prompt has gone: its pending decisions are forgotten, and so is
/// what was decided of their callbacks.
pub fn on_dismiss_permission_prompt<M, P, A>(
    prompt_id: u64,
    pending_permission_requests: Option<&mut PendingPermissionRequests<M, P>>,
    pending_permission_aggregates: Option<&mut PendingPermissionAggregates<A>>,
)
    ensures
        pending_permission_requests matches Some(pending) ==> final(pending)@ == without_prompt(
            pending@,
            prompt_id,
        ),
        pending_permission_aggregates matches Some(aggregates) ==> final(aggregates)@ == (
        match pending_permission_requests {
            Some(pending) => aggregates@.remove_keys(prompt_tokens(pending@, prompt_id)),
            None => aggregates@,
        }),
{
    if let Some(pending) = pending_permission_requests {
        let callback_tokens = forget_prompt(pending, prompt_id);
        if let Some(aggregates) = pending_permission_aggregates {
            forget_tokens(aggregates, &callback_tokens);
        }
    }
}

/// Forgets what was decided of some callbacks.
fn forget_tokens<A>(
    aggregates: &mut PendingPermissionAggregates<A>,
    callback_tokens: &Vec<usize>,
)
    ensures
        final(aggregates)@ == old(aggregates)@.remove_keys(callback_tokens@.to_set()),
{
    let ghost before = aggregates@;
    let mut i: usize = 0;
    assert(before.remove_keys(callback_tokens@.take(0).to_set()) =~= before);
    while i < callback_tokens.len()
        invariant
            i <= callback_tokens@.len(),
            aggregates@ == before.remove_keys(callback_tokens@.take(i as int).to_set()),
        decreases callback_tokens@.len() - i,
    {
        aggregates.remove(&callback_tokens[i]);
        proof {
            let gone = callback_tokens@.take(i as int);
            let next = callback_tokens@.take(i + 1);
            let token = callback_tokens@[i as int];
            assert(next =~= gone.push(token));
            assert forall|t: usize| next.contains(t) <==> gone.contains(t) || t == token by {
                if gone.contains(t) {
                    let k = choose|k: int| 0 <= k < gone.len() && gone[k] == t;
                    assert(next[k] == t);
                }
                assert(next[i as int] == token);
            }
            assert(aggregates@ =~= before.remove_keys(next.to_set()));
        }
        i = i + 1;
    }
    assert(callback_tokens@.take(i as int) =~= callback_tokens@);
}

} // verus!
