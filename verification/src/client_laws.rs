//! Which parts a client and its handlers have.

use crate::audio::{AudioPacket, AudioParameters};
use crate::client::{
    build_client_handlers, build_ipc_queues, AudioQueues, AudioState, CefClientImpl,
    ClientHandlers, ClientIpcQueues, ClientQueues, PermissionQueues,
};
use crate::events::EventQueues;
use std::collections::VecDeque;
use vstd::prelude::*;

verus! {

/// A new client has the parts that it is given, no event, no packet and no
/// format, and does not shut down.
pub proof fn a_new_client_has_what_it_is_given<S, R, L, C, N, G>(
    sample_rate: R,
    captures: bool,
    policy: L,
    counter: C,
    pending: N,
    aggregates: G,
    queues: ClientQueues<
        EventQueues,
        AudioQueues<VecDeque<AudioPacket<S>>, Option<AudioParameters>, R, bool>,
        PermissionQueues<L, C, N, G>,
    >,
)
    requires
        call_ensures(
            ClientQueues::<
                EventQueues,
                AudioQueues<VecDeque<AudioPacket<S>>, Option<AudioParameters>, R, bool>,
                PermissionQueues<L, C, N, G>,
            >::new,
            (sample_rate, captures, policy, counter, pending, aggregates),
            queues,
        ),
    ensures
        queues.event_queues.drag_events@.len() == 0,
        queues.event_queues.url_changes@.len() == 0,
        queues.event_queues.title_changes@.len() == 0,
        queues.event_queues.console_messages@.len() == 0,
        queues.event_queues.popup_requests@.len() == 0,
        queues.event_queues.loading_states@.len() == 0,
        queues.event_queues.find_results@.len() == 0,
        queues.event_queues.download_requests@.len() == 0,
        queues.event_queues.download_updates@.len() == 0,
        queues.event_queues.render_process_terminated@.len() == 0,
        queues.event_queues.permission_requests@.len() == 0,
        queues.event_queues.ime_composition_range is None,
        queues.audio.audio_packet_queue@.len() == 0,
        queues.audio.audio_params is None,
        queues.audio.audio_sample_rate == sample_rate,
        queues.audio.audio_shutdown_flag == false,
        queues.enable_audio_capture == captures,
        queues.permissions.permission_policy == policy,
        queues.permissions.permission_request_counter == counter,
        queues.permissions.pending_permission_requests == pending,
        queues.permissions.pending_permission_aggregates == aggregates,
{
    crate::view_laws::the_queues_are_seen_as_they_are(queues.event_queues);
}

/// The host gets the packets, the rate and the shutdown flag of the client
/// itself, exactly where the client captures audio.
pub proof fn the_host_gets_the_audio_of_the_client<E, Q, F, R, D, P>(
    queues: ClientQueues<E, AudioQueues<Q, F, R, D>, P>,
    state: Option<AudioState<Q, R, D>>,
)
    requires
        call_ensures(
            ClientQueues::<E, AudioQueues<Q, F, R, D>, P>::into_audio_state,
            (queues,),
            state,
        ),
    ensures
        state is Some <==> queues.enable_audio_capture,
        state is Some ==> {
            &&& state->0.packet_queue == queues.audio.audio_packet_queue
            &&& state->0.sample_rate == queues.audio.audio_sample_rate
            &&& state->0.shutdown_flag == queues.audio.audio_shutdown_flag
        },
{
}

/// Each handler gets the parts that it is meant to have: those it is given, or
/// clones of those of the client. Audio is handled exactly where it is captured.
pub proof fn handlers_get_the_parts_of_the_client<V, T, U, E: Clone, A: Clone, P: Clone>(
    render_handler: V,
    cursor_type: T,
    queues: ClientQueues<E, A, P>,
    popup_policy: U,
    handlers: ClientHandlers<V, T, U, E, A, P>,
)
    requires
        call_ensures(
            build_client_handlers::<V, T, U, E, A, P>,
            (render_handler, cursor_type, &queues, popup_policy),
            handlers,
        ),
    ensures
        handlers.render_handler == render_handler,
        handlers.display_handler.cursor_type == cursor_type,
        handlers.life_span_handler.popup_policy == popup_policy,
        cloned(queues.event_queues, handlers.display_handler.event_queues),
        cloned(queues.event_queues, handlers.life_span_handler.event_queues),
        cloned(queues.event_queues, handlers.load_handler.event_queues),
        cloned(queues.event_queues, handlers.find_handler.event_queues),
        cloned(queues.event_queues, handlers.drag_handler.event_queues),
        cloned(queues.event_queues, handlers.download_handler.event_queues),
        cloned(queues.event_queues, handlers.request_handler.event_queues),
        cloned(queues.event_queues, handlers.permission_handler.event_queues),
        cloned(queues.permissions, handlers.permission_handler.permissions),
        handlers.audio_handler is Some <==> queues.enable_audio_capture,
        handlers.audio_handler is Some ==> cloned(queues.audio, handlers.audio_handler->0.audio),
{
}

/// A client is built from its handlers and a clone of its event queues for
/// messages between processes.
pub proof fn a_client_gets_its_own_parts<V, T, U, E: Clone, A: Clone, P: Clone>(
    render_handler: V,
    cursor_type: T,
    queues: ClientQueues<E, A, P>,
    popup_policy: U,
    ipc: ClientIpcQueues<E>,
    client: CefClientImpl<V, T, U, E, A, P>,
)
    requires
        call_ensures(build_ipc_queues::<E, A, P>, (&queues,), ipc),
        call_ensures(
            CefClientImpl::<V, T, U, E, A, P>::build,
            (render_handler, cursor_type, queues, popup_policy),
            client,
        ),
    ensures
        cloned(queues.event_queues, ipc.event_queues),
        cloned(queues.event_queues, client.ipc.event_queues),
        client.handlers.render_handler == render_handler,
        client.handlers.display_handler.cursor_type == cursor_type,
        client.handlers.life_span_handler.popup_policy == popup_policy,
        cloned(queues.event_queues, client.handlers.display_handler.event_queues),
        cloned(queues.event_queues, client.handlers.life_span_handler.event_queues),
        cloned(queues.event_queues, client.handlers.load_handler.event_queues),
        cloned(queues.event_queues, client.handlers.find_handler.event_queues),
        cloned(queues.event_queues, client.handlers.drag_handler.event_queues),
        cloned(queues.event_queues, client.handlers.download_handler.event_queues),
        cloned(queues.event_queues, client.handlers.request_handler.event_queues),
        cloned(queues.event_queues, client.handlers.permission_handler.event_queues),
        cloned(queues.permissions, client.handlers.permission_handler.permissions),
        client.handlers.audio_handler is Some <==> queues.enable_audio_capture,
        client.handlers.audio_handler is Some ==> cloned(
            queues.audio,
            client.handlers.audio_handler->0.audio,
        ),
{
}

/// A clone of a client's parts is made of clones of each of them, and captures
/// audio where the client does.
pub proof fn cloned_parts_are_clones_of_each_part<E: Clone, A: Clone, P: Clone>(
    queues: ClientQueues<E, A, P>,
    copy: ClientQueues<E, A, P>,
    ipc: ClientIpcQueues<E>,
    ipc_copy: ClientIpcQueues<E>,
)
    requires
        cloned(queues, copy),
        cloned(ipc, ipc_copy),
    ensures
        cloned(queues.event_queues, copy.event_queues),
        cloned(queues.audio, copy.audio),
        copy.enable_audio_capture == queues.enable_audio_capture,
        cloned(queues.permissions, copy.permissions),
        cloned(ipc.event_queues, ipc_copy.event_queues),
{
}

/// A clone of the audio parts is made of clones of each of them.
pub proof fn cloned_audio_is_a_clone_of_each_part<Q: Clone, F: Clone, R: Clone, D: Clone>(
    audio: AudioQueues<Q, F, R, D>,
    copy: AudioQueues<Q, F, R, D>,
)
    requires
        cloned(audio, copy),
    ensures
        cloned(audio.audio_packet_queue, copy.audio_packet_queue),
        cloned(audio.audio_params, copy.audio_params),
        cloned(audio.audio_sample_rate, copy.audio_sample_rate),
        cloned(audio.audio_shutdown_flag, copy.audio_shutdown_flag),
{
}

/// A clone of the permission parts is made of clones of each of them.
pub proof fn cloned_permissions_are_clones_of_each_part<L: Clone, C: Clone, N: Clone, G: Clone>(
    permissions: PermissionQueues<L, C, N, G>,
    copy: PermissionQueues<L, C, N, G>,
)
    requires
        cloned(permissions, copy),
    ensures
        cloned(permissions.permission_policy, copy.permission_policy),
        cloned(permissions.permission_request_counter, copy.permission_request_counter),
        cloned(permissions.pending_permission_requests, copy.pending_permission_requests),
        cloned(permissions.pending_permission_aggregates, copy.pending_permission_aggregates),
{
}

} // verus!
