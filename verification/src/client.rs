//! The parts of a client, and which of its handlers works on which of them.
//!
//! Several handlers and the host work on the same parts, so the type of a part
//! is a parameter: what it holds when it is made, and a handle to it once the
//! application shares it. Handing a part to a handler clones it.

use crate::audio::{AudioPacket, AudioParameters};
use crate::events::{EventQueues, EventQueuesModel};
use std::collections::VecDeque;
use vstd::prelude::*;

verus! {

/// What the audio handler works on: the packets `Q`, the format of the stream
/// `F`, the configured sample rate `R`, and the flag for shutting down `D`.
#[derive(Debug)]
pub struct AudioQueues<Q, F, R, D> {
    pub audio_packet_queue: Q,
    pub audio_params: F,
    pub audio_sample_rate: R,
    pub audio_shutdown_flag: D,
}

/// What the permission handler works on beside the event queues: the policy
/// `L`, the counter of requests `C`, the pending decisions `N`, and what has
/// been decided of each callback `G`.
#[derive(Debug)]
pub struct PermissionQueues<L, C, N, G> {
    pub permission_policy: L,
    pub permission_request_counter: C,
    pub pending_permission_requests: N,
    pub pending_permission_aggregates: G,
}

impl<Q: Clone, F: Clone, R: Clone, D: Clone> Clone for AudioQueues<Q, F, R, D> {
    fn clone(&self) -> (copy: Self)
        ensures
            cloned(self.audio_packet_queue, copy.audio_packet_queue),
            cloned(self.audio_params, copy.audio_params),
            cloned(self.audio_sample_rate, copy.audio_sample_rate),
            cloned(self.audio_shutdown_flag, copy.audio_shutdown_flag),
    {
        AudioQueues {
            audio_packet_queue: self.audio_packet_queue.clone(),
            audio_params: self.audio_params.clone(),
            audio_sample_rate: self.audio_sample_rate.clone(),
            audio_shutdown_flag: self.audio_shutdown_flag.clone(),
        }
    }
}

impl<L: Clone, C: Clone, N: Clone, G: Clone> Clone for PermissionQueues<L, C, N, G> {
    fn clone(&self) -> (copy: Self)
        ensures
            cloned(self.permission_policy, copy.permission_policy),
            cloned(self.permission_request_counter, copy.permission_request_counter),
            cloned(self.pending_permission_requests, copy.pending_permission_requests),
            cloned(self.pending_permission_aggregates, copy.pending_permission_aggregates),
    {
        PermissionQueues {
            permission_policy: self.permission_policy.clone(),
            permission_request_counter: self.permission_request_counter.clone(),
            pending_permission_requests: self.pending_permission_requests.clone(),
            pending_permission_aggregates: self.pending_permission_aggregates.clone(),
        }
    }
}

/// The parts that a client and its host share.
pub struct ClientQueues<E, A, P> {
    /// The events for the host.
    pub event_queues: E,
    /// What the audio handler works on.
    pub audio: A,
    /// Whether audio is captured.
    pub enable_audio_capture: bool,
    /// What the permission handler works on.
    pub permissions: P,
}

impl<E: Clone, A: Clone, P: Clone> Clone for ClientQueues<E, A, P> {
    fn clone(&self) -> (copy: Self)
        ensures
            cloned(self.event_queues, copy.event_queues),
            cloned(self.audio, copy.audio),
            copy.enable_audio_capture == self.enable_audio_capture,
            cloned(self.permissions, copy.permissions),
    {
        ClientQueues {
            event_queues: self.event_queues.clone(),
            audio: self.audio.clone(),
            enable_audio_capture: self.enable_audio_capture,
            permissions: self.permissions.clone(),
        }
    }
}

/// The parts of the audio stream that the host keeps.
pub struct AudioState<Q, R, D> {
    pub packet_queue: Q,
    pub sample_rate: R,
    pub shutdown_flag: D,
}

impl<S, R, L, C, N, G> ClientQueues<
    EventQueues,
    AudioQueues<VecDeque<AudioPacket<S>>, Option<AudioParameters>, R, bool>,
    PermissionQueues<L, C, N, G>,
> {
    /// Creates the parts of a client: nothing has happened yet.
    pub fn new(
        sample_rate: R,
        enable_audio_capture: bool,
        permission_policy: L,
        permission_request_counter: C,
        pending_permission_requests: N,
        pending_permission_aggregates: G,
    ) -> (queues: Self)
        ensures
            queues.event_queues@ == EventQueuesModel::empty(),
            queues.audio.audio_packet_queue@.len() == 0,
            queues.audio.audio_params is None,
            queues.audio.audio_sample_rate == sample_rate,
            !queues.audio.audio_shutdown_flag,
            queues.enable_audio_capture == enable_audio_capture,
            queues.permissions.permission_policy == permission_policy,
            queues.permissions.permission_request_counter == permission_request_counter,
            queues.permissions.pending_permission_requests == pending_permission_requests,
            queues.permissions.pending_permission_aggregates == pending_permission_aggregates,
    {
        ClientQueues {
            event_queues: EventQueues::new(),
            audio: AudioQueues {
                audio_packet_queue: VecDeque::new(),
                audio_params: None,
                audio_sample_rate: sample_rate,
                audio_shutdown_flag: false,
            },
            enable_audio_capture,
            permissions: PermissionQueues {
                permission_policy,
                permission_request_counter,
                pending_permission_requests,
                pending_permission_aggregates,
            },
        }
    }
}

impl<E, Q, F, R, D, P> ClientQueues<E, AudioQueues<Q, F, R, D>, P> {
    /// Keeps what the host needs of the audio stream, where audio is captured.
    pub fn into_audio_state(self) -> (state: Option<AudioState<Q, R, D>>)
        ensures
            state == (if self.enable_audio_capture {
                Some(
                    AudioState {
                        packet_queue: self.audio.audio_packet_queue,
                        sample_rate: self.audio.audio_sample_rate,
                        shutdown_flag: self.audio.audio_shutdown_flag,
                    },
                )
            } else {
                None
            }),
    {
        if self.enable_audio_capture {
            Some(
                AudioState {
                    packet_queue: self.audio.audio_packet_queue,
                    sample_rate: self.audio.audio_sample_rate,
                    shutdown_flag: self.audio.audio_shutdown_flag,
                },
            )
        } else {
            None
        }
    }
}

/// The parts of the display handler.
pub struct DisplayHandlerImpl<T, E> {
    pub cursor_type: T,
    pub event_queues: E,
}

/// The context menu handler needs no parts.
pub struct ContextMenuHandlerImpl {}

/// The parts of the life span handler.
pub struct LifeSpanHandlerImpl<E, U> {
    pub event_queues: E,
    pub popup_policy: U,
}

/// The parts of the load handler.
pub struct LoadHandlerImpl<E> {
    pub event_queues: E,
}

/// The parts of the find handler.
pub struct FindHandlerImpl<E> {
    pub event_queues: E,
}

/// The parts of the drag handler.
pub struct DragHandlerImpl<E> {
    pub event_queues: E,
}

/// The parts of the audio handler.
pub struct AudioHandlerImpl<A> {
    pub audio: A,
}

/// The parts of the download handler.
pub struct DownloadHandlerImpl<E> {
    pub event_queues: E,
}

/// The parts of the request handler.
pub struct RequestHandlerImpl<E> {
    pub event_queues: E,
}

/// The parts of the permission handler.
pub struct PermissionHandlerImpl<E, P> {
    pub event_queues: E,
    pub permissions: P,
}

/// The handlers of a client.
pub struct ClientHandlers<V, T, U, E, A, P> {
    pub render_handler: V,
    pub display_handler: DisplayHandlerImpl<T, E>,
    pub context_menu_handler: ContextMenuHandlerImpl,
    pub life_span_handler: LifeSpanHandlerImpl<E, U>,
    pub load_handler: LoadHandlerImpl<E>,
    pub find_handler: FindHandlerImpl<E>,
    pub drag_handler: DragHandlerImpl<E>,
    pub audio_handler: Option<AudioHandlerImpl<A>>,
    pub download_handler: DownloadHandlerImpl<E>,
    pub request_handler: RequestHandlerImpl<E>,
    pub permission_handler: PermissionHandlerImpl<E, P>,
}

/// The parts that serve messages between processes.
pub struct ClientIpcQueues<E> {
    pub event_queues: E,
}

impl<E: Clone> Clone for ClientIpcQueues<E> {
    fn clone(&self) -> (copy: Self)
        ensures
            cloned(self.event_queues, copy.event_queues),
    {
        ClientIpcQueues { event_queues: self.event_queues.clone() }
    }
}

/// A client: its handlers, and what serves messages between processes.
pub struct CefClientImpl<V, T, U, E, A, P> {
    pub handlers: ClientHandlers<V, T, U, E, A, P>,
    pub ipc: ClientIpcQueues<E>,
}

/// Every handler that reports events reports them to a clone of the event
/// queues, the permission handler works on a clone of the permission parts, and
/// audio is handled, on a clone of the audio parts, exactly where it is
/// captured.
pub open spec fn wired<V, T, U, E: Clone, A: Clone, P: Clone>(
    handlers: ClientHandlers<V, T, U, E, A, P>,
    queues: ClientQueues<E, A, P>,
) -> bool {
    let events = queues.event_queues;
    &&& cloned(events, handlers.display_handler.event_queues)
    &&& cloned(events, handlers.life_span_handler.event_queues)
    &&& cloned(events, handlers.load_handler.event_queues)
    &&& cloned(events, handlers.find_handler.event_queues)
    &&& cloned(events, handlers.drag_handler.event_queues)
    &&& cloned(events, handlers.download_handler.event_queues)
    &&& cloned(events, handlers.request_handler.event_queues)
    &&& cloned(events, handlers.permission_handler.event_queues)
    &&& cloned(queues.permissions, handlers.permission_handler.permissions)
    &&& match handlers.audio_handler {
        Some(handler) => queues.enable_audio_capture && cloned(queues.audio, handler.audio),
        None => !queues.enable_audio_capture,
    }
}

/// Gives each handler its parts.
pub fn build_client_handlers<V, T, U, E: Clone, A: Clone, P: Clone>(
    render_handler: V,
    cursor_type: T,
    queues: &ClientQueues<E, A, P>,
    popup_policy: U,
) -> (handlers: ClientHandlers<V, T, U, E, A, P>)
    ensures
        handlers.render_handler == render_handler,
        handlers.display_handler.cursor_type == cursor_type,
        handlers.life_span_handler.popup_policy == popup_policy,
        wired(handlers, *queues),
{
    let audio_handler = if queues.enable_audio_capture {
        Some(AudioHandlerImpl { audio: queues.audio.clone() })
    } else {
        None
    };
    ClientHandlers {
        render_handler,
        display_handler: DisplayHandlerImpl {
            cursor_type,
            event_queues: queues.event_queues.clone(),
        },
        context_menu_handler: ContextMenuHandlerImpl {  },
        life_span_handler: LifeSpanHandlerImpl {
            event_queues: queues.event_queues.clone(),
            popup_policy,
        },
        load_handler: LoadHandlerImpl { event_queues: queues.event_queues.clone() },
        find_handler: FindHandlerImpl { event_queues: queues.event_queues.clone() },
        drag_handler: DragHandlerImpl { event_queues: queues.event_queues.clone() },
        audio_handler,
        download_handler: DownloadHandlerImpl { event_queues: queues.event_queues.clone() },
        request_handler: RequestHandlerImpl { event_queues: queues.event_queues.clone() },
        permission_handler: PermissionHandlerImpl {
            event_queues: queues.event_queues.clone(),
            permissions: queues.permissions.clone(),
        },
    }
}

/// Gives the messages between processes their parts.
pub fn build_ipc_queues<E: Clone, A, P>(queues: &ClientQueues<E, A, P>) -> (ipc: ClientIpcQueues<E>)
    ensures
        cloned(queues.event_queues, ipc.event_queues),
{
    ClientIpcQueues { event_queues: queues.event_queues.clone() }
}

impl<V, T, U, E: Clone, A: Clone, P: Clone> CefClientImpl<V, T, U, E, A, P> {
    /// Builds a client from a render handler and the parts that it shares with
    /// its host. Software and accelerated rendering differ in the render handler
    /// alone.
    pub fn build(
        render_handler: V,
        cursor_type: T,
        queues: ClientQueues<E, A, P>,
        popup_policy: U,
    ) -> (client: Self)
        ensures
            client.handlers.render_handler == render_handler,
            client.handlers.display_handler.cursor_type == cursor_type,
            client.handlers.life_span_handler.popup_policy == popup_policy,
            wired(client.handlers, queues),
            cloned(queues.event_queues, client.ipc.event_queues),
    {
        let ipc = build_ipc_queues(&queues);
        let handlers = build_client_handlers(render_handler, cursor_type, &queues, popup_policy);
        CefClientImpl { handlers, ipc }
    }
}

/// A client handles audio exactly where its host gets audio to play: the two
/// are decided by the same flag.
pub proof fn audio_is_handled_where_it_is_played<V, T, U, E: Clone, Q, F, R, D, P: Clone>(
    handlers: ClientHandlers<V, T, U, E, AudioQueues<Q, F, R, D>, P>,
    queues: ClientQueues<E, AudioQueues<Q, F, R, D>, P>,
    state: Option<AudioState<Q, R, D>>,
) where AudioQueues<Q, F, R, D>: Clone
    requires
        wired(handlers, queues),
        call_ensures(
            ClientQueues::<E, AudioQueues<Q, F, R, D>, P>::into_audio_state,
            (queues,),
            state,
        ),
    ensures
        handlers.audio_handler is Some <==> state is Some,
{
}

} // verus!
