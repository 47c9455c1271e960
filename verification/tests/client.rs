use gdcef::audio::{AudioPacket, AudioParameters};
use gdcef::client::{AudioQueues, CefClientImpl, ClientQueues, PermissionQueues};
use gdcef::events::EventQueues;
use std::collections::VecDeque;
use std::rc::Rc;

type Packets = VecDeque<AudioPacket<f32>>;
type FreshAudio = AudioQueues<Packets, Option<AudioParameters>, f32, bool>;
type Fresh = ClientQueues<EventQueues, FreshAudio, PermissionQueues<i32, u64, (), ()>>;

type SharedAudio = AudioQueues<Rc<u8>, Rc<u8>, Rc<u8>, Rc<u8>>;
type SharedPermissions = PermissionQueues<Rc<u8>, Rc<u8>, Rc<u8>, Rc<u8>>;

fn shared(enable_audio_capture: bool) -> ClientQueues<Rc<u8>, SharedAudio, SharedPermissions> {
    ClientQueues {
        event_queues: Rc::new(1),
        audio: AudioQueues {
            audio_packet_queue: Rc::new(2),
            audio_params: Rc::new(3),
            audio_sample_rate: Rc::new(4),
            audio_shutdown_flag: Rc::new(5),
        },
        enable_audio_capture,
        permissions: PermissionQueues {
            permission_policy: Rc::new(6),
            permission_request_counter: Rc::new(7),
            pending_permission_requests: Rc::new(8),
            pending_permission_aggregates: Rc::new(9),
        },
    }
}

#[test]
fn a_new_client_has_nothing_waiting() {
    let queues: Fresh = ClientQueues::new(44100.0, true, 2, 5, (), ());
    assert!(queues.event_queues.url_changes.is_empty());
    assert!(queues.event_queues.permission_requests.is_empty());
    assert_eq!(queues.event_queues.ime_composition_range, None);
    assert!(queues.audio.audio_packet_queue.is_empty());
    assert_eq!(queues.audio.audio_params, None);
    assert_eq!(queues.audio.audio_sample_rate, 44100.0);
    assert!(!queues.audio.audio_shutdown_flag);
    assert!(queues.enable_audio_capture);
    assert_eq!(queues.permissions.permission_policy, 2);
    assert_eq!(queues.permissions.permission_request_counter, 5);
}

#[test]
fn the_host_gets_audio_only_where_it_is_captured() {
    let state = shared(true).into_audio_state().unwrap();
    assert_eq!((*state.packet_queue, *state.sample_rate, *state.shutdown_flag), (2, 4, 5));
    assert!(shared(false).into_audio_state().is_none());
}

#[test]
fn handlers_share_the_parts_of_the_client() {
    let queues = shared(true);
    let events = queues.event_queues.clone();
    let policy = queues.permissions.permission_policy.clone();
    let client = CefClientImpl::build("render", "cursor", queues, "popups");
    let handlers = client.handlers;
    assert_eq!(handlers.render_handler, "render");
    assert_eq!(handlers.display_handler.cursor_type, "cursor");
    assert_eq!(handlers.life_span_handler.popup_policy, "popups");
    for handle in [
        &handlers.display_handler.event_queues,
        &handlers.life_span_handler.event_queues,
        &handlers.load_handler.event_queues,
        &handlers.find_handler.event_queues,
        &handlers.drag_handler.event_queues,
        &handlers.download_handler.event_queues,
        &handlers.request_handler.event_queues,
        &handlers.permission_handler.event_queues,
        &client.ipc.event_queues,
    ] {
        assert!(Rc::ptr_eq(handle, &events));
    }
    assert!(Rc::ptr_eq(&handlers.permission_handler.permissions.permission_policy, &policy));
    let audio = handlers.audio_handler.unwrap().audio;
    assert_eq!((*audio.audio_packet_queue, *audio.audio_params), (2, 3));
}

#[test]
fn audio_is_not_handled_where_it_is_not_captured() {
    let client = CefClientImpl::build((), (), shared(false), ());
    assert!(client.handlers.audio_handler.is_none());
}

#[test]
fn a_cloned_client_shares_every_part() {
    let queues = shared(true);
    let copy = queues.clone();
    assert!(Rc::ptr_eq(&copy.event_queues, &queues.event_queues));
    assert!(Rc::ptr_eq(&copy.audio.audio_packet_queue, &queues.audio.audio_packet_queue));
    assert!(Rc::ptr_eq(
        &copy.permissions.pending_permission_requests,
        &queues.permissions.pending_permission_requests
    ));
    assert!(copy.enable_audio_capture);
    let client = CefClientImpl::build((), (), copy, ());
    let ipc = client.ipc.clone();
    assert!(Rc::ptr_eq(&ipc.event_queues, &queues.event_queues));
    let state = queues.into_audio_state().unwrap();
    let audio = client.handlers.audio_handler.unwrap().audio;
    assert!(Rc::ptr_eq(&audio.audio_packet_queue, &state.packet_queue));
}
