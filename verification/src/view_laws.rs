//! The model of the event queues shows what the queues hold: every field of an
//! event is seen as it is, and every queue event by event.

use crate::events::{
    ConsoleMessageEvent, DownloadRequestEvent, DownloadUpdateEvent, DragDataInfo, DragEvent,
    EventQueues, LoadingStateEvent, PermissionRequestEvent, PopupRequestEvent,
};
use crate::navigation::PopupReply;
use vstd::prelude::*;

verus! {

/// The description of a drag is seen field by field and file by file.
pub proof fn a_drag_description_is_seen_as_it_is(info: DragDataInfo, i: int)
    ensures
        info@.is_link == info.is_link,
        info@.is_file == info.is_file,
        info@.is_fragment == info.is_fragment,
        info@.link_url == info.link_url@,
        info@.link_title == info.link_title@,
        info@.fragment_text == info.fragment_text@,
        info@.fragment_html == info.fragment_html@,
        info@.file_names.len() == info.file_names@.len(),
        0 <= i < info.file_names@.len() ==> info@.file_names[i] == info.file_names@[i]@,
{
}

/// A step of a drag is seen as the step that it is, with its place, its
/// operations and its description.
pub proof fn a_drag_step_is_seen_as_it_is(event: DragEvent)
    ensures
        event matches DragEvent::Started { drag_data, x, y, allowed_ops } ==> {
            &&& event@ matches DragEvent::Started {
                drag_data: seen,
                x: seen_x,
                y: seen_y,
                allowed_ops: seen_ops,
            }
            &&& seen == drag_data@
            &&& seen_x == x
            &&& seen_y == y
            &&& seen_ops == allowed_ops
        },
        event matches DragEvent::UpdateCursor { operation } ==> {
            &&& event@ matches DragEvent::UpdateCursor { operation: seen }
            &&& seen == operation
        },
        event matches DragEvent::Entered { drag_data, mask } ==> {
            &&& event@ matches DragEvent::Entered { drag_data: seen, mask: seen_mask }
            &&& seen == drag_data@
            &&& seen_mask == mask
        },
{
}

/// A loading state is seen as the state that it is, with its texts and codes.
pub proof fn a_loading_state_is_seen_as_it_is(event: LoadingStateEvent)
    ensures
        event matches LoadingStateEvent::Started { url } ==> {
            &&& event@ matches LoadingStateEvent::Started { url: seen }
            &&& seen == url@
        },
        event matches LoadingStateEvent::Finished { url, http_status_code } ==> {
            &&& event@ matches LoadingStateEvent::Finished {
                url: seen,
                http_status_code: seen_code,
            }
            &&& seen == url@
            &&& seen_code == http_status_code
        },
        event matches LoadingStateEvent::Error { url, error_code, error_text } ==> {
            &&& event@ matches LoadingStateEvent::Error {
                url: seen,
                error_code: seen_code,
                error_text: seen_text,
            }
            &&& seen == url@
            &&& seen_code == error_code
            &&& seen_text == error_text@
        },
{
}

/// Console lines, popups and permission requests are seen field by field.
pub proof fn page_events_are_seen_as_they_are(
    line: ConsoleMessageEvent,
    popup: PopupRequestEvent,
    request: PermissionRequestEvent,
)
    ensures
        line@.level == line.level,
        line@.message == line.message@,
        line@.source == line.source@,
        line@.line == line.line,
        popup@.target_url == popup.target_url@,
        popup@.disposition == popup.disposition,
        popup@.user_gesture == popup.user_gesture,
        request@.permission_type == request.permission_type@,
        request@.url == request.url@,
        request@.request_id == request.request_id,
{
}

/// Download events are seen field by field.
pub proof fn download_events_are_seen_as_they_are(
    request: DownloadRequestEvent,
    update: DownloadUpdateEvent,
)
    ensures
        request@.id == request.id,
        request@.url == request.url@,
        request@.original_url == request.original_url@,
        request@.suggested_file_name == request.suggested_file_name@,
        request@.mime_type == request.mime_type@,
        request@.total_bytes == request.total_bytes,
        update@.id == update.id,
        update@.url == update.url@,
        update@.full_path == update.full_path@,
        update@.received_bytes == update.received_bytes,
        update@.total_bytes == update.total_bytes,
        update@.current_speed == update.current_speed,
        update@.percent_complete == update.percent_complete,
        update@.is_in_progress == update.is_in_progress,
        update@.is_complete == update.is_complete,
        update@.is_canceled == update.is_canceled,
{
}

/// The reply to a popup is seen field by field.
pub proof fn a_popup_reply_is_seen_as_it_is(reply: PopupReply)
    ensures
        reply@.canceled == reply.canceled,
        reply@.navigate_to is Some <==> reply.navigate_to is Some,
        reply.navigate_to is Some ==> reply@.navigate_to->0 == reply.navigate_to->0@,
{
}

/// Every queue is seen event by event, in its order.
pub proof fn the_queues_are_seen_as_they_are(queues: EventQueues)
    ensures
        queues@.drag_events.len() == queues.drag_events@.len(),
        forall|i: int|
            0 <= i < queues.drag_events@.len() ==> #[trigger] queues@.drag_events[i]
                == queues.drag_events@[i]@,
        queues@.url_changes.len() == queues.url_changes@.len(),
        forall|i: int|
            0 <= i < queues.url_changes@.len() ==> #[trigger] queues@.url_changes[i]
                == queues.url_changes@[i]@,
        queues@.title_changes.len() == queues.title_changes@.len(),
        forall|i: int|
            0 <= i < queues.title_changes@.len() ==> #[trigger] queues@.title_changes[i]
                == queues.title_changes@[i]@,
        queues@.console_messages.len() == queues.console_messages@.len(),
        forall|i: int|
            0 <= i < queues.console_messages@.len() ==> #[trigger] queues@.console_messages[i]
                == queues.console_messages@[i]@,
        queues@.popup_requests.len() == queues.popup_requests@.len(),
        forall|i: int|
            0 <= i < queues.popup_requests@.len() ==> #[trigger] queues@.popup_requests[i]
                == queues.popup_requests@[i]@,
        queues@.loading_states.len() == queues.loading_states@.len(),
        forall|i: int|
            0 <= i < queues.loading_states@.len() ==> #[trigger] queues@.loading_states[i]
                == queues.loading_states@[i]@,
        queues@.find_results == queues.find_results@,
        queues@.download_requests.len() == queues.download_requests@.len(),
        forall|i: int|
            0 <= i < queues.download_requests@.len() ==> #[trigger] queues@.download_requests[i]
                == queues.download_requests@[i]@,
        queues@.download_updates.len() == queues.download_updates@.len(),
        forall|i: int|
            0 <= i < queues.download_updates@.len() ==> #[trigger] queues@.download_updates[i]
                == queues.download_updates@[i]@,
        queues@.render_process_terminated.len() == queues.render_process_terminated@.len(),
        forall|i: int|
            0 <= i < queues.render_process_terminated@.len() ==> (
            #[trigger] queues@.render_process_terminated[i]).0
                == queues.render_process_terminated@[i].0@,
        forall|i: int|
            0 <= i < queues.render_process_terminated@.len() ==> (
            #[trigger] queues@.render_process_terminated[i]).1
                == queues.render_process_terminated@[i].1,
        queues@.permission_requests.len() == queues.permission_requests@.len(),
        forall|i: int|
            0 <= i < queues.permission_requests@.len() ==> #[trigger] queues@.permission_requests[i]
                == queues.permission_requests@[i]@,
        queues@.ime_composition_range == queues.ime_composition_range,
{
}

/// The newest event of every queue is seen as the newest.
pub proof fn the_newest_events_are_seen_as_they_are(queues: EventQueues)
    ensures
        queues@.drag_events.len() > 0 ==> queues@.drag_events.last() == queues.drag_events@.last()@,
        queues@.url_changes.len() > 0 ==> queues@.url_changes.last() == queues.url_changes@.last()@,
        queues@.title_changes.len() > 0 ==> queues@.title_changes.last() == queues.title_changes@.last()@,
        queues@.console_messages.len() > 0 ==> queues@.console_messages.last() == queues.console_messages@.last()@,
        queues@.popup_requests.len() > 0 ==> queues@.popup_requests.last() == queues.popup_requests@.last()@,
        queues@.loading_states.len() > 0 ==> queues@.loading_states.last() == queues.loading_states@.last()@,
        queues@.download_requests.len() > 0 ==> queues@.download_requests.last() == queues.download_requests@.last()@,
        queues@.download_updates.len() > 0 ==> queues@.download_updates.last() == queues.download_updates@.last()@,
        queues@.permission_requests.len() > 0 ==> queues@.permission_requests.last() == queues.permission_requests@.last()@,
        queues@.find_results.last() == queues.find_results@.last(),
        queues@.render_process_terminated.len() > 0 ==> {
            &&& queues@.render_process_terminated.last().0
                == queues.render_process_terminated@.last().0@
            &&& queues@.render_process_terminated.last().1
                == queues.render_process_terminated@.last().1
        },
{
    the_queues_are_seen_as_they_are(queues);
}

/// Nothing waits in new queues.
pub proof fn new_queues_hold_nothing(queues: EventQueues)
    requires
        call_ensures(EventQueues::new, (), queues),
    ensures
        queues.drag_events@.len() == 0,
        queues.url_changes@.len() == 0,
        queues.title_changes@.len() == 0,
        queues.console_messages@.len() == 0,
        queues.popup_requests@.len() == 0,
        queues.loading_states@.len() == 0,
        queues.find_results@.len() == 0,
        queues.download_requests@.len() == 0,
        queues.download_updates@.len() == 0,
        queues.render_process_terminated@.len() == 0,
        queues.permission_requests@.len() == 0,
        queues.ime_composition_range is None,
{
    the_queues_are_seen_as_they_are(queues);
}

} // verus!
