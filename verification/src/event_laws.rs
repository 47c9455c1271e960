//! What holds of the event queues whichever callback comes.

use crate::display::{address_changed, title_changed};
use crate::downloads::{download_announced, download_progressed, DownloadProgress, NewDownload};
use crate::drag::{drag_entered, drag_started, DragData};
use crate::events::{
    ConsoleMessageEvent, DragEvent, EventQueuesModel, FindResultEvent, LoadingStateEvent,
};
use crate::navigation::popup_signaled;
use crate::permissions::queued_requests;
use crate::render::{caret_moved, Rect};
use vstd::prelude::*;

verus! {

/// Every event that waits in `before` waits in `after`, at the same place of the
/// same queue: events may have come, but none has gone or moved.
pub open spec fn keeps_waiting(before: EventQueuesModel, after: EventQueuesModel) -> bool {
    &&& before.drag_events.is_prefix_of(after.drag_events)
    &&& before.url_changes.is_prefix_of(after.url_changes)
    &&& before.title_changes.is_prefix_of(after.title_changes)
    &&& before.console_messages.is_prefix_of(after.console_messages)
    &&& before.popup_requests.is_prefix_of(after.popup_requests)
    &&& before.loading_states.is_prefix_of(after.loading_states)
    &&& before.find_results.is_prefix_of(after.find_results)
    &&& before.download_requests.is_prefix_of(after.download_requests)
    &&& before.download_updates.is_prefix_of(after.download_updates)
    &&& before.render_process_terminated.is_prefix_of(after.render_process_terminated)
    &&& before.permission_requests.is_prefix_of(after.permission_requests)
}

/// Queues in which nothing has happened keep everything waiting.
pub proof fn unchanged_queues_keep_waiting(queues: EventQueuesModel)
    ensures
        keeps_waiting(queues, queues),
{
}

/// What waits through two callbacks waits through both together.
pub proof fn waiting_is_transitive(
    first: EventQueuesModel,
    second: EventQueuesModel,
    third: EventQueuesModel,
)
    requires
        keeps_waiting(first, second),
        keeps_waiting(second, third),
    ensures
        keeps_waiting(first, third),
{
}

/// The drag callbacks take no waiting event away.
pub proof fn drags_keep_waiting(
    queues: EventQueuesModel,
    drag_data: Option<DragData>,
    operations: u32,
    x: i32,
    y: i32,
)
    ensures
        keeps_waiting(queues, drag_started(queues, drag_data, operations, x, y)),
        keeps_waiting(queues, drag_entered(queues, drag_data, operations)),
        keeps_waiting(
            queues,
            queues.with_drag_event(DragEvent::UpdateCursor { operation: operations }),
        ),
{
}

/// The display callbacks take no waiting event away.
pub proof fn display_changes_keep_waiting(
    queues: EventQueuesModel,
    text: Option<String>,
    message: ConsoleMessageEvent<Seq<char>>,
    character_bounds: Option<&[Rect]>,
)
    ensures
        keeps_waiting(queues, address_changed(queues, text)),
        keeps_waiting(queues, title_changed(queues, text)),
        keeps_waiting(queues, queues.with_console_message(message)),
        keeps_waiting(queues, caret_moved(queues, character_bounds)),
{
}

/// The navigation callbacks take no waiting event away.
pub proof fn navigation_keeps_waiting(
    queues: EventQueuesModel,
    policy: i32,
    url: Seq<char>,
    disposition: cef::WindowOpenDisposition,
    user_gesture: i32,
    state: LoadingStateEvent<Seq<char>>,
    result: FindResultEvent,
    termination: (Seq<char>, cef::TerminationStatus),
)
    ensures
        keeps_waiting(
            queues,
            popup_signaled(queues, policy, url, disposition, user_gesture),
        ),
        keeps_waiting(queues, queues.with_loading_state(state)),
        keeps_waiting(queues, queues.with_find_result(result)),
        keeps_waiting(queues, queues.with_termination(termination)),
{
}

/// The download callbacks take no waiting event away.
pub proof fn downloads_keep_waiting(
    queues: EventQueuesModel,
    item: Option<NewDownload>,
    suggested_name: Option<String>,
    progress: Option<DownloadProgress>,
)
    ensures
        keeps_waiting(queues, download_announced(queues, item, suggested_name)),
        keeps_waiting(queues, download_progressed(queues, progress)),
{
}

/// The permission callbacks take no waiting event away.
pub proof fn permission_requests_keep_waiting(
    queues: EventQueuesModel,
    recorded: bool,
    labels: Seq<&'static str>,
    url: Seq<char>,
    counter: u64,
)
    ensures
        keeps_waiting(queues, queued_requests(queues, recorded, labels, url, counter)),
{
}

} // verus!
