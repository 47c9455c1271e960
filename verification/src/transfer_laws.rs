//! What drags and downloads leave for the host, event by event.

use crate::codes::drag_operations_bits;
use crate::downloads::{
    can_download, on_before_download, on_download_updated, DownloadProgress, DownloadReply,
    NewDownload,
};
use crate::drag::{
    drag_info_of, extract_drag_data_info, handle_start_dragging, handle_update_drag_cursor,
    on_drag_enter, DragData,
};
use crate::events::{DragDataInfo, DragEvent, EventQueues, EventQueuesModel};
use crate::view_laws::the_newest_events_are_seen_as_they_are;
use vstd::prelude::*;

verus! {

/// A drag is described by its own data: each flag by its own flag, each text by
/// its own text where the data is of that sort and by nothing elsewhere, and the
/// file by its name where the data is a file with a name.
pub proof fn a_drag_is_described_by_its_data(data: DragData)
    ensures
        drag_info_of(data).is_link <==> data.is_link != 0,
        drag_info_of(data).is_file <==> data.is_file != 0,
        drag_info_of(data).is_fragment <==> data.is_fragment != 0,
        data.is_link != 0 ==> drag_info_of(data).link_url == data.link_url@,
        data.is_link == 0 ==> drag_info_of(data).link_url.len() == 0,
        data.is_link != 0 ==> drag_info_of(data).link_title == data.link_title@,
        data.is_link == 0 ==> drag_info_of(data).link_title.len() == 0,
        data.is_fragment != 0 ==> drag_info_of(data).fragment_text == data.fragment_text@,
        data.is_fragment == 0 ==> drag_info_of(data).fragment_text.len() == 0,
        data.is_fragment != 0 ==> drag_info_of(data).fragment_html == data.fragment_html@,
        data.is_fragment == 0 ==> drag_info_of(data).fragment_html.len() == 0,
        data.is_file != 0 && data.file_name@.len() > 0 ==> drag_info_of(data).file_names
            == seq![data.file_name@],
        data.is_file == 0 || data.file_name@.len() == 0 ==> drag_info_of(data).file_names.len()
            == 0,
{
}

/// The description that the host gets holds what the data holds: flags, texts
/// and file names are those of the drag.
pub proof fn a_description_holds_what_the_data_holds(data: DragData, info: DragDataInfo)
    requires
        call_ensures(extract_drag_data_info, (data,), info),
    ensures
        info.is_link <==> data.is_link != 0,
        info.is_file <==> data.is_file != 0,
        info.is_fragment <==> data.is_fragment != 0,
        data.is_link != 0 ==> info.link_url@ == data.link_url@ && info.link_title@
            == data.link_title@,
        data.is_link == 0 ==> info.link_url@.len() == 0 && info.link_title@.len() == 0,
        data.is_fragment != 0 ==> info.fragment_text@ == data.fragment_text@ && info.fragment_html@
            == data.fragment_html@,
        data.is_fragment == 0 ==> info.fragment_text@.len() == 0 && info.fragment_html@.len() == 0,
        data.is_file != 0 && data.file_name@.len() > 0 ==> info.file_names@.len() == 1
            && info.file_names@[0]@ == data.file_name@,
        data.is_file == 0 || data.file_name@.len() == 0 ==> info.file_names@.len() == 0,
{
    let seen = info@;
    assert(seen.file_names.len() == info.file_names@.len());
    if data.is_file != 0 && data.file_name@.len() > 0 {
        assert(seen.file_names[0] == info.file_names@[0]@);
    }
}

/// A drag that the page starts is the newest step, with its description, its
/// place and its operations. Without data nothing is reported.
pub proof fn a_started_drag_is_reported(
    data: Option<DragData>,
    operations: &cef::DragOperationsMask,
    at_x: i32,
    at_y: i32,
    queues: Option<&mut EventQueues>,
    handled: i32,
)
    requires
        call_ensures(handle_start_dragging, (data, operations, at_x, at_y, queues), handled),
    ensures
        handled == 1,
        data is None ==> (queues matches Some(q) ==> final(q)@ == q@),
        data is Some ==> (queues matches Some(q) ==> {
            let after = final(q)@;
            &&& after == (EventQueuesModel { drag_events: after.drag_events, ..q@ })
            &&& after.drag_events.len() == q@.drag_events.len() + 1
            &&& q@.drag_events.is_prefix_of(after.drag_events)
            &&& final(q).drag_events@.last() matches DragEvent::Started {
                drag_data,
                x,
                y,
                allowed_ops,
            }
            &&& drag_data@ == drag_info_of(data->0)
            &&& x == at_x
            &&& y == at_y
            &&& allowed_ops == drag_operations_bits(*operations)
        }),
{
    if queues is Some {
        the_newest_events_are_seen_as_they_are(*final(queues->0));
    }
}

/// A drag that enters the view is the newest step, with its description and its
/// mask. Without data nothing is reported, and the browser always goes on.
pub proof fn an_entering_drag_is_reported(
    data: Option<DragData>,
    operations: &cef::DragOperationsMask,
    queues: Option<&mut EventQueues>,
    canceled: i32,
)
    requires
        call_ensures(on_drag_enter, (data, operations, queues), canceled),
    ensures
        canceled == 0,
        data is None ==> (queues matches Some(q) ==> final(q)@ == q@),
        data is Some ==> (queues matches Some(q) ==> {
            let after = final(q)@;
            &&& after == (EventQueuesModel { drag_events: after.drag_events, ..q@ })
            &&& after.drag_events.len() == q@.drag_events.len() + 1
            &&& q@.drag_events.is_prefix_of(after.drag_events)
            &&& final(q).drag_events@.last() matches DragEvent::Entered { drag_data, mask }
            &&& drag_data@ == drag_info_of(data->0)
            &&& mask == drag_operations_bits(*operations)
        }),
{
    if queues is Some {
        the_newest_events_are_seen_as_they_are(*final(queues->0));
    }
}

/// A change of the drop operation is the newest step, with that operation.
pub proof fn a_drop_operation_is_reported(
    operations: &cef::DragOperationsMask,
    queues: Option<&mut EventQueues>,
)
    requires
        call_ensures(handle_update_drag_cursor, (operations, queues), ()),
    ensures
        queues matches Some(q) ==> {
            let after = final(q)@;
            &&& after == (EventQueuesModel { drag_events: after.drag_events, ..q@ })
            &&& after.drag_events.len() == q@.drag_events.len() + 1
            &&& q@.drag_events.is_prefix_of(after.drag_events)
            &&& final(q).drag_events@.last() matches DragEvent::UpdateCursor { operation }
            &&& operation == drag_operations_bits(*operations)
        },
{
    if queues is Some {
        the_newest_events_are_seen_as_they_are(*final(queues->0));
    }
}

/// Downloads are always allowed, and one that the browser describes goes on
/// where there is a callback to tell it so.
pub proof fn downloads_go_on(
    allowed: i32,
    item: Option<NewDownload>,
    suggested_name: Option<String>,
    has_callback: bool,
    queues: Option<&mut EventQueues>,
    reply: DownloadReply,
)
    requires
        call_ensures(can_download, (), allowed),
        call_ensures(on_before_download, (item, suggested_name, has_callback, queues), reply),
    ensures
        allowed == 1,
        reply.proceed <==> item is Some && has_callback,
        reply.handled == 0,
{
}

/// A new download is the newest request, with everything that its own item says
/// and the suggested name, empty where none was given. Without an item nothing
/// is reported.
pub proof fn a_new_download_is_reported(
    item: Option<NewDownload>,
    suggested_name: Option<String>,
    has_callback: bool,
    queues: Option<&mut EventQueues>,
    reply: DownloadReply,
)
    requires
        call_ensures(on_before_download, (item, suggested_name, has_callback, queues), reply),
    ensures
        item is None ==> (queues matches Some(q) ==> final(q)@ == q@),
        item is Some ==> (queues matches Some(q) ==> {
            let after = final(q)@;
            let newest = final(q).download_requests@.last();
            &&& after == (EventQueuesModel { download_requests: after.download_requests, ..q@ })
            &&& after.download_requests.len() == q@.download_requests.len() + 1
            &&& q@.download_requests.is_prefix_of(after.download_requests)
            &&& newest.id == item->0.id
            &&& newest.url@ == item->0.url@
            &&& newest.original_url@ == item->0.original_url@
            &&& newest.mime_type@ == item->0.mime_type@
            &&& newest.total_bytes == item->0.total_bytes
            &&& suggested_name is Some ==> newest.suggested_file_name@ == suggested_name->0@
            &&& suggested_name is None ==> newest.suggested_file_name@.len() == 0
        }),
{
    if queues is Some {
        the_newest_events_are_seen_as_they_are(*final(queues->0));
    }
}

/// The progress of a download is the newest update, with every number, text and
/// flag of its own item: it is complete exactly where the item is, and canceled
/// exactly where the item is. Without an item nothing is reported.
pub proof fn download_progress_is_reported(
    item: Option<DownloadProgress>,
    queues: Option<&mut EventQueues>,
)
    requires
        call_ensures(on_download_updated, (item, queues), ()),
    ensures
        item is None ==> (queues matches Some(q) ==> final(q)@ == q@),
        item is Some ==> (queues matches Some(q) ==> {
            let after = final(q)@;
            let newest = final(q).download_updates@.last();
            &&& after == (EventQueuesModel { download_updates: after.download_updates, ..q@ })
            &&& after.download_updates.len() == q@.download_updates.len() + 1
            &&& q@.download_updates.is_prefix_of(after.download_updates)
            &&& newest.id == item->0.id
            &&& newest.url@ == item->0.url@
            &&& newest.full_path@ == item->0.full_path@
            &&& newest.received_bytes == item->0.received_bytes
            &&& newest.total_bytes == item->0.total_bytes
            &&& newest.current_speed == item->0.current_speed
            &&& newest.percent_complete == item->0.percent_complete
            &&& newest.is_in_progress <==> item->0.is_in_progress != 0
            &&& newest.is_complete <==> item->0.is_complete != 0
            &&& newest.is_canceled <==> item->0.is_canceled != 0
        }),
{
    if queues is Some {
        the_newest_events_are_seen_as_they_are(*final(queues->0));
    }
}

} // verus!
