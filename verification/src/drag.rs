//! Drag and drop.

use crate::codes::{drag_operations_bits, drag_ops_to_u32};
use crate::events::{texts, DragDataInfo, DragDataModel, DragEvent, EventQueues, EventQueuesModel};
use vstd::prelude::*;

verus! {

/// What the browser says about the data of a drag. The flags are set where they
/// are not zero.
#[derive(Debug, PartialEq)]
pub struct DragData {
    pub is_link: i32,
    pub is_file: i32,
    pub is_fragment: i32,
    pub link_url: String,
    pub link_title: String,
    pub fragment_text: String,
    pub fragment_html: String,
    pub file_name: String,
}

/// The text where the flag is set, and nothing elsewhere.
pub open spec fn text_if(set: bool, text: Seq<char>) -> Seq<char> {
    if set {
        text
    } else {
        Seq::empty()
    }
}

/// The host's description of a drag: link texts for links, fragment texts for
/// fragments, and the file name for files that have one.
pub open spec fn drag_info_of(drag_data: DragData) -> DragDataModel {
    let is_link = drag_data.is_link != 0;
    let is_file = drag_data.is_file != 0;
    let is_fragment = drag_data.is_fragment != 0;
    DragDataInfo {
        is_link,
        is_file,
        is_fragment,
        link_url: text_if(is_link, drag_data.link_url@),
        link_title: text_if(is_link, drag_data.link_title@),
        fragment_text: text_if(is_fragment, drag_data.fragment_text@),
        fragment_html: text_if(is_fragment, drag_data.fragment_html@),
        file_names: if is_file && drag_data.file_name@.len() > 0 {
            seq![drag_data.file_name@]
        } else {
            Seq::empty()
        },
    }
}

/// Keeps a string where the flag is set.
fn string_if(set: bool, string: String) -> (kept: String)
    ensures
        kept@ == text_if(set, string@),
{
    if set {
        string
    } else {
        String::new()
    }
}

/// Describes the data of a drag for the host.
pub fn extract_drag_data_info(drag_data: DragData) -> (info: DragDataInfo)
    ensures
        info@ == drag_info_of(drag_data),
{
    let ghost given = drag_data;
    let is_link: bool = drag_data.is_link != 0;
    let is_file: bool = drag_data.is_file != 0;
    let is_fragment: bool = drag_data.is_fragment != 0;
    let mut file_names: Vec<String> = Vec::new();
    if is_file {
        let name = drag_data.file_name;
        if !name.as_str().is_empty() {
            file_names.push(name);
        }
    }
    assert(texts(file_names@) =~= drag_info_of(given).file_names);
    DragDataInfo {
        is_link,
        is_file,
        is_fragment,
        link_url: string_if(is_link, drag_data.link_url),
        link_title: string_if(is_link, drag_data.link_title),
        fragment_text: string_if(is_fragment, drag_data.fragment_text),
        fragment_html: string_if(is_fragment, drag_data.fragment_html),
        file_names,
    }
}

/// The queues after the page has started a drag. Without data nothing changes.
pub open spec fn drag_started(
    queues: EventQueuesModel,
    drag_data: Option<DragData>,
    allowed_ops: u32,
    x: i32,
    y: i32,
) -> EventQueuesModel {
    match drag_data {
        Some(data) => queues.with_drag_event(
            DragEvent::Started { drag_data: drag_info_of(data), x, y, allowed_ops },
        ),
        None => queues,
    }
}

/// The queues after a drag has entered the view. Without data nothing changes.
pub open spec fn drag_entered(
    queues: EventQueuesModel,
    drag_data: Option<DragData>,
    mask: u32,
) -> EventQueuesModel {
    match drag_data {
        Some(data) => queues.with_drag_event(
            DragEvent::Entered { drag_data: drag_info_of(data), mask },
        ),
        None => queues,
    }
}

/// The page starts a drag. Returns 1: the host takes it from here.
pub fn handle_start_dragging(
    drag_data: Option<DragData>,
    allowed_ops: &cef::DragOperationsMask,
    x: i32,
    y: i32,
    event_queues: Option<&mut EventQueues>,
) -> (handled: i32)
    ensures
        handled == 1,
        event_queues matches Some(queues) ==> final(queues)@ == drag_started(
            queues@,
            drag_data,
            drag_operations_bits(*allowed_ops),
            x,
            y,
        ),
{
    if let Some(drag_data) = drag_data {
        let drag_info = extract_drag_data_info(drag_data);
        if let Some(queues) = event_queues {
            queues.push_drag_event(
                DragEvent::Started {
                    drag_data: drag_info,
                    x,
                    y,
                    allowed_ops: drag_ops_to_u32(allowed_ops),
                },
            );
        }
    }
    1
}

/// The operation that a drop would perform has changed.
pub fn handle_update_drag_cursor(
    operation: &cef::DragOperationsMask,
    event_queues: Option<&mut EventQueues>,
)
    ensures
        event_queues matches Some(queues) ==> final(queues)@ == queues@.with_drag_event(
            DragEvent::UpdateCursor { operation: drag_operations_bits(*operation) },
        ),
{
    if let Some(queues) = event_queues {
        queues.push_drag_event(DragEvent::UpdateCursor { operation: drag_ops_to_u32(operation) });
    }
}

/// A drag enters the view. Returns 0: the browser goes on with it.
pub fn on_drag_enter(
    drag_data: Option<DragData>,
    mask: &cef::DragOperationsMask,
    event_queues: Option<&mut EventQueues>,
) -> (canceled: i32)
    ensures
        canceled == 0,
        event_queues matches Some(queues) ==> final(queues)@ == drag_entered(
            queues@,
            drag_data,
            drag_operations_bits(*mask),
        ),
{
    if let Some(drag_data) = drag_data {
        let drag_info = extract_drag_data_info(drag_data);
        if let Some(queues) = event_queues {
            queues.push_drag_event(
                DragEvent::Entered { drag_data: drag_info, mask: drag_ops_to_u32(mask) },
            );
        }
    }
    0
}

/// A drag that is neither link nor file nor fragment carries no text.
pub proof fn a_plain_drag_carries_nothing(drag_data: DragData)
    requires
        drag_data.is_link == 0,
        drag_data.is_file == 0,
        drag_data.is_fragment == 0,
    ensures
        ({
            let info = drag_info_of(drag_data);
            &&& info.link_url.len() == 0
            &&& info.link_title.len() == 0
            &&& info.fragment_text.len() == 0
            &&& info.fragment_html.len() == 0
            &&& info.file_names.len() == 0
        }),
{
}

/// A drag names at most one file, and never an empty name.
pub proof fn a_drag_names_at_most_one_file(drag_data: DragData)
    ensures
        drag_info_of(drag_data).file_names.len() <= 1,
        forall|i: int|
            0 <= i < drag_info_of(drag_data).file_names.len() ==> (#[trigger] drag_info_of(
                drag_data,
            ).file_names[i]).len() > 0,
        drag_info_of(drag_data).file_names.len() > 0 ==> drag_info_of(drag_data).is_file,
{
}

} // verus!
