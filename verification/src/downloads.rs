//! Downloads.

use crate::events::{
    string_or_empty, text_or_empty, DownloadRequestEvent, DownloadUpdateEvent, EventQueues,
    EventQueuesModel,
};
use vstd::prelude::*;

verus! {

/// What the browser says about a download that is about to begin.
#[derive(Debug, PartialEq)]
pub struct NewDownload {
    pub id: u32,
    pub url: String,
    pub original_url: String,
    pub mime_type: String,
    pub total_bytes: i64,
}

/// What the browser says about a download under way. The flags are set where
/// they are not zero.
#[derive(Debug, PartialEq)]
pub struct DownloadProgress {
    pub id: u32,
    pub url: String,
    pub full_path: String,
    pub received_bytes: i64,
    pub total_bytes: i64,
    pub current_speed: i64,
    pub percent_complete: i32,
    pub is_in_progress: i32,
    pub is_complete: i32,
    pub is_canceled: i32,
}

/// What is told to the browser about a download that is about to begin.
#[derive(Clone, Copy, Debug, PartialEq, Eq, Structural)]
pub struct DownloadReply {
    /// The download goes on, to the default path and without a dialog.
    pub proceed: bool,
    /// What the callback returns.
    pub handled: i32,
}

/// The request that a new download leaves for the host.
pub open spec fn download_request_of(
    item: NewDownload,
    suggested_name: Option<String>,
) -> DownloadRequestEvent<Seq<char>> {
    DownloadRequestEvent {
        id: item.id,
        url: item.url@,
        original_url: item.original_url@,
        suggested_file_name: text_or_empty(suggested_name),
        mime_type: item.mime_type@,
        total_bytes: item.total_bytes,
    }
}

/// The update that the progress of a download leaves for the host.
pub open spec fn download_update_of(item: DownloadProgress) -> DownloadUpdateEvent<Seq<char>> {
    DownloadUpdateEvent {
        id: item.id,
        url: item.url@,
        full_path: item.full_path@,
        received_bytes: item.received_bytes,
        total_bytes: item.total_bytes,
        current_speed: item.current_speed,
        percent_complete: item.percent_complete,
        is_in_progress: item.is_in_progress != 0,
        is_complete: item.is_complete != 0,
        is_canceled: item.is_canceled != 0,
    }
}

/// The queues after a download has been announced, where its item is given.
pub open spec fn download_announced(
    queues: EventQueuesModel,
    item: Option<NewDownload>,
    suggested_name: Option<String>,
) -> EventQueuesModel {
    match item {
        Some(item) => queues.with_download_request(download_request_of(item, suggested_name)),
        None => queues,
    }
}

/// The queues after a download has progressed, where its item is given.
pub open spec fn download_progressed(
    queues: EventQueuesModel,
    item: Option<DownloadProgress>,
) -> EventQueuesModel {
    match item {
        Some(item) => queues.with_download_update(download_update_of(item)),
        None => queues,
    }
}

/// Whether the browser may download at all: it always may.
pub fn can_download() -> (allowed: i32)
    ensures
        allowed == 1,
{
    1
}

/// A download is about to begin.
pub fn on_before_download(
    download_item: Option<NewDownload>,
    suggested_name: Option<String>,
    has_callback: bool,
    event_queues: Option<&mut EventQueues>,
) -> (reply: DownloadReply)
    ensures
        reply == (DownloadReply { proceed: download_item is Some && has_callback, handled: 0 }),
        event_queues matches Some(queues) ==> final(queues)@ == download_announced(
            queues@,
            download_item,
            suggested_name,
        ),
{
    match download_item {
        Some(item) => {
            let suggested_file_name = string_or_empty(suggested_name);
            if let Some(queues) = event_queues {
                queues.push_download_request(
                    DownloadRequestEvent {
                        id: item.id,
                        url: item.url,
                        original_url: item.original_url,
                        suggested_file_name,
                        mime_type: item.mime_type,
                        total_bytes: item.total_bytes,
                    },
                );
            }
            DownloadReply { proceed: has_callback, handled: 0 }
        },
        None => DownloadReply { proceed: false, handled: 0 },
    }
}

/// A download has progressed.
pub fn on_download_updated(
    download_item: Option<DownloadProgress>,
    event_queues: Option<&mut EventQueues>,
)
    ensures
        event_queues matches Some(queues) ==> final(queues)@ == download_progressed(
            queues@,
            download_item,
        ),
{
    if let Some(item) = download_item {
        if let Some(queues) = event_queues {
            queues.push_download_update(
                DownloadUpdateEvent {
                    id: item.id,
                    url: item.url,
                    full_path: item.full_path,
                    received_bytes: item.received_bytes,
                    total_bytes: item.total_bytes,
                    current_speed: item.current_speed,
                    percent_complete: item.percent_complete,
                    is_in_progress: item.is_in_progress != 0,
                    is_complete: item.is_complete != 0,
                    is_canceled: item.is_canceled != 0,
                },
            );
        }
    }
}

} // verus!
