//! Where the browser goes: popups, page loads, searches in the page, and
//! renderer processes that end.

use crate::codes::{
    error_code, error_code_number, termination_status_code, termination_status_number,
};
use crate::events::{
    string_or_empty, text_or_empty, EventQueues, EventQueuesModel, FindResultEvent,
    LoadingStateEvent, PopupRequestEvent,
};
use vstd::prelude::*;

verus! {

/// The popup policy that navigates the browser itself to the popup's address.
pub const REDIRECT: i32 = 1;

/// The popup policy that tells the host. Any policy but this one and
/// `REDIRECT` blocks popups silently.
pub const SIGNAL_ONLY: i32 = 2;

/// What becomes of a popup.
#[derive(Debug, PartialEq)]
pub struct PopupReply<S = String> {
    /// The address to navigate the main frame to.
    pub navigate_to: Option<S>,
    /// What the callback returns: 1 suppresses the popup window.
    pub canceled: i32,
}

impl View for PopupReply {
    type V = PopupReply<Seq<char>>;

    open spec fn view(&self) -> PopupReply<Seq<char>> {
        PopupReply {
            navigate_to: match self.navigate_to {
                Some(url) => Some(url@),
                None => None,
            },
            canceled: self.canceled,
        }
    }
}

/// The reply to a popup: no window opens, and under the redirecting policy the
/// main frame, where there is one, goes to an address that is not empty.
pub open spec fn popup_reply(
    policy: i32,
    has_main_frame: bool,
    url: Seq<char>,
) -> PopupReply<Seq<char>> {
    PopupReply {
        navigate_to: if policy == REDIRECT && has_main_frame && url.len() > 0 {
            Some(url)
        } else {
            None
        },
        canceled: 1,
    }
}

/// The queues after a popup: one more to decide on where the policy tells the
/// host.
pub open spec fn popup_signaled(
    queues: EventQueuesModel,
    policy: i32,
    url: Seq<char>,
    disposition: cef::WindowOpenDisposition,
    user_gesture: i32,
) -> EventQueuesModel {
    if policy == SIGNAL_ONLY {
        queues.with_popup_request(
            PopupRequestEvent { target_url: url, disposition, user_gesture: user_gesture != 0 },
        )
    } else {
        queues
    }
}

/// A page asks for a popup window.
pub fn on_before_popup(
    policy: i32,
    has_main_frame: bool,
    target_url: Option<String>,
    target_disposition: cef::WindowOpenDisposition,
    user_gesture: i32,
    event_queues: Option<&mut EventQueues>,
) -> (reply: PopupReply)
    ensures
        reply@ == popup_reply(policy, has_main_frame, text_or_empty(target_url)),
        event_queues matches Some(queues) ==> final(queues)@ == popup_signaled(
            queues@,
            policy,
            text_or_empty(target_url),
            target_disposition,
            user_gesture,
        ),
{
    let url = string_or_empty(target_url);
    match policy {
        REDIRECT => {
            if has_main_frame && !url.as_str().is_empty() {
                return PopupReply { navigate_to: Some(url), canceled: 1 };
            }
        },
        SIGNAL_ONLY => {
            if let Some(queues) = event_queues {
                queues.push_popup_request(
                    PopupRequestEvent {
                        target_url: url,
                        disposition: target_disposition,
                        user_gesture: user_gesture != 0,
                    },
                );
            }
        },
        _ => {},
    }
    PopupReply { navigate_to: None, canceled: 1 }
}

/// What the browser says about the frame that a load callback is about. It is
/// the main frame where the flag is not zero.
#[derive(Debug, PartialEq)]
pub struct LoadingFrame {
    pub is_main: i32,
    pub url: String,
}

/// The frame is there and is the main frame.
pub open spec fn is_main_frame(frame: Option<LoadingFrame>) -> bool {
    frame matches Some(frame) && frame.is_main != 0
}

/// Loading starts. Only the main frame counts.
pub fn on_load_start(frame: Option<LoadingFrame>, event_queues: Option<&mut EventQueues>)
    ensures
        event_queues matches Some(queues) ==> final(queues)@ == (if is_main_frame(frame) {
            queues@.with_loading_state(LoadingStateEvent::Started { url: frame->0.url@ })
        } else {
            queues@
        }),
{
    if let Some(frame) = frame {
        if frame.is_main != 0 {
            if let Some(queues) = event_queues {
                queues.push_loading_state(LoadingStateEvent::Started { url: frame.url });
            }
        }
    }
}

/// Loading ends with an HTTP status. Only the main frame counts.
pub fn on_load_end(
    frame: Option<LoadingFrame>,
    http_status_code: i32,
    event_queues: Option<&mut EventQueues>,
)
    ensures
        event_queues matches Some(queues) ==> final(queues)@ == (if is_main_frame(frame) {
            queues@.with_loading_state(
                LoadingStateEvent::Finished { url: frame->0.url@, http_status_code },
            )
        } else {
            queues@
        }),
{
    if let Some(frame) = frame {
        if frame.is_main != 0 {
            if let Some(queues) = event_queues {
                queues.push_loading_state(
                    LoadingStateEvent::Finished { url: frame.url, http_status_code },
                );
            }
        }
    }
}

/// Loading fails. Only the main frame counts; `is_main` tells whether it is the
/// main frame, where there is a frame.
pub fn on_load_error(
    is_main: Option<i32>,
    error: &cef::Errorcode,
    error_string: Option<String>,
    failed_url: Option<String>,
    event_queues: Option<&mut EventQueues>,
)
    ensures
        event_queues matches Some(queues) ==> final(queues)@ == (if is_main is Some && is_main
            != Some(0i32) {
            queues@.with_loading_state(
                LoadingStateEvent::Error {
                    url: text_or_empty(failed_url),
                    error_code: error_code_number(*error),
                    error_text: text_or_empty(error_string),
                },
            )
        } else {
            queues@
        }),
{
    if let Some(is_main) = is_main {
        if is_main != 0 {
            let url = string_or_empty(failed_url);
            let error_text = string_or_empty(error_string);
            let error_code: i32 = error_code(error);
            if let Some(queues) = event_queues {
                queues.push_loading_state(LoadingStateEvent::Error { url, error_code, error_text });
            }
        }
    }
}

/// A search in the page has a result.
pub fn on_find_result(
    count: i32,
    active_match_ordinal: i32,
    final_update: i32,
    event_queues: Option<&mut EventQueues>,
)
    ensures
        event_queues matches Some(queues) ==> final(queues)@ == queues@.with_find_result(
            FindResultEvent {
                count,
                active_index: active_match_ordinal,
                final_update: final_update != 0,
            },
        ),
{
    if let Some(queues) = event_queues {
        queues.push_find_result(
            FindResultEvent {
                count,
                active_index: active_match_ordinal,
                final_update: final_update != 0,
            },
        );
    }
}

/// CEF's numbers for the ways in which a renderer process ends.
pub const TS_ABNORMAL_TERMINATION: u32 = 0;

pub const TS_PROCESS_WAS_KILLED: u32 = 1;

pub const TS_PROCESS_CRASHED: u32 = 2;

pub const TS_PROCESS_OOM: u32 = 3;

/// The words for the number of a termination status.
pub open spec fn reason_for(code: u32) -> &'static str {
    if code == TS_ABNORMAL_TERMINATION {
        "Abnormal Termination"
    } else if code == TS_PROCESS_WAS_KILLED {
        "Process Was Killed"
    } else if code == TS_PROCESS_CRASHED {
        "Process Crashed"
    } else if code == TS_PROCESS_OOM {
        "Process OOM"
    } else {
        "Unknown"
    }
}

/// Puts the number of a termination status into words.
pub fn termination_reason(code: u32) -> (reason: &'static str)
    ensures
        reason == reason_for(code),
{
    match code {
        TS_ABNORMAL_TERMINATION => "Abnormal Termination",
        TS_PROCESS_WAS_KILLED => "Process Was Killed",
        TS_PROCESS_CRASHED => "Process Crashed",
        TS_PROCESS_OOM => "Process OOM",
        _ => "Unknown",
    }
}

/// A renderer process ends.
pub fn on_render_process_terminated(
    status: cef::TerminationStatus,
    event_queues: Option<&mut EventQueues>,
)
    ensures
        event_queues matches Some(queues) ==> final(queues)@ == queues@.with_termination(
            (reason_for(termination_status_number(status))@, status),
        ),
{
    let reason = termination_reason(termination_status_code(&status));
    if let Some(queues) = event_queues {
        queues.push_termination((reason.to_string(), status));
    }
}

/// No policy ever opens a popup window.
pub proof fn popups_are_always_canceled(policy: i32, has_main_frame: bool, url: Seq<char>)
    ensures
        popup_reply(policy, has_main_frame, url).canceled == 1,
{
}

/// A popup is dealt with in one way at most: the browser navigates or the host
/// is told, and under any other policy neither happens.
pub proof fn a_popup_is_redirected_or_signaled(
    queues: EventQueuesModel,
    policy: i32,
    has_main_frame: bool,
    url: Seq<char>,
    disposition: cef::WindowOpenDisposition,
    user_gesture: i32,
)
    ensures
        popup_reply(policy, has_main_frame, url).navigate_to is None || popup_signaled(
            queues,
            policy,
            url,
            disposition,
            user_gesture,
        ) == queues,
        policy != REDIRECT && policy != SIGNAL_ONLY ==> popup_reply(
            policy,
            has_main_frame,
            url,
        ).navigate_to is None && popup_signaled(queues, policy, url, disposition, user_gesture)
            == queues,
{
}

} // verus!
