//! What each callback of the page leaves for the host, event by event.

use crate::codes::{
    cursor_type_number, error_code_number, log_severity_number, termination_status_number,
};
use crate::display::{
    cef_cursor_to_cursor_type, cursor_shape, on_address_change, on_console_message,
    on_cursor_change, on_title_change, CursorShape,
};
use crate::events::{EventQueues, EventQueuesModel, LoadingStateEvent};
use crate::navigation::{
    on_before_popup, on_find_result, on_load_end, on_load_error, on_load_start,
    on_render_process_terminated, termination_reason, LoadingFrame, PopupReply, REDIRECT,
    SIGNAL_ONLY,
};
use crate::view_laws::{a_popup_reply_is_seen_as_it_is, the_newest_events_are_seen_as_they_are};
use vstd::prelude::*;

verus! {

/// Each CEF cursor number has the shape that CEF means by it, and every number
/// without a shape of its own has the arrow.
pub proof fn cursor_numbers_have_their_shapes(code: u32, shape: CursorShape)
    requires
        call_ensures(cursor_shape, (code,), shape),
    ensures
        shape == CursorShape::Cross <==> code == 1,
        shape == CursorShape::Hand <==> code == 2,
        shape == CursorShape::IBeam <==> code == 3,
        shape == CursorShape::Wait <==> code == 4,
        shape == CursorShape::Help <==> code == 5,
        shape == CursorShape::ResizeEW <==> code == 6 || code == 13 || code == 15,
        shape == CursorShape::ResizeNS <==> code == 7 || code == 10 || code == 14,
        shape == CursorShape::ResizeNESW <==> code == 8 || code == 12 || code == 16,
        shape == CursorShape::ResizeNWSE <==> code == 9 || code == 11 || code == 17,
        shape == CursorShape::Move <==> code == 29,
        shape == CursorShape::Progress <==> code == 34,
        shape == CursorShape::NotAllowed <==> code == 38,
{
}

/// A cursor has the shape of its number, however it is asked for, and a change
/// leaves exactly that shape.
pub proof fn a_cursor_has_the_shape_of_its_number(
    cef_type: &cef::CursorType,
    of_number: CursorShape,
    of_type: CursorShape,
    cursor: Option<&mut CursorShape>,
    handled: i32,
)
    requires
        call_ensures(cursor_shape, (cursor_type_number(*cef_type),), of_number),
        call_ensures(cef_cursor_to_cursor_type, (cef_type,), of_type),
        call_ensures(on_cursor_change, (cef_type, cursor), handled),
    ensures
        of_type == of_number,
        handled == 0,
        cursor matches Some(c) ==> *final(c) == of_number,
{
}

/// An address that the page moves to is the newest address, and nothing else
/// changes. Without one nothing changes at all.
pub proof fn an_address_change_is_reported(url: Option<String>, queues: Option<&mut EventQueues>)
    requires
        call_ensures(on_address_change, (url, queues), ()),
    ensures
        queues matches Some(q) ==> match url {
            Some(url) => {
                let after = final(q)@;
                &&& after == (EventQueuesModel { url_changes: after.url_changes, ..q@ })
                &&& after.url_changes.len() == q@.url_changes.len() + 1
                &&& q@.url_changes.is_prefix_of(after.url_changes)
                &&& final(q).url_changes@.last()@ == url@
            },
            None => final(q)@ == q@,
        },
{
    if queues is Some {
        the_newest_events_are_seen_as_they_are(*final(queues->0));
    }
}

/// A title that the page takes is the newest title, and nothing else changes.
/// Without one nothing changes at all.
pub proof fn a_title_change_is_reported(title: Option<String>, queues: Option<&mut EventQueues>)
    requires
        call_ensures(on_title_change, (title, queues), ()),
    ensures
        queues matches Some(q) ==> match title {
            Some(title) => {
                let after = final(q)@;
                &&& after == (EventQueuesModel { title_changes: after.title_changes, ..q@ })
                &&& after.title_changes.len() == q@.title_changes.len() + 1
                &&& q@.title_changes.is_prefix_of(after.title_changes)
                &&& final(q).title_changes@.last()@ == title@
            },
            None => final(q)@ == q@,
        },
{
    if queues is Some {
        the_newest_events_are_seen_as_they_are(*final(queues->0));
    }
}

/// A console line is the newest line, with the severity, the texts and the line
/// number that were given; a text that was not given is empty.
pub proof fn a_console_line_is_reported(
    level: &cef::LogSeverity,
    message: Option<String>,
    source: Option<String>,
    line: i32,
    queues: Option<&mut EventQueues>,
    suppressed: i32,
)
    requires
        call_ensures(on_console_message, (level, message, source, line, queues), suppressed),
    ensures
        suppressed == 0,
        queues matches Some(q) ==> {
            let after = final(q)@;
            let newest = final(q).console_messages@.last();
            &&& after == (EventQueuesModel { console_messages: after.console_messages, ..q@ })
            &&& after.console_messages.len() == q@.console_messages.len() + 1
            &&& q@.console_messages.is_prefix_of(after.console_messages)
            &&& newest.level == log_severity_number(*level)
            &&& newest.line == line
            &&& message is Some ==> newest.message@ == message->0@
            &&& message is None ==> newest.message@.len() == 0
            &&& source is Some ==> newest.source@ == source->0@
            &&& source is None ==> newest.source@.len() == 0
        },
{
    if queues is Some {
        the_newest_events_are_seen_as_they_are(*final(queues->0));
    }
}

/// The policies keep the numbers that the host sets them by: popups redirect
/// under 1 and are signaled under 2.
pub proof fn popup_policies_have_their_numbers(policy: i32)
    ensures
        policy == REDIRECT <==> policy == 1,
        policy == SIGNAL_ONLY <==> policy == 2,
{
}

/// No popup opens. Under the redirecting policy the main frame, where there is
/// one, goes to the popup's address, where that is not empty; under no other
/// policy does the browser go anywhere.
pub proof fn a_popup_is_answered(
    policy: i32,
    has_main_frame: bool,
    target_url: Option<String>,
    disposition: cef::WindowOpenDisposition,
    user_gesture: i32,
    queues: Option<&mut EventQueues>,
    reply: PopupReply,
)
    requires
        call_ensures(
            on_before_popup,
            (policy, has_main_frame, target_url, disposition, user_gesture, queues),
            reply,
        ),
    ensures
        reply.canceled == 1,
        reply.navigate_to is Some <==> policy == REDIRECT && has_main_frame && target_url is Some
            && target_url->0@.len() > 0,
        reply.navigate_to is Some ==> reply.navigate_to->0@ == target_url->0@,
{
    a_popup_reply_is_seen_as_it_is(reply);
}

/// Under the signaling policy a popup is the newest one to decide on, with its
/// own address, disposition and gesture. Under any other policy the host is told
/// nothing.
pub proof fn a_popup_is_reported(
    policy: i32,
    has_main_frame: bool,
    target_url: Option<String>,
    disposition: cef::WindowOpenDisposition,
    user_gesture: i32,
    queues: Option<&mut EventQueues>,
    reply: PopupReply,
)
    requires
        call_ensures(
            on_before_popup,
            (policy, has_main_frame, target_url, disposition, user_gesture, queues),
            reply,
        ),
    ensures
        policy != SIGNAL_ONLY ==> (queues matches Some(q) ==> final(q)@ == q@),
        policy == SIGNAL_ONLY ==> (queues matches Some(q) ==> {
            let after = final(q)@;
            let newest = final(q).popup_requests@.last();
            &&& after == (EventQueuesModel { popup_requests: after.popup_requests, ..q@ })
            &&& after.popup_requests.len() == q@.popup_requests.len() + 1
            &&& q@.popup_requests.is_prefix_of(after.popup_requests)
            &&& target_url is Some ==> newest.target_url@ == target_url->0@
            &&& target_url is None ==> newest.target_url@.len() == 0
            &&& newest.disposition == disposition
            &&& newest.user_gesture <==> user_gesture != 0
        }),
{
    if queues is Some {
        the_newest_events_are_seen_as_they_are(*final(queues->0));
    }
}

/// A load of the main frame that starts is the newest loading state, with the
/// address of the frame. No other frame is reported.
pub proof fn a_started_load_is_reported(
    frame: Option<LoadingFrame>,
    queues: Option<&mut EventQueues>,
)
    requires
        call_ensures(on_load_start, (frame, queues), ()),
    ensures
        frame is None || frame->0.is_main == 0 ==> (queues matches Some(q) ==> final(q)@ == q@),
        frame is Some && frame->0.is_main != 0 ==> (queues matches Some(q) ==> {
            let after = final(q)@;
            &&& after == (EventQueuesModel { loading_states: after.loading_states, ..q@ })
            &&& after.loading_states.len() == q@.loading_states.len() + 1
            &&& q@.loading_states.is_prefix_of(after.loading_states)
            &&& final(q).loading_states@.last() matches LoadingStateEvent::Started { url }
            &&& url@ == frame->0.url@
        }),
{
    if queues is Some {
        the_newest_events_are_seen_as_they_are(*final(queues->0));
    }
}

/// A load of the main frame that ends is the newest loading state, with the
/// address of the frame and the status. No other frame is reported.
pub proof fn a_finished_load_is_reported(
    frame: Option<LoadingFrame>,
    status: i32,
    queues: Option<&mut EventQueues>,
)
    requires
        call_ensures(on_load_end, (frame, status, queues), ()),
    ensures
        frame is None || frame->0.is_main == 0 ==> (queues matches Some(q) ==> final(q)@ == q@),
        frame is Some && frame->0.is_main != 0 ==> (queues matches Some(q) ==> {
            let after = final(q)@;
            &&& after == (EventQueuesModel { loading_states: after.loading_states, ..q@ })
            &&& after.loading_states.len() == q@.loading_states.len() + 1
            &&& q@.loading_states.is_prefix_of(after.loading_states)
            &&& final(q).loading_states@.last() matches LoadingStateEvent::Finished {
                url,
                http_status_code,
            }
            &&& url@ == frame->0.url@
            &&& http_status_code == status
        }),
{
    if queues is Some {
        the_newest_events_are_seen_as_they_are(*final(queues->0));
    }
}

/// A load of the main frame that fails is the newest loading state, with the
/// address that failed, the error's number and its text; a text that was not
/// given is empty. No other frame is reported.
pub proof fn a_failed_load_is_reported(
    is_main: Option<i32>,
    error: &cef::Errorcode,
    error_string: Option<String>,
    failed_url: Option<String>,
    queues: Option<&mut EventQueues>,
)
    requires
        call_ensures(on_load_error, (is_main, error, error_string, failed_url, queues), ()),
    ensures
        is_main is None || is_main->0 == 0 ==> (queues matches Some(q) ==> final(q)@ == q@),
        is_main is Some && is_main->0 != 0 ==> (queues matches Some(q) ==> {
            let after = final(q)@;
            &&& after == (EventQueuesModel { loading_states: after.loading_states, ..q@ })
            &&& after.loading_states.len() == q@.loading_states.len() + 1
            &&& q@.loading_states.is_prefix_of(after.loading_states)
            &&& final(q).loading_states@.last() matches LoadingStateEvent::Error {
                url,
                error_code,
                error_text,
            }
            &&& error_code == error_code_number(*error)
            &&& failed_url is Some ==> url@ == failed_url->0@
            &&& failed_url is None ==> url@.len() == 0
            &&& error_string is Some ==> error_text@ == error_string->0@
            &&& error_string is None ==> error_text@.len() == 0
        }),
{
    if queues is Some {
        the_newest_events_are_seen_as_they_are(*final(queues->0));
    }
}

/// A search result is the newest one, with its count, its place and whether it
/// is the last.
pub proof fn a_find_result_is_reported(
    count: i32,
    ordinal: i32,
    last: i32,
    queues: Option<&mut EventQueues>,
)
    requires
        call_ensures(on_find_result, (count, ordinal, last, queues), ()),
    ensures
        queues matches Some(q) ==> {
            let after = final(q)@;
            let newest = final(q).find_results@.last();
            &&& after == (EventQueuesModel { find_results: after.find_results, ..q@ })
            &&& after.find_results.len() == q@.find_results.len() + 1
            &&& q@.find_results.is_prefix_of(after.find_results)
            &&& newest.count == count
            &&& newest.active_index == ordinal
            &&& newest.final_update <==> last != 0
        },
{
    if queues is Some {
        the_newest_events_are_seen_as_they_are(*final(queues->0));
    }
}

/// Each way for a renderer process to end has its words, and every other number
/// is unknown.
pub proof fn terminations_have_their_words(code: u32, reason: &'static str)
    requires
        call_ensures(termination_reason, (code,), reason),
    ensures
        code == 0 ==> reason@ == "Abnormal Termination"@,
        code == 1 ==> reason@ == "Process Was Killed"@,
        code == 2 ==> reason@ == "Process Crashed"@,
        code == 3 ==> reason@ == "Process OOM"@,
        code > 3 ==> reason@ == "Unknown"@,
{
}

/// A renderer process that ends is the newest one, with the words for its own
/// status and that status.
pub proof fn a_termination_is_reported(
    status: cef::TerminationStatus,
    reason: &'static str,
    queues: Option<&mut EventQueues>,
)
    requires
        call_ensures(termination_reason, (termination_status_number(status),), reason),
        call_ensures(on_render_process_terminated, (status, queues), ()),
    ensures
        queues matches Some(q) ==> {
            let after = final(q)@;
            let newest = final(q).render_process_terminated@.last();
            &&& after == (EventQueuesModel {
                render_process_terminated: after.render_process_terminated,
                ..q@
            })
            &&& after.render_process_terminated.len() == q@.render_process_terminated.len() + 1
            &&& q@.render_process_terminated.is_prefix_of(after.render_process_terminated)
            &&& newest.0@ == reason@
            &&& newest.1 == status
        },
{
    if queues is Some {
        the_newest_events_are_seen_as_they_are(*final(queues->0));
    }
}

} // verus!
