//! What the page shows about itself: its cursor, address, title and console.

use crate::codes::{
    cursor_type_code, cursor_type_number, log_severity_code, log_severity_number,
};
use crate::events::{
    string_or_empty, text_or_empty, ConsoleMessageEvent, EventQueues, EventQueuesModel,
};
use vstd::prelude::*;

verus! {

/// CEF's numbers for the cursors that have a shape of their own.
pub const CT_CROSS: u32 = 1;

pub const CT_HAND: u32 = 2;

pub const CT_IBEAM: u32 = 3;

pub const CT_WAIT: u32 = 4;

pub const CT_HELP: u32 = 5;

pub const CT_EASTRESIZE: u32 = 6;

pub const CT_NORTHRESIZE: u32 = 7;

pub const CT_NORTHEASTRESIZE: u32 = 8;

pub const CT_NORTHWESTRESIZE: u32 = 9;

pub const CT_SOUTHRESIZE: u32 = 10;

pub const CT_SOUTHEASTRESIZE: u32 = 11;

pub const CT_SOUTHWESTRESIZE: u32 = 12;

pub const CT_WESTRESIZE: u32 = 13;

pub const CT_NORTHSOUTHRESIZE: u32 = 14;

pub const CT_EASTWESTRESIZE: u32 = 15;

pub const CT_NORTHEASTSOUTHWESTRESIZE: u32 = 16;

pub const CT_NORTHWESTSOUTHEASTRESIZE: u32 = 17;

pub const CT_MOVE: u32 = 29;

pub const CT_PROGRESS: u32 = 34;

pub const CT_NOTALLOWED: u32 = 38;

/// The shapes that the host can give its cursor.
#[derive(Clone, Copy, Debug, PartialEq, Eq, Structural)]
pub enum CursorShape {
    Arrow,
    IBeam,
    Hand,
    Cross,
    Wait,
    Help,
    Move,
    ResizeNS,
    ResizeEW,
    ResizeNESW,
    ResizeNWSE,
    NotAllowed,
    Progress,
}

/// The shape for the number of a CEF cursor: an arrow, where there is none of
/// its own.
pub open spec fn shape_of(code: u32) -> CursorShape {
    if code == CT_IBEAM {
        CursorShape::IBeam
    } else if code == CT_HAND {
        CursorShape::Hand
    } else if code == CT_CROSS {
        CursorShape::Cross
    } else if code == CT_WAIT {
        CursorShape::Wait
    } else if code == CT_HELP {
        CursorShape::Help
    } else if code == CT_MOVE {
        CursorShape::Move
    } else if code == CT_NORTHRESIZE || code == CT_SOUTHRESIZE || code == CT_NORTHSOUTHRESIZE {
        CursorShape::ResizeNS
    } else if code == CT_EASTRESIZE || code == CT_WESTRESIZE || code == CT_EASTWESTRESIZE {
        CursorShape::ResizeEW
    } else if code == CT_NORTHEASTRESIZE || code == CT_SOUTHWESTRESIZE || code
        == CT_NORTHEASTSOUTHWESTRESIZE {
        CursorShape::ResizeNESW
    } else if code == CT_NORTHWESTRESIZE || code == CT_SOUTHEASTRESIZE || code
        == CT_NORTHWESTSOUTHEASTRESIZE {
        CursorShape::ResizeNWSE
    } else if code == CT_NOTALLOWED {
        CursorShape::NotAllowed
    } else if code == CT_PROGRESS {
        CursorShape::Progress
    } else {
        CursorShape::Arrow
    }
}

/// Finds the shape for the number of a CEF cursor.
pub fn cursor_shape(code: u32) -> (shape: CursorShape)
    ensures
        shape == shape_of(code),
{
    match code {
        CT_IBEAM => CursorShape::IBeam,
        CT_HAND => CursorShape::Hand,
        CT_CROSS => CursorShape::Cross,
        CT_WAIT => CursorShape::Wait,
        CT_HELP => CursorShape::Help,
        CT_MOVE => CursorShape::Move,
        CT_NORTHRESIZE | CT_SOUTHRESIZE | CT_NORTHSOUTHRESIZE => CursorShape::ResizeNS,
        CT_EASTRESIZE | CT_WESTRESIZE | CT_EASTWESTRESIZE => CursorShape::ResizeEW,
        CT_NORTHEASTRESIZE | CT_SOUTHWESTRESIZE
        | CT_NORTHEASTSOUTHWESTRESIZE => CursorShape::ResizeNESW,
        CT_NORTHWESTRESIZE | CT_SOUTHEASTRESIZE
        | CT_NORTHWESTSOUTHEASTRESIZE => CursorShape::ResizeNWSE,
        CT_NOTALLOWED => CursorShape::NotAllowed,
        CT_PROGRESS => CursorShape::Progress,
        _ => CursorShape::Arrow,
    }
}

/// Finds the shape for a CEF cursor.
pub fn cef_cursor_to_cursor_type(cef_type: &cef::CursorType) -> (shape: CursorShape)
    ensures
        shape == shape_of(cursor_type_number(*cef_type)),
{
    cursor_shape(cursor_type_code(cef_type))
}

/// The cursor changes. Returns 0: the browser may show it as well.
pub fn on_cursor_change(
    cef_type: &cef::CursorType,
    cursor_type: Option<&mut CursorShape>,
) -> (handled: i32)
    ensures
        handled == 0,
        cursor_type matches Some(cursor) ==> *final(cursor) == shape_of(
            cursor_type_number(*cef_type),
        ),
{
    let cursor = cef_cursor_to_cursor_type(cef_type);
    if let Some(cursor_type) = cursor_type {
        *cursor_type = cursor;
    }
    0
}

/// The queues after the page has moved, where its address is given.
pub open spec fn address_changed(
    queues: EventQueuesModel,
    url: Option<String>,
) -> EventQueuesModel {
    match url {
        Some(url) => queues.with_url_change(url@),
        None => queues,
    }
}

/// The queues after the page has taken a title, where one is given.
pub open spec fn title_changed(
    queues: EventQueuesModel,
    title: Option<String>,
) -> EventQueuesModel {
    match title {
        Some(title) => queues.with_title_change(title@),
        None => queues,
    }
}

/// The address of the page changes.
pub fn on_address_change(url: Option<String>, event_queues: Option<&mut EventQueues>)
    ensures
        event_queues matches Some(queues) ==> final(queues)@ == address_changed(queues@, url),
{
    if let Some(url) = url {
        if let Some(queues) = event_queues {
            queues.push_url_change(url);
        }
    }
}

/// The title of the page changes.
pub fn on_title_change(title: Option<String>, event_queues: Option<&mut EventQueues>)
    ensures
        event_queues matches Some(queues) ==> final(queues)@ == title_changed(queues@, title),
{
    if let Some(title) = title {
        if let Some(queues) = event_queues {
            queues.push_title_change(title);
        }
    }
}

/// The page writes to its console. Returns 0: the line is still printed by the
/// browser.
pub fn on_console_message(
    level: &cef::LogSeverity,
    message: Option<String>,
    source: Option<String>,
    line: i32,
    event_queues: Option<&mut EventQueues>,
) -> (suppressed: i32)
    ensures
        suppressed == 0,
        event_queues matches Some(queues) ==> final(queues)@ == queues@.with_console_message(
            ConsoleMessageEvent {
                level: log_severity_number(*level),
                message: text_or_empty(message),
                source: text_or_empty(source),
                line,
            },
        ),
{
    let message = string_or_empty(message);
    let source = string_or_empty(source);
    let level: u32 = log_severity_code(level);
    if let Some(queues) = event_queues {
        queues.push_console_message(ConsoleMessageEvent { level, message, source, line });
    }
    0
}

} // verus!
