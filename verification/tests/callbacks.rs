use cef::sys::cef_drag_operations_mask_t;
use gdcef::display::{
    cef_cursor_to_cursor_type, cursor_shape, on_address_change, on_console_message,
    on_cursor_change, on_title_change, CursorShape,
};
use gdcef::downloads::{
    can_download, on_before_download, on_download_updated, DownloadProgress, DownloadReply,
    NewDownload,
};
use gdcef::drag::{
    extract_drag_data_info, handle_start_dragging, handle_update_drag_cursor, on_drag_enter,
    DragData,
};
use gdcef::events::{
    ConsoleMessageEvent, DownloadRequestEvent, DownloadUpdateEvent, DragDataInfo, DragEvent,
    EventQueues, FindResultEvent, LoadingStateEvent, PopupRequestEvent,
};
use gdcef::navigation::{
    on_before_popup, on_find_result, on_load_end, on_load_error, on_load_start,
    on_render_process_terminated, termination_reason, LoadingFrame, PopupReply, REDIRECT,
    SIGNAL_ONLY,
};

fn text(text: &str) -> Option<String> {
    Some(text.to_string())
}

fn drag_data(is_link: i32, is_file: i32, is_fragment: i32, file_name: &str) -> DragData {
    DragData {
        is_link,
        is_file,
        is_fragment,
        link_url: "https://a.example".to_string(),
        link_title: "A".to_string(),
        fragment_text: "text".to_string(),
        fragment_html: "<b>text</b>".to_string(),
        file_name: file_name.to_string(),
    }
}

fn mask(bits: u32) -> cef::DragOperationsMask {
    cef::DragOperationsMask::from(cef_drag_operations_mask_t(bits))
}

#[test]
fn drag_texts_follow_the_kind_of_data() {
    let nothing = DragDataInfo {
        is_link: false,
        is_file: false,
        is_fragment: false,
        link_url: String::new(),
        link_title: String::new(),
        fragment_text: String::new(),
        fragment_html: String::new(),
        file_names: vec![],
    };
    assert_eq!(extract_drag_data_info(drag_data(0, 0, 0, "f")), nothing);
    let link = extract_drag_data_info(drag_data(1, 0, 0, "f"));
    assert!(link.is_link && !link.is_file && !link.is_fragment);
    assert_eq!((link.link_url.as_str(), link.link_title.as_str()), ("https://a.example", "A"));
    assert_eq!(link.fragment_text, "");
    let fragment = extract_drag_data_info(drag_data(0, 0, -1, "f"));
    assert_eq!(fragment.fragment_text, "text");
    assert_eq!(fragment.fragment_html, "<b>text</b>");
    assert_eq!(fragment.link_url, "");
    assert!(fragment.file_names.is_empty());
    let file = extract_drag_data_info(drag_data(0, 1, 0, "f"));
    assert_eq!(file.file_names, vec!["f".to_string()]);
    let unnamed = extract_drag_data_info(drag_data(0, 1, 0, ""));
    assert!(unnamed.is_file && unnamed.file_names.is_empty());
}

#[test]
fn drags_are_queued_with_their_operations() {
    let mut queues = EventQueues::new();
    let data = || drag_data(1, 0, 0, "");
    assert_eq!(handle_start_dragging(Some(data()), &mask(5), 7, 8, Some(&mut queues)), 1);
    handle_update_drag_cursor(&mask(16), Some(&mut queues));
    assert_eq!(on_drag_enter(Some(data()), &mask(u32::MAX), Some(&mut queues)), 0);
    assert_eq!(handle_start_dragging(None, &mask(5), 7, 8, Some(&mut queues)), 1);
    assert_eq!(on_drag_enter(None, &mask(1), Some(&mut queues)), 0);
    assert_eq!(handle_start_dragging(Some(data()), &mask(5), 7, 8, None), 1);
    let info = || extract_drag_data_info(data());
    assert_eq!(
        queues.drag_events,
        vec![
            DragEvent::Started { drag_data: info(), x: 7, y: 8, allowed_ops: 5 },
            DragEvent::UpdateCursor { operation: 16 },
            DragEvent::Entered { drag_data: info(), mask: u32::MAX },
        ]
    );
}

#[test]
fn cursors_have_shapes() {
    let shapes = [
        (cef::CursorType::POINTER, CursorShape::Arrow),
        (cef::CursorType::IBEAM, CursorShape::IBeam),
        (cef::CursorType::HAND, CursorShape::Hand),
        (cef::CursorType::CROSS, CursorShape::Cross),
        (cef::CursorType::WAIT, CursorShape::Wait),
        (cef::CursorType::HELP, CursorShape::Help),
        (cef::CursorType::MOVE, CursorShape::Move),
        (cef::CursorType::NORTHRESIZE, CursorShape::ResizeNS),
        (cef::CursorType::SOUTHRESIZE, CursorShape::ResizeNS),
        (cef::CursorType::NORTHSOUTHRESIZE, CursorShape::ResizeNS),
        (cef::CursorType::EASTRESIZE, CursorShape::ResizeEW),
        (cef::CursorType::WESTRESIZE, CursorShape::ResizeEW),
        (cef::CursorType::EASTWESTRESIZE, CursorShape::ResizeEW),
        (cef::CursorType::NORTHEASTRESIZE, CursorShape::ResizeNESW),
        (cef::CursorType::SOUTHWESTRESIZE, CursorShape::ResizeNESW),
        (cef::CursorType::NORTHEASTSOUTHWESTRESIZE, CursorShape::ResizeNESW),
        (cef::CursorType::NORTHWESTRESIZE, CursorShape::ResizeNWSE),
        (cef::CursorType::SOUTHEASTRESIZE, CursorShape::ResizeNWSE),
        (cef::CursorType::NORTHWESTSOUTHEASTRESIZE, CursorShape::ResizeNWSE),
        (cef::CursorType::NOTALLOWED, CursorShape::NotAllowed),
        (cef::CursorType::PROGRESS, CursorShape::Progress),
        (cef::CursorType::GRAB, CursorShape::Arrow),
        (cef::CursorType::NUM_VALUES, CursorShape::Arrow),
    ];
    for (cursor, shape) in shapes {
        assert_eq!(cef_cursor_to_cursor_type(&cursor), shape);
    }
    assert_eq!(cursor_shape(0), CursorShape::Arrow);
    assert_eq!(cursor_shape(1000), CursorShape::Arrow);
    let mut current = CursorShape::Arrow;
    assert_eq!(on_cursor_change(&cef::CursorType::HAND, Some(&mut current)), 0);
    assert_eq!(current, CursorShape::Hand);
    assert_eq!(on_cursor_change(&cef::CursorType::WAIT, None), 0);
}

#[test]
fn addresses_titles_and_console_lines_are_queued() {
    let mut queues = EventQueues::new();
    on_address_change(text("https://a.example"), Some(&mut queues));
    on_address_change(text("https://b.example"), Some(&mut queues));
    on_address_change(None, Some(&mut queues));
    on_title_change(text("A"), Some(&mut queues));
    on_title_change(None, Some(&mut queues));
    on_title_change(text("B"), None);
    assert_eq!(queues.url_changes, vec!["https://a.example", "https://b.example"]);
    assert_eq!(queues.title_changes, vec!["A"]);
    let level = cef::LogSeverity::WARNING;
    assert_eq!(on_console_message(&level, text("m"), None, 12, Some(&mut queues)), 0);
    assert_eq!(
        queues.console_messages,
        vec![ConsoleMessageEvent {
            level: level.get_raw() as u32,
            message: "m".to_string(),
            source: String::new(),
            line: 12,
        }]
    );
    assert!(queues.console_messages[0].level > 0);
}

#[test]
fn popups_never_open() {
    let disposition = cef::WindowOpenDisposition::NEW_POPUP;
    let mut queues = EventQueues::new();
    let mut reply = |policy, has_main_frame, url: Option<String>| {
        on_before_popup(policy, has_main_frame, url, disposition, 1, Some(&mut queues))
    };
    let blocked = || PopupReply { navigate_to: None, canceled: 1 };
    assert_eq!(
        reply(REDIRECT, true, text("https://a.example")),
        PopupReply { navigate_to: text("https://a.example"), canceled: 1 }
    );
    assert_eq!(reply(REDIRECT, false, text("https://a.example")), blocked());
    assert_eq!(reply(REDIRECT, true, text("")), blocked());
    assert_eq!(reply(REDIRECT, true, None), blocked());
    assert_eq!(reply(0, true, text("https://a.example")), blocked());
    assert_eq!(reply(-5, true, text("https://a.example")), blocked());
    assert_eq!(reply(SIGNAL_ONLY, true, text("https://b.example")), blocked());
    assert_eq!(
        queues.popup_requests,
        vec![PopupRequestEvent {
            target_url: "https://b.example".to_string(),
            disposition,
            user_gesture: true,
        }]
    );
}

#[test]
fn only_the_main_frame_reports_loading() {
    let mut queues = EventQueues::new();
    let frame = |is_main| Some(LoadingFrame { is_main, url: "https://a.example".to_string() });
    on_load_start(frame(1), Some(&mut queues));
    on_load_start(frame(0), Some(&mut queues));
    on_load_start(None, Some(&mut queues));
    on_load_end(frame(1), 404, Some(&mut queues));
    on_load_end(frame(0), 200, Some(&mut queues));
    let error = cef::Errorcode::NAME_NOT_RESOLVED;
    on_load_error(Some(1), &error, None, text("https://b.example"), Some(&mut queues));
    on_load_error(Some(0), &error, None, None, Some(&mut queues));
    on_load_error(None, &error, None, None, Some(&mut queues));
    assert_eq!(
        queues.loading_states,
        vec![
            LoadingStateEvent::Started { url: "https://a.example".to_string() },
            LoadingStateEvent::Finished {
                url: "https://a.example".to_string(),
                http_status_code: 404,
            },
            LoadingStateEvent::Error {
                url: "https://b.example".to_string(),
                error_code: -105,
                error_text: String::new(),
            },
        ]
    );
}

#[test]
fn find_results_are_queued() {
    let mut queues = EventQueues::new();
    on_find_result(5, 2, 0, Some(&mut queues));
    on_find_result(5, 3, 1, Some(&mut queues));
    assert_eq!(
        queues.find_results,
        vec![
            FindResultEvent { count: 5, active_index: 2, final_update: false },
            FindResultEvent { count: 5, active_index: 3, final_update: true },
        ]
    );
}

#[test]
fn terminations_are_put_into_words() {
    let reasons = [
        (cef::TerminationStatus::ABNORMAL_TERMINATION, "Abnormal Termination"),
        (cef::TerminationStatus::PROCESS_WAS_KILLED, "Process Was Killed"),
        (cef::TerminationStatus::PROCESS_CRASHED, "Process Crashed"),
        (cef::TerminationStatus::PROCESS_OOM, "Process OOM"),
        (cef::TerminationStatus::LAUNCH_FAILED, "Unknown"),
    ];
    let mut queues = EventQueues::new();
    for (status, reason) in reasons {
        on_render_process_terminated(status, Some(&mut queues));
        assert_eq!(queues.render_process_terminated.pop_back(), Some((reason.to_string(), status)));
    }
    assert_eq!(termination_reason(77), "Unknown");
}

#[test]
fn downloads_are_announced_and_go_on() {
    let mut queues = EventQueues::new();
    let item = || {
        Some(NewDownload {
            id: 3,
            url: "https://a.example/f".to_string(),
            original_url: "https://b.example/f".to_string(),
            mime_type: "text/plain".to_string(),
            total_bytes: 12,
        })
    };
    assert_eq!(can_download(), 1);
    assert_eq!(
        on_before_download(item(), text("f"), true, Some(&mut queues)),
        DownloadReply { proceed: true, handled: 0 }
    );
    assert_eq!(
        on_before_download(item(), None, false, None),
        DownloadReply { proceed: false, handled: 0 }
    );
    assert_eq!(
        on_before_download(None, text("f"), true, Some(&mut queues)),
        DownloadReply { proceed: false, handled: 0 }
    );
    assert_eq!(
        queues.download_requests,
        vec![DownloadRequestEvent {
            id: 3,
            url: "https://a.example/f".to_string(),
            original_url: "https://b.example/f".to_string(),
            suggested_file_name: "f".to_string(),
            mime_type: "text/plain".to_string(),
            total_bytes: 12,
        }]
    );
}

#[test]
fn download_progress_is_queued() {
    let mut queues = EventQueues::new();
    on_download_updated(None, Some(&mut queues));
    on_download_updated(
        Some(DownloadProgress {
            id: 3,
            url: "https://a.example/f".to_string(),
            full_path: "/tmp/f".to_string(),
            received_bytes: 6,
            total_bytes: 12,
            current_speed: 2,
            percent_complete: 50,
            is_in_progress: 1,
            is_complete: 0,
            is_canceled: 0,
        }),
        Some(&mut queues),
    );
    assert_eq!(
        queues.download_updates,
        vec![DownloadUpdateEvent {
            id: 3,
            url: "https://a.example/f".to_string(),
            full_path: "/tmp/f".to_string(),
            received_bytes: 6,
            total_bytes: 12,
            current_speed: 2,
            percent_complete: 50,
            is_in_progress: true,
            is_complete: false,
            is_canceled: false,
        }]
    );
}

#[test]
fn callbacks_leave_other_queues_alone() {
    let mut queues = EventQueues::new();
    on_title_change(text("A"), Some(&mut queues));
    on_find_result(1, 1, 1, Some(&mut queues));
    on_address_change(text("https://a.example"), Some(&mut queues));
    on_title_change(text("B"), Some(&mut queues));
    assert_eq!(queues.title_changes, vec!["A", "B"]);
    assert_eq!(queues.url_changes.len(), 1);
    assert_eq!(queues.find_results.len(), 1);
    assert!(queues.drag_events.is_empty() && queues.console_messages.is_empty());
    assert!(queues.loading_states.is_empty() && queues.popup_requests.is_empty());
}
