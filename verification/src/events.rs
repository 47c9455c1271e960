//! The events that browser callbacks leave for the host application, and the
//! queues that hold them.
//!
//! An event type takes the type of its texts as a parameter: `String` in the
//! queues, `Seq<char>` in the model that the contracts speak of.

use std::collections::VecDeque;
use vstd::prelude::*;

verus! {

/// The text of an optional string, empty where there is none.
pub open spec fn text_or_empty(text: Option<String>) -> Seq<char> {
    match text {
        Some(text) => text@,
        None => Seq::<char>::empty(),
    }
}

/// Takes an optional string, or an empty one where there is none.
pub(crate) fn string_or_empty(text: Option<String>) -> (string: String)
    ensures
        string@ == text_or_empty(text),
{
    match text {
        Some(string) => string,
        None => String::new(),
    }
}

/// What is being dragged. `N` holds the file names.
#[derive(Debug, PartialEq)]
pub struct DragDataInfo<S = String, N = Vec<String>> {
    pub is_link: bool,
    pub is_file: bool,
    pub is_fragment: bool,
    pub link_url: S,
    pub link_title: S,
    pub fragment_text: S,
    pub fragment_html: S,
    pub file_names: N,
}

/// A step of a drag that the page started or that entered the view.
#[derive(Debug, PartialEq)]
pub enum DragEvent<D = DragDataInfo> {
    /// The page starts a drag at a point of the view.
    Started { drag_data: D, x: i32, y: i32, allowed_ops: u32 },
    /// The operation that a drop would perform has changed.
    UpdateCursor { operation: u32 },
    /// A drag has entered the view.
    Entered { drag_data: D, mask: u32 },
}

/// A line that a page wrote to its console.
#[derive(Debug, PartialEq)]
pub struct ConsoleMessageEvent<S = String> {
    pub level: u32,
    pub message: S,
    pub source: S,
    pub line: i32,
}

/// Where the caret of an ongoing text composition stands.
#[derive(Clone, Copy, Debug, PartialEq)]
pub struct ImeCompositionRange {
    pub caret_x: i32,
    pub caret_y: i32,
    pub caret_height: i32,
}

/// A popup that a page asked for and that the host is to decide on.
#[derive(Debug, PartialEq)]
pub struct PopupRequestEvent<S = String> {
    pub target_url: S,
    pub disposition: cef::WindowOpenDisposition,
    pub user_gesture: bool,
}

/// How far the main frame has come with loading a page.
#[derive(Debug, PartialEq)]
pub enum LoadingStateEvent<S = String> {
    /// Loading has started.
    Started { url: S },
    /// Loading has ended with an HTTP status.
    Finished { url: S, http_status_code: i32 },
    /// Loading has failed.
    Error { url: S, error_code: i32, error_text: S },
}

/// What a search in the page has found so far.
#[derive(Clone, Copy, Debug, PartialEq)]
pub struct FindResultEvent {
    pub count: i32,
    pub active_index: i32,
    pub final_update: bool,
}

/// A download that is about to begin.
#[derive(Debug, PartialEq)]
pub struct DownloadRequestEvent<S = String> {
    pub id: u32,
    pub url: S,
    pub original_url: S,
    pub suggested_file_name: S,
    pub mime_type: S,
    pub total_bytes: i64,
}

/// How far a download has come.
#[derive(Debug, PartialEq)]
pub struct DownloadUpdateEvent<S = String> {
    pub id: u32,
    pub url: S,
    pub full_path: S,
    pub received_bytes: i64,
    pub total_bytes: i64,
    pub current_speed: i64,
    pub percent_complete: i32,
    pub is_in_progress: bool,
    pub is_complete: bool,
    pub is_canceled: bool,
}

/// A permission that a page asks for, under the number that answers it.
#[derive(Debug, PartialEq)]
pub struct PermissionRequestEvent<S = String> {
    pub permission_type: S,
    pub url: S,
    pub request_id: u64,
}

/// The texts of a list of strings.
pub open spec fn texts(strings: Seq<String>) -> Seq<Seq<char>> {
    strings.map_values(|s: String| s@)
}

impl View for DragDataInfo {
    type V = DragDataInfo<Seq<char>, Seq<Seq<char>>>;

    open spec fn view(&self) -> DragDataInfo<Seq<char>, Seq<Seq<char>>> {
        DragDataInfo {
            is_link: self.is_link,
            is_file: self.is_file,
            is_fragment: self.is_fragment,
            link_url: self.link_url@,
            link_title: self.link_title@,
            fragment_text: self.fragment_text@,
            fragment_html: self.fragment_html@,
            file_names: texts(self.file_names@),
        }
    }
}

/// What is being dragged, as the contracts see it.
pub type DragDataModel = DragDataInfo<Seq<char>, Seq<Seq<char>>>;

impl View for DragEvent {
    type V = DragEvent<DragDataModel>;

    open spec fn view(&self) -> DragEvent<DragDataModel> {
        match self {
            DragEvent::Started { drag_data, x, y, allowed_ops } => DragEvent::Started {
                drag_data: drag_data@,
                x: *x,
                y: *y,
                allowed_ops: *allowed_ops,
            },
            DragEvent::UpdateCursor { operation } => DragEvent::UpdateCursor {
                operation: *operation,
            },
            DragEvent::Entered { drag_data, mask } => DragEvent::Entered {
                drag_data: drag_data@,
                mask: *mask,
            },
        }
    }
}

impl View for ConsoleMessageEvent {
    type V = ConsoleMessageEvent<Seq<char>>;

    open spec fn view(&self) -> ConsoleMessageEvent<Seq<char>> {
        ConsoleMessageEvent {
            level: self.level,
            message: self.message@,
            source: self.source@,
            line: self.line,
        }
    }
}

impl View for PopupRequestEvent {
    type V = PopupRequestEvent<Seq<char>>;

    open spec fn view(&self) -> PopupRequestEvent<Seq<char>> {
        PopupRequestEvent {
            target_url: self.target_url@,
            disposition: self.disposition,
            user_gesture: self.user_gesture,
        }
    }
}

impl View for LoadingStateEvent {
    type V = LoadingStateEvent<Seq<char>>;

    open spec fn view(&self) -> LoadingStateEvent<Seq<char>> {
        match self {
            LoadingStateEvent::Started { url } => LoadingStateEvent::Started { url: url@ },
            LoadingStateEvent::Finished { url, http_status_code } => LoadingStateEvent::Finished {
                url: url@,
                http_status_code: *http_status_code,
            },
            LoadingStateEvent::Error { url, error_code, error_text } => LoadingStateEvent::Error {
                url: url@,
                error_code: *error_code,
                error_text: error_text@,
            },
        }
    }
}

impl View for DownloadRequestEvent {
    type V = DownloadRequestEvent<Seq<char>>;

    open spec fn view(&self) -> DownloadRequestEvent<Seq<char>> {
        DownloadRequestEvent {
            id: self.id,
            url: self.url@,
            original_url: self.original_url@,
            suggested_file_name: self.suggested_file_name@,
            mime_type: self.mime_type@,
            total_bytes: self.total_bytes,
        }
    }
}

impl View for DownloadUpdateEvent {
    type V = DownloadUpdateEvent<Seq<char>>;

    open spec fn view(&self) -> DownloadUpdateEvent<Seq<char>> {
        DownloadUpdateEvent {
            id: self.id,
            url: self.url@,
            full_path: self.full_path@,
            received_bytes: self.received_bytes,
            total_bytes: self.total_bytes,
            current_speed: self.current_speed,
            percent_complete: self.percent_complete,
            is_in_progress: self.is_in_progress,
            is_complete: self.is_complete,
            is_canceled: self.is_canceled,
        }
    }
}

impl View for PermissionRequestEvent {
    type V = PermissionRequestEvent<Seq<char>>;

    open spec fn view(&self) -> PermissionRequestEvent<Seq<char>> {
        PermissionRequestEvent {
            permission_type: self.permission_type@,
            url: self.url@,
            request_id: self.request_id,
        }
    }
}

/// The queues between the browser and the host, oldest event first.
pub struct EventQueues {
    /// Steps of drags.
    pub drag_events: VecDeque<DragEvent>,
    /// Addresses that the page has moved to.
    pub url_changes: VecDeque<String>,
    /// Titles that the page has taken.
    pub title_changes: VecDeque<String>,
    /// Console lines.
    pub console_messages: VecDeque<ConsoleMessageEvent>,
    /// Popups to decide on.
    pub popup_requests: VecDeque<PopupRequestEvent>,
    /// Loading states of the main frame.
    pub loading_states: VecDeque<LoadingStateEvent>,
    /// Search results.
    pub find_results: VecDeque<FindResultEvent>,
    /// Downloads that are about to begin.
    pub download_requests: VecDeque<DownloadRequestEvent>,
    /// Download progress.
    pub download_updates: VecDeque<DownloadUpdateEvent>,
    /// Renderer processes that ended: the reason in words, and the status.
    pub render_process_terminated: VecDeque<(String, cef::TerminationStatus)>,
    /// Permissions to decide on.
    pub permission_requests: VecDeque<PermissionRequestEvent>,
    /// The latest caret of a text composition.
    pub ime_composition_range: Option<ImeCompositionRange>,
}

/// The contents of the queues, as the contracts see them.
#[verifier::ext_equal]
pub struct EventQueuesModel {
    pub drag_events: Seq<DragEvent<DragDataModel>>,
    pub url_changes: Seq<Seq<char>>,
    pub title_changes: Seq<Seq<char>>,
    pub console_messages: Seq<ConsoleMessageEvent<Seq<char>>>,
    pub popup_requests: Seq<PopupRequestEvent<Seq<char>>>,
    pub loading_states: Seq<LoadingStateEvent<Seq<char>>>,
    pub find_results: Seq<FindResultEvent>,
    pub download_requests: Seq<DownloadRequestEvent<Seq<char>>>,
    pub download_updates: Seq<DownloadUpdateEvent<Seq<char>>>,
    pub render_process_terminated: Seq<(Seq<char>, cef::TerminationStatus)>,
    pub permission_requests: Seq<PermissionRequestEvent<Seq<char>>>,
    pub ime_composition_range: Option<ImeCompositionRange>,
}

impl View for EventQueues {
    type V = EventQueuesModel;

    open spec fn view(&self) -> EventQueuesModel {
        EventQueuesModel {
            drag_events: self.drag_events@.map_values(|e: DragEvent| e@),
            url_changes: self.url_changes@.map_values(|e: String| e@),
            title_changes: self.title_changes@.map_values(|e: String| e@),
            console_messages: self.console_messages@.map_values(|e: ConsoleMessageEvent| e@),
            popup_requests: self.popup_requests@.map_values(|e: PopupRequestEvent| e@),
            loading_states: self.loading_states@.map_values(|e: LoadingStateEvent| e@),
            find_results: self.find_results@,
            download_requests: self.download_requests@.map_values(|e: DownloadRequestEvent| e@),
            download_updates: self.download_updates@.map_values(|e: DownloadUpdateEvent| e@),
            render_process_terminated: self.render_process_terminated@.map_values(|e: (String, cef::TerminationStatus)| (e.0@, e.1)),
            permission_requests: self.permission_requests@.map_values(|e: PermissionRequestEvent| e@),
            ime_composition_range: self.ime_composition_range,
        }
    }
}

impl EventQueuesModel {
    /// Queues in which nothing waits.
    pub open spec fn empty() -> EventQueuesModel {
        EventQueuesModel {
            drag_events: Seq::empty(),
            url_changes: Seq::empty(),
            title_changes: Seq::empty(),
            console_messages: Seq::empty(),
            popup_requests: Seq::empty(),
            loading_states: Seq::empty(),
            find_results: Seq::empty(),
            download_requests: Seq::empty(),
            download_updates: Seq::empty(),
            render_process_terminated: Seq::empty(),
            permission_requests: Seq::empty(),
            ime_composition_range: None,
        }
    }

    /// These queues with one more drag step at the end of theirs.
    pub open spec fn with_drag_event(self, event: DragEvent<DragDataModel>) -> EventQueuesModel {
        EventQueuesModel { drag_events: self.drag_events.push(event), ..self }
    }

    /// These queues with one more address at the end of theirs.
    pub open spec fn with_url_change(self, event: Seq<char>) -> EventQueuesModel {
        EventQueuesModel { url_changes: self.url_changes.push(event), ..self }
    }

    /// These queues with one more title at the end of theirs.
    pub open spec fn with_title_change(self, event: Seq<char>) -> EventQueuesModel {
        EventQueuesModel { title_changes: self.title_changes.push(event), ..self }
    }

    /// These queues with one more console line at the end of theirs.
    pub open spec fn with_console_message(self, event: ConsoleMessageEvent<Seq<char>>) -> EventQueuesModel {
        EventQueuesModel { console_messages: self.console_messages.push(event), ..self }
    }

    /// These queues with one more popup to decide on at the end of theirs.
    pub open spec fn with_popup_request(self, event: PopupRequestEvent<Seq<char>>) -> EventQueuesModel {
        EventQueuesModel { popup_requests: self.popup_requests.push(event), ..self }
    }

    /// These queues with one more loading state at the end of theirs.
    pub open spec fn with_loading_state(self, event: LoadingStateEvent<Seq<char>>) -> EventQueuesModel {
        EventQueuesModel { loading_states: self.loading_states.push(event), ..self }
    }

    /// These queues with one more search result at the end of theirs.
    pub open spec fn with_find_result(self, event: FindResultEvent) -> EventQueuesModel {
        EventQueuesModel { find_results: self.find_results.push(event), ..self }
    }

    /// These queues with one more download request at the end of theirs.
    pub open spec fn with_download_request(self, event: DownloadRequestEvent<Seq<char>>) -> EventQueuesModel {
        EventQueuesModel { download_requests: self.download_requests.push(event), ..self }
    }

    /// These queues with one more download update at the end of theirs.
    pub open spec fn with_download_update(self, event: DownloadUpdateEvent<Seq<char>>) -> EventQueuesModel {
        EventQueuesModel { download_updates: self.download_updates.push(event), ..self }
    }

    /// These queues with one more ended renderer process at the end of theirs.
    pub open spec fn with_termination(self, event: (Seq<char>, cef::TerminationStatus)) -> EventQueuesModel {
        EventQueuesModel { render_process_terminated: self.render_process_terminated.push(event), ..self }
    }

    /// These queues with one more permission to decide on at the end of theirs.
    pub open spec fn with_permission_request(self, event: PermissionRequestEvent<Seq<char>>) -> EventQueuesModel {
        EventQueuesModel { permission_requests: self.permission_requests.push(event), ..self }
    }

    /// These queues with another composition caret.
    pub open spec fn with_ime_composition_range(
        self,
        range: ImeCompositionRange,
    ) -> EventQueuesModel {
        EventQueuesModel { ime_composition_range: Some(range), ..self }
    }
}

/// Mapping the values of a sequence and adding one more at its end commute.
proof fn lemma_push_mapped<A, B>(s: Seq<A>, a: A, f: spec_fn(A) -> B)
    ensures
        s.push(a).map_values(f) == s.map_values(f).push(f(a)),
{
    assert(s.push(a).map_values(f) =~= s.map_values(f).push(f(a)));
}

impl EventQueues {
    /// Creates queues in which nothing waits.
    pub fn new() -> (queues: EventQueues)
        ensures
            queues@ == EventQueuesModel::empty(),
    {
        let queues = EventQueues {
            drag_events: VecDeque::new(),
            url_changes: VecDeque::new(),
            title_changes: VecDeque::new(),
            console_messages: VecDeque::new(),
            popup_requests: VecDeque::new(),
            loading_states: VecDeque::new(),
            find_results: VecDeque::new(),
            download_requests: VecDeque::new(),
            download_updates: VecDeque::new(),
            render_process_terminated: VecDeque::new(),
            permission_requests: VecDeque::new(),
            ime_composition_range: None,
        };
        assert(queues@ =~= EventQueuesModel::empty());
        queues
    }

    /// Adds one more drag step.
    pub(crate) fn push_drag_event(&mut self, event: DragEvent)
        ensures
            final(self)@ == old(self)@.with_drag_event(event@),
    {
        proof {
            lemma_push_mapped(old(self).drag_events@, event, |e: DragEvent| e@);
        }
        self.drag_events.push_back(event);
    }

    /// Adds one more address.
    pub(crate) fn push_url_change(&mut self, event: String)
        ensures
            final(self)@ == old(self)@.with_url_change(event@),
    {
        proof {
            lemma_push_mapped(old(self).url_changes@, event, |e: String| e@);
        }
        self.url_changes.push_back(event);
    }

    /// Adds one more title.
    pub(crate) fn push_title_change(&mut self, event: String)
        ensures
            final(self)@ == old(self)@.with_title_change(event@),
    {
        proof {
            lemma_push_mapped(old(self).title_changes@, event, |e: String| e@);
        }
        self.title_changes.push_back(event);
    }

    /// Adds one more console line.
    pub(crate) fn push_console_message(&mut self, event: ConsoleMessageEvent)
        ensures
            final(self)@ == old(self)@.with_console_message(event@),
    {
        proof {
            lemma_push_mapped(old(self).console_messages@, event, |e: ConsoleMessageEvent| e@);
        }
        self.console_messages.push_back(event);
    }

    /// Adds one more popup to decide on.
    pub(crate) fn push_popup_request(&mut self, event: PopupRequestEvent)
        ensures
            final(self)@ == old(self)@.with_popup_request(event@),
    {
        proof {
            lemma_push_mapped(old(self).popup_requests@, event, |e: PopupRequestEvent| e@);
        }
        self.popup_requests.push_back(event);
    }

    /// Adds one more loading state.
    pub(crate) fn push_loading_state(&mut self, event: LoadingStateEvent)
        ensures
            final(self)@ == old(self)@.with_loading_state(event@),
    {
        proof {
            lemma_push_mapped(old(self).loading_states@, event, |e: LoadingStateEvent| e@);
        }
        self.loading_states.push_back(event);
    }

    /// Adds one more search result.
    pub(crate) fn push_find_result(&mut self, event: FindResultEvent)
        ensures
            final(self)@ == old(self)@.with_find_result(event),
    {
        self.find_results.push_back(event);
    }

    /// Adds one more download request.
    pub(crate) fn push_download_request(&mut self, event: DownloadRequestEvent)
        ensures
            final(self)@ == old(self)@.with_download_request(event@),
    {
        proof {
            lemma_push_mapped(old(self).download_requests@, event, |e: DownloadRequestEvent| e@);
        }
        self.download_requests.push_back(event);
    }

    /// Adds one more download update.
    pub(crate) fn push_download_update(&mut self, event: DownloadUpdateEvent)
        ensures
            final(self)@ == old(self)@.with_download_update(event@),
    {
        proof {
            lemma_push_mapped(old(self).download_updates@, event, |e: DownloadUpdateEvent| e@);
        }
        self.download_updates.push_back(event);
    }

    /// Adds one more ended renderer process.
    pub(crate) fn push_termination(&mut self, event: (String, cef::TerminationStatus))
        ensures
            final(self)@ == old(self)@.with_termination((event.0@, event.1)),
    {
        proof {
            lemma_push_mapped(old(self).render_process_terminated@, event, |e: (String, cef::TerminationStatus)| (e.0@, e.1));
        }
        self.render_process_terminated.push_back(event);
    }

    /// Adds one more permission to decide on.
    pub(crate) fn push_permission_request(&mut self, event: PermissionRequestEvent)
        ensures
            final(self)@ == old(self)@.with_permission_request(event@),
    {
        proof {
            lemma_push_mapped(old(self).permission_requests@, event, |e: PermissionRequestEvent| e@);
        }
        self.permission_requests.push_back(event);
    }
}

} // verus!
