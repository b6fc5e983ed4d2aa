//! The CEF client of a webview: what it reports to the application, and what the
//! application decides for it.

use crate::browser_slot;
use crate::browser_slot::{BrowserSlot, BrowserSlots};
use crate::cef_calls::ProcessId;
use vstd::prelude::*;

verus! {

/// A handler of the application, by the number it was registered under.
pub type HandlerId = u64;

/// What happened to a browser.
#[derive(Debug)]
pub enum BrowserEvent {
    Created { browser_id: i32 },
    BeforeClose { browser_id: i32 },
    TitleChanged { browser_id: i32, title: String },
    LoadingStateChanged {
        browser_id: i32,
        is_loading: bool,
        can_go_back: bool,
        can_go_forward: bool,
    },
    LoadStarted { browser_id: i32, url: String },
    LoadFinished { browser_id: i32, url: String, http_status_code: i32 },
    ProcessMessage {
        browser_id: i32,
        source_process: ProcessId,
        name: String,
        arguments: Vec<String>,
    },
}

/// The handlers that the application registered with a client.
#[derive(Debug, Clone, Copy, PartialEq, Eq, Structural)]
pub struct RuntimeClientCallbacks {
    pub on_event: Option<HandlerId>,
    pub on_before_browse: Option<HandlerId>,
    pub on_open_url_from_tab: Option<HandlerId>,
    pub on_download_requested: Option<HandlerId>,
    pub on_download_finished: Option<HandlerId>,
}

/// No handlers at all.
pub open spec fn no_callbacks() -> RuntimeClientCallbacks {
    RuntimeClientCallbacks {
        on_event: None,
        on_before_browse: None,
        on_open_url_from_tab: None,
        on_download_requested: None,
        on_download_finished: None,
    }
}

impl Default for RuntimeClientCallbacks {
    fn default() -> (callbacks: Self)
        ensures
            callbacks == no_callbacks(),
    {
        RuntimeClientCallbacks {
            on_event: None,
            on_before_browse: None,
            on_open_url_from_tab: None,
            on_download_requested: None,
            on_download_finished: None,
        }
    }
}

/// An event on its way to the handler that asked for events.
#[derive(Debug)]
pub struct Emission {
    pub handler: HandlerId,
    pub event: BrowserEvent,
}

/// A URL on which a handler is to decide.
#[derive(Debug)]
pub struct UrlQuery {
    pub handler: HandlerId,
    pub url: String,
}

/// What is to be done about a download that is about to begin.
#[derive(Debug)]
pub enum DownloadRequest {
    /// CEF cannot be told where to put the file: the download is left alone.
    Ignore,
    /// A handler chooses the destination.
    Ask { handler: HandlerId, url: String, suggested_name: String },
    /// The file goes into the directory for temporary files.
    TemporaryFile { suggested_name: String },
}

/// A download that came to its end, on its way to the handler that asked for
/// finished downloads.
#[derive(Debug)]
pub struct FinishedDownload {
    pub handler: HandlerId,
    pub url: String,
    pub path: Option<String>,
    pub success: bool,
}

/// A process message as CEF delivers it. A message may have no argument list.
#[derive(Debug)]
pub struct ReceivedMessage {
    pub name: String,
    pub arguments: Option<Vec<String>>,
}

/// A frame as CEF reports it.
#[derive(Debug)]
pub struct FrameReport {
    pub is_main: i32,
    pub url: String,
}

/// A request of a page for a resource.
#[derive(Debug)]
pub struct ResourceRequestPayload {
    pub url: String,
    pub method: String,
    pub headers: Vec<(String, String)>,
    pub body: Vec<u8>,
}

/// The state of a download as CEF reports it.
#[derive(Debug)]
pub struct DownloadReport {
    pub is_in_progress: i32,
    pub is_complete: i32,
    pub is_canceled: i32,
    pub is_interrupted: i32,
    pub url: String,
    pub full_path: String,
}

/// The characters of a text that may be missing.
pub open spec fn text_or_empty(text: Option<String>) -> Seq<char> {
    match text {
        Some(text) => text@,
        None => Seq::empty(),
    }
}

/// The identifier that a browser is reported under: zero where there is none.
pub open spec fn id_or_zero(browser: Option<i32>) -> i32 {
    match browser {
        Some(id) => id,
        None => 0,
    }
}

/// The URL that a frame is reported under.
pub open spec fn url_of(frame: Option<FrameReport>) -> Seq<char> {
    match frame {
        Some(frame) => frame.url@,
        None => Seq::empty(),
    }
}

/// Loads are reported for main frames, and where CEF names no frame.
pub open spec fn is_reported(frame: Option<FrameReport>) -> bool {
    match frame {
        Some(frame) => frame.is_main != 0,
        None => true,
    }
}

/// The arguments of a message, in order.
pub open spec fn arguments_of(message: Option<ReceivedMessage>) -> Seq<String> {
    match message {
        Some(ReceivedMessage { arguments: Some(arguments), .. }) => arguments@,
        _ => Seq::empty(),
    }
}

/// `texts` are the arguments of a message as the application gets them: the URL
/// of the sending frame, where it is known, and the arguments after it.
pub open spec fn delivered_arguments(
    texts: Seq<String>,
    frame_url: Seq<char>,
    arguments: Seq<String>,
) -> bool {
    if frame_url.len() == 0 {
        texts == arguments
    } else {
        &&& texts.len() == arguments.len() + 1
        &&& texts[0]@ == frame_url
        &&& texts.skip(1) == arguments
    }
}

/// The name under which a download is suggested to the application.
pub open spec fn download_name(suggested_name: Option<String>) -> Seq<char> {
    if text_or_empty(suggested_name).len() == 0 {
        "download.bin"@
    } else {
        suggested_name->Some_0@
    }
}

/// The answer to CEF that stops a navigation which a handler does not allow.
pub open spec fn stop_unless_allowed(allowed: Option<bool>) -> i32 {
    if allowed == Some(false) {
        1
    } else {
        0
    }
}

/// The browsers after CEF reported a new one to the client of a slot.
pub open spec fn after_created(
    browsers: Seq<Option<i32>>,
    slot: BrowserSlot,
    browser: Option<i32>,
) -> Seq<Option<i32>> {
    if browser is Some {
        browser_slot::with_browser(browsers, slot, browser)
    } else {
        browsers
    }
}

/// The browsers after CEF reported to the client of a slot that one is about to close.
pub open spec fn after_close(
    browsers: Seq<Option<i32>>,
    slot: BrowserSlot,
    browser: Option<i32>,
) -> Seq<Option<i32>> {
    if slot.browser(browsers) == Some(id_or_zero(browser)) {
        browser_slot::with_browser(browsers, slot, None)
    } else {
        browsers
    }
}

/// Whoever keeps the slot of a client sees the browser that was created last in it,
/// until that browser closes: its closing empties the slot, and the closing of any other
/// browser does not. Other slots are left alone.
pub proof fn lemma_browser_is_held_until_it_closes(
    browsers: Seq<Option<i32>>,
    client: RuntimeClient,
    kept: BrowserSlot,
    other: BrowserSlot,
    created: i32,
    closed: i32,
)
    requires
        kept.is_among(browsers),
        client.state.browser_slot == kept,
        other.id() != kept.id(),
    ensures
        ({
            let slot = client.state.browser_slot;
            let opened = after_created(browsers, slot, Some(created));
            &&& kept.browser(opened) == Some(created)
            &&& kept.browser(after_close(opened, slot, Some(created))) is None
            &&& closed != created ==> kept.browser(after_close(opened, slot, Some(closed))) == Some(
                created,
            )
            &&& other.browser(opened) == other.browser(browsers)
            &&& other.browser(after_close(opened, slot, Some(closed))) == other.browser(browsers)
        }),
{
}

fn browser_id(browser: Option<i32>) -> (id: i32)
    ensures
        id == id_or_zero(browser),
{
    match browser {
        Some(id) => id,
        None => 0,
    }
}

fn frame_url(frame: Option<FrameReport>) -> (url: String)
    ensures
        url@ == url_of(frame),
{
    match frame {
        Some(frame) => frame.url,
        None => String::new(),
    }
}

fn to_string(text: Option<String>) -> (result: String)
    ensures
        result@ == text_or_empty(text),
{
    match text {
        Some(text) => text,
        None => String::new(),
    }
}

/// The arguments of a message.
fn process_message_arguments(message: Option<ReceivedMessage>) -> (arguments: Vec<String>)
    ensures
        arguments@ == arguments_of(message),
{
    match message {
        Some(message) => match message.arguments {
            Some(arguments) => arguments,
            None => Vec::new(),
        },
        None => Vec::new(),
    }
}

/// What a client shares with its handlers.
#[derive(Debug, Clone, Copy)]
pub struct RuntimeClientState {
    pub browser_slot: BrowserSlot,
    pub callbacks: RuntimeClientCallbacks,
}

impl RuntimeClientState {
    /// Addresses an event to the handler for events, if there is one.
    pub fn emit(&self, event: BrowserEvent) -> (emission: Option<Emission>)
        ensures
            emission == match self.callbacks.on_event {
                Some(handler) => Some(Emission { handler, event }),
                None => None,
            },
    {
        match self.callbacks.on_event {
            Some(handler) => Some(Emission { handler, event }),
            None => None,
        }
    }
}

/// Maker of clients.
#[derive(Debug, Clone, Copy)]
pub struct RuntimeClientBuilder {
    browser_slot: Option<BrowserSlot>,
    callbacks: RuntimeClientCallbacks,
}

/// What a client is made of: its slot, unless it gets one of its own, and its handlers.
pub struct BuilderModel {
    pub browser_slot: Option<BrowserSlot>,
    pub callbacks: RuntimeClientCallbacks,
}

impl View for RuntimeClientBuilder {
    type V = BuilderModel;

    closed spec fn view(&self) -> BuilderModel {
        BuilderModel { browser_slot: self.browser_slot, callbacks: self.callbacks }
    }
}

impl Default for RuntimeClientBuilder {
    fn default() -> (builder: Self)
        ensures
            builder@ == (BuilderModel { browser_slot: None, callbacks: no_callbacks() }),
    {
        RuntimeClientBuilder { browser_slot: None, callbacks: RuntimeClientCallbacks::default() }
    }
}

impl RuntimeClientBuilder {
    /// A builder of a client without handlers and with a slot of its own.
    pub fn new() -> (builder: Self)
        ensures
            builder@ == (BuilderModel { browser_slot: None, callbacks: no_callbacks() }),
    {
        RuntimeClientBuilder::default()
    }

    /// Sets the slot that the client keeps its browser in. Whoever keeps a copy of the
    /// slot sees the browser too.
    pub fn with_browser_slot(self, browser_slot: BrowserSlot) -> (builder: Self)
        ensures
            builder@ == (BuilderModel { browser_slot: Some(browser_slot), ..self@ }),
    {
        RuntimeClientBuilder { browser_slot: Some(browser_slot), callbacks: self.callbacks }
    }

    /// Registers the handler for events.
    pub fn on_event(self, on_event: HandlerId) -> (builder: Self)
        ensures
            builder@ == (BuilderModel {
                callbacks: RuntimeClientCallbacks {
                    on_event: Some(on_event),
                    ..self@.callbacks
                },
                ..self@
            }),
    {
        let mut builder = self;
        builder.callbacks.on_event = Some(on_event);
        builder
    }

    /// Registers the handler that decides on navigations.
    pub fn on_before_browse(self, on_before_browse: HandlerId) -> (builder: Self)
        ensures
            builder@ == (BuilderModel {
                callbacks: RuntimeClientCallbacks {
                    on_before_browse: Some(on_before_browse),
                    ..self@.callbacks
                },
                ..self@
            }),
    {
        let mut builder = self;
        builder.callbacks.on_before_browse = Some(on_before_browse);
        builder
    }

    /// Registers the handler that decides on URLs that a tab opens.
    pub fn on_open_url_from_tab(self, on_open_url_from_tab: HandlerId) -> (builder: Self)
        ensures
            builder@ == (BuilderModel {
                callbacks: RuntimeClientCallbacks {
                    on_open_url_from_tab: Some(on_open_url_from_tab),
                    ..self@.callbacks
                },
                ..self@
            }),
    {
        let mut builder = self;
        builder.callbacks.on_open_url_from_tab = Some(on_open_url_from_tab);
        builder
    }

    /// Registers the handler that chooses where downloads go.
    pub fn on_download_requested(self, on_download_requested: HandlerId) -> (builder: Self)
        ensures
            builder@ == (BuilderModel {
                callbacks: RuntimeClientCallbacks {
                    on_download_requested: Some(on_download_requested),
                    ..self@.callbacks
                },
                ..self@
            }),
    {
        let mut builder = self;
        builder.callbacks.on_download_requested = Some(on_download_requested);
        builder
    }

    /// Registers the handler for finished downloads.
    pub fn on_download_finished(self, on_download_finished: HandlerId) -> (builder: Self)
        ensures
            builder@ == (BuilderModel {
                callbacks: RuntimeClientCallbacks {
                    on_download_finished: Some(on_download_finished),
                    ..self@.callbacks
                },
                ..self@
            }),
    {
        let mut builder = self;
        builder.callbacks.on_download_finished = Some(on_download_finished);
        builder
    }

    /// The client.
    pub fn build(self, browsers: &mut BrowserSlots) -> (client: RuntimeClient)
        ensures
            client.state.callbacks == self@.callbacks,
            match self@.browser_slot {
                Some(slot) => {
                    &&& client.state.browser_slot == slot
                    &&& final(browsers)@ == old(browsers)@
                },
                None => {
                    &&& client.state.browser_slot.id() == old(browsers)@.len()
                    &&& final(browsers)@ == old(browsers)@.push(None)
                },
            },
    {
        let browser_slot = match self.browser_slot {
            Some(slot) => slot,
            None => BrowserSlot::new(browsers),
        };
        RuntimeClient { state: RuntimeClientState { browser_slot, callbacks: self.callbacks } }
    }
}

/// The CEF client of a webview.
#[derive(Debug, Clone, Copy)]
pub struct RuntimeClient {
    pub state: RuntimeClientState,
}

impl RuntimeClient {
    /// Reports a message from another process. CEF is told that the message was
    /// not consumed.
    pub fn on_process_message_received(
        &self,
        browser: Option<i32>,
        message_frame: Option<FrameReport>,
        source_process: ProcessId,
        message: Option<ReceivedMessage>,
    ) -> (result: (i32, Option<Emission>))
        ensures
            result.0 == 0,
            result.1 is Some <==> self.state.callbacks.on_event is Some,
            result.1 matches Some(emission) ==> {
                &&& Some(emission.handler) == self.state.callbacks.on_event
                &&& emission.event is ProcessMessage
                &&& emission.event->ProcessMessage_browser_id == id_or_zero(browser)
                &&& emission.event->source_process == source_process
                &&& emission.event->name@ == match message {
                    Some(message) => message.name@,
                    None => Seq::empty(),
                }
                &&& delivered_arguments(
                    emission.event->arguments@,
                    url_of(message_frame),
                    arguments_of(message),
                )
            },
    {
        let name = match &message {
            Some(message) => message.name.clone(),
            None => String::new(),
        };
        let frame_url = frame_url(message_frame);
        let mut arguments = process_message_arguments(message);
        let ghost before = arguments@;
        if !frame_url.as_str().is_empty() {
            arguments.insert(0, frame_url);
            assert(arguments@.skip(1) =~= before);
        }
        let event = BrowserEvent::ProcessMessage {
            browser_id: browser_id(browser),
            source_process,
            name,
            arguments,
        };
        (0, self.state.emit(event))
    }

    /// Whom to ask whether a request may go on.
    pub fn on_before_browse(&self, request_url: Option<String>) -> (query: Option<UrlQuery>)
        ensures
            query is Some <==> self.state.callbacks.on_before_browse is Some,
            query matches Some(query) ==> {
                &&& Some(query.handler) == self.state.callbacks.on_before_browse
                &&& query.url@ == text_or_empty(request_url)
            },
    {
        match self.state.callbacks.on_before_browse {
            Some(handler) => Some(UrlQuery { handler, url: to_string(request_url) }),
            None => None,
        }
    }

    /// Whom to ask whether a URL may be opened from a tab.
    pub fn on_open_urlfrom_tab(&self, target_url: Option<String>) -> (query: Option<UrlQuery>)
        ensures
            query is Some <==> self.state.callbacks.on_open_url_from_tab is Some,
            query matches Some(query) ==> {
                &&& Some(query.handler) == self.state.callbacks.on_open_url_from_tab
                &&& query.url@ == text_or_empty(target_url)
            },
    {
        match self.state.callbacks.on_open_url_from_tab {
            Some(handler) => Some(UrlQuery { handler, url: to_string(target_url) }),
            None => None,
        }
    }

    /// The answer to CEF on a navigation: nonzero stops it. `allowed` is what the
    /// handler said, if there is one.
    pub fn navigation_answer(allowed: Option<bool>) -> (answer: i32)
        ensures
            answer == stop_unless_allowed(allowed),
    {
        match allowed {
            Some(allowed) => if allowed {
                0
            } else {
                1
            },
            None => 0,
        }
    }

    /// Every download is allowed.
    pub fn can_download(&self) -> (answer: i32)
        ensures
            answer == 1,
    {
        1
    }

    /// What to do about a download that is about to begin. `can_continue` says
    /// whether CEF can be told a destination.
    pub fn on_before_download(
        &self,
        item_url: Option<String>,
        suggested_name: Option<String>,
        can_continue: bool,
    ) -> (request: DownloadRequest)
        ensures
            request is Ignore <==> !can_continue,
            request is Ask <==> can_continue && self.state.callbacks.on_download_requested is Some,
            request matches DownloadRequest::Ask { handler, url, suggested_name: name } ==> {
                &&& Some(handler) == self.state.callbacks.on_download_requested
                &&& url@ == text_or_empty(item_url)
                &&& name@ == download_name(suggested_name)
            },
            request matches DownloadRequest::TemporaryFile { suggested_name: name } ==> name@
                == download_name(suggested_name),
    {
        if !can_continue {
            return DownloadRequest::Ignore;
        }
        let url = to_string(item_url);
        let suggested_name = match suggested_name {
            Some(name) => if name.as_str().is_empty() {
                "download.bin".to_string()
            } else {
                name
            },
            None => "download.bin".to_string(),
        };
        match self.state.callbacks.on_download_requested {
            Some(handler) => DownloadRequest::Ask { handler, url, suggested_name },
            None => DownloadRequest::TemporaryFile { suggested_name },
        }
    }

    /// The answer to CEF once the destination of a download is chosen, and the
    /// path that the download continues to. Without a destination it does not.
    pub fn download_answer(destination: Option<String>) -> (result: (i32, Option<String>))
        ensures
            result.0 == if destination is Some {
                1int
            } else {
                0int
            },
            result.1 == destination,
    {
        match destination {
            Some(destination) => (1, Some(destination)),
            None => (0, None),
        }
    }

    /// Reports a download that is no longer in progress.
    pub fn on_download_updated(&self, download: Option<DownloadReport>) -> (finished: Option<
        FinishedDownload,
    >)
        ensures
            finished is Some <==> self.state.callbacks.on_download_finished is Some && download
                is Some && download->Some_0.is_in_progress == 0,
            finished matches Some(finished) ==> {
                let report = download->Some_0;
                &&& Some(finished.handler) == self.state.callbacks.on_download_finished
                &&& finished.url@ == report.url@
                &&& finished.path is Some <==> report.full_path@.len() > 0
                &&& finished.path matches Some(path) ==> path@ == report.full_path@
                &&& finished.success == (report.is_complete != 0 && report.is_canceled == 0
                    && report.is_interrupted == 0)
            },
    {
        let handler = match self.state.callbacks.on_download_finished {
            Some(handler) => handler,
            None => {
                return None;
            },
        };
        let report = match download {
            Some(report) => report,
            None => {
                return None;
            },
        };
        if report.is_in_progress != 0 {
            return None;
        }
        let success = report.is_complete != 0 && report.is_canceled == 0 && report.is_interrupted
            == 0;
        let path = if report.full_path.as_str().is_empty() {
            None
        } else {
            Some(report.full_path)
        };
        Some(FinishedDownload { handler, url: report.url, path, success })
    }

    /// Reports a new title.
    pub fn on_title_change(&self, browser: Option<i32>, title: Option<String>) -> (emission: Option<
        Emission,
    >)
        ensures
            emission is Some <==> self.state.callbacks.on_event is Some,
            emission matches Some(emission) ==> {
                &&& Some(emission.handler) == self.state.callbacks.on_event
                &&& emission.event is TitleChanged
                &&& emission.event->TitleChanged_browser_id == id_or_zero(browser)
                &&& emission.event->title@ == text_or_empty(title)
            },
    {
        self.state.emit(
            BrowserEvent::TitleChanged { browser_id: browser_id(browser), title: to_string(title) },
        )
    }

    /// Takes a new browser into the slot and reports it.
    pub fn on_after_created(&self, browsers: &mut BrowserSlots, browser: Option<i32>) -> (emission:
        Option<Emission>)
        ensures
            final(browsers)@ == after_created(
                old(browsers)@,
                self.state.browser_slot,
                browser,
            ),
            emission == match (browser, self.state.callbacks.on_event) {
                (Some(browser_id), Some(handler)) => Some(
                    Emission { handler, event: BrowserEvent::Created { browser_id } },
                ),
                _ => None,
            },
    {
        match browser {
            Some(browser_id) => {
                self.state.browser_slot.set(browsers, Some(browser_id));
                self.state.emit(BrowserEvent::Created { browser_id })
            },
            None => None,
        }
    }

    /// Reports that a browser is about to close, and takes it out of the slot if
    /// it is the one in it.
    pub fn on_before_close(&self, browsers: &mut BrowserSlots, browser: Option<i32>) -> (emission:
        Option<Emission>)
        ensures
            final(browsers)@ == after_close(old(browsers)@, self.state.browser_slot, browser),
            emission == match self.state.callbacks.on_event {
                Some(handler) => Some(
                    Emission {
                        handler,
                        event: BrowserEvent::BeforeClose { browser_id: id_or_zero(browser) },
                    },
                ),
                None => None,
            },
    {
        let closing_id: i32 = browser_id(browser);
        if let Some(current_id) = self.state.browser_slot.current(browsers) {
            if current_id == closing_id {
                self.state.browser_slot.clear(browsers);
            }
        }
        self.state.emit(BrowserEvent::BeforeClose { browser_id: closing_id })
    }

    /// Reports a change of the loading state.
    pub fn on_loading_state_change(
        &self,
        browser: Option<i32>,
        is_loading: i32,
        can_go_back: i32,
        can_go_forward: i32,
    ) -> (emission: Option<Emission>)
        ensures
            emission == match self.state.callbacks.on_event {
                Some(handler) => Some(
                    Emission {
                        handler,
                        event: BrowserEvent::LoadingStateChanged {
                            browser_id: id_or_zero(browser),
                            is_loading: is_loading != 0,
                            can_go_back: can_go_back != 0,
                            can_go_forward: can_go_forward != 0,
                        },
                    },
                ),
                None => None,
            },
    {
        self.state.emit(
            BrowserEvent::LoadingStateChanged {
                browser_id: browser_id(browser),
                is_loading: is_loading != 0,
                can_go_back: can_go_back != 0,
                can_go_forward: can_go_forward != 0,
            },
        )
    }

    /// Reports that the main frame begins to load.
    pub fn on_load_start(&self, browser: Option<i32>, frame: Option<FrameReport>) -> (emission:
        Option<Emission>)
        ensures
            emission is Some <==> is_reported(frame) && self.state.callbacks.on_event is Some,
            emission matches Some(emission) ==> {
                &&& Some(emission.handler) == self.state.callbacks.on_event
                &&& emission.event is LoadStarted
                &&& emission.event->LoadStarted_browser_id == id_or_zero(browser)
                &&& emission.event->LoadStarted_url@ == url_of(frame)
            },
    {
        if !reports_loads(&frame) {
            return None;
        }
        self.state.emit(
            BrowserEvent::LoadStarted { browser_id: browser_id(browser), url: frame_url(frame) },
        )
    }

    /// Reports that the main frame has loaded.
    pub fn on_load_end(
        &self,
        browser: Option<i32>,
        frame: Option<FrameReport>,
        http_status_code: i32,
    ) -> (emission: Option<Emission>)
        ensures
            emission is Some <==> is_reported(frame) && self.state.callbacks.on_event is Some,
            emission matches Some(emission) ==> {
                &&& Some(emission.handler) == self.state.callbacks.on_event
                &&& emission.event is LoadFinished
                &&& emission.event->LoadFinished_browser_id == id_or_zero(browser)
                &&& emission.event->LoadFinished_url@ == url_of(frame)
                &&& emission.event->http_status_code == http_status_code
            },
    {
        if !reports_loads(&frame) {
            return None;
        }
        self.state.emit(
            BrowserEvent::LoadFinished {
                browser_id: browser_id(browser),
                url: frame_url(frame),
                http_status_code,
            },
        )
    }
}

fn reports_loads(frame: &Option<FrameReport>) -> (reported: bool)
    ensures
        reported == is_reported(*frame),
{
    match frame {
        Some(frame) => frame.is_main != 0,
        None => true,
    }
}

/// A message from another process reaches the application with its name and its arguments,
/// after the URL of the frame that sent it if that is known. CEF is told that the message was
/// not consumed.
pub proof fn lemma_messages_reach_the_application(
    client: &RuntimeClient,
    browser: Option<i32>,
    frame: Option<FrameReport>,
    source: ProcessId,
    message: ReceivedMessage,
    result: (i32, Option<Emission>),
    i: int,
)
    requires
        call_ensures(
            RuntimeClient::on_process_message_received,
            (client, browser, frame, source, Some(message)),
            result,
        ),
    ensures
        result.0 == 0,
        result.1 is Some <==> client.state.callbacks.on_event is Some,
        result.1 matches Some(emission) ==> {
            let sent = match message.arguments {
                Some(arguments) => arguments@,
                None => Seq::empty(),
            };
            let known = frame is Some && frame->Some_0.url@.len() > 0;
            &&& Some(emission.handler) == client.state.callbacks.on_event
            &&& emission.event is ProcessMessage
            &&& browser matches Some(id) ==> emission.event->ProcessMessage_browser_id == id
            &&& browser is None ==> emission.event->ProcessMessage_browser_id == 0
            &&& emission.event->source_process == source
            &&& emission.event->name@ == message.name@
            &&& known ==> {
                &&& emission.event->arguments@.len() == sent.len() + 1
                &&& emission.event->arguments@[0]@ == frame->Some_0.url@
                &&& 0 <= i < sent.len() ==> emission.event->arguments@[i + 1] == sent[i]
            }
            &&& !known ==> emission.event->arguments@ == sent
        },
{
    if let Some(emission) = result.1 {
        let sent = arguments_of(Some(message));
        let texts = emission.event->arguments@;
        assert(delivered_arguments(texts, url_of(frame), sent));
        if 0 <= i < sent.len() && url_of(frame).len() > 0 {
            assert(texts.skip(1)[i] == texts[i + 1]);
        }
    }
}

/// Who registered for navigations, or for links that open elsewhere, is asked about the URL,
/// or about an empty one where there is none; a navigation is stopped only if whoever was
/// asked does not allow it.
pub proof fn lemma_handlers_are_asked_about_urls(
    client: &RuntimeClient,
    url: Option<String>,
    browse: Option<UrlQuery>,
    open: Option<UrlQuery>,
    allowed: Option<bool>,
    answer: i32,
)
    requires
        call_ensures(RuntimeClient::on_before_browse, (client, url), browse),
        call_ensures(RuntimeClient::on_open_urlfrom_tab, (client, url), open),
        call_ensures(RuntimeClient::navigation_answer, (allowed,), answer),
    ensures
        ({
            let asked = match url {
                Some(url) => url@,
                None => Seq::empty(),
            };
            &&& browse is Some <==> client.state.callbacks.on_before_browse is Some
            &&& browse matches Some(query) ==> Some(query.handler)
                == client.state.callbacks.on_before_browse && query.url@ == asked
            &&& open is Some <==> client.state.callbacks.on_open_url_from_tab is Some
            &&& open matches Some(query) ==> Some(query.handler)
                == client.state.callbacks.on_open_url_from_tab && query.url@ == asked
        }),
        answer == 1 <==> allowed == Some(false),
        answer == 0 <==> allowed != Some(false),
{
}

/// Downloads are allowed. Where CEF can be told a destination the handler for downloads is
/// asked for it, under the name that the page suggests, or `download.bin` if it suggests none;
/// without a handler the file goes into the directory for temporary files. A download goes on
/// exactly if it has a destination.
pub proof fn lemma_downloads_are_decided(
    client: &RuntimeClient,
    url: Option<String>,
    name: Option<String>,
    can_continue: bool,
    request: DownloadRequest,
    destination: Option<String>,
    answer: (i32, Option<String>),
    allowed: i32,
)
    requires
        call_ensures(
            RuntimeClient::on_before_download,
            (client, url, name, can_continue),
            request,
        ),
        call_ensures(RuntimeClient::download_answer, (destination,), answer),
        call_ensures(RuntimeClient::can_download, (client,), allowed),
    ensures
        allowed == 1,
        ({
            let suggested = if name is Some && name->Some_0@.len() > 0 {
                name->Some_0@
            } else {
                "download.bin"@
            };
            let handler = client.state.callbacks.on_download_requested;
            &&& !can_continue <==> request is Ignore
            &&& can_continue && handler is Some ==> {
                &&& request matches DownloadRequest::Ask { handler: asked, url: item, suggested_name }
                &&& Some(asked) == handler
                &&& suggested_name@ == suggested
                &&& url matches Some(url) ==> item@ == url@
            }
            &&& can_continue && handler is None ==> {
                &&& request matches DownloadRequest::TemporaryFile { suggested_name }
                &&& suggested_name@ == suggested
            }
        }),
        answer.0 == 1 <==> destination is Some,
        answer.0 == 0 <==> destination is None,
        answer.1 == destination,
{
}

/// A download that is no longer in progress is reported, with its URL and its path, if it has
/// one. It succeeded only if it is complete and was neither canceled nor interrupted.
pub proof fn lemma_finished_downloads_are_reported(
    client: &RuntimeClient,
    report: DownloadReport,
    finished: Option<FinishedDownload>,
)
    requires
        call_ensures(RuntimeClient::on_download_updated, (client, Some(report)), finished),
    ensures
        finished is Some <==> client.state.callbacks.on_download_finished is Some
            && report.is_in_progress == 0,
        finished matches Some(finished) ==> {
            &&& Some(finished.handler) == client.state.callbacks.on_download_finished
            &&& finished.url@ == report.url@
            &&& report.full_path@.len() == 0 <==> finished.path is None
            &&& finished.path matches Some(path) ==> path@ == report.full_path@
            &&& finished.success <==> report.is_complete != 0 && report.is_canceled == 0
                && report.is_interrupted == 0
        },
{
}

/// A new title, a change of the loading state, and that a main frame begins to load or has
/// loaded are reported to the handler for events, with what CEF said; loads of other frames
/// are not.
pub proof fn lemma_browser_is_reported_on(
    client: &RuntimeClient,
    id: i32,
    title: String,
    titled: Option<Emission>,
    flags: (i32, i32, i32),
    state: Option<Emission>,
    frame: FrameReport,
    begun: Option<Emission>,
    status: i32,
    ended: Option<Emission>,
)
    requires
        call_ensures(RuntimeClient::on_title_change, (client, Some(id), Some(title)), titled),
        call_ensures(
            RuntimeClient::on_loading_state_change,
            (client, Some(id), flags.0, flags.1, flags.2),
            state,
        ),
        call_ensures(RuntimeClient::on_load_start, (client, Some(id), Some(frame)), begun),
        call_ensures(RuntimeClient::on_load_end, (client, Some(id), Some(frame), status), ended),
    ensures
        ({
            let handler = client.state.callbacks.on_event;
            &&& titled is Some <==> handler is Some
            &&& state is Some <==> handler is Some
            &&& begun is Some <==> handler is Some && frame.is_main != 0
            &&& ended is Some <==> handler is Some && frame.is_main != 0
            &&& titled matches Some(told) ==> {
                &&& Some(told.handler) == handler
                &&& told.event matches BrowserEvent::TitleChanged { browser_id, title: heard }
                &&& browser_id == id && heard@ == title@
            }
            &&& state matches Some(told) ==> {
                &&& Some(told.handler) == handler
                &&& told.event == (BrowserEvent::LoadingStateChanged {
                    browser_id: id,
                    is_loading: flags.0 != 0,
                    can_go_back: flags.1 != 0,
                    can_go_forward: flags.2 != 0,
                })
            }
            &&& begun matches Some(told) ==> {
                &&& Some(told.handler) == handler
                &&& told.event matches BrowserEvent::LoadStarted { browser_id, url }
                &&& browser_id == id && url@ == frame.url@
            }
            &&& ended matches Some(told) ==> {
                &&& Some(told.handler) == handler
                &&& told.event matches BrowserEvent::LoadFinished {
                    browser_id,
                    url,
                    http_status_code,
                }
                &&& browser_id == id && url@ == frame.url@ && http_status_code == status
            }
        }),
{
}

/// A browser that was created is in the slot of its client, and one that closes leaves it if
/// it is in it. Both are reported; no other slot changes.
pub proof fn lemma_slot_follows_the_browser(
    client: &RuntimeClient,
    id: i32,
    emission: Option<Emission>,
    other: BrowserSlot,
)
    requires
        other.id() != client.state.browser_slot.id(),
    ensures
        forall|browsers: &mut BrowserSlots| #[trigger]
            call_ensures(RuntimeClient::on_after_created, (client, browsers, Some(id)), emission)
                ==> {
                let slot = client.state.browser_slot;
                &&& slot.is_among((*browsers)@) ==> slot.browser((*final(browsers))@) == Some(id)
                &&& other.browser((*final(browsers))@) == other.browser((*browsers)@)
                &&& emission == match client.state.callbacks.on_event {
                    Some(handler) => Some(
                        Emission { handler, event: BrowserEvent::Created { browser_id: id } },
                    ),
                    None => None,
                }
            },
        forall|browsers: &mut BrowserSlots| #[trigger]
            call_ensures(RuntimeClient::on_before_close, (client, browsers, Some(id)), emission)
                ==> {
                let slot = client.state.browser_slot;
                let before = slot.browser((*browsers)@);
                &&& before == Some(id) ==> slot.browser((*final(browsers))@) is None
                &&& before != Some(id) ==> (*final(browsers))@ == (*browsers)@
                &&& other.browser((*final(browsers))@) == other.browser((*browsers)@)
                &&& emission == match client.state.callbacks.on_event {
                    Some(handler) => Some(
                        Emission { handler, event: BrowserEvent::BeforeClose { browser_id: id } },
                    ),
                    None => None,
                }
            },
{
}

/// A client has the handlers that were registered for it, each for what it was registered
/// for, and no others; of two for the same the later one counts.
pub proof fn lemma_handlers_are_registered(
    builder: RuntimeClientBuilder,
    handler: HandlerId,
    for_events: RuntimeClientBuilder,
    for_browsing: RuntimeClientBuilder,
    for_links: RuntimeClientBuilder,
    for_downloads: RuntimeClientBuilder,
    for_finished: RuntimeClientBuilder,
)
    requires
        call_ensures(RuntimeClientBuilder::on_event, (builder, handler), for_events),
        call_ensures(RuntimeClientBuilder::on_before_browse, (builder, handler), for_browsing),
        call_ensures(RuntimeClientBuilder::on_open_url_from_tab, (builder, handler), for_links),
        call_ensures(
            RuntimeClientBuilder::on_download_requested,
            (builder, handler),
            for_downloads,
        ),
        call_ensures(
            RuntimeClientBuilder::on_download_finished,
            (builder, handler),
            for_finished,
        ),
    ensures
        ({
            let before = builder@.callbacks;
            &&& for_events@.callbacks == (RuntimeClientCallbacks {
                on_event: Some(handler),
                ..before
            })
            &&& for_browsing@.callbacks == (RuntimeClientCallbacks {
                on_before_browse: Some(handler),
                ..before
            })
            &&& for_links@.callbacks == (RuntimeClientCallbacks {
                on_open_url_from_tab: Some(handler),
                ..before
            })
            &&& for_downloads@.callbacks == (RuntimeClientCallbacks {
                on_download_requested: Some(handler),
                ..before
            })
            &&& for_finished@.callbacks == (RuntimeClientCallbacks {
                on_download_finished: Some(handler),
                ..before
            })
            &&& for_events@.browser_slot == builder@.browser_slot
            &&& for_browsing@.browser_slot == builder@.browser_slot
            &&& for_links@.browser_slot == builder@.browser_slot
            &&& for_downloads@.browser_slot == builder@.browser_slot
            &&& for_finished@.browser_slot == builder@.browser_slot
        }),
{
}

/// A client that is built has the handlers of its builder, and the slot that it was given, or an
/// empty one of its own.
pub proof fn lemma_clients_are_built(
    builder: RuntimeClientBuilder,
    slot: BrowserSlot,
    given: RuntimeClientBuilder,
    client: RuntimeClient,
)
    requires
        call_ensures(RuntimeClientBuilder::with_browser_slot, (builder, slot), given),
    ensures
        given@.browser_slot == Some(slot),
        given@.callbacks == builder@.callbacks,
        forall|browsers: &mut BrowserSlots| #[trigger]
            call_ensures(RuntimeClientBuilder::build, (builder, browsers), client) ==> {
                &&& client.state.callbacks == builder@.callbacks
                &&& builder@.browser_slot matches Some(slot) ==> {
                    &&& client.state.browser_slot == slot
                    &&& (*final(browsers))@ == (*browsers)@
                }
                &&& builder@.browser_slot is None ==> {
                    &&& !client.state.browser_slot.is_among((*browsers)@)
                    &&& client.state.browser_slot.is_among((*final(browsers))@)
                    &&& client.state.browser_slot.browser((*final(browsers))@) is None
                }
            },
{
}

} // verus!
