//! What a webview does about the events of its browser.

use crate::bootstrap::{InitScriptModel, RendererInitScript};
use crate::browser_slot;
use crate::browser_slot::{BrowserSlot, BrowserSlots};
use crate::cef_calls::{CallOf, CallSequence, ProcessId, SequenceState};
use crate::client::{BrowserEvent, HandlerId};
use crate::runtime::color::Color;
use crate::runtime::dpi::Float64;
use crate::runtime::init_scripts;
use crate::runtime::messages::{
    DragDropEvent, SynthesizedWindowEvent, WebviewEvent, WebviewMessage,
};
use crate::runtime::store::{WebviewId, WindowCell, WindowCells, WindowId};
use crate::runtime::web;
use crate::runtime::web::{ipc_request, parse_url, HttpRequest, ParsedUrl, UrlModel};
use crate::runtime::webview;
use crate::runtime::webview_client;
use crate::runtime::webview_client::{ask, UrlQuestion, UrlQuestionModel};
use vstd::prelude::*;
use vstd::utf8;

verus! {

/// The kind of a webview.
#[derive(Debug, Clone, Copy, PartialEq, Eq, Structural)]
pub enum WebviewKind {
    /// The webview is the entire content of its window.
    WindowContent,
    /// The webview is a child of its window, which can hold other webviews too.
    WindowChild,
}

/// How far the loading of a page has come.
#[derive(Debug, Clone, Copy, PartialEq, Eq, Structural)]
pub enum PageLoadEvent {
    Started,
    Finished,
}

/// The handlers of the application for the events of a webview.
#[derive(Debug, Clone, Copy, PartialEq, Eq, Structural)]
pub struct EventHandlers {
    pub title: Option<HandlerId>,
    pub page_load: Option<HandlerId>,
    pub ipc: Option<HandlerId>,
}

/// A request, with its text as characters.
#[verifier::ext_equal]
pub struct RequestModel {
    pub method: Seq<char>,
    pub uri: Seq<char>,
    pub headers: Map<Seq<char>, Seq<Seq<u8>>>,
    pub body: Seq<u8>,
}

/// A request as characters.
pub open spec fn request_model(request: HttpRequest) -> RequestModel {
    RequestModel {
        method: request.method@,
        uri: request.uri@,
        headers: web::header_entries(request.headers),
        body: request.body@,
    }
}

/// The request that carries a message of a page to the application. There is none if
/// the address of the page is not a URI.
pub open spec fn ipc_model(page: Seq<char>, message: Seq<char>) -> Option<RequestModel> {
    match web::uri_text(page) {
        Some(uri) => Some(
            RequestModel {
                method: "POST"@,
                uri,
                headers: web::no_entries().insert(
                    web::lowered("content-type"@),
                    seq![utf8::encode_utf8("application/json"@)],
                ),
                body: utf8::encode_utf8(message),
            },
        ),
        None => None,
    }
}

/// Something that is done about an event of a browser.
#[derive(Debug)]
pub enum ClientAction {
    CallTitleHandler(HandlerId, String),
    PageLoad(UrlQuestion, PageLoadEvent),
    Calls { browser: Option<i32>, calls: CallSequence },
    /// A message of the page, which is in the window of a cell.
    Ipc { handler: HandlerId, window: WindowCell, webview_id: WebviewId, request: HttpRequest },
    /// A message goes to the event loop.
    Send { window_id: WindowId, webview_id: WebviewId, message: WebviewMessage },
}

/// Something that is done about an event of a browser, with text as characters.
pub enum ClientActionModel {
    CallTitleHandler(HandlerId, String),
    PageLoad(UrlQuestionModel, PageLoadEvent),
    Calls { browser: Option<i32>, calls: SequenceState },
    Ipc { handler: HandlerId, window: WindowCell, webview_id: WebviewId, request: RequestModel },
    Send { window_id: WindowId, webview_id: WebviewId, message: WebviewMessage },
}

impl View for ClientAction {
    type V = ClientActionModel;

    open spec fn view(&self) -> ClientActionModel {
        match *self {
            ClientAction::CallTitleHandler(handler, title) => ClientActionModel::CallTitleHandler(
                handler,
                title,
            ),
            ClientAction::PageLoad(question, event) => ClientActionModel::PageLoad(
                question@,
                event,
            ),
            ClientAction::Calls { browser, calls } => ClientActionModel::Calls {
                browser,
                calls: calls@,
            },
            ClientAction::Ipc { handler, window, webview_id, request } => ClientActionModel::Ipc {
                handler,
                window,
                webview_id,
                request: request_model(request),
            },
            ClientAction::Send { window_id, webview_id, message } => ClientActionModel::Send {
                window_id,
                webview_id,
                message,
            },
        }
    }
}

/// Actions, with text as characters.
pub open spec fn action_models(actions: Seq<ClientAction>) -> Seq<ClientActionModel> {
    actions.map_values(|action: ClientAction| action@)
}

/// What a webview knows when its browser reports something.
#[derive(Debug)]
pub struct WebviewEvents {
    /// Where the webview is taken to be.
    pub window: WindowCell,
    pub webview_id: WebviewId,
    pub kind: WebviewKind,
    pub handlers: EventHandlers,
    /// The application asked for a background color. Without that the background of the
    /// page is left alone.
    pub explicit_background_color: bool,
    /// Scripts are run when a page begins to load. That is so where the render process
    /// does not run them by itself.
    pub run_scripts_on_load: bool,
    pub scripts: Vec<RendererInitScript>,
}

/// The URL that an event speaks of: that of the page, or the first argument of a
/// message.
pub open spec fn url_in(event: BrowserEvent) -> Option<Seq<char>> {
    match event {
        BrowserEvent::LoadStarted { url, .. } => Some(url@),
        BrowserEvent::LoadFinished { url, .. } => Some(url@),
        BrowserEvent::ProcessMessage { arguments, .. } => if arguments@.len() > 0 {
            Some(arguments@[0]@)
        } else {
            None
        },
        _ => None,
    }
}

/// The URL that an event speaks of, taken apart.
pub open spec fn parsed_in(event: BrowserEvent) -> Option<UrlModel> {
    match url_in(event) {
        Some(text) => web::url_of(text),
        None => None,
    }
}

/// A message of a page to the application, by its name.
pub open spec fn is_ipc_message(name: Seq<char>) -> bool {
    ||| name == "tauri-ipc"@
    ||| name == "__TAURI_IPC__"@
    ||| name == "tauri:ipc"@
    ||| name == "ipc"@
}

/// The page that a message comes from: the first argument if it is a URL.
pub open spec fn page_of(arguments: Seq<String>, first_is_url: bool) -> Seq<char> {
    if arguments.len() > 0 && first_is_url {
        arguments[0]@
    } else {
        "tauri://localhost"@
    }
}

/// What a message says: the last argument.
pub open spec fn payload_of(arguments: Seq<String>) -> Seq<char> {
    if arguments.len() > 0 {
        arguments.last()@
    } else {
        Seq::empty()
    }
}

/// What is done so that the application learns of the loading of a page.
pub open spec fn page_load(
    handler: Option<HandlerId>,
    url: Option<UrlModel>,
    event: PageLoadEvent,
) -> Seq<ClientActionModel> {
    match webview_client::asked(handler, url) {
        Some(question) => seq![ClientActionModel::PageLoad(question, event)],
        None => Seq::empty(),
    }
}

/// What is done about the background of a page.
pub open spec fn background(explicit: bool, browser: Option<i32>, color: Color) -> Seq<
    ClientActionModel,
> {
    if explicit {
        seq![
            ClientActionModel::Calls { browser, calls: webview::background_calls(browser, color) },
        ]
    } else {
        Seq::empty()
    }
}

/// What is done to run scripts in a page.
pub open spec fn script_runs(browser: Option<i32>, scripts: Seq<InitScriptModel>) -> Seq<
    ClientActionModel,
> {
    scripts.map_values(
        |script: InitScriptModel|
            ClientActionModel::Calls {
                browser,
                calls: browser_slot::on_browser(
                    browser,
                    browser_slot::eval_steps(script.script),
                    false,
                ),
            },
    )
}

/// What a webview does about an event of its browser, whose URL is `url` and which is in
/// a slot. The page has a background color.
pub open spec fn actions_of(
    events: WebviewEvents,
    event: BrowserEvent,
    url: Option<UrlModel>,
    browser: Option<i32>,
    color: Color,
    cells: Seq<WindowId>,
) -> Seq<ClientActionModel> {
    let webview_id = events.webview_id;
    let window_id = events.window.window(cells);
    match event {
        BrowserEvent::TitleChanged { title, .. } => match events.handlers.title {
            Some(handler) => seq![ClientActionModel::CallTitleHandler(handler, title)],
            None => Seq::empty(),
        },
        BrowserEvent::LoadStarted { .. } => page_load(
            events.handlers.page_load,
            url,
            PageLoadEvent::Started,
        ) + background(events.explicit_background_color, browser, color) + (
        if events.run_scripts_on_load {
            script_runs(browser, init_scripts::models(events.scripts@))
        } else {
            Seq::empty()
        }),
        BrowserEvent::LoadFinished { .. } => page_load(
            events.handlers.page_load,
            url,
            PageLoadEvent::Finished,
        ) + background(events.explicit_background_color, browser, color),
        BrowserEvent::ProcessMessage { name, arguments, .. } => match (
            events.handlers.ipc,
            ipc_model(page_of(arguments@, url is Some), payload_of(arguments@)),
        ) {
            (Some(handler), Some(request)) => if is_ipc_message(name@) {
                seq![
                    ClientActionModel::Ipc { handler, window: events.window, webview_id, request },
                ]
            } else {
                Seq::empty()
            },
            _ => Seq::empty(),
        },
        BrowserEvent::BeforeClose { .. } => seq![
            ClientActionModel::Send { window_id, webview_id, message: WebviewMessage::Close },
        ],
        _ => Seq::empty(),
    }
}

fn is_ipc(name: &String) -> (result: bool)
    ensures
        result == is_ipc_message(name@),
{
    *name == "tauri-ipc".to_string() || *name == "__TAURI_IPC__".to_string() || *name
        == "tauri:ipc".to_string() || *name == "ipc".to_string()
}

fn push(actions: &mut Vec<ClientAction>, action: ClientAction)
    ensures
        action_models(final(actions)@) == action_models(old(actions)@) + seq![action@],
{
    actions.push(action);
    assert(action_models(actions@) =~= action_models(old(actions)@) + seq![action@]);
}

fn no_actions() -> (actions: Vec<ClientAction>)
    ensures
        action_models(actions@) == Seq::<ClientActionModel>::empty(),
{
    let actions: Vec<ClientAction> = Vec::new();
    assert(action_models(actions@) =~= Seq::empty());
    actions
}

impl WebviewEvents {
    fn load_actions(
        &self,
        url: Option<ParsedUrl>,
        event: PageLoadEvent,
        browsers: &BrowserSlots,
        slot: &BrowserSlot,
        color: Color,
    ) -> (actions: Vec<ClientAction>)
        ensures
            action_models(actions@) == page_load(
                self.handlers.page_load,
                web::url_model(url),
                event,
            ) + background(self.explicit_background_color, slot.browser(browsers@), color),
    {
        let ghost first = page_load(self.handlers.page_load, web::url_model(url), event);
        let ghost second = background(
            self.explicit_background_color,
            slot.browser(browsers@),
            color,
        );
        let mut actions = no_actions();
        if let Some(question) = ask(self.handlers.page_load, url) {
            push(&mut actions, ClientAction::PageLoad(question, event));
        }
        assert(action_models(actions@) =~= first);
        if self.explicit_background_color {
            let calls = webview::apply_background_color(browsers, slot, color);
            push(&mut actions, ClientAction::Calls { browser: slot.current(browsers), calls });
        }
        assert(action_models(actions@) =~= first + second);
        actions
    }

    fn run_scripts(
        &self,
        browsers: &BrowserSlots,
        slot: &BrowserSlot,
        actions: &mut Vec<ClientAction>,
    )
        ensures
            action_models(final(actions)@) == action_models(old(actions)@) + script_runs(
                slot.browser(browsers@),
                init_scripts::models(self.scripts@),
            ),
    {
        let ghost all = script_runs(slot.browser(browsers@), init_scripts::models(self.scripts@));
        let ghost before = action_models(actions@);
        let mut index: usize = 0;
        assert(action_models(actions@) =~= before + all.take(0));
        while index < self.scripts.len()
            invariant
                index <= self.scripts@.len(),
                all == script_runs(slot.browser(browsers@), init_scripts::models(self.scripts@)),
                action_models(actions@) == before + all.take(index as int),
            decreases self.scripts@.len() - index,
        {
            let calls = slot.eval(browsers, self.scripts[index].script.as_str());
            push(actions, ClientAction::Calls { browser: slot.current(browsers), calls });
            proof {
                assert(init_scripts::models(self.scripts@)[index as int]
                    == self.scripts@[index as int]@);
                assert(all.take(index + 1) =~= all.take(index as int) + seq![all[index as int]]);
                assert(action_models(actions@) =~= before + all.take(index + 1));
            }
            index = index + 1;
        }
        assert(all.take(index as int) =~= all);
    }

    fn ipc_action(
        &self,
        name: &String,
        arguments: &Vec<String>,
        first_is_url: bool,
    ) -> (action: Option<ClientAction>)
        ensures
            match (
                self.handlers.ipc,
                ipc_model(page_of(arguments@, first_is_url), payload_of(arguments@)),
            ) {
                (Some(handler), Some(request)) => if is_ipc_message(name@) {
                    action is Some && action->Some_0@ == (ClientActionModel::Ipc {
                        handler,
                        window: self.window,
                        webview_id: self.webview_id,
                        request,
                    })
                } else {
                    action is None
                },
                _ => action is None,
            },
    {
        if !is_ipc(name) {
            return None;
        }
        proof {
            reveal_strlit("");
        }
        let message = if arguments.len() > 0 {
            arguments[arguments.len() - 1].clone()
        } else {
            "".to_string()
        };
        assert(message@ =~= payload_of(arguments@));
        let page = if arguments.len() > 0 && first_is_url {
            arguments[0].clone()
        } else {
            "tauri://localhost".to_string()
        };
        match ipc_request(page, message) {
            Some(request) => match self.handlers.ipc {
                Some(handler) => {
                    assert(Some(request_model(request)) =~= ipc_model(
                        page_of(arguments@, first_is_url),
                        payload_of(arguments@),
                    ));
                    Some(
                        ClientAction::Ipc {
                            handler,
                            window: self.window,
                            webview_id: self.webview_id,
                            request,
                        },
                    )
                },
                None => None,
            },
            None => None,
        }
    }

    /// What a webview does about an event of its browser, once the URL that the event
    /// speaks of is parsed.
    pub fn on_parsed_event(
        &self,
        event: BrowserEvent,
        url: Option<ParsedUrl>,
        browsers: &BrowserSlots,
        slot: &BrowserSlot,
        color: Color,
        cells: &WindowCells,
    ) -> (actions: Vec<ClientAction>)
        ensures
            action_models(actions@) == actions_of(
                *self,
                event,
                web::url_model(url),
                slot.browser(browsers@),
                color,
                cells@,
            ),
    {
        match event {
            BrowserEvent::TitleChanged { title, .. } => {
                let mut actions = no_actions();
                if let Some(handler) = self.handlers.title {
                    push(&mut actions, ClientAction::CallTitleHandler(handler, title));
                }
                assert(action_models(actions@) =~= actions_of(
                    *self,
                    event,
                    web::url_model(url),
                    slot.browser(browsers@),
                    color,
                    cells@,
                ));
                actions
            },
            BrowserEvent::LoadStarted { .. } => {
                let mut actions = self.load_actions(
                    url,
                    PageLoadEvent::Started,
                    browsers,
                    slot,
                    color,
                );
                if self.run_scripts_on_load {
                    self.run_scripts(browsers, slot, &mut actions);
                }
                assert(action_models(actions@) =~= actions_of(
                    *self,
                    event,
                    web::url_model(url),
                    slot.browser(browsers@),
                    color,
                    cells@,
                ));
                actions
            },
            BrowserEvent::LoadFinished { .. } => self.load_actions(
                url,
                PageLoadEvent::Finished,
                browsers,
                slot,
                color,
            ),
            BrowserEvent::ProcessMessage { name, arguments, .. } => {
                let mut actions = no_actions();
                if let Some(action) = self.ipc_action(
                    &name,
                    &arguments,
                    url.is_some(),
                ) {
                    push(&mut actions, action);
                }
                assert(action_models(actions@) =~= actions_of(
                    *self,
                    event,
                    web::url_model(url),
                    slot.browser(browsers@),
                    color,
                    cells@,
                ));
                actions
            },
            BrowserEvent::BeforeClose { .. } => {
                let mut actions = no_actions();
                push(
                    &mut actions,
                    ClientAction::Send {
                        window_id: self.window.current(cells),
                        webview_id: self.webview_id,
                        message: WebviewMessage::Close,
                    },
                );
                assert(action_models(actions@) =~= actions_of(
                    *self,
                    event,
                    web::url_model(url),
                    slot.browser(browsers@),
                    color,
                    cells@,
                ));
                actions
            },
            _ => no_actions(),
        }
    }

    /// What a webview does about an event of its browser. `slot` holds the browser, and
    /// `color` is the background color of the webview.
    pub fn on_event(
        &self,
        event: BrowserEvent,
        browsers: &BrowserSlots,
        slot: &BrowserSlot,
        color: Color,
        cells: &WindowCells,
    ) -> (actions: Vec<ClientAction>)
        ensures
            action_models(actions@) == actions_of(
                *self,
                event,
                parsed_in(event),
                slot.browser(browsers@),
                color,
                cells@,
            ),
    {
        let url = match &event {
            BrowserEvent::LoadStarted { url, .. } => parse_url(url.as_str()),
            BrowserEvent::LoadFinished { url, .. } => parse_url(url.as_str()),
            BrowserEvent::ProcessMessage { arguments, .. } => if arguments.len() > 0 {
                parse_url(arguments[0].as_str())
            } else {
                None
            },
            _ => None,
        };
        self.on_parsed_event(event, url, browsers, slot, color, cells)
    }

    /// What a webview does when files are dragged onto it. The window learns of it if
    /// the webview is all that it shows.
    pub fn on_drag_enter(&self, files: Vec<String>, cells: &WindowCells) -> (action: ClientAction)
        ensures
            action@ == (ClientActionModel::Send {
                window_id: self.window.window(cells@),
                webview_id: self.webview_id,
                message: {
                    let event = DragDropEvent::Enter {
                        paths: files,
                        x: Float64 { bits: 0 },
                        y: Float64 { bits: 0 },
                    };
                    if self.kind == WebviewKind::WindowContent {
                        WebviewMessage::SynthesizedWindowEvent(
                            SynthesizedWindowEvent::DragDrop(event),
                        )
                    } else {
                        WebviewMessage::WebviewEvent(WebviewEvent::DragDrop(event))
                    }
                },
            }),
    {
        let event = DragDropEvent::Enter {
            paths: files,
            x: Float64 { bits: 0 },
            y: Float64 { bits: 0 },
        };
        let message = if self.kind == WebviewKind::WindowContent {
            WebviewMessage::SynthesizedWindowEvent(SynthesizedWindowEvent::DragDrop(event))
        } else {
            WebviewMessage::WebviewEvent(WebviewEvent::DragDrop(event))
        };
        ClientAction::Send {
            window_id: self.window.current(cells),
            webview_id: self.webview_id,
            message,
        }
    }
}

/// The background of a page is left alone unless the application asked for a color.
pub proof fn lemma_page_keeps_its_background(
    events: WebviewEvents,
    event: BrowserEvent,
    url: Option<UrlModel>,
    browser: Option<i32>,
    color: Color,
    other_color: Color,
    cells: Seq<WindowId>,
)
    requires
        !events.explicit_background_color,
    ensures
        actions_of(events, event, url, browser, color, cells) == actions_of(
            events,
            event,
            url,
            browser,
            other_color,
            cells,
        ),
{
}

/// A message of a page reaches the application only under one of the names for such
/// messages.
pub proof fn lemma_other_messages_do_not_reach_the_application(
    events: WebviewEvents,
    event: BrowserEvent,
    url: Option<UrlModel>,
    browser: Option<i32>,
    color: Color,
    cells: Seq<WindowId>,
)
    requires
        event is ProcessMessage,
        !is_ipc_message(event->name@),
    ensures
        actions_of(events, event, url, browser, color, cells).len() == 0,
{
}

/// The handler for titles, if there is one, gets every title as it is, and nothing else is done.
pub proof fn lemma_titles_are_passed_on(
    events: &WebviewEvents,
    browser_id: i32,
    title: String,
    url: Option<ParsedUrl>,
    browsers: &BrowserSlots,
    slot: &BrowserSlot,
    color: Color,
    cells: &WindowCells,
    actions: Vec<ClientAction>,
)
    requires
        call_ensures(
            WebviewEvents::on_parsed_event,
            (
                events,
                BrowserEvent::TitleChanged { browser_id, title },
                url,
                browsers,
                slot,
                color,
                cells,
            ),
            actions,
        ),
    ensures
        events.handlers.title is None ==> actions@.len() == 0,
        events.handlers.title matches Some(handler) ==> {
            &&& actions@.len() == 1
            &&& actions@[0] == ClientAction::CallTitleHandler(handler, title)
        },
{
    assert(action_models(actions@).len() == actions@.len());
    if events.handlers.title is Some {
        assert(action_models(actions@)[0] == actions@[0]@);
    }
}

/// The handler for the loading of pages learns that a page begins to load or has loaded, with
/// its URL. If the application asked for a background color the page gets it then. When a page
/// begins to load its scripts are run after that, in order, where the render process does not
/// run them.
pub proof fn lemma_loading_is_passed_on(
    events: &WebviewEvents,
    browser_id: i32,
    text: String,
    http_status_code: i32,
    handler: HandlerId,
    url: ParsedUrl,
    browsers: &BrowserSlots,
    slot: &BrowserSlot,
    color: Color,
    cells: &WindowCells,
    begun: Vec<ClientAction>,
    ended: Vec<ClientAction>,
    background_calls: CallSequence,
    i: int,
)
    requires
        events.handlers.page_load == Some(handler),
        call_ensures(
            WebviewEvents::on_parsed_event,
            (
                events,
                BrowserEvent::LoadStarted { browser_id, url: text },
                Some(url),
                browsers,
                slot,
                color,
                cells,
            ),
            begun,
        ),
        call_ensures(
            WebviewEvents::on_parsed_event,
            (
                events,
                BrowserEvent::LoadFinished { browser_id, url: text, http_status_code },
                Some(url),
                browsers,
                slot,
                color,
                cells,
            ),
            ended,
        ),
        call_ensures(webview::apply_background_color, (browsers, slot, color), background_calls),
    ensures
        ({
            let question = UrlQuestionModel { handler, url: url@ };
            let browser = slot.browser(browsers@);
            let colored = events.explicit_background_color;
            let count: int = if colored {
                2
            } else {
                1
            };
            &&& ended@.len() == count
            &&& ended@[0]@ == ClientActionModel::PageLoad(question, PageLoadEvent::Finished)
            &&& begun@[0]@ == ClientActionModel::PageLoad(question, PageLoadEvent::Started)
            &&& colored ==> {
                &&& ended@[1]@ == (ClientActionModel::Calls { browser, calls: background_calls@ })
                &&& begun@[1]@ == ended@[1]@
            }
            &&& !events.run_scripts_on_load ==> begun@.len() == count
            &&& events.run_scripts_on_load ==> {
                &&& begun@.len() == count + events.scripts@.len()
                &&& 0 <= i < events.scripts@.len() && browser is Some ==> {
                    &&& begun@[count + i]@ matches ClientActionModel::Calls { browser: on, calls }
                    &&& on == browser
                    &&& calls.remaining.len() == 2
                    &&& calls.remaining[1].call == (CallOf::ExecuteJavaScript {
                        code: events.scripts@[i].script@,
                        script_url: "tauri-runtime-cef://eval"@,
                        start_line: 1,
                    })
                }
                &&& 0 <= i < events.scripts@.len() && browser is None ==> {
                    &&& begun@[count + i]@ matches ClientActionModel::Calls { browser: on, calls }
                    &&& on is None
                    &&& calls.remaining.len() == 0
                    &&& calls.outcome == Some(false)
                }
            }
        }),
{
    let scripts = init_scripts::models(events.scripts@);
    assert(scripts.len() == events.scripts@.len());
    assert(action_models(begun@).len() == begun@.len());
    assert(action_models(ended@).len() == ended@.len());
    assert(forall|j: int|
        0 <= j < begun@.len() ==> (#[trigger] begun@[j])@ == action_models(begun@)[j]);
    assert(forall|j: int|
        0 <= j < ended@.len() ==> (#[trigger] ended@[j])@ == action_models(ended@)[j]);
    if 0 <= i < scripts.len() {
        assert(scripts[i] == events.scripts@[i]@);
        assert(script_runs(slot.browser(browsers@), scripts)[i]
            is Calls);
    }
}

/// Without a handler for it, or where the URL of a page is none, nobody learns of its loading.
pub proof fn lemma_loading_without_a_handler(
    events: &WebviewEvents,
    browser_id: i32,
    text: String,
    http_status_code: i32,
    url: Option<ParsedUrl>,
    browsers: &BrowserSlots,
    slot: &BrowserSlot,
    color: Color,
    cells: &WindowCells,
    ended: Vec<ClientAction>,
)
    requires
        events.handlers.page_load is None || url is None,
        call_ensures(
            WebviewEvents::on_parsed_event,
            (
                events,
                BrowserEvent::LoadFinished { browser_id, url: text, http_status_code },
                url,
                browsers,
                slot,
                color,
                cells,
            ),
            ended,
        ),
    ensures
        events.explicit_background_color ==> ended@.len() == 1 && ended@[0] is Calls,
        !events.explicit_background_color ==> ended@.len() == 0,
{
    assert(action_models(ended@).len() == ended@.len());
    if events.explicit_background_color {
        assert(action_models(ended@)[0] == ended@[0]@);
    }
}

/// A message of a page under one of the names for such messages reaches the handler for them: its
/// last argument is posted to the page, which the first one names if it is a URL. A message
/// under another name does not.
pub proof fn lemma_page_messages_are_passed_on(
    events: &WebviewEvents,
    browser_id: i32,
    source_process: ProcessId,
    name: String,
    arguments: Vec<String>,
    handler: HandlerId,
    url: Option<ParsedUrl>,
    browsers: &BrowserSlots,
    slot: &BrowserSlot,
    color: Color,
    cells: &WindowCells,
    actions: Vec<ClientAction>,
)
    requires
        events.handlers.ipc == Some(handler),
        call_ensures(
            WebviewEvents::on_parsed_event,
            (
                events,
                BrowserEvent::ProcessMessage { browser_id, source_process, name, arguments },
                url,
                browsers,
                slot,
                color,
                cells,
            ),
            actions,
        ),
    ensures
        ({
            let named = name@ == "tauri-ipc"@ || name@ == "__TAURI_IPC__"@ || name@
                == "tauri:ipc"@ || name@ == "ipc"@;
            let page = if arguments@.len() > 0 && url is Some {
                arguments@[0]@
            } else {
                "tauri://localhost"@
            };
            &&& actions@.len() == 1 <==> named && web::uri_text(page) is Some
            &&& actions@.len() == 0 <==> !named || web::uri_text(page) is None
            &&& actions@.len() == 1 ==> {
                &&& actions@[0] matches ClientAction::Ipc {
                    handler: called,
                    window,
                    webview_id,
                    request,
                }
                &&& called == handler
                &&& window == events.window
                &&& webview_id == events.webview_id
                &&& request.method@ == "POST"@
                &&& Some(request.uri@) == web::uri_text(page)
                &&& arguments@.len() > 0 ==> request.body@ == utf8::encode_utf8(
                    arguments@.last()@,
                )
                &&& arguments@.len() == 0 ==> request.body@ == utf8::encode_utf8(Seq::empty())
            }
        }),
{
    assert(action_models(actions@).len() == actions@.len());
    if actions@.len() == 1 {
        assert(action_models(actions@)[0] == actions@[0]@);
    }
}

/// Before a browser closes its webview is closed, in the window in which it is by then. That a
/// browser was created, and how far it has loaded, leads to nothing.
pub proof fn lemma_closing_browsers_close_their_webview(
    events: &WebviewEvents,
    browser_id: i32,
    url: Option<ParsedUrl>,
    browsers: &BrowserSlots,
    slot: &BrowserSlot,
    color: Color,
    cells: &WindowCells,
    closing: Vec<ClientAction>,
    created: Vec<ClientAction>,
)
    requires
        call_ensures(
            WebviewEvents::on_parsed_event,
            (
                events,
                BrowserEvent::BeforeClose { browser_id },
                url,
                browsers,
                slot,
                color,
                cells,
            ),
            closing,
        ),
        call_ensures(
            WebviewEvents::on_parsed_event,
            (events, BrowserEvent::Created { browser_id }, url, browsers, slot, color, cells),
            created,
        ),
    ensures
        closing@.len() == 1,
        closing@[0] == (ClientAction::Send {
            window_id: events.window.window(cells@),
            webview_id: events.webview_id,
            message: WebviewMessage::Close,
        }),
        created@.len() == 0,
{
    assert(action_models(closing@).len() == closing@.len());
    assert(action_models(created@).len() == created@.len());
    assert(action_models(closing@)[0] == closing@[0]@);
}

/// Files that are dragged onto a webview are told to its window if it is all that the window
/// shows, and to the webview otherwise, all of them in order.
pub proof fn lemma_dragged_files_are_passed_on(
    events: &WebviewEvents,
    files: Vec<String>,
    cells: &WindowCells,
    action: ClientAction,
)
    requires
        call_ensures(WebviewEvents::on_drag_enter, (events, files, cells), action),
    ensures
        action is Send,
        action->window_id == events.window.window(cells@),
        action->Send_webview_id == events.webview_id,
        events.kind == WebviewKind::WindowContent ==> {
            &&& action->message matches WebviewMessage::SynthesizedWindowEvent(
                SynthesizedWindowEvent::DragDrop(DragDropEvent::Enter { paths, .. }),
            )
            &&& paths == files
        },
        events.kind == WebviewKind::WindowChild ==> {
            &&& action->message matches WebviewMessage::WebviewEvent(
                WebviewEvent::DragDrop(DragDropEvent::Enter { paths, .. }),
            )
            &&& paths == files
        },
{
}

} // verus!
