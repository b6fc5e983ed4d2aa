//! What the threads of an application share with its event loop.

use crate::browser_slot::BrowserSlots;
use crate::client;
use crate::client::{BrowserEvent, Emission, RuntimeClient};
use crate::runtime::conversions::Error;
use crate::runtime::event_loop;
use crate::runtime::messages;
use crate::runtime::messages::{
    Effect, EffectModel, Message, TaskId, WebviewMessage, WindowMessage, WindowReport,
};
use crate::runtime::platform::BuildOptions;
use crate::runtime::store;
use crate::runtime::store::{
    TaoWindowId, WebviewId, WebviewModel, WebviewWrapper, WindowCell, WindowCells, WindowId,
    WindowIdStore, WindowModel, WindowWrapper, WindowsStore,
};
use crate::runtime::tracing_spans::{ActiveTraceSpanStore, ActiveTracingSpan};
use crate::runtime::user_messages;
use crate::tao::EventLoopProxy;
use std::collections::HashSet;
use vstd::prelude::*;

verus! {

/// What webviews that keep their data in one place share. CEF has a single context of
/// its own, so nothing depends on it.
#[derive(Debug)]
pub struct WebContext {
    pub referenced_by_webviews: HashSet<String>,
    pub registered_custom_protocols: HashSet<String>,
}

/// What belongs to the main thread.
#[derive(Debug)]
pub struct DispatcherMainThreadContext {
    pub windows: WindowsStore,
    /// The browsers of the webviews.
    pub browsers: BrowserSlots,
    pub active_tracing_spans: ActiveTraceSpanStore,
}

/// The identifiers that are given out next.
#[derive(Debug, Clone, Copy, PartialEq, Eq, Structural)]
pub struct NextIds {
    pub window: u32,
    pub webview: u32,
    pub window_event: u32,
    pub webview_event: u32,
}

/// What the threads of an application share with its event loop.
#[derive(Debug)]
pub struct Context<T> {
    pub options: BuildOptions,
    pub window_id_map: WindowIdStore,
    pub main_thread_id: u64,
    pub proxy: EventLoopProxy<Message<T>>,
    pub main_thread: DispatcherMainThreadContext,
    pub next_ids: NextIds,
    /// The windows that webviews are taken to be in.
    pub window_cells: WindowCells,
    pub webview_runtime_installed: bool,
}

/// What the threads of an application share with its event loop, as values.
pub struct ContextModel<T> {
    pub options: BuildOptions,
    pub ids: Map<TaoWindowId, WindowId>,
    pub main_thread_id: u64,
    /// The event loop is gone.
    pub closed: bool,
    /// The messages on their way to the event loop.
    pub sent: Seq<Message<T>>,
    pub windows: Map<WindowId, WindowModel>,
    pub browsers: Seq<Option<i32>>,
    pub spans: Seq<ActiveTracingSpan>,
    pub next_ids: NextIds,
    pub cells: Seq<WindowId>,
    pub webview_runtime_installed: bool,
}

impl<T> View for Context<T> {
    type V = ContextModel<T>;

    open spec fn view(&self) -> ContextModel<T> {
        ContextModel {
            options: self.options,
            ids: self.window_id_map@,
            main_thread_id: self.main_thread_id,
            closed: self.proxy.closed,
            sent: self.proxy.sent@,
            windows: self.main_thread.windows@,
            browsers: self.main_thread.browsers@,
            spans: self.main_thread.active_tracing_spans@,
            next_ids: self.next_ids,
            cells: self.window_cells@,
            webview_runtime_installed: self.webview_runtime_installed,
        }
    }
}

/// The thread that sends a message, and what the window that the message is for says of
/// itself. The window is asked only on the main thread.
#[derive(Debug, Clone, Copy, PartialEq, Eq, Structural)]
pub struct Caller {
    pub thread: u64,
    pub report: WindowReport,
}

/// The identifier after another. The first one comes after the last.
pub open spec fn successor(id: u32) -> u32 {
    if id == u32::MAX {
        0
    } else {
        (id + 1) as u32
    }
}

fn next(id: u32) -> (result: u32)
    ensures
        result == successor(id),
{
    if id == u32::MAX {
        0
    } else {
        id + 1
    }
}

/// The identifier that is given out after `count` others.
pub open spec fn id_after(start: u32, count: nat) -> u32
    decreases count,
{
    if count == 0 {
        start
    } else {
        successor(id_after(start, (count - 1) as nat))
    }
}

proof fn lemma_id_after(start: u32, count: nat)
    requires
        count < 0x1_0000_0000,
    ensures
        id_after(start, count) == if start + count <= u32::MAX {
            start + count
        } else {
            start + count - 0x1_0000_0000
        },
    decreases count,
{
    if count > 0 {
        lemma_id_after(start, (count - 1) as nat);
    }
}

/// Identifiers do not repeat before all of them were given out.
pub proof fn lemma_ids_are_distinct(start: u32, first: nat, second: nat)
    requires
        first < second < 0x1_0000_0000,
    ensures
        id_after(start, first) != id_after(start, second),
{
    lemma_id_after(start, first);
    lemma_id_after(start, second);
}

/// What a message sent to the event loop does: it is on its way, unless the event loop is
/// gone.
pub open spec fn posted<T>(context: ContextModel<T>, message: Message<T>) -> ContextModel<T> {
    if context.closed {
        context
    } else {
        ContextModel { sent: context.sent.push(message), ..context }
    }
}

/// What comes of a message: what is done about it at once, or an error.
pub open spec fn outcome(result: Result<Vec<Effect>, Error>) -> Result<Seq<EffectModel>, Error> {
    match result {
        Ok(effects) => Ok(messages::models(effects@)),
        Err(error) => Err(error),
    }
}

/// What comes of a message that goes to the event loop.
pub open spec fn post_result<T>(context: ContextModel<T>) -> Result<Seq<EffectModel>, Error> {
    if context.closed {
        Err(Error::FailedToSendMessage)
    } else {
        Ok(Seq::empty())
    }
}

/// A thread shares the context, and what comes of a message that it sends. The main
/// thread handles the message at once; from any other it goes to the event loop.
pub open spec fn dispatched<T>(
    context: ContextModel<T>,
    caller: Caller,
    message: Message<T>,
) -> (ContextModel<T>, Result<Seq<EffectModel>, Error>) {
    if caller.thread == context.main_thread_id {
        (
            ContextModel {
                windows: user_messages::windows_after(
                    context.options.platform,
                    context.windows,
                    message,
                ),
                ..context
            },
            Ok(
                user_messages::effects_of(
                    context.options.platform,
                    caller.report,
                    context.windows,
                    context.browsers,
                    message,
                ),
            ),
        )
    } else {
        (posted(context, message), post_result(context))
    }
}

/// A thread can send a message: on the main thread it must be one that is handled
/// without the callback of the application.
pub open spec fn can_send<T>(
    context: ContextModel<T>,
    caller: Caller,
    message: Message<T>,
) -> bool {
    caller.thread == context.main_thread_id ==> user_messages::is_handled(
        context.windows,
        context.browsers,
        message,
    )
}

/// Sends a message: handles it on the main thread, and hands it to the event loop on
/// any other.
pub fn send_user_message<T>(
    context: &mut Context<T>,
    caller: Caller,
    message: Message<T>,
) -> (result: Result<Vec<Effect>, Error>)
    requires
        can_send(old(context)@, caller, message),
    ensures
        (final(context)@, outcome(result)) == dispatched(old(context)@, caller, message),
{
    if caller.thread == context.main_thread_id {
        Ok(
            user_messages::handle_user_message(
                context.options.platform,
                caller.report,
                &mut context.main_thread.windows,
                &context.main_thread.browsers,
                message,
            ),
        )
    } else {
        context.post(message)
    }
}

/// Sends a message whose failure does not matter.
pub fn send_and_forget<T>(context: &mut Context<T>, caller: Caller, message: Message<T>) -> (
    effects: Vec<Effect>)
    requires
        can_send(old(context)@, caller, message),
    ensures
        final(context)@ == dispatched(old(context)@, caller, message).0,
        messages::models(effects@) == match dispatched(old(context)@, caller, message).1 {
            Ok(effects) => effects,
            Err(_) => Seq::empty(),
        },
{
    match send_user_message(context, caller, message) {
        Ok(effects) => effects,
        Err(_) => {
            let effects: Vec<Effect> = Vec::new();
            assert(messages::models(effects@) =~= Seq::empty());
            effects
        },
    }
}

/// What was answered to a question, if anyone answered.
pub fn received<R>(answer: Option<R>) -> (result: Result<R, Error>)
    ensures
        result == match answer {
            Some(answer) => Ok::<R, Error>(answer),
            None => Err::<R, Error>(Error::FailedToReceiveMessage),
        },
{
    match answer {
        Some(answer) => Ok(answer),
        None => Err(Error::FailedToReceiveMessage),
    }
}

/// A window that was asked for, as the application holds it.
#[derive(Debug)]
pub struct DetachedWindow {
    pub id: WindowId,
    pub label: String,
    pub webview: Option<DetachedWindowWebview>,
}

/// The webview of a window that was asked for.
#[derive(Debug)]
pub struct DetachedWindowWebview {
    pub webview: DetachedWebview,
    pub use_https_scheme: bool,
}

/// A webview that was asked for, as the application holds it.
#[derive(Debug)]
pub struct DetachedWebview {
    pub label: String,
    /// Where the webview is found.
    pub window: WindowCell,
    pub webview_id: WebviewId,
}

/// The identifiers after those of a window, and of its webview if it has one.
pub open spec fn ids_drawn(next_ids: NextIds, with_webview: bool) -> NextIds {
    NextIds {
        window: successor(next_ids.window),
        webview: if with_webview {
            successor(next_ids.webview)
        } else {
            next_ids.webview
        },
        ..next_ids
    }
}

/// The identifier of the webview of a window, if it has one.
pub open spec fn webview_drawn(next_ids: NextIds, with_webview: bool) -> Option<WebviewId> {
    if with_webview {
        Some(next_ids.webview)
    } else {
        None
    }
}

/// A window and, if it gets one, its webview have their identifiers, and the dispatcher of
/// the webview has a place for its window.
pub open spec fn window_drawn<T>(context: ContextModel<T>, with_webview: bool) -> ContextModel<T> {
    ContextModel {
        next_ids: ids_drawn(context.next_ids, with_webview),
        cells: if with_webview {
            context.cells.push(context.next_ids.window)
        } else {
            context.cells
        },
        ..context
    }
}

/// A webview for a window has its identifier, and it and its dispatcher have one place for
/// the window.
pub open spec fn child_drawn<T>(context: ContextModel<T>, window_id: WindowId) -> ContextModel<T> {
    ContextModel {
        next_ids: NextIds {
            webview: successor(context.next_ids.webview),
            ..context.next_ids
        },
        cells: context.cells.push(window_id),
        ..context
    }
}

/// A window holds what it was asked for with, under the next identifiers.
pub open spec fn is_detached<T>(
    window: DetachedWindow,
    context: ContextModel<T>,
    label: Seq<char>,
    webview: Option<bool>,
) -> bool {
    let next_ids = context.next_ids;
    &&& window.id == next_ids.window
    &&& window.label@ == label
    &&& match webview {
        Some(use_https_scheme) => {
            &&& window.webview matches Some(detached)
            &&& detached.use_https_scheme == use_https_scheme
            &&& detached.webview.label@ == label
            &&& detached.webview.window == store::new_cell(context.cells, next_ids.window)
            &&& detached.webview.webview_id == next_ids.webview
        },
        None => window.webview is None,
    }
}

/// A webview holds what it was asked for with, under the next identifier.
pub open spec fn is_detached_child<T>(
    webview: DetachedWebview,
    context: ContextModel<T>,
    window_id: WindowId,
    label: String,
) -> bool {
    webview == (DetachedWebview {
        label,
        window: store::new_cell(context.cells, window_id),
        webview_id: context.next_ids.webview,
    })
}

/// A thread has asked for a window.
pub open spec fn window_asked_for<T>(
    context: ContextModel<T>,
    caller: Caller,
    label: Seq<char>,
    webview: Option<bool>,
    task: TaskId,
    after: ContextModel<T>,
    result: Result<(DetachedWindow, Vec<Effect>), Error>,
) -> bool {
    let message = Message::CreateWindow(
        context.next_ids.window,
        webview_drawn(context.next_ids, webview is Some),
        task,
    );
    let sent = dispatched(window_drawn(context, webview is Some), caller, message);
    &&& after == sent.0
    &&& match result {
        Ok((window, effects)) => {
            &&& is_detached(window, context, label, webview)
            &&& sent.1 == Ok::<Seq<EffectModel>, Error>(messages::models(effects@))
        },
        Err(error) => sent.1 == Err::<Seq<EffectModel>, Error>(error),
    }
}

/// A thread has asked for a webview in a window.
pub open spec fn webview_asked_for<T>(
    context: ContextModel<T>,
    caller: Caller,
    window_id: WindowId,
    label: String,
    task: TaskId,
    after: ContextModel<T>,
    result: Result<(DetachedWebview, Vec<Effect>), Error>,
) -> bool {
    let message = Message::CreateWebview(
        window_id,
        context.next_ids.webview,
        store::new_cell(context.cells, window_id),
        task,
    );
    let sent = dispatched(child_drawn(context, window_id), caller, message);
    &&& after == sent.0
    &&& match result {
        Ok((webview, effects)) => {
            &&& is_detached_child(webview, context, window_id, label)
            &&& sent.1 == Ok::<Seq<EffectModel>, Error>(messages::models(effects@))
        },
        Err(error) => sent.1 == Err::<Seq<EffectModel>, Error>(error),
    }
}

impl<T> Context<T> {
    /// What threads share with an event loop that begins, on the thread that it begins on.
    pub fn new(options: BuildOptions, main_thread_id: u64) -> (context: Self)
        ensures
            context@ == (ContextModel::<T> {
                options,
                ids: Map::empty(),
                main_thread_id,
                closed: false,
                sent: Seq::empty(),
                windows: Map::empty(),
                browsers: Seq::empty(),
                spans: Seq::empty(),
                next_ids: NextIds { window: 0, webview: 0, window_event: 0, webview_event: 0 },
                cells: Seq::empty(),
                webview_runtime_installed: true,
            }),
    {
        Context {
            options,
            window_id_map: WindowIdStore::new(),
            main_thread_id,
            proxy: EventLoopProxy::new(),
            main_thread: DispatcherMainThreadContext {
                windows: WindowsStore::new(),
                browsers: BrowserSlots::new(),
                active_tracing_spans: ActiveTraceSpanStore::new(),
            },
            next_ids: NextIds { window: 0, webview: 0, window_event: 0, webview_event: 0 },
            window_cells: WindowCells::new(),
            webview_runtime_installed: true,
        }
    }

    /// What belongs to the main thread, for the main thread.
    pub fn run_threaded(&self, thread: u64) -> (main_thread: Option<&DispatcherMainThreadContext>)
        ensures
            main_thread == if thread == self.main_thread_id {
                Some(&self.main_thread)
            } else {
                None
            },
    {
        if thread == self.main_thread_id {
            Some(&self.main_thread)
        } else {
            None
        }
    }

    /// Hands a message to the event loop, whatever the thread.
    pub fn post(&mut self, message: Message<T>) -> (result: Result<Vec<Effect>, Error>)
        ensures
            final(self)@ == posted(old(self)@, message),
            outcome(result) == post_result(old(self)@),
    {
        match self.proxy.send_event(message) {
            Ok(()) => {
                let effects: Vec<Effect> = Vec::new();
                assert(messages::models(effects@) =~= Seq::empty());
                Ok(effects)
            },
            Err(_) => Err(Error::FailedToSendMessage),
        }
    }

    /// A place of its own for the window that a webview is created in. The page of a webview
    /// that is created with its window gets one, apart from that of its dispatcher.
    pub fn note_window(&mut self, window_id: WindowId) -> (cell: WindowCell)
        ensures
            cell == store::new_cell(old(self)@.cells, window_id),
            cell.id == old(self)@.cells.len(),
            final(self)@ == (ContextModel {
                cells: old(self)@.cells.push(window_id),
                ..old(self)@
            }),
    {
        WindowCell::new(&mut self.window_cells, window_id)
    }

    /// CEF has created the browser of a client: it is in the slot of the client from now
    /// on, for every webview and everyone else who has that slot.
    pub fn browser_created(&mut self, client: &RuntimeClient, browser: Option<i32>) -> (emission:
        Option<Emission>)
        ensures
            final(self)@ == (ContextModel {
                browsers: client::after_created(
                    old(self)@.browsers,
                    client.state.browser_slot,
                    browser,
                ),
                ..old(self)@
            }),
            emission == match (browser, client.state.callbacks.on_event) {
                (Some(browser_id), Some(handler)) => Some(
                    Emission { handler, event: BrowserEvent::Created { browser_id } },
                ),
                _ => None,
            },
    {
        client.on_after_created(&mut self.main_thread.browsers, browser)
    }

    /// CEF is about to close a browser of a client: if it is the one in the slot of the
    /// client, the slot is empty from now on.
    pub fn browser_closes(&mut self, client: &RuntimeClient, browser: Option<i32>) -> (emission:
        Option<Emission>)
        ensures
            final(self)@ == (ContextModel {
                browsers: client::after_close(
                    old(self)@.browsers,
                    client.state.browser_slot,
                    browser,
                ),
                ..old(self)@
            }),
            emission == match client.state.callbacks.on_event {
                Some(handler) => Some(
                    Emission {
                        handler,
                        event: BrowserEvent::BeforeClose {
                            browser_id: client::id_or_zero(browser),
                        },
                    },
                ),
                None => None,
            },
    {
        client.on_before_close(&mut self.main_thread.browsers, browser)
    }

    /// An identifier for a window.
    pub fn next_window_id(&mut self) -> (id: WindowId)
        ensures
            id == old(self)@.next_ids.window,
            final(self)@ == (ContextModel {
                next_ids: NextIds { window: successor(id), ..old(self)@.next_ids },
                ..old(self)@
            }),
    {
        let id: WindowId = self.next_ids.window;
        self.next_ids.window = next(id);
        id
    }

    /// An identifier for a webview.
    pub fn next_webview_id(&mut self) -> (id: WebviewId)
        ensures
            id == old(self)@.next_ids.webview,
            final(self)@ == (ContextModel {
                next_ids: NextIds { webview: successor(id), ..old(self)@.next_ids },
                ..old(self)@
            }),
    {
        let id: WebviewId = self.next_ids.webview;
        self.next_ids.webview = next(id);
        id
    }

    /// An identifier for a listener for events of a window.
    pub fn next_window_event_id(&mut self) -> (id: u32)
        ensures
            id == old(self)@.next_ids.window_event,
            final(self)@ == (ContextModel {
                next_ids: NextIds { window_event: successor(id), ..old(self)@.next_ids },
                ..old(self)@
            }),
    {
        let id: u32 = self.next_ids.window_event;
        self.next_ids.window_event = next(id);
        id
    }

    /// An identifier for a listener for events of a webview.
    pub fn next_webview_event_id(&mut self) -> (id: u32)
        ensures
            id == old(self)@.next_ids.webview_event,
            final(self)@ == (ContextModel {
                next_ids: NextIds { webview_event: successor(id), ..old(self)@.next_ids },
                ..old(self)@
            }),
    {
        let id: u32 = self.next_ids.webview_event;
        self.next_ids.webview_event = next(id);
        id
    }

    fn detach_window(&mut self, label: String, webview: Option<bool>) -> (window: DetachedWindow)
        ensures
            is_detached(window, old(self)@, label@, webview),
            final(self)@ == window_drawn(old(self)@, webview is Some),
    {
        let window_id: WindowId = self.next_window_id();
        let webview = match webview {
            Some(use_https_scheme) => {
                let webview_id: WebviewId = self.next_webview_id();
                let window = self.note_window(window_id);
                Some(
                    DetachedWindowWebview {
                        webview: DetachedWebview { label: label.clone(), window, webview_id },
                        use_https_scheme,
                    },
                )
            },
            None => None,
        };
        DetachedWindow { id: window_id, label, webview }
    }

    /// Asks the event loop for a window. `webview` says whether the window gets a webview,
    /// and then whether that one uses HTTPS for the pages of the application; `task`
    /// creates the window.
    pub fn create_window(
        &mut self,
        caller: Caller,
        label: String,
        webview: Option<bool>,
        task: TaskId,
    ) -> (result: Result<(DetachedWindow, Vec<Effect>), Error>)
        ensures
            window_asked_for(old(self)@, caller, label@, webview, task, final(self)@, result),
    {
        let window = self.detach_window(label, webview);
        let webview_id = match &window.webview {
            Some(detached) => Some(detached.webview.webview_id),
            None => None,
        };
        let message: Message<T> = Message::CreateWindow(window.id, webview_id, task);
        match send_user_message(self, caller, message) {
            Ok(effects) => Ok((window, effects)),
            Err(error) => Err(error),
        }
    }

    /// Asks the event loop for a webview in a window, which `task` creates.
    pub fn create_webview(
        &mut self,
        caller: Caller,
        window_id: WindowId,
        label: String,
        task: TaskId,
    ) -> (result: Result<(DetachedWebview, Vec<Effect>), Error>)
        ensures
            webview_asked_for(old(self)@, caller, window_id, label, task, final(self)@, result),
    {
        let webview_id: WebviewId = self.next_webview_id();
        let window = self.note_window(window_id);
        let message: Message<T> = Message::CreateWebview(window_id, webview_id, window, task);
        match send_user_message(self, caller, message) {
            Ok(effects) => Ok((DetachedWebview { label, window, webview_id }, effects)),
            Err(error) => Err(error),
        }
    }

    /// Draws the identifiers of a window that is created on the main thread.
    pub fn begin_window(&mut self, label: String, webview: Option<bool>) -> (window: DetachedWindow)
        ensures
            is_detached(window, old(self)@, label@, webview),
            final(self)@ == window_drawn(old(self)@, webview is Some),
    {
        self.detach_window(label, webview)
    }

    /// Takes a window that was created on the main thread, if it could be created.
    pub fn window_ready(
        &mut self,
        window: DetachedWindow,
        created: Result<WindowWrapper, Error>,
    ) -> (result: Result<DetachedWindow, Error>)
        ensures
            match created {
                Ok(wrapper) => {
                    &&& result == Ok::<DetachedWindow, Error>(window)
                    &&& final(self)@ == (ContextModel {
                        windows: old(self)@.windows.insert(window.id, wrapper@),
                        ..old(self)@
                    })
                },
                Err(error) => {
                    &&& result == Err::<DetachedWindow, Error>(error)
                    &&& final(self)@ == old(self)@
                },
            },
    {
        match created {
            Ok(wrapper) => {
                self.main_thread.windows.insert(window.id, wrapper);
                Ok(window)
            },
            Err(error) => Err(error),
        }
    }

    /// Finds the window for a webview that is created on the main thread, and draws the
    /// identifier of the webview.
    pub fn begin_webview(&mut self, window_id: WindowId, label: String) -> (result: Result<
        (TaoWindowId, DetachedWebview),
        Error,
    >)
        ensures
            match user_messages::open_window(old(self)@.windows, window_id) {
                Some(window) => {
                    &&& result is Ok
                    &&& result->Ok_0.0 == window
                    &&& is_detached_child(result->Ok_0.1, old(self)@, window_id, label)
                    &&& final(self)@ == child_drawn(old(self)@, window_id)
                },
                None => {
                    &&& result == Err::<(TaoWindowId, DetachedWebview), Error>(
                        Error::WindowNotFound,
                    )
                    &&& final(self)@ == old(self)@
                },
            },
    {
        let window = match self.main_thread.windows.get(window_id) {
            Some(window) => window.inner,
            None => None,
        };
        match window {
            Some(tao_window) => {
                let webview_id: WebviewId = self.next_webview_id();
                let window = self.note_window(window_id);
                Ok((tao_window, DetachedWebview { label, window, webview_id }))
            },
            None => Err(Error::WindowNotFound),
        }
    }

    /// Takes a webview that was created on the main thread in a window, if it could be
    /// created.
    pub fn webview_ready(
        &mut self,
        window_id: WindowId,
        webview: DetachedWebview,
        created: Result<WebviewWrapper, Error>,
    ) -> (result: Result<DetachedWebview, Error>)
        ensures
            match created {
                Ok(wrapper) => {
                    let windows = old(self)@.windows;
                    &&& result == Ok::<DetachedWebview, Error>(webview)
                    &&& final(self)@ == (ContextModel {
                        windows: store::with_window(
                            windows,
                            window_id,
                            WindowModel {
                                webviews: windows[window_id].webviews.push(wrapper@),
                                has_children: true,
                                ..windows[window_id]
                            },
                        ),
                        ..old(self)@
                    })
                },
                Err(error) => {
                    &&& result == Err::<DetachedWebview, Error>(error)
                    &&& final(self)@ == old(self)@
                },
            },
    {
        match created {
            Ok(wrapper) => {
                self.main_thread.windows.add_child_webview(window_id, wrapper);
                Ok(webview)
            },
            Err(error) => Err(error),
        }
    }
}

/// The webviews that share the slot of a client have the browser that CEF created for it,
/// until CEF closes that browser. No other webview is concerned.
pub proof fn lemma_life_span_reaches_webviews<T>(
    context: ContextModel<T>,
    client: RuntimeClient,
    webview: WebviewModel,
    other: WebviewModel,
    created: i32,
    closed: i32,
)
    requires
        client.state.browser_slot == webview.slot,
        webview.slot.is_among(context.browsers),
        other.slot.id() != webview.slot.id(),
    ensures
        ({
            let slot = client.state.browser_slot;
            let opened = client::after_created(context.browsers, slot, Some(created));
            let after = client::after_close(opened, slot, Some(closed));
            &&& webview.browser(opened) == Some(created)
            &&& webview.browser(after) == if closed == created {
                None::<i32>
            } else {
                Some(created)
            }
            &&& other.browser(opened) == other.browser(context.browsers)
            &&& other.browser(after) == other.browser(context.browsers)
        }),
{
}

/// A message has the same effects whichever thread sends it: what another thread hands to
/// the event loop is done there as the main thread would have done it.
pub proof fn lemma_threads_do_not_matter<T>(
    context: ContextModel<T>,
    report: WindowReport,
    message: Message<T>,
)
    requires
        user_messages::is_handled(context.windows, context.browsers, message),
        !(message is UserEvent),
        !(message matches Message::Webview(_, _, WebviewMessage::WebviewEvent(_))),
        !(message matches Message::Webview(_, _, WebviewMessage::SynthesizedWindowEvent(_))),
        !(message matches Message::Window(_, WindowMessage::Close)),
        !(message matches Message::Window(_, WindowMessage::Destroy)),
    ensures
        ({
            let here = dispatched(
                context,
                Caller { thread: context.main_thread_id, report },
                message,
            );
            &&& event_loop::windows_after_message(context.options, context.windows, message)
                == here.0.windows
            &&& event_loop::message_step(
                context.options,
                report,
                context.windows,
                context.browsers,
                message,
            ).effects == event_loop::wrapped::<T>(here.1->Ok_0)
        }),
{
}

/// A message that another thread sends is the last one on its way, and no window changes
/// before the event loop gets it.
pub proof fn lemma_other_threads_wait_their_turn<T>(
    context: ContextModel<T>,
    caller: Caller,
    message: Message<T>,
)
    requires
        caller.thread != context.main_thread_id,
        !context.closed,
    ensures
        dispatched(context, caller, message).0.windows == context.windows,
        dispatched(context, caller, message).0.sent.last() == message,
        dispatched(context, caller, message).0.sent.drop_last() == context.sent,
        dispatched(context, caller, message).1 is Ok,
{
    assert(context.sent.push(message).drop_last() =~= context.sent);
}

/// Identifiers count up one by one, each kind for itself, and begin again after the last one.
pub proof fn lemma_ids_count_up<T>(id: u32)
    ensures
        forall|context: &mut Context<T>| #[trigger]
            call_ensures(Context::<T>::next_window_id, (context,), id) ==> {
                let (before, after) = ((*context)@, (*final(context))@);
                &&& id == before.next_ids.window
                &&& id < u32::MAX ==> after.next_ids.window == id + 1
                &&& id == u32::MAX ==> after.next_ids.window == 0
                &&& after.next_ids.webview == before.next_ids.webview
                &&& after.next_ids.window_event == before.next_ids.window_event
                &&& after.next_ids.webview_event == before.next_ids.webview_event
            },
        forall|context: &mut Context<T>| #[trigger]
            call_ensures(Context::<T>::next_webview_id, (context,), id) ==> {
                let (before, after) = ((*context)@, (*final(context))@);
                &&& id == before.next_ids.webview
                &&& id < u32::MAX ==> after.next_ids.webview == id + 1
                &&& id == u32::MAX ==> after.next_ids.webview == 0
                &&& after.next_ids.window == before.next_ids.window
                &&& after.next_ids.window_event == before.next_ids.window_event
                &&& after.next_ids.webview_event == before.next_ids.webview_event
            },
        forall|context: &mut Context<T>| #[trigger]
            call_ensures(Context::<T>::next_window_event_id, (context,), id) ==> {
                let (before, after) = ((*context)@, (*final(context))@);
                &&& id == before.next_ids.window_event
                &&& id < u32::MAX ==> after.next_ids.window_event == id + 1
                &&& id == u32::MAX ==> after.next_ids.window_event == 0
                &&& after.next_ids.window == before.next_ids.window
                &&& after.next_ids.webview == before.next_ids.webview
                &&& after.next_ids.webview_event == before.next_ids.webview_event
            },
        forall|context: &mut Context<T>| #[trigger]
            call_ensures(Context::<T>::next_webview_event_id, (context,), id) ==> {
                let (before, after) = ((*context)@, (*final(context))@);
                &&& id == before.next_ids.webview_event
                &&& id < u32::MAX ==> after.next_ids.webview_event == id + 1
                &&& id == u32::MAX ==> after.next_ids.webview_event == 0
                &&& after.next_ids.window == before.next_ids.window
                &&& after.next_ids.webview == before.next_ids.webview
                &&& after.next_ids.window_event == before.next_ids.window_event
            },
{
}

/// What belongs to the main thread is for it alone. Who got no answer is told so.
pub proof fn lemma_threads_get_what_is_theirs<T, R>(
    context: &Context<T>,
    thread: u64,
    shown: Option<&DispatcherMainThreadContext>,
    answer: Option<R>,
    result: Result<R, Error>,
)
    requires
        call_ensures(Context::<T>::run_threaded, (context, thread), shown),
        call_ensures(received::<R>, (answer,), result),
    ensures
        shown is Some <==> thread == context.main_thread_id,
        shown matches Some(shown) ==> *shown == context.main_thread,
        answer is Some <==> result is Ok,
        result matches Ok(result) ==> answer == Some(result),
        result matches Err(error) ==> error == Error::FailedToReceiveMessage,
{
}

/// A window that is ready is known under its identifier as it was created, and no other window
/// changes; one that could not be created leaves everything as it was.
pub proof fn lemma_ready_windows_are_known<T>(
    window: DetachedWindow,
    created: Result<WindowWrapper, Error>,
    result: Result<DetachedWindow, Error>,
    other: WindowId,
)
    requires
        other != window.id,
    ensures
        forall|context: &mut Context<T>| #[trigger]
            call_ensures(Context::<T>::window_ready, (context, window, created), result) ==> {
                let (before, after) = ((*context)@.windows, (*final(context))@.windows);
                &&& created is Ok <==> result is Ok
                &&& created matches Ok(wrapper) ==> {
                    &&& result == Ok::<DetachedWindow, Error>(window)
                    &&& after.contains_key(window.id)
                    &&& after[window.id] == wrapper@
                    &&& after.contains_key(other) == before.contains_key(other)
                    &&& before.contains_key(other) ==> after[other] == before[other]
                }
                &&& created matches Err(error) ==> {
                    &&& result == Err::<DetachedWindow, Error>(error)
                    &&& after == before
                }
            },
{
}

/// A webview on the main thread begins in a window that is open, under the next identifier.
/// Once it is ready it is the last one of its window, which has children from then on.
pub proof fn lemma_ready_webviews_are_known<T>(
    window_id: WindowId,
    label: String,
    begun: Result<(TaoWindowId, DetachedWebview), Error>,
    webview: DetachedWebview,
    created: WebviewWrapper,
    result: Result<DetachedWebview, Error>,
)
    ensures
        forall|context: &mut Context<T>| #[trigger]
            call_ensures(Context::<T>::begin_webview, (context, window_id, label), begun) ==> {
                let before = (*context)@;
                let open = before.windows.contains_key(window_id)
                    && before.windows[window_id].inner is Some;
                &&& begun is Ok <==> open
                &&& begun matches Err(error) ==> error == Error::WindowNotFound
                &&& begun matches Ok((window, detached)) ==> {
                    &&& before.windows[window_id].inner == Some(window)
                    &&& detached.label == label
                    &&& detached.webview_id == before.next_ids.webview
                    &&& (*final(context))@.next_ids.webview != before.next_ids.webview
                    &&& (*final(context))@.cells == before.cells.push(window_id)
                }
            },
        forall|context: &mut Context<T>|
            (*context)@.windows.contains_key(window_id) && #[trigger] call_ensures(
                Context::<T>::webview_ready,
                (context, window_id, webview, Ok::<WebviewWrapper, Error>(created)),
                result,
            ) ==> {
                let before = (*context)@.windows[window_id];
                let after = (*final(context))@.windows[window_id];
                &&& result == Ok::<DetachedWebview, Error>(webview)
                &&& after.webviews == before.webviews.push(created@)
                &&& after.has_children
                &&& after.label == before.label && after.inner == before.inner
            },
{
}

/// The browser that CEF created for a client is the one in its slot, until CEF closes it.
pub proof fn lemma_browsers_are_in_their_slots<T>(
    client: &RuntimeClient,
    browser: i32,
    emission: Option<Emission>,
)
    ensures
        forall|context: &mut Context<T>| #[trigger]
            call_ensures(Context::<T>::browser_created, (context, client, Some(browser)), emission)
                ==> {
                let slot = client.state.browser_slot;
                &&& slot.is_among((*context)@.browsers) ==> slot.browser(
                    (*final(context))@.browsers,
                ) == Some(browser)
                &&& (*final(context))@.windows == (*context)@.windows
                &&& emission is Some <==> client.state.callbacks.on_event is Some
                &&& emission matches Some(emission) ==> emission.event == (BrowserEvent::Created {
                    browser_id: browser,
                })
            },
        forall|context: &mut Context<T>| #[trigger]
            call_ensures(Context::<T>::browser_closes, (context, client, Some(browser)), emission)
                ==> {
                let slot = client.state.browser_slot;
                let before = slot.browser((*context)@.browsers);
                let after = slot.browser((*final(context))@.browsers);
                &&& before == Some(browser) ==> after is None
                &&& before != Some(browser) ==> after == before
                &&& emission is Some <==> client.state.callbacks.on_event is Some
                &&& emission matches Some(emission) ==> emission.event
                    == (BrowserEvent::BeforeClose { browser_id: browser })
            },
{
}

/// An event loop begins without windows, browsers and messages, and every first identifier is
/// zero.
pub proof fn lemma_event_loops_begin_empty<T>(
    options: BuildOptions,
    thread: u64,
    context: Context<T>,
)
    requires
        call_ensures(Context::<T>::new, (options, thread), context),
    ensures
        context.options == options,
        context.main_thread_id == thread,
        !context.proxy.closed,
        context.proxy.sent@.len() == 0,
        context@.windows == Map::<WindowId, WindowModel>::empty(),
        context@.ids == Map::<TaoWindowId, WindowId>::empty(),
        context@.browsers.len() == 0 && context@.cells.len() == 0 && context@.spans.len() == 0,
        context@.next_ids.window == 0 && context@.next_ids.webview == 0,
        context@.next_ids.window_event == 0 && context@.next_ids.webview_event == 0,
        context.webview_runtime_installed,
{
    assert(context@.options == options);
    assert(context@.main_thread_id == thread);
    assert(!context@.closed);
    assert(context@.sent.len() == 0);
    assert(context@.webview_runtime_installed);
}

/// A message of another thread is put behind all others, and is an error where the event loop is
/// gone; one of the main thread is handled at once and puts nothing on its way.
pub proof fn lemma_messages_take_their_way<T>(
    caller: Caller,
    message: Message<T>,
    result: Result<Vec<Effect>, Error>,
    effects: Vec<Effect>,
    window_id: WindowId,
    cell: WindowCell,
)
    ensures
        forall|context: &mut Context<T>|
            caller.thread != (*context).main_thread_id && #[trigger] call_ensures(
                send_user_message::<T>,
                (context, caller, message),
                result,
            ) ==> {
                let (before, after) = ((*context).proxy, (*final(context)).proxy);
                &&& result is Ok <==> !before.closed
                &&& result is Ok ==> after.sent@ == before.sent@.push(message)
                &&& result is Err ==> after.sent@ == before.sent@
                &&& result matches Err(error) ==> error == Error::FailedToSendMessage
                &&& (*final(context))@.windows == (*context)@.windows
            },
        forall|context: &mut Context<T>|
            caller.thread == (*context).main_thread_id && #[trigger] call_ensures(
                send_user_message::<T>,
                (context, caller, message),
                result,
            ) ==> {
                &&& result is Ok
                &&& (*final(context)).proxy.sent@ == (*context).proxy.sent@
            },
        forall|context: &mut Context<T>|
            caller.thread != (*context).main_thread_id && #[trigger] call_ensures(
                send_and_forget::<T>,
                (context, caller, message),
                effects,
            ) ==> {
                let (before, after) = ((*context).proxy, (*final(context)).proxy);
                &&& !before.closed ==> after.sent@ == before.sent@.push(message)
                &&& before.closed ==> after.sent@ == before.sent@
                &&& messages::models(effects@).len() == 0
            },
        forall|context: &mut Context<T>| #[trigger]
            call_ensures(Context::<T>::post, (context, message), result) ==> {
                let (before, after) = ((*context).proxy, (*final(context)).proxy);
                &&& result is Ok <==> !before.closed
                &&& result is Ok ==> after.sent@ == before.sent@.push(message)
                &&& result is Err ==> after.sent@ == before.sent@
            },
        forall|context: &mut Context<T>| #[trigger]
            call_ensures(Context::<T>::note_window, (context, window_id), cell) ==> {
                &&& cell.id == (*context)@.cells.len()
                &&& cell.created_in == window_id
                &&& (*final(context))@.cells == (*context)@.cells.push(window_id)
            },
{
    assert forall|context: &mut Context<T>|
        caller.thread == (*context).main_thread_id && #[trigger] call_ensures(
            send_user_message::<T>,
            (context, caller, message),
            result,
        ) implies (*final(context))@.sent == (*context)@.sent by {}
}

} // verus!
