//! The messages that reach the event loop, and what is done about them.

use crate::cef_calls::{CallSequence, SequenceState};
use crate::client::HandlerId;
use crate::runtime::color::Color;
use crate::runtime::conversions::{
    ActivationPolicy, CursorIcon, DeviceEventFilter, Error, ProgressBarState, ResizeDirection,
    TaoActivationPolicy, TaoCursorIcon, TaoDeviceEventFilter, TaoIcon, TaoProgressBarState,
    TaoResizeDirection, TaoTheme, TaoUserAttentionType, Theme, UserAttentionTypeWrapper,
};
use crate::runtime::cookies::{ClearBrowsingData, CookieQuery, ManagerSearch, WebCookie};
use crate::runtime::dpi::{
    Float64, PhysicalPosition, PhysicalSize, Position, Rect, Size, WindowSizeConstraints,
};
use crate::runtime::store::{
    TaoWindowId, WebviewEventId, WebviewId, WindowCell, WindowEventId, WindowId,
};
use crate::runtime::window_builder::TitleBarStyle;
use vstd::prelude::*;

verus! {

/// Work of the application that is done on the main thread, by the number it was
/// registered under.
pub type TaskId = u64;

/// The receiver of an answer, by the number it was registered under.
pub type ReplyId = u64;

/// A store of browsing data.
#[derive(Debug, Clone, Copy, PartialEq, Eq, Structural)]
pub struct DataStoreId {
    pub high: u64,
    pub low: u64,
}

/// A message to the application as a whole.
#[derive(Debug, Clone, Copy, PartialEq, Eq, Structural)]
pub enum ApplicationMessage {
    Show,
    Hide,
    FetchDataStoreIdentifiers(TaskId),
    RemoveDataStore(DataStoreId, TaskId),
}

/// A message to a window.
#[derive(Debug)]
pub enum WindowMessage {
    AddEventListener(WindowEventId, HandlerId),
    // Getters
    ScaleFactor(ReplyId),
    InnerPosition(ReplyId),
    OuterPosition(ReplyId),
    InnerSize(ReplyId),
    OuterSize(ReplyId),
    IsFullscreen(ReplyId),
    IsMinimized(ReplyId),
    IsMaximized(ReplyId),
    IsFocused(ReplyId),
    IsDecorated(ReplyId),
    IsResizable(ReplyId),
    IsMaximizable(ReplyId),
    IsMinimizable(ReplyId),
    IsClosable(ReplyId),
    IsVisible(ReplyId),
    Title(ReplyId),
    CurrentMonitor(ReplyId),
    PrimaryMonitor(ReplyId),
    MonitorFromPoint(ReplyId, Float64, Float64),
    AvailableMonitors(ReplyId),
    GtkWindow(ReplyId),
    GtkBox(ReplyId),
    RawWindowHandle(ReplyId),
    Theme(ReplyId),
    IsEnabled(ReplyId),
    IsAlwaysOnTop(ReplyId),
    // Setters
    Center,
    RequestUserAttention(Option<UserAttentionTypeWrapper>),
    SetEnabled(bool),
    SetResizable(bool),
    SetMaximizable(bool),
    SetMinimizable(bool),
    SetClosable(bool),
    SetTitle(String),
    Maximize,
    Unmaximize,
    Minimize,
    Unminimize,
    Show,
    Hide,
    Close,
    Destroy,
    SetDecorations(bool),
    SetShadow(bool),
    SetAlwaysOnBottom(bool),
    SetAlwaysOnTop(bool),
    SetVisibleOnAllWorkspaces(bool),
    SetContentProtected(bool),
    SetSize(Size),
    SetMinSize(Option<Size>),
    SetMaxSize(Option<Size>),
    SetSizeConstraints(WindowSizeConstraints),
    SetPosition(Position),
    SetFullscreen(bool),
    SetSimpleFullscreen(bool),
    SetFocus,
    SetFocusable(bool),
    SetIcon(TaoIcon),
    SetSkipTaskbar(bool),
    SetCursorGrab(bool),
    SetCursorVisible(bool),
    SetCursorIcon(CursorIcon),
    SetCursorPosition(Position),
    SetIgnoreCursorEvents(bool),
    SetBadgeCount(Option<i64>, Option<String>),
    SetBadgeLabel(Option<String>),
    SetOverlayIcon(Option<TaoIcon>),
    SetProgressBar(ProgressBarState),
    SetTitleBarStyle(TitleBarStyle),
    SetTrafficLightPosition(Position),
    SetTheme(Option<Theme>),
    SetBackgroundColor(Option<Color>),
    DragWindow,
    ResizeDragWindow(ResizeDirection),
    RequestRedraw,
}

/// Files that are dragged over a window or a webview, or dropped on it.
#[derive(Debug)]
pub enum DragDropEvent {
    Enter { paths: Vec<String>, x: Float64, y: Float64 },
}

/// An event of a window that a webview stands in for.
#[derive(Debug)]
pub enum SynthesizedWindowEvent {
    Focused(bool),
    DragDrop(DragDropEvent),
}

/// An event of a webview.
#[derive(Debug)]
pub enum WebviewEvent {
    DragDrop(DragDropEvent),
}

/// An event of a window, as the application gets it.
#[derive(Debug)]
pub enum WindowEvent {
    Resized(PhysicalSize<u32>),
    Moved(PhysicalPosition<i32>),
    /// The window is asked to close. Whoever answers `true` keeps it open.
    CloseRequested,
    Destroyed,
    Focused(bool),
    ScaleFactorChanged { scale_factor: Float64, new_inner_size: PhysicalSize<u32> },
    DragDrop(DragDropEvent),
    ThemeChanged(Theme),
}

/// Who waits until a script was run, and the number of the span that it is run in.
#[derive(Debug, Clone, Copy, PartialEq, Eq, Structural)]
pub struct ScriptTrace {
    pub reply: ReplyId,
    pub span: u64,
}

/// A message to a webview.
#[derive(Debug)]
pub enum WebviewMessage {
    AddEventListener(WebviewEventId, HandlerId),
    EvaluateScript(String, Option<ScriptTrace>),
    CookiesForUrl(String, ReplyId),
    Cookies(ReplyId),
    SetCookie(WebCookie),
    DeleteCookie(WebCookie),
    WebviewEvent(WebviewEvent),
    SynthesizedWindowEvent(SynthesizedWindowEvent),
    Navigate(String),
    Reload,
    Print,
    Close,
    Show,
    Hide,
    SetPosition(Position),
    SetSize(Size),
    SetBounds(Rect),
    SetFocus,
    Reparent(WindowId, ReplyId),
    SetAutoResize(bool),
    SetZoom(Float64),
    SetBackgroundColor(Option<Color>),
    ClearAllBrowsingData,
    // Getters
    Url(ReplyId),
    Bounds(ReplyId),
    Position(ReplyId),
    Size(ReplyId),
    WithWebview(TaskId),
    // Developer tools
    OpenDevTools,
    CloseDevTools,
    IsDevToolsOpen(ReplyId),
}

/// A message to the event loop itself.
#[derive(Debug, Clone, Copy, PartialEq, Eq, Structural)]
pub enum EventLoopWindowTargetMessage {
    CursorPosition(ReplyId),
    SetTheme(Option<Theme>),
    SetDeviceEventFilter(DeviceEventFilter),
}

/// A message to the event loop.
#[derive(Debug)]
pub enum Message<T> {
    Task(TaskId),
    SetActivationPolicy(ActivationPolicy),
    SetDockVisibility(bool),
    RequestExit(i32),
    Application(ApplicationMessage),
    Window(WindowId, WindowMessage),
    Webview(WindowId, WebviewId, WebviewMessage),
    EventLoopWindowTarget(EventLoopWindowTargetMessage),
    CreateWebview(WindowId, WebviewId, WindowCell, TaskId),
    CreateWindow(WindowId, Option<WebviewId>, TaskId),
    CreateRawWindow(WindowId, TaskId, ReplyId),
    UserEvent(T),
}

/// Who waits for the answer of a window, if the message is a question.
pub open spec fn window_reply(message: WindowMessage) -> Option<ReplyId> {
    match message {
        WindowMessage::ScaleFactor(reply) => Some(reply),
        WindowMessage::InnerPosition(reply) => Some(reply),
        WindowMessage::OuterPosition(reply) => Some(reply),
        WindowMessage::InnerSize(reply) => Some(reply),
        WindowMessage::OuterSize(reply) => Some(reply),
        WindowMessage::IsFullscreen(reply) => Some(reply),
        WindowMessage::IsMinimized(reply) => Some(reply),
        WindowMessage::IsMaximized(reply) => Some(reply),
        WindowMessage::IsFocused(reply) => Some(reply),
        WindowMessage::IsDecorated(reply) => Some(reply),
        WindowMessage::IsResizable(reply) => Some(reply),
        WindowMessage::IsMaximizable(reply) => Some(reply),
        WindowMessage::IsMinimizable(reply) => Some(reply),
        WindowMessage::IsClosable(reply) => Some(reply),
        WindowMessage::IsVisible(reply) => Some(reply),
        WindowMessage::Title(reply) => Some(reply),
        WindowMessage::CurrentMonitor(reply) => Some(reply),
        WindowMessage::PrimaryMonitor(reply) => Some(reply),
        WindowMessage::MonitorFromPoint(reply, _, _) => Some(reply),
        WindowMessage::AvailableMonitors(reply) => Some(reply),
        WindowMessage::GtkWindow(reply) => Some(reply),
        WindowMessage::GtkBox(reply) => Some(reply),
        WindowMessage::RawWindowHandle(reply) => Some(reply),
        WindowMessage::Theme(reply) => Some(reply),
        WindowMessage::IsEnabled(reply) => Some(reply),
        WindowMessage::IsAlwaysOnTop(reply) => Some(reply),
        _ => None,
    }
}

/// Who waits for the answer of a webview, if the message is a question.
pub open spec fn webview_reply(message: WebviewMessage) -> Option<ReplyId> {
    match message {
        WebviewMessage::EvaluateScript(_, Some(trace)) => Some(trace.reply),
        WebviewMessage::CookiesForUrl(_, reply) => Some(reply),
        WebviewMessage::Cookies(reply) => Some(reply),
        WebviewMessage::Reparent(_, reply) => Some(reply),
        WebviewMessage::Url(reply) => Some(reply),
        WebviewMessage::Bounds(reply) => Some(reply),
        WebviewMessage::Position(reply) => Some(reply),
        WebviewMessage::Size(reply) => Some(reply),
        WebviewMessage::IsDevToolsOpen(reply) => Some(reply),
        _ => None,
    }
}

impl WindowMessage {
    fn reply(&self) -> (reply: Option<ReplyId>)
        ensures
            reply == window_reply(*self),
    {
        match self {
            WindowMessage::ScaleFactor(reply) => Some(*reply),
            WindowMessage::InnerPosition(reply) => Some(*reply),
            WindowMessage::OuterPosition(reply) => Some(*reply),
            WindowMessage::InnerSize(reply) => Some(*reply),
            WindowMessage::OuterSize(reply) => Some(*reply),
            WindowMessage::IsFullscreen(reply) => Some(*reply),
            WindowMessage::IsMinimized(reply) => Some(*reply),
            WindowMessage::IsMaximized(reply) => Some(*reply),
            WindowMessage::IsFocused(reply) => Some(*reply),
            WindowMessage::IsDecorated(reply) => Some(*reply),
            WindowMessage::IsResizable(reply) => Some(*reply),
            WindowMessage::IsMaximizable(reply) => Some(*reply),
            WindowMessage::IsMinimizable(reply) => Some(*reply),
            WindowMessage::IsClosable(reply) => Some(*reply),
            WindowMessage::IsVisible(reply) => Some(*reply),
            WindowMessage::Title(reply) => Some(*reply),
            WindowMessage::CurrentMonitor(reply) => Some(*reply),
            WindowMessage::PrimaryMonitor(reply) => Some(*reply),
            WindowMessage::MonitorFromPoint(reply, _, _) => Some(*reply),
            WindowMessage::AvailableMonitors(reply) => Some(*reply),
            WindowMessage::GtkWindow(reply) => Some(*reply),
            WindowMessage::GtkBox(reply) => Some(*reply),
            WindowMessage::RawWindowHandle(reply) => Some(*reply),
            WindowMessage::Theme(reply) => Some(*reply),
            WindowMessage::IsEnabled(reply) => Some(*reply),
            WindowMessage::IsAlwaysOnTop(reply) => Some(*reply),
            _ => None,
        }
    }
}

impl WebviewMessage {
    fn reply(&self) -> (reply: Option<ReplyId>)
        ensures
            reply == webview_reply(*self),
    {
        match self {
            WebviewMessage::EvaluateScript(_, Some(trace)) => Some(trace.reply),
            WebviewMessage::CookiesForUrl(_, reply) => Some(*reply),
            WebviewMessage::Cookies(reply) => Some(*reply),
            WebviewMessage::Reparent(_, reply) => Some(*reply),
            WebviewMessage::Url(reply) => Some(*reply),
            WebviewMessage::Bounds(reply) => Some(*reply),
            WebviewMessage::Position(reply) => Some(*reply),
            WebviewMessage::Size(reply) => Some(*reply),
            WebviewMessage::IsDevToolsOpen(reply) => Some(*reply),
            _ => None,
        }
    }
}

impl<T> Message<T> {
    /// Who waits for an answer, if the message is a question. Once the message was handled
    /// no answer comes any more.
    pub fn reply(&self) -> (reply: Option<ReplyId>)
        ensures
            reply == match *self {
                Message::Window(_, message) => window_reply(message),
                Message::Webview(_, _, message) => webview_reply(message),
                Message::EventLoopWindowTarget(
                    EventLoopWindowTargetMessage::CursorPosition(reply),
                ) => Some(reply),
                Message::CreateRawWindow(_, _, reply) => Some(reply),
                _ => None,
            },
    {
        match self {
            Message::Window(_, message) => message.reply(),
            Message::Webview(_, _, message) => message.reply(),
            Message::EventLoopWindowTarget(
                EventLoopWindowTargetMessage::CursorPosition(reply),
            ) => Some(*reply),
            Message::CreateRawWindow(_, _, reply) => Some(*reply),
            _ => None,
        }
    }
}

impl<T: Clone> Message<T> {
    /// A copy of an event of the application. Only these can be copied.
    pub fn clone_user_event(&self) -> (copy: Message<T>)
        requires
            self is UserEvent,
        ensures
            copy is UserEvent,
            cloned(self->UserEvent_0, copy->UserEvent_0),
    {
        match self {
            Message::UserEvent(event) => Message::UserEvent(event.clone()),
            _ => {
                assert(false);
                Message::Task(0)
            },
        }
    }
}

/// What a window of the window system is asked.
#[derive(Debug, Clone, Copy, PartialEq, Eq, Structural)]
pub enum WindowQuery {
    ScaleFactor,
    InnerPosition,
    OuterPosition,
    /// The size of the content. On macOS it is that of the only webview, if the
    /// window holds just one.
    InnerSize { of_webview: bool },
    OuterSize,
    IsFullscreen,
    IsMinimized,
    IsMaximized,
    IsFocused,
    IsDecorated,
    IsResizable,
    IsMaximizable,
    IsMinimizable,
    IsClosable,
    IsVisible,
    Title,
    CurrentMonitor,
    PrimaryMonitor,
    MonitorFromPoint(Float64, Float64),
    AvailableMonitors,
    GtkWindow,
    GtkBox,
    RawWindowHandle,
    Theme,
    IsEnabled,
    IsAlwaysOnTop,
}

/// What a window of the window system is told.
#[derive(Debug)]
pub enum WindowAction {
    Center,
    RequestUserAttention(Option<TaoUserAttentionType>),
    SetResizable(bool),
    AttachResizeHandler { has_undecorated_shadow: bool },
    DetachResizeHandler,
    SetMaximizable(bool),
    SetMinimizable(bool),
    SetClosable(bool),
    SetTitle(String),
    SetMaximized(bool),
    SetMinimized(bool),
    SetEnabled(bool),
    SetVisible(bool),
    SetDecorations(bool),
    SetUndecoratedShadow(bool),
    UpdateDragRegion { has_undecorated_shadow: bool },
    SetHasShadow(bool),
    SetAlwaysOnBottom(bool),
    SetAlwaysOnTop(bool),
    SetVisibleOnAllWorkspaces(bool),
    SetContentProtection(bool),
    SetInnerSize(Size),
    SetMinInnerSize(Option<Size>),
    SetMaxInnerSize(Option<Size>),
    SetInnerSizeConstraints(WindowSizeConstraints),
    SetOuterPosition(Position),
    SetFullscreen(bool),
    SetSimpleFullscreen(bool),
    SetFocus,
    SetFocusable(bool),
    SetWindowIcon(TaoIcon),
    SetSkipTaskbar(bool),
    SetCursorGrab(bool),
    SetCursorVisible(bool),
    SetCursorIcon(TaoCursorIcon),
    SetCursorPosition(Position),
    SetIgnoreCursorEvents(bool),
    DragWindow,
    DragResizeWindow(TaoResizeDirection),
    RequestRedraw,
    SetBadgeNumber(i32),
    SetBadgeLabelToNumber(Option<i64>),
    SetBadgeCount(Option<i64>, Option<String>),
    SetBadgeLabel(Option<String>),
    SetOverlayIcon(Option<TaoIcon>),
    SetProgressBar(TaoProgressBarState),
    SetTitlebarTransparent(bool),
    SetFullsizeContentView(bool),
    SetTrafficLightInset(Position),
    SetTheme(Option<TaoTheme>),
    SetBackgroundColor(Option<Color>),
}

/// What a window of the window system says of itself. Only Windows is asked.
#[derive(Debug, Clone, Copy, PartialEq, Eq, Structural)]
pub struct WindowReport {
    pub is_decorated: bool,
    pub is_resizable: bool,
    pub has_undecorated_shadow: bool,
}

/// Which shares of its window a webview gets anew when it is moved or resized.
#[derive(Debug, Clone, Copy, PartialEq, Eq, Structural)]
pub enum RateUpdate {
    /// The webview does not grow with its window.
    Keep,
    PositionAndSize,
    SizeOnly,
    PositionOnly,
}

/// What is done with the cookies of a browser.
#[derive(Debug)]
pub enum CookieTask {
    Collect(CookieQuery, ReplyId),
    Store(WebCookie),
    Delete(WebCookie),
}

/// What the event loop does about a message, beside calls into CEF.
#[derive(Debug)]
pub enum Action {
    RunTask(TaskId),
    SetActivationPolicy(TaoActivationPolicy),
    SetDockVisibility(bool),
    ShowApplication,
    HideApplication,
    FetchDataStoreIdentifiers(TaskId),
    RemoveDataStore(DataStoreId, TaskId),
    /// A window is told something.
    Window(TaoWindowId, WindowAction),
    /// A window is asked something, and the answer goes to the receiver.
    ReplyWindow { reply: ReplyId, window: TaoWindowId, query: WindowQuery },
    /// A webview gets other bounds, once they are known in pixels.
    SetBounds {
        window: TaoWindowId,
        window_id: WindowId,
        webview_id: WebviewId,
        bounds: Rect,
        rates: RateUpdate,
    },
    /// A webview is zoomed, once the level of the factor is known.
    Zoom { window_id: WindowId, webview_id: WebviewId, factor: Float64 },
    ClearBrowsingData { browser: Option<i32>, step: ClearBrowsingData },
    Cookies { browser: Option<i32>, search: ManagerSearch, task: CookieTask },
    /// The receiver gets the URL of the page, or an error.
    ReplyUrl {
        reply: ReplyId,
        window_id: WindowId,
        webview_id: WebviewId,
        browser: Option<i32>,
    },
    ReplyRect(ReplyId, Rect),
    ReplyPosition { reply: ReplyId, window: TaoWindowId, position: Position },
    ReplySize { reply: ReplyId, window: TaoWindowId, size: Size },
    /// A webview grows with its window from now on, once its shares are known.
    ComputeRates { window: TaoWindowId, window_id: WindowId, webview_id: WebviewId, rect: Rect },
    WithWebview { task: TaskId, browser: i32 },
    ReplyResult(ReplyId, Result<(), Error>),
    CreateWebview {
        window: TaoWindowId,
        window_id: WindowId,
        webview_id: WebviewId,
        cell: WindowCell,
        task: TaskId,
    },
    CreateWindow { window_id: WindowId, webview_id: Option<WebviewId>, task: TaskId },
    BuildRawWindow { window_id: WindowId, task: TaskId, reply: ReplyId },
    ReplyCursorPosition(ReplyId),
    SetTheme(Option<TaoTheme>),
    SetDeviceEventFilter(TaoDeviceEventFilter),
}

/// What the event loop does about a message.
#[derive(Debug)]
pub enum Effect {
    Do(Action),
    /// Calls on a browser.
    Calls { browser: Option<i32>, calls: CallSequence },
    /// Calls on a browser, whose outcome goes to the receiver.
    ReplyOutcome { reply: ReplyId, browser: Option<i32>, calls: CallSequence },
    /// Calls on a browser, made in a span. The receiver learns that they were made.
    TracedCalls { trace: ScriptTrace, browser: Option<i32>, calls: CallSequence },
}

/// What the event loop does about a message, with sequences of calls as they stand.
pub enum EffectModel {
    Do(Action),
    Calls { browser: Option<i32>, calls: SequenceState },
    ReplyOutcome { reply: ReplyId, browser: Option<i32>, calls: SequenceState },
    TracedCalls { trace: ScriptTrace, browser: Option<i32>, calls: SequenceState },
}

impl View for Effect {
    type V = EffectModel;

    open spec fn view(&self) -> EffectModel {
        match self {
            Effect::Do(action) => EffectModel::Do(*action),
            Effect::Calls { browser, calls } => EffectModel::Calls {
                browser: *browser,
                calls: calls@,
            },
            Effect::ReplyOutcome { reply, browser, calls } => EffectModel::ReplyOutcome {
                reply: *reply,
                browser: *browser,
                calls: calls@,
            },
            Effect::TracedCalls { trace, browser, calls } => EffectModel::TracedCalls {
                trace: *trace,
                browser: *browser,
                calls: calls@,
            },
        }
    }
}

/// Effects, with sequences of calls as they stand.
pub open spec fn models(effects: Seq<Effect>) -> Seq<EffectModel> {
    effects.map_values(|effect: Effect| effect@)
}

/// Whoever asks a window something is the one who waits for the answer.
pub proof fn lemma_windows_answer_who_asked<T>(
    id: WindowId,
    message: WindowMessage,
    asker: ReplyId,
    reply: Option<ReplyId>,
)
    requires
        call_ensures(Message::<T>::reply, (&Message::Window(id, message),), reply),
    ensures
        message == WindowMessage::ScaleFactor(asker) ==> reply == Some(asker),
        message == WindowMessage::InnerPosition(asker) ==> reply == Some(asker),
        message == WindowMessage::OuterPosition(asker) ==> reply == Some(asker),
        message == WindowMessage::InnerSize(asker) ==> reply == Some(asker),
        message == WindowMessage::OuterSize(asker) ==> reply == Some(asker),
        message == WindowMessage::IsFullscreen(asker) ==> reply == Some(asker),
        message == WindowMessage::IsMinimized(asker) ==> reply == Some(asker),
        message == WindowMessage::IsMaximized(asker) ==> reply == Some(asker),
        message == WindowMessage::IsFocused(asker) ==> reply == Some(asker),
        message == WindowMessage::IsDecorated(asker) ==> reply == Some(asker),
        message == WindowMessage::IsResizable(asker) ==> reply == Some(asker),
        message == WindowMessage::IsMaximizable(asker) ==> reply == Some(asker),
        message == WindowMessage::IsMinimizable(asker) ==> reply == Some(asker),
        message == WindowMessage::IsClosable(asker) ==> reply == Some(asker),
        message == WindowMessage::IsVisible(asker) ==> reply == Some(asker),
        message == WindowMessage::Title(asker) ==> reply == Some(asker),
        message == WindowMessage::CurrentMonitor(asker) ==> reply == Some(asker),
        message == WindowMessage::PrimaryMonitor(asker) ==> reply == Some(asker),
        message == WindowMessage::AvailableMonitors(asker) ==> reply == Some(asker),
        message == WindowMessage::GtkWindow(asker) ==> reply == Some(asker),
        message == WindowMessage::GtkBox(asker) ==> reply == Some(asker),
        message == WindowMessage::RawWindowHandle(asker) ==> reply == Some(asker),
        message == WindowMessage::Theme(asker) ==> reply == Some(asker),
        message == WindowMessage::IsEnabled(asker) ==> reply == Some(asker),
        message == WindowMessage::IsAlwaysOnTop(asker) ==> reply == Some(asker),
        message matches WindowMessage::MonitorFromPoint(asked_by, _, _) ==> reply == Some(asked_by),
        message is Close || message is Destroy || message is Center || message is Maximize
            || message is Show || message is Hide || message is SetFocus || message is SetTitle
            || message is SetSize || message is SetPosition || message is AddEventListener
            ==> reply is None,
{
}

/// Whoever asks a webview something is the one who waits for the answer, and so is whoever runs
/// a script that is traced.
pub proof fn lemma_webviews_answer_who_asked<T>(
    id: WindowId,
    webview_id: WebviewId,
    message: WebviewMessage,
    asker: ReplyId,
    reply: Option<ReplyId>,
)
    requires
        call_ensures(
            Message::<T>::reply,
            (&Message::Webview(id, webview_id, message),),
            reply,
        ),
    ensures
        message == WebviewMessage::Cookies(asker) ==> reply == Some(asker),
        message == WebviewMessage::Url(asker) ==> reply == Some(asker),
        message == WebviewMessage::Bounds(asker) ==> reply == Some(asker),
        message == WebviewMessage::Position(asker) ==> reply == Some(asker),
        message == WebviewMessage::Size(asker) ==> reply == Some(asker),
        message == WebviewMessage::IsDevToolsOpen(asker) ==> reply == Some(asker),
        message matches WebviewMessage::CookiesForUrl(_, asked_by) ==> reply == Some(asked_by),
        message matches WebviewMessage::Reparent(_, asked_by) ==> reply == Some(asked_by),
        message matches WebviewMessage::EvaluateScript(_, Some(trace)) ==> reply == Some(
            trace.reply,
        ),
        message matches WebviewMessage::EvaluateScript(_, None) ==> reply is None,
        message is Navigate || message is Reload || message is Print || message is Close
            || message is SetBounds || message is SetSize || message is SetPosition
            || message is SetFocus || message is SetCookie || message is DeleteCookie
            || message is Show || message is Hide || message is AddEventListener ==> reply is None,
{
}

/// Whoever asks where the cursor is, or for a window without webviews, waits for that; nobody
/// waits for other messages to the application.
pub proof fn lemma_event_loop_answers_who_asked<T>(
    asker: ReplyId,
    window_id: WindowId,
    task: TaskId,
    code: i32,
    event: T,
    cursor: Option<ReplyId>,
    raw_window: Option<ReplyId>,
    work: Option<ReplyId>,
    exit: Option<ReplyId>,
    user_event: Option<ReplyId>,
)
    requires
        call_ensures(
            Message::<T>::reply,
            (&Message::EventLoopWindowTarget(EventLoopWindowTargetMessage::CursorPosition(asker)),),
            cursor,
        ),
        call_ensures(
            Message::<T>::reply,
            (&Message::CreateRawWindow(window_id, task, asker),),
            raw_window,
        ),
        call_ensures(Message::<T>::reply, (&Message::Task(task),), work),
        call_ensures(Message::<T>::reply, (&Message::RequestExit(code),), exit),
        call_ensures(Message::<T>::reply, (&Message::UserEvent(event),), user_event),
    ensures
        cursor == Some(asker),
        raw_window == Some(asker),
        work is None && exit is None && user_event is None,
{
}

} // verus!
