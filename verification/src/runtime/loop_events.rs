//! What the window system reports to the event loop, and what the event loop does
//! about it.

use crate::client::HandlerId;
use crate::runtime::color::Color;
use crate::runtime::conversions::{TaoTheme, Theme};
use crate::runtime::dpi::{Float64, PhysicalPosition, PhysicalSize};
use crate::runtime::input::InputEvent;
use crate::runtime::messages::{
    Effect, EffectModel, Message, SynthesizedWindowEvent, WebviewEvent, WindowEvent,
};
use crate::runtime::store::{TaoWindowId, WebviewBounds, WebviewId, WindowId};
use vstd::prelude::*;

verus! {

/// An event of a window, as the window system reports it.
#[derive(Debug)]
pub enum TaoWindowEvent {
    Resized(PhysicalSize<u32>),
    Moved(PhysicalPosition<i32>),
    CloseRequested,
    Destroyed,
    Focused(bool),
    ScaleFactorChanged { scale_factor: Float64, new_inner_size: PhysicalSize<u32> },
    ThemeChanged(TaoTheme),
    /// Input other than a change of focus.
    Input(InputEvent),
    /// An event that the runtime makes nothing of.
    Other,
}

/// An event of the event loop, as the window system reports it.
#[derive(Debug)]
pub enum LoopEvent<T> {
    /// The event loop starts.
    Init,
    /// The event loop goes on without waiting.
    Poll,
    MainEventsCleared,
    LoopDestroyed,
    RedrawRequested(TaoWindowId),
    RedrawEventsCleared,
    WindowEvent { window: TaoWindowId, event: TaoWindowEvent },
    UserEvent(Message<T>),
    Opened { urls: Vec<String> },
    Reopen { has_visible_windows: bool },
    /// An event that the runtime makes nothing of.
    Other,
}

/// What the application learns of the event loop. Events of windows and webviews, and
/// requests to exit, come by themselves.
#[derive(Debug)]
pub enum RunEvent<T> {
    Ready,
    Resumed,
    MainEventsCleared,
    Exit,
    UserEvent(T),
    Opened { urls: Vec<String> },
    Reopen { has_visible_windows: bool },
}

/// Who hears of an event: the application, by the label of the window or the webview,
/// and the listeners.
#[derive(Debug)]
pub struct Audience {
    pub label: String,
    pub listeners: Vec<HandlerId>,
}

/// Who hears of an event, with text as characters.
#[verifier::ext_equal]
pub struct AudienceModel {
    pub label: Seq<char>,
    pub listeners: Seq<HandlerId>,
}

impl View for Audience {
    type V = AudienceModel;

    open spec fn view(&self) -> AudienceModel {
        AudienceModel { label: self.label@, listeners: self.listeners@ }
    }
}

/// What the event loop does about an event.
#[derive(Debug)]
pub enum LoopEffect<T> {
    /// The application learns of something.
    Run(RunEvent<T>),
    /// The application and then the listeners learn of an event of a window.
    NotifyWindow(Audience, WindowEvent),
    /// As above, for a new size. It is asked of the window, or of its only webview.
    NotifyResized { audience: Audience, window: TaoWindowId, of_webview: bool },
    /// The application and then the listeners learn of an event of a webview.
    NotifyWebview(Audience, WebviewEvent),
    /// The listeners and then the application are asked whether a window may close. The
    /// first of them that answers decides.
    AskToClose(Audience),
    /// The application is asked whether the event loop may end.
    AskToExit { code: Option<i32> },
    /// The message pump does what is due, or the message loop of CEF runs once where
    /// there is no pump.
    TickPump,
    /// The background of a transparent window is drawn.
    DrawSurface { window: TaoWindowId, background_color: Option<Color> },
    /// A frame that was rendered off screen is shown, unless it was shown already.
    PresentFrame { window_id: WindowId, webview_id: WebviewId },
    /// The spans that trace the drawing of windows end.
    EndWindowDraw,
    SetWebviewTheme { webview_id: WebviewId, browser: Option<i32>, theme: Theme },
    /// A webview gets the share that it had of its window, which has a size now.
    AutoResize {
        window: TaoWindowId,
        window_id: WindowId,
        webview_id: WebviewId,
        size: PhysicalSize<u32>,
        rates: WebviewBounds,
    },
    /// A webview that renders off screen gets the size of its window.
    ResizeOsr { window: TaoWindowId, webview_id: WebviewId, browser: Option<i32> },
    /// Webviews that render off screen note where the cursor is.
    SetCursor { webviews: Vec<WebviewId>, x: i32, y: i32 },
    /// Browsers get input. The cursor is where a webview noted it.
    ForwardInput { browsers: Vec<i32>, cursor_of: Option<WebviewId>, input: InputEvent },
    /// What is done about a message.
    Message(Effect),
}

/// What the event loop does about an event, with text as characters.
pub enum LoopEffectModel<T> {
    Run(RunEvent<T>),
    NotifyWindow(AudienceModel, WindowEvent),
    NotifyResized { audience: AudienceModel, window: TaoWindowId, of_webview: bool },
    NotifyWebview(AudienceModel, WebviewEvent),
    AskToClose(AudienceModel),
    AskToExit { code: Option<i32> },
    TickPump,
    DrawSurface { window: TaoWindowId, background_color: Option<Color> },
    PresentFrame { window_id: WindowId, webview_id: WebviewId },
    EndWindowDraw,
    SetWebviewTheme { webview_id: WebviewId, browser: Option<i32>, theme: Theme },
    AutoResize {
        window: TaoWindowId,
        window_id: WindowId,
        webview_id: WebviewId,
        size: PhysicalSize<u32>,
        rates: WebviewBounds,
    },
    ResizeOsr { window: TaoWindowId, webview_id: WebviewId, browser: Option<i32> },
    SetCursor { webviews: Seq<WebviewId>, x: i32, y: i32 },
    ForwardInput { browsers: Seq<i32>, cursor_of: Option<WebviewId>, input: InputEvent },
    Message(EffectModel),
}

impl<T> View for LoopEffect<T> {
    type V = LoopEffectModel<T>;

    open spec fn view(&self) -> LoopEffectModel<T> {
        match *self {
            LoopEffect::Run(event) => LoopEffectModel::Run(event),
            LoopEffect::NotifyWindow(audience, event) => LoopEffectModel::NotifyWindow(
                audience@,
                event,
            ),
            LoopEffect::NotifyResized { audience, window, of_webview } =>
                LoopEffectModel::NotifyResized { audience: audience@, window, of_webview },
            LoopEffect::NotifyWebview(audience, event) => LoopEffectModel::NotifyWebview(
                audience@,
                event,
            ),
            LoopEffect::AskToClose(audience) => LoopEffectModel::AskToClose(audience@),
            LoopEffect::AskToExit { code } => LoopEffectModel::AskToExit { code },
            LoopEffect::TickPump => LoopEffectModel::TickPump,
            LoopEffect::DrawSurface { window, background_color } => LoopEffectModel::DrawSurface {
                window,
                background_color,
            },
            LoopEffect::PresentFrame { window_id, webview_id } => LoopEffectModel::PresentFrame {
                window_id,
                webview_id,
            },
            LoopEffect::EndWindowDraw => LoopEffectModel::EndWindowDraw,
            LoopEffect::SetWebviewTheme { webview_id, browser, theme } =>
                LoopEffectModel::SetWebviewTheme { webview_id, browser, theme },
            LoopEffect::AutoResize { window, window_id, webview_id, size, rates } =>
                LoopEffectModel::AutoResize { window, window_id, webview_id, size, rates },
            LoopEffect::ResizeOsr { window, webview_id, browser } => LoopEffectModel::ResizeOsr {
                window,
                webview_id,
                browser,
            },
            LoopEffect::SetCursor { webviews, x, y } => LoopEffectModel::SetCursor {
                webviews: webviews@,
                x,
                y,
            },
            LoopEffect::ForwardInput { browsers, cursor_of, input } =>
                LoopEffectModel::ForwardInput { browsers: browsers@, cursor_of, input },
            LoopEffect::Message(effect) => LoopEffectModel::Message(effect@),
        }
    }
}

/// Effects, with text as characters.
pub open spec fn loop_models<T>(effects: Seq<LoopEffect<T>>) -> Seq<LoopEffectModel<T>> {
    effects.map_values(|effect: LoopEffect<T>| effect@)
}

/// What is left of an event once its effects were carried out.
#[derive(Debug)]
pub enum Continuation {
    Done,
    /// The event loop is told how to wait.
    MainEventsCleared,
    /// The application has answered whether the event loop may end.
    AwaitExitAnswer,
    /// It was answered whether a window may close.
    AwaitCloseAnswer(WindowId),
    /// An event of a window of which the application has learned.
    WindowEvent(WindowId, TaoWindowEvent),
}

/// What the event loop does about an event, and what is left of it then.
#[derive(Debug)]
pub struct LoopStep<T> {
    pub effects: Vec<LoopEffect<T>>,
    pub rest: Continuation,
}

/// What the event loop does about an event, with text as characters.
pub struct LoopStepModel<T> {
    pub effects: Seq<LoopEffectModel<T>>,
    pub rest: Continuation,
}

impl<T> View for LoopStep<T> {
    type V = LoopStepModel<T>;

    open spec fn view(&self) -> LoopStepModel<T> {
        LoopStepModel { effects: loop_models(self.effects@), rest: self.rest }
    }
}

impl<T> LoopStepModel<T> {
    /// Nothing is done.
    pub open spec fn nothing() -> Self {
        LoopStepModel { effects: Seq::empty(), rest: Continuation::Done }
    }

    /// One thing is done, and nothing is left then.
    pub open spec fn only(effect: LoopEffectModel<T>) -> Self {
        LoopStepModel { effects: seq![effect], rest: Continuation::Done }
    }
}

impl<T> LoopStep<T> {
    /// Nothing is done.
    pub fn nothing() -> (step: Self)
        ensures
            step@ == LoopStepModel::<T>::nothing(),
    {
        let step = LoopStep { effects: Vec::new(), rest: Continuation::Done };
        assert(step@.effects =~= Seq::empty());
        step
    }

    /// One thing is done.
    pub fn one(effect: LoopEffect<T>, rest: Continuation) -> (step: Self)
        ensures
            step@ == (LoopStepModel { effects: seq![effect@], rest }),
    {
        let effects: Vec<LoopEffect<T>> = vec![effect];
        let step = LoopStep { effects, rest };
        assert(step@.effects =~= seq![effect@]);
        step
    }
}

/// An event of a window as the application gets it, if it gets one.
#[derive(Debug)]
pub struct WindowEventWrapper(pub Option<WindowEvent>);

impl From<SynthesizedWindowEvent> for WindowEventWrapper {
    fn from(event: SynthesizedWindowEvent) -> (result: Self) {
        let event = match event {
            SynthesizedWindowEvent::Focused(focused) => WindowEvent::Focused(focused),
            SynthesizedWindowEvent::DragDrop(event) => WindowEvent::DragDrop(event),
        };
        WindowEventWrapper(Some(event))
    }
}

impl vstd::std_specs::convert::FromSpecImpl<SynthesizedWindowEvent> for WindowEventWrapper {
    open spec fn obeys_from_spec() -> bool {
        true
    }

    open spec fn from_spec(event: SynthesizedWindowEvent) -> Self {
        WindowEventWrapper(Some(synthesized(event)))
    }
}

/// An event of a window that a webview stands in for, as the application gets it.
pub open spec fn synthesized(event: SynthesizedWindowEvent) -> WindowEvent {
    match event {
        SynthesizedWindowEvent::Focused(focused) => WindowEvent::Focused(focused),
        SynthesizedWindowEvent::DragDrop(event) => WindowEvent::DragDrop(event),
    }
}

} // verus!
