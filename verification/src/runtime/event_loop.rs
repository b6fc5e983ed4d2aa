//! The event loop.
//!
//! An event is handled in steps. A step changes the windows and says what is to be done
//! with the application, the window system and CEF; all of them may change the windows
//! in turn. What is left of the event then is the next step.

use crate::browser_slot::BrowserSlots;
use crate::client::HandlerId;
use crate::pump::Deadline;
use crate::runtime::conversions;
use crate::runtime::conversions::map_theme;
use crate::runtime::dpi::PhysicalSize;
use crate::runtime::input::InputEvent;
use crate::runtime::loop_events;
use crate::runtime::loop_events::{
    Audience, AudienceModel, Continuation, LoopEffect, LoopEffectModel, LoopEvent, LoopStep,
    LoopStepModel, RunEvent, TaoWindowEvent, WindowEventWrapper,
};
use crate::runtime::messages;
use crate::runtime::messages::{
    Effect, EffectModel, Message, WebviewMessage, WindowEvent, WindowMessage, WindowReport,
};
use crate::runtime::platform::{BuildOptions, Platform};
use crate::runtime::store;
use crate::runtime::store::{
    Listeners, TaoWindowId, WebviewId, WebviewModel, WebviewWrapper, WindowId, WindowIdStore,
    WindowModel, WindowWrapper, WindowsStore,
};
use crate::runtime::user_messages;
use crate::tao;
use crate::tao::ControlFlow;
use vstd::prelude::*;

verus! {

/// Stands for a window itself where a webview has the focus.
pub const FOCUSED_WEBVIEW_MARKER: &'static str = "__tauriWindow?";

/// How the event loop waits, unless it ends.
pub open spec fn waiting(flow: ControlFlow, deadline: Option<Deadline>) -> ControlFlow {
    if flow == ControlFlow::ExitWithCode(0) {
        flow
    } else {
        tao::wait_for(deadline)
    }
}

/// Makes the event loop wait for the message pump, unless it ends.
pub fn wait_for_pump(flow: &mut ControlFlow, deadline: Option<Deadline>)
    ensures
        *final(flow) == waiting(*old(flow), deadline),
{
    if *flow != ControlFlow::ExitWithCode(0) {
        *flow = match deadline {
            Some(deadline) => ControlFlow::WaitUntil(deadline),
            None => ControlFlow::Wait,
        };
    }
}

/// Takes the answer whether the event loop may end: it ends unless that was prevented.
pub fn exit_answered(flow: &mut ControlFlow, prevented: bool)
    ensures
        *final(flow) == if prevented {
            *old(flow)
        } else {
            ControlFlow::ExitWithCode(0)
        },
{
    if !prevented {
        *flow = ControlFlow::ExitWithCode(0);
    }
}

/// Who hears of the events of a window.
pub open spec fn window_audience(window: WindowModel) -> AudienceModel {
    AudienceModel { label: window.label, listeners: store::handlers_of(window.listeners) }
}

/// Who hears of the events of a webview.
pub open spec fn webview_audience(webview: WebviewModel) -> AudienceModel {
    AudienceModel { label: webview.label, listeners: store::handlers_of(webview.listeners) }
}

fn audience(label: &String, listeners: &Listeners) -> (audience: Audience)
    ensures
        audience@ == (AudienceModel {
            label: label@,
            listeners: store::handlers_of(listeners@),
        }),
{
    let listeners: Vec<HandlerId> = listeners.values();
    Audience { label: label.clone(), listeners }
}

/// A window after the window system took it away.
pub open spec fn closed(windows: Map<WindowId, WindowModel>, id: WindowId) -> Map<
    WindowId,
    WindowModel,
> {
    store::with_window(
        windows,
        id,
        WindowModel { inner: None, surface: false, ..windows[id] },
    )
}

/// Closes a window. It stays in the store until it is destroyed.
pub fn on_window_close(window_id: WindowId, windows: &mut WindowsStore)
    ensures
        final(windows)@ == closed(old(windows)@, window_id),
{
    windows.close(window_id);
}

/// What is done where a window is asked to close: it is asked whether it may.
pub open spec fn close_request<T>(
    windows: Map<WindowId, WindowModel>,
    id: WindowId,
) -> LoopStepModel<T> {
    if windows.contains_key(id) {
        LoopStepModel {
            effects: seq![LoopEffectModel::AskToClose(window_audience(windows[id]))],
            rest: Continuation::AwaitCloseAnswer(id),
        }
    } else {
        LoopStepModel::nothing()
    }
}

/// Asks whether a window may close.
pub fn on_close_requested<T>(window_id: WindowId, windows: &WindowsStore) -> (step: LoopStep<T>)
    ensures
        step@ == close_request::<T>(windows@, window_id),
{
    match windows.get(window_id) {
        Some(window) => LoopStep::one(
            LoopEffect::AskToClose(audience(&window.label, &window.window_event_listeners)),
            Continuation::AwaitCloseAnswer(window_id),
        ),
        None => LoopStep::nothing(),
    }
}

/// Takes the first answer whether a window may close, if there was one: the window
/// closes unless it is to stay open.
pub fn close_answered(
    window_id: WindowId,
    windows: &mut WindowsStore,
    stays_open: Option<bool>,
)
    ensures
        final(windows)@ == if stays_open == Some(true) {
            old(windows)@
        } else {
            closed(old(windows)@, window_id)
        },
{
    match stays_open {
        Some(true) => {},
        _ => on_window_close(window_id, windows),
    }
}

/// A change of focus that the application does not learn of: the webview does, or did.
pub open spec fn focus_is_hidden(platform: Platform, window: WindowModel, focused: bool) -> bool {
    platform == Platform::Windows && (!window.has_children || (!focused && (
    window.focused_webview matches Some(webview) && webview != FOCUSED_WEBVIEW_MARKER@)))
}

/// A window after its focus changed. On Windows it is noted that the window itself has
/// it, so that a click on a webview is not a second change.
pub open spec fn window_focused(
    platform: Platform,
    window: WindowModel,
    focused: bool,
) -> WindowModel {
    if platform != Platform::Windows || focus_is_hidden(platform, window, focused) {
        window
    } else {
        WindowModel {
            focused_webview: if focused {
                Some(FOCUSED_WEBVIEW_MARKER@)
            } else {
                None
            },
            ..window
        }
    }
}

/// What the application learns of an event of a window, other than a new size.
pub open spec fn mapped(
    platform: Platform,
    window: WindowModel,
    event: TaoWindowEvent,
) -> Option<WindowEvent> {
    match event {
        TaoWindowEvent::Resized(size) => Some(WindowEvent::Resized(size)),
        TaoWindowEvent::Moved(position) => Some(WindowEvent::Moved(position)),
        TaoWindowEvent::Destroyed => Some(WindowEvent::Destroyed),
        TaoWindowEvent::ScaleFactorChanged { scale_factor, new_inner_size } => Some(
            WindowEvent::ScaleFactorChanged { scale_factor, new_inner_size },
        ),
        TaoWindowEvent::Focused(focused) => if focus_is_hidden(platform, window, focused) {
            None
        } else {
            Some(WindowEvent::Focused(focused))
        },
        TaoWindowEvent::ThemeChanged(theme) => Some(
            WindowEvent::ThemeChanged(conversions::mapped_theme(theme)),
        ),
        _ => None,
    }
}

fn focus_hidden(platform: Platform, window: &WindowWrapper, focused: bool) -> (hidden: bool)
    ensures
        hidden == focus_is_hidden(platform, window@, focused),
{
    if platform != Platform::Windows {
        return false;
    }
    if !window.has_children {
        return true;
    }
    match &window.focused_webview {
        Some(webview) => {
            proof {
                reveal_strlit("__tauriWindow?");
            }
            !focused && !(*webview == FOCUSED_WEBVIEW_MARKER.to_string())
        },
        None => false,
    }
}

impl WindowEventWrapper {
    /// What the application learns of an event of a window.
    pub fn map_from_tao(
        platform: Platform,
        event: &TaoWindowEvent,
        window: &WindowWrapper,
    ) -> (result: Self)
        ensures
            result.0 == mapped(platform, window@, *event),
    {
        let event = match event {
            TaoWindowEvent::Resized(size) => WindowEvent::Resized(*size),
            TaoWindowEvent::Moved(position) => WindowEvent::Moved(*position),
            TaoWindowEvent::Destroyed => WindowEvent::Destroyed,
            TaoWindowEvent::ScaleFactorChanged { scale_factor, new_inner_size } =>
                WindowEvent::ScaleFactorChanged {
                scale_factor: *scale_factor,
                new_inner_size: *new_inner_size,
            },
            TaoWindowEvent::Focused(focused) => if focus_hidden(platform, window, *focused) {
                return WindowEventWrapper(None);
            } else {
                WindowEvent::Focused(*focused)
            },
            TaoWindowEvent::ThemeChanged(theme) => WindowEvent::ThemeChanged(map_theme(theme)),
            _ => {
                return WindowEventWrapper(None);
            },
        };
        WindowEventWrapper(Some(event))
    }
}

/// What is done so that the application learns of an event of a window. Of a new size
/// the window itself is asked: what the window system reports is not reliable on macOS.
pub open spec fn notification<T>(
    platform: Platform,
    window: WindowModel,
    event: TaoWindowEvent,
) -> Seq<LoopEffectModel<T>> {
    match event {
        TaoWindowEvent::Resized(_) => match window.inner {
            Some(inner) => seq![
                LoopEffectModel::NotifyResized {
                    audience: window_audience(window),
                    window: inner,
                    of_webview: user_messages::is_sized_by_webview(platform, window),
                },
            ],
            None => Seq::empty(),
        },
        _ => match mapped(platform, window, event) {
            Some(event) => seq![LoopEffectModel::NotifyWindow(window_audience(window), event)],
            None => Seq::empty(),
        },
    }
}

fn notify<T>(
    platform: Platform,
    window: &WindowWrapper,
    event: &TaoWindowEvent,
) -> (effects: Vec<LoopEffect<T>>)
    ensures
        loop_events::loop_models(effects@) == notification::<T>(platform, window@, *event),
{
    let audience = audience(&window.label, &window.window_event_listeners);
    let mut effects: Vec<LoopEffect<T>> = Vec::new();
    assert(loop_events::loop_models(effects@) =~= Seq::empty());
    match event {
        TaoWindowEvent::Resized(_) => match window.inner {
            Some(inner) => {
                let of_webview = platform == Platform::MacOs && !window.has_children
                    && window.webviews.len() > 0;
                effects.push(LoopEffect::NotifyResized { audience, window: inner, of_webview });
                assert(loop_events::loop_models(effects@) =~= notification::<T>(
                    platform,
                    window@,
                    *event,
                ));
            },
            None => {},
        },
        _ => match WindowEventWrapper::map_from_tao(platform, event, window).0 {
            Some(mapped_event) => {
                effects.push(LoopEffect::NotifyWindow(audience, mapped_event));
                assert(loop_events::loop_models(effects@) =~= notification::<T>(
                    platform,
                    window@,
                    *event,
                ));
            },
            None => {},
        },
    }
    effects
}

/// The windows after an event of one of them was reported.
pub open spec fn windows_after_report(
    platform: Platform,
    windows: Map<WindowId, WindowModel>,
    id: WindowId,
    event: TaoWindowEvent,
) -> Map<WindowId, WindowModel> {
    match event {
        TaoWindowEvent::Focused(focused) => store::with_window(
            windows,
            id,
            window_focused(platform, windows[id], focused),
        ),
        _ => windows,
    }
}

fn note_focus(platform: Platform, windows: &mut WindowsStore, id: WindowId, focused: bool)
    ensures
        final(windows)@ == store::with_window(
            old(windows)@,
            id,
            window_focused(platform, old(windows)@[id], focused),
        ),
{
    let noted = match windows.get(id) {
        Some(window) => platform == Platform::Windows && !focus_hidden(platform, window, focused),
        None => false,
    };
    if noted {
        let focused_webview = if focused {
            Some(FOCUSED_WEBVIEW_MARKER.to_string())
        } else {
            None
        };
        windows.set_focused_webview(id, focused_webview);
    }
    assert(windows@ =~= store::with_window(
        old(windows)@,
        id,
        window_focused(platform, old(windows)@[id], focused),
    ));
}

/// A webview renders off screen.
pub open spec fn is_osr(options: BuildOptions, webview: WebviewModel) -> bool {
    options.wayland_osr && webview.osr
}

/// The webviews that render off screen.
pub open spec fn osr_webviews(webviews: Seq<WebviewModel>) -> Seq<WebviewId>
    decreases webviews.len(),
{
    if webviews.len() == 0 {
        Seq::empty()
    } else if webviews.last().osr {
        osr_webviews(webviews.drop_last()).push(webviews.last().id)
    } else {
        osr_webviews(webviews.drop_last())
    }
}

/// The browsers that render off screen.
pub open spec fn osr_browsers(slots: Seq<Option<i32>>, webviews: Seq<WebviewModel>) -> Seq<i32>
    decreases webviews.len(),
{
    if webviews.len() == 0 {
        Seq::empty()
    } else {
        let before = osr_browsers(slots, webviews.drop_last());
        match webviews.last().browser(slots) {
            Some(browser) => if webviews.last().osr {
                before.push(browser)
            } else {
                before
            },
            None => before,
        }
    }
}

/// The first webview that renders off screen.
pub open spec fn first_osr(webviews: Seq<WebviewModel>) -> Option<WebviewId> {
    if osr_webviews(webviews).len() > 0 {
        Some(osr_webviews(webviews)[0])
    } else {
        None
    }
}

proof fn lemma_take_one_more(webviews: Seq<WebviewModel>, index: int)
    requires
        0 <= index < webviews.len(),
    ensures
        webviews.take(index + 1).drop_last() == webviews.take(index),
        webviews.take(index + 1).last() == webviews[index],
{
    assert(webviews.take(index + 1).drop_last() =~= webviews.take(index));
}

fn find_osr(slots: &BrowserSlots, webviews: &Vec<WebviewWrapper>) -> (result: (
    Vec<WebviewId>,
    Vec<i32>,
))
    ensures
        result.0@ == osr_webviews(store::webview_models(webviews@)),
        result.1@ == osr_browsers(slots@, store::webview_models(webviews@)),
{
    let mut ids: Vec<WebviewId> = Vec::new();
    let mut browsers: Vec<i32> = Vec::new();
    let ghost all = store::webview_models(webviews@);
    let mut index: usize = 0;
    while index < webviews.len()
        invariant
            index <= webviews@.len(),
            all == store::webview_models(webviews@),
            ids@ == osr_webviews(all.take(index as int)),
            browsers@ == osr_browsers(slots@, all.take(index as int)),
        decreases webviews@.len() - index,
    {
        let webview = &webviews[index];
        proof {
            lemma_take_one_more(all, index as int);
            assert(all[index as int] == webview@);
        }
        if webview.osr {
            ids.push(webview.id);
            if let Some(browser) = webview.browser_slot.current(slots) {
                browsers.push(browser);
            }
        }
        index = index + 1;
    }
    assert(all.take(index as int) =~= all);
    (ids, browsers)
}

fn first_of(ids: &Vec<WebviewId>) -> (first: Option<WebviewId>)
    ensures
        first == if ids@.len() > 0 {
            Some(ids@[0])
        } else {
            None
        },
{
    if ids.len() > 0 {
        Some(ids[0])
    } else {
        None
    }
}

/// What is drawn in a window.
pub open spec fn drawing<T>(
    options: BuildOptions,
    windows: Map<WindowId, WindowModel>,
    ids: Map<TaoWindowId, WindowId>,
    window: TaoWindowId,
) -> LoopStepModel<T> {
    if ids.contains_key(window) && windows.contains_key(ids[window]) {
        let id = ids[window];
        let model = windows[id];
        if options.platform == Platform::Windows {
            match model.inner {
                Some(inner) => if model.is_window_transparent && model.surface {
                    LoopStepModel::only(
                        LoopEffectModel::DrawSurface {
                            window: inner,
                            background_color: model.background_color,
                        },
                    )
                } else {
                    LoopStepModel::nothing()
                },
                None => LoopStepModel::nothing(),
            }
        } else if options.wayland_osr && model.osr_surface {
            match first_osr(model.webviews) {
                Some(webview_id) => LoopStepModel::only(
                    LoopEffectModel::PresentFrame { window_id: id, webview_id },
                ),
                None => LoopStepModel::nothing(),
            }
        } else {
            LoopStepModel::nothing()
        }
    } else {
        LoopStepModel::nothing()
    }
}

fn draw<T>(
    options: BuildOptions,
    windows: &WindowsStore,
    slots: &BrowserSlots,
    ids: &WindowIdStore,
    window: TaoWindowId,
) -> (step: LoopStep<T>)
    ensures
        step@ == drawing::<T>(options, windows@, ids@, window),
{
    if let Some(id) = ids.get(&window) {
        if let Some(model) = windows.get(id) {
            if options.platform == Platform::Windows {
                if let Some(inner) = model.inner {
                    if model.is_window_transparent && model.surface {
                        return LoopStep::one(
                            LoopEffect::DrawSurface {
                                window: inner,
                                background_color: model.background_color,
                            },
                            Continuation::Done,
                        );
                    }
                }
            } else if options.wayland_osr && model.osr_surface {
                let (webviews, _) = find_osr(slots, &model.webviews);
                if let Some(webview_id) = first_of(&webviews) {
                    return LoopStep::one(
                        LoopEffect::PresentFrame { window_id: id, webview_id },
                        Continuation::Done,
                    );
                }
            }
        }
    }
    LoopStep::nothing()
}

/// What is done about an event of a window that the runtime knows, as far as the
/// application is concerned.
pub open spec fn report_step<T>(
    platform: Platform,
    windows: Map<WindowId, WindowModel>,
    id: WindowId,
    event: TaoWindowEvent,
) -> LoopStepModel<T> {
    LoopStepModel {
        effects: if windows.contains_key(id) {
            notification(platform, windows[id], event)
        } else {
            Seq::empty()
        },
        rest: Continuation::WindowEvent(id, event),
    }
}

fn report<T>(
    platform: Platform,
    windows: &mut WindowsStore,
    id: WindowId,
    event: TaoWindowEvent,
) -> (step: LoopStep<T>)
    ensures
        final(windows)@ == windows_after_report(platform, old(windows)@, id, event),
        step@ == report_step::<T>(platform, old(windows)@, id, event),
{
    let effects: Vec<LoopEffect<T>> = match windows.get(id) {
        Some(window) => notify(platform, window, &event),
        None => {
            let effects: Vec<LoopEffect<T>> = Vec::new();
            assert(loop_events::loop_models(effects@) =~= Seq::empty());
            effects
        },
    };
    if let TaoWindowEvent::Focused(focused) = event {
        note_focus(platform, windows, id, focused);
    }
    LoopStep { effects, rest: Continuation::WindowEvent(id, event) }
}

/// What is done about a message, as something that the event loop does.
pub open spec fn wrapped<T>(effects: Seq<EffectModel>) -> Seq<LoopEffectModel<T>> {
    effects.map_values(|effect: EffectModel| LoopEffectModel::Message(effect))
}

fn wrap<T>(effects: Vec<Effect>) -> (result: Vec<LoopEffect<T>>)
    ensures
        loop_events::loop_models(result@) == wrapped::<T>(messages::models(effects@)),
{
    let ghost all = effects@;
    let mut effects = effects;
    let mut result: Vec<LoopEffect<T>> = Vec::new();
    let ghost mut done: int = 0;
    assert(loop_events::loop_models(result@) =~= wrapped::<T>(messages::models(all.take(0))));
    while effects.len() > 0
        invariant
            0 <= done <= all.len(),
            effects@ == all.skip(done),
            loop_events::loop_models(result@) == wrapped::<T>(messages::models(all.take(done))),
        decreases effects@.len(),
    {
        let effect = effects.remove(0);
        let ghost before = result@;
        result.push(LoopEffect::Message(effect));
        proof {
            assert(effect == all[done]);
            assert(effects@ =~= all.skip(done + 1));
            assert(loop_events::loop_models(result@) =~= loop_events::loop_models(before).push(
                LoopEffectModel::Message(effect@),
            ));
            assert(messages::models(all.take(done + 1)) =~= messages::models(all.take(done)).push(
                effect@,
            ));
            assert(wrapped::<T>(messages::models(all.take(done + 1))) =~= wrapped::<T>(
                messages::models(all.take(done)),
            ).push(LoopEffectModel::Message(effect@)));
            done = done + 1;
        }
    }
    assert(all.take(done) =~= all);
    result
}

/// What the event loop does about a message.
pub open spec fn message_step<T>(
    options: BuildOptions,
    report: WindowReport,
    windows: Map<WindowId, WindowModel>,
    slots: Seq<Option<i32>>,
    message: Message<T>,
) -> LoopStepModel<T> {
    match message {
        Message::Webview(id, webview_id, WebviewMessage::WebviewEvent(event)) =>
            match store::webview_in(windows, id, webview_id) {
            Some(webview) => LoopStepModel::only(
                LoopEffectModel::NotifyWebview(webview_audience(webview), event),
            ),
            None => LoopStepModel::nothing(),
        },
        Message::Webview(id, _, WebviewMessage::SynthesizedWindowEvent(event)) =>
            if windows.contains_key(id) {
            LoopStepModel::only(
                LoopEffectModel::NotifyWindow(
                    window_audience(windows[id]),
                    loop_events::synthesized(event),
                ),
            )
        } else {
            LoopStepModel::nothing()
        },
        Message::RequestExit(code) => LoopStepModel {
            effects: seq![LoopEffectModel::AskToExit { code: Some(code) }],
            rest: Continuation::AwaitExitAnswer,
        },
        Message::Window(id, WindowMessage::Close) => close_request(windows, id),
        Message::Window(_, WindowMessage::Destroy) => LoopStepModel::nothing(),
        Message::UserEvent(event) => LoopStepModel::only(
            LoopEffectModel::Run(RunEvent::UserEvent(event)),
        ),
        _ => LoopStepModel {
            effects: wrapped(
                user_messages::effects_of(options.platform, report, windows, slots, message),
            ),
            rest: Continuation::Done,
        },
    }
}

/// The windows after the event loop handled a message.
pub open spec fn windows_after_message<T>(
    options: BuildOptions,
    windows: Map<WindowId, WindowModel>,
    message: Message<T>,
) -> Map<WindowId, WindowModel> {
    match message {
        Message::Window(id, WindowMessage::Close) => windows,
        Message::Window(id, WindowMessage::Destroy) => closed(windows, id),
        _ => user_messages::windows_after(options.platform, windows, message),
    }
}

/// The event loop can handle a message: a webview cannot be handed out before it has a
/// browser.
pub open spec fn can_handle<T>(
    windows: Map<WindowId, WindowModel>,
    slots: Seq<Option<i32>>,
    message: Message<T>,
) -> bool {
    message matches Message::Webview(id, webview_id, WebviewMessage::WithWebview(_)) ==> (
    user_messages::open_webview(windows, id, webview_id) matches Some(webview)
        ==> webview.browser(slots) is Some)
}

fn handle_message<T>(
    options: BuildOptions,
    report: WindowReport,
    windows: &mut WindowsStore,
    slots: &BrowserSlots,
    message: Message<T>,
) -> (step: LoopStep<T>)
    requires
        can_handle(old(windows)@, slots@, message),
    ensures
        final(windows)@ == windows_after_message(options, old(windows)@, message),
        step@ == message_step(options, report, old(windows)@, slots@, message),
{
    match message {
        Message::Webview(id, webview_id, WebviewMessage::WebviewEvent(event)) => {
            if let Some(window) = windows.get(id) {
                let at: usize = store::position_of_webview(&window.webviews, webview_id);
                if at < window.webviews.len() {
                    let webview = &window.webviews[at];
                    let audience = audience(&webview.label, &webview.webview_event_listeners);
                    return LoopStep::one(
                        LoopEffect::NotifyWebview(audience, event),
                        Continuation::Done,
                    );
                }
            }
            LoopStep::nothing()
        },
        Message::Webview(id, _, WebviewMessage::SynthesizedWindowEvent(event)) => {
            if let Some(event) = WindowEventWrapper::from(event).0 {
                if let Some(window) = windows.get(id) {
                    let audience = audience(&window.label, &window.window_event_listeners);
                    return LoopStep::one(
                        LoopEffect::NotifyWindow(audience, event),
                        Continuation::Done,
                    );
                }
            }
            LoopStep::nothing()
        },
        Message::RequestExit(code) => LoopStep::one(
            LoopEffect::AskToExit { code: Some(code) },
            Continuation::AwaitExitAnswer,
        ),
        Message::Window(id, WindowMessage::Close) => on_close_requested(id, windows),
        Message::Window(id, WindowMessage::Destroy) => {
            on_window_close(id, windows);
            LoopStep::nothing()
        },
        Message::UserEvent(event) => LoopStep::one(
            LoopEffect::Run(RunEvent::UserEvent(event)),
            Continuation::Done,
        ),
        message => {
            let effects = user_messages::handle_user_message(
                options.platform,
                report,
                windows,
                slots,
                message,
            );
            LoopStep { effects: wrap(effects), rest: Continuation::Done }
        },
    }
}

/// What the event loop does about an event.
pub open spec fn event_step<T>(
    options: BuildOptions,
    report: WindowReport,
    windows: Map<WindowId, WindowModel>,
    slots: Seq<Option<i32>>,
    ids: Map<TaoWindowId, WindowId>,
    event: LoopEvent<T>,
) -> LoopStepModel<T> {
    match event {
        LoopEvent::Init => LoopStepModel::only(LoopEffectModel::Run(RunEvent::Ready)),
        LoopEvent::Poll => LoopStepModel::only(LoopEffectModel::Run(RunEvent::Resumed)),
        LoopEvent::MainEventsCleared => LoopStepModel {
            effects: seq![
                LoopEffectModel::TickPump,
                LoopEffectModel::Run(RunEvent::MainEventsCleared),
            ],
            rest: Continuation::MainEventsCleared,
        },
        LoopEvent::LoopDestroyed => LoopStepModel::only(LoopEffectModel::Run(RunEvent::Exit)),
        LoopEvent::RedrawRequested(window) => drawing(options, windows, ids, window),
        LoopEvent::RedrawEventsCleared => if options.tracing {
            LoopStepModel::only(LoopEffectModel::EndWindowDraw)
        } else {
            LoopStepModel::nothing()
        },
        LoopEvent::WindowEvent { window, event } => if ids.contains_key(window) {
            report_step(options.platform, windows, ids[window], event)
        } else {
            LoopStepModel::nothing()
        },
        LoopEvent::UserEvent(message) => message_step(
            options,
            report,
            windows,
            slots,
            message,
        ),
        LoopEvent::Opened { urls } => if options.platform == Platform::MacOs || options.platform
            == Platform::Ios {
            LoopStepModel::only(LoopEffectModel::Run(RunEvent::Opened { urls }))
        } else {
            LoopStepModel::nothing()
        },
        LoopEvent::Reopen { has_visible_windows } => if options.platform == Platform::MacOs {
            LoopStepModel::only(LoopEffectModel::Run(RunEvent::Reopen { has_visible_windows }))
        } else {
            LoopStepModel::nothing()
        },
        LoopEvent::Other => LoopStepModel::nothing(),
    }
}

/// The windows after the event loop handled an event, up to its effects.
pub open spec fn windows_after_event<T>(
    options: BuildOptions,
    windows: Map<WindowId, WindowModel>,
    ids: Map<TaoWindowId, WindowId>,
    event: LoopEvent<T>,
) -> Map<WindowId, WindowModel> {
    match event {
        LoopEvent::WindowEvent { window, event } => if ids.contains_key(window) {
            windows_after_report(options.platform, windows, ids[window], event)
        } else {
            windows
        },
        LoopEvent::UserEvent(message) => windows_after_message(options, windows, message),
        _ => windows,
    }
}

/// Handles an event of the event loop. `deadline` is when the message pump has work;
/// `report` is what the window that a message is for says of itself.
pub fn handle_event_loop<T>(
    options: BuildOptions,
    report: WindowReport,
    windows: &mut WindowsStore,
    slots: &BrowserSlots,
    ids: &WindowIdStore,
    control_flow: &mut ControlFlow,
    deadline: Option<Deadline>,
    event: LoopEvent<T>,
) -> (step: LoopStep<T>)
    requires
        event matches LoopEvent::UserEvent(message) ==> can_handle(
            old(windows)@,
            slots@,
            message,
        ),
    ensures
        *final(control_flow) == waiting(*old(control_flow), deadline),
        final(windows)@ == windows_after_event(options, old(windows)@, ids@, event),
        step@ == event_step(options, report, old(windows)@, slots@, ids@, event),
{
    wait_for_pump(control_flow, deadline);
    match event {
        LoopEvent::Init => LoopStep::one(LoopEffect::Run(RunEvent::Ready), Continuation::Done),
        LoopEvent::Poll => LoopStep::one(LoopEffect::Run(RunEvent::Resumed), Continuation::Done),
        LoopEvent::MainEventsCleared => {
            let effects: Vec<LoopEffect<T>> = vec![
                LoopEffect::TickPump,
                LoopEffect::Run(RunEvent::MainEventsCleared),
            ];
            let step = LoopStep { effects, rest: Continuation::MainEventsCleared };
            assert(step@.effects =~= seq![
                LoopEffectModel::TickPump,
                LoopEffectModel::Run(RunEvent::MainEventsCleared),
            ]);
            step
        },
        LoopEvent::LoopDestroyed => LoopStep::one(
            LoopEffect::Run(RunEvent::Exit),
            Continuation::Done,
        ),
        LoopEvent::RedrawRequested(window) => draw(options, windows, slots, ids, window),
        LoopEvent::RedrawEventsCleared => if options.tracing {
            LoopStep::one(LoopEffect::EndWindowDraw, Continuation::Done)
        } else {
            LoopStep::nothing()
        },
        LoopEvent::WindowEvent { window, event } => match ids.get(&window) {
            Some(id) => self::report(options.platform, windows, id, event),
            None => LoopStep::nothing(),
        },
        LoopEvent::UserEvent(message) => handle_message(
            options,
            report,
            windows,
            slots,
            message,
        ),
        LoopEvent::Opened { urls } => if options.platform == Platform::MacOs || options.platform
            == Platform::Ios {
            LoopStep::one(LoopEffect::Run(RunEvent::Opened { urls }), Continuation::Done)
        } else {
            LoopStep::nothing()
        },
        LoopEvent::Reopen { has_visible_windows } => if options.platform == Platform::MacOs {
            LoopStep::one(
                LoopEffect::Run(RunEvent::Reopen { has_visible_windows }),
                Continuation::Done,
            )
        } else {
            LoopStep::nothing()
        },
        LoopEvent::Other => LoopStep::nothing(),
    }
}

/// What is done with the webviews of a window that got another size.
pub open spec fn resizes<T>(
    options: BuildOptions,
    window: TaoWindowId,
    window_id: WindowId,
    size: PhysicalSize<u32>,
    slots: Seq<Option<i32>>,
    webviews: Seq<WebviewModel>,
) -> Seq<LoopEffectModel<T>>
    decreases webviews.len(),
{
    if webviews.len() == 0 {
        Seq::empty()
    } else {
        let before = resizes(
            options,
            window,
            window_id,
            size,
            slots,
            webviews.drop_last(),
        );
        let webview = webviews.last();
        if is_osr(options, webview) {
            before.push(
                LoopEffectModel::ResizeOsr {
                    window,
                    webview_id: webview.id,
                    browser: webview.browser(slots),
                },
            )
        } else {
            match webview.bounds {
                Some(rates) => before.push(
                    LoopEffectModel::AutoResize {
                        window,
                        window_id,
                        webview_id: webview.id,
                        size,
                        rates,
                    },
                ),
                None => before,
            }
        }
    }
}

fn resize<T>(
    options: BuildOptions,
    window: TaoWindowId,
    window_id: WindowId,
    size: PhysicalSize<u32>,
    slots: &BrowserSlots,
    webviews: &Vec<WebviewWrapper>,
) -> (effects: Vec<LoopEffect<T>>)
    ensures
        loop_events::loop_models(effects@) == resizes::<T>(
            options,
            window,
            window_id,
            size,
            slots@,
            store::webview_models(webviews@),
        ),
{
    let mut effects: Vec<LoopEffect<T>> = Vec::new();
    let ghost all = store::webview_models(webviews@);
    let mut index: usize = 0;
    assert(loop_events::loop_models(effects@) =~= Seq::empty());
    while index < webviews.len()
        invariant
            index <= webviews@.len(),
            all == store::webview_models(webviews@),
            loop_events::loop_models(effects@) == resizes::<T>(
                options,
                window,
                window_id,
                size,
                slots@,
                all.take(index as int),
            ),
        decreases webviews@.len() - index,
    {
        let webview = &webviews[index];
        let webview_id: WebviewId = webview.id;
        let ghost before = effects@;
        proof {
            lemma_take_one_more(all, index as int);
            assert(all[index as int] == webview@);
        }
        if options.wayland_osr && webview.osr {
            let browser = webview.browser_slot.current(slots);
            effects.push(LoopEffect::ResizeOsr { window, webview_id, browser });
            assert(loop_events::loop_models(effects@) =~= loop_events::loop_models(before).push(
                effects@.last()@,
            ));
        } else if let Some(rates) = webview.bounds {
            effects.push(LoopEffect::AutoResize { window, window_id, webview_id, size, rates });
            assert(loop_events::loop_models(effects@) =~= loop_events::loop_models(before).push(
                effects@.last()@,
            ));
        }
        index = index + 1;
    }
    assert(all.take(index as int) =~= all);
    effects
}

/// What is done with the webviews of a window whose color scheme changed.
pub open spec fn theme_changes<T>(
    slots: Seq<Option<i32>>,
    webviews: Seq<WebviewModel>,
    theme: conversions::Theme,
) -> Seq<LoopEffectModel<T>> {
    webviews.map_values(
        |webview: WebviewModel|
            LoopEffectModel::SetWebviewTheme {
                webview_id: webview.id,
                browser: webview.browser(slots),
                theme,
            },
    )
}

fn change_theme<T>(
    slots: &BrowserSlots,
    webviews: &Vec<WebviewWrapper>,
    theme: conversions::Theme,
) -> (effects: Vec<LoopEffect<T>>)
    ensures
        loop_events::loop_models(effects@) == theme_changes::<T>(
            slots@,
            store::webview_models(webviews@),
            theme,
        ),
{
    let mut effects: Vec<LoopEffect<T>> = Vec::new();
    let ghost all = theme_changes::<T>(slots@, store::webview_models(webviews@), theme);
    let mut index: usize = 0;
    assert(loop_events::loop_models(effects@) =~= all.take(0));
    while index < webviews.len()
        invariant
            index <= webviews@.len(),
            all == theme_changes::<T>(slots@, store::webview_models(webviews@), theme),
            loop_events::loop_models(effects@) == all.take(index as int),
        decreases webviews@.len() - index,
    {
        let ghost before = effects@;
        let browser = webviews[index].browser_slot.current(slots);
        effects.push(
            LoopEffect::SetWebviewTheme { webview_id: webviews[index].id, browser, theme },
        );
        proof {
            assert(loop_events::loop_models(effects@) =~= loop_events::loop_models(before).push(
                effects@.last()@,
            ));
            assert(effects@.last()@ == all[index as int]);
            assert(all.take(index + 1) =~= all.take(index as int).push(all[index as int]));
        }
        index = index + 1;
    }
    assert(all.take(index as int) =~= all);
    effects
}

/// The input that an event of a window is, if it is any.
pub open spec fn input_of(event: TaoWindowEvent) -> Option<InputEvent> {
    match event {
        TaoWindowEvent::Input(input) => Some(input),
        TaoWindowEvent::Focused(focused) => Some(InputEvent::Focused(focused)),
        _ => None,
    }
}

/// What is done with input for the browsers of a window that render off screen.
pub open spec fn forwarding<T>(
    slots: Seq<Option<i32>>,
    webviews: Seq<WebviewModel>,
    input: InputEvent,
) -> Seq<LoopEffectModel<T>> {
    let forward = LoopEffectModel::ForwardInput {
        browsers: osr_browsers(slots, webviews),
        cursor_of: first_osr(webviews),
        input,
    };
    match input {
        InputEvent::CursorMoved { x, y } => seq![
            LoopEffectModel::SetCursor { webviews: osr_webviews(webviews), x, y },
            forward,
        ],
        _ => seq![forward],
    }
}

fn forward<T>(
    slots: &BrowserSlots,
    webviews: &Vec<WebviewWrapper>,
    input: InputEvent,
) -> (effects: Vec<LoopEffect<T>>)
    ensures
        loop_events::loop_models(effects@) == forwarding::<T>(
            slots@,
            store::webview_models(webviews@),
            input,
        ),
{
    let ghost all = store::webview_models(webviews@);
    let (ids, browsers) = find_osr(slots, webviews);
    let cursor_of = first_of(&ids);
    let mut effects: Vec<LoopEffect<T>> = Vec::new();
    if let InputEvent::CursorMoved { x, y } = input {
        effects.push(LoopEffect::SetCursor { webviews: ids, x, y });
    }
    effects.push(LoopEffect::ForwardInput { browsers, cursor_of, input });
    assert(loop_events::loop_models(effects@) =~= forwarding::<T>(slots@, all, input));
    effects
}

/// What the event loop does about an event of a window once the application has learned
/// of it.
pub open spec fn window_step<T>(
    options: BuildOptions,
    windows: Map<WindowId, WindowModel>,
    slots: Seq<Option<i32>>,
    id: WindowId,
    event: TaoWindowEvent,
) -> LoopStepModel<T> {
    match event {
        TaoWindowEvent::ThemeChanged(theme) => if options.platform == Platform::Windows
            && windows.contains_key(id) {
            LoopStepModel {
                effects: theme_changes(
                    slots,
                    windows[id].webviews,
                    conversions::mapped_theme(theme),
                ),
                rest: Continuation::Done,
            }
        } else {
            LoopStepModel::nothing()
        },
        TaoWindowEvent::CloseRequested => close_request(windows, id),
        TaoWindowEvent::Destroyed => if windows.contains_key(id) && windows.remove(id)
            == Map::<WindowId, WindowModel>::empty() {
            LoopStepModel {
                effects: seq![LoopEffectModel::AskToExit { code: None }],
                rest: Continuation::AwaitExitAnswer,
            }
        } else {
            LoopStepModel::nothing()
        },
        TaoWindowEvent::Resized(size) => match user_messages::open_window(windows, id) {
            Some(window) => LoopStepModel {
                effects: resizes(options, window, id, size, slots, windows[id].webviews),
                rest: Continuation::Done,
            },
            None => LoopStepModel::nothing(),
        },
        _ => match input_of(event) {
            Some(input) => if options.wayland_osr && windows.contains_key(id) {
                LoopStepModel {
                    effects: forwarding(slots, windows[id].webviews, input),
                    rest: Continuation::Done,
                }
            } else {
                LoopStepModel::nothing()
            },
            None => LoopStepModel::nothing(),
        },
    }
}

/// Handles an event of a window once the application has learned of it.
pub fn window_event_reported<T>(
    options: BuildOptions,
    windows: &mut WindowsStore,
    slots: &BrowserSlots,
    id: WindowId,
    event: TaoWindowEvent,
) -> (step: LoopStep<T>)
    ensures
        final(windows)@ == if event is Destroyed {
            old(windows)@.remove(id)
        } else {
            old(windows)@
        },
        step@ == window_step::<T>(options, old(windows)@, slots@, id, event),
{
    match event {
        TaoWindowEvent::ThemeChanged(theme) => {
            if options.platform == Platform::Windows {
                if let Some(window) = windows.get(id) {
                    let effects = change_theme(slots, &window.webviews, map_theme(&theme));
                    return LoopStep { effects, rest: Continuation::Done };
                }
            }
            LoopStep::nothing()
        },
        TaoWindowEvent::CloseRequested => on_close_requested(id, windows),
        TaoWindowEvent::Destroyed => {
            if windows.remove(id).is_some() && windows.is_empty() {
                LoopStep::one(LoopEffect::AskToExit { code: None }, Continuation::AwaitExitAnswer)
            } else {
                LoopStep::nothing()
            }
        },
        TaoWindowEvent::Resized(size) => {
            if let Some(window) = windows.get(id) {
                if let Some(inner) = window.inner {
                    let effects = resize(options, inner, id, size, slots, &window.webviews);
                    return LoopStep { effects, rest: Continuation::Done };
                }
            }
            LoopStep::nothing()
        },
        TaoWindowEvent::Input(input) => forward_input(options, windows, slots, id, input),
        TaoWindowEvent::Focused(focused) => forward_input(
            options,
            windows,
            slots,
            id,
            InputEvent::Focused(focused),
        ),
        _ => LoopStep::nothing(),
    }
}

fn forward_input<T>(
    options: BuildOptions,
    windows: &WindowsStore,
    slots: &BrowserSlots,
    id: WindowId,
    input: InputEvent,
) -> (step: LoopStep<T>)
    ensures
        step@ == if options.wayland_osr && windows@.contains_key(id) {
            LoopStepModel {
                effects: forwarding::<T>(slots@, windows@[id].webviews, input),
                rest: Continuation::Done,
            }
        } else {
            LoopStepModel::nothing()
        },
{
    if options.wayland_osr {
        if let Some(window) = windows.get(id) {
            let effects = forward(slots, &window.webviews, input);
            return LoopStep { effects, rest: Continuation::Done };
        }
    }
    LoopStep::nothing()
}

/// An event loop that ends does not go on: no event makes it wait again.
pub proof fn lemma_end_is_final(deadline: Option<Deadline>)
    ensures
        waiting(ControlFlow::ExitWithCode(0), deadline) == ControlFlow::ExitWithCode(0),
{
}

/// The application is asked whether the event loop may end exactly when it is told to,
/// and when the last window is destroyed.
pub proof fn lemma_exit_is_asked_for<T>(
    options: BuildOptions,
    report: WindowReport,
    windows: Map<WindowId, WindowModel>,
    slots: Seq<Option<i32>>,
    ids: Map<TaoWindowId, WindowId>,
    event: LoopEvent<T>,
    id: WindowId,
    window_event: TaoWindowEvent,
)
    ensures
        event_step(options, report, windows, slots, ids, event).rest is AwaitExitAnswer <==> event
            matches LoopEvent::UserEvent(Message::RequestExit(_)),
        window_step::<T>(options, windows, slots, id, window_event).rest is AwaitExitAnswer <==> (
        window_event is Destroyed && windows.contains_key(id) && windows.remove(id) == Map::<
            WindowId,
            WindowModel,
        >::empty()),
{
}

/// A window that is asked to close closes only after everyone concerned was asked, and
/// stays as it is if the answer is to stay open.
pub proof fn lemma_closing_asks_first<T>(
    options: BuildOptions,
    report: WindowReport,
    windows: Map<WindowId, WindowModel>,
    slots: Seq<Option<i32>>,
    id: WindowId,
)
    requires
        windows.contains_key(id),
    ensures
        message_step::<T>(
            options,
            report,
            windows,
            slots,
            Message::Window(id, WindowMessage::Close),
        ) == window_step::<T>(options, windows, slots, id, TaoWindowEvent::CloseRequested),
        windows_after_message::<T>(options, windows, Message::Window(id, WindowMessage::Close))
            == windows,
        window_step::<T>(options, windows, slots, id, TaoWindowEvent::CloseRequested).effects[0]
            == LoopEffectModel::<T>::AskToClose(window_audience(windows[id])),
{
}

/// A closed window gets no more messages, and it is known until it is destroyed.
pub proof fn lemma_closed_window_is_known(windows: Map<WindowId, WindowModel>, id: WindowId)
    requires
        windows.contains_key(id),
    ensures
        closed(windows, id).contains_key(id),
        closed(windows, id).dom() == windows.dom(),
        user_messages::open_window(closed(windows, id), id) is None,
        closed(windows, id)[id].label == windows[id].label,
        closed(windows, id)[id].webviews == windows[id].webviews,
        closed(closed(windows, id), id) == closed(windows, id),
{
    assert(closed(windows, id).dom() =~= windows.dom());
    assert(closed(closed(windows, id), id) =~= closed(windows, id));
}

/// On Windows the application learns of a change of focus only once: a window that
/// gained the focus by itself reports when it loses it, and one that lost it to one of
/// its webviews does not.
pub proof fn lemma_focus_is_reported_once(window: WindowModel, webview: Seq<char>)
    requires
        window.has_children,
        webview != FOCUSED_WEBVIEW_MARKER@,
    ensures
        ({
            let focused = window_focused(Platform::Windows, window, true);
            let on_webview = WindowModel { focused_webview: Some(webview), ..focused };
            &&& !focus_is_hidden(Platform::Windows, window, true)
            &&& !focus_is_hidden(Platform::Windows, focused, false)
            &&& focus_is_hidden(Platform::Windows, on_webview, false)
        }),
{
}

proof fn lemma_osr_webviews_count(slots: Seq<Option<i32>>, webviews: Seq<WebviewModel>)
    ensures
        osr_browsers(slots, webviews).len() <= osr_webviews(webviews).len() <= webviews.len(),
    decreases webviews.len(),
{
    if webviews.len() > 0 {
        lemma_osr_webviews_count(slots, webviews.drop_last());
    }
}

/// A browser gets input only where some webview renders off screen, and then the cursor
/// is known.
pub proof fn lemma_input_has_a_cursor(slots: Seq<Option<i32>>, webviews: Seq<WebviewModel>)
    ensures
        osr_browsers(slots, webviews).len() > 0 ==> first_osr(webviews) is Some,
        (forall|i: int| 0 <= i < webviews.len() ==> !(#[trigger] webviews[i]).osr)
            ==> osr_browsers(slots, webviews).len() == 0,
    decreases webviews.len(),
{
    lemma_osr_webviews_count(slots, webviews);
    if webviews.len() > 0 {
        let before = webviews.drop_last();
        lemma_input_has_a_cursor(slots, before);
        if forall|i: int| 0 <= i < webviews.len() ==> !(#[trigger] webviews[i]).osr {
            assert forall|i: int| 0 <= i < before.len() implies !(#[trigger] before[i]).osr by {
                assert(before[i] == webviews[i]);
            }
        }
    }
}

} // verus!
