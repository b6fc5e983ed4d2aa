//! What the event loop does about each event.

use crate::browser_slot::BrowserSlots;
use crate::client::HandlerId;
use crate::pump::Deadline;
use crate::runtime::conversions::{TaoTheme, Theme};
use crate::runtime::dpi::{Float64, PhysicalPosition, PhysicalSize};
use crate::runtime::event_loop;
use crate::runtime::event_loop::{
    close_answered, exit_answered, handle_event_loop, wait_for_pump, window_event_reported,
};
use crate::runtime::input::InputEvent;
use crate::runtime::loop_events::{
    AudienceModel, Continuation, LoopEffectModel, LoopEvent, LoopStep, LoopStepModel, RunEvent,
    TaoWindowEvent,
};
use crate::runtime::messages::{
    DragDropEvent, Message, SynthesizedWindowEvent, WebviewEvent, WebviewMessage, WindowEvent,
    WindowMessage, WindowReport,
};
use crate::runtime::platform::{BuildOptions, Platform};
use crate::runtime::store;
use crate::runtime::store::{
    TaoWindowId, WebviewId, WebviewModel, WindowId, WindowIdStore, WindowModel, WindowsStore,
};
use crate::runtime::user_messages;
use crate::tao::ControlFlow;
use vstd::prelude::*;

verus! {

/// Who hears of something: the application, by a label, and each of the listeners in turn.
pub open spec fn heard_by(label: Seq<char>, listeners: Seq<(u32, HandlerId)>) -> AudienceModel {
    AudienceModel { label, listeners: Seq::new(listeners.len(), |i: int| listeners[i].1) }
}

proof fn lemma_audience(label: Seq<char>, listeners: Seq<(u32, HandlerId)>)
    ensures
        heard_by(label, listeners) == (AudienceModel {
            label,
            listeners: store::handlers_of(listeners),
        }),
{
    assert(heard_by(label, listeners).listeners =~= store::handlers_of(listeners));
}

/// That a window was destroyed or moved, that its scale factor or the color scheme changed:
/// of each of these the application and the listeners of the window learn once, with what
/// the window system said, before anything else is done about it.
pub proof fn lemma_window_events_are_passed_on<T>(
    options: BuildOptions,
    report: WindowReport,
    windows: Map<WindowId, WindowModel>,
    slots: Seq<Option<i32>>,
    ids: Map<TaoWindowId, WindowId>,
    window: TaoWindowId,
    position: PhysicalPosition<i32>,
    scale_factor: Float64,
    new_inner_size: PhysicalSize<u32>,
    theme: TaoTheme,
)
    requires
        ids.contains_key(window),
        windows.contains_key(ids[window]),
    ensures
        ({
            let id = ids[window];
            let audience = heard_by(windows[id].label, windows[id].listeners);
            let step = |event: TaoWindowEvent|
                event_loop::event_step::<T>(
                    options,
                    report,
                    windows,
                    slots,
                    ids,
                    LoopEvent::WindowEvent { window, event },
                );
            let told = |event: TaoWindowEvent, heard: WindowEvent|
                LoopStepModel::<T> {
                    effects: seq![LoopEffectModel::NotifyWindow(audience, heard)],
                    rest: Continuation::WindowEvent(id, event),
                };
            &&& step(TaoWindowEvent::Destroyed) == told(
                TaoWindowEvent::Destroyed,
                WindowEvent::Destroyed,
            )
            &&& step(TaoWindowEvent::Moved(position)) == told(
                TaoWindowEvent::Moved(position),
                WindowEvent::Moved(position),
            )
            &&& step(TaoWindowEvent::ScaleFactorChanged { scale_factor, new_inner_size }) == told(
                TaoWindowEvent::ScaleFactorChanged { scale_factor, new_inner_size },
                WindowEvent::ScaleFactorChanged { scale_factor, new_inner_size },
            )
            &&& theme == TaoTheme::Dark ==> step(TaoWindowEvent::ThemeChanged(theme)) == told(
                TaoWindowEvent::ThemeChanged(theme),
                WindowEvent::ThemeChanged(Theme::Dark),
            )
            &&& theme != TaoTheme::Dark ==> step(TaoWindowEvent::ThemeChanged(theme)) == told(
                TaoWindowEvent::ThemeChanged(theme),
                WindowEvent::ThemeChanged(Theme::Light),
            )
        }),
{
    lemma_audience(windows[ids[window]].label, windows[ids[window]].listeners);
}

/// The application and the listeners of a window learn of every change of its focus, once,
/// and nothing else changes; but on Windows a window with a single webview leaves that to
/// the webview. A window with several tells of the focus it gains and notes that it has it
/// itself, and tells of the focus it loses, unless it was one of its webviews that had it.
pub proof fn lemma_focus_is_passed_on<T>(
    options: BuildOptions,
    report: WindowReport,
    windows: Map<WindowId, WindowModel>,
    slots: Seq<Option<i32>>,
    ids: Map<TaoWindowId, WindowId>,
    window: TaoWindowId,
    focused: bool,
)
    requires
        ids.contains_key(window),
        windows.contains_key(ids[window]),
    ensures
        ({
            let id = ids[window];
            let model = windows[id];
            let event = LoopEvent::<T>::WindowEvent {
                window,
                event: TaoWindowEvent::Focused(focused),
            };
            let effects = event_loop::event_step(options, report, windows, slots, ids, event).effects;
            let after = event_loop::windows_after_event(options, windows, ids, event);
            let told = seq![
                LoopEffectModel::<T>::NotifyWindow(
                    heard_by(model.label, model.listeners),
                    WindowEvent::Focused(focused),
                ),
            ];
            let webview_had_it = model.focused_webview is Some && model.focused_webview != Some(
                "__tauriWindow?"@,
            );
            &&& options.platform != Platform::Windows ==> effects == told && after == windows
            &&& options.platform == Platform::Windows && !model.has_children ==> effects
                == Seq::<LoopEffectModel<T>>::empty() && after == windows
            &&& options.platform == Platform::Windows && model.has_children && focused
                ==> effects == told && after == windows.insert(
                id,
                WindowModel { focused_webview: Some("__tauriWindow?"@), ..model },
            )
            &&& options.platform == Platform::Windows && model.has_children && !focused
                && !webview_had_it ==> effects == told && after == windows.insert(
                id,
                WindowModel { focused_webview: None, ..model },
            )
            &&& options.platform == Platform::Windows && model.has_children && !focused
                && webview_had_it ==> effects == Seq::<LoopEffectModel<T>>::empty() && after
                == windows
        }),
{
    let id = ids[window];
    lemma_audience(windows[id].label, windows[id].listeners);
    assert(windows.insert(id, windows[id]) =~= windows);
}

/// Of a new size the window system is asked: the application and the listeners of a window
/// that is open learn once that it has another size, which on macOS is that of the webview
/// if the window holds just one. A closed window has no size.
pub proof fn lemma_new_size_is_asked_for<T>(
    options: BuildOptions,
    report: WindowReport,
    windows: Map<WindowId, WindowModel>,
    slots: Seq<Option<i32>>,
    ids: Map<TaoWindowId, WindowId>,
    window: TaoWindowId,
    size: PhysicalSize<u32>,
)
    requires
        ids.contains_key(window),
        windows.contains_key(ids[window]),
    ensures
        ({
            let id = ids[window];
            let model = windows[id];
            let event = TaoWindowEvent::Resized(size);
            let step = event_loop::event_step::<T>(
                options,
                report,
                windows,
                slots,
                ids,
                LoopEvent::WindowEvent { window, event },
            );
            &&& step.rest == Continuation::WindowEvent(id, event)
            &&& model.inner is None ==> step.effects.len() == 0
            &&& model.inner matches Some(inner) ==> step.effects == seq![
                LoopEffectModel::<T>::NotifyResized {
                    audience: heard_by(model.label, model.listeners),
                    window: inner,
                    of_webview: options.platform == Platform::MacOs && !model.has_children
                        && model.webviews.len() > 0,
                },
            ]
        }),
{
    let id = ids[window];
    lemma_audience(windows[id].label, windows[id].listeners);
}

/// A request to close, input, and what the runtime makes nothing of are not for the
/// application to learn; nor does it learn anything of a window that is gone. No event of
/// a window but a change of focus changes the windows at once, and events of windows that
/// are not the application's are dropped.
pub proof fn lemma_other_window_events_are_not_passed_on<T>(
    options: BuildOptions,
    report: WindowReport,
    windows: Map<WindowId, WindowModel>,
    slots: Seq<Option<i32>>,
    ids: Map<TaoWindowId, WindowId>,
    window: TaoWindowId,
    event: TaoWindowEvent,
)
    ensures
        ({
            let loop_event = LoopEvent::<T>::WindowEvent { window, event };
            let step = event_loop::event_step(options, report, windows, slots, ids, loop_event);
            &&& !ids.contains_key(window) ==> step.effects.len() == 0 && step.rest
                == Continuation::Done
            &&& ids.contains_key(window) ==> step.rest == Continuation::WindowEvent(
                ids[window],
                event,
            )
            &&& ids.contains_key(window) && !windows.contains_key(ids[window])
                ==> step.effects.len() == 0
            &&& event is CloseRequested || event is Input || event is Other
                ==> step.effects.len() == 0
            &&& !(event is Focused) || !ids.contains_key(window)
                ==> event_loop::windows_after_event(options, windows, ids, loop_event) == windows
        }),
{
}

/// The application learns that the event loop is ready, that it goes on, that the events
/// were handled, after CEF was served, and that the event loop ends; of URLs that it is to
/// open on macOS and iOS, and that it was opened again on macOS.
pub proof fn lemma_loop_events_are_passed_on<T>(
    options: BuildOptions,
    report: WindowReport,
    windows: Map<WindowId, WindowModel>,
    slots: Seq<Option<i32>>,
    ids: Map<TaoWindowId, WindowId>,
    urls: Vec<String>,
    has_visible_windows: bool,
)
    ensures
        ({
            let step = |event: LoopEvent<T>|
                event_loop::event_step(options, report, windows, slots, ids, event);
            let told = |event: RunEvent<T>|
                LoopStepModel::<T> {
                    effects: seq![LoopEffectModel::Run(event)],
                    rest: Continuation::Done,
                };
            let nothing = LoopStepModel::<T> { effects: Seq::empty(), rest: Continuation::Done };
            let macos = options.platform == Platform::MacOs;
            let ios = options.platform == Platform::Ios;
            &&& step(LoopEvent::Init) == told(RunEvent::Ready)
            &&& step(LoopEvent::Poll) == told(RunEvent::Resumed)
            &&& step(LoopEvent::LoopDestroyed) == told(RunEvent::Exit)
            &&& step(LoopEvent::Other) == nothing
            &&& step(LoopEvent::MainEventsCleared) == LoopStepModel::<T> {
                effects: seq![
                    LoopEffectModel::TickPump,
                    LoopEffectModel::Run(RunEvent::MainEventsCleared),
                ],
                rest: Continuation::MainEventsCleared,
            }
            &&& macos || ios ==> step(LoopEvent::Opened { urls }) == told(RunEvent::Opened { urls })
            &&& !macos && !ios ==> step(LoopEvent::Opened { urls }) == nothing
            &&& macos ==> step(LoopEvent::Reopen { has_visible_windows }) == told(
                RunEvent::Reopen { has_visible_windows },
            )
            &&& !macos ==> step(LoopEvent::Reopen { has_visible_windows }) == nothing
            &&& options.tracing ==> step(LoopEvent::RedrawEventsCleared) == LoopStepModel::<T> {
                effects: seq![LoopEffectModel::EndWindowDraw],
                rest: Continuation::Done,
            }
            &&& !options.tracing ==> step(LoopEvent::RedrawEventsCleared) == nothing
        }),
{
}

/// The first webview that renders off screen is the one that none before it does.
proof fn lemma_first_osr(webviews: Seq<WebviewModel>, at: int)
    requires
        0 <= at <= webviews.len(),
        forall|i: int| 0 <= i < at ==> !(#[trigger] webviews[i]).osr,
        at < webviews.len() ==> webviews[at].osr,
    ensures
        at < webviews.len() ==> event_loop::first_osr(webviews) == Some(webviews[at].id),
        at == webviews.len() ==> event_loop::first_osr(webviews) is None,
    decreases webviews.len(),
{
    if webviews.len() > 0 {
        let before = webviews.drop_last();
        if at < webviews.len() - 1 {
            assert(before[at] == webviews[at]);
            lemma_first_osr(before, at);
        } else {
            assert forall|i: int| 0 <= i < before.len() implies !(#[trigger] before[i]).osr by {
                assert(before[i] == webviews[i]);
            }
            lemma_first_osr(before, before.len() as int);
        }
    }
}

/// A window that is to be drawn on Windows gets its background if it is transparent and the
/// runtime draws it; elsewhere it gets the frame of its first webview that renders off
/// screen, if frames are shown in it.
pub proof fn lemma_windows_are_drawn<T>(
    options: BuildOptions,
    report: WindowReport,
    windows: Map<WindowId, WindowModel>,
    slots: Seq<Option<i32>>,
    ids: Map<TaoWindowId, WindowId>,
    window: TaoWindowId,
    at: int,
)
    requires
        ids.contains_key(window),
        windows.contains_key(ids[window]),
        0 <= at <= windows[ids[window]].webviews.len(),
        forall|i: int| 0 <= i < at ==> !(#[trigger] windows[ids[window]].webviews[i]).osr,
        at < windows[ids[window]].webviews.len() ==> windows[ids[window]].webviews[at].osr,
    ensures
        ({
            let id = ids[window];
            let model = windows[id];
            let effects = event_loop::event_step::<T>(
                options,
                report,
                windows,
                slots,
                ids,
                LoopEvent::RedrawRequested(window),
            ).effects;
            if options.platform == Platform::Windows {
                if model.inner is Some && model.is_window_transparent && model.surface {
                    effects == seq![
                        LoopEffectModel::<T>::DrawSurface {
                            window: model.inner->Some_0,
                            background_color: model.background_color,
                        },
                    ]
                } else {
                    effects.len() == 0
                }
            } else {
                if options.wayland_osr && model.osr_surface && at < model.webviews.len() {
                    effects == seq![
                        LoopEffectModel::<T>::PresentFrame {
                            window_id: id,
                            webview_id: model.webviews[at].id,
                        },
                    ]
                } else {
                    effects.len() == 0
                }
            }
        }),
{
    lemma_first_osr(windows[ids[window]].webviews, at);
}

/// The webview that is found by an identifier is the first one that has it.
proof fn lemma_webview_found(webviews: Seq<WebviewModel>, id: WebviewId, at: int)
    requires
        0 <= at < webviews.len(),
        webviews[at].id == id,
        forall|i: int| 0 <= i < at ==> (#[trigger] webviews[i]).id != id,
    ensures
        store::find_webview(webviews, id) == Some(webviews[at]),
{
    store::lemma_webview_index(webviews, id);
    let found = store::webview_index(webviews, id);
    if found < at {
        assert(webviews[found].id != id);
    }
}

/// The application and the listeners of a webview learn of what is dragged over it; those
/// of its window learn of it, and of the focus, where the webview stands in for the window.
pub proof fn lemma_webview_events_are_passed_on<T>(
    options: BuildOptions,
    report: WindowReport,
    windows: Map<WindowId, WindowModel>,
    slots: Seq<Option<i32>>,
    ids: Map<TaoWindowId, WindowId>,
    id: WindowId,
    at: int,
    dragged: DragDropEvent,
    focused: bool,
)
    requires
        windows.contains_key(id),
        0 <= at < windows[id].webviews.len(),
        forall|i: int|
            0 <= i < at ==> (#[trigger] windows[id].webviews[i]).id != windows[id].webviews[at].id,
    ensures
        ({
            let window = windows[id];
            let webview = window.webviews[at];
            let step = |message: WebviewMessage|
                event_loop::event_step(
                    options,
                    report,
                    windows,
                    slots,
                    ids,
                    LoopEvent::<T>::UserEvent(Message::Webview(id, webview.id, message)),
                );
            let told_window = |event: WindowEvent|
                LoopStepModel::<T> {
                    effects: seq![
                        LoopEffectModel::NotifyWindow(
                            heard_by(window.label, window.listeners),
                            event,
                        ),
                    ],
                    rest: Continuation::Done,
                };
            &&& step(WebviewMessage::WebviewEvent(WebviewEvent::DragDrop(dragged)))
                == LoopStepModel::<T> {
                effects: seq![
                    LoopEffectModel::NotifyWebview(
                        heard_by(webview.label, webview.listeners),
                        WebviewEvent::DragDrop(dragged),
                    ),
                ],
                rest: Continuation::Done,
            }
            &&& step(
                WebviewMessage::SynthesizedWindowEvent(SynthesizedWindowEvent::Focused(focused)),
            ) == told_window(WindowEvent::Focused(focused))
            &&& step(
                WebviewMessage::SynthesizedWindowEvent(SynthesizedWindowEvent::DragDrop(dragged)),
            ) == told_window(WindowEvent::DragDrop(dragged))
        }),
{
    let window = windows[id];
    lemma_webview_found(window.webviews, window.webviews[at].id, at);
    lemma_audience(window.label, window.listeners);
    lemma_audience(window.webviews[at].label, window.webviews[at].listeners);
}

/// Nobody learns of events of webviews in windows that there are not.
pub proof fn lemma_lost_webview_events_reach_nobody<T>(
    options: BuildOptions,
    report: WindowReport,
    windows: Map<WindowId, WindowModel>,
    slots: Seq<Option<i32>>,
    ids: Map<TaoWindowId, WindowId>,
    id: WindowId,
    webview_id: WebviewId,
    message: WebviewMessage,
)
    requires
        !windows.contains_key(id),
        message is WebviewEvent || message is SynthesizedWindowEvent,
    ensures
        event_loop::event_step(
            options,
            report,
            windows,
            slots,
            ids,
            LoopEvent::<T>::UserEvent(Message::Webview(id, webview_id, message)),
        ).effects.len() == 0,
{
}

/// A request to exit makes the application be asked, with the code of the request; an event
/// of the application comes back to it as it is. The windows stay as they are.
pub proof fn lemma_requests_reach_the_application<T>(
    options: BuildOptions,
    report: WindowReport,
    windows: Map<WindowId, WindowModel>,
    slots: Seq<Option<i32>>,
    ids: Map<TaoWindowId, WindowId>,
    code: i32,
    event: T,
)
    ensures
        ({
            let exit = LoopEvent::<T>::UserEvent(Message::RequestExit(code));
            let own = LoopEvent::UserEvent(Message::UserEvent(event));
            &&& event_loop::event_step(options, report, windows, slots, ids, exit)
                == LoopStepModel::<T> {
                effects: seq![LoopEffectModel::AskToExit { code: Some(code) }],
                rest: Continuation::AwaitExitAnswer,
            }
            &&& event_loop::event_step(options, report, windows, slots, ids, own)
                == LoopStepModel::<T> {
                effects: seq![LoopEffectModel::Run(RunEvent::UserEvent(event))],
                rest: Continuation::Done,
            }
            &&& event_loop::windows_after_event(options, windows, ids, exit) == windows
            &&& event_loop::windows_after_event(options, windows, ids, own) == windows
        }),
{
}

/// A message that asks a window to close, and a click that does, ask everyone concerned; a
/// message that destroys it asks nobody and takes it from the window system, with nothing
/// else changed.
pub proof fn lemma_windows_close_or_are_destroyed<T>(
    options: BuildOptions,
    report: WindowReport,
    windows: Map<WindowId, WindowModel>,
    slots: Seq<Option<i32>>,
    ids: Map<TaoWindowId, WindowId>,
    id: WindowId,
)
    requires
        windows.contains_key(id),
    ensures
        ({
            let window = windows[id];
            let asked = LoopStepModel::<T> {
                effects: seq![
                    LoopEffectModel::AskToClose(heard_by(window.label, window.listeners)),
                ],
                rest: Continuation::AwaitCloseAnswer(id),
            };
            let close = LoopEvent::<T>::UserEvent(Message::Window(id, WindowMessage::Close));
            let destroy = LoopEvent::<T>::UserEvent(Message::Window(id, WindowMessage::Destroy));
            &&& event_loop::event_step(options, report, windows, slots, ids, close) == asked
            &&& event_loop::window_step::<T>(
                options,
                windows,
                slots,
                id,
                TaoWindowEvent::CloseRequested,
            ) == asked
            &&& event_loop::windows_after_event(options, windows, ids, close) == windows
            &&& event_loop::event_step(options, report, windows, slots, ids, destroy)
                == LoopStepModel::<T> { effects: Seq::empty(), rest: Continuation::Done }
            &&& event_loop::windows_after_event(options, windows, ids, destroy) == windows.insert(
                id,
                WindowModel { inner: None, surface: false, ..window },
            )
        }),
{
    lemma_audience(windows[id].label, windows[id].listeners);
}

/// A window is closed unless the first answer is to keep it open; no other window is
/// touched.
pub proof fn lemma_answer_decides_on_closing(id: WindowId, stays_open: Option<bool>)
    ensures
        forall|windows: &mut WindowsStore| #[trigger]
            call_ensures(close_answered, (id, windows, stays_open), ()) ==> {
                let before = (*windows)@;
                let after = (*final(windows))@;
                &&& stays_open == Some(true) ==> after == before
                &&& stays_open != Some(true) && before.contains_key(id) ==> after == before.insert(
                    id,
                    WindowModel { inner: None, surface: false, ..before[id] },
                )
                &&& !before.contains_key(id) ==> after == before
            },
{
}

/// The event loop ends with the code zero unless that was prevented, and then it goes on
/// as it was. Once it ends nothing makes it wait; else it waits until the message pump has
/// work, or until something happens where there is none to come.
pub proof fn lemma_answer_decides_on_the_end(prevented: bool, deadline: Deadline)
    ensures
        forall|flow: &mut ControlFlow| #[trigger]
            call_ensures(exit_answered, (flow, prevented), ()) ==> {
                &&& prevented ==> *final(flow) == *flow
                &&& !prevented ==> *final(flow) == ControlFlow::ExitWithCode(0)
            },
        forall|flow: &mut ControlFlow| #[trigger]
            call_ensures(wait_for_pump, (flow, Some(deadline)), ()) ==> {
                &&& *flow == ControlFlow::ExitWithCode(0) ==> *final(flow) == *flow
                &&& *flow != ControlFlow::ExitWithCode(0) ==> *final(flow)
                    == ControlFlow::WaitUntil(deadline)
            },
        forall|flow: &mut ControlFlow| #[trigger]
            call_ensures(wait_for_pump, (flow, None::<Deadline>), ()) ==> {
                &&& *flow == ControlFlow::ExitWithCode(0) ==> *final(flow) == *flow
                &&& *flow != ControlFlow::ExitWithCode(0) ==> *final(flow) == ControlFlow::Wait
            },
{
}

/// Every event makes the event loop wait for the message pump anew, unless it ends.
pub proof fn lemma_every_event_waits_for_the_pump<T>(
    options: BuildOptions,
    report: WindowReport,
    slots: &BrowserSlots,
    ids: &WindowIdStore,
    deadline: Option<Deadline>,
    event: LoopEvent<T>,
    step: LoopStep<T>,
)
    ensures
        forall|windows: &mut WindowsStore, flow: &mut ControlFlow| #[trigger]
            call_ensures(
                handle_event_loop::<T>,
                (options, report, windows, slots, ids, flow, deadline, event),
                step,
            ) ==> {
                &&& *flow == ControlFlow::ExitWithCode(0) ==> *final(flow) == *flow
                &&& *flow != ControlFlow::ExitWithCode(0) ==> match deadline {
                    Some(deadline) => *final(flow) == ControlFlow::WaitUntil(deadline),
                    None => *final(flow) == ControlFlow::Wait,
                }
            },
{
}

/// Once the application has learned that a window was destroyed, the window is forgotten,
/// and no other; if it was the last one, the application is asked whether the event loop
/// may end, without a code. Nothing else that a window reports makes it be forgotten.
pub proof fn lemma_last_window_asks_for_the_end<T>(
    options: BuildOptions,
    slots: &BrowserSlots,
    id: WindowId,
    event: TaoWindowEvent,
    step: LoopStep<T>,
)
    ensures
        forall|windows: &mut WindowsStore| #[trigger]
            call_ensures(
                window_event_reported::<T>,
                (options, windows, slots, id, event),
                step,
            ) ==> {
                let before = (*windows)@;
                let after = (*final(windows))@;
                &&& !(event is Destroyed) ==> after == before
                &&& event is Destroyed ==> after == before.remove(id)
                &&& event is Destroyed && before.contains_key(id) && after.dom() == Set::<
                    WindowId,
                >::empty() ==> step@ == LoopStepModel::<T> {
                    effects: seq![LoopEffectModel::AskToExit { code: None }],
                    rest: Continuation::AwaitExitAnswer,
                }
                &&& event is Destroyed && (!before.contains_key(id) || after.dom() != Set::<
                    WindowId,
                >::empty()) ==> step@ == LoopStepModel::<T> {
                    effects: Seq::empty(),
                    rest: Continuation::Done,
                }
            },
{
    assert forall|windows: Map<WindowId, WindowModel>| #[trigger]
        windows.dom() == Set::<WindowId>::empty() implies windows == Map::<
        WindowId,
        WindowModel,
    >::empty() by {
        assert(windows =~= Map::<WindowId, WindowModel>::empty());
    }
}

/// On Windows every webview of a window whose color scheme changed gets the new one, in
/// turn; elsewhere none does.
pub proof fn lemma_webviews_get_the_theme<T>(
    options: BuildOptions,
    windows: Map<WindowId, WindowModel>,
    slots: Seq<Option<i32>>,
    id: WindowId,
    theme: TaoTheme,
    at: int,
)
    requires
        windows.contains_key(id),
    ensures
        ({
            let webviews = windows[id].webviews;
            let step = event_loop::window_step::<T>(
                options,
                windows,
                slots,
                id,
                TaoWindowEvent::ThemeChanged(theme),
            );
            &&& step.rest == Continuation::Done
            &&& options.platform != Platform::Windows ==> step.effects.len() == 0
            &&& options.platform == Platform::Windows ==> step.effects.len() == webviews.len()
            &&& options.platform == Platform::Windows && 0 <= at < webviews.len()
                ==> step.effects[at] == LoopEffectModel::<T>::SetWebviewTheme {
                webview_id: webviews[at].id,
                browser: webviews[at].slot.browser(slots),
                theme: if theme == TaoTheme::Dark {
                    Theme::Dark
                } else {
                    Theme::Light
                },
            }
        }),
{
}

/// The webviews of a window that got another size are treated one by one, in turn: one that
/// renders off screen gets the size of the window, any other one its share of it, if it
/// grows with the window.
pub proof fn lemma_webviews_follow_their_window<T>(
    options: BuildOptions,
    window: TaoWindowId,
    id: WindowId,
    size: PhysicalSize<u32>,
    slots: Seq<Option<i32>>,
    first: Seq<WebviewModel>,
    second: Seq<WebviewModel>,
    webview: WebviewModel,
)
    ensures
        ({
            let done = |webviews: Seq<WebviewModel>|
                event_loop::resizes::<T>(options, window, id, size, slots, webviews);
            &&& done(first + second) == done(first) + done(second)
            &&& options.wayland_osr && webview.osr ==> done(seq![webview]) == seq![
                LoopEffectModel::<T>::ResizeOsr {
                    window,
                    webview_id: webview.id,
                    browser: webview.slot.browser(slots),
                },
            ]
            &&& !(options.wayland_osr && webview.osr) && webview.bounds is Some
                ==> done(seq![webview]) == seq![
                LoopEffectModel::<T>::AutoResize {
                    window,
                    window_id: id,
                    webview_id: webview.id,
                    size,
                    rates: webview.bounds->Some_0,
                },
            ]
            &&& !(options.wayland_osr && webview.osr) && webview.bounds is None
                ==> done(seq![webview]).len() == 0
        }),
    decreases second.len(),
{
    let one = seq![webview];
    assert(one.drop_last() =~= Seq::<WebviewModel>::empty());
    assert(one.last() == webview);
    reveal_with_fuel(event_loop::resizes, 2);
    if second.len() == 0 {
        assert(first + second =~= first);
        assert(event_loop::resizes::<T>(options, window, id, size, slots, second) =~= Seq::empty());
        assert(event_loop::resizes::<T>(options, window, id, size, slots, first) =~=
            event_loop::resizes::<T>(options, window, id, size, slots, first) + Seq::empty());
    } else {
        lemma_webviews_follow_their_window::<T>(
            options,
            window,
            id,
            size,
            slots,
            first,
            second.drop_last(),
            webview,
        );
        assert((first + second).drop_last() =~= first + second.drop_last());
        assert((first + second).last() == second.last());
        let all = event_loop::resizes::<T>(options, window, id, size, slots, first + second);
        let parts = event_loop::resizes::<T>(options, window, id, size, slots, first)
            + event_loop::resizes::<T>(options, window, id, size, slots, second);
        assert(all =~= parts);
    }
}

/// The webviews of an open window follow it to its new size; those of a closed one do not.
pub proof fn lemma_resized_windows_resize_their_webviews<T>(
    options: BuildOptions,
    windows: Map<WindowId, WindowModel>,
    slots: Seq<Option<i32>>,
    id: WindowId,
    size: PhysicalSize<u32>,
)
    requires
        windows.contains_key(id),
    ensures
        ({
            let step = event_loop::window_step::<T>(
                options,
                windows,
                slots,
                id,
                TaoWindowEvent::Resized(size),
            );
            &&& step.rest == Continuation::Done
            &&& windows[id].inner is None ==> step.effects.len() == 0
            &&& windows[id].inner matches Some(window) ==> step.effects == event_loop::resizes::<T>(
                options,
                window,
                id,
                size,
                slots,
                windows[id].webviews,
            )
        }),
{
}

/// Of the webviews of a window exactly those that render off screen get input, in turn,
/// each by its browser, if it has one.
pub proof fn lemma_osr_webviews_get_input(
    slots: Seq<Option<i32>>,
    first: Seq<WebviewModel>,
    second: Seq<WebviewModel>,
    webview: WebviewModel,
)
    ensures
        event_loop::osr_webviews(first + second) == event_loop::osr_webviews(first)
            + event_loop::osr_webviews(second),
        event_loop::osr_browsers(slots, first + second) == event_loop::osr_browsers(slots, first)
            + event_loop::osr_browsers(slots, second),
        webview.osr ==> event_loop::osr_webviews(seq![webview]) == seq![webview.id],
        !webview.osr ==> event_loop::osr_webviews(seq![webview]).len() == 0,
        webview.osr && webview.slot.browser(slots) is Some ==> event_loop::osr_browsers(
            slots,
            seq![webview],
        ) == seq![webview.slot.browser(slots)->Some_0],
        !webview.osr || webview.slot.browser(slots) is None ==> event_loop::osr_browsers(
            slots,
            seq![webview],
        ).len() == 0,
    decreases second.len(),
{
    let one = seq![webview];
    assert(one.drop_last() =~= Seq::<WebviewModel>::empty());
    assert(one.last() == webview);
    reveal_with_fuel(event_loop::osr_webviews, 2);
    reveal_with_fuel(event_loop::osr_browsers, 2);
    if webview.osr {
        assert(event_loop::osr_webviews(one) =~= seq![webview.id]);
    }
    if second.len() == 0 {
        assert(first + second =~= first);
        assert(event_loop::osr_webviews(first) + event_loop::osr_webviews(second)
            =~= event_loop::osr_webviews(first));
        assert(event_loop::osr_browsers(slots, first) + event_loop::osr_browsers(slots, second)
            =~= event_loop::osr_browsers(slots, first));
    } else {
        lemma_osr_webviews_get_input(slots, first, second.drop_last(), webview);
        assert((first + second).drop_last() =~= first + second.drop_last());
        assert((first + second).last() == second.last());
        assert(event_loop::osr_webviews(first + second) =~= event_loop::osr_webviews(first)
            + event_loop::osr_webviews(second));
        assert(event_loop::osr_browsers(slots, first + second) =~= event_loop::osr_browsers(
            slots,
            first,
        ) + event_loop::osr_browsers(slots, second));
    }
}

/// Input goes on to the browsers that render off screen, with the cursor of the first of
/// their webviews; that the cursor moved is noted by all of these webviews first. A change
/// of focus is input too. Without off-screen rendering no input goes on, and no other event
/// of a window makes any.
pub proof fn lemma_input_goes_on<T>(
    options: BuildOptions,
    windows: Map<WindowId, WindowModel>,
    slots: Seq<Option<i32>>,
    id: WindowId,
    input: InputEvent,
    focused: bool,
    x: i32,
    y: i32,
    at: int,
)
    requires
        windows.contains_key(id),
        0 <= at < windows[id].webviews.len(),
        windows[id].webviews[at].osr,
        forall|i: int| 0 <= i < at ==> !(#[trigger] windows[id].webviews[i]).osr,
    ensures
        ({
            let webviews = windows[id].webviews;
            let step = |event: TaoWindowEvent|
                event_loop::window_step::<T>(options, windows, slots, id, event);
            let on = |input: InputEvent|
                LoopEffectModel::<T>::ForwardInput {
                    browsers: event_loop::osr_browsers(slots, webviews),
                    cursor_of: Some(webviews[at].id),
                    input,
                };
            let moved = InputEvent::CursorMoved { x, y };
            &&& options.wayland_osr ==> {
                &&& step(TaoWindowEvent::Input(moved)).effects == seq![
                    LoopEffectModel::<T>::SetCursor {
                        webviews: event_loop::osr_webviews(webviews),
                        x,
                        y,
                    },
                    on(moved),
                ]
                &&& !(input is CursorMoved) ==> step(TaoWindowEvent::Input(input)).effects == seq![
                    on(input),
                ]
                &&& step(TaoWindowEvent::Focused(focused)).effects == seq![
                    on(InputEvent::Focused(focused)),
                ]
            }
            &&& !options.wayland_osr ==> {
                &&& step(TaoWindowEvent::Input(input)).effects.len() == 0
                &&& step(TaoWindowEvent::Focused(focused)).effects.len() == 0
            }
            &&& step(TaoWindowEvent::Input(input)).rest == Continuation::Done
            &&& step(TaoWindowEvent::Focused(focused)).rest == Continuation::Done
        }),
{
    lemma_first_osr(windows[id].webviews, at);
}

/// Nothing is done about a window that there is not, nor about events that concern only
/// the application.
pub proof fn lemma_nothing_more_is_done<T>(
    options: BuildOptions,
    windows: Map<WindowId, WindowModel>,
    slots: Seq<Option<i32>>,
    id: WindowId,
    event: TaoWindowEvent,
)
    requires
        !windows.contains_key(id) || event is Moved || event is ScaleFactorChanged || event is Other,
    ensures
        event_loop::window_step::<T>(options, windows, slots, id, event).effects.len() == 0,
        event_loop::window_step::<T>(options, windows, slots, id, event).rest
            == Continuation::Done,
{
}

/// What a message of the application makes be done is done as it stands, in the same order.
pub proof fn lemma_messages_are_carried_out<T>(
    options: BuildOptions,
    report: WindowReport,
    windows: Map<WindowId, WindowModel>,
    slots: Seq<Option<i32>>,
    ids: Map<TaoWindowId, WindowId>,
    message: Message<T>,
    at: int,
)
    requires
        !(message is RequestExit),
        !(message is UserEvent),
        !(message matches Message::Window(_, WindowMessage::Close)),
        !(message matches Message::Window(_, WindowMessage::Destroy)),
        !(message matches Message::Webview(_, _, WebviewMessage::WebviewEvent(_))),
        !(message matches Message::Webview(_, _, WebviewMessage::SynthesizedWindowEvent(_))),
    ensures
        ({
            let event = LoopEvent::UserEvent(message);
            let step = event_loop::event_step(options, report, windows, slots, ids, event);
            let effects = user_messages::effects_of(
                options.platform,
                report,
                windows,
                slots,
                message,
            );
            &&& step.rest == Continuation::Done
            &&& step.effects.len() == effects.len()
            &&& 0 <= at < effects.len() ==> step.effects[at] == LoopEffectModel::<T>::Message(
                effects[at],
            )
            &&& event_loop::windows_after_event(options, windows, ids, event)
                == user_messages::windows_after(options.platform, windows, message)
        }),
{
}

/// A window that is there is asked whether it may close, and then its answer is waited for. That
/// it closes lets go of the window of the window system.
pub proof fn lemma_windows_are_asked_before_they_close<T>(
    id: WindowId,
    windows: &WindowsStore,
    step: LoopStep<T>,
)
    requires
        call_ensures(event_loop::on_close_requested::<T>, (id, windows), step),
    ensures
        !windows@.contains_key(id) ==> step@.effects.len() == 0 && step@.rest is Done,
        windows@.contains_key(id) ==> {
            &&& step@.effects.len() == 1
            &&& step@.effects[0] is AskToClose
            &&& step@.rest == Continuation::AwaitCloseAnswer(id)
        },
        forall|store: &mut WindowsStore|
            (*store)@.contains_key(id) && #[trigger] call_ensures(
                event_loop::on_window_close,
                (id, store),
                (),
            ) ==> {
                &&& (*final(store))@.contains_key(id)
                &&& (*final(store))@[id].inner is None
                &&& (*final(store))@[id].webviews == (*store)@[id].webviews
            },
{
}

} // verus!
