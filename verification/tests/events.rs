use tauri_runtime_cef::browser_slot::{BrowserSlot, BrowserSlots};
use tauri_runtime_cef::pump::Deadline;
use tauri_runtime_cef::runtime::color::Color;
use tauri_runtime_cef::runtime::conversions::{Error, TaoTheme, Theme};
use tauri_runtime_cef::runtime::dpi::{
    Float32, Float64, PhysicalPosition, PhysicalRect, PhysicalSize, Position, Rect, Size,
};
use tauri_runtime_cef::runtime::event_loop::{
    close_answered, exit_answered, handle_event_loop, wait_for_pump, window_event_reported,
    FOCUSED_WEBVIEW_MARKER,
};
use tauri_runtime_cef::runtime::follow_ups::{
    raw_window_built, set_webview_bounds, updated_rates, url_asked, RawWindow,
};
use tauri_runtime_cef::runtime::input::InputEvent;
use tauri_runtime_cef::runtime::loop_events::{
    Continuation, LoopEffect, LoopEvent, LoopStep, RunEvent, TaoWindowEvent,
};
use tauri_runtime_cef::runtime::messages::{
    Action, Effect, Message, RateUpdate, ScriptTrace, SynthesizedWindowEvent, WebviewEvent,
    WebviewMessage, WindowAction, WindowEvent, WindowMessage, WindowQuery, WindowReport,
};
use tauri_runtime_cef::runtime::platform::{BuildOptions, Platform};
use tauri_runtime_cef::runtime::store::{
    Listeners, WebviewBounds, WebviewWrapper, WindowCell, WindowCells, WindowIdStore,
    WindowWrapper, WindowsStore,
};
use tauri_runtime_cef::runtime::tracing_spans::{ActiveTraceSpanStore, ActiveTracingSpan};
use tauri_runtime_cef::runtime::user_messages::handle_user_message;
use tauri_runtime_cef::tao::ControlFlow;

const REPORT: WindowReport = WindowReport {
    is_decorated: true,
    is_resizable: true,
    has_undecorated_shadow: false,
};

fn options(platform: Platform, wayland_osr: bool) -> BuildOptions {
    BuildOptions {
        platform,
        wayland_osr,
        unstable: false,
        new_window_opener_optional: false,
        macos_private_api: false,
        tracing: false,
    }
}

fn rates() -> WebviewBounds {
    let one = Float32 { bits: 1f32.to_bits() };
    let zero = Float32 { bits: 0 };
    WebviewBounds { x_rate: zero, y_rate: zero, width_rate: one, height_rate: one }
}

fn webview(
    browsers: &mut BrowserSlots,
    id: u32,
    browser: Option<i32>,
    osr: bool,
) -> WebviewWrapper {
    let browser_slot = BrowserSlot::new(browsers);
    browser_slot.set(browsers, browser);
    WebviewWrapper {
        label: format!("webview{id}"),
        id,
        browser_slot,
        webview_event_listeners: Listeners::new(),
        background_color: Color { r: 0, g: 0, b: 0, a: 255 },
        rect: PhysicalRect {
            position: PhysicalPosition { x: 0, y: 0 },
            size: PhysicalSize { width: 10, height: 10 },
        }
        .as_rect(),
        bounds: Some(rates()),
        osr,
    }
}

fn window(label: &str, inner: u64, webviews: Vec<WebviewWrapper>) -> WindowWrapper {
    WindowWrapper {
        label: label.to_string(),
        inner: Some(inner),
        has_children: false,
        webviews,
        window_event_listeners: Listeners::new(),
        background_color: None,
        is_window_transparent: false,
        surface: false,
        focused_webview: None,
        osr_surface: false,
    }
}

/// Windows with what is kept beside them.
struct Desktop {
    windows: WindowsStore,
    browsers: BrowserSlots,
    ids: WindowIdStore,
}

impl Desktop {
    fn handle(&mut self, options: BuildOptions, event: LoopEvent<u8>) -> LoopStep<u8> {
        let mut flow = ControlFlow::Wait;
        handle_event_loop(
            options,
            REPORT,
            &mut self.windows,
            &self.browsers,
            &self.ids,
            &mut flow,
            None,
            event,
        )
    }

    fn reported(&mut self, options: BuildOptions, id: u32, event: TaoWindowEvent) -> LoopStep<u8> {
        window_event_reported(options, &mut self.windows, &self.browsers, id, event)
    }

    fn send(&mut self, platform: Platform, message: Message<u8>) -> Vec<Effect> {
        handle_user_message(platform, REPORT, &mut self.windows, &self.browsers, message)
    }

    fn webview(&mut self, id: u32, browser: Option<i32>, osr: bool) -> WebviewWrapper {
        webview(&mut self.browsers, id, browser, osr)
    }
}

/// Window 1 is 101 for the window system and holds webview 11; window 2 is 102 and empty.
fn desktop() -> Desktop {
    let mut browsers = BrowserSlots::new();
    let mut windows = WindowsStore::new();
    let inside = vec![webview(&mut browsers, 11, Some(7), false)];
    windows.insert(1, window("first", 101, inside));
    windows.insert(2, window("second", 102, Vec::new()));
    let mut ids = WindowIdStore::new();
    ids.insert(101, 1);
    ids.insert(102, 2);
    Desktop { windows, browsers, ids }
}

fn linux() -> BuildOptions {
    options(Platform::Linux, false)
}

#[test]
fn the_event_loop_waits_for_the_pump_until_it_ends() {
    let mut desktop = desktop();
    let mut flow = ControlFlow::Wait;
    let deadline = Some(Deadline { nanos: 5 });
    let step: LoopStep<u8> = handle_event_loop(
        linux(),
        REPORT,
        &mut desktop.windows,
        &desktop.browsers,
        &desktop.ids,
        &mut flow,
        deadline,
        LoopEvent::Init,
    );
    assert_eq!(flow, ControlFlow::WaitUntil(Deadline { nanos: 5 }));
    assert!(matches!(step.effects[0], LoopEffect::Run(RunEvent::Ready)));
    wait_for_pump(&mut flow, None);
    assert_eq!(flow, ControlFlow::Wait);
    exit_answered(&mut flow, true);
    assert_eq!(flow, ControlFlow::Wait);
    exit_answered(&mut flow, false);
    assert_eq!(flow, ControlFlow::ExitWithCode(0));
    wait_for_pump(&mut flow, deadline);
    assert_eq!(flow, ControlFlow::ExitWithCode(0));
    for other in [ControlFlow::Poll, ControlFlow::ExitWithCode(1)] {
        flow = other;
        wait_for_pump(&mut flow, None);
        assert_eq!(flow, ControlFlow::Wait);
    }
}

#[test]
fn the_application_learns_of_the_event_loop() {
    let mut desktop = desktop();
    let mut run = |event: LoopEvent<u8>| desktop.handle(linux(), event);
    assert!(matches!(
        run(LoopEvent::Poll).effects[0],
        LoopEffect::Run(RunEvent::Resumed)
    ));
    assert!(matches!(
        run(LoopEvent::LoopDestroyed).effects[0],
        LoopEffect::Run(RunEvent::Exit)
    ));
    assert!(matches!(
        run(LoopEvent::UserEvent(Message::UserEvent(9))).effects[0],
        LoopEffect::Run(RunEvent::UserEvent(9))
    ));
    let step = run(LoopEvent::MainEventsCleared);
    assert!(matches!(step.effects[0], LoopEffect::TickPump));
    assert!(matches!(step.effects[1], LoopEffect::Run(RunEvent::MainEventsCleared)));
    assert!(matches!(step.rest, Continuation::MainEventsCleared));
    assert!(run(LoopEvent::Opened { urls: Vec::new() }).effects.is_empty());
    assert!(run(LoopEvent::Reopen { has_visible_windows: true }).effects.is_empty());
    assert!(run(LoopEvent::Other).effects.is_empty());
    assert!(run(LoopEvent::RedrawEventsCleared).effects.is_empty());
    let traced = BuildOptions { tracing: true, ..linux() };
    assert!(matches!(
        desktop.handle(traced, LoopEvent::RedrawEventsCleared).effects[0],
        LoopEffect::EndWindowDraw
    ));
}

#[test]
fn only_apple_systems_open_urls_this_way() {
    let mut desktop = desktop();
    let opened = || LoopEvent::Opened { urls: vec!["https://a".to_string()] };
    for (platform, count) in
        [(Platform::MacOs, 1), (Platform::Ios, 1), (Platform::Windows, 0)]
    {
        let step = desktop.handle(options(platform, false), opened());
        assert_eq!(step.effects.len(), count);
    }
    let reopen = LoopEvent::Reopen { has_visible_windows: true };
    let step = desktop.handle(options(Platform::MacOs, false), reopen);
    assert_eq!(step.effects.len(), 1);
}

#[test]
fn a_request_to_exit_is_asked_about() {
    let mut desktop = desktop();
    let request = LoopEvent::UserEvent(Message::RequestExit(3));
    let step = desktop.handle(linux(), request);
    assert!(matches!(step.effects[0], LoopEffect::AskToExit { code: Some(3) }));
    assert!(matches!(step.rest, Continuation::AwaitExitAnswer));
}

#[test]
fn the_last_window_that_is_destroyed_ends_the_loop() {
    let mut desktop = desktop();
    let step = desktop.reported(linux(), 1, TaoWindowEvent::Destroyed);
    assert!(step.effects.is_empty());
    let step = desktop.reported(linux(), 1, TaoWindowEvent::Destroyed);
    assert!(step.effects.is_empty());
    let step = desktop.reported(linux(), 2, TaoWindowEvent::Destroyed);
    assert!(matches!(step.effects[0], LoopEffect::AskToExit { code: None }));
    assert!(desktop.windows.is_empty());
}

#[test]
fn a_window_closes_unless_someone_keeps_it_open() {
    let mut desktop = desktop();
    let message = Message::Window(1, WindowMessage::AddEventListener(0, 77));
    let _ = desktop.handle(linux(), LoopEvent::UserEvent(message));
    let close = LoopEvent::UserEvent(Message::Window(1, WindowMessage::Close));
    let step = desktop.handle(linux(), close);
    match &step.effects[0] {
        LoopEffect::AskToClose(audience) => {
            assert_eq!(audience.label, "first");
            assert_eq!(audience.listeners, vec![77]);
        }
        _ => unreachable!(),
    }
    assert!(matches!(step.rest, Continuation::AwaitCloseAnswer(1)));
    close_answered(1, &mut desktop.windows, Some(true));
    assert_eq!(desktop.windows.get(1).unwrap().inner, Some(101));
    close_answered(1, &mut desktop.windows, Some(false));
    assert_eq!(desktop.windows.get(1).unwrap().inner, None);
    close_answered(2, &mut desktop.windows, None);
    assert_eq!(desktop.windows.get(2).unwrap().inner, None);
}

#[test]
fn a_window_is_destroyed_without_asking() {
    let mut desktop = desktop();
    let destroy = LoopEvent::UserEvent(Message::Window(1, WindowMessage::Destroy));
    let step = desktop.handle(linux(), destroy);
    assert!(step.effects.is_empty());
    assert_eq!(desktop.windows.get(1).unwrap().inner, None);
}

#[test]
fn events_of_windows_are_reported_and_handled() {
    let mut desktop = desktop();
    let moved = LoopEvent::WindowEvent {
        window: 101,
        event: TaoWindowEvent::Moved(PhysicalPosition { x: 3, y: 4 }),
    };
    let step = desktop.handle(linux(), moved);
    match &step.effects[0] {
        LoopEffect::NotifyWindow(audience, WindowEvent::Moved(position)) => {
            assert_eq!(audience.label, "first");
            assert_eq!((position.x, position.y), (3, 4));
        }
        _ => unreachable!(),
    }
    assert!(matches!(step.rest, Continuation::WindowEvent(1, TaoWindowEvent::Moved(_))));
    let unknown = LoopEvent::WindowEvent { window: 5, event: TaoWindowEvent::Destroyed };
    let step = desktop.handle(linux(), unknown);
    assert!(step.effects.is_empty());
    assert!(matches!(step.rest, Continuation::Done));
}

#[test]
fn a_new_size_is_asked_of_the_window() {
    let mut desktop = desktop();
    let size = PhysicalSize { width: 9, height: 9 };
    let resized = || LoopEvent::WindowEvent {
        window: 101,
        event: TaoWindowEvent::Resized(size),
    };
    let step = desktop.handle(linux(), resized());
    assert!(matches!(
        step.effects[0],
        LoopEffect::NotifyResized { window: 101, of_webview: false, .. }
    ));
    let step = desktop.handle(options(Platform::MacOs, false), resized());
    assert!(matches!(step.effects[0], LoopEffect::NotifyResized { of_webview: true, .. }));
    let step = desktop.reported(linux(), 1, TaoWindowEvent::Resized(size));
    assert!(matches!(
        step.effects[0],
        LoopEffect::AutoResize {
            window: 101,
            window_id: 1,
            webview_id: 11,
            size: PhysicalSize { width: 9, height: 9 },
            ..
        }
    ));
}

#[test]
fn themes_reach_the_webviews_on_windows() {
    let mut desktop = desktop();
    let changed = || TaoWindowEvent::ThemeChanged(TaoTheme::Dark);
    let on = |platform: Platform| options(platform, false);
    let event = LoopEvent::WindowEvent { window: 101, event: changed() };
    let step = desktop.handle(on(Platform::Windows), event);
    assert!(matches!(
        step.effects[0],
        LoopEffect::NotifyWindow(_, WindowEvent::ThemeChanged(Theme::Dark))
    ));
    let step = desktop.reported(on(Platform::Windows), 1, changed());
    assert!(matches!(
        step.effects[0],
        LoopEffect::SetWebviewTheme { webview_id: 11, browser: Some(7), theme: Theme::Dark }
    ));
    let step = desktop.reported(linux(), 1, changed());
    assert!(step.effects.is_empty());
}

#[test]
fn focus_is_reported_once_on_windows() {
    let mut desktop = desktop();
    let focus = |desktop: &mut Desktop, focused: bool| {
        let event = LoopEvent::WindowEvent {
            window: 102,
            event: TaoWindowEvent::Focused(focused),
        };
        desktop.handle(options(Platform::Windows, false), event).effects.len()
    };
    // A window with a single webview leaves the focus to it.
    assert_eq!(focus(&mut desktop, true), 0);
    let child = desktop.webview(12, None, false);
    desktop.windows.add_child_webview(2, child);
    assert_eq!(focus(&mut desktop, true), 1);
    assert_eq!(
        desktop.windows.get(2).unwrap().focused_webview.as_deref(),
        Some(FOCUSED_WEBVIEW_MARKER)
    );
    assert_eq!(focus(&mut desktop, false), 1);
    assert_eq!(desktop.windows.get(2).unwrap().focused_webview, None);
    desktop.windows.set_focused_webview(2, Some("webview12".to_string()));
    assert_eq!(focus(&mut desktop, false), 0);
}

#[test]
fn windows_are_drawn_where_the_runtime_draws() {
    let mut desktop = desktop();
    let mut transparent = window("third", 103, Vec::new());
    transparent.is_window_transparent = true;
    transparent.surface = true;
    transparent.background_color = Some(Color { r: 1, g: 2, b: 3, a: 4 });
    desktop.windows.insert(1, transparent);
    let webviews = vec![desktop.webview(21, None, false), desktop.webview(22, None, true)];
    let mut rendered = window("fourth", 104, webviews);
    rendered.osr_surface = true;
    desktop.windows.insert(2, rendered);
    let redraw = |desktop: &mut Desktop, options: BuildOptions, window: u64| {
        desktop.handle(options, LoopEvent::RedrawRequested(window)).effects
    };
    assert!(matches!(
        redraw(&mut desktop, options(Platform::Windows, false), 101)[0],
        LoopEffect::DrawSurface { window: 103, background_color: Some(_) }
    ));
    assert!(redraw(&mut desktop, linux(), 101).is_empty());
    assert!(matches!(
        redraw(&mut desktop, options(Platform::Linux, true), 102)[0],
        LoopEffect::PresentFrame { window_id: 2, webview_id: 22 }
    ));
    assert!(redraw(&mut desktop, linux(), 102).is_empty());
}

#[test]
fn input_reaches_the_browsers_that_render_off_screen() {
    let mut desktop = desktop();
    let webviews = vec![
        desktop.webview(21, Some(1), false),
        desktop.webview(22, Some(2), true),
        desktop.webview(23, None, true),
    ];
    desktop.windows.insert(1, window("osr", 101, webviews));
    let osr = options(Platform::Linux, true);
    let moved = TaoWindowEvent::Input(InputEvent::CursorMoved { x: 3, y: 4 });
    let step = desktop.reported(osr, 1, moved);
    match &step.effects[0] {
        LoopEffect::SetCursor { webviews, x, y } => {
            assert_eq!((webviews.as_slice(), *x, *y), (&[22u32, 23][..], 3, 4))
        }
        _ => unreachable!(),
    }
    match &step.effects[1] {
        LoopEffect::ForwardInput { browsers, cursor_of, .. } => {
            assert_eq!((browsers.as_slice(), *cursor_of), (&[2][..], Some(22)))
        }
        _ => unreachable!(),
    }
    let step = desktop.reported(osr, 1, TaoWindowEvent::Focused(true));
    assert_eq!(step.effects.len(), 1);
    let step = desktop.reported(linux(), 1, TaoWindowEvent::Focused(true));
    assert!(step.effects.is_empty());
    let size = TaoWindowEvent::Resized(PhysicalSize { width: 1, height: 1 });
    let step = desktop.reported(osr, 1, size);
    assert!(matches!(step.effects[0], LoopEffect::AutoResize { webview_id: 21, .. }));
    assert!(matches!(
        step.effects[1],
        LoopEffect::ResizeOsr { window: 101, webview_id: 22, browser: Some(2) }
    ));
}

#[test]
fn events_of_webviews_reach_their_listeners() {
    let mut desktop = desktop();
    let listen = Message::Webview(1, 11, WebviewMessage::AddEventListener(0, 55));
    let _ = desktop.handle(linux(), LoopEvent::UserEvent(listen));
    let drop = tauri_runtime_cef::runtime::messages::DragDropEvent::Enter {
        paths: Vec::new(),
        x: Float64 { bits: 0 },
        y: Float64 { bits: 0 },
    };
    let event = Message::Webview(1, 11, WebviewMessage::WebviewEvent(WebviewEvent::DragDrop(drop)));
    let step = desktop.handle(linux(), LoopEvent::UserEvent(event));
    match &step.effects[0] {
        LoopEffect::NotifyWebview(audience, _) => {
            assert_eq!(audience.label, "webview11");
            assert_eq!(audience.listeners, vec![55]);
        }
        _ => unreachable!(),
    }
    let focused = SynthesizedWindowEvent::Focused(true);
    let event = Message::Webview(1, 11, WebviewMessage::SynthesizedWindowEvent(focused));
    let step = desktop.handle(linux(), LoopEvent::UserEvent(event));
    assert!(matches!(
        step.effects[0],
        LoopEffect::NotifyWindow(_, WindowEvent::Focused(true))
    ));
}

#[test]
fn messages_to_windows_tell_and_ask_them() {
    let mut desktop = desktop();
    let mut tell = |platform: Platform, id: u32, message: WindowMessage| {
        desktop.send(platform, Message::Window(id, message))
    };
    assert!(matches!(
        tell(Platform::Linux, 1, WindowMessage::Maximize)[0],
        Effect::Do(Action::Window(101, WindowAction::SetMaximized(true)))
    ));
    assert!(matches!(
        tell(Platform::Linux, 1, WindowMessage::Title(8))[0],
        Effect::Do(Action::ReplyWindow { reply: 8, window: 101, query: WindowQuery::Title })
    ));
    assert!(matches!(
        tell(Platform::Ios, 1, WindowMessage::SetBadgeCount(Some(i64::MAX), None))[0],
        Effect::Do(Action::Window(101, WindowAction::SetBadgeNumber(i32::MAX)))
    ));
    assert!(tell(Platform::Linux, 9, WindowMessage::Maximize).is_empty());
}

#[test]
fn closed_windows_get_no_messages() {
    let mut desktop = desktop();
    desktop.windows.close(1);
    let message = Message::Window(1, WindowMessage::Maximize);
    assert!(desktop.send(Platform::Linux, message).is_empty());
    let message = Message::Webview(1, 11, WebviewMessage::Reload);
    assert!(desktop.send(Platform::Linux, message).is_empty());
    let message = Message::Window(1, WindowMessage::Close);
    assert!(desktop.send(Platform::Linux, message).is_empty());
}

#[test]
fn a_webview_moves_to_another_window() {
    let mut desktop = desktop();
    let reparent = |desktop: &mut Desktop, from: u32, to: u32| {
        let message = Message::Webview(from, 11, WebviewMessage::Reparent(to, 4));
        match desktop.send(Platform::Linux, message).pop().unwrap() {
            Effect::Do(Action::ReplyResult(4, result)) => result,
            _ => unreachable!(),
        }
    };
    assert!(reparent(&mut desktop, 1, 2).is_ok());
    assert!(desktop.windows.get(1).unwrap().webviews.is_empty());
    assert_eq!(desktop.windows.get(2).unwrap().webviews[0].id, 11);
    assert!(matches!(reparent(&mut desktop, 1, 2), Err(Error::FailedToSendMessage)));
    // A window that does not exist swallows the webview.
    assert!(matches!(reparent(&mut desktop, 2, 9), Err(Error::FailedToSendMessage)));
    assert!(desktop.windows.get(2).unwrap().webviews.is_empty());
}

#[test]
fn messages_to_webviews_change_and_ask_them() {
    let mut desktop = desktop();
    let mut tell = |message: WebviewMessage| {
        desktop.send(Platform::Linux, Message::Webview(1, 11, message))
    };
    assert!(matches!(
        tell(WebviewMessage::Reload)[0],
        Effect::Calls { browser: Some(7), .. }
    ));
    let trace = ScriptTrace { reply: 4, span: 6 };
    assert!(matches!(
        tell(WebviewMessage::EvaluateScript("1".to_string(), Some(trace)))[0],
        Effect::TracedCalls { trace: ScriptTrace { reply: 4, span: 6 }, browser: Some(7), .. }
    ));
    assert!(matches!(
        tell(WebviewMessage::EvaluateScript("1".to_string(), None))[0],
        Effect::Calls { browser: Some(7), .. }
    ));
    assert!(matches!(
        tell(WebviewMessage::IsDevToolsOpen(5))[0],
        Effect::ReplyOutcome { reply: 5, browser: Some(7), .. }
    ));
    assert!(matches!(
        tell(WebviewMessage::SetSize(Size::Physical(PhysicalSize { width: 1, height: 1 })))[0],
        Effect::Do(Action::SetBounds { rates: RateUpdate::SizeOnly, .. })
    ));
    assert!(tell(WebviewMessage::SetAutoResize(false)).is_empty());
    assert!(matches!(
        tell(WebviewMessage::SetPosition(Position::Physical(PhysicalPosition { x: 1, y: 1 })))[0],
        Effect::Do(Action::SetBounds { rates: RateUpdate::Keep, .. })
    ));
    assert!(matches!(
        tell(WebviewMessage::WithWebview(6))[0],
        Effect::Do(Action::WithWebview { task: 6, browser: 7 })
    ));
    let _ = tell(WebviewMessage::SetBackgroundColor(None));
    let _ = tell(WebviewMessage::Close);
    assert!(desktop.windows.get(1).unwrap().webviews.is_empty());
}

#[test]
fn a_webview_is_asked_for_the_url_of_its_page() {
    let mut desktop = desktop();
    let message = Message::Webview(1, 11, WebviewMessage::Url(5));
    assert!(matches!(
        desktop.send(Platform::Linux, message)[0],
        Effect::Do(Action::ReplyUrl { reply: 5, window_id: 1, webview_id: 11, browser: Some(7) })
    ));
    let ask = |desktop: &Desktop, webview_id: u32, url: Option<&str>| {
        let url = url.map(str::to_string);
        url_asked(&desktop.windows, &desktop.browsers, 1, webview_id, url)
    };
    assert!(matches!(ask(&desktop, 11, Some("no url")), Ok(url) if url == "no url"));
    assert!(matches!(ask(&desktop, 11, None), Err(Error::FailedToSendMessage)));
    assert!(matches!(ask(&desktop, 12, Some("https://a")), Err(Error::FailedToSendMessage)));
    desktop.windows.set_webview_browser(&mut desktop.browsers, 1, 11, None);
    assert!(matches!(ask(&desktop, 11, Some("https://a")), Err(Error::FailedToSendMessage)));
}

#[test]
fn the_browser_of_a_webview_is_set_and_taken() {
    let mut desktop = desktop();
    let browser = |desktop: &mut Desktop| {
        let message = Message::Webview(1, 11, WebviewMessage::Reload);
        match desktop.send(Platform::Linux, message).pop().unwrap() {
            Effect::Calls { browser, .. } => browser,
            _ => unreachable!(),
        }
    };
    desktop.windows.set_webview_browser(&mut desktop.browsers, 1, 11, Some(8));
    assert_eq!(browser(&mut desktop), Some(8));
    desktop.windows.set_webview_browser(&mut desktop.browsers, 2, 11, None);
    assert_eq!(browser(&mut desktop), Some(8));
    desktop.windows.set_webview_browser(&mut desktop.browsers, 1, 11, None);
    assert_eq!(browser(&mut desktop), None);
}

#[test]
fn tasks_and_requests_for_windows_are_carried_out() {
    let mut desktop = desktop();
    assert!(matches!(
        desktop.send(Platform::Linux, Message::Task(3))[0],
        Effect::Do(Action::RunTask(3))
    ));
    let created = WindowCell::new(&mut WindowCells::new(), 1);
    assert!(matches!(
        desktop.send(Platform::Linux, Message::CreateWebview(1, 8, created, 3))[0],
        Effect::Do(Action::CreateWebview {
            window: 101,
            window_id: 1,
            webview_id: 8,
            cell,
            task: 3,
        })
            if cell == created
    ));
    assert!(desktop.send(Platform::Linux, Message::CreateWebview(9, 8, created, 3)).is_empty());
    assert!(matches!(
        desktop.send(Platform::Linux, Message::CreateWindow(9, Some(8), 3))[0],
        Effect::Do(Action::CreateWindow { window_id: 9, webview_id: Some(8), task: 3 })
    ));
}

#[test]
fn bounds_are_kept_within_the_window_and_noted() {
    let mut desktop = desktop();
    let window = PhysicalSize { width: 100, height: 100 };
    let bounds = PhysicalRect {
        position: PhysicalPosition { x: 90, y: 0 },
        size: PhysicalSize { width: 50, height: 50 },
    };
    let fresh = WebviewBounds { x_rate: Float32 { bits: 1 }, ..rates() };
    let set = set_webview_bounds(
        &mut desktop.windows,
        &desktop.browsers,
        1,
        11,
        bounds,
        window,
        fresh,
        RateUpdate::PositionAndSize,
    )
    .unwrap();
    assert_eq!(set.browser, Some(7));
    assert_eq!((set.rect.size.width, set.rect.size.height), (10, 50));
    let noted = &desktop.windows.get(1).unwrap().webviews[0];
    assert_eq!(noted.bounds, Some(fresh));
    assert_eq!(
        noted.rect,
        Rect {
            position: Position::Physical(PhysicalPosition { x: 90, y: 0 }),
            size: Size::Physical(PhysicalSize { width: 10, height: 50 }),
        }
    );
    let missing = set_webview_bounds(
        &mut desktop.windows,
        &desktop.browsers,
        1,
        99,
        bounds,
        window,
        fresh,
        RateUpdate::Keep,
    );
    assert!(missing.is_none());
}

#[test]
fn only_the_measured_shares_change() {
    let one = Float32 { bits: 9 };
    let fresh = WebviewBounds { x_rate: one, y_rate: one, width_rate: one, height_rate: one };
    let old = rates();
    assert_eq!(updated_rates(Some(old), fresh, RateUpdate::Keep), Some(old));
    assert_eq!(updated_rates(Some(old), fresh, RateUpdate::PositionAndSize), Some(fresh));
    let size = updated_rates(Some(old), fresh, RateUpdate::SizeOnly).unwrap();
    assert_eq!((size.x_rate, size.width_rate), (old.x_rate, one));
    let position = updated_rates(Some(old), fresh, RateUpdate::PositionOnly).unwrap();
    assert_eq!((position.x_rate, position.width_rate), (one, old.width_rate));
    assert_eq!(updated_rates(None, fresh, RateUpdate::PositionAndSize), None);
}

#[test]
fn raw_windows_are_taken_over() {
    let mut desktop = desktop();
    let raw = RawWindow {
        window: 200,
        label: "raw".to_string(),
        background_color: None,
        transparent: true,
        surface: true,
    };
    let (windows, ids) = (&mut desktop.windows, &mut desktop.ids);
    assert!(raw_window_built(Platform::Windows, windows, ids, 5, Some(raw)).is_ok());
    assert_eq!(desktop.ids.get(&200), Some(5));
    assert!(desktop.windows.get(5).unwrap().surface);
    assert!(matches!(
        raw_window_built(Platform::Linux, &mut desktop.windows, &mut desktop.ids, 6, None),
        Err(Error::CreateWindow)
    ));
    assert!(desktop.windows.get(6).is_none());
}

#[test]
fn listeners_replace_those_with_their_number() {
    let mut listeners = Listeners::new();
    listeners.insert(1, 10);
    listeners.insert(2, 20);
    listeners.insert(1, 11);
    assert_eq!(listeners.values(), vec![11, 20]);
}

#[test]
fn spans_of_drawing_end() {
    let mut spans = ActiveTraceSpanStore::new();
    spans.push(ActiveTracingSpan::WindowDraw { id: 1, span: 2 });
    spans.remove_window_draw();
    assert_eq!(format!("{spans:?}"), format!("{:?}", ActiveTraceSpanStore::new()));
}
