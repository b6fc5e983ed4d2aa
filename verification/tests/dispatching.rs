use tauri_runtime_cef::browser_slot::{BrowserSlot, BrowserSlots};
use tauri_runtime_cef::client::RuntimeClientBuilder;
use tauri_runtime_cef::runtime::color::Color;
use tauri_runtime_cef::runtime::context::{
    received, send_user_message, Caller, Context,
};
use tauri_runtime_cef::runtime::conversions::{Error, Icon, Theme};
use tauri_runtime_cef::runtime::dpi::{PhysicalPosition, PhysicalRect, PhysicalSize};
use tauri_runtime_cef::runtime::handle::{iteration_flow, EventProxy, PluginRound, Wry, WryHandle};
use tauri_runtime_cef::runtime::loop_events::LoopEvent;
use tauri_runtime_cef::runtime::messages::{
    Action, Effect, Message, ScriptTrace, WebviewMessage, WindowAction, WindowMessage, WindowReport,
};
use tauri_runtime_cef::runtime::platform::{BuildOptions, Platform};
use tauri_runtime_cef::runtime::store::{Listeners, WebviewWrapper, WindowWrapper};
use tauri_runtime_cef::runtime::webview_dispatcher::{script_answered, WryWebviewDispatcher};
use tauri_runtime_cef::runtime::window_dispatcher::WryWindowDispatcher;
use tauri_runtime_cef::tao::ControlFlow;

const MAIN: u64 = 1;

fn caller(thread: u64) -> Caller {
    Caller {
        thread,
        report: WindowReport {
            is_decorated: true,
            is_resizable: true,
            has_undecorated_shadow: false,
        },
    }
}

fn options() -> BuildOptions {
    options_on(Platform::Linux)
}

fn options_on(platform: Platform) -> BuildOptions {
    BuildOptions {
        platform,
        wayland_osr: false,
        unstable: false,
        new_window_opener_optional: false,
        macos_private_api: false,
        tracing: false,
    }
}

fn window(inner: Option<u64>) -> WindowWrapper {
    WindowWrapper {
        label: "main".to_string(),
        inner,
        has_children: false,
        webviews: Vec::new(),
        window_event_listeners: Listeners::new(),
        background_color: None,
        is_window_transparent: false,
        surface: false,
        focused_webview: None,
        osr_surface: false,
    }
}

fn webview(id: u32, browsers: &mut BrowserSlots) -> WebviewWrapper {
    WebviewWrapper {
        label: "webview".to_string(),
        id,
        browser_slot: BrowserSlot::new(browsers),
        webview_event_listeners: Listeners::new(),
        background_color: Color { r: 0, g: 0, b: 0, a: 0 },
        rect: PhysicalRect {
            position: PhysicalPosition { x: 0, y: 0 },
            size: PhysicalSize { width: 1, height: 1 },
        }
        .as_rect(),
        bounds: None,
        osr: false,
    }
}

/// A context with window 0, which is 100 for the window system.
fn context() -> Context<u8> {
    context_on(Platform::Linux)
}

fn context_on(platform: Platform) -> Context<u8> {
    let mut context = Context::new(options_on(platform), MAIN);
    let detached = context.begin_window("main".to_string(), None);
    assert_eq!(detached.id, 0);
    context.window_id_map.insert(100, 0);
    context.window_ready(detached, Ok(window(Some(100)))).unwrap();
    context
}

#[test]
fn the_main_thread_handles_its_messages_at_once() {
    let mut context = context();
    let dispatcher = WryWindowDispatcher { window_id: 0 };
    let effects = dispatcher.maximize(&mut context, caller(MAIN)).unwrap();
    assert!(matches!(
        effects[0],
        Effect::Do(Action::Window(100, WindowAction::SetMaximized(true)))
    ));
    assert!(context.proxy.sent.is_empty());
    assert!(context.run_threaded(MAIN).is_some());
    assert!(context.run_threaded(2).is_none());
}

#[test]
fn other_threads_hand_their_messages_to_the_event_loop() {
    let mut context = context();
    let dispatcher = WryWindowDispatcher { window_id: 0 };
    let effects = dispatcher.set_title(&mut context, caller(2), "title".to_string()).unwrap();
    assert!(effects.is_empty());
    assert!(matches!(
        &context.proxy.sent[0],
        Message::Window(0, WindowMessage::SetTitle(title)) if title == "title"
    ));
    context.proxy.closed = true;
    assert!(matches!(
        dispatcher.minimize(&mut context, caller(2)),
        Err(Error::FailedToSendMessage)
    ));
    assert_eq!(context.proxy.sent.len(), 1);
}

#[test]
fn closing_always_goes_to_the_event_loop() {
    let mut context = context();
    let dispatcher = WryWindowDispatcher { window_id: 0 };
    assert!(dispatcher.close(&mut context).unwrap().is_empty());
    assert!(dispatcher.destroy(&mut context).unwrap().is_empty());
    assert!(matches!(context.proxy.sent[0], Message::Window(0, WindowMessage::Close)));
    assert!(matches!(context.proxy.sent[1], Message::Window(0, WindowMessage::Destroy)));
    assert_eq!(context.main_thread.windows.get(0).unwrap().inner, Some(100));
}

#[test]
fn listeners_get_identifiers_of_their_own() {
    let mut context = context();
    let dispatcher = WryWindowDispatcher { window_id: 0 };
    assert_eq!(dispatcher.on_window_event(&mut context, 7), 0);
    assert_eq!(dispatcher.on_window_event(&mut context, 8), 1);
    let webview = WryWebviewDispatcher { window: context.note_window(0), webview_id: 3 };
    assert_eq!(webview.on_webview_event(&mut context, 9), 0);
    assert!(matches!(
        context.proxy.sent[1],
        Message::Window(0, WindowMessage::AddEventListener(1, 8))
    ));
    assert!(matches!(
        context.proxy.sent[2],
        Message::Webview(0, 3, WebviewMessage::AddEventListener(0, 9))
    ));
}

#[test]
fn identifiers_start_over_after_the_last_one() {
    let mut context = context();
    context.next_ids.webview = u32::MAX;
    assert_eq!(context.next_webview_id(), u32::MAX);
    assert_eq!(context.next_webview_id(), 0);
    assert_eq!(context.next_window_id(), 1);
    assert_eq!(context.next_window_event_id(), 0);
    assert_eq!(context.next_webview_event_id(), 0);
}

#[test]
fn bad_icons_are_not_sent() {
    let mut context = context_on(Platform::Windows);
    let dispatcher = WryWindowDispatcher { window_id: 0 };
    let icon = |bytes: usize| Icon { rgba: vec![0; bytes], width: 1, height: 1 };
    assert!(dispatcher.set_icon(&mut context, caller(2), icon(4)).is_ok());
    assert!(matches!(
        dispatcher.set_icon(&mut context, caller(2), icon(3)),
        Err(Error::InvalidIcon(_))
    ));
    assert!(dispatcher.set_overlay_icon(&mut context, caller(2), None).is_ok());
    assert!(dispatcher.set_overlay_icon(&mut context, caller(2), Some(icon(3))).is_err());
    assert_eq!(context.proxy.sent.len(), 2);
}

#[test]
fn the_window_system_of_linux_looks_at_icons_itself() {
    let mut context = context();
    let dispatcher = WryWindowDispatcher { window_id: 0 };
    let icon = Icon { rgba: vec![0; 3], width: 1, height: 1 };
    assert!(dispatcher.set_icon(&mut context, caller(2), icon).is_ok());
    assert_eq!(context.proxy.sent.len(), 1);
}

#[test]
fn questions_without_an_answer_fail() {
    assert!(matches!(received(Some(5)), Ok(5)));
    assert!(matches!(received::<u8>(None), Err(Error::FailedToReceiveMessage)));
    let mut context = context();
    context.proxy.closed = true;
    let dispatcher = WryWindowDispatcher { window_id: 0 };
    assert!(dispatcher.title(&mut context, caller(2), 1).is_err());
    let float = tauri_runtime_cef::runtime::dpi::Float64 { bits: 0 };
    assert!(dispatcher.monitor_from_point(&mut context, caller(2), 1, float, float).is_empty());
}

#[test]
fn windows_and_webviews_are_asked_for() {
    let mut context = context();
    let (detached, effects) = context
        .create_window(caller(MAIN), "second".to_string(), Some(true), 9)
        .unwrap();
    assert_eq!((detached.id, detached.label.as_str()), (1, "second"));
    let inside = detached.webview.unwrap();
    assert!(inside.use_https_scheme);
    assert_eq!((inside.webview.window.created_in, inside.webview.webview_id), (1, 0));
    assert!(matches!(
        effects[0],
        Effect::Do(Action::CreateWindow { window_id: 1, webview_id: Some(0), task: 9 })
    ));
    let (alone, effects) = context
        .create_window(caller(MAIN), "third".to_string(), None, 11)
        .unwrap();
    assert!(alone.webview.is_none());
    assert!(matches!(
        effects[0],
        Effect::Do(Action::CreateWindow { window_id: 2, webview_id: None, task: 11 })
    ));
    let (child, effects) = context
        .create_webview(caller(2), 0, "child".to_string(), 10)
        .unwrap();
    assert_eq!((child.window.created_in, child.webview_id), (0, 1));
    assert!(effects.is_empty());
    assert!(matches!(
        context.proxy.sent[0],
        Message::CreateWebview(0, 1, cell, 10) if cell == child.window
    ));
}

#[test]
fn webviews_of_the_main_thread_need_an_open_window() {
    let mut context = context();
    let label = || "child".to_string();
    assert!(matches!(context.begin_webview(7, label()), Err(Error::WindowNotFound)));
    let (tao_window, detached) = context.begin_webview(0, label()).unwrap();
    assert_eq!((tao_window, detached.webview_id), (100, 0));
    assert_eq!(detached.window.current(&context.window_cells), 0);
    let created = webview(detached.webview_id, &mut context.main_thread.browsers);
    context.webview_ready(0, detached, Ok(created)).unwrap();
    let window = context.main_thread.windows.get(0).unwrap();
    assert!(window.has_children);
    assert_eq!(window.webviews[0].id, 0);
    let (_, failed) = context.begin_webview(0, label()).unwrap();
    let error = Error::CreateWebview("broken".to_string());
    assert!(context.webview_ready(0, failed, Err(error)).is_err());
}

/// The window that a dispatcher finds its webview in.
fn target(context: &mut Context<u8>, dispatcher: &WryWebviewDispatcher) -> u32 {
    assert!(dispatcher.reload(context, caller(2)).unwrap().is_empty());
    match context.proxy.sent.pop().unwrap() {
        Message::Webview(window_id, _, WebviewMessage::Reload) => window_id,
        _ => unreachable!(),
    }
}

#[test]
fn a_webview_that_moved_is_found_in_its_new_window() {
    let mut context = context();
    let window = context.note_window(0);
    let dispatcher = WryWebviewDispatcher { window, webview_id: 3 };
    let earlier_copy = dispatcher;
    let of_another = WryWebviewDispatcher { window: context.note_window(0), webview_id: 4 };
    let failed = Err(Error::FailedToSendMessage);
    assert!(dispatcher.reparented(&mut context, 5, failed).is_err());
    assert_eq!(target(&mut context, &dispatcher), 0);
    assert!(dispatcher.reparented(&mut context, 5, Ok(())).is_ok());
    assert_eq!(target(&mut context, &dispatcher), 5);
    assert_eq!(target(&mut context, &earlier_copy), 5);
    assert_eq!(target(&mut context, &of_another), 0);
    assert!(earlier_copy.reparented(&mut context, 6, Ok(())).is_ok());
    assert_eq!(target(&mut context, &dispatcher), 6);
}

#[test]
fn the_page_of_a_first_webview_stays_with_its_window() {
    let mut context = context();
    let detached = context.begin_window("second".to_string(), Some(false));
    let first = detached.webview.unwrap().webview;
    let page = context.note_window(detached.id);
    let dispatcher = WryWebviewDispatcher { window: first.window, webview_id: first.webview_id };
    let of_page = WryWebviewDispatcher { window: page, webview_id: first.webview_id };
    assert!(dispatcher.reparented(&mut context, 0, Ok(())).is_ok());
    assert_eq!(target(&mut context, &dispatcher), 0);
    assert_eq!(target(&mut context, &of_page), detached.id);
    // A webview that joins a window shares its place with its dispatcher.
    let (child, _) = context.create_webview(caller(2), 0, "child".to_string(), 1).unwrap();
    match context.proxy.sent.pop().unwrap() {
        Message::CreateWebview(0, _, cell, 1) => assert_eq!(cell, child.window),
        _ => unreachable!(),
    }
}

#[test]
fn scripts_are_waited_for_where_they_are_traced() {
    let trace = ScriptTrace { reply: 8, span: 9 };
    for (platform, tracing, traced) in [
        (Platform::Linux, true, Some(trace)),
        (Platform::Linux, false, None),
        (Platform::Android, true, None),
    ] {
        let options = BuildOptions { tracing, ..options_on(platform) };
        let mut context: Context<u8> = Context::new(options, MAIN);
        let dispatcher = WryWebviewDispatcher { window: context.note_window(0), webview_id: 3 };
        let script = || "1 + 1".to_string();
        assert!(dispatcher.eval_script(&mut context, caller(2), script(), trace).is_ok());
        match context.proxy.sent.pop().unwrap() {
            Message::Webview(0, 3, WebviewMessage::EvaluateScript(text, sent)) => {
                assert_eq!((text.as_str(), sent), ("1 + 1", traced));
            }
            _ => unreachable!(),
        }
        // The webview is gone: nobody answers.
        let effects = dispatcher.eval_script(&mut context, caller(MAIN), script(), trace);
        assert!(effects.unwrap().is_empty());
        let answer = script_answered(options, false);
        assert_eq!(matches!(answer, Err(Error::FailedToReceiveMessage)), traced.is_some());
        assert!(script_answered(options, true).is_ok());
    }
}

#[test]
fn questions_say_who_waits_for_them() {
    let reply = |message: Message<u8>| message.reply();
    assert_eq!(reply(Message::Window(0, WindowMessage::Title(4))), Some(4));
    assert_eq!(reply(Message::Window(0, WindowMessage::Center)), None);
    assert_eq!(reply(Message::Webview(0, 1, WebviewMessage::Reparent(2, 5))), Some(5));
    let traced = Some(ScriptTrace { reply: 6, span: 0 });
    let script = |trace: Option<ScriptTrace>| {
        Message::Webview(0, 1, WebviewMessage::EvaluateScript(String::new(), trace))
    };
    assert_eq!((reply(script(traced)), reply(script(None))), (Some(6), None));
    assert_eq!(reply(Message::CreateRawWindow(0, 1, 7)), Some(7));
    assert_eq!(reply(Message::Task(1)), None);
}

#[test]
fn a_webview_gets_the_browser_that_cef_creates() {
    let mut context = context();
    let created = webview(0, &mut context.main_thread.browsers);
    let slot = created.browser_slot;
    let client = RuntimeClientBuilder::new()
        .with_browser_slot(slot)
        .on_event(4)
        .build(&mut context.main_thread.browsers);
    let (_, detached) = context.begin_webview(0, "child".to_string()).unwrap();
    let (window, webview_id) = (detached.window, detached.webview_id);
    context.webview_ready(0, detached, Ok(created)).unwrap();
    let dispatcher = WryWebviewDispatcher { window, webview_id };
    let browser = |context: &mut Context<u8>| {
        match dispatcher.reload(context, caller(MAIN)).unwrap().pop().unwrap() {
            Effect::Calls { browser, .. } => browser,
            _ => unreachable!(),
        }
    };
    assert_eq!(browser(&mut context), None);
    assert_eq!(context.browser_created(&client, Some(12)).unwrap().handler, 4);
    assert_eq!(browser(&mut context), Some(12));
    assert!(context.browser_closes(&client, Some(13)).is_some());
    assert_eq!(browser(&mut context), Some(12));
    assert!(context.browser_closes(&client, Some(12)).is_some());
    assert_eq!(browser(&mut context), None);
}

fn runtime() -> WryHandle<u8> {
    Wry::init(options(), MAIN).handle()
}

#[test]
fn a_handle_reaches_the_event_loop() {
    let mut handle = runtime();
    assert!(handle.context.webview_runtime_installed);
    assert!(handle.request_exit(2).is_ok());
    assert!(matches!(handle.context.proxy.sent[0], Message::RequestExit(2)));
    assert!(handle.send_event(Message::Task(4)).is_ok());
    assert_eq!(handle.create_proxy(), EventProxy);
    assert!(EventProxy.send_event(&mut handle.context, 8).is_ok());
    assert!(matches!(handle.context.proxy.sent[2], Message::UserEvent(8)));
    let effects = handle.set_theme(caller(MAIN), Some(Theme::Dark));
    assert!(matches!(effects[0], Effect::Do(Action::SetTheme(Some(_)))));
    let (id, effects) = handle.create_tao_window(caller(MAIN), 6, 7).unwrap();
    assert_eq!(id, 0);
    assert!(matches!(
        effects[0],
        Effect::Do(Action::BuildRawWindow { window_id: 0, task: 6, reply: 7 })
    ));
    handle.context.window_id_map.insert(50, id);
    assert_eq!(handle.window_id(50), 0);
    handle.context.proxy.closed = true;
    assert!(matches!(handle.send_event(Message::Task(4)), Err(Error::FailedToSendMessage)));
    assert!(matches!(
        EventProxy.send_event(&mut handle.context, 8),
        Err(Error::EventLoopClosed)
    ));
}

#[test]
fn messages_are_sent_as_they_are() {
    let mut handle = runtime();
    let effects = send_user_message(&mut handle.context, caller(MAIN), Message::Task(4)).unwrap();
    assert!(matches!(effects[0], Effect::Do(Action::RunTask(4))));
    let effects = handle.run_on_main_thread(caller(3), 5).unwrap();
    assert!(effects.is_empty());
    assert!(matches!(handle.context.proxy.sent[0], Message::Task(5)));
}

#[test]
fn plugins_get_events_until_one_keeps_them() {
    let mut handle = runtime();
    handle.plugin(1);
    handle.plugin(2);
    handle.plugin(3);
    let round = PluginRound::new(&handle.plugins);
    assert_eq!(round.next(), Some(1));
    let round = round.answered(false);
    assert_eq!(round.next(), Some(2));
    let kept = round.answered(true);
    assert_eq!(kept.next(), None);
    assert!(!kept.passes());
    let mut round = PluginRound::new(&handle.plugins);
    while round.next().is_some() {
        round = round.answered(false);
    }
    assert!(round.passes());
}

#[test]
fn an_iteration_ends_when_no_events_are_pending() {
    assert_eq!(iteration_flow(&LoopEvent::<u8>::MainEventsCleared), ControlFlow::ExitWithCode(0));
    assert_eq!(iteration_flow(&LoopEvent::<u8>::Init), ControlFlow::Wait);
}
