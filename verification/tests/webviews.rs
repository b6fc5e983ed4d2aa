use tauri_runtime_cef::bootstrap::RendererInitScript;
use tauri_runtime_cef::browser_slot::{BrowserSlot, BrowserSlots};
use tauri_runtime_cef::cef_calls::{CallSequence, ProcessId};
use tauri_runtime_cef::client::{BrowserEvent, ResourceRequestPayload};
use tauri_runtime_cef::osr::CefRect;
use tauri_runtime_cef::runtime::color::Color;
use tauri_runtime_cef::runtime::create_webview::{
    browser_bounds, is_windowless, plan_webview, set_up_browser, webview_created,
    BrowserCreation, CreationStep, SettingState, SetupStep, WebviewAttributes, WebviewLook,
    WebviewPlan,
};
use tauri_runtime_cef::runtime::dpi::{
    Float32, PhysicalPosition, PhysicalRect, PhysicalSize, Position, Rect, Size,
};
use tauri_runtime_cef::runtime::init_scripts::CEF_IPC_FALLBACK_SHIM;
use tauri_runtime_cef::runtime::messages::{WebviewEvent, WebviewMessage};
use tauri_runtime_cef::runtime::platform::{BuildOptions, Platform};
use tauri_runtime_cef::runtime::store::{
    WebviewBounds, WebviewWrapper, WindowCell, WindowCells, WindowsStore,
};
use tauri_runtime_cef::runtime::web::{parse_url, timeout_response};
use tauri_runtime_cef::runtime::webview::{
    browser_result, move_resize_browser_child, notify_child, x11_available, ChildMove, ChildReport,
};
use tauri_runtime_cef::runtime::webview_client::{
    before_browse, browse_allowed, download_destination, download_finished, download_requested,
    open_url_from_tab, popup_answered, popup_requested, protocol_answered, resource_requested,
    route_new_window_to_existing_window, DownloadDecision, NewWindowResponse, PopupDecision,
    ResponseStep, RouteStep, UriSchemeProtocols,
};
use tauri_runtime_cef::runtime::webview_error::WebviewError;
use tauri_runtime_cef::runtime::webview_events::{
    ClientAction, EventHandlers, PageLoadEvent, WebviewEvents, WebviewKind,
};
use tauri_runtime_cef::tao_window::{
    CefWindowHandle, HostWindowError, HostWindowInfo, RawHandle,
};

fn options() -> BuildOptions {
    BuildOptions {
        platform: Platform::Linux,
        wayland_osr: false,
        unstable: false,
        new_window_opener_optional: true,
        macos_private_api: false,
        tracing: false,
    }
}

fn attributes(look: WebviewLook) -> WebviewAttributes {
    WebviewAttributes {
        url: "tauri://localhost".to_string(),
        use_https_scheme: true,
        initialization_scripts: vec![RendererInitScript {
            script: "own".to_string(),
            for_main_frame_only: false,
        }],
        javascript_disabled: false,
        clipboard: false,
        look,
    }
}

fn look() -> WebviewLook {
    WebviewLook {
        bounds: None,
        background_color: None,
        transparent: false,
        focus: true,
        devtools: None,
        auto_resize: false,
    }
}

fn handlers() -> EventHandlers {
    EventHandlers { title: Some(1), page_load: Some(2), ipc: Some(3) }
}

fn plan(look: WebviewLook) -> WebviewPlan {
    plan_webview(
        options(),
        WebviewKind::WindowChild,
        WindowCell::new(&mut WindowCells::new(), 2),
        5,
        &attributes(look),
        handlers(),
        PhysicalSize { width: 300, height: 200 },
        true,
    )
}

const RED: Color = Color { r: 255, g: 0, b: 0, a: 255 };

#[test]
fn a_webview_fills_its_window_unless_it_has_bounds() {
    let whole = plan(look());
    assert_eq!(
        whole.rect,
        Rect {
            position: Position::Physical(PhysicalPosition { x: 0, y: 0 }),
            size: Size::Physical(PhysicalSize { width: 300, height: 200 }),
        }
    );
    let mut bounded = look();
    bounded.bounds = Some(
        PhysicalRect {
            position: PhysicalPosition { x: 1, y: 2 },
            size: PhysicalSize { width: 3, height: 4 },
        }
        .as_rect(),
    );
    assert_eq!(Some(plan(bounded).rect), bounded.bounds);
}

#[test]
fn browsers_render_off_screen_where_they_cannot_be_children() {
    let osr = BuildOptions { wayland_osr: true, ..options() };
    assert!(is_windowless(osr, Some(RawHandle::Wayland { surface: 1 })));
    assert!(!is_windowless(osr, Some(RawHandle::Xlib { window: 1 })));
    assert!(!is_windowless(osr, None));
    assert!(!is_windowless(options(), Some(RawHandle::Wayland { surface: 1 })));
}

#[test]
fn a_plan_says_how_the_browser_begins() {
    let made = plan(look());
    assert_eq!(made.initial_url, "https://tauri.localhost");
    assert_eq!(made.background_color, Color { r: 255, g: 255, b: 255, a: 255 });
    assert_eq!(made.settings.background_color, 0xffff_ffff);
    assert_eq!(made.settings.javascript, SettingState::Unset);
    assert_eq!(made.settings.javascript_access_clipboard, SettingState::Disabled);
    assert_eq!(made.settings.javascript_dom_paste, SettingState::Disabled);
    assert!(!made.open_devtools && made.focused);
    assert_eq!(made.events.scripts.len(), 2);
    assert_eq!(made.events.scripts[0].script, CEF_IPC_FALLBACK_SHIM);
    assert!(made.events.scripts[0].for_main_frame_only);
    assert_eq!(made.events.scripts[1].script, "own");
    assert!(!made.events.run_scripts_on_load);

    let mut transparent = look();
    transparent.transparent = true;
    assert_eq!(plan(transparent).background_color, Color { r: 0, g: 0, b: 0, a: 0 });
    transparent.background_color = Some(RED);
    assert_eq!(plan(transparent).background_color, RED);
    assert!(plan(transparent).events.explicit_background_color);
}

#[test]
fn browsers_have_a_default_size() {
    let position = PhysicalPosition { x: 1, y: 2 };
    assert_eq!(
        browser_bounds(position, 0, -1),
        CefRect { x: 1, y: 2, width: 800, height: 600 }
    );
    assert_eq!(
        browser_bounds(position, 10, 20),
        CefRect { x: 1, y: 2, width: 10, height: 20 }
    );
}

const BOUNDS: CefRect = CefRect { x: -1, y: 2, width: 30, height: 40 };

fn host(handle: usize) -> Result<HostWindowInfo, HostWindowError> {
    Ok(HostWindowInfo {
        parent_handle: CefWindowHandle { value: handle },
        width: 1,
        height: 1,
    })
}

#[test]
fn a_browser_is_created_by_the_first_attempt_that_gives_one() {
    let (mut creation, step) = BrowserCreation::begin(false, BOUNDS);
    assert!(matches!(step, CreationStep::AskHostWindow));
    assert!(matches!(creation.host_window_asked(host(0)), CreationStep::Pause));
    assert!(matches!(creation.paused(), CreationStep::AskHostWindow));
    match creation.host_window_asked(host(7)) {
        CreationStep::CreateChild { parent, bounds } => {
            assert_eq!((parent.value, bounds), (7, BOUNDS))
        }
        _ => unreachable!(),
    }
    assert!(matches!(creation.creation_tried(None), CreationStep::Pause));
    assert!(matches!(creation.paused(), CreationStep::AskHostWindow));
    assert!(matches!(creation.creation_tried(Some(9)), CreationStep::Created(9)));
}

fn attempts_until_failure(answer: Result<HostWindowInfo, HostWindowError>) -> (usize, String) {
    let (mut creation, mut step) = BrowserCreation::begin(false, BOUNDS);
    let mut attempts = 0;
    loop {
        step = match step {
            CreationStep::AskHostWindow => {
                attempts += 1;
                creation.host_window_asked(answer)
            }
            CreationStep::CreateChild { .. } => creation.creation_tried(None),
            CreationStep::Pause => creation.paused(),
            CreationStep::Failed(message) => return (attempts, message),
            _ => unreachable!(),
        };
    }
}

#[test]
fn creation_fails_after_its_last_attempt() {
    assert_eq!(
        attempts_until_failure(host(7)),
        (31, "CEF browser creation failed (bounds=30x40+-1,2).".to_string())
    );
    let null = "CEF browser creation failed (got null parent window handle; bounds=30x40+-1,2).";
    assert_eq!(attempts_until_failure(host(0)), (31, null.to_string()));
    let (_, message) = attempts_until_failure(Err(HostWindowError::SizeOverflow));
    assert!(message.contains("window dimensions exceed i32 limits; bounds="));
}

#[test]
fn a_windowless_browser_has_one_attempt() {
    let (creation, step) = BrowserCreation::begin(true, BOUNDS);
    assert!(matches!(step, CreationStep::CreateWindowless));
    match creation.creation_tried(None) {
        CreationStep::Failed(message) => {
            assert_eq!(message, "CEF OSR browser creation failed (30x40).")
        }
        _ => unreachable!(),
    }
    assert!(matches!(creation.creation_tried(Some(1)), CreationStep::Created(1)));
}

fn first_call(calls: CallSequence, skip: usize) -> String {
    let mut calls = calls;
    for _ in 0..skip {
        calls.report(1);
    }
    format!("{:?}", calls.current().unwrap())
}

#[test]
fn a_new_browser_is_set_up_in_order() {
    let mut wanted = look();
    wanted.focus = false;
    wanted.background_color = Some(RED);
    wanted.devtools = Some(true);
    let mut browsers = BrowserSlots::new();
    let slot = BrowserSlot::new(&mut browsers);
    let mut steps = set_up_browser(&plan(wanted), &mut browsers, &slot, 4, false).into_iter();
    assert_eq!(slot.current(&browsers), Some(4));
    match steps.next().unwrap() {
        SetupStep::SendInitScripts(transfer) => assert_eq!(transfer.messages.len(), 3),
        _ => unreachable!(),
    }
    assert!(matches!(steps.next(), Some(SetupStep::MoveChild(_))));
    match steps.next().unwrap() {
        SetupStep::Calls(calls) => assert_eq!(first_call(calls, 1), "SetFocus(0)"),
        _ => unreachable!(),
    }
    match steps.next().unwrap() {
        SetupStep::Calls(calls) => assert!(first_call(calls, 1).contains("rgba(255, 0, 0")),
        _ => unreachable!(),
    }
    match steps.next().unwrap() {
        SetupStep::Calls(calls) => assert_eq!(first_call(calls, 1), "ShowDevTools"),
        _ => unreachable!(),
    }
    assert!(steps.next().is_none());
}

#[test]
fn a_windowless_browser_is_given_the_focus() {
    let mut browsers = BrowserSlots::new();
    let slot = BrowserSlot::new(&mut browsers);
    let mut steps = set_up_browser(&plan(look()), &mut browsers, &slot, 4, true).into_iter();
    assert!(matches!(steps.next(), Some(SetupStep::SendInitScripts(_))));
    match steps.next().unwrap() {
        SetupStep::Calls(calls) => assert_eq!(first_call(calls, 1), "SetFocus(1)"),
        _ => unreachable!(),
    }
    assert!(steps.next().is_none());
    let windowed = set_up_browser(&plan(look()), &mut browsers, &slot, 4, false);
    assert_eq!(windowed.len(), 2);
}

fn rates() -> WebviewBounds {
    let half = Float32 { bits: 0.5f32.to_bits() };
    WebviewBounds { x_rate: half, y_rate: half, width_rate: half, height_rate: half }
}

fn webview(slot: BrowserSlot) -> WebviewWrapper {
    let mut growing = look();
    growing.auto_resize = true;
    webview_created(&plan(growing), "main".to_string(), slot, rates(), false)
}

fn slot_with(browser: i32) -> (BrowserSlots, BrowserSlot) {
    let mut browsers = BrowserSlots::new();
    let slot = BrowserSlot::new(&mut browsers);
    slot.set(&mut browsers, Some(browser));
    (browsers, slot)
}

fn empty_slot() -> (BrowserSlots, BrowserSlot) {
    let mut browsers = BrowserSlots::new();
    let slot = BrowserSlot::new(&mut browsers);
    (browsers, slot)
}

#[test]
fn a_webview_holds_what_was_planned() {
    let (_, slot) = slot_with(4);
    let made = webview(slot);
    assert_eq!(made.browser_slot, slot);
    assert_eq!((made.label.as_str(), made.id), ("main", 5));
    assert_eq!(made.bounds, Some(rates()));
    assert!(!made.osr);
    let fixed = webview_created(&plan(look()), "main".to_string(), slot, rates(), true);
    assert_eq!(fixed.bounds, None);
    assert!(fixed.osr);
}

#[test]
fn native_windows_follow_their_webview_on_linux() {
    let bounds = PhysicalRect {
        position: PhysicalPosition { x: 90, y: 0 },
        size: PhysicalSize { width: 20, height: 20 },
    };
    let window = PhysicalSize { width: 100, height: 100 };
    let report = |window_handle: u64, is_wayland: bool| {
        Some(ChildReport { window_handle, is_wayland })
    };
    type Slot = (BrowserSlots, BrowserSlot);
    let go = |platform: Platform, slot: Slot, host: Option<ChildReport>| {
        move_resize_browser_child(platform, &slot.0, &slot.1, host, bounds, window)
    };
    assert_eq!(
        go(Platform::Linux, slot_with(1), report(8, false)),
        Ok(ChildMove::MoveWindow { handle: 8, x: 90, y: 0, width: 10, height: 20 })
    );
    assert_eq!(
        go(Platform::Linux, slot_with(1), report(8, true)),
        Ok(ChildMove::NotifyBrowser)
    );
    assert_eq!(
        go(Platform::Linux, empty_slot(), None),
        Err(WebviewError::BrowserUnavailable)
    );
    assert_eq!(go(Platform::Linux, slot_with(1), None), Err(WebviewError::HostUnavailable));
    assert_eq!(
        go(Platform::Linux, slot_with(1), report(0, false)),
        Err(WebviewError::ChildHandleUnavailable)
    );
    assert_eq!(go(Platform::Windows, empty_slot(), None), Ok(ChildMove::Nothing));
    assert_eq!(x11_available(false, true), Err(WebviewError::XlibUnavailable));
    assert_eq!(x11_available(true, false), Err(WebviewError::DisplayUnavailable));
    assert_eq!(x11_available(true, true), Ok(()));
    assert_eq!(browser_result(false), Err(WebviewError::BrowserUnavailable));
}

#[test]
fn a_browser_that_moves_itself_is_told_of_it_and_nothing_else() {
    let (browsers, slot) = slot_with(1);
    let mut calls = notify_child(&browsers, &slot);
    assert_eq!(first_call(notify_child(&browsers, &slot), 0), "Host");
    calls.report(1);
    assert_eq!(format!("{:?}", calls.current().unwrap()), "NotifyMoveOrResizeStarted");
    calls.report(0);
    assert!(calls.current().is_none());
    let (browsers, slot) = empty_slot();
    assert!(notify_child(&browsers, &slot).current().is_none());
}

#[test]
fn questions_to_a_webview_make_its_calls() {
    let (browsers, slot) = slot_with(4);
    let made = webview(slot);
    assert_eq!(first_call(made.evaluate_script(&browsers, "1 + 1"), 0), "MainFrame");
    assert_eq!(first_call(made.set_visible(&browsers, false), 1), "WasHidden(1)");
    assert_eq!(first_call(made.print(&browsers), 1), "Print");
    assert_eq!(first_call(made.is_devtools_open(&browsers), 1), "HasDevTools");
    let url = "https://a".to_string();
    assert_eq!(made.url(&browsers, Some(url.clone())), Ok(url));
    assert_eq!(made.url(&browsers, None), Err(WebviewError::BrowserUnavailable));
    let (browsers, slot) = empty_slot();
    assert_eq!(webview(slot).reload(&browsers).outcome(), Some(false));
}

#[test]
fn the_application_may_keep_pages_from_loading() {
    let question = before_browse(Some(9), "https://tauri.app").unwrap();
    assert_eq!((question.handler, question.url.text.as_str()), (9, "https://tauri.app/"));
    assert!(before_browse(None, "https://tauri.app").is_none());
    assert!(before_browse(Some(9), "no url").is_none());
    assert!(browse_allowed(None) && browse_allowed(Some(true)) && !browse_allowed(Some(false)));
    assert!(open_url_from_tab());
}

#[test]
fn windows_of_pages_need_consent_where_they_are_handled() {
    assert!(matches!(popup_requested(true, None, "no url"), PopupDecision::Allow));
    assert!(matches!(popup_requested(true, Some(1), "no url"), PopupDecision::Deny));
    assert!(matches!(popup_requested(true, Some(1), "https://a"), PopupDecision::Ask(_)));
    assert!(matches!(popup_requested(false, Some(1), "https://a"), PopupDecision::Deny));
    assert!(popup_answered(NewWindowResponse::Allow).allowed);
    assert!(!popup_answered(NewWindowResponse::Deny).allowed);
    let routed = popup_answered(NewWindowResponse::Create { window_id: 6 });
    assert_eq!((routed.allowed, routed.routed_to), (false, Some(6)));
}

#[test]
fn a_new_window_is_waited_for_and_then_given_up() {
    let route = route_new_window_to_existing_window(6, 1_000);
    let windows = WindowsStore::new();
    let browsers = BrowserSlots::new();
    let look = |windows: Option<&WindowsStore>, now: u64| {
        route.look(windows, &browsers, "https://a", now)
    };
    assert!(matches!(look(Some(&windows), 1_000), RouteStep::Pause));
    assert!(matches!(look(None, 2_000_000_999), RouteStep::Pause));
    assert!(matches!(look(None, 2_000_001_000), RouteStep::GiveUp));
}

#[test]
fn downloads_need_consent_where_they_are_handled() {
    assert!(matches!(download_requested(None, "no url"), DownloadDecision::Accept));
    assert!(matches!(download_requested(Some(1), "no url"), DownloadDecision::Refuse));
    assert!(matches!(download_requested(Some(1), "https://a/b"), DownloadDecision::Ask(_)));
    assert!(download_finished(Some(1), "https://a/b").is_some());
    assert!(download_finished(None, "https://a/b").is_none());
    let path = |relative: bool, in_dir: Option<&str>| {
        download_destination("file".to_string(), relative, in_dir.map(str::to_string))
    };
    assert_eq!(path(true, Some("/dir/file")), "/dir/file");
    assert_eq!(path(true, None), "file");
    assert_eq!(path(false, Some("/dir/file")), "file");
}

#[test]
fn requests_reach_the_protocol_that_answers_them() {
    let mut protocols = UriSchemeProtocols::new();
    protocols.insert("asset".to_string(), 1);
    protocols.insert("ipc".to_string(), 2);
    protocols.insert("asset".to_string(), 3);
    let request = |url: &str, method: &str| {
        let payload = ResourceRequestPayload {
            url: url.to_string(),
            method: method.to_string(),
            headers: Vec::new(),
            body: Vec::new(),
        };
        resource_requested(&protocols, &payload)
    };
    let call = request("http://asset.localhost/x", "GET").unwrap();
    assert_eq!((call.handler, call.protocol.as_str()), (3, "asset"));
    assert_eq!(call.request.uri, "http://asset.localhost/x");
    assert!(request("http://other.localhost/x", "GET").is_none());
    assert!(request("http://asset.localhost/x", "BAD METHOD").is_none());
    assert!(request("no url", "GET").is_none());
    assert_eq!(protocols.get(&"ipc".to_string()), Some(2));
    assert_eq!(protocols.get(&"none".to_string()), None);
}

#[test]
fn answers_of_protocols_may_be_rewritten() {
    match protocol_answered(None, Some(1)) {
        ResponseStep::TimedOut(response) => assert_eq!(response.status, 504),
        _ => unreachable!(),
    }
    assert!(matches!(
        protocol_answered(Some(timeout_response()), Some(1)),
        ResponseStep::Rewrite(1, _)
    ));
    assert!(matches!(
        protocol_answered(Some(timeout_response()), None),
        ResponseStep::Open(_)
    ));
}

/// A single cell, with window 2 in it.
fn cells() -> WindowCells {
    let mut cells = WindowCells::new();
    let _ = WindowCell::new(&mut cells, 2);
    cells
}

fn events(explicit_background_color: bool, run_scripts_on_load: bool) -> WebviewEvents {
    WebviewEvents {
        window: WindowCell::new(&mut WindowCells::new(), 2),
        webview_id: 5,
        kind: WebviewKind::WindowChild,
        handlers: handlers(),
        explicit_background_color,
        run_scripts_on_load,
        scripts: vec![RendererInitScript {
            script: "own".to_string(),
            for_main_frame_only: true,
        }],
    }
}

#[test]
fn loads_are_reported_and_backgrounds_reinforced() {
    let (browsers, slot) = slot_with(4);
    let started = || BrowserEvent::LoadStarted {
        browser_id: 4,
        url: "https://tauri.app".to_string(),
    };
    let actions = events(true, true).on_event(started(), &browsers, &slot, RED, &cells());
    assert_eq!(actions.len(), 3);
    match &actions[0] {
        ClientAction::PageLoad(question, event) => {
            assert_eq!((question.handler, *event), (2, PageLoadEvent::Started))
        }
        _ => unreachable!(),
    }
    assert!(matches!(&actions[1], ClientAction::Calls { browser: Some(4), .. }));
    assert!(matches!(&actions[2], ClientAction::Calls { browser: Some(4), .. }));
    assert_eq!(events(false, false).on_event(started(), &browsers, &slot, RED, &cells()).len(), 1);
    let finished = BrowserEvent::LoadFinished {
        browser_id: 4,
        url: "no url".to_string(),
        http_status_code: 200,
    };
    assert_eq!(events(true, true).on_event(finished, &browsers, &slot, RED, &cells()).len(), 1);
}

fn message(name: &str, arguments: &[&str]) -> BrowserEvent {
    BrowserEvent::ProcessMessage {
        browser_id: 4,
        source_process: ProcessId::Renderer,
        name: name.to_string(),
        arguments: arguments.iter().map(|argument| argument.to_string()).collect(),
    }
}

#[test]
fn messages_reach_the_application_under_their_names() {
    let known = events(false, false);
    let (browsers, slot) = slot_with(4);
    for name in ["tauri-ipc", "__TAURI_IPC__", "tauri:ipc", "ipc"] {
        let event = message(name, &["https://a/", "text"]);
        let mut actions = known.on_event(event, &browsers, &slot, RED, &cells());
        match actions.pop().unwrap() {
            ClientAction::Ipc { handler, window, webview_id, request } => {
                assert_eq!((handler, window, webview_id), (3, known.window, 5));
                assert_eq!(request.uri, "https://a/");
                assert_eq!(request.body, b"text");
            }
            _ => unreachable!(),
        }
        assert!(actions.is_empty());
    }
    assert!(known.on_event(message("other", &["x"]), &browsers, &slot, RED, &cells()).is_empty());
    let mut actions = known.on_event(message("ipc", &["only"]), &browsers, &slot, RED, &cells());
    match actions.pop().unwrap() {
        ClientAction::Ipc { request, .. } => {
            assert_eq!(request.uri, "tauri://localhost/");
            assert_eq!(request.body, b"only");
        }
        _ => unreachable!(),
    }
}

#[test]
fn titles_closes_and_drags_are_passed_on() {
    let (browsers, slot) = slot_with(4);
    let known = events(false, false);
    let title = BrowserEvent::TitleChanged { browser_id: 4, title: "title".to_string() };
    assert!(matches!(
        known.on_event(title, &browsers, &slot, RED, &cells()).pop(),
        Some(ClientAction::CallTitleHandler(1, _))
    ));
    let close = BrowserEvent::BeforeClose { browser_id: 4 };
    assert!(matches!(
        known.on_event(close, &browsers, &slot, RED, &cells()).pop(),
        Some(ClientAction::Send { window_id: 2, webview_id: 5, message: WebviewMessage::Close })
    ));
    assert!(matches!(
        known.on_drag_enter(vec!["/tmp/file".to_string()], &cells()),
        ClientAction::Send {
            message: WebviewMessage::WebviewEvent(WebviewEvent::DragDrop(_)),
            ..
        }
    ));
    let mut moved = cells();
    known.window.set(&mut moved, 7);
    let close = BrowserEvent::BeforeClose { browser_id: 4 };
    assert!(matches!(
        known.on_event(close, &browsers, &slot, RED, &moved).pop(),
        Some(ClientAction::Send { window_id: 7, webview_id: 5, message: WebviewMessage::Close })
    ));
    let mut content = events(false, false);
    content.kind = WebviewKind::WindowContent;
    assert!(matches!(
        content.on_drag_enter(Vec::new(), &cells()),
        ClientAction::Send { message: WebviewMessage::SynthesizedWindowEvent(_), .. }
    ));
}

#[test]
fn a_parsed_event_needs_no_url_in_its_text() {
    let (browsers, slot) = slot_with(4);
    let known = events(false, false);
    let started = BrowserEvent::LoadStarted { browser_id: 4, url: String::new() };
    let url = parse_url("https://tauri.app");
    let actions = known.on_parsed_event(started, url, &browsers, &slot, RED, &cells());
    assert!(matches!(&actions[0], ClientAction::PageLoad(_, PageLoadEvent::Started)));
}
