use tauri_runtime_cef::runtime::context::{Caller, Context};
use tauri_runtime_cef::runtime::conversions::{
    CursorIcon, Error, ProgressBarState, ResizeDirection, UserAttentionType,
};
use tauri_runtime_cef::runtime::dpi::{
    Float64, PhysicalPosition, PhysicalSize, Position, Size, WindowSizeConstraints,
};
use tauri_runtime_cef::runtime::messages::{
    Effect, Message, WebviewMessage, WindowMessage, WindowReport,
};
use tauri_runtime_cef::runtime::platform::{BuildOptions, Platform};
use tauri_runtime_cef::runtime::webview_dispatcher::WryWebviewDispatcher;
use tauri_runtime_cef::runtime::window_builder::TitleBarStyle;
use tauri_runtime_cef::runtime::window_dispatcher::WryWindowDispatcher;

type Sent = Result<Vec<Effect>, Error>;

const WINDOW: WryWindowDispatcher = WryWindowDispatcher { window_id: 4 };

fn webview(context: &mut Context<u8>) -> WryWebviewDispatcher {
    WryWebviewDispatcher { window: context.note_window(4), webview_id: 6 }
}

/// A caller on a thread of its own.
fn other() -> Caller {
    Caller {
        thread: 2,
        report: WindowReport {
            is_decorated: true,
            is_resizable: true,
            has_undecorated_shadow: false,
        },
    }
}

/// The message that the event loop gets.
fn message(send: impl FnOnce(&mut Context<u8>) -> Sent) -> Message<u8> {
    let options = BuildOptions {
        platform: Platform::Linux,
        wayland_osr: false,
        unstable: false,
        new_window_opener_optional: false,
        macos_private_api: false,
        tracing: false,
    };
    let mut context = Context::new(options, 1);
    assert!(send(&mut context).unwrap().is_empty());
    assert_eq!(context.proxy.sent.len(), 1);
    context.proxy.sent.pop().unwrap()
}

fn text(send: impl FnOnce(&mut Context<u8>) -> Sent) -> String {
    match message(send) {
        Message::Window(4, message) => format!("{message:?}"),
        Message::Webview(4, 6, message) => format!("{message:?}"),
        message => panic!("{message:?}"),
    }
}

#[test]
fn questions_to_a_window_are_sent() {
    assert_eq!(text(|context| WINDOW.scale_factor(context, other(), 9)), "ScaleFactor(9)");
    assert_eq!(text(|context| WINDOW.inner_position(context, other(), 9)), "InnerPosition(9)");
    assert_eq!(text(|context| WINDOW.outer_position(context, other(), 9)), "OuterPosition(9)");
    assert_eq!(text(|context| WINDOW.inner_size(context, other(), 9)), "InnerSize(9)");
    assert_eq!(text(|context| WINDOW.outer_size(context, other(), 9)), "OuterSize(9)");
    assert_eq!(text(|context| WINDOW.is_fullscreen(context, other(), 9)), "IsFullscreen(9)");
    assert_eq!(text(|context| WINDOW.is_minimized(context, other(), 9)), "IsMinimized(9)");
    assert_eq!(text(|context| WINDOW.is_maximized(context, other(), 9)), "IsMaximized(9)");
    assert_eq!(text(|context| WINDOW.is_focused(context, other(), 9)), "IsFocused(9)");
    assert_eq!(text(|context| WINDOW.is_decorated(context, other(), 9)), "IsDecorated(9)");
    assert_eq!(text(|context| WINDOW.is_resizable(context, other(), 9)), "IsResizable(9)");
    assert_eq!(text(|context| WINDOW.is_maximizable(context, other(), 9)), "IsMaximizable(9)");
    assert_eq!(text(|context| WINDOW.is_minimizable(context, other(), 9)), "IsMinimizable(9)");
    assert_eq!(text(|context| WINDOW.is_closable(context, other(), 9)), "IsClosable(9)");
    assert_eq!(text(|context| WINDOW.is_visible(context, other(), 9)), "IsVisible(9)");
    assert_eq!(text(|context| WINDOW.title(context, other(), 9)), "Title(9)");
    assert_eq!(text(|context| WINDOW.current_monitor(context, other(), 9)), "CurrentMonitor(9)");
    assert_eq!(text(|context| WINDOW.primary_monitor(context, other(), 9)), "PrimaryMonitor(9)");
    assert_eq!(text(|context| WINDOW.available_monitors(context, other(), 9)), "AvailableMonitors(9)");
    assert_eq!(text(|context| WINDOW.theme(context, other(), 9)), "Theme(9)");
    assert_eq!(text(|context| WINDOW.is_enabled(context, other(), 9)), "IsEnabled(9)");
    assert_eq!(text(|context| WINDOW.is_always_on_top(context, other(), 9)), "IsAlwaysOnTop(9)");
    assert_eq!(text(|context| WINDOW.gtk_window(context, other(), 9)), "GtkWindow(9)");
    assert_eq!(text(|context| WINDOW.default_vbox(context, other(), 9)), "GtkBox(9)");
    assert_eq!(text(|context| WINDOW.window_handle(context, other(), 9)), "RawWindowHandle(9)");
}

#[test]
fn switches_of_a_window_are_sent() {
    assert_eq!(text(|context| WINDOW.set_resizable(context, other(), true)), "SetResizable(true)");
    assert_eq!(text(|context| WINDOW.set_enabled(context, other(), false)), "SetEnabled(false)");
    assert_eq!(text(|context| WINDOW.set_maximizable(context, other(), true)), "SetMaximizable(true)");
    assert_eq!(text(|context| WINDOW.set_minimizable(context, other(), false)), "SetMinimizable(false)");
    assert_eq!(text(|context| WINDOW.set_closable(context, other(), true)), "SetClosable(true)");
    assert_eq!(text(|context| WINDOW.set_decorations(context, other(), false)), "SetDecorations(false)");
    assert_eq!(text(|context| WINDOW.set_shadow(context, other(), true)), "SetShadow(true)");
    assert_eq!(text(|context| WINDOW.set_always_on_bottom(context, other(), false)), "SetAlwaysOnBottom(false)");
    assert_eq!(text(|context| WINDOW.set_always_on_top(context, other(), true)), "SetAlwaysOnTop(true)");
    assert_eq!(text(|context| WINDOW.set_visible_on_all_workspaces(context, other(), false)), "SetVisibleOnAllWorkspaces(false)");
    assert_eq!(text(|context| WINDOW.set_content_protected(context, other(), true)), "SetContentProtected(true)");
    assert_eq!(text(|context| WINDOW.set_fullscreen(context, other(), false)), "SetFullscreen(false)");
    assert_eq!(text(|context| WINDOW.set_simple_fullscreen(context, other(), true)), "SetSimpleFullscreen(true)");
    assert_eq!(text(|context| WINDOW.set_focusable(context, other(), false)), "SetFocusable(false)");
    assert_eq!(text(|context| WINDOW.set_skip_taskbar(context, other(), true)), "SetSkipTaskbar(true)");
    assert_eq!(text(|context| WINDOW.set_cursor_grab(context, other(), false)), "SetCursorGrab(false)");
    assert_eq!(text(|context| WINDOW.set_cursor_visible(context, other(), true)), "SetCursorVisible(true)");
    assert_eq!(text(|context| WINDOW.set_ignore_cursor_events(context, other(), false)), "SetIgnoreCursorEvents(false)");
}

#[test]
fn plain_requests_to_a_window_are_sent() {
    assert_eq!(text(|context| WINDOW.center(context, other())), "Center");
    assert_eq!(text(|context| WINDOW.maximize(context, other())), "Maximize");
    assert_eq!(text(|context| WINDOW.unmaximize(context, other())), "Unmaximize");
    assert_eq!(text(|context| WINDOW.minimize(context, other())), "Minimize");
    assert_eq!(text(|context| WINDOW.unminimize(context, other())), "Unminimize");
    assert_eq!(text(|context| WINDOW.show(context, other())), "Show");
    assert_eq!(text(|context| WINDOW.hide_window(context, other())), "Hide");
    assert_eq!(text(|context| WINDOW.set_focus(context, other())), "SetFocus");
    assert_eq!(text(|context| WINDOW.start_dragging(context, other())), "DragWindow");
}

#[test]
fn values_for_a_window_are_sent() {
    let size = Size::Physical(PhysicalSize { width: 3, height: 4 });
    let sent = message(|context| WINDOW.set_min_size(context, other(), Some(size)));
    assert!(matches!(
        sent,
        Message::Window(4, WindowMessage::SetMinSize(Some(Size::Physical(PhysicalSize {
            width: 3,
            height: 4,
        }))))
    ));
    let sent = message(|context| WINDOW.set_max_size(context, other(), None));
    assert!(matches!(sent, Message::Window(4, WindowMessage::SetMaxSize(None))));
    let constraints = WindowSizeConstraints::default();
    let sent = message(|context| WINDOW.set_size_constraints(context, other(), constraints));
    assert!(matches!(
        sent,
        Message::Window(4, WindowMessage::SetSizeConstraints(constraints))
            if constraints.min_width.is_none() && constraints.max_height.is_none()
    ));
    let position = Position::Physical(PhysicalPosition { x: 1, y: 2 });
    let sent = message(|context| WINDOW.set_cursor_position(context, other(), position));
    assert!(matches!(
        sent,
        Message::Window(4, WindowMessage::SetCursorPosition(Position::Physical(
            PhysicalPosition { x: 1, y: 2 }
        )))
    ));
    let sent = message(|context| WINDOW.set_traffic_light_position(context, other(), position));
    assert!(matches!(
        sent,
        Message::Window(4, WindowMessage::SetTrafficLightPosition(Position::Physical(
            PhysicalPosition { x: 1, y: 2 }
        )))
    ));
    let sent = text(|context| WINDOW.set_cursor_icon(context, other(), CursorIcon::Hand));
    assert_eq!(sent, "SetCursorIcon(Hand)");
    let sent = text(|context| {
        WINDOW.start_resize_dragging(context, other(), ResizeDirection::NorthEast)
    });
    assert_eq!(sent, "ResizeDragWindow(NorthEast)");
    let name = Some("app.desktop".to_string());
    let sent = text(|context| WINDOW.set_badge_count(context, other(), Some(3), name));
    assert_eq!(sent, "SetBadgeCount(Some(3), Some(\"app.desktop\"))");
    let sent = text(|context| WINDOW.set_badge_label(context, other(), None));
    assert_eq!(sent, "SetBadgeLabel(None)");
    let progress = ProgressBarState {
        status: None,
        progress: Some(50),
        desktop_filename: None,
    };
    let sent = message(|context| WINDOW.set_progress_bar(context, other(), progress));
    assert!(matches!(
        sent,
        Message::Window(4, WindowMessage::SetProgressBar(state)) if state.progress == Some(50)
    ));
    let sent =
        text(|context| WINDOW.set_title_bar_style(context, other(), TitleBarStyle::Overlay));
    assert_eq!(sent, "SetTitleBarStyle(Overlay)");
    let sent = text(|context| {
        WINDOW.request_user_attention(context, other(), Some(UserAttentionType::Critical))
    });
    assert_eq!(sent, "RequestUserAttention(Some(UserAttentionTypeWrapper(Critical)))");
}

#[test]
fn requests_to_a_webview_are_sent() {
    let url = "https://tauri.app".to_string();
    let sent = text(|context| webview(context).cookies_for_url(context, other(), url, 9));
    assert_eq!(sent, "CookiesForUrl(\"https://tauri.app\", 9)");
    let sent = text(|context| webview(context).set_auto_resize(context, other(), true));
    assert_eq!(sent, "SetAutoResize(true)");
    let factor = Float64 { bits: 1.5f64.to_bits() };
    let sent = message(|context| webview(context).set_zoom(context, other(), factor));
    assert!(matches!(
        sent,
        Message::Webview(4, 6, WebviewMessage::SetZoom(zoom)) if zoom.bits == factor.bits
    ));
    assert_eq!(text(|context| webview(context).hide_webview(context, other())), "Hide");
    assert_eq!(text(|context| webview(context).bounds(context, other(), 9)), "Bounds(9)");
    assert_eq!(text(|context| webview(context).print(context, other())), "Print");
}

#[test]
fn events_of_the_application_can_be_copied() {
    let message = Message::UserEvent(7u8);
    assert!(matches!(message.clone_user_event(), Message::UserEvent(7)));
}
