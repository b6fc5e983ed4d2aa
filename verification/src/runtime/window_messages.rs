//! What the event loop does about a message to a window.

use crate::runtime::conversions;
use crate::runtime::conversions::{
    to_tao_theme, CursorIcon, CursorIconWrapper, PositionWrapper, ProgressBarState,
    ProgressBarStateWrapper, ResizeDirection, ResizeDirectionWrapper, SizeWrapper,
};
use crate::runtime::dpi::Size;
use crate::runtime::messages::{
    Action, Effect, EffectModel, ReplyId, WindowAction, WindowMessage, WindowQuery, WindowReport,
};
use crate::runtime::messages;
use crate::runtime::platform::Platform;
use crate::runtime::store::TaoWindowId;
use crate::runtime::window_builder;
use crate::runtime::window_builder::TitleBarStyle;
use vstd::prelude::*;

verus! {

/// The question that a message asks of a window, and who gets the answer. The size
/// of the content is that of its only webview where `of_webview` says so.
pub open spec fn question(message: WindowMessage, of_webview: bool) -> Option<
    (ReplyId, WindowQuery),
> {
    match message {
        WindowMessage::ScaleFactor(reply) => Some((reply, WindowQuery::ScaleFactor)),
        WindowMessage::InnerPosition(reply) => Some((reply, WindowQuery::InnerPosition)),
        WindowMessage::OuterPosition(reply) => Some((reply, WindowQuery::OuterPosition)),
        WindowMessage::InnerSize(reply) => Some((reply, WindowQuery::InnerSize { of_webview })),
        WindowMessage::OuterSize(reply) => Some((reply, WindowQuery::OuterSize)),
        WindowMessage::IsFullscreen(reply) => Some((reply, WindowQuery::IsFullscreen)),
        WindowMessage::IsMinimized(reply) => Some((reply, WindowQuery::IsMinimized)),
        WindowMessage::IsMaximized(reply) => Some((reply, WindowQuery::IsMaximized)),
        WindowMessage::IsFocused(reply) => Some((reply, WindowQuery::IsFocused)),
        WindowMessage::IsDecorated(reply) => Some((reply, WindowQuery::IsDecorated)),
        WindowMessage::IsResizable(reply) => Some((reply, WindowQuery::IsResizable)),
        WindowMessage::IsMaximizable(reply) => Some((reply, WindowQuery::IsMaximizable)),
        WindowMessage::IsMinimizable(reply) => Some((reply, WindowQuery::IsMinimizable)),
        WindowMessage::IsClosable(reply) => Some((reply, WindowQuery::IsClosable)),
        WindowMessage::IsVisible(reply) => Some((reply, WindowQuery::IsVisible)),
        WindowMessage::Title(reply) => Some((reply, WindowQuery::Title)),
        WindowMessage::CurrentMonitor(reply) => Some((reply, WindowQuery::CurrentMonitor)),
        WindowMessage::PrimaryMonitor(reply) => Some((reply, WindowQuery::PrimaryMonitor)),
        WindowMessage::MonitorFromPoint(reply, x, y) => Some(
            (reply, WindowQuery::MonitorFromPoint(x, y)),
        ),
        WindowMessage::AvailableMonitors(reply) => Some((reply, WindowQuery::AvailableMonitors)),
        WindowMessage::GtkWindow(reply) => Some((reply, WindowQuery::GtkWindow)),
        WindowMessage::GtkBox(reply) => Some((reply, WindowQuery::GtkBox)),
        WindowMessage::RawWindowHandle(reply) => Some((reply, WindowQuery::RawWindowHandle)),
        WindowMessage::Theme(reply) => Some((reply, WindowQuery::Theme)),
        WindowMessage::IsEnabled(reply) => Some((reply, WindowQuery::IsEnabled)),
        WindowMessage::IsAlwaysOnTop(reply) => Some((reply, WindowQuery::IsAlwaysOnTop)),
        _ => None,
    }
}

/// The question that a message asks of a window, and who gets the answer.
pub fn window_question(message: &WindowMessage, of_webview: bool) -> (result: Option<
    (ReplyId, WindowQuery),
>)
    ensures
        result == question(*message, of_webview),
{
    match message {
        WindowMessage::ScaleFactor(reply) => Some((*reply, WindowQuery::ScaleFactor)),
        WindowMessage::InnerPosition(reply) => Some((*reply, WindowQuery::InnerPosition)),
        WindowMessage::OuterPosition(reply) => Some((*reply, WindowQuery::OuterPosition)),
        WindowMessage::InnerSize(reply) => Some((*reply, WindowQuery::InnerSize { of_webview })),
        WindowMessage::OuterSize(reply) => Some((*reply, WindowQuery::OuterSize)),
        WindowMessage::IsFullscreen(reply) => Some((*reply, WindowQuery::IsFullscreen)),
        WindowMessage::IsMinimized(reply) => Some((*reply, WindowQuery::IsMinimized)),
        WindowMessage::IsMaximized(reply) => Some((*reply, WindowQuery::IsMaximized)),
        WindowMessage::IsFocused(reply) => Some((*reply, WindowQuery::IsFocused)),
        WindowMessage::IsDecorated(reply) => Some((*reply, WindowQuery::IsDecorated)),
        WindowMessage::IsResizable(reply) => Some((*reply, WindowQuery::IsResizable)),
        WindowMessage::IsMaximizable(reply) => Some((*reply, WindowQuery::IsMaximizable)),
        WindowMessage::IsMinimizable(reply) => Some((*reply, WindowQuery::IsMinimizable)),
        WindowMessage::IsClosable(reply) => Some((*reply, WindowQuery::IsClosable)),
        WindowMessage::IsVisible(reply) => Some((*reply, WindowQuery::IsVisible)),
        WindowMessage::Title(reply) => Some((*reply, WindowQuery::Title)),
        WindowMessage::CurrentMonitor(reply) => Some((*reply, WindowQuery::CurrentMonitor)),
        WindowMessage::PrimaryMonitor(reply) => Some((*reply, WindowQuery::PrimaryMonitor)),
        WindowMessage::MonitorFromPoint(reply, x, y) => Some(
            (*reply, WindowQuery::MonitorFromPoint(*x, *y)),
        ),
        WindowMessage::AvailableMonitors(reply) => Some((*reply, WindowQuery::AvailableMonitors)),
        WindowMessage::GtkWindow(reply) => Some((*reply, WindowQuery::GtkWindow)),
        WindowMessage::GtkBox(reply) => Some((*reply, WindowQuery::GtkBox)),
        WindowMessage::RawWindowHandle(reply) => Some((*reply, WindowQuery::RawWindowHandle)),
        WindowMessage::Theme(reply) => Some((*reply, WindowQuery::Theme)),
        WindowMessage::IsEnabled(reply) => Some((*reply, WindowQuery::IsEnabled)),
        WindowMessage::IsAlwaysOnTop(reply) => Some((*reply, WindowQuery::IsAlwaysOnTop)),
        _ => None,
    }
}

/// The number that a badge shows on iOS.
pub open spec fn badge_number(count: Option<i64>) -> i32 {
    match count {
        Some(count) => if count < i32::MIN {
            i32::MIN
        } else if count > i32::MAX {
            i32::MAX
        } else {
            count as i32
        },
        None => 0,
    }
}

fn clamped_badge(count: Option<i64>) -> (number: i32)
    ensures
        number == badge_number(count),
{
    match count {
        Some(count) => if count < -0x8000_0000 {
            -0x8000_0000
        } else if count > 0x7fff_ffff {
            0x7fff_ffff
        } else {
            count as i32
        },
        None => 0,
    }
}

fn tao_size(size: Option<Size>) -> (result: Option<Size>)
    ensures
        result == size,
{
    match size {
        Some(size) => Some(SizeWrapper::from(size).0),
        None => None,
    }
}

/// What a window is told when it becomes resizable, or ceases to be. On Windows,
/// windows without decorations get handles to resize them by.
pub open spec fn resizable_actions(
    platform: Platform,
    report: WindowReport,
    resizable: bool,
) -> Seq<WindowAction> {
    let first = seq![WindowAction::SetResizable(resizable)];
    if platform != Platform::Windows {
        first
    } else if !resizable {
        first.push(WindowAction::DetachResizeHandler)
    } else if !report.is_decorated {
        first.push(
            WindowAction::AttachResizeHandler {
                has_undecorated_shadow: report.has_undecorated_shadow,
            },
        )
    } else {
        first
    }
}

/// What a window is told when it gets decorations, or loses them.
pub open spec fn decoration_actions(
    platform: Platform,
    report: WindowReport,
    decorations: bool,
) -> Seq<WindowAction> {
    let first = seq![WindowAction::SetDecorations(decorations)];
    if platform != Platform::Windows {
        first
    } else if decorations {
        first.push(WindowAction::DetachResizeHandler)
    } else if report.is_resizable {
        first.push(
            WindowAction::AttachResizeHandler {
                has_undecorated_shadow: report.has_undecorated_shadow,
            },
        )
    } else {
        first
    }
}

/// What a window is told when it gets a title bar of a style.
pub open spec fn title_bar_actions(platform: Platform, style: TitleBarStyle) -> Seq<WindowAction> {
    if platform == Platform::MacOs && style != TitleBarStyle::Other {
        seq![
            WindowAction::SetTitlebarTransparent(window_builder::is_see_through(style)),
            WindowAction::SetFullsizeContentView(window_builder::is_full_size(style)),
        ]
    } else {
        Seq::empty()
    }
}

/// What only some platforms tell a window.
pub open spec fn platform_actions(
    platform: Platform,
    report: WindowReport,
    message: WindowMessage,
) -> Seq<WindowAction> {
    match message {
        WindowMessage::SetResizable(resizable) => resizable_actions(platform, report, resizable),
        WindowMessage::SetDecorations(decorations) => decoration_actions(
            platform,
            report,
            decorations,
        ),
        WindowMessage::SetShadow(enable) => match platform {
            Platform::Windows => seq![
                WindowAction::SetUndecoratedShadow(enable),
                WindowAction::UpdateDragRegion { has_undecorated_shadow: enable },
            ],
            Platform::MacOs => seq![WindowAction::SetHasShadow(enable)],
            _ => Seq::empty(),
        },
        WindowMessage::SetSimpleFullscreen(enable) => if platform == Platform::MacOs {
            seq![WindowAction::SetSimpleFullscreen(enable)]
        } else {
            Seq::empty()
        },
        WindowMessage::SetSkipTaskbar(skip) => if platform == Platform::Windows || platform
            == Platform::Linux {
            seq![WindowAction::SetSkipTaskbar(skip)]
        } else {
            Seq::empty()
        },
        WindowMessage::SetBadgeCount(count, desktop_filename) => match platform {
            Platform::Ios => seq![WindowAction::SetBadgeNumber(badge_number(count))],
            Platform::MacOs => seq![WindowAction::SetBadgeLabelToNumber(count)],
            Platform::Linux => seq![WindowAction::SetBadgeCount(count, desktop_filename)],
            _ => Seq::empty(),
        },
        WindowMessage::SetBadgeLabel(label) => if platform == Platform::MacOs {
            seq![WindowAction::SetBadgeLabel(label)]
        } else {
            Seq::empty()
        },
        WindowMessage::SetOverlayIcon(icon) => if platform == Platform::Windows {
            seq![WindowAction::SetOverlayIcon(icon)]
        } else {
            Seq::empty()
        },
        WindowMessage::SetTitleBarStyle(style) => title_bar_actions(platform, style),
        WindowMessage::SetTrafficLightPosition(position) => if platform == Platform::MacOs {
            seq![WindowAction::SetTrafficLightInset(position)]
        } else {
            Seq::empty()
        },
        _ => Seq::empty(),
    }
}

/// What a message tells a window. Questions, and messages that do not concern the
/// window system, tell it nothing.
pub open spec fn window_actions(
    platform: Platform,
    report: WindowReport,
    message: WindowMessage,
) -> Seq<WindowAction> {
    match message {
        WindowMessage::Center => seq![WindowAction::Center],
        WindowMessage::SetMaximizable(maximizable) => seq![
            WindowAction::SetMaximizable(maximizable),
        ],
        WindowMessage::SetMinimizable(minimizable) => seq![
            WindowAction::SetMinimizable(minimizable),
        ],
        WindowMessage::SetClosable(closable) => seq![WindowAction::SetClosable(closable)],
        WindowMessage::SetTitle(title) => seq![WindowAction::SetTitle(title)],
        WindowMessage::Maximize => seq![WindowAction::SetMaximized(true)],
        WindowMessage::Unmaximize => seq![WindowAction::SetMaximized(false)],
        WindowMessage::Minimize => seq![WindowAction::SetMinimized(true)],
        WindowMessage::Unminimize => seq![WindowAction::SetMinimized(false)],
        WindowMessage::SetEnabled(enabled) => seq![WindowAction::SetEnabled(enabled)],
        WindowMessage::Show => seq![WindowAction::SetVisible(true)],
        WindowMessage::Hide => seq![WindowAction::SetVisible(false)],
        WindowMessage::SetAlwaysOnBottom(always_on_bottom) => seq![
            WindowAction::SetAlwaysOnBottom(always_on_bottom),
        ],
        WindowMessage::SetAlwaysOnTop(always_on_top) => seq![
            WindowAction::SetAlwaysOnTop(always_on_top),
        ],
        WindowMessage::SetVisibleOnAllWorkspaces(visible) => seq![
            WindowAction::SetVisibleOnAllWorkspaces(visible),
        ],
        WindowMessage::SetContentProtected(protected) => seq![
            WindowAction::SetContentProtection(protected),
        ],
        WindowMessage::SetFullscreen(fullscreen) => seq![WindowAction::SetFullscreen(fullscreen)],
        WindowMessage::SetFocus => seq![WindowAction::SetFocus],
        WindowMessage::SetFocusable(focusable) => seq![WindowAction::SetFocusable(focusable)],
        WindowMessage::SetIcon(icon) => seq![WindowAction::SetWindowIcon(icon)],
        WindowMessage::SetCursorGrab(grab) => seq![WindowAction::SetCursorGrab(grab)],
        WindowMessage::SetCursorVisible(visible) => seq![WindowAction::SetCursorVisible(visible)],
        WindowMessage::SetIgnoreCursorEvents(ignore) => seq![
            WindowAction::SetIgnoreCursorEvents(ignore),
        ],
        WindowMessage::DragWindow => seq![WindowAction::DragWindow],
        WindowMessage::RequestRedraw => seq![WindowAction::RequestRedraw],
        WindowMessage::SetBackgroundColor(color) => seq![WindowAction::SetBackgroundColor(color)],
        WindowMessage::SetSizeConstraints(constraints) => seq![
            WindowAction::SetInnerSizeConstraints(constraints),
        ],
        WindowMessage::RequestUserAttention(request) => seq![
            WindowAction::RequestUserAttention(
                match request {
                    Some(request) => Some(request.0),
                    None => None,
                },
            ),
        ],
        WindowMessage::SetSize(size) => seq![WindowAction::SetInnerSize(size)],
        WindowMessage::SetMinSize(size) => seq![WindowAction::SetMinInnerSize(size)],
        WindowMessage::SetMaxSize(size) => seq![WindowAction::SetMaxInnerSize(size)],
        WindowMessage::SetPosition(position) => seq![WindowAction::SetOuterPosition(position)],
        WindowMessage::SetCursorPosition(position) => seq![
            WindowAction::SetCursorPosition(position),
        ],
        WindowMessage::SetCursorIcon(icon) => seq![
            WindowAction::SetCursorIcon(
                <CursorIconWrapper as vstd::std_specs::convert::FromSpec<
                    CursorIcon,
                >>::from_spec(icon).0,
            ),
        ],
        WindowMessage::ResizeDragWindow(direction) => seq![
            WindowAction::DragResizeWindow(
                <ResizeDirectionWrapper as vstd::std_specs::convert::FromSpec<
                    ResizeDirection,
                >>::from_spec(direction).0,
            ),
        ],
        WindowMessage::SetProgressBar(state) => seq![
            WindowAction::SetProgressBar(
                <ProgressBarStateWrapper as vstd::std_specs::convert::FromSpec<
                    ProgressBarState,
                >>::from_spec(state).0,
            ),
        ],
        WindowMessage::SetTheme(theme) => seq![
            WindowAction::SetTheme(conversions::tao_theme(theme)),
        ],
        _ => platform_actions(platform, report, message),
    }
}

fn actions_on_resizable(platform: Platform, report: WindowReport, resizable: bool) -> (actions: Vec<
    WindowAction,
>)
    ensures
        actions@ == resizable_actions(platform, report, resizable),
{
    let mut actions: Vec<WindowAction> = vec![WindowAction::SetResizable(resizable)];
    if platform == Platform::Windows {
        if !resizable {
            actions.push(WindowAction::DetachResizeHandler);
        } else if !report.is_decorated {
            actions.push(
                WindowAction::AttachResizeHandler {
                    has_undecorated_shadow: report.has_undecorated_shadow,
                },
            );
        }
    }
    assert(actions@ =~= resizable_actions(platform, report, resizable));
    actions
}

fn actions_on_decorations(
    platform: Platform,
    report: WindowReport,
    decorations: bool,
) -> (actions: Vec<WindowAction>)
    ensures
        actions@ == decoration_actions(platform, report, decorations),
{
    let mut actions: Vec<WindowAction> = vec![WindowAction::SetDecorations(decorations)];
    if platform == Platform::Windows {
        if decorations {
            actions.push(WindowAction::DetachResizeHandler);
        } else if report.is_resizable {
            actions.push(
                WindowAction::AttachResizeHandler {
                    has_undecorated_shadow: report.has_undecorated_shadow,
                },
            );
        }
    }
    assert(actions@ =~= decoration_actions(platform, report, decorations));
    actions
}

fn actions_on_title_bar(platform: Platform, style: TitleBarStyle) -> (actions: Vec<WindowAction>)
    ensures
        actions@ == title_bar_actions(platform, style),
{
    let mut actions: Vec<WindowAction> = Vec::new();
    if platform == Platform::MacOs {
        match style {
            TitleBarStyle::Visible => {
                actions.push(WindowAction::SetTitlebarTransparent(false));
                actions.push(WindowAction::SetFullsizeContentView(true));
            },
            TitleBarStyle::Transparent => {
                actions.push(WindowAction::SetTitlebarTransparent(true));
                actions.push(WindowAction::SetFullsizeContentView(false));
            },
            TitleBarStyle::Overlay => {
                actions.push(WindowAction::SetTitlebarTransparent(true));
                actions.push(WindowAction::SetFullsizeContentView(true));
            },
            TitleBarStyle::Other => {},
        }
    }
    assert(actions@ =~= title_bar_actions(platform, style));
    actions
}

fn actions_on_platform(platform: Platform, report: WindowReport, message: WindowMessage) -> (actions:
    Vec<WindowAction>)
    ensures
        actions@ == platform_actions(platform, report, message),
{
    let mut actions: Vec<WindowAction> = Vec::new();
    match message {
        WindowMessage::SetResizable(resizable) => {
            return actions_on_resizable(platform, report, resizable);
        },
        WindowMessage::SetDecorations(decorations) => {
            return actions_on_decorations(platform, report, decorations);
        },
        WindowMessage::SetShadow(enable) => {
            if platform == Platform::Windows {
                actions.push(WindowAction::SetUndecoratedShadow(enable));
                actions.push(WindowAction::UpdateDragRegion { has_undecorated_shadow: enable });
            }
            if platform == Platform::MacOs {
                actions.push(WindowAction::SetHasShadow(enable));
            }
        },
        WindowMessage::SetSimpleFullscreen(enable) => {
            if platform == Platform::MacOs {
                actions.push(WindowAction::SetSimpleFullscreen(enable));
            }
        },
        WindowMessage::SetSkipTaskbar(skip) => {
            if platform == Platform::Windows || platform == Platform::Linux {
                actions.push(WindowAction::SetSkipTaskbar(skip));
            }
        },
        WindowMessage::SetBadgeCount(count, desktop_filename) => match platform {
            Platform::Ios => {
                actions.push(WindowAction::SetBadgeNumber(clamped_badge(count)));
            },
            Platform::MacOs => {
                actions.push(WindowAction::SetBadgeLabelToNumber(count));
            },
            Platform::Linux => {
                actions.push(WindowAction::SetBadgeCount(count, desktop_filename));
            },
            _ => {},
        },
        WindowMessage::SetBadgeLabel(label) => {
            if platform == Platform::MacOs {
                actions.push(WindowAction::SetBadgeLabel(label));
            }
        },
        WindowMessage::SetOverlayIcon(icon) => {
            if platform == Platform::Windows {
                actions.push(WindowAction::SetOverlayIcon(icon));
            }
        },
        WindowMessage::SetTitleBarStyle(style) => {
            return actions_on_title_bar(platform, style);
        },
        WindowMessage::SetTrafficLightPosition(position) => {
            if platform == Platform::MacOs {
                actions.push(WindowAction::SetTrafficLightInset(position));
            }
        },
        _ => {},
    }
    assert(actions@ =~= platform_actions(platform, report, message));
    actions
}

/// What a message tells a window.
pub fn actions_for(platform: Platform, report: WindowReport, message: WindowMessage) -> (actions:
    Vec<WindowAction>)
    ensures
        actions@ == window_actions(platform, report, message),
{
    let actions: Vec<WindowAction> = match message {
        WindowMessage::Center => vec![WindowAction::Center],
        WindowMessage::SetMaximizable(maximizable) => vec![
            WindowAction::SetMaximizable(maximizable),
        ],
        WindowMessage::SetMinimizable(minimizable) => vec![
            WindowAction::SetMinimizable(minimizable),
        ],
        WindowMessage::SetClosable(closable) => vec![WindowAction::SetClosable(closable)],
        WindowMessage::SetTitle(title) => vec![WindowAction::SetTitle(title)],
        WindowMessage::Maximize => vec![WindowAction::SetMaximized(true)],
        WindowMessage::Unmaximize => vec![WindowAction::SetMaximized(false)],
        WindowMessage::Minimize => vec![WindowAction::SetMinimized(true)],
        WindowMessage::Unminimize => vec![WindowAction::SetMinimized(false)],
        WindowMessage::SetEnabled(enabled) => vec![WindowAction::SetEnabled(enabled)],
        WindowMessage::Show => vec![WindowAction::SetVisible(true)],
        WindowMessage::Hide => vec![WindowAction::SetVisible(false)],
        WindowMessage::SetAlwaysOnBottom(always_on_bottom) => vec![
            WindowAction::SetAlwaysOnBottom(always_on_bottom),
        ],
        WindowMessage::SetAlwaysOnTop(always_on_top) => vec![
            WindowAction::SetAlwaysOnTop(always_on_top),
        ],
        WindowMessage::SetVisibleOnAllWorkspaces(visible) => vec![
            WindowAction::SetVisibleOnAllWorkspaces(visible),
        ],
        WindowMessage::SetContentProtected(protected) => vec![
            WindowAction::SetContentProtection(protected),
        ],
        WindowMessage::SetFullscreen(fullscreen) => vec![WindowAction::SetFullscreen(fullscreen)],
        WindowMessage::SetFocus => vec![WindowAction::SetFocus],
        WindowMessage::SetFocusable(focusable) => vec![WindowAction::SetFocusable(focusable)],
        WindowMessage::SetIcon(icon) => vec![WindowAction::SetWindowIcon(icon)],
        WindowMessage::SetCursorGrab(grab) => vec![WindowAction::SetCursorGrab(grab)],
        WindowMessage::SetCursorVisible(visible) => vec![WindowAction::SetCursorVisible(visible)],
        WindowMessage::SetIgnoreCursorEvents(ignore) => vec![
            WindowAction::SetIgnoreCursorEvents(ignore),
        ],
        WindowMessage::DragWindow => vec![WindowAction::DragWindow],
        WindowMessage::RequestRedraw => vec![WindowAction::RequestRedraw],
        WindowMessage::SetBackgroundColor(color) => vec![WindowAction::SetBackgroundColor(color)],
        WindowMessage::SetSizeConstraints(constraints) => vec![
            WindowAction::SetInnerSizeConstraints(constraints),
        ],
        WindowMessage::RequestUserAttention(request) => vec![
            WindowAction::RequestUserAttention(
                match request {
                    Some(request) => Some(request.0),
                    None => None,
                },
            ),
        ],
        WindowMessage::SetSize(size) => vec![WindowAction::SetInnerSize(SizeWrapper::from(size).0)],
        WindowMessage::SetMinSize(size) => vec![WindowAction::SetMinInnerSize(tao_size(size))],
        WindowMessage::SetMaxSize(size) => vec![WindowAction::SetMaxInnerSize(tao_size(size))],
        WindowMessage::SetPosition(position) => vec![
            WindowAction::SetOuterPosition(PositionWrapper::from(position).0),
        ],
        WindowMessage::SetCursorPosition(position) => vec![
            WindowAction::SetCursorPosition(PositionWrapper::from(position).0),
        ],
        WindowMessage::SetCursorIcon(icon) => vec![
            WindowAction::SetCursorIcon(CursorIconWrapper::from(icon).0),
        ],
        WindowMessage::ResizeDragWindow(direction) => vec![
            WindowAction::DragResizeWindow(ResizeDirectionWrapper::from(direction).0),
        ],
        WindowMessage::SetProgressBar(state) => vec![
            WindowAction::SetProgressBar(ProgressBarStateWrapper::from(state).0),
        ],
        WindowMessage::SetTheme(theme) => vec![WindowAction::SetTheme(to_tao_theme(theme))],
        message => {
            return actions_on_platform(platform, report, message);
        },
    };
    assert(actions@ =~= window_actions(platform, report, message));
    actions
}

/// What the event loop does about a message to a window.
pub open spec fn window_effects(
    platform: Platform,
    report: WindowReport,
    window: TaoWindowId,
    of_webview: bool,
    message: WindowMessage,
) -> Seq<EffectModel> {
    match question(message, of_webview) {
        Some((reply, query)) => seq![
            EffectModel::Do(Action::ReplyWindow { reply, window, query }),
        ],
        None => window_actions(platform, report, message).map_values(
            |action: WindowAction| EffectModel::Do(Action::Window(window, action)),
        ),
    }
}

/// What the event loop does about a message to a window.
pub fn effects_for_window(
    platform: Platform,
    report: WindowReport,
    window: TaoWindowId,
    of_webview: bool,
    message: WindowMessage,
) -> (effects: Vec<Effect>)
    ensures
        messages::models(effects@) == window_effects(platform, report, window, of_webview, message),
{
    if let Some((reply, query)) = window_question(&message, of_webview) {
        let effects: Vec<Effect> = vec![Effect::Do(Action::ReplyWindow { reply, window, query })];
        assert(messages::models(effects@) =~= window_effects(
            platform,
            report,
            window,
            of_webview,
            message,
        ));
        return effects;
    }
    let mut actions = actions_for(platform, report, message);
    let ghost all = actions@;
    let mut effects: Vec<Effect> = Vec::new();
    while actions.len() > 0
        invariant
            actions@.len() <= all.len(),
            actions@ == all.skip(all.len() - actions@.len()),
            messages::models(effects@) == all.take(all.len() - actions@.len()).map_values(
                |action: WindowAction| EffectModel::Do(Action::Window(window, action)),
            ),
        decreases actions@.len(),
    {
        let ghost done = all.len() - actions@.len();
        let ghost before = effects@;
        let action = actions.remove(0);
        assert(action == all[done]);
        assert(actions@ =~= all.skip(done + 1));
        effects.push(Effect::Do(Action::Window(window, action)));
        assert(messages::models(effects@) =~= messages::models(before).push(
            EffectModel::Do(Action::Window(window, all[done])),
        ));
        assert(all.take(done + 1) =~= all.take(done).push(all[done]));
        assert(messages::models(effects@) =~= all.take(done + 1).map_values(
            |action: WindowAction| EffectModel::Do(Action::Window(window, action)),
        ));
    }
    assert(all.take(all.len() as int) =~= all);
    effects
}

/// A message asks a window something or tells it something, but not both.
pub proof fn lemma_questions_tell_nothing(
    platform: Platform,
    report: WindowReport,
    message: WindowMessage,
    of_webview: bool,
)
    ensures
        question(message, of_webview) is Some ==> window_actions(platform, report, message).len()
            == 0,
{
}

} // verus!
