//! What each message to a window does.

use crate::runtime::color::Color;
use crate::runtime::conversions::{
    CursorIcon, ProgressBarState, ProgressBarStatus, ResizeDirection, TaoCursorIcon, TaoIcon,
    TaoProgressBarState, TaoProgressState, TaoResizeDirection, TaoTheme, TaoUserAttentionType, Theme,
    UserAttentionTypeWrapper,
};
use crate::runtime::dpi::{Float64, Position, Size, WindowSizeConstraints};
use crate::runtime::messages::{
    Action, EffectModel, Message, ReplyId, WindowAction, WindowMessage, WindowQuery, WindowReport,
};
use crate::runtime::platform::Platform;
use crate::runtime::store::{WindowId, WindowModel};
use crate::runtime::user_messages;
use crate::runtime::window_builder::TitleBarStyle;
use crate::runtime::window_messages;
use vstd::prelude::*;

verus! {

/// Where a message to a window is handled.
pub struct Scene {
    pub platform: Platform,
    pub report: WindowReport,
    pub windows: Map<WindowId, WindowModel>,
    pub browsers: Seq<Option<i32>>,
    pub id: WindowId,
}

impl Scene {
    /// The window is open.
    pub open spec fn is_open(self) -> bool {
        self.windows.contains_key(self.id) && self.windows[self.id].inner is Some
    }

    /// What is done about a message to the window.
    pub open spec fn effects(self, message: WindowMessage) -> Seq<EffectModel> {
        user_messages::effects_of(
            self.platform,
            self.report,
            self.windows,
            self.browsers,
            Message::<u8>::Window(self.id, message),
        )
    }

    /// A message tells the window system one thing about the window, and nothing else is
    /// done.
    pub open spec fn tells(self, message: WindowMessage, action: WindowAction) -> bool {
        self.effects(message) == seq![
            EffectModel::Do(Action::Window(self.windows[self.id].inner->Some_0, action)),
        ]
    }

    /// A message tells the window system two things about the window, in turn.
    pub open spec fn tells_both(
        self,
        message: WindowMessage,
        first: WindowAction,
        second: WindowAction,
    ) -> bool {
        self.effects(message) == seq![
            EffectModel::Do(Action::Window(self.windows[self.id].inner->Some_0, first)),
            EffectModel::Do(Action::Window(self.windows[self.id].inner->Some_0, second)),
        ]
    }

    /// A message asks the window system about the window. The answer goes to the receiver,
    /// and nothing else is done.
    pub open spec fn asks(
        self,
        message: WindowMessage,
        reply: ReplyId,
        query: WindowQuery,
    ) -> bool {
        self.effects(message) == seq![
            EffectModel::Do(
                Action::ReplyWindow { reply, window: self.windows[self.id].inner->Some_0, query },
            ),
        ]
    }

    /// Nothing is done about a message.
    pub open spec fn ignores(self, message: WindowMessage) -> bool {
        self.effects(message).len() == 0
    }

    proof fn lemma_actions_are_done(self, message: WindowMessage)
        requires
            self.is_open(),
            window_messages::question(
                message,
                user_messages::is_sized_by_webview(self.platform, self.windows[self.id]),
            ) is None,
        ensures
            ({
                let actions = window_messages::window_actions(
                    self.platform,
                    self.report,
                    message,
                );
                &&& actions.len() == 0 ==> self.ignores(message)
                &&& actions.len() == 1 ==> self.tells(message, actions[0])
                &&& actions.len() == 2 ==> self.tells_both(message, actions[0], actions[1])
            }),
    {
        let actions = window_messages::window_actions(self.platform, self.report, message);
        let window = self.windows[self.id].inner->Some_0;
        if actions.len() == 1 {
            assert(self.effects(message) =~= seq![
                EffectModel::Do(Action::Window(window, actions[0])),
            ]);
        }
        if actions.len() == 2 {
            assert(self.effects(message) =~= seq![
                EffectModel::Do(Action::Window(window, actions[0])),
                EffectModel::Do(Action::Window(window, actions[1])),
            ]);
        }
    }
}

/// Each question to a window is asked of the window system as it is, and the answer goes to
/// whoever asked. The size of the content is that of the webview on macOS, if the window
/// holds just one.
pub proof fn lemma_questions_are_asked(scene: Scene, reply: ReplyId, x: Float64, y: Float64)
    requires
        scene.is_open(),
    ensures
        scene.asks(WindowMessage::ScaleFactor(reply), reply, WindowQuery::ScaleFactor),
        scene.asks(WindowMessage::InnerPosition(reply), reply, WindowQuery::InnerPosition),
        scene.asks(WindowMessage::OuterPosition(reply), reply, WindowQuery::OuterPosition),
        scene.asks(
            WindowMessage::InnerSize(reply),
            reply,
            WindowQuery::InnerSize {
                of_webview: scene.platform == Platform::MacOs
                    && !scene.windows[scene.id].has_children
                    && scene.windows[scene.id].webviews.len() > 0,
            },
        ),
        scene.asks(WindowMessage::OuterSize(reply), reply, WindowQuery::OuterSize),
        scene.asks(WindowMessage::IsFullscreen(reply), reply, WindowQuery::IsFullscreen),
        scene.asks(WindowMessage::IsMinimized(reply), reply, WindowQuery::IsMinimized),
        scene.asks(WindowMessage::IsMaximized(reply), reply, WindowQuery::IsMaximized),
        scene.asks(WindowMessage::IsFocused(reply), reply, WindowQuery::IsFocused),
        scene.asks(WindowMessage::IsDecorated(reply), reply, WindowQuery::IsDecorated),
        scene.asks(WindowMessage::IsResizable(reply), reply, WindowQuery::IsResizable),
        scene.asks(WindowMessage::IsMaximizable(reply), reply, WindowQuery::IsMaximizable),
        scene.asks(WindowMessage::IsMinimizable(reply), reply, WindowQuery::IsMinimizable),
        scene.asks(WindowMessage::IsClosable(reply), reply, WindowQuery::IsClosable),
        scene.asks(WindowMessage::IsVisible(reply), reply, WindowQuery::IsVisible),
        scene.asks(WindowMessage::Title(reply), reply, WindowQuery::Title),
        scene.asks(WindowMessage::CurrentMonitor(reply), reply, WindowQuery::CurrentMonitor),
        scene.asks(WindowMessage::PrimaryMonitor(reply), reply, WindowQuery::PrimaryMonitor),
        scene.asks(
            WindowMessage::MonitorFromPoint(reply, x, y),
            reply,
            WindowQuery::MonitorFromPoint(x, y),
        ),
        scene.asks(WindowMessage::AvailableMonitors(reply), reply, WindowQuery::AvailableMonitors),
        scene.asks(WindowMessage::GtkWindow(reply), reply, WindowQuery::GtkWindow),
        scene.asks(WindowMessage::GtkBox(reply), reply, WindowQuery::GtkBox),
        scene.asks(WindowMessage::RawWindowHandle(reply), reply, WindowQuery::RawWindowHandle),
        scene.asks(WindowMessage::Theme(reply), reply, WindowQuery::Theme),
        scene.asks(WindowMessage::IsEnabled(reply), reply, WindowQuery::IsEnabled),
        scene.asks(WindowMessage::IsAlwaysOnTop(reply), reply, WindowQuery::IsAlwaysOnTop),
{
}

/// The state that a window is to have is the state that the window system is told, for each
/// kind of state.
pub proof fn lemma_states_are_set(scene: Scene, on: bool)
    requires
        scene.is_open(),
    ensures
        scene.tells(WindowMessage::SetEnabled(on), WindowAction::SetEnabled(on)),
        scene.tells(WindowMessage::SetMaximizable(on), WindowAction::SetMaximizable(on)),
        scene.tells(WindowMessage::SetMinimizable(on), WindowAction::SetMinimizable(on)),
        scene.tells(WindowMessage::SetClosable(on), WindowAction::SetClosable(on)),
        scene.tells(WindowMessage::SetAlwaysOnBottom(on), WindowAction::SetAlwaysOnBottom(on)),
        scene.tells(WindowMessage::SetAlwaysOnTop(on), WindowAction::SetAlwaysOnTop(on)),
        scene.tells(WindowMessage::SetVisibleOnAllWorkspaces(on), WindowAction::SetVisibleOnAllWorkspaces(on)),
        scene.tells(WindowMessage::SetContentProtected(on), WindowAction::SetContentProtection(on)),
        scene.tells(WindowMessage::SetFullscreen(on), WindowAction::SetFullscreen(on)),
        scene.tells(WindowMessage::SetFocusable(on), WindowAction::SetFocusable(on)),
        scene.tells(WindowMessage::SetCursorGrab(on), WindowAction::SetCursorGrab(on)),
        scene.tells(WindowMessage::SetCursorVisible(on), WindowAction::SetCursorVisible(on)),
        scene.tells(WindowMessage::SetIgnoreCursorEvents(on), WindowAction::SetIgnoreCursorEvents(on)),
{
    scene.lemma_actions_are_done(WindowMessage::SetEnabled(on));
    scene.lemma_actions_are_done(WindowMessage::SetMaximizable(on));
    scene.lemma_actions_are_done(WindowMessage::SetMinimizable(on));
    scene.lemma_actions_are_done(WindowMessage::SetClosable(on));
    scene.lemma_actions_are_done(WindowMessage::SetAlwaysOnBottom(on));
    scene.lemma_actions_are_done(WindowMessage::SetAlwaysOnTop(on));
    scene.lemma_actions_are_done(WindowMessage::SetVisibleOnAllWorkspaces(on));
    scene.lemma_actions_are_done(WindowMessage::SetContentProtected(on));
    scene.lemma_actions_are_done(WindowMessage::SetFullscreen(on));
    scene.lemma_actions_are_done(WindowMessage::SetFocusable(on));
    scene.lemma_actions_are_done(WindowMessage::SetCursorGrab(on));
    scene.lemma_actions_are_done(WindowMessage::SetCursorVisible(on));
    scene.lemma_actions_are_done(WindowMessage::SetIgnoreCursorEvents(on));
}

/// What undoes something tells the window system the opposite; the other commands are passed
/// on as they are.
pub proof fn lemma_opposites_are_told(scene: Scene)
    requires
        scene.is_open(),
    ensures
        scene.tells(WindowMessage::Maximize, WindowAction::SetMaximized(true)),
        scene.tells(WindowMessage::Unmaximize, WindowAction::SetMaximized(false)),
        scene.tells(WindowMessage::Minimize, WindowAction::SetMinimized(true)),
        scene.tells(WindowMessage::Unminimize, WindowAction::SetMinimized(false)),
        scene.tells(WindowMessage::Show, WindowAction::SetVisible(true)),
        scene.tells(WindowMessage::Hide, WindowAction::SetVisible(false)),
        scene.tells(WindowMessage::Center, WindowAction::Center),
        scene.tells(WindowMessage::SetFocus, WindowAction::SetFocus),
        scene.tells(WindowMessage::DragWindow, WindowAction::DragWindow),
        scene.tells(WindowMessage::RequestRedraw, WindowAction::RequestRedraw),
{
    scene.lemma_actions_are_done(WindowMessage::Maximize);
    scene.lemma_actions_are_done(WindowMessage::Unmaximize);
    scene.lemma_actions_are_done(WindowMessage::Minimize);
    scene.lemma_actions_are_done(WindowMessage::Unminimize);
    scene.lemma_actions_are_done(WindowMessage::Show);
    scene.lemma_actions_are_done(WindowMessage::Hide);
    scene.lemma_actions_are_done(WindowMessage::Center);
    scene.lemma_actions_are_done(WindowMessage::SetFocus);
    scene.lemma_actions_are_done(WindowMessage::DragWindow);
    scene.lemma_actions_are_done(WindowMessage::RequestRedraw);
}

/// What a window is given reaches the window system unchanged.
pub proof fn lemma_values_are_told(scene: Scene, title: String, size: Size, some_size: Option<Size>, constraints: WindowSizeConstraints, position: Position, icon: TaoIcon, color: Option<Color>)
    requires
        scene.is_open(),
    ensures
        scene.tells(WindowMessage::SetTitle(title), WindowAction::SetTitle(title)),
        scene.tells(WindowMessage::SetSize(size), WindowAction::SetInnerSize(size)),
        scene.tells(WindowMessage::SetMinSize(some_size), WindowAction::SetMinInnerSize(some_size)),
        scene.tells(WindowMessage::SetMaxSize(some_size), WindowAction::SetMaxInnerSize(some_size)),
        scene.tells(WindowMessage::SetSizeConstraints(constraints), WindowAction::SetInnerSizeConstraints(constraints)),
        scene.tells(WindowMessage::SetPosition(position), WindowAction::SetOuterPosition(position)),
        scene.tells(WindowMessage::SetCursorPosition(position), WindowAction::SetCursorPosition(position)),
        scene.tells(WindowMessage::SetIcon(icon), WindowAction::SetWindowIcon(icon)),
        scene.tells(WindowMessage::SetBackgroundColor(color), WindowAction::SetBackgroundColor(color)),
{
    scene.lemma_actions_are_done(WindowMessage::SetTitle(title));
    scene.lemma_actions_are_done(WindowMessage::SetSize(size));
    scene.lemma_actions_are_done(WindowMessage::SetMinSize(some_size));
    scene.lemma_actions_are_done(WindowMessage::SetMaxSize(some_size));
    scene.lemma_actions_are_done(WindowMessage::SetSizeConstraints(constraints));
    scene.lemma_actions_are_done(WindowMessage::SetPosition(position));
    scene.lemma_actions_are_done(WindowMessage::SetCursorPosition(position));
    scene.lemma_actions_are_done(WindowMessage::SetIcon(icon));
    scene.lemma_actions_are_done(WindowMessage::SetBackgroundColor(color));
}

/// Attention is asked for as urgently as it was, or no more; a color scheme keeps its name,
/// and without one the window follows the system.
pub proof fn lemma_attention_and_theme_are_told(scene: Scene)
    requires
        scene.is_open(),
    ensures
        scene.tells(WindowMessage::RequestUserAttention(Some(UserAttentionTypeWrapper(TaoUserAttentionType::Critical))), WindowAction::RequestUserAttention(Some(TaoUserAttentionType::Critical))),
        scene.tells(WindowMessage::RequestUserAttention(Some(UserAttentionTypeWrapper(TaoUserAttentionType::Informational))), WindowAction::RequestUserAttention(Some(TaoUserAttentionType::Informational))),
        scene.tells(WindowMessage::RequestUserAttention(None), WindowAction::RequestUserAttention(None)),
        scene.tells(WindowMessage::SetTheme(Some(Theme::Dark)), WindowAction::SetTheme(Some(TaoTheme::Dark))),
        scene.tells(WindowMessage::SetTheme(Some(Theme::Light)), WindowAction::SetTheme(Some(TaoTheme::Light))),
        scene.tells(WindowMessage::SetTheme(None), WindowAction::SetTheme(None)),
{
    scene.lemma_actions_are_done(WindowMessage::RequestUserAttention(Some(UserAttentionTypeWrapper(TaoUserAttentionType::Critical))));
    scene.lemma_actions_are_done(WindowMessage::RequestUserAttention(Some(UserAttentionTypeWrapper(TaoUserAttentionType::Informational))));
    scene.lemma_actions_are_done(WindowMessage::RequestUserAttention(None));
    scene.lemma_actions_are_done(WindowMessage::SetTheme(Some(Theme::Dark)));
    scene.lemma_actions_are_done(WindowMessage::SetTheme(Some(Theme::Light)));
    scene.lemma_actions_are_done(WindowMessage::SetTheme(None));
}

/// A window is resized at the edge or corner that was grabbed.
pub proof fn lemma_windows_are_resized_where_dragged(scene: Scene)
    requires
        scene.is_open(),
    ensures
        scene.tells(WindowMessage::ResizeDragWindow(ResizeDirection::East), WindowAction::DragResizeWindow(TaoResizeDirection::East)),
        scene.tells(WindowMessage::ResizeDragWindow(ResizeDirection::North), WindowAction::DragResizeWindow(TaoResizeDirection::North)),
        scene.tells(WindowMessage::ResizeDragWindow(ResizeDirection::NorthEast), WindowAction::DragResizeWindow(TaoResizeDirection::NorthEast)),
        scene.tells(WindowMessage::ResizeDragWindow(ResizeDirection::NorthWest), WindowAction::DragResizeWindow(TaoResizeDirection::NorthWest)),
        scene.tells(WindowMessage::ResizeDragWindow(ResizeDirection::South), WindowAction::DragResizeWindow(TaoResizeDirection::South)),
        scene.tells(WindowMessage::ResizeDragWindow(ResizeDirection::SouthEast), WindowAction::DragResizeWindow(TaoResizeDirection::SouthEast)),
        scene.tells(WindowMessage::ResizeDragWindow(ResizeDirection::SouthWest), WindowAction::DragResizeWindow(TaoResizeDirection::SouthWest)),
        scene.tells(WindowMessage::ResizeDragWindow(ResizeDirection::West), WindowAction::DragResizeWindow(TaoResizeDirection::West)),
{
    scene.lemma_actions_are_done(WindowMessage::ResizeDragWindow(ResizeDirection::East));
    scene.lemma_actions_are_done(WindowMessage::ResizeDragWindow(ResizeDirection::North));
    scene.lemma_actions_are_done(WindowMessage::ResizeDragWindow(ResizeDirection::NorthEast));
    scene.lemma_actions_are_done(WindowMessage::ResizeDragWindow(ResizeDirection::NorthWest));
    scene.lemma_actions_are_done(WindowMessage::ResizeDragWindow(ResizeDirection::South));
    scene.lemma_actions_are_done(WindowMessage::ResizeDragWindow(ResizeDirection::SouthEast));
    scene.lemma_actions_are_done(WindowMessage::ResizeDragWindow(ResizeDirection::SouthWest));
    scene.lemma_actions_are_done(WindowMessage::ResizeDragWindow(ResizeDirection::West));
}

/// The cursor gets the shape that was asked for.
pub proof fn lemma_cursor_gets_its_shape(scene: Scene)
    requires
        scene.is_open(),
    ensures
        scene.tells(WindowMessage::SetCursorIcon(CursorIcon::Default), WindowAction::SetCursorIcon(TaoCursorIcon::Default)),
        scene.tells(WindowMessage::SetCursorIcon(CursorIcon::Crosshair), WindowAction::SetCursorIcon(TaoCursorIcon::Crosshair)),
        scene.tells(WindowMessage::SetCursorIcon(CursorIcon::Hand), WindowAction::SetCursorIcon(TaoCursorIcon::Hand)),
        scene.tells(WindowMessage::SetCursorIcon(CursorIcon::Arrow), WindowAction::SetCursorIcon(TaoCursorIcon::Arrow)),
        scene.tells(WindowMessage::SetCursorIcon(CursorIcon::Move), WindowAction::SetCursorIcon(TaoCursorIcon::Move)),
        scene.tells(WindowMessage::SetCursorIcon(CursorIcon::Text), WindowAction::SetCursorIcon(TaoCursorIcon::Text)),
        scene.tells(WindowMessage::SetCursorIcon(CursorIcon::Wait), WindowAction::SetCursorIcon(TaoCursorIcon::Wait)),
        scene.tells(WindowMessage::SetCursorIcon(CursorIcon::Help), WindowAction::SetCursorIcon(TaoCursorIcon::Help)),
        scene.tells(WindowMessage::SetCursorIcon(CursorIcon::Progress), WindowAction::SetCursorIcon(TaoCursorIcon::Progress)),
        scene.tells(WindowMessage::SetCursorIcon(CursorIcon::NotAllowed), WindowAction::SetCursorIcon(TaoCursorIcon::NotAllowed)),
        scene.tells(WindowMessage::SetCursorIcon(CursorIcon::ContextMenu), WindowAction::SetCursorIcon(TaoCursorIcon::ContextMenu)),
        scene.tells(WindowMessage::SetCursorIcon(CursorIcon::Cell), WindowAction::SetCursorIcon(TaoCursorIcon::Cell)),
        scene.tells(WindowMessage::SetCursorIcon(CursorIcon::VerticalText), WindowAction::SetCursorIcon(TaoCursorIcon::VerticalText)),
        scene.tells(WindowMessage::SetCursorIcon(CursorIcon::Alias), WindowAction::SetCursorIcon(TaoCursorIcon::Alias)),
        scene.tells(WindowMessage::SetCursorIcon(CursorIcon::Copy), WindowAction::SetCursorIcon(TaoCursorIcon::Copy)),
        scene.tells(WindowMessage::SetCursorIcon(CursorIcon::NoDrop), WindowAction::SetCursorIcon(TaoCursorIcon::NoDrop)),
        scene.tells(WindowMessage::SetCursorIcon(CursorIcon::Grab), WindowAction::SetCursorIcon(TaoCursorIcon::Grab)),
        scene.tells(WindowMessage::SetCursorIcon(CursorIcon::Grabbing), WindowAction::SetCursorIcon(TaoCursorIcon::Grabbing)),
        scene.tells(WindowMessage::SetCursorIcon(CursorIcon::AllScroll), WindowAction::SetCursorIcon(TaoCursorIcon::AllScroll)),
        scene.tells(WindowMessage::SetCursorIcon(CursorIcon::ZoomIn), WindowAction::SetCursorIcon(TaoCursorIcon::ZoomIn)),
        scene.tells(WindowMessage::SetCursorIcon(CursorIcon::ZoomOut), WindowAction::SetCursorIcon(TaoCursorIcon::ZoomOut)),
        scene.tells(WindowMessage::SetCursorIcon(CursorIcon::EResize), WindowAction::SetCursorIcon(TaoCursorIcon::EResize)),
        scene.tells(WindowMessage::SetCursorIcon(CursorIcon::NResize), WindowAction::SetCursorIcon(TaoCursorIcon::NResize)),
        scene.tells(WindowMessage::SetCursorIcon(CursorIcon::NeResize), WindowAction::SetCursorIcon(TaoCursorIcon::NeResize)),
        scene.tells(WindowMessage::SetCursorIcon(CursorIcon::NwResize), WindowAction::SetCursorIcon(TaoCursorIcon::NwResize)),
        scene.tells(WindowMessage::SetCursorIcon(CursorIcon::SResize), WindowAction::SetCursorIcon(TaoCursorIcon::SResize)),
        scene.tells(WindowMessage::SetCursorIcon(CursorIcon::SeResize), WindowAction::SetCursorIcon(TaoCursorIcon::SeResize)),
        scene.tells(WindowMessage::SetCursorIcon(CursorIcon::SwResize), WindowAction::SetCursorIcon(TaoCursorIcon::SwResize)),
        scene.tells(WindowMessage::SetCursorIcon(CursorIcon::WResize), WindowAction::SetCursorIcon(TaoCursorIcon::WResize)),
        scene.tells(WindowMessage::SetCursorIcon(CursorIcon::EwResize), WindowAction::SetCursorIcon(TaoCursorIcon::EwResize)),
        scene.tells(WindowMessage::SetCursorIcon(CursorIcon::NsResize), WindowAction::SetCursorIcon(TaoCursorIcon::NsResize)),
        scene.tells(WindowMessage::SetCursorIcon(CursorIcon::NeswResize), WindowAction::SetCursorIcon(TaoCursorIcon::NeswResize)),
        scene.tells(WindowMessage::SetCursorIcon(CursorIcon::NwseResize), WindowAction::SetCursorIcon(TaoCursorIcon::NwseResize)),
        scene.tells(WindowMessage::SetCursorIcon(CursorIcon::ColResize), WindowAction::SetCursorIcon(TaoCursorIcon::ColResize)),
        scene.tells(WindowMessage::SetCursorIcon(CursorIcon::RowResize), WindowAction::SetCursorIcon(TaoCursorIcon::RowResize)),
{
    scene.lemma_actions_are_done(WindowMessage::SetCursorIcon(CursorIcon::Default));
    scene.lemma_actions_are_done(WindowMessage::SetCursorIcon(CursorIcon::Crosshair));
    scene.lemma_actions_are_done(WindowMessage::SetCursorIcon(CursorIcon::Hand));
    scene.lemma_actions_are_done(WindowMessage::SetCursorIcon(CursorIcon::Arrow));
    scene.lemma_actions_are_done(WindowMessage::SetCursorIcon(CursorIcon::Move));
    scene.lemma_actions_are_done(WindowMessage::SetCursorIcon(CursorIcon::Text));
    scene.lemma_actions_are_done(WindowMessage::SetCursorIcon(CursorIcon::Wait));
    scene.lemma_actions_are_done(WindowMessage::SetCursorIcon(CursorIcon::Help));
    scene.lemma_actions_are_done(WindowMessage::SetCursorIcon(CursorIcon::Progress));
    scene.lemma_actions_are_done(WindowMessage::SetCursorIcon(CursorIcon::NotAllowed));
    scene.lemma_actions_are_done(WindowMessage::SetCursorIcon(CursorIcon::ContextMenu));
    scene.lemma_actions_are_done(WindowMessage::SetCursorIcon(CursorIcon::Cell));
    scene.lemma_actions_are_done(WindowMessage::SetCursorIcon(CursorIcon::VerticalText));
    scene.lemma_actions_are_done(WindowMessage::SetCursorIcon(CursorIcon::Alias));
    scene.lemma_actions_are_done(WindowMessage::SetCursorIcon(CursorIcon::Copy));
    scene.lemma_actions_are_done(WindowMessage::SetCursorIcon(CursorIcon::NoDrop));
    scene.lemma_actions_are_done(WindowMessage::SetCursorIcon(CursorIcon::Grab));
    scene.lemma_actions_are_done(WindowMessage::SetCursorIcon(CursorIcon::Grabbing));
    scene.lemma_actions_are_done(WindowMessage::SetCursorIcon(CursorIcon::AllScroll));
    scene.lemma_actions_are_done(WindowMessage::SetCursorIcon(CursorIcon::ZoomIn));
    scene.lemma_actions_are_done(WindowMessage::SetCursorIcon(CursorIcon::ZoomOut));
    scene.lemma_actions_are_done(WindowMessage::SetCursorIcon(CursorIcon::EResize));
    scene.lemma_actions_are_done(WindowMessage::SetCursorIcon(CursorIcon::NResize));
    scene.lemma_actions_are_done(WindowMessage::SetCursorIcon(CursorIcon::NeResize));
    scene.lemma_actions_are_done(WindowMessage::SetCursorIcon(CursorIcon::NwResize));
    scene.lemma_actions_are_done(WindowMessage::SetCursorIcon(CursorIcon::SResize));
    scene.lemma_actions_are_done(WindowMessage::SetCursorIcon(CursorIcon::SeResize));
    scene.lemma_actions_are_done(WindowMessage::SetCursorIcon(CursorIcon::SwResize));
    scene.lemma_actions_are_done(WindowMessage::SetCursorIcon(CursorIcon::WResize));
    scene.lemma_actions_are_done(WindowMessage::SetCursorIcon(CursorIcon::EwResize));
    scene.lemma_actions_are_done(WindowMessage::SetCursorIcon(CursorIcon::NsResize));
    scene.lemma_actions_are_done(WindowMessage::SetCursorIcon(CursorIcon::NeswResize));
    scene.lemma_actions_are_done(WindowMessage::SetCursorIcon(CursorIcon::NwseResize));
    scene.lemma_actions_are_done(WindowMessage::SetCursorIcon(CursorIcon::ColResize));
    scene.lemma_actions_are_done(WindowMessage::SetCursorIcon(CursorIcon::RowResize));
}

/// A progress bar shows the progress and the state that it was given.
pub proof fn lemma_progress_is_shown(scene: Scene, progress: Option<u64>, desktop_filename: Option<String>)
    requires
        scene.is_open(),
    ensures
        scene.tells(WindowMessage::SetProgressBar(ProgressBarState { status: None, progress, desktop_filename }), WindowAction::SetProgressBar(TaoProgressBarState { state: None, progress, desktop_filename })),
        scene.tells(WindowMessage::SetProgressBar(ProgressBarState { status: Some(ProgressBarStatus::Absent), progress, desktop_filename }), WindowAction::SetProgressBar(TaoProgressBarState { state: Some(TaoProgressState::Absent), progress, desktop_filename })),
        scene.tells(WindowMessage::SetProgressBar(ProgressBarState { status: Some(ProgressBarStatus::Normal), progress, desktop_filename }), WindowAction::SetProgressBar(TaoProgressBarState { state: Some(TaoProgressState::Normal), progress, desktop_filename })),
        scene.tells(WindowMessage::SetProgressBar(ProgressBarState { status: Some(ProgressBarStatus::Indeterminate), progress, desktop_filename }), WindowAction::SetProgressBar(TaoProgressBarState { state: Some(TaoProgressState::Indeterminate), progress, desktop_filename })),
        scene.tells(WindowMessage::SetProgressBar(ProgressBarState { status: Some(ProgressBarStatus::Paused), progress, desktop_filename }), WindowAction::SetProgressBar(TaoProgressBarState { state: Some(TaoProgressState::Paused), progress, desktop_filename })),
        scene.tells(WindowMessage::SetProgressBar(ProgressBarState { status: Some(ProgressBarStatus::Error), progress, desktop_filename }), WindowAction::SetProgressBar(TaoProgressBarState { state: Some(TaoProgressState::Error), progress, desktop_filename })),
{
    scene.lemma_actions_are_done(WindowMessage::SetProgressBar(ProgressBarState { status: None, progress, desktop_filename }));
    scene.lemma_actions_are_done(WindowMessage::SetProgressBar(ProgressBarState { status: Some(ProgressBarStatus::Absent), progress, desktop_filename }));
    scene.lemma_actions_are_done(WindowMessage::SetProgressBar(ProgressBarState { status: Some(ProgressBarStatus::Normal), progress, desktop_filename }));
    scene.lemma_actions_are_done(WindowMessage::SetProgressBar(ProgressBarState { status: Some(ProgressBarStatus::Indeterminate), progress, desktop_filename }));
    scene.lemma_actions_are_done(WindowMessage::SetProgressBar(ProgressBarState { status: Some(ProgressBarStatus::Paused), progress, desktop_filename }));
    scene.lemma_actions_are_done(WindowMessage::SetProgressBar(ProgressBarState { status: Some(ProgressBarStatus::Error), progress, desktop_filename }));
}

/// A window is told that it is resizable, or not. On Windows one without decorations gets
/// handles to resize it by, and one that is not resizable loses them.
pub proof fn lemma_resizable_windows_have_handles(scene: Scene, on: bool)
    requires
        scene.is_open(),
    ensures
        ({
            let message = WindowMessage::SetResizable(on);
            let told = WindowAction::SetResizable(on);
            let windows = scene.platform == Platform::Windows;
            &&& !windows ==> scene.tells(message, told)
            &&& windows && on && scene.report.is_decorated ==> scene.tells(message, told)
            &&& windows && on && !scene.report.is_decorated ==> scene.tells_both(
                message,
                told,
                WindowAction::AttachResizeHandler {
                    has_undecorated_shadow: scene.report.has_undecorated_shadow,
                },
            )
            &&& windows && !on ==> scene.tells_both(
                message,
                told,
                WindowAction::DetachResizeHandler,
            )
        }),
{
    scene.lemma_actions_are_done(WindowMessage::SetResizable(on));
}

/// A window is told that it has decorations, or none. On Windows a resizable one without
/// decorations gets handles to resize it by, and one with decorations loses them.
pub proof fn lemma_undecorated_windows_have_handles(scene: Scene, on: bool)
    requires
        scene.is_open(),
    ensures
        ({
            let message = WindowMessage::SetDecorations(on);
            let told = WindowAction::SetDecorations(on);
            let windows = scene.platform == Platform::Windows;
            &&& !windows ==> scene.tells(message, told)
            &&& windows && on ==> scene.tells_both(
                message,
                told,
                WindowAction::DetachResizeHandler,
            )
            &&& windows && !on && !scene.report.is_resizable ==> scene.tells(message, told)
            &&& windows && !on && scene.report.is_resizable ==> scene.tells_both(
                message,
                told,
                WindowAction::AttachResizeHandler {
                    has_undecorated_shadow: scene.report.has_undecorated_shadow,
                },
            )
        }),
{
    scene.lemma_actions_are_done(WindowMessage::SetDecorations(on));
}

/// What only some platforms have is told to these, and to no other: shadows on Windows and
/// macOS, the taskbar on Windows and Linux, overlay icons on Windows, and simple fullscreen,
/// labels on the badge and traffic lights on macOS.
pub proof fn lemma_platforms_get_what_they_have(
    scene: Scene,
    on: bool,
    label: Option<String>,
    icon: Option<TaoIcon>,
    position: Position,
)
    requires
        scene.is_open(),
    ensures
        ({
            let windows = scene.platform == Platform::Windows;
            let macos = scene.platform == Platform::MacOs;
            let linux = scene.platform == Platform::Linux;
            &&& windows ==> scene.tells_both(
                WindowMessage::SetShadow(on),
                WindowAction::SetUndecoratedShadow(on),
                WindowAction::UpdateDragRegion { has_undecorated_shadow: on },
            )
            &&& macos ==> scene.tells(WindowMessage::SetShadow(on), WindowAction::SetHasShadow(on))
            &&& !windows && !macos ==> scene.ignores(WindowMessage::SetShadow(on))
            &&& macos ==> scene.tells(
                WindowMessage::SetSimpleFullscreen(on),
                WindowAction::SetSimpleFullscreen(on),
            )
            &&& !macos ==> scene.ignores(WindowMessage::SetSimpleFullscreen(on))
            &&& windows || linux ==> scene.tells(
                WindowMessage::SetSkipTaskbar(on),
                WindowAction::SetSkipTaskbar(on),
            )
            &&& !windows && !linux ==> scene.ignores(WindowMessage::SetSkipTaskbar(on))
            &&& macos ==> scene.tells(
                WindowMessage::SetBadgeLabel(label),
                WindowAction::SetBadgeLabel(label),
            )
            &&& !macos ==> scene.ignores(WindowMessage::SetBadgeLabel(label))
            &&& windows ==> scene.tells(
                WindowMessage::SetOverlayIcon(icon),
                WindowAction::SetOverlayIcon(icon),
            )
            &&& !windows ==> scene.ignores(WindowMessage::SetOverlayIcon(icon))
            &&& macos ==> scene.tells(
                WindowMessage::SetTrafficLightPosition(position),
                WindowAction::SetTrafficLightInset(position),
            )
            &&& !macos ==> scene.ignores(WindowMessage::SetTrafficLightPosition(position))
        }),
{
    scene.lemma_actions_are_done(WindowMessage::SetShadow(on));
    scene.lemma_actions_are_done(WindowMessage::SetSimpleFullscreen(on));
    scene.lemma_actions_are_done(WindowMessage::SetSkipTaskbar(on));
    scene.lemma_actions_are_done(WindowMessage::SetBadgeLabel(label));
    scene.lemma_actions_are_done(WindowMessage::SetOverlayIcon(icon));
    scene.lemma_actions_are_done(WindowMessage::SetTrafficLightPosition(position));
}

/// A badge shows the count that it was given. On iOS the count is cut to what a badge can
/// show, and without a count the badge shows zero; Windows and Android have no badges.
pub proof fn lemma_badges_show_their_count(
    scene: Scene,
    count: i64,
    desktop_filename: Option<String>,
)
    requires
        scene.is_open(),
    ensures
        ({
            let some = WindowMessage::SetBadgeCount(Some(count), desktop_filename);
            let without = WindowMessage::SetBadgeCount(None, desktop_filename);
            match scene.platform {
                Platform::Linux => {
                    &&& scene.tells(some, WindowAction::SetBadgeCount(Some(count), desktop_filename))
                    &&& scene.tells(without, WindowAction::SetBadgeCount(None, desktop_filename))
                },
                Platform::MacOs => {
                    &&& scene.tells(some, WindowAction::SetBadgeLabelToNumber(Some(count)))
                    &&& scene.tells(without, WindowAction::SetBadgeLabelToNumber(None))
                },
                Platform::Ios => {
                    &&& i32::MIN <= count <= i32::MAX ==> scene.tells(
                        some,
                        WindowAction::SetBadgeNumber(count as i32),
                    )
                    &&& count > i32::MAX ==> scene.tells(
                        some,
                        WindowAction::SetBadgeNumber(i32::MAX),
                    )
                    &&& count < i32::MIN ==> scene.tells(
                        some,
                        WindowAction::SetBadgeNumber(i32::MIN),
                    )
                    &&& scene.tells(without, WindowAction::SetBadgeNumber(0))
                },
                _ => scene.ignores(some) && scene.ignores(without),
            }
        }),
{
    scene.lemma_actions_are_done(WindowMessage::SetBadgeCount(Some(count), desktop_filename));
    scene.lemma_actions_are_done(WindowMessage::SetBadgeCount(None, desktop_filename));
}

/// On macOS a title bar is transparent unless it is visible, and the content reaches under
/// it unless it is transparent only. No other platform has styles of title bars.
pub proof fn lemma_title_bars_get_their_style(scene: Scene, style: TitleBarStyle)
    requires
        scene.is_open(),
    ensures
        ({
            let message = WindowMessage::SetTitleBarStyle(style);
            let look = |transparent: bool, full_size: bool|
                scene.tells_both(
                    message,
                    WindowAction::SetTitlebarTransparent(transparent),
                    WindowAction::SetFullsizeContentView(full_size),
                );
            if scene.platform != Platform::MacOs {
                scene.ignores(message)
            } else {
                match style {
                    TitleBarStyle::Visible => look(false, true),
                    TitleBarStyle::Transparent => look(true, false),
                    TitleBarStyle::Overlay => look(true, true),
                    TitleBarStyle::Other => scene.ignores(message),
                }
            }
        }),
{
    scene.lemma_actions_are_done(WindowMessage::SetTitleBarStyle(style));
}

/// A listener that is added to a window makes nothing be done.
pub proof fn lemma_listeners_are_added_silently(scene: Scene, listener: u32, handler: u64)
    requires
        scene.is_open(),
    ensures
        scene.ignores(WindowMessage::AddEventListener(listener, handler)),
{
    scene.lemma_actions_are_done(WindowMessage::AddEventListener(listener, handler));
}

} // verus!
