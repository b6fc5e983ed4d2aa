//! What the application asks of a window.

use crate::client::HandlerId;
use crate::runtime::color::Color;
use crate::runtime::context;
use crate::runtime::context::{
    send_and_forget, send_user_message, Caller, Context, ContextModel, DetachedWebview,
    DetachedWindow, NextIds,
};
use crate::runtime::conversions::{
    CursorIcon, Error, Icon, ProgressBarState, ResizeDirection, TaoIcon, Theme,
    UserAttentionType, UserAttentionTypeWrapper,
};
use crate::runtime::dpi::{Float64, Position, Size, WindowSizeConstraints};
use crate::runtime::messages;
use crate::runtime::messages::{Effect, Message, ReplyId, TaskId, WindowMessage};
use crate::runtime::platform::Platform;
use crate::runtime::store::{WindowEventId, WindowId};
use crate::runtime::window_builder::TitleBarStyle;
use vstd::prelude::*;

verus! {

/// Sends messages to a window.
#[derive(Debug, Clone, Copy, PartialEq, Eq, Structural)]
pub struct WryWindowDispatcher {
    pub window_id: WindowId,
}

/// A request for the attention of the user, as the window system has it.
pub open spec fn attention(request: Option<UserAttentionType>) -> Option<
    UserAttentionTypeWrapper,
> {
    match request {
        Some(request) => Some(
            <UserAttentionTypeWrapper as vstd::std_specs::convert::FromSpec<
                UserAttentionType,
            >>::from_spec(request),
        ),
        None => None,
    }
}

/// The icon that pixels make, or why they make none.
pub open spec fn icon_of(platform: Platform, icon: Icon) -> Result<TaoIcon, Error> {
    <TaoIcon as vstd::std_specs::convert::TryFromSpec<(Platform, Icon)>>::try_from_spec(
        (platform, icon),
    )
}

/// An icon for the task bar, if there is to be one.
pub open spec fn overlay_of(platform: Platform, icon: Option<Icon>) -> Result<
    Option<TaoIcon>,
    Error,
> {
    match icon {
        Some(icon) => match icon_of(platform, icon) {
            Ok(icon) => Ok(Some(icon)),
            Err(error) => Err(error),
        },
        None => Ok(None),
    }
}

impl WryWindowDispatcher {
    /// Runs work of the application on the main thread.
    pub fn run_on_main_thread<T>(
        &self,
        context: &mut Context<T>,
        caller: Caller,
        task: TaskId,
    ) -> (result: Result<Vec<Effect>, Error>)
        ensures
            (final(context)@, context::outcome(result)) == context::dispatched(
                old(context)@,
                caller,
                Message::Task(task),
            ),
    {
        send_user_message(context, caller, Message::Task(task))
    }

    /// Adds a listener for events of the window, and gives its identifier. The event loop
    /// adds it, whatever the thread.
    pub fn on_window_event<T>(&self, context: &mut Context<T>, handler: HandlerId) -> (id:
        WindowEventId)
        ensures
            id == old(context)@.next_ids.window_event,
            final(context)@ == context::posted(
                ContextModel {
                    next_ids: NextIds {
                        window_event: context::successor(id),
                        ..old(context)@.next_ids
                    },
                    ..old(context)@
                },
                Message::Window(self.window_id, WindowMessage::AddEventListener(id, handler)),
            ),
    {
        let id: WindowEventId = context.next_window_event_id();
        let _ = context.post(
            Message::Window(self.window_id, WindowMessage::AddEventListener(id, handler)),
        );
        id
    }

    /// Asks for the scale factor of the window.
    pub fn scale_factor<T>(
        &self,
        context: &mut Context<T>,
        caller: Caller,
        reply: ReplyId,
    ) -> (result: Result<Vec<Effect>, Error>)
        ensures
            (final(context)@, context::outcome(result)) == context::dispatched(
                old(context)@,
                caller,
                Message::Window(self.window_id, WindowMessage::ScaleFactor(reply)),
            ),
    {
        send_user_message(
            context,
            caller,
            Message::Window(self.window_id, WindowMessage::ScaleFactor(reply)),
        )
    }

    /// Asks for the position of the content of the window.
    pub fn inner_position<T>(
        &self,
        context: &mut Context<T>,
        caller: Caller,
        reply: ReplyId,
    ) -> (result: Result<Vec<Effect>, Error>)
        ensures
            (final(context)@, context::outcome(result)) == context::dispatched(
                old(context)@,
                caller,
                Message::Window(self.window_id, WindowMessage::InnerPosition(reply)),
            ),
    {
        send_user_message(
            context,
            caller,
            Message::Window(self.window_id, WindowMessage::InnerPosition(reply)),
        )
    }

    /// Asks for the position of the window.
    pub fn outer_position<T>(
        &self,
        context: &mut Context<T>,
        caller: Caller,
        reply: ReplyId,
    ) -> (result: Result<Vec<Effect>, Error>)
        ensures
            (final(context)@, context::outcome(result)) == context::dispatched(
                old(context)@,
                caller,
                Message::Window(self.window_id, WindowMessage::OuterPosition(reply)),
            ),
    {
        send_user_message(
            context,
            caller,
            Message::Window(self.window_id, WindowMessage::OuterPosition(reply)),
        )
    }

    /// Asks for the size of the content of the window.
    pub fn inner_size<T>(
        &self,
        context: &mut Context<T>,
        caller: Caller,
        reply: ReplyId,
    ) -> (result: Result<Vec<Effect>, Error>)
        ensures
            (final(context)@, context::outcome(result)) == context::dispatched(
                old(context)@,
                caller,
                Message::Window(self.window_id, WindowMessage::InnerSize(reply)),
            ),
    {
        send_user_message(
            context,
            caller,
            Message::Window(self.window_id, WindowMessage::InnerSize(reply)),
        )
    }

    /// Asks for the size of the window.
    pub fn outer_size<T>(
        &self,
        context: &mut Context<T>,
        caller: Caller,
        reply: ReplyId,
    ) -> (result: Result<Vec<Effect>, Error>)
        ensures
            (final(context)@, context::outcome(result)) == context::dispatched(
                old(context)@,
                caller,
                Message::Window(self.window_id, WindowMessage::OuterSize(reply)),
            ),
    {
        send_user_message(
            context,
            caller,
            Message::Window(self.window_id, WindowMessage::OuterSize(reply)),
        )
    }

    /// Asks whether the window fills the screen.
    pub fn is_fullscreen<T>(
        &self,
        context: &mut Context<T>,
        caller: Caller,
        reply: ReplyId,
    ) -> (result: Result<Vec<Effect>, Error>)
        ensures
            (final(context)@, context::outcome(result)) == context::dispatched(
                old(context)@,
                caller,
                Message::Window(self.window_id, WindowMessage::IsFullscreen(reply)),
            ),
    {
        send_user_message(
            context,
            caller,
            Message::Window(self.window_id, WindowMessage::IsFullscreen(reply)),
        )
    }

    /// Asks whether the window is minimized.
    pub fn is_minimized<T>(
        &self,
        context: &mut Context<T>,
        caller: Caller,
        reply: ReplyId,
    ) -> (result: Result<Vec<Effect>, Error>)
        ensures
            (final(context)@, context::outcome(result)) == context::dispatched(
                old(context)@,
                caller,
                Message::Window(self.window_id, WindowMessage::IsMinimized(reply)),
            ),
    {
        send_user_message(
            context,
            caller,
            Message::Window(self.window_id, WindowMessage::IsMinimized(reply)),
        )
    }

    /// Asks whether the window is maximized.
    pub fn is_maximized<T>(
        &self,
        context: &mut Context<T>,
        caller: Caller,
        reply: ReplyId,
    ) -> (result: Result<Vec<Effect>, Error>)
        ensures
            (final(context)@, context::outcome(result)) == context::dispatched(
                old(context)@,
                caller,
                Message::Window(self.window_id, WindowMessage::IsMaximized(reply)),
            ),
    {
        send_user_message(
            context,
            caller,
            Message::Window(self.window_id, WindowMessage::IsMaximized(reply)),
        )
    }

    /// Asks whether the window has the focus.
    pub fn is_focused<T>(
        &self,
        context: &mut Context<T>,
        caller: Caller,
        reply: ReplyId,
    ) -> (result: Result<Vec<Effect>, Error>)
        ensures
            (final(context)@, context::outcome(result)) == context::dispatched(
                old(context)@,
                caller,
                Message::Window(self.window_id, WindowMessage::IsFocused(reply)),
            ),
    {
        send_user_message(
            context,
            caller,
            Message::Window(self.window_id, WindowMessage::IsFocused(reply)),
        )
    }

    /// Asks whether the window has a frame.
    pub fn is_decorated<T>(
        &self,
        context: &mut Context<T>,
        caller: Caller,
        reply: ReplyId,
    ) -> (result: Result<Vec<Effect>, Error>)
        ensures
            (final(context)@, context::outcome(result)) == context::dispatched(
                old(context)@,
                caller,
                Message::Window(self.window_id, WindowMessage::IsDecorated(reply)),
            ),
    {
        send_user_message(
            context,
            caller,
            Message::Window(self.window_id, WindowMessage::IsDecorated(reply)),
        )
    }

    /// Asks whether the user can resize the window.
    pub fn is_resizable<T>(
        &self,
        context: &mut Context<T>,
        caller: Caller,
        reply: ReplyId,
    ) -> (result: Result<Vec<Effect>, Error>)
        ensures
            (final(context)@, context::outcome(result)) == context::dispatched(
                old(context)@,
                caller,
                Message::Window(self.window_id, WindowMessage::IsResizable(reply)),
            ),
    {
        send_user_message(
            context,
            caller,
            Message::Window(self.window_id, WindowMessage::IsResizable(reply)),
        )
    }

    /// Asks whether the user can maximize the window.
    pub fn is_maximizable<T>(
        &self,
        context: &mut Context<T>,
        caller: Caller,
        reply: ReplyId,
    ) -> (result: Result<Vec<Effect>, Error>)
        ensures
            (final(context)@, context::outcome(result)) == context::dispatched(
                old(context)@,
                caller,
                Message::Window(self.window_id, WindowMessage::IsMaximizable(reply)),
            ),
    {
        send_user_message(
            context,
            caller,
            Message::Window(self.window_id, WindowMessage::IsMaximizable(reply)),
        )
    }

    /// Asks whether the user can minimize the window.
    pub fn is_minimizable<T>(
        &self,
        context: &mut Context<T>,
        caller: Caller,
        reply: ReplyId,
    ) -> (result: Result<Vec<Effect>, Error>)
        ensures
            (final(context)@, context::outcome(result)) == context::dispatched(
                old(context)@,
                caller,
                Message::Window(self.window_id, WindowMessage::IsMinimizable(reply)),
            ),
    {
        send_user_message(
            context,
            caller,
            Message::Window(self.window_id, WindowMessage::IsMinimizable(reply)),
        )
    }

    /// Asks whether the user can close the window.
    pub fn is_closable<T>(
        &self,
        context: &mut Context<T>,
        caller: Caller,
        reply: ReplyId,
    ) -> (result: Result<Vec<Effect>, Error>)
        ensures
            (final(context)@, context::outcome(result)) == context::dispatched(
                old(context)@,
                caller,
                Message::Window(self.window_id, WindowMessage::IsClosable(reply)),
            ),
    {
        send_user_message(
            context,
            caller,
            Message::Window(self.window_id, WindowMessage::IsClosable(reply)),
        )
    }

    /// Asks whether the window is visible.
    pub fn is_visible<T>(
        &self,
        context: &mut Context<T>,
        caller: Caller,
        reply: ReplyId,
    ) -> (result: Result<Vec<Effect>, Error>)
        ensures
            (final(context)@, context::outcome(result)) == context::dispatched(
                old(context)@,
                caller,
                Message::Window(self.window_id, WindowMessage::IsVisible(reply)),
            ),
    {
        send_user_message(
            context,
            caller,
            Message::Window(self.window_id, WindowMessage::IsVisible(reply)),
        )
    }

    /// Asks for the title of the window.
    pub fn title<T>(
        &self,
        context: &mut Context<T>,
        caller: Caller,
        reply: ReplyId,
    ) -> (result: Result<Vec<Effect>, Error>)
        ensures
            (final(context)@, context::outcome(result)) == context::dispatched(
                old(context)@,
                caller,
                Message::Window(self.window_id, WindowMessage::Title(reply)),
            ),
    {
        send_user_message(
            context,
            caller,
            Message::Window(self.window_id, WindowMessage::Title(reply)),
        )
    }

    /// Asks for the monitor that the window is on.
    pub fn current_monitor<T>(
        &self,
        context: &mut Context<T>,
        caller: Caller,
        reply: ReplyId,
    ) -> (result: Result<Vec<Effect>, Error>)
        ensures
            (final(context)@, context::outcome(result)) == context::dispatched(
                old(context)@,
                caller,
                Message::Window(self.window_id, WindowMessage::CurrentMonitor(reply)),
            ),
    {
        send_user_message(
            context,
            caller,
            Message::Window(self.window_id, WindowMessage::CurrentMonitor(reply)),
        )
    }

    /// Asks for the primary monitor.
    pub fn primary_monitor<T>(
        &self,
        context: &mut Context<T>,
        caller: Caller,
        reply: ReplyId,
    ) -> (result: Result<Vec<Effect>, Error>)
        ensures
            (final(context)@, context::outcome(result)) == context::dispatched(
                old(context)@,
                caller,
                Message::Window(self.window_id, WindowMessage::PrimaryMonitor(reply)),
            ),
    {
        send_user_message(
            context,
            caller,
            Message::Window(self.window_id, WindowMessage::PrimaryMonitor(reply)),
        )
    }

    /// Asks for the monitor that a point is on. A failure to ask shows when no answer comes.
    pub fn monitor_from_point<T>(
        &self,
        context: &mut Context<T>,
        caller: Caller,
        reply: ReplyId,
        x: Float64,
        y: Float64,
    ) -> (effects: Vec<Effect>)
        ensures
            ({
                let message = Message::Window(
                    self.window_id,
                    WindowMessage::MonitorFromPoint(reply, x, y),
                );
                let sent = context::dispatched(old(context)@, caller, message);
                &&& final(context)@ == sent.0
                &&& messages::models(effects@) == match sent.1 {
                    Ok(effects) => effects,
                    Err(_) => Seq::empty(),
                }
            }),
    {
        send_and_forget(
            context,
            caller,
            Message::Window(self.window_id, WindowMessage::MonitorFromPoint(reply, x, y)),
        )
    }

    /// Asks for all monitors.
    pub fn available_monitors<T>(
        &self,
        context: &mut Context<T>,
        caller: Caller,
        reply: ReplyId,
    ) -> (result: Result<Vec<Effect>, Error>)
        ensures
            (final(context)@, context::outcome(result)) == context::dispatched(
                old(context)@,
                caller,
                Message::Window(self.window_id, WindowMessage::AvailableMonitors(reply)),
            ),
    {
        send_user_message(
            context,
            caller,
            Message::Window(self.window_id, WindowMessage::AvailableMonitors(reply)),
        )
    }

    /// Asks for the color scheme of the window.
    pub fn theme<T>(
        &self,
        context: &mut Context<T>,
        caller: Caller,
        reply: ReplyId,
    ) -> (result: Result<Vec<Effect>, Error>)
        ensures
            (final(context)@, context::outcome(result)) == context::dispatched(
                old(context)@,
                caller,
                Message::Window(self.window_id, WindowMessage::Theme(reply)),
            ),
    {
        send_user_message(
            context,
            caller,
            Message::Window(self.window_id, WindowMessage::Theme(reply)),
        )
    }

    /// Asks whether the window takes input.
    pub fn is_enabled<T>(
        &self,
        context: &mut Context<T>,
        caller: Caller,
        reply: ReplyId,
    ) -> (result: Result<Vec<Effect>, Error>)
        ensures
            (final(context)@, context::outcome(result)) == context::dispatched(
                old(context)@,
                caller,
                Message::Window(self.window_id, WindowMessage::IsEnabled(reply)),
            ),
    {
        send_user_message(
            context,
            caller,
            Message::Window(self.window_id, WindowMessage::IsEnabled(reply)),
        )
    }

    /// Asks whether the window stays above others.
    pub fn is_always_on_top<T>(
        &self,
        context: &mut Context<T>,
        caller: Caller,
        reply: ReplyId,
    ) -> (result: Result<Vec<Effect>, Error>)
        ensures
            (final(context)@, context::outcome(result)) == context::dispatched(
                old(context)@,
                caller,
                Message::Window(self.window_id, WindowMessage::IsAlwaysOnTop(reply)),
            ),
    {
        send_user_message(
            context,
            caller,
            Message::Window(self.window_id, WindowMessage::IsAlwaysOnTop(reply)),
        )
    }

    /// Asks for the GTK window.
    pub fn gtk_window<T>(
        &self,
        context: &mut Context<T>,
        caller: Caller,
        reply: ReplyId,
    ) -> (result: Result<Vec<Effect>, Error>)
        ensures
            (final(context)@, context::outcome(result)) == context::dispatched(
                old(context)@,
                caller,
                Message::Window(self.window_id, WindowMessage::GtkWindow(reply)),
            ),
    {
        send_user_message(
            context,
            caller,
            Message::Window(self.window_id, WindowMessage::GtkWindow(reply)),
        )
    }

    /// Asks for the GTK box of the window.
    pub fn default_vbox<T>(
        &self,
        context: &mut Context<T>,
        caller: Caller,
        reply: ReplyId,
    ) -> (result: Result<Vec<Effect>, Error>)
        ensures
            (final(context)@, context::outcome(result)) == context::dispatched(
                old(context)@,
                caller,
                Message::Window(self.window_id, WindowMessage::GtkBox(reply)),
            ),
    {
        send_user_message(
            context,
            caller,
            Message::Window(self.window_id, WindowMessage::GtkBox(reply)),
        )
    }

    /// Asks for the handle of the window.
    pub fn window_handle<T>(
        &self,
        context: &mut Context<T>,
        caller: Caller,
        reply: ReplyId,
    ) -> (result: Result<Vec<Effect>, Error>)
        ensures
            (final(context)@, context::outcome(result)) == context::dispatched(
                old(context)@,
                caller,
                Message::Window(self.window_id, WindowMessage::RawWindowHandle(reply)),
            ),
    {
        send_user_message(
            context,
            caller,
            Message::Window(self.window_id, WindowMessage::RawWindowHandle(reply)),
        )
    }

    /// Moves the window to the center of its monitor.
    pub fn center<T>(
        &self,
        context: &mut Context<T>,
        caller: Caller,
    ) -> (result: Result<Vec<Effect>, Error>)
        ensures
            (final(context)@, context::outcome(result)) == context::dispatched(
                old(context)@,
                caller,
                Message::Window(self.window_id, WindowMessage::Center),
            ),
    {
        send_user_message(context, caller, Message::Window(self.window_id, WindowMessage::Center))
    }

    /// Lets the user resize the window or not.
    pub fn set_resizable<T>(
        &self,
        context: &mut Context<T>,
        caller: Caller,
        resizable: bool,
    ) -> (result: Result<Vec<Effect>, Error>)
        ensures
            (final(context)@, context::outcome(result)) == context::dispatched(
                old(context)@,
                caller,
                Message::Window(self.window_id, WindowMessage::SetResizable(resizable)),
            ),
    {
        send_user_message(
            context,
            caller,
            Message::Window(self.window_id, WindowMessage::SetResizable(resizable)),
        )
    }

    /// Lets the window take input or not.
    pub fn set_enabled<T>(
        &self,
        context: &mut Context<T>,
        caller: Caller,
        enabled: bool,
    ) -> (result: Result<Vec<Effect>, Error>)
        ensures
            (final(context)@, context::outcome(result)) == context::dispatched(
                old(context)@,
                caller,
                Message::Window(self.window_id, WindowMessage::SetEnabled(enabled)),
            ),
    {
        send_user_message(
            context,
            caller,
            Message::Window(self.window_id, WindowMessage::SetEnabled(enabled)),
        )
    }

    /// Lets the user maximize the window or not.
    pub fn set_maximizable<T>(
        &self,
        context: &mut Context<T>,
        caller: Caller,
        maximizable: bool,
    ) -> (result: Result<Vec<Effect>, Error>)
        ensures
            (final(context)@, context::outcome(result)) == context::dispatched(
                old(context)@,
                caller,
                Message::Window(self.window_id, WindowMessage::SetMaximizable(maximizable)),
            ),
    {
        send_user_message(
            context,
            caller,
            Message::Window(self.window_id, WindowMessage::SetMaximizable(maximizable)),
        )
    }

    /// Lets the user minimize the window or not.
    pub fn set_minimizable<T>(
        &self,
        context: &mut Context<T>,
        caller: Caller,
        minimizable: bool,
    ) -> (result: Result<Vec<Effect>, Error>)
        ensures
            (final(context)@, context::outcome(result)) == context::dispatched(
                old(context)@,
                caller,
                Message::Window(self.window_id, WindowMessage::SetMinimizable(minimizable)),
            ),
    {
        send_user_message(
            context,
            caller,
            Message::Window(self.window_id, WindowMessage::SetMinimizable(minimizable)),
        )
    }

    /// Lets the user close the window or not.
    pub fn set_closable<T>(
        &self,
        context: &mut Context<T>,
        caller: Caller,
        closable: bool,
    ) -> (result: Result<Vec<Effect>, Error>)
        ensures
            (final(context)@, context::outcome(result)) == context::dispatched(
                old(context)@,
                caller,
                Message::Window(self.window_id, WindowMessage::SetClosable(closable)),
            ),
    {
        send_user_message(
            context,
            caller,
            Message::Window(self.window_id, WindowMessage::SetClosable(closable)),
        )
    }

    /// Gives the window a title.
    pub fn set_title<T>(
        &self,
        context: &mut Context<T>,
        caller: Caller,
        title: String,
    ) -> (result: Result<Vec<Effect>, Error>)
        ensures
            (final(context)@, context::outcome(result)) == context::dispatched(
                old(context)@,
                caller,
                Message::Window(self.window_id, WindowMessage::SetTitle(title)),
            ),
    {
        send_user_message(
            context,
            caller,
            Message::Window(self.window_id, WindowMessage::SetTitle(title)),
        )
    }

    /// Maximizes the window.
    pub fn maximize<T>(
        &self,
        context: &mut Context<T>,
        caller: Caller,
    ) -> (result: Result<Vec<Effect>, Error>)
        ensures
            (final(context)@, context::outcome(result)) == context::dispatched(
                old(context)@,
                caller,
                Message::Window(self.window_id, WindowMessage::Maximize),
            ),
    {
        send_user_message(
            context,
            caller,
            Message::Window(self.window_id, WindowMessage::Maximize),
        )
    }

    /// Ends the maximized state of the window.
    pub fn unmaximize<T>(
        &self,
        context: &mut Context<T>,
        caller: Caller,
    ) -> (result: Result<Vec<Effect>, Error>)
        ensures
            (final(context)@, context::outcome(result)) == context::dispatched(
                old(context)@,
                caller,
                Message::Window(self.window_id, WindowMessage::Unmaximize),
            ),
    {
        send_user_message(
            context,
            caller,
            Message::Window(self.window_id, WindowMessage::Unmaximize),
        )
    }

    /// Minimizes the window.
    pub fn minimize<T>(
        &self,
        context: &mut Context<T>,
        caller: Caller,
    ) -> (result: Result<Vec<Effect>, Error>)
        ensures
            (final(context)@, context::outcome(result)) == context::dispatched(
                old(context)@,
                caller,
                Message::Window(self.window_id, WindowMessage::Minimize),
            ),
    {
        send_user_message(
            context,
            caller,
            Message::Window(self.window_id, WindowMessage::Minimize),
        )
    }

    /// Ends the minimized state of the window.
    pub fn unminimize<T>(
        &self,
        context: &mut Context<T>,
        caller: Caller,
    ) -> (result: Result<Vec<Effect>, Error>)
        ensures
            (final(context)@, context::outcome(result)) == context::dispatched(
                old(context)@,
                caller,
                Message::Window(self.window_id, WindowMessage::Unminimize),
            ),
    {
        send_user_message(
            context,
            caller,
            Message::Window(self.window_id, WindowMessage::Unminimize),
        )
    }

    /// Shows the window.
    pub fn show<T>(
        &self,
        context: &mut Context<T>,
        caller: Caller,
    ) -> (result: Result<Vec<Effect>, Error>)
        ensures
            (final(context)@, context::outcome(result)) == context::dispatched(
                old(context)@,
                caller,
                Message::Window(self.window_id, WindowMessage::Show),
            ),
    {
        send_user_message(context, caller, Message::Window(self.window_id, WindowMessage::Show))
    }

    /// Hides the window.
    pub fn hide_window<T>(
        &self,
        context: &mut Context<T>,
        caller: Caller,
    ) -> (result: Result<Vec<Effect>, Error>)
        ensures
            (final(context)@, context::outcome(result)) == context::dispatched(
                old(context)@,
                caller,
                Message::Window(self.window_id, WindowMessage::Hide),
            ),
    {
        send_user_message(context, caller, Message::Window(self.window_id, WindowMessage::Hide))
    }

    /// Asks the window to close. The event loop does it, whatever the thread: the callback of
    /// the application has a say.
    pub fn close<T>(&self, context: &mut Context<T>) -> (result: Result<Vec<Effect>, Error>)
        ensures
            final(context)@ == context::posted(
                old(context)@,
                Message::Window(self.window_id, WindowMessage::Close),
            ),
            context::outcome(result) == context::post_result(old(context)@),
    {
        context.post(Message::Window(self.window_id, WindowMessage::Close))
    }

    /// Closes the window without asking. The event loop does it, whatever the thread.
    pub fn destroy<T>(&self, context: &mut Context<T>) -> (result: Result<Vec<Effect>, Error>)
        ensures
            final(context)@ == context::posted(
                old(context)@,
                Message::Window(self.window_id, WindowMessage::Destroy),
            ),
            context::outcome(result) == context::post_result(old(context)@),
    {
        context.post(Message::Window(self.window_id, WindowMessage::Destroy))
    }

    /// Gives the window a frame or not.
    pub fn set_decorations<T>(
        &self,
        context: &mut Context<T>,
        caller: Caller,
        decorations: bool,
    ) -> (result: Result<Vec<Effect>, Error>)
        ensures
            (final(context)@, context::outcome(result)) == context::dispatched(
                old(context)@,
                caller,
                Message::Window(self.window_id, WindowMessage::SetDecorations(decorations)),
            ),
    {
        send_user_message(
            context,
            caller,
            Message::Window(self.window_id, WindowMessage::SetDecorations(decorations)),
        )
    }

    /// Gives the window a shadow or not.
    pub fn set_shadow<T>(
        &self,
        context: &mut Context<T>,
        caller: Caller,
        enable: bool,
    ) -> (result: Result<Vec<Effect>, Error>)
        ensures
            (final(context)@, context::outcome(result)) == context::dispatched(
                old(context)@,
                caller,
                Message::Window(self.window_id, WindowMessage::SetShadow(enable)),
            ),
    {
        send_user_message(
            context,
            caller,
            Message::Window(self.window_id, WindowMessage::SetShadow(enable)),
        )
    }

    /// Keeps the window below others or not.
    pub fn set_always_on_bottom<T>(
        &self,
        context: &mut Context<T>,
        caller: Caller,
        always_on_bottom: bool,
    ) -> (result: Result<Vec<Effect>, Error>)
        ensures
            (final(context)@, context::outcome(result)) == context::dispatched(
                old(context)@,
                caller,
                Message::Window(
                    self.window_id,
                    WindowMessage::SetAlwaysOnBottom(always_on_bottom),
                ),
            ),
    {
        send_user_message(
            context,
            caller,
            Message::Window(self.window_id, WindowMessage::SetAlwaysOnBottom(always_on_bottom)),
        )
    }

    /// Keeps the window above others or not.
    pub fn set_always_on_top<T>(
        &self,
        context: &mut Context<T>,
        caller: Caller,
        always_on_top: bool,
    ) -> (result: Result<Vec<Effect>, Error>)
        ensures
            (final(context)@, context::outcome(result)) == context::dispatched(
                old(context)@,
                caller,
                Message::Window(self.window_id, WindowMessage::SetAlwaysOnTop(always_on_top)),
            ),
    {
        send_user_message(
            context,
            caller,
            Message::Window(self.window_id, WindowMessage::SetAlwaysOnTop(always_on_top)),
        )
    }

    /// Shows the window on all workspaces or not.
    pub fn set_visible_on_all_workspaces<T>(
        &self,
        context: &mut Context<T>,
        caller: Caller,
        visible_on_all_workspaces: bool,
    ) -> (result: Result<Vec<Effect>, Error>)
        ensures
            (final(context)@, context::outcome(result)) == context::dispatched(
                old(context)@,
                caller,
                Message::Window(
                    self.window_id,
                    WindowMessage::SetVisibleOnAllWorkspaces(visible_on_all_workspaces),
                ),
            ),
    {
        send_user_message(
            context,
            caller,
            Message::Window(
                self.window_id,
                WindowMessage::SetVisibleOnAllWorkspaces(visible_on_all_workspaces),
            ),
        )
    }

    /// Keeps the content of the window out of recordings or not.
    pub fn set_content_protected<T>(
        &self,
        context: &mut Context<T>,
        caller: Caller,
        protected: bool,
    ) -> (result: Result<Vec<Effect>, Error>)
        ensures
            (final(context)@, context::outcome(result)) == context::dispatched(
                old(context)@,
                caller,
                Message::Window(self.window_id, WindowMessage::SetContentProtected(protected)),
            ),
    {
        send_user_message(
            context,
            caller,
            Message::Window(self.window_id, WindowMessage::SetContentProtected(protected)),
        )
    }

    /// Gives the content of the window a size.
    pub fn set_size<T>(
        &self,
        context: &mut Context<T>,
        caller: Caller,
        size: Size,
    ) -> (result: Result<Vec<Effect>, Error>)
        ensures
            (final(context)@, context::outcome(result)) == context::dispatched(
                old(context)@,
                caller,
                Message::Window(self.window_id, WindowMessage::SetSize(size)),
            ),
    {
        send_user_message(
            context,
            caller,
            Message::Window(self.window_id, WindowMessage::SetSize(size)),
        )
    }

    /// Bounds the size of the window from below.
    pub fn set_min_size<T>(
        &self,
        context: &mut Context<T>,
        caller: Caller,
        size: Option<Size>,
    ) -> (result: Result<Vec<Effect>, Error>)
        ensures
            (final(context)@, context::outcome(result)) == context::dispatched(
                old(context)@,
                caller,
                Message::Window(self.window_id, WindowMessage::SetMinSize(size)),
            ),
    {
        send_user_message(
            context,
            caller,
            Message::Window(self.window_id, WindowMessage::SetMinSize(size)),
        )
    }

    /// Bounds the size of the window from above.
    pub fn set_max_size<T>(
        &self,
        context: &mut Context<T>,
        caller: Caller,
        size: Option<Size>,
    ) -> (result: Result<Vec<Effect>, Error>)
        ensures
            (final(context)@, context::outcome(result)) == context::dispatched(
                old(context)@,
                caller,
                Message::Window(self.window_id, WindowMessage::SetMaxSize(size)),
            ),
    {
        send_user_message(
            context,
            caller,
            Message::Window(self.window_id, WindowMessage::SetMaxSize(size)),
        )
    }

    /// Bounds the size of the window.
    pub fn set_size_constraints<T>(
        &self,
        context: &mut Context<T>,
        caller: Caller,
        constraints: WindowSizeConstraints,
    ) -> (result: Result<Vec<Effect>, Error>)
        ensures
            (final(context)@, context::outcome(result)) == context::dispatched(
                old(context)@,
                caller,
                Message::Window(self.window_id, WindowMessage::SetSizeConstraints(constraints)),
            ),
    {
        send_user_message(
            context,
            caller,
            Message::Window(self.window_id, WindowMessage::SetSizeConstraints(constraints)),
        )
    }

    /// Moves the window.
    pub fn set_position<T>(
        &self,
        context: &mut Context<T>,
        caller: Caller,
        position: Position,
    ) -> (result: Result<Vec<Effect>, Error>)
        ensures
            (final(context)@, context::outcome(result)) == context::dispatched(
                old(context)@,
                caller,
                Message::Window(self.window_id, WindowMessage::SetPosition(position)),
            ),
    {
        send_user_message(
            context,
            caller,
            Message::Window(self.window_id, WindowMessage::SetPosition(position)),
        )
    }

    /// Lets the window fill the screen or not.
    pub fn set_fullscreen<T>(
        &self,
        context: &mut Context<T>,
        caller: Caller,
        fullscreen: bool,
    ) -> (result: Result<Vec<Effect>, Error>)
        ensures
            (final(context)@, context::outcome(result)) == context::dispatched(
                old(context)@,
                caller,
                Message::Window(self.window_id, WindowMessage::SetFullscreen(fullscreen)),
            ),
    {
        send_user_message(
            context,
            caller,
            Message::Window(self.window_id, WindowMessage::SetFullscreen(fullscreen)),
        )
    }

    /// Lets the window fill the screen or not, without a space of its own on macOS.
    pub fn set_simple_fullscreen<T>(
        &self,
        context: &mut Context<T>,
        caller: Caller,
        enable: bool,
    ) -> (result: Result<Vec<Effect>, Error>)
        ensures
            (final(context)@, context::outcome(result)) == context::dispatched(
                old(context)@,
                caller,
                Message::Window(self.window_id, WindowMessage::SetSimpleFullscreen(enable)),
            ),
    {
        send_user_message(
            context,
            caller,
            Message::Window(self.window_id, WindowMessage::SetSimpleFullscreen(enable)),
        )
    }

    /// Gives the window the focus.
    pub fn set_focus<T>(
        &self,
        context: &mut Context<T>,
        caller: Caller,
    ) -> (result: Result<Vec<Effect>, Error>)
        ensures
            (final(context)@, context::outcome(result)) == context::dispatched(
                old(context)@,
                caller,
                Message::Window(self.window_id, WindowMessage::SetFocus),
            ),
    {
        send_user_message(
            context,
            caller,
            Message::Window(self.window_id, WindowMessage::SetFocus),
        )
    }

    /// Lets the window get the focus or not.
    pub fn set_focusable<T>(
        &self,
        context: &mut Context<T>,
        caller: Caller,
        focusable: bool,
    ) -> (result: Result<Vec<Effect>, Error>)
        ensures
            (final(context)@, context::outcome(result)) == context::dispatched(
                old(context)@,
                caller,
                Message::Window(self.window_id, WindowMessage::SetFocusable(focusable)),
            ),
    {
        send_user_message(
            context,
            caller,
            Message::Window(self.window_id, WindowMessage::SetFocusable(focusable)),
        )
    }

    /// Leaves the window out of the task bar or not.
    pub fn set_skip_taskbar<T>(
        &self,
        context: &mut Context<T>,
        caller: Caller,
        skip: bool,
    ) -> (result: Result<Vec<Effect>, Error>)
        ensures
            (final(context)@, context::outcome(result)) == context::dispatched(
                old(context)@,
                caller,
                Message::Window(self.window_id, WindowMessage::SetSkipTaskbar(skip)),
            ),
    {
        send_user_message(
            context,
            caller,
            Message::Window(self.window_id, WindowMessage::SetSkipTaskbar(skip)),
        )
    }

    /// Keeps the cursor within the window or not.
    pub fn set_cursor_grab<T>(
        &self,
        context: &mut Context<T>,
        caller: Caller,
        grab: bool,
    ) -> (result: Result<Vec<Effect>, Error>)
        ensures
            (final(context)@, context::outcome(result)) == context::dispatched(
                old(context)@,
                caller,
                Message::Window(self.window_id, WindowMessage::SetCursorGrab(grab)),
            ),
    {
        send_user_message(
            context,
            caller,
            Message::Window(self.window_id, WindowMessage::SetCursorGrab(grab)),
        )
    }

    /// Shows the cursor in the window or not.
    pub fn set_cursor_visible<T>(
        &self,
        context: &mut Context<T>,
        caller: Caller,
        visible: bool,
    ) -> (result: Result<Vec<Effect>, Error>)
        ensures
            (final(context)@, context::outcome(result)) == context::dispatched(
                old(context)@,
                caller,
                Message::Window(self.window_id, WindowMessage::SetCursorVisible(visible)),
            ),
    {
        send_user_message(
            context,
            caller,
            Message::Window(self.window_id, WindowMessage::SetCursorVisible(visible)),
        )
    }

    /// Gives the cursor a shape in the window.
    pub fn set_cursor_icon<T>(
        &self,
        context: &mut Context<T>,
        caller: Caller,
        icon: CursorIcon,
    ) -> (result: Result<Vec<Effect>, Error>)
        ensures
            (final(context)@, context::outcome(result)) == context::dispatched(
                old(context)@,
                caller,
                Message::Window(self.window_id, WindowMessage::SetCursorIcon(icon)),
            ),
    {
        send_user_message(
            context,
            caller,
            Message::Window(self.window_id, WindowMessage::SetCursorIcon(icon)),
        )
    }

    /// Moves the cursor within the window.
    pub fn set_cursor_position<T>(
        &self,
        context: &mut Context<T>,
        caller: Caller,
        position: Position,
    ) -> (result: Result<Vec<Effect>, Error>)
        ensures
            (final(context)@, context::outcome(result)) == context::dispatched(
                old(context)@,
                caller,
                Message::Window(self.window_id, WindowMessage::SetCursorPosition(position)),
            ),
    {
        send_user_message(
            context,
            caller,
            Message::Window(self.window_id, WindowMessage::SetCursorPosition(position)),
        )
    }

    /// Lets events of the cursor pass the window or not.
    pub fn set_ignore_cursor_events<T>(
        &self,
        context: &mut Context<T>,
        caller: Caller,
        ignore: bool,
    ) -> (result: Result<Vec<Effect>, Error>)
        ensures
            (final(context)@, context::outcome(result)) == context::dispatched(
                old(context)@,
                caller,
                Message::Window(self.window_id, WindowMessage::SetIgnoreCursorEvents(ignore)),
            ),
    {
        send_user_message(
            context,
            caller,
            Message::Window(self.window_id, WindowMessage::SetIgnoreCursorEvents(ignore)),
        )
    }

    /// Lets the user drag the window.
    pub fn start_dragging<T>(
        &self,
        context: &mut Context<T>,
        caller: Caller,
    ) -> (result: Result<Vec<Effect>, Error>)
        ensures
            (final(context)@, context::outcome(result)) == context::dispatched(
                old(context)@,
                caller,
                Message::Window(self.window_id, WindowMessage::DragWindow),
            ),
    {
        send_user_message(
            context,
            caller,
            Message::Window(self.window_id, WindowMessage::DragWindow),
        )
    }

    /// Lets the user resize the window in a direction.
    pub fn start_resize_dragging<T>(
        &self,
        context: &mut Context<T>,
        caller: Caller,
        direction: ResizeDirection,
    ) -> (result: Result<Vec<Effect>, Error>)
        ensures
            (final(context)@, context::outcome(result)) == context::dispatched(
                old(context)@,
                caller,
                Message::Window(self.window_id, WindowMessage::ResizeDragWindow(direction)),
            ),
    {
        send_user_message(
            context,
            caller,
            Message::Window(self.window_id, WindowMessage::ResizeDragWindow(direction)),
        )
    }

    /// Shows a number on the icon of the application.
    pub fn set_badge_count<T>(
        &self,
        context: &mut Context<T>,
        caller: Caller,
        count: Option<i64>,
        desktop_filename: Option<String>,
    ) -> (result: Result<Vec<Effect>, Error>)
        ensures
            (final(context)@, context::outcome(result)) == context::dispatched(
                old(context)@,
                caller,
                Message::Window(
                    self.window_id,
                    WindowMessage::SetBadgeCount(count, desktop_filename),
                ),
            ),
    {
        send_user_message(
            context,
            caller,
            Message::Window(self.window_id, WindowMessage::SetBadgeCount(count, desktop_filename)),
        )
    }

    /// Shows a text on the icon of the application.
    pub fn set_badge_label<T>(
        &self,
        context: &mut Context<T>,
        caller: Caller,
        label: Option<String>,
    ) -> (result: Result<Vec<Effect>, Error>)
        ensures
            (final(context)@, context::outcome(result)) == context::dispatched(
                old(context)@,
                caller,
                Message::Window(self.window_id, WindowMessage::SetBadgeLabel(label)),
            ),
    {
        send_user_message(
            context,
            caller,
            Message::Window(self.window_id, WindowMessage::SetBadgeLabel(label)),
        )
    }

    /// Shows a progress bar on the icon of the application.
    pub fn set_progress_bar<T>(
        &self,
        context: &mut Context<T>,
        caller: Caller,
        progress_state: ProgressBarState,
    ) -> (result: Result<Vec<Effect>, Error>)
        ensures
            (final(context)@, context::outcome(result)) == context::dispatched(
                old(context)@,
                caller,
                Message::Window(self.window_id, WindowMessage::SetProgressBar(progress_state)),
            ),
    {
        send_user_message(
            context,
            caller,
            Message::Window(self.window_id, WindowMessage::SetProgressBar(progress_state)),
        )
    }

    /// Gives the title bar a style.
    pub fn set_title_bar_style<T>(
        &self,
        context: &mut Context<T>,
        caller: Caller,
        style: TitleBarStyle,
    ) -> (result: Result<Vec<Effect>, Error>)
        ensures
            (final(context)@, context::outcome(result)) == context::dispatched(
                old(context)@,
                caller,
                Message::Window(self.window_id, WindowMessage::SetTitleBarStyle(style)),
            ),
    {
        send_user_message(
            context,
            caller,
            Message::Window(self.window_id, WindowMessage::SetTitleBarStyle(style)),
        )
    }

    /// Moves the buttons of the title bar.
    pub fn set_traffic_light_position<T>(
        &self,
        context: &mut Context<T>,
        caller: Caller,
        position: Position,
    ) -> (result: Result<Vec<Effect>, Error>)
        ensures
            (final(context)@, context::outcome(result)) == context::dispatched(
                old(context)@,
                caller,
                Message::Window(self.window_id, WindowMessage::SetTrafficLightPosition(position)),
            ),
    {
        send_user_message(
            context,
            caller,
            Message::Window(self.window_id, WindowMessage::SetTrafficLightPosition(position)),
        )
    }

    /// Gives the window a color scheme.
    pub fn set_theme<T>(
        &self,
        context: &mut Context<T>,
        caller: Caller,
        theme: Option<Theme>,
    ) -> (result: Result<Vec<Effect>, Error>)
        ensures
            (final(context)@, context::outcome(result)) == context::dispatched(
                old(context)@,
                caller,
                Message::Window(self.window_id, WindowMessage::SetTheme(theme)),
            ),
    {
        send_user_message(
            context,
            caller,
            Message::Window(self.window_id, WindowMessage::SetTheme(theme)),
        )
    }

    /// Gives the window a background color.
    pub fn set_background_color<T>(
        &self,
        context: &mut Context<T>,
        caller: Caller,
        color: Option<Color>,
    ) -> (result: Result<Vec<Effect>, Error>)
        ensures
            (final(context)@, context::outcome(result)) == context::dispatched(
                old(context)@,
                caller,
                Message::Window(self.window_id, WindowMessage::SetBackgroundColor(color)),
            ),
    {
        send_user_message(
            context,
            caller,
            Message::Window(self.window_id, WindowMessage::SetBackgroundColor(color)),
        )
    }

    /// Asks the user to look at the window, or stops asking.
    pub fn request_user_attention<T>(
        &self,
        context: &mut Context<T>,
        caller: Caller,
        request_type: Option<UserAttentionType>,
    ) -> (result: Result<Vec<Effect>, Error>)
        ensures
            (final(context)@, context::outcome(result)) == context::dispatched(
                old(context)@,
                caller,
                Message::Window(
                    self.window_id,
                    WindowMessage::RequestUserAttention(attention(request_type)),
                ),
            ),
    {
        let request = match request_type {
            Some(request_type) => Some(UserAttentionTypeWrapper::from(request_type)),
            None => None,
        };
        send_user_message(
            context,
            caller,
            Message::Window(self.window_id, WindowMessage::RequestUserAttention(request)),
        )
    }

    /// Gives the window an icon, if the pixels make one.
    pub fn set_icon<T>(&self, context: &mut Context<T>, caller: Caller, icon: Icon) -> (result:
        Result<Vec<Effect>, Error>)
        ensures
            match icon_of(old(context)@.options.platform, icon) {
                Ok(icon) => (final(context)@, context::outcome(result)) == context::dispatched(
                    old(context)@,
                    caller,
                    Message::Window(self.window_id, WindowMessage::SetIcon(icon)),
                ),
                Err(error) => {
                    &&& final(context)@ == old(context)@
                    &&& result == Err::<Vec<Effect>, Error>(error)
                },
            },
    {
        match TaoIcon::try_from((context.options.platform, icon)) {
            Ok(icon) => send_user_message(
                context,
                caller,
                Message::Window(self.window_id, WindowMessage::SetIcon(icon)),
            ),
            Err(error) => Err(error),
        }
    }

    /// Puts an icon over that of the application in the task bar, or takes it away.
    pub fn set_overlay_icon<T>(
        &self,
        context: &mut Context<T>,
        caller: Caller,
        icon: Option<Icon>,
    ) -> (result: Result<Vec<Effect>, Error>)
        ensures
            match overlay_of(old(context)@.options.platform, icon) {
                Ok(icon) => (final(context)@, context::outcome(result)) == context::dispatched(
                    old(context)@,
                    caller,
                    Message::Window(self.window_id, WindowMessage::SetOverlayIcon(icon)),
                ),
                Err(error) => {
                    &&& final(context)@ == old(context)@
                    &&& result == Err::<Vec<Effect>, Error>(error)
                },
            },
    {
        let icon = match icon {
            Some(icon) => match TaoIcon::try_from((context.options.platform, icon)) {
                Ok(icon) => Some(icon),
                Err(error) => {
                    return Err(error);
                },
            },
            None => None,
        };
        send_user_message(
            context,
            caller,
            Message::Window(self.window_id, WindowMessage::SetOverlayIcon(icon)),
        )
    }

    /// Asks the event loop for another window.
    pub fn create_window<T>(
        &self,
        context: &mut Context<T>,
        caller: Caller,
        label: String,
        webview: Option<bool>,
        task: TaskId,
    ) -> (result: Result<(DetachedWindow, Vec<Effect>), Error>)
        ensures
            context::window_asked_for(
                old(context)@,
                caller,
                label@,
                webview,
                task,
                final(context)@,
                result,
            ),
    {
        context.create_window(caller, label, webview, task)
    }

    /// Asks the event loop for a webview in the window.
    pub fn create_webview<T>(
        &self,
        context: &mut Context<T>,
        caller: Caller,
        label: String,
        task: TaskId,
    ) -> (result: Result<(DetachedWebview, Vec<Effect>), Error>)
        ensures
            context::webview_asked_for(
                old(context)@,
                caller,
                self.window_id,
                label,
                task,
                final(context)@,
                result,
            ),
    {
        context.create_webview(caller, self.window_id, label, task)
    }
}

} // verus!
