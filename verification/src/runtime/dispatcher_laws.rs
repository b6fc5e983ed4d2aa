//! What the calls of an application send to the event loop.

use crate::client::HandlerId;
use crate::runtime::color::Color;
use crate::runtime::context::{Caller, Context, DetachedWebview, DetachedWindow};
use crate::runtime::conversions::{
    ActivationPolicy, CursorIcon, DeviceEventFilter, Error, Icon, ProgressBarState,
    ResizeDirection, TaoIcon, Theme, UserAttentionType, UserAttentionTypeWrapper,
};
use crate::runtime::cookies::WebCookie;
use crate::runtime::dpi::{Float64, Position, Rect, Size, WindowSizeConstraints};
use crate::runtime::handle::{EventProxy, WryHandle};
use crate::runtime::messages;
use crate::runtime::messages::{
    ApplicationMessage, DataStoreId, Effect, EventLoopWindowTargetMessage, Message, ReplyId,
    ScriptTrace, TaskId, WebviewMessage, WindowMessage,
};
use crate::runtime::platform::Platform;
use crate::runtime::store::{WebviewEventId, WindowEventId, WindowId};
use crate::runtime::user_messages;
use crate::runtime::webview_dispatcher::WryWebviewDispatcher;
use crate::runtime::window_builder::TitleBarStyle;
use crate::runtime::window_dispatcher::WryWindowDispatcher;
use vstd::prelude::*;

verus! {

/// A message to the window of a dispatcher.
pub open spec fn to_window<T>(dispatcher: &WryWindowDispatcher, message: WindowMessage) -> Message<
    T,
> {
    Message::Window(dispatcher.window_id, message)
}

/// A message to the webview of a dispatcher, in the window that it is in by then.
pub open spec fn to_webview<T>(
    dispatcher: &WryWebviewDispatcher,
    context: Context<T>,
    message: WebviewMessage,
) -> Message<T> {
    Message::Webview(
        dispatcher.window.window(context.window_cells@),
        dispatcher.webview_id,
        message,
    )
}

/// A message is behind all others on their way to the event loop, and nothing else has changed;
/// or the event loop is gone, and it is an error.
pub open spec fn posted_to<T>(
    before: Context<T>,
    message: Message<T>,
    after: Context<T>,
    result: Result<Vec<Effect>, Error>,
) -> bool {
    &&& before.proxy.closed ==> {
        &&& result matches Err(error)
        &&& error == Error::FailedToSendMessage
        &&& after@ == before@
    }
    &&& !before.proxy.closed ==> {
        &&& result matches Ok(effects)
        &&& messages::models(effects@).len() == 0
        &&& after.proxy.sent@ == before.proxy.sent@.push(message)
        &&& after@.windows == before@.windows
        &&& after@.next_ids == before@.next_ids
        &&& after@.cells == before@.cells
        &&& after@.ids == before@.ids
    }
}

/// A message goes to the event loop, or is handled at once on the main thread.
pub open spec fn told<T>(
    before: Context<T>,
    caller: Caller,
    message: Message<T>,
    after: Context<T>,
    result: Result<Vec<Effect>, Error>,
) -> bool {
    &&& caller.thread != before.main_thread_id ==> posted_to(before, message, after, result)
    &&& caller.thread == before.main_thread_id ==> {
        &&& result matches Ok(effects)
        &&& messages::models(effects@) == user_messages::effects_of(
            before.options.platform,
            caller.report,
            before@.windows,
            before@.browsers,
            message,
        )
        &&& after@.windows == user_messages::windows_after(
            before.options.platform,
            before@.windows,
            message,
        )
        &&& after.proxy.sent@ == before.proxy.sent@
        &&& after@.next_ids == before@.next_ids
        &&& after@.cells == before@.cells
        &&& after@.ids == before@.ids
    }
}

/// A window is asked for its place and its size, each as such and with its receiver.
pub proof fn lemma_window_is_asked_for_its_place<T>(
    dispatcher: &WryWindowDispatcher,
    caller: Caller,
    reply: ReplyId,
    result: Result<Vec<Effect>, Error>,
)
    ensures
        forall|context: &mut Context<T>| #[trigger]
            call_ensures(
                WryWindowDispatcher::scale_factor::<T>,
                (dispatcher, context, caller, reply),
                result,
            ) ==> told(
                *context,
                caller,
                to_window(dispatcher, WindowMessage::ScaleFactor(reply)),
                *final(context),
                result,
            ),
        forall|context: &mut Context<T>| #[trigger]
            call_ensures(
                WryWindowDispatcher::inner_position::<T>,
                (dispatcher, context, caller, reply),
                result,
            ) ==> told(
                *context,
                caller,
                to_window(dispatcher, WindowMessage::InnerPosition(reply)),
                *final(context),
                result,
            ),
        forall|context: &mut Context<T>| #[trigger]
            call_ensures(
                WryWindowDispatcher::outer_position::<T>,
                (dispatcher, context, caller, reply),
                result,
            ) ==> told(
                *context,
                caller,
                to_window(dispatcher, WindowMessage::OuterPosition(reply)),
                *final(context),
                result,
            ),
        forall|context: &mut Context<T>| #[trigger]
            call_ensures(
                WryWindowDispatcher::inner_size::<T>,
                (dispatcher, context, caller, reply),
                result,
            ) ==> told(
                *context,
                caller,
                to_window(dispatcher, WindowMessage::InnerSize(reply)),
                *final(context),
                result,
            ),
        forall|context: &mut Context<T>| #[trigger]
            call_ensures(
                WryWindowDispatcher::outer_size::<T>,
                (dispatcher, context, caller, reply),
                result,
            ) ==> told(
                *context,
                caller,
                to_window(dispatcher, WindowMessage::OuterSize(reply)),
                *final(context),
                result,
            ),
{
}

/// A window is asked how it is shown, each as such and with its receiver.
pub proof fn lemma_window_is_asked_how_it_is_shown<T>(
    dispatcher: &WryWindowDispatcher,
    caller: Caller,
    reply: ReplyId,
    result: Result<Vec<Effect>, Error>,
)
    ensures
        forall|context: &mut Context<T>| #[trigger]
            call_ensures(
                WryWindowDispatcher::is_fullscreen::<T>,
                (dispatcher, context, caller, reply),
                result,
            ) ==> told(
                *context,
                caller,
                to_window(dispatcher, WindowMessage::IsFullscreen(reply)),
                *final(context),
                result,
            ),
        forall|context: &mut Context<T>| #[trigger]
            call_ensures(
                WryWindowDispatcher::is_minimized::<T>,
                (dispatcher, context, caller, reply),
                result,
            ) ==> told(
                *context,
                caller,
                to_window(dispatcher, WindowMessage::IsMinimized(reply)),
                *final(context),
                result,
            ),
        forall|context: &mut Context<T>| #[trigger]
            call_ensures(
                WryWindowDispatcher::is_maximized::<T>,
                (dispatcher, context, caller, reply),
                result,
            ) ==> told(
                *context,
                caller,
                to_window(dispatcher, WindowMessage::IsMaximized(reply)),
                *final(context),
                result,
            ),
        forall|context: &mut Context<T>| #[trigger]
            call_ensures(
                WryWindowDispatcher::is_focused::<T>,
                (dispatcher, context, caller, reply),
                result,
            ) ==> told(
                *context,
                caller,
                to_window(dispatcher, WindowMessage::IsFocused(reply)),
                *final(context),
                result,
            ),
        forall|context: &mut Context<T>| #[trigger]
            call_ensures(
                WryWindowDispatcher::is_visible::<T>,
                (dispatcher, context, caller, reply),
                result,
            ) ==> told(
                *context,
                caller,
                to_window(dispatcher, WindowMessage::IsVisible(reply)),
                *final(context),
                result,
            ),
        forall|context: &mut Context<T>| #[trigger]
            call_ensures(
                WryWindowDispatcher::is_enabled::<T>,
                (dispatcher, context, caller, reply),
                result,
            ) ==> told(
                *context,
                caller,
                to_window(dispatcher, WindowMessage::IsEnabled(reply)),
                *final(context),
                result,
            ),
{
}

/// A window is asked what can be done with it, each as such and with its receiver.
pub proof fn lemma_window_is_asked_what_it_allows<T>(
    dispatcher: &WryWindowDispatcher,
    caller: Caller,
    reply: ReplyId,
    result: Result<Vec<Effect>, Error>,
)
    ensures
        forall|context: &mut Context<T>| #[trigger]
            call_ensures(
                WryWindowDispatcher::is_decorated::<T>,
                (dispatcher, context, caller, reply),
                result,
            ) ==> told(
                *context,
                caller,
                to_window(dispatcher, WindowMessage::IsDecorated(reply)),
                *final(context),
                result,
            ),
        forall|context: &mut Context<T>| #[trigger]
            call_ensures(
                WryWindowDispatcher::is_resizable::<T>,
                (dispatcher, context, caller, reply),
                result,
            ) ==> told(
                *context,
                caller,
                to_window(dispatcher, WindowMessage::IsResizable(reply)),
                *final(context),
                result,
            ),
        forall|context: &mut Context<T>| #[trigger]
            call_ensures(
                WryWindowDispatcher::is_maximizable::<T>,
                (dispatcher, context, caller, reply),
                result,
            ) ==> told(
                *context,
                caller,
                to_window(dispatcher, WindowMessage::IsMaximizable(reply)),
                *final(context),
                result,
            ),
        forall|context: &mut Context<T>| #[trigger]
            call_ensures(
                WryWindowDispatcher::is_minimizable::<T>,
                (dispatcher, context, caller, reply),
                result,
            ) ==> told(
                *context,
                caller,
                to_window(dispatcher, WindowMessage::IsMinimizable(reply)),
                *final(context),
                result,
            ),
        forall|context: &mut Context<T>| #[trigger]
            call_ensures(
                WryWindowDispatcher::is_closable::<T>,
                (dispatcher, context, caller, reply),
                result,
            ) ==> told(
                *context,
                caller,
                to_window(dispatcher, WindowMessage::IsClosable(reply)),
                *final(context),
                result,
            ),
        forall|context: &mut Context<T>| #[trigger]
            call_ensures(
                WryWindowDispatcher::is_always_on_top::<T>,
                (dispatcher, context, caller, reply),
                result,
            ) ==> told(
                *context,
                caller,
                to_window(dispatcher, WindowMessage::IsAlwaysOnTop(reply)),
                *final(context),
                result,
            ),
{
}

/// A window is asked for its title, its monitors and its color scheme, each as such and with its
/// receiver.
pub proof fn lemma_window_is_asked_for_its_surroundings<T>(
    dispatcher: &WryWindowDispatcher,
    caller: Caller,
    reply: ReplyId,
    result: Result<Vec<Effect>, Error>,
)
    ensures
        forall|context: &mut Context<T>| #[trigger]
            call_ensures(
                WryWindowDispatcher::title::<T>,
                (dispatcher, context, caller, reply),
                result,
            ) ==> told(
                *context,
                caller,
                to_window(dispatcher, WindowMessage::Title(reply)),
                *final(context),
                result,
            ),
        forall|context: &mut Context<T>| #[trigger]
            call_ensures(
                WryWindowDispatcher::current_monitor::<T>,
                (dispatcher, context, caller, reply),
                result,
            ) ==> told(
                *context,
                caller,
                to_window(dispatcher, WindowMessage::CurrentMonitor(reply)),
                *final(context),
                result,
            ),
        forall|context: &mut Context<T>| #[trigger]
            call_ensures(
                WryWindowDispatcher::primary_monitor::<T>,
                (dispatcher, context, caller, reply),
                result,
            ) ==> told(
                *context,
                caller,
                to_window(dispatcher, WindowMessage::PrimaryMonitor(reply)),
                *final(context),
                result,
            ),
        forall|context: &mut Context<T>| #[trigger]
            call_ensures(
                WryWindowDispatcher::available_monitors::<T>,
                (dispatcher, context, caller, reply),
                result,
            ) ==> told(
                *context,
                caller,
                to_window(dispatcher, WindowMessage::AvailableMonitors(reply)),
                *final(context),
                result,
            ),
        forall|context: &mut Context<T>| #[trigger]
            call_ensures(
                WryWindowDispatcher::theme::<T>,
                (dispatcher, context, caller, reply),
                result,
            ) ==> told(
                *context,
                caller,
                to_window(dispatcher, WindowMessage::Theme(reply)),
                *final(context),
                result,
            ),
{
}

/// A window is asked for what the window system has for it, each as such and with its receiver.
pub proof fn lemma_window_is_asked_for_its_handles<T>(
    dispatcher: &WryWindowDispatcher,
    caller: Caller,
    reply: ReplyId,
    result: Result<Vec<Effect>, Error>,
)
    ensures
        forall|context: &mut Context<T>| #[trigger]
            call_ensures(
                WryWindowDispatcher::gtk_window::<T>,
                (dispatcher, context, caller, reply),
                result,
            ) ==> told(
                *context,
                caller,
                to_window(dispatcher, WindowMessage::GtkWindow(reply)),
                *final(context),
                result,
            ),
        forall|context: &mut Context<T>| #[trigger]
            call_ensures(
                WryWindowDispatcher::default_vbox::<T>,
                (dispatcher, context, caller, reply),
                result,
            ) ==> told(
                *context,
                caller,
                to_window(dispatcher, WindowMessage::GtkBox(reply)),
                *final(context),
                result,
            ),
        forall|context: &mut Context<T>| #[trigger]
            call_ensures(
                WryWindowDispatcher::window_handle::<T>,
                (dispatcher, context, caller, reply),
                result,
            ) ==> told(
                *context,
                caller,
                to_window(dispatcher, WindowMessage::RawWindowHandle(reply)),
                *final(context),
                result,
            ),
{
}

/// What can be done with a window is switched on or off as the application says.
pub proof fn lemma_window_allows_what_it_is_told<T>(
    dispatcher: &WryWindowDispatcher,
    caller: Caller,
    on: bool,
    result: Result<Vec<Effect>, Error>,
)
    ensures
        forall|context: &mut Context<T>| #[trigger]
            call_ensures(
                WryWindowDispatcher::set_resizable::<T>,
                (dispatcher, context, caller, on),
                result,
            ) ==> told(
                *context,
                caller,
                to_window(dispatcher, WindowMessage::SetResizable(on)),
                *final(context),
                result,
            ),
        forall|context: &mut Context<T>| #[trigger]
            call_ensures(
                WryWindowDispatcher::set_enabled::<T>,
                (dispatcher, context, caller, on),
                result,
            ) ==> told(
                *context,
                caller,
                to_window(dispatcher, WindowMessage::SetEnabled(on)),
                *final(context),
                result,
            ),
        forall|context: &mut Context<T>| #[trigger]
            call_ensures(
                WryWindowDispatcher::set_maximizable::<T>,
                (dispatcher, context, caller, on),
                result,
            ) ==> told(
                *context,
                caller,
                to_window(dispatcher, WindowMessage::SetMaximizable(on)),
                *final(context),
                result,
            ),
        forall|context: &mut Context<T>| #[trigger]
            call_ensures(
                WryWindowDispatcher::set_minimizable::<T>,
                (dispatcher, context, caller, on),
                result,
            ) ==> told(
                *context,
                caller,
                to_window(dispatcher, WindowMessage::SetMinimizable(on)),
                *final(context),
                result,
            ),
        forall|context: &mut Context<T>| #[trigger]
            call_ensures(
                WryWindowDispatcher::set_closable::<T>,
                (dispatcher, context, caller, on),
                result,
            ) ==> told(
                *context,
                caller,
                to_window(dispatcher, WindowMessage::SetClosable(on)),
                *final(context),
                result,
            ),
        forall|context: &mut Context<T>| #[trigger]
            call_ensures(
                WryWindowDispatcher::set_focusable::<T>,
                (dispatcher, context, caller, on),
                result,
            ) ==> told(
                *context,
                caller,
                to_window(dispatcher, WindowMessage::SetFocusable(on)),
                *final(context),
                result,
            ),
{
}

/// How a window looks and where it is shown is switched on or off as the application says.
pub proof fn lemma_window_is_shown_as_told<T>(
    dispatcher: &WryWindowDispatcher,
    caller: Caller,
    on: bool,
    result: Result<Vec<Effect>, Error>,
)
    ensures
        forall|context: &mut Context<T>| #[trigger]
            call_ensures(
                WryWindowDispatcher::set_decorations::<T>,
                (dispatcher, context, caller, on),
                result,
            ) ==> told(
                *context,
                caller,
                to_window(dispatcher, WindowMessage::SetDecorations(on)),
                *final(context),
                result,
            ),
        forall|context: &mut Context<T>| #[trigger]
            call_ensures(
                WryWindowDispatcher::set_shadow::<T>,
                (dispatcher, context, caller, on),
                result,
            ) ==> told(
                *context,
                caller,
                to_window(dispatcher, WindowMessage::SetShadow(on)),
                *final(context),
                result,
            ),
        forall|context: &mut Context<T>| #[trigger]
            call_ensures(
                WryWindowDispatcher::set_always_on_bottom::<T>,
                (dispatcher, context, caller, on),
                result,
            ) ==> told(
                *context,
                caller,
                to_window(dispatcher, WindowMessage::SetAlwaysOnBottom(on)),
                *final(context),
                result,
            ),
        forall|context: &mut Context<T>| #[trigger]
            call_ensures(
                WryWindowDispatcher::set_always_on_top::<T>,
                (dispatcher, context, caller, on),
                result,
            ) ==> told(
                *context,
                caller,
                to_window(dispatcher, WindowMessage::SetAlwaysOnTop(on)),
                *final(context),
                result,
            ),
        forall|context: &mut Context<T>| #[trigger]
            call_ensures(
                WryWindowDispatcher::set_visible_on_all_workspaces::<T>,
                (dispatcher, context, caller, on),
                result,
            ) ==> told(
                *context,
                caller,
                to_window(dispatcher, WindowMessage::SetVisibleOnAllWorkspaces(on)),
                *final(context),
                result,
            ),
        forall|context: &mut Context<T>| #[trigger]
            call_ensures(
                WryWindowDispatcher::set_content_protected::<T>,
                (dispatcher, context, caller, on),
                result,
            ) ==> told(
                *context,
                caller,
                to_window(dispatcher, WindowMessage::SetContentProtected(on)),
                *final(context),
                result,
            ),
{
}

/// A window fills the screen, is in the task bar and has the cursor as the application says.
pub proof fn lemma_window_has_the_cursor_as_told<T>(
    dispatcher: &WryWindowDispatcher,
    caller: Caller,
    on: bool,
    result: Result<Vec<Effect>, Error>,
)
    ensures
        forall|context: &mut Context<T>| #[trigger]
            call_ensures(
                WryWindowDispatcher::set_fullscreen::<T>,
                (dispatcher, context, caller, on),
                result,
            ) ==> told(
                *context,
                caller,
                to_window(dispatcher, WindowMessage::SetFullscreen(on)),
                *final(context),
                result,
            ),
        forall|context: &mut Context<T>| #[trigger]
            call_ensures(
                WryWindowDispatcher::set_simple_fullscreen::<T>,
                (dispatcher, context, caller, on),
                result,
            ) ==> told(
                *context,
                caller,
                to_window(dispatcher, WindowMessage::SetSimpleFullscreen(on)),
                *final(context),
                result,
            ),
        forall|context: &mut Context<T>| #[trigger]
            call_ensures(
                WryWindowDispatcher::set_skip_taskbar::<T>,
                (dispatcher, context, caller, on),
                result,
            ) ==> told(
                *context,
                caller,
                to_window(dispatcher, WindowMessage::SetSkipTaskbar(on)),
                *final(context),
                result,
            ),
        forall|context: &mut Context<T>| #[trigger]
            call_ensures(
                WryWindowDispatcher::set_cursor_grab::<T>,
                (dispatcher, context, caller, on),
                result,
            ) ==> told(
                *context,
                caller,
                to_window(dispatcher, WindowMessage::SetCursorGrab(on)),
                *final(context),
                result,
            ),
        forall|context: &mut Context<T>| #[trigger]
            call_ensures(
                WryWindowDispatcher::set_cursor_visible::<T>,
                (dispatcher, context, caller, on),
                result,
            ) ==> told(
                *context,
                caller,
                to_window(dispatcher, WindowMessage::SetCursorVisible(on)),
                *final(context),
                result,
            ),
        forall|context: &mut Context<T>| #[trigger]
            call_ensures(
                WryWindowDispatcher::set_ignore_cursor_events::<T>,
                (dispatcher, context, caller, on),
                result,
            ) ==> told(
                *context,
                caller,
                to_window(dispatcher, WindowMessage::SetIgnoreCursorEvents(on)),
                *final(context),
                result,
            ),
{
}

/// A window is put into the middle of the screen, grows, shrinks and comes back as the
/// application says.
pub proof fn lemma_window_grows_and_shrinks_as_told<T>(
    dispatcher: &WryWindowDispatcher,
    caller: Caller,
    result: Result<Vec<Effect>, Error>,
)
    ensures
        forall|context: &mut Context<T>| #[trigger]
            call_ensures(WryWindowDispatcher::center::<T>, (dispatcher, context, caller), result)
                ==> told(
                *context,
                caller,
                to_window(dispatcher, WindowMessage::Center),
                *final(context),
                result,
            ),
        forall|context: &mut Context<T>| #[trigger]
            call_ensures(WryWindowDispatcher::maximize::<T>, (dispatcher, context, caller), result)
                ==> told(
                *context,
                caller,
                to_window(dispatcher, WindowMessage::Maximize),
                *final(context),
                result,
            ),
        forall|context: &mut Context<T>| #[trigger]
            call_ensures(
                WryWindowDispatcher::unmaximize::<T>,
                (dispatcher, context, caller),
                result,
            ) ==> told(
                *context,
                caller,
                to_window(dispatcher, WindowMessage::Unmaximize),
                *final(context),
                result,
            ),
        forall|context: &mut Context<T>| #[trigger]
            call_ensures(WryWindowDispatcher::minimize::<T>, (dispatcher, context, caller), result)
                ==> told(
                *context,
                caller,
                to_window(dispatcher, WindowMessage::Minimize),
                *final(context),
                result,
            ),
        forall|context: &mut Context<T>| #[trigger]
            call_ensures(
                WryWindowDispatcher::unminimize::<T>,
                (dispatcher, context, caller),
                result,
            ) ==> told(
                *context,
                caller,
                to_window(dispatcher, WindowMessage::Unminimize),
                *final(context),
                result,
            ),
{
}

/// A window is shown, hidden, focused and dragged as the application says.
pub proof fn lemma_window_is_shown_and_hidden_as_told<T>(
    dispatcher: &WryWindowDispatcher,
    caller: Caller,
    result: Result<Vec<Effect>, Error>,
)
    ensures
        forall|context: &mut Context<T>| #[trigger]
            call_ensures(WryWindowDispatcher::show::<T>, (dispatcher, context, caller), result)
                ==> told(
                *context,
                caller,
                to_window(dispatcher, WindowMessage::Show),
                *final(context),
                result,
            ),
        forall|context: &mut Context<T>| #[trigger]
            call_ensures(
                WryWindowDispatcher::hide_window::<T>,
                (dispatcher, context, caller),
                result,
            ) ==> told(
                *context,
                caller,
                to_window(dispatcher, WindowMessage::Hide),
                *final(context),
                result,
            ),
        forall|context: &mut Context<T>| #[trigger]
            call_ensures(WryWindowDispatcher::set_focus::<T>, (dispatcher, context, caller), result)
                ==> told(
                *context,
                caller,
                to_window(dispatcher, WindowMessage::SetFocus),
                *final(context),
                result,
            ),
        forall|context: &mut Context<T>| #[trigger]
            call_ensures(
                WryWindowDispatcher::start_dragging::<T>,
                (dispatcher, context, caller),
                result,
            ) ==> told(
                *context,
                caller,
                to_window(dispatcher, WindowMessage::DragWindow),
                *final(context),
                result,
            ),
{
}

/// A window gets the title, the size, the limits and the position that the application gives it.
pub proof fn lemma_window_gets_its_place<T>(
    dispatcher: &WryWindowDispatcher,
    caller: Caller,
    title: String,
    size: Size,
    limit: Option<Size>,
    constraints: WindowSizeConstraints,
    position: Position,
    result: Result<Vec<Effect>, Error>,
)
    ensures
        forall|context: &mut Context<T>| #[trigger]
            call_ensures(
                WryWindowDispatcher::set_title::<T>,
                (dispatcher, context, caller, title),
                result,
            ) ==> told(
                *context,
                caller,
                to_window(dispatcher, WindowMessage::SetTitle(title)),
                *final(context),
                result,
            ),
        forall|context: &mut Context<T>| #[trigger]
            call_ensures(
                WryWindowDispatcher::set_size::<T>,
                (dispatcher, context, caller, size),
                result,
            ) ==> told(
                *context,
                caller,
                to_window(dispatcher, WindowMessage::SetSize(size)),
                *final(context),
                result,
            ),
        forall|context: &mut Context<T>| #[trigger]
            call_ensures(
                WryWindowDispatcher::set_min_size::<T>,
                (dispatcher, context, caller, limit),
                result,
            ) ==> told(
                *context,
                caller,
                to_window(dispatcher, WindowMessage::SetMinSize(limit)),
                *final(context),
                result,
            ),
        forall|context: &mut Context<T>| #[trigger]
            call_ensures(
                WryWindowDispatcher::set_max_size::<T>,
                (dispatcher, context, caller, limit),
                result,
            ) ==> told(
                *context,
                caller,
                to_window(dispatcher, WindowMessage::SetMaxSize(limit)),
                *final(context),
                result,
            ),
        forall|context: &mut Context<T>| #[trigger]
            call_ensures(
                WryWindowDispatcher::set_size_constraints::<T>,
                (dispatcher, context, caller, constraints),
                result,
            ) ==> told(
                *context,
                caller,
                to_window(dispatcher, WindowMessage::SetSizeConstraints(constraints)),
                *final(context),
                result,
            ),
        forall|context: &mut Context<T>| #[trigger]
            call_ensures(
                WryWindowDispatcher::set_position::<T>,
                (dispatcher, context, caller, position),
                result,
            ) ==> told(
                *context,
                caller,
                to_window(dispatcher, WindowMessage::SetPosition(position)),
                *final(context),
                result,
            ),
{
}

/// The cursor gets its shape and its place, and a window is resized from the side that the
/// application says.
pub proof fn lemma_cursor_gets_its_place<T>(
    dispatcher: &WryWindowDispatcher,
    caller: Caller,
    icon: CursorIcon,
    position: Position,
    direction: ResizeDirection,
    result: Result<Vec<Effect>, Error>,
)
    ensures
        forall|context: &mut Context<T>| #[trigger]
            call_ensures(
                WryWindowDispatcher::set_cursor_icon::<T>,
                (dispatcher, context, caller, icon),
                result,
            ) ==> told(
                *context,
                caller,
                to_window(dispatcher, WindowMessage::SetCursorIcon(icon)),
                *final(context),
                result,
            ),
        forall|context: &mut Context<T>| #[trigger]
            call_ensures(
                WryWindowDispatcher::set_cursor_position::<T>,
                (dispatcher, context, caller, position),
                result,
            ) ==> told(
                *context,
                caller,
                to_window(dispatcher, WindowMessage::SetCursorPosition(position)),
                *final(context),
                result,
            ),
        forall|context: &mut Context<T>| #[trigger]
            call_ensures(
                WryWindowDispatcher::start_resize_dragging::<T>,
                (dispatcher, context, caller, direction),
                result,
            ) ==> told(
                *context,
                caller,
                to_window(dispatcher, WindowMessage::ResizeDragWindow(direction)),
                *final(context),
                result,
            ),
{
}

/// A window shows the badge and the progress that the application gives it.
pub proof fn lemma_window_gets_its_badge<T>(
    dispatcher: &WryWindowDispatcher,
    caller: Caller,
    count: Option<i64>,
    desktop_filename: Option<String>,
    label: Option<String>,
    progress_state: ProgressBarState,
    result: Result<Vec<Effect>, Error>,
)
    ensures
        forall|context: &mut Context<T>| #[trigger]
            call_ensures(
                WryWindowDispatcher::set_badge_count::<T>,
                (dispatcher, context, caller, count, desktop_filename),
                result,
            ) ==> told(
                *context,
                caller,
                to_window(dispatcher, WindowMessage::SetBadgeCount(count, desktop_filename)),
                *final(context),
                result,
            ),
        forall|context: &mut Context<T>| #[trigger]
            call_ensures(
                WryWindowDispatcher::set_badge_label::<T>,
                (dispatcher, context, caller, label),
                result,
            ) ==> told(
                *context,
                caller,
                to_window(dispatcher, WindowMessage::SetBadgeLabel(label)),
                *final(context),
                result,
            ),
        forall|context: &mut Context<T>| #[trigger]
            call_ensures(
                WryWindowDispatcher::set_progress_bar::<T>,
                (dispatcher, context, caller, progress_state),
                result,
            ) ==> told(
                *context,
                caller,
                to_window(dispatcher, WindowMessage::SetProgressBar(progress_state)),
                *final(context),
                result,
            ),
{
}

/// A window gets the title bar and the colors that the application gives it.
pub proof fn lemma_window_gets_its_colors<T>(
    dispatcher: &WryWindowDispatcher,
    caller: Caller,
    style: TitleBarStyle,
    position: Position,
    theme: Option<Theme>,
    color: Option<Color>,
    result: Result<Vec<Effect>, Error>,
)
    ensures
        forall|context: &mut Context<T>| #[trigger]
            call_ensures(
                WryWindowDispatcher::set_title_bar_style::<T>,
                (dispatcher, context, caller, style),
                result,
            ) ==> told(
                *context,
                caller,
                to_window(dispatcher, WindowMessage::SetTitleBarStyle(style)),
                *final(context),
                result,
            ),
        forall|context: &mut Context<T>| #[trigger]
            call_ensures(
                WryWindowDispatcher::set_traffic_light_position::<T>,
                (dispatcher, context, caller, position),
                result,
            ) ==> told(
                *context,
                caller,
                to_window(dispatcher, WindowMessage::SetTrafficLightPosition(position)),
                *final(context),
                result,
            ),
        forall|context: &mut Context<T>| #[trigger]
            call_ensures(
                WryWindowDispatcher::set_theme::<T>,
                (dispatcher, context, caller, theme),
                result,
            ) ==> told(
                *context,
                caller,
                to_window(dispatcher, WindowMessage::SetTheme(theme)),
                *final(context),
                result,
            ),
        forall|context: &mut Context<T>| #[trigger]
            call_ensures(
                WryWindowDispatcher::set_background_color::<T>,
                (dispatcher, context, caller, color),
                result,
            ) ==> told(
                *context,
                caller,
                to_window(dispatcher, WindowMessage::SetBackgroundColor(color)),
                *final(context),
                result,
            ),
{
}

/// A window is asked to close, or closed, by the event loop, whatever the thread.
pub proof fn lemma_windows_are_closed_by_the_loop<T>(
    dispatcher: &WryWindowDispatcher,
    result: Result<Vec<Effect>, Error>,
)
    ensures
        forall|context: &mut Context<T>| #[trigger]
            call_ensures(WryWindowDispatcher::close::<T>, (dispatcher, context), result)
                ==> posted_to(
                *context,
                to_window(dispatcher, WindowMessage::Close),
                *final(context),
                result,
            ),
        forall|context: &mut Context<T>| #[trigger]
            call_ensures(WryWindowDispatcher::destroy::<T>, (dispatcher, context), result)
                ==> posted_to(
                *context,
                to_window(dispatcher, WindowMessage::Destroy),
                *final(context),
                result,
            ),
{
}

/// A webview is asked for its page, its place and its cookies, each as such and with its receiver.
pub proof fn lemma_webview_is_asked<T>(
    dispatcher: &WryWebviewDispatcher,
    caller: Caller,
    reply: ReplyId,
    result: Result<Vec<Effect>, Error>,
)
    ensures
        forall|context: &mut Context<T>| #[trigger]
            call_ensures(
                WryWebviewDispatcher::is_devtools_open::<T>,
                (dispatcher, context, caller, reply),
                result,
            ) ==> told(
                *context,
                caller,
                to_webview(dispatcher, *context, WebviewMessage::IsDevToolsOpen(reply)),
                *final(context),
                result,
            ),
        forall|context: &mut Context<T>| #[trigger]
            call_ensures(
                WryWebviewDispatcher::url::<T>,
                (dispatcher, context, caller, reply),
                result,
            ) ==> told(
                *context,
                caller,
                to_webview(dispatcher, *context, WebviewMessage::Url(reply)),
                *final(context),
                result,
            ),
        forall|context: &mut Context<T>| #[trigger]
            call_ensures(
                WryWebviewDispatcher::bounds::<T>,
                (dispatcher, context, caller, reply),
                result,
            ) ==> told(
                *context,
                caller,
                to_webview(dispatcher, *context, WebviewMessage::Bounds(reply)),
                *final(context),
                result,
            ),
        forall|context: &mut Context<T>| #[trigger]
            call_ensures(
                WryWebviewDispatcher::position::<T>,
                (dispatcher, context, caller, reply),
                result,
            ) ==> told(
                *context,
                caller,
                to_webview(dispatcher, *context, WebviewMessage::Position(reply)),
                *final(context),
                result,
            ),
        forall|context: &mut Context<T>| #[trigger]
            call_ensures(
                WryWebviewDispatcher::size::<T>,
                (dispatcher, context, caller, reply),
                result,
            ) ==> told(
                *context,
                caller,
                to_webview(dispatcher, *context, WebviewMessage::Size(reply)),
                *final(context),
                result,
            ),
        forall|context: &mut Context<T>| #[trigger]
            call_ensures(
                WryWebviewDispatcher::cookies::<T>,
                (dispatcher, context, caller, reply),
                result,
            ) ==> told(
                *context,
                caller,
                to_webview(dispatcher, *context, WebviewMessage::Cookies(reply)),
                *final(context),
                result,
            ),
{
}

/// A webview loads its page again, prints it and is closed as the application says.
pub proof fn lemma_webview_acts_as_told<T>(
    dispatcher: &WryWebviewDispatcher,
    caller: Caller,
    result: Result<Vec<Effect>, Error>,
)
    ensures
        forall|context: &mut Context<T>| #[trigger]
            call_ensures(WryWebviewDispatcher::reload::<T>, (dispatcher, context, caller), result)
                ==> told(
                *context,
                caller,
                to_webview(dispatcher, *context, WebviewMessage::Reload),
                *final(context),
                result,
            ),
        forall|context: &mut Context<T>| #[trigger]
            call_ensures(WryWebviewDispatcher::print::<T>, (dispatcher, context, caller), result)
                ==> told(
                *context,
                caller,
                to_webview(dispatcher, *context, WebviewMessage::Print),
                *final(context),
                result,
            ),
        forall|context: &mut Context<T>| #[trigger]
            call_ensures(WryWebviewDispatcher::close::<T>, (dispatcher, context, caller), result)
                ==> told(
                *context,
                caller,
                to_webview(dispatcher, *context, WebviewMessage::Close),
                *final(context),
                result,
            ),
        forall|context: &mut Context<T>| #[trigger]
            call_ensures(
                WryWebviewDispatcher::clear_all_browsing_data::<T>,
                (dispatcher, context, caller),
                result,
            ) ==> told(
                *context,
                caller,
                to_webview(dispatcher, *context, WebviewMessage::ClearAllBrowsingData),
                *final(context),
                result,
            ),
{
}

/// A webview is shown, hidden and focused as the application says.
pub proof fn lemma_webview_is_shown_as_told<T>(
    dispatcher: &WryWebviewDispatcher,
    caller: Caller,
    result: Result<Vec<Effect>, Error>,
)
    ensures
        forall|context: &mut Context<T>| #[trigger]
            call_ensures(
                WryWebviewDispatcher::set_focus::<T>,
                (dispatcher, context, caller),
                result,
            ) ==> told(
                *context,
                caller,
                to_webview(dispatcher, *context, WebviewMessage::SetFocus),
                *final(context),
                result,
            ),
        forall|context: &mut Context<T>| #[trigger]
            call_ensures(
                WryWebviewDispatcher::hide_webview::<T>,
                (dispatcher, context, caller),
                result,
            ) ==> told(
                *context,
                caller,
                to_webview(dispatcher, *context, WebviewMessage::Hide),
                *final(context),
                result,
            ),
        forall|context: &mut Context<T>| #[trigger]
            call_ensures(WryWebviewDispatcher::show::<T>, (dispatcher, context, caller), result)
                ==> told(
                *context,
                caller,
                to_webview(dispatcher, *context, WebviewMessage::Show),
                *final(context),
                result,
            ),
{
}

/// A webview loads the URL, and gets the bounds and the window, that the application gives it.
pub proof fn lemma_webview_gets_its_place<T>(
    dispatcher: &WryWebviewDispatcher,
    caller: Caller,
    url: String,
    bounds: Rect,
    size: Size,
    position: Position,
    window_id: WindowId,
    reply: ReplyId,
    result: Result<Vec<Effect>, Error>,
)
    ensures
        forall|context: &mut Context<T>| #[trigger]
            call_ensures(
                WryWebviewDispatcher::navigate::<T>,
                (dispatcher, context, caller, url),
                result,
            ) ==> told(
                *context,
                caller,
                to_webview(dispatcher, *context, WebviewMessage::Navigate(url)),
                *final(context),
                result,
            ),
        forall|context: &mut Context<T>| #[trigger]
            call_ensures(
                WryWebviewDispatcher::set_bounds::<T>,
                (dispatcher, context, caller, bounds),
                result,
            ) ==> told(
                *context,
                caller,
                to_webview(dispatcher, *context, WebviewMessage::SetBounds(bounds)),
                *final(context),
                result,
            ),
        forall|context: &mut Context<T>| #[trigger]
            call_ensures(
                WryWebviewDispatcher::set_size::<T>,
                (dispatcher, context, caller, size),
                result,
            ) ==> told(
                *context,
                caller,
                to_webview(dispatcher, *context, WebviewMessage::SetSize(size)),
                *final(context),
                result,
            ),
        forall|context: &mut Context<T>| #[trigger]
            call_ensures(
                WryWebviewDispatcher::set_position::<T>,
                (dispatcher, context, caller, position),
                result,
            ) ==> told(
                *context,
                caller,
                to_webview(dispatcher, *context, WebviewMessage::SetPosition(position)),
                *final(context),
                result,
            ),
        forall|context: &mut Context<T>| #[trigger]
            call_ensures(
                WryWebviewDispatcher::reparent::<T>,
                (dispatcher, context, caller, window_id, reply),
                result,
            ) ==> told(
                *context,
                caller,
                to_webview(dispatcher, *context, WebviewMessage::Reparent(window_id, reply)),
                *final(context),
                result,
            ),
{
}

/// A webview is asked for, keeps and deletes the cookies that the application names.
pub proof fn lemma_webview_gets_its_cookies<T>(
    dispatcher: &WryWebviewDispatcher,
    caller: Caller,
    url: String,
    reply: ReplyId,
    cookie: WebCookie,
    result: Result<Vec<Effect>, Error>,
)
    ensures
        forall|context: &mut Context<T>| #[trigger]
            call_ensures(
                WryWebviewDispatcher::cookies_for_url::<T>,
                (dispatcher, context, caller, url, reply),
                result,
            ) ==> told(
                *context,
                caller,
                to_webview(dispatcher, *context, WebviewMessage::CookiesForUrl(url, reply)),
                *final(context),
                result,
            ),
        forall|context: &mut Context<T>| #[trigger]
            call_ensures(
                WryWebviewDispatcher::set_cookie::<T>,
                (dispatcher, context, caller, cookie),
                result,
            ) ==> told(
                *context,
                caller,
                to_webview(dispatcher, *context, WebviewMessage::SetCookie(cookie)),
                *final(context),
                result,
            ),
        forall|context: &mut Context<T>| #[trigger]
            call_ensures(
                WryWebviewDispatcher::delete_cookie::<T>,
                (dispatcher, context, caller, cookie),
                result,
            ) ==> told(
                *context,
                caller,
                to_webview(dispatcher, *context, WebviewMessage::DeleteCookie(cookie)),
                *final(context),
                result,
            ),
{
}

/// A webview gets the zoom, the color and the work that the application gives it, and grows with
/// its window as the application says.
pub proof fn lemma_webview_gets_its_settings<T>(
    dispatcher: &WryWebviewDispatcher,
    caller: Caller,
    on: bool,
    scale_factor: Float64,
    color: Option<Color>,
    task: TaskId,
    result: Result<Vec<Effect>, Error>,
)
    ensures
        forall|context: &mut Context<T>| #[trigger]
            call_ensures(
                WryWebviewDispatcher::set_auto_resize::<T>,
                (dispatcher, context, caller, on),
                result,
            ) ==> told(
                *context,
                caller,
                to_webview(dispatcher, *context, WebviewMessage::SetAutoResize(on)),
                *final(context),
                result,
            ),
        forall|context: &mut Context<T>| #[trigger]
            call_ensures(
                WryWebviewDispatcher::set_zoom::<T>,
                (dispatcher, context, caller, scale_factor),
                result,
            ) ==> told(
                *context,
                caller,
                to_webview(dispatcher, *context, WebviewMessage::SetZoom(scale_factor)),
                *final(context),
                result,
            ),
        forall|context: &mut Context<T>| #[trigger]
            call_ensures(
                WryWebviewDispatcher::set_background_color::<T>,
                (dispatcher, context, caller, color),
                result,
            ) ==> told(
                *context,
                caller,
                to_webview(dispatcher, *context, WebviewMessage::SetBackgroundColor(color)),
                *final(context),
                result,
            ),
        forall|context: &mut Context<T>| #[trigger]
            call_ensures(
                WryWebviewDispatcher::with_webview::<T>,
                (dispatcher, context, caller, task),
                result,
            ) ==> told(
                *context,
                caller,
                to_webview(dispatcher, *context, WebviewMessage::WithWebview(task)),
                *final(context),
                result,
            ),
{
}

/// A script is sent with its text, and with its trace where scripts are traced.
pub proof fn lemma_scripts_are_sent<T>(
    dispatcher: &WryWebviewDispatcher,
    caller: Caller,
    script: String,
    trace: ScriptTrace,
    result: Result<Vec<Effect>, Error>,
)
    ensures
        forall|context: &mut Context<T>| #[trigger]
            call_ensures(
                WryWebviewDispatcher::eval_script::<T>,
                (dispatcher, context, caller, script, trace),
                result,
            ) ==> {
                let traced = (*context).options.traces_scripts_spec();
                &&& traced ==> told(
                    *context,
                    caller,
                    to_webview(
                        dispatcher,
                        *context,
                        WebviewMessage::EvaluateScript(script, Some(trace)),
                    ),
                    *final(context),
                    result,
                )
                &&& !traced ==> told(
                    *context,
                    caller,
                    to_webview(dispatcher, *context, WebviewMessage::EvaluateScript(script, None)),
                    *final(context),
                    result,
                )
            },
{
}

/// A request for the attention of the user is sent with what was asked for, or as the end of it.
pub proof fn lemma_attention_is_sent<T>(
    dispatcher: &WryWindowDispatcher,
    caller: Caller,
    request: UserAttentionType,
    wrapped: UserAttentionTypeWrapper,
    result: Result<Vec<Effect>, Error>,
)
    requires
        wrapped == <UserAttentionTypeWrapper as vstd::std_specs::convert::FromSpec<
            UserAttentionType,
        >>::from_spec(request),
    ensures
        forall|context: &mut Context<T>| #[trigger]
            call_ensures(
                WryWindowDispatcher::request_user_attention::<T>,
                (dispatcher, context, caller, Some(request)),
                result,
            ) ==> told(
                *context,
                caller,
                to_window(dispatcher, WindowMessage::RequestUserAttention(Some(wrapped))),
                *final(context),
                result,
            ),
        forall|context: &mut Context<T>| #[trigger]
            call_ensures(
                WryWindowDispatcher::request_user_attention::<T>,
                (dispatcher, context, caller, None::<UserAttentionType>),
                result,
            ) ==> told(
                *context,
                caller,
                to_window(dispatcher, WindowMessage::RequestUserAttention(None)),
                *final(context),
                result,
            ),
{
}

/// An icon is sent if its pixels make one, and is an error that sends nothing otherwise. That
/// there is to be none over the task bar is sent as it is.
pub proof fn lemma_icons_are_sent<T>(
    dispatcher: &WryWindowDispatcher,
    caller: Caller,
    platform: Platform,
    icon: Icon,
    made: Result<TaoIcon, Error>,
    result: Result<Vec<Effect>, Error>,
)
    requires
        made == <TaoIcon as vstd::std_specs::convert::TryFromSpec<
            (Platform, Icon),
        >>::try_from_spec((platform, icon)),
    ensures
        forall|context: &mut Context<T>|
            (*context).options.platform == platform && #[trigger] call_ensures(
                WryWindowDispatcher::set_icon::<T>,
                (dispatcher, context, caller, icon),
                result,
            ) ==> {
                &&& made matches Ok(made) ==> told(
                    *context,
                    caller,
                    to_window(dispatcher, WindowMessage::SetIcon(made)),
                    *final(context),
                    result,
                )
                &&& made matches Err(error) ==> {
                    &&& result == Err::<Vec<Effect>, Error>(error)
                    &&& (*final(context))@ == (*context)@
                }
            },
        forall|context: &mut Context<T>|
            (*context).options.platform == platform && #[trigger] call_ensures(
                WryWindowDispatcher::set_overlay_icon::<T>,
                (dispatcher, context, caller, Some(icon)),
                result,
            ) ==> {
                &&& made matches Ok(made) ==> told(
                    *context,
                    caller,
                    to_window(dispatcher, WindowMessage::SetOverlayIcon(Some(made))),
                    *final(context),
                    result,
                )
                &&& made matches Err(error) ==> {
                    &&& result == Err::<Vec<Effect>, Error>(error)
                    &&& (*final(context))@ == (*context)@
                }
            },
        forall|context: &mut Context<T>| #[trigger]
            call_ensures(
                WryWindowDispatcher::set_overlay_icon::<T>,
                (dispatcher, context, caller, None::<Icon>),
                result,
            ) ==> told(
                *context,
                caller,
                to_window(dispatcher, WindowMessage::SetOverlayIcon(None)),
                *final(context),
                result,
            ),
{
}

/// A message that nobody waits for is behind all others on their way, where another thread sends
/// it to an event loop that runs.
pub open spec fn told_in_passing<T>(
    before: Context<T>,
    caller: Caller,
    message: Message<T>,
    after: Context<T>,
) -> bool {
    caller.thread != before.main_thread_id ==> {
        &&& before.proxy.closed ==> after@ == before@
        &&& !before.proxy.closed ==> after.proxy.sent@ == before.proxy.sent@.push(message)
        &&& after@.windows == before@.windows
    }
}

/// The developer tools are opened and closed, and the monitor of a point is asked for, without
/// waiting for it.
pub proof fn lemma_some_messages_are_sent_in_passing<T>(
    window: &WryWindowDispatcher,
    webview: &WryWebviewDispatcher,
    caller: Caller,
    reply: ReplyId,
    x: Float64,
    y: Float64,
    effects: Vec<Effect>,
)
    ensures
        forall|context: &mut Context<T>| #[trigger]
            call_ensures(
                WryWindowDispatcher::monitor_from_point::<T>,
                (window, context, caller, reply, x, y),
                effects,
            ) ==> told_in_passing(
                *context,
                caller,
                to_window(window, WindowMessage::MonitorFromPoint(reply, x, y)),
                *final(context),
            ),
        forall|context: &mut Context<T>| #[trigger]
            call_ensures(
                WryWebviewDispatcher::open_devtools::<T>,
                (webview, context, caller),
                effects,
            ) ==> told_in_passing(
                *context,
                caller,
                to_webview(webview, *context, WebviewMessage::OpenDevTools),
                *final(context),
            ),
        forall|context: &mut Context<T>| #[trigger]
            call_ensures(
                WryWebviewDispatcher::close_devtools::<T>,
                (webview, context, caller),
                effects,
            ) ==> told_in_passing(
                *context,
                caller,
                to_webview(webview, *context, WebviewMessage::CloseDevTools),
                *final(context),
            ),
{
}

/// A listener gets the next identifier, and is sent with it to the event loop, whatever the
/// thread.
pub proof fn lemma_listeners_are_sent<T>(
    window: &WryWindowDispatcher,
    webview: &WryWebviewDispatcher,
    handler: HandlerId,
    window_event: WindowEventId,
    webview_event: WebviewEventId,
)
    ensures
        forall|context: &mut Context<T>|
            !(*context).proxy.closed && #[trigger] call_ensures(
                WryWindowDispatcher::on_window_event::<T>,
                (window, context, handler),
                window_event,
            ) ==> {
                &&& window_event == (*context).next_ids.window_event
                &&& window_event < u32::MAX ==> (*final(context)).next_ids.window_event
                    == window_event + 1
                &&& (*final(context)).proxy.sent@ == (*context).proxy.sent@.push(
                    to_window(window, WindowMessage::AddEventListener(window_event, handler)),
                )
            },
        forall|context: &mut Context<T>|
            !(*context).proxy.closed && #[trigger] call_ensures(
                WryWebviewDispatcher::on_webview_event::<T>,
                (webview, context, handler),
                webview_event,
            ) ==> {
                &&& webview_event == (*context).next_ids.webview_event
                &&& webview_event < u32::MAX ==> (*final(context)).next_ids.webview_event
                    == webview_event + 1
                &&& (*final(context)).proxy.sent@ == (*context).proxy.sent@.push(
                    to_webview(
                        webview,
                        *context,
                        WebviewMessage::AddEventListener(webview_event, handler),
                    ),
                )
            },
{
    assert forall|context: &mut Context<T>|
        !(*context).proxy.closed && #[trigger] call_ensures(
            WryWindowDispatcher::on_window_event::<T>,
            (window, context, handler),
            window_event,
        ) implies (*final(context)).next_ids == (*final(context))@.next_ids by {}
    assert forall|context: &mut Context<T>|
        !(*context).proxy.closed && #[trigger] call_ensures(
            WryWebviewDispatcher::on_webview_event::<T>,
            (webview, context, handler),
            webview_event,
        ) implies (*final(context)).next_ids == (*final(context))@.next_ids by {}
}

/// Work of the application is sent to the main thread by whoever has it.
pub proof fn lemma_work_is_sent<T>(
    window: &WryWindowDispatcher,
    webview: &WryWebviewDispatcher,
    caller: Caller,
    task: TaskId,
    result: Result<Vec<Effect>, Error>,
)
    ensures
        forall|context: &mut Context<T>| #[trigger]
            call_ensures(
                WryWindowDispatcher::run_on_main_thread::<T>,
                (window, context, caller, task),
                result,
            ) ==> told(*context, caller, Message::Task(task), *final(context), result),
        forall|context: &mut Context<T>| #[trigger]
            call_ensures(
                WryWebviewDispatcher::run_on_main_thread::<T>,
                (webview, context, caller, task),
                result,
            ) ==> told(*context, caller, Message::Task(task), *final(context), result),
        forall|handle: &mut WryHandle<T>| #[trigger]
            call_ensures(WryHandle::<T>::run_on_main_thread, (handle, caller, task), result)
                ==> told(
                (*handle).context,
                caller,
                Message::Task(task),
                (*final(handle)).context,
                result,
            ),
{
}

/// What a handle asks of the application as a whole is sent as that.
pub proof fn lemma_application_is_told<T>(
    caller: Caller,
    policy: ActivationPolicy,
    visible: bool,
    store: DataStoreId,
    task: TaskId,
    reply: ReplyId,
    result: Result<Vec<Effect>, Error>,
)
    ensures
        forall|handle: &mut WryHandle<T>| #[trigger]
            call_ensures(WryHandle::<T>::set_activation_policy, (handle, caller, policy), result)
                ==> told(
                (*handle).context,
                caller,
                Message::SetActivationPolicy(policy),
                (*final(handle)).context,
                result,
            ),
        forall|handle: &mut WryHandle<T>| #[trigger]
            call_ensures(WryHandle::<T>::set_dock_visibility, (handle, caller, visible), result)
                ==> told(
                (*handle).context,
                caller,
                Message::SetDockVisibility(visible),
                (*final(handle)).context,
                result,
            ),
        forall|handle: &mut WryHandle<T>| #[trigger]
            call_ensures(WryHandle::<T>::show_application, (handle, caller), result) ==> told(
                (*handle).context,
                caller,
                Message::Application(ApplicationMessage::Show),
                (*final(handle)).context,
                result,
            ),
        forall|handle: &mut WryHandle<T>| #[trigger]
            call_ensures(WryHandle::<T>::hide_application, (handle, caller), result) ==> told(
                (*handle).context,
                caller,
                Message::Application(ApplicationMessage::Hide),
                (*final(handle)).context,
                result,
            ),
        forall|handle: &mut WryHandle<T>| #[trigger]
            call_ensures(
                WryHandle::<T>::fetch_data_store_identifiers,
                (handle, caller, task),
                result,
            ) ==> told(
                (*handle).context,
                caller,
                Message::Application(ApplicationMessage::FetchDataStoreIdentifiers(task)),
                (*final(handle)).context,
                result,
            ),
        forall|handle: &mut WryHandle<T>| #[trigger]
            call_ensures(
                WryHandle::<T>::remove_data_store,
                (handle, caller, store, task),
                result,
            ) ==> told(
                (*handle).context,
                caller,
                Message::Application(ApplicationMessage::RemoveDataStore(store, task)),
                (*final(handle)).context,
                result,
            ),
        forall|handle: &mut WryHandle<T>| #[trigger]
            call_ensures(WryHandle::<T>::cursor_position, (handle, caller, reply), result)
                ==> told(
                (*handle).context,
                caller,
                Message::EventLoopWindowTarget(
                    EventLoopWindowTargetMessage::CursorPosition(reply),
                ),
                (*final(handle)).context,
                result,
            ),
{
}

/// The end of the event loop is asked for there, whatever the thread, with its code; a color
/// scheme and a filter for events of devices are sent in passing.
pub proof fn lemma_event_loop_is_told<T>(
    caller: Caller,
    code: i32,
    theme: Option<Theme>,
    filter: DeviceEventFilter,
    result: Result<Vec<Effect>, Error>,
    effects: Vec<Effect>,
)
    ensures
        forall|handle: &mut WryHandle<T>| #[trigger]
            call_ensures(WryHandle::<T>::request_exit, (handle, code), result) ==> posted_to(
                (*handle).context,
                Message::RequestExit(code),
                (*final(handle)).context,
                result,
            ),
        forall|handle: &mut WryHandle<T>| #[trigger]
            call_ensures(WryHandle::<T>::set_theme, (handle, caller, theme), effects)
                ==> told_in_passing(
                (*handle).context,
                caller,
                Message::EventLoopWindowTarget(EventLoopWindowTargetMessage::SetTheme(theme)),
                (*final(handle)).context,
            ),
        forall|handle: &mut WryHandle<T>| #[trigger]
            call_ensures(
                WryHandle::<T>::set_device_event_filter,
                (handle, caller, filter),
                effects,
            ) ==> told_in_passing(
                (*handle).context,
                caller,
                Message::EventLoopWindowTarget(
                    EventLoopWindowTargetMessage::SetDeviceEventFilter(filter),
                ),
                (*final(handle)).context,
            ),
{
}

/// Events of the application, and messages of whoever has a handle, are behind all others on
/// their way, unless the event loop is gone.
pub proof fn lemma_events_are_sent<T>(
    proxy: &EventProxy,
    event: T,
    message: Message<T>,
    result: Result<(), Error>,
)
    ensures
        forall|context: &mut Context<T>| #[trigger]
            call_ensures(EventProxy::send_event::<T>, (proxy, context, event), result) ==> {
                &&& result is Ok <==> !(*context).proxy.closed
                &&& result is Ok ==> (*final(context)).proxy.sent@ == (*context).proxy.sent@.push(
                    Message::UserEvent(event),
                )
                &&& result matches Err(error) ==> {
                    &&& error == Error::EventLoopClosed
                    &&& (*final(context))@ == (*context)@
                }
            },
        forall|handle: &mut WryHandle<T>| #[trigger]
            call_ensures(WryHandle::<T>::send_event, (handle, message), result) ==> {
                let (before, after) = ((*handle).context, (*final(handle)).context);
                &&& result is Ok <==> !before.proxy.closed
                &&& result is Ok ==> after.proxy.sent@ == before.proxy.sent@.push(message)
                &&& result matches Err(error) ==> {
                    &&& error == Error::FailedToSendMessage
                    &&& after@ == before@
                }
            },
{
}

/// A window that another thread asks for gets the next identifier, which no window after it
/// gets, and so does its webview, if it is to have one. The event loop is asked for it under
/// them.
pub proof fn lemma_windows_are_asked_for<T>(
    caller: Caller,
    label: String,
    webview: Option<bool>,
    task: TaskId,
    result: Result<(DetachedWindow, Vec<Effect>), Error>,
)
    ensures
        forall|context: &mut Context<T>|
            caller.thread != (*context).main_thread_id && #[trigger] call_ensures(
                Context::<T>::create_window,
                (context, caller, label, webview, task),
                result,
            ) ==> {
                let (before, after) = (*context, *final(context));
                let id = before.next_ids.window;
                let webview_id = before.next_ids.webview;
                &&& result is Ok <==> !before.proxy.closed
                &&& after@.next_ids.window != id
                &&& id < u32::MAX ==> after@.next_ids.window == id + 1
                &&& webview is None ==> after@.next_ids.webview == webview_id
                &&& webview is Some && webview_id < u32::MAX ==> after@.next_ids.webview
                    == webview_id + 1
                &&& result matches Err(error) ==> error == Error::FailedToSendMessage
                &&& result matches Ok((window, _)) ==> {
                    &&& window.id == id
                    &&& window.label@ == label@
                    &&& window.webview is Some <==> webview is Some
                    &&& webview is None ==> after.proxy.sent@ == before.proxy.sent@.push(
                        Message::CreateWindow(id, None, task),
                    )
                    &&& webview matches Some(use_https_scheme) ==> {
                        let detached = window.webview->Some_0;
                        &&& detached.use_https_scheme == use_https_scheme
                        &&& detached.webview.label@ == label@
                        &&& detached.webview.webview_id == webview_id
                        &&& after.proxy.sent@ == before.proxy.sent@.push(
                            Message::CreateWindow(id, Some(webview_id), task),
                        )
                    }
                }
            },
{
}

/// A webview that another thread asks for gets the next identifier, which no webview after it
/// gets, and is found in its window. The event loop is asked for it there.
pub proof fn lemma_webviews_are_asked_for<T>(
    caller: Caller,
    window_id: WindowId,
    label: String,
    task: TaskId,
    result: Result<(DetachedWebview, Vec<Effect>), Error>,
)
    ensures
        forall|context: &mut Context<T>|
            caller.thread != (*context).main_thread_id && #[trigger] call_ensures(
                Context::<T>::create_webview,
                (context, caller, window_id, label, task),
                result,
            ) ==> {
                let (before, after) = (*context, *final(context));
                let webview_id = before.next_ids.webview;
                &&& result is Ok <==> !before.proxy.closed
                &&& after@.next_ids.webview != webview_id
                &&& webview_id < u32::MAX ==> after@.next_ids.webview == webview_id + 1
                &&& after@.next_ids.window == before@.next_ids.window
                &&& result matches Err(error) ==> error == Error::FailedToSendMessage
                &&& result matches Ok((webview, _)) ==> {
                    &&& webview.label@ == label@
                    &&& webview.webview_id == webview_id
                    &&& after@.cells == before@.cells.push(window_id)
                    &&& after.proxy.sent@ == before.proxy.sent@.push(
                        Message::CreateWebview(window_id, webview_id, webview.window, task),
                    )
                }
            },
{
}

/// A dispatcher asks for windows, and for webviews in its window, as the threads of the
/// application do; and so does a handle.
pub proof fn lemma_dispatchers_ask_for_webviews<T>(
    dispatcher: &WryWindowDispatcher,
    caller: Caller,
    label: String,
    task: TaskId,
    result: Result<(DetachedWebview, Vec<Effect>), Error>,
)
    ensures
        forall|context: &mut Context<T>|
            caller.thread != (*context).main_thread_id && #[trigger] call_ensures(
                WryWindowDispatcher::create_webview::<T>,
                (dispatcher, context, caller, label, task),
                result,
            ) ==> {
                &&& result is Ok <==> !(*context).proxy.closed
                &&& result matches Ok((webview, _)) ==> {
                    &&& webview.label@ == label@
                    &&& webview.webview_id == (*context).next_ids.webview
                    &&& (*final(context)).proxy.sent@ == (*context).proxy.sent@.push(
                        Message::CreateWebview(
                            dispatcher.window_id,
                            webview.webview_id,
                            webview.window,
                            task,
                        ),
                    )
                }
            },
        forall|handle: &mut WryHandle<T>|
            caller.thread != (*handle).context.main_thread_id && #[trigger] call_ensures(
                WryHandle::<T>::create_webview,
                (handle, caller, dispatcher.window_id, label, task),
                result,
            ) ==> {
                &&& result is Ok <==> !(*handle).context.proxy.closed
                &&& result matches Ok((webview, _)) ==> {
                    &&& webview.label@ == label@
                    &&& webview.webview_id == (*handle).context.next_ids.webview
                    &&& (*final(handle)).context.proxy.sent@
                        == (*handle).context.proxy.sent@.push(
                        Message::CreateWebview(
                            dispatcher.window_id,
                            webview.webview_id,
                            webview.window,
                            task,
                        ),
                    )
                }
            },
{
}

/// A window without webviews is asked for under the next identifier, with its receiver.
pub proof fn lemma_raw_windows_are_asked_for<T>(
    caller: Caller,
    task: TaskId,
    reply: ReplyId,
    result: Result<(WindowId, Vec<Effect>), Error>,
)
    ensures
        forall|handle: &mut WryHandle<T>|
            caller.thread != (*handle).context.main_thread_id && #[trigger] call_ensures(
                WryHandle::<T>::create_tao_window,
                (handle, caller, task, reply),
                result,
            ) ==> {
                let (before, after) = ((*handle).context, (*final(handle)).context);
                &&& result is Ok <==> !before.proxy.closed
                &&& after@.next_ids.window != before.next_ids.window
                &&& result matches Ok((window_id, _)) ==> {
                    &&& window_id == before.next_ids.window
                    &&& after.proxy.sent@ == before.proxy.sent@.push(
                        Message::CreateRawWindow(window_id, task, reply),
                    )
                }
            },
{
}

} // verus!
