//! What the application asks of a webview.

use crate::browser_slot;
use crate::client::HandlerId;
use crate::runtime::color::Color;
use crate::runtime::context;
use crate::runtime::context::{
    send_and_forget, send_user_message, Caller, Context, ContextModel, NextIds,
};
use crate::runtime::conversions::Error;
use crate::runtime::cookies::WebCookie;
use crate::runtime::dpi::{Float64, Position, Rect, Size};
use crate::runtime::messages;
use crate::runtime::messages::{
    Effect, EffectModel, Message, ReplyId, ScriptTrace, TaskId, WebviewMessage, WindowReport,
};
use crate::runtime::platform::BuildOptions;
use crate::runtime::store;
use crate::runtime::store::{WebviewEventId, WebviewId, WindowCell, WindowId};
use crate::runtime::user_messages;
use vstd::prelude::*;

verus! {

/// Sends messages to a webview, in whatever window it is.
#[derive(Debug, Clone, Copy, PartialEq, Eq, Structural)]
pub struct WryWebviewDispatcher {
    /// Where the webview is found.
    pub window: WindowCell,
    pub webview_id: WebviewId,
}

/// What goes with a script to a webview.
pub open spec fn script_trace(options: BuildOptions, trace: ScriptTrace) -> Option<ScriptTrace> {
    if options.traces_scripts_spec() {
        Some(trace)
    } else {
        None
    }
}

/// What comes of a script that was sent to a webview. Where scripts are traced it fails if
/// nobody answered that it was run, as when the webview is gone.
pub fn script_answered(options: BuildOptions, answered: bool) -> (result: Result<(), Error>)
    ensures
        result == if options.traces_scripts_spec() && !answered {
            Err::<(), Error>(Error::FailedToReceiveMessage)
        } else {
            Ok::<(), Error>(())
        },
{
    if options.traces_scripts() && !answered {
        Err(Error::FailedToReceiveMessage)
    } else {
        Ok(())
    }
}

/// A script that is traced is answered if its webview is in an open window, and else not.
pub proof fn lemma_traced_scripts_are_answered<T>(
    context: ContextModel<T>,
    report: WindowReport,
    dispatcher: WryWebviewDispatcher,
    script: String,
    trace: ScriptTrace,
)
    requires
        context.options.traces_scripts_spec(),
    ensures
        ({
            let home = dispatcher.home(context);
            let message = Message::<T>::Webview(
                home,
                dispatcher.webview_id,
                WebviewMessage::EvaluateScript(script, script_trace(context.options, trace)),
            );
            let effects = user_messages::effects_of(
                context.options.platform,
                report,
                context.windows,
                context.browsers,
                message,
            );
            match user_messages::open_webview(context.windows, home, dispatcher.webview_id) {
                Some(webview) => {
                    let browser = webview.browser(context.browsers);
                    effects == seq![
                        EffectModel::TracedCalls {
                            trace,
                            browser,
                            calls: browser_slot::on_browser(
                                browser,
                                browser_slot::eval_steps(script@),
                                false,
                            ),
                        },
                    ]
                },
                None => effects.len() == 0,
            }
        }),
{
}

impl WryWebviewDispatcher {
    /// The window that the webview is in.
    pub open spec fn home<T>(&self, context: ContextModel<T>) -> WindowId {
        self.window.window(context.cells)
    }

    /// Runs work of the application on the main thread.
    pub fn run_on_main_thread<T>(
        &self,
        context: &mut Context<T>,
        caller: Caller,
        task: TaskId,
    ) -> (result: Result<Vec<Effect>, Error>)
        ensures
            (final(context)@, context::outcome(result)) == context::dispatched(
                old(context)@,
                caller,
                Message::Task(task),
            ),
    {
        send_user_message(context, caller, Message::Task(task))
    }

    /// Adds a listener for events of the webview, and gives its identifier. The event loop
    /// adds it, whatever the thread.
    pub fn on_webview_event<T>(&self, context: &mut Context<T>, handler: HandlerId) -> (id:
        WebviewEventId)
        ensures
            id == old(context)@.next_ids.webview_event,
            final(context)@ == context::posted(
                ContextModel {
                    next_ids: NextIds {
                        webview_event: context::successor(id),
                        ..old(context)@.next_ids
                    },
                    ..old(context)@
                },
                Message::Webview(
                    self.home(old(context)@),
                    self.webview_id,
                    WebviewMessage::AddEventListener(id, handler),
                ),
            ),
    {
        let home: WindowId = self.window.current(&context.window_cells);
        let id: WebviewEventId = context.next_webview_event_id();
        let _ = context.post(
            Message::Webview(
                home,
                self.webview_id,
                WebviewMessage::AddEventListener(id, handler),
            ),
        );
        id
    }

    /// Opens the developer tools.
    pub fn open_devtools<T>(
        &self,
        context: &mut Context<T>,
        caller: Caller,
    ) -> (effects: Vec<Effect>)
        ensures
            ({
                let message = Message::Webview(
                    self.home(old(context)@),
                    self.webview_id,
                    WebviewMessage::OpenDevTools,
                );
                let sent = context::dispatched(old(context)@, caller, message);
                &&& final(context)@ == sent.0
                &&& messages::models(effects@) == match sent.1 {
                    Ok(effects) => effects,
                    Err(_) => Seq::empty(),
                }
            }),
    {
        let home: WindowId = self.window.current(&context.window_cells);
        send_and_forget(
            context,
            caller,
            Message::Webview(home, self.webview_id, WebviewMessage::OpenDevTools),
        )
    }

    /// Closes the developer tools.
    pub fn close_devtools<T>(
        &self,
        context: &mut Context<T>,
        caller: Caller,
    ) -> (effects: Vec<Effect>)
        ensures
            ({
                let message = Message::Webview(
                    self.home(old(context)@),
                    self.webview_id,
                    WebviewMessage::CloseDevTools,
                );
                let sent = context::dispatched(old(context)@, caller, message);
                &&& final(context)@ == sent.0
                &&& messages::models(effects@) == match sent.1 {
                    Ok(effects) => effects,
                    Err(_) => Seq::empty(),
                }
            }),
    {
        let home: WindowId = self.window.current(&context.window_cells);
        send_and_forget(
            context,
            caller,
            Message::Webview(home, self.webview_id, WebviewMessage::CloseDevTools),
        )
    }

    /// Asks whether the developer tools are open.
    pub fn is_devtools_open<T>(
        &self,
        context: &mut Context<T>,
        caller: Caller,
        reply: ReplyId,
    ) -> (result: Result<Vec<Effect>, Error>)
        ensures
            (final(context)@, context::outcome(result)) == context::dispatched(
                old(context)@,
                caller,
                Message::Webview(
                    self.home(old(context)@),
                    self.webview_id,
                    WebviewMessage::IsDevToolsOpen(reply),
                ),
            ),
    {
        let home: WindowId = self.window.current(&context.window_cells);
        send_user_message(
            context,
            caller,
            Message::Webview(
                home,
                self.webview_id,
                WebviewMessage::IsDevToolsOpen(reply),
            ),
        )
    }

    /// Asks for the URL of the page.
    pub fn url<T>(
        &self,
        context: &mut Context<T>,
        caller: Caller,
        reply: ReplyId,
    ) -> (result: Result<Vec<Effect>, Error>)
        ensures
            (final(context)@, context::outcome(result)) == context::dispatched(
                old(context)@,
                caller,
                Message::Webview(
                    self.home(old(context)@),
                    self.webview_id,
                    WebviewMessage::Url(reply),
                ),
            ),
    {
        let home: WindowId = self.window.current(&context.window_cells);
        send_user_message(
            context,
            caller,
            Message::Webview(home, self.webview_id, WebviewMessage::Url(reply)),
        )
    }

    /// Asks for the bounds of the webview.
    pub fn bounds<T>(
        &self,
        context: &mut Context<T>,
        caller: Caller,
        reply: ReplyId,
    ) -> (result: Result<Vec<Effect>, Error>)
        ensures
            (final(context)@, context::outcome(result)) == context::dispatched(
                old(context)@,
                caller,
                Message::Webview(
                    self.home(old(context)@),
                    self.webview_id,
                    WebviewMessage::Bounds(reply),
                ),
            ),
    {
        let home: WindowId = self.window.current(&context.window_cells);
        send_user_message(
            context,
            caller,
            Message::Webview(home, self.webview_id, WebviewMessage::Bounds(reply)),
        )
    }

    /// Asks for the position of the webview.
    pub fn position<T>(
        &self,
        context: &mut Context<T>,
        caller: Caller,
        reply: ReplyId,
    ) -> (result: Result<Vec<Effect>, Error>)
        ensures
            (final(context)@, context::outcome(result)) == context::dispatched(
                old(context)@,
                caller,
                Message::Webview(
                    self.home(old(context)@),
                    self.webview_id,
                    WebviewMessage::Position(reply),
                ),
            ),
    {
        let home: WindowId = self.window.current(&context.window_cells);
        send_user_message(
            context,
            caller,
            Message::Webview(home, self.webview_id, WebviewMessage::Position(reply)),
        )
    }

    /// Asks for the size of the webview.
    pub fn size<T>(
        &self,
        context: &mut Context<T>,
        caller: Caller,
        reply: ReplyId,
    ) -> (result: Result<Vec<Effect>, Error>)
        ensures
            (final(context)@, context::outcome(result)) == context::dispatched(
                old(context)@,
                caller,
                Message::Webview(
                    self.home(old(context)@),
                    self.webview_id,
                    WebviewMessage::Size(reply),
                ),
            ),
    {
        let home: WindowId = self.window.current(&context.window_cells);
        send_user_message(
            context,
            caller,
            Message::Webview(home, self.webview_id, WebviewMessage::Size(reply)),
        )
    }

    /// Loads a page.
    pub fn navigate<T>(
        &self,
        context: &mut Context<T>,
        caller: Caller,
        url: String,
    ) -> (result: Result<Vec<Effect>, Error>)
        ensures
            (final(context)@, context::outcome(result)) == context::dispatched(
                old(context)@,
                caller,
                Message::Webview(
                    self.home(old(context)@),
                    self.webview_id,
                    WebviewMessage::Navigate(url),
                ),
            ),
    {
        let home: WindowId = self.window.current(&context.window_cells);
        send_user_message(
            context,
            caller,
            Message::Webview(home, self.webview_id, WebviewMessage::Navigate(url)),
        )
    }

    /// Loads the page again.
    pub fn reload<T>(
        &self,
        context: &mut Context<T>,
        caller: Caller,
    ) -> (result: Result<Vec<Effect>, Error>)
        ensures
            (final(context)@, context::outcome(result)) == context::dispatched(
                old(context)@,
                caller,
                Message::Webview(self.home(old(context)@), self.webview_id, WebviewMessage::Reload),
            ),
    {
        let home: WindowId = self.window.current(&context.window_cells);
        send_user_message(
            context,
            caller,
            Message::Webview(home, self.webview_id, WebviewMessage::Reload),
        )
    }

    /// Prints the page.
    pub fn print<T>(
        &self,
        context: &mut Context<T>,
        caller: Caller,
    ) -> (result: Result<Vec<Effect>, Error>)
        ensures
            (final(context)@, context::outcome(result)) == context::dispatched(
                old(context)@,
                caller,
                Message::Webview(self.home(old(context)@), self.webview_id, WebviewMessage::Print),
            ),
    {
        let home: WindowId = self.window.current(&context.window_cells);
        send_user_message(
            context,
            caller,
            Message::Webview(home, self.webview_id, WebviewMessage::Print),
        )
    }

    /// Closes the webview.
    pub fn close<T>(
        &self,
        context: &mut Context<T>,
        caller: Caller,
    ) -> (result: Result<Vec<Effect>, Error>)
        ensures
            (final(context)@, context::outcome(result)) == context::dispatched(
                old(context)@,
                caller,
                Message::Webview(self.home(old(context)@), self.webview_id, WebviewMessage::Close),
            ),
    {
        let home: WindowId = self.window.current(&context.window_cells);
        send_user_message(
            context,
            caller,
            Message::Webview(home, self.webview_id, WebviewMessage::Close),
        )
    }

    /// Moves and resizes the webview.
    pub fn set_bounds<T>(
        &self,
        context: &mut Context<T>,
        caller: Caller,
        bounds: Rect,
    ) -> (result: Result<Vec<Effect>, Error>)
        ensures
            (final(context)@, context::outcome(result)) == context::dispatched(
                old(context)@,
                caller,
                Message::Webview(
                    self.home(old(context)@),
                    self.webview_id,
                    WebviewMessage::SetBounds(bounds),
                ),
            ),
    {
        let home: WindowId = self.window.current(&context.window_cells);
        send_user_message(
            context,
            caller,
            Message::Webview(home, self.webview_id, WebviewMessage::SetBounds(bounds)),
        )
    }

    /// Resizes the webview.
    pub fn set_size<T>(
        &self,
        context: &mut Context<T>,
        caller: Caller,
        size: Size,
    ) -> (result: Result<Vec<Effect>, Error>)
        ensures
            (final(context)@, context::outcome(result)) == context::dispatched(
                old(context)@,
                caller,
                Message::Webview(
                    self.home(old(context)@),
                    self.webview_id,
                    WebviewMessage::SetSize(size),
                ),
            ),
    {
        let home: WindowId = self.window.current(&context.window_cells);
        send_user_message(
            context,
            caller,
            Message::Webview(home, self.webview_id, WebviewMessage::SetSize(size)),
        )
    }

    /// Moves the webview.
    pub fn set_position<T>(
        &self,
        context: &mut Context<T>,
        caller: Caller,
        position: Position,
    ) -> (result: Result<Vec<Effect>, Error>)
        ensures
            (final(context)@, context::outcome(result)) == context::dispatched(
                old(context)@,
                caller,
                Message::Webview(
                    self.home(old(context)@),
                    self.webview_id,
                    WebviewMessage::SetPosition(position),
                ),
            ),
    {
        let home: WindowId = self.window.current(&context.window_cells);
        send_user_message(
            context,
            caller,
            Message::Webview(
                home,
                self.webview_id,
                WebviewMessage::SetPosition(position),
            ),
        )
    }

    /// Gives the webview the focus.
    pub fn set_focus<T>(
        &self,
        context: &mut Context<T>,
        caller: Caller,
    ) -> (result: Result<Vec<Effect>, Error>)
        ensures
            (final(context)@, context::outcome(result)) == context::dispatched(
                old(context)@,
                caller,
                Message::Webview(
                    self.home(old(context)@),
                    self.webview_id,
                    WebviewMessage::SetFocus,
                ),
            ),
    {
        let home: WindowId = self.window.current(&context.window_cells);
        send_user_message(
            context,
            caller,
            Message::Webview(home, self.webview_id, WebviewMessage::SetFocus),
        )
    }

    /// Moves the webview to another window.
    pub fn reparent<T>(
        &self,
        context: &mut Context<T>,
        caller: Caller,
        window_id: WindowId,
        reply: ReplyId,
    ) -> (result: Result<Vec<Effect>, Error>)
        ensures
            (final(context)@, context::outcome(result)) == context::dispatched(
                old(context)@,
                caller,
                Message::Webview(
                    self.home(old(context)@),
                    self.webview_id,
                    WebviewMessage::Reparent(window_id, reply),
                ),
            ),
    {
        let home: WindowId = self.window.current(&context.window_cells);
        send_user_message(
            context,
            caller,
            Message::Webview(
                home,
                self.webview_id,
                WebviewMessage::Reparent(window_id, reply),
            ),
        )
    }

    /// Asks for the cookies that a URL gets.
    pub fn cookies_for_url<T>(
        &self,
        context: &mut Context<T>,
        caller: Caller,
        url: String,
        reply: ReplyId,
    ) -> (result: Result<Vec<Effect>, Error>)
        ensures
            (final(context)@, context::outcome(result)) == context::dispatched(
                old(context)@,
                caller,
                Message::Webview(
                    self.home(old(context)@),
                    self.webview_id,
                    WebviewMessage::CookiesForUrl(url, reply),
                ),
            ),
    {
        let home: WindowId = self.window.current(&context.window_cells);
        send_user_message(
            context,
            caller,
            Message::Webview(
                home,
                self.webview_id,
                WebviewMessage::CookiesForUrl(url, reply),
            ),
        )
    }

    /// Asks for all cookies.
    pub fn cookies<T>(
        &self,
        context: &mut Context<T>,
        caller: Caller,
        reply: ReplyId,
    ) -> (result: Result<Vec<Effect>, Error>)
        ensures
            (final(context)@, context::outcome(result)) == context::dispatched(
                old(context)@,
                caller,
                Message::Webview(
                    self.home(old(context)@),
                    self.webview_id,
                    WebviewMessage::Cookies(reply),
                ),
            ),
    {
        let home: WindowId = self.window.current(&context.window_cells);
        send_user_message(
            context,
            caller,
            Message::Webview(home, self.webview_id, WebviewMessage::Cookies(reply)),
        )
    }

    /// Stores a cookie.
    pub fn set_cookie<T>(
        &self,
        context: &mut Context<T>,
        caller: Caller,
        cookie: WebCookie,
    ) -> (result: Result<Vec<Effect>, Error>)
        ensures
            (final(context)@, context::outcome(result)) == context::dispatched(
                old(context)@,
                caller,
                Message::Webview(
                    self.home(old(context)@),
                    self.webview_id,
                    WebviewMessage::SetCookie(cookie),
                ),
            ),
    {
        let home: WindowId = self.window.current(&context.window_cells);
        send_user_message(
            context,
            caller,
            Message::Webview(home, self.webview_id, WebviewMessage::SetCookie(cookie)),
        )
    }

    /// Deletes a cookie.
    pub fn delete_cookie<T>(
        &self,
        context: &mut Context<T>,
        caller: Caller,
        cookie: WebCookie,
    ) -> (result: Result<Vec<Effect>, Error>)
        ensures
            (final(context)@, context::outcome(result)) == context::dispatched(
                old(context)@,
                caller,
                Message::Webview(
                    self.home(old(context)@),
                    self.webview_id,
                    WebviewMessage::DeleteCookie(cookie),
                ),
            ),
    {
        let home: WindowId = self.window.current(&context.window_cells);
        send_user_message(
            context,
            caller,
            Message::Webview(
                home,
                self.webview_id,
                WebviewMessage::DeleteCookie(cookie),
            ),
        )
    }

    /// Lets the webview grow with its window or not.
    pub fn set_auto_resize<T>(
        &self,
        context: &mut Context<T>,
        caller: Caller,
        auto_resize: bool,
    ) -> (result: Result<Vec<Effect>, Error>)
        ensures
            (final(context)@, context::outcome(result)) == context::dispatched(
                old(context)@,
                caller,
                Message::Webview(
                    self.home(old(context)@),
                    self.webview_id,
                    WebviewMessage::SetAutoResize(auto_resize),
                ),
            ),
    {
        let home: WindowId = self.window.current(&context.window_cells);
        send_user_message(
            context,
            caller,
            Message::Webview(
                home,
                self.webview_id,
                WebviewMessage::SetAutoResize(auto_resize),
            ),
        )
    }

    /// Runs a script in the page. Where scripts are traced, `trace` says in which span it is
    /// run and who waits for that; `script_answered` takes the answer.
    pub fn eval_script<T>(
        &self,
        context: &mut Context<T>,
        caller: Caller,
        script: String,
        trace: ScriptTrace,
    ) -> (result: Result<Vec<Effect>, Error>)
        ensures
            (final(context)@, context::outcome(result)) == context::dispatched(
                old(context)@,
                caller,
                Message::Webview(
                    self.home(old(context)@),
                    self.webview_id,
                    WebviewMessage::EvaluateScript(
                        script,
                        script_trace(old(context)@.options, trace),
                    ),
                ),
            ),
    {
        let home: WindowId = self.window.current(&context.window_cells);
        let trace = if context.options.traces_scripts() {
            Some(trace)
        } else {
            None
        };
        send_user_message(
            context,
            caller,
            Message::Webview(
                home,
                self.webview_id,
                WebviewMessage::EvaluateScript(script, trace),
            ),
        )
    }

    /// Zooms the page.
    pub fn set_zoom<T>(
        &self,
        context: &mut Context<T>,
        caller: Caller,
        scale_factor: Float64,
    ) -> (result: Result<Vec<Effect>, Error>)
        ensures
            (final(context)@, context::outcome(result)) == context::dispatched(
                old(context)@,
                caller,
                Message::Webview(
                    self.home(old(context)@),
                    self.webview_id,
                    WebviewMessage::SetZoom(scale_factor),
                ),
            ),
    {
        let home: WindowId = self.window.current(&context.window_cells);
        send_user_message(
            context,
            caller,
            Message::Webview(
                home,
                self.webview_id,
                WebviewMessage::SetZoom(scale_factor),
            ),
        )
    }

    /// Forgets what pages have stored.
    pub fn clear_all_browsing_data<T>(
        &self,
        context: &mut Context<T>,
        caller: Caller,
    ) -> (result: Result<Vec<Effect>, Error>)
        ensures
            (final(context)@, context::outcome(result)) == context::dispatched(
                old(context)@,
                caller,
                Message::Webview(
                    self.home(old(context)@),
                    self.webview_id,
                    WebviewMessage::ClearAllBrowsingData,
                ),
            ),
    {
        let home: WindowId = self.window.current(&context.window_cells);
        send_user_message(
            context,
            caller,
            Message::Webview(
                home,
                self.webview_id,
                WebviewMessage::ClearAllBrowsingData,
            ),
        )
    }

    /// Hides the webview.
    pub fn hide_webview<T>(
        &self,
        context: &mut Context<T>,
        caller: Caller,
    ) -> (result: Result<Vec<Effect>, Error>)
        ensures
            (final(context)@, context::outcome(result)) == context::dispatched(
                old(context)@,
                caller,
                Message::Webview(self.home(old(context)@), self.webview_id, WebviewMessage::Hide),
            ),
    {
        let home: WindowId = self.window.current(&context.window_cells);
        send_user_message(
            context,
            caller,
            Message::Webview(home, self.webview_id, WebviewMessage::Hide),
        )
    }

    /// Shows the webview.
    pub fn show<T>(
        &self,
        context: &mut Context<T>,
        caller: Caller,
    ) -> (result: Result<Vec<Effect>, Error>)
        ensures
            (final(context)@, context::outcome(result)) == context::dispatched(
                old(context)@,
                caller,
                Message::Webview(self.home(old(context)@), self.webview_id, WebviewMessage::Show),
            ),
    {
        let home: WindowId = self.window.current(&context.window_cells);
        send_user_message(
            context,
            caller,
            Message::Webview(home, self.webview_id, WebviewMessage::Show),
        )
    }

    /// Gives the webview a background color.
    pub fn set_background_color<T>(
        &self,
        context: &mut Context<T>,
        caller: Caller,
        color: Option<Color>,
    ) -> (result: Result<Vec<Effect>, Error>)
        ensures
            (final(context)@, context::outcome(result)) == context::dispatched(
                old(context)@,
                caller,
                Message::Webview(
                    self.home(old(context)@),
                    self.webview_id,
                    WebviewMessage::SetBackgroundColor(color),
                ),
            ),
    {
        let home: WindowId = self.window.current(&context.window_cells);
        send_user_message(
            context,
            caller,
            Message::Webview(
                home,
                self.webview_id,
                WebviewMessage::SetBackgroundColor(color),
            ),
        )
    }

    /// Hands the browser of the webview to work of the application.
    pub fn with_webview<T>(
        &self,
        context: &mut Context<T>,
        caller: Caller,
        task: TaskId,
    ) -> (result: Result<Vec<Effect>, Error>)
        requires
            context::can_send(
                old(context)@,
                caller,
                Message::Webview(
                    self.home(old(context)@),
                    self.webview_id,
                    WebviewMessage::WithWebview(task),
                ),
            ),
        ensures
            (final(context)@, context::outcome(result)) == context::dispatched(
                old(context)@,
                caller,
                Message::Webview(
                    self.home(old(context)@),
                    self.webview_id,
                    WebviewMessage::WithWebview(task),
                ),
            ),
    {
        let home: WindowId = self.window.current(&context.window_cells);
        send_user_message(
            context,
            caller,
            Message::Webview(home, self.webview_id, WebviewMessage::WithWebview(task)),
        )
    }

    /// Takes the answer whether the webview moved to another window. If it did, messages to
    /// it go there from now on, from this dispatcher and from all that share its cell.
    pub fn reparented<T>(
        &self,
        context: &mut Context<T>,
        window_id: WindowId,
        answer: Result<(), Error>,
    ) -> (result: Result<(), Error>)
        ensures
            result == answer,
            final(context)@ == if answer is Ok {
                ContextModel {
                    cells: store::with_cell(old(context)@.cells, self.window, window_id),
                    ..old(context)@
                }
            } else {
                old(context)@
            },
    {
        if answer.is_ok() {
            self.window.set(&mut context.window_cells, window_id);
        }
        answer
    }
}

/// The dispatchers that share the cell of one that moved its webview find it where it moved
/// to, whenever they were made, and all others find theirs where it was.
pub proof fn lemma_dispatchers_follow_their_webview<T>(
    context: ContextModel<T>,
    mover: WryWebviewDispatcher,
    dispatcher: WryWebviewDispatcher,
    other: WryWebviewDispatcher,
    window_id: WindowId,
)
    requires
        mover.window.is_among(context.cells),
        dispatcher.window.id == mover.window.id,
        other.window.id != mover.window.id,
    ensures
        ({
            let moved = ContextModel {
                cells: store::with_cell(context.cells, mover.window, window_id),
                ..context
            };
            &&& dispatcher.home(moved) == window_id
            &&& other.home(moved) == other.home(context)
        }),
{
}

/// The dispatcher that an application gets with a window, and the page of the webview of
/// that window, are told of moves apart: the page stays with the window that it began in.
pub proof fn lemma_first_webviews_are_found_apart<T>(
    context: ContextModel<T>,
    between: ContextModel<T>,
    window_id: WindowId,
)
    requires
        context.cells.len() < between.cells.len() <= usize::MAX,
        context.cells.push(context.next_ids.window).is_prefix_of(between.cells),
    ensures
        ({
            let begun_in = context.next_ids.window;
            let of_dispatcher = store::new_cell(context.cells, begun_in);
            let of_page = store::new_cell(between.cells, begun_in);
            let cells = between.cells.push(begun_in);
            let moved = store::with_cell(cells, of_dispatcher, window_id);
            &&& context::window_drawn(context, true).cells == context.cells.push(begun_in)
            &&& of_dispatcher.window(cells) == begun_in
            &&& of_dispatcher.window(moved) == window_id
            &&& of_page.window(moved) == begun_in
        }),
{
    let drawn = context.cells.push(context.next_ids.window);
    assert(drawn[context.cells.len() as int] == between.cells[context.cells.len() as int]);
}

/// A script that is traced fails if nobody answered that it was run; any other does not. Messages
/// to a webview that moved go to its new window.
pub proof fn lemma_answers_to_dispatchers<T>(
    options: BuildOptions,
    answered: bool,
    result: Result<(), Error>,
    dispatcher: &WryWebviewDispatcher,
    window_id: WindowId,
    answer: Result<(), Error>,
    moved: Result<(), Error>,
)
    requires
        call_ensures(script_answered, (options, answered), result),
    ensures
        result is Err <==> options.traces_scripts_spec() && !answered,
        result matches Err(error) ==> error == Error::FailedToReceiveMessage,
        forall|context: &mut Context<T>|
            dispatcher.window.id < (*context)@.cells.len() && #[trigger] call_ensures(
                WryWebviewDispatcher::reparented::<T>,
                (dispatcher, context, window_id, answer),
                moved,
            ) ==> {
                &&& moved == answer
                &&& answer is Ok ==> dispatcher.window.window((*final(context))@.cells)
                    == window_id
                &&& answer is Err ==> (*final(context))@ == (*context)@
            },
{
}

} // verus!
