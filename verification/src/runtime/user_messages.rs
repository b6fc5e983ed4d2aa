//! What the event loop does about the messages that reach it.

use crate::browser_slot;
use crate::browser_slot::BrowserSlots;
use crate::cef_calls::{CallOf, CallSequence, SequenceState};
use crate::runtime::color::Color;
use crate::runtime::conversions;
use crate::runtime::conversions::{
    tao_activation_policy, to_tao_theme, DeviceEventFilter, DeviceEventFilterWrapper, Error,
};
use crate::runtime::cookies;
use crate::runtime::cookies::CookieQuery;
use crate::runtime::dpi::Rect;
use crate::runtime::messages;
use crate::runtime::messages::{
    Action, ApplicationMessage, CookieTask, Effect, EffectModel, EventLoopWindowTargetMessage,
    Message, RateUpdate, WebviewMessage, WindowMessage, WindowReport,
};
use crate::runtime::platform::Platform;
use crate::runtime::store;
use crate::runtime::store::{
    TaoWindowId, WebviewId, WebviewModel, WebviewWrapper, WindowId, WindowModel, WindowsStore,
};
use crate::runtime::webview;
use crate::runtime::window_messages;
use vstd::prelude::*;

verus! {

/// The color of a webview that was given none.
pub open spec fn white() -> Color {
    Color { r: 255, g: 255, b: 255, a: 255 }
}

/// A window that is open, as the window system knows it.
pub open spec fn open_window(windows: Map<WindowId, WindowModel>, id: WindowId) -> Option<
    TaoWindowId,
> {
    if windows.contains_key(id) {
        windows[id].inner
    } else {
        None
    }
}

/// A webview in a window that is open.
pub open spec fn open_webview(
    windows: Map<WindowId, WindowModel>,
    id: WindowId,
    webview_id: WebviewId,
) -> Option<WebviewModel> {
    if open_window(windows, id) is Some {
        store::find_webview(windows[id].webviews, webview_id)
    } else {
        None
    }
}

/// The event loop can handle a message by itself. A request to exit, and a request
/// to close or destroy a window that is open, take the callback of the application;
/// and a webview cannot be handed out before it has a browser.
pub open spec fn is_handled<T>(
    windows: Map<WindowId, WindowModel>,
    browsers: Seq<Option<i32>>,
    message: Message<T>,
) -> bool {
    match message {
        Message::RequestExit(_) => false,
        Message::Window(id, WindowMessage::Close) => open_window(windows, id) is None,
        Message::Window(id, WindowMessage::Destroy) => open_window(windows, id) is None,
        Message::Webview(id, webview_id, WebviewMessage::WithWebview(_)) => open_webview(
            windows,
            id,
            webview_id,
        ) matches Some(webview) ==> webview.browser(browsers) is Some,
        _ => true,
    }
}

/// The windows after a webview moved from one to another. It is lost if the other
/// does not exist.
pub open spec fn reparented(
    windows: Map<WindowId, WindowModel>,
    id: WindowId,
    webview_id: WebviewId,
    new_parent: WindowId,
) -> Map<WindowId, WindowModel> {
    match store::webview_in(windows, id, webview_id) {
        Some(webview) => {
            let taken = windows.insert(id, store::without_webview(windows[id], webview_id));
            store::with_window(
                taken,
                new_parent,
                WindowModel {
                    webviews: taken[new_parent].webviews.push(webview),
                    ..taken[new_parent]
                },
            )
        },
        None => windows,
    }
}

/// The windows after a message to a webview in a window that is open.
pub open spec fn windows_after_webview_message(
    windows: Map<WindowId, WindowModel>,
    id: WindowId,
    webview_id: WebviewId,
    webview: WebviewModel,
    message: WebviewMessage,
) -> Map<WindowId, WindowModel> {
    match message {
        WebviewMessage::AddEventListener(listener, handler) => store::with_changed_webview(
            windows,
            id,
            webview_id,
            WebviewModel {
                listeners: store::with_listener(webview.listeners, listener, handler),
                ..webview
            },
        ),
        WebviewMessage::Close => windows.insert(id, store::without_webview(windows[id], webview_id)),
        WebviewMessage::SetBackgroundColor(color) => store::with_changed_webview(
            windows,
            id,
            webview_id,
            WebviewModel {
                background_color: match color {
                    Some(color) => color,
                    None => white(),
                },
                ..webview
            },
        ),
        WebviewMessage::SetAutoResize(false) => store::with_changed_webview(
            windows,
            id,
            webview_id,
            WebviewModel { bounds: None, ..webview },
        ),
        _ => windows,
    }
}

/// The windows after a message.
pub open spec fn windows_after<T>(
    platform: Platform,
    windows: Map<WindowId, WindowModel>,
    message: Message<T>,
) -> Map<WindowId, WindowModel> {
    match message {
        Message::Window(id, WindowMessage::AddEventListener(listener, handler)) => if open_window(
            windows,
            id,
        ) is Some {
            windows.insert(
                id,
                WindowModel {
                    listeners: store::with_listener(windows[id].listeners, listener, handler),
                    ..windows[id]
                },
            )
        } else {
            windows
        },
        Message::Webview(id, webview_id, message) => match message {
            WebviewMessage::Reparent(new_parent, _) => if platform.is_desktop_spec() {
                reparented(windows, id, webview_id, new_parent)
            } else {
                windows
            },
            _ => match open_webview(windows, id, webview_id) {
                Some(webview) => windows_after_webview_message(
                    windows,
                    id,
                    webview_id,
                    webview,
                    message,
                ),
                None => windows,
            },
        },
        _ => windows,
    }
}

/// Which shares of its window a webview gets anew, if it grows with the window.
pub open spec fn rates_if_growing(webview: WebviewModel, update: RateUpdate) -> RateUpdate {
    if webview.bounds is Some {
        update
    } else {
        RateUpdate::Keep
    }
}

/// The calls that a message makes on the browser of a webview, if it makes any.
pub open spec fn calls_for(browser: Option<i32>, message: WebviewMessage) -> Option<SequenceState> {
    match message {
        WebviewMessage::EvaluateScript(script, _) => Some(
            browser_slot::on_browser(browser, browser_slot::eval_steps(script@), false),
        ),
        WebviewMessage::Navigate(url) => Some(
            browser_slot::on_browser(browser, browser_slot::load_url_steps(url@), false),
        ),
        WebviewMessage::Reload => Some(
            browser_slot::on_browser(browser, browser_slot::reload_steps(false), false),
        ),
        WebviewMessage::Show => Some(webview::host_calls(browser, CallOf::WasHidden(0))),
        WebviewMessage::Hide => Some(webview::host_calls(browser, CallOf::WasHidden(1))),
        WebviewMessage::Print => Some(webview::host_calls(browser, CallOf::Print)),
        WebviewMessage::SetFocus => Some(webview::host_calls(browser, CallOf::SetFocus(1))),
        WebviewMessage::SetBackgroundColor(color) => Some(
            webview::background_calls(
                browser,
                match color {
                    Some(color) => color,
                    None => white(),
                },
            ),
        ),
        WebviewMessage::OpenDevTools => Some(
            webview::host_calls_if_any(browser, CallOf::ShowDevTools),
        ),
        WebviewMessage::CloseDevTools => Some(
            webview::host_calls_if_any(browser, CallOf::CloseDevTools),
        ),
        _ => None,
    }
}

/// What is done about a message to a webview that makes no calls by itself.
pub open spec fn action_for(
    window: TaoWindowId,
    window_id: WindowId,
    browsers: Seq<Option<i32>>,
    webview: WebviewModel,
    message: WebviewMessage,
) -> Option<Action> {
    let webview_id = webview.id;
    let browser = webview.browser(browsers);
    match message {
        WebviewMessage::SetBounds(bounds) => Some(
            Action::SetBounds {
                window,
                window_id,
                webview_id,
                bounds,
                rates: rates_if_growing(webview, RateUpdate::PositionAndSize),
            },
        ),
        WebviewMessage::SetSize(size) => Some(
            Action::SetBounds {
                window,
                window_id,
                webview_id,
                bounds: Rect { size, ..webview.rect },
                rates: rates_if_growing(webview, RateUpdate::SizeOnly),
            },
        ),
        WebviewMessage::SetPosition(position) => Some(
            Action::SetBounds {
                window,
                window_id,
                webview_id,
                bounds: Rect { position, ..webview.rect },
                rates: rates_if_growing(webview, RateUpdate::PositionOnly),
            },
        ),
        WebviewMessage::SetZoom(factor) => Some(Action::Zoom { window_id, webview_id, factor }),
        WebviewMessage::ClearAllBrowsingData => Some(
            Action::ClearBrowsingData { browser, step: cookies::clear_begin(browser) },
        ),
        WebviewMessage::Url(reply) => Some(
            Action::ReplyUrl { reply, window_id, webview_id, browser },
        ),
        WebviewMessage::Cookies(reply) => Some(
            Action::Cookies {
                browser,
                search: cookies::search_begin(browser),
                task: CookieTask::Collect(CookieQuery::All, reply),
            },
        ),
        WebviewMessage::CookiesForUrl(url, reply) => Some(
            Action::Cookies {
                browser,
                search: cookies::search_begin(browser),
                task: CookieTask::Collect(CookieQuery::ForUrl(url), reply),
            },
        ),
        WebviewMessage::SetCookie(cookie) => Some(
            Action::Cookies {
                browser,
                search: cookies::search_begin(browser),
                task: CookieTask::Store(cookie),
            },
        ),
        WebviewMessage::DeleteCookie(cookie) => Some(
            Action::Cookies {
                browser,
                search: cookies::search_begin(browser),
                task: CookieTask::Delete(cookie),
            },
        ),
        WebviewMessage::Bounds(reply) => Some(Action::ReplyRect(reply, webview.rect)),
        WebviewMessage::Position(reply) => Some(
            Action::ReplyPosition { reply, window, position: webview.rect.position },
        ),
        WebviewMessage::Size(reply) => Some(
            Action::ReplySize { reply, window, size: webview.rect.size },
        ),
        WebviewMessage::SetAutoResize(true) => Some(
            Action::ComputeRates { window, window_id, webview_id, rect: webview.rect },
        ),
        WebviewMessage::WithWebview(task) => Some(
            Action::WithWebview { task, browser: browser->Some_0 },
        ),
        _ => None,
    }
}

/// What the event loop does about a message to a webview in a window that is open.
pub open spec fn webview_effects(
    window: TaoWindowId,
    window_id: WindowId,
    browsers: Seq<Option<i32>>,
    webview: WebviewModel,
    message: WebviewMessage,
) -> Seq<EffectModel> {
    match message {
        WebviewMessage::IsDevToolsOpen(reply) => seq![
            EffectModel::ReplyOutcome {
                reply,
                browser: webview.browser(browsers),
                calls: browser_slot::on_browser(
                    webview.browser(browsers),
                    webview::devtools_query_steps(),
                    false,
                ),
            },
        ],
        _ => match calls_for(webview.browser(browsers), message) {
            Some(calls) => seq![
                match message {
                    WebviewMessage::EvaluateScript(_, Some(trace)) => EffectModel::TracedCalls {
                        trace,
                        browser: webview.browser(browsers),
                        calls,
                    },
                    _ => EffectModel::Calls { browser: webview.browser(browsers), calls },
                },
            ],
            None => match action_for(window, window_id, browsers, webview, message) {
                Some(action) => seq![EffectModel::Do(action)],
                None => Seq::empty(),
            },
        },
    }
}

/// The answer to whoever asked for a webview to move to another window.
pub open spec fn reparent_result(
    windows: Map<WindowId, WindowModel>,
    id: WindowId,
    webview_id: WebviewId,
    new_parent: WindowId,
) -> Result<(), Error> {
    if store::webview_in(windows, id, webview_id) is Some && windows.contains_key(new_parent) {
        Ok(())
    } else {
        Err(Error::FailedToSendMessage)
    }
}

/// The size of the content of a window is that of its only webview.
pub open spec fn is_sized_by_webview(platform: Platform, window: WindowModel) -> bool {
    platform == Platform::MacOs && !window.has_children && window.webviews.len() > 0
}

/// What the event loop does about a message.
pub open spec fn effects_of<T>(
    platform: Platform,
    report: WindowReport,
    windows: Map<WindowId, WindowModel>,
    browsers: Seq<Option<i32>>,
    message: Message<T>,
) -> Seq<EffectModel> {
    match message {
        Message::Task(task) => seq![EffectModel::Do(Action::RunTask(task))],
        Message::SetActivationPolicy(policy) => seq![
            EffectModel::Do(Action::SetActivationPolicy(conversions::activation_policy(policy))),
        ],
        Message::SetDockVisibility(visible) => seq![
            EffectModel::Do(Action::SetDockVisibility(visible)),
        ],
        Message::RequestExit(_) => Seq::empty(),
        Message::Application(message) => match message {
            ApplicationMessage::Show => seq![EffectModel::Do(Action::ShowApplication)],
            ApplicationMessage::Hide => seq![EffectModel::Do(Action::HideApplication)],
            ApplicationMessage::FetchDataStoreIdentifiers(task) => seq![
                EffectModel::Do(Action::FetchDataStoreIdentifiers(task)),
            ],
            ApplicationMessage::RemoveDataStore(store, task) => seq![
                EffectModel::Do(Action::RemoveDataStore(store, task)),
            ],
        },
        Message::Window(id, message) => match open_window(windows, id) {
            Some(window) => window_messages::window_effects(
                platform,
                report,
                window,
                is_sized_by_webview(platform, windows[id]),
                message,
            ),
            None => Seq::empty(),
        },
        Message::Webview(id, webview_id, message) => match message {
            WebviewMessage::Reparent(new_parent, reply) => if platform.is_desktop_spec() {
                seq![
                    EffectModel::Do(
                        Action::ReplyResult(
                            reply,
                            reparent_result(windows, id, webview_id, new_parent),
                        ),
                    ),
                ]
            } else {
                Seq::empty()
            },
            _ => match open_webview(windows, id, webview_id) {
                Some(webview) => webview_effects(
                    open_window(windows, id)->Some_0,
                    id,
                    browsers,
                    webview,
                    message,
                ),
                None => Seq::empty(),
            },
        },
        Message::EventLoopWindowTarget(message) => match message {
            EventLoopWindowTargetMessage::CursorPosition(reply) => seq![
                EffectModel::Do(Action::ReplyCursorPosition(reply)),
            ],
            EventLoopWindowTargetMessage::SetTheme(theme) => seq![
                EffectModel::Do(Action::SetTheme(conversions::tao_theme(theme))),
            ],
            EventLoopWindowTargetMessage::SetDeviceEventFilter(filter) => seq![
                EffectModel::Do(
                    Action::SetDeviceEventFilter(
                        <DeviceEventFilterWrapper as vstd::std_specs::convert::FromSpec<
                            DeviceEventFilter,
                        >>::from_spec(filter).0,
                    ),
                ),
            ],
        },
        Message::CreateWebview(id, webview_id, cell, task) => match open_window(windows, id) {
            Some(window) => seq![
                EffectModel::Do(
                    Action::CreateWebview { window, window_id: id, webview_id, cell, task },
                ),
            ],
            None => Seq::empty(),
        },
        Message::CreateWindow(window_id, webview_id, task) => seq![
            EffectModel::Do(Action::CreateWindow { window_id, webview_id, task }),
        ],
        Message::CreateRawWindow(window_id, task, reply) => seq![
            EffectModel::Do(Action::BuildRawWindow { window_id, task, reply }),
        ],
        Message::UserEvent(_) => Seq::empty(),
    }
}

fn one(effect: Effect) -> (effects: Vec<Effect>)
    ensures
        messages::models(effects@) == seq![effect@],
{
    let effects: Vec<Effect> = vec![effect];
    assert(messages::models(effects@) =~= seq![effect@]);
    effects
}

fn none() -> (effects: Vec<Effect>)
    ensures
        messages::models(effects@) == Seq::<EffectModel>::empty(),
{
    let effects: Vec<Effect> = Vec::new();
    assert(messages::models(effects@) =~= Seq::empty());
    effects
}

/// The calls that a message makes on the browser of a webview, if it makes any.
fn calls_on(
    browsers: &BrowserSlots,
    webview: &WebviewWrapper,
    message: &WebviewMessage,
) -> (calls: Option<CallSequence>)
    ensures
        match calls {
            Some(calls) => calls_for(webview@.browser(browsers@), *message) == Some(calls@),
            None => calls_for(webview@.browser(browsers@), *message) is None,
        },
{
    match message {
        WebviewMessage::EvaluateScript(script, _) => Some(
            webview.evaluate_script(browsers, script.as_str()),
        ),
        WebviewMessage::Navigate(url) => Some(webview.load_url(browsers, url.as_str())),
        WebviewMessage::Reload => Some(webview.reload(browsers)),
        WebviewMessage::Show => Some(webview.set_visible(browsers, true)),
        WebviewMessage::Hide => Some(webview.set_visible(browsers, false)),
        WebviewMessage::Print => Some(webview.print(browsers)),
        WebviewMessage::SetFocus => Some(webview.focus(browsers)),
        WebviewMessage::SetBackgroundColor(color) => Some(
            webview::apply_background_color(
                browsers,
                &webview.browser_slot,
                color_or_white(*color),
            ),
        ),
        WebviewMessage::OpenDevTools => Some(webview.open_devtools(browsers)),
        WebviewMessage::CloseDevTools => Some(webview.close_devtools(browsers)),
        _ => None,
    }
}

fn color_or_white(color: Option<Color>) -> (result: Color)
    ensures
        result == match color {
            Some(color) => color,
            None => white(),
        },
{
    match color {
        Some(color) => color,
        None => Color { r: 255, g: 255, b: 255, a: 255 },
    }
}

fn rates_for(webview: &WebviewWrapper, update: RateUpdate) -> (rates: RateUpdate)
    ensures
        rates == rates_if_growing(webview@, update),
{
    if webview.bounds.is_some() {
        update
    } else {
        RateUpdate::Keep
    }
}

/// What is done about a message to a webview that makes no calls by itself.
fn action_on(
    window: TaoWindowId,
    window_id: WindowId,
    browsers: &BrowserSlots,
    webview: &WebviewWrapper,
    message: WebviewMessage,
) -> (action: Option<Action>)
    requires
        message is WithWebview ==> webview@.browser(browsers@) is Some,
    ensures
        action == action_for(window, window_id, browsers@, webview@, message),
{
    let webview_id: WebviewId = webview.id;
    let browser = webview.browser_slot.current(browsers);
    let search = cookies::get_cookie_manager(browsers, &webview.browser_slot);
    match message {
        WebviewMessage::SetBounds(bounds) => Some(
            Action::SetBounds {
                window,
                window_id,
                webview_id,
                bounds,
                rates: rates_for(webview, RateUpdate::PositionAndSize),
            },
        ),
        WebviewMessage::SetSize(size) => Some(
            Action::SetBounds {
                window,
                window_id,
                webview_id,
                bounds: Rect { position: webview.rect.position, size },
                rates: rates_for(webview, RateUpdate::SizeOnly),
            },
        ),
        WebviewMessage::SetPosition(position) => Some(
            Action::SetBounds {
                window,
                window_id,
                webview_id,
                bounds: Rect { position, size: webview.rect.size },
                rates: rates_for(webview, RateUpdate::PositionOnly),
            },
        ),
        WebviewMessage::SetZoom(factor) => Some(Action::Zoom { window_id, webview_id, factor }),
        WebviewMessage::ClearAllBrowsingData => Some(
            Action::ClearBrowsingData {
                browser,
                step: cookies::clear_all_browsing_data(browsers, &webview.browser_slot),
            },
        ),
        WebviewMessage::Url(reply) => Some(
            Action::ReplyUrl { reply, window_id, webview_id, browser },
        ),
        WebviewMessage::Cookies(reply) => Some(
            Action::Cookies {
                browser,
                search,
                task: CookieTask::Collect(CookieQuery::All, reply),
            },
        ),
        WebviewMessage::CookiesForUrl(url, reply) => Some(
            Action::Cookies {
                browser,
                search,
                task: CookieTask::Collect(CookieQuery::ForUrl(url), reply),
            },
        ),
        WebviewMessage::SetCookie(cookie) => Some(
            Action::Cookies { browser, search, task: CookieTask::Store(cookie) },
        ),
        WebviewMessage::DeleteCookie(cookie) => Some(
            Action::Cookies { browser, search, task: CookieTask::Delete(cookie) },
        ),
        WebviewMessage::Bounds(reply) => Some(Action::ReplyRect(reply, webview.rect)),
        WebviewMessage::Position(reply) => Some(
            Action::ReplyPosition { reply, window, position: webview.rect.position },
        ),
        WebviewMessage::Size(reply) => Some(
            Action::ReplySize { reply, window, size: webview.rect.size },
        ),
        WebviewMessage::SetAutoResize(true) => Some(
            Action::ComputeRates { window, window_id, webview_id, rect: webview.rect },
        ),
        WebviewMessage::WithWebview(task) => match browser {
            Some(browser) => Some(Action::WithWebview { task, browser }),
            None => {
                assert(false);
                None
            },
        },
        _ => None,
    }
}

/// What the event loop does about a message to a webview, beside changing it.
fn effects_on_webview(
    window: TaoWindowId,
    window_id: WindowId,
    browsers: &BrowserSlots,
    webview: &WebviewWrapper,
    message: WebviewMessage,
) -> (effects: Vec<Effect>)
    requires
        message is WithWebview ==> webview@.browser(browsers@) is Some,
    ensures
        messages::models(effects@) == webview_effects(
            window,
            window_id,
            browsers@,
            webview@,
            message,
        ),
{
    let browser = webview.browser_slot.current(browsers);
    if let WebviewMessage::IsDevToolsOpen(reply) = message {
        let calls = webview.is_devtools_open(browsers);
        return one(Effect::ReplyOutcome { reply, browser, calls });
    }
    if let Some(calls) = calls_on(browsers, webview, &message) {
        if let WebviewMessage::EvaluateScript(_, Some(trace)) = message {
            return one(Effect::TracedCalls { trace, browser, calls });
        }
        return one(Effect::Calls { browser, calls });
    }
    match action_on(window, window_id, browsers, webview, message) {
        Some(action) => one(Effect::Do(action)),
        None => none(),
    }
}

/// How a message changes the webview that it reaches.
enum WebviewChange {
    Unchanged,
    AddListener(u32, u64),
    Remove,
    Color(Color),
    StopGrowing,
}

fn change_by(message: &WebviewMessage) -> (change: WebviewChange)
    ensures
        change == match *message {
            WebviewMessage::AddEventListener(listener, handler) => WebviewChange::AddListener(
                listener,
                handler,
            ),
            WebviewMessage::Close => WebviewChange::Remove,
            WebviewMessage::SetBackgroundColor(color) => WebviewChange::Color(
                match color {
                    Some(color) => color,
                    None => white(),
                },
            ),
            WebviewMessage::SetAutoResize(false) => WebviewChange::StopGrowing,
            _ => WebviewChange::Unchanged,
        },
{
    match message {
        WebviewMessage::AddEventListener(listener, handler) => WebviewChange::AddListener(
            *listener,
            *handler,
        ),
        WebviewMessage::Close => WebviewChange::Remove,
        WebviewMessage::SetBackgroundColor(color) => WebviewChange::Color(color_or_white(*color)),
        WebviewMessage::SetAutoResize(auto_resize) => if *auto_resize {
            WebviewChange::Unchanged
        } else {
            WebviewChange::StopGrowing
        },
        _ => WebviewChange::Unchanged,
    }
}

/// Handles a message to a webview, other than one that moves it to another window.
fn handle_webview_message(
    windows: &mut WindowsStore,
    browsers: &BrowserSlots,
    id: WindowId,
    webview_id: WebviewId,
    message: WebviewMessage,
) -> (effects: Vec<Effect>)
    requires
        message is WithWebview ==> (open_webview(old(windows)@, id, webview_id) matches Some(
            webview,
        ) ==> webview.browser(browsers@) is Some),
    ensures
        match open_webview(old(windows)@, id, webview_id) {
            Some(webview) => {
                &&& final(windows)@ == windows_after_webview_message(
                    old(windows)@,
                    id,
                    webview_id,
                    webview,
                    message,
                )
                &&& messages::models(effects@) == webview_effects(
                    open_window(old(windows)@, id)->Some_0,
                    id,
                    browsers@,
                    webview,
                    message,
                )
            },
            None => {
                &&& final(windows)@ == old(windows)@
                &&& messages::models(effects@) == Seq::<EffectModel>::empty()
            },
        },
{
    let change = change_by(&message);
    let effects = match windows.get(id) {
        Some(window) => match window.inner {
            Some(tao_window) => {
                let at: usize = store::position_of_webview(&window.webviews, webview_id);
                if at < window.webviews.len() {
                    proof {
                        store::lemma_webview_index(
                            store::webview_models(window.webviews@),
                            webview_id,
                        );
                    }
                    effects_on_webview(
                        tao_window,
                        id,
                        browsers,
                        &window.webviews[at],
                        message,
                    )
                } else {
                    return none();
                }
            },
            None => {
                return none();
            },
        },
        None => {
            return none();
        },
    };
    match change {
        WebviewChange::AddListener(listener, handler) => {
            windows.add_webview_listener(id, webview_id, listener, handler);
        },
        WebviewChange::Remove => {
            windows.remove_webview(id, webview_id);
        },
        WebviewChange::Color(color) => {
            windows.set_webview_color(id, webview_id, color);
        },
        WebviewChange::StopGrowing => {
            windows.set_webview_rates(id, webview_id, None);
        },
        WebviewChange::Unchanged => {},
    }
    effects
}

/// Moves a webview to another window.
fn reparent(
    windows: &mut WindowsStore,
    id: WindowId,
    webview_id: WebviewId,
    new_parent: WindowId,
) -> (result: Result<(), Error>)
    ensures
        final(windows)@ == reparented(old(windows)@, id, webview_id, new_parent),
        result == reparent_result(old(windows)@, id, webview_id, new_parent),
{
    match windows.remove_webview(id, webview_id) {
        Some(webview) => if windows.push_webview(new_parent, webview) {
            Ok(())
        } else {
            Err(Error::FailedToSendMessage)
        },
        None => Err(Error::FailedToSendMessage),
    }
}

/// Handles a message on the main thread: changes the windows, and says what else is
/// to be done. `report` is what the window that the message is for says of itself.
pub fn handle_user_message<T>(
    platform: Platform,
    report: WindowReport,
    windows: &mut WindowsStore,
    browsers: &BrowserSlots,
    message: Message<T>,
) -> (effects: Vec<Effect>)
    requires
        is_handled(old(windows)@, browsers@, message),
    ensures
        final(windows)@ == windows_after(platform, old(windows)@, message),
        messages::models(effects@) == effects_of(
            platform,
            report,
            old(windows)@,
            browsers@,
            message,
        ),
{
    match message {
        Message::Task(task) => one(Effect::Do(Action::RunTask(task))),
        Message::SetActivationPolicy(policy) => one(
            Effect::Do(Action::SetActivationPolicy(tao_activation_policy(policy))),
        ),
        Message::SetDockVisibility(visible) => one(
            Effect::Do(Action::SetDockVisibility(visible)),
        ),
        Message::RequestExit(_) => none(),
        Message::Application(message) => match message {
            ApplicationMessage::Show => one(Effect::Do(Action::ShowApplication)),
            ApplicationMessage::Hide => one(Effect::Do(Action::HideApplication)),
            ApplicationMessage::FetchDataStoreIdentifiers(task) => one(
                Effect::Do(Action::FetchDataStoreIdentifiers(task)),
            ),
            ApplicationMessage::RemoveDataStore(store, task) => one(
                Effect::Do(Action::RemoveDataStore(store, task)),
            ),
        },
        Message::Window(id, message) => {
            let (window, of_webview) = match windows.get(id) {
                Some(window) => (
                    window.inner,
                    platform == Platform::MacOs && !window.has_children && window.webviews.len()
                        > 0,
                ),
                None => (None, false),
            };
            match window {
                Some(window) => {
                    if let WindowMessage::AddEventListener(listener, handler) = message {
                        windows.add_window_listener(id, listener, handler);
                    }
                    window_messages::effects_for_window(
                        platform,
                        report,
                        window,
                        of_webview,
                        message,
                    )
                },
                None => none(),
            }
        },
        Message::Webview(id, webview_id, message) => match message {
            WebviewMessage::Reparent(new_parent, reply) => if platform.is_desktop() {
                let result = reparent(windows, id, webview_id, new_parent);
                one(Effect::Do(Action::ReplyResult(reply, result)))
            } else {
                none()
            },
            message => handle_webview_message(windows, browsers, id, webview_id, message),
        },
        Message::EventLoopWindowTarget(message) => match message {
            EventLoopWindowTargetMessage::CursorPosition(reply) => one(
                Effect::Do(Action::ReplyCursorPosition(reply)),
            ),
            EventLoopWindowTargetMessage::SetTheme(theme) => one(
                Effect::Do(Action::SetTheme(to_tao_theme(theme))),
            ),
            EventLoopWindowTargetMessage::SetDeviceEventFilter(filter) => one(
                Effect::Do(
                    Action::SetDeviceEventFilter(DeviceEventFilterWrapper::from(filter).0),
                ),
            ),
        },
        Message::CreateWebview(id, webview_id, cell, task) => {
            let window = match windows.get(id) {
                Some(window) => window.inner,
                None => None,
            };
            match window {
                Some(window) => one(
                    Effect::Do(
                        Action::CreateWebview { window, window_id: id, webview_id, cell, task },
                    ),
                ),
                None => none(),
            }
        },
        Message::CreateWindow(window_id, webview_id, task) => one(
            Effect::Do(Action::CreateWindow { window_id, webview_id, task }),
        ),
        Message::CreateRawWindow(window_id, task, reply) => one(
            Effect::Do(Action::BuildRawWindow { window_id, task, reply }),
        ),
        Message::UserEvent(_) => none(),
    }
}

/// A message changes no window but the one it is for, except that a webview may move
/// to another.
pub proof fn lemma_other_windows_are_untouched<T>(
    platform: Platform,
    windows: Map<WindowId, WindowModel>,
    message: Message<T>,
    other: WindowId,
)
    requires
        match message {
            Message::Window(id, _) => other != id,
            Message::Webview(id, _, WebviewMessage::Reparent(new_parent, _)) => other != id && other
                != new_parent,
            Message::Webview(id, _, _) => other != id,
            _ => true,
        },
    ensures
        windows_after(platform, windows, message).contains_key(other) == windows.contains_key(other),
        windows_after(platform, windows, message)[other] == windows[other],
{
}

/// No message closes a window, opens one or removes one: that takes the event loop.
pub proof fn lemma_messages_keep_windows_open<T>(
    platform: Platform,
    windows: Map<WindowId, WindowModel>,
    message: Message<T>,
    id: WindowId,
)
    ensures
        windows_after(platform, windows, message).contains_key(id) == windows.contains_key(id),
        windows.contains_key(id) ==> windows_after(platform, windows, message)[id].inner
            == windows[id].inner && windows_after(platform, windows, message)[id].label
            == windows[id].label,
{
}

/// Nothing is done about a message to a window that is not open, nor about one to a
/// webview in it; only a webview may still be moved out of it.
pub proof fn lemma_closed_windows_get_no_messages<T>(
    platform: Platform,
    report: WindowReport,
    windows: Map<WindowId, WindowModel>,
    browsers: Seq<Option<i32>>,
    id: WindowId,
    message: Message<T>,
)
    requires
        open_window(windows, id) is None,
        match message {
            Message::Window(window_id, _) => window_id == id,
            Message::Webview(window_id, _, message) => window_id == id && !(message is Reparent),
            Message::CreateWebview(window_id, _, _, _) => window_id == id,
            _ => false,
        },
    ensures
        windows_after(platform, windows, message) == windows,
        effects_of(platform, report, windows, browsers, message).len() == 0,
{
}

/// A question to a window changes nothing.
pub proof fn lemma_questions_change_nothing<T>(
    platform: Platform,
    windows: Map<WindowId, WindowModel>,
    id: WindowId,
    message: WindowMessage,
)
    requires
        window_messages::question(message, false) is Some,
    ensures
        windows_after::<T>(platform, windows, Message::Window(id, message)) == windows,
{
}

/// A webview that moves to another window is the last one there, leaves its window,
/// and is itself unchanged. Whoever asked for it is told so.
pub proof fn lemma_moved_webview_arrives(
    windows: Map<WindowId, WindowModel>,
    id: WindowId,
    webview_id: WebviewId,
    new_parent: WindowId,
)
    requires
        store::webview_in(windows, id, webview_id) is Some,
        windows.contains_key(new_parent),
        id != new_parent,
    ensures
        ({
            let after = reparented(windows, id, webview_id, new_parent);
            let webview = store::webview_in(windows, id, webview_id)->Some_0;
            &&& reparent_result(windows, id, webview_id, new_parent) == Ok::<(), Error>(())
            &&& after[new_parent].webviews == windows[new_parent].webviews.push(webview)
            &&& after[id].webviews.len() == windows[id].webviews.len() - 1
            &&& after[id].webviews == windows[id].webviews.remove(
                store::webview_index(windows[id].webviews, webview_id),
            )
        }),
{
    store::lemma_webview_index(windows[id].webviews, webview_id);
}

/// A webview that is to move to a window which does not exist is lost, and whoever
/// asked for it is told that it failed.
pub proof fn lemma_webview_moved_nowhere_is_lost(
    windows: Map<WindowId, WindowModel>,
    id: WindowId,
    webview_id: WebviewId,
    new_parent: WindowId,
)
    requires
        store::webview_in(windows, id, webview_id) is Some,
        !windows.contains_key(new_parent),
    ensures
        reparent_result(windows, id, webview_id, new_parent) == Err::<(), Error>(
            Error::FailedToSendMessage,
        ),
        reparented(windows, id, webview_id, new_parent) == windows.insert(
            id,
            store::without_webview(windows[id], webview_id),
        ),
{
}

} // verus!
