//! What each message to a webview does.

use crate::cef_calls;
use crate::cef_calls::{CallOf, OnFailure, SequenceState, StepModel};
use crate::client::HandlerId;
use crate::runtime::color::Color;
use crate::runtime::conversions::{
    ActivationPolicy, DeviceEventFilter, Error, TaoActivationPolicy, TaoDeviceEventFilter, TaoTheme,
    Theme,
};
use crate::runtime::cookies::{ClearBrowsingData, CookieQuery, ManagerSearch, WebCookie};
use crate::runtime::dpi::{Float64, Position, Rect, Size};
use crate::runtime::messages::{
    Action, ApplicationMessage, CookieTask, DataStoreId, EffectModel, EventLoopWindowTargetMessage,
    Message, RateUpdate, ReplyId, ScriptTrace, TaskId, WebviewMessage, WindowMessage, WindowReport,
};
use crate::runtime::platform::Platform;
use crate::runtime::store;
use crate::runtime::store::{WebviewId, WebviewModel, WindowCell, WindowId, WindowModel};
use crate::runtime::user_messages;
use crate::runtime::webview;
use vstd::prelude::*;

verus! {

/// Where a message to a webview is handled: the webview is the one with this number in its
/// window.
pub struct WebviewScene {
    pub platform: Platform,
    pub report: WindowReport,
    pub windows: Map<WindowId, WindowModel>,
    pub browsers: Seq<Option<i32>>,
    pub id: WindowId,
    pub at: int,
}

/// A step after which the sequence goes on whatever CEF answers.
pub open spec fn anyway(call: CallOf<Seq<char>>) -> StepModel {
    StepModel { call, on_failure: OnFailure::Continue }
}

/// A step without which the sequence ends with an outcome.
pub open spec fn or_end(call: CallOf<Seq<char>>, outcome: bool) -> StepModel {
    StepModel { call, on_failure: OnFailure::Stop(outcome) }
}

/// Calls that are still to be made.
pub open spec fn to_make(first: StepModel, second: StepModel) -> SequenceState {
    SequenceState { remaining: seq![first, second], outcome: None }
}

/// No calls, but an outcome.
pub open spec fn over(outcome: bool) -> SequenceState {
    SequenceState { remaining: Seq::empty(), outcome: Some(outcome) }
}

impl WebviewScene {
    /// The window is open, and no webview before the one that is meant is found in its
    /// stead.
    pub open spec fn is_open(self) -> bool {
        &&& self.windows.contains_key(self.id)
        &&& self.windows[self.id].inner is Some
        &&& 0 <= self.at < self.windows[self.id].webviews.len()
        &&& forall|i: int|
            0 <= i < self.at ==> (#[trigger] self.windows[self.id].webviews[i]).id
                != self.webview().id
    }

    /// The webview.
    pub open spec fn webview(self) -> WebviewModel {
        self.windows[self.id].webviews[self.at]
    }

    /// The browser of the webview, if it has one.
    pub open spec fn browser(self) -> Option<i32> {
        self.webview().slot.browser(self.browsers)
    }

    /// The window of the window system.
    pub open spec fn window(self) -> u64 {
        self.windows[self.id].inner->Some_0
    }

    /// What is done about a message to the webview.
    pub open spec fn effects(self, message: WebviewMessage) -> Seq<EffectModel> {
        user_messages::effects_of(
            self.platform,
            self.report,
            self.windows,
            self.browsers,
            Message::<u8>::Webview(self.id, self.webview().id, message),
        )
    }

    /// The windows after a message to the webview.
    pub open spec fn after(self, message: WebviewMessage) -> Map<WindowId, WindowModel> {
        user_messages::windows_after(
            self.platform,
            self.windows,
            Message::<u8>::Webview(self.id, self.webview().id, message),
        )
    }

    /// The windows with another webview in the place of this one.
    pub open spec fn with(self, webview: WebviewModel) -> Map<WindowId, WindowModel> {
        let window = self.windows[self.id];
        self.windows.insert(
            self.id,
            WindowModel { webviews: window.webviews.update(self.at, webview), ..window },
        )
    }

    /// A message makes calls on the browser and does nothing else.
    pub open spec fn calls(self, message: WebviewMessage, calls: SequenceState) -> bool {
        self.effects(message) == seq![EffectModel::Calls { browser: self.browser(), calls }]
    }

    /// A message makes one thing be done.
    pub open spec fn acts(self, message: WebviewMessage, action: Action) -> bool {
        self.effects(message) == seq![EffectModel::Do(action)]
    }

    proof fn lemma_found(self)
        requires
            self.is_open(),
        ensures
            store::webview_index(self.windows[self.id].webviews, self.webview().id) == self.at,
            store::find_webview(self.windows[self.id].webviews, self.webview().id) == Some(
                self.webview(),
            ),
    {
        let webviews = self.windows[self.id].webviews;
        let id = self.webview().id;
        store::lemma_webview_index(webviews, id);
        let found = store::webview_index(webviews, id);
        if found < self.at {
            assert(webviews[found].id != id);
        }
        if self.at < found {
            assert(webviews[self.at].id != id);
        }
    }
}

/// To navigate is to load the URL in the main frame, with exactly its characters. If CEF has
/// a main frame the URL is loaded, and else nothing is; two URLs make different calls.
pub proof fn lemma_navigation_loads_the_url(
    scene: WebviewScene,
    url: String,
    other: String,
    answers: Seq<i32>,
)
    requires
        scene.is_open(),
        scene.browser() is Some,
        answers.len() >= 2,
    ensures
        ({
            let effects = scene.effects(WebviewMessage::Navigate(url));
            &&& effects.len() == 1
            &&& effects[0] is Calls
            &&& effects[0]->Calls_browser == scene.browser()
            &&& answers[0] != 0 ==> cef_calls::reported(effects[0]->Calls_calls, answers).0 == seq![
                CallOf::MainFrame,
                CallOf::LoadUrl(url@),
            ]
            &&& answers[0] == 0 ==> cef_calls::reported(effects[0]->Calls_calls, answers).0 == seq![
                CallOf::<Seq<char>>::MainFrame,
            ]
            &&& scene.calls(
                WebviewMessage::Navigate(url),
                to_make(or_end(CallOf::MainFrame, false), anyway(CallOf::LoadUrl(url@))),
            )
        }),
        url@ != other@ ==> scene.effects(WebviewMessage::Navigate(url)) != scene.effects(
            WebviewMessage::Navigate(other),
        ),
        scene.after(WebviewMessage::Navigate(url)) == scene.windows,
{
    scene.lemma_found();
    let calls = to_make(or_end(CallOf::MainFrame, false), anyway(CallOf::LoadUrl(url@)));
    let others = to_make(or_end(CallOf::MainFrame, false), anyway(CallOf::LoadUrl(other@)));
    assert(scene.effects(WebviewMessage::Navigate(url))[0]->Calls_calls =~= calls);
    assert(scene.effects(WebviewMessage::Navigate(other))[0]->Calls_calls =~= others);
    assert(calls.remaining[1].call == CallOf::LoadUrl(url@));
    assert(others.remaining[1].call == CallOf::LoadUrl(other@));
    lemma_two_calls(calls, answers);
}

proof fn lemma_two_calls(calls: SequenceState, answers: Seq<i32>)
    requires
        calls.remaining.len() == 2,
        calls.outcome is None,
        calls.remaining[1].on_failure == OnFailure::Continue,
        answers.len() >= 2,
    ensures
        calls.remaining[0].on_failure is Stop && answers[0] == 0 ==> cef_calls::reported(
            calls,
            answers,
        ).0 == seq![calls.remaining[0].call],
        answers[0] != 0 ==> cef_calls::reported(calls, answers).0 == seq![
            calls.remaining[0].call,
            calls.remaining[1].call,
        ],
{
    reveal_with_fuel(cef_calls::reported, 3);
    let next = calls.after(answers[0]);
    if answers[0] != 0 {
        assert(next.remaining =~= seq![calls.remaining[1]]);
        assert(answers.drop_first()[0] == answers[1]);
        let last = next.after(answers[1]);
        assert(last.remaining.len() == 0);
    }
    let made = cef_calls::reported(calls, answers).0;
    if answers[0] != 0 {
        assert(made =~= seq![calls.remaining[0].call, calls.remaining[1].call]);
    } else if calls.remaining[0].on_failure is Stop {
        assert(made =~= seq![calls.remaining[0].call]);
    }
}

/// A script is run in the main frame as it is, once. Whoever waits for it learns that it was
/// run, in the span that it is to be run in.
pub proof fn lemma_scripts_are_run(scene: WebviewScene, script: String, trace: ScriptTrace)
    requires
        scene.is_open(),
        scene.browser() is Some,
    ensures
        ({
            let calls = to_make(
                or_end(CallOf::MainFrame, false),
                anyway(
                    CallOf::ExecuteJavaScript {
                        code: script@,
                        script_url: "tauri-runtime-cef://eval"@,
                        start_line: 1,
                    },
                ),
            );
            &&& scene.calls(WebviewMessage::EvaluateScript(script, None), calls)
            &&& scene.effects(WebviewMessage::EvaluateScript(script, Some(trace))) == seq![
                EffectModel::TracedCalls { trace, browser: scene.browser(), calls },
            ]
        }),
        scene.after(WebviewMessage::EvaluateScript(script, Some(trace))) == scene.windows,
        scene.after(WebviewMessage::EvaluateScript(script, None)) == scene.windows,
{
    scene.lemma_found();
    let calls = to_make(
        or_end(CallOf::MainFrame, false),
        anyway(
            CallOf::ExecuteJavaScript {
                code: script@,
                script_url: "tauri-runtime-cef://eval"@,
                start_line: 1,
            },
        ),
    );
    assert(scene.effects(WebviewMessage::EvaluateScript(script, None))[0]->Calls_calls =~= calls);
}

/// A webview that is shown is not hidden, and one that is hidden is; to reload, to print, to
/// focus, and to open or close the developer tools is one call each, on the browser or its
/// host. Only the developer tools do not need a host. The windows stay as they are.
pub proof fn lemma_browsers_are_called(scene: WebviewScene, reply: ReplyId)
    requires
        scene.is_open(),
        scene.browser() is Some,
    ensures
        scene.calls(
            WebviewMessage::Reload,
            (SequenceState { remaining: seq![anyway(CallOf::Reload)], outcome: None }),
        ),
        scene.calls(
            WebviewMessage::Show,
            to_make(or_end(CallOf::Host, false), anyway(CallOf::WasHidden(0))),
        ),
        scene.calls(
            WebviewMessage::Hide,
            to_make(or_end(CallOf::Host, false), anyway(CallOf::WasHidden(1))),
        ),
        scene.calls(
            WebviewMessage::Print,
            to_make(or_end(CallOf::Host, false), anyway(CallOf::Print)),
        ),
        scene.calls(
            WebviewMessage::SetFocus,
            to_make(or_end(CallOf::Host, false), anyway(CallOf::SetFocus(1))),
        ),
        scene.calls(
            WebviewMessage::OpenDevTools,
            to_make(or_end(CallOf::Host, true), anyway(CallOf::ShowDevTools)),
        ),
        scene.calls(
            WebviewMessage::CloseDevTools,
            to_make(or_end(CallOf::Host, true), anyway(CallOf::CloseDevTools)),
        ),
        scene.effects(WebviewMessage::IsDevToolsOpen(reply)) == seq![
            EffectModel::ReplyOutcome {
                reply,
                browser: scene.browser(),
                calls: to_make(or_end(CallOf::Host, false), or_end(CallOf::HasDevTools, false)),
            },
        ],
        scene.after(WebviewMessage::Reload) == scene.windows,
        scene.after(WebviewMessage::Show) == scene.windows,
        scene.after(WebviewMessage::Hide) == scene.windows,
        scene.after(WebviewMessage::Print) == scene.windows,
        scene.after(WebviewMessage::SetFocus) == scene.windows,
        scene.after(WebviewMessage::OpenDevTools) == scene.windows,
        scene.after(WebviewMessage::CloseDevTools) == scene.windows,
        scene.after(WebviewMessage::IsDevToolsOpen(reply)) == scene.windows,
{
    scene.lemma_found();
    assert(scene.effects(WebviewMessage::Reload)[0]->Calls_calls =~= (SequenceState {
        remaining: seq![anyway(CallOf::Reload)],
        outcome: None,
    }));
    assert(scene.effects(WebviewMessage::Show)[0]->Calls_calls =~= to_make(
        or_end(CallOf::Host, false),
        anyway(CallOf::WasHidden(0)),
    ));
    assert(scene.effects(WebviewMessage::Hide)[0]->Calls_calls =~= to_make(
        or_end(CallOf::Host, false),
        anyway(CallOf::WasHidden(1)),
    ));
    assert(scene.effects(WebviewMessage::IsDevToolsOpen(reply))[0]->ReplyOutcome_calls =~= to_make(
        or_end(CallOf::Host, false),
        or_end(CallOf::HasDevTools, false),
    ));
}

/// Without a browser no call is made. It is an error, except that there are no developer
/// tools to open or close; and they do not count as open.
pub proof fn lemma_nothing_is_called_without_a_browser(
    scene: WebviewScene,
    text: String,
    color: Option<Color>,
    reply: ReplyId,
)
    requires
        scene.is_open(),
        scene.browser() is None,
    ensures
        scene.calls(WebviewMessage::Navigate(text), over(false)),
        scene.calls(WebviewMessage::EvaluateScript(text, None), over(false)),
        scene.calls(WebviewMessage::Reload, over(false)),
        scene.calls(WebviewMessage::Show, over(false)),
        scene.calls(WebviewMessage::Hide, over(false)),
        scene.calls(WebviewMessage::Print, over(false)),
        scene.calls(WebviewMessage::SetFocus, over(false)),
        scene.calls(WebviewMessage::SetBackgroundColor(color), over(false)),
        scene.calls(WebviewMessage::OpenDevTools, over(true)),
        scene.calls(WebviewMessage::CloseDevTools, over(true)),
        scene.effects(WebviewMessage::IsDevToolsOpen(reply)) == seq![
            EffectModel::ReplyOutcome { reply, browser: None, calls: over(false) },
        ],
{
    scene.lemma_found();
}

/// A background color is kept for the webview, which is white where there is none, and a
/// script gives it to the page at once.
pub proof fn lemma_background_is_kept_and_shown(scene: WebviewScene, color: Color)
    requires
        scene.is_open(),
        scene.browser() is Some,
    ensures
        ({
            let painted = |color: Color|
                to_make(
                    or_end(CallOf::MainFrame, false),
                    anyway(
                        CallOf::ExecuteJavaScript {
                            code: webview::background_script(color),
                            script_url: "tauri-runtime-cef://eval"@,
                            start_line: 1,
                        },
                    ),
                );
            let white = Color { r: 255, g: 255, b: 255, a: 255 };
            &&& scene.calls(WebviewMessage::SetBackgroundColor(Some(color)), painted(color))
            &&& scene.calls(WebviewMessage::SetBackgroundColor(None), painted(white))
            &&& scene.after(WebviewMessage::SetBackgroundColor(Some(color))) == scene.with(
                WebviewModel { background_color: color, ..scene.webview() },
            )
            &&& scene.after(WebviewMessage::SetBackgroundColor(None)) == scene.with(
                WebviewModel { background_color: white, ..scene.webview() },
            )
        }),
{
    scene.lemma_found();
    let script = |color: Color|
        to_make(
            or_end(CallOf::MainFrame, false),
            anyway(
                CallOf::ExecuteJavaScript {
                    code: webview::background_script(color),
                    script_url: "tauri-runtime-cef://eval"@,
                    start_line: 1,
                },
            ),
        );
    let white = Color { r: 255, g: 255, b: 255, a: 255 };
    assert(scene.effects(WebviewMessage::SetBackgroundColor(Some(color)))[0]->Calls_calls
        =~= script(color));
    assert(scene.effects(WebviewMessage::SetBackgroundColor(None))[0]->Calls_calls =~= script(
        white,
    ));
}

/// A webview that is moved or resized keeps its other measure. Of the shares of its window,
/// if it grows with it, only those of what was set are computed anew.
pub proof fn lemma_bounds_are_set(
    scene: WebviewScene,
    bounds: Rect,
    size: Size,
    position: Position,
)
    requires
        scene.is_open(),
    ensures
        ({
            let set = |bounds: Rect, update: RateUpdate|
                Action::SetBounds {
                    window: scene.window(),
                    window_id: scene.id,
                    webview_id: scene.webview().id,
                    bounds,
                    rates: if scene.webview().bounds is Some {
                        update
                    } else {
                        RateUpdate::Keep
                    },
                };
            &&& scene.acts(
                WebviewMessage::SetBounds(bounds),
                set(bounds, RateUpdate::PositionAndSize),
            )
            &&& scene.acts(
                WebviewMessage::SetSize(size),
                set(
                    Rect { position: scene.webview().rect.position, size },
                    RateUpdate::SizeOnly,
                ),
            )
            &&& scene.acts(
                WebviewMessage::SetPosition(position),
                set(
                    Rect { position, size: scene.webview().rect.size },
                    RateUpdate::PositionOnly,
                ),
            )
        }),
        scene.after(WebviewMessage::SetBounds(bounds)) == scene.windows,
        scene.after(WebviewMessage::SetSize(size)) == scene.windows,
        scene.after(WebviewMessage::SetPosition(position)) == scene.windows,
{
    scene.lemma_found();
}

/// A webview grows with its window once its shares are known, and no longer when it is told
/// not to.
pub proof fn lemma_growing_begins_and_ends(scene: WebviewScene)
    requires
        scene.is_open(),
    ensures
        scene.acts(
            WebviewMessage::SetAutoResize(true),
            (Action::ComputeRates {
                window: scene.window(),
                window_id: scene.id,
                webview_id: scene.webview().id,
                rect: scene.webview().rect,
            }),
        ),
        scene.after(WebviewMessage::SetAutoResize(true)) == scene.windows,
        scene.effects(WebviewMessage::SetAutoResize(false)).len() == 0,
        scene.after(WebviewMessage::SetAutoResize(false)) == scene.with(
            WebviewModel { bounds: None, ..scene.webview() },
        ),
{
    scene.lemma_found();
}

/// Whoever asks for the bounds, the position, the size or the URL of a webview gets those of
/// that webview, and nothing changes.
pub proof fn lemma_webview_answers(scene: WebviewScene, reply: ReplyId)
    requires
        scene.is_open(),
    ensures
        scene.acts(
            WebviewMessage::Bounds(reply),
            Action::ReplyRect(reply, scene.webview().rect),
        ),
        scene.acts(
            WebviewMessage::Position(reply),
            (Action::ReplyPosition {
                reply,
                window: scene.window(),
                position: scene.webview().rect.position,
            }),
        ),
        scene.acts(
            WebviewMessage::Size(reply),
            (Action::ReplySize { reply, window: scene.window(), size: scene.webview().rect.size }),
        ),
        scene.acts(
            WebviewMessage::Url(reply),
            (Action::ReplyUrl {
                reply,
                window_id: scene.id,
                webview_id: scene.webview().id,
                browser: scene.browser(),
            }),
        ),
        scene.after(WebviewMessage::Bounds(reply)) == scene.windows,
        scene.after(WebviewMessage::Position(reply)) == scene.windows,
        scene.after(WebviewMessage::Size(reply)) == scene.windows,
        scene.after(WebviewMessage::Url(reply)) == scene.windows,
{
    scene.lemma_found();
}

/// Cookies are read, kept and deleted in the store of the browser, or in that of the
/// application where there is no browser; so is browsing data cleared.
pub proof fn lemma_cookies_are_looked_for(
    scene: WebviewScene,
    url: String,
    cookie: WebCookie,
    reply: ReplyId,
)
    requires
        scene.is_open(),
    ensures
        ({
            let browser = scene.browser();
            let search = if browser is Some {
                ManagerSearch::AskHost
            } else {
                ManagerSearch::AskGlobalManager
            };
            &&& scene.acts(
                WebviewMessage::Cookies(reply),
                (Action::Cookies {
                    browser,
                    search,
                    task: CookieTask::Collect(CookieQuery::All, reply),
                }),
            )
            &&& scene.acts(
                WebviewMessage::CookiesForUrl(url, reply),
                (Action::Cookies {
                    browser,
                    search,
                    task: CookieTask::Collect(CookieQuery::ForUrl(url), reply),
                }),
            )
            &&& scene.acts(
                WebviewMessage::SetCookie(cookie),
                (Action::Cookies { browser, search, task: CookieTask::Store(cookie) }),
            )
            &&& scene.acts(
                WebviewMessage::DeleteCookie(cookie),
                (Action::Cookies { browser, search, task: CookieTask::Delete(cookie) }),
            )
            &&& scene.acts(
                WebviewMessage::ClearAllBrowsingData,
                (Action::ClearBrowsingData {
                    browser,
                    step: if browser is Some {
                        ClearBrowsingData::AskHost
                    } else {
                        ClearBrowsingData::AskGlobalManager
                    },
                }),
            )
        }),
        scene.after(WebviewMessage::Cookies(reply)) == scene.windows,
        scene.after(WebviewMessage::CookiesForUrl(url, reply)) == scene.windows,
        scene.after(WebviewMessage::SetCookie(cookie)) == scene.windows,
        scene.after(WebviewMessage::DeleteCookie(cookie)) == scene.windows,
        scene.after(WebviewMessage::ClearAllBrowsingData) == scene.windows,
{
    scene.lemma_found();
}

/// A webview is zoomed by the factor that it was given, and handed out with its browser.
pub proof fn lemma_webview_is_zoomed_and_handed_out(
    scene: WebviewScene,
    factor: Float64,
    task: TaskId,
)
    requires
        scene.is_open(),
    ensures
        scene.acts(
            WebviewMessage::SetZoom(factor),
            (Action::Zoom { window_id: scene.id, webview_id: scene.webview().id, factor }),
        ),
        scene.browser() is Some ==> scene.acts(
            WebviewMessage::WithWebview(task),
            (Action::WithWebview { task, browser: scene.browser()->Some_0 }),
        ),
        scene.after(WebviewMessage::SetZoom(factor)) == scene.windows,
        scene.after(WebviewMessage::WithWebview(task)) == scene.windows,
{
    scene.lemma_found();
}

/// A webview that is closed leaves its window, and the others keep their order; a listener
/// that is added to a webview is added to no other. Neither does anything else.
pub proof fn lemma_webview_is_closed_or_listened_to(
    scene: WebviewScene,
    listener: u32,
    handler: HandlerId,
)
    requires
        scene.is_open(),
    ensures
        ({
            let window = scene.windows[scene.id];
            let listened = WebviewMessage::AddEventListener(listener, handler);
            &&& scene.after(WebviewMessage::Close) == scene.windows.insert(
                scene.id,
                WindowModel {
                    webviews: window.webviews.take(scene.at) + window.webviews.skip(scene.at + 1),
                    ..window
                },
            )
            &&& scene.after(listened) == scene.with(
                WebviewModel {
                    listeners: store::with_listener(
                        scene.webview().listeners,
                        listener,
                        handler,
                    ),
                    ..scene.webview()
                },
            )
            &&& scene.effects(WebviewMessage::Close).len() == 0
            &&& scene.effects(listened).len() == 0
        }),
{
    scene.lemma_found();
    let window = scene.windows[scene.id];
    assert(window.webviews.remove(scene.at) =~= window.webviews.take(scene.at)
        + window.webviews.skip(scene.at + 1));
}

/// On a desktop a webview that moves to another window goes from where it was to the end of
/// the other window, as it is, and whoever asked for it is told that it worked. If there is
/// no other window the webview is gone, and if there is no webview nothing changes, and it
/// did not work. Elsewhere webviews do not move and nobody is told anything.
pub proof fn lemma_webviews_move(scene: WebviewScene, to: WindowId, reply: ReplyId)
    requires
        scene.is_open(),
    ensures
        ({
            let window = scene.windows[scene.id];
            let left = WindowModel {
                webviews: window.webviews.take(scene.at) + window.webviews.skip(scene.at + 1),
                ..window
            };
            let taken = scene.windows.insert(scene.id, left);
            let message = WebviewMessage::Reparent(to, reply);
            let desktop = scene.platform == Platform::Linux || scene.platform == Platform::Windows
                || scene.platform == Platform::MacOs;
            &&& desktop && scene.windows.contains_key(to) ==> {
                &&& scene.acts(message, Action::ReplyResult(reply, Ok(())))
                &&& scene.after(message) == taken.insert(
                    to,
                    WindowModel { webviews: taken[to].webviews.push(scene.webview()), ..taken[to] },
                )
            }
            &&& desktop && !scene.windows.contains_key(to) ==> {
                &&& scene.acts(
                    message,
                    Action::ReplyResult(reply, Err(Error::FailedToSendMessage)),
                )
                &&& scene.after(message) == taken
            }
            &&& !desktop ==> scene.effects(message).len() == 0 && scene.after(message)
                == scene.windows
        }),
{
    scene.lemma_found();
    let window = scene.windows[scene.id];
    assert(window.webviews.remove(scene.at) =~= window.webviews.take(scene.at)
        + window.webviews.skip(scene.at + 1));
}

/// Nothing is done about messages to a webview that is not in its window, nor to one in a
/// window that is not open; and they change nothing.
pub proof fn lemma_lost_messages_do_nothing(
    platform: Platform,
    report: WindowReport,
    windows: Map<WindowId, WindowModel>,
    browsers: Seq<Option<i32>>,
    id: WindowId,
    webview_id: WebviewId,
    message: WebviewMessage,
)
    requires
        !(message is Reparent),
        windows.contains_key(id) && windows[id].inner is Some ==> forall|i: int|
            0 <= i < windows[id].webviews.len() ==> (#[trigger] windows[id].webviews[i]).id
                != webview_id,
    ensures
        user_messages::effects_of(
            platform,
            report,
            windows,
            browsers,
            Message::<u8>::Webview(id, webview_id, message),
        ).len() == 0,
        user_messages::windows_after(
            platform,
            windows,
            Message::<u8>::Webview(id, webview_id, message),
        ) == windows,
{
    if windows.contains_key(id) {
        store::lemma_webview_index(windows[id].webviews, webview_id);
    }
}

/// What the application asks of the event loop itself is done as it stands: tasks are run,
/// the application is shown or hidden, stores of data are listed or removed, and windows and
/// webviews are created under the identifiers that they were given. No window changes yet.
pub proof fn lemma_application_is_served(
    platform: Platform,
    report: WindowReport,
    windows: Map<WindowId, WindowModel>,
    browsers: Seq<Option<i32>>,
    task: TaskId,
    visible: bool,
    data: DataStoreId,
    id: WindowId,
    webview_id: WebviewId,
    some_webview: Option<WebviewId>,
    cell: WindowCell,
    reply: ReplyId,
)
    ensures
        ({
            let does = |message: Message<u8>, action: Action|
                {
                    &&& user_messages::effects_of(platform, report, windows, browsers, message)
                        == seq![EffectModel::Do(action)]
                    &&& user_messages::windows_after(platform, windows, message) == windows
                };
            &&& does(Message::Task(task), Action::RunTask(task))
            &&& does(Message::SetDockVisibility(visible), Action::SetDockVisibility(visible))
            &&& does(Message::Application(ApplicationMessage::Show), Action::ShowApplication)
            &&& does(Message::Application(ApplicationMessage::Hide), Action::HideApplication)
            &&& does(
                Message::Application(ApplicationMessage::FetchDataStoreIdentifiers(task)),
                Action::FetchDataStoreIdentifiers(task),
            )
            &&& does(
                Message::Application(ApplicationMessage::RemoveDataStore(data, task)),
                Action::RemoveDataStore(data, task),
            )
            &&& does(
                Message::CreateWindow(id, some_webview, task),
                Action::CreateWindow { window_id: id, webview_id: some_webview, task },
            )
            &&& does(
                Message::CreateRawWindow(id, task, reply),
                Action::BuildRawWindow { window_id: id, task, reply },
            )
            &&& windows.contains_key(id) && windows[id].inner is Some ==> does(
                Message::CreateWebview(id, webview_id, cell, task),
                Action::CreateWebview {
                    window: windows[id].inner->Some_0,
                    window_id: id,
                    webview_id,
                    cell,
                    task,
                },
            )
            &&& does(
                Message::EventLoopWindowTarget(EventLoopWindowTargetMessage::CursorPosition(reply)),
                Action::ReplyCursorPosition(reply),
            )
        }),
{
}

/// Activation policies, color schemes and filters of device events keep their names on the
/// way to the window system. An unknown policy is a regular one, and an unknown color scheme
/// is that of the system.
pub proof fn lemma_settings_keep_their_names(
    platform: Platform,
    report: WindowReport,
    windows: Map<WindowId, WindowModel>,
    browsers: Seq<Option<i32>>,
)
    ensures
        ({
            let does = |message: Message<u8>, action: Action|
                user_messages::effects_of(platform, report, windows, browsers, message) == seq![
                    EffectModel::Do(action),
                ];
            let policy = |from: ActivationPolicy, to: TaoActivationPolicy|
                does(Message::SetActivationPolicy(from), Action::SetActivationPolicy(to));
            let theme = |from: Option<Theme>, to: Option<TaoTheme>|
                does(
                    Message::EventLoopWindowTarget(EventLoopWindowTargetMessage::SetTheme(from)),
                    Action::SetTheme(to),
                );
            let filter = |from: DeviceEventFilter, to: TaoDeviceEventFilter|
                does(
                    Message::EventLoopWindowTarget(
                        EventLoopWindowTargetMessage::SetDeviceEventFilter(from),
                    ),
                    Action::SetDeviceEventFilter(to),
                );
            &&& policy(ActivationPolicy::Regular, TaoActivationPolicy::Regular)
            &&& policy(ActivationPolicy::Accessory, TaoActivationPolicy::Accessory)
            &&& policy(ActivationPolicy::Prohibited, TaoActivationPolicy::Prohibited)
            &&& policy(ActivationPolicy::Other, TaoActivationPolicy::Regular)
            &&& theme(Some(Theme::Light), Some(TaoTheme::Light))
            &&& theme(Some(Theme::Dark), Some(TaoTheme::Dark))
            &&& theme(Some(Theme::Other), None)
            &&& theme(None, None)
            &&& filter(DeviceEventFilter::Always, TaoDeviceEventFilter::Always)
            &&& filter(DeviceEventFilter::Never, TaoDeviceEventFilter::Never)
            &&& filter(DeviceEventFilter::Unfocused, TaoDeviceEventFilter::Unfocused)
        }),
{
}

/// A listener that is added to a window that is open is added to it and to no other window.
/// No other message to a window changes the windows by itself.
pub proof fn lemma_window_is_listened_to(
    platform: Platform,
    windows: Map<WindowId, WindowModel>,
    id: WindowId,
    listener: u32,
    handler: HandlerId,
    message: WindowMessage,
)
    requires
        windows.contains_key(id),
        windows[id].inner is Some,
    ensures
        user_messages::windows_after(
            platform,
            windows,
            Message::<u8>::Window(id, WindowMessage::AddEventListener(listener, handler)),
        ) == windows.insert(
            id,
            WindowModel {
                listeners: store::with_listener(windows[id].listeners, listener, handler),
                ..windows[id]
            },
        ),
        !(message is AddEventListener) ==> user_messages::windows_after(
            platform,
            windows,
            Message::<u8>::Window(id, message),
        ) == windows,
{
}

} // verus!
