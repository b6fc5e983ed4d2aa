//! What can be asked of a webview.

use crate::browser_slot;
use crate::browser_slot::{BrowserSlot, BrowserSlots};
use crate::cef_calls;
use crate::cef_calls::{CallOf, CallSequence, OnFailure, SequenceState, Step, StepModel};
use crate::config;
use crate::runtime::color::Color;
use crate::runtime::dpi::{Float64, PhysicalRect, PhysicalSize};
use crate::runtime::geometry;
use crate::runtime::platform::Platform;
use crate::runtime::store::WebviewWrapper;
use crate::runtime::webview_error::WebviewError;
use crate::text;
use vstd::prelude::*;

verus! {

/// The alpha channel of a color in ten-thousandths, rounded.
pub open spec fn alpha_ten_thousandths(alpha: u8) -> int {
    (alpha * 20000 + 255) / 510
}

/// The alpha channel of a color as a fraction with four decimal places.
pub open spec fn alpha_text(alpha: u8) -> Seq<char> {
    let value = alpha_ten_thousandths(alpha);
    text::decimal_text((value / 10000) as nat) + "."@ + text::padded_text((value % 10000) as nat, 4)
}

/// The rounded value is the one nearest to the channel, which is never halfway
/// between two.
pub proof fn lemma_alpha_is_nearest(alpha: u8)
    ensures
        -255 < 2 * (255 * alpha_ten_thousandths(alpha) - 10000 * alpha) < 255,
{
    let value = alpha_ten_thousandths(alpha);
    assert(510 * value <= alpha * 20000 + 255 < 510 * value + 510);
    assert(alpha * 20000 + 255 != 510 * value) by {
        assert((alpha * 20000 + 255) % 10 == 5) by {
            assert(alpha * 20000 == 10 * (alpha * 2000));
        }
        assert((510 * value) % 10 == 0) by {
            assert(510 * value == 10 * (51 * value));
        }
    }
}

fn alpha_fraction(alpha: u8) -> (fraction: String)
    ensures
        fraction@ == alpha_text(alpha),
{
    let value: u64 = (alpha as u64 * 20000 + 255) / 510;
    let mut fraction = text::decimal(value / 10000);
    fraction.append(".");
    fraction.append(text::padded_decimal(value % 10000, 4).as_str());
    fraction
}

/// The script that gives a page a background color.
pub open spec fn background_script(color: Color) -> Seq<char> {
    "(() => { const c = 'rgba("@ + text::decimal_text(color.r as nat) + ", "@ + text::decimal_text(
        color.g as nat,
    ) + ", "@ + text::decimal_text(color.b as nat) + ", "@ + alpha_text(color.a)
        + ")'; document.documentElement.style.backgroundColor = c; if (document.body) document.body.style.backgroundColor = c; })();"@
}

/// The script that gives a page a background color.
pub fn background_color_script(color: Color) -> (script: String)
    ensures
        script@ == background_script(color),
{
    let mut script = "(() => { const c = 'rgba(".to_string();
    script.append(text::decimal(color.r as u64).as_str());
    script.append(", ");
    script.append(text::decimal(color.g as u64).as_str());
    script.append(", ");
    script.append(text::decimal(color.b as u64).as_str());
    script.append(", ");
    script.append(alpha_fraction(color.a).as_str());
    script.append(
        ")'; document.documentElement.style.backgroundColor = c; if (document.body) document.body.style.backgroundColor = c; })();",
    );
    script
}

/// The calls that give the page in a browser a background color.
pub open spec fn background_calls(slot: Option<i32>, color: Color) -> SequenceState {
    browser_slot::on_browser(slot, browser_slot::eval_steps(background_script(color)), false)
}

/// Gives the page in a browser a background color.
pub fn apply_background_color(
    browsers: &BrowserSlots,
    slot: &BrowserSlot,
    color: Color,
) -> (calls: CallSequence)
    ensures
        calls@ == background_calls(slot.browser(browsers@), color),
{
    let script = background_color_script(color);
    slot.eval(browsers, script.as_str())
}

/// What becomes of an operation that needs a browser, by the outcome of its calls.
pub fn browser_result(outcome: bool) -> (result: Result<(), WebviewError>)
    ensures
        result == if outcome {
            Ok(())
        } else {
            Err(WebviewError::BrowserUnavailable)
        },
{
    if outcome {
        Ok(())
    } else {
        Err(WebviewError::BrowserUnavailable)
    }
}

/// A call on the host of a browser.
pub open spec fn host_steps(call: CallOf<Seq<char>>) -> Seq<StepModel> {
    seq![cef_calls::required(CallOf::Host), cef_calls::always(call)]
}

/// A call on the host of a browser, if there is one.
pub open spec fn host_steps_if_any(call: CallOf<Seq<char>>) -> Seq<StepModel> {
    seq![browser_slot::helpful(CallOf::Host), cef_calls::always(call)]
}

/// The calls that ask whether the developer tools of a browser are open.
pub open spec fn devtools_query_steps() -> Seq<StepModel> {
    seq![cef_calls::required(CallOf::Host), cef_calls::required(CallOf::HasDevTools)]
}

/// A call on the host of the browser in a slot.
pub open spec fn host_calls(slot: Option<i32>, call: CallOf<Seq<char>>) -> SequenceState {
    browser_slot::on_browser(slot, host_steps(call), false)
}

/// A call on the host of the browser in a slot, if there is one.
pub open spec fn host_calls_if_any(slot: Option<i32>, call: CallOf<Seq<char>>) -> SequenceState {
    browser_slot::on_browser(slot, host_steps_if_any(call), true)
}

fn on_host(
    browsers: &BrowserSlots,
    slot: &BrowserSlot,
    call: cef_calls::CefCall,
) -> (calls: CallSequence)
    ensures
        calls@ == host_calls(slot.browser(browsers@), call@),
{
    if slot.current(browsers).is_some() {
        let steps: Vec<Step> = vec![Step::required(CallOf::Host), Step::always(call)];
        assert(steps@.map_values(|step: Step| step@) =~= host_steps(call@));
        CallSequence::of(steps)
    } else {
        CallSequence::ended(false)
    }
}

fn on_host_if_any(
    browsers: &BrowserSlots,
    slot: &BrowserSlot,
    call: cef_calls::CefCall,
) -> (calls: CallSequence)
    ensures
        calls@ == host_calls_if_any(slot.browser(browsers@), call@),
{
    if slot.current(browsers).is_some() {
        let steps: Vec<Step> = vec![
            Step { call: CallOf::Host, on_failure: OnFailure::Stop(true) },
            Step::always(call),
        ];
        assert(steps@.map_values(|step: Step| step@) =~= host_steps_if_any(call@));
        CallSequence::of(steps)
    } else {
        CallSequence::ended(true)
    }
}

/// Gives the focus to a browser, or takes it.
pub fn set_browser_focus(
    browsers: &BrowserSlots,
    slot: &BrowserSlot,
    focused: bool,
) -> (calls: CallSequence)
    ensures
        calls@ == host_calls_if_any(
            slot.browser(browsers@),
            CallOf::SetFocus(config::flag_value(focused)),
        ),
{
    on_host_if_any(browsers, slot, CallOf::SetFocus(config::flag(focused)))
}

/// Tells a browser that renders off screen that its size changed.
pub fn notify_osr_resized(browsers: &BrowserSlots, slot: &BrowserSlot) -> (calls: CallSequence)
    ensures
        calls@ == host_calls_if_any(slot.browser(browsers@), CallOf::WasResized),
{
    on_host_if_any(browsers, slot, CallOf::WasResized)
}

/// Tells a browser that moves its own surface that something changed.
pub fn notify_child(browsers: &BrowserSlots, slot: &BrowserSlot) -> (calls: CallSequence)
    ensures
        calls@ == host_calls_if_any(slot.browser(browsers@), CallOf::NotifyMoveOrResizeStarted),
{
    on_host_if_any(browsers, slot, CallOf::NotifyMoveOrResizeStarted)
}

/// Shows the developer tools of a browser.
pub fn show_devtools(browsers: &BrowserSlots, slot: &BrowserSlot) -> (calls: CallSequence)
    ensures
        calls@ == host_calls_if_any(slot.browser(browsers@), CallOf::ShowDevTools),
{
    on_host_if_any(browsers, slot, CallOf::ShowDevTools)
}

impl WebviewWrapper {
    /// Runs a script.
    pub fn evaluate_script(&self, browsers: &BrowserSlots, script: &str) -> (calls: CallSequence)
        ensures
            calls@ == browser_slot::on_browser(
                self@.browser(browsers@),
                browser_slot::eval_steps(script@),
                false,
            ),
    {
        self.browser_slot.eval(browsers, script)
    }

    /// Loads a URL.
    pub fn load_url(&self, browsers: &BrowserSlots, url: &str) -> (calls: CallSequence)
        ensures
            calls@ == browser_slot::on_browser(
                self@.browser(browsers@),
                browser_slot::load_url_steps(url@),
                false,
            ),
    {
        self.browser_slot.load_url(browsers, url)
    }

    /// Loads the page anew.
    pub fn reload(&self, browsers: &BrowserSlots) -> (calls: CallSequence)
        ensures
            calls@ == browser_slot::on_browser(
                self@.browser(browsers@),
                browser_slot::reload_steps(false),
                false,
            ),
    {
        self.browser_slot.reload(browsers, false)
    }

    /// Shows or hides the webview.
    pub fn set_visible(&self, browsers: &BrowserSlots, visible: bool) -> (calls: CallSequence)
        ensures
            calls@ == host_calls(
                self@.browser(browsers@),
                CallOf::WasHidden(config::flag_value(!visible)),
            ),
    {
        on_host(browsers, &self.browser_slot, CallOf::WasHidden(config::flag(!visible)))
    }

    /// Prints the page.
    pub fn print(&self, browsers: &BrowserSlots) -> (calls: CallSequence)
        ensures
            calls@ == host_calls(self@.browser(browsers@), CallOf::Print),
    {
        on_host(browsers, &self.browser_slot, CallOf::Print)
    }

    /// Zooms the page to a level.
    pub fn zoom(&self, browsers: &BrowserSlots, level: Float64) -> (calls: CallSequence)
        ensures
            calls@ == host_calls(self@.browser(browsers@), CallOf::SetZoomLevel(level.bits)),
    {
        on_host(browsers, &self.browser_slot, CallOf::SetZoomLevel(level.bits))
    }

    /// Gives the webview the focus.
    pub fn focus(&self, browsers: &BrowserSlots) -> (calls: CallSequence)
        ensures
            calls@ == host_calls(self@.browser(browsers@), CallOf::SetFocus(1)),
    {
        on_host(browsers, &self.browser_slot, CallOf::SetFocus(1))
    }

    /// Opens the developer tools.
    pub fn open_devtools(&self, browsers: &BrowserSlots) -> (calls: CallSequence)
        ensures
            calls@ == host_calls_if_any(self@.browser(browsers@), CallOf::ShowDevTools),
    {
        show_devtools(browsers, &self.browser_slot)
    }

    /// Closes the developer tools.
    pub fn close_devtools(&self, browsers: &BrowserSlots) -> (calls: CallSequence)
        ensures
            calls@ == host_calls_if_any(self@.browser(browsers@), CallOf::CloseDevTools),
    {
        on_host_if_any(browsers, &self.browser_slot, CallOf::CloseDevTools)
    }

    /// Asks whether the developer tools are open. They are if the calls succeed.
    pub fn is_devtools_open(&self, browsers: &BrowserSlots) -> (calls: CallSequence)
        ensures
            calls@ == browser_slot::on_browser(
                self@.browser(browsers@),
                devtools_query_steps(),
                false,
            ),
    {
        if self.browser_slot.current(browsers).is_some() {
            let steps: Vec<Step> = vec![
                Step::required(CallOf::Host),
                Step::required(CallOf::HasDevTools),
            ];
            assert(steps@.map_values(|step: Step| step@) =~= devtools_query_steps());
            CallSequence::of(steps)
        } else {
            CallSequence::ended(false)
        }
    }

    /// The URL of the page. `frame_url` is that of the main frame, if the browser has
    /// one.
    pub fn url(
        &self,
        browsers: &BrowserSlots,
        frame_url: Option<String>,
    ) -> (result: Result<String, WebviewError>)
        ensures
            result == match (self@.browser(browsers@), frame_url) {
                (Some(_), Some(url)) => Ok(url),
                _ => Err(WebviewError::BrowserUnavailable),
            },
    {
        match (self.browser_slot.current(browsers), frame_url) {
            (Some(_), Some(url)) => Ok(url),
            _ => Err(WebviewError::BrowserUnavailable),
        }
    }
}

/// The developer tools count as open only if the browser has a host that says so.
pub proof fn lemma_devtools_answer(answers: Seq<i32>)
    requires
        answers.len() >= 2,
    ensures
        cef_calls::run(devtools_query_steps(), answers).1 <==> answers[0] != 0 && answers[1] != 0,
{
    let steps = devtools_query_steps();
    assert(steps.drop_first()[0] == steps[1]);
    assert(answers.drop_first()[0] == answers[1]);
    reveal_with_fuel(cef_calls::run, 3);
}

/// How the native window of a browser follows its webview.
#[derive(Debug, Clone, Copy, PartialEq, Eq, Structural)]
pub enum ChildMove {
    /// The window system moves the browser by itself.
    Nothing,
    /// CEF moves its own surface once it is told that something changed, as `notify_child`
    /// does.
    NotifyBrowser,
    /// The window with this handle is moved, resized and raised.
    MoveWindow { handle: u64, x: i32, y: i32, width: u32, height: u32 },
}

/// What the host of a browser says of its native window: its handle, or zero.
#[derive(Debug, Clone, Copy, PartialEq, Eq, Structural)]
pub struct ChildReport {
    pub window_handle: u64,
    /// The window of the webview is a surface of Wayland.
    pub is_wayland: bool,
}

/// How the native window of a browser follows its webview. `host` is what the host
/// of the browser says, if there is one.
pub open spec fn child_move(
    platform: Platform,
    slot: Option<i32>,
    host: Option<ChildReport>,
    bounds: PhysicalRect,
    window: PhysicalSize<u32>,
) -> Result<ChildMove, WebviewError> {
    if platform != Platform::Linux {
        Ok(ChildMove::Nothing)
    } else if slot is None {
        Err(WebviewError::BrowserUnavailable)
    } else {
        match host {
            None => Err(WebviewError::HostUnavailable),
            Some(host) => if host.window_handle == 0 {
                Err(WebviewError::ChildHandleUnavailable)
            } else if host.is_wayland {
                Ok(ChildMove::NotifyBrowser)
            } else {
                let rect = geometry::sanitized(bounds, window);
                Ok(
                    ChildMove::MoveWindow {
                        handle: host.window_handle,
                        x: rect.position.x,
                        y: rect.position.y,
                        width: geometry::at_least_one(rect.size.width),
                        height: geometry::at_least_one(rect.size.height),
                    },
                )
            },
        }
    }
}

fn at_least_one(extent: u32) -> (result: u32)
    ensures
        result == geometry::at_least_one(extent),
{
    if extent == 0 {
        1
    } else {
        extent
    }
}

/// Lets the native window of a browser follow its webview.
pub fn move_resize_browser_child(
    platform: Platform,
    browsers: &BrowserSlots,
    slot: &BrowserSlot,
    host: Option<ChildReport>,
    bounds: PhysicalRect,
    window: PhysicalSize<u32>,
) -> (result: Result<ChildMove, WebviewError>)
    ensures
        result == child_move(platform, slot.browser(browsers@), host, bounds, window),
{
    if platform != Platform::Linux {
        return Ok(ChildMove::Nothing);
    }
    if slot.current(browsers).is_none() {
        return Err(WebviewError::BrowserUnavailable);
    }
    let host = match host {
        Some(host) => host,
        None => {
            return Err(WebviewError::HostUnavailable);
        },
    };
    if host.window_handle == 0 {
        return Err(WebviewError::ChildHandleUnavailable);
    }
    if host.is_wayland {
        return Ok(ChildMove::NotifyBrowser);
    }
    let rect = geometry::sanitize_bounds_for_window(bounds, window);
    Ok(
        ChildMove::MoveWindow {
            handle: host.window_handle,
            x: rect.position.x,
            y: rect.position.y,
            width: at_least_one(rect.size.width),
            height: at_least_one(rect.size.height),
        },
    )
}

/// Whether a native window can be moved, by what the X11 libraries give.
pub fn x11_available(xlib_opened: bool, display_opened: bool) -> (result: Result<(), WebviewError>)
    ensures
        result == if !xlib_opened {
            Err(WebviewError::XlibUnavailable)
        } else if !display_opened {
            Err(WebviewError::DisplayUnavailable)
        } else {
            Ok(())
        },
{
    if !xlib_opened {
        return Err(WebviewError::XlibUnavailable);
    }
    if !display_opened {
        return Err(WebviewError::DisplayUnavailable);
    }
    Ok(())
}

/// A native window is moved to where its webview is: within the window of the
/// application, and never to an empty rectangle.
pub proof fn lemma_native_window_lies_in_window(
    slot: Option<i32>,
    host: Option<ChildReport>,
    bounds: PhysicalRect,
    window: PhysicalSize<u32>,
)
    requires
        window.width > 0,
        window.height > 0,
    ensures
        child_move(Platform::Linux, slot, host, bounds, window) matches Ok(
            ChildMove::MoveWindow { handle, x, y, width, height },
        ) ==> {
            &&& handle != 0
            &&& 0 <= x && 1 <= width && x + width <= window.width
            &&& 0 <= y && 1 <= height && y + height <= window.height
        },
{
    geometry::lemma_webview_lies_in_window(bounds, window);
}

/// The alpha channel is shown as a fraction of one with four decimal places: the one nearest
/// to the share of the channel.
pub proof fn lemma_alpha_is_shown(alpha: u8, shown: Seq<char>)
    requires
        shown == alpha_text(alpha),
    ensures
        shown.len() == 6,
        shown[1] == '.',
        text::is_digits(shown.take(1)),
        text::is_digits(shown.skip(2)),
        ({
            let value = 10000 * text::number_of(shown.take(1)) + text::number_of(shown.skip(2));
            -255 < 2 * (255 * value - 10000 * alpha) < 255
        }),
{
    let value = alpha_ten_thousandths(alpha);
    let whole = text::decimal_text((value / 10000) as nat);
    let rest = text::padded_text((value % 10000) as nat, 4);
    reveal_strlit(".");
    lemma_alpha_is_nearest(alpha);
    text::lemma_decimal_is_read_back((value / 10000) as nat);
    text::lemma_padded_text_is_read_back((value % 10000) as nat, 4);
    assert(0 <= value <= 10000);
    assert(shown.take(1) =~= whole);
    assert(shown.skip(2) =~= rest);
    assert(shown[1] == "."@[0]);
}

/// The script for a background color names red, green and blue by their numbers and alpha as
/// a fraction, and colors the document and its body.
pub proof fn lemma_background_script_names_the_color(color: Color, script: String)
    requires
        call_ensures(background_color_script, (color,), script),
    ensures
        script@ == "(() => { const c = 'rgba("@ + text::decimal_text(color.r as nat) + ", "@
            + text::decimal_text(color.g as nat) + ", "@ + text::decimal_text(color.b as nat)
            + ", "@ + alpha_text(color.a)
            + ")'; document.documentElement.style.backgroundColor = c; if (document.body) document.body.style.backgroundColor = c; })();"@,
{
}

/// An operation that needs a browser succeeds exactly if its calls did; the URL of a page is
/// that of its main frame, if there is a browser and it has one.
pub proof fn lemma_outcome_is_the_result(
    outcome: bool,
    result: Result<(), WebviewError>,
    webview: &WebviewWrapper,
    browsers: &BrowserSlots,
    frame_url: Option<String>,
    url: Result<String, WebviewError>,
)
    requires
        call_ensures(browser_result, (outcome,), result),
        call_ensures(WebviewWrapper::url, (webview, browsers, frame_url), url),
    ensures
        outcome <==> result is Ok,
        result matches Err(error) ==> error == WebviewError::BrowserUnavailable,
        url is Ok <==> webview@.slot.browser(browsers@) is Some && frame_url is Some,
        url matches Ok(url) ==> frame_url == Some(url),
        url matches Err(error) ==> error == WebviewError::BrowserUnavailable,
{
}

/// The host of a browser is told of the zoom level, of a new size and of a move as they are.
/// Only zooming needs a host.
pub proof fn lemma_host_is_told(
    webview: &WebviewWrapper,
    browsers: &BrowserSlots,
    slot: &BrowserSlot,
    level: Float64,
    zoomed: CallSequence,
    resized: CallSequence,
    moved: CallSequence,
)
    requires
        call_ensures(WebviewWrapper::zoom, (webview, browsers, level), zoomed),
        call_ensures(notify_osr_resized, (browsers, slot), resized),
        call_ensures(notify_child, (browsers, slot), moved),
    ensures
        webview@.slot.browser(browsers@) is Some ==> zoomed@.outcome is None
            && zoomed@.remaining == seq![
            StepModel { call: CallOf::Host, on_failure: OnFailure::Stop(false) },
            StepModel {
                call: CallOf::SetZoomLevel(level.bits),
                on_failure: OnFailure::Continue,
            },
        ],
        webview@.slot.browser(browsers@) is None ==> zoomed@.outcome == Some(false),
        slot.browser(browsers@) is Some ==> resized@.outcome is None && resized@.remaining == seq![
            StepModel { call: CallOf::Host, on_failure: OnFailure::Stop(true) },
            StepModel { call: CallOf::WasResized, on_failure: OnFailure::Continue },
        ],
        slot.browser(browsers@) is None ==> resized@.outcome == Some(true),
        slot.browser(browsers@) is Some ==> moved@.outcome is None && moved@.remaining == seq![
            StepModel { call: CallOf::Host, on_failure: OnFailure::Stop(true) },
            StepModel {
                call: CallOf::NotifyMoveOrResizeStarted,
                on_failure: OnFailure::Continue,
            },
        ],
        slot.browser(browsers@) is None ==> moved@.outcome == Some(true),
{
}

/// On Linux a native window follows its webview by its handle, or by word to the browser
/// where the window is a surface of Wayland; it cannot without a browser, a host or a handle.
/// Elsewhere the window system sees to it.
pub proof fn lemma_native_window_follows(
    platform: Platform,
    browsers: &BrowserSlots,
    slot: &BrowserSlot,
    host: Option<ChildReport>,
    bounds: PhysicalRect,
    window: PhysicalSize<u32>,
    result: Result<ChildMove, WebviewError>,
)
    requires
        call_ensures(
            move_resize_browser_child,
            (platform, browsers, slot, host, bounds, window),
            result,
        ),
    ensures
        platform != Platform::Linux ==> result == Ok::<ChildMove, WebviewError>(ChildMove::Nothing),
        platform == Platform::Linux ==> {
            let browser = slot.browser(browsers@);
            &&& browser is None ==> result == Err::<ChildMove, WebviewError>(
                WebviewError::BrowserUnavailable,
            )
            &&& browser is Some && host is None ==> result == Err::<ChildMove, WebviewError>(
                WebviewError::HostUnavailable,
            )
            &&& browser is Some && host is Some && host->Some_0.window_handle == 0 ==> result
                == Err::<ChildMove, WebviewError>(WebviewError::ChildHandleUnavailable)
            &&& browser is Some && host is Some && host->Some_0.window_handle != 0
                && host->Some_0.is_wayland ==> result == Ok::<ChildMove, WebviewError>(
                ChildMove::NotifyBrowser,
            )
            &&& browser is Some && host is Some && host->Some_0.window_handle != 0
                && !host->Some_0.is_wayland ==> {
                &&& result matches Ok(ChildMove::MoveWindow { handle, x, y, width, height })
                &&& handle == host->Some_0.window_handle
                &&& 1 <= width && 1 <= height && 0 <= x && 0 <= y
                &&& bounds.size.width > 1 && bounds.size.height > 1 && 0 <= bounds.position.x && 0
                    <= bounds.position.y && bounds.position.x + bounds.size.width <= window.width
                    && bounds.position.y + bounds.size.height <= window.height ==> {
                    &&& (x, y) == (bounds.position.x, bounds.position.y)
                    &&& (width, height) == (bounds.size.width, bounds.size.height)
                }
            }
        },
{
}

/// Each operation on a webview with a browser makes its own call, on the host or in the main
/// frame, with what it says.
pub proof fn lemma_webviews_make_their_calls(
    webview: &WebviewWrapper,
    browsers: &BrowserSlots,
    on: bool,
    text: &str,
    shown: CallSequence,
    focused: CallSequence,
    told_of_focus: CallSequence,
    tools: CallSequence,
    run: CallSequence,
    xlib: bool,
    display: bool,
    available: Result<(), WebviewError>,
)
    requires
        webview@.browser(browsers@) is Some,
        call_ensures(WebviewWrapper::set_visible, (webview, browsers, on), shown),
        call_ensures(WebviewWrapper::focus, (webview, browsers), focused),
        call_ensures(set_browser_focus, (browsers, &webview.browser_slot, on), told_of_focus),
        call_ensures(show_devtools, (browsers, &webview.browser_slot), tools),
        call_ensures(WebviewWrapper::evaluate_script, (webview, browsers, text), run),
        call_ensures(x11_available, (xlib, display), available),
    ensures
        shown@.remaining.len() == 2 && shown@.remaining[0].call == CallOf::<Seq<char>>::Host,
        on ==> shown@.remaining[1].call == CallOf::<Seq<char>>::WasHidden(0),
        !on ==> shown@.remaining[1].call == CallOf::<Seq<char>>::WasHidden(1),
        focused@.remaining.len() == 2,
        focused@.remaining[1].call == CallOf::<Seq<char>>::SetFocus(1),
        told_of_focus@.remaining.len() == 2,
        on ==> told_of_focus@.remaining[1].call == CallOf::<Seq<char>>::SetFocus(1),
        !on ==> told_of_focus@.remaining[1].call == CallOf::<Seq<char>>::SetFocus(0),
        tools@.remaining.len() == 2,
        tools@.remaining[1].call == CallOf::<Seq<char>>::ShowDevTools,
        run@.remaining.len() == 2,
        run@.remaining[1].call == (CallOf::ExecuteJavaScript {
            code: text@,
            script_url: "tauri-runtime-cef://eval"@,
            start_line: 1,
        }),
        available is Ok <==> xlib && display,
        !xlib ==> available == Err::<(), WebviewError>(WebviewError::XlibUnavailable),
        xlib && !display ==> available == Err::<(), WebviewError>(
            WebviewError::DisplayUnavailable,
        ),
{
}

} // verus!
