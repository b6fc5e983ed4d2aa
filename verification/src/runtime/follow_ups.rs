//! The second half of what takes the window system or CEF in between.

use crate::browser_slot;
use crate::browser_slot::BrowserSlots;
use crate::cef_calls::{CallOf, CallSequence};
use crate::runtime::color::Color;
use crate::runtime::conversions::Error;
use crate::runtime::dpi::{PhysicalRect, PhysicalSize};
use crate::runtime::geometry;
use crate::runtime::messages::RateUpdate;
use crate::runtime::platform::Platform;
use crate::runtime::store;
use crate::runtime::store::{
    Listeners, TaoWindowId, WebviewBounds, WebviewId, WebviewModel, WindowId, WindowIdStore,
    WindowModel, WindowWrapper, WindowsStore,
};
use vstd::prelude::*;

verus! {

/// The shares of a webview after some of them were measured anew.
pub open spec fn updated(
    bounds: Option<WebviewBounds>,
    fresh: WebviewBounds,
    update: RateUpdate,
) -> Option<WebviewBounds> {
    match bounds {
        Some(bounds) => match update {
            RateUpdate::Keep => Some(bounds),
            RateUpdate::PositionAndSize => Some(fresh),
            RateUpdate::SizeOnly => Some(
                WebviewBounds {
                    width_rate: fresh.width_rate,
                    height_rate: fresh.height_rate,
                    ..bounds
                },
            ),
            RateUpdate::PositionOnly => Some(
                WebviewBounds { x_rate: fresh.x_rate, y_rate: fresh.y_rate, ..bounds },
            ),
        },
        None => None,
    }
}

/// The shares of a webview after some of them were measured anew.
pub fn updated_rates(
    bounds: Option<WebviewBounds>,
    fresh: WebviewBounds,
    update: RateUpdate,
) -> (result: Option<WebviewBounds>)
    ensures
        result == updated(bounds, fresh, update),
{
    match bounds {
        Some(bounds) => match update {
            RateUpdate::Keep => Some(bounds),
            RateUpdate::PositionAndSize => Some(fresh),
            RateUpdate::SizeOnly => Some(
                WebviewBounds {
                    x_rate: bounds.x_rate,
                    y_rate: bounds.y_rate,
                    width_rate: fresh.width_rate,
                    height_rate: fresh.height_rate,
                },
            ),
            RateUpdate::PositionOnly => Some(
                WebviewBounds {
                    x_rate: fresh.x_rate,
                    y_rate: fresh.y_rate,
                    width_rate: bounds.width_rate,
                    height_rate: bounds.height_rate,
                },
            ),
        },
        None => None,
    }
}

/// A webview with other bounds.
#[derive(Debug)]
pub struct BoundsSet {
    pub browser: Option<i32>,
    /// Where the native window of the browser goes.
    pub rect: PhysicalRect,
    /// What the browser is told once its native window is there.
    pub notification: CallSequence,
}

/// A webview after it got bounds in a window.
pub open spec fn with_bounds(
    webview: WebviewModel,
    bounds: PhysicalRect,
    window: PhysicalSize<u32>,
    fresh: WebviewBounds,
    update: RateUpdate,
) -> WebviewModel {
    WebviewModel {
        rect: geometry::sanitized(bounds, window).as_rect_spec(),
        bounds: updated(webview.bounds, fresh, update),
        ..webview
    }
}

/// Gives a webview other bounds: keeps them within the window, and notes them.
///
/// `bounds` and `window` are in pixels. `fresh` are the shares of the window that
/// the bounds take; `update` says which of them are noted. There is no result where
/// there is no such webview.
pub fn set_webview_bounds(
    windows: &mut WindowsStore,
    browsers: &BrowserSlots,
    id: WindowId,
    webview_id: WebviewId,
    bounds: PhysicalRect,
    window: PhysicalSize<u32>,
    fresh: WebviewBounds,
    update: RateUpdate,
) -> (result: Option<BoundsSet>)
    ensures
        match store::webview_in(old(windows)@, id, webview_id) {
            Some(webview) => {
                &&& final(windows)@ == store::with_changed_webview(
                    old(windows)@,
                    id,
                    webview_id,
                    with_bounds(webview, bounds, window, fresh, update),
                )
                &&& result is Some
                &&& result->Some_0.browser == webview.browser(browsers@)
                &&& result->Some_0.rect == geometry::sanitized(bounds, window)
                &&& result->Some_0.notification@ == browser_slot::on_browser(
                    webview.browser(browsers@),
                    browser_slot::resize_steps(),
                    true,
                )
            },
            None => final(windows)@ == old(windows)@ && result is None,
        },
{
    let rect = geometry::sanitize_bounds_for_window(bounds, window);
    let (slot, rates) = match windows.get(id) {
        Some(window) => {
            let at: usize = store::position_of_webview(&window.webviews, webview_id);
            if at < window.webviews.len() {
                let webview = &window.webviews[at];
                (webview.browser_slot, updated_rates(webview.bounds, fresh, update))
            } else {
                return None;
            }
        },
        None => {
            return None;
        },
    };
    let ghost webview = store::webview_in(windows@, id, webview_id)->Some_0;
    proof {
        store::lemma_webview_index(windows@[id].webviews, webview_id);
    }
    windows.set_webview_rates(id, webview_id, rates);
    proof {
        lemma_change_is_found(
            old(windows)@,
            id,
            webview_id,
            WebviewModel { bounds: rates, ..webview },
        );
    }
    windows.set_webview_rect(id, webview_id, rect.as_rect());
    proof {
        lemma_second_change_counts(
            old(windows)@,
            id,
            webview_id,
            WebviewModel { bounds: rates, ..webview },
            with_bounds(webview, bounds, window, fresh, update),
        );
    }
    Some(
        BoundsSet {
            browser: slot.current(browsers),
            rect,
            notification: slot.notify_resized(browsers),
        },
    )
}

/// A webview that was changed is found as it was changed.
pub proof fn lemma_change_is_found(
    windows: Map<WindowId, WindowModel>,
    id: WindowId,
    webview_id: WebviewId,
    webview: WebviewModel,
)
    requires
        store::webview_in(windows, id, webview_id) is Some,
        webview.id == webview_id,
    ensures
        store::webview_in(
            store::with_changed_webview(windows, id, webview_id, webview),
            id,
            webview_id,
        ) == Some(webview),
        store::webview_index(
            store::with_changed_webview(windows, id, webview_id, webview)[id].webviews,
            webview_id,
        ) == store::webview_index(windows[id].webviews, webview_id),
{
    let before = windows[id].webviews;
    let at = store::webview_index(before, webview_id);
    store::lemma_webview_index(before, webview_id);
    let after = before.update(at, webview);
    store::lemma_webview_index(after, webview_id);
    let found = store::webview_index(after, webview_id);
    if found < at {
        assert(after[found] == before[found]);
    }
    if at < found {
        assert(after[at].id != webview_id);
    }
}

/// Of two changes of a webview the second counts.
pub proof fn lemma_second_change_counts(
    windows: Map<WindowId, WindowModel>,
    id: WindowId,
    webview_id: WebviewId,
    first: WebviewModel,
    second: WebviewModel,
)
    requires
        store::webview_in(windows, id, webview_id) is Some,
        first.id == webview_id,
    ensures
        store::with_changed_webview(
            store::with_changed_webview(windows, id, webview_id, first),
            id,
            webview_id,
            second,
        ) == store::with_changed_webview(windows, id, webview_id, second),
{
    lemma_change_is_found(windows, id, webview_id, first);
    store::lemma_webview_index(windows[id].webviews, webview_id);
    let once = store::with_changed_webview(windows, id, webview_id, first);
    let before = windows[id].webviews;
    let at = store::webview_index(before, webview_id);
    assert(before.update(at, first).update(at, second) =~= before.update(at, second));
    assert(store::with_changed_webview(once, id, webview_id, second) =~= windows.insert(
        id,
        store::with_webview(windows[id], webview_id, second),
    ));
}

/// A window that the window system has built for the application, without webviews.
#[derive(Debug)]
pub struct RawWindow {
    pub window: TaoWindowId,
    pub label: String,
    pub background_color: Option<Color>,
    pub transparent: bool,
    /// The window system has a surface to draw the background on.
    pub surface: bool,
}

/// A window that holds no webview yet. Its background is drawn by the runtime only on
/// Windows, where it is transparent.
pub open spec fn raw_window(platform: Platform, raw: RawWindow) -> WindowModel {
    WindowModel {
        label: raw.label@,
        inner: Some(raw.window),
        has_children: false,
        webviews: Seq::empty(),
        listeners: Seq::empty(),
        background_color: if platform == Platform::Windows {
            raw.background_color
        } else {
            None
        },
        is_window_transparent: platform == Platform::Windows && raw.transparent,
        surface: platform == Platform::Windows && raw.transparent && raw.surface,
        focused_webview: None,
        osr_surface: false,
    }
}

/// Takes a window over that was built for the application, if it could be built.
pub fn raw_window_built(
    platform: Platform,
    windows: &mut WindowsStore,
    ids: &mut WindowIdStore,
    window_id: WindowId,
    built: Option<RawWindow>,
) -> (result: Result<(), Error>)
    ensures
        match built {
            Some(raw) => {
                &&& result is Ok
                &&& final(ids)@ == old(ids)@.insert(raw.window, window_id)
                &&& final(windows)@ == old(windows)@.insert(window_id, raw_window(platform, raw))
            },
            None => {
                &&& result == Err::<(), Error>(Error::CreateWindow)
                &&& final(ids)@ == old(ids)@
                &&& final(windows)@ == old(windows)@
            },
        },
{
    match built {
        Some(raw) => {
            ids.insert(raw.window, window_id);
            let on_windows = platform == Platform::Windows;
            let window = WindowWrapper {
                label: raw.label,
                inner: Some(raw.window),
                has_children: false,
                webviews: Vec::new(),
                window_event_listeners: Listeners::new(),
                background_color: if on_windows {
                    raw.background_color
                } else {
                    None
                },
                is_window_transparent: on_windows && raw.transparent,
                surface: on_windows && raw.transparent && raw.surface,
                focused_webview: None,
                osr_surface: false,
            };
            assert(window@ =~= raw_window(platform, raw));
            windows.insert(window_id, window);
            Ok(())
        },
        None => Err(Error::CreateWindow),
    }
}

/// What the receiver gets who asked a webview for the URL of its page. `frame_url` is
/// that of the main frame, if the browser of the webview has one.
pub fn url_asked(
    windows: &WindowsStore,
    browsers: &BrowserSlots,
    id: WindowId,
    webview_id: WebviewId,
    frame_url: Option<String>,
) -> (answer: Result<String, Error>)
    ensures
        answer == match (store::webview_in(windows@, id, webview_id), frame_url) {
            (Some(webview), Some(url)) => if webview.browser(browsers@) is Some {
                Ok(url)
            } else {
                Err(Error::FailedToSendMessage)
            },
            _ => Err(Error::FailedToSendMessage),
        },
{
    if let Some(window) = windows.get(id) {
        let at: usize = store::position_of_webview(&window.webviews, webview_id);
        if at < window.webviews.len() {
            proof {
                store::lemma_webview_index(windows@[id].webviews, webview_id);
            }
            if let Ok(url) = window.webviews[at].url(browsers, frame_url) {
                return Ok(url);
            }
        }
    }
    Err(Error::FailedToSendMessage)
}

/// Of the shares of a webview those are measured anew that a change is of, and the others are
/// kept. A webview without shares gets none.
pub proof fn lemma_shares_are_measured_anew(
    bounds: Option<WebviewBounds>,
    fresh: WebviewBounds,
    update: RateUpdate,
    result: Option<WebviewBounds>,
)
    requires
        call_ensures(updated_rates, (bounds, fresh, update), result),
    ensures
        bounds is None <==> result is None,
        bounds matches Some(kept) ==> {
            let moved = update is PositionAndSize || update is PositionOnly;
            let resized = update is PositionAndSize || update is SizeOnly;
            let shares = result->Some_0;
            &&& moved ==> shares.x_rate == fresh.x_rate && shares.y_rate == fresh.y_rate
            &&& !moved ==> shares.x_rate == kept.x_rate && shares.y_rate == kept.y_rate
            &&& resized ==> shares.width_rate == fresh.width_rate && shares.height_rate
                == fresh.height_rate
            &&& !resized ==> shares.width_rate == kept.width_rate && shares.height_rate
                == kept.height_rate
        },
{
}

/// A webview that gets bounds has them, kept within its window, and its browser is moved there
/// and told of its size. Every other window is as it was.
pub proof fn lemma_webview_gets_its_bounds(
    browsers: &BrowserSlots,
    id: WindowId,
    webview_id: WebviewId,
    bounds: PhysicalRect,
    window: PhysicalSize<u32>,
    fresh: WebviewBounds,
    update: RateUpdate,
    result: Option<BoundsSet>,
    kept: PhysicalRect,
    rates: Option<WebviewBounds>,
    other: WindowId,
)
    requires
        other != id,
        call_ensures(geometry::sanitize_bounds_for_window, (bounds, window), kept),
    ensures
        forall|windows: &mut WindowsStore| #[trigger]
            call_ensures(
                set_webview_bounds,
                (windows, browsers, id, webview_id, bounds, window, fresh, update),
                result,
            ) ==> {
                let (before, after) = ((*windows)@, (*final(windows))@);
                let webview = store::webview_in(before, id, webview_id);
                &&& result is Some <==> webview is Some
                &&& webview is None ==> after == before
                &&& webview matches Some(webview) ==> {
                    let changed = store::webview_in(after, id, webview_id);
                    &&& changed is Some
                    &&& changed->Some_0.rect == kept.as_rect_spec()
                    &&& call_ensures(updated_rates, (webview.bounds, fresh, update), rates)
                        ==> changed->Some_0.bounds == rates
                    &&& changed->Some_0.label == webview.label
                    &&& changed->Some_0.slot == webview.slot
                    &&& result->Some_0.rect == kept
                    &&& result->Some_0.browser == webview.browser(browsers@)
                    &&& webview.browser(browsers@) is Some
                        ==> result->Some_0.notification@.remaining.last().call
                        == CallOf::<Seq<char>>::WasResized
                }
                &&& before.contains_key(other) == after.contains_key(other)
                &&& before.contains_key(other) ==> after[other] == before[other]
            },
{
    assert forall|windows: &mut WindowsStore| #[trigger]
        call_ensures(
            set_webview_bounds,
            (windows, browsers, id, webview_id, bounds, window, fresh, update),
            result,
        ) && store::webview_in((*windows)@, id, webview_id) is Some implies store::webview_in(
        (*final(windows))@,
        id,
        webview_id,
    ) == Some(
        with_bounds(
            store::webview_in((*windows)@, id, webview_id)->Some_0,
            bounds,
            window,
            fresh,
            update,
        ),
    ) by {
        let webview = store::webview_in((*windows)@, id, webview_id)->Some_0;
        store::lemma_webview_index((*windows)@[id].webviews, webview_id);
        lemma_change_is_found(
            (*windows)@,
            id,
            webview_id,
            with_bounds(webview, bounds, window, fresh, update),
        );
    }
}

/// A window that was built for the application is known by its name and by its identifier, and
/// holds no webviews. The runtime draws its background on Windows only. One that could not be
/// built is an error, and changes nothing.
pub proof fn lemma_raw_windows_are_taken_over(
    platform: Platform,
    window_id: WindowId,
    built: Option<RawWindow>,
    result: Result<(), Error>,
)
    ensures
        forall|windows: &mut WindowsStore, ids: &mut WindowIdStore| #[trigger]
            call_ensures(raw_window_built, (platform, windows, ids, window_id, built), result)
                ==> {
                let after = (*final(windows))@;
                &&& result is Ok <==> built is Some
                &&& built is None ==> {
                    &&& result == Err::<(), Error>(Error::CreateWindow)
                    &&& after == (*windows)@
                    &&& (*final(ids))@ == (*ids)@
                }
                &&& built matches Some(raw) ==> {
                    let window = after[window_id];
                    let on_windows = platform == Platform::Windows;
                    &&& after.contains_key(window_id)
                    &&& (*final(ids))@.contains_key(raw.window)
                    &&& (*final(ids))@[raw.window] == window_id
                    &&& window.label == raw.label@
                    &&& window.inner == Some(raw.window)
                    &&& window.webviews.len() == 0
                    &&& window.listeners.len() == 0
                    &&& !window.has_children
                    &&& on_windows ==> window.background_color == raw.background_color
                    &&& !on_windows ==> window.background_color is None
                    &&& window.is_window_transparent <==> on_windows && raw.transparent
                    &&& window.surface <==> on_windows && raw.transparent && raw.surface
                }
            },
{
}

/// The URL of the page is that of the main frame, where the webview is there and has a browser
/// with one; otherwise it is an error.
pub proof fn lemma_url_is_that_of_the_main_frame(
    windows: &WindowsStore,
    browsers: &BrowserSlots,
    id: WindowId,
    webview_id: WebviewId,
    frame_url: Option<String>,
    answer: Result<String, Error>,
)
    requires
        call_ensures(url_asked, (windows, browsers, id, webview_id, frame_url), answer),
    ensures
        ({
            let webview = store::webview_in(windows@, id, webview_id);
            &&& answer is Ok <==> webview is Some && webview->Some_0.browser(browsers@) is Some
                && frame_url is Some
            &&& answer matches Ok(url) ==> frame_url == Some(url)
            &&& answer matches Err(error) ==> error == Error::FailedToSendMessage
        }),
{
}

} // verus!
