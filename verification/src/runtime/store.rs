//! The windows of the application, and the webviews in them.

use crate::browser_slot;
use crate::browser_slot::{BrowserSlot, BrowserSlots};
use crate::client::HandlerId;
use crate::runtime::color::Color;
use crate::runtime::dpi::{Float32, Rect};
use std::collections::{BTreeMap, HashMap};
use crate::text;
use vstd::prelude::*;

verus! {

broadcast use {
    vstd::std_specs::btree::group_btree_axioms,
    vstd::std_specs::hash::group_hash_axioms,
    vstd::laws_cmp::group_laws_cmp,
};

/// A window as the application knows it.
pub type WindowId = u32;

/// A webview as the application knows it.
pub type WebviewId = u32;

/// A listener for events of a window.
pub type WindowEventId = u32;

/// A listener for events of a webview.
pub type WebviewEventId = u32;

/// A window as the window system knows it.
pub type TaoWindowId = u64;

/// The listeners of a window or a webview, by their numbers.
#[derive(Debug)]
pub struct Listeners {
    entries: Vec<(u32, HandlerId)>,
}

impl Listeners {
    /// No number is taken twice.
    #[verifier::type_invariant]
    spec fn is_unique(self) -> bool {
        has_unique_ids(self.entries@)
    }
}

impl View for Listeners {
    type V = Seq<(u32, HandlerId)>;

    closed spec fn view(&self) -> Seq<(u32, HandlerId)> {
        self.entries@
    }
}

/// Listeners with one more. A listener that comes under a number which is taken
/// replaces the one that had it.
pub open spec fn with_listener(
    entries: Seq<(u32, HandlerId)>,
    id: u32,
    handler: HandlerId,
) -> Seq<(u32, HandlerId)>
    decreases entries.len(),
{
    if entries.len() == 0 {
        seq![(id, handler)]
    } else if entries[0].0 == id {
        seq![(id, handler)] + entries.drop_first()
    } else {
        seq![entries[0]] + with_listener(entries.drop_first(), id, handler)
    }
}

/// The handlers of listeners.
pub open spec fn handlers_of(entries: Seq<(u32, HandlerId)>) -> Seq<HandlerId> {
    entries.map_values(|entry: (u32, HandlerId)| entry.1)
}

/// A number is not taken by any of the listeners.
pub open spec fn is_free(entries: Seq<(u32, HandlerId)>, id: u32) -> bool {
    forall|i: int| 0 <= i < entries.len() ==> (#[trigger] entries[i]).0 != id
}

/// No number is taken twice.
pub open spec fn has_unique_ids(entries: Seq<(u32, HandlerId)>) -> bool {
    forall|i: int, j: int|
        0 <= i < j < entries.len() ==> (#[trigger] entries[i]).0 != (#[trigger] entries[j]).0
}

proof fn lemma_with_listener(entries: Seq<(u32, HandlerId)>, id: u32, handler: HandlerId, at: int)
    requires
        0 <= at <= entries.len(),
        forall|i: int| 0 <= i < at ==> (#[trigger] entries[i]).0 != id,
        at < entries.len() ==> entries[at].0 == id,
    ensures
        with_listener(entries, id, handler) == if at < entries.len() {
            entries.update(at, (id, handler))
        } else {
            entries.push((id, handler))
        },
    decreases entries.len(),
{
    if entries.len() == 0 {
        assert(seq![(id, handler)] =~= entries.push((id, handler)));
    } else if at == 0 {
        assert(seq![(id, handler)] + entries.drop_first() =~= entries.update(0, (id, handler)));
    } else {
        assert(entries[0].0 != id);
        assert forall|i: int| 0 <= i < at - 1 implies (#[trigger] entries.drop_first()[i]).0
            != id by {
            assert(entries.drop_first()[i] == entries[i + 1]);
        }
        lemma_with_listener(entries.drop_first(), id, handler, at - 1);
        if at < entries.len() {
            assert(seq![entries[0]] + entries.drop_first().update(at - 1, (id, handler))
                =~= entries.update(at, (id, handler)));
        } else {
            assert(seq![entries[0]] + entries.drop_first().push((id, handler)) =~= entries.push(
                (id, handler),
            ));
        }
    }
}

/// A listener that was added is there, and no other listener was touched. Numbers
/// stay unique.
pub proof fn lemma_listener_is_added(
    entries: Seq<(u32, HandlerId)>,
    id: u32,
    handler: HandlerId,
)
    requires
        has_unique_ids(entries),
    ensures
        with_listener(entries, id, handler).contains((id, handler)),
        has_unique_ids(with_listener(entries, id, handler)),
        forall|other: (u32, HandlerId)|
            other.0 != id ==> (#[trigger] with_listener(entries, id, handler).contains(other)
                <==> entries.contains(other)),
        is_free(entries, id) ==> with_listener(entries, id, handler) == entries.push((id, handler)),
{
    let at = if exists|i: int| 0 <= i < entries.len() && (#[trigger] entries[i]).0 == id {
        choose|i: int| 0 <= i < entries.len() && (#[trigger] entries[i]).0 == id
    } else {
        entries.len() as int
    };
    assert forall|i: int| 0 <= i < at implies (#[trigger] entries[i]).0 != id by {
        if at < entries.len() {
            assert(entries[i].0 != entries[at].0);
        }
    }
    lemma_with_listener(entries, id, handler, at);
    let after = with_listener(entries, id, handler);
    assert(after[at] == (id, handler));
    assert forall|other: (u32, HandlerId)| other.0 != id implies (#[trigger] after.contains(other)
        <==> entries.contains(other)) by {
        if after.contains(other) {
            let i = choose|i: int| 0 <= i < after.len() && after[i] == other;
            assert(entries[i] == other);
        }
        if entries.contains(other) {
            let i = choose|i: int| 0 <= i < entries.len() && entries[i] == other;
            assert(after[i] == other);
        }
    }
}

impl Listeners {
    /// No listeners.
    pub fn new() -> (listeners: Self)
        ensures
            listeners@ == Seq::<(u32, HandlerId)>::empty(),
    {
        Listeners { entries: Vec::new() }
    }

    /// Adds a listener.
    pub fn insert(&mut self, id: u32, handler: HandlerId)
        ensures
            final(self)@ == with_listener(old(self)@, id, handler),
            has_unique_ids(final(self)@),
    {
        proof {
            use_type_invariant(&*self);
            lemma_listener_is_added(self.entries@, id, handler);
        }
        let mut entries: Vec<(u32, HandlerId)> = Vec::new();
        std::mem::swap(&mut entries, &mut self.entries);
        let ghost before = entries@;
        let mut at: usize = 0;
        while at < entries.len() && entries[at].0 != id
            invariant
                at <= entries@.len(),
                entries@ == before,
                forall|i: int| 0 <= i < at ==> (#[trigger] entries@[i]).0 != id,
            decreases entries@.len() - at,
        {
            at = at + 1;
        }
        proof {
            lemma_with_listener(entries@, id, handler, at as int);
        }
        if at < entries.len() {
            entries.set(at, (id, handler));
        } else {
            entries.push((id, handler));
        }
        self.entries = entries;
    }

    /// The handlers of the listeners.
    pub fn values(&self) -> (handlers: Vec<HandlerId>)
        ensures
            handlers@ == handlers_of(self@),
            has_unique_ids(self@),
    {
        proof {
            use_type_invariant(self);
        }
        let mut handlers: Vec<HandlerId> = Vec::new();
        let mut index: usize = 0;
        while index < self.entries.len()
            invariant
                index <= self.entries@.len(),
                handlers@ == handlers_of(self.entries@.take(index as int)),
            decreases self.entries@.len() - index,
        {
            handlers.push(self.entries[index].1);
            index = index + 1;
            assert(handlers@ =~= handlers_of(self.entries@.take(index as int)));
        }
        assert(self.entries@.take(index as int) =~= self.entries@);
        handlers
    }
}

/// The place of a webview as shares of the window, for webviews that grow with it.
#[derive(Debug, Clone, Copy, PartialEq, Eq, Structural)]
pub struct WebviewBounds {
    pub x_rate: Float32,
    pub y_rate: Float32,
    pub width_rate: Float32,
    pub height_rate: Float32,
}

/// A webview.
#[derive(Debug)]
pub struct WebviewWrapper {
    pub label: String,
    pub id: WebviewId,
    pub browser_slot: BrowserSlot,
    pub webview_event_listeners: Listeners,
    pub background_color: Color,
    pub rect: Rect,
    pub bounds: Option<WebviewBounds>,
    /// The browser renders off screen.
    pub osr: bool,
}

/// A webview, with its text as characters.
pub struct WebviewModel {
    pub label: Seq<char>,
    pub id: WebviewId,
    pub slot: BrowserSlot,
    pub listeners: Seq<(u32, HandlerId)>,
    pub background_color: Color,
    pub rect: Rect,
    pub bounds: Option<WebviewBounds>,
    pub osr: bool,
}

impl WebviewModel {
    /// The browser of the webview, if it has one.
    pub open spec fn browser(self, browsers: Seq<Option<i32>>) -> Option<i32> {
        self.slot.browser(browsers)
    }
}

impl View for WebviewWrapper {
    type V = WebviewModel;

    open spec fn view(&self) -> WebviewModel {
        WebviewModel {
            label: self.label@,
            id: self.id,
            slot: self.browser_slot,
            listeners: self.webview_event_listeners@,
            background_color: self.background_color,
            rect: self.rect,
            bounds: self.bounds,
            osr: self.osr,
        }
    }
}

/// Webviews, with their text as characters.
pub open spec fn webview_models(webviews: Seq<WebviewWrapper>) -> Seq<WebviewModel> {
    webviews.map_values(|webview: WebviewWrapper| webview@)
}

/// A window.
#[derive(Debug)]
pub struct WindowWrapper {
    pub label: String,
    /// The window of the window system, until it is closed.
    pub inner: Option<TaoWindowId>,
    /// The window has child webviews; otherwise it holds a single one.
    pub has_children: bool,
    pub webviews: Vec<WebviewWrapper>,
    pub window_event_listeners: Listeners,
    pub background_color: Option<Color>,
    pub is_window_transparent: bool,
    /// The runtime draws the background of the window.
    pub surface: bool,
    pub focused_webview: Option<String>,
    /// Frames that were rendered off screen are shown in the window.
    pub osr_surface: bool,
}

/// A window, with its text as characters.
#[verifier::ext_equal]
pub struct WindowModel {
    pub label: Seq<char>,
    pub inner: Option<TaoWindowId>,
    pub has_children: bool,
    pub webviews: Seq<WebviewModel>,
    pub listeners: Seq<(u32, HandlerId)>,
    pub background_color: Option<Color>,
    pub is_window_transparent: bool,
    pub surface: bool,
    pub focused_webview: Option<Seq<char>>,
    pub osr_surface: bool,
}

impl View for WindowWrapper {
    type V = WindowModel;

    open spec fn view(&self) -> WindowModel {
        WindowModel {
            label: self.label@,
            inner: self.inner,
            has_children: self.has_children,
            webviews: webview_models(self.webviews@),
            listeners: self.window_event_listeners@,
            background_color: self.background_color,
            is_window_transparent: self.is_window_transparent,
            surface: self.surface,
            focused_webview: text::text_of(self.focused_webview),
            osr_surface: self.osr_surface,
        }
    }
}

impl WindowWrapper {
    /// The label of the window.
    pub fn label(&self) -> (label: &str)
        ensures
            label@ == self@.label,
    {
        self.label.as_str()
    }
}

/// The first webview with an identifier, counted from zero, or the number of
/// webviews if there is none.
pub open spec fn webview_index(webviews: Seq<WebviewModel>, id: WebviewId) -> int
    decreases webviews.len(),
{
    if webviews.len() == 0 || webviews[0].id == id {
        0
    } else {
        1 + webview_index(webviews.drop_first(), id)
    }
}

/// There is a webview with an identifier.
pub open spec fn has_webview(webviews: Seq<WebviewModel>, id: WebviewId) -> bool {
    webview_index(webviews, id) < webviews.len()
}

/// The webview with an identifier, if there is one.
pub open spec fn find_webview(webviews: Seq<WebviewModel>, id: WebviewId) -> Option<WebviewModel> {
    if has_webview(webviews, id) {
        Some(webviews[webview_index(webviews, id)])
    } else {
        None
    }
}

/// The first webview with an identifier is one, and none before it is.
pub proof fn lemma_webview_index(webviews: Seq<WebviewModel>, id: WebviewId)
    ensures
        0 <= webview_index(webviews, id) <= webviews.len(),
        has_webview(webviews, id) ==> webviews[webview_index(webviews, id)].id == id,
        forall|i: int|
            0 <= i < webview_index(webviews, id) ==> (#[trigger] webviews[i]).id != id,
    decreases webviews.len(),
{
    if webviews.len() > 0 && webviews[0].id != id {
        let rest = webviews.drop_first();
        lemma_webview_index(rest, id);
        assert forall|i: int| 0 <= i < webview_index(webviews, id) implies (
        #[trigger] webviews[i]).id != id by {
            if i > 0 {
                assert(rest[i - 1] == webviews[i]);
            }
        }
        if has_webview(webviews, id) {
            assert(rest[webview_index(rest, id)] == webviews[webview_index(webviews, id)]);
        }
    }
}

proof fn lemma_webview_index_is(webviews: Seq<WebviewModel>, id: WebviewId, at: int)
    requires
        0 <= at <= webviews.len(),
        forall|i: int| 0 <= i < at ==> (#[trigger] webviews[i]).id != id,
        at < webviews.len() ==> webviews[at].id == id,
    ensures
        webview_index(webviews, id) == at,
{
    lemma_webview_index(webviews, id);
    let found = webview_index(webviews, id);
    if found < at {
        assert(webviews[found].id != id);
    }
    if at < found {
        assert(webviews[at].id != id);
    }
}

/// Finds the first webview with an identifier. The result is the number of webviews
/// if there is none.
pub fn position_of_webview(webviews: &Vec<WebviewWrapper>, id: WebviewId) -> (position: usize)
    ensures
        position == webview_index(webview_models(webviews@), id),
        position <= webviews@.len(),
{
    let mut at: usize = 0;
    while at < webviews.len() && webviews[at].id != id
        invariant
            at <= webviews@.len(),
            forall|i: int|
                0 <= i < at ==> (#[trigger] webview_models(webviews@)[i]).id != id,
        decreases webviews@.len() - at,
    {
        at = at + 1;
    }
    proof {
        lemma_webview_index_is(webview_models(webviews@), id, at as int);
    }
    at
}

/// The windows of the application.
#[derive(Debug)]
pub struct WindowsStore {
    windows: BTreeMap<WindowId, WindowWrapper>,
}

impl View for WindowsStore {
    type V = Map<WindowId, WindowModel>;

    closed spec fn view(&self) -> Map<WindowId, WindowModel> {
        self.windows@.map_values(|window: WindowWrapper| window@)
    }
}

/// A window of the store as it was, or as it would be: the store with another window
/// under an identifier, where there is one.
pub open spec fn with_window(
    windows: Map<WindowId, WindowModel>,
    id: WindowId,
    window: WindowModel,
) -> Map<WindowId, WindowModel> {
    if windows.contains_key(id) {
        windows.insert(id, window)
    } else {
        windows
    }
}

impl WindowsStore {
    /// No windows.
    pub fn new() -> (store: Self)
        ensures
            store@ == Map::<WindowId, WindowModel>::empty(),
    {
        let store = WindowsStore { windows: BTreeMap::new() };
        assert(store@ =~= Map::<WindowId, WindowModel>::empty());
        store
    }

    /// The window with an identifier.
    pub fn get(&self, id: WindowId) -> (window: Option<&WindowWrapper>)
        ensures
            match window {
                Some(window) => self@.contains_key(id) && window@ == self@[id],
                None => !self@.contains_key(id),
            },
    {
        self.windows.get(&id)
    }

    /// Puts a window into the store.
    pub fn insert(&mut self, id: WindowId, window: WindowWrapper)
        ensures
            final(self)@ == old(self)@.insert(id, window@),
    {
        self.windows.insert(id, window);
        assert(self@ =~= old(self)@.insert(id, window@));
    }

    /// Takes a window out of the store.
    pub fn remove(&mut self, id: WindowId) -> (window: Option<WindowWrapper>)
        ensures
            final(self)@ == old(self)@.remove(id),
            match window {
                Some(window) => old(self)@.contains_key(id) && window@ == old(self)@[id],
                None => !old(self)@.contains_key(id),
            },
    {
        let window = self.windows.remove(&id);
        assert(self@ =~= old(self)@.remove(id));
        window
    }

    /// Whether there are no windows.
    pub fn is_empty(&self) -> (empty: bool)
        ensures
            empty == (self@ == Map::<WindowId, WindowModel>::empty()),
    {
        let empty = self.windows.len() == 0;
        proof {
            assert(self@.dom() =~= self.windows@.dom());
            if empty {
                assert(self.windows@.dom() =~= Set::empty());
                assert(self@ =~= Map::<WindowId, WindowModel>::empty());
            } else {
                assert(self.windows@.dom().len() != 0);
                assert(!(self.windows@.dom() =~= Set::<WindowId>::empty()));
            }
        }
        empty
    }

    /// Adds a listener to a window.
    pub fn add_window_listener(&mut self, id: WindowId, listener: u32, handler: HandlerId)
        ensures
            final(self)@ == with_window(
                old(self)@,
                id,
                WindowModel {
                    listeners: with_listener(old(self)@[id].listeners, listener, handler),
                    ..old(self)@[id]
                },
            ),
    {
        if let Some(window) = self.remove(id) {
            let mut window = window;
            window.window_event_listeners.insert(listener, handler);
            self.insert(id, window);
        }
        assert(self@ =~= with_window(
            old(self)@,
            id,
            WindowModel {
                listeners: with_listener(old(self)@[id].listeners, listener, handler),
                ..old(self)@[id]
            },
        ));
    }

    /// Notes which webview of a window has the focus.
    pub fn set_focused_webview(&mut self, id: WindowId, focused_webview: Option<String>)
        ensures
            final(self)@ == with_window(
                old(self)@,
                id,
                WindowModel {
                    focused_webview: text::text_of(focused_webview),
                    ..old(self)@[id]
                },
            ),
    {
        if let Some(window) = self.remove(id) {
            let mut window = window;
            window.focused_webview = focused_webview;
            self.insert(id, window);
        }
        assert(self@ =~= with_window(
            old(self)@,
            id,
            WindowModel { focused_webview: text::text_of(focused_webview), ..old(self)@[id] },
        ));
    }

    /// Lets go of the window of the window system, and with it of the background that
    /// the runtime draws. The window stays in the store until it is destroyed.
    pub fn close(&mut self, id: WindowId)
        ensures
            final(self)@ == with_window(
                old(self)@,
                id,
                WindowModel { inner: None, surface: false, ..old(self)@[id] },
            ),
    {
        if let Some(window) = self.remove(id) {
            let mut window = window;
            window.inner = None;
            window.surface = false;
            self.insert(id, window);
        }
        assert(self@ =~= with_window(
            old(self)@,
            id,
            WindowModel { inner: None, surface: false, ..old(self)@[id] },
        ));
    }

    /// Puts a webview into a window that has child webviews from now on.
    pub fn add_child_webview(&mut self, id: WindowId, webview: WebviewWrapper)
        ensures
            final(self)@ == with_window(
                old(self)@,
                id,
                WindowModel {
                    webviews: old(self)@[id].webviews.push(webview@),
                    has_children: true,
                    ..old(self)@[id]
                },
            ),
    {
        if let Some(window) = self.remove(id) {
            let mut window = window;
            let ghost before = window.webviews@;
            window.webviews.push(webview);
            assert(webview_models(window.webviews@) =~= webview_models(before).push(webview@));
            window.has_children = true;
            self.insert(id, window);
        }
        assert(self@ =~= with_window(
            old(self)@,
            id,
            WindowModel {
                webviews: old(self)@[id].webviews.push(webview@),
                has_children: true,
                ..old(self)@[id]
            },
        ));
    }

    /// Puts a webview into a window, as it is. Gives the webview back if there is no
    /// such window.
    pub fn push_webview(&mut self, id: WindowId, webview: WebviewWrapper) -> (pushed: bool)
        ensures
            pushed == old(self)@.contains_key(id),
            final(self)@ == with_window(
                old(self)@,
                id,
                WindowModel {
                    webviews: old(self)@[id].webviews.push(webview@),
                    ..old(self)@[id]
                },
            ),
    {
        let pushed = match self.remove(id) {
            Some(window) => {
                let mut window = window;
                let ghost before = window.webviews@;
                window.webviews.push(webview);
                assert(webview_models(window.webviews@) =~= webview_models(before).push(webview@));
                self.insert(id, window);
                true
            },
            None => false,
        };
        assert(self@ =~= with_window(
            old(self)@,
            id,
            WindowModel {
                webviews: old(self)@[id].webviews.push(webview@),
                ..old(self)@[id]
            },
        ));
        pushed
    }

    /// Takes a webview out of a window.
    pub fn remove_webview(&mut self, id: WindowId, webview_id: WebviewId) -> (webview: Option<
        WebviewWrapper,
    >)
        ensures
            webview is Some <==> old(self)@.contains_key(id) && has_webview(
                old(self)@[id].webviews,
                webview_id,
            ),
            webview matches Some(webview) ==> Some(webview@) == find_webview(
                old(self)@[id].webviews,
                webview_id,
            ),
            final(self)@ == if webview is Some {
                old(self)@.insert(id, without_webview(old(self)@[id], webview_id))
            } else {
                old(self)@
            },
    {
        let result = match self.remove(id) {
            Some(window) => {
                let mut window = window;
                let at: usize = position_of_webview(&window.webviews, webview_id);
                let ghost before = window.webviews@;
                let webview = if at < window.webviews.len() {
                    let webview = window.webviews.remove(at);
                    assert(webview_models(window.webviews@) =~= webview_models(before).remove(
                        at as int,
                    ));
                    Some(webview)
                } else {
                    None
                };
                self.insert(id, window);
                webview
            },
            None => None,
        };
        assert(self@ =~= if result is Some {
            old(self)@.insert(id, without_webview(old(self)@[id], webview_id))
        } else {
            old(self)@
        });
        result
    }

    /// Takes a window out of the store to change one of its webviews.
    fn take_webview(&mut self, id: WindowId, webview_id: WebviewId) -> (taken: Option<TakenWebview>)
        ensures
            match taken {
                Some(taken) => {
                    &&& taken.is_from(old(self)@, id, webview_id)
                    &&& Some(taken.webview@) == webview_in(old(self)@, id, webview_id)
                    &&& final(self)@ == old(self)@.remove(id)
                },
                None => {
                    &&& webview_in(old(self)@, id, webview_id) is None
                    &&& final(self)@ == old(self)@
                },
            },
    {
        match self.remove(id) {
            Some(window) => {
                let mut window = window;
                let at: usize = position_of_webview(&window.webviews, webview_id);
                if at < window.webviews.len() {
                    let ghost before = window.webviews@;
                    let webview = window.webviews.remove(at);
                    assert(webview_models(window.webviews@) =~= webview_models(before).remove(
                        at as int,
                    ));
                    Some(TakenWebview { window, at, webview })
                } else {
                    self.insert(id, window);
                    assert(self@ =~= old(self)@);
                    None
                }
            },
            None => {
                assert(self@ =~= old(self)@);
                None
            },
        }
    }

    /// Puts a webview that was taken, and perhaps changed, into its place.
    fn put_webview(
        &mut self,
        id: WindowId,
        taken: TakenWebview,
        Ghost(before): Ghost<Map<WindowId, WindowModel>>,
        Ghost(webview_id): Ghost<WebviewId>,
    )
        requires
            taken.is_from(before, id, webview_id),
            old(self)@ == before.remove(id),
        ensures
            final(self)@ == with_changed_webview(before, id, webview_id, taken.webview@),
    {
        let TakenWebview { window, at, webview } = taken;
        let mut window = window;
        let ghost others = window.webviews@;
        let ghost at_index = at as int;
        let ghost changed = webview@;
        window.webviews.insert(at, webview);
        assert(webview_models(window.webviews@) =~= webview_models(others).insert(
            at_index,
            changed,
        ));
        assert(webview_models(others).insert(at_index, changed) =~= before[id].webviews.update(
            at_index,
            changed,
        ));
        self.insert(id, window);
        assert(self@ =~= with_changed_webview(before, id, webview_id, changed));
    }

    /// Adds a listener to a webview.
    pub fn add_webview_listener(
        &mut self,
        id: WindowId,
        webview_id: WebviewId,
        listener: u32,
        handler: HandlerId,
    )
        ensures
            final(self)@ == with_changed_webview(
                old(self)@,
                id,
                webview_id,
                WebviewModel {
                    listeners: with_listener(
                        webview_in(old(self)@, id, webview_id)->Some_0.listeners,
                        listener,
                        handler,
                    ),
                    ..webview_in(old(self)@, id, webview_id)->Some_0
                },
            ),
    {
        let ghost before = self@;
        if let Some(taken) = self.take_webview(id, webview_id) {
            let mut taken = taken;
            taken.webview.webview_event_listeners.insert(listener, handler);
            self.put_webview(id, taken, Ghost(before), Ghost(webview_id));
        }
    }

    /// Notes the background color of a webview.
    pub fn set_webview_color(
        &mut self,
        id: WindowId,
        webview_id: WebviewId,
        background_color: Color,
    )
        ensures
            final(self)@ == with_changed_webview(
                old(self)@,
                id,
                webview_id,
                WebviewModel {
                    background_color,
                    ..webview_in(old(self)@, id, webview_id)->Some_0
                },
            ),
    {
        let ghost before = self@;
        if let Some(taken) = self.take_webview(id, webview_id) {
            let mut taken = taken;
            taken.webview.background_color = background_color;
            self.put_webview(id, taken, Ghost(before), Ghost(webview_id));
        }
    }

    /// Notes the rectangle that a webview covers.
    pub fn set_webview_rect(&mut self, id: WindowId, webview_id: WebviewId, rect: Rect)
        ensures
            final(self)@ == with_changed_webview(
                old(self)@,
                id,
                webview_id,
                WebviewModel {
                    rect,
                    ..webview_in(old(self)@, id, webview_id)->Some_0
                },
            ),
    {
        let ghost before = self@;
        if let Some(taken) = self.take_webview(id, webview_id) {
            let mut taken = taken;
            taken.webview.rect = rect;
            self.put_webview(id, taken, Ghost(before), Ghost(webview_id));
        }
    }

    /// Notes the place of a webview as shares of its window, or that it does not grow
    /// with the window.
    pub fn set_webview_rates(
        &mut self,
        id: WindowId,
        webview_id: WebviewId,
        bounds: Option<WebviewBounds>,
    )
        ensures
            final(self)@ == with_changed_webview(
                old(self)@,
                id,
                webview_id,
                WebviewModel {
                    bounds,
                    ..webview_in(old(self)@, id, webview_id)->Some_0
                },
            ),
    {
        let ghost before = self@;
        if let Some(taken) = self.take_webview(id, webview_id) {
            let mut taken = taken;
            taken.webview.bounds = bounds;
            self.put_webview(id, taken, Ghost(before), Ghost(webview_id));
        }
    }

    /// Puts a browser into the slot of a webview, or takes it out.
    pub fn set_webview_browser(
        &self,
        browsers: &mut BrowserSlots,
        id: WindowId,
        webview_id: WebviewId,
        browser: Option<i32>,
    )
        ensures
            final(browsers)@ == match webview_in(self@, id, webview_id) {
                Some(webview) => browser_slot::with_browser(old(browsers)@, webview.slot, browser),
                None => old(browsers)@,
            },
    {
        if let Some(window) = self.get(id) {
            let at: usize = position_of_webview(&window.webviews, webview_id);
            if at < window.webviews.len() {
                proof {
                    lemma_webview_index(webview_models(window.webviews@), webview_id);
                }
                window.webviews[at].browser_slot.set(browsers, browser);
            }
        }
    }
}

/// A window with one of its webviews taken out, to be changed.
struct TakenWebview {
    window: WindowWrapper,
    at: usize,
    webview: WebviewWrapper,
}

impl TakenWebview {
    /// The webview was taken out of these windows, and its window as well.
    spec fn is_from(
        self,
        windows: Map<WindowId, WindowModel>,
        id: WindowId,
        webview_id: WebviewId,
    ) -> bool {
        &&& windows.contains_key(id)
        &&& has_webview(windows[id].webviews, webview_id)
        &&& self.at == webview_index(windows[id].webviews, webview_id)
        &&& self.at < windows[id].webviews.len()
        &&& self.window@ == WindowModel {
            webviews: windows[id].webviews.remove(self.at as int),
            ..windows[id]
        }
    }
}

/// A window without a webview.
pub open spec fn without_webview(window: WindowModel, id: WebviewId) -> WindowModel {
    WindowModel { webviews: window.webviews.remove(webview_index(window.webviews, id)), ..window }
}

/// A window with a webview changed.
pub open spec fn with_webview(
    window: WindowModel,
    id: WebviewId,
    webview: WebviewModel,
) -> WindowModel {
    WindowModel {
        webviews: window.webviews.update(webview_index(window.webviews, id), webview),
        ..window
    }
}

/// The windows with a webview changed, where there is one.
pub open spec fn with_changed_webview(
    windows: Map<WindowId, WindowModel>,
    id: WindowId,
    webview_id: WebviewId,
    webview: WebviewModel,
) -> Map<WindowId, WindowModel> {
    if windows.contains_key(id) && has_webview(windows[id].webviews, webview_id) {
        windows.insert(id, with_webview(windows[id], webview_id, webview))
    } else {
        windows
    }
}

/// The webview with an identifier, where there is one.
pub open spec fn webview_in(
    windows: Map<WindowId, WindowModel>,
    id: WindowId,
    webview_id: WebviewId,
) -> Option<WebviewModel> {
    if windows.contains_key(id) {
        find_webview(windows[id].webviews, webview_id)
    } else {
        None
    }
}

/// The numbers under which the window system knows the windows.
#[derive(Debug)]
pub struct WindowIdStore {
    ids: HashMap<TaoWindowId, WindowId>,
}

impl View for WindowIdStore {
    type V = Map<TaoWindowId, WindowId>;

    closed spec fn view(&self) -> Map<TaoWindowId, WindowId> {
        self.ids@
    }
}

impl WindowIdStore {
    /// No numbers.
    pub fn new() -> (store: Self)
        ensures
            store@ == Map::<TaoWindowId, WindowId>::empty(),
    {
        WindowIdStore { ids: HashMap::new() }
    }

    /// Notes the number of a window.
    pub fn insert(&mut self, w: TaoWindowId, id: WindowId)
        ensures
            final(self)@ == old(self)@.insert(w, id),
    {
        self.ids.insert(w, id);
    }

    /// The window that a number belongs to.
    pub fn get(&self, w: &TaoWindowId) -> (id: Option<WindowId>)
        ensures
            id == if self@.contains_key(*w) {
                Some(self@[*w])
            } else {
                None
            },
    {
        match self.ids.get(w) {
            Some(id) => Some(*id),
            None => None,
        }
    }
}

/// The windows that webviews are taken to be in, by the cells that hold them.
#[derive(Debug)]
pub struct WindowCells {
    windows: Vec<WindowId>,
}

impl View for WindowCells {
    type V = Seq<WindowId>;

    closed spec fn view(&self) -> Seq<WindowId> {
        self.windows@
    }
}

impl WindowCells {
    /// No cells.
    pub fn new() -> (cells: Self)
        ensures
            cells@ == Seq::<WindowId>::empty(),
    {
        WindowCells { windows: Vec::new() }
    }
}

/// The place that holds the window which a webview is taken to be in. It can be copied:
/// all copies are one place.
#[derive(Debug, Clone, Copy, PartialEq, Eq, Structural)]
pub struct WindowCell {
    pub id: usize,
    /// The window that the webview was created in.
    pub created_in: WindowId,
}

/// The cell that comes after others, for a webview that is created in a window.
pub open spec fn new_cell(cells: Seq<WindowId>, window_id: WindowId) -> WindowCell {
    WindowCell { id: cells.len() as usize, created_in: window_id }
}

/// The cells after one of them was given another window.
pub open spec fn with_cell(
    cells: Seq<WindowId>,
    cell: WindowCell,
    window_id: WindowId,
) -> Seq<WindowId> {
    if cell.is_among(cells) {
        cells.update(cell.id as int, window_id)
    } else {
        cells
    }
}

impl WindowCell {
    /// The cell is one of `cells`.
    pub open spec fn is_among(self, cells: Seq<WindowId>) -> bool {
        self.id < cells.len()
    }

    /// The window in the cell.
    pub open spec fn window(self, cells: Seq<WindowId>) -> WindowId {
        if self.is_among(cells) {
            cells[self.id as int]
        } else {
            self.created_in
        }
    }

    /// A cell for a webview that is created in a window.
    pub fn new(cells: &mut WindowCells, window_id: WindowId) -> (cell: Self)
        ensures
            cell == new_cell(old(cells)@, window_id),
            cell.id == old(cells)@.len(),
            final(cells)@ == old(cells)@.push(window_id),
    {
        let id: usize = cells.windows.len();
        cells.windows.push(window_id);
        WindowCell { id, created_in: window_id }
    }

    /// The window in the cell.
    pub fn current(&self, cells: &WindowCells) -> (window_id: WindowId)
        ensures
            window_id == self.window(cells@),
    {
        if self.id < cells.windows.len() {
            cells.windows[self.id]
        } else {
            self.created_in
        }
    }

    /// Puts a window into the cell.
    pub fn set(&self, cells: &mut WindowCells, window_id: WindowId)
        ensures
            final(cells)@ == with_cell(old(cells)@, *self, window_id),
    {
        if self.id < cells.windows.len() {
            cells.windows.set(self.id, window_id);
        }
    }
}

/// Every copy of a cell holds the window that was put into it, and no other cell does.
pub proof fn lemma_copies_share_a_window(
    cells: Seq<WindowId>,
    cell: WindowCell,
    copied: WindowCell,
    other: WindowCell,
    window_id: WindowId,
)
    requires
        cell.is_among(cells),
        copied.id == cell.id,
        other.id != cell.id,
    ensures
        copied.window(with_cell(cells, cell, window_id)) == window_id,
        other.window(with_cell(cells, cell, window_id)) == other.window(cells),
{
}

/// A window is found under its number once that was noted, and no other number is
/// touched.
pub proof fn lemma_noted_number_is_found(
    ids: Map<TaoWindowId, WindowId>,
    w: TaoWindowId,
    id: WindowId,
    other: TaoWindowId,
)
    ensures
        ids.insert(w, id).contains_key(w),
        ids.insert(w, id)[w] == id,
        other != w ==> ids.insert(w, id).contains_key(other) == ids.contains_key(other),
        other != w ==> ids.insert(w, id)[other] == ids[other],
{
}

/// A window is found as it was put into the store until it is taken out, and no other window is
/// touched.
pub proof fn lemma_windows_are_found(
    id: WindowId,
    other: WindowId,
    window: WindowWrapper,
    taken: Option<WindowWrapper>,
    shown: &WindowsStore,
    found: Option<&WindowWrapper>,
)
    requires
        other != id,
        call_ensures(WindowsStore::get, (shown, id), found),
    ensures
        found is Some <==> shown@.contains_key(id),
        found matches Some(found) ==> found@ == shown@[id],
        forall|store: &mut WindowsStore| #[trigger]
            call_ensures(WindowsStore::insert, (store, id, window), ()) ==> {
                let (before, after) = ((*store)@, (*final(store))@);
                &&& after.contains_key(id) && after[id] == window@
                &&& after.contains_key(other) == before.contains_key(other)
                &&& before.contains_key(other) ==> after[other] == before[other]
            },
        forall|store: &mut WindowsStore| #[trigger]
            call_ensures(WindowsStore::remove, (store, id), taken) ==> {
                let (before, after) = ((*store)@, (*final(store))@);
                &&& taken is Some <==> before.contains_key(id)
                &&& taken matches Some(taken) ==> taken@ == before[id]
                &&& !after.contains_key(id)
                &&& after.contains_key(other) == before.contains_key(other)
                &&& before.contains_key(other) ==> after[other] == before[other]
            },
{
}

/// A window that closes has no window of the window system any more, and no background to draw.
/// It stays in the store with its webviews. The webview with the focus is the one that was noted.
pub proof fn lemma_windows_are_closed(id: WindowId, focused: Option<String>)
    ensures
        forall|store: &mut WindowsStore|
            (*store)@.contains_key(id) && #[trigger] call_ensures(
                WindowsStore::close,
                (store, id),
                (),
            ) ==> {
                let (before, after) = ((*store)@[id], (*final(store))@[id]);
                &&& (*final(store))@.contains_key(id)
                &&& after.inner is None && !after.surface
                &&& after.webviews == before.webviews && after.label == before.label
                &&& after.listeners == before.listeners
            },
        forall|store: &mut WindowsStore|
            (*store)@.contains_key(id) && #[trigger] call_ensures(
                WindowsStore::set_focused_webview,
                (store, id, focused),
                (),
            ) ==> {
                let (before, after) = ((*store)@[id], (*final(store))@[id]);
                &&& focused is None <==> after.focused_webview is None
                &&& focused matches Some(label) ==> after.focused_webview == Some(label@)
                &&& after.webviews == before.webviews && after.inner == before.inner
            },
{
}

/// A webview goes behind those that its window holds. As a child it makes the window one with
/// children; as it is it leaves that as it was, and it goes nowhere without a window.
pub proof fn lemma_webviews_go_into_windows(id: WindowId, webview: WebviewWrapper, pushed: bool)
    ensures
        forall|store: &mut WindowsStore|
            (*store)@.contains_key(id) && #[trigger] call_ensures(
                WindowsStore::add_child_webview,
                (store, id, webview),
                (),
            ) ==> {
                let (before, after) = ((*store)@[id], (*final(store))@[id]);
                &&& after.webviews.len() == before.webviews.len() + 1
                &&& after.webviews.last() == webview@
                &&& after.webviews.drop_last() =~= before.webviews
                &&& after.has_children
            },
        forall|store: &mut WindowsStore| #[trigger]
            call_ensures(WindowsStore::push_webview, (store, id, webview), pushed) ==> {
                let (before, after) = ((*store)@[id], (*final(store))@[id]);
                &&& pushed <==> (*store)@.contains_key(id)
                &&& pushed ==> {
                    &&& after.webviews.len() == before.webviews.len() + 1
                    &&& after.webviews.last() == webview@
                    &&& after.webviews.drop_last() =~= before.webviews
                    &&& after.has_children == before.has_children
                }
                &&& !pushed ==> (*final(store))@ == (*store)@
            },
{
}

/// A webview that is taken out of its window is the first one with its identifier; the others
/// stay, in order.
pub proof fn lemma_webviews_leave_windows(
    id: WindowId,
    webview_id: WebviewId,
    at: int,
    taken: Option<WebviewWrapper>,
)
    ensures
        forall|store: &mut WindowsStore|
            (*store)@.contains_key(id) && 0 <= at < (*store)@[id].webviews.len()
                && (*store)@[id].webviews[at].id == webview_id && none_before(
                (*store)@[id].webviews,
                webview_id,
                at,
            ) && #[trigger] call_ensures(
                WindowsStore::remove_webview,
                (store, id, webview_id),
                taken,
            ) ==> {
                let (before, after) = ((*store)@[id], (*final(store))@[id]);
                &&& taken is Some
                &&& taken->Some_0@ == before.webviews[at]
                &&& after.webviews == before.webviews.take(at) + before.webviews.skip(at + 1)
            },
{
    assert forall|store: &mut WindowsStore|
        (*store)@.contains_key(id) && 0 <= at < (*store)@[id].webviews.len()
            && (*store)@[id].webviews[at].id == webview_id && none_before(
            (*store)@[id].webviews,
            webview_id,
            at,
        ) && #[trigger] call_ensures(WindowsStore::remove_webview, (store, id, webview_id), taken)
        implies taken is Some && taken->Some_0@ == (*store)@[id].webviews[at]
        && (*final(store))@[id].webviews == (*store)@[id].webviews.take(at) + (*store)@[id].webviews.skip(at + 1) by {
        let webviews = (*store)@[id].webviews;
        lemma_webview_index_is(webviews, webview_id, at);
        assert(webviews.remove(at) =~= webviews.take(at) + webviews.skip(at + 1));
    }
}

/// No webview before a place has an identifier.
pub open spec fn none_before(webviews: Seq<WebviewModel>, id: WebviewId, at: int) -> bool {
    forall|i: int| 0 <= i < at ==> (#[trigger] webviews[i]).id != id
}

/// What is noted of a webview is its color, its rectangle or its shares, and nothing else of it
/// changes, nor does any other webview.
pub proof fn lemma_webviews_are_changed(
    id: WindowId,
    webview_id: WebviewId,
    at: int,
    other: int,
    color: Color,
    rect: Rect,
    bounds: Option<WebviewBounds>,
)
    requires
        other != at,
    ensures
        forall|store: &mut WindowsStore|
            is_webview_at((*store)@, id, webview_id, at) && #[trigger] call_ensures(
                WindowsStore::set_webview_color,
                (store, id, webview_id, color),
                (),
            ) ==> {
                let (before, after) = ((*store)@[id].webviews, (*final(store))@[id].webviews);
                &&& after.len() == before.len()
                &&& after[at] == (WebviewModel { background_color: color, ..before[at] })
                &&& 0 <= other < before.len() ==> after[other] == before[other]
            },
        forall|store: &mut WindowsStore|
            is_webview_at((*store)@, id, webview_id, at) && #[trigger] call_ensures(
                WindowsStore::set_webview_rect,
                (store, id, webview_id, rect),
                (),
            ) ==> {
                let (before, after) = ((*store)@[id].webviews, (*final(store))@[id].webviews);
                &&& after.len() == before.len()
                &&& after[at] == (WebviewModel { rect, ..before[at] })
                &&& 0 <= other < before.len() ==> after[other] == before[other]
            },
        forall|store: &mut WindowsStore|
            is_webview_at((*store)@, id, webview_id, at) && #[trigger] call_ensures(
                WindowsStore::set_webview_rates,
                (store, id, webview_id, bounds),
                (),
            ) ==> {
                let (before, after) = ((*store)@[id].webviews, (*final(store))@[id].webviews);
                &&& after.len() == before.len()
                &&& after[at] == (WebviewModel { bounds, ..before[at] })
                &&& 0 <= other < before.len() ==> after[other] == before[other]
            },
{
    assert forall|store: &mut WindowsStore|
        is_webview_at((*store)@, id, webview_id, at) && #[trigger] call_ensures(
            WindowsStore::set_webview_color,
            (store, id, webview_id, color),
            (),
        ) implies webview_index((*store)@[id].webviews, webview_id) == at by {
        lemma_webview_index_is((*store)@[id].webviews, webview_id, at);
    }
    assert forall|store: &mut WindowsStore|
        is_webview_at((*store)@, id, webview_id, at) && #[trigger] call_ensures(
            WindowsStore::set_webview_rect,
            (store, id, webview_id, rect),
            (),
        ) implies webview_index((*store)@[id].webviews, webview_id) == at by {
        lemma_webview_index_is((*store)@[id].webviews, webview_id, at);
    }
    assert forall|store: &mut WindowsStore|
        is_webview_at((*store)@, id, webview_id, at) && #[trigger] call_ensures(
            WindowsStore::set_webview_rates,
            (store, id, webview_id, bounds),
            (),
        ) implies webview_index((*store)@[id].webviews, webview_id) == at by {
        lemma_webview_index_is((*store)@[id].webviews, webview_id, at);
    }
}

/// The first webview of a window with an identifier is at a place.
pub open spec fn is_webview_at(
    windows: Map<WindowId, WindowModel>,
    id: WindowId,
    webview_id: WebviewId,
    at: int,
) -> bool {
    &&& windows.contains_key(id)
    &&& 0 <= at < windows[id].webviews.len()
    &&& windows[id].webviews[at].id == webview_id
    &&& none_before(windows[id].webviews, webview_id, at)
}

/// A listener under a number that is free goes behind the others, and the handlers are called in
/// that order.
pub proof fn lemma_listeners_are_kept(
    listeners: &Listeners,
    handlers: Vec<HandlerId>,
    i: int,
    id: u32,
    handler: HandlerId,
    window: WindowId,
)
    requires
        call_ensures(Listeners::values, (listeners,), handlers),
    ensures
        handlers@.len() == listeners@.len(),
        0 <= i < listeners@.len() ==> handlers@[i] == listeners@[i].1,
        forall|changed: &mut Listeners|
            has_unique_ids((*changed)@) && is_free((*changed)@, id) && #[trigger] call_ensures(
                Listeners::insert,
                (changed, id, handler),
                (),
            ) ==> (*final(changed))@ == (*changed)@.push((id, handler)),
        forall|store: &mut WindowsStore|
            (*store)@.contains_key(window) && has_unique_ids((*store)@[window].listeners)
                && is_free((*store)@[window].listeners, id) && #[trigger] call_ensures(
                WindowsStore::add_window_listener,
                (store, window, id, handler),
                (),
            ) ==> (*final(store))@[window].listeners == (*store)@[window].listeners.push(
                (id, handler),
            ),
{
    assert forall|changed: &mut Listeners|
        has_unique_ids((*changed)@) && is_free((*changed)@, id) && #[trigger] call_ensures(
            Listeners::insert,
            (changed, id, handler),
            (),
        ) implies (*final(changed))@ == (*changed)@.push((id, handler)) by {
        lemma_listener_is_added((*changed)@, id, handler);
    }
    assert forall|store: &mut WindowsStore|
        (*store)@.contains_key(window) && has_unique_ids((*store)@[window].listeners) && is_free(
            (*store)@[window].listeners,
            id,
        ) && #[trigger] call_ensures(
            WindowsStore::add_window_listener,
            (store, window, id, handler),
            (),
        ) implies (*final(store))@[window].listeners == (*store)@[window].listeners.push(
        (id, handler),
    ) by {
        lemma_listener_is_added((*store)@[window].listeners, id, handler);
    }
}

/// A cell holds the window that it was made for, and then the one that was put into it; a number
/// of the window system is found once it was noted.
pub proof fn lemma_cells_hold_their_window(
    window_id: WindowId,
    made: WindowCell,
    cell: &WindowCell,
    cells: &WindowCells,
    current: WindowId,
    number: TaoWindowId,
)
    requires
        call_ensures(WindowCell::current, (cell, cells), current),
    ensures
        cell.id < cells@.len() ==> current == cells@[cell.id as int],
        cell.id >= cells@.len() ==> current == cell.created_in,
        forall|changed: &mut WindowCells| #[trigger]
            call_ensures(WindowCell::new, (changed, window_id), made) ==> {
                &&& made.id == (*changed)@.len()
                &&& made.created_in == window_id
                &&& (*final(changed))@ == (*changed)@.push(window_id)
            },
        forall|changed: &mut WindowCells|
            cell.id < (*changed)@.len() && #[trigger] call_ensures(
                WindowCell::set,
                (cell, changed, window_id),
                (),
            ) ==> (*final(changed))@ == (*changed)@.update(cell.id as int, window_id),
        forall|ids: &mut WindowIdStore| #[trigger]
            call_ensures(WindowIdStore::insert, (ids, number, window_id), ()) ==> {
                &&& (*final(ids))@.contains_key(number)
                &&& (*final(ids))@[number] == window_id
            },
{
}

/// A webview is found at the first place at which one with its identifier is.
pub proof fn lemma_webviews_are_found_in_order(
    webviews: &Vec<WebviewWrapper>,
    id: WebviewId,
    position: usize,
    i: int,
    store: &WindowsStore,
    empty: bool,
)
    requires
        call_ensures(position_of_webview, (webviews, id), position),
        call_ensures(WindowsStore::is_empty, (store,), empty),
    ensures
        position <= webviews@.len(),
        position < webviews@.len() ==> webviews@[position as int].id == id,
        0 <= i < position ==> webviews@[i].id != id,
        empty ==> !store@.contains_key(id),
        store@.contains_key(id) ==> !empty,
{
    let models = webview_models(webviews@);
    lemma_webview_index(models, id);
    if position < webviews@.len() {
        assert(models[position as int] == webviews@[position as int]@);
    }
    if 0 <= i < position {
        assert(models[i] == webviews@[i]@);
        assert(models[i].id != id);
    }
}

/// A webview that gets a browser has it, and no slot but its own changes.
pub proof fn lemma_webviews_get_their_browser(
    store: &WindowsStore,
    id: WindowId,
    webview_id: WebviewId,
    webview: WebviewModel,
    browser: Option<i32>,
    other: BrowserSlot,
)
    requires
        webview_in(store@, id, webview_id) == Some(webview),
        other.id() != webview.slot.id(),
    ensures
        forall|browsers: &mut BrowserSlots| #[trigger]
            call_ensures(
                WindowsStore::set_webview_browser,
                (store, browsers, id, webview_id, browser),
                (),
            ) ==> {
                &&& webview.slot.is_among((*browsers)@) ==> webview.slot.browser(
                    (*final(browsers))@,
                ) == browser
                &&& other.browser((*final(browsers))@) == other.browser((*browsers)@)
            },
{
}

/// Where there is no such webview nothing changes.
pub proof fn lemma_absent_webviews_are_not_changed(
    id: WindowId,
    webview_id: WebviewId,
    color: Color,
    rect: Rect,
    bounds: Option<WebviewBounds>,
    listener: u32,
    handler: HandlerId,
)
    ensures
        forall|store: &mut WindowsStore|
            webview_in((*store)@, id, webview_id) is None && #[trigger] call_ensures(
                WindowsStore::set_webview_color,
                (store, id, webview_id, color),
                (),
            ) ==> (*final(store))@ == (*store)@,
        forall|store: &mut WindowsStore|
            webview_in((*store)@, id, webview_id) is None && #[trigger] call_ensures(
                WindowsStore::set_webview_rect,
                (store, id, webview_id, rect),
                (),
            ) ==> (*final(store))@ == (*store)@,
        forall|store: &mut WindowsStore|
            webview_in((*store)@, id, webview_id) is None && #[trigger] call_ensures(
                WindowsStore::set_webview_rates,
                (store, id, webview_id, bounds),
                (),
            ) ==> (*final(store))@ == (*store)@,
        forall|store: &mut WindowsStore|
            webview_in((*store)@, id, webview_id) is None && #[trigger] call_ensures(
                WindowsStore::add_webview_listener,
                (store, id, webview_id, listener, handler),
                (),
            ) ==> (*final(store))@ == (*store)@,
{
}

} // verus!
