//! How windows are created.

use crate::runtime::color::Color;
use crate::runtime::conversions::Error;
use crate::runtime::dpi::{Float64, LogicalPosition, PhysicalSize, Position, Size};
use crate::runtime::platform::{BuildOptions, Platform};
use crate::runtime::store;
use crate::runtime::store::{
    Listeners, TaoWindowId, WebviewModel, WebviewWrapper, WindowId, WindowIdStore, WindowModel,
    WindowWrapper,
};
use crate::runtime::webview_events::WebviewKind;
use crate::runtime::window_builder::{
    AttributesModel, BuilderModel, MacOsAttributes, WindowAttributes, WindowBuilderWrapper,
    WindowLayout,
};
use vstd::prelude::*;

verus! {

/// A window is not grouped with others on macOS: nothing says with which, or it would
/// show.
pub open spec fn is_untabbed(builder: BuilderModel) -> bool {
    builder.options.platform == Platform::MacOs && (builder.tabbing_identifier is None
        || builder.inner.look.transparent || !builder.inner.look.decorations)
}

/// The attributes of a window before it is built.
pub open spec fn prepared(builder: BuilderModel) -> BuilderModel {
    if is_untabbed(builder) {
        builder.with_inner(
            AttributesModel {
                macos: MacOsAttributes {
                    automatic_window_tabbing: Some(false),
                    ..builder.inner.macos
                },
                ..builder.inner
            },
        )
    } else {
        builder
    }
}

/// The monitor that a window is fitted to.
#[derive(Debug, Clone, Copy, PartialEq, Eq, Structural)]
pub enum MonitorSearch {
    /// The window is not fitted to any.
    Unneeded,
    /// The one that holds a position.
    At(Position),
    Primary,
}

/// The monitor that a window is fitted to.
pub open spec fn monitor_search(builder: BuilderModel) -> MonitorSearch {
    if builder.options.platform.is_desktop_spec() && (builder.prevent_overflow is Some
        || builder.center) {
        match builder.inner.layout.position {
            Some(position) => MonitorSearch::At(position),
            None => MonitorSearch::Primary,
        }
    } else {
        MonitorSearch::Unneeded
    }
}

/// The size that a window is meant to have before it is fitted to a monitor.
pub open spec fn desired_size(builder: BuilderModel) -> Size {
    match builder.inner.layout.inner_size {
        Some(size) => size,
        None => Size::Physical(PhysicalSize { width: 800, height: 600 }),
    }
}

/// What is to be known before a window is built.
#[derive(Debug, Clone, Copy, PartialEq, Eq, Structural)]
pub struct WindowPlan {
    pub monitor: MonitorSearch,
    pub desired_size: Size,
    /// The frame of the window counts. Only that of Windows does.
    pub with_frame: bool,
    pub margin: Option<Size>,
    pub center: bool,
}

/// Prepares a window, and says what is to be known before it is built.
pub fn plan_window(builder: WindowBuilderWrapper) -> (result: (WindowBuilderWrapper, WindowPlan))
    ensures
        result.0@ == prepared(builder@),
        result.1 == (WindowPlan {
            monitor: monitor_search(builder@),
            desired_size: desired_size(builder@),
            with_frame: builder@.options.platform == Platform::Windows
                && builder@.inner.look.decorations,
            margin: builder@.prevent_overflow,
            center: builder@.center,
        }),
{
    let platform = builder.options.platform;
    let monitor = if platform.is_desktop() && (builder.prevent_overflow.is_some()
        || builder.center) {
        match builder.inner.layout.position {
            Some(position) => MonitorSearch::At(position),
            None => MonitorSearch::Primary,
        }
    } else {
        MonitorSearch::Unneeded
    };
    let desired_size = match builder.inner.layout.inner_size {
        Some(size) => size,
        None => Size::Physical(PhysicalSize { width: 800, height: 600 }),
    };
    let plan = WindowPlan {
        monitor,
        desired_size,
        with_frame: platform == Platform::Windows && builder.inner.look.decorations,
        margin: builder.prevent_overflow,
        center: builder.center,
    };
    let builder = if platform == Platform::MacOs && (builder.tabbing_identifier.is_none()
        || builder.inner.look.transparent || !builder.inner.look.decorations) {
        builder.automatic_window_tabbing(false)
    } else {
        builder
    };
    (builder, plan)
}

/// The layout of a window after it was fitted to a monitor.
pub open spec fn fitted_layout(
    layout: WindowLayout,
    inner_size: Option<PhysicalSize<u32>>,
    position: Option<(Float64, Float64)>,
) -> WindowLayout {
    WindowLayout {
        inner_size: match inner_size {
            Some(size) => Some(Size::Physical(size)),
            None => layout.inner_size,
        },
        position: match position {
            Some((x, y)) => Some(Position::Logical(LogicalPosition { x, y })),
            None => layout.position,
        },
        ..layout
    }
}

/// Gives a window the size and the position that it got when it was fitted to a
/// monitor, as far as it got them. The position is in logical units.
pub fn apply_fit(
    builder: WindowBuilderWrapper,
    inner_size: Option<PhysicalSize<u32>>,
    position: Option<(Float64, Float64)>,
) -> (result: WindowBuilderWrapper)
    ensures
        result@ == builder@.with_inner(
            AttributesModel {
                layout: fitted_layout(builder@.inner.layout, inner_size, position),
                ..builder@.inner
            },
        ),
{
    let builder = match inner_size {
        Some(size) => {
            let layout = WindowLayout {
                inner_size: Some(Size::Physical(size)),
                ..builder.inner.layout
            };
            WindowBuilderWrapper {
                inner: WindowAttributes { layout, ..builder.inner },
                ..builder
            }
        },
        None => builder,
    };
    match position {
        Some((x, y)) => builder.position(x, y),
        None => builder,
    }
}

/// Takes the window that the window system has built, if it could be built.
pub fn window_built(
    ids: &mut WindowIdStore,
    window_id: WindowId,
    built: Option<TaoWindowId>,
) -> (result: Result<TaoWindowId, Error>)
    ensures
        match built {
            Some(window) => {
                &&& result == Ok::<TaoWindowId, Error>(window)
                &&& final(ids)@ == old(ids)@.insert(window, window_id)
            },
            None => {
                &&& result == Err::<TaoWindowId, Error>(Error::CreateWindow)
                &&& final(ids)@ == old(ids)@
            },
        },
{
    match built {
        Some(window) => {
            ids.insert(window, window_id);
            Ok(window)
        },
        None => Err(Error::CreateWindow),
    }
}

/// The kind of the webview that a window is created with.
pub fn kind_of_first_webview(options: BuildOptions) -> (kind: WebviewKind)
    ensures
        kind == if options.unstable {
            WebviewKind::WindowChild
        } else {
            WebviewKind::WindowContent
        },
{
    if options.unstable {
        WebviewKind::WindowChild
    } else {
        WebviewKind::WindowContent
    }
}

/// The parts of a window that was built.
#[derive(Debug)]
pub struct WindowParts {
    pub label: String,
    pub window: TaoWindowId,
    pub webview: Option<WebviewWrapper>,
    pub background_color: Option<Color>,
    pub transparent: bool,
}

/// The webviews of a window that was built.
pub open spec fn webviews_of(parts: WindowParts) -> Seq<WebviewModel> {
    match parts.webview {
        Some(webview) => seq![webview@],
        None => Seq::empty(),
    }
}

/// The runtime draws the background of a window.
pub open spec fn needs_surface(options: BuildOptions, parts: WindowParts) -> bool {
    options.platform == Platform::Windows && parts.transparent
}

/// Frames that were rendered off screen are shown in a window.
pub open spec fn needs_osr_surface(options: BuildOptions, parts: WindowParts) -> bool {
    options.wayland_osr && (parts.webview matches Some(webview) && webview.osr)
}

/// The surfaces that a window needs.
pub fn surfaces_needed(options: BuildOptions, parts: &WindowParts) -> (needed: (bool, bool))
    ensures
        needed.0 == needs_surface(options, *parts),
        needed.1 == needs_osr_surface(options, *parts),
{
    let osr = match &parts.webview {
        Some(webview) => webview.osr,
        None => false,
    };
    (
        options.platform == Platform::Windows && parts.transparent,
        options.wayland_osr && osr,
    )
}

/// A window that was built. A surface that it needs may be missing.
pub open spec fn built_window(
    options: BuildOptions,
    parts: WindowParts,
    surface: bool,
    osr_surface: bool,
) -> WindowModel {
    let on_windows = options.platform == Platform::Windows;
    WindowModel {
        label: parts.label@,
        inner: Some(parts.window),
        has_children: false,
        webviews: webviews_of(parts),
        listeners: Seq::empty(),
        background_color: if on_windows {
            parts.background_color
        } else {
            None
        },
        is_window_transparent: on_windows && parts.transparent,
        surface: needs_surface(options, parts) && surface,
        focused_webview: None,
        osr_surface: needs_osr_surface(options, parts) && osr_surface,
    }
}

/// Puts a window together. `surface` and `osr_surface` say whether those surfaces could
/// be made.
pub fn window_created(
    options: BuildOptions,
    parts: WindowParts,
    surface: bool,
    osr_surface: bool,
) -> (window: WindowWrapper)
    ensures
        window@ == built_window(options, parts, surface, osr_surface),
{
    let ghost built = built_window(options, parts, surface, osr_surface);
    let (needs_surface, needs_osr_surface) = surfaces_needed(options, &parts);
    let on_windows = options.platform == Platform::Windows;
    let mut webviews: Vec<WebviewWrapper> = Vec::new();
    if let Some(webview) = parts.webview {
        webviews.push(webview);
    }
    assert(store::webview_models(webviews@) =~= built.webviews);
    WindowWrapper {
        label: parts.label,
        inner: Some(parts.window),
        has_children: false,
        webviews,
        window_event_listeners: Listeners::new(),
        background_color: if on_windows {
            parts.background_color
        } else {
            None
        },
        is_window_transparent: on_windows && parts.transparent,
        surface: needs_surface && surface,
        focused_webview: None,
        osr_surface: needs_osr_surface && osr_surface,
    }
}

/// A window that is not fitted to a monitor is built as it was asked for.
pub proof fn lemma_unfitted_window_is_as_asked_for(layout: WindowLayout)
    ensures
        fitted_layout(layout, None, None) == layout,
{
}

/// A window is fitted to a monitor only on a desktop, if it goes into the center or must not
/// overflow: to the one that its position is on, or else to the primary one. It is meant to be
/// as large as it was asked to, or 800 by 600 pixels, and only on Windows the frame of a
/// decorated window counts.
pub proof fn lemma_window_is_planned(
    builder: WindowBuilderWrapper,
    result: (WindowBuilderWrapper, WindowPlan),
)
    requires
        call_ensures(plan_window, (builder,), result),
    ensures
        ({
            let plan = result.1;
            let platform = builder.options.platform;
            let desktop = platform == Platform::Linux || platform == Platform::Windows || platform
                == Platform::MacOs;
            let fitted = desktop && (builder.center || builder.prevent_overflow is Some);
            &&& plan.monitor is Unneeded <==> !fitted
            &&& fitted && builder.inner.layout.position is Some ==> plan.monitor
                == MonitorSearch::At(builder.inner.layout.position->Some_0)
            &&& fitted && builder.inner.layout.position is None ==> plan.monitor
                == MonitorSearch::Primary
            &&& builder.inner.layout.inner_size matches Some(size) ==> plan.desired_size == size
            &&& builder.inner.layout.inner_size is None ==> plan.desired_size == Size::Physical(
                PhysicalSize { width: 800, height: 600 },
            )
            &&& plan.with_frame <==> platform == Platform::Windows
                && builder.inner.look.decorations
            &&& plan.margin == builder.prevent_overflow
            &&& plan.center == builder.center
        }),
{
}

/// Planning a window changes one thing at most: on macOS a window is not grouped with others
/// if it has no group, is see-through or has no decorations.
pub proof fn lemma_planning_changes_tabbing_only(
    builder: WindowBuilderWrapper,
    result: (WindowBuilderWrapper, WindowPlan),
)
    requires
        call_ensures(plan_window, (builder,), result),
    ensures
        ({
            let untabbed = builder.options.platform == Platform::MacOs && (
            builder.tabbing_identifier is None || builder.inner.look.transparent
                || !builder.inner.look.decorations);
            let (before, after) = (builder@, result.0@);
            &&& !untabbed ==> after == before
            &&& untabbed ==> {
                &&& after.inner.macos.automatic_window_tabbing == Some(false)
                &&& after == (BuilderModel {
                    inner: AttributesModel {
                        macos: MacOsAttributes {
                            automatic_window_tabbing: Some(false),
                            ..before.inner.macos
                        },
                        ..before.inner
                    },
                    ..before
                })
            }
        }),
{
}

/// A window takes the size and the position that it was fitted to, each if there is one, and
/// keeps its own otherwise. Nothing else changes.
pub proof fn lemma_fit_is_applied(
    builder: WindowBuilderWrapper,
    inner_size: Option<PhysicalSize<u32>>,
    position: Option<(Float64, Float64)>,
    result: WindowBuilderWrapper,
)
    requires
        call_ensures(apply_fit, (builder, inner_size, position), result),
    ensures
        ({
            let (before, after) = (builder@.inner.layout, result@.inner.layout);
            &&& inner_size matches Some(size) ==> after.inner_size == Some(Size::Physical(size))
            &&& inner_size is None ==> after.inner_size == before.inner_size
            &&& position matches Some(position) ==> after.position == Some(
                Position::Logical(LogicalPosition { x: position.0, y: position.1 }),
            )
            &&& position is None ==> after.position == before.position
            &&& after.inner_size_constraints == before.inner_size_constraints
            &&& result@ == (BuilderModel {
                inner: AttributesModel { layout: after, ..builder@.inner },
                ..builder@
            })
        }),
{
}

/// A window that was built is known by its number from then on, and no other number changes;
/// if it could not be built it is an error and nothing changes.
pub proof fn lemma_built_window_is_known(
    id: WindowId,
    built: Option<TaoWindowId>,
    result: Result<TaoWindowId, Error>,
    other: TaoWindowId,
)
    ensures
        forall|ids: &mut WindowIdStore| #[trigger]
            call_ensures(window_built, (ids, id, built), result) ==> {
                let (before, after) = ((*ids)@, (*final(ids))@);
                &&& built matches Some(window) ==> {
                    &&& result == Ok::<TaoWindowId, Error>(window)
                    &&& after.contains_key(window) && after[window] == id
                    &&& other != window ==> {
                        &&& after.contains_key(other) == before.contains_key(other)
                        &&& before.contains_key(other) ==> after[other] == before[other]
                    }
                }
                &&& built is None ==> result == Err::<TaoWindowId, Error>(Error::CreateWindow)
                    && after == before
            },
{
}

/// A new window has its label, its number and its webview, if it is created with one, and no
/// listeners, and no webview has the focus. The runtime draws it only on Windows, if it is
/// see-through and there is a surface to draw on; frames are shown in it only where rendering
/// off screen is built in and its webview does it, if there is a surface for them. What color
/// it has is of interest on Windows only.
pub proof fn lemma_new_window_is_put_together(
    options: BuildOptions,
    parts: WindowParts,
    surface: bool,
    osr_surface: bool,
    window: WindowWrapper,
    needed: (bool, bool),
    kind: WebviewKind,
)
    requires
        call_ensures(window_created, (options, parts, surface, osr_surface), window),
        call_ensures(surfaces_needed, (options, &parts), needed),
        call_ensures(kind_of_first_webview, (options,), kind),
    ensures
        window@.label == parts.label@,
        window@.inner == Some(parts.window),
        !window@.has_children,
        parts.webview matches Some(webview) ==> window@.webviews == seq![webview@],
        parts.webview is None ==> window@.webviews.len() == 0,
        window@.listeners.len() == 0,
        window@.focused_webview is None,
        ({
            let windows = options.platform == Platform::Windows;
            let off_screen = options.wayland_osr && parts.webview is Some
                && parts.webview->Some_0.osr;
            &&& windows ==> window@.background_color == parts.background_color
            &&& !windows ==> window@.background_color is None
            &&& window@.is_window_transparent <==> windows && parts.transparent
            &&& needed.0 <==> windows && parts.transparent
            &&& needed.1 <==> off_screen
            &&& window@.surface <==> windows && parts.transparent && surface
            &&& window@.osr_surface <==> off_screen && osr_surface
        }),
        kind == WebviewKind::WindowChild <==> options.unstable,
        kind == WebviewKind::WindowContent <==> !options.unstable,
{
}

} // verus!
