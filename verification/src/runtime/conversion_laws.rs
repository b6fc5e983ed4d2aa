//! What the names of the application and those of the window system have in common.

use crate::runtime::conversions::{
    map_theme, tao_activation_policy, to_tao_theme, ActivationPolicy, BadIcon, CursorIcon,
    CursorIconWrapper, DeviceEventFilter, DeviceEventFilterWrapper, Error, Icon, Monitor,
    MonitorHandleWrapper, PositionWrapper, ProgressBarState, ProgressBarStateWrapper,
    ProgressBarStatus, ProgressStateWrapper, RectWrapper, ResizeDirection,
    ResizeDirectionWrapper, SizeWrapper, TaoActivationPolicy, TaoIcon, TaoTheme, Theme,
    UserAttentionType, UserAttentionTypeWrapper,
};
use crate::runtime::dpi::{Position, Rect, Size};
use crate::runtime::loop_events::WindowEventWrapper;
use crate::runtime::messages::{SynthesizedWindowEvent, WindowEvent};
use crate::runtime::platform::Platform;
use vstd::prelude::*;

verus! {

/// The window system filters events of devices as the application says.
pub proof fn lemma_filters_keep_their_names(item: DeviceEventFilter, wrapper: DeviceEventFilterWrapper)
    requires
        wrapper == <DeviceEventFilterWrapper as vstd::std_specs::convert::FromSpec<
            DeviceEventFilter,
        >>::from_spec(item),
    ensures
        item is Always <==> wrapper.0 is Always,
        item is Never <==> wrapper.0 is Never,
        item is Unfocused <==> wrapper.0 is Unfocused,
{
}

/// The window system asks for attention as urgently as the application says.
pub proof fn lemma_attention_keeps_its_name(item: UserAttentionType, wrapper: UserAttentionTypeWrapper)
    requires
        wrapper == <UserAttentionTypeWrapper as vstd::std_specs::convert::FromSpec<
            UserAttentionType,
        >>::from_spec(item),
    ensures
        item is Critical <==> wrapper.0 is Critical,
        item is Informational <==> wrapper.0 is Informational,
{
}

/// Every cursor shape has the same name in the window system.
pub proof fn lemma_cursors_keep_their_names(item: CursorIcon, wrapper: CursorIconWrapper)
    requires
        wrapper == <CursorIconWrapper as vstd::std_specs::convert::FromSpec<
            CursorIcon,
        >>::from_spec(item),
    ensures
        item is Default <==> wrapper.0 is Default,
        item is Crosshair <==> wrapper.0 is Crosshair,
        item is Hand <==> wrapper.0 is Hand,
        item is Arrow <==> wrapper.0 is Arrow,
        item is Move <==> wrapper.0 is Move,
        item is Text <==> wrapper.0 is Text,
        item is Wait <==> wrapper.0 is Wait,
        item is Help <==> wrapper.0 is Help,
        item is Progress <==> wrapper.0 is Progress,
        item is NotAllowed <==> wrapper.0 is NotAllowed,
        item is ContextMenu <==> wrapper.0 is ContextMenu,
        item is Cell <==> wrapper.0 is Cell,
        item is VerticalText <==> wrapper.0 is VerticalText,
        item is Alias <==> wrapper.0 is Alias,
        item is Copy <==> wrapper.0 is Copy,
        item is NoDrop <==> wrapper.0 is NoDrop,
        item is Grab <==> wrapper.0 is Grab,
        item is Grabbing <==> wrapper.0 is Grabbing,
        item is AllScroll <==> wrapper.0 is AllScroll,
        item is ZoomIn <==> wrapper.0 is ZoomIn,
        item is ZoomOut <==> wrapper.0 is ZoomOut,
        item is EResize <==> wrapper.0 is EResize,
        item is NResize <==> wrapper.0 is NResize,
        item is NeResize <==> wrapper.0 is NeResize,
        item is NwResize <==> wrapper.0 is NwResize,
        item is SResize <==> wrapper.0 is SResize,
        item is SeResize <==> wrapper.0 is SeResize,
        item is SwResize <==> wrapper.0 is SwResize,
        item is WResize <==> wrapper.0 is WResize,
        item is EwResize <==> wrapper.0 is EwResize,
        item is NsResize <==> wrapper.0 is NsResize,
        item is NeswResize <==> wrapper.0 is NeswResize,
        item is NwseResize <==> wrapper.0 is NwseResize,
        item is ColResize <==> wrapper.0 is ColResize,
        item is RowResize <==> wrapper.0 is RowResize,
{
}

/// Every state of a progress bar has the same name in the window system.
pub proof fn lemma_progress_keeps_its_name(item: ProgressBarStatus, wrapper: ProgressStateWrapper)
    requires
        wrapper == <ProgressStateWrapper as vstd::std_specs::convert::FromSpec<
            ProgressBarStatus,
        >>::from_spec(item),
    ensures
        item is Absent <==> wrapper.0 is Absent,
        item is Normal <==> wrapper.0 is Normal,
        item is Indeterminate <==> wrapper.0 is Indeterminate,
        item is Paused <==> wrapper.0 is Paused,
        item is Error <==> wrapper.0 is Error,
{
}

/// A window is resized at the edge or corner that the application says.
pub proof fn lemma_directions_keep_their_names(item: ResizeDirection, wrapper: ResizeDirectionWrapper)
    requires
        wrapper == <ResizeDirectionWrapper as vstd::std_specs::convert::FromSpec<
            ResizeDirection,
        >>::from_spec(item),
    ensures
        item is East <==> wrapper.0 is East,
        item is North <==> wrapper.0 is North,
        item is NorthEast <==> wrapper.0 is NorthEast,
        item is NorthWest <==> wrapper.0 is NorthWest,
        item is South <==> wrapper.0 is South,
        item is SouthEast <==> wrapper.0 is SouthEast,
        item is SouthWest <==> wrapper.0 is SouthWest,
        item is West <==> wrapper.0 is West,
{
}

/// A progress bar has the progress, the state and the launcher that the application gives it.
pub proof fn lemma_progress_bars_are_kept(
    given: ProgressBarState,
    wrapper: ProgressBarStateWrapper,
    status: ProgressBarStatus,
    named: ProgressStateWrapper,
)
    requires
        wrapper == <ProgressBarStateWrapper as vstd::std_specs::convert::FromSpec<
            ProgressBarState,
        >>::from_spec(given),
        named == <ProgressStateWrapper as vstd::std_specs::convert::FromSpec<
            ProgressBarStatus,
        >>::from_spec(status),
    ensures
        wrapper.0.progress == given.progress,
        wrapper.0.desktop_filename == given.desktop_filename,
        wrapper.0.state is None <==> given.status is None,
        given.status == Some(status) ==> wrapper.0.state == Some(named.0),
{
}

/// Places and sizes are the same on both sides, in the unit in which they were given.
pub proof fn lemma_places_are_kept(
    position: Position,
    placed: PositionWrapper,
    size: Size,
    sized: SizeWrapper,
    rect: Rect,
    covered: RectWrapper,
)
    requires
        placed == <PositionWrapper as vstd::std_specs::convert::FromSpec<Position>>::from_spec(
            position,
        ),
        sized == <SizeWrapper as vstd::std_specs::convert::FromSpec<Size>>::from_spec(size),
        covered == <RectWrapper as vstd::std_specs::convert::FromSpec<Rect>>::from_spec(rect),
    ensures
        position matches Position::Physical(given) ==> {
            &&& placed.0 is Physical
            &&& placed.0->Physical_0.x == given.x && placed.0->Physical_0.y == given.y
        },
        position matches Position::Logical(given) ==> {
            &&& placed.0 is Logical
            &&& placed.0->Logical_0.x == given.x && placed.0->Logical_0.y == given.y
        },
        size matches Size::Physical(given) ==> {
            &&& sized.0 is Physical
            &&& sized.0->Physical_0.width == given.width
            &&& sized.0->Physical_0.height == given.height
        },
        size matches Size::Logical(given) ==> {
            &&& sized.0 is Logical
            &&& sized.0->Logical_0.width == given.width
            &&& sized.0->Logical_0.height == given.height
        },
        covered.0.position == rect.position,
        covered.0.size == rect.size,
{
}

/// The application learns of a monitor what the window system says of it.
pub proof fn lemma_monitors_are_kept(handle: MonitorHandleWrapper, monitor: Monitor)
    requires
        monitor == <Monitor as vstd::std_specs::convert::FromSpec<
            MonitorHandleWrapper,
        >>::from_spec(handle),
    ensures
        monitor.name == handle.0.name,
        monitor.position == handle.0.position,
        monitor.size == handle.0.size,
        monitor.work_area == handle.0.work_area,
        monitor.scale_factor == handle.0.scale_factor,
{
}

/// The dark scheme is dark on both sides, and the light one light. What the window system does
/// not know it is not told; what it says besides is light.
pub proof fn lemma_schemes_keep_their_names(
    told: Option<Theme>,
    sent: Option<TaoTheme>,
    seen: TaoTheme,
    reported: Theme,
)
    requires
        call_ensures(to_tao_theme, (told,), sent),
        call_ensures(map_theme, (&seen,), reported),
    ensures
        told == Some(Theme::Dark) <==> sent == Some(TaoTheme::Dark),
        told == Some(Theme::Light) <==> sent == Some(TaoTheme::Light),
        told is None || told == Some(Theme::Other) <==> sent is None,
        seen is Dark <==> reported is Dark,
        seen is Light || seen is Other <==> reported is Light,
{
}

/// An application shows in the dock as it says, and regularly if the window system has no name
/// for that.
pub proof fn lemma_policies_keep_their_names(
    policy: ActivationPolicy,
    sent: TaoActivationPolicy,
)
    requires
        call_ensures(tao_activation_policy, (policy,), sent),
    ensures
        policy is Accessory <==> sent is Accessory,
        policy is Prohibited <==> sent is Prohibited,
        policy is Regular || policy is Other <==> sent is Regular,
{
}

/// Pixels make an icon of their own dimensions. Outside Linux they do so exactly if there is one
/// of four bytes for every point, and at least one; the first thing that is wrong is reported.
pub proof fn lemma_pixels_make_icons(
    platform: Platform,
    icon: Icon,
    made: Result<TaoIcon, Error>,
)
    requires
        made == <TaoIcon as vstd::std_specs::convert::TryFromSpec<
            (Platform, Icon),
        >>::try_from_spec((platform, icon)),
    ensures
        ({
            let (width, height) = (icon.width as int, icon.height as int);
            let bytes = icon.rgba@.len() as int;
            &&& made matches Ok(made) ==> {
                &&& made.rgba == icon.rgba
                &&& made.width == icon.width && made.height == icon.height
            }
            &&& platform == Platform::Linux ==> made is Ok
            &&& platform != Platform::Linux ==> {
                &&& made is Ok <==> width > 0 && height > 0 && bytes == 4 * (width * height)
                &&& width == 0 || height == 0 <==> made is Err && made->Err_0->InvalidIcon_0
                    is DimensionsZero
                &&& width > 0 && height > 0 && bytes % 4 != 0 <==> made is Err
                    && made->Err_0->InvalidIcon_0 is ByteCountNotDivisibleBy4
                &&& made matches Err(error) ==> error is InvalidIcon
                &&& made matches Err(
                    Error::InvalidIcon(
                        BadIcon::DimensionsVsPixelCount {
                            width: w,
                            height: h,
                            width_x_height,
                            pixel_count,
                        },
                    ),
                ) ==> {
                    &&& w == width && h == height
                    &&& width_x_height == width * height
                    &&& 4 * pixel_count == bytes
                }
            }
        }),
{
    let product = icon.width * icon.height;
    assert(product >= 0) by (nonlinear_arith)
        requires
            product == icon.width * icon.height,
    ;
    let bytes: usize = icon.rgba.len();
    assert(bytes % 4 == 0 ==> 4 * (bytes / 4) == bytes);
}

/// What a webview stands in for reaches the application as the event that it is.
pub proof fn lemma_stand_in_events_keep_their_names(
    event: SynthesizedWindowEvent,
    wrapper: WindowEventWrapper,
)
    requires
        wrapper == <WindowEventWrapper as vstd::std_specs::convert::FromSpec<
            SynthesizedWindowEvent,
        >>::from_spec(event),
    ensures
        event matches SynthesizedWindowEvent::Focused(focused) ==> wrapper.0 == Some(
            WindowEvent::Focused(focused),
        ),
        event matches SynthesizedWindowEvent::DragDrop(dragged) ==> wrapper.0 == Some(
            WindowEvent::DragDrop(dragged),
        ),
{
}

} // verus!
