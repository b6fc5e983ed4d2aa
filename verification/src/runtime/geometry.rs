//! Where windows and webviews go.

use crate::runtime::dpi::{PhysicalPosition, PhysicalRect, PhysicalSize};
use vstd::prelude::*;

verus! {

/// A rectangle that is too small to be meant.
pub open spec fn is_degenerate(bounds: PhysicalRect) -> bool {
    bounds.size.width <= 1 || bounds.size.height <= 1
}

/// A window extent of at least one pixel.
pub open spec fn at_least_one(extent: u32) -> u32 {
    if extent == 0 {
        1
    } else {
        extent
    }
}

/// The bounds that a webview is meant to have: those given, or the whole window.
pub open spec fn meant_bounds(bounds: PhysicalRect, window: PhysicalSize<u32>) -> PhysicalRect {
    if is_degenerate(bounds) {
        PhysicalRect {
            position: PhysicalPosition { x: 0, y: 0 },
            size: PhysicalSize {
                width: at_least_one(window.width),
                height: at_least_one(window.height),
            },
        }
    } else {
        bounds
    }
}

/// Where a webview begins along an axis of a window: at the edge of the window if
/// it would lie outside. A window without extent has no outside on the far side.
pub open spec fn sanitized_start(start: i32, window: u32) -> i32 {
    if start < 0 || (window > 0 && start >= window) {
        0
    } else {
        start
    }
}

/// How far a webview reaches along an axis of a window: not beyond the window,
/// unless that has no extent.
pub open spec fn sanitized_extent(start: i32, extent: u32, window: u32) -> int {
    if window > 0 && extent > window - start {
        window - start
    } else {
        extent as int
    }
}

/// The bounds that a webview gets in a window.
pub open spec fn sanitized(bounds: PhysicalRect, window: PhysicalSize<u32>) -> PhysicalRect {
    let meant = meant_bounds(bounds, window);
    let x = sanitized_start(meant.position.x, window.width);
    let y = sanitized_start(meant.position.y, window.height);
    PhysicalRect {
        position: PhysicalPosition { x, y },
        size: PhysicalSize {
            width: sanitized_extent(x, meant.size.width, window.width) as u32,
            height: sanitized_extent(y, meant.size.height, window.height) as u32,
        },
    }
}

fn start_in(start: i32, window: u32) -> (result: i32)
    ensures
        result == sanitized_start(start, window),
        result >= 0,
        window > 0 ==> result < window,
{
    if start < 0 {
        0
    } else if window > 0 && start as u32 >= window {
        0
    } else {
        start
    }
}

fn extent_in(start: i32, extent: u32, window: u32) -> (result: u32)
    requires
        start >= 0,
        window > 0 ==> start < window,
    ensures
        result == sanitized_extent(start, extent, window),
{
    if window > 0 {
        let room: u32 = window - start as u32;
        if extent < room {
            extent
        } else {
            room
        }
    } else {
        extent
    }
}

/// Keeps the bounds of a webview within its window, which is `window` pixels large.
pub fn sanitize_bounds_for_window(bounds: PhysicalRect, window: PhysicalSize<u32>) -> (result:
    PhysicalRect)
    ensures
        result == sanitized(bounds, window),
{
    let mut position = bounds.position;
    let mut size = bounds.size;
    if size.width <= 1 || size.height <= 1 {
        position = PhysicalPosition { x: 0, y: 0 };
        size = PhysicalSize {
            width: if window.width == 0 {
                1
            } else {
                window.width
            },
            height: if window.height == 0 {
                1
            } else {
                window.height
            },
        };
    }
    let x: i32 = start_in(position.x, window.width);
    let y: i32 = start_in(position.y, window.height);
    PhysicalRect {
        position: PhysicalPosition { x, y },
        size: PhysicalSize {
            width: extent_in(x, size.width, window.width),
            height: extent_in(y, size.height, window.height),
        },
    }
}

/// A webview lies within its window, and covers at least one pixel of it, whatever
/// bounds it was given.
pub proof fn lemma_webview_lies_in_window(bounds: PhysicalRect, window: PhysicalSize<u32>)
    requires
        window.width > 0,
        window.height > 0,
    ensures
        ({
            let result = sanitized(bounds, window);
            &&& 0 <= result.position.x
            &&& 0 <= result.position.y
            &&& 1 <= result.size.width
            &&& 1 <= result.size.height
            &&& result.position.x + result.size.width <= window.width
            &&& result.position.y + result.size.height <= window.height
        }),
{
}

/// Bounds that lie within a window are kept, unless they are too small to be meant.
pub proof fn lemma_good_bounds_are_kept(bounds: PhysicalRect, window: PhysicalSize<u32>)
    requires
        !is_degenerate(bounds),
        0 <= bounds.position.x,
        0 <= bounds.position.y,
        bounds.position.x + bounds.size.width <= window.width,
        bounds.position.y + bounds.size.height <= window.height,
    ensures
        sanitized(bounds, window) == bounds,
{
}

/// What was sanitized once stays as it is, unless it came out too small to be
/// meant.
pub proof fn lemma_sanitizing_is_idempotent(bounds: PhysicalRect, window: PhysicalSize<u32>)
    requires
        !is_degenerate(sanitized(bounds, window)),
    ensures
        sanitized(sanitized(bounds, window), window) == sanitized(bounds, window),
{
}

/// A monitor, and where a window would be on it.
#[derive(Debug, Clone, Copy, PartialEq, Eq, Structural)]
pub struct MonitorCandidate {
    pub position: PhysicalPosition<i32>,
    pub size: PhysicalSize<u32>,
    /// The position of the window in the pixels of this monitor.
    pub window_position: PhysicalPosition<i32>,
}

/// The window would begin on the monitor.
pub open spec fn holds_window(candidate: MonitorCandidate) -> bool {
    &&& candidate.position.x <= candidate.window_position.x < candidate.position.x
        + candidate.size.width
    &&& candidate.position.y <= candidate.window_position.y < candidate.position.y
        + candidate.size.height
}

/// The window would begin on none of the monitors.
pub open spec fn none_holds_window(candidates: Seq<MonitorCandidate>) -> bool {
    forall|i: int| 0 <= i < candidates.len() ==> !holds_window(#[trigger] candidates[i])
}

/// The first monitor that the window would begin on.
pub fn monitor_of_window(candidates: &Vec<MonitorCandidate>) -> (index: Option<usize>)
    ensures
        index matches Some(index) ==> {
            &&& index < candidates@.len()
            &&& holds_window(candidates@[index as int])
            &&& none_holds_window(candidates@.take(index as int))
        },
        index is None ==> none_holds_window(candidates@),
{
    let mut index: usize = 0;
    while index < candidates.len()
        invariant
            index <= candidates@.len(),
            forall|i: int| 0 <= i < index ==> !holds_window(#[trigger] candidates@[i]),
        decreases candidates@.len() - index,
    {
        let candidate = candidates[index];
        let x: i64 = candidate.window_position.x as i64;
        let y: i64 = candidate.window_position.y as i64;
        let left: i64 = candidate.position.x as i64;
        let top: i64 = candidate.position.y as i64;
        if left <= x && x < left + candidate.size.width as i64 && top <= y && y < top
            + candidate.size.height as i64 {
            return Some(index);
        }
        index = index + 1;
    }
    None
}

/// The frame that the window system draws around a window, relative to its content.
#[derive(Debug, Clone, Copy, PartialEq, Eq, Structural)]
pub struct FrameRect {
    pub left: i32,
    pub top: i32,
    pub right: i32,
}

/// What is known of a monitor when a window is fitted to it.
#[derive(Debug, Clone, Copy, PartialEq, Eq, Structural)]
pub struct FitRequest {
    /// The size that the content of the window is to have, within its bounds.
    pub inner_size: PhysicalSize<u32>,
    /// The frame around the content, where the window system counts it.
    pub frame: Option<FrameRect>,
    /// The margin to keep to the edges of the work area, if overflow is prevented.
    pub margin: Option<PhysicalSize<u32>>,
    /// The part of the monitor that windows may cover.
    pub work_area: PhysicalRect,
    /// The window goes into the center of the work area.
    pub center: bool,
}

/// How a window was fitted to a monitor.
#[derive(Debug, Clone, Copy, PartialEq, Eq, Structural)]
pub struct WindowFit {
    /// The size that the content gets, if it is not the one it was to have.
    pub inner_size: Option<PhysicalSize<u32>>,
    /// Where the window goes, if that was asked for.
    pub position: Option<PhysicalPosition<i32>>,
}

/// The height that a frame adds at the top.
pub open spec fn frame_height(frame: Option<FrameRect>) -> int {
    match frame {
        Some(frame) => -frame.top,
        None => 0,
    }
}

/// The width of the shadow at both sides of a frame. It counts for the position of
/// a window, but not for its size.
pub open spec fn shadow_width(frame: Option<FrameRect>) -> int {
    match frame {
        Some(frame) => frame.right - frame.left,
        None => 0,
    }
}

/// The smaller of two lengths.
pub open spec fn smaller(first: int, second: int) -> int {
    if first < second {
        first
    } else {
        second
    }
}

/// A length cut by what it has too much, but not below zero.
pub open spec fn cut(length: int, excess: int) -> int {
    if excess <= 0 {
        length
    } else if length < excess {
        0
    } else {
        length - excess
    }
}

/// What a window may be wide and high within the work area and its margin.
pub open spec fn room(request: FitRequest) -> (int, int) {
    (
        request.work_area.size.width - request.margin->Some_0.width,
        request.work_area.size.height - request.margin->Some_0.height,
    )
}

/// The window, with its frame, is larger than its room.
pub open spec fn overflows(request: FitRequest) -> bool {
    &&& request.margin is Some
    &&& request.inner_size.width > room(request).0 || request.inner_size.height + frame_height(
        request.frame,
    ) > room(request).1
}

/// The width of the window on the screen, without its shadow.
pub open spec fn fitted_width(request: FitRequest) -> int {
    if request.margin is Some {
        smaller(request.inner_size.width as int, room(request).0)
    } else {
        request.inner_size.width as int
    }
}

/// The height of the window on the screen.
pub open spec fn fitted_height(request: FitRequest) -> int {
    let height = request.inner_size.height + frame_height(request.frame);
    if request.margin is Some {
        smaller(height, room(request).1)
    } else {
        height
    }
}

/// The numbers of a request stay within those of the window system. The shadow counts only
/// where the window goes into the center.
pub open spec fn is_reasonable(request: FitRequest) -> bool {
    &&& 0 <= frame_height(request.frame)
    &&& request.inner_size.height + frame_height(request.frame) <= u32::MAX
    &&& request.margin matches Some(margin) ==> {
        &&& margin.width <= request.work_area.size.width
        &&& margin.height <= request.work_area.size.height
    }
    &&& request.center ==> {
        &&& 0 <= shadow_width(request.frame) <= i32::MAX
        &&& fitted_width(request) + shadow_width(request.frame) <= u32::MAX
    }
}

/// The size that the content of an overflowing window is cut to.
pub open spec fn fitted_inner_size(request: FitRequest) -> PhysicalSize<u32> {
    PhysicalSize {
        width: cut(
            request.inner_size.width as int,
            request.inner_size.width - room(request).0,
        ) as u32,
        height: cut(
            request.inner_size.height as int,
            request.inner_size.height + frame_height(request.frame) - room(request).1,
        ) as u32,
    }
}

/// Half of a difference, rounded toward zero.
pub open spec fn half(difference: int) -> int {
    if difference < 0 {
        -((-difference) / 2)
    } else {
        difference / 2
    }
}

/// Where a window of a size begins when it is in the center of a work area.
pub open spec fn center_position(width: int, height: int, work_area: PhysicalRect) -> (int, int) {
    (
        half(work_area.size.width - width) + work_area.position.x,
        half(work_area.size.height - height) + work_area.position.y,
    )
}

/// The position is one that the window system can express.
pub open spec fn is_position(position: (int, int)) -> bool {
    i32::MIN <= position.0 <= i32::MAX && i32::MIN <= position.1 <= i32::MAX
}

/// Where a window of a size begins when it is in the center of a work area.
pub fn calculate_window_center_position(
    window_size: PhysicalSize<u32>,
    work_area: PhysicalRect,
) -> (position: PhysicalPosition<i32>)
    requires
        is_position(
            center_position(window_size.width as int, window_size.height as int, work_area),
        ),
    ensures
        (position.x as int, position.y as int) == center_position(
            window_size.width as int,
            window_size.height as int,
            work_area,
        ),
{
    let x: i64 = half_of(work_area.size.width, window_size.width) + work_area.position.x as i64;
    let y: i64 = half_of(work_area.size.height, window_size.height) + work_area.position.y as i64;
    PhysicalPosition { x: x as i32, y: y as i32 }
}

fn half_of(outer: u32, inner: u32) -> (result: i64)
    ensures
        result == half(outer - inner),
        -0x8000_0000 <= result <= 0x7fff_ffff,
{
    if outer < inner {
        -(((inner - outer) / 2) as i64)
    } else {
        ((outer - inner) / 2) as i64
    }
}

/// Fits a window to a monitor: cuts its content if it would overflow, and finds its
/// place if it goes into the center.
pub fn fit_window(request: FitRequest) -> (fit: WindowFit)
    requires
        is_reasonable(request),
        request.center ==> is_position(
            center_position(
                fitted_width(request) + shadow_width(request.frame),
                fitted_height(request),
                request.work_area,
            ),
        ),
    ensures
        fit.inner_size == if overflows(request) {
            Some(fitted_inner_size(request))
        } else {
            None
        },
        fit.position is Some <==> request.center,
        fit.position matches Some(position) ==> (position.x as int, position.y as int)
            == center_position(
            fitted_width(request) + shadow_width(request.frame),
            fitted_height(request),
            request.work_area,
        ),
{
    let mut inner_size = request.inner_size;
    let mut window_size = request.inner_size;
    if let Some(frame) = request.frame {
        window_size.height = window_size.height + (-(frame.top as i64)) as u32;
    }
    let mut fitted: Option<PhysicalSize<u32>> = None;
    if let Some(margin) = request.margin {
        let constraint_width: u32 = request.work_area.size.width - margin.width;
        let constraint_height: u32 = request.work_area.size.height - margin.height;
        if window_size.width > constraint_width || window_size.height > constraint_height {
            if window_size.width > constraint_width {
                let excess: u32 = window_size.width - constraint_width;
                inner_size.width = if inner_size.width < excess {
                    0
                } else {
                    inner_size.width - excess
                };
                window_size.width = constraint_width;
            }
            if window_size.height > constraint_height {
                let excess: u32 = window_size.height - constraint_height;
                inner_size.height = if inner_size.height < excess {
                    0
                } else {
                    inner_size.height - excess
                };
                window_size.height = constraint_height;
            }
            fitted = Some(inner_size);
        }
    }
    let position = if request.center {
        if let Some(frame) = request.frame {
            let shadow: u32 = (frame.right as i64 - frame.left as i64) as u32;
            window_size.width = window_size.width + shadow;
        }
        Some(calculate_window_center_position(window_size, request.work_area))
    } else {
        None
    };
    WindowFit { inner_size: fitted, position }
}

/// A window whose overflow is prevented covers no more of the screen than its room,
/// and its content is cut by no more than the window was too large.
pub proof fn lemma_fitted_window_does_not_overflow(request: FitRequest)
    requires
        is_reasonable(request),
        request.margin is Some,
    ensures
        fitted_width(request) <= room(request).0,
        fitted_height(request) <= room(request).1,
        fitted_inner_size(request).width <= request.inner_size.width,
        fitted_inner_size(request).height <= request.inner_size.height,
        frame_height(request.frame) <= room(request).1 ==> fitted_inner_size(request).height
            + frame_height(request.frame) == fitted_height(request),
        fitted_inner_size(request).width == fitted_width(request),
{
}

/// A window in the center of a work area leaves as much room before it as after it,
/// up to one pixel.
pub proof fn lemma_center_is_in_the_middle(width: int, height: int, work_area: PhysicalRect)
    ensures
        ({
            let position = center_position(width, height, work_area);
            let before = position.0 - work_area.position.x;
            let after = work_area.size.width - width - before;
            -1 <= before - after <= 1
        }),
        ({
            let position = center_position(width, height, work_area);
            let before = position.1 - work_area.position.y;
            let after = work_area.size.height - height - before;
            -1 <= before - after <= 1
        }),
{
}

/// What a window gets when it is fitted with a margin is no wider than the work area without
/// the margin, and with its frame no higher, if the frame itself fits; each axis by itself.
/// An axis that was not too large is left as it was.
pub proof fn lemma_fitted_content_has_room(request: FitRequest, fit: WindowFit)
    requires
        is_reasonable(request),
        call_ensures(fit_window, (request,), fit),
    ensures
        ({
            let content = match fit.inner_size {
                Some(size) => size,
                None => request.inner_size,
            };
            let frame: int = match request.frame {
                Some(frame) => -frame.top,
                None => 0,
            };
            match request.margin {
                Some(margin) => {
                    let width = request.work_area.size.width - margin.width;
                    let height = request.work_area.size.height - margin.height;
                    &&& content.width <= width
                    &&& frame <= height ==> content.height + frame <= height
                    &&& frame > height ==> content.height == 0
                    &&& request.inner_size.width <= width ==> content.width
                        == request.inner_size.width
                    &&& request.inner_size.width > width ==> content.width == width
                    &&& request.inner_size.height + frame <= height ==> content.height
                        == request.inner_size.height
                    &&& request.inner_size.height + frame > height && frame <= height
                        ==> content.height + frame == height
                },
                None => content == request.inner_size,
            }
        }),
{
}

/// A window gets another size only if it would overflow, along one axis at least, and then
/// the size is another one.
pub proof fn lemma_only_overflowing_windows_are_cut(request: FitRequest, fit: WindowFit)
    requires
        is_reasonable(request),
        call_ensures(fit_window, (request,), fit),
        request.frame matches Some(frame) ==> frame.top <= 0,
    ensures
        request.margin is None ==> fit.inner_size is None,
        request.margin matches Some(margin) ==> (fit.inner_size is Some <==> {
            ||| request.inner_size.width > request.work_area.size.width - margin.width
            ||| request.inner_size.height - (match request.frame {
                Some(frame) => frame.top as int,
                None => 0,
            }) > request.work_area.size.height - margin.height
        }),
{
}

/// A window that goes into the center leaves as much of the work area free before it as
/// after it, up to one pixel, along each axis: with its shadow at both sides, and with its
/// frame at the top. A window that does not is not placed.
pub proof fn lemma_fitted_window_is_centered(request: FitRequest, fit: WindowFit)
    requires
        is_reasonable(request),
        call_ensures(fit_window, (request,), fit),
    ensures
        fit.position is Some <==> request.center,
        fit.position matches Some(position) ==> {
            let (frame, shadow): (int, int) = match request.frame {
                Some(frame) => (-frame.top, frame.right - frame.left),
                None => (0, 0),
            };
            let area = request.work_area;
            let width = request.inner_size.width as int;
            let height = request.inner_size.height + frame;
            let (most_wide, most_high): (int, int) = match request.margin {
                Some(margin) => (area.size.width - margin.width, area.size.height - margin.height),
                None => (width, height),
            };
            let wide = shadow + if width < most_wide {
                width
            } else {
                most_wide
            };
            let high = if height < most_high {
                height
            } else {
                most_high
            };
            let left = position.x - area.position.x;
            let top = position.y - area.position.y;
            &&& -1 <= left - (area.size.width - wide - left) <= 1
            &&& -1 <= top - (area.size.height - high - top) <= 1
            &&& (area.size.width - wide) % 2 == 0 ==> left == area.size.width - wide - left
            &&& (area.size.height - high) % 2 == 0 ==> top == area.size.height - high - top
        },
{
}

/// A window without a frame that is as large as the work area begins where that does; one
/// that is moved with the work area keeps its place in it.
pub proof fn lemma_center_follows_the_work_area(
    size: PhysicalSize<u32>,
    work_area: PhysicalRect,
    moved: PhysicalRect,
    position: PhysicalPosition<i32>,
    other: PhysicalPosition<i32>,
)
    requires
        call_ensures(calculate_window_center_position, (size, work_area), position),
        call_ensures(calculate_window_center_position, (size, moved), other),
        moved.size == work_area.size,
    ensures
        size == work_area.size ==> position == work_area.position,
        other.x - position.x == moved.position.x - work_area.position.x,
        other.y - position.y == moved.position.y - work_area.position.y,
        work_area.size.width >= size.width ==> position.x >= work_area.position.x,
        work_area.size.height >= size.height ==> position.y >= work_area.position.y,
{
}

/// A distance along an axis falls within an extent.
pub open spec fn falls_within(distance: int, extent: u32) -> bool {
    0 <= distance && distance < extent
}

/// The monitor of a window is the first that holds the place where the window begins, with
/// its left and top edge but without its right and bottom edge.
pub proof fn lemma_monitor_holds_the_window(
    candidates: &Vec<MonitorCandidate>,
    index: Option<usize>,
    at: int,
)
    requires
        call_ensures(monitor_of_window, (candidates,), index),
        0 <= at < candidates@.len(),
    ensures
        index matches Some(index) ==> {
            let found = candidates@[index as int];
            &&& index < candidates@.len()
            &&& falls_within(found.window_position.x - found.position.x, found.size.width)
            &&& falls_within(found.window_position.y - found.position.y, found.size.height)
        },
        ({
            let monitor = candidates@[at];
            let inside = falls_within(
                monitor.window_position.x - monitor.position.x,
                monitor.size.width,
            ) && falls_within(
                monitor.window_position.y - monitor.position.y,
                monitor.size.height,
            );
            inside ==> index is Some && index->Some_0 <= at
        }),
{
    let monitor = candidates@[at];
    if let Some(index) = index {
        if at < index {
            assert(candidates@.take(index as int)[at] == monitor);
        }
    }
    assert(holds_window(monitor) <==> falls_within(
        monitor.window_position.x - monitor.position.x,
        monitor.size.width,
    ) && falls_within(monitor.window_position.y - monitor.position.y, monitor.size.height));
}

/// A webview that begins outside its window begins at its edge, and one that reaches beyond
/// it is cut there, along each axis by itself; one that is too small to be meant gets the
/// whole window.
pub proof fn lemma_each_axis_is_sanitized(
    bounds: PhysicalRect,
    window: PhysicalSize<u32>,
    result: PhysicalRect,
)
    requires
        call_ensures(sanitize_bounds_for_window, (bounds, window), result),
        window.width > 0,
        window.height > 0,
    ensures
        bounds.size.width <= 1 || bounds.size.height <= 1 ==> result == (PhysicalRect {
            position: PhysicalPosition { x: 0, y: 0 },
            size: window,
        }),
        bounds.size.width > 1 && bounds.size.height > 1 ==> {
            let (x, y) = (bounds.position.x, bounds.position.y);
            let (right, bottom) = (x + bounds.size.width, y + bounds.size.height);
            &&& 0 <= x < window.width ==> result.position.x == x
            &&& !(0 <= x < window.width) ==> result.position.x == 0
            &&& 0 <= y < window.height ==> result.position.y == y
            &&& !(0 <= y < window.height) ==> result.position.y == 0
            &&& 0 <= x && right <= window.width ==> result.size.width == bounds.size.width
            &&& 0 <= x < window.width && right > window.width ==> x + result.size.width
                == window.width
            &&& 0 <= y && bottom <= window.height ==> result.size.height == bounds.size.height
            &&& 0 <= y < window.height && bottom > window.height ==> y + result.size.height
                == window.height
            &&& !(0 <= x < window.width) ==> result.size.width == (if bounds.size.width
                <= window.width {
                bounds.size.width
            } else {
                window.width
            })
            &&& !(0 <= y < window.height) ==> result.size.height == (if bounds.size.height
                <= window.height {
                bounds.size.height
            } else {
                window.height
            })
        },
{
}

/// In a window without extent a webview keeps its size, and begins at the edge unless it
/// begins after it; one that is too small to be meant is as large as a pixel there.
pub proof fn lemma_window_without_extent(bounds: PhysicalRect, result: PhysicalRect)
    requires
        call_ensures(
            sanitize_bounds_for_window,
            (bounds, (PhysicalSize { width: 0u32, height: 0u32 })),
            result,
        ),
    ensures
        bounds.size.width <= 1 || bounds.size.height <= 1 ==> result == (PhysicalRect {
            position: PhysicalPosition { x: 0, y: 0 },
            size: PhysicalSize { width: 1, height: 1 },
        }),
        bounds.size.width > 1 && bounds.size.height > 1 ==> {
            &&& result.size == bounds.size
            &&& result.position.x == if bounds.position.x < 0 {
                0
            } else {
                bounds.position.x
            }
            &&& result.position.y == if bounds.position.y < 0 {
                0
            } else {
                bounds.position.y
            }
        },
{
}

} // verus!
