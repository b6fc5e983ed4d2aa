//! Off-screen rendering.
//!
//! CEF cannot embed child windows on Wayland. There it renders into a buffer of
//! BGRA pixels, which is converted to the XRGB format of the window surface and
//! shown from there.

use vstd::prelude::*;

verus! {

/// A rectangle in CEF's coordinates.
#[derive(Debug, Clone, Copy, PartialEq, Eq, Structural)]
pub struct CefRect {
    pub x: i32,
    pub y: i32,
    pub width: i32,
    pub height: i32,
}

/// What CEF learns of the screen.
#[derive(Debug, Clone, Copy, PartialEq, Eq, Structural)]
pub struct ScreenInfo {
    /// The scale factor, as the bits of a 32-bit float.
    pub device_scale_factor: u32,
    pub depth: i32,
    pub depth_per_component: i32,
    pub is_monochrome: i32,
    pub rect: CefRect,
    pub available_rect: CefRect,
}

/// What CEF has painted.
#[derive(Debug, Clone, Copy, PartialEq, Eq, Structural)]
pub enum PaintElementType {
    View,
    Popup,
}

/// State shared between the render callback of CEF and the event loop.
#[derive(Debug)]
pub struct OsrState {
    /// Size of the last frame in physical pixels (what CEF renders at).
    pub size: (i32, i32),
    /// Size of the view in logical pixels (what CEF is told).
    pub logical_size: (i32, i32),
    /// HiDPI scale factor, as the bits of a 32-bit float.
    pub scale_factor: u32,
    /// XRGB pixel buffer (`0x00RRGGBB`).
    pub pixels: Vec<u32>,
    /// True when `pixels` contains a freshly painted frame not yet presented.
    pub dirty: bool,
    /// Last known cursor position in physical pixels (used for click events).
    pub last_cursor: (i32, i32),
}

/// An extent of at least one pixel.
pub open spec fn at_least_one(extent: i32) -> int {
    if extent < 1 {
        1
    } else {
        extent as int
    }
}

/// The number of pixels of a surface.
pub open spec fn area(width: i32, height: i32) -> int {
    at_least_one(width) * at_least_one(height)
}

/// A row of pixels, cut or filled with black to a length.
pub open spec fn fitted(pixels: Seq<u32>, len: nat) -> Seq<u32> {
    Seq::new(
        len,
        |i: int|
            if i < pixels.len() {
                pixels[i]
            } else {
                0
            },
    )
}

/// The XRGB value of the pixel at `index` of a BGRA buffer. The alpha channel is
/// dropped.
pub open spec fn xrgb(bgra: Seq<u8>, index: int) -> int {
    bgra[4 * index + 2] * 0x10000 + bgra[4 * index + 1] * 0x100 + bgra[4 * index]
}

/// CEF has painted a frame that is worth showing.
pub open spec fn is_frame(
    element: PaintElementType,
    buffer: Option<Seq<u8>>,
    width: i32,
    height: i32,
) -> bool {
    element == PaintElementType::View && buffer is Some && width > 0 && height > 0
}

fn extent(value: i32) -> (result: i32)
    ensures
        result == at_least_one(value),
        result >= 1,
{
    if value < 1 {
        1
    } else {
        value
    }
}

fn pixel_count(width: i32, height: i32) -> (count: usize)
    requires
        area(width, height) <= i32::MAX,
    ensures
        count == area(width, height),
        count >= 1,
{
    let columns: i32 = extent(width);
    let rows: i32 = extent(height);
    assert(1 <= columns * rows) by (nonlinear_arith)
        requires
            columns >= 1,
            rows >= 1,
    ;
    let count: i32 = columns * rows;
    count as usize
}

impl OsrState {
    /// The pixel buffer has room for the current size.
    pub open spec fn well_formed(&self) -> bool {
        self.pixels@.len() == area(self.size.0, self.size.1)
    }

    /// A black surface.
    pub fn new(width: i32, height: i32, scale_factor: u32) -> (state: Self)
        requires
            area(width, height) <= i32::MAX,
        ensures
            state.well_formed(),
            state.size == (width, height),
            state.logical_size == (width, height),
            state.scale_factor == scale_factor,
            state.pixels@ == fitted(Seq::empty(), area(width, height) as nat),
            !state.dirty,
            state.last_cursor == (0i32, 0i32),
    {
        let mut pixels: Vec<u32> = Vec::new();
        pixels.resize(pixel_count(width, height), 0u32);
        assert(pixels@ =~= fitted(Seq::empty(), area(width, height) as nat));
        OsrState {
            size: (width, height),
            logical_size: (width, height),
            scale_factor,
            pixels,
            dirty: false,
            last_cursor: (0, 0),
        }
    }

    /// The state after the pixel buffer got room for a size.
    pub open spec fn has_room_for(&self, before: OsrState, width: i32, height: i32) -> bool {
        &&& self.well_formed()
        &&& self.size.0 == at_least_one(width)
        &&& self.size.1 == at_least_one(height)
        &&& self.pixels@ == fitted(before.pixels@, area(width, height) as nat)
        &&& !self.dirty
        &&& self.last_cursor == before.last_cursor
    }

    /// The state after the view got a size.
    pub open spec fn is_resized(
        &self,
        before: OsrState,
        width: i32,
        height: i32,
        scale_factor: u32,
    ) -> bool {
        &&& self.has_room_for(before, width, height)
        &&& self.logical_size == self.size
        &&& self.scale_factor == scale_factor
    }

    /// The state after CEF has painted a frame.
    pub open spec fn is_painted(
        &self,
        before: OsrState,
        bgra: Seq<u8>,
        width: i32,
        height: i32,
    ) -> bool {
        &&& self.size == (width, height)
        &&& self.logical_size == before.logical_size
        &&& self.scale_factor == before.scale_factor
        &&& self.last_cursor == before.last_cursor
        &&& self.dirty
        &&& self.pixels@.len() == width * height
        &&& forall|i: int|
            0 <= i < width * height ==> #[trigger] self.pixels@[i] == xrgb(bgra, i)
    }

    /// A size of the view is another one than the current one.
    pub open spec fn is_new_size(&self, width: i32, height: i32) -> bool {
        self.logical_size != (width, height)
    }

    /// Makes room for `(width, height)` in the pixel buffer.
    fn make_room(&mut self, width: i32, height: i32)
        requires
            area(width, height) <= i32::MAX,
        ensures
            final(self).has_room_for(*old(self), width, height),
            final(self).logical_size == old(self).logical_size,
            final(self).scale_factor == old(self).scale_factor,
    {
        self.size = (extent(width), extent(height));
        let count: usize = pixel_count(width, height);
        self.pixels.resize(count, 0u32);
        self.dirty = false;
        assert(self.pixels@ =~= fitted(old(self).pixels@, area(width, height) as nat));
    }

    /// Gives the view a size, and makes room for it in the pixel buffer.
    pub fn resize(&mut self, width: i32, height: i32, scale_factor: u32)
        requires
            area(width, height) <= i32::MAX,
        ensures
            final(self).is_resized(*old(self), width, height, scale_factor),
    {
        self.make_room(width, height);
        self.logical_size = self.size;
        self.scale_factor = scale_factor;
    }

    /// Gives the view a size if it is another one than the current one. Returns whether
    /// it is.
    ///
    /// CEF paints anew when it learns of a size, and showing what it painted makes the
    /// window report its size again. So CEF is told of a size only if it is new.
    pub fn resize_if_changed(&mut self, width: i32, height: i32, scale_factor: u32) -> (changed:
        bool)
        requires
            area(width, height) <= i32::MAX,
        ensures
            changed == old(self).is_new_size(width, height),
            !changed ==> *final(self) == *old(self),
            changed ==> final(self).is_resized(*old(self), width, height, scale_factor),
    {
        let changed = self.logical_size.0 != width || self.logical_size.1 != height;
        if changed {
            self.resize(width, height, scale_factor);
        }
        changed
    }

    /// The rectangle that CEF renders, in logical pixels.
    pub fn view_rect(&self) -> (rect: CefRect)
        ensures
            rect == (CefRect {
                x: 0,
                y: 0,
                width: self.logical_size.0,
                height: self.logical_size.1,
            }),
    {
        CefRect { x: 0, y: 0, width: self.logical_size.0, height: self.logical_size.1 }
    }

    /// What CEF learns of the screen.
    pub fn screen_info(&self) -> (info: ScreenInfo)
        ensures
            info == ({
                let rect = CefRect {
                    x: 0,
                    y: 0,
                    width: self.logical_size.0,
                    height: self.logical_size.1,
                };
                ScreenInfo {
                    device_scale_factor: self.scale_factor,
                    depth: 32,
                    depth_per_component: 8,
                    is_monochrome: 0,
                    rect,
                    available_rect: rect,
                }
            }),
    {
        ScreenInfo {
            device_scale_factor: self.scale_factor,
            depth: 32,
            depth_per_component: 8,
            is_monochrome: 0,
            rect: self.view_rect(),
            available_rect: self.view_rect(),
        }
    }

    /// Takes a frame over that CEF has painted. Returns whether the window is to be
    /// drawn again.
    ///
    /// `buffer` holds `width * height` pixels in BGRA order, if there is one.
    pub fn on_paint(
        &mut self,
        element: PaintElementType,
        buffer: Option<&[u8]>,
        width: i32,
        height: i32,
    ) -> (redraw: bool)
        requires
            old(self).well_formed(),
            width > 0 && height > 0 ==> width * height <= i32::MAX,
            width > 0 && height > 0 && buffer is Some ==> buffer->Some_0@.len() == width * height
                * 4,
        ensures
            final(self).well_formed(),
            redraw == is_frame(
                element,
                match buffer {
                    Some(buffer) => Some(buffer@),
                    None => None,
                },
                width,
                height,
            ),
            !redraw ==> *final(self) == *old(self),
            redraw ==> final(self).is_painted(*old(self), buffer->Some_0@, width, height),
    {
        match element {
            PaintElementType::View => {},
            PaintElementType::Popup => {
                return false;
            },
        }
        let bgra: &[u8] = match buffer {
            Some(bgra) => bgra,
            None => {
                return false;
            },
        };
        if width <= 0 || height <= 0 {
            return false;
        }
        if self.size.0 != width || self.size.1 != height {
            self.make_room(width, height);
        }
        assert(area(width, height) == width * height);
        let count: usize = pixel_count(width, height);
        let mut index: usize = 0;
        while index < count
            invariant
                index <= count,
                count == width * height,
                self.pixels@.len() == count,
                self.size == (width, height),
                self.logical_size == old(self).logical_size,
                self.scale_factor == old(self).scale_factor,
                self.last_cursor == old(self).last_cursor,
                bgra@.len() == width * height * 4,
                forall|i: int| 0 <= i < index ==> #[trigger] self.pixels@[i] == xrgb(bgra@, i),
            decreases count - index,
        {
            assert(index * 4 < bgra.len());
            let start: usize = index * 4;
            let b: u32 = bgra[start] as u32;
            let g: u32 = bgra[start + 1] as u32;
            let r: u32 = bgra[start + 2] as u32;
            assert((r << 16) | (g << 8) | b == r * 0x10000 + g * 0x100 + b) by (bit_vector)
                requires
                    r < 256,
                    g < 256,
                    b < 256,
            ;
            self.pixels[index] = (r << 16) | (g << 8) | b;
            index = index + 1;
        }
        self.dirty = true;
        true
    }
}

/// The surface of a window that frames are shown on.
#[derive(Debug)]
pub struct OsrSurface {
    pub width: u32,
    pub height: u32,
    /// One `0x00RRGGBB` value for each pixel of the surface.
    pub buffer: Vec<u32>,
}

impl OsrSurface {
    /// A surface on which nothing was shown yet.
    pub fn new() -> (surface: Self)
        ensures
            surface.width == 0,
            surface.height == 0,
            surface.buffer@ == Seq::<u32>::empty(),
    {
        OsrSurface { width: 0, height: 0, buffer: Vec::new() }
    }

    /// Makes the surface `width` by `height` pixels large and puts a frame on it.
    ///
    /// What the surface has more than the frame is black; what the frame has more
    /// is not shown.
    pub fn present(&mut self, pixels: &[u32], width: i32, height: i32)
        requires
            area(width, height) <= u32::MAX,
        ensures
            final(self).width == at_least_one(width),
            final(self).height == at_least_one(height),
            final(self).buffer@ == fitted(pixels@, area(width, height) as nat),
    {
        let columns: u32 = extent(width) as u32;
        let rows: u32 = extent(height) as u32;
        assert(1 <= columns * rows) by (nonlinear_arith)
            requires
                columns >= 1,
                rows >= 1,
        ;
        let expected: usize = (columns * rows) as usize;
        let mut buffer: Vec<u32> = Vec::new();
        let mut index: usize = 0;
        while index < expected
            invariant
                index <= expected,
                buffer@ == fitted(pixels@, index as nat),
            decreases expected - index,
        {
            let pixel: u32 = if index < pixels.len() {
                pixels[index]
            } else {
                0
            };
            buffer.push(pixel);
            index = index + 1;
            assert(buffer@ =~= fitted(pixels@, index as nat));
        }
        self.width = columns;
        self.height = rows;
        self.buffer = buffer;
    }
}

/// Shows the frame that CEF has painted, unless it was shown already. Returns whether it
/// was shown now.
pub fn present_frame(surface: &mut OsrSurface, state: &mut OsrState) -> (shown: bool)
    requires
        area(old(state).size.0, old(state).size.1) <= u32::MAX,
    ensures
        shown == old(state).dirty,
        *final(state) == (OsrState { dirty: false, ..*old(state) }),
        !shown ==> *final(surface) == *old(surface),
        shown ==> {
            &&& final(surface).width == at_least_one(old(state).size.0)
            &&& final(surface).height == at_least_one(old(state).size.1)
            &&& final(surface).buffer@ == fitted(
                old(state).pixels@,
                area(old(state).size.0, old(state).size.1) as nat,
            )
        },
{
    if state.dirty {
        surface.present(state.pixels.as_slice(), state.size.0, state.size.1);
        state.dirty = false;
        true
    } else {
        false
    }
}

/// A size that the view was given is not new until the view is given another one,
/// whatever CEF paints in between.
pub proof fn lemma_second_resize_changes_nothing(
    before: OsrState,
    resized: OsrState,
    painted: OsrState,
    width: i32,
    height: i32,
    scale_factor: u32,
    bgra: Seq<u8>,
    frame: (i32, i32),
)
    requires
        width >= 1,
        height >= 1,
        resized.is_resized(before, width, height, scale_factor),
        painted.is_painted(resized, bgra, frame.0, frame.1),
    ensures
        !resized.is_new_size(width, height),
        !painted.is_new_size(width, height),
        painted.scale_factor == scale_factor,
{
}

/// A frame that was painted at the size of the surface is shown as it was painted.
pub proof fn lemma_painted_frame_is_shown(pixels: Seq<u32>, width: i32, height: i32)
    requires
        pixels.len() == area(width, height),
    ensures
        fitted(pixels, area(width, height) as nat) == pixels,
{
    assert(fitted(pixels, area(width, height) as nat) =~= pixels);
}

/// Two pixels have the same XRGB value exactly if their colors are the same; the
/// alpha channel plays no part.
pub proof fn lemma_xrgb_keeps_colors(bgra: Seq<u8>, first: int, second: int)
    ensures
        xrgb(bgra, first) == xrgb(bgra, second) <==> {
            &&& bgra[4 * first] == bgra[4 * second]
            &&& bgra[4 * first + 1] == bgra[4 * second + 1]
            &&& bgra[4 * first + 2] == bgra[4 * second + 2]
        },
{
}

/// After the view was given a size it has that size, whatever it had before, and it was not
/// new only if the view had it already, along both axes. A size that is not new leaves
/// everything as it was; a new one brings the scale factor with it, and no frame is left to
/// show.
pub proof fn lemma_view_gets_its_size(width: i32, height: i32, scale_factor: u32, changed: bool)
    requires
        width >= 1,
        height >= 1,
    ensures
        forall|state: &mut OsrState| #[trigger]
            call_ensures(
                OsrState::resize_if_changed,
                (state, width, height, scale_factor),
                changed,
            ) ==> {
                &&& (*final(state)).logical_size == (width, height)
                &&& !changed <==> (*state).logical_size.0 == width && (*state).logical_size.1
                    == height
                &&& !changed ==> *final(state) == *state
                &&& changed ==> {
                    &&& (*final(state)).size == (width, height)
                    &&& (*final(state)).scale_factor == scale_factor
                    &&& !(*final(state)).dirty
                    &&& (*final(state)).pixels@.len() == width * height
                    &&& (*final(state)).last_cursor == (*state).last_cursor
                }
            },
{
}

/// A view that is resized has the size and the scale factor that it was given, but at least
/// one pixel each way, room for exactly that many pixels, and no frame to show. Pixels that
/// it keeps stay, and what it gains is black.
pub proof fn lemma_resized_view_has_room(width: i32, height: i32, scale_factor: u32)
    ensures
        forall|state: &mut OsrState| #[trigger]
            call_ensures(OsrState::resize, (state, width, height, scale_factor), ()) ==> {
                let after = *final(state);
                let wide = if width < 1 {
                    1
                } else {
                    width
                };
                let high = if height < 1 {
                    1
                } else {
                    height
                };
                &&& after.size == (wide, high)
                &&& after.logical_size == (wide, high)
                &&& after.scale_factor == scale_factor
                &&& !after.dirty
                &&& after.last_cursor == (*state).last_cursor
                &&& after.pixels@.len() == wide * high
                &&& forall|i: int|
                    0 <= i < after.pixels@.len() ==> #[trigger] after.pixels@[i] == if i
                        < (*state).pixels@.len() {
                        (*state).pixels@[i]
                    } else {
                        0
                    }
            },
{
}

/// A frame that CEF has painted is taken over pixel by pixel: red, green and blue are the
/// third, second and first byte of each four. The window is to be drawn again then, and only
/// then: popups, missing frames and empty ones change nothing.
pub proof fn lemma_frames_are_taken_over(
    element: PaintElementType,
    buffer: &[u8],
    width: i32,
    height: i32,
    redraw: bool,
    i: int,
)
    ensures
        forall|state: &mut OsrState| #[trigger]
            call_ensures(
                OsrState::on_paint,
                (state, element, Some(buffer), width, height),
                redraw,
            ) ==> {
                let after = *final(state);
                &&& redraw <==> element == PaintElementType::View && width > 0 && height > 0
                &&& !redraw ==> after == *state
                &&& redraw ==> {
                    &&& after.dirty
                    &&& after.size == (width, height)
                    &&& after.logical_size == (*state).logical_size
                    &&& after.scale_factor == (*state).scale_factor
                    &&& after.last_cursor == (*state).last_cursor
                    &&& after.pixels@.len() == width * height
                    &&& 0 <= i < width * height ==> after.pixels@[i] == 65536 * buffer@[4 * i + 2]
                        + 256 * buffer@[4 * i + 1] + buffer@[4 * i]
                }
            },
        forall|state: &mut OsrState| #[trigger]
            call_ensures(
                OsrState::on_paint,
                (state, element, None::<&[u8]>, width, height),
                redraw,
            ) ==> !redraw && *final(state) == *state,
{
}

/// A frame is shown once: it is put on a surface of its size, pixel by pixel, and then there
/// is no frame to show until another one is painted. Without a frame the surface stays as it
/// is. Nothing else of the state changes.
pub proof fn lemma_frames_are_shown_once(shown: bool, i: int)
    ensures
        forall|surface: &mut OsrSurface, state: &mut OsrState| #[trigger]
            call_ensures(present_frame, (surface, state), shown) ==> {
                let before = *state;
                let after = *final(surface);
                &&& shown <==> before.dirty
                &&& !(*final(state)).dirty
                &&& (*final(state)).pixels@ == before.pixels@
                &&& (*final(state)).size == before.size
                &&& (*final(state)).logical_size == before.logical_size
                &&& (*final(state)).scale_factor == before.scale_factor
                &&& (*final(state)).last_cursor == before.last_cursor
                &&& !shown ==> after == *surface
                &&& shown && before.size.0 >= 1 && before.size.1 >= 1 ==> {
                    &&& after.width == before.size.0
                    &&& after.height == before.size.1
                    &&& after.buffer@.len() == before.size.0 * before.size.1
                    &&& 0 <= i < after.buffer@.len() ==> after.buffer@[i] == if i
                        < before.pixels@.len() {
                        before.pixels@[i]
                    } else {
                        0
                    }
                }
            },
{
}

/// CEF renders the whole view, from its corner, in logical pixels, and the screen is as large
/// as the view: it has 32 bits for a pixel, 8 of them for each color, and the scale factor of
/// the view.
pub proof fn lemma_cef_learns_of_the_view(state: &OsrState, rect: CefRect, info: ScreenInfo)
    requires
        call_ensures(OsrState::view_rect, (state,), rect),
        call_ensures(OsrState::screen_info, (state,), info),
    ensures
        rect.x == 0 && rect.y == 0,
        (rect.width, rect.height) == state.logical_size,
        info.rect == rect,
        info.available_rect == rect,
        info.device_scale_factor == state.scale_factor,
        info.depth == 32,
        info.depth_per_component == 8,
        info.is_monochrome == 0,
{
}

/// A new view is black, has the size it was made with and no frame to show.
pub proof fn lemma_new_view_is_black(
    width: i32,
    height: i32,
    scale_factor: u32,
    state: OsrState,
    i: int,
)
    requires
        call_ensures(OsrState::new, (width, height, scale_factor), state),
        width >= 1,
        height >= 1,
    ensures
        state.size == (width, height),
        state.logical_size == (width, height),
        state.scale_factor == scale_factor,
        !state.dirty,
        state.last_cursor == (0i32, 0i32),
        state.pixels@.len() == width * height,
        0 <= i < state.pixels@.len() ==> state.pixels@[i] == 0,
{
}

} // verus!
