//! Positions and sizes.
//!
//! Physical coordinates are pixels; logical coordinates do not depend on the scale
//! factor of a monitor. Numbers with a fraction are carried as their bits: this
//! library hands them on and never computes with them.

use vstd::prelude::*;

verus! {

/// A 64-bit floating-point number, by its bits.
#[derive(Debug, Clone, Copy, PartialEq, Eq, Structural)]
pub struct Float64 {
    pub bits: u64,
}

/// A 32-bit floating-point number, by its bits.
#[derive(Debug, Clone, Copy, PartialEq, Eq, Structural)]
pub struct Float32 {
    pub bits: u32,
}

/// A position in pixels.
#[derive(Debug, Clone, Copy, PartialEq, Eq, Structural)]
pub struct PhysicalPosition<P> {
    pub x: P,
    pub y: P,
}

/// A position in logical units.
#[derive(Debug, Clone, Copy, PartialEq, Eq, Structural)]
pub struct LogicalPosition<P> {
    pub x: P,
    pub y: P,
}

/// A size in pixels.
#[derive(Debug, Clone, Copy, PartialEq, Eq, Structural)]
pub struct PhysicalSize<P> {
    pub width: P,
    pub height: P,
}

/// A size in logical units.
#[derive(Debug, Clone, Copy, PartialEq, Eq, Structural)]
pub struct LogicalSize<P> {
    pub width: P,
    pub height: P,
}

/// A position in either unit.
#[derive(Debug, Clone, Copy, PartialEq, Eq, Structural)]
pub enum Position {
    Physical(PhysicalPosition<i32>),
    Logical(LogicalPosition<Float64>),
}

/// A size in either unit.
#[derive(Debug, Clone, Copy, PartialEq, Eq, Structural)]
pub enum Size {
    Physical(PhysicalSize<u32>),
    Logical(LogicalSize<Float64>),
}

/// A length in either unit.
#[derive(Debug, Clone, Copy, PartialEq, Eq, Structural)]
pub enum PixelUnit {
    Physical(i32),
    Logical(Float64),
}

/// A rectangle in either unit.
#[derive(Debug, Clone, Copy, PartialEq, Eq, Structural)]
pub struct Rect {
    pub position: Position,
    pub size: Size,
}

/// A rectangle in pixels.
#[derive(Debug, Clone, Copy, PartialEq, Eq, Structural)]
pub struct PhysicalRect {
    pub position: PhysicalPosition<i32>,
    pub size: PhysicalSize<u32>,
}

/// The bounds that the size of a window is kept in.
#[derive(Debug, Clone, Copy, PartialEq, Eq, Structural)]
pub struct WindowSizeConstraints {
    pub min_width: Option<PixelUnit>,
    pub min_height: Option<PixelUnit>,
    pub max_width: Option<PixelUnit>,
    pub max_height: Option<PixelUnit>,
}

/// No bounds at all.
pub open spec fn unconstrained() -> WindowSizeConstraints {
    WindowSizeConstraints { min_width: None, min_height: None, max_width: None, max_height: None }
}

impl Default for WindowSizeConstraints {
    fn default() -> (constraints: Self)
        ensures
            constraints == unconstrained(),
    {
        WindowSizeConstraints {
            min_width: None,
            min_height: None,
            max_width: None,
            max_height: None,
        }
    }
}

impl PhysicalRect {
    /// The same rectangle, as one in either unit.
    pub open spec fn as_rect_spec(self) -> Rect {
        Rect { position: Position::Physical(self.position), size: Size::Physical(self.size) }
    }

    /// The same rectangle, as one in either unit.
    pub fn as_rect(self) -> (rect: Rect)
        ensures
            rect == self.as_rect_spec(),
    {
        Rect { position: Position::Physical(self.position), size: Size::Physical(self.size) }
    }
}

} // verus!
