//! Plain integer geometry: the widgets own their position and size as
//! values, so hit tests and layout arithmetic can be verified directly.

use vstd::prelude::*;

verus! {

/// A point or extent on the screen, in logical pixels.
#[derive(Clone, Copy, PartialEq, Eq, Structural, Debug)]
pub struct Vector2 {
    pub x: i32,
    pub y: i32,
}

/// The axis-aligned bounding-box test shared by the widgets: a point is
/// inside a rectangle given by `position` and `size` when it lies within
/// both closed coordinate ranges.
pub open spec fn inside_box(position: Vector2, size: Vector2, pos: Vector2) -> bool {
    &&& position.y <= pos.y <= position.y + size.y
    &&& position.x <= pos.x <= position.x + size.x
}

/// Decides `inside_box` for concrete coordinates.
pub fn box_contains(position: Vector2, size: Vector2, pos: Vector2) -> (r: bool)
    ensures
        r == inside_box(position, size, pos),
{
    let px: i64 = pos.x as i64;
    let py: i64 = pos.y as i64;
    py >= position.y as i64 && py <= position.y as i64 + size.y as i64
        && px >= position.x as i64 && px <= position.x as i64 + size.x as i64
}

} // verus!
