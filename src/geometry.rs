//! Points, sizes, rectangles and pixels, and the coordinate maps on them.
use vstd::prelude::*;

verus! {

/// A point of a drawing surface, in signed pixel coordinates.
#[derive(Clone, Copy, Debug, PartialEq, Eq, Structural)]
pub struct Point {
    pub x: i32,
    pub y: i32,
}

/// The extent of an area, in pixels.
#[derive(Clone, Copy, Debug, PartialEq, Eq, Structural)]
pub struct Size {
    pub width: u32,
    pub height: u32,
}

/// An axis-aligned area: its top-left corner and its size. It may be empty.
#[derive(Clone, Copy, Debug, PartialEq, Eq, Structural)]
pub struct Rectangle {
    pub top_left: Point,
    pub size: Size,
}

/// One pixel to draw: where, and in which color.
#[derive(Clone, Copy, Debug, PartialEq, Eq)]
pub struct Pixel<C>(pub Point, pub C);

/// `(x, y)` becomes `(y, x)`.
pub open spec fn transpose_point(p: Point) -> Point {
    Point { x: p.y, y: p.x }
}

/// Width and height trade places.
pub open spec fn transpose_size(s: Size) -> Size {
    Size { width: s.height, height: s.width }
}

/// Both the corner and the size are transposed.
pub open spec fn transpose_rect(r: Rectangle) -> Rectangle {
    Rectangle { top_left: transpose_point(r.top_left), size: transpose_size(r.size) }
}

/// The last coordinate of an extent of `extent` pixels, `extent - 1`, in the
/// wrapping arithmetic of `i32`.
pub open spec fn last_coord(extent: u32) -> i32 {
    (extent as i32).wrapping_sub(1)
}

/// A coordinate reflected on an extent: `(extent - 1) - v`, wrapping in `i32`.
pub open spec fn mirror_coord(v: i32, extent: u32) -> i32 {
    last_coord(extent).wrapping_sub(v)
}

/// The leading edge of a run of `len` pixels from `start`, reflected on an
/// extent: `(extent - 1) - start - len`, wrapping in `i32`.
pub open spec fn mirror_start(start: i32, len: u32, extent: u32) -> i32 {
    last_coord(extent).wrapping_sub(start).wrapping_sub(len as i32)
}

/// `x` reflected on a surface `width` pixels wide; `y` kept.
pub open spec fn mirror_x_point(p: Point, width: u32) -> Point {
    Point { x: mirror_coord(p.x, width), y: p.y }
}

/// `y` reflected on a surface `height` pixels high; `x` kept.
pub open spec fn mirror_y_point(p: Point, height: u32) -> Point {
    Point { x: p.x, y: mirror_coord(p.y, height) }
}

/// A rectangle reflected on the X axis of a surface `width` pixels wide.
pub open spec fn mirror_x_rect(r: Rectangle, width: u32) -> Rectangle {
    Rectangle {
        top_left: Point {
            x: mirror_start(r.top_left.x, r.size.width, width),
            y: r.top_left.y,
        },
        size: r.size,
    }
}

/// A rectangle reflected on the Y axis of a surface `height` pixels high.
pub open spec fn mirror_y_rect(r: Rectangle, height: u32) -> Rectangle {
    Rectangle {
        top_left: Point {
            x: r.top_left.x,
            y: mirror_start(r.top_left.y, r.size.height, height),
        },
        size: r.size,
    }
}

impl Point {
    pub fn new(x: i32, y: i32) -> (r: Point)
        ensures
            r == (Point { x, y }),
    {
        Point { x, y }
    }

    /// Swaps the two coordinates.
    pub fn transpose(self) -> (r: Point)
        ensures
            r == transpose_point(self),
    {
        Point { x: self.y, y: self.x }
    }
}

impl Size {
    pub fn new(width: u32, height: u32) -> (r: Size)
        ensures
            r == (Size { width, height }),
    {
        Size { width, height }
    }

    /// Swaps width and height.
    pub fn transpose(self) -> (r: Size)
        ensures
            r == transpose_size(self),
    {
        Size { width: self.height, height: self.width }
    }
}

impl Rectangle {
    pub fn new(top_left: Point, size: Size) -> (r: Rectangle)
        ensures
            r == (Rectangle { top_left, size }),
    {
        Rectangle { top_left, size }
    }

    /// Transposes the corner and the size.
    pub fn transpose(self) -> (r: Rectangle)
        ensures
            r == transpose_rect(self),
    {
        Rectangle { top_left: self.top_left.transpose(), size: self.size.transpose() }
    }
}

/// `extent - 1` as the mirror arithmetic takes it.
pub fn last_coordinate(extent: u32) -> (r: i32)
    ensures
        r == last_coord(extent),
{
    (extent as i32).wrapping_sub(1)
}

/// Reflects a coordinate on an extent whose last coordinate is `last`.
pub fn mirror_coordinate(v: i32, last: i32) -> (r: i32)
    ensures
        r == last.wrapping_sub(v),
{
    last.wrapping_sub(v)
}

/// Reflects the leading edge of a run of `len` pixels from `start` on an
/// extent whose last coordinate is `last`.
pub fn mirror_run_start(start: i32, len: u32, last: i32) -> (r: i32)
    ensures
        r == last.wrapping_sub(start).wrapping_sub(len as i32),
{
    last.wrapping_sub(start).wrapping_sub(len as i32)
}

/// Transposing a point twice gives the point back.
pub proof fn lemma_transpose_point_involutive(p: Point)
    ensures
        transpose_point(transpose_point(p)) == p,
{
}

/// Transposing a rectangle twice gives the rectangle back.
pub proof fn lemma_transpose_rect_involutive(r: Rectangle)
    ensures
        transpose_rect(transpose_rect(r)) == r,
{
}

/// Reflecting a coordinate twice on the same extent gives it back, for every
/// coordinate and every extent.
pub proof fn lemma_mirror_coord_involutive(v: i32, extent: u32)
    ensures
        mirror_coord(mirror_coord(v, extent), extent) == v,
{
}

/// On an extent that `i32` can hold, a coordinate inside it is reflected to
/// `(extent - 1) - v`, again inside it.
pub proof fn lemma_mirror_coord_in_extent(v: i32, extent: u32)
    requires
        extent <= i32::MAX,
        0 <= v < extent,
    ensures
        mirror_coord(v, extent) == extent - 1 - v,
        0 <= mirror_coord(v, extent) < extent,
{
}

/// Mirroring a point on the X axis twice with the same width gives the point
/// back.
pub proof fn lemma_mirror_x_point_involutive(p: Point, width: u32)
    ensures
        mirror_x_point(mirror_x_point(p, width), width) == p,
{
    lemma_mirror_coord_involutive(p.x, width);
}

/// Mirroring a point on the Y axis twice with the same height gives the point
/// back.
pub proof fn lemma_mirror_y_point_involutive(p: Point, height: u32)
    ensures
        mirror_y_point(mirror_y_point(p, height), height) == p,
{
    lemma_mirror_coord_involutive(p.y, height);
}

/// Reflecting the leading edge of a run twice on the same extent gives it back.
pub proof fn lemma_mirror_start_involutive(start: i32, len: u32, extent: u32)
    ensures
        mirror_start(mirror_start(start, len, extent), len, extent) == start,
{
}

/// Mirroring a rectangle on the X axis twice with the same width gives it back.
pub proof fn lemma_mirror_x_rect_involutive(r: Rectangle, width: u32)
    ensures
        mirror_x_rect(mirror_x_rect(r, width), width) == r,
{
    lemma_mirror_start_involutive(r.top_left.x, r.size.width, width);
}

/// Mirroring a rectangle on the Y axis twice with the same height gives it
/// back.
pub proof fn lemma_mirror_y_rect_involutive(r: Rectangle, height: u32)
    ensures
        mirror_y_rect(mirror_y_rect(r, height), height) == r,
{
    lemma_mirror_start_involutive(r.top_left.y, r.size.height, height);
}

} // verus!
