//! Rotations by quarter turns, as maps on points, rectangles and requests.
use vstd::prelude::*;
use crate::geometry::{
    Pixel, Point, Rectangle, Size, mirror_coord, transpose_rect, transpose_size, mirror_x_rect,
    mirror_y_rect, lemma_mirror_coord_involutive, lemma_transpose_rect_involutive,
};
use crate::target::Command;

verus! {

/// Image rotation direction and amount.
#[derive(Clone, Copy, Debug, PartialEq, Eq, Structural)]
pub enum Rotation {
    /// No rotation.
    Rotate0,
    /// A quarter turn to the right.
    Rotate90,
    /// A half turn.
    Rotate180,
    /// A quarter turn to the left.
    Rotate270,
}

/// Whether the rotation swaps the two axes.
pub open spec fn swaps_axes(rot: Rotation) -> bool {
    rot == Rotation::Rotate90 || rot == Rotation::Rotate270
}

/// Where a point drawn under `rot` lands on a surface of size `s`.
pub open spec fn rotate_point(rot: Rotation, p: Point, s: Size) -> Point {
    match rot {
        Rotation::Rotate0 => p,
        Rotation::Rotate90 => Point { x: mirror_coord(p.y, s.width), y: p.x },
        Rotation::Rotate180 => Point {
            x: mirror_coord(p.x, s.width),
            y: mirror_coord(p.y, s.height),
        },
        Rotation::Rotate270 => Point { x: p.y, y: mirror_coord(p.x, s.height) },
    }
}

/// Every pixel moved by `rotate_point`, colors and order kept.
pub open spec fn rotate_pixels<C>(rot: Rotation, pixels: Seq<Pixel<C>>, s: Size) -> Seq<Pixel<C>> {
    pixels.map_values(|px: Pixel<C>| Pixel(rotate_point(rot, px.0, s), px.1))
}

/// The rectangle that a solid fill of `r` under `rot` asks of a surface of
/// size `s`.
pub open spec fn rotate_rect(rot: Rotation, r: Rectangle, s: Size) -> Rectangle {
    match rot {
        Rotation::Rotate0 => r,
        Rotation::Rotate90 => transpose_rect(mirror_y_rect(r, s.width)),
        Rotation::Rotate180 => mirror_y_rect(mirror_x_rect(r, s.width), s.height),
        Rotation::Rotate270 => mirror_y_rect(transpose_rect(r), s.height),
    }
}

/// The size reported under `rot` for a surface of size `s`.
pub open spec fn rotate_size(rot: Rotation, s: Size) -> Size {
    if swaps_axes(rot) {
        transpose_size(s)
    } else {
        s
    }
}

/// The bounding box reported under `rot` for a surface whose box is `b`.
pub open spec fn rotate_bounds(rot: Rotation, b: Rectangle) -> Rectangle {
    if swaps_axes(rot) {
        transpose_rect(b)
    } else {
        b
    }
}

/// A request under `rot` as it reaches a surface of size `s`.
pub open spec fn rotate_command<C>(rot: Rotation, c: Command<C>, s: Size) -> Command<C> {
    match c {
        Command::Draw(pixels) => Command::Draw(rotate_pixels(rot, pixels, s)),
        Command::FillSolid(r, color) => Command::FillSolid(rotate_rect(rot, r, s), color),
        Command::Clear(color) => Command::Clear(color),
    }
}

/// The rotation that undoes `rot`.
pub open spec fn inverse(rot: Rotation) -> Rotation {
    match rot {
        Rotation::Rotate90 => Rotation::Rotate270,
        Rotation::Rotate270 => Rotation::Rotate90,
        _ => rot,
    }
}

/// Drawing under one rotation, the result under its inverse, reproduces every
/// point: quarter turns right and left undo each other, and a half turn undoes
/// itself. The inner layer works on the size that the outer one reports.
pub proof fn lemma_rotate_point_inverse(rot: Rotation, p: Point, s: Size)
    ensures
        rotate_point(inverse(rot), rotate_point(rot, p, rotate_size(inverse(rot), s)), s) == p,
{
    lemma_mirror_coord_involutive(p.x, s.width);
    lemma_mirror_coord_involutive(p.y, s.height);
    lemma_mirror_coord_involutive(p.x, s.height);
    lemma_mirror_coord_involutive(p.y, s.width);
}

/// Routing a pixel sequence through a rotation and then through its inverse
/// reproduces the sequence: a quarter turn right then left, left then right,
/// or a half turn twice.
pub proof fn lemma_rotate_pixels_inverse<C>(rot: Rotation, pixels: Seq<Pixel<C>>, s: Size)
    ensures
        rotate_pixels(inverse(rot), rotate_pixels(rot, pixels, rotate_size(inverse(rot), s)), s)
            == pixels,
{
    assert forall|i: int| 0 <= i < pixels.len() implies rotate_point(
        inverse(rot),
        rotate_point(rot, (#[trigger] pixels[i]).0, rotate_size(inverse(rot), s)),
        s,
    ) == pixels[i].0 by {
        lemma_rotate_point_inverse(rot, pixels[i].0, s);
    }
    assert(rotate_pixels(inverse(rot), rotate_pixels(rot, pixels, rotate_size(inverse(rot), s)), s)
        =~= pixels);
}

/// Two distinct points never land on the same point: a rotation neither
/// merges nor drops coordinates.
pub proof fn lemma_rotate_point_injective(rot: Rotation, p: Point, q: Point, s: Size)
    ensures
        rotate_point(rot, p, s) == rotate_point(rot, q, s) ==> p == q,
{
    let t = rotate_size(rot, s);
    assert(rotate_size(inverse(rot), t) == s);
    lemma_rotate_point_inverse(inverse(rot), p, t);
    lemma_rotate_point_inverse(inverse(rot), q, t);
    assert(inverse(inverse(rot)) == rot);
    assert(rotate_point(inverse(rot), rotate_point(rot, p, s), t) == p);
    assert(rotate_point(inverse(rot), rotate_point(rot, q, s), t) == q);
}

/// Drawing under a rotation hands on as many pixels as it was given, in the
/// same order, each with its own color, at distinct places for distinct
/// points.
pub proof fn lemma_rotate_pixels_one_to_one<C>(rot: Rotation, pixels: Seq<Pixel<C>>, s: Size)
    ensures
        rotate_pixels(rot, pixels, s).len() == pixels.len(),
        forall|i: int|
            0 <= i < pixels.len() ==> (#[trigger] rotate_pixels(rot, pixels, s)[i]).1
                == pixels[i].1 && rotate_pixels(rot, pixels, s)[i].0 == rotate_point(
                rot,
                pixels[i].0,
                s,
            ),
        forall|i: int, j: int|
            0 <= i < pixels.len() && 0 <= j < pixels.len() && pixels[i].0 != pixels[j].0
                ==> #[trigger] rotate_pixels(rot, pixels, s)[i].0 != #[trigger] rotate_pixels(
                rot,
                pixels,
                s,
            )[j].0,
{
    assert forall|i: int, j: int|
        0 <= i < pixels.len() && 0 <= j < pixels.len() && pixels[i].0
            != pixels[j].0 implies #[trigger] rotate_pixels(rot, pixels, s)[i].0
        != #[trigger] rotate_pixels(rot, pixels, s)[j].0 by {
        lemma_rotate_point_injective(rot, pixels[i].0, pixels[j].0, s);
    }
}

/// The bounding box reported under a quarter turn has width and height
/// swapped; under no turn or a half turn it is the surface's own.
pub proof fn lemma_rotate_bounds_size(rot: Rotation, b: Rectangle)
    ensures
        swaps_axes(rot) ==> rotate_bounds(rot, b).size == transpose_size(b.size),
        !swaps_axes(rot) ==> rotate_bounds(rot, b) == b,
{
}

/// Without a turn, a solid fill of the reported bounding box reaches the
/// surface as a fill of exactly its own bounding box, as a clear would cover.
pub proof fn lemma_unrotated_fill_of_bounds(b: Rectangle)
    ensures
        rotate_rect(Rotation::Rotate0, rotate_bounds(Rotation::Rotate0, b), b.size) == b,
{
}

/// Under a transposition, a solid fill of the reported bounding box reaches
/// the surface as a fill of exactly its own bounding box, as a clear would
/// cover.
pub proof fn lemma_transposed_fill_of_bounds(b: Rectangle)
    ensures
        transpose_rect(transpose_rect(b)) == b,
{
    lemma_transpose_rect_involutive(b);
}

} // verus!
