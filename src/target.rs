//! The drawing-surface protocol that every transform consumes and offers.
use vstd::prelude::*;
use crate::geometry::{Point, Pixel, Rectangle};

verus! {

/// One request made of a surface.
pub enum Command<C> {
    /// Draw these pixels, in this order.
    Draw(Seq<Pixel<C>>),
    /// Fill this rectangle with one color.
    FillSolid(Rectangle, C),
    /// Set the whole surface to one color.
    Clear(C),
}

/// Every point of `area` can be written in `i32` coordinates.
pub open spec fn rect_addressable(area: Rectangle) -> bool {
    &&& area.top_left.x + area.size.width <= i32::MAX + 1
    &&& area.top_left.y + area.size.height <= i32::MAX + 1
}

/// The number of points of `area`.
pub open spec fn rect_area(area: Rectangle) -> nat {
    (area.size.width * area.size.height) as nat
}

/// The `i`-th point of `area` in row-major order.
pub open spec fn rect_point(area: Rectangle, i: int) -> Point {
    Point {
        x: (area.top_left.x + i % (area.size.width as int)) as i32,
        y: (area.top_left.y + i / (area.size.width as int)) as i32,
    }
}

/// The points of `area` in row-major order paired with `colors`, as far as
/// both go.
pub open spec fn contiguous_pixels<C>(area: Rectangle, colors: Seq<C>) -> Seq<Pixel<C>> {
    let n = if colors.len() < rect_area(area) {
        colors.len()
    } else {
        rect_area(area)
    };
    Seq::new(n, |i: int| Pixel(rect_point(area, i), colors[i]))
}

/// A drawing surface.
///
/// The model of a surface is the box it reports, the log of the requests
/// made of it, and what it answers to each request. Requests leave the box as
/// it is.
pub trait DrawTarget: Sized {
    type Color: Copy;

    type Error;

    /// The bounding box the surface reports. A surface whose model is not
    /// stated leaves it unknown.
    closed spec fn bounds(&self) -> Rectangle {
        arbitrary()
    }

    /// The requests made of the surface so far, oldest first. A surface whose
    /// model is not stated leaves them unknown.
    closed spec fn requests(&self) -> Seq<Command<Self::Color>> {
        arbitrary()
    }

    /// What the surface answers to `c` in its present state. A surface whose
    /// model is not stated leaves it unknown.
    closed spec fn outcome(&self, c: Command<Self::Color>) -> Result<(), Self::Error> {
        arbitrary()
    }

    /// The bounding box the surface reports.
    fn bounding_box(&self) -> (r: Rectangle)
        ensures
            r == self.bounds(),
    ;

    /// Draws the pixels in order.
    fn draw_iter(&mut self, pixels: Vec<Pixel<Self::Color>>) -> (r: Result<(), Self::Error>)
        ensures
            final(self).bounds() == old(self).bounds(),
            final(self).requests() == old(self).requests().push(Command::Draw(pixels@)),
            r == old(self).outcome(Command::Draw(pixels@)),
    ;

    /// Fills `area` with `colors`, one per point in row-major order, by drawing
    /// those pixels.
    fn fill_contiguous(
        &mut self,
        area: &Rectangle,
        colors: Vec<Self::Color>,
    ) -> (r: Result<(), Self::Error>)
        requires
            rect_addressable(*area),
        ensures
            final(self).bounds() == old(self).bounds(),
            final(self).requests() == old(self).requests().push(
                Command::Draw(contiguous_pixels(*area, colors@)),
            ),
            r == old(self).outcome(Command::Draw(contiguous_pixels(*area, colors@))),
    {
        let pixels = contiguous_pixel_vec(area, &colors);
        self.draw_iter(pixels)
    }

    /// Fills `area` with one color.
    fn fill_solid(&mut self, area: &Rectangle, color: Self::Color) -> (r: Result<(), Self::Error>)
        ensures
            final(self).bounds() == old(self).bounds(),
            final(self).requests() == old(self).requests().push(Command::FillSolid(*area, color)),
            r == old(self).outcome(Command::FillSolid(*area, color)),
    ;

    /// Sets the whole surface to one color.
    fn clear(&mut self, color: Self::Color) -> (r: Result<(), Self::Error>)
        ensures
            final(self).bounds() == old(self).bounds(),
            final(self).requests() == old(self).requests().push(Command::Clear(color)),
            r == old(self).outcome(Command::Clear(color)),
    ;
}

/// `after` is the surface `before` once asked `c`: its box is kept, `c` ends
/// its log, and `r` is what it answers to `c`.
pub open spec fn answered<D: DrawTarget>(
    before: D,
    after: D,
    c: Command<D::Color>,
    r: Result<(), D::Error>,
) -> bool {
    &&& after.bounds() == before.bounds()
    &&& after.requests() == before.requests().push(c)
    &&& r == before.outcome(c)
}

/// Pairs the points of `area`, in row-major order, with `colors`, as far as
/// both go.
pub fn contiguous_pixel_vec<C: Copy>(area: &Rectangle, colors: &Vec<C>) -> (r: Vec<Pixel<C>>)
    requires
        rect_addressable(*area),
    ensures
        r@ == contiguous_pixels(*area, colors@),
{
    let w = area.size.width;
    let h = area.size.height;
    let mut out: Vec<Pixel<C>> = Vec::new();
    if w == 0 || h == 0 {
        assert(out@ =~= contiguous_pixels(*area, colors@)) by {
            assert(rect_area(*area) == 0) by (nonlinear_arith)
                requires
                    w == 0 || h == 0,
                    rect_area(*area) == w * h,
            ;
        }
        return out;
    }
    let mut k: usize = 0;
    let mut row: u32 = 0;
    let mut col: u32 = 0;
    while k < colors.len() && row < h
        invariant
            w == area.size.width,
            h == area.size.height,
            w > 0,
            h > 0,
            rect_addressable(*area),
            col < w,
            row <= h,
            row == h ==> col == 0,
            k == row * w + col,
            out@.len() == k,
            k <= colors@.len(),
            k <= w * h,
            forall|j: int| 0 <= j < k ==> out@[j] == Pixel(rect_point(*area, j), colors@[j]),
        decreases colors@.len() - k,
    {
        proof {
            lemma_row_major_index(k as int, row as int, col as int, w as int);
            assert(row * w + col < w * h) by (nonlinear_arith)
                requires
                    row < h,
                    col < w,
            ;
        }
        let x = (area.top_left.x as i64 + col as i64) as i32;
        let y = (area.top_left.y as i64 + row as i64) as i32;
        out.push(Pixel(Point { x, y }, colors[k]));
        let ghost k0 = k as int;
        k = k + 1;
        if col + 1 == w {
            proof {
                assert(k0 + 1 == (row + 1) * w) by (nonlinear_arith)
                    requires
                        k0 == row * w + col,
                        col + 1 == w,
                ;
            }
            col = 0;
            row = row + 1;
        } else {
            col = col + 1;
        }
    }
    assert(k == colors@.len() || k == w * h) by (nonlinear_arith)
        requires
            !(k < colors@.len() && row < h),
            k <= colors@.len(),
            row <= h,
            row == h ==> col == 0,
            k == row * w + col,
    ;
    assert(out@ =~= contiguous_pixels(*area, colors@));
    out
}

/// Row `row`, column `col` of a grid `w` wide is its `row * w + col`-th cell.
proof fn lemma_row_major_index(k: int, row: int, col: int, w: int)
    requires
        0 <= col < w,
        0 <= row,
        k == row * w + col,
    ensures
        k % w == col,
        k / w == row,
{
    vstd::arithmetic::div_mod::lemma_fundamental_div_mod_converse(k, w, row, col);
}

} // verus!
