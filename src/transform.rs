//! The primitive transforms: transposition and mirroring on either axis.
use vstd::prelude::*;
use crate::geometry::{
    Pixel, Point, Rectangle, transpose_point, transpose_rect, mirror_x_point, mirror_y_point,
    mirror_x_rect, mirror_y_rect, last_coord, last_coordinate, mirror_coordinate, mirror_run_start,
    lemma_transpose_rect_involutive, lemma_mirror_x_point_involutive,
    lemma_mirror_y_point_involutive, lemma_mirror_x_rect_involutive,
    lemma_mirror_y_rect_involutive,
};
use crate::target::{Command, DrawTarget, answered};

verus! {

/// Every pixel transposed, colors and order kept.
pub open spec fn transpose_pixels<C>(s: Seq<Pixel<C>>) -> Seq<Pixel<C>> {
    s.map_values(|px: Pixel<C>| Pixel(transpose_point(px.0), px.1))
}

/// Every pixel mirrored on the X axis of a surface `width` pixels wide.
pub open spec fn mirror_x_pixels<C>(s: Seq<Pixel<C>>, width: u32) -> Seq<Pixel<C>> {
    s.map_values(|px: Pixel<C>| Pixel(mirror_x_point(px.0, width), px.1))
}

/// Every pixel mirrored on the Y axis of a surface `height` pixels high.
pub open spec fn mirror_y_pixels<C>(s: Seq<Pixel<C>>, height: u32) -> Seq<Pixel<C>> {
    s.map_values(|px: Pixel<C>| Pixel(mirror_y_point(px.0, height), px.1))
}

/// A request as it reaches the surface under a transposition.
pub open spec fn transpose_command<C>(c: Command<C>) -> Command<C> {
    match c {
        Command::Draw(s) => Command::Draw(transpose_pixels(s)),
        Command::FillSolid(r, color) => Command::FillSolid(transpose_rect(r), color),
        Command::Clear(color) => Command::Clear(color),
    }
}

/// A request as it reaches a surface `width` pixels wide under an X mirror.
pub open spec fn mirror_x_command<C>(c: Command<C>, width: u32) -> Command<C> {
    match c {
        Command::Draw(s) => Command::Draw(mirror_x_pixels(s, width)),
        Command::FillSolid(r, color) => Command::FillSolid(mirror_x_rect(r, width), color),
        Command::Clear(color) => Command::Clear(color),
    }
}

/// A request as it reaches a surface `height` pixels high under a Y mirror.
pub open spec fn mirror_y_command<C>(c: Command<C>, height: u32) -> Command<C> {
    match c {
        Command::Draw(s) => Command::Draw(mirror_y_pixels(s, height)),
        Command::FillSolid(r, color) => Command::FillSolid(mirror_y_rect(r, height), color),
        Command::Clear(color) => Command::Clear(color),
    }
}

pub proof fn lemma_transpose_pixels_involutive<C>(s: Seq<Pixel<C>>)
    ensures
        transpose_pixels(transpose_pixels(s)) == s,
{
    assert(transpose_pixels(transpose_pixels(s)) =~= s);
}

pub proof fn lemma_mirror_x_pixels_involutive<C>(s: Seq<Pixel<C>>, width: u32)
    ensures
        mirror_x_pixels(mirror_x_pixels(s, width), width) == s,
{
    assert forall|i: int| 0 <= i < s.len() implies mirror_x_pixels(
        mirror_x_pixels(s, width),
        width,
    )[i] == s[i] by {
        lemma_mirror_x_point_involutive(s[i].0, width);
    }
    assert(mirror_x_pixels(mirror_x_pixels(s, width), width) =~= s);
}

pub proof fn lemma_mirror_y_pixels_involutive<C>(s: Seq<Pixel<C>>, height: u32)
    ensures
        mirror_y_pixels(mirror_y_pixels(s, height), height) == s,
{
    assert forall|i: int| 0 <= i < s.len() implies mirror_y_pixels(
        mirror_y_pixels(s, height),
        height,
    )[i] == s[i] by {
        lemma_mirror_y_point_involutive(s[i].0, height);
    }
    assert(mirror_y_pixels(mirror_y_pixels(s, height), height) =~= s);
}

pub proof fn lemma_transpose_command_involutive<C>(c: Command<C>)
    ensures
        transpose_command(transpose_command(c)) == c,
{
    match c {
        Command::Draw(s) => lemma_transpose_pixels_involutive(s),
        _ => {},
    }
}

pub proof fn lemma_mirror_x_command_involutive<C>(c: Command<C>, width: u32)
    ensures
        mirror_x_command(mirror_x_command(c, width), width) == c,
{
    match c {
        Command::Draw(s) => lemma_mirror_x_pixels_involutive(s, width),
        Command::FillSolid(r, _) => lemma_mirror_x_rect_involutive(r, width),
        _ => {},
    }
}

pub proof fn lemma_mirror_y_command_involutive<C>(c: Command<C>, height: u32)
    ensures
        mirror_y_command(mirror_y_command(c, height), height) == c,
{
    match c {
        Command::Draw(s) => lemma_mirror_y_pixels_involutive(s, height),
        Command::FillSolid(r, _) => lemma_mirror_y_rect_involutive(r, height),
        _ => {},
    }
}

/// Transposing or mirroring a pixel sequence hands on as many pixels as it
/// was given, in the same order, each with its own color.
pub proof fn lemma_axis_pixels_one_to_one<C>(s: Seq<Pixel<C>>, width: u32, height: u32)
    ensures
        transpose_pixels(s).len() == s.len(),
        mirror_x_pixels(s, width).len() == s.len(),
        mirror_y_pixels(s, height).len() == s.len(),
        forall|i: int|
            0 <= i < s.len() ==> (#[trigger] transpose_pixels(s)[i]).1 == s[i].1
                && transpose_pixels(s)[i].0 == transpose_point(s[i].0),
        forall|i: int|
            0 <= i < s.len() ==> (#[trigger] mirror_x_pixels(s, width)[i]).1 == s[i].1
                && mirror_x_pixels(s, width)[i].0 == mirror_x_point(s[i].0, width),
        forall|i: int|
            0 <= i < s.len() ==> (#[trigger] mirror_y_pixels(s, height)[i]).1 == s[i].1
                && mirror_y_pixels(s, height)[i].0 == mirror_y_point(s[i].0, height),
{
}

/// Transposes every pixel, in order.
fn transpose_pixel_vec<C: Copy>(pixels: Vec<Pixel<C>>) -> (r: Vec<Pixel<C>>)
    ensures
        r@ == transpose_pixels(pixels@),
{
    let mut out: Vec<Pixel<C>> = Vec::new();
    let mut i: usize = 0;
    while i < pixels.len()
        invariant
            i <= pixels@.len(),
            out@ =~= transpose_pixels(pixels@.take(i as int)),
        decreases pixels@.len() - i,
    {
        let px = pixels[i];
        out.push(Pixel(px.0.transpose(), px.1));
        i = i + 1;
        assert(out@ =~= transpose_pixels(pixels@.take(i as int)));
    }
    assert(pixels@.take(i as int) =~= pixels@);
    out
}

/// Mirrors the X coordinate of every pixel on a surface `width` pixels wide,
/// in order.
fn mirror_x_pixel_vec<C: Copy>(pixels: Vec<Pixel<C>>, width: u32) -> (r: Vec<Pixel<C>>)
    ensures
        r@ == mirror_x_pixels(pixels@, width),
{
    let last = last_coordinate(width);
    let mut out: Vec<Pixel<C>> = Vec::new();
    let mut i: usize = 0;
    while i < pixels.len()
        invariant
            last == last_coord(width),
            i <= pixels@.len(),
            out@ =~= mirror_x_pixels(pixels@.take(i as int), width),
        decreases pixels@.len() - i,
    {
        let Pixel(p, color) = pixels[i];
        out.push(Pixel(Point { x: mirror_coordinate(p.x, last), y: p.y }, color));
        i = i + 1;
        assert(out@ =~= mirror_x_pixels(pixels@.take(i as int), width));
    }
    assert(pixels@.take(i as int) =~= pixels@);
    out
}

/// Mirrors the Y coordinate of every pixel on a surface `height` pixels
/// high, in order.
fn mirror_y_pixel_vec<C: Copy>(pixels: Vec<Pixel<C>>, height: u32) -> (r: Vec<Pixel<C>>)
    ensures
        r@ == mirror_y_pixels(pixels@, height),
{
    let last = last_coordinate(height);
    let mut out: Vec<Pixel<C>> = Vec::new();
    let mut i: usize = 0;
    while i < pixels.len()
        invariant
            last == last_coord(height),
            i <= pixels@.len(),
            out@ =~= mirror_y_pixels(pixels@.take(i as int), height),
        decreases pixels@.len() - i,
    {
        let Pixel(p, color) = pixels[i];
        out.push(Pixel(Point { x: p.x, y: mirror_coordinate(p.y, last) }, color));
        i = i + 1;
        assert(out@ =~= mirror_y_pixels(pixels@.take(i as int), height));
    }
    assert(pixels@.take(i as int) =~= pixels@);
    out
}

/// Swaps the X and Y axes of the surface it wraps.
pub struct TransposeXY<D> {
    target: D,
}

impl<D: DrawTarget> TransposeXY<D> {
    /// The wrapped surface.
    pub closed spec fn inner(&self) -> D {
        self.target
    }

    /// Wraps a surface.
    pub fn new(target: D) -> (r: Self)
        ensures
            r.inner() == target,
    {
        TransposeXY { target }
    }

    /// Gives back the wrapped surface.
    pub fn into_inner(self) -> (r: D)
        ensures
            r == self.inner(),
    {
        self.target
    }

    /// Borrows the wrapped surface, to reach what it offers besides drawing.
    pub fn as_ref(&self) -> (r: &D)
        ensures
            *r == self.inner(),
    {
        &self.target
    }

    /// Borrows the wrapped surface mutably, to reach what it offers besides
    /// drawing.
    pub fn as_mut(&mut self) -> (r: &mut D)
        ensures
            *r == old(self).inner(),
            final(self).inner() == *final(r),
    {
        &mut self.target
    }

    /// The requests that reached the wrapped surface are this wrapper's
    /// requests, transposed.
    pub proof fn lemma_inner_requests(&self)
        ensures
            self.inner().requests() == self.requests().map_values(
                |c: Command<D::Color>| transpose_command(c),
            ),
            self.inner().bounds() == transpose_rect(self.bounds()),
    {
        let s = self.inner().requests();
        assert forall|i: int| 0 <= i < s.len() implies transpose_command(
            transpose_command(#[trigger] s[i]),
        ) == s[i] by {
            lemma_transpose_command_involutive(s[i]);
        }
        assert(s =~= self.requests().map_values(|c: Command<D::Color>| transpose_command(c)));
        lemma_transpose_rect_involutive(self.inner().bounds());
    }

    /// A request that reaches this wrapper reaches the wrapped surface
    /// transformed, the wrapped surface's box unchanged.
    pub proof fn lemma_request_reaches_inner(before: Self, after: Self, c: Command<D::Color>)
        requires
            after.bounds() == before.bounds(),
            after.requests() == before.requests().push(c),
        ensures
            after.inner().bounds() == before.inner().bounds(),
            after.inner().requests() == before.inner().requests().push(transpose_command(c)),
    {
        before.lemma_inner_requests();
        after.lemma_inner_requests();
        assert(after.inner().requests() =~= before.inner().requests().push(transpose_command(c)));
    }
}

impl<D: DrawTarget> DrawTarget for TransposeXY<D> {
    type Color = D::Color;

    type Error = D::Error;

    open spec fn bounds(&self) -> Rectangle {
        transpose_rect(self.inner().bounds())
    }

    open spec fn requests(&self) -> Seq<Command<D::Color>> {
        self.inner().requests().map_values(|c: Command<D::Color>| transpose_command(c))
    }

    open spec fn outcome(&self, c: Command<D::Color>) -> Result<(), D::Error> {
        self.inner().outcome(transpose_command(c))
    }

    fn bounding_box(&self) -> (r: Rectangle)
        ensures
            r == transpose_rect(self.inner().bounds()),
    {
        self.target.bounding_box().transpose()
    }

    fn draw_iter(&mut self, pixels: Vec<Pixel<D::Color>>) -> (r: Result<(), D::Error>)
        ensures
            answered(
                old(self).inner(),
                final(self).inner(),
                Command::Draw(transpose_pixels(pixels@)),
                r,
            ),
    {
        let ghost px = pixels@;
        let moved = transpose_pixel_vec(pixels);
        let r = self.target.draw_iter(moved);
        proof {
            lemma_transpose_pixels_involutive(px);
            assert(self.requests() =~= old(self).requests().push(Command::Draw(px)));
        }
        r
    }

    fn fill_solid(&mut self, area: &Rectangle, color: D::Color) -> (r: Result<(), D::Error>)
        ensures
            answered(
                old(self).inner(),
                final(self).inner(),
                Command::FillSolid(transpose_rect(*area), color),
                r,
            ),
    {
        let moved = area.transpose();
        let r = self.target.fill_solid(&moved, color);
        proof {
            lemma_transpose_rect_involutive(*area);
            assert(self.requests() =~= old(self).requests().push(Command::FillSolid(*area, color)));
        }
        r
    }

    fn clear(&mut self, color: D::Color) -> (r: Result<(), D::Error>)
        ensures
            answered(
                old(self).inner(),
                final(self).inner(),
                Command::Clear(color),
                r,
            ),
    {
        let r = self.target.clear(color);
        proof {
            assert(self.requests() =~= old(self).requests().push(Command::Clear(color)));
        }
        r
    }
}


/// Reflects the X axis of the surface it wraps, on the width it reports.
pub struct MirrorX<D> {
    target: D,
}

impl<D: DrawTarget> MirrorX<D> {
    /// The wrapped surface.
    pub closed spec fn inner(&self) -> D {
        self.target
    }

    /// Wraps a surface.
    pub fn new(target: D) -> (r: Self)
        ensures
            r.inner() == target,
    {
        MirrorX { target }
    }

    /// Gives back the wrapped surface.
    pub fn into_inner(self) -> (r: D)
        ensures
            r == self.inner(),
    {
        self.target
    }

    /// Borrows the wrapped surface, to reach what it offers besides drawing.
    pub fn as_ref(&self) -> (r: &D)
        ensures
            *r == self.inner(),
    {
        &self.target
    }

    /// Borrows the wrapped surface mutably, to reach what it offers besides
    /// drawing.
    pub fn as_mut(&mut self) -> (r: &mut D)
        ensures
            *r == old(self).inner(),
            final(self).inner() == *final(r),
    {
        &mut self.target
    }

    /// The requests that reached the wrapped surface are this wrapper's
    /// requests, mirrored.
    pub proof fn lemma_inner_requests(&self)
        ensures
            self.inner().requests() == self.requests().map_values(
                |c: Command<D::Color>| mirror_x_command(c, self.bounds().size.width),
            ),
            self.inner().bounds() == self.bounds(),
    {
        let s = self.inner().requests();
        assert forall|i: int| 0 <= i < s.len() implies mirror_x_command(
            mirror_x_command(#[trigger] s[i], self.bounds().size.width),
            self.bounds().size.width,
        ) == s[i] by {
            lemma_mirror_x_command_involutive(s[i], self.bounds().size.width);
        }
        assert(
            s
                =~= self.requests().map_values(
                    |c: Command<D::Color>| mirror_x_command(c, self.bounds().size.width),
                )
        );
    }

    /// A request that reaches this wrapper reaches the wrapped surface
    /// transformed, the wrapped surface's box unchanged.
    pub proof fn lemma_request_reaches_inner(before: Self, after: Self, c: Command<D::Color>)
        requires
            after.bounds() == before.bounds(),
            after.requests() == before.requests().push(c),
        ensures
            after.inner().bounds() == before.inner().bounds(),
            after.inner().requests()
                == before.inner().requests().push(mirror_x_command(c, before.bounds().size.width)),
    {
        before.lemma_inner_requests();
        after.lemma_inner_requests();
        assert(
            after.inner().requests()
                =~= before.inner().requests().push(mirror_x_command(c, before.bounds().size.width))
        );
    }
}

impl<D: DrawTarget> DrawTarget for MirrorX<D> {
    type Color = D::Color;

    type Error = D::Error;

    open spec fn bounds(&self) -> Rectangle {
        self.inner().bounds()
    }

    open spec fn requests(&self) -> Seq<Command<D::Color>> {
        self.inner().requests().map_values(
            |c: Command<D::Color>| mirror_x_command(c, self.inner().bounds().size.width),
        )
    }

    open spec fn outcome(&self, c: Command<D::Color>) -> Result<(), D::Error> {
        self.inner().outcome(mirror_x_command(c, self.inner().bounds().size.width))
    }

    fn bounding_box(&self) -> (r: Rectangle)
        ensures
            r == self.inner().bounds(),
    {
        self.target.bounding_box()
    }

    fn draw_iter(&mut self, pixels: Vec<Pixel<D::Color>>) -> (r: Result<(), D::Error>)
        ensures
            answered(
                old(self).inner(),
                final(self).inner(),
                Command::Draw(mirror_x_pixels(pixels@, old(self).inner().bounds().size.width)),
                r,
            ),
    {
        let ghost px = pixels@;
        let extent = self.target.bounding_box().size.width;
        let moved = mirror_x_pixel_vec(pixels, extent);
        let r = self.target.draw_iter(moved);
        proof {
            lemma_mirror_x_pixels_involutive(px, extent);
            assert(self.requests() =~= old(self).requests().push(Command::Draw(px)));
        }
        r
    }

    fn fill_solid(&mut self, area: &Rectangle, color: D::Color) -> (r: Result<(), D::Error>)
        ensures
            answered(
                old(self).inner(),
                final(self).inner(),
                Command::FillSolid(
                    mirror_x_rect(*area, old(self).inner().bounds().size.width),
                    color,
                ),
                r,
            ),
    {
        let last = last_coordinate(self.target.bounding_box().size.width);
        let moved = Rectangle {
            top_left: Point {
                x: mirror_run_start(area.top_left.x, area.size.width, last),
                y: area.top_left.y,
            },
            size: area.size,
        };
        let r = self.target.fill_solid(&moved, color);
        proof {
            lemma_mirror_x_rect_involutive(*area, old(self).inner().bounds().size.width);
            assert(self.requests() =~= old(self).requests().push(Command::FillSolid(*area, color)));
        }
        r
    }

    fn clear(&mut self, color: D::Color) -> (r: Result<(), D::Error>)
        ensures
            answered(
                old(self).inner(),
                final(self).inner(),
                Command::Clear(color),
                r,
            ),
    {
        let r = self.target.clear(color);
        proof {
            assert(self.requests() =~= old(self).requests().push(Command::Clear(color)));
        }
        r
    }
}


/// Reflects the Y axis of the surface it wraps, on the height it reports.
pub struct MirrorY<D> {
    target: D,
}

impl<D: DrawTarget> MirrorY<D> {
    /// The wrapped surface.
    pub closed spec fn inner(&self) -> D {
        self.target
    }

    /// Wraps a surface.
    pub fn new(target: D) -> (r: Self)
        ensures
            r.inner() == target,
    {
        MirrorY { target }
    }

    /// Gives back the wrapped surface.
    pub fn into_inner(self) -> (r: D)
        ensures
            r == self.inner(),
    {
        self.target
    }

    /// Borrows the wrapped surface, to reach what it offers besides drawing.
    pub fn as_ref(&self) -> (r: &D)
        ensures
            *r == self.inner(),
    {
        &self.target
    }

    /// Borrows the wrapped surface mutably, to reach what it offers besides
    /// drawing.
    pub fn as_mut(&mut self) -> (r: &mut D)
        ensures
            *r == old(self).inner(),
            final(self).inner() == *final(r),
    {
        &mut self.target
    }

    /// The requests that reached the wrapped surface are this wrapper's
    /// requests, mirrored.
    pub proof fn lemma_inner_requests(&self)
        ensures
            self.inner().requests() == self.requests().map_values(
                |c: Command<D::Color>| mirror_y_command(c, self.bounds().size.height),
            ),
            self.inner().bounds() == self.bounds(),
    {
        let s = self.inner().requests();
        assert forall|i: int| 0 <= i < s.len() implies mirror_y_command(
            mirror_y_command(#[trigger] s[i], self.bounds().size.height),
            self.bounds().size.height,
        ) == s[i] by {
            lemma_mirror_y_command_involutive(s[i], self.bounds().size.height);
        }
        assert(
            s
                =~= self.requests().map_values(
                    |c: Command<D::Color>| mirror_y_command(c, self.bounds().size.height),
                )
        );
    }

    /// A request that reaches this wrapper reaches the wrapped surface
    /// transformed, the wrapped surface's box unchanged.
    pub proof fn lemma_request_reaches_inner(before: Self, after: Self, c: Command<D::Color>)
        requires
            after.bounds() == before.bounds(),
            after.requests() == before.requests().push(c),
        ensures
            after.inner().bounds() == before.inner().bounds(),
            after.inner().requests()
                == before.inner().requests().push(mirror_y_command(c, before.bounds().size.height)),
    {
        before.lemma_inner_requests();
        after.lemma_inner_requests();
        assert(
            after.inner().requests()
                =~= before.inner().requests().push(mirror_y_command(c, before.bounds().size.height))
        );
    }
}

impl<D: DrawTarget> DrawTarget for MirrorY<D> {
    type Color = D::Color;

    type Error = D::Error;

    open spec fn bounds(&self) -> Rectangle {
        self.inner().bounds()
    }

    open spec fn requests(&self) -> Seq<Command<D::Color>> {
        self.inner().requests().map_values(
            |c: Command<D::Color>| mirror_y_command(c, self.inner().bounds().size.height),
        )
    }

    open spec fn outcome(&self, c: Command<D::Color>) -> Result<(), D::Error> {
        self.inner().outcome(mirror_y_command(c, self.inner().bounds().size.height))
    }

    fn bounding_box(&self) -> (r: Rectangle)
        ensures
            r == self.inner().bounds(),
    {
        self.target.bounding_box()
    }

    fn draw_iter(&mut self, pixels: Vec<Pixel<D::Color>>) -> (r: Result<(), D::Error>)
        ensures
            answered(
                old(self).inner(),
                final(self).inner(),
                Command::Draw(mirror_y_pixels(pixels@, old(self).inner().bounds().size.height)),
                r,
            ),
    {
        let ghost px = pixels@;
        let extent = self.target.bounding_box().size.height;
        let moved = mirror_y_pixel_vec(pixels, extent);
        let r = self.target.draw_iter(moved);
        proof {
            lemma_mirror_y_pixels_involutive(px, extent);
            assert(self.requests() =~= old(self).requests().push(Command::Draw(px)));
        }
        r
    }

    fn fill_solid(&mut self, area: &Rectangle, color: D::Color) -> (r: Result<(), D::Error>)
        ensures
            answered(
                old(self).inner(),
                final(self).inner(),
                Command::FillSolid(
                    mirror_y_rect(*area, old(self).inner().bounds().size.height),
                    color,
                ),
                r,
            ),
    {
        let last = last_coordinate(self.target.bounding_box().size.height);
        let moved = Rectangle {
            top_left: Point {
                y: mirror_run_start(area.top_left.y, area.size.height, last),
                x: area.top_left.x,
            },
            size: area.size,
        };
        let r = self.target.fill_solid(&moved, color);
        proof {
            lemma_mirror_y_rect_involutive(*area, old(self).inner().bounds().size.height);
            assert(self.requests() =~= old(self).requests().push(Command::FillSolid(*area, color)));
        }
        r
    }

    fn clear(&mut self, color: D::Color) -> (r: Result<(), D::Error>)
        ensures
            answered(
                old(self).inner(),
                final(self).inner(),
                Command::Clear(color),
                r,
            ),
    {
        let r = self.target.clear(color);
        proof {
            assert(self.requests() =~= old(self).requests().push(Command::Clear(color)));
        }
        r
    }
}

} // verus!
