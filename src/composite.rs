//! The fixed rotations and flips, each a chain of primitive transforms.
use vstd::prelude::*;
use crate::geometry::{Pixel, Rectangle, transpose_rect, mirror_x_rect, mirror_y_rect};
use crate::rotation::{Rotation, rotate_command, rotate_pixels, rotate_bounds};
use crate::target::{Command, DrawTarget, answered, contiguous_pixels};
use crate::transform::{
    MirrorX, MirrorY, TransposeXY, transpose_pixels, mirror_x_pixels, mirror_y_pixels,
    transpose_command, mirror_x_command, mirror_y_command,
};

verus! {

/// Rotates the image a quarter turn to the right: the X axis of the
/// transposed surface is mirrored.
pub struct Rotate90<D> {
    target: MirrorY<TransposeXY<D>>,
}

impl<D: DrawTarget> Rotate90<D> {
    /// The wrapped surface.
    pub closed spec fn inner(&self) -> D {
        self.target.inner().inner()
    }

    /// Wraps a surface.
    pub fn new(target: D) -> (r: Self)
        ensures
            r.inner() == target,
    {
        Rotate90 { target: MirrorY::new(TransposeXY::new(target)) }
    }

    /// Gives back the wrapped surface.
    pub fn into_inner(self) -> (r: D)
        ensures
            r == self.inner(),
    {
        self.target.into_inner().into_inner()
    }

    /// Borrows the wrapped surface, to reach what it offers besides drawing.
    pub fn as_ref(&self) -> (r: &D)
        ensures
            *r == self.inner(),
    {
        self.target.as_ref().as_ref()
    }

    /// Borrows the wrapped surface mutably, to reach what it offers besides
    /// drawing.
    pub fn as_mut(&mut self) -> (r: &mut D)
        ensures
            *r == old(self).inner(),
            final(self).inner() == *final(r),
    {
        self.target.as_mut().as_mut()
    }
}

impl<D: DrawTarget> DrawTarget for Rotate90<D> {
    type Color = D::Color;

    type Error = D::Error;

    open spec fn bounds(&self) -> Rectangle {
        rotate_bounds(Rotation::Rotate90, self.inner().bounds())
    }

    closed spec fn requests(&self) -> Seq<Command<D::Color>> {
        self.target.requests()
    }

    closed spec fn outcome(&self, c: Command<D::Color>) -> Result<(), D::Error> {
        self.target.outcome(c)
    }

    fn bounding_box(&self) -> (r: Rectangle) {
        self.target.bounding_box()
    }

    fn draw_iter(&mut self, pixels: Vec<Pixel<D::Color>>) -> (r: Result<(), D::Error>)
        ensures
            answered(
                old(self).inner(),
                final(self).inner(),
                rotate_command(
                    Rotation::Rotate90,
                    Command::Draw(pixels@),
                    old(self).inner().bounds().size,
                ),
                r,
            ),
    {
        let ghost layer = self.target.inner();
        let ghost c = Command::Draw(mirror_y_pixels(pixels@, layer.bounds().size.height));
        let r = self.target.draw_iter(pixels);
        proof {
            TransposeXY::lemma_request_reaches_inner(layer, self.target.inner(), c);
            assert(
                transpose_pixels(mirror_y_pixels(pixels@, layer.bounds().size.height))
                    =~= rotate_pixels(Rotation::Rotate90, pixels@, old(self).inner().bounds().size)
            );
        }
        r
    }

    fn fill_contiguous(
        &mut self,
        area: &Rectangle,
        colors: Vec<D::Color>,
    ) -> (r: Result<(), D::Error>)
        ensures
            answered(
                old(self).inner(),
                final(self).inner(),
                rotate_command(
                    Rotation::Rotate90,
                    Command::Draw(contiguous_pixels(*area, colors@)),
                    old(self).inner().bounds().size,
                ),
                r,
            ),
    {
        let ghost outer = self.target;
        let ghost c = Command::Draw(contiguous_pixels(*area, colors@));
        let r = self.target.fill_contiguous(area, colors);
        proof {
            MirrorY::lemma_request_reaches_inner(outer, self.target, c);
            TransposeXY::lemma_request_reaches_inner(
                outer.inner(),
                self.target.inner(),
                mirror_y_command(c, outer.bounds().size.height),
            );
            assert(
                transpose_pixels(
                    mirror_y_pixels(contiguous_pixels(*area, colors@), outer.bounds().size.height),
                )
                    =~= rotate_pixels(
                        Rotation::Rotate90,
                        contiguous_pixels(*area, colors@),
                        old(self).inner().bounds().size,
                    )
            );
        }
        r
    }

    fn fill_solid(&mut self, area: &Rectangle, color: D::Color) -> (r: Result<(), D::Error>)
        ensures
            answered(
                old(self).inner(),
                final(self).inner(),
                rotate_command(
                    Rotation::Rotate90,
                    Command::FillSolid(*area, color),
                    old(self).inner().bounds().size,
                ),
                r,
            ),
    {
        let ghost layer = self.target.inner();
        let ghost c = Command::FillSolid(mirror_y_rect(*area, layer.bounds().size.height), color);
        let r = self.target.fill_solid(area, color);
        proof {
            TransposeXY::lemma_request_reaches_inner(layer, self.target.inner(), c);
        }
        r
    }

    fn clear(&mut self, color: D::Color) -> (r: Result<(), D::Error>)
        ensures
            answered(
                old(self).inner(),
                final(self).inner(),
                Command::Clear(color),
                r,
            ),
    {
        let ghost layer = self.target.inner();
        let r = self.target.clear(color);
        proof {
            TransposeXY::lemma_request_reaches_inner(
                layer,
                self.target.inner(),
                Command::Clear(color),
            );
        }
        r
    }
}

/// Rotates the image a half turn: both axes are mirrored.
pub struct Rotate180<D> {
    target: MirrorX<MirrorY<D>>,
}

impl<D: DrawTarget> Rotate180<D> {
    /// The wrapped surface.
    pub closed spec fn inner(&self) -> D {
        self.target.inner().inner()
    }

    /// Wraps a surface.
    pub fn new(target: D) -> (r: Self)
        ensures
            r.inner() == target,
    {
        Rotate180 { target: MirrorX::new(MirrorY::new(target)) }
    }

    /// Gives back the wrapped surface.
    pub fn into_inner(self) -> (r: D)
        ensures
            r == self.inner(),
    {
        self.target.into_inner().into_inner()
    }

    /// Borrows the wrapped surface, to reach what it offers besides drawing.
    pub fn as_ref(&self) -> (r: &D)
        ensures
            *r == self.inner(),
    {
        self.target.as_ref().as_ref()
    }

    /// Borrows the wrapped surface mutably, to reach what it offers besides
    /// drawing.
    pub fn as_mut(&mut self) -> (r: &mut D)
        ensures
            *r == old(self).inner(),
            final(self).inner() == *final(r),
    {
        self.target.as_mut().as_mut()
    }
}

impl<D: DrawTarget> DrawTarget for Rotate180<D> {
    type Color = D::Color;

    type Error = D::Error;

    open spec fn bounds(&self) -> Rectangle {
        rotate_bounds(Rotation::Rotate180, self.inner().bounds())
    }

    closed spec fn requests(&self) -> Seq<Command<D::Color>> {
        self.target.requests()
    }

    closed spec fn outcome(&self, c: Command<D::Color>) -> Result<(), D::Error> {
        self.target.outcome(c)
    }

    fn bounding_box(&self) -> (r: Rectangle) {
        self.target.bounding_box()
    }

    fn draw_iter(&mut self, pixels: Vec<Pixel<D::Color>>) -> (r: Result<(), D::Error>)
        ensures
            answered(
                old(self).inner(),
                final(self).inner(),
                rotate_command(
                    Rotation::Rotate180,
                    Command::Draw(pixels@),
                    old(self).inner().bounds().size,
                ),
                r,
            ),
    {
        let ghost layer = self.target.inner();
        let ghost c = Command::Draw(mirror_x_pixels(pixels@, layer.bounds().size.width));
        let r = self.target.draw_iter(pixels);
        proof {
            MirrorY::lemma_request_reaches_inner(layer, self.target.inner(), c);
            assert(
                mirror_y_pixels(
                    mirror_x_pixels(pixels@, layer.bounds().size.width),
                    layer.bounds().size.height,
                )
                    =~= rotate_pixels(Rotation::Rotate180, pixels@, old(self).inner().bounds().size)
            );
        }
        r
    }

    fn fill_contiguous(
        &mut self,
        area: &Rectangle,
        colors: Vec<D::Color>,
    ) -> (r: Result<(), D::Error>)
        ensures
            answered(
                old(self).inner(),
                final(self).inner(),
                rotate_command(
                    Rotation::Rotate180,
                    Command::Draw(contiguous_pixels(*area, colors@)),
                    old(self).inner().bounds().size,
                ),
                r,
            ),
    {
        let ghost outer = self.target;
        let ghost c = Command::Draw(contiguous_pixels(*area, colors@));
        let r = self.target.fill_contiguous(area, colors);
        proof {
            MirrorX::lemma_request_reaches_inner(outer, self.target, c);
            MirrorY::lemma_request_reaches_inner(
                outer.inner(),
                self.target.inner(),
                mirror_x_command(c, outer.bounds().size.width),
            );
            assert(
                mirror_y_pixels(
                    mirror_x_pixels(contiguous_pixels(*area, colors@), outer.bounds().size.width),
                    outer.inner().bounds().size.height,
                )
                    =~= rotate_pixels(
                        Rotation::Rotate180,
                        contiguous_pixels(*area, colors@),
                        old(self).inner().bounds().size,
                    )
            );
        }
        r
    }

    fn fill_solid(&mut self, area: &Rectangle, color: D::Color) -> (r: Result<(), D::Error>)
        ensures
            answered(
                old(self).inner(),
                final(self).inner(),
                rotate_command(
                    Rotation::Rotate180,
                    Command::FillSolid(*area, color),
                    old(self).inner().bounds().size,
                ),
                r,
            ),
    {
        let ghost layer = self.target.inner();
        let ghost c = Command::FillSolid(mirror_x_rect(*area, layer.bounds().size.width), color);
        let r = self.target.fill_solid(area, color);
        proof {
            MirrorY::lemma_request_reaches_inner(layer, self.target.inner(), c);
        }
        r
    }

    fn clear(&mut self, color: D::Color) -> (r: Result<(), D::Error>)
        ensures
            answered(
                old(self).inner(),
                final(self).inner(),
                Command::Clear(color),
                r,
            ),
    {
        let ghost layer = self.target.inner();
        let r = self.target.clear(color);
        proof {
            MirrorY::lemma_request_reaches_inner(layer, self.target.inner(), Command::Clear(color));
        }
        r
    }
}

/// Rotates the image a quarter turn to the left: the mirrored surface is
/// transposed.
pub struct Rotate270<D> {
    target: TransposeXY<MirrorY<D>>,
}

impl<D: DrawTarget> Rotate270<D> {
    /// The wrapped surface.
    pub closed spec fn inner(&self) -> D {
        self.target.inner().inner()
    }

    /// Wraps a surface.
    pub fn new(target: D) -> (r: Self)
        ensures
            r.inner() == target,
    {
        Rotate270 { target: TransposeXY::new(MirrorY::new(target)) }
    }

    /// Gives back the wrapped surface.
    pub fn into_inner(self) -> (r: D)
        ensures
            r == self.inner(),
    {
        self.target.into_inner().into_inner()
    }

    /// Borrows the wrapped surface, to reach what it offers besides drawing.
    pub fn as_ref(&self) -> (r: &D)
        ensures
            *r == self.inner(),
    {
        self.target.as_ref().as_ref()
    }

    /// Borrows the wrapped surface mutably, to reach what it offers besides
    /// drawing.
    pub fn as_mut(&mut self) -> (r: &mut D)
        ensures
            *r == old(self).inner(),
            final(self).inner() == *final(r),
    {
        self.target.as_mut().as_mut()
    }
}

impl<D: DrawTarget> DrawTarget for Rotate270<D> {
    type Color = D::Color;

    type Error = D::Error;

    open spec fn bounds(&self) -> Rectangle {
        rotate_bounds(Rotation::Rotate270, self.inner().bounds())
    }

    closed spec fn requests(&self) -> Seq<Command<D::Color>> {
        self.target.requests()
    }

    closed spec fn outcome(&self, c: Command<D::Color>) -> Result<(), D::Error> {
        self.target.outcome(c)
    }

    fn bounding_box(&self) -> (r: Rectangle) {
        self.target.bounding_box()
    }

    fn draw_iter(&mut self, pixels: Vec<Pixel<D::Color>>) -> (r: Result<(), D::Error>)
        ensures
            answered(
                old(self).inner(),
                final(self).inner(),
                rotate_command(
                    Rotation::Rotate270,
                    Command::Draw(pixels@),
                    old(self).inner().bounds().size,
                ),
                r,
            ),
    {
        let ghost layer = self.target.inner();
        let ghost c = Command::Draw(transpose_pixels(pixels@));
        let r = self.target.draw_iter(pixels);
        proof {
            MirrorY::lemma_request_reaches_inner(layer, self.target.inner(), c);
            assert(
                mirror_y_pixels(transpose_pixels(pixels@), layer.bounds().size.height)
                    =~= rotate_pixels(Rotation::Rotate270, pixels@, old(self).inner().bounds().size)
            );
        }
        r
    }

    fn fill_contiguous(
        &mut self,
        area: &Rectangle,
        colors: Vec<D::Color>,
    ) -> (r: Result<(), D::Error>)
        ensures
            answered(
                old(self).inner(),
                final(self).inner(),
                rotate_command(
                    Rotation::Rotate270,
                    Command::Draw(contiguous_pixels(*area, colors@)),
                    old(self).inner().bounds().size,
                ),
                r,
            ),
    {
        let ghost outer = self.target;
        let ghost c = Command::Draw(contiguous_pixels(*area, colors@));
        let r = self.target.fill_contiguous(area, colors);
        proof {
            TransposeXY::lemma_request_reaches_inner(outer, self.target, c);
            MirrorY::lemma_request_reaches_inner(
                outer.inner(),
                self.target.inner(),
                transpose_command(c),
            );
            assert(
                mirror_y_pixels(
                    transpose_pixels(contiguous_pixels(*area, colors@)),
                    outer.inner().bounds().size.height,
                )
                    =~= rotate_pixels(
                        Rotation::Rotate270,
                        contiguous_pixels(*area, colors@),
                        old(self).inner().bounds().size,
                    )
            );
        }
        r
    }

    fn fill_solid(&mut self, area: &Rectangle, color: D::Color) -> (r: Result<(), D::Error>)
        ensures
            answered(
                old(self).inner(),
                final(self).inner(),
                rotate_command(
                    Rotation::Rotate270,
                    Command::FillSolid(*area, color),
                    old(self).inner().bounds().size,
                ),
                r,
            ),
    {
        let ghost layer = self.target.inner();
        let ghost c = Command::FillSolid(transpose_rect(*area), color);
        let r = self.target.fill_solid(area, color);
        proof {
            MirrorY::lemma_request_reaches_inner(layer, self.target.inner(), c);
        }
        r
    }

    fn clear(&mut self, color: D::Color) -> (r: Result<(), D::Error>)
        ensures
            answered(
                old(self).inner(),
                final(self).inner(),
                Command::Clear(color),
                r,
            ),
    {
        let ghost layer = self.target.inner();
        let r = self.target.clear(color);
        proof {
            MirrorY::lemma_request_reaches_inner(layer, self.target.inner(), Command::Clear(color));
        }
        r
    }
}

/// Leaves the image as it is.
pub struct Rotate0<D> {
    target: D,
}

impl<D: DrawTarget> Rotate0<D> {
    /// The wrapped surface.
    pub closed spec fn inner(&self) -> D {
        self.target
    }

    /// Wraps a surface.
    pub fn new(target: D) -> (r: Self)
        ensures
            r.inner() == target,
    {
        Rotate0 { target }
    }

    /// Gives back the wrapped surface.
    pub fn into_inner(self) -> (r: D)
        ensures
            r == self.inner(),
    {
        self.target
    }

    /// Borrows the wrapped surface, to reach what it offers besides drawing.
    pub fn as_ref(&self) -> (r: &D)
        ensures
            *r == self.inner(),
    {
        &self.target
    }

    /// Borrows the wrapped surface mutably, to reach what it offers besides
    /// drawing.
    pub fn as_mut(&mut self) -> (r: &mut D)
        ensures
            *r == old(self).inner(),
            final(self).inner() == *final(r),
    {
        &mut self.target
    }
}

impl<D: DrawTarget> DrawTarget for Rotate0<D> {
    type Color = D::Color;

    type Error = D::Error;

    open spec fn bounds(&self) -> Rectangle {
        rotate_bounds(Rotation::Rotate0, self.inner().bounds())
    }

    closed spec fn requests(&self) -> Seq<Command<D::Color>> {
        self.target.requests()
    }

    closed spec fn outcome(&self, c: Command<D::Color>) -> Result<(), D::Error> {
        self.target.outcome(c)
    }

    fn bounding_box(&self) -> (r: Rectangle) {
        self.target.bounding_box()
    }

    fn draw_iter(&mut self, pixels: Vec<Pixel<D::Color>>) -> (r: Result<(), D::Error>)
        ensures
            answered(
                old(self).inner(),
                final(self).inner(),
                rotate_command(
                    Rotation::Rotate0,
                    Command::Draw(pixels@),
                    old(self).inner().bounds().size,
                ),
                r,
            ),
    {
        let ghost px = pixels@;
        let r = self.target.draw_iter(pixels);
        assert(rotate_pixels(Rotation::Rotate0, px, old(self).inner().bounds().size) =~= px);
        r
    }

    fn fill_contiguous(
        &mut self,
        area: &Rectangle,
        colors: Vec<D::Color>,
    ) -> (r: Result<(), D::Error>)
        ensures
            answered(
                old(self).inner(),
                final(self).inner(),
                rotate_command(
                    Rotation::Rotate0,
                    Command::Draw(contiguous_pixels(*area, colors@)),
                    old(self).inner().bounds().size,
                ),
                r,
            ),
    {
        let ghost cells = contiguous_pixels(*area, colors@);
        let r = self.target.fill_contiguous(area, colors);
        assert(rotate_pixels(Rotation::Rotate0, cells, old(self).inner().bounds().size) =~= cells);
        r
    }

    fn fill_solid(&mut self, area: &Rectangle, color: D::Color) -> (r: Result<(), D::Error>)
        ensures
            answered(
                old(self).inner(),
                final(self).inner(),
                rotate_command(
                    Rotation::Rotate0,
                    Command::FillSolid(*area, color),
                    old(self).inner().bounds().size,
                ),
                r,
            ),
    {
        let r = self.target.fill_solid(area, color);
        r
    }

    fn clear(&mut self, color: D::Color) -> (r: Result<(), D::Error>)
        ensures
            answered(
                old(self).inner(),
                final(self).inner(),
                Command::Clear(color),
                r,
            ),
    {
        let r = self.target.clear(color);
        r
    }
}

/// Swaps the X and Y coordinates.
pub struct Transpose<D> {
    target: TransposeXY<D>,
}

impl<D: DrawTarget> Transpose<D> {
    /// The wrapped surface.
    pub closed spec fn inner(&self) -> D {
        self.target.inner()
    }

    /// Wraps a surface.
    pub fn new(target: D) -> (r: Self)
        ensures
            r.inner() == target,
    {
        Transpose { target: TransposeXY::new(target) }
    }

    /// Gives back the wrapped surface.
    pub fn into_inner(self) -> (r: D)
        ensures
            r == self.inner(),
    {
        self.target.into_inner()
    }

    /// Borrows the wrapped surface, to reach what it offers besides drawing.
    pub fn as_ref(&self) -> (r: &D)
        ensures
            *r == self.inner(),
    {
        self.target.as_ref()
    }

    /// Borrows the wrapped surface mutably, to reach what it offers besides
    /// drawing.
    pub fn as_mut(&mut self) -> (r: &mut D)
        ensures
            *r == old(self).inner(),
            final(self).inner() == *final(r),
    {
        self.target.as_mut()
    }
}

impl<D: DrawTarget> DrawTarget for Transpose<D> {
    type Color = D::Color;

    type Error = D::Error;

    open spec fn bounds(&self) -> Rectangle {
        transpose_rect(self.inner().bounds())
    }

    closed spec fn requests(&self) -> Seq<Command<D::Color>> {
        self.target.requests()
    }

    closed spec fn outcome(&self, c: Command<D::Color>) -> Result<(), D::Error> {
        self.target.outcome(c)
    }

    fn bounding_box(&self) -> (r: Rectangle) {
        self.target.bounding_box()
    }

    fn draw_iter(&mut self, pixels: Vec<Pixel<D::Color>>) -> (r: Result<(), D::Error>)
        ensures
            answered(
                old(self).inner(),
                final(self).inner(),
                Command::Draw(transpose_pixels(pixels@)),
                r,
            ),
    {
        let r = self.target.draw_iter(pixels);
        r
    }

    fn fill_contiguous(
        &mut self,
        area: &Rectangle,
        colors: Vec<D::Color>,
    ) -> (r: Result<(), D::Error>)
        ensures
            answered(
                old(self).inner(),
                final(self).inner(),
                Command::Draw(transpose_pixels(contiguous_pixels(*area, colors@))),
                r,
            ),
    {
        let ghost outer = self.target;
        let ghost c = Command::Draw(contiguous_pixels(*area, colors@));
        let r = self.target.fill_contiguous(area, colors);
        proof {
            TransposeXY::lemma_request_reaches_inner(outer, self.target, c);
        }
        r
    }

    fn fill_solid(&mut self, area: &Rectangle, color: D::Color) -> (r: Result<(), D::Error>)
        ensures
            answered(
                old(self).inner(),
                final(self).inner(),
                Command::FillSolid(transpose_rect(*area), color),
                r,
            ),
    {
        let r = self.target.fill_solid(area, color);
        r
    }

    fn clear(&mut self, color: D::Color) -> (r: Result<(), D::Error>)
        ensures
            answered(
                old(self).inner(),
                final(self).inner(),
                Command::Clear(color),
                r,
            ),
    {
        let r = self.target.clear(color);
        r
    }
}

/// Mirrors the image on the X axis.
pub struct FlipX<D> {
    target: MirrorX<D>,
}

impl<D: DrawTarget> FlipX<D> {
    /// The wrapped surface.
    pub closed spec fn inner(&self) -> D {
        self.target.inner()
    }

    /// Wraps a surface.
    pub fn new(target: D) -> (r: Self)
        ensures
            r.inner() == target,
    {
        FlipX { target: MirrorX::new(target) }
    }

    /// Gives back the wrapped surface.
    pub fn into_inner(self) -> (r: D)
        ensures
            r == self.inner(),
    {
        self.target.into_inner()
    }

    /// Borrows the wrapped surface, to reach what it offers besides drawing.
    pub fn as_ref(&self) -> (r: &D)
        ensures
            *r == self.inner(),
    {
        self.target.as_ref()
    }

    /// Borrows the wrapped surface mutably, to reach what it offers besides
    /// drawing.
    pub fn as_mut(&mut self) -> (r: &mut D)
        ensures
            *r == old(self).inner(),
            final(self).inner() == *final(r),
    {
        self.target.as_mut()
    }
}

impl<D: DrawTarget> DrawTarget for FlipX<D> {
    type Color = D::Color;

    type Error = D::Error;

    open spec fn bounds(&self) -> Rectangle {
        self.inner().bounds()
    }

    closed spec fn requests(&self) -> Seq<Command<D::Color>> {
        self.target.requests()
    }

    closed spec fn outcome(&self, c: Command<D::Color>) -> Result<(), D::Error> {
        self.target.outcome(c)
    }

    fn bounding_box(&self) -> (r: Rectangle) {
        self.target.bounding_box()
    }

    fn draw_iter(&mut self, pixels: Vec<Pixel<D::Color>>) -> (r: Result<(), D::Error>)
        ensures
            answered(
                old(self).inner(),
                final(self).inner(),
                Command::Draw(mirror_x_pixels(pixels@, old(self).inner().bounds().size.width)),
                r,
            ),
    {
        let r = self.target.draw_iter(pixels);
        r
    }

    fn fill_contiguous(
        &mut self,
        area: &Rectangle,
        colors: Vec<D::Color>,
    ) -> (r: Result<(), D::Error>)
        ensures
            answered(
                old(self).inner(),
                final(self).inner(),
                Command::Draw(
                    mirror_x_pixels(
                        contiguous_pixels(*area, colors@),
                        old(self).inner().bounds().size.width,
                    ),
                ),
                r,
            ),
    {
        let ghost outer = self.target;
        let ghost c = Command::Draw(contiguous_pixels(*area, colors@));
        let r = self.target.fill_contiguous(area, colors);
        proof {
            MirrorX::lemma_request_reaches_inner(outer, self.target, c);
        }
        r
    }

    fn fill_solid(&mut self, area: &Rectangle, color: D::Color) -> (r: Result<(), D::Error>)
        ensures
            answered(
                old(self).inner(),
                final(self).inner(),
                Command::FillSolid(
                    mirror_x_rect(*area, old(self).inner().bounds().size.width),
                    color,
                ),
                r,
            ),
    {
        let r = self.target.fill_solid(area, color);
        r
    }

    fn clear(&mut self, color: D::Color) -> (r: Result<(), D::Error>)
        ensures
            answered(
                old(self).inner(),
                final(self).inner(),
                Command::Clear(color),
                r,
            ),
    {
        let r = self.target.clear(color);
        r
    }
}

/// Mirrors the image on the Y axis.
pub struct FlipY<D> {
    target: MirrorY<D>,
}

impl<D: DrawTarget> FlipY<D> {
    /// The wrapped surface.
    pub closed spec fn inner(&self) -> D {
        self.target.inner()
    }

    /// Wraps a surface.
    pub fn new(target: D) -> (r: Self)
        ensures
            r.inner() == target,
    {
        FlipY { target: MirrorY::new(target) }
    }

    /// Gives back the wrapped surface.
    pub fn into_inner(self) -> (r: D)
        ensures
            r == self.inner(),
    {
        self.target.into_inner()
    }

    /// Borrows the wrapped surface, to reach what it offers besides drawing.
    pub fn as_ref(&self) -> (r: &D)
        ensures
            *r == self.inner(),
    {
        self.target.as_ref()
    }

    /// Borrows the wrapped surface mutably, to reach what it offers besides
    /// drawing.
    pub fn as_mut(&mut self) -> (r: &mut D)
        ensures
            *r == old(self).inner(),
            final(self).inner() == *final(r),
    {
        self.target.as_mut()
    }
}

impl<D: DrawTarget> DrawTarget for FlipY<D> {
    type Color = D::Color;

    type Error = D::Error;

    open spec fn bounds(&self) -> Rectangle {
        self.inner().bounds()
    }

    closed spec fn requests(&self) -> Seq<Command<D::Color>> {
        self.target.requests()
    }

    closed spec fn outcome(&self, c: Command<D::Color>) -> Result<(), D::Error> {
        self.target.outcome(c)
    }

    fn bounding_box(&self) -> (r: Rectangle) {
        self.target.bounding_box()
    }

    fn draw_iter(&mut self, pixels: Vec<Pixel<D::Color>>) -> (r: Result<(), D::Error>)
        ensures
            answered(
                old(self).inner(),
                final(self).inner(),
                Command::Draw(mirror_y_pixels(pixels@, old(self).inner().bounds().size.height)),
                r,
            ),
    {
        let r = self.target.draw_iter(pixels);
        r
    }

    fn fill_contiguous(
        &mut self,
        area: &Rectangle,
        colors: Vec<D::Color>,
    ) -> (r: Result<(), D::Error>)
        ensures
            answered(
                old(self).inner(),
                final(self).inner(),
                Command::Draw(
                    mirror_y_pixels(
                        contiguous_pixels(*area, colors@),
                        old(self).inner().bounds().size.height,
                    ),
                ),
                r,
            ),
    {
        let ghost outer = self.target;
        let ghost c = Command::Draw(contiguous_pixels(*area, colors@));
        let r = self.target.fill_contiguous(area, colors);
        proof {
            MirrorY::lemma_request_reaches_inner(outer, self.target, c);
        }
        r
    }

    fn fill_solid(&mut self, area: &Rectangle, color: D::Color) -> (r: Result<(), D::Error>)
        ensures
            answered(
                old(self).inner(),
                final(self).inner(),
                Command::FillSolid(
                    mirror_y_rect(*area, old(self).inner().bounds().size.height),
                    color,
                ),
                r,
            ),
    {
        let r = self.target.fill_solid(area, color);
        r
    }

    fn clear(&mut self, color: D::Color) -> (r: Result<(), D::Error>)
        ensures
            answered(
                old(self).inner(),
                final(self).inner(),
                Command::Clear(color),
                r,
            ),
    {
        let r = self.target.clear(color);
        r
    }
}

} // verus!
