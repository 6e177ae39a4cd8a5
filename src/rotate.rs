//! A rotation chosen when the wrapper is built rather than by its type.
use vstd::prelude::*;
use crate::composite::{Rotate0, Rotate180, Rotate270, Rotate90};
use crate::geometry::{Pixel, Rectangle};
use crate::rotation::{Rotation, rotate_bounds, rotate_command};
use crate::target::{Command, DrawTarget, answered, contiguous_pixels};

verus! {

enum RotateInner<D> {
    Rotate0(Rotate0<D>),
    Rotate90(Rotate90<D>),
    Rotate180(Rotate180<D>),
    Rotate270(Rotate270<D>),
}

/// Rotates an image by a rotation given at run time.
///
/// It holds one of the fixed rotations and hands every call to it.
pub struct Rotate<D> {
    target: RotateInner<D>,
}

impl<D: DrawTarget> Rotate<D> {
    /// The rotation chosen at construction.
    pub closed spec fn rotation(&self) -> Rotation {
        match self.target {
            RotateInner::Rotate0(_) => Rotation::Rotate0,
            RotateInner::Rotate90(_) => Rotation::Rotate90,
            RotateInner::Rotate180(_) => Rotation::Rotate180,
            RotateInner::Rotate270(_) => Rotation::Rotate270,
        }
    }

    /// The wrapped surface.
    pub closed spec fn inner(&self) -> D {
        match self.target {
            RotateInner::Rotate0(t) => t.inner(),
            RotateInner::Rotate90(t) => t.inner(),
            RotateInner::Rotate180(t) => t.inner(),
            RotateInner::Rotate270(t) => t.inner(),
        }
    }

    /// Wraps a surface in the rotation `rot`.
    pub fn new(rot: Rotation, target: D) -> (r: Self)
        ensures
            r.rotation() == rot,
            r.inner() == target,
    {
        let target = match rot {
            Rotation::Rotate0 => RotateInner::Rotate0(Rotate0::new(target)),
            Rotation::Rotate90 => RotateInner::Rotate90(Rotate90::new(target)),
            Rotation::Rotate180 => RotateInner::Rotate180(Rotate180::new(target)),
            Rotation::Rotate270 => RotateInner::Rotate270(Rotate270::new(target)),
        };
        Rotate { target }
    }

    /// Gives back the wrapped surface.
    pub fn into_inner(self) -> (r: D)
        ensures
            r == self.inner(),
    {
        match self.target {
            RotateInner::Rotate0(t) => t.into_inner(),
            RotateInner::Rotate90(t) => t.into_inner(),
            RotateInner::Rotate180(t) => t.into_inner(),
            RotateInner::Rotate270(t) => t.into_inner(),
        }
    }

    /// Borrows the wrapped surface, to reach what it offers besides drawing.
    pub fn as_ref(&self) -> (r: &D)
        ensures
            *r == self.inner(),
    {
        match &self.target {
            RotateInner::Rotate0(t) => t.as_ref(),
            RotateInner::Rotate90(t) => t.as_ref(),
            RotateInner::Rotate180(t) => t.as_ref(),
            RotateInner::Rotate270(t) => t.as_ref(),
        }
    }

    /// Borrows the wrapped surface mutably, to reach what it offers besides
    /// drawing.
    pub fn as_mut(&mut self) -> (r: &mut D)
        ensures
            *r == old(self).inner(),
            final(self).inner() == *final(r),
            final(self).rotation() == old(self).rotation(),
    {
        match &mut self.target {
            RotateInner::Rotate0(t) => t.as_mut(),
            RotateInner::Rotate90(t) => t.as_mut(),
            RotateInner::Rotate180(t) => t.as_mut(),
            RotateInner::Rotate270(t) => t.as_mut(),
        }
    }
}

impl<D: DrawTarget> DrawTarget for Rotate<D> {
    type Color = D::Color;

    type Error = D::Error;

    open spec fn bounds(&self) -> Rectangle {
        rotate_bounds(self.rotation(), self.inner().bounds())
    }

    closed spec fn requests(&self) -> Seq<Command<D::Color>> {
        match self.target {
            RotateInner::Rotate0(t) => t.requests(),
            RotateInner::Rotate90(t) => t.requests(),
            RotateInner::Rotate180(t) => t.requests(),
            RotateInner::Rotate270(t) => t.requests(),
        }
    }

    closed spec fn outcome(&self, c: Command<D::Color>) -> Result<(), D::Error> {
        match self.target {
            RotateInner::Rotate0(t) => t.outcome(c),
            RotateInner::Rotate90(t) => t.outcome(c),
            RotateInner::Rotate180(t) => t.outcome(c),
            RotateInner::Rotate270(t) => t.outcome(c),
        }
    }

    fn bounding_box(&self) -> (r: Rectangle) {
        match &self.target {
            RotateInner::Rotate0(t) => t.bounding_box(),
            RotateInner::Rotate90(t) => t.bounding_box(),
            RotateInner::Rotate180(t) => t.bounding_box(),
            RotateInner::Rotate270(t) => t.bounding_box(),
        }
    }

    fn draw_iter(&mut self, pixels: Vec<Pixel<D::Color>>) -> (r: Result<(), D::Error>)
        ensures
            final(self).rotation() == old(self).rotation(),
            answered(
                old(self).inner(),
                final(self).inner(),
                rotate_command(
                    old(self).rotation(),
                    Command::Draw(pixels@),
                    old(self).inner().bounds().size,
                ),
                r,
            ),
    {
        match &mut self.target {
            RotateInner::Rotate0(t) => t.draw_iter(pixels),
            RotateInner::Rotate90(t) => t.draw_iter(pixels),
            RotateInner::Rotate180(t) => t.draw_iter(pixels),
            RotateInner::Rotate270(t) => t.draw_iter(pixels),
        }
    }

    fn fill_contiguous(
        &mut self,
        area: &Rectangle,
        colors: Vec<D::Color>,
    ) -> (r: Result<(), D::Error>)
        ensures
            final(self).rotation() == old(self).rotation(),
            answered(
                old(self).inner(),
                final(self).inner(),
                rotate_command(
                    old(self).rotation(),
                    Command::Draw(contiguous_pixels(*area, colors@)),
                    old(self).inner().bounds().size,
                ),
                r,
            ),
    {
        match &mut self.target {
            RotateInner::Rotate0(t) => t.fill_contiguous(area, colors),
            RotateInner::Rotate90(t) => t.fill_contiguous(area, colors),
            RotateInner::Rotate180(t) => t.fill_contiguous(area, colors),
            RotateInner::Rotate270(t) => t.fill_contiguous(area, colors),
        }
    }

    fn fill_solid(&mut self, area: &Rectangle, color: D::Color) -> (r: Result<(), D::Error>)
        ensures
            final(self).rotation() == old(self).rotation(),
            answered(
                old(self).inner(),
                final(self).inner(),
                rotate_command(
                    old(self).rotation(),
                    Command::FillSolid(*area, color),
                    old(self).inner().bounds().size,
                ),
                r,
            ),
    {
        match &mut self.target {
            RotateInner::Rotate0(t) => t.fill_solid(area, color),
            RotateInner::Rotate90(t) => t.fill_solid(area, color),
            RotateInner::Rotate180(t) => t.fill_solid(area, color),
            RotateInner::Rotate270(t) => t.fill_solid(area, color),
        }
    }

    fn clear(&mut self, color: D::Color) -> (r: Result<(), D::Error>)
        ensures
            final(self).rotation() == old(self).rotation(),
            answered(
                old(self).inner(),
                final(self).inner(),
                Command::Clear(color),
                r,
            ),
    {
        match &mut self.target {
            RotateInner::Rotate0(t) => t.clear(color),
            RotateInner::Rotate90(t) => t.clear(color),
            RotateInner::Rotate180(t) => t.clear(color),
            RotateInner::Rotate270(t) => t.clear(color),
        }
    }
}

} // verus!
