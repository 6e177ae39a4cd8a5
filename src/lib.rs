//! Coordinate transforms for pixel-addressable drawing surfaces.
//!
//! Each transform wraps a surface and offers the same drawing protocol,
//! rewriting the geometry of every request on its way in and of the bounding
//! box on its way out: transposition, mirroring on either axis, and rotation
//! by quarter turns, fixed by the wrapper's type or chosen at run time.
pub mod geometry;
pub mod target;
pub mod transform;
pub mod rotation;
pub mod composite;
pub mod rotate;

pub use composite::{FlipX, FlipY, Rotate0, Rotate180, Rotate270, Rotate90, Transpose};
pub use geometry::{Pixel, Point, Rectangle, Size};
pub use rotate::Rotate;
pub use rotation::Rotation;
pub use target::{Command, DrawTarget};
pub use transform::{MirrorX, MirrorY, TransposeXY};
