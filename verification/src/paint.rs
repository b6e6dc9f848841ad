//! What a paint pass hands to the drawing surface.
//!
//! Painting does not draw. It records, in order, the operations that the host
//! performs on its surface: filled rectangles, stroked rounded rectangles,
//! and icons under a transform. Everything is in the pixels in which the
//! pointer reports its position.

use crate::component::Orientation;
use crate::geometry::{Point, Rect, Size};
use vstd::prelude::*;

verus! {

/// The colours the editor paints with.
#[derive(Clone, Copy, Debug, PartialEq, Eq, Structural)]
pub enum Color {
    Gray,
    Green,
    Red,
    Aqua,
}

/// A turn by quarter turns followed by a shift: `p` goes to the turned `p`
/// plus `(dx, dy)`.
#[derive(Clone, Copy, Debug, PartialEq, Eq, Structural)]
pub struct Affine {
    pub rotation: Orientation,
    pub dx: i128,
    pub dy: i128,
}

impl Affine {
    /// Where the transform takes `p`.
    pub open spec fn apply(&self, p: Point) -> Point {
        Point {
            x: (self.rotation.turn_x(p.x as int, p.y as int) + self.dx) as i128,
            y: (self.rotation.turn_y(p.x as int, p.y as int) + self.dy) as i128,
        }
    }
}

/// One operation on the drawing surface.
#[derive(Clone, Copy, Debug, PartialEq, Eq, Structural)]
pub enum DrawOp {
    /// Fill `rect` with `color`.
    Fill { rect: Rect, color: Color },
    /// Stroke the outline of `rect`, its corners rounded with `radius`, with a
    /// line of `width` pixels.
    Stroke { rect: Rect, radius: u32, color: Color, width: u32 },
    /// Draw the icon of the catalog entry `ty` under `transform`.
    Icon { ty: usize, transform: Affine },
}

/// The record of a paint pass.
#[derive(Debug)]
pub struct PaintCtx {
    /// The extent of the visible area.
    pub size: Size,
    /// The operations recorded so far, first to last.
    pub ops: Vec<DrawOp>,
}

impl PaintCtx {
    /// An empty record for a visible area of extent `size`.
    pub fn new(size: Size) -> (ctx: Self)
        ensures
            ctx.size == size,
            ctx.ops@ == Seq::<DrawOp>::empty(),
    {
        PaintCtx { size, ops: Vec::new() }
    }

    pub open spec fn spec_size(&self) -> Size {
        self.size
    }

    /// The extent of the visible area.
    #[verifier::when_used_as_spec(spec_size)]
    pub fn size(&self) -> (size: Size)
        ensures
            size == self.size,
    {
        self.size
    }

    /// Records a filled rectangle.
    pub fn fill(&mut self, rect: Rect, color: Color)
        ensures
            final(self).size == old(self).size,
            final(self).ops@ == old(self).ops@.push(DrawOp::Fill { rect, color }),
    {
        self.ops.push(DrawOp::Fill { rect, color });
    }

    /// Records a stroked rounded rectangle.
    pub fn stroke(&mut self, rect: Rect, radius: u32, color: Color, width: u32)
        ensures
            final(self).size == old(self).size,
            final(self).ops@ == old(self).ops@.push(DrawOp::Stroke { rect, radius, color, width }),
    {
        self.ops.push(DrawOp::Stroke { rect, radius, color, width });
    }

    /// Records an icon.
    pub fn draw_icon(&mut self, ty: usize, transform: Affine)
        ensures
            final(self).size == old(self).size,
            final(self).ops@ == old(self).ops@.push(DrawOp::Icon { ty, transform }),
    {
        self.ops.push(DrawOp::Icon { ty, transform });
    }
}

} // verus!
