//! Wires: straight segments between cells, and the wires made of them.

use crate::coords::Coords;
use crate::event::{Event, EventCtx};
use crate::geometry::Rect;
use crate::paint::{Color, PaintCtx, DrawOp};
use vstd::prelude::*;

verus! {

/// A straight piece of wire between two cells of one column or one row.
#[derive(Clone, Copy, Debug, PartialEq, Eq)]
pub struct WireSegment {
    start: Coords,
    end: Coords,
}

/// Whether two cells lie in one column or in one row.
pub open spec fn axis_aligned(a: Coords, b: Coords) -> bool {
    a.x == b.x || a.y == b.y
}

/// The smaller of two pixel coordinates.
pub open spec fn lesser(a: int, b: int) -> int {
    if a <= b {
        a
    } else {
        b
    }
}

/// The larger of two pixel coordinates.
pub open spec fn greater(a: int, b: int) -> int {
    if a >= b {
        a
    } else {
        b
    }
}

impl WireSegment {
    #[verifier::type_invariant]
    spec fn aligned(&self) -> bool {
        axis_aligned(self.start, self.end)
    }

    pub closed spec fn spec_start(&self) -> Coords {
        self.start
    }

    pub closed spec fn spec_end(&self) -> Coords {
        self.end
    }

    /// The segment from `start` to `end`, as a value.
    pub closed spec fn between(start: Coords, end: Coords) -> WireSegment {
        WireSegment { start, end }
    }

    /// A segment is known by its two ends.
    pub proof fn lemma_between(start: Coords, end: Coords)
        ensures
            Self::between(start, end).start() == start,
            Self::between(start, end).end() == end,
    {
    }

    /// The segment from `start` to `end`, if the two lie in one column or in
    /// one row; otherwise there is no such segment.
    pub fn new(start: Coords, end: Coords) -> (segment: Option<Self>)
        ensures
            segment.is_some() <==> axis_aligned(start, end),
            segment matches Some(s) ==> s == Self::between(start, end) && s.start() == start
                && s.end() == end,
    {
        if start.x != end.x && start.y != end.y {
            None
        } else {
            Some(WireSegment { start, end })
        }
    }

    /// The cell the segment starts on.
    #[verifier::when_used_as_spec(spec_start)]
    pub fn start(&self) -> (c: Coords)
        ensures
            c == self.spec_start(),
            axis_aligned(self.start(), self.end()),
    {
        proof {
            use_type_invariant(self);
        }
        self.start
    }

    /// The cell the segment ends on.
    #[verifier::when_used_as_spec(spec_end)]
    pub fn end(&self) -> (c: Coords)
        ensures
            c == self.spec_end(),
            axis_aligned(self.start(), self.end()),
    {
        proof {
            use_type_invariant(self);
        }
        self.end
    }

    pub open spec fn spec_bounding_rect(&self) -> Rect {
        let s = self.start().to_widget_space();
        let e = self.end().to_widget_space();
        Rect {
            x0: (lesser(s.x as int, e.x as int) - 2) as i128,
            y0: (lesser(s.y as int, e.y as int) - 2) as i128,
            x1: (greater(s.x as int, e.x as int) + 2) as i128,
            y1: (greater(s.y as int, e.y as int) + 2) as i128,
        }
    }

    /// The frame of the segment: the rectangle between the corners of its two
    /// cells, made two pixels larger on every side.
    #[verifier::when_used_as_spec(spec_bounding_rect)]
    pub fn bounding_rect(&self) -> (rect: Rect)
        ensures
            rect == self.spec_bounding_rect(),
    {
        let s = self.start.to_widget_space();
        let e = self.end.to_widget_space();
        Rect {
            x0: (if s.x <= e.x { s.x } else { e.x }) - 2,
            y0: (if s.y <= e.y { s.y } else { e.y }) - 2,
            x1: (if s.x >= e.x { s.x } else { e.x }) + 2,
            y1: (if s.y >= e.y { s.y } else { e.y }) + 2,
        }
    }

    /// The bar that shows the segment: the line between the centres of its
    /// two cells, made one pixel larger on every side.
    pub open spec fn bar(&self) -> Rect {
        let s = self.start().to_canvas_space();
        let e = self.end().to_canvas_space();
        Rect {
            x0: (lesser(s.x as int, e.x as int) - 1) as i128,
            y0: (lesser(s.y as int, e.y as int) - 1) as i128,
            x1: (greater(s.x as int, e.x as int) + 1) as i128,
            y1: (greater(s.y as int, e.y as int) + 1) as i128,
        }
    }

    /// The mark on the corner of the segment's frame, two pixels wide and
    /// high.
    pub open spec fn corner_mark(&self) -> Rect {
        let frame = self.bounding_rect();
        Rect { x0: frame.x0, y0: frame.y0, x1: (frame.x0 + 2) as i128, y1: (frame.y0 + 2) as i128 }
    }

    /// What painting the segment records: its bar in green, then the mark on
    /// its frame's corner in red.
    pub open spec fn painted(&self) -> Seq<DrawOp> {
        seq![
            DrawOp::Fill { rect: self.bar(), color: Color::Green },
            DrawOp::Fill { rect: self.corner_mark(), color: Color::Red },
        ]
    }

    /// Paints the segment.
    pub fn paint(&self, ctx: &mut PaintCtx)
        ensures
            final(ctx).size == old(ctx).size,
            final(ctx).ops@ == old(ctx).ops@ + self.painted(),
    {
        let s = self.start.to_canvas_space();
        let e = self.end.to_canvas_space();
        let bar = Rect {
            x0: (if s.x <= e.x { s.x } else { e.x }) - 1,
            y0: (if s.y <= e.y { s.y } else { e.y }) - 1,
            x1: (if s.x >= e.x { s.x } else { e.x }) + 1,
            y1: (if s.y >= e.y { s.y } else { e.y }) + 1,
        };
        let frame = self.bounding_rect();
        let mark = Rect { x0: frame.x0, y0: frame.y0, x1: frame.x0 + 2, y1: frame.y0 + 2 };
        ctx.fill(bar, Color::Green);
        ctx.fill(mark, Color::Red);
        assert(ctx.ops@ =~= old(ctx).ops@ + self.painted());
    }
}

/// The smallest rectangle that encloses all of `rects`, which is not empty.
pub open spec fn enclosing(rects: Seq<Rect>) -> Rect
    decreases rects.len(),
{
    if rects.len() <= 1 {
        rects[0]
    } else {
        enclosing(rects.drop_last()).union(rects.last())
    }
}

/// The wire: its segments, in the order in which they were added.
#[derive(Debug)]
pub struct WireState {
    pub segments: Vec<WireSegment>,
}

impl WireState {
    /// The frames of the segments, in order.
    pub open spec fn frames(&self) -> Seq<Rect> {
        Seq::new(self.segments@.len(), |i: int| self.segments@[i].bounding_rect())
    }

    /// The frame of the wire: the smallest rectangle that encloses the frames
    /// of all its segments. The wire must have a segment.
    pub fn bounding_rect(&self) -> (rect: Rect)
        requires
            self.segments@.len() > 0,
        ensures
            rect == enclosing(self.frames()),
    {
        let mut rect = self.segments[0].bounding_rect();
        let mut i: usize = 1;
        assert(self.frames().take(1) =~= seq![self.segments@[0].bounding_rect()]);
        while i < self.segments.len()
            invariant
                1 <= i <= self.segments@.len(),
                rect == enclosing(self.frames().take(i as int)),
            decreases self.segments@.len() - i,
        {
            let frame = self.segments[i].bounding_rect();
            proof {
                let next = self.frames().take(i + 1);
                assert(next.drop_last() =~= self.frames().take(i as int));
                assert(next.last() == frame);
            }
            rect = rect.union(frame);
            i += 1;
        }
        assert(self.frames().take(i as int) =~= self.frames());
        rect
    }
}

/// What painting a wire of these segments records: what each segment
/// records, in order.
pub open spec fn painted_segments(segments: Seq<WireSegment>) -> Seq<DrawOp>
    decreases segments.len(),
{
    if segments.len() == 0 {
        Seq::empty()
    } else {
        painted_segments(segments.drop_last()) + segments.last().painted()
    }
}

/// The frame that encloses some rectangles reaches as far as each of them on
/// every side, and no further than the furthest of them.
pub proof fn lemma_enclosing_is_tight(rects: Seq<Rect>)
    requires
        rects.len() > 0,
    ensures
        forall|i: int|
            0 <= i < rects.len() ==> {
                &&& enclosing(rects).x0 <= (#[trigger] rects[i]).x0
                &&& enclosing(rects).y0 <= rects[i].y0
                &&& enclosing(rects).x1 >= rects[i].x1
                &&& enclosing(rects).y1 >= rects[i].y1
            },
        exists|i: int| 0 <= i < rects.len() && enclosing(rects).x0 == (#[trigger] rects[i]).x0,
        exists|i: int| 0 <= i < rects.len() && enclosing(rects).y0 == (#[trigger] rects[i]).y0,
        exists|i: int| 0 <= i < rects.len() && enclosing(rects).x1 == (#[trigger] rects[i]).x1,
        exists|i: int| 0 <= i < rects.len() && enclosing(rects).y1 == (#[trigger] rects[i]).y1,
    decreases rects.len(),
{
    if rects.len() == 1 {
        assert(enclosing(rects) == rects[0]);
    } else {
        let front = rects.drop_last();
        lemma_enclosing_is_tight(front);
        let e = enclosing(front);
        let last = rects.len() - 1;
        assert forall|i: int| 0 <= i < rects.len() implies {
            &&& enclosing(rects).x0 <= (#[trigger] rects[i]).x0
            &&& enclosing(rects).y0 <= rects[i].y0
            &&& enclosing(rects).x1 >= rects[i].x1
            &&& enclosing(rects).y1 >= rects[i].y1
        } by {
            if i < last {
                assert(front[i] == rects[i]);
            }
        }
        let i0 = choose|i: int| 0 <= i < front.len() && e.x0 == (#[trigger] front[i]).x0;
        let j0 = if e.x0 <= rects[last].x0 { i0 } else { last };
        assert(front[i0] == rects[i0]);
        assert(0 <= j0 < rects.len() && enclosing(rects).x0 == rects[j0].x0);
        let i1 = choose|i: int| 0 <= i < front.len() && e.y0 == (#[trigger] front[i]).y0;
        let j1 = if e.y0 <= rects[last].y0 { i1 } else { last };
        assert(front[i1] == rects[i1]);
        assert(0 <= j1 < rects.len() && enclosing(rects).y0 == rects[j1].y0);
        let i2 = choose|i: int| 0 <= i < front.len() && e.x1 == (#[trigger] front[i]).x1;
        let j2 = if e.x1 >= rects[last].x1 { i2 } else { last };
        assert(front[i2] == rects[i2]);
        assert(0 <= j2 < rects.len() && enclosing(rects).x1 == rects[j2].x1);
        let i3 = choose|i: int| 0 <= i < front.len() && e.y1 == (#[trigger] front[i]).y1;
        let j3 = if e.y1 >= rects[last].y1 { i3 } else { last };
        assert(front[i3] == rects[i3]);
        assert(0 <= j3 < rects.len() && enclosing(rects).y1 == rects[j3].y1);
    }
}

/// A wire on the canvas, known by its id.
#[derive(Clone, Copy, Debug, PartialEq, Eq, Structural)]
pub struct Wire(pub usize);

impl Wire {
    /// A wire acts on no event.
    pub fn event(&self, ctx: &mut EventCtx, event: &Event, data: &mut WireState)
        ensures
            final(ctx)@ == old(ctx)@,
            final(data).segments@ == old(data).segments@,
    {
    }

    /// Paints the wire: each of its segments, in order.
    pub fn paint(&self, ctx: &mut PaintCtx, data: &WireState)
        ensures
            final(ctx).size == old(ctx).size,
            final(ctx).ops@ == old(ctx).ops@ + painted_segments(data.segments@),
    {
        let mut i: usize = 0;
        assert(data.segments@.take(0) =~= Seq::empty());
        while i < data.segments.len()
            invariant
                0 <= i <= data.segments@.len(),
                ctx.size == old(ctx).size,
                ctx.ops@ == old(ctx).ops@ + painted_segments(data.segments@.take(i as int)),
            decreases data.segments@.len() - i,
        {
            data.segments[i].paint(ctx);
            proof {
                let done = data.segments@.take(i + 1);
                assert(done.drop_last() =~= data.segments@.take(i as int));
                assert(done.last() == data.segments@[i as int]);
                assert(ctx.ops@ =~= old(ctx).ops@ + painted_segments(done));
            }
            i += 1;
        }
        assert(data.segments@.take(i as int) =~= data.segments@);
    }
}

} // verus!
