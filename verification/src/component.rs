//! Components: the catalog of gate kinds, and a gate placed on the grid.

use crate::canvas::WireDraw;
use crate::coords::{Coords, CELL_SIZE};
use crate::event::{Command, Event, EventCtx, EventCtxView, MouseButton, MouseEvent, WidgetId};
use crate::geometry::{Point, Rect, Size, Vec2};
use crate::paint::{Affine, Color, DrawOp, PaintCtx};
use vstd::prelude::*;

verus! {

/// The way a component faces, in quarter turns from north.
#[derive(Clone, Copy, Debug, PartialEq, Eq, Structural)]
pub enum Orientation {
    North,
    East,
    South,
    West,
}

impl Orientation {
    pub open spec fn spec_angle(&self) -> u16 {
        match self {
            Orientation::North => 0,
            Orientation::East => 90,
            Orientation::South => 180,
            Orientation::West => 270,
        }
    }

    /// The turn from north, in degrees clockwise.
    #[verifier::when_used_as_spec(spec_angle)]
    pub fn angle(&self) -> (degrees: u16)
        ensures
            degrees == self.spec_angle(),
    {
        match self {
            Orientation::North => 0,
            Orientation::East => 90,
            Orientation::South => 180,
            Orientation::West => 270,
        }
    }

    pub open spec fn spec_from_key(key: char) -> Option<Orientation> {
        if key == 'w' {
            Some(Orientation::North)
        } else if key == 'a' {
            Some(Orientation::West)
        } else if key == 's' {
            Some(Orientation::South)
        } else if key == 'd' {
            Some(Orientation::East)
        } else {
            None
        }
    }

    /// The orientation that a key sets: `w` north, `a` west, `s` south, `d`
    /// east. No other key sets one.
    #[verifier::when_used_as_spec(spec_from_key)]
    pub fn from_key(key: char) -> (o: Option<Orientation>)
        ensures
            o == Self::spec_from_key(key),
    {
        if key == 'w' {
            Some(Orientation::North)
        } else if key == 'a' {
            Some(Orientation::West)
        } else if key == 's' {
            Some(Orientation::South)
        } else if key == 'd' {
            Some(Orientation::East)
        } else {
            None
        }
    }

    /// Whether the component lies on its side, so that width and height
    /// change places.
    pub open spec fn is_sideways(&self) -> bool {
        *self == Orientation::East || *self == Orientation::West
    }

    /// The column of `(x, y)` after the turn.
    pub open spec fn turn_x(&self, x: int, y: int) -> int {
        match self {
            Orientation::North => x,
            Orientation::East => -y,
            Orientation::South => -x,
            Orientation::West => y,
        }
    }

    /// The row of `(x, y)` after the turn.
    pub open spec fn turn_y(&self, x: int, y: int) -> int {
        match self {
            Orientation::North => y,
            Orientation::East => x,
            Orientation::South => -y,
            Orientation::West => -x,
        }
    }
}

/// What a pin is for.
#[derive(Clone, Copy, Debug, PartialEq, Eq, Structural)]
pub enum PinType {
    Input,
    Output,
}

/// A point of a component where a wire can start.
#[derive(Clone, Copy, Debug, PartialEq, Eq, Structural)]
pub struct Pin {
    /// The pin's cell, counted from the anchor of a component that faces north.
    pub pos: Coords,
    pub ty: PinType,
}

impl Pin {
    pub fn new(x: isize, y: isize, ty: PinType) -> (pin: Self)
        ensures
            pin.pos.x == x,
            pin.pos.y == y,
            pin.ty == ty,
    {
        Pin { pos: Coords::new(x, y), ty }
    }
}

/// Where the anchor lies in the icon of a component that faces north, in
/// pixels from the icon's corner.
#[derive(Clone, Copy, Debug, PartialEq, Eq, Structural)]
pub struct Offset {
    pub dx: u32,
    pub dy: u32,
}

/// A kind of component: the geometry that all its instances share.
#[derive(Debug)]
pub struct ComponentType {
    /// The extent of the icon of a component that faces north.
    pub size: Size,
    /// The point of that icon which stands on the component's cell.
    pub anchor_offset: Offset,
    pub pins: Vec<Pin>,
}

/// No pin of a catalog entry is further than this from the anchor, in cells.
pub const PIN_LIMIT: isize = 0x3fff_ffff;

/// The pins of a gate with one input: the input a cell below the anchor, the
/// output two cells above it.
pub open spec fn one_input_pins() -> Seq<Pin> {
    seq![
        Pin { pos: Coords { x: 0, y: 1 }, ty: PinType::Input },
        Pin { pos: Coords { x: 0, y: -2isize }, ty: PinType::Output },
    ]
}

/// The pins of a gate with two inputs: the inputs a cell below the anchor, to
/// its left and to its right, the output two cells above it.
pub open spec fn two_input_pins() -> Seq<Pin> {
    seq![
        Pin { pos: Coords { x: -1isize, y: 1 }, ty: PinType::Input },
        Pin { pos: Coords { x: 1, y: 1 }, ty: PinType::Input },
        Pin { pos: Coords { x: 0, y: -2isize }, ty: PinType::Output },
    ]
}

/// Every entry of the catalog keeps its pins within `PIN_LIMIT`.
pub open spec fn catalog_wf(types: Seq<ComponentType>) -> bool {
    forall|t: int| 0 <= t < types.len() ==> (#[trigger] types[t]).wf()
}

/// Whether every entry of the catalog keeps its pins within `PIN_LIMIT`.
pub fn catalog_is_wf(types: &Vec<ComponentType>) -> (ok: bool)
    ensures
        ok == catalog_wf(types@),
{
    let mut t: usize = 0;
    while t < types.len()
        invariant
            0 <= t <= types@.len(),
            forall|u: int| 0 <= u < t ==> (#[trigger] types@[u]).wf(),
        decreases types@.len() - t,
    {
        if !types[t].is_wf() {
            return false;
        }
        t += 1;
    }
    true
}

fn narrow_gate_pins() -> (pins: Vec<Pin>)
    ensures
        pins@ == one_input_pins(),
{
    let mut pins: Vec<Pin> = Vec::new();
    pins.push(Pin::new(0, 1, PinType::Input));
    pins.push(Pin::new(0, -2, PinType::Output));
    assert(pins@ =~= one_input_pins());
    pins
}

fn square_gate_pins() -> (pins: Vec<Pin>)
    ensures
        pins@ == two_input_pins(),
{
    let mut pins: Vec<Pin> = Vec::new();
    pins.push(Pin::new(-1, 1, PinType::Input));
    pins.push(Pin::new(1, 1, PinType::Input));
    pins.push(Pin::new(0, -2, PinType::Output));
    assert(pins@ =~= two_input_pins());
    pins
}

impl ComponentType {
    /// Whether the entry has the given geometry and pins.
    pub open spec fn is(&self, size: Size, anchor_offset: Offset, pins: Seq<Pin>) -> bool {
        &&& self.size == size
        &&& self.anchor_offset == anchor_offset
        &&& self.pins@ == pins
    }

    /// Every pin is within `PIN_LIMIT` cells of the anchor.
    pub open spec fn wf(&self) -> bool {
        forall|i: int|
            0 <= i < self.pins@.len() ==> {
                &&& -PIN_LIMIT <= (#[trigger] self.pins@[i]).pos.x <= PIN_LIMIT
                &&& -PIN_LIMIT <= self.pins@[i].pos.y <= PIN_LIMIT
            }
    }

    /// Whether every pin is within `PIN_LIMIT` cells of the anchor.
    pub fn is_wf(&self) -> (ok: bool)
        ensures
            ok == self.wf(),
    {
        let mut i: usize = 0;
        while i < self.pins.len()
            invariant
                0 <= i <= self.pins@.len(),
                forall|j: int|
                    0 <= j < i ==> {
                        &&& -PIN_LIMIT <= (#[trigger] self.pins@[j]).pos.x <= PIN_LIMIT
                        &&& -PIN_LIMIT <= self.pins@[j].pos.y <= PIN_LIMIT
                    },
            decreases self.pins@.len() - i,
        {
            let pos = self.pins[i].pos;
            if pos.x < -PIN_LIMIT || pos.x > PIN_LIMIT || pos.y < -PIN_LIMIT || pos.y > PIN_LIMIT {
                return false;
            }
            i += 1;
        }
        true
    }

    /// The catalog: the NOT gate, one cell wide with one input, then the AND,
    /// OR and NAND gates, square with two inputs. Each has one output, two
    /// cells above the anchor.
    pub fn enumerate() -> (catalog: Vec<ComponentType>)
        ensures
            catalog@.len() == 4,
            catalog@[0].is(Size { width: 24, height: 48 }, Offset { dx: 12, dy: 32 }, one_input_pins()),
            catalog@[1].is(Size { width: 48, height: 48 }, Offset { dx: 24, dy: 32 }, two_input_pins()),
            catalog@[2].is(Size { width: 48, height: 48 }, Offset { dx: 24, dy: 32 }, two_input_pins()),
            catalog@[3].is(Size { width: 48, height: 48 }, Offset { dx: 24, dy: 32 }, two_input_pins()),
            catalog_wf(catalog@),
    {
        let not_gate = ComponentType {
            size: Size::new(24, 48),
            anchor_offset: Offset { dx: 12, dy: 32 },
            pins: narrow_gate_pins(),
        };
        let and_gate = ComponentType {
            size: Size::new(48, 48),
            anchor_offset: Offset { dx: 24, dy: 32 },
            pins: square_gate_pins(),
        };
        let or_gate = ComponentType {
            size: Size::new(48, 48),
            anchor_offset: Offset { dx: 24, dy: 32 },
            pins: square_gate_pins(),
        };
        let nand_gate = ComponentType {
            size: Size::new(48, 48),
            anchor_offset: Offset { dx: 24, dy: 32 },
            pins: square_gate_pins(),
        };
        let mut catalog: Vec<ComponentType> = Vec::new();
        catalog.push(not_gate);
        catalog.push(and_gate);
        catalog.push(or_gate);
        catalog.push(nand_gate);
        catalog
    }

    pub open spec fn spec_anchor_offset(&self, orientation: Orientation) -> Vec2 {
        let a = self.anchor_offset;
        match orientation {
            Orientation::North => Vec2 { x: a.dx as i128, y: a.dy as i128 },
            Orientation::East => Vec2 { x: (self.size.height - a.dy) as i128, y: a.dx as i128 },
            Orientation::South => Vec2 {
                x: (self.size.width - a.dx) as i128,
                y: (self.size.height - a.dy) as i128,
            },
            Orientation::West => Vec2 { x: a.dy as i128, y: (self.size.width - a.dx) as i128 },
        }
    }

    /// Where the anchor lies in the bounding box of a component that faces
    /// `orientation`, in pixels from the box's corner.
    #[verifier::when_used_as_spec(spec_anchor_offset)]
    pub fn anchor_offset(&self, orientation: Orientation) -> (offset: Vec2)
        ensures
            offset == self.spec_anchor_offset(orientation),
    {
        let dx = self.anchor_offset.dx as i128;
        let dy = self.anchor_offset.dy as i128;
        let width = self.size.width as i128;
        let height = self.size.height as i128;
        match orientation {
            Orientation::North => Vec2 { x: dx, y: dy },
            Orientation::East => Vec2 { x: height - dy, y: dx },
            Orientation::South => Vec2 { x: width - dx, y: height - dy },
            Orientation::West => Vec2 { x: dy, y: width - dx },
        }
    }

    pub open spec fn spec_oriented_size(&self, orientation: Orientation) -> Size {
        match orientation {
            Orientation::North | Orientation::South => self.size,
            Orientation::East | Orientation::West => Size {
                width: self.size.height,
                height: self.size.width,
            },
        }
    }

    /// The extent of the bounding box of a component that faces
    /// `orientation`: that of the icon, with width and height exchanged when
    /// the component lies on its side.
    #[verifier::when_used_as_spec(spec_oriented_size)]
    pub fn oriented_size(&self, orientation: Orientation) -> (size: Size)
        ensures
            size == self.spec_oriented_size(orientation),
    {
        match orientation {
            Orientation::North | Orientation::South => self.size,
            Orientation::East | Orientation::West => Size {
                width: self.size.height,
                height: self.size.width,
            },
        }
    }

    pub open spec fn spec_bounding_rect(&self, coords: Coords, orientation: Orientation) -> Rect {
        let anchor = coords.to_widget_space();
        let offset = self.anchor_offset(orientation);
        let size = self.oriented_size(orientation);
        Rect {
            x0: (anchor.x - offset.x) as i128,
            y0: (anchor.y - offset.y) as i128,
            x1: (anchor.x - offset.x + size.width) as i128,
            y1: (anchor.y - offset.y + size.height) as i128,
        }
    }

    /// The box, in pixels, that a component of this kind covers when it
    /// stands on `coords` and faces `orientation`.
    ///
    /// The box is placed so that the anchor comes to lie on the pixel
    /// position of the cell, sixteen times its column and row: the box's
    /// corner is that position less the anchor offset for the orientation,
    /// and its extent is the oriented size.
    #[verifier::when_used_as_spec(spec_bounding_rect)]
    pub fn bounding_rect(&self, coords: Coords, orientation: Orientation) -> (rect: Rect)
        ensures
            rect == self.spec_bounding_rect(coords, orientation),
            rect.x0 == CELL_SIZE * coords.x - self.anchor_offset(orientation).x,
            rect.y0 == CELL_SIZE * coords.y - self.anchor_offset(orientation).y,
            rect.origin().x == coords.to_widget_space().x - self.anchor_offset(orientation).x,
            rect.origin().y == coords.to_widget_space().y - self.anchor_offset(orientation).y,
            rect.width() == self.oriented_size(orientation).width,
            rect.height() == self.oriented_size(orientation).height,
    {
        let anchor = coords.to_widget_space();
        let offset = self.anchor_offset(orientation);
        let size = self.oriented_size(orientation);
        let x0 = anchor.x - offset.x;
        let y0 = anchor.y - offset.y;
        Rect { x0, y0, x1: x0 + size.width as i128, y1: y0 + size.height as i128 }
    }
}

/// Moving a component by whole cells moves its box by sixteen pixels for a
/// cell and leaves the box's extent as it is.
pub proof fn lemma_box_moves_with_cell(
    ty: ComponentType,
    from: Coords,
    to: Coords,
    orientation: Orientation,
)
    ensures
        ({
            let before = ty.bounding_rect(from, orientation);
            let after = ty.bounding_rect(to, orientation);
            &&& after.x0 - before.x0 == CELL_SIZE * (to.x - from.x)
            &&& after.y0 - before.y0 == CELL_SIZE * (to.y - from.y)
            &&& after.width() == before.width()
            &&& after.height() == before.height()
        }),
{
}

/// Turning a component keeps the area of its box. Facing north or south the
/// box has the icon's width and height; on its side, facing east or west, it
/// has them exchanged.
pub proof fn lemma_orientation_closure(ty: ComponentType, coords: Coords)
    ensures
        ty.bounding_rect(coords, Orientation::North).width() == ty.size.width,
        ty.bounding_rect(coords, Orientation::North).height() == ty.size.height,
        ty.bounding_rect(coords, Orientation::South).width() == ty.size.width,
        ty.bounding_rect(coords, Orientation::South).height() == ty.size.height,
        ty.bounding_rect(coords, Orientation::East).width() == ty.size.height,
        ty.bounding_rect(coords, Orientation::East).height() == ty.size.width,
        ty.bounding_rect(coords, Orientation::West).width() == ty.size.height,
        ty.bounding_rect(coords, Orientation::West).height() == ty.size.width,
        forall|o: Orientation| #[trigger] ty.bounding_rect(coords, o).area() == ty.size.area(),
{
    assert forall|o: Orientation| #[trigger] ty.bounding_rect(coords, o).area() == ty.size.area() by {
        let r = ty.bounding_rect(coords, o);
        let w = ty.size.width as int;
        let h = ty.size.height as int;
        assert(w * h == h * w) by (nonlinear_arith);
        if o.is_sideways() {
            assert(r.width() == h && r.height() == w);
        } else {
            assert(r.width() == w && r.height() == h);
        }
    }
}

/// The anchor lies in the box of a component wherever it lies in the icon:
/// for every orientation the anchor offset is between the box's corners when
/// the icon's own offset is within the icon.
pub proof fn lemma_anchor_within_box(ty: ComponentType, orientation: Orientation)
    requires
        ty.anchor_offset.dx <= ty.size.width,
        ty.anchor_offset.dy <= ty.size.height,
    ensures
        0 <= ty.anchor_offset(orientation).x <= ty.oriented_size(orientation).width,
        0 <= ty.anchor_offset(orientation).y <= ty.oriented_size(orientation).height,
{
}

/// No component stands further than this from the origin, in cells.
pub const COORD_LIMIT: isize = 0x4000_0000;

/// No component is further than this from the origin, in cells, while the
/// pointer holds it.
pub const GRAB_LIMIT: isize = 0x3000_0000;

/// Half the width and height of the region around a pin in which a pointer
/// hits the pin, in pixels.
pub const PIN_REACH: i128 = 3;

/// A component as it stands on the grid: where, of what kind, and facing
/// which way.
#[derive(Clone, Copy, Debug, PartialEq, Eq, Structural)]
pub struct ComponentInstance {
    /// The cell of the anchor.
    pub coords: Coords,
    /// The kind, as an index into the catalog.
    pub ty: usize,
    pub orientation: Orientation,
}

impl ComponentInstance {
    pub fn new(coords: Coords, ty: usize, orientation: Orientation) -> (instance: Self)
        ensures
            instance == (ComponentInstance { coords, ty, orientation }),
    {
        ComponentInstance { coords, ty, orientation }
    }

    /// The kind is an entry of the catalog.
    pub open spec fn wf(&self, types: Seq<ComponentType>) -> bool {
        self.ty < types.len()
    }

    pub open spec fn spec_bounding_rect(&self, types: Seq<ComponentType>) -> Rect {
        types[self.ty as int].bounding_rect(self.coords, self.orientation)
    }

    /// The box that the component covers, in pixels.
    pub fn bounding_rect(&self, types: &Vec<ComponentType>) -> (rect: Rect)
        requires
            self.wf(types@),
        ensures
            rect == self.spec_bounding_rect(types@),
    {
        types[self.ty].bounding_rect(self.coords, self.orientation)
    }

    pub open spec fn spec_anchor_offset(&self, types: Seq<ComponentType>) -> Vec2 {
        types[self.ty as int].anchor_offset(Orientation::North)
    }

    /// Where the anchor lies in the icon, whatever way the component faces.
    pub fn anchor_offset(&self, types: &Vec<ComponentType>) -> (offset: Vec2)
        requires
            self.wf(types@),
        ensures
            offset == self.spec_anchor_offset(types@),
    {
        types[self.ty].anchor_offset(Orientation::North)
    }

    pub open spec fn spec_rotate_about_anchor(&self, types: Seq<ComponentType>) -> Affine {
        let size = types[self.ty as int].size;
        match self.orientation {
            Orientation::North => Affine { rotation: Orientation::North, dx: 0, dy: 0 },
            Orientation::East => Affine { rotation: Orientation::East, dx: size.height as i128, dy: 0 },
            Orientation::South => Affine {
                rotation: Orientation::South,
                dx: size.width as i128,
                dy: size.height as i128,
            },
            Orientation::West => Affine { rotation: Orientation::West, dx: 0, dy: size.width as i128 },
        }
    }

    /// The transform that takes the icon into the component's box: the turn
    /// that the orientation asks for, then the shift that brings the turned
    /// icon back to the corner of the box.
    pub fn rotate_about_anchor(&self, types: &Vec<ComponentType>) -> (transform: Affine)
        requires
            self.wf(types@),
        ensures
            transform == self.spec_rotate_about_anchor(types@),
    {
        let size = types[self.ty].size;
        match self.orientation {
            Orientation::North => Affine { rotation: Orientation::North, dx: 0, dy: 0 },
            Orientation::East => Affine { rotation: Orientation::East, dx: size.height as i128, dy: 0 },
            Orientation::South => Affine {
                rotation: Orientation::South,
                dx: size.width as i128,
                dy: size.height as i128,
            },
            Orientation::West => Affine { rotation: Orientation::West, dx: 0, dy: size.width as i128 },
        }
    }

    /// The number of pins.
    pub open spec fn pin_count(&self, types: Seq<ComponentType>) -> nat {
        types[self.ty as int].pins@.len()
    }

    /// The centre of pin `i`, in pixels: the position of the component's
    /// anchor, sixteen times the column and row of its cell, moved by the
    /// pin's offset after the turn, sixteen pixels for a cell.
    pub open spec fn pin_centre(&self, i: int, types: Seq<ComponentType>) -> Point {
        let pin = types[self.ty as int].pins@[i].pos;
        let anchor = self.coords.to_widget_space();
        Point {
            x: (anchor.x + CELL_SIZE * self.orientation.turn_x(pin.x as int, pin.y as int)) as i128,
            y: (anchor.y + CELL_SIZE * self.orientation.turn_y(pin.x as int, pin.y as int)) as i128,
        }
    }

    pub open spec fn spec_pin_bounding_rect(&self, i: int, types: Seq<ComponentType>) -> Rect {
        let centre = self.pin_centre(i, types);
        Rect {
            x0: (centre.x - PIN_REACH) as i128,
            y0: (centre.y - PIN_REACH) as i128,
            x1: (centre.x + PIN_REACH) as i128,
            y1: (centre.y + PIN_REACH) as i128,
        }
    }

    /// The region in which a pointer hits pin `i`: the square of six pixels
    /// around the pin's centre.
    pub fn pin_bounding_rect(&self, i: usize, types: &Vec<ComponentType>) -> (rect: Rect)
        requires
            self.wf(types@),
            i < self.pin_count(types@),
        ensures
            rect == self.spec_pin_bounding_rect(i as int, types@),
    {
        let centre = self.pin_centre_exec(i, types);
        Rect {
            x0: centre.x - PIN_REACH,
            y0: centre.y - PIN_REACH,
            x1: centre.x + PIN_REACH,
            y1: centre.y + PIN_REACH,
        }
    }

    fn pin_centre_exec(&self, i: usize, types: &Vec<ComponentType>) -> (centre: Point)
        requires
            self.wf(types@),
            i < self.pin_count(types@),
        ensures
            centre == self.pin_centre(i as int, types@),
    {
        let pin = types[self.ty].pins[i].pos;
        let px = pin.x as i128;
        let py = pin.y as i128;
        let anchor = self.coords.to_widget_space();
        match self.orientation {
            Orientation::North => Point {
                x: anchor.x + CELL_SIZE * px,
                y: anchor.y + CELL_SIZE * py,
            },
            Orientation::East => Point {
                x: anchor.x - CELL_SIZE * py,
                y: anchor.y + CELL_SIZE * px,
            },
            Orientation::South => Point {
                x: anchor.x - CELL_SIZE * px,
                y: anchor.y - CELL_SIZE * py,
            },
            Orientation::West => Point {
                x: anchor.x + CELL_SIZE * py,
                y: anchor.y - CELL_SIZE * px,
            },
        }
    }

    /// The cell of pin `i`: the component's cell, moved by the pin's offset
    /// after the turn.
    pub open spec fn spec_pin_coords(&self, i: int, types: Seq<ComponentType>) -> Coords {
        let pin = types[self.ty as int].pins@[i].pos;
        Coords {
            x: (self.coords.x + self.orientation.turn_x(pin.x as int, pin.y as int)) as isize,
            y: (self.coords.y + self.orientation.turn_y(pin.x as int, pin.y as int)) as isize,
        }
    }

    /// Whether the component stands within `COORD_LIMIT` of the origin.
    pub open spec fn in_reach(&self) -> bool {
        &&& -COORD_LIMIT <= self.coords.x <= COORD_LIMIT
        &&& -COORD_LIMIT <= self.coords.y <= COORD_LIMIT
    }

    /// The cell of pin `i`.
    pub fn pin_coords(&self, i: usize, types: &Vec<ComponentType>) -> (cell: Coords)
        requires
            self.wf(types@),
            self.in_reach(),
            types@[self.ty as int].wf(),
            i < self.pin_count(types@),
        ensures
            cell == self.spec_pin_coords(i as int, types@),
            cell.x == self.coords.x + self.orientation.turn_x(
                types@[self.ty as int].pins@[i as int].pos.x as int,
                types@[self.ty as int].pins@[i as int].pos.y as int,
            ),
            cell.y == self.coords.y + self.orientation.turn_y(
                types@[self.ty as int].pins@[i as int].pos.x as int,
                types@[self.ty as int].pins@[i as int].pos.y as int,
            ),
    {
        let pin = types[self.ty].pins[i].pos;
        assert(types@[self.ty as int].pins@[i as int].pos == pin);
        match self.orientation {
            Orientation::North => Coords { x: self.coords.x + pin.x, y: self.coords.y + pin.y },
            Orientation::East => Coords { x: self.coords.x - pin.y, y: self.coords.y + pin.x },
            Orientation::South => Coords { x: self.coords.x - pin.x, y: self.coords.y - pin.y },
            Orientation::West => Coords { x: self.coords.x + pin.y, y: self.coords.y - pin.x },
        }
    }

    /// The first pin from number `from` on whose region holds `pos`, if there
    /// is one.
    pub open spec fn pin_at_from(&self, pos: Point, from: int, types: Seq<ComponentType>) -> Option<usize>
        decreases self.pin_count(types) - from,
    {
        if from < 0 || from >= self.pin_count(types) {
            None
        } else if self.spec_pin_bounding_rect(from, types).contains(pos) {
            Some(from as usize)
        } else {
            self.pin_at_from(pos, from + 1, types)
        }
    }

    /// The first pin whose region holds `pos`, if there is one.
    pub open spec fn spec_pin_at(&self, pos: Point, types: Seq<ComponentType>) -> Option<usize> {
        self.pin_at_from(pos, 0, types)
    }

    /// The pin that a pointer at `pos` hits: the first whose region holds
    /// `pos`.
    pub fn pin_at(&self, pos: Point, types: &Vec<ComponentType>) -> (pin: Option<usize>)
        requires
            self.wf(types@),
        ensures
            pin == self.spec_pin_at(pos, types@),
            pin matches Some(i) ==> i < self.pin_count(types@),
    {
        let count = types[self.ty].pins.len();
        let mut i: usize = 0;
        while i < count
            invariant
                self.wf(types@),
                count == self.pin_count(types@),
                0 <= i <= count,
                self.spec_pin_at(pos, types@) == self.pin_at_from(pos, i as int, types@),
            decreases count - i,
        {
            if self.pin_bounding_rect(i, types).contains(pos) {
                return Some(i);
            }
            i += 1;
        }
        None
    }

    /// The dot that marks pin `i`: the square of two pixels around the pin's
    /// centre.
    pub open spec fn pin_dot(&self, i: int, types: Seq<ComponentType>) -> Rect {
        let centre = self.pin_centre(i, types);
        Rect {
            x0: (centre.x - 1) as i128,
            y0: (centre.y - 1) as i128,
            x1: (centre.x + 1) as i128,
            y1: (centre.y + 1) as i128,
        }
    }

    /// The transform under which the icon is drawn: `rotate_about_anchor`,
    /// then the shift to the corner of the component's box.
    pub open spec fn icon_transform(&self, types: Seq<ComponentType>) -> Affine {
        let turn = self.spec_rotate_about_anchor(types);
        let corner = self.spec_bounding_rect(types).origin();
        Affine {
            rotation: turn.rotation,
            dx: (corner.x + turn.dx) as i128,
            dy: (corner.y + turn.dy) as i128,
        }
    }

    /// What painting the component records when the first `n` pins are done:
    /// the icon, then a green dot on each of those pins, in order.
    pub open spec fn painted(&self, n: int, types: Seq<ComponentType>) -> Seq<DrawOp> {
        seq![DrawOp::Icon { ty: self.ty, transform: self.icon_transform(types) }] + Seq::new(
            n as nat,
            |i: int| DrawOp::Fill { rect: self.pin_dot(i, types), color: Color::Green },
        )
    }

    /// Paints the component: its icon, turned the way it faces, and a dot on
    /// every pin.
    pub fn paint(&self, ctx: &mut PaintCtx, types: &Vec<ComponentType>)
        requires
            self.wf(types@),
        ensures
            final(ctx).size == old(ctx).size,
            final(ctx).ops@ == old(ctx).ops@ + self.painted(self.pin_count(types@) as int, types@),
    {
        let turn = self.rotate_about_anchor(types);
        let corner = self.bounding_rect(types).origin();
        ctx.draw_icon(
            self.ty,
            Affine { rotation: turn.rotation, dx: corner.x + turn.dx, dy: corner.y + turn.dy },
        );
        assert(ctx.ops@ =~= old(ctx).ops@ + self.painted(0, types@));
        let count = types[self.ty].pins.len();
        let mut i: usize = 0;
        while i < count
            invariant
                self.wf(types@),
                count == self.pin_count(types@),
                0 <= i <= count,
                ctx.size == old(ctx).size,
                ctx.ops@ == old(ctx).ops@ + self.painted(i as int, types@),
            decreases count - i,
        {
            let centre = self.pin_centre_exec(i, types);
            ctx.fill(
                Rect { x0: centre.x - 1, y0: centre.y - 1, x1: centre.x + 1, y1: centre.y + 1 },
                Color::Green,
            );
            assert(ctx.ops@ =~= old(ctx).ops@ + self.painted(i + 1, types@));
            i += 1;
        }
    }
}

/// The transform of a component takes the anchor of the icon to the anchor of
/// the box: the point that `anchor_offset` gives for north goes to the point
/// that it gives for the component's orientation.
pub proof fn lemma_turn_takes_anchor(instance: ComponentInstance, types: Seq<ComponentType>)
    ensures
        ({
            let ty = types[instance.ty as int];
            let north = ty.anchor_offset(Orientation::North);
            let turned = ty.anchor_offset(instance.orientation);
            instance.spec_rotate_about_anchor(types).apply(Point { x: north.x, y: north.y }) == (Point {
                x: turned.x,
                y: turned.y,
            })
        }),
{
}

/// The transform under which the icon is drawn takes the icon onto the
/// component's box: the icon's two corners go to two opposite corners of the
/// box, and every point of the icon goes to a point of the box, its edges
/// counted in.
pub proof fn lemma_icon_fills_box(instance: ComponentInstance, types: Seq<ComponentType>, p: Point)
    requires
        0 <= p.x <= types[instance.ty as int].size.width,
        0 <= p.y <= types[instance.ty as int].size.height,
    ensures
        ({
            let size = types[instance.ty as int].size;
            let frame = instance.spec_bounding_rect(types);
            let transform = instance.icon_transform(types);
            let first = transform.apply(Point { x: 0, y: 0 });
            let second = transform.apply(Point { x: size.width as i128, y: size.height as i128 });
            let image = transform.apply(p);
            &&& first.x == frame.x0 || first.x == frame.x1
            &&& first.y == frame.y0 || first.y == frame.y1
            &&& second.x == frame.x0 + frame.x1 - first.x
            &&& second.y == frame.y0 + frame.y1 - first.y
            &&& frame.x0 <= image.x <= frame.x1
            &&& frame.y0 <= image.y <= frame.y1
        }),
{
}

/// A pin stands where the transform takes it: the pin's place in the icon,
/// sixteen pixels for a cell from the icon's anchor, goes to the pin's centre
/// on the canvas.
pub proof fn lemma_pin_follows_turn(instance: ComponentInstance, types: Seq<ComponentType>, i: int)
    requires
        -COORD_LIMIT <= types[instance.ty as int].pins@[i].pos.x <= COORD_LIMIT,
        -COORD_LIMIT <= types[instance.ty as int].pins@[i].pos.y <= COORD_LIMIT,
    ensures
        ({
            let ty = types[instance.ty as int];
            let north = ty.anchor_offset(Orientation::North);
            let pin = ty.pins@[i].pos.to_widget_space();
            instance.icon_transform(types).apply(
                Point { x: (pin.x + north.x) as i128, y: (pin.y + north.y) as i128 },
            ) == instance.pin_centre(i, types)
        }),
{
}

/// A pin stands on the pixel position of its cell, and a pointer that hits a
/// pin is nearer to that position than to any other cell's: every position
/// in the region of a pin rounds to the cell that the pin lies on.
pub proof fn lemma_pin_region_at_cell(
    instance: ComponentInstance,
    types: Seq<ComponentType>,
    i: int,
    pos: Point,
)
    requires
        instance.in_reach(),
        types[instance.ty as int].wf(),
        0 <= i < instance.pin_count(types),
        instance.spec_pin_bounding_rect(i, types).contains(pos),
    ensures
        Coords::from_widget_space(pos) == instance.spec_pin_coords(i, types),
        instance.spec_pin_coords(i, types).to_widget_space() == instance.pin_centre(i, types),
{
    let pin = types[instance.ty as int].pins@[i];
    assert(-PIN_LIMIT <= pin.pos.x <= PIN_LIMIT);
    assert(-PIN_LIMIT <= pin.pos.y <= PIN_LIMIT);
}

/// A component on the canvas: the instance, whether it is selected, and, while
/// the pointer holds it, the cell it stood on and the pointer's position when
/// it was taken.
#[derive(Clone, Copy, Debug, PartialEq, Eq)]
pub struct ComponentState {
    pub instance: ComponentInstance,
    pub selected: bool,
    pub dragging: Option<(Coords, Point)>,
}

impl ComponentState {
    /// A component that is not selected and that the pointer does not hold.
    pub fn new(coords: Coords, ty: usize, orientation: Orientation) -> (state: Self)
        ensures
            state == (ComponentState {
                instance: ComponentInstance { coords, ty, orientation },
                selected: false,
                dragging: None,
            }),
    {
        ComponentState {
            instance: ComponentInstance::new(coords, ty, orientation),
            selected: false,
            dragging: None,
        }
    }

    /// The component is of a kind of the catalog and stands within
    /// `COORD_LIMIT`. While the pointer holds it, the cell it was taken from
    /// is within `GRAB_LIMIT`, and the position it was taken at is one that a
    /// pointer can report.
    pub open spec fn wf(&self, types: Seq<ComponentType>) -> bool {
        &&& self.instance.wf(types)
        &&& self.instance.in_reach()
        &&& self.dragging matches Some((from, grip)) ==> {
            &&& -GRAB_LIMIT <= from.x <= GRAB_LIMIT
            &&& -GRAB_LIMIT <= from.y <= GRAB_LIMIT
            &&& i32::MIN <= grip.x <= i32::MAX
            &&& i32::MIN <= grip.y <= i32::MAX
        }
    }

    /// Whether the component is well-formed for the catalog `types`.
    pub fn is_wf(&self, types: &Vec<ComponentType>) -> (ok: bool)
        ensures
            ok == self.wf(types@),
    {
        let coords = self.instance.coords;
        if self.instance.ty >= types.len() {
            return false;
        }
        if coords.x < -COORD_LIMIT || coords.x > COORD_LIMIT || coords.y < -COORD_LIMIT || coords.y
            > COORD_LIMIT {
            return false;
        }
        match self.dragging {
            Some((from, grip)) => {
                -GRAB_LIMIT <= from.x && from.x <= GRAB_LIMIT && -GRAB_LIMIT <= from.y && from.y
                    <= GRAB_LIMIT && (i32::MIN as i128) <= grip.x && grip.x <= (i32::MAX as i128)
                    && (i32::MIN as i128) <= grip.y && grip.y <= (i32::MAX as i128)
            },
            None => true,
        }
    }

    /// The component after a pointer at `pos` has taken it: selected, and held
    /// at `pos`.
    pub open spec fn grabbed(self, pos: Point) -> ComponentState {
        ComponentState { selected: true, dragging: Some((self.instance.coords, pos)), ..self }
    }

    /// The component after the pointer that holds it has moved to `pos`: on
    /// the cell it was taken from, moved by as many cells as the pointer has
    /// gone since. Nothing moves a component that is not held.
    pub open spec fn dragged(self, pos: Point) -> ComponentState {
        match self.dragging {
            Some((from, grip)) => {
                let by = Coords::from_widget_space(
                    Point { x: (pos.x - grip.x) as i128, y: (pos.y - grip.y) as i128 },
                );
                ComponentState {
                    instance: ComponentInstance {
                        coords: Coords { x: (from.x + by.x) as isize, y: (from.y + by.y) as isize },
                        ..self.instance
                    },
                    ..self
                }
            },
            None => self,
        }
    }

    /// The component after the pointer has let go of it.
    pub open spec fn released(self) -> ComponentState {
        ComponentState { dragging: None, ..self }
    }

    /// The component facing `orientation`.
    pub open spec fn turned(self, orientation: Orientation) -> ComponentState {
        ComponentState { instance: ComponentInstance { orientation, ..self.instance }, ..self }
    }

    /// The component after it has given up its selection: not selected, and
    /// not held.
    pub open spec fn deselected(self) -> ComponentState {
        ComponentState { selected: false, dragging: None, ..self }
    }
}

/// Dragging does not drift. Where a held component stands depends on where it
/// was taken and where the pointer is now, not on the way the pointer went:
/// following the pointer to `via` and then to `to` is following it to `to`.
/// And a pointer that is back where it took the component has brought the
/// component back.
pub proof fn lemma_drag_does_not_drift(data: ComponentState, via: Point, to: Point)
    ensures
        data.dragged(via).dragged(to) == data.dragged(to),
        data.dragging matches Some((from, grip)) ==> data.dragged(grip).instance.coords == from,
{
}

/// A component on the canvas, known by its id.
#[derive(Clone, Copy, Debug, PartialEq, Eq, Structural)]
pub struct Component(pub usize);

impl Component {
    /// The component's name among the handlers of events.
    pub open spec fn widget_id(&self) -> WidgetId {
        WidgetId::Item(self.0)
    }

    /// The component after `event`, when the context before it was `ctx`.
    ///
    /// - The primary button goes down on a pin: the component itself stays as
    ///   it is.
    /// - It goes down elsewhere in the component's box: the component is
    ///   selected and held at the pointer's position.
    /// - The primary button goes up: the component is held no longer.
    /// - The pointer moves: a component that is held follows it.
    /// - A key goes down while the component holds the input focus: `w`, `a`,
    ///   `s` and `d` make it face north, west, south and east.
    /// - Another sender's command to deselect: the component is neither
    ///   selected nor held.
    pub open spec fn state_after(
        &self,
        ctx: EventCtxView,
        event: Event,
        data: ComponentState,
        types: Seq<ComponentType>,
    ) -> ComponentState {
        match event {
            Event::MouseDown(mouse) => {
                if mouse.button != MouseButton::Left {
                    data
                } else if data.instance.spec_pin_at(mouse.pos(), types).is_some() {
                    data
                } else if data.instance.spec_bounding_rect(types).contains(mouse.pos()) {
                    data.grabbed(mouse.pos())
                } else {
                    data
                }
            },
            Event::MouseUp(mouse) => {
                if mouse.button == MouseButton::Left {
                    data.released()
                } else {
                    data
                }
            },
            Event::MouseMove(mouse) => data.dragged(mouse.pos()),
            Event::KeyDown(key) => {
                match Orientation::from_key(key) {
                    Some(orientation) if ctx.focus == Some(self.widget_id()) => data.turned(
                        orientation,
                    ),
                    _ => data,
                }
            },
            Event::Command(Command::DeselectAll(sender)) => {
                if sender != self.widget_id() {
                    data.deselected()
                } else {
                    data
                }
            },
            _ => data,
        }
    }

    /// The context after the component has handled `event`, when the context
    /// before it was `ctx`. Whether another handler has consumed the event
    /// makes no difference to a component.
    ///
    /// - The primary button goes down on a pin: the component submits the
    ///   command to start a wire from this pin, on the pin's cell, and
    ///   consumes the event.
    /// - It goes down elsewhere in the component's box: the component asks
    ///   for a repaint, submits the command that deselects all others unless
    ///   the key that extends a selection is held, takes the input focus and
    ///   consumes the event.
    /// - A key turns the component another way: it asks for a repaint.
    /// - Another sender's command to deselect: the component gives up the
    ///   input focus and asks for a repaint.
    pub open spec fn ctx_after(
        &self,
        ctx: EventCtxView,
        event: Event,
        data: ComponentState,
        types: Seq<ComponentType>,
    ) -> EventCtxView {
        match event {
            Event::MouseDown(mouse) => {
                if mouse.button != MouseButton::Left {
                    ctx
                } else if let Some(pin) = data.instance.spec_pin_at(mouse.pos(), types) {
                    ctx.submit_command(
                        Command::BeginWireDraw(
                            WireDraw::FromComponent {
                                id: self.0,
                                pin,
                                loc: data.instance.spec_pin_coords(pin as int, types),
                            },
                        ),
                    ).set_handled()
                } else if data.instance.spec_bounding_rect(types).contains(mouse.pos()) {
                    let painted = ctx.request_paint();
                    let told = if mouse.ctrl {
                        painted
                    } else {
                        painted.submit_command(Command::DeselectAll(self.widget_id()))
                    };
                    told.request_focus(self.widget_id()).set_handled()
                } else {
                    ctx
                }
            },
            Event::KeyDown(key) => {
                match Orientation::from_key(key) {
                    Some(orientation) if ctx.focus == Some(self.widget_id()) && orientation
                        != data.instance.orientation => ctx.request_paint(),
                    _ => ctx,
                }
            },
            Event::Command(Command::DeselectAll(sender)) => {
                if sender != self.widget_id() {
                    ctx.resign_focus(self.widget_id()).request_paint()
                } else {
                    ctx
                }
            },
            _ => ctx,
        }
    }

    /// Handles `event` for the component whose state is `data`.
    pub fn event(
        &self,
        ctx: &mut EventCtx,
        event: &Event,
        data: &mut ComponentState,
        types: &Vec<ComponentType>,
    )
        requires
            old(data).wf(types@),
            catalog_wf(types@),
        ensures
            *final(data) == self.state_after(old(ctx)@, *event, *old(data), types@),
            final(ctx)@ == self.ctx_after(old(ctx)@, *event, *old(data), types@),
            final(data).wf(types@),
    {
        let me = WidgetId::Item(self.0);
        match event {
            Event::MouseDown(mouse) => {
                if mouse.button == MouseButton::Left {
                    let pos = mouse.pos();
                    match data.instance.pin_at(pos, types) {
                        Some(pin) => {
                            let loc = data.instance.pin_coords(pin, types);
                            ctx.submit_command(
                                Command::BeginWireDraw(WireDraw::FromComponent { id: self.0, pin, loc }),
                            );
                            ctx.set_handled();
                        },
                        None => {
                            let frame = data.instance.bounding_rect(types);
                            if frame.contains(pos) {
                                data.selected = true;
                                ctx.request_paint();
                                if !mouse.ctrl {
                                    ctx.submit_command(Command::DeselectAll(me));
                                }
                                data.dragging = Some((data.instance.coords, pos));
                                ctx.request_focus(me);
                                ctx.set_handled();
                            }
                        },
                    }
                }
            },
            Event::MouseUp(mouse) => {
                if mouse.button == MouseButton::Left {
                    data.dragging = None;
                }
            },
            Event::MouseMove(mouse) => {
                if let Some((from, grip)) = data.dragging {
                    let pos = mouse.pos();
                    let by = Coords::from_widget_space(Point { x: pos.x - grip.x, y: pos.y - grip.y });
                    data.instance.coords = from + by;
                }
            },
            Event::KeyDown(key) => {
                if ctx.has_focus(me) {
                    if let Some(orientation) = Orientation::from_key(*key) {
                        if orientation != data.instance.orientation {
                            data.instance.orientation = orientation;
                            ctx.request_paint();
                        }
                    }
                }
            },
            Event::Command(Command::DeselectAll(sender)) => {
                if *sender != me {
                    data.selected = false;
                    data.dragging = None;
                    ctx.resign_focus(me);
                    ctx.request_paint();
                }
            },
            _ => {},
        }
    }

    /// The outline that shows a selected component: its box, made four pixels
    /// larger on every side.
    pub open spec fn selection_rect(data: ComponentState, types: Seq<ComponentType>) -> Rect {
        let frame = data.instance.spec_bounding_rect(types);
        Rect {
            x0: (frame.x0 - 4) as i128,
            y0: (frame.y0 - 4) as i128,
            x1: (frame.x1 + 4) as i128,
            y1: (frame.y1 + 4) as i128,
        }
    }

    /// What painting the component records: what the instance records, and
    /// after it, for a selected component, the outline in aqua, one pixel
    /// wide, its corners rounded with four pixels.
    pub open spec fn painted(data: ComponentState, types: Seq<ComponentType>) -> Seq<DrawOp> {
        let body = data.instance.painted(data.instance.pin_count(types) as int, types);
        if data.selected {
            body.push(
                DrawOp::Stroke {
                    rect: Self::selection_rect(data, types),
                    radius: 4,
                    color: Color::Aqua,
                    width: 1,
                },
            )
        } else {
            body
        }
    }

    /// Paints the component.
    pub fn paint(&self, ctx: &mut PaintCtx, data: &ComponentState, types: &Vec<ComponentType>)
        requires
            data.instance.wf(types@),
        ensures
            final(ctx).size == old(ctx).size,
            final(ctx).ops@ == old(ctx).ops@ + Self::painted(*data, types@),
    {
        data.instance.paint(ctx, types);
        if data.selected {
            let frame = data.instance.bounding_rect(types);
            ctx.stroke(
                Rect { x0: frame.x0 - 4, y0: frame.y0 - 4, x1: frame.x1 + 4, y1: frame.y1 + 4 },
                4,
                Color::Aqua,
                1,
            );
        }
        assert(ctx.ops@ =~= old(ctx).ops@ + Self::painted(*data, types@));
    }
}

/// A command to deselect clears every component but its sender. Whatever the
/// context and whatever state the component is in: a component that is not
/// the sender is afterwards neither selected nor held, stands where it stood,
/// of the same kind and facing the same way, holds the input focus no longer
/// and has asked for a repaint; the sender itself, and the context, are as
/// they were. No command is submitted.
pub proof fn lemma_deselect_spares_sender(
    item: Component,
    ctx: EventCtxView,
    sender: WidgetId,
    data: ComponentState,
    types: Seq<ComponentType>,
)
    ensures
        ({
            let event = Event::Command(Command::DeselectAll(sender));
            let after = item.state_after(ctx, event, data, types);
            let told = item.ctx_after(ctx, event, data, types);
            &&& sender != item.widget_id() ==> {
                &&& !after.selected
                &&& after.dragging.is_none()
                &&& after.instance == data.instance
                &&& told.paint_requested
                &&& told.focus != Some(item.widget_id())
            }
            &&& sender == item.widget_id() ==> after == data && told == ctx
            &&& told.commands == ctx.commands
            &&& told.is_handled == ctx.is_handled
            &&& told.children_changed == ctx.children_changed
        }),
{
}

/// A press of the primary button in the box of a component, on none of its
/// pins, selects it and tells the others once. Whatever the context and
/// whether or not the component was selected before: it is selected and held
/// at the pointer's position; the command to deselect, naming this
/// component, is submitted once if the key that extends a selection is not
/// held, and not at all if it is; no wire is begun; the component takes the
/// input focus, asks for a repaint and consumes the event.
pub proof fn lemma_press_in_box(
    item: Component,
    ctx: EventCtxView,
    mouse: MouseEvent,
    data: ComponentState,
    types: Seq<ComponentType>,
)
    requires
        mouse.button == MouseButton::Left,
        data.instance.spec_pin_at(mouse.pos(), types).is_none(),
        data.instance.spec_bounding_rect(types).contains(mouse.pos()),
    ensures
        ({
            let after = item.state_after(ctx, Event::MouseDown(mouse), data, types);
            let told = item.ctx_after(ctx, Event::MouseDown(mouse), data, types);
            &&& after.selected
            &&& after.dragging == Some((data.instance.coords, mouse.pos()))
            &&& after.instance == data.instance
            &&& told.commands == if mouse.ctrl {
                ctx.commands
            } else {
                ctx.commands.push(Command::DeselectAll(item.widget_id()))
            }
            &&& told.focus == Some(item.widget_id())
            &&& told.paint_requested
            &&& told.is_handled
        }),
{
}

/// A press of the primary button on a pin starts a wire and nothing else.
/// Whatever the context: the component is as it was; the command to begin a
/// wire from the first pin under the pointer, on that pin's cell, is
/// submitted once, and none to deselect; the event is consumed.
pub proof fn lemma_press_on_pin(
    item: Component,
    ctx: EventCtxView,
    mouse: MouseEvent,
    data: ComponentState,
    types: Seq<ComponentType>,
)
    requires
        mouse.button == MouseButton::Left,
        data.instance.spec_pin_at(mouse.pos(), types).is_some(),
    ensures
        ({
            let pin = data.instance.spec_pin_at(mouse.pos(), types).unwrap();
            let after = item.state_after(ctx, Event::MouseDown(mouse), data, types);
            let told = item.ctx_after(ctx, Event::MouseDown(mouse), data, types);
            &&& after == data
            &&& told.commands == ctx.commands.push(
                Command::BeginWireDraw(
                    WireDraw::FromComponent {
                        id: item.0,
                        pin,
                        loc: data.instance.spec_pin_coords(pin as int, types),
                    },
                ),
            )
            &&& told.is_handled
            &&& told.focus == ctx.focus
            &&& told.paint_requested == ctx.paint_requested
        }),
{
}

} // verus!
