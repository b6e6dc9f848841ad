//! The canvas: the tool, the pointer, the wire being drawn, and the items.
//!
//! The canvas offers every event to every item first, wires before components
//! and each kind in the order of the ids. What no item has consumed it
//! handles itself, by the rules of the tool in hand. A command goes to every
//! item and to the canvas: nothing consumes it.

use crate::component::{
    catalog_is_wf, catalog_wf, Component, ComponentInstance, ComponentState, ComponentType,
    Orientation,
};
use crate::coords::{Coords, CELL_SIZE, HALF_CELL};
use crate::event::{Command, Event, EventCtx, EventCtxView, MouseButton, WidgetId};
use crate::geometry::{Rect, Size};
use crate::paint::{Color, DrawOp, PaintCtx};
use crate::wire::{axis_aligned, painted_segments, Wire, WireSegment, WireState};
use vstd::prelude::*;

verus! {

/// A wire that is being drawn: where it started.
#[derive(Clone, Copy, Debug, PartialEq, Eq, Structural)]
pub enum WireDraw {
    /// From pin number `pin` of the component `id`, which lies on `loc`.
    FromComponent { id: usize, pin: usize, loc: Coords },
    /// From the wire `id`, at `loc`.
    FromWire { id: usize, loc: Coords },
}

impl WireDraw {
    pub open spec fn spec_start_point(&self) -> Coords {
        match self {
            WireDraw::FromComponent { loc, .. } => *loc,
            WireDraw::FromWire { loc, .. } => *loc,
        }
    }

    /// The cell the wire starts on.
    #[verifier::when_used_as_spec(spec_start_point)]
    pub fn start_point(&self) -> (loc: Coords)
        ensures
            loc == self.spec_start_point(),
    {
        match self {
            WireDraw::FromComponent { loc, .. } | WireDraw::FromWire { loc, .. } => *loc,
        }
    }
}

/// The distance between two columns or two rows.
pub open spec fn distance(a: int, b: int) -> int {
    if a >= b {
        a - b
    } else {
        b - a
    }
}

pub open spec fn spec_snap_to_axis(start: Coords, pointer: Coords) -> Coords {
    if distance(pointer.x as int, start.x as int) > distance(pointer.y as int, start.y as int) {
        Coords { x: pointer.x, y: start.y }
    } else {
        Coords { x: start.x, y: pointer.y }
    }
}

/// The end of a wire drawn from `start` while the pointer is on `pointer`.
///
/// The wire runs along the axis on which the pointer is further from the
/// start: in the row of `start` when the pointer is further away in columns
/// than in rows, else in the column of `start`. So the end always forms a
/// segment with `start`.
#[verifier::when_used_as_spec(spec_snap_to_axis)]
pub fn snap_to_axis(start: Coords, pointer: Coords) -> (end: Coords)
    ensures
        end == spec_snap_to_axis(start, pointer),
        axis_aligned(start, end),
{
    let across: i128 = if pointer.x >= start.x {
        pointer.x as i128 - start.x as i128
    } else {
        start.x as i128 - pointer.x as i128
    };
    let along: i128 = if pointer.y >= start.y {
        pointer.y as i128 - start.y as i128
    } else {
        start.y as i128 - pointer.y as i128
    };
    if across > along {
        Coords { x: pointer.x, y: start.y }
    } else {
        Coords { x: start.x, y: pointer.y }
    }
}

/// Wherever a wire starts and wherever the pointer is, a segment exists from
/// the start to the snapped end.
pub proof fn lemma_snap_forms_segment(start: Coords, pointer: Coords)
    ensures
        axis_aligned(start, snap_to_axis(start, pointer)),
        WireSegment::between(start, snap_to_axis(start, pointer)).start() == start,
        WireSegment::between(start, snap_to_axis(start, pointer)).end() == snap_to_axis(start, pointer),
{
    WireSegment::lemma_between(start, snap_to_axis(start, pointer));
}

/// What a click does.
#[derive(Clone, Copy, Debug, PartialEq, Eq, Structural)]
pub enum Tool {
    /// Select, drag, and start wires.
    Hand,
    /// Place components of a kind, given as an index into the catalog, that
    /// face a given way.
    Place(usize, Orientation),
}

pub open spec fn spec_digit_index(key: char) -> Option<usize> {
    if '1' <= key && key <= '9' {
        Some((key as u32 - '1' as u32) as usize)
    } else {
        None
    }
}

/// The catalog index that a digit key stands for: `1` for the first entry, up
/// to `9` for the ninth. No other key stands for one.
#[verifier::when_used_as_spec(spec_digit_index)]
pub fn digit_index(key: char) -> (index: Option<usize>)
    ensures
        index == spec_digit_index(key),
        index matches Some(i) ==> i < 9,
{
    if '1' <= key && key <= '9' {
        Some((key as u32 - '1' as u32) as usize)
    } else {
        None
    }
}

impl Tool {
    /// The tool after a key: the space bar takes the hand; a digit takes the
    /// placing of the catalog entry it stands for, facing `last_orientation`,
    /// if the catalog of `count` entries has it; `w`, `a`, `s` and `d` turn
    /// what is being placed. Any other key leaves the tool.
    pub open spec fn after_key(self, key: char, last_orientation: Orientation, count: nat) -> Tool {
        if key == ' ' {
            Tool::Hand
        } else if let Some(index) = digit_index(key) {
            if index < count {
                Tool::Place(index, last_orientation)
            } else {
                self
            }
        } else {
            match (self, Orientation::from_key(key)) {
                (Tool::Place(ty, _), Some(orientation)) => Tool::Place(ty, orientation),
                _ => self,
            }
        }
    }

    /// The tool places nothing that the catalog of `count` entries lacks.
    pub open spec fn wf(self, count: nat) -> bool {
        self matches Tool::Place(ty, _) ==> ty < count
    }
}

/// What the canvas holds besides its items: the tool, the cell the pointer
/// was last seen on, the orientation last chosen, and the wire being drawn.
/// The states of the items stand in the order of the canvas's items.
#[derive(Debug)]
pub struct CanvasState {
    pub wires: Vec<WireState>,
    pub components: Vec<ComponentState>,
    pub tool: Tool,
    pub mouse_pos: Option<Coords>,
    pub last_orientation: Orientation,
    pub drawing: Option<WireDraw>,
}

/// The canvas itself: the catalog, the items by their ids, and the id that
/// the next item gets.
#[derive(Debug)]
pub struct Canvas {
    pub component_types: Vec<ComponentType>,
    pub wires: Vec<Wire>,
    pub components: Vec<Component>,
    pub next_item_id: usize,
}

/// A canvas and its state as one value.
pub struct CanvasModel {
    /// The wires, in the order of their ids.
    pub wire_ids: Seq<Wire>,
    /// The segments of each wire.
    pub wires: Seq<Seq<WireSegment>>,
    /// The components, in the order of their ids.
    pub component_ids: Seq<Component>,
    /// The state of each component.
    pub components: Seq<ComponentState>,
    pub tool: Tool,
    pub mouse_pos: Option<Coords>,
    pub last_orientation: Orientation,
    pub drawing: Option<WireDraw>,
    pub next_item_id: usize,
}

/// The segments of each of `wires`.
pub open spec fn segments_of(wires: Seq<WireState>) -> Seq<Seq<WireSegment>> {
    Seq::new(wires.len(), |i: int| wires[i].segments@)
}

/// The context after the first `n` of the components `ids`, whose states are
/// `states`, have handled `event` in turn, starting from `ctx`.
pub open spec fn ctx_through(
    ids: Seq<Component>,
    states: Seq<ComponentState>,
    ctx: EventCtxView,
    event: Event,
    types: Seq<ComponentType>,
    n: int,
) -> EventCtxView
    decreases n,
{
    if n <= 0 {
        ctx
    } else {
        ids[n - 1].ctx_after(
            ctx_through(ids, states, ctx, event, types, n - 1),
            event,
            states[n - 1],
            types,
        )
    }
}

impl CanvasModel {
    /// The canvas before anything has happened: no items, the hand as tool,
    /// north as orientation, and the first id free.
    pub open spec fn empty() -> CanvasModel {
        CanvasModel {
            wire_ids: Seq::empty(),
            wires: Seq::empty(),
            component_ids: Seq::empty(),
            components: Seq::empty(),
            tool: Tool::Hand,
            mouse_pos: None,
            last_orientation: Orientation::North,
            drawing: None,
            next_item_id: 0,
        }
    }

    /// Every item has its state; the ids of each kind ascend; every id is
    /// below the next free one, and no wire has the id of a component; every
    /// component is well-formed and every wire has a segment; the tool places
    /// an entry of the catalog.
    pub open spec fn wf(self, types: Seq<ComponentType>) -> bool {
        &&& catalog_wf(types)
        &&& self.wire_ids.len() == self.wires.len()
        &&& self.component_ids.len() == self.components.len()
        &&& forall|i: int, j: int|
            0 <= i < j < self.wire_ids.len() ==> (#[trigger] self.wire_ids[i]).0 < (
            #[trigger] self.wire_ids[j]).0
        &&& forall|i: int, j: int|
            0 <= i < j < self.component_ids.len() ==> (#[trigger] self.component_ids[i]).0 < (
            #[trigger] self.component_ids[j]).0
        &&& forall|i: int|
            0 <= i < self.wire_ids.len() ==> (#[trigger] self.wire_ids[i]).0 < self.next_item_id
        &&& forall|i: int|
            0 <= i < self.component_ids.len() ==> (#[trigger] self.component_ids[i]).0
                < self.next_item_id
        &&& forall|i: int, j: int|
            0 <= i < self.wire_ids.len() && 0 <= j < self.component_ids.len() ==> (
            #[trigger] self.wire_ids[i]).0 != (#[trigger] self.component_ids[j]).0
        &&& forall|i: int|
            0 <= i < self.components.len() ==> (#[trigger] self.components[i]).wf(types)
        &&& forall|i: int| 0 <= i < self.wires.len() ==> (#[trigger] self.wires[i]).len() > 0
        &&& self.tool.wf(types.len())
    }

    /// The context after every component has handled `event`.
    pub open spec fn children_ctx(self, ctx: EventCtxView, event: Event, types: Seq<ComponentType>) -> EventCtxView {
        ctx_through(self.component_ids, self.components, ctx, event, types, self.components.len() as int)
    }

    /// The canvas after every item has handled `event`: each component as it
    /// is after the event, given the context that the components before it
    /// have left. Wires act on no event.
    pub open spec fn after_children(self, ctx: EventCtxView, event: Event, types: Seq<ComponentType>) -> CanvasModel {
        CanvasModel {
            components: Seq::new(
                self.components.len(),
                |i: int|
                    self.component_ids[i].state_after(
                        ctx_through(self.component_ids, self.components, ctx, event, types, i),
                        event,
                        self.components[i],
                        types,
                    ),
            ),
            ..self
        }
    }

    /// The canvas with one more component, on `cell`, under the next free id.
    pub open spec fn with_component(self, cell: Coords, ty: usize, orientation: Orientation) -> CanvasModel {
        CanvasModel {
            component_ids: self.component_ids.push(Component(self.next_item_id)),
            components: self.components.push(
                ComponentState {
                    instance: ComponentInstance { coords: cell, ty, orientation },
                    selected: false,
                    dragging: None,
                },
            ),
            next_item_id: (self.next_item_id + 1) as usize,
            ..self
        }
    }

    /// The canvas with one more wire, a single segment from `start` to `end`,
    /// under the next free id.
    pub open spec fn with_wire(self, start: Coords, end: Coords) -> CanvasModel {
        CanvasModel {
            wire_ids: self.wire_ids.push(Wire(self.next_item_id)),
            wires: self.wires.push(seq![WireSegment::between(start, end)]),
            next_item_id: (self.next_item_id + 1) as usize,
            ..self
        }
    }

    /// The canvas after the wire being drawn is let go: if the pointer's cell
    /// is known, there is a new wire from the start to the snapped end; in
    /// any case nothing is being drawn any more.
    pub open spec fn wire_finished(self) -> CanvasModel {
        let done = CanvasModel { drawing: None, ..self };
        match (self.drawing, self.mouse_pos) {
            (Some(draw), Some(pointer)) => done.with_wire(
                draw.start_point(),
                snap_to_axis(draw.start_point(), pointer),
            ),
            _ => done,
        }
    }

    /// The canvas after it has itself handled `event`, which no item has
    /// consumed, with a catalog of `count` entries.
    ///
    /// - A key changes the tool as `Tool::after_key` says. While a component
    ///   is being placed, `w`, `a`, `s` and `d` also become the orientation
    ///   last chosen.
    /// - The pointer moves: its cell is remembered.
    /// - The primary button goes down while a component is being placed: the
    ///   component is put on the pointer's cell.
    /// - The primary button goes up while the hand is the tool: a wire being
    ///   drawn is finished.
    /// - The command to start a wire: that wire is being drawn.
    pub open spec fn tool_step(self, event: Event, count: nat) -> CanvasModel {
        match event {
            Event::KeyDown(key) => CanvasModel {
                tool: self.tool.after_key(key, self.last_orientation, count),
                last_orientation: match (self.tool, Orientation::from_key(key)) {
                    (Tool::Place(_, _), Some(orientation)) => orientation,
                    _ => self.last_orientation,
                },
                ..self
            },
            Event::MouseMove(mouse) => CanvasModel {
                mouse_pos: Some(Coords::from_canvas_space(mouse.pos())),
                ..self
            },
            Event::MouseDown(mouse) => match self.tool {
                Tool::Place(ty, orientation) if mouse.button == MouseButton::Left => self.with_component(
                    Coords::from_canvas_space(mouse.pos()),
                    ty,
                    orientation,
                ),
                _ => self,
            },
            Event::MouseUp(mouse) => match self.tool {
                Tool::Hand if mouse.button == MouseButton::Left => self.wire_finished(),
                _ => self,
            },
            Event::Command(Command::BeginWireDraw(draw)) => CanvasModel { drawing: Some(draw), ..self },
            _ => self,
        }
    }

    /// The context after the canvas has itself handled `event`, which no item
    /// has consumed.
    ///
    /// - The window is there: the canvas takes the input focus.
    /// - A key changes the tool: a repaint is asked for.
    /// - The pointer moves with the hand as tool: a repaint is asked for if
    ///   the pointer has come to another cell while a wire is being drawn.
    /// - The pointer moves while a component is being placed: a repaint is
    ///   asked for.
    /// - The primary button goes down with the hand as tool: the canvas
    ///   submits the command that deselects every item.
    /// - The primary button goes down while a component is being placed: the
    ///   set of items has changed and a repaint is asked for.
    /// - The primary button goes up and a wire comes of it: the set of items
    ///   has changed.
    pub open spec fn tool_ctx(self, ctx: EventCtxView, event: Event, count: nat) -> EventCtxView {
        match event {
            Event::WindowConnected => ctx.request_focus(WidgetId::Canvas),
            Event::KeyDown(key) => {
                if self.tool.after_key(key, self.last_orientation, count) != self.tool {
                    ctx.request_paint()
                } else {
                    ctx
                }
            },
            Event::MouseMove(mouse) => match self.tool {
                Tool::Hand => {
                    if self.mouse_pos != Some(Coords::from_canvas_space(mouse.pos()))
                        && self.drawing.is_some() {
                        ctx.request_paint()
                    } else {
                        ctx
                    }
                },
                Tool::Place(_, _) => ctx.request_paint(),
            },
            Event::MouseDown(mouse) => {
                if mouse.button != MouseButton::Left {
                    ctx
                } else {
                    match self.tool {
                        Tool::Hand => ctx.submit_command(Command::DeselectAll(WidgetId::Canvas)),
                        Tool::Place(_, _) => ctx.children_changed().request_paint(),
                    }
                }
            },
            Event::MouseUp(mouse) => match self.tool {
                Tool::Hand if mouse.button == MouseButton::Left && self.drawing.is_some()
                    && self.mouse_pos.is_some() => ctx.children_changed(),
                _ => ctx,
            },
            _ => ctx,
        }
    }

    /// Whether the canvas itself leaves `event` alone, given the context that
    /// the items have left: it does so when the event is consumed, unless the
    /// event is a command, which nothing consumes.
    pub open spec fn passes_over(ctx: EventCtxView, event: Event) -> bool {
        ctx.is_handled && !(event is Command)
    }

    /// The canvas after `event`: the items handle it first, and the canvas
    /// handles it after them unless one of them has consumed it.
    pub open spec fn after(self, ctx: EventCtxView, event: Event, types: Seq<ComponentType>) -> CanvasModel {
        let offered = self.after_children(ctx, event, types);
        if Self::passes_over(self.children_ctx(ctx, event, types), event) {
            offered
        } else {
            offered.tool_step(event, types.len())
        }
    }

    /// The context after `event`.
    pub open spec fn ctx_after(self, ctx: EventCtxView, event: Event, types: Seq<ComponentType>) -> EventCtxView {
        let offered = self.children_ctx(ctx, event, types);
        if Self::passes_over(offered, event) {
            offered
        } else {
            self.after_children(ctx, event, types).tool_ctx(offered, event, types.len())
        }
    }
}

/// The dot on the centre of the cell in column `x` and row `y`: a square of
/// two pixels.
pub open spec fn grid_dot(x: int, y: int) -> Rect {
    Rect {
        x0: (CELL_SIZE * x + HALF_CELL - 1) as i128,
        y0: (CELL_SIZE * y + HALF_CELL - 1) as i128,
        x1: (CELL_SIZE * x + HALF_CELL + 1) as i128,
        y1: (CELL_SIZE * y + HALF_CELL + 1) as i128,
    }
}

/// The dots of the first `rows` cells of column `x`, from the top, in gray.
pub open spec fn dots_of_column(x: int, rows: int) -> Seq<DrawOp> {
    Seq::new(rows as nat, |y: int| DrawOp::Fill { rect: grid_dot(x, y), color: Color::Gray })
}

/// The dots of the first `columns` columns, from the left, each of `rows`
/// cells.
pub open spec fn dots_of_columns(columns: int, rows: int) -> Seq<DrawOp>
    decreases columns,
{
    if columns <= 0 {
        Seq::empty()
    } else {
        dots_of_columns(columns - 1, rows) + dots_of_column(columns - 1, rows)
    }
}

/// The grid: a dot on the centre of every cell that lies wholly in a visible
/// area of extent `size`, column by column.
pub open spec fn grid_dots(size: Size) -> Seq<DrawOp> {
    dots_of_columns(size.width as int / (CELL_SIZE as int), size.height as int / (CELL_SIZE as int))
}

/// What painting these wires records: what each wire records, in order.
pub open spec fn painted_wires(wires: Seq<Seq<WireSegment>>) -> Seq<DrawOp>
    decreases wires.len(),
{
    if wires.len() == 0 {
        Seq::empty()
    } else {
        painted_wires(wires.drop_last()) + painted_segments(wires.last())
    }
}

/// What painting these components records: what each component records, in
/// order.
pub open spec fn painted_components(states: Seq<ComponentState>, types: Seq<ComponentType>) -> Seq<DrawOp>
    decreases states.len(),
{
    if states.len() == 0 {
        Seq::empty()
    } else {
        painted_components(states.drop_last(), types) + Component::painted(states.last(), types)
    }
}

impl CanvasModel {
    /// The component that would be placed by a click: shown on the pointer's
    /// cell while a component is being placed and that cell is known.
    pub open spec fn painted_ghost(self, types: Seq<ComponentType>) -> Seq<DrawOp> {
        match (self.tool, self.mouse_pos) {
            (Tool::Place(ty, orientation), Some(cell)) => {
                let ghost_instance = ComponentInstance { coords: cell, ty, orientation };
                ghost_instance.painted(ghost_instance.pin_count(types) as int, types)
            },
            _ => Seq::empty(),
        }
    }

    /// The wire being drawn, from its start to the snapped end: shown while a
    /// wire is being drawn and the pointer's cell is known.
    pub open spec fn painted_drawing(self) -> Seq<DrawOp> {
        match (self.drawing, self.mouse_pos) {
            (Some(draw), Some(pointer)) => WireSegment::between(
                draw.start_point(),
                snap_to_axis(draw.start_point(), pointer),
            ).painted(),
            _ => Seq::empty(),
        }
    }

    /// What a paint pass records, from back to front: the grid, the component
    /// that would be placed, the wire being drawn, the wires, the components.
    pub open spec fn painted(self, size: Size, types: Seq<ComponentType>) -> Seq<DrawOp> {
        grid_dots(size) + self.painted_ghost(types) + self.painted_drawing() + painted_wires(
            self.wires,
        ) + painted_components(self.components, types)
    }

    /// The canvas after the first `n` of `commands` have been delivered, one
    /// after the other, each as an event of its own; and the context after
    /// them.
    pub open spec fn delivered(
        self,
        ctx: EventCtxView,
        commands: Seq<Command>,
        types: Seq<ComponentType>,
        n: int,
    ) -> (CanvasModel, EventCtxView)
        decreases n,
    {
        if n <= 0 {
            (self, ctx)
        } else {
            let (canvas, before) = self.delivered(ctx, commands, types, n - 1);
            let event = Event::Command(commands[n - 1]);
            (canvas.after(before, event, types), canvas.ctx_after(before, event, types))
        }
    }

    /// The canvas after `event` and after the commands that were pending or
    /// that its handlers have submitted; and the context after them. A
    /// command is not consumed, so the context still says of `event` itself
    /// whether it was.
    pub open spec fn dispatched(self, ctx: EventCtxView, event: Event, types: Seq<ComponentType>) -> (
        CanvasModel,
        EventCtxView,
    ) {
        let handled = self.ctx_after(ctx, event, types);
        let emptied = EventCtxView { commands: Seq::empty(), ..handled };
        self.after(ctx, event, types).delivered(
            emptied,
            handled.commands,
            types,
            handled.commands.len() as int,
        )
    }
}

/// Whether handling `event` may take an id: only a button of the pointer adds
/// an item.
pub open spec fn may_add_item(event: Event) -> bool {
    event is MouseDown || event is MouseUp
}

impl CanvasState {
    /// The state of an empty canvas.
    pub fn new() -> (state: Self)
        ensures
            state.wires@.len() == 0,
            state.components@.len() == 0,
            state.tool == Tool::Hand,
            state.mouse_pos.is_none(),
            state.last_orientation == Orientation::North,
            state.drawing.is_none(),
            forall|canvas: Canvas|
                canvas.wires@.len() == 0 && canvas.components@.len() == 0 && canvas.next_item_id
                    == 0 ==> #[trigger] canvas.model(state) == CanvasModel::empty(),
    {
        let state = CanvasState {
            wires: Vec::new(),
            components: Vec::new(),
            tool: Tool::Hand,
            mouse_pos: None,
            last_orientation: Orientation::North,
            drawing: None,
        };
        assert forall|canvas: Canvas|
            canvas.wires@.len() == 0 && canvas.components@.len() == 0 && canvas.next_item_id
                == 0 implies #[trigger] canvas.model(state) == CanvasModel::empty() by {
            let model = canvas.model(state);
            assert(model.wire_ids =~= Seq::empty());
            assert(model.wires =~= Seq::empty());
            assert(model.component_ids =~= Seq::empty());
            assert(model.components =~= Seq::empty());
        }
        state
    }
}

impl Canvas {
    /// An empty canvas with the catalog `component_types`.
    pub fn new(component_types: Vec<ComponentType>) -> (canvas: Self)
        ensures
            canvas.component_types@ == component_types@,
            canvas.wires@.len() == 0,
            canvas.components@.len() == 0,
            canvas.next_item_id == 0,
            forall|data: CanvasState| #[trigger]
                canvas.model(data) == CanvasModel::empty() ==> (canvas.wf(data) <==> catalog_wf(
                    component_types@,
                )),
    {
        Canvas { component_types, wires: Vec::new(), components: Vec::new(), next_item_id: 0 }
    }

    /// The canvas and its state `data` as one value.
    pub open spec fn model(&self, data: CanvasState) -> CanvasModel {
        CanvasModel {
            wire_ids: self.wires@,
            wires: segments_of(data.wires@),
            component_ids: self.components@,
            components: data.components@,
            tool: data.tool,
            mouse_pos: data.mouse_pos,
            last_orientation: data.last_orientation,
            drawing: data.drawing,
            next_item_id: self.next_item_id,
        }
    }

    /// The canvas and `data` belong together and are well-formed.
    pub open spec fn wf(&self, data: CanvasState) -> bool {
        self.model(data).wf(self.component_types@)
    }

    /// Whether the ids `ids` ascend and are all below `limit`.
    fn ids_ascend_below(ids: &Vec<usize>, limit: usize) -> (ok: bool)
        ensures
            ok == ((forall|i: int, j: int| 0 <= i < j < ids@.len() ==> ids@[i] < ids@[j]) && (
            forall|i: int| 0 <= i < ids@.len() ==> ids@[i] < limit)),
    {
        let mut i: usize = 0;
        while i < ids.len()
            invariant
                0 <= i <= ids@.len(),
                forall|a: int, b: int| 0 <= a < b < i ==> ids@[a] < ids@[b],
                forall|a: int| 0 <= a < i ==> ids@[a] < limit,
            decreases ids@.len() - i,
        {
            if ids[i] >= limit {
                return false;
            }
            if i > 0 && ids[i - 1] >= ids[i] {
                return false;
            }
            i += 1;
        }
        true
    }

    /// Whether none of `first` is one of `second`.
    fn ids_apart(first: &Vec<usize>, second: &Vec<usize>) -> (ok: bool)
        ensures
            ok == (forall|i: int, j: int|
                0 <= i < first@.len() && 0 <= j < second@.len() ==> first@[i] != second@[j]),
    {
        let mut i: usize = 0;
        while i < first.len()
            invariant
                0 <= i <= first@.len(),
                forall|a: int, b: int|
                    0 <= a < i && 0 <= b < second@.len() ==> first@[a] != second@[b],
            decreases first@.len() - i,
        {
            let mut j: usize = 0;
            while j < second.len()
                invariant
                    0 <= i < first@.len(),
                    0 <= j <= second@.len(),
                    forall|b: int| 0 <= b < j ==> first@[i as int] != second@[b],
                decreases second@.len() - j,
            {
                if first[i] == second[j] {
                    return false;
                }
                j += 1;
            }
            i += 1;
        }
        true
    }

    /// The ids of the wires, in order.
    fn wire_id_list(&self) -> (ids: Vec<usize>)
        ensures
            ids@.len() == self.wires@.len(),
            forall|i: int| 0 <= i < ids@.len() ==> ids@[i] == (#[trigger] self.wires@[i]).0,
    {
        let mut ids: Vec<usize> = Vec::new();
        let mut i: usize = 0;
        while i < self.wires.len()
            invariant
                0 <= i <= self.wires@.len(),
                ids@.len() == i,
                forall|a: int| 0 <= a < i ==> ids@[a] == (#[trigger] self.wires@[a]).0,
            decreases self.wires@.len() - i,
        {
            ids.push(self.wires[i].0);
            i += 1;
        }
        ids
    }

    /// The ids of the components, in order.
    fn component_id_list(&self) -> (ids: Vec<usize>)
        ensures
            ids@.len() == self.components@.len(),
            forall|i: int| 0 <= i < ids@.len() ==> ids@[i] == (#[trigger] self.components@[i]).0,
    {
        let mut ids: Vec<usize> = Vec::new();
        let mut i: usize = 0;
        while i < self.components.len()
            invariant
                0 <= i <= self.components@.len(),
                ids@.len() == i,
                forall|a: int| 0 <= a < i ==> ids@[a] == (#[trigger] self.components@[a]).0,
            decreases self.components@.len() - i,
        {
            ids.push(self.components[i].0);
            i += 1;
        }
        ids
    }

    /// Whether every component of `data` is well-formed and every wire has a
    /// segment.
    fn items_are_wf(&self, data: &CanvasState) -> (ok: bool)
        ensures
            ok == ((forall|i: int|
                0 <= i < data.components@.len() ==> (#[trigger] data.components@[i]).wf(
                    self.component_types@,
                )) && (forall|i: int|
                0 <= i < data.wires@.len() ==> (#[trigger] data.wires@[i]).segments@.len() > 0)),
    {
        let mut i: usize = 0;
        while i < data.components.len()
            invariant
                0 <= i <= data.components@.len(),
                forall|a: int|
                    0 <= a < i ==> (#[trigger] data.components@[a]).wf(self.component_types@),
            decreases data.components@.len() - i,
        {
            if !data.components[i].is_wf(&self.component_types) {
                return false;
            }
            i += 1;
        }
        let mut j: usize = 0;
        while j < data.wires.len()
            invariant
                0 <= j <= data.wires@.len(),
                forall|a: int|
                    0 <= a < data.components@.len() ==> (#[trigger] data.components@[a]).wf(
                        self.component_types@,
                    ),
                forall|a: int| 0 <= a < j ==> (#[trigger] data.wires@[a]).segments@.len() > 0,
            decreases data.wires@.len() - j,
        {
            if data.wires[j].segments.len() == 0 {
                return false;
            }
            j += 1;
        }
        true
    }

    /// Whether the canvas and `data` belong together and are well-formed.
    pub fn is_wf(&self, data: &CanvasState) -> (ok: bool)
        ensures
            ok == self.wf(*data),
    {
        let ghost model = self.model(*data);
        if !catalog_is_wf(&self.component_types) {
            return false;
        }
        if self.wires.len() != data.wires.len() || self.components.len() != data.components.len() {
            return false;
        }
        let wire_ids = self.wire_id_list();
        let component_ids = self.component_id_list();
        if !Self::ids_ascend_below(&wire_ids, self.next_item_id) {
            assert(!model.wf(self.component_types@)) by {
                if model.wf(self.component_types@) {
                    assert forall|i: int, j: int| 0 <= i < j < wire_ids@.len() implies wire_ids@[i]
                        < wire_ids@[j] by {
                        assert(model.wire_ids[i].0 < model.wire_ids[j].0);
                    }
                    assert forall|i: int| 0 <= i < wire_ids@.len() implies wire_ids@[i]
                        < self.next_item_id by {
                        assert(model.wire_ids[i].0 < model.next_item_id);
                    }
                }
            }
            return false;
        }
        if !Self::ids_ascend_below(&component_ids, self.next_item_id) {
            assert(!model.wf(self.component_types@)) by {
                if model.wf(self.component_types@) {
                    assert forall|i: int, j: int|
                        0 <= i < j < component_ids@.len() implies component_ids@[i]
                        < component_ids@[j] by {
                        assert(model.component_ids[i].0 < model.component_ids[j].0);
                    }
                    assert forall|i: int| 0 <= i < component_ids@.len() implies component_ids@[i]
                        < self.next_item_id by {
                        assert(model.component_ids[i].0 < model.next_item_id);
                    }
                }
            }
            return false;
        }
        if !Self::ids_apart(&wire_ids, &component_ids) {
            assert(!model.wf(self.component_types@)) by {
                if model.wf(self.component_types@) {
                    assert forall|i: int, j: int|
                        0 <= i < wire_ids@.len() && 0 <= j < component_ids@.len() implies wire_ids@[i]
                        != component_ids@[j] by {
                        assert(model.wire_ids[i].0 != model.component_ids[j].0);
                    }
                }
            }
            return false;
        }
        if !self.items_are_wf(data) {
            assert(!model.wf(self.component_types@)) by {
                if model.wf(self.component_types@) {
                    assert forall|i: int| 0 <= i < data.wires@.len() implies (
                    #[trigger] data.wires@[i]).segments@.len() > 0 by {
                        assert(model.wires[i].len() > 0);
                    }
                }
            }
            return false;
        }
        let tool_ok = match data.tool {
            Tool::Hand => true,
            Tool::Place(ty, _) => ty < self.component_types.len(),
        };
        proof {
            if tool_ok {
                assert forall|i: int, j: int| 0 <= i < j < model.wire_ids.len() implies (
                #[trigger] model.wire_ids[i]).0 < (#[trigger] model.wire_ids[j]).0 by {
                    assert(wire_ids@[i] < wire_ids@[j]);
                }
                assert forall|i: int, j: int| 0 <= i < j < model.component_ids.len() implies (
                #[trigger] model.component_ids[i]).0 < (#[trigger] model.component_ids[j]).0 by {
                    assert(component_ids@[i] < component_ids@[j]);
                }
                assert forall|i: int| 0 <= i < model.wire_ids.len() implies (
                #[trigger] model.wire_ids[i]).0 < model.next_item_id by {
                    assert(wire_ids@[i] < self.next_item_id);
                }
                assert forall|i: int| 0 <= i < model.component_ids.len() implies (
                #[trigger] model.component_ids[i]).0 < model.next_item_id by {
                    assert(component_ids@[i] < self.next_item_id);
                }
                assert forall|i: int, j: int|
                    0 <= i < model.wire_ids.len() && 0 <= j < model.component_ids.len() implies (
                #[trigger] model.wire_ids[i]).0 != (#[trigger] model.component_ids[j]).0 by {
                    assert(wire_ids@[i] != component_ids@[j]);
                }
                assert forall|i: int| 0 <= i < model.wires.len() implies (
                #[trigger] model.wires[i]).len() > 0 by {
                    assert(data.wires@[i].segments@.len() > 0);
                }
            }
        }
        tool_ok
    }

    /// Offers `event` to every wire. A wire acts on no event.
    fn offer_to_wires(&self, ctx: &mut EventCtx, event: &Event, data: &mut CanvasState)
        requires
            self.wires@.len() == old(data).wires@.len(),
        ensures
            final(ctx)@ == old(ctx)@,
            self.model(*final(data)) == self.model(*old(data)),
    {
        let mut i: usize = 0;
        while i < self.wires.len()
            invariant
                self.wires@.len() == data.wires@.len(),
                0 <= i <= self.wires@.len(),
                ctx@ == old(ctx)@,
                segments_of(data.wires@) == segments_of(old(data).wires@),
                data.components == old(data).components,
                data.tool == old(data).tool,
                data.mouse_pos == old(data).mouse_pos,
                data.last_orientation == old(data).last_orientation,
                data.drawing == old(data).drawing,
            decreases self.wires@.len() - i,
        {
            let wire = self.wires[i];
            let ghost before = data.wires@;
            wire.event(ctx, event, &mut data.wires[i]);
            assert(segments_of(data.wires@) =~= segments_of(before));
            i += 1;
        }
    }

    /// Offers `event` to every component, in the order of the ids.
    fn offer_to_components(&self, ctx: &mut EventCtx, event: &Event, data: &mut CanvasState)
        requires
            self.wf(*old(data)),
        ensures
            final(ctx)@ == self.model(*old(data)).children_ctx(
                old(ctx)@,
                *event,
                self.component_types@,
            ),
            self.model(*final(data)) == self.model(*old(data)).after_children(
                old(ctx)@,
                *event,
                self.component_types@,
            ),
            self.wf(*final(data)),
    {
        let ghost types = self.component_types@;
        let ghost before = self.model(*old(data));
        let mut i: usize = 0;
        while i < self.components.len()
            invariant
                types == self.component_types@,
                before == self.model(*old(data)),
                self.wf(*old(data)),
                0 <= i <= self.components@.len(),
                data.components@.len() == self.components@.len(),
                ctx@ == ctx_through(self.components@, before.components, old(ctx)@, *event, types, i as int),
                forall|j: int|
                    0 <= j < i ==> #[trigger] data.components@[j] == self.components@[j].state_after(
                        ctx_through(self.components@, before.components, old(ctx)@, *event, types, j),
                        *event,
                        before.components[j],
                        types,
                    ),
                forall|j: int|
                    i <= j < data.components@.len() ==> #[trigger] data.components@[j]
                        == before.components[j],
                forall|j: int|
                    0 <= j < data.components@.len() ==> (#[trigger] data.components@[j]).wf(types),
                data.wires == old(data).wires,
                data.tool == old(data).tool,
                data.mouse_pos == old(data).mouse_pos,
                data.last_orientation == old(data).last_orientation,
                data.drawing == old(data).drawing,
            decreases self.components@.len() - i,
        {
            let item = self.components[i];
            item.event(ctx, event, &mut data.components[i], &self.component_types);
            i += 1;
        }
        assert(self.model(*data).components =~= before.after_children(
            old(ctx)@,
            *event,
            types,
        ).components);
    }

    /// Handles `event`: offers it to every item, wires before components and
    /// each kind in the order of the ids, and then, unless an item has
    /// consumed it, handles it by the rules of the tool. A command is handled
    /// whether or not the context says that the event is consumed.
    ///
    /// An event that may add an item needs a free id.
    pub fn event(&mut self, ctx: &mut EventCtx, event: &Event, data: &mut CanvasState)
        requires
            old(self).wf(*old(data)),
            may_add_item(*event) ==> old(self).next_item_id < usize::MAX,
        ensures
            final(self).component_types@ == old(self).component_types@,
            final(self).model(*final(data)) == old(self).model(*old(data)).after(
                old(ctx)@,
                *event,
                old(self).component_types@,
            ),
            final(ctx)@ == old(self).model(*old(data)).ctx_after(
                old(ctx)@,
                *event,
                old(self).component_types@,
            ),
            final(self).wf(*final(data)),
    {
        let ghost types = self.component_types@;
        let ghost before = self.model(*data);
        self.offer_to_wires(ctx, event, data);
        self.offer_to_components(ctx, event, data);
        let is_command = match event {
            Event::Command(_) => true,
            _ => false,
        };
        if ctx.is_handled() && !is_command {
            return ;
        }
        let ghost offered = self.model(*data);
        let ghost offered_ctx = ctx@;
        let count = self.component_types.len();
        match event {
            Event::WindowConnected => {
                ctx.request_focus(WidgetId::Canvas);
            },
            Event::KeyDown(key) => {
                let tool = data.tool;
                let mut new_tool = tool;
                if *key == ' ' {
                    new_tool = Tool::Hand;
                } else if let Some(index) = digit_index(*key) {
                    if index < count {
                        new_tool = Tool::Place(index, data.last_orientation);
                    }
                } else if let Tool::Place(ty, _) = tool {
                    if let Some(orientation) = Orientation::from_key(*key) {
                        new_tool = Tool::Place(ty, orientation);
                        data.last_orientation = orientation;
                    }
                }
                if new_tool != tool {
                    data.tool = new_tool;
                    ctx.request_paint();
                }
            },
            Event::MouseMove(mouse) => {
                let cell = Coords::from_canvas_space(mouse.pos());
                match data.tool {
                    Tool::Hand => {
                        let moved = match data.mouse_pos {
                            Some(seen) => seen != cell,
                            None => true,
                        };
                        if moved {
                            data.mouse_pos = Some(cell);
                            if data.drawing.is_some() {
                                ctx.request_paint();
                            }
                        }
                    },
                    Tool::Place(_, _) => {
                        data.mouse_pos = Some(cell);
                        ctx.request_paint();
                    },
                }
            },
            Event::MouseDown(mouse) => {
                if mouse.button == MouseButton::Left {
                    match data.tool {
                        Tool::Hand => {
                            ctx.submit_command(Command::DeselectAll(WidgetId::Canvas));
                        },
                        Tool::Place(ty, orientation) => {
                            let cell = Coords::from_canvas_space(mouse.pos());
                            let id = self.next_item_id;
                            self.next_item_id = id + 1;
                            self.components.push(Component(id));
                            data.components.push(ComponentState::new(cell, ty, orientation));
                            ctx.children_changed();
                            ctx.request_paint();
                            assert(self.model(*data).component_ids =~= offered.with_component(
                                cell,
                                ty,
                                orientation,
                            ).component_ids);
                            assert(self.model(*data).components =~= offered.with_component(
                                cell,
                                ty,
                                orientation,
                            ).components);
                        },
                    }
                }
            },
            Event::MouseUp(mouse) => {
                if mouse.button == MouseButton::Left {
                    if let Tool::Hand = data.tool {
                        if let Some(draw) = data.drawing {
                            if let Some(pointer) = data.mouse_pos {
                                let start = draw.start_point();
                                let end = snap_to_axis(start, pointer);
                                if let Some(segment) = WireSegment::new(start, end) {
                                    let id = self.next_item_id;
                                    self.next_item_id = id + 1;
                                    self.wires.push(Wire(id));
                                    let mut segments: Vec<WireSegment> = Vec::new();
                                    segments.push(segment);
                                    data.wires.push(WireState { segments });
                                    ctx.children_changed();
                                    assert(segments@ =~= seq![WireSegment::between(start, end)]);
                                    assert(self.model(*data).wires =~= offered.wires.push(
                                        seq![WireSegment::between(start, end)],
                                    ));
                                }
                            }
                        }
                        data.drawing = None;
                    }
                }
            },
            Event::Command(Command::BeginWireDraw(draw)) => {
                data.drawing = Some(*draw);
            },
            _ => {},
        }
    }

    /// Handles `event`, and then delivers every command that was pending or
    /// that a handler has submitted, in order, to the canvas and to every
    /// item. When it returns no command is waiting, and the context says of
    /// `event` whether it was consumed.
    pub fn dispatch(&mut self, ctx: &mut EventCtx, event: &Event, data: &mut CanvasState)
        requires
            old(self).wf(*old(data)),
            may_add_item(*event) ==> old(self).next_item_id < usize::MAX,
        ensures
            final(self).component_types@ == old(self).component_types@,
            final(self).model(*final(data)) == old(self).model(*old(data)).dispatched(
                old(ctx)@,
                *event,
                old(self).component_types@,
            ).0,
            final(ctx)@ == old(self).model(*old(data)).dispatched(
                old(ctx)@,
                *event,
                old(self).component_types@,
            ).1,
            final(ctx)@.commands.len() == 0,
            final(ctx)@.is_handled == old(self).model(*old(data)).ctx_after(
                old(ctx)@,
                *event,
                old(self).component_types@,
            ).is_handled,
            final(self).wf(*final(data)),
    {
        let ghost types = self.component_types@;
        self.event(ctx, event, data);
        let ghost first = self.model(*data);
        let ghost first_ctx = ctx@;
        let mut pending: Vec<Command> = Vec::new();
        std::mem::swap(&mut pending, &mut ctx.commands);
        let ghost emptied = ctx@;
        assert(emptied == (EventCtxView { commands: Seq::empty(), ..first_ctx }));
        let mut i: usize = 0;
        while i < pending.len()
            invariant
                0 <= i <= pending@.len(),
                types == self.component_types@,
                self.wf(*data),
                (self.model(*data), ctx@) == first.delivered(emptied, pending@, types, i as int),
                ctx@.commands.len() == 0,
                ctx@.is_handled == first_ctx.is_handled,
            decreases pending@.len() - i,
        {
            let command = pending[i];
            proof {
                lemma_command_submits_nothing(self.model(*data), ctx@, command, types);
            }
            self.event(ctx, &Event::Command(command), data);
            i += 1;
        }
    }

    /// Paints the dots of the grid in a visible area of extent `size`.
    fn paint_grid(ctx: &mut PaintCtx, size: Size)
        ensures
            final(ctx).size == old(ctx).size,
            final(ctx).ops@ == old(ctx).ops@ + grid_dots(size),
    {
        let columns: u32 = size.width / (CELL_SIZE as u32);
        let rows: u32 = size.height / (CELL_SIZE as u32);
        let mut x: u32 = 0;
        while x < columns
            invariant
                0 <= x <= columns,
                ctx.size == old(ctx).size,
                ctx.ops@ == old(ctx).ops@ + dots_of_columns(x as int, rows as int),
            decreases columns - x,
        {
            let ghost before = ctx.ops@;
            let mut y: u32 = 0;
            while y < rows
                invariant
                    0 <= y <= rows,
                    0 <= x < columns,
                    ctx.size == old(ctx).size,
                    ctx.ops@ == before + dots_of_column(x as int, y as int),
                decreases rows - y,
            {
                let left: i128 = CELL_SIZE * (x as i128) + HALF_CELL - 1;
                let top: i128 = CELL_SIZE * (y as i128) + HALF_CELL - 1;
                ctx.fill(Rect { x0: left, y0: top, x1: left + 2, y1: top + 2 }, Color::Gray);
                assert(ctx.ops@ =~= before + dots_of_column(x as int, y + 1));
                y += 1;
            }
            assert(ctx.ops@ =~= old(ctx).ops@ + dots_of_columns(x + 1, rows as int));
            x += 1;
        }
    }

    /// Paints the component that a click would place.
    fn paint_ghost(&self, ctx: &mut PaintCtx, data: &CanvasState)
        requires
            self.wf(*data),
        ensures
            final(ctx).size == old(ctx).size,
            final(ctx).ops@ == old(ctx).ops@ + self.model(*data).painted_ghost(
                self.component_types@,
            ),
    {
        if let Tool::Place(ty, orientation) = data.tool {
            if let Some(cell) = data.mouse_pos {
                let component = ComponentInstance::new(cell, ty, orientation);
                component.paint(ctx, &self.component_types);
            }
        }
        assert(ctx.ops@ =~= old(ctx).ops@ + self.model(*data).painted_ghost(
            self.component_types@,
        ));
    }

    /// Paints the wire being drawn.
    fn paint_drawing(&self, ctx: &mut PaintCtx, data: &CanvasState)
        ensures
            final(ctx).size == old(ctx).size,
            final(ctx).ops@ == old(ctx).ops@ + self.model(*data).painted_drawing(),
    {
        if let Some(draw) = data.drawing {
            if let Some(pointer) = data.mouse_pos {
                let start = draw.start_point();
                if let Some(segment) = WireSegment::new(start, snap_to_axis(start, pointer)) {
                    segment.paint(ctx);
                }
            }
        }
        assert(ctx.ops@ =~= old(ctx).ops@ + self.model(*data).painted_drawing());
    }

    /// Paints every wire, in the order of the ids.
    fn paint_wires(&self, ctx: &mut PaintCtx, data: &CanvasState)
        requires
            self.wires@.len() == data.wires@.len(),
        ensures
            final(ctx).size == old(ctx).size,
            final(ctx).ops@ == old(ctx).ops@ + painted_wires(segments_of(data.wires@)),
    {
        let ghost wires = segments_of(data.wires@);
        let mut i: usize = 0;
        assert(wires.take(0) =~= Seq::empty());
        while i < self.wires.len()
            invariant
                self.wires@.len() == data.wires@.len(),
                wires == segments_of(data.wires@),
                0 <= i <= self.wires@.len(),
                ctx.size == old(ctx).size,
                ctx.ops@ == old(ctx).ops@ + painted_wires(wires.take(i as int)),
            decreases self.wires@.len() - i,
        {
            let wire = self.wires[i];
            wire.paint(ctx, &data.wires[i]);
            proof {
                let done = wires.take(i + 1);
                assert(done.drop_last() =~= wires.take(i as int));
                assert(done.last() == data.wires@[i as int].segments@);
                assert(ctx.ops@ =~= old(ctx).ops@ + painted_wires(done));
            }
            i += 1;
        }
        assert(wires.take(i as int) =~= wires);
    }

    /// Paints every component, in the order of the ids.
    fn paint_components(&self, ctx: &mut PaintCtx, data: &CanvasState)
        requires
            self.wf(*data),
        ensures
            final(ctx).size == old(ctx).size,
            final(ctx).ops@ == old(ctx).ops@ + painted_components(
                data.components@,
                self.component_types@,
            ),
    {
        let ghost types = self.component_types@;
        let ghost states = data.components@;
        let mut j: usize = 0;
        assert(states.take(0) =~= Seq::empty());
        while j < self.components.len()
            invariant
                self.wf(*data),
                types == self.component_types@,
                states == data.components@,
                0 <= j <= self.components@.len(),
                ctx.size == old(ctx).size,
                ctx.ops@ == old(ctx).ops@ + painted_components(states.take(j as int), types),
            decreases self.components@.len() - j,
        {
            let item = self.components[j];
            item.paint(ctx, &data.components[j], &self.component_types);
            proof {
                let done = states.take(j + 1);
                assert(done.drop_last() =~= states.take(j as int));
                assert(done.last() == states[j as int]);
                assert(ctx.ops@ =~= old(ctx).ops@ + painted_components(done, types));
            }
            j += 1;
        }
        assert(states.take(j as int) =~= states);
    }

    /// Paints the canvas into `ctx`, from back to front: the grid across the
    /// visible area, the component that a click would place, the wire being
    /// drawn, the wires, and the components.
    pub fn paint(&self, ctx: &mut PaintCtx, data: &CanvasState)
        requires
            self.wf(*data),
        ensures
            final(ctx).size == old(ctx).size,
            final(ctx).ops@ == old(ctx).ops@ + self.model(*data).painted(
                old(ctx).size,
                self.component_types@,
            ),
    {
        let size = ctx.size();
        Self::paint_grid(ctx, size);
        self.paint_ghost(ctx, data);
        self.paint_drawing(ctx, data);
        self.paint_wires(ctx, data);
        self.paint_components(ctx, data);
        assert(ctx.ops@ =~= old(ctx).ops@ + self.model(*data).painted(
            size,
            self.component_types@,
        ));
    }
}

/// The context after the first `n` components have handled a command is the
/// context before, but for the focus and the request to repaint: handling a
/// command consumes nothing and submits no command.
pub proof fn lemma_command_through(
    ids: Seq<Component>,
    states: Seq<ComponentState>,
    ctx: EventCtxView,
    command: Command,
    types: Seq<ComponentType>,
    n: int,
)
    ensures
        ctx_through(ids, states, ctx, Event::Command(command), types, n).is_handled
            == ctx.is_handled,
        ctx_through(ids, states, ctx, Event::Command(command), types, n).commands == ctx.commands,
        ctx_through(ids, states, ctx, Event::Command(command), types, n).children_changed
            == ctx.children_changed,
    decreases n,
{
    if n > 0 {
        lemma_command_through(ids, states, ctx, command, types, n - 1);
    }
}

/// Delivering a command submits no command and consumes nothing.
pub proof fn lemma_command_submits_nothing(
    canvas: CanvasModel,
    ctx: EventCtxView,
    command: Command,
    types: Seq<ComponentType>,
)
    ensures
        canvas.ctx_after(ctx, Event::Command(command), types).commands == ctx.commands,
        canvas.ctx_after(ctx, Event::Command(command), types).is_handled == ctx.is_handled,
{
    lemma_command_through(
        canvas.component_ids,
        canvas.components,
        ctx,
        command,
        types,
        canvas.components.len() as int,
    );
}

} // verus!
