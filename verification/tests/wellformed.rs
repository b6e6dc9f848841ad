use logicism::canvas::{Canvas, CanvasState, Tool};
use logicism::component::{
    catalog_is_wf, Component, ComponentState, ComponentType, Offset, Orientation, Pin, PinType,
    COORD_LIMIT, GRAB_LIMIT, PIN_LIMIT,
};
use logicism::coords::Coords;
use logicism::event::{Event, EventCtx, MouseButton, MouseEvent};
use logicism::geometry::{Point, Size};
use logicism::wire::{Wire, WireSegment, WireState};

fn entry_with_pin(x: isize, y: isize) -> ComponentType {
    ComponentType {
        size: Size::new(16, 16),
        anchor_offset: Offset { dx: 8, dy: 8 },
        pins: vec![Pin::new(0, 0, PinType::Input), Pin::new(x, y, PinType::Output)],
    }
}

fn populated() -> (Canvas, CanvasState) {
    let mut canvas = Canvas::new(ComponentType::enumerate());
    let mut data = CanvasState::new();
    let mut send = |event: Event| {
        let mut ctx = EventCtx::new(None);
        canvas.dispatch(&mut ctx, &event, &mut data);
    };
    let at = |x, y| MouseEvent::new(x, y, MouseButton::Left, false);
    send(Event::KeyDown('2'));
    send(Event::MouseDown(at(100, 100)));
    send(Event::MouseUp(at(100, 100)));
    send(Event::KeyDown(' '));
    send(Event::MouseDown(at(96, 64)));
    send(Event::MouseMove(at(200, 72)));
    send(Event::MouseUp(at(200, 72)));
    send(Event::MouseDown(at(100, 100)));
    (canvas, data)
}

#[test]
fn catalog_entries_are_well_formed() {
    let catalog = ComponentType::enumerate();
    assert!(catalog.iter().all(|ty| ty.is_wf()));
    assert!(catalog_is_wf(&catalog));
    assert!(catalog_is_wf(&Vec::new()));
}

#[test]
fn pins_beyond_the_limit_are_not_well_formed() {
    assert!(entry_with_pin(PIN_LIMIT, -PIN_LIMIT).is_wf());
    assert!(!entry_with_pin(PIN_LIMIT + 1, 0).is_wf());
    assert!(!entry_with_pin(0, -PIN_LIMIT - 1).is_wf());
    assert!(!entry_with_pin(isize::MIN, 0).is_wf());
    let mut catalog = ComponentType::enumerate();
    catalog.push(entry_with_pin(0, PIN_LIMIT + 1));
    assert!(!catalog_is_wf(&catalog));
}

#[test]
fn component_must_be_of_the_catalog_and_in_reach() {
    let catalog = ComponentType::enumerate();
    let at = |x, y, ty| ComponentState::new(Coords::new(x, y), ty, Orientation::North);
    assert!(at(0, 0, 0).is_wf(&catalog));
    assert!(at(COORD_LIMIT, -COORD_LIMIT, 3).is_wf(&catalog));
    assert!(!at(0, 0, 4).is_wf(&catalog));
    assert!(!at(COORD_LIMIT + 1, 0, 0).is_wf(&catalog));
    assert!(!at(0, -COORD_LIMIT - 1, 0).is_wf(&catalog));
}

#[test]
fn held_component_must_have_been_taken_within_the_grab_limit() {
    let catalog = ComponentType::enumerate();
    let mut state = ComponentState::new(Coords::new(0, 0), 0, Orientation::North);
    state.dragging = Some((Coords::new(GRAB_LIMIT, -GRAB_LIMIT), Point::new(5, 5)));
    assert!(state.is_wf(&catalog));
    state.dragging = Some((Coords::new(GRAB_LIMIT + 1, 0), Point::new(5, 5)));
    assert!(!state.is_wf(&catalog));
    state.dragging = Some((Coords::new(0, 0), Point::new(i32::MAX as i128, i32::MIN as i128)));
    assert!(state.is_wf(&catalog));
    state.dragging = Some((Coords::new(0, 0), Point::new(i32::MAX as i128 + 1, 0)));
    assert!(!state.is_wf(&catalog));
    state.dragging = Some((Coords::new(0, 0), Point::new(0, i32::MIN as i128 - 1)));
    assert!(!state.is_wf(&catalog));
}

#[test]
fn new_canvas_is_well_formed() {
    let canvas = Canvas::new(ComponentType::enumerate());
    assert!(canvas.is_wf(&CanvasState::new()));
    let empty_catalog = Canvas::new(Vec::new());
    assert!(empty_catalog.is_wf(&CanvasState::new()));
    let bad_catalog = Canvas::new(vec![entry_with_pin(PIN_LIMIT + 1, 0)]);
    assert!(!bad_catalog.is_wf(&CanvasState::new()));
}

#[test]
fn canvas_stays_well_formed_through_events() {
    let (canvas, data) = populated();
    assert_eq!(canvas.components, vec![Component(0)]);
    assert_eq!(canvas.wires, vec![Wire(1)]);
    assert!(data.components[0].dragging.is_some());
    assert!(canvas.is_wf(&data));
}

#[test]
fn items_and_states_must_match() {
    let (mut canvas, data) = populated();
    canvas.components.push(Component(2));
    assert!(!canvas.is_wf(&data));
    let (mut canvas, data) = populated();
    canvas.wires.clear();
    assert!(!canvas.is_wf(&data));
}

#[test]
fn ids_must_ascend_below_the_next_and_be_apart() {
    let (mut canvas, mut data) = populated();
    canvas.components.push(Component(0));
    data.components.push(ComponentState::new(Coords::new(0, 0), 0, Orientation::North));
    assert!(!canvas.is_wf(&data));

    let (mut canvas, mut data) = populated();
    canvas.components.push(Component(2));
    data.components.push(ComponentState::new(Coords::new(0, 0), 0, Orientation::North));
    // The id 2 is the next free one: it is not taken yet.
    assert!(!canvas.is_wf(&data));
    canvas.next_item_id = 3;
    assert!(canvas.is_wf(&data));

    let (mut canvas, mut data) = populated();
    canvas.components.push(Component(1));
    data.components.push(ComponentState::new(Coords::new(0, 0), 0, Orientation::North));
    // The wire has the id 1 already.
    assert!(!canvas.is_wf(&data));

    let (mut canvas, data) = populated();
    canvas.next_item_id = 1;
    assert!(!canvas.is_wf(&data));
}

#[test]
fn wires_must_have_a_segment() {
    let (mut canvas, mut data) = populated();
    canvas.wires.push(Wire(2));
    canvas.next_item_id = 3;
    data.wires.push(WireState { segments: vec![] });
    assert!(!canvas.is_wf(&data));
    data.wires[1].segments.push(WireSegment::new(Coords::new(0, 0), Coords::new(0, 5)).unwrap());
    assert!(canvas.is_wf(&data));
}

#[test]
fn tool_must_place_an_entry_of_the_catalog() {
    let (canvas, mut data) = populated();
    data.tool = Tool::Place(3, Orientation::South);
    assert!(canvas.is_wf(&data));
    data.tool = Tool::Place(4, Orientation::South);
    assert!(!canvas.is_wf(&data));
}

#[test]
fn components_must_be_well_formed() {
    let (canvas, mut data) = populated();
    data.components[0].instance.ty = 9;
    assert!(!canvas.is_wf(&data));
    let (canvas, mut data) = populated();
    data.components[0].instance.coords = Coords::new(COORD_LIMIT + 1, 0);
    assert!(!canvas.is_wf(&data));
}

#[test]
fn pointer_at_the_ends_of_its_range_keeps_the_canvas_well_formed() {
    let mut canvas = Canvas::new(ComponentType::enumerate());
    let mut data = CanvasState::new();
    let send = |canvas: &mut Canvas, data: &mut CanvasState, event: Event| {
        let mut ctx = EventCtx::new(None);
        assert!(canvas.is_wf(data));
        canvas.dispatch(&mut ctx, &event, data);
        assert!(canvas.is_wf(data));
    };
    let at = |x, y| MouseEvent::new(x, y, MouseButton::Left, false);
    send(&mut canvas, &mut data, Event::KeyDown('2'));
    send(&mut canvas, &mut data, Event::MouseDown(at(i32::MAX, i32::MAX)));
    assert_eq!(data.components[0].instance.coords, Coords::new(134217727, 134217727));
    send(&mut canvas, &mut data, Event::MouseUp(at(i32::MAX, i32::MAX)));
    send(&mut canvas, &mut data, Event::KeyDown(' '));
    // The box is (2147483608, 2147483600)..(2147483656, 2147483648).
    send(&mut canvas, &mut data, Event::MouseDown(at(2147483620, 2147483620)));
    assert!(data.components[0].selected);
    send(&mut canvas, &mut data, Event::MouseMove(at(i32::MIN, i32::MIN)));
    assert_eq!(
        data.components[0].instance.coords,
        Coords::new(134217727 - 268435454, 134217727 - 268435454)
    );
    send(&mut canvas, &mut data, Event::MouseUp(at(i32::MIN, i32::MIN)));
}
