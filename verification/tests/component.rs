use logicism::canvas::WireDraw;
use logicism::component::{
    Component, ComponentInstance, ComponentState, ComponentType, Offset, Orientation, Pin, PinType,
    COORD_LIMIT, GRAB_LIMIT, PIN_LIMIT,
};
use logicism::coords::Coords;
use logicism::event::{Command, Event, EventCtx, MouseButton, MouseEvent, WidgetId};
use logicism::geometry::{Point, Rect, Size, Vec2};
use logicism::paint::{Affine, Color, DrawOp, PaintCtx};

fn left(x: i32, y: i32) -> MouseEvent {
    MouseEvent::new(x, y, MouseButton::Left, false)
}

fn and_gate_at(x: isize, y: isize, orientation: Orientation) -> ComponentState {
    ComponentState::new(Coords::new(x, y), 1, orientation)
}

#[test]
fn angles_are_quarter_turns() {
    assert_eq!(Orientation::North.angle(), 0);
    assert_eq!(Orientation::East.angle(), 90);
    assert_eq!(Orientation::South.angle(), 180);
    assert_eq!(Orientation::West.angle(), 270);
}

#[test]
fn keys_set_orientations() {
    assert_eq!(Orientation::from_key('w'), Some(Orientation::North));
    assert_eq!(Orientation::from_key('a'), Some(Orientation::West));
    assert_eq!(Orientation::from_key('s'), Some(Orientation::South));
    assert_eq!(Orientation::from_key('d'), Some(Orientation::East));
    assert_eq!(Orientation::from_key('W'), None);
    assert_eq!(Orientation::from_key(' '), None);
    assert_eq!(Orientation::from_key('1'), None);
}

#[test]
fn pin_new_keeps_its_arguments() {
    let pin = Pin::new(-1, 2, PinType::Output);
    assert_eq!(pin.pos, Coords::new(-1, 2));
    assert_eq!(pin.ty, PinType::Output);
}

#[test]
fn limits_leave_room_in_thirty_two_bits() {
    assert_eq!(COORD_LIMIT, 1 << 30);
    assert_eq!(GRAB_LIMIT, (1 << 30) - (1 << 28));
    assert_eq!(PIN_LIMIT, (1 << 30) - 1);
}

#[test]
fn catalog_has_four_gates() {
    let catalog = ComponentType::enumerate();
    assert_eq!(catalog.len(), 4);
    assert_eq!(catalog[0].size, Size::new(24, 48));
    assert_eq!(catalog[0].anchor_offset, Offset { dx: 12, dy: 32 });
    assert_eq!(
        catalog[0].pins,
        vec![Pin::new(0, 1, PinType::Input), Pin::new(0, -2, PinType::Output)]
    );
    for gate in &catalog[1..] {
        assert_eq!(gate.size, Size::new(48, 48));
        assert_eq!(gate.anchor_offset, Offset { dx: 24, dy: 32 });
        assert_eq!(
            gate.pins,
            vec![
                Pin::new(-1, 1, PinType::Input),
                Pin::new(1, 1, PinType::Input),
                Pin::new(0, -2, PinType::Output),
            ]
        );
    }
}

#[test]
fn anchor_offset_for_each_orientation() {
    let not_gate = &ComponentType::enumerate()[0];
    assert_eq!(not_gate.anchor_offset(Orientation::North), Vec2::new(12, 32));
    assert_eq!(not_gate.anchor_offset(Orientation::East), Vec2::new(16, 12));
    assert_eq!(not_gate.anchor_offset(Orientation::South), Vec2::new(12, 16));
    assert_eq!(not_gate.anchor_offset(Orientation::West), Vec2::new(32, 12));
}

#[test]
fn oriented_size_swaps_on_the_side() {
    let not_gate = &ComponentType::enumerate()[0];
    assert_eq!(not_gate.oriented_size(Orientation::North), Size::new(24, 48));
    assert_eq!(not_gate.oriented_size(Orientation::South), Size::new(24, 48));
    assert_eq!(not_gate.oriented_size(Orientation::East), Size::new(48, 24));
    assert_eq!(not_gate.oriented_size(Orientation::West), Size::new(48, 24));
}

#[test]
fn bounding_rect_puts_anchor_on_the_cells_position() {
    let catalog = ComponentType::enumerate();
    let at = Coords::new(6, 6);
    assert_eq!(catalog[1].bounding_rect(at, Orientation::North), Rect::new(72, 64, 120, 112));
    assert_eq!(catalog[0].bounding_rect(at, Orientation::North), Rect::new(84, 64, 108, 112));
    assert_eq!(catalog[0].bounding_rect(at, Orientation::East), Rect::new(80, 84, 128, 108));
    assert_eq!(catalog[0].bounding_rect(at, Orientation::South), Rect::new(84, 80, 108, 128));
    assert_eq!(catalog[0].bounding_rect(at, Orientation::West), Rect::new(64, 84, 112, 108));
    assert_eq!(
        catalog[0].bounding_rect(Coords::new(-2, 0), Orientation::North),
        Rect::new(-44, -32, -20, 16)
    );
    assert_eq!(
        catalog[0].bounding_rect(Coords::new(0, 0), Orientation::North),
        Rect::new(-12, -32, 12, 16)
    );
}

#[test]
fn bounding_rect_corner_is_cell_position_less_anchor_offset() {
    let catalog = ComponentType::enumerate();
    for ty in &catalog {
        for o in [Orientation::North, Orientation::East, Orientation::South, Orientation::West] {
            for (x, y) in [(0isize, 0isize), (6, 6), (-3, 9), (100, -100)] {
                let at = Coords::new(x, y);
                let origin = ty.bounding_rect(at, o).origin();
                let offset = ty.anchor_offset(o);
                assert_eq!(origin.x, 16 * x as i128 - offset.x);
                assert_eq!(origin.y, 16 * y as i128 - offset.y);
                assert_eq!(origin.x, at.to_widget_space().x - offset.x);
                assert_eq!(origin.y, at.to_widget_space().y - offset.y);
            }
        }
    }
}

#[test]
fn bounding_rect_moves_by_whole_cells() {
    let catalog = ComponentType::enumerate();
    let from = catalog[0].bounding_rect(Coords::new(2, 3), Orientation::West);
    let to = catalog[0].bounding_rect(Coords::new(2 + 5, 3 - 4), Orientation::West);
    assert_eq!(to.x0 - from.x0, 80);
    assert_eq!(to.y0 - from.y0, -64);
    assert_eq!(to.x1 - to.x0, from.x1 - from.x0);
    assert_eq!(to.y1 - to.y0, from.y1 - from.y0);
}

#[test]
fn orientation_closure_on_every_gate() {
    let catalog = ComponentType::enumerate();
    for ty in &catalog {
        let at = Coords::new(3, -7);
        let width = |o| {
            let r = ty.bounding_rect(at, o);
            r.x1 - r.x0
        };
        let height = |o| {
            let r = ty.bounding_rect(at, o);
            r.y1 - r.y0
        };
        assert_eq!(width(Orientation::North), width(Orientation::South));
        assert_eq!(height(Orientation::North), height(Orientation::South));
        assert_eq!(width(Orientation::East), width(Orientation::West));
        assert_eq!(height(Orientation::East), height(Orientation::West));
        assert_eq!(width(Orientation::North), height(Orientation::East));
        assert_eq!(height(Orientation::North), width(Orientation::East));
        let area = width(Orientation::North) * height(Orientation::North);
        for o in [Orientation::North, Orientation::East, Orientation::South, Orientation::West] {
            assert_eq!(width(o) * height(o), area);
        }
    }
}

#[test]
fn bounding_rect_far_from_the_origin() {
    let catalog = ComponentType::enumerate();
    let r = catalog[1].bounding_rect(Coords::new(isize::MAX, isize::MIN), Orientation::North);
    assert_eq!(r.x0, (isize::MAX as i128) * 16 - 24);
    assert_eq!(r.y0, (isize::MIN as i128) * 16 - 32);
    assert_eq!(r.x1 - r.x0, 48);
    assert_eq!(r.y1 - r.y0, 48);
}

#[test]
fn instance_bounding_rect_is_that_of_its_kind() {
    let catalog = ComponentType::enumerate();
    let instance = ComponentInstance::new(Coords::new(6, 6), 0, Orientation::East);
    assert_eq!(instance.bounding_rect(&catalog), Rect::new(80, 84, 128, 108));
    assert_eq!(instance.anchor_offset(&catalog), Vec2::new(12, 32));
}

#[test]
fn rotate_about_anchor_recentres_the_icon() {
    let catalog = ComponentType::enumerate();
    let at = Coords::new(0, 0);
    let turn = |o| ComponentInstance::new(at, 0, o).rotate_about_anchor(&catalog);
    assert_eq!(turn(Orientation::North), Affine { rotation: Orientation::North, dx: 0, dy: 0 });
    assert_eq!(turn(Orientation::East), Affine { rotation: Orientation::East, dx: 48, dy: 0 });
    assert_eq!(turn(Orientation::South), Affine { rotation: Orientation::South, dx: 24, dy: 48 });
    assert_eq!(turn(Orientation::West), Affine { rotation: Orientation::West, dx: 0, dy: 24 });
}

#[test]
fn pin_regions_are_six_pixels_around_the_pin() {
    let catalog = ComponentType::enumerate();
    let north = ComponentInstance::new(Coords::new(6, 6), 1, Orientation::North);
    assert_eq!(north.pin_bounding_rect(0, &catalog), Rect::new(77, 109, 83, 115));
    assert_eq!(north.pin_bounding_rect(1, &catalog), Rect::new(109, 109, 115, 115));
    assert_eq!(north.pin_bounding_rect(2, &catalog), Rect::new(93, 61, 99, 67));
    let east = ComponentInstance::new(Coords::new(6, 6), 1, Orientation::East);
    // (-1, 1) turns to (-1, -1); (0, -2) turns to (2, 0).
    assert_eq!(east.pin_bounding_rect(0, &catalog), Rect::new(77, 77, 83, 83));
    assert_eq!(east.pin_bounding_rect(2, &catalog), Rect::new(125, 93, 131, 99));
    let south = ComponentInstance::new(Coords::new(6, 6), 1, Orientation::South);
    assert_eq!(south.pin_bounding_rect(2, &catalog), Rect::new(93, 125, 99, 131));
    let west = ComponentInstance::new(Coords::new(6, 6), 1, Orientation::West);
    assert_eq!(west.pin_bounding_rect(2, &catalog), Rect::new(61, 93, 67, 99));
}

#[test]
fn pin_coords_follow_the_turn() {
    let catalog = ComponentType::enumerate();
    let cell = |o, i| ComponentInstance::new(Coords::new(6, 6), 1, o).pin_coords(i, &catalog);
    assert_eq!(cell(Orientation::North, 0), Coords::new(5, 7));
    assert_eq!(cell(Orientation::North, 1), Coords::new(7, 7));
    assert_eq!(cell(Orientation::North, 2), Coords::new(6, 4));
    assert_eq!(cell(Orientation::East, 0), Coords::new(5, 5));
    assert_eq!(cell(Orientation::East, 2), Coords::new(8, 6));
    assert_eq!(cell(Orientation::South, 0), Coords::new(7, 5));
    assert_eq!(cell(Orientation::South, 2), Coords::new(6, 8));
    assert_eq!(cell(Orientation::West, 0), Coords::new(7, 7));
    assert_eq!(cell(Orientation::West, 2), Coords::new(4, 6));
}

#[test]
fn pin_region_is_nearest_to_the_pins_cell() {
    let catalog = ComponentType::enumerate();
    for o in [Orientation::North, Orientation::East, Orientation::South, Orientation::West] {
        let instance = ComponentInstance::new(Coords::new(-3, 2), 1, o);
        for i in 0..3 {
            let region = instance.pin_bounding_rect(i, &catalog);
            let cell = instance.pin_coords(i, &catalog);
            for x in region.x0..region.x1 {
                for y in region.y0..region.y1 {
                    assert_eq!(Coords::from_widget_space(Point::new(x, y)), cell);
                }
            }
        }
    }
}

#[test]
fn pin_at_finds_the_first_pin_under_the_pointer() {
    let catalog = ComponentType::enumerate();
    let instance = ComponentInstance::new(Coords::new(6, 6), 1, Orientation::North);
    assert_eq!(instance.pin_at(Point::new(80, 112), &catalog), Some(0));
    assert_eq!(instance.pin_at(Point::new(112, 112), &catalog), Some(1));
    assert_eq!(instance.pin_at(Point::new(96, 64), &catalog), Some(2));
    assert_eq!(instance.pin_at(Point::new(93, 61), &catalog), Some(2));
    assert_eq!(instance.pin_at(Point::new(99, 64), &catalog), None);
    assert_eq!(instance.pin_at(Point::new(100, 100), &catalog), None);
}

#[test]
fn instance_paints_icon_then_pins() {
    let catalog = ComponentType::enumerate();
    let mut ctx = PaintCtx::new(Size::new(800, 600));
    ComponentInstance::new(Coords::new(6, 6), 1, Orientation::North).paint(&mut ctx, &catalog);
    assert_eq!(
        ctx.ops,
        vec![
            DrawOp::Icon { ty: 1, transform: Affine { rotation: Orientation::North, dx: 72, dy: 64 } },
            DrawOp::Fill { rect: Rect::new(79, 111, 81, 113), color: Color::Green },
            DrawOp::Fill { rect: Rect::new(111, 111, 113, 113), color: Color::Green },
            DrawOp::Fill { rect: Rect::new(95, 63, 97, 65), color: Color::Green },
        ]
    );
    assert_eq!(ctx.size(), Size::new(800, 600));
}

#[test]
fn instance_paints_turned_icon() {
    let catalog = ComponentType::enumerate();
    let mut ctx = PaintCtx::new(Size::new(800, 600));
    ComponentInstance::new(Coords::new(6, 6), 0, Orientation::East).paint(&mut ctx, &catalog);
    // The box is (80, 84)..(128, 108); the turned icon is shifted by its
    // height to come back into it.
    assert_eq!(
        ctx.ops,
        vec![
            DrawOp::Icon { ty: 0, transform: Affine { rotation: Orientation::East, dx: 128, dy: 84 } },
            DrawOp::Fill { rect: Rect::new(79, 95, 81, 97), color: Color::Green },
            DrawOp::Fill { rect: Rect::new(127, 95, 129, 97), color: Color::Green },
        ]
    );
}

#[test]
fn new_state_is_idle() {
    let state = ComponentState::new(Coords::new(1, 2), 3, Orientation::West);
    assert_eq!(state.instance, ComponentInstance::new(Coords::new(1, 2), 3, Orientation::West));
    assert!(!state.selected);
    assert_eq!(state.dragging, None);
}

#[test]
fn press_in_the_box_selects_and_takes_hold() {
    let catalog = ComponentType::enumerate();
    let mut data = and_gate_at(6, 6, Orientation::North);
    let mut ctx = EventCtx::new(None);
    Component(7).event(&mut ctx, &Event::MouseDown(left(100, 100)), &mut data, &catalog);
    assert!(data.selected);
    assert_eq!(data.dragging, Some((Coords::new(6, 6), Point::new(100, 100))));
    assert!(ctx.is_handled());
    assert!(ctx.paint_requested);
    assert_eq!(ctx.focus, Some(WidgetId::Item(7)));
    assert_eq!(ctx.commands, vec![Command::DeselectAll(WidgetId::Item(7))]);
}

#[test]
fn press_with_ctrl_does_not_deselect_the_others() {
    let catalog = ComponentType::enumerate();
    let mut data = and_gate_at(6, 6, Orientation::North);
    let mut ctx = EventCtx::new(None);
    let press = MouseEvent::new(100, 100, MouseButton::Left, true);
    Component(7).event(&mut ctx, &Event::MouseDown(press), &mut data, &catalog);
    assert!(data.selected);
    assert!(ctx.is_handled());
    assert!(ctx.commands.is_empty());
    assert_eq!(ctx.focus, Some(WidgetId::Item(7)));
}

#[test]
fn press_outside_the_box_does_nothing() {
    let catalog = ComponentType::enumerate();
    let mut data = and_gate_at(6, 6, Orientation::North);
    let mut ctx = EventCtx::new(None);
    for (x, y) in [(71, 100), (120, 100), (100, 63), (100, 116)] {
        Component(7).event(&mut ctx, &Event::MouseDown(left(x, y)), &mut data, &catalog);
    }
    assert_eq!(data, and_gate_at(6, 6, Orientation::North));
    assert!(!ctx.is_handled());
    assert!(!ctx.paint_requested);
    assert!(ctx.commands.is_empty());
    assert_eq!(ctx.focus, None);
}

#[test]
fn press_of_another_button_does_nothing() {
    let catalog = ComponentType::enumerate();
    let mut data = and_gate_at(6, 6, Orientation::North);
    let mut ctx = EventCtx::new(None);
    let press = MouseEvent::new(100, 100, MouseButton::Right, false);
    Component(7).event(&mut ctx, &Event::MouseDown(press), &mut data, &catalog);
    assert_eq!(data, and_gate_at(6, 6, Orientation::North));
    assert!(!ctx.is_handled());
}

#[test]
fn press_on_a_pin_starts_a_wire() {
    let catalog = ComponentType::enumerate();
    let mut data = and_gate_at(6, 6, Orientation::North);
    let mut ctx = EventCtx::new(None);
    Component(7).event(&mut ctx, &Event::MouseDown(left(96, 64)), &mut data, &catalog);
    assert_eq!(data, and_gate_at(6, 6, Orientation::North));
    assert!(ctx.is_handled());
    assert!(!ctx.paint_requested);
    assert_eq!(
        ctx.commands,
        vec![Command::BeginWireDraw(WireDraw::FromComponent {
            id: 7,
            pin: 2,
            loc: Coords::new(6, 4)
        })]
    );
}

#[test]
fn press_on_a_pin_above_the_box_starts_a_wire() {
    // The region of the output pin reaches three pixels above the box.
    let catalog = ComponentType::enumerate();
    let mut data = and_gate_at(6, 6, Orientation::North);
    let mut ctx = EventCtx::new(None);
    Component(7).event(&mut ctx, &Event::MouseDown(left(96, 61)), &mut data, &catalog);
    assert!(ctx.is_handled());
    assert_eq!(ctx.commands.len(), 1);
    assert!(!data.selected);
}

#[test]
fn consumed_press_selects_all_the_same() {
    let catalog = ComponentType::enumerate();
    let mut data = and_gate_at(6, 6, Orientation::North);
    let mut ctx = EventCtx::new(None);
    ctx.set_handled();
    Component(7).event(&mut ctx, &Event::MouseDown(left(100, 100)), &mut data, &catalog);
    assert!(data.selected);
    assert_eq!(data.dragging, Some((Coords::new(6, 6), Point::new(100, 100))));
    assert_eq!(ctx.commands, vec![Command::DeselectAll(WidgetId::Item(7))]);
    assert!(ctx.paint_requested);
    assert!(ctx.is_handled());
}

#[test]
fn press_on_a_selected_component_deselects_the_others_again() {
    let catalog = ComponentType::enumerate();
    let mut data = and_gate_at(6, 6, Orientation::North);
    data.selected = true;
    let mut ctx = EventCtx::new(None);
    Component(7).event(&mut ctx, &Event::MouseDown(left(100, 100)), &mut data, &catalog);
    assert!(data.selected);
    assert_eq!(ctx.commands, vec![Command::DeselectAll(WidgetId::Item(7))]);
    assert!(ctx.paint_requested);
}

#[test]
fn consumed_deselect_clears_all_the_same() {
    let catalog = ComponentType::enumerate();
    let mut data = and_gate_at(6, 6, Orientation::East);
    data.selected = true;
    data.dragging = Some((Coords::new(6, 6), Point::new(100, 100)));
    let mut ctx = EventCtx::new(Some(WidgetId::Item(7)));
    ctx.set_handled();
    let order = Event::Command(Command::DeselectAll(WidgetId::Item(3)));
    Component(7).event(&mut ctx, &order, &mut data, &catalog);
    assert_eq!(data, and_gate_at(6, 6, Orientation::East));
    assert!(ctx.paint_requested);
    assert_eq!(ctx.focus, None);
    assert!(ctx.commands.is_empty());
}

#[test]
fn drag_is_relative_to_where_it_started() {
    let catalog = ComponentType::enumerate();
    let mut data = and_gate_at(6, 6, Orientation::North);
    let mut ctx = EventCtx::new(None);
    Component(7).event(&mut ctx, &Event::MouseDown(left(100, 100)), &mut data, &catalog);
    let mut moved = |x: i32, y: i32| {
        let mut ctx = EventCtx::new(None);
        let motion = MouseEvent::new(x, y, MouseButton::NoButton, false);
        Component(7).event(&mut ctx, &Event::MouseMove(motion), &mut data, &catalog);
        data.instance.coords
    };
    // Less than half a cell: the component stays.
    assert_eq!(moved(107, 93), Coords::new(6, 6));
    // Half a cell: it moves by one.
    assert_eq!(moved(108, 92), Coords::new(7, 5));
    // Back and forth by a pixel does not add up.
    assert_eq!(moved(107, 93), Coords::new(6, 6));
    assert_eq!(moved(108, 92), Coords::new(7, 5));
    assert_eq!(moved(100, 100), Coords::new(6, 6));
    assert_eq!(moved(100 + 160, 100 - 33), Coords::new(16, 4));
}

#[test]
fn motion_without_hold_does_nothing() {
    let catalog = ComponentType::enumerate();
    let mut data = and_gate_at(6, 6, Orientation::North);
    let mut ctx = EventCtx::new(None);
    let motion = MouseEvent::new(300, 300, MouseButton::NoButton, false);
    Component(7).event(&mut ctx, &Event::MouseMove(motion), &mut data, &catalog);
    assert_eq!(data, and_gate_at(6, 6, Orientation::North));
}

#[test]
fn release_lets_go() {
    let catalog = ComponentType::enumerate();
    let mut data = and_gate_at(6, 6, Orientation::North);
    let mut ctx = EventCtx::new(None);
    Component(7).event(&mut ctx, &Event::MouseDown(left(100, 100)), &mut data, &catalog);
    let mut ctx = EventCtx::new(ctx.focus);
    Component(7).event(&mut ctx, &Event::MouseUp(left(100, 100)), &mut data, &catalog);
    assert_eq!(data.dragging, None);
    assert!(data.selected);
    assert!(!ctx.is_handled());
    let motion = MouseEvent::new(300, 300, MouseButton::NoButton, false);
    Component(7).event(&mut ctx, &Event::MouseMove(motion), &mut data, &catalog);
    assert_eq!(data.instance.coords, Coords::new(6, 6));
}

#[test]
fn keys_turn_the_component_that_holds_the_focus() {
    let catalog = ComponentType::enumerate();
    let mut data = and_gate_at(6, 6, Orientation::North);
    let mut ctx = EventCtx::new(Some(WidgetId::Item(7)));
    Component(7).event(&mut ctx, &Event::KeyDown('d'), &mut data, &catalog);
    assert_eq!(data.instance.orientation, Orientation::East);
    assert!(ctx.paint_requested);
    assert!(!ctx.is_handled());
    let mut ctx = EventCtx::new(Some(WidgetId::Item(7)));
    Component(7).event(&mut ctx, &Event::KeyDown('d'), &mut data, &catalog);
    assert_eq!(data.instance.orientation, Orientation::East);
    assert!(!ctx.paint_requested);
    for (key, facing) in [
        ('a', Orientation::West),
        ('s', Orientation::South),
        ('w', Orientation::North),
    ] {
        let mut ctx = EventCtx::new(Some(WidgetId::Item(7)));
        Component(7).event(&mut ctx, &Event::KeyDown(key), &mut data, &catalog);
        assert_eq!(data.instance.orientation, facing);
        assert!(ctx.paint_requested);
    }
    let mut ctx = EventCtx::new(Some(WidgetId::Item(7)));
    Component(7).event(&mut ctx, &Event::KeyDown('x'), &mut data, &catalog);
    assert_eq!(data.instance.orientation, Orientation::North);
    assert!(!ctx.paint_requested);
}

#[test]
fn keys_do_not_turn_a_component_without_focus() {
    let catalog = ComponentType::enumerate();
    let mut data = and_gate_at(6, 6, Orientation::North);
    for focus in [None, Some(WidgetId::Canvas), Some(WidgetId::Item(8))] {
        let mut ctx = EventCtx::new(focus);
        Component(7).event(&mut ctx, &Event::KeyDown('d'), &mut data, &catalog);
        assert_eq!(data.instance.orientation, Orientation::North);
        assert!(!ctx.paint_requested);
    }
}

#[test]
fn deselect_from_another_clears_selection_hold_and_focus() {
    let catalog = ComponentType::enumerate();
    let mut data = and_gate_at(6, 6, Orientation::North);
    let mut ctx = EventCtx::new(None);
    Component(7).event(&mut ctx, &Event::MouseDown(left(100, 100)), &mut data, &catalog);
    let mut ctx = EventCtx::new(ctx.focus);
    let order = Event::Command(Command::DeselectAll(WidgetId::Item(8)));
    Component(7).event(&mut ctx, &order, &mut data, &catalog);
    assert!(!data.selected);
    assert_eq!(data.dragging, None);
    assert_eq!(ctx.focus, None);
    assert!(ctx.paint_requested);
    assert!(!ctx.is_handled());
    assert!(ctx.commands.is_empty());
}

#[test]
fn deselect_from_the_canvas_clears_selection() {
    let catalog = ComponentType::enumerate();
    let mut data = and_gate_at(6, 6, Orientation::North);
    data.selected = true;
    let mut ctx = EventCtx::new(Some(WidgetId::Canvas));
    let order = Event::Command(Command::DeselectAll(WidgetId::Canvas));
    Component(7).event(&mut ctx, &order, &mut data, &catalog);
    assert!(!data.selected);
    assert_eq!(ctx.focus, Some(WidgetId::Canvas));
}

#[test]
fn own_deselect_leaves_the_sender_alone() {
    let catalog = ComponentType::enumerate();
    let mut data = and_gate_at(6, 6, Orientation::North);
    let mut ctx = EventCtx::new(None);
    Component(7).event(&mut ctx, &Event::MouseDown(left(100, 100)), &mut data, &catalog);
    let held = data;
    let mut ctx = EventCtx::new(ctx.focus);
    let order = Event::Command(Command::DeselectAll(WidgetId::Item(7)));
    Component(7).event(&mut ctx, &order, &mut data, &catalog);
    assert_eq!(data, held);
    assert!(data.selected);
    assert_eq!(ctx.focus, Some(WidgetId::Item(7)));
    assert!(!ctx.paint_requested);
}

#[test]
fn begin_wire_draw_is_not_for_components() {
    let catalog = ComponentType::enumerate();
    let mut data = and_gate_at(6, 6, Orientation::North);
    let mut ctx = EventCtx::new(None);
    let order = Event::Command(Command::BeginWireDraw(WireDraw::FromWire {
        id: 1,
        loc: Coords::new(0, 0),
    }));
    Component(7).event(&mut ctx, &order, &mut data, &catalog);
    assert_eq!(data, and_gate_at(6, 6, Orientation::North));
    assert!(!ctx.paint_requested);
}

#[test]
fn selected_component_paints_an_outline() {
    let catalog = ComponentType::enumerate();
    let mut data = and_gate_at(6, 6, Orientation::North);
    let mut plain = PaintCtx::new(Size::new(800, 600));
    Component(0).paint(&mut plain, &data, &catalog);
    assert_eq!(plain.ops.len(), 4);
    data.selected = true;
    let mut ctx = PaintCtx::new(Size::new(800, 600));
    Component(0).paint(&mut ctx, &data, &catalog);
    assert_eq!(ctx.ops.len(), 5);
    assert_eq!(&ctx.ops[..4], &plain.ops[..]);
    assert_eq!(
        ctx.ops[4],
        DrawOp::Stroke { rect: Rect::new(68, 60, 124, 116), radius: 4, color: Color::Aqua, width: 1 }
    );
}
