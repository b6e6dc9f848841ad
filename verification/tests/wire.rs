use logicism::coords::Coords;
use logicism::event::{Event, EventCtx};
use logicism::geometry::{Rect, Size};
use logicism::paint::{Color, DrawOp, PaintCtx};
use logicism::wire::{Wire, WireSegment, WireState};

fn segment(a: (isize, isize), b: (isize, isize)) -> WireSegment {
    WireSegment::new(Coords::new(a.0, a.1), Coords::new(b.0, b.1)).unwrap()
}

#[test]
fn segment_exists_in_one_row_or_one_column() {
    assert!(WireSegment::new(Coords::new(1, 2), Coords::new(9, 2)).is_some());
    assert!(WireSegment::new(Coords::new(1, 2), Coords::new(1, -7)).is_some());
    assert!(WireSegment::new(Coords::new(1, 2), Coords::new(1, 2)).is_some());
}

#[test]
fn segment_does_not_exist_across() {
    assert!(WireSegment::new(Coords::new(1, 2), Coords::new(2, 3)).is_none());
    assert!(WireSegment::new(Coords::new(0, 0), Coords::new(-1, 1)).is_none());
}

#[test]
fn segment_exists_exactly_when_aligned() {
    for ax in -2isize..3 {
        for ay in -2isize..3 {
            for bx in -2isize..3 {
                for by in -2isize..3 {
                    let made = WireSegment::new(Coords::new(ax, ay), Coords::new(bx, by));
                    assert_eq!(made.is_some(), ax == bx || ay == by);
                }
            }
        }
    }
}

#[test]
fn segment_keeps_its_ends() {
    let s = segment((1, 2), (9, 2));
    assert_eq!(s.start(), Coords::new(1, 2));
    assert_eq!(s.end(), Coords::new(9, 2));
}

#[test]
fn segment_frame_is_two_pixels_around_the_corners() {
    assert_eq!(segment((1, 2), (9, 2)).bounding_rect(), Rect::new(14, 30, 146, 34));
    assert_eq!(segment((9, 2), (1, 2)).bounding_rect(), Rect::new(14, 30, 146, 34));
    assert_eq!(segment((1, 2), (1, -7)).bounding_rect(), Rect::new(14, -114, 18, 34));
    assert_eq!(segment((0, 0), (0, 0)).bounding_rect(), Rect::new(-2, -2, 2, 2));
}

#[test]
fn segment_paints_bar_and_mark() {
    let mut ctx = PaintCtx::new(Size::new(100, 100));
    segment((9, 2), (1, 2)).paint(&mut ctx);
    assert_eq!(
        ctx.ops,
        vec![
            DrawOp::Fill { rect: Rect::new(23, 39, 153, 41), color: Color::Green },
            DrawOp::Fill { rect: Rect::new(14, 30, 16, 32), color: Color::Red },
        ]
    );
}

#[test]
fn wire_frame_encloses_all_segments() {
    let one = WireState { segments: vec![segment((1, 2), (9, 2))] };
    assert_eq!(one.bounding_rect(), Rect::new(14, 30, 146, 34));
    let two = WireState { segments: vec![segment((1, 2), (9, 2)), segment((9, 2), (9, -5))] };
    assert_eq!(two.bounding_rect(), Rect::new(14, -82, 146, 34));
    let three = WireState {
        segments: vec![segment((0, 0), (0, 1)), segment((-4, 0), (0, 0)), segment((0, 1), (3, 1))],
    };
    assert_eq!(three.bounding_rect(), Rect::new(-66, -2, 50, 18));
}

#[test]
fn wire_acts_on_no_event() {
    let mut data = WireState { segments: vec![segment((1, 2), (9, 2))] };
    let mut ctx = EventCtx::new(None);
    Wire(3).event(&mut ctx, &Event::KeyDown('d'), &mut data);
    Wire(3).event(&mut ctx, &Event::WindowConnected, &mut data);
    assert_eq!(data.segments, vec![segment((1, 2), (9, 2))]);
    assert!(!ctx.is_handled());
    assert!(!ctx.paint_requested);
    assert!(ctx.commands.is_empty());
}

#[test]
fn wire_paints_its_segments_in_order() {
    let data = WireState { segments: vec![segment((0, 0), (2, 0)), segment((2, 0), (2, 1))] };
    let mut ctx = PaintCtx::new(Size::new(100, 100));
    Wire(0).paint(&mut ctx, &data);
    assert_eq!(
        ctx.ops,
        vec![
            DrawOp::Fill { rect: Rect::new(7, 7, 41, 9), color: Color::Green },
            DrawOp::Fill { rect: Rect::new(-2, -2, 0, 0), color: Color::Red },
            DrawOp::Fill { rect: Rect::new(39, 7, 41, 25), color: Color::Green },
            DrawOp::Fill { rect: Rect::new(30, -2, 32, 0), color: Color::Red },
        ]
    );
}

#[test]
fn wire_without_segments_paints_nothing() {
    let data = WireState { segments: vec![] };
    let mut ctx = PaintCtx::new(Size::new(100, 100));
    Wire(0).paint(&mut ctx, &data);
    assert!(ctx.ops.is_empty());
}
