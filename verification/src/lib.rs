//! The interaction model of a schematic editor: logic gates placed on a grid,
//! turned, dragged, and joined by wires that run along rows and columns.
//!
//! The crate draws nothing and reads no input. A host hands it events and a
//! record to paint into, and acts on what comes back:
//!
//! - [`canvas::Canvas::dispatch`] takes an [`event::Event`] and changes the
//!   [`canvas::CanvasState`]; the [`event::EventCtx`] tells the host who holds
//!   the input focus and whether to repaint.
//! - [`canvas::Canvas::paint`] fills a [`paint::PaintCtx`] with the rectangles
//!   and icons to draw, from back to front.
//!
//! Everything is in whole numbers. A cell of the grid is a [`coords::Coords`]
//! of two `isize`; a pixel position is a [`geometry::Point`] of two `i128`, so
//! that every cell has one; a pointer reports its position in `i32`. Within
//! these ranges no operation of the crate overflows, and none panics.
//!
//! Every function states what it returns in terms of values: an event handler
//! in terms of [`canvas::CanvasModel`], the canvas and its state as one value,
//! and a paint pass in terms of the sequence of operations it records. The
//! module [`lemmas`] holds what follows for every canvas: ids are not used
//! twice, a command to deselect spares the sender only, one click selects one
//! component.

pub mod canvas;
pub mod component;
pub mod coords;
pub mod event;
pub mod geometry;
pub mod lemmas;
pub mod paint;
pub mod wire;
