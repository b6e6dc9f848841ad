//! What the host reports to the editor, and what the editor asks of the host.

use crate::canvas::WireDraw;
use crate::geometry::Point;
use vstd::prelude::*;

verus! {

/// A button of the pointer.
#[derive(Clone, Copy, Debug, PartialEq, Eq, Structural)]
pub enum MouseButton {
    /// No button: the event is not about one.
    NoButton,
    /// The primary button, the only one the editor acts on.
    Left,
    Right,
    Middle,
    X1,
    X2,
}

/// The pointer as an event reports it: where it is, in whole pixels, which
/// button the event is about, and whether the key that extends a selection is
/// held.
#[derive(Clone, Copy, Debug, PartialEq, Eq, Structural)]
pub struct MouseEvent {
    pub x: i32,
    pub y: i32,
    pub button: MouseButton,
    pub ctrl: bool,
}

impl MouseEvent {
    pub fn new(x: i32, y: i32, button: MouseButton, ctrl: bool) -> (ev: Self)
        ensures
            ev == (MouseEvent { x, y, button, ctrl }),
    {
        MouseEvent { x, y, button, ctrl }
    }

    pub open spec fn spec_pos(&self) -> Point {
        Point { x: self.x as i128, y: self.y as i128 }
    }

    /// The pointer's position.
    #[verifier::when_used_as_spec(spec_pos)]
    pub fn pos(&self) -> (p: Point)
        ensures
            p == self.spec_pos(),
    {
        Point { x: self.x as i128, y: self.y as i128 }
    }
}

/// Who handles an event or sent a command: the canvas, or the item with an id.
#[derive(Clone, Copy, Debug, PartialEq, Eq, Structural)]
pub enum WidgetId {
    Canvas,
    Item(usize),
}

/// A notice that goes to the canvas and to every item.
#[derive(Clone, Copy, Debug, PartialEq, Eq, Structural)]
pub enum Command {
    /// Every item but the sender is to give up its selection.
    DeselectAll(WidgetId),
    /// A wire is started.
    BeginWireDraw(WireDraw),
}

/// What the host reports.
#[derive(Clone, Copy, Debug, PartialEq, Eq, Structural)]
pub enum Event {
    /// The window is there.
    WindowConnected,
    /// A key that stands for a character went down.
    KeyDown(char),
    MouseMove(MouseEvent),
    MouseDown(MouseEvent),
    MouseUp(MouseEvent),
    /// A command that was submitted while an earlier event was handled.
    Command(Command),
}

/// The state that the handlers of one event share: who holds the input focus,
/// whether the event has been consumed, and what was asked of the host.
#[derive(Debug)]
pub struct EventCtx {
    /// The holder of the input focus, if there is one.
    pub focus: Option<WidgetId>,
    /// Whether a handler has consumed the event.
    pub is_handled: bool,
    /// Whether a repaint was asked for.
    pub paint_requested: bool,
    /// Whether the set of items has changed.
    pub children_changed: bool,
    /// The commands submitted, first to last.
    pub commands: Vec<Command>,
}

/// An `EventCtx` as a value.
pub struct EventCtxView {
    pub focus: Option<WidgetId>,
    pub is_handled: bool,
    pub paint_requested: bool,
    pub children_changed: bool,
    pub commands: Seq<Command>,
}

impl View for EventCtx {
    type V = EventCtxView;

    open spec fn view(&self) -> EventCtxView {
        EventCtxView {
            focus: self.focus,
            is_handled: self.is_handled,
            paint_requested: self.paint_requested,
            children_changed: self.children_changed,
            commands: self.commands@,
        }
    }
}

impl EventCtxView {
    /// The context for an event that nothing has handled yet.
    pub open spec fn fresh(focus: Option<WidgetId>) -> EventCtxView {
        EventCtxView {
            focus,
            is_handled: false,
            paint_requested: false,
            children_changed: false,
            commands: Seq::empty(),
        }
    }

    pub open spec fn set_handled(self) -> EventCtxView {
        EventCtxView { is_handled: true, ..self }
    }

    pub open spec fn request_paint(self) -> EventCtxView {
        EventCtxView { paint_requested: true, ..self }
    }

    pub open spec fn children_changed(self) -> EventCtxView {
        EventCtxView { children_changed: true, ..self }
    }

    pub open spec fn request_focus(self, widget: WidgetId) -> EventCtxView {
        EventCtxView { focus: Some(widget), ..self }
    }

    pub open spec fn resign_focus(self, widget: WidgetId) -> EventCtxView {
        if self.focus == Some(widget) {
            EventCtxView { focus: None, ..self }
        } else {
            self
        }
    }

    pub open spec fn submit_command(self, command: Command) -> EventCtxView {
        EventCtxView { commands: self.commands.push(command), ..self }
    }
}

impl EventCtx {
    /// The context for a new event, with the focus where the last event left
    /// it.
    pub fn new(focus: Option<WidgetId>) -> (ctx: Self)
        ensures
            ctx@ == EventCtxView::fresh(focus),
    {
        EventCtx {
            focus,
            is_handled: false,
            paint_requested: false,
            children_changed: false,
            commands: Vec::new(),
        }
    }

    /// Whether a handler has consumed the event.
    pub fn is_handled(&self) -> (handled: bool)
        ensures
            handled == self@.is_handled,
    {
        self.is_handled
    }

    /// Whether `widget` holds the input focus.
    pub fn has_focus(&self, widget: WidgetId) -> (held: bool)
        ensures
            held == (self@.focus == Some(widget)),
    {
        match self.focus {
            Some(holder) => holder == widget,
            None => false,
        }
    }

    /// Consumes the event: the canvas leaves it to the items and does not
    /// handle it by the rules of its tool.
    pub fn set_handled(&mut self)
        ensures
            final(self)@ == old(self)@.set_handled(),
    {
        self.is_handled = true;
    }

    /// Asks the host for a repaint.
    pub fn request_paint(&mut self)
        ensures
            final(self)@ == old(self)@.request_paint(),
    {
        self.paint_requested = true;
    }

    /// Tells the host that an item was added.
    pub fn children_changed(&mut self)
        ensures
            final(self)@ == old(self)@.children_changed(),
    {
        self.children_changed = true;
    }

    /// Gives the input focus to `widget`.
    pub fn request_focus(&mut self, widget: WidgetId)
        ensures
            final(self)@ == old(self)@.request_focus(widget),
    {
        self.focus = Some(widget);
    }

    /// Takes the input focus from `widget`, if it holds it.
    pub fn resign_focus(&mut self, widget: WidgetId)
        ensures
            final(self)@ == old(self)@.resign_focus(widget),
    {
        if self.has_focus(widget) {
            self.focus = None;
        }
    }

    /// Puts `command` at the end of the commands to deliver.
    pub fn submit_command(&mut self, command: Command)
        ensures
            final(self)@ == old(self)@.submit_command(command),
    {
        self.commands.push(command);
    }
}

} // verus!
