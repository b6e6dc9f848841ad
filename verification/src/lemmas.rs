//! What holds of the canvas whatever happens to it.

use crate::canvas::{ctx_through, may_add_item, CanvasModel};
use crate::component::{catalog_wf, Component, ComponentState, ComponentType};
use crate::event::{Command, Event, EventCtxView, MouseButton, MouseEvent, WidgetId};
use crate::geometry::Point;
use vstd::prelude::*;

verus! {

/// A well-formed component is well-formed after any event.
pub proof fn lemma_component_stays_wf(
    item: Component,
    ctx: EventCtxView,
    event: Event,
    data: ComponentState,
    types: Seq<ComponentType>,
)
    requires
        data.wf(types),
    ensures
        item.state_after(ctx, event, data, types).wf(types),
        item.state_after(ctx, event, data, types).instance.ty == data.instance.ty,
{
}

/// A well-formed canvas is well-formed after any event, as long as an event
/// that may add an item finds a free id.
pub proof fn lemma_canvas_stays_wf(
    canvas: CanvasModel,
    ctx: EventCtxView,
    event: Event,
    types: Seq<ComponentType>,
)
    requires
        canvas.wf(types),
        may_add_item(event) ==> canvas.next_item_id < usize::MAX,
    ensures
        canvas.after(ctx, event, types).wf(types),
{
    let offered = canvas.after_children(ctx, event, types);
    assert forall|i: int| 0 <= i < offered.components.len() implies (
    #[trigger] offered.components[i]).wf(types) by {
        lemma_component_stays_wf(
            canvas.component_ids[i],
            ctx_through(canvas.component_ids, canvas.components, ctx, event, types, i),
            event,
            canvas.components[i],
            types,
        );
    }
    assert(offered.wf(types));
    if !CanvasModel::passes_over(canvas.children_ctx(ctx, event, types), event) {
        let after = offered.tool_step(event, types.len());
        assert(after.wf(types));
    }
}

/// Ids only grow. An event adds at most one item; the items that were there
/// keep their ids and their places; an item that is added gets the id that
/// was free, which is greater than the id of every item there was, and the
/// next free id is the one after it.
pub proof fn lemma_ids_increase(
    canvas: CanvasModel,
    ctx: EventCtxView,
    event: Event,
    types: Seq<ComponentType>,
)
    requires
        canvas.wf(types),
        may_add_item(event) ==> canvas.next_item_id < usize::MAX,
    ensures
        ({
            let after = canvas.after(ctx, event, types);
            let added = after.component_ids.len() - canvas.component_ids.len()
                + after.wire_ids.len() - canvas.wire_ids.len();
            &&& canvas.component_ids.is_prefix_of(after.component_ids)
            &&& canvas.wire_ids.is_prefix_of(after.wire_ids)
            &&& 0 <= added <= 1
            &&& after.next_item_id == canvas.next_item_id + added
            &&& forall|i: int|
                canvas.component_ids.len() <= i < after.component_ids.len() ==> (
                #[trigger] after.component_ids[i]).0 == canvas.next_item_id
            &&& forall|i: int|
                canvas.wire_ids.len() <= i < after.wire_ids.len() ==> (
                #[trigger] after.wire_ids[i]).0 == canvas.next_item_id
            &&& forall|i: int|
                0 <= i < canvas.component_ids.len() ==> (#[trigger] canvas.component_ids[i]).0
                    < canvas.next_item_id
            &&& forall|i: int|
                0 <= i < canvas.wire_ids.len() ==> (#[trigger] canvas.wire_ids[i]).0
                    < canvas.next_item_id
        }),
{
}

/// After a command to deselect, whatever the context, every component but
/// the sender is neither selected nor held, and is otherwise as before; the
/// sender, if it is a component of the canvas, is as it was; and nothing else
/// on the canvas has changed: the same items under the same ids.
pub proof fn lemma_deselect_all(
    canvas: CanvasModel,
    ctx: EventCtxView,
    sender: WidgetId,
    types: Seq<ComponentType>,
)
    ensures
        ({
            let after = canvas.after(ctx, Event::Command(Command::DeselectAll(sender)), types);
            &&& after.components.len() == canvas.components.len()
            &&& forall|i: int|
                0 <= i < canvas.components.len() && canvas.component_ids[i].widget_id() != sender
                    ==> #[trigger] after.components[i] == canvas.components[i].deselected()
                    && !after.components[i].selected
            &&& forall|i: int|
                0 <= i < canvas.components.len() && canvas.component_ids[i].widget_id() == sender
                    ==> #[trigger] after.components[i] == canvas.components[i]
            &&& after == (CanvasModel { components: after.components, ..canvas })
        }),
{
    let event = Event::Command(Command::DeselectAll(sender));
    let after = canvas.after(ctx, event, types);
    crate::canvas::lemma_command_through(
        canvas.component_ids,
        canvas.components,
        ctx,
        Command::DeselectAll(sender),
        types,
        canvas.components.len() as int,
    );
    assert forall|i: int| 0 <= i < canvas.components.len() implies (canvas.component_ids[i].widget_id()
        != sender ==> #[trigger] after.components[i] == canvas.components[i].deselected())
        && (canvas.component_ids[i].widget_id() == sender ==> after.components[i]
        == canvas.components[i]) by {
        crate::canvas::lemma_command_through(
            canvas.component_ids,
            canvas.components,
            ctx,
            Command::DeselectAll(sender),
            types,
            i,
        );
    }
}

/// A command adds no item and takes no id.
pub proof fn lemma_command_adds_nothing(
    canvas: CanvasModel,
    ctx: EventCtxView,
    command: Command,
    types: Seq<ComponentType>,
)
    ensures
        ({
            let after = canvas.after(ctx, Event::Command(command), types);
            &&& after.component_ids == canvas.component_ids
            &&& after.wire_ids == canvas.wire_ids
            &&& after.wires == canvas.wires
            &&& after.next_item_id == canvas.next_item_id
        }),
{
}

/// Delivering commands keeps a canvas well-formed, adds no item and takes no
/// id.
pub proof fn lemma_delivery_adds_nothing(
    canvas: CanvasModel,
    ctx: EventCtxView,
    commands: Seq<Command>,
    types: Seq<ComponentType>,
    n: int,
)
    requires
        canvas.wf(types),
    ensures
        ({
            let after = canvas.delivered(ctx, commands, types, n).0;
            &&& after.wf(types)
            &&& after.component_ids == canvas.component_ids
            &&& after.wire_ids == canvas.wire_ids
            &&& after.wires == canvas.wires
            &&& after.next_item_id == canvas.next_item_id
        }),
    decreases n,
{
    if n > 0 {
        lemma_delivery_adds_nothing(canvas, ctx, commands, types, n - 1);
        let (before, before_ctx) = canvas.delivered(ctx, commands, types, n - 1);
        lemma_canvas_stays_wf(before, before_ctx, Event::Command(commands[n - 1]), types);
        lemma_command_adds_nothing(before, before_ctx, commands[n - 1], types);
    }
}

/// The canvas, and the holder of the input focus, after each of `events` has
/// been dispatched in turn, every one with a context of its own.
pub open spec fn after_events(
    canvas: CanvasModel,
    focus: Option<WidgetId>,
    events: Seq<Event>,
    types: Seq<ComponentType>,
) -> (CanvasModel, Option<WidgetId>)
    decreases events.len(),
{
    if events.len() == 0 {
        (canvas, focus)
    } else {
        let (before, held) = after_events(canvas, focus, events.drop_last(), types);
        let (after, ctx) = before.dispatched(EventCtxView::fresh(held), events.last(), types);
        (after, ctx.focus)
    }
}

/// Dispatching an event keeps a canvas well-formed and treats ids as a single
/// event does: at most one item is added, it gets the id that was free, and
/// the items that were there keep their ids and their places.
pub proof fn lemma_dispatch_ids_increase(
    canvas: CanvasModel,
    ctx: EventCtxView,
    event: Event,
    types: Seq<ComponentType>,
)
    requires
        canvas.wf(types),
        may_add_item(event) ==> canvas.next_item_id < usize::MAX,
    ensures
        ({
            let after = canvas.dispatched(ctx, event, types).0;
            let added = after.component_ids.len() - canvas.component_ids.len()
                + after.wire_ids.len() - canvas.wire_ids.len();
            &&& after.wf(types)
            &&& canvas.component_ids.is_prefix_of(after.component_ids)
            &&& canvas.wire_ids.is_prefix_of(after.wire_ids)
            &&& 0 <= added <= 1
            &&& after.next_item_id == canvas.next_item_id + added
            &&& forall|i: int|
                canvas.component_ids.len() <= i < after.component_ids.len() ==> (
                #[trigger] after.component_ids[i]).0 == canvas.next_item_id
            &&& forall|i: int|
                canvas.wire_ids.len() <= i < after.wire_ids.len() ==> (
                #[trigger] after.wire_ids[i]).0 == canvas.next_item_id
        }),
{
    lemma_canvas_stays_wf(canvas, ctx, event, types);
    lemma_ids_increase(canvas, ctx, event, types);
    let handled = canvas.ctx_after(ctx, event, types);
    let emptied = EventCtxView { commands: Seq::empty(), ..handled };
    lemma_delivery_adds_nothing(
        canvas.after(ctx, event, types),
        emptied,
        handled.commands,
        types,
        handled.commands.len() as int,
    );
}

/// Ids are never used twice. Whatever events are dispatched, as long as ids
/// are left: the canvas stays well-formed, so that the ids of its items
/// ascend and no two items share one; the items that were there keep their
/// ids and their places; and every item that was added has an id that was
/// free at the start and is taken at the end.
pub proof fn lemma_ids_never_reused(
    canvas: CanvasModel,
    focus: Option<WidgetId>,
    events: Seq<Event>,
    types: Seq<ComponentType>,
)
    requires
        canvas.wf(types),
        canvas.next_item_id + events.len() <= usize::MAX,
    ensures
        ({
            let last = after_events(canvas, focus, events, types).0;
            &&& last.wf(types)
            &&& canvas.component_ids.is_prefix_of(last.component_ids)
            &&& canvas.wire_ids.is_prefix_of(last.wire_ids)
            &&& canvas.next_item_id <= last.next_item_id <= canvas.next_item_id + events.len()
            &&& forall|i: int|
                canvas.component_ids.len() <= i < last.component_ids.len() ==> canvas.next_item_id
                    <= (#[trigger] last.component_ids[i]).0 < last.next_item_id
            &&& forall|i: int|
                canvas.wire_ids.len() <= i < last.wire_ids.len() ==> canvas.next_item_id <= (
                #[trigger] last.wire_ids[i]).0 < last.next_item_id
        }),
    decreases events.len(),
{
    if events.len() > 0 {
        lemma_ids_never_reused(canvas, focus, events.drop_last(), types);
        let (before, held) = after_events(canvas, focus, events.drop_last(), types);
        lemma_dispatch_ids_increase(before, EventCtxView::fresh(held), events.last(), types);
        let last = after_events(canvas, focus, events, types).0;
        assert forall|i: int|
            canvas.component_ids.len() <= i < last.component_ids.len() implies canvas.next_item_id
            <= (#[trigger] last.component_ids[i]).0 < last.next_item_id by {
            if i < before.component_ids.len() {
                assert(last.component_ids[i] == before.component_ids[i]);
            }
        }
        assert forall|i: int|
            canvas.wire_ids.len() <= i < last.wire_ids.len() implies canvas.next_item_id <= (
            #[trigger] last.wire_ids[i]).0 < last.next_item_id by {
            if i < before.wire_ids.len() {
                assert(last.wire_ids[i] == before.wire_ids[i]);
            }
        }
    }
}

/// Whether a pointer at `pos` is on the component: on one of its pins, or in
/// its box.
pub open spec fn is_hit(data: ComponentState, pos: Point, types: Seq<ComponentType>) -> bool {
    data.instance.spec_pin_at(pos, types).is_some() || data.instance.spec_bounding_rect(
        types,
    ).contains(pos)
}

/// Components that the pointer misses leave a press of its button as it was:
/// if the pointer is on none of the components from number `from` up to
/// number `n`, the context after the first `n` is the context after the first
/// `from`.
proof fn lemma_press_passes_misses(
    ids: Seq<Component>,
    states: Seq<ComponentState>,
    ctx: EventCtxView,
    mouse: MouseEvent,
    types: Seq<ComponentType>,
    from: int,
    n: int,
)
    requires
        0 <= from <= n <= states.len(),
        forall|j: int| from <= j < n ==> !is_hit(#[trigger] states[j], mouse.pos(), types),
    ensures
        ctx_through(ids, states, ctx, Event::MouseDown(mouse), types, n) == ctx_through(
            ids,
            states,
            ctx,
            Event::MouseDown(mouse),
            types,
            from,
        ),
    decreases n,
{
    if n > from {
        lemma_press_passes_misses(ids, states, ctx, mouse, types, from, n - 1);
        assert(!is_hit(states[n - 1], mouse.pos(), types));
    }
}

/// The sender of a command to deselect keeps the input focus that it holds.
proof fn lemma_deselect_keeps_focus(
    canvas: CanvasModel,
    ctx: EventCtxView,
    sender: WidgetId,
    types: Seq<ComponentType>,
    n: int,
)
    requires
        ctx.focus == Some(sender),
    ensures
        ctx_through(
            canvas.component_ids,
            canvas.components,
            ctx,
            Event::Command(Command::DeselectAll(sender)),
            types,
            n,
        ).focus == Some(sender),
        ctx.paint_requested ==> ctx_through(
            canvas.component_ids,
            canvas.components,
            ctx,
            Event::Command(Command::DeselectAll(sender)),
            types,
            n,
        ).paint_requested,
    decreases n,
{
    if n > 0 {
        lemma_deselect_keeps_focus(canvas, ctx, sender, types, n - 1);
    }
}

/// One click on one component selects it alone. When the primary button is
/// pressed without the key that extends a selection, on one component only,
/// in its box and not on a pin, then after the dispatch that component is
/// selected, held at the pointer's position and holds the input focus, and
/// every other component is neither selected nor held.
pub proof fn lemma_click_selects_one(
    canvas: CanvasModel,
    focus: Option<WidgetId>,
    mouse: MouseEvent,
    types: Seq<ComponentType>,
    k: int,
)
    requires
        canvas.wf(types),
        mouse.button == MouseButton::Left,
        !mouse.ctrl,
        0 <= k < canvas.components.len(),
        forall|j: int|
            0 <= j < canvas.components.len() && j != k ==> !is_hit(
                #[trigger] canvas.components[j],
                mouse.pos(),
                types,
            ),
        canvas.components[k].instance.spec_pin_at(mouse.pos(), types).is_none(),
        canvas.components[k].instance.spec_bounding_rect(types).contains(mouse.pos()),
    ensures
        ({
            let (after, ctx) = canvas.dispatched(
                EventCtxView::fresh(focus),
                Event::MouseDown(mouse),
                types,
            );
            &&& after.components.len() == canvas.components.len()
            &&& after.components[k] == canvas.components[k].grabbed(mouse.pos())
            &&& forall|j: int|
                0 <= j < canvas.components.len() && j != k ==> #[trigger] after.components[j]
                    == canvas.components[j].deselected()
            &&& after == (CanvasModel { components: after.components, ..canvas })
            &&& ctx.focus == Some(canvas.component_ids[k].widget_id())
            &&& ctx.is_handled
            &&& ctx.paint_requested
            &&& ctx.commands.len() == 0
        }),
{
    let ids = canvas.component_ids;
    let states = canvas.components;
    let fresh = EventCtxView::fresh(focus);
    let event = Event::MouseDown(mouse);
    let len = states.len() as int;
    let me = ids[k].widget_id();
    lemma_press_passes_misses(ids, states, fresh, mouse, types, 0, k);
    let taken = ctx_through(ids, states, fresh, event, types, k + 1);
    assert(taken == fresh.request_paint().submit_command(Command::DeselectAll(me)).request_focus(
        me,
    ).set_handled());
    lemma_press_passes_misses(ids, states, fresh, mouse, types, k + 1, len);
    let first = canvas.after(fresh, event, types);
    assert forall|j: int| 0 <= j < len implies #[trigger] first.components[j] == (if j == k {
        states[k].grabbed(mouse.pos())
    } else {
        states[j]
    }) by {
        if j != k {
            assert(!is_hit(states[j], mouse.pos(), types));
        } else {
            lemma_press_passes_misses(ids, states, fresh, mouse, types, 0, k);
        }
    }
    let handled = canvas.ctx_after(fresh, event, types);
    assert(handled == taken);
    assert(handled.commands =~= seq![Command::DeselectAll(me)]);
    let emptied = EventCtxView { commands: Seq::empty(), ..handled };
    assert(first.delivered(emptied, handled.commands, types, 0) == (first, emptied));
    lemma_deselect_all(first, emptied, me, types);
    crate::canvas::lemma_command_submits_nothing(first, emptied, Command::DeselectAll(me), types);
    crate::canvas::lemma_command_through(
        first.component_ids,
        first.components,
        emptied,
        Command::DeselectAll(me),
        types,
        len,
    );
    lemma_deselect_keeps_focus(first, emptied, me, types, len);
    let (after, ctx) = canvas.dispatched(fresh, event, types);
    assert forall|j: int| 0 <= j < len && j != k implies #[trigger] after.components[j]
        == states[j].deselected() by {
        if j < k {
            assert(ids[j].0 < ids[k].0);
        } else {
            assert(ids[k].0 < ids[j].0);
        }
    }
}

} // verus!
