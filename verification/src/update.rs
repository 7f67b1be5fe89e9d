//! What a message does to the editor.
//!
//! [`update`] is the one place where the document changes while the editor
//! runs. It answers with a [`Command`]: work that only the front end can do.

use crate::message::Message;
use crate::model::{select_outcome, Axis, Coordinate, Model, ModelView, Rejected, Selection};
use crate::session::{SharedData, SharedDataView};
use crate::view::{
    editor_section, entity_widget, generate_view, layout_of, view_widgets, world_section,
    world_sections, WidgetView,
};
use vstd::prelude::*;

verus! {

/// Work that an accepted message leaves to the front end.
#[derive(Clone, Copy, Debug, PartialEq, Eq, Structural)]
pub enum Command {
    /// Nothing to do.
    Nothing,
    /// The document changed and its new layout waits to be shown: write the
    /// document to its file.
    Save,
    /// Add one to `from` if `up` is set, subtract one if not, and send the
    /// sum back as [`Message::Moved`] for the same entity and axis.
    Step { at: Selection, axis: Axis, from: Coordinate, up: bool },
}

/// The answer to `message` when the document is `model`: the command for an
/// accepted message, or why it is turned down. A message about an entity is
/// accepted exactly when that entity exists.
pub open spec fn outcome(model: ModelView, message: Message) -> Result<Command, Rejected> {
    match message {
        Message::SelectEntity { world, entity } => match select_outcome(
            model,
            Selection { world, entity },
        ) {
            Ok(_) => Ok(Command::Save),
            Err(reason) => Err(reason),
        },
        Message::AddEntity { world } => if model.has_world(world as int) {
            Ok(Command::Save)
        } else {
            Err(Rejected::NoSuchWorld)
        },
        Message::AddWorld => Ok(Command::Save),
        Message::Adjust { at, axis, up } => match select_outcome(model, at) {
            Ok(_) => Ok(Command::Step { at, axis, from: model.entity_at(at).along(axis), up }),
            Err(reason) => Err(reason),
        },
        Message::Moved { at, axis, to } => match select_outcome(model, at) {
            Ok(_) => Ok(Command::Save),
            Err(reason) => Err(reason),
        },
        Message::Cancel => Ok(Command::Nothing),
    }
}

/// The document after `message`. A message that is turned down, and one that
/// asks for no change, leave it as it was.
pub open spec fn next_model(model: ModelView, message: Message) -> ModelView {
    if outcome(model, message) is Err {
        model
    } else {
        match message {
            Message::SelectEntity { world, entity } => model.selecting(Selection { world, entity }),
            Message::AddEntity { world } => model.with_entity(world as int),
            Message::AddWorld => model.with_world(),
            Message::Moved { at, axis, to } => model.placing(at, axis, to),
            Message::Adjust { .. } | Message::Cancel => model,
        }
    }
}

/// The shared state after `message`. Whenever the answer is
/// [`Command::Save`], the layout of the new document waits to be shown;
/// [`Message::Cancel`] sets the flag that stops the loop; nothing else
/// touches the shared state.
pub open spec fn next_data(model: ModelView, data: SharedDataView, message: Message)
    -> SharedDataView {
    if outcome(model, message) == Ok::<Command, Rejected>(Command::Save) {
        SharedDataView { queued_layout: Some(layout_of(next_model(model, message))), ..data }
    } else if message == Message::Cancel {
        SharedDataView { canceled: true, ..data }
    } else {
        data
    }
}

/// A message keeps the document well formed, whether it is accepted or not.
pub proof fn lemma_next_model_wf(model: ModelView, message: Message)
    requires
        model.wf(),
    ensures
        next_model(model, message).wf(),
{
}

/// A message never takes a place away: the document after it has every
/// world and every entity of the document before it.
pub proof fn lemma_next_model_grows(model: ModelView, message: Message)
    ensures
        next_model(model, message).grew_from(model),
{
}

/// Nothing is ever removed or reordered: an entity that exists before a
/// message exists after it, at the same place. It is also unchanged, unless
/// the message reports that this very entity was moved.
pub proof fn lemma_positions_stay(model: ModelView, message: Message, world: int, entity: int)
    requires
        model.has_entity(world, entity),
    ensures
        next_model(model, message).has_entity(world, entity),
        next_model(model, message).worlds[world][entity] == if moves(message, world, entity) {
            model.worlds[world][entity].placed(message->Moved_axis, message->to)
        } else {
            model.worlds[world][entity]
        },
{
}

/// True when `message` is a [`Message::Moved`] for the entity that stands at
/// `entity` in the world at `world`.
pub open spec fn moves(message: Message, world: int, entity: int) -> bool {
    &&& message matches Message::Moved { at, .. }
    &&& at.world == world
    &&& at.entity == entity
}

/// The two halves of a step fit together, and act on the entity that the
/// message names. Where an adjustment is accepted, the command names the
/// coordinate that this entity has along that axis; once the front end
/// reports the sum, this entity is moved to the sum along that axis; and
/// which entity is being edited does not change.
pub proof fn lemma_step_then_moved(
    model: ModelView,
    at: Selection,
    axis: Axis,
    up: bool,
    to: Coordinate,
)
    requires
        outcome(model, Message::Adjust { at, axis, up }) is Ok,
    ensures
        model.has_entity(at.world as int, at.entity as int),
        outcome(model, Message::Adjust { at, axis, up }) == Ok::<Command, Rejected>(
            Command::Step { at, axis, from: model.entity_at(at).along(axis), up },
        ),
        outcome(model, Message::Moved { at, axis, to }) == Ok::<Command, Rejected>(Command::Save),
        next_model(model, Message::Moved { at, axis, to }).current == model.current,
        next_model(model, Message::Moved { at, axis, to }).entity_at(at) == model.entity_at(
            at,
        ).placed(axis, to),
{
}

/// True when `message` is about a place of `model`: it names an entity or a
/// world that `model` has, or it names none.
pub open spec fn in_reach(model: ModelView, message: Message) -> bool {
    match message {
        Message::SelectEntity { world, entity } => model.has_entity(world as int, entity as int),
        Message::AddEntity { world } => model.has_world(world as int),
        Message::Adjust { at, .. } | Message::Moved { at, .. } => model.has_entity(
            at.world as int,
            at.entity as int,
        ),
        Message::AddWorld | Message::Cancel => true,
    }
}

/// A message about a place of a document is accepted by that document and
/// by every document that grew from it.
pub proof fn lemma_in_reach_accepted(then: ModelView, now: ModelView, message: Message)
    requires
        in_reach(then, message),
        now.grew_from(then),
    ensures
        in_reach(now, message),
        outcome(now, message) is Ok,
{
}

/// Every button in the sections of the first `count` worlds takes up an
/// entity, or adds one to a world, that the document has.
pub proof fn lemma_section_buttons(model: ModelView, count: int, index: int)
    requires
        model.fits(),
        0 <= count <= model.worlds.len(),
        0 <= index < world_sections(model.worlds, count).len(),
        world_sections(model.worlds, count)[index] is Button,
    ensures
        in_reach(model, world_sections(model.worlds, count)[index]->action),
        world_sections(model.worlds, count)[index]->action is SelectEntity || world_sections(
            model.worlds,
            count,
        )[index]->action is AddEntity,
    decreases count,
{
    let before = world_sections(model.worlds, count - 1);
    if index < before.len() {
        lemma_section_buttons(model, count - 1, index);
    } else {
        let entities = model.worlds[count - 1];
        let offset = index - before.len();
        assert(world_sections(model.worlds, count)[index] == world_section(
            count - 1,
            entities,
        )[offset]);
        if 1 <= offset <= entities.len() {
            assert(world_section(count - 1, entities)[offset] == entity_widget(
                count - 1,
                offset - 1,
                entities[offset - 1],
            ));
        }
    }
}

/// Every button of the layout of a well-formed document is about a place of
/// that document.
pub proof fn lemma_buttons_in_reach(model: ModelView, index: int)
    requires
        model.wf(),
        model.fits(),
        0 <= index < view_widgets(model).len(),
        view_widgets(model)[index] is Button,
    ensures
        in_reach(model, view_widgets(model)[index]->action),
{
    let sections = world_sections(model.worlds, model.worlds.len() as int);
    if index < sections.len() {
        lemma_section_buttons(model, model.worlds.len() as int, index);
    } else if index > sections.len() {
        let offset = index - sections.len() - 1;
        assert(view_widgets(model)[index] == editor_section(model)[offset]);
    }
}

/// No click is turned down, not even a click on a layout that is a state
/// behind: every button of the layout of a well-formed document asks for
/// something that this document accepts, and that every document accepts
/// that grew from it.
pub proof fn lemma_buttons_accepted(then: ModelView, now: ModelView, index: int)
    requires
        then.wf(),
        then.fits(),
        now.grew_from(then),
        0 <= index < view_widgets(then).len(),
        view_widgets(then)[index] is Button,
    ensures
        outcome(now, view_widgets(then)[index]->action) is Ok,
{
    lemma_buttons_in_reach(then, index);
    lemma_in_reach_accepted(then, now, view_widgets(then)[index]->action);
}

/// An adder names the entity that was being edited when its layout was
/// made: every button of the layout of `model` that asks for an adjustment
/// asks for it at the place of the entity that `model` has in editing.
pub proof fn lemma_adders_name_the_edited_entity(model: ModelView, index: int)
    requires
        model.fits(),
        0 <= index < view_widgets(model).len(),
        view_widgets(model)[index] matches WidgetView::Button { action, .. } && action is Adjust,
    ensures
        model.current_entity() is Some,
        model.current == Some(view_widgets(model)[index]->action->Adjust_at),
{
    let sections = world_sections(model.worlds, model.worlds.len() as int);
    if index < sections.len() {
        lemma_section_buttons(model, model.worlds.len() as int, index);
    } else if index > sections.len() {
        let offset = index - sections.len() - 1;
        assert(view_widgets(model)[index] == editor_section(model)[offset]);
    }
}

/// A press on an adder moves the entity that the adder was made for, and no
/// other, whatever was taken up for editing in between. With `then` the
/// document whose layout holds the adder, and `now` a document that grew
/// from it: the adjustment and the report of the sum are accepted by `now`,
/// the entity that `then` had in editing is moved, every other entity of
/// `now` is as it was, and `now` keeps the entity it has in editing.
pub proof fn lemma_adder_moves_its_entity(
    then: ModelView,
    now: ModelView,
    index: int,
    to: Coordinate,
    world: int,
    entity: int,
)
    requires
        then.wf(),
        then.fits(),
        now.grew_from(then),
        0 <= index < view_widgets(then).len(),
        view_widgets(then)[index] matches WidgetView::Button { action, .. } && action is Adjust,
        now.has_entity(world, entity),
    ensures
        ({
            let press = view_widgets(then)[index]->action;
            let at = then.current->0;
            let moved = Message::Moved { at, axis: press->Adjust_axis, to };
            let after = next_model(now, moved);
            &&& press->Adjust_at == at
            &&& outcome(now, press) == Ok::<Command, Rejected>(
                Command::Step {
                    at,
                    axis: press->Adjust_axis,
                    from: now.entity_at(at).along(press->Adjust_axis),
                    up: press->up,
                },
            )
            &&& outcome(now, moved) == Ok::<Command, Rejected>(Command::Save)
            &&& after.current == now.current
            &&& after.entity_at(at) == now.entity_at(at).placed(press->Adjust_axis, to)
            &&& (world != at.world || entity != at.entity) ==> after.worlds[world][entity]
                == now.worlds[world][entity]
        }),
{
    lemma_adders_name_the_edited_entity(then, index);
    let press = view_widgets(then)[index]->action;
    let at = then.current->0;
    lemma_in_reach_accepted(then, now, press);
    lemma_positions_stay(now, Message::Moved { at, axis: press->Adjust_axis, to }, world, entity);
}

fn changed(model: &Model, data: &mut SharedData) -> (command: Command)
    ensures
        command == Command::Save,
        final(data)@ == (SharedDataView { queued_layout: Some(layout_of(model@)), ..old(data)@ }),
{
    data.queued_layout = Some(generate_view(model));
    Command::Save
}

/// Applies `message` to the editor and says what is left for the front end
/// to do.
pub fn update(model: &mut Model, data: &mut SharedData, message: Message) -> (result: Result<
    Command,
    Rejected,
>)
    ensures
        result == outcome(old(model)@, message),
        final(model)@ == next_model(old(model)@, message),
        final(data)@ == next_data(old(model)@, old(data)@, message),
        old(model)@.wf() ==> final(model)@.wf(),
{
    match message {
        Message::SelectEntity { world, entity } => {
            match model.select(Selection { world, entity }) {
                Ok(_) => Ok(changed(model, data)),
                Err(reason) => Err(reason),
            }
        },
        Message::AddEntity { world } => {
            match model.add_entity(world) {
                Ok(_) => Ok(changed(model, data)),
                Err(reason) => Err(reason),
            }
        },
        Message::AddWorld => {
            model.add_world();
            Ok(changed(model, data))
        },
        Message::Adjust { at, axis, up } => {
            match model.entity(at) {
                Ok(entity) => Ok(Command::Step { at, axis, from: entity.coordinate(axis), up }),
                Err(reason) => Err(reason),
            }
        },
        Message::Moved { at, axis, to } => {
            match model.place(at, axis, to) {
                Ok(_) => Ok(changed(model, data)),
                Err(reason) => Err(reason),
            }
        },
        Message::Cancel => {
            data.canceled = true;
            Ok(Command::Nothing)
        },
    }
}

} // verus!
