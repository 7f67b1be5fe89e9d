//! What a button asks for when it is pressed, and what the front end reports
//! back to the document.

use crate::model::{Axis, Coordinate, Selection};
use vstd::prelude::*;

verus! {

/// A request to the editor. Every button of a layout carries one; the front
/// end sends it when the button is clicked.
#[derive(Clone, Copy, Debug, PartialEq, Eq, Structural)]
pub enum Message {
    /// Take the entity at `entity` in the world at `world` up for editing.
    SelectEntity { world: usize, entity: usize },
    /// Append a new entity to the world at `world`.
    AddEntity { world: usize },
    /// Append an empty world.
    AddWorld,
    /// Move the entity at `at` one unit along `axis`, up or down. The button
    /// names the entity it was made for, so a press moves that entity
    /// whichever entity is being edited by then. The sum is the front end's
    /// to compute; see [`Message::Moved`].
    Adjust { at: Selection, axis: Axis, up: bool },
    /// The entity at `at` now stands at `to` along `axis`.
    Moved { at: Selection, axis: Axis, to: Coordinate },
    /// Close the editor.
    Cancel,
}

} // verus!
