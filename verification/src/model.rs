//! The edited document: an ordered list of worlds, each an ordered list of
//! entities, and the entity that is currently being edited.
//!
//! Worlds and entities are only ever appended, so a position in a list names
//! the same item for as long as the document lives. The entity being edited is
//! therefore kept as a pair of positions.

use vstd::prelude::*;

verus! {

/// One of the three axes along which an entity is placed.
#[derive(Clone, Copy, Debug, PartialEq, Eq, Structural)]
pub enum Axis {
    X,
    Y,
    Z,
}

/// A position along one axis, kept as the bit pattern of an IEEE 754
/// single-precision number. The library stores and hands on coordinates; it
/// never does arithmetic on them and never prints them.
#[derive(Clone, Copy, Debug, PartialEq, Eq, Structural)]
pub struct Coordinate {
    pub bits: u32,
}

impl Coordinate {
    /// Positive zero, whose bit pattern is all zeros.
    pub open spec fn zero() -> Coordinate {
        Coordinate { bits: 0 }
    }
}

/// A positional record that belongs to a world.
#[derive(Clone, Copy, Debug, PartialEq, Eq, Structural)]
pub struct EntityEntry {
    pub x: Coordinate,
    pub y: Coordinate,
    pub z: Coordinate,
}

impl EntityEntry {
    /// The entity that sits at zero on every axis.
    pub open spec fn at_origin() -> EntityEntry {
        EntityEntry { x: Coordinate::zero(), y: Coordinate::zero(), z: Coordinate::zero() }
    }

    /// The coordinate of this entity along `axis`.
    pub open spec fn along(self, axis: Axis) -> Coordinate {
        match axis {
            Axis::X => self.x,
            Axis::Y => self.y,
            Axis::Z => self.z,
        }
    }

    /// This entity with its coordinate along `axis` replaced by `to`.
    pub open spec fn placed(self, axis: Axis, to: Coordinate) -> EntityEntry {
        match axis {
            Axis::X => EntityEntry { x: to, ..self },
            Axis::Y => EntityEntry { y: to, ..self },
            Axis::Z => EntityEntry { z: to, ..self },
        }
    }

    /// A new entity, as the editor creates it.
    pub fn origin() -> (entity: EntityEntry)
        ensures
            entity == EntityEntry::at_origin(),
    {
        EntityEntry {
            x: Coordinate { bits: 0 },
            y: Coordinate { bits: 0 },
            z: Coordinate { bits: 0 },
        }
    }

    /// Reads the coordinate along `axis`.
    pub fn coordinate(&self, axis: Axis) -> (value: Coordinate)
        ensures
            value == self.along(axis),
    {
        match axis {
            Axis::X => self.x,
            Axis::Y => self.y,
            Axis::Z => self.z,
        }
    }

    /// Replaces the coordinate along `axis` and leaves the other two alone.
    pub fn place(&mut self, axis: Axis, to: Coordinate)
        ensures
            *final(self) == old(self).placed(axis, to),
    {
        match axis {
            Axis::X => {
                self.x = to;
            },
            Axis::Y => {
                self.y = to;
            },
            Axis::Z => {
                self.z = to;
            },
        }
    }
}

/// A named collection of entities. Its view is the sequence of its entities.
#[derive(Clone, Debug, PartialEq, Eq)]
pub struct WorldModel {
    pub entities: Vec<EntityEntry>,
}

impl View for WorldModel {
    type V = Seq<EntityEntry>;

    open spec fn view(&self) -> Seq<EntityEntry> {
        self.entities@
    }
}

/// The views of a list of worlds, in order.
pub open spec fn world_views(worlds: Seq<WorldModel>) -> Seq<Seq<EntityEntry>> {
    worlds.map_values(|world: WorldModel| world@)
}

/// Where an entity stands: the position of its world, and its own position
/// in that world.
#[derive(Clone, Copy, Debug, PartialEq, Eq, Structural)]
pub struct Selection {
    pub world: usize,
    pub entity: usize,
}

/// Why a change to the document was turned down. The document is left as it
/// was in every such case.
#[derive(Clone, Copy, Debug, PartialEq, Eq, Structural)]
pub enum Rejected {
    /// The world named does not exist.
    NoSuchWorld,
    /// The world exists, the entity named does not.
    NoSuchEntity,
}

/// The document as contracts see it.
pub struct ModelView {
    /// The worlds in order, each as the sequence of its entities.
    pub worlds: Seq<Seq<EntityEntry>>,
    /// Where the entity being edited stands, if one is being edited.
    pub current: Option<Selection>,
}

impl ModelView {
    /// True when `world` is the position of a world.
    pub open spec fn has_world(self, world: int) -> bool {
        0 <= world < self.worlds.len()
    }

    /// True when `world` is the position of a world and `entity` the position
    /// of an entity in it.
    pub open spec fn has_entity(self, world: int, entity: int) -> bool {
        self.has_world(world) && 0 <= entity < self.worlds[world].len()
    }

    /// True of every document that a machine holds: the number of worlds,
    /// and the number of entities of each world, fit in a `usize`.
    pub open spec fn fits(self) -> bool {
        &&& self.worlds.len() <= usize::MAX
        &&& forall|world: int|
            0 <= world < self.worlds.len() ==> (#[trigger] self.worlds[world]).len() <= usize::MAX
    }

    /// The invariant of a document: if an entity is being edited, it exists.
    pub open spec fn wf(self) -> bool {
        self.current matches Some(at) ==> self.has_entity(at.world as int, at.entity as int)
    }

    /// The entity being edited, if there is one.
    pub open spec fn current_entity(self) -> Option<EntityEntry> {
        match self.current {
            Some(at) => if self.has_entity(at.world as int, at.entity as int) {
                Some(self.worlds[at.world as int][at.entity as int])
            } else {
                None
            },
            None => None,
        }
    }

    /// The document with an empty world appended.
    pub open spec fn with_world(self) -> ModelView {
        ModelView { worlds: self.worlds.push(Seq::empty()), ..self }
    }

    /// The document with a new entity, at the origin, appended to the world
    /// at `world`.
    pub open spec fn with_entity(self, world: int) -> ModelView {
        ModelView {
            worlds: self.worlds.update(world, self.worlds[world].push(EntityEntry::at_origin())),
            ..self
        }
    }

    /// The document with the entity at `at` taken up for editing.
    pub open spec fn selecting(self, at: Selection) -> ModelView {
        ModelView { current: Some(at), ..self }
    }

    /// The document with the entity at `at` moved to `to` along `axis`. Every
    /// other entity, and the choice of the entity being edited, stay.
    pub open spec fn placing(self, at: Selection, axis: Axis, to: Coordinate) -> ModelView {
        let world = self.worlds[at.world as int];
        ModelView {
            worlds: self.worlds.update(
                at.world as int,
                world.update(at.entity as int, world[at.entity as int].placed(axis, to)),
            ),
            ..self
        }
    }

    /// The entity that stands at `at`.
    pub open spec fn entity_at(self, at: Selection) -> EntityEntry {
        self.worlds[at.world as int][at.entity as int]
    }

    /// True when every place of `then` is a place of this document: it has
    /// at least the worlds of `then`, and each of them has at least the
    /// entities it had. A document only ever grows in this way.
    pub open spec fn grew_from(self, then: ModelView) -> bool {
        &&& then.worlds.len() <= self.worlds.len()
        &&& forall|world: int|
            0 <= world < then.worlds.len() ==> (#[trigger] then.worlds[world]).len()
                <= self.worlds[world].len()
    }

    /// The number of entities in the first `count` worlds.
    pub open spec fn entities_before(self, count: int) -> int
        decreases count,
    {
        if count <= 0 {
            0
        } else {
            self.entities_before(count - 1) + self.worlds[count - 1].len()
        }
    }
}

/// Growing is a preorder: a document grew from itself, and from whatever
/// a document it grew from had grown from.
pub proof fn lemma_grew_from_chain(first: ModelView, second: ModelView, third: ModelView)
    requires
        second.grew_from(first),
        third.grew_from(second),
    ensures
        first.grew_from(first),
        third.grew_from(first),
{
    assert forall|world: int| 0 <= world < first.worlds.len() implies (
    #[trigger] first.worlds[world]).len() <= third.worlds[world].len() by {
        assert(first.worlds[world].len() <= second.worlds[world].len());
        assert(second.worlds[world].len() <= third.worlds[world].len());
    }
}

/// The document. Its worlds and the choice of the entity being edited change
/// only through the methods below, each of which keeps [`ModelView::wf`].
#[derive(Clone, Debug, PartialEq, Eq)]
pub struct Model {
    current_entity: Option<Selection>,
    worlds: Vec<WorldModel>,
}

impl View for Model {
    type V = ModelView;

    closed spec fn view(&self) -> ModelView {
        ModelView { worlds: world_views(self.worlds@), current: self.current_entity }
    }
}

impl Model {
    /// A document with no world, and no entity being edited.
    pub fn new() -> (model: Model)
        ensures
            model@.worlds == Seq::<Seq<EntityEntry>>::empty(),
            model@.current is None,
            model@.wf(),
    {
        let model = Model { current_entity: None, worlds: Vec::new() };
        assert(model@.worlds =~= Seq::<Seq<EntityEntry>>::empty());
        model
    }

    /// A document that holds `worlds`, with no entity being edited: the state
    /// in which a stored document is opened.
    pub fn from_worlds(worlds: Vec<WorldModel>) -> (model: Model)
        ensures
            model@.worlds == world_views(worlds@),
            model@.current is None,
            model@.wf(),
    {
        Model { current_entity: None, worlds }
    }

    /// The view of a document fits the machine.
    pub proof fn lemma_view_fits(&self)
        ensures
            self@.fits(),
    {
        assert(self.worlds.len() == self.worlds@.len());
        assert forall|world: int| 0 <= world < self@.worlds.len() implies (
        #[trigger] self@.worlds[world]).len() <= usize::MAX by {
            let entities = self.worlds@[world].entities;
            assert(entities.len() == entities@.len());
        }
    }

    /// The worlds, in order.
    pub fn worlds(&self) -> (worlds: &Vec<WorldModel>)
        ensures
            world_views(worlds@) == self@.worlds,
    {
        &self.worlds
    }

    /// Where the entity being edited stands.
    pub fn selection(&self) -> (at: Option<Selection>)
        ensures
            at == self@.current,
    {
        self.current_entity
    }

    /// The entity being edited.
    pub fn current_entity(&self) -> (entity: Option<EntityEntry>)
        ensures
            entity == self@.current_entity(),
    {
        match self.current_entity {
            Some(at) => {
                if at.world < self.worlds.len() && at.entity < self.worlds[at.world].entities.len() {
                    Some(self.worlds[at.world].entities[at.entity])
                } else {
                    None
                }
            },
            None => None,
        }
    }

    /// Appends an empty world.
    pub fn add_world(&mut self)
        ensures
            final(self)@ == old(self)@.with_world(),
            old(self)@.wf() ==> final(self)@.wf(),
    {
        self.worlds.push(WorldModel { entities: Vec::new() });
        assert(final(self)@.worlds =~= old(self)@.with_world().worlds);
    }

    /// Appends a new entity, at the origin, to the world at `world`.
    pub fn add_entity(&mut self, world: usize) -> (result: Result<(), Rejected>)
        ensures
            old(self)@.has_world(world as int) ==> result is Ok && final(self)@ == old(
                self,
            )@.with_entity(world as int),
            !old(self)@.has_world(world as int) ==> result == Err::<(), Rejected>(
                Rejected::NoSuchWorld,
            ) && final(self)@ == old(self)@,
            old(self)@.wf() ==> final(self)@.wf(),
    {
        if world < self.worlds.len() {
            self.worlds[world].entities.push(EntityEntry::origin());
            assert(final(self)@.worlds =~= old(self)@.with_entity(world as int).worlds);
            Ok(())
        } else {
            Err(Rejected::NoSuchWorld)
        }
    }

    /// Takes the entity at `at` up for editing.
    pub fn select(&mut self, at: Selection) -> (result: Result<(), Rejected>)
        ensures
            result == select_outcome(old(self)@, at),
            result is Ok ==> final(self)@ == old(self)@.selecting(at),
            result is Err ==> final(self)@ == old(self)@,
            result is Ok || old(self)@.wf() ==> final(self)@.wf(),
    {
        if at.world >= self.worlds.len() {
            Err(Rejected::NoSuchWorld)
        } else if at.entity >= self.worlds[at.world].entities.len() {
            Err(Rejected::NoSuchEntity)
        } else {
            self.current_entity = Some(at);
            Ok(())
        }
    }

    /// Looks up the entity that stands at `at`.
    pub fn entity(&self, at: Selection) -> (result: Result<EntityEntry, Rejected>)
        ensures
            select_outcome(self@, at) is Ok ==> result == Ok::<EntityEntry, Rejected>(
                self@.entity_at(at),
            ),
            select_outcome(self@, at) matches Err(reason) ==> result == Err::<
                EntityEntry,
                Rejected,
            >(reason),
    {
        if at.world >= self.worlds.len() {
            Err(Rejected::NoSuchWorld)
        } else if at.entity >= self.worlds[at.world].entities.len() {
            Err(Rejected::NoSuchEntity)
        } else {
            Ok(self.worlds[at.world].entities[at.entity])
        }
    }

    /// Moves the entity at `at` to `to` along `axis`. Which entity is being
    /// edited plays no part, and does not change.
    pub fn place(&mut self, at: Selection, axis: Axis, to: Coordinate) -> (result: Result<
        (),
        Rejected,
    >)
        ensures
            result == select_outcome(old(self)@, at),
            result is Ok ==> final(self)@ == old(self)@.placing(at, axis, to),
            result is Err ==> final(self)@ == old(self)@,
            old(self)@.wf() ==> final(self)@.wf(),
    {
        if at.world >= self.worlds.len() {
            Err(Rejected::NoSuchWorld)
        } else if at.entity >= self.worlds[at.world].entities.len() {
            Err(Rejected::NoSuchEntity)
        } else {
            self.worlds[at.world].entities[at.entity].place(axis, to);
            assert(final(self)@.worlds =~= old(self)@.placing(at, axis, to).worlds);
            Ok(())
        }
    }
}

/// Whether `at` names an entity of the document: the world is looked for
/// first, then the entity in it.
pub open spec fn select_outcome(model: ModelView, at: Selection) -> Result<(), Rejected> {
    if !model.has_world(at.world as int) {
        Err(Rejected::NoSuchWorld)
    } else if !model.has_entity(at.world as int, at.entity as int) {
        Err(Rejected::NoSuchEntity)
    } else {
        Ok(())
    }
}

} // verus!
